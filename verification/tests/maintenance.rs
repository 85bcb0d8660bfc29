use pi_agent::agent::{Agent, AgentConfig, ProviderIdentity, ToolInfo};
use pi_agent::compact::{
    auto_compaction_result_payload, before_compact_payload, session_compact_payload, BeforeCompact,
    CompactionAction, CompactionInput, CompactionRecord, CompactionWork, SessionCompaction,
};
use pi_agent::effects::ToolEffects;
use pi_agent::error::Error;
use pi_agent::event::AgentEvent;
use pi_agent::extensions::{
    count_repairs, memory_limit_bytes, repair_detail_lines, repair_summary_line,
    resolve_extension_policy_for_enable, resolve_runtime_settings, wants_repair_details, EnableAction, EnableInput, Enabling,
    ExtensionLink, PreWarmedExtensionRuntime, RepairEvent, RepairMode, RepairPolicyMode,
    RuntimeKind,
};
use pi_agent::host::{ExtensionQueueModeState, ExtensionSendUserMessage, HostState};
use pi_agent::json::Json;
use pi_agent::queue::QueueMode;
use pi_agent::session::{AgentSession, CompactionSettings};

fn text(s: &str) -> Json {
    Json::Text(s.to_string())
}

fn object(fields: &[(&str, Json)]) -> Json {
    Json::Object(fields.iter().map(|(name, value)| (name.to_string(), value.clone())).collect())
}

fn record() -> CompactionRecord {
    CompactionRecord {
        summary: "Compacted 10 messages into 2".to_string(),
        first_kept_entry_id: "entry-5".to_string(),
        tokens_before: 12_000,
        details: Some(object(&[
            ("readFiles", Json::Array(vec![text("src/main.rs")])),
            ("modifiedFiles", Json::Array(vec![text("src/agent.rs")])),
        ])),
    }
}

fn agent() -> Agent {
    Agent::new(
        ProviderIdentity {
            api: "test-api".to_string(),
            name: "test-provider".to_string(),
            model_id: "test-model".to_string(),
        },
        Vec::new(),
        AgentConfig::with_iteration_setting(None),
    )
}

#[test]
fn apply_compaction_result_emits_structured_result_payload() {
    let mut compacting = true;
    let mut events = Vec::new();
    let (mut compaction, action) = SessionCompaction::background(true);
    assert_eq!(action, CompactionAction::PollWorker);
    let action = compaction.step(
        CompactionInput::Worker(Some(CompactionWork::Ready(record()))),
        &mut compacting,
        &mut events,
    );
    assert_eq!(action, CompactionAction::Apply(record(), false));
    assert!(!compacting);
    let action = compaction.step(CompactionInput::Applied(Ok(())), &mut compacting, &mut events);
    assert_eq!(action, CompactionAction::CheckQuota);

    let payload = events
        .iter()
        .find_map(|event| match event {
            AgentEvent::AutoCompactionEnd { result: Some(result), .. } => Some(result.clone()),
            _ => None,
        })
        .expect("auto compaction end payload");
    assert_eq!(payload.get("summary"), Some(&text("Compacted 10 messages into 2")));
    assert_eq!(payload.get("firstKeptEntryId"), Some(&text("entry-5")));
    assert_eq!(payload.get("tokensBefore"), Some(&Json::Unsigned(12_000)));
    let details = payload.get("details").expect("details");
    assert_eq!(details.get("readFiles"), Some(&Json::Array(vec![text("src/main.rs")])));
    assert_eq!(details.get("modifiedFiles"), Some(&Json::Array(vec![text("src/agent.rs")])));
}

#[test]
fn a_forced_compaction_ends_what_it_starts() {
    let mut compacting = false;
    let mut events = Vec::new();
    let (mut compaction, action) = SessionCompaction::synchronous(true);
    assert_eq!(action, CompactionAction::Prepare);
    let action =
        compaction.step(CompactionInput::Preparation(Ok(true)), &mut compacting, &mut events);
    assert_eq!(action, CompactionAction::DispatchBefore);
    let action = compaction.step(
        CompactionInput::Before(BeforeCompact { cancel: false, compaction: None }),
        &mut compacting,
        &mut events,
    );
    assert_eq!(action, CompactionAction::Compact);
    assert!(compacting);
    let action = compaction.step(
        CompactionInput::Compacted(CompactionWork::Failed(Error::api("down"))),
        &mut compacting,
        &mut events,
    );
    assert_eq!(action, CompactionAction::Finish(Err(Error::api("down"))));
    assert!(!compacting);
    assert!(matches!(&events[0], AgentEvent::AutoCompactionStart { .. }));
    assert!(matches!(
        &events[1],
        AgentEvent::AutoCompactionEnd { error_message: Some(text), aborted: false, .. }
            if text == "API error: down"
    ));
}

#[test]
fn a_cancelled_compaction_fails_only_if_forced() {
    for forced in [false, true] {
        let mut compacting = false;
        let mut events = Vec::new();
        let mut compaction = if forced {
            SessionCompaction::synchronous(true).0
        } else {
            let mut compaction = SessionCompaction::background(true).0;
            compaction.step(CompactionInput::Worker(None), &mut compacting, &mut events);
            compaction.step(CompactionInput::Quota(true), &mut compacting, &mut events);
            compaction
        };
        compaction.step(CompactionInput::Preparation(Ok(true)), &mut compacting, &mut events);
        let action = compaction.step(
            CompactionInput::Before(BeforeCompact { cancel: true, compaction: None }),
            &mut compacting,
            &mut events,
        );
        if forced {
            assert!(matches!(
                action,
                CompactionAction::Finish(Err(Error::Extension(text))) if text == "Compaction cancelled"
            ));
        } else {
            assert_eq!(action, CompactionAction::Finish(Ok(())));
        }
        assert!(matches!(&events[1], AgentEvent::AutoCompactionEnd { aborted: true, .. }));
    }
    assert_eq!(SessionCompaction::background(false).1, CompactionAction::Finish(Ok(())));
}

#[test]
fn a_compaction_by_an_extension_is_taken_over() {
    let mut compacting = false;
    let mut events = Vec::new();
    let (mut compaction, _) = SessionCompaction::synchronous(true);
    compaction.step(CompactionInput::Preparation(Ok(true)), &mut compacting, &mut events);
    let action = compaction.step(
        CompactionInput::Before(BeforeCompact { cancel: false, compaction: Some(record()) }),
        &mut compacting,
        &mut events,
    );
    assert_eq!(action, CompactionAction::Apply(record(), true));
    let action = compaction.step(CompactionInput::Applied(Ok(())), &mut compacting, &mut events);
    assert_eq!(action, CompactionAction::Finish(Ok(())));
    assert!(!compacting);
}

#[test]
fn extensions_are_told_of_compactions() {
    assert_eq!(
        before_compact_payload(Json::Null, Json::Array(Vec::new()), &Some("short".to_string())),
        object(&[
            ("preparation", Json::Null),
            ("branchEntries", Json::Array(Vec::new())),
            ("customInstructions", text("short")),
        ])
    );
    assert_eq!(
        before_compact_payload(Json::Null, Json::Null, &None),
        object(&[("preparation", Json::Null), ("branchEntries", Json::Null)])
    );
    assert_eq!(
        session_compact_payload(text("e"), true),
        object(&[("compactionEntry", text("e")), ("fromExtension", Json::Bool(true))])
    );
    let bare = CompactionRecord { details: None, ..record() };
    assert_eq!(auto_compaction_result_payload(&bare).get("details"), None);
}

#[test]
fn agent_session_enable_extensions_with_no_entries_clears_and_is_noop() {
    let agent = agent();
    let mut host = HostState::new(QueueMode::OneAtATime, QueueMode::OneAtATime);
    let mut link = ExtensionLink {
        enabled: true,
        modes: Some(ExtensionQueueModeState::new(QueueMode::OneAtATime, QueueMode::OneAtATime)),
    };
    let (_, action) = Enabling::start(0, None, &agent, &host, &mut link);
    assert_eq!(action, EnableAction::Finish(Ok(())));
    assert!(!link.enabled, "existing extensions should be cleared for an empty extension list");
    assert!(link.modes.is_none(), "empty extension list should clear queue mode mirrors");
    let mut session = AgentSession::new(
        agent,
        false,
        CompactionSettings { enabled: false, context_window_tokens: 0 },
    );
    session.link = link;
    session.set_queue_modes(&mut host, QueueMode::All, QueueMode::All);
    assert_eq!(
        (host.injected.steering_mode, host.injected.follow_up_mode),
        (QueueMode::OneAtATime, QueueMode::OneAtATime),
        "empty extension list should clear injected extension queues"
    );
}

#[test]
fn enabling_extensions_again_keeps_the_messages_of_the_first() {
    let mut agent = agent();
    let mut host = HostState::new(QueueMode::OneAtATime, QueueMode::OneAtATime);
    let mut link = ExtensionLink { enabled: false, modes: None };
    let mut connections = Vec::new();
    for _ in 0..2 {
        let (mut enabling, _) = Enabling::start(1, None, &agent, &host, &mut link);
        let mut step = |input: EnableInput| enabling.step(input, &mut agent, &mut host, &mut link);
        step(EnableInput::Resolved(Ok(RuntimeKind::Js)));
        assert_eq!(step(EnableInput::Runtime(Ok(()))), EnableAction::LoadJs(vec![0]));
        let connection = host.connection();
        connections.push(connection);
        host.is_streaming = true;
        let kept = host.send_user_message(
            connection,
            ExtensionSendUserMessage { text: format!("from {connection}"), deliver_as: None },
        );
        assert!(kept.is_none());
    }
    assert_eq!(host.pop_steering(connections[0]).len(), 1);
    assert_eq!(host.pop_steering(connections[1]).len(), 1);
}

#[derive(Debug, Clone, Copy, PartialEq, Eq)]
enum PolicyMode {
    Strict,
    Permissive,
}

#[test]
fn enable_extensions_policy_resolution_defaults_to_permissive() {
    let policy = resolve_extension_policy_for_enable(None, None, PolicyMode::Permissive);
    assert_eq!(policy, PolicyMode::Permissive);
}

#[test]
fn enable_extensions_policy_resolution_respects_config_default_toggle() {
    let policy = resolve_extension_policy_for_enable(
        None,
        Some(PolicyMode::Strict),
        PolicyMode::Permissive,
    );
    assert_eq!(policy, PolicyMode::Strict);
}

#[test]
fn enable_extensions_policy_resolution_prefers_explicit_policy() {
    let policy = resolve_extension_policy_for_enable(
        Some(PolicyMode::Permissive),
        Some(PolicyMode::Strict),
        PolicyMode::Strict,
    );
    assert_eq!(policy, PolicyMode::Permissive);
}

#[test]
fn agent_session_enable_extensions_rejects_mixed_js_and_native_entries() {
    let mut agent = agent();
    let mut host = HostState::new(QueueMode::OneAtATime, QueueMode::OneAtATime);
    let mut link = ExtensionLink { enabled: false, modes: None };
    let (mut enabling, action) = Enabling::start(2, None, &agent, &host, &mut link);
    assert_eq!(action, EnableAction::Resolve(0));
    let action = enabling.step(
        EnableInput::Resolved(Ok(RuntimeKind::Js)),
        &mut agent,
        &mut host,
        &mut link,
    );
    assert_eq!(action, EnableAction::Resolve(1));
    let action = enabling.step(
        EnableInput::Resolved(Ok(RuntimeKind::NativeRust)),
        &mut agent,
        &mut host,
        &mut link,
    );
    match action {
        EnableAction::Finish(Err(err)) => {
            let msg = err.message();
            assert!(
                msg.contains("Mixed extension runtimes are not supported"),
                "unexpected mixed-runtime error message: {msg}"
            );
        }
        other => panic!("mixed extension runtimes should be rejected, got {other:?}"),
    }
}

#[test]
fn enabled_extensions_bring_their_tools() {
    let mut agent = agent();
    agent.set_queue_modes(QueueMode::All, QueueMode::OneAtATime);
    let mut host = HostState::new(QueueMode::OneAtATime, QueueMode::OneAtATime);
    let mut link = ExtensionLink { enabled: false, modes: None };
    let ready = PreWarmedExtensionRuntime { runtime: RuntimeKind::Js };
    let (mut enabling, _) = Enabling::start(1, Some(ready), &agent, &host, &mut link);
    let mut step = |input: EnableInput| enabling.step(input, &mut agent, &mut host, &mut link);
    assert_eq!(
        step(EnableInput::Resolved(Ok(RuntimeKind::Js))),
        EnableAction::AdoptRuntime(RuntimeKind::Js)
    );
    assert_eq!(step(EnableInput::Runtime(Ok(()))), EnableAction::LoadJs(vec![0]));
    assert_eq!(step(EnableInput::Loaded(Ok(()))), EnableAction::DrainRepairs);
    assert_eq!(step(EnableInput::Repairs), EnableAction::ReadSessionPath);
    assert_eq!(step(EnableInput::SessionPath(Ok(()))), EnableAction::DispatchStartup);
    assert_eq!(step(EnableInput::Told), EnableAction::DispatchSessionStart);
    assert_eq!(step(EnableInput::Told), EnableAction::CollectTools);
    let tool = ToolInfo {
        name: "hello_tool".to_string(),
        description: "hello".to_string(),
        parameters: Json::Null,
        effects: ToolEffects::write(),
    };
    assert_eq!(step(EnableInput::Tools(Ok(vec![tool]))), EnableAction::Finish(Ok(())));
    assert!(link.enabled);
    assert_eq!(
        link.modes,
        Some(ExtensionQueueModeState::new(QueueMode::All, QueueMode::OneAtATime))
    );
    assert_eq!(agent.tools.len(), 1);
    assert_eq!(agent.build_context().tools[0].name, "hello_tool");
}

#[test]
fn an_engine_of_another_kind_is_started_afresh() {
    let mut agent = agent();
    let mut host = HostState::new(QueueMode::OneAtATime, QueueMode::OneAtATime);
    let mut link = ExtensionLink { enabled: false, modes: None };
    let ready = PreWarmedExtensionRuntime { runtime: RuntimeKind::Js };
    let (mut enabling, _) = Enabling::start(1, Some(ready), &agent, &host, &mut link);
    let action = enabling.step(
        EnableInput::Resolved(Ok(RuntimeKind::NativeRust)),
        &mut agent,
        &mut host,
        &mut link,
    );
    assert_eq!(action, EnableAction::StartRuntime(RuntimeKind::NativeRust, true));
    let action = enabling.step(
        EnableInput::Runtime(Err(Error::Extension("boot".to_string()))),
        &mut agent,
        &mut host,
        &mut link,
    );
    assert_eq!(action, EnableAction::Finish(Err(Error::Extension("boot".to_string()))));
    assert!(!link.enabled);
}

#[test]
fn engine_settings_are_resolved() {
    let settings = resolve_runtime_settings(None, None, 0);
    assert_eq!(settings.repair, RepairMode::AutoSafe);
    assert_eq!(settings.memory_limit_bytes, None);
    let settings =
        resolve_runtime_settings(Some(RepairPolicyMode::Off), Some(RepairPolicyMode::Suggest), 256);
    assert_eq!(settings.repair, RepairMode::Off);
    assert_eq!(settings.memory_limit_bytes, Some(268_435_456));
    assert_eq!(memory_limit_bytes(1), Some(1_048_576));
    assert_eq!(
        AgentSession::runtime_repair_mode_from_policy_mode(RepairPolicyMode::AutoStrict),
        RepairMode::AutoStrict
    );
}

#[test]
fn repairs_are_counted_by_pattern() {
    let repair = |extension_id: &str, pattern: &str| RepairEvent {
        extension_id: extension_id.to_string(),
        pattern: pattern.to_string(),
        repair_action: "fixed".to_string(),
    };
    let events = vec![repair("a", "zeta"), repair("b", "alpha"), repair("c", "zeta")];
    assert_eq!(repair_summary_line(&count_repairs(&events)), "alpha:1, zeta:2");
    assert_eq!(
        repair_detail_lines(&events),
        vec![
            "[auto-repair] 3 extensions auto-repaired:",
            "  zeta: a (fixed)",
            "  alpha: b (fixed)",
            "  zeta: c (fixed)",
        ]
    );
    assert_eq!(repair_detail_lines(&vec![repair("a", "p")])[0], "[auto-repair] 1 extension auto-repaired:");
    assert!(wants_repair_details("1"));
    assert!(wants_repair_details("TrUe"));
    assert!(!wants_repair_details("yes"));
}

#[test]
fn a_compaction_that_gets_out_of_step_is_broken_off() {
    let mut compacting = false;
    let mut events = Vec::new();
    let (mut compaction, _) = SessionCompaction::synchronous(true);
    compaction.step(CompactionInput::Preparation(Ok(true)), &mut compacting, &mut events);
    let asked = BeforeCompact { cancel: false, compaction: None };
    let action = compaction.step(CompactionInput::Before(asked), &mut compacting, &mut events);
    assert_eq!(action, CompactionAction::Compact);
    assert!(compacting);
    let action = compaction.step(CompactionInput::Quota(true), &mut compacting, &mut events);
    assert_eq!(
        action,
        CompactionAction::Finish(Err(Error::Session("Compaction out of step".to_string())))
    );
    assert!(!compacting);
}

#[test]
fn enabling_that_gets_out_of_step_fails() {
    let mut agent = agent();
    let mut host = HostState::new(QueueMode::OneAtATime, QueueMode::OneAtATime);
    let mut link = ExtensionLink { enabled: false, modes: None };
    let (mut enabling, _) = Enabling::start(1, None, &agent, &host, &mut link);
    let action = enabling.step(EnableInput::Told, &mut agent, &mut host, &mut link);
    assert_eq!(
        action,
        EnableAction::Finish(Err(Error::Extension("Enabling out of step".to_string())))
    );
    assert!(!link.enabled);
}
