use pi_agent::agent::{Agent, AgentConfig, ProviderIdentity, StreamOptions, ThinkingLevel};
use pi_agent::error::Error;
use pi_agent::selection::{
    apply_session_model_selection, plan_session_model_selection, switch_record, ModelSelection,
    ModelTarget, SessionKeys, SessionSelection, ThinkingClamp,
};
use pi_agent::session::{AgentSession, CompactionSettings};

/// The session as it is stored: its header and how many changes it records.
struct Stored {
    provider: Option<String>,
    model_id: Option<String>,
    thinking_level: Option<ThinkingLevel>,
    model_changes: usize,
    thinking_changes: usize,
}

fn stored_session() -> Stored {
    Stored {
        provider: Some("anthropic".to_string()),
        model_id: Some("sonnet-4-5".to_string()),
        thinking_level: None,
        model_changes: 0,
        thinking_changes: 0,
    }
}

fn identity(api: &str, name: &str, model_id: &str) -> ProviderIdentity {
    ProviderIdentity {
        api: api.to_string(),
        name: name.to_string(),
        model_id: model_id.to_string(),
    }
}

fn build_switch_test_session() -> AgentSession {
    let mut stream_options = StreamOptions::default();
    stream_options.api_key = Some("stale-key".to_string());
    stream_options.headers.push(("x-stale-header".to_string(), "stale-value".to_string()));
    let agent = Agent::new(
        identity("anthropic-messages", "anthropic", "sonnet-4-5"),
        Vec::new(),
        AgentConfig {
            system_prompt: None,
            max_tool_iterations: 50,
            stream_options,
            block_images: false,
            fail_closed_hooks: false,
        },
    );
    AgentSession::new(
        agent,
        false,
        CompactionSettings { enabled: true, context_window_tokens: 0 },
    )
}

/// A model that offers every level.
fn reasoning() -> ThinkingClamp {
    ThinkingClamp {
        off: ThinkingLevel::Off,
        minimal: ThinkingLevel::Minimal,
        low: ThinkingLevel::Low,
        medium: ThinkingLevel::Medium,
        high: ThinkingLevel::High,
        xhigh: ThinkingLevel::XHigh,
    }
}

/// A model that does not reason.
fn plain() -> ThinkingClamp {
    ThinkingClamp {
        off: ThinkingLevel::Off,
        minimal: ThinkingLevel::Off,
        low: ThinkingLevel::Off,
        medium: ThinkingLevel::Off,
        high: ThinkingLevel::Off,
        xhigh: ThinkingLevel::Off,
    }
}

fn target(api_key: Option<&str>, requires_credential: bool, thinking: ThinkingClamp) -> ModelTarget {
    ModelTarget {
        api_key: api_key.map(str::to_string),
        requires_credential,
        headers: Vec::new(),
        thinking,
    }
}

/// Switches as a caller does: plans, creates a provider if one is asked for, and records.
fn set_provider_model(
    session: &mut AgentSession,
    stored: &mut Stored,
    provider_id: &str,
    model_id: &str,
    target: Option<&ModelTarget>,
    key: Option<&str>,
) -> Result<(), Error> {
    let key = key.map(str::to_string);
    session.plan_provider_model(provider_id, model_id, target, key.clone())?;
    let created = Ok(identity("openai-completions", provider_id, model_id));
    let level = session.set_provider_model(provider_id, model_id, target, key, created)?;
    let previous = stored.provider.clone().zip(stored.model_id.clone());
    let record = switch_record(&previous, stored.thinking_level, provider_id, model_id, level);
    if record.model_change {
        stored.model_changes += 1;
    }
    if record.thinking_change {
        stored.thinking_changes += 1;
    }
    stored.provider = Some(provider_id.to_string());
    stored.model_id = Some(model_id.to_string());
    stored.thinking_level = Some(level);
    Ok(())
}

/// Uses a model as a caller does: plans, and creates a provider if one is asked for.
fn select_model(
    session: &mut AgentSession,
    provider_id: &str,
    model_id: &str,
    target: &ModelTarget,
    key: Option<&str>,
) -> Result<(), Error> {
    let keys = SessionKeys { given: None, stored: key.map(str::to_string) };
    let plan = plan_session_model_selection(
        &session.agent,
        provider_id,
        model_id,
        Some(target),
        &keys,
    )?;
    apply_session_model_selection(
        &mut session.agent,
        provider_id,
        model_id,
        plan,
        &target.headers,
        Ok(identity("openai-completions", provider_id, model_id)),
    )
}

/// Brings a session in line as a caller does.
fn sync(
    session: &mut AgentSession,
    stored: &mut Stored,
    target: Option<&ModelTarget>,
    key: Option<&str>,
) -> Result<(), Error> {
    let names = stored.provider.clone().zip(stored.model_id.clone());
    let created = match &names {
        Some((provider_id, model_id)) => Ok(identity("openai-completions", provider_id, model_id)),
        None => Err("no model".to_string()),
    };
    let selection = SessionSelection {
        model: names,
        thinking_stated: stored.thinking_level.is_some(),
        thinking: stored.thinking_level,
        header_thinking: stored.thinking_level,
    };
    let outcome = session.sync_runtime_selection_from_session_header(
        &selection,
        target,
        key.map(str::to_string),
        created,
    )?;
    if outcome.persist {
        stored.thinking_level = Some(outcome.level);
    }
    if outcome.record {
        stored.thinking_changes += 1;
    }
    Ok(())
}

#[test]
fn apply_session_model_selection_updates_stream_credentials_and_headers() {
    let mut session = build_switch_test_session();
    select_model(
        &mut session,
        "openai",
        "gpt-4o",
        &target(None, true, plain()),
        Some("openai-key"),
    )
    .expect("switch should update stream options");

    assert_eq!(session.agent.provider().name, "openai");
    assert_eq!(session.agent.provider().model_id, "gpt-4o");
    assert_eq!(session.agent.stream_options().api_key.as_deref(), Some("openai-key"));
    assert!(
        session.agent.stream_options().headers.is_empty(),
        "stream headers should be refreshed from selected model entry"
    );
}

#[test]
fn apply_session_model_selection_clears_stale_key_for_keyless_target() {
    let mut session = build_switch_test_session();
    select_model(
        &mut session,
        "acme-local",
        "local-model",
        &target(None, false, reasoning()),
        None,
    )
    .expect("keyless local model should still activate");

    assert_eq!(session.agent.provider().name, "acme-local");
    assert_eq!(
        session.agent.stream_options().api_key,
        None,
        "stale key must be cleared when target model has no configured key"
    );
}

#[test]
fn apply_session_model_selection_treats_blank_model_key_as_missing_credential() {
    let mut session = build_switch_test_session();
    let err = select_model(
        &mut session,
        "acme",
        "blank-model",
        &target(Some("   "), true, reasoning()),
        None,
    )
    .expect_err("blank keys must not satisfy credential requirements");

    assert!(
        err.message().contains("Missing credentials for acme/blank-model"),
        "unexpected error: {err:?}"
    );
    assert_eq!(session.agent.provider().name, "anthropic");
    assert_eq!(
        session.agent.stream_options().api_key,
        Some("stale-key".to_string()),
        "failed switches must preserve the prior runtime credentials"
    );
}

#[test]
fn set_provider_model_preserves_session_header_when_switch_fails() {
    let mut session = build_switch_test_session();
    let mut stored = stored_session();
    let err = set_provider_model(
        &mut session,
        &mut stored,
        "missing-provider",
        "missing-model",
        None,
        None,
    )
    .expect_err("missing model should not switch");
    assert!(
        err.message()
            .contains("Unable to switch provider/model to missing-provider/missing-model"),
        "unexpected error: {err:?}"
    );
    assert_eq!(session.agent.provider().name, "anthropic");
    assert_eq!(session.agent.provider().model_id, "sonnet-4-5");
    assert_eq!(stored.provider.as_deref(), Some("anthropic"));
    assert_eq!(stored.model_id.as_deref(), Some("sonnet-4-5"));
}

#[test]
fn set_provider_model_rejects_missing_credentials_without_switching() {
    let mut session = build_switch_test_session();
    let mut stored = stored_session();
    let err = set_provider_model(
        &mut session,
        &mut stored,
        "openai",
        "gpt-4o",
        Some(&target(None, true, plain())),
        None,
    )
    .expect_err("missing credentials should abort model switch");
    assert!(
        err.message().contains("Missing credentials for openai/gpt-4o"),
        "unexpected error: {err:?}"
    );
    assert_eq!(session.agent.provider().name, "anthropic");
    assert_eq!(session.agent.provider().model_id, "sonnet-4-5");
    assert_eq!(stored.provider.as_deref(), Some("anthropic"));
    assert_eq!(stored.model_id.as_deref(), Some("sonnet-4-5"));
}

#[test]
fn set_provider_model_clamps_thinking_for_non_reasoning_targets() {
    let mut session = build_switch_test_session();
    let mut stored = stored_session();
    session.agent.set_thinking_level(ThinkingLevel::High);
    stored.thinking_level = Some(ThinkingLevel::High);

    set_provider_model(
        &mut session,
        &mut stored,
        "acme",
        "plain-model",
        Some(&target(None, false, plain())),
        None,
    )
    .expect("switch should clamp unsupported thinking");

    assert_eq!(session.agent.provider().name, "acme");
    assert_eq!(session.agent.provider().model_id, "plain-model");
    assert_eq!(session.agent.stream_options().thinking_level, Some(ThinkingLevel::Off));
    assert_eq!(stored.provider.as_deref(), Some("acme"));
    assert_eq!(stored.model_id.as_deref(), Some("plain-model"));
    assert_eq!(stored.thinking_level.map(|level| level.as_str()), Some("off"));
}

#[test]
fn set_provider_model_records_model_change_once() {
    let mut session = build_switch_test_session();
    let mut stored = stored_session();
    let gpt = target(None, true, plain());
    set_provider_model(&mut session, &mut stored, "openai", "gpt-4o", Some(&gpt), Some("openai-key"))
        .expect("switch model");
    set_provider_model(&mut session, &mut stored, "openai", "gpt-4o", Some(&gpt), Some("openai-key"))
        .expect("repeat same model");
    assert_eq!(stored.model_changes, 1);
}

#[test]
fn sync_runtime_selection_from_session_header_clamps_and_normalizes_thinking() {
    let mut session = build_switch_test_session();
    let mut stored = stored_session();
    session.agent.set_thinking_level(ThinkingLevel::High);
    stored.provider = Some("acme".to_string());
    stored.model_id = Some("plain-model".to_string());
    stored.thinking_level = Some(ThinkingLevel::High);

    sync(&mut session, &mut stored, Some(&target(None, false, plain())), None)
        .expect("sync runtime selection");

    assert_eq!(session.agent.provider().name, "acme");
    assert_eq!(session.agent.provider().model_id, "plain-model");
    assert_eq!(session.agent.stream_options().thinking_level, Some(ThinkingLevel::Off));
    assert_eq!(stored.thinking_level.map(|level| level.as_str()), Some("off"));
    assert_eq!(stored.thinking_changes, 1);
}

#[test]
fn sync_runtime_selection_from_session_header_clamps_current_thinking_when_header_omits_it() {
    let mut session = build_switch_test_session();
    let mut stored = stored_session();
    session.agent.set_thinking_level(ThinkingLevel::High);
    stored.provider = Some("acme".to_string());
    stored.model_id = Some("plain-model".to_string());
    stored.thinking_level = None;

    sync(&mut session, &mut stored, Some(&target(None, false, plain())), None)
        .expect("sync runtime selection");

    assert_eq!(session.agent.provider().name, "acme");
    assert_eq!(session.agent.provider().model_id, "plain-model");
    assert_eq!(session.agent.stream_options().thinking_level, Some(ThinkingLevel::Off));
    assert_eq!(stored.thinking_level.map(|level| level.as_str()), Some("off"));
    assert_eq!(stored.thinking_changes, 1);
}

#[test]
fn sync_runtime_selection_from_session_header_rejects_missing_credentials() {
    let mut session = build_switch_test_session();
    let mut stored = stored_session();
    stored.provider = Some("openai".to_string());
    stored.model_id = Some("gpt-4o".to_string());

    let err = sync(&mut session, &mut stored, Some(&target(None, true, plain())), None)
        .expect_err("sync should reject switching to a credentialed target without a key");
    assert!(
        err.message().contains("Missing credentials for openai/gpt-4o"),
        "unexpected error: {err:?}"
    );
    assert_eq!(session.agent.provider().name, "anthropic");
    assert_eq!(session.agent.provider().model_id, "sonnet-4-5");
    assert_eq!(stored.provider.as_deref(), Some("openai"));
    assert_eq!(stored.model_id.as_deref(), Some("gpt-4o"));
}

#[test]
fn set_provider_model_allows_current_model_without_registry() {
    let mut session = build_switch_test_session();
    let mut stored = stored_session();
    session.agent.set_thinking_level(ThinkingLevel::High);

    set_provider_model(&mut session, &mut stored, "anthropic", "sonnet-4-5", None, None)
        .expect("re-persisting the current model should succeed without a registry");

    assert_eq!(session.agent.provider().name, "anthropic");
    assert_eq!(session.agent.provider().model_id, "sonnet-4-5");
    assert_eq!(session.agent.stream_options().thinking_level, Some(ThinkingLevel::High));
    assert_eq!(stored.provider.as_deref(), Some("anthropic"));
    assert_eq!(stored.model_id.as_deref(), Some("sonnet-4-5"));
    assert_eq!(stored.thinking_level.map(|level| level.as_str()), Some("high"));
}

#[test]
fn a_key_given_for_the_session_wins() {
    let mut session = build_switch_test_session().with_api_key_override(Some(" given ".to_string()));
    let gpt = target(Some("registry-key"), true, plain());
    let plan = session
        .plan_provider_model("openai", "gpt-4o", Some(&gpt), Some("stored-key".to_string()))
        .expect("plan");
    assert_eq!(plan.0, ModelSelection::Create(Some("given".to_string())));
    session.set_api_key_override(Some("  ".to_string()));
    assert_eq!(session.api_key_override, None);
    let plan = session
        .plan_provider_model("openai", "gpt-4o", Some(&gpt), Some("\tstored-key\n".to_string()))
        .expect("plan");
    assert_eq!(plan.0, ModelSelection::Create(Some("stored-key".to_string())));
    let plan = session.plan_provider_model("openai", "gpt-4o", Some(&gpt), None).expect("plan");
    assert_eq!(plan.0, ModelSelection::Create(Some("registry-key".to_string())));
}

#[test]
fn a_provider_that_cannot_be_created_leaves_the_session_alone() {
    let mut session = build_switch_test_session();
    let err = session
        .set_provider_model(
            "openai",
            "gpt-4o",
            Some(&target(None, false, plain())),
            None,
            Err("no transport".to_string()),
        )
        .expect_err("creation failed");
    assert_eq!(
        err.message(),
        "Validation error: Unable to switch provider/model to openai/gpt-4o: no transport"
    );
    assert_eq!(session.agent.provider().name, "anthropic");
    assert_eq!(session.completion.provider.name, "anthropic");
}

#[test]
fn completions_for_extensions_follow_a_switch() {
    let mut session = build_switch_test_session();
    session
        .set_provider_model(
            "openai",
            "gpt-4o",
            Some(&target(None, false, plain())),
            Some("k".to_string()),
            Ok(identity("openai-responses", "openai", "gpt-4o")),
        )
        .expect("switch");
    assert_eq!(session.completion.provider.name, "openai");
    assert_eq!(session.completion.stream_options.api_key.as_deref(), Some("k"));
    session.agent.stream_options_mut().thinking_level = Some(ThinkingLevel::Low);
    session.refresh_extension_completion_host_state();
    assert_eq!(session.completion.stream_options.thinking_level, Some(ThinkingLevel::Low));
}

#[test]
fn being_in_line_twice_writes_nothing_more() {
    let mut session = build_switch_test_session();
    let mut stored = stored_session();
    session.agent.set_thinking_level(ThinkingLevel::High);
    stored.provider = Some("acme".to_string());
    stored.model_id = Some("plain-model".to_string());
    let acme = target(None, false, plain());
    sync(&mut session, &mut stored, Some(&acme), None).expect("first");
    let changes = stored.thinking_changes;
    sync(&mut session, &mut stored, Some(&acme), None).expect("second");
    assert_eq!(stored.thinking_changes, changes);
}

#[test]
fn a_session_without_a_model_keeps_the_provider() {
    let mut session = build_switch_test_session();
    let selection = SessionSelection {
        model: None,
        thinking_stated: true,
        thinking: Some(ThinkingLevel::Medium),
        header_thinking: None,
    };
    assert_eq!(session.plan_sync(&selection, None, None), Ok(ModelSelection::Keep));
    let outcome = session
        .sync_runtime_selection_from_session_header(
            &selection,
            None,
            None,
            Err("not asked".to_string()),
        )
        .expect("sync");
    assert_eq!(outcome.level, ThinkingLevel::Medium);
    assert!(!outcome.persist);
    assert_eq!(session.agent.provider().name, "anthropic");
}
