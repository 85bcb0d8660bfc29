use pi_agent::agent::{Agent, AgentConfig, Context, ProviderIdentity, ToolInfo};
use pi_agent::command::{CommandAction, CommandInput, IdleAction};
use pi_agent::effects::ToolEffects;
use pi_agent::error::Error;
use pi_agent::event::{AgentEvent, AssistantMessageEvent, LifecycleEvent, StreamEvent};
use pi_agent::host::{
    ExtensionDeliverAs, ExtensionQueueModeState, ExtensionSendMessage, ExtensionSendUserMessage,
    HostState, PendingIdleAction,
};
use pi_agent::input::InputSource;
use pi_agent::json::Json;
use pi_agent::latency::TurnLatencyAccumulator;
use pi_agent::model::{
    AssistantMessage, ContentBlock, CustomMessage, ImageContent, Message, StopReason, TextContent,
    ToolCall, ToolOutput, Usage, UserContent, UserMessage,
};
use pi_agent::queue::QueueMode;
use pi_agent::run::{Run, RunAction, RunInput, ToolOutcome};
use pi_agent::semantic::{
    semantic_context_bundle_revision, ContextBundleBudget, ContextBundleExclusion,
    ContextBundleInvalidationPolicy, ContextBundleItem, SemanticContextBundle,
    SemanticContextBundleInjection, SEMANTIC_CONTEXT_CUSTOM_TYPE,
};
use pi_agent::session::{AgentSession, CompactionSettings};
use pi_agent::stream::{StreamInput, StreamProgress, StreamState};
use pi_agent::tool_exec::{
    tool_update_event, CallHookReply, ExecAction, ExecInput, ResultHookReply, ToolExecution,
    ToolReply,
};
use pi_agent::tool_run::{FinishedCall, ToolAction, ToolInput, ToolRun};
use pi_agent::turn::{BeforeAgentStart, InputOutcome, SessionTurn, TurnAction, TurnInput};

/// What a scripted provider does next.
enum Step {
    Event(StreamEvent),
    Fail(String),
    Hang,
}

/// When a scripted run is aborted.
#[derive(PartialEq, Eq, Clone, Copy)]
enum AbortRule {
    Never,
    Already,
    AtAssistantStart,
    AtToolStart,
}

struct Harness {
    session: AgentSession,
    host: HostState,
    /// The messages that were written to the session.
    store: Vec<Message>,
    events: Vec<AgentEvent>,
    rule: AbortRule,
    provider: Box<dyn FnMut(&Context) -> Result<Vec<Step>, Error>>,
    tool: Box<dyn FnMut(&ToolCall) -> Option<ToolReply>>,
    call_hook: Box<dyn FnMut(&ToolCall, &mut HostState) -> CallHookReply>,
    result_hook: Box<dyn FnMut(&ToolCall, bool) -> ResultHookReply>,
    input_hook: Box<dyn FnMut(String, Vec<ImageContent>) -> Result<InputOutcome, Error>>,
    start_hook: Box<dyn FnMut() -> Result<BeforeAgentStart, Error>>,
    serialized: Option<Vec<u8>>,
    persist: Box<dyn FnMut() -> Result<(), Error>>,
}

fn identity(api: &str, name: &str, model_id: &str) -> ProviderIdentity {
    ProviderIdentity {
        api: api.to_string(),
        name: name.to_string(),
        model_id: model_id.to_string(),
    }
}

fn test_identity() -> ProviderIdentity {
    identity("test-api", "test-provider", "test-model")
}

fn default_config() -> AgentConfig {
    AgentConfig::with_iteration_setting(None)
}

fn tool_info(name: &str) -> ToolInfo {
    ToolInfo {
        name: name.to_string(),
        description: "a tool".to_string(),
        parameters: Json::Object(vec![("type".to_string(), Json::Text("object".to_string()))]),
        effects: ToolEffects::write(),
    }
}

fn harness(provider: ProviderIdentity, tools: Vec<ToolInfo>, config: AgentConfig) -> Harness {
    let agent = Agent::new(provider, tools, config);
    let session = AgentSession::new(
        agent,
        false,
        CompactionSettings { enabled: false, context_window_tokens: 0 },
    );
    Harness {
        session,
        host: HostState::new(QueueMode::OneAtATime, QueueMode::OneAtATime),
        store: Vec::new(),
        events: Vec::new(),
        rule: AbortRule::Never,
        provider: Box::new(|_| Ok(Vec::new())),
        tool: Box::new(|_| Some(ToolReply::NotFound)),
        call_hook: Box::new(|_, _| CallHookReply::Silent),
        result_hook: Box::new(|_, _| ResultHookReply::Silent),
        input_hook: Box::new(|text, images| Ok(InputOutcome::Continue { text, images })),
        start_hook: Box::new(|| {
            Ok(BeforeAgentStart { messages: Vec::new(), system_prompt: None })
        }),
        serialized: None,
        persist: Box::new(|| Ok(())),
    }
}

fn default_harness() -> Harness {
    harness(test_identity(), Vec::new(), default_config())
}

impl Harness {
    fn aborted(&self) -> bool {
        match self.rule {
            AbortRule::Never => false,
            AbortRule::Already => true,
            AbortRule::AtAssistantStart => self.events.iter().any(|event| {
                matches!(event, AgentEvent::MessageStart { message: Message::Assistant(_) })
            }),
            AbortRule::AtToolStart => self
                .events
                .iter()
                .any(|event| matches!(event, AgentEvent::ToolExecutionStart { .. })),
        }
    }

    fn stream_assistant(&mut self) -> Result<AssistantMessage, Error> {
        let context = self.session.agent.build_context();
        let steps = (self.provider)(&context)?;
        let mut state = StreamState::new();
        let mut steps = steps.into_iter();
        loop {
            let input = if self.aborted() {
                StreamInput::Cancelled
            } else {
                match steps.next() {
                    Some(Step::Event(event)) => StreamInput::Event(event),
                    Some(Step::Fail(text)) => StreamInput::Failed(text),
                    Some(Step::Hang) => panic!("the stream hangs and nobody aborts"),
                    None => StreamInput::Ended,
                }
            };
            match self.session.agent.stream_step(&mut state, input, &mut self.events) {
                StreamProgress::Continue => {}
                StreamProgress::Done(message) => return Ok(message),
                StreamProgress::Failed(error) => return Err(error),
            }
        }
    }

    fn execute_tool(&mut self, call: &ToolCall) -> Option<(ToolOutput, bool)> {
        let (mut execution, mut action) = ToolExecution::start(
            call.name.clone(),
            self.session.link.enabled,
            self.session.agent.config.fail_closed_hooks,
        );
        loop {
            let input = match action {
                ExecAction::DispatchCallHook => {
                    ExecInput::CallHook((self.call_hook)(call, &mut self.host))
                }
                ExecAction::RunTool => match (self.tool)(call) {
                    Some(reply) => ExecInput::Tool(reply),
                    None => return None,
                },
                ExecAction::DispatchResultHook => {
                    ExecInput::ResultHook((self.result_hook)(call, execution.is_error))
                }
                ExecAction::Finish => {
                    let is_error = execution.is_error;
                    return Some((execution.output.expect("output"), is_error));
                }
            };
            action = execution.step(input);
        }
    }

    fn execute_tools(&mut self, calls: Vec<ToolCall>, run: &mut Run) -> ToolOutcome {
        let (mut tools, mut action) = ToolRun::start(
            calls,
            &mut self.session.agent,
            &mut run.new_messages,
            &mut self.events,
        );
        loop {
            let input = match action {
                ToolAction::CheckAbort => ToolInput::Abort(self.aborted()),
                ToolAction::FetchSteering => ToolInput::Steering(self.host.injected.pop_steering()),
                ToolAction::RunBatch(batch) => {
                    let mut finished = Vec::new();
                    // The last call of a batch finishes first.
                    for index in (batch.start..batch.end).rev() {
                        let call = tools.calls[index].clone();
                        if let Some((output, is_error)) = self.execute_tool(&call) {
                            finished.push(FinishedCall { index, output, is_error });
                        }
                    }
                    ToolInput::Batch(finished)
                }
                ToolAction::Finish => {
                    return ToolOutcome {
                        tool_results: tools.results,
                        steering_messages: tools.steering,
                    }
                }
            };
            action = tools.step(
                &mut self.session.agent,
                input,
                &mut run.new_messages,
                &mut self.events,
            );
        }
    }

    fn run_agent(&mut self, prompts: Vec<Message>) -> Result<AssistantMessage, Error> {
        let (mut run, mut action) =
            Run::start(&mut self.session.agent, prompts, &mut self.events);
        let latency = TurnLatencyAccumulator::started();
        loop {
            let input = match action {
                RunAction::FetchSteering => RunInput::Steering(self.host.injected.pop_steering()),
                RunAction::FetchFollowUp => RunInput::FollowUp(self.host.injected.pop_follow_up()),
                RunAction::CheckAbort => RunInput::Abort(self.aborted()),
                RunAction::StreamAssistant => RunInput::Assistant(self.stream_assistant()),
                RunAction::ExecuteTools(calls) => {
                    RunInput::Tools(Ok(self.execute_tools(calls, &mut run)))
                }
                RunAction::Finish(result) => return result,
            };
            action = run.step(
                &mut self.session.agent,
                input,
                Some(Box::new(latency.snapshot(1))),
                &mut self.events,
            );
        }
    }

    fn drive(
        &mut self,
        mut turn: SessionTurn,
        mut action: TurnAction,
    ) -> Result<AssistantMessage, Error> {
        loop {
            let input = match action {
                TurnAction::DispatchInput { text, images } => {
                    TurnInput::Input((self.input_hook)(text, images))
                }
                TurnAction::DispatchBeforeStart { .. } => TurnInput::BeforeStart((self.start_hook)()),
                TurnAction::Sync | TurnAction::Compact => TurnInput::Done(Ok(())),
                TurnAction::LoadHistory => TurnInput::History {
                    messages: Ok(self.store.clone()),
                    serialized: self.serialized.clone(),
                },
                TurnAction::Append(message) => {
                    self.store.push(message);
                    TurnInput::Done(Ok(()))
                }
                TurnAction::Run(prompts) => TurnInput::Run(self.run_agent(prompts)),
                TurnAction::Persist(messages) => {
                    self.store.extend(messages);
                    TurnInput::Done((self.persist)())
                }
                TurnAction::Finish(result) => return result,
            };
            action = self.session.turn_step(&mut turn, &mut self.host, input);
        }
    }

    fn run_text(&mut self, input: &str) -> Result<AssistantMessage, Error> {
        let (turn, action) = self.session.run_text(input.to_string(), &mut self.host);
        self.drive(turn, action)
    }

    fn run_content(&mut self, content: Vec<ContentBlock>) -> Result<AssistantMessage, Error> {
        let (turn, action) = self.session.run_with_content(content, &mut self.host);
        self.drive(turn, action)
    }

    fn replay_idle(&mut self) -> Result<(), Error> {
        let (mut runs, mut action) = self.session.run_pending_idle_actions(&mut self.host);
        loop {
            let done = match action {
                IdleAction::Finish(result) => return result,
                IdleAction::Run(PendingIdleAction::UserText(text)) => {
                    assert_eq!(self.session.input_source, InputSource::Extension);
                    self.run_text(&text).map(|_| ())
                }
                IdleAction::Run(PendingIdleAction::CustomMessage(message)) => {
                    assert_eq!(self.session.input_source, InputSource::Extension);
                    let (turn, action) =
                        self.session.run_custom_message(message, &mut self.host);
                    self.drive(turn, action).map(|_| ())
                }
            };
            action = runs.step(&mut self.session.input_source, done);
        }
    }

    fn command(
        &mut self,
        answer: impl FnOnce(&mut HostState) -> Result<Json, Error>,
    ) -> Result<Json, Error> {
        let mut answer = Some(answer);
        let (mut command, mut action) = self.session.execute_extension_command();
        loop {
            let input = match action {
                CommandAction::ReplayIdle => CommandInput::Replayed(self.replay_idle()),
                CommandAction::Execute => {
                    let answer = answer.take().expect("asked once");
                    CommandInput::Answered(answer(&mut self.host))
                }
                CommandAction::Finish(result) => return result,
            };
            action = command.step(input);
        }
    }
}

fn assistant(stop_reason: StopReason, content: Vec<ContentBlock>) -> AssistantMessage {
    AssistantMessage {
        content,
        api: "test-api".to_string(),
        provider: "test-provider".to_string(),
        model: "test-model".to_string(),
        usage: Usage::default(),
        stop_reason,
        error_message: None,
        timestamp: 0,
    }
}

fn text_block(text: &str) -> ContentBlock {
    ContentBlock::Text(TextContent::new(text.to_string()))
}

fn assistant_message(text: &str) -> AssistantMessage {
    assistant(StopReason::Stop, vec![text_block(text)])
}

fn user_message(text: &str) -> Message {
    Message::User(UserMessage {
        content: UserContent::Text(text.to_string()),
        timestamp: 0,
    })
}

fn start(partial: AssistantMessage) -> Step {
    Step::Event(StreamEvent::Start { partial })
}

fn done(message: AssistantMessage) -> Step {
    Step::Event(StreamEvent::Done { reason: message.stop_reason, message })
}

fn call(id: &str, name: &str) -> ToolCall {
    ToolCall {
        id: id.to_string(),
        name: name.to_string(),
        arguments: Json::Object(Vec::new()),
        thought_signature: None,
    }
}

fn ok_output(text: &str) -> ToolReply {
    ToolReply::Output(ToolOutput {
        content: vec![text_block(text)],
        details: None,
        is_error: false,
    })
}

fn assert_user_text(message: &Message, expected: &str) {
    match message {
        Message::User(UserMessage { content: UserContent::Text(text), .. }) => {
            assert_eq!(text, expected);
        }
        other => panic!("expected user text message, got {other:?}"),
    }
}

fn position(events: &[AgentEvent], wanted: impl Fn(&AgentEvent) -> bool) -> usize {
    events.iter().position(wanted).expect("event")
}

/// Hangs on the first `pending_calls` requests, answers the others.
fn phased(pending_calls: usize) -> Box<dyn FnMut(&Context) -> Result<Vec<Step>, Error>> {
    let mut calls: usize = 0;
    Box::new(move |_| {
        let index = calls;
        calls += 1;
        let partial = assistant(StopReason::Stop, Vec::new());
        if index < pending_calls {
            return Ok(vec![start(partial), Step::Hang]);
        }
        Ok(vec![start(partial), done(assistant_message(&format!("resumed-response-{index}")))])
    })
}

/// Asks for the given calls first, then answers with a text.
fn tool_then_text(
    calls: Vec<ToolCall>,
    text: &'static str,
) -> Box<dyn FnMut(&Context) -> Result<Vec<Step>, Error>> {
    let mut calls = Some(calls);
    Box::new(move |_| {
        let partial = assistant(StopReason::Stop, Vec::new());
        let message = match calls.take() {
            Some(calls) => assistant(
                StopReason::ToolUse,
                calls.into_iter().map(ContentBlock::ToolCall).collect(),
            ),
            None => assistant_message(text),
        };
        Ok(vec![start(partial), done(message)])
    })
}

#[test]
fn turn_events_wrap_assistant_response() {
    let mut h = default_harness();
    h.provider =
        Box::new(|_| Ok(vec![start(assistant_message("")), done(assistant_message("hello"))]));

    let message = h.run_text("hello").expect("run_text");
    assert_eq!(message.stop_reason, StopReason::Stop);

    let turn_starts: Vec<usize> = (0..h.events.len())
        .filter(|i| matches!(h.events[*i], AgentEvent::TurnStart { .. }))
        .collect();
    let turn_ends: Vec<usize> = (0..h.events.len())
        .filter(|i| matches!(h.events[*i], AgentEvent::TurnEnd { .. }))
        .collect();
    assert_eq!(turn_starts.len(), 1);
    assert_eq!(turn_ends.len(), 1);
    assert!(turn_starts[0] < turn_ends[0]);

    let assistant_message_end = position(&h.events, |event| {
        matches!(event, AgentEvent::MessageEnd { message: Message::Assistant(_) })
    });
    assert!(assistant_message_end < turn_ends[0]);

    match &h.events[turn_ends[0]] {
        AgentEvent::TurnEnd { message, tool_results, .. } => {
            assert!(matches!(message, Message::Assistant(_)));
            assert!(tool_results.is_empty());
        }
        other => panic!("Expected TurnEnd event, got {other:?}"),
    }
}

#[test]
fn stream_setup_errors_still_emit_turn_end_before_agent_end() {
    let mut h = default_harness();
    h.provider = Box::new(|_| Err(Error::api("stream setup failed")));

    let err = h.run_text("hello").expect_err("run_text should fail before streaming starts");
    assert!(err.message().contains("stream setup failed"), "unexpected error: {err:?}");

    let turn_start_idx = position(&h.events, |event| {
        matches!(event, AgentEvent::TurnStart { turn_index: 0, .. })
    });
    let turn_end_idx = position(&h.events, |event| {
        matches!(event, AgentEvent::TurnEnd { turn_index: 0, .. })
    });
    let agent_end_idx =
        position(&h.events, |event| matches!(event, AgentEvent::AgentEnd { .. }));

    assert!(turn_start_idx < turn_end_idx);
    assert!(turn_end_idx < agent_end_idx);

    let assistant_message_end = position(&h.events, |event| {
        matches!(event, AgentEvent::MessageEnd { message: Message::Assistant(_) })
    });
    assert!(assistant_message_end < turn_end_idx);

    match &h.events[turn_end_idx] {
        AgentEvent::TurnEnd { message: Message::Assistant(message), tool_results, .. } => {
            assert!(tool_results.is_empty());
            assert_eq!(message.stop_reason, StopReason::Error);
            assert_eq!(message.error_message.as_deref(), Some("API error: stream setup failed"));
            assert_eq!(message.api, "test-api");
            assert_eq!(message.provider, "test-provider");
            assert_eq!(message.model, "test-model");
        }
        other => panic!("expected assistant message in TurnEnd, got {other:?}"),
    }
    match &h.events[agent_end_idx] {
        AgentEvent::AgentEnd { error, .. } => {
            assert_eq!(error.as_deref(), Some("API error: stream setup failed"));
        }
        other => panic!("expected AgentEnd, got {other:?}"),
    }
    // The message that only says that there was no response is not written down.
    assert_eq!(h.store.len(), 1);
}

#[test]
fn turn_events_include_tool_execution_and_tool_result_messages() {
    let mut h = harness(test_identity(), vec![tool_info("echo_tool")], default_config());
    h.provider = tool_then_text(vec![call("tool-1", "echo_tool")], "final");
    h.tool = Box::new(|_| Some(ok_output("tool-ok")));

    let message = h.run_text("hello").expect("run_text");
    assert_eq!(message.stop_reason, StopReason::Stop);

    let turn_start_count =
        h.events.iter().filter(|event| matches!(event, AgentEvent::TurnStart { .. })).count();
    let turn_end_count =
        h.events.iter().filter(|event| matches!(event, AgentEvent::TurnEnd { .. })).count();
    assert_eq!(turn_start_count, 2, "expected one tool turn and one final turn");
    assert_eq!(turn_end_count, 2, "expected one tool turn and one final turn");

    let tool_start_idx =
        position(&h.events, |event| matches!(event, AgentEvent::ToolExecutionStart { .. }));
    let tool_end_idx =
        position(&h.events, |event| matches!(event, AgentEvent::ToolExecutionEnd { .. }));
    assert!(tool_start_idx < tool_end_idx);

    let first_turn_end_idx = position(&h.events, |event| {
        matches!(event, AgentEvent::TurnEnd { turn_index: 0, .. })
    });
    assert!(
        tool_end_idx < first_turn_end_idx,
        "tool execution should complete before first turn end"
    );

    let first_turn_tool_results = h
        .events
        .iter()
        .find_map(|event| match event {
            AgentEvent::TurnEnd { turn_index, tool_results, .. } if turn_index.eq(&0) => {
                Some(tool_results)
            }
            _ => None,
        })
        .expect("expected tool results for first turn");
    assert_eq!(first_turn_tool_results.len(), 1);
    let first_result = first_turn_tool_results.first().unwrap();
    if let Message::ToolResult(tr) = first_result {
        assert_eq!(tr.tool_name, "echo_tool");
        assert!(!tr.is_error);
    } else {
        unreachable!("expected Message::ToolResult, got {:?}", first_result);
    }
}

#[test]
fn delta_without_start_does_not_mutate_previous_message() {
    let mut h = default_harness();
    h.provider = Box::new(|_| {
        Ok(vec![
            Step::Event(StreamEvent::TextDelta { content_index: 0, delta: "hello".to_string() }),
            done(assistant_message("hello")),
        ])
    });
    h.session.agent.add_message(Message::assistant(assistant_message("prev")));

    h.run_agent(vec![user_message("hi")]).expect("run");

    let assistant_texts = h
        .session
        .agent
        .messages()
        .iter()
        .filter_map(|message| match message {
            Message::Assistant(msg) => match msg.content.as_slice() {
                [ContentBlock::Text(text)] => Some(text.text.clone()),
                _ => None,
            },
            _ => None,
        })
        .collect::<Vec<_>>();
    assert_eq!(assistant_texts.as_slice(), ["prev".to_string(), "hello".to_string()]);
}

#[test]
fn abort_interrupts_in_flight_stream() {
    let mut h = default_harness();
    h.provider = Box::new(|_| Ok(vec![start(assistant(StopReason::Stop, Vec::new())), Step::Hang]));
    h.rule = AbortRule::AtAssistantStart;

    let message = h.run_text("hello").expect("run_text_with_abort");
    assert_eq!(message.stop_reason, StopReason::Aborted);
    assert_eq!(message.error_message.as_deref(), Some("Aborted"));
}

#[test]
fn abort_before_run_skips_provider_stream_call() {
    let mut h = default_harness();
    h.provider = Box::new(|_| panic!("the provider was called"));
    h.rule = AbortRule::Already;

    let message = h.run_text("hello").expect("run_text_with_abort");
    assert_eq!(message.stop_reason, StopReason::Aborted);
}

#[test]
fn abort_then_resume_preserves_session_history() {
    let mut h = default_harness();
    h.provider = phased(1);
    h.rule = AbortRule::AtAssistantStart;

    let aborted = h.run_text("first").expect("first run");
    assert_eq!(aborted.stop_reason, StopReason::Aborted);
    assert_eq!(aborted.error_message.as_deref(), Some("Aborted"));

    h.rule = AbortRule::Never;
    let resumed = h.run_text("second").expect("resumed run");
    assert_eq!(resumed.stop_reason, StopReason::Stop);
    assert!(resumed.error_message.is_none());

    let persisted = &h.store;
    assert_eq!(
        persisted.len(),
        4,
        "unexpected message history after abort+resume: {persisted:?}"
    );
    assert!(matches!(persisted.first(), Some(Message::User(_))));
    assert!(matches!(
        persisted.get(1),
        Some(Message::Assistant(assistant))
            if matches!(assistant.stop_reason, StopReason::Aborted)
    ));
    assert!(matches!(persisted.get(2), Some(Message::User(_))));
    assert!(matches!(
        persisted.get(3),
        Some(Message::Assistant(assistant))
            if matches!(assistant.stop_reason, StopReason::Stop)
                && assistant.error_message.is_none()
    ));
}

fn event_tag(event: &AgentEvent) -> &'static str {
    match event {
        AgentEvent::AgentStart { .. } => "agent_start",
        AgentEvent::AgentEnd { error, .. } => {
            if error.as_deref() == Some("Aborted") {
                "agent_end_aborted"
            } else {
                "agent_end"
            }
        }
        AgentEvent::TurnStart { .. } => "turn_start",
        AgentEvent::TurnEnd { .. } => "turn_end",
        AgentEvent::MessageStart { .. } => "message_start",
        AgentEvent::MessageUpdate { assistant_message_event, .. } => {
            match &assistant_message_event {
                AssistantMessageEvent::Error { reason: StopReason::Aborted, .. } => {
                    "assistant_error_aborted"
                }
                AssistantMessageEvent::Done { .. } => "assistant_done",
                _ => "assistant_update",
            }
        }
        AgentEvent::MessageEnd { .. } => "message_end",
        AgentEvent::ToolExecutionStart { .. } => "tool_start",
        AgentEvent::ToolExecutionUpdate { .. } => "tool_update",
        AgentEvent::ToolExecutionEnd { .. } => "tool_end",
        AgentEvent::AutoCompactionStart { .. } => "auto_compaction_start",
        AgentEvent::AutoCompactionEnd { .. } => "auto_compaction_end",
        AgentEvent::AutoRetryStart { .. } => "auto_retry_start",
        AgentEvent::AutoRetryEnd { .. } => "auto_retry_end",
        AgentEvent::ExtensionError { .. } => "extension_error",
    }
}

#[test]
fn repeated_abort_then_resume_has_consistent_timeline_and_state() {
    let mut h = default_harness();
    h.provider = phased(2);
    let mut timeline: Vec<String> = Vec::new();

    for run_idx in 0..2 {
        h.rule = AbortRule::AtAssistantStart;
        let aborted = h.run_text(&format!("abort-run-{run_idx}")).expect("aborted run");
        for event in h.events.drain(..) {
            timeline.push(format!("run{run_idx}:{}", event_tag(&event)));
        }
        assert_eq!(
            aborted.stop_reason,
            StopReason::Aborted,
            "run {run_idx} should abort cleanly"
        );
    }
    h.rule = AbortRule::Never;
    let resumed = h.run_text("final-run").expect("final resumed run");
    for event in h.events.drain(..) {
        timeline.push(format!("run2:{}", event_tag(&event)));
    }
    assert_eq!(resumed.stop_reason, StopReason::Stop);
    assert!(resumed.error_message.is_none());

    let persisted = &h.store;
    assert_eq!(
        persisted.len(),
        6,
        "expected three user+assistant pairs, got: {persisted:?}"
    );
    let assistant_states = persisted
        .iter()
        .filter_map(|message| match message {
            Message::Assistant(assistant) => Some(assistant.stop_reason),
            _ => None,
        })
        .collect::<Vec<_>>();
    assert_eq!(
        assistant_states,
        vec![StopReason::Aborted, StopReason::Aborted, StopReason::Stop]
    );
    assert!(timeline.iter().any(|event| event.as_str().eq("run0:agent_end_aborted")));
    assert!(timeline.iter().any(|event| event.as_str().eq("run1:agent_end_aborted")));
    assert!(timeline.iter().any(|event| event.as_str().eq("run2:agent_end")));
}

#[test]
fn abort_during_tool_execution_records_aborted_tool_result() {
    let mut h = harness(test_identity(), vec![tool_info("hanging_tool")], default_config());
    h.provider = Box::new(|_| {
        Ok(vec![done(assistant(
            StopReason::ToolUse,
            vec![ContentBlock::ToolCall(call("call-1", "hanging_tool"))],
        ))])
    });
    h.tool = Box::new(|_| None);
    h.rule = AbortRule::AtToolStart;

    let result = h.run_text("trigger tool").expect("tool-abort run");
    assert_eq!(result.stop_reason, StopReason::Aborted);

    let tool_result = h
        .store
        .iter()
        .find_map(|message| match message {
            Message::ToolResult(result) => Some(result),
            _ => None,
        })
        .expect("expected tool result message");
    assert!(tool_result.is_error);
    assert!(
        tool_result.content.iter().any(|block| {
            matches!(
                block,
                ContentBlock::Text(text) if text.text.contains("Tool execution aborted")
            )
        }),
        "missing aborted tool marker in tool output: {:?}",
        tool_result.content
    );
}

/// A harness with extensions and a tool that counts how often it runs.
fn counting_harness(
    config: AgentConfig,
) -> (Harness, std::rc::Rc<std::cell::Cell<usize>>) {
    let calls = std::rc::Rc::new(std::cell::Cell::new(0));
    let mut h = harness(test_identity(), vec![tool_info("count_tool")], config);
    h.session.link.enabled = true;
    h.session.link.modes =
        Some(ExtensionQueueModeState::new(QueueMode::OneAtATime, QueueMode::OneAtATime));
    let seen = std::rc::Rc::clone(&calls);
    h.tool = Box::new(move |call| {
        if call.name != "count_tool" && call.name != "bash" {
            return Some(ToolReply::NotFound);
        }
        seen.set(seen.get() + 1);
        Some(ok_output("ok"))
    });
    (h, calls)
}

fn only_text(output: &ToolOutput) -> &str {
    match output.content.as_slice() {
        [ContentBlock::Text(text)] => &text.text,
        other => panic!("Expected text output, got {other:?}"),
    }
}

#[test]
fn tool_call_hook_can_block_tool_execution() {
    let (mut h, calls) = counting_harness(default_config());
    h.call_hook = Box::new(|call, _| {
        if call.name == "count_tool" {
            CallHookReply::Decision { block: true, reason: Some("blocked in test".to_string()) }
        } else {
            CallHookReply::Silent
        }
    });
    let (output, is_error) = h.execute_tool(&call("call-1", "count_tool")).expect("over");
    assert!(is_error);
    assert!(output.is_error);
    assert_eq!(calls.get(), 0);
    assert_eq!(output.details, None);
    assert_eq!(only_text(&output), "Tool execution blocked: blocked in test");
}

#[test]
fn tool_call_hook_errors_fail_open() {
    let (mut h, calls) = counting_harness(default_config());
    h.call_hook = Box::new(|_, _| CallHookReply::Failed);
    let (output, is_error) = h.execute_tool(&call("call-1", "count_tool")).expect("over");
    assert!(!is_error);
    assert!(!output.is_error);
    assert_eq!(calls.get(), 1);
}

#[test]
fn tool_call_hook_errors_fail_closed_when_configured() {
    let mut config = default_config();
    config.fail_closed_hooks = true;
    let (mut h, calls) = counting_harness(config);
    h.call_hook = Box::new(|_, _| CallHookReply::Failed);
    let (output, is_error) = h.execute_tool(&call("call-1", "count_tool")).expect("over");
    assert!(is_error);
    assert!(output.is_error);
    assert_eq!(calls.get(), 0);
    assert_eq!(
        only_text(&output),
        "Tool execution blocked: extension hook failed"
    );
}

#[test]
fn tool_call_hook_absent_allows_tool_execution() {
    let (mut h, calls) = counting_harness(default_config());
    h.session.link.enabled = false;
    h.call_hook = Box::new(|_, _| panic!("no extension is there to ask"));
    let (output, is_error) = h.execute_tool(&call("call-1", "count_tool")).expect("over");
    assert!(!is_error);
    assert!(!output.is_error);
    assert_eq!(calls.get(), 1);
}

#[test]
fn tool_call_hook_returns_empty_allows_tool_execution() {
    let (mut h, calls) = counting_harness(default_config());
    h.call_hook = Box::new(|_, _| CallHookReply::Decision { block: false, reason: None });
    let (output, is_error) = h.execute_tool(&call("call-1", "count_tool")).expect("over");
    assert!(!is_error);
    assert!(!output.is_error);
    assert_eq!(calls.get(), 1);
}

#[test]
fn tool_call_hook_can_block_bash_tool_execution() {
    let (mut h, calls) = counting_harness(default_config());
    h.call_hook = Box::new(|call, _| {
        if call.name == "bash" {
            CallHookReply::Decision { block: true, reason: Some("blocked bash in test".to_string()) }
        } else {
            CallHookReply::Silent
        }
    });
    let (output, is_error) = h.execute_tool(&call("call-1", "bash")).expect("over");
    assert!(is_error);
    assert!(output.is_error);
    assert_eq!(calls.get(), 0);
    assert_eq!(only_text(&output), "Tool execution blocked: blocked bash in test");
}

#[test]
fn a_block_without_a_reason_has_a_text_of_its_own() {
    let (mut h, _) = counting_harness(default_config());
    h.call_hook =
        Box::new(|_, _| CallHookReply::Decision { block: true, reason: Some("  ".to_string()) });
    let (output, is_error) = h.execute_tool(&call("call-1", "count_tool")).expect("over");
    assert!(is_error);
    assert_eq!(only_text(&output), "Tool execution was blocked by an extension");
}

#[test]
fn tool_result_hook_can_modify_tool_output() {
    let (mut h, calls) = counting_harness(default_config());
    let details =
        || Json::Object(vec![("from".to_string(), Json::Text("tool_result".to_string()))]);
    h.result_hook = Box::new(move |_, _| ResultHookReply::Change {
        content: Some(vec![text_block("modified")]),
        details: Some(details()),
    });
    let (output, is_error) = h.execute_tool(&call("call-1", "count_tool")).expect("over");
    assert!(!is_error);
    assert!(!output.is_error);
    assert_eq!(calls.get(), 1);
    assert_eq!(output.details, Some(details()));
    assert_eq!(only_text(&output), "modified");
}

#[test]
fn tool_result_hook_can_modify_tool_not_found_error() {
    let (mut h, _) = counting_harness(default_config());
    let details = || Json::Object(vec![("handled".to_string(), Json::Bool(true))]);
    h.result_hook = Box::new(move |call, is_error| {
        assert_eq!(call.name, "missing_tool");
        assert!(is_error);
        ResultHookReply::Change {
            content: Some(vec![text_block("overridden")]),
            details: Some(details()),
        }
    });
    let (output, is_error) = h.execute_tool(&call("call-1", "missing_tool")).expect("over");
    assert!(is_error);
    assert!(output.is_error);
    assert_eq!(output.details, Some(details()));
    assert_eq!(only_text(&output), "overridden");
}

#[test]
fn tool_result_hook_errors_fail_open() {
    let (mut h, calls) = counting_harness(default_config());
    h.result_hook = Box::new(|_, _| ResultHookReply::Failed);
    let (output, is_error) = h.execute_tool(&call("call-1", "count_tool")).expect("over");
    assert!(!is_error);
    assert!(!output.is_error);
    assert_eq!(calls.get(), 1);
    assert_eq!(output.details, None);
    assert_eq!(only_text(&output), "ok");
}

#[test]
fn tool_result_hook_runs_on_blocked_tool_call() {
    let (mut h, calls) = counting_harness(default_config());
    h.call_hook = Box::new(|_, _| CallHookReply::Decision {
        block: true,
        reason: Some("blocked in test".to_string()),
    });
    h.result_hook = Box::new(|_, is_error| {
        assert!(is_error);
        ResultHookReply::Change { content: Some(vec![text_block("override")]), details: None }
    });
    let (output, is_error) = h.execute_tool(&call("call-1", "count_tool")).expect("over");
    assert!(is_error);
    assert!(output.is_error);
    assert_eq!(calls.get(), 0);
    assert_eq!(only_text(&output), "override");
}

#[test]
fn a_missing_tool_and_a_failing_tool_give_error_outputs() {
    let (mut h, _) = counting_harness(default_config());
    let (output, is_error) = h.execute_tool(&call("c", "nowhere")).expect("over");
    assert!(is_error);
    assert_eq!(only_text(&output), "Error: Tool 'nowhere' not found");
    h.tool = Box::new(|_| Some(ToolReply::Failed("Tool error: broken".to_string())));
    let (output, is_error) = h.execute_tool(&call("c", "count_tool")).expect("over");
    assert!(is_error);
    assert_eq!(only_text(&output), "Error: Tool error: broken");
}

fn steering_scenario(deliver_as: ExtensionDeliverAs) -> usize {
    let (mut h, calls) = counting_harness(default_config());
    h.provider =
        tool_then_text(vec![call("call-1", "count_tool"), call("call-2", "count_tool")], "done");
    let mut sent = false;
    h.call_hook = Box::new(move |call, host| {
        if !sent && call.name == "count_tool" {
            sent = true;
            let kept = host.send_user_message(0, ExtensionSendUserMessage {
                text: "steer-now".to_string(),
                deliver_as: Some(deliver_as),
            });
            assert!(kept.is_none());
        }
        CallHookReply::Silent
    });
    h.run_text("go").expect("run_text");
    calls.get()
}

#[test]
fn send_user_message_steer_skips_remaining_tools() {
    assert_eq!(steering_scenario(ExtensionDeliverAs::Steer), 1);
}

#[test]
fn send_user_message_follow_up_does_not_skip_tools() {
    assert_eq!(steering_scenario(ExtensionDeliverAs::FollowUp), 2);
}

#[test]
fn extension_command_send_message_trigger_turn_runs_agent_turn_when_idle() {
    let (mut h, _) = counting_harness(default_config());
    h.provider = phased(0);
    let value = h
        .command(|host| {
            let kept = host.send_message(0, ExtensionSendMessage {
                content: "turn-now".to_string(),
                custom_type: "note".to_string(),
                display: true,
                details: None,
                trigger_turn: true,
                deliver_as: Some(ExtensionDeliverAs::Steer),
            });
            assert!(kept.is_none());
            Ok(Json::Text("queued".to_string()))
        })
        .expect("execute extension command");
    assert_eq!(value, Json::Text("queued".to_string()));

    assert!(
        h.store.iter().any(|msg| {
            matches!(
                msg,
                Message::Custom(CustomMessage { custom_type, content, .. })
                    if custom_type == "note" && content == "turn-now"
            )
        }),
        "expected custom message prompt in session, got {:?}",
        h.store
    );
    assert!(
        h.store.iter().any(|msg| {
            matches!(
                msg,
                Message::Assistant(assistant)
                    if assistant.content.iter().any(|block| matches!(
                        block,
                        ContentBlock::Text(TextContent { text, .. })
                            if text.as_str().eq("resumed-response-0")
                    ))
            )
        }),
        "expected assistant response after triggered turn, got {:?}",
        h.store
    );
    assert_eq!(h.session.input_source, InputSource::Interactive);
}

#[test]
fn extension_command_send_user_message_runs_agent_turn_when_idle() {
    let (mut h, _) = counting_harness(default_config());
    h.provider = phased(0);
    let value = h
        .command(|host| {
            let kept = host.send_user_message(0, ExtensionSendUserMessage {
                text: "hello from command".to_string(),
                deliver_as: None,
            });
            assert!(kept.is_none());
            Ok(Json::Text("queued".to_string()))
        })
        .expect("execute extension command");
    assert_eq!(value, Json::Text("queued".to_string()));
    assert_eq!(h.store.len(), 2);
    assert_user_text(&h.store[0], "hello from command");
    assert!(matches!(&h.store[1], Message::Assistant(_)));
}

#[test]
fn a_message_for_an_idle_session_is_kept_without_a_run() {
    let mut host = HostState::new(QueueMode::OneAtATime, QueueMode::OneAtATime);
    let kept = host.send_message(0, ExtensionSendMessage {
        content: "note to self".to_string(),
        custom_type: "note".to_string(),
        display: true,
        details: None,
        trigger_turn: false,
        deliver_as: None,
    });
    assert!(matches!(
        kept,
        Some(Message::Custom(CustomMessage { content, .. })) if content == "note to self"
    ));
    assert!(host.pending_idle_actions.is_empty());
}

#[test]
fn commands_need_extensions() {
    let mut h = default_harness();
    let error = h.command(|_| panic!("not asked")).expect_err("disabled");
    assert_eq!(error.message(), "Extension error: Extensions are disabled");
}

#[test]
fn a_failing_command_counts_before_a_failing_run() {
    let (mut h, _) = counting_harness(default_config());
    h.provider = Box::new(|_| Err(Error::api("down")));
    let idle = |host: &mut HostState| {
        host.queue_pending_idle_action(PendingIdleAction::UserText("later".to_string()));
    };
    let error = h
        .command(|host| {
            idle(host);
            Err(Error::Extension("no such command".to_string()))
        })
        .expect_err("command fails");
    assert_eq!(error.message(), "Extension error: no such command");
    let error = h
        .command(|host| {
            idle(host);
            Ok(Json::Null)
        })
        .expect_err("run fails");
    assert_eq!(error.message(), "API error: down");
    // What was asked for before a command has to go well.
    idle(&mut h.host);
    let error = h.command(|_| panic!("not reached")).expect_err("run fails");
    assert_eq!(error.message(), "API error: down");
    assert_eq!(h.session.input_source, InputSource::Interactive);
}

#[test]
fn agent_session_set_queue_modes_updates_extension_delivery_state() {
    let mut h = default_harness();
    h.session.link.modes =
        Some(ExtensionQueueModeState::new(QueueMode::OneAtATime, QueueMode::OneAtATime));

    h.session.set_queue_modes(&mut h.host, QueueMode::All, QueueMode::All);

    assert_eq!(h.session.agent.queue_modes(), (QueueMode::All, QueueMode::All));
    let mirrored = h.session.link.modes.expect("queue mode mirror");
    assert_eq!(mirrored.steering_mode, QueueMode::All);
    assert_eq!(mirrored.follow_up_mode, QueueMode::All);

    h.host.injected.push_follow_up(user_message("first"));
    h.host.injected.push_follow_up(user_message("second"));
    assert_eq!(
        h.host.injected.pop_follow_up().len(),
        2,
        "updated queue modes should apply to extension-injected follow-ups"
    );
}

fn sample_semantic_context_bundle() -> SemanticContextBundle {
    SemanticContextBundle {
        schema: "pi.semantic_context_bundle.v1".to_string(),
        budget: ContextBundleBudget { max_items: 8, max_bytes: 4096 },
        selected_items: vec![
            ContextBundleItem {
                node_type: "CodeSymbol".to_string(),
                source_path: "src/agent.rs".to_string(),
                title: "AgentSession::run_agent_with_text".to_string(),
                reason: "query_match,related_to_bead_or_changed_path".to_string(),
                score: 420,
                estimated_tokens: 175,
                freshness_status: None,
                redaction_status: "None".to_string(),
            },
            ContextBundleItem {
                node_type: "TestCase".to_string(),
                source_path: "tests/agent_loop_reliability.rs".to_string(),
                title: "semantic context session coverage".to_string(),
                reason: "validation_context".to_string(),
                score: 300,
                estimated_tokens: 100,
                freshness_status: Some("Current".to_string()),
                redaction_status: "Redacted".to_string(),
            },
        ],
        excluded_items: vec![ContextBundleExclusion {
            node_type: "DocSection".to_string(),
            source_path: "README.md".to_string(),
            title: "obsolete drop-in claim".to_string(),
            reason: "suppressed_stale_or_unsafe_evidence".to_string(),
        }],
        stale_evidence_suppressions: Vec::new(),
        redaction_name: "Redacted".to_string(),
        redaction_value: Json::Text("redacted".to_string()),
        invalidation_policy: ContextBundleInvalidationPolicy {
            workspace_id: "workspace:test".to_string(),
            branch: Some("main".to_string()),
            session_id: Some("session-123".to_string()),
            input_fingerprint_sha256: "abc123".repeat(10),
            cacheable: true,
        },
        suggested_validation_commands: vec![
            "cargo test agent_semantic_context".to_string(),
            "cargo check --all-targets".to_string(),
        ],
        estimated_bytes: 1100,
        estimated_tokens: 275,
    }
}

/// What a capturing provider saw: the system prompt and the messages of each request.
type Captured = std::rc::Rc<std::cell::RefCell<Vec<(Option<String>, Vec<Message>)>>>;

fn capturing(h: &mut Harness) -> Captured {
    let calls: Captured = std::rc::Rc::new(std::cell::RefCell::new(Vec::new()));
    let seen = std::rc::Rc::clone(&calls);
    h.provider = Box::new(move |context| {
        seen.borrow_mut().push((context.system_prompt.clone(), context.messages.clone()));
        Ok(vec![done(assistant_message("captured"))])
    });
    calls
}

fn revision_of(details: &Option<Json>) -> Option<&str> {
    match details.as_ref()?.get("bundleRevision")? {
        Json::Text(text) => Some(text),
        _ => None,
    }
}

#[test]
fn semantic_context_bundle_injection_is_disabled_by_default() {
    let mut h = harness(
        identity("openai-responses", "capturing-provider", "capture-model"),
        Vec::new(),
        default_config(),
    );
    let calls = capturing(&mut h);
    h.run_text("hello").expect("run with default context settings");
    let calls = calls.borrow();
    assert_eq!(calls.len(), 1);
    assert_eq!(calls[0].1.len(), 1);
    assert_user_text(&calls[0].1[0], "hello");
    assert!(calls[0].0.is_none());
}

#[test]
fn semantic_context_bundle_injection_adds_bounded_custom_message_and_session_provenance() {
    let bundle = sample_semantic_context_bundle();
    let serialized: Vec<u8> = b"{\"schema\":\"test\"}".to_vec();
    let revision = semantic_context_bundle_revision(&bundle, Some(&serialized));
    let mut h = harness(
        identity("openai-responses", "capturing-provider", "capture-model"),
        Vec::new(),
        default_config(),
    );
    let calls = capturing(&mut h);
    h.serialized = Some(serialized);
    h.session.set_semantic_context_bundle(Some(
        SemanticContextBundleInjection::enabled(bundle).with_prompt_budget(4, 2048),
    ));

    h.run_text("use context").expect("run with context bundle");

    let calls = calls.borrow();
    assert_eq!(calls.len(), 1);
    assert_eq!(calls[0].1.len(), 2);
    assert_user_text(&calls[0].1[0], "use context");
    let custom = match &calls[0].1[1] {
        Message::Custom(custom) => custom,
        other => panic!("expected custom semantic context message, got {other:?}"),
    };
    assert_eq!(custom.custom_type, SEMANTIC_CONTEXT_CUSTOM_TYPE);
    assert!(custom.display);
    assert!(custom.content.len() <= 2048);
    assert!(custom.content.contains("Semantic Context Bundle"));
    assert!(custom.content.contains("src/agent.rs"));
    assert_eq!(revision_of(&custom.details), Some(revision.as_str()));
    let shape = custom
        .details
        .as_ref()
        .and_then(|details| details.get("provider"))
        .and_then(|provider| provider.get("promptShape"));
    assert_eq!(shape, Some(&Json::Text("custom_user_message".to_string())));

    assert!(
        h.store.iter().any(|message| matches!(
            message,
            Message::Custom(CustomMessage { custom_type, details, display: true, .. })
                if custom_type == SEMANTIC_CONTEXT_CUSTOM_TYPE
                    && revision_of(details) == Some(revision.as_str())
        )),
        "semantic context provenance was not persisted in session messages: {:?}",
        h.store
    );
}

#[test]
fn semantic_context_bundle_uses_system_prompt_append_for_providers_without_custom_context() {
    let bundle = sample_semantic_context_bundle();
    let revision = semantic_context_bundle_revision(&bundle, None);
    let mut config = default_config();
    config.system_prompt = Some("base prompt".to_string());
    let mut h = harness(
        identity("gitlab-chat", "capturing-provider", "capture-model"),
        Vec::new(),
        config,
    );
    let calls = capturing(&mut h);
    h.session.set_semantic_context_bundle(Some(
        SemanticContextBundleInjection::enabled(bundle).with_prompt_budget(4, 2048),
    ));

    h.run_text("gitlab turn").expect("run with system prompt context");

    let calls = calls.borrow();
    assert_eq!(calls.len(), 1);
    assert_eq!(calls[0].1.len(), 1);
    assert_user_text(&calls[0].1[0], "gitlab turn");
    let system_prompt = calls[0].0.as_deref().expect("system prompt");
    assert!(system_prompt.contains("base prompt"));
    assert!(system_prompt.contains("Semantic Context Bundle"));
    assert!(system_prompt.contains("src/agent.rs"));

    assert!(
        h.store.iter().any(|message| matches!(
            message,
            Message::Custom(CustomMessage { custom_type, details, display: false, .. })
                if custom_type == SEMANTIC_CONTEXT_CUSTOM_TYPE
                    && revision_of(details) == Some(revision.as_str())
        )),
        "hidden semantic context provenance was not persisted in session messages: {:?}",
        h.store
    );
    assert_eq!(h.session.agent.system_prompt(), Some("base prompt"));
}

#[test]
fn blocked_input_does_not_reach_the_agent() {
    let (mut h, _) = counting_harness(default_config());
    h.provider = Box::new(|_| panic!("not reached"));
    h.input_hook = Box::new(|_, _| Ok(InputOutcome::Block { reason: None }));
    let error = h.run_text("x").expect_err("blocked");
    assert_eq!(error.message(), "Extension error: Input blocked");
    h.input_hook = Box::new(|_, _| Ok(InputOutcome::Block { reason: Some("quiet".to_string()) }));
    assert_eq!(h.run_text("x").expect_err("blocked").message(), "Extension error: quiet");
    h.input_hook = Box::new(|_, _| Err(Error::Session("gone".to_string())));
    assert_eq!(h.run_text("x").expect_err("failed").message(), "Session error: gone");
    assert!(h.store.is_empty());
    assert!(!h.host.is_turn_active);
}

#[test]
fn extensions_can_rewrite_input_and_system_prompt_for_one_turn() {
    let (mut h, _) = counting_harness(default_config());
    h.session.agent.set_system_prompt(Some("base".to_string()));
    let calls = capturing(&mut h);
    h.input_hook = Box::new(|text, images| {
        Ok(InputOutcome::Continue { text: format!("{text}!"), images })
    });
    h.start_hook = Box::new(|| {
        Ok(BeforeAgentStart {
            messages: vec![CustomMessage {
                content: "extra".to_string(),
                custom_type: "note".to_string(),
                display: true,
                details: None,
                timestamp: 5,
            }],
            system_prompt: Some("special".to_string()),
        })
    });
    h.run_text("hi").expect("run");
    h.start_hook = Box::new(|| Err(Error::Extension("hook failed".to_string())));
    h.run_text("ho").expect("run");
    let calls = calls.borrow();
    assert_eq!(calls[0].0.as_deref(), Some("special"));
    assert_user_text(&calls[0].1[0], "hi!");
    assert!(matches!(&calls[0].1[1], Message::Custom(c) if c.content == "extra"));
    assert_eq!(calls[1].0.as_deref(), Some("base"));
    assert_eq!(h.session.agent.system_prompt(), Some("base"));
    assert!(!h.host.is_turn_active);
    assert!(!h.host.is_streaming);
}

#[test]
fn content_keeps_its_images_and_joins_its_texts() {
    let mut h = default_harness();
    let calls = capturing(&mut h);
    let image = || {
        ContentBlock::Image(ImageContent {
            data: "aGVsbG8=".to_string(),
            mime_type: "image/png".to_string(),
        })
    };
    h.run_content(vec![text_block("a"), image(), text_block(" "), text_block("b")]).expect("run");
    let calls = calls.borrow();
    match &calls[0].1[0] {
        Message::User(UserMessage { content: UserContent::Blocks(blocks), .. }) => {
            assert_eq!(blocks, &vec![text_block("a\nb"), image()]);
        }
        other => panic!("expected blocks, got {other:?}"),
    }
}

#[test]
fn a_failure_to_write_fails_a_run_that_went_well() {
    let mut h = default_harness();
    capturing(&mut h);
    h.persist = Box::new(|| Err(Error::Session("disk full".to_string())));
    assert_eq!(h.run_text("x").expect_err("write").message(), "Session error: disk full");
    h.provider = Box::new(|_| Err(Error::api("down")));
    assert_eq!(h.run_text("x").expect_err("run").message(), "API error: down");
}

#[test]
fn a_turn_that_gets_out_of_step_is_put_back() {
    let mut h = default_harness();
    h.session.agent.set_system_prompt(Some("base".to_string()));
    let (mut turn, action) = h.session.run_text("x".to_string(), &mut h.host);
    assert_eq!(action, TurnAction::Sync);
    let action = h.session.turn_step(
        &mut turn,
        &mut h.host,
        TurnInput::Run(Err(Error::Other("early".to_string()))),
    );
    assert!(matches!(action, TurnAction::Finish(Err(_))));
    assert!(!h.host.is_turn_active);
    assert_eq!(h.session.agent.system_prompt(), Some("base"));
}

#[test]
fn failed_streams_end_as_responses() {
    let mut h = default_harness();
    h.provider = Box::new(|_| {
        Ok(vec![
            start(assistant_message("part")),
            Step::Fail("API error: connection reset".to_string()),
        ])
    });
    let message = h.run_text("x").expect("a response");
    assert_eq!(message.stop_reason, StopReason::Error);
    assert_eq!(message.error_message.as_deref(), Some("API error: connection reset"));
    h.provider = Box::new(|_| Ok(vec![start(assistant_message("part"))]));
    let message = h.run_text("x").expect("a response");
    assert_eq!(message.error_message.as_deref(), Some("Stream ended without Done event"));
    h.provider = Box::new(|_| Ok(Vec::new()));
    let error = h.run_text("x").expect_err("nothing at all");
    assert_eq!(error.message(), "API error: Stream ended without Done event");
}

#[test]
fn streamed_text_accumulates() {
    let mut agent = Agent::new(test_identity(), Vec::new(), default_config());
    let mut state = StreamState::new();
    let mut events = Vec::new();
    let mut step = |event: StreamEvent| {
        agent.stream_step_at(&mut state, StreamInput::Event(event), 9, &mut events);
    };
    step(StreamEvent::Start { partial: assistant(StopReason::Stop, Vec::new()) });
    step(StreamEvent::TextStart { content_index: 0 });
    step(StreamEvent::TextDelta { content_index: 0, delta: "he".to_string() });
    step(StreamEvent::TextDelta { content_index: 0, delta: "llo".to_string() });
    match &agent.messages()[0] {
        Message::Assistant(m) => assert_eq!(m.content, vec![text_block("hello")]),
        other => panic!("expected a response, got {other:?}"),
    }
    assert_eq!(agent.messages().len(), 1);
    let starts =
        events.iter().filter(|event| matches!(event, AgentEvent::MessageStart { .. })).count();
    assert_eq!(starts, 1);
}

#[test]
fn the_cap_on_tool_rounds_ends_a_run() {
    let mut config = default_config();
    config.max_tool_iterations = 2;
    let (mut h, calls) = counting_harness(config);
    let mut round: usize = 0;
    h.provider = Box::new(move |_| {
        round += 1;
        Ok(vec![done(assistant(
            StopReason::ToolUse,
            vec![
                text_block("busy"),
                ContentBlock::ToolCall(call(&format!("call-{round}"), "count_tool")),
            ],
        ))])
    });
    let message = h.run_text("go").expect("a stop message");
    assert_eq!(calls.get(), 2);
    assert_eq!(
        message.error_message.as_deref(),
        Some("Maximum tool iterations (2) exceeded")
    );
    assert!(message.content.iter().all(|block| !matches!(block, ContentBlock::ToolCall(_))));
}

#[test]
fn the_handoff_warning_is_given_once() {
    let mut config = default_config();
    config.max_tool_iterations = 5;
    let (mut h, _) = counting_harness(config);
    let mut round: usize = 0;
    h.provider = Box::new(move |_| {
        round += 1;
        let message = if round <= 5 {
            assistant(
                StopReason::ToolUse,
                vec![ContentBlock::ToolCall(call(&format!("call-{round}"), "count_tool"))],
            )
        } else {
            assistant_message("enough")
        };
        Ok(vec![done(message)])
    });
    h.run_text("go").expect("run");
    let warnings = h
        .session
        .agent
        .messages()
        .iter()
        .filter(|message| {
            matches!(
                message,
                Message::User(UserMessage { content: UserContent::Text(text), .. })
                    if text.starts_with("[runtime] Tool-iteration budget at >=80% (used 4 of 5)")
            )
        })
        .count();
    assert_eq!(warnings, 1);
}

#[test]
fn results_keep_the_order_of_the_calls() {
    let mut h = harness(
        test_identity(),
        vec![ToolInfo { effects: ToolEffects::read(), ..tool_info("read") }],
        default_config(),
    );
    h.provider = tool_then_text(
        vec![call("a", "read"), call("b", "read"), call("c", "read")],
        "done",
    );
    h.tool = Box::new(|call| Some(ok_output(&call.id)));
    h.run_text("go").expect("run");
    let ids: Vec<String> = h
        .store
        .iter()
        .filter_map(|message| match message {
            Message::ToolResult(result) => Some(result.tool_call_id.clone()),
            _ => None,
        })
        .collect();
    assert_eq!(ids, ["a", "b", "c"]);
}

#[test]
fn a_run_can_start_from_a_text_or_from_content() {
    let mut agent = Agent::new(test_identity(), Vec::new(), default_config());
    let mut events = Vec::new();
    let (run, action) = agent.run("hello".to_string(), &mut events);
    assert_eq!(action, RunAction::FetchSteering);
    assert_eq!(run.new_messages.len(), 1);
    assert_user_text(&agent.messages()[0], "hello");
    assert!(matches!(&agent.messages()[0], Message::User(m) if m.timestamp > 1_577_836_800_000));
    agent.run_with_content(vec![text_block("x")], &mut events);
    assert_eq!(agent.messages().len(), 2);
    let mut other = Agent::new(test_identity(), Vec::new(), default_config());
    other.run_content_at(UserContent::Text("t".to_string()), 77, &mut Vec::new());
    assert!(matches!(&other.messages()[0], Message::User(m) if m.timestamp == 77));
}

#[test]
fn a_run_that_gets_out_of_step_is_broken_off() {
    let mut agent = Agent::new(test_identity(), Vec::new(), default_config());
    let mut events = Vec::new();
    let (mut run, _) = agent.run("hello".to_string(), &mut events);
    let action = run.step(&mut agent, RunInput::Abort(false), None, &mut events);
    assert!(matches!(action, RunAction::Finish(Err(_))));
}

#[test]
fn reverting_takes_the_shorter_history_over() {
    let mut h = default_harness();
    h.session.agent.add_message(user_message("a"));
    h.session.agent.add_message(user_message("b"));
    assert!(!h.session.revert_last_user_message(None));
    assert_eq!(h.session.agent.messages().len(), 2);
    assert!(h.session.revert_last_user_message(Some(vec![user_message("a")])));
    assert_eq!(h.session.agent.messages().len(), 1);
}

#[test]
fn an_agent_keeps_its_queue_and_its_history() {
    let mut agent = Agent::new(test_identity(), vec![tool_info("t")], default_config());
    assert_eq!(agent.queue_steering(user_message("s")), 0);
    assert_eq!(agent.queue_follow_up(user_message("f")), 1);
    assert_eq!(agent.queued_message_count(), 2);
    let delivered = agent.drain_steering_messages(vec![user_message("late")]);
    assert_eq!(delivered.len(), 1);
    assert_user_text(&delivered[0], "s");
    assert_eq!(agent.drain_follow_up_messages(Vec::new()).len(), 1);
    assert_eq!(agent.queued_message_count(), 1);
    agent.add_message(user_message("a"));
    agent.clear_messages();
    assert!(agent.messages().is_empty());
    assert_eq!(agent.tool_effects(&"t".to_string()), ToolEffects::write());
    assert_eq!(agent.tool_effects(&"unknown".to_string()), ToolEffects::write());
    agent.set_provider(identity("a", "b", "c"));
    assert_eq!(agent.provider(), identity("a", "b", "c"));
}

#[test]
fn a_full_history_drops_its_oldest_message() {
    let mut agent = Agent::new(test_identity(), Vec::new(), default_config());
    for n in 0..10_001 {
        agent.add_message(user_message(&format!("{n}")));
    }
    assert_eq!(agent.messages().len(), 10_000);
    assert_user_text(&agent.messages()[0], "1");
    assert_user_text(&agent.messages()[9_999], "10000");
}

#[test]
fn stop_messages_keep_what_was_streamed() {
    let agent = Agent::new(test_identity(), Vec::new(), default_config());
    let aborted = agent.build_abort_message_at(Some(&assistant_message("part")), 4);
    assert_eq!(aborted.content, vec![text_block("part")]);
    assert_eq!(aborted.stop_reason, StopReason::Aborted);
    assert_eq!(aborted.error_message.as_deref(), Some("Aborted"));
    assert_eq!(aborted.timestamp, 4);
    let failed = agent.build_error_message_at(None, "why".to_string(), 5);
    assert!(failed.content.is_empty());
    assert_eq!(failed.stop_reason, StopReason::Error);
    assert_eq!(failed.error_message.as_deref(), Some("why"));
    assert_eq!(failed.model, "test-model");
    assert!(agent.build_abort_message(None).timestamp > 1_577_836_800_000);
    assert!(agent.build_error_message(None, "x".to_string()).timestamp > 1_577_836_800_000);
}

#[test]
fn lifecycle_events_are_told_apart() {
    let started = AgentEvent::AgentStart { session_id: String::new() };
    assert_eq!(started.lifecycle_event(), Some(LifecycleEvent::AgentStart));
    let message = AgentEvent::MessageEnd { message: user_message("x") };
    assert_eq!(message.lifecycle_event(), None);
}

#[test]
fn tools_show_what_they_have_so_far() {
    let event = tool_update_event(&call("id", "echo"), vec![text_block("half")], None);
    assert!(matches!(
        event,
        AgentEvent::ToolExecutionUpdate { tool_call_id, partial_result, .. }
            if tool_call_id == "id" && only_text(&partial_result) == "half" && !partial_result.is_error
    ));
}

#[test]
fn a_session_keeps_its_settings() {
    let mut h = default_harness();
    h.session.set_input_source(InputSource::Rpc);
    assert_eq!(h.session.input_source, InputSource::Rpc);
    h.session.set_compaction_context_window(9_000);
    assert_eq!(h.session.compaction.context_window_tokens, 9_000);
    h.session.set_extension_ai_models(vec![Json::Text("m".to_string())]);
    assert_eq!(h.session.completion.models, vec![Json::Text("m".to_string())]);
    assert!(!h.session.save_enabled());
    assert!(h.session.semantic_context_bundle().is_none());
}

#[test]
fn each_call_is_announced_first_and_ends_once() {
    let (mut h, calls) = counting_harness(default_config());
    let names = ["call-1", "call-2", "call-3"];
    h.provider =
        tool_then_text(names.iter().map(|id| call(id, "count_tool")).collect(), "done");
    let mut sent = false;
    h.call_hook = Box::new(move |_, host| {
        if !sent {
            sent = true;
            host.send_user_message(0, ExtensionSendUserMessage {
                text: "steer-now".to_string(),
                deliver_as: Some(ExtensionDeliverAs::Steer),
            });
        }
        CallHookReply::Silent
    });
    h.run_text("go").expect("run_text");
    assert_eq!(calls.get(), 1);
    let position = |wanted: &dyn Fn(&AgentEvent) -> bool| -> Vec<usize> {
        h.events.iter().enumerate().filter(|(_, e)| wanted(e)).map(|(i, _)| i).collect()
    };
    let starts = position(&|e| matches!(e, AgentEvent::ToolExecutionStart { .. }));
    let ends = position(&|e| matches!(e, AgentEvent::ToolExecutionEnd { .. }));
    assert_eq!(starts.len(), 3);
    assert_eq!(ends.len(), 3);
    assert!(starts[2] < ends[0]);
    for id in names {
        let of_call = position(&|e| {
            matches!(e, AgentEvent::ToolExecutionEnd { tool_call_id, .. } if tool_call_id == id)
        });
        assert_eq!(of_call.len(), 1);
    }
}

#[test]
fn the_transcript_follows_the_calls() {
    // Two calls that may run side by side, one that runs alone, and two that steering skips.
    let names = ["call-1", "call-2", "call-3", "call-4", "call-5"];
    let mut agent = Agent::new(
        test_identity(),
        vec![
            ToolInfo { effects: ToolEffects::read(), ..tool_info("look") },
            tool_info("change"),
        ],
        default_config(),
    );
    let tools = ["look", "look", "change", "look", "look"];
    let calls: Vec<ToolCall> =
        names.iter().zip(tools).map(|(id, tool)| call(id, tool)).collect();
    let mut new_messages = Vec::new();
    let mut events = Vec::new();
    let (mut run, mut action) = ToolRun::start(calls, &mut agent, &mut new_messages, &mut events);
    let mut batches = 0;
    loop {
        let input = match action {
            ToolAction::CheckAbort => ToolInput::Abort(false),
            ToolAction::FetchSteering if batches == 2 => {
                ToolInput::Steering(vec![user_message("stop")])
            }
            ToolAction::FetchSteering => ToolInput::Steering(Vec::new()),
            ToolAction::RunBatch(batch) => {
                batches += 1;
                // The last call of a batch finishes first.
                let finished = (batch.start..batch.end).rev().map(|index| FinishedCall {
                    index,
                    output: ToolOutput { content: Vec::new(), details: None, is_error: false },
                    is_error: false,
                });
                ToolInput::Batch(finished.collect())
            }
            ToolAction::Finish => break,
        };
        action = run.step(&mut agent, input, &mut new_messages, &mut events);
    }
    assert_eq!(batches, 2);
    let ids = |messages: &[Message]| -> Vec<String> {
        messages
            .iter()
            .map(|message| match message {
                Message::ToolResult(result) => result.tool_call_id.clone(),
                other => panic!("expected a tool result, got {other:?}"),
            })
            .collect()
    };
    assert_eq!(ids(&new_messages), names);
    assert_eq!(ids(&agent.messages), names);
    let settled: Vec<bool> = run.results.iter().map(|result| result.is_error).collect();
    assert_eq!(settled, [false, false, false, true, true]);
}
