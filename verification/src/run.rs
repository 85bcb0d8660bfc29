//! The main loop of a run: turns of assistant responses and tool calls, and the points at which
//! waiting messages are delivered.
use std::sync::Arc;
use vstd::prelude::*;

use crate::agent::{abort_message, error_message, Agent, AgentView};
use crate::clock::now_millis;
use crate::content::{drop_tool_calls, extract_tool_calls, tool_calls_of, without_tool_calls};
use crate::error::{Error, ErrorView};
use crate::event::{clone_opt_breakdown, emit, opt_breakdown, AgentEvent, AgentEventView};
use crate::latency::{TurnLatencyBreakdown, TurnLatencyBreakdownView};
use crate::limits::{
    handoff_text, iteration_handoff_steering_text, should_warn_at_iteration_threshold, warning_due,
};
use crate::model::{
    clone_messages, push_message, AssistantMessage, AssistantMessageView, ContentBlock, Message,
    MessageView, StopReason, ToolCall, ToolCallView, ToolResultMessage, ToolResultMessageView, UserContent,
    UserContentView, UserMessage, UserMessageView,
};
use crate::queue::QueueKind;
use crate::stream::{find_last_assistant, last_assistant};
use crate::text::{clone_opt_text, decimal, decimal_of, opt_text, owned};
use crate::tool_run::{opt_messages, result_views};

verus! {

/// What a run waits for.
#[derive(Debug, PartialEq, Eq)]
pub enum RunPhase {
    /// Steering messages that were queued while the agent was idle.
    InitialSteering,
    /// Whether the run was aborted, at the start of a turn.
    TurnAbort,
    /// A response of the model.
    Assistant,
    /// Steering messages, after the response failed.
    FailedSteering(Error),
    /// Steering messages, after a response that ends the run.
    StoppedSteering,
    /// Steering messages, after the cap on tool rounds was passed.
    CapSteering { stop: AssistantMessage, error: String },
    /// The tool calls of a response.
    Tools,
    /// Steering messages, after tool calls could not be executed.
    ToolErrorSteering(Error),
    /// Steering messages, after a turn; `more` says whether the model has results to look at.
    NextSteering { more: bool },
    /// Follow-up messages.
    FollowUp,
    /// Nothing more.
    Done,
}

/// The mathematical value of [`RunPhase`].
#[verifier::ext_equal]
pub enum RunPhaseView {
    InitialSteering,
    TurnAbort,
    Assistant,
    FailedSteering(ErrorView),
    StoppedSteering,
    CapSteering { stop: AssistantMessageView, error: Seq<char> },
    Tools,
    ToolErrorSteering(ErrorView),
    NextSteering { more: bool },
    FollowUp,
    Done,
}

impl View for RunPhase {
    type V = RunPhaseView;

    open spec fn view(&self) -> RunPhaseView {
        match *self {
            RunPhase::InitialSteering => RunPhaseView::InitialSteering,
            RunPhase::TurnAbort => RunPhaseView::TurnAbort,
            RunPhase::Assistant => RunPhaseView::Assistant,
            RunPhase::FailedSteering(e) => RunPhaseView::FailedSteering(e@),
            RunPhase::StoppedSteering => RunPhaseView::StoppedSteering,
            RunPhase::CapSteering { stop, error } => RunPhaseView::CapSteering {
                stop: stop@,
                error: error@,
            },
            RunPhase::Tools => RunPhaseView::Tools,
            RunPhase::ToolErrorSteering(e) => RunPhaseView::ToolErrorSteering(e@),
            RunPhase::NextSteering { more } => RunPhaseView::NextSteering { more },
            RunPhase::FollowUp => RunPhaseView::FollowUp,
            RunPhase::Done => RunPhaseView::Done,
        }
    }
}

/// A run of the agent.
#[derive(Debug)]
pub struct Run {
    pub session_id: String,
    pub max_iterations: usize,
    /// How many responses asked for tools.
    pub iterations: usize,
    /// Whether the hand-off warning was given.
    pub warned: bool,
    pub turn_index: usize,
    /// The messages that the run added.
    pub new_messages: Vec<Message>,
    pub last_assistant: Option<Arc<AssistantMessage>>,
    /// Messages for the next turn.
    pub pending: Vec<Message>,
    pub phase: RunPhase,
}

/// The mathematical value of [`Run`].
#[verifier::ext_equal]
pub struct RunView {
    pub session_id: Seq<char>,
    pub max_iterations: usize,
    pub iterations: usize,
    pub warned: bool,
    pub turn_index: usize,
    pub new_messages: Seq<MessageView>,
    pub last_assistant: Option<AssistantMessageView>,
    pub pending: Seq<MessageView>,
    pub phase: RunPhaseView,
}

/// The value of an optional shared response.
pub open spec fn opt_assistant(o: Option<Arc<AssistantMessage>>) -> Option<AssistantMessageView> {
    match o {
        Some(m) => Some(m@),
        None => None,
    }
}

impl View for Run {
    type V = RunView;

    open spec fn view(&self) -> RunView {
        RunView {
            session_id: self.session_id@,
            max_iterations: self.max_iterations,
            iterations: self.iterations,
            warned: self.warned,
            turn_index: self.turn_index,
            new_messages: self.new_messages.deep_view(),
            last_assistant: opt_assistant(self.last_assistant),
            pending: self.pending.deep_view(),
            phase: self.phase@,
        }
    }
}

impl RunView {
    /// There is a response from when the first one has arrived.
    pub open spec fn wf(self) -> bool {
        match self.phase {
            RunPhaseView::StoppedSteering
            | RunPhaseView::Tools
            | RunPhaseView::ToolErrorSteering(_)
            | RunPhaseView::NextSteering { .. }
            | RunPhaseView::FollowUp => self.last_assistant is Some,
            _ => true,
        }
    }
}

/// What the tool calls of a response came to.
#[derive(Debug, PartialEq, Eq)]
pub struct ToolOutcome {
    pub tool_results: Vec<Arc<ToolResultMessage>>,
    pub steering_messages: Option<Vec<Message>>,
}

/// What a run answers to.
#[derive(Debug, PartialEq, Eq)]
pub enum RunInput {
    /// What the steering fetchers brought.
    Steering(Vec<Message>),
    /// What the follow-up fetchers brought.
    FollowUp(Vec<Message>),
    /// Whether the run was aborted.
    Abort(bool),
    /// The response of the model, which the history already holds, or why there is none.
    Assistant(Result<AssistantMessage, Error>),
    /// What the tool calls came to.
    Tools(Result<ToolOutcome, Error>),
}

/// The mathematical value of [`RunInput`].
#[verifier::ext_equal]
pub enum RunInputView {
    Steering(Seq<MessageView>),
    FollowUp(Seq<MessageView>),
    Abort(bool),
    Response(AssistantMessageView),
    NoResponse(ErrorView),
    ToolResults { results: Seq<ToolResultMessageView>, steering: Option<Seq<MessageView>> },
    NoToolResults(ErrorView),
}

impl View for RunInput {
    type V = RunInputView;

    open spec fn view(&self) -> RunInputView {
        match *self {
            RunInput::Steering(ms) => RunInputView::Steering(ms.deep_view()),
            RunInput::FollowUp(ms) => RunInputView::FollowUp(ms.deep_view()),
            RunInput::Abort(b) => RunInputView::Abort(b),
            RunInput::Assistant(r) => match r {
                Ok(m) => RunInputView::Response(m@),
                Err(e) => RunInputView::NoResponse(e@),
            },
            RunInput::Tools(r) => match r {
                Ok(o) => RunInputView::ToolResults {
                    results: result_views(o.tool_results@),
                    steering: opt_messages(o.steering_messages),
                },
                Err(e) => RunInputView::NoToolResults(e@),
            },
        }
    }
}

/// What a run asks for next.
#[derive(Debug, PartialEq, Eq)]
pub enum RunAction {
    /// Fetch steering messages.
    FetchSteering,
    /// Fetch follow-up messages.
    FetchFollowUp,
    /// Say whether the run was aborted.
    CheckAbort,
    /// Stream a response of the model.
    StreamAssistant,
    /// Execute tool calls.
    ExecuteTools(Vec<ToolCall>),
    /// The run is over.
    Finish(Result<AssistantMessage, Error>),
}

/// The mathematical value of [`RunAction`].
#[verifier::ext_equal]
pub enum RunActionView {
    FetchSteering,
    FetchFollowUp,
    CheckAbort,
    StreamAssistant,
    ExecuteTools(Seq<ToolCallView>),
    Finished(AssistantMessageView),
    Failed(ErrorView),
}

impl View for RunAction {
    type V = RunActionView;

    open spec fn view(&self) -> RunActionView {
        match *self {
            RunAction::FetchSteering => RunActionView::FetchSteering,
            RunAction::FetchFollowUp => RunActionView::FetchFollowUp,
            RunAction::CheckAbort => RunActionView::CheckAbort,
            RunAction::StreamAssistant => RunActionView::StreamAssistant,
            RunAction::ExecuteTools(calls) => RunActionView::ExecuteTools(calls.deep_view()),
            RunAction::Finish(r) => match r {
                Ok(m) => RunActionView::Finished(m@),
                Err(e) => RunActionView::Failed(e@),
            },
        }
    }
}

/// The start and the end of each message, in order.
pub open spec fn announcements(messages: Seq<MessageView>) -> Seq<AgentEventView>
    decreases messages.len(),
{
    if messages.len() == 0 {
        Seq::empty()
    } else {
        announcements(messages.drop_last()) + seq![
            AgentEventView::MessageStart { message: messages.last() },
            AgentEventView::MessageEnd { message: messages.last() },
        ]
    }
}

/// The warning that asks the model to hand its work over.
pub open spec fn handoff_warning(iterations: usize, max: usize, now: i64) -> MessageView {
    MessageView::User(
        UserMessageView {
            content: UserContentView::Text(handoff_text(iterations, max)),
            timestamp: now,
        },
    )
}

/// What is said when the cap on tool rounds is passed.
pub open spec fn cap_text(max: usize) -> Seq<char> {
    "Maximum tool iterations ("@ + decimal(max as nat) + ") exceeded"@
}

/// The response that stands for one which passed the cap: without its tool calls, and failed.
pub open spec fn stop_message(m: AssistantMessageView, max: usize) -> AssistantMessageView {
    AssistantMessageView {
        content: without_tool_calls(m.content),
        stop_reason: StopReason::Error,
        error_message: Some(cap_text(max)),
        ..m
    }
}

/// A list of messages with its last assistant message replaced.
pub open spec fn with_last_assistant(
    messages: Seq<MessageView>,
    m: AssistantMessageView,
) -> Seq<MessageView> {
    let at = last_assistant(messages);
    if at >= 0 {
        messages.update(at, MessageView::Assistant(m))
    } else {
        messages
    }
}

/// The number after `n`, or `n` if there is none.
pub open spec fn successor(n: usize) -> usize {
    if n == usize::MAX {
        n
    } else {
        (n + 1) as usize
    }
}

/// A run together with all that it changes: the agent and the events that were emitted.
#[verifier::ext_equal]
pub struct RunWorld {
    pub run: RunView,
    pub agent: AgentView,
    pub events: Seq<AgentEventView>,
}

impl RunWorld {
    /// This world in another phase.
    pub open spec fn in_phase(self, phase: RunPhaseView) -> RunWorld {
        RunWorld { run: RunView { phase, ..self.run }, ..self }
    }

    /// This world with one more event.
    pub open spec fn with_event(self, event: AgentEventView) -> RunWorld {
        RunWorld { events: self.events.push(event), ..self }
    }

    /// This world after messages joined the history and the new messages, and were announced.
    pub open spec fn delivered(self, messages: Seq<MessageView>) -> RunWorld {
        RunWorld {
            run: RunView { new_messages: self.run.new_messages + messages, ..self.run },
            agent: AgentView { messages: self.agent.messages + messages, ..self.agent },
            events: self.events + announcements(messages),
        }
    }

    /// The announcement of the end of the turn.
    pub open spec fn turn_end(
        self,
        message: AssistantMessageView,
        results: Seq<ToolResultMessageView>,
        latency: Option<TurnLatencyBreakdownView>,
    ) -> AgentEventView {
        AgentEventView::TurnEnd {
            session_id: self.run.session_id,
            turn_index: self.run.turn_index,
            message: MessageView::Assistant(message),
            tool_results: results.map_values(|r: ToolResultMessageView| MessageView::ToolResult(r)),
            latency_breakdown: latency,
        }
    }

    /// This world after the run ended: the new messages are handed over.
    pub open spec fn ended(self, error: Option<Seq<char>>) -> RunWorld {
        RunWorld {
            run: RunView {
                new_messages: Seq::empty(),
                phase: RunPhaseView::Done,
                ..self.run
            },
            ..self
        }.with_event(
            AgentEventView::AgentEnd {
                session_id: self.run.session_id,
                messages: self.run.new_messages,
                error,
            },
        )
    }

    /// This world after the last turn and the run ended.
    pub open spec fn closed(
        self,
        message: AssistantMessageView,
        latency: Option<TurnLatencyBreakdownView>,
        error: Option<Seq<char>>,
    ) -> RunWorld {
        self.with_event(self.turn_end(message, Seq::empty(), latency)).ended(error)
    }

    /// This world at the start of a turn, in which the pending messages are delivered.
    pub open spec fn turn_begun(self, now: i64) -> (RunWorld, RunActionView) {
        let begun = self.with_event(
            AgentEventView::TurnStart {
                session_id: self.run.session_id,
                turn_index: self.run.turn_index,
                timestamp: now,
            },
        ).delivered(self.run.pending);
        (
            RunWorld { run: RunView { pending: Seq::empty(), ..begun.run }, ..begun }.in_phase(
                RunPhaseView::TurnAbort,
            ),
            RunActionView::CheckAbort,
        )
    }

    /// This world after a steering delivery, which joins the history.
    pub open spec fn steered(self, fetched: Seq<MessageView>) -> RunWorld {
        RunWorld {
            agent: self.agent.after_drain(QueueKind::Steering, fetched),
            ..self
        }.delivered(self.agent.drained(QueueKind::Steering, fetched))
    }

    /// This world after a response that asks for tools.
    pub open spec fn tool_round(self, m: AssistantMessageView, now: i64) -> (
        RunWorld,
        RunActionView,
    ) {
        let iterations = successor(self.run.iterations);
        let max = self.run.max_iterations;
        let warn = !self.run.warned && warning_due(iterations, max);
        let agent = if warn {
            AgentView {
                queue: self.agent.queue.pushed(
                    QueueKind::Steering,
                    handoff_warning(iterations, max, now),
                ),
                ..self.agent
            }
        } else {
            self.agent
        };
        let counted = RunWorld {
            run: RunView { iterations, warned: self.run.warned || warn, ..self.run },
            agent,
            ..self
        };
        if iterations > max {
            let stop = stop_message(m, max);
            (
                RunWorld {
                    run: RunView {
                        new_messages: self.run.new_messages.drop_last().push(
                            MessageView::Assistant(stop),
                        ),
                        ..counted.run
                    },
                    agent: AgentView {
                        messages: with_last_assistant(agent.messages, stop),
                        ..agent
                    },
                    ..counted
                }.in_phase(RunPhaseView::CapSteering { stop, error: cap_text(max) }),
                RunActionView::FetchSteering,
            )
        } else {
            (
                counted.in_phase(RunPhaseView::Tools),
                RunActionView::ExecuteTools(tool_calls_of(m.content)),
            )
        }
    }

    /// This world after a response.
    pub open spec fn responded(
        self,
        m: AssistantMessageView,
        latency: Option<TurnLatencyBreakdownView>,
        now: i64,
    ) -> (RunWorld, RunActionView) {
        let noted = RunWorld {
            run: RunView {
                last_assistant: Some(m),
                new_messages: self.run.new_messages.push(MessageView::Assistant(m)),
                ..self.run
            },
            ..self
        };
        if m.stop_reason == StopReason::Error || m.stop_reason == StopReason::Aborted {
            (noted.in_phase(RunPhaseView::StoppedSteering), RunActionView::FetchSteering)
        } else if tool_calls_of(m.content).len() > 0 {
            noted.tool_round(m, now)
        } else {
            (
                noted.turned(m, Seq::empty(), latency).in_phase(
                    RunPhaseView::NextSteering { more: false },
                ),
                RunActionView::FetchSteering,
            )
        }
    }

    /// This world after a turn that is followed by others, or by the end of the run.
    pub open spec fn turned(
        self,
        m: AssistantMessageView,
        results: Seq<ToolResultMessageView>,
        latency: Option<TurnLatencyBreakdownView>,
    ) -> RunWorld {
        let told = self.with_event(self.turn_end(m, results, latency));
        RunWorld {
            run: RunView { turn_index: successor(self.run.turn_index), ..told.run },
            ..told
        }
    }

    /// This world with other messages pending.
    pub open spec fn with_pending(self, pending: Seq<MessageView>) -> RunWorld {
        RunWorld { run: RunView { pending, ..self.run }, ..self }
    }

    /// What an input does. An input that the phase does not wait for breaks the run off.
    pub open spec fn step(
        self,
        input: RunInputView,
        latency: Option<TurnLatencyBreakdownView>,
        now: i64,
    ) -> (RunWorld, RunActionView) {
        match (self.run.phase, input) {
            (RunPhaseView::InitialSteering, RunInputView::Steering(fetched)) => {
                self.after_delivery(QueueKind::Steering, fetched).turn_begun(now)
            },
            (RunPhaseView::TurnAbort, RunInputView::Abort(aborted)) => if aborted {
                let m = abort_message(self.agent.provider, None, now);
                (
                    self.delivered(seq![MessageView::Assistant(m)]).closed(
                        m,
                        latency,
                        Some("Aborted"@),
                    ),
                    RunActionView::Finished(m),
                )
            } else {
                (self.in_phase(RunPhaseView::Assistant), RunActionView::StreamAssistant)
            },
            (RunPhaseView::Assistant, RunInputView::NoResponse(e)) => (
                self.in_phase(RunPhaseView::FailedSteering(e)),
                RunActionView::FetchSteering,
            ),
            (RunPhaseView::Assistant, RunInputView::Response(m)) => self.responded(m, latency, now),
            (RunPhaseView::FailedSteering(e), RunInputView::Steering(fetched)) => {
                let m = error_message(self.agent.provider, None, e.text(), now);
                (
                    self.steered(fetched).delivered(seq![MessageView::Assistant(m)]).closed(
                        m,
                        latency,
                        Some(e.text()),
                    ),
                    RunActionView::Failed(e),
                )
            },
            (RunPhaseView::StoppedSteering, RunInputView::Steering(fetched)) => {
                let m = self.run.last_assistant->Some_0;
                (
                    self.steered(fetched).closed(m, latency, m.error_message),
                    RunActionView::Finished(m),
                )
            },
            (RunPhaseView::CapSteering { stop, error }, RunInputView::Steering(fetched)) => (
                self.steered(fetched).closed(stop, latency, Some(error)),
                RunActionView::Finished(stop),
            ),
            (RunPhaseView::Tools, RunInputView::NoToolResults(e)) => (
                self.in_phase(RunPhaseView::ToolErrorSteering(e)),
                RunActionView::FetchSteering,
            ),
            (RunPhaseView::ToolErrorSteering(e), RunInputView::Steering(fetched)) => (
                self.steered(fetched).closed(
                    self.run.last_assistant->Some_0,
                    latency,
                    Some(e.text()),
                ),
                RunActionView::Failed(e),
            ),
            (RunPhaseView::Tools, RunInputView::ToolResults { results, steering }) => {
                let next = self.turned(self.run.last_assistant->Some_0, results, latency);
                match steering {
                    Some(messages) => next.with_pending(messages).turn_begun(now),
                    None => (
                        next.in_phase(RunPhaseView::NextSteering { more: true }),
                        RunActionView::FetchSteering,
                    ),
                }
            },
            (RunPhaseView::NextSteering { more }, RunInputView::Steering(fetched)) => {
                let next = self.after_delivery(QueueKind::Steering, fetched);
                if more || next.run.pending.len() > 0 {
                    next.turn_begun(now)
                } else {
                    (next.in_phase(RunPhaseView::FollowUp), RunActionView::FetchFollowUp)
                }
            },
            (RunPhaseView::FollowUp, RunInputView::FollowUp(fetched)) => {
                let next = self.after_delivery(QueueKind::FollowUp, fetched);
                if next.run.pending.len() > 0 {
                    next.turn_begun(now)
                } else {
                    (next.ended(None), RunActionView::Finished(self.run.last_assistant->Some_0))
                }
            },
            _ => (
                self.in_phase(RunPhaseView::Done),
                RunActionView::Failed(ErrorView::Session("Run out of step"@)),
            ),
        }
    }

    /// This world with the next delivery of a queue pending.
    pub open spec fn after_delivery(self, kind: QueueKind, fetched: Seq<MessageView>) -> RunWorld {
        RunWorld {
            agent: self.agent.after_drain(kind, fetched),
            ..self
        }.with_pending(self.agent.drained(kind, fetched))
    }
}

/// The world that the parts of it make up.
pub open spec fn run_world(run: Run, agent: Agent, out: Vec<AgentEvent>) -> RunWorld {
    RunWorld { run: run@, agent: agent@, events: out.deep_view() }
}

/// Whether an input is one that the phase waits for.
pub open spec fn awaits(phase: RunPhaseView, input: RunInputView) -> bool {
    match (phase, input) {
        (RunPhaseView::InitialSteering, RunInputView::Steering(_)) => true,
        (RunPhaseView::TurnAbort, RunInputView::Abort(_)) => true,
        (RunPhaseView::Assistant, RunInputView::NoResponse(_)) => true,
        (RunPhaseView::Assistant, RunInputView::Response(_)) => true,
        (RunPhaseView::FailedSteering(_), RunInputView::Steering(_)) => true,
        (RunPhaseView::StoppedSteering, RunInputView::Steering(_)) => true,
        (RunPhaseView::CapSteering { .. }, RunInputView::Steering(_)) => true,
        (RunPhaseView::Tools, RunInputView::NoToolResults(_)) => true,
        (RunPhaseView::Tools, RunInputView::ToolResults { .. }) => true,
        (RunPhaseView::ToolErrorSteering(_), RunInputView::Steering(_)) => true,
        (RunPhaseView::NextSteering { .. }, RunInputView::Steering(_)) => true,
        (RunPhaseView::FollowUp, RunInputView::FollowUp(_)) => true,
        _ => false,
    }
}

fn next_number(n: usize) -> (r: usize)
    ensures
        r == successor(n),
{
    n.saturating_add(1)
}

fn cap_message(max: usize) -> (r: String)
    ensures
        r@ == cap_text(max),
{
    let mut r = owned("Maximum tool iterations (");
    r.push_str(decimal_of(max as u64).as_str());
    r.push_str(") exceeded");
    r
}

fn tool_messages(results: &Vec<Arc<ToolResultMessage>>) -> (r: Vec<Message>)
    ensures
        r.deep_view() == result_views(results@).map_values(
            |m: ToolResultMessageView| MessageView::ToolResult(m),
        ),
{
    let ghost all = result_views(results@);
    let mut r: Vec<Message> = Vec::new();
    let mut i: usize = 0;
    while i < results.len()
        invariant
            i <= results@.len(),
            r@.len() == i,
            all == result_views(results@),
            forall|j: int| 0 <= j < i ==> (#[trigger] r@[j])@ == MessageView::ToolResult(all[j]),
        decreases results@.len() - i,
    {
        r.push(Message::ToolResult(Arc::clone(&results[i])));
        i += 1;
    }
    assert(r.deep_view() =~= all.map_values(
        |m: ToolResultMessageView| MessageView::ToolResult(m),
    ));
    r
}

impl Run {
    /// Puts messages into the history and among the new messages, and announces them.
    fn deliver(&mut self, agent: &mut Agent, messages: &Vec<Message>, out: &mut Vec<AgentEvent>)
        ensures
            run_world(*final(self), *final(agent), *final(out)) == run_world(
                *old(self),
                *old(agent),
                *old(out),
            ).delivered(messages.deep_view()),
            old(agent).wf() ==> final(agent).wf(),
    {
        let ghost w = run_world(*self, *agent, *out);
        let ghost all = messages.deep_view();
        let mut i: usize = 0;
        assert(all.take(0) =~= Seq::empty());
        assert(w.delivered(all.take(0)) =~= w);
        while i < messages.len()
            invariant
                i <= messages@.len(),
                all == messages.deep_view(),
                run_world(*self, *agent, *out) == w.delivered(all.take(i as int)),
                old(agent).wf() ==> agent.wf(),
            decreases messages@.len() - i,
        {
            let ghost wi = run_world(*self, *agent, *out);
            push_message(&mut agent.messages, messages[i].clone());
            emit(out, AgentEvent::MessageStart { message: messages[i].clone() });
            emit(out, AgentEvent::MessageEnd { message: messages[i].clone() });
            push_message(&mut self.new_messages, messages[i].clone());
            proof {
                let next = all.take(i + 1);
                let m = messages@[i as int]@;
                assert(next.drop_last() =~= all.take(i as int));
                assert(next.last() == m);
                assert(self@.new_messages =~= w.run.new_messages + next);
                assert(agent@.messages =~= w.agent.messages + next);
                assert(out.deep_view() =~= w.events + announcements(next));
            }
            i += 1;
        }
        assert(all.take(i as int) =~= all);
    }

    fn deliver_response(
        &mut self,
        agent: &mut Agent,
        message: &AssistantMessage,
        out: &mut Vec<AgentEvent>,
    )
        ensures
            run_world(*final(self), *final(agent), *final(out)) == run_world(
                *old(self),
                *old(agent),
                *old(out),
            ).delivered(seq![MessageView::Assistant(message@)]),
            old(agent).wf() ==> final(agent).wf(),
    {
        let mut one: Vec<Message> = Vec::new();
        one.push(Message::assistant(message.clone()));
        assert(one.deep_view() =~= seq![MessageView::Assistant(message@)]);
        self.deliver(agent, &one, out);
    }

    fn emit_turn_end(
        &self,
        message: &AssistantMessage,
        results: &Vec<Arc<ToolResultMessage>>,
        latency: &Option<Box<TurnLatencyBreakdown>>,
        out: &mut Vec<AgentEvent>,
    )
        ensures
            forall|w: RunWorld|
                w.run == self@ ==> final(out).deep_view() == old(out).deep_view().push(
                    #[trigger] w.turn_end(message@, result_views(results@), opt_breakdown(*latency)),
                ),
    {
        emit(
            out,
            AgentEvent::TurnEnd {
                session_id: self.session_id.clone(),
                turn_index: self.turn_index,
                message: Message::assistant(message.clone()),
                tool_results: tool_messages(results),
                latency_breakdown: clone_opt_breakdown(latency),
            },
        );
    }

    fn end(&mut self, error: Option<String>, out: &mut Vec<AgentEvent>)
        ensures
            forall|agent: AgentView|
                (RunWorld { run: final(self)@, agent, events: final(out).deep_view() })
                    == #[trigger] (RunWorld {
                    run: old(self)@,
                    agent,
                    events: old(out).deep_view(),
                }).ended(opt_text(error)),
    {
        let messages = clone_messages(&self.new_messages);
        emit(
            out,
            AgentEvent::AgentEnd { session_id: self.session_id.clone(), messages, error },
        );
        self.new_messages = Vec::new();
        self.phase = RunPhase::Done;
        assert(self@.new_messages =~= Seq::empty());
    }

    /// Announces the end of the last turn and of the run.
    fn close(
        &mut self,
        agent: &Agent,
        message: &AssistantMessage,
        latency: &Option<Box<TurnLatencyBreakdown>>,
        error: Option<String>,
        out: &mut Vec<AgentEvent>,
    )
        ensures
            run_world(*final(self), *agent, *final(out)) == run_world(
                *old(self),
                *agent,
                *old(out),
            ).closed(message@, opt_breakdown(*latency), opt_text(error)),
    {
        let ghost w = run_world(*self, *agent, *out);
        let none: Vec<Arc<ToolResultMessage>> = Vec::new();
        self.emit_turn_end(message, &none, latency, out);
        proof {
            assert(result_views(none@) =~= Seq::empty());
            assert(run_world(*self, *agent, *out) == w.with_event(
                w.turn_end(message@, Seq::empty(), opt_breakdown(*latency)),
            ));
        }
        let ghost told = run_world(*self, *agent, *out);
        self.end(error, out);
        assert(run_world(*self, *agent, *out) == told.ended(opt_text(error)));
    }

    /// Starts a turn.
    fn begin_turn(&mut self, agent: &mut Agent, now: i64, out: &mut Vec<AgentEvent>)
        ensures
            run_world(*final(self), *final(agent), *final(out)) == run_world(
                *old(self),
                *old(agent),
                *old(out),
            ).turn_begun(now).0,
            old(agent).wf() ==> final(agent).wf(),
    {
        let ghost w = run_world(*self, *agent, *out);
        emit(
            out,
            AgentEvent::TurnStart {
                session_id: self.session_id.clone(),
                turn_index: self.turn_index,
                timestamp: now,
            },
        );
        let pending = clone_messages(&self.pending);
        self.deliver(agent, &pending, out);
        self.pending = Vec::new();
        self.phase = RunPhase::TurnAbort;
        assert(self@.pending =~= Seq::empty());
        assert(run_world(*self, *agent, *out) == w.turn_begun(now).0);
    }

    /// Delivers the steering messages that are due.
    fn steer(&mut self, agent: &mut Agent, fetched: Vec<Message>, out: &mut Vec<AgentEvent>)
        ensures
            run_world(*final(self), *final(agent), *final(out)) == run_world(
                *old(self),
                *old(agent),
                *old(out),
            ).steered(fetched.deep_view()),
            old(agent).wf() ==> final(agent).wf(),
    {
        let due = agent.drain_steering_messages(fetched);
        self.deliver(agent, &due, out);
    }

    /// Announces the end of a turn after which the run goes on.
    fn turn(
        &mut self,
        agent: &Agent,
        message: &AssistantMessage,
        results: &Vec<Arc<ToolResultMessage>>,
        latency: &Option<Box<TurnLatencyBreakdown>>,
        out: &mut Vec<AgentEvent>,
    )
        ensures
            run_world(*final(self), *agent, *final(out)) == run_world(
                *old(self),
                *agent,
                *old(out),
            ).turned(message@, result_views(results@), opt_breakdown(*latency)),
    {
        let ghost w = run_world(*self, *agent, *out);
        self.emit_turn_end(message, results, latency, out);
        assert(out.deep_view() == w.events.push(
            w.turn_end(message@, result_views(results@), opt_breakdown(*latency)),
        ));
        self.turn_index = next_number(self.turn_index);
    }

    /// Notes a response that asks for tools.
    fn start_tool_round(
        &mut self,
        agent: &mut Agent,
        message: &Arc<AssistantMessage>,
        calls: Vec<ToolCall>,
        now: i64,
        out: &mut Vec<AgentEvent>,
    ) -> (action: RunAction)
        requires
            calls.deep_view() == tool_calls_of(message@.content),
            old(self)@.new_messages.len() > 0,
            old(self)@.last_assistant is Some,
        ensures
            (run_world(*final(self), *final(agent), *final(out)), action@) == run_world(
                *old(self),
                *old(agent),
                *old(out),
            ).tool_round(message@, now),
            final(self)@.wf(),
            old(agent).wf() ==> final(agent).wf(),
    {
        let ghost w = run_world(*self, *agent, *out);
        self.iterations = next_number(self.iterations);
        if !self.warned && should_warn_at_iteration_threshold(self.iterations, self.max_iterations) {
            self.warned = true;
            let warning = Message::User(
                UserMessage {
                    content: UserContent::Text(
                        iteration_handoff_steering_text(self.iterations, self.max_iterations),
                    ),
                    timestamp: now,
                },
            );
            let _ = agent.message_queue.push_steering(warning);
        }
        if self.iterations > self.max_iterations {
            let error = cap_message(self.max_iterations);
            let mut stop: AssistantMessage = (**message).clone();
            stop.stop_reason = StopReason::Error;
            stop.error_message = Some(error.clone());
            stop.content = drop_tool_calls(&stop.content);
            let shared = Arc::new(stop.clone());
            if let Some(at) = find_last_assistant(&agent.messages) {
                let ghost before = agent.messages.deep_view();
                agent.messages.set(at, Message::Assistant(Arc::clone(&shared)));
                assert(agent.messages.deep_view() =~= before.update(
                    at as int,
                    MessageView::Assistant(stop@),
                ));
            }
            let last: usize = self.new_messages.len() - 1;
            self.new_messages.set(last, Message::Assistant(shared));
            proof {
                assert(self@.new_messages =~= w.run.new_messages.drop_last().push(
                    MessageView::Assistant(stop@),
                ));
                assert(stop@ =~= stop_message(message@, w.run.max_iterations));
            }
            self.phase = RunPhase::CapSteering { stop, error };
            RunAction::FetchSteering
        } else {
            self.phase = RunPhase::Tools;
            RunAction::ExecuteTools(calls)
        }
    }

    /// Notes a response.
    fn respond(
        &mut self,
        agent: &mut Agent,
        message: AssistantMessage,
        latency: &Option<Box<TurnLatencyBreakdown>>,
        now: i64,
        out: &mut Vec<AgentEvent>,
    ) -> (action: RunAction)
        ensures
            (run_world(*final(self), *final(agent), *final(out)), action@) == run_world(
                *old(self),
                *old(agent),
                *old(out),
            ).responded(message@, opt_breakdown(*latency), now),
            final(self)@.wf(),
            old(agent).wf() ==> final(agent).wf(),
    {
        let ghost w = run_world(*self, *agent, *out);
        let shared = Arc::new(message);
        self.last_assistant = Some(Arc::clone(&shared));
        push_message(&mut self.new_messages, Message::Assistant(Arc::clone(&shared)));
        let stopped = match shared.stop_reason {
            StopReason::Error | StopReason::Aborted => true,
            _ => false,
        };
        if stopped {
            self.phase = RunPhase::StoppedSteering;
            return RunAction::FetchSteering;
        }
        let calls = extract_tool_calls(&shared.content);
        if calls.len() > 0 {
            return self.start_tool_round(agent, &shared, calls, now, out);
        }
        let none: Vec<Arc<ToolResultMessage>> = Vec::new();
        assert(result_views(none@) =~= Seq::empty());
        self.turn(agent, &*shared, &none, latency, out);
        self.phase = RunPhase::NextSteering { more: false };
        RunAction::FetchSteering
    }

    /// Starts a run with the given prompts.
    pub fn start(
        agent: &mut Agent,
        prompts: Vec<Message>,
        out: &mut Vec<AgentEvent>,
    ) -> (r: (Run, RunAction))
        ensures
            r.1@ == RunActionView::FetchSteering,
            r.0@.wf(),
            run_world(r.0, *final(agent), *final(out)) == run_started(
                old(agent)@,
                old(out).deep_view(),
                prompts.deep_view(),
            ),
            old(agent).wf() ==> final(agent).wf(),
    {
        let session_id = match &agent.config.stream_options.session_id {
            Some(id) => id.clone(),
            None => String::new(),
        };
        emit(out, AgentEvent::AgentStart { session_id: session_id.clone() });
        let mut run = Run {
            session_id,
            max_iterations: agent.config.max_tool_iterations,
            iterations: 0,
            warned: false,
            turn_index: 0,
            new_messages: Vec::new(),
            last_assistant: None,
            pending: Vec::new(),
            phase: RunPhase::InitialSteering,
        };
        assert(run@.new_messages =~= Seq::empty());
        assert(run@.pending =~= Seq::empty());
        run.deliver(agent, &prompts, out);
        (run, RunAction::FetchSteering)
    }

    /// Takes one step of the run, at the time `now`. `latency` says where the time of the turn went
    /// so far.
    #[verifier::spinoff_prover]
    #[verifier::rlimit(50)]
    pub fn step_at(
        &mut self,
        agent: &mut Agent,
        input: RunInput,
        latency: Option<Box<TurnLatencyBreakdown>>,
        now: i64,
        out: &mut Vec<AgentEvent>,
    ) -> (action: RunAction)
        requires
            old(self)@.wf(),
        ensures
            (run_world(*final(self), *final(agent), *final(out)), action@) == run_world(
                *old(self),
                *old(agent),
                *old(out),
            ).step(input@, opt_breakdown(latency), now),
            final(self)@.wf(),
            old(agent).wf() ==> final(agent).wf(),
    {
        let ghost w = run_world(*self, *agent, *out);
        let mut phase = RunPhase::Done;
        std::mem::swap(&mut phase, &mut self.phase);
        let ghost taken = run_world(*self, *agent, *out);
        assert(taken == w.in_phase(RunPhaseView::Done));
        match (phase, input) {
            (RunPhase::InitialSteering, RunInput::Steering(fetched)) => {
                self.pending = agent.drain_steering_messages(fetched);
                self.begin_turn(agent, now, out);
                RunAction::CheckAbort
            },
            (RunPhase::TurnAbort, RunInput::Abort(aborted)) => {
                if aborted {
                    let message = agent.build_abort_message_at(None, now);
                    self.deliver_response(agent, &message, out);
                    self.close(agent, &message, &latency, Some(owned("Aborted")), out);
                    RunAction::Finish(Ok(message))
                } else {
                    self.phase = RunPhase::Assistant;
                    RunAction::StreamAssistant
                }
            },
            (RunPhase::Assistant, RunInput::Assistant(response)) => match response {
                Err(e) => {
                    self.phase = RunPhase::FailedSteering(e);
                    RunAction::FetchSteering
                },
                Ok(message) => self.respond(agent, message, &latency, now, out),
            },
            (RunPhase::FailedSteering(e), RunInput::Steering(fetched)) => {
                self.steer(agent, fetched, out);
                let message = agent.build_error_message_at(None, e.message(), now);
                self.deliver_response(agent, &message, out);
                self.close(agent, &message, &latency, Some(e.message()), out);
                RunAction::Finish(Err(e))
            },
            (RunPhase::StoppedSteering, RunInput::Steering(fetched)) => {
                self.steer(agent, fetched, out);
                match &self.last_assistant {
                    Some(shared) => {
                        let message: AssistantMessage = (**shared).clone();
                        let error = clone_opt_text(&message.error_message);
                        self.close(agent, &message, &latency, error, out);
                        RunAction::Finish(Ok(message))
                    },
                    None => {
                        assert(false);
                        RunAction::CheckAbort
                    },
                }
            },
            (RunPhase::CapSteering { stop, error }, RunInput::Steering(fetched)) => {
                self.steer(agent, fetched, out);
                self.close(agent, &stop, &latency, Some(error), out);
                RunAction::Finish(Ok(stop))
            },
            (RunPhase::Tools, RunInput::Tools(outcome)) => match outcome {
                Err(e) => {
                    self.phase = RunPhase::ToolErrorSteering(e);
                    RunAction::FetchSteering
                },
                Ok(outcome) => {
                    match &self.last_assistant {
                        Some(shared) => {
                            let message: AssistantMessage = (**shared).clone();
                            self.turn(agent, &message, &outcome.tool_results, &latency, out);
                            match outcome.steering_messages {
                                Some(messages) => {
                                    self.pending = messages;
                                    self.begin_turn(agent, now, out);
                                    RunAction::CheckAbort
                                },
                                None => {
                                    self.phase = RunPhase::NextSteering { more: true };
                                    RunAction::FetchSteering
                                },
                            }
                        },
                        None => {
                            assert(false);
                            RunAction::CheckAbort
                        },
                    }
                },
            },
            (RunPhase::ToolErrorSteering(e), RunInput::Steering(fetched)) => {
                self.steer(agent, fetched, out);
                match &self.last_assistant {
                    Some(shared) => {
                        let message: AssistantMessage = (**shared).clone();
                        self.close(agent, &message, &latency, Some(e.message()), out);
                        RunAction::Finish(Err(e))
                    },
                    None => {
                        assert(false);
                        RunAction::CheckAbort
                    },
                }
            },
            (RunPhase::NextSteering { more }, RunInput::Steering(fetched)) => {
                self.pending = agent.drain_steering_messages(fetched);
                if more || self.pending.len() > 0 {
                    self.begin_turn(agent, now, out);
                    RunAction::CheckAbort
                } else {
                    self.phase = RunPhase::FollowUp;
                    RunAction::FetchFollowUp
                }
            },
            (RunPhase::FollowUp, RunInput::FollowUp(fetched)) => {
                self.pending = agent.drain_follow_up_messages(fetched);
                if self.pending.len() > 0 {
                    self.begin_turn(agent, now, out);
                    RunAction::CheckAbort
                } else {
                    let ghost ready = run_world(*self, *agent, *out);
                    self.end(None, out);
                    assert(run_world(*self, *agent, *out) == ready.ended(None));
                    match &self.last_assistant {
                        Some(shared) => RunAction::Finish(Ok((**shared).clone())),
                        None => {
                            assert(false);
                            RunAction::CheckAbort
                        },
                    }
                }
            },
            _ => RunAction::Finish(Err(Error::Session(owned("Run out of step")))),
        }
    }

    /// Takes one step of the run, at the present time.
    pub fn step(
        &mut self,
        agent: &mut Agent,
        input: RunInput,
        latency: Option<Box<TurnLatencyBreakdown>>,
        out: &mut Vec<AgentEvent>,
    ) -> (action: RunAction)
        requires
            old(self)@.wf(),
        ensures
            exists|now: i64|
                (run_world(*final(self), *final(agent), *final(out)), action@)
                    == #[trigger] run_world(*old(self), *old(agent), *old(out)).step(
                    input@,
                    opt_breakdown(latency),
                    now,
                ),
            final(self)@.wf(),
            old(agent).wf() ==> final(agent).wf(),
    {
        let now: i64 = now_millis();
        self.step_at(agent, input, latency, now, out)
    }
}

/// A message of the user.
pub open spec fn user_message(content: UserContentView, now: i64) -> MessageView {
    MessageView::User(UserMessageView { content, timestamp: now })
}

impl Agent {
    /// Starts a run with one message of the user, written at the time `now`.
    pub fn run_content_at(&mut self, content: UserContent, now: i64, out: &mut Vec<AgentEvent>) -> (r:
        (Run, RunAction))
        ensures
            r.1@ == RunActionView::FetchSteering,
            r.0@.wf(),
            run_world(r.0, *final(self), *final(out)) == run_started(
                old(self)@,
                old(out).deep_view(),
                seq![user_message(content@, now)],
            ),
            old(self).wf() ==> final(self).wf(),
    {
        let mut prompts: Vec<Message> = Vec::new();
        prompts.push(Message::User(UserMessage { content, timestamp: now }));
        assert(prompts.deep_view() =~= seq![user_message(content@, now)]);
        Run::start(self, prompts, out)
    }

    /// Starts a run with a text of the user.
    pub fn run(&mut self, user_input: String, out: &mut Vec<AgentEvent>) -> (r: (Run, RunAction))
        ensures
            r.1@ == RunActionView::FetchSteering,
            r.0@.wf(),
            exists|now: i64|
                run_world(r.0, *final(self), *final(out)) == run_started(
                    old(self)@,
                    old(out).deep_view(),
                    seq![#[trigger] user_message(UserContentView::Text(user_input@), now)],
                ),
            old(self).wf() ==> final(self).wf(),
    {
        let now: i64 = now_millis();
        self.run_content_at(UserContent::Text(user_input), now, out)
    }

    /// Starts a run with text and images of the user.
    pub fn run_with_content(&mut self, content: Vec<ContentBlock>, out: &mut Vec<AgentEvent>) -> (r: (
        Run,
        RunAction,
    ))
        ensures
            r.1@ == RunActionView::FetchSteering,
            r.0@.wf(),
            exists|now: i64|
                run_world(r.0, *final(self), *final(out)) == run_started(
                    old(self)@,
                    old(out).deep_view(),
                    seq![
                        #[trigger] user_message(UserContentView::Blocks(content.deep_view()), now),
                    ],
                ),
            old(self).wf() ==> final(self).wf(),
    {
        let now: i64 = now_millis();
        self.run_content_at(UserContent::Blocks(content), now, out)
    }
}

/// The world in which a run has just started.
pub open spec fn run_started(
    agent: AgentView,
    events: Seq<AgentEventView>,
    prompts: Seq<MessageView>,
) -> RunWorld {
    let session_id = match agent.config.stream_options.session_id {
        Some(id) => id,
        None => Seq::empty(),
    };
    RunWorld {
        run: RunView {
            session_id,
            max_iterations: agent.config.max_tool_iterations,
            iterations: 0,
            warned: false,
            turn_index: 0,
            new_messages: Seq::empty(),
            last_assistant: None,
            pending: Seq::empty(),
            phase: RunPhaseView::InitialSteering,
        },
        agent,
        events: events.push(AgentEventView::AgentStart { session_id }),
    }.delivered(prompts)
}

} // verus!
