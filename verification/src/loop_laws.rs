//! What a run does at each of its points: which messages join, what is announced, when it goes on and
//! when it ends.
use vstd::prelude::*;

use crate::agent::AgentView;
use crate::agent_laws::draining_loses_no_message;
use crate::content::{tool_calls_of, without_tool_calls};
use crate::error::ErrorView;
use crate::event::AgentEventView;
use crate::latency::TurnLatencyBreakdownView;
use crate::limits::handoff_text;
use crate::model::{
    AssistantMessageView, MessageView, StopReason, ToolResultMessageView, UserContentView,
    UserMessageView,
};
use crate::queue::{contents, latest, MessageQueueView, QueueKind};
use crate::run::{
    announcements, awaits, run_started, RunActionView, RunInputView, RunPhaseView, RunWorld,
};
use crate::stream::{last_assistant, lemma_last_assistant};
use crate::text::decimal;

verus! {

/// Each message is announced by its start and its end, in order.
pub proof fn each_message_is_announced(messages: Seq<MessageView>)
    ensures
        announcements(messages).len() == 2 * messages.len(),
        forall|i: int|
            0 <= i < messages.len() ==> {
                &&& #[trigger] announcements(messages)[2 * i] == (AgentEventView::MessageStart {
                    message: messages[i],
                })
                &&& announcements(messages)[2 * i + 1] == (AgentEventView::MessageEnd {
                    message: messages[i],
                })
            },
    decreases messages.len(),
{
    if messages.len() > 0 {
        let fewer = messages.drop_last();
        each_message_is_announced(fewer);
        let rest = announcements(fewer);
        let all = announcements(messages);
        assert forall|i: int| 0 <= i < messages.len() implies {
            &&& #[trigger] all[2 * i] == (AgentEventView::MessageStart { message: messages[i] })
            &&& all[2 * i + 1] == (AgentEventView::MessageEnd { message: messages[i] })
        } by {
            if i < fewer.len() {
                assert(all[2 * i] == rest[2 * i]);
                assert(all[2 * i + 1] == rest[2 * i + 1]);
                assert(fewer[i] == messages[i]);
            }
        }
    }
}

/// Whether a run keeps what it was started with, and the agent everything but its history and queues.
pub open spec fn keeps_its_settings(before: RunWorld, after: RunWorld) -> bool {
    &&& after.run.session_id == before.run.session_id
    &&& after.run.max_iterations == before.run.max_iterations
    &&& after.agent.tools == before.agent.tools
    &&& after.agent.config == before.agent.config
    &&& after.agent.provider == before.agent.provider
}

/// Whether messages have joined the history and the new messages of the run.
pub open spec fn have_joined(before: RunWorld, after: RunWorld, messages: Seq<MessageView>) -> bool {
    &&& after.agent.messages == before.agent.messages + messages
    &&& after.run.new_messages == before.run.new_messages + messages
}

/// Whether a turn has begun in which messages joined: it is announced with its number, the messages are
/// announced, none is left behind, and the model is asked unless the run was aborted.
pub open spec fn turn_has_begun(
    before: RunWorld,
    told: Seq<AgentEventView>,
    after: RunWorld,
    action: RunActionView,
    messages: Seq<MessageView>,
    now: i64,
) -> bool {
    &&& after.run.phase == RunPhaseView::TurnAbort
    &&& action == RunActionView::CheckAbort
    &&& after.run.pending.len() == 0
    &&& have_joined(before, after, messages)
    &&& after.run.warned == before.run.warned
    &&& after.run.last_assistant == before.run.last_assistant
    &&& after.events == told.push(
        AgentEventView::TurnStart {
            session_id: before.run.session_id,
            turn_index: after.run.turn_index,
            timestamp: now,
        },
    ) + announcements(messages)
}

/// A run begins with its prompts in the history, announced behind the start of the run, no round of tools
/// counted, and a look for messages that were queued before.
pub proof fn run_begins_with_its_prompts(
    agent: AgentView,
    events: Seq<AgentEventView>,
    prompts: Seq<MessageView>,
)
    ensures
        ({
            let w = run_started(agent, events, prompts);
            let session_id = match agent.config.stream_options.session_id {
                Some(id) => id,
                None => Seq::empty(),
            };
            &&& w.run.session_id == session_id
            &&& w.run.max_iterations == agent.config.max_tool_iterations
            &&& w.run.iterations == 0
            &&& !w.run.warned
            &&& w.run.turn_index == 0
            &&& w.run.new_messages == prompts
            &&& w.run.pending.len() == 0
            &&& w.run.last_assistant is None
            &&& w.run.phase == RunPhaseView::InitialSteering
            &&& w.agent.messages == agent.messages + prompts
            &&& w.agent.queue == agent.queue
            &&& w.agent.config == agent.config
            &&& w.agent.tools == agent.tools
            &&& w.events == events.push(AgentEventView::AgentStart { session_id }) + announcements(
                prompts,
            )
        }),
{
    assert(Seq::<MessageView>::empty() + prompts =~= prompts);
}

/// Messages that were queued before the run join its first turn.
pub proof fn first_turn_takes_what_waits(
    w: RunWorld,
    fetched: Seq<MessageView>,
    latency: Option<TurnLatencyBreakdownView>,
    now: i64,
)
    requires
        w.run.phase == RunPhaseView::InitialSteering,
    ensures
        ({
            let due = w.agent.drained(QueueKind::Steering, fetched);
            let (next, action) = w.step(RunInputView::Steering(fetched), latency, now);
            &&& turn_has_begun(w, w.events, next, action, due, now)
            &&& keeps_its_settings(w, next)
            &&& next.run.turn_index == w.run.turn_index
            &&& next.run.iterations == w.run.iterations
            &&& next.agent.queue == w.agent.after_drain(QueueKind::Steering, fetched).queue
        }),
{
}

/// A run ends for want of work only once no follow-up waits: a follow-up that does starts another turn, in
/// which it joins the history.
pub proof fn follow_ups_start_another_turn(
    w: RunWorld,
    fetched: Seq<MessageView>,
    latency: Option<TurnLatencyBreakdownView>,
    now: i64,
)
    requires
        w.run.wf(),
        w.run.phase == RunPhaseView::FollowUp,
    ensures
        ({
            let due = w.agent.drained(QueueKind::FollowUp, fetched);
            let (next, action) = w.step(RunInputView::FollowUp(fetched), latency, now);
            &&& keeps_its_settings(w, next)
            &&& next.run.turn_index == w.run.turn_index
            &&& next.run.iterations == w.run.iterations
            &&& next.agent.queue == w.agent.after_drain(QueueKind::FollowUp, fetched).queue
            &&& due.len() > 0 ==> turn_has_begun(w, w.events, next, action, due, now)
            &&& due.len() == 0 ==> {
                &&& next.run.phase == RunPhaseView::Done
                &&& action == RunActionView::Finished(w.run.last_assistant->Some_0)
                &&& next.run.new_messages.len() == 0
                &&& next.agent.messages == w.agent.messages
                &&& next.events == w.events.push(
                    AgentEventView::AgentEnd {
                        session_id: w.run.session_id,
                        messages: w.run.new_messages,
                        error: None,
                    },
                )
            }
        }),
{
    let due = w.agent.drained(QueueKind::FollowUp, fetched);
    if due.len() == 0 {
        assert(due =~= Seq::empty());
    }
}

/// After a turn, what steers the run starts another turn, in which it joins the history; so do results
/// that the model has not seen. Only otherwise follow-ups are looked for.
pub proof fn steering_starts_another_turn(
    w: RunWorld,
    fetched: Seq<MessageView>,
    more: bool,
    latency: Option<TurnLatencyBreakdownView>,
    now: i64,
)
    requires
        w.run.phase == (RunPhaseView::NextSteering { more }),
    ensures
        ({
            let due = w.agent.drained(QueueKind::Steering, fetched);
            let (next, action) = w.step(RunInputView::Steering(fetched), latency, now);
            &&& keeps_its_settings(w, next)
            &&& next.run.turn_index == w.run.turn_index
            &&& next.run.iterations == w.run.iterations
            &&& next.agent.queue == w.agent.after_drain(QueueKind::Steering, fetched).queue
            &&& more || due.len() > 0 ==> turn_has_begun(w, w.events, next, action, due, now)
            &&& !more && due.len() == 0 ==> {
                &&& next.run.phase == RunPhaseView::FollowUp
                &&& action == RunActionView::FetchFollowUp
                &&& next.agent.messages == w.agent.messages
                &&& next.run.new_messages == w.run.new_messages
                &&& next.run.last_assistant == w.run.last_assistant
                &&& next.events == w.events
            }
        }),
{
}

/// The model is asked once per turn, unless the run was aborted. An aborted run ends at once, with a
/// response that says so and that joins the history.
pub proof fn an_abort_ends_the_run(
    w: RunWorld,
    latency: Option<TurnLatencyBreakdownView>,
    now: i64,
)
    requires
        w.run.phase == RunPhaseView::TurnAbort,
    ensures
        ({
            let (next, action) = w.step(RunInputView::Abort(false), latency, now);
            &&& next.run.phase == RunPhaseView::Assistant
            &&& action == RunActionView::StreamAssistant
            &&& next.agent == w.agent
            &&& next.events == w.events
            &&& next.run.new_messages == w.run.new_messages
            &&& next.run.iterations == w.run.iterations
            &&& next.run.turn_index == w.run.turn_index
            &&& keeps_its_settings(w, next)
        }),
        ({
            let (next, action) = w.step(RunInputView::Abort(true), latency, now);
            let m = action->Finished_0;
            let message = MessageView::Assistant(m);
            &&& action is Finished
            &&& next.run.phase == RunPhaseView::Done
            &&& next.run.new_messages.len() == 0
            &&& m.stop_reason == StopReason::Aborted
            &&& m.error_message == Some("Aborted"@)
            &&& m.content.len() == 0
            &&& m.timestamp == now
            &&& m.model == w.agent.provider.model_id
            &&& m.provider == w.agent.provider.name
            &&& m.api == w.agent.provider.api
            &&& next.agent.messages == w.agent.messages.push(message)
            &&& next.agent.queue == w.agent.queue
            &&& next.events == w.events + seq![
                AgentEventView::MessageStart { message },
                AgentEventView::MessageEnd { message },
                AgentEventView::TurnEnd {
                    session_id: w.run.session_id,
                    turn_index: w.run.turn_index,
                    message,
                    tool_results: Seq::empty(),
                    latency_breakdown: latency,
                },
                AgentEventView::AgentEnd {
                    session_id: w.run.session_id,
                    messages: w.run.new_messages.push(message),
                    error: Some("Aborted"@),
                },
            ]
        }),
{
    let (next, action) = w.step(RunInputView::Abort(true), latency, now);
    let message = MessageView::Assistant(action->Finished_0);
    each_message_is_announced(seq![message]);
    assert(announcements(seq![message])[2 * 0int] == AgentEventView::MessageStart { message });
    assert(next.agent.messages =~= w.agent.messages.push(message));
    assert(w.run.new_messages + seq![message] =~= w.run.new_messages.push(message));
    let none = Seq::<ToolResultMessageView>::empty();
    assert(none.map_values(|r: ToolResultMessageView| MessageView::ToolResult(r)) =~= Seq::empty());
    assert(next.events =~= w.events + seq![
        AgentEventView::MessageStart { message },
        AgentEventView::MessageEnd { message },
        AgentEventView::TurnEnd {
            session_id: w.run.session_id,
            turn_index: w.run.turn_index,
            message,
            tool_results: Seq::empty(),
            latency_breakdown: latency,
        },
        AgentEventView::AgentEnd {
            session_id: w.run.session_id,
            messages: w.run.new_messages.push(message),
            error: Some("Aborted"@),
        },
    ]);
}

/// The number behind `n`, or the greatest one.
pub open spec fn next_count(n: usize) -> int {
    if n < usize::MAX {
        n + 1
    } else {
        n as int
    }
}

/// What a response leads to. A response that failed or was aborted ends the run, after a look for what
/// steers it. One without tool calls ends the turn. One with tool calls has all of them executed, in
/// order, as long as the cap on rounds allows it.
pub proof fn a_response_decides_how_the_run_goes_on(
    w: RunWorld,
    m: AssistantMessageView,
    latency: Option<TurnLatencyBreakdownView>,
    now: i64,
)
    requires
        w.run.phase == RunPhaseView::Assistant,
    ensures
        ({
            let (next, action) = w.step(RunInputView::Response(m), latency, now);
            let broken = m.stop_reason == StopReason::Error || m.stop_reason == StopReason::Aborted;
            let calls = tool_calls_of(m.content);
            &&& keeps_its_settings(w, next)
            &&& next.run.last_assistant == Some(m)
            &&& broken ==> {
                &&& next.run.phase == RunPhaseView::StoppedSteering
                &&& action == RunActionView::FetchSteering
                &&& next.run.new_messages == w.run.new_messages.push(MessageView::Assistant(m))
                &&& next.agent == w.agent
                &&& next.events == w.events
                &&& next.run.iterations == w.run.iterations
            }
            &&& !broken && calls.len() == 0 ==> {
                &&& next.run.phase == (RunPhaseView::NextSteering { more: false })
                &&& action == RunActionView::FetchSteering
                &&& next.run.new_messages == w.run.new_messages.push(MessageView::Assistant(m))
                &&& next.agent == w.agent
                &&& next.run.iterations == w.run.iterations
                &&& next.run.turn_index == next_count(w.run.turn_index)
                &&& next.events == w.events.push(
                    AgentEventView::TurnEnd {
                        session_id: w.run.session_id,
                        turn_index: w.run.turn_index,
                        message: MessageView::Assistant(m),
                        tool_results: Seq::empty(),
                        latency_breakdown: latency,
                    },
                )
            }
            &&& !broken && calls.len() > 0 ==> {
                &&& next.run.iterations == next_count(w.run.iterations)
                &&& next.events == w.events
                &&& next.run.turn_index == w.run.turn_index
            }
            &&& !broken && calls.len() > 0 && next_count(w.run.iterations) <= w.run.max_iterations
                ==> {
                &&& action == RunActionView::ExecuteTools(calls)
                &&& next.run.phase == RunPhaseView::Tools
                &&& next.agent.messages == w.agent.messages
                &&& next.run.new_messages == w.run.new_messages.push(MessageView::Assistant(m))
            }
            &&& !broken && calls.len() > 0 && next_count(w.run.iterations) > w.run.max_iterations
                ==> {
                &&& action == RunActionView::FetchSteering
                &&& next.run.phase is CapSteering
            }
        }),
{
    let none = Seq::<ToolResultMessageView>::empty();
    assert(none.map_values(|r: ToolResultMessageView| MessageView::ToolResult(r)) =~= Seq::empty());
}

/// A response that passes the cap on rounds stays in the history without its tool calls, marked as failed
/// with the cap; everything else of it, and of the history, stays.
pub proof fn a_response_past_the_cap_loses_its_calls(
    w: RunWorld,
    m: AssistantMessageView,
    latency: Option<TurnLatencyBreakdownView>,
    now: i64,
)
    requires
        w.run.phase == RunPhaseView::Assistant,
        m.stop_reason != StopReason::Error,
        m.stop_reason != StopReason::Aborted,
        tool_calls_of(m.content).len() > 0,
        next_count(w.run.iterations) > w.run.max_iterations,
        w.agent.messages.len() > 0,
        w.agent.messages.last() == MessageView::Assistant(m),
    ensures
        ({
            let next = w.step(RunInputView::Response(m), latency, now).0;
            let text = "Maximum tool iterations ("@ + decimal(w.run.max_iterations as nat)
                + ") exceeded"@;
            let stop = AssistantMessageView {
                content: without_tool_calls(m.content),
                api: m.api,
                provider: m.provider,
                model: m.model,
                usage: m.usage,
                stop_reason: StopReason::Error,
                error_message: Some(text),
                timestamp: m.timestamp,
            };
            &&& next.run.phase == (RunPhaseView::CapSteering { stop, error: text })
            &&& next.agent.messages == w.agent.messages.drop_last().push(
                MessageView::Assistant(stop),
            )
            &&& next.run.new_messages == w.run.new_messages.push(MessageView::Assistant(stop))
        }),
{
    let next = w.step(RunInputView::Response(m), latency, now).0;
    lemma_last_assistant(w.agent.messages);
    assert(last_assistant(w.agent.messages) == w.agent.messages.len() - 1);
    let stop = next.run.phase->stop;
    assert(next.agent.messages =~= w.agent.messages.drop_last().push(MessageView::Assistant(stop)));
    assert(w.run.new_messages.push(MessageView::Assistant(m)).drop_last() =~= w.run.new_messages);
}

/// Once the rounds of tools come to four fifths of a cap that is not tiny, rounded down, and no earlier, the
/// model is asked once to hand its work over, by a message that steers the run.
pub proof fn the_model_is_warned_in_time(
    w: RunWorld,
    m: AssistantMessageView,
    latency: Option<TurnLatencyBreakdownView>,
    now: i64,
)
    requires
        w.run.phase == RunPhaseView::Assistant,
        m.stop_reason != StopReason::Error,
        m.stop_reason != StopReason::Aborted,
        tool_calls_of(m.content).len() > 0,
        w.run.max_iterations * 4 <= usize::MAX,
    ensures
        ({
            let next = w.step(RunInputView::Response(m), latency, now).0;
            let round = next_count(w.run.iterations);
            let max = w.run.max_iterations;
            let due = !w.run.warned && max >= 5 && 5 * round > 4 * max - 5;
            &&& due ==> next.run.warned && next.agent.queue == w.agent.queue.pushed(
                QueueKind::Steering,
                MessageView::User(
                    UserMessageView {
                        content: UserContentView::Text(handoff_text(round as usize, max)),
                        timestamp: now,
                    },
                ),
            )
            &&& !due ==> next.run.warned == w.run.warned && next.agent.queue == w.agent.queue
        }),
{
    let max = w.run.max_iterations;
    let round = next_count(w.run.iterations);
    assert((max * 4) / 5 <= round <==> 5 * round > 4 * max - 5);
}

/// Results of tools end the turn, which tells of them in order. What the user said meanwhile starts the
/// next turn at once, in which it joins the history; otherwise the model gets to see the results.
pub proof fn tool_results_end_the_turn(
    w: RunWorld,
    results: Seq<ToolResultMessageView>,
    said: Seq<MessageView>,
    latency: Option<TurnLatencyBreakdownView>,
    now: i64,
)
    requires
        w.run.wf(),
        w.run.phase == RunPhaseView::Tools,
    ensures
        ({
            let told = Seq::new(results.len(), |i: int| MessageView::ToolResult(results[i]));
            let events = w.events.push(
                AgentEventView::TurnEnd {
                    session_id: w.run.session_id,
                    turn_index: w.run.turn_index,
                    message: MessageView::Assistant(w.run.last_assistant->Some_0),
                    tool_results: told,
                    latency_breakdown: latency,
                },
            );
            let (on, ask) = w.step(
                RunInputView::ToolResults { results, steering: None },
                latency,
                now,
            );
            let (next, action) = w.step(
                RunInputView::ToolResults { results, steering: Some(said) },
                latency,
                now,
            );
            &&& on.run.phase == (RunPhaseView::NextSteering { more: true })
            &&& ask == RunActionView::FetchSteering
            &&& on.events == events
            &&& on.agent == w.agent
            &&& on.run.new_messages == w.run.new_messages
            &&& on.run.turn_index == next_count(w.run.turn_index)
            &&& on.run.iterations == w.run.iterations
            &&& keeps_its_settings(w, on)
            &&& turn_has_begun(w, events, next, action, said, now)
            &&& next.run.turn_index == next_count(w.run.turn_index)
            &&& next.run.iterations == w.run.iterations
            &&& next.agent.queue == w.agent.queue
            &&& keeps_its_settings(w, next)
        }),
{
    let told = Seq::new(results.len(), |i: int| MessageView::ToolResult(results[i]));
    assert(results.map_values(|r: ToolResultMessageView| MessageView::ToolResult(r)) =~= told);
}

/// A run that cannot go on ends after a look for what steers it, which joins the history. It says what
/// kept it from going on: in its last response, in the event that ends it, and to whoever started it.
pub proof fn a_run_that_cannot_go_on_says_why(
    w: RunWorld,
    fetched: Seq<MessageView>,
    latency: Option<TurnLatencyBreakdownView>,
    now: i64,
)
    requires
        w.run.wf(),
        match w.run.phase {
            RunPhaseView::FailedSteering(_)
            | RunPhaseView::StoppedSteering
            | RunPhaseView::CapSteering { .. }
            | RunPhaseView::ToolErrorSteering(_) => true,
            _ => false,
        },
    ensures
        ({
            let due = w.agent.drained(QueueKind::Steering, fetched);
            let (next, action) = w.step(RunInputView::Steering(fetched), latency, now);
            let added = next.agent.messages.skip(w.agent.messages.len() as int);
            let turn_end = next.events[next.events.len() - 2];
            let error = match w.run.phase {
                RunPhaseView::FailedSteering(e) => Some(e.text()),
                RunPhaseView::ToolErrorSteering(e) => Some(e.text()),
                RunPhaseView::CapSteering { error, .. } => Some(error),
                _ => w.run.last_assistant->Some_0.error_message,
            };
            let last = match w.run.phase {
                RunPhaseView::FailedSteering(_) => next.agent.messages.last()->Assistant_0,
                RunPhaseView::CapSteering { stop, .. } => stop,
                _ => w.run.last_assistant->Some_0,
            };
            &&& next.run.phase == RunPhaseView::Done
            &&& next.run.new_messages.len() == 0
            &&& next.agent.queue == w.agent.after_drain(QueueKind::Steering, fetched).queue
            &&& next.agent.messages == w.agent.messages + added
            &&& added.take(due.len() as int) == due
            &&& !(w.run.phase is FailedSteering) ==> added == due
            &&& w.run.phase matches RunPhaseView::FailedSteering(e) ==> {
                &&& added == due.push(MessageView::Assistant(last))
                &&& last.stop_reason == StopReason::Error
                &&& last.error_message == Some(e.text())
                &&& last.content.len() == 0
                &&& last.model == w.agent.provider.model_id
                &&& last.provider == w.agent.provider.name
                &&& last.timestamp == now
            }
            &&& action == match w.run.phase {
                RunPhaseView::FailedSteering(e) => RunActionView::Failed(e),
                RunPhaseView::ToolErrorSteering(e) => RunActionView::Failed(e),
                _ => RunActionView::Finished(last),
            }
            &&& next.events.last() == (AgentEventView::AgentEnd {
                session_id: w.run.session_id,
                messages: w.run.new_messages + added,
                error,
            })
            &&& turn_end == (AgentEventView::TurnEnd {
                session_id: w.run.session_id,
                turn_index: w.run.turn_index,
                message: MessageView::Assistant(last),
                tool_results: Seq::empty(),
                latency_breakdown: latency,
            })
            &&& next.events.drop_last().drop_last() == w.events + announcements(due) + announcements(
                added.skip(due.len() as int),
            )
        }),
{
    let due = w.agent.drained(QueueKind::Steering, fetched);
    let (next, action) = w.step(RunInputView::Steering(fetched), latency, now);
    let added = next.agent.messages.skip(w.agent.messages.len() as int);
    let none = Seq::<ToolResultMessageView>::empty();
    assert(none.map_values(|r: ToolResultMessageView| MessageView::ToolResult(r)) =~= Seq::empty());
    if let RunPhaseView::FailedSteering(e) = w.run.phase {
        let message = next.agent.messages.last();
        assert(added =~= due.push(message));
        assert(added.skip(due.len() as int) =~= seq![message]);
        assert(w.run.new_messages + added =~= w.run.new_messages + due + seq![message]);
        assert(next.events.drop_last().drop_last() =~= w.events + announcements(due)
            + announcements(seq![message]));
    } else {
        assert(added =~= due);
        assert(added.skip(due.len() as int) =~= Seq::empty());
        assert(announcements(Seq::empty()) =~= Seq::empty());
        assert(next.events.drop_last().drop_last() =~= w.events + announcements(due)
            + announcements(Seq::empty()));
    }
    assert(added.take(due.len() as int) =~= due);
    assert(next.agent.messages =~= w.agent.messages + added);
}

/// A response that does not come, and tools that cannot be executed, do not end the run before a look for
/// what steers it; the failure is kept.
pub proof fn failures_wait_for_steering(
    w: RunWorld,
    e: ErrorView,
    latency: Option<TurnLatencyBreakdownView>,
    now: i64,
)
    ensures
        w.run.phase == RunPhaseView::Assistant ==> {
            let (next, action) = w.step(RunInputView::NoResponse(e), latency, now);
            &&& next.run.phase == RunPhaseView::FailedSteering(e)
            &&& action == RunActionView::FetchSteering
            &&& next.agent == w.agent
            &&& next.events == w.events
            &&& next.run.new_messages == w.run.new_messages
            &&& next.run.turn_index == w.run.turn_index
            &&& keeps_its_settings(w, next)
        },
        w.run.phase == RunPhaseView::Tools ==> {
            let (next, action) = w.step(RunInputView::NoToolResults(e), latency, now);
            &&& next.run.phase == RunPhaseView::ToolErrorSteering(e)
            &&& action == RunActionView::FetchSteering
            &&& next.agent == w.agent
            &&& next.events == w.events
            &&& next.run.new_messages == w.run.new_messages
            &&& next.run.turn_index == w.run.turn_index
            &&& next.run.last_assistant == w.run.last_assistant
            &&& keeps_its_settings(w, next)
        },
{
}

/// No step of a run loses a message: what a queue held, followed by what was fetched for it, is what joined
/// the history, followed by what the queue holds then, but for what it had no room for.
pub proof fn a_run_loses_no_message(
    w: RunWorld,
    kind: QueueKind,
    fetched: Seq<MessageView>,
    latency: Option<TurnLatencyBreakdownView>,
    now: i64,
)
    requires
        w.run.wf(),
        w.agent.queue.wf(),
        w.run.pending.len() == 0,
        awaits(
            w.run.phase,
            match kind {
                QueueKind::Steering => RunInputView::Steering(fetched),
                QueueKind::FollowUp => RunInputView::FollowUp(fetched),
            },
        ),
    ensures
        ({
            let input = match kind {
                QueueKind::Steering => RunInputView::Steering(fetched),
                QueueKind::FollowUp => RunInputView::FollowUp(fetched),
            };
            let next = w.step(input, latency, now).0;
            let added = next.agent.messages.skip(w.agent.messages.len() as int);
            let joined = if w.run.phase is FailedSteering {
                added.drop_last()
            } else {
                added
            };
            &&& next.agent.messages == w.agent.messages + added
            &&& joined + contents(next.agent.queue, kind) == latest(
                contents(w.agent.queue, kind) + fetched,
                MessageQueueView::capacity(kind),
            )
            &&& next.run.pending.len() == 0
        }),
{
    let due = w.agent.drained(kind, fetched);
    draining_loses_no_message(w.agent, kind, fetched);
    match kind {
        QueueKind::FollowUp => follow_ups_start_another_turn(w, fetched, latency, now),
        QueueKind::Steering => match w.run.phase {
            RunPhaseView::InitialSteering => first_turn_takes_what_waits(w, fetched, latency, now),
            RunPhaseView::NextSteering { more } => {
                steering_starts_another_turn(w, fetched, more, latency, now);
            },
            _ => a_run_that_cannot_go_on_says_why(w, fetched, latency, now),
        },
    }
    let input = match kind {
        QueueKind::Steering => RunInputView::Steering(fetched),
        QueueKind::FollowUp => RunInputView::FollowUp(fetched),
    };
    let next = w.step(input, latency, now).0;
    let added = next.agent.messages.skip(w.agent.messages.len() as int);
    if w.run.phase is FailedSteering {
        assert(added.drop_last() =~= due);
    } else if due.len() == 0 {
        assert(due =~= Seq::empty());
        assert(added =~= due);
    } else {
        assert(added =~= due);
    }
    assert(next.agent.messages =~= w.agent.messages + added);
}

} // verus!
