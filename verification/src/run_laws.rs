//! What holds of every run, whatever the model, the tools and the queues bring.
use vstd::prelude::*;

use crate::agent::{AgentView, ProviderIdentityView};
use crate::event::AgentEventView;
use crate::latency::TurnLatencyBreakdownView;
use crate::model::{AssistantMessageView, MessageView};
use crate::queue::QueueKind;
use crate::run::{
    announcements, awaits, run_started, successor, RunInputView, RunPhaseView, RunView, RunWorld,
};
use crate::stream::{
    lemma_last_assistant, stream_effect, stream_run, stream_announces_one_message, StreamInputView,
    StreamProgressView, StreamState,
};
use crate::tool_run::{results_match, tool_step_keeps_results_in_order, ToolInputView, ToolWorld};

verus! {

/// Where the lifecycle events that were emitted so far have led.
pub enum Lifecycle {
    /// No run has started.
    Before,
    /// A run is between turns; the next turn has this number.
    Between(usize),
    /// A run is in the turn with this number.
    InTurn(usize),
    /// The run is over.
    After,
    /// The events make no sense.
    Broken,
}

/// Where one more event leads.
pub open spec fn follows(state: Lifecycle, event: AgentEventView) -> Lifecycle {
    match event {
        AgentEventView::AgentStart { .. } => match state {
            Lifecycle::Before => Lifecycle::Between(0),
            _ => Lifecycle::Broken,
        },
        AgentEventView::TurnStart { turn_index, .. } => match state {
            Lifecycle::Between(n) => if n == turn_index {
                Lifecycle::InTurn(n)
            } else {
                Lifecycle::Broken
            },
            _ => Lifecycle::Broken,
        },
        AgentEventView::TurnEnd { turn_index, .. } => match state {
            Lifecycle::InTurn(n) => if n == turn_index {
                Lifecycle::Between(successor(n))
            } else {
                Lifecycle::Broken
            },
            _ => Lifecycle::Broken,
        },
        AgentEventView::AgentEnd { .. } => match state {
            Lifecycle::Between(_) => Lifecycle::After,
            _ => Lifecycle::Broken,
        },
        _ => state,
    }
}

/// Where a sequence of events leads.
pub open spec fn lifecycle(events: Seq<AgentEventView>) -> Lifecycle
    decreases events.len(),
{
    if events.len() == 0 {
        Lifecycle::Before
    } else {
        follows(lifecycle(events.drop_last()), events.last())
    }
}

/// Where the phase of a run says that its lifecycle is.
pub open spec fn lifecycle_of(run: RunView) -> Lifecycle {
    match run.phase {
        RunPhaseView::InitialSteering
        | RunPhaseView::NextSteering { .. }
        | RunPhaseView::FollowUp => Lifecycle::Between(run.turn_index),
        RunPhaseView::Done => Lifecycle::After,
        _ => Lifecycle::InTurn(run.turn_index),
    }
}

proof fn lemma_push(events: Seq<AgentEventView>, event: AgentEventView)
    ensures
        lifecycle(events.push(event)) == follows(lifecycle(events), event),
{
    assert(events.push(event).drop_last() =~= events);
}

/// Events that extensions are not told of do not move the lifecycle.
pub proof fn other_events_keep_lifecycle(
    events: Seq<AgentEventView>,
    more: Seq<AgentEventView>,
)
    requires
        forall|i: int| 0 <= i < more.len() ==> (#[trigger] more[i]).lifecycle() is None,
    ensures
        lifecycle(events + more) == lifecycle(events),
    decreases more.len(),
{
    if more.len() == 0 {
        assert(events + more =~= events);
    } else {
        let fewer = more.drop_last();
        assert forall|i: int| 0 <= i < fewer.len() implies (#[trigger] fewer[i]).lifecycle() is None by {
            assert(fewer[i] == more[i]);
        }
        other_events_keep_lifecycle(events, fewer);
        assert(events + more =~= (events + fewer).push(more.last()));
        lemma_push(events + fewer, more.last());
        assert(more[more.len() - 1].lifecycle() is None);
    }
}

proof fn lemma_announcements_quiet(messages: Seq<MessageView>)
    ensures
        forall|i: int|
            0 <= i < announcements(messages).len() ==> (#[trigger] announcements(
                messages,
            )[i]).lifecycle() is None,
    decreases messages.len(),
{
    if messages.len() > 0 {
        lemma_announcements_quiet(messages.drop_last());
        let rest = announcements(messages.drop_last());
        let all = announcements(messages);
        assert forall|i: int| 0 <= i < all.len() implies (#[trigger] all[i]).lifecycle() is None by {
            if i < rest.len() {
                assert(all[i] == rest[i]);
            }
        }
    }
}

proof fn lemma_delivered(w: RunWorld, messages: Seq<MessageView>)
    ensures
        lifecycle(w.delivered(messages).events) == lifecycle(w.events),
{
    lemma_announcements_quiet(messages);
    other_events_keep_lifecycle(w.events, announcements(messages));
}

proof fn lemma_turn_begun(w: RunWorld, now: i64)
    requires
        lifecycle(w.events) == Lifecycle::Between(w.run.turn_index),
    ensures
        lifecycle(w.turn_begun(now).0.events) == lifecycle_of(w.turn_begun(now).0.run),
{
    let start = AgentEventView::TurnStart {
        session_id: w.run.session_id,
        turn_index: w.run.turn_index,
        timestamp: now,
    };
    lemma_push(w.events, start);
    lemma_delivered(w.with_event(start), w.run.pending);
}

proof fn lemma_closed(
    w: RunWorld,
    message: AssistantMessageView,
    latency: Option<TurnLatencyBreakdownView>,
    error: Option<Seq<char>>,
)
    requires
        lifecycle(w.events) == Lifecycle::InTurn(w.run.turn_index),
    ensures
        lifecycle(w.closed(message, latency, error).events) == Lifecycle::After,
        w.closed(message, latency, error).run.phase == RunPhaseView::Done,
{
    let end = w.turn_end(message, Seq::empty(), latency);
    let told = w.with_event(end);
    lemma_push(w.events, end);
    lemma_push(
        told.events,
        AgentEventView::AgentEnd {
            session_id: told.run.session_id,
            messages: told.run.new_messages,
            error,
        },
    );
}

/// A new run has announced its start and is between turns.
pub proof fn run_starts_between_turns(agent: AgentView, prompts: Seq<MessageView>)
    ensures
        ({
            let w = run_started(agent, Seq::empty(), prompts);
            lifecycle(w.events) == lifecycle_of(w.run)
        }),
{
    let session_id = match agent.config.stream_options.session_id {
        Some(id) => id,
        None => Seq::empty(),
    };
    let none = Seq::<AgentEventView>::empty();
    let start = AgentEventView::AgentStart { session_id };
    lemma_push(none, start);
    lemma_announcements_quiet(prompts);
    other_events_keep_lifecycle(none.push(start), announcements(prompts));
}

/// Lifecycle events are well nested in every run: turns are numbered from zero, each starts and ends
/// once with its number, and the run ends once, after its last turn.
pub proof fn run_step_nests_turns(
    w: RunWorld,
    input: RunInputView,
    latency: Option<TurnLatencyBreakdownView>,
    now: i64,
)
    requires
        lifecycle(w.events) == lifecycle_of(w.run),
        awaits(w.run.phase, input),
    ensures
        ({
            let next = w.step(input, latency, now);
            &&& lifecycle(next.0.events) == lifecycle_of(next.0.run)
            &&& (next.1 is Finished || next.1 is Failed) <==> next.0.run.phase == RunPhaseView::Done
        }),
{
    match (w.run.phase, input) {
        (RunPhaseView::InitialSteering, RunInputView::Steering(fetched)) => {
            lemma_turn_begun(w.after_delivery(QueueKind::Steering, fetched), now);
        },
        (RunPhaseView::TurnAbort, RunInputView::Abort(aborted)) => {
            let m = crate::agent::abort_message(w.agent.provider, None, now);
            let one = seq![MessageView::Assistant(m)];
            lemma_delivered(w, one);
            lemma_closed(w.delivered(one), m, latency, Some("Aborted"@));
        },
        (RunPhaseView::Assistant, RunInputView::Response(m)) => {
            let none = Seq::<crate::model::ToolResultMessageView>::empty();
            lemma_push(w.events, w.turn_end(m, none, latency));
        },
        (RunPhaseView::FailedSteering(e), RunInputView::Steering(fetched)) => {
            let m = crate::agent::error_message(w.agent.provider, None, e.text(), now);
            let one = seq![MessageView::Assistant(m)];
            lemma_steered(w, fetched);
            lemma_delivered(w.steered(fetched), one);
            lemma_closed(w.steered(fetched).delivered(one), m, latency, Some(e.text()));
        },
        (RunPhaseView::StoppedSteering, RunInputView::Steering(fetched)) => {
            let m = w.run.last_assistant->Some_0;
            lemma_steered(w, fetched);
            lemma_closed(w.steered(fetched), m, latency, m.error_message);
        },
        (RunPhaseView::CapSteering { stop, error }, RunInputView::Steering(fetched)) => {
            lemma_steered(w, fetched);
            lemma_closed(w.steered(fetched), stop, latency, Some(error));
        },
        (RunPhaseView::ToolErrorSteering(e), RunInputView::Steering(fetched)) => {
            lemma_steered(w, fetched);
            lemma_closed(
                w.steered(fetched),
                w.run.last_assistant->Some_0,
                latency,
                Some(e.text()),
            );
        },
        (RunPhaseView::Tools, RunInputView::ToolResults { results, steering }) => {
            let m = w.run.last_assistant->Some_0;
            lemma_push(w.events, w.turn_end(m, results, latency));
            let next = w.turned(m, results, latency);
            if let Some(messages) = steering {
                lemma_turn_begun(next.with_pending(messages), now);
            }
        },
        (RunPhaseView::NextSteering { more }, RunInputView::Steering(fetched)) => {
            lemma_turn_begun(w.after_delivery(QueueKind::Steering, fetched), now);
        },
        (RunPhaseView::FollowUp, RunInputView::FollowUp(fetched)) => {
            let next = w.after_delivery(QueueKind::FollowUp, fetched);
            lemma_turn_begun(next, now);
            lemma_push(
                next.events,
                AgentEventView::AgentEnd {
                    session_id: next.run.session_id,
                    messages: next.run.new_messages,
                    error: None,
                },
            );
        },
        _ => {},
    }
}

proof fn lemma_steered(w: RunWorld, fetched: Seq<MessageView>)
    ensures
        lifecycle(w.steered(fetched).events) == lifecycle(w.events),
{
    let taken = RunWorld { agent: w.agent.after_drain(QueueKind::Steering, fetched), ..w };
    lemma_delivered(taken, w.agent.drained(QueueKind::Steering, fetched));
}

/// Streaming a response does not move the lifecycle.
pub proof fn streaming_keeps_lifecycle(
    events: Seq<AgentEventView>,
    provider: ProviderIdentityView,
    state: StreamState,
    messages: Seq<MessageView>,
    input: StreamInputView,
    now: i64,
)
    ensures
        lifecycle(events + stream_effect(provider, state, messages, input, now).events)
            == lifecycle(events),
{
    let more = stream_effect(provider, state, messages, input, now).events;
    assert forall|i: int| 0 <= i < more.len() implies (#[trigger] more[i]).lifecycle() is None by {}
    other_events_keep_lifecycle(events, more);
}

/// Whether the history of the agent is what it was before the run, followed by the new messages of
/// the run.
pub open spec fn aligned(history: Seq<MessageView>, w: RunWorld) -> bool {
    w.agent.messages == history + w.run.new_messages
}

/// A new run is aligned with the history that it found.
pub proof fn run_starts_aligned(agent: AgentView, events: Seq<AgentEventView>, prompts: Seq<MessageView>)
    ensures
        aligned(agent.messages, run_started(agent, events, prompts)),
{
    assert(Seq::<MessageView>::empty() + prompts =~= prompts);
}

proof fn lemma_delivered_aligned(history: Seq<MessageView>, w: RunWorld, messages: Seq<MessageView>)
    requires
        aligned(history, w),
    ensures
        aligned(history, w.delivered(messages)),
{
    assert(history + (w.run.new_messages + messages) =~= (history + w.run.new_messages) + messages);
}

proof fn lemma_steered_aligned(history: Seq<MessageView>, w: RunWorld, fetched: Seq<MessageView>)
    requires
        aligned(history, w),
    ensures
        aligned(history, w.steered(fetched)),
{
    let taken = RunWorld { agent: w.agent.after_drain(QueueKind::Steering, fetched), ..w };
    lemma_delivered_aligned(history, taken, w.agent.drained(QueueKind::Steering, fetched));
}

proof fn lemma_turn_begun_aligned(history: Seq<MessageView>, w: RunWorld, now: i64)
    requires
        aligned(history, w),
    ensures
        aligned(history, w.turn_begun(now).0),
{
    let start = AgentEventView::TurnStart {
        session_id: w.run.session_id,
        turn_index: w.run.turn_index,
        timestamp: now,
    };
    lemma_delivered_aligned(history, w.with_event(start), w.run.pending);
}

/// The transcript and the events agree: as long as the run goes on, the history is what it was
/// before the run followed by the new messages, and the event that ends the run hands over exactly
/// the messages that the run added. A response counts as new from when it is complete, which is when
/// the history already holds it.
pub proof fn run_step_keeps_transcript(
    history: Seq<MessageView>,
    w: RunWorld,
    input: RunInputView,
    latency: Option<TurnLatencyBreakdownView>,
    now: i64,
)
    requires
        awaits(w.run.phase, input),
        match input {
            RunInputView::Response(m) => w.agent.messages == history + w.run.new_messages.push(
                MessageView::Assistant(m),
            ),
            _ => aligned(history, w),
        },
    ensures
        ({
            let next = w.step(input, latency, now).0;
            match next.run.phase {
                RunPhaseView::Done => match next.events.last() {
                    AgentEventView::AgentEnd { messages, .. } => next.agent.messages == history
                        + messages,
                    _ => false,
                },
                _ => aligned(history, next),
            }
        }),
{
    match (w.run.phase, input) {
        (RunPhaseView::InitialSteering, RunInputView::Steering(fetched)) => {
            lemma_turn_begun_aligned(
                history,
                w.after_delivery(QueueKind::Steering, fetched),
                now,
            );
        },
        (RunPhaseView::TurnAbort, RunInputView::Abort(aborted)) => {
            let m = crate::agent::abort_message(w.agent.provider, None, now);
            lemma_delivered_aligned(history, w, seq![MessageView::Assistant(m)]);
        },
        (RunPhaseView::Assistant, RunInputView::Response(m)) => {
            lemma_response_aligned(history, w, m, latency, now);
        },
        (RunPhaseView::FailedSteering(e), RunInputView::Steering(fetched)) => {
            let m = crate::agent::error_message(w.agent.provider, None, e.text(), now);
            lemma_steered_aligned(history, w, fetched);
            lemma_delivered_aligned(
                history,
                w.steered(fetched),
                seq![MessageView::Assistant(m)],
            );
        },
        (RunPhaseView::StoppedSteering, RunInputView::Steering(fetched)) => {
            lemma_steered_aligned(history, w, fetched);
        },
        (RunPhaseView::CapSteering { stop, error }, RunInputView::Steering(fetched)) => {
            lemma_steered_aligned(history, w, fetched);
        },
        (RunPhaseView::ToolErrorSteering(e), RunInputView::Steering(fetched)) => {
            lemma_steered_aligned(history, w, fetched);
        },
        (RunPhaseView::Tools, RunInputView::ToolResults { results, steering }) => {
            let next = w.turned(w.run.last_assistant->Some_0, results, latency);
            if let Some(messages) = steering {
                lemma_turn_begun_aligned(history, next.with_pending(messages), now);
            }
        },
        (RunPhaseView::NextSteering { more }, RunInputView::Steering(fetched)) => {
            lemma_turn_begun_aligned(
                history,
                w.after_delivery(QueueKind::Steering, fetched),
                now,
            );
        },
        (RunPhaseView::FollowUp, RunInputView::FollowUp(fetched)) => {
            lemma_turn_begun_aligned(
                history,
                w.after_delivery(QueueKind::FollowUp, fetched),
                now,
            );
        },
        _ => {},
    }
}

proof fn lemma_response_aligned(
    history: Seq<MessageView>,
    w: RunWorld,
    m: AssistantMessageView,
    latency: Option<TurnLatencyBreakdownView>,
    now: i64,
)
    requires
        w.agent.messages == history + w.run.new_messages.push(MessageView::Assistant(m)),
    ensures
        aligned(history, w.responded(m, latency, now).0),
        w.responded(m, latency, now).0.run.phase != RunPhaseView::Done,
{
    let messages = w.agent.messages;
    let next = w.responded(m, latency, now).0;
    if let RunPhaseView::CapSteering { stop, error } = next.run.phase {
        lemma_last_assistant(messages);
        assert(messages.last() == MessageView::Assistant(m));
        assert(w.run.new_messages.push(MessageView::Assistant(m)).drop_last()
            =~= w.run.new_messages);
        assert(next.agent.messages =~= history + next.run.new_messages);
    }
}

/// A streamed response hands the run what the law of the transcript asks for: a complete response is
/// the one message that the history gained, and where there is no response the history is unchanged.
pub proof fn streamed_response_is_aligned(
    history: Seq<MessageView>,
    w: RunWorld,
    inputs: Seq<(StreamInputView, i64)>,
)
    requires
        aligned(history, w),
    ensures
        ({
            let end = stream_run(
                w.agent.provider,
                StreamState { added_partial: false, sent_start: false },
                w.agent.messages,
                inputs,
            );
            match end.progress {
                StreamProgressView::Done(m) => end.messages == history + w.run.new_messages.push(
                    MessageView::Assistant(m),
                ),
                StreamProgressView::Failed(_) => end.messages == history + w.run.new_messages,
                StreamProgressView::Continue => true,
            }
        }),
{
    let state = StreamState { added_partial: false, sent_start: false };
    stream_announces_one_message(
        w.agent.provider,
        w.agent.messages,
        state,
        w.agent.messages,
        inputs,
    );
    let end = stream_run(w.agent.provider, state, w.agent.messages, inputs);
    if let StreamProgressView::Done(m) = end.progress {
        assert((history + w.run.new_messages).push(MessageView::Assistant(m)) =~= history
            + w.run.new_messages.push(MessageView::Assistant(m)));
    }
}

/// Tool calls keep a run aligned with its history.
pub proof fn tool_calls_keep_transcript(
    history: Seq<MessageView>,
    before: ToolWorld,
    input: ToolInputView,
    now: i64,
)
    requires
        before.run.wf(),
        results_match(before.run),
        before.agent.messages == history + before.new_messages,
    ensures
        ({
            let after = before.step(input, now).0;
            after.agent.messages == history + after.new_messages
        }),
{
    tool_step_keeps_results_in_order(before, input, now);
    let after = before.step(input, now).0;
    let added = after.new_messages.skip(before.new_messages.len() as int);
    assert(history + (before.new_messages + added) =~= (history + before.new_messages) + added);
}

/// Tool calls do not move the lifecycle.
pub proof fn tool_calls_keep_lifecycle(before: ToolWorld, input: ToolInputView, now: i64)
    requires
        before.run.wf(),
        results_match(before.run),
    ensures
        lifecycle(before.step(input, now).0.events) == lifecycle(before.events),
{
    tool_step_keeps_results_in_order(before, input, now);
    let after = before.step(input, now).0;
    let n = before.events.len() as int;
    let more = after.events.skip(n);
    assert forall|i: int| 0 <= i < more.len() implies (#[trigger] more[i]).lifecycle() is None by {
        assert(more[i] == after.events[n + i]);
    }
    assert(after.events =~= after.events.take(n) + more);
    other_events_keep_lifecycle(before.events, more);
}

/// No run executes more rounds of tool calls than its cap: each round counts, and one that would pass
/// the cap ends the run instead, without its tool calls.
pub proof fn tool_rounds_are_capped(
    w: RunWorld,
    input: RunInputView,
    latency: Option<TurnLatencyBreakdownView>,
    now: i64,
)
    requires
        awaits(w.run.phase, input),
        w.run.iterations <= w.run.max_iterations < usize::MAX,
    ensures
        ({
            let next = w.step(input, latency, now);
            &&& next.0.run.max_iterations == w.run.max_iterations
            &&& next.1 is ExecuteTools ==> next.0.run.iterations == w.run.iterations + 1
                && next.0.run.iterations <= next.0.run.max_iterations
            &&& next.0.run.iterations <= w.run.max_iterations || next.0.run.phase is CapSteering
            &&& next.0.run.phase matches RunPhaseView::CapSteering { stop, .. } ==> next.0.run.iterations
                == w.run.max_iterations + 1 && crate::content::tool_calls_of(stop.content).len() == 0
        }),
{
    if let RunInputView::Response(m) = input {
        crate::content::no_tool_call_is_left(m.content);
    }
}

/// The hand-off warning is queued at most once in a run: when it is due for the first time.
pub proof fn handoff_warning_is_given_once(
    w: RunWorld,
    m: AssistantMessageView,
    latency: Option<TurnLatencyBreakdownView>,
    now: i64,
)
    requires
        w.run.phase == RunPhaseView::Assistant,
    ensures
        ({
            let next = w.step(RunInputView::Response(m), latency, now).0;
            &&& w.run.warned ==> next.run.warned && next.agent.queue == w.agent.queue
            &&& next.agent.queue != w.agent.queue ==> next.run.warned
                && crate::limits::warning_due(next.run.iterations, w.run.max_iterations)
        }),
{
}

/// Whatever ends a run, the steering messages that are due by then join the history: none is lost.
pub proof fn ending_delivers_steering(
    w: RunWorld,
    fetched: Seq<MessageView>,
    latency: Option<TurnLatencyBreakdownView>,
    now: i64,
)
    requires
        match w.run.phase {
            RunPhaseView::FailedSteering(_)
            | RunPhaseView::StoppedSteering
            | RunPhaseView::CapSteering { .. }
            | RunPhaseView::ToolErrorSteering(_) => true,
            _ => false,
        },
    ensures
        ({
            let next = w.step(RunInputView::Steering(fetched), latency, now).0;
            let due = w.agent.drained(QueueKind::Steering, fetched);
            let at = w.agent.messages.len() as int;
            &&& next.run.phase == RunPhaseView::Done
            &&& next.agent.messages.len() >= at + due.len()
            &&& next.agent.messages.subrange(at, at + due.len()) == due
        }),
{
    let next = w.step(RunInputView::Steering(fetched), latency, now).0;
    let due = w.agent.drained(QueueKind::Steering, fetched);
    let at = w.agent.messages.len() as int;
    assert(next.agent.messages.subrange(at, at + due.len()) =~= due);
}

} // verus!
