//! What holds of the tool calls of every response, whatever the tools and the user do.
use vstd::prelude::*;

use crate::agent::AgentView;
use crate::effects::{is_batch_plan, ToolEffectBatch, ToolEffects};
use crate::event::AgentEventView;
use crate::model::{error_output, MessageView, ToolCallView, ToolOutputView, ToolResultMessageView};
use crate::tool_run::{
    distinct_calls, grows_alike, is_fair, is_reported, lemma_count_all, lemma_grows_refl,
    lemma_grows_trans, lemma_recorded_for_one, lemma_recorded_upto_frame, lemma_step_keeps_calls,
    reported_count, reports_each_call_once, result_events, results_match, start_events,
    tool_step_keeps_results_in_order, tool_step_reports_each_call_once, tools_started,
    FinishedCallView, ToolInputView, ToolPhase, ToolRunView, ToolWorld,
};

verus! {

/// Whether an event says that the call with an id is over.
pub open spec fn is_end_of(event: AgentEventView, id: Seq<char>) -> bool {
    match event {
        AgentEventView::ToolExecutionEnd { tool_call_id, .. } => tool_call_id == id,
        _ => false,
    }
}

/// How many events say that a call with an id is over.
pub open spec fn end_count(events: Seq<AgentEventView>, id: Seq<char>) -> nat
    decreases events.len(),
{
    if events.len() == 0 {
        0
    } else {
        end_count(events.drop_last(), id) + if is_end_of(events.last(), id) {
            1nat
        } else {
            0nat
        }
    }
}

/// How many of the first `n` calls have an id.
pub open spec fn call_count(calls: Seq<ToolCallView>, id: Seq<char>, n: nat) -> nat
    decreases n,
{
    if n == 0 {
        0
    } else {
        call_count(calls, id, (n - 1) as nat) + if calls[n - 1].id == id {
            1nat
        } else {
            0nat
        }
    }
}

/// Of how many of the first `n` calls that have an id something is reported.
pub open spec fn ended_count(run: ToolRunView, id: Seq<char>, n: nat) -> nat
    decreases n,
{
    if n == 0 {
        0
    } else {
        ended_count(run, id, (n - 1) as nat) + if is_reported(run, n - 1) && run.calls[n - 1].id
            == id {
            1nat
        } else {
            0nat
        }
    }
}

/// What the events after the first `base` say of tool calls: behind the announcements there are no
/// others, and as many calls with an id are said to be over as are reported.
pub open spec fn ends_told(base: nat, id: Seq<char>, w: ToolWorld) -> bool {
    let announced = base + w.run.calls.len();
    &&& announced <= w.events.len()
    &&& forall|i: int|
        announced <= i < w.events.len() ==> !((#[trigger] w.events[i]) is ToolExecutionStart)
    &&& end_count(w.events.skip(base as int), id) == ended_count(w.run, id, w.run.calls.len())
}

/// Where tool calls are after a number of inputs, each with its time.
pub open spec fn tools_after(w: ToolWorld, inputs: Seq<(ToolInputView, i64)>) -> ToolWorld
    decreases inputs.len(),
{
    if inputs.len() == 0 {
        w
    } else {
        tools_after(w, inputs.drop_last()).step(inputs.last().0, inputs.last().1).0
    }
}

/// Whether every batch of tool calls hands back calls of that batch only, each at most once.
pub open spec fn all_fair(w: ToolWorld, inputs: Seq<(ToolInputView, i64)>) -> bool
    decreases inputs.len(),
{
    inputs.len() > 0 ==> {
        &&& all_fair(w, inputs.drop_last())
        &&& is_fair(tools_after(w, inputs.drop_last()).run, inputs.last().0)
    }
}

proof fn lemma_end_count_concat(a: Seq<AgentEventView>, b: Seq<AgentEventView>, id: Seq<char>)
    ensures
        end_count(a + b, id) == end_count(a, id) + end_count(b, id),
    decreases b.len(),
{
    if b.len() == 0 {
        assert(a + b =~= a);
    } else {
        lemma_end_count_concat(a, b.drop_last(), id);
        assert((a + b).drop_last() =~= a + b.drop_last());
        assert((a + b).last() == b.last());
    }
}

/// Announcements say of no call that it is over.
proof fn lemma_starts_end_nothing(calls: Seq<ToolCallView>, id: Seq<char>)
    ensures
        end_count(start_events(calls), id) == 0,
    decreases calls.len(),
{
    if calls.len() > 0 {
        lemma_starts_end_nothing(calls.drop_last(), id);
        assert(start_events(calls).drop_last() =~= start_events(calls.drop_last()));
    }
}

/// The report of a call says once that it is over.
proof fn lemma_report_ends_one(
    events: Seq<AgentEventView>,
    base: nat,
    id: Seq<char>,
    call: ToolCallView,
    output: ToolOutputView,
    is_error: bool,
    now: i64,
)
    requires
        base <= events.len(),
    ensures
        end_count((events + result_events(call, output, is_error, now)).skip(base as int), id)
            == end_count(events.skip(base as int), id) + if call.id == id {
            1nat
        } else {
            0nat
        },
{
    let report = result_events(call, output, is_error, now);
    assert((events + report).skip(base as int) =~= events.skip(base as int) + report);
    lemma_end_count_concat(events.skip(base as int), report, id);
    let three = report.drop_last();
    let two = three.drop_last();
    let one = two.drop_last();
    assert(three.last() == report[2]);
    assert(two.last() == report[1]);
    assert(one.last() == report[0]);
    assert(end_count(one.drop_last(), id) == 0);
    assert(end_count(one, id) == 0);
    assert(end_count(two, id) == if call.id == id {
        1nat
    } else {
        0nat
    });
    assert(end_count(three, id) == end_count(two, id));
}

proof fn lemma_ended_one_more(a: ToolRunView, b: ToolRunView, i: int, id: Seq<char>, n: nat)
    requires
        a.calls == b.calls,
        !is_reported(a, i),
        is_reported(b, i),
        forall|j: int| 0 <= j < n && j != i ==> is_reported(a, j) == #[trigger] is_reported(b, j),
        0 <= i,
    ensures
        ended_count(b, id, n) == ended_count(a, id, n) + if i < n && a.calls[i].id == id {
            1nat
        } else {
            0nat
        },
    decreases n,
{
    if n > 0 {
        lemma_ended_one_more(a, b, i, id, (n - 1) as nat);
        assert(n - 1 != i ==> is_reported(a, n - 1) == is_reported(b, n - 1));
    }
}

proof fn lemma_ended_same(a: ToolRunView, b: ToolRunView, id: Seq<char>, n: nat)
    requires
        a.calls == b.calls,
        forall|j: int| 0 <= j < n ==> is_reported(a, j) == #[trigger] is_reported(b, j),
    ensures
        ended_count(b, id, n) == ended_count(a, id, n),
    decreases n,
{
    if n > 0 {
        lemma_ended_same(a, b, id, (n - 1) as nat);
        assert(is_reported(a, n - 1) == is_reported(b, n - 1));
    }
}

proof fn lemma_ended_all(run: ToolRunView, id: Seq<char>, n: nat)
    requires
        n <= run.results.len(),
    ensures
        ended_count(run, id, n) == call_count(run.calls, id, n),
    decreases n,
{
    if n > 0 {
        lemma_ended_all(run, id, (n - 1) as nat);
        assert(is_reported(run, n - 1));
    }
}

proof fn lemma_ended_none(run: ToolRunView, id: Seq<char>, n: nat)
    requires
        run.results.len() == 0,
        forall|i: int| 0 <= i < n ==> (#[trigger] run.recorded[i]) is None,
    ensures
        ended_count(run, id, n) == 0,
        reported_count(run, n) == 0,
    decreases n,
{
    if n > 0 {
        lemma_ended_none(run, id, (n - 1) as nat);
        assert(run.recorded[n - 1] is None);
    }
}

proof fn lemma_settled_ends(base: nat, id: Seq<char>, w: ToolWorld, now: i64)
    requires
        w.run.recorded.len() == w.run.calls.len(),
        w.run.results.len() < w.run.calls.len(),
        ends_told(base, id, w),
    ensures
        ends_told(base, id, w.settled(now)),
{
    let i = w.run.results.len() as int;
    let after = w.settled(now);
    if w.run.recorded[i] is Some {
        lemma_ended_same(w.run, after.run, id, w.run.calls.len());
    } else {
        let output = error_output(
            if w.run.steering is Some {
                "Skipped due to queued user message."@
            } else {
                "Tool execution aborted"@
            },
        );
        lemma_ended_one_more(w.run, after.run, i, id, w.run.calls.len());
        lemma_report_ends_one(w.events, base, id, w.run.calls[i], output, true, now);
    }
}

proof fn lemma_settling_ends(base: nat, id: Seq<char>, w: ToolWorld, now: i64)
    requires
        w.run.recorded.len() == w.run.calls.len(),
        w.run.results.len() <= w.run.calls.len(),
        ends_told(base, id, w),
    ensures
        ends_told(base, id, w.settling(now).0),
    decreases w.run.calls.len() - w.run.results.len(),
{
    let n = w.run.calls.len();
    if w.run.results.len() >= n {
        lemma_ended_same(w.run, w.in_phase(ToolPhase::Done).run, id, n);
    } else if w.run.steering is None {
        lemma_ended_same(w.run, w.in_phase(ToolPhase::SettleAbort).run, id, n);
    } else {
        lemma_settled_ends(base, id, w, now);
        lemma_settling_ends(base, id, w.settled(now), now);
    }
}

proof fn lemma_recorded_ends(
    base: nat,
    id: Seq<char>,
    w: ToolWorld,
    items: Seq<FinishedCallView>,
    low: int,
    high: int,
    n: nat,
    now: i64,
)
    requires
        w.run.recorded.len() == w.run.calls.len(),
        w.run.results.len() == 0,
        ends_told(base, id, w),
        distinct_calls(items),
        forall|j: int| 0 <= j < items.len() ==> low <= (#[trigger] items[j]).index < high,
        forall|i: int| low <= i < w.run.calls.len() ==> (#[trigger] w.run.recorded[i]) is None,
        n <= w.run.calls.len(),
    ensures
        ({
            let after = w.recorded_upto(items, n, now);
            &&& ends_told(base, id, after)
            &&& forall|i: int|
                #![trigger after.run.recorded[i]]
                n <= i < w.run.calls.len() && i >= low ==> after.run.recorded[i] is None
        }),
    decreases n,
{
    if n > 0 {
        let k = n - 1;
        lemma_recorded_ends(base, id, w, items, low, high, k as nat, now);
        lemma_recorded_upto_frame(w, items, k as nat, now);
        let before = w.recorded_upto(items, k as nat, now);
        let after = w.recorded_upto(items, n, now);
        lemma_recorded_for_one(before, items, k, now);
        if exists|j: int| 0 <= j < items.len() && (#[trigger] items[j]).index == k {
            let j = choose|j: int| 0 <= j < items.len() && (#[trigger] items[j]).index == k;
            assert(after == before.recorded(items[j], now));
            assert(before.run.recorded[k] is None);
            assert(!is_reported(before.run, k));
            assert(is_reported(after.run, k));
            lemma_ended_one_more(before.run, after.run, k, id, w.run.calls.len());
            lemma_report_ends_one(
                before.events,
                base,
                id,
                before.run.calls[k],
                items[j].output,
                items[j].is_error,
                now,
            );
        } else {
            assert(after == before);
        }
    }
}

/// A step says of a call that it is over exactly when it reports it, and announces no call again.
pub proof fn tool_step_tells_each_end(
    base: nat,
    id: Seq<char>,
    base_messages: nat,
    effects: Seq<ToolEffects>,
    w: ToolWorld,
    input: ToolInputView,
    now: i64,
)
    requires
        ends_told(base, id, w),
        reports_each_call_once(base_messages, w),
        is_batch_plan(effects, w.run.batches, w.run.calls.len() as int),
        is_fair(w.run, input),
    ensures
        ends_told(base, id, w.step(input, now).0),
{
    let n = w.run.calls.len();
    match (w.run.phase, input) {
        (ToolPhase::BatchAbort, ToolInputView::Abort(aborted)) => {
            if aborted {
                lemma_settling_ends(base, id, w, now);
            } else {
                lemma_ended_same(w.run, w.step(input, now).0.run, id, n);
            }
        },
        (ToolPhase::BatchSteering, ToolInputView::Steering(fetched)) => {
            let next = w.steered(fetched);
            lemma_ended_same(w.run, next.run, id, n);
            lemma_ended_same(w.run, next.in_phase(ToolPhase::Batch).run, id, n);
            lemma_settling_ends(base, id, next, now);
        },
        (ToolPhase::Batch, ToolInputView::Batch(items)) => {
            let batch = w.run.batches[w.run.next_batch as int];
            lemma_recorded_ends(base, id, w, items, batch.start as int, batch.end as int, n, now);
            lemma_recorded_upto_frame(w, items, n, now);
            let next = w.recorded_upto(items, n, now);
            let after = ToolWorld {
                run: ToolRunView { next_batch: w.run.next_batch + 1, ..next.run },
                ..next
            };
            lemma_ended_same(next.run, after.run, id, n);
            if after.run.next_batch < after.run.batches.len() {
                lemma_ended_same(next.run, after.in_phase(ToolPhase::BatchAbort).run, id, n);
            } else {
                lemma_settling_ends(base, id, after, now);
            }
        },
        (ToolPhase::SettleAbort, ToolInputView::Abort(aborted)) => {
            if aborted {
                lemma_settled_ends(base, id, w, now);
                lemma_settling_ends(base, id, w.settled(now), now);
            } else {
                lemma_ended_same(w.run, w.step(input, now).0.run, id, n);
            }
        },
        (ToolPhase::SettleSteering, ToolInputView::Steering(fetched)) => {
            let next = w.steered(fetched);
            lemma_ended_same(w.run, next.run, id, n);
            lemma_settled_ends(base, id, next, now);
            lemma_settling_ends(base, id, next.settled(now), now);
        },
        _ => {},
    }
}

/// What holds of tool calls from their start on.
proof fn lemma_tools_after(
    calls: Seq<ToolCallView>,
    effects: Seq<ToolEffects>,
    batches: Seq<ToolEffectBatch>,
    agent: AgentView,
    new_messages: Seq<MessageView>,
    events: Seq<AgentEventView>,
    inputs: Seq<(ToolInputView, i64)>,
    id: Seq<char>,
)
    requires
        is_batch_plan(effects, batches, calls.len() as int),
        all_fair(tools_started(calls, batches, agent, new_messages, events).0, inputs),
    ensures
        ({
            let start = tools_started(calls, batches, agent, new_messages, events).0;
            let w = tools_after(start, inputs);
            &&& ends_told(events.len(), id, w)
            &&& reports_each_call_once(new_messages.len(), w)
            &&& results_match(w.run)
            &&& w.run.calls == calls
            &&& w.run.batches == batches
            &&& w.events.len() >= events.len() + calls.len()
            &&& w.events.take((events.len() + calls.len()) as int) == events + start_events(calls)
        }),
    decreases inputs.len(),
{
    let start = tools_started(calls, batches, agent, new_messages, events).0;
    let announced = events + start_events(calls);
    let n = calls.len();
    if inputs.len() == 0 {
        lemma_ended_none(start.run, id, n);
        assert(announced.skip(events.len() as int) =~= start_events(calls));
        assert(announced.take((events.len() + n) as int) =~= announced);
        lemma_starts_end_nothing(calls, id);
    } else {
        lemma_tools_after(
            calls,
            effects,
            batches,
            agent,
            new_messages,
            events,
            inputs.drop_last(),
            id,
        );
        let before = tools_after(start, inputs.drop_last());
        let (input, now) = inputs.last();
        let after = before.step(input, now).0;
        tool_step_tells_each_end(
            events.len(),
            id,
            new_messages.len(),
            effects,
            before,
            input,
            now,
        );
        tool_step_reports_each_call_once(new_messages.len(), effects, before, input, now);
        tool_step_keeps_results_in_order(before, input, now);
        lemma_step_keeps_calls(before, input, now);
        assert(grows_alike(before, after));
        assert(after.events.take((events.len() + n) as int) =~= before.events.take(
            (events.len() + n) as int,
        )) by {
            assert(after.events.take(before.events.len() as int).take((events.len() + n) as int)
                =~= after.events.take((events.len() + n) as int));
        }
    }
}

/// How many calls have an id that no two of them share.
proof fn lemma_call_count_distinct(calls: Seq<ToolCallView>, i: int, n: nat)
    requires
        0 <= i < calls.len(),
        n <= calls.len(),
        forall|j: int, k: int|
            0 <= j < k < calls.len() ==> (#[trigger] calls[j]).id != (#[trigger] calls[k]).id,
    ensures
        call_count(calls, calls[i].id, n) == if i < n {
            1nat
        } else {
            0nat
        },
    decreases n,
{
    if n > 0 {
        lemma_call_count_distinct(calls, i, (n - 1) as nat);
        let last = calls[n - 1];
        assert(n - 1 < i ==> calls[n - 1].id != calls[i].id);
        assert(i < n - 1 ==> calls[i].id != calls[n - 1].id);
    }
}

/// Every call of a response is announced once, in front of everything that is reported of the calls,
/// and, when they are done, was said to be over exactly once: there are as many ends with an id as
/// calls that have it.
pub proof fn each_call_starts_and_ends_once(
    calls: Seq<ToolCallView>,
    effects: Seq<ToolEffects>,
    batches: Seq<ToolEffectBatch>,
    agent: AgentView,
    new_messages: Seq<MessageView>,
    events: Seq<AgentEventView>,
    inputs: Seq<(ToolInputView, i64)>,
)
    requires
        is_batch_plan(effects, batches, calls.len() as int),
        all_fair(tools_started(calls, batches, agent, new_messages, events).0, inputs),
    ensures
        ({
            let start = tools_started(calls, batches, agent, new_messages, events).0;
            let w = tools_after(start, inputs);
            let told = w.events.skip(events.len() as int);
            &&& w.events.take(events.len() as int) == events
            &&& told.len() >= calls.len()
            &&& told.take(calls.len() as int) == start_events(calls)
            &&& forall|i: int|
                calls.len() <= i < told.len() ==> !((#[trigger] told[i]) is ToolExecutionStart)
            &&& w.run.phase == ToolPhase::Done ==> {
                &&& w.run.results.len() == calls.len()
                &&& w.new_messages.len() == new_messages.len() + calls.len()
                &&& forall|id: Seq<char>| #[trigger]
                    end_count(told, id) == call_count(calls, id, calls.len())
                &&& (forall|j: int, k: int|
                    0 <= j < k < calls.len() ==> (#[trigger] calls[j]).id != (
                    #[trigger] calls[k]).id) ==> forall|i: int|
                    0 <= i < calls.len() ==> end_count(told, (#[trigger] calls[i]).id) == 1
            }
        }),
{
    let start = tools_started(calls, batches, agent, new_messages, events).0;
    let w = tools_after(start, inputs);
    let told = w.events.skip(events.len() as int);
    let n = calls.len();
    lemma_tools_after(calls, effects, batches, agent, new_messages, events, inputs, Seq::empty());
    let announced = events + start_events(calls);
    assert(w.events.take((events.len() + n) as int) == announced);
    assert(w.events.take(events.len() as int) =~= announced.take(events.len() as int));
    assert(announced.take(events.len() as int) =~= events);
    assert(told.take(n as int) =~= announced.skip(events.len() as int)) by {
        assert forall|i: int| 0 <= i < n implies told.take(n as int)[i] == announced.skip(
            events.len() as int,
        )[i] by {
            assert(w.events.take((events.len() + n) as int)[events.len() + i] == w.events[
                events.len() + i
            ]);
        }
    }
    assert(announced.skip(events.len() as int) =~= start_events(calls));
    if w.run.phase == ToolPhase::Done {
        lemma_count_all(w.run, n);
        assert forall|id: Seq<char>| #[trigger] end_count(told, id) == call_count(calls, id, n) by {
            lemma_tools_after(calls, effects, batches, agent, new_messages, events, inputs, id);
            lemma_ended_all(w.run, id, n);
        }
        if forall|j: int, k: int|
            0 <= j < k < n ==> (#[trigger] calls[j]).id != (#[trigger] calls[k]).id {
            assert forall|i: int| 0 <= i < n implies end_count(told, (#[trigger] calls[i]).id)
                == 1 by {
                lemma_call_count_distinct(calls, i, n);
            }
        }
    }
}

/// What is known of the result of a call: the result it was settled with, or else what it handed
/// back.
pub open spec fn known_result(run: ToolRunView, i: int) -> Option<ToolResultMessageView> {
    if i < run.results.len() {
        Some(run.results[i])
    } else {
        run.recorded[i]
    }
}

/// Whether the messages after the first `base` are the results of the first calls, in the order of
/// the calls, and no result of a later call is known.
pub open spec fn in_call_order(base: nat, w: ToolWorld) -> bool {
    let added = w.new_messages.skip(base as int);
    &&& base <= w.new_messages.len()
    &&& added.len() <= w.run.calls.len()
    &&& forall|i: int|
        0 <= i < added.len() ==> known_result(w.run, i) is Some && #[trigger] added[i]
            == MessageView::ToolResult(known_result(w.run, i)->Some_0)
    &&& forall|i: int|
        added.len() <= i < w.run.calls.len() ==> (#[trigger] known_result(w.run, i)) is None
}

/// Whether a batch is handed back whole, each call once and after every earlier one, or not at all, as
/// one that was aborted.
pub open spec fn is_whole(run: ToolRunView, input: ToolInputView) -> bool {
    match (run.phase, input) {
        (ToolPhase::Batch, ToolInputView::Batch(items)) => {
            let batch = run.batches[run.next_batch as int];
            &&& is_fair(run, input)
            &&& items.len() > 0 ==> {
                &&& forall|k: int| batch.start <= k < batch.end ==> #[trigger] hands_back(items, k)
                &&& forall|i: int| 0 <= i < batch.start ==> (#[trigger] run.recorded[i]) is Some
            }
        },
        _ => true,
    }
}

/// Whether one of the finished calls is call `k`.
pub open spec fn hands_back(items: Seq<FinishedCallView>, k: int) -> bool {
    exists|j: int| 0 <= j < items.len() && (#[trigger] items[j]).index == k
}

/// Whether every batch of tool calls is handed back whole, or not at all from some batch on.
pub open spec fn all_whole(w: ToolWorld, inputs: Seq<(ToolInputView, i64)>) -> bool
    decreases inputs.len(),
{
    inputs.len() > 0 ==> {
        &&& all_whole(w, inputs.drop_last())
        &&& is_whole(tools_after(w, inputs.drop_last()).run, inputs.last().0)
    }
}

proof fn lemma_whole_is_fair(w: ToolWorld, inputs: Seq<(ToolInputView, i64)>)
    requires
        all_whole(w, inputs),
    ensures
        all_fair(w, inputs),
    decreases inputs.len(),
{
    if inputs.len() > 0 {
        lemma_whole_is_fair(w, inputs.drop_last());
    }
}

/// One message more, for the first call whose result was not known.
proof fn lemma_order_one_more(base: nat, a: ToolWorld, b: ToolWorld, r: ToolResultMessageView)
    requires
        in_call_order(base, a),
        a.new_messages.len() - base < a.run.calls.len(),
        b.run.calls == a.run.calls,
        b.new_messages == a.new_messages.push(MessageView::ToolResult(r)),
        known_result(b.run, a.new_messages.len() - base) == Some(r),
        forall|i: int|
            0 <= i < a.run.calls.len() && i != a.new_messages.len() - base ==> #[trigger] known_result(
                b.run,
                i,
            ) == known_result(a.run, i),
    ensures
        in_call_order(base, b),
{
    let before = a.new_messages.skip(base as int);
    let added = b.new_messages.skip(base as int);
    assert(added =~= before.push(MessageView::ToolResult(r)));
    assert forall|i: int| 0 <= i < added.len() implies known_result(b.run, i) is Some
        && #[trigger] added[i] == MessageView::ToolResult(known_result(b.run, i)->Some_0) by {
        if i < before.len() {
            assert(added[i] == before[i]);
        }
    }
}

/// The same messages, and the same known results.
proof fn lemma_order_same(base: nat, a: ToolWorld, b: ToolWorld)
    requires
        in_call_order(base, a),
        b.run.calls == a.run.calls,
        b.new_messages == a.new_messages,
        forall|i: int|
            0 <= i < a.run.calls.len() ==> #[trigger] known_result(b.run, i) == known_result(a.run, i),
    ensures
        in_call_order(base, b),
{
}

proof fn lemma_settled_order(base: nat, w: ToolWorld, now: i64)
    requires
        w.run.recorded.len() == w.run.calls.len(),
        w.run.results.len() < w.run.calls.len(),
        in_call_order(base, w),
    ensures
        in_call_order(base, w.settled(now)),
{
    let i = w.run.results.len() as int;
    let after = w.settled(now);
    let added = w.new_messages.skip(base as int);
    if w.run.recorded[i] is Some {
        lemma_order_same(base, w, after);
    } else {
        if i < added.len() {
            assert(added[i] == MessageView::ToolResult(known_result(w.run, i)->Some_0));
        }
        if added.len() < i {
            assert(known_result(w.run, added.len() as int) is Some);
        }
        lemma_order_one_more(base, w, after, after.run.results[i]);
    }
}

proof fn lemma_settling_order(base: nat, w: ToolWorld, now: i64)
    requires
        w.run.recorded.len() == w.run.calls.len(),
        w.run.results.len() <= w.run.calls.len(),
        in_call_order(base, w),
    ensures
        in_call_order(base, w.settling(now).0),
    decreases w.run.calls.len() - w.run.results.len(),
{
    if w.run.results.len() >= w.run.calls.len() {
        lemma_order_same(base, w, w.in_phase(ToolPhase::Done));
    } else if w.run.steering is None {
        lemma_order_same(base, w, w.in_phase(ToolPhase::SettleAbort));
    } else {
        lemma_settled_order(base, w, now);
        lemma_settling_order(base, w.settled(now), now);
    }
}

/// A whole batch is recorded in the order of its calls.
proof fn lemma_recorded_order(
    base: nat,
    w: ToolWorld,
    items: Seq<FinishedCallView>,
    low: int,
    high: int,
    n: nat,
    now: i64,
)
    requires
        w.run.recorded.len() == w.run.calls.len(),
        w.run.results.len() == 0,
        in_call_order(base, w),
        w.new_messages.len() == base + low,
        0 <= low <= high <= w.run.calls.len(),
        distinct_calls(items),
        forall|j: int| 0 <= j < items.len() ==> low <= (#[trigger] items[j]).index < high,
        forall|k: int| low <= k < high ==> #[trigger] hands_back(items, k),
        n <= w.run.calls.len(),
    ensures
        ({
            let after = w.recorded_upto(items, n, now);
            &&& in_call_order(base, after)
            &&& after.new_messages.len() == base + if n <= low {
                low
            } else if n <= high {
                n as int
            } else {
                high
            }
        }),
    decreases n,
{
    if n > 0 {
        let k = n - 1;
        lemma_recorded_order(base, w, items, low, high, k as nat, now);
        lemma_recorded_upto_frame(w, items, k as nat, now);
        lemma_recorded_upto_frame(w, items, n, now);
        let before = w.recorded_upto(items, k as nat, now);
        let after = w.recorded_upto(items, n, now);
        lemma_recorded_for_one(before, items, k, now);
        if low <= k < high {
            assert(hands_back(items, k));
            let j = choose|j: int| 0 <= j < items.len() && (#[trigger] items[j]).index == k;
            assert(after == before.recorded(items[j], now));
            lemma_order_one_more(base, before, after, after.run.recorded[k]->Some_0);
        } else {
            assert(after == before);
        }
    }
}

/// A batch of which nothing is handed back changes nothing.
proof fn lemma_recorded_nothing(w: ToolWorld, items: Seq<FinishedCallView>, n: nat, now: i64)
    requires
        items.len() == 0,
    ensures
        w.recorded_upto(items, n, now) == w,
    decreases n,
{
    if n > 0 {
        lemma_recorded_nothing(w, items, (n - 1) as nat, now);
    }
}

proof fn lemma_batch_order(
    base: nat,
    effects: Seq<ToolEffects>,
    w: ToolWorld,
    items: Seq<FinishedCallView>,
    now: i64,
)
    requires
        in_call_order(base, w),
        reports_each_call_once(base, w),
        is_batch_plan(effects, w.run.batches, w.run.calls.len() as int),
        w.run.phase == ToolPhase::Batch,
        is_whole(w.run, ToolInputView::Batch(items)),
    ensures
        in_call_order(base, w.recorded_upto(items, w.run.calls.len(), now)),
{
    let n = w.run.calls.len();
    if items.len() == 0 {
        lemma_recorded_nothing(w, items, n, now);
    } else {
        let batch = w.run.batches[w.run.next_batch as int];
        let added = w.new_messages.skip(base as int);
        lemma_batch_within(effects, w.run.batches, n as int, w.run.next_batch as int);
        if added.len() < batch.start {
            assert(w.run.recorded[added.len() as int] is Some);
            assert(known_result(w.run, added.len() as int) is None);
        }
        if added.len() > batch.start {
            assert(w.run.recorded[batch.start as int] is None);
            assert(added[batch.start as int] == MessageView::ToolResult(
                known_result(w.run, batch.start as int)->Some_0,
            ));
        }
        lemma_recorded_order(base, w, items, batch.start as int, batch.end as int, n, now);
    }
}

/// No batch reaches beyond the calls.
proof fn lemma_batch_within(
    effects: Seq<ToolEffects>,
    batches: Seq<ToolEffectBatch>,
    upto: int,
    b: int,
)
    requires
        is_batch_plan(effects, batches, upto),
        0 <= b < batches.len(),
    ensures
        batches[b].start < batches[b].end <= upto,
    decreases batches.len() - b,
{
    if b + 1 < batches.len() {
        lemma_batch_within(effects, batches, upto, b + 1);
        assert(batches[b + 1].start == batches[b].end);
    }
}

/// A step keeps the results among the new messages in the order of the calls, if batches are handed
/// back whole.
pub proof fn tool_step_keeps_call_order(
    base: nat,
    effects: Seq<ToolEffects>,
    w: ToolWorld,
    input: ToolInputView,
    now: i64,
)
    requires
        in_call_order(base, w),
        reports_each_call_once(base, w),
        is_batch_plan(effects, w.run.batches, w.run.calls.len() as int),
        is_whole(w.run, input),
    ensures
        in_call_order(base, w.step(input, now).0),
{
    match (w.run.phase, input) {
        (ToolPhase::BatchAbort, ToolInputView::Abort(aborted)) => {
            if aborted {
                lemma_settling_order(base, w, now);
            } else {
                lemma_order_same(base, w, w.step(input, now).0);
            }
        },
        (ToolPhase::BatchSteering, ToolInputView::Steering(fetched)) => {
            let next = w.steered(fetched);
            lemma_order_same(base, w, next);
            lemma_order_same(base, w, next.in_phase(ToolPhase::Batch));
            lemma_settling_order(base, next, now);
        },
        (ToolPhase::Batch, ToolInputView::Batch(items)) => {
            lemma_batch_order(base, effects, w, items, now);
            lemma_recorded_upto_frame(w, items, w.run.calls.len(), now);
            let next = w.recorded_upto(items, w.run.calls.len(), now);
            let after = ToolWorld {
                run: ToolRunView { next_batch: w.run.next_batch + 1, ..next.run },
                ..next
            };
            lemma_order_same(base, next, after);
            lemma_order_same(base, next, after.in_phase(ToolPhase::BatchAbort));
            lemma_settling_order(base, after, now);
        },
        (ToolPhase::SettleAbort, ToolInputView::Abort(aborted)) => {
            if aborted {
                lemma_settled_order(base, w, now);
                lemma_settling_order(base, w.settled(now), now);
            } else {
                lemma_order_same(base, w, w.step(input, now).0);
            }
        },
        (ToolPhase::SettleSteering, ToolInputView::Steering(fetched)) => {
            let next = w.steered(fetched);
            lemma_order_same(base, w, next);
            lemma_settled_order(base, next, now);
            lemma_settling_order(base, next.settled(now), now);
        },
        _ => {},
    }
}

proof fn lemma_order_after(
    calls: Seq<ToolCallView>,
    effects: Seq<ToolEffects>,
    batches: Seq<ToolEffectBatch>,
    agent: AgentView,
    new_messages: Seq<MessageView>,
    events: Seq<AgentEventView>,
    inputs: Seq<(ToolInputView, i64)>,
)
    requires
        is_batch_plan(effects, batches, calls.len() as int),
        all_whole(tools_started(calls, batches, agent, new_messages, events).0, inputs),
    ensures
        ({
            let start = tools_started(calls, batches, agent, new_messages, events).0;
            let w = tools_after(start, inputs);
            &&& in_call_order(new_messages.len(), w)
            &&& grows_alike(start, w)
        }),
    decreases inputs.len(),
{
    let start = tools_started(calls, batches, agent, new_messages, events).0;
    if inputs.len() == 0 {
        assert(new_messages.skip(new_messages.len() as int) =~= Seq::empty());
        lemma_grows_refl(start);
    } else {
        let shorter = inputs.drop_last();
        lemma_order_after(calls, effects, batches, agent, new_messages, events, shorter);
        lemma_whole_is_fair(start, shorter);
        lemma_tools_after(
            calls,
            effects,
            batches,
            agent,
            new_messages,
            events,
            shorter,
            Seq::empty(),
        );
        let before = tools_after(start, shorter);
        let (input, now) = inputs.last();
        tool_step_keeps_call_order(new_messages.len(), effects, before, input, now);
        tool_step_keeps_results_in_order(before, input, now);
        lemma_grows_trans(start, before, before.step(input, now).0);
    }
}

/// Where batches are handed back whole, the results stand in the order of the calls at every moment,
/// in whatever order the calls of a batch finish: what was added to the history, and to the new
/// messages of the run alike, are the results of the first calls. When the calls are done there is one
/// message per call, the result that the call was settled with.
pub proof fn transcript_follows_the_calls(
    calls: Seq<ToolCallView>,
    effects: Seq<ToolEffects>,
    batches: Seq<ToolEffectBatch>,
    agent: AgentView,
    new_messages: Seq<MessageView>,
    events: Seq<AgentEventView>,
    inputs: Seq<(ToolInputView, i64)>,
)
    requires
        is_batch_plan(effects, batches, calls.len() as int),
        all_whole(tools_started(calls, batches, agent, new_messages, events).0, inputs),
    ensures
        ({
            let start = tools_started(calls, batches, agent, new_messages, events).0;
            let w = tools_after(start, inputs);
            let added = w.new_messages.skip(new_messages.len() as int);
            &&& w.new_messages == new_messages + added
            &&& w.agent.messages == agent.messages + added
            &&& added.len() <= calls.len()
            &&& forall|i: int|
                0 <= i < added.len() ==> {
                    &&& (#[trigger] added[i]) is ToolResult
                    &&& added[i]->ToolResult_0.tool_call_id == calls[i].id
                    &&& added[i]->ToolResult_0.tool_name == calls[i].name
                }
            &&& w.run.phase == ToolPhase::Done ==> {
                &&& added.len() == calls.len()
                &&& w.run.results.len() == calls.len()
                &&& forall|i: int|
                    0 <= i < added.len() ==> #[trigger] added[i] == MessageView::ToolResult(
                        w.run.results[i],
                    )
            }
        }),
{
    let start = tools_started(calls, batches, agent, new_messages, events).0;
    let w = tools_after(start, inputs);
    let added = w.new_messages.skip(new_messages.len() as int);
    lemma_order_after(calls, effects, batches, agent, new_messages, events, inputs);
    lemma_whole_is_fair(start, inputs);
    lemma_tools_after(calls, effects, batches, agent, new_messages, events, inputs, Seq::empty());
    assert forall|i: int| 0 <= i < added.len() implies {
        &&& (#[trigger] added[i]) is ToolResult
        &&& added[i]->ToolResult_0.tool_call_id == calls[i].id
        &&& added[i]->ToolResult_0.tool_name == calls[i].name
    } by {
        if i < w.run.results.len() {
            assert(w.run.results[i].tool_call_id == calls[i].id);
        } else {
            assert(w.run.recorded[i] is Some);
        }
    }
    if w.run.phase == ToolPhase::Done && added.len() < calls.len() {
        assert(known_result(w.run, added.len() as int) is None);
    }
}

} // verus!
