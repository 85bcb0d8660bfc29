//! What a tool call hands back, what its hooks may change, and what becomes of calls that do not run.
use vstd::prelude::*;

use crate::agent::AgentView;
use crate::event::AgentEventView;
use crate::model::{
    error_output, ContentBlockView, MessageView, TextContentView, ToolCallView,
    ToolOutputView, ToolResultMessageView,
};
use crate::queue::QueueKind;
use crate::text::trimmed;
use crate::tool_exec::{
    CallHookReply, ExecAction, ExecInput, ExecPhase, ResultHookReply, ToolExecutionView, ToolReply,
};
use crate::tool_laws::hands_back;
use crate::tool_run::{
    distinct_calls, lemma_recorded_for_one, lemma_recorded_upto_frame, result_events, result_message,
    start_events, tools_started, FinishedCallView, ToolAction, ToolInputView, ToolPhase, ToolRunView,
    ToolWorld,
};

verus! {

/// Whether an output is one text that says what went wrong, and counts as an error.
pub open spec fn is_error_text(output: ToolOutputView, text: Seq<char>) -> bool {
    &&& output.content.len() == 1
    &&& output.content[0] == ContentBlockView::Text(TextContentView { text, text_signature: None })
    &&& output.details is None
    &&& output.is_error
}

/// An output that stands for a failure holds the words and counts as an error.
pub proof fn error_outputs_are_errors(text: Seq<char>)
    ensures
        is_error_text(error_output(text), text),
{
}

/// Whether two states of a call differ at most in what it has come to.
pub open spec fn same_call(a: ToolExecutionView, b: ToolExecutionView) -> bool {
    a.tool_name == b.tool_name && a.hooked == b.hooked && a.fail_closed == b.fail_closed
}

/// What a tool hands back is the output of the call, as it is, and the call counts as an error exactly if
/// its output does. A tool that is not there, or that fails, gives an error that says so. Extensions see
/// the output next if there are any, and otherwise the call is over.
pub proof fn verdict_agrees_with_the_output(e: ToolExecutionView, reply: ToolReply)
    requires
        e.wf(),
        e.phase == ExecPhase::Tool,
    ensures
        ({
            let next = e.step(ExecInput::Tool(reply));
            &&& same_call(next, e)
            &&& next.output is Some
            &&& next.is_error == next.output->Some_0.is_error
            &&& match reply {
                ToolReply::Output(o) => next.output == Some(o@) && next.is_error == o.is_error,
                ToolReply::NotFound => is_error_text(
                    next.output->Some_0,
                    "Error: Tool '"@ + e.tool_name + "' not found"@,
                ),
                ToolReply::Failed(text) => is_error_text(next.output->Some_0, "Error: "@ + text@),
            }
            &&& next.phase == if e.hooked {
                ExecPhase::ResultHook
            } else {
                ExecPhase::Done
            }
        }),
{
}

/// A call runs unless an extension blocks it, or its hook fails where hooks fail closed. A call that does
/// not run is an error that gives the reason, if there is one.
pub proof fn hooks_decide_whether_a_call_runs(e: ToolExecutionView, reply: CallHookReply)
    requires
        e.wf(),
        e.phase == ExecPhase::CallHook,
    ensures
        ({
            let next = e.step(ExecInput::CallHook(reply));
            let runs = match reply {
                CallHookReply::Decision { block, .. } => !block,
                CallHookReply::Silent => true,
                CallHookReply::Failed => !e.fail_closed,
            };
            &&& same_call(next, e)
            &&& runs ==> next.phase == ExecPhase::Tool && next.output == e.output && next.is_error
                == e.is_error
            &&& !runs ==> next.phase == (if e.hooked {
                ExecPhase::ResultHook
            } else {
                ExecPhase::Done
            }) && next.is_error && next.output is Some
            &&& reply matches CallHookReply::Decision { block: true, reason } ==> is_error_text(
                next.output->Some_0,
                match reason {
                    Some(r) => if trimmed(r@).len() > 0 {
                        "Tool execution blocked: "@ + trimmed(r@)
                    } else {
                        "Tool execution was blocked by an extension"@
                    },
                    None => "Tool execution was blocked by an extension"@,
                },
            )
            &&& reply is Failed && e.fail_closed ==> {
                &&& next.output->Some_0.is_error
                &&& next.output->Some_0.content.len() == 1
            }
        }),
{
}

/// Extensions may replace the content and the details of an output, each on its own; what they do not
/// replace stays, and a hook that says nothing or fails changes nothing.
pub proof fn result_hook_changes_what_it_names(e: ToolExecutionView, reply: ResultHookReply)
    requires
        e.wf(),
        e.phase == ExecPhase::ResultHook,
    ensures
        ({
            let next = e.step(ExecInput::ResultHook(reply));
            let before = e.output->Some_0;
            let after = next.output->Some_0;
            &&& same_call(next, e)
            &&& next.phase == ExecPhase::Done
            &&& next.output is Some
            &&& next.is_error == e.is_error
            &&& after.is_error == before.is_error
            &&& match reply {
                ResultHookReply::Change { content, details } => {
                    &&& after.content == (match content {
                        Some(blocks) => blocks.deep_view(),
                        None => before.content,
                    })
                    &&& after.details == (match details {
                        Some(d) => Some(d@),
                        None => before.details,
                    })
                },
                _ => after == before,
            }
        }),
{
}

/// A call asks for its hook, then for the tool, then for the other hook; it is over only when nothing of
/// that is left. What it does not wait for changes nothing.
pub proof fn a_call_asks_for_what_it_waits_for(e: ToolExecutionView, input: ExecInput)
    ensures
        e.phase == ExecPhase::CallHook ==> e.expected() == ExecAction::DispatchCallHook,
        e.phase == ExecPhase::Tool ==> e.expected() == ExecAction::RunTool,
        e.phase == ExecPhase::ResultHook ==> e.expected() == ExecAction::DispatchResultHook,
        e.phase == ExecPhase::Done ==> e.expected() == ExecAction::Finish,
        e.phase == ExecPhase::Done ==> e.step(input) == e,
        e.phase == ExecPhase::CallHook && !(input is CallHook) ==> e.step(input) == e,
        e.phase == ExecPhase::Tool && !(input is Tool) ==> e.step(input) == e,
        e.phase == ExecPhase::ResultHook && !(input is ResultHook) ==> e.step(input) == e,
{
}

/// The message that a call leaves names the call and holds what it handed back.
pub proof fn result_message_tells_of_the_call(
    call: ToolCallView,
    output: ToolOutputView,
    is_error: bool,
    now: i64,
)
    ensures
        ({
            let m = result_message(call, output, is_error, now);
            &&& m.tool_call_id == call.id
            &&& m.tool_name == call.name
            &&& m.content == output.content
            &&& m.details == output.details
            &&& m.is_error == is_error
            &&& m.timestamp == now
        }),
{
}

/// What is reported of a call that is over: its last state, its end, and the start and the end of its
/// message, all with the same verdict.
pub proof fn report_tells_of_the_call(
    call: ToolCallView,
    output: ToolOutputView,
    is_error: bool,
    now: i64,
)
    ensures
        ({
            let events = result_events(call, output, is_error, now);
            let message = MessageView::ToolResult(
                ToolResultMessageView {
                    tool_call_id: call.id,
                    tool_name: call.name,
                    content: output.content,
                    details: output.details,
                    is_error,
                    timestamp: now,
                },
            );
            let shown = ToolOutputView {
                content: output.content,
                details: output.details,
                is_error,
            };
            &&& events.len() == 4
            &&& events[0] == AgentEventView::ToolExecutionUpdate {
                tool_call_id: call.id,
                tool_name: call.name,
                args: call.arguments,
                partial_result: shown,
            }
            &&& events[1] == AgentEventView::ToolExecutionEnd {
                tool_call_id: call.id,
                tool_name: call.name,
                result: shown,
                is_error,
            }
            &&& events[2] == AgentEventView::MessageStart { message }
            &&& events[3] == AgentEventView::MessageEnd { message }
        }),
{
}

/// Announcements name the calls one by one, with their arguments.
pub proof fn announcements_name_the_calls(calls: Seq<ToolCallView>)
    ensures
        start_events(calls).len() == calls.len(),
        forall|i: int|
            0 <= i < calls.len() ==> #[trigger] start_events(calls)[i]
                == (AgentEventView::ToolExecutionStart {
                tool_call_id: calls[i].id,
                tool_name: calls[i].name,
                args: calls[i].arguments,
            }),
{
}

/// Whether one world comes from another by reporting a call: its message joins the history and the new
/// messages, and its report the events.
pub open spec fn reports(
    before: ToolWorld,
    after: ToolWorld,
    result: ToolResultMessageView,
    report: Seq<AgentEventView>,
) -> bool {
    &&& after.agent.messages == before.agent.messages.push(MessageView::ToolResult(result))
    &&& after.new_messages == before.new_messages.push(MessageView::ToolResult(result))
    &&& after.events == before.events + report
    &&& after.agent.queue == before.agent.queue
    &&& after.agent.config == before.agent.config
    &&& after.agent.tools == before.agent.tools
    &&& after.agent.provider == before.agent.provider
}

/// The next call is settled with what it handed back, without being reported again; a call that handed
/// nothing back is reported as an error, as skipped if the user interrupted the calls and as aborted
/// otherwise.
pub proof fn a_call_is_settled_with_its_result(w: ToolWorld, now: i64)
    requires
        w.run.wf(),
        w.run.results.len() < w.run.calls.len(),
    ensures
        ({
            let i = w.run.results.len() as int;
            let call = w.run.calls[i];
            let next = w.settled(now);
            let text = if w.run.steering is Some {
                "Skipped due to queued user message."@
            } else {
                "Tool execution aborted"@
            };
            &&& next.run.results.len() == i + 1
            &&& next.run.results.take(i) == w.run.results
            &&& next.run.calls == w.run.calls
            &&& next.run.recorded == w.run.recorded
            &&& next.run.steering == w.run.steering
            &&& w.run.recorded[i] matches Some(r) ==> {
                &&& next.run.results[i] == r
                &&& next.agent == w.agent
                &&& next.new_messages == w.new_messages
                &&& next.events == w.events
            }
            &&& w.run.recorded[i] is None ==> {
                let r = next.run.results[i];
                &&& r.tool_call_id == call.id
                &&& r.tool_name == call.name
                &&& r.content == seq![
                    ContentBlockView::Text(TextContentView { text, text_signature: None }),
                ]
                &&& r.details is None
                &&& r.is_error
                &&& r.timestamp == now
                &&& reports(w, next, r, result_events(call, error_output(text), true, now))
            }
        }),
{
    assert(w.settled(now).run.results.take(w.run.results.len() as int) =~= w.run.results);
}

/// What finished calls hand back is recorded for the calls that they are for, as it is, and for no
/// others.
pub proof fn finished_calls_are_recorded(
    w: ToolWorld,
    items: Seq<FinishedCallView>,
    n: nat,
    now: i64,
)
    requires
        w.run.recorded.len() == w.run.calls.len(),
        distinct_calls(items),
        n <= w.run.calls.len(),
    ensures
        ({
            let next = w.recorded_upto(items, n, now);
            &&& next.run.recorded.len() == w.run.calls.len()
            &&& forall|k: int|
                #![trigger next.run.recorded[k]]
                0 <= k < w.run.calls.len() && (k >= n || !hands_back(items, k))
                    ==> next.run.recorded[k] == w.run.recorded[k]
            &&& forall|j: int|
                0 <= j < items.len() && (#[trigger] items[j]).index < n ==> {
                    let call = w.run.calls[items[j].index as int];
                    next.run.recorded[items[j].index as int] == Some(
                        ToolResultMessageView {
                            tool_call_id: call.id,
                            tool_name: call.name,
                            content: items[j].output.content,
                            details: items[j].output.details,
                            is_error: items[j].is_error,
                            timestamp: now,
                        },
                    )
                }
        }),
    decreases n,
{
    lemma_recorded_upto_frame(w, items, n, now);
    if n > 0 {
        let k = n - 1;
        finished_calls_are_recorded(w, items, k as nat, now);
        lemma_recorded_upto_frame(w, items, k as nat, now);
        let before = w.recorded_upto(items, k as nat, now);
        let after = w.recorded_upto(items, n, now);
        lemma_recorded_for_one(before, items, k, now);
        if hands_back(items, k) {
            let j = choose|j: int| 0 <= j < items.len() && (#[trigger] items[j]).index == k;
            assert(after == before.recorded(items[j], now));
            assert forall|i: int| 0 <= i < items.len() && (#[trigger] items[i]).index < n implies {
                let call = w.run.calls[items[i].index as int];
                after.run.recorded[items[i].index as int] == Some(
                    ToolResultMessageView {
                        tool_call_id: call.id,
                        tool_name: call.name,
                        content: items[i].output.content,
                        details: items[i].output.details,
                        is_error: items[i].is_error,
                        timestamp: now,
                    },
                )
            } by {
                if items[i].index == k {
                    assert(i == j) by {
                        if i < j {
                            assert(items[i].index != items[j].index);
                        } else if j < i {
                            assert(items[j].index != items[i].index);
                        }
                    }
                }
            }
        } else {
            assert(after == before);
        }
    }
}

/// Whether two worlds of tool calls differ in nothing but what the calls wait for.
pub open spec fn only_waits_differ(a: ToolWorld, b: ToolWorld) -> bool {
    &&& a.agent == b.agent
    &&& a.new_messages == b.new_messages
    &&& a.events == b.events
    &&& a.run.calls == b.run.calls
    &&& a.run.batches == b.run.batches
    &&& a.run.next_batch == b.run.next_batch
    &&& a.run.recorded == b.run.recorded
    &&& a.run.steering == b.run.steering
    &&& a.run.results == b.run.results
}

/// Settling starts no call: it asks about an abort, or is over once every call is settled. It goes on by
/// itself only where the user interrupted the calls.
proof fn lemma_settling_runs_nothing(w: ToolWorld, now: i64)
    requires
        w.run.recorded.len() == w.run.calls.len(),
        w.run.results.len() <= w.run.calls.len(),
    ensures
        ({
            let (next, action) = w.settling(now);
            &&& action == ToolAction::CheckAbort || action == ToolAction::Finish
            &&& action == ToolAction::Finish <==> next.run.phase == ToolPhase::Done
            &&& action == ToolAction::CheckAbort ==> next.run.phase == ToolPhase::SettleAbort
                && only_waits_differ(next, w)
            &&& next.run.recorded == w.run.recorded
            &&& next.run.calls == w.run.calls
            &&& next.run.steering == w.run.steering
            &&& next.agent.queue == w.agent.queue
            &&& next.run.results.len() >= w.run.results.len()
            &&& action == ToolAction::Finish ==> next.run.results.len() == w.run.calls.len()
            &&& action == ToolAction::Finish <==> w.run.steering is Some || w.run.results.len()
                == w.run.calls.len()
            &&& forall|i: int|
                w.run.results.len() <= i < next.run.results.len() ==> {
                    &&& w.run.recorded[i] is Some ==> Some(#[trigger] next.run.results[i])
                        == w.run.recorded[i]
                    &&& w.run.recorded[i] is None ==> next.run.results[i].is_error
                }
            &&& forall|i: int|
                0 <= i < w.run.results.len() ==> #[trigger] next.run.results[i] == w.run.results[i]
        }),
    decreases w.run.calls.len() - w.run.results.len(),
{
    if w.run.results.len() < w.run.calls.len() && w.run.steering is Some {
        let one = w.settled(now);
        let i = w.run.results.len() as int;
        lemma_settling_runs_nothing(one, now);
        let next = w.settling(now).0;
        assert(next == one.settling(now).0);
        assert(next.run.results[i] == one.run.results[i]);
        assert forall|j: int| 0 <= j < w.run.results.len() implies #[trigger] next.run.results[j]
            == w.run.results[j] by {
            assert(next.run.results[j] == one.run.results[j]);
        }
    }
}

/// Before each batch the calls look for an abort and then for the user: an abort, or a message of the
/// user, keeps every later batch from running; otherwise exactly the next batch runs. What the user said
/// is kept, so that none of it is lost.
pub proof fn batches_give_way_to_the_user(w: ToolWorld, now: i64, fetched: Seq<MessageView>)
    requires
        w.run.wf(),
        w.run.results.len() == 0,
        w.run.steering is None,
    ensures
        w.run.phase == ToolPhase::BatchAbort ==> {
            let (on, action) = w.step(ToolInputView::Abort(false), now);
            let (off, stop) = w.step(ToolInputView::Abort(true), now);
            &&& action == ToolAction::FetchSteering
            &&& on.run.phase == ToolPhase::BatchSteering
            &&& only_waits_differ(on, w)
            &&& !(stop is RunBatch) && !(stop is FetchSteering)
            &&& off.run.recorded == w.run.recorded
        },
        w.run.phase == ToolPhase::BatchSteering ==> {
            let due = w.agent.drained(QueueKind::Steering, fetched);
            let (next, action) = w.step(ToolInputView::Steering(fetched), now);
            &&& next.agent.queue == w.agent.after_drain(QueueKind::Steering, fetched).queue
            &&& due.len() == 0 ==> {
                &&& action == ToolAction::RunBatch(w.run.batches[w.run.next_batch as int])
                &&& next.run.phase == ToolPhase::Batch
                &&& next.run.steering is None
                &&& next.agent.messages == w.agent.messages
                &&& next.events == w.events
            }
            &&& due.len() > 0 ==> {
                &&& action == ToolAction::Finish
                &&& next.run.steering == Some(due)
                &&& next.run.results.len() == w.run.calls.len()
                &&& next.run.recorded == w.run.recorded
                &&& forall|i: int|
                    0 <= i < w.run.calls.len() && w.run.recorded[i] is None ==> (
                    #[trigger] next.run.results[i]).is_error
                &&& forall|i: int|
                    0 <= i < w.run.calls.len() && w.run.recorded[i] is Some ==> Some(
                        #[trigger] next.run.results[i],
                    ) == w.run.recorded[i]
            }
        },
{
    lemma_settling_runs_nothing(w, now);
    lemma_settling_runs_nothing(w.steered(fetched), now);
}

/// After a batch the next one is looked at; after the last batch the calls are settled, one by one, each
/// after another look for an abort and for the user.
pub proof fn batches_run_one_after_the_other(
    w: ToolWorld,
    items: Seq<FinishedCallView>,
    fetched: Seq<MessageView>,
    now: i64,
)
    requires
        w.run.wf(),
    ensures
        w.run.phase == ToolPhase::Batch ==> {
            let recorded = w.recorded_upto(items, w.run.calls.len(), now);
            let (next, action) = w.step(ToolInputView::Batch(items), now);
            &&& next.run.recorded == recorded.run.recorded
            &&& next.run.next_batch == w.run.next_batch + 1
            &&& w.run.next_batch + 1 < w.run.batches.len() ==> action == ToolAction::CheckAbort
                && next.run.phase == ToolPhase::BatchAbort && next.events == recorded.events
                && next.agent == recorded.agent && next.new_messages == recorded.new_messages
            &&& w.run.next_batch + 1 == w.run.batches.len() && w.run.steering is None
                && w.run.results.len() < w.run.calls.len() ==> action == ToolAction::CheckAbort
                && next.run.phase == ToolPhase::SettleAbort
        },
        w.run.phase == ToolPhase::SettleAbort ==> {
            let (on, action) = w.step(ToolInputView::Abort(false), now);
            let off = w.step(ToolInputView::Abort(true), now).0;
            let i = w.run.results.len() as int;
            &&& action == ToolAction::FetchSteering
            &&& on.run.phase == ToolPhase::SettleSteering
            &&& only_waits_differ(on, w)
            &&& off.run.results.len() > i
            &&& off.run.results[i] == w.settled(now).run.results[i]
        },
        w.run.phase == ToolPhase::SettleSteering ==> {
            let due = w.agent.drained(QueueKind::Steering, fetched);
            let next = w.step(ToolInputView::Steering(fetched), now).0;
            let i = w.run.results.len() as int;
            &&& next.run.results.len() > i
            &&& w.run.recorded[i] is Some ==> Some(next.run.results[i]) == w.run.recorded[i]
            &&& w.run.recorded[i] is None ==> next.run.results[i].is_error
            &&& due.len() > 0 ==> next.run.steering == Some(due) && next.run.results.len()
                == w.run.calls.len()
            &&& due.len() == 0 ==> next.run.steering == w.run.steering
            &&& next.agent.queue == w.agent.after_drain(QueueKind::Steering, fetched).queue
        },
{
    if w.run.phase == ToolPhase::Batch {
        lemma_recorded_upto_frame(w, items, w.run.calls.len(), now);
        let recorded = w.recorded_upto(items, w.run.calls.len(), now);
        let after = ToolWorld {
            run: ToolRunView { next_batch: w.run.next_batch + 1, ..recorded.run },
            ..recorded
        };
        lemma_settling_runs_nothing(after, now);
        lemma_settling_keeps_plan(after, now);
    }
    if w.run.phase == ToolPhase::SettleAbort {
        lemma_settling_runs_nothing(w.settled(now), now);
    }
    if w.run.phase == ToolPhase::SettleSteering {
        let steered = w.steered(fetched);
        lemma_settling_runs_nothing(steered.settled(now), now);
    }
}

proof fn lemma_settling_keeps_plan(w: ToolWorld, now: i64)
    ensures
        w.settling(now).0.run.next_batch == w.run.next_batch,
        w.settling(now).0.run.batches == w.run.batches,
    decreases w.run.calls.len() - w.run.results.len(),
{
    if w.run.results.len() < w.run.calls.len() && w.run.steering is Some {
        lemma_settling_keeps_plan(w.settled(now), now);
    }
}

/// Tool calls begin with every call announced, nothing recorded or settled, and a look for an abort; where
/// there are no calls, there is nothing to do.
pub proof fn tool_calls_begin_announced(
    calls: Seq<ToolCallView>,
    batches: Seq<crate::effects::ToolEffectBatch>,
    agent: AgentView,
    new_messages: Seq<MessageView>,
    events: Seq<AgentEventView>,
)
    ensures
        ({
            let (w, action) = tools_started(calls, batches, agent, new_messages, events);
            &&& w.run.calls == calls
            &&& w.run.batches == batches
            &&& w.run.next_batch == 0
            &&& w.run.recorded.len() == calls.len()
            &&& forall|i: int| 0 <= i < calls.len() ==> (#[trigger] w.run.recorded[i]) is None
            &&& w.run.steering is None
            &&& w.run.results.len() == 0
            &&& w.agent == agent
            &&& w.new_messages == new_messages
            &&& w.events == events + start_events(calls)
            &&& calls.len() > 0 ==> action == ToolAction::CheckAbort && w.run.phase
                == ToolPhase::BatchAbort
            &&& calls.len() == 0 ==> action == ToolAction::Finish && w.run.phase == ToolPhase::Done
        }),
{
}

/// A result for a call that there is not is not recorded.
pub proof fn results_without_a_call_are_dropped(w: ToolWorld, item: FinishedCallView, now: i64)
    requires
        item.index >= w.run.calls.len(),
    ensures
        w.recorded(item, now) == w,
{
}

} // verus!
