//! What a compaction announces, and what it asks to be written before.
use vstd::prelude::*;

use crate::compact::{
    before_compact_event, compacted_event, payload, CompactionActionView, CompactionInput,
    CompactionPhaseView, CompactionRecordView, CompactionWork, CompactionWorld,
};
use crate::error::ErrorView;
use crate::event::AgentEventView;
use crate::json::JsonView;

verus! {

/// The record that is being written in a phase, and whether an extension made it.
pub open spec fn being_written(phase: CompactionPhaseView) -> Option<(CompactionRecordView, bool)> {
    match phase {
        CompactionPhaseView::ApplyWorker(r) => Some((r, false)),
        CompactionPhaseView::ApplyExtension(r) => Some((r, true)),
        CompactionPhaseView::ApplyResult(r) => Some((r, false)),
        _ => None,
    }
}

/// A success is announced only once the very record that it tells of was written: the event comes with the
/// word that it was, in a phase that waits for it, and each such phase is entered together with the
/// request to write that record, and only so.
pub proof fn success_is_announced_after_writing(w: CompactionWorld, input: CompactionInput)
    ensures
        ({
            let (next, action) = w.step(input);
            &&& next.events == w.events || next.events == w.events.push(next.events.last())
            &&& next.events != w.events ==> match next.events.last() {
                AgentEventView::AutoCompactionEnd { result: Some(told), error_message, .. } => {
                    &&& being_written(w.phase) is Some
                    &&& input matches CompactionInput::Applied(done) && done is Ok
                    &&& told == payload(being_written(w.phase)->Some_0.0)
                    &&& error_message is None
                },
                _ => true,
            }
            &&& being_written(next.phase) is Some <==> action is Apply
            &&& action matches CompactionActionView::Apply(record, from_extension) ==> {
                &&& being_written(next.phase) == Some((record, from_extension))
                &&& next.events == w.events
            }
        }),
{
    let (next, action) = w.step(input);
    assert(next.events == w.events || next.events =~= w.events.push(next.events.last()));
}

/// A record that was written is announced at once, and one that was not is never.
pub proof fn what_was_written_is_announced(w: CompactionWorld, input: CompactionInput)
    requires
        being_written(w.phase) is Some,
        input is Applied,
    ensures
        ({
            let (next, action) = w.step(input);
            let record = being_written(w.phase)->Some_0.0;
            &&& input->Applied_0 matches Ok(_) ==> {
                &&& next.events == w.events.push(
                    AgentEventView::AutoCompactionEnd {
                        result: Some(payload(record)),
                        aborted: false,
                        will_retry: false,
                        error_message: None,
                    },
                )
                &&& w.phase is ApplyWorker ==> next.phase is Quota && action is CheckQuota
                &&& !(w.phase is ApplyWorker) ==> next.phase is Done && action is Finished
            }
            &&& input->Applied_0 matches Err(e) ==> {
                &&& next.events == w.events
                &&& next.phase is Done
                &&& action == CompactionActionView::Failed(e@)
            }
            &&& next.compacting == (w.compacting && !(w.phase is ApplyExtension))
        }),
{
}

/// What the work came to is written, in the background as at once, and with nothing said of it before. A
/// failure is announced with its text; at once it also ends the compaction, while in the background
/// another one may start. Either way the session is no longer at work.
pub proof fn finished_work_is_written(w: CompactionWorld, work: CompactionWork)
    ensures
        w.phase == CompactionPhaseView::Compact ==> {
            let (next, action) = w.step(CompactionInput::Compacted(work));
            &&& !next.compacting
            &&& match work {
                CompactionWork::Ready(r) => {
                    &&& action == CompactionActionView::Apply(r@, false)
                    &&& next.phase == CompactionPhaseView::ApplyResult(r@)
                    &&& next.events == w.events
                },
                CompactionWork::Unreadable(e) => {
                    &&& action == CompactionActionView::Failed(e@)
                    &&& next.phase == CompactionPhaseView::Done
                    &&& next.events == w.events
                },
                CompactionWork::Failed(e) => {
                    &&& action == CompactionActionView::Failed(e@)
                    &&& next.phase == CompactionPhaseView::Done
                    &&& next.events == w.events.push(
                        AgentEventView::AutoCompactionEnd {
                            result: None,
                            aborted: false,
                            will_retry: false,
                            error_message: Some(e@.text()),
                        },
                    )
                },
            }
        },
        w.phase == CompactionPhaseView::Worker ==> {
            let (next, action) = w.step(CompactionInput::Worker(Some(work)));
            &&& !next.compacting
            &&& match work {
                CompactionWork::Ready(r) => {
                    &&& action == CompactionActionView::Apply(r@, false)
                    &&& next.phase == CompactionPhaseView::ApplyWorker(r@)
                    &&& next.events == w.events
                },
                CompactionWork::Unreadable(e) => {
                    &&& action == CompactionActionView::Failed(e@)
                    &&& next.phase == CompactionPhaseView::Done
                    &&& next.events == w.events
                },
                CompactionWork::Failed(e) => {
                    &&& action == CompactionActionView::CheckQuota
                    &&& next.phase == CompactionPhaseView::Quota
                    &&& next.events == w.events.push(
                        AgentEventView::AutoCompactionEnd {
                            result: None,
                            aborted: false,
                            will_retry: false,
                            error_message: Some(e@.text()),
                        },
                    )
                },
            }
        },
{
}

/// A compaction starts, and says so, only where there is something to compact. One in the background
/// looks for that only when the worker has nothing left to hand over and the quota is free.
pub proof fn compaction_starts_where_it_has_work(w: CompactionWorld, input: CompactionInput)
    ensures
        ({
            let (next, action) = w.step(input);
            &&& w.phase is Worker && input == CompactionInput::Worker(None) ==> {
                &&& next == (CompactionWorld { phase: CompactionPhaseView::Quota, ..w })
                &&& action == CompactionActionView::CheckQuota
            }
            &&& w.phase is Quota && input == CompactionInput::Quota(true) ==> {
                &&& next == (CompactionWorld { phase: CompactionPhaseView::Preparation, ..w })
                &&& action == CompactionActionView::Prepare
            }
            &&& w.phase is Quota && input == CompactionInput::Quota(false) ==> {
                &&& next == (CompactionWorld { phase: CompactionPhaseView::Done, ..w })
                &&& action == CompactionActionView::Finished
            }
            &&& w.phase is Preparation && input is Preparation ==> {
                &&& input->Preparation_0 == Ok::<bool, crate::error::Error>(true) ==> {
                    &&& next == (CompactionWorld {
                        phase: CompactionPhaseView::Before,
                        events: w.events.push(
                            AgentEventView::AutoCompactionStart { reason: "threshold"@ },
                        ),
                        ..w
                    })
                    &&& action == CompactionActionView::DispatchBefore
                }
                &&& input->Preparation_0 == Ok::<bool, crate::error::Error>(false) ==> {
                    &&& next == (CompactionWorld { phase: CompactionPhaseView::Done, ..w })
                    &&& action == CompactionActionView::Finished
                }
                &&& input->Preparation_0 matches Err(e) ==> {
                    &&& next == (CompactionWorld { phase: CompactionPhaseView::Done, ..w })
                    &&& action == CompactionActionView::Failed(e@)
                }
            }
            &&& next.events != w.events && next.events.last() is AutoCompactionStart ==> w.phase
                is Preparation && action is DispatchBefore
        }),
{
}

/// Extensions may cancel a compaction, and otherwise may do it themselves: then their record is written.
/// Only where they do neither the work is done here, at once or by the background worker.
pub proof fn extensions_come_first(w: CompactionWorld, input: CompactionInput)
    requires
        w.phase is Before,
        input is Before,
    ensures
        ({
            let said = input->Before_0;
            let (next, action) = w.step(input);
            &&& said.cancel ==> {
                &&& next == (CompactionWorld {
                    phase: CompactionPhaseView::Done,
                    events: w.events.push(
                        AgentEventView::AutoCompactionEnd {
                            result: None,
                            aborted: true,
                            will_retry: false,
                            error_message: None,
                        },
                    ),
                    ..w
                })
                &&& w.forced ==> action == CompactionActionView::Failed(
                    ErrorView::Extension("Compaction cancelled"@),
                )
                &&& !w.forced ==> action == CompactionActionView::Finished
            }
            &&& !said.cancel ==> next.events == w.events && next.forced == w.forced
            &&& !said.cancel ==> match said.compaction {
                Some(r) => {
                    &&& action == CompactionActionView::Apply(r@, true)
                    &&& next.phase == CompactionPhaseView::ApplyExtension(r@)
                    &&& next.compacting
                },
                None => if w.forced {
                    &&& action == CompactionActionView::Compact
                    &&& next.phase == CompactionPhaseView::Compact
                    &&& next.compacting
                } else {
                    &&& action == CompactionActionView::Launch
                    &&& next.phase == CompactionPhaseView::Launch
                    &&& next.compacting == w.compacting
                },
            }
        }),
{
}

/// A worker that was started leaves the session compacting; one that could not be is announced as a
/// failure. Neither keeps the session from going on.
pub proof fn worker_is_left_to_its_work(w: CompactionWorld, input: CompactionInput)
    requires
        w.phase is Launch,
        input is Launched,
    ensures
        ({
            let (next, action) = w.step(input);
            &&& action == CompactionActionView::Finished
            &&& next.phase == CompactionPhaseView::Done
            &&& input->Launched_0 matches Ok(_) ==> next.compacting && next.events == w.events
            &&& input->Launched_0 matches Err(e) ==> {
                &&& next.compacting == w.compacting
                &&& next.events == w.events.push(
                    AgentEventView::AutoCompactionEnd {
                        result: None,
                        aborted: false,
                        will_retry: false,
                        error_message: Some(e@.text()),
                    },
                )
            }
        }),
{
}

/// An input that a compaction does not wait for breaks it off without a word; the session is then not
/// left at work on it.
pub proof fn stray_inputs_break_compaction_off(w: CompactionWorld, input: CompactionInput)
    requires
        match w.phase {
            CompactionPhaseView::Worker => !(input is Worker),
            CompactionPhaseView::Quota => !(input is Quota),
            CompactionPhaseView::Preparation => !(input is Preparation),
            CompactionPhaseView::Before => !(input is Before),
            CompactionPhaseView::Launch => !(input is Launched),
            CompactionPhaseView::Compact => !(input is Compacted),
            CompactionPhaseView::Done => true,
            _ => !(input is Applied),
        },
    ensures
        ({
            let (next, action) = w.step(input);
            &&& action == CompactionActionView::Failed(
                ErrorView::Session("Compaction out of step"@),
            )
            &&& next.phase == CompactionPhaseView::Done
            &&& next.events == w.events
            &&& w.phase is ApplyExtension || w.phase is Compact ==> !next.compacting
            &&& !(w.phase is ApplyExtension) && !(w.phase is Compact) ==> next.compacting
                == w.compacting
        }),
{
}

/// Two announcements of records are the same only if they tell of the same record.
pub proof fn announcement_tells_the_record_apart(a: CompactionRecordView, b: CompactionRecordView)
    requires
        payload(a) == payload(b),
    ensures
        a == b,
{
    assert(payload(a)->Object_0.len() == payload(b)->Object_0.len());
    assert(payload(a)->Object_0[0] == payload(b)->Object_0[0]);
    assert(payload(a)->Object_0[1] == payload(b)->Object_0[1]);
    assert(payload(a)->Object_0[2] == payload(b)->Object_0[2]);
    if let Some(details) = a.details {
        assert(payload(a)->Object_0[3] == payload(b)->Object_0[3]);
    }
}

/// Extensions are told, each under its name, of what is to be compacted, of the branch and of what the
/// user asked for; afterwards of the entry, and of whether an extension made it.
pub proof fn extensions_are_told_everything(
    record: CompactionRecordView,
    preparation: JsonView,
    branch: JsonView,
    asked: Option<Seq<char>>,
    from_extension: bool,
)
    ensures
        ({
            let before = before_compact_event(preparation, branch, asked)->Object_0;
            &&& before_compact_event(preparation, branch, asked) is Object
            &&& before.len() == if asked is Some {
                3int
            } else {
                2
            }
            &&& before[0] == ("preparation"@, preparation)
            &&& before[1] == ("branchEntries"@, branch)
            &&& asked matches Some(text) ==> before[2] == ("customInstructions"@, JsonView::Text(text))
        }),
        ({
            let after = compacted_event(preparation, from_extension)->Object_0;
            &&& compacted_event(preparation, from_extension) is Object
            &&& after.len() == 2
            &&& after[0] == ("compactionEntry"@, preparation)
            &&& after[1] == ("fromExtension"@, JsonView::Bool(from_extension))
        }),
        ({
            let told = payload(record)->Object_0;
            &&& payload(record) is Object
            &&& told.len() == if record.details is Some {
                4int
            } else {
                3
            }
            &&& told[0] == ("summary"@, JsonView::Text(record.summary))
            &&& told[1] == ("firstKeptEntryId"@, JsonView::Text(record.first_kept_entry_id))
            &&& told[2] == ("tokensBefore"@, JsonView::Unsigned(record.tokens_before))
            &&& record.details matches Some(details) ==> told[3] == ("details"@, details)
        }),
{
}

} // verus!
