//! Compacting the history of a session, in the background or at once.
use vstd::prelude::*;

use crate::error::{Error, ErrorView};
use crate::event::{emit, AgentEvent, AgentEventView};
use crate::json::{
    clone_opt_json, field_views, object, opt_json, put_field, text_value, Json, JsonView,
};
use crate::text::{opt_text, owned};

verus! {

/// What a compaction puts in the place of older entries.
#[derive(Debug, PartialEq, Eq)]
pub struct CompactionRecord {
    pub summary: String,
    pub first_kept_entry_id: String,
    pub tokens_before: u64,
    pub details: Option<Json>,
}

/// The mathematical value of [`CompactionRecord`].
#[verifier::ext_equal]
pub struct CompactionRecordView {
    pub summary: Seq<char>,
    pub first_kept_entry_id: Seq<char>,
    pub tokens_before: u64,
    pub details: Option<JsonView>,
}

impl View for CompactionRecord {
    type V = CompactionRecordView;

    open spec fn view(&self) -> CompactionRecordView {
        CompactionRecordView {
            summary: self.summary@,
            first_kept_entry_id: self.first_kept_entry_id@,
            tokens_before: self.tokens_before,
            details: opt_json(self.details),
        }
    }
}

impl Clone for CompactionRecord {
    fn clone(&self) -> (r: Self)
        ensures
            r@ == self@,
    {
        CompactionRecord {
            summary: self.summary.clone(),
            first_kept_entry_id: self.first_kept_entry_id.clone(),
            tokens_before: self.tokens_before,
            details: clone_opt_json(&self.details),
        }
    }
}

/// What is announced of a compaction.
pub open spec fn payload(record: CompactionRecordView) -> JsonView {
    let fields = seq![
        ("summary"@, JsonView::Text(record.summary)),
        ("firstKeptEntryId"@, JsonView::Text(record.first_kept_entry_id)),
        ("tokensBefore"@, JsonView::Unsigned(record.tokens_before)),
    ];
    JsonView::Object(
        match record.details {
            Some(details) => fields.push(("details"@, details)),
            None => fields,
        },
    )
}

/// What is announced of a compaction.
pub fn auto_compaction_result_payload(record: &CompactionRecord) -> (r: Json)
    ensures
        r@ == payload(record@),
{
    let mut fields: Vec<(String, Json)> = Vec::new();
    put_field(&mut fields, "summary", text_value(record.summary.as_str()));
    put_field(&mut fields, "firstKeptEntryId", text_value(record.first_kept_entry_id.as_str()));
    put_field(&mut fields, "tokensBefore", Json::Unsigned(record.tokens_before));
    if let Some(details) = &record.details {
        put_field(&mut fields, "details", details.clone());
    }
    assert(field_views(fields@) =~= payload(record@)->Object_0);
    object(fields)
}

/// What extensions are told before a compaction: what is to be compacted, the entries of the branch, and
/// what the user asked for, if anything.
pub open spec fn before_compact_event(
    preparation: JsonView,
    branch_entries: JsonView,
    custom_instructions: Option<Seq<char>>,
) -> JsonView {
    let fields = seq![("preparation"@, preparation), ("branchEntries"@, branch_entries)];
    JsonView::Object(
        match custom_instructions {
            Some(text) => fields.push(("customInstructions"@, JsonView::Text(text))),
            None => fields,
        },
    )
}

/// What extensions are told before a compaction.
pub fn before_compact_payload(
    preparation: Json,
    branch_entries: Json,
    custom_instructions: &Option<String>,
) -> (r: Json)
    ensures
        r@ == before_compact_event(preparation@, branch_entries@, opt_text(*custom_instructions)),
{
    let mut fields: Vec<(String, Json)> = Vec::new();
    put_field(&mut fields, "preparation", preparation);
    put_field(&mut fields, "branchEntries", branch_entries);
    if let Some(text) = custom_instructions {
        put_field(&mut fields, "customInstructions", text_value(text.as_str()));
    }
    assert(field_views(fields@) =~= before_compact_event(
        preparation@,
        branch_entries@,
        opt_text(*custom_instructions),
    )->Object_0);
    object(fields)
}

/// What extensions are told after a compaction.
pub open spec fn compacted_event(entry: JsonView, from_extension: bool) -> JsonView {
    JsonView::Object(
        seq![("compactionEntry"@, entry), ("fromExtension"@, JsonView::Bool(from_extension))],
    )
}

/// What extensions are told after a compaction.
pub fn session_compact_payload(entry: Json, from_extension: bool) -> (r: Json)
    ensures
        r@ == compacted_event(entry@, from_extension),
{
    let mut fields: Vec<(String, Json)> = Vec::new();
    put_field(&mut fields, "compactionEntry", entry);
    put_field(&mut fields, "fromExtension", Json::Bool(from_extension));
    assert(field_views(fields@) =~= compacted_event(entry@, from_extension)->Object_0);
    object(fields)
}

/// The end of a compaction that was carried out.
pub open spec fn end_with_result(record: CompactionRecordView) -> AgentEventView {
    AgentEventView::AutoCompactionEnd {
        result: Some(payload(record)),
        aborted: false,
        will_retry: false,
        error_message: None,
    }
}

/// The end of a compaction that failed.
pub open spec fn end_with_error(text: Seq<char>) -> AgentEventView {
    AgentEventView::AutoCompactionEnd {
        result: None,
        aborted: false,
        will_retry: false,
        error_message: Some(text),
    }
}

/// The end of a compaction that an extension cancelled.
pub open spec fn end_cancelled() -> AgentEventView {
    AgentEventView::AutoCompactionEnd {
        result: None,
        aborted: true,
        will_retry: false,
        error_message: None,
    }
}

/// The start of a compaction.
pub open spec fn start_of_compaction() -> AgentEventView {
    AgentEventView::AutoCompactionStart { reason: "threshold"@ }
}

/// What a compaction waits for.
#[derive(Debug, PartialEq, Eq)]
pub enum CompactionPhase {
    /// What the background worker has to hand over.
    Worker,
    /// That the result of the background worker was written.
    ApplyWorker(CompactionRecord),
    /// Whether another background compaction may start.
    Quota,
    /// Whether there is something to compact.
    Preparation,
    /// What extensions say.
    Before,
    /// That the result of an extension was written.
    ApplyExtension(CompactionRecord),
    /// That the background worker was started.
    Launch,
    /// The result of a compaction at once.
    Compact,
    /// That the result of a compaction at once was written.
    ApplyResult(CompactionRecord),
    /// Nothing more.
    Done,
}

/// The mathematical value of [`CompactionPhase`].
#[verifier::ext_equal]
pub enum CompactionPhaseView {
    Worker,
    ApplyWorker(CompactionRecordView),
    Quota,
    Preparation,
    Before,
    ApplyExtension(CompactionRecordView),
    Launch,
    Compact,
    ApplyResult(CompactionRecordView),
    Done,
}

impl View for CompactionPhase {
    type V = CompactionPhaseView;

    open spec fn view(&self) -> CompactionPhaseView {
        match *self {
            CompactionPhase::Worker => CompactionPhaseView::Worker,
            CompactionPhase::ApplyWorker(r) => CompactionPhaseView::ApplyWorker(r@),
            CompactionPhase::Quota => CompactionPhaseView::Quota,
            CompactionPhase::Preparation => CompactionPhaseView::Preparation,
            CompactionPhase::Before => CompactionPhaseView::Before,
            CompactionPhase::ApplyExtension(r) => CompactionPhaseView::ApplyExtension(r@),
            CompactionPhase::Launch => CompactionPhaseView::Launch,
            CompactionPhase::Compact => CompactionPhaseView::Compact,
            CompactionPhase::ApplyResult(r) => CompactionPhaseView::ApplyResult(r@),
            CompactionPhase::Done => CompactionPhaseView::Done,
        }
    }
}

/// What the work of a compaction came to.
#[derive(Debug, PartialEq, Eq)]
pub enum CompactionWork {
    /// A result.
    Ready(CompactionRecord),
    /// A result that cannot be written down.
    Unreadable(Error),
    /// A failure.
    Failed(Error),
}

/// What extensions say before a compaction.
#[derive(Debug, PartialEq, Eq)]
pub struct BeforeCompact {
    pub cancel: bool,
    pub compaction: Option<CompactionRecord>,
}

/// What a compaction answers to.
#[derive(Debug, PartialEq, Eq)]
pub enum CompactionInput {
    /// What the background worker has to hand over, if anything.
    Worker(Option<CompactionWork>),
    /// Whether a result was written.
    Applied(Result<(), Error>),
    /// Whether another background compaction may start.
    Quota(bool),
    /// Whether there is something to compact.
    Preparation(Result<bool, Error>),
    /// What extensions say.
    Before(BeforeCompact),
    /// Whether the background worker was started.
    Launched(Result<(), Error>),
    /// The result of a compaction at once.
    Compacted(CompactionWork),
}

/// What a compaction asks for next.
#[derive(Debug, PartialEq, Eq)]
pub enum CompactionAction {
    /// Ask the background worker.
    PollWorker,
    /// Write a result to the session; the flag says whether an extension made it.
    Apply(CompactionRecord, bool),
    /// Ask whether another background compaction may start.
    CheckQuota,
    /// Find out whether there is something to compact.
    Prepare,
    /// Ask extensions.
    DispatchBefore,
    /// Start the background worker.
    Launch,
    /// Compact at once.
    Compact,
    /// The compaction is over, or has been left to the background worker.
    Finish(Result<(), Error>),
}

/// The mathematical value of [`CompactionAction`].
#[verifier::ext_equal]
pub enum CompactionActionView {
    PollWorker,
    Apply(CompactionRecordView, bool),
    CheckQuota,
    Prepare,
    DispatchBefore,
    Launch,
    Compact,
    Finished,
    Failed(ErrorView),
}

impl View for CompactionAction {
    type V = CompactionActionView;

    open spec fn view(&self) -> CompactionActionView {
        match *self {
            CompactionAction::PollWorker => CompactionActionView::PollWorker,
            CompactionAction::Apply(r, b) => CompactionActionView::Apply(r@, b),
            CompactionAction::CheckQuota => CompactionActionView::CheckQuota,
            CompactionAction::Prepare => CompactionActionView::Prepare,
            CompactionAction::DispatchBefore => CompactionActionView::DispatchBefore,
            CompactionAction::Launch => CompactionActionView::Launch,
            CompactionAction::Compact => CompactionActionView::Compact,
            CompactionAction::Finish(r) => match r {
                Ok(_) => CompactionActionView::Finished,
                Err(e) => CompactionActionView::Failed(e@),
            },
        }
    }
}

/// A compaction together with what it changes: whether the session counts as compacting, and the
/// events that were emitted. `forced` says that it is to happen at once.
#[verifier::ext_equal]
pub struct CompactionWorld {
    pub forced: bool,
    pub phase: CompactionPhaseView,
    pub compacting: bool,
    pub events: Seq<AgentEventView>,
}

impl CompactionWorld {
    /// This world in another phase.
    pub open spec fn in_phase(self, phase: CompactionPhaseView) -> CompactionWorld {
        CompactionWorld { phase, ..self }
    }

    /// This world with one more event.
    pub open spec fn with_event(self, event: AgentEventView) -> CompactionWorld {
        CompactionWorld { events: self.events.push(event), ..self }
    }

    /// This world with the session compacting or not.
    pub open spec fn compacting_is(self, compacting: bool) -> CompactionWorld {
        CompactionWorld { compacting, ..self }
    }

    /// This world at its end.
    pub open spec fn finished(self) -> (CompactionWorld, CompactionActionView) {
        (self.in_phase(CompactionPhaseView::Done), CompactionActionView::Finished)
    }

    /// This world at its end, with a failure.
    pub open spec fn failed(self, e: ErrorView) -> (CompactionWorld, CompactionActionView) {
        (self.in_phase(CompactionPhaseView::Done), CompactionActionView::Failed(e))
    }

    /// This world after an input that it does not wait for: the compaction is broken off, and the
    /// session is no longer at work on it.
    pub open spec fn out_of_step(self) -> (CompactionWorld, CompactionActionView) {
        self.compacting_is(self.compacting && !is_at_work(self.phase)).failed(
            ErrorView::Session("Compaction out of step"@),
        )
    }

    /// What an input does. An input that the phase does not wait for breaks the compaction off.
    pub open spec fn step(self, input: CompactionInput) -> (CompactionWorld, CompactionActionView) {
        match (self.phase, input) {
            (CompactionPhaseView::Worker, CompactionInput::Worker(work)) => match work {
                None => (
                    self.in_phase(CompactionPhaseView::Quota),
                    CompactionActionView::CheckQuota,
                ),
                Some(CompactionWork::Ready(r)) => (
                    self.compacting_is(false).in_phase(CompactionPhaseView::ApplyWorker(r@)),
                    CompactionActionView::Apply(r@, false),
                ),
                Some(CompactionWork::Unreadable(e)) => self.compacting_is(false).failed(e@),
                Some(CompactionWork::Failed(e)) => (
                    self.compacting_is(false).with_event(end_with_error(e@.text())).in_phase(
                        CompactionPhaseView::Quota,
                    ),
                    CompactionActionView::CheckQuota,
                ),
            },
            (CompactionPhaseView::ApplyWorker(r), CompactionInput::Applied(done)) => match done {
                Ok(_) => (
                    self.with_event(end_with_result(r)).in_phase(CompactionPhaseView::Quota),
                    CompactionActionView::CheckQuota,
                ),
                Err(e) => self.failed(e@),
            },
            (CompactionPhaseView::Quota, CompactionInput::Quota(free)) => if free {
                (self.in_phase(CompactionPhaseView::Preparation), CompactionActionView::Prepare)
            } else {
                self.finished()
            },
            (CompactionPhaseView::Preparation, CompactionInput::Preparation(found)) => match found {
                Err(e) => self.failed(e@),
                Ok(some) => if some {
                    (
                        self.with_event(start_of_compaction()).in_phase(
                            CompactionPhaseView::Before,
                        ),
                        CompactionActionView::DispatchBefore,
                    )
                } else {
                    self.finished()
                },
            },
            (CompactionPhaseView::Before, CompactionInput::Before(said)) => if said.cancel {
                let ended = self.with_event(end_cancelled());
                if self.forced {
                    ended.failed(ErrorView::Extension("Compaction cancelled"@))
                } else {
                    ended.finished()
                }
            } else {
                match said.compaction {
                    Some(r) => (
                        self.compacting_is(true).in_phase(
                            CompactionPhaseView::ApplyExtension(r@),
                        ),
                        CompactionActionView::Apply(r@, true),
                    ),
                    None => if self.forced {
                        (
                            self.compacting_is(true).in_phase(CompactionPhaseView::Compact),
                            CompactionActionView::Compact,
                        )
                    } else {
                        (self.in_phase(CompactionPhaseView::Launch), CompactionActionView::Launch)
                    },
                }
            },
            (CompactionPhaseView::ApplyExtension(r), CompactionInput::Applied(done)) => match done {
                Ok(_) => self.compacting_is(false).with_event(end_with_result(r)).finished(),
                Err(e) => self.compacting_is(false).failed(e@),
            },
            (CompactionPhaseView::Launch, CompactionInput::Launched(done)) => match done {
                Ok(_) => self.compacting_is(true).finished(),
                Err(e) => self.with_event(end_with_error(e@.text())).finished(),
            },
            (CompactionPhaseView::Compact, CompactionInput::Compacted(work)) => match work {
                CompactionWork::Ready(r) => (
                    self.compacting_is(false).in_phase(CompactionPhaseView::ApplyResult(r@)),
                    CompactionActionView::Apply(r@, false),
                ),
                CompactionWork::Unreadable(e) => self.compacting_is(false).failed(e@),
                CompactionWork::Failed(e) => self.compacting_is(false).with_event(
                    end_with_error(e@.text()),
                ).failed(e@),
            },
            (CompactionPhaseView::ApplyResult(r), CompactionInput::Applied(done)) => match done {
                Ok(_) => self.with_event(end_with_result(r)).finished(),
                Err(e) => self.failed(e@),
            },
            _ => self.out_of_step(),
        }
    }
}

/// A compaction of a session's history.
#[derive(Debug, PartialEq, Eq)]
pub struct SessionCompaction {
    pub forced: bool,
    pub phase: CompactionPhase,
}

/// The world that the parts of it make up.
pub open spec fn compaction_world(
    c: SessionCompaction,
    compacting: bool,
    out: Vec<AgentEvent>,
) -> CompactionWorld {
    CompactionWorld { forced: c.forced, phase: c.phase@, compacting, events: out.deep_view() }
}

fn emit_result(record: &CompactionRecord, out: &mut Vec<AgentEvent>)
    ensures
        final(out).deep_view() == old(out).deep_view().push(end_with_result(record@)),
{
    emit(
        out,
        AgentEvent::AutoCompactionEnd {
            result: Some(auto_compaction_result_payload(record)),
            aborted: false,
            will_retry: false,
            error_message: None,
        },
    );
}

fn emit_failure(text: String, out: &mut Vec<AgentEvent>)
    ensures
        final(out).deep_view() == old(out).deep_view().push(end_with_error(text@)),
{
    emit(
        out,
        AgentEvent::AutoCompactionEnd {
            result: None,
            aborted: false,
            will_retry: false,
            error_message: Some(text),
        },
    );
}

impl SessionCompaction {
    /// A compaction in the background, which first takes over what the worker has done: what it asks
    /// for first. A session that does not compact asks for nothing.
    pub fn background(enabled: bool) -> (r: (Self, CompactionAction))
        ensures
            !r.0.forced,
            r.0.phase@ == if enabled {
                CompactionPhaseView::Worker
            } else {
                CompactionPhaseView::Done
            },
            r.1@ == if enabled {
                CompactionActionView::PollWorker
            } else {
                CompactionActionView::Finished
            },
    {
        if enabled {
            (
                SessionCompaction { forced: false, phase: CompactionPhase::Worker },
                CompactionAction::PollWorker,
            )
        } else {
            (
                SessionCompaction { forced: false, phase: CompactionPhase::Done },
                CompactionAction::Finish(Ok(())),
            )
        }
    }

    /// A compaction at once: what it asks for first. A session that does not compact asks for
    /// nothing.
    pub fn synchronous(enabled: bool) -> (r: (Self, CompactionAction))
        ensures
            r.0.forced,
            r.0.phase@ == if enabled {
                CompactionPhaseView::Preparation
            } else {
                CompactionPhaseView::Done
            },
            r.1@ == if enabled {
                CompactionActionView::Prepare
            } else {
                CompactionActionView::Finished
            },
    {
        if enabled {
            (
                SessionCompaction { forced: true, phase: CompactionPhase::Preparation },
                CompactionAction::Prepare,
            )
        } else {
            (
                SessionCompaction { forced: true, phase: CompactionPhase::Done },
                CompactionAction::Finish(Ok(())),
            )
        }
    }

    /// Takes one step of a compaction.
    pub fn step(
        &mut self,
        input: CompactionInput,
        compacting: &mut bool,
        out: &mut Vec<AgentEvent>,
    ) -> (action: CompactionAction)
        ensures
            (compaction_world(*final(self), *final(compacting), *final(out)), action@)
                == compaction_world(*old(self), *old(compacting), *old(out)).step(input),
    {
        let mut phase = CompactionPhase::Done;
        std::mem::swap(&mut phase, &mut self.phase);
        match (phase, input) {
            (CompactionPhase::Worker, CompactionInput::Worker(work)) => match work {
                None => {
                    self.phase = CompactionPhase::Quota;
                    CompactionAction::CheckQuota
                },
                Some(CompactionWork::Ready(r)) => {
                    *compacting = false;
                    self.phase = CompactionPhase::ApplyWorker(r.clone());
                    CompactionAction::Apply(r, false)
                },
                Some(CompactionWork::Unreadable(e)) => {
                    *compacting = false;
                    CompactionAction::Finish(Err(e))
                },
                Some(CompactionWork::Failed(e)) => {
                    *compacting = false;
                    emit_failure(e.message(), out);
                    self.phase = CompactionPhase::Quota;
                    CompactionAction::CheckQuota
                },
            },
            (CompactionPhase::ApplyWorker(r), CompactionInput::Applied(done)) => match done {
                Ok(_) => {
                    emit_result(&r, out);
                    self.phase = CompactionPhase::Quota;
                    CompactionAction::CheckQuota
                },
                Err(e) => CompactionAction::Finish(Err(e)),
            },
            (CompactionPhase::Quota, CompactionInput::Quota(free)) => {
                if free {
                    self.phase = CompactionPhase::Preparation;
                    CompactionAction::Prepare
                } else {
                    CompactionAction::Finish(Ok(()))
                }
            },
            (CompactionPhase::Preparation, CompactionInput::Preparation(found)) => match found {
                Err(e) => CompactionAction::Finish(Err(e)),
                Ok(some) => {
                    if some {
                        emit(
                            out,
                            AgentEvent::AutoCompactionStart { reason: owned("threshold") },
                        );
                        self.phase = CompactionPhase::Before;
                        CompactionAction::DispatchBefore
                    } else {
                        CompactionAction::Finish(Ok(()))
                    }
                },
            },
            (CompactionPhase::Before, CompactionInput::Before(said)) => {
                if said.cancel {
                    emit(
                        out,
                        AgentEvent::AutoCompactionEnd {
                            result: None,
                            aborted: true,
                            will_retry: false,
                            error_message: None,
                        },
                    );
                    if self.forced {
                        CompactionAction::Finish(
                            Err(Error::Extension(owned("Compaction cancelled"))),
                        )
                    } else {
                        CompactionAction::Finish(Ok(()))
                    }
                } else {
                    match said.compaction {
                        Some(r) => {
                            *compacting = true;
                            self.phase = CompactionPhase::ApplyExtension(r.clone());
                            CompactionAction::Apply(r, true)
                        },
                        None => {
                            if self.forced {
                                *compacting = true;
                                self.phase = CompactionPhase::Compact;
                                CompactionAction::Compact
                            } else {
                                self.phase = CompactionPhase::Launch;
                                CompactionAction::Launch
                            }
                        },
                    }
                }
            },
            (CompactionPhase::ApplyExtension(r), CompactionInput::Applied(done)) => {
                *compacting = false;
                match done {
                    Ok(_) => {
                        emit_result(&r, out);
                        CompactionAction::Finish(Ok(()))
                    },
                    Err(e) => CompactionAction::Finish(Err(e)),
                }
            },
            (CompactionPhase::Launch, CompactionInput::Launched(done)) => match done {
                Ok(_) => {
                    *compacting = true;
                    CompactionAction::Finish(Ok(()))
                },
                Err(e) => {
                    emit_failure(e.message(), out);
                    CompactionAction::Finish(Ok(()))
                },
            },
            (CompactionPhase::Compact, CompactionInput::Compacted(work)) => {
                *compacting = false;
                match work {
                    CompactionWork::Ready(r) => {
                        self.phase = CompactionPhase::ApplyResult(r.clone());
                        CompactionAction::Apply(r, false)
                    },
                    CompactionWork::Unreadable(e) => CompactionAction::Finish(Err(e)),
                    CompactionWork::Failed(e) => {
                        emit_failure(e.message(), out);
                        CompactionAction::Finish(Err(e))
                    },
                }
            },
            (CompactionPhase::ApplyResult(r), CompactionInput::Applied(done)) => match done {
                Ok(_) => {
                    emit_result(&r, out);
                    CompactionAction::Finish(Ok(()))
                },
                Err(e) => CompactionAction::Finish(Err(e)),
            },
            (CompactionPhase::ApplyExtension(_), _) | (CompactionPhase::Compact, _) => {
                *compacting = false;
                CompactionAction::Finish(Err(Error::Session(owned("Compaction out of step"))))
            },
            _ => CompactionAction::Finish(Err(Error::Session(owned("Compaction out of step")))),
        }
    }
}

/// How many of the events say that a compaction starts.
pub open spec fn starts_in(events: Seq<AgentEventView>) -> nat
    decreases events.len(),
{
    if events.len() == 0 {
        0
    } else {
        starts_in(events.drop_last()) + if events.last() is AutoCompactionStart {
            1nat
        } else {
            0nat
        }
    }
}

/// How many of the events say that a compaction ends.
pub open spec fn ends_in(events: Seq<AgentEventView>) -> nat
    decreases events.len(),
{
    if events.len() == 0 {
        0
    } else {
        ends_in(events.drop_last()) + if events.last() is AutoCompactionEnd {
            1nat
        } else {
            0nat
        }
    }
}

proof fn lemma_push_counts(events: Seq<AgentEventView>, event: AgentEventView)
    ensures
        starts_in(events.push(event)) == starts_in(events) + if event is AutoCompactionStart {
            1nat
        } else {
            0nat
        },
        ends_in(events.push(event)) == ends_in(events) + if event is AutoCompactionEnd {
            1nat
        } else {
            0nat
        },
{
    assert(events.push(event).drop_last() =~= events);
}

/// Whether a start was announced of which the end is still due.
pub open spec fn is_open(phase: CompactionPhaseView) -> bool {
    match phase {
        CompactionPhaseView::Before
        | CompactionPhaseView::ApplyExtension(_)
        | CompactionPhaseView::Launch
        | CompactionPhaseView::Compact
        | CompactionPhaseView::ApplyResult(_) => true,
        _ => false,
    }
}

/// How many ends are due in a phase.
pub open spec fn ends_due(phase: CompactionPhaseView) -> nat {
    if is_open(phase) {
        1
    } else {
        0
    }
}

/// Whether an input is one that the phase waits for.
pub open spec fn awaits(phase: CompactionPhaseView, input: CompactionInput) -> bool {
    match (phase, input) {
        (CompactionPhaseView::Worker, CompactionInput::Worker(_)) => true,
        (CompactionPhaseView::ApplyWorker(_), CompactionInput::Applied(_)) => true,
        (CompactionPhaseView::Quota, CompactionInput::Quota(_)) => true,
        (CompactionPhaseView::Preparation, CompactionInput::Preparation(_)) => true,
        (CompactionPhaseView::Before, CompactionInput::Before(_)) => true,
        (CompactionPhaseView::ApplyExtension(_), CompactionInput::Applied(_)) => true,
        (CompactionPhaseView::Launch, CompactionInput::Launched(_)) => true,
        (CompactionPhaseView::Compact, CompactionInput::Compacted(_)) => true,
        (CompactionPhaseView::ApplyResult(_), CompactionInput::Applied(_)) => true,
        _ => false,
    }
}

/// Whether the session is at work on a compaction in a phase.
pub open spec fn is_at_work(phase: CompactionPhaseView) -> bool {
    phase is ApplyExtension || phase is Compact
}

/// A compaction at once announces its start once and, unless it fails, its end once; a failure is
/// announced at most once. The session counts as compacting exactly while it is at work, and never
/// afterwards.
pub proof fn forced_compaction_ends_what_it_starts(w: CompactionWorld, input: CompactionInput)
    requires
        w.forced,
        awaits(w.phase, input),
        match w.phase {
            CompactionPhaseView::Preparation
            | CompactionPhaseView::Before
            | CompactionPhaseView::ApplyExtension(_)
            | CompactionPhaseView::Compact
            | CompactionPhaseView::ApplyResult(_) => true,
            _ => false,
        },
        w.compacting == is_at_work(w.phase),
    ensures
        ({
            let (next, action) = w.step(input);
            let started = starts_in(next.events) - starts_in(w.events);
            let ended = ends_in(next.events) - ends_in(w.events);
            &&& next.forced
            &&& next.compacting == is_at_work(next.phase)
            &&& next.phase is Done <==> action is Finished || action is Failed
            &&& !(action is Failed) ==> ends_due(next.phase) + ended == ends_due(w.phase) + started
            &&& action is Failed ==> started == 0 && 0 <= ended <= ends_due(w.phase)
        }),
{
    lemma_push_counts(w.events, start_of_compaction());
    lemma_push_counts(w.events, end_cancelled());
    match (w.phase, input) {
        (CompactionPhaseView::ApplyExtension(r), CompactionInput::Applied(done)) => {
            lemma_push_counts(w.events, end_with_result(r));
        },
        (CompactionPhaseView::ApplyResult(r), CompactionInput::Applied(done)) => {
            lemma_push_counts(w.events, end_with_result(r));
        },
        (CompactionPhaseView::Compact, CompactionInput::Compacted(work)) => {
            if let CompactionWork::Failed(e) = work {
                lemma_push_counts(w.events, end_with_error(e@.text()));
            }
        },
        _ => {},
    }
}

/// A compaction in the background leaves the session compacting exactly if it has just started the
/// worker, and takes that back as soon as the worker hands something over.
pub proof fn background_compaction_follows_its_worker(w: CompactionWorld, input: CompactionInput)
    requires
        !w.forced,
        awaits(w.phase, input),
        !(w.phase is Compact),
    ensures
        ({
            let (next, action) = w.step(input);
            &&& w.phase is Launch ==> action is Finished && next.compacting == (w.compacting
                || input->Launched_0 is Ok)
            &&& input matches CompactionInput::Worker(work) ==> next.compacting == (w.compacting
                && work is None)
            &&& !(w.phase is Launch) && !(input is Worker) && !(input is Before) && !(
            w.phase is ApplyExtension) ==> next.compacting == w.compacting
            &&& !(action is Compact)
        }),
{
}

} // verus!
