//! The tool calls of one response: in which order they run, what is reported of them and what
//! becomes of calls that do not run.
use std::sync::Arc;
use vstd::prelude::*;

use crate::agent::{effects_of, Agent, AgentView, ToolInfoView};
use crate::clock::now_millis;
use crate::effects::{is_batch_plan, plan_tool_effect_batches, ToolEffectBatch, ToolEffects};
use crate::event::{emit, AgentEvent, AgentEventView};
use crate::model::{
    error_output, push_message, Message, MessageView, ToolCall, ToolCallView, ToolOutput,
    ToolOutputView, ToolResultMessage, ToolResultMessageView,
};
use crate::queue::QueueKind;
use crate::text::owned;

verus! {

/// What a finished tool call hands back: the position of the call, its output, and whether it
/// failed.
#[derive(Debug, PartialEq, Eq)]
pub struct FinishedCall {
    pub index: usize,
    pub output: ToolOutput,
    pub is_error: bool,
}

/// The mathematical value of [`FinishedCall`].
#[verifier::ext_equal]
pub struct FinishedCallView {
    pub index: usize,
    pub output: ToolOutputView,
    pub is_error: bool,
}

impl View for FinishedCall {
    type V = FinishedCallView;

    open spec fn view(&self) -> FinishedCallView {
        FinishedCallView { index: self.index, output: self.output@, is_error: self.is_error }
    }
}

impl DeepView for FinishedCall {
    type V = FinishedCallView;

    open spec fn deep_view(&self) -> FinishedCallView {
        self@
    }
}

/// What the tool calls of a response wait for.
#[derive(Debug, Clone, Copy, PartialEq, Eq, Structural)]
pub enum ToolPhase {
    /// Whether the run was aborted, before a batch.
    BatchAbort,
    /// Steering messages, before a batch.
    BatchSteering,
    /// The calls of a batch.
    Batch,
    /// Whether the run was aborted, before a call is settled.
    SettleAbort,
    /// Steering messages, before a call is settled.
    SettleSteering,
    /// Nothing more.
    Done,
}

/// The tool calls of one response while they run.
#[derive(Debug)]
pub struct ToolRun {
    pub calls: Vec<ToolCall>,
    pub batches: Vec<ToolEffectBatch>,
    /// How many batches have run.
    pub next_batch: usize,
    /// The results of the calls that ran.
    pub recorded: Vec<Option<Arc<ToolResultMessage>>>,
    /// Steering messages that interrupted the calls.
    pub steering: Option<Vec<Message>>,
    /// The results of the calls that are settled, in order.
    pub results: Vec<Arc<ToolResultMessage>>,
    pub phase: ToolPhase,
}

/// The mathematical value of [`ToolRun`].
#[verifier::ext_equal]
pub struct ToolRunView {
    pub calls: Seq<ToolCallView>,
    pub batches: Seq<ToolEffectBatch>,
    pub next_batch: nat,
    pub recorded: Seq<Option<ToolResultMessageView>>,
    pub steering: Option<Seq<MessageView>>,
    pub results: Seq<ToolResultMessageView>,
    pub phase: ToolPhase,
}

/// The value of an optional result.
pub open spec fn opt_result(r: Option<Arc<ToolResultMessage>>) -> Option<ToolResultMessageView> {
    match r {
        Some(m) => Some(m@),
        None => None,
    }
}

/// The values of optional results.
pub open spec fn opt_results(rs: Seq<Option<Arc<ToolResultMessage>>>) -> Seq<
    Option<ToolResultMessageView>,
> {
    rs.map_values(|r: Option<Arc<ToolResultMessage>>| opt_result(r))
}

/// The values of results.
pub open spec fn result_views(rs: Seq<Arc<ToolResultMessage>>) -> Seq<ToolResultMessageView> {
    rs.map_values(|r: Arc<ToolResultMessage>| r@)
}

/// The values of optional messages.
pub open spec fn opt_messages(ms: Option<Vec<Message>>) -> Option<Seq<MessageView>> {
    match ms {
        Some(v) => Some(v.deep_view()),
        None => None,
    }
}

impl View for ToolRun {
    type V = ToolRunView;

    open spec fn view(&self) -> ToolRunView {
        ToolRunView {
            calls: self.calls.deep_view(),
            batches: self.batches@,
            next_batch: self.next_batch as nat,
            recorded: opt_results(self.recorded@),
            steering: opt_messages(self.steering),
            results: result_views(self.results@),
            phase: self.phase,
        }
    }
}

impl ToolRunView {
    /// Every call has a place for its result, and no more calls are settled than there are.
    pub open spec fn wf(self) -> bool {
        &&& self.recorded.len() == self.calls.len()
        &&& self.results.len() <= self.calls.len()
        &&& self.next_batch <= self.batches.len()
        &&& self.phase == ToolPhase::BatchAbort || self.phase == ToolPhase::BatchSteering
            || self.phase == ToolPhase::Batch ==> self.next_batch < self.batches.len()
        &&& self.phase == ToolPhase::SettleAbort || self.phase == ToolPhase::SettleSteering
            ==> self.results.len() < self.calls.len()
    }
}

/// What the tool calls of a response answer to.
#[derive(Debug, PartialEq, Eq)]
pub enum ToolInput {
    /// Whether the run was aborted.
    Abort(bool),
    /// What the steering fetchers brought.
    Steering(Vec<Message>),
    /// The calls of a batch that finished; none if the batch was aborted.
    Batch(Vec<FinishedCall>),
}

/// The mathematical value of [`ToolInput`].
#[verifier::ext_equal]
pub enum ToolInputView {
    Abort(bool),
    Steering(Seq<MessageView>),
    Batch(Seq<FinishedCallView>),
}

impl View for ToolInput {
    type V = ToolInputView;

    open spec fn view(&self) -> ToolInputView {
        match *self {
            ToolInput::Abort(b) => ToolInputView::Abort(b),
            ToolInput::Steering(ms) => ToolInputView::Steering(ms.deep_view()),
            ToolInput::Batch(items) => ToolInputView::Batch(items.deep_view()),
        }
    }
}

/// What the tool calls of a response ask for next.
#[derive(Debug, Clone, Copy, PartialEq, Eq, Structural)]
pub enum ToolAction {
    /// Say whether the run was aborted.
    CheckAbort,
    /// Fetch steering messages.
    FetchSteering,
    /// Run the calls of a batch side by side.
    RunBatch(ToolEffectBatch),
    /// All calls are settled.
    Finish,
}

/// The result of a call as a message.
pub open spec fn result_message(
    call: ToolCallView,
    output: ToolOutputView,
    is_error: bool,
    now: i64,
) -> ToolResultMessageView {
    ToolResultMessageView {
        tool_call_id: call.id,
        tool_name: call.name,
        content: output.content,
        details: output.details,
        is_error,
        timestamp: now,
    }
}

/// What is reported of a call that is over.
pub open spec fn result_events(
    call: ToolCallView,
    output: ToolOutputView,
    is_error: bool,
    now: i64,
) -> Seq<AgentEventView> {
    let shown = ToolOutputView { is_error, ..output };
    let message = MessageView::ToolResult(result_message(call, output, is_error, now));
    seq![
        AgentEventView::ToolExecutionUpdate {
            tool_call_id: call.id,
            tool_name: call.name,
            args: call.arguments,
            partial_result: shown,
        },
        AgentEventView::ToolExecutionEnd {
            tool_call_id: call.id,
            tool_name: call.name,
            result: shown,
            is_error,
        },
        AgentEventView::MessageStart { message },
        AgentEventView::MessageEnd { message },
    ]
}

/// What the announcement of a call says.
pub open spec fn start_event(call: ToolCallView) -> AgentEventView {
    AgentEventView::ToolExecutionStart {
        tool_call_id: call.id,
        tool_name: call.name,
        args: call.arguments,
    }
}

/// The tool calls together with all that they change: the agent, the new messages of the run and
/// the events that were emitted.
#[verifier::ext_equal]
pub struct ToolWorld {
    pub run: ToolRunView,
    pub agent: AgentView,
    pub new_messages: Seq<MessageView>,
    pub events: Seq<AgentEventView>,
}

impl ToolWorld {
    /// This world after the result of a call was reported.
    pub open spec fn reported(
        self,
        call: ToolCallView,
        output: ToolOutputView,
        is_error: bool,
        now: i64,
    ) -> ToolWorld {
        let message = MessageView::ToolResult(result_message(call, output, is_error, now));
        ToolWorld {
            agent: AgentView { messages: self.agent.messages.push(message), ..self.agent },
            new_messages: self.new_messages.push(message),
            events: self.events + result_events(call, output, is_error, now),
            ..self
        }
    }

    /// This world in another phase.
    pub open spec fn in_phase(self, phase: ToolPhase) -> ToolWorld {
        ToolWorld { run: ToolRunView { phase, ..self.run }, ..self }
    }

    /// This world after the result of a finished call was recorded. A result for a call that does
    /// not exist is ignored.
    pub open spec fn recorded(self, item: FinishedCallView, now: i64) -> ToolWorld {
        if item.index < self.run.calls.len() {
            let i = item.index as int;
            let call = self.run.calls[i];
            let next = self.reported(call, item.output, item.is_error, now);
            ToolWorld {
                run: ToolRunView {
                    recorded: self.run.recorded.update(
                        i,
                        Some(result_message(call, item.output, item.is_error, now)),
                    ),
                    ..next.run
                },
                ..next
            }
        } else {
            self
        }
    }

    /// This world after those of the finished calls that are for call `k` were recorded.
    pub open spec fn recorded_for(self, items: Seq<FinishedCallView>, k: int, now: i64) -> ToolWorld
        decreases items.len(),
    {
        if items.len() == 0 {
            self
        } else {
            let before = self.recorded_for(items.drop_last(), k, now);
            if items.last().index == k {
                before.recorded(items.last(), now)
            } else {
                before
            }
        }
    }

    /// This world after the finished calls were recorded, those of the first `n` calls, in the order
    /// of the calls.
    pub open spec fn recorded_upto(self, items: Seq<FinishedCallView>, n: nat, now: i64) -> ToolWorld
        decreases n,
    {
        if n == 0 {
            self
        } else {
            self.recorded_upto(items, (n - 1) as nat, now).recorded_for(items, n - 1, now)
        }
    }

    /// This world after the next call was settled: with its result if it ran, as skipped if steering
    /// interrupted the calls, and as aborted otherwise.
    pub open spec fn settled(self, now: i64) -> ToolWorld {
        let i = self.run.results.len() as int;
        let call = self.run.calls[i];
        match self.run.recorded[i] {
            Some(result) => ToolWorld {
                run: ToolRunView { results: self.run.results.push(result), ..self.run },
                ..self
            },
            None => {
                let output = error_output(
                    if self.run.steering is Some {
                        "Skipped due to queued user message."@
                    } else {
                        "Tool execution aborted"@
                    },
                );
                let next = self.reported(call, output, true, now);
                ToolWorld {
                    run: ToolRunView {
                        results: self.run.results.push(result_message(call, output, true, now)),
                        ..next.run
                    },
                    ..next
                }
            },
        }
    }

    /// This world on its way through the calls that are not settled: while nothing has interrupted
    /// the calls, each is settled only after another look for an abort and for steering.
    pub open spec fn settling(self, now: i64) -> (ToolWorld, ToolAction)
        decreases self.run.calls.len() - self.run.results.len(),
    {
        if self.run.results.len() >= self.run.calls.len() {
            (self.in_phase(ToolPhase::Done), ToolAction::Finish)
        } else if self.run.steering is None {
            (self.in_phase(ToolPhase::SettleAbort), ToolAction::CheckAbort)
        } else {
            self.settled(now).settling(now)
        }
    }

    /// This world on its way to the next batch, or to settling the calls if there is none.
    pub open spec fn next_batch(self, now: i64) -> (ToolWorld, ToolAction) {
        if self.run.next_batch < self.run.batches.len() {
            (self.in_phase(ToolPhase::BatchAbort), ToolAction::CheckAbort)
        } else {
            self.settling(now)
        }
    }

    /// This world after a steering delivery; an empty delivery interrupts nothing.
    pub open spec fn steered(self, fetched: Seq<MessageView>) -> ToolWorld {
        let delivery = self.agent.drained(QueueKind::Steering, fetched);
        ToolWorld {
            run: ToolRunView {
                steering: if delivery.len() > 0 {
                    Some(delivery)
                } else {
                    self.run.steering
                },
                ..self.run
            },
            agent: self.agent.after_drain(QueueKind::Steering, fetched),
            ..self
        }
    }

    /// What an input does. An input that the phase does not wait for changes nothing and asks for
    /// the same thing again.
    pub open spec fn step(self, input: ToolInputView, now: i64) -> (ToolWorld, ToolAction) {
        match (self.run.phase, input) {
            (ToolPhase::BatchAbort, ToolInputView::Abort(aborted)) => if aborted {
                self.settling(now)
            } else {
                (self.in_phase(ToolPhase::BatchSteering), ToolAction::FetchSteering)
            },
            (ToolPhase::BatchSteering, ToolInputView::Steering(fetched)) => {
                let next = self.steered(fetched);
                if self.agent.drained(QueueKind::Steering, fetched).len() > 0 {
                    next.settling(now)
                } else {
                    (
                        next.in_phase(ToolPhase::Batch),
                        ToolAction::RunBatch(self.run.batches[self.run.next_batch as int]),
                    )
                }
            },
            (ToolPhase::Batch, ToolInputView::Batch(items)) => {
                let next = self.recorded_upto(items, self.run.calls.len(), now);
                ToolWorld {
                    run: ToolRunView { next_batch: self.run.next_batch + 1, ..next.run },
                    ..next
                }.next_batch(now)
            },
            (ToolPhase::SettleAbort, ToolInputView::Abort(aborted)) => if aborted {
                self.settled(now).settling(now)
            } else {
                (self.in_phase(ToolPhase::SettleSteering), ToolAction::FetchSteering)
            },
            (ToolPhase::SettleSteering, ToolInputView::Steering(fetched)) => {
                self.steered(fetched).settled(now).settling(now)
            },
            _ => (self, self.expected()),
        }
    }

    /// What the phase waits for.
    pub open spec fn expected(self) -> ToolAction {
        match self.run.phase {
            ToolPhase::BatchAbort | ToolPhase::SettleAbort => ToolAction::CheckAbort,
            ToolPhase::BatchSteering | ToolPhase::SettleSteering => ToolAction::FetchSteering,
            ToolPhase::Batch => ToolAction::RunBatch(
                self.run.batches[self.run.next_batch as int],
            ),
            ToolPhase::Done => ToolAction::Finish,
        }
    }
}

/// The world that the parts of it make up.
pub open spec fn tool_world(
    run: ToolRun,
    agent: Agent,
    new_messages: Vec<Message>,
    out: Vec<AgentEvent>,
) -> ToolWorld {
    ToolWorld {
        run: run@,
        agent: agent@,
        new_messages: new_messages.deep_view(),
        events: out.deep_view(),
    }
}

/// The announcements of calls.
pub open spec fn start_events(calls: Seq<ToolCallView>) -> Seq<AgentEventView> {
    calls.map_values(|c: ToolCallView| start_event(c))
}

/// Tool calls of which nothing has run: all of them are announced.
pub open spec fn tools_started(
    calls: Seq<ToolCallView>,
    batches: Seq<ToolEffectBatch>,
    agent: AgentView,
    new_messages: Seq<MessageView>,
    events: Seq<AgentEventView>,
) -> (ToolWorld, ToolAction) {
    let world = ToolWorld {
        run: ToolRunView {
            calls,
            batches,
            next_batch: 0,
            recorded: Seq::new(calls.len(), |i: int| None),
            steering: None,
            results: Seq::empty(),
            phase: ToolPhase::Done,
        },
        agent,
        new_messages,
        events: events + start_events(calls),
    };
    if calls.len() > 0 {
        (world.in_phase(ToolPhase::BatchAbort), ToolAction::CheckAbort)
    } else {
        (world, ToolAction::Finish)
    }
}

/// The effects of calls.
pub open spec fn call_effects(tools: Seq<ToolInfoView>, calls: Seq<ToolCallView>) -> Seq<
    ToolEffects,
> {
    calls.map_values(|c: ToolCallView| effects_of(tools, c.name))
}

impl Agent {
    /// Reports the result of a call: as events, in the history and among the new messages.
    pub fn report_tool_result(
        &mut self,
        call: &ToolCall,
        output: ToolOutput,
        is_error: bool,
        now: i64,
        new_messages: &mut Vec<Message>,
        out: &mut Vec<AgentEvent>,
    ) -> (r: Arc<ToolResultMessage>)
        ensures
            r@ == result_message(call@, output@, is_error, now),
            final(self)@ == (AgentView {
                messages: old(self)@.messages.push(MessageView::ToolResult(r@)),
                ..old(self)@
            }),
            final(new_messages).deep_view() == old(new_messages).deep_view().push(
                MessageView::ToolResult(r@),
            ),
            final(out).deep_view() == old(out).deep_view() + result_events(
                call@,
                output@,
                is_error,
                now,
            ),
            old(self).wf() ==> final(self).wf(),
    {
        let ghost before = out.deep_view();
        let mut shown = output.clone();
        shown.is_error = is_error;
        emit(
            out,
            AgentEvent::ToolExecutionUpdate {
                tool_call_id: call.id.clone(),
                tool_name: call.name.clone(),
                args: call.arguments.clone(),
                partial_result: shown.clone(),
            },
        );
        emit(
            out,
            AgentEvent::ToolExecutionEnd {
                tool_call_id: call.id.clone(),
                tool_name: call.name.clone(),
                result: shown,
                is_error,
            },
        );
        let result = Arc::new(
            ToolResultMessage {
                tool_call_id: call.id.clone(),
                tool_name: call.name.clone(),
                content: output.content,
                details: output.details,
                is_error,
                timestamp: now,
            },
        );
        push_message(&mut self.messages, Message::ToolResult(Arc::clone(&result)));
        emit(out, AgentEvent::MessageStart { message: Message::ToolResult(Arc::clone(&result)) });
        push_message(new_messages, Message::ToolResult(Arc::clone(&result)));
        emit(out, AgentEvent::MessageEnd { message: Message::ToolResult(Arc::clone(&result)) });
        assert(out.deep_view() =~= before + result_events(call@, output@, is_error, now));
        result
    }
}

impl ToolRun {
    /// Announces the calls of a response and plans their batches.
    pub fn start(
        calls: Vec<ToolCall>,
        agent: &mut Agent,
        new_messages: &mut Vec<Message>,
        out: &mut Vec<AgentEvent>,
    ) -> (r: (ToolRun, ToolAction))
        ensures
            r.0@.wf(),
            r.0@.calls == calls.deep_view(),
            is_batch_plan(
                call_effects(old(agent)@.tools, calls.deep_view()),
                r.0@.batches,
                calls@.len() as int,
            ),
            (tool_world(r.0, *final(agent), *final(new_messages), *final(out)), r.1) == tools_started(
                calls.deep_view(),
                r.0@.batches,
                old(agent)@,
                old(new_messages).deep_view(),
                old(out).deep_view(),
            ),
            old(agent).wf() ==> final(agent).wf(),
    {
        let ghost before = out.deep_view();
        let ghost all = calls.deep_view();
        let ghost starts = all.map_values(|c: ToolCallView| start_event(c));
        let mut effects: Vec<ToolEffects> = Vec::new();
        let mut recorded: Vec<Option<Arc<ToolResultMessage>>> = Vec::new();
        let mut i: usize = 0;
        assert(before + starts.take(0) =~= before);
        while i < calls.len()
            invariant
                i <= calls@.len(),
                all == calls.deep_view(),
                starts == all.map_values(|c: ToolCallView| start_event(c)),
                effects@.len() == i,
                recorded@.len() == i,
                out.deep_view() == before + starts.take(i as int),
                forall|j: int|
                    0 <= j < i ==> #[trigger] effects@[j] == effects_of(agent@.tools, all[j].name),
                forall|j: int| 0 <= j < i ==> (#[trigger] recorded@[j]) is None,
            decreases calls@.len() - i,
        {
            emit(
                out,
                AgentEvent::ToolExecutionStart {
                    tool_call_id: calls[i].id.clone(),
                    tool_name: calls[i].name.clone(),
                    args: calls[i].arguments.clone(),
                },
            );
            effects.push(agent.tool_effects(&calls[i].name));
            recorded.push(None);
            assert(starts.take(i + 1) =~= starts.take(i as int).push(starts[i as int]));
            assert(before + starts.take(i + 1) =~= (before + starts.take(i as int)).push(
                starts[i as int],
            ));
            i += 1;
        }
        assert(starts.take(i as int) =~= starts);
        assert(effects@ =~= call_effects(agent@.tools, all));
        let batches = plan_tool_effect_batches(effects.as_slice());
        let empty = calls.len() == 0;
        let run = ToolRun {
            calls,
            batches,
            next_batch: 0,
            recorded,
            steering: None,
            results: Vec::new(),
            phase: if empty {
                ToolPhase::Done
            } else {
                ToolPhase::BatchAbort
            },
        };
        assert(run@.recorded =~= Seq::new(calls@.len() as nat, |i: int| None));
        assert(run@.results =~= Seq::empty());
        if empty {
            (run, ToolAction::Finish)
        } else {
            (run, ToolAction::CheckAbort)
        }
    }

    fn record(
        &mut self,
        item: &FinishedCall,
        agent: &mut Agent,
        now: i64,
        new_messages: &mut Vec<Message>,
        out: &mut Vec<AgentEvent>,
    )
        requires
            old(self)@.wf(),
        ensures
            tool_world(*final(self), *final(agent), *final(new_messages), *final(out))
                == tool_world(*old(self), *old(agent), *old(new_messages), *old(out)).recorded(
                item@,
                now,
            ),
            final(self)@.wf(),
            old(agent).wf() ==> final(agent).wf(),
            final(self)@.calls == old(self)@.calls,
    {
        let ghost w = tool_world(*self, *agent, *new_messages, *out);
        if item.index < self.calls.len() {
            let at: usize = item.index;
            assert(self@.recorded.len() == self.recorded@.len());
            let result = agent.report_tool_result(
                &self.calls[at],
                item.output.clone(),
                item.is_error,
                now,
                new_messages,
                out,
            );
            let ghost shown = result@;
            self.recorded.set(at, Some(result));
            assert(self@.recorded =~= w.run.recorded.update(at as int, Some(shown)));
        }
    }

    fn record_all(
        &mut self,
        items: &Vec<FinishedCall>,
        agent: &mut Agent,
        now: i64,
        new_messages: &mut Vec<Message>,
        out: &mut Vec<AgentEvent>,
    )
        requires
            old(self)@.wf(),
        ensures
            tool_world(*final(self), *final(agent), *final(new_messages), *final(out))
                == tool_world(*old(self), *old(agent), *old(new_messages), *old(out)).recorded_upto(
                items.deep_view(),
                old(self)@.calls.len(),
                now,
            ),
            final(self)@.wf(),
            old(agent).wf() ==> final(agent).wf(),
    {
        let ghost w = tool_world(*self, *agent, *new_messages, *out);
        let ghost all = items.deep_view();
        let mut k: usize = 0;
        while k < self.calls.len()
            invariant
                k <= self.calls@.len(),
                all == items.deep_view(),
                self@.wf(),
                self@.calls == w.run.calls,
                old(agent).wf() ==> agent.wf(),
                tool_world(*self, *agent, *new_messages, *out) == w.recorded_upto(
                    all,
                    k as nat,
                    now,
                ),
            decreases self.calls@.len() - k,
        {
            let ghost wk = tool_world(*self, *agent, *new_messages, *out);
            let mut j: usize = 0;
            assert(all.take(0) =~= Seq::empty());
            while j < items.len()
                invariant
                    j <= items@.len(),
                    k < self.calls@.len(),
                    all == items.deep_view(),
                    self@.wf(),
                    self@.calls == w.run.calls,
                    old(agent).wf() ==> agent.wf(),
                    tool_world(*self, *agent, *new_messages, *out) == wk.recorded_for(
                        all.take(j as int),
                        k as int,
                        now,
                    ),
                decreases items@.len() - j,
            {
                proof {
                    let next = all.take(j + 1);
                    assert(next.drop_last() =~= all.take(j as int));
                    assert(next.last() == items@[j as int]@);
                }
                if items[j].index == k {
                    self.record(&items[j], agent, now, new_messages, out);
                }
                j += 1;
            }
            assert(all.take(j as int) =~= all);
            k += 1;
        }
    }

    fn settle(
        &mut self,
        agent: &mut Agent,
        now: i64,
        new_messages: &mut Vec<Message>,
        out: &mut Vec<AgentEvent>,
    )
        requires
            old(self)@.wf(),
            old(self)@.results.len() < old(self)@.calls.len(),
        ensures
            tool_world(*final(self), *final(agent), *final(new_messages), *final(out))
                == tool_world(*old(self), *old(agent), *old(new_messages), *old(out)).settled(now),
            final(self)@.calls == old(self)@.calls,
            final(self)@.recorded == old(self)@.recorded,
            final(self)@.batches == old(self)@.batches,
            final(self)@.next_batch == old(self)@.next_batch,
            final(self)@.phase == old(self)@.phase,
            final(self)@.steering == old(self)@.steering,
            final(self)@.results.len() == old(self)@.results.len() + 1,
            old(agent).wf() ==> final(agent).wf(),
    {
        let ghost w = tool_world(*self, *agent, *new_messages, *out);
        let at: usize = self.results.len();
        assert(self@.recorded.len() == self.recorded@.len());
        assert(self@.recorded[at as int] == opt_result(self.recorded@[at as int]));
        let result = match &self.recorded[at] {
            Some(result) => Arc::clone(result),
            None => {
                let text = match &self.steering {
                    Some(_) => owned("Skipped due to queued user message."),
                    None => owned("Tool execution aborted"),
                };
                agent.report_tool_result(
                    &self.calls[at],
                    ToolOutput::error(text),
                    true,
                    now,
                    new_messages,
                    out,
                )
            },
        };
        let ghost shown = result@;
        self.results.push(result);
        assert(self@.results =~= w.run.results.push(shown));
    }

    fn settle_on(
        &mut self,
        agent: &mut Agent,
        now: i64,
        new_messages: &mut Vec<Message>,
        out: &mut Vec<AgentEvent>,
    ) -> (action: ToolAction)
        requires
            old(self)@.recorded.len() == old(self)@.calls.len(),
            old(self)@.results.len() <= old(self)@.calls.len(),
            old(self)@.next_batch <= old(self)@.batches.len(),
        ensures
            (tool_world(*final(self), *final(agent), *final(new_messages), *final(out)), action)
                == tool_world(*old(self), *old(agent), *old(new_messages), *old(out)).settling(now),
            final(self)@.wf(),
            old(agent).wf() ==> final(agent).wf(),
    {
        let ghost w = tool_world(*self, *agent, *new_messages, *out);
        // The phase is decided at the end; until then it makes no claim on what is left.
        self.phase = ToolPhase::Done;
        let ghost w0 = tool_world(*self, *agent, *new_messages, *out);
        proof {
            lemma_settling_ignores_phase(w, ToolPhase::Done, now);
        }
        while self.results.len() < self.calls.len() && self.steering.is_some()
            invariant
                self@.wf(),
                self@.phase == ToolPhase::Done,
                old(agent).wf() ==> agent.wf(),
                tool_world(*self, *agent, *new_messages, *out).settling(now) == w0.settling(now),
            decreases self.calls@.len() - self.results@.len(),
        {
            let ghost wi = tool_world(*self, *agent, *new_messages, *out);
            assert(self@.results.len() == self.results@.len());
            self.settle(agent, now, new_messages, out);
            assert(self@.results.len() == self.results@.len());
        }
        assert(self@.results.len() == self.results@.len());
        if self.results.len() < self.calls.len() {
            self.phase = ToolPhase::SettleAbort;
            ToolAction::CheckAbort
        } else {
            ToolAction::Finish
        }
    }

    fn take_steering(&mut self, agent: &mut Agent, fetched: Vec<Message>) -> (interrupted: bool)
        ensures
            interrupted == (old(agent)@.drained(QueueKind::Steering, fetched.deep_view()).len() > 0),
            final(self)@ == (ToolRunView {
                steering: if interrupted {
                    Some(old(agent)@.drained(QueueKind::Steering, fetched.deep_view()))
                } else {
                    old(self)@.steering
                },
                ..old(self)@
            }),
            final(agent)@ == old(agent)@.after_drain(QueueKind::Steering, fetched.deep_view()),
            old(agent).wf() ==> final(agent).wf(),
    {
        let delivery = agent.drain_steering_messages(fetched);
        if delivery.len() > 0 {
            self.steering = Some(delivery);
            true
        } else {
            false
        }
    }

    fn finish_batch(
        &mut self,
        items: Vec<FinishedCall>,
        agent: &mut Agent,
        now: i64,
        new_messages: &mut Vec<Message>,
        out: &mut Vec<AgentEvent>,
    ) -> (action: ToolAction)
        requires
            old(self)@.wf(),
            old(self)@.phase == ToolPhase::Batch,
        ensures
            (tool_world(*final(self), *final(agent), *final(new_messages), *final(out)), action)
                == tool_world(*old(self), *old(agent), *old(new_messages), *old(out)).step(
                ToolInputView::Batch(items.deep_view()),
                now,
            ),
            final(self)@.wf(),
            old(agent).wf() ==> final(agent).wf(),
    {
        let ghost w = tool_world(*self, *agent, *new_messages, *out);
        self.record_all(&items, agent, now, new_messages, out);
        proof {
            lemma_recorded_upto_frame(w, items.deep_view(), w.run.calls.len(), now);
            assert(self@.next_batch == w.run.next_batch);
            assert(self@.batches == w.run.batches);
        }
        let planned: usize = self.batches.len();
        self.next_batch += 1;
        if self.next_batch < planned {
            self.phase = ToolPhase::BatchAbort;
            ToolAction::CheckAbort
        } else {
            self.settle_on(agent, now, new_messages, out)
        }
    }

    /// Takes one step of the tool calls, at the time `now`.
    #[verifier::spinoff_prover]
    #[verifier::rlimit(50)]
    pub fn step_at(
        &mut self,
        agent: &mut Agent,
        input: ToolInput,
        now: i64,
        new_messages: &mut Vec<Message>,
        out: &mut Vec<AgentEvent>,
    ) -> (action: ToolAction)
        requires
            old(self)@.wf(),
        ensures
            (tool_world(*final(self), *final(agent), *final(new_messages), *final(out)), action)
                == tool_world(*old(self), *old(agent), *old(new_messages), *old(out)).step(
                input@,
                now,
            ),
            final(self)@.wf(),
            old(agent).wf() ==> final(agent).wf(),
    {
        let ghost w = tool_world(*self, *agent, *new_messages, *out);
        match (self.phase, input) {
            (ToolPhase::BatchAbort, ToolInput::Abort(aborted)) => {
                if aborted {
                    self.settle_on(agent, now, new_messages, out)
                } else {
                    self.phase = ToolPhase::BatchSteering;
                    ToolAction::FetchSteering
                }
            },
            (ToolPhase::BatchSteering, ToolInput::Steering(fetched)) => {
                if self.take_steering(agent, fetched) {
                    self.settle_on(agent, now, new_messages, out)
                } else {
                    self.phase = ToolPhase::Batch;
                    ToolAction::RunBatch(self.batches[self.next_batch])
                }
            },
            (ToolPhase::Batch, ToolInput::Batch(items)) => {
                self.finish_batch(items, agent, now, new_messages, out)
            },
            (ToolPhase::SettleAbort, ToolInput::Abort(aborted)) => {
                if aborted {
                    self.settle(agent, now, new_messages, out);
                    self.settle_on(agent, now, new_messages, out)
                } else {
                    self.phase = ToolPhase::SettleSteering;
                    ToolAction::FetchSteering
                }
            },
            (ToolPhase::SettleSteering, ToolInput::Steering(fetched)) => {
                let _ = self.take_steering(agent, fetched);
                self.settle(agent, now, new_messages, out);
                self.settle_on(agent, now, new_messages, out)
            },
            _ => match self.phase {
                ToolPhase::BatchAbort | ToolPhase::SettleAbort => ToolAction::CheckAbort,
                ToolPhase::BatchSteering | ToolPhase::SettleSteering => ToolAction::FetchSteering,
                ToolPhase::Batch => ToolAction::RunBatch(self.batches[self.next_batch]),
                ToolPhase::Done => ToolAction::Finish,
            },
        }
    }

    /// Takes one step of the tool calls, at the present time.
    pub fn step(
        &mut self,
        agent: &mut Agent,
        input: ToolInput,
        new_messages: &mut Vec<Message>,
        out: &mut Vec<AgentEvent>,
    ) -> (action: ToolAction)
        requires
            old(self)@.wf(),
        ensures
            exists|now: i64|
                (tool_world(*final(self), *final(agent), *final(new_messages), *final(out)), action)
                    == #[trigger] tool_world(
                    *old(self),
                    *old(agent),
                    *old(new_messages),
                    *old(out),
                ).step(input@, now),
            final(self)@.wf(),
            old(agent).wf() ==> final(agent).wf(),
    {
        let now: i64 = now_millis();
        self.step_at(agent, input, now, new_messages, out)
    }
}

/// Settling sets the phase, so it does not matter which phase it starts from.
proof fn lemma_settling_ignores_phase(w: ToolWorld, phase: ToolPhase, now: i64)
    ensures
        w.in_phase(phase).settling(now) == w.settling(now),
    decreases w.run.calls.len() - w.run.results.len(),
{
    if w.run.results.len() < w.run.calls.len() && w.run.steering is Some {
        assert(w.in_phase(phase).settled(now) == w.settled(now).in_phase(phase));
        lemma_settling_ignores_phase(w.settled(now), phase, now);
    }
}

/// Recording results leaves the plan and what is settled alone.
proof fn lemma_recorded_for_frame(w: ToolWorld, items: Seq<FinishedCallView>, k: int, now: i64)
    requires
        w.run.recorded.len() == w.run.calls.len(),
    ensures
        ({
            let r = w.recorded_for(items, k, now).run;
            r == (ToolRunView { recorded: r.recorded, ..w.run })
        }),
        w.recorded_for(items, k, now).run.recorded.len() == w.run.recorded.len(),
    decreases items.len(),
{
    if items.len() > 0 {
        lemma_recorded_for_frame(w, items.drop_last(), k, now);
    }
}

/// Recording results leaves the plan and what is settled alone.
pub(crate) proof fn lemma_recorded_upto_frame(w: ToolWorld, items: Seq<FinishedCallView>, n: nat, now: i64)
    requires
        w.run.recorded.len() == w.run.calls.len(),
    ensures
        ({
            let r = w.recorded_upto(items, n, now).run;
            r == (ToolRunView { recorded: r.recorded, ..w.run })
        }),
        w.recorded_upto(items, n, now).run.recorded.len() == w.run.recorded.len(),
    decreases n,
{
    if n > 0 {
        lemma_recorded_upto_frame(w, items, (n - 1) as nat, now);
        lemma_recorded_for_frame(
            w.recorded_upto(items, (n - 1) as nat, now),
            items,
            n - 1,
            now,
        );
    }
}

/// Whether every result that is there belongs to the call in its place.
pub open spec fn results_match(run: ToolRunView) -> bool {
    &&& forall|i: int|
        0 <= i < run.results.len() ==> (#[trigger] run.results[i]).tool_call_id == run.calls[i].id
            && run.results[i].tool_name == run.calls[i].name
    &&& forall|i: int|
        0 <= i < run.recorded.len() ==> match #[trigger] run.recorded[i] {
            Some(r) => r.tool_call_id == run.calls[i].id && r.tool_name == run.calls[i].name,
            None => true,
        }
}

/// Whether one world comes from another by adding the same messages to the history and to the new
/// messages of the run, and events that extensions are not told of, without touching what was there.
pub open spec fn grows_alike(before: ToolWorld, after: ToolWorld) -> bool {
    let added = after.new_messages.skip(before.new_messages.len() as int);
    &&& after.new_messages == before.new_messages + added
    &&& after.agent.messages == before.agent.messages + added
    &&& after.agent == (AgentView {
        messages: after.agent.messages,
        queue: after.agent.queue,
        ..before.agent
    })
    &&& after.events.len() >= before.events.len()
    &&& after.events.take(before.events.len() as int) == before.events
    &&& forall|i: int|
        before.events.len() <= i < after.events.len() ==> (#[trigger] after.events[i]).lifecycle()
            is None
    &&& after.run.calls == before.run.calls
    &&& after.run.batches == before.run.batches
}

pub(crate) proof fn lemma_grows_refl(w: ToolWorld)
    ensures
        grows_alike(w, w),
{
    assert(w.new_messages.skip(w.new_messages.len() as int) =~= Seq::empty());
    assert(w.new_messages + Seq::<MessageView>::empty() =~= w.new_messages);
    assert(w.agent.messages + Seq::<MessageView>::empty() =~= w.agent.messages);
    assert(w.events.take(w.events.len() as int) =~= w.events);
}

pub(crate) proof fn lemma_grows_trans(a: ToolWorld, b: ToolWorld, c: ToolWorld)
    requires
        grows_alike(a, b),
        grows_alike(b, c),
    ensures
        grows_alike(a, c),
{
    let ab = b.new_messages.skip(a.new_messages.len() as int);
    let bc = c.new_messages.skip(b.new_messages.len() as int);
    let ac = c.new_messages.skip(a.new_messages.len() as int);
    assert(ac =~= ab + bc);
    assert(a.new_messages + ac =~= c.new_messages);
    assert(a.agent.messages + ac =~= c.agent.messages);
    assert(c.events.take(a.events.len() as int) =~= b.events.take(a.events.len() as int)) by {
        assert(c.events.take(b.events.len() as int).take(a.events.len() as int)
            =~= c.events.take(a.events.len() as int));
    }
    assert forall|i: int| a.events.len() <= i < c.events.len() implies (#[trigger] c.events[i]).lifecycle()
        is None by {
        if i < b.events.len() {
            assert(c.events.take(b.events.len() as int)[i] == b.events[i]);
        }
    }
}

proof fn lemma_reported_grows(
    w: ToolWorld,
    call: ToolCallView,
    output: ToolOutputView,
    is_error: bool,
    now: i64,
)
    ensures
        grows_alike(w, w.reported(call, output, is_error, now)),
{
    let after = w.reported(call, output, is_error, now);
    let message = MessageView::ToolResult(result_message(call, output, is_error, now));
    let added = after.new_messages.skip(w.new_messages.len() as int);
    assert(added =~= seq![message]);
    assert(after.new_messages =~= w.new_messages + added);
    assert(after.agent.messages =~= w.agent.messages + added);
    assert(after.events.take(w.events.len() as int) =~= w.events);
}

proof fn lemma_recorded_keeps(w: ToolWorld, item: FinishedCallView, now: i64)
    requires
        w.run.recorded.len() == w.run.calls.len(),
        results_match(w.run),
    ensures
        grows_alike(w, w.recorded(item, now)),
        results_match(w.recorded(item, now).run),
        w.recorded(item, now).run.recorded.len() == w.run.calls.len(),
        w.recorded(item, now).run.results == w.run.results,
        w.recorded(item, now).run.next_batch == w.run.next_batch,
{
    if item.index < w.run.calls.len() {
        lemma_reported_grows(
            w,
            w.run.calls[item.index as int],
            item.output,
            item.is_error,
            now,
        );
    } else {
        lemma_grows_refl(w);
    }
}

proof fn lemma_recorded_for_keeps(w: ToolWorld, items: Seq<FinishedCallView>, k: int, now: i64)
    requires
        w.run.recorded.len() == w.run.calls.len(),
        results_match(w.run),
    ensures
        grows_alike(w, w.recorded_for(items, k, now)),
        results_match(w.recorded_for(items, k, now).run),
        w.recorded_for(items, k, now).run.recorded.len() == w.run.calls.len(),
    decreases items.len(),
{
    if items.len() == 0 {
        lemma_grows_refl(w);
    } else {
        lemma_recorded_for_keeps(w, items.drop_last(), k, now);
        let before = w.recorded_for(items.drop_last(), k, now);
        if items.last().index == k {
            lemma_recorded_keeps(before, items.last(), now);
            lemma_grows_trans(w, before, before.recorded(items.last(), now));
        }
    }
}

proof fn lemma_recorded_upto_keeps(w: ToolWorld, items: Seq<FinishedCallView>, n: nat, now: i64)
    requires
        w.run.recorded.len() == w.run.calls.len(),
        results_match(w.run),
    ensures
        grows_alike(w, w.recorded_upto(items, n, now)),
        results_match(w.recorded_upto(items, n, now).run),
        w.recorded_upto(items, n, now).run.recorded.len() == w.run.calls.len(),
    decreases n,
{
    if n == 0 {
        lemma_grows_refl(w);
    } else {
        lemma_recorded_upto_keeps(w, items, (n - 1) as nat, now);
        let before = w.recorded_upto(items, (n - 1) as nat, now);
        lemma_recorded_for_keeps(before, items, n - 1, now);
        lemma_grows_trans(w, before, before.recorded_for(items, n - 1, now));
    }
}

proof fn lemma_settled_keeps(w: ToolWorld, now: i64)
    requires
        w.run.recorded.len() == w.run.calls.len(),
        w.run.results.len() < w.run.calls.len(),
        results_match(w.run),
    ensures
        grows_alike(w, w.settled(now)),
        results_match(w.settled(now).run),
        w.settled(now).run.recorded == w.run.recorded,
        w.settled(now).run.results.len() == w.run.results.len() + 1,
{
    let i = w.run.results.len() as int;
    let output = error_output(
        if w.run.steering is Some {
            "Skipped due to queued user message."@
        } else {
            "Tool execution aborted"@
        },
    );
    lemma_reported_grows(w, w.run.calls[i], output, true, now);
    lemma_grows_refl(w);
    let after = w.settled(now).run;
    assert forall|j: int| 0 <= j < after.results.len() implies (#[trigger] after.results[j]).tool_call_id
        == after.calls[j].id && after.results[j].tool_name == after.calls[j].name by {
        if j < i {
            assert(after.results[j] == w.run.results[j]);
        } else {
            assert(w.run.recorded[i] is Some ==> after.results[j] == w.run.recorded[i]->Some_0);
        }
    }
}

proof fn lemma_settling_keeps(w: ToolWorld, now: i64)
    requires
        w.run.recorded.len() == w.run.calls.len(),
        w.run.results.len() <= w.run.calls.len(),
        results_match(w.run),
    ensures
        grows_alike(w, w.settling(now).0),
        results_match(w.settling(now).0.run),
        w.settling(now).1 == ToolAction::Finish ==> w.settling(now).0.run.results.len()
            == w.run.calls.len(),
    decreases w.run.calls.len() - w.run.results.len(),
{
    if w.run.results.len() >= w.run.calls.len() {
        lemma_grows_refl(w);
        lemma_grows_trans(w, w, w.in_phase(ToolPhase::Done));
    } else if w.run.steering is None {
        lemma_grows_refl(w);
        lemma_grows_trans(w, w, w.in_phase(ToolPhase::SettleAbort));
    } else {
        lemma_settled_keeps(w, now);
        lemma_settling_keeps(w.settled(now), now);
        lemma_grows_trans(w, w.settled(now), w.settled(now).settling(now).0);
    }
}

/// A step adds the same messages to the history and to the new messages of the run, and each result
/// stands for the call in its place. Once all calls are settled there is one result per call, in the
/// order of the calls.
pub proof fn tool_step_keeps_results_in_order(w: ToolWorld, input: ToolInputView, now: i64)
    requires
        w.run.wf(),
        results_match(w.run),
    ensures
        grows_alike(w, w.step(input, now).0),
        results_match(w.step(input, now).0.run),
        w.step(input, now).1 == ToolAction::Finish && w.run.phase != ToolPhase::Done
            ==> w.step(input, now).0.run.results.len() == w.run.calls.len(),
{
    lemma_grows_refl(w);
    match (w.run.phase, input) {
        (ToolPhase::BatchAbort, ToolInputView::Abort(aborted)) => {
            lemma_settling_keeps(w, now);
        },
        (ToolPhase::BatchSteering, ToolInputView::Steering(fetched)) => {
            let next = w.steered(fetched);
            lemma_steered_grows(w, fetched);
            lemma_settling_keeps(next, now);
            lemma_grows_trans(w, next, next.settling(now).0);
        },
        (ToolPhase::Batch, ToolInputView::Batch(items)) => {
            let next = w.recorded_upto(items, w.run.calls.len(), now);
            lemma_recorded_upto_keeps(w, items, w.run.calls.len(), now);
            lemma_recorded_upto_frame(w, items, w.run.calls.len(), now);
            let after = ToolWorld {
                run: ToolRunView { next_batch: w.run.next_batch + 1, ..next.run },
                ..next
            };
            assert(grows_alike(w, after));
            lemma_settling_keeps(after, now);
            lemma_grows_trans(w, after, after.settling(now).0);
        },
        (ToolPhase::SettleAbort, ToolInputView::Abort(aborted)) => {
            lemma_settled_keeps(w, now);
            lemma_settling_keeps(w.settled(now), now);
            lemma_grows_trans(w, w.settled(now), w.settled(now).settling(now).0);
        },
        (ToolPhase::SettleSteering, ToolInputView::Steering(fetched)) => {
            let next = w.steered(fetched);
            lemma_steered_grows(w, fetched);
            lemma_settled_keeps(next, now);
            lemma_settling_keeps(next.settled(now), now);
            lemma_grows_trans(w, next, next.settled(now));
            lemma_grows_trans(w, next.settled(now), next.settled(now).settling(now).0);
        },
        _ => {},
    }
}

proof fn lemma_steered_grows(w: ToolWorld, fetched: Seq<MessageView>)
    ensures
        grows_alike(w, w.steered(fetched)),
{
    lemma_grows_refl(w);
}

/// Whether no two of the finished calls are for the same call.
pub open spec fn distinct_calls(items: Seq<FinishedCallView>) -> bool {
    forall|i: int, j: int|
        0 <= i < j < items.len() ==> (#[trigger] items[i]).index != (#[trigger] items[j]).index
}

/// Where no two finished calls are for the same call, at most one is recorded for each.
pub(crate) proof fn lemma_recorded_for_one(
    w: ToolWorld,
    items: Seq<FinishedCallView>,
    k: int,
    now: i64,
)
    requires
        distinct_calls(items),
    ensures
        forall|j: int|
            0 <= j < items.len() && (#[trigger] items[j]).index == k ==> w.recorded_for(items, k, now)
                == w.recorded(items[j], now),
        (forall|j: int| 0 <= j < items.len() ==> (#[trigger] items[j]).index != k)
            ==> w.recorded_for(items, k, now) == w,
    decreases items.len(),
{
    if items.len() > 0 {
        let shorter = items.drop_last();
        assert forall|i: int, j: int| 0 <= i < j < shorter.len() implies (#[trigger] shorter[i]).index
            != (#[trigger] shorter[j]).index by {
            assert(items[i] == shorter[i] && items[j] == shorter[j]);
        }
        lemma_recorded_for_one(w, shorter, k, now);
        if items.last().index == k {
            assert forall|j: int| 0 <= j < shorter.len() implies (#[trigger] shorter[j]).index != k by {
                assert(items[j] == shorter[j]);
                assert(items[items.len() - 1].index == k);
            }
        } else {
            assert forall|j: int| 0 <= j < items.len() && (#[trigger] items[j]).index == k implies w.recorded_for(
            items, k, now) == w.recorded(items[j], now) by {
                assert(j < shorter.len());
                assert(shorter[j] == items[j]);
            }
            if forall|j: int| 0 <= j < items.len() ==> (#[trigger] items[j]).index != k {
                assert forall|j: int| 0 <= j < shorter.len() implies (#[trigger] shorter[j]).index
                    != k by {
                    assert(items[j] == shorter[j]);
                }
            }
        }
    }
}

proof fn lemma_arrival_order_for(
    w: ToolWorld,
    a: Seq<FinishedCallView>,
    b: Seq<FinishedCallView>,
    k: int,
    now: i64,
)
    requires
        distinct_calls(a),
        distinct_calls(b),
        forall|x: FinishedCallView| a.contains(x) <==> b.contains(x),
    ensures
        w.recorded_for(a, k, now) == w.recorded_for(b, k, now),
{
    lemma_recorded_for_one(w, a, k, now);
    lemma_recorded_for_one(w, b, k, now);
    if exists|j: int| 0 <= j < a.len() && (#[trigger] a[j]).index == k {
        let j = choose|j: int| 0 <= j < a.len() && (#[trigger] a[j]).index == k;
        assert(a.contains(a[j]));
        assert(b.contains(a[j]));
        let m = choose|m: int| 0 <= m < b.len() && b[m] == a[j];
        assert(b[m].index == k);
    } else {
        assert forall|j: int| 0 <= j < b.len() implies (#[trigger] b[j]).index != k by {
            if b[j].index == k {
                assert(b.contains(b[j]));
                assert(a.contains(b[j]));
                let m = choose|m: int| 0 <= m < a.len() && a[m] == b[j];
                assert(a[m].index == k);
            }
        }
    }
}

/// The order in which the calls of a batch finish does not show: events, history and results come
/// in the order of the calls.
pub proof fn arrival_order_does_not_show(
    w: ToolWorld,
    a: Seq<FinishedCallView>,
    b: Seq<FinishedCallView>,
    n: nat,
    now: i64,
)
    requires
        distinct_calls(a),
        distinct_calls(b),
        forall|x: FinishedCallView| a.contains(x) <==> b.contains(x),
    ensures
        w.recorded_upto(a, n, now) == w.recorded_upto(b, n, now),
    decreases n,
{
    if n > 0 {
        arrival_order_does_not_show(w, a, b, (n - 1) as nat, now);
        lemma_arrival_order_for(w.recorded_upto(a, (n - 1) as nat, now), a, b, n - 1, now);
    }
}

/// Whether something is reported of a call.
pub open spec fn is_reported(run: ToolRunView, i: int) -> bool {
    run.recorded[i] is Some || i < run.results.len()
}

/// Of how many of the first `n` calls something is reported.
pub open spec fn reported_count(run: ToolRunView, n: nat) -> nat
    decreases n,
{
    if n == 0 {
        0
    } else {
        reported_count(run, (n - 1) as nat) + if is_reported(run, n - 1) {
            1nat
        } else {
            0nat
        }
    }
}

/// One call more is reported.
proof fn lemma_count_one_more(a: ToolRunView, b: ToolRunView, i: int, n: nat)
    requires
        !is_reported(a, i),
        is_reported(b, i),
        forall|j: int| 0 <= j < n && j != i ==> is_reported(a, j) == #[trigger] is_reported(b, j),
        0 <= i,
    ensures
        reported_count(b, n) == reported_count(a, n) + if i < n {
            1nat
        } else {
            0nat
        },
    decreases n,
{
    if n > 0 {
        lemma_count_one_more(a, b, i, (n - 1) as nat);
        assert(n - 1 != i ==> is_reported(a, n - 1) == is_reported(b, n - 1));
    }
}

proof fn lemma_count_same(a: ToolRunView, b: ToolRunView, n: nat)
    requires
        forall|j: int| 0 <= j < n ==> is_reported(a, j) == #[trigger] is_reported(b, j),
    ensures
        reported_count(b, n) == reported_count(a, n),
    decreases n,
{
    if n > 0 {
        lemma_count_same(a, b, (n - 1) as nat);
        assert(is_reported(a, n - 1) == is_reported(b, n - 1));
    }
}

pub(crate) proof fn lemma_count_all(run: ToolRunView, n: nat)
    requires
        n <= run.results.len(),
    ensures
        reported_count(run, n) == n,
    decreases n,
{
    if n > 0 {
        lemma_count_all(run, (n - 1) as nat);
        assert(is_reported(run, n - 1));
    }
}

/// What holds of tool calls that began when the run had `base` new messages: as many results are
/// among the new messages as calls were reported, and only calls of batches that ran have a recorded
/// result before the calls are settled.
pub open spec fn reports_each_call_once(base: nat, w: ToolWorld) -> bool {
    &&& w.run.wf()
    &&& w.new_messages.len() == base + reported_count(w.run, w.run.calls.len())
    &&& w.run.phase == ToolPhase::BatchAbort || w.run.phase == ToolPhase::BatchSteering
        || w.run.phase == ToolPhase::Batch ==> w.run.results.len() == 0
    &&& w.run.phase != ToolPhase::SettleAbort && w.run.phase != ToolPhase::SettleSteering
        && w.run.phase != ToolPhase::Done ==> forall|i: int|
        batch_start(w.run) <= i < w.run.calls.len() ==> (#[trigger] w.run.recorded[i]) is None
    &&& w.run.phase == ToolPhase::Done ==> w.run.results.len() == w.run.calls.len()
}

/// The first call of the next batch.
pub open spec fn batch_start(run: ToolRunView) -> int {
    if run.next_batch < run.batches.len() {
        run.batches[run.next_batch as int].start as int
    } else {
        run.calls.len() as int
    }
}

/// Whether an input is what the phase asked for: a batch hands back calls of that batch only, each at
/// most once.
pub open spec fn is_fair(run: ToolRunView, input: ToolInputView) -> bool {
    match (run.phase, input) {
        (ToolPhase::Batch, ToolInputView::Batch(items)) => {
            let batch = run.batches[run.next_batch as int];
            &&& distinct_calls(items)
            &&& forall|j: int|
                0 <= j < items.len() ==> batch.start <= (#[trigger] items[j]).index < batch.end
        },
        _ => true,
    }
}

proof fn lemma_settled_once(base: nat, w: ToolWorld, now: i64)
    requires
        w.run.recorded.len() == w.run.calls.len(),
        w.run.results.len() < w.run.calls.len(),
        w.new_messages.len() == base + reported_count(w.run, w.run.calls.len()),
    ensures
        w.settled(now).new_messages.len() == base + reported_count(
            w.settled(now).run,
            w.run.calls.len(),
        ),
{
    let i = w.run.results.len() as int;
    let after = w.settled(now);
    if w.run.recorded[i] is Some {
        lemma_count_same(w.run, after.run, w.run.calls.len());
    } else {
        lemma_count_one_more(w.run, after.run, i, w.run.calls.len());
    }
}

proof fn lemma_settling_once(base: nat, w: ToolWorld, now: i64)
    requires
        w.run.recorded.len() == w.run.calls.len(),
        w.run.results.len() <= w.run.calls.len(),
        w.run.next_batch <= w.run.batches.len(),
        w.new_messages.len() == base + reported_count(w.run, w.run.calls.len()),
    ensures
        reports_each_call_once(base, w.settling(now).0),
    decreases w.run.calls.len() - w.run.results.len(),
{
    if w.run.results.len() >= w.run.calls.len() {
        lemma_count_same(w.run, w.in_phase(ToolPhase::Done).run, w.run.calls.len());
    } else if w.run.steering is None {
        lemma_count_same(w.run, w.in_phase(ToolPhase::SettleAbort).run, w.run.calls.len());
    } else {
        lemma_settled_once(base, w, now);
        lemma_settling_once(base, w.settled(now), now);
    }
}

proof fn lemma_recorded_once(
    base: nat,
    w: ToolWorld,
    items: Seq<FinishedCallView>,
    low: int,
    high: int,
    n: nat,
    now: i64,
)
    requires
        w.run.recorded.len() == w.run.calls.len(),
        w.run.results.len() == 0,
        w.new_messages.len() == base + reported_count(w.run, w.run.calls.len()),
        distinct_calls(items),
        forall|j: int| 0 <= j < items.len() ==> low <= (#[trigger] items[j]).index < high,
        forall|i: int| low <= i < w.run.calls.len() ==> (#[trigger] w.run.recorded[i]) is None,
        n <= w.run.calls.len(),
    ensures
        ({
            let after = w.recorded_upto(items, n, now);
            &&& after.run.recorded.len() == w.run.calls.len()
            &&& after.new_messages.len() == base + reported_count(after.run, w.run.calls.len())
            &&& forall|i: int|
                #![trigger after.run.recorded[i]]
                0 <= i < w.run.calls.len() && (i >= n && i >= low || i >= low && i >= high)
                    ==> after.run.recorded[i] is None
        }),
    decreases n,
{
    lemma_recorded_upto_frame(w, items, n, now);
    if n > 0 {
        let k = n - 1;
        lemma_recorded_once(base, w, items, low, high, k as nat, now);
        lemma_recorded_upto_frame(w, items, k as nat, now);
        let before = w.recorded_upto(items, k as nat, now);
        let after = w.recorded_upto(items, n, now);
        lemma_recorded_for_one(before, items, k, now);
        if exists|j: int| 0 <= j < items.len() && (#[trigger] items[j]).index == k {
            let j = choose|j: int| 0 <= j < items.len() && (#[trigger] items[j]).index == k;
            assert(after == before.recorded(items[j], now));
            assert(before.run.recorded[k] is None);
            assert(!is_reported(before.run, k));
            assert(is_reported(after.run, k));
            lemma_count_one_more(before.run, after.run, k, w.run.calls.len());
        } else {
            assert(after == before);
        }
    }
}

/// Fair inputs keep the books: every call is reported at most once.
pub proof fn tool_step_reports_each_call_once(
    base: nat,
    effects: Seq<ToolEffects>,
    w: ToolWorld,
    input: ToolInputView,
    now: i64,
)
    requires
        reports_each_call_once(base, w),
        is_batch_plan(effects, w.run.batches, w.run.calls.len() as int),
        is_fair(w.run, input),
    ensures
        reports_each_call_once(base, w.step(input, now).0),
        w.step(input, now).1 == ToolAction::Finish ==> w.step(input, now).0.new_messages.len()
            == base + w.run.calls.len(),
{
    let n = w.run.calls.len();
    match (w.run.phase, input) {
        (ToolPhase::BatchAbort, ToolInputView::Abort(aborted)) => {
            if aborted {
                lemma_settling_once(base, w, now);
            } else {
                lemma_count_same(w.run, w.step(input, now).0.run, n);
            }
        },
        (ToolPhase::BatchSteering, ToolInputView::Steering(fetched)) => {
            let next = w.steered(fetched);
            lemma_count_same(w.run, next.run, n);
            lemma_count_same(w.run, next.in_phase(ToolPhase::Batch).run, n);
            lemma_settling_once(base, next, now);
        },
        (ToolPhase::Batch, ToolInputView::Batch(items)) => {
            let batch = w.run.batches[w.run.next_batch as int];
            lemma_recorded_once(base, w, items, batch.start as int, batch.end as int, n, now);
            lemma_recorded_upto_frame(w, items, n, now);
            let next = w.recorded_upto(items, n, now);
            let after = ToolWorld {
                run: ToolRunView { next_batch: w.run.next_batch + 1, ..next.run },
                ..next
            };
            lemma_count_same(next.run, after.run, n);
            if after.run.next_batch < after.run.batches.len() {
                assert(after.run.batches[after.run.next_batch as int].start == batch.end);
                lemma_count_same(next.run, after.in_phase(ToolPhase::BatchAbort).run, n);
            } else {
                lemma_settling_once(base, after, now);
            }
        },
        (ToolPhase::SettleAbort, ToolInputView::Abort(aborted)) => {
            if aborted {
                lemma_settled_once(base, w, now);
                lemma_settling_once(base, w.settled(now), now);
            } else {
                lemma_count_same(w.run, w.step(input, now).0.run, n);
            }
        },
        (ToolPhase::SettleSteering, ToolInputView::Steering(fetched)) => {
            let next = w.steered(fetched);
            lemma_count_same(w.run, next.run, n);
            lemma_settled_once(base, next, now);
            lemma_settling_once(base, next.settled(now), now);
        },
        _ => {},
    }
    let after = w.step(input, now).0;
    if w.step(input, now).1 == ToolAction::Finish {
        lemma_step_finish_is_done(w, input, now);
        lemma_step_keeps_calls(w, input, now);
        lemma_count_all(after.run, n);
    }
}

proof fn lemma_settling_finish(w: ToolWorld, now: i64)
    ensures
        w.settling(now).1 == ToolAction::Finish ==> w.settling(now).0.run.phase == ToolPhase::Done,
        w.settling(now).0.run.calls == w.run.calls,
    decreases w.run.calls.len() - w.run.results.len(),
{
    if w.run.results.len() < w.run.calls.len() && w.run.steering is Some {
        lemma_settling_finish(w.settled(now), now);
    }
}

proof fn lemma_step_finish_is_done(w: ToolWorld, input: ToolInputView, now: i64)
    requires
        w.run.wf(),
        w.step(input, now).1 == ToolAction::Finish,
    ensures
        w.step(input, now).0.run.phase == ToolPhase::Done,
{
    match (w.run.phase, input) {
        (ToolPhase::BatchAbort, ToolInputView::Abort(aborted)) => {
            lemma_settling_finish(w, now);
        },
        (ToolPhase::BatchSteering, ToolInputView::Steering(fetched)) => {
            lemma_settling_finish(w.steered(fetched), now);
        },
        (ToolPhase::Batch, ToolInputView::Batch(items)) => {
            let next = w.recorded_upto(items, w.run.calls.len(), now);
            lemma_settling_finish(
                ToolWorld {
                    run: ToolRunView { next_batch: w.run.next_batch + 1, ..next.run },
                    ..next
                },
                now,
            );
        },
        (ToolPhase::SettleAbort, ToolInputView::Abort(aborted)) => {
            lemma_settling_finish(w.settled(now), now);
        },
        (ToolPhase::SettleSteering, ToolInputView::Steering(fetched)) => {
            lemma_settling_finish(w.steered(fetched).settled(now), now);
        },
        _ => {},
    }
}

pub(crate) proof fn lemma_step_keeps_calls(w: ToolWorld, input: ToolInputView, now: i64)
    requires
        w.run.wf(),
    ensures
        w.step(input, now).0.run.calls == w.run.calls,
{
    match (w.run.phase, input) {
        (ToolPhase::BatchAbort, ToolInputView::Abort(aborted)) => {
            lemma_settling_finish(w, now);
        },
        (ToolPhase::BatchSteering, ToolInputView::Steering(fetched)) => {
            lemma_settling_finish(w.steered(fetched), now);
        },
        (ToolPhase::Batch, ToolInputView::Batch(items)) => {
            let next = w.recorded_upto(items, w.run.calls.len(), now);
            lemma_recorded_upto_frame(w, items, w.run.calls.len(), now);
            lemma_settling_finish(
                ToolWorld {
                    run: ToolRunView { next_batch: w.run.next_batch + 1, ..next.run },
                    ..next
                },
                now,
            );
        },
        (ToolPhase::SettleAbort, ToolInputView::Abort(aborted)) => {
            lemma_settling_finish(w.settled(now), now);
        },
        (ToolPhase::SettleSteering, ToolInputView::Steering(fetched)) => {
            lemma_settling_finish(w.steered(fetched).settled(now), now);
        },
        _ => {},
    }
}

} // verus!
