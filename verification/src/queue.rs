//! Queues of messages that wait for a run to reach a point where it can take them.
use std::collections::VecDeque;
use vstd::prelude::*;

use crate::clock::now_millis;
use crate::model::{Message, MessageView};

verus! {

/// Most messages that wait for the next delivery point.
pub const MAX_STEERING_QUEUE_SIZE: usize = 100;

/// Most messages that wait for the run to become idle.
pub const MAX_FOLLOW_UP_QUEUE_SIZE: usize = 100;

/// How many messages one delivery takes.
#[derive(Debug, Clone, Copy, PartialEq, Eq, Structural)]
pub enum QueueMode {
    All,
    OneAtATime,
}

impl QueueMode {
    /// The name of the mode in settings.
    pub open spec fn name(self) -> Seq<char> {
        match self {
            QueueMode::All => "all"@,
            QueueMode::OneAtATime => "one-at-a-time"@,
        }
    }

    /// The name of the mode in settings.
    pub fn as_str(self) -> (r: &'static str)
        ensures
            r@ == self.name(),
    {
        match self {
            QueueMode::All => "all",
            QueueMode::OneAtATime => "one-at-a-time",
        }
    }
}

/// The two modes have different names.
pub proof fn queue_mode_names_differ(a: QueueMode, b: QueueMode)
    ensures
        a.name() == b.name() <==> a == b,
{
    reveal_strlit("all");
    reveal_strlit("one-at-a-time");
    assert("all"@.len() != "one-at-a-time"@.len());
}

/// Which of the two queues a message joins.
#[derive(Debug, Clone, Copy, PartialEq, Eq, Structural)]
pub enum QueueKind {
    Steering,
    FollowUp,
}

/// A waiting message.
#[derive(Debug, PartialEq, Eq)]
pub struct QueuedMessage {
    /// Position in the order in which messages were queued.
    pub seq: u64,
    /// When the message was queued, in milliseconds since the Unix epoch.
    pub enqueued_at: i64,
    pub message: Message,
}

/// What counts of a waiting message: its number and its content.
#[verifier::ext_equal]
pub struct QueuedMessageView {
    pub seq: u64,
    pub message: MessageView,
}

impl View for QueuedMessage {
    type V = QueuedMessageView;

    open spec fn view(&self) -> QueuedMessageView {
        QueuedMessageView { seq: self.seq, message: self.message@ }
    }
}

impl DeepView for QueuedMessage {
    type V = QueuedMessageView;

    open spec fn deep_view(&self) -> QueuedMessageView {
        self@
    }
}

/// Messages that wait for a delivery point.
#[derive(Debug)]
pub struct MessageQueue {
    pub steering: VecDeque<QueuedMessage>,
    pub follow_up: VecDeque<QueuedMessage>,
    pub steering_mode: QueueMode,
    pub follow_up_mode: QueueMode,
    pub next_seq: u64,
}

/// The mathematical value of a [`MessageQueue`].
#[verifier::ext_equal]
pub struct MessageQueueView {
    pub steering: Seq<QueuedMessageView>,
    pub follow_up: Seq<QueuedMessageView>,
    pub steering_mode: QueueMode,
    pub follow_up_mode: QueueMode,
    pub next_seq: u64,
}

/// What counts of a list of waiting messages.
pub open spec fn queued(entries: Seq<QueuedMessage>) -> Seq<QueuedMessageView> {
    entries.map_values(|e: QueuedMessage| e@)
}

impl View for MessageQueue {
    type V = MessageQueueView;

    open spec fn view(&self) -> MessageQueueView {
        MessageQueueView {
            steering: queued(self.steering@),
            follow_up: queued(self.follow_up@),
            steering_mode: self.steering_mode,
            follow_up_mode: self.follow_up_mode,
            next_seq: self.next_seq,
        }
    }
}

/// A list with `x` added behind, where a full list of `capacity` entries first loses its oldest.
pub open spec fn bounded_push<A>(s: Seq<A>, x: A, capacity: nat) -> Seq<A> {
    if s.len() >= capacity {
        s.drop_first().push(x)
    } else {
        s.push(x)
    }
}

/// What one delivery takes from a list: everything, or the first entry.
pub open spec fn delivered(s: Seq<QueuedMessageView>, mode: QueueMode) -> Seq<MessageView> {
    match mode {
        QueueMode::All => s.map_values(|e: QueuedMessageView| e.message),
        QueueMode::OneAtATime => if s.len() == 0 {
            Seq::empty()
        } else {
            seq![s[0].message]
        },
    }
}

/// What one delivery leaves behind.
pub open spec fn left_over(s: Seq<QueuedMessageView>, mode: QueueMode) -> Seq<QueuedMessageView> {
    match mode {
        QueueMode::All => Seq::empty(),
        QueueMode::OneAtATime => if s.len() == 0 {
            s
        } else {
            s.drop_first()
        },
    }
}

/// The number after `n`, or `n` if there is none.
pub open spec fn next_seq_after(n: u64) -> u64 {
    if n == u64::MAX {
        n
    } else {
        (n + 1) as u64
    }
}

impl MessageQueueView {
    /// No queue holds more than its bound.
    pub open spec fn wf(self) -> bool {
        self.steering.len() <= MAX_STEERING_QUEUE_SIZE && self.follow_up.len()
            <= MAX_FOLLOW_UP_QUEUE_SIZE
    }

    /// The queue of a kind.
    pub open spec fn of_kind(self, kind: QueueKind) -> Seq<QueuedMessageView> {
        match kind {
            QueueKind::Steering => self.steering,
            QueueKind::FollowUp => self.follow_up,
        }
    }

    /// The delivery mode of a kind.
    pub open spec fn mode_of(self, kind: QueueKind) -> QueueMode {
        match kind {
            QueueKind::Steering => self.steering_mode,
            QueueKind::FollowUp => self.follow_up_mode,
        }
    }

    /// These queues with one of them replaced.
    pub open spec fn with_kind(self, kind: QueueKind, entries: Seq<QueuedMessageView>) -> Self {
        match kind {
            QueueKind::Steering => MessageQueueView { steering: entries, ..self },
            QueueKind::FollowUp => MessageQueueView { follow_up: entries, ..self },
        }
    }

    /// The most entries that a queue of a kind holds.
    pub open spec fn capacity(kind: QueueKind) -> nat {
        match kind {
            QueueKind::Steering => MAX_STEERING_QUEUE_SIZE as nat,
            QueueKind::FollowUp => MAX_FOLLOW_UP_QUEUE_SIZE as nat,
        }
    }

    /// These queues after a message was queued.
    pub open spec fn pushed(self, kind: QueueKind, message: MessageView) -> Self {
        let entry = QueuedMessageView { seq: self.next_seq, message };
        let grown = self.with_kind(
            kind,
            bounded_push(self.of_kind(kind), entry, Self::capacity(kind)),
        );
        MessageQueueView { next_seq: next_seq_after(self.next_seq), ..grown }
    }

    /// These queues after several messages were queued one after the other.
    pub open spec fn pushed_all(self, kind: QueueKind, messages: Seq<MessageView>) -> Self
        decreases messages.len(),
    {
        if messages.len() == 0 {
            self
        } else {
            self.pushed_all(kind, messages.drop_last()).pushed(kind, messages.last())
        }
    }

    /// What the next delivery of a kind takes.
    pub open spec fn next_delivery(self, kind: QueueKind) -> Seq<MessageView> {
        delivered(self.of_kind(kind), self.mode_of(kind))
    }

    /// These queues after the next delivery of a kind.
    pub open spec fn after_delivery(self, kind: QueueKind) -> Self {
        self.with_kind(kind, left_over(self.of_kind(kind), self.mode_of(kind)))
    }
}

impl MessageQueue {
    /// Empty queues with the given delivery modes.
    pub fn new(steering_mode: QueueMode, follow_up_mode: QueueMode) -> (r: Self)
        ensures
            r@ == (MessageQueueView {
                steering: Seq::empty(),
                follow_up: Seq::empty(),
                steering_mode,
                follow_up_mode,
                next_seq: 0,
            }),
            r@.wf(),
    {
        let r = MessageQueue {
            steering: VecDeque::new(),
            follow_up: VecDeque::new(),
            steering_mode,
            follow_up_mode,
            next_seq: 0,
        };
        assert(r@.steering =~= Seq::empty());
        assert(r@.follow_up =~= Seq::empty());
        r
    }

    /// Changes the delivery modes.
    pub fn set_modes(&mut self, steering_mode: QueueMode, follow_up_mode: QueueMode)
        ensures
            final(self)@ == (MessageQueueView { steering_mode, follow_up_mode, ..old(self)@ }),
            final(self).steering == old(self).steering,
            final(self).follow_up == old(self).follow_up,
    {
        self.steering_mode = steering_mode;
        self.follow_up_mode = follow_up_mode;
    }

    /// How many messages wait.
    pub fn pending_count(&self) -> (r: usize)
        requires
            self@.wf(),
        ensures
            r == self@.steering.len() + self@.follow_up.len(),
    {
        self.steering.len() + self.follow_up.len()
    }

    /// Queues a message that arrives at `now` and returns its number. A full queue drops its oldest
    /// message.
    pub fn push_at(&mut self, kind: QueueKind, message: Message, now: i64) -> (seq: u64)
        ensures
            seq == old(self)@.next_seq,
            final(self)@ == old(self)@.pushed(kind, message@),
            old(self)@.wf() ==> final(self)@.wf(),
            match kind {
                QueueKind::Steering => final(self).steering@.last().enqueued_at == now,
                QueueKind::FollowUp => final(self).follow_up@.last().enqueued_at == now,
            },
    {
        let ghost before = self@;
        let ghost entry_view = QueuedMessageView { seq: self.next_seq, message: message@ };
        let seq: u64 = self.next_seq;
        self.next_seq = self.next_seq.saturating_add(1);
        let entry = QueuedMessage { seq, enqueued_at: now, message };
        match kind {
            QueueKind::Steering => {
                let ghost full = self.steering@;
                if self.steering.len() >= MAX_STEERING_QUEUE_SIZE {
                    let _ = self.steering.pop_front();
                    assert(queued(self.steering@) =~= queued(full).drop_first());
                }
                let ghost kept = self.steering@;
                self.steering.push_back(entry);
                assert(queued(self.steering@) =~= queued(kept).push(entry_view));
            },
            QueueKind::FollowUp => {
                let ghost full = self.follow_up@;
                if self.follow_up.len() >= MAX_FOLLOW_UP_QUEUE_SIZE {
                    let _ = self.follow_up.pop_front();
                    assert(queued(self.follow_up@) =~= queued(full).drop_first());
                }
                let ghost kept = self.follow_up@;
                self.follow_up.push_back(entry);
                assert(queued(self.follow_up@) =~= queued(kept).push(entry_view));
            },
        }
        assert(self@ == before.pushed(kind, entry_view.message));
        seq
    }

    /// Queues a message that arrives now and returns its number.
    pub fn push(&mut self, kind: QueueKind, message: Message) -> (seq: u64)
        ensures
            seq == old(self)@.next_seq,
            final(self)@ == old(self)@.pushed(kind, message@),
            old(self)@.wf() ==> final(self)@.wf(),
    {
        let now: i64 = now_millis();
        self.push_at(kind, message, now)
    }

    /// Queues a message for the next delivery point.
    pub fn push_steering(&mut self, message: Message) -> (seq: u64)
        ensures
            seq == old(self)@.next_seq,
            final(self)@ == old(self)@.pushed(QueueKind::Steering, message@),
            old(self)@.wf() ==> final(self)@.wf(),
    {
        self.push(QueueKind::Steering, message)
    }

    /// Queues a message for when the run becomes idle.
    pub fn push_follow_up(&mut self, message: Message) -> (seq: u64)
        ensures
            seq == old(self)@.next_seq,
            final(self)@ == old(self)@.pushed(QueueKind::FollowUp, message@),
            old(self)@.wf() ==> final(self)@.wf(),
    {
        self.push(QueueKind::FollowUp, message)
    }

    /// Queues several messages one after the other.
    pub fn push_all(&mut self, kind: QueueKind, messages: Vec<Message>)
        ensures
            final(self)@ == old(self)@.pushed_all(kind, messages.deep_view()),
            old(self)@.wf() ==> final(self)@.wf(),
    {
        let ghost before = self@;
        let ghost all = messages.deep_view();
        assert(all.take(0) =~= Seq::empty());
        let mut i: usize = 0;
        while i < messages.len()
            invariant
                i <= messages@.len(),
                all == messages.deep_view(),
                self@ == before.pushed_all(kind, all.take(i as int)),
                before.wf() ==> self@.wf(),
            decreases messages@.len() - i,
        {
            let _ = self.push(kind, messages[i].clone());
            proof {
                let next = all.take(i + 1);
                assert(next.drop_last() =~= all.take(i as int));
                assert(next.last() == messages@[i as int]@);
            }
            i += 1;
        }
        assert(all.take(i as int) =~= all);
    }

    /// Takes the next delivery from one of the queues.
    pub fn pop_kind(&mut self, kind: QueueKind) -> (r: Vec<Message>)
        ensures
            r.deep_view() == old(self)@.next_delivery(kind),
            final(self)@ == old(self)@.after_delivery(kind),
            old(self)@.wf() ==> final(self)@.wf(),
    {
        let ghost before = self@;
        let r = match kind {
            QueueKind::Steering => take_delivery(&mut self.steering, self.steering_mode),
            QueueKind::FollowUp => take_delivery(&mut self.follow_up, self.follow_up_mode),
        };
        assert(self@ == before.after_delivery(kind));
        r
    }

    /// Takes the messages that are due at a delivery point.
    pub fn pop_steering(&mut self) -> (r: Vec<Message>)
        ensures
            r.deep_view() == old(self)@.next_delivery(QueueKind::Steering),
            final(self)@ == old(self)@.after_delivery(QueueKind::Steering),
            old(self)@.wf() ==> final(self)@.wf(),
    {
        self.pop_kind(QueueKind::Steering)
    }

    /// Takes the messages that are due when the run is idle.
    pub fn pop_follow_up(&mut self) -> (r: Vec<Message>)
        ensures
            r.deep_view() == old(self)@.next_delivery(QueueKind::FollowUp),
            final(self)@ == old(self)@.after_delivery(QueueKind::FollowUp),
            old(self)@.wf() ==> final(self)@.wf(),
    {
        self.pop_kind(QueueKind::FollowUp)
    }
}

fn take_delivery(entries: &mut VecDeque<QueuedMessage>, mode: QueueMode) -> (r: Vec<Message>)
    ensures
        r.deep_view() == delivered(queued(old(entries)@), mode),
        queued(final(entries)@) == left_over(queued(old(entries)@), mode),
{
    let ghost all = queued(entries@);
    let mut r: Vec<Message> = Vec::new();
    match mode {
        QueueMode::All => {
            assert(all.skip(0) =~= all);
            while entries.len() > 0
                invariant
                    r@.len() + entries@.len() == all.len(),
                    queued(entries@) == all.skip(r@.len() as int),
                    forall|j: int| 0 <= j < r@.len() ==> (#[trigger] r@[j])@ == all[j].message,
                decreases entries@.len(),
            {
                let ghost rest = entries@;
                if let Some(entry) = entries.pop_front() {
                    assert(entry@ == queued(rest)[0]);
                    assert(queued(entries@) =~= queued(rest).drop_first());
                    assert(queued(rest).drop_first() =~= all.skip((r@.len() + 1) as int));
                    r.push(entry.message);
                }
            }
            assert(r.deep_view() =~= delivered(all, mode));
            assert(queued(entries@) =~= left_over(all, mode));
        },
        QueueMode::OneAtATime => {
            let ghost rest = entries@;
            match entries.pop_front() {
                Some(entry) => {
                    assert(entry@ == all[0]);
                    assert(queued(entries@) =~= all.drop_first());
                    r.push(entry.message);
                    assert(r.deep_view() =~= delivered(all, mode));
                },
                None => {
                    assert(r.deep_view() =~= delivered(all, mode));
                },
            }
        },
    }
    r
}

/// Messages come out in the order in which they were queued: a queue holds the latest of what was
/// there before followed by what was queued since, as many as it has room for, and a delivery takes
/// from the front.
pub proof fn queue_is_first_in_first_out(
    q: MessageQueueView,
    kind: QueueKind,
    messages: Seq<MessageView>,
)
    requires
        q.wf(),
    ensures
        contents(q.pushed_all(kind, messages), kind) == latest(
            contents(q, kind) + messages,
            MessageQueueView::capacity(kind),
        ),
        contents(q, kind) == q.next_delivery(kind) + contents(q.after_delivery(kind), kind),
    decreases messages.len(),
{
    let capacity = MessageQueueView::capacity(kind);
    assert(contents(q, kind) =~= q.next_delivery(kind) + contents(q.after_delivery(kind), kind));
    if messages.len() > 0 {
        queue_is_first_in_first_out(q, kind, messages.drop_last());
        let before = q.pushed_all(kind, messages.drop_last());
        let shorter = contents(q, kind) + messages.drop_last();
        assert(contents(before, kind) == latest(shorter, capacity));
        assert(contents(before, kind).len() == before.of_kind(kind).len());
        assert(contents(q, kind) + messages =~= shorter.push(messages.last()));
        assert(contents(q.pushed_all(kind, messages), kind) =~= bounded_push(
            contents(before, kind),
            messages.last(),
            capacity,
        ));
        assert(bounded_push(latest(shorter, capacity), messages.last(), capacity) =~= latest(
            shorter.push(messages.last()),
            capacity,
        ));
    } else {
        assert(contents(q, kind) + messages =~= contents(q, kind));
    }
}

/// The last `n` entries of a list, or all if there are no more.
pub open spec fn latest<A>(s: Seq<A>, n: nat) -> Seq<A> {
    if s.len() <= n {
        s
    } else {
        s.skip(s.len() - n)
    }
}

/// The messages of a queue, oldest first.
pub open spec fn contents(q: MessageQueueView, kind: QueueKind) -> Seq<MessageView> {
    q.of_kind(kind).map_values(|e: QueuedMessageView| e.message)
}

/// Queueing and delivering keep every queue within its bound, and leave the other queue alone.
pub proof fn queues_stay_bounded_and_apart(
    q: MessageQueueView,
    kind: QueueKind,
    other: QueueKind,
    message: MessageView,
)
    requires
        q.wf(),
        kind != other,
    ensures
        q.pushed(kind, message).wf(),
        q.after_delivery(kind).wf(),
        q.pushed(kind, message).of_kind(other) == q.of_kind(other),
        q.after_delivery(kind).of_kind(other) == q.of_kind(other),
{
}

/// Numbers grow from message to message until they reach the greatest one.
pub proof fn queue_numbers_grow(
    q: MessageQueueView,
    kind: QueueKind,
    message: MessageView,
)
    ensures
        q.pushed(kind, message).of_kind(kind).last().seq == q.next_seq,
        q.next_seq < u64::MAX ==> q.pushed(kind, message).next_seq > q.next_seq,
        q.next_seq == u64::MAX ==> q.pushed(kind, message).next_seq == u64::MAX,
{
}

} // verus!
