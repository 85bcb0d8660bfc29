//! What extensions may ask of a session: messages, and the state that they get to see.
use std::collections::VecDeque;
use vstd::prelude::*;

use crate::clock::now_millis;
use crate::json::{
    field_views, insert_field, inserted, object, opt_json, put_field, text_value, Json, JsonView,
};
use crate::model::{
    CustomMessage, CustomMessageView, Message, MessageView, UserContent, UserContentView,
    UserMessage, UserMessageView,
};
use crate::queue::{
    bounded_push, QueueKind, QueueMode, MAX_FOLLOW_UP_QUEUE_SIZE, MAX_STEERING_QUEUE_SIZE,
};

verus! {

/// The delivery modes that extensions get to see.
#[derive(Debug, Clone, Copy, PartialEq, Eq, Structural)]
pub struct ExtensionQueueModeState {
    pub steering_mode: QueueMode,
    pub follow_up_mode: QueueMode,
}

impl ExtensionQueueModeState {
    /// The given modes.
    pub fn new(steering_mode: QueueMode, follow_up_mode: QueueMode) -> (r: Self)
        ensures
            r.steering_mode == steering_mode,
            r.follow_up_mode == follow_up_mode,
    {
        ExtensionQueueModeState { steering_mode, follow_up_mode }
    }

    /// Changes the modes.
    pub fn set_modes(&mut self, steering_mode: QueueMode, follow_up_mode: QueueMode)
        ensures
            final(self).steering_mode == steering_mode,
            final(self).follow_up_mode == follow_up_mode,
    {
        self.steering_mode = steering_mode;
        self.follow_up_mode = follow_up_mode;
    }
}

/// Messages that extensions put in while a run was streaming.
#[derive(Debug)]
pub struct ExtensionInjectedQueue {
    pub steering: VecDeque<Message>,
    pub follow_up: VecDeque<Message>,
    pub steering_mode: QueueMode,
    pub follow_up_mode: QueueMode,
}

/// The mathematical value of [`ExtensionInjectedQueue`].
#[verifier::ext_equal]
pub struct ExtensionInjectedQueueView {
    pub steering: Seq<MessageView>,
    pub follow_up: Seq<MessageView>,
    pub steering_mode: QueueMode,
    pub follow_up_mode: QueueMode,
}

/// The values of messages.
pub open spec fn message_views(ms: Seq<Message>) -> Seq<MessageView> {
    ms.map_values(|m: Message| m@)
}

impl View for ExtensionInjectedQueue {
    type V = ExtensionInjectedQueueView;

    open spec fn view(&self) -> ExtensionInjectedQueueView {
        ExtensionInjectedQueueView {
            steering: message_views(self.steering@),
            follow_up: message_views(self.follow_up@),
            steering_mode: self.steering_mode,
            follow_up_mode: self.follow_up_mode,
        }
    }
}

/// The values of queues.
pub open spec fn injected_views(queues: Seq<ExtensionInjectedQueue>) -> Seq<
    ExtensionInjectedQueueView,
> {
    queues.map_values(|q: ExtensionInjectedQueue| q@)
}

/// What one delivery takes: everything, or the first message.
pub open spec fn taken(s: Seq<MessageView>, mode: QueueMode) -> Seq<MessageView> {
    match mode {
        QueueMode::All => s,
        QueueMode::OneAtATime => if s.len() == 0 {
            s
        } else {
            seq![s[0]]
        },
    }
}

/// What one delivery leaves behind.
pub open spec fn left(s: Seq<MessageView>, mode: QueueMode) -> Seq<MessageView> {
    match mode {
        QueueMode::All => Seq::empty(),
        QueueMode::OneAtATime => if s.len() == 0 {
            s
        } else {
            s.drop_first()
        },
    }
}

impl ExtensionInjectedQueueView {
    /// This queue with one more message of a kind. A full queue drops its oldest message.
    pub open spec fn pushed(self, kind: QueueKind, message: MessageView) -> Self {
        match kind {
            QueueKind::Steering => ExtensionInjectedQueueView {
                steering: bounded_push(self.steering, message, MAX_STEERING_QUEUE_SIZE as nat),
                ..self
            },
            QueueKind::FollowUp => ExtensionInjectedQueueView {
                follow_up: bounded_push(self.follow_up, message, MAX_FOLLOW_UP_QUEUE_SIZE as nat),
                ..self
            },
        }
    }

    /// What the next delivery of a kind takes.
    pub open spec fn next_delivery(self, kind: QueueKind) -> Seq<MessageView> {
        match kind {
            QueueKind::Steering => taken(self.steering, self.steering_mode),
            QueueKind::FollowUp => taken(self.follow_up, self.follow_up_mode),
        }
    }

    /// This queue after the next delivery of a kind.
    pub open spec fn after_delivery(self, kind: QueueKind) -> Self {
        match kind {
            QueueKind::Steering => ExtensionInjectedQueueView {
                steering: left(self.steering, self.steering_mode),
                ..self
            },
            QueueKind::FollowUp => ExtensionInjectedQueueView {
                follow_up: left(self.follow_up, self.follow_up_mode),
                ..self
            },
        }
    }
}

fn push_bounded(queue: &mut VecDeque<Message>, message: Message, capacity: usize)
    requires
        capacity > 0,
    ensures
        message_views(final(queue)@) == bounded_push(
            message_views(old(queue)@),
            message@,
            capacity as nat,
        ),
{
    let ghost all = message_views(queue@);
    if queue.len() >= capacity {
        let _ = queue.pop_front();
        assert(message_views(queue@) =~= all.drop_first());
    }
    let ghost kept = message_views(queue@);
    queue.push_back(message);
    assert(message_views(queue@) =~= kept.push(message@));
}

fn take_messages(queue: &mut VecDeque<Message>, mode: QueueMode) -> (r: Vec<Message>)
    ensures
        r.deep_view() == taken(message_views(old(queue)@), mode),
        message_views(final(queue)@) == left(message_views(old(queue)@), mode),
{
    let ghost all = message_views(queue@);
    let mut r: Vec<Message> = Vec::new();
    match mode {
        QueueMode::All => {
            assert(all.skip(0) =~= all);
            while queue.len() > 0
                invariant
                    r@.len() + queue@.len() == all.len(),
                    message_views(queue@) == all.skip(r@.len() as int),
                    forall|j: int| 0 <= j < r@.len() ==> (#[trigger] r@[j])@ == all[j],
                decreases queue@.len(),
            {
                let ghost rest = message_views(queue@);
                if let Some(message) = queue.pop_front() {
                    assert(message@ == rest[0]);
                    assert(message_views(queue@) =~= rest.drop_first());
                    assert(rest.drop_first() =~= all.skip((r@.len() + 1) as int));
                    r.push(message);
                }
            }
            assert(r.deep_view() =~= all);
            assert(message_views(queue@) =~= Seq::empty());
        },
        QueueMode::OneAtATime => {
            match queue.pop_front() {
                Some(message) => {
                    assert(message@ == all[0]);
                    assert(message_views(queue@) =~= all.drop_first());
                    r.push(message);
                    assert(r.deep_view() =~= seq![all[0]]);
                },
                None => {
                    assert(r.deep_view() =~= all);
                },
            }
        },
    }
    r
}

impl ExtensionInjectedQueue {
    /// An empty queue with the given delivery modes.
    pub fn new(steering_mode: QueueMode, follow_up_mode: QueueMode) -> (r: Self)
        ensures
            r@ == (ExtensionInjectedQueueView {
                steering: Seq::empty(),
                follow_up: Seq::empty(),
                steering_mode,
                follow_up_mode,
            }),
    {
        let r = ExtensionInjectedQueue {
            steering: VecDeque::new(),
            follow_up: VecDeque::new(),
            steering_mode,
            follow_up_mode,
        };
        assert(r@.steering =~= Seq::empty());
        assert(r@.follow_up =~= Seq::empty());
        r
    }

    /// Changes the delivery modes.
    pub fn set_modes(&mut self, steering_mode: QueueMode, follow_up_mode: QueueMode)
        ensures
            final(self)@ == (ExtensionInjectedQueueView {
                steering_mode,
                follow_up_mode,
                ..old(self)@
            }),
    {
        self.steering_mode = steering_mode;
        self.follow_up_mode = follow_up_mode;
    }

    /// Puts in a message for the next delivery point.
    pub fn push_steering(&mut self, message: Message)
        ensures
            final(self)@ == old(self)@.pushed(QueueKind::Steering, message@),
    {
        push_bounded(&mut self.steering, message, MAX_STEERING_QUEUE_SIZE);
    }

    /// Puts in a message for when the run becomes idle.
    pub fn push_follow_up(&mut self, message: Message)
        ensures
            final(self)@ == old(self)@.pushed(QueueKind::FollowUp, message@),
    {
        push_bounded(&mut self.follow_up, message, MAX_FOLLOW_UP_QUEUE_SIZE);
    }

    /// Takes the messages that are due at a delivery point.
    pub fn pop_steering(&mut self) -> (r: Vec<Message>)
        ensures
            r.deep_view() == old(self)@.next_delivery(QueueKind::Steering),
            final(self)@ == old(self)@.after_delivery(QueueKind::Steering),
    {
        take_messages(&mut self.steering, self.steering_mode)
    }

    /// Takes the messages that are due when the run is idle.
    pub fn pop_follow_up(&mut self) -> (r: Vec<Message>)
        ensures
            r.deep_view() == old(self)@.next_delivery(QueueKind::FollowUp),
            final(self)@ == old(self)@.after_delivery(QueueKind::FollowUp),
    {
        take_messages(&mut self.follow_up, self.follow_up_mode)
    }
}

impl Default for ExtensionInjectedQueue {
    fn default() -> (r: Self)
        ensures
            r@ == (ExtensionInjectedQueueView {
                steering: Seq::empty(),
                follow_up: Seq::empty(),
                steering_mode: QueueMode::OneAtATime,
                follow_up_mode: QueueMode::OneAtATime,
            }),
    {
        ExtensionInjectedQueue::new(QueueMode::OneAtATime, QueueMode::OneAtATime)
    }
}

/// What an extension asked for while the session was idle.
#[derive(Debug, PartialEq, Eq)]
pub enum PendingIdleAction {
    /// A run with a message of the extension.
    CustomMessage(Message),
    /// A run with a text of the user.
    UserText(String),
}

/// The mathematical value of [`PendingIdleAction`].
#[verifier::ext_equal]
pub enum PendingIdleActionView {
    CustomMessage(MessageView),
    UserText(Seq<char>),
}

impl View for PendingIdleAction {
    type V = PendingIdleActionView;

    open spec fn view(&self) -> PendingIdleActionView {
        match *self {
            PendingIdleAction::CustomMessage(m) => PendingIdleActionView::CustomMessage(m@),
            PendingIdleAction::UserText(t) => PendingIdleActionView::UserText(t@),
        }
    }
}

impl DeepView for PendingIdleAction {
    type V = PendingIdleActionView;

    open spec fn deep_view(&self) -> PendingIdleActionView {
        self@
    }
}

/// The values of idle actions.
pub open spec fn idle_views(actions: Seq<PendingIdleAction>) -> Seq<PendingIdleActionView> {
    actions.map_values(|a: PendingIdleAction| a@)
}

/// When an extension wants a message delivered.
#[derive(Debug, Clone, Copy, PartialEq, Eq, Structural)]
pub enum ExtensionDeliverAs {
    Steer,
    FollowUp,
    NextTurn,
}

/// A message of an extension.
#[derive(Debug, PartialEq, Eq)]
pub struct ExtensionSendMessage {
    pub content: String,
    pub custom_type: String,
    pub display: bool,
    pub details: Option<Json>,
    pub trigger_turn: bool,
    pub deliver_as: Option<ExtensionDeliverAs>,
}

/// A text that an extension sends in the name of the user.
#[derive(Debug, PartialEq, Eq)]
pub struct ExtensionSendUserMessage {
    pub text: String,
    pub deliver_as: Option<ExtensionDeliverAs>,
}

/// Where a message of an extension goes.
#[derive(Debug, Clone, Copy, PartialEq, Eq, Structural)]
pub enum MessageRoute {
    /// Into the session, without a run.
    Session,
    /// To the next delivery point of the run.
    Steering,
    /// To the end of the run.
    FollowUp,
    /// To a run of its own, once the session is idle.
    Idle,
}

/// Where a message goes that reaches a streaming run.
pub open spec fn streaming_route(deliver_as: Option<ExtensionDeliverAs>) -> MessageRoute {
    match deliver_as {
        Some(ExtensionDeliverAs::FollowUp) => MessageRoute::FollowUp,
        _ => MessageRoute::Steering,
    }
}

/// Where a message of an extension goes: one for the next turn into the session; into the run while
/// it streams; into the session while a turn is under way; otherwise to a run of its own if it is to
/// trigger one.
pub open spec fn custom_route(
    deliver_as: Option<ExtensionDeliverAs>,
    is_streaming: bool,
    is_turn_active: bool,
    trigger_turn: bool,
) -> MessageRoute {
    if deliver_as == Some(ExtensionDeliverAs::NextTurn) {
        MessageRoute::Session
    } else if is_streaming {
        streaming_route(deliver_as)
    } else if is_turn_active || !trigger_turn {
        MessageRoute::Session
    } else {
        MessageRoute::Idle
    }
}

/// Where a text in the name of the user goes: into the run while it streams, into the session while
/// a turn is under way, and otherwise to a run of its own.
pub open spec fn user_route(
    deliver_as: Option<ExtensionDeliverAs>,
    is_streaming: bool,
    is_turn_active: bool,
) -> MessageRoute {
    if is_streaming {
        streaming_route(deliver_as)
    } else if is_turn_active {
        MessageRoute::Session
    } else {
        MessageRoute::Idle
    }
}

fn route_of_custom(
    deliver_as: Option<ExtensionDeliverAs>,
    is_streaming: bool,
    is_turn_active: bool,
    trigger_turn: bool,
) -> (r: MessageRoute)
    ensures
        r == custom_route(deliver_as, is_streaming, is_turn_active, trigger_turn),
{
    if let Some(ExtensionDeliverAs::NextTurn) = deliver_as {
        MessageRoute::Session
    } else if is_streaming {
        match deliver_as {
            Some(ExtensionDeliverAs::FollowUp) => MessageRoute::FollowUp,
            _ => MessageRoute::Steering,
        }
    } else if is_turn_active || !trigger_turn {
        MessageRoute::Session
    } else {
        MessageRoute::Idle
    }
}

fn route_of_user(
    deliver_as: Option<ExtensionDeliverAs>,
    is_streaming: bool,
    is_turn_active: bool,
) -> (r: MessageRoute)
    ensures
        r == user_route(deliver_as, is_streaming, is_turn_active),
{
    if is_streaming {
        match deliver_as {
            Some(ExtensionDeliverAs::FollowUp) => MessageRoute::FollowUp,
            _ => MessageRoute::Steering,
        }
    } else if is_turn_active {
        MessageRoute::Session
    } else {
        MessageRoute::Idle
    }
}

/// What extensions share with their session: whether it is busy, and what they put in.
///
/// Each time extensions are connected, they get a queue of their own. Queues are named by how many
/// came before them.
#[derive(Debug)]
pub struct HostState {
    pub is_streaming: bool,
    pub is_compacting: bool,
    pub is_turn_active: bool,
    /// The queue of the extensions that were connected last.
    pub injected: ExtensionInjectedQueue,
    /// The queues of extensions that were connected before, oldest first.
    pub earlier: Vec<ExtensionInjectedQueue>,
    pub pending_idle_actions: VecDeque<PendingIdleAction>,
}

/// The mathematical value of [`HostState`].
#[verifier::ext_equal]
pub struct HostStateView {
    pub is_streaming: bool,
    pub is_compacting: bool,
    pub is_turn_active: bool,
    pub injected: ExtensionInjectedQueueView,
    pub earlier: Seq<ExtensionInjectedQueueView>,
    pub idle: Seq<PendingIdleActionView>,
}

impl View for HostState {
    type V = HostStateView;

    open spec fn view(&self) -> HostStateView {
        HostStateView {
            is_streaming: self.is_streaming,
            is_compacting: self.is_compacting,
            is_turn_active: self.is_turn_active,
            injected: self.injected@,
            earlier: injected_views(self.earlier@),
            idle: idle_views(self.pending_idle_actions@),
        }
    }
}

/// The message that an extension sends, as the session holds it.
pub open spec fn custom_message(m: ExtensionSendMessage, now: i64) -> MessageView {
    MessageView::Custom(
        CustomMessageView {
            content: m.content@,
            custom_type: m.custom_type@,
            display: m.display,
            details: opt_json(m.details),
            timestamp: now,
        },
    )
}

/// A text of the user, as the session holds it.
pub open spec fn user_text_message(text: Seq<char>, now: i64) -> MessageView {
    MessageView::User(UserMessageView { content: UserContentView::Text(text), timestamp: now })
}

/// The value of an optional message.
pub open spec fn opt_message(m: Option<Message>) -> Option<MessageView> {
    match m {
        Some(v) => Some(v@),
        None => None,
    }
}

impl HostStateView {
    /// The queue of a connection.
    pub open spec fn queue_of(self, connection: nat) -> ExtensionInjectedQueueView {
        if connection < self.earlier.len() {
            self.earlier[connection as int]
        } else {
            self.injected
        }
    }

    /// This state with the queue of a connection replaced.
    pub open spec fn with_queue(
        self,
        connection: nat,
        queue: ExtensionInjectedQueueView,
    ) -> HostStateView {
        if connection < self.earlier.len() {
            HostStateView { earlier: self.earlier.update(connection as int, queue), ..self }
        } else {
            HostStateView { injected: queue, ..self }
        }
    }

    /// This state after a message was put into the queue of a connection.
    pub open spec fn pushed(
        self,
        connection: nat,
        kind: QueueKind,
        message: MessageView,
    ) -> HostStateView {
        self.with_queue(connection, self.queue_of(connection).pushed(kind, message))
    }

    /// This state with further extensions connected: their queue is new, and those that were there
    /// stay as they are.
    pub open spec fn connected(self, modes: ExtensionQueueModeState) -> HostStateView {
        HostStateView {
            injected: ExtensionInjectedQueueView {
                steering: Seq::empty(),
                follow_up: Seq::empty(),
                steering_mode: modes.steering_mode,
                follow_up_mode: modes.follow_up_mode,
            },
            earlier: self.earlier.push(self.injected),
            ..self
        }
    }

    /// This state after a message of a connection went its way, and what is left for the session.
    pub open spec fn routed(
        self,
        connection: nat,
        route: MessageRoute,
        message: MessageView,
        idle: PendingIdleActionView,
    ) -> (HostStateView, Option<MessageView>) {
        match route {
            MessageRoute::Session => (self, Some(message)),
            MessageRoute::Steering => (self.pushed(connection, QueueKind::Steering, message), None),
            MessageRoute::FollowUp => (self.pushed(connection, QueueKind::FollowUp, message), None),
            MessageRoute::Idle => (HostStateView { idle: self.idle.push(idle), ..self }, None),
        }
    }
}

impl HostState {
    /// The state of a session at rest.
    pub fn new(steering_mode: QueueMode, follow_up_mode: QueueMode) -> (r: Self)
        ensures
            r@ == (HostStateView {
                is_streaming: false,
                is_compacting: false,
                is_turn_active: false,
                injected: ExtensionInjectedQueueView {
                    steering: Seq::empty(),
                    follow_up: Seq::empty(),
                    steering_mode,
                    follow_up_mode,
                },
                earlier: Seq::empty(),
                idle: Seq::empty(),
            }),
    {
        let r = HostState {
            is_streaming: false,
            is_compacting: false,
            is_turn_active: false,
            injected: ExtensionInjectedQueue::new(steering_mode, follow_up_mode),
            earlier: Vec::new(),
            pending_idle_actions: VecDeque::new(),
        };
        assert(r@.idle =~= Seq::empty());
        assert(r@.earlier =~= Seq::empty());
        r
    }

    /// The connection of the extensions that were connected last.
    pub fn connection(&self) -> (r: usize)
        ensures
            r == self@.earlier.len(),
    {
        self.earlier.len()
    }

    /// Connects further extensions. What waits in earlier queues goes on waiting.
    pub fn connect(&mut self, modes: ExtensionQueueModeState)
        ensures
            final(self)@ == old(self)@.connected(modes),
    {
        let ghost before = self@;
        let mut fresh = ExtensionInjectedQueue::new(modes.steering_mode, modes.follow_up_mode);
        std::mem::swap(&mut self.injected, &mut fresh);
        self.earlier.push(fresh);
        assert(self@.earlier =~= before.earlier.push(before.injected));
    }

    fn push(&mut self, connection: usize, kind: QueueKind, message: Message)
        ensures
            final(self)@ == old(self)@.pushed(connection as nat, kind, message@),
    {
        let ghost before = self@;
        if connection < self.earlier.len() {
            let queue = &mut self.earlier[connection];
            match kind {
                QueueKind::Steering => queue.push_steering(message),
                QueueKind::FollowUp => queue.push_follow_up(message),
            }
            assert(self@.earlier =~= before.pushed(connection as nat, kind, message@).earlier);
        } else {
            match kind {
                QueueKind::Steering => self.injected.push_steering(message),
                QueueKind::FollowUp => self.injected.push_follow_up(message),
            }
        }
    }

    /// Takes the next delivery from the queue of a connection.
    pub fn pop_kind(&mut self, connection: usize, kind: QueueKind) -> (r: Vec<Message>)
        ensures
            r.deep_view() == old(self)@.queue_of(connection as nat).next_delivery(kind),
            final(self)@ == old(self)@.with_queue(
                connection as nat,
                old(self)@.queue_of(connection as nat).after_delivery(kind),
            ),
    {
        let ghost before = self@;
        if connection < self.earlier.len() {
            let queue = &mut self.earlier[connection];
            let r = match kind {
                QueueKind::Steering => queue.pop_steering(),
                QueueKind::FollowUp => queue.pop_follow_up(),
            };
            assert(self@.earlier =~= before.with_queue(
                connection as nat,
                before.queue_of(connection as nat).after_delivery(kind),
            ).earlier);
            r
        } else {
            match kind {
                QueueKind::Steering => self.injected.pop_steering(),
                QueueKind::FollowUp => self.injected.pop_follow_up(),
            }
        }
    }

    /// Takes the messages of a connection that are due at a delivery point.
    pub fn pop_steering(&mut self, connection: usize) -> (r: Vec<Message>)
        ensures
            r.deep_view() == old(self)@.queue_of(connection as nat).next_delivery(
                QueueKind::Steering,
            ),
            final(self)@ == old(self)@.with_queue(
                connection as nat,
                old(self)@.queue_of(connection as nat).after_delivery(QueueKind::Steering),
            ),
    {
        self.pop_kind(connection, QueueKind::Steering)
    }

    /// Takes the messages of a connection that are due when the run is idle.
    pub fn pop_follow_up(&mut self, connection: usize) -> (r: Vec<Message>)
        ensures
            r.deep_view() == old(self)@.queue_of(connection as nat).next_delivery(
                QueueKind::FollowUp,
            ),
            final(self)@ == old(self)@.with_queue(
                connection as nat,
                old(self)@.queue_of(connection as nat).after_delivery(QueueKind::FollowUp),
            ),
    {
        self.pop_kind(connection, QueueKind::FollowUp)
    }

    /// Puts a message of a connection into its queue for the given time; without one, it steers the
    /// run.
    pub fn enqueue(
        &mut self,
        connection: usize,
        deliver_as: Option<ExtensionDeliverAs>,
        message: Message,
    )
        ensures
            final(self)@ == old(self)@.pushed(
                connection as nat,
                if streaming_route(deliver_as) == MessageRoute::FollowUp {
                    QueueKind::FollowUp
                } else {
                    QueueKind::Steering
                },
                message@,
            ),
    {
        match deliver_as {
            Some(ExtensionDeliverAs::FollowUp) => {
                self.push(connection, QueueKind::FollowUp, message)
            },
            _ => self.push(connection, QueueKind::Steering, message),
        }
    }

    /// Notes what is to be done once the session is idle.
    pub fn queue_pending_idle_action(&mut self, action: PendingIdleAction)
        ensures
            final(self)@ == (HostStateView { idle: old(self)@.idle.push(action@), ..old(self)@ }),
    {
        let ghost before = self@.idle;
        self.pending_idle_actions.push_back(action);
        assert(self@.idle =~= before.push(action@));
    }

    /// Takes everything that was to be done once the session is idle.
    pub fn take_pending_idle_actions(&mut self) -> (r: Vec<PendingIdleAction>)
        ensures
            r.deep_view() == old(self)@.idle,
            final(self)@ == (HostStateView { idle: Seq::empty(), ..old(self)@ }),
    {
        let ghost all = self@.idle;
        let ghost start = self@;
        let mut r: Vec<PendingIdleAction> = Vec::new();
        assert(all.skip(0) =~= all);
        while self.pending_idle_actions.len() > 0
            invariant
                r@.len() + self.pending_idle_actions@.len() == all.len(),
                self@ == (HostStateView { idle: all.skip(r@.len() as int), ..start }),
                forall|j: int| 0 <= j < r@.len() ==> (#[trigger] r@[j])@ == all[j],
            decreases self.pending_idle_actions@.len(),
        {
            let ghost rest = self@.idle;
            if let Some(action) = self.pending_idle_actions.pop_front() {
                assert(action@ == rest[0]);
                assert(self@.idle =~= rest.drop_first());
                assert(rest.drop_first() =~= all.skip((r@.len() + 1) as int));
                r.push(action);
            }
        }
        assert(r.deep_view() =~= all);
        assert(self@.idle =~= Seq::empty());
        r
    }

    /// Takes a message of an extension at the time `now`, and hands back what the session is to hold.
    pub fn send_message_at(
        &mut self,
        connection: usize,
        message: ExtensionSendMessage,
        now: i64,
    ) -> (r: Option<Message>)
        ensures
            (final(self)@, opt_message(r)) == old(self)@.routed(
                connection as nat,
                custom_route(
                    message.deliver_as,
                    old(self)@.is_streaming,
                    old(self)@.is_turn_active,
                    message.trigger_turn,
                ),
                custom_message(message, now),
                PendingIdleActionView::CustomMessage(custom_message(message, now)),
            ),
    {
        let route = route_of_custom(
            message.deliver_as,
            self.is_streaming,
            self.is_turn_active,
            message.trigger_turn,
        );
        let custom = Message::Custom(
            CustomMessage {
                content: message.content,
                custom_type: message.custom_type,
                display: message.display,
                details: message.details,
                timestamp: now,
            },
        );
        match route {
            MessageRoute::Session => Some(custom),
            MessageRoute::Steering => {
                self.push(connection, QueueKind::Steering, custom);
                None
            },
            MessageRoute::FollowUp => {
                self.push(connection, QueueKind::FollowUp, custom);
                None
            },
            MessageRoute::Idle => {
                self.queue_pending_idle_action(PendingIdleAction::CustomMessage(custom));
                None
            },
        }
    }

    /// Takes a message of an extension at the present time, and hands back what the session is to
    /// hold.
    pub fn send_message(
        &mut self,
        connection: usize,
        message: ExtensionSendMessage,
    ) -> (r: Option<Message>)
        ensures
            exists|now: i64|
                (final(self)@, opt_message(r)) == old(self)@.routed(
                    connection as nat,
                    custom_route(
                        message.deliver_as,
                        old(self)@.is_streaming,
                        old(self)@.is_turn_active,
                        message.trigger_turn,
                    ),
                    #[trigger] custom_message(message, now),
                    PendingIdleActionView::CustomMessage(custom_message(message, now)),
                ),
    {
        let now: i64 = now_millis();
        self.send_message_at(connection, message, now)
    }

    /// Takes a text in the name of the user at the time `now`, and hands back what the session is to
    /// hold.
    pub fn send_user_message_at(
        &mut self,
        connection: usize,
        message: ExtensionSendUserMessage,
        now: i64,
    ) -> (r: Option<Message>)
        ensures
            (final(self)@, opt_message(r)) == old(self)@.routed(
                connection as nat,
                user_route(
                    message.deliver_as,
                    old(self)@.is_streaming,
                    old(self)@.is_turn_active,
                ),
                user_text_message(message.text@, now),
                PendingIdleActionView::UserText(message.text@),
            ),
    {
        let route = route_of_user(message.deliver_as, self.is_streaming, self.is_turn_active);
        let user = Message::User(
            UserMessage { content: UserContent::Text(message.text.clone()), timestamp: now },
        );
        match route {
            MessageRoute::Session => Some(user),
            MessageRoute::Steering => {
                self.push(connection, QueueKind::Steering, user);
                None
            },
            MessageRoute::FollowUp => {
                self.push(connection, QueueKind::FollowUp, user);
                None
            },
            MessageRoute::Idle => {
                self.queue_pending_idle_action(PendingIdleAction::UserText(message.text));
                None
            },
        }
    }

    /// Takes a text in the name of the user at the present time, and hands back what the session is
    /// to hold.
    pub fn send_user_message(
        &mut self,
        connection: usize,
        message: ExtensionSendUserMessage,
    ) -> (r: Option<Message>)
        ensures
            exists|now: i64|
                (final(self)@, opt_message(r)) == old(self)@.routed(
                    connection as nat,
                    user_route(
                        message.deliver_as,
                        old(self)@.is_streaming,
                        old(self)@.is_turn_active,
                    ),
                    #[trigger] user_text_message(message.text@, now),
                    PendingIdleActionView::UserText(message.text@),
                ),
    {
        let now: i64 = now_millis();
        self.send_user_message_at(connection, message, now)
    }
}

/// What extensions see of a session whose own state is unknown.
pub open spec fn fallback_state(
    host: HostStateView,
    modes: ExtensionQueueModeState,
    auto_compaction: bool,
) -> JsonView {
    JsonView::Object(
        seq![
            ("model"@, JsonView::Null),
            ("thinkingLevel"@, JsonView::Text("off"@)),
            ("durabilityMode"@, JsonView::Text("balanced"@)),
            ("isStreaming"@, JsonView::Bool(host.is_streaming)),
            ("isCompacting"@, JsonView::Bool(host.is_compacting)),
            ("steeringMode"@, JsonView::Text(modes.steering_mode.name())),
            ("followUpMode"@, JsonView::Text(modes.follow_up_mode.name())),
            ("sessionFile"@, JsonView::Null),
            ("sessionId"@, JsonView::Text(""@)),
            ("sessionName"@, JsonView::Null),
            ("autoCompactionEnabled"@, JsonView::Bool(auto_compaction)),
            ("messageCount"@, JsonView::Unsigned(0)),
            ("pendingMessageCount"@, JsonView::Unsigned(0)),
        ],
    )
}

/// What extensions see of a session: its own state with what the host knows better, or a state that
/// says little if the session's is no object.
pub open spec fn shown_state(
    state: JsonView,
    host: HostStateView,
    modes: ExtensionQueueModeState,
    auto_compaction: bool,
) -> JsonView {
    match state {
        JsonView::Object(fields) => {
            let one = inserted(fields, "isStreaming"@, JsonView::Bool(host.is_streaming));
            let two = inserted(one, "isCompacting"@, JsonView::Bool(host.is_compacting));
            let three = inserted(two, "steeringMode"@, JsonView::Text(modes.steering_mode.name()));
            let four = inserted(three, "followUpMode"@, JsonView::Text(modes.follow_up_mode.name()));
            JsonView::Object(
                inserted(four, "autoCompactionEnabled"@, JsonView::Bool(auto_compaction)),
            )
        },
        _ => fallback_state(host, modes, auto_compaction),
    }
}

impl HostState {
    /// What extensions see of a session whose own state is unknown.
    pub fn state_fallback(&self, modes: ExtensionQueueModeState, auto_compaction: bool) -> (r: Json)
        ensures
            r@ == fallback_state(self@, modes, auto_compaction),
    {
        let mut fields: Vec<(String, Json)> = Vec::new();
        put_field(&mut fields, "model", Json::Null);
        put_field(&mut fields, "thinkingLevel", text_value("off"));
        put_field(&mut fields, "durabilityMode", text_value("balanced"));
        put_field(&mut fields, "isStreaming", Json::Bool(self.is_streaming));
        put_field(&mut fields, "isCompacting", Json::Bool(self.is_compacting));
        put_field(&mut fields, "steeringMode", text_value(modes.steering_mode.as_str()));
        put_field(&mut fields, "followUpMode", text_value(modes.follow_up_mode.as_str()));
        put_field(&mut fields, "sessionFile", Json::Null);
        put_field(&mut fields, "sessionId", text_value(""));
        put_field(&mut fields, "sessionName", Json::Null);
        put_field(&mut fields, "autoCompactionEnabled", Json::Bool(auto_compaction));
        put_field(&mut fields, "messageCount", Json::Unsigned(0));
        put_field(&mut fields, "pendingMessageCount", Json::Unsigned(0));
        assert(field_views(fields@) =~= fallback_state(self@, modes, auto_compaction)->Object_0);
        object(fields)
    }

    /// What extensions see of a session.
    pub fn get_state(
        &self,
        state: Json,
        modes: ExtensionQueueModeState,
        auto_compaction: bool,
    ) -> (r: Json)
        ensures
            r@ == shown_state(state@, self@, modes, auto_compaction),
    {
        match state {
            Json::Object(fields) => {
                let mut fields = fields;
                assert(state@->Object_0 =~= field_views(fields@));
                insert_field(&mut fields, "isStreaming", Json::Bool(self.is_streaming));
                insert_field(&mut fields, "isCompacting", Json::Bool(self.is_compacting));
                insert_field(&mut fields, "steeringMode", text_value(modes.steering_mode.as_str()));
                insert_field(
                    &mut fields,
                    "followUpMode",
                    text_value(modes.follow_up_mode.as_str()),
                );
                insert_field(&mut fields, "autoCompactionEnabled", Json::Bool(auto_compaction));
                object(fields)
            },
            _ => self.state_fallback(modes, auto_compaction),
        }
    }
}

/// Messages of different connections do not meet: what one puts in, and what is taken of it, leaves
/// the queues of the others alone.
pub proof fn connections_stay_apart(
    host: HostStateView,
    connection: nat,
    other: nat,
    kind: QueueKind,
    message: MessageView,
)
    requires
        connection <= host.earlier.len(),
        other <= host.earlier.len(),
        connection != other,
    ensures
        host.pushed(connection, kind, message).queue_of(connection) == host.queue_of(
            connection,
        ).pushed(kind, message),
        host.pushed(connection, kind, message).queue_of(other) == host.queue_of(other),
        host.with_queue(connection, host.queue_of(connection).after_delivery(kind)).queue_of(other)
            == host.queue_of(other),
{
}

/// Connecting further extensions loses no message: every queue that was there holds what it held and
/// delivers it as before, and the new one is empty.
pub proof fn connecting_keeps_waiting_messages(
    host: HostStateView,
    modes: ExtensionQueueModeState,
    connection: nat,
    kind: QueueKind,
)
    requires
        connection <= host.earlier.len(),
    ensures
        host.connected(modes).queue_of(connection) == host.queue_of(connection),
        host.connected(modes).queue_of(connection).next_delivery(kind) == host.queue_of(
            connection,
        ).next_delivery(kind),
        host.connected(modes).queue_of(host.earlier.len() + 1).steering.len() == 0,
        host.connected(modes).queue_of(host.earlier.len() + 1).follow_up.len() == 0,
        host.connected(modes).idle == host.idle,
{
}

/// A message starts a run of its own only if the session is at rest.
pub proof fn idle_runs_need_a_session_at_rest(
    deliver_as: Option<ExtensionDeliverAs>,
    is_streaming: bool,
    is_turn_active: bool,
    trigger_turn: bool,
)
    ensures
        custom_route(deliver_as, is_streaming, is_turn_active, trigger_turn) == MessageRoute::Idle
            <==> deliver_as != Some(ExtensionDeliverAs::NextTurn) && !is_streaming
            && !is_turn_active && trigger_turn,
        user_route(deliver_as, is_streaming, is_turn_active) == MessageRoute::Idle <==> !is_streaming
            && !is_turn_active,
{
}

/// Whatever extensions are told of a session, they are told whether it is streaming.
pub proof fn shown_state_tells_streaming(
    state: JsonView,
    host: HostStateView,
    modes: ExtensionQueueModeState,
    auto_compaction: bool,
)
    ensures
        state is Object ==> shown_state(state, host, modes, auto_compaction).field("isStreaming"@)
            == Some(JsonView::Bool(host.is_streaming)),
{
    reveal_strlit("isStreaming");
    reveal_strlit("isCompacting");
    reveal_strlit("steeringMode");
    reveal_strlit("followUpMode");
    reveal_strlit("autoCompactionEnabled");
    if let JsonView::Object(fields) = state {
        let one = inserted(fields, "isStreaming"@, JsonView::Bool(host.is_streaming));
        let two = inserted(one, "isCompacting"@, JsonView::Bool(host.is_compacting));
        let three = inserted(two, "steeringMode"@, JsonView::Text(modes.steering_mode.name()));
        let four = inserted(three, "followUpMode"@, JsonView::Text(modes.follow_up_mode.name()));
        let key = "isStreaming"@;
        assert(key.len() != "isCompacting"@.len());
        assert(key.len() != "steeringMode"@.len());
        assert(key.len() != "followUpMode"@.len());
        assert(key.len() != "autoCompactionEnabled"@.len());
        crate::json::set_field_is_read_back(
            fields,
            "isStreaming"@,
            JsonView::Bool(host.is_streaming),
            key,
        );
        crate::json::set_field_is_read_back(
            one,
            "isCompacting"@,
            JsonView::Bool(host.is_compacting),
            key,
        );
        crate::json::set_field_is_read_back(
            two,
            "steeringMode"@,
            JsonView::Text(modes.steering_mode.name()),
            key,
        );
        crate::json::set_field_is_read_back(
            three,
            "followUpMode"@,
            JsonView::Text(modes.follow_up_mode.name()),
            key,
        );
        crate::json::set_field_is_read_back(
            four,
            "autoCompactionEnabled"@,
            JsonView::Bool(auto_compaction),
            key,
        );
    }
}

} // verus!
