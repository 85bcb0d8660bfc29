use pi_agent::host::{ExtensionDeliverAs, ExtensionQueueModeState, HostState};
use pi_agent::model::{Message, UserContent, UserMessage};
use pi_agent::queue::{
    MessageQueue, QueueKind, QueueMode, MAX_FOLLOW_UP_QUEUE_SIZE, MAX_STEERING_QUEUE_SIZE,
};

fn user_message(text: &str) -> Message {
    Message::User(UserMessage {
        content: UserContent::Text(text.to_string()),
        timestamp: 0,
    })
}

fn assert_user_text(message: &Message, expected: &str) {
    match message {
        Message::User(UserMessage { content: UserContent::Text(text), .. }) => {
            assert_eq!(text, expected);
        }
        other => panic!("expected user text message, got {other:?}"),
    }
}

#[test]
fn message_queue_one_at_a_time() {
    let mut queue = MessageQueue::new(QueueMode::OneAtATime, QueueMode::OneAtATime);
    queue.push_steering(user_message("a"));
    queue.push_steering(user_message("b"));

    let first = queue.pop_steering();
    assert_eq!(first.len(), 1);
    assert!(matches!(
        first.first(),
        Some(Message::User(UserMessage { content, .. }))
            if matches!(content, UserContent::Text(text) if text == "a")
    ));

    let second = queue.pop_steering();
    assert_eq!(second.len(), 1);
    assert!(matches!(
        second.first(),
        Some(Message::User(UserMessage { content, .. }))
            if matches!(content, UserContent::Text(text) if text == "b")
    ));

    assert!(queue.pop_steering().is_empty());
}

#[test]
fn message_queue_all_mode() {
    let mut queue = MessageQueue::new(QueueMode::All, QueueMode::OneAtATime);
    queue.push_steering(user_message("a"));
    queue.push_steering(user_message("b"));

    let drained = queue.pop_steering();
    assert_eq!(drained.len(), 2);
    assert!(queue.pop_steering().is_empty());
}

#[test]
fn message_queue_separates_kinds() {
    let mut queue = MessageQueue::new(QueueMode::OneAtATime, QueueMode::OneAtATime);
    queue.push_steering(user_message("steer"));
    queue.push_follow_up(user_message("follow"));

    let steering = queue.pop_steering();
    assert_eq!(steering.len(), 1);
    assert_eq!(queue.pending_count(), 1);

    let follow = queue.pop_follow_up();
    assert_eq!(follow.len(), 1);
    assert_eq!(queue.pending_count(), 0);
}

#[test]
fn message_queue_seq_increments() {
    let mut queue = MessageQueue::new(QueueMode::OneAtATime, QueueMode::OneAtATime);
    let first = queue.push_steering(user_message("a"));
    let second = queue.push_follow_up(user_message("b"));
    assert!(second > first);
}

#[test]
fn message_queue_seq_saturates_at_u64_max() {
    let mut queue = MessageQueue::new(QueueMode::OneAtATime, QueueMode::OneAtATime);
    queue.next_seq = u64::MAX;

    let first = queue.push_steering(user_message("a"));
    let second = queue.push_follow_up(user_message("b"));

    assert_eq!(first, u64::MAX);
    assert_eq!(second, u64::MAX);
    assert_eq!(queue.pending_count(), 2);
}

#[test]
fn message_queue_follow_up_all_mode_drains_entire_queue_in_order() {
    let mut queue = MessageQueue::new(QueueMode::OneAtATime, QueueMode::All);
    queue.push_follow_up(user_message("f1"));
    queue.push_follow_up(user_message("f2"));

    let follow_up = queue.pop_follow_up();
    assert_eq!(follow_up.len(), 2);
    assert!(matches!(
        follow_up.first(),
        Some(Message::User(UserMessage { content, .. }))
            if matches!(content, UserContent::Text(text) if text == "f1")
    ));
    assert!(matches!(
        follow_up.get(1),
        Some(Message::User(UserMessage { content, .. }))
            if matches!(content, UserContent::Text(text) if text == "f2")
    ));
    assert!(queue.pop_follow_up().is_empty());
}

#[test]
fn message_queue_push_increments_seq_and_counts_both_queues() {
    let mut queue = MessageQueue::new(QueueMode::OneAtATime, QueueMode::OneAtATime);
    assert_eq!(queue.pending_count(), 0);

    assert_eq!(queue.push_steering(user_message("s1")), 0);
    assert_eq!(queue.push_follow_up(user_message("f1")), 1);
    assert_eq!(queue.push_steering(user_message("s2")), 2);

    assert_eq!(queue.pending_count(), 3);
}

#[test]
fn message_queue_pop_steering_one_at_a_time_preserves_order() {
    let mut queue = MessageQueue::new(QueueMode::OneAtATime, QueueMode::OneAtATime);
    queue.push_steering(user_message("s1"));
    queue.push_steering(user_message("s2"));

    let first = queue.pop_steering();
    assert_eq!(first.len(), 1);
    assert_user_text(&first[0], "s1");
    assert_eq!(queue.pending_count(), 1);

    let second = queue.pop_steering();
    assert_eq!(second.len(), 1);
    assert_user_text(&second[0], "s2");
    assert_eq!(queue.pending_count(), 0);

    let empty = queue.pop_steering();
    assert!(empty.is_empty());
}

#[test]
fn message_queue_pop_respects_queue_modes_per_kind() {
    let mut queue = MessageQueue::new(QueueMode::All, QueueMode::OneAtATime);
    queue.push_steering(user_message("s1"));
    queue.push_steering(user_message("s2"));
    queue.push_follow_up(user_message("f1"));
    queue.push_follow_up(user_message("f2"));

    let steering = queue.pop_steering();
    assert_eq!(steering.len(), 2);
    assert_user_text(&steering[0], "s1");
    assert_user_text(&steering[1], "s2");
    assert_eq!(queue.pending_count(), 2);

    let follow_up = queue.pop_follow_up();
    assert_eq!(follow_up.len(), 1);
    assert_user_text(&follow_up[0], "f1");
    assert_eq!(queue.pending_count(), 1);

    let follow_up = queue.pop_follow_up();
    assert_eq!(follow_up.len(), 1);
    assert_user_text(&follow_up[0], "f2");
    assert_eq!(queue.pending_count(), 0);
}

#[test]
fn message_queue_set_modes_applies_to_existing_messages() {
    let mut queue = MessageQueue::new(QueueMode::OneAtATime, QueueMode::OneAtATime);
    queue.push_steering(user_message("s1"));
    queue.push_steering(user_message("s2"));

    let first = queue.pop_steering();
    assert_eq!(first.len(), 1);
    assert_user_text(&first[0], "s1");

    queue.set_modes(QueueMode::All, QueueMode::OneAtATime);
    let remaining = queue.pop_steering();
    assert_eq!(remaining.len(), 1);
    assert_user_text(&remaining[0], "s2");
}

#[test]
fn full_queues_drop_their_oldest_message() {
    let mut queue = MessageQueue::new(QueueMode::All, QueueMode::All);
    for n in 0..MAX_STEERING_QUEUE_SIZE + 2 {
        queue.push_steering(user_message(&format!("s{n}")));
    }
    for n in 0..MAX_FOLLOW_UP_QUEUE_SIZE + 1 {
        queue.push_follow_up(user_message(&format!("f{n}")));
    }
    assert_eq!(queue.pending_count(), MAX_STEERING_QUEUE_SIZE + MAX_FOLLOW_UP_QUEUE_SIZE);
    let steering = queue.pop_steering();
    assert_eq!(steering.len(), 100);
    assert_user_text(&steering[0], "s2");
    assert_user_text(&steering[99], "s101");
    let follow_up = queue.pop_follow_up();
    assert_user_text(&follow_up[0], "f1");
    assert_user_text(&follow_up[99], "f100");
}

#[test]
fn a_message_is_queued_with_the_time_it_arrived_at() {
    let mut queue = MessageQueue::new(QueueMode::OneAtATime, QueueMode::OneAtATime);
    assert_eq!(queue.push_at(QueueKind::Steering, user_message("a"), 17), 0);
    assert_eq!(queue.steering[0].enqueued_at, 17);
    assert_eq!(queue.steering[0].seq, 0);
    queue.push(QueueKind::Steering, user_message("b"));
    // Later than the start of 2020.
    assert!(queue.steering[1].enqueued_at > 1_577_836_800_000);
}

#[test]
fn queue_modes_have_names() {
    assert_eq!(QueueMode::All.as_str(), "all");
    assert_eq!(QueueMode::OneAtATime.as_str(), "one-at-a-time");
}

#[test]
fn messages_pushed_together_keep_their_order() {
    let mut queue = MessageQueue::new(QueueMode::All, QueueMode::All);
    queue.push_all(QueueKind::FollowUp, vec![user_message("a"), user_message("b")]);
    let popped = queue.pop_follow_up();
    assert_eq!(popped.len(), 2);
    assert_user_text(&popped[0], "a");
    assert_user_text(&popped[1], "b");
    assert!(queue.pop_steering().is_empty());
}

#[test]
fn injected_messages_wait_by_kind() {
    let mut host = HostState::new(QueueMode::OneAtATime, QueueMode::All);
    host.enqueue(0, Some(ExtensionDeliverAs::Steer), user_message("s1"));
    host.enqueue(0, Some(ExtensionDeliverAs::Steer), user_message("s2"));
    host.enqueue(0, Some(ExtensionDeliverAs::FollowUp), user_message("f1"));
    host.enqueue(0, Some(ExtensionDeliverAs::FollowUp), user_message("f2"));
    let first = host.injected.pop_steering();
    assert_eq!(first.len(), 1);
    assert_user_text(&first[0], "s1");
    let follow_up = host.injected.pop_follow_up();
    assert_eq!(follow_up.len(), 2);
    assert_user_text(&follow_up[1], "f2");
    assert_eq!(host.injected.pop_steering().len(), 1);
    assert!(host.injected.pop_steering().is_empty());
}

#[test]
fn extensions_that_are_connected_later_do_not_take_earlier_messages() {
    let mut host = HostState::new(QueueMode::OneAtATime, QueueMode::OneAtATime);
    let modes = ExtensionQueueModeState::new(QueueMode::OneAtATime, QueueMode::All);
    host.connect(modes);
    let first = host.connection();
    host.enqueue(first, Some(ExtensionDeliverAs::Steer), user_message("old 1"));
    host.enqueue(first, Some(ExtensionDeliverAs::Steer), user_message("old 2"));
    host.connect(modes);
    let second = host.connection();
    assert_ne!(first, second);
    host.enqueue(second, Some(ExtensionDeliverAs::Steer), user_message("new 1"));
    // Extensions that stay in use after others could not be loaded go on using their own queue.
    host.enqueue(first, Some(ExtensionDeliverAs::FollowUp), user_message("old 3"));
    assert_eq!(host.pop_follow_up(second).len(), 0);
    assert_eq!(host.pop_follow_up(first).len(), 1);
    // One at a time is one of each queue.
    let taken = host.pop_steering(first);
    assert_eq!(taken.len(), 1);
    assert_user_text(&taken[0], "old 1");
    let taken = host.pop_steering(second);
    assert_eq!(taken.len(), 1);
    assert_user_text(&taken[0], "new 1");
    let taken = host.pop_steering(first);
    assert_user_text(&taken[0], "old 2");
    assert!(host.pop_steering(first).is_empty());
    assert!(host.pop_steering(second).is_empty());
}

#[test]
fn a_queue_that_overflows_keeps_the_latest_in_order() {
    let mut queue = MessageQueue::new(QueueMode::All, QueueMode::All);
    let total = MAX_STEERING_QUEUE_SIZE + 3;
    let messages: Vec<Message> = (0..total).map(|i| user_message(&format!("m{i}"))).collect();
    queue.push_all(QueueKind::Steering, messages);
    let popped = queue.pop_steering();
    assert_eq!(popped.len(), MAX_STEERING_QUEUE_SIZE);
    for (i, message) in popped.iter().enumerate() {
        assert_user_text(message, &format!("m{}", i + 3));
    }
}
