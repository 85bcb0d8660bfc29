//! Where messages of extensions go, when they are delivered, and what extensions see of a session.
use vstd::prelude::*;

use crate::host::{
    custom_message, custom_route, fallback_state, shown_state, streaming_route, user_route,
    user_text_message, ExtensionDeliverAs, ExtensionInjectedQueueView, ExtensionQueueModeState,
    ExtensionSendMessage, HostStateView, MessageRoute, PendingIdleActionView,
};
use crate::json::{inserted, set_field_is_read_back, JsonView};
use crate::model::{MessageView, UserContentView};
use crate::queue::{
    QueueKind, QueueMode, MAX_FOLLOW_UP_QUEUE_SIZE, MAX_STEERING_QUEUE_SIZE,
};

verus! {

/// A message for the next turn is kept by the session. Any other joins a run that is streaming, as a
/// follow-up if it is meant as one; without such a run it is kept by the session, unless the session is
/// at rest and the message is to start a run.
pub proof fn messages_find_their_way(
    deliver_as: Option<ExtensionDeliverAs>,
    is_streaming: bool,
    is_turn_active: bool,
    trigger_turn: bool,
)
    ensures
        ({
            let route = custom_route(deliver_as, is_streaming, is_turn_active, trigger_turn);
            let next_turn = deliver_as == Some(ExtensionDeliverAs::NextTurn);
            let follow_up = deliver_as == Some(ExtensionDeliverAs::FollowUp);
            &&& next_turn ==> route == MessageRoute::Session
            &&& !next_turn && is_streaming && follow_up ==> route == MessageRoute::FollowUp
            &&& !next_turn && is_streaming && !follow_up ==> route == MessageRoute::Steering
            &&& !next_turn && !is_streaming && (is_turn_active || !trigger_turn) ==> route
                == MessageRoute::Session
            &&& !next_turn && !is_streaming && !is_turn_active && trigger_turn ==> route
                == MessageRoute::Idle
        }),
        ({
            let route = user_route(deliver_as, is_streaming, is_turn_active);
            let follow_up = deliver_as == Some(ExtensionDeliverAs::FollowUp);
            &&& is_streaming && follow_up ==> route == MessageRoute::FollowUp
            &&& is_streaming && !follow_up ==> route == MessageRoute::Steering
            &&& !is_streaming && is_turn_active ==> route == MessageRoute::Session
            &&& !is_streaming && !is_turn_active ==> route == MessageRoute::Idle
        }),
        streaming_route(Some(ExtensionDeliverAs::FollowUp)) == MessageRoute::FollowUp,
        deliver_as != Some(ExtensionDeliverAs::FollowUp) ==> streaming_route(deliver_as)
            == MessageRoute::Steering,
{
}

/// Whatever way a message goes, it ends in one place: with the session, in the queue of its connection, or
/// with what is to be done at rest. Nothing else changes.
pub proof fn messages_end_in_one_place(
    host: HostStateView,
    connection: nat,
    message: MessageView,
    idle: PendingIdleActionView,
)
    ensures
        host.routed(connection, MessageRoute::Session, message, idle) == (host, Some(message)),
        ({
            let (next, kept) = host.routed(connection, MessageRoute::Idle, message, idle);
            &&& kept is None
            &&& next == (HostStateView { idle: host.idle.push(idle), ..host })
        }),
        forall|kind: QueueKind|
            {
                let (next, kept) = host.routed(
                    connection,
                    if kind == QueueKind::Steering {
                        MessageRoute::Steering
                    } else {
                        MessageRoute::FollowUp
                    },
                    message,
                    idle,
                );
                &&& kept is None
                &&& next.queue_of(connection) == #[trigger] host.queue_of(connection).pushed(
                    kind,
                    message,
                )
                &&& next.idle == host.idle
                &&& next.earlier.len() == host.earlier.len()
                &&& next.is_streaming == host.is_streaming
                &&& next.is_turn_active == host.is_turn_active
                &&& next.is_compacting == host.is_compacting
            },
{
}

/// The queue of a connection is its own: that of the extensions connected last, or an earlier one.
pub proof fn each_connection_has_its_queue(
    host: HostStateView,
    connection: nat,
    queue: ExtensionInjectedQueueView,
)
    ensures
        connection < host.earlier.len() ==> host.queue_of(connection)
            == host.earlier[connection as int],
        connection >= host.earlier.len() ==> host.queue_of(connection) == host.injected,
        connection < host.earlier.len() ==> host.with_queue(connection, queue) == (HostStateView {
            earlier: host.earlier.update(connection as int, queue),
            ..host
        }),
        connection >= host.earlier.len() ==> host.with_queue(connection, queue) == (HostStateView {
            injected: queue,
            ..host
        }),
{
}

/// Further extensions get an empty queue with their modes, and what was there stays with those before.
pub proof fn connecting_adds_a_queue(host: HostStateView, modes: ExtensionQueueModeState)
    ensures
        ({
            let next = host.connected(modes);
            &&& next.earlier == host.earlier.push(host.injected)
            &&& next.injected.steering.len() == 0
            &&& next.injected.follow_up.len() == 0
            &&& next.injected.steering_mode == modes.steering_mode
            &&& next.injected.follow_up_mode == modes.follow_up_mode
            &&& next.idle == host.idle
            &&& next.is_streaming == host.is_streaming
            &&& next.is_turn_active == host.is_turn_active
            &&& next.is_compacting == host.is_compacting
        }),
{
}

/// A message of an extension joins behind those that wait; where there is no room the oldest gives way.
pub proof fn injected_messages_wait_in_line(q: ExtensionInjectedQueueView, message: MessageView)
    ensures
        ({
            let next = q.pushed(QueueKind::Steering, message);
            &&& next.steering == if q.steering.len() < MAX_STEERING_QUEUE_SIZE {
                q.steering.push(message)
            } else {
                q.steering.skip(1).push(message)
            }
            &&& next.follow_up == q.follow_up
            &&& next.steering_mode == q.steering_mode
            &&& next.follow_up_mode == q.follow_up_mode
        }),
        ({
            let next = q.pushed(QueueKind::FollowUp, message);
            &&& next.follow_up == if q.follow_up.len() < MAX_FOLLOW_UP_QUEUE_SIZE {
                q.follow_up.push(message)
            } else {
                q.follow_up.skip(1).push(message)
            }
            &&& next.steering == q.steering
            &&& next.steering_mode == q.steering_mode
            &&& next.follow_up_mode == q.follow_up_mode
        }),
{
}

/// What waits is delivered in order and once: all of it, or one message at a time, as the mode says.
pub proof fn injected_messages_are_delivered_once(q: ExtensionInjectedQueueView, kind: QueueKind)
    ensures
        ({
            let due = q.next_delivery(kind);
            let next = q.after_delivery(kind);
            let (waiting, left, mode) = match kind {
                QueueKind::Steering => (q.steering, next.steering, q.steering_mode),
                QueueKind::FollowUp => (q.follow_up, next.follow_up, q.follow_up_mode),
            };
            &&& due + left == waiting
            &&& mode == QueueMode::All ==> left.len() == 0
            &&& mode == QueueMode::OneAtATime && waiting.len() > 0 ==> due.len() == 1
            &&& kind == QueueKind::Steering ==> next.follow_up == q.follow_up
            &&& kind == QueueKind::FollowUp ==> next.steering == q.steering
            &&& next.steering_mode == q.steering_mode
            &&& next.follow_up_mode == q.follow_up_mode
        }),
{
    let due = q.next_delivery(kind);
    let next = q.after_delivery(kind);
    match kind {
        QueueKind::Steering => assert(due + next.steering =~= q.steering),
        QueueKind::FollowUp => assert(due + next.follow_up =~= q.follow_up),
    }
}

/// A message of an extension becomes a message of the history with all that it says, at its time.
pub proof fn extension_messages_are_kept_whole(m: ExtensionSendMessage, text: Seq<char>, now: i64)
    ensures
        ({
            let made = custom_message(m, now);
            &&& made is Custom
            &&& made->Custom_0.content == m.content@
            &&& made->Custom_0.custom_type == m.custom_type@
            &&& made->Custom_0.display == m.display
            &&& m.details matches Some(d) ==> made->Custom_0.details == Some(d@)
            &&& m.details is None ==> made->Custom_0.details is None
            &&& made->Custom_0.timestamp == now
        }),
        ({
            let made = user_text_message(text, now);
            &&& made is User
            &&& made->User_0.content == UserContentView::Text(text)
            &&& made->User_0.timestamp == now
        }),
{
}

proof fn lemma_state_names_differ()
    ensures
        "isStreaming"@ != "isCompacting"@,
        "isStreaming"@ != "steeringMode"@,
        "isStreaming"@ != "followUpMode"@,
        "isStreaming"@ != "autoCompactionEnabled"@,
        "isCompacting"@ != "steeringMode"@,
        "isCompacting"@ != "followUpMode"@,
        "isCompacting"@ != "autoCompactionEnabled"@,
        "steeringMode"@ != "followUpMode"@,
        "steeringMode"@ != "autoCompactionEnabled"@,
        "followUpMode"@ != "autoCompactionEnabled"@,
{
    reveal_strlit("isStreaming");
    reveal_strlit("isCompacting");
    reveal_strlit("steeringMode");
    reveal_strlit("followUpMode");
    reveal_strlit("autoCompactionEnabled");
    assert("isStreaming"@.len() == 11);
    assert("isCompacting"@.len() == 12);
    assert("steeringMode"@.len() == 12);
    assert("followUpMode"@.len() == 12);
    assert("autoCompactionEnabled"@.len() == 21);
    assert("isCompacting"@[0] == 'i');
    assert("steeringMode"@[0] == 's');
    assert("followUpMode"@[0] == 'f');
}

/// Extensions see the state of a session with what the host knows better, and everything else in it as
/// it is.
pub proof fn shown_state_is_up_to_date(
    fields: Seq<(Seq<char>, JsonView)>,
    host: HostStateView,
    modes: ExtensionQueueModeState,
    auto_compaction: bool,
    other: Seq<char>,
)
    ensures
        ({
            let shown = shown_state(JsonView::Object(fields), host, modes, auto_compaction);
            &&& shown.field("isStreaming"@) == Some(JsonView::Bool(host.is_streaming))
            &&& shown.field("isCompacting"@) == Some(JsonView::Bool(host.is_compacting))
            &&& shown.field("steeringMode"@) == Some(JsonView::Text(modes.steering_mode.name()))
            &&& shown.field("followUpMode"@) == Some(JsonView::Text(modes.follow_up_mode.name()))
            &&& shown.field("autoCompactionEnabled"@) == Some(JsonView::Bool(auto_compaction))
            &&& other != "isStreaming"@ && other != "isCompacting"@ && other != "steeringMode"@
                && other != "followUpMode"@ && other != "autoCompactionEnabled"@ ==> shown.field(
                other,
            ) == JsonView::Object(fields).field(other)
        }),
{
    lemma_state_names_differ();
    let streaming = JsonView::Bool(host.is_streaming);
    let compacting = JsonView::Bool(host.is_compacting);
    let steering = JsonView::Text(modes.steering_mode.name());
    let follow_up = JsonView::Text(modes.follow_up_mode.name());
    let auto_on = JsonView::Bool(auto_compaction);
    let one = inserted(fields, "isStreaming"@, streaming);
    let two = inserted(one, "isCompacting"@, compacting);
    let three = inserted(two, "steeringMode"@, steering);
    let four = inserted(three, "followUpMode"@, follow_up);
    let shown = shown_state(JsonView::Object(fields), host, modes, auto_compaction);
    assert forall|key: Seq<char>| true implies {
        #[trigger] shown.field(key) == if key == "autoCompactionEnabled"@ {
            Some(auto_on)
        } else if key == "followUpMode"@ {
            Some(follow_up)
        } else if key == "steeringMode"@ {
            Some(steering)
        } else if key == "isCompacting"@ {
            Some(compacting)
        } else if key == "isStreaming"@ {
            Some(streaming)
        } else {
            JsonView::Object(fields).field(key)
        }
    } by {
        set_field_is_read_back(fields, "isStreaming"@, streaming, key);
        set_field_is_read_back(one, "isCompacting"@, compacting, key);
        set_field_is_read_back(two, "steeringMode"@, steering, key);
        set_field_is_read_back(three, "followUpMode"@, follow_up, key);
        set_field_is_read_back(four, "autoCompactionEnabled"@, auto_on, key);
    }
}

/// Of a session whose state is unknown, extensions see what the host knows, and values that say little.
pub proof fn unknown_state_tells_what_the_host_knows(
    state: JsonView,
    host: HostStateView,
    modes: ExtensionQueueModeState,
    auto_compaction: bool,
)
    ensures
        !(state is Object) ==> shown_state(state, host, modes, auto_compaction) == fallback_state(
            host,
            modes,
            auto_compaction,
        ),
        ({
            let told = fallback_state(host, modes, auto_compaction)->Object_0;
            &&& fallback_state(host, modes, auto_compaction) is Object
            &&& told.len() == 13
            &&& told[0] == ("model"@, JsonView::Null)
            &&& told[1] == ("thinkingLevel"@, JsonView::Text("off"@))
            &&& told[2] == ("durabilityMode"@, JsonView::Text("balanced"@))
            &&& told[3] == ("isStreaming"@, JsonView::Bool(host.is_streaming))
            &&& told[4] == ("isCompacting"@, JsonView::Bool(host.is_compacting))
            &&& told[5] == ("steeringMode"@, JsonView::Text(modes.steering_mode.name()))
            &&& told[6] == ("followUpMode"@, JsonView::Text(modes.follow_up_mode.name()))
            &&& told[7] == ("sessionFile"@, JsonView::Null)
            &&& told[8] == ("sessionId"@, JsonView::Text(""@))
            &&& told[9] == ("sessionName"@, JsonView::Null)
            &&& told[10] == ("autoCompactionEnabled"@, JsonView::Bool(auto_compaction))
            &&& told[11] == ("messageCount"@, JsonView::Unsigned(0))
            &&& told[12] == ("pendingMessageCount"@, JsonView::Unsigned(0))
        }),
{
}

} // verus!
