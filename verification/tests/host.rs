use pi_agent::host::{
    ExtensionDeliverAs, ExtensionQueueModeState, ExtensionSendMessage, ExtensionSendUserMessage,
    HostState, PendingIdleAction,
};
use pi_agent::input::{
    before_agent_start_payload, build_content_blocks_for_input, input_event_payload,
    read_context_reply, split_content_blocks_for_input, ContextReply, InputSource,
};
use pi_agent::json::{insert_field, Json};
use pi_agent::model::{ContentBlock, ImageContent, Message, TextContent};
use pi_agent::queue::QueueMode;

fn text(s: &str) -> Json {
    Json::Text(s.to_string())
}

fn object(fields: &[(&str, Json)]) -> Json {
    Json::Object(fields.iter().map(|(name, value)| (name.to_string(), value.clone())).collect())
}

fn idle_host() -> HostState {
    HostState::new(QueueMode::OneAtATime, QueueMode::OneAtATime)
}

fn note(trigger_turn: bool, deliver_as: Option<ExtensionDeliverAs>) -> ExtensionSendMessage {
    ExtensionSendMessage {
        content: "n".to_string(),
        custom_type: "note".to_string(),
        display: true,
        details: None,
        trigger_turn,
        deliver_as,
    }
}

#[test]
fn agent_extension_session_get_state_reports_agent_runtime_state() {
    let mut host = idle_host();
    host.is_streaming = true;
    host.is_compacting = true;
    let session_state = object(&[
        ("model", object(&[("provider", text("test-provider")), ("id", text("test-model"))])),
        ("thinkingLevel", text("high")),
        ("isStreaming", Json::Bool(false)),
        ("messageCount", Json::Unsigned(1)),
    ]);
    let state = host.get_state(
        session_state,
        ExtensionQueueModeState::new(QueueMode::All, QueueMode::OneAtATime),
        true,
    );
    let model = state.get("model").expect("model");
    assert_eq!(model.get("provider"), Some(&text("test-provider")));
    assert_eq!(model.get("id"), Some(&text("test-model")));
    assert_eq!(state.get("thinkingLevel"), Some(&text("high")));
    assert_eq!(state.get("isStreaming"), Some(&Json::Bool(true)));
    assert_eq!(state.get("isCompacting"), Some(&Json::Bool(true)));
    assert_eq!(state.get("steeringMode"), Some(&text("all")));
    assert_eq!(state.get("followUpMode"), Some(&text("one-at-a-time")));
    assert_eq!(state.get("autoCompactionEnabled"), Some(&Json::Bool(true)));
    assert_eq!(state.get("messageCount"), Some(&Json::Unsigned(1)));
}

#[test]
fn a_state_that_is_no_object_is_replaced() {
    let host = idle_host();
    let modes = ExtensionQueueModeState::new(QueueMode::OneAtATime, QueueMode::All);
    let state = host.get_state(Json::Null, modes, false);
    assert_eq!(state, host.state_fallback(modes, false));
    assert_eq!(state.get("durabilityMode"), Some(&text("balanced")));
    assert_eq!(state.get("thinkingLevel"), Some(&text("off")));
    assert_eq!(state.get("followUpMode"), Some(&text("all")));
    assert_eq!(state.get("sessionId"), Some(&text("")));
}

#[test]
fn messages_of_extensions_go_where_the_session_stands() {
    // At rest: into the session, or to a run of their own.
    let mut host = idle_host();
    assert!(host.send_message_at(0, note(false, None), 3).is_some());
    assert!(host.send_message_at(0, note(true, Some(ExtensionDeliverAs::Steer)), 3).is_none());
    assert_eq!(host.pending_idle_actions.len(), 1);
    // While a response streams: to the next delivery point or to the end of the run.
    let mut host = idle_host();
    host.is_streaming = true;
    host.is_turn_active = true;
    assert!(host.send_message_at(0, note(false, Some(ExtensionDeliverAs::Steer)), 3).is_none());
    assert!(host.send_message_at(0, note(false, Some(ExtensionDeliverAs::FollowUp)), 3).is_none());
    assert_eq!(host.injected.pop_steering().len(), 1);
    assert_eq!(host.injected.pop_follow_up().len(), 1);
    assert!(host.pending_idle_actions.is_empty());
}

#[test]
fn texts_of_extensions_start_runs_only_at_rest() {
    let mut host = idle_host();
    let said = |deliver_as| ExtensionSendUserMessage { text: "t".to_string(), deliver_as };
    assert!(host.send_user_message_at(0, said(None), 3).is_none());
    assert!(matches!(
        host.pending_idle_actions.front(),
        Some(PendingIdleAction::UserText(text)) if text == "t"
    ));
    assert_eq!(host.take_pending_idle_actions().len(), 1);
    host.is_streaming = true;
    assert!(host.send_user_message_at(0, said(Some(ExtensionDeliverAs::FollowUp)), 3).is_none());
    assert!(host.pending_idle_actions.is_empty());
    let waiting = host.injected.pop_follow_up();
    assert!(matches!(&waiting[0], Message::User(m) if m.timestamp == 3));
}

#[test]
fn input_is_split_and_put_together_again() {
    let image = || ImageContent { data: "x".to_string(), mime_type: "image/png".to_string() };
    let block = |s: &str| ContentBlock::Text(TextContent::new(s.to_string()));
    let (joined, images) = split_content_blocks_for_input(&vec![
        block("one"),
        ContentBlock::Image(image()),
        block("  "),
        block("two"),
    ]);
    assert_eq!(joined, "one\ntwo");
    assert_eq!(images, vec![image()]);
    assert_eq!(
        build_content_blocks_for_input(&joined, &images),
        vec![block("one\ntwo"), ContentBlock::Image(image())]
    );
    assert!(build_content_blocks_for_input(" \n ", &Vec::new()).is_empty());
}

#[test]
fn extensions_are_told_of_input() {
    let payload = input_event_payload("hi", Json::Array(Vec::new()), InputSource::Rpc);
    assert_eq!(
        payload,
        object(&[
            ("text", text("hi")),
            ("content", text("hi")),
            ("images", Json::Array(Vec::new())),
            ("attachments", Json::Array(Vec::new())),
            ("source", text("rpc")),
        ])
    );
    assert_eq!(InputSource::Interactive.as_str(), "interactive");
    assert_eq!(InputSource::Extension.as_str(), "extension");
    assert_eq!(
        before_agent_start_payload("p", Json::Null, "s"),
        object(&[("prompt", text("p")), ("images", Json::Null), ("systemPrompt", text("s"))])
    );
}

#[test]
fn answers_about_the_context_are_read() {
    assert_eq!(read_context_reply(None), ContextReply::Keep);
    assert_eq!(read_context_reply(Some(Json::Null)), ContextReply::Keep);
    let list = Json::Array(vec![text("m")]);
    assert_eq!(
        read_context_reply(Some(object(&[("messages", list.clone())]))),
        ContextReply::Decode(list)
    );
}

#[test]
fn a_field_that_is_set_again_stays_in_its_place() {
    let mut fields = vec![("a".to_string(), Json::Null), ("b".to_string(), Json::Unsigned(1))];
    insert_field(&mut fields, "a", Json::Bool(true));
    insert_field(&mut fields, "c", Json::Negative(-1));
    assert_eq!(
        Json::Object(fields),
        object(&[("a", Json::Bool(true)), ("b", Json::Unsigned(1)), ("c", Json::Negative(-1))])
    );
}
