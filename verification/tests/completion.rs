use pi_agent::agent::{ProviderIdentity, StreamOptions};
use pi_agent::event::StreamEvent;
use pi_agent::json::Json;
use pi_agent::model::{
    AssistantMessage, ContentBlock, Message, StopReason, TextContent, Usage, UserContent,
    UserMessage,
};
use pi_agent::pi_ai::{
    apply_pi_ai_completion_options, ascii_lower_of, build_pi_ai_completion_context_at,
    list_ai_models, pi_ai_assistant_error_message, pi_ai_completion_response,
    pi_ai_model_registry_values, pi_ai_text_from_value, requested_temperature, Completion,
    CompletionProgress, MessageJson, ModelRecord,
};
use pi_agent::selection::ExtensionAiCompletionHostState;
use pi_agent::stream::StreamInput;

fn text(s: &str) -> Json {
    Json::Text(s.to_string())
}

fn object(fields: &[(&str, Json)]) -> Json {
    Json::Object(fields.iter().map(|(name, value)| (name.to_string(), value.clone())).collect())
}

fn answer(stop_reason: StopReason, said: &str) -> AssistantMessage {
    AssistantMessage {
        content: vec![ContentBlock::Text(TextContent::new(said.to_string()))],
        api: "test-api".to_string(),
        provider: "capturing-provider".to_string(),
        model: "capture-model".to_string(),
        usage: Usage::default(),
        stop_reason,
        error_message: None,
        timestamp: 0,
    }
}

fn no_parts() -> MessageJson {
    MessageJson {
        message: Json::Null,
        content: Json::Null,
        usage: Json::Null,
        stop_reason: text("stop"),
    }
}

fn host() -> ExtensionAiCompletionHostState {
    ExtensionAiCompletionHostState {
        provider: ProviderIdentity {
            api: "test-api".to_string(),
            name: "capturing-provider".to_string(),
            model_id: "capture-model".to_string(),
        },
        stream_options: StreamOptions::default(),
        models: vec![object(&[
            ("id", text("capture-model")),
            ("provider", text("capturing-provider")),
            ("api", text("test-api")),
        ])],
    }
}

fn options_error(options: &Json, reading: Result<u32, String>) -> String {
    let mut stream_options = StreamOptions::default();
    apply_pi_ai_completion_options(options, reading, &mut stream_options)
        .expect_err("refused")
        .message()
}

#[test]
fn agent_host_actions_complete_ai_streams_configured_provider() {
    let host = host();
    let context = object(&[
        ("systemPrompt", text("answer tersely")),
        (
            "messages",
            Json::Array(vec![object(&[("role", text("user")), ("content", text("ping"))])]),
        ),
    ]);
    let options = object(&[("maxTokens", Json::Unsigned(16))]);
    let mut start = host
        .complete_ai(&options, Err("not asked for".to_string()), &context)
        .expect("complete through provider");
    assert_eq!(start.stream_options.max_tokens, Some(16));
    assert_eq!(start.context.system_prompt.as_deref(), Some("answer tersely"));
    assert_eq!(start.context.messages.len(), 1);
    assert!(
        matches!(
            start.context.messages.first(),
            Some(Message::User(UserMessage { content: UserContent::Text(text), .. }))
                if text == "ping"
        ),
        "expected user message context, got {:?}",
        start.context.messages
    );

    let done = StreamInput::Event(StreamEvent::Done {
        reason: StopReason::Stop,
        message: answer(StopReason::Stop, "captured"),
    });
    let message = match start.completion.step(done) {
        CompletionProgress::Done(message) => message,
        other => panic!("expected an answer, got {other:?}"),
    };
    let result = pi_ai_completion_response(&message, false, no_parts());
    assert_eq!(result.get("text"), Some(&text("captured")));
    assert_eq!(result.get("provider"), Some(&text("capturing-provider")));
    assert_eq!(result.get("api"), Some(&text("test-api")));
    assert_eq!(pi_ai_completion_response(&message, true, no_parts()), text("captured"));

    match list_ai_models(&host.provider, &host.models) {
        Json::Array(models) => assert_eq!(models[0].get("id"), Some(&text("capture-model"))),
        other => panic!("expected a list, got {other:?}"),
    }
}

#[test]
fn a_session_without_a_catalogue_lists_its_own_model() {
    let host = host();
    assert_eq!(
        list_ai_models(&host.provider, &Vec::new()),
        Json::Array(vec![object(&[
            ("id", text("capture-model")),
            ("name", text("capture-model")),
            ("api", text("test-api")),
            ("provider", text("capturing-provider")),
        ])])
    );
}

#[test]
fn token_limits_are_checked() {
    let limit = |value: Json| object(&[("maxTokens", value)]);
    let none = || Err("not asked for".to_string());
    assert_eq!(
        options_error(&limit(Json::Unsigned(0)), none()),
        "Validation error: pi-ai completion maxTokens must be greater than zero"
    );
    assert_eq!(
        options_error(&limit(Json::Unsigned(u64::from(u32::MAX) + 1)), none()),
        "Validation error: pi-ai completion maxTokens exceeds u32::MAX"
    );
    assert_eq!(
        options_error(&limit(text("16")), none()),
        "Validation error: pi-ai completion maxTokens must be an unsigned integer"
    );
    let mut options = StreamOptions::default();
    let both = object(&[("max_tokens", Json::Unsigned(7))]);
    assert!(apply_pi_ai_completion_options(&both, none(), &mut options).is_ok());
    assert_eq!(options.max_tokens, Some(7));
    assert!(apply_pi_ai_completion_options(&limit(Json::Null), none(), &mut options).is_ok());
    assert_eq!(options.max_tokens, Some(7));
}

#[test]
fn temperatures_are_checked_by_their_bits() {
    let warm = object(&[("temp", Json::Fraction("0.5".to_string()))]);
    assert_eq!(requested_temperature(&warm), Some(&Json::Fraction("0.5".to_string())));
    let mut options = StreamOptions::default();
    for value in [0.0_f32, -0.0, 0.5, 1.0, 2.0] {
        assert!(apply_pi_ai_completion_options(&warm, Ok(value.to_bits()), &mut options).is_ok());
        assert_eq!(options.temperature, Some(value.to_bits()));
    }
    for value in [-0.1_f32, 2.000_001, f32::INFINITY, f32::NAN, f32::NEG_INFINITY] {
        assert_eq!(
            options_error(&warm, Ok(value.to_bits())),
            "Validation error: pi-ai completion temperature must be between 0 and 2"
        );
    }
    assert_eq!(
        options_error(&warm, Err("invalid type".to_string())),
        "Validation error: pi-ai completion temperature must be numeric: invalid type"
    );
}

#[test]
fn contexts_come_in_many_shapes() {
    let context = |value: Json| build_pi_ai_completion_context_at(&value, 5);
    assert_eq!(context(text("hi")).expect("text").messages.len(), 1);
    let listed = context(Json::Array(vec![
        text("a"),
        object(&[("role", text(" SYSTEM ")), ("content", text("be brief"))]),
        object(&[("role", text("assistant")), ("text", text("b"))]),
    ]))
    .expect("list");
    assert_eq!(listed.messages.len(), 2);
    assert!(listed.messages[1].is_assistant());
    assert_eq!(listed.system_prompt.as_deref(), Some("be brief"));
    let prompted = context(object(&[("system", text("s")), ("prompt", text("p"))])).expect("prompt");
    assert_eq!(prompted.system_prompt.as_deref(), Some("s"));
    assert!(matches!(&prompted.messages[0], Message::User(m) if m.timestamp == 5));
    assert_eq!(
        context(object(&[("role", text("to\"ol")), ("content", text("x"))]))
            .expect_err("role")
            .message(),
        "Validation error: @mariozechner/pi-ai completion does not support \"to\\\"ol\" context messages"
    );
    assert_eq!(
        context(Json::Null).expect_err("empty").message(),
        "Validation error: @mariozechner/pi-ai completion requires at least one user or assistant message"
    );
}

#[test]
fn texts_are_read_from_values() {
    assert_eq!(pi_ai_text_from_value(&Json::Null), None);
    assert_eq!(pi_ai_text_from_value(&text("x")).as_deref(), Some("x"));
    assert_eq!(pi_ai_text_from_value(&Json::Unsigned(12)).as_deref(), Some("12"));
    assert_eq!(pi_ai_text_from_value(&Json::Negative(-3)).as_deref(), Some("-3"));
    assert_eq!(pi_ai_text_from_value(&Json::Bool(true)).as_deref(), Some("true"));
    assert_eq!(ascii_lower_of("AbÄ"), "abÄ");
}

#[test]
fn completions_that_fail_say_why() {
    let mut completion = Completion::new("p".to_string());
    let failed = |progress: CompletionProgress| match progress {
        CompletionProgress::Failed(error) => error.message(),
        other => panic!("expected a failure, got {other:?}"),
    };
    assert_eq!(
        failed(completion.step(StreamInput::Ended)),
        "Provider error: p: pi-ai completion stream ended without Done event"
    );
    let delta = StreamEvent::TextDelta { content_index: 0, delta: "häh".to_string() };
    assert_eq!(completion.step(StreamInput::Event(delta)), CompletionProgress::Continue);
    assert_eq!(
        failed(completion.step(StreamInput::Ended)),
        "Provider error: p: pi-ai completion stream ended without Done event after streaming 4 text bytes"
    );
    assert_eq!(
        failed(completion.step(StreamInput::Failed("reset".to_string()))),
        "Provider error: p: reset"
    );
    let done = StreamEvent::Done {
        reason: StopReason::Error,
        message: answer(StopReason::Error, "overloaded"),
    };
    assert_eq!(failed(completion.step(StreamInput::Event(done))), "Provider error: p: overloaded");
}

#[test]
fn failures_are_put_into_words() {
    let mut message = answer(StopReason::Error, "  ");
    assert_eq!(
        pi_ai_assistant_error_message(&message),
        "provider returned an error without a message"
    );
    message.error_message = Some("bad key".to_string());
    assert_eq!(pi_ai_assistant_error_message(&message), "bad key");
}

#[test]
fn the_catalogue_is_shown_field_by_field() {
    let record = ModelRecord {
        id: "m".to_string(),
        name: "M".to_string(),
        api: "a".to_string(),
        provider: "p".to_string(),
        base_url: "https://example.invalid".to_string(),
        reasoning: true,
        input: Json::Array(vec![text("text")]),
        cost: Json::Null,
        context_window: 128_000,
        max_tokens: 8_192,
        auth_header: true,
        has_credentials: false,
    };
    let values = pi_ai_model_registry_values(&vec![record]);
    assert_eq!(values.len(), 1);
    assert_eq!(values[0].get("baseUrl"), Some(&text("https://example.invalid")));
    assert_eq!(values[0].get("contextWindow"), Some(&Json::Unsigned(128_000)));
    assert_eq!(values[0].get("reasoning"), Some(&Json::Bool(true)));
}
