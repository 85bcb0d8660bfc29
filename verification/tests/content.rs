use pi_agent::agent::{Agent, AgentConfig, ProviderIdentity, StreamOptions};
use pi_agent::content::{
    drop_tool_calls, extract_tool_calls, filter_image_blocks, filter_images_for_provider,
    filter_images_from_message, BLOCK_IMAGES_PLACEHOLDER,
};
use pi_agent::json::Json;
use pi_agent::model::{
    AssistantMessage, ContentBlock, CustomMessage, ImageContent, Message, StopReason, TextContent,
    ToolCall, ToolResultMessage, Usage, UserContent, UserMessage,
};
use std::sync::Arc;

fn sample_image_block() -> ContentBlock {
    ContentBlock::Image(ImageContent {
        data: "aGVsbG8=".to_string(),
        mime_type: "image/png".to_string(),
    })
}

fn text_block(text: &str) -> ContentBlock {
    ContentBlock::Text(TextContent::new(text.to_string()))
}

fn image_count_in_message(message: &Message) -> usize {
    let count = |blocks: &[ContentBlock]| {
        blocks.iter().filter(|block| matches!(block, ContentBlock::Image(_))).count()
    };
    match message {
        Message::User(UserMessage { content: UserContent::Blocks(blocks), .. }) => count(blocks),
        Message::Assistant(msg) => count(&msg.content),
        Message::ToolResult(tool_result) => count(&tool_result.content),
        Message::User(UserMessage { content: UserContent::Text(_), .. }) | Message::Custom(_) => 0,
    }
}

fn silent_agent(block_images: bool) -> Agent {
    Agent::new(
        ProviderIdentity {
            api: "test-api".to_string(),
            name: "silent-provider".to_string(),
            model_id: "test-model".to_string(),
        },
        Vec::new(),
        AgentConfig {
            system_prompt: None,
            max_tool_iterations: 50,
            stream_options: StreamOptions::default(),
            block_images,
            fail_closed_hooks: false,
        },
    )
}

fn call(id: &str, name: &str, field: &str, value: &str) -> ContentBlock {
    ContentBlock::ToolCall(ToolCall {
        id: id.to_string(),
        name: name.to_string(),
        arguments: Json::Object(vec![(field.to_string(), Json::Text(value.to_string()))]),
        thought_signature: None,
    })
}

#[test]
fn test_extract_tool_calls() {
    let content = vec![
        text_block("Hello"),
        call("tc1", "read", "path", "file.txt"),
        text_block("World"),
        call("tc2", "bash", "command", "ls"),
    ];

    let tool_calls = extract_tool_calls(&content);
    assert_eq!(tool_calls.len(), 2);
    assert_eq!(tool_calls[0].name, "read");
    assert_eq!(tool_calls[1].name, "bash");
}

#[test]
fn dropping_tool_calls_keeps_the_rest() {
    let content = vec![text_block("a"), call("tc1", "read", "path", "x"), text_block("b")];
    assert_eq!(drop_tool_calls(&content), vec![text_block("a"), text_block("b")]);
    assert!(extract_tool_calls(&drop_tool_calls(&content)).is_empty());
}

#[test]
fn filter_image_blocks_replaces_images_with_deduped_placeholder_text() {
    let mut blocks = vec![
        sample_image_block(),
        sample_image_block(),
        text_block("tail"),
        sample_image_block(),
    ];

    let removed = filter_image_blocks(&mut blocks);

    assert_eq!(removed, 3);
    assert!(!blocks.iter().any(|block| matches!(block, ContentBlock::Image(_))));
    assert!(matches!(
        blocks.first(),
        Some(ContentBlock::Text(TextContent { text, .. }))
            if text.as_str().eq(BLOCK_IMAGES_PLACEHOLDER)
    ));
    assert!(matches!(
        blocks.get(1),
        Some(ContentBlock::Text(TextContent { text, .. })) if text.as_str().eq("tail")
    ));
    assert!(matches!(
        blocks.get(2),
        Some(ContentBlock::Text(TextContent { text, .. }))
            if text.as_str().eq(BLOCK_IMAGES_PLACEHOLDER)
    ));
}

#[test]
fn filter_images_for_provider_filters_images_from_all_block_message_types() {
    let mut messages = vec![
        Message::User(UserMessage {
            content: UserContent::Blocks(vec![text_block("hello"), sample_image_block()]),
            timestamp: 0,
        }),
        Message::Assistant(Arc::new(AssistantMessage {
            content: vec![sample_image_block()],
            api: "test".to_string(),
            provider: "test".to_string(),
            model: "test".to_string(),
            usage: Usage::default(),
            stop_reason: StopReason::Stop,
            error_message: None,
            timestamp: 0,
        })),
        Message::ToolResult(Arc::new(ToolResultMessage {
            tool_call_id: "tc1".to_string(),
            tool_name: "read".to_string(),
            content: vec![sample_image_block(), text_block("ok")],
            details: None,
            is_error: false,
            timestamp: 0,
        })),
    ];

    let stats = filter_images_for_provider(&mut messages);

    assert_eq!(stats.removed_images, 3);
    assert_eq!(stats.affected_messages, 3);
    assert_eq!(
        messages.iter().map(image_count_in_message).sum::<usize>(),
        0,
        "no images should remain in provider-bound context"
    );
}

#[test]
fn messages_without_blocks_are_left_alone() {
    let mut text = Message::User(UserMessage {
        content: UserContent::Text("plain".to_string()),
        timestamp: 3,
    });
    let before = text.clone();
    assert_eq!(filter_images_from_message(&mut text), 0);
    assert_eq!(text, before);
    let mut custom = Message::Custom(CustomMessage {
        content: "note".to_string(),
        custom_type: "t".to_string(),
        display: true,
        details: None,
        timestamp: 1,
    });
    assert_eq!(filter_images_from_message(&mut custom), 0);
}

#[test]
fn taking_images_out_twice_changes_nothing_more() {
    let mut blocks = vec![sample_image_block(), text_block("x"), sample_image_block()];
    assert_eq!(filter_image_blocks(&mut blocks), 2);
    let once = blocks.len();
    assert_eq!(filter_image_blocks(&mut blocks), 0);
    assert_eq!(blocks.len(), once);
}

#[test]
fn build_context_strips_images_when_block_images_enabled() {
    let mut agent = silent_agent(true);
    agent.add_message(Message::User(UserMessage {
        content: UserContent::Blocks(vec![sample_image_block()]),
        timestamp: 0,
    }));

    let context = agent.build_context();
    assert_eq!(context.messages.len(), 1);
    assert_eq!(image_count_in_message(&context.messages[0]), 0);
    assert!(matches!(
        &context.messages[0],
        Message::User(UserMessage {
            content: UserContent::Blocks(blocks),
            ..
        }) if blocks
            .iter()
            .any(|block| matches!(block, ContentBlock::Text(TextContent { text, .. }) if text.as_str().eq(BLOCK_IMAGES_PLACEHOLDER)))
    ));
}

#[test]
fn build_context_keeps_images_when_block_images_disabled() {
    let mut agent = silent_agent(false);
    agent.add_message(Message::User(UserMessage {
        content: UserContent::Blocks(vec![sample_image_block()]),
        timestamp: 0,
    }));

    let context = agent.build_context();
    assert_eq!(context.messages.len(), 1);
    assert_eq!(image_count_in_message(&context.messages[0]), 1);
}

#[test]
fn hidden_messages_do_not_reach_the_provider() {
    let mut agent = silent_agent(false);
    let custom = |display: bool| {
        Message::Custom(CustomMessage {
            content: "note".to_string(),
            custom_type: "t".to_string(),
            display,
            details: None,
            timestamp: 1,
        })
    };
    agent.add_message(custom(false));
    agent.add_message(custom(true));
    let context = agent.build_context();
    assert_eq!(context.messages.len(), 1);
    assert_eq!(agent.messages().len(), 2);
}
