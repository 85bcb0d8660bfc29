//! Messages, their content and what a tool returns.
use std::sync::Arc;
use vstd::prelude::*;

use crate::json::{clone_opt_json, opt_json, Json, JsonView};
use crate::text::{clone_opt_text, opt_text};

verus! {

/// A piece of text.
#[derive(Debug, PartialEq, Eq)]
pub struct TextContent {
    pub text: String,
    pub text_signature: Option<String>,
}

/// The mathematical value of [`TextContent`].
#[verifier::ext_equal]
pub struct TextContentView {
    pub text: Seq<char>,
    pub text_signature: Option<Seq<char>>,
}

impl View for TextContent {
    type V = TextContentView;

    open spec fn view(&self) -> TextContentView {
        TextContentView {
            text: self.text@,
            text_signature: opt_text(self.text_signature),
        }
    }
}

impl DeepView for TextContent {
    type V = TextContentView;

    open spec fn deep_view(&self) -> TextContentView {
        self@
    }
}

impl Clone for TextContent {
    fn clone(&self) -> (r: Self)
        ensures
            r@ == self@,
    {
        TextContent {
            text: self.text.clone(),
            text_signature: clone_opt_text(&self.text_signature),
        }
    }
}

impl TextContent {
    /// Text without a signature.
    pub fn new(text: String) -> (r: Self)
        ensures
            r@ == text_content(text@),
    {
        TextContent { text, text_signature: None }
    }
}

/// Text without a signature.
pub open spec fn text_content(text: Seq<char>) -> TextContentView {
    TextContentView { text, text_signature: None }
}

/// A piece of the model's reasoning.
#[derive(Debug, PartialEq, Eq)]
pub struct ThinkingContent {
    pub thinking: String,
    pub thinking_signature: Option<String>,
}

/// The mathematical value of [`ThinkingContent`].
#[verifier::ext_equal]
pub struct ThinkingContentView {
    pub thinking: Seq<char>,
    pub thinking_signature: Option<Seq<char>>,
}

impl View for ThinkingContent {
    type V = ThinkingContentView;

    open spec fn view(&self) -> ThinkingContentView {
        ThinkingContentView {
            thinking: self.thinking@,
            thinking_signature: opt_text(self.thinking_signature),
        }
    }
}

impl DeepView for ThinkingContent {
    type V = ThinkingContentView;

    open spec fn deep_view(&self) -> ThinkingContentView {
        self@
    }
}

impl Clone for ThinkingContent {
    fn clone(&self) -> (r: Self)
        ensures
            r@ == self@,
    {
        ThinkingContent {
            thinking: self.thinking.clone(),
            thinking_signature: clone_opt_text(&self.thinking_signature),
        }
    }
}

/// An image, as encoded data with its media type.
#[derive(Debug, PartialEq, Eq)]
pub struct ImageContent {
    pub data: String,
    pub mime_type: String,
}

/// The mathematical value of [`ImageContent`].
#[verifier::ext_equal]
pub struct ImageContentView {
    pub data: Seq<char>,
    pub mime_type: Seq<char>,
}

impl View for ImageContent {
    type V = ImageContentView;

    open spec fn view(&self) -> ImageContentView {
        ImageContentView {
            data: self.data@,
            mime_type: self.mime_type@,
        }
    }
}

impl DeepView for ImageContent {
    type V = ImageContentView;

    open spec fn deep_view(&self) -> ImageContentView {
        self@
    }
}

impl Clone for ImageContent {
    fn clone(&self) -> (r: Self)
        ensures
            r@ == self@,
    {
        ImageContent {
            data: self.data.clone(),
            mime_type: self.mime_type.clone(),
        }
    }
}

/// A request of the model to run a tool.
#[derive(Debug, PartialEq, Eq)]
pub struct ToolCall {
    pub id: String,
    pub name: String,
    pub arguments: Json,
    pub thought_signature: Option<String>,
}

/// The mathematical value of [`ToolCall`].
#[verifier::ext_equal]
pub struct ToolCallView {
    pub id: Seq<char>,
    pub name: Seq<char>,
    pub arguments: JsonView,
    pub thought_signature: Option<Seq<char>>,
}

impl View for ToolCall {
    type V = ToolCallView;

    open spec fn view(&self) -> ToolCallView {
        ToolCallView {
            id: self.id@,
            name: self.name@,
            arguments: self.arguments@,
            thought_signature: opt_text(self.thought_signature),
        }
    }
}

impl DeepView for ToolCall {
    type V = ToolCallView;

    open spec fn deep_view(&self) -> ToolCallView {
        self@
    }
}

impl Clone for ToolCall {
    fn clone(&self) -> (r: Self)
        ensures
            r@ == self@,
    {
        ToolCall {
            id: self.id.clone(),
            name: self.name.clone(),
            arguments: self.arguments.clone(),
            thought_signature: clone_opt_text(&self.thought_signature),
        }
    }
}

/// One block of a message.
#[derive(Debug, PartialEq, Eq)]
pub enum ContentBlock {
    Text(TextContent),
    Thinking(ThinkingContent),
    Image(ImageContent),
    ToolCall(ToolCall),
}

/// The mathematical value of [`ContentBlock`].
#[verifier::ext_equal]
pub enum ContentBlockView {
    Text(TextContentView),
    Thinking(ThinkingContentView),
    Image(ImageContentView),
    ToolCall(ToolCallView),
}

impl View for ContentBlock {
    type V = ContentBlockView;

    open spec fn view(&self) -> ContentBlockView {
        match *self {
            ContentBlock::Text(x) => ContentBlockView::Text(x@),
            ContentBlock::Thinking(x) => ContentBlockView::Thinking(x@),
            ContentBlock::Image(x) => ContentBlockView::Image(x@),
            ContentBlock::ToolCall(x) => ContentBlockView::ToolCall(x@),
        }
    }
}

impl DeepView for ContentBlock {
    type V = ContentBlockView;

    open spec fn deep_view(&self) -> ContentBlockView {
        self@
    }
}

impl Clone for ContentBlock {
    fn clone(&self) -> (r: Self)
        ensures
            r@ == self@,
    {
        match self {
            ContentBlock::Text(x) => ContentBlock::Text(x.clone()),
            ContentBlock::Thinking(x) => ContentBlock::Thinking(x.clone()),
            ContentBlock::Image(x) => ContentBlock::Image(x.clone()),
            ContentBlock::ToolCall(x) => ContentBlock::ToolCall(x.clone()),
        }
    }
}

/// Copies a list of content blocks.
pub fn clone_blocks(v: &Vec<ContentBlock>) -> (r: Vec<ContentBlock>)
    ensures
        r.deep_view() == v.deep_view(),
        r@.len() == v@.len(),
{
    let mut r: Vec<ContentBlock> = Vec::new();
    let mut i: usize = 0;
    while i < v.len()
        invariant
            i <= v@.len(),
            r@.len() == i,
            forall|j: int| 0 <= j < i ==> (#[trigger] r@[j])@ == v@[j]@,
        decreases v@.len() - i,
    {
        r.push(v[i].clone());
        i += 1;
    }
    assert(r.deep_view() =~= v.deep_view());
    r
}

/// What a user message holds.
#[derive(Debug, PartialEq, Eq)]
pub enum UserContent {
    Text(String),
    Blocks(Vec<ContentBlock>),
}

/// The mathematical value of [`UserContent`].
#[verifier::ext_equal]
pub enum UserContentView {
    Text(Seq<char>),
    Blocks(Seq<ContentBlockView>),
}

impl View for UserContent {
    type V = UserContentView;

    open spec fn view(&self) -> UserContentView {
        match *self {
            UserContent::Text(x) => UserContentView::Text(x@),
            UserContent::Blocks(x) => UserContentView::Blocks(x.deep_view()),
        }
    }
}

impl DeepView for UserContent {
    type V = UserContentView;

    open spec fn deep_view(&self) -> UserContentView {
        self@
    }
}

impl Clone for UserContent {
    fn clone(&self) -> (r: Self)
        ensures
            r@ == self@,
    {
        match self {
            UserContent::Text(x) => UserContent::Text(x.clone()),
            UserContent::Blocks(x) => UserContent::Blocks(clone_blocks(x)),
        }
    }
}

/// A message of the user.
#[derive(Debug, PartialEq, Eq)]
pub struct UserMessage {
    pub content: UserContent,
    pub timestamp: i64,
}

/// The mathematical value of [`UserMessage`].
#[verifier::ext_equal]
pub struct UserMessageView {
    pub content: UserContentView,
    pub timestamp: i64,
}

impl View for UserMessage {
    type V = UserMessageView;

    open spec fn view(&self) -> UserMessageView {
        UserMessageView {
            content: self.content@,
            timestamp: self.timestamp,
        }
    }
}

impl DeepView for UserMessage {
    type V = UserMessageView;

    open spec fn deep_view(&self) -> UserMessageView {
        self@
    }
}

impl Clone for UserMessage {
    fn clone(&self) -> (r: Self)
        ensures
            r@ == self@,
    {
        UserMessage {
            content: self.content.clone(),
            timestamp: self.timestamp,
        }
    }
}

/// Money spent on a completion, each amount as the bit pattern of a double.
#[derive(Debug, Clone, Copy, PartialEq, Eq, Structural)]
pub struct Cost {
    pub input: u64,
    pub output: u64,
    pub cache_read: u64,
    pub cache_write: u64,
    pub total: u64,
}

/// Tokens spent on a completion.
#[derive(Debug, Clone, Copy, PartialEq, Eq, Structural)]
pub struct Usage {
    pub input: u64,
    pub output: u64,
    pub cache_read: u64,
    pub cache_write: u64,
    pub total_tokens: u64,
    pub cost: Cost,
}

/// No tokens and no cost.
pub open spec fn no_usage() -> Usage {
    Usage {
        input: 0,
        output: 0,
        cache_read: 0,
        cache_write: 0,
        total_tokens: 0,
        cost: Cost { input: 0, output: 0, cache_read: 0, cache_write: 0, total: 0 },
    }
}

impl Default for Usage {
    fn default() -> (r: Self)
        ensures
            r == no_usage(),
    {
        Usage {
            input: 0,
            output: 0,
            cache_read: 0,
            cache_write: 0,
            total_tokens: 0,
            cost: Cost { input: 0, output: 0, cache_read: 0, cache_write: 0, total: 0 },
        }
    }
}

/// Why the model stopped.
#[derive(Debug, Clone, Copy, PartialEq, Eq, Structural)]
pub enum StopReason {
    Stop,
    Length,
    ToolUse,
    Error,
    Aborted,
}

/// A message of the model.
#[derive(Debug, PartialEq, Eq)]
pub struct AssistantMessage {
    pub content: Vec<ContentBlock>,
    pub api: String,
    pub provider: String,
    pub model: String,
    pub usage: Usage,
    pub stop_reason: StopReason,
    pub error_message: Option<String>,
    pub timestamp: i64,
}

/// The mathematical value of [`AssistantMessage`].
#[verifier::ext_equal]
pub struct AssistantMessageView {
    pub content: Seq<ContentBlockView>,
    pub api: Seq<char>,
    pub provider: Seq<char>,
    pub model: Seq<char>,
    pub usage: Usage,
    pub stop_reason: StopReason,
    pub error_message: Option<Seq<char>>,
    pub timestamp: i64,
}

impl View for AssistantMessage {
    type V = AssistantMessageView;

    open spec fn view(&self) -> AssistantMessageView {
        AssistantMessageView {
            content: self.content.deep_view(),
            api: self.api@,
            provider: self.provider@,
            model: self.model@,
            usage: self.usage,
            stop_reason: self.stop_reason,
            error_message: opt_text(self.error_message),
            timestamp: self.timestamp,
        }
    }
}

impl DeepView for AssistantMessage {
    type V = AssistantMessageView;

    open spec fn deep_view(&self) -> AssistantMessageView {
        self@
    }
}

impl Clone for AssistantMessage {
    fn clone(&self) -> (r: Self)
        ensures
            r@ == self@,
    {
        AssistantMessage {
            content: clone_blocks(&self.content),
            api: self.api.clone(),
            provider: self.provider.clone(),
            model: self.model.clone(),
            usage: self.usage,
            stop_reason: self.stop_reason,
            error_message: clone_opt_text(&self.error_message),
            timestamp: self.timestamp,
        }
    }
}

/// What a tool call gave back, as a message.
#[derive(Debug, PartialEq, Eq)]
pub struct ToolResultMessage {
    pub tool_call_id: String,
    pub tool_name: String,
    pub content: Vec<ContentBlock>,
    pub details: Option<Json>,
    pub is_error: bool,
    pub timestamp: i64,
}

/// The mathematical value of [`ToolResultMessage`].
#[verifier::ext_equal]
pub struct ToolResultMessageView {
    pub tool_call_id: Seq<char>,
    pub tool_name: Seq<char>,
    pub content: Seq<ContentBlockView>,
    pub details: Option<JsonView>,
    pub is_error: bool,
    pub timestamp: i64,
}

impl View for ToolResultMessage {
    type V = ToolResultMessageView;

    open spec fn view(&self) -> ToolResultMessageView {
        ToolResultMessageView {
            tool_call_id: self.tool_call_id@,
            tool_name: self.tool_name@,
            content: self.content.deep_view(),
            details: opt_json(self.details),
            is_error: self.is_error,
            timestamp: self.timestamp,
        }
    }
}

impl DeepView for ToolResultMessage {
    type V = ToolResultMessageView;

    open spec fn deep_view(&self) -> ToolResultMessageView {
        self@
    }
}

impl Clone for ToolResultMessage {
    fn clone(&self) -> (r: Self)
        ensures
            r@ == self@,
    {
        ToolResultMessage {
            tool_call_id: self.tool_call_id.clone(),
            tool_name: self.tool_name.clone(),
            content: clone_blocks(&self.content),
            details: clone_opt_json(&self.details),
            is_error: self.is_error,
            timestamp: self.timestamp,
        }
    }
}

/// A message of an extension; it is sent to the model only if displayed.
#[derive(Debug, PartialEq, Eq)]
pub struct CustomMessage {
    pub content: String,
    pub custom_type: String,
    pub display: bool,
    pub details: Option<Json>,
    pub timestamp: i64,
}

/// The mathematical value of [`CustomMessage`].
#[verifier::ext_equal]
pub struct CustomMessageView {
    pub content: Seq<char>,
    pub custom_type: Seq<char>,
    pub display: bool,
    pub details: Option<JsonView>,
    pub timestamp: i64,
}

impl View for CustomMessage {
    type V = CustomMessageView;

    open spec fn view(&self) -> CustomMessageView {
        CustomMessageView {
            content: self.content@,
            custom_type: self.custom_type@,
            display: self.display,
            details: opt_json(self.details),
            timestamp: self.timestamp,
        }
    }
}

impl DeepView for CustomMessage {
    type V = CustomMessageView;

    open spec fn deep_view(&self) -> CustomMessageView {
        self@
    }
}

impl Clone for CustomMessage {
    fn clone(&self) -> (r: Self)
        ensures
            r@ == self@,
    {
        CustomMessage {
            content: self.content.clone(),
            custom_type: self.custom_type.clone(),
            display: self.display,
            details: clone_opt_json(&self.details),
            timestamp: self.timestamp,
        }
    }
}

/// One message of the history.
#[derive(Debug, PartialEq, Eq)]
pub enum Message {
    User(UserMessage),
    Assistant(Arc<AssistantMessage>),
    ToolResult(Arc<ToolResultMessage>),
    Custom(CustomMessage),
}

/// The mathematical value of [`Message`].
#[verifier::ext_equal]
pub enum MessageView {
    User(UserMessageView),
    Assistant(AssistantMessageView),
    ToolResult(ToolResultMessageView),
    Custom(CustomMessageView),
}

impl View for Message {
    type V = MessageView;

    open spec fn view(&self) -> MessageView {
        match *self {
            Message::User(x) => MessageView::User(x@),
            Message::Assistant(x) => MessageView::Assistant(x@),
            Message::ToolResult(x) => MessageView::ToolResult(x@),
            Message::Custom(x) => MessageView::Custom(x@),
        }
    }
}

impl DeepView for Message {
    type V = MessageView;

    open spec fn deep_view(&self) -> MessageView {
        self@
    }
}

impl Clone for Message {
    fn clone(&self) -> (r: Self)
        ensures
            r@ == self@,
    {
        match self {
            Message::User(x) => Message::User(x.clone()),
            Message::Assistant(x) => Message::Assistant(Arc::clone(x)),
            Message::ToolResult(x) => Message::ToolResult(Arc::clone(x)),
            Message::Custom(x) => Message::Custom(x.clone()),
        }
    }
}

impl Message {
    /// An assistant message.
    pub fn assistant(message: AssistantMessage) -> (r: Self)
        ensures
            r@ == MessageView::Assistant(message@),
    {
        Message::Assistant(Arc::new(message))
    }

    /// Whether this is an assistant message.
    pub fn is_assistant(&self) -> (r: bool)
        ensures
            r == (self@ is Assistant),
    {
        match self {
            Message::Assistant(_) => true,
            _ => false,
        }
    }
}

/// Copies a list of messages.
pub fn clone_messages(v: &Vec<Message>) -> (r: Vec<Message>)
    ensures
        r.deep_view() == v.deep_view(),
        r@.len() == v@.len(),
{
    let mut r: Vec<Message> = Vec::new();
    let mut i: usize = 0;
    while i < v.len()
        invariant
            i <= v@.len(),
            r@.len() == i,
            forall|j: int| 0 <= j < i ==> (#[trigger] r@[j])@ == v@[j]@,
        decreases v@.len() - i,
    {
        r.push(v[i].clone());
        i += 1;
    }
    assert(r.deep_view() =~= v.deep_view());
    r
}

/// Appends a message.
pub fn push_message(v: &mut Vec<Message>, message: Message)
    ensures
        final(v).deep_view() == old(v).deep_view().push(message@),
{
    v.push(message);
    assert(v.deep_view() =~= old(v).deep_view().push(message@));
}

/// What a tool gave back.
#[derive(Debug, PartialEq, Eq)]
pub struct ToolOutput {
    pub content: Vec<ContentBlock>,
    pub details: Option<Json>,
    pub is_error: bool,
}

/// The mathematical value of [`ToolOutput`].
#[verifier::ext_equal]
pub struct ToolOutputView {
    pub content: Seq<ContentBlockView>,
    pub details: Option<JsonView>,
    pub is_error: bool,
}

impl View for ToolOutput {
    type V = ToolOutputView;

    open spec fn view(&self) -> ToolOutputView {
        ToolOutputView {
            content: self.content.deep_view(),
            details: opt_json(self.details),
            is_error: self.is_error,
        }
    }
}

impl DeepView for ToolOutput {
    type V = ToolOutputView;

    open spec fn deep_view(&self) -> ToolOutputView {
        self@
    }
}

impl Clone for ToolOutput {
    fn clone(&self) -> (r: Self)
        ensures
            r@ == self@,
    {
        ToolOutput {
            content: clone_blocks(&self.content),
            details: clone_opt_json(&self.details),
            is_error: self.is_error,
        }
    }
}

/// An output that holds one text and is an error.
pub open spec fn error_output(text: Seq<char>) -> ToolOutputView {
    ToolOutputView {
        content: seq![ContentBlockView::Text(text_content(text))],
        details: None,
        is_error: true,
    }
}

impl ToolOutput {
    /// An output that holds one text and is an error.
    pub fn error(text: String) -> (r: Self)
        ensures
            r@ == error_output(text@),
    {
        let block = ContentBlock::Text(TextContent::new(text));
        let mut content: Vec<ContentBlock> = Vec::new();
        content.push(block);
        let r = ToolOutput { content, details: None, is_error: true };
        assert(r@.content =~= error_output(text@).content);
        r
    }
}

} // verus!
