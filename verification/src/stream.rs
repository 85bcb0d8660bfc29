//! One streamed response of the model: how the history and the emitted events follow the stream.
use std::sync::Arc;
use vstd::prelude::*;

use crate::agent::{
    abort_message, empty_response, error_message, Agent, AgentView, ProviderIdentityView,
};
use crate::clock::now_millis;
use crate::error::{Error, ErrorView};
use crate::event::{
    emit, AgentEvent, AgentEventView, AssistantMessageEvent, AssistantMessageEventView, StreamEvent,
    StreamEventView,
};
use crate::json::{Json, JsonView};
use crate::model::{
    push_message, text_content, AssistantMessage, AssistantMessageView, ContentBlock,
    ContentBlockView, Message, MessageView, StopReason, TextContent, TextContentView,
    ThinkingContent, ThinkingContentView, ToolCall, ToolCallView,
};
use crate::text::owned;

verus! {

/// The position of the last assistant message, or -1 if there is none.
pub open spec fn last_assistant(messages: Seq<MessageView>) -> int
    decreases messages.len(),
{
    if messages.len() == 0 {
        -1
    } else if messages.last() is Assistant {
        messages.len() - 1
    } else {
        last_assistant(messages.drop_last())
    }
}

/// Where the last assistant message is, it is one, and behind it there is none.
pub proof fn lemma_last_assistant(messages: Seq<MessageView>)
    ensures
        -1 <= last_assistant(messages) < messages.len(),
        last_assistant(messages) >= 0 ==> messages[last_assistant(messages)] is Assistant,
        forall|i: int|
            last_assistant(messages) < i < messages.len() ==> !(#[trigger] messages[i] is Assistant),
    decreases messages.len(),
{
    if messages.len() > 0 && !(messages.last() is Assistant) {
        let shorter = messages.drop_last();
        lemma_last_assistant(shorter);
        assert forall|i: int|
            last_assistant(messages) < i < messages.len() implies !(#[trigger] messages[i] is Assistant) by {
            if i < shorter.len() {
                assert(shorter[i] == messages[i]);
            }
        }
    }
}

/// The position of the last assistant message.
pub fn find_last_assistant(messages: &Vec<Message>) -> (r: Option<usize>)
    ensures
        match r {
            Some(i) => i == last_assistant(messages.deep_view()) && i < messages@.len(),
            None => last_assistant(messages.deep_view()) == -1,
        },
{
    let ghost all = messages.deep_view();
    let mut n: usize = messages.len();
    assert(all.take(n as int) =~= all);
    while n > 0
        invariant
            n <= messages@.len(),
            all == messages.deep_view(),
            last_assistant(all.take(n as int)) == last_assistant(all),
        decreases n,
    {
        assert(all.take(n as int).last() == messages@[n - 1]@);
        assert(all.take(n as int).drop_last() =~= all.take(n - 1));
        if messages[n - 1].is_assistant() {
            return Some(n - 1);
        }
        n -= 1;
    }
    assert(all.take(0) =~= Seq::empty());
    None
}

/// How far a streamed response has come: whether the history holds its partial message, and whether
/// its start was announced.
#[derive(Debug, Clone, Copy, PartialEq, Eq, Structural)]
pub struct StreamState {
    pub added_partial: bool,
    pub sent_start: bool,
}

impl StreamState {
    /// A response of which nothing has arrived.
    pub fn new() -> (r: Self)
        ensures
            r == (StreamState { added_partial: false, sent_start: false }),
    {
        StreamState { added_partial: false, sent_start: false }
    }
}

/// What can happen while a response is streamed.
#[derive(Debug, PartialEq, Eq)]
pub enum StreamInput {
    /// The run was aborted or cancelled.
    Cancelled,
    /// The provider sent an event.
    Event(StreamEvent),
    /// The stream failed, with the failure in words.
    Failed(String),
    /// The stream ended.
    Ended,
}

/// The mathematical value of [`StreamInput`].
#[verifier::ext_equal]
pub enum StreamInputView {
    Cancelled,
    Event(StreamEventView),
    Failed(Seq<char>),
    Ended,
}

impl View for StreamInput {
    type V = StreamInputView;

    open spec fn view(&self) -> StreamInputView {
        match *self {
            StreamInput::Cancelled => StreamInputView::Cancelled,
            StreamInput::Event(e) => StreamInputView::Event(e@),
            StreamInput::Failed(text) => StreamInputView::Failed(text@),
            StreamInput::Ended => StreamInputView::Ended,
        }
    }
}

/// What a streamed response has come to.
#[derive(Debug, PartialEq, Eq)]
pub enum StreamProgress {
    /// More is expected.
    Continue,
    /// The response is complete.
    Done(AssistantMessage),
    /// There is no response.
    Failed(Error),
}

/// The mathematical value of [`StreamProgress`].
#[verifier::ext_equal]
pub enum StreamProgressView {
    Continue,
    Done(AssistantMessageView),
    Failed(ErrorView),
}

impl View for StreamProgress {
    type V = StreamProgressView;

    open spec fn view(&self) -> StreamProgressView {
        match *self {
            StreamProgress::Continue => StreamProgressView::Continue,
            StreamProgress::Done(m) => StreamProgressView::Done(m@),
            StreamProgress::Failed(e) => StreamProgressView::Failed(e@),
        }
    }
}

/// A tool call of which only the start is known.
pub open spec fn empty_tool_call() -> ToolCallView {
    ToolCallView {
        id: Seq::empty(),
        name: Seq::empty(),
        arguments: JsonView::Null,
        thought_signature: None,
    }
}

/// The block that an event opens, if its place is the next one.
pub open spec fn opened_block(e: StreamEventView) -> ContentBlockView {
    match e {
        StreamEventView::TextStart { .. }
        | StreamEventView::TextDelta { .. }
        | StreamEventView::TextEnd { .. } => ContentBlockView::Text(text_content(Seq::empty())),
        StreamEventView::ThinkingStart { .. }
        | StreamEventView::ThinkingDelta { .. }
        | StreamEventView::ThinkingEnd { .. } => ContentBlockView::Thinking(
            ThinkingContentView { thinking: Seq::empty(), thinking_signature: None },
        ),
        _ => ContentBlockView::ToolCall(empty_tool_call()),
    }
}

/// The place in the content that an event is about.
pub open spec fn block_index(e: StreamEventView) -> int {
    match e {
        StreamEventView::TextStart { content_index } => content_index as int,
        StreamEventView::TextDelta { content_index, .. } => content_index as int,
        StreamEventView::TextEnd { content_index, .. } => content_index as int,
        StreamEventView::ThinkingStart { content_index } => content_index as int,
        StreamEventView::ThinkingDelta { content_index, .. } => content_index as int,
        StreamEventView::ThinkingEnd { content_index, .. } => content_index as int,
        StreamEventView::ToolCallStart { content_index } => content_index as int,
        StreamEventView::ToolCallDelta { content_index, .. } => content_index as int,
        StreamEventView::ToolCallEnd { content_index, .. } => content_index as int,
        _ => -1,
    }
}

/// The block at an event's place after the event. An event of another kind than the block leaves it
/// as it is.
pub open spec fn changed_block(b: ContentBlockView, e: StreamEventView) -> ContentBlockView {
    match (b, e) {
        (ContentBlockView::Text(t), StreamEventView::TextDelta { delta, .. }) => {
            ContentBlockView::Text(TextContentView { text: t.text + delta, ..t })
        },
        (ContentBlockView::Text(t), StreamEventView::TextEnd { content, .. }) => {
            ContentBlockView::Text(TextContentView { text: content, ..t })
        },
        (ContentBlockView::Thinking(t), StreamEventView::ThinkingDelta { delta, .. }) => {
            ContentBlockView::Thinking(ThinkingContentView { thinking: t.thinking + delta, ..t })
        },
        (ContentBlockView::Thinking(t), StreamEventView::ThinkingEnd { content, .. }) => {
            ContentBlockView::Thinking(ThinkingContentView { thinking: content, ..t })
        },
        (ContentBlockView::ToolCall(_), StreamEventView::ToolCallEnd { tool_call, .. }) => {
            ContentBlockView::ToolCall(tool_call)
        },
        _ => b,
    }
}

/// The content after an event: a block is opened if the event's place is the next one, and the block
/// at that place, if there is one, changes.
pub open spec fn changed_content(
    content: Seq<ContentBlockView>,
    e: StreamEventView,
) -> Seq<ContentBlockView> {
    let at = block_index(e);
    let grown = if at == content.len() {
        content.push(opened_block(e))
    } else {
        content
    };
    if 0 <= at < grown.len() {
        grown.update(at, changed_block(grown[at], e))
    } else {
        grown
    }
}

/// The partial message after an event that does not end the stream. A start event replaces
/// everything but content that has already arrived.
pub open spec fn changed_partial(m: AssistantMessageView, e: StreamEventView) -> AssistantMessageView {
    match e {
        StreamEventView::Start { partial } => AssistantMessageView {
            content: if m.content.len() == 0 {
                partial.content
            } else {
                m.content
            },
            ..partial
        },
        _ => AssistantMessageView { content: changed_content(m.content, e), ..m },
    }
}

/// How an event that does not end the stream is announced.
pub open spec fn announced(
    e: StreamEventView,
    partial: AssistantMessageView,
) -> AssistantMessageEventView {
    match e {
        StreamEventView::Start { .. } => AssistantMessageEventView::Start { partial },
        StreamEventView::TextStart { content_index } => AssistantMessageEventView::TextStart {
            content_index,
            partial,
        },
        StreamEventView::TextDelta { content_index, delta } => AssistantMessageEventView::TextDelta {
            content_index,
            delta,
            partial,
        },
        StreamEventView::TextEnd { content_index, content } => AssistantMessageEventView::TextEnd {
            content_index,
            content,
            partial,
        },
        StreamEventView::ThinkingStart { content_index } => {
            AssistantMessageEventView::ThinkingStart { content_index, partial }
        },
        StreamEventView::ThinkingDelta { content_index, delta } => {
            AssistantMessageEventView::ThinkingDelta { content_index, delta, partial }
        },
        StreamEventView::ThinkingEnd { content_index, content } => {
            AssistantMessageEventView::ThinkingEnd { content_index, content, partial }
        },
        StreamEventView::ToolCallStart { content_index } => {
            AssistantMessageEventView::ToolCallStart { content_index, partial }
        },
        StreamEventView::ToolCallDelta { content_index, delta } => {
            AssistantMessageEventView::ToolCallDelta { content_index, delta, partial }
        },
        StreamEventView::ToolCallEnd { content_index, tool_call } => {
            AssistantMessageEventView::ToolCallEnd { content_index, tool_call, partial }
        },
        StreamEventView::Done { reason, message } => AssistantMessageEventView::Done {
            reason,
            message,
        },
        StreamEventView::Error { reason, error } => AssistantMessageEventView::Error {
            reason,
            error,
        },
    }
}

/// What a step of a streamed response does: the next state, the history, the events that it emits
/// and what the response has come to.
#[verifier::ext_equal]
pub struct StreamEffect {
    pub state: StreamState,
    pub messages: Seq<MessageView>,
    pub events: Seq<AgentEventView>,
    pub progress: StreamProgressView,
}

/// The message that an event opens where the history holds no partial message yet.
pub open spec fn fresh_partial(
    provider: ProviderIdentityView,
    e: StreamEventView,
    now: i64,
) -> AssistantMessageView {
    match e {
        StreamEventView::Start { partial } => partial,
        _ => AssistantMessageView { timestamp: now, ..empty_response(provider) },
    }
}

/// Whether an event puts a new message into the history.
pub open spec fn opens_message(
    state: StreamState,
    messages: Seq<MessageView>,
    e: StreamEventView,
) -> bool {
    !state.added_partial || (e is Start && last_assistant(messages) < 0)
}

/// What an event that does not end the stream does.
pub open spec fn after_event(
    provider: ProviderIdentityView,
    state: StreamState,
    messages: Seq<MessageView>,
    e: StreamEventView,
    now: i64,
) -> StreamEffect {
    let opens = opens_message(state, messages, e);
    let base = if opens {
        messages.push(MessageView::Assistant(fresh_partial(provider, e, now)))
    } else {
        messages
    };
    let at = last_assistant(base);
    if at < 0 {
        StreamEffect {
            state,
            messages,
            events: Seq::empty(),
            progress: StreamProgressView::Continue,
        }
    } else {
        let partial = changed_partial(base[at]->Assistant_0, e);
        let message = MessageView::Assistant(partial);
        let update = AgentEventView::MessageUpdate {
            message,
            assistant_message_event: announced(e, partial),
        };
        StreamEffect {
            state: StreamState { added_partial: true, sent_start: true },
            messages: base.update(at, message),
            events: if !state.sent_start || (opens && e is Start) {
                seq![AgentEventView::MessageStart { message }, update]
            } else {
                seq![update]
            },
            progress: StreamProgressView::Continue,
        }
    }
}

/// The history with the complete response in the place of the partial one, or behind the rest.
pub open spec fn with_response(
    messages: Seq<MessageView>,
    added_partial: bool,
    response: AssistantMessageView,
) -> Seq<MessageView> {
    let at = last_assistant(messages);
    if added_partial && at >= 0 {
        messages.update(at, MessageView::Assistant(response))
    } else {
        messages.push(MessageView::Assistant(response))
    }
}

/// The events that complete a response: its start, if the history held no partial message, and its
/// end.
pub open spec fn closing_events(
    messages: Seq<MessageView>,
    added_partial: bool,
    response: AssistantMessageView,
) -> Seq<AgentEventView> {
    let message = MessageView::Assistant(response);
    if added_partial && last_assistant(messages) >= 0 {
        seq![AgentEventView::MessageEnd { message }]
    } else {
        seq![AgentEventView::MessageStart { message }, AgentEventView::MessageEnd { message }]
    }
}

/// What completing a response does.
pub open spec fn completed(
    state: StreamState,
    messages: Seq<MessageView>,
    response: AssistantMessageView,
) -> StreamEffect {
    StreamEffect {
        state,
        messages: with_response(messages, state.added_partial, response),
        events: closing_events(messages, state.added_partial, response),
        progress: StreamProgressView::Done(response),
    }
}

/// The partial message of the response, if the history holds one.
pub open spec fn partial_response(
    state: StreamState,
    messages: Seq<MessageView>,
) -> Option<AssistantMessageView> {
    let at = last_assistant(messages);
    if state.added_partial && at >= 0 {
        Some(messages[at]->Assistant_0)
    } else {
        None
    }
}

/// What a cancelled response does.
pub open spec fn after_cancel(
    provider: ProviderIdentityView,
    state: StreamState,
    messages: Seq<MessageView>,
    now: i64,
) -> StreamEffect {
    let response = abort_message(provider, partial_response(state, messages), now);
    let message = MessageView::Assistant(response);
    let update = AgentEventView::MessageUpdate {
        message,
        assistant_message_event: AssistantMessageEventView::Error {
            reason: StopReason::Aborted,
            error: response,
        },
    };
    let (base, added, before) = if state.sent_start {
        (messages, state.added_partial, seq![update])
    } else {
        (messages.push(message), true, seq![AgentEventView::MessageStart { message }, update])
    };
    StreamEffect {
        state: StreamState { added_partial: added, ..state },
        messages: with_response(base, added, response),
        events: before + closing_events(base, added, response),
        progress: StreamProgressView::Done(response),
    }
}

/// What the end of the stream does when the response was not completed before.
pub open spec fn after_end(state: StreamState, messages: Seq<MessageView>) -> StreamEffect {
    match partial_response(state, messages) {
        Some(partial) => completed(
            state,
            messages,
            AssistantMessageView {
                stop_reason: StopReason::Error,
                error_message: Some("Stream ended without Done event"@),
                ..partial
            },
        ),
        None => StreamEffect {
            state,
            messages,
            events: Seq::empty(),
            progress: StreamProgressView::Failed(
                ErrorView::Api("Stream ended without Done event"@),
            ),
        },
    }
}

/// What one step of a streamed response does.
pub open spec fn stream_effect(
    provider: ProviderIdentityView,
    state: StreamState,
    messages: Seq<MessageView>,
    input: StreamInputView,
    now: i64,
) -> StreamEffect {
    match input {
        StreamInputView::Cancelled => after_cancel(provider, state, messages, now),
        StreamInputView::Failed(text) => completed(
            state,
            messages,
            error_message(provider, partial_response(state, messages), text, now),
        ),
        StreamInputView::Ended => after_end(state, messages),
        StreamInputView::Event(e) => match e {
            StreamEventView::Done { message, .. } => completed(state, messages, message),
            StreamEventView::Error { error, .. } => completed(state, messages, error),
            _ => after_event(provider, state, messages, e, now),
        },
    }
}

/// Puts a block at the next place if `at` is that place.
fn open_block(content: &mut Vec<ContentBlock>, at: usize, block: ContentBlock)
    ensures
        final(content).deep_view() == if at == old(content)@.len() {
            old(content).deep_view().push(block@)
        } else {
            old(content).deep_view()
        },
{
    if at == content.len() {
        content.push(block);
        assert(content.deep_view() =~= old(content).deep_view().push(block@));
    }
}

/// Replaces a block.
fn set_block(content: &mut Vec<ContentBlock>, at: usize, block: ContentBlock)
    requires
        at < old(content)@.len(),
    ensures
        final(content).deep_view() == old(content).deep_view().update(at as int, block@),
{
    content.set(at, block);
    assert(content.deep_view() =~= old(content).deep_view().update(at as int, block@));
}

fn new_text_block() -> (r: ContentBlock)
    ensures
        r@ == ContentBlockView::Text(text_content(Seq::empty())),
{
    ContentBlock::Text(TextContent::new(String::new()))
}

fn new_thinking_block() -> (r: ContentBlock)
    ensures
        r@ == ContentBlockView::Thinking(
            ThinkingContentView { thinking: Seq::empty(), thinking_signature: None },
        ),
{
    ContentBlock::Thinking(
        ThinkingContent { thinking: String::new(), thinking_signature: None },
    )
}

fn new_tool_call_block() -> (r: ContentBlock)
    ensures
        r@ == ContentBlockView::ToolCall(empty_tool_call()),
{
    ContentBlock::ToolCall(
        ToolCall {
            id: String::new(),
            name: String::new(),
            arguments: Json::Null,
            thought_signature: None,
        },
    )
}

/// Applies an event to the content of the partial message.
fn apply_to_content(content: &mut Vec<ContentBlock>, e: &StreamEvent)
    requires
        block_index(e@) >= 0,
    ensures
        final(content).deep_view() == changed_content(old(content).deep_view(), e@),
{
    let ghost before = content.deep_view();
    match e {
        StreamEvent::TextStart { content_index } => {
            open_block(content, *content_index, new_text_block());
        },
        StreamEvent::ThinkingStart { content_index } => {
            open_block(content, *content_index, new_thinking_block());
        },
        StreamEvent::ToolCallStart { content_index } => {
            open_block(content, *content_index, new_tool_call_block());
        },
        StreamEvent::ToolCallDelta { content_index, delta: _ } => {
            open_block(content, *content_index, new_tool_call_block());
        },
        StreamEvent::TextDelta { content_index, delta } => {
            let at: usize = *content_index;
            open_block(content, at, new_text_block());
            if at < content.len() {
                assert(content.deep_view()[at as int] == content@[at as int]@);
                if let ContentBlock::Text(t) = &content[at] {
                    let mut t = t.clone();
                    t.text.push_str(delta.as_str());
                    set_block(content, at, ContentBlock::Text(t));
                }
            }
        },
        StreamEvent::TextEnd { content_index, content: text } => {
            let at: usize = *content_index;
            open_block(content, at, new_text_block());
            if at < content.len() {
                assert(content.deep_view()[at as int] == content@[at as int]@);
                if let ContentBlock::Text(t) = &content[at] {
                    let mut t = t.clone();
                    t.text = text.clone();
                    set_block(content, at, ContentBlock::Text(t));
                }
            }
        },
        StreamEvent::ThinkingDelta { content_index, delta } => {
            let at: usize = *content_index;
            open_block(content, at, new_thinking_block());
            if at < content.len() {
                assert(content.deep_view()[at as int] == content@[at as int]@);
                if let ContentBlock::Thinking(t) = &content[at] {
                    let mut t = t.clone();
                    t.thinking.push_str(delta.as_str());
                    set_block(content, at, ContentBlock::Thinking(t));
                }
            }
        },
        StreamEvent::ThinkingEnd { content_index, content: text } => {
            let at: usize = *content_index;
            open_block(content, at, new_thinking_block());
            if at < content.len() {
                assert(content.deep_view()[at as int] == content@[at as int]@);
                if let ContentBlock::Thinking(t) = &content[at] {
                    let mut t = t.clone();
                    t.thinking = text.clone();
                    set_block(content, at, ContentBlock::Thinking(t));
                }
            }
        },
        StreamEvent::ToolCallEnd { content_index, tool_call } => {
            let at: usize = *content_index;
            open_block(content, at, new_tool_call_block());
            if at < content.len() {
                assert(content.deep_view()[at as int] == content@[at as int]@);
                if let ContentBlock::ToolCall(_) = &content[at] {
                    set_block(content, at, ContentBlock::ToolCall(tool_call.clone()));
                }
            }
        },
        _ => {},
    }
    assert(content.deep_view() =~= changed_content(before, e@));
}

/// The announcement of an event that does not end the stream.
fn announce(e: &StreamEvent, partial: &Arc<AssistantMessage>) -> (r: AssistantMessageEvent)
    ensures
        r@ == announced(e@, partial@),
{
    let partial = Arc::clone(partial);
    match e {
        StreamEvent::Start { .. } => AssistantMessageEvent::Start { partial },
        StreamEvent::TextStart { content_index } => AssistantMessageEvent::TextStart {
            content_index: *content_index,
            partial,
        },
        StreamEvent::TextDelta { content_index, delta } => AssistantMessageEvent::TextDelta {
            content_index: *content_index,
            delta: delta.clone(),
            partial,
        },
        StreamEvent::TextEnd { content_index, content } => AssistantMessageEvent::TextEnd {
            content_index: *content_index,
            content: content.clone(),
            partial,
        },
        StreamEvent::ThinkingStart { content_index } => AssistantMessageEvent::ThinkingStart {
            content_index: *content_index,
            partial,
        },
        StreamEvent::ThinkingDelta { content_index, delta } => {
            AssistantMessageEvent::ThinkingDelta {
                content_index: *content_index,
                delta: delta.clone(),
                partial,
            }
        },
        StreamEvent::ThinkingEnd { content_index, content } => AssistantMessageEvent::ThinkingEnd {
            content_index: *content_index,
            content: content.clone(),
            partial,
        },
        StreamEvent::ToolCallStart { content_index } => AssistantMessageEvent::ToolCallStart {
            content_index: *content_index,
            partial,
        },
        StreamEvent::ToolCallDelta { content_index, delta } => {
            AssistantMessageEvent::ToolCallDelta {
                content_index: *content_index,
                delta: delta.clone(),
                partial,
            }
        },
        StreamEvent::ToolCallEnd { content_index, tool_call } => {
            AssistantMessageEvent::ToolCallEnd {
                content_index: *content_index,
                tool_call: tool_call.clone(),
                partial,
            }
        },
        StreamEvent::Done { reason, message } => AssistantMessageEvent::Done {
            reason: *reason,
            message: Arc::new(message.clone()),
        },
        StreamEvent::Error { reason, error } => AssistantMessageEvent::Error {
            reason: *reason,
            error: Arc::new(error.clone()),
        },
    }
}

impl Agent {
    /// Replaces a message of the history.
    fn set_message(&mut self, at: usize, message: Message)
        requires
            at < old(self).messages@.len(),
        ensures
            final(self)@ == (AgentView {
                messages: old(self)@.messages.update(at as int, message@),
                ..old(self)@
            }),
            old(self).wf() ==> final(self).wf(),
            final(self).messages@.len() == old(self).messages@.len(),
    {
        self.messages.set(at, message);
        assert(self.messages.deep_view() =~= old(self).messages.deep_view().update(
            at as int,
            message@,
        ));
    }

    /// The partial message of a response, if the history holds one.
    fn find_partial(&self, state: StreamState) -> (r: Option<Arc<AssistantMessage>>)
        ensures
            match r {
                Some(p) => partial_response(state, self@.messages) == Some(p@),
                None => partial_response(state, self@.messages) is None,
            },
    {
        if !state.added_partial {
            return None;
        }
        match find_last_assistant(&self.messages) {
            Some(at) => {
                proof {
                    lemma_last_assistant(self@.messages);
                    assert(self@.messages[at as int] == self.messages@[at as int]@);
                }
                match &self.messages[at] {
                    Message::Assistant(a) => Some(Arc::clone(a)),
                    _ => None,
                }
            },
            None => None,
        }
    }

    /// Puts the complete response into the history and announces its end.
    pub fn finalize_assistant_message(
        &mut self,
        response: AssistantMessage,
        added_partial: bool,
        out: &mut Vec<AgentEvent>,
    ) -> (r: AssistantMessage)
        ensures
            r@ == response@,
            final(self)@ == (AgentView {
                messages: with_response(old(self)@.messages, added_partial, response@),
                ..old(self)@
            }),
            final(out).deep_view() == old(out).deep_view() + closing_events(
                old(self)@.messages,
                added_partial,
                response@,
            ),
            old(self).wf() ==> final(self).wf(),
    {
        let ghost before = out.deep_view();
        let shared = Arc::new(response);
        let place = if added_partial {
            find_last_assistant(&self.messages)
        } else {
            None
        };
        match place {
            Some(at) => {
                self.set_message(at, Message::Assistant(Arc::clone(&shared)));
            },
            None => {
                push_message(&mut self.messages, Message::Assistant(Arc::clone(&shared)));
                emit(
                    out,
                    AgentEvent::MessageStart { message: Message::Assistant(Arc::clone(&shared)) },
                );
            },
        }
        emit(out, AgentEvent::MessageEnd { message: Message::Assistant(Arc::clone(&shared)) });
        assert(out.deep_view() =~= before + closing_events(
            old(self)@.messages,
            added_partial,
            response@,
        ));
        (*shared).clone()
    }

    fn apply_stream_event(
        &mut self,
        state: &mut StreamState,
        e: StreamEvent,
        now: i64,
        out: &mut Vec<AgentEvent>,
    )
        requires
            !(e@ is Done) && !(e@ is Error),
        ensures
            ({
                let effect = after_event(
                    old(self)@.provider,
                    *old(state),
                    old(self)@.messages,
                    e@,
                    now,
                );
                &&& *final(state) == effect.state
                &&& final(self)@ == (AgentView { messages: effect.messages, ..old(self)@ })
                &&& final(out).deep_view() == old(out).deep_view() + effect.events
            }),
            old(self).wf() ==> final(self).wf(),
    {
        let ghost provider = self@.provider;
        let ghost start = self@;
        let ghost before = out.deep_view();
        let ghost s = *state;
        proof {
            lemma_last_assistant(self@.messages);
        }
        let is_start = match &e {
            StreamEvent::Start { .. } => true,
            _ => false,
        };
        let mut opens = !state.added_partial;
        if !opens && is_start {
            opens = find_last_assistant(&self.messages).is_none();
        }
        if opens {
            let fresh = match &e {
                StreamEvent::Start { partial } => partial.clone(),
                _ => self.empty_response_at(now),
            };
            push_message(&mut self.messages, Message::Assistant(Arc::new(fresh)));
        }
        let ghost base = self@.messages;
        proof {
            lemma_last_assistant(base);
            assert(opens ==> base.last() is Assistant);
        }
        let place = find_last_assistant(&self.messages);
        if let Some(at) = place {
            assert(base[at as int] == self.messages@[at as int]@);
            if let Message::Assistant(current) = &self.messages[at] {
                let mut changed: AssistantMessage = (**current).clone();
                let ghost m = changed@;
                match &e {
                    StreamEvent::Start { partial } => {
                        let has_content = changed.content.len() > 0;
                        let kept = changed;
                        changed = partial.clone();
                        if has_content {
                            changed.content = kept.content;
                        }
                    },
                    _ => {
                        apply_to_content(&mut changed.content, &e);
                    },
                }
                assert(changed@ =~= changed_partial(m, e@));
                let shared = Arc::new(changed);
                let announces_start = !state.sent_start || (opens && is_start);
                self.set_message(at, Message::Assistant(Arc::clone(&shared)));
                if announces_start {
                    emit(
                        out,
                        AgentEvent::MessageStart {
                            message: Message::Assistant(Arc::clone(&shared)),
                        },
                    );
                }
                let assistant_message_event = announce(&e, &shared);
                emit(
                    out,
                    AgentEvent::MessageUpdate {
                        message: Message::Assistant(shared),
                        assistant_message_event,
                    },
                );
                *state = StreamState { added_partial: true, sent_start: true };
                let ghost effect = after_event(provider, s, start.messages, e@, now);
                assert(out.deep_view() =~= before + effect.events);
            }
        } else {
            assert(out.deep_view() =~= before + Seq::<AgentEventView>::empty());
        }
    }

    /// Takes one step of a streamed response, at the time `now`.
    #[verifier::spinoff_prover]
    #[verifier::rlimit(30)]
    pub fn stream_step_at(
        &mut self,
        state: &mut StreamState,
        input: StreamInput,
        now: i64,
        out: &mut Vec<AgentEvent>,
    ) -> (progress: StreamProgress)
        ensures
            ({
                let effect = stream_effect(
                    old(self)@.provider,
                    *old(state),
                    old(self)@.messages,
                    input@,
                    now,
                );
                &&& *final(state) == effect.state
                &&& final(self)@ == (AgentView { messages: effect.messages, ..old(self)@ })
                &&& final(out).deep_view() == old(out).deep_view() + effect.events
                &&& progress@ == effect.progress
            }),
            old(self).wf() ==> final(self).wf(),
    {
        let ghost before = out.deep_view();
        let ghost start = self@;
        match input {
            StreamInput::Cancelled => {
                let partial = self.find_partial(*state);
                let response = match &partial {
                    Some(p) => self.build_abort_message_at(Some(&**p), now),
                    None => self.build_abort_message_at(None, now),
                };
                let shared = Arc::new(response);
                if !state.sent_start {
                    emit(
                        out,
                        AgentEvent::MessageStart {
                            message: Message::Assistant(Arc::clone(&shared)),
                        },
                    );
                    push_message(&mut self.messages, Message::Assistant(Arc::clone(&shared)));
                    state.added_partial = true;
                }
                emit(
                    out,
                    AgentEvent::MessageUpdate {
                        message: Message::Assistant(Arc::clone(&shared)),
                        assistant_message_event: AssistantMessageEvent::Error {
                            reason: StopReason::Aborted,
                            error: Arc::clone(&shared),
                        },
                    },
                );
                let response: AssistantMessage = (*shared).clone();
                let done = self.finalize_assistant_message(response, state.added_partial, out);
                let ghost effect = after_cancel(start.provider, *old(state), start.messages, now);
                assert(out.deep_view() =~= before + effect.events);
                StreamProgress::Done(done)
            },
            StreamInput::Failed(text) => {
                let partial = self.find_partial(*state);
                let response = match &partial {
                    Some(p) => self.build_error_message_at(Some(&**p), text, now),
                    None => self.build_error_message_at(None, text, now),
                };
                StreamProgress::Done(
                    self.finalize_assistant_message(response, state.added_partial, out),
                )
            },
            StreamInput::Ended => {
                match self.find_partial(*state) {
                    Some(p) => {
                        let mut response: AssistantMessage = (*p).clone();
                        response.stop_reason = StopReason::Error;
                        response.error_message = Some(owned("Stream ended without Done event"));
                        StreamProgress::Done(
                            self.finalize_assistant_message(response, state.added_partial, out),
                        )
                    },
                    None => {
                        assert(out.deep_view() =~= before + Seq::<AgentEventView>::empty());
                        StreamProgress::Failed(Error::api("Stream ended without Done event"))
                    },
                }
            },
            StreamInput::Event(e) => {
                match e {
                    StreamEvent::Done { message, .. } => StreamProgress::Done(
                        self.finalize_assistant_message(message, state.added_partial, out),
                    ),
                    StreamEvent::Error { error, .. } => StreamProgress::Done(
                        self.finalize_assistant_message(error, state.added_partial, out),
                    ),
                    other => {
                        self.apply_stream_event(state, other, now, out);
                        StreamProgress::Continue
                    },
                }
            },
        }
    }

    /// Takes one step of a streamed response, at the present time.
    pub fn stream_step(
        &mut self,
        state: &mut StreamState,
        input: StreamInput,
        out: &mut Vec<AgentEvent>,
    ) -> (progress: StreamProgress)
        ensures
            exists|now: i64|
                {
                    let effect = #[trigger] stream_effect(
                        old(self)@.provider,
                        *old(state),
                        old(self)@.messages,
                        input@,
                        now,
                    );
                    &&& *final(state) == effect.state
                    &&& final(self)@ == (AgentView { messages: effect.messages, ..old(self)@ })
                    &&& final(out).deep_view() == old(out).deep_view() + effect.events
                    &&& progress@ == effect.progress
                },
            old(self).wf() ==> final(self).wf(),
    {
        let now: i64 = now_millis();
        self.stream_step_at(state, input, now, out)
    }
}

/// What holds between the steps of a response that began with the history `history`: the start was
/// announced exactly if the history holds the partial message, and the partial message is the only
/// difference to the history before.
pub open spec fn stream_invariant(
    history: Seq<MessageView>,
    state: StreamState,
    messages: Seq<MessageView>,
) -> bool {
    &&& state.sent_start == state.added_partial
    &&& if state.added_partial {
        messages.len() == history.len() + 1 && messages.drop_last() == history
            && messages.last() is Assistant
    } else {
        messages == history
    }
}

/// A step leaves the history before the response alone. A complete response adds exactly one
/// message, the response itself, and a response that fails adds none; it fails only where nothing
/// has arrived before the stream ends.
pub proof fn stream_step_keeps_history(
    provider: ProviderIdentityView,
    history: Seq<MessageView>,
    state: StreamState,
    messages: Seq<MessageView>,
    input: StreamInputView,
    now: i64,
)
    requires
        stream_invariant(history, state, messages),
    ensures
        ({
            let effect = stream_effect(provider, state, messages, input, now);
            match effect.progress {
                StreamProgressView::Continue => stream_invariant(
                    history,
                    effect.state,
                    effect.messages,
                ) && effect.state.added_partial,
                StreamProgressView::Done(response) => effect.messages == history.push(
                    MessageView::Assistant(response),
                ),
                StreamProgressView::Failed(_) => effect.messages == history && input is Ended
                    && !state.added_partial,
            }
        }),
{
    let effect = stream_effect(provider, state, messages, input, now);
    lemma_last_assistant(messages);
    if state.added_partial {
        assert(last_assistant(messages) == messages.len() - 1);
        assert(effect.messages.drop_last() =~= history);
        assert(effect.messages =~= history.push(effect.messages.last()));
    } else {
        match input {
            StreamInputView::Event(e) => {
                let base = messages.push(MessageView::Assistant(fresh_partial(provider, e, now)));
                assert(last_assistant(base) == base.len() - 1);
                if effect.progress is Continue {
                    assert(effect.messages.drop_last() =~= history);
                }
            },
            StreamInputView::Cancelled => {
                let response = abort_message(provider, None, now);
                let base = messages.push(MessageView::Assistant(response));
                assert(last_assistant(base) == base.len() - 1);
                assert(effect.messages =~= base);
            },
            _ => {},
        }
    }
}

/// What a sequence of steps does, up to the one that completes or fails the response.
pub open spec fn stream_run(
    provider: ProviderIdentityView,
    state: StreamState,
    messages: Seq<MessageView>,
    inputs: Seq<(StreamInputView, i64)>,
) -> StreamEffect
    decreases inputs.len(),
{
    if inputs.len() == 0 {
        StreamEffect {
            state,
            messages,
            events: Seq::empty(),
            progress: StreamProgressView::Continue,
        }
    } else {
        let first = stream_effect(provider, state, messages, inputs[0].0, inputs[0].1);
        if first.progress is Continue {
            let rest = stream_run(provider, first.state, first.messages, inputs.drop_first());
            StreamEffect { events: first.events + rest.events, ..rest }
        } else {
            first
        }
    }
}

/// Whether events announce one message: its start, unless `started` says that it was announced
/// before, then updates only, and its end exactly if the response is complete.
pub open spec fn announces_one_message(
    started: bool,
    events: Seq<AgentEventView>,
    progress: StreamProgressView,
) -> bool {
    let body: int = if started {
        0
    } else {
        1
    };
    match progress {
        StreamProgressView::Done(response) => {
            &&& events.len() >= body + 1
            &&& !started ==> events[0] is MessageStart
            &&& forall|i: int| body <= i < events.len() - 1 ==> #[trigger] events[i] is MessageUpdate
            &&& events.last() == AgentEventView::MessageEnd {
                message: MessageView::Assistant(response),
            }
        },
        StreamProgressView::Failed(_) => events.len() == 0,
        StreamProgressView::Continue => events.len() == 0 || {
            &&& events.len() >= body + 1
            &&& !started ==> events[0] is MessageStart
            &&& forall|i: int| body <= i < events.len() ==> #[trigger] events[i] is MessageUpdate
        },
    }
}

proof fn lemma_step_events(
    provider: ProviderIdentityView,
    history: Seq<MessageView>,
    state: StreamState,
    messages: Seq<MessageView>,
    input: StreamInputView,
    now: i64,
)
    requires
        stream_invariant(history, state, messages),
    ensures
        ({
            let effect = stream_effect(provider, state, messages, input, now);
            &&& announces_one_message(state.added_partial, effect.events, effect.progress)
            &&& effect.progress is Continue ==> effect.events.len() > 0
        }),
{
    lemma_last_assistant(messages);
    match input {
        StreamInputView::Event(e) => {
            let base = messages.push(MessageView::Assistant(fresh_partial(provider, e, now)));
            assert(last_assistant(base) == base.len() - 1);
        },
        StreamInputView::Cancelled => {
            let partial = partial_response(state, messages);
            let response = abort_message(provider, partial, now);
            let base = messages.push(MessageView::Assistant(response));
            assert(last_assistant(base) == base.len() - 1);
        },
        _ => {},
    }
}

/// However a stream goes, a complete response adds one message to the history and is announced by
/// one start, updates and one end; a response that fails leaves no trace.
pub proof fn stream_announces_one_message(
    provider: ProviderIdentityView,
    history: Seq<MessageView>,
    state: StreamState,
    messages: Seq<MessageView>,
    inputs: Seq<(StreamInputView, i64)>,
)
    requires
        stream_invariant(history, state, messages),
    ensures
        ({
            let run = stream_run(provider, state, messages, inputs);
            &&& announces_one_message(state.added_partial, run.events, run.progress)
            &&& match run.progress {
                StreamProgressView::Continue => stream_invariant(history, run.state, run.messages),
                StreamProgressView::Done(response) => run.messages == history.push(
                    MessageView::Assistant(response),
                ),
                StreamProgressView::Failed(_) => run.messages == history && !state.added_partial,
            }
        }),
    decreases inputs.len(),
{
    if inputs.len() > 0 {
        let (input, now) = inputs[0];
        stream_step_keeps_history(provider, history, state, messages, input, now);
        lemma_step_events(provider, history, state, messages, input, now);
        let first = stream_effect(provider, state, messages, input, now);
        if first.progress is Continue {
            stream_announces_one_message(
                provider,
                history,
                first.state,
                first.messages,
                inputs.drop_first(),
            );
            let rest = stream_run(provider, first.state, first.messages, inputs.drop_first());
            let run = stream_run(provider, state, messages, inputs);
            assert(run.events == first.events + rest.events);
            let split = first.events.len();
            assert forall|i: int| 0 <= i < run.events.len() implies #[trigger] run.events[i] == (if i
                < split {
                first.events[i]
            } else {
                rest.events[i - split]
            }) by {}
            if rest.events.len() > 0 {
                assert(run.events.last() == rest.events.last());
            }
        }
    }
}

/// Two pieces of text that arrive for the same place have the same effect as one piece with both.
pub proof fn text_pieces_accumulate(
    content: Seq<ContentBlockView>,
    at: usize,
    first: Seq<char>,
    second: Seq<char>,
)
    ensures
        changed_content(
            changed_content(
                content,
                StreamEventView::TextDelta { content_index: at, delta: first },
            ),
            StreamEventView::TextDelta { content_index: at, delta: second },
        ) == changed_content(
            content,
            StreamEventView::TextDelta { content_index: at, delta: first + second },
        ),
{
    let one = StreamEventView::TextDelta { content_index: at, delta: first };
    let two = StreamEventView::TextDelta { content_index: at, delta: second };
    let both = StreamEventView::TextDelta { content_index: at, delta: first + second };
    let grown = if at == content.len() {
        content.push(opened_block(one))
    } else {
        content
    };
    if at < grown.len() {
        let b = grown[at as int];
        if let ContentBlockView::Text(t) = b {
            assert(t.text + first + second =~= t.text + (first + second));
        }
        assert(changed_block(changed_block(b, one), two) == changed_block(b, both));
    }
    assert(changed_content(changed_content(content, one), two) =~= changed_content(content, both));
}

/// The closing text of a place wins over the pieces that arrived for it.
pub proof fn closing_text_wins(
    content: Seq<ContentBlockView>,
    at: usize,
    piece: Seq<char>,
    whole: Seq<char>,
)
    ensures
        changed_content(
            changed_content(
                content,
                StreamEventView::TextDelta { content_index: at, delta: piece },
            ),
            StreamEventView::TextEnd { content_index: at, content: whole },
        ) == changed_content(
            content,
            StreamEventView::TextEnd { content_index: at, content: whole },
        ),
{
    let one = StreamEventView::TextDelta { content_index: at, delta: piece };
    let end = StreamEventView::TextEnd { content_index: at, content: whole };
    assert(changed_content(changed_content(content, one), end) =~= changed_content(content, end));
}

/// An event changes nothing but the block at its own place.
pub proof fn other_blocks_stay(content: Seq<ContentBlockView>, e: StreamEventView, i: int)
    requires
        0 <= i < content.len(),
        i != block_index(e),
    ensures
        changed_content(content, e)[i] == content[i],
        content.len() <= changed_content(content, e).len() <= content.len() + 1,
{
}

} // verus!
