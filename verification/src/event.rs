//! Events that a run emits, and events that a provider streams.
use std::sync::Arc;
use vstd::prelude::*;

use crate::json::{clone_opt_json, opt_json, Json, JsonView};
use crate::latency::{TurnLatencyBreakdown, TurnLatencyBreakdownView};
use crate::model::{
    clone_messages, AssistantMessage, AssistantMessageView, Message, MessageView, StopReason,
    ToolCall, ToolCallView, ToolOutput, ToolOutputView,
};
use crate::text::{clone_opt_text, opt_text};

verus! {

/// How a streamed assistant message changed; `partial` is the message after the change.
#[derive(Debug, PartialEq, Eq)]
pub enum AssistantMessageEvent {
    Start {
        partial: Arc<AssistantMessage>,
    },
    TextStart {
        content_index: usize,
        partial: Arc<AssistantMessage>,
    },
    TextDelta {
        content_index: usize,
        delta: String,
        partial: Arc<AssistantMessage>,
    },
    TextEnd {
        content_index: usize,
        content: String,
        partial: Arc<AssistantMessage>,
    },
    ThinkingStart {
        content_index: usize,
        partial: Arc<AssistantMessage>,
    },
    ThinkingDelta {
        content_index: usize,
        delta: String,
        partial: Arc<AssistantMessage>,
    },
    ThinkingEnd {
        content_index: usize,
        content: String,
        partial: Arc<AssistantMessage>,
    },
    ToolCallStart {
        content_index: usize,
        partial: Arc<AssistantMessage>,
    },
    ToolCallDelta {
        content_index: usize,
        delta: String,
        partial: Arc<AssistantMessage>,
    },
    ToolCallEnd {
        content_index: usize,
        tool_call: ToolCall,
        partial: Arc<AssistantMessage>,
    },
    Done {
        reason: StopReason,
        message: Arc<AssistantMessage>,
    },
    Error {
        reason: StopReason,
        error: Arc<AssistantMessage>,
    },
}

/// The mathematical value of [`AssistantMessageEvent`].
#[verifier::ext_equal]
pub enum AssistantMessageEventView {
    Start {
        partial: AssistantMessageView,
    },
    TextStart {
        content_index: usize,
        partial: AssistantMessageView,
    },
    TextDelta {
        content_index: usize,
        delta: Seq<char>,
        partial: AssistantMessageView,
    },
    TextEnd {
        content_index: usize,
        content: Seq<char>,
        partial: AssistantMessageView,
    },
    ThinkingStart {
        content_index: usize,
        partial: AssistantMessageView,
    },
    ThinkingDelta {
        content_index: usize,
        delta: Seq<char>,
        partial: AssistantMessageView,
    },
    ThinkingEnd {
        content_index: usize,
        content: Seq<char>,
        partial: AssistantMessageView,
    },
    ToolCallStart {
        content_index: usize,
        partial: AssistantMessageView,
    },
    ToolCallDelta {
        content_index: usize,
        delta: Seq<char>,
        partial: AssistantMessageView,
    },
    ToolCallEnd {
        content_index: usize,
        tool_call: ToolCallView,
        partial: AssistantMessageView,
    },
    Done {
        reason: StopReason,
        message: AssistantMessageView,
    },
    Error {
        reason: StopReason,
        error: AssistantMessageView,
    },
}

impl View for AssistantMessageEvent {
    type V = AssistantMessageEventView;

    open spec fn view(&self) -> AssistantMessageEventView {
        match *self {
            AssistantMessageEvent::Start { partial } => AssistantMessageEventView::Start {
                partial: partial@,
            },
            AssistantMessageEvent::TextStart { content_index, partial } => AssistantMessageEventView::TextStart {
                content_index,
                partial: partial@,
            },
            AssistantMessageEvent::TextDelta { content_index, delta, partial } => AssistantMessageEventView::TextDelta {
                content_index,
                delta: delta@,
                partial: partial@,
            },
            AssistantMessageEvent::TextEnd { content_index, content, partial } => AssistantMessageEventView::TextEnd {
                content_index,
                content: content@,
                partial: partial@,
            },
            AssistantMessageEvent::ThinkingStart { content_index, partial } => AssistantMessageEventView::ThinkingStart {
                content_index,
                partial: partial@,
            },
            AssistantMessageEvent::ThinkingDelta { content_index, delta, partial } => AssistantMessageEventView::ThinkingDelta {
                content_index,
                delta: delta@,
                partial: partial@,
            },
            AssistantMessageEvent::ThinkingEnd { content_index, content, partial } => AssistantMessageEventView::ThinkingEnd {
                content_index,
                content: content@,
                partial: partial@,
            },
            AssistantMessageEvent::ToolCallStart { content_index, partial } => AssistantMessageEventView::ToolCallStart {
                content_index,
                partial: partial@,
            },
            AssistantMessageEvent::ToolCallDelta { content_index, delta, partial } => AssistantMessageEventView::ToolCallDelta {
                content_index,
                delta: delta@,
                partial: partial@,
            },
            AssistantMessageEvent::ToolCallEnd { content_index, tool_call, partial } => AssistantMessageEventView::ToolCallEnd {
                content_index,
                tool_call: tool_call@,
                partial: partial@,
            },
            AssistantMessageEvent::Done { reason, message } => AssistantMessageEventView::Done {
                reason,
                message: message@,
            },
            AssistantMessageEvent::Error { reason, error } => AssistantMessageEventView::Error {
                reason,
                error: error@,
            },
        }
    }
}

impl DeepView for AssistantMessageEvent {
    type V = AssistantMessageEventView;

    open spec fn deep_view(&self) -> AssistantMessageEventView {
        self@
    }
}

impl Clone for AssistantMessageEvent {
    fn clone(&self) -> (r: Self)
        ensures
            r@ == self@,
    {
        match self {
            AssistantMessageEvent::Start { partial } => AssistantMessageEvent::Start {
                partial: Arc::clone(partial),
            },
            AssistantMessageEvent::TextStart { content_index, partial } => AssistantMessageEvent::TextStart {
                content_index: *content_index,
                partial: Arc::clone(partial),
            },
            AssistantMessageEvent::TextDelta { content_index, delta, partial } => AssistantMessageEvent::TextDelta {
                content_index: *content_index,
                delta: delta.clone(),
                partial: Arc::clone(partial),
            },
            AssistantMessageEvent::TextEnd { content_index, content, partial } => AssistantMessageEvent::TextEnd {
                content_index: *content_index,
                content: content.clone(),
                partial: Arc::clone(partial),
            },
            AssistantMessageEvent::ThinkingStart { content_index, partial } => AssistantMessageEvent::ThinkingStart {
                content_index: *content_index,
                partial: Arc::clone(partial),
            },
            AssistantMessageEvent::ThinkingDelta { content_index, delta, partial } => AssistantMessageEvent::ThinkingDelta {
                content_index: *content_index,
                delta: delta.clone(),
                partial: Arc::clone(partial),
            },
            AssistantMessageEvent::ThinkingEnd { content_index, content, partial } => AssistantMessageEvent::ThinkingEnd {
                content_index: *content_index,
                content: content.clone(),
                partial: Arc::clone(partial),
            },
            AssistantMessageEvent::ToolCallStart { content_index, partial } => AssistantMessageEvent::ToolCallStart {
                content_index: *content_index,
                partial: Arc::clone(partial),
            },
            AssistantMessageEvent::ToolCallDelta { content_index, delta, partial } => AssistantMessageEvent::ToolCallDelta {
                content_index: *content_index,
                delta: delta.clone(),
                partial: Arc::clone(partial),
            },
            AssistantMessageEvent::ToolCallEnd { content_index, tool_call, partial } => AssistantMessageEvent::ToolCallEnd {
                content_index: *content_index,
                tool_call: tool_call.clone(),
                partial: Arc::clone(partial),
            },
            AssistantMessageEvent::Done { reason, message } => AssistantMessageEvent::Done {
                reason: *reason,
                message: Arc::clone(message),
            },
            AssistantMessageEvent::Error { reason, error } => AssistantMessageEvent::Error {
                reason: *reason,
                error: Arc::clone(error),
            },
        }
    }
}

/// What a provider streams for one completion.
#[derive(Debug, PartialEq, Eq)]
pub enum StreamEvent {
    Start {
        partial: AssistantMessage,
    },
    TextStart {
        content_index: usize,
    },
    TextDelta {
        content_index: usize,
        delta: String,
    },
    TextEnd {
        content_index: usize,
        content: String,
    },
    ThinkingStart {
        content_index: usize,
    },
    ThinkingDelta {
        content_index: usize,
        delta: String,
    },
    ThinkingEnd {
        content_index: usize,
        content: String,
    },
    ToolCallStart {
        content_index: usize,
    },
    ToolCallDelta {
        content_index: usize,
        delta: String,
    },
    ToolCallEnd {
        content_index: usize,
        tool_call: ToolCall,
    },
    Done {
        reason: StopReason,
        message: AssistantMessage,
    },
    Error {
        reason: StopReason,
        error: AssistantMessage,
    },
}

/// The mathematical value of [`StreamEvent`].
#[verifier::ext_equal]
pub enum StreamEventView {
    Start {
        partial: AssistantMessageView,
    },
    TextStart {
        content_index: usize,
    },
    TextDelta {
        content_index: usize,
        delta: Seq<char>,
    },
    TextEnd {
        content_index: usize,
        content: Seq<char>,
    },
    ThinkingStart {
        content_index: usize,
    },
    ThinkingDelta {
        content_index: usize,
        delta: Seq<char>,
    },
    ThinkingEnd {
        content_index: usize,
        content: Seq<char>,
    },
    ToolCallStart {
        content_index: usize,
    },
    ToolCallDelta {
        content_index: usize,
        delta: Seq<char>,
    },
    ToolCallEnd {
        content_index: usize,
        tool_call: ToolCallView,
    },
    Done {
        reason: StopReason,
        message: AssistantMessageView,
    },
    Error {
        reason: StopReason,
        error: AssistantMessageView,
    },
}

impl View for StreamEvent {
    type V = StreamEventView;

    open spec fn view(&self) -> StreamEventView {
        match *self {
            StreamEvent::Start { partial } => StreamEventView::Start {
                partial: partial@,
            },
            StreamEvent::TextStart { content_index } => StreamEventView::TextStart {
                content_index,
            },
            StreamEvent::TextDelta { content_index, delta } => StreamEventView::TextDelta {
                content_index,
                delta: delta@,
            },
            StreamEvent::TextEnd { content_index, content } => StreamEventView::TextEnd {
                content_index,
                content: content@,
            },
            StreamEvent::ThinkingStart { content_index } => StreamEventView::ThinkingStart {
                content_index,
            },
            StreamEvent::ThinkingDelta { content_index, delta } => StreamEventView::ThinkingDelta {
                content_index,
                delta: delta@,
            },
            StreamEvent::ThinkingEnd { content_index, content } => StreamEventView::ThinkingEnd {
                content_index,
                content: content@,
            },
            StreamEvent::ToolCallStart { content_index } => StreamEventView::ToolCallStart {
                content_index,
            },
            StreamEvent::ToolCallDelta { content_index, delta } => StreamEventView::ToolCallDelta {
                content_index,
                delta: delta@,
            },
            StreamEvent::ToolCallEnd { content_index, tool_call } => StreamEventView::ToolCallEnd {
                content_index,
                tool_call: tool_call@,
            },
            StreamEvent::Done { reason, message } => StreamEventView::Done {
                reason,
                message: message@,
            },
            StreamEvent::Error { reason, error } => StreamEventView::Error {
                reason,
                error: error@,
            },
        }
    }
}

impl DeepView for StreamEvent {
    type V = StreamEventView;

    open spec fn deep_view(&self) -> StreamEventView {
        self@
    }
}

impl Clone for StreamEvent {
    fn clone(&self) -> (r: Self)
        ensures
            r@ == self@,
    {
        match self {
            StreamEvent::Start { partial } => StreamEvent::Start {
                partial: partial.clone(),
            },
            StreamEvent::TextStart { content_index } => StreamEvent::TextStart {
                content_index: *content_index,
            },
            StreamEvent::TextDelta { content_index, delta } => StreamEvent::TextDelta {
                content_index: *content_index,
                delta: delta.clone(),
            },
            StreamEvent::TextEnd { content_index, content } => StreamEvent::TextEnd {
                content_index: *content_index,
                content: content.clone(),
            },
            StreamEvent::ThinkingStart { content_index } => StreamEvent::ThinkingStart {
                content_index: *content_index,
            },
            StreamEvent::ThinkingDelta { content_index, delta } => StreamEvent::ThinkingDelta {
                content_index: *content_index,
                delta: delta.clone(),
            },
            StreamEvent::ThinkingEnd { content_index, content } => StreamEvent::ThinkingEnd {
                content_index: *content_index,
                content: content.clone(),
            },
            StreamEvent::ToolCallStart { content_index } => StreamEvent::ToolCallStart {
                content_index: *content_index,
            },
            StreamEvent::ToolCallDelta { content_index, delta } => StreamEvent::ToolCallDelta {
                content_index: *content_index,
                delta: delta.clone(),
            },
            StreamEvent::ToolCallEnd { content_index, tool_call } => StreamEvent::ToolCallEnd {
                content_index: *content_index,
                tool_call: tool_call.clone(),
            },
            StreamEvent::Done { reason, message } => StreamEvent::Done {
                reason: *reason,
                message: message.clone(),
            },
            StreamEvent::Error { reason, error } => StreamEvent::Error {
                reason: *reason,
                error: error.clone(),
            },
        }
    }
}

/// The value of an optional latency breakdown.
pub open spec fn opt_breakdown(o: Option<Box<TurnLatencyBreakdown>>) -> Option<
    TurnLatencyBreakdownView,
> {
    match o {
        Some(b) => Some((*b)@),
        None => None,
    }
}

/// Copies an optional latency breakdown.
pub fn clone_opt_breakdown(o: &Option<Box<TurnLatencyBreakdown>>) -> (r: Option<
    Box<TurnLatencyBreakdown>,
>)
    ensures
        opt_breakdown(r) == opt_breakdown(*o),
{
    match o {
        Some(b) => {
            let copy: TurnLatencyBreakdown = (**b).clone();
            Some(Box::new(copy))
        },
        None => None,
    }
}

/// Events emitted by the agent during execution.
#[derive(Debug, PartialEq, Eq)]
pub enum AgentEvent {
    /// The run starts.
    AgentStart {
        session_id: String,
    },
    /// The run ends, with all new messages.
    AgentEnd {
        session_id: String,
        messages: Vec<Message>,
        error: Option<String>,
    },
    /// A turn starts: one assistant response and its tool calls.
    TurnStart {
        session_id: String,
        turn_index: usize,
        timestamp: i64,
    },
    /// A turn ends, with its tool results.
    TurnEnd {
        session_id: String,
        turn_index: usize,
        message: Message,
        tool_results: Vec<Message>,
        latency_breakdown: Option<Box<TurnLatencyBreakdown>>,
    },
    /// A message starts.
    MessageStart {
        message: Message,
    },
    /// A streamed message changed.
    MessageUpdate {
        message: Message,
        assistant_message_event: AssistantMessageEvent,
    },
    /// A message is complete.
    MessageEnd {
        message: Message,
    },
    /// A tool call is about to run.
    ToolExecutionStart {
        tool_call_id: String,
        tool_name: String,
        args: Json,
    },
    /// A tool call has something to show.
    ToolExecutionUpdate {
        tool_call_id: String,
        tool_name: String,
        args: Json,
        partial_result: ToolOutput,
    },
    /// A tool call is over.
    ToolExecutionEnd {
        tool_call_id: String,
        tool_name: String,
        result: ToolOutput,
        is_error: bool,
    },
    /// A compaction of the history starts.
    AutoCompactionStart {
        reason: String,
    },
    /// A compaction of the history ends.
    AutoCompactionEnd {
        result: Option<Json>,
        aborted: bool,
        will_retry: bool,
        error_message: Option<String>,
    },
    /// A failed run is about to be retried.
    AutoRetryStart {
        attempt: u32,
        max_attempts: u32,
        delay_ms: u64,
        error_message: String,
    },
    /// The retries are over.
    AutoRetryEnd {
        success: bool,
        attempt: u32,
        final_error: Option<String>,
    },
    /// An extension failed while an event was dispatched.
    ExtensionError {
        extension_id: Option<String>,
        event: String,
        error: String,
    },
}

/// The mathematical value of [`AgentEvent`].
#[verifier::ext_equal]
pub enum AgentEventView {
    AgentStart {
        session_id: Seq<char>,
    },
    AgentEnd {
        session_id: Seq<char>,
        messages: Seq<MessageView>,
        error: Option<Seq<char>>,
    },
    TurnStart {
        session_id: Seq<char>,
        turn_index: usize,
        timestamp: i64,
    },
    TurnEnd {
        session_id: Seq<char>,
        turn_index: usize,
        message: MessageView,
        tool_results: Seq<MessageView>,
        latency_breakdown: Option<TurnLatencyBreakdownView>,
    },
    MessageStart {
        message: MessageView,
    },
    MessageUpdate {
        message: MessageView,
        assistant_message_event: AssistantMessageEventView,
    },
    MessageEnd {
        message: MessageView,
    },
    ToolExecutionStart {
        tool_call_id: Seq<char>,
        tool_name: Seq<char>,
        args: JsonView,
    },
    ToolExecutionUpdate {
        tool_call_id: Seq<char>,
        tool_name: Seq<char>,
        args: JsonView,
        partial_result: ToolOutputView,
    },
    ToolExecutionEnd {
        tool_call_id: Seq<char>,
        tool_name: Seq<char>,
        result: ToolOutputView,
        is_error: bool,
    },
    AutoCompactionStart {
        reason: Seq<char>,
    },
    AutoCompactionEnd {
        result: Option<JsonView>,
        aborted: bool,
        will_retry: bool,
        error_message: Option<Seq<char>>,
    },
    AutoRetryStart {
        attempt: u32,
        max_attempts: u32,
        delay_ms: u64,
        error_message: Seq<char>,
    },
    AutoRetryEnd {
        success: bool,
        attempt: u32,
        final_error: Option<Seq<char>>,
    },
    ExtensionError {
        extension_id: Option<Seq<char>>,
        event: Seq<char>,
        error: Seq<char>,
    },
}

impl View for AgentEvent {
    type V = AgentEventView;

    open spec fn view(&self) -> AgentEventView {
        match *self {
            AgentEvent::AgentStart { session_id } => AgentEventView::AgentStart {
                session_id: session_id@,
            },
            AgentEvent::AgentEnd { session_id, messages, error } => AgentEventView::AgentEnd {
                session_id: session_id@,
                messages: messages.deep_view(),
                error: opt_text(error),
            },
            AgentEvent::TurnStart { session_id, turn_index, timestamp } => AgentEventView::TurnStart {
                session_id: session_id@,
                turn_index,
                timestamp,
            },
            AgentEvent::TurnEnd { session_id, turn_index, message, tool_results, latency_breakdown } => AgentEventView::TurnEnd {
                session_id: session_id@,
                turn_index,
                message: message@,
                tool_results: tool_results.deep_view(),
                latency_breakdown: opt_breakdown(latency_breakdown),
            },
            AgentEvent::MessageStart { message } => AgentEventView::MessageStart {
                message: message@,
            },
            AgentEvent::MessageUpdate { message, assistant_message_event } => AgentEventView::MessageUpdate {
                message: message@,
                assistant_message_event: assistant_message_event@,
            },
            AgentEvent::MessageEnd { message } => AgentEventView::MessageEnd {
                message: message@,
            },
            AgentEvent::ToolExecutionStart { tool_call_id, tool_name, args } => AgentEventView::ToolExecutionStart {
                tool_call_id: tool_call_id@,
                tool_name: tool_name@,
                args: args@,
            },
            AgentEvent::ToolExecutionUpdate { tool_call_id, tool_name, args, partial_result } => AgentEventView::ToolExecutionUpdate {
                tool_call_id: tool_call_id@,
                tool_name: tool_name@,
                args: args@,
                partial_result: partial_result@,
            },
            AgentEvent::ToolExecutionEnd { tool_call_id, tool_name, result, is_error } => AgentEventView::ToolExecutionEnd {
                tool_call_id: tool_call_id@,
                tool_name: tool_name@,
                result: result@,
                is_error,
            },
            AgentEvent::AutoCompactionStart { reason } => AgentEventView::AutoCompactionStart {
                reason: reason@,
            },
            AgentEvent::AutoCompactionEnd { result, aborted, will_retry, error_message } => AgentEventView::AutoCompactionEnd {
                result: opt_json(result),
                aborted,
                will_retry,
                error_message: opt_text(error_message),
            },
            AgentEvent::AutoRetryStart { attempt, max_attempts, delay_ms, error_message } => AgentEventView::AutoRetryStart {
                attempt,
                max_attempts,
                delay_ms,
                error_message: error_message@,
            },
            AgentEvent::AutoRetryEnd { success, attempt, final_error } => AgentEventView::AutoRetryEnd {
                success,
                attempt,
                final_error: opt_text(final_error),
            },
            AgentEvent::ExtensionError { extension_id, event, error } => AgentEventView::ExtensionError {
                extension_id: opt_text(extension_id),
                event: event@,
                error: error@,
            },
        }
    }
}

impl DeepView for AgentEvent {
    type V = AgentEventView;

    open spec fn deep_view(&self) -> AgentEventView {
        self@
    }
}

impl Clone for AgentEvent {
    fn clone(&self) -> (r: Self)
        ensures
            r@ == self@,
    {
        match self {
            AgentEvent::AgentStart { session_id } => AgentEvent::AgentStart {
                session_id: session_id.clone(),
            },
            AgentEvent::AgentEnd { session_id, messages, error } => AgentEvent::AgentEnd {
                session_id: session_id.clone(),
                messages: clone_messages(messages),
                error: clone_opt_text(error),
            },
            AgentEvent::TurnStart { session_id, turn_index, timestamp } => AgentEvent::TurnStart {
                session_id: session_id.clone(),
                turn_index: *turn_index,
                timestamp: *timestamp,
            },
            AgentEvent::TurnEnd { session_id, turn_index, message, tool_results, latency_breakdown } => AgentEvent::TurnEnd {
                session_id: session_id.clone(),
                turn_index: *turn_index,
                message: message.clone(),
                tool_results: clone_messages(tool_results),
                latency_breakdown: clone_opt_breakdown(latency_breakdown),
            },
            AgentEvent::MessageStart { message } => AgentEvent::MessageStart {
                message: message.clone(),
            },
            AgentEvent::MessageUpdate { message, assistant_message_event } => AgentEvent::MessageUpdate {
                message: message.clone(),
                assistant_message_event: assistant_message_event.clone(),
            },
            AgentEvent::MessageEnd { message } => AgentEvent::MessageEnd {
                message: message.clone(),
            },
            AgentEvent::ToolExecutionStart { tool_call_id, tool_name, args } => AgentEvent::ToolExecutionStart {
                tool_call_id: tool_call_id.clone(),
                tool_name: tool_name.clone(),
                args: args.clone(),
            },
            AgentEvent::ToolExecutionUpdate { tool_call_id, tool_name, args, partial_result } => AgentEvent::ToolExecutionUpdate {
                tool_call_id: tool_call_id.clone(),
                tool_name: tool_name.clone(),
                args: args.clone(),
                partial_result: partial_result.clone(),
            },
            AgentEvent::ToolExecutionEnd { tool_call_id, tool_name, result, is_error } => AgentEvent::ToolExecutionEnd {
                tool_call_id: tool_call_id.clone(),
                tool_name: tool_name.clone(),
                result: result.clone(),
                is_error: *is_error,
            },
            AgentEvent::AutoCompactionStart { reason } => AgentEvent::AutoCompactionStart {
                reason: reason.clone(),
            },
            AgentEvent::AutoCompactionEnd { result, aborted, will_retry, error_message } => AgentEvent::AutoCompactionEnd {
                result: clone_opt_json(result),
                aborted: *aborted,
                will_retry: *will_retry,
                error_message: clone_opt_text(error_message),
            },
            AgentEvent::AutoRetryStart { attempt, max_attempts, delay_ms, error_message } => AgentEvent::AutoRetryStart {
                attempt: *attempt,
                max_attempts: *max_attempts,
                delay_ms: *delay_ms,
                error_message: error_message.clone(),
            },
            AgentEvent::AutoRetryEnd { success, attempt, final_error } => AgentEvent::AutoRetryEnd {
                success: *success,
                attempt: *attempt,
                final_error: clone_opt_text(final_error),
            },
            AgentEvent::ExtensionError { extension_id, event, error } => AgentEvent::ExtensionError {
                extension_id: clone_opt_text(extension_id),
                event: event.clone(),
                error: error.clone(),
            },
        }
    }
}

/// Appends an event to those emitted so far.
pub fn emit(out: &mut Vec<AgentEvent>, event: AgentEvent)
    ensures
        final(out).deep_view() == old(out).deep_view().push(event@),
{
    out.push(event);
    assert(out.deep_view() =~= old(out).deep_view().push(event@));
}

/// The events that extensions are told of.
#[derive(Debug, Clone, Copy, PartialEq, Eq, Structural)]
pub enum LifecycleEvent {
    AgentStart,
    AgentEnd,
    TurnStart,
    TurnEnd,
}

impl AgentEventView {
    /// The lifecycle event that extensions are told of for this event, if there is one.
    pub open spec fn lifecycle(self) -> Option<LifecycleEvent> {
        match self {
            AgentEventView::AgentStart { .. } => Some(LifecycleEvent::AgentStart),
            AgentEventView::AgentEnd { .. } => Some(LifecycleEvent::AgentEnd),
            AgentEventView::TurnStart { .. } => Some(LifecycleEvent::TurnStart),
            AgentEventView::TurnEnd { .. } => Some(LifecycleEvent::TurnEnd),
            _ => None,
        }
    }
}

impl AgentEvent {
    /// The lifecycle event that extensions are told of for this event, if there is one.
    pub fn lifecycle_event(&self) -> (r: Option<LifecycleEvent>)
        ensures
            r == self@.lifecycle(),
    {
        match self {
            AgentEvent::AgentStart { .. } => Some(LifecycleEvent::AgentStart),
            AgentEvent::AgentEnd { .. } => Some(LifecycleEvent::AgentEnd),
            AgentEvent::TurnStart { .. } => Some(LifecycleEvent::TurnStart),
            AgentEvent::TurnEnd { .. } => Some(LifecycleEvent::TurnEnd),
            _ => None,
        }
    }
}

} // verus!
