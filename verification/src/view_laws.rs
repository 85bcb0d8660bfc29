//! What is seen of the values of this library: everything that they hold.
use vstd::prelude::*;

use crate::agent::{Agent, AgentConfig, Context, ProviderIdentity, StreamOptions, ToolDef, ToolInfo};
use crate::command::{
    CommandAction, CommandActionView, CommandOutcomeView, ExtensionCommand, IdleAction,
    IdleActionView, IdleRuns,
};
use crate::compact::{
    CompactionAction, CompactionActionView, CompactionPhase, CompactionPhaseView,
    CompactionRecord,
};
use crate::error::{Error, ErrorView};
use crate::event::{
    AgentEvent, AgentEventView, AssistantMessageEvent, AssistantMessageEventView, StreamEvent,
    StreamEventView,
};
use crate::extensions::{EnableAction, EnableActionView, Enabling};
use crate::host::{ExtensionInjectedQueue, HostState, PendingIdleAction, PendingIdleActionView};
use crate::input::{ContextReply, ContextReplyView};
use crate::json::{Json, JsonView};
use crate::latency::TurnLatencyBreakdown;
use crate::model::{
    AssistantMessage, ContentBlock, ContentBlockView, CustomMessage, ImageContent, Message,
    MessageView, TextContent, ThinkingContent, ToolCall, ToolOutput, ToolResultMessage,
    UserContent, UserContentView, UserMessage,
};
use crate::pi_ai::{CompletionProgress, CompletionProgressView};
use crate::queue::{MessageQueue, QueuedMessage};
use crate::run::{Run, RunAction, RunActionView, RunInput, RunInputView, RunPhase, RunPhaseView};
use crate::selection::{
    ExtensionAiCompletionHostState, ModelSelection, ModelSelectionView, ModelTarget,
    SessionKeys,
};
use crate::semantic::{
    ContextBundleExclusion, ContextBundleInvalidationPolicy, ContextBundleItem,
    PreparedSemanticContextPrompt, SemanticContextBundle, SemanticContextBundleInjection,
};
use crate::stream::{StreamInput, StreamInputView, StreamProgress, StreamProgressView};
use crate::tool_exec::ToolExecution;
use crate::tool_run::{FinishedCall, ToolInput, ToolInputView, ToolRun};
use crate::turn::{OutcomeView, SessionTurn, TurnAction, TurnActionView, TurnBody, TurnBodyView};

verus! {

/// Whether values are seen one by one, in order, as what they are.
pub open spec fn shows<T: View>(seen: Seq<T::V>, held: Seq<T>) -> bool {
    &&& seen.len() == held.len()
    &&& forall|i: int| 0 <= i < held.len() ==> #[trigger] seen[i] == held[i]@
}

/// Whether a value is seen exactly if it is there.
pub open spec fn shows_if_there<T: View>(seen: Option<T::V>, held: Option<T>) -> bool {
    match (seen, held) {
        (Some(s), Some(h)) => s == h@,
        (None, None) => true,
        _ => false,
    }
}

/// A value out of its box, if it is there.
pub open spec fn unboxed<T>(held: Option<Box<T>>) -> Option<T> {
    match held {
        Some(b) => Some(*b),
        None => None,
    }
}

/// Whether pairs of texts are seen one by one, in order.
pub open spec fn shows_pairs(seen: Seq<(Seq<char>, Seq<char>)>, held: Seq<(String, String)>) -> bool {
    &&& seen.len() == held.len()
    &&& forall|i: int| 0 <= i < held.len() ==> #[trigger] seen[i] == (held[i].0@, held[i].1@)
}

/// Nothing of the options of a request is hidden.
pub proof fn stream_options_is_seen_whole(x: StreamOptions)
    ensures
        shows_if_there(x@.session_id, x.session_id),
        shows_if_there(x@.api_key, x.api_key),
        shows_pairs(x@.headers, x.headers@),
        x@.thinking_level == x.thinking_level,
        x@.max_tokens == x.max_tokens,
        x@.temperature == x.temperature,
{
}

/// Nothing of a configuration is hidden.
pub proof fn agent_config_is_seen_whole(x: AgentConfig)
    ensures
        shows_if_there(x@.system_prompt, x.system_prompt),
        x@.max_tool_iterations == x.max_tool_iterations,
        x@.stream_options == x.stream_options@,
        x@.block_images == x.block_images,
        x@.fail_closed_hooks == x.fail_closed_hooks,
{
}

/// Nothing of what a provider is known by is hidden.
pub proof fn provider_identity_is_seen_whole(x: ProviderIdentity)
    ensures
        x@.api == x.api@,
        x@.name == x.name@,
        x@.model_id == x.model_id@,
{
}

/// Nothing of a tool is hidden.
pub proof fn tool_info_is_seen_whole(x: ToolInfo)
    ensures
        x@.name == x.name@,
        x@.description == x.description@,
        x@.parameters == x.parameters@,
        x@.effects == x.effects,
{
}

/// Nothing of what the model is told of a tool is hidden.
pub proof fn tool_def_is_seen_whole(x: ToolDef)
    ensures
        x@.name == x.name@,
        x@.description == x.description@,
        x@.parameters == x.parameters@,
{
}

/// Nothing of what the model is asked with is hidden.
pub proof fn context_is_seen_whole(x: Context)
    ensures
        shows_if_there(x@.system_prompt, x.system_prompt),
        shows(x@.messages, x.messages@),
        shows(x@.tools, x.tools@),
{
}

/// Nothing of a compaction is hidden.
pub proof fn compaction_record_is_seen_whole(x: CompactionRecord)
    ensures
        x@.summary == x.summary@,
        x@.first_kept_entry_id == x.first_kept_entry_id@,
        x@.tokens_before == x.tokens_before,
        shows_if_there(x@.details, x.details),
{
}

/// Nothing of a phase of a compaction is hidden.
pub proof fn compaction_phase_is_seen_whole(x: CompactionPhase)
    ensures
        match (x, x@) {
            (CompactionPhase::Worker, CompactionPhaseView::Worker) => true,
            (
                CompactionPhase::ApplyWorker(held),
                CompactionPhaseView::ApplyWorker(seen),
            ) => seen == held@,
            (CompactionPhase::Quota, CompactionPhaseView::Quota) => true,
            (CompactionPhase::Preparation, CompactionPhaseView::Preparation) => true,
            (CompactionPhase::Before, CompactionPhaseView::Before) => true,
            (
                CompactionPhase::ApplyExtension(held),
                CompactionPhaseView::ApplyExtension(seen),
            ) => seen == held@,
            (CompactionPhase::Launch, CompactionPhaseView::Launch) => true,
            (CompactionPhase::Compact, CompactionPhaseView::Compact) => true,
            (
                CompactionPhase::ApplyResult(held),
                CompactionPhaseView::ApplyResult(seen),
            ) => seen == held@,
            (CompactionPhase::Done, CompactionPhaseView::Done) => true,
            _ => false,
        },
{
}

/// Nothing of a failure is hidden.
pub proof fn error_is_seen_whole(x: Error)
    ensures
        match (x, x@) {
            (Error::Api(held), ErrorView::Api(seen)) => seen == held@,
            (
                Error::Provider { provider, message },
                ErrorView::Provider { provider: seen_provider, message: seen_message },
            ) => {
                &&& seen_provider == provider@
                &&& seen_message == message@
            },
            (Error::Auth(held), ErrorView::Auth(seen)) => seen == held@,
            (Error::Validation(held), ErrorView::Validation(seen)) => seen == held@,
            (Error::Session(held), ErrorView::Session(seen)) => seen == held@,
            (Error::Extension(held), ErrorView::Extension(seen)) => seen == held@,
            (Error::Other(held), ErrorView::Other(seen)) => seen == held@,
            _ => false,
        },
{
}

/// Nothing of an event of a response is hidden.
pub proof fn assistant_message_event_is_seen_whole(x: AssistantMessageEvent)
    ensures
        match (x, x@) {
            (
                AssistantMessageEvent::Start { partial },
                AssistantMessageEventView::Start { partial: seen_partial },
            ) => seen_partial == partial@,
            (
                AssistantMessageEvent::TextStart { content_index, partial },
                AssistantMessageEventView::TextStart {
                    content_index: seen_content_index,
                    partial: seen_partial,
                },
            ) => {
                &&& seen_content_index == content_index
                &&& seen_partial == partial@
            },
            (
                AssistantMessageEvent::TextDelta { content_index, delta, partial },
                AssistantMessageEventView::TextDelta {
                    content_index: seen_content_index,
                    delta: seen_delta,
                    partial: seen_partial,
                },
            ) => {
                &&& seen_content_index == content_index
                &&& seen_delta == delta@
                &&& seen_partial == partial@
            },
            (
                AssistantMessageEvent::TextEnd { content_index, content, partial },
                AssistantMessageEventView::TextEnd {
                    content_index: seen_content_index,
                    content: seen_content,
                    partial: seen_partial,
                },
            ) => {
                &&& seen_content_index == content_index
                &&& seen_content == content@
                &&& seen_partial == partial@
            },
            (
                AssistantMessageEvent::ThinkingStart { content_index, partial },
                AssistantMessageEventView::ThinkingStart {
                    content_index: seen_content_index,
                    partial: seen_partial,
                },
            ) => {
                &&& seen_content_index == content_index
                &&& seen_partial == partial@
            },
            (
                AssistantMessageEvent::ThinkingDelta { content_index, delta, partial },
                AssistantMessageEventView::ThinkingDelta {
                    content_index: seen_content_index,
                    delta: seen_delta,
                    partial: seen_partial,
                },
            ) => {
                &&& seen_content_index == content_index
                &&& seen_delta == delta@
                &&& seen_partial == partial@
            },
            (
                AssistantMessageEvent::ThinkingEnd { content_index, content, partial },
                AssistantMessageEventView::ThinkingEnd {
                    content_index: seen_content_index,
                    content: seen_content,
                    partial: seen_partial,
                },
            ) => {
                &&& seen_content_index == content_index
                &&& seen_content == content@
                &&& seen_partial == partial@
            },
            (
                AssistantMessageEvent::ToolCallStart { content_index, partial },
                AssistantMessageEventView::ToolCallStart {
                    content_index: seen_content_index,
                    partial: seen_partial,
                },
            ) => {
                &&& seen_content_index == content_index
                &&& seen_partial == partial@
            },
            (
                AssistantMessageEvent::ToolCallDelta { content_index, delta, partial },
                AssistantMessageEventView::ToolCallDelta {
                    content_index: seen_content_index,
                    delta: seen_delta,
                    partial: seen_partial,
                },
            ) => {
                &&& seen_content_index == content_index
                &&& seen_delta == delta@
                &&& seen_partial == partial@
            },
            (
                AssistantMessageEvent::ToolCallEnd { content_index, tool_call, partial },
                AssistantMessageEventView::ToolCallEnd {
                    content_index: seen_content_index,
                    tool_call: seen_tool_call,
                    partial: seen_partial,
                },
            ) => {
                &&& seen_content_index == content_index
                &&& seen_tool_call == tool_call@
                &&& seen_partial == partial@
            },
            (
                AssistantMessageEvent::Done { reason, message },
                AssistantMessageEventView::Done { reason: seen_reason, message: seen_message },
            ) => {
                &&& seen_reason == reason
                &&& seen_message == message@
            },
            (
                AssistantMessageEvent::Error { reason, error },
                AssistantMessageEventView::Error { reason: seen_reason, error: seen_error },
            ) => {
                &&& seen_reason == reason
                &&& seen_error == error@
            },
            _ => false,
        },
{
}

/// Nothing of an event of a stream is hidden.
pub proof fn stream_event_is_seen_whole(x: StreamEvent)
    ensures
        match (x, x@) {
            (
                StreamEvent::Start { partial },
                StreamEventView::Start { partial: seen_partial },
            ) => seen_partial == partial@,
            (
                StreamEvent::TextStart { content_index },
                StreamEventView::TextStart { content_index: seen_content_index },
            ) => seen_content_index == content_index,
            (
                StreamEvent::TextDelta { content_index, delta },
                StreamEventView::TextDelta { content_index: seen_content_index, delta: seen_delta },
            ) => {
                &&& seen_content_index == content_index
                &&& seen_delta == delta@
            },
            (
                StreamEvent::TextEnd { content_index, content },
                StreamEventView::TextEnd {
                    content_index: seen_content_index,
                    content: seen_content,
                },
            ) => {
                &&& seen_content_index == content_index
                &&& seen_content == content@
            },
            (
                StreamEvent::ThinkingStart { content_index },
                StreamEventView::ThinkingStart { content_index: seen_content_index },
            ) => seen_content_index == content_index,
            (
                StreamEvent::ThinkingDelta { content_index, delta },
                StreamEventView::ThinkingDelta {
                    content_index: seen_content_index,
                    delta: seen_delta,
                },
            ) => {
                &&& seen_content_index == content_index
                &&& seen_delta == delta@
            },
            (
                StreamEvent::ThinkingEnd { content_index, content },
                StreamEventView::ThinkingEnd {
                    content_index: seen_content_index,
                    content: seen_content,
                },
            ) => {
                &&& seen_content_index == content_index
                &&& seen_content == content@
            },
            (
                StreamEvent::ToolCallStart { content_index },
                StreamEventView::ToolCallStart { content_index: seen_content_index },
            ) => seen_content_index == content_index,
            (
                StreamEvent::ToolCallDelta { content_index, delta },
                StreamEventView::ToolCallDelta {
                    content_index: seen_content_index,
                    delta: seen_delta,
                },
            ) => {
                &&& seen_content_index == content_index
                &&& seen_delta == delta@
            },
            (
                StreamEvent::ToolCallEnd { content_index, tool_call },
                StreamEventView::ToolCallEnd {
                    content_index: seen_content_index,
                    tool_call: seen_tool_call,
                },
            ) => {
                &&& seen_content_index == content_index
                &&& seen_tool_call == tool_call@
            },
            (
                StreamEvent::Done { reason, message },
                StreamEventView::Done { reason: seen_reason, message: seen_message },
            ) => {
                &&& seen_reason == reason
                &&& seen_message == message@
            },
            (
                StreamEvent::Error { reason, error },
                StreamEventView::Error { reason: seen_reason, error: seen_error },
            ) => {
                &&& seen_reason == reason
                &&& seen_error == error@
            },
            _ => false,
        },
{
}

/// Nothing of an event is hidden.
pub proof fn agent_event_is_seen_whole(x: AgentEvent)
    ensures
        match (x, x@) {
            (
                AgentEvent::AgentStart { session_id },
                AgentEventView::AgentStart { session_id: seen_session_id },
            ) => seen_session_id == session_id@,
            (
                AgentEvent::AgentEnd { session_id, messages, error },
                AgentEventView::AgentEnd {
                    session_id: seen_session_id,
                    messages: seen_messages,
                    error: seen_error,
                },
            ) => {
                &&& seen_session_id == session_id@
                &&& shows(seen_messages, messages@)
                &&& shows_if_there(seen_error, error)
            },
            (
                AgentEvent::TurnStart { session_id, turn_index, timestamp },
                AgentEventView::TurnStart {
                    session_id: seen_session_id,
                    turn_index: seen_turn_index,
                    timestamp: seen_timestamp,
                },
            ) => {
                &&& seen_session_id == session_id@
                &&& seen_turn_index == turn_index
                &&& seen_timestamp == timestamp
            },
            (
                AgentEvent::TurnEnd {
                    session_id,
                    turn_index,
                    message,
                    tool_results,
                    latency_breakdown,
                },
                AgentEventView::TurnEnd {
                    session_id: seen_session_id,
                    turn_index: seen_turn_index,
                    message: seen_message,
                    tool_results: seen_tool_results,
                    latency_breakdown: seen_latency_breakdown,
                },
            ) => {
                &&& seen_session_id == session_id@
                &&& seen_turn_index == turn_index
                &&& seen_message == message@
                &&& shows(seen_tool_results, tool_results@)
                &&& shows_if_there(seen_latency_breakdown, unboxed(latency_breakdown))
            },
            (
                AgentEvent::MessageStart { message },
                AgentEventView::MessageStart { message: seen_message },
            ) => seen_message == message@,
            (
                AgentEvent::MessageUpdate { message, assistant_message_event },
                AgentEventView::MessageUpdate {
                    message: seen_message,
                    assistant_message_event: seen_assistant_message_event,
                },
            ) => {
                &&& seen_message == message@
                &&& seen_assistant_message_event == assistant_message_event@
            },
            (
                AgentEvent::MessageEnd { message },
                AgentEventView::MessageEnd { message: seen_message },
            ) => seen_message == message@,
            (
                AgentEvent::ToolExecutionStart { tool_call_id, tool_name, args },
                AgentEventView::ToolExecutionStart {
                    tool_call_id: seen_tool_call_id,
                    tool_name: seen_tool_name,
                    args: seen_args,
                },
            ) => {
                &&& seen_tool_call_id == tool_call_id@
                &&& seen_tool_name == tool_name@
                &&& seen_args == args@
            },
            (
                AgentEvent::ToolExecutionUpdate { tool_call_id, tool_name, args, partial_result },
                AgentEventView::ToolExecutionUpdate {
                    tool_call_id: seen_tool_call_id,
                    tool_name: seen_tool_name,
                    args: seen_args,
                    partial_result: seen_partial_result,
                },
            ) => {
                &&& seen_tool_call_id == tool_call_id@
                &&& seen_tool_name == tool_name@
                &&& seen_args == args@
                &&& seen_partial_result == partial_result@
            },
            (
                AgentEvent::ToolExecutionEnd { tool_call_id, tool_name, result, is_error },
                AgentEventView::ToolExecutionEnd {
                    tool_call_id: seen_tool_call_id,
                    tool_name: seen_tool_name,
                    result: seen_result,
                    is_error: seen_is_error,
                },
            ) => {
                &&& seen_tool_call_id == tool_call_id@
                &&& seen_tool_name == tool_name@
                &&& seen_result == result@
                &&& seen_is_error == is_error
            },
            (
                AgentEvent::AutoCompactionStart { reason },
                AgentEventView::AutoCompactionStart { reason: seen_reason },
            ) => seen_reason == reason@,
            (
                AgentEvent::AutoCompactionEnd { result, aborted, will_retry, error_message },
                AgentEventView::AutoCompactionEnd {
                    result: seen_result,
                    aborted: seen_aborted,
                    will_retry: seen_will_retry,
                    error_message: seen_error_message,
                },
            ) => {
                &&& shows_if_there(seen_result, result)
                &&& seen_aborted == aborted
                &&& seen_will_retry == will_retry
                &&& shows_if_there(seen_error_message, error_message)
            },
            (
                AgentEvent::AutoRetryStart { attempt, max_attempts, delay_ms, error_message },
                AgentEventView::AutoRetryStart {
                    attempt: seen_attempt,
                    max_attempts: seen_max_attempts,
                    delay_ms: seen_delay_ms,
                    error_message: seen_error_message,
                },
            ) => {
                &&& seen_attempt == attempt
                &&& seen_max_attempts == max_attempts
                &&& seen_delay_ms == delay_ms
                &&& seen_error_message == error_message@
            },
            (
                AgentEvent::AutoRetryEnd { success, attempt, final_error },
                AgentEventView::AutoRetryEnd {
                    success: seen_success,
                    attempt: seen_attempt,
                    final_error: seen_final_error,
                },
            ) => {
                &&& seen_success == success
                &&& seen_attempt == attempt
                &&& shows_if_there(seen_final_error, final_error)
            },
            (
                AgentEvent::ExtensionError { extension_id, event, error },
                AgentEventView::ExtensionError {
                    extension_id: seen_extension_id,
                    event: seen_event,
                    error: seen_error,
                },
            ) => {
                &&& shows_if_there(seen_extension_id, extension_id)
                &&& seen_event == event@
                &&& seen_error == error@
            },
            _ => false,
        },
{
}

/// Nothing of the enabling of extensions is hidden.
pub proof fn enabling_is_seen_whole(x: Enabling)
    ensures
        x@.entries == x.entries,
        x@.resolved == x.resolved,
        x@.js == x.js@,
        x@.native == x.native@,
        x@.prewarmed == x.prewarmed,
        x@.phase == x.phase,
{
}

/// Nothing of a queue of extensions is hidden.
pub proof fn extension_injected_queue_is_seen_whole(x: ExtensionInjectedQueue)
    ensures
        shows(x@.steering, x.steering@),
        shows(x@.follow_up, x.follow_up@),
        x@.steering_mode == x.steering_mode,
        x@.follow_up_mode == x.follow_up_mode,
{
}

/// Nothing of what is to be done at rest is hidden.
pub proof fn pending_idle_action_is_seen_whole(x: PendingIdleAction)
    ensures
        match (x, x@) {
            (
                PendingIdleAction::CustomMessage(held),
                PendingIdleActionView::CustomMessage(seen),
            ) => seen == held@,
            (
                PendingIdleAction::UserText(held),
                PendingIdleActionView::UserText(seen),
            ) => seen == held@,
            _ => false,
        },
{
}

/// Nothing of an answer about the context is hidden.
pub proof fn context_reply_is_seen_whole(x: ContextReply)
    ensures
        match (x, x@) {
            (ContextReply::Keep, ContextReplyView::Keep) => true,
            (ContextReply::Clear, ContextReplyView::Clear) => true,
            (ContextReply::Decode(held), ContextReplyView::Decode(seen)) => seen == held@,
            _ => false,
        },
{
}

/// Nothing of a breakdown is hidden.
pub proof fn turn_latency_breakdown_is_seen_whole(x: TurnLatencyBreakdown)
    ensures
        x@.schema == x.schema@,
        x@.total_ms == x.total_ms,
        x@.provider_streaming == x.provider_streaming,
        x@.local_tools == x.local_tools,
        x@.extension_hostcalls == x.extension_hostcalls,
        x@.persistence == x.persistence,
        x@.dominant_component == x.dominant_component@,
{
}

/// Nothing of a text is hidden.
pub proof fn text_content_is_seen_whole(x: TextContent)
    ensures
        x@.text == x.text@,
        shows_if_there(x@.text_signature, x.text_signature),
{
}

/// Nothing of a thought is hidden.
pub proof fn thinking_content_is_seen_whole(x: ThinkingContent)
    ensures
        x@.thinking == x.thinking@,
        shows_if_there(x@.thinking_signature, x.thinking_signature),
{
}

/// Nothing of an image is hidden.
pub proof fn image_content_is_seen_whole(x: ImageContent)
    ensures
        x@.data == x.data@,
        x@.mime_type == x.mime_type@,
{
}

/// Nothing of a tool call is hidden.
pub proof fn tool_call_is_seen_whole(x: ToolCall)
    ensures
        x@.id == x.id@,
        x@.name == x.name@,
        x@.arguments == x.arguments@,
        shows_if_there(x@.thought_signature, x.thought_signature),
{
}

/// Nothing of a block is hidden.
pub proof fn content_block_is_seen_whole(x: ContentBlock)
    ensures
        match (x, x@) {
            (ContentBlock::Text(held), ContentBlockView::Text(seen)) => seen == held@,
            (ContentBlock::Thinking(held), ContentBlockView::Thinking(seen)) => seen == held@,
            (ContentBlock::Image(held), ContentBlockView::Image(seen)) => seen == held@,
            (ContentBlock::ToolCall(held), ContentBlockView::ToolCall(seen)) => seen == held@,
            _ => false,
        },
{
}

/// Nothing of what a user says is hidden.
pub proof fn user_content_is_seen_whole(x: UserContent)
    ensures
        match (x, x@) {
            (UserContent::Text(held), UserContentView::Text(seen)) => seen == held@,
            (UserContent::Blocks(held), UserContentView::Blocks(seen)) => shows(seen, held@),
            _ => false,
        },
{
}

/// Nothing of a message of the user is hidden.
pub proof fn user_message_is_seen_whole(x: UserMessage)
    ensures
        x@.content == x.content@,
        x@.timestamp == x.timestamp,
{
}

/// Nothing of a response is hidden.
pub proof fn assistant_message_is_seen_whole(x: AssistantMessage)
    ensures
        shows(x@.content, x.content@),
        x@.api == x.api@,
        x@.provider == x.provider@,
        x@.model == x.model@,
        x@.usage == x.usage,
        x@.stop_reason == x.stop_reason,
        shows_if_there(x@.error_message, x.error_message),
        x@.timestamp == x.timestamp,
{
}

/// Nothing of the result of a tool is hidden.
pub proof fn tool_result_message_is_seen_whole(x: ToolResultMessage)
    ensures
        x@.tool_call_id == x.tool_call_id@,
        x@.tool_name == x.tool_name@,
        shows(x@.content, x.content@),
        shows_if_there(x@.details, x.details),
        x@.is_error == x.is_error,
        x@.timestamp == x.timestamp,
{
}

/// Nothing of a message of an extension is hidden.
pub proof fn custom_message_is_seen_whole(x: CustomMessage)
    ensures
        x@.content == x.content@,
        x@.custom_type == x.custom_type@,
        x@.display == x.display,
        shows_if_there(x@.details, x.details),
        x@.timestamp == x.timestamp,
{
}

/// Nothing of a message is hidden.
pub proof fn message_is_seen_whole(x: Message)
    ensures
        match (x, x@) {
            (Message::User(held), MessageView::User(seen)) => seen == held@,
            (Message::Assistant(held), MessageView::Assistant(seen)) => seen == held@,
            (Message::ToolResult(held), MessageView::ToolResult(seen)) => seen == held@,
            (Message::Custom(held), MessageView::Custom(seen)) => seen == held@,
            _ => false,
        },
{
}

/// Nothing of the output of a tool is hidden.
pub proof fn tool_output_is_seen_whole(x: ToolOutput)
    ensures
        shows(x@.content, x.content@),
        shows_if_there(x@.details, x.details),
        x@.is_error == x.is_error,
{
}

/// Nothing of the progress of a completion is hidden.
pub proof fn completion_progress_is_seen_whole(x: CompletionProgress)
    ensures
        match (x, x@) {
            (CompletionProgress::Continue, CompletionProgressView::Continue) => true,
            (CompletionProgress::Done(held), CompletionProgressView::Done(seen)) => seen == held@,
            (
                CompletionProgress::Failed(held),
                CompletionProgressView::Failed(seen),
            ) => seen == held@,
            _ => false,
        },
{
}

/// Nothing of a queue is hidden.
pub proof fn message_queue_is_seen_whole(x: MessageQueue)
    ensures
        shows(x@.steering, x.steering@),
        shows(x@.follow_up, x.follow_up@),
        x@.steering_mode == x.steering_mode,
        x@.follow_up_mode == x.follow_up_mode,
        x@.next_seq == x.next_seq,
{
}

/// Nothing of a phase of a run is hidden.
pub proof fn run_phase_is_seen_whole(x: RunPhase)
    ensures
        match (x, x@) {
            (RunPhase::InitialSteering, RunPhaseView::InitialSteering) => true,
            (RunPhase::TurnAbort, RunPhaseView::TurnAbort) => true,
            (RunPhase::Assistant, RunPhaseView::Assistant) => true,
            (RunPhase::FailedSteering(held), RunPhaseView::FailedSteering(seen)) => seen == held@,
            (RunPhase::StoppedSteering, RunPhaseView::StoppedSteering) => true,
            (
                RunPhase::CapSteering { stop, error },
                RunPhaseView::CapSteering { stop: seen_stop, error: seen_error },
            ) => {
                &&& seen_stop == stop@
                &&& seen_error == error@
            },
            (RunPhase::Tools, RunPhaseView::Tools) => true,
            (
                RunPhase::ToolErrorSteering(held),
                RunPhaseView::ToolErrorSteering(seen),
            ) => seen == held@,
            (
                RunPhase::NextSteering { more },
                RunPhaseView::NextSteering { more: seen_more },
            ) => seen_more == more,
            (RunPhase::FollowUp, RunPhaseView::FollowUp) => true,
            (RunPhase::Done, RunPhaseView::Done) => true,
            _ => false,
        },
{
}

/// Nothing of a run is hidden.
pub proof fn run_is_seen_whole(x: Run)
    ensures
        x@.session_id == x.session_id@,
        x@.max_iterations == x.max_iterations,
        x@.iterations == x.iterations,
        x@.warned == x.warned,
        x@.turn_index == x.turn_index,
        shows(x@.new_messages, x.new_messages@),
        shows_if_there(x@.last_assistant, x.last_assistant),
        shows(x@.pending, x.pending@),
        x@.phase == x.phase@,
{
}

/// Nothing of a model that can be switched to is hidden.
pub proof fn model_target_is_seen_whole(x: ModelTarget)
    ensures
        shows_if_there(x@.api_key, x.api_key),
        x@.requires_credential == x.requires_credential,
        shows_pairs(x@.headers, x.headers@),
        x@.thinking == x.thinking,
{
}

/// Nothing of the keys of a session is hidden.
pub proof fn session_keys_is_seen_whole(x: SessionKeys)
    ensures
        shows_if_there(x@.given, x.given),
        shows_if_there(x@.stored, x.stored),
{
}

/// Nothing of the choice of a model is hidden.
pub proof fn model_selection_is_seen_whole(x: ModelSelection)
    ensures
        match (x, x@) {
            (ModelSelection::Keep, ModelSelectionView::Keep) => true,
            (
                ModelSelection::Create(held),
                ModelSelectionView::Create(seen),
            ) => shows_if_there(seen, held),
            _ => false,
        },
{
}

/// Nothing of what extensions ask models with is hidden.
pub proof fn extension_ai_completion_host_state_is_seen_whole(x: ExtensionAiCompletionHostState)
    ensures
        x@.provider == x.provider@,
        x@.stream_options == x.stream_options@,
        shows(x@.models, x.models@),
{
}

/// Nothing of an item of a bundle is hidden.
pub proof fn context_bundle_item_is_seen_whole(x: ContextBundleItem)
    ensures
        x@.node_type == x.node_type@,
        x@.source_path == x.source_path@,
        x@.title == x.title@,
        x@.reason == x.reason@,
        x@.score == x.score,
        x@.estimated_tokens == x.estimated_tokens,
        shows_if_there(x@.freshness_status, x.freshness_status),
        x@.redaction_status == x.redaction_status@,
{
}

/// Nothing of an item that was left out of a bundle is hidden.
pub proof fn context_bundle_exclusion_is_seen_whole(x: ContextBundleExclusion)
    ensures
        x@.node_type == x.node_type@,
        x@.source_path == x.source_path@,
        x@.title == x.title@,
        x@.reason == x.reason@,
{
}

/// Nothing of what a bundle holds for is hidden.
pub proof fn context_bundle_invalidation_policy_is_seen_whole(x: ContextBundleInvalidationPolicy)
    ensures
        x@.workspace_id == x.workspace_id@,
        shows_if_there(x@.branch, x.branch),
        shows_if_there(x@.session_id, x.session_id),
        x@.input_fingerprint_sha256 == x.input_fingerprint_sha256@,
        x@.cacheable == x.cacheable,
{
}

/// Nothing of a bundle is hidden.
pub proof fn semantic_context_bundle_is_seen_whole(x: SemanticContextBundle)
    ensures
        x@.schema == x.schema@,
        x@.budget == x.budget,
        shows(x@.selected_items, x.selected_items@),
        shows(x@.excluded_items, x.excluded_items@),
        shows(x@.stale_evidence_suppressions, x.stale_evidence_suppressions@),
        x@.redaction_name == x.redaction_name@,
        x@.redaction_value == x.redaction_value@,
        x@.invalidation_policy == x.invalidation_policy@,
        shows(x@.suggested_validation_commands, x.suggested_validation_commands@),
        x@.estimated_bytes == x.estimated_bytes,
        x@.estimated_tokens == x.estimated_tokens,
{
}

/// Nothing of how a bundle is attached is hidden.
pub proof fn semantic_context_bundle_injection_is_seen_whole(x: SemanticContextBundleInjection)
    ensures
        x@.enabled == x.enabled,
        x@.bundle == x.bundle@,
        x@.max_prompt_items == x.max_prompt_items,
        x@.max_prompt_bytes == x.max_prompt_bytes,
        x@.include_exclusion_summary == x.include_exclusion_summary,
        x@.include_validation_commands == x.include_validation_commands,
{
}

/// Nothing of a prompt that is ready is hidden.
pub proof fn prepared_semantic_context_prompt_is_seen_whole(x: PreparedSemanticContextPrompt)
    ensures
        x@.prompt == x.prompt@,
        x@.revision == x.revision@,
        x@.shape == x.shape,
        x@.details == x.details@,
{
}

/// Nothing of what a stream brings is hidden.
pub proof fn stream_input_is_seen_whole(x: StreamInput)
    ensures
        match (x, x@) {
            (StreamInput::Cancelled, StreamInputView::Cancelled) => true,
            (StreamInput::Event(held), StreamInputView::Event(seen)) => seen == held@,
            (StreamInput::Failed(held), StreamInputView::Failed(seen)) => seen == held@,
            (StreamInput::Ended, StreamInputView::Ended) => true,
            _ => false,
        },
{
}

/// Nothing of the progress of a stream is hidden.
pub proof fn stream_progress_is_seen_whole(x: StreamProgress)
    ensures
        match (x, x@) {
            (StreamProgress::Continue, StreamProgressView::Continue) => true,
            (StreamProgress::Done(held), StreamProgressView::Done(seen)) => seen == held@,
            (StreamProgress::Failed(held), StreamProgressView::Failed(seen)) => seen == held@,
            _ => false,
        },
{
}

/// Nothing of the execution of a tool call is hidden.
pub proof fn tool_execution_is_seen_whole(x: ToolExecution)
    ensures
        x@.tool_name == x.tool_name@,
        x@.hooked == x.hooked,
        x@.fail_closed == x.fail_closed,
        shows_if_there(x@.output, x.output),
        x@.is_error == x.is_error,
        x@.phase == x.phase,
{
}

/// Nothing of a finished call is hidden.
pub proof fn finished_call_is_seen_whole(x: FinishedCall)
    ensures
        x@.index == x.index,
        x@.output == x.output@,
        x@.is_error == x.is_error,
{
}

/// Nothing of what tool calls answer to is hidden.
pub proof fn tool_input_is_seen_whole(x: ToolInput)
    ensures
        match (x, x@) {
            (ToolInput::Abort(held), ToolInputView::Abort(seen)) => seen == held,
            (ToolInput::Steering(held), ToolInputView::Steering(seen)) => shows(seen, held@),
            (ToolInput::Batch(held), ToolInputView::Batch(seen)) => shows(seen, held@),
            _ => false,
        },
{
}

/// Nothing of what a turn starts from is hidden.
pub proof fn turn_body_is_seen_whole(x: TurnBody)
    ensures
        match (x, x@) {
            (TurnBody::Text(held), TurnBodyView::Text(seen)) => seen == held@,
            (TurnBody::Blocks(held), TurnBodyView::Blocks(seen)) => shows(seen, held@),
            (TurnBody::Message(held), TurnBodyView::Message(seen)) => seen == held@,
            _ => false,
        },
{
}

/// Nothing of an agent is hidden but what it keeps to save work.
pub proof fn agent_is_seen_whole(x: Agent)
    ensures
        x@.provider == x.provider@,
        shows(x@.tools, x.tools@),
        x@.config == x.config@,
        shows(x@.messages, x.messages@),
        x@.queue == x.message_queue@,
{
}

/// Of a message in a queue its number and its contents are seen.
pub proof fn queued_message_is_seen(x: QueuedMessage)
    ensures
        x@.seq == x.seq,
        x@.message == x.message@,
{
}

/// Nothing of what the host knows is hidden.
pub proof fn host_state_is_seen_whole(x: HostState)
    ensures
        x@.is_streaming == x.is_streaming,
        x@.is_compacting == x.is_compacting,
        x@.is_turn_active == x.is_turn_active,
        x@.injected == x.injected@,
        shows(x@.earlier, x.earlier@),
        shows(x@.idle, x.pending_idle_actions@),
{
}

/// A plain value is seen as it is.
pub proof fn plain_json_is_seen_whole(x: Json)
    ensures
        match (x, x@) {
            (Json::Null, JsonView::Null) => true,
            (Json::Bool(held), JsonView::Bool(seen)) => seen == held,
            (Json::Unsigned(held), JsonView::Unsigned(seen)) => seen == held,
            (Json::Negative(held), JsonView::Negative(seen)) => seen == held,
            (Json::Fraction(held), JsonView::Fraction(seen)) => seen == held@,
            (Json::Text(held), JsonView::Text(seen)) => seen == held@,
            (Json::Array(held), JsonView::Array(seen)) => seen.len() == held@.len(),
            (Json::Object(held), JsonView::Object(seen)) => seen.len() == held@.len(),
            _ => false,
        },
{
}

/// Nothing of a turn is hidden.
pub proof fn session_turn_is_seen_whole(x: SessionTurn)
    ensures
        x@.body == x.body@,
        x@.hooked == x.hooked,
        shows_if_there(x@.base_prompt, x.base_prompt),
        shows_if_there(x@.turn_prompt, x.turn_prompt),
        shows(x@.custom, x.custom@),
        shows_if_there(x@.prepared, x.prepared),
        shows(x@.prompts, x.prompts@),
        x@.start_len == x.start_len,
        x@.phase == x.phase,
        x.result is None ==> x@.result is None,
        x.result matches Some(Ok(m)) ==> x@.result == Some(OutcomeView::Response(m@)),
        x.result matches Some(Err(e)) ==> x@.result == Some(OutcomeView::Failure(e@)),
{
}

/// Nothing of what a turn asks for is hidden.
pub proof fn turn_action_is_seen_whole(x: TurnAction)
    ensures
        match (x, x@) {
            (
                TurnAction::DispatchInput { text, images },
                TurnActionView::DispatchInput { text: seen_text, images: seen_images },
            ) => seen_text == text@ && shows(seen_images, images@),
            (
                TurnAction::DispatchBeforeStart { text, images, system_prompt },
                TurnActionView::DispatchBeforeStart {
                    text: seen_text,
                    images: seen_images,
                    system_prompt: seen_prompt,
                },
            ) => seen_text == text@ && shows(seen_images, images@) && seen_prompt == system_prompt@,
            (TurnAction::Sync, TurnActionView::Sync) => true,
            (TurnAction::Compact, TurnActionView::Compact) => true,
            (TurnAction::LoadHistory, TurnActionView::LoadHistory) => true,
            (TurnAction::Append(held), TurnActionView::Append(seen)) => seen == held@,
            (TurnAction::Run(held), TurnActionView::Run(seen)) => shows(seen, held@),
            (TurnAction::Persist(held), TurnActionView::Persist(seen)) => shows(seen, held@),
            (TurnAction::Finish(Ok(held)), TurnActionView::Finish(seen)) => seen
                == OutcomeView::Response(held@),
            (TurnAction::Finish(Err(held)), TurnActionView::Finish(seen)) => seen
                == OutcomeView::Failure(held@),
            _ => false,
        },
{
}

/// Nothing of what a run asks for is hidden.
pub proof fn run_action_is_seen_whole(x: RunAction)
    ensures
        match (x, x@) {
            (RunAction::FetchSteering, RunActionView::FetchSteering) => true,
            (RunAction::FetchFollowUp, RunActionView::FetchFollowUp) => true,
            (RunAction::CheckAbort, RunActionView::CheckAbort) => true,
            (RunAction::StreamAssistant, RunActionView::StreamAssistant) => true,
            (RunAction::ExecuteTools(held), RunActionView::ExecuteTools(seen)) => shows(
                seen,
                held@,
            ),
            (RunAction::Finish(Ok(held)), RunActionView::Finished(seen)) => seen == held@,
            (RunAction::Finish(Err(held)), RunActionView::Failed(seen)) => seen == held@,
            _ => false,
        },
{
}

/// Nothing of what a run answers to is hidden.
pub proof fn run_input_is_seen_whole(x: RunInput)
    ensures
        match (x, x@) {
            (RunInput::Steering(held), RunInputView::Steering(seen)) => shows(seen, held@),
            (RunInput::FollowUp(held), RunInputView::FollowUp(seen)) => shows(seen, held@),
            (RunInput::Abort(held), RunInputView::Abort(seen)) => seen == held,
            (RunInput::Assistant(Ok(held)), RunInputView::Response(seen)) => seen == held@,
            (RunInput::Assistant(Err(held)), RunInputView::NoResponse(seen)) => seen == held@,
            (RunInput::Tools(Ok(held)), RunInputView::ToolResults { results, steering }) => {
                &&& shows(results, held.tool_results@)
                &&& held.steering_messages is None ==> steering is None
                &&& held.steering_messages matches Some(messages) ==> steering is Some && shows(
                    steering->Some_0,
                    messages@,
                )
            },
            (RunInput::Tools(Err(held)), RunInputView::NoToolResults(seen)) => seen == held@,
            _ => false,
        },
{
}

/// Nothing of the tool calls of a response is hidden.
pub proof fn tool_run_is_seen_whole(x: ToolRun, i: int)
    ensures
        shows(x@.calls, x.calls@),
        x@.batches == x.batches@,
        x@.next_batch == x.next_batch,
        x@.recorded.len() == x.recorded@.len(),
        0 <= i < x.recorded@.len() ==> shows_if_there(x@.recorded[i], x.recorded@[i]),
        x.steering is None ==> x@.steering is None,
        x.steering matches Some(messages) ==> x@.steering is Some && shows(
            x@.steering->Some_0,
            messages@,
        ),
        shows(x@.results, x.results@),
        x@.phase == x.phase,
{
}

/// Of runs at rest, those that are left are seen, in order.
pub proof fn idle_runs_are_seen(x: IdleRuns)
    requires
        x.wf(),
    ensures
        shows(x@.left, x.actions@.skip(x.taken as int)),
        x@.previous == x.previous,
{
}

/// Nothing of what a compaction asks for is hidden.
pub proof fn compaction_action_is_seen_whole(x: CompactionAction)
    ensures
        match (x, x@) {
            (CompactionAction::PollWorker, CompactionActionView::PollWorker) => true,
            (
                CompactionAction::Apply(held, by_extension),
                CompactionActionView::Apply(seen, seen_by_extension),
            ) => seen == held@ && seen_by_extension == by_extension,
            (CompactionAction::CheckQuota, CompactionActionView::CheckQuota) => true,
            (CompactionAction::Prepare, CompactionActionView::Prepare) => true,
            (CompactionAction::DispatchBefore, CompactionActionView::DispatchBefore) => true,
            (CompactionAction::Launch, CompactionActionView::Launch) => true,
            (CompactionAction::Compact, CompactionActionView::Compact) => true,
            (CompactionAction::Finish(Ok(_)), CompactionActionView::Finished) => true,
            (CompactionAction::Finish(Err(held)), CompactionActionView::Failed(seen)) => seen
                == held@,
            _ => false,
        },
{
}

/// Nothing of what the enabling of extensions asks for is hidden.
pub proof fn enable_action_is_seen_whole(x: EnableAction)
    ensures
        match (x, x@) {
            (EnableAction::Resolve(held), EnableActionView::Resolve(seen)) => seen == held,
            (EnableAction::AdoptRuntime(held), EnableActionView::AdoptRuntime(seen)) => seen
                == held,
            (
                EnableAction::StartRuntime(held, replacing),
                EnableActionView::StartRuntime(seen, seen_replacing),
            ) => seen == held && seen_replacing == replacing,
            (EnableAction::LoadJs(held), EnableActionView::LoadJs(seen)) => seen == held@,
            (EnableAction::LoadNative(held), EnableActionView::LoadNative(seen)) => seen == held@,
            (EnableAction::DrainRepairs, EnableActionView::DrainRepairs) => true,
            (EnableAction::ReadSessionPath, EnableActionView::ReadSessionPath) => true,
            (EnableAction::DispatchStartup, EnableActionView::DispatchStartup) => true,
            (EnableAction::DispatchSessionStart, EnableActionView::DispatchSessionStart) => true,
            (EnableAction::CollectTools, EnableActionView::CollectTools) => true,
            (EnableAction::Finish(Ok(_)), EnableActionView::Finished) => true,
            (EnableAction::Finish(Err(held)), EnableActionView::Failed(seen)) => seen == held@,
            _ => false,
        },
{
}

/// Nothing of a command, of what it asks for and of what runs at rest ask for is hidden.
pub proof fn command_is_seen_whole(x: ExtensionCommand, a: CommandAction, i: IdleAction)
    ensures
        x@.phase == x.phase,
        x.result is None ==> x@.result is None,
        x.result matches Some(Ok(v)) ==> x@.result == Some(CommandOutcomeView::Value(v@)),
        x.result matches Some(Err(e)) ==> x@.result == Some(CommandOutcomeView::Failure(e@)),
        match (a, a@) {
            (CommandAction::ReplayIdle, CommandActionView::ReplayIdle) => true,
            (CommandAction::Execute, CommandActionView::Execute) => true,
            (CommandAction::Finish(Ok(held)), CommandActionView::Finish(seen)) => seen
                == CommandOutcomeView::Value(held@),
            (CommandAction::Finish(Err(held)), CommandActionView::Finish(seen)) => seen
                == CommandOutcomeView::Failure(held@),
            _ => false,
        },
        match (i, i@) {
            (IdleAction::Run(held), IdleActionView::Run(seen)) => seen == held@,
            (IdleAction::Finish(Ok(_)), IdleActionView::Finished) => true,
            (IdleAction::Finish(Err(held)), IdleActionView::Failed(seen)) => seen == held@,
            _ => false,
        },
{
}

} // verus!
