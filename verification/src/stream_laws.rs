//! What a streamed response leaves in the history, and how it is announced, piece by piece.
use vstd::prelude::*;

use crate::agent::ProviderIdentityView;
use crate::error::ErrorView;
use crate::event::{AgentEventView, AssistantMessageEventView, StreamEventView};
use crate::json::JsonView;
use crate::model::{
    AssistantMessageView, ContentBlockView, Cost, MessageView, StopReason, TextContentView,
    ThinkingContentView, ToolCallView, Usage,
};
use crate::stream::{
    block_index, changed_content, last_assistant, lemma_last_assistant, stream_effect,
    stream_invariant, StreamInputView, StreamProgressView, StreamState,
};

verus! {

/// Two pieces of reasoning that arrive for the same place have the same effect as one piece with both.
pub proof fn thinking_pieces_accumulate(
    content: Seq<ContentBlockView>,
    at: usize,
    first: Seq<char>,
    second: Seq<char>,
)
    ensures
        changed_content(
            changed_content(
                content,
                StreamEventView::ThinkingDelta { content_index: at, delta: first },
            ),
            StreamEventView::ThinkingDelta { content_index: at, delta: second },
        ) == changed_content(
            content,
            StreamEventView::ThinkingDelta { content_index: at, delta: first + second },
        ),
{
    let one = StreamEventView::ThinkingDelta { content_index: at, delta: first };
    let two = StreamEventView::ThinkingDelta { content_index: at, delta: second };
    let both = StreamEventView::ThinkingDelta { content_index: at, delta: first + second };
    if at < content.len() {
        if let ContentBlockView::Thinking(t) = content[at as int] {
            assert(t.thinking + first + second =~= t.thinking + (first + second));
        }
    } else if at == content.len() {
        let none = Seq::<char>::empty();
        assert(none + first + second =~= none + (first + second));
    }
    assert(changed_content(changed_content(content, one), two) =~= changed_content(content, both));
}

/// The closing reasoning of a place wins over the pieces that arrived for it.
pub proof fn closing_thinking_wins(
    content: Seq<ContentBlockView>,
    at: usize,
    piece: Seq<char>,
    whole: Seq<char>,
)
    ensures
        changed_content(
            changed_content(
                content,
                StreamEventView::ThinkingDelta { content_index: at, delta: piece },
            ),
            StreamEventView::ThinkingEnd { content_index: at, content: whole },
        ) == changed_content(
            content,
            StreamEventView::ThinkingEnd { content_index: at, content: whole },
        ),
{
    let one = StreamEventView::ThinkingDelta { content_index: at, delta: piece };
    let end = StreamEventView::ThinkingEnd { content_index: at, content: whole };
    assert(changed_content(changed_content(content, one), end) =~= changed_content(content, end));
}

/// A text block grows by what arrives for it, and is what closes it; its start changes nothing, and
/// neither does its signature.
pub proof fn text_block_follows_its_events(
    content: Seq<ContentBlockView>,
    at: usize,
    piece: Seq<char>,
)
    requires
        at < content.len(),
        content[at as int] is Text,
    ensures
        ({
            let t = content[at as int]->Text_0;
            &&& changed_content(content, StreamEventView::TextStart { content_index: at }) == content
            &&& changed_content(
                content,
                StreamEventView::TextDelta { content_index: at, delta: piece },
            ) == content.update(
                at as int,
                ContentBlockView::Text(
                    TextContentView { text: t.text + piece, text_signature: t.text_signature },
                ),
            )
            &&& changed_content(
                content,
                StreamEventView::TextEnd { content_index: at, content: piece },
            ) == content.update(
                at as int,
                ContentBlockView::Text(
                    TextContentView { text: piece, text_signature: t.text_signature },
                ),
            )
        }),
{
    assert(changed_content(content, StreamEventView::TextStart { content_index: at }) =~= content);
}

/// A block of reasoning grows by what arrives for it, and is what closes it; its start changes nothing,
/// and neither does its signature.
pub proof fn thinking_block_follows_its_events(
    content: Seq<ContentBlockView>,
    at: usize,
    piece: Seq<char>,
)
    requires
        at < content.len(),
        content[at as int] is Thinking,
    ensures
        ({
            let t = content[at as int]->Thinking_0;
            &&& changed_content(content, StreamEventView::ThinkingStart { content_index: at })
                == content
            &&& changed_content(
                content,
                StreamEventView::ThinkingDelta { content_index: at, delta: piece },
            ) == content.update(
                at as int,
                ContentBlockView::Thinking(
                    ThinkingContentView {
                        thinking: t.thinking + piece,
                        thinking_signature: t.thinking_signature,
                    },
                ),
            )
            &&& changed_content(
                content,
                StreamEventView::ThinkingEnd { content_index: at, content: piece },
            ) == content.update(
                at as int,
                ContentBlockView::Thinking(
                    ThinkingContentView {
                        thinking: piece,
                        thinking_signature: t.thinking_signature,
                    },
                ),
            )
        }),
{
    assert(changed_content(content, StreamEventView::ThinkingStart { content_index: at })
        =~= content);
}

/// A tool call is complete only with its closing event, which says all of it; pieces of it change
/// nothing.
pub proof fn tool_call_block_follows_its_events(
    content: Seq<ContentBlockView>,
    at: usize,
    piece: Seq<char>,
    call: ToolCallView,
)
    requires
        at < content.len(),
        content[at as int] is ToolCall,
    ensures
        changed_content(content, StreamEventView::ToolCallStart { content_index: at }) == content,
        changed_content(content, StreamEventView::ToolCallDelta { content_index: at, delta: piece })
            == content,
        changed_content(content, StreamEventView::ToolCallEnd { content_index: at, tool_call: call })
            == content.update(at as int, ContentBlockView::ToolCall(call)),
{
    assert(changed_content(content, StreamEventView::ToolCallStart { content_index: at })
        =~= content);
    assert(changed_content(
        content,
        StreamEventView::ToolCallDelta { content_index: at, delta: piece },
    ) =~= content);
}

/// An event for the place behind the content opens a block of its kind there: an empty one, or one that
/// holds what the event brings.
pub proof fn events_open_the_next_block(
    content: Seq<ContentBlockView>,
    at: usize,
    piece: Seq<char>,
    call: ToolCallView,
)
    requires
        at == content.len(),
    ensures
        changed_content(content, StreamEventView::TextStart { content_index: at }) == content.push(
            ContentBlockView::Text(TextContentView { text: Seq::empty(), text_signature: None }),
        ),
        changed_content(content, StreamEventView::TextDelta { content_index: at, delta: piece })
            == content.push(
            ContentBlockView::Text(TextContentView { text: piece, text_signature: None }),
        ),
        changed_content(content, StreamEventView::TextEnd { content_index: at, content: piece })
            == content.push(
            ContentBlockView::Text(TextContentView { text: piece, text_signature: None }),
        ),
        changed_content(content, StreamEventView::ThinkingStart { content_index: at })
            == content.push(
            ContentBlockView::Thinking(
                ThinkingContentView { thinking: Seq::empty(), thinking_signature: None },
            ),
        ),
        changed_content(content, StreamEventView::ThinkingDelta { content_index: at, delta: piece })
            == content.push(
            ContentBlockView::Thinking(
                ThinkingContentView { thinking: piece, thinking_signature: None },
            ),
        ),
        changed_content(content, StreamEventView::ThinkingEnd { content_index: at, content: piece })
            == content.push(
            ContentBlockView::Thinking(
                ThinkingContentView { thinking: piece, thinking_signature: None },
            ),
        ),
        changed_content(content, StreamEventView::ToolCallStart { content_index: at })
            == content.push(
            ContentBlockView::ToolCall(
                ToolCallView {
                    id: Seq::empty(),
                    name: Seq::empty(),
                    arguments: JsonView::Null,
                    thought_signature: None,
                },
            ),
        ),
        changed_content(content, StreamEventView::ToolCallDelta { content_index: at, delta: piece })
            == changed_content(content, StreamEventView::ToolCallStart { content_index: at }),
        changed_content(content, StreamEventView::ToolCallEnd { content_index: at, tool_call: call })
            == content.push(ContentBlockView::ToolCall(call)),
{
    let none = Seq::<char>::empty();
    assert(none + piece =~= piece);
    let i = at as int;
    assert(content.push(
        ContentBlockView::Text(TextContentView { text: piece, text_signature: None }),
    ) =~= changed_content(content, StreamEventView::TextDelta { content_index: at, delta: piece }));
    assert(content.push(
        ContentBlockView::Text(TextContentView { text: piece, text_signature: None }),
    ) =~= changed_content(content, StreamEventView::TextEnd { content_index: at, content: piece }));
    assert(content.push(
        ContentBlockView::Thinking(
            ThinkingContentView { thinking: piece, thinking_signature: None },
        ),
    ) =~= changed_content(
        content,
        StreamEventView::ThinkingDelta { content_index: at, delta: piece },
    ));
}

/// Events of another kind than the block at their place, and events for places further behind, change
/// nothing.
pub proof fn stray_events_change_nothing(content: Seq<ContentBlockView>, e: StreamEventView)
    requires
        ({
            let at = block_index(e);
            ||| at > content.len()
            ||| 0 <= at < content.len() && match content[at] {
                ContentBlockView::Text(_) => !(e is TextStart || e is TextDelta || e is TextEnd),
                ContentBlockView::Thinking(_) => !(e is ThinkingStart || e is ThinkingDelta
                    || e is ThinkingEnd),
                ContentBlockView::ToolCall(_) => !(e is ToolCallStart || e is ToolCallDelta
                    || e is ToolCallEnd),
                ContentBlockView::Image(_) => true,
            }
        }),
    ensures
        changed_content(content, e) == content,
{
    assert(changed_content(content, e) =~= content);
}

/// Whether an update tells of the event that caused it, with the message as it stands then.
pub open spec fn tells_of(
    shown: AssistantMessageEventView,
    e: StreamEventView,
    message: AssistantMessageView,
) -> bool {
    match (e, shown) {
        (StreamEventView::Start { .. }, AssistantMessageEventView::Start { partial }) => partial
            == message,
        (
            StreamEventView::TextStart { content_index: a },
            AssistantMessageEventView::TextStart { content_index: b, partial },
        ) => a == b && partial == message,
        (
            StreamEventView::TextDelta { content_index: a, delta: c },
            AssistantMessageEventView::TextDelta { content_index: b, delta: d, partial },
        ) => a == b && c == d && partial == message,
        (
            StreamEventView::TextEnd { content_index: a, content: c },
            AssistantMessageEventView::TextEnd { content_index: b, content: d, partial },
        ) => a == b && c == d && partial == message,
        (
            StreamEventView::ThinkingStart { content_index: a },
            AssistantMessageEventView::ThinkingStart { content_index: b, partial },
        ) => a == b && partial == message,
        (
            StreamEventView::ThinkingDelta { content_index: a, delta: c },
            AssistantMessageEventView::ThinkingDelta { content_index: b, delta: d, partial },
        ) => a == b && c == d && partial == message,
        (
            StreamEventView::ThinkingEnd { content_index: a, content: c },
            AssistantMessageEventView::ThinkingEnd { content_index: b, content: d, partial },
        ) => a == b && c == d && partial == message,
        (
            StreamEventView::ToolCallStart { content_index: a },
            AssistantMessageEventView::ToolCallStart { content_index: b, partial },
        ) => a == b && partial == message,
        (
            StreamEventView::ToolCallDelta { content_index: a, delta: c },
            AssistantMessageEventView::ToolCallDelta { content_index: b, delta: d, partial },
        ) => a == b && c == d && partial == message,
        (
            StreamEventView::ToolCallEnd { content_index: a, tool_call: c },
            AssistantMessageEventView::ToolCallEnd { content_index: b, tool_call: d, partial },
        ) => a == b && c == d && partial == message,
        _ => false,
    }
}

/// While a response is on its way, a piece changes the content of the partial message and nothing else
/// of it; the history before it stays, and the piece is announced once, with the message as it stands
/// then.
pub proof fn piece_reaches_the_partial_message(
    provider: ProviderIdentityView,
    history: Seq<MessageView>,
    state: StreamState,
    messages: Seq<MessageView>,
    e: StreamEventView,
    now: i64,
)
    requires
        stream_invariant(history, state, messages),
        state.added_partial,
        !(e is Start || e is Done || e is Error),
    ensures
        ({
            let effect = stream_effect(provider, state, messages, StreamInputView::Event(e), now);
            let before = messages.last()->Assistant_0;
            let after = effect.messages.last()->Assistant_0;
            &&& effect.progress is Continue
            &&& effect.messages == history.push(MessageView::Assistant(after))
            &&& after.content == changed_content(before.content, e)
            &&& after.api == before.api
            &&& after.provider == before.provider
            &&& after.model == before.model
            &&& after.usage == before.usage
            &&& after.stop_reason == before.stop_reason
            &&& after.error_message == before.error_message
            &&& after.timestamp == before.timestamp
            &&& effect.events.len() == 1
            &&& effect.events[0] matches AgentEventView::MessageUpdate {
                message,
                assistant_message_event,
            } && message == MessageView::Assistant(after) && tells_of(
                assistant_message_event,
                e,
                after,
            )
        }),
{
    lemma_last_assistant(messages);
    assert(last_assistant(messages) == messages.len() - 1);
    let effect = stream_effect(provider, state, messages, StreamInputView::Event(e), now);
    assert(effect.messages =~= history.push(effect.messages.last()));
}

/// The first piece of a response that was not announced before opens a message of the provider for it,
/// which holds nothing but that piece.
pub proof fn first_piece_opens_a_message(
    provider: ProviderIdentityView,
    history: Seq<MessageView>,
    state: StreamState,
    e: StreamEventView,
    now: i64,
)
    requires
        stream_invariant(history, state, history),
        !state.added_partial,
        !(e is Start || e is Done || e is Error),
    ensures
        ({
            let effect = stream_effect(provider, state, history, StreamInputView::Event(e), now);
            let after = effect.messages.last()->Assistant_0;
            &&& effect.progress is Continue
            &&& effect.messages == history.push(MessageView::Assistant(after))
            &&& after.content == changed_content(Seq::empty(), e)
            &&& after.api == provider.api
            &&& after.provider == provider.name
            &&& after.model == provider.model_id
            &&& after.usage == (Usage {
                input: 0,
                output: 0,
                cache_read: 0,
                cache_write: 0,
                total_tokens: 0,
                cost: Cost { input: 0, output: 0, cache_read: 0, cache_write: 0, total: 0 },
            })
            &&& after.stop_reason == StopReason::Stop
            &&& after.error_message is None
            &&& after.timestamp == now
            &&& effect.events.len() == 2
            &&& effect.events[0] == AgentEventView::MessageStart {
                message: MessageView::Assistant(after),
            }
            &&& effect.events[1] matches AgentEventView::MessageUpdate {
                message,
                assistant_message_event,
            } && message == MessageView::Assistant(after) && tells_of(
                assistant_message_event,
                e,
                after,
            )
        }),
{
    let effect = stream_effect(provider, state, history, StreamInputView::Event(e), now);
    let opened = history.push(effect.messages.last());
    assert(effect.messages.len() == history.len() + 1);
    assert(effect.messages =~= opened);
}

/// The start of a response brings the message that the provider describes. Where pieces came before it,
/// they stay, and everything else is as the provider describes it.
pub proof fn start_brings_the_message(
    provider: ProviderIdentityView,
    history: Seq<MessageView>,
    state: StreamState,
    messages: Seq<MessageView>,
    partial: AssistantMessageView,
    now: i64,
)
    requires
        stream_invariant(history, state, messages),
    ensures
        ({
            let e = StreamEventView::Start { partial };
            let effect = stream_effect(provider, state, messages, StreamInputView::Event(e), now);
            let after = effect.messages.last()->Assistant_0;
            let update = effect.events.last();
            &&& effect.progress is Continue
            &&& effect.messages == history.push(MessageView::Assistant(after))
            &&& !state.added_partial ==> after == partial
            &&& state.added_partial && messages.last()->Assistant_0.content.len() == 0 ==> after
                == partial
            &&& state.added_partial && messages.last()->Assistant_0.content.len() > 0 ==> {
                &&& after.content == messages.last()->Assistant_0.content
                &&& after.api == partial.api
                &&& after.provider == partial.provider
                &&& after.model == partial.model
                &&& after.usage == partial.usage
                &&& after.stop_reason == partial.stop_reason
                &&& after.error_message == partial.error_message
                &&& after.timestamp == partial.timestamp
            }
            &&& effect.events.len() == if state.added_partial {
                1int
            } else {
                2
            }
            &&& !state.added_partial ==> effect.events[0] == AgentEventView::MessageStart {
                message: MessageView::Assistant(after),
            }
            &&& update matches AgentEventView::MessageUpdate { message, assistant_message_event }
                && message == MessageView::Assistant(after) && tells_of(
                assistant_message_event,
                e,
                after,
            )
        }),
{
    let e = StreamEventView::Start { partial };
    let effect = stream_effect(provider, state, messages, StreamInputView::Event(e), now);
    lemma_last_assistant(messages);
    let base = messages.push(MessageView::Assistant(partial));
    assert(base.last() is Assistant);
    if state.added_partial {
        assert(last_assistant(messages) == messages.len() - 1);
    } else {
        assert(last_assistant(base) == base.len() - 1);
        if partial.content.len() == 0 {
            assert(effect.messages.last()->Assistant_0 == partial);
        }
    }
    assert(effect.messages =~= history.push(effect.messages.last()));
}

/// What a provider sends as its complete response, or as its failed one, is the response: as it is, in
/// the place of what was there of it.
pub proof fn complete_response_is_what_was_sent(
    provider: ProviderIdentityView,
    history: Seq<MessageView>,
    state: StreamState,
    messages: Seq<MessageView>,
    reason: StopReason,
    sent: AssistantMessageView,
    failed: bool,
    now: i64,
)
    requires
        stream_invariant(history, state, messages),
    ensures
        ({
            let e = if failed {
                StreamEventView::Error { reason, error: sent }
            } else {
                StreamEventView::Done { reason, message: sent }
            };
            let effect = stream_effect(provider, state, messages, StreamInputView::Event(e), now);
            let message = MessageView::Assistant(sent);
            &&& effect.progress == StreamProgressView::Done(sent)
            &&& effect.messages == history.push(message)
            &&& effect.events == if state.added_partial {
                seq![AgentEventView::MessageEnd { message }]
            } else {
                seq![
                    AgentEventView::MessageStart { message },
                    AgentEventView::MessageEnd { message },
                ]
            }
        }),
{
    let e = if failed {
        StreamEventView::Error { reason, error: sent }
    } else {
        StreamEventView::Done { reason, message: sent }
    };
    let effect = stream_effect(provider, state, messages, StreamInputView::Event(e), now);
    lemma_last_assistant(messages);
    if state.added_partial {
        assert(last_assistant(messages) == messages.len() - 1);
    }
    assert(effect.messages =~= history.push(MessageView::Assistant(sent)));
}

/// Whether a response keeps everything that had arrived of it, or, where nothing had, is an empty one of
/// the provider.
pub open spec fn keeps_what_arrived(
    response: AssistantMessageView,
    provider: ProviderIdentityView,
    state: StreamState,
    messages: Seq<MessageView>,
) -> bool {
    if state.added_partial {
        let partial = messages.last()->Assistant_0;
        &&& response.content == partial.content
        &&& response.api == partial.api
        &&& response.provider == partial.provider
        &&& response.model == partial.model
        &&& response.usage == partial.usage
    } else {
        &&& response.content.len() == 0
        &&& response.api == provider.api
        &&& response.provider == provider.name
        &&& response.model == provider.model_id
        &&& response.usage.total_tokens == 0
    }
}

/// A response that is cancelled or breaks off keeps what had arrived of it and says what happened: it
/// was aborted, or the stream failed with these words, or it ended too early. Only a stream that ends
/// before anything arrived gives no response at all.
pub proof fn broken_response_keeps_what_arrived(
    provider: ProviderIdentityView,
    history: Seq<MessageView>,
    state: StreamState,
    messages: Seq<MessageView>,
    text: Seq<char>,
    now: i64,
)
    requires
        stream_invariant(history, state, messages),
    ensures
        ({
            let cancelled = stream_effect(
                provider,
                state,
                messages,
                StreamInputView::Cancelled,
                now,
            );
            let r = cancelled.progress->Done_0;
            let message = MessageView::Assistant(r);
            &&& cancelled.progress is Done
            &&& keeps_what_arrived(r, provider, state, messages)
            &&& r.stop_reason == StopReason::Aborted
            &&& r.error_message == Some("Aborted"@)
            &&& r.timestamp == now
            &&& cancelled.messages == history.push(message)
            &&& cancelled.events.last() == AgentEventView::MessageEnd { message }
            &&& cancelled.events[cancelled.events.len() - 2] == AgentEventView::MessageUpdate {
                message,
                assistant_message_event: AssistantMessageEventView::Error {
                    reason: StopReason::Aborted,
                    error: r,
                },
            }
            &&& !state.added_partial ==> cancelled.events[0] == AgentEventView::MessageStart {
                message,
            }
        }),
        ({
            let failed = stream_effect(provider, state, messages, StreamInputView::Failed(text), now);
            let r = failed.progress->Done_0;
            &&& failed.progress is Done
            &&& keeps_what_arrived(r, provider, state, messages)
            &&& r.stop_reason == StopReason::Error
            &&& r.error_message == Some(text)
            &&& r.timestamp == now
            &&& failed.messages == history.push(MessageView::Assistant(r))
            &&& failed.events.last() == AgentEventView::MessageEnd {
                message: MessageView::Assistant(r),
            }
        }),
        ({
            let ended = stream_effect(provider, state, messages, StreamInputView::Ended, now);
            let r = ended.progress->Done_0;
            &&& state.added_partial ==> {
                &&& ended.progress is Done
                &&& keeps_what_arrived(r, provider, state, messages)
                &&& r.stop_reason == StopReason::Error
                &&& r.error_message == Some("Stream ended without Done event"@)
                &&& r.timestamp == messages.last()->Assistant_0.timestamp
                &&& ended.messages == history.push(MessageView::Assistant(r))
            }
            &&& !state.added_partial ==> ended.progress == StreamProgressView::Failed(
                ErrorView::Api("Stream ended without Done event"@),
            ) && ended.messages == history && ended.events.len() == 0
        }),
{
    lemma_last_assistant(messages);
    let cancelled = stream_effect(provider, state, messages, StreamInputView::Cancelled, now);
    let failed = stream_effect(provider, state, messages, StreamInputView::Failed(text), now);
    let ended = stream_effect(provider, state, messages, StreamInputView::Ended, now);
    if state.added_partial {
        assert(last_assistant(messages) == messages.len() - 1);
        assert(cancelled.messages =~= history.push(cancelled.messages.last()));
        assert(failed.messages =~= history.push(failed.messages.last()));
        assert(ended.messages =~= history.push(ended.messages.last()));
    } else {
        let message = MessageView::Assistant(cancelled.progress->Done_0);
        let base = messages.push(message);
        assert(last_assistant(base) == base.len() - 1);
        assert(cancelled.messages =~= base);
    }
}

} // verus!
