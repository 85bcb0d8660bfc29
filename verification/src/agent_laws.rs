//! What the agent shows to the model, delivers from its queues and says of responses that did not come
//! about.
use vstd::prelude::*;

use crate::agent::{
    abort_message, effects_of, empty_response, error_message, tool_defs, AgentView,
    ProviderIdentityView, ToolInfoView,
};
use crate::content::{
    image_count, images_in, message_without_images, messages_with_images, tool_calls_of, visible,
    without_images, without_tool_calls, BLOCK_IMAGES_PLACEHOLDER,
};
use crate::model::{
    AssistantMessageView, ContentBlockView, MessageView, StopReason, TextContentView,
    ToolResultMessageView, ToolCallView, UserContentView, UserMessageView,
};
use crate::queue::{
    contents, latest, queue_is_first_in_first_out, MessageQueueView, QueueKind, QueueMode,
};

verus! {

/// The provider is told of every tool of the agent, in order, with its name, its description and its
/// parameters, and of the system prompt as it is.
pub proof fn context_names_every_tool(agent: AgentView)
    ensures
        agent.context().system_prompt == agent.config.system_prompt,
        agent.context().tools.len() == agent.tools.len(),
        forall|i: int|
            0 <= i < agent.tools.len() ==> {
                &&& (#[trigger] agent.context().tools[i]).name == agent.tools[i].name
                &&& agent.context().tools[i].description == agent.tools[i].description
                &&& agent.context().tools[i].parameters == agent.tools[i].parameters
            },
{
}

/// Descriptions of tools describe the tools one by one: those of two lists of tools, one behind the
/// other, are the descriptions of each list, one behind the other.
pub proof fn tools_are_described_one_by_one(a: Seq<ToolInfoView>, b: Seq<ToolInfoView>)
    ensures
        tool_defs(a + b) == tool_defs(a) + tool_defs(b),
        a.len() == 1 ==> tool_defs(a).len() == 1 && tool_defs(a)[0].name == a[0].name && tool_defs(
            a,
        )[0].description == a[0].description && tool_defs(a)[0].parameters == a[0].parameters,
{
    assert(tool_defs(a + b) =~= tool_defs(a) + tool_defs(b));
}

/// The model sees every message of the history but hidden ones of extensions, in order: one more message
/// comes last, as it is or without its images where images are blocked, and a hidden one does not show.
pub proof fn context_shows_each_message(agent: AgentView, m: MessageView)
    ensures
        ({
            let more = AgentView { messages: agent.messages.push(m), ..agent };
            let hidden = m is Custom && !m->Custom_0.display;
            &&& hidden ==> more.context().messages == agent.context().messages
            &&& !hidden ==> more.context().messages == agent.context().messages.push(
                if agent.config.block_images {
                    message_without_images(m)
                } else {
                    m
                },
            )
        }),
        ({
            let none = AgentView { messages: Seq::empty(), ..agent };
            none.context().messages.len() == 0
        }),
{
    reveal(Seq::filter);
    let more = agent.messages.push(m);
    assert(more.drop_last() =~= agent.messages);
    let shown = visible(agent.messages);
    if m is Custom && !m->Custom_0.display {
        assert(visible(more) == shown);
    } else {
        assert(visible(more) == shown.push(m));
        let strip = |m: MessageView| message_without_images(m);
        assert(shown.push(m).map_values(strip) =~= shown.map_values(strip).push(strip(m)));
    }
}

/// Taking images out goes block by block: an image leaves the placeholder text, unless one stands there
/// already, and every other block stays as it is.
pub proof fn images_are_replaced_block_by_block(blocks: Seq<ContentBlockView>, b: ContentBlockView)
    ensures
        without_images(Seq::<ContentBlockView>::empty()).len() == 0,
        ({
            let rest = without_images(blocks);
            let stands = rest.len() > 0 && rest.last() is Text && rest.last()->Text_0.text
                == BLOCK_IMAGES_PLACEHOLDER@;
            &&& !(b is Image) ==> without_images(blocks.push(b)) == rest.push(b)
            &&& b is Image && stands ==> without_images(blocks.push(b)) == rest
            &&& b is Image && !stands ==> without_images(blocks.push(b)) == rest.push(
                ContentBlockView::Text(
                    TextContentView {
                        text: BLOCK_IMAGES_PLACEHOLDER@,
                        text_signature: None,
                    },
                ),
            )
        }),
        image_count(blocks.push(b)) == image_count(blocks) + if b is Image {
            1nat
        } else {
            0nat
        },
        image_count(Seq::empty()) == 0,
{
    assert(blocks.push(b).drop_last() =~= blocks);
}

/// Taking images out of a message touches its blocks only: who speaks, when and all else stays, and texts
/// and messages of extensions stay as they are.
pub proof fn only_blocks_lose_images(m: MessageView)
    ensures
        match m {
            MessageView::User(u) => match u.content {
                UserContentView::Text(_) => message_without_images(m) == m,
                UserContentView::Blocks(b) => message_without_images(m) == MessageView::User(
                    UserMessageView {
                        content: UserContentView::Blocks(without_images(b)),
                        timestamp: u.timestamp,
                    },
                ),
            },
            MessageView::Assistant(a) => message_without_images(m) == MessageView::Assistant(
                AssistantMessageView {
                    content: without_images(a.content),
                    api: a.api,
                    provider: a.provider,
                    model: a.model,
                    usage: a.usage,
                    stop_reason: a.stop_reason,
                    error_message: a.error_message,
                    timestamp: a.timestamp,
                },
            ),
            MessageView::ToolResult(t) => message_without_images(m) == MessageView::ToolResult(
                ToolResultMessageView {
                    tool_call_id: t.tool_call_id,
                    tool_name: t.tool_name,
                    content: without_images(t.content),
                    details: t.details,
                    is_error: t.is_error,
                    timestamp: t.timestamp,
                },
            ),
            MessageView::Custom(_) => message_without_images(m) == m,
        },
{
}

/// Images are counted message by message, and a message counts as affected exactly if it holds one.
pub proof fn images_are_counted_message_by_message(messages: Seq<MessageView>, m: MessageView)
    ensures
        images_in(Seq::empty()) == 0,
        messages_with_images(Seq::empty()) == 0,
        ({
            let held = match m {
                MessageView::User(u) => match u.content {
                    UserContentView::Text(_) => 0nat,
                    UserContentView::Blocks(b) => image_count(b),
                },
                MessageView::Assistant(a) => image_count(a.content),
                MessageView::ToolResult(t) => image_count(t.content),
                MessageView::Custom(_) => 0,
            };
            &&& images_in(messages.push(m)) == images_in(messages) + held
            &&& messages_with_images(messages.push(m)) == messages_with_images(messages) + if held > 0 {
                1nat
            } else {
                0nat
            }
        }),
{
    assert(messages.push(m).drop_last() =~= messages);
    assert(image_count(Seq::<ContentBlockView>::empty()) == 0);
}

/// Tool calls are found block by block, in order and as they are, and what is left without them is every
/// other block, in order.
pub proof fn tool_calls_are_found_block_by_block(blocks: Seq<ContentBlockView>, b: ContentBlockView)
    ensures
        tool_calls_of(Seq::empty()) == Seq::<ToolCallView>::empty(),
        without_tool_calls(Seq::empty()) == Seq::<ContentBlockView>::empty(),
        b matches ContentBlockView::ToolCall(call) ==> {
            &&& tool_calls_of(blocks.push(b)) == tool_calls_of(blocks).push(call)
            &&& without_tool_calls(blocks.push(b)) == without_tool_calls(blocks)
        },
        !(b is ToolCall) ==> {
            &&& tool_calls_of(blocks.push(b)) == tool_calls_of(blocks)
            &&& without_tool_calls(blocks.push(b)) == without_tool_calls(blocks).push(b)
        },
{
    reveal(Seq::filter);
    assert(blocks.push(b).drop_last() =~= blocks);
    assert(without_tool_calls(Seq::empty()) =~= Seq::<ContentBlockView>::empty());
}

/// A call has the effects of the first tool of that name; a tool that is not known counts as one that
/// writes and does nothing else.
pub proof fn effects_are_those_of_the_first_tool(tools: Seq<ToolInfoView>, name: Seq<char>, i: int)
    requires
        0 <= i <= tools.len(),
        forall|j: int| 0 <= j < i ==> (#[trigger] tools[j]).name != name,
        i < tools.len() ==> tools[i].name == name,
    ensures
        i < tools.len() ==> effects_of(tools, name) == tools[i].effects,
        i == tools.len() ==> {
            let e = effects_of(tools, name);
            e.writes && !e.reads && !e.appends && !e.network && !e.process
        },
    decreases tools.len(),
{
    if tools.len() > 0 && i > 0 {
        let rest = tools.drop_first();
        assert forall|j: int| 0 <= j < i - 1 implies (#[trigger] rest[j]).name != name by {
            assert(rest[j] == tools[j + 1]);
        }
        assert(tools[0].name != name);
        if i < tools.len() {
            assert(rest[i - 1] == tools[i]);
        }
        effects_are_those_of_the_first_tool(rest, name, i - 1);
    }
}

/// A delivery point loses no message: what waited, followed by what was fetched, is what is delivered,
/// followed by what still waits; only what the queue has no room for is dropped, the oldest first. The
/// other queue, the history and all else of the agent stay as they are.
pub proof fn draining_loses_no_message(agent: AgentView, kind: QueueKind, fetched: Seq<MessageView>)
    requires
        agent.queue.wf(),
    ensures
        ({
            let due = agent.drained(kind, fetched);
            let after = agent.after_drain(kind, fetched);
            let waiting = contents(agent.queue, kind) + fetched;
            let other = match kind {
                QueueKind::Steering => QueueKind::FollowUp,
                QueueKind::FollowUp => QueueKind::Steering,
            };
            &&& due + contents(after.queue, kind) == latest(
                waiting,
                MessageQueueView::capacity(kind),
            )
            &&& waiting.len() <= MessageQueueView::capacity(kind) ==> due + contents(
                after.queue,
                kind,
            ) == waiting
            &&& agent.queue.mode_of(kind) == QueueMode::All ==> contents(after.queue, kind).len()
                == 0
            &&& agent.queue.mode_of(kind) == QueueMode::OneAtATime ==> due.len() == if waiting.len()
                == 0 {
                0int
            } else {
                1
            }
            &&& contents(after.queue, other) == contents(agent.queue, other)
            &&& after.messages == agent.messages
            &&& after.tools == agent.tools
            &&& after.config == agent.config
            &&& after.provider == agent.provider
            &&& after.queue.steering_mode == agent.queue.steering_mode
            &&& after.queue.follow_up_mode == agent.queue.follow_up_mode
        }),
{
    let grown = agent.queue.pushed_all(kind, fetched);
    lemma_pushed_all_frame(agent.queue, kind, fetched);
    queue_is_first_in_first_out(agent.queue, kind, fetched);
    queue_is_first_in_first_out(grown, kind, Seq::empty());
    assert(contents(grown, kind).len() == grown.of_kind(kind).len());
}

proof fn lemma_pushed_all_frame(q: MessageQueueView, kind: QueueKind, messages: Seq<MessageView>)
    requires
        q.wf(),
    ensures
        ({
            let after = q.pushed_all(kind, messages);
            &&& after.wf()
            &&& after.steering_mode == q.steering_mode
            &&& after.follow_up_mode == q.follow_up_mode
            &&& kind == QueueKind::Steering ==> after.follow_up == q.follow_up
            &&& kind == QueueKind::FollowUp ==> after.steering == q.steering
        }),
    decreases messages.len(),
{
    if messages.len() > 0 {
        lemma_pushed_all_frame(q, kind, messages.drop_last());
    }
}

/// What stands for a response that was aborted or failed keeps what had arrived of it and says why it is
/// not complete; where nothing had arrived, it is an empty response of the provider.
pub proof fn broken_responses_say_why(
    provider: ProviderIdentityView,
    partial: AssistantMessageView,
    text: Seq<char>,
    now: i64,
)
    ensures
        ({
            let a = abort_message(provider, Some(partial), now);
            &&& a.content == partial.content
            &&& a.api == partial.api
            &&& a.provider == partial.provider
            &&& a.model == partial.model
            &&& a.usage == partial.usage
            &&& a.stop_reason == StopReason::Aborted
            &&& a.error_message == Some("Aborted"@)
            &&& a.timestamp == now
        }),
        ({
            let e = error_message(provider, Some(partial), text, now);
            &&& e.content == partial.content
            &&& e.api == partial.api
            &&& e.provider == partial.provider
            &&& e.model == partial.model
            &&& e.usage == partial.usage
            &&& e.stop_reason == StopReason::Error
            &&& e.error_message == Some(text)
            &&& e.timestamp == now
        }),
        abort_message(provider, None, now) == abort_message(
            provider,
            Some(empty_response(provider)),
            now,
        ),
        error_message(provider, None, text, now) == error_message(
            provider,
            Some(empty_response(provider)),
            text,
            now,
        ),
        ({
            let n = empty_response(provider);
            &&& n.content.len() == 0
            &&& n.api == provider.api
            &&& n.provider == provider.name
            &&& n.model == provider.model_id
            &&& n.stop_reason == StopReason::Stop
            &&& n.error_message is None
            &&& n.usage.input == 0 && n.usage.output == 0 && n.usage.cache_read == 0
            &&& n.usage.cache_write == 0 && n.usage.total_tokens == 0
            &&& n.usage.cost.total == 0 && n.usage.cost.input == 0 && n.usage.cost.output == 0
        }),
{
}

} // verus!
