//! What is taken out of message content before it is used: images, tool calls, hidden messages.
use std::sync::Arc;
use vstd::prelude::*;

use crate::model::{
    clone_blocks, text_content, AssistantMessage, AssistantMessageView, ContentBlock,
    ContentBlockView, Message, MessageView, TextContent, ToolCall, ToolCallView, ToolResultMessage,
    ToolResultMessageView, UserContent, UserContentView, UserMessage, UserMessageView,
};
use crate::text::{owned, same_text};

verus! {

/// The text that stands for images that were taken out.
pub const BLOCK_IMAGES_PLACEHOLDER: &'static str = "Image reading is disabled.";

/// Whether a block is a text that stands for images.
pub open spec fn is_placeholder(b: ContentBlockView) -> bool {
    match b {
        ContentBlockView::Text(t) => t.text == BLOCK_IMAGES_PLACEHOLDER@,
        _ => false,
    }
}

/// The block that stands for images.
pub open spec fn placeholder() -> ContentBlockView {
    ContentBlockView::Text(text_content(BLOCK_IMAGES_PLACEHOLDER@))
}

/// The blocks with each run of images replaced by one placeholder.
pub open spec fn without_images(blocks: Seq<ContentBlockView>) -> Seq<ContentBlockView>
    decreases blocks.len(),
{
    if blocks.len() == 0 {
        Seq::empty()
    } else {
        let rest = without_images(blocks.drop_last());
        match blocks.last() {
            ContentBlockView::Image(_) => if rest.len() > 0 && is_placeholder(rest.last()) {
                rest
            } else {
                rest.push(placeholder())
            },
            other => rest.push(other),
        }
    }
}

/// How many of the blocks are images.
pub open spec fn image_count(blocks: Seq<ContentBlockView>) -> nat
    decreases blocks.len(),
{
    if blocks.len() == 0 {
        0
    } else {
        image_count(blocks.drop_last()) + if blocks.last() is Image {
            1nat
        } else {
            0nat
        }
    }
}

/// The blocks that make up a message, if it is made of blocks.
pub open spec fn blocks_of(m: MessageView) -> Seq<ContentBlockView> {
    match m {
        MessageView::User(u) => match u.content {
            UserContentView::Text(_) => Seq::empty(),
            UserContentView::Blocks(b) => b,
        },
        MessageView::Assistant(a) => a.content,
        MessageView::ToolResult(t) => t.content,
        MessageView::Custom(_) => Seq::empty(),
    }
}

/// A message with its images replaced by placeholders.
pub open spec fn message_without_images(m: MessageView) -> MessageView {
    match m {
        MessageView::User(u) => match u.content {
            UserContentView::Text(_) => m,
            UserContentView::Blocks(b) => MessageView::User(
                UserMessageView { content: UserContentView::Blocks(without_images(b)), ..u },
            ),
        },
        MessageView::Assistant(a) => MessageView::Assistant(
            AssistantMessageView { content: without_images(a.content), ..a },
        ),
        MessageView::ToolResult(t) => MessageView::ToolResult(
            ToolResultMessageView { content: without_images(t.content), ..t },
        ),
        MessageView::Custom(_) => m,
    }
}

/// How many images the messages hold.
pub open spec fn images_in(messages: Seq<MessageView>) -> nat
    decreases messages.len(),
{
    if messages.len() == 0 {
        0
    } else {
        images_in(messages.drop_last()) + image_count(blocks_of(messages.last()))
    }
}

/// How many of the messages hold images.
pub open spec fn messages_with_images(messages: Seq<MessageView>) -> nat
    decreases messages.len(),
{
    if messages.len() == 0 {
        0
    } else {
        messages_with_images(messages.drop_last()) + if image_count(blocks_of(messages.last()))
            > 0 {
            1nat
        } else {
            0nat
        }
    }
}

/// What taking images out of a list of messages did. Counts saturate.
#[derive(Debug, Clone, Copy, PartialEq, Eq, Structural)]
pub struct ImageFilterStats {
    pub removed_images: usize,
    pub affected_messages: usize,
}

/// A count as the machine holds it.
pub open spec fn saturated(n: nat) -> usize {
    if n > usize::MAX {
        usize::MAX
    } else {
        n as usize
    }
}

/// Replaces the images among the blocks by placeholders and says how many there were.
pub fn filter_image_blocks(blocks: &mut Vec<ContentBlock>) -> (removed: usize)
    ensures
        final(blocks).deep_view() == without_images(old(blocks).deep_view()),
        removed == image_count(old(blocks).deep_view()),
{
    let ghost all = blocks.deep_view();
    let mut removed: usize = 0;
    let mut filtered: Vec<ContentBlock> = Vec::new();
    let mut i: usize = 0;
    assert(all.take(0) =~= Seq::empty());
    assert(filtered.deep_view() =~= Seq::empty());
    while i < blocks.len()
        invariant
            i <= blocks@.len(),
            removed <= i,
            all == blocks.deep_view(),
            removed == image_count(all.take(i as int)),
            filtered.deep_view() == without_images(all.take(i as int)),
        decreases blocks@.len() - i,
    {
        let ghost before = filtered.deep_view();
        proof {
            let next = all.take(i + 1);
            assert(next.drop_last() =~= all.take(i as int));
            assert(next.last() == blocks@[i as int]@);
        }
        match &blocks[i] {
            ContentBlock::Image(_) => {
                removed += 1;
                let n: usize = filtered.len();
                assert(before.len() == n);
                let mut previous_is_placeholder = false;
                if n > 0 {
                    assert(before.last() == filtered@[n - 1]@);
                    if let ContentBlock::Text(t) = &filtered[n - 1] {
                        previous_is_placeholder = same_text(
                            t.text.as_str(),
                            BLOCK_IMAGES_PLACEHOLDER,
                        );
                    }
                }
                if !previous_is_placeholder {
                    let block = ContentBlock::Text(TextContent::new(owned(BLOCK_IMAGES_PLACEHOLDER)));
                    filtered.push(block);
                    assert(filtered.deep_view() =~= before.push(placeholder()));
                }
            },
            other => {
                let ghost kept = other@;
                filtered.push(other.clone());
                assert(filtered.deep_view() =~= before.push(kept));
            },
        }
        i += 1;
    }
    assert(all.take(i as int) =~= all);
    *blocks = filtered;
    removed
}

/// Replaces the images of a message by placeholders and says how many there were.
pub fn filter_images_from_message(message: &mut Message) -> (removed: usize)
    ensures
        final(message)@ == message_without_images(old(message)@),
        removed == image_count(blocks_of(old(message)@)),
{
    match message {
        Message::User(user) => match &user.content {
            UserContent::Text(_) => 0,
            UserContent::Blocks(blocks) => {
                let mut blocks = clone_blocks(blocks);
                let removed: usize = filter_image_blocks(&mut blocks);
                let timestamp: i64 = user.timestamp;
                *message = Message::User(
                    UserMessage { content: UserContent::Blocks(blocks), timestamp },
                );
                removed
            },
        },
        Message::Assistant(assistant) => {
            let mut changed: AssistantMessage = (**assistant).clone();
            let removed: usize = filter_image_blocks(&mut changed.content);
            *message = Message::Assistant(Arc::new(changed));
            removed
        },
        Message::ToolResult(tool_result) => {
            let mut changed: ToolResultMessage = (**tool_result).clone();
            let removed: usize = filter_image_blocks(&mut changed.content);
            *message = Message::ToolResult(Arc::new(changed));
            removed
        },
        Message::Custom(_) => 0,
    }
}

/// Replaces the images of all messages by placeholders.
pub fn filter_images_for_provider(messages: &mut Vec<Message>) -> (stats: ImageFilterStats)
    ensures
        final(messages).deep_view() == old(messages).deep_view().map_values(
            |m: MessageView| message_without_images(m),
        ),
        stats.removed_images == saturated(images_in(old(messages).deep_view())),
        stats.affected_messages == messages_with_images(old(messages).deep_view()),
{
    let ghost all = messages.deep_view();
    let mut removed_images: usize = 0;
    let mut affected_messages: usize = 0;
    let mut i: usize = 0;
    assert(all.take(0) =~= Seq::empty());
    while i < messages.len()
        invariant
            i <= messages@.len(),
            all.len() == messages@.len(),
            affected_messages <= i,
            removed_images == saturated(images_in(all.take(i as int))),
            affected_messages == messages_with_images(all.take(i as int)),
            forall|j: int| 0 <= j < i ==> (#[trigger] messages@[j])@ == message_without_images(all[j]),
            forall|j: int| i <= j < all.len() ==> (#[trigger] messages@[j])@ == all[j],
        decreases messages@.len() - i,
    {
        proof {
            let next = all.take(i + 1);
            assert(next.drop_last() =~= all.take(i as int));
            assert(next.last() == messages@[i as int]@);
        }
        let mut message = messages[i].clone();
        let removed: usize = filter_images_from_message(&mut message);
        messages.set(i, message);
        if removed > 0 {
            removed_images = removed_images.saturating_add(removed);
            affected_messages += 1;
        }
        i += 1;
    }
    assert(all.take(i as int) =~= all);
    assert(messages.deep_view() =~= all.map_values(|m: MessageView| message_without_images(m)));
    ImageFilterStats { removed_images, affected_messages }
}

/// The tool calls among the blocks, in order.
pub open spec fn tool_calls_of(blocks: Seq<ContentBlockView>) -> Seq<ToolCallView>
    decreases blocks.len(),
{
    if blocks.len() == 0 {
        Seq::empty()
    } else {
        let rest = tool_calls_of(blocks.drop_last());
        match blocks.last() {
            ContentBlockView::ToolCall(call) => rest.push(call),
            _ => rest,
        }
    }
}

/// The tool calls among the blocks, in order.
pub fn extract_tool_calls(content: &Vec<ContentBlock>) -> (r: Vec<ToolCall>)
    ensures
        r.deep_view() == tool_calls_of(content.deep_view()),
{
    let ghost all = content.deep_view();
    let mut r: Vec<ToolCall> = Vec::new();
    let mut i: usize = 0;
    assert(all.take(0) =~= Seq::empty());
    assert(r.deep_view() =~= Seq::empty());
    while i < content.len()
        invariant
            i <= content@.len(),
            all == content.deep_view(),
            r.deep_view() == tool_calls_of(all.take(i as int)),
        decreases content@.len() - i,
    {
        let ghost before = r.deep_view();
        proof {
            let next = all.take(i + 1);
            assert(next.drop_last() =~= all.take(i as int));
            assert(next.last() == content@[i as int]@);
        }
        if let ContentBlock::ToolCall(call) = &content[i] {
            let ghost kept = call@;
            r.push(call.clone());
            assert(r.deep_view() =~= before.push(kept));
        }
        i += 1;
    }
    assert(all.take(i as int) =~= all);
    r
}

/// The blocks that are no tool calls, in order.
pub open spec fn without_tool_calls(blocks: Seq<ContentBlockView>) -> Seq<ContentBlockView> {
    blocks.filter(|b: ContentBlockView| !(b is ToolCall))
}

/// The blocks that are no tool calls, in order.
pub fn drop_tool_calls(content: &Vec<ContentBlock>) -> (r: Vec<ContentBlock>)
    ensures
        r.deep_view() == without_tool_calls(content.deep_view()),
{
    let ghost all = content.deep_view();
    let ghost keep = |b: ContentBlockView| !(b is ToolCall);
    let mut r: Vec<ContentBlock> = Vec::new();
    let mut i: usize = 0;
    assert(r.deep_view() =~= all.take(0).filter(keep)) by {
        reveal(Seq::filter);
    }
    while i < content.len()
        invariant
            i <= content@.len(),
            all == content.deep_view(),
            keep == (|b: ContentBlockView| !(b is ToolCall)),
            r.deep_view() == all.take(i as int).filter(keep),
        decreases content@.len() - i,
    {
        let ghost before = r.deep_view();
        proof {
            reveal(Seq::filter);
            let next = all.take(i + 1);
            assert(next.drop_last() =~= all.take(i as int));
            assert(next.last() == content@[i as int]@);
        }
        match &content[i] {
            ContentBlock::ToolCall(_) => {},
            other => {
                let ghost kept = other@;
                r.push(other.clone());
                assert(r.deep_view() =~= before.push(kept));
            },
        }
        i += 1;
    }
    assert(all.take(i as int) =~= all);
    r
}

/// Whether the model gets to see a message: everything but hidden messages of extensions.
pub open spec fn is_visible(m: MessageView) -> bool {
    match m {
        MessageView::Custom(c) => c.display,
        _ => true,
    }
}

/// The messages that the model gets to see, in order.
pub open spec fn visible(messages: Seq<MessageView>) -> Seq<MessageView> {
    messages.filter(|m: MessageView| is_visible(m))
}

/// The messages that the model gets to see, in order.
pub fn visible_messages(messages: &Vec<Message>) -> (r: Vec<Message>)
    ensures
        r.deep_view() == visible(messages.deep_view()),
{
    let ghost all = messages.deep_view();
    let ghost keep = |m: MessageView| is_visible(m);
    let mut r: Vec<Message> = Vec::new();
    let mut i: usize = 0;
    assert(r.deep_view() =~= all.take(0).filter(keep)) by {
        reveal(Seq::filter);
    }
    while i < messages.len()
        invariant
            i <= messages@.len(),
            all == messages.deep_view(),
            keep == (|m: MessageView| is_visible(m)),
            r.deep_view() == all.take(i as int).filter(keep),
        decreases messages@.len() - i,
    {
        let ghost before = r.deep_view();
        proof {
            reveal(Seq::filter);
            let next = all.take(i + 1);
            assert(next.drop_last() =~= all.take(i as int));
            assert(next.last() == messages@[i as int]@);
        }
        let shown = match &messages[i] {
            Message::Custom(c) => c.display,
            _ => true,
        };
        if shown {
            r.push(messages[i].clone());
            assert(r.deep_view() =~= before.push(messages@[i as int]@));
        }
        i += 1;
    }
    assert(all.take(i as int) =~= all);
    r
}

/// No image is left after images were taken out.
pub proof fn no_image_is_left(blocks: Seq<ContentBlockView>)
    ensures
        forall|i: int| 0 <= i < without_images(blocks).len() ==> !(#[trigger] without_images(blocks)[i]
            is Image),
        image_count(without_images(blocks)) == 0,
    decreases blocks.len(),
{
    if blocks.len() > 0 {
        no_image_is_left(blocks.drop_last());
        let rest = without_images(blocks.drop_last());
        let r = without_images(blocks);
        if r.len() > rest.len() {
            assert(r.drop_last() =~= rest);
        } else {
            assert(r == rest);
        }
    }
}

/// Where there is no image, nothing changes.
pub proof fn image_free_content_is_kept(blocks: Seq<ContentBlockView>)
    requires
        image_count(blocks) == 0,
    ensures
        without_images(blocks) == blocks,
    decreases blocks.len(),
{
    if blocks.len() > 0 {
        image_free_content_is_kept(blocks.drop_last());
        assert(blocks =~= blocks.drop_last().push(blocks.last()));
    } else {
        assert(without_images(blocks) =~= blocks);
    }
}

/// Taking images out twice is the same as taking them out once.
pub proof fn taking_images_out_is_idempotent(blocks: Seq<ContentBlockView>)
    ensures
        without_images(without_images(blocks)) == without_images(blocks),
{
    no_image_is_left(blocks);
    image_free_content_is_kept(without_images(blocks));
}

/// Everything that is neither an image nor a placeholder stays, in its order.
pub proof fn other_content_is_kept(blocks: Seq<ContentBlockView>)
    ensures
        without_images(blocks).filter(|b: ContentBlockView| !is_placeholder(b)) == blocks.filter(
            |b: ContentBlockView| !is_placeholder(b) && !(b is Image),
        ),
    decreases blocks.len(),
{
    reveal(Seq::filter);
    if blocks.len() > 0 {
        other_content_is_kept(blocks.drop_last());
        let rest = without_images(blocks.drop_last());
        let r = without_images(blocks);
        if r.len() > rest.len() {
            assert(r.drop_last() =~= rest);
        }
    }
}

/// A run of images leaves one placeholder, never two in a row that it added itself.
pub proof fn adjacent_images_share_a_placeholder(blocks: Seq<ContentBlockView>)
    requires
        blocks.len() >= 2,
        blocks[blocks.len() - 1] is Image,
        blocks[blocks.len() - 2] is Image,
    ensures
        without_images(blocks) == without_images(blocks.drop_last()),
{
    let shorter = blocks.drop_last();
    assert(shorter.last() == blocks[blocks.len() - 2]);
}

/// After tool calls were dropped, none is left.
pub proof fn no_tool_call_is_left(blocks: Seq<ContentBlockView>)
    ensures
        tool_calls_of(without_tool_calls(blocks)) == Seq::<ToolCallView>::empty(),
    decreases blocks.len(),
{
    reveal(Seq::filter);
    if blocks.len() > 0 {
        no_tool_call_is_left(blocks.drop_last());
        let rest = without_tool_calls(blocks.drop_last());
        let r = without_tool_calls(blocks);
        if !(blocks.last() is ToolCall) {
            assert(r.drop_last() =~= rest);
        }
    }
}

} // verus!
