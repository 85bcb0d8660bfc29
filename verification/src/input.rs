//! What a user hands to a session, and what extensions answer about it.
use vstd::prelude::*;

use crate::json::{field_views, object, put_field, text_value, Json, JsonView};
use crate::model::{
    text_content, ContentBlock, ContentBlockView, ImageContent, ImageContentView, TextContent,
};
use crate::text::{owned, trimmed};

verus! {

/// Where input comes from.
#[derive(Debug, Clone, Copy, PartialEq, Eq, Structural)]
pub enum InputSource {
    Interactive,
    Rpc,
    Extension,
}

impl InputSource {
    /// The name of the source in events.
    pub open spec fn name(self) -> Seq<char> {
        match self {
            InputSource::Interactive => "interactive"@,
            InputSource::Rpc => "rpc"@,
            InputSource::Extension => "extension"@,
        }
    }

    /// The name of the source in events.
    pub fn as_str(self) -> (r: &'static str)
        ensures
            r@ == self.name(),
    {
        match self {
            InputSource::Interactive => "interactive",
            InputSource::Rpc => "rpc",
            InputSource::Extension => "extension",
        }
    }
}

/// Different sources have different names.
pub proof fn input_source_names_differ(a: InputSource, b: InputSource)
    ensures
        a.name() == b.name() <==> a == b,
{
    reveal_strlit("interactive");
    reveal_strlit("rpc");
    reveal_strlit("extension");
    assert("interactive"@.len() != "rpc"@.len());
    assert("interactive"@.len() != "extension"@.len());
    assert("rpc"@.len() != "extension"@.len());
}

/// The texts of blocks that are not blank, each on a line of its own.
pub open spec fn input_text(blocks: Seq<ContentBlockView>) -> Seq<char>
    decreases blocks.len(),
{
    if blocks.len() == 0 {
        Seq::empty()
    } else {
        let before = input_text(blocks.drop_last());
        match blocks.last() {
            ContentBlockView::Text(t) => if trimmed(t.text).len() == 0 {
                before
            } else if before.len() == 0 {
                t.text
            } else {
                before.push('\n') + t.text
            },
            _ => before,
        }
    }
}

/// The images among blocks, in order.
pub open spec fn input_images(blocks: Seq<ContentBlockView>) -> Seq<ImageContentView>
    decreases blocks.len(),
{
    if blocks.len() == 0 {
        Seq::empty()
    } else {
        let before = input_images(blocks.drop_last());
        match blocks.last() {
            ContentBlockView::Image(i) => before.push(i),
            _ => before,
        }
    }
}

/// Takes the text and the images out of blocks.
pub fn split_content_blocks_for_input(blocks: &Vec<ContentBlock>) -> (r: (
    String,
    Vec<ImageContent>,
))
    ensures
        r.0@ == input_text(blocks.deep_view()),
        r.1.deep_view() == input_images(blocks.deep_view()),
{
    let ghost all = blocks.deep_view();
    let mut text = String::new();
    let mut images: Vec<ImageContent> = Vec::new();
    let mut i: usize = 0;
    assert(all.take(0) =~= Seq::empty());
    assert(images.deep_view() =~= Seq::empty());
    while i < blocks.len()
        invariant
            i <= blocks@.len(),
            all == blocks.deep_view(),
            text@ == input_text(all.take(i as int)),
            images.deep_view() == input_images(all.take(i as int)),
        decreases blocks@.len() - i,
    {
        let ghost text_before = text@;
        let ghost images_before = images.deep_view();
        proof {
            let next = all.take(i + 1);
            assert(next.drop_last() =~= all.take(i as int));
            assert(next.last() == blocks@[i as int]@);
        }
        match &blocks[i] {
            ContentBlock::Text(block) => {
                if !block.text.as_str().trim().is_empty() {
                    if !text.as_str().is_empty() {
                        text.push('\n');
                    }
                    text.push_str(block.text.as_str());
                    assert(text_before.len() == 0 ==> text@ =~= block.text@);
                }
            },
            ContentBlock::Image(image) => {
                let ghost shown = image@;
                images.push(image.clone());
                assert(images.deep_view() =~= images_before.push(shown));
            },
            _ => {},
        }
        i += 1;
    }
    assert(all.take(i as int) =~= all);
    (text, images)
}

/// A text, unless it is blank, followed by images.
pub open spec fn input_blocks(text: Seq<char>, images: Seq<ImageContentView>) -> Seq<
    ContentBlockView,
> {
    let pictures = images.map_values(|i: ImageContentView| ContentBlockView::Image(i));
    if trimmed(text).len() == 0 {
        pictures
    } else {
        seq![ContentBlockView::Text(text_content(text))] + pictures
    }
}

/// Makes blocks of a text and images.
pub fn build_content_blocks_for_input(text: &str, images: &Vec<ImageContent>) -> (r: Vec<
    ContentBlock,
>)
    ensures
        r.deep_view() == input_blocks(text@, images.deep_view()),
{
    let ghost goal = input_blocks(text@, images.deep_view());
    let mut content: Vec<ContentBlock> = Vec::new();
    if !text.trim().is_empty() {
        content.push(ContentBlock::Text(TextContent::new(owned(text))));
    }
    let ghost offset = content@.len();
    let mut i: usize = 0;
    while i < images.len()
        invariant
            i <= images@.len(),
            offset <= 1,
            content@.len() == offset + i,
            goal == input_blocks(text@, images.deep_view()),
            goal.len() == offset + images@.len(),
            forall|j: int| 0 <= j < content@.len() ==> (#[trigger] content@[j])@ == goal[j],
        decreases images@.len() - i,
    {
        let block = ContentBlock::Image(images[i].clone());
        assert(block@ == goal[offset + i]);
        content.push(block);
        i += 1;
    }
    assert(content.deep_view() =~= goal);
    content
}

proof fn lemma_images_only(images: Seq<ImageContentView>)
    ensures
        ({
            let pictures = images.map_values(|i: ImageContentView| ContentBlockView::Image(i));
            input_text(pictures) == Seq::<char>::empty() && input_images(pictures) == images
        }),
    decreases images.len(),
{
    let pictures = images.map_values(|i: ImageContentView| ContentBlockView::Image(i));
    if images.len() > 0 {
        lemma_images_only(images.drop_last());
        assert(pictures.drop_last() =~= images.drop_last().map_values(
            |i: ImageContentView| ContentBlockView::Image(i),
        ));
        assert(images =~= images.drop_last().push(images.last()));
    } else {
        assert(images =~= Seq::empty());
    }
}

proof fn lemma_text_then_images(text: Seq<char>, images: Seq<ImageContentView>)
    requires
        trimmed(text).len() > 0,
    ensures
        input_text(input_blocks(text, images)) == text,
        input_images(input_blocks(text, images)) == images,
    decreases images.len(),
{
    let blocks = input_blocks(text, images);
    if images.len() > 0 {
        lemma_text_then_images(text, images.drop_last());
        assert(blocks.drop_last() =~= input_blocks(text, images.drop_last()));
        assert(blocks.last() == ContentBlockView::Image(images.last()));
        assert(images =~= images.drop_last().push(images.last()));
    } else {
        assert(blocks =~= seq![ContentBlockView::Text(text_content(text))]);
        assert(blocks.drop_last() =~= Seq::empty());
        assert(input_text(Seq::empty()) == Seq::<char>::empty());
        assert(input_images(Seq::empty()) == Seq::<ImageContentView>::empty());
        assert(images =~= Seq::empty());
    }
}

/// Text and images that were made into blocks come out of them again; only a blank text is lost.
pub proof fn blocks_keep_text_and_images(text: Seq<char>, images: Seq<ImageContentView>)
    ensures
        input_images(input_blocks(text, images)) == images,
        trimmed(text).len() > 0 ==> input_text(input_blocks(text, images)) == text,
        trimmed(text).len() == 0 ==> input_text(input_blocks(text, images)) == Seq::<char>::empty(),
{
    if trimmed(text).len() > 0 {
        lemma_text_then_images(text, images);
    } else {
        lemma_images_only(images);
    }
}

/// What extensions are told of input. `images` is the images as JSON.
pub open spec fn input_event(text: Seq<char>, images: JsonView, source: InputSource) -> JsonView {
    JsonView::Object(
        seq![
            ("text"@, JsonView::Text(text)),
            ("content"@, JsonView::Text(text)),
            ("images"@, images),
            ("attachments"@, images),
            ("source"@, JsonView::Text(source.name())),
        ],
    )
}

/// What extensions are told of input. `images` is the images as JSON.
pub fn input_event_payload(text: &str, images: Json, source: InputSource) -> (r: Json)
    ensures
        r@ == input_event(text@, images@, source),
{
    let mut fields: Vec<(String, Json)> = Vec::new();
    put_field(&mut fields, "text", text_value(text));
    put_field(&mut fields, "content", text_value(text));
    put_field(&mut fields, "images", images.clone());
    put_field(&mut fields, "attachments", images);
    put_field(&mut fields, "source", text_value(source.as_str()));
    assert(field_views(fields@) =~= input_event(text@, images@, source)->Object_0);
    object(fields)
}

/// What extensions are told before the agent starts. `images` is the images as JSON.
pub open spec fn before_start_event(
    prompt: Seq<char>,
    images: JsonView,
    system_prompt: Seq<char>,
) -> JsonView {
    JsonView::Object(
        seq![
            ("prompt"@, JsonView::Text(prompt)),
            ("images"@, images),
            ("systemPrompt"@, JsonView::Text(system_prompt)),
        ],
    )
}

/// What extensions are told before the agent starts. `images` is the images as JSON.
pub fn before_agent_start_payload(prompt: &str, images: Json, system_prompt: &str) -> (r: Json)
    ensures
        r@ == before_start_event(prompt@, images@, system_prompt@),
{
    let mut fields: Vec<(String, Json)> = Vec::new();
    put_field(&mut fields, "prompt", text_value(prompt));
    put_field(&mut fields, "images", images);
    put_field(&mut fields, "systemPrompt", text_value(system_prompt));
    assert(field_views(fields@) =~= before_start_event(
        prompt@,
        images@,
        system_prompt@,
    )->Object_0);
    object(fields)
}

/// What an extension's answer about the context of a request comes to.
#[derive(Debug, PartialEq, Eq)]
pub enum ContextReply {
    /// The context stays as it is.
    Keep,
    /// The context is emptied.
    Clear,
    /// The context is replaced by the messages that this value holds, if it does.
    Decode(Json),
}

/// The mathematical value of [`ContextReply`].
#[verifier::ext_equal]
pub enum ContextReplyView {
    Keep,
    Clear,
    Decode(JsonView),
}

impl View for ContextReply {
    type V = ContextReplyView;

    open spec fn view(&self) -> ContextReplyView {
        match *self {
            ContextReply::Keep => ContextReplyView::Keep,
            ContextReply::Clear => ContextReplyView::Clear,
            ContextReply::Decode(v) => ContextReplyView::Decode(v@),
        }
    }
}

/// What an extension's answer about the context comes to: a list counts as messages, an object may
/// hold them, and messages that are null empty the context.
pub open spec fn context_reply(answer: Option<JsonView>) -> ContextReplyView {
    match answer {
        Some(JsonView::Array(items)) => ContextReplyView::Decode(JsonView::Array(items)),
        Some(JsonView::Object(fields)) => match crate::json::field_of(fields, "messages"@) {
            Some(v) => if v is Null {
                ContextReplyView::Clear
            } else {
                ContextReplyView::Decode(v)
            },
            None => ContextReplyView::Keep,
        },
        _ => ContextReplyView::Keep,
    }
}

/// What an extension's answer about the context comes to.
pub fn read_context_reply(answer: Option<Json>) -> (r: ContextReply)
    ensures
        r@ == context_reply(crate::json::opt_json(answer)),
{
    match answer {
        Some(value) => match &value {
            Json::Array(_) => ContextReply::Decode(value),
            Json::Object(_) => match value.get("messages") {
                Some(v) => match v {
                    Json::Null => ContextReply::Clear,
                    other => ContextReply::Decode(other.clone()),
                },
                None => ContextReply::Keep,
            },
            _ => ContextReply::Keep,
        },
        None => ContextReply::Keep,
    }
}

} // verus!
