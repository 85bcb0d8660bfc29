//! Completions that extensions ask for: their options, their context and their answer.
use vstd::prelude::*;

use crate::agent::{ProviderIdentity, ProviderIdentityView, StreamOptions, StreamOptionsView};
use crate::clock::now_millis;
use crate::error::{Error, ErrorView};
use crate::event::{StreamEvent, StreamEventView};
use crate::host::user_text_message;
use crate::json::{
    field_of, field_views, lemma_field_is_smaller, object, put_field, text_value, Json, JsonView,
};
use crate::model::{
    no_usage, push_message, text_content, AssistantMessage, AssistantMessageView, ContentBlock,
    ContentBlockView, Message, MessageView, StopReason, TextContent, Usage, UserContent, UserMessage,
};
use crate::selection::{ExtensionAiCompletionHostState, ExtensionAiCompletionHostStateView};
use crate::semantic::texts;
use crate::stream::{StreamInput, StreamInputView};
use crate::text::{
    byte_len, byte_length, chars_of, decimal, decimal_of, opt_text, owned, same_text,
    signed_decimal, signed_decimal_of, trimmed,
};

verus! {

/// The value of the first of two fields that is there, unless it is null.
pub open spec fn either_field(options: JsonView, first: Seq<char>, second: Seq<char>) -> Option<
    JsonView,
> {
    let found = match options.field(first) {
        Some(v) => Some(v),
        None => options.field(second),
    };
    match found {
        Some(v) => if v is Null {
            None
        } else {
            Some(v)
        },
        None => None,
    }
}

/// The value of an optional reference.
pub open spec fn opt_json_ref(o: Option<&Json>) -> Option<JsonView> {
    match o {
        Some(v) => Some(v@),
        None => None,
    }
}

fn find_either<'a>(options: &'a Json, first: &str, second: &str) -> (r: Option<&'a Json>)
    ensures
        opt_json_ref(r) == either_field(options@, first@, second@),
{
    let found = match options.get(first) {
        Some(v) => Some(v),
        None => options.get(second),
    };
    match found {
        Some(v) => match v {
            Json::Null => None,
            other => Some(other),
        },
        None => None,
    }
}

/// The temperature that a request asks for, as it stands in the request.
pub fn requested_temperature<'a>(options: &'a Json) -> (r: Option<&'a Json>)
    ensures
        opt_json_ref(r) == either_field(options@, "temperature"@, "temp"@),
{
    find_either(options, "temperature", "temp")
}

/// Whether the bit pattern of a single-precision number stands for one from zero to two.
pub open spec fn is_valid_temperature(bits: u32) -> bool {
    bits <= 0x4000_0000 || bits == 0x8000_0000
}

/// What is wrong with the temperature of a request, if something is. `reading` is the temperature as
/// a single-precision number, or why it is none.
pub open spec fn temperature_error(
    options: JsonView,
    reading: Result<u32, Seq<char>>,
) -> Option<Seq<char>> {
    if either_field(options, "temperature"@, "temp"@) is None {
        None
    } else {
        match reading {
            Err(why) => Some("pi-ai completion temperature must be numeric: "@ + why),
            Ok(bits) => if is_valid_temperature(bits) {
                None
            } else {
                Some("pi-ai completion temperature must be between 0 and 2"@)
            },
        }
    }
}

/// What is wrong with the token limit of a request, if something is.
pub open spec fn max_tokens_error(options: JsonView) -> Option<Seq<char>> {
    match either_field(options, "maxTokens"@, "max_tokens"@) {
        None => None,
        Some(JsonView::Unsigned(n)) => if n > u32::MAX {
            Some("pi-ai completion maxTokens exceeds u32::MAX"@)
        } else if n == 0 {
            Some("pi-ai completion maxTokens must be greater than zero"@)
        } else {
            None
        },
        Some(_) => Some("pi-ai completion maxTokens must be an unsigned integer"@),
    }
}

/// The options of a completion after a request's own were applied. A bad temperature stops before
/// anything is applied, and a bad token limit after the temperature was.
pub open spec fn applied_options(
    options: JsonView,
    reading: Result<u32, Seq<char>>,
    before: StreamOptionsView,
) -> StreamOptionsView {
    if temperature_error(options, reading) is Some {
        before
    } else {
        let warm = StreamOptionsView {
            temperature: if either_field(options, "temperature"@, "temp"@) is Some {
                Some(reading->Ok_0)
            } else {
                before.temperature
            },
            ..before
        };
        match either_field(options, "maxTokens"@, "max_tokens"@) {
            Some(JsonView::Unsigned(n)) => if max_tokens_error(options) is None {
                StreamOptionsView { max_tokens: Some(n as u32), ..warm }
            } else {
                warm
            },
            _ => warm,
        }
    }
}

/// What is wrong with the options of a request, if something is.
pub open spec fn options_error(options: JsonView, reading: Result<u32, Seq<char>>) -> Option<
    Seq<char>,
> {
    match temperature_error(options, reading) {
        Some(why) => Some(why),
        None => max_tokens_error(options),
    }
}

/// The characters of a failed reading.
pub open spec fn reading_view(reading: Result<u32, String>) -> Result<u32, Seq<char>> {
    match reading {
        Ok(bits) => Ok(bits),
        Err(why) => Err(why@),
    }
}

/// What a fallible step says: nothing if it went well.
pub open spec fn failure(r: Result<(), Error>) -> Option<ErrorView> {
    match r {
        Ok(_) => None,
        Err(e) => Some(e@),
    }
}

/// A request that makes no sense, in words, as an error.
pub open spec fn as_validation(why: Option<Seq<char>>) -> Option<ErrorView> {
    match why {
        Some(text) => Some(ErrorView::Validation(text)),
        None => None,
    }
}

/// Applies the options of a request. `reading` is the requested temperature as a single-precision
/// number, by its bit pattern, or why it is none; it counts only if the request asks for one.
pub fn apply_pi_ai_completion_options(
    options: &Json,
    reading: Result<u32, String>,
    stream_options: &mut StreamOptions,
) -> (r: Result<(), Error>)
    ensures
        failure(r) == as_validation(options_error(options@, reading_view(reading))),
        final(stream_options)@ == applied_options(
            options@,
            reading_view(reading),
            old(stream_options)@,
        ),
{
    if let Some(_) = requested_temperature(options) {
        match reading {
            Err(why) => {
                let mut text = owned("pi-ai completion temperature must be numeric: ");
                text.push_str(why.as_str());
                return Err(Error::Validation(text));
            },
            Ok(bits) => {
                if !(bits <= 0x4000_0000 || bits == 0x8000_0000) {
                    return Err(
                        Error::Validation(
                            owned("pi-ai completion temperature must be between 0 and 2"),
                        ),
                    );
                }
                stream_options.temperature = Some(bits);
            },
        }
    }
    match find_either(options, "maxTokens", "max_tokens") {
        None => Ok(()),
        Some(value) => match value {
            Json::Unsigned(n) => {
                let n: u64 = *n;
                if n > u32::MAX as u64 {
                    return Err(
                        Error::Validation(owned("pi-ai completion maxTokens exceeds u32::MAX")),
                    );
                }
                if n == 0 {
                    return Err(
                        Error::Validation(
                            owned("pi-ai completion maxTokens must be greater than zero"),
                        ),
                    );
                }
                stream_options.max_tokens = Some(n as u32);
                Ok(())
            },
            _ => Err(
                Error::Validation(owned("pi-ai completion maxTokens must be an unsigned integer")),
            ),
        },
    }
}

/// The text that JSON writes for a value that is neither a string, a list nor an object.
pub open spec fn plain_text(v: JsonView) -> Seq<char> {
    match v {
        JsonView::Bool(b) => if b {
            "true"@
        } else {
            "false"@
        },
        JsonView::Unsigned(n) => decimal(n as nat),
        JsonView::Negative(n) => signed_decimal(n as int),
        JsonView::Fraction(s) => s,
        _ => "null"@,
    }
}

fn plain_text_of(v: &Json) -> (r: String)
    ensures
        r@ == plain_text(v@),
{
    match v {
        Json::Bool(b) => if *b {
            owned("true")
        } else {
            owned("false")
        },
        Json::Unsigned(n) => decimal_of(*n),
        Json::Negative(n) => signed_decimal_of(*n),
        Json::Fraction(s) => s.clone(),
        _ => owned("null"),
    }
}

/// The first of three fields that is there.
pub open spec fn first_of_three(
    fields: Seq<(Seq<char>, JsonView)>,
    a: Seq<char>,
    b: Seq<char>,
    c: Seq<char>,
) -> Option<JsonView> {
    match field_of(fields, a) {
        Some(v) => Some(v),
        None => match field_of(fields, b) {
            Some(v) => Some(v),
            None => field_of(fields, c),
        },
    }
}

/// The text that a value amounts to: its own, that of its parts one behind the other, or that of the
/// field that holds it.
pub open spec fn text_of(v: JsonView) -> Option<Seq<char>>
    decreases v,
{
    match v {
        JsonView::Null => None,
        JsonView::Text(s) => Some(s),
        JsonView::Array(items) => Some(texts_of(items)),
        JsonView::Object(fields) => {
            proof {
                lemma_field_is_smaller(fields, "text"@);
                lemma_field_is_smaller(fields, "content"@);
                lemma_field_is_smaller(fields, "delta"@);
            }
            match first_of_three(fields, "text"@, "content"@, "delta"@) {
                Some(inner) => text_of(inner),
                None => None,
            }
        },
        _ => Some(plain_text(v)),
    }
}

/// The texts of several values, one behind the other.
pub open spec fn texts_of(items: Seq<JsonView>) -> Seq<char>
    decreases items,
{
    if items.len() == 0 {
        Seq::empty()
    } else {
        texts_of(items.drop_last()) + match text_of(items.last()) {
            Some(t) => t,
            None => Seq::empty(),
        }
    }
}

fn find_three<'a>(value: &'a Json, a: &str, b: &str, c: &str) -> (r: Option<&'a Json>)
    ensures
        opt_json_ref(r) == match value@ {
            JsonView::Object(fields) => first_of_three(fields, a@, b@, c@),
            _ => None,
        },
        r matches Some(v) ==> decreases_to!(*value => *v),
{
    match value.get(a) {
        Some(v) => Some(v),
        None => match value.get(b) {
            Some(v) => Some(v),
            None => value.get(c),
        },
    }
}

/// The text that a value amounts to.
pub fn pi_ai_text_from_value(value: &Json) -> (r: Option<String>)
    ensures
        opt_text(r) == text_of(value@),
    decreases value,
{
    match value {
        Json::Null => None,
        Json::Text(text) => Some(text.clone()),
        Json::Array(items) => {
            let ghost all = value@->Array_0;
            let mut text = String::new();
            let mut i: usize = 0;
            assert(all.take(0) =~= Seq::empty());
            while i < items.len()
                invariant
                    i <= items@.len(),
                    *value == Json::Array(*items),
                    all == value@->Array_0,
                    text@ == texts_of(all.take(i as int)),
                decreases items@.len() - i,
            {
                proof {
                    let next = all.take(i + 1);
                    assert(next.drop_last() =~= all.take(i as int));
                    assert(next.last() == items@[i as int]@);
                    assert(decreases_to!(*value => value->Array_0));
                    assert(decreases_to!(items@ => items@[i as int]));
                }
                let ghost before = text@;
                match pi_ai_text_from_value(&items[i]) {
                    Some(part) => text.push_str(part.as_str()),
                    None => {
                        assert(before + Seq::<char>::empty() =~= before);
                    },
                }
                i += 1;
            }
            assert(all.take(i as int) =~= all);
            Some(text)
        },
        Json::Object(_) => match find_three(value, "text", "content", "delta") {
            Some(inner) => pi_ai_text_from_value(inner),
            None => None,
        },
        _ => Some(plain_text_of(value)),
    }
}

/// A message of the model that holds one text.
pub open spec fn assistant_text_message(text: Seq<char>, now: i64) -> MessageView {
    MessageView::Assistant(
        AssistantMessageView {
            content: seq![ContentBlockView::Text(text_content(text))],
            api: Seq::empty(),
            provider: Seq::empty(),
            model: Seq::empty(),
            usage: no_usage(),
            stop_reason: StopReason::Stop,
            error_message: None,
            timestamp: now,
        },
    )
}

fn push_pi_ai_user_message(text: &str, now: i64, messages: &mut Vec<Message>)
    ensures
        final(messages).deep_view() == old(messages).deep_view().push(
            user_text_message(text@, now),
        ),
{
    push_message(
        messages,
        Message::User(UserMessage { content: UserContent::Text(owned(text)), timestamp: now }),
    );
}

fn push_pi_ai_assistant_message(text: &str, now: i64, messages: &mut Vec<Message>)
    ensures
        final(messages).deep_view() == old(messages).deep_view().push(
            assistant_text_message(text@, now),
        ),
{
    let mut content: Vec<ContentBlock> = Vec::new();
    content.push(ContentBlock::Text(TextContent::new(owned(text))));
    let message = AssistantMessage {
        content,
        api: String::new(),
        provider: String::new(),
        model: String::new(),
        usage: Usage::default(),
        stop_reason: StopReason::Stop,
        error_message: None,
        timestamp: now,
    };
    assert(message@.content =~= seq![ContentBlockView::Text(text_content(text@))]);
    push_message(messages, Message::assistant(message));
}

/// A text with its ASCII letters in lower case.
pub open spec fn ascii_lower(s: Seq<char>) -> Seq<char> {
    s.map_values(
        |c: char|
            if 0x41 <= c as u32 <= 0x5a {
                (c as u32 + 0x20) as char
            } else {
                c
            },
    )
}

/// A text with its ASCII letters in lower case.
pub fn ascii_lower_of(s: &str) -> (r: String)
    ensures
        r@ == ascii_lower(s@),
{
    let chars = chars_of(s);
    let mut r = String::new();
    let mut i: usize = 0;
    while i < chars.len()
        invariant
            i <= chars@.len(),
            chars@ == s@,
            r@ == ascii_lower(s@).take(i as int),
        decreases chars@.len() - i,
    {
        let c = chars[i];
        let code: u32 = c as u32;
        let lower = if 0x41 <= code && code <= 0x5a {
            (code as u8 + 32u8) as char
        } else {
            c
        };
        assert(lower == ascii_lower(s@)[i as int]);
        r.push(lower);
        assert(ascii_lower(s@).take(i + 1) =~= ascii_lower(s@).take(i as int).push(
            ascii_lower(s@)[i as int],
        ));
        i += 1;
    }
    assert(ascii_lower(s@).take(i as int) =~= ascii_lower(s@));
    r
}

/// The text that the standard library's debug format writes for a string.
pub uninterp spec fn debug_text(s: Seq<char>) -> Seq<char>;

/// Calls the `Debug` format of `str`, which quotes a text and escapes what is special in it.
#[verifier::external_body]
fn debug_of(s: &str) -> (r: String)
    ensures
        r@ == debug_text(s@),
{
    format!("{s:?}")
}

/// What was collected of the context of a request, up to the first thing that makes no sense.
#[verifier::ext_equal]
pub struct Collected {
    pub prompts: Seq<Seq<char>>,
    pub messages: Seq<MessageView>,
    pub error: Option<ErrorView>,
}

/// The role that a message of the context has.
pub open spec fn role_of(v: JsonView) -> Seq<char> {
    match v.field("role"@) {
        Some(JsonView::Text(role)) => ascii_lower(trimmed(role)),
        _ => ascii_lower(trimmed("user"@)),
    }
}

/// The content that a message of the context has.
pub open spec fn content_of(v: JsonView) -> Seq<char> {
    let found = match v.field("content"@) {
        Some(c) => Some(c),
        None => v.field("text"@),
    };
    match found {
        Some(c) => match text_of(c) {
            Some(t) => t,
            None => Seq::empty(),
        },
        None => Seq::empty(),
    }
}

impl Collected {
    /// With a message of the user.
    pub open spec fn with_user(self, text: Seq<char>, now: i64) -> Collected {
        Collected { messages: self.messages.push(user_text_message(text, now)), ..self }
    }

    /// With one message of the context.
    pub open spec fn with_message(self, v: JsonView, now: i64) -> Collected {
        if self.error is Some {
            self
        } else if !(v is Object) {
            match text_of(v) {
                Some(text) => self.with_user(text, now),
                None => self,
            }
        } else if role_of(v) == "system"@ {
            if trimmed(content_of(v)).len() > 0 {
                Collected { prompts: self.prompts.push(content_of(v)), ..self }
            } else {
                self
            }
        } else if role_of(v) == "user"@ {
            self.with_user(content_of(v), now)
        } else if role_of(v) == "assistant"@ {
            Collected {
                messages: self.messages.push(assistant_text_message(content_of(v), now)),
                ..self
            }
        } else {
            Collected {
                error: Some(
                    ErrorView::Validation(
                        "@mariozechner/pi-ai completion does not support "@ + debug_text(
                            role_of(v),
                        ) + " context messages"@,
                    ),
                ),
                ..self
            }
        }
    }

    /// With several messages of the context, up to the first that makes no sense.
    pub open spec fn with_messages(self, items: Seq<JsonView>, now: i64) -> Collected
        decreases items.len(),
    {
        if items.len() == 0 {
            self
        } else {
            self.with_messages(items.drop_last(), now).with_message(items.last(), now)
        }
    }

    /// With the context of a request: a text, a list of messages, or an object that holds a system
    /// prompt and messages, a prompt, or is itself a message.
    pub open spec fn with_context(self, v: JsonView, now: i64) -> Collected {
        match v {
            JsonView::Null => self,
            JsonView::Text(text) => self.with_user(text, now),
            JsonView::Array(items) => self.with_messages(items, now),
            JsonView::Object(fields) => {
                let system = match first_of_three(
                    fields,
                    "systemPrompt"@,
                    "system_prompt"@,
                    "system"@,
                ) {
                    Some(s) => text_of(s),
                    None => None,
                };
                let begun = match system {
                    Some(text) => Collected { prompts: self.prompts.push(text), ..self },
                    None => self,
                };
                let prompt = match first_of_three(fields, "prompt"@, "input"@, "message"@) {
                    Some(p) => text_of(p),
                    None => None,
                };
                match field_of(fields, "messages"@) {
                    Some(JsonView::Array(items)) => begun.with_messages(items, now),
                    _ => match prompt {
                        Some(text) => begun.with_user(text, now),
                        None => if field_of(fields, "role"@) is Some {
                            begun.with_message(v, now)
                        } else {
                            begun
                        },
                    },
                }
            },
            _ => self.with_user(plain_text(v), now),
        }
    }
}

/// What was collected, from its parts.
pub open spec fn collected(
    prompts: Vec<String>,
    messages: Vec<Message>,
    r: Result<(), Error>,
) -> Collected {
    Collected { prompts: texts(prompts@), messages: messages.deep_view(), error: failure(r) }
}

fn push_prompt(prompts: &mut Vec<String>, text: String)
    ensures
        texts(final(prompts)@) == texts(old(prompts)@).push(text@),
{
    prompts.push(text);
    assert(texts(prompts@) =~= texts(old(prompts)@).push(text@));
}

fn push_pi_ai_message(
    value: &Json,
    now: i64,
    prompts: &mut Vec<String>,
    messages: &mut Vec<Message>,
) -> (r: Result<(), Error>)
    ensures
        collected(*final(prompts), *final(messages), r) == collected(
            *old(prompts),
            *old(messages),
            Ok(()),
        ).with_message(value@, now),
{
    match value {
        Json::Object(_) => {},
        _ => {
            if let Some(text) = pi_ai_text_from_value(value) {
                push_pi_ai_user_message(text.as_str(), now, messages);
            }
            return Ok(());
        },
    }
    let role = match value.get("role") {
        Some(Json::Text(role)) => ascii_lower_of(role.as_str().trim()),
        _ => ascii_lower_of("user".trim()),
    };
    let found = match value.get("content") {
        Some(c) => Some(c),
        None => value.get("text"),
    };
    let content = match found {
        Some(c) => match pi_ai_text_from_value(c) {
            Some(t) => t,
            None => String::new(),
        },
        None => String::new(),
    };
    if same_text(role.as_str(), "system") {
        if !content.as_str().trim().is_empty() {
            push_prompt(prompts, content);
        }
        Ok(())
    } else if same_text(role.as_str(), "user") {
        push_pi_ai_user_message(content.as_str(), now, messages);
        Ok(())
    } else if same_text(role.as_str(), "assistant") {
        push_pi_ai_assistant_message(content.as_str(), now, messages);
        Ok(())
    } else {
        let mut text = owned("@mariozechner/pi-ai completion does not support ");
        text.push_str(debug_of(role.as_str()).as_str());
        text.push_str(" context messages");
        Err(Error::Validation(text))
    }
}

proof fn lemma_error_sticks(c: Collected, items: Seq<JsonView>, upto: int, now: i64)
    requires
        0 <= upto <= items.len(),
        c.with_messages(items.take(upto), now).error is Some,
    ensures
        c.with_messages(items, now) == c.with_messages(items.take(upto), now),
    decreases items.len() - upto,
{
    if upto < items.len() {
        let next = items.take(upto + 1);
        assert(next.drop_last() =~= items.take(upto));
        lemma_error_sticks(c, items, upto + 1, now);
    } else {
        assert(items.take(upto) =~= items);
    }
}

fn push_pi_ai_messages(
    items: &Vec<Json>,
    now: i64,
    prompts: &mut Vec<String>,
    messages: &mut Vec<Message>,
) -> (r: Result<(), Error>)
    ensures
        collected(*final(prompts), *final(messages), r) == collected(
            *old(prompts),
            *old(messages),
            Ok(()),
        ).with_messages(items.deep_view(), now),
{
    let ghost all = items.deep_view();
    let ghost start = collected(*prompts, *messages, Ok(()));
    let mut i: usize = 0;
    assert(all.take(0) =~= Seq::empty());
    while i < items.len()
        invariant
            i <= items@.len(),
            all == items.deep_view(),
            start == collected(*old(prompts), *old(messages), Ok(())),
            collected(*prompts, *messages, Ok(())) == start.with_messages(
                all.take(i as int),
                now,
            ),
        decreases items@.len() - i,
    {
        proof {
            let next = all.take(i + 1);
            assert(next.drop_last() =~= all.take(i as int));
            assert(next.last() == items@[i as int]@);
        }
        match push_pi_ai_message(&items[i], now, prompts, messages) {
            Ok(_) => {},
            Err(e) => {
                proof {
                    lemma_error_sticks(start, all, i + 1, now);
                }
                return Err(e);
            },
        }
        i += 1;
    }
    assert(all.take(i as int) =~= all);
    Ok(())
}

/// Collects the system prompts and the messages of a request's context.
pub fn collect_pi_ai_context_messages(
    value: &Json,
    now: i64,
    prompts: &mut Vec<String>,
    messages: &mut Vec<Message>,
) -> (r: Result<(), Error>)
    ensures
        collected(*final(prompts), *final(messages), r) == collected(
            *old(prompts),
            *old(messages),
            Ok(()),
        ).with_context(value@, now),
{
    match value {
        Json::Null => Ok(()),
        Json::Text(text) => {
            push_pi_ai_user_message(text.as_str(), now, messages);
            Ok(())
        },
        Json::Array(items) => {
            assert(value@->Array_0 =~= items.deep_view());
            push_pi_ai_messages(items, now, prompts, messages)
        },
        Json::Object(_) => {
            if let Some(system) = find_three(value, "systemPrompt", "system_prompt", "system") {
                if let Some(text) = pi_ai_text_from_value(system) {
                    push_prompt(prompts, text);
                }
            }
            if let Some(inner) = value.get("messages") {
                if let Json::Array(items) = inner {
                    assert(inner@->Array_0 =~= items.deep_view());
                    return push_pi_ai_messages(items, now, prompts, messages);
                }
            }
            let prompt = match find_three(value, "prompt", "input", "message") {
                Some(p) => pi_ai_text_from_value(p),
                None => None,
            };
            if let Some(text) = prompt {
                push_pi_ai_user_message(text.as_str(), now, messages);
                Ok(())
            } else if value.get("role").is_some() {
                push_pi_ai_message(value, now, prompts, messages)
            } else {
                Ok(())
            }
        },
        _ => {
            let text = plain_text_of(value);
            push_pi_ai_user_message(text.as_str(), now, messages);
            Ok(())
        },
    }
}

/// The texts that are not blank, with an empty line between them.
pub open spec fn joined_prompts(prompts: Seq<Seq<char>>) -> Seq<char>
    decreases prompts.len(),
{
    if prompts.len() == 0 {
        Seq::empty()
    } else {
        let rest = joined_prompts(prompts.drop_last());
        let last = prompts.last();
        if trimmed(last).len() == 0 {
            rest
        } else if has_prompt(prompts.drop_last()) {
            rest + "\n\n"@ + last
        } else {
            last
        }
    }
}

/// Whether one of the texts is not blank.
pub open spec fn has_prompt(prompts: Seq<Seq<char>>) -> bool
    decreases prompts.len(),
{
    prompts.len() > 0 && (trimmed(prompts.last()).len() > 0 || has_prompt(prompts.drop_last()))
}

fn join_prompts(prompts: &Vec<String>) -> (r: String)
    ensures
        r@ == joined_prompts(texts(prompts@)),
{
    let ghost all = texts(prompts@);
    let mut joined = String::new();
    let mut any = false;
    let mut i: usize = 0;
    assert(all.take(0) =~= Seq::empty());
    while i < prompts.len()
        invariant
            i <= prompts@.len(),
            all == texts(prompts@),
            joined@ == joined_prompts(all.take(i as int)),
            any == has_prompt(all.take(i as int)),
            !any ==> joined@.len() == 0,
        decreases prompts@.len() - i,
    {
        proof {
            let next = all.take(i + 1);
            assert(next.drop_last() =~= all.take(i as int));
            assert(next.last() == prompts@[i as int]@);
        }
        if !prompts[i].as_str().trim().is_empty() {
            if any {
                joined.push_str("\n\n");
            }
            let ghost before = joined@;
            joined.push_str(prompts[i].as_str());
            assert(!any ==> joined@ =~= prompts@[i as int]@);
            any = true;
        }
        i += 1;
    }
    assert(all.take(i as int) =~= all);
    joined
}

/// The context of a completion that an extension asks for.
#[derive(Debug, PartialEq, Eq)]
pub struct CompletionContext {
    pub system_prompt: Option<String>,
    pub messages: Vec<Message>,
}

/// What building the context of a request comes to: the system prompt and the messages, or what
/// makes no sense.
pub open spec fn completion_context(request: JsonView, now: i64) -> Result<
    (Option<Seq<char>>, Seq<MessageView>),
    ErrorView,
> {
    let c = Collected {
        prompts: Seq::empty(),
        messages: Seq::empty(),
        error: None,
    }.with_context(request, now);
    match c.error {
        Some(e) => Err(e),
        None => if c.messages.len() == 0 {
            Err(
                ErrorView::Validation(
                    "@mariozechner/pi-ai completion requires at least one user or assistant message"@,
                ),
            )
        } else {
            let prompt = joined_prompts(c.prompts);
            Ok(
                (
                    if prompt.len() == 0 {
                        None
                    } else {
                        Some(prompt)
                    },
                    c.messages,
                ),
            )
        },
    }
}

/// What a result of building a context says.
pub open spec fn context_view(r: Result<CompletionContext, Error>) -> Result<
    (Option<Seq<char>>, Seq<MessageView>),
    ErrorView,
> {
    match r {
        Ok(c) => Ok((opt_text(c.system_prompt), c.messages.deep_view())),
        Err(e) => Err(e@),
    }
}

/// Builds the context of a request, at the time `now`.
pub fn build_pi_ai_completion_context_at(context: &Json, now: i64) -> (r: Result<
    CompletionContext,
    Error,
>)
    ensures
        context_view(r) == completion_context(context@, now),
{
    let mut prompts: Vec<String> = Vec::new();
    let mut messages: Vec<Message> = Vec::new();
    assert(texts(prompts@) =~= Seq::empty());
    assert(messages.deep_view() =~= Seq::empty());
    match collect_pi_ai_context_messages(context, now, &mut prompts, &mut messages) {
        Ok(_) => {},
        Err(e) => {
            return Err(e);
        },
    }
    if messages.len() == 0 {
        return Err(
            Error::Validation(
                owned(
                    "@mariozechner/pi-ai completion requires at least one user or assistant message",
                ),
            ),
        );
    }
    let joined = join_prompts(&prompts);
    let system_prompt = if joined.as_str().is_empty() {
        None
    } else {
        Some(joined)
    };
    Ok(CompletionContext { system_prompt, messages })
}

/// Builds the context of a request, at the present time.
pub fn build_pi_ai_completion_context(context: &Json) -> (r: Result<CompletionContext, Error>)
    ensures
        exists|now: i64| context_view(r) == #[trigger] completion_context(context@, now),
{
    let now: i64 = now_millis();
    build_pi_ai_completion_context_at(context, now)
}

/// The texts of a message, one behind the other.
pub open spec fn message_text(blocks: Seq<ContentBlockView>) -> Seq<char>
    decreases blocks.len(),
{
    if blocks.len() == 0 {
        Seq::empty()
    } else {
        message_text(blocks.drop_last()) + match blocks.last() {
            ContentBlockView::Text(t) => t.text,
            _ => Seq::empty(),
        }
    }
}

/// The texts of a message, one behind the other.
pub fn pi_ai_assistant_text(message: &AssistantMessage) -> (r: String)
    ensures
        r@ == message_text(message@.content),
{
    let ghost all = message@.content;
    let mut text = String::new();
    let mut i: usize = 0;
    assert(all.take(0) =~= Seq::empty());
    while i < message.content.len()
        invariant
            i <= message.content@.len(),
            all == message@.content,
            text@ == message_text(all.take(i as int)),
        decreases message.content@.len() - i,
    {
        let ghost before = text@;
        proof {
            let next = all.take(i + 1);
            assert(next.drop_last() =~= all.take(i as int));
            assert(next.last() == message.content@[i as int]@);
            assert(before + Seq::<char>::empty() =~= before);
        }
        if let ContentBlock::Text(block) = &message.content[i] {
            text.push_str(block.text.as_str());
        }
        i += 1;
    }
    assert(all.take(i as int) =~= all);
    text
}

/// What a failed message says: its error, or else its text, or else a standing phrase.
pub open spec fn failure_text(m: AssistantMessageView) -> Seq<char> {
    let text = if trimmed(message_text(m.content)).len() == 0 {
        "provider returned an error without a message"@
    } else {
        message_text(m.content)
    };
    match m.error_message {
        Some(e) => if trimmed(e).len() > 0 {
            e
        } else {
            text
        },
        None => text,
    }
}

/// What a failed message says.
pub fn pi_ai_assistant_error_message(message: &AssistantMessage) -> (r: String)
    ensures
        r@ == failure_text(message@),
{
    if let Some(e) = &message.error_message {
        if !e.as_str().trim().is_empty() {
            return e.clone();
        }
    }
    let text = pi_ai_assistant_text(message);
    if text.as_str().trim().is_empty() {
        owned("provider returned an error without a message")
    } else {
        text
    }
}

/// The parts of a message as JSON.
#[derive(Debug, PartialEq, Eq)]
pub struct MessageJson {
    pub message: Json,
    pub content: Json,
    pub usage: Json,
    pub stop_reason: Json,
}

/// The answer to a completion request: the text alone, or everything.
pub open spec fn completion_response(
    m: AssistantMessageView,
    simple: bool,
    parts: MessageJson,
) -> JsonView {
    let text = message_text(m.content);
    if simple {
        JsonView::Text(text)
    } else {
        JsonView::Object(
            seq![
                ("message"@, parts.message@),
                ("content"@, parts.content@),
                ("text"@, JsonView::Text(text)),
                ("usage"@, parts.usage@),
                ("model"@, JsonView::Text(m.model)),
                ("provider"@, JsonView::Text(m.provider)),
                ("api"@, JsonView::Text(m.api)),
                ("stopReason"@, parts.stop_reason@),
            ],
        )
    }
}

/// The answer to a completion request.
pub fn pi_ai_completion_response(
    message: &AssistantMessage,
    simple: bool,
    parts: MessageJson,
) -> (r: Json)
    ensures
        r@ == completion_response(message@, simple, parts),
{
    let text = pi_ai_assistant_text(message);
    if simple {
        return Json::Text(text);
    }
    let mut fields: Vec<(String, Json)> = Vec::new();
    put_field(&mut fields, "message", parts.message);
    put_field(&mut fields, "content", parts.content);
    put_field(&mut fields, "text", Json::Text(text));
    put_field(&mut fields, "usage", parts.usage);
    put_field(&mut fields, "model", text_value(message.model.as_str()));
    put_field(&mut fields, "provider", text_value(message.provider.as_str()));
    put_field(&mut fields, "api", text_value(message.api.as_str()));
    put_field(&mut fields, "stopReason", parts.stop_reason);
    assert(field_views(fields@) =~= completion_response(message@, simple, parts)->Object_0);
    object(fields)
}

/// A completion while it streams.
#[derive(Debug, PartialEq, Eq)]
pub struct Completion {
    pub provider_name: String,
    pub streamed_text: String,
}

/// What a completion has come to.
#[derive(Debug, PartialEq, Eq)]
pub enum CompletionProgress {
    /// More is expected.
    Continue,
    /// The answer is complete.
    Done(AssistantMessage),
    /// There is no answer.
    Failed(Error),
}

/// The mathematical value of [`CompletionProgress`].
#[verifier::ext_equal]
pub enum CompletionProgressView {
    Continue,
    Done(AssistantMessageView),
    Failed(ErrorView),
}

impl View for CompletionProgress {
    type V = CompletionProgressView;

    open spec fn view(&self) -> CompletionProgressView {
        match *self {
            CompletionProgress::Continue => CompletionProgressView::Continue,
            CompletionProgress::Done(m) => CompletionProgressView::Done(m@),
            CompletionProgress::Failed(e) => CompletionProgressView::Failed(e@),
        }
    }
}

/// What is said of a stream that ended too early.
pub open spec fn early_end_text(streamed: Seq<char>) -> Seq<char> {
    let start = "pi-ai completion stream ended without Done event"@;
    if streamed.len() == 0 {
        start
    } else {
        start + " after streaming "@ + decimal(byte_len(streamed)) + " text bytes"@
    }
}

/// The text that has been streamed after an input.
pub open spec fn streamed_after(streamed: Seq<char>, input: StreamInputView) -> Seq<char> {
    match input {
        StreamInputView::Event(StreamEventView::TextDelta { delta, .. }) => streamed + delta,
        StreamInputView::Event(StreamEventView::TextEnd { content, .. }) => streamed + content,
        _ => streamed,
    }
}

/// What a completion has come to after an input.
pub open spec fn completion_progress(
    provider: Seq<char>,
    streamed: Seq<char>,
    input: StreamInputView,
) -> CompletionProgressView {
    match input {
        StreamInputView::Event(e) => match e {
            StreamEventView::Done { message, .. } => if message.stop_reason == StopReason::Error {
                CompletionProgressView::Failed(
                    ErrorView::Provider { provider, message: failure_text(message) },
                )
            } else {
                CompletionProgressView::Done(message)
            },
            StreamEventView::Error { error, .. } => CompletionProgressView::Failed(
                ErrorView::Provider { provider, message: failure_text(error) },
            ),
            _ => CompletionProgressView::Continue,
        },
        StreamInputView::Failed(text) => CompletionProgressView::Failed(
            ErrorView::Provider { provider, message: text },
        ),
        StreamInputView::Ended | StreamInputView::Cancelled => CompletionProgressView::Failed(
            ErrorView::Provider { provider, message: early_end_text(streamed) },
        ),
    }
}

impl Completion {
    /// A completion of which nothing has arrived.
    pub fn new(provider_name: String) -> (r: Self)
        ensures
            r.provider_name@ == provider_name@,
            r.streamed_text@ == Seq::<char>::empty(),
    {
        Completion { provider_name, streamed_text: String::new() }
    }

    /// Takes one step of a completion.
    pub fn step(&mut self, input: StreamInput) -> (r: CompletionProgress)
        ensures
            final(self).provider_name@ == old(self).provider_name@,
            final(self).streamed_text@ == streamed_after(old(self).streamed_text@, input@),
            r@ == completion_progress(
                old(self).provider_name@,
                old(self).streamed_text@,
                input@,
            ),
    {
        match input {
            StreamInput::Event(e) => match e {
                StreamEvent::TextDelta { delta, .. } => {
                    self.streamed_text.push_str(delta.as_str());
                    CompletionProgress::Continue
                },
                StreamEvent::TextEnd { content, .. } => {
                    self.streamed_text.push_str(content.as_str());
                    CompletionProgress::Continue
                },
                StreamEvent::Done { message, .. } => match message.stop_reason {
                    StopReason::Error => CompletionProgress::Failed(
                        Error::Provider {
                            provider: self.provider_name.clone(),
                            message: pi_ai_assistant_error_message(&message),
                        },
                    ),
                    _ => CompletionProgress::Done(message),
                },
                StreamEvent::Error { error, .. } => CompletionProgress::Failed(
                    Error::Provider {
                        provider: self.provider_name.clone(),
                        message: pi_ai_assistant_error_message(&error),
                    },
                ),
                _ => CompletionProgress::Continue,
            },
            StreamInput::Failed(text) => CompletionProgress::Failed(
                Error::Provider { provider: self.provider_name.clone(), message: text },
            ),
            StreamInput::Ended | StreamInput::Cancelled => {
                let mut message = owned("pi-ai completion stream ended without Done event");
                if !self.streamed_text.as_str().is_empty() {
                    message.push_str(" after streaming ");
                    message.push_str(
                        decimal_of(byte_length(self.streamed_text.as_str()) as u64).as_str(),
                    );
                    message.push_str(" text bytes");
                }
                CompletionProgress::Failed(
                    Error::Provider { provider: self.provider_name.clone(), message },
                )
            },
        }
    }
}

/// What a completion is asked of the provider with.
#[derive(Debug)]
pub struct CompletionStart {
    pub completion: Completion,
    pub stream_options: StreamOptions,
    pub context: CompletionContext,
}

/// The options and the context (its system prompt and its messages) with which the provider is asked,
/// or why it is not. The options are looked at first.
pub open spec fn completion_start(
    host: ExtensionAiCompletionHostStateView,
    options: JsonView,
    reading: Result<u32, Seq<char>>,
    context: JsonView,
    now: i64,
) -> Result<(StreamOptionsView, (Option<Seq<char>>, Seq<MessageView>)), ErrorView> {
    match options_error(options, reading) {
        Some(why) => Err(ErrorView::Validation(why)),
        None => match completion_context(context, now) {
            Ok(c) => Ok((applied_options(options, reading, host.stream_options), c)),
            Err(e) => Err(e),
        },
    }
}

impl ExtensionAiCompletionHostState {
    /// Starts a completion that an extension asks for, at the time `now`. `reading` is the requested
    /// temperature as a single-precision number, by its bit pattern, or why it is none.
    pub fn complete_ai_at(
        &self,
        options: &Json,
        reading: Result<u32, String>,
        context: &Json,
        now: i64,
    ) -> (r: Result<CompletionStart, Error>)
        ensures
            match completion_start(self@, options@, reading_view(reading), context@, now) {
                Ok(start) => {
                    &&& r is Ok
                    &&& r->Ok_0.stream_options@ == start.0
                    &&& opt_text(r->Ok_0.context.system_prompt) == start.1.0
                    &&& r->Ok_0.context.messages.deep_view() == start.1.1
                    &&& r->Ok_0.completion.provider_name@ == self@.provider.name
                    &&& r->Ok_0.completion.streamed_text@ == Seq::<char>::empty()
                },
                Err(e) => r is Err && r->Err_0@ == e,
            },
    {
        let mut stream_options = self.stream_options.clone();
        match apply_pi_ai_completion_options(options, reading, &mut stream_options) {
            Ok(_) => {},
            Err(e) => {
                return Err(e);
            },
        }
        match build_pi_ai_completion_context_at(context, now) {
            Ok(context) => Ok(
                CompletionStart {
                    completion: Completion::new(self.provider.name.clone()),
                    stream_options,
                    context,
                },
            ),
            Err(e) => Err(e),
        }
    }

    /// Starts a completion that an extension asks for, at the present time.
    pub fn complete_ai(&self, options: &Json, reading: Result<u32, String>, context: &Json) -> (r:
        Result<CompletionStart, Error>)
        ensures
            exists|now: i64|
                match #[trigger] completion_start(
                    self@,
                    options@,
                    reading_view(reading),
                    context@,
                    now,
                ) {
                    Ok(start) => {
                        &&& r is Ok
                        &&& r->Ok_0.stream_options@ == start.0
                        &&& opt_text(r->Ok_0.context.system_prompt) == start.1.0
                        &&& r->Ok_0.context.messages.deep_view() == start.1.1
                        &&& r->Ok_0.completion.provider_name@ == self@.provider.name
                        &&& r->Ok_0.completion.streamed_text@ == Seq::<char>::empty()
                    },
                    Err(e) => r is Err && r->Err_0@ == e,
                },
    {
        let now: i64 = now_millis();
        self.complete_ai_at(options, reading, context, now)
    }
}

/// The only model of a session without a catalogue.
pub open spec fn own_model(provider: ProviderIdentityView) -> JsonView {
    JsonView::Object(
        seq![
            ("id"@, JsonView::Text(provider.model_id)),
            ("name"@, JsonView::Text(provider.model_id)),
            ("api"@, JsonView::Text(provider.api)),
            ("provider"@, JsonView::Text(provider.name)),
        ],
    )
}

/// The models that extensions can ask for: the catalogue, or the session's own model.
pub fn list_ai_models(provider: &ProviderIdentity, models: &Vec<Json>) -> (r: Json)
    ensures
        r@ == JsonView::Array(
            if models@.len() == 0 {
                seq![own_model(provider@)]
            } else {
                models.deep_view()
            },
        ),
{
    if models.len() == 0 {
        let mut fields: Vec<(String, Json)> = Vec::new();
        put_field(&mut fields, "id", text_value(provider.model_id.as_str()));
        put_field(&mut fields, "name", text_value(provider.model_id.as_str()));
        put_field(&mut fields, "api", text_value(provider.api.as_str()));
        put_field(&mut fields, "provider", text_value(provider.name.as_str()));
        assert(field_views(fields@) =~= own_model(provider@)->Object_0);
        let mut one: Vec<Json> = Vec::new();
        one.push(object(fields));
        let r = Json::Array(one);
        assert(r@->Array_0 =~= seq![own_model(provider@)]);
        r
    } else {
        let mut all: Vec<Json> = Vec::new();
        let mut i: usize = 0;
        while i < models.len()
            invariant
                i <= models@.len(),
                all@.len() == i,
                forall|j: int| 0 <= j < i ==> (#[trigger] all@[j])@ == models@[j]@,
            decreases models@.len() - i,
        {
            all.push(models[i].clone());
            i += 1;
        }
        let r = Json::Array(all);
        assert(r@->Array_0 =~= models.deep_view());
        r
    }
}

/// What is known of a model of the catalogue.
#[derive(Debug, PartialEq, Eq)]
pub struct ModelRecord {
    pub id: String,
    pub name: String,
    pub api: String,
    pub provider: String,
    pub base_url: String,
    pub reasoning: bool,
    pub input: Json,
    pub cost: Json,
    pub context_window: u64,
    pub max_tokens: u64,
    pub auth_header: bool,
    pub has_credentials: bool,
}

/// A model of the catalogue as extensions see it.
pub open spec fn model_entry(m: ModelRecord) -> JsonView {
    JsonView::Object(
        seq![
            ("id"@, JsonView::Text(m.id@)),
            ("name"@, JsonView::Text(m.name@)),
            ("api"@, JsonView::Text(m.api@)),
            ("provider"@, JsonView::Text(m.provider@)),
            ("baseUrl"@, JsonView::Text(m.base_url@)),
            ("reasoning"@, JsonView::Bool(m.reasoning)),
            ("input"@, m.input@),
            ("cost"@, m.cost@),
            ("contextWindow"@, JsonView::Unsigned(m.context_window)),
            ("maxTokens"@, JsonView::Unsigned(m.max_tokens)),
            ("authHeader"@, JsonView::Bool(m.auth_header)),
            ("hasCredentials"@, JsonView::Bool(m.has_credentials)),
        ],
    )
}

/// A model of the catalogue as extensions see it.
pub fn pi_ai_model_entry_value(model: &ModelRecord) -> (r: Json)
    ensures
        r@ == model_entry(*model),
{
    let mut fields: Vec<(String, Json)> = Vec::new();
    put_field(&mut fields, "id", text_value(model.id.as_str()));
    put_field(&mut fields, "name", text_value(model.name.as_str()));
    put_field(&mut fields, "api", text_value(model.api.as_str()));
    put_field(&mut fields, "provider", text_value(model.provider.as_str()));
    put_field(&mut fields, "baseUrl", text_value(model.base_url.as_str()));
    put_field(&mut fields, "reasoning", Json::Bool(model.reasoning));
    put_field(&mut fields, "input", model.input.clone());
    put_field(&mut fields, "cost", model.cost.clone());
    put_field(&mut fields, "contextWindow", Json::Unsigned(model.context_window));
    put_field(&mut fields, "maxTokens", Json::Unsigned(model.max_tokens));
    put_field(&mut fields, "authHeader", Json::Bool(model.auth_header));
    put_field(&mut fields, "hasCredentials", Json::Bool(model.has_credentials));
    assert(field_views(fields@) =~= model_entry(*model)->Object_0);
    object(fields)
}

/// The models of a catalogue as extensions see them.
pub fn pi_ai_model_registry_values(models: &Vec<ModelRecord>) -> (r: Vec<Json>)
    ensures
        r.deep_view() == models@.map_values(|m: ModelRecord| model_entry(m)),
{
    let mut r: Vec<Json> = Vec::new();
    let mut i: usize = 0;
    while i < models.len()
        invariant
            i <= models@.len(),
            r@.len() == i,
            forall|j: int| 0 <= j < i ==> (#[trigger] r@[j])@ == model_entry(models@[j]),
        decreases models@.len() - i,
    {
        r.push(pi_ai_model_entry_value(&models[i]));
        i += 1;
    }
    assert(r.deep_view() =~= models@.map_values(|m: ModelRecord| model_entry(m)));
    r
}

/// A request is turned down exactly if its temperature or its token limit makes no sense, and a
/// request that is not turned down leaves a limit above zero.
pub proof fn accepted_options_are_sound(
    options: JsonView,
    reading: Result<u32, Seq<char>>,
    before: StreamOptionsView,
)
    requires
        options_error(options, reading) is None,
    ensures
        ({
            let after = applied_options(options, reading, before);
            &&& either_field(options, "maxTokens"@, "max_tokens"@) is Some
                ==> after.max_tokens is Some && after.max_tokens->Some_0 > 0
            &&& either_field(options, "maxTokens"@, "max_tokens"@) is None ==> after.max_tokens
                == before.max_tokens
            &&& either_field(options, "temperature"@, "temp"@) is Some
                ==> after.temperature is Some && is_valid_temperature(after.temperature->Some_0)
            &&& after.api_key == before.api_key
            &&& after.session_id == before.session_id
        }),
{
}

/// A context that is accepted holds a message.
pub proof fn accepted_context_has_a_message(request: JsonView, now: i64)
    ensures
        match completion_context(request, now) {
            Ok(c) => c.1.len() > 0,
            Err(e) => e is Validation,
        },
{
    let start = Collected { prompts: Seq::empty(), messages: Seq::empty(), error: None };
    match request {
        JsonView::Array(items) => lemma_errors_are_validation(start, items, now),
        JsonView::Object(fields) => {
            let system = match first_of_three(
                fields,
                "systemPrompt"@,
                "system_prompt"@,
                "system"@,
            ) {
                Some(s) => text_of(s),
                None => None,
            };
            let begun = match system {
                Some(text) => Collected { prompts: start.prompts.push(text), ..start },
                None => start,
            };
            if let Some(JsonView::Array(items)) = field_of(fields, "messages"@) {
                lemma_errors_are_validation(begun, items, now);
            }
        },
        _ => {},
    }
}

proof fn lemma_errors_are_validation(c: Collected, items: Seq<JsonView>, now: i64)
    requires
        c.error is None,
    ensures
        match c.with_messages(items, now).error {
            Some(e) => e is Validation,
            None => true,
        },
    decreases items.len(),
{
    if items.len() > 0 {
        lemma_errors_are_validation(c, items.drop_last(), now);
    }
}

} // verus!
