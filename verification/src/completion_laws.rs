//! What an extension gets that asks the model by itself: which options count, what the model is asked, and
//! how its answer is told.
use vstd::prelude::*;

use crate::agent::{ProviderIdentityView, StreamOptionsView};
use crate::error::ErrorView;
use crate::event::StreamEventView;
use crate::host::user_text_message;
use crate::json::{field_of, JsonView};
use crate::model::{AssistantMessageView, ContentBlockView, StopReason, UserContentView};
use crate::pi_ai::{
    applied_options, ascii_lower, completion_context, completion_progress, completion_response,
    completion_start, content_of, debug_text, either_field, failure_text, is_valid_temperature,
    joined_prompts, message_text, model_entry, options_error, own_model, role_of, streamed_after,
    text_of, texts_of, Collected, CompletionProgressView, MessageJson, ModelRecord,
};
use crate::selection::ExtensionAiCompletionHostStateView;
use crate::stream::StreamInputView;
use crate::text::{byte_len, decimal, trimmed};

verus! {

/// An option counts under its first name, and under its second one if it is not there under the first;
/// null is as if it were not there.
pub proof fn options_have_two_names(options: JsonView, first: Seq<char>, second: Seq<char>)
    ensures
        ({
            let found = either_field(options, first, second);
            &&& options.field(first) matches Some(v) ==> found == if v is Null {
                None
            } else {
                Some(v)
            }
            &&& options.field(first) is None ==> (options.field(second) matches Some(v) ==> found
                == if v is Null {
                None
            } else {
                Some(v)
            })
            &&& options.field(first) is None && options.field(second) is None ==> found is None
        }),
{
}

/// Options are refused exactly if there is a temperature that is no number from zero to two, or a bound on
/// tokens that is no positive number that fits; the temperature is looked at first.
pub proof fn bad_options_are_refused(options: JsonView, reading: Result<u32, Seq<char>>)
    ensures
        ({
            let warm = either_field(options, "temperature"@, "temp"@);
            let tokens = either_field(options, "maxTokens"@, "max_tokens"@);
            let error = options_error(options, reading);
            let bad_warmth = warm is Some && (reading is Err || !is_valid_temperature(
                reading->Ok_0,
            ));
            &&& warm is Some ==> (reading matches Err(why) ==> error == Some(
                "pi-ai completion temperature must be numeric: "@ + why,
            ))
            &&& warm is Some ==> (reading matches Ok(bits) && !is_valid_temperature(bits) ==> error
                == Some("pi-ai completion temperature must be between 0 and 2"@))
            &&& !bad_warmth ==> match tokens {
                None => error is None,
                Some(JsonView::Unsigned(n)) => {
                    &&& n == 0 ==> error == Some(
                        "pi-ai completion maxTokens must be greater than zero"@,
                    )
                    &&& n > u32::MAX ==> error == Some(
                        "pi-ai completion maxTokens exceeds u32::MAX"@,
                    )
                    &&& 0 < n <= u32::MAX ==> error is None
                },
                Some(_) => error == Some(
                    "pi-ai completion maxTokens must be an unsigned integer"@,
                ),
            }
        }),
{
}

/// Options that are accepted hold; those that are not given stay as they were.
pub proof fn accepted_options_hold(
    options: JsonView,
    reading: Result<u32, Seq<char>>,
    before: StreamOptionsView,
)
    requires
        options_error(options, reading) is None,
    ensures
        ({
            let after = applied_options(options, reading, before);
            let warm = either_field(options, "temperature"@, "temp"@);
            let tokens = either_field(options, "maxTokens"@, "max_tokens"@);
            &&& warm is Some ==> reading is Ok && after.temperature == Some(reading->Ok_0)
            &&& warm is None ==> after.temperature == before.temperature
            &&& tokens matches Some(v) ==> v is Unsigned && after.max_tokens == Some(
                v->Unsigned_0 as u32,
            )
            &&& tokens is None ==> after.max_tokens == before.max_tokens
            &&& after.api_key == before.api_key
            &&& after.headers == before.headers
            &&& after.session_id == before.session_id
            &&& after.thinking_level == before.thinking_level
        }),
{
}

/// The text of a value: of a text itself, of a list that of its items, of an object that of its text,
/// content or delta, the first that is there, and of a number or truth value what is written for it.
pub proof fn values_have_texts(items: Seq<JsonView>, more: JsonView)
    ensures
        text_of(JsonView::Null) is None,
        more matches JsonView::Text(s) ==> text_of(more) == Some(s),
        more matches JsonView::Bool(b) ==> text_of(more) == Some(
            if b {
                "true"@
            } else {
                "false"@
            },
        ),
        more matches JsonView::Unsigned(n) ==> text_of(more) == Some(decimal(n as nat)),
        more matches JsonView::Negative(n) ==> (n < 0 ==> text_of(more) == Some(
            "-"@ + decimal((-n) as nat),
        )),
        more matches JsonView::Fraction(s) ==> text_of(more) == Some(s),
        more matches JsonView::Array(inner) ==> text_of(more) == Some(texts_of(inner)),
        more matches JsonView::Object(fields) ==> {
            let text = field_of(fields, "text"@);
            let content = field_of(fields, "content"@);
            let delta = field_of(fields, "delta"@);
            &&& text matches Some(v) ==> text_of(more) == text_of(v)
            &&& text is None ==> (content matches Some(v) ==> text_of(more) == text_of(v))
            &&& text is None && content is None ==> (delta matches Some(v) ==> text_of(more)
                == text_of(v))
            &&& text is None && content is None && delta is None ==> text_of(more) is None
        },
        texts_of(Seq::empty()).len() == 0,
        text_of(more) matches Some(t) ==> texts_of(items.push(more)) == texts_of(items) + t,
        text_of(more) is None ==> texts_of(items.push(more)) == texts_of(items),
{
    reveal_with_fuel(text_of, 2);
    reveal_with_fuel(texts_of, 2);
    assert(items.push(more).drop_last() =~= items);
    assert(texts_of(items) + Seq::<char>::empty() =~= texts_of(items));
}

/// Lower case changes capital letters of ASCII and nothing else.
pub proof fn lower_case_changes_capitals_only(s: Seq<char>, i: int)
    requires
        0 <= i < s.len(),
    ensures
        ascii_lower(s).len() == s.len(),
        0x41 <= s[i] as u32 <= 0x5a ==> ascii_lower(s)[i] as u32 == s[i] as u32 + 0x20,
        !(0x41 <= s[i] as u32 <= 0x5a) ==> ascii_lower(s)[i] == s[i],
{
}

/// The role of a message is the one that it names, in lower case and without the white space around it, and
/// otherwise that of the user. Its text is that of its content, or of its text if it has no content.
pub proof fn messages_have_roles(v: JsonView)
    ensures
        v.field("role"@) matches Some(JsonView::Text(role)) ==> role_of(v) == ascii_lower(
            trimmed(role),
        ),
        !(v.field("role"@) matches Some(JsonView::Text(_))) ==> role_of(v) == "user"@,
        ({
            let found = if v.field("content"@) is Some {
                v.field("content"@)
            } else {
                v.field("text"@)
            };
            &&& found matches Some(c) ==> (text_of(c) matches Some(t) ==> content_of(v) == t)
            &&& found matches Some(c) ==> (text_of(c) is None ==> content_of(v).len() == 0)
            &&& found is None ==> content_of(v).len() == 0
        }),
{
    reveal_strlit("user");
    let s = "user"@;
    assert(s.len() == 4);
    assert(s[0] == 'u' && s[1] == 's' && s[2] == 'e' && s[3] == 'r');
    crate::base_laws::white_space_is_not_visible(s[0]);
    crate::base_laws::white_space_is_not_visible(s[3]);
    crate::base_laws::trimming_takes_white_space_only(s, ' ');
    assert(trimmed(s) == s);
    assert(ascii_lower(s) =~= s);
}

/// A message of a request is one of the user or of the model with its text, or a part of the system prompt,
/// unless that is blank. Any other role is an error, after which nothing is taken any more.
pub proof fn request_messages_are_taken_one_by_one(c: Collected, v: JsonView, now: i64)
    ensures
        ({
            let next = c.with_message(v, now);
            &&& c.error is Some ==> next == c
            &&& c.error is None && v is Object ==> {
                &&& role_of(v) == "user"@ && role_of(v) != "system"@ ==> {
                    &&& next.messages.len() == c.messages.len() + 1
                    &&& next.messages.take(c.messages.len() as int) == c.messages
                    &&& next.messages.last() is User
                    &&& next.messages.last()->User_0.content == UserContentView::Text(content_of(v))
                    &&& next.messages.last()->User_0.timestamp == now
                    &&& next.prompts == c.prompts
                    &&& next.error is None
                }
                &&& role_of(v) == "assistant"@ && role_of(v) != "system"@ && role_of(v) != "user"@
                    ==> {
                    &&& next.messages.len() == c.messages.len() + 1
                    &&& next.messages.take(c.messages.len() as int) == c.messages
                    &&& next.messages.last() is Assistant
                    &&& next.messages.last()->Assistant_0.content.len() == 1
                    &&& next.messages.last()->Assistant_0.content[0] is Text
                    &&& next.messages.last()->Assistant_0.content[0]->Text_0.text == content_of(v)
                    &&& next.messages.last()->Assistant_0.stop_reason == StopReason::Stop
                    &&& next.messages.last()->Assistant_0.timestamp == now
                    &&& next.prompts == c.prompts
                    &&& next.error is None
                }
                &&& role_of(v) == "system"@ ==> {
                    &&& next.messages == c.messages
                    &&& next.prompts == if trimmed(content_of(v)).len() > 0 {
                        c.prompts.push(content_of(v))
                    } else {
                        c.prompts
                    }
                    &&& next.error is None
                }
                &&& role_of(v) != "user"@ && role_of(v) != "assistant"@ && role_of(v) != "system"@
                    ==> {
                    &&& next.error == Some(
                        ErrorView::Validation(
                            "@mariozechner/pi-ai completion does not support "@ + debug_text(
                                role_of(v),
                            ) + " context messages"@,
                        ),
                    )
                    &&& next.messages == c.messages
                    &&& next.prompts == c.prompts
                }
            }
            &&& c.error is None && !(v is Object) ==> {
                &&& text_of(v) matches Some(t) ==> next.messages == c.messages.push(
                    user_text_message(t, now),
                )
                &&& text_of(v) is None ==> next.messages == c.messages
                &&& next.prompts == c.prompts
                &&& next.error is None
            }
        }),
{
    let next = c.with_message(v, now);
    if next.messages.len() == c.messages.len() + 1 {
        assert(next.messages.take(c.messages.len() as int) =~= c.messages);
    }
}

/// A list of messages is taken in order.
pub proof fn request_messages_keep_their_order(
    c: Collected,
    items: Seq<JsonView>,
    v: JsonView,
    now: i64,
)
    ensures
        c.with_messages(items.push(v), now) == c.with_messages(items, now).with_message(v, now),
        c.with_messages(Seq::empty(), now) == c,
{
    assert(items.push(v).drop_last() =~= items);
}

/// The first of three fields that is there.
pub open spec fn one_of_three(
    fields: Seq<(Seq<char>, JsonView)>,
    a: Seq<char>,
    b: Seq<char>,
    c: Seq<char>,
) -> Option<JsonView> {
    if field_of(fields, a) is Some {
        field_of(fields, a)
    } else if field_of(fields, b) is Some {
        field_of(fields, b)
    } else {
        field_of(fields, c)
    }
}

/// What a request holds: a text is one of the user, a list is its messages, and an object may hold a system
/// prompt and either messages, a prompt, or a single message.
pub proof fn requests_take_several_forms(c: Collected, request: JsonView, now: i64)
    requires
        c.error is None,
    ensures
        ({
            let next = c.with_context(request, now);
            &&& request is Null ==> next == c
            &&& request matches JsonView::Text(t) ==> next == (Collected {
                messages: c.messages.push(user_text_message(t, now)),
                ..c
            })
            &&& request matches JsonView::Array(items) ==> next == c.with_messages(items, now)
            &&& request matches JsonView::Object(fields) ==> {
                let system = one_of_three(fields, "systemPrompt"@, "system_prompt"@, "system"@);
                let prompt = one_of_three(fields, "prompt"@, "input"@, "message"@);
                let begun = if system is Some && text_of(system->Some_0) is Some {
                    Collected { prompts: c.prompts.push(text_of(system->Some_0)->Some_0), ..c }
                } else {
                    c
                };
                let listed = field_of(fields, "messages"@);
                &&& listed matches Some(JsonView::Array(items)) ==> next == begun.with_messages(
                    items,
                    now,
                )
                &&& !(listed matches Some(JsonView::Array(_))) && prompt is Some && text_of(
                    prompt->Some_0,
                ) is Some ==> next == (Collected {
                    messages: begun.messages.push(
                        user_text_message(text_of(prompt->Some_0)->Some_0, now),
                    ),
                    ..begun
                })
                &&& !(listed matches Some(JsonView::Array(_))) && (prompt is None || text_of(
                    prompt->Some_0,
                ) is None) ==> next == if field_of(fields, "role"@) is Some {
                    begun.with_message(request, now)
                } else {
                    begun
                }
            }
        }),
{
}

/// System prompts that are not blank are joined in order, with an empty line between them.
pub proof fn system_prompts_are_joined(prompts: Seq<Seq<char>>, p: Seq<char>)
    ensures
        joined_prompts(Seq::empty()).len() == 0,
        trimmed(p).len() == 0 ==> joined_prompts(prompts.push(p)) == joined_prompts(prompts),
        trimmed(p).len() > 0 && joined_prompts(prompts).len() == 0 ==> joined_prompts(
            prompts.push(p),
        ) == p,
        trimmed(p).len() > 0 && joined_prompts(prompts).len() > 0 ==> joined_prompts(
            prompts.push(p),
        ) == joined_prompts(prompts) + "\n\n"@ + p,
{
    assert(prompts.push(p).drop_last() =~= prompts);
    lemma_joined_is_empty_without_prompt(prompts);
}

proof fn lemma_joined_is_empty_without_prompt(prompts: Seq<Seq<char>>)
    ensures
        joined_prompts(prompts).len() > 0 <==> crate::pi_ai::has_prompt(prompts),
    decreases prompts.len(),
{
    if prompts.len() > 0 {
        lemma_joined_is_empty_without_prompt(prompts.drop_last());
        let last = prompts.last();
        if trimmed(last).len() > 0 {
            crate::base_laws::trimming_takes_white_space_only(last, ' ');
            if last.len() == 0 {
                assert(last =~= Seq::empty());
            }
        }
    }
}

/// A request is answered only if it holds a message and no unknown role; the model is then asked with all
/// its messages and, if there is one, with its system prompt.
pub proof fn requests_need_a_message(request: JsonView, now: i64)
    ensures
        ({
            let nothing = Collected { prompts: Seq::empty(), messages: Seq::empty(), error: None };
            let c = nothing.with_context(request, now);
            let r = completion_context(request, now);
            &&& c.error matches Some(e) ==> r is Err && r->Err_0 == e
            &&& c.error is None && c.messages.len() == 0 ==> r is Err && r->Err_0
                == ErrorView::Validation(
                "@mariozechner/pi-ai completion requires at least one user or assistant message"@,
            )
            &&& c.error is None && c.messages.len() > 0 ==> {
                &&& r is Ok
                &&& r->Ok_0.1 == c.messages
                &&& joined_prompts(c.prompts).len() > 0 ==> r->Ok_0.0 == Some(
                    joined_prompts(c.prompts),
                )
                &&& joined_prompts(c.prompts).len() == 0 ==> r->Ok_0.0 is None
            }
        }),
{
}

/// A completion starts only if its options and its context are in order; it asks with both.
pub proof fn completions_start_in_order(
    host: ExtensionAiCompletionHostStateView,
    options: JsonView,
    reading: Result<u32, Seq<char>>,
    context: JsonView,
    now: i64,
)
    ensures
        ({
            let r = completion_start(host, options, reading, context, now);
            let error = options_error(options, reading);
            let asked = completion_context(context, now);
            &&& error matches Some(why) ==> r is Err && r->Err_0 == ErrorView::Validation(why)
            &&& error is None ==> (asked matches Err(e) ==> r is Err && r->Err_0 == e)
            &&& error is None ==> (asked matches Ok(c) ==> {
                &&& r is Ok
                &&& r->Ok_0.0 == applied_options(options, reading, host.stream_options)
                &&& r->Ok_0.1 == c
            })
        }),
{
}

/// The text of an answer is that of its text blocks, in order.
pub proof fn answers_read_as_their_texts(blocks: Seq<ContentBlockView>, block: ContentBlockView)
    ensures
        message_text(Seq::empty()).len() == 0,
        block matches ContentBlockView::Text(t) ==> message_text(blocks.push(block))
            == message_text(blocks) + t.text,
        !(block is Text) ==> message_text(blocks.push(block)) == message_text(blocks),
{
    assert(blocks.push(block).drop_last() =~= blocks);
    assert(message_text(blocks) + Seq::<char>::empty() =~= message_text(blocks));
}

/// A failed answer says why with its error, with its text if that is blank, and with a word of its own if
/// both are.
pub proof fn failed_answers_say_why(m: AssistantMessageView)
    ensures
        ({
            let text = message_text(m.content);
            let told = m.error_message is Some && trimmed(m.error_message->Some_0).len() > 0;
            &&& told ==> failure_text(m) == m.error_message->Some_0
            &&& !told && trimmed(text).len() > 0 ==> failure_text(m) == text
            &&& !told && trimmed(text).len() == 0 ==> failure_text(m)
                == "provider returned an error without a message"@
        }),
{
}

/// An answer is told as its text alone where that was asked for, and otherwise with everything about it.
pub proof fn answers_are_told(m: AssistantMessageView, parts: MessageJson)
    ensures
        completion_response(m, true, parts) == JsonView::Text(message_text(m.content)),
        ({
            let told = completion_response(m, false, parts)->Object_0;
            &&& completion_response(m, false, parts) is Object
            &&& told.len() == 8
            &&& told[0] == ("message"@, parts.message@)
            &&& told[1] == ("content"@, parts.content@)
            &&& told[2] == ("text"@, JsonView::Text(message_text(m.content)))
            &&& told[3] == ("usage"@, parts.usage@)
            &&& told[4] == ("model"@, JsonView::Text(m.model))
            &&& told[5] == ("provider"@, JsonView::Text(m.provider))
            &&& told[6] == ("api"@, JsonView::Text(m.api))
            &&& told[7] == ("stopReason"@, parts.stop_reason@)
        }),
{
}

/// A completion goes on until the answer is complete, and then hands it over as it is. An answer that
/// failed, a stream that fails and one that ends early are failures of the provider, each with its text.
pub proof fn completions_end_with_the_answer(
    provider: Seq<char>,
    streamed: Seq<char>,
    input: StreamInputView,
)
    ensures
        ({
            let r = completion_progress(provider, streamed, input);
            &&& input matches StreamInputView::Event(e) ==> match e {
                StreamEventView::Done { message, .. } => {
                    &&& message.stop_reason != StopReason::Error ==> r
                        == CompletionProgressView::Done(message)
                    &&& message.stop_reason == StopReason::Error ==> r
                        == CompletionProgressView::Failed(
                        ErrorView::Provider { provider, message: failure_text(message) },
                    )
                },
                StreamEventView::Error { error, .. } => r == CompletionProgressView::Failed(
                    ErrorView::Provider { provider, message: failure_text(error) },
                ),
                _ => r == CompletionProgressView::Continue,
            }
            &&& input matches StreamInputView::Failed(text) ==> r == CompletionProgressView::Failed(
                ErrorView::Provider { provider, message: text },
            )
            &&& input is Ended || input is Cancelled ==> r == CompletionProgressView::Failed(
                ErrorView::Provider {
                    provider,
                    message: "pi-ai completion stream ended without Done event"@ + if streamed.len()
                        == 0 {
                        Seq::empty()
                    } else {
                        " after streaming "@ + decimal(byte_len(streamed)) + " text bytes"@
                    },
                },
            )
        }),
{
    let start = "pi-ai completion stream ended without Done event"@;
    assert(start + Seq::<char>::empty() =~= start);
    let n = decimal(byte_len(streamed));
    assert(start + (" after streaming "@ + n + " text bytes"@) =~= start + " after streaming "@ + n
        + " text bytes"@);
}

/// What was streamed so far grows with each piece of text, and with each text that ends, and with nothing
/// else.
pub proof fn streamed_text_grows(streamed: Seq<char>, input: StreamInputView)
    ensures
        match input {
            StreamInputView::Event(StreamEventView::TextDelta { delta, .. }) => streamed_after(
                streamed,
                input,
            ) == streamed + delta,
            StreamInputView::Event(StreamEventView::TextEnd { content, .. }) => streamed_after(
                streamed,
                input,
            ) == streamed + content,
            _ => streamed_after(streamed, input) == streamed,
        },
{
}

/// A temperature counts from zero to two, whatever the sign of zero.
pub proof fn temperatures_reach_from_zero_to_two(bits: u32)
    ensures
        is_valid_temperature(0),
        is_valid_temperature(0x8000_0000),
        is_valid_temperature(0x4000_0000),
        bits <= 0x4000_0000 ==> is_valid_temperature(bits),
        bits > 0x4000_0000 && bits != 0x8000_0000 ==> !is_valid_temperature(bits),
{
}

/// Extensions are told of each model with all that is known of it, and of the model in use.
pub proof fn models_are_told(m: ModelRecord, provider: ProviderIdentityView)
    ensures
        ({
            let told = model_entry(m)->Object_0;
            &&& model_entry(m) is Object
            &&& told.len() == 12
            &&& told[0] == ("id"@, JsonView::Text(m.id@))
            &&& told[1] == ("name"@, JsonView::Text(m.name@))
            &&& told[2] == ("api"@, JsonView::Text(m.api@))
            &&& told[3] == ("provider"@, JsonView::Text(m.provider@))
            &&& told[4] == ("baseUrl"@, JsonView::Text(m.base_url@))
            &&& told[5] == ("reasoning"@, JsonView::Bool(m.reasoning))
            &&& told[6] == ("input"@, m.input@)
            &&& told[7] == ("cost"@, m.cost@)
            &&& told[8] == ("contextWindow"@, JsonView::Unsigned(m.context_window))
            &&& told[9] == ("maxTokens"@, JsonView::Unsigned(m.max_tokens))
            &&& told[10] == ("authHeader"@, JsonView::Bool(m.auth_header))
            &&& told[11] == ("hasCredentials"@, JsonView::Bool(m.has_credentials))
        }),
        ({
            let told = own_model(provider)->Object_0;
            &&& own_model(provider) is Object
            &&& told.len() == 4
            &&& told[0] == ("id"@, JsonView::Text(provider.model_id))
            &&& told[1] == ("name"@, JsonView::Text(provider.model_id))
            &&& told[2] == ("api"@, JsonView::Text(provider.api))
            &&& told[3] == ("provider"@, JsonView::Text(provider.name))
        }),
{
}

} // verus!
