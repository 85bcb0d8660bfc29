//! What the values that everything else is made of promise: texts, JSON values, queues, effects of tools,
//! limits and failures.
use vstd::prelude::*;

use crate::effects::{is_batch_plan, joins_previous, ToolEffectBatch, ToolEffects};
use crate::error::ErrorView;
use crate::json::{field_of, inserted, text_or_null, Json, JsonView};
use crate::limits::{
    handoff_text, iteration_cap, positive_setting, tool_parallelism,
    MAX_AUTO_COMPATIBLE_TOOL_PARALLELISM, MAX_CONFIGURED_COMPATIBLE_TOOL_PARALLELISM,
    MAX_TOOL_ITERATIONS_CEILING, MAX_TOOL_ITERATIONS_DEFAULT, MIN_COMPATIBLE_TOOL_PARALLELISM,
};
use crate::model::MessageView;
use crate::queue::{
    MessageQueueView, QueueKind, QueueMode, QueuedMessageView, MAX_FOLLOW_UP_QUEUE_SIZE,
    MAX_STEERING_QUEUE_SIZE,
};
use crate::text::{
    decimal, digits_value, is_white_space, lemma_decimal_value, lower_hex, parsed_usize,
    signed_decimal, trimmed, trimmed_end, trimmed_start,
};

verus! {

/// Blanks, tabs and ends of lines are white space; visible characters of ASCII are not.
pub proof fn white_space_is_not_visible(c: char)
    ensures
        c == ' ' || c == '\t' || c == '\n' || c == '\r' ==> is_white_space(c),
        c as u32 == 0xa0 || c as u32 == 0x3000 || c as u32 == 0x2028 ==> is_white_space(c),
        0x21 <= c as u32 <= 0x7e ==> !is_white_space(c),
        is_white_space(c) ==> c as u32 <= 0x20 || 0x85 <= c as u32 <= 0x3000,
{
}

proof fn lemma_trim_start_of_longer(s: Seq<char>, c: char)
    ensures
        trimmed_start(s).len() > 0 ==> trimmed_start(s.push(c)) == trimmed_start(s).push(c),
        trimmed_start(s).len() == 0 && is_white_space(c) ==> trimmed_start(s.push(c)).len() == 0,
    decreases s.len(),
{
    let longer = s.push(c);
    if s.len() == 0 {
        assert(longer.drop_first() =~= Seq::empty());
        assert(trimmed_start(longer.drop_first()).len() == 0);
    } else {
        assert(longer.first() == s.first());
        assert(longer.drop_first() =~= s.drop_first().push(c));
        lemma_trim_start_of_longer(s.drop_first(), c);
    }
}

/// Trimming takes away white space at both ends, as much as there is, and nothing else.
pub proof fn trimming_takes_white_space_only(s: Seq<char>, c: char)
    ensures
        is_white_space(c) ==> trimmed(seq![c] + s) == trimmed(s),
        is_white_space(c) ==> trimmed(s.push(c)) == trimmed(s),
        s.len() > 0 && !is_white_space(s.first()) && !is_white_space(s.last()) ==> trimmed(s) == s,
        trimmed(Seq::empty()) == Seq::<char>::empty(),
{
    let before = seq![c] + s;
    assert(before.drop_first() =~= s);
    let after = s.push(c);
    lemma_trim_start_of_longer(s, c);
    let inner = trimmed_start(s);
    if is_white_space(c) {
        if inner.len() > 0 {
            assert(inner.push(c).drop_last() =~= inner);
            assert(trimmed_end(inner.push(c)) == trimmed_end(inner));
        } else {
            assert(trimmed_start(after) =~= inner);
        }
    }
    assert(trimmed_start(Seq::<char>::empty()) == Seq::<char>::empty());
}

/// A number is written with the digits of its decimal numeral, without a leading zero; the sign of a
/// negative one comes first.
pub proof fn numbers_are_written_in_full(n: nat)
    ensures
        digits_value(decimal(n)) == n,
        n > 0 ==> decimal(n)[0] != '0',
        decimal(n).len() > 0,
        forall|i: int|
            0 <= i < decimal(n).len() ==> 0x30 <= #[trigger] decimal(n)[i] as u32 && decimal(n)[i] as u32
                <= 0x39,
        signed_decimal(n as int) == decimal(n),
        n > 0 ==> signed_decimal(-(n as int)) == "-"@ + decimal(n),
    decreases n,
{
    lemma_decimal_value(n);
    assert forall|i: int| 0 <= i < decimal(n).len() implies 0x30 <= #[trigger] decimal(n)[i] as u32
        && decimal(n)[i] as u32 <= 0x39 by {
        assert(crate::text::is_digit(decimal(n)[i]));
    }
    if n >= 10 {
        numbers_are_written_in_full(n / 10);
    }
}

/// The value of digits grows by the factor ten with each further one.
pub proof fn digits_count_in_tens(s: Seq<char>, d: char)
    requires
        0x30 <= d as u32 <= 0x39,
    ensures
        digits_value(s.push(d)) == 10 * digits_value(s) + (d as u32 - 0x30),
        digits_value(Seq::empty()) == 0,
{
    assert(s.push(d).drop_last() =~= s);
}

/// Whether there are digits, and nothing else.
pub open spec fn digits_only(s: Seq<char>) -> bool {
    s.len() > 0 && forall|i: int|
        0 <= i < s.len() ==> 0x30 <= (#[trigger] s[i]) as u32 && s[i] as u32 <= 0x39
}

/// A text without a plus in front.
pub open spec fn behind_plus(s: Seq<char>) -> Seq<char> {
    if s.len() > 0 && s[0] == '+' {
        s.skip(1)
    } else {
        s
    }
}

/// A text is read as a number exactly if it is made of digits, up to a plus in front, and the number
/// fits; it is then the value of the digits.
pub proof fn only_digits_are_a_number(s: Seq<char>)
    ensures
        parsed_usize(s) is Some <==> digits_only(behind_plus(s)) && digits_value(behind_plus(s))
            <= usize::MAX,
        parsed_usize(s) matches Some(n) ==> n == digits_value(behind_plus(s)),
{
    let digits = behind_plus(s);
    assert(crate::text::without_plus(s) =~= digits);
    if digits_only(digits) {
        assert forall|i: int| 0 <= i < digits.len() implies crate::text::is_digit(
            #[trigger] digits[i],
        ) by {}
    }
    if crate::text::all_digits(digits) {
        assert forall|i: int| 0 <= i < digits.len() implies 0x30 <= (#[trigger] digits[i]) as u32
            && digits[i] as u32 <= 0x39 by {
            assert(crate::text::is_digit(digits[i]));
        }
    }
}

/// The value of a lower-case hexadecimal digit.
pub open spec fn hex_value(c: char) -> int {
    if '0' <= c && c <= '9' {
        c as u32 - '0' as u32
    } else {
        c as u32 - 'a' as u32 + 10
    }
}

/// Each byte is written as two lower-case hexadecimal digits, the greater one first, from which it can
/// be read back.
pub proof fn bytes_are_written_in_hex(bytes: Seq<u8>, b: u8)
    ensures
        ({
            let before = lower_hex(bytes);
            let after = lower_hex(bytes.push(b));
            let high = after[before.len() as int];
            let low = after[before.len() as int + 1];
            &&& after.len() == before.len() + 2
            &&& after.take(before.len() as int) == before
            &&& 0 <= hex_value(high) < 16
            &&& 0 <= hex_value(low) < 16
            &&& 16 * hex_value(high) + hex_value(low) == b
        }),
        lower_hex(Seq::empty()).len() == 0,
{
    assert(bytes.push(b).drop_last() =~= bytes);
    let before = lower_hex(bytes);
    assert(lower_hex(bytes.push(b)).take(before.len() as int) =~= before);
}

/// A field is looked up by its name, and the first one of the name counts.
pub proof fn first_field_of_a_name_counts(
    fields: Seq<(Seq<char>, JsonView)>,
    name: Seq<char>,
    i: int,
)
    requires
        0 <= i <= fields.len(),
        forall|j: int| 0 <= j < i ==> (#[trigger] fields[j]).0 != name,
        i < fields.len() ==> fields[i].0 == name,
    ensures
        i < fields.len() ==> field_of(fields, name) == Some(fields[i].1),
        i == fields.len() ==> field_of(fields, name) is None,
        i < fields.len() ==> JsonView::Object(fields).field(name) == Some(fields[i].1),
        i < fields.len() ==> inserted(fields, name, JsonView::Null) == fields.update(
            i,
            (name, JsonView::Null),
        ),
    decreases fields.len(),
{
    if i > 0 {
        let rest = fields.drop_first();
        assert forall|j: int| 0 <= j < i - 1 implies (#[trigger] rest[j]).0 != name by {
            assert(fields[j + 1].0 != name);
        }
        assert(fields[0].0 != name);
        first_field_of_a_name_counts(rest, name, i - 1);
        if i < fields.len() {
            assert(rest[i - 1] == fields[i]);
            assert(seq![fields[0]] + rest.update(i - 1, (name, JsonView::Null)) =~= fields.update(
                i,
                (name, JsonView::Null),
            ));
        }
    } else if fields.len() > 0 {
        assert(seq![(name, JsonView::Null)] + fields.drop_first() =~= fields.update(
            0,
            (name, JsonView::Null),
        ));
    }
}

/// Setting a field that is there changes its value in its place; setting one that is not adds it behind
/// the others.
pub proof fn setting_a_field_keeps_the_others(
    fields: Seq<(Seq<char>, JsonView)>,
    name: Seq<char>,
    value: JsonView,
    i: int,
)
    requires
        0 <= i <= fields.len(),
        forall|j: int| 0 <= j < i ==> (#[trigger] fields[j]).0 != name,
        i < fields.len() ==> fields[i].0 == name,
    ensures
        i < fields.len() ==> inserted(fields, name, value) == fields.update(i, (name, value)),
        i == fields.len() ==> inserted(fields, name, value) == fields.push((name, value)),
    decreases fields.len(),
{
    let after = inserted(fields, name, value);
    if i > 0 {
        let rest = fields.drop_first();
        assert forall|j: int| 0 <= j < i - 1 implies (#[trigger] rest[j]).0 != name by {
            assert(fields[j + 1].0 != name);
        }
        assert(fields[0].0 != name);
        if i < fields.len() {
            assert(rest[i - 1] == fields[i]);
        }
        setting_a_field_keeps_the_others(rest, name, value, i - 1);
        if i < fields.len() {
            assert(after =~= fields.update(i, (name, value)));
        } else {
            assert(after =~= fields.push((name, value)));
        }
    } else if fields.len() > 0 {
        assert(after =~= fields.update(0, (name, value)));
    } else {
        assert(after =~= fields.push((name, value)));
    }
}

/// A text field is a field that holds a text; only objects have fields. A text that is not there is
/// told as null.
pub proof fn text_fields_hold_texts(value: JsonView, name: Seq<char>, text: Option<Seq<char>>)
    ensures
        value.text_field(name) matches Some(t) ==> value.field(name) == Some(JsonView::Text(t)),
        value.field(name) matches Some(JsonView::Text(t)) ==> value.text_field(name) == Some(t),
        !(value is Object) ==> value.field(name) is None,
        text matches Some(t) ==> text_or_null(text) == JsonView::Text(t),
        text is None ==> text_or_null(text) == JsonView::Null,
{
}

/// The value of an array is that of its items, and that of an object that of its fields, in order.
pub proof fn values_are_made_of_values(items: Vec<Json>, fields: Vec<(String, Json)>, i: int)
    ensures
        Json::Array(items)@ is Array,
        Json::Array(items)@->Array_0.len() == items@.len(),
        0 <= i < items@.len() ==> Json::Array(items)@->Array_0[i] == items@[i]@,
        Json::Object(fields)@ is Object,
        Json::Object(fields)@->Object_0.len() == fields@.len(),
        0 <= i < fields@.len() ==> Json::Object(fields)@->Object_0[i] == (
            fields@[i].0@,
            fields@[i].1@,
        ),
{
}

/// A message joins its queue behind those that wait, under the next number; only where the queue is full
/// the oldest one gives way. The other queue stays as it is.
pub proof fn queued_messages_wait_in_line(q: MessageQueueView, message: MessageView)
    ensures
        ({
            let entry = QueuedMessageView { seq: q.next_seq, message };
            let next = q.pushed(QueueKind::Steering, message);
            &&& q.steering.len() < MAX_STEERING_QUEUE_SIZE ==> next.steering == q.steering.push(
                entry,
            )
            &&& q.steering.len() >= MAX_STEERING_QUEUE_SIZE ==> next.steering == q.steering.skip(
                1,
            ).push(entry)
            &&& next.follow_up == q.follow_up
            &&& next.steering_mode == q.steering_mode
            &&& next.follow_up_mode == q.follow_up_mode
        }),
        ({
            let entry = QueuedMessageView { seq: q.next_seq, message };
            let next = q.pushed(QueueKind::FollowUp, message);
            &&& q.follow_up.len() < MAX_FOLLOW_UP_QUEUE_SIZE ==> next.follow_up == q.follow_up.push(
                entry,
            )
            &&& q.follow_up.len() >= MAX_FOLLOW_UP_QUEUE_SIZE ==> next.follow_up == q.follow_up.skip(
                1,
            ).push(entry)
            &&& next.steering == q.steering
            &&& next.steering_mode == q.steering_mode
            &&& next.follow_up_mode == q.follow_up_mode
        }),
        forall|kind: QueueKind|
            q.next_seq < u64::MAX ==> (#[trigger] q.pushed(kind, message)).next_seq == q.next_seq + 1,
{
}

/// A queue delivers all that waits in it, or the first message only, as its mode says; the rest goes on
/// waiting, and the other queue is not touched.
pub proof fn queues_deliver_by_their_mode(q: MessageQueueView, i: int)
    ensures
        ({
            let due = q.next_delivery(QueueKind::Steering);
            let next = q.after_delivery(QueueKind::Steering);
            &&& q.steering_mode == QueueMode::All ==> {
                &&& due.len() == q.steering.len()
                &&& 0 <= i < due.len() ==> due[i] == q.steering[i].message
                &&& next.steering.len() == 0
            }
            &&& q.steering_mode == QueueMode::OneAtATime && q.steering.len() > 0 ==> {
                &&& due == seq![q.steering[0].message]
                &&& next.steering == q.steering.skip(1)
            }
            &&& q.steering.len() == 0 ==> due.len() == 0 && next.steering.len() == 0
            &&& next.follow_up == q.follow_up
            &&& next.steering_mode == q.steering_mode
            &&& next.follow_up_mode == q.follow_up_mode
            &&& next.next_seq == q.next_seq
        }),
        ({
            let due = q.next_delivery(QueueKind::FollowUp);
            let next = q.after_delivery(QueueKind::FollowUp);
            &&& q.follow_up_mode == QueueMode::All ==> {
                &&& due.len() == q.follow_up.len()
                &&& 0 <= i < due.len() ==> due[i] == q.follow_up[i].message
                &&& next.follow_up.len() == 0
            }
            &&& q.follow_up_mode == QueueMode::OneAtATime && q.follow_up.len() > 0 ==> {
                &&& due == seq![q.follow_up[0].message]
                &&& next.follow_up == q.follow_up.skip(1)
            }
            &&& q.follow_up.len() == 0 ==> due.len() == 0 && next.follow_up.len() == 0
            &&& next.steering == q.steering
            &&& next.steering_mode == q.steering_mode
            &&& next.follow_up_mode == q.follow_up_mode
            &&& next.next_seq == q.next_seq
        }),
{
}

/// Several messages join a queue one after the other.
pub proof fn messages_are_queued_one_by_one(
    q: MessageQueueView,
    kind: QueueKind,
    messages: Seq<MessageView>,
    m: MessageView,
)
    ensures
        q.pushed_all(kind, messages.push(m)) == q.pushed_all(kind, messages).pushed(kind, m),
        q.pushed_all(kind, Seq::empty()) == q,
{
    assert(messages.push(m).drop_last() =~= messages);
}

/// The names of the modes.
pub proof fn modes_are_named(q: QueueMode)
    ensures
        q == QueueMode::All ==> q.name() == "all"@,
        q == QueueMode::OneAtATime ==> q.name() == "one-at-a-time"@,
{
}

/// Tools may run side by side as long as they neither write nor append nor start a process. Effects
/// taken together are those of either.
pub proof fn only_harmless_effects_run_side_by_side(a: ToolEffects, b: ToolEffects)
    ensures
        a.writes ==> !a.is_parallel_safe(),
        a.appends ==> !a.is_parallel_safe(),
        a.process ==> !a.is_parallel_safe(),
        !a.writes && !a.appends && !a.process ==> a.is_parallel_safe(),
        a.joined(b).reads <==> a.reads || b.reads,
        a.joined(b).writes <==> a.writes || b.writes,
        a.joined(b).appends <==> a.appends || b.appends,
        a.joined(b).network <==> a.network || b.network,
        a.joined(b).process <==> a.process || b.process,
        a.joined(b).is_parallel_safe() <==> a.is_parallel_safe() && b.is_parallel_safe(),
{
}

/// Two neighbouring calls are in one batch exactly if neither writes, appends or starts a process.
pub proof fn batches_break_at_effects(
    effects: Seq<ToolEffects>,
    batches: Seq<ToolEffectBatch>,
    i: int,
    k: int,
)
    requires
        is_batch_plan(effects, batches, effects.len() as int),
        0 <= i < batches.len(),
        batches[i].start <= k - 1,
        k < effects.len(),
        k - 1 < batches[i].end,
    ensures
        k < batches[i].end <==> {
            let a = effects[k - 1];
            let b = effects[k];
            !a.writes && !a.appends && !a.process && !b.writes && !b.appends && !b.process
        },
{
    if k < batches[i].end {
        assert(joins_previous(effects, k));
    } else {
        assert(k == batches[i].end);
        if i == batches.len() - 1 {
            assert(batches.last() == batches[i]);
        } else {
            assert(batches[i + 1].start == batches[i].end);
            assert(!joins_previous(effects, batches[i + 1].start as int));
        }
    }
}

/// A cap on rounds that was asked for holds up to the ceiling; without one, and for none at all, the
/// default does.
pub proof fn caps_hold_as_asked(n: usize)
    ensures
        iteration_cap(None) == MAX_TOOL_ITERATIONS_DEFAULT,
        iteration_cap(Some(0)) == MAX_TOOL_ITERATIONS_DEFAULT,
        1 <= n <= MAX_TOOL_ITERATIONS_CEILING ==> iteration_cap(Some(n)) == n,
        n > MAX_TOOL_ITERATIONS_CEILING ==> iteration_cap(Some(n)) == MAX_TOOL_ITERATIONS_CEILING,
{
}

/// A setting counts if, up to white space around it, it is a number other than zero. As many tools run
/// side by side as the setting says, up to a maximum, and otherwise as many as the machine has room for,
/// within bounds.
pub proof fn settings_are_numbers(text: Seq<char>, host: usize)
    ensures
        positive_setting(None) is None,
        match parsed_usize(trimmed(text)) {
            Some(n) => {
                &&& n > 0 ==> positive_setting(Some(text)) == Some(n)
                &&& n == 0 ==> positive_setting(Some(text)) is None
                &&& 0 < n <= MAX_CONFIGURED_COMPATIBLE_TOOL_PARALLELISM ==> tool_parallelism(
                    Some(text),
                    host,
                ) == n
                &&& n > MAX_CONFIGURED_COMPATIBLE_TOOL_PARALLELISM ==> tool_parallelism(
                    Some(text),
                    host,
                ) == MAX_CONFIGURED_COMPATIBLE_TOOL_PARALLELISM
                &&& n == 0 ==> tool_parallelism(Some(text), host) == tool_parallelism(None, host)
            },
            None => {
                &&& positive_setting(Some(text)) is None
                &&& tool_parallelism(Some(text), host) == tool_parallelism(None, host)
            },
        },
        MIN_COMPATIBLE_TOOL_PARALLELISM <= host <= MAX_AUTO_COMPATIBLE_TOOL_PARALLELISM
            ==> tool_parallelism(None, host) == host,
        host < MIN_COMPATIBLE_TOOL_PARALLELISM ==> tool_parallelism(None, host)
            == MIN_COMPATIBLE_TOOL_PARALLELISM,
        host > MAX_AUTO_COMPATIBLE_TOOL_PARALLELISM ==> tool_parallelism(None, host)
            == MAX_AUTO_COMPATIBLE_TOOL_PARALLELISM,
{
}

/// The request to hand work over names the round and the cap.
pub proof fn handoff_names_round_and_cap(current: usize, max: usize)
    ensures
        ({
            let first = "[runtime] Tool-iteration budget at >=80% (used "@ + decimal(current as nat)
                + " of "@ + decimal(max as nat) + "). "@;
            &&& handoff_text(current, max).len() >= first.len()
            &&& handoff_text(current, max).take(first.len() as int) == first
        }),
{
    let tail = "). Per the iteration-aware-handoff protocol in your spec, begin graceful handoff now: commit current work, post a one-line status note, and write an incomplete-handoff envelope with what's done / what remains / next-agent starting position. Do NOT compress remaining work into the last few iterations."@;
    reveal_strlit(
        "). Per the iteration-aware-handoff protocol in your spec, begin graceful handoff now: commit current work, post a one-line status note, and write an incomplete-handoff envelope with what's done / what remains / next-agent starting position. Do NOT compress remaining work into the last few iterations.",
    );
    reveal_strlit("). ");
    let head = "[runtime] Tool-iteration budget at >=80% (used "@ + decimal(current as nat) + " of "@
        + decimal(max as nat);
    assert(handoff_text(current, max) == head + tail);
    assert(tail.take(3) =~= "). "@);
    assert((head + tail).take(head.len() as int + 3) =~= head + tail.take(3));
}

/// A failure tells what kind it is and then its message; one of no kind tells its message only.
pub proof fn failures_tell_their_kind(m: Seq<char>, provider: Seq<char>)
    ensures
        ErrorView::Api(m).text() == "API error: "@ + m,
        (ErrorView::Provider { provider, message: m }).text() == "Provider error: "@ + provider
            + ": "@ + m,
        ErrorView::Auth(m).text() == "Authentication error: "@ + m,
        ErrorView::Validation(m).text() == "Validation error: "@ + m,
        ErrorView::Session(m).text() == "Session error: "@ + m,
        ErrorView::Extension(m).text() == "Extension error: "@ + m,
        ErrorView::Other(m).text() == m,
{
}

} // verus!
