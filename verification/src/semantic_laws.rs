//! What holds of every prompt that is made from a semantic context bundle, and of the fields in it.
use vstd::prelude::*;

use crate::content::saturated;
use crate::semantic::{
    commands_section, drafted, exclusion_line, exclusions_section, header_lines, item_detail,
    item_line, items_section, line_fits, no_entries, no_stats, rendered, rendering_keeps_the_books,
    safe_char, safe_field, safe_field_after, ContextBundleExclusionView,
    ContextBundleItemView, PromptDraft, SemanticContextBundleInjectionView,
    SemanticContextBundleView, SemanticContextPromptBudget, SemanticContextPromptStats,
    MAX_FIELD_BYTES, MAX_LISTED_EXCLUSIONS,
};
use crate::text::{byte_len, lemma_encode_concat};

verus! {

/// A text made of lines, each with its line break.
pub open spec fn joined(lines: Seq<Seq<char>>) -> Seq<char>
    decreases lines.len(),
{
    if lines.len() == 0 {
        Seq::empty()
    } else {
        (joined(lines.drop_last()) + lines.last()).push('\n')
    }
}

/// Whether a list holds some of the entries of another, in their order.
pub open spec fn is_selection(some: Seq<Seq<char>>, all: Seq<Seq<char>>) -> bool
    decreases all.len(),
{
    if some.len() == 0 {
        true
    } else if all.len() == 0 {
        false
    } else {
        is_selection(some, all.drop_last()) || some.last() == all.last() && is_selection(
            some.drop_last(),
            all.drop_last(),
        )
    }
}

/// Whether a text is made of some of the given lines, whole and in their order.
pub open spec fn made_of(text: Seq<char>, all: Seq<Seq<char>>) -> bool {
    exists|some: Seq<Seq<char>>| text == joined(some) && #[trigger] is_selection(some, all)
}

/// The lines of the selected items from number `from` on.
pub open spec fn item_lines(items: Seq<ContextBundleItemView>, from: nat) -> Seq<Seq<char>>
    decreases items.len() - from,
{
    if from >= items.len() {
        Seq::empty()
    } else {
        seq![item_line(items[from as int], from + 1), item_detail(items[from as int])] + item_lines(
            items,
            from + 1,
        )
    }
}

/// The lines of the validation commands from number `from` on.
pub open spec fn command_lines(commands: Seq<Seq<char>>, from: nat) -> Seq<Seq<char>>
    decreases commands.len() - from,
{
    if from >= commands.len() {
        Seq::empty()
    } else {
        seq!["- "@ + safe_field(commands[from as int])] + command_lines(commands, from + 1)
    }
}

/// The lines of the exclusions from number `from` on, as many as prompts list.
pub open spec fn exclusion_lines(
    exclusions: Seq<ContextBundleExclusionView>,
    from: nat,
) -> Seq<Seq<char>>
    decreases exclusions.len() - from,
{
    if from >= exclusions.len() || from >= MAX_LISTED_EXCLUSIONS {
        Seq::empty()
    } else {
        seq![exclusion_line(exclusions[from as int])] + exclusion_lines(exclusions, from + 1)
    }
}

/// The lines of the section on selected items.
pub open spec fn items_section_lines(bundle: SemanticContextBundleView) -> Seq<Seq<char>> {
    seq![""@, "Selected context:"@] + if bundle.selected_items.len() == 0 {
        no_entries()
    } else {
        item_lines(bundle.selected_items, 0)
    }
}

/// The lines of the section on validation commands.
pub open spec fn commands_section_lines(injection: SemanticContextBundleInjectionView) -> Seq<
    Seq<char>,
> {
    if !injection.include_validation_commands {
        Seq::empty()
    } else {
        seq![""@, "Suggested validation commands:"@]
            + if injection.bundle.suggested_validation_commands.len() == 0 {
            no_entries()
        } else {
            command_lines(injection.bundle.suggested_validation_commands, 0)
        }
    }
}

/// The lines of the section on what was left out.
pub open spec fn exclusions_section_lines(injection: SemanticContextBundleInjectionView) -> Seq<
    Seq<char>,
> {
    let all = injection.bundle.stale_evidence_suppressions + injection.bundle.excluded_items;
    if !injection.include_exclusion_summary {
        Seq::empty()
    } else {
        seq![""@, "Suppressed or excluded context:"@] + if all.len() == 0 {
            no_entries()
        } else {
            exclusion_lines(all, 0)
        }
    }
}

/// All lines that a prompt would have if it had room for them.
pub open spec fn prompt_lines(
    injection: SemanticContextBundleInjectionView,
    revision: Seq<char>,
) -> Seq<Seq<char>> {
    header_lines(injection.bundle, revision) + items_section_lines(injection.bundle)
        + commands_section_lines(injection) + exclusions_section_lines(injection)
}

proof fn lemma_selection_of_more(some: Seq<Seq<char>>, all: Seq<Seq<char>>, more: Seq<Seq<char>>)
    requires
        is_selection(some, all),
    ensures
        is_selection(some, all + more),
    decreases more.len(),
{
    if more.len() == 0 {
        assert(all + more =~= all);
    } else {
        lemma_selection_of_more(some, all, more.drop_last());
        assert((all + more).drop_last() =~= all + more.drop_last());
    }
}

proof fn lemma_made_of_more(text: Seq<char>, all: Seq<Seq<char>>, more: Seq<Seq<char>>)
    requires
        made_of(text, all),
    ensures
        made_of(text, all + more),
{
    let some = choose|some: Seq<Seq<char>>|
        text == joined(some) && #[trigger] is_selection(some, all);
    lemma_selection_of_more(some, all, more);
}

proof fn lemma_made_with_line(
    d: PromptDraft,
    max_bytes: u64,
    line: Seq<char>,
    all: Seq<Seq<char>>,
)
    requires
        made_of(d.prompt, all),
    ensures
        made_of(d.with_line(max_bytes, line).prompt, all.push(line)),
{
    let some = choose|some: Seq<Seq<char>>|
        d.prompt == joined(some) && #[trigger] is_selection(some, all);
    assert(all.push(line).drop_last() =~= all);
    if line_fits(d.prompt, max_bytes, line) {
        let next = some.push(line);
        assert(next.drop_last() =~= some);
        assert(is_selection(next, all.push(line)));
    } else {
        assert(is_selection(some, all.push(line)));
    }
}

proof fn lemma_made_with_lines(
    d: PromptDraft,
    max_bytes: u64,
    lines: Seq<Seq<char>>,
    all: Seq<Seq<char>>,
)
    requires
        made_of(d.prompt, all),
    ensures
        made_of(d.with_lines(max_bytes, lines).prompt, all + lines),
    decreases lines.len(),
{
    if lines.len() == 0 {
        assert(all + lines =~= all);
    } else {
        lemma_made_with_lines(d, max_bytes, lines.drop_last(), all);
        lemma_made_with_line(
            d.with_lines(max_bytes, lines.drop_last()),
            max_bytes,
            lines.last(),
            all + lines.drop_last(),
        );
        assert((all + lines.drop_last()).push(lines.last()) =~= all + lines);
    }
}

proof fn lemma_made_with_items(
    d: PromptDraft,
    budget: SemanticContextPromptBudget,
    items: Seq<ContextBundleItemView>,
    from: nat,
    all: Seq<Seq<char>>,
)
    requires
        made_of(d.prompt, all),
    ensures
        made_of(d.with_items(budget, items, from).prompt, all + item_lines(items, from)),
    decreases items.len() - from,
{
    lemma_made_of_more(d.prompt, all, item_lines(items, from));
    if from < items.len() && from < budget.max_items {
        let line = item_line(items[from as int], from + 1);
        let detail = item_detail(items[from as int]);
        let rest = item_lines(items, from + 1);
        let one = d.with_line(budget.max_bytes, line);
        let two = one.with_line(budget.max_bytes, detail);
        lemma_made_with_line(d, budget.max_bytes, line, all);
        lemma_made_with_line(one, budget.max_bytes, detail, all.push(line));
        let both = all.push(line).push(detail);
        assert(both + rest =~= all + item_lines(items, from));
        lemma_made_of_more(two.prompt, both, rest);
        let counted = PromptDraft {
            stats: SemanticContextPromptStats {
                selected_items_included: saturated((two.stats.selected_items_included + 1) as nat),
                ..two.stats
            },
            ..two
        };
        lemma_made_with_items(counted, budget, items, from + 1, both);
    }
}

proof fn lemma_made_with_commands(
    d: PromptDraft,
    max_bytes: u64,
    commands: Seq<Seq<char>>,
    from: nat,
    all: Seq<Seq<char>>,
)
    requires
        made_of(d.prompt, all),
    ensures
        made_of(d.with_commands(max_bytes, commands, from).prompt, all + command_lines(commands, from)),
    decreases commands.len() - from,
{
    lemma_made_of_more(d.prompt, all, command_lines(commands, from));
    if from < commands.len() {
        let line = "- "@ + safe_field(commands[from as int]);
        let rest = command_lines(commands, from + 1);
        let next = d.with_line(max_bytes, line);
        lemma_made_with_line(d, max_bytes, line, all);
        assert(all.push(line) + rest =~= all + command_lines(commands, from));
        lemma_made_of_more(next.prompt, all.push(line), rest);
        let counted = PromptDraft {
            stats: SemanticContextPromptStats {
                validation_commands_included: saturated(
                    (next.stats.validation_commands_included + 1) as nat,
                ),
                ..next.stats
            },
            ..next
        };
        lemma_made_with_commands(counted, max_bytes, commands, from + 1, all.push(line));
    }
}

proof fn lemma_made_with_exclusions(
    d: PromptDraft,
    max_bytes: u64,
    exclusions: Seq<ContextBundleExclusionView>,
    total: int,
    from: nat,
    all: Seq<Seq<char>>,
)
    requires
        made_of(d.prompt, all),
    ensures
        made_of(
            d.with_exclusions(max_bytes, exclusions, total, from).prompt,
            all + exclusion_lines(exclusions, from),
        ),
    decreases exclusions.len() - from,
{
    lemma_made_of_more(d.prompt, all, exclusion_lines(exclusions, from));
    if from < exclusions.len() && from < MAX_LISTED_EXCLUSIONS {
        let line = exclusion_line(exclusions[from as int]);
        let rest = exclusion_lines(exclusions, from + 1);
        let next = d.with_line(max_bytes, line);
        lemma_made_with_line(d, max_bytes, line, all);
        assert(all.push(line) + rest =~= all + exclusion_lines(exclusions, from));
        lemma_made_of_more(next.prompt, all.push(line), rest);
        let counted = PromptDraft {
            stats: SemanticContextPromptStats {
                exclusions_included: saturated((next.stats.exclusions_included + 1) as nat),
                ..next.stats
            },
            ..next
        };
        lemma_made_with_exclusions(counted, max_bytes, exclusions, total, from + 1, all.push(line));
    }
}

proof fn lemma_items_section_made(
    d: PromptDraft,
    bundle: SemanticContextBundleView,
    budget: SemanticContextPromptBudget,
    all: Seq<Seq<char>>,
)
    requires
        made_of(d.prompt, all),
    ensures
        made_of(items_section(d, bundle, budget).prompt, all + items_section_lines(bundle)),
{
    let title = seq![""@, "Selected context:"@];
    let titled = d.with_lines(budget.max_bytes, title);
    let lines = item_lines(bundle.selected_items, 0);
    lemma_made_with_lines(d, budget.max_bytes, title, all);
    lemma_made_with_items(titled, budget, bundle.selected_items, 0, all + title);
    if bundle.selected_items.len() == 0 {
        let listed = titled.with_items(budget, bundle.selected_items, 0);
        assert(all + title + lines =~= all + title);
        lemma_made_with_lines(listed, budget.max_bytes, no_entries(), all + title);
        assert(all + title + no_entries() =~= all + items_section_lines(bundle));
    } else {
        assert(all + title + lines =~= all + items_section_lines(bundle));
    }
}

proof fn lemma_commands_section_made(
    d: PromptDraft,
    injection: SemanticContextBundleInjectionView,
    max_bytes: u64,
    all: Seq<Seq<char>>,
)
    requires
        made_of(d.prompt, all),
    ensures
        made_of(
            commands_section(d, injection, max_bytes).prompt,
            all + commands_section_lines(injection),
        ),
{
    let commands = injection.bundle.suggested_validation_commands;
    let title = seq![""@, "Suggested validation commands:"@];
    let begun = d.with_lines(max_bytes, title);
    if !injection.include_validation_commands {
        assert(all + commands_section_lines(injection) =~= all);
    } else {
        lemma_made_with_lines(d, max_bytes, title, all);
        if commands.len() == 0 {
            lemma_made_with_lines(begun, max_bytes, no_entries(), all + title);
            assert(all + title + no_entries() =~= all + commands_section_lines(injection));
        } else {
            lemma_made_with_commands(begun, max_bytes, commands, 0, all + title);
            assert(all + title + command_lines(commands, 0) =~= all + commands_section_lines(
                injection,
            ));
        }
    }
}

proof fn lemma_exclusions_section_made(
    d: PromptDraft,
    injection: SemanticContextBundleInjectionView,
    max_bytes: u64,
    all: Seq<Seq<char>>,
)
    requires
        made_of(d.prompt, all),
    ensures
        made_of(
            exclusions_section(d, injection, max_bytes).prompt,
            all + exclusions_section_lines(injection),
        ),
{
    let left_out = injection.bundle.stale_evidence_suppressions + injection.bundle.excluded_items;
    let title = seq![""@, "Suppressed or excluded context:"@];
    let begun = d.with_lines(max_bytes, title);
    if !injection.include_exclusion_summary {
        assert(all + exclusions_section_lines(injection) =~= all);
    } else {
        lemma_made_with_lines(d, max_bytes, title, all);
        if left_out.len() == 0 {
            lemma_made_with_lines(begun, max_bytes, no_entries(), all + title);
            assert(all + title + no_entries() =~= all + exclusions_section_lines(injection));
        } else {
            lemma_made_with_exclusions(
                begun,
                max_bytes,
                left_out,
                saturated(left_out.len()) as int,
                0,
                all + title,
            );
            assert(all + title + exclusion_lines(left_out, 0) =~= all + exclusions_section_lines(
                injection,
            ));
        }
    }
}

/// A prompt is made of whole lines: of the lines that it would have if it had room for all of them,
/// it holds some, in their order and none of them cut.
pub proof fn rendered_prompt_is_made_of_whole_lines(
    injection: SemanticContextBundleInjectionView,
    budget: SemanticContextPromptBudget,
    revision: Seq<char>,
)
    requires
        budget.max_bytes < usize::MAX,
        injection.bundle.selected_items.len() <= usize::MAX,
        injection.bundle.suggested_validation_commands.len() <= usize::MAX,
    ensures
        made_of(rendered(injection, budget, revision).prompt, prompt_lines(injection, revision)),
{
    rendering_keeps_the_books(injection, budget, revision);
    let max = budget.max_bytes;
    let none = Seq::<Seq<char>>::empty();
    let empty = PromptDraft { prompt: Seq::empty(), stats: no_stats() };
    assert(joined(none) == empty.prompt);
    assert(is_selection(none, none));
    let header = header_lines(injection.bundle, revision);
    lemma_made_with_lines(empty, max, header, none);
    assert(none + header =~= header);
    let head = empty.with_lines(max, header);
    lemma_items_section_made(head, injection.bundle, budget, header);
    let items = items_section(head, injection.bundle, budget);
    let one = header + items_section_lines(injection.bundle);
    lemma_commands_section_made(items, injection, max, one);
    let commands = commands_section(items, injection, max);
    lemma_exclusions_section_made(
        commands,
        injection,
        max,
        one + commands_section_lines(injection),
    );
    assert(rendered(injection, budget, revision) == drafted(injection, budget, revision));
}

proof fn lemma_char_bytes(shown: Seq<char>, c: char)
    ensures
        byte_len(shown) < byte_len(shown.push(c)) <= byte_len(shown) + 4,
{
    let last = seq![c];
    assert(shown.push(c) =~= shown + last);
    lemma_encode_concat(shown, last);
    assert(last.drop_first() =~= Seq::empty());
    assert(byte_len(last.drop_first()) == 0);
}

proof fn lemma_ellipsis_bytes(shown: Seq<char>)
    ensures
        byte_len(shown + "..."@) == byte_len(shown) + 3,
{
    reveal_strlit("...");
    lemma_encode_concat(shown, "..."@);
    assert(vstd::utf8::is_ascii_chars("..."@));
    vstd::utf8::is_ascii_chars_encode_utf8("..."@);
}

proof fn lemma_shown_bytes(shown: Seq<char>, rest: Seq<char>)
    requires
        byte_len(shown) < MAX_FIELD_BYTES,
    ensures
        byte_len(safe_field_after(shown, rest)) <= MAX_FIELD_BYTES + 6,
    decreases rest.len(),
{
    if rest.len() > 0 {
        let next = shown.push(safe_char(rest[0]));
        lemma_char_bytes(shown, safe_char(rest[0]));
        lemma_ellipsis_bytes(next);
        if byte_len(next) < MAX_FIELD_BYTES {
            lemma_shown_bytes(next, rest.drop_first());
        }
    }
}

/// What is shown of a field is bounded, however long the field is: 518 bytes at most, for 511 bytes,
/// one more character and the ellipsis.
pub proof fn shown_fields_are_bounded(value: Seq<char>)
    ensures
        byte_len(safe_field(value)) <= 518,
{
    assert(byte_len(Seq::<char>::empty()) == 0);
    lemma_shown_bytes(Seq::empty(), value);
}

proof fn lemma_shown_again(shown: Seq<char>, rest: Seq<char>)
    ensures
        ({
            let all = safe_field_after(shown, rest);
            &&& all.len() >= shown.len()
            &&& all.take(shown.len() as int) == shown
            &&& safe_field_after(shown, all.skip(shown.len() as int)) == all
        }),
    decreases rest.len(),
{
    let all = safe_field_after(shown, rest);
    let tail = all.skip(shown.len() as int);
    if rest.len() == 0 {
        assert(all.take(shown.len() as int) =~= shown);
        assert(tail =~= Seq::empty());
    } else {
        let c = safe_char(rest[0]);
        let next = shown.push(c);
        assert(safe_char(c) == c);
        if byte_len(next) >= MAX_FIELD_BYTES {
            assert(all == next + "..."@);
            assert(all.take(shown.len() as int) =~= shown);
            assert(tail[0] == c);
        } else {
            lemma_shown_again(next, rest.drop_first());
            assert(all.take(next.len() as int) == next);
            assert(all.take(shown.len() as int) =~= next.take(shown.len() as int));
            assert(next.take(shown.len() as int) =~= shown);
            assert(tail[0] == all.take(next.len() as int)[shown.len() as int]);
            assert(tail.drop_first() =~= all.skip(next.len() as int));
        }
    }
}

/// To show what is shown of a field changes nothing.
pub proof fn shown_fields_are_shown_as_they_are(value: Seq<char>)
    ensures
        safe_field(safe_field(value)) == safe_field(value),
{
    lemma_shown_again(Seq::empty(), value);
    assert(safe_field(value).skip(0) =~= safe_field(value));
}

proof fn lemma_clean_after(shown: Seq<char>, rest: Seq<char>)
    requires
        byte_len(shown + rest) < MAX_FIELD_BYTES,
        forall|i: int| 0 <= i < rest.len() ==> #[trigger] rest[i] == safe_char(rest[i]),
    ensures
        safe_field_after(shown, rest) == shown + rest,
    decreases rest.len(),
{
    if rest.len() == 0 {
        assert(shown + rest =~= shown);
    } else {
        let next = shown.push(rest[0]);
        let tail = rest.drop_first();
        assert(next + tail =~= shown + rest);
        lemma_encode_concat(next, tail);
        assert forall|i: int| 0 <= i < tail.len() implies #[trigger] tail[i] == safe_char(tail[i]) by {
            assert(tail[i] == rest[i + 1]);
        }
        lemma_clean_after(next, tail);
    }
}

/// A short field without control characters is shown as it is.
pub proof fn short_clean_fields_are_shown_as_they_are(value: Seq<char>)
    requires
        byte_len(value) < MAX_FIELD_BYTES,
        forall|i: int|
            0 <= i < value.len() ==> {
                let u = #[trigger] value[i] as u32;
                u >= 0x20 && !(0x7f <= u <= 0x9f)
            },
    ensures
        safe_field(value) == value,
{
    assert(Seq::<char>::empty() + value =~= value);
    assert forall|i: int| 0 <= i < value.len() implies #[trigger] value[i] == safe_char(value[i]) by {
        assert(value[i] as u32 >= 0x20);
    }
    lemma_clean_after(Seq::empty(), value);
}

} // verus!
