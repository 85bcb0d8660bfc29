//! How a bundle of context becomes a prompt: which lines it has, how much of it fits, where it goes and what
//! is recorded of it.
use vstd::prelude::*;
use vstd::utf8::encode_utf8;

use crate::agent::ProviderIdentityView;
use crate::json::JsonView;
use crate::semantic::{
    budget_record, bundle_record, commands_section, context_message, drafted, exclusion_line,
    exclusions_section, header_lines, identity_bytes, item_detail, item_line, items_section,
    line_fits, no_stats, prepared_prompt, prompt_budget, prompt_record, prompt_shape, provenance,
    provider_max_bytes, provider_max_items, provider_record, rendered, safe_char, safe_field,
    turn_system_prompt, ContextBundleExclusionView, ContextBundleItemView,
    PreparedSemanticContextPromptView, PromptDraft, SemanticContextBundleInjectionView,
    SemanticContextBundleView, SemanticContextPromptBudget, SemanticContextPromptShape,
    SemanticContextPromptStats, DEFAULT_SEMANTIC_CONTEXT_PROMPT_MAX_BYTES,
    DEFAULT_SEMANTIC_CONTEXT_PROMPT_MAX_ITEMS, MAX_LISTED_EXCLUSIONS,
    SEMANTIC_CONTEXT_CUSTOM_TYPE, SEMANTIC_CONTEXT_PROMPT_SCHEMA_V1,
    SEMANTIC_CONTEXT_PROVENANCE_SCHEMA_V1,
};
use crate::text::{byte_len, decimal, signed_decimal, trimmed};

verus! {

/// Providers that take no context message get the context with the system prompt.
pub proof fn shape_depends_on_the_provider(api: Seq<char>)
    ensures
        api == "gitlab-chat"@ ==> prompt_shape(api)
            == SemanticContextPromptShape::SystemPromptAppend,
        api == "bedrock-converse-stream"@ ==> prompt_shape(api)
            == SemanticContextPromptShape::SystemPromptAppend,
        api != "gitlab-chat"@ && api != "bedrock-converse-stream"@ ==> prompt_shape(api)
            == SemanticContextPromptShape::CustomUserMessage,
        SemanticContextPromptShape::SystemPromptAppend.name() == "system_prompt_append"@,
        SemanticContextPromptShape::CustomUserMessage.name() == "custom_user_message"@,
{
}

/// How much a provider takes.
pub proof fn providers_take_so_much(api: Seq<char>)
    ensures
        ({
            let small = api == "gitlab-chat"@;
            let middle = api == "bedrock-converse-stream"@ || api == "google-gemini"@ || api
                == "google-vertex"@;
            let wide = api == "openai-responses"@ || api == "openai-completions"@ || api
                == "azure-openai"@;
            &&& small ==> provider_max_bytes(api) == 8192 && provider_max_items(api) == 8
            &&& !small && middle ==> provider_max_bytes(api) == 12288 && provider_max_items(api)
                == 12
            &&& !small && !middle ==> provider_max_items(api)
                == DEFAULT_SEMANTIC_CONTEXT_PROMPT_MAX_ITEMS
            &&& !small && !middle && wide ==> provider_max_bytes(api) == 24576
            &&& !small && !middle && !wide && api == "anthropic"@ ==> provider_max_bytes(api)
                == 32768
            &&& !small && !middle && !wide && api != "anthropic"@ ==> provider_max_bytes(api)
                == DEFAULT_SEMANTIC_CONTEXT_PROMPT_MAX_BYTES
        }),
{
}

/// A budget is the least of what was asked for, what the bundle was made for and what the provider takes.
pub proof fn budget_is_the_least(api: Seq<char>, injection: SemanticContextBundleInjectionView)
    ensures
        ({
            let b = prompt_budget(api, injection);
            let own = injection.bundle.budget;
            &&& b.max_items <= injection.max_prompt_items
            &&& b.max_items <= own.max_items
            &&& b.max_items <= provider_max_items(api)
            &&& b.max_items == injection.max_prompt_items || b.max_items == own.max_items
                || b.max_items == provider_max_items(api)
            &&& b.max_bytes <= injection.max_prompt_bytes
            &&& b.max_bytes <= own.max_bytes
            &&& b.max_bytes <= provider_max_bytes(api)
            &&& b.max_bytes == injection.max_prompt_bytes || b.max_bytes == own.max_bytes
                || b.max_bytes == provider_max_bytes(api)
        }),
{
}

/// A bundle is known by its bytes, and where there are none by its schema, its fingerprint, the number of
/// its items and its size.
pub proof fn bundles_are_known_by_their_bytes(bundle: SemanticContextBundleView, bytes: Seq<u8>)
    ensures
        identity_bytes(bundle, Some(bytes)) == bytes,
        identity_bytes(bundle, None) == encode_utf8(
            bundle.schema + ":"@ + bundle.invalidation_policy.input_fingerprint_sha256 + ":"@
                + decimal(bundle.selected_items.len()) + ":"@ + decimal(
                bundle.estimated_bytes as nat,
            ),
        ),
{
}

/// A line is added whole if it fits with its end, and otherwise not at all, which is noted.
pub proof fn lines_are_added_whole(d: PromptDraft, max_bytes: u64, line: Seq<char>)
    requires
        byte_len(d.prompt) + byte_len(line) + 1 <= usize::MAX,
    ensures
        ({
            let next = d.with_line(max_bytes, line);
            let fits = byte_len(d.prompt) + byte_len(line) + 1 <= max_bytes;
            &&& line_fits(d.prompt, max_bytes, line) <==> fits
            &&& fits ==> next == (PromptDraft { prompt: (d.prompt + line).push('\n'), ..d })
            &&& !fits ==> next.prompt == d.prompt && next.stats == (SemanticContextPromptStats {
                truncated: true,
                ..d.stats
            })
        }),
{
}

/// Lines are added in order.
pub proof fn lines_are_added_in_order(
    d: PromptDraft,
    max_bytes: u64,
    lines: Seq<Seq<char>>,
    line: Seq<char>,
)
    ensures
        d.with_lines(max_bytes, lines.push(line)) == d.with_lines(max_bytes, lines).with_line(
            max_bytes,
            line,
        ),
        d.with_lines(max_bytes, Seq::empty()) == d,
{
    assert(lines.push(line).drop_last() =~= lines);
}

/// Items are told in order, each by two lines and only with both, until one does not fit or there are as
/// many as the budget allows; those left are counted.
pub proof fn items_are_told_in_order(
    d: PromptDraft,
    budget: SemanticContextPromptBudget,
    items: Seq<ContextBundleItemView>,
    from: nat,
)
    requires
        items.len() <= usize::MAX,
        d.stats.selected_items_included < usize::MAX,
        d.stats.selected_items_omitted == 0,
    ensures
        ({
            let r = d.with_items(budget, items, from);
            let max = budget.max_bytes;
            let line = item_line(items[from as int], from + 1);
            let detail = item_detail(items[from as int]);
            let one = d.with_line(max, line);
            let two = one.with_line(max, detail);
            let both = line_fits(d.prompt, max, line) && line_fits(one.prompt, max, detail);
            &&& from >= items.len() ==> r == d
            &&& from < items.len() && from >= budget.max_items ==> {
                &&& r.prompt == d.prompt
                &&& r.stats.selected_items_omitted == items.len() - from
                &&& r.stats.selected_items_included == d.stats.selected_items_included
            }
            &&& from < items.len() && from < budget.max_items && both ==> r == (PromptDraft {
                prompt: two.prompt,
                stats: SemanticContextPromptStats {
                    selected_items_included: (d.stats.selected_items_included + 1) as usize,
                    ..two.stats
                },
            }).with_items(budget, items, from + 1)
            &&& from < items.len() && from < budget.max_items && !both ==> {
                &&& r.stats.selected_items_omitted == items.len() - from
                &&& r.stats.selected_items_included == d.stats.selected_items_included
                &&& r.stats.truncated
                &&& r.prompt == if line_fits(d.prompt, max, line) {
                    one.prompt
                } else {
                    d.prompt
                }
            }
        }),
{
}

/// Commands are told in order, a line each, until one does not fit; those left are counted.
pub proof fn commands_are_told_in_order(
    d: PromptDraft,
    max_bytes: u64,
    commands: Seq<Seq<char>>,
    from: nat,
)
    requires
        commands.len() <= usize::MAX,
        d.stats.validation_commands_included < usize::MAX,
    ensures
        ({
            let r = d.with_commands(max_bytes, commands, from);
            let line = "- "@ + safe_field(commands[from as int]);
            let next = d.with_line(max_bytes, line);
            let fits = line_fits(d.prompt, max_bytes, line);
            &&& from >= commands.len() ==> r == d
            &&& from < commands.len() && fits ==> r == (PromptDraft {
                prompt: next.prompt,
                stats: SemanticContextPromptStats {
                    validation_commands_included: (d.stats.validation_commands_included
                        + 1) as usize,
                    ..next.stats
                },
            }).with_commands(max_bytes, commands, from + 1)
            &&& from < commands.len() && !fits ==> {
                &&& r.prompt == d.prompt
                &&& r.stats.validation_commands_omitted == commands.len() - from
                &&& r.stats.validation_commands_included == d.stats.validation_commands_included
                &&& r.stats.truncated
            }
        }),
{
}

/// What was left out is told in order, a line each, until one does not fit or as many are told as prompts
/// list.
pub proof fn exclusions_are_told_in_order(
    d: PromptDraft,
    max_bytes: u64,
    exclusions: Seq<ContextBundleExclusionView>,
    from: nat,
)
    requires
        exclusions.len() <= usize::MAX,
        d.stats.exclusions_included < usize::MAX,
    ensures
        ({
            let total = exclusions.len() as int;
            let r = d.with_exclusions(max_bytes, exclusions, total, from);
            let line = exclusion_line(exclusions[from as int]);
            let next = d.with_line(max_bytes, line);
            let fits = line_fits(d.prompt, max_bytes, line);
            let more = from < exclusions.len() && from < MAX_LISTED_EXCLUSIONS;
            &&& !more ==> r == d
            &&& more && fits ==> r == (PromptDraft {
                prompt: next.prompt,
                stats: SemanticContextPromptStats {
                    exclusions_included: (d.stats.exclusions_included + 1) as usize,
                    ..next.stats
                },
            }).with_exclusions(max_bytes, exclusions, total, from + 1)
            &&& more && !fits ==> {
                &&& r.prompt == d.prompt
                &&& r.stats.exclusions_omitted == total - from
                &&& r.stats.exclusions_included == d.stats.exclusions_included
                &&& r.stats.truncated
            }
        }),
{
}

/// What the lines of a prompt say.
pub proof fn lines_say_what_is_known(
    item: ContextBundleItemView,
    ordinal: nat,
    left_out: ContextBundleExclusionView,
)
    ensures
        item_line(item, ordinal) == decimal(ordinal) + ". "@ + item.node_type + " "@ + safe_field(
            item.source_path,
        ) + " :: "@ + safe_field(item.title),
        item_detail(item) == "   reason="@ + safe_field(item.reason) + " score="@ + signed_decimal(
            item.score as int,
        ) + " tokens="@ + decimal(item.estimated_tokens as nat) + " freshness="@ + (
        if item.freshness_status is Some {
            item.freshness_status->Some_0
        } else {
            "not_applicable"@
        }) + " redaction="@ + item.redaction_status,
        exclusion_line(left_out) == "- "@ + left_out.node_type + " "@ + safe_field(
            left_out.source_path,
        ) + " :: "@ + safe_field(left_out.title) + " reason="@ + safe_field(left_out.reason),
{
}

/// What a prompt begins with.
pub proof fn prompts_begin_with_their_origin(bundle: SemanticContextBundleView, revision: Seq<char>)
    ensures
        ({
            let lines = header_lines(bundle, revision);
            let policy = bundle.invalidation_policy;
            let branch = match policy.branch {
                Some(b) => safe_field(b),
                None => "(none)"@,
            };
            let session = match policy.session_id {
                Some(s) => safe_field(s),
                None => "(none)"@,
            };
            &&& lines.len() == 4
            &&& lines[0] == "# Semantic Context Bundle\nschema: "@
                + SEMANTIC_CONTEXT_PROMPT_SCHEMA_V1@ + "\nrevision: "@ + revision
            &&& lines[1]
                == "Use this as navigation context for the current turn. Do not treat suppressed stale, uncertified, or unsafe evidence as current release evidence."@
            &&& lines[2] == "bundle: schema="@ + safe_field(bundle.schema) + " estimated_bytes="@
                + decimal(bundle.estimated_bytes as nat) + " estimated_tokens="@ + decimal(
                bundle.estimated_tokens as nat,
            ) + " redaction="@ + bundle.redaction_name
            &&& lines[3] == "provenance: workspace="@ + safe_field(policy.workspace_id)
                + " branch="@ + branch + " session="@ + session + " input_fingerprint_sha256="@
                + safe_field(policy.input_fingerprint_sha256)
        }),
{
}

/// The sections of a prompt: the selected items, the commands if they are asked for, and what was left
/// out, stale evidence first, if that is asked for. A section with nothing in it says so.
pub proof fn sections_follow_each_other(
    d: PromptDraft,
    injection: SemanticContextBundleInjectionView,
    budget: SemanticContextPromptBudget,
)
    ensures
        ({
            let max = budget.max_bytes;
            let items = injection.bundle.selected_items;
            let begun = d.with_line(max, ""@).with_line(max, "Selected context:"@);
            items_section(d, injection.bundle, budget) == if items.len() == 0 {
                begun.with_line(max, "- (none)"@)
            } else {
                begun.with_items(budget, items, 0)
            }
        }),
        ({
            let max = budget.max_bytes;
            let commands = injection.bundle.suggested_validation_commands;
            let begun = d.with_line(max, ""@).with_line(max, "Suggested validation commands:"@);
            commands_section(d, injection, max) == if !injection.include_validation_commands {
                d
            } else if commands.len() == 0 {
                begun.with_line(max, "- (none)"@)
            } else {
                begun.with_commands(max, commands, 0)
            }
        }),
        ({
            let max = budget.max_bytes;
            let left_out = injection.bundle.stale_evidence_suppressions
                + injection.bundle.excluded_items;
            let begun = d.with_line(max, ""@).with_line(max, "Suppressed or excluded context:"@);
            left_out.len() <= usize::MAX ==> exclusions_section(d, injection, max)
                == if !injection.include_exclusion_summary {
                d
            } else if left_out.len() == 0 {
                begun.with_line(max, "- (none)"@)
            } else {
                begun.with_exclusions(max, left_out, left_out.len() as int, 0)
            }
        }),
{
    let max = budget.max_bytes;
    lemma_two_lines(d, max, ""@, "Selected context:"@);
    lemma_two_lines(d, max, ""@, "Suggested validation commands:"@);
    lemma_two_lines(d, max, ""@, "Suppressed or excluded context:"@);
    let begun = d.with_line(max, ""@).with_line(max, "Selected context:"@);
    lemma_one_line(begun, max, "- (none)"@);
    let commands = d.with_line(max, ""@).with_line(max, "Suggested validation commands:"@);
    lemma_one_line(commands, max, "- (none)"@);
    let exclusions = d.with_line(max, ""@).with_line(max, "Suppressed or excluded context:"@);
    lemma_one_line(exclusions, max, "- (none)"@);
    if injection.bundle.selected_items.len() == 0 {
        assert(begun.with_items(budget, injection.bundle.selected_items, 0) == begun);
    }
}

proof fn lemma_one_line(d: PromptDraft, max_bytes: u64, line: Seq<char>)
    ensures
        d.with_lines(max_bytes, seq![line]) == d.with_line(max_bytes, line),
{
    assert(seq![line] =~= Seq::<Seq<char>>::empty().push(line));
    lines_are_added_in_order(d, max_bytes, Seq::empty(), line);
}

proof fn lemma_two_lines(d: PromptDraft, max_bytes: u64, first: Seq<char>, second: Seq<char>)
    ensures
        d.with_lines(max_bytes, seq![first, second]) == d.with_line(max_bytes, first).with_line(
            max_bytes,
            second,
        ),
{
    assert(seq![first, second] =~= seq![first].push(second));
    lines_are_added_in_order(d, max_bytes, seq![first], second);
    lemma_one_line(d, max_bytes, first);
}

/// A prompt is its origin and its sections, one after the other, from nothing.
pub proof fn prompts_are_made_of_sections(
    injection: SemanticContextBundleInjectionView,
    budget: SemanticContextPromptBudget,
    revision: Seq<char>,
)
    ensures
        ({
            let nothing = PromptDraft { prompt: Seq::empty(), stats: no_stats() };
            let head = nothing.with_lines(
                budget.max_bytes,
                header_lines(injection.bundle, revision),
            );
            let items = items_section(head, injection.bundle, budget);
            let commands = commands_section(items, injection, budget.max_bytes);
            drafted(injection, budget, revision) == exclusions_section(
                commands,
                injection,
                budget.max_bytes,
            )
        }),
        no_stats() == (SemanticContextPromptStats {
            selected_items_included: 0,
            selected_items_omitted: 0,
            validation_commands_included: 0,
            validation_commands_omitted: 0,
            exclusions_included: 0,
            exclusions_omitted: 0,
            truncated: false,
        }),
{
}

/// Characters that end lines or columns are shown as blanks, other control characters as question marks,
/// and all others as they are.
pub proof fn control_characters_are_shown_harmlessly(c: char)
    ensures
        c == '\n' || c == '\r' || c == '\t' ==> safe_char(c) == ' ',
        c != '\n' && c != '\r' && c != '\t' && ((c as u32) < 0x20 || 0x7f <= c as u32 <= 0x9f)
            ==> safe_char(c) == '?',
        0x20 <= (c as u32) && (c as u32) < 0x7f || (c as u32) > 0x9f ==> safe_char(c) == c,
{
}

/// A prompt is attached if that is asked for and it is not blank; it is the rendered one, in the shape that
/// the provider takes, under the revision of its bundle and with a record of where it came from.
pub proof fn prompts_are_attached_if_asked_for(
    provider: ProviderIdentityView,
    injection: SemanticContextBundleInjectionView,
    revision: Seq<char>,
)
    ensures
        ({
            let draft = rendered(injection, prompt_budget(provider.api, injection), revision);
            let r = prepared_prompt(provider, injection, revision);
            &&& r is Some <==> injection.enabled && trimmed(draft.prompt).len() > 0
            &&& r matches Some(p) ==> {
                &&& p.prompt == draft.prompt
                &&& p.revision == revision
                &&& p.shape == prompt_shape(provider.api)
                &&& p.details == provenance(provider, injection, revision, draft)
            }
        }),
{
}

/// A prompt goes to the model once: in a message that is shown, or with the system prompt and a message that
/// only says so and is not shown.
pub proof fn prompts_go_to_the_model_once(
    p: PreparedSemanticContextPromptView,
    base: Option<Seq<char>>,
    now: i64,
)
    ensures
        ({
            let m = context_message(p, now);
            let prompt = turn_system_prompt(base, Some(p));
            &&& m is Custom
            &&& m->Custom_0.custom_type == SEMANTIC_CONTEXT_CUSTOM_TYPE@
            &&& m->Custom_0.details == Some(p.details)
            &&& m->Custom_0.timestamp == now
            &&& p.shape == SemanticContextPromptShape::CustomUserMessage ==> {
                &&& m->Custom_0.content == p.prompt
                &&& m->Custom_0.display
                &&& prompt == base
            }
            &&& p.shape == SemanticContextPromptShape::SystemPromptAppend ==> {
                &&& m->Custom_0.content == "Semantic context bundle revision "@ + p.revision
                    + " attached to system prompt."@
                &&& !m->Custom_0.display
                &&& base is Some && base->Some_0.len() > 0 ==> prompt == Some(
                    base->Some_0 + "\n\n"@ + p.prompt,
                )
                &&& base is None || base->Some_0.len() == 0 ==> prompt == Some(p.prompt)
            }
        }),
        turn_system_prompt(base, None) == base,
{
}

/// What is recorded of a prompt: its bundle and revision, the provider, the budget, what the prompt holds
/// and what the bundle held.
pub proof fn origin_is_recorded(
    provider: ProviderIdentityView,
    injection: SemanticContextBundleInjectionView,
    revision: Seq<char>,
    draft: PromptDraft,
)
    ensures
        ({
            let told = provenance(provider, injection, revision, draft)->Object_0;
            let budget = prompt_budget(provider.api, injection);
            &&& provenance(provider, injection, revision, draft) is Object
            &&& told.len() == 7
            &&& told[0] == ("schema"@, JsonView::Text(SEMANTIC_CONTEXT_PROVENANCE_SCHEMA_V1@))
            &&& told[1] == ("bundleSchema"@, JsonView::Text(injection.bundle.schema))
            &&& told[2] == ("bundleRevision"@, JsonView::Text(revision))
            &&& told[3] == ("provider"@, provider_record(provider))
            &&& told[4] == ("budget"@, budget_record(injection, budget))
            &&& told[5] == ("prompt"@, prompt_record(draft))
            &&& told[6] == ("bundle"@, bundle_record(injection.bundle))
        }),
        ({
            let told = provider_record(provider)->Object_0;
            &&& provider_record(provider) is Object
            &&& told.len() == 4
            &&& told[0] == ("name"@, JsonView::Text(provider.name))
            &&& told[1] == ("api"@, JsonView::Text(provider.api))
            &&& told[2] == ("model"@, JsonView::Text(provider.model_id))
            &&& told[3] == ("promptShape"@, JsonView::Text(prompt_shape(provider.api).name()))
        }),
{
}

/// What is recorded of the budget and of what a prompt holds.
pub proof fn budget_and_contents_are_recorded(
    injection: SemanticContextBundleInjectionView,
    budget: SemanticContextPromptBudget,
    draft: PromptDraft,
)
    ensures
        ({
            let told = budget_record(injection, budget)->Object_0;
            &&& budget_record(injection, budget) is Object
            &&& told.len() == 4
            &&& told[0] == (
                "requestedMaxItems"@,
                JsonView::Unsigned(injection.max_prompt_items as u64),
            )
            &&& told[1] == ("requestedMaxBytes"@, JsonView::Unsigned(injection.max_prompt_bytes))
            &&& told[2] == ("effectiveMaxItems"@, JsonView::Unsigned(budget.max_items as u64))
            &&& told[3] == ("effectiveMaxBytes"@, JsonView::Unsigned(budget.max_bytes))
        }),
        ({
            let told = prompt_record(draft)->Object_0;
            let s = draft.stats;
            &&& prompt_record(draft) is Object
            &&& told.len() == 8
            &&& told[0] == ("bytes"@, JsonView::Unsigned(byte_len(draft.prompt) as u64))
            &&& told[1] == (
                "selectedItemsIncluded"@,
                JsonView::Unsigned(s.selected_items_included as u64),
            )
            &&& told[2] == (
                "selectedItemsOmitted"@,
                JsonView::Unsigned(s.selected_items_omitted as u64),
            )
            &&& told[3] == (
                "validationCommandsIncluded"@,
                JsonView::Unsigned(s.validation_commands_included as u64),
            )
            &&& told[4] == (
                "validationCommandsOmitted"@,
                JsonView::Unsigned(s.validation_commands_omitted as u64),
            )
            &&& told[5] == (
                "exclusionsIncluded"@,
                JsonView::Unsigned(s.exclusions_included as u64),
            )
            &&& told[6] == ("exclusionsOmitted"@, JsonView::Unsigned(s.exclusions_omitted as u64))
            &&& told[7] == ("truncated"@, JsonView::Bool(s.truncated))
        }),
{
}

/// What is recorded of a bundle.
pub proof fn bundles_are_recorded(bundle: SemanticContextBundleView)
    ensures
        ({
            let told = bundle_record(bundle)->Object_0;
            let policy = bundle.invalidation_policy;
            &&& bundle_record(bundle) is Object
            &&& told.len() == 11
            &&& told[0] == (
                "selectedItems"@,
                JsonView::Unsigned(bundle.selected_items.len() as u64),
            )
            &&& told[1] == (
                "excludedItems"@,
                JsonView::Unsigned(bundle.excluded_items.len() as u64),
            )
            &&& told[2] == (
                "staleEvidenceSuppressions"@,
                JsonView::Unsigned(bundle.stale_evidence_suppressions.len() as u64),
            )
            &&& told[3] == ("estimatedBytes"@, JsonView::Unsigned(bundle.estimated_bytes))
            &&& told[4] == ("estimatedTokens"@, JsonView::Unsigned(bundle.estimated_tokens))
            &&& told[5] == ("redactionStatus"@, bundle.redaction_value)
            &&& told[6] == (
                "inputFingerprintSha256"@,
                JsonView::Text(policy.input_fingerprint_sha256),
            )
            &&& told[7] == ("cacheable"@, JsonView::Bool(policy.cacheable))
            &&& told[8] == ("workspaceId"@, JsonView::Text(policy.workspace_id))
            &&& told[9].0 == "branch"@
            &&& policy.branch matches Some(b) ==> told[9].1 == JsonView::Text(b)
            &&& policy.branch is None ==> told[9].1 == JsonView::Null
            &&& told[10].0 == "sessionId"@
            &&& policy.session_id matches Some(s) ==> told[10].1 == JsonView::Text(s)
            &&& policy.session_id is None ==> told[10].1 == JsonView::Null
        }),
{
}

} // verus!
