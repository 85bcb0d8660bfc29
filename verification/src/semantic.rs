//! The semantic context bundle: how it is rendered into a prompt of bounded size and attached to a
//! turn.
use sha2::{Digest, Sha256};
use vstd::prelude::*;

use crate::agent::{ProviderIdentity, ProviderIdentityView};
use crate::content::saturated;
use crate::json::{
    field_views, object, opt_text_value, put_field, text_or_null, text_value, Json, JsonView,
};
use crate::model::{CustomMessage, CustomMessageView, Message, MessageView};
use crate::text::{
    byte_len, byte_length, chars_of, clone_opt_text, decimal, decimal_of, lemma_encode_concat,
    lower_hex, lower_hex_of, opt_text, owned, same_text, signed_decimal, signed_decimal_of, trimmed,
};
use vstd::utf8::encode_utf8;

verus! {

/// Schema identifier of a rendered prompt.
pub const SEMANTIC_CONTEXT_PROMPT_SCHEMA_V1: &'static str = "pi.semantic_context_prompt.v1";

/// Schema identifier of the provenance of a rendered prompt.
pub const SEMANTIC_CONTEXT_PROVENANCE_SCHEMA_V1: &'static str = "pi.semantic_context_provenance.v1";

/// The type of the message that carries a bundle.
pub const SEMANTIC_CONTEXT_CUSTOM_TYPE: &'static str = "semantic_context_bundle";

/// Most bytes of a rendered prompt, unless something else is asked for.
pub const DEFAULT_SEMANTIC_CONTEXT_PROMPT_MAX_BYTES: u64 = 16 * 1024;

/// Most items of a rendered prompt, unless something else is asked for.
pub const DEFAULT_SEMANTIC_CONTEXT_PROMPT_MAX_ITEMS: usize = 16;

/// Most exclusions that a rendered prompt names.
pub const MAX_LISTED_EXCLUSIONS: usize = 8;

/// Most bytes of a field before it is cut short.
pub const MAX_FIELD_BYTES: usize = 512;

/// Something that the bundle offers. Kinds and states are held by name.
#[derive(Debug, PartialEq, Eq)]
pub struct ContextBundleItem {
    pub node_type: String,
    pub source_path: String,
    pub title: String,
    pub reason: String,
    pub score: i64,
    pub estimated_tokens: u64,
    pub freshness_status: Option<String>,
    pub redaction_status: String,
}

/// The mathematical value of [`ContextBundleItem`].
#[verifier::ext_equal]
pub struct ContextBundleItemView {
    pub node_type: Seq<char>,
    pub source_path: Seq<char>,
    pub title: Seq<char>,
    pub reason: Seq<char>,
    pub score: i64,
    pub estimated_tokens: u64,
    pub freshness_status: Option<Seq<char>>,
    pub redaction_status: Seq<char>,
}

impl View for ContextBundleItem {
    type V = ContextBundleItemView;

    open spec fn view(&self) -> ContextBundleItemView {
        ContextBundleItemView {
            node_type: self.node_type@,
            source_path: self.source_path@,
            title: self.title@,
            reason: self.reason@,
            score: self.score,
            estimated_tokens: self.estimated_tokens,
            freshness_status: opt_text(self.freshness_status),
            redaction_status: self.redaction_status@,
        }
    }
}

impl DeepView for ContextBundleItem {
    type V = ContextBundleItemView;

    open spec fn deep_view(&self) -> ContextBundleItemView {
        self@
    }
}

/// Something that the bundle leaves out.
#[derive(Debug, PartialEq, Eq)]
pub struct ContextBundleExclusion {
    pub node_type: String,
    pub source_path: String,
    pub title: String,
    pub reason: String,
}

/// The mathematical value of [`ContextBundleExclusion`].
#[verifier::ext_equal]
pub struct ContextBundleExclusionView {
    pub node_type: Seq<char>,
    pub source_path: Seq<char>,
    pub title: Seq<char>,
    pub reason: Seq<char>,
}

impl View for ContextBundleExclusion {
    type V = ContextBundleExclusionView;

    open spec fn view(&self) -> ContextBundleExclusionView {
        ContextBundleExclusionView {
            node_type: self.node_type@,
            source_path: self.source_path@,
            title: self.title@,
            reason: self.reason@,
        }
    }
}

impl DeepView for ContextBundleExclusion {
    type V = ContextBundleExclusionView;

    open spec fn deep_view(&self) -> ContextBundleExclusionView {
        self@
    }
}

/// How much a bundle may hold.
#[derive(Debug, Clone, Copy, PartialEq, Eq, Structural)]
pub struct ContextBundleBudget {
    pub max_items: usize,
    pub max_bytes: u64,
}

/// What a bundle was made for.
#[derive(Debug, PartialEq, Eq)]
pub struct ContextBundleInvalidationPolicy {
    pub workspace_id: String,
    pub branch: Option<String>,
    pub session_id: Option<String>,
    pub input_fingerprint_sha256: String,
    pub cacheable: bool,
}

/// The mathematical value of [`ContextBundleInvalidationPolicy`].
#[verifier::ext_equal]
pub struct ContextBundleInvalidationPolicyView {
    pub workspace_id: Seq<char>,
    pub branch: Option<Seq<char>>,
    pub session_id: Option<Seq<char>>,
    pub input_fingerprint_sha256: Seq<char>,
    pub cacheable: bool,
}

impl View for ContextBundleInvalidationPolicy {
    type V = ContextBundleInvalidationPolicyView;

    open spec fn view(&self) -> ContextBundleInvalidationPolicyView {
        ContextBundleInvalidationPolicyView {
            workspace_id: self.workspace_id@,
            branch: opt_text(self.branch),
            session_id: opt_text(self.session_id),
            input_fingerprint_sha256: self.input_fingerprint_sha256@,
            cacheable: self.cacheable,
        }
    }
}

impl DeepView for ContextBundleInvalidationPolicy {
    type V = ContextBundleInvalidationPolicyView;

    open spec fn deep_view(&self) -> ContextBundleInvalidationPolicyView {
        self@
    }
}

/// What is offered to the model as navigation context. The state of redaction is held by name, as
/// prompts show it, and as a JSON value.
#[derive(Debug, PartialEq, Eq)]
pub struct SemanticContextBundle {
    pub schema: String,
    pub budget: ContextBundleBudget,
    pub selected_items: Vec<ContextBundleItem>,
    pub excluded_items: Vec<ContextBundleExclusion>,
    pub stale_evidence_suppressions: Vec<ContextBundleExclusion>,
    pub redaction_name: String,
    pub redaction_value: Json,
    pub invalidation_policy: ContextBundleInvalidationPolicy,
    pub suggested_validation_commands: Vec<String>,
    pub estimated_bytes: u64,
    pub estimated_tokens: u64,
}

/// The mathematical value of [`SemanticContextBundle`].
#[verifier::ext_equal]
pub struct SemanticContextBundleView {
    pub schema: Seq<char>,
    pub budget: ContextBundleBudget,
    pub selected_items: Seq<ContextBundleItemView>,
    pub excluded_items: Seq<ContextBundleExclusionView>,
    pub stale_evidence_suppressions: Seq<ContextBundleExclusionView>,
    pub redaction_name: Seq<char>,
    pub redaction_value: JsonView,
    pub invalidation_policy: ContextBundleInvalidationPolicyView,
    pub suggested_validation_commands: Seq<Seq<char>>,
    pub estimated_bytes: u64,
    pub estimated_tokens: u64,
}

/// The characters of several texts.
pub open spec fn texts(v: Seq<String>) -> Seq<Seq<char>> {
    v.map_values(|s: String| s@)
}

impl View for SemanticContextBundle {
    type V = SemanticContextBundleView;

    open spec fn view(&self) -> SemanticContextBundleView {
        SemanticContextBundleView {
            schema: self.schema@,
            budget: self.budget,
            selected_items: self.selected_items.deep_view(),
            excluded_items: self.excluded_items.deep_view(),
            stale_evidence_suppressions: self.stale_evidence_suppressions.deep_view(),
            redaction_name: self.redaction_name@,
            redaction_value: self.redaction_value@,
            invalidation_policy: self.invalidation_policy@,
            suggested_validation_commands: texts(self.suggested_validation_commands@),
            estimated_bytes: self.estimated_bytes,
            estimated_tokens: self.estimated_tokens,
        }
    }
}

/// A bundle and how it is attached to the turns of a session.
#[derive(Debug, PartialEq, Eq)]
pub struct SemanticContextBundleInjection {
    pub enabled: bool,
    pub bundle: SemanticContextBundle,
    pub max_prompt_items: usize,
    pub max_prompt_bytes: u64,
    pub include_exclusion_summary: bool,
    pub include_validation_commands: bool,
}

/// The mathematical value of [`SemanticContextBundleInjection`].
#[verifier::ext_equal]
pub struct SemanticContextBundleInjectionView {
    pub enabled: bool,
    pub bundle: SemanticContextBundleView,
    pub max_prompt_items: usize,
    pub max_prompt_bytes: u64,
    pub include_exclusion_summary: bool,
    pub include_validation_commands: bool,
}

impl View for SemanticContextBundleInjection {
    type V = SemanticContextBundleInjectionView;

    open spec fn view(&self) -> SemanticContextBundleInjectionView {
        SemanticContextBundleInjectionView {
            enabled: self.enabled,
            bundle: self.bundle@,
            max_prompt_items: self.max_prompt_items,
            max_prompt_bytes: self.max_prompt_bytes,
            include_exclusion_summary: self.include_exclusion_summary,
            include_validation_commands: self.include_validation_commands,
        }
    }
}

impl DeepView for SemanticContextBundleInjection {
    type V = SemanticContextBundleInjectionView;

    open spec fn deep_view(&self) -> SemanticContextBundleInjectionView {
        self@
    }
}

/// The lesser of two numbers.
pub open spec fn lesser(a: int, b: int) -> int {
    if a <= b {
        a
    } else {
        b
    }
}

fn lesser_usize(a: usize, b: usize) -> (r: usize)
    ensures
        r == lesser(a as int, b as int),
{
    if a <= b {
        a
    } else {
        b
    }
}

fn lesser_u64(a: u64, b: u64) -> (r: u64)
    ensures
        r == lesser(a as int, b as int),
{
    if a <= b {
        a
    } else {
        b
    }
}

impl SemanticContextBundleInjection {
    /// Attaches a bundle, within the bundle's own budget and the defaults.
    pub fn enabled(bundle: SemanticContextBundle) -> (r: Self)
        ensures
            r@ == (SemanticContextBundleInjectionView {
                enabled: true,
                bundle: bundle@,
                max_prompt_items: lesser(
                    bundle@.budget.max_items as int,
                    DEFAULT_SEMANTIC_CONTEXT_PROMPT_MAX_ITEMS as int,
                ) as usize,
                max_prompt_bytes: lesser(
                    bundle@.budget.max_bytes as int,
                    DEFAULT_SEMANTIC_CONTEXT_PROMPT_MAX_BYTES as int,
                ) as u64,
                include_exclusion_summary: true,
                include_validation_commands: true,
            }),
    {
        let max_prompt_items: usize = lesser_usize(
            bundle.budget.max_items,
            DEFAULT_SEMANTIC_CONTEXT_PROMPT_MAX_ITEMS,
        );
        let max_prompt_bytes: u64 = lesser_u64(
            bundle.budget.max_bytes,
            DEFAULT_SEMANTIC_CONTEXT_PROMPT_MAX_BYTES,
        );
        SemanticContextBundleInjection {
            enabled: true,
            bundle,
            max_prompt_items,
            max_prompt_bytes,
            include_exclusion_summary: true,
            include_validation_commands: true,
        }
    }

    /// Holds a bundle without attaching it.
    pub fn disabled(bundle: SemanticContextBundle) -> (r: Self)
        ensures
            r@ == (SemanticContextBundleInjectionView {
                enabled: false,
                bundle: bundle@,
                max_prompt_items: DEFAULT_SEMANTIC_CONTEXT_PROMPT_MAX_ITEMS,
                max_prompt_bytes: DEFAULT_SEMANTIC_CONTEXT_PROMPT_MAX_BYTES,
                include_exclusion_summary: true,
                include_validation_commands: true,
            }),
    {
        SemanticContextBundleInjection {
            enabled: false,
            bundle,
            max_prompt_items: DEFAULT_SEMANTIC_CONTEXT_PROMPT_MAX_ITEMS,
            max_prompt_bytes: DEFAULT_SEMANTIC_CONTEXT_PROMPT_MAX_BYTES,
            include_exclusion_summary: true,
            include_validation_commands: true,
        }
    }

    /// The same injection under another budget.
    pub fn with_prompt_budget(self, max_items: usize, max_bytes: u64) -> (r: Self)
        ensures
            r@ == (SemanticContextBundleInjectionView {
                max_prompt_items: max_items,
                max_prompt_bytes: max_bytes,
                ..self@
            }),
    {
        SemanticContextBundleInjection {
            enabled: self.enabled,
            bundle: self.bundle,
            max_prompt_items: max_items,
            max_prompt_bytes: max_bytes,
            include_exclusion_summary: self.include_exclusion_summary,
            include_validation_commands: self.include_validation_commands,
        }
    }
}

/// How a rendered prompt reaches the model.
#[derive(Debug, Clone, Copy, PartialEq, Eq, Structural)]
pub enum SemanticContextPromptShape {
    CustomUserMessage,
    SystemPromptAppend,
}

impl SemanticContextPromptShape {
    /// The name of the shape in provenance records.
    pub open spec fn name(self) -> Seq<char> {
        match self {
            SemanticContextPromptShape::CustomUserMessage => "custom_user_message"@,
            SemanticContextPromptShape::SystemPromptAppend => "system_prompt_append"@,
        }
    }

    /// The name of the shape in provenance records.
    pub fn as_str(self) -> (r: &'static str)
        ensures
            r@ == self.name(),
    {
        match self {
            SemanticContextPromptShape::CustomUserMessage => "custom_user_message",
            SemanticContextPromptShape::SystemPromptAppend => "system_prompt_append",
        }
    }
}

/// The shape for a provider: two of them take no context messages.
pub open spec fn prompt_shape(api: Seq<char>) -> SemanticContextPromptShape {
    if api == "bedrock-converse-stream"@ || api == "gitlab-chat"@ {
        SemanticContextPromptShape::SystemPromptAppend
    } else {
        SemanticContextPromptShape::CustomUserMessage
    }
}

/// The shape for a provider.
pub fn semantic_context_prompt_shape_for_provider(api: &str) -> (r: SemanticContextPromptShape)
    ensures
        r == prompt_shape(api@),
{
    if same_text(api, "bedrock-converse-stream") || same_text(api, "gitlab-chat") {
        SemanticContextPromptShape::SystemPromptAppend
    } else {
        SemanticContextPromptShape::CustomUserMessage
    }
}

/// How much a rendered prompt may hold.
#[derive(Debug, Clone, Copy, PartialEq, Eq, Structural)]
pub struct SemanticContextPromptBudget {
    pub max_items: usize,
    pub max_bytes: u64,
}

/// Most bytes that a provider takes.
pub open spec fn provider_max_bytes(api: Seq<char>) -> u64 {
    if api == "gitlab-chat"@ {
        8192
    } else if api == "bedrock-converse-stream"@ || api == "google-gemini"@ || api
        == "google-vertex"@ {
        12288
    } else if api == "openai-responses"@ || api == "openai-completions"@ || api
        == "azure-openai"@ {
        24576
    } else if api == "anthropic"@ {
        32768
    } else {
        DEFAULT_SEMANTIC_CONTEXT_PROMPT_MAX_BYTES
    }
}

/// Most items that a provider takes.
pub open spec fn provider_max_items(api: Seq<char>) -> usize {
    if api == "gitlab-chat"@ {
        8
    } else if api == "bedrock-converse-stream"@ || api == "google-gemini"@ || api
        == "google-vertex"@ {
        12
    } else {
        DEFAULT_SEMANTIC_CONTEXT_PROMPT_MAX_ITEMS
    }
}

/// The budget for a provider: the least of what is asked for, what the bundle was made for and what
/// the provider takes.
pub open spec fn prompt_budget(
    api: Seq<char>,
    injection: SemanticContextBundleInjectionView,
) -> SemanticContextPromptBudget {
    SemanticContextPromptBudget {
        max_items: lesser(
            lesser(
                injection.max_prompt_items as int,
                injection.bundle.budget.max_items as int,
            ),
            provider_max_items(api) as int,
        ) as usize,
        max_bytes: lesser(
            lesser(
                injection.max_prompt_bytes as int,
                injection.bundle.budget.max_bytes as int,
            ),
            provider_max_bytes(api) as int,
        ) as u64,
    }
}

/// The budget for a provider.
pub fn semantic_context_prompt_budget_for_provider(
    api: &str,
    injection: &SemanticContextBundleInjection,
) -> (r: SemanticContextPromptBudget)
    ensures
        r == prompt_budget(api@, injection@),
{
    let gitlab = same_text(api, "gitlab-chat");
    let small = same_text(api, "bedrock-converse-stream") || same_text(api, "google-gemini")
        || same_text(api, "google-vertex");
    let openai = same_text(api, "openai-responses") || same_text(api, "openai-completions")
        || same_text(api, "azure-openai");
    let max_bytes: u64 = if gitlab {
        8192
    } else if small {
        12288
    } else if openai {
        24576
    } else if same_text(api, "anthropic") {
        32768
    } else {
        DEFAULT_SEMANTIC_CONTEXT_PROMPT_MAX_BYTES
    };
    let max_items: usize = if gitlab {
        8
    } else if small {
        12
    } else {
        DEFAULT_SEMANTIC_CONTEXT_PROMPT_MAX_ITEMS
    };
    SemanticContextPromptBudget {
        max_items: lesser_usize(
            lesser_usize(injection.max_prompt_items, injection.bundle.budget.max_items),
            max_items,
        ),
        max_bytes: lesser_u64(
            lesser_u64(injection.max_prompt_bytes, injection.bundle.budget.max_bytes),
            max_bytes,
        ),
    }
}

/// What the SHA-256 function of the `sha2` crate gives for a sequence of bytes.
pub uninterp spec fn sha256(bytes: Seq<u8>) -> Seq<u8>;

/// Calls `sha2::Sha256::digest`, which gives thirty-two bytes that depend on its input alone.
#[verifier::external_body]
fn sha256_digest(bytes: &[u8]) -> (r: Vec<u8>)
    ensures
        r@ == sha256(bytes@),
        r@.len() == 32,
{
    Sha256::digest(bytes).to_vec()
}

/// What stands for a bundle that cannot be serialised.
pub open spec fn fallback_identity(bundle: SemanticContextBundleView) -> Seq<char> {
    bundle.schema + ":"@ + bundle.invalidation_policy.input_fingerprint_sha256 + ":"@ + decimal(
        bundle.selected_items.len(),
    ) + ":"@ + decimal(bundle.estimated_bytes as nat)
}

/// The bytes that identify a bundle: its serialised form, or the fallback.
pub open spec fn identity_bytes(
    bundle: SemanticContextBundleView,
    serialized: Option<Seq<u8>>,
) -> Seq<u8> {
    match serialized {
        Some(bytes) => bytes,
        None => encode_utf8(fallback_identity(bundle)),
    }
}

/// The revision of a bundle: the SHA-256 digest of the bytes that identify it, in hexadecimal.
/// `serialized` is the bundle as JSON, if it could be serialised.
pub fn semantic_context_bundle_revision(
    bundle: &SemanticContextBundle,
    serialized: Option<&[u8]>,
) -> (r: String)
    ensures
        r@ == lower_hex(
            sha256(
                identity_bytes(
                    bundle@,
                    match serialized {
                        Some(bytes) => Some(bytes@),
                        None => None,
                    },
                ),
            ),
        ),
        r@.len() == 64,
{
    let digest = match serialized {
        Some(bytes) => sha256_digest(bytes),
        None => {
            let mut text = bundle.schema.clone();
            text.push_str(":");
            text.push_str(bundle.invalidation_policy.input_fingerprint_sha256.as_str());
            text.push_str(":");
            text.push_str(decimal_of(bundle.selected_items.len() as u64).as_str());
            text.push_str(":");
            text.push_str(decimal_of(bundle.estimated_bytes).as_str());
            sha256_digest(text.as_str().as_bytes())
        },
    };
    proof {
        crate::text::lower_hex_has_two_digits_per_byte(digest@);
    }
    lower_hex_of(&digest)
}

/// What a rendered prompt holds and what it had to leave out.
#[derive(Debug, Clone, Copy, PartialEq, Eq, Structural)]
pub struct SemanticContextPromptStats {
    pub selected_items_included: usize,
    pub selected_items_omitted: usize,
    pub validation_commands_included: usize,
    pub validation_commands_omitted: usize,
    pub exclusions_included: usize,
    pub exclusions_omitted: usize,
    pub truncated: bool,
}

/// Nothing held and nothing left out.
pub open spec fn no_stats() -> SemanticContextPromptStats {
    SemanticContextPromptStats {
        selected_items_included: 0,
        selected_items_omitted: 0,
        validation_commands_included: 0,
        validation_commands_omitted: 0,
        exclusions_included: 0,
        exclusions_omitted: 0,
        truncated: false,
    }
}

/// A prompt while it is rendered.
#[verifier::ext_equal]
pub struct PromptDraft {
    pub prompt: Seq<char>,
    pub stats: SemanticContextPromptStats,
}

/// A number of bytes as the machine counts them.
pub open spec fn machine_limit(max_bytes: u64) -> int {
    lesser(max_bytes as int, usize::MAX as int)
}

/// Whether a line and its line break fit behind a prompt.
pub open spec fn line_fits(prompt: Seq<char>, max_bytes: u64, line: Seq<char>) -> bool {
    saturated((byte_len(prompt) + saturated(byte_len(line) + 1)) as nat) <= machine_limit(max_bytes)
}

impl PromptDraft {
    /// This draft with one more line, if it fits.
    pub open spec fn with_line(self, max_bytes: u64, line: Seq<char>) -> PromptDraft {
        if line_fits(self.prompt, max_bytes, line) {
            PromptDraft { prompt: (self.prompt + line).push('\n'), ..self }
        } else {
            PromptDraft {
                stats: SemanticContextPromptStats { truncated: true, ..self.stats },
                ..self
            }
        }
    }

    /// This draft with more lines, each of them if it fits.
    pub open spec fn with_lines(self, max_bytes: u64, lines: Seq<Seq<char>>) -> PromptDraft
        decreases lines.len(),
    {
        if lines.len() == 0 {
            self
        } else {
            self.with_lines(max_bytes, lines.drop_last()).with_line(max_bytes, lines.last())
        }
    }

    /// This draft with the selected items from number `from` on, as far as the budget goes.
    pub open spec fn with_items(
        self,
        budget: SemanticContextPromptBudget,
        items: Seq<ContextBundleItemView>,
        from: nat,
    ) -> PromptDraft
        decreases items.len() - from,
    {
        if from >= items.len() {
            self
        } else if from >= budget.max_items {
            self.omitting_items(items.len() - from)
        } else {
            let line = item_line(items[from as int], from + 1);
            let detail = item_detail(items[from as int]);
            let one = self.with_line(budget.max_bytes, line);
            let two = one.with_line(budget.max_bytes, detail);
            if !line_fits(self.prompt, budget.max_bytes, line) {
                one.omitting_items(items.len() - from)
            } else if !line_fits(one.prompt, budget.max_bytes, detail) {
                two.omitting_items(items.len() - from)
            } else {
                PromptDraft {
                    stats: SemanticContextPromptStats {
                        selected_items_included: saturated(
                            (two.stats.selected_items_included + 1) as nat,
                        ),
                        ..two.stats
                    },
                    ..two
                }.with_items(budget, items, from + 1)
            }
        }
    }

    /// This draft with more items counted as left out.
    pub open spec fn omitting_items(self, n: int) -> PromptDraft {
        PromptDraft {
            stats: SemanticContextPromptStats {
                selected_items_omitted: saturated(
                    (self.stats.selected_items_omitted + n) as nat,
                ),
                ..self.stats
            },
            ..self
        }
    }

    /// This draft with the validation commands from number `from` on, as far as they fit.
    pub open spec fn with_commands(
        self,
        max_bytes: u64,
        commands: Seq<Seq<char>>,
        from: nat,
    ) -> PromptDraft
        decreases commands.len() - from,
    {
        if from >= commands.len() {
            self
        } else {
            let line = "- "@ + safe_field(commands[from as int]);
            let next = self.with_line(max_bytes, line);
            if line_fits(self.prompt, max_bytes, line) {
                PromptDraft {
                    stats: SemanticContextPromptStats {
                        validation_commands_included: saturated(
                            (next.stats.validation_commands_included + 1) as nat,
                        ),
                        ..next.stats
                    },
                    ..next
                }.with_commands(max_bytes, commands, from + 1)
            } else {
                PromptDraft {
                    stats: SemanticContextPromptStats {
                        validation_commands_omitted: (commands.len() - from) as usize,
                        ..next.stats
                    },
                    ..next
                }
            }
        }
    }

    /// This draft with the first exclusions from number `from` on, as far as they fit; `total` is how
    /// many there are.
    pub open spec fn with_exclusions(
        self,
        max_bytes: u64,
        exclusions: Seq<ContextBundleExclusionView>,
        total: int,
        from: nat,
    ) -> PromptDraft
        decreases exclusions.len() - from,
    {
        if from >= exclusions.len() || from >= MAX_LISTED_EXCLUSIONS {
            self
        } else {
            let line = exclusion_line(exclusions[from as int]);
            let next = self.with_line(max_bytes, line);
            if line_fits(self.prompt, max_bytes, line) {
                PromptDraft {
                    stats: SemanticContextPromptStats {
                        exclusions_included: saturated(
                            (next.stats.exclusions_included + 1) as nat,
                        ),
                        ..next.stats
                    },
                    ..next
                }.with_exclusions(max_bytes, exclusions, total, from + 1)
            } else {
                PromptDraft {
                    stats: SemanticContextPromptStats {
                        exclusions_omitted: (total - from) as usize,
                        ..next.stats
                    },
                    ..next
                }
            }
        }
    }
}

/// A character as prompts show it: control characters do not break the layout.
pub open spec fn safe_char(c: char) -> char {
    let u = c as u32;
    if c == '\n' || c == '\r' || c == '\t' {
        ' '
    } else if u < 0x20 || 0x7f <= u <= 0x9f {
        '?'
    } else {
        c
    }
}

/// A text as prompts show it, behind what is there already: cut short with an ellipsis once it has
/// reached the bound.
pub open spec fn safe_field_after(shown: Seq<char>, rest: Seq<char>) -> Seq<char>
    decreases rest.len(),
{
    if rest.len() == 0 {
        shown
    } else {
        let next = shown.push(safe_char(rest[0]));
        if byte_len(next) >= MAX_FIELD_BYTES {
            next + "..."@
        } else {
            safe_field_after(next, rest.drop_first())
        }
    }
}

/// A text as prompts show it.
pub open spec fn safe_field(value: Seq<char>) -> Seq<char> {
    safe_field_after(Seq::empty(), value)
}

fn show_char(c: char) -> (r: char)
    ensures
        r == safe_char(c),
{
    let u: u32 = c as u32;
    if c == '\n' || c == '\r' || c == '\t' {
        ' '
    } else if u < 0x20 || (0x7f <= u && u <= 0x9f) {
        '?'
    } else {
        c
    }
}

/// A text as prompts show it.
pub fn safe_context_field(value: &str) -> (r: String)
    ensures
        r@ == safe_field(value@),
{
    let chars = chars_of(value);
    let mut shown = String::new();
    let mut i: usize = 0;
    assert(value@.skip(0) =~= value@);
    while i < chars.len()
        invariant
            i <= chars@.len(),
            chars@ == value@,
            safe_field_after(shown@, value@.skip(i as int)) == safe_field(value@),
        decreases chars@.len() - i,
    {
        proof {
            let rest = value@.skip(i as int);
            assert(rest[0] == chars@[i as int]);
            assert(rest.drop_first() =~= value@.skip(i + 1));
        }
        shown.push(show_char(chars[i]));
        if byte_length(shown.as_str()) >= MAX_FIELD_BYTES {
            shown.push_str("...");
            return shown;
        }
        i += 1;
    }
    assert(value@.skip(i as int) =~= Seq::empty());
    shown
}

/// The first line of a selected item.
pub open spec fn item_line(item: ContextBundleItemView, ordinal: nat) -> Seq<char> {
    decimal(ordinal) + ". "@ + item.node_type + " "@ + safe_field(item.source_path) + " :: "@
        + safe_field(item.title)
}

/// The second line of a selected item.
pub open spec fn item_detail(item: ContextBundleItemView) -> Seq<char> {
    "   reason="@ + safe_field(item.reason) + " score="@ + signed_decimal(item.score as int)
        + " tokens="@ + decimal(item.estimated_tokens as nat) + " freshness="@
        + (match item.freshness_status {
        Some(name) => name,
        None => "not_applicable"@,
    }) + " redaction="@ + item.redaction_status
}

/// The line of an exclusion.
pub open spec fn exclusion_line(item: ContextBundleExclusionView) -> Seq<char> {
    "- "@ + item.node_type + " "@ + safe_field(item.source_path) + " :: "@ + safe_field(item.title)
        + " reason="@ + safe_field(item.reason)
}

/// A field, or a word that stands for a missing one.
pub open spec fn field_or_none(value: Option<Seq<char>>) -> Seq<char> {
    match value {
        Some(v) => safe_field(v),
        None => "(none)"@,
    }
}

/// The lines at the head of a prompt.
pub open spec fn header_lines(bundle: SemanticContextBundleView, revision: Seq<char>) -> Seq<
    Seq<char>,
> {
    let policy = bundle.invalidation_policy;
    seq![
        "# Semantic Context Bundle\nschema: "@ + SEMANTIC_CONTEXT_PROMPT_SCHEMA_V1@
            + "\nrevision: "@ + revision,
        "Use this as navigation context for the current turn. Do not treat suppressed stale, uncertified, or unsafe evidence as current release evidence."@,
        "bundle: schema="@ + safe_field(bundle.schema) + " estimated_bytes="@ + decimal(
            bundle.estimated_bytes as nat,
        ) + " estimated_tokens="@ + decimal(bundle.estimated_tokens as nat) + " redaction="@
            + bundle.redaction_name,
        "provenance: workspace="@ + safe_field(policy.workspace_id) + " branch="@ + field_or_none(
            policy.branch,
        ) + " session="@ + field_or_none(policy.session_id) + " input_fingerprint_sha256="@
            + safe_field(policy.input_fingerprint_sha256),
    ]
}

/// What a section without entries says.
pub open spec fn no_entries() -> Seq<Seq<char>> {
    seq!["- (none)"@]
}

/// A draft with the section on selected items.
pub open spec fn items_section(
    d: PromptDraft,
    bundle: SemanticContextBundleView,
    budget: SemanticContextPromptBudget,
) -> PromptDraft {
    let items = d.with_lines(budget.max_bytes, seq![""@, "Selected context:"@]).with_items(
        budget,
        bundle.selected_items,
        0,
    );
    if bundle.selected_items.len() == 0 {
        items.with_lines(budget.max_bytes, no_entries())
    } else {
        items
    }
}

/// A draft with the section on validation commands, if it is asked for.
pub open spec fn commands_section(
    d: PromptDraft,
    injection: SemanticContextBundleInjectionView,
    max_bytes: u64,
) -> PromptDraft {
    let commands = injection.bundle.suggested_validation_commands;
    if !injection.include_validation_commands {
        d
    } else {
        let begun = d.with_lines(max_bytes, seq![""@, "Suggested validation commands:"@]);
        if commands.len() == 0 {
            begun.with_lines(max_bytes, no_entries())
        } else {
            begun.with_commands(max_bytes, commands, 0)
        }
    }
}

/// A draft with the section on what was left out, if it is asked for.
pub open spec fn exclusions_section(
    d: PromptDraft,
    injection: SemanticContextBundleInjectionView,
    max_bytes: u64,
) -> PromptDraft {
    let all = injection.bundle.stale_evidence_suppressions + injection.bundle.excluded_items;
    if !injection.include_exclusion_summary {
        d
    } else {
        let begun = d.with_lines(max_bytes, seq![""@, "Suppressed or excluded context:"@]);
        if all.len() == 0 {
            begun.with_lines(max_bytes, no_entries())
        } else {
            begun.with_exclusions(max_bytes, all, saturated(all.len()) as int, 0)
        }
    }
}

/// The whole prompt before it is cut to its budget.
pub open spec fn drafted(
    injection: SemanticContextBundleInjectionView,
    budget: SemanticContextPromptBudget,
    revision: Seq<char>,
) -> PromptDraft {
    let head = PromptDraft { prompt: Seq::empty(), stats: no_stats() }.with_lines(
        budget.max_bytes,
        header_lines(injection.bundle, revision),
    );
    let items = items_section(head, injection.bundle, budget);
    let commands = commands_section(items, injection, budget.max_bytes);
    exclusions_section(commands, injection, budget.max_bytes)
}

/// The longest beginning of a text that takes no more than a number of bytes.
pub open spec fn cut_to_bytes(s: Seq<char>, max_bytes: int) -> Seq<char>
    decreases s.len(),
{
    if byte_len(s) <= max_bytes || s.len() == 0 {
        s
    } else {
        cut_to_bytes(s.drop_last(), max_bytes)
    }
}

/// The rendered prompt: cut to its budget if it should be longer.
pub open spec fn rendered(
    injection: SemanticContextBundleInjectionView,
    budget: SemanticContextPromptBudget,
    revision: Seq<char>,
) -> PromptDraft {
    let draft = drafted(injection, budget, revision);
    if byte_len(draft.prompt) > machine_limit(budget.max_bytes) {
        PromptDraft {
            prompt: cut_to_bytes(draft.prompt, machine_limit(budget.max_bytes)),
            stats: SemanticContextPromptStats { truncated: true, ..draft.stats },
        }
    } else {
        draft
    }
}

fn machine_bytes(max_bytes: u64) -> (r: usize)
    ensures
        r == machine_limit(max_bytes),
{
    if max_bytes > usize::MAX as u64 {
        usize::MAX
    } else {
        max_bytes as usize
    }
}

/// The draft that a prompt and its statistics make up.
pub open spec fn draft_of(prompt: String, stats: SemanticContextPromptStats) -> PromptDraft {
    PromptDraft { prompt: prompt@, stats }
}

/// Adds a line to a prompt, if it fits.
pub fn push_semantic_context_line(
    prompt: &mut String,
    max_bytes: u64,
    line: &str,
    stats: &mut SemanticContextPromptStats,
) -> (pushed: bool)
    ensures
        pushed == line_fits(old(prompt)@, max_bytes, line@),
        draft_of(*final(prompt), *final(stats)) == draft_of(*old(prompt), *old(stats)).with_line(
            max_bytes,
            line@,
        ),
{
    let limit: usize = machine_bytes(max_bytes);
    let required: usize = byte_length(line).saturating_add(1);
    if byte_length(prompt.as_str()).saturating_add(required) > limit {
        stats.truncated = true;
        return false;
    }
    prompt.push_str(line);
    prompt.push('\n');
    true
}

/// Cuts a text to its longest beginning that takes no more than a number of bytes.
pub fn truncate_string_to_max_bytes(value: &mut String, max_bytes: u64)
    ensures
        final(value)@ == cut_to_bytes(old(value)@, machine_limit(max_bytes)),
{
    let limit: usize = machine_bytes(max_bytes);
    if byte_length(value.as_str()) <= limit {
        return;
    }
    let ghost all = value@;
    let chars = chars_of(value.as_str());
    let mut kept = String::new();
    let mut i: usize = 0;
    assert(all.take(0) =~= Seq::empty());
    assert(byte_len(Seq::<char>::empty()) == 0);
    loop
        invariant_except_break
            i <= chars@.len(),
        invariant
            chars@ == all,
            byte_len(all) > limit,
            kept@ == all.take(i as int),
            byte_len(kept@) <= limit,
        ensures
            i < chars@.len(),
            byte_len(all.take(i + 1)) > limit,
        decreases chars@.len() - i,
    {
        if i == chars.len() {
            assert(all.take(i as int) =~= all);
            assert(false);
        }
        let mut longer = kept.clone();
        longer.push(chars[i]);
        assert(longer@ =~= all.take(i + 1));
        if byte_length(longer.as_str()) > limit {
            break;
        }
        kept = longer;
        i += 1;
    }
    proof {
        lemma_cut(all, i as int, limit as int);
    }
    *value = kept;
}

proof fn lemma_cut(s: Seq<char>, k: int, max_bytes: int)
    requires
        0 <= k < s.len(),
        byte_len(s.take(k)) <= max_bytes,
        byte_len(s.take(k + 1)) > max_bytes,
    ensures
        cut_to_bytes(s, max_bytes) == s.take(k),
    decreases s.len(),
{
    assert(s =~= s.take(k + 1) + s.skip(k + 1));
    lemma_encode_concat(s.take(k + 1), s.skip(k + 1));
    if k + 1 < s.len() {
        assert(s.drop_last().take(k) =~= s.take(k));
        assert(s.drop_last().take(k + 1) =~= s.take(k + 1));
        lemma_cut(s.drop_last(), k, max_bytes);
    } else {
        assert(s.take(k + 1) =~= s);
        assert(s.drop_last() =~= s.take(k));
        assert(cut_to_bytes(s.take(k), max_bytes) == s.take(k));
    }
}

fn field_or_word(value: &Option<String>) -> (r: String)
    ensures
        r@ == field_or_none(opt_text(*value)),
{
    match value {
        Some(v) => safe_context_field(v.as_str()),
        None => owned("(none)"),
    }
}

/// Adds the head of the prompt.
pub fn push_semantic_context_header(
    prompt: &mut String,
    stats: &mut SemanticContextPromptStats,
    budget: SemanticContextPromptBudget,
    bundle: &SemanticContextBundle,
    revision: &str,
)
    ensures
        draft_of(*final(prompt), *final(stats)) == draft_of(*old(prompt), *old(stats)).with_lines(
            budget.max_bytes,
            header_lines(bundle@, revision@),
        ),
{
    let ghost start = draft_of(*prompt, *stats);
    let ghost lines = header_lines(bundle@, revision@);
    let policy = &bundle.invalidation_policy;
    let mut head = owned("# Semantic Context Bundle\nschema: ");
    head.push_str(SEMANTIC_CONTEXT_PROMPT_SCHEMA_V1);
    head.push_str("\nrevision: ");
    head.push_str(revision);
    let _ = push_semantic_context_line(prompt, budget.max_bytes, head.as_str(), stats);
    let _ = push_semantic_context_line(
        prompt,
        budget.max_bytes,
        "Use this as navigation context for the current turn. Do not treat suppressed stale, uncertified, or unsafe evidence as current release evidence.",
        stats,
    );
    let mut summary = owned("bundle: schema=");
    summary.push_str(safe_context_field(bundle.schema.as_str()).as_str());
    summary.push_str(" estimated_bytes=");
    summary.push_str(decimal_of(bundle.estimated_bytes).as_str());
    summary.push_str(" estimated_tokens=");
    summary.push_str(decimal_of(bundle.estimated_tokens).as_str());
    summary.push_str(" redaction=");
    summary.push_str(bundle.redaction_name.as_str());
    let _ = push_semantic_context_line(prompt, budget.max_bytes, summary.as_str(), stats);
    let mut provenance = owned("provenance: workspace=");
    provenance.push_str(safe_context_field(policy.workspace_id.as_str()).as_str());
    provenance.push_str(" branch=");
    provenance.push_str(field_or_word(&policy.branch).as_str());
    provenance.push_str(" session=");
    provenance.push_str(field_or_word(&policy.session_id).as_str());
    provenance.push_str(" input_fingerprint_sha256=");
    provenance.push_str(safe_context_field(policy.input_fingerprint_sha256.as_str()).as_str());
    let _ = push_semantic_context_line(prompt, budget.max_bytes, provenance.as_str(), stats);
    proof {
        lemma_lines_4(start, budget.max_bytes, lines[0], lines[1], lines[2], lines[3]);
        assert(lines =~= seq![lines[0], lines[1], lines[2], lines[3]]);
    }
}

proof fn lemma_lines_1(d: PromptDraft, max: u64, a: Seq<char>)
    ensures
        d.with_lines(max, seq![a]) == d.with_line(max, a),
{
    assert(seq![a].drop_last() =~= Seq::<Seq<char>>::empty());
    assert(d.with_lines(max, Seq::empty()) == d);
}

proof fn lemma_lines_2(d: PromptDraft, max: u64, a: Seq<char>, b: Seq<char>)
    ensures
        d.with_lines(max, seq![a, b]) == d.with_line(max, a).with_line(max, b),
{
    assert(seq![a, b].drop_last() =~= seq![a]);
    lemma_lines_1(d, max, a);
}

proof fn lemma_lines_4(
    d: PromptDraft,
    max: u64,
    a: Seq<char>,
    b: Seq<char>,
    c: Seq<char>,
    e: Seq<char>,
)
    ensures
        d.with_lines(max, seq![a, b, c, e]) == d.with_line(max, a).with_line(max, b).with_line(
            max,
            c,
        ).with_line(max, e),
{
    assert(seq![a, b, c, e].drop_last() =~= seq![a, b, c]);
    assert(seq![a, b, c].drop_last() =~= seq![a, b]);
    lemma_lines_2(d, max, a, b);
    assert(d.with_lines(max, seq![a, b, c]) == d.with_lines(max, seq![a, b]).with_line(max, c));
}

fn push_heading(
    prompt: &mut String,
    stats: &mut SemanticContextPromptStats,
    max_bytes: u64,
    heading: &str,
)
    ensures
        draft_of(*final(prompt), *final(stats)) == draft_of(*old(prompt), *old(stats)).with_lines(
            max_bytes,
            seq![""@, heading@],
        ),
{
    let ghost start = draft_of(*prompt, *stats);
    let _ = push_semantic_context_line(prompt, max_bytes, "", stats);
    let _ = push_semantic_context_line(prompt, max_bytes, heading, stats);
    proof {
        lemma_lines_2(start, max_bytes, ""@, heading@);
    }
}

fn push_none(prompt: &mut String, stats: &mut SemanticContextPromptStats, max_bytes: u64)
    ensures
        draft_of(*final(prompt), *final(stats)) == draft_of(*old(prompt), *old(stats)).with_lines(
            max_bytes,
            seq!["- (none)"@],
        ),
{
    let ghost start = draft_of(*prompt, *stats);
    let _ = push_semantic_context_line(prompt, max_bytes, "- (none)", stats);
    proof {
        lemma_lines_1(start, max_bytes, "- (none)"@);
    }
}

fn item_line_of(item: &ContextBundleItem, ordinal: u64) -> (r: String)
    ensures
        r@ == item_line(item@, ordinal as nat),
{
    let mut line = decimal_of(ordinal);
    line.push_str(". ");
    line.push_str(item.node_type.as_str());
    line.push_str(" ");
    line.push_str(safe_context_field(item.source_path.as_str()).as_str());
    line.push_str(" :: ");
    line.push_str(safe_context_field(item.title.as_str()).as_str());
    line
}

fn item_detail_of(item: &ContextBundleItem) -> (r: String)
    ensures
        r@ == item_detail(item@),
{
    let mut line = owned("   reason=");
    line.push_str(safe_context_field(item.reason.as_str()).as_str());
    line.push_str(" score=");
    line.push_str(signed_decimal_of(item.score).as_str());
    line.push_str(" tokens=");
    line.push_str(decimal_of(item.estimated_tokens).as_str());
    line.push_str(" freshness=");
    match &item.freshness_status {
        Some(name) => line.push_str(name.as_str()),
        None => line.push_str("not_applicable"),
    }
    line.push_str(" redaction=");
    line.push_str(item.redaction_status.as_str());
    line
}

/// Adds the selected items.
pub fn push_selected_semantic_context_items(
    prompt: &mut String,
    stats: &mut SemanticContextPromptStats,
    budget: SemanticContextPromptBudget,
    bundle: &SemanticContextBundle,
)
    ensures
        draft_of(*final(prompt), *final(stats)) == ({
            let items = draft_of(*old(prompt), *old(stats)).with_lines(
                budget.max_bytes,
                seq![""@, "Selected context:"@],
            ).with_items(budget, bundle@.selected_items, 0);
            if bundle@.selected_items.len() == 0 {
                items.with_lines(budget.max_bytes, seq!["- (none)"@])
            } else {
                items
            }
        }),
{
    push_heading(prompt, stats, budget.max_bytes, "Selected context:");
    if bundle.selected_items.len() == 0 {
        push_none(prompt, stats, budget.max_bytes);
        return;
    }
    let ghost goal = draft_of(*prompt, *stats).with_items(budget, bundle@.selected_items, 0);
    let total: usize = bundle.selected_items.len();
    let mut i: usize = 0;
    while i < total
        invariant
            i <= total,
            total == bundle.selected_items@.len(),
            total > 0,
            goal == draft_of(*old(prompt), *old(stats)).with_lines(
                budget.max_bytes,
                seq![""@, "Selected context:"@],
            ).with_items(budget, bundle@.selected_items, 0),
            draft_of(*prompt, *stats).with_items(budget, bundle@.selected_items, i as nat) == goal,
        decreases total - i,
    {
        let item = &bundle.selected_items[i];
        assert(bundle@.selected_items[i as int] == item@);
        let mut included = false;
        if i < budget.max_items {
            let line = item_line_of(item, i as u64 + 1);
            let detail = item_detail_of(item);
            if push_semantic_context_line(prompt, budget.max_bytes, line.as_str(), stats) {
                included = push_semantic_context_line(
                    prompt,
                    budget.max_bytes,
                    detail.as_str(),
                    stats,
                );
            }
        }
        if !included {
            stats.selected_items_omitted = stats.selected_items_omitted.saturating_add(total - i);
            return;
        }
        stats.selected_items_included = stats.selected_items_included.saturating_add(1);
        i += 1;
    }
}

/// Adds the suggested validation commands.
pub fn push_semantic_context_validation_commands(
    prompt: &mut String,
    stats: &mut SemanticContextPromptStats,
    budget: SemanticContextPromptBudget,
    bundle: &SemanticContextBundle,
)
    ensures
        draft_of(*final(prompt), *final(stats)) == ({
            let begun = draft_of(*old(prompt), *old(stats)).with_lines(
                budget.max_bytes,
                seq![""@, "Suggested validation commands:"@],
            );
            if bundle@.suggested_validation_commands.len() == 0 {
                begun.with_lines(budget.max_bytes, seq!["- (none)"@])
            } else {
                begun.with_commands(budget.max_bytes, bundle@.suggested_validation_commands, 0)
            }
        }),
{
    push_heading(prompt, stats, budget.max_bytes, "Suggested validation commands:");
    if bundle.suggested_validation_commands.len() == 0 {
        push_none(prompt, stats, budget.max_bytes);
        return;
    }
    let ghost all = bundle@.suggested_validation_commands;
    let ghost goal = draft_of(*prompt, *stats).with_commands(budget.max_bytes, all, 0);
    let total: usize = bundle.suggested_validation_commands.len();
    let mut i: usize = 0;
    while i < total
        invariant
            i <= total,
            total == bundle.suggested_validation_commands@.len(),
            all == bundle@.suggested_validation_commands,
            total > 0,
            goal == draft_of(*old(prompt), *old(stats)).with_lines(
                budget.max_bytes,
                seq![""@, "Suggested validation commands:"@],
            ).with_commands(budget.max_bytes, all, 0),
            draft_of(*prompt, *stats).with_commands(budget.max_bytes, all, i as nat) == goal,
        decreases total - i,
    {
        let mut line = owned("- ");
        line.push_str(
            safe_context_field(bundle.suggested_validation_commands[i].as_str()).as_str(),
        );
        assert(all[i as int] == bundle.suggested_validation_commands@[i as int]@);
        if push_semantic_context_line(prompt, budget.max_bytes, line.as_str(), stats) {
            stats.validation_commands_included = stats.validation_commands_included.saturating_add(1);
        } else {
            stats.validation_commands_omitted = total - i;
            return;
        }
        i += 1;
    }
}

fn exclusion_line_of(item: &ContextBundleExclusion) -> (r: String)
    ensures
        r@ == exclusion_line(item@),
{
    let mut line = owned("- ");
    line.push_str(item.node_type.as_str());
    line.push_str(" ");
    line.push_str(safe_context_field(item.source_path.as_str()).as_str());
    line.push_str(" :: ");
    line.push_str(safe_context_field(item.title.as_str()).as_str());
    line.push_str(" reason=");
    line.push_str(safe_context_field(item.reason.as_str()).as_str());
    line
}

/// Adds the first of what was suppressed or excluded.
pub fn push_semantic_context_exclusions(
    prompt: &mut String,
    stats: &mut SemanticContextPromptStats,
    budget: SemanticContextPromptBudget,
    bundle: &SemanticContextBundle,
)
    ensures
        draft_of(*final(prompt), *final(stats)) == ({
            let begun = draft_of(*old(prompt), *old(stats)).with_lines(
                budget.max_bytes,
                seq![""@, "Suppressed or excluded context:"@],
            );
            let all = bundle@.stale_evidence_suppressions + bundle@.excluded_items;
            if all.len() == 0 {
                begun.with_lines(budget.max_bytes, seq!["- (none)"@])
            } else {
                begun.with_exclusions(budget.max_bytes, all, saturated(all.len()) as int, 0)
            }
        }),
{
    push_heading(prompt, stats, budget.max_bytes, "Suppressed or excluded context:");
    let ghost all = bundle@.stale_evidence_suppressions + bundle@.excluded_items;
    let stale: usize = bundle.stale_evidence_suppressions.len();
    let excluded: usize = bundle.excluded_items.len();
    let total: usize = stale.saturating_add(excluded);
    if total == 0 {
        push_none(prompt, stats, budget.max_bytes);
        return;
    }
    let ghost goal = draft_of(*prompt, *stats).with_exclusions(
        budget.max_bytes,
        all,
        total as int,
        0,
    );
    let mut i: usize = 0;
    while i < total && i < MAX_LISTED_EXCLUSIONS
        invariant
            i <= total,
            i <= MAX_LISTED_EXCLUSIONS,
            stale == bundle.stale_evidence_suppressions@.len(),
            excluded == bundle.excluded_items@.len(),
            total == saturated(all.len()),
            all == bundle@.stale_evidence_suppressions + bundle@.excluded_items,
            total > 0,
            goal == draft_of(*old(prompt), *old(stats)).with_lines(
                budget.max_bytes,
                seq![""@, "Suppressed or excluded context:"@],
            ).with_exclusions(budget.max_bytes, all, total as int, 0),
            draft_of(*prompt, *stats).with_exclusions(
                budget.max_bytes,
                all,
                total as int,
                i as nat,
            ) == goal,
        decreases total - i,
    {
        let item = if i < stale {
            &bundle.stale_evidence_suppressions[i]
        } else {
            &bundle.excluded_items[i - stale]
        };
        assert(all[i as int] == item@);
        let line = exclusion_line_of(item);
        if push_semantic_context_line(prompt, budget.max_bytes, line.as_str(), stats) {
            stats.exclusions_included = stats.exclusions_included.saturating_add(1);
        } else {
            stats.exclusions_omitted = total - i;
            return;
        }
        i += 1;
    }
}

/// Renders a bundle into a prompt.
pub fn render_semantic_context_prompt(
    injection: &SemanticContextBundleInjection,
    budget: SemanticContextPromptBudget,
    revision: &str,
) -> (r: (String, SemanticContextPromptStats))
    ensures
        draft_of(r.0, r.1) == rendered(injection@, budget, revision@),
{
    let mut prompt = String::new();
    let mut stats = SemanticContextPromptStats {
        selected_items_included: 0,
        selected_items_omitted: 0,
        validation_commands_included: 0,
        validation_commands_omitted: 0,
        exclusions_included: 0,
        exclusions_omitted: 0,
        truncated: false,
    };
    let bundle = &injection.bundle;
    push_semantic_context_header(&mut prompt, &mut stats, budget, bundle, revision);
    push_selected_semantic_context_items(&mut prompt, &mut stats, budget, bundle);
    if injection.include_validation_commands {
        push_semantic_context_validation_commands(&mut prompt, &mut stats, budget, bundle);
    }
    if injection.include_exclusion_summary {
        push_semantic_context_exclusions(&mut prompt, &mut stats, budget, bundle);
    }
    if byte_length(prompt.as_str()) > machine_bytes(budget.max_bytes) {
        stats.truncated = true;
        truncate_string_to_max_bytes(&mut prompt, budget.max_bytes);
    }
    (prompt, stats)
}

/// A bundle that is ready to be attached to a turn.
#[derive(Debug, PartialEq, Eq)]
pub struct PreparedSemanticContextPrompt {
    pub prompt: String,
    pub revision: String,
    pub shape: SemanticContextPromptShape,
    pub details: Json,
}

/// The mathematical value of [`PreparedSemanticContextPrompt`].
#[verifier::ext_equal]
pub struct PreparedSemanticContextPromptView {
    pub prompt: Seq<char>,
    pub revision: Seq<char>,
    pub shape: SemanticContextPromptShape,
    pub details: JsonView,
}

impl View for PreparedSemanticContextPrompt {
    type V = PreparedSemanticContextPromptView;

    open spec fn view(&self) -> PreparedSemanticContextPromptView {
        PreparedSemanticContextPromptView {
            prompt: self.prompt@,
            revision: self.revision@,
            shape: self.shape,
            details: self.details@,
        }
    }
}

/// The value of an optional prepared prompt.
pub open spec fn opt_prepared(p: Option<PreparedSemanticContextPrompt>) -> Option<
    PreparedSemanticContextPromptView,
> {
    match p {
        Some(v) => Some(v@),
        None => None,
    }
}

/// Who a prompt was rendered for.
pub open spec fn provider_record(provider: ProviderIdentityView) -> JsonView {
    JsonView::Object(
        seq![
            ("name"@, JsonView::Text(provider.name)),
            ("api"@, JsonView::Text(provider.api)),
            ("model"@, JsonView::Text(provider.model_id)),
            ("promptShape"@, JsonView::Text(prompt_shape(provider.api).name())),
        ],
    )
}

/// How much a prompt was allowed to hold.
pub open spec fn budget_record(
    injection: SemanticContextBundleInjectionView,
    budget: SemanticContextPromptBudget,
) -> JsonView {
    JsonView::Object(
        seq![
            ("requestedMaxItems"@, JsonView::Unsigned(injection.max_prompt_items as u64)),
            ("requestedMaxBytes"@, JsonView::Unsigned(injection.max_prompt_bytes)),
            ("effectiveMaxItems"@, JsonView::Unsigned(budget.max_items as u64)),
            ("effectiveMaxBytes"@, JsonView::Unsigned(budget.max_bytes)),
        ],
    )
}

/// What a prompt holds.
pub open spec fn prompt_record(draft: PromptDraft) -> JsonView {
    let stats = draft.stats;
    JsonView::Object(
        seq![
            ("bytes"@, JsonView::Unsigned(byte_len(draft.prompt) as u64)),
            (
                "selectedItemsIncluded"@,
                JsonView::Unsigned(stats.selected_items_included as u64),
            ),
            ("selectedItemsOmitted"@, JsonView::Unsigned(stats.selected_items_omitted as u64)),
            (
                "validationCommandsIncluded"@,
                JsonView::Unsigned(stats.validation_commands_included as u64),
            ),
            (
                "validationCommandsOmitted"@,
                JsonView::Unsigned(stats.validation_commands_omitted as u64),
            ),
            ("exclusionsIncluded"@, JsonView::Unsigned(stats.exclusions_included as u64)),
            ("exclusionsOmitted"@, JsonView::Unsigned(stats.exclusions_omitted as u64)),
            ("truncated"@, JsonView::Bool(stats.truncated)),
        ],
    )
}

/// What a prompt was rendered from.
pub open spec fn bundle_record(bundle: SemanticContextBundleView) -> JsonView {
    let policy = bundle.invalidation_policy;
    JsonView::Object(
        seq![
            ("selectedItems"@, JsonView::Unsigned(bundle.selected_items.len() as u64)),
            ("excludedItems"@, JsonView::Unsigned(bundle.excluded_items.len() as u64)),
            (
                "staleEvidenceSuppressions"@,
                JsonView::Unsigned(bundle.stale_evidence_suppressions.len() as u64),
            ),
            ("estimatedBytes"@, JsonView::Unsigned(bundle.estimated_bytes)),
            ("estimatedTokens"@, JsonView::Unsigned(bundle.estimated_tokens)),
            ("redactionStatus"@, bundle.redaction_value),
            ("inputFingerprintSha256"@, JsonView::Text(policy.input_fingerprint_sha256)),
            ("cacheable"@, JsonView::Bool(policy.cacheable)),
            ("workspaceId"@, JsonView::Text(policy.workspace_id)),
            ("branch"@, text_or_null(policy.branch)),
            ("sessionId"@, text_or_null(policy.session_id)),
        ],
    )
}

/// Where a prompt comes from.
pub open spec fn provenance(
    provider: ProviderIdentityView,
    injection: SemanticContextBundleInjectionView,
    revision: Seq<char>,
    draft: PromptDraft,
) -> JsonView {
    JsonView::Object(
        seq![
            ("schema"@, JsonView::Text(SEMANTIC_CONTEXT_PROVENANCE_SCHEMA_V1@)),
            ("bundleSchema"@, JsonView::Text(injection.bundle.schema)),
            ("bundleRevision"@, JsonView::Text(revision)),
            ("provider"@, provider_record(provider)),
            ("budget"@, budget_record(injection, prompt_budget(provider.api, injection))),
            ("prompt"@, prompt_record(draft)),
            ("bundle"@, bundle_record(injection.bundle)),
        ],
    )
}

/// What is attached to a turn: nothing if the injection is off, or if the budget leaves no room for
/// anything but white space.
pub open spec fn prepared_prompt(
    provider: ProviderIdentityView,
    injection: SemanticContextBundleInjectionView,
    revision: Seq<char>,
) -> Option<PreparedSemanticContextPromptView> {
    let draft = rendered(injection, prompt_budget(provider.api, injection), revision);
    if !injection.enabled || trimmed(draft.prompt).len() == 0 {
        None
    } else {
        Some(
            PreparedSemanticContextPromptView {
                prompt: draft.prompt,
                revision,
                shape: prompt_shape(provider.api),
                details: provenance(provider, injection, revision, draft),
            },
        )
    }
}

fn provider_record_of(provider: &ProviderIdentity, shape: SemanticContextPromptShape) -> (r: Json)
    requires
        shape == prompt_shape(provider@.api),
    ensures
        r@ == provider_record(provider@),
{
    let mut fields: Vec<(String, Json)> = Vec::new();
    put_field(&mut fields, "name", text_value(provider.name.as_str()));
    put_field(&mut fields, "api", text_value(provider.api.as_str()));
    put_field(&mut fields, "model", text_value(provider.model_id.as_str()));
    put_field(&mut fields, "promptShape", text_value(shape.as_str()));
    assert(field_views(fields@) =~= provider_record(provider@)->Object_0);
    object(fields)
}

fn budget_record_of(
    injection: &SemanticContextBundleInjection,
    budget: SemanticContextPromptBudget,
) -> (r: Json)
    ensures
        r@ == budget_record(injection@, budget),
{
    let mut fields: Vec<(String, Json)> = Vec::new();
    put_field(&mut fields, "requestedMaxItems", Json::Unsigned(injection.max_prompt_items as u64));
    put_field(&mut fields, "requestedMaxBytes", Json::Unsigned(injection.max_prompt_bytes));
    put_field(&mut fields, "effectiveMaxItems", Json::Unsigned(budget.max_items as u64));
    put_field(&mut fields, "effectiveMaxBytes", Json::Unsigned(budget.max_bytes));
    assert(field_views(fields@) =~= budget_record(injection@, budget)->Object_0);
    object(fields)
}

fn prompt_record_of(prompt: &String, stats: SemanticContextPromptStats) -> (r: Json)
    ensures
        r@ == prompt_record(draft_of(*prompt, stats)),
{
    let mut fields: Vec<(String, Json)> = Vec::new();
    put_field(&mut fields, "bytes", Json::Unsigned(byte_length(prompt.as_str()) as u64));
    put_field(
        &mut fields,
        "selectedItemsIncluded",
        Json::Unsigned(stats.selected_items_included as u64),
    );
    put_field(
        &mut fields,
        "selectedItemsOmitted",
        Json::Unsigned(stats.selected_items_omitted as u64),
    );
    put_field(
        &mut fields,
        "validationCommandsIncluded",
        Json::Unsigned(stats.validation_commands_included as u64),
    );
    put_field(
        &mut fields,
        "validationCommandsOmitted",
        Json::Unsigned(stats.validation_commands_omitted as u64),
    );
    put_field(
        &mut fields,
        "exclusionsIncluded",
        Json::Unsigned(stats.exclusions_included as u64),
    );
    put_field(&mut fields, "exclusionsOmitted", Json::Unsigned(stats.exclusions_omitted as u64));
    put_field(&mut fields, "truncated", Json::Bool(stats.truncated));
    assert(field_views(fields@) =~= prompt_record(draft_of(*prompt, stats))->Object_0);
    object(fields)
}

fn bundle_record_of(bundle: &SemanticContextBundle) -> (r: Json)
    ensures
        r@ == bundle_record(bundle@),
{
    let policy = &bundle.invalidation_policy;
    let mut fields: Vec<(String, Json)> = Vec::new();
    put_field(
        &mut fields,
        "selectedItems",
        Json::Unsigned(bundle.selected_items.len() as u64),
    );
    put_field(
        &mut fields,
        "excludedItems",
        Json::Unsigned(bundle.excluded_items.len() as u64),
    );
    put_field(
        &mut fields,
        "staleEvidenceSuppressions",
        Json::Unsigned(bundle.stale_evidence_suppressions.len() as u64),
    );
    put_field(&mut fields, "estimatedBytes", Json::Unsigned(bundle.estimated_bytes));
    put_field(&mut fields, "estimatedTokens", Json::Unsigned(bundle.estimated_tokens));
    put_field(&mut fields, "redactionStatus", bundle.redaction_value.clone());
    put_field(
        &mut fields,
        "inputFingerprintSha256",
        text_value(policy.input_fingerprint_sha256.as_str()),
    );
    put_field(&mut fields, "cacheable", Json::Bool(policy.cacheable));
    put_field(&mut fields, "workspaceId", text_value(policy.workspace_id.as_str()));
    put_field(&mut fields, "branch", opt_text_value(&policy.branch));
    put_field(&mut fields, "sessionId", opt_text_value(&policy.session_id));
    assert(field_views(fields@) =~= bundle_record(bundle@)->Object_0);
    object(fields)
}

/// Prepares a bundle of the given revision for a turn with a provider.
pub fn prepare_revision(
    provider: &ProviderIdentity,
    injection: &SemanticContextBundleInjection,
    revision: String,
) -> (r: Option<PreparedSemanticContextPrompt>)
    ensures
        opt_prepared(r) == prepared_prompt(provider@, injection@, revision@),
{
    if !injection.enabled {
        return None;
    }
    let shape = semantic_context_prompt_shape_for_provider(provider.api.as_str());
    let budget = semantic_context_prompt_budget_for_provider(provider.api.as_str(), injection);
    let (prompt, stats) = render_semantic_context_prompt(injection, budget, revision.as_str());
    if prompt.as_str().trim().is_empty() {
        return None;
    }
    let mut fields: Vec<(String, Json)> = Vec::new();
    put_field(&mut fields, "schema", text_value(SEMANTIC_CONTEXT_PROVENANCE_SCHEMA_V1));
    put_field(&mut fields, "bundleSchema", text_value(injection.bundle.schema.as_str()));
    put_field(&mut fields, "bundleRevision", text_value(revision.as_str()));
    put_field(&mut fields, "provider", provider_record_of(provider, shape));
    put_field(&mut fields, "budget", budget_record_of(injection, budget));
    put_field(&mut fields, "prompt", prompt_record_of(&prompt, stats));
    put_field(&mut fields, "bundle", bundle_record_of(&injection.bundle));
    assert(field_views(fields@) =~= provenance(
        provider@,
        injection@,
        revision@,
        draft_of(prompt, stats),
    )->Object_0);
    let details = object(fields);
    Some(PreparedSemanticContextPrompt { prompt, revision, shape, details })
}

/// Prepares the bundle of a session, if it has one, for a turn with a provider. `serialized` is the
/// bundle as JSON, if it could be serialised.
pub fn prepare_semantic_context_prompt(
    provider: &ProviderIdentity,
    injection: Option<&SemanticContextBundleInjection>,
    serialized: Option<&[u8]>,
) -> (r: Option<PreparedSemanticContextPrompt>)
    ensures
        opt_prepared(r) == match injection {
            Some(i) => prepared_prompt(
                provider@,
                i@,
                lower_hex(
                    sha256(
                        identity_bytes(
                            i@.bundle,
                            match serialized {
                                Some(bytes) => Some(bytes@),
                                None => None,
                            },
                        ),
                    ),
                ),
            ),
            None => None,
        },
{
    match injection {
        Some(i) => {
            let revision = semantic_context_bundle_revision(&i.bundle, serialized);
            prepare_revision(provider, i, revision)
        },
        None => None,
    }
}

/// The message that attaches a prepared prompt to a turn, or records that it was attached to the
/// system prompt.
pub open spec fn context_message(prepared: PreparedSemanticContextPromptView, now: i64) -> MessageView {
    MessageView::Custom(
        CustomMessageView {
            content: match prepared.shape {
                SemanticContextPromptShape::CustomUserMessage => prepared.prompt,
                SemanticContextPromptShape::SystemPromptAppend => {
                    "Semantic context bundle revision "@ + prepared.revision
                        + " attached to system prompt."@
                },
            },
            custom_type: SEMANTIC_CONTEXT_CUSTOM_TYPE@,
            display: prepared.shape == SemanticContextPromptShape::CustomUserMessage,
            details: Some(prepared.details),
            timestamp: now,
        },
    )
}

/// The message that attaches a prepared prompt to a turn.
pub fn semantic_context_prompt_message(
    prepared: &PreparedSemanticContextPrompt,
    timestamp: i64,
) -> (r: Message)
    ensures
        r@ == context_message(prepared@, timestamp),
{
    let (content, display) = match prepared.shape {
        SemanticContextPromptShape::CustomUserMessage => (prepared.prompt.clone(), true),
        SemanticContextPromptShape::SystemPromptAppend => {
            let mut text = owned("Semantic context bundle revision ");
            text.push_str(prepared.revision.as_str());
            text.push_str(" attached to system prompt.");
            (text, false)
        },
    };
    Message::Custom(
        CustomMessage {
            content,
            custom_type: owned(SEMANTIC_CONTEXT_CUSTOM_TYPE),
            display,
            details: Some(prepared.details.clone()),
            timestamp,
        },
    )
}

/// The system prompt of a turn: with the prepared prompt behind it, if that is its shape.
pub open spec fn turn_system_prompt(
    base: Option<Seq<char>>,
    prepared: Option<PreparedSemanticContextPromptView>,
) -> Option<Seq<char>> {
    match prepared {
        Some(p) => match p.shape {
            SemanticContextPromptShape::SystemPromptAppend => match base {
                Some(b) => if b.len() > 0 {
                    Some(b + "\n\n"@ + p.prompt)
                } else {
                    Some(p.prompt)
                },
                None => Some(p.prompt),
            },
            SemanticContextPromptShape::CustomUserMessage => base,
        },
        None => base,
    }
}

/// The value of an optional reference to a prepared prompt.
pub open spec fn opt_prepared_ref(p: Option<&PreparedSemanticContextPrompt>) -> Option<
    PreparedSemanticContextPromptView,
> {
    match p {
        Some(v) => Some(v@),
        None => None,
    }
}

/// The system prompt of a turn.
pub fn semantic_context_system_prompt_for_turn(
    base_system_prompt: &Option<String>,
    prepared: Option<&PreparedSemanticContextPrompt>,
) -> (r: Option<String>)
    ensures
        opt_text(r) == turn_system_prompt(opt_text(*base_system_prompt), opt_prepared_ref(prepared)),
{
    match prepared {
        Some(p) => match p.shape {
            SemanticContextPromptShape::SystemPromptAppend => {
                let mut prompt = String::new();
                if let Some(base) = base_system_prompt {
                    if !base.as_str().is_empty() {
                        prompt.push_str(base.as_str());
                        prompt.push_str("\n\n");
                        assert(prompt@ =~= base@ + "\n\n"@);
                    }
                }
                let ghost before = prompt@;
                prompt.push_str(p.prompt.as_str());
                assert(before.len() == 0 ==> prompt@ =~= p.prompt@);
                Some(prompt)
            },
            SemanticContextPromptShape::CustomUserMessage => clone_opt_text(base_system_prompt),
        },
        None => clone_opt_text(base_system_prompt),
    }
}

proof fn lemma_cut_fits(s: Seq<char>, max_bytes: int)
    requires
        max_bytes >= 0,
    ensures
        byte_len(cut_to_bytes(s, max_bytes)) <= max_bytes,
        s.take(cut_to_bytes(s, max_bytes).len() as int) == cut_to_bytes(s, max_bytes),
        cut_to_bytes(s, max_bytes).len() <= s.len(),
    decreases s.len(),
{
    if byte_len(s) <= max_bytes || s.len() == 0 {
        assert(s.take(s.len() as int) =~= s);
        assert(s.len() == 0 ==> s =~= Seq::empty());
        assert(byte_len(Seq::<char>::empty()) == 0);
    } else {
        lemma_cut_fits(s.drop_last(), max_bytes);
        let k = cut_to_bytes(s, max_bytes).len() as int;
        assert(s.drop_last().take(k) =~= s.take(k));
    }
}

/// A rendered prompt never takes more bytes than its budget, however small that is.
pub proof fn rendered_prompt_fits_budget(
    injection: SemanticContextBundleInjectionView,
    budget: SemanticContextPromptBudget,
    revision: Seq<char>,
)
    ensures
        byte_len(rendered(injection, budget, revision).prompt) <= budget.max_bytes,
{
    lemma_cut_fits(
        drafted(injection, budget, revision).prompt,
        machine_limit(budget.max_bytes),
    );
}

/// What is attached to a turn takes no more bytes than was asked for, than the bundle was made for
/// and than the provider takes.
pub proof fn prepared_prompt_respects_every_budget(
    provider: ProviderIdentityView,
    injection: SemanticContextBundleInjectionView,
    revision: Seq<char>,
)
    ensures
        match prepared_prompt(provider, injection, revision) {
            Some(p) => {
                &&& injection.enabled
                &&& byte_len(p.prompt) <= injection.max_prompt_bytes
                &&& byte_len(p.prompt) <= injection.bundle.budget.max_bytes
                &&& byte_len(p.prompt) <= provider_max_bytes(provider.api)
                &&& p.details.text_field("bundleRevision"@) == Some(revision)
            },
            None => true,
        },
{
    let budget = prompt_budget(provider.api, injection);
    rendered_prompt_fits_budget(injection, budget, revision);
    if let Some(p) = prepared_prompt(provider, injection, revision) {
        reveal_strlit("schema");
        reveal_strlit("bundleSchema");
        reveal_strlit("bundleRevision");
        let fields = p.details->Object_0;
        let one = fields.drop_first();
        let two = one.drop_first();
        assert(fields[0].0.len() != "bundleRevision"@.len());
        assert(one[0] == fields[1]);
        assert(one[0].0.len() != "bundleRevision"@.len());
        assert(two[0] == fields[2]);
        assert(crate::json::field_of(two, "bundleRevision"@) == Some(two[0].1));
        assert(crate::json::field_of(one, "bundleRevision"@) == Some(two[0].1));
        assert(crate::json::field_of(fields, "bundleRevision"@) == Some(two[0].1));
    }
}

proof fn lemma_line_bytes(prompt: Seq<char>, line: Seq<char>)
    ensures
        byte_len((prompt + line).push('\n')) == byte_len(prompt) + byte_len(line) + 1,
{
    lemma_encode_concat(prompt, line);
    lemma_encode_concat(prompt + line, seq!['\n']);
    assert((prompt + line).push('\n') =~= (prompt + line) + seq!['\n']);
    assert(vstd::utf8::is_ascii_chars(seq!['\n']));
    vstd::utf8::is_ascii_chars_encode_utf8(seq!['\n']);
}

proof fn lemma_with_line_fits(d: PromptDraft, max_bytes: u64, line: Seq<char>)
    requires
        max_bytes < usize::MAX,
        byte_len(d.prompt) <= max_bytes,
    ensures
        byte_len(d.with_line(max_bytes, line).prompt) <= max_bytes,
{
    lemma_line_bytes(d.prompt, line);
}

proof fn lemma_with_lines_fits(d: PromptDraft, max_bytes: u64, lines: Seq<Seq<char>>)
    requires
        max_bytes < usize::MAX,
        byte_len(d.prompt) <= max_bytes,
    ensures
        byte_len(d.with_lines(max_bytes, lines).prompt) <= max_bytes,
        d.with_lines(max_bytes, lines).stats == (SemanticContextPromptStats {
            truncated: d.with_lines(max_bytes, lines).stats.truncated,
            ..d.stats
        }),
    decreases lines.len(),
{
    if lines.len() > 0 {
        lemma_with_lines_fits(d, max_bytes, lines.drop_last());
        lemma_with_line_fits(d.with_lines(max_bytes, lines.drop_last()), max_bytes, lines.last());
    }
}

proof fn lemma_with_items_fits(
    d: PromptDraft,
    budget: SemanticContextPromptBudget,
    items: Seq<ContextBundleItemView>,
    from: nat,
)
    requires
        budget.max_bytes < usize::MAX,
        byte_len(d.prompt) <= budget.max_bytes,
        items.len() <= usize::MAX,
        from <= items.len(),
        d.stats.selected_items_included == from,
        d.stats.selected_items_omitted == 0,
    ensures
        ({
            let r = d.with_items(budget, items, from);
            &&& byte_len(r.prompt) <= budget.max_bytes
            &&& r.stats.selected_items_included + r.stats.selected_items_omitted == items.len()
            &&& r.stats.selected_items_included <= budget.max_items || r.stats.selected_items_included
                <= from
        }),
    decreases items.len() - from,
{
    if from < items.len() && from < budget.max_items {
        let line = item_line(items[from as int], from + 1);
        let detail = item_detail(items[from as int]);
        let one = d.with_line(budget.max_bytes, line);
        let two = one.with_line(budget.max_bytes, detail);
        lemma_with_line_fits(d, budget.max_bytes, line);
        lemma_with_line_fits(one, budget.max_bytes, detail);
        if line_fits(d.prompt, budget.max_bytes, line) && line_fits(
            one.prompt,
            budget.max_bytes,
            detail,
        ) {
            lemma_with_items_fits(
                PromptDraft {
                    stats: SemanticContextPromptStats {
                        selected_items_included: saturated(
                            (two.stats.selected_items_included + 1) as nat,
                        ),
                        ..two.stats
                    },
                    ..two
                },
                budget,
                items,
                from + 1,
            );
        }
    }
}

proof fn lemma_with_commands_fits(
    d: PromptDraft,
    max_bytes: u64,
    commands: Seq<Seq<char>>,
    from: nat,
)
    requires
        max_bytes < usize::MAX,
        byte_len(d.prompt) <= max_bytes,
        commands.len() <= usize::MAX,
        from <= commands.len(),
        d.stats.validation_commands_included == from,
        d.stats.validation_commands_omitted == 0,
    ensures
        ({
            let r = d.with_commands(max_bytes, commands, from);
            &&& byte_len(r.prompt) <= max_bytes
            &&& r.stats.validation_commands_included + r.stats.validation_commands_omitted
                == commands.len()
            &&& r.stats.selected_items_included == d.stats.selected_items_included
            &&& r.stats.selected_items_omitted == d.stats.selected_items_omitted
            &&& r.stats.exclusions_included == d.stats.exclusions_included
            &&& r.stats.exclusions_omitted == d.stats.exclusions_omitted
        }),
    decreases commands.len() - from,
{
    if from < commands.len() {
        let line = "- "@ + safe_field(commands[from as int]);
        let next = d.with_line(max_bytes, line);
        lemma_with_line_fits(d, max_bytes, line);
        if line_fits(d.prompt, max_bytes, line) {
            lemma_with_commands_fits(
                PromptDraft {
                    stats: SemanticContextPromptStats {
                        validation_commands_included: saturated(
                            (next.stats.validation_commands_included + 1) as nat,
                        ),
                        ..next.stats
                    },
                    ..next
                },
                max_bytes,
                commands,
                from + 1,
            );
        }
    }
}

proof fn lemma_with_exclusions_fits(
    d: PromptDraft,
    max_bytes: u64,
    exclusions: Seq<ContextBundleExclusionView>,
    total: int,
    from: nat,
)
    requires
        max_bytes < usize::MAX,
        byte_len(d.prompt) <= max_bytes,
        d.stats.exclusions_included == from,
        from <= MAX_LISTED_EXCLUSIONS,
    ensures
        ({
            let r = d.with_exclusions(max_bytes, exclusions, total, from);
            &&& byte_len(r.prompt) <= max_bytes
            &&& r.stats.exclusions_included <= MAX_LISTED_EXCLUSIONS
            &&& r.stats.selected_items_included == d.stats.selected_items_included
            &&& r.stats.selected_items_omitted == d.stats.selected_items_omitted
            &&& r.stats.validation_commands_included == d.stats.validation_commands_included
            &&& r.stats.validation_commands_omitted == d.stats.validation_commands_omitted
        }),
    decreases exclusions.len() - from,
{
    if from < exclusions.len() && from < MAX_LISTED_EXCLUSIONS {
        let line = exclusion_line(exclusions[from as int]);
        let next = d.with_line(max_bytes, line);
        lemma_with_line_fits(d, max_bytes, line);
        if line_fits(d.prompt, max_bytes, line) {
            lemma_with_exclusions_fits(
                PromptDraft {
                    stats: SemanticContextPromptStats {
                        exclusions_included: saturated(
                            (next.stats.exclusions_included + 1) as nat,
                        ),
                        ..next.stats
                    },
                    ..next
                },
                max_bytes,
                exclusions,
                total,
                from + 1,
            );
        }
    }
}

/// Rendering keeps the books: only whole lines are left out, so that the prompt needs no cutting,
/// every selected item counts once as held or left out, no more items are held than the budget
/// allows, and, where they are asked for, every validation command counts once too. Of sections that
/// are not asked for nothing is counted, and no more exclusions are held than prompts list.
#[verifier::spinoff_prover]
pub proof fn rendering_keeps_the_books(
    injection: SemanticContextBundleInjectionView,
    budget: SemanticContextPromptBudget,
    revision: Seq<char>,
)
    requires
        budget.max_bytes < usize::MAX,
        injection.bundle.selected_items.len() <= usize::MAX,
        injection.bundle.suggested_validation_commands.len() <= usize::MAX,
    ensures
        ({
            let r = rendered(injection, budget, revision);
            let stats = r.stats;
            &&& r == drafted(injection, budget, revision)
            &&& stats.selected_items_included + stats.selected_items_omitted
                == injection.bundle.selected_items.len()
            &&& stats.selected_items_included <= budget.max_items
            &&& injection.include_validation_commands ==> stats.validation_commands_included
                + stats.validation_commands_omitted
                == injection.bundle.suggested_validation_commands.len()
            &&& !injection.include_validation_commands ==> stats.validation_commands_included == 0
                && stats.validation_commands_omitted == 0
            &&& !injection.include_exclusion_summary ==> stats.exclusions_included == 0
                && stats.exclusions_omitted == 0
            &&& stats.exclusions_included <= MAX_LISTED_EXCLUSIONS
        }),
{
    let max = budget.max_bytes;
    let empty = PromptDraft { prompt: Seq::empty(), stats: no_stats() };
    assert(byte_len(Seq::<char>::empty()) == 0);
    lemma_with_lines_fits(empty, max, header_lines(injection.bundle, revision));
    let head = empty.with_lines(max, header_lines(injection.bundle, revision));
    lemma_items_section(head, injection.bundle, budget);
    let items = items_section(head, injection.bundle, budget);
    lemma_commands_section(items, injection, max);
    let commands = commands_section(items, injection, max);
    lemma_exclusions_section(commands, injection, max);
}

proof fn lemma_items_section(
    d: PromptDraft,
    bundle: SemanticContextBundleView,
    budget: SemanticContextPromptBudget,
)
    requires
        budget.max_bytes < usize::MAX,
        byte_len(d.prompt) <= budget.max_bytes,
        bundle.selected_items.len() <= usize::MAX,
        d.stats.selected_items_included == 0,
        d.stats.selected_items_omitted == 0,
    ensures
        ({
            let r = items_section(d, bundle, budget);
            &&& byte_len(r.prompt) <= budget.max_bytes
            &&& r.stats.selected_items_included + r.stats.selected_items_omitted
                == bundle.selected_items.len()
            &&& r.stats.selected_items_included <= budget.max_items
            &&& r.stats.validation_commands_included == d.stats.validation_commands_included
            &&& r.stats.validation_commands_omitted == d.stats.validation_commands_omitted
            &&& r.stats.exclusions_included == d.stats.exclusions_included
            &&& r.stats.exclusions_omitted == d.stats.exclusions_omitted
        }),
{
    let title = seq![""@, "Selected context:"@];
    let titled = d.with_lines(budget.max_bytes, title);
    lemma_with_lines_fits(d, budget.max_bytes, title);
    lemma_with_items_fits(titled, budget, bundle.selected_items, 0);
    lemma_with_items_frame(titled, budget, bundle.selected_items, 0);
    let listed = titled.with_items(budget, bundle.selected_items, 0);
    lemma_with_lines_fits(listed, budget.max_bytes, no_entries());
}

proof fn lemma_commands_section(
    d: PromptDraft,
    injection: SemanticContextBundleInjectionView,
    max_bytes: u64,
)
    requires
        max_bytes < usize::MAX,
        byte_len(d.prompt) <= max_bytes,
        injection.bundle.suggested_validation_commands.len() <= usize::MAX,
        d.stats.validation_commands_included == 0,
        d.stats.validation_commands_omitted == 0,
    ensures
        ({
            let r = commands_section(d, injection, max_bytes);
            &&& byte_len(r.prompt) <= max_bytes
            &&& injection.include_validation_commands ==> r.stats.validation_commands_included
                + r.stats.validation_commands_omitted
                == injection.bundle.suggested_validation_commands.len()
            &&& !injection.include_validation_commands ==> r == d
            &&& r.stats.selected_items_included == d.stats.selected_items_included
            &&& r.stats.selected_items_omitted == d.stats.selected_items_omitted
            &&& r.stats.exclusions_included == d.stats.exclusions_included
            &&& r.stats.exclusions_omitted == d.stats.exclusions_omitted
        }),
{
    let title = seq![""@, "Suggested validation commands:"@];
    let begun = d.with_lines(max_bytes, title);
    lemma_with_lines_fits(d, max_bytes, title);
    lemma_with_lines_fits(begun, max_bytes, no_entries());
    lemma_with_commands_fits(begun, max_bytes, injection.bundle.suggested_validation_commands, 0);
}

proof fn lemma_exclusions_section(
    d: PromptDraft,
    injection: SemanticContextBundleInjectionView,
    max_bytes: u64,
)
    requires
        max_bytes < usize::MAX,
        byte_len(d.prompt) <= max_bytes,
        d.stats.exclusions_included == 0,
    ensures
        ({
            let r = exclusions_section(d, injection, max_bytes);
            &&& byte_len(r.prompt) <= max_bytes
            &&& !injection.include_exclusion_summary ==> r == d
            &&& r.stats.exclusions_included <= MAX_LISTED_EXCLUSIONS
            &&& r.stats.selected_items_included == d.stats.selected_items_included
            &&& r.stats.selected_items_omitted == d.stats.selected_items_omitted
            &&& r.stats.validation_commands_included == d.stats.validation_commands_included
            &&& r.stats.validation_commands_omitted == d.stats.validation_commands_omitted
        }),
{
    let title = seq![""@, "Suppressed or excluded context:"@];
    let begun = d.with_lines(max_bytes, title);
    let all = injection.bundle.stale_evidence_suppressions + injection.bundle.excluded_items;
    lemma_with_lines_fits(d, max_bytes, title);
    lemma_with_lines_fits(begun, max_bytes, no_entries());
    lemma_with_exclusions_fits(begun, max_bytes, all, saturated(all.len()) as int, 0);
}

proof fn lemma_with_items_frame(
    d: PromptDraft,
    budget: SemanticContextPromptBudget,
    items: Seq<ContextBundleItemView>,
    from: nat,
)
    ensures
        ({
            let r = d.with_items(budget, items, from);
            &&& r.stats.validation_commands_included == d.stats.validation_commands_included
            &&& r.stats.validation_commands_omitted == d.stats.validation_commands_omitted
            &&& r.stats.exclusions_included == d.stats.exclusions_included
            &&& r.stats.exclusions_omitted == d.stats.exclusions_omitted
        }),
    decreases items.len() - from,
{
    if from < items.len() && from < budget.max_items {
        let line = item_line(items[from as int], from + 1);
        let detail = item_detail(items[from as int]);
        let two = d.with_line(budget.max_bytes, line).with_line(budget.max_bytes, detail);
        lemma_with_items_frame(
            PromptDraft {
                stats: SemanticContextPromptStats {
                    selected_items_included: saturated(
                        (two.stats.selected_items_included + 1) as nat,
                    ),
                    ..two.stats
                },
                ..two
            },
            budget,
            items,
            from + 1,
        );
    }
}

proof fn lemma_safe_after(shown: Seq<char>, rest: Seq<char>)
    requires
        forall|i: int| 0 <= i < shown.len() ==> #[trigger] shown[i] == safe_char(shown[i]),
    ensures
        forall|i: int|
            0 <= i < safe_field_after(shown, rest).len() ==> #[trigger] safe_field_after(shown, rest)[i]
                == safe_char(safe_field_after(shown, rest)[i]),
    decreases rest.len(),
{
    if rest.len() > 0 {
        let next = shown.push(safe_char(rest[0]));
        assert forall|i: int| 0 <= i < next.len() implies #[trigger] next[i] == safe_char(next[i]) by {
            if i < shown.len() {
                assert(next[i] == shown[i]);
            }
        }
        if byte_len(next) >= MAX_FIELD_BYTES {
            reveal_strlit("...");
            let all = next + "..."@;
            assert forall|i: int| 0 <= i < all.len() implies #[trigger] all[i] == safe_char(all[i]) by {
                if i < next.len() {
                    assert(all[i] == next[i]);
                } else {
                    assert(all[i] == "..."@[i - next.len()]);
                }
            }
            assert(safe_field_after(shown, rest) == all);
        } else {
            lemma_safe_after(next, rest.drop_first());
            assert(safe_field_after(shown, rest) == safe_field_after(next, rest.drop_first()));
        }
    } else {
        assert(safe_field_after(shown, rest) == shown);
    }
}

/// No field can break the layout of a prompt: what is shown of it holds no control character.
pub proof fn shown_fields_hold_no_control_characters(value: Seq<char>, i: int)
    requires
        0 <= i < safe_field(value).len(),
    ensures
        ({
            let u = safe_field(value)[i] as u32;
            u >= 0x20 && !(0x7f <= u <= 0x9f)
        }),
{
    lemma_safe_after(Seq::empty(), value);
}

} // verus!
