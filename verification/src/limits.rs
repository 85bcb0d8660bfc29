//! How many tools run side by side, and how many rounds of tool calls a run may take.
use vstd::prelude::*;

use crate::text::{decimal, decimal_of, owned, parse_usize, parsed_usize, trimmed};

verus! {

/// The least number of compatible tools that the host default allows at once.
pub const MIN_COMPATIBLE_TOOL_PARALLELISM: usize = 8;

/// The greatest number of compatible tools that the host default allows at once.
pub const MAX_AUTO_COMPATIBLE_TOOL_PARALLELISM: usize = 64;

/// The greatest number of compatible tools that a setting can allow at once.
pub const MAX_CONFIGURED_COMPATIBLE_TOOL_PARALLELISM: usize = 256;

/// Default cap for rounds of tool calls in one run.
pub const MAX_TOOL_ITERATIONS_DEFAULT: usize = 50;

/// Ceiling for the cap: a typo cannot ask for more rounds than this.
pub const MAX_TOOL_ITERATIONS_CEILING: usize = 1_000;

/// Numerator of the share of the cap at which the hand-off warning is due.
pub const ITERATION_WARN_NUMERATOR: usize = 4;

/// Denominator of the share of the cap at which the hand-off warning is due.
pub const ITERATION_WARN_DENOMINATOR: usize = 5;

/// Below this cap there is no hand-off warning.
pub const ITERATION_WARN_MIN_CAP: usize = 5;

/// The number in `low..=high` that is nearest to `n`.
pub open spec fn clamped(n: usize, low: usize, high: usize) -> usize {
    if n < low {
        low
    } else if n > high {
        high
    } else {
        n
    }
}

fn clamp(n: usize, low: usize, high: usize) -> (r: usize)
    ensures
        r == clamped(n, low, high),
{
    if n < low {
        low
    } else if n > high {
        high
    } else {
        n
    }
}

/// The number that a setting spells, if it spells one that is not zero. White space around the
/// number does not matter.
pub open spec fn positive_setting(raw: Option<Seq<char>>) -> Option<usize> {
    match raw {
        None => None,
        Some(text) => match parsed_usize(trimmed(text)) {
            None => None,
            Some(n) => if n == 0 {
                None
            } else {
                Some(n)
            },
        },
    }
}

/// The text of an optional setting.
pub open spec fn setting_text(raw: Option<&str>) -> Option<Seq<char>> {
    match raw {
        Some(s) => Some(s@),
        None => None,
    }
}

fn read_positive_setting(raw: Option<&str>) -> (r: Option<usize>)
    ensures
        r == positive_setting(setting_text(raw)),
{
    match raw {
        None => None,
        Some(text) => match parse_usize(text.trim()) {
            None => None,
            Some(n) => if n == 0 {
                None
            } else {
                Some(n)
            },
        },
    }
}

/// How many compatible tools may run at once.
pub open spec fn tool_parallelism(raw: Option<Seq<char>>, host_parallelism: usize) -> usize {
    match positive_setting(raw) {
        Some(n) => clamped(n, 1, MAX_CONFIGURED_COMPATIBLE_TOOL_PARALLELISM),
        None => clamped(
            host_parallelism,
            MIN_COMPATIBLE_TOOL_PARALLELISM,
            MAX_AUTO_COMPATIBLE_TOOL_PARALLELISM,
        ),
    }
}

/// How many compatible tools may run at once: what the setting asks for, up to the configured
/// maximum, or the host's parallelism within the automatic bounds if the setting is missing,
/// empty, zero or no number.
pub fn resolve_compatible_tool_parallelism(
    raw_override: Option<&str>,
    host_parallelism: usize,
) -> (r: usize)
    ensures
        r == tool_parallelism(setting_text(raw_override), host_parallelism),
{
    match read_positive_setting(raw_override) {
        Some(limit) => clamp(limit, 1, MAX_CONFIGURED_COMPATIBLE_TOOL_PARALLELISM),
        None => clamp(
            host_parallelism,
            MIN_COMPATIBLE_TOOL_PARALLELISM,
            MAX_AUTO_COMPATIBLE_TOOL_PARALLELISM,
        ),
    }
}

/// The cap that a requested number of rounds amounts to.
pub open spec fn iteration_cap(requested: Option<usize>) -> usize {
    match requested {
        None => MAX_TOOL_ITERATIONS_DEFAULT,
        Some(n) => if n == 0 {
            MAX_TOOL_ITERATIONS_DEFAULT
        } else if n > MAX_TOOL_ITERATIONS_CEILING {
            MAX_TOOL_ITERATIONS_CEILING
        } else {
            n
        },
    }
}

/// The cap on rounds of tool calls that a textual setting asks for: the default if the setting is
/// missing, empty, zero or no number, and the ceiling if it asks for more.
pub fn resolve_max_tool_iterations(raw_override: Option<&str>) -> (r: usize)
    ensures
        r == iteration_cap(positive_setting(setting_text(raw_override))),
{
    match read_positive_setting(raw_override) {
        None => MAX_TOOL_ITERATIONS_DEFAULT,
        Some(n) => if n > MAX_TOOL_ITERATIONS_CEILING {
            MAX_TOOL_ITERATIONS_CEILING
        } else {
            n
        },
    }
}

/// The cap on rounds of tool calls that a parsed option asks for, by the rules of
/// [`resolve_max_tool_iterations`].
pub fn clamp_max_tool_iterations(value: Option<usize>) -> (r: usize)
    ensures
        r == iteration_cap(value),
{
    match value {
        None => MAX_TOOL_ITERATIONS_DEFAULT,
        Some(n) => if n == 0 {
            MAX_TOOL_ITERATIONS_DEFAULT
        } else if n > MAX_TOOL_ITERATIONS_CEILING {
            MAX_TOOL_ITERATIONS_CEILING
        } else {
            n
        },
    }
}

/// The round from which on the hand-off warning is due. The product saturates, so that no cap
/// leads to a small threshold by wrapping round.
pub open spec fn warning_threshold(max: usize) -> int {
    let scaled = max * ITERATION_WARN_NUMERATOR;
    let bounded: int = if scaled > usize::MAX {
        usize::MAX as int
    } else {
        scaled
    };
    bounded / (ITERATION_WARN_DENOMINATOR as int)
}

/// Whether the hand-off warning is due in round `current` under the cap `max`.
pub open spec fn warning_due(current: usize, max: usize) -> bool {
    max >= ITERATION_WARN_MIN_CAP && current >= warning_threshold(max)
}

/// Whether the hand-off warning is due: four fifths of the cap are used and the cap is not tiny.
pub fn should_warn_at_iteration_threshold(current: usize, max: usize) -> (r: bool)
    ensures
        r == warning_due(current, max),
{
    let scaled: usize = match max.checked_mul(ITERATION_WARN_NUMERATOR) {
        Some(n) => n,
        None => usize::MAX,
    };
    max >= ITERATION_WARN_MIN_CAP && current >= scaled / ITERATION_WARN_DENOMINATOR
}

/// The text of the hand-off warning.
pub open spec fn handoff_text(current: usize, max: usize) -> Seq<char> {
    "[runtime] Tool-iteration budget at >=80% (used "@ + decimal(current as nat) + " of "@ + decimal(
        max as nat,
    )
        + "). Per the iteration-aware-handoff protocol in your spec, begin graceful handoff now: commit current work, post a one-line status note, and write an incomplete-handoff envelope with what's done / what remains / next-agent starting position. Do NOT compress remaining work into the last few iterations."@
}

/// The body of the one-shot message that asks the model to hand its work over.
pub fn iteration_handoff_steering_text(current: usize, max: usize) -> (r: String)
    ensures
        r@ == handoff_text(current, max),
{
    let mut r = owned("[runtime] Tool-iteration budget at >=80% (used ");
    r.push_str(decimal_of(current as u64).as_str());
    r.push_str(" of ");
    r.push_str(decimal_of(max as u64).as_str());
    r.push_str(
        "). Per the iteration-aware-handoff protocol in your spec, begin graceful handoff now: commit current work, post a one-line status note, and write an incomplete-handoff envelope with what's done / what remains / next-agent starting position. Do NOT compress remaining work into the last few iterations.",
    );
    r
}

/// Every cap lies between one and the ceiling, whatever was asked for.
pub proof fn iteration_cap_in_range(requested: Option<usize>)
    ensures
        1 <= iteration_cap(requested) <= MAX_TOOL_ITERATIONS_CEILING,
{
}

/// A setting that spells a number means the same as that number given as an option.
pub proof fn textual_cap_agrees_with_option(n: usize)
    ensures
        iteration_cap(positive_setting(Some(crate::text::decimal(n as nat)))) == iteration_cap(
            Some(n),
        ),
{
    crate::text::lemma_decimal_trimmed(n as nat);
    crate::text::lemma_decimal_parsed(n);
}

/// At least one compatible tool may always run, and never more than the configured maximum.
pub proof fn tool_parallelism_in_range(raw: Option<Seq<char>>, host_parallelism: usize)
    ensures
        1 <= tool_parallelism(raw, host_parallelism) <= MAX_CONFIGURED_COMPATIBLE_TOOL_PARALLELISM,
{
}

/// Once the warning is due it stays due in later rounds, and it is due by the last round that the
/// cap allows, unless the cap is too small for it.
pub proof fn warning_due_is_monotone(current: usize, later: usize, max: usize)
    requires
        current <= later,
    ensures
        warning_due(current, max) ==> warning_due(later, max),
        max >= ITERATION_WARN_MIN_CAP ==> warning_due(max, max),
        max < ITERATION_WARN_MIN_CAP ==> !warning_due(later, max),
{
}

/// A cap that is not tiny leaves rounds before the warning.
pub proof fn warning_leaves_early_rounds(max: usize)
    requires
        max >= ITERATION_WARN_MIN_CAP,
    ensures
        !warning_due(1, max),
        warning_threshold(max) <= max,
{
}

} // verus!
