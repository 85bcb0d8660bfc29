//! Latency samples of a turn and their summary.
use vstd::prelude::*;
use vstd::relations::{sorted_by, total_ordering};

use crate::text::owned;

verus! {

/// Schema identifier of a turn's latency breakdown.
pub const TURN_LATENCY_BREAKDOWN_SCHEMA_V1: &'static str = "pi.agent.turn_latency_breakdown.v1";

/// Calls `<[u64]>::sort_unstable`, which puts the elements in ascending order and keeps each as
/// often as it was there.
#[verifier::external_body]
fn sort_samples(samples: &mut Vec<u64>)
    ensures
        final(samples)@.to_multiset() == old(samples)@.to_multiset(),
        forall|i: int, j: int|
            0 <= i <= j < final(samples)@.len() ==> final(samples)@[i] <= final(samples)@[j],
{
    samples.sort_unstable();
}

/// The order of samples.
pub open spec fn sample_le() -> spec_fn(u64, u64) -> bool {
    |a: u64, b: u64| a <= b
}

/// The samples in ascending order.
pub open spec fn ascending(samples: Seq<u64>) -> Seq<u64> {
    samples.sort_by(sample_le())
}

/// The least of two numbers.
pub open spec fn least(a: int, b: int) -> int {
    if a <= b {
        a
    } else {
        b
    }
}

/// The position in ascending order that nearest-rank gives the share `part / whole` of `n` samples.
/// The product saturates.
pub open spec fn nearest_rank(part: usize, whole: usize, n: nat) -> int {
    let product = least(part * n, usize::MAX as int);
    let ceiling = (product + whole - 1) / (whole as int);
    least(if ceiling > 0 { ceiling - 1 } else { 0 }, n - 1)
}

/// The nearest-rank percentile of the samples, or zero if there are none.
pub open spec fn percentile(samples: Seq<u64>, part: usize, whole: usize) -> u64 {
    if samples.len() == 0 {
        0
    } else {
        ascending(samples)[nearest_rank(part, whole, samples.len())]
    }
}

/// The sum of the samples.
pub open spec fn total(samples: Seq<u64>) -> nat
    decreases samples.len(),
{
    if samples.len() == 0 {
        0
    } else {
        total(samples.drop_last()) + samples.last() as nat
    }
}

/// The ascending order exists, keeps the samples and is ascending.
proof fn lemma_ascending(samples: Seq<u64>)
    ensures
        ascending(samples).len() == samples.len(),
        ascending(samples).to_multiset() == samples.to_multiset(),
        forall|i: int, j: int|
            0 <= i <= j < samples.len() ==> ascending(samples)[i] <= ascending(samples)[j],
{
    assert(total_ordering(sample_le()));
    samples.lemma_sort_by_ensures(sample_le());
    let s = ascending(samples);
    assert forall|i: int, j: int| 0 <= i <= j < s.len() implies s[i] <= s[j] by {
        if i < j {
            assert(sorted_by(s, sample_le()));
            assert((sample_le())(s[i], s[j]));
        }
    }
    s.to_multiset_ensures();
    samples.to_multiset_ensures();
}

proof fn lemma_rank_in_range(part: usize, whole: usize, n: nat)
    requires
        whole > 0,
        n > 0,
    ensures
        0 <= nearest_rank(part, whole, n) < n,
{
    let product = least(part * n, usize::MAX as int);
    assert(part * n >= 0) by (nonlinear_arith)
        requires
            n > 0,
    ;
    assert((product + whole - 1) / (whole as int) >= 0) by (nonlinear_arith)
        requires
            product >= 0,
            whole > 0,
    ;
}

/// The nearest-rank percentile of the samples.
pub fn percentile_nearest_rank(samples: &[u64], part: usize, whole: usize) -> (r: u64)
    requires
        whole > 0,
    ensures
        r == percentile(samples@, part, whole),
{
    if samples.len() == 0 {
        return 0;
    }
    let mut sorted: Vec<u64> = Vec::new();
    let mut i: usize = 0;
    while i < samples.len()
        invariant
            i <= samples@.len(),
            sorted@ == samples@.take(i as int),
        decreases samples@.len() - i,
    {
        sorted.push(samples[i]);
        assert(samples@.take(i + 1) =~= samples@.take(i as int).push(samples@[i as int]));
        i += 1;
    }
    assert(samples@.take(i as int) =~= samples@);
    sort_samples(&mut sorted);
    proof {
        lemma_ascending(samples@);
        let a = sorted@;
        let b = ascending(samples@);
        a.to_multiset_ensures();
        samples@.to_multiset_ensures();
        assert(total_ordering(sample_le()));
        assert(sorted_by(a, sample_le()));
        assert(sorted_by(b, sample_le()));
        vstd::seq_lib::lemma_sorted_unique(a, b, sample_le());
        lemma_rank_in_range(part, whole, samples@.len());
        assert(sorted@.len() == samples@.len());
    }
    let len: usize = samples.len();
    let product: usize = match part.checked_mul(len) {
        Some(p) => p,
        None => usize::MAX,
    };
    let ghost exact = (product + whole - 1) / (whole as int);
    let quotient: usize = product / whole;
    let ceiling: usize = if product % whole == 0 {
        quotient
    } else {
        proof {
            assert(quotient < usize::MAX) by (nonlinear_arith)
                requires
                    quotient == product / whole,
                    product % whole != 0,
                    whole > 0,
            ;
        }
        quotient + 1
    };
    proof {
        assert(ceiling == exact) by (nonlinear_arith)
            requires
                whole > 0,
                quotient == product / whole,
                exact == (product + whole - 1) / (whole as int),
                product % whole == 0 ==> ceiling == quotient,
                product % whole != 0 ==> ceiling == quotient + 1,
        ;
        assert(part * len == len * part) by (nonlinear_arith);
    }
    let below: usize = if ceiling > 0 {
        ceiling - 1
    } else {
        0
    };
    let rank: usize = if below <= len - 1 {
        below
    } else {
        len - 1
    };
    sorted[rank]
}

/// Tail percentiles of a set of latency samples, by nearest rank, in milliseconds.
#[derive(Debug, Clone, Copy, PartialEq, Eq, Structural)]
pub struct LatencyPercentiles {
    pub p50_ms: u64,
    pub p95_ms: u64,
    pub p99_ms: u64,
    pub p999_ms: u64,
}

/// The tail percentiles of a sample set.
pub open spec fn percentiles(samples: Seq<u64>) -> LatencyPercentiles {
    LatencyPercentiles {
        p50_ms: percentile(samples, 50, 100),
        p95_ms: percentile(samples, 95, 100),
        p99_ms: percentile(samples, 99, 100),
        p999_ms: percentile(samples, 999, 1000),
    }
}

impl LatencyPercentiles {
    /// Summarises a sample set.
    pub fn from_samples(samples: &[u64]) -> (r: Self)
        ensures
            r == percentiles(samples@),
    {
        LatencyPercentiles {
            p50_ms: percentile_nearest_rank(samples, 50, 100),
            p95_ms: percentile_nearest_rank(samples, 95, 100),
            p99_ms: percentile_nearest_rank(samples, 99, 100),
            p999_ms: percentile_nearest_rank(samples, 999, 1000),
        }
    }
}

impl Default for LatencyPercentiles {
    fn default() -> (r: Self)
        ensures
            r == percentiles(Seq::empty()),
    {
        LatencyPercentiles { p50_ms: 0, p95_ms: 0, p99_ms: 0, p999_ms: 0 }
    }
}

/// What one component contributed to a turn's latency.
#[derive(Debug, Clone, Copy, PartialEq, Eq, Structural)]
pub struct LatencyComponentBreakdown {
    /// Sum of all samples, in milliseconds.
    pub duration_ms: u64,
    /// Number of samples.
    pub samples: usize,
    /// Tail percentiles of the samples.
    pub tail_percentiles: LatencyPercentiles,
}

/// The breakdown of a component with the given samples. The sum saturates.
pub open spec fn component(samples: Seq<u64>) -> LatencyComponentBreakdown {
    LatencyComponentBreakdown {
        duration_ms: least(total(samples) as int, u64::MAX as int) as u64,
        samples: samples.len() as usize,
        tail_percentiles: percentiles(samples),
    }
}

impl LatencyComponentBreakdown {
    /// Builds a breakdown from samples in milliseconds.
    pub fn from_millis_samples(samples: &[u64]) -> (r: Self)
        ensures
            r == component(samples@),
            r.samples == samples@.len(),
    {
        let mut duration_ms: u64 = 0;
        let mut i: usize = 0;
        assert(samples@.take(0) =~= Seq::empty());
        while i < samples.len()
            invariant
                i <= samples@.len(),
                duration_ms == least(total(samples@.take(i as int)) as int, u64::MAX as int),
            decreases samples@.len() - i,
        {
            proof {
                let next = samples@.take(i + 1);
                assert(next.drop_last() =~= samples@.take(i as int));
                assert(next.last() == samples@[i as int]);
            }
            duration_ms = duration_ms.saturating_add(samples[i]);
            i += 1;
        }
        assert(samples@.take(i as int) =~= samples@);
        LatencyComponentBreakdown {
            duration_ms,
            samples: samples.len(),
            tail_percentiles: LatencyPercentiles::from_samples(samples),
        }
    }
}

impl Default for LatencyComponentBreakdown {
    fn default() -> (r: Self)
        ensures
            r == component(Seq::empty()),
    {
        LatencyComponentBreakdown {
            duration_ms: 0,
            samples: 0,
            tail_percentiles: LatencyPercentiles { p50_ms: 0, p95_ms: 0, p99_ms: 0, p999_ms: 0 },
        }
    }
}

/// Where the time of a turn went.
#[derive(Debug, PartialEq, Eq)]
pub struct TurnLatencyBreakdown {
    /// Schema identifier.
    pub schema: &'static str,
    /// Time of the whole turn, in milliseconds.
    pub total_ms: u64,
    /// Streaming from the provider.
    pub provider_streaming: LatencyComponentBreakdown,
    /// Running tools.
    pub local_tools: LatencyComponentBreakdown,
    /// Extension hooks around tool calls.
    pub extension_hostcalls: LatencyComponentBreakdown,
    /// Writing the session.
    pub persistence: LatencyComponentBreakdown,
    /// Name of the component with the greatest sum.
    pub dominant_component: String,
}

/// The mathematical value of [`TurnLatencyBreakdown`].
#[verifier::ext_equal]
pub struct TurnLatencyBreakdownView {
    pub schema: Seq<char>,
    pub total_ms: u64,
    pub provider_streaming: LatencyComponentBreakdown,
    pub local_tools: LatencyComponentBreakdown,
    pub extension_hostcalls: LatencyComponentBreakdown,
    pub persistence: LatencyComponentBreakdown,
    pub dominant_component: Seq<char>,
}

impl View for TurnLatencyBreakdown {
    type V = TurnLatencyBreakdownView;

    open spec fn view(&self) -> TurnLatencyBreakdownView {
        TurnLatencyBreakdownView {
            schema: self.schema@,
            total_ms: self.total_ms,
            provider_streaming: self.provider_streaming,
            local_tools: self.local_tools,
            extension_hostcalls: self.extension_hostcalls,
            persistence: self.persistence,
            dominant_component: self.dominant_component@,
        }
    }
}

impl Clone for TurnLatencyBreakdown {
    fn clone(&self) -> (r: Self)
        ensures
            r@ == self@,
    {
        TurnLatencyBreakdown {
            schema: self.schema,
            total_ms: self.total_ms,
            provider_streaming: self.provider_streaming,
            local_tools: self.local_tools,
            extension_hostcalls: self.extension_hostcalls,
            persistence: self.persistence,
            dominant_component: self.dominant_component.clone(),
        }
    }
}

/// The name of the component with the greatest duration. The later of two equal ones counts, and
/// there is none if all are zero.
pub open spec fn dominant(provider: u64, tools: u64, hooks: u64, persistence: u64) -> Seq<char> {
    if persistence > 0 && persistence >= hooks && persistence >= tools && persistence >= provider {
        "persistence"@
    } else if hooks > 0 && hooks >= tools && hooks >= provider && hooks > persistence {
        "extension_hostcalls"@
    } else if tools > 0 && tools >= provider && tools > hooks && tools > persistence {
        "local_tools"@
    } else if provider > 0 {
        "provider_streaming"@
    } else {
        "none"@
    }
}

fn dominant_latency_component(provider: u64, tools: u64, hooks: u64, persistence: u64) -> (r: String)
    ensures
        r@ == dominant(provider, tools, hooks, persistence),
{
    let mut name = "provider_streaming";
    let mut best: u64 = provider;
    if tools >= best {
        name = "local_tools";
        best = tools;
    }
    if hooks >= best {
        name = "extension_hostcalls";
        best = hooks;
    }
    if persistence >= best {
        name = "persistence";
        best = persistence;
    }
    if best == 0 {
        name = "none";
    }
    owned(name)
}

/// The breakdown of a turn with the given samples.
pub open spec fn breakdown(
    total_ms: u64,
    provider: Seq<u64>,
    tools: Seq<u64>,
    hooks: Seq<u64>,
    persistence: Seq<u64>,
) -> TurnLatencyBreakdownView {
    TurnLatencyBreakdownView {
        schema: TURN_LATENCY_BREAKDOWN_SCHEMA_V1@,
        total_ms,
        provider_streaming: component(provider),
        local_tools: component(tools),
        extension_hostcalls: component(hooks),
        persistence: component(persistence),
        dominant_component: dominant(
            component(provider).duration_ms,
            component(tools).duration_ms,
            component(hooks).duration_ms,
            component(persistence).duration_ms,
        ),
    }
}

impl TurnLatencyBreakdown {
    /// Builds a breakdown from the samples of each component.
    pub fn from_component_samples(
        total_ms: u64,
        provider_streaming_ms: &[u64],
        local_tool_ms: &[u64],
        extension_hostcall_ms: &[u64],
        persistence_ms: &[u64],
    ) -> (r: Self)
        ensures
            r@ == breakdown(
                total_ms,
                provider_streaming_ms@,
                local_tool_ms@,
                extension_hostcall_ms@,
                persistence_ms@,
            ),
    {
        let provider_streaming = LatencyComponentBreakdown::from_millis_samples(
            provider_streaming_ms,
        );
        let local_tools = LatencyComponentBreakdown::from_millis_samples(local_tool_ms);
        let extension_hostcalls = LatencyComponentBreakdown::from_millis_samples(
            extension_hostcall_ms,
        );
        let persistence = LatencyComponentBreakdown::from_millis_samples(persistence_ms);
        let dominant_component = dominant_latency_component(
            provider_streaming.duration_ms,
            local_tools.duration_ms,
            extension_hostcalls.duration_ms,
            persistence.duration_ms,
        );
        TurnLatencyBreakdown {
            schema: TURN_LATENCY_BREAKDOWN_SCHEMA_V1,
            total_ms,
            provider_streaming,
            local_tools,
            extension_hostcalls,
            persistence,
            dominant_component,
        }
    }
}

/// A number of milliseconds or microseconds as 64 bits; what does not fit becomes the maximum.
pub fn saturating_ticks(ticks: u128) -> (r: u64)
    ensures
        r == least(ticks as int, u64::MAX as int),
{
    if ticks > u64::MAX as u128 {
        u64::MAX
    } else {
        ticks as u64
    }
}

/// The latency samples of a turn so far.
#[derive(Debug, PartialEq, Eq)]
pub struct TurnLatencyAccumulator {
    pub provider_streaming_ms: Vec<u64>,
    pub local_tool_ms: Vec<u64>,
    pub extension_hostcall_ms: Vec<u64>,
    pub persistence_ms: Vec<u64>,
}

impl TurnLatencyAccumulator {
    /// An accumulator for a turn that has just begun.
    pub fn started() -> (r: Self)
        ensures
            r.provider_streaming_ms@ == Seq::<u64>::empty(),
            r.local_tool_ms@ == Seq::<u64>::empty(),
            r.extension_hostcall_ms@ == Seq::<u64>::empty(),
            r.persistence_ms@ == Seq::<u64>::empty(),
    {
        TurnLatencyAccumulator {
            provider_streaming_ms: Vec::new(),
            local_tool_ms: Vec::new(),
            extension_hostcall_ms: Vec::new(),
            persistence_ms: Vec::new(),
        }
    }

    /// The breakdown of the turn so far, `elapsed_millis` after its start.
    pub fn snapshot(&self, elapsed_millis: u128) -> (r: TurnLatencyBreakdown)
        ensures
            r@ == breakdown(
                least(elapsed_millis as int, u64::MAX as int) as u64,
                self.provider_streaming_ms@,
                self.local_tool_ms@,
                self.extension_hostcall_ms@,
                self.persistence_ms@,
            ),
    {
        TurnLatencyBreakdown::from_component_samples(
            saturating_ticks(elapsed_millis),
            self.provider_streaming_ms.as_slice(),
            self.local_tool_ms.as_slice(),
            self.extension_hostcall_ms.as_slice(),
            self.persistence_ms.as_slice(),
        )
    }

    /// Records how long streaming from the provider took.
    pub fn record_provider_streaming(&mut self, millis: u128)
        ensures
            final(self).provider_streaming_ms@ == old(self).provider_streaming_ms@.push(
                least(millis as int, u64::MAX as int) as u64,
            ),
            final(self).local_tool_ms == old(self).local_tool_ms,
            final(self).extension_hostcall_ms == old(self).extension_hostcall_ms,
            final(self).persistence_ms == old(self).persistence_ms,
    {
        self.provider_streaming_ms.push(saturating_ticks(millis));
    }

    /// Records how long a tool took.
    pub fn record_local_tool(&mut self, millis: u128)
        ensures
            final(self).local_tool_ms@ == old(self).local_tool_ms@.push(
                least(millis as int, u64::MAX as int) as u64,
            ),
            final(self).provider_streaming_ms == old(self).provider_streaming_ms,
            final(self).extension_hostcall_ms == old(self).extension_hostcall_ms,
            final(self).persistence_ms == old(self).persistence_ms,
    {
        self.local_tool_ms.push(saturating_ticks(millis));
    }

    /// Records how long an extension hook took.
    pub fn record_extension_hostcall(&mut self, millis: u128)
        ensures
            final(self).extension_hostcall_ms@ == old(self).extension_hostcall_ms@.push(
                least(millis as int, u64::MAX as int) as u64,
            ),
            final(self).provider_streaming_ms == old(self).provider_streaming_ms,
            final(self).local_tool_ms == old(self).local_tool_ms,
            final(self).persistence_ms == old(self).persistence_ms,
    {
        self.extension_hostcall_ms.push(saturating_ticks(millis));
    }
}

/// A percentile of a non-empty sample set is one of the samples.
pub proof fn percentile_is_a_sample(samples: Seq<u64>, part: usize, whole: usize)
    requires
        whole > 0,
        samples.len() > 0,
    ensures
        samples.contains(percentile(samples, part, whole)),
{
    lemma_ascending(samples);
    lemma_rank_in_range(part, whole, samples.len());
    let s = ascending(samples);
    let p = percentile(samples, part, whole);
    s.to_multiset_ensures();
    samples.to_multiset_ensures();
    assert(s.contains(p));
    assert(s.to_multiset().count(p) > 0);
}

/// A sample set whose products do not saturate has its percentiles in order: the median is at most
/// the 95th, that at most the 99th, and that at most the 99.9th percentile.
pub proof fn percentiles_are_monotone(samples: Seq<u64>)
    ensures
        999 * samples.len() <= usize::MAX ==> {
            let p = percentiles(samples);
            p.p50_ms <= p.p95_ms <= p.p99_ms <= p.p999_ms
        },
{
    if samples.len() > 0 && 999 * samples.len() <= usize::MAX {
        let n = samples.len();
        lemma_ascending(samples);
        lemma_rank_in_range(50, 100, n);
        lemma_rank_in_range(95, 100, n);
        lemma_rank_in_range(99, 100, n);
        lemma_rank_in_range(999, 1000, n);
        assert(nearest_rank(50, 100, n) <= nearest_rank(95, 100, n));
        assert(nearest_rank(95, 100, n) <= nearest_rank(99, 100, n));
        assert(nearest_rank(99, 100, n) <= nearest_rank(999, 1000, n));
    }
}

/// The summary of a sample set does not depend on the order in which the samples came.
pub proof fn component_ignores_order(a: Seq<u64>, b: Seq<u64>)
    requires
        a.to_multiset() == b.to_multiset(),
    ensures
        component(a) == component(b),
{
    a.to_multiset_ensures();
    b.to_multiset_ensures();
    lemma_ascending(a);
    lemma_ascending(b);
    assert(total_ordering(sample_le()));
    assert(sorted_by(ascending(a), sample_le()));
    assert(sorted_by(ascending(b), sample_le()));
    vstd::seq_lib::lemma_sorted_unique(ascending(a), ascending(b), sample_le());
    lemma_total_by_multiset(a, b);
}

proof fn lemma_total_remove(s: Seq<u64>, i: int)
    requires
        0 <= i < s.len(),
    ensures
        total(s) == total(s.remove(i)) + s[i],
    decreases s.len(),
{
    if i == s.len() - 1 {
        assert(s.remove(i) =~= s.drop_last());
    } else {
        lemma_total_remove(s.drop_last(), i);
        assert(s.remove(i).drop_last() =~= s.drop_last().remove(i));
        assert(s.remove(i).last() == s.last());
    }
}

proof fn lemma_total_by_multiset(a: Seq<u64>, b: Seq<u64>)
    requires
        a.to_multiset() == b.to_multiset(),
    ensures
        total(a) == total(b),
    decreases a.len(),
{
    a.to_multiset_ensures();
    b.to_multiset_ensures();
    if a.len() > 0 {
        let x = a.last();
        assert(a.contains(x));
        assert(a.to_multiset().count(x) > 0);
        assert(b.contains(x));
        let j = choose|j: int| 0 <= j < b.len() && b[j] == x;
        lemma_total_remove(b, j);
        assert(a.drop_last() =~= a.remove(a.len() - 1));
        a.to_multiset_ensures();
        assert(a.remove(a.len() - 1).to_multiset() =~= a.to_multiset().remove(x));
        assert(b.remove(j).to_multiset() =~= b.to_multiset().remove(x));
        lemma_total_by_multiset(a.drop_last(), b.remove(j));
    } else {
        assert(b.len() == 0);
    }
}

/// Of samples in ascending order, a percentile is the first one that at least the given part of the
/// samples reaches no further than.
pub proof fn percentile_is_the_nearest_rank(samples: Seq<u64>, part: usize, whole: usize, i: int)
    requires
        whole > 0,
        part * samples.len() <= usize::MAX,
        0 <= i < samples.len(),
        forall|j: int, k: int| 0 <= j <= k < samples.len() ==> samples[j] <= samples[k],
        i * whole < part * samples.len(),
        part * samples.len() <= (i + 1) * whole,
    ensures
        percentile(samples, part, whole) == samples[i],
{
    let n = samples.len();
    let product = part * n;
    let w = whole as int;
    let r = product - i * w - 1;
    assert(product + w - 1 == (i + 1) * w + r) by (nonlinear_arith)
        requires
            r == product - i * w - 1,
    ;
    assert(0 <= r < w) by (nonlinear_arith)
        requires
            r == product - i * w - 1,
            i * w < product,
            product <= (i + 1) * w,
    ;
    vstd::arithmetic::div_mod::lemma_fundamental_div_mod_converse(product + w - 1, w, i + 1, r);
    assert(nearest_rank(part, whole, n) == i);
    lemma_ascending(samples);
    samples.to_multiset_ensures();
    ascending(samples).to_multiset_ensures();
    assert(total_ordering(sample_le()));
    assert(sorted_by(samples, sample_le()));
    assert(sorted_by(ascending(samples), sample_le()));
    vstd::seq_lib::lemma_sorted_unique(samples, ascending(samples), sample_le());
}

/// The summary of samples gives their sum, as far as it can be told, their number, and the percentiles
/// that it names.
pub proof fn summary_adds_up(samples: Seq<u64>, more: u64)
    ensures
        ({
            let before = component(samples);
            let after = component(samples.push(more));
            &&& before.duration_ms + more <= u64::MAX && before.duration_ms < u64::MAX
                ==> after.duration_ms == before.duration_ms + more
            &&& before.duration_ms + more > u64::MAX ==> after.duration_ms == u64::MAX
            &&& samples.len() < usize::MAX ==> after.samples == before.samples + 1
            &&& before.tail_percentiles.p50_ms == percentile(samples, 50, 100)
            &&& before.tail_percentiles.p95_ms == percentile(samples, 95, 100)
            &&& before.tail_percentiles.p99_ms == percentile(samples, 99, 100)
            &&& before.tail_percentiles.p999_ms == percentile(samples, 999, 1000)
        }),
        component(Seq::empty()).duration_ms == 0,
        component(Seq::empty()).samples == 0,
        samples.len() == 0 ==> percentile(samples, 50, 100) == 0,
{
    assert(samples.push(more).drop_last() =~= samples);
}

/// The component that took longest is named, the later one of two that took as long, in the order in
/// which a breakdown tells of them; none is where nothing took any time.
pub proof fn longest_component_dominates(provider: u64, tools: u64, hooks: u64, persistence: u64)
    ensures
        ({
            let name = dominant(provider, tools, hooks, persistence);
            &&& provider == 0 && tools == 0 && hooks == 0 && persistence == 0 ==> name == "none"@
            &&& persistence > 0 && persistence >= provider && persistence >= tools && persistence
                >= hooks ==> name == "persistence"@
            &&& hooks > persistence && hooks >= provider && hooks >= tools ==> name
                == "extension_hostcalls"@
            &&& tools > persistence && tools > hooks && tools >= provider ==> name == "local_tools"@
            &&& provider > persistence && provider > hooks && provider > tools ==> name
                == "provider_streaming"@
        }),
{
}

/// A breakdown summarises each component by its own samples, and names the one that took longest.
pub proof fn breakdown_tells_of_each_component(
    total_ms: u64,
    provider: Seq<u64>,
    tools: Seq<u64>,
    hooks: Seq<u64>,
    persistence: Seq<u64>,
)
    ensures
        ({
            let b = breakdown(total_ms, provider, tools, hooks, persistence);
            &&& b.schema == TURN_LATENCY_BREAKDOWN_SCHEMA_V1@
            &&& b.total_ms == total_ms
            &&& b.provider_streaming == component(provider)
            &&& b.local_tools == component(tools)
            &&& b.extension_hostcalls == component(hooks)
            &&& b.persistence == component(persistence)
            &&& b.dominant_component == dominant(
                b.provider_streaming.duration_ms,
                b.local_tools.duration_ms,
                b.extension_hostcalls.duration_ms,
                b.persistence.duration_ms,
            )
        }),
{
}

} // verus!
