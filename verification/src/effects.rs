//! Which tool calls may run side by side.
use vstd::prelude::*;

verus! {

/// What a tool may touch.
#[derive(Debug, Clone, Copy, PartialEq, Eq, Structural)]
pub struct ToolEffects {
    pub reads: bool,
    pub writes: bool,
    pub appends: bool,
    pub network: bool,
    pub process: bool,
}

impl ToolEffects {
    /// Whether calls with these effects may run side by side: nothing is written, appended or
    /// started.
    pub open spec fn is_parallel_safe(self) -> bool {
        !self.writes && !self.appends && !self.process
    }

    /// The effects of two calls together.
    pub open spec fn joined(self, other: ToolEffects) -> ToolEffects {
        ToolEffects {
            reads: self.reads || other.reads,
            writes: self.writes || other.writes,
            appends: self.appends || other.appends,
            network: self.network || other.network,
            process: self.process || other.process,
        }
    }

    /// Reads only.
    pub fn read() -> (r: Self)
        ensures
            r == (ToolEffects {
                reads: true,
                writes: false,
                appends: false,
                network: false,
                process: false,
            }),
    {
        ToolEffects { reads: true, writes: false, appends: false, network: false, process: false }
    }

    /// Writes.
    pub fn write() -> (r: Self)
        ensures
            r == (ToolEffects {
                reads: false,
                writes: true,
                appends: false,
                network: false,
                process: false,
            }),
    {
        ToolEffects { reads: false, writes: true, appends: false, network: false, process: false }
    }

    /// Appends.
    pub fn append() -> (r: Self)
        ensures
            r == (ToolEffects {
                reads: false,
                writes: false,
                appends: true,
                network: false,
                process: false,
            }),
    {
        ToolEffects { reads: false, writes: false, appends: true, network: false, process: false }
    }

    /// Uses the network.
    pub fn network() -> (r: Self)
        ensures
            r == (ToolEffects {
                reads: false,
                writes: false,
                appends: false,
                network: true,
                process: false,
            }),
    {
        ToolEffects { reads: false, writes: false, appends: false, network: true, process: false }
    }

    /// Starts processes.
    pub fn process() -> (r: Self)
        ensures
            r == (ToolEffects {
                reads: false,
                writes: false,
                appends: false,
                network: false,
                process: true,
            }),
    {
        ToolEffects { reads: false, writes: false, appends: false, network: false, process: true }
    }

    /// The effects of two calls together.
    pub fn union(self, other: ToolEffects) -> (r: Self)
        ensures
            r == self.joined(other),
    {
        ToolEffects {
            reads: self.reads || other.reads,
            writes: self.writes || other.writes,
            appends: self.appends || other.appends,
            network: self.network || other.network,
            process: self.process || other.process,
        }
    }

    /// Whether calls with these effects may run side by side.
    pub fn parallel_safe(self) -> (r: bool)
        ensures
            r == self.is_parallel_safe(),
    {
        !self.writes && !self.appends && !self.process
    }

    /// Whether two calls may run side by side.
    pub fn compatible_with(self, other: ToolEffects) -> (r: bool)
        ensures
            r == (self.is_parallel_safe() && other.is_parallel_safe()),
    {
        self.parallel_safe() && other.parallel_safe()
    }
}

/// A run of calls, from `start` up to but not including `end`, that execute together.
#[derive(Debug, Clone, Copy, PartialEq, Eq, Structural)]
pub struct ToolEffectBatch {
    pub start: usize,
    pub end: usize,
}

/// Whether call `k` may run beside the call before it.
pub open spec fn joins_previous(effects: Seq<ToolEffects>, k: int) -> bool {
    effects[k - 1].is_parallel_safe() && effects[k].is_parallel_safe()
}

/// Whether the batches cover the first `upto` calls in order, without gaps, and part two
/// neighbouring calls exactly where one of them may not run beside the other.
pub open spec fn is_batch_plan(
    effects: Seq<ToolEffects>,
    batches: Seq<ToolEffectBatch>,
    upto: int,
) -> bool {
    &&& (batches.len() == 0 <==> upto == 0)
    &&& batches.len() > 0 ==> batches[0].start == 0 && batches.last().end == upto
    &&& forall|i: int| 0 <= i < batches.len() ==> (#[trigger] batches[i]).start < batches[i].end
    &&& forall|i: int, j: int|
        0 <= i && j == i + 1 && j < batches.len() ==> (#[trigger] batches[j]).start == (
        #[trigger] batches[i]).end
    &&& forall|i: int|
        0 < i < batches.len() ==> !joins_previous(effects, (#[trigger] batches[i]).start as int)
    &&& forall|i: int, k: int|
        0 <= i < batches.len() && (#[trigger] batches[i]).start < k < batches[i].end
            ==> #[trigger] joins_previous(effects, k)
}

/// Splits the calls into batches: as many neighbours as may run side by side share a batch, and
/// the batches run one after the other.
pub fn plan_tool_effect_batches(effects: &[ToolEffects]) -> (r: Vec<ToolEffectBatch>)
    ensures
        is_batch_plan(effects@, r@, effects@.len() as int),
{
    let mut batches: Vec<ToolEffectBatch> = Vec::new();
    if effects.len() == 0 {
        return batches;
    }
    let mut start: usize = 0;
    let mut active = effects[0];
    let mut index: usize = 1;
    while index < effects.len()
        invariant
            1 <= index <= effects@.len(),
            start < index,
            is_batch_plan(effects@, batches@, start as int),
            start > 0 ==> !joins_previous(effects@, start as int),
            forall|k: int| start < k < index ==> #[trigger] joins_previous(effects@, k),
            active.is_parallel_safe() ==> forall|k: int|
                start <= k < index ==> (#[trigger] effects@[k]).is_parallel_safe(),
            !active.is_parallel_safe() ==> index == start + 1
                && !effects@[start as int].is_parallel_safe(),
        decreases effects@.len() - index,
    {
        if active.compatible_with(effects[index]) {
            active = active.union(effects[index]);
            assert(effects@[index - 1].is_parallel_safe());
            assert(joins_previous(effects@, index as int));
        } else {
            batches.push(ToolEffectBatch { start, end: index });
            assert(!joins_previous(effects@, index as int)) by {
                if !active.is_parallel_safe() {
                    assert(!effects@[index - 1].is_parallel_safe());
                }
            }
            start = index;
            active = effects[index];
        }
        index += 1;
    }
    batches.push(ToolEffectBatch { start, end: effects.len() });
    batches
}

/// Only one plan fits a list of calls.
pub proof fn batch_plan_is_unique(
    effects: Seq<ToolEffects>,
    a: Seq<ToolEffectBatch>,
    b: Seq<ToolEffectBatch>,
)
    requires
        is_batch_plan(effects, a, effects.len() as int),
        is_batch_plan(effects, b, effects.len() as int),
    ensures
        a == b,
{
    lemma_plans_agree(effects, a, b, a.len());
    lemma_plans_agree(effects, b, a, b.len());
    assert(a =~= b);
}

/// The first `n` batches of one plan are those of the other.
proof fn lemma_plans_agree(
    effects: Seq<ToolEffects>,
    a: Seq<ToolEffectBatch>,
    b: Seq<ToolEffectBatch>,
    n: nat,
)
    requires
        is_batch_plan(effects, a, effects.len() as int),
        is_batch_plan(effects, b, effects.len() as int),
        n <= a.len(),
    ensures
        n <= b.len(),
        forall|i: int| 0 <= i < n ==> a[i] == b[i],
    decreases n,
{
    if n > 0 {
        lemma_plans_agree(effects, a, b, (n - 1) as nat);
        let i = n - 1;
        lemma_ends_within(effects, a, i);
        if b.len() == i {
            // The last batch of `b` would end before the calls do.
            assert(i > 0);
            assert(b.last() == a[i - 1]);
            assert(a[i].start < a[i].end);
            assert(false);
        }
        lemma_ends_within(effects, b, i);
        assert(a[i].start == b[i].start) by {
            if i > 0 {
                assert(a[i - 1] == b[i - 1]);
            }
        }
        if a[i].end < b[i].end {
            lemma_next_starts(effects, a, i);
            assert(joins_previous(effects, a[i].end as int));
            assert(false);
        }
        if b[i].end < a[i].end {
            lemma_next_starts(effects, b, i);
            assert(joins_previous(effects, b[i].end as int));
            assert(false);
        }
    }
}

/// A batch ends where the calls do, or earlier.
proof fn lemma_ends_within(effects: Seq<ToolEffects>, a: Seq<ToolEffectBatch>, i: int)
    requires
        is_batch_plan(effects, a, effects.len() as int),
        0 <= i < a.len(),
    ensures
        a[i].end <= effects.len(),
    decreases a.len() - i,
{
    if i + 1 < a.len() {
        lemma_ends_within(effects, a, i + 1);
        assert(a[i + 1].start == a[i].end);
    }
}

/// A batch that ends before the calls do is followed by one that could not join it.
proof fn lemma_next_starts(effects: Seq<ToolEffects>, a: Seq<ToolEffectBatch>, i: int)
    requires
        is_batch_plan(effects, a, effects.len() as int),
        0 <= i < a.len(),
        a[i].end < effects.len(),
    ensures
        !joins_previous(effects, a[i].end as int),
{
    assert(i + 1 < a.len());
    assert(a[i + 1].start == a[i].end);
}

/// A call that may not run side by side with others has a batch of its own.
pub proof fn unsafe_call_runs_alone(
    effects: Seq<ToolEffects>,
    batches: Seq<ToolEffectBatch>,
    i: int,
    k: int,
)
    requires
        is_batch_plan(effects, batches, effects.len() as int),
        0 <= i < batches.len(),
        batches[i].start <= k < batches[i].end,
        !effects[k].is_parallel_safe(),
    ensures
        batches[i].end == batches[i].start + 1,
{
    if batches[i].end > batches[i].start + 1 {
        if k > batches[i].start {
            assert(joins_previous(effects, k));
        } else {
            assert(joins_previous(effects, k + 1));
        }
    }
}

/// Every call belongs to some batch.
pub proof fn every_call_has_a_batch(
    effects: Seq<ToolEffects>,
    batches: Seq<ToolEffectBatch>,
    k: int,
)
    requires
        is_batch_plan(effects, batches, effects.len() as int),
        0 <= k < effects.len(),
    ensures
        exists|i: int| 0 <= i < batches.len() && (#[trigger] batches[i]).start <= k < batches[i].end,
{
    lemma_covered_from(effects, batches, k, 0);
}

proof fn lemma_covered_from(
    effects: Seq<ToolEffects>,
    batches: Seq<ToolEffectBatch>,
    k: int,
    from: int,
)
    requires
        is_batch_plan(effects, batches, effects.len() as int),
        0 <= k < effects.len(),
        0 <= from < batches.len(),
        batches[from].start <= k,
    ensures
        exists|i: int| 0 <= i < batches.len() && (#[trigger] batches[i]).start <= k < batches[i].end,
    decreases batches.len() - from,
{
    if k < batches[from].end {
    } else {
        assert(from + 1 < batches.len());
        assert(batches[from + 1].start == batches[from].end);
        lemma_covered_from(effects, batches, k, from + 1);
    }
}

} // verus!
