//! Per-cycle CPU-usage telemetry emitted by the execution driver.
//!
//! Each poll cycle produces an `Enter` event before the engine is driven and
//! a `Leave` event after, carrying the CPU time consumed by that single poll
//! (`diff`) and the running total for the worker's lifetime (`accumulated`).
//! The supervisor consumes these immediately for its limit checks.

use vstd::prelude::*;

verus! {

/// CPU time attributed to one poll cycle, in nanoseconds.
#[derive(Clone, Copy, Debug, PartialEq, Eq, Structural)]
pub struct CPUUsage {
    /// Running total of CPU time consumed over the worker's lifetime.
    pub accumulated: i64,
    /// CPU time consumed by this cycle's poll alone.
    pub diff: i64,
}

/// One telemetry event of the execution driver.
#[derive(Clone, Copy, Debug, PartialEq, Eq, Structural)]
pub enum CPUUsageMetrics {
    /// Emitted before the engine is driven, naming the worker's pinned thread.
    Enter(u64),
    /// Emitted after the poll with the cycle's CPU accounting.
    Leave(CPUUsage),
}

/// Sum of the `diff` fields of the first `n` usage records.
pub open spec fn spec_sum_diffs(us: Seq<CPUUsage>, n: int) -> int
    decreases n,
{
    if n <= 0 {
        0
    } else {
        spec_sum_diffs(us, n - 1) + us[n - 1].diff
    }
}

/// A usage stream is consistent when every record's `accumulated` equals the
/// sum of all `diff` values up to and including its own.
pub open spec fn usage_stream_consistent(us: Seq<CPUUsage>) -> bool {
    forall|j: int| 0 <= j < us.len() ==> #[trigger] us[j].accumulated == spec_sum_diffs(us, j + 1)
}

/// The first `n` diffs of a stream do not depend on the records after them.
pub proof fn lemma_sum_diffs_prefix_stable(us: Seq<CPUUsage>, more: Seq<CPUUsage>, n: int)
    requires
        n <= us.len(),
    ensures
        spec_sum_diffs(us + more, n) == spec_sum_diffs(us, n),
    decreases n,
{
    if n > 0 {
        lemma_sum_diffs_prefix_stable(us, more, n - 1);
        assert((us + more)[n - 1] == us[n - 1]);
    }
}

/// Accounting law for CPU metric streams: in a consistent stream whose
/// cycle costs are non-negative, `accumulated` is monotonically
/// non-decreasing, and each record's `accumulated` is the sum of all prior
/// `diff` values plus its own.
pub proof fn lemma_consistent_stream_monotone(us: Seq<CPUUsage>)
    requires
        usage_stream_consistent(us),
        forall|j: int| 0 <= j < us.len() ==> (#[trigger] us[j].diff) >= 0,
    ensures
        forall|j: int|
            0 <= j < us.len() - 1 ==> #[trigger] us[j].accumulated <= us[j + 1].accumulated,
        forall|j: int|
            0 <= j < us.len() ==> #[trigger] us[j].accumulated == spec_sum_diffs(us, j)
                + us[j].diff,
{
    assert forall|j: int| 0 <= j < us.len() - 1 implies #[trigger] us[j].accumulated <= us[j
        + 1].accumulated by {
        assert(us[j].accumulated == spec_sum_diffs(us, j + 1));
        assert(us[j + 1].accumulated == spec_sum_diffs(us, j + 2));
        assert(spec_sum_diffs(us, j + 2) == spec_sum_diffs(us, j + 1) + us[j + 1].diff);
    }
}

} // verus!
