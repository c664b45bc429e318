//! The execution driver: runs one worker's event loop to quiescence or
//! forced stop, metering CPU time.
//!
//! The engine is driven one non-blocking poll step per cycle. Immediately
//! before and after each poll the driver reads the worker thread's consumed
//! CPU time; the delta is attributed solely to this worker. A raised
//! termination flag turns a pending poll into completion, which bounds
//! shutdown latency once termination is requested. Failures of the CPU
//! clock query are fatal to the run ([`ErrorKind::ClockError`]); faults
//! reported by the engine surface as [`ErrorKind::EngineFault`].
//!
//! The engine itself is an external collaborator: one run is modelled by
//! the sequence of observations the driver makes of it — the per-cycle
//! clock readings, poll outcomes and termination-flag snapshots.

use vstd::prelude::*;
use crate::errors::ErrorKind;
use crate::metrics::{
    lemma_sum_diffs_prefix_stable,
    spec_sum_diffs,
    usage_stream_consistent,
    CPUUsage,
    CPUUsageMetrics,
};

verus! {

/// What the engine's single poll step reported in one cycle.
#[derive(Clone, Copy, Debug, PartialEq, Eq, Structural)]
pub enum PollOutcome {
    /// The event loop ran to quiescence.
    ReadyOk,
    /// The event loop reported an internal fault.
    ReadyErr,
    /// Work is still pending.
    Pending,
}

/// The driver's observations during one poll cycle.
#[derive(Clone, Copy, Debug, PartialEq, Eq, Structural)]
pub struct PollCycle {
    /// The worker's termination flag as read in this cycle.
    pub termination_requested: bool,
    /// Thread CPU time right before the poll; `None` when the query failed.
    pub clock_before: Option<i64>,
    /// What the poll step reported.
    pub poll: PollOutcome,
    /// Thread CPU time right after the poll; `None` when the query failed.
    pub clock_after: Option<i64>,
}

impl PollCycle {
    /// Both clock queries of the cycle succeeded.
    pub open spec fn clock_ok(self) -> bool {
        self.clock_before is Some && self.clock_after is Some
    }

    /// The clock readings are plausible thread CPU times: non-negative and
    /// non-decreasing across the poll.
    pub open spec fn clock_monotone(self) -> bool {
        self.clock_ok() ==> match (self.clock_before, self.clock_after) {
            (Some(b), Some(a)) => 0 <= b <= a,
            _ => false,
        }
    }

    /// CPU time attributed to this cycle: the clock delta around the poll,
    /// or zero when a clock query failed and no accounting took place.
    pub open spec fn spec_diff(self) -> int {
        match (self.clock_before, self.clock_after) {
            (Some(b), Some(a)) => a - b,
            _ => 0,
        }
    }

    /// Whether this cycle ends the run: a clock failure, a completed or
    /// faulted event loop, or pending work while termination is requested.
    pub open spec fn stops(self) -> bool {
        !self.clock_ok() || !(self.poll is Pending) || self.termination_requested
    }

    /// The run's result when this cycle ends it. `mod_ok` is the outcome the
    /// engine reported for the entry module's evaluation, consulted only
    /// when the event loop completed cleanly.
    pub open spec fn spec_outcome(self, mod_ok: bool) -> Result<(), ErrorKind> {
        if !self.clock_ok() {
            Err(ErrorKind::ClockError)
        } else if self.poll is ReadyErr {
            Err(ErrorKind::EngineFault)
        } else if self.poll is ReadyOk {
            if mod_ok {
                Ok(())
            } else {
                Err(ErrorKind::EngineFault)
            }
        } else {
            Ok(())
        }
    }
}

/// Index of the first cycle that ends the run; `cycles.len()` when none does.
pub open spec fn spec_stop_index(cycles: Seq<PollCycle>) -> int
    decreases cycles.len(),
{
    if cycles.len() == 0 {
        0
    } else if cycles[0].stops() {
        0
    } else {
        1 + spec_stop_index(cycles.subrange(1, cycles.len() as int))
    }
}

/// How many cycles the driver executes: every cycle up to and including the
/// stopping one, or all of them when none stops.
pub open spec fn spec_executed(cycles: Seq<PollCycle>) -> int {
    if spec_stop_index(cycles) < cycles.len() {
        spec_stop_index(cycles) + 1
    } else {
        cycles.len() as int
    }
}

/// CPU time accumulated over the first `n` cycles.
pub open spec fn spec_accumulated(cycles: Seq<PollCycle>, n: int) -> int
    decreases n,
{
    if n <= 0 {
        0
    } else {
        spec_accumulated(cycles, n - 1) + cycles[n - 1].spec_diff()
    }
}

/// The run's result as observable after `cycles`: `None` while the loop is
/// still pending, otherwise the stopping cycle's outcome.
pub open spec fn spec_run_outcome(cycles: Seq<PollCycle>, mod_ok: bool) -> Option<
    Result<(), ErrorKind>,
> {
    if spec_stop_index(cycles) < cycles.len() {
        Some(cycles[spec_stop_index(cycles)].spec_outcome(mod_ok))
    } else {
        None
    }
}

/// The telemetry of one cycle: `Enter` before the poll and, when both clock
/// queries succeeded, `Leave` with the accounting after it.
pub open spec fn spec_cycle_metrics(c: PollCycle, acc_after: int, thread_id: u64) -> Seq<
    CPUUsageMetrics,
> {
    if c.clock_ok() {
        seq![
            CPUUsageMetrics::Enter(thread_id),
            CPUUsageMetrics::Leave(
                CPUUsage { accumulated: acc_after as i64, diff: c.spec_diff() as i64 },
            ),
        ]
    } else {
        seq![CPUUsageMetrics::Enter(thread_id)]
    }
}

/// The telemetry emitted over the first `n` cycles.
pub open spec fn spec_metrics(cycles: Seq<PollCycle>, n: int, thread_id: u64) -> Seq<
    CPUUsageMetrics,
>
    decreases n,
{
    if n <= 0 {
        Seq::empty()
    } else {
        spec_metrics(cycles, n - 1, thread_id) + spec_cycle_metrics(
            cycles[n - 1],
            spec_accumulated(cycles, n),
            thread_id,
        )
    }
}

/// Every clock reading in `cycles` is non-negative and non-decreasing
/// across its poll.
pub open spec fn clocks_monotone(cycles: Seq<PollCycle>) -> bool {
    forall|i: int| 0 <= i < cycles.len() ==> (#[trigger] cycles[i]).clock_monotone()
}

/// Accumulated CPU time never decreases as more cycles execute.
pub proof fn lemma_accumulated_monotone(cycles: Seq<PollCycle>, m: int, n: int)
    requires
        clocks_monotone(cycles),
        0 <= m <= n <= cycles.len(),
    ensures
        spec_accumulated(cycles, m) <= spec_accumulated(cycles, n),
    decreases n - m,
{
    if m < n {
        lemma_accumulated_monotone(cycles, m, n - 1);
        assert(cycles[n - 1].clock_monotone());
    }
}

/// What one run of the driver produced.
pub struct RunReport {
    /// `None` when the observations were exhausted while the event loop was
    /// still pending; otherwise the run's result.
    pub outcome: Option<Result<(), ErrorKind>>,
    /// Total CPU time attributed to the worker by this run, in nanoseconds.
    pub accumulated_ns: i64,
    /// The telemetry emitted, in order.
    pub metrics: Vec<CPUUsageMetrics>,
}

/// Drives one worker's event loop over the given per-cycle observations.
///
/// Each cycle emits `Enter`, reads the clock, polls once, reads the clock
/// again and emits `Leave` with the delta attributed to this worker. The
/// run ends at the first cycle whose clock fails (`ClockError`), whose poll
/// completes or faults, or whose pending poll coincides with a raised
/// termination flag — pending work is then treated as completion rather
/// than blocking, so shutdown latency stays bounded.
pub fn drive_event_loop(cycles: &Vec<PollCycle>, mod_ok: bool, thread_id: u64) -> (report:
    RunReport)
    requires
        clocks_monotone(cycles@),
        spec_accumulated(cycles@, cycles@.len() as int) <= i64::MAX,
    ensures
        report.outcome == spec_run_outcome(cycles@, mod_ok),
        report.accumulated_ns == spec_accumulated(cycles@, spec_executed(cycles@)),
        report.metrics@ == spec_metrics(cycles@, spec_executed(cycles@), thread_id),
{
    let ghost s = cycles@;
    let mut metrics: Vec<CPUUsageMetrics> = Vec::new();
    let mut accumulated: i64 = 0;
    let mut outcome: Option<Result<(), ErrorKind>> = None;
    let mut i: usize = 0;
    loop
        invariant_except_break
            outcome is None,
            forall|j: int| 0 <= j < i ==> !(#[trigger] s[j]).stops(),
        invariant
            0 <= i <= s.len(),
            s == cycles@,
            clocks_monotone(s),
            spec_accumulated(s, s.len() as int) <= i64::MAX,
            accumulated == spec_accumulated(s, i as int),
            metrics@ == spec_metrics(s, i as int, thread_id),
        ensures
            accumulated == spec_accumulated(s, i as int),
            metrics@ == spec_metrics(s, i as int, thread_id),
            match outcome {
                None => i == s.len() && (forall|j: int|
                    0 <= j < i ==> !(#[trigger] s[j]).stops()),
                Some(r) => (1 <= i <= s.len() && (forall|j: int|
                    0 <= j < i - 1 ==> !(#[trigger] s[j]).stops()) && s[i - 1].stops() && r
                    == s[i - 1].spec_outcome(mod_ok)),
            },
        decreases s.len() - i,
    {
        if i >= cycles.len() {
            break ;
        }
        let c = cycles[i];
        let ghost prev_metrics = metrics@;
        proof {
            lemma_accumulated_monotone(s, 0, i as int);
            lemma_accumulated_monotone(s, i + 1, s.len() as int);
            assert(c.clock_monotone());
        }
        metrics.push(CPUUsageMetrics::Enter(thread_id));
        let (before, after) = match (c.clock_before, c.clock_after) {
            (Some(b), Some(a)) => (b, a),
            _ => {
                proof {
                    assert(!c.clock_ok());
                    assert(c.spec_diff() == 0);
                    assert(metrics@ =~= spec_metrics(s, i + 1, thread_id));
                }
                outcome = Some(Err(ErrorKind::ClockError));
                i = i + 1;
                break ;
            },
        };
        let diff = after - before;
        accumulated = accumulated + diff;
        metrics.push(CPUUsageMetrics::Leave(CPUUsage { accumulated, diff }));
        proof {
            assert(metrics@ =~= spec_metrics(s, i + 1, thread_id));
        }
        let stop: Option<Result<(), ErrorKind>> = match c.poll {
            PollOutcome::ReadyErr => Some(Err(ErrorKind::EngineFault)),
            PollOutcome::ReadyOk => Some(
                if mod_ok {
                    Ok(())
                } else {
                    Err(ErrorKind::EngineFault)
                },
            ),
            PollOutcome::Pending => {
                if c.termination_requested {
                    Some(Ok(()))
                } else {
                    None
                }
            },
        };
        i = i + 1;
        match stop {
            Some(r) => {
                outcome = Some(r);
                break ;
            },
            None => {
                assert(!c.stops());
            },
        }
    }
    proof {
        match outcome {
            Some(_) => lemma_stop_index_found(s, i as int - 1),
            None => lemma_stop_index_none(s),
        }
    }
    RunReport { outcome, accumulated_ns: accumulated, metrics }
}

/// The `Leave` records of a telemetry sequence, in order.
pub open spec fn leaves_of(ms: Seq<CPUUsageMetrics>) -> Seq<CPUUsage>
    decreases ms.len(),
{
    if ms.len() == 0 {
        Seq::empty()
    } else {
        leaves_of(ms.drop_last()) + (match ms.last() {
            CPUUsageMetrics::Leave(u) => seq![u],
            CPUUsageMetrics::Enter(_) => Seq::empty(),
        })
    }
}

/// Extracting `Leave` records distributes over concatenation.
proof fn lemma_leaves_concat(a: Seq<CPUUsageMetrics>, b: Seq<CPUUsageMetrics>)
    ensures
        leaves_of(a + b) == leaves_of(a) + leaves_of(b),
    decreases b.len(),
{
    if b.len() == 0 {
        assert(a + b =~= a);
        assert(leaves_of(a) + leaves_of(b) =~= leaves_of(a));
    } else {
        assert((a + b).drop_last() =~= a + b.drop_last());
        assert((a + b).last() == b.last());
        lemma_leaves_concat(a, b.drop_last());
        assert(leaves_of(a + b) =~= leaves_of(a) + leaves_of(b));
    }
}

/// One cycle's telemetry contributes exactly its `Leave` record, when the
/// cycle had one.
proof fn lemma_leaves_of_cycle(c: PollCycle, acc_after: int, thread_id: u64)
    ensures
        leaves_of(spec_cycle_metrics(c, acc_after, thread_id)) == if c.clock_ok() {
            seq![CPUUsage { accumulated: acc_after as i64, diff: c.spec_diff() as i64 }]
        } else {
            Seq::<CPUUsage>::empty()
        },
{
    let e = CPUUsageMetrics::Enter(thread_id);
    let cm = spec_cycle_metrics(c, acc_after, thread_id);
    assert(seq![e].drop_last() =~= Seq::<CPUUsageMetrics>::empty());
    assert(leaves_of(Seq::<CPUUsageMetrics>::empty()) =~= Seq::<CPUUsage>::empty());
    assert(leaves_of(seq![e]) =~= Seq::<CPUUsage>::empty());
    if c.clock_ok() {
        let u = CPUUsage { accumulated: acc_after as i64, diff: c.spec_diff() as i64 };
        assert(cm.last() == CPUUsageMetrics::Leave(u));
        assert(cm.drop_last() =~= seq![e]);
        assert(leaves_of(cm) =~= seq![u]);
    } else {
        assert(cm =~= seq![e]);
        assert(leaves_of(cm) =~= Seq::<CPUUsage>::empty());
    }
}

/// CPU accounting law of the driver: over any prefix of a run whose clock
/// readings are monotone, the emitted `Leave` records form a consistent
/// usage stream — each record's `accumulated` equals the sum of all `diff`
/// values emitted so far, which in turn equals the CPU time the executed
/// cycles consumed — and every per-cycle cost is non-negative. Together
/// with [`crate::metrics::lemma_consistent_stream_monotone`] this gives the
/// monotonicity of `accumulated` across a worker's telemetry.
pub proof fn lemma_driver_metrics_consistent(cycles: Seq<PollCycle>, n: int, thread_id: u64)
    requires
        clocks_monotone(cycles),
        0 <= n <= cycles.len(),
        spec_accumulated(cycles, n) <= i64::MAX,
    ensures
        usage_stream_consistent(leaves_of(spec_metrics(cycles, n, thread_id))),
        spec_sum_diffs(
            leaves_of(spec_metrics(cycles, n, thread_id)),
            leaves_of(spec_metrics(cycles, n, thread_id)).len() as int,
        ) == spec_accumulated(cycles, n),
        forall|j: int|
            0 <= j < leaves_of(spec_metrics(cycles, n, thread_id)).len() ==> (#[trigger] leaves_of(
                spec_metrics(cycles, n, thread_id),
            )[j]).diff >= 0,
    decreases n,
{
    if n > 0 {
        let c = cycles[n - 1];
        let acc_prev = spec_accumulated(cycles, n - 1);
        let acc_n = spec_accumulated(cycles, n);
        let m1 = spec_metrics(cycles, n - 1, thread_id);
        let cm = spec_cycle_metrics(c, acc_n, thread_id);
        let l1 = leaves_of(m1);
        assert(c.clock_monotone());
        lemma_accumulated_monotone(cycles, 0, n - 1);
        lemma_accumulated_monotone(cycles, n - 1, n);
        lemma_driver_metrics_consistent(cycles, n - 1, thread_id);
        lemma_leaves_concat(m1, cm);
        lemma_leaves_of_cycle(c, acc_n, thread_id);
        if c.clock_ok() {
            let u = CPUUsage { accumulated: acc_n as i64, diff: c.spec_diff() as i64 };
            let l = leaves_of(m1 + cm);
            assert(l =~= l1.push(u));
            assert forall|j: int| 0 <= j < l.len() implies #[trigger] l[j].accumulated
                == spec_sum_diffs(l, j + 1) by {
                if j < l1.len() {
                    lemma_sum_diffs_prefix_stable(l1, seq![u], j + 1);
                    assert(l[j] == l1[j]);
                } else {
                    assert(j == l1.len());
                    lemma_sum_diffs_prefix_stable(l1, seq![u], j);
                    assert(spec_sum_diffs(l, j + 1) == spec_sum_diffs(l, j) + l[j].diff);
                    assert(spec_sum_diffs(l, j) == spec_sum_diffs(l1, j));
                    assert(l[j] == u);
                    assert(u.accumulated == acc_n);
                    assert(u.diff == acc_n - acc_prev);
                }
            }
            assert(spec_sum_diffs(l, l.len() as int) == spec_sum_diffs(l, l.len() - 1) + u.diff);
            lemma_sum_diffs_prefix_stable(l1, seq![u], l1.len() as int);
        } else {
            assert(leaves_of(m1 + cm) =~= l1);
            assert(acc_n == acc_prev);
        }
    }
}

/// When the cycles before `k` do not stop the run and `k`'s cycle does,
/// `k` is the stop index.
proof fn lemma_stop_index_found(cycles: Seq<PollCycle>, k: int)
    requires
        0 <= k < cycles.len(),
        forall|j: int| 0 <= j < k ==> !(#[trigger] cycles[j]).stops(),
        cycles[k].stops(),
    ensures
        spec_stop_index(cycles) == k,
    decreases k,
{
    if k > 0 {
        let tail = cycles.subrange(1, cycles.len() as int);
        assert forall|j: int| 0 <= j < k - 1 implies !(#[trigger] tail[j]).stops() by {
            assert(tail[j] == cycles[j + 1]);
        }
        assert(tail[k - 1] == cycles[k]);
        lemma_stop_index_found(tail, k - 1);
    }
}

/// When no cycle stops the run, the stop index is the sequence's length.
proof fn lemma_stop_index_none(cycles: Seq<PollCycle>)
    requires
        forall|j: int| 0 <= j < cycles.len() ==> !(#[trigger] cycles[j]).stops(),
    ensures
        spec_stop_index(cycles) == cycles.len(),
    decreases cycles.len(),
{
    if cycles.len() > 0 {
        let tail = cycles.subrange(1, cycles.len() as int);
        assert forall|j: int| 0 <= j < tail.len() implies !(#[trigger] tail[j]).stops() by {
            assert(tail[j] == cycles[j + 1]);
        }
        lemma_stop_index_none(tail);
    }
}

} // verus!
