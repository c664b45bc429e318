//! The closed loop between the execution driver and the supervisor.
//!
//! The driver meters each poll cycle and emits telemetry; the supervisor
//! checks every `Leave` against the worker's CPU ceilings and forces
//! termination on a hard breach; the driver observes the raised flag at
//! its next poll boundary and stops. [`supervised_run`] runs that loop
//! over the engine's per-cycle observations and carries the two laws of
//! the composition in its contract: a worker whose accumulated CPU time
//! reaches its hard ceiling is terminating and never again running, and
//! the recorded total overshoots the ceiling by less than two poll cycles
//! — the one that crossed it and the one that observed the flag.

use vstd::prelude::*;
use crate::errors::{ErrorKind, LimitTier};
use crate::metrics::CPUUsage;
use crate::pool::{WorkerPool, WorkerState};

verus! {

/// The engine-side observations of one poll cycle, before the supervisor
/// decides anything: the clock readings around the poll and its outcome.
#[derive(Clone, Copy, Debug, PartialEq, Eq, Structural)]
pub struct EngineCycle {
    /// Thread CPU time right before the poll; `None` when the query failed.
    pub clock_before: Option<i64>,
    /// What the poll step reported.
    pub poll: crate::driver::PollOutcome,
    /// Thread CPU time right after the poll; `None` when the query failed.
    pub clock_after: Option<i64>,
}

impl EngineCycle {
    /// Both clock queries of the cycle succeeded.
    pub open spec fn clock_ok(self) -> bool {
        self.clock_before is Some && self.clock_after is Some
    }

    /// The clock readings are plausible thread CPU times.
    pub open spec fn clock_monotone(self) -> bool {
        self.clock_ok() ==> match (self.clock_before, self.clock_after) {
            (Some(b), Some(a)) => 0 <= b <= a,
            _ => false,
        }
    }

    /// CPU time attributed to this cycle.
    pub open spec fn spec_diff(self) -> int {
        match (self.clock_before, self.clock_after) {
            (Some(b), Some(a)) => a - b,
            _ => 0,
        }
    }
}

/// Every clock reading is non-negative and non-decreasing across its poll.
pub open spec fn engine_clocks_monotone(cycles: Seq<EngineCycle>) -> bool {
    forall|i: int| 0 <= i < cycles.len() ==> (#[trigger] cycles[i]).clock_monotone()
}

/// The largest single-cycle CPU cost among the observations.
pub open spec fn spec_max_diff(cycles: Seq<EngineCycle>) -> int
    decreases cycles.len(),
{
    if cycles.len() == 0 {
        0
    } else if cycles.last().spec_diff() >= spec_max_diff(cycles.drop_last()) {
        cycles.last().spec_diff()
    } else {
        spec_max_diff(cycles.drop_last())
    }
}

/// No cycle costs more than the largest cycle cost.
proof fn lemma_diff_le_max(cycles: Seq<EngineCycle>, j: int)
    requires
        0 <= j < cycles.len(),
    ensures
        cycles[j].spec_diff() <= spec_max_diff(cycles),
    decreases cycles.len(),
{
    if j < cycles.len() - 1 {
        lemma_diff_le_max(cycles.drop_last(), j);
    }
}

/// With monotone clocks, no cycle cost is negative, so neither is the
/// largest.
proof fn lemma_max_diff_nonneg(cycles: Seq<EngineCycle>)
    requires
        engine_clocks_monotone(cycles),
    ensures
        spec_max_diff(cycles) >= 0,
    decreases cycles.len(),
{
    if cycles.len() > 0 {
        assert(engine_clocks_monotone(cycles.drop_last())) by {
            assert(forall|i: int|
                0 <= i < cycles.len() - 1 ==> cycles.drop_last()[i] == cycles[i]);
        }
        lemma_max_diff_nonneg(cycles.drop_last());
    }
}

/// The supervisor's escalation rule, as one step: the state a live worker
/// holds after its accumulated CPU time reaches `acc`.
pub open spec fn spec_next_state(st: WorkerState, acc: int, hard: int, soft: int) -> WorkerState {
    if !(st is Running || st is SoftLimitWarned) {
        st
    } else if acc >= hard {
        WorkerState::Terminating
    } else if acc >= soft && st is Running {
        WorkerState::SoftLimitWarned
    } else {
        st
    }
}

/// The closed loop of driver and supervisor, from cycle `j` onward with
/// CPU total `acc` and worker state `st`: each cycle meters the poll,
/// escalates against the ceilings, and the run ends at a clock failure, a
/// completed or faulted event loop, or a pending poll entered with
/// termination already forced. Yields the run's outcome — `None` when the
/// observations end first — and the final CPU total.
pub open spec fn spec_run_model(
    s: Seq<EngineCycle>,
    j: int,
    acc: int,
    st: WorkerState,
    hard: int,
    soft: int,
    mod_ok: bool,
) -> (Option<Result<(), ErrorKind>>, int)
    decreases s.len() - j,
{
    if j < 0 || j >= s.len() {
        (None, acc)
    } else {
        let c = s[j];
        if !c.clock_ok() {
            (Some(Err(ErrorKind::ClockError)), acc)
        } else {
            let acc2 = acc + c.spec_diff();
            let st2 = spec_next_state(st, acc2, hard, soft);
            match c.poll {
                crate::driver::PollOutcome::ReadyErr => (Some(Err(ErrorKind::EngineFault)), acc2),
                crate::driver::PollOutcome::ReadyOk => (
                    Some(
                        if mod_ok {
                            Ok(())
                        } else {
                            Err(ErrorKind::EngineFault)
                        },
                    ),
                    acc2,
                ),
                crate::driver::PollOutcome::Pending => if st is Terminating {
                    (Some(Ok(())), acc2)
                } else {
                    spec_run_model(s, j + 1, acc2, st2, hard, soft, mod_ok)
                },
            }
        }
    }
}

/// Runs worker `i`'s event loop to its end or to its forced stop,
/// enforcing the worker's CPU ceilings on every emitted `Leave`.
///
/// Returns the run's outcome — `None` when the observations ran out with
/// work still pending — and the total CPU time attributed to the worker.
/// The exact per-cycle accounting is the driver's contract
/// ([`crate::driver::drive_event_loop`]) and the exact escalation rule the
/// supervisor's ([`WorkerPool::on_cpu_usage`]); this composition adds what
/// only their interplay gives:
///
/// - whenever the worker's recorded CPU time has reached its hard
///   ceiling, the worker is `Terminating` — within the poll cycle that
///   crossed the ceiling — and, the lifecycle being one-way, never again
///   `Running`;
/// - termination interrupts the loop at the next poll boundary, so the
///   total attributed CPU time overshoots the hard ceiling by less than
///   the cost of two poll cycles: the one that crossed the ceiling and
///   the cheap one that observed the raised flag.
pub fn supervised_run(
    pool: &mut WorkerPool,
    i: usize,
    cycles: &Vec<EngineCycle>,
    mod_ok: bool,
) -> (r: (Option<Result<(), ErrorKind>>, i64))
    requires
        old(pool).wf(),
        i < old(pool).workers@.len(),
        old(pool).workers@[i as int].state is Running,
        old(pool).workers@[i as int].accumulated_cpu_ns == 0,
        old(pool).workers@[i as int].opts.spec_hard_limit_ns() >= 1,
        engine_clocks_monotone(cycles@),
        old(pool).workers@[i as int].opts.spec_hard_limit_ns() + 2 * spec_max_diff(cycles@)
            <= i64::MAX,
    ensures
        final(pool).wf(),
        final(pool).policy == old(pool).policy,
        final(pool).next_id == old(pool).next_id,
        final(pool).workers@.len() == old(pool).workers@.len(),
        forall|k: int|
            0 <= k < old(pool).workers@.len() && k != i ==> final(pool).workers@[k] == old(
                pool,
            ).workers@[k],
        final(pool).workers@[i as int].opts == old(pool).workers@[i as int].opts,
        final(pool).workers@[i as int].state is Running || final(pool).workers@[i as int].state
            is SoftLimitWarned || final(pool).workers@[i as int].state is Terminating,
        final(pool).workers@[i as int].accumulated_cpu_ns >= old(
            pool,
        ).workers@[i as int].opts.spec_hard_limit_ns() ==> final(pool).workers@[i as int].state
            is Terminating,
        r.1 < old(pool).workers@[i as int].opts.spec_hard_limit_ns() + 2 * spec_max_diff(cycles@),
        0 <= r.1,
        ({
            let hard = old(pool).workers@[i as int].opts.spec_hard_limit_ns();
            let soft = old(pool).workers@[i as int].opts.spec_soft_limit_ns();
            let m = spec_run_model(cycles@, 0, 0, WorkerState::Running, hard, soft, mod_ok);
            r.0 == m.0 && r.1 == m.1
        }),
{
    let ghost s = cycles@;
    let ghost opts0 = pool.workers@[i as int].opts;
    let ghost hard_g = opts0.spec_hard_limit_ns();
    let ghost soft_g = opts0.spec_soft_limit_ns();
    let ghost total = spec_run_model(s, 0, 0, WorkerState::Running, hard_g, soft_g, mod_ok);
    let hard = pool.workers[i].opts.hard_limit_ns();
    proof {
        lemma_max_diff_nonneg(s);
    }
    let mut acc: i64 = 0;
    let mut j: usize = 0;
    let mut done: Option<(Option<Result<(), ErrorKind>>, i64)> = None;
    loop
        invariant_except_break
            done is None,
            pool.workers@[i as int].state is Running || pool.workers@[i as int].state
                is SoftLimitWarned,
            acc == pool.workers@[i as int].accumulated_cpu_ns,
            0 <= acc < hard_g,
            spec_run_model(
                s,
                j as int,
                acc as int,
                pool.workers@[i as int].state,
                hard_g,
                soft_g,
                mod_ok,
            ) == total,
        invariant
            pool.wf(),
            s == cycles@,
            engine_clocks_monotone(s),
            0 <= j <= s.len(),
            i < pool.workers@.len(),
            pool.workers@.len() == old(pool).workers@.len(),
            pool.policy == old(pool).policy,
            pool.next_id == old(pool).next_id,
            forall|k: int|
                0 <= k < old(pool).workers@.len() && k != i ==> pool.workers@[k] == old(
                    pool,
                ).workers@[k],
            pool.workers@[i as int].opts == opts0,
            hard == hard_g,
            hard_g == opts0.spec_hard_limit_ns(),
            soft_g == opts0.spec_soft_limit_ns(),
            total == spec_run_model(s, 0, 0, WorkerState::Running, hard_g, soft_g, mod_ok),
            hard_g >= 1,
            hard_g + 2 * spec_max_diff(s) <= i64::MAX,
            spec_max_diff(s) >= 0,
        ensures
            pool.workers@[i as int].state is Running || pool.workers@[i as int].state
                is SoftLimitWarned || pool.workers@[i as int].state is Terminating,
            pool.workers@[i as int].accumulated_cpu_ns >= hard_g ==> pool.workers@[i as int].state
                is Terminating,
            0 <= acc < hard_g + 2 * spec_max_diff(s),
            done matches Some(d) && d.1 == acc && d.0 == total.0 && d.1 == total.1,
        decreases s.len() - j,
    {
        if j >= cycles.len() {
            // Observations exhausted with work still pending.
            proof {
                assert(spec_run_model(
                    s,
                    j as int,
                    acc as int,
                    pool.workers@[i as int].state,
                    hard_g,
                    soft_g,
                    mod_ok,
                ) == (None::<Result<(), ErrorKind>>, acc as int));
            }
            done = Some((None, acc));
            break ;
        }
        let c = cycles[j];
        let ghost acc0 = acc as int;
        let ghost st0 = pool.workers@[i as int].state;
        proof {
            assert(c.clock_monotone());
            lemma_diff_le_max(s, j as int);
        }
        let (before, after) = match (c.clock_before, c.clock_after) {
            (Some(b), Some(a)) => (b, a),
            _ => {
                // The CPU-time query failed: fatal to this run; no Leave
                // was emitted, so the supervisor saw nothing new.
                proof {
                    assert(!c.clock_ok());
                    assert(spec_run_model(s, j as int, acc0, st0, hard_g, soft_g, mod_ok) == (
                    Some(Err::<(), ErrorKind>(ErrorKind::ClockError)),
                    acc0,
                    ));
                }
                done = Some((Some(Err(ErrorKind::ClockError)), acc));
                break ;
            },
        };
        let diff = after - before;
        acc = acc + diff;
        let breach = pool.on_cpu_usage(i, CPUUsage { accumulated: acc, diff });
        proof {
            assert(c.spec_diff() == diff);
            assert(pool.workers@[i as int].state == spec_next_state(
                st0,
                acc as int,
                hard_g,
                soft_g,
            ));
        }
        let hard_breach = match breach {
            Some(ErrorKind::LimitExceeded(LimitTier::Hard, _)) => true,
            _ => false,
        };
        if hard_breach {
            // The ceiling was crossed in this very cycle; the worker is
            // terminating. The driver's own stop conditions still apply
            // to the cycle that was already polled...
            let outcome: Option<Result<(), ErrorKind>> = match c.poll {
                crate::driver::PollOutcome::ReadyErr => Some(Err(ErrorKind::EngineFault)),
                crate::driver::PollOutcome::ReadyOk => Some(
                    if mod_ok {
                        Ok(())
                    } else {
                        Err(ErrorKind::EngineFault)
                    },
                ),
                crate::driver::PollOutcome::Pending => None,
            };
            match outcome {
                Some(res) => {
                    proof {
                        assert(spec_run_model(s, j as int, acc0, st0, hard_g, soft_g, mod_ok) == (
                        Some(res),
                        acc as int,
                        ));
                    }
                    done = Some((Some(res), acc));
                    break ;
                },
                None => {
                    // ...and a pending loop observes the raised flag at
                    // the next poll boundary: one more cycle runs, with
                    // the message pump off, and the run ends there.
                    proof {
                        assert(acc >= hard_g);
                        assert(pool.workers@[i as int].state is Terminating);
                        assert(spec_run_model(s, j as int, acc0, st0, hard_g, soft_g, mod_ok)
                            == spec_run_model(
                            s,
                            j + 1,
                            acc as int,
                            WorkerState::Terminating,
                            hard_g,
                            soft_g,
                            mod_ok,
                        ));
                    }
                    if j + 1 >= cycles.len() {
                        proof {
                            assert(spec_run_model(
                                s,
                                j + 1,
                                acc as int,
                                WorkerState::Terminating,
                                hard_g,
                                soft_g,
                                mod_ok,
                            ) == (None::<Result<(), ErrorKind>>, acc as int));
                        }
                        done = Some((None, acc));
                        break ;
                    }
                    let c2 = cycles[j + 1];
                    proof {
                        assert(c2.clock_monotone());
                        lemma_diff_le_max(s, j + 1);
                    }
                    let (b2, a2) = match (c2.clock_before, c2.clock_after) {
                        (Some(b2), Some(a2)) => (b2, a2),
                        _ => {
                            proof {
                                assert(spec_run_model(
                                    s,
                                    j + 1,
                                    acc as int,
                                    WorkerState::Terminating,
                                    hard_g,
                                    soft_g,
                                    mod_ok,
                                ) == (Some(Err::<(), ErrorKind>(ErrorKind::ClockError)), acc as int));
                            }
                            done = Some((Some(Err(ErrorKind::ClockError)), acc));
                            break ;
                        },
                    };
                    let ghost acc_mid = acc as int;
                    acc = acc + (a2 - b2);
                    // The worker is already terminating: this metric is
                    // stale and the supervisor ignores it.
                    let stale = pool.on_cpu_usage(
                        i,
                        CPUUsage { accumulated: acc, diff: a2 - b2 },
                    );
                    proof {
                        assert(stale is None);
                    }
                    let res: Result<(), ErrorKind> = match c2.poll {
                        crate::driver::PollOutcome::ReadyErr => Err(ErrorKind::EngineFault),
                        crate::driver::PollOutcome::ReadyOk => if mod_ok {
                            Ok(())
                        } else {
                            Err(ErrorKind::EngineFault)
                        },
                        crate::driver::PollOutcome::Pending => Ok(()),
                    };
                    proof {
                        assert(c2.spec_diff() == a2 - b2);
                        assert(spec_run_model(
                            s,
                            j + 1,
                            acc_mid,
                            WorkerState::Terminating,
                            hard_g,
                            soft_g,
                            mod_ok,
                        ) == (Some(res), acc as int));
                    }
                    done = Some((Some(res), acc));
                    break ;
                },
            }
        }
        // No hard breach: the worker stays live (a soft breach only
        // warned it) and the driver decides whether the loop goes on.
        match c.poll {
            crate::driver::PollOutcome::ReadyErr => {
                proof {
                    assert(spec_run_model(s, j as int, acc0, st0, hard_g, soft_g, mod_ok) == (
                    Some(Err::<(), ErrorKind>(ErrorKind::EngineFault)),
                    acc as int,
                    ));
                }
                done = Some((Some(Err(ErrorKind::EngineFault)), acc));
                break ;
            },
            crate::driver::PollOutcome::ReadyOk => {
                proof {
                    assert(spec_run_model(s, j as int, acc0, st0, hard_g, soft_g, mod_ok).1
                        == acc as int);
                }
                done = Some(
                    (
                        Some(
                            if mod_ok {
                                Ok(())
                            } else {
                                Err(ErrorKind::EngineFault)
                            },
                        ),
                        acc,
                    ),
                );
                break ;
            },
            crate::driver::PollOutcome::Pending => {},
        }
        proof {
            assert(spec_run_model(s, j as int, acc0, st0, hard_g, soft_g, mod_ok)
                == spec_run_model(
                s,
                j + 1,
                acc as int,
                pool.workers@[i as int].state,
                hard_g,
                soft_g,
                mod_ok,
            ));
        }
        j = j + 1;
    }
    let (outcome, total_ns) = match done {
        Some(r) => r,
        None => (None, acc),
    };
    (outcome, total_ns)
}

} // verus!
