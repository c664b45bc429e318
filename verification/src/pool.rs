//! The worker-pool supervisor: admission control, lifecycle ownership and
//! resource-limit enforcement across all workers.
//!
//! Admission follows the configured pool policy: `PerWorker` reuses one
//! persistent worker per execution key, `PerRequest` provisions a fresh
//! worker per inbound request, and `Oneshot` serves exactly one worker for
//! the process's lifetime. The parallelism ceiling bounds concurrently live
//! workers; once at the ceiling an admission request waits up to the
//! configured timeout and then fails with [`ErrorKind::PoolSaturated`].
//! CPU telemetry from the execution driver escalates soft-ceiling breaches
//! into graceful-shutdown requests and hard-ceiling breaches into forced
//! termination.

use vstd::prelude::*;
use crate::driver::{clocks_monotone, spec_accumulated, PollCycle};
use crate::errors::{ErrorKind, LimitKind, LimitTier};
use crate::metrics::CPUUsage;
use crate::strutil::str_eq;
use crate::units::{mib_to_bytes, BYTES_PER_MIB};
use crate::worker::UserWorkerRuntimeOpts;

verus! {

/// Process-wide pool policy kind.
#[derive(Clone, Copy, Debug, PartialEq, Eq, Structural)]
pub enum SupervisorPolicy {
    /// One persistent worker per execution key, reused across requests.
    PerWorker,
    /// A fresh worker per inbound request.
    PerRequest,
    /// Exactly one worker for the process's entire lifetime.
    Oneshot,
}

impl SupervisorPolicy {
    /// True of the single-worker-per-process policy.
    #[verifier::allow_in_spec]
    pub fn is_oneshot(&self) -> bool
        returns
            *self is Oneshot,
    {
        match self {
            SupervisorPolicy::Oneshot => true,
            _ => false,
        }
    }

    /// Parses a policy name from the command line: `per_worker`,
    /// `per_request` or `oneshot`; anything else is no policy.
    pub fn parse(s: &str) -> (r: Option<SupervisorPolicy>)
        ensures
            r == spec_parse_policy(s@),
    {
        if str_eq(s, "per_worker") {
            Some(SupervisorPolicy::PerWorker)
        } else if str_eq(s, "per_request") {
            Some(SupervisorPolicy::PerRequest)
        } else if str_eq(s, "oneshot") {
            Some(SupervisorPolicy::Oneshot)
        } else {
            None
        }
    }
}

/// The policy a command-line name denotes, if any.
pub open spec fn spec_parse_policy(s: Seq<char>) -> Option<SupervisorPolicy> {
    if s == "per_worker"@ {
        Some(SupervisorPolicy::PerWorker)
    } else if s == "per_request"@ {
        Some(SupervisorPolicy::PerRequest)
    } else if s == "oneshot"@ {
        Some(SupervisorPolicy::Oneshot)
    } else {
        None
    }
}

/// Process-wide pool configuration, immutable after startup.
#[derive(Clone, Copy, Debug, PartialEq, Eq, Structural)]
pub struct WorkerPoolPolicy {
    /// Which admission rule the supervisor applies.
    pub supervisor_policy: SupervisorPolicy,
    /// Ceiling on concurrently live workers; `None` means unbounded, except
    /// under `Oneshot`, which forces one.
    pub max_parallelism: Option<usize>,
    /// How long an admission request may wait for a pool slot.
    pub request_wait_timeout_ms: Option<u64>,
}

impl WorkerPoolPolicy {
    /// Builds the pool configuration, defaulting to `PerWorker` and forcing
    /// the parallelism ceiling to one under `Oneshot`.
    pub fn new(
        policy: Option<SupervisorPolicy>,
        max_parallelism: Option<usize>,
        request_wait_timeout_ms: Option<u64>,
    ) -> (r: WorkerPoolPolicy)
        ensures
            r.supervisor_policy == match policy {
                Some(p) => p,
                None => SupervisorPolicy::PerWorker,
            },
            r.max_parallelism == if (match policy {
                Some(p) => p,
                None => SupervisorPolicy::PerWorker,
            }) is Oneshot {
                Some(1usize)
            } else {
                max_parallelism
            },
            r.request_wait_timeout_ms == request_wait_timeout_ms,
    {
        let chosen = match policy {
            Some(p) => p,
            None => SupervisorPolicy::PerWorker,
        };
        WorkerPoolPolicy {
            supervisor_policy: chosen,
            max_parallelism: if chosen.is_oneshot() {
                Some(1)
            } else {
                max_parallelism
            },
            request_wait_timeout_ms,
        }
    }

    /// The effective ceiling on concurrently live workers.
    pub open spec fn spec_limit(self) -> Option<int> {
        if self.supervisor_policy is Oneshot {
            Some(1int)
        } else {
            match self.max_parallelism {
                Some(m) => Some(m as int),
                None => None,
            }
        }
    }

    /// Whether `n` concurrently live workers respect the ceiling.
    pub open spec fn spec_admits(self, n: int) -> bool {
        match self.spec_limit() {
            Some(m) => n <= m,
            None => true,
        }
    }
}

/// Lifecycle states of one worker.
#[derive(Clone, Copy, Debug, PartialEq, Eq, Structural)]
pub enum WorkerState {
    /// Admission has been requested but not granted.
    Requested,
    /// A slot was granted; the execution context is being bootstrapped.
    Provisioning,
    /// The worker serves requests.
    Running,
    /// The soft CPU ceiling was crossed; a graceful shutdown was requested.
    SoftLimitWarned,
    /// Termination was forced; the driver stops at the next poll boundary.
    Terminating,
    /// The driver's run has returned; the slot can be reclaimed.
    Terminated,
}

/// Position of a state along the one-way lifecycle.
pub open spec fn state_rank(s: WorkerState) -> int {
    match s {
        WorkerState::Requested => 0,
        WorkerState::Provisioning => 1,
        WorkerState::Running => 2,
        WorkerState::SoftLimitWarned => 3,
        WorkerState::Terminating => 4,
        WorkerState::Terminated => 5,
    }
}

/// The lifecycle transitions a worker may take.
pub open spec fn lifecycle_step(from: WorkerState, to: WorkerState) -> bool {
    ||| (from is Requested && to is Provisioning)
    ||| (from is Provisioning && to is Running)
    ||| (from is Running && to is SoftLimitWarned)
    ||| (from is Running && to is Terminating)
    ||| (from is SoftLimitWarned && to is Terminating)
    ||| (from is Terminating && to is Terminated)
}

/// A worker's recorded lifecycle: consecutive states joined by legal steps.
pub open spec fn valid_history(h: Seq<WorkerState>) -> bool {
    forall|i: int| 0 <= i < h.len() - 1 ==> lifecycle_step(#[trigger] h[i], h[i + 1])
}

/// Every lifecycle step strictly advances the state's rank: the lifecycle
/// is one-way.
pub proof fn lemma_lifecycle_one_way(from: WorkerState, to: WorkerState)
    requires
        lifecycle_step(from, to),
    ensures
        state_rank(from) < state_rank(to),
{
}

/// Along a valid history, rank never decreases.
proof fn lemma_history_rank_monotone(h: Seq<WorkerState>, i: int, j: int)
    requires
        valid_history(h),
        0 <= i <= j < h.len(),
    ensures
        state_rank(h[i]) <= state_rank(h[j]),
    decreases j - i,
{
    if i < j {
        lemma_history_rank_monotone(h, i, j - 1);
        assert(lifecycle_step(h[j - 1], h[j]));
    }
}

/// Termination law: once a worker's history reaches `Terminating`, no later
/// point of the history is `Running` — a terminating worker never resumes.
pub proof fn lemma_terminating_never_resumes(h: Seq<WorkerState>, i: int, j: int)
    requires
        valid_history(h),
        0 <= i <= j < h.len(),
        h[i] is Terminating,
    ensures
        !(h[j] is Running),
{
    lemma_history_rank_monotone(h, i, j);
}

/// One pool slot: a worker plus its accounting state, owned exclusively by
/// the supervisor.
pub struct WorkerSlot {
    /// Identity the supervisor assigned at admission.
    pub id: u64,
    /// The worker's lifecycle state.
    pub state: WorkerState,
    /// The worker's resource ceilings and capability flags.
    pub opts: UserWorkerRuntimeOpts,
    /// Latest accumulated CPU time reported for this worker, in nanoseconds.
    pub accumulated_cpu_ns: i64,
}

impl WorkerSlot {
    /// A slot is live while its worker has not terminated.
    pub open spec fn spec_live(self) -> bool {
        !(self.state is Terminated)
    }

    /// A slot can serve a new request for `key` while it is neither being
    /// torn down nor terminated and was provisioned for the same key.
    pub open spec fn spec_reusable_for(self, key: Option<Seq<char>>) -> bool {
        &&& !(self.state is Terminating)
        &&& !(self.state is Terminated)
        &&& self.opts.key.deep_view() == key
    }
}

/// Live workers among the first `n` slots.
pub open spec fn spec_live_count_prefix(ws: Seq<WorkerSlot>, n: int) -> int
    decreases n,
{
    if n <= 0 {
        0
    } else {
        spec_live_count_prefix(ws, n - 1) + if ws[n - 1].spec_live() {
            1int
        } else {
            0int
        }
    }
}

/// Concurrently live workers in the pool.
pub open spec fn spec_live_count(ws: Seq<WorkerSlot>) -> int {
    spec_live_count_prefix(ws, ws.len() as int)
}

/// Some slot can serve a new request for `key`.
pub open spec fn spec_has_reusable(ws: Seq<WorkerSlot>, key: Option<Seq<char>>) -> bool {
    exists|i: int| 0 <= i < ws.len() && (#[trigger] ws[i]).spec_reusable_for(key)
}

/// Live counts agree on sequences that agree on their first `n` slots.
proof fn lemma_live_count_agree(a: Seq<WorkerSlot>, b: Seq<WorkerSlot>, n: int)
    requires
        n <= a.len(),
        n <= b.len(),
        forall|j: int| 0 <= j < n ==> a[j] == b[j],
    ensures
        spec_live_count_prefix(a, n) == spec_live_count_prefix(b, n),
    decreases n,
{
    if n > 0 {
        lemma_live_count_agree(a, b, n - 1);
    }
}

/// Replacing slot `i` shifts the live count by the liveness of the new
/// slot against the old one.
proof fn lemma_live_count_update_prefix(ws: Seq<WorkerSlot>, i: int, s2: WorkerSlot, n: int)
    requires
        0 <= i < ws.len(),
        n <= ws.len(),
    ensures
        n <= i ==> spec_live_count_prefix(ws.update(i, s2), n) == spec_live_count_prefix(ws, n),
        n > i ==> spec_live_count_prefix(ws.update(i, s2), n) == spec_live_count_prefix(ws, n) + (
        if s2.spec_live() {
            1int
        } else {
            0int
        }) - (if ws[i].spec_live() {
            1int
        } else {
            0int
        }),
    decreases n,
{
    if n > 0 {
        lemma_live_count_update_prefix(ws, i, s2, n - 1);
    }
}

/// Replacing one slot shifts the pool's live count by the liveness change
/// of that slot alone.
pub proof fn lemma_live_count_update(ws: Seq<WorkerSlot>, i: int, s2: WorkerSlot)
    requires
        0 <= i < ws.len(),
    ensures
        spec_live_count(ws.update(i, s2)) == spec_live_count(ws) + (if s2.spec_live() {
            1int
        } else {
            0int
        }) - (if ws[i].spec_live() {
            1int
        } else {
            0int
        }),
{
    lemma_live_count_update_prefix(ws, i, s2, ws.len() as int);
}

/// Appending a slot adds its liveness to the pool's live count.
pub proof fn lemma_live_count_push(ws: Seq<WorkerSlot>, s: WorkerSlot)
    ensures
        spec_live_count(ws.push(s)) == spec_live_count(ws) + (if s.spec_live() {
            1int
        } else {
            0int
        }),
{
    lemma_live_count_agree(ws.push(s), ws, ws.len() as int);
    assert(ws.push(s)[ws.len() as int] == s);
}

/// What an admission request was granted.
#[derive(Clone, Copy, Debug, PartialEq, Eq, Structural)]
pub enum AdmissionDecision {
    /// Route the request to the existing worker in this slot.
    Reuse(usize),
    /// A new worker with this identity was provisioned.
    Provision(u64),
    /// The pool is at its ceiling; wait for a slot up to the configured
    /// timeout.
    Wait,
}

/// The worker-pool supervisor's state: the policy fixed at startup and the
/// slots it exclusively owns.
pub struct WorkerPool {
    /// The admission policy, immutable after startup.
    pub policy: WorkerPoolPolicy,
    /// All slots this supervisor ever provisioned and has not reclaimed.
    pub workers: Vec<WorkerSlot>,
    /// Identity the next provisioned worker will receive.
    pub next_id: u64,
}

impl WorkerPool {
    /// The supervisor's invariant: the live-worker count respects the
    /// policy's ceiling, every slot's ceilings are representable, and no
    /// slot carries an identity the supervisor has not assigned yet.
    pub open spec fn wf(self) -> bool {
        &&& self.policy.spec_admits(spec_live_count(self.workers@))
        &&& forall|i: int|
            0 <= i < self.workers@.len() ==> (#[trigger] self.workers@[i]).opts.wf()
        &&& forall|i: int| 0 <= i < self.workers@.len() ==> (#[trigger] self.workers@[i]).id
            < self.next_id
    }

    /// An empty pool under the given policy.
    pub fn new(policy: WorkerPoolPolicy) -> (pool: WorkerPool)
        ensures
            pool.wf(),
            pool.policy == policy,
            pool.workers@.len() == 0,
            pool.next_id == 0,
    {
        WorkerPool { policy, workers: Vec::new(), next_id: 0 }
    }

    /// Concurrently live workers in the pool.
    pub fn live_count(&self) -> (n: usize)
        ensures
            n == spec_live_count(self.workers@),
    {
        let mut n: usize = 0;
        let mut i: usize = 0;
        while i < self.workers.len()
            invariant
                i <= self.workers@.len(),
                n == spec_live_count_prefix(self.workers@, i as int),
                n <= i,
            decreases self.workers@.len() - i,
        {
            if !matches!(self.workers[i].state, WorkerState::Terminated) {
                n = n + 1;
            }
            i = i + 1;
        }
        n
    }

    /// The slot that can serve a new request for `key`, under `PerWorker`
    /// reuse.
    fn find_reusable(&self, key: &Option<String>) -> (r: Option<usize>)
        ensures
            match r {
                Some(i) => 0 <= i < self.workers@.len() && self.workers@[i as int].spec_reusable_for(
                    key.deep_view(),
                ),
                None => !spec_has_reusable(self.workers@, key.deep_view()),
            },
    {
        let mut i: usize = 0;
        while i < self.workers.len()
            invariant
                i <= self.workers@.len(),
                forall|j: int|
                    0 <= j < i ==> !(#[trigger] self.workers@[j]).spec_reusable_for(
                        key.deep_view(),
                    ),
            decreases self.workers@.len() - i,
        {
            let slot = &self.workers[i];
            let torn_down = matches!(
                slot.state,
                WorkerState::Terminating | WorkerState::Terminated
            );
            if !torn_down && option_keys_match(&slot.opts.key, key) {
                return Some(i);
            }
            i = i + 1;
        }
        None
    }

    /// Decides one admission request under the pool policy.
    ///
    /// Under `PerWorker`, a live worker provisioned for the same execution
    /// key is reused unless the request forces a fresh one. Otherwise a new
    /// worker is provisioned when the ceiling leaves room. At the ceiling
    /// the request waits; once its wait timed out (`wait_elapsed`) it fails
    /// with [`ErrorKind::PoolSaturated`] and no worker state changes.
    ///
    /// Under `Oneshot` a second admission while one worker is live never
    /// provisions another worker: it queues or fails, with the pool
    /// unchanged.
    pub fn try_admit(&mut self, opts: UserWorkerRuntimeOpts, wait_elapsed: bool) -> (d: Result<
        AdmissionDecision,
        ErrorKind,
    >)
        requires
            old(self).wf(),
            opts.wf(),
            old(self).next_id < u64::MAX,
        ensures
            final(self).wf(),
            final(self).policy == old(self).policy,
            match d {
                Ok(AdmissionDecision::Reuse(i)) => {
                    &&& *final(self) == *old(self)
                    &&& old(self).policy.supervisor_policy is PerWorker
                    &&& !opts.force_create
                    &&& 0 <= i < final(self).workers@.len()
                    &&& final(self).workers@[i as int].spec_reusable_for(opts.key.deep_view())
                },
                Ok(AdmissionDecision::Provision(id)) => {
                    &&& !(old(self).policy.supervisor_policy is PerWorker && !opts.force_create
                        && spec_has_reusable(old(self).workers@, opts.key.deep_view()))
                    &&& old(self).policy.spec_admits(spec_live_count(old(self).workers@) + 1)
                    &&& id == old(self).next_id
                    &&& final(self).next_id == old(self).next_id + 1
                    &&& final(self).workers@ == old(self).workers@.push(
                        WorkerSlot {
                            id,
                            state: WorkerState::Provisioning,
                            opts,
                            accumulated_cpu_ns: 0,
                        },
                    )
                },
                Ok(AdmissionDecision::Wait) => {
                    &&& *final(self) == *old(self)
                    &&& !old(self).policy.spec_admits(spec_live_count(old(self).workers@) + 1)
                    &&& !wait_elapsed
                },
                Err(e) => {
                    &&& *final(self) == *old(self)
                    &&& e == ErrorKind::PoolSaturated
                    &&& !old(self).policy.spec_admits(spec_live_count(old(self).workers@) + 1)
                    &&& wait_elapsed
                },
            },
            (old(self).policy.supervisor_policy is Oneshot && spec_live_count(old(self).workers@)
                >= 1) ==> (*final(self) == *old(self) && (d == Ok::<AdmissionDecision, ErrorKind>(
                AdmissionDecision::Wait,
            ) || d == Err::<AdmissionDecision, ErrorKind>(ErrorKind::PoolSaturated))),
    {
        let per_worker = matches!(self.policy.supervisor_policy, SupervisorPolicy::PerWorker);
        if per_worker && !opts.force_create {
            if let Some(i) = self.find_reusable(&opts.key) {
                return Ok(AdmissionDecision::Reuse(i));
            }
        }
        let live = self.live_count();
        let admits = match self.policy.max_parallelism {
            Some(m) => {
                if self.policy.supervisor_policy.is_oneshot() {
                    live < 1
                } else {
                    live < m
                }
            },
            None => !self.policy.supervisor_policy.is_oneshot() || live < 1,
        };
        if admits {
            let id = self.next_id;
            let slot = WorkerSlot {
                id,
                state: WorkerState::Provisioning,
                opts,
                accumulated_cpu_ns: 0,
            };
            proof {
                lemma_live_count_push(self.workers@, slot);
            }
            self.workers.push(slot);
            self.next_id = id + 1;
            Ok(AdmissionDecision::Provision(id))
        } else if wait_elapsed {
            Err(ErrorKind::PoolSaturated)
        } else {
            Ok(AdmissionDecision::Wait)
        }
    }

    /// Marks a provisioned worker as running once its execution context has
    /// loaded its entry module.
    pub fn mark_running(&mut self, i: usize)
        requires
            old(self).wf(),
            i < old(self).workers@.len(),
            old(self).workers@[i as int].state is Provisioning,
        ensures
            final(self).wf(),
            final(self).policy == old(self).policy,
            final(self).next_id == old(self).next_id,
            final(self).workers@ == old(self).workers@.update(
                i as int,
                (WorkerSlot { state: WorkerState::Running, ..old(self).workers@[i as int] }),
            ),
            lifecycle_step(
                old(self).workers@[i as int].state,
                final(self).workers@[i as int].state,
            ),
    {
        proof {
            lemma_live_count_update(
                self.workers@,
                i as int,
                (WorkerSlot { state: WorkerState::Running, ..self.workers@[i as int] }),
            );
        }
        let slot = &mut self.workers[i];
        slot.state = WorkerState::Running;
    }

    /// Forces a worker into `Terminating`: the explicit-shutdown and
    /// limit-escalation path. The driver observes the raised termination
    /// flag and stops at its next poll boundary.
    pub fn request_termination(&mut self, i: usize)
        requires
            old(self).wf(),
            i < old(self).workers@.len(),
            old(self).workers@[i as int].state is Running || old(self).workers@[i as int].state
                is SoftLimitWarned,
        ensures
            final(self).wf(),
            final(self).policy == old(self).policy,
            final(self).next_id == old(self).next_id,
            final(self).workers@ == old(self).workers@.update(
                i as int,
                (WorkerSlot { state: WorkerState::Terminating, ..old(self).workers@[i as int] }),
            ),
            lifecycle_step(
                old(self).workers@[i as int].state,
                final(self).workers@[i as int].state,
            ),
    {
        proof {
            lemma_live_count_update(
                self.workers@,
                i as int,
                (WorkerSlot { state: WorkerState::Terminating, ..self.workers@[i as int] }),
            );
        }
        let slot = &mut self.workers[i];
        slot.state = WorkerState::Terminating;
    }

    /// Reclaims a terminating worker's slot once the driver's run returned.
    pub fn mark_terminated(&mut self, i: usize)
        requires
            old(self).wf(),
            i < old(self).workers@.len(),
            old(self).workers@[i as int].state is Terminating,
        ensures
            final(self).wf(),
            final(self).policy == old(self).policy,
            final(self).next_id == old(self).next_id,
            final(self).workers@ == old(self).workers@.update(
                i as int,
                (WorkerSlot { state: WorkerState::Terminated, ..old(self).workers@[i as int] }),
            ),
            lifecycle_step(
                old(self).workers@[i as int].state,
                final(self).workers@[i as int].state,
            ),
            spec_live_count(final(self).workers@) == spec_live_count(old(self).workers@) - 1,
    {
        proof {
            lemma_live_count_update(
                self.workers@,
                i as int,
                (WorkerSlot { state: WorkerState::Terminated, ..self.workers@[i as int] }),
            );
        }
        let slot = &mut self.workers[i];
        slot.state = WorkerState::Terminated;
    }

    /// Applies one `Leave` CPU metric to a worker's accounting and enforces
    /// its CPU ceilings.
    ///
    /// A hard-ceiling breach forces `Terminating` immediately — within the
    /// very poll cycle that reported the breach — and a soft-ceiling breach
    /// moves a running worker to `SoftLimitWarned`, which requests a
    /// graceful shutdown without killing it. Metrics of a worker already
    /// transitioned to `Terminating` or beyond are stale and change
    /// nothing.
    pub fn on_cpu_usage(&mut self, i: usize, usage: CPUUsage) -> (breach: Option<ErrorKind>)
        requires
            old(self).wf(),
            i < old(self).workers@.len(),
            usage.accumulated >= 0,
        ensures
            final(self).wf(),
            final(self).policy == old(self).policy,
            final(self).next_id == old(self).next_id,
            ({
                let s0 = old(self).workers@[i as int];
                let active = s0.state is Running || s0.state is SoftLimitWarned;
                let hard = s0.opts.spec_hard_limit_ns();
                let soft = s0.opts.spec_soft_limit_ns();
                if !active {
                    *final(self) == *old(self) && breach is None
                } else {
                    &&& usage.accumulated >= hard ==> (final(self).workers@[i as int].state
                        is Terminating && breach == Some(
                        ErrorKind::LimitExceeded(LimitTier::Hard, LimitKind::CpuTime),
                    ))
                    &&& (usage.accumulated < hard && usage.accumulated >= soft && s0.state
                        is Running) ==> (final(self).workers@[i as int].state is SoftLimitWarned
                        && breach == Some(
                        ErrorKind::LimitExceeded(LimitTier::Soft, LimitKind::CpuTime),
                    ))
                    &&& (usage.accumulated < hard && !(usage.accumulated >= soft && s0.state
                        is Running)) ==> (final(self).workers@[i as int].state == s0.state
                        && breach is None)
                    &&& final(self).workers@ == old(self).workers@.update(
                        i as int,
                        (WorkerSlot {
                            state: final(self).workers@[i as int].state,
                            accumulated_cpu_ns: usage.accumulated,
                            ..s0
                        }),
                    )
                    &&& (final(self).workers@[i as int].state == s0.state || lifecycle_step(
                        s0.state,
                        final(self).workers@[i as int].state,
                    ))
                }
            }),
    {
        let active = matches!(
            self.workers[i].state,
            WorkerState::Running | WorkerState::SoftLimitWarned
        );
        if !active {
            return None;
        }
        let was_running = matches!(self.workers[i].state, WorkerState::Running);
        let hard = self.workers[i].opts.hard_limit_ns();
        let soft = self.workers[i].opts.soft_limit_ns();
        let next_state = if usage.accumulated >= hard {
            WorkerState::Terminating
        } else if usage.accumulated >= soft && was_running {
            WorkerState::SoftLimitWarned
        } else {
            self.workers[i].state
        };
        proof {
            lemma_live_count_update(
                self.workers@,
                i as int,
                (WorkerSlot {
                    state: next_state,
                    accumulated_cpu_ns: usage.accumulated,
                    ..self.workers@[i as int]
                }),
            );
        }
        let slot = &mut self.workers[i];
        slot.accumulated_cpu_ns = usage.accumulated;
        slot.state = next_state;
        if usage.accumulated >= hard {
            Some(ErrorKind::LimitExceeded(LimitTier::Hard, LimitKind::CpuTime))
        } else if usage.accumulated >= soft && was_running {
            Some(ErrorKind::LimitExceeded(LimitTier::Soft, LimitKind::CpuTime))
        } else {
            None
        }
    }

    /// Enforces a worker's wall-clock budget, independently of CPU-time
    /// accounting: a worker can be CPU-idle yet exceed its wall-clock
    /// budget waiting on slow I/O.
    pub fn check_wall_clock(&mut self, i: usize, elapsed_ms: u64) -> (breach: Option<ErrorKind>)
        requires
            old(self).wf(),
            i < old(self).workers@.len(),
        ensures
            final(self).wf(),
            final(self).policy == old(self).policy,
            final(self).next_id == old(self).next_id,
            ({
                let s0 = old(self).workers@[i as int];
                let active = s0.state is Running || s0.state is SoftLimitWarned;
                if active && elapsed_ms >= s0.opts.worker_timeout_ms {
                    &&& final(self).workers@ == old(self).workers@.update(
                        i as int,
                        (WorkerSlot { state: WorkerState::Terminating, ..s0 }),
                    )
                    &&& breach == Some(
                        ErrorKind::LimitExceeded(LimitTier::Hard, LimitKind::WallClock),
                    )
                } else {
                    *final(self) == *old(self) && breach is None
                }
            }),
    {
        let active = matches!(
            self.workers[i].state,
            WorkerState::Running | WorkerState::SoftLimitWarned
        );
        if active && elapsed_ms >= self.workers[i].opts.worker_timeout_ms {
            proof {
                lemma_live_count_update(
                    self.workers@,
                    i as int,
                    (WorkerSlot { state: WorkerState::Terminating, ..self.workers@[i as int] }),
                );
            }
            let slot = &mut self.workers[i];
            slot.state = WorkerState::Terminating;
            Some(ErrorKind::LimitExceeded(LimitTier::Hard, LimitKind::WallClock))
        } else {
            None
        }
    }
}

/// The memory ceiling in force for one worker: its configured limit,
/// scaled down by the low-memory divisor while pool-wide memory pressure
/// is signalled.
pub fn effective_memory_limit_bytes(opts: &UserWorkerRuntimeOpts, memory_pressure: bool) -> (r:
    u64)
    requires
        opts.wf(),
    ensures
        !memory_pressure ==> r == opts.memory_limit_mb * BYTES_PER_MIB,
        memory_pressure ==> r == (opts.memory_limit_mb * BYTES_PER_MIB) as u64
            / opts.low_memory_multiplier,
{
    let base = mib_to_bytes(opts.memory_limit_mb);
    if memory_pressure {
        base / opts.low_memory_multiplier
    } else {
        base
    }
}

/// Whether two optional execution keys name the same identity.
fn option_keys_match(a: &Option<String>, b: &Option<String>) -> (r: bool)
    ensures
        r == (a.deep_view() == b.deep_view()),
{
    match (a, b) {
        (None, None) => true,
        (Some(x), Some(y)) => *x == *y,
        _ => false,
    }
}

/// Oneshot admission law: a well-formed pool under the `Oneshot` policy
/// never holds two concurrently live workers, whatever sequence of
/// admissions and lifecycle steps produced it.
pub proof fn lemma_oneshot_single_live(pool: WorkerPool)
    requires
        pool.wf(),
        pool.policy.supervisor_policy is Oneshot,
    ensures
        spec_live_count(pool.workers@) <= 1,
{
}

/// Overshoot bound on hard CPU-limit enforcement: the supervisor checks
/// the accumulated CPU time after every poll cycle, so when the hard
/// ceiling is first crossed at cycle `n`, the recorded total exceeds the
/// ceiling by less than that single cycle's cost — termination interrupts
/// the event loop at the next poll boundary, never more than one cycle
/// past the budget.
pub proof fn lemma_bounded_overshoot(cycles: Seq<PollCycle>, n: int, hard_limit_ns: int)
    requires
        clocks_monotone(cycles),
        0 < n <= cycles.len(),
        spec_accumulated(cycles, n - 1) < hard_limit_ns,
    ensures
        spec_accumulated(cycles, n) < hard_limit_ns + cycles[n - 1].spec_diff(),
{
}

} // verus!
