//! Worker roles and per-worker resource configuration.
//!
//! A worker is one script execution context plus its accounting state. Its
//! role decides which host capabilities it is granted: a `main`-role worker
//! drives the pool and sees pass-through process environment variables, an
//! `events`-role worker consumes lifecycle events, and a `user`-role worker
//! runs untrusted code under explicit resource ceilings.

use vstd::prelude::*;
use crate::units::BYTES_PER_MIB;

verus! {

/// Nanoseconds per millisecond, for converting configured CPU ceilings into
/// the driver's nanosecond accounting.
pub const NS_PER_MS: u64 = 1000000;

/// Resource ceilings and capability flags of one `user`-role worker.
#[derive(Clone, Debug)]
pub struct UserWorkerRuntimeOpts {
    /// Tenant/request identity injected into the worker's environment.
    pub key: Option<String>,
    /// Service source directory this worker executes.
    pub service_path: Option<String>,
    /// Memory ceiling enforced at the execution-context allocator boundary.
    pub memory_limit_mb: u64,
    /// Wall-clock budget for the worker, independent of CPU accounting.
    pub worker_timeout_ms: u64,
    /// Crossing this CPU-time ceiling requests a graceful shutdown.
    pub cpu_time_soft_limit_ms: u64,
    /// Crossing this CPU-time ceiling forces termination.
    pub cpu_time_hard_limit_ms: u64,
    /// Divisor applied to the memory ceiling under pool-wide memory pressure.
    pub low_memory_multiplier: u64,
    /// Provision a fresh worker even when one could be reused.
    pub force_create: bool,
    /// Deny outbound network connections from this worker.
    pub net_access_disabled: bool,
    /// Allow the bundler to fetch remote modules for this worker.
    pub allow_remote_modules: bool,
    /// Overrides the module root the bundle is resolved against.
    pub custom_module_root: Option<String>,
}

impl UserWorkerRuntimeOpts {
    /// The configured ceilings stay within what the driver's nanosecond and
    /// byte arithmetic can represent.
    pub open spec fn wf(self) -> bool {
        &&& self.memory_limit_mb * BYTES_PER_MIB <= u64::MAX
        &&& self.cpu_time_soft_limit_ms * NS_PER_MS <= i64::MAX
        &&& self.cpu_time_hard_limit_ms * NS_PER_MS <= i64::MAX
        &&& self.low_memory_multiplier >= 1
    }

    /// Hard CPU ceiling in nanoseconds.
    pub open spec fn spec_hard_limit_ns(self) -> int {
        self.cpu_time_hard_limit_ms * NS_PER_MS
    }

    /// Soft CPU ceiling in nanoseconds.
    pub open spec fn spec_soft_limit_ns(self) -> int {
        self.cpu_time_soft_limit_ms * NS_PER_MS
    }

    /// Hard CPU ceiling in nanoseconds.
    pub fn hard_limit_ns(&self) -> (r: i64)
        requires
            self.wf(),
        ensures
            r == self.spec_hard_limit_ns(),
    {
        (self.cpu_time_hard_limit_ms * NS_PER_MS) as i64
    }

    /// Soft CPU ceiling in nanoseconds.
    pub fn soft_limit_ns(&self) -> (r: i64)
        requires
            self.wf(),
        ensures
            r == self.spec_soft_limit_ns(),
    {
        (self.cpu_time_soft_limit_ms * NS_PER_MS) as i64
    }
}

/// Role-specific configuration of one worker.
#[derive(Clone, Debug)]
pub enum WorkerRuntimeOpts {
    /// The privileged worker that owns the pool and the listener.
    MainWorker,
    /// The worker that consumes lifecycle events from the others.
    EventsWorker,
    /// An untrusted workload under explicit resource ceilings.
    UserWorker(UserWorkerRuntimeOpts),
}

impl WorkerRuntimeOpts {
    /// True of `user`-role configurations.
    #[verifier::allow_in_spec]
    pub fn is_user_worker(&self) -> bool
        returns
            self is UserWorker,
    {
        match self {
            WorkerRuntimeOpts::UserWorker(_) => true,
            _ => false,
        }
    }

    /// True of `main`-role configurations.
    #[verifier::allow_in_spec]
    pub fn is_main_worker(&self) -> bool
        returns
            self is MainWorker,
    {
        match self {
            WorkerRuntimeOpts::MainWorker => true,
            _ => false,
        }
    }

    /// True of `events`-role configurations.
    #[verifier::allow_in_spec]
    pub fn is_events_worker(&self) -> bool
        returns
            self is EventsWorker,
    {
        match self {
            WorkerRuntimeOpts::EventsWorker => true,
            _ => false,
        }
    }

    /// The user-role ceilings, for `user`-role configurations.
    pub fn as_user_worker(&self) -> (r: Option<&UserWorkerRuntimeOpts>)
        ensures
            match self {
                WorkerRuntimeOpts::UserWorker(u) => r == Some(u),
                _ => r is None,
            },
    {
        match self {
            WorkerRuntimeOpts::UserWorker(u) => Some(u),
            _ => None,
        }
    }
}

} // verus!
