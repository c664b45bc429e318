//! Error taxonomy of the host runtime.
//!
//! Per-connection failures (`ResourceBusy`, `PoolSaturated`) are recovered at
//! the supervisor boundary; per-worker failures (`ClockError`, `EngineFault`,
//! a hard `LimitExceeded`) terminate only the worker that raised them;
//! `TrackingFailure` is recorded and never fatal.

use vstd::prelude::*;

verus! {

/// Which budget a limit breach concerns. A memory-ceiling breach is not a
/// limit error: the limiting allocator faults the context and the
/// supervisor observes it as an [`ErrorKind::EngineFault`].
#[derive(Clone, Copy, Debug, PartialEq, Eq, Structural)]
pub enum LimitKind {
    CpuTime,
    WallClock,
}

/// Soft breaches are advisory and trigger a graceful-shutdown request;
/// hard breaches force termination.
#[derive(Clone, Copy, Debug, PartialEq, Eq, Structural)]
pub enum LimitTier {
    Soft,
    Hard,
}

/// Failure classes surfaced by the runtime core.
#[derive(Clone, Copy, Debug, PartialEq, Eq, Structural)]
pub enum ErrorKind {
    /// A connection's transport is still owned elsewhere; handoff aborted.
    ResourceBusy,
    /// No resource is registered under the identifier a caller presented.
    BadResourceId,
    /// Admission waited out its timeout without a free pool slot.
    PoolSaturated,
    /// The per-thread CPU-time query failed; fatal to that worker's run.
    ClockError,
    /// The script engine reported an unrecoverable fault, including
    /// out-of-memory from the limiting allocator.
    EngineFault,
    /// A resource ceiling was crossed.
    LimitExceeded(LimitTier, LimitKind),
    /// The half-close synchronization channel broke; close proceeds anyway.
    TrackingFailure,
}

/// A script-level error carried out of one worker's run, compared by its
/// rendered message as callers only ever observe the message text.
#[derive(Debug)]
pub struct DenoRuntimeError(pub String);

impl DenoRuntimeError {
    /// The message text of the error.
    pub fn message(&self) -> (r: &str)
        ensures
            r@ == self.0@,
    {
        self.0.as_str()
    }

    /// The error as shown to operators, under the script-error marker.
    pub fn describe(&self) -> (r: String)
        ensures
            r@ == "[Js Error] "@ + self.0@,
    {
        String::from_str("[Js Error] ").concat(self.0.as_str())
    }
}

impl PartialEq for DenoRuntimeError {
    fn eq(&self, other: &Self) -> (r: bool) {
        self.0 == other.0
    }
}

impl vstd::std_specs::cmp::PartialEqSpecImpl for DenoRuntimeError {
    open spec fn obeys_eq_spec() -> bool {
        true
    }

    open spec fn eq_spec(&self, other: &Self) -> bool {
        self.0@ == other.0@
    }
}

} // verus!
