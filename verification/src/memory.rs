//! The memory-limiting allocator boundary of one execution context.
//!
//! Every worker owns an allocator sized to its memory ceiling. Allocation
//! requests that would cross the ceiling fail as a script-level range
//! error — never a process crash — and the worker's context is the only
//! one affected; the process keeps serving other workers.

use vstd::prelude::*;

verus! {

/// Accounting state of one worker's array-buffer allocator.
#[derive(Clone, Copy, Debug, PartialEq, Eq, Structural)]
pub struct ArrayBufferAllocator {
    /// The worker's memory ceiling in bytes.
    pub limit_bytes: u64,
    /// Bytes currently handed out.
    pub allocated_bytes: u64,
}

impl ArrayBufferAllocator {
    /// The allocator never hands out more than its ceiling.
    pub open spec fn wf(self) -> bool {
        self.allocated_bytes <= self.limit_bytes
    }

    /// A fresh allocator for a context with the given ceiling.
    pub fn new(limit_bytes: u64) -> (a: ArrayBufferAllocator)
        ensures
            a.wf(),
            a.limit_bytes == limit_bytes,
            a.allocated_bytes == 0,
    {
        ArrayBufferAllocator { limit_bytes, allocated_bytes: 0 }
    }

    /// Grants an allocation exactly when it fits under the ceiling;
    /// otherwise the request fails and nothing changes.
    pub fn try_allocate(&mut self, bytes: u64) -> (granted: bool)
        requires
            old(self).wf(),
        ensures
            final(self).wf(),
            final(self).limit_bytes == old(self).limit_bytes,
            granted <==> old(self).allocated_bytes + bytes <= old(self).limit_bytes,
            granted ==> final(self).allocated_bytes == old(self).allocated_bytes + bytes,
            !granted ==> *final(self) == *old(self),
    {
        if bytes <= self.limit_bytes - self.allocated_bytes {
            self.allocated_bytes = self.allocated_bytes + bytes;
            true
        } else {
            false
        }
    }

    /// Returns previously granted bytes to the allocator.
    pub fn release(&mut self, bytes: u64)
        requires
            old(self).wf(),
            bytes <= old(self).allocated_bytes,
        ensures
            final(self).wf(),
            final(self).limit_bytes == old(self).limit_bytes,
            final(self).allocated_bytes == old(self).allocated_bytes - bytes,
    {
        self.allocated_bytes = self.allocated_bytes - bytes;
    }
}

/// The script-level message of a failed array-buffer allocation.
pub fn allocation_failed_message() -> (s: String)
    ensures
        s@ == "RangeError: Array buffer allocation failed"@,
{
    String::from_str("RangeError: Array buffer allocation failed")
}

} // verus!
