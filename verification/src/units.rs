//! Byte-unit conversions used when sizing worker memory ceilings.

use vstd::prelude::*;

verus! {

/// Bytes per mebibyte.
pub const BYTES_PER_MIB: u64 = 1048576;

/// Converts a mebibyte count into bytes.
pub fn mib_to_bytes(mib: u64) -> (r: u64)
    requires
        mib * BYTES_PER_MIB <= u64::MAX,
    ensures
        r == mib * BYTES_PER_MIB,
{
    mib * BYTES_PER_MIB
}

} // verus!
