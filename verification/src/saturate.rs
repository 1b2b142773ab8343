//! Saturating 64-bit accumulation.
//!
//! Byte totals are sums of attacker- or filesystem-chosen `u64` lengths, so
//! every running total in this crate saturates at `u64::MAX` instead of
//! wrapping; the specs below make a saturating fold provable as the
//! clamped mathematical sum.

use vstd::prelude::*;

verus! {

/// Clamp a non-negative mathematical value into `u64`.
pub open spec fn sat64(x: int) -> u64 {
    if x > u64::MAX {
        u64::MAX
    } else {
        x as u64
    }
}

/// Saturating addition on `u64`.
pub fn sat_add(a: u64, b: u64) -> (r: u64)
    ensures
        r == sat64(a + b),
{
    if a <= u64::MAX - b {
        a + b
    } else {
        u64::MAX
    }
}

/// Folding one more addend into an already clamped running total gives
/// the clamp of the whole sum.
pub proof fn lemma_sat_absorb(s: int, b: u64)
    requires
        s >= 0,
    ensures
        sat64(sat64(s) + b) == sat64(s + b),
{
}

} // verus!
