//! Random draws, taken from the `fastrand` crate.
//!
//! Nothing is assumed of a draw beyond its range; every caller states what
//! holds of its result whatever value came back.

use vstd::prelude::*;

verus! {

/// Relies on `fastrand::u32`: a draw from the given range, which panics only
/// when the range is empty.
#[verifier::external_body]
pub(crate) fn random_in_range(lo: u32, hi: u32) -> (r: u32)
    requires
        lo <= hi,
    ensures
        lo <= r <= hi,
{
    fastrand::u32(lo..=hi)
}

/// Relies on `fastrand::u8`: a draw from the given range, which panics only
/// when the range is empty.
#[verifier::external_body]
pub(crate) fn random_u8_below(n: u8) -> (r: u8)
    requires
        n > 0,
    ensures
        r < n,
{
    fastrand::u8(0..n)
}

} // verus!
