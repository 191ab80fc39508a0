//! Counters of what happens in a match.
use vstd::prelude::*;

verus! {

pub open spec fn spec_counted(n: u64, happened: bool) -> u64 {
    if happened {
        n.wrapping_add(1)
    } else {
        n
    }
}

/// A counter after one more step, in which the counted thing happened or not. A counter that is
/// full starts again.
#[verifier::when_used_as_spec(spec_counted)]
pub fn counted(n: u64, happened: bool) -> (r: u64)
    ensures
        r == spec_counted(n, happened),
{
    if happened { n.wrapping_add(1) } else { n }
}

/// A counter moves up by one exactly when the counted thing happens, and only a full one starts
/// again from zero.
pub proof fn counters_move_by_one(n: u64)
    ensures
        n < u64::MAX ==> counted(n, true) == n + 1,
        counted(u64::MAX, true) == 0,
        counted(n, false) == n,
{
}

} // verus!
