//! Health, mana, attack, poison, stun, shield and rage are unsigned and never
//! leave their range: a sum stops at the largest value, a difference at zero.

use vstd::prelude::*;

verus! {

/// `a + b`, stopped at the largest `u32`.
pub open spec fn add_capped(a: u32, b: u32) -> u32 {
    if a + b > u32::MAX {
        u32::MAX
    } else {
        (a + b) as u32
    }
}

/// `a - b`, stopped at zero.
pub open spec fn sub_floored(a: u32, b: u32) -> u32 {
    if a - b < 0 {
        0
    } else {
        (a - b) as u32
    }
}

/// However large the amount taken away, the result is never below zero and
/// never above what was there: it is the true difference where that is not
/// negative, and zero otherwise.
pub proof fn lemma_sub_floored_bounds(a: u32, b: u32)
    ensures
        0 <= sub_floored(a, b) <= a,
        a >= b ==> sub_floored(a, b) == a - b,
        a < b ==> sub_floored(a, b) == 0,
{
}

/// However large the amount added, the result is never below what was there
/// and never above the largest value.
pub proof fn lemma_add_capped_bounds(a: u32, b: u32)
    ensures
        a <= add_capped(a, b) <= u32::MAX,
        a + b <= u32::MAX ==> add_capped(a, b) == a + b,
        a + b > u32::MAX ==> add_capped(a, b) == u32::MAX,
{
}

} // verus!
