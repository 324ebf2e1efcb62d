//! Saturating arithmetic over balances. The ledger deliberately clamps
//! additions and the output-amount product at the largest representable
//! value instead of aborting.

use vstd::prelude::*;

verus! {

/// `a + b`, clamped at `u128::MAX`.
pub open spec fn sat_add(a: u128, b: u128) -> u128 {
    if a + b > u128::MAX {
        u128::MAX
    } else {
        (a + b) as u128
    }
}

/// `a * b`, clamped at `u128::MAX`.
pub open spec fn sat_mul(a: u128, b: u128) -> u128 {
    if a * b > u128::MAX {
        u128::MAX
    } else {
        (a * b) as u128
    }
}

pub fn saturating_add_u128(a: u128, b: u128) -> (r: u128)
    ensures
        r == sat_add(a, b),
{
    a.saturating_add(b)
}

pub fn saturating_mul_u128(a: u128, b: u128) -> (r: u128)
    ensures
        r == sat_mul(a, b),
{
    match a.checked_mul(b) {
        Some(v) => v,
        None => u128::MAX,
    }
}

} // verus!
