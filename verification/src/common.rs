//! Unit conversion between whole coins and their smallest denomination.

use vstd::prelude::*;

verus! {

/// How many base units one whole coin holds.
pub const WEI_SCALE: u128 = 1_000_000_000_000_000_000;

/// Scales an amount of whole coins up to base units.
pub fn to_wei(amount: u128) -> (r: u128)
    requires
        amount * WEI_SCALE <= u128::MAX,
    ensures
        r == amount * WEI_SCALE,
{
    amount * WEI_SCALE
}

/// Scales an amount of base units down to whole coins, dropping the
/// remainder.
pub fn to_egld(amount: u128) -> (r: u128)
    ensures
        r == amount / WEI_SCALE,
{
    amount / WEI_SCALE
}

} // verus!
