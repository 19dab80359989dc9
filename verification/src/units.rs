//! Amount and gas units.

use vstd::prelude::*;

verus! {

/// One tera-gas: 10^12 gas units.
pub const TGAS: u64 = 1_000_000_000_000;

/// One NEAR in yoctoNEAR, the smallest denomination: 10^24.
pub const ONE_NEAR: u128 = 1_000_000_000_000_000_000_000_000;

/// Reads `near_sdk::ONE_NEAR`, the SDK's constant for one NEAR in yoctoNEAR.
/// Trusted: the SDK declares it as the literal 10^24.
#[verifier::external_body]
pub(crate) fn one_near() -> (unit: u128)
    ensures
        unit == ONE_NEAR,
{
    near_sdk::ONE_NEAR
}

} // verus!
