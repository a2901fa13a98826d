use vstd::prelude::*;

verus! {

/// Minimum delay before a requested withdrawal can be claimed, in seconds.
pub const MIN_DELAY_SECONDS: i64 = 30;

/// Upper bound (exclusive) on the delay of a requested withdrawal, in seconds.
pub const MAX_DELAY_SECONDS: i64 = 300;

/// Odd multiplier used to mix the delay entropy.
pub const ENTROPY_MULTIPLIER: u64 = 0x5851F42D4C957F2D;

/// The standardized pool denominations, in the smallest currency unit:
/// exactly 0.1, 0.5 and 1.0 whole units.
pub open spec fn spec_is_allowed_amount(amount: u64) -> bool {
    amount == 100_000_000 || amount == 500_000_000 || amount == 1_000_000_000
}

/// Whether `amount` is one of the three standardized pool denominations.
#[verifier::when_used_as_spec(spec_is_allowed_amount)]
pub fn is_allowed_amount(amount: u64) -> (r: bool)
    ensures
        r == spec_is_allowed_amount(amount),
{
    amount == 100_000_000 || amount == 500_000_000 || amount == 1_000_000_000
}

} // verus!
