//! Fee arithmetic on refunded amounts.

use vstd::prelude::*;

verus! {

/// Basis points that make up the whole: a rate of this many is 100%.
pub const BPS_DENOMINATOR: u32 = 10_000;

/// The fee owed on `amount` at `fee_bps` basis points, rounded down.
pub open spec fn fee_of(amount: int, fee_bps: int) -> int {
    (amount * fee_bps) / 10_000
}

/// Computes the fee on a non-negative `amount`.
pub fn compute_fee(amount: i128, fee_bps: u32) -> (fee: i128)
    requires
        0 <= amount,
        fee_bps <= BPS_DENOMINATOR,
    ensures
        fee == fee_of(amount as int, fee_bps as int),
        0 <= fee <= amount,
{
    let whole: i128 = amount / 10_000;
    let part: i128 = amount % 10_000;
    let bps: i128 = fee_bps as i128;
    assert(whole * bps + (part * bps) / 10_000 == (amount * bps) / 10_000) by (nonlinear_arith)
        requires
            whole == amount / 10_000,
            part == amount % 10_000,
            0 <= amount,
            0 <= bps <= 10_000,
    ;
    assert(0 <= whole * bps <= whole * 10_000) by (nonlinear_arith)
        requires
            0 <= whole,
            0 <= bps <= 10_000,
    ;
    assert(0 <= part * bps <= part * 10_000) by (nonlinear_arith)
        requires
            0 <= part,
            0 <= bps <= 10_000,
    ;
    whole * bps + (part * bps) / 10_000
}

} // verus!
