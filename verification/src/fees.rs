//! The protocol fee taken from each milestone payout.

use vstd::prelude::*;
use crate::amounts::fits_i128;
use crate::errors::EscrowError;

verus! {

/// Basis points in one whole: 10,000 bps = 100 %.
pub const BPS_DENOMINATOR: i128 = 10_000;

/// Highest fee rate the administrator may set: 100 %.
pub const MAX_FEE_BPS: u32 = 10_000;

/// Integer division rounding toward zero, as Rust's `/` does.
pub open spec fn div_toward_zero(x: int, d: int) -> int {
    if x >= 0 { x / d } else { -((-x) / d) }
}

/// The fee on `amount` at `fee_bps`: `amount * fee_bps / 10_000` rounded
/// toward zero, `None` where the product leaves the `i128` range.
pub open spec fn protocol_fee(amount: int, fee_bps: int) -> Option<int> {
    if fee_bps == 0 {
        Some(0)
    } else if !fits_i128(amount * fee_bps) {
        None
    } else {
        Some(div_toward_zero(amount * fee_bps, BPS_DENOMINATOR as int))
    }
}

/// Computes the protocol fee on `amount` at `fee_bps`; a zero rate costs
/// nothing whatever the amount, and a product that overflows `i128` fails
/// with `PotentialOverflow`.
pub fn calculate_protocol_fee(amount: i128, fee_bps: u32) -> (r: Result<i128, EscrowError>)
    ensures
        match protocol_fee(amount as int, fee_bps as int) {
            None => r == Err::<i128, EscrowError>(EscrowError::PotentialOverflow),
            Some(f) => r is Ok && r->Ok_0 == f,
        },
{
    if fee_bps == 0 {
        return Ok(0);
    }
    let product = match amount.checked_mul(fee_bps as i128) {
        Some(p) => p,
        None => return Err(EscrowError::PotentialOverflow),
    };
    match product.checked_div(BPS_DENOMINATOR) {
        Some(f) => Ok(f),
        None => Err(EscrowError::PotentialOverflow),
    }
}

/// For a non-negative amount and a rate of at most 100 %, the fee is
/// between zero and the amount.
pub proof fn lemma_fee_bounded(amount: int, fee_bps: int)
    requires
        0 <= amount,
        0 <= fee_bps <= MAX_FEE_BPS,
        fits_i128(amount * fee_bps),
    ensures
        protocol_fee(amount, fee_bps) matches Some(f) && 0 <= f <= amount,
{
    assert(0 <= amount * fee_bps <= amount * 10_000) by (nonlinear_arith)
        requires 0 <= amount, 0 <= fee_bps <= 10_000;
    assert((amount * fee_bps) / 10_000 <= amount) by (nonlinear_arith)
        requires 0 <= amount * fee_bps <= amount * 10_000;
}

/// The most one withdrawal may take out of `accumulated` earned fees under a
/// cap of `cap_bps`: `accumulated * cap_bps / 10_000` rounded up.
pub open spec fn withdrawal_allowance(accumulated: int, cap_bps: int) -> int {
    (accumulated * cap_bps + (BPS_DENOMINATOR - 1)) / BPS_DENOMINATOR as int
}

/// Computes `withdrawal_allowance` without forming the full product, so that
/// any non-negative `accumulated` is accepted.
pub fn fee_withdrawal_allowance(accumulated: i128, cap_bps: u32) -> (r: i128)
    requires
        accumulated >= 0,
        cap_bps <= MAX_FEE_BPS,
    ensures
        r == withdrawal_allowance(accumulated as int, cap_bps as int),
{
    let q = accumulated / BPS_DENOMINATOR;
    let rem = accumulated % BPS_DENOMINATOR;
    let cap = cap_bps as i128;
    proof {
        lemma_allowance_split(accumulated as int, cap as int, q as int, rem as int);
    }
    q * cap + (rem * cap + (BPS_DENOMINATOR - 1)) / BPS_DENOMINATOR
}

/// Splitting the earned fees into whole units of 10,000 and a remainder
/// splits the rounded-up allowance the same way, and keeps it within range.
proof fn lemma_allowance_split(acc: int, cap: int, q: int, rem: int)
    requires
        acc >= 0,
        0 <= cap <= 10_000,
        q == acc / 10_000,
        rem == acc % 10_000,
    ensures
        withdrawal_allowance(acc, cap) == q * cap + (rem * cap + 9_999) / 10_000,
        0 <= q * cap <= acc - rem,
        0 <= (rem * cap + 9_999) / 10_000 <= rem,
        0 <= rem * cap + 9_999 < 10_000 * 10_001,
        0 <= withdrawal_allowance(acc, cap) <= acc,
{
    assert(acc == 10_000 * q + rem && 0 <= rem < 10_000) by (nonlinear_arith)
        requires q == acc / 10_000, rem == acc % 10_000, acc >= 0;
    assert(0 <= q * cap <= q * 10_000) by (nonlinear_arith)
        requires 0 <= cap <= 10_000, q >= 0;
    assert(0 <= rem * cap <= 9_999 * 10_000) by (nonlinear_arith)
        requires 0 <= cap <= 10_000, 0 <= rem < 10_000;
    assert(acc * cap + 9_999 == 10_000 * (q * cap) + (rem * cap + 9_999)) by (nonlinear_arith)
        requires acc == 10_000 * q + rem;
    assert((10_000 * (q * cap) + (rem * cap + 9_999)) / 10_000 == q * cap + (rem * cap + 9_999) / 10_000) by (nonlinear_arith)
        requires rem * cap + 9_999 >= 0, q * cap >= 0;
    assert(rem * cap <= rem * 10_000) by (nonlinear_arith)
        requires 0 <= cap <= 10_000, rem >= 0;
    assert((rem * cap + 9_999) / 10_000 <= rem) by (nonlinear_arith)
        requires 0 <= rem * cap <= rem * 10_000, rem >= 0;
}

} // verus!
