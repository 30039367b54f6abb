//! Amount validation and overflow-checked arithmetic for every money value
//! that enters the escrow (milestone amounts, deposits, balances).
//!
//! All amounts are denominated in stroops, the smallest unit of the
//! settlement asset, so every `i128` value is a valid precision.

use vstd::prelude::*;
use crate::errors::EscrowError;

verus! {

/// Largest amount accepted for one milestone or one deposit (1,000,000 tokens).
pub const MAX_SINGLE_AMOUNT_STROOPS: i128 = 10_000_000_000_000;

/// Default ceiling on the sum of the milestones of one escrow (1,000,000 tokens).
pub const MAX_TOTAL_ESCROW_STROOPS: i128 = 10_000_000_000_000;

/// Smallest positive amount: one stroop.
pub const MIN_POSITIVE_AMOUNT: i128 = 1;

/// Whether a mathematical integer is representable as an `i128`.
pub open spec fn fits_i128(x: int) -> bool {
    i128::MIN <= x <= i128::MAX
}

/// The verdict on one money value: it must be positive and at most
/// `MAX_SINGLE_AMOUNT_STROOPS`.
pub open spec fn single_amount_check(amount: int) -> Result<(), EscrowError> {
    if amount <= 0 {
        Err(EscrowError::AmountMustBePositive)
    } else if amount > MAX_SINGLE_AMOUNT_STROOPS {
        Err(EscrowError::InvalidMilestoneAmount)
    } else {
        Ok(())
    }
}

/// Scans a list of amounts from the front: the first amount that fails
/// `single_amount_check` decides the error; when all pass, the result is
/// their sum.
pub open spec fn amounts_check(s: Seq<i128>) -> Result<int, EscrowError>
    decreases s.len(),
{
    if s.len() == 0 {
        Ok(0)
    } else {
        match amounts_check(s.drop_last()) {
            Err(e) => Err(e),
            Ok(t) => match single_amount_check(s.last() as int) {
                Err(e) => Err(e),
                Ok(_) => Ok(t + s.last()),
            },
        }
    }
}

/// The verdict on a whole milestone schedule against a ceiling on its total.
pub open spec fn milestone_amounts_check(s: Seq<i128>, max_total: int) -> Result<int, EscrowError> {
    match amounts_check(s) {
        Err(e) => Err(e),
        Ok(t) => if t > max_total {
            Err(EscrowError::InvalidMilestoneAmount)
        } else {
            Ok(t)
        },
    }
}

/// The verdict on a deposit of `amount` on top of `current` already deposited,
/// with `max_total` the most the escrow may ever hold.
pub open spec fn deposit_check(amount: int, current: int, max_total: int) -> Result<(), EscrowError> {
    if amount <= 0 {
        Err(EscrowError::AmountMustBePositive)
    } else if amount > MAX_SINGLE_AMOUNT_STROOPS {
        Err(EscrowError::InvalidMilestoneAmount)
    } else if !fits_i128(current + amount) {
        Err(EscrowError::PotentialOverflow)
    } else if current + amount > max_total {
        Err(EscrowError::InvalidMilestoneAmount)
    } else {
        Ok(())
    }
}

/// The balance still held for a contract, when both subtractions stay in range.
pub open spec fn available_balance_spec(funded: int, released: int, refunded: int) -> Option<int> {
    if !fits_i128(funded - released) || !fits_i128(funded - released - refunded) {
        None
    } else {
        Some(funded - released - refunded)
    }
}

/// A list that passes `amounts_check` sums to a value between zero and
/// `len * MAX_SINGLE_AMOUNT_STROOPS`, and every element is positive.
pub proof fn lemma_amounts_check_bounds(s: Seq<i128>)
    ensures
        amounts_check(s) matches Ok(t) ==> {
            &&& 0 <= t <= s.len() * MAX_SINGLE_AMOUNT_STROOPS
            &&& forall|i: int| 0 <= i < s.len() ==> 0 < #[trigger] s[i] <= MAX_SINGLE_AMOUNT_STROOPS
        },
        s.len() > 0 && amounts_check(s) is Ok ==> amounts_check(s)->Ok_0 > 0,
    decreases s.len(),
{
    if s.len() > 0 {
        lemma_amounts_check_bounds(s.drop_last());
        if amounts_check(s) is Ok {
            assert forall|i: int| 0 <= i < s.len() implies 0 < #[trigger] s[i] <= MAX_SINGLE_AMOUNT_STROOPS by {
                if i < s.len() - 1 {
                    assert(s[i] == s.drop_last()[i]);
                }
            }
            assert((s.len() - 1) * MAX_SINGLE_AMOUNT_STROOPS + MAX_SINGLE_AMOUNT_STROOPS
                == s.len() * MAX_SINGLE_AMOUNT_STROOPS) by (nonlinear_arith);
        }
    }
}

/// A sequence passes the check exactly when each element is valid.
pub proof fn lemma_amounts_check_all_valid(s: Seq<i128>)
    ensures
        amounts_check(s) is Ok <==> forall|i: int| 0 <= i < s.len() ==> single_amount_check(#[trigger] s[i] as int) is Ok,
    decreases s.len(),
{
    if s.len() > 0 {
        lemma_amounts_check_all_valid(s.drop_last());
        if forall|i: int| 0 <= i < s.len() ==> single_amount_check(#[trigger] s[i] as int) is Ok {
            assert forall|i: int| 0 <= i < s.drop_last().len() implies single_amount_check(#[trigger] s.drop_last()[i] as int) is Ok by {
                assert(s.drop_last()[i] == s[i]);
            }
        }
        if amounts_check(s) is Ok {
            assert forall|i: int| 0 <= i < s.len() implies single_amount_check(#[trigger] s[i] as int) is Ok by {
                if i < s.len() - 1 {
                    assert(s.drop_last()[i] == s[i]);
                }
            }
        }
    }
}

/// Validates one money value: positive and at most `MAX_SINGLE_AMOUNT_STROOPS`.
pub fn validate_single_amount(amount: i128) -> (r: Result<(), EscrowError>)
    ensures
        r == single_amount_check(amount as int),
{
    if amount <= 0 {
        Err(EscrowError::AmountMustBePositive)
    } else if amount > MAX_SINGLE_AMOUNT_STROOPS {
        Err(EscrowError::InvalidMilestoneAmount)
    } else {
        Ok(())
    }
}

/// Sums a list of amounts after validating each one in order; the first
/// invalid amount stops the scan with its error. An empty list sums to zero.
pub fn accumulate_amounts(amounts: &[i128]) -> (r: Result<i128, EscrowError>)
    ensures
        match amounts_check(amounts@) {
            Err(e) => r == Err::<i128, EscrowError>(e),
            Ok(t) => r == Ok::<i128, EscrowError>(t as i128) && t == r->Ok_0,
        },
{
    let mut total: i128 = 0;
    let mut i: usize = 0;
    while i < amounts.len()
        invariant
            i <= amounts.len(),
            amounts_check(amounts@.take(i as int)) == Ok::<int, EscrowError>(total as int),
        decreases amounts.len() - i,
    {
        let a = amounts[i];
        assert(amounts@.take(i + 1).drop_last() =~= amounts@.take(i as int));
        proof {
            lemma_amounts_check_bounds(amounts@.take(i as int));
            assert(i * MAX_SINGLE_AMOUNT_STROOPS <= usize::MAX * MAX_SINGLE_AMOUNT_STROOPS) by (nonlinear_arith)
                requires i <= usize::MAX;
        }
        match validate_single_amount(a) {
            Err(e) => {
                proof { lemma_prefix_error_persists(amounts@, i as int + 1); }
                return Err(e);
            },
            Ok(()) => {},
        }
        total = total + a;
        i = i + 1;
    }
    assert(amounts@.take(amounts.len() as int) =~= amounts@);
    Ok(total)
}

/// Once a prefix fails the check, every longer prefix fails with the same error.
pub proof fn lemma_prefix_error_persists(s: Seq<i128>, k: int)
    requires
        0 <= k <= s.len(),
        amounts_check(s.take(k)) is Err,
    ensures
        amounts_check(s) == amounts_check(s.take(k)),
    decreases s.len() - k,
{
    if k < s.len() {
        assert(s.take(k + 1).drop_last() =~= s.take(k));
        lemma_prefix_error_persists(s, k + 1);
    } else {
        assert(s.take(k) =~= s);
    }
}

/// Validates a milestone schedule: every amount in order, then the total
/// against `max_total`. Returns the total on success.
pub fn validate_milestone_amounts(amounts: &[i128], max_total: i128) -> (r: Result<i128, EscrowError>)
    ensures
        match milestone_amounts_check(amounts@, max_total as int) {
            Err(e) => r == Err::<i128, EscrowError>(e),
            Ok(t) => r is Ok && r->Ok_0 == t,
        },
{
    let total = accumulate_amounts(amounts)?;
    if total > max_total {
        Err(EscrowError::InvalidMilestoneAmount)
    } else {
        Ok(total)
    }
}

/// Validates a deposit of `amount` when `current_deposited` is already held
/// and the escrow may hold at most `max_contract_total`.
pub fn validate_deposit_amount(amount: i128, current_deposited: i128, max_contract_total: i128) -> (r: Result<(), EscrowError>)
    ensures
        r == deposit_check(amount as int, current_deposited as int, max_contract_total as int),
{
    validate_single_amount(amount)?;
    let new_total = match current_deposited.checked_add(amount) {
        Some(t) => t,
        None => return Err(EscrowError::PotentialOverflow),
    };
    if new_total > max_contract_total {
        Err(EscrowError::InvalidMilestoneAmount)
    } else {
        Ok(())
    }
}

/// Adds two amounts; `None` where the sum leaves the `i128` range.
pub fn safe_add_amounts(a: i128, b: i128) -> (r: Option<i128>)
    ensures
        r == (if fits_i128(a + b) { Some((a + b) as i128) } else { None }),
{
    a.checked_add(b)
}

/// Subtracts `b` from `a`; `None` where the difference leaves the `i128` range.
/// A negative difference is a valid result.
pub fn safe_subtract_amounts(a: i128, b: i128) -> (r: Option<i128>)
    ensures
        r == (if fits_i128(a - b) { Some((a - b) as i128) } else { None }),
{
    a.checked_sub(b)
}

/// `funded - released - refunded`, or `None` where either subtraction leaves
/// the `i128` range. A negative balance (an inconsistent state) is returned
/// as it is, for the caller to reject.
pub fn available_balance(funded: i128, released: i128, refunded: i128) -> (r: Option<i128>)
    ensures
        match available_balance_spec(funded as int, released as int, refunded as int) {
            None => r is None,
            Some(v) => r == Some(v as i128),
        },
{
    match safe_subtract_amounts(funded, released) {
        None => None,
        Some(after_release) => safe_subtract_amounts(after_release, refunded),
    }
}

} // verus!
