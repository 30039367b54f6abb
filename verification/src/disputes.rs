//! How a disputed contract's remaining balance is divided.

use vstd::prelude::*;
use crate::amounts::{available_balance, available_balance_spec, fits_i128};
use crate::errors::EscrowError;
use crate::types::{Contract, DisputeResolution};

verus! {

/// The `(client, freelancer)` shares that a resolution assigns, or why it
/// cannot be applied to the contract's counters.
///
/// The remaining balance is `funded - released - refunded`; it must be
/// computable and non-negative. A full refund gives it all to the client, a
/// full payout all to the freelancer; a split must have non-negative parts,
/// neither above the balance, that add up to exactly the balance.
pub open spec fn payouts_spec(c: Contract, res: DisputeResolution) -> Result<(int, int), EscrowError> {
    match available_balance_spec(c.funded_amount as int, c.released_amount as int, c.refunded_amount as int) {
        None => Err(EscrowError::PotentialOverflow),
        Some(avail) => if avail < 0 {
            Err(EscrowError::AccountingInvariantViolated)
        } else {
            match res {
                DisputeResolution::FullRefund => Ok((avail, 0)),
                DisputeResolution::FullPayout => Ok((0, avail)),
                DisputeResolution::Split(s) => {
                    if s.client_amount < 0 || s.freelancer_amount < 0 {
                        Err(EscrowError::InvalidDisputeSplit)
                    } else if s.client_amount > avail || s.freelancer_amount > avail {
                        Err(EscrowError::InvalidDisputeSplit)
                    } else if !fits_i128(s.client_amount + s.freelancer_amount) {
                        Err(EscrowError::PotentialOverflow)
                    } else if s.client_amount + s.freelancer_amount != avail {
                        Err(EscrowError::InvalidDisputeSplit)
                    } else {
                        Ok((s.client_amount as int, s.freelancer_amount as int))
                    }
                },
            }
        },
    }
}

/// Computes the `(client, freelancer)` shares of a disputed contract's
/// remaining balance under `resolution`.
pub fn resolution_payouts(contract: &Contract, resolution: &DisputeResolution) -> (r: Result<(i128, i128), EscrowError>)
    ensures
        match payouts_spec(*contract, *resolution) {
            Err(e) => r == Err::<(i128, i128), EscrowError>(e),
            Ok((a, b)) => r is Ok && r->Ok_0.0 == a && r->Ok_0.1 == b,
        },
{
    let avail = match available_balance(contract.funded_amount, contract.released_amount, contract.refunded_amount) {
        None => return Err(EscrowError::PotentialOverflow),
        Some(a) => a,
    };
    if avail < 0 {
        return Err(EscrowError::AccountingInvariantViolated);
    }
    match resolution {
        DisputeResolution::FullRefund => Ok((avail, 0)),
        DisputeResolution::FullPayout => Ok((0, avail)),
        DisputeResolution::Split(s) => {
            if s.client_amount < 0 || s.freelancer_amount < 0 {
                return Err(EscrowError::InvalidDisputeSplit);
            }
            if s.client_amount > avail || s.freelancer_amount > avail {
                return Err(EscrowError::InvalidDisputeSplit);
            }
            let sum = match s.client_amount.checked_add(s.freelancer_amount) {
                None => return Err(EscrowError::PotentialOverflow),
                Some(t) => t,
            };
            if sum != avail {
                return Err(EscrowError::InvalidDisputeSplit);
            }
            Ok((s.client_amount, s.freelancer_amount))
        },
    }
}

/// Whatever the resolution, accepted shares are non-negative and add up to
/// exactly the remaining balance: a resolution neither creates nor loses money.
pub proof fn lemma_payouts_conserve(c: Contract, res: DisputeResolution)
    requires
        payouts_spec(c, res) is Ok,
    ensures
        payouts_spec(c, res)->Ok_0.0 >= 0,
        payouts_spec(c, res)->Ok_0.1 >= 0,
        payouts_spec(c, res)->Ok_0.0 + payouts_spec(c, res)->Ok_0.1
            == c.funded_amount - c.released_amount - c.refunded_amount,
{
}

} // verus!
