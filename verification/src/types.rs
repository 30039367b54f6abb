//! The records the escrow keeps: the contract header and its milestones.

use vstd::prelude::*;

verus! {

/// An account that takes part in escrows (client, freelancer, arbiter,
/// administrator), identified by a number.
pub type AccountId = u64;

/// Lifecycle status of one escrow contract.
#[derive(Debug, Clone, Copy, PartialEq, Eq, Structural)]
pub enum ContractStatus {
    Created,
    Funded,
    Completed,
    Disputed,
    Cancelled,
    Refunded,
    PartiallyFunded,
}

/// The number under which a status is published in indexed events.
pub open spec fn status_code(s: ContractStatus) -> u32 {
    match s {
        ContractStatus::Created => 0,
        ContractStatus::Funded => 1,
        ContractStatus::Completed => 2,
        ContractStatus::Disputed => 3,
        ContractStatus::Cancelled => 4,
        ContractStatus::Refunded => 5,
        ContractStatus::PartiallyFunded => 6,
    }
}

/// A status after which no operation changes the contract any more.
pub open spec fn is_terminal(s: ContractStatus) -> bool {
    s == ContractStatus::Completed || s == ContractStatus::Cancelled || s == ContractStatus::Refunded
}

impl ContractStatus {
    /// The number under which this status is published in indexed events.
    pub fn code(&self) -> (c: u32)
        ensures
            c == status_code(*self),
    {
        match self {
            ContractStatus::Created => 0,
            ContractStatus::Funded => 1,
            ContractStatus::Completed => 2,
            ContractStatus::Disputed => 3,
            ContractStatus::Cancelled => 4,
            ContractStatus::Refunded => 5,
            ContractStatus::PartiallyFunded => 6,
        }
    }
}

/// Who must approve a milestone before it can be released.
#[derive(Debug, Clone, Copy, PartialEq, Eq, Structural)]
pub enum ReleaseAuthorization {
    /// The client's approval suffices.
    ClientOnly,
    /// The arbiter's approval is needed.
    ArbiterOnly,
    /// Either the client's or the arbiter's approval suffices.
    ClientAndArbiter,
    /// Both the client and the freelancer must approve.
    MultiSig,
}

/// The header of one escrow contract and its money counters.
///
/// `funded_amount` and `total_deposited` both count the deposits received;
/// `released_amount` counts what was paid out to the freelancer (gross of
/// protocol fees) and `refunded_amount` what was returned to the client.
#[derive(Debug, Clone, Copy, PartialEq, Eq, Structural)]
pub struct Contract {
    pub client: AccountId,
    pub freelancer: AccountId,
    pub arbiter: Option<AccountId>,
    pub status: ContractStatus,
    pub total_deposited: i128,
    pub funded_amount: i128,
    pub released_amount: i128,
    pub refunded_amount: i128,
    pub release_authorization: ReleaseAuthorization,
    pub reputation_issued: bool,
}

impl Default for Contract {
    fn default() -> (c: Self)
        ensures
            c.client == 0,
            c.freelancer == 0,
            c.arbiter is None,
            c.status == ContractStatus::Created,
            c.total_deposited == 0,
            c.funded_amount == 0,
            c.released_amount == 0,
            c.refunded_amount == 0,
            c.release_authorization == ReleaseAuthorization::ClientOnly,
            !c.reputation_issued,
    {
        Contract {
            client: 0,
            freelancer: 0,
            arbiter: None,
            status: ContractStatus::Created,
            total_deposited: 0,
            funded_amount: 0,
            released_amount: 0,
            refunded_amount: 0,
            release_authorization: ReleaseAuthorization::ClientOnly,
            reputation_issued: false,
        }
    }
}

/// One milestone of an escrow: an amount paid out once its work is approved.
#[derive(Debug, Clone, PartialEq, Eq)]
pub struct Milestone {
    pub amount: i128,
    pub funded_amount: i128,
    pub released: bool,
    pub refunded: bool,
    /// Proof of work submitted by the freelancer, as raw bytes.
    pub work_evidence: Option<Vec<u8>>,
    pub refunded_amount: i128,
    /// Ledger timestamp after which the milestone is overdue.
    pub deadline: Option<u64>,
}

/// Whether milestone `m` is overdue at time `now`: it is not yet released
/// and its deadline, if it has one, has passed (strictly).
pub open spec fn overdue(m: Milestone, now: u64) -> bool {
    &&& !m.released
    &&& m.deadline matches Some(d) && now > d
}

impl Milestone {
    /// Whether this milestone is overdue at time `now` (see `overdue`).
    pub fn is_overdue(&self, now: u64) -> (b: bool)
        ensures
            b == overdue(*self, now),
    {
        if self.released {
            return false;
        }
        match self.deadline {
            Some(d) => now > d,
            None => false,
        }
    }
}

/// Read-only summary of how many milestones are released out of all.
#[derive(Debug, Clone, Copy, PartialEq, Eq, Structural)]
pub struct MilestoneProgress {
    pub completed: u32,
    pub total: u32,
}

/// One row of a paginated milestone listing; `status` is 0 pending,
/// 1 released, 2 refunded.
#[derive(Debug, Clone, Copy, PartialEq, Eq, Structural)]
pub struct MilestoneEntry {
    pub index: u32,
    pub amount: i128,
    pub status: u32,
}

/// How much of the remaining balance each side receives in a split.
#[derive(Debug, Clone, Copy, PartialEq, Eq, Structural)]
pub struct DisputeSplit {
    pub client_amount: i128,
    pub freelancer_amount: i128,
}

/// The arbiter's decision on a disputed contract.
#[derive(Debug, Clone, Copy, PartialEq, Eq, Structural)]
pub enum DisputeResolution {
    /// The whole remaining balance goes back to the client.
    FullRefund,
    /// The whole remaining balance goes to the freelancer.
    FullPayout,
    /// The remaining balance is divided as given.
    Split(DisputeSplit),
}

} // verus!
