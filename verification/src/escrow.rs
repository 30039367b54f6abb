//! One escrow contract with its milestone schedule: creation, deposits,
//! approvals, releases, refunds, disputes, cancellation, work evidence and
//! reputation, each checked against the contract's accounting invariant.

use vstd::prelude::*;
use crate::amounts::{amounts_check, lemma_amounts_check_bounds, lemma_amounts_check_all_valid, accumulate_amounts, MAX_SINGLE_AMOUNT_STROOPS};
use crate::errors::EscrowError;
use crate::fees::{calculate_protocol_fee, protocol_fee, lemma_fee_bounded, MAX_FEE_BPS};
use crate::ledger::{Part, part, sum_of, amount_sum, released_sum, refunded_sum, released_count, all_settled, any_released, lemma_sum_update, lemma_settled_sums};
use crate::types::{AccountId, Contract, ContractStatus, DisputeResolution, Milestone, MilestoneEntry, MilestoneProgress, ReleaseAuthorization};
use crate::disputes::{payouts_spec, resolution_payouts, lemma_payouts_conserve};
use crate::reputation::ReputationConfig;

verus! {

/// Most milestones one contract may have until the administrator sets
/// another limit.
pub const MAX_MILESTONES: u32 = 10;

/// Fewest and most milestones per contract that the administrator may allow.
pub const MIN_MAX_MILESTONES: u32 = 1;
pub const MAX_MAX_MILESTONES: u32 = 50;

/// Longest work evidence a freelancer may attach to a milestone, in bytes.
pub const MAX_WORK_EVIDENCE_BYTES: usize = 256;

/// Who has approved one milestone for release.
#[derive(Debug, Clone, Copy, PartialEq, Eq, Structural)]
pub struct Approval {
    pub client: bool,
    pub freelancer: bool,
    pub arbiter: bool,
}

/// No approval yet.
pub open spec fn no_approval() -> Approval {
    Approval { client: false, freelancer: false, arbiter: false }
}

/// Whether the approvals gathered satisfy the contract's release rule.
pub open spec fn approvals_sufficient(auth: ReleaseAuthorization, a: Approval) -> bool {
    match auth {
        ReleaseAuthorization::ClientOnly => a.client,
        ReleaseAuthorization::ArbiterOnly => a.arbiter,
        ReleaseAuthorization::ClientAndArbiter => a.client || a.arbiter,
        ReleaseAuthorization::MultiSig => a.client && a.freelancer,
    }
}

/// Release rules that cannot work without an arbiter.
pub open spec fn needs_arbiter(auth: ReleaseAuthorization) -> bool {
    auth == ReleaseAuthorization::ArbiterOnly || auth == ReleaseAuthorization::ClientAndArbiter
}

/// The part an account plays in a contract.
#[derive(Debug, Clone, Copy, PartialEq, Eq, Structural)]
pub enum Role {
    Client,
    Freelancer,
    Arbiter,
    Outsider,
}

/// The part `caller` plays in contract `c`.
pub open spec fn role_of(c: Contract, caller: AccountId) -> Role {
    if caller == c.client {
        Role::Client
    } else if caller == c.freelancer {
        Role::Freelancer
    } else if c.arbiter == Some(caller) {
        Role::Arbiter
    } else {
        Role::Outsider
    }
}

/// The part `caller` plays in contract `c`.
pub fn role(c: &Contract, caller: AccountId) -> (r: Role)
    ensures
        r == role_of(*c, caller),
{
    if caller == c.client {
        Role::Client
    } else if caller == c.freelancer {
        Role::Freelancer
    } else {
        match c.arbiter {
            Some(a) => if a == caller { Role::Arbiter } else { Role::Outsider },
            None => Role::Outsider,
        }
    }
}

/// A milestone as it is created: nothing funded, settled or attached.
pub open spec fn fresh_milestone(amount: i128) -> Milestone {
    Milestone {
        amount,
        funded_amount: 0,
        released: false,
        refunded: false,
        work_evidence: None,
        refunded_amount: 0,
        deadline: None,
    }
}

/// A milestone of a fully funded contract that has not been touched since.
pub open spec fn funded_milestone(amount: i128) -> Milestone {
    Milestone { funded_amount: amount, ..fresh_milestone(amount) }
}

/// The mathematical content of an escrow record.
pub ghost struct EscrowView {
    pub contract: Contract,
    pub milestones: Seq<Milestone>,
    pub approvals: Seq<Approval>,
    pub evidence_hashes: Seq<Option<[u8; 32]>>,
}

/// Released and refunded counters agree with the milestone flags.
pub open spec fn counters_track_milestones(v: EscrowView) -> bool {
    v.contract.released_amount == released_sum(v.milestones)
        && v.contract.refunded_amount == refunded_sum(v.milestones)
}

/// The money still held for the contract.
pub open spec fn available(c: Contract) -> int {
    c.total_deposited - c.released_amount - c.refunded_amount
}

/// Whether every deposit expected by the schedule has arrived.
pub open spec fn fully_funded(v: EscrowView) -> bool {
    v.contract.total_deposited == amount_sum(v.milestones)
}

/// Shape of one milestone inside a well-formed record.
pub open spec fn milestone_wf(m: Milestone, funded: bool) -> bool {
    &&& 0 < m.amount <= MAX_SINGLE_AMOUNT_STROOPS
    &&& !(m.released && m.refunded)
    &&& m.refunded_amount == (if m.refunded { m.amount } else { 0 })
    &&& m.funded_amount == (if funded { m.amount } else { 0 })
}

/// The invariant of an escrow record.
///
/// Participants are distinct; every milestone amount is valid; deposits
/// never exceed the schedule; `released + refunded + available ==
/// total_deposited` with `available >= 0`; while the contract is live the
/// released and refunded counters are exactly the released and refunded
/// milestones; and each status fixes how much has been deposited.
pub open spec fn view_wf(v: EscrowView) -> bool {
    let c = v.contract;
    let ms = v.milestones;
    &&& 1 <= ms.len() <= MAX_MAX_MILESTONES
    &&& v.approvals.len() == ms.len()
    &&& v.evidence_hashes.len() == ms.len()
    &&& c.client != c.freelancer
    &&& (c.arbiter matches Some(a) ==> a != c.client && a != c.freelancer)
    &&& (needs_arbiter(c.release_authorization) ==> c.arbiter is Some)
    &&& forall|i: int| 0 <= i < ms.len() ==> milestone_wf(#[trigger] ms[i], fully_funded(v))
    &&& c.funded_amount == c.total_deposited
    &&& 0 <= c.total_deposited <= amount_sum(ms)
    &&& 0 <= c.released_amount
    &&& 0 <= c.refunded_amount
    &&& available(c) >= 0
    &&& match c.status {
        ContractStatus::Created => {
            &&& c.total_deposited == 0
            &&& counters_track_milestones(v)
            &&& forall|i: int| 0 <= i < ms.len() ==> #[trigger] ms[i] == fresh_milestone(ms[i].amount)
            &&& forall|i: int| 0 <= i < ms.len() ==> #[trigger] v.approvals[i] == no_approval()
            &&& c.released_amount == 0 && c.refunded_amount == 0
        },
        ContractStatus::PartiallyFunded => {
            &&& 0 < c.total_deposited < amount_sum(ms)
            &&& counters_track_milestones(v)
            &&& forall|i: int| 0 <= i < ms.len() ==> #[trigger] ms[i] == fresh_milestone(ms[i].amount)
            &&& forall|i: int| 0 <= i < ms.len() ==> #[trigger] v.approvals[i] == no_approval()
            &&& c.released_amount == 0 && c.refunded_amount == 0
        },
        ContractStatus::Funded => {
            &&& fully_funded(v)
            &&& counters_track_milestones(v)
            &&& !all_settled(ms)
        },
        ContractStatus::Disputed => {
            &&& c.total_deposited > 0
            &&& counters_track_milestones(v)
            &&& c.arbiter is Some
        },
        _ => available(c) == 0,
    }
}


/// Why a deposit of `amount` by `caller` would be refused, if it would.
pub open spec fn deposit_outcome(v: EscrowView, caller: AccountId, amount: int) -> Result<(), EscrowError> {
    let c = v.contract;
    if role_of(c, caller) != Role::Client {
        Err(EscrowError::UnauthorizedRole)
    } else if c.status != ContractStatus::Created && c.status != ContractStatus::PartiallyFunded {
        Err(EscrowError::InvalidState)
    } else if amount <= 0 {
        Err(EscrowError::AmountMustBePositive)
    } else if amount > MAX_SINGLE_AMOUNT_STROOPS {
        Err(EscrowError::InvalidDepositAmount)
    } else if c.total_deposited + amount > amount_sum(v.milestones) {
        Err(EscrowError::InvalidDepositAmount)
    } else {
        Ok(())
    }
}

/// The record after an accepted deposit: both deposit counters grow by the
/// amount, and the contract is funded once the schedule is covered.
pub open spec fn after_deposit(v: EscrowView, amount: int) -> EscrowView {
    let td = v.contract.total_deposited + amount;
    let full = td == amount_sum(v.milestones);
    EscrowView {
        contract: Contract {
            status: if full { ContractStatus::Funded } else { ContractStatus::PartiallyFunded },
            total_deposited: td as i128,
            funded_amount: td as i128,
            ..v.contract
        },
        milestones: if full {
            v.milestones.map_values(|m: Milestone| funded_milestone(m.amount))
        } else {
            v.milestones
        },
        ..v
    }
}

/// The schedule created from a list of amounts sums to the list's total.
pub proof fn lemma_created_sum(amounts: Seq<i128>)
    requires
        amounts_check(amounts) is Ok,
    ensures
        amount_sum(amounts.map_values(|a: i128| fresh_milestone(a))) == amounts_check(amounts)->Ok_0,
    decreases amounts.len(),
{
    if amounts.len() > 0 {
        let ms = amounts.map_values(|a: i128| fresh_milestone(a));
        assert(ms.drop_last() =~= amounts.drop_last().map_values(|a: i128| fresh_milestone(a)));
        lemma_created_sum(amounts.drop_last());
    }
}

/// One record of a well-formed schedule is itself well-formed.
pub proof fn lemma_wf_milestone(v: EscrowView, i: int)
    requires
        view_wf(v),
        0 <= i < v.milestones.len(),
    ensures
        milestone_wf(v.milestones[i], fully_funded(v)),
        0 < v.milestones[i].amount <= MAX_SINGLE_AMOUNT_STROOPS,
{
}

/// The schedule total of a well-formed record is positive and small.
pub proof fn lemma_schedule_total_bounds(v: EscrowView)
    requires
        view_wf(v),
    ensures
        0 < amount_sum(v.milestones) <= MAX_MAX_MILESTONES * MAX_SINGLE_AMOUNT_STROOPS,
{
    lemma_prefix_sum_bounds(v.milestones, v.milestones.len() as int);
}

/// Sums of amounts over prefixes of a schedule of valid milestones.
pub proof fn lemma_prefix_sum_bounds(ms: Seq<Milestone>, k: int)
    requires
        0 <= k <= ms.len(),
        forall|i: int| 0 <= i < ms.len() ==> 0 < (#[trigger] ms[i]).amount <= MAX_SINGLE_AMOUNT_STROOPS,
    ensures
        0 <= amount_sum(ms.take(k)) <= k * MAX_SINGLE_AMOUNT_STROOPS,
        k > 0 ==> amount_sum(ms.take(k)) > 0,
        k == ms.len() ==> ms.take(k) == ms,
    decreases k,
{
    if k > 0 {
        assert(ms.take(k).drop_last() =~= ms.take(k - 1));
        lemma_prefix_sum_bounds(ms, k - 1);
        assert(ms.take(k).last() == ms[k - 1]);
    }
    if k == ms.len() {
        assert(ms.take(k) =~= ms);
    }
}

/// Whether `role` may approve milestones under `auth`.
pub open spec fn may_approve(auth: ReleaseAuthorization, role: Role) -> bool {
    match role {
        Role::Client => auth != ReleaseAuthorization::ArbiterOnly,
        Role::Arbiter => auth == ReleaseAuthorization::ArbiterOnly || auth == ReleaseAuthorization::ClientAndArbiter,
        Role::Freelancer => auth == ReleaseAuthorization::MultiSig,
        Role::Outsider => false,
    }
}

/// Computes `may_approve`: whether `who` may approve, and so release,
/// under the release rule `auth`.
pub fn role_may_approve(auth: ReleaseAuthorization, who: Role) -> (b: bool)
    ensures
        b == may_approve(auth, who),
{
    match who {
        Role::Client => match auth {
            ReleaseAuthorization::ArbiterOnly => false,
            _ => true,
        },
        Role::Arbiter => match auth {
            ReleaseAuthorization::ArbiterOnly => true,
            ReleaseAuthorization::ClientAndArbiter => true,
            _ => false,
        },
        Role::Freelancer => match auth {
            ReleaseAuthorization::MultiSig => true,
            _ => false,
        },
        Role::Outsider => false,
    }
}

/// An approval record with `role`'s mark added.
pub open spec fn mark_approval(a: Approval, role: Role) -> Approval {
    match role {
        Role::Client => Approval { client: true, ..a },
        Role::Freelancer => Approval { freelancer: true, ..a },
        Role::Arbiter => Approval { arbiter: true, ..a },
        Role::Outsider => a,
    }
}

/// Why an approval of milestone `index` by `caller` would be refused, if it would.
pub open spec fn approve_outcome(v: EscrowView, caller: AccountId, index: int) -> Result<(), EscrowError> {
    if v.contract.status != ContractStatus::Funded {
        Err(EscrowError::InvalidState)
    } else if index >= v.milestones.len() {
        Err(EscrowError::IndexOutOfBounds)
    } else if !may_approve(v.contract.release_authorization, role_of(v.contract, caller)) {
        Err(EscrowError::UnauthorizedRole)
    } else {
        Ok(())
    }
}

/// The record after an accepted approval: only that milestone's approvals change.
pub open spec fn after_approve(v: EscrowView, caller: AccountId, index: int) -> EscrowView {
    EscrowView {
        approvals: v.approvals.update(index, mark_approval(v.approvals[index], role_of(v.contract, caller))),
        ..v
    }
}

/// Why a release of milestone `index` requested by `caller` would be refused, if it would.
pub open spec fn release_outcome(v: EscrowView, caller: AccountId, index: int) -> Result<(), EscrowError> {
    if !may_approve(v.contract.release_authorization, role_of(v.contract, caller)) {
        Err(EscrowError::UnauthorizedRole)
    } else if v.contract.status != ContractStatus::Funded {
        Err(EscrowError::InvalidState)
    } else if index >= v.milestones.len() {
        Err(EscrowError::IndexOutOfBounds)
    } else if v.milestones[index].released {
        Err(EscrowError::AlreadyReleased)
    } else if v.milestones[index].refunded {
        Err(EscrowError::AlreadyRefunded)
    } else if !approvals_sufficient(v.contract.release_authorization, v.approvals[index]) {
        Err(EscrowError::InsufficientApprovals)
    } else {
        Ok(())
    }
}

/// A milestone marked released.
pub open spec fn released_milestone(m: Milestone) -> Milestone {
    Milestone { released: true, ..m }
}

/// The record after an accepted release: the milestone is released, its
/// amount is added to the released counter, and the contract completes
/// once every milestone is settled.
pub open spec fn after_release(v: EscrowView, index: int) -> EscrowView {
    let ms = v.milestones.update(index, released_milestone(v.milestones[index]));
    EscrowView {
        contract: Contract {
            released_amount: (v.contract.released_amount + v.milestones[index].amount) as i128,
            status: if all_settled(ms) { ContractStatus::Completed } else { ContractStatus::Funded },
            ..v.contract
        },
        milestones: ms,
        ..v
    }
}

/// Whether every milestone of a schedule is released or refunded.
fn all_milestones_settled(ms: &Vec<Milestone>) -> (b: bool)
    ensures
        b == all_settled(ms@),
{
    let mut i: usize = 0;
    while i < ms.len()
        invariant
            i <= ms@.len(),
            forall|j: int| 0 <= j < i ==> (#[trigger] ms@[j]).released || ms@[j].refunded,
        decreases ms@.len() - i,
    {
        if !ms[i].released && !ms[i].refunded {
            return false;
        }
        i = i + 1;
    }
    true
}

/// Checks a refund request index by index, in order: each index must be in
/// range, not repeat an earlier one, and name a milestone neither released
/// nor refunded. The first failure decides the error; when all pass, the
/// result is the sum of the named amounts.
pub open spec fn refund_scan(ms: Seq<Milestone>, idx: Seq<u32>) -> Result<int, EscrowError>
    decreases idx.len(),
{
    if idx.len() == 0 {
        Ok(0)
    } else {
        match refund_scan(ms, idx.drop_last()) {
            Err(e) => Err(e),
            Ok(t) => {
                let j = idx.last() as int;
                if j >= ms.len() {
                    Err(EscrowError::IndexOutOfBounds)
                } else if idx.drop_last().contains(idx.last()) {
                    Err(EscrowError::DuplicateMilestoneInRefund)
                } else if ms[j].released {
                    Err(EscrowError::AlreadyReleased)
                } else if ms[j].refunded {
                    Err(EscrowError::AlreadyRefunded)
                } else {
                    Ok(t + ms[j].amount)
                }
            },
        }
    }
}

/// Why a refund of the milestones at `idx`, requested by `caller`, would be
/// refused, if it would.
pub open spec fn refund_outcome(v: EscrowView, caller: AccountId, idx: Seq<u32>) -> Result<(), EscrowError> {
    if role_of(v.contract, caller) != Role::Client {
        Err(EscrowError::UnauthorizedRole)
    } else if v.contract.status != ContractStatus::Funded {
        Err(EscrowError::InvalidState)
    } else if idx.len() == 0 {
        Err(EscrowError::EmptyRefundRequest)
    } else {
        match refund_scan(v.milestones, idx) {
            Err(e) => Err(e),
            Ok(_) => Ok(()),
        }
    }
}

/// A milestone marked refunded, its whole amount returned.
pub open spec fn refunded_milestone(m: Milestone) -> Milestone {
    Milestone { refunded: true, refunded_amount: m.amount, ..m }
}

/// Whether a request names position `i`.
pub open spec fn names(idx: Seq<u32>, i: int) -> bool {
    exists|k: int| 0 <= k < idx.len() && idx[k] as int == i
}

/// A schedule with the milestones at `idx` refunded.
pub open spec fn refund_schedule(ms: Seq<Milestone>, idx: Seq<u32>) -> Seq<Milestone> {
    Seq::new(ms.len(), |i: int| if names(idx, i) { refunded_milestone(ms[i]) } else { ms[i] })
}

/// The status a funded contract takes after a settlement: still funded
/// while something is pending, otherwise completed if anything was
/// released and refunded if everything was refunded.
pub open spec fn status_after_settlement(ms: Seq<Milestone>) -> ContractStatus {
    if !all_settled(ms) {
        ContractStatus::Funded
    } else if any_released(ms) {
        ContractStatus::Completed
    } else {
        ContractStatus::Refunded
    }
}

/// The record after an accepted refund.
pub open spec fn after_refund(v: EscrowView, idx: Seq<u32>) -> EscrowView {
    let ms = refund_schedule(v.milestones, idx);
    EscrowView {
        contract: Contract {
            refunded_amount: (v.contract.refunded_amount + refund_scan(v.milestones, idx)->Ok_0) as i128,
            status: status_after_settlement(ms),
            ..v.contract
        },
        milestones: ms,
        ..v
    }
}

/// An accepted request names distinct pending milestones in range, and
/// every prefix of it is accepted too.
pub proof fn lemma_refund_scan_ok(ms: Seq<Milestone>, idx: Seq<u32>)
    requires
        refund_scan(ms, idx) is Ok,
    ensures
        forall|k: int| 0 <= k < idx.len() ==> (#[trigger] idx[k]) < ms.len()
            && !ms[idx[k] as int].released && !ms[idx[k] as int].refunded,
        forall|k1: int, k2: int| 0 <= k1 < k2 < idx.len() ==> idx[k1] != idx[k2],
        forall|k: int| 0 <= k <= idx.len() ==> (#[trigger] refund_scan(ms, idx.take(k))) is Ok,
    decreases idx.len(),
{
    if idx.len() > 0 {
        let p = idx.drop_last();
        lemma_refund_scan_ok(ms, p);
        assert forall|k: int| 0 <= k < idx.len() implies (#[trigger] idx[k]) < ms.len()
            && !ms[idx[k] as int].released && !ms[idx[k] as int].refunded by {
            if k < idx.len() - 1 {
                assert(p[k] == idx[k]);
            }
        }
        assert forall|k1: int, k2: int| 0 <= k1 < k2 < idx.len() implies idx[k1] != idx[k2] by {
            assert(p[k1] == idx[k1]);
            if k2 < idx.len() - 1 {
                assert(p[k2] == idx[k2]);
            } else {
                assert(p.contains(p[k1]));
            }
        }
        assert forall|k: int| 0 <= k <= idx.len() implies (#[trigger] refund_scan(ms, idx.take(k))) is Ok by {
            if k < idx.len() {
                assert(idx.take(k) =~= p.take(k));
            } else {
                assert(idx.take(k) =~= idx);
            }
        }
    }
}

/// Once a prefix of a request fails, the whole request fails the same way.
pub proof fn lemma_refund_prefix_error(ms: Seq<Milestone>, idx: Seq<u32>, k: int)
    requires
        0 <= k <= idx.len(),
        refund_scan(ms, idx.take(k)) is Err,
    ensures
        refund_scan(ms, idx) == refund_scan(ms, idx.take(k)),
    decreases idx.len() - k,
{
    if k < idx.len() {
        assert(idx.take(k + 1).drop_last() =~= idx.take(k));
        lemma_refund_prefix_error(ms, idx, k + 1);
    } else {
        assert(idx.take(k) =~= idx);
    }
}

/// Whether some milestone of a schedule is released.
fn any_milestone_released(ms: &Vec<Milestone>) -> (b: bool)
    ensures
        b == any_released(ms@),
{
    let mut i: usize = 0;
    while i < ms.len()
        invariant
            i <= ms@.len(),
            forall|j: int| 0 <= j < i ==> !(#[trigger] ms@[j]).released,
        decreases ms@.len() - i,
    {
        if ms[i].released {
            return true;
        }
        i = i + 1;
    }
    false
}

/// The sum of the amounts a refund request names (whatever their state).
pub open spec fn refunded_sum_bound(ms: Seq<Milestone>, idx: Seq<u32>) -> int
    decreases idx.len(),
{
    if idx.len() == 0 {
        0
    } else {
        refunded_sum_bound(ms, idx.drop_last()) + ms[idx.last() as int].amount
    }
}

/// An accepted request sums to what it names, and that never exceeds the
/// amounts still pending.
pub proof fn lemma_refund_bound_step(ms: Seq<Milestone>, idx: Seq<u32>)
    requires
        refund_scan(ms, idx) is Ok,
        forall|i: int| 0 <= i < ms.len() ==> 0 < (#[trigger] ms[i]).amount && !(ms[i].released && ms[i].refunded),
    ensures
        refund_scan(ms, idx)->Ok_0 == refunded_sum_bound(ms, idx),
        0 <= refunded_sum_bound(ms, idx) <= amount_sum(ms) - released_sum(ms) - refunded_sum(ms),
{
    lemma_refund_scan_ok(ms, idx);
    lemma_refund_sum_matches(ms, idx);
    lemma_refund_schedule_sum(ms, idx);
    lemma_settled_sums(refund_schedule(ms, idx));
    assert forall|i: int| 0 <= i < refund_schedule(ms, idx).len() implies
        0 < (#[trigger] refund_schedule(ms, idx)[i]).amount
        && !(refund_schedule(ms, idx)[i].released && refund_schedule(ms, idx)[i].refunded) by {
        if names(idx, i) {
            let k = choose|k: int| 0 <= k < idx.len() && idx[k] as int == i;
            assert(idx[k] < ms.len() && !ms[idx[k] as int].released);
        }
    }
    lemma_settled_sums(refund_schedule(ms, idx));
}

/// The scan total equals the sum of the named amounts.
pub proof fn lemma_refund_sum_matches(ms: Seq<Milestone>, idx: Seq<u32>)
    requires
        refund_scan(ms, idx) is Ok,
        forall|i: int| 0 <= i < ms.len() ==> 0 < (#[trigger] ms[i]).amount,
    ensures
        refund_scan(ms, idx)->Ok_0 == refunded_sum_bound(ms, idx),
        refunded_sum_bound(ms, idx) >= 0,
    decreases idx.len(),
{
    if idx.len() > 0 {
        lemma_refund_sum_matches(ms, idx.drop_last());
        assert(0 < ms[idx.last() as int].amount);
    }
}

/// Refunding the named milestones grows the refunded sum by exactly their
/// amounts and leaves the released sum and the total as they were.
pub proof fn lemma_refund_schedule_sum(ms: Seq<Milestone>, idx: Seq<u32>)
    requires
        refund_scan(ms, idx) is Ok,
    ensures
        refunded_sum(refund_schedule(ms, idx)) == refunded_sum(ms) + refunded_sum_bound(ms, idx),
        released_sum(refund_schedule(ms, idx)) == released_sum(ms),
        amount_sum(refund_schedule(ms, idx)) == amount_sum(ms),
    decreases idx.len(),
{
    if idx.len() == 0 {
        assert(refund_schedule(ms, idx) =~= ms);
    } else {
        let p = idx.drop_last();
        let j = idx.last() as int;
        lemma_refund_scan_ok(ms, idx);
        assert(refund_scan(ms, p) is Ok) by {
            assert(idx.take(idx.len() - 1) =~= p);
        }
        lemma_refund_schedule_sum(ms, p);
        let prev = refund_schedule(ms, p);
        assert(!p.contains(idx.last()));
        assert(!names(p, j)) by {
            if names(p, j) {
                let k = choose|k: int| 0 <= k < p.len() && p[k] as int == j;
                assert(p[k] == idx.last());
            }
        }
        assert(prev[j] == ms[j]);
        assert(refund_schedule(ms, idx) =~= prev.update(j, refunded_milestone(ms[j]))) by {
            assert forall|i: int| 0 <= i < ms.len() implies
                (#[trigger] refund_schedule(ms, idx)[i]) == prev.update(j, refunded_milestone(ms[j]))[i] by {
                if i != j {
                    if names(idx, i) {
                        let k = choose|k: int| 0 <= k < idx.len() && idx[k] as int == i;
                        assert(k != idx.len() - 1);
                        assert(p[k] == idx[k]);
                        assert(names(p, i));
                    }
                    if names(p, i) {
                        let k = choose|k: int| 0 <= k < p.len() && p[k] as int == i;
                        assert(idx[k] == p[k]);
                        assert(names(idx, i));
                    }
                } else {
                    assert(idx[idx.len() - 1] == idx.last());
                    assert(names(idx, i));
                }
            }
        }
        lemma_sum_update(prev, j, refunded_milestone(ms[j]), Part::Refunded);
        lemma_sum_update(prev, j, refunded_milestone(ms[j]), Part::Released);
        lemma_sum_update(prev, j, refunded_milestone(ms[j]), Part::Amount);
    }
}

/// Why `caller` could not open a dispute, if they could not.
pub open spec fn raise_dispute_outcome(v: EscrowView, caller: AccountId) -> Result<(), EscrowError> {
    let r = role_of(v.contract, caller);
    if r != Role::Client && r != Role::Freelancer {
        Err(EscrowError::UnauthorizedRole)
    } else if v.contract.status != ContractStatus::Funded && v.contract.status != ContractStatus::PartiallyFunded {
        Err(EscrowError::InvalidState)
    } else if v.contract.arbiter is None {
        Err(EscrowError::MissingArbiter)
    } else {
        Ok(())
    }
}

/// Why `caller` could not resolve the dispute with `res`, if they could not.
pub open spec fn resolve_dispute_outcome(v: EscrowView, caller: AccountId, res: DisputeResolution) -> Result<(int, int), EscrowError> {
    if v.contract.status != ContractStatus::Disputed {
        Err(EscrowError::InvalidState)
    } else if role_of(v.contract, caller) != Role::Arbiter {
        Err(EscrowError::UnauthorizedRole)
    } else {
        payouts_spec(v.contract, res)
    }
}

/// The record after a resolution that gives `to_client` back to the client
/// and `to_freelancer` to the freelancer. The contract ends: refunded when
/// the freelancer receives nothing, completed otherwise.
pub open spec fn after_resolve(v: EscrowView, to_client: int, to_freelancer: int) -> EscrowView {
    EscrowView {
        contract: Contract {
            refunded_amount: (v.contract.refunded_amount + to_client) as i128,
            released_amount: (v.contract.released_amount + to_freelancer) as i128,
            status: if to_freelancer == 0 { ContractStatus::Refunded } else { ContractStatus::Completed },
            ..v.contract
        },
        ..v
    }
}

/// Why `caller` could not cancel the contract, if they could not.
pub open spec fn cancel_outcome(v: EscrowView, caller: AccountId) -> Result<(), EscrowError> {
    let s = v.contract.status;
    if role_of(v.contract, caller) != Role::Client {
        Err(EscrowError::UnauthorizedRole)
    } else if s != ContractStatus::Created && s != ContractStatus::PartiallyFunded && s != ContractStatus::Funded {
        Err(EscrowError::InvalidState)
    } else if v.contract.released_amount != 0 || v.contract.refunded_amount != 0 {
        Err(EscrowError::InvalidState)
    } else {
        Ok(())
    }
}

/// The record after a cancellation: everything deposited goes back to the client.
pub open spec fn after_cancel(v: EscrowView) -> EscrowView {
    EscrowView {
        contract: Contract {
            refunded_amount: v.contract.total_deposited,
            status: ContractStatus::Cancelled,
            ..v.contract
        },
        ..v
    }
}

/// Why `caller` could not attach `len` bytes of evidence to milestone `index`.
pub open spec fn evidence_outcome(v: EscrowView, caller: AccountId, index: int, len: int) -> Result<(), EscrowError> {
    if role_of(v.contract, caller) != Role::Freelancer {
        Err(EscrowError::UnauthorizedRole)
    } else if v.contract.status != ContractStatus::Funded {
        Err(EscrowError::InvalidState)
    } else if index >= v.milestones.len() {
        Err(EscrowError::IndexOutOfBounds)
    } else if v.milestones[index].released {
        Err(EscrowError::AlreadyReleased)
    } else if v.milestones[index].refunded {
        Err(EscrowError::AlreadyRefunded)
    } else if len > MAX_WORK_EVIDENCE_BYTES {
        Err(EscrowError::EvidenceTooLong)
    } else {
        Ok(())
    }
}

/// Why `caller` could not rate the freelancer under the rules `cfg`, if
/// they could not.
pub open spec fn reputation_outcome(v: EscrowView, caller: AccountId, rating: int, comment_len: int, cfg: ReputationConfig) -> Result<(), EscrowError> {
    if role_of(v.contract, caller) != Role::Client {
        Err(EscrowError::UnauthorizedRole)
    } else if v.contract.status != ContractStatus::Completed {
        Err(EscrowError::NotCompleted)
    } else if v.contract.reputation_issued {
        Err(EscrowError::ReputationAlreadyIssued)
    } else if rating < cfg.min_rating || rating > cfg.max_rating {
        Err(EscrowError::InvalidRating)
    } else if comment_len == 0 {
        Err(EscrowError::EmptyComment)
    } else if comment_len > cfg.max_comment_bytes {
        Err(EscrowError::CommentTooLong)
    } else {
        Ok(())
    }
}

/// Why `caller` could not record an evidence hash for milestone `index`,
/// if they could not: only the client or the freelancer records one, once
/// per milestone.
pub open spec fn evidence_hash_outcome(v: EscrowView, caller: AccountId, index: int) -> Result<(), EscrowError> {
    let r = role_of(v.contract, caller);
    if r != Role::Client && r != Role::Freelancer {
        Err(EscrowError::UnauthorizedRole)
    } else if index >= v.milestones.len() {
        Err(EscrowError::IndexOutOfBounds)
    } else if v.evidence_hashes[index] is Some {
        Err(EscrowError::EvidenceHashAlreadySet)
    } else {
        Ok(())
    }
}

/// Most entries returned by one page of the milestone listing.
pub const MAX_PAGE_SIZE: u32 = 10;

/// The listing code of a milestone: 0 pending, 1 released, 2 refunded.
pub open spec fn entry_status(m: Milestone) -> u32 {
    if m.released { 1 } else if m.refunded { 2 } else { 0 }
}

/// How many entries a page starting at `start` with `limit` holds.
pub open spec fn page_len(len: int, start: int, limit: int) -> int {
    let cap = if limit < MAX_PAGE_SIZE { limit } else { MAX_PAGE_SIZE as int };
    if start >= len { 0 } else if len - start < cap { len - start } else { cap }
}

/// The schedule of a contract that has just been fully funded: every
/// milestone covered by its own amount and otherwise untouched.
fn funded_schedule(ms: &Vec<Milestone>) -> (out: Vec<Milestone>)
    requires
        forall|i: int| 0 <= i < ms@.len() ==> 0 < (#[trigger] ms@[i]).amount <= MAX_SINGLE_AMOUNT_STROOPS,
    ensures
        out@ == ms@.map_values(|m: Milestone| funded_milestone(m.amount)),
        amount_sum(out@) == amount_sum(ms@),
        released_sum(out@) == 0,
        refunded_sum(out@) == 0,
{
    let mut out: Vec<Milestone> = Vec::new();
    let mut i: usize = 0;
    while i < ms.len()
        invariant
            i <= ms@.len(),
            out@ == ms@.take(i as int).map_values(|m: Milestone| funded_milestone(m.amount)),
            amount_sum(out@) == amount_sum(ms@.take(i as int)),
            released_sum(out@) == 0,
            refunded_sum(out@) == 0,
        decreases ms@.len() - i,
    {
        let a = ms[i].amount;
        let ghost before = out@;
        out.push(Milestone {
            amount: a,
            funded_amount: a,
            released: false,
            refunded: false,
            work_evidence: None,
            refunded_amount: 0,
            deadline: None,
        });
        proof {
            assert(out@.drop_last() =~= before);
            assert(ms@.take(i + 1).drop_last() =~= ms@.take(i as int));
            assert(out@ =~= ms@.take(i + 1).map_values(|m: Milestone| funded_milestone(m.amount)));
        }
        i = i + 1;
    }
    assert(ms@.take(ms@.len() as int) =~= ms@);
    out
}

/// One escrow contract: its header, its milestone schedule and the
/// approvals gathered for each milestone.
pub struct EscrowRecord {
    contract: Contract,
    milestones: Vec<Milestone>,
    approvals: Vec<Approval>,
    evidence_hashes: Vec<Option<[u8; 32]>>,
}

impl View for EscrowRecord {
    type V = EscrowView;

    closed spec fn view(&self) -> EscrowView {
        EscrowView {
            contract: self.contract,
            milestones: self.milestones@,
            approvals: self.approvals@,
            evidence_hashes: self.evidence_hashes@,
        }
    }
}

/// Why a contract with these terms would be refused, if it would.
pub open spec fn create_outcome(
    client: AccountId,
    freelancer: AccountId,
    arbiter: Option<AccountId>,
    amounts: Seq<i128>,
    auth: ReleaseAuthorization,
    max_total: int,
    max_milestones: int,
) -> Result<(), EscrowError> {
    if client == freelancer {
        Err(EscrowError::InvalidParticipant)
    } else if arbiter matches Some(a) && (a == client || a == freelancer) {
        Err(EscrowError::InvalidArbiter)
    } else if needs_arbiter(auth) && arbiter is None {
        Err(EscrowError::MissingArbiter)
    } else if amounts.len() == 0 {
        Err(EscrowError::EmptyMilestones)
    } else if amounts.len() > max_milestones {
        Err(EscrowError::TooManyMilestones)
    } else if amounts_check(amounts) is Err {
        Err(EscrowError::InvalidMilestoneAmount)
    } else if amounts_check(amounts)->Ok_0 > max_total {
        Err(EscrowError::TotalCapExceeded)
    } else {
        Ok(())
    }
}

/// The record a successful creation produces.
pub open spec fn created_view(
    client: AccountId,
    freelancer: AccountId,
    arbiter: Option<AccountId>,
    amounts: Seq<i128>,
    auth: ReleaseAuthorization,
) -> EscrowView {
    EscrowView {
        contract: Contract {
            client,
            freelancer,
            arbiter,
            status: ContractStatus::Created,
            total_deposited: 0,
            funded_amount: 0,
            released_amount: 0,
            refunded_amount: 0,
            release_authorization: auth,
            reputation_issued: false,
        },
        milestones: amounts.map_values(|a: i128| fresh_milestone(a)),
        approvals: Seq::new(amounts.len(), |i: int| no_approval()),
        evidence_hashes: Seq::new(amounts.len(), |i: int| None),
    }
}

impl EscrowRecord {
    /// The invariant of this record.
    pub open spec fn wf(&self) -> bool {
        view_wf(self@)
    }

    /// The contract header.
    pub fn contract(&self) -> (c: &Contract)
        ensures
            *c == self@.contract,
    {
        &self.contract
    }

    /// The milestone schedule.
    pub fn milestones(&self) -> (ms: &Vec<Milestone>)
        ensures
            ms@ == self@.milestones,
    {
        &self.milestones
    }

    /// The approvals gathered so far, one per milestone.
    pub fn approvals(&self) -> (a: &Vec<Approval>)
        ensures
            a@ == self@.approvals,
    {
        &self.approvals
    }


    /// Total amount of the milestone schedule.
    pub fn schedule_total(&self) -> (t: i128)
        requires
            self.wf(),
        ensures
            t == amount_sum(self@.milestones),
            0 < t <= MAX_MAX_MILESTONES * MAX_SINGLE_AMOUNT_STROOPS,
    {
        let ghost ms = self@.milestones;
        proof { lemma_schedule_total_bounds(self@); }
        let mut t: i128 = 0;
        let mut i: usize = 0;
        while i < self.milestones.len()
            invariant
                ms == self.milestones@,
                i <= ms.len(),
                ms.len() <= MAX_MAX_MILESTONES,
                forall|j: int| 0 <= j < ms.len() ==> 0 < (#[trigger] ms[j]).amount <= MAX_SINGLE_AMOUNT_STROOPS,
                t == amount_sum(ms.take(i as int)),
            decreases ms.len() - i,
        {
            proof {
                lemma_prefix_sum_bounds(ms, i as int);
                assert(ms.take(i + 1).drop_last() =~= ms.take(i as int));
                assert(i * MAX_SINGLE_AMOUNT_STROOPS <= 50 * MAX_SINGLE_AMOUNT_STROOPS) by (nonlinear_arith)
                    requires i <= 50;
            }
            t = t + self.milestones[i].amount;
            i = i + 1;
        }
        proof { lemma_prefix_sum_bounds(ms, ms.len() as int); }
        t
    }

    /// Records a deposit of `amount` by the client. Deposits are accepted
    /// while the contract awaits funding, one at a time, up to the schedule
    /// total; the contract is funded when the total is reached.
    pub fn deposit(&mut self, caller: AccountId, amount: i128) -> (r: Result<(), EscrowError>)
        requires
            old(self).wf(),
        ensures
            r == deposit_outcome(old(self)@, caller, amount as int),
            r is Ok ==> final(self)@ == after_deposit(old(self)@, amount as int),
            r is Err ==> final(self)@ == old(self)@,
            final(self).wf(),
    {
        let total = self.schedule_total();
        if role(&self.contract, caller) != Role::Client {
            return Err(EscrowError::UnauthorizedRole);
        }
        match self.contract.status {
            ContractStatus::Created => {},
            ContractStatus::PartiallyFunded => {},
            _ => return Err(EscrowError::InvalidState),
        }
        if amount <= 0 {
            return Err(EscrowError::AmountMustBePositive);
        }
        if amount > MAX_SINGLE_AMOUNT_STROOPS {
            return Err(EscrowError::InvalidDepositAmount);
        }
        let td = self.contract.total_deposited;
        if amount > total - td {
            return Err(EscrowError::InvalidDepositAmount);
        }
        let new_td = td + amount;
        let ghost old_view = self@;
        if new_td == total {
            let funded = funded_schedule(&self.milestones);
            self.milestones = funded;
            self.contract.status = ContractStatus::Funded;
        } else {
            self.contract.status = ContractStatus::PartiallyFunded;
        }
        self.contract.total_deposited = new_td;
        self.contract.funded_amount = new_td;
        proof {
            assert(self@.milestones =~= after_deposit(old_view, amount as int).milestones);
            if new_td == total {
                assert(!all_settled(self@.milestones)) by {
                    assert(!self@.milestones[0].released && !self@.milestones[0].refunded);
                }
                assert forall|i: int| 0 <= i < self@.milestones.len()
                    implies milestone_wf(#[trigger] self@.milestones[i], fully_funded(self@)) by {
                    lemma_wf_milestone(old_view, i);
                }
            } else {
                assert forall|i: int| 0 <= i < self@.milestones.len()
                    implies milestone_wf(#[trigger] self@.milestones[i], fully_funded(self@)) by {
                    lemma_wf_milestone(old_view, i);
                }
            }
        }
        Ok(())
    }


    /// Records `caller`'s approval of milestone `index`, as the contract's
    /// release rule allows: the client (except under `ArbiterOnly`), the
    /// arbiter (under `ArbiterOnly` and `ClientAndArbiter`) and the
    /// freelancer (under `MultiSig`).
    pub fn approve(&mut self, caller: AccountId, index: u32) -> (r: Result<(), EscrowError>)
        requires
            old(self).wf(),
        ensures
            r == approve_outcome(old(self)@, caller, index as int),
            r is Ok ==> final(self)@ == after_approve(old(self)@, caller, index as int),
            r is Err ==> final(self)@ == old(self)@,
            final(self).wf(),
    {
        match self.contract.status {
            ContractStatus::Funded => {},
            _ => return Err(EscrowError::InvalidState),
        }
        if index as usize >= self.milestones.len() {
            return Err(EscrowError::IndexOutOfBounds);
        }
        let who = role(&self.contract, caller);
        if !role_may_approve(self.contract.release_authorization, who) {
            return Err(EscrowError::UnauthorizedRole);
        }
        let i = index as usize;
        let a = self.approvals[i];
        let marked = match who {
            Role::Client => Approval { client: true, ..a },
            Role::Freelancer => Approval { freelancer: true, ..a },
            Role::Arbiter => Approval { arbiter: true, ..a },
            Role::Outsider => a,
        };
        self.approvals.set(i, marked);
        Ok(())
    }

    /// Releases milestone `index` to the freelancer once its approvals
    /// satisfy the release rule; any participant may trigger it. Returns
    /// the freelancer's payout and the protocol fee taken at `fee_bps`,
    /// which together make up the milestone amount.
    pub fn release(&mut self, caller: AccountId, index: u32, fee_bps: u32) -> (r: Result<(i128, i128), EscrowError>)
        requires
            old(self).wf(),
            fee_bps <= MAX_FEE_BPS,
        ensures
            r is Ok <==> release_outcome(old(self)@, caller, index as int) is Ok,
            r is Err ==> r == Err::<(i128, i128), EscrowError>(release_outcome(old(self)@, caller, index as int)->Err_0),
            r is Err ==> final(self)@ == old(self)@,
            r matches Ok((payout, fee)) ==> {
                &&& final(self)@ == after_release(old(self)@, index as int)
                &&& protocol_fee(old(self)@.milestones[index as int].amount as int, fee_bps as int) == Some(fee as int)
                &&& payout + fee == old(self)@.milestones[index as int].amount
                &&& 0 <= fee <= payout + fee
            },
            final(self).wf(),
    {
        if !role_may_approve(self.contract.release_authorization, role(&self.contract, caller)) {
            return Err(EscrowError::UnauthorizedRole);
        }
        match self.contract.status {
            ContractStatus::Funded => {},
            _ => return Err(EscrowError::InvalidState),
        }
        let i = index as usize;
        if i >= self.milestones.len() {
            return Err(EscrowError::IndexOutOfBounds);
        }
        if self.milestones[i].released {
            return Err(EscrowError::AlreadyReleased);
        }
        if self.milestones[i].refunded {
            return Err(EscrowError::AlreadyRefunded);
        }
        let a = self.approvals[i];
        let sufficient = match self.contract.release_authorization {
            ReleaseAuthorization::ClientOnly => a.client,
            ReleaseAuthorization::ArbiterOnly => a.arbiter,
            ReleaseAuthorization::ClientAndArbiter => a.client || a.arbiter,
            ReleaseAuthorization::MultiSig => a.client && a.freelancer,
        };
        if !sufficient {
            return Err(EscrowError::InsufficientApprovals);
        }
        let ghost old_view = self@;
        proof {
            lemma_wf_milestone(old_view, i as int);
            lemma_settled_sums(old_view.milestones);
            assert(0 <= old_view.milestones[i as int].amount * fee_bps <= MAX_SINGLE_AMOUNT_STROOPS * 10_000) by (nonlinear_arith)
                requires 0 < old_view.milestones[i as int].amount <= MAX_SINGLE_AMOUNT_STROOPS, 0 <= fee_bps <= 10_000;
            lemma_fee_bounded(old_view.milestones[i as int].amount as int, fee_bps as int);
            lemma_schedule_total_bounds(old_view);
        }
        let amount = self.milestones[i].amount;
        let fee = match calculate_protocol_fee(amount, fee_bps) {
            Ok(f) => f,
            Err(e) => return Err(e),
        };
        let mut m = self.milestones.remove(i);
        m.released = true;
        self.milestones.insert(i, m);
        let done = all_milestones_settled(&self.milestones);
        self.contract.released_amount = self.contract.released_amount + amount;
        if done {
            self.contract.status = ContractStatus::Completed;
        }
        proof {
            let ms2 = old_view.milestones.update(i as int, released_milestone(old_view.milestones[i as int]));
            assert(self@.milestones =~= ms2);
            lemma_sum_update(old_view.milestones, i as int, released_milestone(old_view.milestones[i as int]), Part::Released);
            lemma_sum_update(old_view.milestones, i as int, released_milestone(old_view.milestones[i as int]), Part::Refunded);
            lemma_sum_update(old_view.milestones, i as int, released_milestone(old_view.milestones[i as int]), Part::Amount);
            assert forall|j: int| 0 <= j < ms2.len() implies milestone_wf(#[trigger] ms2[j], fully_funded(self@)) by {
                lemma_wf_milestone(old_view, j);
            }
            lemma_settled_sums(ms2);
            assert(self@ == after_release(old_view, i as int));
        }
        Ok((amount - fee, fee))
    }


    /// Returns the milestones at `indices` to the client, who alone may ask.
    /// The whole request is checked before anything changes; returns the
    /// total refunded.
    pub fn refund(&mut self, caller: AccountId, indices: &[u32]) -> (r: Result<i128, EscrowError>)
        requires
            old(self).wf(),
        ensures
            r is Ok <==> refund_outcome(old(self)@, caller, indices@) is Ok,
            r is Err ==> r == Err::<i128, EscrowError>(refund_outcome(old(self)@, caller, indices@)->Err_0),
            r is Err ==> final(self)@ == old(self)@,
            r matches Ok(total) ==> {
                &&& final(self)@ == after_refund(old(self)@, indices@)
                &&& total == refund_scan(old(self)@.milestones, indices@)->Ok_0
            },
            final(self).wf(),
    {
        if role(&self.contract, caller) != Role::Client {
            return Err(EscrowError::UnauthorizedRole);
        }
        match self.contract.status {
            ContractStatus::Funded => {},
            _ => return Err(EscrowError::InvalidState),
        }
        if indices.len() == 0 {
            return Err(EscrowError::EmptyRefundRequest);
        }
        let ghost v0 = self@;
        let ghost ms0 = self@.milestones;
        proof {
            lemma_schedule_total_bounds(v0);
            lemma_settled_sums(ms0);
        }
        // Check the whole request first.
        let mut total: i128 = 0;
        let mut k: usize = 0;
        while k < indices.len()
            invariant
                self@ == v0,
                v0 == old(self)@,
                role_of(v0.contract, caller) == Role::Client,
                v0.contract.status == ContractStatus::Funded,
                indices@.len() > 0,
                ms0 == self.milestones@,
                ms0 == v0.milestones,
                view_wf(v0),
                amount_sum(ms0) <= MAX_MAX_MILESTONES * MAX_SINGLE_AMOUNT_STROOPS,
                k <= indices.len(),
                refund_scan(ms0, indices@.take(k as int)) == Ok::<int, EscrowError>(total as int),
                0 <= total <= refunded_sum_bound(ms0, indices@.take(k as int)),
                refunded_sum_bound(ms0, indices@.take(k as int)) <= amount_sum(ms0) - released_sum(ms0) - refunded_sum(ms0),
            decreases indices.len() - k,
        {
            let j = indices[k];
            let ghost pre = indices@.take(k as int);
            proof {
                assert(indices@.take(k + 1).drop_last() =~= pre);
                assert(indices@.take(k + 1).last() == j);
            }
            if j as usize >= self.milestones.len() {
                proof {
                    let t1 = indices@.take(k + 1);
                    assert(t1.drop_last() == pre);
                    assert(refund_scan(ms0, pre) is Ok);
                    assert(t1.last() as int >= ms0.len());
                    assert(refund_scan(ms0, t1) == Err::<int, EscrowError>(EscrowError::IndexOutOfBounds));
                    lemma_refund_prefix_error(ms0, indices@, k + 1);
                }
                return Err(EscrowError::IndexOutOfBounds);
            }
            let mut dup = false;
            let mut q: usize = 0;
            while q < k
                invariant
                    q <= k,
                    k < indices.len(),
                    pre == indices@.take(k as int),
                    dup == exists|p: int| 0 <= p < q && #[trigger] pre[p] == j,
                decreases k - q,
            {
                assert(pre[q as int] == indices@[q as int]);
                if indices[q] == j {
                    dup = true;
                }
                q = q + 1;
            }
            if dup {
                proof {
                    let p = choose|p: int| 0 <= p < k && #[trigger] pre[p] == j;
                    assert(pre.contains(j));
                    lemma_refund_prefix_error(ms0, indices@, k + 1);
                }
                return Err(EscrowError::DuplicateMilestoneInRefund);
            }
            proof {
                if pre.contains(j) {
                    let p = choose|p: int| 0 <= p < pre.len() && pre[p] == j;
                    assert(pre[p] == j);
                }
            }
            if self.milestones[j as usize].released {
                proof { lemma_refund_prefix_error(ms0, indices@, k + 1); }
                return Err(EscrowError::AlreadyReleased);
            }
            if self.milestones[j as usize].refunded {
                proof { lemma_refund_prefix_error(ms0, indices@, k + 1); }
                return Err(EscrowError::AlreadyRefunded);
            }
            proof {
                lemma_refund_bound_step(ms0, indices@.take(k + 1));
                lemma_wf_milestone(v0, j as int);
            }
            total = total + self.milestones[j as usize].amount;
            k = k + 1;
        }
        proof {
            assert(indices@.take(indices@.len() as int) =~= indices@);
            lemma_refund_scan_ok(ms0, indices@);
        }
        // Apply it.
        let mut k: usize = 0;
        while k < indices.len()
            invariant
                k <= indices.len(),
                refund_scan(ms0, indices@) is Ok,
                forall|p: int| 0 <= p <= indices@.len() ==> (#[trigger] refund_scan(ms0, indices@.take(p))) is Ok,
                forall|p: int| 0 <= p < indices@.len() ==> (#[trigger] indices@[p]) < ms0.len()
                    && !ms0[indices@[p] as int].released && !ms0[indices@[p] as int].refunded,
                forall|p1: int, p2: int| 0 <= p1 < p2 < indices@.len() ==> indices@[p1] != indices@[p2],
                ms0.len() <= MAX_MAX_MILESTONES,
                self.milestones@ == refund_schedule(ms0, indices@.take(k as int)),
                refunded_sum(self.milestones@) == refunded_sum(ms0) + refund_scan(ms0, indices@.take(k as int))->Ok_0,
                released_sum(self.milestones@) == released_sum(ms0),
                amount_sum(self.milestones@) == amount_sum(ms0),
                self.contract == v0.contract,
                self.approvals@ == v0.approvals,
                self.evidence_hashes@ == v0.evidence_hashes,
            decreases indices.len() - k,
        {
            let j = indices[k] as usize;
            let ghost cur = self.milestones@;
            let ghost newm = refunded_milestone(cur[j as int]);
            proof {
                assert(indices@.take(k + 1).drop_last() =~= indices@.take(k as int));
                assert(refund_scan(ms0, indices@.take(k + 1)) is Ok);
                assert(!names(indices@.take(k as int), j as int)) by {
                    if names(indices@.take(k as int), j as int) {
                        let p = choose|p: int| 0 <= p < k && indices@.take(k as int)[p] as int == j as int;
                        assert(indices@.take(k as int)[p] == indices@[p]);
                        assert(indices@[p] == indices@[k as int]);
                    }
                }
                assert(cur[j as int] == ms0[j as int]);
                lemma_sum_update(cur, j as int, newm, Part::Refunded);
                lemma_sum_update(cur, j as int, newm, Part::Released);
                lemma_sum_update(cur, j as int, newm, Part::Amount);
            }
            let mut m = self.milestones.remove(j);
            m.refunded = true;
            m.refunded_amount = m.amount;
            self.milestones.insert(j, m);
            proof {
                assert(self.milestones@ =~= cur.update(j as int, newm));
                let t1 = indices@.take(k + 1);
                let t0 = indices@.take(k as int);
                assert forall|i: int| 0 <= i < ms0.len() implies
                    names(t1, i) == (names(t0, i) || i == j as int) by {
                    if names(t1, i) {
                        let p = choose|p: int| 0 <= p < t1.len() && #[trigger] t1[p] as int == i;
                        if p < k {
                            assert(t0[p] == t1[p]);
                        }
                    }
                    if names(t0, i) {
                        let p = choose|p: int| 0 <= p < t0.len() && #[trigger] t0[p] as int == i;
                        assert(t0[p] == t1[p]);
                    }
                    if i == j as int {
                        assert(t1[k as int] == indices@[k as int]);
                    }
                }
                assert(self.milestones@ =~= refund_schedule(ms0, indices@.take(k + 1)));
            }
            k = k + 1;
        }
        let done = all_milestones_settled(&self.milestones);
        let any = any_milestone_released(&self.milestones);
        self.contract.refunded_amount = self.contract.refunded_amount + total;
        if done {
            if any {
                self.contract.status = ContractStatus::Completed;
            } else {
                self.contract.status = ContractStatus::Refunded;
            }
        }
        proof {
            assert(indices@.take(indices@.len() as int) =~= indices@);
            let ms1 = self@.milestones;
            assert forall|i: int| 0 <= i < ms1.len() implies milestone_wf(#[trigger] ms1[i], fully_funded(self@)) by {
                lemma_wf_milestone(v0, i);
            }
            lemma_settled_sums(ms1);
            assert(self@ == after_refund(v0, indices@));
        }
        Ok(total)
    }


    /// Opens a dispute; the client or the freelancer may do so while the
    /// contract is funded or partly funded and has an arbiter.
    pub fn raise_dispute(&mut self, caller: AccountId) -> (r: Result<(), EscrowError>)
        requires
            old(self).wf(),
        ensures
            r == raise_dispute_outcome(old(self)@, caller),
            r is Ok ==> final(self)@ == (EscrowView {
                contract: Contract { status: ContractStatus::Disputed, ..old(self)@.contract },
                ..old(self)@
            }),
            r is Err ==> final(self)@ == old(self)@,
            final(self).wf(),
    {
        let who = role(&self.contract, caller);
        if who != Role::Client && who != Role::Freelancer {
            return Err(EscrowError::UnauthorizedRole);
        }
        match self.contract.status {
            ContractStatus::Funded => {},
            ContractStatus::PartiallyFunded => {},
            _ => return Err(EscrowError::InvalidState),
        }
        if self.contract.arbiter.is_none() {
            return Err(EscrowError::MissingArbiter);
        }
        proof { lemma_schedule_total_bounds(self@); }
        self.contract.status = ContractStatus::Disputed;
        Ok(())
    }

    /// Settles a dispute; only the arbiter may. Applies the resolution's
    /// shares to the counters and returns them as `(client, freelancer)`.
    pub fn resolve_dispute(&mut self, caller: AccountId, resolution: DisputeResolution) -> (r: Result<(i128, i128), EscrowError>)
        requires
            old(self).wf(),
        ensures
            match resolve_dispute_outcome(old(self)@, caller, resolution) {
                Err(e) => r == Err::<(i128, i128), EscrowError>(e) && final(self)@ == old(self)@,
                Ok((a, b)) => r is Ok && r->Ok_0.0 == a && r->Ok_0.1 == b
                    && final(self)@ == after_resolve(old(self)@, a, b),
            },
            final(self).wf(),
    {
        match self.contract.status {
            ContractStatus::Disputed => {},
            _ => return Err(EscrowError::InvalidState),
        }
        if role(&self.contract, caller) != Role::Arbiter {
            return Err(EscrowError::UnauthorizedRole);
        }
        let (to_client, to_freelancer) = resolution_payouts(&self.contract, &resolution)?;
        proof { lemma_payouts_conserve(self@.contract, resolution); }
        self.contract.refunded_amount = self.contract.refunded_amount + to_client;
        self.contract.released_amount = self.contract.released_amount + to_freelancer;
        if to_freelancer == 0 {
            self.contract.status = ContractStatus::Refunded;
        } else {
            self.contract.status = ContractStatus::Completed;
        }
        Ok((to_client, to_freelancer))
    }

    /// Cancels a contract on which nothing has been settled yet; only the
    /// client may. Everything deposited is returned to the client; returns
    /// that amount.
    pub fn cancel(&mut self, caller: AccountId) -> (r: Result<i128, EscrowError>)
        requires
            old(self).wf(),
        ensures
            r is Ok <==> cancel_outcome(old(self)@, caller) is Ok,
            r is Err ==> r == Err::<i128, EscrowError>(cancel_outcome(old(self)@, caller)->Err_0)
                && final(self)@ == old(self)@,
            r is Ok ==> r == Ok::<i128, EscrowError>(old(self)@.contract.total_deposited)
                && final(self)@ == after_cancel(old(self)@),
            final(self).wf(),
    {
        if role(&self.contract, caller) != Role::Client {
            return Err(EscrowError::UnauthorizedRole);
        }
        match self.contract.status {
            ContractStatus::Created => {},
            ContractStatus::PartiallyFunded => {},
            ContractStatus::Funded => {},
            _ => return Err(EscrowError::InvalidState),
        }
        if self.contract.released_amount != 0 || self.contract.refunded_amount != 0 {
            return Err(EscrowError::InvalidState);
        }
        let returned = self.contract.total_deposited;
        self.contract.refunded_amount = returned;
        self.contract.status = ContractStatus::Cancelled;
        Ok(returned)
    }

    /// Attaches the freelancer's proof of work to a pending milestone of a
    /// funded contract; at most `MAX_WORK_EVIDENCE_BYTES` bytes.
    pub fn submit_work_evidence(&mut self, caller: AccountId, index: u32, evidence: Vec<u8>) -> (r: Result<(), EscrowError>)
        requires
            old(self).wf(),
        ensures
            r == evidence_outcome(old(self)@, caller, index as int, evidence@.len() as int),
            r is Ok ==> final(self)@ == (EscrowView {
                milestones: old(self)@.milestones.update(index as int,
                    Milestone { work_evidence: Some(evidence), ..old(self)@.milestones[index as int] }),
                ..old(self)@
            }),
            r is Err ==> final(self)@ == old(self)@,
            final(self).wf(),
    {
        if role(&self.contract, caller) != Role::Freelancer {
            return Err(EscrowError::UnauthorizedRole);
        }
        match self.contract.status {
            ContractStatus::Funded => {},
            _ => return Err(EscrowError::InvalidState),
        }
        let i = index as usize;
        if i >= self.milestones.len() {
            return Err(EscrowError::IndexOutOfBounds);
        }
        if self.milestones[i].released {
            return Err(EscrowError::AlreadyReleased);
        }
        if self.milestones[i].refunded {
            return Err(EscrowError::AlreadyRefunded);
        }
        if evidence.len() > MAX_WORK_EVIDENCE_BYTES {
            return Err(EscrowError::EvidenceTooLong);
        }
        let ghost old_view = self@;
        let ghost ev = evidence;
        let mut m = self.milestones.remove(i);
        m.work_evidence = Some(evidence);
        self.milestones.insert(i, m);
        proof {
            let newm = Milestone { work_evidence: Some(ev), ..old_view.milestones[i as int] };
            assert(self@.milestones =~= old_view.milestones.update(i as int, newm));
            lemma_sum_update(old_view.milestones, i as int, newm, Part::Released);
            lemma_sum_update(old_view.milestones, i as int, newm, Part::Refunded);
            lemma_sum_update(old_view.milestones, i as int, newm, Part::Amount);
            assert forall|j: int| 0 <= j < self@.milestones.len()
                implies milestone_wf(#[trigger] self@.milestones[j], fully_funded(self@)) by {
                lemma_wf_milestone(old_view, j);
            }
            assert(!all_settled(self@.milestones)) by {
                assert(!self@.milestones[i as int].released && !self@.milestones[i as int].refunded);
            }
        }
        Ok(())
    }

    /// Records that the client rated the freelancer for a completed
    /// contract, once per contract: the rating and the non-empty comment must
    /// follow the rules `cfg`.
    pub fn issue_reputation(&mut self, caller: AccountId, rating: u32, comment: &[u8], cfg: ReputationConfig) -> (r: Result<(), EscrowError>)
        requires
            old(self).wf(),
        ensures
            r == reputation_outcome(old(self)@, caller, rating as int, comment@.len() as int, cfg),
            r is Ok ==> final(self)@ == (EscrowView {
                contract: Contract { reputation_issued: true, ..old(self)@.contract },
                ..old(self)@
            }),
            r is Err ==> final(self)@ == old(self)@,
            final(self).wf(),
    {
        if role(&self.contract, caller) != Role::Client {
            return Err(EscrowError::UnauthorizedRole);
        }
        match self.contract.status {
            ContractStatus::Completed => {},
            _ => return Err(EscrowError::NotCompleted),
        }
        if self.contract.reputation_issued {
            return Err(EscrowError::ReputationAlreadyIssued);
        }
        if rating < cfg.min_rating || rating > cfg.max_rating {
            return Err(EscrowError::InvalidRating);
        }
        if comment.len() == 0 {
            return Err(EscrowError::EmptyComment);
        }
        if comment.len() > cfg.max_comment_bytes as usize {
            return Err(EscrowError::CommentTooLong);
        }
        self.contract.reputation_issued = true;
        Ok(())
    }

    /// Records the hash of the evidence for milestone `index` (see
    /// `evidence_hash_outcome`); a recorded hash never changes.
    pub fn set_evidence_hash(&mut self, caller: AccountId, index: u32, hash: [u8; 32]) -> (r: Result<(), EscrowError>)
        requires
            old(self).wf(),
        ensures
            r == evidence_hash_outcome(old(self)@, caller, index as int),
            r is Ok ==> final(self)@ == (EscrowView {
                evidence_hashes: old(self)@.evidence_hashes.update(index as int, Some(hash)),
                ..old(self)@
            }),
            r is Err ==> final(self)@ == old(self)@,
            final(self).wf(),
    {
        let who = role(&self.contract, caller);
        match who {
            Role::Client => {},
            Role::Freelancer => {},
            _ => return Err(EscrowError::UnauthorizedRole),
        }
        if index as usize >= self.milestones.len() {
            return Err(EscrowError::IndexOutOfBounds);
        }
        if self.evidence_hashes[index as usize].is_some() {
            return Err(EscrowError::EvidenceHashAlreadySet);
        }
        self.evidence_hashes.set(index as usize, Some(hash));
        Ok(())
    }

    /// The evidence hash recorded for milestone `index`, if any.
    pub fn evidence_hash(&self, index: u32) -> (h: Option<[u8; 32]>)
        requires
            self.wf(),
        ensures
            index < self@.milestones.len() ==> h == self@.evidence_hashes[index as int],
            index >= self@.milestones.len() ==> h is None,
    {
        if index as usize >= self.evidence_hashes.len() {
            return None;
        }
        self.evidence_hashes[index as usize]
    }

    /// How many milestones are released, out of how many.
    pub fn progress(&self) -> (p: MilestoneProgress)
        requires
            self.wf(),
        ensures
            p.completed == released_count(self@.milestones),
            p.total == self@.milestones.len(),
    {
        let ghost ms = self@.milestones;
        let mut done: u32 = 0;
        let mut i: usize = 0;
        while i < self.milestones.len()
            invariant
                ms == self.milestones@,
                i <= ms.len(),
                ms.len() <= MAX_MAX_MILESTONES,
                done == released_count(ms.take(i as int)),
                done <= i,
            decreases ms.len() - i,
        {
            assert(ms.take(i + 1).drop_last() =~= ms.take(i as int));
            if self.milestones[i].released {
                done = done + 1;
            }
            i = i + 1;
        }
        assert(ms.take(ms.len() as int) =~= ms);
        MilestoneProgress { completed: done, total: self.milestones.len() as u32 }
    }

    /// One page of the milestone listing: the milestones from `start` on,
    /// at most `limit` of them and never more than `MAX_PAGE_SIZE`.
    pub fn milestones_page(&self, start: u32, limit: u32) -> (page: Vec<MilestoneEntry>)
        requires
            self.wf(),
        ensures
            page@.len() == page_len(self@.milestones.len() as int, start as int, limit as int),
            forall|k: int| 0 <= k < page@.len() ==> {
                let i = start + k;
                &&& (#[trigger] page@[k]).index == i
                &&& page@[k].amount == self@.milestones[i].amount
                &&& page@[k].status == entry_status(self@.milestones[i])
            },
    {
        let ghost ms = self@.milestones;
        let len = self.milestones.len();
        let cap = if limit < MAX_PAGE_SIZE { limit as usize } else { MAX_PAGE_SIZE as usize };
        let mut page: Vec<MilestoneEntry> = Vec::new();
        if start as usize >= len {
            return page;
        }
        let s = start as usize;
        let end = if len - s < cap { len } else { s + cap };
        let mut i = s;
        while i < end
            invariant
                ms == self.milestones@,
                s <= i <= end <= ms.len(),
                ms.len() <= MAX_MAX_MILESTONES,
                s == start,
                page@.len() == i - s,
                forall|k: int| 0 <= k < page@.len() ==> {
                    let j = start + k;
                    &&& (#[trigger] page@[k]).index == j
                    &&& page@[k].amount == ms[j].amount
                    &&& page@[k].status == entry_status(ms[j])
                },
            decreases end - i,
        {
            let m = &self.milestones[i];
            let status: u32 = if m.released { 1 } else if m.refunded { 2 } else { 0 };
            page.push(MilestoneEntry { index: i as u32, amount: m.amount, status });
            i = i + 1;
        }
        page
    }

    /// Opens a contract between `client` and `freelancer`, optionally with
    /// an `arbiter`, for the given milestone amounts, refusing a schedule
    /// whose total exceeds `max_total` or that has more than
    /// `max_milestones` milestones. The new contract awaits its deposit.
    pub fn create(
        client: AccountId,
        freelancer: AccountId,
        arbiter: Option<AccountId>,
        amounts: &[i128],
        auth: ReleaseAuthorization,
        max_total: i128,
        max_milestones: u32,
    ) -> (r: Result<EscrowRecord, EscrowError>)
        requires
            max_milestones <= MAX_MAX_MILESTONES,
        ensures
            r is Err <==> create_outcome(client, freelancer, arbiter, amounts@, auth, max_total as int, max_milestones as int) is Err,
            r is Err ==> r == Err::<EscrowRecord, EscrowError>(
                create_outcome(client, freelancer, arbiter, amounts@, auth, max_total as int, max_milestones as int)->Err_0),
            r matches Ok(rec) ==> {
                &&& rec@ == created_view(client, freelancer, arbiter, amounts@, auth)
                &&& rec.wf()
                &&& amount_sum(rec@.milestones) == amounts_check(amounts@)->Ok_0
            },
    {
        if client == freelancer {
            return Err(EscrowError::InvalidParticipant);
        }
        if let Some(a) = arbiter {
            if a == client || a == freelancer {
                return Err(EscrowError::InvalidArbiter);
            }
        }
        let arbiter_needed = match auth {
            ReleaseAuthorization::ArbiterOnly => true,
            ReleaseAuthorization::ClientAndArbiter => true,
            _ => false,
        };
        if arbiter_needed && arbiter.is_none() {
            return Err(EscrowError::MissingArbiter);
        }
        if amounts.len() == 0 {
            return Err(EscrowError::EmptyMilestones);
        }
        if amounts.len() > max_milestones as usize {
            return Err(EscrowError::TooManyMilestones);
        }
        let total = match accumulate_amounts(amounts) {
            Ok(t) => t,
            Err(_) => return Err(EscrowError::InvalidMilestoneAmount),
        };
        if total > max_total {
            return Err(EscrowError::TotalCapExceeded);
        }
        proof {
            lemma_amounts_check_bounds(amounts@);
        }
        let mut milestones: Vec<Milestone> = Vec::new();
        let mut approvals: Vec<Approval> = Vec::new();
        let mut hashes: Vec<Option<[u8; 32]>> = Vec::new();
        let mut i: usize = 0;
        while i < amounts.len()
            invariant
                i <= amounts.len(),
                hashes@ == Seq::new(i as nat, |k: int| None::<[u8; 32]>),
                amounts.len() <= MAX_MAX_MILESTONES,
                forall|j: int| 0 <= j < amounts.len() ==> 0 < #[trigger] amounts@[j] <= MAX_SINGLE_AMOUNT_STROOPS,
                amounts_check(amounts@) == Ok::<int, EscrowError>(total as int),
                milestones@ == amounts@.take(i as int).map_values(|a: i128| fresh_milestone(a)),
                approvals@ == Seq::new(i as nat, |k: int| no_approval()),
                amount_sum(milestones@) == amounts_check(amounts@.take(i as int))->Ok_0,
                amounts_check(amounts@.take(i as int)) is Ok,
                released_sum(milestones@) == 0,
                refunded_sum(milestones@) == 0,
            decreases amounts.len() - i,
        {
            let a = amounts[i];
            let ghost before = milestones@;
            proof {
                assert(amounts@.take(i + 1).drop_last() =~= amounts@.take(i as int));
                lemma_amounts_check_all_valid(amounts@.take(i + 1));
                assert(amounts@.take(i + 1)[i as int] == a);
            }
            milestones.push(Milestone {
                amount: a,
                funded_amount: 0,
                released: false,
                refunded: false,
                work_evidence: None,
                refunded_amount: 0,
                deadline: None,
            });
            approvals.push(Approval { client: false, freelancer: false, arbiter: false });
            hashes.push(None);
            proof {
                assert(hashes@ =~= Seq::new((i + 1) as nat, |k: int| None::<[u8; 32]>));
                assert(milestones@.drop_last() =~= before);
                assert(milestones@ =~= amounts@.take(i + 1).map_values(|a: i128| fresh_milestone(a)));
                assert(approvals@ =~= Seq::new((i + 1) as nat, |k: int| no_approval()));
            }
            i = i + 1;
        }
        assert(amounts@.take(amounts.len() as int) =~= amounts@);
        let rec = EscrowRecord {
            contract: Contract {
                client,
                freelancer,
                arbiter,
                status: ContractStatus::Created,
                total_deposited: 0,
                funded_amount: 0,
                released_amount: 0,
                refunded_amount: 0,
                release_authorization: auth,
                reputation_issued: false,
            },
            milestones,
            approvals,
            evidence_hashes: hashes,
        };
        proof {
            assert(rec@.milestones =~= created_view(client, freelancer, arbiter, amounts@, auth).milestones);
            assert(rec@.approvals =~= created_view(client, freelancer, arbiter, amounts@, auth).approvals);
            assert(rec@.evidence_hashes =~= created_view(client, freelancer, arbiter, amounts@, auth).evidence_hashes);
            lemma_amounts_check_bounds(amounts@);
            assert forall|j: int| 0 <= j < rec@.milestones.len() implies #[trigger] rec@.milestones[j] == fresh_milestone(rec@.milestones[j].amount) by {}
        }
        Ok(rec)
    }
}

} // verus!
