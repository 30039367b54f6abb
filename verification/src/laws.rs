//! Properties of the escrow that span several operations or every state.

use vstd::prelude::*;
use crate::errors::EscrowError;
use crate::amounts::MAX_SINGLE_AMOUNT_STROOPS;
use crate::fees::{protocol_fee, lemma_fee_bounded, MAX_FEE_BPS};
use crate::escrow::{
    evidence_hash_outcome,
    may_approve, role_of, approvals_sufficient, Role,
    reputation_outcome,
    view_wf, available, fully_funded, deposit_outcome, after_deposit, release_outcome, after_release,
    refund_outcome, after_refund, refund_scan, names, lemma_refund_scan_ok, lemma_wf_milestone,
    approve_outcome, after_approve, raise_dispute_outcome, resolve_dispute_outcome, after_resolve, cancel_outcome,
    after_cancel, evidence_outcome, page_len, MAX_PAGE_SIZE, EscrowView, lemma_schedule_total_bounds, lemma_refund_bound_step,
};
use crate::disputes::{payouts_spec, lemma_payouts_conserve};
use crate::ledger::{amount_sum, lemma_settled_sums};
use crate::platform::{
    platform_wf, gate, money_gate, id_gate, page_of, fee_room, withdraw_outcome, PlatformView, decided_by_other, has_contract, record_of, with_record,
    rated_count, pending_count, reputation_count, reputation_of, lemma_rated_count_update, lemma_pending_count_update,
    lemma_rated_count_bound,
};
use crate::reputation::{after_rating, Reputation, ReputationConfig};
use crate::governance::{
    accept_admin_outcome, recover_admin_outcome, apply_outcome, decide_outcome, GovernanceProposalState, PendingAdmin,
    ADMIN_ROTATION_MIN_DELAY_LEDGERS, ADMIN_ROTATION_PROPOSAL_TTL_LEDGERS,
};
use crate::types::Contract;
use crate::transitions::{state_of, transition_allowed, version_in};
use crate::types::{overdue, is_terminal, AccountId, ContractStatus, DisputeResolution, Milestone, ReleaseAuthorization};

verus! {

/// Conservation: in every well-formed contract, what was deposited equals
/// what was released plus what was refunded plus what is still held; the
/// amount held is never negative, deposits never exceed the schedule, and
/// the two deposit counters agree.
pub proof fn law_conservation(v: EscrowView)
    requires
        view_wf(v),
    ensures
        v.contract.total_deposited == v.contract.released_amount + v.contract.refunded_amount + available(v.contract),
        available(v.contract) >= 0,
        v.contract.total_deposited <= amount_sum(v.milestones),
        v.contract.funded_amount == v.contract.total_deposited,
{
}

/// A contract that has ended (completed, refunded or cancelled) holds
/// nothing: every deposited stroop was either released or refunded.
pub proof fn law_terminal_fully_settled(v: EscrowView)
    requires
        view_wf(v),
        is_terminal(v.contract.status),
    ensures
        v.contract.released_amount + v.contract.refunded_amount == v.contract.total_deposited,
        available(v.contract) == 0,
{
}

/// Replay protection: once a contract has ended, every operation that
/// moves money or changes milestones is refused, whoever asks and whatever
/// the arguments.
pub proof fn law_terminal_rejects_changes(
    v: EscrowView,
    caller: AccountId,
    amount: int,
    index: int,
    idx: Seq<u32>,
    res: DisputeResolution,
    evidence_len: int,
)
    requires
        view_wf(v),
        is_terminal(v.contract.status),
    ensures
        deposit_outcome(v, caller, amount) is Err,
        approve_outcome(v, caller, index) is Err,
        release_outcome(v, caller, index) is Err,
        refund_outcome(v, caller, idx) is Err,
        raise_dispute_outcome(v, caller) is Err,
        resolve_dispute_outcome(v, caller, res) is Err,
        cancel_outcome(v, caller) is Err,
        evidence_outcome(v, caller, index, evidence_len) is Err,
{
}

/// A release respects the milestone status matrix: every milestone either
/// keeps its state or leaves `Pending`, so released and refunded
/// milestones stay as they are. The released counter grows by exactly the
/// milestone amount and nothing else moves.
pub proof fn law_release_respects_matrix(v: EscrowView, caller: AccountId, index: u32)
    requires
        view_wf(v),
        release_outcome(v, caller, index as int) is Ok,
    ensures
        ({
            let w = after_release(v, index as int);
            &&& forall|j: int| 0 <= j < v.milestones.len() ==>
                state_of(#[trigger] w.milestones[j]) is Ok
                && transition_allowed(state_of(v.milestones[j])->Ok_0, state_of(w.milestones[j])->Ok_0)
            &&& w.contract.released_amount == v.contract.released_amount + v.milestones[index as int].amount
            &&& w.contract.refunded_amount == v.contract.refunded_amount
            &&& w.contract.total_deposited == v.contract.total_deposited
            &&& w.milestones[index as int].released
        }),
{
    let w = after_release(v, index as int);
    lemma_schedule_total_bounds(v);
    lemma_settled_sums(v.milestones);
    lemma_wf_milestone(v, index as int);
    assert forall|j: int| 0 <= j < v.milestones.len() implies
        state_of(#[trigger] w.milestones[j]) is Ok
        && transition_allowed(state_of(v.milestones[j])->Ok_0, state_of(w.milestones[j])->Ok_0) by {
        lemma_wf_milestone(v, j);
    }
}

/// A refund respects the milestone status matrix in the same way, and the
/// refunded counter grows by exactly the sum of the named amounts.
pub proof fn law_refund_respects_matrix(v: EscrowView, caller: AccountId, idx: Seq<u32>)
    requires
        view_wf(v),
        refund_outcome(v, caller, idx) is Ok,
    ensures
        ({
            let w = after_refund(v, idx);
            &&& forall|j: int| 0 <= j < v.milestones.len() ==>
                state_of(#[trigger] w.milestones[j]) is Ok
                && transition_allowed(state_of(v.milestones[j])->Ok_0, state_of(w.milestones[j])->Ok_0)
            &&& w.contract.refunded_amount == v.contract.refunded_amount + refund_scan(v.milestones, idx)->Ok_0
            &&& w.contract.released_amount == v.contract.released_amount
            &&& w.contract.total_deposited == v.contract.total_deposited
            &&& forall|k: int| 0 <= k < idx.len() ==> w.milestones[#[trigger] idx[k] as int].refunded
        }),
{
    let w = after_refund(v, idx);
    lemma_refund_scan_ok(v.milestones, idx);
    lemma_schedule_total_bounds(v);
    lemma_settled_sums(v.milestones);
    lemma_refund_bound_step(v.milestones, idx);
    assert forall|j: int| 0 <= j < v.milestones.len() implies
        state_of(#[trigger] w.milestones[j]) is Ok
        && transition_allowed(state_of(v.milestones[j])->Ok_0, state_of(w.milestones[j])->Ok_0) by {
        lemma_wf_milestone(v, j);
        if names(idx, j) {
            let k = choose|k: int| 0 <= k < idx.len() && idx[k] as int == j;
            assert(idx[k] < v.milestones.len() && !v.milestones[idx[k] as int].released);
        }
    }
    assert forall|k: int| 0 <= k < idx.len() implies w.milestones[#[trigger] idx[k] as int].refunded by {
        assert(idx[k] < v.milestones.len());
        assert(names(idx, idx[k] as int));
    }
}

/// No milestone is paid twice: once released it can neither be released
/// again nor refunded, whoever asks.
pub proof fn law_release_is_final(v: EscrowView, caller: AccountId, index: u32, other: AccountId)
    requires
        view_wf(v),
        release_outcome(v, caller, index as int) is Ok,
    ensures
        release_outcome(after_release(v, index as int), other, index as int) is Err,
        refund_outcome(after_release(v, index as int), other, seq![index]) is Err,
{
    let w = after_release(v, index as int);
    assert(seq![index].drop_last() =~= Seq::<u32>::empty());
    assert(refund_scan(w.milestones, Seq::<u32>::empty()) == Ok::<int, EscrowError>(0));
}

/// No milestone is refunded twice or released after a refund.
pub proof fn law_refund_is_final(v: EscrowView, caller: AccountId, idx: Seq<u32>, k: int, other: AccountId)
    requires
        view_wf(v),
        refund_outcome(v, caller, idx) is Ok,
        0 <= k < idx.len(),
    ensures
        release_outcome(after_refund(v, idx), other, idx[k] as int) is Err,
        refund_outcome(after_refund(v, idx), other, seq![idx[k]]) is Err,
{
    law_refund_respects_matrix(v, caller, idx);
    lemma_refund_scan_ok(v.milestones, idx);
    let w = after_refund(v, idx);
    assert(w.milestones[idx[k] as int].refunded);
    lemma_wf_milestone(v, idx[k] as int);
    assert(seq![idx[k]].drop_last() =~= Seq::<u32>::empty());
    assert(refund_scan(w.milestones, Seq::<u32>::empty()) == Ok::<int, EscrowError>(0));
}

/// Deposits only ever add: after an accepted deposit the counters grew by
/// exactly the amount, stayed within the schedule, and the contract is
/// funded exactly when the schedule is covered.
pub proof fn law_deposit_accumulates(v: EscrowView, caller: AccountId, amount: int)
    requires
        view_wf(v),
        deposit_outcome(v, caller, amount) is Ok,
    ensures
        ({
            let w = after_deposit(v, amount);
            &&& w.contract.total_deposited == v.contract.total_deposited + amount
            &&& w.contract.total_deposited <= amount_sum(v.milestones)
            &&& (w.contract.status == ContractStatus::Funded) == (w.contract.total_deposited == amount_sum(v.milestones))
            &&& w.contract.released_amount == 0 && w.contract.refunded_amount == 0
        }),
{
    lemma_schedule_total_bounds(v);
}

/// A dispute resolution closes the contract with every deposited stroop
/// accounted for: the shares add up to what was held, and afterwards
/// released plus refunded equals what was deposited.
pub proof fn law_resolution_settles_everything(v: EscrowView, caller: AccountId, res: DisputeResolution)
    requires
        view_wf(v),
        resolve_dispute_outcome(v, caller, res) is Ok,
    ensures
        ({
            let (a, b) = resolve_dispute_outcome(v, caller, res)->Ok_0;
            let w = after_resolve(v, a, b);
            &&& a >= 0 && b >= 0
            &&& a + b == available(v.contract)
            &&& w.contract.released_amount + w.contract.refunded_amount == w.contract.total_deposited
            &&& is_terminal(w.contract.status)
        }),
{
    lemma_payouts_conserve(v.contract, res);
}

/// A cancellation returns exactly what was deposited and ends the contract.
pub proof fn law_cancel_returns_deposits(v: EscrowView, caller: AccountId)
    requires
        view_wf(v),
        cancel_outcome(v, caller) is Ok,
    ensures
        after_cancel(v).contract.refunded_amount == v.contract.total_deposited,
        after_cancel(v).contract.released_amount == 0,
        available(after_cancel(v).contract) == 0,
        is_terminal(after_cancel(v).contract.status),
{
}

/// While the platform is paused, and in particular during an emergency,
/// every contract operation and every fee withdrawal is refused with
/// `ContractPaused`, whoever asks.
pub proof fn law_paused_blocks_operations(p: PlatformView, id: u32, caller: AccountId, amount: int, ledger: u32)
    requires
        platform_wf(p),
        p.paused || p.emergency,
    ensures
        gate(p, id) == Err::<(), EscrowError>(EscrowError::ContractPaused),
        money_gate(p, id) == Err::<(), EscrowError>(EscrowError::ContractPaused),
        id_gate(p, id) == Err::<(), EscrowError>(EscrowError::ContractPaused),
        withdraw_outcome(p, caller, amount, ledger) == Err::<(), EscrowError>(EscrowError::ContractPaused),
{
}

/// After a change is recorded, the version read before it is stale and the
/// new version is one more.
pub proof fn law_version_advances(log: Map<(u32, u32), (u32, AccountId)>, contract_id: u32, index: u32, actor: AccountId)
    requires
        version_in(log, contract_id, index) < u32::MAX,
    ensures
        ({
            let next = (version_in(log, contract_id, index) + 1) as u32;
            let after = log.insert((contract_id, index), (next, actor));
            &&& version_in(after, contract_id, index) == next
            &&& version_in(after, contract_id, index) != version_in(log, contract_id, index)
        }),
{
}

/// Every freelancer's record counts exactly the contracts whose client
/// rated them; a freelancer never rated has no record.
pub proof fn law_reputation_counts_rated_contracts(p: PlatformView, f: AccountId)
    requires
        platform_wf(p),
    ensures
        reputation_count(p.reputations, f) == rated_count(p.records, f),
        !p.reputations.contains_key(f) ==> rated_count(p.records, f) == 0,
{
}

/// Rating a completed contract turns one of its freelancer's pending
/// credits into one more rating on their record, and touches no other
/// freelancer's credits or record.
pub proof fn law_rating_moves_one_credit(
    p: PlatformView,
    id: u32,
    caller: AccountId,
    rating: u32,
    comment: Seq<u8>,
    g: AccountId,
)
    requires
        platform_wf(p),
        id_gate(p, id) is Ok,
        reputation_outcome(record_of(p, id), caller, rating as int, comment.len() as int, p.reputation_config) is Ok,
    ensures
        ({
            let v = record_of(p, id);
            let f = v.contract.freelancer;
            let q = PlatformView {
                reputations: p.reputations.insert(f, after_rating(reputation_of(p.reputations, f), rating)),
                comments: p.comments.insert(id, comment),
                ..with_record(p, id, EscrowView { contract: Contract { reputation_issued: true, ..v.contract }, ..v })
            };
            &&& pending_count(q.records, f) + 1 == pending_count(p.records, f)
            &&& reputation_count(q.reputations, f) == reputation_count(p.reputations, f) + 1
            &&& g != f ==> pending_count(q.records, g) == pending_count(p.records, g)
            &&& g != f ==> reputation_count(q.reputations, g) == reputation_count(p.reputations, g)
        }),
{
    let v = record_of(p, id);
    let f = v.contract.freelancer;
    let nv = EscrowView { contract: Contract { reputation_issued: true, ..v.contract }, ..v };
    let i = id - 1;
    lemma_pending_count_update(p.records, i, nv, f);
    lemma_pending_count_update(p.records, i, nv, g);
    lemma_rated_count_update(p.records, i, nv, f);
    lemma_rated_count_bound(p.records.update(i, nv), f);
    assert(rated_count(p.records, f) == reputation_count(p.reputations, f));
}

/// Once overdue, a milestone stays overdue as time goes on; it is never
/// overdue at its deadline itself, only after it; and a released milestone
/// or one without a deadline is never overdue.
pub proof fn law_overdue_is_monotone(m: Milestone, earlier: u64, later: u64)
    requires
        earlier <= later,
    ensures
        overdue(m, earlier) ==> overdue(m, later),
        m.deadline matches Some(d) ==> !overdue(m, d),
        m.released ==> !overdue(m, later),
        m.deadline is None ==> !overdue(m, later),
{
}

/// Only the parties whom the contract's release rule lets approve may
/// release: the client unless the arbiter alone decides, the arbiter when
/// the rule names them, and the freelancer under multi-signature; never an
/// outsider.
pub proof fn law_release_needs_approving_role(v: EscrowView, caller: AccountId, index: u32)
    requires
        release_outcome(v, caller, index as int) is Ok,
    ensures
        may_approve(v.contract.release_authorization, role_of(v.contract, caller)),
        role_of(v.contract, caller) != Role::Outsider,
        approvals_sufficient(v.contract.release_authorization, v.approvals[index as int]),
{
}

/// The administrator role changes hands only to the proposed account, and
/// only inside its window: no sooner than `ADMIN_ROTATION_MIN_DELAY_LEDGERS`
/// after the proposal and no later than `ADMIN_ROTATION_PROPOSAL_TTL_LEDGERS`
/// after it. A stale proposal can be cleared only once that window is over,
/// so acceptance and recovery never both succeed at one ledger.
pub proof fn law_admin_rotation_window(pending: Option<PendingAdmin>, caller: AccountId, ledger: u32)
    ensures
        accept_admin_outcome(pending, caller, ledger) is Ok <==> (pending matches Some(p)
            && caller == p.proposed
            && p.proposed_at + ADMIN_ROTATION_MIN_DELAY_LEDGERS <= ledger <= p.proposed_at + ADMIN_ROTATION_PROPOSAL_TTL_LEDGERS),
        !(accept_admin_outcome(pending, caller, ledger) is Ok && recover_admin_outcome(pending, ledger) is Ok),
{
}

/// Two people stand behind every parameter change: in a well-formed
/// platform each proposal that was approved, rejected or applied was decided
/// by an account other than the one that requested it, and a proposal is
/// applied only once approved and before it expires.
pub proof fn law_governance_two_person_rule(p: PlatformView, i: int, who: AccountId, ledger: u32)
    requires
        platform_wf(p),
        0 <= i < p.proposals.len(),
    ensures
        p.proposals[i].state != GovernanceProposalState::Pending ==>
            (p.proposals[i].approver matches Some(a) && a != p.proposals[i].requester),
        apply_outcome(p.proposals[i], ledger) is Ok ==>
            p.proposals[i].state == GovernanceProposalState::Approved && ledger <= p.proposals[i].expires_at_ledger,
        decide_outcome(p.proposals[i], who, ledger) is Ok ==> who != p.proposals[i].requester,
        p.proposals[i].state == GovernanceProposalState::Rejected || p.proposals[i].state == GovernanceProposalState::Applied ==>
            decide_outcome(p.proposals[i], who, ledger) is Err && apply_outcome(p.proposals[i], ledger) is Err,
{
    assert(decided_by_other(p.proposals[i]));
}

/// An evidence hash is written once: while a milestone has one, every
/// further attempt to record one is refused, whoever asks.
pub proof fn law_evidence_hash_write_once(v: EscrowView, caller: AccountId, index: u32)
    requires
        view_wf(v),
        index < v.milestones.len(),
        v.evidence_hashes[index as int] is Some,
    ensures
        evidence_hash_outcome(v, caller, index as int) is Err,
{
}

/// How many entries the pages at `start`, `start + limit`, `start + 2 * limit`
/// and so on hold together, over a listing of `len` entries.
pub open spec fn pages_total(len: int, start: int, limit: int) -> int
    decreases len - start,
{
    if start >= len || limit <= 0 {
        0
    } else if start + limit >= len {
        page_len(len, start, limit)
    } else {
        page_len(len, start, limit) + pages_total(len, start + limit, limit)
    }
}

/// Paging through a contract's milestones with a page size within the
/// ceiling, each page continuing where the last one stopped, returns every
/// milestone from `start` on exactly once: the pages hold as many entries
/// as remain, and a page shorter than the page size is the last one.
pub proof fn law_milestone_pages_cover_the_rest(len: int, start: int, limit: int)
    requires
        0 <= start,
        0 < limit <= MAX_PAGE_SIZE,
    ensures
        pages_total(len, start, limit) == if start < len { len - start } else { 0 },
        page_len(len, start, limit) < limit ==> page_len(len, start + limit, limit) == 0,
    decreases len - start,
{
    if start < len && start + limit < len {
        law_milestone_pages_cover_the_rest(len, start + limit, limit);
    }
}

/// The participant listing pages continue each other: the page at `start`
/// followed by the page at `start + limit` is the page at `start` twice as
/// long.
pub proof fn law_participant_pages_continue(ids: Seq<u32>, start: int, limit: int)
    requires
        0 <= start,
        0 <= limit,
    ensures
        page_of(ids, start, limit) + page_of(ids, start + limit, limit) == page_of(ids, start, 2 * limit),
{
    assert(page_of(ids, start, limit) + page_of(ids, start + limit, limit) =~= page_of(ids, start, 2 * limit));
}

/// What the escrow holds for its contracts: the sum of what each still
/// holds.
pub open spec fn held_sum(rs: Seq<EscrowView>) -> int
    decreases rs.len(),
{
    if rs.len() == 0 {
        0
    } else {
        held_sum(rs.drop_last()) + available(rs.last().contract)
    }
}

/// What the escrow's settlement-token balance must be: every contract's
/// held amount plus the fees it has earned.
pub open spec fn escrow_holdings(p: PlatformView) -> int {
    held_sum(p.records) + p.accumulated_fees
}

/// Replacing one contract changes the held sum by the difference.
pub proof fn lemma_held_sum_update(rs: Seq<EscrowView>, i: int, v: EscrowView)
    requires
        0 <= i < rs.len(),
    ensures
        held_sum(rs.update(i, v)) == held_sum(rs) - available(rs[i].contract) + available(v.contract),
    decreases rs.len(),
{
    if i < rs.len() - 1 {
        assert(rs.update(i, v).drop_last() =~= rs.drop_last().update(i, v));
        lemma_held_sum_update(rs.drop_last(), i, v);
    } else {
        assert(rs.update(i, v).drop_last() =~= rs.drop_last());
    }
}

/// Token accounting across the platform, for the operations that move
/// money: opening a contract moves nothing; an accepted deposit raises the
/// escrow's holdings by the deposit; a release lowers them by the payout
/// (the amount less the fee, which the escrow keeps as earned fees); a
/// refund, a cancellation and a dispute resolution lower them by what they
/// return; a fee withdrawal lowers them by the amount withdrawn. So the
/// escrow's balance stays the sum of what its contracts hold plus its fees.
pub proof fn law_holdings_follow_transfers(
    p: PlatformView,
    id: u32,
    caller: AccountId,
    amount: int,
    index: u32,
    idx: Seq<u32>,
    res: DisputeResolution,
    new_record: EscrowView,
)
    requires
        platform_wf(p),
        has_contract(p, id),
    ensures
        ({
            let v = record_of(p, id);
            &&& deposit_outcome(v, caller, amount) is Ok ==>
                escrow_holdings(with_record(p, id, after_deposit(v, amount))) == escrow_holdings(p) + amount
            &&& (release_outcome(v, caller, index as int) is Ok && fee_room(p)) ==> {
                let a = v.milestones[index as int].amount as int;
                let fee = protocol_fee(a, p.protocol_fee_bps as int)->Some_0;
                &&& protocol_fee(a, p.protocol_fee_bps as int) is Some
                &&& escrow_holdings(PlatformView {
                    accumulated_fees: (p.accumulated_fees + fee) as i128,
                    ..with_record(p, id, after_release(v, index as int))
                }) == escrow_holdings(p) - (a - fee)
            }
            &&& refund_outcome(v, caller, idx) is Ok ==>
                escrow_holdings(with_record(p, id, after_refund(v, idx)))
                    == escrow_holdings(p) - refund_scan(v.milestones, idx)->Ok_0
            &&& cancel_outcome(v, caller) is Ok ==>
                escrow_holdings(with_record(p, id, after_cancel(v))) == escrow_holdings(p) - v.contract.total_deposited
            &&& resolve_dispute_outcome(v, caller, res) matches Ok((a, b)) ==>
                escrow_holdings(with_record(p, id, after_resolve(v, a, b))) == escrow_holdings(p) - (a + b)
            &&& view_wf(new_record) && new_record.contract.total_deposited == 0 ==>
                escrow_holdings(PlatformView { records: p.records.push(new_record), ..p }) == escrow_holdings(p)
        }),
{
    let v = record_of(p, id);
    let i = id - 1;
    assert(view_wf(v));
    lemma_schedule_total_bounds(v);
    lemma_settled_sums(v.milestones);
    if deposit_outcome(v, caller, amount) is Ok {
        lemma_held_sum_update(p.records, i, after_deposit(v, amount));
    }
    if release_outcome(v, caller, index as int) is Ok {
        lemma_wf_milestone(v, index as int);
        let a = v.milestones[index as int].amount as int;
        let bps = p.protocol_fee_bps as int;
        assert(0 <= a * bps <= MAX_SINGLE_AMOUNT_STROOPS * 10_000) by (nonlinear_arith)
            requires 0 < a <= MAX_SINGLE_AMOUNT_STROOPS, 0 <= bps <= 10_000;
        lemma_fee_bounded(a, bps);
        lemma_held_sum_update(p.records, i, after_release(v, index as int));
    }
    if refund_outcome(v, caller, idx) is Ok {
        assert forall|k: int| 0 <= k < v.milestones.len() implies
            0 < (#[trigger] v.milestones[k]).amount && !(v.milestones[k].released && v.milestones[k].refunded) by {
            lemma_wf_milestone(v, k);
        }
        lemma_refund_bound_step(v.milestones, idx);
        lemma_held_sum_update(p.records, i, after_refund(v, idx));
    }
    if cancel_outcome(v, caller) is Ok {
        lemma_held_sum_update(p.records, i, after_cancel(v));
    }
    if resolve_dispute_outcome(v, caller, res) is Ok {
        lemma_payouts_conserve(v.contract, res);
        let (a, b) = resolve_dispute_outcome(v, caller, res)->Ok_0;
        lemma_held_sum_update(p.records, i, after_resolve(v, a, b));
    }
    assert(p.records.push(new_record).drop_last() =~= p.records);
}

/// A fee withdrawal lowers the escrow's holdings by exactly the amount
/// withdrawn.
pub proof fn law_withdrawal_follows_transfer(p: PlatformView, caller: AccountId, amount: int, ledger: u32)
    requires
        platform_wf(p),
        withdraw_outcome(p, caller, amount, ledger) is Ok,
    ensures
        escrow_holdings(PlatformView {
            accumulated_fees: (p.accumulated_fees - amount) as i128,
            last_fee_withdrawal_ledger: ledger,
            ..p
        }) == escrow_holdings(p) - amount,
{
}

/// Whether the approvals recorded for a milestone are the ones its
/// release rule asks for: the client under client-only release, the
/// arbiter under arbiter-only release, the client or the arbiter under
/// client-and-arbiter release, and both the client and the freelancer under
/// multi-signature release.
pub open spec fn rule_met(auth: ReleaseAuthorization, client: bool, freelancer: bool, arbiter: bool) -> bool {
    match auth {
        ReleaseAuthorization::ClientOnly => client,
        ReleaseAuthorization::ArbiterOnly => arbiter,
        ReleaseAuthorization::ClientAndArbiter => client || arbiter,
        ReleaseAuthorization::MultiSig => client && freelancer,
    }
}

/// A release goes through exactly when the milestone's approvals meet the
/// contract's rule (and the caller, the state and the milestone allow it):
/// in particular, under multi-signature release one party's approval is
/// never enough, whoever asks, and under client-only release the client's
/// approval is always needed. Conversely, a pending milestone of a funded
/// contract whose approvals meet the rule is released for a caller the rule
/// lets release.
pub proof fn law_release_needs_the_rule_approvals(v: EscrowView, caller: AccountId, index: u32)
    requires
        view_wf(v),
    ensures
        release_outcome(v, caller, index as int) is Ok ==> {
            let a = v.approvals[index as int];
            &&& index < v.milestones.len()
            &&& rule_met(v.contract.release_authorization, a.client, a.freelancer, a.arbiter)
            &&& (v.contract.release_authorization == ReleaseAuthorization::MultiSig ==> a.client && a.freelancer)
            &&& (v.contract.release_authorization == ReleaseAuthorization::ClientOnly ==> a.client)
            &&& (v.contract.release_authorization == ReleaseAuthorization::ArbiterOnly ==> a.arbiter)
        },
        (index < v.milestones.len() && v.contract.status == ContractStatus::Funded
            && !v.milestones[index as int].released && !v.milestones[index as int].refunded
            && may_approve(v.contract.release_authorization, role_of(v.contract, caller))
            && !rule_met(v.contract.release_authorization, v.approvals[index as int].client,
                v.approvals[index as int].freelancer, v.approvals[index as int].arbiter))
            ==> release_outcome(v, caller, index as int) == Err::<(), EscrowError>(EscrowError::InsufficientApprovals),
        (index < v.milestones.len() && v.contract.status == ContractStatus::Funded
            && !v.milestones[index as int].released && !v.milestones[index as int].refunded
            && may_approve(v.contract.release_authorization, role_of(v.contract, caller))
            && rule_met(v.contract.release_authorization, v.approvals[index as int].client,
                v.approvals[index as int].freelancer, v.approvals[index as int].arbiter))
            ==> release_outcome(v, caller, index as int) is Ok,
{
}

/// Either party may open a dispute on a contract that holds or awaits
/// funds and names an arbiter: the client and the freelancer alike are
/// accepted, and every other caller (the arbiter, an outsider) is refused
/// with `UnauthorizedRole`. A dispute is only ever opened by a party, on a
/// funded or partly funded contract with an arbiter.
pub proof fn law_either_party_may_raise_a_dispute(v: EscrowView, caller: AccountId)
    requires
        view_wf(v),
    ensures
        ((v.contract.status == ContractStatus::Funded || v.contract.status == ContractStatus::PartiallyFunded)
            && v.contract.arbiter is Some) ==> {
            &&& raise_dispute_outcome(v, v.contract.client) is Ok
            &&& raise_dispute_outcome(v, v.contract.freelancer) is Ok
        },
        caller != v.contract.client && caller != v.contract.freelancer ==>
            raise_dispute_outcome(v, caller) == Err::<(), EscrowError>(EscrowError::UnauthorizedRole),
        raise_dispute_outcome(v, caller) is Ok ==> {
            &&& caller == v.contract.client || caller == v.contract.freelancer
            &&& v.contract.status == ContractStatus::Funded || v.contract.status == ContractStatus::PartiallyFunded
            &&& v.contract.arbiter is Some
        },
{
}

/// Whether `caller` is one of the parties the release rule `auth` of
/// contract `c` lets approve and release: the client under client-only
/// release, the arbiter under arbiter-only release, the client or the
/// arbiter under client-and-arbiter release, the client or the freelancer
/// under multi-signature release.
pub open spec fn rule_party(c: Contract, caller: AccountId) -> bool {
    match c.release_authorization {
        ReleaseAuthorization::ClientOnly => caller == c.client,
        ReleaseAuthorization::ArbiterOnly => c.arbiter == Some(caller),
        ReleaseAuthorization::ClientAndArbiter => caller == c.client || c.arbiter == Some(caller),
        ReleaseAuthorization::MultiSig => caller == c.client || caller == c.freelancer,
    }
}

/// Who may approve a milestone, and what an approval records: on a funded
/// contract an approval of an existing milestone is accepted exactly from
/// the parties the release rule names, and it marks that party's own
/// approval of that milestone, leaving the other parties' marks and every
/// other milestone's approvals as they were. A release is only ever made
/// by one of those parties.
pub proof fn law_approval_matrix(v: EscrowView, caller: AccountId, index: u32)
    requires
        view_wf(v),
    ensures
        approve_outcome(v, caller, index as int) is Ok <==>
            (v.contract.status == ContractStatus::Funded && index < v.milestones.len() && rule_party(v.contract, caller)),
        approve_outcome(v, caller, index as int) is Ok ==> {
            let before = v.approvals[index as int];
            let after = after_approve(v, caller, index as int).approvals[index as int];
            &&& after.client == (before.client || caller == v.contract.client)
            &&& after.freelancer == (before.freelancer || caller == v.contract.freelancer)
            &&& after.arbiter == (before.arbiter || v.contract.arbiter == Some(caller))
            &&& forall|j: int| 0 <= j < v.approvals.len() && j != index ==>
                #[trigger] after_approve(v, caller, index as int).approvals[j] == v.approvals[j]
            &&& after_approve(v, caller, index as int).milestones == v.milestones
            &&& after_approve(v, caller, index as int).contract == v.contract
        },
        release_outcome(v, caller, index as int) is Ok ==> rule_party(v.contract, caller),
{
}

/// Which party each other operation belongs to: only the client deposits,
/// refunds and cancels; only the freelancer submits work evidence; only the
/// arbiter resolves a dispute, and only a disputed one; only the client
/// rates, and only a completed contract.
pub proof fn law_party_permissions(
    v: EscrowView,
    caller: AccountId,
    amount: int,
    index: u32,
    idx: Seq<u32>,
    len: int,
    res: DisputeResolution,
    rating: int,
    comment_len: int,
    cfg: ReputationConfig,
)
    requires
        view_wf(v),
    ensures
        deposit_outcome(v, caller, amount) is Ok ==> caller == v.contract.client,
        refund_outcome(v, caller, idx) is Ok ==> caller == v.contract.client,
        cancel_outcome(v, caller) is Ok ==> caller == v.contract.client,
        evidence_outcome(v, caller, index as int, len) is Ok ==> caller == v.contract.freelancer,
        resolve_dispute_outcome(v, caller, res) is Ok ==>
            v.contract.arbiter == Some(caller) && v.contract.status == ContractStatus::Disputed,
        reputation_outcome(v, caller, rating, comment_len, cfg) is Ok ==>
            caller == v.contract.client && v.contract.status == ContractStatus::Completed,
{
}

/// What each dispute resolution pays, over what the contract still holds:
/// a full refund returns all of it to the client, a full payout gives all of
/// it to the freelancer, and a split pays each side exactly its named part,
/// the parts adding up to what is held; any other split is refused. The
/// contract then ends refunded when the freelancer got nothing and
/// completed otherwise.
pub proof fn law_resolution_pays_the_named_side(v: EscrowView, caller: AccountId, res: DisputeResolution)
    requires
        view_wf(v),
        v.contract.status == ContractStatus::Disputed,
        v.contract.arbiter == Some(caller),
    ensures
        res == DisputeResolution::FullRefund ==>
            resolve_dispute_outcome(v, caller, res) == Ok::<(int, int), EscrowError>((available(v.contract), 0)),
        res == DisputeResolution::FullPayout ==>
            resolve_dispute_outcome(v, caller, res) == Ok::<(int, int), EscrowError>((0, available(v.contract))),
        res matches DisputeResolution::Split(s) ==> {
            &&& (s.client_amount >= 0 && s.freelancer_amount >= 0
                && s.client_amount + s.freelancer_amount == available(v.contract)) ==>
                resolve_dispute_outcome(v, caller, res)
                    == Ok::<(int, int), EscrowError>((s.client_amount as int, s.freelancer_amount as int))
            &&& !(s.client_amount >= 0 && s.freelancer_amount >= 0
                && s.client_amount + s.freelancer_amount == available(v.contract)) ==>
                resolve_dispute_outcome(v, caller, res) is Err
        },
        resolve_dispute_outcome(v, caller, res) matches Ok((a, b)) ==> {
            &&& after_resolve(v, a, b).contract.status
                == (if b == 0 { ContractStatus::Refunded } else { ContractStatus::Completed })
            &&& after_resolve(v, a, b).contract.refunded_amount == v.contract.refunded_amount + a
            &&& after_resolve(v, a, b).contract.released_amount == v.contract.released_amount + b
        },
{
    lemma_schedule_total_bounds(v);
    if payouts_spec(v.contract, res) is Ok {
        lemma_payouts_conserve(v.contract, res);
    }
}

/// The protocol fee is the rate's share of the amount, rounded down: for
/// a non-negative amount and a rate within the ceiling it is the largest
/// whole number of stroops not above `amount * fee_bps / 10_000`, so it is
/// never more than the amount, nothing at a zero rate, and the whole
/// amount at the full rate.
pub proof fn law_fee_is_the_rate_share(amount: int, fee_bps: int)
    requires
        0 <= amount <= MAX_SINGLE_AMOUNT_STROOPS,
        0 <= fee_bps <= MAX_FEE_BPS,
    ensures
        protocol_fee(amount, fee_bps) matches Some(f) && {
            &&& f * 10_000 <= amount * fee_bps < f * 10_000 + 10_000
            &&& 0 <= f <= amount
        },
        fee_bps == 0 ==> protocol_fee(amount, fee_bps) == Some(0int),
        fee_bps == 10_000 ==> protocol_fee(amount, fee_bps) == Some(amount),
{
    assert(0 <= amount * fee_bps <= MAX_SINGLE_AMOUNT_STROOPS * 10_000) by (nonlinear_arith)
        requires 0 <= amount <= MAX_SINGLE_AMOUNT_STROOPS, 0 <= fee_bps <= 10_000;
    lemma_fee_bounded(amount, fee_bps);
    let x = amount * fee_bps;
    assert(x / 10_000 * 10_000 <= x < x / 10_000 * 10_000 + 10_000) by (nonlinear_arith)
        requires x >= 0;
    if fee_bps == 10_000 {
        assert(x == amount * 10_000);
        assert(x / 10_000 == amount) by (nonlinear_arith)
            requires x == amount * 10_000;
    }
}

} // verus!
