//! The escrow platform: every contract it holds, its administrator, the
//! pause and emergency switches, the protocol fee settings and the fees it
//! has earned.
//!
//! Contracts are numbered from 1 in creation order. Every operation that
//! moves money or changes a contract is refused with `ContractPaused` while
//! the platform is paused (an emergency pauses it too); the administrator's
//! own settings stay reachable in every state.

use vstd::prelude::*;
use std::collections::HashMap;
use crate::amounts::{MAX_SINGLE_AMOUNT_STROOPS, MAX_TOTAL_ESCROW_STROOPS};
use crate::errors::EscrowError;
use crate::escrow::{
    EscrowRecord, EscrowView, view_wf, create_outcome, created_view, deposit_outcome, after_deposit,
    approve_outcome, after_approve, release_outcome, after_release, refund_outcome, after_refund,
    refund_scan, raise_dispute_outcome, resolve_dispute_outcome, after_resolve, cancel_outcome,
    after_cancel, evidence_outcome, reputation_outcome, page_len, entry_status, Approval, no_approval,
    MAX_MILESTONES, MIN_MAX_MILESTONES, MAX_MAX_MILESTONES, available, evidence_hash_outcome,
};
use crate::reputation::{
    ReputationConfig, Reputation, config_valid, default_reputation_config, validate_reputation_config,
    reputation_bounded, after_rating, record_rating, scaled_average, average_rating, MAX_RATING_CEILING,
};
use crate::governance::{
    PendingAdmin, GovernanceProposal, GovernanceProposalKind, GovernanceProposalState, accept_admin_outcome,
    check_admin_acceptance, recover_admin_outcome, check_admin_recovery, kind_outcome, validate_proposal_kind,
    decide_outcome, decide_proposal, apply_outcome, check_apply, GOVERNANCE_PROPOSAL_TTL_LEDGERS,
};
use crate::fees::{protocol_fee, withdrawal_allowance, fee_withdrawal_allowance, MAX_FEE_BPS};
use crate::ledger::released_count;
use crate::token::{Holder, Transfer};
use crate::events::{
    Event, EventData, EventView, Step, TopicName, log_view, platform_event, contract_event, milestone_event, step_event,
    new_platform_event, new_contract_event, new_milestone_event, new_step_event,
};
use crate::types::{overdue, AccountId, Contract, ContractStatus, DisputeResolution, Milestone, MilestoneEntry, MilestoneProgress, ReleaseAuthorization};

verus! {

broadcast use vstd::std_specs::hash::group_hash_axioms;

/// Share of the earned fees, in basis points, that one withdrawal may take
/// unless the administrator changes it (0 lifts the limit).
pub const DEFAULT_FEE_WITHDRAWAL_CAP_BPS: u32 = 5_000;

/// Ledgers that must pass between two fee withdrawals unless the
/// administrator changes it (0 lifts the wait).
pub const DEFAULT_FEE_WITHDRAWAL_COOLDOWN: u32 = 17_280;

/// The longest wait between fee withdrawals the administrator may set.
pub const MAX_FEE_WITHDRAWAL_COOLDOWN: u32 = 2_592_000;

/// The mathematical content of the platform.
pub ghost struct PlatformView {
    pub admin: AccountId,
    pub paused: bool,
    pub emergency: bool,
    pub protocol_fee_bps: u32,
    pub max_escrow_total: i128,
    pub accumulated_fees: i128,
    pub settlement_token: Option<AccountId>,
    pub fee_withdrawal_cap_bps: u32,
    pub fee_withdrawal_cooldown: u32,
    pub last_fee_withdrawal_ledger: u32,
    pub reputation_config: ReputationConfig,
    pub reputations: Map<AccountId, Reputation>,
    pub comments: Map<u32, Seq<u8>>,
    pub max_milestones: u32,
    pub pending_admin: Option<PendingAdmin>,
    pub proposals: Seq<GovernanceProposal>,
    pub governed_params_set: bool,
    pub emergency_controls_exercised: bool,
    pub records: Seq<EscrowView>,
}

/// The transfer a deposit of `amount` by `caller` orders: from the caller
/// to the escrow.
pub open spec fn deposit_transfer(caller: AccountId, amount: i128) -> Transfer {
    Transfer { from: Holder::Account(caller), to: Holder::Escrow, amount }
}

/// What a release of milestone `index` of contract `id` publishes: the
/// release with its payout, then, when a fee was taken, the fee.
pub open spec fn release_events(id: u32, index: u32, payout: i128, fee: i128) -> Seq<EventView> {
    let released = seq![milestone_event(TopicName::MilestoneReleased, id, index, EventData::Amount(payout))];
    if fee > 0 { released.push(contract_event(TopicName::ProtocolFee, id, EventData::Amount(fee))) } else { released }
}

/// The invariant of the platform: an emergency always pauses, the settings
/// are in range, earned fees are non-negative, and every contract is well
/// formed.
pub open spec fn platform_wf(p: PlatformView) -> bool {
    &&& p.emergency ==> p.paused
    &&& p.protocol_fee_bps <= MAX_FEE_BPS
    &&& p.max_escrow_total > 0
    &&& p.accumulated_fees >= 0
    &&& p.fee_withdrawal_cap_bps <= MAX_FEE_BPS
    &&& p.fee_withdrawal_cooldown <= MAX_FEE_WITHDRAWAL_COOLDOWN
    &&& config_valid(p.reputation_config)
    &&& MIN_MAX_MILESTONES <= p.max_milestones <= MAX_MAX_MILESTONES
    &&& p.proposals.len() < u64::MAX
    &&& forall|i: int| 0 <= i < p.proposals.len() ==> (#[trigger] p.proposals[i]).id == i + 1
        && kind_outcome(p.proposals[i].kind) is Ok
        && decided_by_other(p.proposals[i])
    &&& forall|f: AccountId| #[trigger] rated_count(p.records, f) == reputation_count(p.reputations, f)
    &&& forall|f: AccountId| p.reputations.contains_key(f) ==> reputation_bounded(#[trigger] p.reputations[f])
    &&& p.records.len() <= u32::MAX
    &&& forall|i: int| 0 <= i < p.records.len() ==> view_wf(#[trigger] p.records[i])
}

/// Whether `id` names a contract of the platform.
pub open spec fn has_contract(p: PlatformView, id: u32) -> bool {
    1 <= id <= p.records.len()
}

/// The contract named `id` (meaningful when `has_contract`).
pub open spec fn record_of(p: PlatformView, id: u32) -> EscrowView {
    p.records[id - 1]
}

/// The platform with contract `id` replaced.
pub open spec fn with_record(p: PlatformView, id: u32, v: EscrowView) -> PlatformView {
    PlatformView { records: p.records.update(id - 1, v), ..p }
}

/// The platform with its switches set as given.
pub open spec fn with_flags(p: PlatformView, paused: bool, emergency: bool) -> PlatformView {
    PlatformView { paused, emergency, ..p }
}

/// A pending proposal has no decision yet; any other was decided by an
/// account other than its requester.
pub open spec fn decided_by_other(g: GovernanceProposal) -> bool {
    if g.state == GovernanceProposalState::Pending {
        g.approver is None
    } else {
        g.approver matches Some(a) && a != g.requester
    }
}

/// The platform with the parameter change `kind` in effect.
pub open spec fn with_kind_applied(p: PlatformView, kind: GovernanceProposalKind) -> PlatformView {
    match kind {
        GovernanceProposalKind::SetProtocolFeeBps(b) => PlatformView { protocol_fee_bps: b, ..p },
        GovernanceProposalKind::SetGovernedParams(g) => PlatformView {
            protocol_fee_bps: g.protocol_fee_bps,
            max_escrow_total: g.max_escrow_total_stroops,
            ..p
        },
        GovernanceProposalKind::SetMaxMilestones(n) => PlatformView { max_milestones: n, ..p },
    }
}

/// Whether contract `v` is one of `f`'s that the client has rated.
pub open spec fn rated_for(v: EscrowView, f: AccountId) -> bool {
    v.contract.freelancer == f && v.contract.reputation_issued
}

/// Whether contract `v` is one of `f`'s that completed and still awaits
/// the client's rating.
pub open spec fn pending_for(v: EscrowView, f: AccountId) -> bool {
    v.contract.freelancer == f && v.contract.status == ContractStatus::Completed && !v.contract.reputation_issued
}

/// Whether contract `v` has `who` as its client (`role` 0) or its
/// freelancer (`role` 1); other roles match nothing.
pub open spec fn participant_in(v: EscrowView, who: AccountId, role: u8) -> bool {
    (role == 0 && v.contract.client == who) || (role == 1 && v.contract.freelancer == who)
}

/// The ids, in creation order, of the contracts `s` (numbered from 1) in
/// which `who` takes part in `role`.
pub open spec fn participant_ids(s: Seq<EscrowView>, who: AccountId, role: u8) -> Seq<u32>
    decreases s.len(),
{
    if s.len() == 0 {
        Seq::empty()
    } else {
        let rest = participant_ids(s.drop_last(), who, role);
        if participant_in(s.last(), who, role) { rest.push(s.len() as u32) } else { rest }
    }
}

/// The part of `ids` from position `start`, at most `limit` long.
pub open spec fn page_of(ids: Seq<u32>, start: int, limit: int) -> Seq<u32> {
    let lo = if start < ids.len() { start } else { ids.len() as int };
    let hi = if start + limit < ids.len() { start + limit } else { ids.len() as int };
    ids.subrange(lo, if hi < lo { lo } else { hi })
}

/// How many of the contracts `s` the client has rated `f` for.
pub open spec fn rated_count(s: Seq<EscrowView>, f: AccountId) -> nat
    decreases s.len(),
{
    if s.len() == 0 {
        0
    } else {
        rated_count(s.drop_last(), f) + if rated_for(s.last(), f) { 1nat } else { 0nat }
    }
}

/// How many of the contracts `s` completed for `f` and await a rating.
pub open spec fn pending_count(s: Seq<EscrowView>, f: AccountId) -> nat
    decreases s.len(),
{
    if s.len() == 0 {
        0
    } else {
        pending_count(s.drop_last(), f) + if pending_for(s.last(), f) { 1nat } else { 0nat }
    }
}

/// How many ratings `f`'s record holds: none without a record.
pub open spec fn reputation_count(m: Map<AccountId, Reputation>, f: AccountId) -> nat {
    if m.contains_key(f) { m[f].completed_contracts as nat } else { 0 }
}

/// `f`'s record, if `f` was ever rated.
pub open spec fn reputation_of(m: Map<AccountId, Reputation>, f: AccountId) -> Option<Reputation> {
    if m.contains_key(f) { Some(m[f]) } else { None }
}

/// Replacing one contract changes the rated count by what that contract
/// contributed before and after.
pub proof fn lemma_rated_count_update(s: Seq<EscrowView>, i: int, v: EscrowView, f: AccountId)
    requires
        0 <= i < s.len(),
    ensures
        rated_count(s.update(i, v), f) + (if rated_for(s[i], f) { 1int } else { 0int })
            == rated_count(s, f) + (if rated_for(v, f) { 1int } else { 0int }),
    decreases s.len(),
{
    let t = s.update(i, v);
    if i == s.len() - 1 {
        assert(t.drop_last() =~= s.drop_last());
    } else {
        assert(t.drop_last() =~= s.drop_last().update(i, v));
        lemma_rated_count_update(s.drop_last(), i, v, f);
    }
}

/// Replacing one contract changes the pending count by what that contract
/// contributed before and after.
pub proof fn lemma_pending_count_update(s: Seq<EscrowView>, i: int, v: EscrowView, f: AccountId)
    requires
        0 <= i < s.len(),
    ensures
        pending_count(s.update(i, v), f) + (if pending_for(s[i], f) { 1int } else { 0int })
            == pending_count(s, f) + (if pending_for(v, f) { 1int } else { 0int }),
    decreases s.len(),
{
    let t = s.update(i, v);
    if i == s.len() - 1 {
        assert(t.drop_last() =~= s.drop_last());
    } else {
        assert(t.drop_last() =~= s.drop_last().update(i, v));
        lemma_pending_count_update(s.drop_last(), i, v, f);
    }
}

/// A contract added unrated leaves every rated count as it was.
pub proof fn lemma_rated_count_push(s: Seq<EscrowView>, v: EscrowView, f: AccountId)
    requires
        !v.contract.reputation_issued,
    ensures
        rated_count(s.push(v), f) == rated_count(s, f),
{
    assert(s.push(v).drop_last() =~= s);
}

/// No more contracts are rated than there are contracts.
pub proof fn lemma_rated_count_bound(s: Seq<EscrowView>, f: AccountId)
    ensures
        rated_count(s, f) <= s.len(),
    decreases s.len(),
{
    if s.len() > 0 {
        lemma_rated_count_bound(s.drop_last(), f);
    }
}

/// The launch checklist of the platform.
#[derive(Debug, Clone, Copy, PartialEq, Eq, Structural)]
pub struct MainnetReadinessInfo {
    pub initialized: bool,
    pub governed_params_set: bool,
    pub emergency_controls_enabled: bool,
}

/// The escrow platform.
pub struct Platform {
    admin: AccountId,
    paused: bool,
    emergency: bool,
    protocol_fee_bps: u32,
    max_escrow_total: i128,
    accumulated_fees: i128,
    settlement_token: Option<AccountId>,
    fee_withdrawal_cap_bps: u32,
    fee_withdrawal_cooldown: u32,
    last_fee_withdrawal_ledger: u32,
    reputation_config: ReputationConfig,
    reputations: HashMap<AccountId, Reputation>,
    comments: HashMap<u32, Vec<u8>>,
    max_milestones: u32,
    pending_admin: Option<PendingAdmin>,
    proposals: Vec<GovernanceProposal>,
    governed_params_set: bool,
    emergency_controls_exercised: bool,
    records: Vec<EscrowRecord>,
    events: Vec<Event>,
}

impl View for Platform {
    type V = PlatformView;

    closed spec fn view(&self) -> PlatformView {
        PlatformView {
            admin: self.admin,
            paused: self.paused,
            emergency: self.emergency,
            protocol_fee_bps: self.protocol_fee_bps,
            max_escrow_total: self.max_escrow_total,
            accumulated_fees: self.accumulated_fees,
            settlement_token: self.settlement_token,
            fee_withdrawal_cap_bps: self.fee_withdrawal_cap_bps,
            fee_withdrawal_cooldown: self.fee_withdrawal_cooldown,
            last_fee_withdrawal_ledger: self.last_fee_withdrawal_ledger,
            reputation_config: self.reputation_config,
            reputations: self.reputations@,
            comments: self.comments@.map_values(|c: Vec<u8>| c@),
            max_milestones: self.max_milestones,
            pending_admin: self.pending_admin,
            proposals: self.proposals@,
            governed_params_set: self.governed_params_set,
            emergency_controls_exercised: self.emergency_controls_exercised,
            records: self.records@.map_values(|r: EscrowRecord| r@),
        }
    }
}

/// The shared prelude of every contract operation: not paused, and the
/// contract exists.
pub open spec fn gate(p: PlatformView, id: u32) -> Result<(), EscrowError> {
    if p.paused {
        Err(EscrowError::ContractPaused)
    } else if !has_contract(p, id) {
        Err(EscrowError::ContractNotFound)
    } else {
        Ok(())
    }
}

/// The prelude of the operations that move money: `gate`, then the
/// settlement token must be bound.
pub open spec fn money_gate(p: PlatformView, id: u32) -> Result<(), EscrowError> {
    if gate(p, id) is Err {
        gate(p, id)
    } else if p.settlement_token is None {
        Err(EscrowError::SettlementTokenNotBound)
    } else {
        Ok(())
    }
}

/// The prelude of the dispute, evidence and reputation operations: not
/// paused, and `id` is a contract id that has been handed out.
pub open spec fn id_gate(p: PlatformView, id: u32) -> Result<(), EscrowError> {
    if p.paused {
        Err(EscrowError::ContractPaused)
    } else if !has_contract(p, id) {
        Err(EscrowError::InvalidContractId)
    } else {
        Ok(())
    }
}

/// Earned fees may grow by one more fee without leaving the `i128` range.
pub open spec fn fee_room(p: PlatformView) -> bool {
    p.accumulated_fees <= i128::MAX - MAX_SINGLE_AMOUNT_STROOPS
}

impl Platform {
    /// The invariant of this platform.
    pub open spec fn wf(&self) -> bool {
        platform_wf(self@)
    }

    /// A platform run by `admin`: running, no fee, the default ceiling on
    /// escrow totals, no settlement token and no contract.
    pub fn new(admin: AccountId) -> (p: Self)
        ensures
            p.wf(),
            p@.admin == admin,
            !p@.paused,
            !p@.emergency,
            p@.protocol_fee_bps == 0,
            p@.max_escrow_total == MAX_TOTAL_ESCROW_STROOPS,
            p@.accumulated_fees == 0,
            p@.settlement_token is None,
            p@.fee_withdrawal_cap_bps == DEFAULT_FEE_WITHDRAWAL_CAP_BPS,
            p@.fee_withdrawal_cooldown == DEFAULT_FEE_WITHDRAWAL_COOLDOWN,
            p@.last_fee_withdrawal_ledger == 0,
            p@.reputation_config == default_reputation_config(),
            p@.reputations == Map::<AccountId, Reputation>::empty(),
            p@.comments == Map::<u32, Seq<u8>>::empty(),
            p@.max_milestones == MAX_MILESTONES,
            p@.pending_admin is None,
            p@.proposals.len() == 0,
            !p@.governed_params_set,
            !p@.emergency_controls_exercised,
            p@.records.len() == 0,
            p.published() == Seq::<EventView>::empty(),
    {
        let p = Platform {
            admin,
            paused: false,
            emergency: false,
            protocol_fee_bps: 0,
            max_escrow_total: MAX_TOTAL_ESCROW_STROOPS,
            accumulated_fees: 0,
            settlement_token: None,
            fee_withdrawal_cap_bps: DEFAULT_FEE_WITHDRAWAL_CAP_BPS,
            fee_withdrawal_cooldown: DEFAULT_FEE_WITHDRAWAL_COOLDOWN,
            last_fee_withdrawal_ledger: 0,
            reputation_config: ReputationConfig::default(),
            reputations: HashMap::new(),
            comments: HashMap::new(),
            max_milestones: MAX_MILESTONES,
            pending_admin: None,
            proposals: Vec::new(),
            governed_params_set: false,
            emergency_controls_exercised: false,
            records: Vec::new(),
            events: Vec::new(),
        };
        assert(log_view(p.events@) =~= Seq::<EventView>::empty());
        assert(p@.comments =~= Map::<u32, Seq<u8>>::empty());
        assert(p@.records =~= Seq::<EscrowView>::empty());
        p
    }

    /// Whether contract operations are suspended.
    pub fn is_paused(&self) -> (b: bool)
        ensures
            b == self@.paused,
    {
        self.paused
    }

    /// Whether the emergency switch is on.
    pub fn is_emergency(&self) -> (b: bool)
        ensures
            b == self@.emergency,
    {
        self.emergency
    }

    /// The current protocol fee rate in basis points.
    pub fn protocol_fee_bps(&self) -> (b: u32)
        ensures
            b == self@.protocol_fee_bps,
    {
        self.protocol_fee_bps
    }

    /// The current ceiling on the total of one escrow.
    pub fn max_escrow_total(&self) -> (m: i128)
        ensures
            m == self@.max_escrow_total,
    {
        self.max_escrow_total
    }

    /// Fees earned and not yet withdrawn.
    pub fn accumulated_protocol_fees(&self) -> (f: i128)
        ensures
            f == self@.accumulated_fees,
    {
        self.accumulated_fees
    }

    /// The bound settlement token, if any.
    pub fn settlement_token(&self) -> (t: Option<AccountId>)
        ensures
            t == self@.settlement_token,
    {
        self.settlement_token
    }

    /// Suspends contract operations; administrator only.
    pub fn pause(&mut self, caller: AccountId) -> (r: Result<(), EscrowError>)
        requires
            old(self).wf(),
        ensures
            caller != old(self)@.admin ==> r == Err::<(), EscrowError>(EscrowError::UnauthorizedRole) && final(self)@ == old(self)@,
            caller == old(self)@.admin ==> r is Ok && final(self)@ == with_flags(old(self)@, true, old(self)@.emergency),
            r is Ok ==> final(self).published() == old(self).published().push(platform_event(TopicName::Pause, EventData::Account(caller))),
            r is Err ==> final(self).published() == old(self).published(),
            final(self).wf(),
    {
        if caller != self.admin {
            return Err(EscrowError::UnauthorizedRole);
        }
        self.paused = true;
        self.publish(new_platform_event(TopicName::Pause, EventData::Account(caller)));
        Ok(())
    }

    /// Resumes contract operations; administrator only, and not while an
    /// emergency is active.
    pub fn unpause(&mut self, caller: AccountId) -> (r: Result<(), EscrowError>)
        requires
            old(self).wf(),
        ensures
            caller != old(self)@.admin ==> r == Err::<(), EscrowError>(EscrowError::UnauthorizedRole) && final(self)@ == old(self)@,
            caller == old(self)@.admin && old(self)@.emergency ==> r == Err::<(), EscrowError>(EscrowError::EmergencyActive) && final(self)@ == old(self)@,
            caller == old(self)@.admin && !old(self)@.emergency ==> r is Ok && final(self)@ == with_flags(old(self)@, false, false),
            r is Ok ==> final(self).published() == old(self).published().push(platform_event(TopicName::Unpaused, EventData::Account(caller))),
            r is Err ==> final(self).published() == old(self).published(),
            final(self).wf(),
    {
        if caller != self.admin {
            return Err(EscrowError::UnauthorizedRole);
        }
        if self.emergency {
            return Err(EscrowError::EmergencyActive);
        }
        self.paused = false;
        self.publish(new_platform_event(TopicName::Unpaused, EventData::Account(caller)));
        Ok(())
    }

    /// Turns the emergency switch on, which also pauses; administrator only.
    pub fn activate_emergency_pause(&mut self, caller: AccountId) -> (r: Result<(), EscrowError>)
        requires
            old(self).wf(),
        ensures
            caller != old(self)@.admin ==> r == Err::<(), EscrowError>(EscrowError::UnauthorizedRole) && final(self)@ == old(self)@,
            caller == old(self)@.admin ==> r is Ok
                && final(self)@ == (PlatformView { emergency_controls_exercised: true, ..with_flags(old(self)@, true, true) }),
            r is Ok ==> final(self).published() == old(self).published().push(platform_event(TopicName::Emergency, EventData::Account(caller))),
            r is Err ==> final(self).published() == old(self).published(),
            final(self).wf(),
    {
        if caller != self.admin {
            return Err(EscrowError::UnauthorizedRole);
        }
        self.emergency = true;
        self.paused = true;
        self.emergency_controls_exercised = true;
        self.publish(new_platform_event(TopicName::Emergency, EventData::Account(caller)));
        Ok(())
    }

    /// Ends an emergency, which also lifts the pause; administrator only.
    pub fn resolve_emergency(&mut self, caller: AccountId) -> (r: Result<(), EscrowError>)
        requires
            old(self).wf(),
        ensures
            caller != old(self)@.admin ==> r == Err::<(), EscrowError>(EscrowError::UnauthorizedRole) && final(self)@ == old(self)@,
            caller == old(self)@.admin ==> r is Ok
                && final(self)@ == (PlatformView { emergency_controls_exercised: true, ..with_flags(old(self)@, false, false) }),
            r is Ok ==> final(self).published() == old(self).published().push(platform_event(TopicName::EmergencyResolved, EventData::Account(caller))),
            r is Err ==> final(self).published() == old(self).published(),
            final(self).wf(),
    {
        if caller != self.admin {
            return Err(EscrowError::UnauthorizedRole);
        }
        self.emergency = false;
        self.paused = false;
        self.emergency_controls_exercised = true;
        self.publish(new_platform_event(TopicName::EmergencyResolved, EventData::Account(caller)));
        Ok(())
    }

    /// Sets the protocol fee rate; administrator only, at most 10,000 bps.
    /// Reachable while paused.
    pub fn set_protocol_fee_bps(&mut self, caller: AccountId, fee_bps: u32) -> (r: Result<(), EscrowError>)
        requires
            old(self).wf(),
        ensures
            caller != old(self)@.admin ==> r == Err::<(), EscrowError>(EscrowError::UnauthorizedRole) && final(self)@ == old(self)@,
            caller == old(self)@.admin && fee_bps > MAX_FEE_BPS ==> r == Err::<(), EscrowError>(EscrowError::InvalidProtocolParameters) && final(self)@ == old(self)@,
            caller == old(self)@.admin && fee_bps <= MAX_FEE_BPS ==> r is Ok && final(self)@ == (PlatformView { protocol_fee_bps: fee_bps, ..old(self)@ }),
            r is Ok ==> final(self).published() == old(self).published().push(platform_event(TopicName::ProtocolFee, EventData::Value(fee_bps as u64))),
            r is Err ==> final(self).published() == old(self).published(),
            final(self).wf(),
    {
        if caller != self.admin {
            return Err(EscrowError::UnauthorizedRole);
        }
        if fee_bps > MAX_FEE_BPS {
            return Err(EscrowError::InvalidProtocolParameters);
        }
        self.protocol_fee_bps = fee_bps;
        self.publish(new_platform_event(TopicName::ProtocolFee, EventData::Value(fee_bps as u64)));
        Ok(())
    }

    /// Sets the fee rate and the ceiling on escrow totals together;
    /// administrator only. The rate is at most 10,000 bps and the ceiling
    /// positive. Reachable while paused.
    pub fn set_governed_params(&mut self, caller: AccountId, fee_bps: u32, max_escrow_total: i128) -> (r: Result<(), EscrowError>)
        requires
            old(self).wf(),
        ensures
            caller != old(self)@.admin ==> r == Err::<(), EscrowError>(EscrowError::UnauthorizedRole) && final(self)@ == old(self)@,
            caller == old(self)@.admin && (fee_bps > MAX_FEE_BPS || max_escrow_total <= 0) ==>
                r == Err::<(), EscrowError>(EscrowError::InvalidProtocolParameters) && final(self)@ == old(self)@,
            caller == old(self)@.admin && fee_bps <= MAX_FEE_BPS && max_escrow_total > 0 ==>
                r is Ok && final(self)@ == (PlatformView {
                    protocol_fee_bps: fee_bps,
                    max_escrow_total,
                    governed_params_set: true,
                    ..old(self)@
                }),
            r is Ok ==> final(self).published() == old(self).published().push(platform_event(TopicName::Governance, EventData::Amount(max_escrow_total))),
            r is Err ==> final(self).published() == old(self).published(),
            final(self).wf(),
    {
        if caller != self.admin {
            return Err(EscrowError::UnauthorizedRole);
        }
        if fee_bps > MAX_FEE_BPS || max_escrow_total <= 0 {
            return Err(EscrowError::InvalidProtocolParameters);
        }
        self.protocol_fee_bps = fee_bps;
        self.max_escrow_total = max_escrow_total;
        self.governed_params_set = true;
        self.publish(new_platform_event(TopicName::Governance, EventData::Amount(max_escrow_total)));
        Ok(())
    }

    /// Binds the token in which escrows settle; administrator only, once.
    /// Reachable while paused.
    pub fn bind_settlement_token(&mut self, caller: AccountId, token: AccountId) -> (r: Result<(), EscrowError>)
        requires
            old(self).wf(),
        ensures
            caller != old(self)@.admin ==> r == Err::<(), EscrowError>(EscrowError::UnauthorizedRole) && final(self)@ == old(self)@,
            caller == old(self)@.admin && old(self)@.settlement_token is Some ==>
                r == Err::<(), EscrowError>(EscrowError::SettlementTokenAlreadyBound) && final(self)@ == old(self)@,
            caller == old(self)@.admin && old(self)@.settlement_token is None ==>
                r is Ok && final(self)@ == (PlatformView { settlement_token: Some(token), ..old(self)@ }),
            r is Ok ==> final(self).published() == old(self).published().push(platform_event(TopicName::SettlementTokenBound, EventData::Account(token))),
            r is Err ==> final(self).published() == old(self).published(),
            final(self).wf(),
    {
        if caller != self.admin {
            return Err(EscrowError::UnauthorizedRole);
        }
        if self.settlement_token.is_some() {
            return Err(EscrowError::SettlementTokenAlreadyBound);
        }
        self.settlement_token = Some(token);
        self.publish(new_platform_event(TopicName::SettlementTokenBound, EventData::Account(token)));
        Ok(())
    }


    /// The events this platform has published, oldest first. They are its
    /// output, not part of its state (`PlatformView`).
    pub closed spec fn published(&self) -> Seq<EventView> {
        log_view(self.events@)
    }

    /// The events published so far, oldest first.
    pub fn events(&self) -> (log: &Vec<Event>)
        ensures
            log_view(log@) == self.published(),
    {
        &self.events
    }

    /// Publishes `e`; the platform's state does not change.
    fn publish(&mut self, e: Event)
        ensures
            final(self)@ == old(self)@,
            final(self).published() == old(self).published().push(e@),
    {
        self.events.push(e);
        assert(log_view(self.events@) =~= log_view(old(self).events@).push(e@));
    }

    /// The platform gate for contract `id`: not paused, and the contract exists.
    fn check_gate(&self, id: u32) -> (r: Result<(), EscrowError>)
        ensures
            r == gate(self@, id),
    {
        if self.paused {
            return Err(EscrowError::ContractPaused);
        }
        if id == 0 || id as usize > self.records.len() {
            return Err(EscrowError::ContractNotFound);
        }
        Ok(())
    }

    /// `money_gate` for contract `id`.
    fn check_money_gate(&self, id: u32) -> (r: Result<(), EscrowError>)
        ensures
            r == money_gate(self@, id),
    {
        self.check_gate(id)?;
        if self.settlement_token.is_none() {
            return Err(EscrowError::SettlementTokenNotBound);
        }
        Ok(())
    }

    /// `id_gate` for contract `id`.
    fn check_id_gate(&self, id: u32) -> (r: Result<(), EscrowError>)
        ensures
            r == id_gate(self@, id),
    {
        if self.paused {
            return Err(EscrowError::ContractPaused);
        }
        if id == 0 || id as usize > self.records.len() {
            return Err(EscrowError::InvalidContractId);
        }
        Ok(())
    }

    /// How many contracts the platform holds (the highest id).
    pub fn contract_count(&self) -> (n: u32)
        requires
            self.wf(),
        ensures
            n == self@.records.len(),
    {
        self.records.len() as u32
    }

    /// The header of contract `id`.
    pub fn get_contract(&self, id: u32) -> (r: Result<Contract, EscrowError>)
        requires
            self.wf(),
        ensures
            !has_contract(self@, id) ==> r == Err::<Contract, EscrowError>(EscrowError::ContractNotFound),
            has_contract(self@, id) ==> r == Ok::<Contract, EscrowError>(record_of(self@, id).contract),
    {
        if id == 0 || id as usize > self.records.len() {
            return Err(EscrowError::ContractNotFound);
        }
        Ok(*self.records[(id - 1) as usize].contract())
    }

    /// What contract `id` still holds: deposits less what was released and
    /// refunded.
    pub fn get_remaining_balance(&self, id: u32) -> (r: Result<i128, EscrowError>)
        requires
            self.wf(),
        ensures
            !has_contract(self@, id) ==> r == Err::<i128, EscrowError>(EscrowError::ContractNotFound),
            has_contract(self@, id) ==> r == Ok::<i128, EscrowError>(available(record_of(self@, id).contract) as i128),
            has_contract(self@, id) ==> 0 <= available(record_of(self@, id).contract) <= record_of(self@, id).contract.total_deposited,
    {
        if id == 0 || id as usize > self.records.len() {
            return Err(EscrowError::ContractNotFound);
        }
        proof { assert(view_wf(self@.records[id - 1])); }
        let c = self.records[(id - 1) as usize].contract();
        Ok(c.total_deposited - c.released_amount - c.refunded_amount)
    }

    /// One page of the ids of the contracts in which `who` is the client
    /// (`role` 0) or the freelancer (`role` 1), in creation order: the ids
    /// from position `start`, at most `limit` of them.
    pub fn list_contracts_by_participant(&self, who: AccountId, role: u8, start: u32, limit: u32) -> (page: Vec<u32>)
        requires
            self.wf(),
        ensures
            page@ == page_of(participant_ids(self@.records, who, role), start as int, limit as int),
    {
        let mut page: Vec<u32> = Vec::new();
        let mut seen: u64 = 0;
        let mut k: usize = 0;
        let end: u64 = start as u64 + limit as u64;
        while k < self.records.len()
            invariant
                k <= self.records@.len(),
                self@.records.len() == self.records@.len(),
                self@.records.len() <= u32::MAX,
                end == start + limit,
                seen == participant_ids(self@.records.take(k as int), who, role).len(),
                seen <= k,
                page@ == page_of(participant_ids(self@.records.take(k as int), who, role), start as int, limit as int),
            decreases self.records@.len() - k,
        {
            let ghost before = participant_ids(self@.records.take(k as int), who, role);
            proof {
                assert(self@.records.take(k + 1).drop_last() =~= self@.records.take(k as int));
                assert(self@.records[k as int] == self.records@[k as int]@);
            }
            let c = self.records[k].contract();
            let hit = (role == 0 && c.client == who) || (role == 1 && c.freelancer == who);
            if hit {
                if seen >= start as u64 && seen < end {
                    page.push((k + 1) as u32);
                }
                seen = seen + 1;
                proof {
                    let after = participant_ids(self@.records.take(k + 1), who, role);
                    assert(after == before.push((k + 1) as u32));
                    assert(page@ =~= page_of(after, start as int, limit as int));
                }
            } else {
                proof {
                    let after = participant_ids(self@.records.take(k + 1), who, role);
                    assert(after == before);
                }
            }
            k = k + 1;
        }
        proof { assert(self@.records.take(k as int) =~= self@.records); }
        page
    }

    /// The milestones of contract `id`.
    pub fn get_milestones(&self, id: u32) -> (r: Result<&Vec<Milestone>, EscrowError>)
        requires
            self.wf(),
        ensures
            !has_contract(self@, id) ==> r is Err && r->Err_0 == EscrowError::ContractNotFound,
            has_contract(self@, id) ==> r is Ok && r->Ok_0@ == record_of(self@, id).milestones,
    {
        if id == 0 || id as usize > self.records.len() {
            return Err(EscrowError::ContractNotFound);
        }
        Ok(self.records[(id - 1) as usize].milestones())
    }

    /// The approvals recorded for milestone `index` of contract `id`;
    /// `None` while nobody has approved it.
    pub fn get_milestone_approvals(&self, id: u32, index: u32) -> (r: Result<Option<Approval>, EscrowError>)
        requires
            self.wf(),
        ensures
            !has_contract(self@, id) ==> r == Err::<Option<Approval>, EscrowError>(EscrowError::ContractNotFound),
            has_contract(self@, id) ==> {
                let v = record_of(self@, id);
                &&& index >= v.milestones.len() ==> r == Err::<Option<Approval>, EscrowError>(EscrowError::IndexOutOfBounds)
                &&& index < v.milestones.len() && v.approvals[index as int] == no_approval() ==>
                    r == Ok::<Option<Approval>, EscrowError>(None)
                &&& index < v.milestones.len() && v.approvals[index as int] != no_approval() ==>
                    r == Ok::<Option<Approval>, EscrowError>(Some(v.approvals[index as int]))
            },
    {
        if id == 0 || id as usize > self.records.len() {
            return Err(EscrowError::ContractNotFound);
        }
        proof { assert(view_wf(self@.records[id - 1])); }
        let rec = &self.records[(id - 1) as usize];
        if index as usize >= rec.milestones().len() {
            return Err(EscrowError::IndexOutOfBounds);
        }
        let a = rec.approvals()[index as usize];
        if !a.client && !a.freelancer && !a.arbiter {
            Ok(None)
        } else {
            Ok(Some(a))
        }
    }

    /// Milestone `index` of contract `id`.
    pub fn get_milestone(&self, id: u32, index: u32) -> (r: Result<&Milestone, EscrowError>)
        requires
            self.wf(),
        ensures
            !has_contract(self@, id) ==> r is Err && r->Err_0 == EscrowError::ContractNotFound,
            has_contract(self@, id) && index >= record_of(self@, id).milestones.len() ==>
                r is Err && r->Err_0 == EscrowError::IndexOutOfBounds,
            has_contract(self@, id) && index < record_of(self@, id).milestones.len() ==>
                r is Ok && *r->Ok_0 == record_of(self@, id).milestones[index as int],
    {
        if id == 0 || id as usize > self.records.len() {
            return Err(EscrowError::ContractNotFound);
        }
        let ms = self.records[(id - 1) as usize].milestones();
        if index as usize >= ms.len() {
            return Err(EscrowError::IndexOutOfBounds);
        }
        Ok(&ms[index as usize])
    }

    /// The work evidence submitted for milestone `index` of contract `id`,
    /// if any.
    pub fn get_work_evidence(&self, id: u32, index: u32) -> (r: Result<Option<&Vec<u8>>, EscrowError>)
        requires
            self.wf(),
        ensures
            !has_contract(self@, id) ==> r is Err && r->Err_0 == EscrowError::InvalidContractId,
            has_contract(self@, id) && index >= record_of(self@, id).milestones.len() ==>
                r is Err && r->Err_0 == EscrowError::IndexOutOfBounds,
            has_contract(self@, id) && index < record_of(self@, id).milestones.len() ==> {
                let m = record_of(self@, id).milestones[index as int];
                &&& r is Ok
                &&& m.work_evidence is None ==> r->Ok_0 is None
                &&& m.work_evidence is Some ==> r->Ok_0 is Some && r->Ok_0->Some_0@ == m.work_evidence->Some_0@
            },
    {
        if id == 0 || id as usize > self.records.len() {
            return Err(EscrowError::InvalidContractId);
        }
        let ms = self.records[(id - 1) as usize].milestones();
        if index as usize >= ms.len() {
            return Err(EscrowError::IndexOutOfBounds);
        }
        match &ms[index as usize].work_evidence {
            Some(e) => Ok(Some(e)),
            None => Ok(None),
        }
    }

    /// Whether milestone `index` of contract `id` is overdue at time `now`;
    /// false for an unknown contract or milestone.
    pub fn is_milestone_overdue(&self, id: u32, index: u32, now: u64) -> (b: bool)
        requires
            self.wf(),
        ensures
            b == (has_contract(self@, id) && index < record_of(self@, id).milestones.len()
                && overdue(record_of(self@, id).milestones[index as int], now)),
    {
        if id == 0 || id as usize > self.records.len() {
            return false;
        }
        let ms = self.records[(id - 1) as usize].milestones();
        if index as usize >= ms.len() {
            return false;
        }
        ms[index as usize].is_overdue(now)
    }

    /// Released milestones out of all for contract `id`; an unknown id
    /// reports zero of zero.
    pub fn get_milestone_progress(&self, id: u32) -> (p: MilestoneProgress)
        requires
            self.wf(),
        ensures
            !has_contract(self@, id) ==> p == (MilestoneProgress { completed: 0, total: 0 }),
            has_contract(self@, id) ==> p.completed == released_count(record_of(self@, id).milestones)
                && p.total == record_of(self@, id).milestones.len(),
    {
        if id == 0 || id as usize > self.records.len() {
            return MilestoneProgress { completed: 0, total: 0 };
        }
        proof { assert(view_wf(self@.records[id - 1])); }
        self.records[(id - 1) as usize].progress()
    }

    /// One page of contract `id`'s milestone listing; empty for an unknown id.
    pub fn get_milestones_page(&self, id: u32, start: u32, limit: u32) -> (page: Vec<MilestoneEntry>)
        requires
            self.wf(),
        ensures
            !has_contract(self@, id) ==> page@.len() == 0,
            has_contract(self@, id) ==> {
                let ms = record_of(self@, id).milestones;
                &&& page@.len() == page_len(ms.len() as int, start as int, limit as int)
                &&& forall|k: int| 0 <= k < page@.len() ==> {
                    &&& (#[trigger] page@[k]).index == start + k
                    &&& page@[k].amount == ms[start + k].amount
                    &&& page@[k].status == entry_status(ms[start + k])
                }
            },
    {
        if id == 0 || id as usize > self.records.len() {
            return Vec::new();
        }
        proof { assert(view_wf(self@.records[id - 1])); }
        self.records[(id - 1) as usize].milestones_page(start, limit)
    }

    /// Opens a new contract (see `EscrowRecord::create`) under the current
    /// ceiling on escrow totals and returns its id.
    pub fn create_contract(
        &mut self,
        client: AccountId,
        freelancer: AccountId,
        arbiter: Option<AccountId>,
        amounts: &[i128],
        auth: ReleaseAuthorization,
    ) -> (r: Result<u32, EscrowError>)
        requires
            old(self).wf(),
        ensures
            old(self)@.paused ==> r == Err::<u32, EscrowError>(EscrowError::ContractPaused) && final(self)@ == old(self)@,
            !old(self)@.paused && old(self)@.records.len() == u32::MAX ==>
                r == Err::<u32, EscrowError>(EscrowError::PotentialOverflow) && final(self)@ == old(self)@,
            !old(self)@.paused && old(self)@.records.len() < u32::MAX ==> {
                let outcome = create_outcome(client, freelancer, arbiter, amounts@, auth, old(self)@.max_escrow_total as int, old(self)@.max_milestones as int);
                &&& outcome is Err ==> r == Err::<u32, EscrowError>(outcome->Err_0) && final(self)@ == old(self)@
                &&& outcome is Ok ==> r == Ok::<u32, EscrowError>((old(self)@.records.len() + 1) as u32)
                    && final(self)@ == (PlatformView {
                        records: old(self)@.records.push(created_view(client, freelancer, arbiter, amounts@, auth)),
                        ..old(self)@
                    })
            },
            r is Ok ==> final(self).published() == old(self).published().push(contract_event(TopicName::Created, r->Ok_0, EventData::Parties { client, freelancer })),
            r is Err ==> final(self).published() == old(self).published(),
            final(self).wf(),
    {
        if self.paused {
            return Err(EscrowError::ContractPaused);
        }
        if self.records.len() >= u32::MAX as usize {
            return Err(EscrowError::PotentialOverflow);
        }
        let rec = EscrowRecord::create(client, freelancer, arbiter, amounts, auth, self.max_escrow_total, self.max_milestones)?;
        let ghost before = self@.records;
        self.records.push(rec);
        proof {
            let v = created_view(client, freelancer, arbiter, amounts@, auth);
            assert(self@.records =~= before.push(v));
            assert forall|f: AccountId| #[trigger] rated_count(self@.records, f) == reputation_count(self@.reputations, f) by {
                lemma_rated_count_push(before, v, f);
            }
        }
        let id = self.records.len() as u32;
        self.publish(new_contract_event(TopicName::Created, id, EventData::Parties { client, freelancer }));
        Ok(id)
    }

    /// Records a deposit into contract `id` (see `EscrowRecord::deposit`) and
    /// returns the transfer it orders: `amount` from the caller to the escrow.
    pub fn deposit_funds(&mut self, id: u32, caller: AccountId, amount: i128) -> (r: Result<Transfer, EscrowError>)
        requires
            old(self).wf(),
        ensures
            money_gate(old(self)@, id) is Err ==> r == Err::<Transfer, EscrowError>(money_gate(old(self)@, id)->Err_0) && final(self)@ == old(self)@,
            money_gate(old(self)@, id) is Ok ==> {
                let v = record_of(old(self)@, id);
                let outcome = deposit_outcome(v, caller, amount as int);
                &&& outcome is Err ==> r == Err::<Transfer, EscrowError>(outcome->Err_0) && final(self)@ == old(self)@
                &&& outcome is Ok ==> r == Ok::<Transfer, EscrowError>(deposit_transfer(caller, amount))
                    && final(self)@ == with_record(old(self)@, id, after_deposit(v, amount as int))
            },
            r is Ok ==> final(self).published() == old(self).published().push(contract_event(TopicName::Deposit, id, EventData::Amount(amount))),
            r is Err ==> final(self).published() == old(self).published(),
            final(self).wf(),
    {
        self.check_money_gate(id)?;
        let i = (id - 1) as usize;
        let ghost before = self@;
        proof { assert(view_wf(before.records[i as int])); }
        let mut rec = self.records.remove(i);
        let r = rec.deposit(caller, amount);
        self.records.insert(i, rec);
        proof { self.lemma_put_back(before, i as int); }
        match r {
            Ok(()) => {
                self.publish(new_contract_event(TopicName::Deposit, id, EventData::Amount(amount)));
                Ok(Transfer { from: Holder::Account(caller), to: Holder::Escrow, amount })
            },
            Err(e) => Err(e),
        }
    }

    /// Records an approval in contract `id` (see `EscrowRecord::approve`).
    pub fn approve_milestone_release(&mut self, id: u32, caller: AccountId, index: u32) -> (r: Result<(), EscrowError>)
        requires
            old(self).wf(),
        ensures
            gate(old(self)@, id) is Err ==> r == Err::<(), EscrowError>(gate(old(self)@, id)->Err_0) && final(self)@ == old(self)@,
            gate(old(self)@, id) is Ok ==> {
                let v = record_of(old(self)@, id);
                &&& r == approve_outcome(v, caller, index as int)
                &&& r is Ok ==> final(self)@ == with_record(old(self)@, id, after_approve(v, caller, index as int))
                &&& r is Err ==> final(self)@ == old(self)@
            },
            r is Ok ==> final(self).published() == old(self).published().push(milestone_event(TopicName::MilestoneApproved, id, index, EventData::Approval { index, approver: caller })),
            r is Err ==> final(self).published() == old(self).published(),
            final(self).wf(),
    {
        self.check_gate(id)?;
        let i = (id - 1) as usize;
        let ghost before = self@;
        proof { assert(view_wf(before.records[i as int])); }
        let mut rec = self.records.remove(i);
        let r = rec.approve(caller, index);
        self.records.insert(i, rec);
        proof { self.lemma_put_back(before, i as int); }
        if r.is_ok() {
            self.publish(new_milestone_event(TopicName::MilestoneApproved, id, index, EventData::Approval { index, approver: caller }));
        }
        r
    }

    /// Releases a milestone of contract `id` at the current fee rate (see
    /// `EscrowRecord::release`), adds the fee to the earned fees, and
    /// returns the freelancer's payout.
    pub fn release_milestone(&mut self, id: u32, caller: AccountId, index: u32) -> (r: Result<i128, EscrowError>)
        requires
            old(self).wf(),
        ensures
            money_gate(old(self)@, id) is Err ==> r == Err::<i128, EscrowError>(money_gate(old(self)@, id)->Err_0) && final(self)@ == old(self)@,
            money_gate(old(self)@, id) is Ok && !fee_room(old(self)@) ==>
                r == Err::<i128, EscrowError>(EscrowError::PotentialOverflow) && final(self)@ == old(self)@,
            money_gate(old(self)@, id) is Ok && fee_room(old(self)@) ==> {
                let v = record_of(old(self)@, id);
                let outcome = release_outcome(v, caller, index as int);
                &&& outcome is Err ==> r == Err::<i128, EscrowError>(outcome->Err_0) && final(self)@ == old(self)@
                &&& outcome is Ok ==> {
                    let amount = v.milestones[index as int].amount as int;
                    let fee = protocol_fee(amount, old(self)@.protocol_fee_bps as int)->Some_0;
                    &&& protocol_fee(amount, old(self)@.protocol_fee_bps as int) is Some
                    &&& r == Ok::<i128, EscrowError>((amount - fee) as i128)
                    &&& final(self)@ == (PlatformView {
                        accumulated_fees: (old(self)@.accumulated_fees + fee) as i128,
                        ..with_record(old(self)@, id, after_release(v, index as int))
                    })
                }
            },
            r is Ok ==> {
                let fee = protocol_fee(record_of(old(self)@, id).milestones[index as int].amount as int, old(self)@.protocol_fee_bps as int)->Some_0;
                final(self).published() == old(self).published() + release_events(id, index, r->Ok_0, fee as i128)
            },
            r is Err ==> final(self).published() == old(self).published(),
            final(self).wf(),
    {
        self.check_money_gate(id)?;
        if self.accumulated_fees > i128::MAX - MAX_SINGLE_AMOUNT_STROOPS {
            return Err(EscrowError::PotentialOverflow);
        }
        let i = (id - 1) as usize;
        let ghost before = self@;
        proof { assert(view_wf(before.records[i as int])); }
        let mut rec = self.records.remove(i);
        let r = rec.release(caller, index, self.protocol_fee_bps);
        self.records.insert(i, rec);
        proof { self.lemma_put_back(before, i as int); }
        match r {
            Err(e) => Err(e),
            Ok((payout, fee)) => {
                self.accumulated_fees = self.accumulated_fees + fee;
                self.publish(new_milestone_event(TopicName::MilestoneReleased, id, index, EventData::Amount(payout)));
                if fee > 0 {
                    self.publish(new_contract_event(TopicName::ProtocolFee, id, EventData::Amount(fee)));
                }
                Ok(payout)
            },
        }
    }

    /// Refunds milestones of contract `id` (see `EscrowRecord::refund`).
    pub fn refund_unreleased_milestones(&mut self, id: u32, caller: AccountId, indices: &[u32]) -> (r: Result<i128, EscrowError>)
        requires
            old(self).wf(),
        ensures
            money_gate(old(self)@, id) is Err ==> r == Err::<i128, EscrowError>(money_gate(old(self)@, id)->Err_0) && final(self)@ == old(self)@,
            money_gate(old(self)@, id) is Ok ==> {
                let v = record_of(old(self)@, id);
                let outcome = refund_outcome(v, caller, indices@);
                &&& outcome is Err ==> r == Err::<i128, EscrowError>(outcome->Err_0) && final(self)@ == old(self)@
                &&& outcome is Ok ==> r == Ok::<i128, EscrowError>(refund_scan(v.milestones, indices@)->Ok_0 as i128)
                    && final(self)@ == with_record(old(self)@, id, after_refund(v, indices@))
            },
            r is Ok ==> final(self).published() == old(self).published().push(contract_event(TopicName::Refunded, id, EventData::Amount(r->Ok_0))),
            r is Err ==> final(self).published() == old(self).published(),
            final(self).wf(),
    {
        self.check_money_gate(id)?;
        let i = (id - 1) as usize;
        let ghost before = self@;
        proof { assert(view_wf(before.records[i as int])); }
        let mut rec = self.records.remove(i);
        let r = rec.refund(caller, indices);
        self.records.insert(i, rec);
        proof { self.lemma_put_back(before, i as int); }
        match r {
            Ok(total) => {
                self.publish(new_contract_event(TopicName::Refunded, id, EventData::Amount(total)));
                Ok(total)
            },
            Err(e) => Err(e),
        }
    }

    /// Opens a dispute on contract `id` (see `EscrowRecord::raise_dispute`).
    pub fn raise_dispute(&mut self, id: u32, caller: AccountId) -> (r: Result<(), EscrowError>)
        requires
            old(self).wf(),
        ensures
            id_gate(old(self)@, id) is Err ==> r == Err::<(), EscrowError>(id_gate(old(self)@, id)->Err_0) && final(self)@ == old(self)@,
            id_gate(old(self)@, id) is Ok ==> {
                let v = record_of(old(self)@, id);
                &&& r == raise_dispute_outcome(v, caller)
                &&& r is Ok ==> final(self)@ == with_record(old(self)@, id,
                    EscrowView { contract: Contract { status: ContractStatus::Disputed, ..v.contract }, ..v })
                &&& r is Err ==> final(self)@ == old(self)@
            },
            r is Ok ==> final(self).published() == old(self).published().push(contract_event(TopicName::Dispute, id, EventData::Account(caller))),
            r is Err ==> final(self).published() == old(self).published(),
            final(self).wf(),
    {
        self.check_id_gate(id)?;
        let i = (id - 1) as usize;
        let ghost before = self@;
        proof { assert(view_wf(before.records[i as int])); }
        let mut rec = self.records.remove(i);
        let r = rec.raise_dispute(caller);
        self.records.insert(i, rec);
        proof { self.lemma_put_back(before, i as int); }
        if r.is_ok() {
            self.publish(new_contract_event(TopicName::Dispute, id, EventData::Account(caller)));
        }
        r
    }

    /// Settles the dispute on contract `id` (see `EscrowRecord::resolve_dispute`).
    pub fn resolve_dispute(&mut self, id: u32, caller: AccountId, resolution: DisputeResolution) -> (r: Result<(i128, i128), EscrowError>)
        requires
            old(self).wf(),
        ensures
            id_gate(old(self)@, id) is Err ==> r == Err::<(i128, i128), EscrowError>(id_gate(old(self)@, id)->Err_0) && final(self)@ == old(self)@,
            id_gate(old(self)@, id) is Ok ==> {
                let v = record_of(old(self)@, id);
                match resolve_dispute_outcome(v, caller, resolution) {
                    Err(e) => r == Err::<(i128, i128), EscrowError>(e) && final(self)@ == old(self)@,
                    Ok((a, b)) => r is Ok && r->Ok_0.0 == a && r->Ok_0.1 == b
                        && final(self)@ == with_record(old(self)@, id, after_resolve(v, a, b)),
                }
            },
            r is Ok ==> final(self).published() == old(self).published().push(contract_event(TopicName::Resolved, id, EventData::Split { to_client: r->Ok_0.0, to_freelancer: r->Ok_0.1 })),
            r is Err ==> final(self).published() == old(self).published(),
            final(self).wf(),
    {
        self.check_id_gate(id)?;
        let i = (id - 1) as usize;
        let ghost before = self@;
        proof { assert(view_wf(before.records[i as int])); }
        let mut rec = self.records.remove(i);
        let r = rec.resolve_dispute(caller, resolution);
        self.records.insert(i, rec);
        proof { self.lemma_put_back(before, i as int); }
        match r {
            Ok((a, b)) => {
                self.publish(new_contract_event(TopicName::Resolved, id, EventData::Split { to_client: a, to_freelancer: b }));
                Ok((a, b))
            },
            Err(e) => Err(e),
        }
    }

    /// Cancels contract `id` (see `EscrowRecord::cancel`) and returns what
    /// goes back to the client.
    pub fn cancel_contract(&mut self, id: u32, caller: AccountId) -> (r: Result<i128, EscrowError>)
        requires
            old(self).wf(),
        ensures
            money_gate(old(self)@, id) is Err ==> r == Err::<i128, EscrowError>(money_gate(old(self)@, id)->Err_0) && final(self)@ == old(self)@,
            money_gate(old(self)@, id) is Ok ==> {
                let v = record_of(old(self)@, id);
                &&& cancel_outcome(v, caller) is Err ==> r == Err::<i128, EscrowError>(cancel_outcome(v, caller)->Err_0)
                    && final(self)@ == old(self)@
                &&& cancel_outcome(v, caller) is Ok ==> r == Ok::<i128, EscrowError>(v.contract.total_deposited)
                    && final(self)@ == with_record(old(self)@, id, after_cancel(v))
            },
            r is Ok ==> final(self).published() == old(self).published().push(contract_event(TopicName::Cancelled, id, EventData::Amount(r->Ok_0))),
            r is Err ==> final(self).published() == old(self).published(),
            final(self).wf(),
    {
        self.check_money_gate(id)?;
        let i = (id - 1) as usize;
        let ghost before = self@;
        proof { assert(view_wf(before.records[i as int])); }
        let mut rec = self.records.remove(i);
        let r = rec.cancel(caller);
        self.records.insert(i, rec);
        proof { self.lemma_put_back(before, i as int); }
        match r {
            Ok(total) => {
                self.publish(new_contract_event(TopicName::Cancelled, id, EventData::Amount(total)));
                Ok(total)
            },
            Err(e) => Err(e),
        }
    }

    /// Attaches work evidence in contract `id` (see `EscrowRecord::submit_work_evidence`).
    pub fn submit_work_evidence(&mut self, id: u32, caller: AccountId, index: u32, evidence: Vec<u8>) -> (r: Result<(), EscrowError>)
        requires
            old(self).wf(),
        ensures
            id_gate(old(self)@, id) is Err ==> r == Err::<(), EscrowError>(id_gate(old(self)@, id)->Err_0) && final(self)@ == old(self)@,
            id_gate(old(self)@, id) is Ok ==> {
                let v = record_of(old(self)@, id);
                &&& r == evidence_outcome(v, caller, index as int, evidence@.len() as int)
                &&& r is Ok ==> final(self)@ == with_record(old(self)@, id, EscrowView {
                    milestones: v.milestones.update(index as int,
                        Milestone { work_evidence: Some(evidence), ..v.milestones[index as int] }),
                    ..v
                })
                &&& r is Err ==> final(self)@ == old(self)@
            },
            r is Ok ==> final(self).published() == old(self).published().push(milestone_event(TopicName::Evidence, id, index, EventData::Account(caller))),
            r is Err ==> final(self).published() == old(self).published(),
            final(self).wf(),
    {
        self.check_id_gate(id)?;
        let i = (id - 1) as usize;
        let ghost before = self@;
        proof { assert(view_wf(before.records[i as int])); }
        let mut rec = self.records.remove(i);
        let r = rec.submit_work_evidence(caller, index, evidence);
        self.records.insert(i, rec);
        proof { self.lemma_put_back(before, i as int); }
        if r.is_ok() {
            self.publish(new_milestone_event(TopicName::Evidence, id, index, EventData::Account(caller)));
        }
        r
    }

    /// Records the hash of the evidence for milestone `index` of contract
    /// `id` (see `EscrowRecord::set_evidence_hash`).
    pub fn set_milestone_evidence_hash(&mut self, id: u32, index: u32, hash: [u8; 32], caller: AccountId) -> (r: Result<(), EscrowError>)
        requires
            old(self).wf(),
        ensures
            gate(old(self)@, id) is Err ==> r == Err::<(), EscrowError>(gate(old(self)@, id)->Err_0) && final(self)@ == old(self)@,
            gate(old(self)@, id) is Ok ==> {
                let v = record_of(old(self)@, id);
                &&& r == evidence_hash_outcome(v, caller, index as int)
                &&& r is Ok ==> final(self)@ == with_record(old(self)@, id,
                    EscrowView { evidence_hashes: v.evidence_hashes.update(index as int, Some(hash)), ..v })
                &&& r is Err ==> final(self)@ == old(self)@
            },
            r is Ok ==> final(self).published() == old(self).published().push(milestone_event(TopicName::EvidenceHash, id, index, EventData::Account(caller))),
            r is Err ==> final(self).published() == old(self).published(),
            final(self).wf(),
    {
        self.check_gate(id)?;
        let i = (id - 1) as usize;
        let ghost before = self@;
        proof { assert(view_wf(before.records[i as int])); }
        let mut rec = self.records.remove(i);
        let r = rec.set_evidence_hash(caller, index, hash);
        self.records.insert(i, rec);
        proof { self.lemma_put_back(before, i as int); }
        if r.is_ok() {
            self.publish(new_milestone_event(TopicName::EvidenceHash, id, index, EventData::Account(caller)));
        }
        r
    }

    /// The evidence hash recorded for milestone `index` of contract `id`;
    /// `None` for an unknown contract or milestone, or before one is recorded.
    pub fn get_milestone_evidence_hash(&self, id: u32, index: u32) -> (h: Option<[u8; 32]>)
        requires
            self.wf(),
        ensures
            has_contract(self@, id) && index < record_of(self@, id).milestones.len() ==>
                h == record_of(self@, id).evidence_hashes[index as int],
            !(has_contract(self@, id) && index < record_of(self@, id).milestones.len()) ==> h is None,
    {
        if id == 0 || id as usize > self.records.len() {
            return None;
        }
        proof { assert(view_wf(self@.records[id - 1])); }
        self.records[(id - 1) as usize].evidence_hash(index)
    }

    /// Records the client's rating of the freelancer for contract `id` (see
    /// `EscrowRecord::issue_reputation`) under the current rating rules: the
    /// rating joins the freelancer's record and the comment is kept.
    pub fn issue_reputation(&mut self, id: u32, caller: AccountId, rating: u32, comment: &[u8]) -> (r: Result<(), EscrowError>)
        requires
            old(self).wf(),
        ensures
            id_gate(old(self)@, id) is Err ==> r == Err::<(), EscrowError>(id_gate(old(self)@, id)->Err_0) && final(self)@ == old(self)@,
            id_gate(old(self)@, id) is Ok ==> {
                let v = record_of(old(self)@, id);
                let f = v.contract.freelancer;
                &&& r == reputation_outcome(v, caller, rating as int, comment@.len() as int, old(self)@.reputation_config)
                &&& r is Ok ==> final(self)@ == (PlatformView {
                    reputations: old(self)@.reputations.insert(f, after_rating(reputation_of(old(self)@.reputations, f), rating)),
                    comments: old(self)@.comments.insert(id, comment@),
                    ..with_record(old(self)@, id, EscrowView { contract: Contract { reputation_issued: true, ..v.contract }, ..v })
                })
                &&& r is Err ==> final(self)@ == old(self)@
            },
            r is Ok ==> final(self).published() == old(self).published().push(contract_event(TopicName::ReputationIssued, id, EventData::Reputation { freelancer: record_of(old(self)@, id).contract.freelancer, rating })),
            r is Err ==> final(self).published() == old(self).published(),
            final(self).wf(),
    {
        self.check_id_gate(id)?;
        let i = (id - 1) as usize;
        let ghost before = self@;
        proof { assert(view_wf(before.records[i as int])); }
        let f = self.records[i].contract().freelancer;
        let prev: Option<Reputation> = match self.reputations.get(&f) {
            Some(rep) => Some(*rep),
            None => None,
        };
        let cfg = self.reputation_config;
        let mut rec = self.records.remove(i);
        let r = rec.issue_reputation(caller, rating, comment, cfg);
        self.records.insert(i, rec);
        if r.is_err() {
            proof { self.lemma_put_back(before, i as int); }
            return r;
        }
        let ghost v = before.records[i as int];
        let ghost nv = EscrowView { contract: Contract { reputation_issued: true, ..v.contract }, ..v };
        proof {
            assert(self@.records =~= before.records.update(i as int, nv));
            lemma_rated_count_update(before.records, i as int, nv, f);
            lemma_rated_count_bound(self@.records, f);
            assert(prev == reputation_of(before.reputations, f));
        }
        let updated = record_rating(prev, rating);
        self.reputations.insert(f, updated);
        self.comments.insert(id, vstd::slice::slice_to_vec(comment));
        proof {
            assert(self@.comments =~= before.comments.insert(id, comment@));
            assert forall|g: AccountId| #[trigger] rated_count(self@.records, g) == reputation_count(self@.reputations, g) by {
                lemma_rated_count_update(before.records, i as int, nv, g);
            }
            assert(self@ == (PlatformView {
                reputations: before.reputations.insert(f, after_rating(reputation_of(before.reputations, f), rating)),
                comments: before.comments.insert(id, comment@),
                ..with_record(before, id, nv)
            }));
        }
        self.publish(new_contract_event(TopicName::ReputationIssued, id, EventData::Reputation { freelancer: f, rating }));
        Ok(())
    }

    /// The most milestones a new contract may have.
    pub fn max_milestones(&self) -> (m: u32)
        ensures
            m == self@.max_milestones,
    {
        self.max_milestones
    }

    /// Sets the most milestones a new contract may have; administrator only,
    /// between `MIN_MAX_MILESTONES` and `MAX_MAX_MILESTONES`. Reachable while
    /// paused.
    pub fn set_max_milestones(&mut self, caller: AccountId, max_milestones: u32) -> (r: Result<(), EscrowError>)
        requires
            old(self).wf(),
        ensures
            caller != old(self)@.admin ==> r == Err::<(), EscrowError>(EscrowError::UnauthorizedRole) && final(self)@ == old(self)@,
            caller == old(self)@.admin && !(MIN_MAX_MILESTONES <= max_milestones <= MAX_MAX_MILESTONES) ==>
                r == Err::<(), EscrowError>(EscrowError::InvalidProtocolParameters) && final(self)@ == old(self)@,
            caller == old(self)@.admin && MIN_MAX_MILESTONES <= max_milestones <= MAX_MAX_MILESTONES ==>
                r is Ok && final(self)@ == (PlatformView { max_milestones, ..old(self)@ }),
            r is Ok ==> final(self).published() == old(self).published().push(platform_event(TopicName::Limits, EventData::Value(max_milestones as u64))),
            r is Err ==> final(self).published() == old(self).published(),
            final(self).wf(),
    {
        if caller != self.admin {
            return Err(EscrowError::UnauthorizedRole);
        }
        if max_milestones < MIN_MAX_MILESTONES || max_milestones > MAX_MAX_MILESTONES {
            return Err(EscrowError::InvalidProtocolParameters);
        }
        self.max_milestones = max_milestones;
        self.publish(new_platform_event(TopicName::Limits, EventData::Value(max_milestones as u64)));
        Ok(())
    }

    /// The current administrator.
    pub fn admin(&self) -> (a: AccountId)
        ensures
            a == self@.admin,
    {
        self.admin
    }

    /// The account proposed as the next administrator, if any.
    pub fn pending_admin(&self) -> (a: Option<AccountId>)
        ensures
            a == (match self@.pending_admin {
                Some(p) => Some(p.proposed),
                None => None,
            }),
    {
        match self.pending_admin {
            Some(p) => Some(p.proposed),
            None => None,
        }
    }

    /// Proposes `new_admin` as the next administrator at ledger `ledger`,
    /// replacing any earlier proposal; administrator only, and not oneself.
    pub fn propose_admin(&mut self, caller: AccountId, new_admin: AccountId, ledger: u32) -> (r: Result<(), EscrowError>)
        requires
            old(self).wf(),
        ensures
            caller != old(self)@.admin ==> r == Err::<(), EscrowError>(EscrowError::UnauthorizedRole) && final(self)@ == old(self)@,
            caller == old(self)@.admin && new_admin == old(self)@.admin ==>
                r == Err::<(), EscrowError>(EscrowError::CannotProposeSelf) && final(self)@ == old(self)@,
            caller == old(self)@.admin && new_admin != old(self)@.admin ==> r is Ok
                && final(self)@ == (PlatformView {
                    pending_admin: Some(PendingAdmin { proposed: new_admin, proposed_at: ledger }),
                    ..old(self)@
                }),
            r is Ok ==> final(self).published() == old(self).published().push(step_event(TopicName::Admin, Step::Proposed, EventData::Account(new_admin))),
            r is Err ==> final(self).published() == old(self).published(),
            final(self).wf(),
    {
        if caller != self.admin {
            return Err(EscrowError::UnauthorizedRole);
        }
        if new_admin == self.admin {
            return Err(EscrowError::CannotProposeSelf);
        }
        self.pending_admin = Some(PendingAdmin { proposed: new_admin, proposed_at: ledger });
        self.publish(new_step_event(TopicName::Admin, Step::Proposed, EventData::Account(new_admin)));
        Ok(())
    }

    /// The proposed account takes over as administrator at ledger `ledger`
    /// (see `accept_admin_outcome`); the proposal is then gone.
    pub fn accept_admin(&mut self, caller: AccountId, ledger: u32) -> (r: Result<(), EscrowError>)
        requires
            old(self).wf(),
        ensures
            r == accept_admin_outcome(old(self)@.pending_admin, caller, ledger),
            r is Ok ==> final(self)@ == (PlatformView { admin: caller, pending_admin: None, ..old(self)@ }),
            r is Err ==> final(self)@ == old(self)@,
            r is Ok ==> final(self).published() == old(self).published().push(step_event(TopicName::Admin, Step::Accepted, EventData::Account(caller))),
            r is Err ==> final(self).published() == old(self).published(),
            final(self).wf(),
    {
        check_admin_acceptance(self.pending_admin, caller, ledger)?;
        self.admin = caller;
        self.pending_admin = None;
        self.publish(new_step_event(TopicName::Admin, Step::Accepted, EventData::Account(caller)));
        Ok(())
    }

    /// Withdraws the proposal of a new administrator; administrator only.
    pub fn cancel_admin(&mut self, caller: AccountId) -> (r: Result<(), EscrowError>)
        requires
            old(self).wf(),
        ensures
            caller != old(self)@.admin ==> r == Err::<(), EscrowError>(EscrowError::UnauthorizedRole) && final(self)@ == old(self)@,
            caller == old(self)@.admin && old(self)@.pending_admin is None ==>
                r == Err::<(), EscrowError>(EscrowError::InvalidState) && final(self)@ == old(self)@,
            caller == old(self)@.admin && old(self)@.pending_admin is Some ==>
                r is Ok && final(self)@ == (PlatformView { pending_admin: None, ..old(self)@ }),
            r is Ok ==> final(self).published() == old(self).published().push(step_event(TopicName::Admin, Step::Cancelled, EventData::Empty)),
            r is Err ==> final(self).published() == old(self).published(),
            final(self).wf(),
    {
        if caller != self.admin {
            return Err(EscrowError::UnauthorizedRole);
        }
        if self.pending_admin.is_none() {
            return Err(EscrowError::InvalidState);
        }
        self.pending_admin = None;
        self.publish(new_step_event(TopicName::Admin, Step::Cancelled, EventData::Empty));
        Ok(())
    }

    /// Clears a proposal of a new administrator that expired unaccepted (see
    /// `recover_admin_outcome`); anyone may do so.
    pub fn recover_admin_proposal(&mut self, ledger: u32) -> (r: Result<(), EscrowError>)
        requires
            old(self).wf(),
        ensures
            r == recover_admin_outcome(old(self)@.pending_admin, ledger),
            r is Ok ==> final(self)@ == (PlatformView { pending_admin: None, ..old(self)@ }),
            r is Err ==> final(self)@ == old(self)@,
            r is Ok ==> final(self).published() == old(self).published().push(step_event(TopicName::Admin, Step::Recovered, EventData::Empty)),
            r is Err ==> final(self).published() == old(self).published(),
            final(self).wf(),
    {
        check_admin_recovery(self.pending_admin, ledger)?;
        self.pending_admin = None;
        self.publish(new_step_event(TopicName::Admin, Step::Recovered, EventData::Empty));
        Ok(())
    }

    /// The id the next governance proposal will get.
    pub fn next_governance_proposal_id(&self) -> (n: u64)
        requires
            self.wf(),
        ensures
            n == self@.proposals.len() + 1,
    {
        self.proposals.len() as u64 + 1
    }

    /// Proposal `id`, if there is one.
    pub fn get_governance_proposal(&self, id: u64) -> (r: Option<GovernanceProposal>)
        requires
            self.wf(),
        ensures
            1 <= id <= self@.proposals.len() ==> r == Some(self@.proposals[id - 1]),
            !(1 <= id <= self@.proposals.len()) ==> r is None,
    {
        if id == 0 || id > self.proposals.len() as u64 {
            return None;
        }
        Some(self.proposals[(id - 1) as usize])
    }

    /// Requests the parameter change `kind` at ledger `ledger`; administrator
    /// only, and the change must be valid (see `kind_outcome`). The proposal
    /// waits for a second party's decision and returns its id.
    pub fn request_governance_proposal(&mut self, caller: AccountId, kind: GovernanceProposalKind, ledger: u32) -> (r: Result<u64, EscrowError>)
        requires
            old(self).wf(),
        ensures
            caller != old(self)@.admin ==> r == Err::<u64, EscrowError>(EscrowError::UnauthorizedRole) && final(self)@ == old(self)@,
            caller == old(self)@.admin && kind_outcome(kind) is Err ==>
                r == Err::<u64, EscrowError>(kind_outcome(kind)->Err_0) && final(self)@ == old(self)@,
            caller == old(self)@.admin && kind_outcome(kind) is Ok && old(self)@.proposals.len() + 1 >= u64::MAX ==>
                r == Err::<u64, EscrowError>(EscrowError::PotentialOverflow) && final(self)@ == old(self)@,
            caller == old(self)@.admin && kind_outcome(kind) is Ok && old(self)@.proposals.len() + 1 < u64::MAX ==> {
                let id = (old(self)@.proposals.len() + 1) as u64;
                &&& r == Ok::<u64, EscrowError>(id)
                &&& final(self)@ == (PlatformView {
                    proposals: old(self)@.proposals.push(GovernanceProposal {
                        id,
                        kind,
                        requester: caller,
                        approver: None,
                        state: GovernanceProposalState::Pending,
                        created_at_ledger: ledger,
                        expires_at_ledger: (ledger + GOVERNANCE_PROPOSAL_TTL_LEDGERS) as u64,
                    }),
                    ..old(self)@
                })
            },
            r is Ok ==> final(self).published() == old(self).published().push(step_event(TopicName::Governance, Step::Requested, EventData::Value(r->Ok_0))),
            r is Err ==> final(self).published() == old(self).published(),
            final(self).wf(),
    {
        if caller != self.admin {
            return Err(EscrowError::UnauthorizedRole);
        }
        validate_proposal_kind(kind)?;
        if self.proposals.len() as u64 >= u64::MAX - 1 {
            return Err(EscrowError::PotentialOverflow);
        }
        let id = self.proposals.len() as u64 + 1;
        let proposal = GovernanceProposal {
            id,
            kind,
            requester: caller,
            approver: None,
            state: GovernanceProposalState::Pending,
            created_at_ledger: ledger,
            expires_at_ledger: ledger as u64 + GOVERNANCE_PROPOSAL_TTL_LEDGERS as u64,
        };
        self.proposals.push(proposal);
        self.publish(new_step_event(TopicName::Governance, Step::Requested, EventData::Value(id)));
        Ok(id)
    }

    /// `who` approves (when `approve` holds) or rejects proposal `id` at
    /// ledger `ledger` (see `decide_outcome`).
    fn decide_governance_proposal(&mut self, id: u64, who: AccountId, ledger: u32, approve: bool) -> (r: Result<(), EscrowError>)
        requires
            old(self).wf(),
        ensures
            !(1 <= id <= old(self)@.proposals.len()) ==>
                r == Err::<(), EscrowError>(EscrowError::GovernanceProposalNotFound) && final(self)@ == old(self)@,
            1 <= id <= old(self)@.proposals.len() ==> {
                let p = old(self)@.proposals[id - 1];
                &&& r == decide_outcome(p, who, ledger)
                &&& r is Err ==> final(self)@ == old(self)@
                &&& r is Ok ==> final(self)@ == (PlatformView {
                    proposals: old(self)@.proposals.update(id - 1, GovernanceProposal {
                        approver: Some(who),
                        state: if approve { GovernanceProposalState::Approved } else { GovernanceProposalState::Rejected },
                        ..p
                    }),
                    ..old(self)@
                })
            },
            final(self).published() == old(self).published(),
            final(self).wf(),
    {
        if id == 0 || id > self.proposals.len() as u64 {
            return Err(EscrowError::GovernanceProposalNotFound);
        }
        let i = (id - 1) as usize;
        let decided = decide_proposal(self.proposals[i], who, ledger, approve)?;
        self.proposals.set(i, decided);
        Ok(())
    }

    /// A second party approves proposal `id` at ledger `ledger`.
    pub fn approve_governance_proposal(&mut self, id: u64, approver: AccountId, ledger: u32) -> (r: Result<(), EscrowError>)
        requires
            old(self).wf(),
        ensures
            !(1 <= id <= old(self)@.proposals.len()) ==>
                r == Err::<(), EscrowError>(EscrowError::GovernanceProposalNotFound) && final(self)@ == old(self)@,
            1 <= id <= old(self)@.proposals.len() ==> {
                let p = old(self)@.proposals[id - 1];
                &&& r == decide_outcome(p, approver, ledger)
                &&& r is Err ==> final(self)@ == old(self)@
                &&& r is Ok ==> final(self)@ == (PlatformView {
                    proposals: old(self)@.proposals.update(id - 1, GovernanceProposal {
                        approver: Some(approver),
                        state: GovernanceProposalState::Approved,
                        ..p
                    }),
                    ..old(self)@
                })
            },
            r is Ok ==> final(self).published() == old(self).published().push(step_event(TopicName::Governance, Step::Approved, EventData::Value(id))),
            r is Err ==> final(self).published() == old(self).published(),
            final(self).wf(),
    {
        let r = self.decide_governance_proposal(id, approver, ledger, true);
        if r.is_ok() {
            self.publish(new_step_event(TopicName::Governance, Step::Approved, EventData::Value(id)));
        }
        r
    }

    /// A second party rejects proposal `id` at ledger `ledger`; a rejected
    /// proposal never takes effect.
    pub fn reject_governance_proposal(&mut self, id: u64, rejector: AccountId, ledger: u32) -> (r: Result<(), EscrowError>)
        requires
            old(self).wf(),
        ensures
            !(1 <= id <= old(self)@.proposals.len()) ==>
                r == Err::<(), EscrowError>(EscrowError::GovernanceProposalNotFound) && final(self)@ == old(self)@,
            1 <= id <= old(self)@.proposals.len() ==> {
                let p = old(self)@.proposals[id - 1];
                &&& r == decide_outcome(p, rejector, ledger)
                &&& r is Err ==> final(self)@ == old(self)@
                &&& r is Ok ==> final(self)@ == (PlatformView {
                    proposals: old(self)@.proposals.update(id - 1, GovernanceProposal {
                        approver: Some(rejector),
                        state: GovernanceProposalState::Rejected,
                        ..p
                    }),
                    ..old(self)@
                })
            },
            r is Ok ==> final(self).published() == old(self).published().push(step_event(TopicName::Governance, Step::Rejected, EventData::Value(id))),
            r is Err ==> final(self).published() == old(self).published(),
            final(self).wf(),
    {
        let r = self.decide_governance_proposal(id, rejector, ledger, false);
        if r.is_ok() {
            self.publish(new_step_event(TopicName::Governance, Step::Rejected, EventData::Value(id)));
        }
        r
    }

    /// Puts approved proposal `id` into effect at ledger `ledger`;
    /// administrator only (see `apply_outcome`). The proposal is then applied
    /// for good.
    pub fn apply_governance_proposal(&mut self, caller: AccountId, id: u64, ledger: u32) -> (r: Result<(), EscrowError>)
        requires
            old(self).wf(),
        ensures
            caller != old(self)@.admin ==> r == Err::<(), EscrowError>(EscrowError::UnauthorizedRole) && final(self)@ == old(self)@,
            caller == old(self)@.admin && !(1 <= id <= old(self)@.proposals.len()) ==>
                r == Err::<(), EscrowError>(EscrowError::GovernanceProposalNotFound) && final(self)@ == old(self)@,
            caller == old(self)@.admin && 1 <= id <= old(self)@.proposals.len() ==> {
                let p = old(self)@.proposals[id - 1];
                &&& r == apply_outcome(p, ledger)
                &&& r is Err ==> final(self)@ == old(self)@
                &&& r is Ok ==> final(self)@ == (PlatformView {
                    proposals: old(self)@.proposals.update(id - 1,
                        GovernanceProposal { state: GovernanceProposalState::Applied, ..p }),
                    ..with_kind_applied(old(self)@, p.kind)
                })
            },
            r is Ok ==> final(self).published() == old(self).published().push(step_event(TopicName::Governance, Step::Applied, EventData::Value(id))),
            r is Err ==> final(self).published() == old(self).published(),
            final(self).wf(),
    {
        if caller != self.admin {
            return Err(EscrowError::UnauthorizedRole);
        }
        if id == 0 || id > self.proposals.len() as u64 {
            return Err(EscrowError::GovernanceProposalNotFound);
        }
        let i = (id - 1) as usize;
        let p = self.proposals[i];
        check_apply(p, ledger)?;
        proof { assert(kind_outcome(self@.proposals[i as int].kind) is Ok); }
        match p.kind {
            GovernanceProposalKind::SetProtocolFeeBps(b) => {
                self.protocol_fee_bps = b;
            },
            GovernanceProposalKind::SetGovernedParams(g) => {
                self.protocol_fee_bps = g.protocol_fee_bps;
                self.max_escrow_total = g.max_escrow_total_stroops;
            },
            GovernanceProposalKind::SetMaxMilestones(n) => {
                self.max_milestones = n;
            },
        }
        self.proposals.set(i, GovernanceProposal { state: GovernanceProposalState::Applied, ..p });
        self.publish(new_step_event(TopicName::Governance, Step::Applied, EventData::Value(id)));
        Ok(())
    }

    /// The launch checklist: the platform is initialized (it always is once
    /// built), whether the governed parameters were set, and whether the
    /// emergency controls were exercised.
    pub fn get_mainnet_readiness_info(&self) -> (info: MainnetReadinessInfo)
        ensures
            info.initialized,
            info.governed_params_set == self@.governed_params_set,
            info.emergency_controls_enabled == self@.emergency_controls_exercised,
    {
        MainnetReadinessInfo {
            initialized: true,
            governed_params_set: self.governed_params_set,
            emergency_controls_enabled: self.emergency_controls_exercised,
        }
    }

    /// The id the next contract will get.
    pub fn next_contract_id(&self) -> (n: u64)
        requires
            self.wf(),
        ensures
            n == self@.records.len() + 1,
    {
        self.records.len() as u64 + 1
    }

    /// The rules ratings must follow.
    pub fn reputation_config(&self) -> (c: ReputationConfig)
        ensures
            c == self@.reputation_config,
    {
        self.reputation_config
    }

    /// Sets the rules ratings must follow; administrator only, and the rules
    /// must satisfy `config_valid`. Reachable while paused.
    pub fn set_reputation_config(&mut self, caller: AccountId, min_rating: u32, max_rating: u32, max_comment_bytes: u32) -> (r: Result<(), EscrowError>)
        requires
            old(self).wf(),
        ensures
            ({
                let c = ReputationConfig { min_rating, max_rating, max_comment_bytes };
                &&& caller != old(self)@.admin ==> r == Err::<(), EscrowError>(EscrowError::UnauthorizedRole) && final(self)@ == old(self)@
                &&& caller == old(self)@.admin && !config_valid(c) ==>
                    r == Err::<(), EscrowError>(EscrowError::InvalidProtocolParameters) && final(self)@ == old(self)@
                &&& caller == old(self)@.admin && config_valid(c) ==>
                    r is Ok && final(self)@ == (PlatformView { reputation_config: c, ..old(self)@ })
            }),
            r is Ok ==> final(self).published() == old(self).published().push(platform_event(TopicName::ReputationConfig, EventData::Empty)),
            r is Err ==> final(self).published() == old(self).published(),
            final(self).wf(),
    {
        if caller != self.admin {
            return Err(EscrowError::UnauthorizedRole);
        }
        let c = validate_reputation_config(min_rating, max_rating, max_comment_bytes)?;
        self.reputation_config = c;
        self.publish(new_platform_event(TopicName::ReputationConfig, EventData::Empty));
        Ok(())
    }

    /// `f`'s rating record, if `f` was ever rated.
    pub fn get_reputation(&self, f: AccountId) -> (r: Option<Reputation>)
        ensures
            r == reputation_of(self@.reputations, f),
    {
        match self.reputations.get(&f) {
            Some(rep) => Some(*rep),
            None => None,
        }
    }

    /// `f`'s average rating scaled by `RATING_SCALE`; `None` if `f` was never
    /// rated.
    pub fn get_average_rating(&self, f: AccountId) -> (a: Option<u64>)
        requires
            self.wf(),
        ensures
            match reputation_of(self@.reputations, f) {
                None => a is None,
                Some(rep) => a == scaled_average(rep),
            },
    {
        match self.reputations.get(&f) {
            Some(rep) => average_rating(*rep),
            None => None,
        }
    }

    /// How many of `f`'s contracts completed and still await the client's
    /// rating.
    pub fn get_pending_reputation_credits(&self, f: AccountId) -> (n: u32)
        requires
            self.wf(),
        ensures
            n == pending_count(self@.records, f),
    {
        let mut n: u32 = 0;
        let mut k: usize = 0;
        while k < self.records.len()
            invariant
                k <= self.records@.len(),
                self@.records.len() == self.records@.len(),
                self@.records.len() <= u32::MAX,
                n == pending_count(self@.records.take(k as int), f),
                n <= k,
            decreases self.records@.len() - k,
        {
            let c = self.records[k].contract();
            proof {
                assert(self@.records.take(k + 1).drop_last() =~= self@.records.take(k as int));
                assert(self@.records[k as int] == self.records@[k as int]@);
            }
            if c.freelancer == f && c.status == ContractStatus::Completed && !c.reputation_issued {
                n = n + 1;
            }
            k = k + 1;
        }
        proof { assert(self@.records.take(k as int) =~= self@.records); }
        n
    }

    /// The comment left with the rating of contract `id`, if it was rated.
    pub fn get_reputation_comment(&self, id: u32) -> (r: Result<Option<&Vec<u8>>, EscrowError>)
        requires
            self.wf(),
        ensures
            !has_contract(self@, id) ==> r is Err && r->Err_0 == EscrowError::InvalidContractId,
            has_contract(self@, id) && !self@.comments.contains_key(id) ==> r is Ok && r->Ok_0 is None,
            has_contract(self@, id) && self@.comments.contains_key(id) ==>
                r is Ok && r->Ok_0 is Some && r->Ok_0->Some_0@ == self@.comments[id],
    {
        if id == 0 || id as usize > self.records.len() {
            return Err(EscrowError::InvalidContractId);
        }
        Ok(self.comments.get(&id))
    }

    /// After a record is taken out at `i` and put back, the platform equals
    /// the one before with that record replaced, and keeps its invariant.
    proof fn lemma_put_back(&self, before: PlatformView, i: int)
        requires
            platform_wf(before),
            0 <= i < before.records.len(),
            self@.records.len() == before.records.len(),
            forall|j: int| 0 <= j < before.records.len() && j != i ==> #[trigger] self@.records[j] == before.records[j],
            view_wf(self@.records[i]),
            self@.records[i].contract.freelancer == before.records[i].contract.freelancer,
            self@.records[i].contract.reputation_issued == before.records[i].contract.reputation_issued,
            self@ == (PlatformView { records: self@.records, ..before }),
        ensures
            self@ == with_record(before, (i + 1) as u32, self@.records[i]),
            self@.records[i] == before.records[i] ==> self@ == before,
            platform_wf(self@),
    {
        assert(self@.records =~= before.records.update(i, self@.records[i]));
        if self@.records[i] == before.records[i] {
            assert(self@.records =~= before.records);
        }
        assert forall|f: AccountId| #[trigger] rated_count(self@.records, f) == reputation_count(self@.reputations, f) by {
            lemma_rated_count_update(before.records, i, self@.records[i], f);
        }
    }

    /// Withdraws `amount` of the earned fees at ledger `ledger`;
    /// administrator only, not while paused. The amount must be positive, at
    /// most `MAX_SINGLE_AMOUNT_STROOPS`, covered by the fees earned, requested
    /// once the wait since the last withdrawal is over, and within the share
    /// of the earned fees that the cap allows. The ledger becomes the last
    /// withdrawal's. Returns the transfer it orders: `amount` from the escrow
    /// to `destination`.
    pub fn withdraw_protocol_fees(&mut self, caller: AccountId, amount: i128, destination: AccountId, ledger: u32) -> (r: Result<Transfer, EscrowError>)
        requires
            old(self).wf(),
        ensures
            withdraw_outcome(old(self)@, caller, amount as int, ledger) is Err ==>
                r == Err::<Transfer, EscrowError>(withdraw_outcome(old(self)@, caller, amount as int, ledger)->Err_0),
            withdraw_outcome(old(self)@, caller, amount as int, ledger) is Ok ==>
                r == Ok::<Transfer, EscrowError>(Transfer { from: Holder::Escrow, to: Holder::Account(destination), amount }),
            r is Ok ==> final(self)@ == (PlatformView {
                accumulated_fees: (old(self)@.accumulated_fees - amount) as i128,
                last_fee_withdrawal_ledger: ledger,
                ..old(self)@
            }),
            r is Err ==> final(self)@ == old(self)@,
            r is Ok ==> final(self).published() == old(self).published().push(platform_event(TopicName::Withdraw, EventData::Amount(amount))),
            r is Err ==> final(self).published() == old(self).published(),
            final(self).wf(),
    {
        if self.paused {
            return Err(EscrowError::ContractPaused);
        }
        if caller != self.admin {
            return Err(EscrowError::UnauthorizedRole);
        }
        if amount <= 0 {
            return Err(EscrowError::AmountMustBePositive);
        }
        if amount > MAX_SINGLE_AMOUNT_STROOPS {
            return Err(EscrowError::InvalidWithdrawalAmount);
        }
        if amount > self.accumulated_fees {
            return Err(EscrowError::InsufficientAccumulatedFees);
        }
        if self.last_fee_withdrawal_ledger != 0 && self.fee_withdrawal_cooldown != 0
            && (ledger as u64) < self.last_fee_withdrawal_ledger as u64 + self.fee_withdrawal_cooldown as u64 {
            return Err(EscrowError::FeeWithdrawalCooldownActive);
        }
        if self.fee_withdrawal_cap_bps != 0
            && amount > fee_withdrawal_allowance(self.accumulated_fees, self.fee_withdrawal_cap_bps) {
            return Err(EscrowError::FeeWithdrawalCapExceeded);
        }
        self.accumulated_fees = self.accumulated_fees - amount;
        self.last_fee_withdrawal_ledger = ledger;
        self.publish(new_platform_event(TopicName::Withdraw, EventData::Amount(amount)));
        Ok(Transfer { from: Holder::Escrow, to: Holder::Account(destination), amount })
    }

    /// Sets the share of the earned fees, in basis points, that one
    /// withdrawal may take (0 lifts the limit); administrator only, at most
    /// 10,000. Reachable while paused.
    pub fn set_fee_withdrawal_cap(&mut self, caller: AccountId, cap_bps: u32) -> (r: Result<(), EscrowError>)
        requires
            old(self).wf(),
        ensures
            caller != old(self)@.admin ==> r == Err::<(), EscrowError>(EscrowError::UnauthorizedRole) && final(self)@ == old(self)@,
            caller == old(self)@.admin && cap_bps > MAX_FEE_BPS ==>
                r == Err::<(), EscrowError>(EscrowError::InvalidProtocolParameters) && final(self)@ == old(self)@,
            caller == old(self)@.admin && cap_bps <= MAX_FEE_BPS ==>
                r is Ok && final(self)@ == (PlatformView { fee_withdrawal_cap_bps: cap_bps, ..old(self)@ }),
            r is Ok ==> final(self).published() == old(self).published().push(platform_event(TopicName::FeeLimits, EventData::Value(cap_bps as u64))),
            r is Err ==> final(self).published() == old(self).published(),
            final(self).wf(),
    {
        if caller != self.admin {
            return Err(EscrowError::UnauthorizedRole);
        }
        if cap_bps > MAX_FEE_BPS {
            return Err(EscrowError::InvalidProtocolParameters);
        }
        self.fee_withdrawal_cap_bps = cap_bps;
        self.publish(new_platform_event(TopicName::FeeLimits, EventData::Value(cap_bps as u64)));
        Ok(())
    }

    /// Sets how many ledgers must pass between two fee withdrawals (0 lifts
    /// the wait); administrator only, at most `MAX_FEE_WITHDRAWAL_COOLDOWN`.
    /// Reachable while paused.
    pub fn set_fee_withdrawal_cooldown(&mut self, caller: AccountId, ledgers: u32) -> (r: Result<(), EscrowError>)
        requires
            old(self).wf(),
        ensures
            caller != old(self)@.admin ==> r == Err::<(), EscrowError>(EscrowError::UnauthorizedRole) && final(self)@ == old(self)@,
            caller == old(self)@.admin && ledgers > MAX_FEE_WITHDRAWAL_COOLDOWN ==>
                r == Err::<(), EscrowError>(EscrowError::InvalidProtocolParameters) && final(self)@ == old(self)@,
            caller == old(self)@.admin && ledgers <= MAX_FEE_WITHDRAWAL_COOLDOWN ==>
                r is Ok && final(self)@ == (PlatformView { fee_withdrawal_cooldown: ledgers, ..old(self)@ }),
            r is Ok ==> final(self).published() == old(self).published().push(platform_event(TopicName::FeeLimits, EventData::Value(ledgers as u64))),
            r is Err ==> final(self).published() == old(self).published(),
            final(self).wf(),
    {
        if caller != self.admin {
            return Err(EscrowError::UnauthorizedRole);
        }
        if ledgers > MAX_FEE_WITHDRAWAL_COOLDOWN {
            return Err(EscrowError::InvalidProtocolParameters);
        }
        self.fee_withdrawal_cooldown = ledgers;
        self.publish(new_platform_event(TopicName::FeeLimits, EventData::Value(ledgers as u64)));
        Ok(())
    }

    /// The share of the earned fees one withdrawal may take, in basis points.
    pub fn fee_withdrawal_cap(&self) -> (c: u32)
        ensures
            c == self@.fee_withdrawal_cap_bps,
    {
        self.fee_withdrawal_cap_bps
    }

    /// The ledgers that must pass between two fee withdrawals.
    pub fn fee_withdrawal_cooldown(&self) -> (c: u32)
        ensures
            c == self@.fee_withdrawal_cooldown,
    {
        self.fee_withdrawal_cooldown
    }

    /// The ledger of the last fee withdrawal, 0 if there was none.
    pub fn last_fee_withdrawal_ledger(&self) -> (l: u32)
        ensures
            l == self@.last_fee_withdrawal_ledger,
    {
        self.last_fee_withdrawal_ledger
    }
}

/// Whether a fee withdrawal at `ledger` comes too soon after the last one.
pub open spec fn withdrawal_cooling_down(p: PlatformView, ledger: u32) -> bool {
    p.last_fee_withdrawal_ledger != 0 && p.fee_withdrawal_cooldown != 0
        && ledger < p.last_fee_withdrawal_ledger + p.fee_withdrawal_cooldown
}

/// Why the administrator could not withdraw `amount` of fees at `ledger`,
/// if they could not.
pub open spec fn withdraw_outcome(p: PlatformView, caller: AccountId, amount: int, ledger: u32) -> Result<(), EscrowError> {
    if p.paused {
        Err(EscrowError::ContractPaused)
    } else if caller != p.admin {
        Err(EscrowError::UnauthorizedRole)
    } else if amount <= 0 {
        Err(EscrowError::AmountMustBePositive)
    } else if amount > MAX_SINGLE_AMOUNT_STROOPS {
        Err(EscrowError::InvalidWithdrawalAmount)
    } else if amount > p.accumulated_fees {
        Err(EscrowError::InsufficientAccumulatedFees)
    } else if withdrawal_cooling_down(p, ledger) {
        Err(EscrowError::FeeWithdrawalCooldownActive)
    } else if p.fee_withdrawal_cap_bps != 0 && amount > withdrawal_allowance(p.accumulated_fees as int, p.fee_withdrawal_cap_bps as int) {
        Err(EscrowError::FeeWithdrawalCapExceeded)
    } else {
        Ok(())
    }
}

} // verus!
