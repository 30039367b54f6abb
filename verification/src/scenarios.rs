//! Ready-made situations: contracts opened on the standard schedule, a
//! funded contract under a chosen release rule, a completed contract, and a
//! platform that has earned fees.
//!
//! Each helper takes the accounts and amounts a situation is built from and
//! requires terms the escrow accepts.

use vstd::prelude::*;
use crate::amounts::{lemma_amounts_check_bounds, MAX_SINGLE_AMOUNT_STROOPS, MAX_TOTAL_ESCROW_STROOPS};
use crate::fees::{protocol_fee, lemma_fee_bounded, MAX_FEE_BPS};
use crate::defaults::{default_milestones, MILESTONE_ONE, MILESTONE_TWO, MILESTONE_THREE};
use crate::escrow::{create_outcome, created_view, after_deposit, fresh_milestone, lemma_created_sum, EscrowView, MAX_MILESTONES};
use crate::fixture::{EscrowFixture, DEFAULT_SETTLEMENT_TOKEN};
use crate::ledger::{amount_sum, sum_of, Part};
use crate::platform::{Platform, PlatformView, record_of, DEFAULT_FEE_WITHDRAWAL_CAP_BPS, DEFAULT_FEE_WITHDRAWAL_COOLDOWN};
use crate::reputation::default_reputation_config;
use crate::token::{holding, Holder, TokenLedger, Transfer};
use crate::types::{AccountId, ContractStatus, Milestone, ReleaseAuthorization};

verus! {

/// The standard three-milestone schedule.
pub open spec fn default_schedule() -> Seq<i128> {
    seq![MILESTONE_ONE, MILESTONE_TWO, MILESTONE_THREE]
}

/// The state of a platform just set up by `admin` (see `Platform::new`).
pub open spec fn fresh_platform(admin: AccountId) -> PlatformView {
    PlatformView {
        admin,
        paused: false,
        emergency: false,
        protocol_fee_bps: 0,
        max_escrow_total: MAX_TOTAL_ESCROW_STROOPS,
        accumulated_fees: 0,
        settlement_token: None,
        fee_withdrawal_cap_bps: DEFAULT_FEE_WITHDRAWAL_CAP_BPS,
        fee_withdrawal_cooldown: DEFAULT_FEE_WITHDRAWAL_COOLDOWN,
        last_fee_withdrawal_ledger: 0,
        reputation_config: default_reputation_config(),
        reputations: Map::empty(),
        comments: Map::empty(),
        max_milestones: MAX_MILESTONES,
        pending_admin: None,
        proposals: Seq::empty(),
        governed_params_set: false,
        emergency_controls_exercised: false,
        records: Seq::empty(),
    }
}

/// The total of a schedule of `amounts`.
pub open spec fn schedule_total(amounts: Seq<i128>) -> int {
    amount_sum(amounts.map_values(|a: i128| fresh_milestone(a)))
}

/// The platform after opening contract `v` on `p`.
pub open spec fn with_new_record(p: PlatformView, v: EscrowView) -> PlatformView {
    PlatformView { records: p.records.push(v), ..p }
}

/// Whether `p` accepts a new contract between `client` and `freelancer`
/// (with `arbiter`) on `amounts` under `auth`.
pub open spec fn opens(p: PlatformView, client: AccountId, freelancer: AccountId, arbiter: Option<AccountId>,
    amounts: Seq<i128>, auth: ReleaseAuthorization) -> bool {
    &&& !p.paused
    &&& p.records.len() < u32::MAX
    &&& create_outcome(client, freelancer, arbiter, amounts, auth, p.max_escrow_total as int, p.max_milestones as int) is Ok
}

/// The record of a contract opened on `amounts` and funded in full by its
/// client in one deposit.
pub open spec fn funded_record(client: AccountId, freelancer: AccountId, arbiter: Option<AccountId>,
    amounts: Seq<i128>, auth: ReleaseAuthorization) -> EscrowView {
    let created = created_view(client, freelancer, arbiter, amounts, auth);
    after_deposit(created, amount_sum(created.milestones))
}

/// Whether a fresh platform accepts the contract.
pub open spec fn fresh_accepts(client: AccountId, freelancer: AccountId, arbiter: Option<AccountId>,
    amounts: Seq<i128>, auth: ReleaseAuthorization) -> bool {
    create_outcome(client, freelancer, arbiter, amounts, auth, MAX_TOTAL_ESCROW_STROOPS as int, MAX_MILESTONES as int) is Ok
}

/// The standard schedule totals its three amounts.
pub proof fn lemma_default_schedule_total(ms: Seq<Milestone>)
    requires
        ms == default_schedule().map_values(|a: i128| fresh_milestone(a)),
    ensures
        amount_sum(ms) == MILESTONE_ONE + MILESTONE_TWO + MILESTONE_THREE,
{
    let m1 = ms.drop_last().drop_last();
    let m2 = ms.drop_last();
    assert(ms.len() == 3);
    assert(m1.drop_last() =~= Seq::<Milestone>::empty());
    assert(sum_of(m1.drop_last(), Part::Amount) == 0);
    assert(m1.last() == ms[0] && ms[0].amount == MILESTONE_ONE);
    assert(sum_of(m1, Part::Amount) == MILESTONE_ONE);
    assert(m2.drop_last() == m1);
    assert(m2.last() == ms[1] && ms[1].amount == MILESTONE_TWO);
    assert(sum_of(m2, Part::Amount) == MILESTONE_ONE + MILESTONE_TWO);
    assert(ms.last() == ms[2] && ms[2].amount == MILESTONE_THREE);
}

/// Opens a contract between `client` and `freelancer` on the standard
/// schedule, released by the client alone, and returns its id.
pub fn create_default_contract(p: &mut Platform, client: AccountId, freelancer: AccountId) -> (id: u32)
    requires
        old(p).wf(),
        opens(old(p)@, client, freelancer, None, default_schedule(), ReleaseAuthorization::ClientOnly),
    ensures
        final(p).wf(),
        id == old(p)@.records.len() + 1,
        final(p)@ == with_new_record(old(p)@,
            created_view(client, freelancer, None, default_schedule(), ReleaseAuthorization::ClientOnly)),
{
    let milestones = default_milestones();
    match p.create_contract(client, freelancer, None, milestones.as_slice(), ReleaseAuthorization::ClientOnly) {
        Ok(id) => id,
        Err(_) => {
            proof { assert(false); }
            0
        },
    }
}

/// Opens a contract on the standard schedule (see `create_default_contract`)
/// and returns its parties with its id.
pub fn create_contract(p: &mut Platform, client: AccountId, freelancer: AccountId) -> (r: (AccountId, AccountId, u32))
    requires
        old(p).wf(),
        opens(old(p)@, client, freelancer, None, default_schedule(), ReleaseAuthorization::ClientOnly),
    ensures
        final(p).wf(),
        r == (client, freelancer, (old(p)@.records.len() + 1) as u32),
        final(p)@ == with_new_record(old(p)@,
            created_view(client, freelancer, None, default_schedule(), ReleaseAuthorization::ClientOnly)),
{
    let id = create_default_contract(p, client, freelancer);
    (client, freelancer, id)
}

/// Opens a contract on the standard schedule with `arbiter` named, released
/// by the client alone, and returns its id; nothing is deposited.
pub fn create_contract_with_arbiter(p: &mut Platform, client: AccountId, freelancer: AccountId, arbiter: AccountId) -> (id: u32)
    requires
        old(p).wf(),
        opens(old(p)@, client, freelancer, Some(arbiter), default_schedule(), ReleaseAuthorization::ClientOnly),
    ensures
        final(p).wf(),
        id == old(p)@.records.len() + 1,
        final(p)@ == with_new_record(old(p)@,
            created_view(client, freelancer, Some(arbiter), default_schedule(), ReleaseAuthorization::ClientOnly)),
{
    let milestones = default_milestones();
    match p.create_contract(client, freelancer, Some(arbiter), milestones.as_slice(), ReleaseAuthorization::ClientOnly) {
        Ok(id) => id,
        Err(_) => {
            proof { assert(false); }
            0
        },
    }
}

/// The accounts a scenario plays with.
#[derive(Debug, Clone, Copy, PartialEq, Eq, Structural)]
pub struct Participants {
    pub admin: AccountId,
    pub client: AccountId,
    pub freelancer: AccountId,
    pub arbiter: AccountId,
    pub stranger: AccountId,
}

/// Whether the five accounts are pairwise distinct.
pub open spec fn all_distinct(p: Participants) -> bool {
    &&& p.admin != p.client && p.admin != p.freelancer && p.admin != p.arbiter && p.admin != p.stranger
    &&& p.client != p.freelancer && p.client != p.arbiter && p.client != p.stranger
    &&& p.freelancer != p.arbiter && p.freelancer != p.stranger
    &&& p.arbiter != p.stranger
}

/// A platform run by `accounts.admin` with the settlement token bound and
/// no contract yet, together with the accounts (pairwise distinct) that the
/// scenario plays with.
pub fn setup_full(accounts: Participants) -> (r: (Platform, Participants))
    requires
        all_distinct(accounts),
    ensures
        r.0.wf(),
        r.0@ == (PlatformView { settlement_token: Some(DEFAULT_SETTLEMENT_TOKEN), ..fresh_platform(accounts.admin) }),
        r.1 == accounts,
        all_distinct(r.1),
{
    let mut p = Platform::new(accounts.admin);
    assert(p@.records =~= Seq::<EscrowView>::empty());
    assert(p@.proposals =~= fresh_platform(accounts.admin).proposals);
    let bound = p.bind_settlement_token(accounts.admin, DEFAULT_SETTLEMENT_TOKEN);
    assert(bound is Ok);
    (p, accounts)
}

/// A fresh platform run by `admin`, with the settlement token bound, holding
/// one contract (id 1) on `amounts` under `mode`, funded in full by its
/// client; with the token's holdings: the schedule total was issued to the
/// client and deposited, so the escrow holds it and the client nothing.
pub fn setup_funded_with_mode(
    admin: AccountId,
    client: AccountId,
    freelancer: AccountId,
    arbiter: Option<AccountId>,
    amounts: Vec<i128>,
    mode: ReleaseAuthorization,
) -> (r: (Platform, TokenLedger, u32))
    requires
        fresh_accepts(client, freelancer, arbiter, amounts@, mode),
    ensures
        r.0.wf(),
        r.2 == 1,
        holding(r.1@, Holder::Escrow) == schedule_total(amounts@),
        holding(r.1@, Holder::Account(client)) == 0,
        holding(r.1@, Holder::Account(freelancer)) == 0,
        forall|x: AccountId| x != client && x != freelancer ==> #[trigger] holding(r.1@, Holder::Account(x)) == 0,
        r.0@.records.len() == 1,
        r.0@.admin == admin,
        r.0@.settlement_token == Some(DEFAULT_SETTLEMENT_TOKEN),
        !r.0@.paused,
        r.0@.protocol_fee_bps == 0,
        r.0@.accumulated_fees == 0,
        record_of(r.0@, 1) == funded_record(client, freelancer, arbiter, amounts@, mode),
{
    let fx = EscrowFixture::builder()
        .with_admin(admin)
        .with_participants(client, freelancer, arbiter)
        .with_milestones(amounts)
        .release_authorization(mode)
        .funded()
        .build();
    (fx.platform, fx.token, fx.escrow_id)
}

/// A fresh platform run by `admin`, with the settlement token bound,
/// holding one contract (id 1) on `amounts`, released by the client alone
/// and funded in full by its client; with the token's holdings (the escrow
/// holds the schedule total, the client nothing).
pub fn setup_funded_contract_env(admin: AccountId, client: AccountId, freelancer: AccountId, amounts: Vec<i128>) -> (r: (Platform, TokenLedger, u32))
    requires
        fresh_accepts(client, freelancer, None, amounts@, ReleaseAuthorization::ClientOnly),
    ensures
        r.0.wf(),
        r.2 == 1,
        holding(r.1@, Holder::Escrow) == schedule_total(amounts@),
        holding(r.1@, Holder::Account(client)) == 0,
        r.0@.records.len() == 1,
        r.0@.admin == admin,
        r.0@.settlement_token == Some(DEFAULT_SETTLEMENT_TOKEN),
        !r.0@.paused,
        record_of(r.0@, 1) == funded_record(client, freelancer, None, amounts@, ReleaseAuthorization::ClientOnly),
{
    setup_funded_with_mode(admin, client, freelancer, None, amounts, ReleaseAuthorization::ClientOnly)
}

/// A fresh platform run by `admin` with governed parameters set (fee rate
/// `fee_bps`, ceiling `max_total`), the settlement token bound, and one
/// contract (id 1) opened on `amounts`, released by the client alone.
pub fn setup_full_contract(
    admin: AccountId,
    fee_bps: u32,
    max_total: i128,
    client: AccountId,
    freelancer: AccountId,
    amounts: Vec<i128>,
) -> (r: (Platform, u32))
    requires
        fee_bps <= MAX_FEE_BPS,
        max_total > 0,
        create_outcome(client, freelancer, None, amounts@, ReleaseAuthorization::ClientOnly, max_total as int,
            MAX_MILESTONES as int) is Ok,
    ensures
        r.0.wf(),
        r.1 == 1,
        r.0@ == (PlatformView {
            protocol_fee_bps: fee_bps,
            max_escrow_total: max_total,
            governed_params_set: true,
            settlement_token: Some(DEFAULT_SETTLEMENT_TOKEN),
            records: seq![created_view(client, freelancer, None, amounts@, ReleaseAuthorization::ClientOnly)],
            ..fresh_platform(admin)
        }),
{
    let mut p = Platform::new(admin);
    assert(p@.records =~= Seq::<EscrowView>::empty());
    assert(p@.proposals =~= fresh_platform(admin).proposals);
    let set = p.set_governed_params(admin, fee_bps, max_total);
    assert(set is Ok);
    let bound = p.bind_settlement_token(admin, DEFAULT_SETTLEMENT_TOKEN);
    assert(bound is Ok);
    let id = match p.create_contract(client, freelancer, None, amounts.as_slice(), ReleaseAuthorization::ClientOnly) {
        Ok(id) => id,
        Err(_) => {
            proof { assert(false); }
            0
        },
    };
    (p, id)
}

/// A fresh platform run by `admin` holding one contract (id 1) between
/// `client` and `freelancer` with `arbiter` named, on the standard schedule,
/// funded in full and with every milestone released by the client.
pub fn setup_completed_contract_with_arbiter(admin: AccountId, client: AccountId, freelancer: AccountId, arbiter: AccountId) -> (r: (Platform, u32))
    requires
        fresh_accepts(client, freelancer, Some(arbiter), default_schedule(), ReleaseAuthorization::ClientOnly),
    ensures
        r.0.wf(),
        r.1 == 1,
        r.0@.records.len() == 1,
        r.0@.admin == admin,
        !r.0@.paused,
        record_of(r.0@, 1).contract.status == ContractStatus::Completed,
        record_of(r.0@, 1).contract.client == client,
        record_of(r.0@, 1).contract.freelancer == freelancer,
        record_of(r.0@, 1).contract.arbiter == Some(arbiter),
        record_of(r.0@, 1).contract.release_authorization == ReleaseAuthorization::ClientOnly,
        record_of(r.0@, 1).milestones.len() == 3,
        forall|j: int| 0 <= j < 3 ==> (#[trigger] record_of(r.0@, 1).milestones[j]).released,
        record_of(r.0@, 1).contract.released_amount == MILESTONE_ONE + MILESTONE_TWO + MILESTONE_THREE,
        record_of(r.0@, 1).contract.refunded_amount == 0,
        !record_of(r.0@, 1).contract.reputation_issued,
{
    let fx = EscrowFixture::builder()
        .with_admin(admin)
        .with_participants(client, freelancer, Some(arbiter))
        .completed()
        .build();
    proof {
        lemma_default_schedule_total(default_schedule().map_values(|a: i128| fresh_milestone(a)));
    }
    (fx.platform, fx.escrow_id)
}

/// A fresh platform run by `admin` holding one contract (id 1) on the
/// standard schedule, funded and completed, with every milestone released
/// by the client.
pub fn complete_contract(admin: AccountId, client: AccountId, freelancer: AccountId) -> (r: (Platform, u32))
    requires
        fresh_accepts(client, freelancer, None, default_schedule(), ReleaseAuthorization::ClientOnly),
    ensures
        r.0.wf(),
        r.1 == 1,
        r.0@.records.len() == 1,
        r.0@.admin == admin,
        !r.0@.paused,
        record_of(r.0@, 1).contract.status == ContractStatus::Completed,
        record_of(r.0@, 1).contract.client == client,
        record_of(r.0@, 1).contract.freelancer == freelancer,
        record_of(r.0@, 1).contract.total_deposited == MILESTONE_ONE + MILESTONE_TWO + MILESTONE_THREE,
        record_of(r.0@, 1).milestones.len() == 3,
        forall|j: int| 0 <= j < 3 ==> (#[trigger] record_of(r.0@, 1).milestones[j]).released,
        record_of(r.0@, 1).contract.released_amount == MILESTONE_ONE + MILESTONE_TWO + MILESTONE_THREE,
        record_of(r.0@, 1).contract.refunded_amount == 0,
        !record_of(r.0@, 1).contract.reputation_issued,
{
    let fx = EscrowFixture::builder()
        .with_admin(admin)
        .with_participants(client, freelancer, None)
        .completed()
        .build();
    proof {
        lemma_default_schedule_total(default_schedule().map_values(|a: i128| fresh_milestone(a)));
    }
    (fx.platform, fx.escrow_id)
}

/// As `complete_contract`, with the settlement token's holdings: the
/// standard total was issued to the client, deposited, and paid out to the
/// freelancer.
pub fn complete_contract_funded(admin: AccountId, client: AccountId, freelancer: AccountId) -> (fx: EscrowFixture)
    requires
        fresh_accepts(client, freelancer, None, default_schedule(), ReleaseAuthorization::ClientOnly),
    ensures
        fx.platform.wf(),
        fx.escrow_id == 1,
        fx.platform@.records.len() == 1,
        fx.client == client && fx.freelancer == freelancer && fx.admin == admin,
        record_of(fx.platform@, 1).contract.status == ContractStatus::Completed,
        record_of(fx.platform@, 1).contract.client == client,
        record_of(fx.platform@, 1).contract.freelancer == freelancer,
        record_of(fx.platform@, 1).milestones.len() == 3,
        forall|j: int| 0 <= j < 3 ==> (#[trigger] record_of(fx.platform@, 1).milestones[j]).released,
        record_of(fx.platform@, 1).contract.released_amount == MILESTONE_ONE + MILESTONE_TWO + MILESTONE_THREE,
        holding(fx.token@, Holder::Escrow) == 0,
        holding(fx.token@, Holder::Account(client)) == 0,
        holding(fx.token@, Holder::Account(freelancer)) == MILESTONE_ONE + MILESTONE_TWO + MILESTONE_THREE,
{
    let fx = EscrowFixture::builder()
        .with_admin(admin)
        .with_participants(client, freelancer, None)
        .completed()
        .build();
    proof {
        lemma_default_schedule_total(default_schedule().map_values(|a: i128| fresh_milestone(a)));
    }
    fx
}

/// A fresh platform run by `admin`, with the settlement token bound and
/// fee rate `fee_bps`, holding one contract (id 1) of a single milestone of
/// `amount`, funded, approved and released by its client, and the token's
/// holdings: the freelancer was paid the amount less the fee, which the
/// escrow keeps. Returns the platform, the holdings, the account `destination`
/// that fee withdrawals go to, and the fee earned.
pub fn setup_with_accumulated_fees(
    admin: AccountId,
    client: AccountId,
    freelancer: AccountId,
    fee_bps: u32,
    amount: i128,
    destination: AccountId,
) -> (r: (Platform, TokenLedger, AccountId, i128))
    requires
        fee_bps <= MAX_FEE_BPS,
        destination != admin,
        fresh_accepts(client, freelancer, None, seq![amount], ReleaseAuthorization::ClientOnly),
    ensures
        r.0.wf(),
        r.0@.records.len() == 1,
        r.0@.admin == admin,
        r.0@.protocol_fee_bps == fee_bps,
        r.0@.settlement_token == Some(DEFAULT_SETTLEMENT_TOKEN),
        !r.0@.paused,
        protocol_fee(amount as int, fee_bps as int) == Some(r.3 as int),
        r.0@.accumulated_fees == r.3,
        record_of(r.0@, 1).contract.status == ContractStatus::Completed,
        record_of(r.0@, 1).contract.released_amount == amount,
        holding(r.1@, Holder::Escrow) == r.3,
        holding(r.1@, Holder::Account(client)) == 0,
        holding(r.1@, Holder::Account(freelancer)) == amount - r.3,
        r.2 == destination && r.2 != admin,
{
    let mut amounts: Vec<i128> = Vec::new();
    amounts.push(amount);
    assert(amounts@ =~= seq![amount]);
    proof {
        lemma_created_sum(seq![amount]);
        lemma_amounts_check_bounds(seq![amount]);
        let ms = seq![amount].map_values(|a: i128| fresh_milestone(a));
        assert(ms.len() == 1);
        assert(ms.drop_last() =~= Seq::<Milestone>::empty());
        assert(sum_of(ms.drop_last(), Part::Amount) == 0);
        assert(ms.last() == ms[0] && ms[0].amount == amount);
        assert(amount_sum(ms) == amount);
    }
    let (mut p, mut token, id) = setup_funded_with_mode(admin, client, freelancer, None, amounts, ReleaseAuthorization::ClientOnly);
    let set = p.set_protocol_fee_bps(admin, fee_bps);
    assert(set is Ok);
    let approved = p.approve_milestone_release(id, client, 0);
    assert(approved is Ok);
    proof {
        assert(0 < amount <= MAX_SINGLE_AMOUNT_STROOPS);
        assert(0 <= amount * fee_bps <= MAX_SINGLE_AMOUNT_STROOPS * 10_000) by (nonlinear_arith)
            requires 0 < amount <= MAX_SINGLE_AMOUNT_STROOPS, 0 <= fee_bps <= 10_000;
        lemma_fee_bounded(amount as int, fee_bps as int);
    }
    let released = p.release_milestone(id, client, 0);
    assert(released is Ok);
    let paid = match released {
        Ok(payout) => token.transfer(Transfer { from: Holder::Escrow, to: Holder::Account(freelancer), amount: payout }),
        Err(e) => Err(e),
    };
    let fees = p.accumulated_protocol_fees();
    proof {
        if protocol_fee(amount as int, fee_bps as int)->Some_0 < amount {
            assert(paid is Ok);
        }
    }
    (p, token, destination, fees)
}

} // verus!
