//! A ready-made escrow scenario: a platform with one contract between a
//! client and a freelancer, optionally funded and optionally carried through
//! to completion, built step by step from a few choices.

use vstd::prelude::*;
use crate::amounts::{accumulate_amounts, amounts_check, lemma_amounts_check_bounds, MAX_TOTAL_ESCROW_STROOPS};
use crate::defaults::{default_milestones, MILESTONE_ONE, MILESTONE_TWO, MILESTONE_THREE};
use crate::errors::EscrowError;
use crate::escrow::{
    MAX_MILESTONES,
    view_wf, create_outcome, created_view, fresh_milestone, after_deposit, after_release, after_approve, released_milestone,
    funded_milestone, no_approval, lemma_schedule_total_bounds, lemma_wf_milestone, EscrowView,
};
use crate::ledger::{amount_sum, all_settled, released_sum, lemma_sum_update, Part};
use crate::platform::{Platform, PlatformView, record_of, with_record, platform_wf};
use crate::token::{holding, no_holdings, Holder, TokenLedger, Transfer};
use crate::types::{AccountId, Contract, ContractStatus, Milestone, ReleaseAuthorization};

verus! {

/// Accounts used when the builder is not told otherwise.
pub const DEFAULT_ADMIN: AccountId = 1;
pub const DEFAULT_CLIENT: AccountId = 2;
pub const DEFAULT_FREELANCER: AccountId = 3;

/// The settlement token bound by fixtures that need one.
pub const DEFAULT_SETTLEMENT_TOKEN: AccountId = 100;

/// A platform holding one contract, with the parties that took part.
pub struct EscrowFixture {
    pub platform: Platform,
    pub admin: AccountId,
    pub client: AccountId,
    pub freelancer: AccountId,
    pub arbiter: Option<AccountId>,
    pub escrow_id: u32,
    pub settlement_token: Option<AccountId>,
    pub release_authorization: ReleaseAuthorization,
    /// Holdings of the settlement token after the fixture's setup: what was
    /// issued to the client and what the escrow's operations moved.
    pub token: TokenLedger,
}

/// The choices a fixture is built from.
pub struct EscrowFixtureBuilder {
    admin: Option<AccountId>,
    participants: Option<(AccountId, AccountId, Option<AccountId>)>,
    milestones: Option<Vec<i128>>,
    settlement_token: bool,
    fund: bool,
    release_authorization: ReleaseAuthorization,
    completed: bool,
}

/// The mathematical content of a builder.
pub ghost struct BuilderView {
    pub admin: Option<AccountId>,
    pub participants: Option<(AccountId, AccountId, Option<AccountId>)>,
    pub milestones: Option<Seq<i128>>,
    pub settlement_token: bool,
    pub fund: bool,
    pub release_authorization: ReleaseAuthorization,
    pub completed: bool,
}

impl View for EscrowFixtureBuilder {
    type V = BuilderView;

    closed spec fn view(&self) -> BuilderView {
        BuilderView {
            admin: self.admin,
            participants: self.participants,
            milestones: match self.milestones {
                Some(m) => Some(m@),
                None => None,
            },
            settlement_token: self.settlement_token,
            fund: self.fund,
            release_authorization: self.release_authorization,
            completed: self.completed,
        }
    }
}

/// The administrator a builder will use.
pub open spec fn chosen_admin(b: BuilderView) -> AccountId {
    match b.admin {
        Some(a) => a,
        None => DEFAULT_ADMIN,
    }
}

/// The client, freelancer and arbiter a builder will use.
pub open spec fn chosen_participants(b: BuilderView) -> (AccountId, AccountId, Option<AccountId>) {
    match b.participants {
        Some(p) => p,
        None => (DEFAULT_CLIENT, DEFAULT_FREELANCER, None),
    }
}

/// The milestone amounts a builder will use.
pub open spec fn chosen_milestones(b: BuilderView) -> Seq<i128> {
    match b.milestones {
        Some(m) => m,
        None => seq![MILESTONE_ONE, MILESTONE_TWO, MILESTONE_THREE],
    }
}

/// Why the fixture's contract could not be opened, if it could not.
pub open spec fn fixture_create_outcome(b: BuilderView) -> Result<(), EscrowError> {
    let (c, f, a) = chosen_participants(b);
    create_outcome(c, f, a, chosen_milestones(b), b.release_authorization, MAX_TOTAL_ESCROW_STROOPS as int, MAX_MILESTONES as int)
}

/// The contract a builder opens, before any deposit.
pub open spec fn fixture_created_view(b: BuilderView) -> EscrowView {
    let (c, f, a) = chosen_participants(b);
    created_view(c, f, a, chosen_milestones(b), b.release_authorization)
}

impl EscrowFixture {
    /// A builder with nothing chosen yet.
    pub fn builder() -> (b: EscrowFixtureBuilder)
        ensures
            b@ == (BuilderView {
                admin: None,
                participants: None,
                milestones: None,
                settlement_token: false,
                fund: false,
                release_authorization: ReleaseAuthorization::ClientOnly,
                completed: false,
            }),
    {
        EscrowFixtureBuilder::new()
    }

    /// The platform of this fixture.
    pub fn escrow(&self) -> (p: &Platform)
        ensures
            p == &self.platform,
    {
        &self.platform
    }

    /// The total of the fixture contract's milestone amounts.
    pub fn total_amount(&self) -> (r: i128)
        requires
            self.platform.wf(),
            1 <= self.escrow_id <= self.platform@.records.len(),
        ensures
            r == amount_sum(record_of(self.platform@, self.escrow_id).milestones),
    {
        let ms = match self.platform.get_milestones(self.escrow_id) {
            Ok(ms) => ms,
            Err(_) => {
                proof { assert(false); }
                return 0;
            },
        };
        let ghost p = self.platform@;
        proof {
            lemma_schedule_total_bounds(record_of(p, self.escrow_id));
        }
        let mut total: i128 = 0;
        let mut i: usize = 0;
        while i < ms.len()
            invariant
                ms@ == record_of(p, self.escrow_id).milestones,
                view_wf(record_of(p, self.escrow_id)),
                i <= ms@.len(),
                total == amount_sum(ms@.take(i as int)),
            decreases ms@.len() - i,
        {
            proof {
                crate::escrow::lemma_prefix_sum_bounds(ms@, i as int);
                crate::escrow::lemma_prefix_sum_bounds(ms@, i + 1);
                assert(ms@.take(i + 1).drop_last() =~= ms@.take(i as int));
                lemma_wf_milestone(record_of(p, self.escrow_id), i as int);
            }
            total = total + ms[i].amount;
            i = i + 1;
        }
        assert(ms@.take(ms@.len() as int) =~= ms@);
        total
    }
}

impl EscrowFixtureBuilder {
    /// A builder with nothing chosen yet: the default accounts
    /// (`DEFAULT_ADMIN`, `DEFAULT_CLIENT`, `DEFAULT_FREELANCER`, no arbiter),
    /// the standard schedule, client-only release, no token, no funding.
    pub fn new() -> (b: Self)
        ensures
            b@ == (BuilderView {
                admin: None,
                participants: None,
                milestones: None,
                settlement_token: false,
                fund: false,
                release_authorization: ReleaseAuthorization::ClientOnly,
                completed: false,
            }),
    {
        EscrowFixtureBuilder {
            admin: None,
            participants: None,
            milestones: None,
            settlement_token: false,
            fund: false,
            release_authorization: ReleaseAuthorization::ClientOnly,
            completed: false,
        }
    }

    /// Uses `admin` as the platform administrator.
    pub fn with_admin(self, admin: AccountId) -> (b: Self)
        ensures
            b@ == (BuilderView { admin: Some(admin), ..self@ }),
    {
        EscrowFixtureBuilder { admin: Some(admin), ..self }
    }

    /// Uses the given parties for the contract.
    pub fn with_participants(self, client: AccountId, freelancer: AccountId, arbiter: Option<AccountId>) -> (b: Self)
        ensures
            b@ == (BuilderView { participants: Some((client, freelancer, arbiter)), ..self@ }),
    {
        EscrowFixtureBuilder { participants: Some((client, freelancer, arbiter)), ..self }
    }

    /// Uses the given milestone amounts.
    pub fn with_milestones(self, milestones: Vec<i128>) -> (b: Self)
        ensures
            b@ == (BuilderView { milestones: Some(milestones@), ..self@ }),
    {
        EscrowFixtureBuilder { milestones: Some(milestones), ..self }
    }

    /// Binds a settlement token on the platform.
    pub fn with_settlement_token(self) -> (b: Self)
        ensures
            b@ == (BuilderView { settlement_token: true, ..self@ }),
    {
        EscrowFixtureBuilder { settlement_token: true, ..self }
    }

    /// Funds the contract in full (which needs a settlement token).
    pub fn funded(self) -> (b: Self)
        ensures
            b@ == (BuilderView { fund: true, settlement_token: true, ..self@ }),
    {
        EscrowFixtureBuilder { fund: true, settlement_token: true, ..self }
    }

    /// Uses `auth` as the contract's release rule.
    pub fn release_authorization(self, auth: ReleaseAuthorization) -> (b: Self)
        ensures
            b@ == (BuilderView { release_authorization: auth, ..self@ }),
    {
        EscrowFixtureBuilder { release_authorization: auth, ..self }
    }

    /// Funds the contract and releases every milestone.
    pub fn completed(self) -> (b: Self)
        ensures
            b@ == (BuilderView { completed: true, fund: true, settlement_token: true, ..self@ }),
    {
        EscrowFixtureBuilder { completed: true, fund: true, settlement_token: true, ..self }
    }

    /// Builds the fixture: a fresh platform (with the settlement token bound
    /// if chosen), one contract opened on the chosen terms (id 1), funded in
    /// full by the client if chosen, and if chosen every milestone approved
    /// by the parties its release rule names and released in order. The
    /// chosen terms must be ones the escrow accepts (`fixture_create_outcome`).
    /// The token ledger records the total issued to the client, the deposit's
    /// transfer to the escrow and each payout to the freelancer.
    pub fn build(self) -> (fx: EscrowFixture)
        requires
            fixture_create_outcome(self@) is Ok,
        ensures
            ({
                let (c, f, a) = chosen_participants(self@);
                let created = fixture_created_view(self@);
                let total = amount_sum(created.milestones);
                let rec = record_of(fx.platform@, 1);
                &&& fx.platform.wf()
                &&& fx.escrow_id == 1
                &&& fx.platform@.records.len() == 1
                &&& fx.admin == chosen_admin(self@) && fx.platform@.admin == fx.admin
                &&& fx.client == c && fx.freelancer == f && fx.arbiter == a
                &&& fx.release_authorization == self@.release_authorization
                &&& fx.settlement_token == (if self@.settlement_token || self@.fund || self@.completed { Some(DEFAULT_SETTLEMENT_TOKEN) } else { None })
                &&& fx.platform@.settlement_token == fx.settlement_token
                &&& !fx.platform@.paused && !fx.platform@.emergency
                &&& fx.platform@.accumulated_fees == 0
                &&& fx.platform@.protocol_fee_bps == 0
                &&& (!self@.fund && !self@.completed ==> rec == created)
                &&& (self@.fund && !self@.completed ==> rec == after_deposit(created, total))
                &&& (self@.completed ==> {
                    &&& rec.contract.status == ContractStatus::Completed
                    &&& rec.contract.total_deposited == total
                    &&& rec.contract.released_amount == total
                    &&& rec.contract.refunded_amount == 0
                    &&& rec.contract.client == c && rec.contract.freelancer == f && rec.contract.arbiter == a
                    &&& rec.contract.release_authorization == self@.release_authorization
                    &&& !rec.contract.reputation_issued
                    &&& rec.milestones.len() == created.milestones.len()
                    &&& forall|j: int| 0 <= j < rec.milestones.len() ==> (#[trigger] rec.milestones[j]).released
                    &&& forall|j: int| 0 <= j < rec.milestones.len() ==>
                        #[trigger] rec.milestones[j] == released_milestone(funded_milestone(chosen_milestones(self@)[j]))
                })
                &&& (!self@.fund && !self@.completed ==> fx.token@ == no_holdings())
                &&& (self@.fund && !self@.completed ==> {
                    &&& holding(fx.token@, Holder::Escrow) == total
                    &&& holding(fx.token@, Holder::Account(c)) == 0
                    &&& holding(fx.token@, Holder::Account(f)) == 0
                })
                &&& (self@.completed ==> {
                    &&& holding(fx.token@, Holder::Escrow) == 0
                    &&& holding(fx.token@, Holder::Account(c)) == 0
                    &&& holding(fx.token@, Holder::Account(f)) == total
                })
                &&& forall|x: AccountId| x != c && x != f ==> #[trigger] holding(fx.token@, Holder::Account(x)) == 0
            }),
    {
        let ghost b = self@;
        let admin = match self.admin {
            Some(a) => a,
            None => DEFAULT_ADMIN,
        };
        let (client, freelancer, arbiter) = match self.participants {
            Some(p) => p,
            None => (DEFAULT_CLIENT, DEFAULT_FREELANCER, None),
        };
        let milestones = match self.milestones {
            Some(m) => m,
            None => default_milestones(),
        };
        assert(milestones@ == chosen_milestones(b));
        let auth = self.release_authorization;
        let mut platform = Platform::new(admin);
        let settlement_token = if self.settlement_token || self.fund || self.completed {
            let bound = platform.bind_settlement_token(admin, DEFAULT_SETTLEMENT_TOKEN);
            assert(bound is Ok);
            Some(DEFAULT_SETTLEMENT_TOKEN)
        } else {
            None
        };
        let escrow_id = match platform.create_contract(client, freelancer, arbiter, milestones.as_slice(), auth) {
            Ok(id) => id,
            Err(_) => {
                proof { assert(false); }
                1
            },
        };
        assert(client != freelancer);
        let mut token = TokenLedger::new();
        let ghost created = created_view(client, freelancer, arbiter, milestones@, auth);
        assert(platform@.records =~= seq![created]);
        assert(record_of(platform@, 1) == created);
        if self.fund || self.completed {
            let total = match accumulate_amounts(milestones.as_slice()) {
                Ok(t) => t,
                Err(_) => {
                    proof { assert(false); }
                    0
                },
            };
            proof {
                assert(view_wf(created)) by {
                    assert(platform_wf(platform@));
                    assert(platform@.records[0] == created);
                }
                lemma_amounts_check_bounds(milestones@);
                crate::escrow::lemma_created_sum(milestones@);
                assert(amount_sum(created.milestones) == total);
            }
            let minted = token.mint(client, total);
            assert(minted is Ok);
            let deposited = platform.deposit_funds(escrow_id, client, total);
            assert(deposited is Ok);
            assert(record_of(platform@, 1) == after_deposit(created, total as int));
            let moved = match deposited {
                Ok(t) => token.transfer(t),
                Err(e) => Err(e),
            };
            assert(moved is Ok);
            assert(holding(token@, Holder::Escrow) == total);
            assert(holding(token@, Holder::Account(client)) == 0);
        }
        if self.completed {
            let ghost funded = after_deposit(created, amount_sum(created.milestones));
            proof {
                assert(record_of(platform@, 1) == funded);
                assert(view_wf(funded)) by { assert(platform@.records[0] == funded); }
                assert(funded.milestones.take(0) =~= Seq::<Milestone>::empty());
                assert forall|j: int| 0 <= j < funded.milestones.len() implies
                    #[trigger] funded.milestones[j] == funded_milestone(funded.milestones[j].amount) by {}
            }
            let n = milestones.len();
            let mut i: usize = 0;
            while i < n
                invariant
                    platform.wf(),
                    platform@.records.len() == 1,
                    escrow_id == 1,
                    !platform@.paused,
                    platform@.protocol_fee_bps == 0,
                    platform@.accumulated_fees == 0,
                    platform@.admin == admin,
                    platform@.settlement_token == settlement_token,
                    settlement_token is Some,
                    view_wf(funded),
                    n == funded.milestones.len(),
                    i <= n,
                    funded.contract.status == ContractStatus::Funded,
                    funded.contract.client == client,
                    funded.contract.freelancer == freelancer,
                    funded.contract.arbiter == arbiter,
                    funded.contract.release_authorization == auth,
                    funded.contract.released_amount == 0,
                    funded.contract.refunded_amount == 0,
                    forall|j: int| 0 <= j < n ==> #[trigger] funded.milestones[j] == funded_milestone(funded.milestones[j].amount),
                    completion_state(record_of(platform@, 1), funded, i as int),
                    client != freelancer,
                    holding(token@, Holder::Escrow) == amount_sum(funded.milestones) - amount_sum(funded.milestones.take(i as int)),
                    holding(token@, Holder::Account(client)) == 0,
                    holding(token@, Holder::Account(freelancer)) == amount_sum(funded.milestones.take(i as int)),
                    forall|x: AccountId| x != client && x != freelancer ==> #[trigger] holding(token@, Holder::Account(x)) == 0,
                decreases n - i,
            {
                let ghost r0 = record_of(platform@, 1);
                proof {
                    assert(r0.contract.status == ContractStatus::Funded);
                    assert(r0.approvals[i as int] == no_approval());
                    assert(r0.milestones[i as int] == funded.milestones[i as int]);
                }
                let releaser = match auth {
                    ReleaseAuthorization::ClientOnly => {
                        let a1 = platform.approve_milestone_release(escrow_id, client, i as u32);
                        assert(a1 is Ok);
                        client
                    },
                    ReleaseAuthorization::ArbiterOnly => {
                        let arb = match arbiter {
                            Some(x) => x,
                            None => client,
                        };
                        proof { assert(arbiter is Some) by { assert(view_wf(funded)); } }
                        let a1 = platform.approve_milestone_release(escrow_id, arb, i as u32);
                        assert(a1 is Ok);
                        arb
                    },
                    ReleaseAuthorization::ClientAndArbiter => {
                        let a1 = platform.approve_milestone_release(escrow_id, client, i as u32);
                        assert(a1 is Ok);
                        client
                    },
                    ReleaseAuthorization::MultiSig => {
                        let a1 = platform.approve_milestone_release(escrow_id, client, i as u32);
                        assert(a1 is Ok);
                        let a2 = platform.approve_milestone_release(escrow_id, freelancer, i as u32);
                        assert(a2 is Ok);
                        client
                    },
                };
                let ghost r1 = record_of(platform@, 1);
                proof {
                    assert(r1.milestones == r0.milestones);
                    assert(r1.contract == r0.contract);
                    assert(r1.approvals.len() == n);
                    assert(forall|j: int| 0 <= j < n && j != i ==> #[trigger] r1.approvals[j] == r0.approvals[j]);
                    assert(crate::escrow::approvals_sufficient(auth, r1.approvals[i as int]));
                    assert(crate::fees::protocol_fee(r1.milestones[i as int].amount as int, 0) == Some(0int));
                }
                let released = platform.release_milestone(escrow_id, releaser, i as u32);
                assert(released is Ok);
                assert(released->Ok_0 == funded.milestones[i as int].amount);
                proof {
                    crate::escrow::lemma_schedule_total_bounds(funded);
                    crate::escrow::lemma_prefix_sum_bounds(funded.milestones, i + 1);
                    crate::escrow::lemma_prefix_sum_bounds(funded.milestones, n as int);
                    assert(funded.milestones.take(i + 1).drop_last() =~= funded.milestones.take(i as int));
                    assert(funded.milestones.take(i + 1).last() == funded.milestones[i as int]);
                }
                let ghost tok0 = token@;
                let paid = match released {
                    Ok(x) => token.transfer(Transfer { from: Holder::Escrow, to: Holder::Account(freelancer), amount: x }),
                    Err(e) => Err(e),
                };
                assert(paid is Ok);
                assert forall|x: AccountId| x != client && x != freelancer implies
                    #[trigger] holding(token@, Holder::Account(x)) == 0 by {
                    assert(holding(token@, Holder::Account(x)) == holding(tok0, Holder::Account(x)));
                }
                proof {
                    let r2 = record_of(platform@, 1);
                    assert(r2 == after_release(r1, i as int));
                    if i + 1 < n {
                        assert(!all_settled(r2.milestones)) by {
                            assert(!r2.milestones[n - 1].released && !r2.milestones[n - 1].refunded);
                        }
                    } else {
                        assert(all_settled(r2.milestones)) by {
                            assert forall|j: int| 0 <= j < r2.milestones.len() implies
                                (#[trigger] r2.milestones[j]).released || r2.milestones[j].refunded by {
                                if j < i {
                                    assert(r1.milestones[j] == released_milestone(funded.milestones[j]));
                                }
                            }
                        }
                    }
                    assert forall|j: int| 0 <= j < i + 1 implies
                        #[trigger] r2.milestones[j] == released_milestone(funded.milestones[j]) by {
                        if j < i {
                            assert(r1.milestones[j] == released_milestone(funded.milestones[j]));
                        }
                    }
                    assert forall|j: int| i + 1 <= j < n implies #[trigger] r2.approvals[j] == no_approval() by {
                        assert(r1.approvals[j] == r0.approvals[j]);
                    }
                }
                i = i + 1;
            }
            proof {
                let r = record_of(platform@, 1);
                assert(funded.milestones.take(n as int) =~= funded.milestones);
                assert forall|j: int| 0 <= j < r.milestones.len() implies (#[trigger] r.milestones[j]).released
                    && r.milestones[j] == released_milestone(funded_milestone(chosen_milestones(b)[j])) by {
                    assert(r.milestones[j] == released_milestone(funded.milestones[j]));
                    assert(funded.milestones[j] == funded_milestone(funded.milestones[j].amount));
                    assert(created.milestones[j] == fresh_milestone(chosen_milestones(b)[j]));
                }
            }
        }
        EscrowFixture {
            platform,
            admin,
            client,
            freelancer,
            arbiter,
            escrow_id,
            settlement_token,
            release_authorization: auth,
            token,
        }
    }
}

/// Where the fixture's completion stands after releasing the first `i`
/// milestones of the funded contract `funded`.
pub open spec fn completion_state(r: EscrowView, funded: EscrowView, i: int) -> bool {
    let n = funded.milestones.len();
    &&& r.milestones.len() == n
    &&& r.approvals.len() == n
    &&& forall|j: int| 0 <= j < i ==> #[trigger] r.milestones[j] == released_milestone(funded.milestones[j])
    &&& forall|j: int| i <= j < n ==> #[trigger] r.milestones[j] == funded.milestones[j]
    &&& forall|j: int| i <= j < n ==> #[trigger] r.approvals[j] == no_approval()
    &&& r.contract.released_amount == amount_sum(funded.milestones.take(i))
    &&& r.contract.status == (if i == n { ContractStatus::Completed } else { ContractStatus::Funded })
    &&& r.contract.total_deposited == funded.contract.total_deposited
    &&& r.contract.refunded_amount == 0
    &&& r.contract.client == funded.contract.client
    &&& r.contract.freelancer == funded.contract.freelancer
    &&& r.contract.arbiter == funded.contract.arbiter
    &&& r.contract.release_authorization == funded.contract.release_authorization
    &&& r.contract.reputation_issued == funded.contract.reputation_issued
}

/// Whether `contract` has the expected status and money counters; the
/// other fields play no part.
pub open spec fn contract_state_is(
    contract: Contract,
    expected_status: ContractStatus,
    expected_funded: i128,
    expected_released: i128,
    expected_refunded: i128,
) -> bool {
    &&& contract.status == expected_status
    &&& contract.funded_amount == expected_funded
    &&& contract.released_amount == expected_released
    &&& contract.refunded_amount == expected_refunded
}

/// Asserts that `contract` has the expected status and money counters: a
/// caller must show they match (see `contract_state_is`), and a contract in
/// any other state is refused.
pub fn assert_contract_state(
    contract: &Contract,
    expected_status: ContractStatus,
    expected_funded: i128,
    expected_released: i128,
    expected_refunded: i128,
)
    requires
        contract_state_is(*contract, expected_status, expected_funded, expected_released, expected_refunded),
{
}

/// Whether `contract` has the expected status and money counters (see
/// `contract_state_is`).
pub fn contract_state_matches(
    contract: &Contract,
    expected_status: ContractStatus,
    expected_funded: i128,
    expected_released: i128,
    expected_refunded: i128,
) -> (matches: bool)
    ensures
        matches == contract_state_is(*contract, expected_status, expected_funded, expected_released, expected_refunded),
{
    contract.status == expected_status && contract.funded_amount == expected_funded
        && contract.released_amount == expected_released && contract.refunded_amount == expected_refunded
}

} // verus!
