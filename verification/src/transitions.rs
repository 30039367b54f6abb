//! The milestone status matrix and the per-milestone version log that
//! detects concurrent modifications.

use vstd::prelude::*;
use crate::errors::EscrowError;
use crate::types::{AccountId, Milestone};

verus! {

/// The status of one milestone.
#[derive(Debug, Clone, Copy, PartialEq, Eq, Structural)]
pub enum MilestoneState {
    Pending,
    Released,
    Refunded,
}

/// The state that a milestone's two flags describe; both flags set is no state.
pub open spec fn state_of(m: Milestone) -> Result<MilestoneState, EscrowError> {
    if m.released && m.refunded {
        Err(EscrowError::InvalidState)
    } else if m.released {
        Ok(MilestoneState::Released)
    } else if m.refunded {
        Ok(MilestoneState::Refunded)
    } else {
        Ok(MilestoneState::Pending)
    }
}

/// The allowed moves: staying in the same state, or leaving `Pending` for
/// `Released` or `Refunded`. Released and refunded milestones are final.
pub open spec fn transition_allowed(current: MilestoneState, requested: MilestoneState) -> bool {
    current == requested || current == MilestoneState::Pending
}

/// The number under which a state is listed: 0 pending, 1 released, 2 refunded.
pub open spec fn state_code(s: MilestoneState) -> u32 {
    match s {
        MilestoneState::Pending => 0,
        MilestoneState::Released => 1,
        MilestoneState::Refunded => 2,
    }
}

impl MilestoneState {
    /// Reads the state from a milestone's flags; a milestone marked both
    /// released and refunded is rejected with `InvalidState`.
    pub fn from_milestone(m: &Milestone) -> (r: Result<MilestoneState, EscrowError>)
        ensures
            r == state_of(*m),
    {
        if m.released && m.refunded {
            Err(EscrowError::InvalidState)
        } else if m.released {
            Ok(MilestoneState::Released)
        } else if m.refunded {
            Ok(MilestoneState::Refunded)
        } else {
            Ok(MilestoneState::Pending)
        }
    }

    /// The listing code of this state.
    pub fn code(&self) -> (c: u32)
        ensures
            c == state_code(*self),
    {
        match self {
            MilestoneState::Pending => 0,
            MilestoneState::Released => 1,
            MilestoneState::Refunded => 2,
        }
    }
}

/// Checks a requested status change against the matrix; every forbidden
/// move fails with the same `InvalidStatusTransition` error.
pub fn validate_milestone_transition(current: MilestoneState, requested: MilestoneState) -> (r: Result<(), EscrowError>)
    ensures
        r is Ok <==> transition_allowed(current, requested),
        r is Err ==> r == Err::<(), EscrowError>(EscrowError::InvalidStatusTransition),
{
    match (current, requested) {
        (MilestoneState::Pending, _) => Ok(()),
        (MilestoneState::Released, MilestoneState::Released) => Ok(()),
        (MilestoneState::Refunded, MilestoneState::Refunded) => Ok(()),
        _ => Err(EscrowError::InvalidStatusTransition),
    }
}

/// Applying allowed transitions one after another never reaches a state
/// that a single allowed transition from the start could not reach: once a
/// milestone is released or refunded it stays so.
pub proof fn lemma_transitions_compose(a: MilestoneState, b: MilestoneState, c: MilestoneState)
    requires
        transition_allowed(a, b),
        transition_allowed(b, c),
    ensures
        transition_allowed(a, c),
        a != MilestoneState::Pending ==> a == b && b == c,
{
}

/// One record of the version log: the latest version of one milestone and
/// the account that made the change.
#[derive(Debug, Clone, Copy, PartialEq, Eq, Structural)]
pub struct VersionEntry {
    pub contract_id: u32,
    pub milestone_index: u32,
    pub version: u32,
    pub actor: AccountId,
}

/// For each milestone that was ever changed, how many changes were recorded
/// and by whom the last one was made. A milestone never changed is at
/// version 0.
pub struct TransitionLog {
    entries: Vec<VersionEntry>,
}

/// The latest `(version, actor)` recorded for a milestone in a list of entries.
pub open spec fn lookup(entries: Seq<VersionEntry>, contract_id: u32, milestone_index: u32) -> Option<(u32, AccountId)>
    decreases entries.len(),
{
    if entries.len() == 0 {
        None
    } else if entries.last().contract_id == contract_id && entries.last().milestone_index == milestone_index {
        Some((entries.last().version, entries.last().actor))
    } else {
        lookup(entries.drop_last(), contract_id, milestone_index)
    }
}

impl View for TransitionLog {
    type V = Map<(u32, u32), (u32, AccountId)>;

    closed spec fn view(&self) -> Map<(u32, u32), (u32, AccountId)> {
        Map::new(
            |k: (u32, u32)| lookup(self.entries@, k.0, k.1) is Some,
            |k: (u32, u32)| lookup(self.entries@, k.0, k.1)->Some_0,
        )
    }
}

/// The version currently recorded for a milestone in a log's view.
pub open spec fn version_in(log: Map<(u32, u32), (u32, AccountId)>, contract_id: u32, milestone_index: u32) -> u32 {
    if log.contains_key((contract_id, milestone_index)) {
        log[(contract_id, milestone_index)].0
    } else {
        0
    }
}

impl TransitionLog {
    /// An empty log: every milestone is at version 0.
    pub fn new() -> (log: Self)
        ensures
            log@ == Map::<(u32, u32), (u32, AccountId)>::empty(),
    {
        let log = TransitionLog { entries: Vec::new() };
        assert(log@ =~= Map::<(u32, u32), (u32, AccountId)>::empty());
        log
    }

    /// The version and last actor of a milestone, `None` if never changed.
    pub fn read_version_and_actor(&self, contract_id: u32, milestone_index: u32) -> (r: Option<(u32, AccountId)>)
        ensures
            r == (if self@.contains_key((contract_id, milestone_index)) {
                Some(self@[(contract_id, milestone_index)])
            } else {
                None
            }),
    {
        let mut i = self.entries.len();
        assert(self.entries@.take(i as int) =~= self.entries@);
        while i > 0
            invariant
                i <= self.entries.len(),
                lookup(self.entries@, contract_id, milestone_index)
                    == lookup(self.entries@.take(i as int), contract_id, milestone_index),
            decreases i,
        {
            let e = self.entries[i - 1];
            assert(self.entries@.take(i as int).drop_last() =~= self.entries@.take(i - 1));
            if e.contract_id == contract_id && e.milestone_index == milestone_index {
                return Some((e.version, e.actor));
            }
            i = i - 1;
        }
        None
    }

    /// The version of a milestone (0 if never changed).
    pub fn version(&self, contract_id: u32, milestone_index: u32) -> (v: u32)
        ensures
            v == version_in(self@, contract_id, milestone_index),
    {
        match self.read_version_and_actor(contract_id, milestone_index) {
            Some((v, _)) => v,
            None => 0,
        }
    }

    /// Records one change of a milestone by `actor` and returns the new
    /// version, one more than before. Fails with `PotentialOverflow`, and
    /// records nothing, once the version counter is exhausted.
    pub fn store_transition(&mut self, contract_id: u32, milestone_index: u32, actor: AccountId) -> (r: Result<u32, EscrowError>)
        ensures
            version_in(old(self)@, contract_id, milestone_index) == u32::MAX ==> {
                &&& r == Err::<u32, EscrowError>(EscrowError::PotentialOverflow)
                &&& final(self)@ == old(self)@
            },
            version_in(old(self)@, contract_id, milestone_index) < u32::MAX ==> {
                &&& r == Ok::<u32, EscrowError>((version_in(old(self)@, contract_id, milestone_index) + 1) as u32)
                &&& final(self)@ == old(self)@.insert((contract_id, milestone_index), (r->Ok_0, actor))
            },
    {
        let current = self.version(contract_id, milestone_index);
        if current == u32::MAX {
            return Err(EscrowError::PotentialOverflow);
        }
        let next = current + 1;
        let ghost before = self.entries@;
        self.entries.push(VersionEntry { contract_id, milestone_index, version: next, actor });
        proof {
            assert(self.entries@.drop_last() =~= before);
            assert forall|k: (u32, u32)| k != (contract_id, milestone_index) implies
                lookup(self.entries@, k.0, k.1) == lookup(before, k.0, k.1) by {}
            assert(self@ =~= old(self)@.insert((contract_id, milestone_index), (next, actor)));
        }
        Ok(next)
    }

    /// Accepts a change only if the caller read the milestone at its current
    /// version; a stale version means someone else changed it in between.
    pub fn check_version(&self, contract_id: u32, milestone_index: u32, expected_version: u32) -> (r: Result<(), EscrowError>)
        ensures
            r is Ok <==> expected_version == version_in(self@, contract_id, milestone_index),
            r is Err ==> r == Err::<(), EscrowError>(EscrowError::ConcurrentModification),
    {
        if self.version(contract_id, milestone_index) == expected_version {
            Ok(())
        } else {
            Err(EscrowError::ConcurrentModification)
        }
    }
}

} // verus!
