//! Sums over milestone schedules, and how they change when one milestone
//! is replaced.

use vstd::prelude::*;
use crate::types::Milestone;

verus! {

/// Which quantity of a milestone a sum adds up.
pub enum Part {
    /// The milestone amount.
    Amount,
    /// The amount, for released milestones only.
    Released,
    /// The amount, for refunded milestones only.
    Refunded,
    /// One for each released milestone.
    ReleasedCount,
    /// One for each milestone that is released or refunded.
    SettledCount,
}

/// The quantity `k` of one milestone.
pub open spec fn part(m: Milestone, k: Part) -> int {
    match k {
        Part::Amount => m.amount as int,
        Part::Released => if m.released { m.amount as int } else { 0 },
        Part::Refunded => if m.refunded { m.amount as int } else { 0 },
        Part::ReleasedCount => if m.released { 1 } else { 0 },
        Part::SettledCount => if m.released || m.refunded { 1 } else { 0 },
    }
}

/// The sum of quantity `k` over a schedule.
pub open spec fn sum_of(ms: Seq<Milestone>, k: Part) -> int
    decreases ms.len(),
{
    if ms.len() == 0 {
        0
    } else {
        sum_of(ms.drop_last(), k) + part(ms.last(), k)
    }
}

/// Total amount of a schedule.
pub open spec fn amount_sum(ms: Seq<Milestone>) -> int {
    sum_of(ms, Part::Amount)
}

/// Total amount of the released milestones.
pub open spec fn released_sum(ms: Seq<Milestone>) -> int {
    sum_of(ms, Part::Released)
}

/// Total amount of the refunded milestones.
pub open spec fn refunded_sum(ms: Seq<Milestone>) -> int {
    sum_of(ms, Part::Refunded)
}

/// Number of released milestones.
pub open spec fn released_count(ms: Seq<Milestone>) -> int {
    sum_of(ms, Part::ReleasedCount)
}

/// Whether every milestone is released or refunded.
pub open spec fn all_settled(ms: Seq<Milestone>) -> bool {
    forall|i: int| 0 <= i < ms.len() ==> (#[trigger] ms[i]).released || ms[i].refunded
}

/// Whether some milestone is released.
pub open spec fn any_released(ms: Seq<Milestone>) -> bool {
    exists|i: int| 0 <= i < ms.len() && (#[trigger] ms[i]).released
}

/// Replacing milestone `i` changes a sum by the difference of the two parts.
pub proof fn lemma_sum_update(ms: Seq<Milestone>, i: int, m: Milestone, k: Part)
    requires
        0 <= i < ms.len(),
    ensures
        sum_of(ms.update(i, m), k) == sum_of(ms, k) - part(ms[i], k) + part(m, k),
    decreases ms.len(),
{
    if i < ms.len() - 1 {
        assert(ms.update(i, m).drop_last() =~= ms.drop_last().update(i, m));
        lemma_sum_update(ms.drop_last(), i, m, k);
    } else {
        assert(ms.update(i, m).drop_last() =~= ms.drop_last());
    }
}

/// A sum of non-negative parts lies between zero and the sum of amounts
/// whenever the parts are at most the amounts.
pub proof fn lemma_sum_bounds(ms: Seq<Milestone>, k: Part)
    requires
        forall|i: int| 0 <= i < ms.len() ==> (#[trigger] ms[i]).amount > 0,
        k is Released || k is Refunded,
    ensures
        0 <= sum_of(ms, k) <= amount_sum(ms),
    decreases ms.len(),
{
    if ms.len() > 0 {
        assert forall|i: int| 0 <= i < ms.drop_last().len() implies (#[trigger] ms.drop_last()[i]).amount > 0 by {
            assert(ms.drop_last()[i] == ms[i]);
        }
        lemma_sum_bounds(ms.drop_last(), k);
        assert(ms[ms.len() - 1] == ms.last());
    }
}

/// Released and refunded parts together never exceed the amounts when no
/// milestone is both released and refunded; every part is zero or the amount.
pub proof fn lemma_settled_sums(ms: Seq<Milestone>)
    requires
        forall|i: int| 0 <= i < ms.len() ==> (#[trigger] ms[i]).amount > 0 && !(ms[i].released && ms[i].refunded),
    ensures
        0 <= released_sum(ms),
        0 <= refunded_sum(ms),
        released_sum(ms) + refunded_sum(ms) <= amount_sum(ms),
        all_settled(ms) ==> released_sum(ms) + refunded_sum(ms) == amount_sum(ms),
        0 <= released_count(ms) <= ms.len(),
        0 <= sum_of(ms, Part::SettledCount) <= ms.len(),
        sum_of(ms, Part::SettledCount) == ms.len() <==> all_settled(ms),
        released_count(ms) > 0 <==> any_released(ms),
    decreases ms.len(),
{
    if ms.len() > 0 {
        let p = ms.drop_last();
        assert forall|i: int| 0 <= i < p.len() implies (#[trigger] p[i]).amount > 0 && !(p[i].released && p[i].refunded) by {
            assert(p[i] == ms[i]);
        }
        lemma_settled_sums(p);
        let l = ms.len() - 1;
        assert(ms[l] == ms.last());
        if all_settled(ms) {
            assert forall|i: int| 0 <= i < p.len() implies (#[trigger] p[i]).released || p[i].refunded by {
                assert(p[i] == ms[i]);
            }
        }
        if all_settled(p) && (ms.last().released || ms.last().refunded) {
            assert forall|i: int| 0 <= i < ms.len() implies (#[trigger] ms[i]).released || ms[i].refunded by {
                if i < l {
                    assert(p[i] == ms[i]);
                }
            }
        }
        if any_released(ms) {
            let w = choose|i: int| 0 <= i < ms.len() && (#[trigger] ms[i]).released;
            if w < l {
                assert(p[w] == ms[w]);
            }
        }
        if any_released(p) {
            let w = choose|i: int| 0 <= i < p.len() && (#[trigger] p[i]).released;
            assert(p[w] == ms[w]);
        }
        if ms.last().released {
            assert(ms[l].released);
        }
    }
}

} // verus!
