//! The standard three-milestone schedule (200, 400 and 600 tokens).

use vstd::prelude::*;

verus! {

pub const MILESTONE_ONE: i128 = 2_000_000_000;
pub const MILESTONE_TWO: i128 = 4_000_000_000;
pub const MILESTONE_THREE: i128 = 6_000_000_000;

/// The standard schedule, in order.
pub fn default_milestones() -> (v: Vec<i128>)
    ensures
        v@ == seq![MILESTONE_ONE, MILESTONE_TWO, MILESTONE_THREE],
{
    let mut v: Vec<i128> = Vec::new();
    v.push(MILESTONE_ONE);
    v.push(MILESTONE_TWO);
    v.push(MILESTONE_THREE);
    v
}

/// The total of the standard schedule: 1,200 tokens.
pub fn total_milestone_amount() -> (t: i128)
    ensures
        t == MILESTONE_ONE + MILESTONE_TWO + MILESTONE_THREE,
        t == 12_000_000_000,
{
    MILESTONE_ONE + MILESTONE_TWO + MILESTONE_THREE
}

/// Another name for `total_milestone_amount`.
pub fn total_milestones() -> (t: i128)
    ensures
        t == MILESTONE_ONE + MILESTONE_TWO + MILESTONE_THREE,
{
    total_milestone_amount()
}

} // verus!
