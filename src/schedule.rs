//! How a habit-training goal spreads its amount and its deadlines.
use crate::constraints::{HABIT_CHECKPOINTS, HABIT_INTERVAL_SECONDS};
use vstd::prelude::*;

verus! {

/// Weight of each checkpoint; their sum is 7.
pub open spec fn habit_weight(i: int) -> int {
    if i == 0 {
        1
    } else if i == 1 {
        2
    } else {
        4
    }
}

/// The amount of checkpoint `i` out of `total`: its weighted share rounded
/// down, the last taking what the others left.
pub open spec fn habit_share(total: int, i: int) -> int {
    if i < HABIT_CHECKPOINTS - 1 {
        total * habit_weight(i) / 7
    } else {
        total - total * habit_weight(0) / 7 - total * habit_weight(1) / 7
    }
}

/// Splits `total` over the checkpoints with weights 1, 2 and 4; the
/// amounts add up to `total` exactly.
pub fn habit_amounts(total: u64) -> (r: [u64; HABIT_CHECKPOINTS])
    ensures
        forall|i: int| 0 <= i < HABIT_CHECKPOINTS ==> r[i] == habit_share(total as int, i),
        r[0] + r[1] + r[2] == total,
{
    let first: u64 = ((total as u128) / 7) as u64;
    let second: u64 = ((total as u128) * 2 / 7) as u64;
    assert(first + second <= total) by (nonlinear_arith)
        requires
            first == total / 7,
            second == total * 2 / 7,
    ;
    let last: u64 = total - first - second;
    let r: [u64; HABIT_CHECKPOINTS] = [first, second, last];
    assert(r[0] == first && r[1] == second && r[2] == last);
    r
}

/// The configured interval when positive, else one week.
pub fn default_checkpoint_interval(input: i64) -> (r: i64)
    ensures
        r == (if input > 0 {
            input
        } else {
            HABIT_INTERVAL_SECONDS
        }),
{
    if input > 0 {
        input
    } else {
        HABIT_INTERVAL_SECONDS
    }
}

} // verus!
