//! The milestone state machine: proofs, reviews, the surprise payout and
//! the reclaiming of unused funds.
//!
//! Each operation is described by a spec function that gives either the
//! goal's next state or the error; on error nothing changes. Value leaves a
//! goal's record only through `payout_from_goal`, and exactly as much as the
//! goal's `released_amount` grows.
use crate::constraints::{MAX_PROOF_URI_LENGTH, MAX_SUBGOALS};
use crate::errors::GluXError;
use crate::state::{
    lemma_fixed_array_unique, spec_fixed_array, string_to_fixed, EventType, Pubkey, SubGoal,
    SubGoalStatus, TotalGoal,
};
use vstd::array::spec_array_update;
use vstd::prelude::*;
use vstd::string::StringSliceAdditionalSpecFns;

verus! {

/// `c + 1`, held at the largest `u8`.
pub open spec fn saturating_inc(c: u8) -> u8 {
    if c == u8::MAX {
        u8::MAX
    } else {
        (c + 1) as u8
    }
}

/// The goal with slot `i` replaced.
pub open spec fn with_slot(g: TotalGoal, i: int, s: SubGoal) -> TotalGoal {
    TotalGoal { sub_goals: spec_array_update(g.sub_goals, i, s), ..g }
}

/// The goal after slot `i` was paid out.
pub open spec fn paid_slot(g: TotalGoal, i: int) -> TotalGoal {
    TotalGoal {
        sub_goals: spec_array_update(
            g.sub_goals,
            i,
            SubGoal { status: SubGoalStatus::Paid, ..g.sub_goals[i] },
        ),
        released_amount: (g.released_amount + g.sub_goals[i].incentive_amount) as u64,
        completed_count: saturating_inc(g.completed_count),
        ..g
    }
}

/// Why slot `index` cannot be operated on: beyond the active slots, or an
/// unused one.
pub open spec fn slot_error(g: TotalGoal, index: int) -> Option<GluXError> {
    if index >= g.active_sub_goals || !g.sub_goals[index].is_active {
        Some(GluXError::SubGoalIndexOutOfBounds)
    } else {
        None
    }
}

/// Why `amount` cannot leave the goal's record (holding `source`) for a
/// destination holding `dest`: nothing to pay, more than the goal has left
/// of its deposit or of its balance, or a destination that would overflow.
pub open spec fn payout_error(g: TotalGoal, amount: u64, source: u64, dest: u64) -> Option<
    GluXError,
> {
    if amount == 0 || amount > g.deposited_amount - g.released_amount || source < amount || dest
        + amount > u64::MAX {
        Some(GluXError::NoFundsAvailable)
    } else {
        None
    }
}

/// Moves `amount` from the goal's balance to a destination's balance, or
/// fails with a funds error and moves nothing.
pub fn payout_from_goal(goal_balance: &mut u64, destination: &mut u64, amount: u64) -> (r: Result<
    (),
    GluXError,
>)
    ensures
        r is Ok <==> (amount > 0 && *old(goal_balance) >= amount && *old(destination) + amount
            <= u64::MAX),
        r is Err ==> r == Err::<(), GluXError>(GluXError::NoFundsAvailable) && *final(goal_balance)
            == *old(goal_balance) && *final(destination) == *old(destination),
        r is Ok ==> *final(goal_balance) == *old(goal_balance) - amount && *final(destination)
            == *old(destination) + amount,
{
    if amount == 0 {
        return Err(GluXError::NoFundsAvailable);
    }
    if *goal_balance < amount {
        return Err(GluXError::NoFundsAvailable);
    }
    if *destination > u64::MAX - amount {
        return Err(GluXError::NoFundsAvailable);
    }
    *goal_balance = *goal_balance - amount;
    *destination = *destination + amount;
    Ok(())
}

/// Pays `amount` out of a goal: checks that its deposit still covers it,
/// then moves the value.
fn release(g: &TotalGoal, goal_balance: &mut u64, destination: &mut u64, amount: u64) -> (r: Result<
    (),
    GluXError,
>)
    requires
        g.wf(),
    ensures
        match payout_error(*g, amount, *old(goal_balance), *old(destination)) {
            Some(e) => r == Err::<(), GluXError>(e) && *final(goal_balance) == *old(goal_balance)
                && *final(destination) == *old(destination),
            None => r is Ok && *final(goal_balance) == *old(goal_balance) - amount
                && *final(destination) == *old(destination) + amount,
        },
{
    if amount > g.deposited_amount - g.released_amount {
        return Err(GluXError::NoFundsAvailable);
    }
    payout_from_goal(goal_balance, destination, amount)
}

/// What `submit_proof` makes of a goal, given the proof's UTF-8 bytes.
pub open spec fn submit_proof_outcome(
    g: TotalGoal,
    caller: Pubkey,
    index: int,
    proof: Seq<u8>,
    now: i64,
) -> Result<TotalGoal, GluXError> {
    if caller != g.taker {
        Err(GluXError::UnauthorizedTaker)
    } else if slot_error(g, index) is Some {
        Err(slot_error(g, index)->0)
    } else {
        let s = g.sub_goals[index];
        match s.status {
            SubGoalStatus::ProofSubmitted => Err(GluXError::ProofAlreadySubmitted),
            SubGoalStatus::Approved | SubGoalStatus::Paid => Err(GluXError::SubGoalAlreadyFinalized),
            _ => Ok(
                with_slot(
                    g,
                    index,
                    SubGoal {
                        proof_uri: spec_fixed_array::<MAX_PROOF_URI_LENGTH>(proof),
                        status: SubGoalStatus::ProofSubmitted,
                        submitted_at: now,
                        ..s
                    },
                ),
            ),
        }
    }
}

/// The taker attaches a proof to a pending or rejected milestone.
pub fn submit_proof(
    goal: &mut TotalGoal,
    caller: &Pubkey,
    subgoal_index: u8,
    proof_uri: &str,
    now: i64,
) -> (r: Result<(), GluXError>)
    requires
        old(goal).wf(),
    ensures
        final(goal).wf(),
        match submit_proof_outcome(
            *old(goal),
            *caller,
            subgoal_index as int,
            proof_uri.spec_bytes(),
            now,
        ) {
            Ok(g) => r is Ok && *final(goal) == g,
            Err(e) => r == Err::<(), GluXError>(e) && *final(goal) == *old(goal),
        },
{
    if !caller.same(&goal.taker) {
        return Err(GluXError::UnauthorizedTaker);
    }
    let index = subgoal_index as usize;
    if index >= goal.active_sub_goals as usize {
        return Err(GluXError::SubGoalIndexOutOfBounds);
    }
    let mut slot = goal.sub_goals[index];
    if !slot.is_active {
        return Err(GluXError::SubGoalIndexOutOfBounds);
    }
    match slot.status {
        SubGoalStatus::Pending | SubGoalStatus::Rejected => {},
        SubGoalStatus::ProofSubmitted => {
            return Err(GluXError::ProofAlreadySubmitted);
        },
        SubGoalStatus::Approved | SubGoalStatus::Paid => {
            return Err(GluXError::SubGoalAlreadyFinalized);
        },
    }
    slot.proof_uri = string_to_fixed::<MAX_PROOF_URI_LENGTH>(proof_uri);
    proof {
        lemma_fixed_array_unique::<MAX_PROOF_URI_LENGTH>(slot.proof_uri, proof_uri.spec_bytes());
    }
    slot.status = SubGoalStatus::ProofSubmitted;
    slot.submitted_at = now;
    let ghost before = *goal;
    goal.sub_goals[index] = slot;
    assert(goal.sub_goals =~= spec_array_update(before.sub_goals, index as int, slot));
    Ok(())
}

/// What `review_subgoal` makes of a goal whose record holds `goal_balance`
/// and whose taker holds `taker_balance`.
pub open spec fn review_outcome(
    g: TotalGoal,
    caller: Pubkey,
    taker_account: Pubkey,
    index: int,
    approve: bool,
    goal_balance: u64,
    taker_balance: u64,
) -> Result<TotalGoal, GluXError> {
    if caller != g.issuer {
        Err(GluXError::UnauthorizedSigner)
    } else if taker_account != g.taker {
        Err(GluXError::UnauthorizedTaker)
    } else if slot_error(g, index) is Some {
        Err(slot_error(g, index)->0)
    } else {
        let s = g.sub_goals[index];
        if !approve {
            if s.status == SubGoalStatus::Approved || s.status == SubGoalStatus::Paid {
                Err(GluXError::SubGoalAlreadyFinalized)
            } else {
                Ok(with_slot(g, index, SubGoal { status: SubGoalStatus::Rejected, ..s }))
            }
        } else if !(s.status == SubGoalStatus::ProofSubmitted || s.status
            == SubGoalStatus::Pending) {
            Err(GluXError::ProofMissing)
        } else if payout_error(g, s.incentive_amount, goal_balance, taker_balance) is Some {
            Err(payout_error(g, s.incentive_amount, goal_balance, taker_balance)->0)
        } else {
            Ok(paid_slot(g, index))
        }
    }
}

/// The issuer rejects a milestone, or approves it and pays its amount to
/// the taker. A paid milestone can be neither rejected nor approved again.
pub fn review_subgoal(
    goal: &mut TotalGoal,
    caller: &Pubkey,
    taker_account: &Pubkey,
    subgoal_index: u8,
    approve: bool,
    goal_balance: &mut u64,
    taker_balance: &mut u64,
) -> (r: Result<(), GluXError>)
    requires
        old(goal).wf(),
    ensures
        final(goal).wf(),
        match review_outcome(
            *old(goal),
            *caller,
            *taker_account,
            subgoal_index as int,
            approve,
            *old(goal_balance),
            *old(taker_balance),
        ) {
            Ok(g) => r is Ok && *final(goal) == g,
            Err(e) => r == Err::<(), GluXError>(e) && *final(goal) == *old(goal),
        },
        *final(goal_balance) == *old(goal_balance) - (final(goal).released_amount
            - old(goal).released_amount),
        *final(taker_balance) == *old(taker_balance) + (final(goal).released_amount
            - old(goal).released_amount),
{
    if !caller.same(&goal.issuer) {
        return Err(GluXError::UnauthorizedSigner);
    }
    if !taker_account.same(&goal.taker) {
        return Err(GluXError::UnauthorizedTaker);
    }
    let index = subgoal_index as usize;
    if index >= goal.active_sub_goals as usize {
        return Err(GluXError::SubGoalIndexOutOfBounds);
    }
    let mut slot = goal.sub_goals[index];
    if !slot.is_active {
        return Err(GluXError::SubGoalIndexOutOfBounds);
    }
    let ghost before = *goal;
    if !approve {
        if slot.status == SubGoalStatus::Approved || slot.status == SubGoalStatus::Paid {
            return Err(GluXError::SubGoalAlreadyFinalized);
        }
        slot.status = SubGoalStatus::Rejected;
        goal.sub_goals[index] = slot;
        assert(goal.sub_goals =~= spec_array_update(before.sub_goals, index as int, slot));
        return Ok(());
    }
    if !(slot.status == SubGoalStatus::ProofSubmitted || slot.status == SubGoalStatus::Pending) {
        return Err(GluXError::ProofMissing);
    }
    let amount = slot.incentive_amount;
    match release(goal, goal_balance, taker_balance, amount) {
        Ok(()) => {},
        Err(e) => {
            return Err(e);
        },
    }
    slot.status = SubGoalStatus::Paid;
    goal.sub_goals[index] = slot;
    goal.released_amount = goal.released_amount + amount;
    goal.completed_count = goal.completed_count.saturating_add(1);
    assert(goal.sub_goals =~= spec_array_update(before.sub_goals, index as int, slot));
    Ok(())
}

/// What `trigger_surprise` makes of a goal.
pub open spec fn trigger_outcome(
    g: TotalGoal,
    caller: Pubkey,
    now: i64,
    goal_balance: u64,
    taker_balance: u64,
) -> Result<TotalGoal, GluXError> {
    if caller != g.taker {
        Err(GluXError::UnauthorizedTaker)
    } else if g.eventype != EventType::SurpriseTime {
        Err(GluXError::EventTypeNotSupport)
    } else if now < g.surprise_trigger_ts {
        Err(GluXError::SurpriseTimeNotReached)
    } else if !g.sub_goals[0].is_active {
        Err(GluXError::SubGoalIndexOutOfBounds)
    } else if g.sub_goals[0].status == SubGoalStatus::Paid {
        Err(GluXError::SubGoalAlreadyFinalized)
    } else if payout_error(g, g.sub_goals[0].incentive_amount, goal_balance, taker_balance) is Some {
        Err(payout_error(g, g.sub_goals[0].incentive_amount, goal_balance, taker_balance)->0)
    } else {
        Ok(paid_slot(g, 0))
    }
}

/// Once the surprise moment has come, the taker collects the single
/// milestone of a surprise goal.
pub fn trigger_surprise(
    goal: &mut TotalGoal,
    caller: &Pubkey,
    now: i64,
    goal_balance: &mut u64,
    taker_balance: &mut u64,
) -> (r: Result<(), GluXError>)
    requires
        old(goal).wf(),
    ensures
        final(goal).wf(),
        match trigger_outcome(*old(goal), *caller, now, *old(goal_balance), *old(taker_balance)) {
            Ok(g) => r is Ok && *final(goal) == g,
            Err(e) => r == Err::<(), GluXError>(e) && *final(goal) == *old(goal),
        },
        *final(goal_balance) == *old(goal_balance) - (final(goal).released_amount
            - old(goal).released_amount),
        *final(taker_balance) == *old(taker_balance) + (final(goal).released_amount
            - old(goal).released_amount),
{
    if !caller.same(&goal.taker) {
        return Err(GluXError::UnauthorizedTaker);
    }
    if goal.eventype != EventType::SurpriseTime {
        return Err(GluXError::EventTypeNotSupport);
    }
    if now < goal.surprise_trigger_ts {
        return Err(GluXError::SurpriseTimeNotReached);
    }
    let mut slot = goal.sub_goals[0];
    if !slot.is_active {
        return Err(GluXError::SubGoalIndexOutOfBounds);
    }
    if slot.status == SubGoalStatus::Paid {
        return Err(GluXError::SubGoalAlreadyFinalized);
    }
    let ghost before = *goal;
    let amount = slot.incentive_amount;
    match release(goal, goal_balance, taker_balance, amount) {
        Ok(()) => {},
        Err(e) => {
            return Err(e);
        },
    }
    slot.status = SubGoalStatus::Paid;
    goal.sub_goals[0] = slot;
    goal.released_amount = goal.released_amount + amount;
    goal.completed_count = goal.completed_count.saturating_add(1);
    assert(goal.sub_goals =~= spec_array_update(before.sub_goals, 0, slot));
    Ok(())
}

/// What `claim_unused` makes of a goal.
pub open spec fn claim_outcome(
    g: TotalGoal,
    caller: Pubkey,
    now: i64,
    goal_balance: u64,
    issuer_balance: u64,
) -> Result<TotalGoal, GluXError> {
    let remaining = (g.deposited_amount - g.released_amount) as u64;
    if caller != g.issuer {
        Err(GluXError::UnauthorizedSigner)
    } else if now < g.unlock_time {
        Err(GluXError::UnlockTimeNotReached)
    } else if payout_error(g, remaining, goal_balance, issuer_balance) is Some {
        Err(payout_error(g, remaining, goal_balance, issuer_balance)->0)
    } else {
        Ok(TotalGoal { released_amount: g.deposited_amount, ..g })
    }
}

/// After the unlock moment, the issuer takes back whatever of the deposit
/// has not been released.
pub fn claim_unused(
    goal: &mut TotalGoal,
    caller: &Pubkey,
    now: i64,
    goal_balance: &mut u64,
    issuer_balance: &mut u64,
) -> (r: Result<(), GluXError>)
    requires
        old(goal).wf(),
    ensures
        final(goal).wf(),
        match claim_outcome(*old(goal), *caller, now, *old(goal_balance), *old(issuer_balance)) {
            Ok(g) => r is Ok && *final(goal) == g,
            Err(e) => r == Err::<(), GluXError>(e) && *final(goal) == *old(goal),
        },
        *final(goal_balance) == *old(goal_balance) - (final(goal).released_amount
            - old(goal).released_amount),
        *final(issuer_balance) == *old(issuer_balance) + (final(goal).released_amount
            - old(goal).released_amount),
{
    if !caller.same(&goal.issuer) {
        return Err(GluXError::UnauthorizedSigner);
    }
    if now < goal.unlock_time {
        return Err(GluXError::UnlockTimeNotReached);
    }
    let remaining = goal.deposited_amount - goal.released_amount;
    match release(goal, goal_balance, issuer_balance, remaining) {
        Ok(()) => {},
        Err(e) => {
            return Err(e);
        },
    }
    goal.released_amount = goal.deposited_amount;
    Ok(())
}

} // verus!
