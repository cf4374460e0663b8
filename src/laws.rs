//! Properties that hold across the operations of the library.
use crate::constraints::{HABIT_CHECKPOINTS, MAX_SUBGOALS};
use crate::create::{expected_slot, expected_slots, setup_outcome};
use crate::errors::{ErrorKind, GluXError};
use crate::manage::{
    claim_outcome, review_outcome, slot_error, submit_proof_outcome, trigger_outcome,
};
use crate::schedule::habit_share;
use crate::state::{
    EventType, FeePool, GoalConfigInput, Pubkey, Relations, Roomspace, SubGoal, SubGoalInput,
    SubGoalStatus, TotalGoal,
};
use vstd::array::{spec_array_fill_for_copy_type, spec_array_update};
use vstd::prelude::*;

verus! {

/// The slots of a goal of any shape are the ones `expected_slot` describes.
pub proof fn lemma_expected_slots(
    eventype: EventType,
    inputs: Seq<SubGoalInput>,
    total: u64,
    config: GoalConfigInput,
)
    ensures
        forall|i: int|
            0 <= i < MAX_SUBGOALS ==> #[trigger] expected_slots(eventype, inputs, total, config)[i]
                == expected_slot(eventype, inputs, total, config, i),
{
    let f = |i: int| expected_slot(eventype, inputs, total, config, i);
    let a0 = spec_array_fill_for_copy_type::<SubGoal, MAX_SUBGOALS>(SubGoal::spec_blank());
    let a1 = spec_array_update(a0, 0, f(0));
    let a2 = spec_array_update(a1, 1, f(1));
    let a3 = spec_array_update(a2, 2, f(2));
    let a4 = spec_array_update(a3, 3, f(3));
    let a5 = spec_array_update(a4, 4, f(4));
    assert(a5@ =~= Seq::new(MAX_SUBGOALS as nat, f));
    let b = expected_slots(eventype, inputs, total, config);
    assert(b@ == Seq::new(MAX_SUBGOALS as nat, f));
    assert forall|i: int| 0 <= i < MAX_SUBGOALS implies #[trigger] b[i] == f(i) by {
        assert(b@[i] == f(i));
    }
}

/// A habit-training goal shares its committed amount out over its three
/// checkpoints exactly, whatever the rounding; its other slots hold nothing.
pub proof fn habit_checkpoints_sum_to_total(
    issuer: Pubkey,
    taker: Pubkey,
    goal_id: i64,
    description: String,
    room: Roomspace,
    relations: Relations,
    inputs: Seq<SubGoalInput>,
    total: u64,
    completion_time: i64,
    locked_amount: u64,
    unlock_time: i64,
    config: GoalConfigInput,
    payer_balance: u64,
    now: i64,
    fee_pool: Option<&FeePool>,
    bump: u8,
)
    requires
        setup_outcome(
            issuer,
            taker,
            goal_id,
            description,
            room,
            relations,
            EventType::HabitTraining,
            inputs,
            total,
            completion_time,
            locked_amount,
            unlock_time,
            config,
            payer_balance,
            now,
            fee_pool,
            bump,
        ) is Ok,
    ensures
        ({
            let g = setup_outcome(
                issuer,
                taker,
                goal_id,
                description,
                room,
                relations,
                EventType::HabitTraining,
                inputs,
                total,
                completion_time,
                locked_amount,
                unlock_time,
                config,
                payer_balance,
                now,
                fee_pool,
                bump,
            )->Ok_0.0;
            &&& g.slot_amounts(HABIT_CHECKPOINTS as int) == g.total_incentive_amount
            &&& g.slot_amounts(MAX_SUBGOALS as int) == g.total_incentive_amount
        }),
{
    lemma_expected_slots(EventType::HabitTraining, inputs, total, config);
    let s = expected_slots(EventType::HabitTraining, inputs, total, config);
    let t = total as int;
    assert(s[0].incentive_amount == habit_share(t, 0));
    assert(s[1].incentive_amount == habit_share(t, 1));
    assert(s[2].incentive_amount == habit_share(t, 2));
    assert(s[3].incentive_amount == 0);
    assert(s[4].incentive_amount == 0);
    assert(0 <= t / 7 && 0 <= t * 2 / 7 && t / 7 + t * 2 / 7 <= t) by (nonlinear_arith)
        requires
            t >= 0,
    ;
    let g = setup_outcome(
        issuer,
        taker,
        goal_id,
        description,
        room,
        relations,
        EventType::HabitTraining,
        inputs,
        total,
        completion_time,
        locked_amount,
        unlock_time,
        config,
        payer_balance,
        now,
        fee_pool,
        bump,
    )->Ok_0.0;
    assert(g.sub_goals == s);
    reveal_with_fuel(TotalGoal::slot_amounts, 6);
}

/// One operation of the milestone state machine, with the inputs it takes;
/// the balances are those of the goal's record and of the destination.
pub enum GoalOp {
    SubmitProof { caller: Pubkey, index: u8, proof: Seq<u8>, now: i64 },
    Review {
        caller: Pubkey,
        taker_account: Pubkey,
        index: u8,
        approve: bool,
        goal_balance: u64,
        dest_balance: u64,
    },
    TriggerSurprise { caller: Pubkey, now: i64, goal_balance: u64, dest_balance: u64 },
    ClaimUnused { caller: Pubkey, now: i64, goal_balance: u64, dest_balance: u64 },
}

/// The goal after one operation; unchanged when the operation fails.
pub open spec fn apply_op(g: TotalGoal, op: GoalOp) -> TotalGoal {
    let outcome = match op {
        GoalOp::SubmitProof { caller, index, proof, now } => submit_proof_outcome(
            g,
            caller,
            index as int,
            proof,
            now,
        ),
        GoalOp::Review { caller, taker_account, index, approve, goal_balance, dest_balance } =>
            review_outcome(
            g,
            caller,
            taker_account,
            index as int,
            approve,
            goal_balance,
            dest_balance,
        ),
        GoalOp::TriggerSurprise { caller, now, goal_balance, dest_balance } => trigger_outcome(
            g,
            caller,
            now,
            goal_balance,
            dest_balance,
        ),
        GoalOp::ClaimUnused { caller, now, goal_balance, dest_balance } => claim_outcome(
            g,
            caller,
            now,
            goal_balance,
            dest_balance,
        ),
    };
    match outcome {
        Ok(next) => next,
        Err(_) => g,
    }
}

/// The goal after a sequence of operations.
pub open spec fn run_ops(g: TotalGoal, ops: Seq<GoalOp>) -> TotalGoal
    decreases ops.len(),
{
    if ops.len() == 0 {
        g
    } else {
        apply_op(run_ops(g, ops.drop_last()), ops.last())
    }
}

/// One operation keeps the goal's invariant and its deposit, and never
/// lowers what it has released.
pub proof fn lemma_op_step(g: TotalGoal, op: GoalOp)
    requires
        g.wf(),
    ensures
        apply_op(g, op).wf(),
        apply_op(g, op).deposited_amount == g.deposited_amount,
        g.released_amount <= apply_op(g, op).released_amount,
{
}

/// The invariant holds after any sequence of operations.
pub proof fn lemma_run_wf(g: TotalGoal, ops: Seq<GoalOp>)
    requires
        g.wf(),
    ensures
        run_ops(g, ops).wf(),
        run_ops(g, ops).deposited_amount == g.deposited_amount,
        g.released_amount <= run_ops(g, ops).released_amount,
    decreases ops.len(),
{
    if ops.len() > 0 {
        lemma_run_wf(g, ops.drop_last());
        lemma_op_step(run_ops(g, ops.drop_last()), ops.last());
    }
}

/// Across any sequence of operations on a goal, what it has released never
/// decreases and never exceeds what was deposited.
pub proof fn released_amount_is_monotone(g: TotalGoal, ops: Seq<GoalOp>)
    requires
        g.wf(),
    ensures
        forall|i: int|
            0 <= i < ops.len() ==> run_ops(g, ops.take(i)).released_amount <= #[trigger] run_ops(
                g,
                ops.take(i + 1),
            ).released_amount,
        forall|i: int|
            0 <= i <= ops.len() ==> #[trigger] run_ops(g, ops.take(i)).released_amount <= g.deposited_amount,
{
    assert forall|i: int| 0 <= i < ops.len() implies run_ops(g, ops.take(i)).released_amount
        <= #[trigger] run_ops(g, ops.take(i + 1)).released_amount by {
        assert(ops.take(i + 1).drop_last() =~= ops.take(i));
        assert(ops.take(i + 1).last() == ops[i]);
        lemma_run_wf(g, ops.take(i));
        lemma_op_step(run_ops(g, ops.take(i)), ops[i]);
    }
    assert forall|i: int| 0 <= i <= ops.len() implies #[trigger] run_ops(
        g,
        ops.take(i),
    ).released_amount <= g.deposited_amount by {
        lemma_run_wf(g, ops.take(i));
    }
}

/// Approving a milestone that is already paid always fails, with a state
/// error once the caller and the slot pass their checks; on failure
/// `review_subgoal` changes neither the goal nor any balance.
pub proof fn approving_paid_slot_fails(
    g: TotalGoal,
    caller: Pubkey,
    taker_account: Pubkey,
    index: u8,
    goal_balance: u64,
    taker_balance: u64,
)
    requires
        g.wf(),
        index < MAX_SUBGOALS,
        g.sub_goals[index as int].status == SubGoalStatus::Paid,
    ensures
        review_outcome(g, caller, taker_account, index as int, true, goal_balance, taker_balance) is Err,
        caller == g.issuer && taker_account == g.taker && slot_error(g, index as int) is None
            ==> review_outcome(
            g,
            caller,
            taker_account,
            index as int,
            true,
            goal_balance,
            taker_balance,
        ) == Err::<TotalGoal, GluXError>(GluXError::ProofMissing) && GluXError::ProofMissing.spec_kind()
            == ErrorKind::State,
{
}

} // verus!
