//! The goal factory: validates creation parameters and lays out the
//! sub-goal slots for each of the three goal shapes.
use crate::constraints::{
    HABIT_CHECKPOINTS, HABIT_INTERVAL_SECONDS, MAX_DESCRIPTION_BYTES, MAX_SUBGOALS,
    MAX_SUBGOAL_TITLE_LENGTH, RECORD_VERSION,
};
use crate::errors::GluXError;
use crate::schedule::{default_checkpoint_interval, habit_amounts, habit_share};
use crate::state::{
    blank_sub_goals, bytes_to_fixed, lemma_fixed_array_unique, spec_fixed_array, EventType,
    FeePool, GoalConfigInput, Pubkey, Relations, Roomspace, SubGoal, SubGoalInput, TotalGoal,
};
use vstd::prelude::*;
use vstd::string::StringSliceAdditionalSpecFns;
use vstd::utf8::encode_utf8;

verus! {

/// Sum of the incentive amounts of milestone inputs.
pub open spec fn inputs_total(s: Seq<SubGoalInput>) -> int
    decreases s.len(),
{
    if s.len() == 0 {
        0
    } else {
        inputs_total(s.drop_last()) + s.last().incentive_amount
    }
}

/// The first error of creation's validation, if any: description length,
/// amounts against the payer's balance, the order of the moments, the
/// interval's sign, then what the goal's shape asks for.
pub open spec fn param_error(
    description_len: int,
    eventype: EventType,
    inputs: Seq<SubGoalInput>,
    total: u64,
    completion_time: i64,
    locked_amount: u64,
    unlock_time: i64,
    config: GoalConfigInput,
    payer_balance: u64,
    now: i64,
) -> Option<GluXError> {
    if description_len > MAX_DESCRIPTION_BYTES {
        Some(GluXError::DescExceedMaxChars)
    } else if total == 0 || total > payer_balance {
        Some(GluXError::PayerAccountInsufficient)
    } else if locked_amount > total {
        Some(GluXError::LockedAmountInvalid)
    } else if unlock_time < completion_time {
        Some(GluXError::UnLockedTimeInvalid)
    } else if completion_time < now {
        Some(GluXError::HabitConfigInvalid)
    } else if config.checkpoint_interval < 0 {
        Some(GluXError::InvalidCheckpointInterval)
    } else {
        match eventype {
            EventType::HabitTraining => if config.start_time < now {
                Some(GluXError::HabitConfigInvalid)
            } else {
                None
            },
            EventType::TargetAchieve => if inputs.len() == 0 {
                Some(GluXError::MissingSubGoals)
            } else if inputs.len() > MAX_SUBGOALS {
                Some(GluXError::SubGoalNumExceed)
            } else if inputs_total(inputs) > total {
                Some(GluXError::SumOfSubgoalAmountInvalid)
            } else {
                None
            },
            EventType::SurpriseTime => if config.surprise_time <= now {
                Some(GluXError::HabitConfigInvalid)
            } else {
                None
            },
        }
    }
}

/// Validates the parameters of a new goal against the payer's balance and
/// the current time.
pub fn param_check(
    description: &str,
    eventype: EventType,
    sub_goals: &Vec<SubGoalInput>,
    total_incentive_amount: u64,
    completion_time: i64,
    locked_amount: u64,
    unlock_time: i64,
    config: &GoalConfigInput,
    payer_balance: u64,
    now: i64,
) -> (r: Result<(), GluXError>)
    ensures
        match param_error(
            description.len() as int,
            eventype,
            sub_goals@,
            total_incentive_amount,
            completion_time,
            locked_amount,
            unlock_time,
            *config,
            payer_balance,
            now,
        ) {
            Some(e) => r == Err::<(), GluXError>(e),
            None => r is Ok,
        },
{
    if description.len() > MAX_DESCRIPTION_BYTES {
        return Err(GluXError::DescExceedMaxChars);
    }
    if total_incentive_amount == 0 || total_incentive_amount > payer_balance {
        return Err(GluXError::PayerAccountInsufficient);
    }
    if locked_amount > total_incentive_amount {
        return Err(GluXError::LockedAmountInvalid);
    }
    if unlock_time < completion_time {
        return Err(GluXError::UnLockedTimeInvalid);
    }
    if completion_time < now {
        return Err(GluXError::HabitConfigInvalid);
    }
    if config.checkpoint_interval < 0 {
        return Err(GluXError::InvalidCheckpointInterval);
    }
    match eventype {
        EventType::HabitTraining => {
            if config.start_time < now {
                return Err(GluXError::HabitConfigInvalid);
            }
        },
        EventType::TargetAchieve => {
            if sub_goals.len() == 0 {
                return Err(GluXError::MissingSubGoals);
            }
            if sub_goals.len() > MAX_SUBGOALS {
                return Err(GluXError::SubGoalNumExceed);
            }
            let sum = inputs_sum(sub_goals);
            if sum > total_incentive_amount as u128 {
                return Err(GluXError::SumOfSubgoalAmountInvalid);
            }
        },
        EventType::SurpriseTime => {
            if config.surprise_time <= now {
                return Err(GluXError::HabitConfigInvalid);
            }
        },
    }
    Ok(())
}

/// Sum of the incentive amounts of a short list of milestone inputs.
fn inputs_sum(sub_goals: &Vec<SubGoalInput>) -> (r: u128)
    requires
        sub_goals@.len() <= MAX_SUBGOALS,
    ensures
        r == inputs_total(sub_goals@),
{
    let mut acc: u128 = 0;
    let mut i: usize = 0;
    while i < sub_goals.len()
        invariant
            i <= sub_goals@.len(),
            sub_goals@.len() <= MAX_SUBGOALS,
            acc == inputs_total(sub_goals@.take(i as int)),
            acc <= i * u64::MAX,
        decreases sub_goals@.len() - i,
    {
        assert(sub_goals@.take(i as int + 1).drop_last() =~= sub_goals@.take(i as int));
        acc = acc + sub_goals[i].incentive_amount as u128;
        i = i + 1;
    }
    assert(sub_goals@.take(i as int) =~= sub_goals@);
    acc
}

/// Title bytes of habit checkpoint `i`: "21d habit checkpoint " and the
/// checkpoint's number, counted from one.
pub open spec fn habit_title(i: int) -> Seq<u8> {
    seq![
        50u8, 49, 100, 32, 104, 97, 98, 105, 116, 32, 99, 104, 101, 99, 107, 112, 111, 105, 110,
        116, 32,
    ].push((49 + i) as u8)
}

/// Title bytes of the single milestone of a surprise goal: "Surprise Moment".
pub open spec fn surprise_title() -> Seq<u8> {
    seq![83u8, 117, 114, 112, 114, 105, 115, 101, 32, 77, 111, 109, 101, 110, 116]
}

/// The checkpoint interval of a habit goal.
pub open spec fn habit_interval(config: GoalConfigInput) -> i64 {
    if config.checkpoint_interval > 0 {
        config.checkpoint_interval
    } else {
        HABIT_INTERVAL_SECONDS
    }
}

/// Deadline of habit checkpoint `i`.
pub open spec fn habit_deadline(config: GoalConfigInput, i: int) -> int {
    config.start_time + (i + 1) * habit_interval(config)
}

/// Slot `i` of a goal of the given shape.
pub open spec fn expected_slot(
    eventype: EventType,
    inputs: Seq<SubGoalInput>,
    total: u64,
    config: GoalConfigInput,
    i: int,
) -> SubGoal {
    match eventype {
        EventType::HabitTraining => if i < HABIT_CHECKPOINTS {
            SubGoal::spec_from_input(
                habit_title(i),
                habit_deadline(config, i) as i64,
                habit_share(total as int, i) as u64,
                0,
            )
        } else {
            SubGoal::spec_blank()
        },
        EventType::TargetAchieve => if i < inputs.len() {
            SubGoal::spec_from_input(
                encode_utf8(inputs[i].title@),
                inputs[i].deadline,
                inputs[i].incentive_amount,
                inputs[i].auto_release_at,
            )
        } else {
            SubGoal::spec_blank()
        },
        EventType::SurpriseTime => if i == 0 {
            SubGoal::spec_from_input(
                surprise_title(),
                config.surprise_time,
                total,
                config.surprise_time,
            )
        } else {
            SubGoal::spec_blank()
        },
    }
}

/// The slots of a goal of the given shape.
pub open spec fn expected_slots(
    eventype: EventType,
    inputs: Seq<SubGoalInput>,
    total: u64,
    config: GoalConfigInput,
) -> [SubGoal; MAX_SUBGOALS] {
    choose|a: [SubGoal; MAX_SUBGOALS]|
        a@ == Seq::new(
            MAX_SUBGOALS as nat,
            |i: int| expected_slot(eventype, inputs, total, config, i),
        )
}

/// Slots that match `expected_slot` one by one are `expected_slots`.
proof fn lemma_slots_unique(
    a: [SubGoal; MAX_SUBGOALS],
    eventype: EventType,
    inputs: Seq<SubGoalInput>,
    total: u64,
    config: GoalConfigInput,
)
    requires
        forall|i: int| 0 <= i < MAX_SUBGOALS ==> a[i] == expected_slot(eventype, inputs, total, config, i),
    ensures
        a == expected_slots(eventype, inputs, total, config),
{
    let b = expected_slots(eventype, inputs, total, config);
    assert(a@ =~= Seq::new(
        MAX_SUBGOALS as nat,
        |i: int| expected_slot(eventype, inputs, total, config, i),
    ));
    assert(a =~= b);
}

/// Active slots of a goal of the given shape.
pub open spec fn expected_active(eventype: EventType, n_inputs: int) -> u8 {
    match eventype {
        EventType::HabitTraining => HABIT_CHECKPOINTS as u8,
        EventType::TargetAchieve => if n_inputs < MAX_SUBGOALS {
            n_inputs as u8
        } else {
            MAX_SUBGOALS as u8
        },
        EventType::SurpriseTime => 1,
    }
}

/// Start time of a goal of the given shape: the configured start when
/// positive, else now; a surprise goal starts at its surprise moment.
pub open spec fn expected_start(eventype: EventType, config: GoalConfigInput, now: i64) -> i64 {
    match eventype {
        EventType::SurpriseTime => config.surprise_time,
        _ => if config.start_time > 0 {
            config.start_time
        } else {
            now
        },
    }
}

/// Surprise moment of a goal of the given shape; -1 when it has none.
pub open spec fn expected_surprise(eventype: EventType, config: GoalConfigInput) -> i64 {
    match eventype {
        EventType::SurpriseTime => config.surprise_time,
        _ => -1i64,
    }
}

/// Checkpoint interval of a goal of the given shape.
pub open spec fn expected_interval(eventype: EventType, config: GoalConfigInput) -> i64 {
    match eventype {
        EventType::HabitTraining => habit_interval(config),
        _ => config.checkpoint_interval,
    }
}

/// Why the slots of a goal of the given shape cannot be laid out: a habit
/// goal without a positive start or whose last deadline does not fit, a
/// target goal without milestones, a surprise goal without a positive
/// moment, or a completion time before the start.
pub open spec fn prepare_error(
    eventype: EventType,
    n_inputs: int,
    completion_time: i64,
    config: GoalConfigInput,
    now: i64,
) -> Option<GluXError> {
    match eventype {
        EventType::HabitTraining => if config.start_time <= 0 || habit_deadline(
            config,
            HABIT_CHECKPOINTS - 1,
        ) > i64::MAX {
            Some(GluXError::HabitConfigInvalid)
        } else if completion_time < config.start_time {
            Some(GluXError::HabitConfigInvalid)
        } else {
            None
        },
        EventType::TargetAchieve => if n_inputs == 0 {
            Some(GluXError::MissingSubGoals)
        } else if completion_time < expected_start(eventype, config, now) {
            Some(GluXError::HabitConfigInvalid)
        } else {
            None
        },
        EventType::SurpriseTime => if config.surprise_time <= 0 || completion_time
            < config.surprise_time {
            Some(GluXError::HabitConfigInvalid)
        } else {
            None
        },
    }
}

/// The bytes of a habit checkpoint's title.
fn habit_title_bytes(week: usize) -> (r: Vec<u8>)
    requires
        week < HABIT_CHECKPOINTS,
    ensures
        r@ == habit_title(week as int),
{
    let mut r: Vec<u8> = vec![
        50u8, 49, 100, 32, 104, 97, 98, 105, 116, 32, 99, 104, 101, 99, 107, 112, 111, 105, 110,
        116, 32,
    ];
    r.push(49u8 + week as u8);
    assert(r@ =~= habit_title(week as int));
    r
}

/// A slot made from title bytes, as `SubGoal::from_input` makes one.
fn slot_from_bytes(title: &[u8], deadline: i64, incentive_amount: u64, auto_release_at: i64) -> (r:
    SubGoal)
    ensures
        r == SubGoal::spec_from_input(title@, deadline, incentive_amount, auto_release_at),
{
    let mut goal = SubGoal::default();
    goal.title = bytes_to_fixed::<MAX_SUBGOAL_TITLE_LENGTH>(title);
    proof {
        lemma_fixed_array_unique::<MAX_SUBGOAL_TITLE_LENGTH>(goal.title, title@);
    }
    goal.deadline = deadline;
    goal.incentive_amount = incentive_amount;
    goal.auto_release_at = if auto_release_at > 0 {
        auto_release_at
    } else {
        deadline
    };
    goal.is_active = true;
    goal
}

/// Lays out the slots of a new goal: its slots, how many are active, its
/// start time, its surprise moment and its checkpoint interval.
pub fn prepare_sub_goals(
    eventype: EventType,
    sub_goals: &Vec<SubGoalInput>,
    total_incentive_amount: u64,
    completion_time: i64,
    config: &GoalConfigInput,
    current_time: i64,
) -> (r: Result<([SubGoal; MAX_SUBGOALS], u8, i64, i64, i64), GluXError>)
    ensures
        match prepare_error(eventype, sub_goals@.len() as int, completion_time, *config, current_time) {
            Some(e) => r == Err::<([SubGoal; MAX_SUBGOALS], u8, i64, i64, i64), GluXError>(e),
            None => r == Ok::<([SubGoal; MAX_SUBGOALS], u8, i64, i64, i64), GluXError>(
                (
                    expected_slots(eventype, sub_goals@, total_incentive_amount, *config),
                    expected_active(eventype, sub_goals@.len() as int),
                    expected_start(eventype, *config, current_time),
                    expected_surprise(eventype, *config),
                    expected_interval(eventype, *config),
                ),
            ),
        },
{
    let mut storage = blank_sub_goals();
    let mut surprise_ts: i64 = -1;
    let mut checkpoint_interval: i64 = config.checkpoint_interval;
    let mut active: u8 = 0;
    let mut start_time: i64 = if config.start_time > 0 {
        config.start_time
    } else {
        current_time
    };
    match eventype {
        EventType::HabitTraining => {
            if config.start_time <= 0 {
                return Err(GluXError::HabitConfigInvalid);
            }
            checkpoint_interval = default_checkpoint_interval(config.checkpoint_interval);
            let last_deadline: i128 = config.start_time as i128 + 3 * (checkpoint_interval as i128);
            if last_deadline > i64::MAX as i128 {
                return Err(GluXError::HabitConfigInvalid);
            }
            let amounts = habit_amounts(total_incentive_amount);
            let mut week: usize = 0;
            while week < HABIT_CHECKPOINTS
                invariant
                    week <= HABIT_CHECKPOINTS,
                    config.start_time > 0,
                    checkpoint_interval == habit_interval(*config),
                    checkpoint_interval > 0,
                    habit_deadline(*config, HABIT_CHECKPOINTS - 1) <= i64::MAX,
                    forall|i: int| 0 <= i < HABIT_CHECKPOINTS ==> amounts[i] == habit_share(total_incentive_amount as int, i),
                    forall|i: int| 0 <= i < week ==> storage[i] == expected_slot(eventype, sub_goals@, total_incentive_amount, *config, i),
                    forall|i: int| week <= i < MAX_SUBGOALS ==> storage[i] == SubGoal::spec_blank(),
                    eventype == EventType::HabitTraining,
                decreases HABIT_CHECKPOINTS - week,
            {
                let title = habit_title_bytes(week);
                assert(habit_deadline(*config, week as int) <= habit_deadline(*config, HABIT_CHECKPOINTS - 1)) by (nonlinear_arith)
                    requires
                        week < HABIT_CHECKPOINTS,
                        checkpoint_interval == habit_interval(*config),
                        checkpoint_interval > 0,
                ;
                let deadline: i64 = config.start_time + ((week as i64) + 1) * checkpoint_interval;
                let slot = slot_from_bytes(title.as_slice(), deadline, amounts[week], 0);
                storage[week] = slot;
                week = week + 1;
            }
            active = HABIT_CHECKPOINTS as u8;
        },
        EventType::TargetAchieve => {
            if sub_goals.len() == 0 {
                return Err(GluXError::MissingSubGoals);
            }
            let n: usize = if sub_goals.len() < MAX_SUBGOALS {
                sub_goals.len()
            } else {
                MAX_SUBGOALS
            };
            let mut idx: usize = 0;
            while idx < n
                invariant
                    idx <= n,
                    n <= MAX_SUBGOALS,
                    n <= sub_goals@.len(),
                    n == MAX_SUBGOALS || n == sub_goals@.len(),
                    active == idx,
                    forall|i: int| 0 <= i < idx ==> storage[i] == expected_slot(eventype, sub_goals@, total_incentive_amount, *config, i),
                    forall|i: int| idx <= i < MAX_SUBGOALS ==> storage[i] == SubGoal::spec_blank(),
                    eventype == EventType::TargetAchieve,
                decreases n - idx,
            {
                storage[idx] = SubGoal::from_input(&sub_goals[idx]);
                active = active + 1;
                idx = idx + 1;
            }
        },
        EventType::SurpriseTime => {
            if config.surprise_time <= 0 {
                return Err(GluXError::HabitConfigInvalid);
            }
            surprise_ts = config.surprise_time;
            start_time = config.surprise_time;
            let title: Vec<u8> = vec![83u8, 117, 114, 112, 114, 105, 115, 101, 32, 77, 111, 109, 101, 110, 116];
            assert(title@ =~= surprise_title());
            storage[0] = slot_from_bytes(
                title.as_slice(),
                config.surprise_time,
                total_incentive_amount,
                config.surprise_time,
            );
            active = 1;
        },
    }
    if active == 0 {
        return Err(GluXError::MissingSubGoals);
    }
    if completion_time < start_time {
        return Err(GluXError::HabitConfigInvalid);
    }
    proof {
        lemma_slots_unique(storage, eventype, sub_goals@, total_incentive_amount, *config);
    }
    Ok((storage, active, start_time, surprise_ts, checkpoint_interval))
}

/// The protocol fee on `total` at the pool's rate, rounded down; no fee
/// without a pool or with a zero numerator or denominator.
pub open spec fn protocol_fee(total: u64, fee_pool: Option<&FeePool>) -> int {
    match fee_pool {
        Some(p) => if p.protocol_fee_numerator > 0 && p.protocol_fee_denominator > 0 {
            (total as int) * (p.protocol_fee_numerator as int) / (p.protocol_fee_denominator as int)
        } else {
            0
        },
        None => 0,
    }
}

/// The fee owed on `total`; a fee above `total` is a funds error.
pub fn compute_fee(total: u64, fee_pool: Option<&FeePool>) -> (r: Result<u64, GluXError>)
    ensures
        protocol_fee(total, fee_pool) <= total ==> r == Ok::<u64, GluXError>(
            protocol_fee(total, fee_pool) as u64,
        ),
        protocol_fee(total, fee_pool) > total ==> r == Err::<u64, GluXError>(
            GluXError::PayerAccountInsufficient,
        ),
{
    match fee_pool {
        Some(p) => {
            let num = p.protocol_fee_numerator;
            let den = p.protocol_fee_denominator;
            if num > 0 && den > 0 {
                assert((total as u128) * (num as u128) <= u64::MAX * u64::MAX) by (nonlinear_arith);
                let wide: u128 = (total as u128) * (num as u128) / (den as u128);
                if wide > total as u128 {
                    return Err(GluXError::PayerAccountInsufficient);
                }
                Ok(wide as u64)
            } else {
                Ok(0)
            }
        },
        None => Ok(0),
    }
}

/// The goal that `setup_goal` creates, with the fee it owes, or the first
/// error of validation, layout or fee.
pub open spec fn setup_outcome(
    issuer: Pubkey,
    taker: Pubkey,
    goal_id: i64,
    description: String,
    room: Roomspace,
    relations: Relations,
    eventype: EventType,
    inputs: Seq<SubGoalInput>,
    total: u64,
    completion_time: i64,
    locked_amount: u64,
    unlock_time: i64,
    config: GoalConfigInput,
    payer_balance: u64,
    now: i64,
    fee_pool: Option<&FeePool>,
    bump: u8,
) -> Result<(TotalGoal, u64), GluXError> {
    let description_len = (encode_utf8(description@).len() as usize) as int;
    let fee = protocol_fee(total, fee_pool);
    if param_error(
        description_len,
        eventype,
        inputs,
        total,
        completion_time,
        locked_amount,
        unlock_time,
        config,
        payer_balance,
        now,
    ) is Some {
        Err(
            param_error(
                description_len,
                eventype,
                inputs,
                total,
                completion_time,
                locked_amount,
                unlock_time,
                config,
                payer_balance,
                now,
            )->0,
        )
    } else if prepare_error(eventype, inputs.len() as int, completion_time, config, now) is Some {
        Err(prepare_error(eventype, inputs.len() as int, completion_time, config, now)->0)
    } else if fee > total {
        Err(GluXError::PayerAccountInsufficient)
    } else {
        Ok(
            (
                TotalGoal {
                    issuer,
                    taker,
                    id: goal_id,
                    description,
                    room,
                    relations,
                    eventype,
                    sub_goals: expected_slots(eventype, inputs, total, config),
                    active_sub_goals: expected_active(eventype, inputs.len() as int),
                    total_incentive_amount: total,
                    deposited_amount: (total - fee) as u64,
                    released_amount: 0,
                    completion_time,
                    locked_amount,
                    unlock_time,
                    start_time: expected_start(eventype, config, now),
                    surprise_trigger_ts: expected_surprise(eventype, config),
                    checkpoint_interval: expected_interval(eventype, config),
                    completed_count: 0,
                    failed: false,
                    version: RECORD_VERSION,
                    bump,
                },
                fee as u64,
            ),
        )
    }
}

/// Creates a goal: validates the parameters against the payer's balance and
/// the current time, lays out its sub-goals, and deducts the protocol fee
/// from what is deposited. Returns the goal and the fee; the payer then owes
/// the fee to the pool and the deposit to the goal's record.
pub fn setup_goal(
    issuer: Pubkey,
    taker: Pubkey,
    goal_id: i64,
    description: String,
    room: Roomspace,
    relations: Relations,
    eventype: EventType,
    sub_goals: &Vec<SubGoalInput>,
    total_incentive_amount: u64,
    completion_time: i64,
    locked_amount: u64,
    unlock_time: i64,
    config: &GoalConfigInput,
    payer_balance: u64,
    now: i64,
    fee_pool: Option<&FeePool>,
    bump: u8,
) -> (r: Result<(TotalGoal, u64), GluXError>)
    ensures
        r == setup_outcome(
            issuer,
            taker,
            goal_id,
            description,
            room,
            relations,
            eventype,
            sub_goals@,
            total_incentive_amount,
            completion_time,
            locked_amount,
            unlock_time,
            *config,
            payer_balance,
            now,
            fee_pool,
            bump,
        ),
        r matches Ok((g, fee)) ==> g.wf() && g.deposited_amount + fee == g.total_incentive_amount,
{
    match param_check(
        description.as_str(),
        eventype,
        sub_goals,
        total_incentive_amount,
        completion_time,
        locked_amount,
        unlock_time,
        config,
        payer_balance,
        now,
    ) {
        Ok(()) => {},
        Err(e) => {
            return Err(e);
        },
    }
    let (slots, active, start_time, surprise_ts, checkpoint_interval) = match prepare_sub_goals(
        eventype,
        sub_goals,
        total_incentive_amount,
        completion_time,
        config,
        now,
    ) {
        Ok(prepared) => prepared,
        Err(e) => {
            return Err(e);
        },
    };
    let fee = match compute_fee(total_incentive_amount, fee_pool) {
        Ok(f) => f,
        Err(e) => {
            return Err(e);
        },
    };
    let goal = TotalGoal {
        issuer,
        taker,
        id: goal_id,
        description,
        room,
        relations,
        eventype,
        sub_goals: slots,
        active_sub_goals: active,
        total_incentive_amount,
        deposited_amount: total_incentive_amount - fee,
        released_amount: 0,
        completion_time,
        locked_amount,
        unlock_time,
        start_time,
        surprise_trigger_ts: surprise_ts,
        checkpoint_interval,
        completed_count: 0,
        failed: false,
        version: RECORD_VERSION,
        bump,
    };
    Ok((goal, fee))
}

} // verus!
