use gluex::{
    compute_fee, create_fee_pool, default_checkpoint_interval, habit_amounts, param_check,
    prepare_sub_goals, setup_goal, trim_fixed_string, ErrorKind, EventType, FeePool,
    GluXError, GoalConfigInput, Pubkey, Relations, Roomspace, SubGoalInput, SubGoalStatus,
    TotalGoal,
};

fn key(b: u8) -> Pubkey {
    Pubkey::new_from_array([b; 32])
}

fn input(title: &str, amount: u64, deadline: i64) -> SubGoalInput {
    SubGoalInput { title: title.to_string(), deadline, incentive_amount: amount, auto_release_at: 0 }
}

fn config(start: i64, surprise: i64, interval: i64) -> GoalConfigInput {
    GoalConfigInput { start_time: start, surprise_time: surprise, checkpoint_interval: interval }
}

fn create(
    eventype: EventType,
    inputs: &Vec<SubGoalInput>,
    total: u64,
    cfg: &GoalConfigInput,
    pool: Option<&FeePool>,
) -> Result<(TotalGoal, u64), GluXError> {
    setup_goal(
        key(1),
        key(2),
        7,
        "read a book a week".to_string(),
        Roomspace::LoveGame,
        Relations::Partner,
        eventype,
        inputs,
        total,
        2000,
        0,
        3000,
        cfg,
        u64::MAX,
        1000,
        pool,
        254,
    )
}

#[test]
fn habit_checkpoints_share_total_exactly() {
    let (goal, fee) = create(EventType::HabitTraining, &vec![], 500_000_000, &config(1000, 0, 0), None)
        .unwrap();
    assert_eq!(fee, 0);
    let amounts: Vec<u64> = goal.sub_goals.iter().map(|s| s.incentive_amount).collect();
    assert_eq!(amounts, vec![71_428_571, 142_857_142, 285_714_287, 0, 0]);
    assert_eq!(amounts.iter().sum::<u64>(), 500_000_000);
    assert_eq!(goal.active_sub_goals, 3);
    assert_eq!(goal.checkpoint_interval, 604_800);
    assert_eq!(goal.sub_goals[0].deadline, 1000 + 604_800);
    assert_eq!(goal.sub_goals[2].deadline, 1000 + 3 * 604_800);
    assert_eq!(goal.sub_goals[2].auto_release_at, goal.sub_goals[2].deadline);
    assert_eq!(trim_fixed_string(&goal.sub_goals[1].title), "21d habit checkpoint 2");
    assert!(goal.sub_goals[0].is_active && !goal.sub_goals[3].is_active);
    assert_eq!(goal.surprise_trigger_ts, -1);
}

#[test]
fn habit_amounts_with_rounding() {
    assert_eq!(habit_amounts(10), [1, 2, 7]);
    assert_eq!(habit_amounts(0), [0, 0, 0]);
    let big = habit_amounts(u64::MAX);
    assert_eq!(big[0] as u128 + big[1] as u128 + big[2] as u128, u64::MAX as u128);
    assert_eq!(big[0], u64::MAX / 7);
}

#[test]
fn checkpoint_interval_defaults_to_a_week() {
    assert_eq!(default_checkpoint_interval(0), 604_800);
    assert_eq!(default_checkpoint_interval(-5), 604_800);
    assert_eq!(default_checkpoint_interval(60), 60);
}

#[test]
fn habit_goal_with_custom_interval() {
    let (goal, _) = create(EventType::HabitTraining, &vec![], 70, &config(1000, 0, 100), None).unwrap();
    assert_eq!(goal.checkpoint_interval, 100);
    let deadlines: Vec<i64> = goal.sub_goals[..3].iter().map(|s| s.deadline).collect();
    assert_eq!(deadlines, vec![1100, 1200, 1300]);
}

#[test]
fn target_goal_with_protocol_fee() {
    let pool = create_fee_pool(key(9), 255);
    let inputs = vec![input("A", 500, 1500), input("B", 500, 1800)];
    let (goal, fee) =
        create(EventType::TargetAchieve, &inputs, 1_000_000, &config(0, 0, 0), Some(&pool)).unwrap();
    assert_eq!(fee, 1000);
    assert_eq!(goal.deposited_amount, 999_000);
    assert_eq!(goal.released_amount, 0);
    assert_eq!(goal.active_sub_goals, 2);
    assert_eq!(goal.start_time, 1000);
    assert_eq!(trim_fixed_string(&goal.sub_goals[0].title), "A");
    assert_eq!(goal.sub_goals[1].incentive_amount, 500);
    assert_eq!(goal.sub_goals[1].auto_release_at, 1800);
    assert_eq!(goal.sub_goals[0].status, SubGoalStatus::Pending);
    assert!(!goal.sub_goals[2].is_active);
    assert_eq!(goal.version, 1);
    assert_eq!(goal.bump, 254);
}

#[test]
fn target_input_keeps_its_release_time() {
    let mut first = input("A", 5, 1500);
    first.auto_release_at = 1700;
    let (goal, _) = create(EventType::TargetAchieve, &vec![first], 10, &config(0, 0, 0), None).unwrap();
    assert_eq!(goal.sub_goals[0].auto_release_at, 1700);
}

#[test]
fn surprise_goal_layout() {
    let (goal, _) = create(EventType::SurpriseTime, &vec![], 42, &config(0, 1100, 0), None).unwrap();
    assert_eq!(goal.active_sub_goals, 1);
    assert_eq!(goal.start_time, 1100);
    assert_eq!(goal.surprise_trigger_ts, 1100);
    assert_eq!(goal.sub_goals[0].incentive_amount, 42);
    assert_eq!(goal.sub_goals[0].deadline, 1100);
    assert_eq!(trim_fixed_string(&goal.sub_goals[0].title), "Surprise Moment");
}

#[test]
fn fee_rounds_down_and_is_skipped_without_rate() {
    let mut pool = create_fee_pool(key(9), 255);
    assert_eq!(compute_fee(999, Some(&pool)), Ok(0));
    assert_eq!(compute_fee(1999, Some(&pool)), Ok(1));
    assert_eq!(compute_fee(1999, None), Ok(0));
    pool.protocol_fee_numerator = 0;
    assert_eq!(compute_fee(1999, Some(&pool)), Ok(0));
    pool.protocol_fee_numerator = u64::MAX;
    pool.protocol_fee_denominator = u64::MAX;
    assert_eq!(compute_fee(u64::MAX, Some(&pool)), Ok(u64::MAX));
    pool.protocol_fee_numerator = 3;
    pool.protocol_fee_denominator = 2;
    assert_eq!(compute_fee(10, Some(&pool)), Err(GluXError::PayerAccountInsufficient));
}

fn check(
    description: &str,
    eventype: EventType,
    inputs: &Vec<SubGoalInput>,
    total: u64,
    completion: i64,
    locked: u64,
    unlock: i64,
    cfg: &GoalConfigInput,
    balance: u64,
) -> Result<(), GluXError> {
    param_check(description, eventype, inputs, total, completion, locked, unlock, cfg, balance, 1000)
}

#[test]
fn validation_errors_in_order() {
    let c = config(1000, 0, 0);
    let h = EventType::HabitTraining;
    let none = vec![];
    let long = "x".repeat(513);
    assert_eq!(check(&long, h, &none, 10, 2000, 0, 3000, &c, 100), Err(GluXError::DescExceedMaxChars));
    assert_eq!(check(&"x".repeat(512), h, &none, 10, 2000, 0, 3000, &c, 100), Ok(()));
    assert_eq!(check("d", h, &none, 0, 2000, 0, 3000, &c, 100), Err(GluXError::PayerAccountInsufficient));
    assert_eq!(check("d", h, &none, 101, 2000, 0, 3000, &c, 100), Err(GluXError::PayerAccountInsufficient));
    assert_eq!(check("d", h, &none, 10, 2000, 11, 3000, &c, 100), Err(GluXError::LockedAmountInvalid));
    assert_eq!(check("d", h, &none, 10, 2000, 0, 1999, &c, 100), Err(GluXError::UnLockedTimeInvalid));
    assert_eq!(check("d", h, &none, 10, 999, 0, 3000, &c, 100), Err(GluXError::HabitConfigInvalid));
    assert_eq!(
        check("d", h, &none, 10, 2000, 0, 3000, &config(1000, 0, -1), 100),
        Err(GluXError::InvalidCheckpointInterval)
    );
    assert_eq!(
        check("d", h, &none, 10, 2000, 0, 3000, &config(999, 0, 0), 100),
        Err(GluXError::HabitConfigInvalid)
    );
}

#[test]
fn target_validation_errors() {
    let c = config(0, 0, 0);
    let t = EventType::TargetAchieve;
    assert_eq!(check("d", t, &vec![], 10, 2000, 0, 3000, &c, 100), Err(GluXError::MissingSubGoals));
    let six: Vec<SubGoalInput> = (0..6).map(|i| input("s", 1, 1500 + i)).collect();
    assert_eq!(check("d", t, &six, 10, 2000, 0, 3000, &c, 100), Err(GluXError::SubGoalNumExceed));
    let over = vec![input("a", 6, 1500), input("b", 5, 1600)];
    assert_eq!(check("d", t, &over, 10, 2000, 0, 3000, &c, 100), Err(GluXError::SumOfSubgoalAmountInvalid));
    let huge = vec![input("a", u64::MAX, 1500), input("b", u64::MAX, 1600)];
    assert_eq!(
        check("d", t, &huge, u64::MAX, 2000, 0, 3000, &c, u64::MAX),
        Err(GluXError::SumOfSubgoalAmountInvalid)
    );
    let exact = vec![input("a", 5, 1500), input("b", 5, 1600)];
    assert_eq!(check("d", t, &exact, 10, 2000, 0, 3000, &c, 100), Ok(()));
}

#[test]
fn surprise_validation_errors() {
    let s = EventType::SurpriseTime;
    assert_eq!(
        check("d", s, &vec![], 10, 2000, 0, 3000, &config(0, 1000, 0), 100),
        Err(GluXError::HabitConfigInvalid)
    );
    assert_eq!(check("d", s, &vec![], 10, 2000, 0, 3000, &config(0, 1001, 0), 100), Ok(()));
}

#[test]
fn layout_errors() {
    let far = config(i64::MAX - 10, 0, 0);
    assert_eq!(
        prepare_sub_goals(EventType::HabitTraining, &vec![], 10, i64::MAX, &far, 1000).err(),
        Some(GluXError::HabitConfigInvalid)
    );
    assert_eq!(
        prepare_sub_goals(EventType::HabitTraining, &vec![], 10, 2000, &config(0, 0, 0), -5).err(),
        Some(GluXError::HabitConfigInvalid)
    );
    assert_eq!(
        prepare_sub_goals(EventType::TargetAchieve, &vec![], 10, 2000, &config(0, 0, 0), 1000).err(),
        Some(GluXError::MissingSubGoals)
    );
    assert_eq!(
        prepare_sub_goals(EventType::HabitTraining, &vec![], 10, 2000, &config(2500, 0, 0), 1000).err(),
        Some(GluXError::HabitConfigInvalid)
    );
    assert_eq!(
        prepare_sub_goals(EventType::SurpriseTime, &vec![], 10, 2000, &config(0, 2500, 0), 1000).err(),
        Some(GluXError::HabitConfigInvalid)
    );
    let six: Vec<SubGoalInput> = (0..6).map(|i| input("s", 1, 1500 + i)).collect();
    let (slots, active, ..) =
        prepare_sub_goals(EventType::TargetAchieve, &six, 10, 2000, &config(0, 0, 0), 1000).unwrap();
    assert_eq!(active, 5);
    assert_eq!(slots[4].deadline, 1504);
}

#[test]
fn setup_reports_validation_first() {
    let err = create(EventType::TargetAchieve, &vec![], 10, &config(0, 0, 0), None).unwrap_err();
    assert_eq!(err, GluXError::MissingSubGoals);
    assert_eq!(err.kind(), ErrorKind::Validation);
}
