//! Incentive escrow: goals whose milestones release funds from an issuer to a
//! taker, and a fee pool shared by a founder and its maintainers.
//!
//! Records are plain values here; balances are passed in and out as numbers,
//! and the host ledger applies each operation as one unit.
use vstd::prelude::*;

pub mod constraints;
pub mod create;
pub mod errors;
pub mod fee;
pub mod laws;
pub mod manage;
pub mod migrate;
pub mod schedule;
pub mod state;

pub use create::{compute_fee, param_check, prepare_sub_goals, setup_goal};
pub use errors::{ErrorKind, GluXError};
pub use fee::{add_donation, add_maintainer, create_fee_pool, distribute_fees, set_fee_params, split_fees};
pub use manage::{claim_unused, payout_from_goal, review_subgoal, submit_proof, trigger_surprise};
pub use migrate::{
    account_discriminator, check_migration_target, goal_seeds, id_to_le_bytes, migrate_fee_pool,
    migrate_total_goal, migrated_goal, pool_seeds, write_record,
};
pub use schedule::{default_checkpoint_interval, habit_amounts};
pub use state::{
    blank_sub_goals, bytes_to_fixed, string_to_fixed, trim_fixed_string, DonationEntry, EventType,
    FeePool, GoalConfigInput, Pubkey, Relations, Roomspace, SubGoal, SubGoalInput, SubGoalStatus,
    TotalGoal,
};

verus! {

} // verus!
