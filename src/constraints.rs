//! Capacities and fixed sizes of the goal and fee-pool records.
use vstd::prelude::*;

verus! {

/// Sub-goal slots held by every goal.
pub const MAX_SUBGOALS: usize = 5;

/// Longest goal description, in bytes.
pub const MAX_DESCRIPTION_BYTES: usize = 512;

/// Bytes kept of a sub-goal title.
pub const MAX_SUBGOAL_TITLE_LENGTH: usize = 48;

/// Bytes kept of a proof reference.
pub const MAX_PROOF_URI_LENGTH: usize = 128;

/// Checkpoints of a habit-training goal.
pub const HABIT_CHECKPOINTS: usize = 3;

/// Checkpoint interval used when none is configured: one week, in seconds.
pub const HABIT_INTERVAL_SECONDS: i64 = 604800;

/// Bytes kept of a donation's currency tag.
pub const CURRENCY_TAG_LENGTH: usize = 8;

/// Largest maintainer roster of a fee pool.
pub const MAX_MAINTAINERS: usize = 10;

/// Schema version written into fresh records.
pub const RECORD_VERSION: u8 = 1;

} // verus!
