//! What an operation reports when it refuses to apply.
use vstd::prelude::*;

verus! {

/// The reason an operation failed; the records it touched are unchanged.
#[derive(Clone, Copy, Debug, PartialEq, Eq, Structural)]
pub enum GluXError {
    DescExceedMaxChars,
    EventTypeNotSupport,
    SubGoalNumExceed,
    PayerAccountInsufficient,
    LockedAmountInvalid,
    SumOfSubgoalAmountInvalid,
    UnLockedTimeInvalid,
    SubGoalIndexOutOfBounds,
    SubGoalAlreadyFinalized,
    ProofAlreadySubmitted,
    ProofMissing,
    UnauthorizedSigner,
    UnauthorizedTaker,
    SurpriseTimeNotReached,
    UnlockTimeNotReached,
    NoFundsAvailable,
    MissingSubGoals,
    HabitConfigInvalid,
    InvalidCheckpointInterval,
    ParsePubkeyError,
    MaxMaintainersReached,
    RecordTooSmall,
}

/// The family an error belongs to.
#[derive(Clone, Copy, Debug, PartialEq, Eq, Structural)]
pub enum ErrorKind {
    /// Bad input shape or bounds.
    Validation,
    /// The caller is not the party the operation asks for.
    Authorization,
    /// The operation does not fit the current status.
    State,
    /// A deadline or unlock moment has not come yet.
    Timing,
    /// Not enough value, nothing left, or an amount out of range.
    Funds,
    /// A record is not the one its seeds name, or is too small.
    Integrity,
}

impl GluXError {
    pub open spec fn spec_kind(self) -> ErrorKind {
        match self {
            GluXError::DescExceedMaxChars => ErrorKind::Validation,
            GluXError::EventTypeNotSupport => ErrorKind::State,
            GluXError::SubGoalNumExceed => ErrorKind::Validation,
            GluXError::PayerAccountInsufficient => ErrorKind::Funds,
            GluXError::LockedAmountInvalid => ErrorKind::Validation,
            GluXError::SumOfSubgoalAmountInvalid => ErrorKind::Validation,
            GluXError::UnLockedTimeInvalid => ErrorKind::Validation,
            GluXError::SubGoalIndexOutOfBounds => ErrorKind::Validation,
            GluXError::SubGoalAlreadyFinalized => ErrorKind::State,
            GluXError::ProofAlreadySubmitted => ErrorKind::State,
            GluXError::ProofMissing => ErrorKind::State,
            GluXError::UnauthorizedSigner => ErrorKind::Authorization,
            GluXError::UnauthorizedTaker => ErrorKind::Authorization,
            GluXError::SurpriseTimeNotReached => ErrorKind::Timing,
            GluXError::UnlockTimeNotReached => ErrorKind::Timing,
            GluXError::NoFundsAvailable => ErrorKind::Funds,
            GluXError::MissingSubGoals => ErrorKind::Validation,
            GluXError::HabitConfigInvalid => ErrorKind::Validation,
            GluXError::InvalidCheckpointInterval => ErrorKind::Validation,
            GluXError::ParsePubkeyError => ErrorKind::Integrity,
            GluXError::MaxMaintainersReached => ErrorKind::State,
            GluXError::RecordTooSmall => ErrorKind::Integrity,
        }
    }

    /// The family of this error.
    #[verifier::when_used_as_spec(spec_kind)]
    pub fn kind(self) -> (r: ErrorKind)
        ensures
            r == self.spec_kind(),
    {
        match self {
            GluXError::DescExceedMaxChars => ErrorKind::Validation,
            GluXError::EventTypeNotSupport => ErrorKind::State,
            GluXError::SubGoalNumExceed => ErrorKind::Validation,
            GluXError::PayerAccountInsufficient => ErrorKind::Funds,
            GluXError::LockedAmountInvalid => ErrorKind::Validation,
            GluXError::SumOfSubgoalAmountInvalid => ErrorKind::Validation,
            GluXError::UnLockedTimeInvalid => ErrorKind::Validation,
            GluXError::SubGoalIndexOutOfBounds => ErrorKind::Validation,
            GluXError::SubGoalAlreadyFinalized => ErrorKind::State,
            GluXError::ProofAlreadySubmitted => ErrorKind::State,
            GluXError::ProofMissing => ErrorKind::State,
            GluXError::UnauthorizedSigner => ErrorKind::Authorization,
            GluXError::UnauthorizedTaker => ErrorKind::Authorization,
            GluXError::SurpriseTimeNotReached => ErrorKind::Timing,
            GluXError::UnlockTimeNotReached => ErrorKind::Timing,
            GluXError::NoFundsAvailable => ErrorKind::Funds,
            GluXError::MissingSubGoals => ErrorKind::Validation,
            GluXError::HabitConfigInvalid => ErrorKind::Validation,
            GluXError::InvalidCheckpointInterval => ErrorKind::Validation,
            GluXError::ParsePubkeyError => ErrorKind::Integrity,
            GluXError::MaxMaintainersReached => ErrorKind::State,
            GluXError::RecordTooSmall => ErrorKind::Integrity,
        }
    }

    /// A sentence for people.
    pub fn message(self) -> &'static str {
        match self {
            GluXError::DescExceedMaxChars => "Description exceeds the maximum character limit",
            GluXError::EventTypeNotSupport => "EventType type is not supported",
            GluXError::SubGoalNumExceed => "SubGoal number too many,maximum is five target",
            GluXError::PayerAccountInsufficient =>
                "Payer account amount insufficient,account amount must bigger than total_incentive_amount",
            GluXError::LockedAmountInvalid => "Locked amount must smaller than total_incentive_amount",
            GluXError::SumOfSubgoalAmountInvalid =>
                "The sum of subgoal amount must smaller than total_incentive_amount",
            GluXError::UnLockedTimeInvalid => "UnLocked time must bigger than completion time",
            GluXError::SubGoalIndexOutOfBounds => "Subgoal index out of bounds",
            GluXError::SubGoalAlreadyFinalized => "Subgoal already finalized",
            GluXError::ProofAlreadySubmitted => "Proof already submitted for this subgoal",
            GluXError::ProofMissing => "Proof submission required before verification",
            GluXError::UnauthorizedSigner => "Only issuer can execute this action",
            GluXError::UnauthorizedTaker => "Only taker can execute this action",
            GluXError::SurpriseTimeNotReached => "Surprise trigger time not reached",
            GluXError::UnlockTimeNotReached => "Unlock time not reached",
            GluXError::NoFundsAvailable => "No funds available to claim",
            GluXError::MissingSubGoals => "Missing subgoals for this event type",
            GluXError::HabitConfigInvalid => "Habit configuration is invalid",
            GluXError::InvalidCheckpointInterval => "Checkpoint interval must be positive",
            GluXError::ParsePubkeyError => "Parse public key error",
            GluXError::MaxMaintainersReached => "Maximum number of maintainers reached",
            GluXError::RecordTooSmall => "Record storage is too small for the new layout",
        }
    }
}

} // verus!
