use vstd::prelude::*;

verus! {

/// Every failure the escrow reports to its callers.
#[derive(Debug, Clone, Copy, PartialEq, Eq, Structural)]
pub enum EscrowError {
    AmountMustBePositive,
    InvalidMilestoneAmount,
    PotentialOverflow,
    InvalidDepositAmount,
    TotalCapExceeded,
    TooManyMilestones,
    EmptyMilestones,
    InvalidParticipant,
    InvalidArbiter,
    MissingArbiter,
    InvalidState,
    InvalidStatusTransition,
    ConcurrentModification,
    IndexOutOfBounds,
    AlreadyReleased,
    AlreadyRefunded,
    InsufficientApprovals,
    EmptyRefundRequest,
    DuplicateMilestoneInRefund,
    UnauthorizedRole,
    InvalidDisputeSplit,
    AccountingInvariantViolated,
    InvalidContractId,
    ContractPaused,
    EmergencyActive,
    InvalidProtocolParameters,
    InvalidRating,
    EmptyComment,
    CommentTooLong,
    NotCompleted,
    ReputationAlreadyIssued,
    EvidenceTooLong,
    ContractNotFound,
    SettlementTokenAlreadyBound,
    InvalidWithdrawalAmount,
    InsufficientAccumulatedFees,
    FeeWithdrawalCapExceeded,
    FeeWithdrawalCooldownActive,
    CannotProposeSelf,
    TimelockNotElapsed,
    AdminProposalExpired,
    GovernanceSelfApproval,
    GovernanceProposalInvalidState,
    GovernanceProposalExpired,
    GovernanceProposalNotFound,
    LimitOutOfRange,
    EvidenceHashAlreadySet,
    InsufficientBalance,
    SettlementTokenNotBound,
}

} // verus!
