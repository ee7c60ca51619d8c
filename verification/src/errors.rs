//! The failures that an operation can report.

use vstd::prelude::*;

verus! {

/// Why an operation was refused. A refused operation changes nothing.
#[derive(Clone, Copy, Debug, PartialEq, Eq, Structural)]
pub enum AjoError {
    /// No group has the given id.
    GroupNotFound,
    /// The group already has as many members as it allows.
    MaxMembersExceeded,
    /// The address already belongs to the group.
    AlreadyMember,
    /// The address does not belong to the group.
    NotMember,
    /// The member already contributed in the current cycle.
    AlreadyContributed,
    /// Some member has not contributed in the current cycle.
    IncompleteContributions,
    /// The member was already paid in this rotation.
    AlreadyReceivedPayout,
    /// The group no longer accepts changes: it is complete or cancelled.
    GroupComplete,
    /// The contribution amount is zero or below the minimum.
    ContributionAmountZero,
    /// The cycle duration is zero or outside the allowed range.
    CycleDurationZero,
    /// Fewer than two members were asked for.
    MaxMembersBelowMinimum,
    /// More members were asked for than a group may have.
    MaxMembersAboveLimit,
    /// The payer holds less than the amount due.
    InsufficientBalance,
    /// The group has no member to pay.
    NoMembers,
    /// The caller may not perform this operation.
    Unauthorized,
    /// The contribution amount is negative or above the maximum.
    ContributionAmountNegative,
    /// The contract already has an administrator.
    AlreadyInitialized,
    /// State-changing operations are paused.
    ContractPaused,
    /// Only the administrator may pause.
    UnauthorizedPause,
    /// Only the administrator may unpause.
    UnauthorizedUnpause,
    /// A metadata field is longer than allowed.
    MetadataTooLong,
    /// The contract holds less than the amount to pay out.
    InsufficientContractBalance,
    /// The contribution came after the grace period had run out.
    GracePeriodExpired,
    /// A payout was already made, so the creator can no longer cancel.
    CannotCancelAfterPayout,
    /// The group already has a refund request.
    RefundRequestExists,
    /// The group has no refund request.
    RefundRequestNotFound,
    /// The member already voted on the refund request.
    AlreadyVoted,
    /// The vote came after the voting deadline.
    VotingPeriodEnded,
    /// The vote is still open: the deadline has not passed and members have yet to vote.
    VotingPeriodActive,
    /// The refund request was already resolved.
    RefundAlreadyExecuted,
    /// No claim has the given id.
    InvalidClaim,
    /// The claim was already paid or rejected.
    ClaimAlreadyProcessed,
    /// No insurance pool exists for the group's token.
    PoolNotFound,
    /// The insurance pool holds less than the claim.
    InsufficientPoolBalance,
}

} // verus!
