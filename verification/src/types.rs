//! The records of a savings group and their mathematical views.

use vstd::prelude::*;
pub use crate::address::Address;

verus! {

/// State of a group in its lifecycle.
#[derive(Clone, Copy, Debug, PartialEq, Eq, Structural)]
pub enum GroupState {
    /// Group is active and accepting contributions.
    Active,
    /// Group has been cancelled and contributions were refunded.
    Cancelled,
    /// Group has completed all cycles successfully.
    Complete,
}

/// Insurance configuration for a group.
#[derive(Clone, Copy, Debug, PartialEq, Eq, Structural)]
pub struct InsuranceConfig {
    /// Insurance rate in basis points (1 bp = 0.01%).
    /// A value of 100 means 1% of each contribution goes to the insurance pool.
    pub rate_bps: u32,
    /// Whether insurance is enabled for this group.
    pub is_enabled: bool,
}

/// An Ajo group: its configuration and its place in the rotation.
///
/// Members contribute a fixed amount each cycle, and one member receives
/// the pool each round until everyone has been paid once.
#[derive(Debug, PartialEq, Eq)]
pub struct Group {
    /// Fixed contribution amount each member pays per cycle, in the token's smallest unit.
    pub contribution_amount: i128,
    /// Address of the member who created the group; the first member.
    pub creator: Address,
    /// Token in which contributions and payouts are made.
    pub token_address: Address,
    /// Members in join order, which is the payout order.
    pub members: Vec<Address>,
    /// Unique group identifier.
    pub id: u64,
    /// Duration of each cycle in seconds.
    pub cycle_duration: u64,
    /// Time (seconds) when the group was created.
    pub created_at: u64,
    /// Time (seconds) when the current cycle started.
    pub cycle_start_time: u64,
    /// Maximum number of members allowed in the group, between 2 and 100.
    pub max_members: u32,
    /// Current cycle number, starting at 1.
    pub current_cycle: u32,
    /// Index into `members` of the next payout recipient.
    pub payout_index: u32,
    /// Whether the group has completed all payout cycles.
    pub is_complete: bool,
    /// Seconds after the end of a cycle during which a late contribution is still taken.
    pub grace_period: u64,
    /// Percentage of the contribution charged on a late contribution.
    pub penalty_rate: u32,
    /// Current state of the group.
    pub state: GroupState,
    /// Insurance configuration for the group.
    pub insurance_config: InsuranceConfig,
}

/// The mathematical value of a [`Group`].
pub struct GroupView {
    pub contribution_amount: i128,
    pub creator: Address,
    pub token_address: Address,
    pub members: Seq<Address>,
    pub id: u64,
    pub cycle_duration: u64,
    pub created_at: u64,
    pub cycle_start_time: u64,
    pub max_members: u32,
    pub current_cycle: u32,
    pub payout_index: u32,
    pub is_complete: bool,
    pub grace_period: u64,
    pub penalty_rate: u32,
    pub state: GroupState,
    pub insurance_config: InsuranceConfig,
}

impl View for Group {
    type V = GroupView;

    open spec fn view(&self) -> GroupView {
        GroupView {
            contribution_amount: self.contribution_amount,
            creator: self.creator,
            token_address: self.token_address,
            members: self.members@,
            id: self.id,
            cycle_duration: self.cycle_duration,
            created_at: self.created_at,
            cycle_start_time: self.cycle_start_time,
            max_members: self.max_members,
            current_cycle: self.current_cycle,
            payout_index: self.payout_index,
            is_complete: self.is_complete,
            grace_period: self.grace_period,
            penalty_rate: self.penalty_rate,
            state: self.state,
            insurance_config: self.insurance_config,
        }
    }
}

/// A copy of `members`.
pub fn copy_members(members: &Vec<Address>) -> (r: Vec<Address>)
    ensures
        r@ == members@,
{
    let mut r: Vec<Address> = Vec::new();
    let mut i: usize = 0;
    while i < members.len()
        invariant
            0 <= i <= members.len(),
            r@ == members@.subrange(0, i as int),
        decreases members.len() - i,
    {
        r.push(members[i]);
        assert(r@ =~= members@.subrange(0, i + 1));
        i += 1;
    }
    assert(members@.subrange(0, members.len() as int) =~= members@);
    r
}

impl Clone for Group {
    fn clone(&self) -> (r: Self)
        ensures
            r@ == self@,
    {
        Group {
            contribution_amount: self.contribution_amount,
            creator: self.creator,
            token_address: self.token_address,
            members: copy_members(&self.members),
            id: self.id,
            cycle_duration: self.cycle_duration,
            created_at: self.created_at,
            cycle_start_time: self.cycle_start_time,
            max_members: self.max_members,
            current_cycle: self.current_cycle,
            payout_index: self.payout_index,
            is_complete: self.is_complete,
            grace_period: self.grace_period,
            penalty_rate: self.penalty_rate,
            state: self.state,
            insurance_config: self.insurance_config,
        }
    }
}

/// Snapshot of a group's current state, as one consolidated answer.
#[derive(Debug, PartialEq, Eq)]
pub struct GroupStatus {
    /// The unique identifier of the group being described.
    pub group_id: u64,
    /// Current cycle number (1-based).
    pub current_cycle: u32,
    /// `true` while the group is not complete.
    /// When `false`, `next_recipient` is a placeholder and should be ignored.
    pub has_next_recipient: bool,
    /// The member scheduled to receive the next payout.
    pub next_recipient: Address,
    /// Number of members who have contributed in the current cycle.
    pub contributions_received: u32,
    /// Total number of members currently in the group.
    pub total_members: u32,
    /// Members who have not yet contributed in the current cycle, in member order.
    pub pending_contributors: Vec<Address>,
    /// Whether the group has finished all cycles.
    pub is_complete: bool,
    /// Whether the current cycle window is still open.
    pub is_cycle_active: bool,
    /// Time (seconds) when the current cycle started.
    pub cycle_start_time: u64,
    /// Time (seconds) when the current cycle ends.
    pub cycle_end_time: u64,
    /// The time at which this status was taken.
    pub current_time: u64,
    /// Total penalties collected in the current cycle.
    pub cycle_penalty_pool: i128,
    /// Whether the cycle has ended but the grace period has not.
    pub is_in_grace_period: bool,
    /// Time (seconds) when the grace period ends.
    pub grace_period_end_time: u64,
}

/// The mathematical value of a [`GroupStatus`].
pub struct GroupStatusView {
    pub group_id: u64,
    pub current_cycle: u32,
    pub has_next_recipient: bool,
    pub next_recipient: Address,
    pub contributions_received: u32,
    pub total_members: u32,
    pub pending_contributors: Seq<Address>,
    pub is_complete: bool,
    pub is_cycle_active: bool,
    pub cycle_start_time: u64,
    pub cycle_end_time: u64,
    pub current_time: u64,
    pub cycle_penalty_pool: i128,
    pub is_in_grace_period: bool,
    pub grace_period_end_time: u64,
}

impl View for GroupStatus {
    type V = GroupStatusView;

    open spec fn view(&self) -> GroupStatusView {
        GroupStatusView {
            group_id: self.group_id,
            current_cycle: self.current_cycle,
            has_next_recipient: self.has_next_recipient,
            next_recipient: self.next_recipient,
            contributions_received: self.contributions_received,
            total_members: self.total_members,
            pending_contributors: self.pending_contributors@,
            is_complete: self.is_complete,
            is_cycle_active: self.is_cycle_active,
            cycle_start_time: self.cycle_start_time,
            cycle_end_time: self.cycle_end_time,
            current_time: self.current_time,
            cycle_penalty_pool: self.cycle_penalty_pool,
            is_in_grace_period: self.is_in_grace_period,
            grace_period_end_time: self.grace_period_end_time,
        }
    }
}

/// Optional descriptive text for a group, as bytes.
#[derive(Debug, PartialEq, Eq)]
pub struct GroupMetadata {
    /// Name of the group.
    pub name: Vec<u8>,
    /// Description of the group purpose or goal.
    pub description: Vec<u8>,
    /// Custom rules or guidelines for members.
    pub rules: Vec<u8>,
}

/// A request, opened by a member, to refund and dissolve a group.
#[derive(Clone, Copy, Debug, PartialEq, Eq)]
pub struct RefundRequest {
    /// The group this refund request is for.
    pub group_id: u64,
    /// The member who opened the request.
    pub requester: Address,
    /// Time when the request was opened.
    pub created_at: u64,
    /// Time when voting ends.
    pub voting_deadline: u64,
    /// Number of votes in favor of the refund.
    pub votes_for: u32,
    /// Number of votes against the refund.
    pub votes_against: u32,
    /// Whether the request has been resolved.
    pub executed: bool,
    /// Whether the request was approved.
    pub approved: bool,
}

/// A member's vote on a refund request.
#[derive(Clone, Copy, Debug, PartialEq, Eq)]
pub struct RefundVote {
    /// The group this vote is for.
    pub group_id: u64,
    /// The member who voted.
    pub voter: Address,
    /// Whether the vote is in favor (true) or against (false).
    pub in_favor: bool,
    /// Time when the vote was cast.
    pub timestamp: u64,
}

/// Penalty statistics for a member within a group.
#[derive(Clone, Copy, Debug, PartialEq, Eq)]
pub struct MemberPenaltyRecord {
    pub member: Address,
    pub group_id: u64,
    pub late_count: u32,
    pub on_time_count: u32,
    pub total_penalties: i128,
    pub reliability_score: u32,
}

/// Reason for a refund.
#[derive(Clone, Copy, Debug, PartialEq, Eq, Structural)]
pub enum RefundReason {
    /// Group was cancelled by creator before first payout.
    CreatorCancellation,
    /// Refund approved by member vote.
    MemberVote,
    /// Emergency refund by admin.
    EmergencyRefund,
}

/// One refund owed to one member.
#[derive(Clone, Copy, Debug, PartialEq, Eq)]
pub struct RefundRecord {
    /// The group this refund is for.
    pub group_id: u64,
    /// The member receiving the refund.
    pub member: Address,
    /// Amount refunded.
    pub amount: i128,
    /// Time when the refund was decided.
    pub timestamp: u64,
    /// Reason for the refund.
    pub reason: RefundReason,
}

/// Voting period duration in seconds (7 days).
pub const VOTING_PERIOD: u64 = 604_800;

/// Minimum approval percentage required for refund (51%).
pub const REFUND_APPROVAL_THRESHOLD: u32 = 51;

/// A member's contribution for one cycle.
#[derive(Clone, Copy, Debug, PartialEq, Eq)]
pub struct ContributionRecord {
    pub group_id: u64,
    pub cycle: u32,
    pub member: Address,
    pub amount: i128,
    pub timestamp: u64,
    pub is_late: bool,
    pub penalty_amount: i128,
}

/// What a contribution comes to, for the member who made it and for the group.
#[derive(Clone, Copy, Debug, PartialEq, Eq)]
pub struct ContributionReceipt {
    /// The record that was made of the contribution.
    pub record: ContributionRecord,
    /// What the member pays: the contribution and, if it is late, the penalty.
    pub amount_due: i128,
    /// The part of the contribution that goes to the insurance pool; 0 without insurance.
    pub premium: i128,
    /// The part of the contribution that is credited to the group: the
    /// contribution less the premium.
    pub credited: i128,
}

/// The payout that a member received from a group.
#[derive(Clone, Copy, Debug, PartialEq, Eq)]
pub struct PayoutRecord {
    pub group_id: u64,
    pub member: Address,
    pub amount: i128,
    pub timestamp: u64,
}

/// Status of an insurance claim.
#[derive(Clone, Copy, Debug, PartialEq, Eq, Structural)]
pub enum ClaimStatus {
    Pending,
    Approved,
    Rejected,
    Paid,
}

/// An insurance claim filed for a missed contribution.
#[derive(Clone, Copy, Debug, PartialEq, Eq)]
pub struct InsuranceClaim {
    /// The unique identifier for the claim.
    pub id: u64,
    /// The group the claim belongs to.
    pub group_id: u64,
    /// The cycle in which the default occurred.
    pub cycle: u32,
    /// The member who defaulted.
    pub defaulter: Address,
    /// The member who filed the claim.
    pub claimant: Address,
    /// The amount being claimed.
    pub amount: i128,
    /// The current status of the claim.
    pub status: ClaimStatus,
    /// Time when the claim was filed.
    pub created_at: u64,
}

/// The insurance fund of one token.
#[derive(Clone, Copy, Debug, PartialEq, Eq, Structural)]
pub struct InsurancePool {
    /// Balance available in the pool.
    pub balance: i128,
    /// Total amount paid out from the pool.
    pub total_payouts: i128,
    /// Number of claims that await processing.
    pub pending_claims_count: u32,
}

} // verus!
