//! What each operation on a group does, as functions on the store's view.
//!
//! For each operation there is a function that says whether it is refused
//! and with which error, and one that gives the store after it succeeded.

use vstd::prelude::*;
use crate::arith::share;
use crate::counting::sum_upto;
use crate::errors::AjoError;
use crate::penalty::{penalty_due, penalty_record_after, timeliness, Timeliness};
use crate::security::{all_contributed, base_payout, cycle_end, grace_end, group_params_verdict};
use crate::storage::{MemberKey, StoreView};
use crate::types::{
    Address, ContributionReceipt, ContributionRecord, GroupState, GroupStatusView, GroupView,
    InsuranceConfig, InsurancePool, MemberPenaltyRecord, PayoutRecord,
};

verus! {

/// A group as it is created: the creator its only member, in cycle 1, nobody paid, active,
/// without insurance.
pub open spec fn new_group(
    id: u64,
    creator: Address,
    token: Address,
    contribution_amount: i128,
    cycle_duration: u64,
    max_members: u32,
    grace_period: u64,
    penalty_rate: u32,
    now: u64,
) -> GroupView {
    GroupView {
        contribution_amount,
        creator,
        token_address: token,
        members: seq![creator],
        id,
        cycle_duration,
        created_at: now,
        cycle_start_time: now,
        max_members,
        current_cycle: 1,
        payout_index: 0,
        is_complete: false,
        grace_period,
        penalty_rate,
        state: GroupState::Active,
        insurance_config: InsuranceConfig { rate_bps: 0, is_enabled: false },
    }
}

/// Why a group is not created, if it is not: a parameter is out of bounds, or
/// else the contract is paused.
pub open spec fn create_group_refusal(
    s: StoreView,
    contribution_amount: i128,
    cycle_duration: u64,
    max_members: u32,
) -> Option<AjoError> {
    match group_params_verdict(contribution_amount, cycle_duration, max_members) {
        Err(e) => Some(e),
        Ok(_) => if s.paused {
            Some(AjoError::ContractPaused)
        } else {
            None
        },
    }
}

/// The store after the group was created: it is the next group, under the next id.
pub open spec fn create_group_next(
    s: StoreView,
    creator: Address,
    token: Address,
    contribution_amount: i128,
    cycle_duration: u64,
    max_members: u32,
    grace_period: u64,
    penalty_rate: u32,
    now: u64,
) -> StoreView {
    s.push_group(
        new_group(
            (s.groups.len() + 1) as u64,
            creator,
            token,
            contribution_amount,
            cycle_duration,
            max_members,
            grace_period,
            penalty_rate,
            now,
        ),
    )
}

/// Why `member` does not join group `id`, if so.
pub open spec fn join_group_refusal(s: StoreView, member: Address, id: u64) -> Option<AjoError> {
    if s.paused {
        Some(AjoError::ContractPaused)
    } else if !s.has_group(id) {
        Some(AjoError::GroupNotFound)
    } else if s.group(id).state != GroupState::Active {
        Some(AjoError::GroupComplete)
    } else if s.group(id).members.contains(member) {
        Some(AjoError::AlreadyMember)
    } else if s.group(id).members.len() >= s.group(id).max_members {
        Some(AjoError::MaxMembersExceeded)
    } else {
        None
    }
}

/// The group with `member` added at the end of the rotation.
pub open spec fn group_joined(g: GroupView, member: Address) -> GroupView {
    GroupView { members: g.members.push(member), ..g }
}

/// The store after `member` joined group `id`.
pub open spec fn join_group_next(s: StoreView, member: Address, id: u64) -> StoreView {
    s.set_group(id, group_joined(s.group(id), member))
}

/// Why `member` does not contribute to group `id` at time `now`, if so.
pub open spec fn contribute_refusal(s: StoreView, member: Address, id: u64, now: u64) -> Option<
    AjoError,
> {
    if s.paused {
        Some(AjoError::ContractPaused)
    } else if !s.has_group(id) {
        Some(AjoError::GroupNotFound)
    } else if s.group(id).state != GroupState::Active {
        Some(AjoError::GroupComplete)
    } else if !s.group(id).members.contains(member) {
        Some(AjoError::NotMember)
    } else if s.has_contributed(id, s.group(id).current_cycle, member) {
        Some(AjoError::AlreadyContributed)
    } else if timeliness(s.group(id), now) == Timeliness::Expired {
        Some(AjoError::GracePeriodExpired)
    } else {
        None
    }
}

/// The record of a contribution that `member` makes to `g` at time `now`.
pub open spec fn contribution_made(g: GroupView, member: Address, now: u64) -> ContributionRecord {
    let is_late = timeliness(g, now) == Timeliness::Late;
    ContributionRecord {
        group_id: g.id,
        cycle: g.current_cycle,
        member,
        amount: g.contribution_amount,
        timestamp: now,
        is_late,
        penalty_amount: penalty_due(g, is_late) as i128,
    }
}

/// The part of a contribution to `g` that goes to the insurance pool:
/// `rate_bps` basis points of the amount where the group is insured, else nothing.
pub open spec fn premium_due(g: GroupView) -> int {
    if g.insurance_config.is_enabled {
        share(g.contribution_amount, g.insurance_config.rate_bps, 10000)
    } else {
        0
    }
}

/// What a contribution that `member` makes to `g` at time `now` comes to:
/// the member pays the amount and the penalty, the premium goes to the
/// insurance pool, and the amount less the premium is credited to the group.
pub open spec fn receipt_made(g: GroupView, member: Address, now: u64) -> ContributionReceipt {
    let record = contribution_made(g, member, now);
    ContributionReceipt {
        record,
        amount_due: (g.contribution_amount + record.penalty_amount) as i128,
        premium: premium_due(g) as i128,
        credited: (g.contribution_amount - premium_due(g)) as i128,
    }
}

/// The statistics of `member` in group `id`, if any were recorded.
pub open spec fn penalty_record(s: StoreView, id: u64, member: Address) -> Option<
    MemberPenaltyRecord,
> {
    let k = MemberKey { group_id: id, member };
    if s.penalties.dom().contains(k) {
        Some(s.penalties[k])
    } else {
        None
    }
}

/// The insurance pool of `token`; an empty one where none exists yet.
pub open spec fn pool_or_empty(s: StoreView, token: Address) -> InsurancePool {
    if s.insurance_pools.dom().contains(token) {
        s.insurance_pools[token]
    } else {
        InsurancePool { balance: 0, total_payouts: 0, pending_claims_count: 0 }
    }
}

/// True when the pool of `token` can take `amount` more.
pub open spec fn deposit_fits(s: StoreView, token: Address, amount: i128) -> bool {
    i128::MIN <= pool_or_empty(s, token).balance + amount <= i128::MAX
}

/// The store after `amount` was added to the pool of `token`.
pub open spec fn deposited(s: StoreView, token: Address, amount: i128) -> StoreView {
    let p = pool_or_empty(s, token);
    s.put_pool(token, InsurancePool { balance: (p.balance + amount) as i128, ..p })
}

/// True when the insurance pool can take the premium of a contribution to group `id`.
pub open spec fn contribute_fits(s: StoreView, id: u64) -> bool {
    s.has_group(id) && s.group(id).insurance_config.is_enabled ==> deposit_fits(
        s,
        s.group(id).token_address,
        premium_due(s.group(id)) as i128,
    )
}

/// The store after `member` contributed to group `id` at time `now`: the
/// contribution is on record, the member's statistics count it, and the
/// premium, where the group is insured, is in the pool of the group's token.
pub open spec fn contribute_next(s: StoreView, member: Address, id: u64, now: u64) -> StoreView {
    let g = s.group(id);
    let r = contribution_made(g, member, now);
    let recorded = s.put_contribution(r).put_penalty(
        penalty_record_after(penalty_record(s, id, member), id, member, r.is_late, r.penalty_amount),
    );
    if g.insurance_config.is_enabled {
        deposited(recorded, g.token_address, premium_due(g) as i128)
    } else {
        recorded
    }
}

/// The penalty that `member` paid in `cycle` of group `id`; 0 without a contribution.
pub open spec fn penalty_paid(s: StoreView, id: u64, cycle: u32, member: Address) -> int {
    if s.has_contributed(id, cycle, member) {
        s.contribution(id, cycle, member).penalty_amount as int
    } else {
        0
    }
}

/// The penalties that `members` paid in `cycle` of group `id`.
pub open spec fn penalty_pool(s: StoreView, id: u64, cycle: u32, members: Seq<Address>) -> int {
    sum_upto(members.len(), |i: int| penalty_paid(s, id, cycle, members[i]))
}

/// What the current cycle of `g` pays out: the fixed amount from each member,
/// and the penalties of the cycle.
pub open spec fn payout_amount(s: StoreView, g: GroupView) -> int {
    base_payout(g) + penalty_pool(s, g.id, g.current_cycle, g.members)
}

/// Why the payout of group `id` is not executed, if so.
pub open spec fn execute_payout_refusal(s: StoreView, id: u64) -> Option<AjoError> {
    if s.paused {
        Some(AjoError::ContractPaused)
    } else if !s.has_group(id) {
        Some(AjoError::GroupNotFound)
    } else if s.group(id).state != GroupState::Active {
        Some(AjoError::GroupComplete)
    } else if !all_contributed(s, id, s.group(id).current_cycle, s.group(id).members) {
        Some(AjoError::IncompleteContributions)
    } else if s.group(id).payout_index >= s.group(id).members.len() {
        Some(AjoError::NoMembers)
    } else {
        None
    }
}

/// The record of the payout that group `g` makes at time `now`.
pub open spec fn payout_made(s: StoreView, g: GroupView, now: u64) -> PayoutRecord {
    PayoutRecord {
        group_id: g.id,
        member: g.members[g.payout_index as int],
        amount: payout_amount(s, g) as i128,
        timestamp: now,
    }
}

/// The group after a payout at time `now`: complete if that was the last
/// member's turn, else in the next cycle, which starts at `now`.
pub open spec fn group_paid(g: GroupView, now: u64) -> GroupView {
    if g.payout_index + 1 >= g.members.len() {
        GroupView {
            payout_index: (g.payout_index + 1) as u32,
            state: GroupState::Complete,
            is_complete: true,
            ..g
        }
    } else {
        GroupView {
            payout_index: (g.payout_index + 1) as u32,
            current_cycle: (g.current_cycle + 1) as u32,
            cycle_start_time: now,
            ..g
        }
    }
}

/// The store after the payout of group `id` at time `now`.
pub open spec fn execute_payout_next(s: StoreView, id: u64, now: u64) -> StoreView {
    s.set_group(id, group_paid(s.group(id), now)).put_payout(payout_made(s, s.group(id), now))
}

/// What a paused contract does to a state-changing operation: it refuses it
/// as `ContractPaused`, before anything else is looked at.
pub open spec fn gated(s: StoreView, refusal: Option<AjoError>) -> Option<AjoError> {
    if s.paused {
        Some(AjoError::ContractPaused)
    } else {
        refusal
    }
}

/// Why `caller` does not set the insurance terms of group `id`, if so: only
/// the creator may, and only while the group is active.
pub open spec fn set_insurance_config_refusal(s: StoreView, caller: Address, id: u64) -> Option<
    AjoError,
> {
    if s.paused {
        Some(AjoError::ContractPaused)
    } else if !s.has_group(id) {
        Some(AjoError::GroupNotFound)
    } else if s.group(id).creator != caller {
        Some(AjoError::Unauthorized)
    } else if s.group(id).state != GroupState::Active {
        Some(AjoError::GroupComplete)
    } else {
        None
    }
}

/// The store after the insurance terms of group `id` were set to `config`.
pub open spec fn set_insurance_config_next(s: StoreView, id: u64, config: InsuranceConfig)
    -> StoreView {
    s.set_group(id, GroupView { insurance_config: config, ..s.group(id) })
}

/// The members of `g` who have not contributed in its current cycle, in member order.
pub open spec fn pending_contributors(s: StoreView, g: GroupView) -> Seq<Address> {
    g.members.filter(|m: Address| !s.has_contributed(g.id, g.current_cycle, m))
}

/// The members of `g` who have contributed in its current cycle, in member order.
pub open spec fn contributors(s: StoreView, g: GroupView) -> Seq<Address> {
    g.members.filter(|m: Address| s.has_contributed(g.id, g.current_cycle, m))
}

/// True when the end of the group's cycle and of its grace period are times that can be told.
pub open spec fn status_fits(g: GroupView) -> bool {
    grace_end(g) <= u64::MAX
}

/// The status of group `g` at time `now`.
///
/// The cycle is active before its end; the grace period runs from the end of
/// the cycle until `grace_period` seconds later. There is a next recipient
/// unless the group is complete; without one, the creator stands in its place.
pub open spec fn group_status(s: StoreView, g: GroupView, now: u64) -> GroupStatusView {
    GroupStatusView {
        group_id: g.id,
        current_cycle: g.current_cycle,
        has_next_recipient: g.state != GroupState::Complete,
        next_recipient: if g.state != GroupState::Complete && g.payout_index < g.members.len() {
            g.members[g.payout_index as int]
        } else {
            g.creator
        },
        contributions_received: contributors(s, g).len() as u32,
        total_members: g.members.len() as u32,
        pending_contributors: pending_contributors(s, g),
        is_complete: g.is_complete,
        is_cycle_active: now < cycle_end(g),
        cycle_start_time: g.cycle_start_time,
        cycle_end_time: cycle_end(g) as u64,
        current_time: now,
        cycle_penalty_pool: penalty_pool(s, g.id, g.current_cycle, g.members) as i128,
        is_in_grace_period: cycle_end(g) <= now < grace_end(g),
        grace_period_end_time: grace_end(g) as u64,
    }
}

} // verus!
