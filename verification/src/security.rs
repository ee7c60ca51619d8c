//! Parameter validation and checks on a group's state.

use vstd::prelude::*;
use crate::errors::AjoError;
use crate::storage::{Store, StoreView};
use crate::types::{Address, Group, GroupMetadata, GroupState, GroupView};

pub mod limits;

verus! {

/// The verdict on the parameters of a new group.
///
/// The amount is judged first, then the cycle duration, then the member
/// limit. An amount below the minimum is reported like a zero amount, one
/// above the maximum like a negative one; every fault of the duration is
/// reported as a zero duration.
pub open spec fn group_params_verdict(
    contribution_amount: i128,
    cycle_duration: u64,
    max_members: u32,
) -> Result<(), AjoError> {
    if contribution_amount < 0 || contribution_amount > limits::MAX_CONTRIBUTION {
        Err(AjoError::ContributionAmountNegative)
    } else if contribution_amount < limits::MIN_CONTRIBUTION {
        Err(AjoError::ContributionAmountZero)
    } else if cycle_duration < limits::MIN_CYCLE_DURATION || cycle_duration
        > limits::MAX_CYCLE_DURATION {
        Err(AjoError::CycleDurationZero)
    } else if max_members < limits::MIN_MEMBERS {
        Err(AjoError::MaxMembersBelowMinimum)
    } else if max_members > limits::MAX_MEMBERS {
        Err(AjoError::MaxMembersAboveLimit)
    } else {
        Ok(())
    }
}

/// True when the parameters are all within their bounds.
pub open spec fn valid_group_params(
    contribution_amount: i128,
    cycle_duration: u64,
    max_members: u32,
) -> bool {
    &&& limits::MIN_CONTRIBUTION <= contribution_amount <= limits::MAX_CONTRIBUTION
    &&& limits::MIN_CYCLE_DURATION <= cycle_duration <= limits::MAX_CYCLE_DURATION
    &&& limits::MIN_MEMBERS <= max_members <= limits::MAX_MEMBERS
}

/// Validates group creation parameters against the limits.
pub fn validate_group_params(contribution_amount: i128, cycle_duration: u64, max_members: u32) -> (r:
    Result<(), AjoError>)
    ensures
        r == group_params_verdict(contribution_amount, cycle_duration, max_members),
        r is Ok <==> valid_group_params(contribution_amount, cycle_duration, max_members),
{
    if contribution_amount == 0 {
        return Err(AjoError::ContributionAmountZero);
    }
    if contribution_amount < 0 {
        return Err(AjoError::ContributionAmountNegative);
    }
    if contribution_amount < limits::MIN_CONTRIBUTION {
        return Err(AjoError::ContributionAmountZero);
    }
    if contribution_amount > limits::MAX_CONTRIBUTION {
        return Err(AjoError::ContributionAmountNegative);
    }
    if cycle_duration == 0 {
        return Err(AjoError::CycleDurationZero);
    }
    if cycle_duration < limits::MIN_CYCLE_DURATION {
        return Err(AjoError::CycleDurationZero);
    }
    if cycle_duration > limits::MAX_CYCLE_DURATION {
        return Err(AjoError::CycleDurationZero);
    }
    if max_members < limits::MIN_MEMBERS {
        return Err(AjoError::MaxMembersBelowMinimum);
    }
    if max_members > limits::MAX_MEMBERS {
        return Err(AjoError::MaxMembersAboveLimit);
    }
    Ok(())
}

/// Checks if an address is a member of a group.
pub fn is_member(members: &Vec<Address>, address: &Address) -> (r: bool)
    ensures
        r == members@.contains(*address),
{
    let mut i: usize = 0;
    while i < members.len()
        invariant
            0 <= i <= members.len(),
            forall|j: int| 0 <= j < i ==> members@[j] != *address,
        decreases members.len() - i,
    {
        if members[i] == *address {
            return true;
        }
        i += 1;
    }
    false
}

/// True when every one of `members` contributed in `cycle` of group `id`.
pub open spec fn all_contributed(s: StoreView, id: u64, cycle: u32, members: Seq<Address>) -> bool {
    forall|i: int| 0 <= i < members.len() ==> s.has_contributed(id, cycle, #[trigger] members[i])
}

/// Whether all members of `group` have contributed in its current cycle.
pub fn all_members_contributed(store: &Store, group: &Group) -> (r: bool)
    requires
        store.inv(),
    ensures
        r == all_contributed(store@, group.id, group.current_cycle, group.members@),
{
    let mut i: usize = 0;
    while i < group.members.len()
        invariant
            store.inv(),
            0 <= i <= group.members.len(),
            forall|j: int|
                0 <= j < i ==> store@.has_contributed(
                    group.id,
                    group.current_cycle,
                    #[trigger] group.members@[j],
                ),
        decreases group.members.len() - i,
    {
        if !store.has_contributed(group.id, group.current_cycle, &group.members[i]) {
            return false;
        }
        i += 1;
    }
    true
}

/// The pooled contributions of one cycle: the fixed amount from each member.
pub open spec fn base_payout(g: GroupView) -> int {
    g.contribution_amount * g.members.len()
}

/// Calculates the pooled contributions for a cycle of `group`.
pub fn calculate_payout_amount(group: &Group) -> (r: i128)
    requires
        i128::MIN <= base_payout(group@) <= i128::MAX,
    ensures
        r == base_payout(group@),
{
    let member_count = group.members.len() as i128;
    group.contribution_amount * member_count
}

/// True when the group's size, amount and cycle duration are all within the limits.
pub open spec fn usual_pattern(g: GroupView) -> bool {
    &&& g.members.len() <= limits::MAX_MEMBERS
    &&& g.contribution_amount <= limits::MAX_CONTRIBUTION
    &&& g.cycle_duration <= limits::MAX_CYCLE_DURATION
}

/// Detects unusual parameters: `true` if the group looks normal.
pub fn check_transaction_pattern(group: &Group) -> (r: bool)
    ensures
        r == usual_pattern(group@),
{
    if group.members.len() > limits::MAX_MEMBERS as usize {
        return false;
    }
    if group.contribution_amount > limits::MAX_CONTRIBUTION {
        return false;
    }
    if group.cycle_duration > limits::MAX_CYCLE_DURATION {
        return false;
    }
    true
}

/// The verdict on the lengths of a group's name, description and rules.
pub open spec fn metadata_lengths_ok(name_len: u32, description_len: u32, rules_len: u32) -> bool {
    &&& name_len <= limits::MAX_NAME_LENGTH
    &&& description_len <= limits::MAX_DESCRIPTION_LENGTH
    &&& rules_len <= limits::MAX_RULES_LENGTH
}

/// Validates metadata field lengths.
pub fn validate_metadata_lengths(name_len: u32, description_len: u32, rules_len: u32) -> (r: Result<
    (),
    AjoError,
>)
    ensures
        r == (if metadata_lengths_ok(name_len, description_len, rules_len) {
            Ok::<(), AjoError>(())
        } else {
            Err(AjoError::MetadataTooLong)
        }),
{
    if name_len > limits::MAX_NAME_LENGTH || description_len > limits::MAX_DESCRIPTION_LENGTH
        || rules_len > limits::MAX_RULES_LENGTH {
        return Err(AjoError::MetadataTooLong);
    }
    Ok(())
}

/// Validates the lengths of the fields of `metadata`.
pub fn validate_metadata(metadata: &GroupMetadata) -> (r: Result<(), AjoError>)
    ensures
        r == (if metadata.name@.len() <= limits::MAX_NAME_LENGTH && metadata.description@.len()
            <= limits::MAX_DESCRIPTION_LENGTH && metadata.rules@.len() <= limits::MAX_RULES_LENGTH {
            Ok::<(), AjoError>(())
        } else {
            Err(AjoError::MetadataTooLong)
        }),
{
    let longest: usize = 0xffff_ffff;
    if metadata.name.len() > longest || metadata.description.len() > longest
        || metadata.rules.len() > longest {
        return Err(AjoError::MetadataTooLong);
    }
    validate_metadata_lengths(
        metadata.name.len() as u32,
        metadata.description.len() as u32,
        metadata.rules.len() as u32,
    )
}

/// The end of the group's current cycle.
pub open spec fn cycle_end(g: GroupView) -> int {
    g.cycle_start_time + g.cycle_duration
}

/// The end of the grace period that follows the group's current cycle.
pub open spec fn grace_end(g: GroupView) -> int {
    cycle_end(g) + g.grace_period
}

/// Whether the group's current cycle is still running at time `now`.
pub fn is_cycle_active(now: u64, group: &Group) -> (r: bool)
    ensures
        r == (now < cycle_end(group@)),
{
    (now as u128) < group.cycle_start_time as u128 + group.cycle_duration as u128
}

/// The verdict on paying `recipient` from group `g`.
pub open spec fn payout_verdict(s: StoreView, g: GroupView, recipient: Address) -> Result<
    (),
    AjoError,
> {
    if g.state != GroupState::Active {
        Err(AjoError::GroupComplete)
    } else if !all_contributed(s, g.id, g.current_cycle, g.members) {
        Err(AjoError::IncompleteContributions)
    } else if !g.members.contains(recipient) {
        Err(AjoError::NotMember)
    } else if s.has_received_payout(g.id, recipient) {
        Err(AjoError::AlreadyReceivedPayout)
    } else {
        Ok(())
    }
}

/// Validates that a payout from `group` to `recipient` is legitimate.
pub fn validate_payout(store: &Store, group: &Group, recipient: &Address) -> (r: Result<
    (),
    AjoError,
>)
    requires
        store.inv(),
    ensures
        r == payout_verdict(store@, group@, *recipient),
{
    if !is_active(group) {
        return Err(AjoError::GroupComplete);
    }
    if !all_members_contributed(store, group) {
        return Err(AjoError::IncompleteContributions);
    }
    if !is_member(&group.members, recipient) {
        return Err(AjoError::NotMember);
    }
    if store.has_received_payout(group.id, recipient) {
        return Err(AjoError::AlreadyReceivedPayout);
    }
    Ok(())
}

/// Whether the group still accepts changes.
pub fn is_active(group: &Group) -> (r: bool)
    ensures
        r == (group@.state == GroupState::Active),
{
    match group.state {
        GroupState::Active => true,
        _ => false,
    }
}

/// How many of `members` contributed in `cycle` of group `id`.
pub open spec fn received_in_cycle(s: StoreView, id: u64, cycle: u32, members: Seq<Address>)
    -> nat {
    members.filter(|m: Address| s.has_contributed(id, cycle, m)).len()
}

/// How many contributions `members` made to group `id` in the cycles 1 to `last`.
pub open spec fn received_through(s: StoreView, id: u64, last: nat, members: Seq<Address>) -> nat
    decreases last,
{
    if last == 0 {
        0
    } else {
        received_through(s, id, (last - 1) as nat, members) + received_in_cycle(
            s,
            id,
            last as u32,
            members,
        )
    }
}

/// Counts the members who contributed in `cycle` of group `id`.
pub fn count_contributions(store: &Store, id: u64, cycle: u32, members: &Vec<Address>) -> (r: usize)
    requires
        store.inv(),
    ensures
        r == received_in_cycle(store@, id, cycle, members@),
        r <= members.len(),
{
    let ghost paid = |m: Address| store@.has_contributed(id, cycle, m);
    let mut count: usize = 0;
    let mut i: usize = 0;
    assert(members@.subrange(0, 0) =~= Seq::<Address>::empty());
    assert(Seq::<Address>::empty().filter(paid) =~= Seq::<Address>::empty()) by {
        reveal(Seq::filter);
    }
    while i < members.len()
        invariant
            store.inv(),
            0 <= i <= members.len(),
            paid == (|m: Address| store@.has_contributed(id, cycle, m)),
            count == members@.subrange(0, i as int).filter(paid).len(),
            count <= i,
        decreases members.len() - i,
    {
        proof {
            let prefix = members@.subrange(0, i as int);
            assert(prefix.push(members@[i as int]) =~= members@.subrange(0, i + 1));
            prefix.lemma_filter_push(members@[i as int], paid);
        }
        if store.has_contributed(id, cycle, &members[i]) {
            count = count + 1;
        }
        i += 1;
    }
    assert(members@.subrange(0, members.len() as int) =~= members@);
    count
}

/// The contributions that group `g` expects up to its current cycle: one per member and cycle.
pub open spec fn expected_contributions(g: GroupView) -> int {
    g.members.len() * g.current_cycle
}

/// The flags of an audit, as a sum: 1 if an incomplete group has received
/// fewer contributions than expected, 2 if its payout index is past its
/// members, 4 if its parameters are unusual.
pub open spec fn audit_flags(s: StoreView, g: GroupView) -> int {
    (if received_through(s, g.id, g.current_cycle as nat, g.members) < expected_contributions(g)
        && !g.is_complete {
        1int
    } else {
        0int
    }) + (if g.payout_index > g.members.len() {
        2int
    } else {
        0int
    }) + (if !usual_pattern(g) {
        4int
    } else {
        0int
    })
}

/// Audits a group: the contributions expected up to its current cycle, those
/// received, the payouts completed, and the flags raised.
pub fn audit_group_security(store: &Store, group: &Group) -> (r: (u32, u32, u32, u32))
    requires
        store.inv(),
        expected_contributions(group@) <= u32::MAX,
    ensures
        r.0 == expected_contributions(group@),
        r.1 == received_through(store@, group.id, group.current_cycle as nat, group.members@),
        r.2 == group.payout_index,
        r.3 == audit_flags(store@, group@),
{
    let member_count = group.members.len();
    assert(member_count * group.current_cycle == expected_contributions(group@));
    let total_expected: u64 = member_count as u64 * group.current_cycle as u64;
    let mut total_received: u64 = 0;
    let mut done: u32 = 0;
    while done < group.current_cycle
        invariant
            store.inv(),
            member_count == group.members.len(),
            0 <= done <= group.current_cycle,
            member_count * group.current_cycle <= u32::MAX,
            total_received == received_through(store@, group.id, done as nat, group.members@),
            total_received <= member_count * done,
        decreases group.current_cycle - done,
    {
        let cycle: u32 = done + 1;
        let in_cycle = count_contributions(store, group.id, cycle, &group.members);
        assert(member_count * cycle == member_count * done + member_count) by (nonlinear_arith)
            requires
                cycle == done + 1,
        ;
        assert(member_count * cycle <= member_count * group.current_cycle) by (nonlinear_arith)
            requires
                cycle <= group.current_cycle,
                member_count >= 0,
        ;
        total_received = total_received + in_cycle as u64;
        done = cycle;
    }
    let payouts_completed = group.payout_index;
    let mut flags: u32 = 0;
    if total_received < total_expected && !group.is_complete {
        flags = flags + 1;
    }
    if payouts_completed as usize > member_count {
        flags = flags + 2;
    }
    if !check_transaction_pattern(group) {
        flags = flags + 4;
    }
    (total_expected as u32, total_received as u32, payouts_completed, flags)
}

} // verus!
