//! Cancelling a group: by its creator before the first payout, or by a vote of its members.
//!
//! Either way the contributions of the current cycle are owed back to those
//! who made them, and the group is cancelled for good.

use vstd::prelude::*;
use crate::errors::AjoError;
use crate::security::{is_active, is_member};
use crate::storage::{Store, StoreView};
use crate::transitions::contributors;
use crate::types::{
    Address, Group, GroupState, GroupView, RefundReason, RefundRecord, RefundRequest, RefundVote,
    REFUND_APPROVAL_THRESHOLD, VOTING_PERIOD,
};
use crate::wellformed::{
    lemma_cast_vote, lemma_put_refund_request, lemma_set_group, lemma_tally_bounds,
    refund_request_ok, wf,
};

verus! {

/// The refund of what `member` contributed in the current cycle of `g`.
pub open spec fn refund_for(
    s: StoreView,
    g: GroupView,
    member: Address,
    now: u64,
    reason: RefundReason,
) -> RefundRecord {
    RefundRecord {
        group_id: g.id,
        member,
        amount: s.contribution(g.id, g.current_cycle, member).amount,
        timestamp: now,
        reason,
    }
}

/// The refunds owed when `g` is cancelled: one for each member who
/// contributed in the current cycle, in member order, of the amount on record.
pub open spec fn refunds_due(s: StoreView, g: GroupView, now: u64, reason: RefundReason) -> Seq<
    RefundRecord,
> {
    contributors(s, g).map_values(|m: Address| refund_for(s, g, m, now, reason))
}

/// Lists the refunds owed when `group` is cancelled at time `now`.
pub fn collect_refunds(store: &Store, group: &Group, now: u64, reason: RefundReason) -> (r: Vec<
    RefundRecord,
>)
    requires
        store.inv(),
    ensures
        r@ == refunds_due(store@, group@, now, reason),
{
    let ghost g = group@;
    let ghost paid = |m: Address| store@.has_contributed(g.id, g.current_cycle, m);
    let ghost refund = |m: Address| refund_for(store@, g, m, now, reason);
    let mut out: Vec<RefundRecord> = Vec::new();
    let mut i: usize = 0;
    assert(group.members@.subrange(0, 0) =~= Seq::<Address>::empty());
    assert(Seq::<Address>::empty().filter(paid) =~= Seq::<Address>::empty()) by {
        reveal(Seq::filter);
    }
    assert(out@ =~= Seq::<Address>::empty().map_values(refund));
    while i < group.members.len()
        invariant
            store.inv(),
            group@ == g,
            0 <= i <= group.members.len(),
            paid == (|m: Address| store@.has_contributed(g.id, g.current_cycle, m)),
            refund == (|m: Address| refund_for(store@, g, m, now, reason)),
            out@ == group.members@.subrange(0, i as int).filter(paid).map_values(refund),
        decreases group.members.len() - i,
    {
        let m = group.members[i];
        proof {
            let prefix = group.members@.subrange(0, i as int);
            assert(prefix.push(m) =~= group.members@.subrange(0, i + 1));
            prefix.lemma_filter_push(m, paid);
            assert(prefix.filter(paid).push(m).map_values(refund) =~= prefix.filter(
                paid,
            ).map_values(refund).push(refund(m)));
        }
        match store.get_contribution(group.id, group.current_cycle, &m) {
            Some(c) => {
                out.push(
                    RefundRecord {
                        group_id: group.id,
                        member: m,
                        amount: c.amount,
                        timestamp: now,
                        reason,
                    },
                );
            },
            None => {},
        }
        i += 1;
    }
    assert(group.members@.subrange(0, group.members.len() as int) =~= group.members@);
    out
}

/// The group, cancelled.
pub open spec fn group_cancelled(g: GroupView) -> GroupView {
    GroupView { state: GroupState::Cancelled, ..g }
}

/// Why `caller` does not cancel group `id`, if so: only the creator may
/// cancel, only an active group, and only before its first payout.
pub open spec fn cancel_group_refusal(s: StoreView, caller: Address, id: u64) -> Option<AjoError> {
    if !s.has_group(id) {
        Some(AjoError::GroupNotFound)
    } else if s.group(id).creator != caller {
        Some(AjoError::Unauthorized)
    } else if s.group(id).state != GroupState::Active {
        Some(AjoError::GroupComplete)
    } else if s.group(id).payout_index != 0 {
        Some(AjoError::CannotCancelAfterPayout)
    } else {
        None
    }
}

/// The store after group `id` was cancelled.
pub open spec fn cancel_group_next(s: StoreView, id: u64) -> StoreView {
    s.set_group(id, group_cancelled(s.group(id)))
}

/// Cancels a group on behalf of its creator and lists the refunds owed.
pub fn cancel_group(store: &mut Store, caller: Address, group_id: u64, now: u64) -> (r: Result<
    Vec<RefundRecord>,
    AjoError,
>)
    requires
        old(store).inv(),
        wf(old(store)@),
    ensures
        final(store).inv(),
        wf(final(store)@),
        match r {
            Ok(refunds) => {
                &&& cancel_group_refusal(old(store)@, caller, group_id) is None
                &&& refunds@ == refunds_due(
                    old(store)@,
                    old(store)@.group(group_id),
                    now,
                    RefundReason::CreatorCancellation,
                )
                &&& final(store)@ == cancel_group_next(old(store)@, group_id)
            },
            Err(e) => {
                &&& cancel_group_refusal(old(store)@, caller, group_id) == Some(e)
                &&& final(store)@ == old(store)@
            },
        },
{
    let mut group = match store.get_group(group_id) {
        Some(g) => g,
        None => {
            return Err(AjoError::GroupNotFound);
        },
    };
    if group.creator != caller {
        return Err(AjoError::Unauthorized);
    }
    if !is_active(&group) {
        return Err(AjoError::GroupComplete);
    }
    if group.payout_index != 0 {
        return Err(AjoError::CannotCancelAfterPayout);
    }
    let refunds = collect_refunds(store, &group, now, RefundReason::CreatorCancellation);
    group.state = GroupState::Cancelled;
    proof {
        let g = old(store)@.group(group_id);
        assert(old(store)@.groups[group_id - 1].id == group_id);
        assert(g.members.subrange(0, g.members.len() as int) =~= g.members);
        lemma_set_group(old(store)@, group_id, group_cancelled(g));
    }
    store.store_group(group);
    Ok(refunds)
}

/// Why `requester` does not open a refund request for group `id`, if so.
pub open spec fn request_refund_refusal(s: StoreView, requester: Address, id: u64) -> Option<
    AjoError,
> {
    if !s.has_group(id) {
        Some(AjoError::GroupNotFound)
    } else if s.group(id).state != GroupState::Active {
        Some(AjoError::GroupComplete)
    } else if !s.group(id).members.contains(requester) {
        Some(AjoError::NotMember)
    } else if s.refund_requests.dom().contains(id) {
        Some(AjoError::RefundRequestExists)
    } else {
        None
    }
}

/// The request that `requester` opens for group `id` at time `now`: no votes
/// yet, and voting closes one voting period later.
pub open spec fn request_opened(requester: Address, id: u64, now: u64) -> RefundRequest {
    RefundRequest {
        group_id: id,
        requester,
        created_at: now,
        voting_deadline: (now + VOTING_PERIOD) as u64,
        votes_for: 0,
        votes_against: 0,
        executed: false,
        approved: false,
    }
}

/// Opens a refund request for a group on behalf of one of its members.
pub fn request_refund(store: &mut Store, requester: Address, group_id: u64, now: u64) -> (r: Result<
    RefundRequest,
    AjoError,
>)
    requires
        old(store).inv(),
        wf(old(store)@),
        request_refund_refusal(old(store)@, requester, group_id) is None ==> now + VOTING_PERIOD
            <= u64::MAX,
    ensures
        final(store).inv(),
        wf(final(store)@),
        match r {
            Ok(request) => {
                &&& request_refund_refusal(old(store)@, requester, group_id) is None
                &&& request == request_opened(requester, group_id, now)
                &&& final(store)@ == old(store)@.put_refund_request(request)
            },
            Err(e) => {
                &&& request_refund_refusal(old(store)@, requester, group_id) == Some(e)
                &&& final(store)@ == old(store)@
            },
        },
{
    let group = match store.get_group(group_id) {
        Some(g) => g,
        None => {
            return Err(AjoError::GroupNotFound);
        },
    };
    if !is_active(&group) {
        return Err(AjoError::GroupComplete);
    }
    if !is_member(&group.members, &requester) {
        return Err(AjoError::NotMember);
    }
    if store.get_refund_request(group_id).is_some() {
        return Err(AjoError::RefundRequestExists);
    }
    let request = RefundRequest {
        group_id,
        requester,
        created_at: now,
        voting_deadline: now + VOTING_PERIOD,
        votes_for: 0,
        votes_against: 0,
        executed: false,
        approved: false,
    };
    proof {
        lemma_tally_bounds(store@, group_id, true);
        lemma_tally_bounds(store@, group_id, false);
        lemma_put_refund_request(store@, request);
    }
    store.store_refund_request(request);
    Ok(request)
}

/// Why `voter` does not vote on the refund request of group `id` at time `now`, if so.
pub open spec fn vote_refund_refusal(s: StoreView, voter: Address, id: u64, now: u64) -> Option<
    AjoError,
> {
    if !s.has_group(id) {
        Some(AjoError::GroupNotFound)
    } else if s.group(id).state != GroupState::Active {
        Some(AjoError::GroupComplete)
    } else if !s.group(id).members.contains(voter) {
        Some(AjoError::NotMember)
    } else if !s.refund_requests.dom().contains(id) {
        Some(AjoError::RefundRequestNotFound)
    } else if s.refund_requests[id].executed {
        Some(AjoError::RefundAlreadyExecuted)
    } else if now > s.refund_requests[id].voting_deadline {
        Some(AjoError::VotingPeriodEnded)
    } else if s.has_voted(id, voter) {
        Some(AjoError::AlreadyVoted)
    } else {
        None
    }
}

/// The request with one more vote counted.
pub open spec fn request_voted(r: RefundRequest, in_favor: bool) -> RefundRequest {
    if in_favor {
        RefundRequest { votes_for: (r.votes_for + 1) as u32, ..r }
    } else {
        RefundRequest { votes_against: (r.votes_against + 1) as u32, ..r }
    }
}

/// The store after `voter` voted on the refund request of group `id` at time `now`.
pub open spec fn vote_refund_next(s: StoreView, voter: Address, id: u64, in_favor: bool, now: u64)
    -> StoreView {
    s.put_refund_vote(RefundVote { group_id: id, voter, in_favor, timestamp: now }).put_refund_request(
        request_voted(s.refund_requests[id], in_favor),
    )
}

/// Casts the vote of a member on the refund request of a group.
/// Returns the request with the vote counted.
pub fn vote_refund(store: &mut Store, voter: Address, group_id: u64, in_favor: bool, now: u64) -> (r:
    Result<RefundRequest, AjoError>)
    requires
        old(store).inv(),
        wf(old(store)@),
    ensures
        final(store).inv(),
        wf(final(store)@),
        match r {
            Ok(request) => {
                &&& vote_refund_refusal(old(store)@, voter, group_id, now) is None
                &&& request == request_voted(old(store)@.refund_requests[group_id], in_favor)
                &&& final(store)@ == vote_refund_next(old(store)@, voter, group_id, in_favor, now)
            },
            Err(e) => {
                &&& vote_refund_refusal(old(store)@, voter, group_id, now) == Some(e)
                &&& final(store)@ == old(store)@
            },
        },
{
    let group = match store.get_group(group_id) {
        Some(g) => g,
        None => {
            return Err(AjoError::GroupNotFound);
        },
    };
    if !is_active(&group) {
        return Err(AjoError::GroupComplete);
    }
    if !is_member(&group.members, &voter) {
        return Err(AjoError::NotMember);
    }
    let mut request = match store.get_refund_request(group_id) {
        Some(r) => r,
        None => {
            return Err(AjoError::RefundRequestNotFound);
        },
    };
    if request.executed {
        return Err(AjoError::RefundAlreadyExecuted);
    }
    if now > request.voting_deadline {
        return Err(AjoError::VotingPeriodEnded);
    }
    if store.get_refund_vote(group_id, &voter).is_some() {
        return Err(AjoError::AlreadyVoted);
    }
    let vote = RefundVote { group_id, voter, in_favor, timestamp: now };
    proof {
        lemma_tally_bounds(store@, group_id, true);
        lemma_tally_bounds(store@, group_id, false);
        assert(refund_request_ok(store@, group_id, store@.refund_requests[group_id]));
    }
    if in_favor {
        request.votes_for = request.votes_for + 1;
    } else {
        request.votes_against = request.votes_against + 1;
    }
    proof {
        lemma_cast_vote(store@, vote, request);
    }
    store.store_refund_vote(vote);
    store.store_refund_request(request);
    Ok(request)
}

/// True when every one of `members` has voted on the refund request of group `id`.
pub open spec fn all_voted(s: StoreView, id: u64, members: Seq<Address>) -> bool {
    forall|i: int| 0 <= i < members.len() ==> s.has_voted(id, #[trigger] members[i])
}

/// Whether all members of `group` have voted on its refund request.
pub fn all_members_voted(store: &Store, group: &Group) -> (r: bool)
    requires
        store.inv(),
    ensures
        r == all_voted(store@, group.id, group.members@),
{
    let mut i: usize = 0;
    while i < group.members.len()
        invariant
            store.inv(),
            0 <= i <= group.members.len(),
            forall|j: int| 0 <= j < i ==> store@.has_voted(group.id, #[trigger] group.members@[j]),
        decreases group.members.len() - i,
    {
        if store.get_refund_vote(group.id, &group.members[i]).is_none() {
            return false;
        }
        i += 1;
    }
    true
}

/// True when the votes in favor are at least the approval threshold, in
/// percent, of the votes cast.
pub open spec fn approves(votes_for: u32, votes_against: u32) -> bool {
    votes_for * 100 >= REFUND_APPROVAL_THRESHOLD * (votes_for + votes_against)
}

/// Whether the votes approve the refund.
pub fn is_approved(votes_for: u32, votes_against: u32) -> (r: bool)
    ensures
        r == approves(votes_for, votes_against),
{
    let cast: u64 = votes_for as u64 + votes_against as u64;
    let threshold: u64 = REFUND_APPROVAL_THRESHOLD as u64;
    assert(threshold * cast == 51 * cast) by (nonlinear_arith)
        requires
            threshold == 51,
    ;
    votes_for as u64 * 100 >= threshold * cast
}

/// Why the refund request of group `id` is not resolved at time `now`, if so:
/// it is resolved only once, and only after the voting deadline or once all
/// members have voted.
pub open spec fn execute_refund_refusal(s: StoreView, id: u64, now: u64) -> Option<AjoError> {
    if !s.has_group(id) {
        Some(AjoError::GroupNotFound)
    } else if s.group(id).state != GroupState::Active {
        Some(AjoError::GroupComplete)
    } else if !s.refund_requests.dom().contains(id) {
        Some(AjoError::RefundRequestNotFound)
    } else if s.refund_requests[id].executed {
        Some(AjoError::RefundAlreadyExecuted)
    } else if now <= s.refund_requests[id].voting_deadline && !all_voted(
        s,
        id,
        s.group(id).members,
    ) {
        Some(AjoError::VotingPeriodActive)
    } else {
        None
    }
}

/// Whether the refund request of group `id` stands approved by the votes cast.
pub open spec fn refund_approved(s: StoreView, id: u64) -> bool {
    approves(s.refund_requests[id].votes_for, s.refund_requests[id].votes_against)
}

/// The request once resolved.
pub open spec fn request_resolved(r: RefundRequest, approved: bool) -> RefundRequest {
    RefundRequest { executed: true, approved, ..r }
}

/// The store after the refund request of group `id` was resolved: the
/// request is marked, and the group is cancelled if the request was approved.
pub open spec fn execute_refund_next(s: StoreView, id: u64) -> StoreView {
    let approved = refund_approved(s, id);
    let resolved = request_resolved(s.refund_requests[id], approved);
    if approved {
        s.set_group(id, group_cancelled(s.group(id))).put_refund_request(resolved)
    } else {
        s.put_refund_request(resolved)
    }
}

/// Resolves the refund request of a group.
///
/// Returns whether the request was approved, and the refunds owed: those of
/// the current cycle's contributions if it was, none if it was not.
pub fn execute_refund(store: &mut Store, group_id: u64, now: u64) -> (r: Result<
    (bool, Vec<RefundRecord>),
    AjoError,
>)
    requires
        old(store).inv(),
        wf(old(store)@),
    ensures
        final(store).inv(),
        wf(final(store)@),
        match r {
            Ok((approved, refunds)) => {
                &&& execute_refund_refusal(old(store)@, group_id, now) is None
                &&& approved == refund_approved(old(store)@, group_id)
                &&& refunds@ == (if approved {
                    refunds_due(
                        old(store)@,
                        old(store)@.group(group_id),
                        now,
                        RefundReason::MemberVote,
                    )
                } else {
                    Seq::<RefundRecord>::empty()
                })
                &&& final(store)@ == execute_refund_next(old(store)@, group_id)
            },
            Err(e) => {
                &&& execute_refund_refusal(old(store)@, group_id, now) == Some(e)
                &&& final(store)@ == old(store)@
            },
        },
{
    let mut group = match store.get_group(group_id) {
        Some(g) => g,
        None => {
            return Err(AjoError::GroupNotFound);
        },
    };
    if !is_active(&group) {
        return Err(AjoError::GroupComplete);
    }
    let mut request = match store.get_refund_request(group_id) {
        Some(r) => r,
        None => {
            return Err(AjoError::RefundRequestNotFound);
        },
    };
    if request.executed {
        return Err(AjoError::RefundAlreadyExecuted);
    }
    proof {
        assert(old(store)@.groups[group_id - 1].id == group_id);
    }
    if now <= request.voting_deadline && !all_members_voted(store, &group) {
        return Err(AjoError::VotingPeriodActive);
    }
    let approved = is_approved(request.votes_for, request.votes_against);
    request.executed = true;
    request.approved = approved;
    let ghost s0 = old(store)@;
    let ghost g = s0.group(group_id);
    proof {
        assert(refund_request_ok(s0, group_id, s0.refund_requests[group_id]));
    }
    if approved {
        let refunds = collect_refunds(store, &group, now, RefundReason::MemberVote);
        group.state = GroupState::Cancelled;
        proof {
            assert(g.members.subrange(0, g.members.len() as int) =~= g.members);
            lemma_set_group(s0, group_id, group_cancelled(g));
            let s1 = s0.set_group(group_id, group_cancelled(g));
            crate::wellformed::lemma_tally_same_group(s0, s1, group_id, true);
            crate::wellformed::lemma_tally_same_group(s0, s1, group_id, false);
            lemma_put_refund_request(s1, request);
        }
        store.store_group(group);
        store.store_refund_request(request);
        Ok((true, refunds))
    } else {
        proof {
            lemma_put_refund_request(s0, request);
        }
        store.store_refund_request(request);
        Ok((false, Vec::new()))
    }
}

} // verus!
