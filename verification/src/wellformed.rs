//! What holds of the store between operations, and why each write keeps it.
//!
//! [`wf`] ties the families of records together. The lemmas of this module
//! show that each kind of write keeps it, given that what is written is
//! sound on its own.

use vstd::prelude::*;
use crate::counting::{
    count_upto, lemma_count_agree, lemma_count_bound, lemma_count_flip, lemma_count_none,
    lemma_count_positive,
};
use crate::penalty::{penalty_cap, penalty_due, reliability};
use crate::security::limits;
use crate::storage::{ContributionKey, MemberKey, StoreView};
use crate::types::{
    Address, ClaimStatus, ContributionRecord, GroupState, GroupView, InsuranceClaim,
    InsurancePool, MemberPenaltyRecord, PayoutRecord, RefundRequest, RefundVote, VOTING_PERIOD,
};

verus! {

/// What holds of every group.
///
/// The parameters are within their limits; the members are distinct, at least
/// one and at most `max_members`, the creator first; the payout index never
/// passes the members, and reaches them exactly when the group is complete;
/// the cycle number follows the payout index.
pub open spec fn group_wf(g: GroupView) -> bool {
    &&& limits::MIN_CONTRIBUTION <= g.contribution_amount <= limits::MAX_CONTRIBUTION
    &&& limits::MIN_CYCLE_DURATION <= g.cycle_duration <= limits::MAX_CYCLE_DURATION
    &&& limits::MIN_MEMBERS <= g.max_members <= limits::MAX_MEMBERS
    &&& 1 <= g.members.len() <= g.max_members
    &&& g.members.no_duplicates()
    &&& g.members[0] == g.creator
    &&& g.payout_index <= g.members.len()
    &&& (g.state == GroupState::Complete <==> g.payout_index == g.members.len())
    &&& g.is_complete == (g.state == GroupState::Complete)
    &&& g.current_cycle == (if g.state == GroupState::Complete {
        g.payout_index as int
    } else {
        g.payout_index + 1
    })
}

/// Every group is sound and sits at the position that its id names.
pub open spec fn groups_wf(s: StoreView) -> bool {
    forall|i: int|
        0 <= i < s.groups.len() ==> (#[trigger] s.groups[i]).id == i + 1 && group_wf(s.groups[i])
}

/// A contribution is filed under its own key, by a member of an existing
/// group, for a cycle that has begun, with the group's amount and penalty.
pub open spec fn contribution_ok(s: StoreView, k: ContributionKey, r: ContributionRecord) -> bool {
    &&& r.group_id == k.group_id
    &&& r.cycle == k.cycle
    &&& r.member == k.member
    &&& s.has_group(k.group_id)
    &&& s.group(k.group_id).members.contains(k.member)
    &&& 1 <= k.cycle <= s.group(k.group_id).current_cycle
    &&& r.amount == s.group(k.group_id).contribution_amount
    &&& r.penalty_amount == penalty_due(s.group(k.group_id), r.is_late)
}

pub open spec fn contributions_wf(s: StoreView) -> bool {
    forall|k: ContributionKey| #[trigger]
        s.contributions.dom().contains(k) ==> contribution_ok(s, k, s.contributions[k])
}

/// True when `m` stands at position `i` of `g` and that position was paid.
pub open spec fn paid_position(g: GroupView, i: int, m: Address) -> bool {
    0 <= i < g.payout_index && i < g.members.len() && g.members[i] == m
}

/// A payout is filed under its own key, for a member whose turn has passed.
pub open spec fn payout_ok(s: StoreView, k: MemberKey, r: PayoutRecord) -> bool {
    &&& r.group_id == k.group_id
    &&& r.member == k.member
    &&& s.has_group(k.group_id)
    &&& exists|i: int| paid_position(s.group(k.group_id), i, k.member)
}

pub open spec fn payouts_wf(s: StoreView) -> bool {
    forall|k: MemberKey| #[trigger]
        s.payouts.dom().contains(k) ==> payout_ok(s, k, s.payouts[k])
}

/// The statistics of a member count at most one contribution per cycle begun,
/// the penalties stay within what the late ones can have cost, and the score
/// is the one that the counts give.
pub open spec fn penalty_ok(s: StoreView, k: MemberKey, r: MemberPenaltyRecord) -> bool {
    &&& r.group_id == k.group_id
    &&& r.member == k.member
    &&& s.has_group(k.group_id)
    &&& s.group(k.group_id).members.contains(k.member)
    &&& r.late_count + r.on_time_count + (if s.has_contributed(
        k.group_id,
        s.group(k.group_id).current_cycle,
        k.member,
    ) {
        0int
    } else {
        1int
    }) <= s.group(k.group_id).current_cycle
    &&& 0 <= r.total_penalties <= r.late_count * penalty_cap()
    &&& r.reliability_score == reliability(r.on_time_count, r.late_count)
}

pub open spec fn penalties_wf(s: StoreView) -> bool {
    forall|k: MemberKey| #[trigger]
        s.penalties.dom().contains(k) ==> penalty_ok(s, k, s.penalties[k])
}

/// Whether the claim at position `i` is pending against the pool of `token`.
pub open spec fn claim_pending_at(s: StoreView, token: Address, i: int) -> bool {
    s.claims[i].status == ClaimStatus::Pending && s.group(s.claims[i].group_id).token_address
        == token
}

/// The number of claims that are pending against the pool of `token`.
pub open spec fn pending_claims(s: StoreView, token: Address) -> nat {
    count_upto(s.claims.len(), |i: int| claim_pending_at(s, token, i))
}

/// The pending-claim counter of the pool of `token`; 0 where there is no pool.
pub open spec fn pool_pending(s: StoreView, token: Address) -> nat {
    if s.insurance_pools.dom().contains(token) {
        s.insurance_pools[token].pending_claims_count as nat
    } else {
        0
    }
}

/// Every claim sits at the position that its id names and belongs to an
/// existing group, and each pool counts the claims that are pending against it.
pub open spec fn insurance_wf(s: StoreView) -> bool {
    &&& forall|i: int|
        0 <= i < s.claims.len() ==> (#[trigger] s.claims[i]).id == i + 1 && s.has_group(
            s.claims[i].group_id,
        )
    &&& forall|t: Address| #[trigger] pending_claims(s, t) == pool_pending(s, t)
}

/// Whether the member at position `i` of group `id` voted, and voted `in_favor`.
pub open spec fn voted_at(s: StoreView, id: u64, in_favor: bool, i: int) -> bool {
    let k = MemberKey { group_id: id, member: s.group(id).members[i] };
    s.refund_votes.dom().contains(k) && s.refund_votes[k].in_favor == in_favor
}

/// The number of members of group `id` who voted `in_favor`.
pub open spec fn tally(s: StoreView, id: u64, in_favor: bool) -> nat {
    count_upto(s.group(id).members.len(), |i: int| voted_at(s, id, in_favor, i))
}

/// A refund request is filed under its group, was opened by a member, closes
/// one voting period after it opened, counts the votes cast, and is approved
/// only once resolved, with the group cancelled.
pub open spec fn refund_request_ok(s: StoreView, id: u64, r: RefundRequest) -> bool {
    &&& r.group_id == id
    &&& s.has_group(id)
    &&& s.group(id).members.contains(r.requester)
    &&& r.voting_deadline == r.created_at + VOTING_PERIOD
    &&& r.votes_for == tally(s, id, true)
    &&& r.votes_against == tally(s, id, false)
    &&& r.approved ==> r.executed && s.group(id).state == GroupState::Cancelled
}

/// A vote is filed under its own key, by a member, on a request that exists.
pub open spec fn vote_ok(s: StoreView, k: MemberKey, v: RefundVote) -> bool {
    &&& v.group_id == k.group_id
    &&& v.voter == k.member
    &&& s.refund_requests.dom().contains(k.group_id)
    &&& s.has_group(k.group_id)
    &&& s.group(k.group_id).members.contains(k.member)
}

pub open spec fn refunds_wf(s: StoreView) -> bool {
    &&& forall|id: u64| #[trigger]
        s.refund_requests.dom().contains(id) ==> refund_request_ok(s, id, s.refund_requests[id])
    &&& forall|k: MemberKey| #[trigger]
        s.refund_votes.dom().contains(k) ==> vote_ok(s, k, s.refund_votes[k])
}

/// What holds of the store between operations.
pub open spec fn wf(s: StoreView) -> bool {
    &&& groups_wf(s)
    &&& contributions_wf(s)
    &&& payouts_wf(s)
    &&& penalties_wf(s)
    &&& insurance_wf(s)
    &&& refunds_wf(s)
}

/// How a group may change: only while active, keeping its id, amount, rates
/// and token, gaining at most one member at the end, never going back in the
/// rotation.
pub open spec fn evolves(g: GroupView, h: GroupView) -> bool {
    &&& g.state == GroupState::Active
    &&& h.id == g.id
    &&& h.contribution_amount == g.contribution_amount
    &&& h.penalty_rate == g.penalty_rate
    &&& h.token_address == g.token_address
    &&& h.current_cycle >= g.current_cycle
    &&& h.payout_index >= g.payout_index
    &&& g.members.len() <= h.members.len() <= g.members.len() + 1
    &&& h.members.subrange(0, g.members.len() as int) == g.members
}

/// The empty store is sound.
pub proof fn lemma_empty_wf()
    ensures
        wf(StoreView::empty()),
{
    let s = StoreView::empty();
    assert forall|t: Address| #[trigger] pending_claims(s, t) == pool_pending(s, t) by {}
}

/// The tally of a group depends only on its members and on the votes.
pub proof fn lemma_tally_same_group(s: StoreView, t: StoreView, id: u64, in_favor: bool)
    requires
        s.group(id).members == t.group(id).members,
        s.refund_votes == t.refund_votes,
    ensures
        tally(s, id, in_favor) == tally(t, id, in_favor),
{
    lemma_count_agree(
        s.group(id).members.len(),
        |i: int| voted_at(s, id, in_favor, i),
        |i: int| voted_at(t, id, in_favor, i),
    );
}

/// The count of pending claims depends only on the claims and on the tokens of their groups.
pub proof fn lemma_pending_same_tokens(s: StoreView, t: StoreView, token: Address)
    requires
        t.claims == s.claims,
        forall|i: int|
            0 <= i < s.claims.len() ==> s.group((#[trigger] s.claims[i]).group_id).token_address
                == t.group(s.claims[i].group_id).token_address,
    ensures
        pending_claims(t, token) == pending_claims(s, token),
{
    assert forall|i: int| 0 <= i < s.claims.len() implies claim_pending_at(s, token, i)
        == claim_pending_at(t, token, i) by {
        assert(s.group(s.claims[i].group_id).token_address == t.group(
            s.claims[i].group_id,
        ).token_address);
    }
    lemma_count_agree(
        s.claims.len(),
        |i: int| claim_pending_at(s, token, i),
        |i: int| claim_pending_at(t, token, i),
    );
}

/// What carries over from a sound store to one with the same groups: each
/// family of records that is the same in both is sound in both. For the
/// penalty statistics it is enough that no contribution was lost.
pub proof fn lemma_carried_over(s: StoreView, t: StoreView)
    requires
        wf(s),
        t.groups == s.groups,
    ensures
        groups_wf(t),
        t.contributions == s.contributions ==> contributions_wf(t),
        t.payouts == s.payouts ==> payouts_wf(t),
        t.penalties == s.penalties && (forall|k: ContributionKey| #[trigger]
            s.contributions.dom().contains(k) ==> t.contributions.dom().contains(k))
            ==> penalties_wf(t),
        t.claims == s.claims && t.insurance_pools == s.insurance_pools ==> insurance_wf(t),
        t.refund_requests == s.refund_requests && t.refund_votes == s.refund_votes ==> refunds_wf(
            t,
        ),
{
    if t.contributions == s.contributions {
        assert forall|k: ContributionKey| #[trigger]
            t.contributions.dom().contains(k) implies contribution_ok(
            t,
            k,
            t.contributions[k],
        ) by {
            assert(contribution_ok(s, k, s.contributions[k]));
        }
    }
    if t.payouts == s.payouts {
        assert forall|k: MemberKey| #[trigger] t.payouts.dom().contains(k) implies payout_ok(
            t,
            k,
            t.payouts[k],
        ) by {
            assert(payout_ok(s, k, s.payouts[k]));
            let i = choose|i: int| paid_position(s.group(k.group_id), i, k.member);
            assert(paid_position(t.group(k.group_id), i, k.member));
        }
    }
    if t.penalties == s.penalties && (forall|k: ContributionKey| #[trigger]
        s.contributions.dom().contains(k) ==> t.contributions.dom().contains(k)) {
        assert forall|k: MemberKey| #[trigger] t.penalties.dom().contains(k) implies penalty_ok(
            t,
            k,
            t.penalties[k],
        ) by {
            assert(penalty_ok(s, k, s.penalties[k]));
            let c = ContributionKey {
                group_id: k.group_id,
                cycle: s.group(k.group_id).current_cycle,
                member: k.member,
            };
            assert(s.contributions.dom().contains(c) ==> t.contributions.dom().contains(c));
        }
    }
    if t.claims == s.claims && t.insurance_pools == s.insurance_pools {
        assert forall|tok: Address| #[trigger] pending_claims(t, tok) == pool_pending(t, tok) by {
            assert(pending_claims(s, tok) == pool_pending(s, tok));
            lemma_pending_same_tokens(s, t, tok);
        }
    }
    if t.refund_requests == s.refund_requests && t.refund_votes == s.refund_votes {
        assert forall|id: u64| #[trigger]
            t.refund_requests.dom().contains(id) implies refund_request_ok(
            t,
            id,
            t.refund_requests[id],
        ) by {
            assert(refund_request_ok(s, id, s.refund_requests[id]));
            lemma_tally_same_group(s, t, id, true);
            lemma_tally_same_group(s, t, id, false);
        }
        assert forall|k: MemberKey| #[trigger] t.refund_votes.dom().contains(k) implies vote_ok(
            t,
            k,
            t.refund_votes[k],
        ) by {
            assert(vote_ok(s, k, s.refund_votes[k]));
        }
    }
}

/// Soundness does not depend on who administers the contract nor on the pause switch.
pub proof fn lemma_same_records(s: StoreView, t: StoreView)
    requires
        wf(s),
        t == (StoreView { admin: t.admin, paused: t.paused, ..s }),
    ensures
        wf(t),
{
    lemma_carried_over(s, t);
}

/// Adding a sound group under the next id keeps the store sound.
pub proof fn lemma_push_group(s: StoreView, g: GroupView)
    requires
        wf(s),
        group_wf(g),
        g.id == s.groups.len() + 1,
        s.groups.len() < u64::MAX,
    ensures
        wf(s.push_group(g)),
{
    let t = s.push_group(g);
    assert forall|id: u64| s.has_group(id) implies t.has_group(id) && t.group(id) == s.group(
        id,
    ) by {}
    assert(groups_wf(t));
    assert forall|k: ContributionKey| #[trigger]
        t.contributions.dom().contains(k) implies contribution_ok(t, k, t.contributions[k]) by {
        assert(contribution_ok(s, k, s.contributions[k]));
    }
    assert forall|k: MemberKey| #[trigger] t.payouts.dom().contains(k) implies payout_ok(
        t,
        k,
        t.payouts[k],
    ) by {
        assert(payout_ok(s, k, s.payouts[k]));
        let i = choose|i: int| paid_position(s.group(k.group_id), i, k.member);
        assert(paid_position(t.group(k.group_id), i, k.member));
    }
    assert forall|k: MemberKey| #[trigger] t.penalties.dom().contains(k) implies penalty_ok(
        t,
        k,
        t.penalties[k],
    ) by {
        assert(penalty_ok(s, k, s.penalties[k]));
    }
    assert forall|tok: Address| #[trigger] pending_claims(t, tok) == pool_pending(t, tok) by {
        assert(pending_claims(s, tok) == pool_pending(s, tok));
        lemma_pending_same_tokens(s, t, tok);
    }
    assert forall|id: u64| #[trigger]
        t.refund_requests.dom().contains(id) implies refund_request_ok(
        t,
        id,
        t.refund_requests[id],
    ) by {
        assert(refund_request_ok(s, id, s.refund_requests[id]));
        lemma_tally_same_group(s, t, id, true);
        lemma_tally_same_group(s, t, id, false);
    }
    assert forall|k: MemberKey| #[trigger] t.refund_votes.dom().contains(k) implies vote_ok(
        t,
        k,
        t.refund_votes[k],
    ) by {
        assert(vote_ok(s, k, s.refund_votes[k]));
    }
}

/// A member who joins has not voted, so the tallies of the group stay as they were.
pub proof fn lemma_tally_grown_group(s: StoreView, id: u64, h: GroupView, in_favor: bool)
    requires
        wf(s),
        s.has_group(id),
        h.members.no_duplicates(),
        s.group(id).members.len() <= h.members.len() <= s.group(id).members.len() + 1,
        h.members.subrange(0, s.group(id).members.len() as int) == s.group(id).members,
    ensures
        tally(s.set_group(id, h), id, in_favor) == tally(s, id, in_favor),
{
    let t = s.set_group(id, h);
    let g = s.group(id);
    let n = g.members.len();
    assert(t.group(id) == h);
    assert forall|i: int| 0 <= i < n implies h.members[i] == g.members[i] by {
        assert(h.members.subrange(0, n as int)[i] == h.members[i]);
    }
    lemma_count_agree(
        n,
        |i: int| voted_at(s, id, in_favor, i),
        |i: int| voted_at(t, id, in_favor, i),
    );
    if h.members.len() == n + 1 {
        let k = MemberKey { group_id: id, member: h.members[n as int] };
        if s.refund_votes.dom().contains(k) {
            assert(vote_ok(s, k, s.refund_votes[k]));
            let j = choose|j: int| 0 <= j < n && g.members[j] == k.member;
            assert(h.members[j] == h.members[n as int]);
        }
        assert(!voted_at(t, id, in_favor, n as int));
    }
}

/// Replacing a group by a sound later form of itself keeps the store sound.
pub proof fn lemma_set_group(s: StoreView, id: u64, h: GroupView)
    requires
        wf(s),
        s.has_group(id),
        group_wf(h),
        evolves(s.group(id), h),
    ensures
        wf(s.set_group(id, h)),
{
    let t = s.set_group(id, h);
    let g = s.group(id);
    assert forall|j: u64| s.has_group(j) implies t.has_group(j) && (j != id ==> t.group(j)
        == s.group(j)) && (j == id ==> t.group(j) == h) by {}
    assert forall|m: Address| g.members.contains(m) implies h.members.contains(m) by {
        let i = choose|i: int| 0 <= i < g.members.len() && g.members[i] == m;
        assert(h.members.subrange(0, g.members.len() as int)[i] == h.members[i]);
    }
    assert(groups_wf(t));
    assert forall|k: ContributionKey| #[trigger]
        t.contributions.dom().contains(k) implies contribution_ok(t, k, t.contributions[k]) by {
        assert(contribution_ok(s, k, s.contributions[k]));
    }
    assert forall|k: MemberKey| #[trigger] t.payouts.dom().contains(k) implies payout_ok(
        t,
        k,
        t.payouts[k],
    ) by {
        assert(payout_ok(s, k, s.payouts[k]));
        let i = choose|i: int| paid_position(s.group(k.group_id), i, k.member);
        if k.group_id == id {
            assert(h.members.subrange(0, g.members.len() as int)[i] == h.members[i]);
        }
        assert(paid_position(t.group(k.group_id), i, k.member));
    }
    assert forall|k: MemberKey| #[trigger] t.penalties.dom().contains(k) implies penalty_ok(
        t,
        k,
        t.penalties[k],
    ) by {
        assert(penalty_ok(s, k, s.penalties[k]));
    }
    assert forall|tok: Address| #[trigger] pending_claims(t, tok) == pool_pending(t, tok) by {
        assert(pending_claims(s, tok) == pool_pending(s, tok));
        lemma_pending_same_tokens(s, t, tok);
    }
    assert forall|k: MemberKey| #[trigger] t.refund_votes.dom().contains(k) implies vote_ok(
        t,
        k,
        t.refund_votes[k],
    ) by {
        assert(vote_ok(s, k, s.refund_votes[k]));
    }
    assert forall|j: u64| #[trigger]
        t.refund_requests.dom().contains(j) implies refund_request_ok(
        t,
        j,
        t.refund_requests[j],
    ) by {
        assert(refund_request_ok(s, j, s.refund_requests[j]));
        if j == id {
            lemma_tally_grown_group(s, id, h, true);
            lemma_tally_grown_group(s, id, h, false);
        } else {
            lemma_tally_same_group(s, t, j, true);
            lemma_tally_same_group(s, t, j, false);
        }
    }
}

/// The key under which a contribution is filed.
pub open spec fn contribution_key(r: ContributionRecord) -> ContributionKey {
    ContributionKey { group_id: r.group_id, cycle: r.cycle, member: r.member }
}

/// The key under which the statistics of a member are filed.
pub open spec fn penalty_key(r: MemberPenaltyRecord) -> MemberKey {
    MemberKey { group_id: r.group_id, member: r.member }
}

/// The key under which a payout is filed.
pub open spec fn payout_key(r: PayoutRecord) -> MemberKey {
    MemberKey { group_id: r.group_id, member: r.member }
}

/// The key under which a vote is filed.
pub open spec fn vote_key(v: RefundVote) -> MemberKey {
    MemberKey { group_id: v.group_id, member: v.voter }
}

/// Recording a sound contribution keeps the store sound.
pub proof fn lemma_put_contribution(s: StoreView, r: ContributionRecord)
    requires
        wf(s),
        contribution_ok(s, contribution_key(r), r),
    ensures
        wf(s.put_contribution(r)),
{
    let t = s.put_contribution(r);
    lemma_carried_over(s, t);
    assert forall|k: ContributionKey| #[trigger]
        t.contributions.dom().contains(k) implies contribution_ok(t, k, t.contributions[k]) by {
        if k != contribution_key(r) {
            assert(contribution_ok(s, k, s.contributions[k]));
        }
    }
}

/// Recording sound statistics keeps the store sound.
pub proof fn lemma_put_penalty(s: StoreView, r: MemberPenaltyRecord)
    requires
        wf(s),
        penalty_ok(s, penalty_key(r), r),
    ensures
        wf(s.put_penalty(r)),
{
    let t = s.put_penalty(r);
    lemma_carried_over(s, t);
    assert forall|k: MemberKey| #[trigger] t.penalties.dom().contains(k) implies penalty_ok(
        t,
        k,
        t.penalties[k],
    ) by {
        if k != penalty_key(r) {
            assert(penalty_ok(s, k, s.penalties[k]));
        }
    }
}

/// Recording a sound payout keeps the store sound.
pub proof fn lemma_put_payout(s: StoreView, r: PayoutRecord)
    requires
        wf(s),
        payout_ok(s, payout_key(r), r),
    ensures
        wf(s.put_payout(r)),
{
    let t = s.put_payout(r);
    lemma_carried_over(s, t);
    assert forall|k: MemberKey| #[trigger] t.payouts.dom().contains(k) implies payout_ok(
        t,
        k,
        t.payouts[k],
    ) by {
        if k != payout_key(r) {
            assert(payout_ok(s, k, s.payouts[k]));
        }
        let i = choose|i: int| paid_position(s.group(k.group_id), i, k.member);
        assert(paid_position(t.group(k.group_id), i, k.member));
    }
}

/// Writing a pool that keeps its count of pending claims keeps the store sound.
pub proof fn lemma_put_pool(s: StoreView, token: Address, pool: InsurancePool)
    requires
        wf(s),
        pool.pending_claims_count == pool_pending(s, token),
    ensures
        wf(s.put_pool(token, pool)),
{
    let t = s.put_pool(token, pool);
    lemma_carried_over(s, t);
    assert forall|tok: Address| #[trigger] pending_claims(t, tok) == pool_pending(t, tok) by {
        assert(pending_claims(s, tok) == pool_pending(s, tok));
        lemma_pending_same_tokens(s, t, tok);
    }
}

/// Filing a pending claim under the next id, and counting it in the pool of
/// its group's token, keeps the store sound.
pub proof fn lemma_file_claim(s: StoreView, c: InsuranceClaim, pool: InsurancePool)
    requires
        wf(s),
        c.id == s.claims.len() + 1,
        s.has_group(c.group_id),
        c.status == ClaimStatus::Pending,
        pool.pending_claims_count == pool_pending(s, s.group(c.group_id).token_address) + 1,
    ensures
        wf(s.push_claim(c).put_pool(s.group(c.group_id).token_address, pool)),
{
    let token = s.group(c.group_id).token_address;
    let t = s.push_claim(c).put_pool(token, pool);
    let n = s.claims.len();
    lemma_carried_over(s, t);
    assert forall|tok: Address| #[trigger] pending_claims(t, tok) == pool_pending(t, tok) by {
        assert(pending_claims(s, tok) == pool_pending(s, tok));
        lemma_count_agree(
            n,
            |i: int| claim_pending_at(s, tok, i),
            |i: int| claim_pending_at(t, tok, i),
        );
        assert(claim_pending_at(t, tok, n as int) == (tok == token));
    }
}

/// A pending claim has a pool, and the pool counts it.
pub proof fn lemma_pending_claim_has_pool(s: StoreView, id: u64)
    requires
        wf(s),
        s.has_claim(id),
        s.claim(id).status == ClaimStatus::Pending,
    ensures
        s.has_group(s.claim(id).group_id),
        s.insurance_pools.dom().contains(s.group(s.claim(id).group_id).token_address),
        s.insurance_pools[s.group(s.claim(id).group_id).token_address].pending_claims_count >= 1,
{
    assert(s.claims[id - 1].id == id);
    let token = s.group(s.claim(id).group_id).token_address;
    assert(pending_claims(s, token) == pool_pending(s, token));
    lemma_count_positive(s.claims.len(), |i: int| claim_pending_at(s, token, i), id - 1);
}

/// Settling a pending claim, and taking it off the count of its pool, keeps the store sound.
pub proof fn lemma_settle_claim(s: StoreView, id: u64, c: InsuranceClaim, pool: InsurancePool)
    requires
        wf(s),
        s.has_claim(id),
        s.claim(id).status == ClaimStatus::Pending,
        c.id == id,
        c.group_id == s.claim(id).group_id,
        c.status != ClaimStatus::Pending,
        pool.pending_claims_count + 1 == pool_pending(
            s,
            s.group(s.claim(id).group_id).token_address,
        ),
    ensures
        wf(s.set_claim(id, c).put_pool(s.group(s.claim(id).group_id).token_address, pool)),
{
    assert(s.claims[id - 1].id == id);
    let token = s.group(s.claim(id).group_id).token_address;
    let t = s.set_claim(id, c).put_pool(token, pool);
    let n = s.claims.len();
    lemma_carried_over(s, t);
    assert forall|i: int| 0 <= i < t.claims.len() implies (#[trigger] t.claims[i]).id == i + 1
        && t.has_group(t.claims[i].group_id) by {
        assert(s.claims[i].id == i + 1);
    }
    assert forall|tok: Address| #[trigger] pending_claims(t, tok) == pool_pending(t, tok) by {
        assert(pending_claims(s, tok) == pool_pending(s, tok));
        lemma_count_flip(
            n,
            |i: int| claim_pending_at(s, tok, i),
            |i: int| claim_pending_at(t, tok, i),
            id - 1,
        );
        assert(!claim_pending_at(t, tok, id - 1));
        assert(claim_pending_at(s, tok, id - 1) == (tok == token));
    }
}

/// A group without a refund request has no votes, and a tally never exceeds the members.
pub proof fn lemma_tally_bounds(s: StoreView, id: u64, in_favor: bool)
    requires
        wf(s),
        s.has_group(id),
    ensures
        tally(s, id, in_favor) <= s.group(id).members.len() <= 100,
        !s.refund_requests.dom().contains(id) ==> tally(s, id, in_favor) == 0,
{
    assert(s.groups[id - 1].id == id);
    let n = s.group(id).members.len();
    lemma_count_bound(n, |i: int| voted_at(s, id, in_favor, i));
    if !s.refund_requests.dom().contains(id) {
        assert forall|i: int| 0 <= i < n implies !voted_at(s, id, in_favor, i) by {
            let k = MemberKey { group_id: id, member: s.group(id).members[i] };
            if s.refund_votes.dom().contains(k) {
                assert(vote_ok(s, k, s.refund_votes[k]));
            }
        }
        lemma_count_none(n, |i: int| voted_at(s, id, in_favor, i));
    }
}

/// Writing a sound refund request keeps the store sound.
pub proof fn lemma_put_refund_request(s: StoreView, r: RefundRequest)
    requires
        wf(s),
        refund_request_ok(s, r.group_id, r),
    ensures
        wf(s.put_refund_request(r)),
{
    let t = s.put_refund_request(r);
    lemma_carried_over(s, t);
    assert forall|id: u64| #[trigger]
        t.refund_requests.dom().contains(id) implies refund_request_ok(
        t,
        id,
        t.refund_requests[id],
    ) by {
        if id != r.group_id {
            assert(refund_request_ok(s, id, s.refund_requests[id]));
        }
        lemma_tally_same_group(s, t, id, true);
        lemma_tally_same_group(s, t, id, false);
    }
    assert forall|k: MemberKey| #[trigger] t.refund_votes.dom().contains(k) implies vote_ok(
        t,
        k,
        t.refund_votes[k],
    ) by {
        assert(vote_ok(s, k, s.refund_votes[k]));
    }
}

/// A first vote of a member moves the tally of its side by one and leaves the other.
pub proof fn lemma_vote_moves_tally(s: StoreView, v: RefundVote, in_favor: bool)
    requires
        wf(s),
        s.has_group(v.group_id),
        s.group(v.group_id).members.contains(v.voter),
        !s.has_voted(v.group_id, v.voter),
    ensures
        tally(s.put_refund_vote(v), v.group_id, in_favor) == tally(s, v.group_id, in_favor) + (
        if v.in_favor == in_favor {
            1nat
        } else {
            0nat
        }),
{
    let id = v.group_id;
    let t = s.put_refund_vote(v);
    let members = s.group(id).members;
    assert(s.groups[id - 1].id == id);
    let k = choose|k: int| 0 <= k < members.len() && members[k] == v.voter;
    assert forall|i: int| 0 <= i < members.len() && i != k implies voted_at(s, id, in_favor, i)
        == voted_at(t, id, in_favor, i) by {
        assert(members[i] != members[k]);
    }
    lemma_count_flip(
        members.len(),
        |i: int| voted_at(s, id, in_favor, i),
        |i: int| voted_at(t, id, in_favor, i),
        k,
    );
}

/// Recording a member's first vote, and counting it in the request, keeps the store sound.
pub proof fn lemma_cast_vote(s: StoreView, v: RefundVote, r: RefundRequest)
    requires
        wf(s),
        s.has_group(v.group_id),
        s.group(v.group_id).members.contains(v.voter),
        s.refund_requests.dom().contains(v.group_id),
        !s.has_voted(v.group_id, v.voter),
        r.votes_for == s.refund_requests[v.group_id].votes_for + (if v.in_favor {
            1int
        } else {
            0int
        }),
        r.votes_against == s.refund_requests[v.group_id].votes_against + (if v.in_favor {
            0int
        } else {
            1int
        }),
        r == (RefundRequest {
            votes_for: r.votes_for,
            votes_against: r.votes_against,
            ..s.refund_requests[v.group_id]
        }),
    ensures
        wf(s.put_refund_vote(v).put_refund_request(r)),
{
    let id = v.group_id;
    let t = s.put_refund_vote(v).put_refund_request(r);
    let mid = s.put_refund_vote(v);
    lemma_carried_over(s, t);
    assert(refund_request_ok(s, id, s.refund_requests[id]));
    assert forall|j: u64| #[trigger]
        t.refund_requests.dom().contains(j) implies refund_request_ok(
        t,
        j,
        t.refund_requests[j],
    ) by {
        if j == id {
            lemma_vote_moves_tally(s, v, true);
            lemma_vote_moves_tally(s, v, false);
            lemma_tally_same_group(mid, t, id, true);
            lemma_tally_same_group(mid, t, id, false);
        } else {
            assert(refund_request_ok(s, j, s.refund_requests[j]));
            lemma_count_agree(
                s.group(j).members.len(),
                |i: int| voted_at(s, j, true, i),
                |i: int| voted_at(t, j, true, i),
            );
            lemma_count_agree(
                s.group(j).members.len(),
                |i: int| voted_at(s, j, false, i),
                |i: int| voted_at(t, j, false, i),
            );
        }
    }
    assert forall|k: MemberKey| #[trigger] t.refund_votes.dom().contains(k) implies vote_ok(
        t,
        k,
        t.refund_votes[k],
    ) by {
        if k != vote_key(v) {
            assert(vote_ok(s, k, s.refund_votes[k]));
        }
    }
}

/// The votes that a sound request counts are those of distinct members: for
/// and against together they are no more than the members.
pub proof fn lemma_votes_within_members(s: StoreView, id: u64)
    requires
        wf(s),
        s.has_group(id),
        s.refund_requests.dom().contains(id),
    ensures
        s.refund_requests[id].votes_for + s.refund_requests[id].votes_against <= s.group(
            id,
        ).members.len(),
{
    assert(refund_request_ok(s, id, s.refund_requests[id]));
    lemma_tally_disjoint(s, id, s.group(id).members.len());
}

/// Nobody votes both ways, so the two tallies over the first `n` members sum to at most `n`.
proof fn lemma_tally_disjoint(s: StoreView, id: u64, n: nat)
    ensures
        count_upto(n, |i: int| voted_at(s, id, true, i)) + count_upto(
            n,
            |i: int| voted_at(s, id, false, i),
        ) <= n,
    decreases n,
{
    if n > 0 {
        lemma_tally_disjoint(s, id, (n - 1) as nat);
    }
}

} // verus!
