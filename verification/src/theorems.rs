//! What holds of the operations, whatever the state they start from.

use vstd::prelude::*;
use crate::arith::{lemma_product_bound, lemma_share_bound};
use crate::counting::{lemma_filter_keeps, lemma_sum_bound};
use crate::errors::AjoError;
use crate::insurance::{
    claim_filed, claim_processed, claim_token, file_claim_fits, file_claim_next, pool_processed,
    process_claim_fits, process_claim_next, process_claim_refusal,
};
use crate::penalty::{
    lemma_penalty_bound, penalty_cap, penalty_due, penalty_record_after, penalty_record_fits,
};
use crate::refund::{
    cancel_group_next, cancel_group_refusal, execute_refund_next, execute_refund_refusal,
    group_cancelled, refund_approved, refunds_due, request_opened, request_refund_refusal,
    request_resolved, request_voted, vote_refund_next, vote_refund_refusal,
};
use crate::security::{all_contributed, limits, valid_group_params};
use crate::storage::{ContributionKey, MemberKey, StoreView};
use crate::transitions::{
    contribute_fits, contribute_next, contribute_refusal, contribution_made, contributors,
    create_group_next, create_group_refusal, deposit_fits, deposited, execute_payout_next,
    execute_payout_refusal, group_joined, group_paid, join_group_next,
    join_group_refusal, new_group, payout_made, penalty_paid, penalty_pool, penalty_record,
    pool_or_empty, premium_due, receipt_made, set_insurance_config_next,
    set_insurance_config_refusal,
};
use crate::types::{
    Address, GroupState, GroupView, InsuranceConfig, InsurancePool, RefundReason, RefundVote,
    VOTING_PERIOD,
};
use crate::wellformed::{
    contribution_ok, lemma_cast_vote, lemma_file_claim, lemma_pending_claim_has_pool,
    lemma_push_group, lemma_put_contribution, lemma_put_payout, lemma_put_penalty, lemma_put_pool,
    lemma_put_refund_request, lemma_set_group, lemma_settle_claim, lemma_tally_bounds,
    lemma_tally_same_group, paid_position, penalty_ok, refund_request_ok, wf,
};

verus! {

/// With parameters within their bounds, and the contract not paused, a group
/// is created: nobody is paid yet, the cycle is the first, the group is
/// active, and its only member is the creator.
pub proof fn theorem_create_group_succeeds(
    s: StoreView,
    creator: Address,
    token: Address,
    contribution_amount: i128,
    cycle_duration: u64,
    max_members: u32,
    grace_period: u64,
    penalty_rate: u32,
    now: u64,
)
    requires
        valid_group_params(contribution_amount, cycle_duration, max_members),
        !s.paused,
        s.groups.len() < u64::MAX,
    ensures
        create_group_refusal(s, contribution_amount, cycle_duration, max_members) is None,
        ({
            let t = create_group_next(
                s,
                creator,
                token,
                contribution_amount,
                cycle_duration,
                max_members,
                grace_period,
                penalty_rate,
                now,
            );
            let id = (s.groups.len() + 1) as u64;
            &&& t.has_group(id)
            &&& t.group(id).payout_index == 0
            &&& t.group(id).current_cycle == 1
            &&& t.group(id).state == GroupState::Active
            &&& t.group(id).members == seq![creator]
        }),
{
}

/// In a sound store the payout index of a group never passes its members,
/// and the group is complete exactly when the index has reached them.
pub proof fn theorem_payout_index_bounded(s: StoreView, id: u64)
    requires
        wf(s),
        s.has_group(id),
    ensures
        s.group(id).payout_index <= s.group(id).members.len(),
        s.group(id).state == GroupState::Complete <==> s.group(id).payout_index == s.group(
            id,
        ).members.len(),
{
    assert(s.groups[id - 1].id == id);
}

/// After a contribution, a second one by the same member in the same cycle
/// is refused as `AlreadyContributed`, at whatever time it comes, and the
/// record on file is the one that the first contribution made.
pub proof fn theorem_contribute_once(s: StoreView, member: Address, id: u64, now: u64, later: u64)
    requires
        wf(s),
        contribute_refusal(s, member, id, now) is None,
    ensures
        ({
            let t = contribute_next(s, member, id, now);
            &&& contribute_refusal(t, member, id, later) == Some(AjoError::AlreadyContributed)
            &&& t.has_contributed(id, s.group(id).current_cycle, member)
            &&& t.contribution(id, s.group(id).current_cycle, member) == contribution_made(
                s.group(id),
                member,
                now,
            )
        }),
{
    assert(s.groups[id - 1].id == id);
}

/// The penalties of a cycle of a group of a sound store fit well within 128 bits.
pub proof fn lemma_penalty_pool_bound(s: StoreView, id: u64)
    requires
        wf(s),
        s.has_group(id),
    ensures
        0 <= penalty_pool(s, id, s.group(id).current_cycle, s.group(id).members) <= s.group(
            id,
        ).members.len() * penalty_cap(),
        s.group(id).members.len() * penalty_cap() <= 100 * penalty_cap(),
{
    let g = s.group(id);
    assert(s.groups[id - 1].id == id);
    let f = |i: int| penalty_paid(s, id, g.current_cycle, g.members[i]);
    assert forall|j: int| 0 <= j < g.members.len() implies 0 <= #[trigger] f(j)
        <= penalty_cap() by {
        let m = g.members[j];
        if s.has_contributed(id, g.current_cycle, m) {
            let k = ContributionKey { group_id: id, cycle: g.current_cycle, member: m };
            assert(contribution_ok(s, k, s.contributions[k]));
            lemma_penalty_bound(g, s.contributions[k].is_late);
        }
    }
    lemma_sum_bound(g.members.len(), f, penalty_cap());
    assert(g.members.len() * penalty_cap() <= 100 * penalty_cap()) by (nonlinear_arith)
        requires
            0 <= g.members.len() <= 100,
            penalty_cap() >= 0,
    ;
}

/// The payout of an active group is refused as `IncompleteContributions`
/// whenever a member has not contributed in the current cycle. Otherwise it
/// is made, and pays the member whose turn it is the fixed amount from each
/// member and the penalties of the cycle.
pub proof fn theorem_payout_needs_all_contributions(s: StoreView, id: u64, now: u64)
    requires
        wf(s),
        !s.paused,
        s.has_group(id),
        s.group(id).state == GroupState::Active,
    ensures
        !all_contributed(s, id, s.group(id).current_cycle, s.group(id).members)
            ==> execute_payout_refusal(s, id) == Some(AjoError::IncompleteContributions),
        all_contributed(s, id, s.group(id).current_cycle, s.group(id).members) ==> {
            let g = s.group(id);
            let r = payout_made(s, g, now);
            &&& execute_payout_refusal(s, id) is None
            &&& r.member == g.members[g.payout_index as int]
            &&& r.amount == g.contribution_amount * g.members.len() + penalty_pool(
                s,
                id,
                g.current_cycle,
                g.members,
            )
        },
{
    let g = s.group(id);
    assert(s.groups[id - 1].id == id);
    lemma_penalty_pool_bound(s, id);
    assert(0 <= g.contribution_amount * g.members.len() <= 100 * limits::MAX_CONTRIBUTION)
        by (nonlinear_arith)
        requires
            0 <= g.contribution_amount <= limits::MAX_CONTRIBUTION,
            0 <= g.members.len() <= 100,
    ;
}

/// Joining an active group is refused as `AlreadyMember` for an address that
/// is a member, and as `MaxMembersExceeded` for any other address once the
/// group has as many members as it allows.
pub proof fn theorem_join_refusals(s: StoreView, member: Address, id: u64)
    requires
        wf(s),
        !s.paused,
        s.has_group(id),
        s.group(id).state == GroupState::Active,
    ensures
        s.group(id).members.contains(member) ==> join_group_refusal(s, member, id) == Some(
            AjoError::AlreadyMember,
        ),
        !s.group(id).members.contains(member) && s.group(id).members.len() == s.group(
            id,
        ).max_members ==> join_group_refusal(s, member, id) == Some(AjoError::MaxMembersExceeded),
        !s.group(id).members.contains(member) && s.group(id).members.len() < s.group(
            id,
        ).max_members ==> join_group_refusal(s, member, id) is None,
{
}

/// When the creator cancels a group, every contribution on record for the
/// current cycle is owed back to the member who made it, in its amount;
/// nothing else is owed, and nobody is owed twice. The group is then
/// cancelled, and the store is still sound.
pub proof fn theorem_cancel_refunds_contributions(s: StoreView, creator: Address, id: u64, now: u64)
    requires
        wf(s),
        cancel_group_refusal(s, creator, id) is None,
    ensures
        ({
            let g = s.group(id);
            let refunds = refunds_due(s, g, now, RefundReason::CreatorCancellation);
            &&& forall|m: Address|
                s.has_contributed(id, g.current_cycle, m) ==> exists|i: int|
                    0 <= i < refunds.len() && (#[trigger] refunds[i]).member == m && refunds[i].amount
                        == s.contribution(id, g.current_cycle, m).amount
            &&& forall|i: int|
                0 <= i < refunds.len() ==> {
                    &&& (#[trigger] refunds[i]).group_id == id
                    &&& s.has_contributed(id, g.current_cycle, refunds[i].member)
                    &&& refunds[i].amount == s.contribution(
                        id,
                        g.current_cycle,
                        refunds[i].member,
                    ).amount
                    &&& refunds[i].amount == g.contribution_amount
                }
            &&& forall|i: int, j: int|
                0 <= i < j < refunds.len() ==> (#[trigger] refunds[i]).member != (
                #[trigger] refunds[j]).member
            &&& cancel_group_next(s, id).group(id).state == GroupState::Cancelled
            &&& wf(cancel_group_next(s, id))
        }),
{
    let g = s.group(id);
    assert(s.groups[id - 1].id == id);
    let paid = |m: Address| s.has_contributed(g.id, g.current_cycle, m);
    let refunds = refunds_due(s, g, now, RefundReason::CreatorCancellation);
    let who = contributors(s, g);
    lemma_filter_keeps(g.members, paid);
    assert forall|m: Address| s.has_contributed(id, g.current_cycle, m) implies exists|i: int|
        0 <= i < refunds.len() && (#[trigger] refunds[i]).member == m && refunds[i].amount
            == s.contribution(id, g.current_cycle, m).amount by {
        let k = ContributionKey { group_id: id, cycle: g.current_cycle, member: m };
        assert(contribution_ok(s, k, s.contributions[k]));
        assert(who.contains(m));
        let i = choose|i: int| 0 <= i < who.len() && who[i] == m;
        assert(refunds[i].member == m);
    }
    assert forall|i: int| 0 <= i < refunds.len() implies {
        &&& (#[trigger] refunds[i]).group_id == id
        &&& s.has_contributed(id, g.current_cycle, refunds[i].member)
        &&& refunds[i].amount == s.contribution(id, g.current_cycle, refunds[i].member).amount
        &&& refunds[i].amount == g.contribution_amount
    } by {
        assert(who.contains(who[i]));
        let k = ContributionKey { group_id: id, cycle: g.current_cycle, member: who[i] };
        assert(contribution_ok(s, k, s.contributions[k]));
    }
    assert forall|i: int, j: int| 0 <= i < j < refunds.len() implies (#[trigger] refunds[i]).member
        != (#[trigger] refunds[j]).member by {
        assert(who[i] != who[j]);
    }
    assert(g.members.subrange(0, g.members.len() as int) =~= g.members);
    lemma_set_group(s, id, group_cancelled(g));
}

/// A group that is cancelled or complete takes no further change: every
/// operation that would change it is refused, whoever asks and whenever.
pub proof fn theorem_closed_group_is_final(
    s: StoreView,
    id: u64,
    who: Address,
    now: u64,
)
    requires
        s.has_group(id),
        s.group(id).state != GroupState::Active,
    ensures
        join_group_refusal(s, who, id) is Some,
        contribute_refusal(s, who, id, now) is Some,
        execute_payout_refusal(s, id) is Some,
        set_insurance_config_refusal(s, who, id) is Some,
        cancel_group_refusal(s, who, id) is Some,
        request_refund_refusal(s, who, id) is Some,
        vote_refund_refusal(s, who, id, now) is Some,
        execute_refund_refusal(s, id, now) is Some,
{
}

/// Groups are isolated: what is done to one group leaves every other group as it was.
pub proof fn theorem_groups_isolated(s: StoreView, id: u64, other: u64, who: Address, now: u64)
    requires
        wf(s),
        s.has_group(id),
        s.has_group(other),
        other != id,
    ensures
        join_group_next(s, who, id).group(other) == s.group(other),
        contribute_next(s, who, id, now).group(other) == s.group(other),
        execute_payout_next(s, id, now).group(other) == s.group(other),
        cancel_group_next(s, id).group(other) == s.group(other),
        forall|cycle: u32, m: Address|
            contribute_next(s, who, id, now).has_contributed(other, cycle, m)
                == s.has_contributed(other, cycle, m),
        forall|m: Address|
            execute_payout_next(s, id, now).has_received_payout(other, m) == s.has_received_payout(
                other,
                m,
            ),
{
    assert(s.groups[id - 1].id == id);
}

/// Creating a group keeps the store sound.
pub proof fn theorem_create_group_keeps_sound(
    s: StoreView,
    creator: Address,
    token: Address,
    contribution_amount: i128,
    cycle_duration: u64,
    max_members: u32,
    grace_period: u64,
    penalty_rate: u32,
    now: u64,
)
    requires
        wf(s),
        create_group_refusal(s, contribution_amount, cycle_duration, max_members) is None,
        s.groups.len() < u64::MAX,
    ensures
        wf(
            create_group_next(
                s,
                creator,
                token,
                contribution_amount,
                cycle_duration,
                max_members,
                grace_period,
                penalty_rate,
                now,
            ),
        ),
{
    let g = new_group(
        (s.groups.len() + 1) as u64,
        creator,
        token,
        contribution_amount,
        cycle_duration,
        max_members,
        grace_period,
        penalty_rate,
        now,
    );
    lemma_push_group(s, g);
}

/// A group of a sound store is sound and sits under its own id.
pub proof fn lemma_group_in_place(s: StoreView, id: u64)
    requires
        wf(s),
        s.has_group(id),
    ensures
        s.group(id).id == id,
        crate::wellformed::group_wf(s.group(id)),
        s.group(id).members.subrange(0, s.group(id).members.len() as int) == s.group(id).members,
{
    assert(s.groups[id - 1].id == id);
    let m = s.group(id).members;
    assert(m.subrange(0, m.len() as int) =~= m);
}

/// Joining a group keeps the store sound.
pub proof fn theorem_join_group_keeps_sound(s: StoreView, member: Address, id: u64)
    requires
        wf(s),
        join_group_refusal(s, member, id) is None,
    ensures
        wf(join_group_next(s, member, id)),
{
    lemma_group_in_place(s, id);
    let g = s.group(id);
    let h = group_joined(g, member);
    assert(h.members.subrange(0, g.members.len() as int) =~= g.members);
    lemma_set_group(s, id, h);
}

/// What a contribution rests on: the penalty and the premium are within
/// bounds, the member's statistics can count one more contribution, and the
/// store is sound after each of the three writes.
pub proof fn lemma_contribute_steps(s: StoreView, member: Address, id: u64, now: u64)
    requires
        wf(s),
        contribute_refusal(s, member, id, now) is None,
        contribute_fits(s, id),
    ensures
        ({
            let g = s.group(id);
            let r = contribution_made(g, member, now);
            let prev = penalty_record(s, id, member);
            let stats = penalty_record_after(prev, id, member, r.is_late, r.penalty_amount);
            &&& g.id == id
            &&& 0 <= g.contribution_amount * g.penalty_rate <= penalty_cap()
            &&& 0 <= g.contribution_amount * g.insurance_config.rate_bps <= penalty_cap()
            &&& 0 <= r.penalty_amount == penalty_due(g, r.is_late) <= penalty_cap()
            &&& 0 <= premium_due(g) <= penalty_cap()
            &&& receipt_made(g, member, now).amount_due == g.contribution_amount + r.penalty_amount
            &&& receipt_made(g, member, now).credited == g.contribution_amount - premium_due(g)
            &&& penalty_record_fits(prev, r.penalty_amount)
            &&& wf(s.put_contribution(r))
            &&& wf(s.put_contribution(r).put_penalty(stats))
            &&& wf(contribute_next(s, member, id, now))
        }),
{
    lemma_group_in_place(s, id);
    let g = s.group(id);
    let r = contribution_made(g, member, now);
    lemma_penalty_bound(g, r.is_late);
    lemma_share_bound(g.contribution_amount, g.insurance_config.rate_bps, 10000);
    lemma_product_bound(
        g.contribution_amount,
        g.insurance_config.rate_bps,
        limits::MAX_CONTRIBUTION as int,
    );
    lemma_put_contribution(s, r);
    let s1 = s.put_contribution(r);
    let prev = penalty_record(s, id, member);
    let stats = penalty_record_after(prev, id, member, r.is_late, r.penalty_amount);
    let k = MemberKey { group_id: id, member };
    let before: int = if prev is Some {
        prev->0.late_count as int
    } else {
        0
    };
    if prev is Some {
        assert(penalty_ok(s, k, s.penalties[k]));
    }
    assert(before * penalty_cap() <= 100 * penalty_cap()) by (nonlinear_arith)
        requires
            0 <= before <= 100,
            penalty_cap() >= 0,
    ;
    assert((before + 1) * penalty_cap() == before * penalty_cap() + penalty_cap())
        by (nonlinear_arith);
    assert(s1.has_contributed(id, g.current_cycle, member));
    assert(penalty_ok(s1, k, stats));
    lemma_put_penalty(s1, stats);
    if g.insurance_config.is_enabled {
        let s2 = s1.put_penalty(stats);
        let p = pool_or_empty(s2, g.token_address);
        lemma_put_pool(
            s2,
            g.token_address,
            InsurancePool { balance: (p.balance + premium_due(g) as i128) as i128, ..p },
        );
    }
}

/// A contribution keeps the store sound.
pub proof fn theorem_contribute_keeps_sound(s: StoreView, member: Address, id: u64, now: u64)
    requires
        wf(s),
        contribute_refusal(s, member, id, now) is None,
        contribute_fits(s, id),
    ensures
        wf(contribute_next(s, member, id, now)),
{
    lemma_contribute_steps(s, member, id, now);
}

/// A payout keeps the store sound.
pub proof fn theorem_execute_payout_keeps_sound(s: StoreView, id: u64, now: u64)
    requires
        wf(s),
        execute_payout_refusal(s, id) is None,
    ensures
        wf(execute_payout_next(s, id, now)),
{
    lemma_group_in_place(s, id);
    let g = s.group(id);
    let h = group_paid(g, now);
    lemma_set_group(s, id, h);
    let s1 = s.set_group(id, h);
    let r = payout_made(s, g, now);
    assert(paid_position(s1.group(id), g.payout_index as int, r.member));
    lemma_put_payout(s1, r);
}

/// Setting the insurance terms of a group keeps the store sound.
pub proof fn theorem_set_insurance_config_keeps_sound(
    s: StoreView,
    caller: Address,
    id: u64,
    config: InsuranceConfig,
)
    requires
        wf(s),
        set_insurance_config_refusal(s, caller, id) is None,
    ensures
        wf(set_insurance_config_next(s, id, config)),
{
    lemma_group_in_place(s, id);
    lemma_set_group(s, id, GroupView { insurance_config: config, ..s.group(id) });
}

/// Opening a refund request keeps the store sound.
pub proof fn theorem_request_refund_keeps_sound(s: StoreView, requester: Address, id: u64, now: u64)
    requires
        wf(s),
        request_refund_refusal(s, requester, id) is None,
        now + VOTING_PERIOD <= u64::MAX,
    ensures
        wf(s.put_refund_request(request_opened(requester, id, now))),
{
    lemma_tally_bounds(s, id, true);
    lemma_tally_bounds(s, id, false);
    lemma_put_refund_request(s, request_opened(requester, id, now));
}

/// A vote keeps the store sound, and the request counts it: one more vote on
/// its side, as many as before on the other.
pub proof fn theorem_vote_refund_keeps_sound(
    s: StoreView,
    voter: Address,
    id: u64,
    in_favor: bool,
    now: u64,
)
    requires
        wf(s),
        vote_refund_refusal(s, voter, id, now) is None,
    ensures
        wf(vote_refund_next(s, voter, id, in_favor, now)),
        ({
            let before = s.refund_requests[id];
            let after = vote_refund_next(s, voter, id, in_favor, now).refund_requests[id];
            &&& after.votes_for == before.votes_for + (if in_favor {
                1int
            } else {
                0int
            })
            &&& after.votes_against == before.votes_against + (if in_favor {
                0int
            } else {
                1int
            })
            &&& after.votes_for + after.votes_against <= s.group(id).members.len()
        }),
{
    lemma_tally_bounds(s, id, true);
    lemma_tally_bounds(s, id, false);
    assert(refund_request_ok(s, id, s.refund_requests[id]));
    let v = RefundVote { group_id: id, voter, in_favor, timestamp: now };
    let r = request_voted(s.refund_requests[id], in_favor);
    lemma_cast_vote(s, v, r);
    let t = vote_refund_next(s, voter, id, in_favor, now);
    assert(t.refund_requests.dom().contains(id));
    assert(t.group(id) == s.group(id));
    crate::wellformed::lemma_votes_within_members(t, id);
}

/// Resolving a refund request keeps the store sound; the group is cancelled
/// exactly if the votes cast approve the refund.
pub proof fn theorem_execute_refund_keeps_sound(s: StoreView, id: u64, now: u64)
    requires
        wf(s),
        execute_refund_refusal(s, id, now) is None,
    ensures
        wf(execute_refund_next(s, id)),
        execute_refund_next(s, id).group(id).state == (if refund_approved(s, id) {
            GroupState::Cancelled
        } else {
            GroupState::Active
        }),
        execute_refund_next(s, id).refund_requests[id].executed,
        execute_refund_next(s, id).refund_requests[id].approved == refund_approved(s, id),
{
    lemma_group_in_place(s, id);
    let g = s.group(id);
    assert(refund_request_ok(s, id, s.refund_requests[id]));
    let resolved = request_resolved(s.refund_requests[id], refund_approved(s, id));
    if refund_approved(s, id) {
        lemma_set_group(s, id, group_cancelled(g));
        let s1 = s.set_group(id, group_cancelled(g));
        lemma_tally_same_group(s, s1, id, true);
        lemma_tally_same_group(s, s1, id, false);
        lemma_put_refund_request(s1, resolved);
    } else {
        lemma_put_refund_request(s, resolved);
    }
}

/// A deposit keeps the store sound.
pub proof fn theorem_deposit_keeps_sound(s: StoreView, token: Address, amount: i128)
    requires
        wf(s),
        deposit_fits(s, token, amount),
    ensures
        wf(deposited(s, token, amount)),
{
    let p = pool_or_empty(s, token);
    lemma_put_pool(s, token, InsurancePool { balance: (p.balance + amount) as i128, ..p });
}

/// Filing a claim keeps the store sound.
pub proof fn theorem_file_claim_keeps_sound(
    s: StoreView,
    group_id: u64,
    cycle: u32,
    claimant: Address,
    defaulter: Address,
    amount: i128,
    now: u64,
)
    requires
        wf(s),
        s.has_group(group_id),
        file_claim_fits(s, group_id),
    ensures
        wf(file_claim_next(s, claim_filed(s, group_id, cycle, claimant, defaulter, amount, now))),
{
    let c = claim_filed(s, group_id, cycle, claimant, defaulter, amount, now);
    let p = pool_or_empty(s, s.group(group_id).token_address);
    lemma_file_claim(
        s,
        c,
        InsurancePool { pending_claims_count: (p.pending_claims_count + 1) as u32, ..p },
    );
}

/// Processing a claim keeps the store sound. A claim is processed once: it
/// leaves `Pending` for `Paid` or `Rejected`, and a claim that has left
/// `Pending` is refused.
pub proof fn theorem_process_claim_keeps_sound(s: StoreView, claim_id: u64, approved: bool)
    requires
        wf(s),
        process_claim_refusal(s, claim_id, approved) is None,
        process_claim_fits(s, claim_id, approved),
    ensures
        wf(process_claim_next(s, claim_id, approved)),
        forall|again: bool|
            process_claim_refusal(process_claim_next(s, claim_id, approved), claim_id, again)
                == Some(AjoError::ClaimAlreadyProcessed),
{
    lemma_pending_claim_has_pool(s, claim_id);
    let c = s.claim(claim_id);
    let token = claim_token(s, claim_id);
    lemma_settle_claim(
        s,
        claim_id,
        claim_processed(c, approved),
        pool_processed(s.insurance_pools[token], c.amount, approved),
    );
}

/// A member is paid once in a rotation: the member whose turn it is has no
/// payout on record before the payout, and has one after it.
pub proof fn theorem_paid_once(s: StoreView, id: u64, now: u64)
    requires
        wf(s),
        execute_payout_refusal(s, id) is None,
    ensures
        !s.has_received_payout(id, payout_made(s, s.group(id), now).member),
        execute_payout_next(s, id, now).has_received_payout(
            id,
            payout_made(s, s.group(id), now).member,
        ),
        execute_payout_next(s, id, now).group(id).payout_index == s.group(id).payout_index + 1,
{
    lemma_group_in_place(s, id);
    let g = s.group(id);
    let m = g.members[g.payout_index as int];
    let k = MemberKey { group_id: id, member: m };
    if s.payouts.dom().contains(k) {
        assert(crate::wellformed::payout_ok(s, k, s.payouts[k]));
        let i = choose|i: int| paid_position(g, i, m);
        assert(g.members[i] == g.members[g.payout_index as int]);
    }
}

/// A member votes once: after a vote, another by the same member is refused, whichever way it goes.
pub proof fn theorem_vote_once(
    s: StoreView,
    voter: Address,
    id: u64,
    in_favor: bool,
    now: u64,
    later: u64,
)
    requires
        wf(s),
        vote_refund_refusal(s, voter, id, now) is None,
    ensures
        vote_refund_refusal(vote_refund_next(s, voter, id, in_favor, now), voter, id, later)
            is Some,
        later <= s.refund_requests[id].voting_deadline ==> vote_refund_refusal(
            vote_refund_next(s, voter, id, in_favor, now),
            voter,
            id,
            later,
        ) == Some(AjoError::AlreadyVoted),
        vote_refund_next(s, voter, id, in_favor, now).refund_votes[MemberKey {
            group_id: id,
            member: voter,
        }].in_favor == in_favor,
{
}

/// A resolved request stays as it is: no further vote is taken, it is not
/// resolved again, and no other request takes its place.
pub proof fn theorem_resolved_request_is_final(s: StoreView, id: u64, who: Address, now: u64)
    requires
        s.has_group(id),
        s.refund_requests.dom().contains(id),
        s.refund_requests[id].executed,
    ensures
        vote_refund_refusal(s, who, id, now) is Some,
        execute_refund_refusal(s, id, now) is Some,
        request_refund_refusal(s, who, id) is Some,
{
}

} // verus!
