//! Deciding at run time whether a store is sound.
//!
//! A store that the operations of this library built is sound. One that came
//! from elsewhere, read back from durable storage for instance, can be put
//! to the test here before an operation is run on it.

use vstd::prelude::*;
use crate::counting::{count_upto, lemma_count_none, lemma_count_positive};
use crate::penalty::{calculate_penalty, lemma_penalty_bound, penalty_cap, reliability_score};
use crate::security::{is_member, limits};
use crate::storage::{ContributionKey, MemberKey, Store, StoreView};
use crate::types::{
    Address, ClaimStatus, ContributionRecord, Group, GroupState, MemberPenaltyRecord, PayoutRecord,
    RefundRequest, RefundVote, VOTING_PERIOD,
};
use crate::wellformed::{
    claim_pending_at, contribution_ok, contributions_wf, group_wf, groups_wf, insurance_wf,
    paid_position, payout_ok, payouts_wf, penalties_wf, penalty_ok, pending_claims, pool_pending,
    refund_request_ok, refunds_wf, tally, vote_ok, voted_at, wf,
};

verus! {

/// Whether no address occurs twice in `v`.
pub fn all_distinct(v: &Vec<Address>) -> (r: bool)
    ensures
        r == v@.no_duplicates(),
{
    let mut i: usize = 0;
    while i < v.len()
        invariant
            0 <= i <= v.len(),
            forall|a: int, b: int| 0 <= a < i && 0 <= b < i && a != b ==> v@[a] != v@[b],
        decreases v.len() - i,
    {
        let mut j: usize = 0;
        while j < i
            invariant
                0 <= j <= i < v.len(),
                forall|b: int| 0 <= b < j ==> v@[b] != v@[i as int],
            decreases i - j,
        {
            if v[j] == v[i] {
                return false;
            }
            j += 1;
        }
        i += 1;
    }
    true
}

/// Whether the group is sound on its own.
pub fn group_is_sound(g: &Group) -> (r: bool)
    ensures
        r == group_wf(g@),
{
    let n = g.members.len();
    let complete = match g.state {
        GroupState::Complete => true,
        _ => false,
    };
    if !(limits::MIN_CONTRIBUTION <= g.contribution_amount && g.contribution_amount
        <= limits::MAX_CONTRIBUTION) {
        return false;
    }
    if !(limits::MIN_CYCLE_DURATION <= g.cycle_duration && g.cycle_duration
        <= limits::MAX_CYCLE_DURATION) {
        return false;
    }
    if !(limits::MIN_MEMBERS <= g.max_members && g.max_members <= limits::MAX_MEMBERS) {
        return false;
    }
    if !(1 <= n && n <= g.max_members as usize) {
        return false;
    }
    if !all_distinct(&g.members) {
        return false;
    }
    if g.members[0] != g.creator {
        return false;
    }
    if g.payout_index as usize > n {
        return false;
    }
    if complete != (g.payout_index as usize == n) {
        return false;
    }
    if g.is_complete != complete {
        return false;
    }
    if complete {
        g.current_cycle == g.payout_index
    } else {
        g.current_cycle as u64 == g.payout_index as u64 + 1
    }
}

/// Whether every group is sound and sits at the position that its id names.
pub fn groups_sound(store: &Store) -> (r: bool)
    ensures
        r == groups_wf(store@),
{
    let mut i: usize = 0;
    while i < store.groups.len()
        invariant
            0 <= i <= store.groups.len(),
            forall|j: int|
                0 <= j < i ==> (#[trigger] store@.groups[j]).id == j + 1 && group_wf(
                    store@.groups[j],
                ),
        decreases store.groups.len() - i,
    {
        let g = &store.groups[i];
        assert(g@ == store@.groups[i as int]);
        if g.id as u128 != i as u128 + 1 {
            return false;
        }
        if !group_is_sound(g) {
            return false;
        }
        i += 1;
    }
    true
}

/// Whether the contribution `r`, filed under `k`, is sound.
pub fn contribution_is_sound(store: &Store, k: &ContributionKey, r: &ContributionRecord) -> (ok:
    bool)
    requires
        groups_wf(store@),
    ensures
        ok == contribution_ok(store@, *k, *r),
{
    if r.group_id != k.group_id || r.cycle != k.cycle || r.member != k.member {
        return false;
    }
    let g = match store.get_group(k.group_id) {
        Some(g) => g,
        None => {
            return false;
        },
    };
    proof {
        assert(store@.groups[k.group_id - 1].id == k.group_id);
        lemma_penalty_bound(g@, r.is_late);
    }
    if !is_member(&g.members, &k.member) {
        return false;
    }
    if !(1 <= k.cycle && k.cycle <= g.current_cycle) {
        return false;
    }
    if r.amount != g.contribution_amount {
        return false;
    }
    let due: i128 = if r.is_late {
        calculate_penalty(g.contribution_amount, g.penalty_rate)
    } else {
        0
    };
    r.penalty_amount == due
}

/// Whether every contribution on file is sound.
pub fn contributions_sound(store: &Store) -> (r: bool)
    requires
        store.contributions.wf(),
        groups_wf(store@),
    ensures
        r == contributions_wf(store@),
{
    let table = &store.contributions;
    proof {
        table.lemma_entries();
    }
    let mut i: usize = 0;
    while i < table.keys.len()
        invariant
            table == &store.contributions,
            table.wf(),
            groups_wf(store@),
            0 <= i <= table.keys.len(),
            forall|j: int|
                0 <= j < i ==> contribution_ok(store@, #[trigger] table.keys[j], table.values[j]),
        decreases table.keys.len() - i,
    {
        if !contribution_is_sound(store, &table.keys[i], &table.values[i]) {
            proof {
                table.lemma_entries();
                assert(store@.contributions.dom().contains(table.keys[i as int]));
            }
            return false;
        }
        i += 1;
    }
    proof {
        table.lemma_entries();
        assert forall|k: ContributionKey| #[trigger]
            store@.contributions.dom().contains(k) implies contribution_ok(
            store@,
            k,
            store@.contributions[k],
        ) by {
            let j = table.position(k);
            assert(contribution_ok(store@, table.keys[j], table.values[j]));
        }
    }
    true
}

/// Whether the payout `r`, filed under `k`, is sound.
pub fn payout_is_sound(store: &Store, k: &MemberKey, r: &PayoutRecord) -> (ok: bool)
    requires
        groups_wf(store@),
    ensures
        ok == payout_ok(store@, *k, *r),
{
    if r.group_id != k.group_id || r.member != k.member {
        return false;
    }
    let g = match store.get_group(k.group_id) {
        Some(g) => g,
        None => {
            return false;
        },
    };
    proof {
        assert(store@.groups[k.group_id - 1].id == k.group_id);
    }
    let mut i: usize = 0;
    while i < g.payout_index as usize
        invariant
            0 <= i <= g.payout_index <= g.members.len(),
            r.group_id == k.group_id,
            r.member == k.member,
            store@.find_group(k.group_id) == Some(g@),
            forall|j: int| 0 <= j < i ==> !paid_position(g@, j, k.member),
        decreases g.payout_index - i,
    {
        if g.members[i] == k.member {
            assert(paid_position(g@, i as int, k.member));
            return true;
        }
        i += 1;
    }
    false
}

/// Whether every payout on file is sound.
pub fn payouts_sound(store: &Store) -> (r: bool)
    requires
        store.payouts.wf(),
        groups_wf(store@),
    ensures
        r == payouts_wf(store@),
{
    let table = &store.payouts;
    proof {
        table.lemma_entries();
    }
    let mut i: usize = 0;
    while i < table.keys.len()
        invariant
            table == &store.payouts,
            table.wf(),
            groups_wf(store@),
            0 <= i <= table.keys.len(),
            forall|j: int|
                0 <= j < i ==> payout_ok(store@, #[trigger] table.keys[j], table.values[j]),
        decreases table.keys.len() - i,
    {
        if !payout_is_sound(store, &table.keys[i], &table.values[i]) {
            proof {
                table.lemma_entries();
                assert(store@.payouts.dom().contains(table.keys[i as int]));
            }
            return false;
        }
        i += 1;
    }
    proof {
        table.lemma_entries();
        assert forall|k: MemberKey| #[trigger] store@.payouts.dom().contains(k) implies payout_ok(
            store@,
            k,
            store@.payouts[k],
        ) by {
            let j = table.position(k);
            assert(payout_ok(store@, table.keys[j], table.values[j]));
        }
    }
    true
}

/// Whether the statistics `r`, filed under `k`, are sound.
pub fn penalty_is_sound(store: &Store, k: &MemberKey, r: &MemberPenaltyRecord) -> (ok: bool)
    requires
        store.inv(),
        groups_wf(store@),
    ensures
        ok == penalty_ok(store@, *k, *r),
{
    if r.group_id != k.group_id || r.member != k.member {
        return false;
    }
    let g = match store.get_group(k.group_id) {
        Some(g) => g,
        None => {
            return false;
        },
    };
    proof {
        assert(store@.groups[k.group_id - 1].id == k.group_id);
    }
    if !is_member(&g.members, &k.member) {
        return false;
    }
    let open: u64 = if store.has_contributed(k.group_id, g.current_cycle, &k.member) {
        0
    } else {
        1
    };
    if r.late_count as u64 + r.on_time_count as u64 + open > g.current_cycle as u64 {
        return false;
    }
    let cap: i128 = limits::MAX_CONTRIBUTION * 0x1_0000_0000;
    assert(cap == penalty_cap());
    assert(r.late_count * cap <= 101 * cap) by (nonlinear_arith)
        requires
            0 <= r.late_count <= 101,
            cap >= 0,
    ;
    if !(0 <= r.total_penalties && r.total_penalties <= r.late_count as i128 * cap) {
        return false;
    }
    r.reliability_score == reliability_score(r.on_time_count, r.late_count)
}

/// Whether the statistics on file are all sound.
pub fn penalties_sound(store: &Store) -> (r: bool)
    requires
        store.inv(),
        groups_wf(store@),
    ensures
        r == penalties_wf(store@),
{
    let table = &store.penalties;
    proof {
        table.lemma_entries();
    }
    let mut i: usize = 0;
    while i < table.keys.len()
        invariant
            table == &store.penalties,
            store.inv(),
            groups_wf(store@),
            0 <= i <= table.keys.len(),
            forall|j: int|
                0 <= j < i ==> penalty_ok(store@, #[trigger] table.keys[j], table.values[j]),
        decreases table.keys.len() - i,
    {
        if !penalty_is_sound(store, &table.keys[i], &table.values[i]) {
            proof {
                table.lemma_entries();
                assert(store@.penalties.dom().contains(table.keys[i as int]));
            }
            return false;
        }
        i += 1;
    }
    proof {
        table.lemma_entries();
        assert forall|k: MemberKey| #[trigger]
            store@.penalties.dom().contains(k) implies penalty_ok(store@, k, store@.penalties[k]) by {
            let j = table.position(k);
            assert(penalty_ok(store@, table.keys[j], table.values[j]));
        }
    }
    true
}

/// Every claim sits at the position that its id names and belongs to an existing group.
pub open spec fn claims_filed(s: StoreView) -> bool {
    forall|i: int|
        0 <= i < s.claims.len() ==> (#[trigger] s.claims[i]).id == i + 1 && s.has_group(
            s.claims[i].group_id,
        )
}

/// Whether every claim sits at the position that its id names and belongs to an existing group.
pub fn claims_sound(store: &Store) -> (r: bool)
    ensures
        r == claims_filed(store@),
{
    let mut i: usize = 0;
    while i < store.claims.len()
        invariant
            0 <= i <= store.claims.len(),
            forall|j: int|
                0 <= j < i ==> (#[trigger] store@.claims[j]).id == j + 1 && store@.has_group(
                    store@.claims[j].group_id,
                ),
        decreases store.claims.len() - i,
    {
        let c = store.claims[i];
        if c.id as u128 != i as u128 + 1 {
            return false;
        }
        if !(c.group_id >= 1 && c.group_id - 1 < store.groups.len() as u64) {
            return false;
        }
        i += 1;
    }
    true
}

/// Counts the claims that are pending against the pool of `token`.
pub fn count_pending_claims(store: &Store, token: &Address) -> (r: usize)
    requires
        claims_filed(store@),
    ensures
        r == pending_claims(store@, *token),
{
    let ghost f = |i: int| claim_pending_at(store@, *token, i);
    let mut count: usize = 0;
    let mut i: usize = 0;
    while i < store.claims.len()
        invariant
            claims_filed(store@),
            0 <= i <= store.claims.len(),
            f == (|i: int| claim_pending_at(store@, *token, i)),
            count == count_upto(i as nat, f),
            count <= i,
        decreases store.claims.len() - i,
    {
        let c = store.claims[i];
        assert(c == store@.claims[i as int]);
        let pending = match c.status {
            ClaimStatus::Pending => true,
            _ => false,
        };
        assert(store@.has_group(c.group_id));
        assert(store@.groups.len() == store.groups.len());
        let g = &store.groups[(c.group_id - 1) as usize];
        assert(g@ == store@.group(c.group_id));
        if pending && g.token_address == *token {
            count = count + 1;
        }
        i += 1;
    }
    count
}

/// Whether the claims are all filed soundly and each pool counts the claims
/// that are pending against it.
pub fn insurance_sound(store: &Store) -> (r: bool)
    requires
        store.insurance_pools.wf(),
    ensures
        r == insurance_wf(store@),
{
    if !claims_sound(store) {
        return false;
    }
    let pools = &store.insurance_pools;
    proof {
        pools.lemma_entries();
    }
    let mut p: usize = 0;
    while p < pools.keys.len()
        invariant
            pools == &store.insurance_pools,
            pools.wf(),
            claims_filed(store@),
            0 <= p <= pools.keys.len(),
            forall|j: int|
                0 <= j < p ==> pending_claims(store@, #[trigger] pools.keys[j])
                    == pools.values[j].pending_claims_count,
        decreases pools.keys.len() - p,
    {
        let pending = count_pending_claims(store, &pools.keys[p]);
        if pending as u64 != pools.values[p].pending_claims_count as u64 {
            proof {
                pools.lemma_entries();
                let t = pools.keys[p as int];
                assert(store@.insurance_pools.dom().contains(t));
                assert(pending_claims(store@, t) != pool_pending(store@, t));
            }
            return false;
        }
        p += 1;
    }
    let mut i: usize = 0;
    while i < store.claims.len()
        invariant
            pools == &store.insurance_pools,
            pools.wf(),
            claims_filed(store@),
            0 <= i <= store.claims.len(),
            forall|j: int|
                0 <= j < i && (#[trigger] store@.claims[j]).status == ClaimStatus::Pending
                    ==> store@.insurance_pools.dom().contains(
                    store@.group(store@.claims[j].group_id).token_address,
                ),
        decreases store.claims.len() - i,
    {
        let c = store.claims[i];
        assert(c == store@.claims[i as int]);
        let pending = match c.status {
            ClaimStatus::Pending => true,
            _ => false,
        };
        if pending {
            assert(store@.has_group(c.group_id));
            assert(store@.groups.len() == store.groups.len());
            let g = &store.groups[(c.group_id - 1) as usize];
            assert(g@ == store@.group(c.group_id));
            if !pools.contains(&g.token_address) {
                proof {
                    let t = g.token_address;
                    lemma_count_positive(
                        store@.claims.len(),
                        |j: int| claim_pending_at(store@, t, j),
                        i as int,
                    );
                    assert(pending_claims(store@, t) != pool_pending(store@, t));
                }
                return false;
            }
        }
        i += 1;
    }
    proof {
        pools.lemma_entries();
        assert forall|t: Address| #[trigger] pending_claims(store@, t) == pool_pending(
            store@,
            t,
        ) by {
            if store@.insurance_pools.dom().contains(t) {
                let j = pools.position(t);
                assert(pending_claims(store@, pools.keys[j]) == pools.values[j].pending_claims_count);
            } else {
                lemma_count_none(store@.claims.len(), |j: int| claim_pending_at(store@, t, j));
            }
        }
    }
    true
}

/// Counts the members of `g`, a group of the store, who voted `in_favor`.
pub fn count_votes(store: &Store, g: &Group, in_favor: bool) -> (r: usize)
    requires
        store.inv(),
        store@.find_group(g.id) == Some(g@),
    ensures
        r == tally(store@, g.id, in_favor),
        r <= g.members.len(),
{
    let ghost f = |i: int| voted_at(store@, g.id, in_favor, i);
    let mut count: usize = 0;
    let mut i: usize = 0;
    while i < g.members.len()
        invariant
            store.inv(),
            store@.find_group(g.id) == Some(g@),
            0 <= i <= g.members.len(),
            f == (|i: int| voted_at(store@, g.id, in_favor, i)),
            count == count_upto(i as nat, f),
            count <= i,
        decreases g.members.len() - i,
    {
        match store.get_refund_vote(g.id, &g.members[i]) {
            Some(v) => {
                if v.in_favor == in_favor {
                    count = count + 1;
                }
            },
            None => {},
        }
        i += 1;
    }
    count
}

/// Whether the refund request `r`, filed under group `id`, is sound.
pub fn refund_request_is_sound(store: &Store, id: u64, r: &RefundRequest) -> (ok: bool)
    requires
        store.inv(),
        groups_wf(store@),
    ensures
        ok == refund_request_ok(store@, id, *r),
{
    if r.group_id != id {
        return false;
    }
    let g = match store.get_group(id) {
        Some(g) => g,
        None => {
            return false;
        },
    };
    proof {
        assert(store@.groups[id - 1].id == id);
    }
    if !is_member(&g.members, &r.requester) {
        return false;
    }
    if r.voting_deadline as u128 != r.created_at as u128 + VOTING_PERIOD as u128 {
        return false;
    }
    if count_votes(store, &g, true) as u64 != r.votes_for as u64 {
        return false;
    }
    if count_votes(store, &g, false) as u64 != r.votes_against as u64 {
        return false;
    }
    if r.approved {
        let cancelled = match g.state {
            GroupState::Cancelled => true,
            _ => false,
        };
        return r.executed && cancelled;
    }
    true
}

/// Whether the vote `v`, filed under `k`, is sound.
pub fn vote_is_sound(store: &Store, k: &MemberKey, v: &RefundVote) -> (ok: bool)
    requires
        store.inv(),
    ensures
        ok == vote_ok(store@, *k, *v),
{
    if v.group_id != k.group_id || v.voter != k.member {
        return false;
    }
    if !store.refund_requests.contains(&k.group_id) {
        return false;
    }
    match store.get_group(k.group_id) {
        Some(g) => is_member(&g.members, &k.member),
        None => false,
    }
}

/// Whether the refund requests and the votes on file are all sound.
pub fn refunds_sound(store: &Store) -> (r: bool)
    requires
        store.inv(),
        groups_wf(store@),
    ensures
        r == refunds_wf(store@),
{
    let requests = &store.refund_requests;
    let votes = &store.refund_votes;
    proof {
        requests.lemma_entries();
        votes.lemma_entries();
    }
    let mut i: usize = 0;
    while i < requests.keys.len()
        invariant
            requests == &store.refund_requests,
            store.inv(),
            groups_wf(store@),
            0 <= i <= requests.keys.len(),
            forall|j: int|
                0 <= j < i ==> refund_request_ok(
                    store@,
                    #[trigger] requests.keys[j],
                    requests.values[j],
                ),
        decreases requests.keys.len() - i,
    {
        if !refund_request_is_sound(store, requests.keys[i], &requests.values[i]) {
            proof {
                requests.lemma_entries();
                assert(store@.refund_requests.dom().contains(requests.keys[i as int]));
            }
            return false;
        }
        i += 1;
    }
    let mut n: usize = 0;
    while n < votes.keys.len()
        invariant
            votes == &store.refund_votes,
            store.inv(),
            0 <= n <= votes.keys.len(),
            forall|j: int| 0 <= j < n ==> vote_ok(store@, #[trigger] votes.keys[j], votes.values[j]),
        decreases votes.keys.len() - n,
    {
        if !vote_is_sound(store, &votes.keys[n], &votes.values[n]) {
            proof {
                votes.lemma_entries();
                assert(store@.refund_votes.dom().contains(votes.keys[n as int]));
            }
            return false;
        }
        n += 1;
    }
    proof {
        requests.lemma_entries();
        votes.lemma_entries();
        assert forall|id: u64| #[trigger]
            store@.refund_requests.dom().contains(id) implies refund_request_ok(
            store@,
            id,
            store@.refund_requests[id],
        ) by {
            let j = requests.position(id);
            assert(refund_request_ok(store@, requests.keys[j], requests.values[j]));
        }
        assert forall|k: MemberKey| #[trigger]
            store@.refund_votes.dom().contains(k) implies vote_ok(store@, k, store@.refund_votes[k]) by {
            let j = votes.position(k);
            assert(vote_ok(store@, votes.keys[j], votes.values[j]));
        }
    }
    true
}

/// Whether the tables of the store are well formed.
pub fn tables_sound(store: &Store) -> (r: bool)
    ensures
        r == store.inv(),
{
    store.contributions.is_wf() && store.payouts.is_wf() && store.insurance_pools.is_wf()
        && store.penalties.is_wf() && store.refund_requests.is_wf() && store.refund_votes.is_wf()
}

/// Whether the store is sound: whether its tables are well formed and its
/// records agree with each other.
pub fn is_sound(store: &Store) -> (r: bool)
    ensures
        r == (store.inv() && wf(store@)),
{
    tables_sound(store) && groups_sound(store) && contributions_sound(store) && payouts_sound(store)
        && penalties_sound(store) && insurance_sound(store) && refunds_sound(store)
}

} // verus!
