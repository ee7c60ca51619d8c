//! Late-contribution penalties and the reliability record of a member.

use vstd::prelude::*;
use crate::arith::{lemma_product_bound, lemma_share_bound, share};
use crate::counting::{lemma_sum_bound, sum_upto};
use crate::security::{cycle_end, grace_end};
use crate::storage::{ContributionKey, Store};
use crate::transitions::{penalty_paid, penalty_pool};
use crate::types::{Address, Group, GroupView, MemberPenaltyRecord};
use crate::wellformed::{contribution_ok, wf};

verus! {

/// When a contribution arrives, relative to the cycle and its grace period.
#[derive(Clone, Copy, Debug, PartialEq, Eq, Structural)]
pub enum Timeliness {
    /// Not after the end of the cycle.
    OnTime,
    /// After the end of the cycle, not after the end of the grace period.
    Late,
    /// After the end of the grace period.
    Expired,
}

/// The timeliness of a contribution made to group `g` at time `now`.
pub open spec fn timeliness(g: GroupView, now: u64) -> Timeliness {
    if now > grace_end(g) {
        Timeliness::Expired
    } else if now > cycle_end(g) {
        Timeliness::Late
    } else {
        Timeliness::OnTime
    }
}

/// Classifies a contribution made to `group` at time `now`.
pub fn classify(group: &Group, now: u64) -> (r: Timeliness)
    ensures
        r == timeliness(group@, now),
{
    let end: u128 = group.cycle_start_time as u128 + group.cycle_duration as u128;
    let grace: u128 = end + group.grace_period as u128;
    if now as u128 > grace {
        Timeliness::Expired
    } else if now as u128 > end {
        Timeliness::Late
    } else {
        Timeliness::OnTime
    }
}

/// The penalty on a late contribution: `penalty_rate` percent of `amount`.
pub open spec fn late_penalty(amount: i128, penalty_rate: u32) -> int {
    share(amount, penalty_rate, 100)
}

/// Calculates the penalty on a late contribution of `amount`.
pub fn calculate_penalty(amount: i128, penalty_rate: u32) -> (r: i128)
    requires
        i128::MIN <= amount * penalty_rate <= i128::MAX,
    ensures
        r == late_penalty(amount, penalty_rate),
{
    (amount * (penalty_rate as i128)) / 100
}

/// The penalty that a contribution to `g` carries: that of a late one, or nothing.
pub open spec fn penalty_due(g: GroupView, is_late: bool) -> int {
    if is_late {
        late_penalty(g.contribution_amount, g.penalty_rate)
    } else {
        0
    }
}

/// The largest penalty that any contribution within the limits can carry.
pub open spec fn penalty_cap() -> int {
    crate::security::limits::MAX_CONTRIBUTION * 0x1_0000_0000
}

/// A penalty on an amount within the limits is between 0 and the cap.
pub proof fn lemma_penalty_bound(g: GroupView, is_late: bool)
    requires
        0 <= g.contribution_amount <= crate::security::limits::MAX_CONTRIBUTION,
    ensures
        0 <= g.contribution_amount * g.penalty_rate <= penalty_cap(),
        0 <= penalty_due(g, is_late) <= penalty_cap(),
{
    lemma_share_bound(g.contribution_amount, g.penalty_rate, 100);
    lemma_product_bound(
        g.contribution_amount,
        g.penalty_rate,
        crate::security::limits::MAX_CONTRIBUTION as int,
    );
}

/// The share of contributions made on time, in percent; 100 before any contribution.
pub open spec fn reliability(on_time_count: u32, late_count: u32) -> int {
    if on_time_count + late_count == 0 {
        100
    } else {
        on_time_count * 100 / (on_time_count + late_count)
    }
}

/// Computes the reliability score from the two counts.
pub fn reliability_score(on_time_count: u32, late_count: u32) -> (r: u32)
    ensures
        r == reliability(on_time_count, late_count),
        r <= 100,
{
    let total: u64 = on_time_count as u64 + late_count as u64;
    if total == 0 {
        100
    } else {
        let scaled: u64 = on_time_count as u64 * 100;
        let q: u64 = scaled / total;
        assert(q <= 100) by (nonlinear_arith)
            requires
                q == scaled / total,
                scaled <= 100 * total,
                total > 0,
        ;
        q as u32
    }
}

/// The statistics of a member after one more contribution.
pub open spec fn penalty_record_after(
    prev: Option<MemberPenaltyRecord>,
    group_id: u64,
    member: Address,
    is_late: bool,
    penalty: i128,
) -> MemberPenaltyRecord {
    let late_before = if prev is Some {
        prev->0.late_count
    } else {
        0
    };
    let on_time_before = if prev is Some {
        prev->0.on_time_count
    } else {
        0
    };
    let total_before = if prev is Some {
        prev->0.total_penalties
    } else {
        0
    };
    let late_count = if is_late {
        (late_before + 1) as u32
    } else {
        late_before
    };
    let on_time_count = if is_late {
        on_time_before
    } else {
        (on_time_before + 1) as u32
    };
    MemberPenaltyRecord {
        member,
        group_id,
        late_count,
        on_time_count,
        total_penalties: (total_before + penalty) as i128,
        reliability_score: reliability(on_time_count, late_count) as u32,
    }
}

/// True when one more contribution can be counted without leaving the integer ranges.
pub open spec fn penalty_record_fits(prev: Option<MemberPenaltyRecord>, penalty: i128) -> bool {
    prev is Some ==> {
        &&& prev->0.late_count < u32::MAX
        &&& prev->0.on_time_count < u32::MAX
        &&& i128::MIN <= prev->0.total_penalties + penalty <= i128::MAX
    }
}

/// Counts one more contribution of `member` in group `group_id`.
pub fn update_penalty_record(
    prev: Option<MemberPenaltyRecord>,
    group_id: u64,
    member: Address,
    is_late: bool,
    penalty: i128,
) -> (r: MemberPenaltyRecord)
    requires
        penalty_record_fits(prev, penalty),
    ensures
        r == penalty_record_after(prev, group_id, member, is_late, penalty),
{
    let (late_before, on_time_before, total_before) = match prev {
        Some(p) => (p.late_count, p.on_time_count, p.total_penalties),
        None => (0u32, 0u32, 0i128),
    };
    let late_count: u32 = if is_late {
        late_before + 1
    } else {
        late_before
    };
    let on_time_count: u32 = if is_late {
        on_time_before
    } else {
        on_time_before + 1
    };
    MemberPenaltyRecord {
        member,
        group_id,
        late_count,
        on_time_count,
        total_penalties: total_before + penalty,
        reliability_score: reliability_score(on_time_count, late_count),
    }
}

/// The penalties collected in the current cycle of `group`, a group of the store.
pub fn cycle_penalty_pool(store: &Store, group: &Group) -> (r: i128)
    requires
        store.inv(),
        wf(store@),
        store@.find_group(group.id) == Some(group@),
    ensures
        r == penalty_pool(store@, group.id, group.current_cycle, group.members@),
        0 <= r <= group.members.len() * penalty_cap(),
{
    let ghost f = |i: int| penalty_paid(store@, group.id, group.current_cycle, group.members@[i]);
    let mut total: i128 = 0;
    let mut i: usize = 0;
    proof {
        assert forall|j: int| 0 <= j < group.members.len() implies 0 <= #[trigger] f(j)
            <= penalty_cap() by {
            let m = group.members@[j];
            if store@.has_contributed(group.id, group.current_cycle, m) {
                let k = ContributionKey {
                    group_id: group.id,
                    cycle: group.current_cycle,
                    member: m,
                };
                assert(contribution_ok(store@, k, store@.contributions[k]));
                lemma_penalty_bound(group@, store@.contributions[k].is_late);
            }
        }
        lemma_sum_bound(group.members.len() as nat, f, penalty_cap());
    }
    while i < group.members.len()
        invariant
            store.inv(),
            0 <= i <= group.members.len(),
            group.members.len() <= 100,
            f == (|i: int|
                penalty_paid(store@, group.id, group.current_cycle, group.members@[i])),
            forall|j: int| 0 <= j < group.members.len() ==> 0 <= #[trigger] f(j) <= penalty_cap(),
            total == sum_upto(i as nat, f),
            0 <= total <= i * penalty_cap(),
        decreases group.members.len() - i,
    {
        let paid: i128 = match store.get_contribution(
            group.id,
            group.current_cycle,
            &group.members[i],
        ) {
            Some(c) => c.penalty_amount,
            None => 0,
        };
        assert(paid == f(i as int));
        assert((i + 1) * penalty_cap() == i * penalty_cap() + penalty_cap()) by (nonlinear_arith);
        assert(i * penalty_cap() <= 100 * penalty_cap()) by (nonlinear_arith)
            requires
                0 <= i <= 100,
                penalty_cap() >= 0,
        ;
        total = total + paid;
        i += 1;
    }
    total
}

} // verus!
