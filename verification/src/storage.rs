//! The durable store: every record the contract keeps, and its primitives.
//!
//! The store is a plain value. Each primitive reads or writes one family of
//! records and says so over the store's view; the rules that tie the
//! families together are stated in [`crate::wellformed`].

use vstd::prelude::*;
use crate::table::{Key, Table};
use crate::types::{
    Address, ContributionRecord, Group, GroupView, InsuranceClaim, InsurancePool,
    MemberPenaltyRecord, PayoutRecord, RefundRequest, RefundVote,
};

verus! {

/// Names one contribution: who paid, into which group, in which cycle.
#[derive(Clone, Copy, Debug, PartialEq, Eq)]
pub struct ContributionKey {
    pub group_id: u64,
    pub cycle: u32,
    pub member: Address,
}

/// Names what a group keeps once per member.
#[derive(Clone, Copy, Debug, PartialEq, Eq)]
pub struct MemberKey {
    pub group_id: u64,
    pub member: Address,
}

impl Key for ContributionKey {
    fn same(&self, other: &Self) -> (r: bool) {
        self.group_id == other.group_id && self.cycle == other.cycle && self.member == other.member
    }
}

impl Key for MemberKey {
    fn same(&self, other: &Self) -> (r: bool) {
        self.group_id == other.group_id && self.member == other.member
    }
}

impl Key for Address {
    fn same(&self, other: &Self) -> (r: bool) {
        *self == *other
    }
}

/// Everything the contract keeps between operations.
pub struct Store {
    /// The administrator, once set.
    pub admin: Option<Address>,
    /// Whether state-changing operations are paused.
    pub paused: bool,
    /// Groups by id: the group with id `n` is at position `n - 1`.
    pub groups: Vec<Group>,
    /// Contributions by (group, cycle, member).
    pub contributions: Table<ContributionKey, ContributionRecord>,
    /// Payouts by (group, member).
    pub payouts: Table<MemberKey, PayoutRecord>,
    /// Insurance pools by token.
    pub insurance_pools: Table<Address, InsurancePool>,
    /// Claims by id: the claim with id `n` is at position `n - 1`.
    pub claims: Vec<InsuranceClaim>,
    /// Penalty statistics by (group, member).
    pub penalties: Table<MemberKey, MemberPenaltyRecord>,
    /// Refund requests by group.
    pub refund_requests: Table<u64, RefundRequest>,
    /// Refund votes by (group, voter).
    pub refund_votes: Table<MemberKey, RefundVote>,
}

/// The mathematical value of a [`Store`].
pub struct StoreView {
    pub admin: Option<Address>,
    pub paused: bool,
    pub groups: Seq<GroupView>,
    pub contributions: Map<ContributionKey, ContributionRecord>,
    pub payouts: Map<MemberKey, PayoutRecord>,
    pub insurance_pools: Map<Address, InsurancePool>,
    pub claims: Seq<InsuranceClaim>,
    pub penalties: Map<MemberKey, MemberPenaltyRecord>,
    pub refund_requests: Map<u64, RefundRequest>,
    pub refund_votes: Map<MemberKey, RefundVote>,
}

impl View for Store {
    type V = StoreView;

    open spec fn view(&self) -> StoreView {
        StoreView {
            admin: self.admin,
            paused: self.paused,
            groups: self.groups@.map_values(|g: Group| g@),
            contributions: self.contributions@,
            payouts: self.payouts@,
            insurance_pools: self.insurance_pools@,
            claims: self.claims@,
            penalties: self.penalties@,
            refund_requests: self.refund_requests@,
            refund_votes: self.refund_votes@,
        }
    }
}

impl StoreView {
    /// The store with nothing in it.
    pub open spec fn empty() -> StoreView {
        StoreView {
            admin: None,
            paused: false,
            groups: Seq::empty(),
            contributions: Map::empty(),
            payouts: Map::empty(),
            insurance_pools: Map::empty(),
            claims: Seq::empty(),
            penalties: Map::empty(),
            refund_requests: Map::empty(),
            refund_votes: Map::empty(),
        }
    }

    /// True when a group with this id exists.
    pub open spec fn has_group(self, id: u64) -> bool {
        1 <= id <= self.groups.len()
    }

    /// The group with this id, where it exists.
    pub open spec fn group(self, id: u64) -> GroupView {
        self.groups[id - 1]
    }

    /// The group with this id, if any.
    pub open spec fn find_group(self, id: u64) -> Option<GroupView> {
        if self.has_group(id) {
            Some(self.group(id))
        } else {
            None
        }
    }

    /// True when `member` has a contribution for `cycle` of group `id`.
    pub open spec fn has_contributed(self, id: u64, cycle: u32, member: Address) -> bool {
        self.contributions.dom().contains(ContributionKey { group_id: id, cycle, member })
    }

    /// The contribution of `member` for `cycle` of group `id`, where there is one.
    pub open spec fn contribution(self, id: u64, cycle: u32, member: Address)
        -> ContributionRecord {
        self.contributions[ContributionKey { group_id: id, cycle, member }]
    }

    /// True when group `id` has paid `member`.
    pub open spec fn has_received_payout(self, id: u64, member: Address) -> bool {
        self.payouts.dom().contains(MemberKey { group_id: id, member })
    }

    /// True when `member` has voted on the refund request of group `id`.
    pub open spec fn has_voted(self, id: u64, member: Address) -> bool {
        self.refund_votes.dom().contains(MemberKey { group_id: id, member })
    }

    /// True when a claim with this id exists.
    pub open spec fn has_claim(self, id: u64) -> bool {
        1 <= id <= self.claims.len()
    }

    /// The claim with this id, where it exists.
    pub open spec fn claim(self, id: u64) -> InsuranceClaim {
        self.claims[id - 1]
    }

    /// The store with `g` added as the next group.
    pub open spec fn push_group(self, g: GroupView) -> StoreView {
        StoreView { groups: self.groups.push(g), ..self }
    }

    /// The store with group `id` replaced by `g`.
    pub open spec fn set_group(self, id: u64, g: GroupView) -> StoreView {
        StoreView { groups: self.groups.update(id - 1, g), ..self }
    }

    /// The store with the contribution `r` recorded.
    pub open spec fn put_contribution(self, r: ContributionRecord) -> StoreView {
        StoreView {
            contributions: self.contributions.insert(
                ContributionKey { group_id: r.group_id, cycle: r.cycle, member: r.member },
                r,
            ),
            ..self
        }
    }

    /// The store with the payout `r` recorded.
    pub open spec fn put_payout(self, r: PayoutRecord) -> StoreView {
        StoreView {
            payouts: self.payouts.insert(MemberKey { group_id: r.group_id, member: r.member }, r),
            ..self
        }
    }

    /// The store with `pool` as the insurance pool of `token`.
    pub open spec fn put_pool(self, token: Address, pool: InsurancePool) -> StoreView {
        StoreView { insurance_pools: self.insurance_pools.insert(token, pool), ..self }
    }

    /// The store with `c` added as the next claim.
    pub open spec fn push_claim(self, c: InsuranceClaim) -> StoreView {
        StoreView { claims: self.claims.push(c), ..self }
    }

    /// The store with claim `id` replaced by `c`.
    pub open spec fn set_claim(self, id: u64, c: InsuranceClaim) -> StoreView {
        StoreView { claims: self.claims.update(id - 1, c), ..self }
    }

    /// The store with the penalty statistics `r` recorded.
    pub open spec fn put_penalty(self, r: MemberPenaltyRecord) -> StoreView {
        StoreView {
            penalties: self.penalties.insert(
                MemberKey { group_id: r.group_id, member: r.member },
                r,
            ),
            ..self
        }
    }

    /// The store with `r` as the refund request of its group.
    pub open spec fn put_refund_request(self, r: RefundRequest) -> StoreView {
        StoreView { refund_requests: self.refund_requests.insert(r.group_id, r), ..self }
    }

    /// The store with the vote `v` recorded.
    pub open spec fn put_refund_vote(self, v: RefundVote) -> StoreView {
        StoreView {
            refund_votes: self.refund_votes.insert(
                MemberKey { group_id: v.group_id, member: v.voter },
                v,
            ),
            ..self
        }
    }
}

/// For each member in order, whether the member contributed in `cycle` of group `id`.
pub open spec fn cycle_contributions(s: StoreView, id: u64, cycle: u32, members: Seq<Address>)
    -> Seq<(Address, bool)> {
    Seq::new(members.len(), |i: int| (members[i], s.has_contributed(id, cycle, members[i])))
}

impl Store {
    /// The tables are well formed: each holds one value per key.
    pub open spec fn inv(&self) -> bool {
        &&& self.contributions.wf()
        &&& self.payouts.wf()
        &&& self.insurance_pools.wf()
        &&& self.penalties.wf()
        &&& self.refund_requests.wf()
        &&& self.refund_votes.wf()
    }

    /// A store with nothing in it.
    pub fn new() -> (s: Store)
        ensures
            s.inv(),
            s@ == StoreView::empty(),
    {
        let s = Store {
            admin: None,
            paused: false,
            groups: Vec::new(),
            contributions: Table::new(),
            payouts: Table::new(),
            insurance_pools: Table::new(),
            claims: Vec::new(),
            penalties: Table::new(),
            refund_requests: Table::new(),
            refund_votes: Table::new(),
        };
        assert(s@.groups =~= Seq::empty());
        s
    }

    /// The administrator, if one was set.
    pub fn get_admin(&self) -> (r: Option<Address>)
        ensures
            r == self@.admin,
    {
        self.admin
    }

    /// Makes `admin` the administrator.
    pub fn store_admin(&mut self, admin: Address)
        ensures
            final(self).inv() == old(self).inv(),
            final(self)@ == (StoreView { admin: Some(admin), ..old(self)@ }),
    {
        self.admin = Some(admin);
    }

    /// Whether state-changing operations are paused.
    pub fn is_paused(&self) -> (r: bool)
        ensures
            r == self@.paused,
    {
        self.paused
    }

    /// Sets the pause switch.
    pub fn set_paused(&mut self, paused: bool)
        ensures
            final(self).inv() == old(self).inv(),
            final(self)@ == (StoreView { paused, ..old(self)@ }),
    {
        self.paused = paused;
    }

    /// The id that the next group will get.
    pub fn get_next_group_id(&self) -> (id: u64)
        requires
            self@.groups.len() < u64::MAX,
        ensures
            id == self@.groups.len() + 1,
    {
        self.groups.len() as u64 + 1
    }

    /// A copy of the group with this id, if it exists.
    pub fn get_group(&self, id: u64) -> (r: Option<Group>)
        ensures
            match r {
                Some(g) => self@.find_group(id) == Some(g@),
                None => self@.find_group(id) is None,
            },
    {
        if id >= 1 && id - 1 < self.groups.len() as u64 {
            let g = self.groups[(id - 1) as usize].clone();
            Some(g)
        } else {
            None
        }
    }

    /// Writes `group` under its id: over the group that has it, or as the next group.
    pub fn store_group(&mut self, group: Group)
        requires
            1 <= group.id <= old(self)@.groups.len() + 1,
        ensures
            final(self).inv() == old(self).inv(),
            final(self)@ == (if old(self)@.has_group(group.id) {
                old(self)@.set_group(group.id, group@)
            } else {
                old(self)@.push_group(group@)
            }),
    {
        let ghost gv = group@;
        if group.id - 1 < self.groups.len() as u64 {
            let i = (group.id - 1) as usize;
            self.groups.set(i, group);
            assert(self@.groups =~= old(self)@.groups.update(i as int, gv));
        } else {
            self.groups.push(group);
            assert(self@.groups =~= old(self)@.groups.push(gv));
        }
    }

    /// Whether `member` contributed in `cycle` of group `id`.
    pub fn has_contributed(&self, id: u64, cycle: u32, member: &Address) -> (r: bool)
        requires
            self.inv(),
        ensures
            r == self@.has_contributed(id, cycle, *member),
    {
        self.contributions.contains(&ContributionKey { group_id: id, cycle, member: *member })
    }

    /// The contribution of `member` in `cycle` of group `id`, if there is one.
    pub fn get_contribution(&self, id: u64, cycle: u32, member: &Address) -> (r: Option<
        ContributionRecord,
    >)
        requires
            self.inv(),
        ensures
            r == (if self@.has_contributed(id, cycle, *member) {
                Some(self@.contribution(id, cycle, *member))
            } else {
                None
            }),
    {
        self.contributions.get(&ContributionKey { group_id: id, cycle, member: *member })
    }

    /// Records the contribution `record`.
    pub fn store_contribution(&mut self, record: ContributionRecord)
        requires
            old(self).inv(),
        ensures
            final(self).inv(),
            final(self)@ == old(self)@.put_contribution(record),
    {
        self.contributions.insert(
            ContributionKey {
                group_id: record.group_id,
                cycle: record.cycle,
                member: record.member,
            },
            record,
        );
    }

    /// For each member in order, whether the member contributed in `cycle` of group `id`.
    pub fn get_cycle_contributions(&self, id: u64, cycle: u32, members: &Vec<Address>) -> (r: Vec<
        (Address, bool),
    >)
        requires
            self.inv(),
        ensures
            r@ == cycle_contributions(self@, id, cycle, members@),
    {
        let mut r: Vec<(Address, bool)> = Vec::new();
        let mut i: usize = 0;
        while i < members.len()
            invariant
                self.inv(),
                0 <= i <= members.len(),
                r@ == cycle_contributions(self@, id, cycle, members@.subrange(0, i as int)),
            decreases members.len() - i,
        {
            let m = members[i];
            let paid = self.has_contributed(id, cycle, &m);
            r.push((m, paid));
            assert(r@ =~= cycle_contributions(self@, id, cycle, members@.subrange(0, i + 1)));
            i += 1;
        }
        assert(members@.subrange(0, members.len() as int) =~= members@);
        r
    }

    /// Whether group `id` has paid `member`.
    pub fn has_received_payout(&self, id: u64, member: &Address) -> (r: bool)
        requires
            self.inv(),
        ensures
            r == self@.has_received_payout(id, *member),
    {
        self.payouts.contains(&MemberKey { group_id: id, member: *member })
    }

    /// The payout that group `id` made to `member`, if there is one.
    pub fn get_payout(&self, id: u64, member: &Address) -> (r: Option<PayoutRecord>)
        requires
            self.inv(),
        ensures
            r == (if self@.has_received_payout(id, *member) {
                Some(self@.payouts[MemberKey { group_id: id, member: *member }])
            } else {
                None
            }),
    {
        self.payouts.get(&MemberKey { group_id: id, member: *member })
    }

    /// Records the payout `record`, which marks its member as paid.
    pub fn mark_payout_received(&mut self, record: PayoutRecord)
        requires
            old(self).inv(),
        ensures
            final(self).inv(),
            final(self)@ == old(self)@.put_payout(record),
    {
        self.payouts.insert(MemberKey { group_id: record.group_id, member: record.member }, record);
    }

    /// The insurance pool of `token`, if one exists.
    pub fn get_insurance_pool(&self, token: &Address) -> (r: Option<InsurancePool>)
        requires
            self.inv(),
        ensures
            r == (if self@.insurance_pools.dom().contains(*token) {
                Some(self@.insurance_pools[*token])
            } else {
                None
            }),
    {
        self.insurance_pools.get(token)
    }

    /// Writes `pool` as the insurance pool of `token`.
    pub fn store_insurance_pool(&mut self, token: &Address, pool: InsurancePool)
        requires
            old(self).inv(),
        ensures
            final(self).inv(),
            final(self)@ == old(self)@.put_pool(*token, pool),
    {
        self.insurance_pools.insert(*token, pool);
    }

    /// The id that the next claim will get.
    pub fn get_next_claim_id(&self) -> (id: u64)
        requires
            self@.claims.len() < u64::MAX,
        ensures
            id == self@.claims.len() + 1,
    {
        self.claims.len() as u64 + 1
    }

    /// The claim with this id, if it exists.
    pub fn get_insurance_claim(&self, id: u64) -> (r: Option<InsuranceClaim>)
        ensures
            r == (if self@.has_claim(id) {
                Some(self@.claim(id))
            } else {
                None
            }),
    {
        if id >= 1 && id - 1 < self.claims.len() as u64 {
            Some(self.claims[(id - 1) as usize])
        } else {
            None
        }
    }

    /// Writes `claim` under its id: over the claim that has it, or as the next claim.
    pub fn store_insurance_claim(&mut self, claim: InsuranceClaim)
        requires
            1 <= claim.id <= old(self)@.claims.len() + 1,
        ensures
            final(self).inv() == old(self).inv(),
            final(self)@ == (if old(self)@.has_claim(claim.id) {
                old(self)@.set_claim(claim.id, claim)
            } else {
                old(self)@.push_claim(claim)
            }),
    {
        if claim.id - 1 < self.claims.len() as u64 {
            let i = (claim.id - 1) as usize;
            self.claims.set(i, claim);
            assert(self@.groups =~= old(self)@.groups);
        } else {
            self.claims.push(claim);
            assert(self@.groups =~= old(self)@.groups);
        }
    }

    /// The penalty statistics of `member` in group `id`, if any were recorded.
    pub fn get_penalty_record(&self, id: u64, member: &Address) -> (r: Option<MemberPenaltyRecord>)
        requires
            self.inv(),
        ensures
            r == (if self@.penalties.dom().contains(MemberKey { group_id: id, member: *member }) {
                Some(self@.penalties[MemberKey { group_id: id, member: *member }])
            } else {
                None
            }),
    {
        self.penalties.get(&MemberKey { group_id: id, member: *member })
    }

    /// Writes the penalty statistics `record`.
    pub fn store_penalty_record(&mut self, record: MemberPenaltyRecord)
        requires
            old(self).inv(),
        ensures
            final(self).inv(),
            final(self)@ == old(self)@.put_penalty(record),
    {
        self.penalties.insert(
            MemberKey { group_id: record.group_id, member: record.member },
            record,
        );
    }

    /// The refund request of group `id`, if one was opened.
    pub fn get_refund_request(&self, id: u64) -> (r: Option<RefundRequest>)
        requires
            self.inv(),
        ensures
            r == (if self@.refund_requests.dom().contains(id) {
                Some(self@.refund_requests[id])
            } else {
                None
            }),
    {
        self.refund_requests.get(&id)
    }

    /// Writes `request` as the refund request of its group.
    pub fn store_refund_request(&mut self, request: RefundRequest)
        requires
            old(self).inv(),
        ensures
            final(self).inv(),
            final(self)@ == old(self)@.put_refund_request(request),
    {
        self.refund_requests.insert(request.group_id, request);
    }

    /// The vote of `member` on the refund request of group `id`, if cast.
    pub fn get_refund_vote(&self, id: u64, member: &Address) -> (r: Option<RefundVote>)
        requires
            self.inv(),
        ensures
            r == (if self@.has_voted(id, *member) {
                Some(self@.refund_votes[MemberKey { group_id: id, member: *member }])
            } else {
                None
            }),
    {
        self.refund_votes.get(&MemberKey { group_id: id, member: *member })
    }

    /// Records the vote `vote`.
    pub fn store_refund_vote(&mut self, vote: RefundVote)
        requires
            old(self).inv(),
        ensures
            final(self).inv(),
            final(self)@ == old(self)@.put_refund_vote(vote),
    {
        self.refund_votes.insert(MemberKey { group_id: vote.group_id, member: vote.voter }, vote);
    }
}

} // verus!
