//! The contract: a store and the operations on it.

use vstd::prelude::*;
use crate::arith::{lemma_product_bound, lemma_share_bound};
use crate::errors::AjoError;
use crate::insurance::{
    self, calculate_premium, can_deposit, claim_filed, claim_processed, claim_valid,
    deposit_to_pool, file_claim_fits, file_claim_next, file_claim_refusal, process_claim_fits,
    process_claim_next, process_claim_refusal,
};
use crate::pausable::{self, is_admin};
use crate::penalty::{
    calculate_penalty, classify, cycle_penalty_pool, penalty_cap, update_penalty_record,
    Timeliness,
};
use crate::refund::{
    self, cancel_group_next, cancel_group_refusal, execute_refund_next, execute_refund_refusal,
    refund_approved, refunds_due, request_opened, request_refund_refusal, request_voted,
    vote_refund_next, vote_refund_refusal,
};
use crate::security::{all_members_contributed, is_active, is_member, validate_group_params};
use crate::sound;
use crate::storage::{cycle_contributions, Store, StoreView};
use crate::theorems::{
    lemma_contribute_steps, lemma_group_in_place, theorem_create_group_keeps_sound,
    theorem_execute_payout_keeps_sound, theorem_join_group_keeps_sound,
    theorem_set_insurance_config_keeps_sound,
};
use crate::transitions::{
    contribute_fits, contribute_next, contribute_refusal, create_group_next, deposit_fits,
    deposited,
    create_group_refusal, execute_payout_next, execute_payout_refusal, gated, group_joined,
    group_paid, group_status, join_group_next, join_group_refusal, payout_made, receipt_made,
    set_insurance_config_next, set_insurance_config_refusal, status_fits,
};
use crate::types::{
    Address, ContributionReceipt, ContributionRecord, Group, GroupState, GroupStatus,
    InsuranceClaim, InsuranceConfig, PayoutRecord, RefundReason, RefundRecord, RefundRequest,
    VOTING_PERIOD,
};
use crate::wellformed::{lemma_empty_wf, lemma_same_records, wf};

verus! {

/// The Ajo contract: the store it keeps between operations.
pub struct AjoContract {
    pub store: Store,
}

impl View for AjoContract {
    type V = StoreView;

    open spec fn view(&self) -> StoreView {
        self.store@
    }
}

impl AjoContract {
    /// The store is well formed and its records agree with each other.
    pub open spec fn wf(&self) -> bool {
        self.store.inv() && wf(self.store@)
    }

    /// A contract with nothing stored, no administrator, not paused.
    pub fn new() -> (c: AjoContract)
        ensures
            c.wf(),
            c@ == StoreView::empty(),
    {
        proof {
            lemma_empty_wf();
        }
        AjoContract { store: Store::new() }
    }

    /// The contract that keeps `store`, if the store is sound.
    pub fn from_store(store: Store) -> (r: Option<AjoContract>)
        ensures
            match r {
                Some(c) => c.store == store && c.wf(),
                None => !(store.inv() && wf(store@)),
            },
    {
        if sound::is_sound(&store) {
            Some(AjoContract { store })
        } else {
            None
        }
    }

    /// Initialize the contract with an administrator. This can be done once.
    pub fn initialize(&mut self, admin: Address) -> (r: Result<(), AjoError>)
        requires
            old(self).wf(),
        ensures
            final(self).wf(),
            match r {
                Ok(_) => old(self)@.admin is None && final(self)@ == (StoreView {
                    admin: Some(admin),
                    ..old(self)@
                }),
                Err(e) => old(self)@.admin is Some && e == AjoError::AlreadyInitialized
                    && final(self)@ == old(self)@,
            },
    {
        if self.store.get_admin().is_some() {
            return Err(AjoError::AlreadyInitialized);
        }
        self.store.store_admin(admin);
        proof {
            lemma_same_records(old(self)@, self@);
        }
        Ok(())
    }

    /// Decides whether `caller` may replace the contract's code: only the administrator may.
    pub fn upgrade(&self, caller: Address) -> (r: Result<(), AjoError>)
        ensures
            r == (if is_admin(self@, caller) {
                Ok::<(), AjoError>(())
            } else {
                Err(AjoError::Unauthorized)
            }),
    {
        if pausable::check_admin(&self.store, &caller) {
            Ok(())
        } else {
            Err(AjoError::Unauthorized)
        }
    }

    /// Pause the contract: state-changing operations are refused until it is unpaused.
    pub fn pause(&mut self, caller: Address) -> (r: Result<(), AjoError>)
        requires
            old(self).wf(),
        ensures
            final(self).wf(),
            match r {
                Ok(_) => is_admin(old(self)@, caller) && final(self)@ == (StoreView {
                    paused: true,
                    ..old(self)@
                }),
                Err(e) => !is_admin(old(self)@, caller) && e == AjoError::UnauthorizedPause
                    && final(self)@ == old(self)@,
            },
    {
        pausable::pause(&mut self.store, &caller)
    }

    /// Unpause the contract.
    pub fn unpause(&mut self, caller: Address) -> (r: Result<(), AjoError>)
        requires
            old(self).wf(),
        ensures
            final(self).wf(),
            match r {
                Ok(_) => is_admin(old(self)@, caller) && final(self)@ == (StoreView {
                    paused: false,
                    ..old(self)@
                }),
                Err(e) => !is_admin(old(self)@, caller) && e == AjoError::UnauthorizedUnpause
                    && final(self)@ == old(self)@,
            },
    {
        pausable::unpause(&mut self.store, &caller)
    }

    /// Create a new group at time `now`.
    ///
    /// The parameters are validated first; the contract must not be paused.
    /// The creator becomes the first member, and the new group's id is returned.
    pub fn create_group(
        &mut self,
        creator: Address,
        token: Address,
        contribution_amount: i128,
        cycle_duration: u64,
        max_members: u32,
        grace_period: u64,
        penalty_rate: u32,
        now: u64,
    ) -> (r: Result<u64, AjoError>)
        requires
            old(self).wf(),
            create_group_refusal(old(self)@, contribution_amount, cycle_duration, max_members)
                is None ==> old(self)@.groups.len() < u64::MAX,
        ensures
            final(self).wf(),
            match r {
                Ok(id) => {
                    &&& create_group_refusal(
                        old(self)@,
                        contribution_amount,
                        cycle_duration,
                        max_members,
                    ) is None
                    &&& id == old(self)@.groups.len() + 1
                    &&& final(self)@ == create_group_next(
                        old(self)@,
                        creator,
                        token,
                        contribution_amount,
                        cycle_duration,
                        max_members,
                        grace_period,
                        penalty_rate,
                        now,
                    )
                },
                Err(e) => {
                    &&& create_group_refusal(
                        old(self)@,
                        contribution_amount,
                        cycle_duration,
                        max_members,
                    ) == Some(e)
                    &&& final(self)@ == old(self)@
                },
            },
    {
        match validate_group_params(contribution_amount, cycle_duration, max_members) {
            Err(e) => {
                return Err(e);
            },
            Ok(_) => {},
        }
        if self.store.is_paused() {
            return Err(AjoError::ContractPaused);
        }
        let group_id = self.store.get_next_group_id();
        let mut members: Vec<Address> = Vec::new();
        members.push(creator);
        let group = Group {
            contribution_amount,
            creator,
            token_address: token,
            members,
            id: group_id,
            cycle_duration,
            created_at: now,
            cycle_start_time: now,
            max_members,
            current_cycle: 1,
            payout_index: 0,
            is_complete: false,
            grace_period,
            penalty_rate,
            state: GroupState::Active,
            insurance_config: InsuranceConfig { rate_bps: 0, is_enabled: false },
        };
        proof {
            assert(group@.members =~= seq![creator]);
            theorem_create_group_keeps_sound(
                old(self)@,
                creator,
                token,
                contribution_amount,
                cycle_duration,
                max_members,
                grace_period,
                penalty_rate,
                now,
            );
        }
        self.store.store_group(group);
        Ok(group_id)
    }

    /// Join an existing group: `member` is added at the end of the rotation.
    pub fn join_group(&mut self, member: Address, group_id: u64) -> (r: Result<(), AjoError>)
        requires
            old(self).wf(),
        ensures
            final(self).wf(),
            match r {
                Ok(_) => {
                    &&& join_group_refusal(old(self)@, member, group_id) is None
                    &&& final(self)@ == join_group_next(old(self)@, member, group_id)
                },
                Err(e) => {
                    &&& join_group_refusal(old(self)@, member, group_id) == Some(e)
                    &&& final(self)@ == old(self)@
                },
            },
    {
        if self.store.is_paused() {
            return Err(AjoError::ContractPaused);
        }
        let mut group = match self.store.get_group(group_id) {
            Some(g) => g,
            None => {
                return Err(AjoError::GroupNotFound);
            },
        };
        if !is_active(&group) {
            return Err(AjoError::GroupComplete);
        }
        if is_member(&group.members, &member) {
            return Err(AjoError::AlreadyMember);
        }
        if group.members.len() >= group.max_members as usize {
            return Err(AjoError::MaxMembersExceeded);
        }
        group.members.push(member);
        proof {
            assert(group@ == group_joined(old(self)@.group(group_id), member));
            theorem_join_group_keeps_sound(old(self)@, member, group_id);
        }
        self.store.store_group(group);
        Ok(())
    }

    /// Whether the insurance pool can take the premium of a contribution to
    /// the group: what [`AjoContract::contribute`] asks of its caller.
    pub fn can_contribute(&self, group_id: u64) -> (r: bool)
        requires
            self.wf(),
        ensures
            r == contribute_fits(self@, group_id),
    {
        match self.store.get_group(group_id) {
            None => true,
            Some(group) => {
                if !group.insurance_config.is_enabled {
                    return true;
                }
                proof {
                    lemma_group_in_place(self@, group_id);
                    lemma_share_bound(
                        group.contribution_amount,
                        group.insurance_config.rate_bps,
                        10000,
                    );
                    lemma_product_bound(
                        group.contribution_amount,
                        group.insurance_config.rate_bps,
                        crate::security::limits::MAX_CONTRIBUTION as int,
                    );
                }
                let premium = calculate_premium(
                    group.contribution_amount,
                    group.insurance_config.rate_bps,
                );
                can_deposit(&self.store, &group.token_address, premium)
            },
        }
    }

    /// Contribute to the current cycle of a group at time `now`.
    ///
    /// A contribution after the end of the cycle is late and carries the
    /// group's penalty; one after the grace period is refused. Where the
    /// group is insured, the premium goes to the insurance pool of its token.
    /// Returns what the contribution comes to: the record made, what the
    /// member owes, the premium, and what is credited to the group.
    pub fn contribute(&mut self, member: Address, group_id: u64, now: u64) -> (r: Result<
        ContributionReceipt,
        AjoError,
    >)
        requires
            old(self).wf(),
            contribute_refusal(old(self)@, member, group_id, now) is None ==> contribute_fits(
                old(self)@,
                group_id,
            ),
        ensures
            final(self).wf(),
            match r {
                Ok(receipt) => {
                    &&& contribute_refusal(old(self)@, member, group_id, now) is None
                    &&& receipt == receipt_made(old(self)@.group(group_id), member, now)
                    &&& final(self)@ == contribute_next(old(self)@, member, group_id, now)
                },
                Err(e) => {
                    &&& contribute_refusal(old(self)@, member, group_id, now) == Some(e)
                    &&& final(self)@ == old(self)@
                },
            },
    {
        if self.store.is_paused() {
            return Err(AjoError::ContractPaused);
        }
        let group = match self.store.get_group(group_id) {
            Some(g) => g,
            None => {
                return Err(AjoError::GroupNotFound);
            },
        };
        if !is_active(&group) {
            return Err(AjoError::GroupComplete);
        }
        if !is_member(&group.members, &member) {
            return Err(AjoError::NotMember);
        }
        if self.store.has_contributed(group_id, group.current_cycle, &member) {
            return Err(AjoError::AlreadyContributed);
        }
        let is_late = match classify(&group, now) {
            Timeliness::Expired => {
                return Err(AjoError::GracePeriodExpired);
            },
            Timeliness::Late => true,
            Timeliness::OnTime => false,
        };
        proof {
            lemma_contribute_steps(old(self)@, member, group_id, now);
        }
        let penalty: i128 = if is_late {
            calculate_penalty(group.contribution_amount, group.penalty_rate)
        } else {
            0
        };
        let record = ContributionRecord {
            group_id,
            cycle: group.current_cycle,
            member,
            amount: group.contribution_amount,
            timestamp: now,
            is_late,
            penalty_amount: penalty,
        };
        let prev = self.store.get_penalty_record(group_id, &member);
        let stats = update_penalty_record(prev, group_id, member, is_late, penalty);
        self.store.store_contribution(record);
        self.store.store_penalty_record(stats);
        let premium: i128 = if group.insurance_config.is_enabled {
            calculate_premium(group.contribution_amount, group.insurance_config.rate_bps)
        } else {
            0
        };
        if group.insurance_config.is_enabled {
            deposit_to_pool(&mut self.store, &group.token_address, premium);
        }
        Ok(
            ContributionReceipt {
                record,
                amount_due: group.contribution_amount + penalty,
                premium,
                credited: group.contribution_amount - premium,
            },
        )
    }

    /// Execute the payout of the current cycle of a group at time `now`.
    ///
    /// Every member must have contributed. The member whose turn it is
    /// receives the pooled contributions and the penalties of the cycle.
    /// The group then moves to the next cycle, or is complete once every
    /// member has been paid. Returns the record made.
    pub fn execute_payout(&mut self, group_id: u64, now: u64) -> (r: Result<PayoutRecord, AjoError>)
        requires
            old(self).wf(),
        ensures
            final(self).wf(),
            match r {
                Ok(record) => {
                    &&& execute_payout_refusal(old(self)@, group_id) is None
                    &&& record == payout_made(old(self)@, old(self)@.group(group_id), now)
                    &&& final(self)@ == execute_payout_next(old(self)@, group_id, now)
                },
                Err(e) => {
                    &&& execute_payout_refusal(old(self)@, group_id) == Some(e)
                    &&& e != AjoError::NoMembers
                    &&& final(self)@ == old(self)@
                },
            },
    {
        if self.store.is_paused() {
            return Err(AjoError::ContractPaused);
        }
        let mut group = match self.store.get_group(group_id) {
            Some(g) => g,
            None => {
                return Err(AjoError::GroupNotFound);
            },
        };
        if !is_active(&group) {
            return Err(AjoError::GroupComplete);
        }
        if !all_members_contributed(&self.store, &group) {
            return Err(AjoError::IncompleteContributions);
        }
        let ghost s0 = old(self)@;
        let ghost g = s0.group(group_id);
        let member_count = group.members.len();
        if group.payout_index as usize >= member_count {
            return Err(AjoError::NoMembers);
        }
        let recipient = group.members[group.payout_index as usize];
        let pool = cycle_penalty_pool(&self.store, &group);
        assert(group.contribution_amount * member_count <= 100 * crate::security::limits::MAX_CONTRIBUTION
            && group.contribution_amount * member_count >= 0) by (nonlinear_arith)
            requires
                0 <= group.contribution_amount <= crate::security::limits::MAX_CONTRIBUTION,
                0 <= member_count <= 100,
        ;
        assert(member_count * penalty_cap() <= 100 * penalty_cap()) by (nonlinear_arith)
            requires
                0 <= member_count <= 100,
                penalty_cap() >= 0,
        ;
        let amount: i128 = group.contribution_amount * (member_count as i128) + pool;
        let record = PayoutRecord { group_id, member: recipient, amount, timestamp: now };
        group.payout_index = group.payout_index + 1;
        if group.payout_index as usize >= member_count {
            group.is_complete = true;
            group.state = GroupState::Complete;
        } else {
            group.current_cycle = group.current_cycle + 1;
            group.cycle_start_time = now;
        }
        proof {
            assert(group@ == group_paid(g, now));
            theorem_execute_payout_keeps_sound(s0, group_id, now);
        }
        self.store.store_group(group);
        self.store.mark_payout_received(record);
        Ok(record)
    }

    /// Get group information.
    pub fn get_group(&self, group_id: u64) -> (r: Result<Group, AjoError>)
        ensures
            match r {
                Ok(g) => self@.has_group(group_id) && g@ == self@.group(group_id),
                Err(e) => !self@.has_group(group_id) && e == AjoError::GroupNotFound,
            },
    {
        match self.store.get_group(group_id) {
            Some(g) => Ok(g),
            None => Err(AjoError::GroupNotFound),
        }
    }

    /// Get the members of a group, in join order.
    pub fn list_members(&self, group_id: u64) -> (r: Result<Vec<Address>, AjoError>)
        ensures
            match r {
                Ok(m) => self@.has_group(group_id) && m@ == self@.group(group_id).members,
                Err(e) => !self@.has_group(group_id) && e == AjoError::GroupNotFound,
            },
    {
        match self.store.get_group(group_id) {
            Some(g) => Ok(g.members),
            None => Err(AjoError::GroupNotFound),
        }
    }

    /// Check if an address is a member of a group.
    pub fn is_member(&self, group_id: u64, address: Address) -> (r: Result<bool, AjoError>)
        ensures
            match r {
                Ok(b) => self@.has_group(group_id) && b == self@.group(group_id).members.contains(
                    address,
                ),
                Err(e) => !self@.has_group(group_id) && e == AjoError::GroupNotFound,
            },
    {
        match self.store.get_group(group_id) {
            Some(g) => Ok(is_member(&g.members, &address)),
            None => Err(AjoError::GroupNotFound),
        }
    }

    /// For each member of a group, in member order, whether the member
    /// contributed in the given cycle.
    pub fn get_contribution_status(&self, group_id: u64, cycle_number: u32) -> (r: Result<
        Vec<(Address, bool)>,
        AjoError,
    >)
        requires
            self.store.inv(),
        ensures
            match r {
                Ok(v) => self@.has_group(group_id) && v@ == cycle_contributions(
                    self@,
                    group_id,
                    cycle_number,
                    self@.group(group_id).members,
                ),
                Err(e) => !self@.has_group(group_id) && e == AjoError::GroupNotFound,
            },
    {
        match self.store.get_group(group_id) {
            Some(g) => Ok(self.store.get_cycle_contributions(group_id, cycle_number, &g.members)),
            None => Err(AjoError::GroupNotFound),
        }
    }

    /// Check if a group has completed all cycles.
    pub fn is_complete(&self, group_id: u64) -> (r: Result<bool, AjoError>)
        ensures
            match r {
                Ok(b) => self@.has_group(group_id) && b == self@.group(group_id).is_complete,
                Err(e) => !self@.has_group(group_id) && e == AjoError::GroupNotFound,
            },
    {
        match self.store.get_group(group_id) {
            Some(g) => Ok(g.is_complete),
            None => Err(AjoError::GroupNotFound),
        }
    }

    /// Whether the end of the group's cycle and of its grace period can be
    /// told: what [`AjoContract::get_group_status`] asks of its caller.
    pub fn has_status(&self, group_id: u64) -> (r: bool)
        ensures
            r == (self@.has_group(group_id) ==> status_fits(self@.group(group_id))),
    {
        match self.store.get_group(group_id) {
            None => true,
            Some(group) => group.cycle_start_time as u128 + group.cycle_duration as u128
                + group.grace_period as u128 <= u64::MAX as u128,
        }
    }

    /// Get the status of a group at time `now`.
    pub fn get_group_status(&self, group_id: u64, now: u64) -> (r: Result<GroupStatus, AjoError>)
        requires
            self.wf(),
            self@.has_group(group_id) ==> status_fits(self@.group(group_id)),
        ensures
            match r {
                Ok(status) => self@.has_group(group_id) && status@ == group_status(
                    self@,
                    self@.group(group_id),
                    now,
                ),
                Err(e) => !self@.has_group(group_id) && e == AjoError::GroupNotFound,
            },
    {
        let group = match self.store.get_group(group_id) {
            Some(g) => g,
            None => {
                return Err(AjoError::GroupNotFound);
            },
        };
        let ghost g = self@.group(group_id);
        let ghost paid = |m: Address| self@.has_contributed(g.id, g.current_cycle, m);
        let ghost unpaid = |m: Address| !self@.has_contributed(g.id, g.current_cycle, m);
        let cycle_end_time = group.cycle_start_time + group.cycle_duration;
        let grace_period_end_time = cycle_end_time + group.grace_period;
        let mut contributions_received: u32 = 0;
        let mut pending: Vec<Address> = Vec::new();
        let mut i: usize = 0;
        assert(group.members@.subrange(0, 0) =~= Seq::<Address>::empty());
        assert(Seq::<Address>::empty().filter(paid) =~= Seq::<Address>::empty()) by {
            reveal(Seq::filter);
        }
        assert(Seq::<Address>::empty().filter(unpaid) =~= Seq::<Address>::empty()) by {
            reveal(Seq::filter);
        }
        while i < group.members.len()
            invariant
                self.store.inv(),
                group@ == g,
                g.id == group_id,
                group.members.len() <= 100,
                0 <= i <= group.members.len(),
                paid == (|m: Address| self@.has_contributed(g.id, g.current_cycle, m)),
                unpaid == (|m: Address| !self@.has_contributed(g.id, g.current_cycle, m)),
                contributions_received == group.members@.subrange(0, i as int).filter(paid).len(),
                contributions_received <= i,
                pending@ == group.members@.subrange(0, i as int).filter(unpaid),
            decreases group.members.len() - i,
        {
            let m = group.members[i];
            proof {
                let prefix = group.members@.subrange(0, i as int);
                assert(prefix.push(m) =~= group.members@.subrange(0, i + 1));
                prefix.lemma_filter_push(m, paid);
                prefix.lemma_filter_push(m, unpaid);
            }
            if self.store.has_contributed(group_id, group.current_cycle, &m) {
                contributions_received = contributions_received + 1;
            } else {
                pending.push(m);
            }
            i += 1;
        }
        assert(group.members@.subrange(0, group.members.len() as int) =~= group.members@);
        let complete = match group.state {
            GroupState::Complete => true,
            _ => false,
        };
        let next_recipient = if !complete && (group.payout_index as usize) < group.members.len() {
            group.members[group.payout_index as usize]
        } else {
            group.creator
        };
        let cycle_penalty_pool = cycle_penalty_pool(&self.store, &group);
        Ok(
            GroupStatus {
                group_id: group.id,
                current_cycle: group.current_cycle,
                has_next_recipient: !complete,
                next_recipient,
                contributions_received,
                total_members: group.members.len() as u32,
                pending_contributors: pending,
                is_complete: group.is_complete,
                is_cycle_active: now < cycle_end_time,
                cycle_start_time: group.cycle_start_time,
                cycle_end_time,
                current_time: now,
                cycle_penalty_pool,
                is_in_grace_period: cycle_end_time <= now && now < grace_period_end_time,
                grace_period_end_time,
            },
        )
    }

    /// Set the insurance terms of a group: whether a premium is taken from
    /// each contribution, and at which rate. Only the creator may do so.
    pub fn set_insurance_config(&mut self, caller: Address, group_id: u64, config: InsuranceConfig)
        -> (r: Result<(), AjoError>)
        requires
            old(self).wf(),
        ensures
            final(self).wf(),
            match r {
                Ok(_) => {
                    &&& set_insurance_config_refusal(old(self)@, caller, group_id) is None
                    &&& final(self)@ == set_insurance_config_next(old(self)@, group_id, config)
                },
                Err(e) => {
                    &&& set_insurance_config_refusal(old(self)@, caller, group_id) == Some(e)
                    &&& final(self)@ == old(self)@
                },
            },
    {
        if self.store.is_paused() {
            return Err(AjoError::ContractPaused);
        }
        let mut group = match self.store.get_group(group_id) {
            Some(g) => g,
            None => {
                return Err(AjoError::GroupNotFound);
            },
        };
        if group.creator != caller {
            return Err(AjoError::Unauthorized);
        }
        if !is_active(&group) {
            return Err(AjoError::GroupComplete);
        }
        group.insurance_config = config;
        proof {
            theorem_set_insurance_config_keeps_sound(old(self)@, caller, group_id, config);
        }
        self.store.store_group(group);
        Ok(())
    }

    /// Cancel a group before its first payout, on behalf of its creator.
    /// Returns the refunds owed: the contributions of the current cycle.
    pub fn cancel_group(&mut self, creator: Address, group_id: u64, now: u64) -> (r: Result<
        Vec<RefundRecord>,
        AjoError,
    >)
        requires
            old(self).wf(),
        ensures
            final(self).wf(),
            match r {
                Ok(refunds) => {
                    &&& gated(old(self)@, cancel_group_refusal(old(self)@, creator, group_id))
                        is None
                    &&& refunds@ == refunds_due(
                        old(self)@,
                        old(self)@.group(group_id),
                        now,
                        RefundReason::CreatorCancellation,
                    )
                    &&& final(self)@ == cancel_group_next(old(self)@, group_id)
                },
                Err(e) => {
                    &&& gated(old(self)@, cancel_group_refusal(old(self)@, creator, group_id))
                        == Some(e)
                    &&& final(self)@ == old(self)@
                },
            },
    {
        if self.store.is_paused() {
            return Err(AjoError::ContractPaused);
        }
        refund::cancel_group(&mut self.store, creator, group_id, now)
    }

    /// Open a refund request for a group, on behalf of one of its members.
    pub fn request_refund(&mut self, requester: Address, group_id: u64, now: u64) -> (r: Result<
        RefundRequest,
        AjoError,
    >)
        requires
            old(self).wf(),
            gated(old(self)@, request_refund_refusal(old(self)@, requester, group_id)) is None
                ==> now + VOTING_PERIOD <= u64::MAX,
        ensures
            final(self).wf(),
            match r {
                Ok(request) => {
                    &&& gated(
                        old(self)@,
                        request_refund_refusal(old(self)@, requester, group_id),
                    ) is None
                    &&& request == request_opened(requester, group_id, now)
                    &&& final(self)@ == old(self)@.put_refund_request(request)
                },
                Err(e) => {
                    &&& gated(
                        old(self)@,
                        request_refund_refusal(old(self)@, requester, group_id),
                    ) == Some(e)
                    &&& final(self)@ == old(self)@
                },
            },
    {
        if self.store.is_paused() {
            return Err(AjoError::ContractPaused);
        }
        refund::request_refund(&mut self.store, requester, group_id, now)
    }

    /// Vote on the refund request of a group, on behalf of one of its members.
    pub fn vote_refund(&mut self, voter: Address, group_id: u64, in_favor: bool, now: u64) -> (r:
        Result<RefundRequest, AjoError>)
        requires
            old(self).wf(),
        ensures
            final(self).wf(),
            match r {
                Ok(request) => {
                    &&& gated(
                        old(self)@,
                        vote_refund_refusal(old(self)@, voter, group_id, now),
                    ) is None
                    &&& request == request_voted(old(self)@.refund_requests[group_id], in_favor)
                    &&& final(self)@ == vote_refund_next(
                        old(self)@,
                        voter,
                        group_id,
                        in_favor,
                        now,
                    )
                },
                Err(e) => {
                    &&& gated(
                        old(self)@,
                        vote_refund_refusal(old(self)@, voter, group_id, now),
                    ) == Some(e)
                    &&& final(self)@ == old(self)@
                },
            },
    {
        if self.store.is_paused() {
            return Err(AjoError::ContractPaused);
        }
        refund::vote_refund(&mut self.store, voter, group_id, in_favor, now)
    }

    /// Resolve the refund request of a group, after the voting deadline or
    /// once all members have voted. Returns whether it was approved, and the
    /// refunds owed if it was.
    pub fn execute_refund(&mut self, group_id: u64, now: u64) -> (r: Result<
        (bool, Vec<RefundRecord>),
        AjoError,
    >)
        requires
            old(self).wf(),
        ensures
            final(self).wf(),
            match r {
                Ok((approved, refunds)) => {
                    &&& gated(old(self)@, execute_refund_refusal(old(self)@, group_id, now))
                        is None
                    &&& approved == refund_approved(old(self)@, group_id)
                    &&& refunds@ == (if approved {
                        refunds_due(
                            old(self)@,
                            old(self)@.group(group_id),
                            now,
                            RefundReason::MemberVote,
                        )
                    } else {
                        Seq::<RefundRecord>::empty()
                    })
                    &&& final(self)@ == execute_refund_next(old(self)@, group_id)
                },
                Err(e) => {
                    &&& gated(old(self)@, execute_refund_refusal(old(self)@, group_id, now))
                        == Some(e)
                    &&& final(self)@ == old(self)@
                },
            },
    {
        if self.store.is_paused() {
            return Err(AjoError::ContractPaused);
        }
        refund::execute_refund(&mut self.store, group_id, now)
    }

    /// Add funds to the insurance pool of a token.
    pub fn deposit_to_pool(&mut self, token: Address, amount: i128) -> (r: Result<(), AjoError>)
        requires
            old(self).wf(),
            !old(self)@.paused ==> deposit_fits(old(self)@, token, amount),
        ensures
            final(self).wf(),
            match r {
                Ok(_) => !old(self)@.paused && final(self)@ == deposited(old(self)@, token, amount),
                Err(e) => old(self)@.paused && e == AjoError::ContractPaused && final(self)@
                    == old(self)@,
            },
    {
        if self.store.is_paused() {
            return Err(AjoError::ContractPaused);
        }
        deposit_to_pool(&mut self.store, &token, amount);
        Ok(())
    }

    /// File a claim against the insurance pool of a group's token, at time `now`.
    /// Returns the id of the claim.
    pub fn file_claim(
        &mut self,
        group_id: u64,
        cycle: u32,
        claimant: Address,
        defaulter: Address,
        amount: i128,
        now: u64,
    ) -> (r: Result<u64, AjoError>)
        requires
            old(self).wf(),
            !old(self)@.paused ==> file_claim_fits(old(self)@, group_id),
        ensures
            final(self).wf(),
            match r {
                Ok(id) => {
                    &&& gated(old(self)@, file_claim_refusal(old(self)@, group_id)) is None
                    &&& id == old(self)@.claims.len() + 1
                    &&& final(self)@ == file_claim_next(
                        old(self)@,
                        claim_filed(old(self)@, group_id, cycle, claimant, defaulter, amount, now),
                    )
                },
                Err(e) => {
                    &&& gated(old(self)@, file_claim_refusal(old(self)@, group_id)) == Some(e)
                    &&& final(self)@ == old(self)@
                },
            },
    {
        if self.store.is_paused() {
            return Err(AjoError::ContractPaused);
        }
        insurance::file_claim(&mut self.store, group_id, cycle, claimant, defaulter, amount, now)
    }

    /// Whether a claim holds: whether its defaulter did not contribute in its cycle.
    pub fn verify_claim(&self, claim_id: u64) -> (r: Result<bool, AjoError>)
        requires
            self.wf(),
        ensures
            r == (if self@.has_claim(claim_id) {
                Ok::<bool, AjoError>(claim_valid(self@, claim_id))
            } else {
                Err(AjoError::InvalidClaim)
            }),
    {
        insurance::verify_claim(&self.store, claim_id)
    }

    /// Process a pending claim: pay it from the pool if approved, reject it if not.
    /// Returns the claim as it is after processing.
    pub fn process_claim(&mut self, claim_id: u64, approved: bool) -> (r: Result<
        InsuranceClaim,
        AjoError,
    >)
        requires
            old(self).wf(),
            !old(self)@.paused ==> process_claim_fits(old(self)@, claim_id, approved),
        ensures
            final(self).wf(),
            match r {
                Ok(c) => {
                    &&& gated(old(self)@, process_claim_refusal(old(self)@, claim_id, approved))
                        is None
                    &&& c == claim_processed(old(self)@.claim(claim_id), approved)
                    &&& final(self)@ == process_claim_next(old(self)@, claim_id, approved)
                },
                Err(e) => {
                    &&& gated(old(self)@, process_claim_refusal(old(self)@, claim_id, approved))
                        == Some(e)
                    &&& final(self)@ == old(self)@
                },
            },
    {
        if self.store.is_paused() {
            return Err(AjoError::ContractPaused);
        }
        insurance::process_claim(&mut self.store, claim_id, approved)
    }

    /// Verify a claim and process it: approved if it holds, rejected if not.
    pub fn auto_process_claim(&mut self, claim_id: u64) -> (r: Result<InsuranceClaim, AjoError>)
        requires
            old(self).wf(),
            !old(self)@.paused && old(self)@.has_claim(claim_id) ==> process_claim_fits(
                old(self)@,
                claim_id,
                claim_valid(old(self)@, claim_id),
            ),
        ensures
            final(self).wf(),
            match r {
                Ok(c) => {
                    let approved = claim_valid(old(self)@, claim_id);
                    &&& gated(old(self)@, process_claim_refusal(old(self)@, claim_id, approved))
                        is None
                    &&& c == claim_processed(old(self)@.claim(claim_id), approved)
                    &&& final(self)@ == process_claim_next(old(self)@, claim_id, approved)
                },
                Err(e) => {
                    &&& gated(
                        old(self)@,
                        process_claim_refusal(
                            old(self)@,
                            claim_id,
                            claim_valid(old(self)@, claim_id),
                        ),
                    ) == Some(e)
                    &&& final(self)@ == old(self)@
                },
            },
    {
        if self.store.is_paused() {
            return Err(AjoError::ContractPaused);
        }
        insurance::auto_process_claim(&mut self.store, claim_id)
    }
}

} // verus!
