//! The life of a group: creation, joining, contributions, payouts, completion.

use soroban_ajo::contract::AjoContract;
use soroban_ajo::errors::AjoError;
use soroban_ajo::penalty::{
    calculate_penalty, classify, reliability_score, update_penalty_record, Timeliness,
};
use soroban_ajo::security::{
    all_members_contributed, audit_group_security, calculate_payout_amount,
    check_transaction_pattern, count_contributions, is_active, is_cycle_active, is_member,
    validate_group_params, validate_metadata, validate_metadata_lengths, validate_payout,
};
use soroban_ajo::sound::is_sound;
use soroban_ajo::storage::Store;
use soroban_ajo::types::{
    Address, ContributionRecord, Group, GroupMetadata, GroupState, InsuranceConfig,
    MemberPenaltyRecord,
};

/// An address for the tests: a key of its kind that ends in the digits of `series` and `n`.
fn strkey(kind: u8, series: u128, n: u128) -> Address {
    let mut key = [b'A'; 56];
    key[0] = kind;
    let digits = format!("{}X{}", series, n);
    key[56 - digits.len()..].copy_from_slice(digits.as_bytes());
    Address::from_strkey(key)
}

/// The address of an account.
fn account_key(series: u128, n: u128) -> Address {
    strkey(b'G', series, n)
}

/// The address of a contract.
fn contract_key(series: u128, n: u128) -> Address {
    strkey(b'C', series, n)
}

const START: u64 = 1_700_000_000;
const WEEK: u64 = 604_800;
const DAY: u64 = 86_400;

fn a() -> Address {
    account_key(0, 1)
}

fn b() -> Address {
    account_key(0, 2)
}

fn c() -> Address {
    account_key(0, 3)
}

fn token() -> Address {
    contract_key(0, 500)
}

/// A contract with one group of A and B: 100_000_000 per cycle of a week,
/// a day of grace, 5 percent penalty.
fn two_member_group() -> (AjoContract, u64) {
    let mut contract = AjoContract::new();
    let id = contract.create_group(a(), token(), 100_000_000, WEEK, 2, DAY, 5, START).unwrap();
    contract.join_group(b(), id).unwrap();
    (contract, id)
}

fn rotation_holds(contract: &AjoContract, id: u64) {
    let g = contract.get_group(id).unwrap();
    assert!(g.payout_index as usize <= g.members.len());
    assert_eq!(g.state == GroupState::Complete, g.payout_index as usize == g.members.len());
    assert_eq!(g.is_complete, g.state == GroupState::Complete);
}

#[test]
fn create_group_starts_the_rotation() {
    let mut contract = AjoContract::new();
    let id = contract.create_group(a(), token(), 100_000_000, WEEK, 2, DAY, 5, START).unwrap();
    assert_eq!(id, 1);
    let g = contract.get_group(id).unwrap();
    assert_eq!(g.payout_index, 0);
    assert_eq!(g.current_cycle, 1);
    assert_eq!(g.state, GroupState::Active);
    assert_eq!(g.members, vec![a()]);
    assert_eq!(g.creator, a());
    assert_eq!(g.token_address, token());
    assert_eq!(g.contribution_amount, 100_000_000);
    assert_eq!(g.cycle_duration, WEEK);
    assert_eq!(g.grace_period, DAY);
    assert_eq!(g.penalty_rate, 5);
    assert_eq!(g.max_members, 2);
    assert_eq!(g.created_at, START);
    assert_eq!(g.cycle_start_time, START);
    assert!(!g.is_complete);
    assert_eq!(g.insurance_config, InsuranceConfig { rate_bps: 0, is_enabled: false });
}

#[test]
fn group_ids_count_up_from_one() {
    let mut contract = AjoContract::new();
    let first = contract.create_group(a(), token(), 100_000_000, WEEK, 2, DAY, 5, START).unwrap();
    let second = contract.create_group(b(), token(), 200_000_000, WEEK, 3, DAY, 5, START).unwrap();
    assert_eq!((first, second), (1, 2));
    assert_eq!(contract.get_group(2).unwrap().creator, b());
    assert_eq!(contract.get_group(3).err(), Some(AjoError::GroupNotFound));
    assert_eq!(contract.get_group(0).err(), Some(AjoError::GroupNotFound));
}

#[test]
fn a_refused_creation_stores_nothing() {
    let mut contract = AjoContract::new();
    let r = contract.create_group(a(), token(), 99_999, WEEK, 2, DAY, 5, START);
    assert_eq!(r, Err(AjoError::ContributionAmountZero));
    assert_eq!(contract.store.groups.len(), 0);
}

#[test]
fn validation_bounds_are_inclusive() {
    assert_eq!(validate_group_params(100_000, 3_600, 2), Ok(()));
    assert_eq!(validate_group_params(10_000_000_000_000_000, 31_536_000, 100), Ok(()));
    assert_eq!(validate_group_params(99_999, 3_600, 2), Err(AjoError::ContributionAmountZero));
    assert_eq!(
        validate_group_params(10_000_000_000_000_001, 3_600, 2),
        Err(AjoError::ContributionAmountNegative)
    );
    assert_eq!(validate_group_params(100_000, 3_599, 2), Err(AjoError::CycleDurationZero));
    assert_eq!(validate_group_params(100_000, 31_536_001, 2), Err(AjoError::CycleDurationZero));
    // the amount is judged before the duration, the duration before the members
    assert_eq!(validate_group_params(-1, 0, 0), Err(AjoError::ContributionAmountNegative));
    assert_eq!(validate_group_params(100_000, 0, 0), Err(AjoError::CycleDurationZero));
}

#[test]
fn metadata_bounds_are_inclusive() {
    assert_eq!(validate_metadata_lengths(100, 500, 1000), Ok(()));
    assert_eq!(validate_metadata_lengths(100, 501, 1000), Err(AjoError::MetadataTooLong));
    assert_eq!(validate_metadata_lengths(100, 500, 1001), Err(AjoError::MetadataTooLong));
    assert_eq!(validate_metadata_lengths(0, 0, 0), Ok(()));
}

#[test]
fn metadata_is_judged_by_the_lengths_of_its_fields() {
    let fits = GroupMetadata {
        name: vec![b'n'; 100],
        description: vec![b'd'; 500],
        rules: vec![b'r'; 1000],
    };
    assert_eq!(validate_metadata(&fits), Ok(()));
    let long_name = GroupMetadata { name: vec![b'n'; 101], description: vec![], rules: vec![] };
    assert_eq!(validate_metadata(&long_name), Err(AjoError::MetadataTooLong));
    let long_rules = GroupMetadata { name: vec![], description: vec![], rules: vec![b'r'; 1001] };
    assert_eq!(validate_metadata(&long_rules), Err(AjoError::MetadataTooLong));
}

#[test]
fn scenario_two_members_complete_the_rotation() {
    let (mut contract, id) = two_member_group();
    rotation_holds(&contract, id);

    contract.contribute(a(), id, START).unwrap();
    contract.contribute(b(), id, START).unwrap();
    let first = contract.execute_payout(id, START + 10).unwrap();
    assert_eq!(first.member, a());
    assert_eq!(first.amount, 200_000_000);
    assert_eq!(first.group_id, id);
    assert_eq!(first.timestamp, START + 10);
    let g = contract.get_group(id).unwrap();
    assert_eq!(g.current_cycle, 2);
    assert_eq!(g.payout_index, 1);
    assert_eq!(g.cycle_start_time, START + 10);
    assert_eq!(g.state, GroupState::Active);
    rotation_holds(&contract, id);

    contract.contribute(a(), id, START + 20).unwrap();
    contract.contribute(b(), id, START + 20).unwrap();
    let second = contract.execute_payout(id, START + 30).unwrap();
    assert_eq!(second.member, b());
    assert_eq!(second.amount, 200_000_000);
    let g = contract.get_group(id).unwrap();
    assert_eq!(g.payout_index, 2);
    assert_eq!(g.state, GroupState::Complete);
    assert!(g.is_complete);
    assert_eq!(g.current_cycle, 2);
    assert_eq!(contract.is_complete(id), Ok(true));
    rotation_holds(&contract, id);
}

#[test]
fn scenario_contribution_after_completion_is_refused() {
    let (mut contract, id) = two_member_group();
    for _ in 0..2 {
        contract.contribute(a(), id, START).unwrap();
        contract.contribute(b(), id, START).unwrap();
        contract.execute_payout(id, START).unwrap();
    }
    assert_eq!(contract.contribute(b(), id, START), Err(AjoError::GroupComplete));
}

#[test]
fn a_second_contribution_leaves_the_first_on_record() {
    let (mut contract, id) = two_member_group();
    let receipt = contract.contribute(a(), id, START + 5).unwrap();
    assert_eq!(receipt.amount_due, 100_000_000);
    assert_eq!(receipt.premium, 0);
    assert_eq!(receipt.credited, 100_000_000);
    let first = receipt.record;
    assert_eq!(
        first,
        ContributionRecord {
            group_id: id,
            cycle: 1,
            member: a(),
            amount: 100_000_000,
            timestamp: START + 5,
            is_late: false,
            penalty_amount: 0,
        }
    );
    let again = contract.contribute(a(), id, START + WEEK + 5);
    assert_eq!(again, Err(AjoError::AlreadyContributed));
    assert_eq!(contract.store.get_contribution(id, 1, &a()), Some(first));
    assert_eq!(contract.store.contributions.keys.len(), 1);
    let stats = contract.store.get_penalty_record(id, &a()).unwrap();
    assert_eq!((stats.on_time_count, stats.late_count), (1, 0));
}

#[test]
fn joining_is_refused_for_members_and_for_full_groups() {
    let (mut contract, id) = two_member_group();
    // full, and a stranger asks
    assert_eq!(contract.join_group(c(), id), Err(AjoError::MaxMembersExceeded));
    // full, and a member asks: the membership is what is reported
    assert_eq!(contract.join_group(a(), id), Err(AjoError::AlreadyMember));
    assert_eq!(contract.join_group(c(), 9), Err(AjoError::GroupNotFound));
    assert_eq!(contract.list_members(id).unwrap(), vec![a(), b()]);
    assert_eq!(contract.is_member(id, b()), Ok(true));
    assert_eq!(contract.is_member(id, c()), Ok(false));
    assert_eq!(contract.is_member(9, c()), Err(AjoError::GroupNotFound));
    assert_eq!(contract.list_members(9).err(), Some(AjoError::GroupNotFound));
    assert_eq!(contract.is_complete(9), Err(AjoError::GroupNotFound));
}

#[test]
fn join_order_is_payout_order() {
    let mut contract = AjoContract::new();
    let id = contract.create_group(c(), token(), 100_000, WEEK, 3, DAY, 0, START).unwrap();
    contract.join_group(a(), id).unwrap();
    contract.join_group(b(), id).unwrap();
    let order = [c(), a(), b()];
    for turn in 0..3 {
        for m in order.iter() {
            contract.contribute(*m, id, START).unwrap();
        }
        let paid = contract.execute_payout(id, START).unwrap();
        assert_eq!(paid.member, order[turn]);
        assert_eq!(paid.amount, 300_000);
        assert!(contract.store.has_received_payout(id, &order[turn]));
        rotation_holds(&contract, id);
    }
    assert_eq!(contract.is_complete(id), Ok(true));
}

#[test]
fn a_late_contribution_carries_the_penalty() {
    let (mut contract, id) = two_member_group();
    let end = START + WEEK;
    // at the end of the cycle: still on time
    let on_time = contract.contribute(a(), id, end).unwrap().record;
    assert!(!on_time.is_late);
    assert_eq!(on_time.penalty_amount, 0);
    // one second later: late, 5 percent of 100_000_000
    let late = contract.contribute(b(), id, end + 1).unwrap();
    assert!(late.record.is_late);
    assert_eq!(late.record.penalty_amount, 5_000_000);
    assert_eq!(late.record.amount, 100_000_000);
    assert_eq!(late.amount_due, 105_000_000);
    assert_eq!(late.credited, 100_000_000);
    // the penalties of the cycle go to the recipient
    let paid = contract.execute_payout(id, end + 2).unwrap();
    assert_eq!(paid.amount, 205_000_000);
    assert_eq!(paid.member, a());
    // and the next cycle starts without any
    contract.contribute(a(), id, end + 3).unwrap();
    contract.contribute(b(), id, end + 3).unwrap();
    assert_eq!(contract.execute_payout(id, end + 4).unwrap().amount, 200_000_000);
}

#[test]
fn the_grace_period_bounds_late_contributions() {
    let (mut contract, id) = two_member_group();
    let grace_end = START + WEEK + DAY;
    assert_eq!(contract.contribute(a(), id, grace_end + 1), Err(AjoError::GracePeriodExpired));
    let last = contract.contribute(a(), id, grace_end).unwrap().record;
    assert!(last.is_late);
    assert_eq!(last.penalty_amount, 5_000_000);
}

#[test]
fn classify_tells_the_three_windows_apart() {
    let (contract, id) = two_member_group();
    let g = contract.get_group(id).unwrap();
    assert_eq!(classify(&g, START), Timeliness::OnTime);
    assert_eq!(classify(&g, START + WEEK), Timeliness::OnTime);
    assert_eq!(classify(&g, START + WEEK + 1), Timeliness::Late);
    assert_eq!(classify(&g, START + WEEK + DAY), Timeliness::Late);
    assert_eq!(classify(&g, START + WEEK + DAY + 1), Timeliness::Expired);
    assert_eq!(classify(&g, u64::MAX), Timeliness::Expired);
    assert!(is_cycle_active(START + WEEK - 1, &g));
    assert!(!is_cycle_active(START + WEEK, &g));
}

#[test]
fn penalties_are_percentages_rounded_toward_zero() {
    assert_eq!(calculate_penalty(100_000_000, 5), 5_000_000);
    assert_eq!(calculate_penalty(199, 1), 1);
    assert_eq!(calculate_penalty(99, 1), 0);
    assert_eq!(calculate_penalty(100_000, 0), 0);
    assert_eq!(calculate_penalty(100_000, 250), 250_000);
    assert_eq!(calculate_penalty(-199, 1), -1);
}

#[test]
fn reliability_is_the_share_of_timely_contributions() {
    assert_eq!(reliability_score(0, 0), 100);
    assert_eq!(reliability_score(1, 0), 100);
    assert_eq!(reliability_score(1, 1), 50);
    assert_eq!(reliability_score(2, 1), 66);
    assert_eq!(reliability_score(0, 3), 0);
    assert_eq!(reliability_score(u32::MAX, u32::MAX), 50);
}

#[test]
fn the_penalty_record_counts_every_contribution() {
    let first = update_penalty_record(None, 4, a(), true, 700);
    assert_eq!(
        first,
        MemberPenaltyRecord {
            member: a(),
            group_id: 4,
            late_count: 1,
            on_time_count: 0,
            total_penalties: 700,
            reliability_score: 0,
        }
    );
    let second = update_penalty_record(Some(first), 4, a(), false, 0);
    assert_eq!((second.late_count, second.on_time_count), (1, 1));
    assert_eq!(second.total_penalties, 700);
    assert_eq!(second.reliability_score, 50);

    let (mut contract, id) = two_member_group();
    contract.contribute(a(), id, START).unwrap();
    contract.contribute(b(), id, START + WEEK + 1).unwrap();
    contract.execute_payout(id, START + WEEK + 2).unwrap();
    contract.contribute(b(), id, START + WEEK + 3).unwrap();
    let stats = contract.store.get_penalty_record(id, &b()).unwrap();
    assert_eq!((stats.late_count, stats.on_time_count), (1, 1));
    assert_eq!(stats.total_penalties, 5_000_000);
    assert_eq!(stats.reliability_score, 50);
    assert_eq!(contract.store.get_penalty_record(id, &c()), None);
}

#[test]
fn an_insured_group_pays_premiums_into_the_pool() {
    let (mut contract, id) = two_member_group();
    let config = InsuranceConfig { rate_bps: 100, is_enabled: true };
    assert_eq!(contract.set_insurance_config(b(), id, config), Err(AjoError::Unauthorized));
    assert_eq!(contract.set_insurance_config(a(), 9, config), Err(AjoError::GroupNotFound));
    contract.set_insurance_config(a(), id, config).unwrap();
    assert_eq!(contract.get_group(id).unwrap().insurance_config, config);
    assert_eq!(contract.store.get_insurance_pool(&token()), None);

    assert!(contract.can_contribute(id));
    let receipt = contract.contribute(a(), id, START).unwrap();
    assert_eq!(receipt.premium, 1_000_000);
    assert_eq!(receipt.credited, 99_000_000);
    assert_eq!(receipt.amount_due, 100_000_000);
    assert_eq!(receipt.record.amount, 100_000_000);
    let pool = contract.store.get_insurance_pool(&token()).unwrap();
    assert_eq!(pool.balance, 1_000_000);
    assert_eq!(pool.total_payouts, 0);
    assert_eq!(pool.pending_claims_count, 0);
    contract.contribute(b(), id, START).unwrap();
    assert_eq!(contract.store.get_insurance_pool(&token()).unwrap().balance, 2_000_000);
    // the payout is still the full amount from each member
    assert_eq!(contract.execute_payout(id, START).unwrap().amount, 200_000_000);
}

#[test]
fn the_status_shows_the_cycle_and_who_is_pending() {
    let (mut contract, id) = two_member_group();
    contract.contribute(b(), id, START + WEEK + 1).unwrap();
    let now = START + WEEK + 100;
    let status = contract.get_group_status(id, now).unwrap();
    assert_eq!(status.group_id, id);
    assert_eq!(status.current_cycle, 1);
    assert!(status.has_next_recipient);
    assert_eq!(status.next_recipient, a());
    assert_eq!(status.contributions_received, 1);
    assert_eq!(status.total_members, 2);
    assert_eq!(status.pending_contributors, vec![a()]);
    assert!(!status.is_complete);
    assert!(!status.is_cycle_active);
    assert_eq!(status.cycle_start_time, START);
    assert_eq!(status.cycle_end_time, START + WEEK);
    assert_eq!(status.current_time, now);
    assert_eq!(status.cycle_penalty_pool, 5_000_000);
    assert!(status.is_in_grace_period);
    assert_eq!(status.grace_period_end_time, START + WEEK + DAY);

    let early = contract.get_group_status(id, START + WEEK - 1).unwrap();
    assert!(early.is_cycle_active);
    assert!(!early.is_in_grace_period);
    let at_end = contract.get_group_status(id, START + WEEK).unwrap();
    assert!(!at_end.is_cycle_active);
    assert!(at_end.is_in_grace_period);
    let after = contract.get_group_status(id, START + WEEK + DAY).unwrap();
    assert!(!after.is_in_grace_period);
    assert_eq!(contract.get_group_status(9, now).err(), Some(AjoError::GroupNotFound));
}

#[test]
fn the_status_of_a_complete_group_names_the_creator_as_placeholder() {
    let (mut contract, id) = two_member_group();
    for _ in 0..2 {
        contract.contribute(a(), id, START).unwrap();
        contract.contribute(b(), id, START).unwrap();
        contract.execute_payout(id, START).unwrap();
    }
    let status = contract.get_group_status(id, START).unwrap();
    assert!(!status.has_next_recipient);
    assert_eq!(status.next_recipient, a());
    assert!(status.is_complete);
    assert_eq!(status.contributions_received, 2);
    assert_eq!(status.pending_contributors, Vec::<Address>::new());
}

#[test]
fn contribution_status_lists_members_in_order() {
    let (mut contract, id) = two_member_group();
    contract.contribute(b(), id, START).unwrap();
    assert_eq!(contract.get_contribution_status(id, 1), Ok(vec![(a(), false), (b(), true)]));
    assert_eq!(contract.get_contribution_status(id, 2), Ok(vec![(a(), false), (b(), false)]));
    assert_eq!(contract.get_contribution_status(9, 1), Err(AjoError::GroupNotFound));
}

#[test]
fn membership_and_contribution_checks() {
    let (mut contract, id) = two_member_group();
    let g = contract.get_group(id).unwrap();
    assert!(is_member(&g.members, &a()));
    assert!(!is_member(&g.members, &c()));
    assert!(!is_member(&Vec::new(), &a()));
    assert!(is_active(&g));
    assert!(!all_members_contributed(&contract.store, &g));
    contract.contribute(a(), id, START).unwrap();
    assert!(!all_members_contributed(&contract.store, &g));
    assert_eq!(count_contributions(&contract.store, id, 1, &g.members), 1);
    contract.contribute(b(), id, START).unwrap();
    assert!(all_members_contributed(&contract.store, &g));
    assert_eq!(count_contributions(&contract.store, id, 1, &g.members), 2);
    assert_eq!(count_contributions(&contract.store, id, 2, &g.members), 0);
    assert_eq!(calculate_payout_amount(&g), 200_000_000);
    assert!(check_transaction_pattern(&g));
}

#[test]
fn validate_payout_names_each_fault() {
    let (mut contract, id) = two_member_group();
    let g = contract.get_group(id).unwrap();
    assert_eq!(validate_payout(&contract.store, &g, &a()), Err(AjoError::IncompleteContributions));
    contract.contribute(a(), id, START).unwrap();
    contract.contribute(b(), id, START).unwrap();
    assert_eq!(validate_payout(&contract.store, &g, &c()), Err(AjoError::NotMember));
    assert_eq!(validate_payout(&contract.store, &g, &a()), Ok(()));
    contract.execute_payout(id, START).unwrap();
    contract.contribute(a(), id, START).unwrap();
    contract.contribute(b(), id, START).unwrap();
    let g = contract.get_group(id).unwrap();
    assert_eq!(validate_payout(&contract.store, &g, &a()), Err(AjoError::AlreadyReceivedPayout));
    assert_eq!(validate_payout(&contract.store, &g, &b()), Ok(()));
    contract.execute_payout(id, START).unwrap();
    let g = contract.get_group(id).unwrap();
    assert_eq!(validate_payout(&contract.store, &g, &b()), Err(AjoError::GroupComplete));
}

#[test]
fn the_audit_counts_what_was_expected_and_received() {
    let (mut contract, id) = two_member_group();
    let g = contract.get_group(id).unwrap();
    assert_eq!(audit_group_security(&contract.store, &g), (2, 0, 0, 1));
    contract.contribute(a(), id, START).unwrap();
    contract.contribute(b(), id, START).unwrap();
    assert_eq!(audit_group_security(&contract.store, &g), (2, 2, 0, 0));
    contract.execute_payout(id, START).unwrap();
    contract.contribute(a(), id, START).unwrap();
    let g = contract.get_group(id).unwrap();
    assert_eq!(audit_group_security(&contract.store, &g), (4, 3, 1, 1));
}

#[test]
fn the_audit_flags_a_broken_group() {
    let broken = Group {
        contribution_amount: 10_000_000_000_000_001,
        creator: a(),
        token_address: token(),
        members: vec![a()],
        id: 1,
        cycle_duration: WEEK,
        created_at: START,
        cycle_start_time: START,
        max_members: 2,
        current_cycle: 1,
        payout_index: 2,
        is_complete: false,
        grace_period: DAY,
        penalty_rate: 5,
        state: GroupState::Active,
        insurance_config: InsuranceConfig { rate_bps: 0, is_enabled: false },
    };
    assert!(!check_transaction_pattern(&broken));
    assert_eq!(audit_group_security(&Store::new(), &broken), (1, 0, 2, 7));
}

#[test]
fn a_group_without_members_has_nobody_to_pay() {
    let mut contract = AjoContract::new();
    contract.store.groups.push(Group {
        contribution_amount: 100_000,
        creator: a(),
        token_address: token(),
        members: Vec::new(),
        id: 1,
        cycle_duration: WEEK,
        created_at: START,
        cycle_start_time: START,
        max_members: 2,
        current_cycle: 1,
        payout_index: 0,
        is_complete: false,
        grace_period: DAY,
        penalty_rate: 5,
        state: GroupState::Active,
        insurance_config: InsuranceConfig { rate_bps: 0, is_enabled: false },
    });
    assert_eq!(contract.execute_payout(1, START), Err(AjoError::NoMembers));
}

#[test]
fn the_administrator_is_set_once() {
    let mut contract = AjoContract::new();
    assert_eq!(contract.upgrade(a()), Err(AjoError::Unauthorized));
    assert_eq!(contract.pause(a()), Err(AjoError::UnauthorizedPause));
    assert_eq!(contract.initialize(a()), Ok(()));
    assert_eq!(contract.initialize(b()), Err(AjoError::AlreadyInitialized));
    assert_eq!(contract.store.get_admin(), Some(a()));
    assert_eq!(contract.upgrade(a()), Ok(()));
    assert_eq!(contract.upgrade(b()), Err(AjoError::Unauthorized));
    assert_eq!(contract.pause(a()), Ok(()));
    assert!(contract.store.is_paused());
    assert_eq!(contract.unpause(a()), Ok(()));
    assert!(!contract.store.is_paused());
}

#[test]
fn a_joiner_takes_the_last_turn() {
    let mut contract = AjoContract::new();
    let id = contract.create_group(a(), token(), 100_000, WEEK, 3, DAY, 0, START).unwrap();
    contract.join_group(b(), id).unwrap();
    contract.contribute(a(), id, START).unwrap();
    contract.contribute(b(), id, START).unwrap();
    contract.execute_payout(id, START).unwrap();
    // C joins in the second cycle
    contract.join_group(c(), id).unwrap();
    rotation_holds(&contract, id);
    contract.contribute(a(), id, START).unwrap();
    contract.contribute(b(), id, START).unwrap();
    assert_eq!(contract.execute_payout(id, START), Err(AjoError::IncompleteContributions));
    contract.contribute(c(), id, START).unwrap();
    let second = contract.execute_payout(id, START).unwrap();
    assert_eq!((second.member, second.amount), (b(), 300_000));
    for m in [a(), b(), c()] {
        contract.contribute(m, id, START).unwrap();
    }
    assert_eq!(contract.execute_payout(id, START).unwrap().member, c());
    assert_eq!(contract.is_complete(id), Ok(true));
    rotation_holds(&contract, id);
}

#[test]
fn a_store_is_sound_only_if_its_records_agree() {
    let (mut contract, id) = two_member_group();
    contract.contribute(a(), id, START).unwrap();
    contract.contribute(b(), id, START + WEEK + 1).unwrap();
    contract.execute_payout(id, START).unwrap();
    assert!(is_sound(&contract.store));
    assert!(is_sound(&Store::new()));

    // a payout index past the members
    let mut broken = AjoContract::new();
    broken.store.groups.push(Group { payout_index: 3, ..contract.get_group(id).unwrap() });
    assert!(!is_sound(&broken.store));
    assert!(AjoContract::from_store(broken.store).is_none());

    // a member twice
    let mut twice = contract.get_group(id).unwrap();
    twice.members = vec![a(), a()];
    let mut broken = Store::new();
    broken.groups.push(twice);
    assert!(!is_sound(&broken));

    // a contribution by a stranger
    let mut broken = AjoContract::new();
    broken.store.groups.push(contract.get_group(id).unwrap());
    assert!(is_sound(&broken.store));
    broken.store.store_contribution(ContributionRecord {
        group_id: id,
        cycle: 1,
        member: c(),
        amount: 100_000_000,
        timestamp: START,
        is_late: false,
        penalty_amount: 0,
    });
    assert!(!is_sound(&broken.store));

    // a contribution of a member, with the wrong penalty
    let mut broken = AjoContract::new();
    broken.store.groups.push(contract.get_group(id).unwrap());
    let record = ContributionRecord {
        group_id: id,
        cycle: 1,
        member: a(),
        amount: 100_000_000,
        timestamp: START,
        is_late: true,
        penalty_amount: 5_000_000,
    };
    broken.store.store_contribution(record);
    assert!(is_sound(&broken.store));
    broken.store.store_contribution(ContributionRecord { penalty_amount: 1, ..record });
    assert!(!is_sound(&broken.store));

    // a store read back as it was is taken
    let kept = AjoContract::from_store(contract.store).unwrap();
    assert_eq!(kept.get_group(id).unwrap().payout_index, 1);
}
