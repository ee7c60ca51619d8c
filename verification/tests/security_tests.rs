//! Security-focused tests: access control, replayed operations, input
//! bounds, state manipulation, the emergency pause, and isolation of groups.

use soroban_ajo::contract::AjoContract;
use soroban_ajo::errors::AjoError;
use soroban_ajo::types::Address;

/// An address for the tests: a key of its kind that ends in the digits of `series` and `n`.
fn strkey(kind: u8, series: u128, n: u128) -> Address {
    let mut key = [b'A'; 56];
    key[0] = kind;
    let digits = format!("{}X{}", series, n);
    key[56 - digits.len()..].copy_from_slice(digits.as_bytes());
    Address::from_strkey(key)
}

/// The address of an account.
fn account_key(series: u128, n: u128) -> Address {
    strkey(b'G', series, n)
}

/// The address of a contract.
fn contract_key(series: u128, n: u128) -> Address {
    strkey(b'C', series, n)
}

/// The time at which the tests run.
const NOW: u64 = 1_700_000_000;

/// A contract with its administrator.
fn setup_test_env() -> (AjoContract, Address) {
    let mut contract = AjoContract::new();
    let admin = account_key(7, 0);
    contract.initialize(admin).unwrap();
    (contract, admin)
}

/// Distinct member addresses.
fn generate_addresses(count: usize) -> Vec<Address> {
    (0..count).map(|i| account_key(0, i as u128 + 1)).collect()
}

fn token() -> Address {
    contract_key(0, 500)
}

fn create_group(
    contract: &mut AjoContract,
    creator: &Address,
    contribution_amount: i128,
    cycle_duration: u64,
    max_members: u32,
) -> Result<u64, AjoError> {
    contract.create_group(
        *creator,
        token(),
        contribution_amount,
        cycle_duration,
        max_members,
        86_400,
        5,
        NOW,
    )
}

// ============================================================================
// Access Control Tests
// ============================================================================

#[test]
fn test_security_unauthorized_pause() {
    let (mut contract, _admin) = setup_test_env();
    let attacker = account_key(9, 9);

    // Attacker tries to pause without being admin
    let result = contract.pause(attacker);
    assert_eq!(result, Err(AjoError::UnauthorizedPause));
}

#[test]
fn test_security_unauthorized_unpause() {
    let (mut contract, admin) = setup_test_env();

    // Admin pauses
    contract.pause(admin).unwrap();

    // Attacker tries to unpause
    let attacker = account_key(9, 9);
    let result = contract.unpause(attacker);
    assert_eq!(result, Err(AjoError::UnauthorizedUnpause));
}

#[test]
fn test_security_unauthorized_upgrade() {
    let (contract, _admin) = setup_test_env();
    let attacker = account_key(9, 9);

    // The new code's hash plays no part in the decision
    let _fake_wasm = [0u8; 32];

    // Attacker tries to upgrade
    let result = contract.upgrade(attacker);
    assert_eq!(result, Err(AjoError::Unauthorized));
}

#[test]
fn test_security_non_member_contribution() {
    let (mut contract, _admin) = setup_test_env();
    let creator = account_key(0, 1);
    let attacker = account_key(9, 9);

    let group_id = create_group(&mut contract, &creator, 100_000_000i128, 604_800u64, 5u32).unwrap();

    // Attacker tries to contribute without being a member
    let result = contract.contribute(attacker, group_id, NOW);
    assert_eq!(result, Err(AjoError::NotMember));
}

// ============================================================================
// Double-Spend / Replay Attack Tests
// ============================================================================

#[test]
fn test_security_double_contribution_same_cycle() {
    let (mut contract, _admin) = setup_test_env();
    let members = generate_addresses(3);

    let group_id =
        create_group(&mut contract, &members[0], 100_000_000i128, 604_800u64, 3u32).unwrap();
    contract.join_group(members[1], group_id).unwrap();
    contract.join_group(members[2], group_id).unwrap();

    // First contribution succeeds
    contract.contribute(members[0], group_id, NOW).unwrap();

    // Second contribution from same member should fail
    let result = contract.contribute(members[0], group_id, NOW);
    assert_eq!(result, Err(AjoError::AlreadyContributed));
}

#[test]
fn test_security_double_payout_attempt() {
    let (mut contract, _admin) = setup_test_env();
    let members = generate_addresses(2);

    let group_id =
        create_group(&mut contract, &members[0], 100_000_000i128, 604_800u64, 2u32).unwrap();
    contract.join_group(members[1], group_id).unwrap();

    // Complete first cycle
    contract.contribute(members[0], group_id, NOW).unwrap();
    contract.contribute(members[1], group_id, NOW).unwrap();
    contract.execute_payout(group_id, NOW).unwrap();

    // Try to execute payout again without contributions
    let result = contract.execute_payout(group_id, NOW);
    assert_eq!(result, Err(AjoError::IncompleteContributions));
}

#[test]
fn test_security_join_after_already_member() {
    let (mut contract, _admin) = setup_test_env();
    let members = generate_addresses(2);

    let group_id =
        create_group(&mut contract, &members[0], 100_000_000i128, 604_800u64, 5u32).unwrap();
    contract.join_group(members[1], group_id).unwrap();

    // Try to join again
    let result = contract.join_group(members[1], group_id);
    assert_eq!(result, Err(AjoError::AlreadyMember));
}

// ============================================================================
// Input Validation / Boundary Tests
// ============================================================================

#[test]
fn test_security_zero_contribution_amount() {
    let (mut contract, _admin) = setup_test_env();
    let creator = account_key(0, 1);

    let result = create_group(&mut contract, &creator, 0i128, 604_800u64, 5u32);
    assert_eq!(result, Err(AjoError::ContributionAmountZero));
}

#[test]
fn test_security_negative_contribution_amount() {
    let (mut contract, _admin) = setup_test_env();
    let creator = account_key(0, 1);

    let result = create_group(&mut contract, &creator, -1000i128, 604_800u64, 5u32);
    assert_eq!(result, Err(AjoError::ContributionAmountNegative));
}

#[test]
fn test_security_zero_cycle_duration() {
    let (mut contract, _admin) = setup_test_env();
    let creator = account_key(0, 1);

    let result = create_group(&mut contract, &creator, 100_000_000i128, 0u64, 5u32);
    assert_eq!(result, Err(AjoError::CycleDurationZero));
}

#[test]
fn test_security_max_members_below_minimum() {
    let (mut contract, _admin) = setup_test_env();
    let creator = account_key(0, 1);

    let result = create_group(&mut contract, &creator, 100_000_000i128, 604_800u64, 1u32);
    assert_eq!(result, Err(AjoError::MaxMembersBelowMinimum));
}

#[test]
fn test_security_max_members_above_limit() {
    let (mut contract, _admin) = setup_test_env();
    let creator = account_key(0, 1);

    let result = create_group(&mut contract, &creator, 100_000_000i128, 604_800u64, 101u32);
    assert_eq!(result, Err(AjoError::MaxMembersAboveLimit));
}

#[test]
fn test_security_max_members_at_limit() {
    let (mut contract, _admin) = setup_test_env();
    let creator = account_key(0, 1);

    // Should succeed with exactly 100 members
    let result = create_group(&mut contract, &creator, 100_000_000i128, 604_800u64, 100u32);
    assert!(result.is_ok());
}

// ============================================================================
// State Manipulation Tests
// ============================================================================

#[test]
fn test_security_payout_without_all_contributions() {
    let (mut contract, _admin) = setup_test_env();
    let members = generate_addresses(3);

    let group_id =
        create_group(&mut contract, &members[0], 100_000_000i128, 604_800u64, 3u32).unwrap();
    contract.join_group(members[1], group_id).unwrap();
    contract.join_group(members[2], group_id).unwrap();

    // Only 2 out of 3 contribute
    contract.contribute(members[0], group_id, NOW).unwrap();
    contract.contribute(members[1], group_id, NOW).unwrap();

    // Payout should fail
    let result = contract.execute_payout(group_id, NOW);
    assert_eq!(result, Err(AjoError::IncompleteContributions));
}

#[test]
fn test_security_contribute_to_completed_group() {
    let (mut contract, _admin) = setup_test_env();
    let members = generate_addresses(2);

    let group_id =
        create_group(&mut contract, &members[0], 100_000_000i128, 604_800u64, 2u32).unwrap();
    contract.join_group(members[1], group_id).unwrap();

    // Complete all cycles
    for _ in 0..2 {
        contract.contribute(members[0], group_id, NOW).unwrap();
        contract.contribute(members[1], group_id, NOW).unwrap();
        contract.execute_payout(group_id, NOW).unwrap();
    }

    // Try to contribute to completed group
    let result = contract.contribute(members[0], group_id, NOW);
    assert_eq!(result, Err(AjoError::GroupComplete));
}

#[test]
fn test_security_join_completed_group() {
    let (mut contract, _admin) = setup_test_env();
    let members = generate_addresses(3);

    let group_id =
        create_group(&mut contract, &members[0], 100_000_000i128, 604_800u64, 2u32).unwrap();
    contract.join_group(members[1], group_id).unwrap();

    // Complete all cycles
    for _ in 0..2 {
        contract.contribute(members[0], group_id, NOW).unwrap();
        contract.contribute(members[1], group_id, NOW).unwrap();
        contract.execute_payout(group_id, NOW).unwrap();
    }

    // Try to join completed group
    let result = contract.join_group(members[2], group_id);
    assert_eq!(result, Err(AjoError::GroupComplete));
}

#[test]
fn test_security_payout_to_completed_group() {
    let (mut contract, _admin) = setup_test_env();
    let members = generate_addresses(2);

    let group_id =
        create_group(&mut contract, &members[0], 100_000_000i128, 604_800u64, 2u32).unwrap();
    contract.join_group(members[1], group_id).unwrap();

    // Complete all cycles
    for _ in 0..2 {
        contract.contribute(members[0], group_id, NOW).unwrap();
        contract.contribute(members[1], group_id, NOW).unwrap();
        contract.execute_payout(group_id, NOW).unwrap();
    }

    // Try to execute another payout
    let result = contract.execute_payout(group_id, NOW);
    assert_eq!(result, Err(AjoError::GroupComplete));
}

// ============================================================================
// Denial of Service Tests
// ============================================================================

#[test]
fn test_security_join_full_group() {
    let (mut contract, _admin) = setup_test_env();
    let members = generate_addresses(4);

    // Create group with max 3 members
    let group_id =
        create_group(&mut contract, &members[0], 100_000_000i128, 604_800u64, 3u32).unwrap();
    contract.join_group(members[1], group_id).unwrap();
    contract.join_group(members[2], group_id).unwrap();

    // Try to add 4th member
    let result = contract.join_group(members[3], group_id);
    assert_eq!(result, Err(AjoError::MaxMembersExceeded));
}

#[test]
fn test_security_large_group_operations() {
    let (mut contract, _admin) = setup_test_env();
    let members = generate_addresses(50);

    // Create group with 50 members
    let group_id =
        create_group(&mut contract, &members[0], 100_000_000i128, 604_800u64, 50u32).unwrap();

    // Add all members
    for member in &members[1..] {
        contract.join_group(*member, group_id).unwrap();
    }

    // All members contribute
    for member in &members {
        contract.contribute(*member, group_id, NOW).unwrap();
    }

    // Execute payout should work
    contract.execute_payout(group_id, NOW).unwrap();

    let group = contract.get_group(group_id).unwrap();
    assert_eq!(group.current_cycle, 2);
}

// ============================================================================
// Emergency Pause Tests
// ============================================================================

#[test]
fn test_security_pause_blocks_create_group() {
    let (mut contract, admin) = setup_test_env();
    let creator = account_key(0, 1);

    // Pause contract
    contract.pause(admin).unwrap();

    // Try to create group
    let result = create_group(&mut contract, &creator, 100_000_000i128, 604_800u64, 5u32);
    assert_eq!(result, Err(AjoError::ContractPaused));
}

#[test]
fn test_security_pause_blocks_join_group() {
    let (mut contract, admin) = setup_test_env();
    let members = generate_addresses(2);

    // Create group before pause
    let group_id =
        create_group(&mut contract, &members[0], 100_000_000i128, 604_800u64, 5u32).unwrap();

    // Pause contract
    contract.pause(admin).unwrap();

    // Try to join
    let result = contract.join_group(members[1], group_id);
    assert_eq!(result, Err(AjoError::ContractPaused));
}

#[test]
fn test_security_pause_blocks_contribute() {
    let (mut contract, admin) = setup_test_env();
    let creator = account_key(0, 1);

    // Create group before pause
    let group_id = create_group(&mut contract, &creator, 100_000_000i128, 604_800u64, 5u32).unwrap();

    // Pause contract
    contract.pause(admin).unwrap();

    // Try to contribute
    let result = contract.contribute(creator, group_id, NOW);
    assert_eq!(result, Err(AjoError::ContractPaused));
}

#[test]
fn test_security_pause_blocks_payout() {
    let (mut contract, admin) = setup_test_env();
    let members = generate_addresses(2);

    let group_id =
        create_group(&mut contract, &members[0], 100_000_000i128, 604_800u64, 2u32).unwrap();
    contract.join_group(members[1], group_id).unwrap();

    // All contribute
    contract.contribute(members[0], group_id, NOW).unwrap();
    contract.contribute(members[1], group_id, NOW).unwrap();

    // Pause contract
    contract.pause(admin).unwrap();

    // Try to execute payout
    let result = contract.execute_payout(group_id, NOW);
    assert_eq!(result, Err(AjoError::ContractPaused));
}

#[test]
fn test_security_pause_allows_queries() {
    let (mut contract, admin) = setup_test_env();
    let creator = account_key(0, 1);

    // Create group before pause
    let group_id = create_group(&mut contract, &creator, 100_000_000i128, 604_800u64, 5u32).unwrap();

    // Pause contract
    contract.pause(admin).unwrap();

    // Queries should still work
    let group = contract.get_group(group_id).unwrap();
    assert_eq!(group.id, group_id);

    let members = contract.list_members(group_id).unwrap();
    assert_eq!(members.len(), 1);

    let is_member = contract.is_member(group_id, creator).unwrap();
    assert_eq!(is_member, true);
}

#[test]
fn test_security_unpause_restores_functionality() {
    let (mut contract, admin) = setup_test_env();
    let members = generate_addresses(2);

    let group_id =
        create_group(&mut contract, &members[0], 100_000_000i128, 604_800u64, 5u32).unwrap();

    // Pause
    contract.pause(admin).unwrap();

    // Verify paused
    let result = contract.join_group(members[1], group_id);
    assert_eq!(result, Err(AjoError::ContractPaused));

    // Unpause
    contract.unpause(admin).unwrap();

    // Should work now
    contract.join_group(members[1], group_id).unwrap();
    let group = contract.get_group(group_id).unwrap();
    assert_eq!(group.members.len(), 2);
}

// ============================================================================
// Integer Overflow / Underflow Tests
// ============================================================================

#[test]
fn test_security_large_contribution_amount() {
    let (mut contract, _admin) = setup_test_env();
    let creator = account_key(0, 1);

    // A very large amount, still within the limits
    let large_amount = 1_000_000_000_000_000i128;
    let result = create_group(&mut contract, &creator, large_amount, 604_800u64, 5u32);
    assert!(result.is_ok());
}

#[test]
fn test_security_payout_calculation_no_overflow() {
    let (mut contract, _admin) = setup_test_env();
    let members = generate_addresses(10);

    // Large contribution with multiple members
    let contribution = 100_000_000_000i128;
    let group_id =
        create_group(&mut contract, &members[0], contribution, 604_800u64, 10u32).unwrap();

    for member in &members[1..] {
        contract.join_group(*member, group_id).unwrap();
    }

    // All contribute
    for member in &members {
        contract.contribute(*member, group_id, NOW).unwrap();
    }

    // Payout should calculate correctly: the amount times 10 members
    let payout = contract.execute_payout(group_id, NOW).unwrap();
    assert_eq!(payout.amount, 1_000_000_000_000i128);

    let group = contract.get_group(group_id).unwrap();
    assert_eq!(group.current_cycle, 2);
}

// ============================================================================
// Concurrent Operation Tests
// ============================================================================

#[test]
fn test_security_multiple_groups_isolation() {
    let (mut contract, _admin) = setup_test_env();
    let members = generate_addresses(4);

    // Create two groups
    let group_id1 =
        create_group(&mut contract, &members[0], 100_000_000i128, 604_800u64, 2u32).unwrap();
    let group_id2 =
        create_group(&mut contract, &members[2], 200_000_000i128, 1_209_600u64, 2u32).unwrap();

    contract.join_group(members[1], group_id1).unwrap();
    contract.join_group(members[3], group_id2).unwrap();

    // Contribute to group 1
    contract.contribute(members[0], group_id1, NOW).unwrap();
    contract.contribute(members[1], group_id1, NOW).unwrap();

    // Group 2 should not be affected
    let status2 = contract.get_contribution_status(group_id2, 1u32).unwrap();
    for (_, contributed) in status2.iter() {
        assert_eq!(*contributed, false);
    }

    // Execute payout for group 1
    contract.execute_payout(group_id1, NOW).unwrap();

    // Group 2 should still be on cycle 1
    let group2 = contract.get_group(group_id2).unwrap();
    assert_eq!(group2.current_cycle, 1);
}

#[test]
fn test_security_member_in_multiple_groups() {
    let (mut contract, _admin) = setup_test_env();
    let members = generate_addresses(3);

    // Member 0 creates and joins both groups
    let group_id1 =
        create_group(&mut contract, &members[0], 100_000_000i128, 604_800u64, 2u32).unwrap();
    let group_id2 =
        create_group(&mut contract, &members[0], 200_000_000i128, 604_800u64, 2u32).unwrap();

    contract.join_group(members[1], group_id1).unwrap();
    contract.join_group(members[2], group_id2).unwrap();

    // Member 0 can contribute to both independently
    contract.contribute(members[0], group_id1, NOW).unwrap();
    contract.contribute(members[0], group_id2, NOW).unwrap();

    // Verify contributions are tracked separately
    assert_eq!(
        contract.get_contribution_status(group_id1, 1u32).unwrap().get(0).unwrap().1,
        true
    );
    assert_eq!(
        contract.get_contribution_status(group_id2, 1u32).unwrap().get(0).unwrap().1,
        true
    );
}
