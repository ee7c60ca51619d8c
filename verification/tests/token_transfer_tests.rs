//! Token movements around contributions, payouts and refunds.
//!
//! The library decides who owes whom how much; a token ledger moves it. The
//! ledger here is a small one in memory, guarded by the library's balance
//! checks.

use soroban_ajo::contract::AjoContract;
use soroban_ajo::errors::AjoError;
use soroban_ajo::token::{check_balance, check_contract_balance};
use soroban_ajo::types::Address;

/// An address for the tests: a key of its kind that ends in the digits of `series` and `n`.
fn strkey(kind: u8, series: u128, n: u128) -> Address {
    let mut key = [b'A'; 56];
    key[0] = kind;
    let digits = format!("{}X{}", series, n);
    key[56 - digits.len()..].copy_from_slice(digits.as_bytes());
    Address::from_strkey(key)
}

/// The address of an account.
fn account_key(series: u128, n: u128) -> Address {
    strkey(b'G', series, n)
}

/// The address of a contract.
fn contract_key(series: u128, n: u128) -> Address {
    strkey(b'C', series, n)
}

/// Balances by (token, holder).
struct Ledger {
    balances: Vec<(Address, Address, i128)>,
}

impl Ledger {
    fn balance(&self, token: &Address, holder: &Address) -> i128 {
        self.balances
            .iter()
            .find(|(t, h, _)| t == token && h == holder)
            .map(|(_, _, b)| *b)
            .unwrap_or(0)
    }

    fn mint(&mut self, token: &Address, holder: &Address, amount: i128) {
        let now = self.balance(token, holder);
        self.balances.retain(|(t, h, _)| !(t == token && h == holder));
        self.balances.push((*token, *holder, now + amount));
    }

    fn transfer(&mut self, token: &Address, from: &Address, to: &Address, amount: i128) {
        self.mint(token, from, -amount);
        self.mint(token, to, amount);
    }
}

/// The contract, its own address, the ledger and the clock.
struct TestEnv {
    contract: AjoContract,
    contract_address: Address,
    ledger: Ledger,
    timestamp: u64,
}

impl TestEnv {
    fn create_group(
        &mut self,
        creator: &Address,
        token: &Address,
        contribution_amount: i128,
        cycle_duration: u64,
        max_members: u32,
        grace_period: u64,
        penalty_rate: u32,
    ) -> u64 {
        self.contract
            .create_group(
                *creator,
                *token,
                contribution_amount,
                cycle_duration,
                max_members,
                grace_period,
                penalty_rate,
                self.timestamp,
            )
            .unwrap()
    }

    fn join_group(&mut self, member: &Address, group_id: u64) {
        self.contract.join_group(*member, group_id).unwrap();
    }

    /// Records the contribution and moves what the member owes to the contract.
    fn contribute(&mut self, member: &Address, group_id: u64) {
        let token = self.contract.get_group(group_id).unwrap().token_address;
        let receipt = self.contract.contribute(*member, group_id, self.timestamp).unwrap();
        let due = receipt.amount_due;
        if let Err(e) = check_balance(self.ledger.balance(&token, member), due) {
            panic!("{:?}", e);
        }
        self.ledger.transfer(&token, member, &self.contract_address, due);
    }

    /// Executes the payout and moves it from the contract to the recipient.
    fn execute_payout(&mut self, group_id: u64) {
        let token = self.contract.get_group(group_id).unwrap().token_address;
        let record = self.contract.execute_payout(group_id, self.timestamp).unwrap();
        let held = self.ledger.balance(&token, &self.contract_address);
        if let Err(e) = check_contract_balance(held, record.amount) {
            panic!("{:?}", e);
        }
        self.ledger.transfer(&token, &self.contract_address, &record.member, record.amount);
    }

    /// Cancels the group and moves each refund from the contract to its member.
    fn cancel_group(&mut self, creator: &Address, group_id: u64) {
        let token = self.contract.get_group(group_id).unwrap().token_address;
        let refunds = self.contract.cancel_group(*creator, group_id, self.timestamp).unwrap();
        for refund in refunds.iter() {
            self.ledger.transfer(&token, &self.contract_address, &refund.member, refund.amount);
        }
    }

    fn get_contract_balance(&self, token: &Address) -> i128 {
        self.ledger.balance(token, &self.contract_address)
    }
}

/// A contract with its administrator, and one token.
fn setup_test_env_with_token() -> (TestEnv, Address) {
    let mut contract = AjoContract::new();
    let admin = account_key(7, 0);
    contract.initialize(admin).unwrap();
    let env = TestEnv {
        contract,
        contract_address: contract_key(1, 0),
        ledger: Ledger { balances: Vec::new() },
        timestamp: 1_700_000_000,
    };
    (env, contract_key(2, 1))
}

#[test]
fn test_contribute_with_token_transfer() {
    let (mut env, token_id) = setup_test_env_with_token();

    // Create members
    let creator = account_key(0, 1);
    let member2 = account_key(0, 2);

    // Mint tokens to members
    let contribution = 100_000_000i128;
    env.ledger.mint(&token_id, &creator, contribution * 10);
    env.ledger.mint(&token_id, &member2, contribution * 10);

    // Create group with token
    let group_id =
        env.create_group(&creator, &token_id, contribution, 604_800u64, 2u32, 86400u64, 5u32);

    // Join group
    env.join_group(&member2, group_id);

    // Get contract address
    let contract_address = env.contract_address;

    // Check initial balances
    let creator_balance_before = env.ledger.balance(&token_id, &creator);
    let contract_balance_before = env.ledger.balance(&token_id, &contract_address);

    // Contribute
    env.contribute(&creator, group_id);

    // Verify token transfer occurred
    let creator_balance_after = env.ledger.balance(&token_id, &creator);
    let contract_balance_after = env.ledger.balance(&token_id, &contract_address);

    assert_eq!(creator_balance_before - contribution, creator_balance_after);
    assert_eq!(contract_balance_before + contribution, contract_balance_after);
}

#[test]
fn test_payout_with_token_transfer() {
    let (mut env, token_id) = setup_test_env_with_token();

    // Create members
    let creator = account_key(0, 1);
    let member2 = account_key(0, 2);

    // Mint tokens to members
    let contribution = 100_000_000i128;
    env.ledger.mint(&token_id, &creator, contribution * 10);
    env.ledger.mint(&token_id, &member2, contribution * 10);

    // Create group
    let group_id =
        env.create_group(&creator, &token_id, contribution, 604_800u64, 2u32, 86400u64, 5u32);

    // Join group
    env.join_group(&member2, group_id);

    // Both members contribute
    env.contribute(&creator, group_id);
    env.contribute(&member2, group_id);

    // Get contract address
    let contract_address = env.contract_address;

    // Check balances before payout
    let creator_balance_before = env.ledger.balance(&token_id, &creator);
    let contract_balance_before = env.ledger.balance(&token_id, &contract_address);

    // Advance time past grace period
    env.timestamp = env.timestamp + 604_800 + 86400 + 1;

    // Execute payout
    env.execute_payout(group_id);

    // Verify token transfer occurred
    let creator_balance_after = env.ledger.balance(&token_id, &creator);
    let contract_balance_after = env.ledger.balance(&token_id, &contract_address);

    let expected_payout = contribution * 2; // Both members contributed
    assert_eq!(creator_balance_before + expected_payout, creator_balance_after);
    assert_eq!(contract_balance_before - expected_payout, contract_balance_after);
}

#[test]
fn test_full_cycle_with_token_transfers() {
    let (mut env, token_id) = setup_test_env_with_token();

    // Create 3 members
    let members: Vec<Address> = (0..3).map(|i| account_key(0, i as u128 + 1)).collect();

    // Mint tokens to all members
    let contribution = 50_000_000i128;
    for member in &members {
        env.ledger.mint(&token_id, member, contribution * 10);
    }

    // Create group
    let group_id =
        env.create_group(&members[0], &token_id, contribution, 604_800u64, 3u32, 86400u64, 5u32);

    // Join group
    for member in &members[1..] {
        env.join_group(member, group_id);
    }

    // Complete all cycles
    for cycle in 0..3 {
        // All members contribute
        for member in &members {
            env.contribute(member, group_id);
        }

        // Advance time
        env.timestamp = env.timestamp + 604_800 + 86400 + 1;

        // Get recipient balance before payout
        let recipient = &members[cycle];
        let balance_before = env.ledger.balance(&token_id, recipient);

        // Execute payout
        env.execute_payout(group_id);

        // Verify payout received
        let balance_after = env.ledger.balance(&token_id, recipient);
        let expected_payout = contribution * 3;
        assert_eq!(balance_before + expected_payout, balance_after);
    }

    // Verify group is complete
    let group = env.contract.get_group(group_id).unwrap();
    assert_eq!(group.is_complete, true);
}

#[test]
fn test_cancel_group_with_refunds() {
    let (mut env, token_id) = setup_test_env_with_token();

    // Create members
    let creator = account_key(0, 1);
    let member2 = account_key(0, 2);

    // Mint tokens
    let contribution = 100_000_000i128;
    env.ledger.mint(&token_id, &creator, contribution * 10);
    env.ledger.mint(&token_id, &member2, contribution * 10);

    // Create group
    let group_id =
        env.create_group(&creator, &token_id, contribution, 604_800u64, 2u32, 86400u64, 5u32);

    // Join group
    env.join_group(&member2, group_id);

    // Both contribute
    env.contribute(&creator, group_id);
    env.contribute(&member2, group_id);

    // Get balances before cancellation
    let creator_balance_before = env.ledger.balance(&token_id, &creator);
    let member2_balance_before = env.ledger.balance(&token_id, &member2);

    // Cancel group
    env.cancel_group(&creator, group_id);

    // Verify refunds
    let creator_balance_after = env.ledger.balance(&token_id, &creator);
    let member2_balance_after = env.ledger.balance(&token_id, &member2);

    assert_eq!(creator_balance_before + contribution, creator_balance_after);
    assert_eq!(member2_balance_before + contribution, member2_balance_after);
}

#[test]
fn test_multiple_token_types() {
    let mut contract = AjoContract::new();

    // Initialize contract
    let admin = account_key(7, 0);
    contract.initialize(admin).unwrap();

    // Two different tokens
    let token1_id = contract_key(2, 1);
    let token2_id = contract_key(2, 2);
    let mut ledger = Ledger { balances: Vec::new() };

    // Create members
    let creator1 = account_key(0, 1);
    let creator2 = account_key(0, 2);

    // Mint different tokens
    let contribution = 100_000_000i128;
    ledger.mint(&token1_id, &creator1, contribution * 10);
    ledger.mint(&token2_id, &creator2, contribution * 10);

    // Create groups with different tokens
    let group1_id = contract
        .create_group(creator1, token1_id, contribution, 604_800u64, 2u32, 86400u64, 5u32, 0)
        .unwrap();

    let group2_id = contract
        .create_group(creator2, token2_id, contribution, 604_800u64, 2u32, 86400u64, 5u32, 0)
        .unwrap();

    // Verify groups have different tokens
    let group1 = contract.get_group(group1_id).unwrap();
    let group2 = contract.get_group(group2_id).unwrap();

    assert_eq!(group1.token_address, token1_id);
    assert_eq!(group2.token_address, token2_id);
}

#[test]
fn test_get_contract_balance() {
    let (mut env, token_id) = setup_test_env_with_token();

    // Create member
    let creator = account_key(0, 1);

    // Mint tokens
    let contribution = 100_000_000i128;
    env.ledger.mint(&token_id, &creator, contribution * 10);

    // Create group
    let group_id =
        env.create_group(&creator, &token_id, contribution, 604_800u64, 2u32, 86400u64, 5u32);

    // Check initial contract balance
    let balance_before = env.get_contract_balance(&token_id);
    assert_eq!(balance_before, 0);

    // Contribute
    env.contribute(&creator, group_id);

    // Check contract balance after contribution
    let balance_after = env.get_contract_balance(&token_id);
    assert_eq!(balance_after, contribution);
}

#[test]
#[should_panic(expected = "InsufficientBalance")]
fn test_contribute_insufficient_balance() {
    let (mut env, token_id) = setup_test_env_with_token();

    // Create member
    let creator = account_key(0, 1);

    // Mint insufficient tokens
    let contribution = 100_000_000i128;
    env.ledger.mint(&token_id, &creator, contribution / 2); // Only half needed

    // Create group
    let group_id =
        env.create_group(&creator, &token_id, contribution, 604_800u64, 2u32, 86400u64, 5u32);

    // Try to contribute (should fail)
    env.contribute(&creator, group_id);
}

#[test]
fn insufficient_balance_is_told_from_insufficient_contract_balance() {
    assert_eq!(check_balance(49, 50), Err(AjoError::InsufficientBalance));
    assert_eq!(check_balance(50, 50), Ok(()));
    assert_eq!(check_contract_balance(49, 50), Err(AjoError::InsufficientContractBalance));
    assert_eq!(check_contract_balance(51, 50), Ok(()));
}
