//! Balance checks that guard token movements.
//!
//! The token ledger is outside this library: a caller reads a balance there
//! and has it judged here before it moves anything.

use vstd::prelude::*;
use crate::errors::AjoError;

verus! {

/// Checks that a payer's `balance` covers `amount`.
pub fn check_balance(balance: i128, amount: i128) -> (r: Result<(), AjoError>)
    ensures
        r == (if balance < amount {
            Err::<(), AjoError>(AjoError::InsufficientBalance)
        } else {
            Ok(())
        }),
{
    if balance < amount {
        return Err(AjoError::InsufficientBalance);
    }
    Ok(())
}

/// Checks that the contract's `balance` covers the `amount` of a payout.
pub fn check_contract_balance(balance: i128, amount: i128) -> (r: Result<(), AjoError>)
    ensures
        r == (if balance < amount {
            Err::<(), AjoError>(AjoError::InsufficientContractBalance)
        } else {
            Ok(())
        }),
{
    if balance < amount {
        return Err(AjoError::InsufficientContractBalance);
    }
    Ok(())
}

} // verus!
