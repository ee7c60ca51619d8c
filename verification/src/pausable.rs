//! The emergency switch that gates every state-changing operation.

use vstd::prelude::*;
use crate::errors::AjoError;
use crate::storage::{Store, StoreView};
use crate::types::Address;
use crate::wellformed::{lemma_same_records, wf};

verus! {

/// True when `caller` is the administrator.
pub open spec fn is_admin(s: StoreView, caller: Address) -> bool {
    s.admin == Some(caller)
}

/// Whether `caller` is the administrator.
pub fn check_admin(store: &Store, caller: &Address) -> (r: bool)
    ensures
        r == is_admin(store@, *caller),
{
    match store.get_admin() {
        Some(admin) => admin == *caller,
        None => false,
    }
}

/// Pauses the contract. Only the administrator may do so.
pub fn pause(store: &mut Store, caller: &Address) -> (r: Result<(), AjoError>)
    requires
        old(store).inv(),
        wf(old(store)@),
    ensures
        final(store).inv(),
        wf(final(store)@),
        match r {
            Ok(_) => is_admin(old(store)@, *caller) && final(store)@ == (StoreView {
                paused: true,
                ..old(store)@
            }),
            Err(e) => !is_admin(old(store)@, *caller) && e == AjoError::UnauthorizedPause
                && final(store)@ == old(store)@,
        },
{
    if !check_admin(store, caller) {
        return Err(AjoError::UnauthorizedPause);
    }
    store.set_paused(true);
    proof {
        lemma_same_records(old(store)@, store@);
    }
    Ok(())
}

/// Lifts the pause. Only the administrator may do so.
pub fn unpause(store: &mut Store, caller: &Address) -> (r: Result<(), AjoError>)
    requires
        old(store).inv(),
        wf(old(store)@),
    ensures
        final(store).inv(),
        wf(final(store)@),
        match r {
            Ok(_) => is_admin(old(store)@, *caller) && final(store)@ == (StoreView {
                paused: false,
                ..old(store)@
            }),
            Err(e) => !is_admin(old(store)@, *caller) && e == AjoError::UnauthorizedUnpause
                && final(store)@ == old(store)@,
        },
{
    if !check_admin(store, caller) {
        return Err(AjoError::UnauthorizedUnpause);
    }
    store.set_paused(false);
    proof {
        lemma_same_records(old(store)@, store@);
    }
    Ok(())
}

/// Refuses with `ContractPaused` while the contract is paused.
pub fn ensure_not_paused(store: &Store) -> (r: Result<(), AjoError>)
    ensures
        r == (if store@.paused {
            Err::<(), AjoError>(AjoError::ContractPaused)
        } else {
            Ok(())
        }),
{
    if store.is_paused() {
        Err(AjoError::ContractPaused)
    } else {
        Ok(())
    }
}

} // verus!
