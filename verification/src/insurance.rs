//! The insurance pool: deposits, claims and their settlement.

use vstd::prelude::*;
use crate::arith::share;
use crate::errors::AjoError;
use crate::storage::{Store, StoreView};
use crate::transitions::{deposit_fits, deposited, pool_or_empty};
use crate::types::{Address, ClaimStatus, Group, InsuranceClaim, InsurancePool};
use crate::wellformed::{
    lemma_file_claim, lemma_pending_claim_has_pool, lemma_put_pool, lemma_settle_claim, wf,
};

verus! {

/// The share of `amount` that `rate_bps` basis points come to, rounded toward zero.
pub open spec fn premium(amount: i128, rate_bps: u32) -> int {
    share(amount, rate_bps, 10000)
}

/// Calculates the insurance premium for a contribution.
pub fn calculate_premium(amount: i128, rate_bps: u32) -> (r: i128)
    requires
        i128::MIN <= amount * rate_bps <= i128::MAX,
    ensures
        r == premium(amount, rate_bps),
{
    (amount * (rate_bps as i128)) / 10000
}

/// Adds funds to the insurance pool of `token`, creating the pool if there is none.
pub fn deposit_to_pool(store: &mut Store, token: &Address, amount: i128)
    requires
        old(store).inv(),
        wf(old(store)@),
        deposit_fits(old(store)@, *token, amount),
    ensures
        final(store).inv(),
        wf(final(store)@),
        final(store)@ == deposited(old(store)@, *token, amount),
{
    let mut pool = match store.get_insurance_pool(token) {
        Some(p) => p,
        None => InsurancePool { balance: 0, total_payouts: 0, pending_claims_count: 0 },
    };
    pool.balance = pool.balance + amount;
    proof {
        lemma_put_pool(store@, *token, pool);
    }
    store.store_insurance_pool(token, pool);
}

/// Whether the pool of `token` can take `amount` more.
pub fn can_deposit(store: &Store, token: &Address, amount: i128) -> (r: bool)
    requires
        store.inv(),
    ensures
        r == deposit_fits(store@, *token, amount),
{
    let balance = match store.get_insurance_pool(token) {
        Some(p) => p.balance,
        None => 0,
    };
    if amount >= 0 {
        balance <= i128::MAX - amount
    } else {
        balance >= i128::MIN - amount
    }
}

/// The claim that is filed: pending, under the next id.
pub open spec fn claim_filed(
    s: StoreView,
    group_id: u64,
    cycle: u32,
    claimant: Address,
    defaulter: Address,
    amount: i128,
    now: u64,
) -> InsuranceClaim {
    InsuranceClaim {
        id: (s.claims.len() + 1) as u64,
        group_id,
        cycle,
        defaulter,
        claimant,
        amount,
        status: ClaimStatus::Pending,
        created_at: now,
    }
}

/// True when one more claim against group `group_id` can be numbered and counted.
pub open spec fn file_claim_fits(s: StoreView, group_id: u64) -> bool {
    &&& s.claims.len() < u64::MAX
    &&& s.has_group(group_id) ==> pool_or_empty(
        s,
        s.group(group_id).token_address,
    ).pending_claims_count < u32::MAX
}

/// Whether one more claim against group `group_id` can be numbered and counted.
pub fn can_file_claim(store: &Store, group_id: u64) -> (r: bool)
    requires
        store.inv(),
    ensures
        r == file_claim_fits(store@, group_id),
{
    if store.claims.len() as u64 >= u64::MAX {
        return false;
    }
    match store.get_group(group_id) {
        None => true,
        Some(group) => match store.get_insurance_pool(&group.token_address) {
            Some(p) => p.pending_claims_count < u32::MAX,
            None => true,
        },
    }
}

/// The store after `c` was filed against its group: the claim is on file, and
/// the pool of the group's token, made if there was none, counts one more
/// pending claim.
pub open spec fn file_claim_next(s: StoreView, c: InsuranceClaim) -> StoreView {
    let token = s.group(c.group_id).token_address;
    let p = pool_or_empty(s, token);
    s.push_claim(c).put_pool(
        token,
        InsurancePool { pending_claims_count: (p.pending_claims_count + 1) as u32, ..p },
    )
}

/// Why a claim against group `group_id` is not filed, if so: the group must exist.
pub open spec fn file_claim_refusal(s: StoreView, group_id: u64) -> Option<AjoError> {
    if !s.has_group(group_id) {
        Some(AjoError::GroupNotFound)
    } else {
        None
    }
}

/// Records a claim against the insurance pool of the group's token.
///
/// The group must exist. Nothing stops a second claim for the same default:
/// whoever settles claims must see to that.
pub fn file_claim(
    store: &mut Store,
    group_id: u64,
    cycle: u32,
    claimant: Address,
    defaulter: Address,
    amount: i128,
    now: u64,
) -> (r: Result<u64, AjoError>)
    requires
        old(store).inv(),
        wf(old(store)@),
        file_claim_fits(old(store)@, group_id),
    ensures
        final(store).inv(),
        wf(final(store)@),
        match r {
            Ok(id) => {
                &&& file_claim_refusal(old(store)@, group_id) is None
                &&& id == old(store)@.claims.len() + 1
                &&& final(store)@ == file_claim_next(
                    old(store)@,
                    claim_filed(old(store)@, group_id, cycle, claimant, defaulter, amount, now),
                )
            },
            Err(e) => {
                &&& file_claim_refusal(old(store)@, group_id) == Some(e)
                &&& final(store)@ == old(store)@
            },
        },
{
    let group = match store.get_group(group_id) {
        Some(g) => g,
        None => {
            return Err(AjoError::GroupNotFound);
        },
    };
    let claim_id = store.get_next_claim_id();
    let claim = InsuranceClaim {
        id: claim_id,
        group_id,
        cycle,
        defaulter,
        claimant,
        amount,
        status: ClaimStatus::Pending,
        created_at: now,
    };
    let mut pool = match store.get_insurance_pool(&group.token_address) {
        Some(p) => p,
        None => InsurancePool { balance: 0, total_payouts: 0, pending_claims_count: 0 },
    };
    pool.pending_claims_count = pool.pending_claims_count + 1;
    proof {
        lemma_file_claim(store@, claim, pool);
    }
    store.store_insurance_claim(claim);
    store.store_insurance_pool(&group.token_address, pool);
    Ok(claim_id)
}

/// The token whose pool the claim with this id is made against.
pub open spec fn claim_token(s: StoreView, claim_id: u64) -> Address {
    s.group(s.claim(claim_id).group_id).token_address
}

/// Why the claim is not processed, if so.
pub open spec fn process_claim_refusal(s: StoreView, claim_id: u64, approved: bool) -> Option<
    AjoError,
> {
    if !s.has_claim(claim_id) {
        Some(AjoError::InvalidClaim)
    } else if s.claim(claim_id).status != ClaimStatus::Pending {
        Some(AjoError::ClaimAlreadyProcessed)
    } else if !s.has_group(s.claim(claim_id).group_id) {
        Some(AjoError::GroupNotFound)
    } else if !s.insurance_pools.dom().contains(claim_token(s, claim_id)) {
        Some(AjoError::PoolNotFound)
    } else if approved && s.insurance_pools[claim_token(s, claim_id)].balance < s.claim(
        claim_id,
    ).amount {
        Some(AjoError::InsufficientPoolBalance)
    } else {
        None
    }
}

/// The claim once processed: paid if approved, rejected if not.
pub open spec fn claim_processed(c: InsuranceClaim, approved: bool) -> InsuranceClaim {
    InsuranceClaim {
        status: if approved {
            ClaimStatus::Paid
        } else {
            ClaimStatus::Rejected
        },
        ..c
    }
}

/// The pool once a claim of `amount` against it was processed: one pending
/// claim fewer, and, if the claim was approved, its amount moved from the
/// balance to the total paid out.
pub open spec fn pool_processed(p: InsurancePool, amount: i128, approved: bool) -> InsurancePool {
    if approved {
        InsurancePool {
            balance: (p.balance - amount) as i128,
            total_payouts: (p.total_payouts + amount) as i128,
            pending_claims_count: (p.pending_claims_count - 1) as u32,
        }
    } else {
        InsurancePool { pending_claims_count: (p.pending_claims_count - 1) as u32, ..p }
    }
}

/// The store after the claim was processed.
pub open spec fn process_claim_next(s: StoreView, claim_id: u64, approved: bool) -> StoreView {
    let c = s.claim(claim_id);
    let token = claim_token(s, claim_id);
    s.set_claim(claim_id, claim_processed(c, approved)).put_pool(
        token,
        pool_processed(s.insurance_pools[token], c.amount, approved),
    )
}

/// True when paying the claim, if it is to be paid, keeps the pool's sums within 128 bits.
pub open spec fn process_claim_fits(s: StoreView, claim_id: u64, approved: bool) -> bool {
    approved && process_claim_refusal(s, claim_id, approved) is None ==> {
        let p = s.insurance_pools[claim_token(s, claim_id)];
        let amount = s.claim(claim_id).amount;
        &&& p.balance - amount <= i128::MAX
        &&& i128::MIN <= p.total_payouts + amount <= i128::MAX
    }
}

/// Whether paying the claim, if it is to be paid, keeps the pool's sums within 128 bits.
pub fn can_process_claim(store: &Store, claim_id: u64, approved: bool) -> (r: bool)
    requires
        store.inv(),
    ensures
        r == process_claim_fits(store@, claim_id, approved),
{
    if !approved {
        return true;
    }
    let claim = match store.get_insurance_claim(claim_id) {
        Some(c) => c,
        None => {
            return true;
        },
    };
    match claim.status {
        ClaimStatus::Pending => {},
        _ => {
            return true;
        },
    }
    let group = match store.get_group(claim.group_id) {
        Some(g) => g,
        None => {
            return true;
        },
    };
    let pool = match store.get_insurance_pool(&group.token_address) {
        Some(p) => p,
        None => {
            return true;
        },
    };
    if pool.balance < claim.amount {
        return true;
    }
    let balance_fits = claim.amount >= 0 || pool.balance <= i128::MAX + claim.amount;
    let payouts_fit = if claim.amount >= 0 {
        pool.total_payouts <= i128::MAX - claim.amount
    } else {
        pool.total_payouts >= i128::MIN - claim.amount
    };
    balance_fits && payouts_fit
}

/// Processes a pending claim: pays it from the pool if approved, rejects it if not.
///
/// Returns the claim as it is after processing; a paid claim's amount is owed
/// to its claimant. In a sound store every pending claim has its group and its
/// pool, so `GroupNotFound` and `PoolNotFound` do not come.
pub fn process_claim(store: &mut Store, claim_id: u64, approved: bool) -> (r: Result<
    InsuranceClaim,
    AjoError,
>)
    requires
        old(store).inv(),
        wf(old(store)@),
        process_claim_fits(old(store)@, claim_id, approved),
    ensures
        final(store).inv(),
        wf(final(store)@),
        match r {
            Ok(c) => {
                &&& process_claim_refusal(old(store)@, claim_id, approved) is None
                &&& c == claim_processed(old(store)@.claim(claim_id), approved)
                &&& final(store)@ == process_claim_next(old(store)@, claim_id, approved)
            },
            Err(e) => {
                &&& process_claim_refusal(old(store)@, claim_id, approved) == Some(e)
                &&& e != AjoError::GroupNotFound
                &&& e != AjoError::PoolNotFound
                &&& final(store)@ == old(store)@
            },
        },
{
    let mut claim = match store.get_insurance_claim(claim_id) {
        Some(c) => c,
        None => {
            return Err(AjoError::InvalidClaim);
        },
    };
    match claim.status {
        ClaimStatus::Pending => {},
        _ => {
            return Err(AjoError::ClaimAlreadyProcessed);
        },
    }
    proof {
        lemma_pending_claim_has_pool(store@, claim_id);
    }
    let group = match store.get_group(claim.group_id) {
        Some(g) => g,
        None => {
            return Err(AjoError::GroupNotFound);
        },
    };
    let mut pool = match store.get_insurance_pool(&group.token_address) {
        Some(p) => p,
        None => {
            return Err(AjoError::PoolNotFound);
        },
    };
    if approved {
        if pool.balance < claim.amount {
            return Err(AjoError::InsufficientPoolBalance);
        }
        pool.balance = pool.balance - claim.amount;
        pool.total_payouts = pool.total_payouts + claim.amount;
        claim.status = ClaimStatus::Paid;
    } else {
        claim.status = ClaimStatus::Rejected;
    }
    pool.pending_claims_count = pool.pending_claims_count - 1;
    proof {
        lemma_settle_claim(store@, claim_id, claim, pool);
    }
    store.store_insurance_pool(&group.token_address, pool);
    store.store_insurance_claim(claim);
    proof {
        assert(store@.insurance_pools =~= process_claim_next(
            old(store)@,
            claim_id,
            approved,
        ).insurance_pools);
    }
    Ok(claim)
}

/// Whether the claim holds: whether the member it names as defaulter did
/// not contribute in the cycle it names.
pub open spec fn claim_valid(s: StoreView, claim_id: u64) -> bool {
    !s.has_contributed(
        s.claim(claim_id).group_id,
        s.claim(claim_id).cycle,
        s.claim(claim_id).defaulter,
    )
}

/// Verifies a claim: it is valid if and only if the defaulter has no
/// contribution on record for the claim's group and cycle.
pub fn verify_claim(store: &Store, claim_id: u64) -> (r: Result<bool, AjoError>)
    requires
        store.inv(),
    ensures
        r == (if store@.has_claim(claim_id) {
            Ok::<bool, AjoError>(claim_valid(store@, claim_id))
        } else {
            Err(AjoError::InvalidClaim)
        }),
{
    let claim = match store.get_insurance_claim(claim_id) {
        Some(c) => c,
        None => {
            return Err(AjoError::InvalidClaim);
        },
    };
    let has_contributed = store.has_contributed(claim.group_id, claim.cycle, &claim.defaulter);
    Ok(!has_contributed)
}

/// Verifies a claim and processes it: approved if it is valid, rejected if not.
pub fn auto_process_claim(store: &mut Store, claim_id: u64) -> (r: Result<InsuranceClaim, AjoError>)
    requires
        old(store).inv(),
        wf(old(store)@),
        old(store)@.has_claim(claim_id) ==> process_claim_fits(
            old(store)@,
            claim_id,
            claim_valid(old(store)@, claim_id),
        ),
    ensures
        final(store).inv(),
        wf(final(store)@),
        match r {
            Ok(c) => {
                let approved = claim_valid(old(store)@, claim_id);
                &&& process_claim_refusal(old(store)@, claim_id, approved) is None
                &&& c == claim_processed(old(store)@.claim(claim_id), approved)
                &&& final(store)@ == process_claim_next(old(store)@, claim_id, approved)
            },
            Err(e) => {
                &&& process_claim_refusal(
                    old(store)@,
                    claim_id,
                    claim_valid(old(store)@, claim_id),
                ) == Some(e)
                &&& final(store)@ == old(store)@
            },
        },
{
    match verify_claim(store, claim_id) {
        Err(e) => Err(e),
        Ok(valid) => process_claim(store, claim_id, valid),
    }
}

/// The risk score of a member: no history is held against anyone, so it is always 100.
pub fn get_member_risk_score(store: &Store, member: &Address) -> (r: u32)
    ensures
        r == 100,
{
    100
}

/// The risk rating of a group: 0 for a group without members, 75 for any other.
pub fn get_group_risk_rating(store: &Store, group: &Group) -> (r: u32)
    ensures
        r == (if group@.members.len() == 0 {
            0u32
        } else {
            75u32
        }),
{
    if group.members.len() == 0 {
        return 0;
    }
    75
}

} // verus!
