use vstd::prelude::*;
use crate::commitment::CommitmentPDA;
use crate::commitment::NullifierPDA;
use crate::commitment::compute_commitment;
use crate::commitment::spec_commitment;
use crate::constants::spec_is_allowed_amount;
use crate::constants::is_allowed_amount;
use crate::errors::ErrorCode;
use crate::pool::PoolLedger;
use crate::pool::PrivacyPool;
use crate::pool::lemma_sum_churn_nonneg;
use crate::util::bytes32_eq;

verus! {

/// Finds the position of the commitment record with this key.
pub(crate) fn find_commitment(commitments: &Vec<CommitmentPDA>, key: &[u8; 32]) -> (r: Option<
    usize,
>)
    ensures
        match r {
            Some(i) => i < commitments@.len() && commitments@[i as int].commitment@ == key@,
            None => forall|j: int|
                0 <= j < commitments@.len() ==> commitments@[j].commitment@ != key@,
        },
{
    let mut i: usize = 0;
    while i < commitments.len()
        invariant
            i <= commitments@.len(),
            forall|j: int| 0 <= j < i ==> commitments@[j].commitment@ != key@,
        decreases commitments@.len() - i,
    {
        if bytes32_eq(&commitments[i].commitment, key) {
            return Some(i);
        }
        i += 1;
    }
    None
}

/// Finds the position of the nullifier record with this key.
pub(crate) fn find_nullifier(nullifiers: &Vec<NullifierPDA>, key: &[u8; 32]) -> (r: Option<usize>)
    ensures
        match r {
            Some(i) => i < nullifiers@.len() && nullifiers@[i as int].nullifier@ == key@,
            None => forall|j: int|
                0 <= j < nullifiers@.len() ==> nullifiers@[j].nullifier@ != key@,
        },
{
    let mut i: usize = 0;
    while i < nullifiers.len()
        invariant
            i <= nullifiers@.len(),
            forall|j: int| 0 <= j < i ==> nullifiers@[j].nullifier@ != key@,
        decreases nullifiers@.len() - i,
    {
        if bytes32_eq(&nullifiers[i].nullifier, key) {
            return Some(i);
        }
        i += 1;
    }
    None
}

/// Deposits a standardized amount under a commitment hash. One record per
/// unique commitment may ever exist: a second deposit with the same
/// commitment fails instead of overwriting. Nothing links the record to the
/// depositor.
pub fn private_deposit(ledger: &mut PoolLedger, commitment: &[u8; 32], amount: u64, now: i64) -> (r:
    Result<(), ErrorCode>)
    requires
        old(ledger).wf(),
    ensures
        final(ledger).wf(),
        r is Err ==> final(ledger).same_as(*old(ledger)),
        old(ledger).has_commitment(commitment@) ==> r == Err::<(), ErrorCode>(
            ErrorCode::CommitmentAlreadyExists,
        ),
        !old(ledger).has_commitment(commitment@) && !spec_is_allowed_amount(amount) ==> r == Err::<
            (),
            ErrorCode,
        >(ErrorCode::InvalidWithdrawAmount),
        !old(ledger).has_commitment(commitment@) && spec_is_allowed_amount(amount) && (old(ledger).pool.total_deposited + amount > u64::MAX || old(ledger).pool.deposit_count + 1
            > u64::MAX) ==> r == Err::<(), ErrorCode>(ErrorCode::Overflow),
        r is Ok <==> !old(ledger).has_commitment(commitment@) && spec_is_allowed_amount(amount)
            && old(ledger).pool.total_deposited + amount <= u64::MAX && old(ledger).pool.deposit_count + 1 <= u64::MAX,
        r is Ok ==> final(ledger).commitments@ == old(ledger).commitments@.push(
            (CommitmentPDA { commitment: *commitment, amount, timestamp: now, spent: false }),
        ) && final(ledger).vault_balance == old(ledger).vault_balance + amount && final(ledger).pool == (PrivacyPool {
            total_deposited: (old(ledger).pool.total_deposited + amount) as u64,
            deposit_count: (old(ledger).pool.deposit_count + 1) as u64,
            ..old(ledger).pool
        }) && final(ledger).nullifiers@ == old(ledger).nullifiers@ && final(ledger).pending@ == old(ledger).pending@ && final(ledger).churn_vaults@ == old(ledger).churn_vaults@,
{
    match find_commitment(&ledger.commitments, commitment) {
        Some(_) => {
            return Err(ErrorCode::CommitmentAlreadyExists);
        },
        None => {},
    }
    if !is_allowed_amount(amount) {
        return Err(ErrorCode::InvalidWithdrawAmount);
    }
    let total = match ledger.pool.total_deposited.checked_add(amount) {
        Some(t) => t,
        None => {
            return Err(ErrorCode::Overflow);
        },
    };
    let count = match ledger.pool.deposit_count.checked_add(1) {
        Some(c) => c,
        None => {
            return Err(ErrorCode::Overflow);
        },
    };
    proof {
        lemma_sum_churn_nonneg(ledger.churn_vaults@);
    }
    let record = CommitmentPDA { commitment: *commitment, amount, timestamp: now, spent: false };
    ledger.commitments.push(record);
    ledger.vault_balance = ledger.vault_balance + amount;
    ledger.pool.total_deposited = total;
    ledger.pool.deposit_count = count;
    Ok(())
}

/// Withdraws a private deposit by revealing its preimage parts. The caller
/// proves knowledge of `(secret_hash, nullifier, amount)` whose recomputed
/// commitment keys an unspent record of the same amount; the nullifier may
/// never have been used. On success the record is spent, the nullifier is
/// recorded forever, and the amount goes to a recipient chosen now.
pub fn private_withdraw(
    ledger: &mut PoolLedger,
    nullifier: &[u8; 32],
    secret_hash: &[u8; 32],
    amount: u64,
    now: i64,
) -> (r: Result<(), ErrorCode>)
    requires
        old(ledger).wf(),
    ensures
        final(ledger).wf(),
        r is Err ==> final(ledger).same_as(*old(ledger)),
        old(ledger).has_nullifier(nullifier@) ==> r == Err::<(), ErrorCode>(
            ErrorCode::NullifierAlreadyUsed,
        ),
        !old(ledger).has_nullifier(nullifier@) && !spec_is_allowed_amount(amount) ==> r == Err::<
            (),
            ErrorCode,
        >(ErrorCode::InvalidWithdrawAmount),
        ({
            let key = spec_commitment(secret_hash@, nullifier@, amount);
            !old(ledger).has_nullifier(nullifier@) && spec_is_allowed_amount(amount) && !old(ledger).has_commitment(key)
        }) ==> r == Err::<(), ErrorCode>(ErrorCode::InvalidCommitmentProof),
        ({
            let key = spec_commitment(secret_hash@, nullifier@, amount);
            let c = old(ledger).commitments@[old(ledger).commitment_index_of(key)];
            !old(ledger).has_nullifier(nullifier@) && spec_is_allowed_amount(amount) && old(ledger).has_commitment(key) && c.spent
        }) ==> r == Err::<(), ErrorCode>(ErrorCode::NullifierAlreadyUsed),
        ({
            let key = spec_commitment(secret_hash@, nullifier@, amount);
            let c = old(ledger).commitments@[old(ledger).commitment_index_of(key)];
            !old(ledger).has_nullifier(nullifier@) && spec_is_allowed_amount(amount) && old(ledger).has_commitment(key) && !c.spent && c.amount != amount
        }) ==> r == Err::<(), ErrorCode>(ErrorCode::InvalidAmount),
        ({
            let key = spec_commitment(secret_hash@, nullifier@, amount);
            let c = old(ledger).commitments@[old(ledger).commitment_index_of(key)];
            !old(ledger).has_nullifier(nullifier@) && spec_is_allowed_amount(amount) && old(ledger).has_commitment(key) && !c.spent && c.amount == amount && amount > old(ledger).vault_balance
        }) ==> r == Err::<(), ErrorCode>(ErrorCode::InsufficientPoolFunds),
        ({
            let key = spec_commitment(secret_hash@, nullifier@, amount);
            let c = old(ledger).commitments@[old(ledger).commitment_index_of(key)];
            !old(ledger).has_nullifier(nullifier@) && spec_is_allowed_amount(amount) && old(ledger).has_commitment(key) && !c.spent && c.amount == amount && amount <= old(ledger).vault_balance && old(ledger).pool.withdraw_count == u64::MAX
        }) ==> r == Err::<(), ErrorCode>(ErrorCode::Overflow),
        r is Ok <==> ({
            let key = spec_commitment(secret_hash@, nullifier@, amount);
            let c = old(ledger).commitments@[old(ledger).commitment_index_of(key)];
            !old(ledger).has_nullifier(nullifier@) && spec_is_allowed_amount(amount) && old(ledger).has_commitment(key) && !c.spent && c.amount == amount && amount <= old(ledger).vault_balance && old(ledger).pool.withdraw_count < u64::MAX
        }),
        r is Ok ==> ({
            let key = spec_commitment(secret_hash@, nullifier@, amount);
            let i = old(ledger).commitment_index_of(key);
            let c = old(ledger).commitments@[i];
            &&& final(ledger).commitments@ == old(ledger).commitments@.update(
                i,
                (CommitmentPDA { spent: true, ..c }),
            )
            &&& final(ledger).nullifiers@ == old(ledger).nullifiers@.push(
                (NullifierPDA { nullifier: *nullifier, used_at: now }),
            )
            &&& final(ledger).vault_balance == old(ledger).vault_balance - amount
            &&& final(ledger).pool == (PrivacyPool {
                total_withdrawn: (old(ledger).pool.total_withdrawn + amount) as u64,
                withdraw_count: (old(ledger).pool.withdraw_count + 1) as u64,
                ..old(ledger).pool
            })
            &&& final(ledger).pending@ == old(ledger).pending@
            &&& final(ledger).churn_vaults@ == old(ledger).churn_vaults@
        }),
{
    match find_nullifier(&ledger.nullifiers, nullifier) {
        Some(_) => {
            return Err(ErrorCode::NullifierAlreadyUsed);
        },
        None => {},
    }
    if !is_allowed_amount(amount) {
        return Err(ErrorCode::InvalidWithdrawAmount);
    }
    let key = compute_commitment(secret_hash, nullifier, amount);
    let i = match find_commitment(&ledger.commitments, &key) {
        Some(i) => i,
        None => {
            return Err(ErrorCode::InvalidCommitmentProof);
        },
    };
    proof {
        let j = ledger.commitment_index_of(key@);
        assert(ledger.commitments@[j].commitment@ == key@);
        if i != j {
            assert(false);
        }
    }
    let c = ledger.commitments[i];
    if c.spent {
        return Err(ErrorCode::NullifierAlreadyUsed);
    }
    if c.amount != amount {
        return Err(ErrorCode::InvalidAmount);
    }
    if amount > ledger.vault_balance {
        return Err(ErrorCode::InsufficientPoolFunds);
    }
    let count = match ledger.pool.withdraw_count.checked_add(1) {
        Some(c) => c,
        None => {
            return Err(ErrorCode::Overflow);
        },
    };
    proof {
        lemma_sum_churn_nonneg(ledger.churn_vaults@);
    }
    let total = ledger.pool.total_withdrawn + amount;
    ledger.commitments.set(i, CommitmentPDA { spent: true, ..c });
    ledger.nullifiers.push(NullifierPDA { nullifier: *nullifier, used_at: now });
    ledger.vault_balance = ledger.vault_balance - amount;
    ledger.pool.total_withdrawn = total;
    ledger.pool.withdraw_count = count;
    Ok(())
}

} // verus!
