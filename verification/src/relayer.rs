use vstd::prelude::*;
use crate::commitment::CommitmentPDA;
use crate::commitment::NullifierPDA;
use crate::commitment::compute_commitment;
use crate::commitment::spec_commitment;
use crate::constants::spec_is_allowed_amount;
use crate::constants::is_allowed_amount;
use crate::errors::ErrorCode;
use crate::pool::PendingWithdraw;
use crate::pool::PoolLedger;
use crate::pool::PrivacyPool;
use crate::pool::lemma_sum_churn_nonneg;
use crate::private_pool::find_commitment;
use crate::private_pool::find_nullifier;
use crate::privacy_pool::find_pending;

verus! {

/// Which program produced the detached-signature verification instruction
/// that was co-submitted in the same atomic bundle. The host has already run
/// that instruction; all this layer learns is its origin.
#[derive(Clone, Copy, Debug, PartialEq, Eq, Structural)]
pub enum VerifierProgram {
    /// The well-known ed25519 signature verification program.
    Ed25519,
    /// Any other program.
    Other,
}

/// Whether the co-submitted bundle carries a verification instruction from
/// the expected signature verifier. This is the whole check: the signed
/// message content is not re-examined here, a documented trust boundary of
/// the relay design.
pub open spec fn bundle_has_ed25519_verifier(first_instruction: Option<VerifierProgram>) -> bool {
    first_instruction == Some(VerifierProgram::Ed25519)
}

/// Claims a pending withdrawal on behalf of its recipient: a relayer submits
/// and pays, the recipient never signs the submission itself. Entitlement
/// rests on a detached ed25519 signature the host verified in the same
/// bundle; here only that instruction's presence and origin are checked.
pub fn claim_withdraw_relayed(
    ledger: &mut PoolLedger,
    recipient: &[u8; 32],
    now: i64,
    first_instruction: Option<VerifierProgram>,
) -> (r: Result<(), ErrorCode>)
    requires
        old(ledger).wf(),
    ensures
        final(ledger).wf(),
        r is Err ==> final(ledger).same_as(*old(ledger)),
        !old(ledger).has_pending(recipient@) ==> r == Err::<(), ErrorCode>(
            ErrorCode::PendingWithdrawNotFound,
        ),
        ({
            let p = old(ledger).pending@[old(ledger).pending_index_of(recipient@)];
            old(ledger).has_pending(recipient@) && p.claimed
        }) ==> r == Err::<(), ErrorCode>(ErrorCode::AlreadyClaimed),
        ({
            let p = old(ledger).pending@[old(ledger).pending_index_of(recipient@)];
            old(ledger).has_pending(recipient@) && !p.claimed && now < p.available_at
        }) ==> r == Err::<(), ErrorCode>(ErrorCode::WithdrawNotReady),
        ({
            let p = old(ledger).pending@[old(ledger).pending_index_of(recipient@)];
            old(ledger).has_pending(recipient@) && !p.claimed && now >= p.available_at
                && !bundle_has_ed25519_verifier(first_instruction)
        }) ==> r == Err::<(), ErrorCode>(ErrorCode::InvalidSignatureInstruction),
        ({
            let p = old(ledger).pending@[old(ledger).pending_index_of(recipient@)];
            old(ledger).has_pending(recipient@) && !p.claimed && now >= p.available_at
                && bundle_has_ed25519_verifier(first_instruction) && p.amount > old(
                ledger,
            ).vault_balance
        }) ==> r == Err::<(), ErrorCode>(ErrorCode::InsufficientPoolFunds),
        ({
            let p = old(ledger).pending@[old(ledger).pending_index_of(recipient@)];
            old(ledger).has_pending(recipient@) && !p.claimed && now >= p.available_at
                && bundle_has_ed25519_verifier(first_instruction) && p.amount <= old(
                ledger,
            ).vault_balance && old(ledger).pool.withdraw_count == u64::MAX
        }) ==> r == Err::<(), ErrorCode>(ErrorCode::Overflow),
        r is Ok <==> ({
            let p = old(ledger).pending@[old(ledger).pending_index_of(recipient@)];
            old(ledger).has_pending(recipient@) && !p.claimed && now >= p.available_at
                && bundle_has_ed25519_verifier(first_instruction) && p.amount <= old(
                ledger,
            ).vault_balance && old(ledger).pool.withdraw_count < u64::MAX
        }),
        r is Ok ==> ({
            let i = old(ledger).pending_index_of(recipient@);
            let p = old(ledger).pending@[i];
            &&& final(ledger).pending@ == old(ledger).pending@.update(
                i,
                (PendingWithdraw { claimed: true, ..p }),
            )
            &&& final(ledger).vault_balance == old(ledger).vault_balance - p.amount
            &&& final(ledger).pool == (PrivacyPool {
                total_withdrawn: (old(ledger).pool.total_withdrawn + p.amount) as u64,
                withdraw_count: (old(ledger).pool.withdraw_count + 1) as u64,
                ..old(ledger).pool
            })
            &&& final(ledger).commitments@ == old(ledger).commitments@
            &&& final(ledger).nullifiers@ == old(ledger).nullifiers@
            &&& final(ledger).churn_vaults@ == old(ledger).churn_vaults@
        }),
{
    let i = match find_pending(&ledger.pending, recipient) {
        Some(i) => i,
        None => {
            return Err(ErrorCode::PendingWithdrawNotFound);
        },
    };
    proof {
        let j = ledger.pending_index_of(recipient@);
        assert(ledger.pending@[j].recipient@ == recipient@);
        if i != j {
            assert(false);
        }
    }
    let p = ledger.pending[i];
    if p.claimed {
        return Err(ErrorCode::AlreadyClaimed);
    }
    if now < p.available_at {
        return Err(ErrorCode::WithdrawNotReady);
    }
    match first_instruction {
        Some(VerifierProgram::Ed25519) => {},
        _ => {
            return Err(ErrorCode::InvalidSignatureInstruction);
        },
    }
    if p.amount > ledger.vault_balance {
        return Err(ErrorCode::InsufficientPoolFunds);
    }
    let count = match ledger.pool.withdraw_count.checked_add(1) {
        Some(c) => c,
        None => {
            return Err(ErrorCode::Overflow);
        },
    };
    proof {
        lemma_sum_churn_nonneg(ledger.churn_vaults@);
    }
    let total = ledger.pool.total_withdrawn + p.amount;
    ledger.pending.set(i, PendingWithdraw { claimed: true, ..p });
    ledger.vault_balance = ledger.vault_balance - p.amount;
    ledger.pool.total_withdrawn = total;
    ledger.pool.withdraw_count = count;
    Ok(())
}

/// The relayed form of the private withdrawal: same preimage proof and
/// nullifier rules, with the relayer paying for the submission and a
/// detached-signature verification instruction required in the bundle.
pub fn private_withdraw_relayed(
    ledger: &mut PoolLedger,
    nullifier: &[u8; 32],
    secret_hash: &[u8; 32],
    amount: u64,
    now: i64,
    first_instruction: Option<VerifierProgram>,
) -> (r: Result<(), ErrorCode>)
    requires
        old(ledger).wf(),
    ensures
        final(ledger).wf(),
        r is Err ==> final(ledger).same_as(*old(ledger)),
        old(ledger).has_nullifier(nullifier@) ==> r == Err::<(), ErrorCode>(
            ErrorCode::NullifierAlreadyUsed,
        ),
        !old(ledger).has_nullifier(nullifier@) && !spec_is_allowed_amount(amount) ==> r == Err::<
            (),
            ErrorCode,
        >(ErrorCode::InvalidWithdrawAmount),
        !old(ledger).has_nullifier(nullifier@) && spec_is_allowed_amount(amount)
            && !bundle_has_ed25519_verifier(first_instruction) ==> r == Err::<(), ErrorCode>(
            ErrorCode::InvalidSignatureInstruction,
        ),
        ({
            let key = spec_commitment(secret_hash@, nullifier@, amount);
            !old(ledger).has_nullifier(nullifier@) && spec_is_allowed_amount(amount)
                && bundle_has_ed25519_verifier(first_instruction) && !old(ledger).has_commitment(
                key,
            )
        }) ==> r == Err::<(), ErrorCode>(ErrorCode::InvalidCommitmentProof),
        ({
            let key = spec_commitment(secret_hash@, nullifier@, amount);
            let c = old(ledger).commitments@[old(ledger).commitment_index_of(key)];
            !old(ledger).has_nullifier(nullifier@) && spec_is_allowed_amount(amount)
                && bundle_has_ed25519_verifier(first_instruction) && old(ledger).has_commitment(key)
                && c.spent
        }) ==> r == Err::<(), ErrorCode>(ErrorCode::NullifierAlreadyUsed),
        ({
            let key = spec_commitment(secret_hash@, nullifier@, amount);
            let c = old(ledger).commitments@[old(ledger).commitment_index_of(key)];
            !old(ledger).has_nullifier(nullifier@) && spec_is_allowed_amount(amount)
                && bundle_has_ed25519_verifier(first_instruction) && old(ledger).has_commitment(key)
                && !c.spent && c.amount != amount
        }) ==> r == Err::<(), ErrorCode>(ErrorCode::InvalidAmount),
        ({
            let key = spec_commitment(secret_hash@, nullifier@, amount);
            let c = old(ledger).commitments@[old(ledger).commitment_index_of(key)];
            !old(ledger).has_nullifier(nullifier@) && spec_is_allowed_amount(amount)
                && bundle_has_ed25519_verifier(first_instruction) && old(ledger).has_commitment(key)
                && !c.spent && c.amount == amount && amount > old(ledger).vault_balance
        }) ==> r == Err::<(), ErrorCode>(ErrorCode::InsufficientPoolFunds),
        ({
            let key = spec_commitment(secret_hash@, nullifier@, amount);
            let c = old(ledger).commitments@[old(ledger).commitment_index_of(key)];
            !old(ledger).has_nullifier(nullifier@) && spec_is_allowed_amount(amount)
                && bundle_has_ed25519_verifier(first_instruction) && old(ledger).has_commitment(key)
                && !c.spent && c.amount == amount && amount <= old(ledger).vault_balance && old(
                ledger,
            ).pool.withdraw_count == u64::MAX
        }) ==> r == Err::<(), ErrorCode>(ErrorCode::Overflow),
        r is Ok <==> ({
            let key = spec_commitment(secret_hash@, nullifier@, amount);
            let c = old(ledger).commitments@[old(ledger).commitment_index_of(key)];
            !old(ledger).has_nullifier(nullifier@) && spec_is_allowed_amount(amount)
                && bundle_has_ed25519_verifier(first_instruction) && old(ledger).has_commitment(key)
                && !c.spent && c.amount == amount && amount <= old(ledger).vault_balance && old(
                ledger,
            ).pool.withdraw_count < u64::MAX
        }),
        r is Ok ==> ({
            let key = spec_commitment(secret_hash@, nullifier@, amount);
            let i = old(ledger).commitment_index_of(key);
            let c = old(ledger).commitments@[i];
            &&& final(ledger).commitments@ == old(ledger).commitments@.update(
                i,
                (CommitmentPDA { spent: true, ..c }),
            )
            &&& final(ledger).nullifiers@ == old(ledger).nullifiers@.push(
                (NullifierPDA { nullifier: *nullifier, used_at: now }),
            )
            &&& final(ledger).vault_balance == old(ledger).vault_balance - amount
            &&& final(ledger).pool == (PrivacyPool {
                total_withdrawn: (old(ledger).pool.total_withdrawn + amount) as u64,
                withdraw_count: (old(ledger).pool.withdraw_count + 1) as u64,
                ..old(ledger).pool
            })
            &&& final(ledger).pending@ == old(ledger).pending@
            &&& final(ledger).churn_vaults@ == old(ledger).churn_vaults@
        }),
{
    match find_nullifier(&ledger.nullifiers, nullifier) {
        Some(_) => {
            return Err(ErrorCode::NullifierAlreadyUsed);
        },
        None => {},
    }
    if !is_allowed_amount(amount) {
        return Err(ErrorCode::InvalidWithdrawAmount);
    }
    match first_instruction {
        Some(VerifierProgram::Ed25519) => {},
        _ => {
            return Err(ErrorCode::InvalidSignatureInstruction);
        },
    }
    let key = compute_commitment(secret_hash, nullifier, amount);
    let i = match find_commitment(&ledger.commitments, &key) {
        Some(i) => i,
        None => {
            return Err(ErrorCode::InvalidCommitmentProof);
        },
    };
    proof {
        let j = ledger.commitment_index_of(key@);
        assert(ledger.commitments@[j].commitment@ == key@);
        if i != j {
            assert(false);
        }
    }
    let c = ledger.commitments[i];
    if c.spent {
        return Err(ErrorCode::NullifierAlreadyUsed);
    }
    if c.amount != amount {
        return Err(ErrorCode::InvalidAmount);
    }
    if amount > ledger.vault_balance {
        return Err(ErrorCode::InsufficientPoolFunds);
    }
    let count = match ledger.pool.withdraw_count.checked_add(1) {
        Some(c) => c,
        None => {
            return Err(ErrorCode::Overflow);
        },
    };
    proof {
        lemma_sum_churn_nonneg(ledger.churn_vaults@);
    }
    let total = ledger.pool.total_withdrawn + amount;
    ledger.commitments.set(i, CommitmentPDA { spent: true, ..c });
    ledger.nullifiers.push(NullifierPDA { nullifier: *nullifier, used_at: now });
    ledger.vault_balance = ledger.vault_balance - amount;
    ledger.pool.total_withdrawn = total;
    ledger.pool.withdraw_count = count;
    Ok(())
}

} // verus!
