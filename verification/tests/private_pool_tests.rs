use offuscate::commitment::compute_commitment;
use offuscate::errors::ErrorCode;
use offuscate::privacy_pool::init_privacy_pool;
use offuscate::private_pool::private_deposit;
use offuscate::private_pool::private_withdraw;
use offuscate::relayer::VerifierProgram;
use offuscate::relayer::private_withdraw_relayed;

const SECRET_HASH: [u8; 32] = [0x5A; 32];
const NULLIFIER: [u8; 32] = [0xC3; 32];

#[test]
fn private_deposit_and_withdraw_scenario() {
    // Deposit under C = H(secret_hash || nullifier || 500_000_000), then
    // withdraw by revealing the parts; a second withdrawal is a double spend.
    let mut ledger = init_privacy_pool();
    let commitment = compute_commitment(&SECRET_HASH, &NULLIFIER, 500_000_000);

    assert_eq!(private_deposit(&mut ledger, &commitment, 500_000_000, 1_000), Ok(()));
    assert_eq!(ledger.pool.total_deposited, 500_000_000);
    assert_eq!(ledger.vault_balance, 500_000_000);
    assert_eq!(ledger.commitments.len(), 1);
    assert!(!ledger.commitments[0].spent);

    assert_eq!(private_withdraw(&mut ledger, &NULLIFIER, &SECRET_HASH, 500_000_000, 2_000), Ok(()));
    assert_eq!(ledger.pool.total_withdrawn, 500_000_000);
    assert_eq!(ledger.vault_balance, 0);
    assert!(ledger.commitments[0].spent);
    assert_eq!(ledger.nullifiers.len(), 1);

    assert_eq!(
        private_withdraw(&mut ledger, &NULLIFIER, &SECRET_HASH, 500_000_000, 3_000),
        Err(ErrorCode::NullifierAlreadyUsed)
    );
}

#[test]
fn private_deposit_same_commitment_twice_is_refused() {
    let mut ledger = init_privacy_pool();
    let commitment = compute_commitment(&SECRET_HASH, &NULLIFIER, 100_000_000);
    assert_eq!(private_deposit(&mut ledger, &commitment, 100_000_000, 1_000), Ok(()));
    assert_eq!(
        private_deposit(&mut ledger, &commitment, 100_000_000, 2_000),
        Err(ErrorCode::CommitmentAlreadyExists)
    );
    assert_eq!(ledger.commitments.len(), 1);
    assert_eq!(ledger.pool.total_deposited, 100_000_000);
}

#[test]
fn private_deposit_rejects_nonstandard_amounts() {
    let mut ledger = init_privacy_pool();
    for amount in [0u64, 1, 250_000_000, 2_000_000_000] {
        let commitment = compute_commitment(&SECRET_HASH, &NULLIFIER, amount);
        assert_eq!(
            private_deposit(&mut ledger, &commitment, amount, 1_000),
            Err(ErrorCode::InvalidWithdrawAmount)
        );
    }
}

#[test]
fn private_withdraw_rejects_nonstandard_amounts() {
    let mut ledger = init_privacy_pool();
    assert_eq!(
        private_withdraw(&mut ledger, &NULLIFIER, &SECRET_HASH, 123, 1_000),
        Err(ErrorCode::InvalidWithdrawAmount)
    );
}

#[test]
fn private_withdraw_unknown_preimage_is_refused() {
    let mut ledger = init_privacy_pool();
    assert_eq!(
        private_withdraw(&mut ledger, &NULLIFIER, &SECRET_HASH, 500_000_000, 1_000),
        Err(ErrorCode::InvalidCommitmentProof)
    );
}

#[test]
fn private_withdraw_checks_recorded_amount() {
    // The stored record says 500_000_000 even though its key was computed
    // over 100_000_000: the amount cross-check must catch the substitution.
    let mut ledger = init_privacy_pool();
    let commitment = compute_commitment(&SECRET_HASH, &NULLIFIER, 100_000_000);
    private_deposit(&mut ledger, &commitment, 500_000_000, 1_000).unwrap();
    assert_eq!(
        private_withdraw(&mut ledger, &NULLIFIER, &SECRET_HASH, 100_000_000, 2_000),
        Err(ErrorCode::InvalidAmount)
    );
}

#[test]
fn private_withdraw_relayed_needs_the_verifier_instruction() {
    let mut ledger = init_privacy_pool();
    let commitment = compute_commitment(&SECRET_HASH, &NULLIFIER, 500_000_000);
    private_deposit(&mut ledger, &commitment, 500_000_000, 1_000).unwrap();

    assert_eq!(
        private_withdraw_relayed(&mut ledger, &NULLIFIER, &SECRET_HASH, 500_000_000, 2_000, None),
        Err(ErrorCode::InvalidSignatureInstruction)
    );
    assert_eq!(
        private_withdraw_relayed(
            &mut ledger,
            &NULLIFIER,
            &SECRET_HASH,
            500_000_000,
            2_000,
            Some(VerifierProgram::Other)
        ),
        Err(ErrorCode::InvalidSignatureInstruction)
    );
    assert_eq!(
        private_withdraw_relayed(
            &mut ledger,
            &NULLIFIER,
            &SECRET_HASH,
            500_000_000,
            2_000,
            Some(VerifierProgram::Ed25519)
        ),
        Ok(())
    );
    assert_eq!(ledger.pool.total_withdrawn, 500_000_000);
}
