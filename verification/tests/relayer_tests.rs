use offuscate::errors::ErrorCode;
use offuscate::privacy_pool::init_privacy_pool;
use offuscate::privacy_pool::pool_deposit;
use offuscate::privacy_pool::request_withdraw;
use offuscate::relayer::claim_withdraw_relayed;
use offuscate::relayer::VerifierProgram;

const RECIPIENT: [u8; 32] = [0x77; 32];

#[test]
fn relayed_claim_needs_the_verifier_instruction() {
    let mut ledger = init_privacy_pool();
    pool_deposit(&mut ledger, 100_000_000).unwrap();
    request_withdraw(&mut ledger, &RECIPIENT, 100_000_000, 1_000, 3).unwrap();
    let available_at = ledger.pending[0].available_at;

    assert_eq!(
        claim_withdraw_relayed(&mut ledger, &RECIPIENT, available_at, None),
        Err(ErrorCode::InvalidSignatureInstruction)
    );
    assert_eq!(
        claim_withdraw_relayed(&mut ledger, &RECIPIENT, available_at, Some(VerifierProgram::Other)),
        Err(ErrorCode::InvalidSignatureInstruction)
    );
    assert_eq!(
        claim_withdraw_relayed(
            &mut ledger,
            &RECIPIENT,
            available_at,
            Some(VerifierProgram::Ed25519)
        ),
        Ok(())
    );
    assert_eq!(ledger.vault_balance, 0);
    assert_eq!(ledger.pool.total_withdrawn, 100_000_000);
}

#[test]
fn relayed_claim_respects_the_time_gate_and_claims_once() {
    let mut ledger = init_privacy_pool();
    pool_deposit(&mut ledger, 100_000_000).unwrap();
    request_withdraw(&mut ledger, &RECIPIENT, 100_000_000, 1_000, 3).unwrap();
    let available_at = ledger.pending[0].available_at;
    let artifact = Some(VerifierProgram::Ed25519);

    assert_eq!(
        claim_withdraw_relayed(&mut ledger, &RECIPIENT, available_at - 1, artifact),
        Err(ErrorCode::WithdrawNotReady)
    );
    assert_eq!(claim_withdraw_relayed(&mut ledger, &RECIPIENT, available_at, artifact), Ok(()));
    assert_eq!(
        claim_withdraw_relayed(&mut ledger, &RECIPIENT, available_at + 1, artifact),
        Err(ErrorCode::AlreadyClaimed)
    );
}

#[test]
fn relayed_claim_for_unknown_recipient_is_refused() {
    let mut ledger = init_privacy_pool();
    assert_eq!(
        claim_withdraw_relayed(&mut ledger, &RECIPIENT, 1_000, Some(VerifierProgram::Ed25519)),
        Err(ErrorCode::PendingWithdrawNotFound)
    );
}
