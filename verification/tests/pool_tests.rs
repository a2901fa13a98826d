use offuscate::errors::ErrorCode;
use offuscate::privacy_pool::claim_withdraw;
use offuscate::privacy_pool::get_pool_stats;
use offuscate::privacy_pool::init_churn_vault;
use offuscate::privacy_pool::init_privacy_pool;
use offuscate::privacy_pool::pool_churn;
use offuscate::privacy_pool::pool_deposit;
use offuscate::privacy_pool::pool_unchurn;
use offuscate::privacy_pool::request_withdraw;

const RECIPIENT: [u8; 32] = [0x42; 32];

#[test]
fn deposit_updates_aggregates() {
    let mut ledger = init_privacy_pool();
    assert_eq!(pool_deposit(&mut ledger, 250), Ok(()));
    assert_eq!(pool_deposit(&mut ledger, 750), Ok(()));
    let stats = get_pool_stats(&ledger);
    assert_eq!(stats.balance, 1_000);
    assert_eq!(stats.total_deposited, 1_000);
    assert_eq!(stats.total_withdrawn, 0);
    assert_eq!(stats.deposit_count, 2);
    assert_eq!(stats.withdraw_count, 0);
}

#[test]
fn deposit_rejects_zero() {
    let mut ledger = init_privacy_pool();
    assert_eq!(pool_deposit(&mut ledger, 0), Err(ErrorCode::InvalidAmount));
}

#[test]
fn deposit_reports_overflow() {
    let mut ledger = init_privacy_pool();
    assert_eq!(pool_deposit(&mut ledger, u64::MAX), Ok(()));
    assert_eq!(pool_deposit(&mut ledger, 1), Err(ErrorCode::Overflow));
}

#[test]
fn request_withdraw_rejects_nonstandard_amounts() {
    let mut ledger = init_privacy_pool();
    pool_deposit(&mut ledger, 2_000_000_000).unwrap();
    for amount in [0u64, 1, 99_999_999, 100_000_001, 123_456_789, 999_999_999] {
        assert_eq!(
            request_withdraw(&mut ledger, &RECIPIENT, amount, 1_000, 5),
            Err(ErrorCode::InvalidWithdrawAmount)
        );
    }
}

#[test]
fn request_withdraw_accepts_each_denomination() {
    for amount in [100_000_000u64, 500_000_000, 1_000_000_000] {
        let mut ledger = init_privacy_pool();
        pool_deposit(&mut ledger, 1_000_000_000).unwrap();
        assert_eq!(request_withdraw(&mut ledger, &RECIPIENT, amount, 1_000, 5), Ok(()));
    }
}

#[test]
fn request_withdraw_needs_pool_funds() {
    let mut ledger = init_privacy_pool();
    pool_deposit(&mut ledger, 99_999_999).unwrap();
    assert_eq!(
        request_withdraw(&mut ledger, &RECIPIENT, 100_000_000, 1_000, 5),
        Err(ErrorCode::InsufficientPoolFunds)
    );
}

#[test]
fn request_withdraw_delay_stays_in_window() {
    // A spread of slots and recipients: every derived delay lands in [30, 300).
    for slot in [0u64, 1, 7, 1_000, u64::MAX] {
        for fill in [0u8, 1, 0x42, 0xFF] {
            let mut ledger = init_privacy_pool();
            pool_deposit(&mut ledger, 100_000_000).unwrap();
            let recipient = [fill; 32];
            let now = 10_000i64;
            request_withdraw(&mut ledger, &recipient, 100_000_000, now, slot).unwrap();
            let pending = &ledger.pending[0];
            assert_eq!(pending.requested_at, now);
            let delay = pending.available_at - now;
            assert!((30..300).contains(&delay), "delay {delay} out of window");
            assert!(!pending.claimed);
        }
    }
}

#[test]
fn second_request_for_same_recipient_is_refused() {
    let mut ledger = init_privacy_pool();
    pool_deposit(&mut ledger, 2_000_000_000).unwrap();
    request_withdraw(&mut ledger, &RECIPIENT, 100_000_000, 1_000, 5).unwrap();
    assert_eq!(
        request_withdraw(&mut ledger, &RECIPIENT, 100_000_000, 2_000, 6),
        Err(ErrorCode::WithdrawalAlreadyPending)
    );
}

#[test]
fn delayed_withdrawal_lifecycle() {
    // Request at time T with an exactly covering balance, fail before the
    // gate, succeed at it, and never twice.
    let mut ledger = init_privacy_pool();
    pool_deposit(&mut ledger, 100_000_000).unwrap();
    let t = 50_000i64;
    request_withdraw(&mut ledger, &RECIPIENT, 100_000_000, t, 99).unwrap();
    let available_at = ledger.pending[0].available_at;
    assert!(available_at >= t + 30 && available_at < t + 300);

    assert_eq!(claim_withdraw(&mut ledger, &RECIPIENT, t + 10), Err(ErrorCode::WithdrawNotReady));
    assert_eq!(claim_withdraw(&mut ledger, &RECIPIENT, available_at), Ok(()));
    assert!(ledger.pending[0].claimed);
    let stats = get_pool_stats(&ledger);
    assert_eq!(stats.balance, 0);
    assert_eq!(stats.total_withdrawn, 100_000_000);
    assert_eq!(stats.withdraw_count, 1);
    assert_eq!(
        claim_withdraw(&mut ledger, &RECIPIENT, available_at + 100),
        Err(ErrorCode::AlreadyClaimed)
    );
}

#[test]
fn claim_without_request_is_refused() {
    let mut ledger = init_privacy_pool();
    assert_eq!(
        claim_withdraw(&mut ledger, &RECIPIENT, 1_000),
        Err(ErrorCode::PendingWithdrawNotFound)
    );
}

#[test]
fn churn_vault_lifecycle() {
    let mut ledger = init_privacy_pool();
    assert_eq!(init_churn_vault(&mut ledger, 3), Err(ErrorCode::InvalidChurnIndex));
    assert_eq!(init_churn_vault(&mut ledger, 0), Ok(()));
    assert_eq!(init_churn_vault(&mut ledger, 0), Err(ErrorCode::ChurnVaultAlreadyExists));
    assert_eq!(init_churn_vault(&mut ledger, 1), Ok(()));
    assert_eq!(init_churn_vault(&mut ledger, 2), Ok(()));
}

#[test]
fn churn_moves_funds_and_unchurn_returns_them() {
    let mut ledger = init_privacy_pool();
    pool_deposit(&mut ledger, 1_000).unwrap();
    init_churn_vault(&mut ledger, 1).unwrap();

    assert_eq!(pool_churn(&mut ledger, 1, 400), Ok(()));
    assert_eq!(ledger.vault_balance, 600);
    assert_eq!(ledger.churn_vaults[0].balance, 400);
    assert_eq!(ledger.churn_vaults[0].state.total_churned, 400);
    assert_eq!(ledger.churn_vaults[0].state.churn_count, 1);
    assert_eq!(ledger.pool.churn_count, 1);
    // Conservation across pool and vaults: what came in is still there.
    assert_eq!(
        ledger.vault_balance + ledger.churn_vaults[0].balance,
        ledger.pool.total_deposited - ledger.pool.total_withdrawn
    );

    assert_eq!(pool_unchurn(&mut ledger, 1, 400), Ok(()));
    assert_eq!(ledger.vault_balance, 1_000);
    assert_eq!(ledger.churn_vaults[0].balance, 0);
}

#[test]
fn churn_error_cases() {
    let mut ledger = init_privacy_pool();
    pool_deposit(&mut ledger, 1_000).unwrap();
    assert_eq!(pool_churn(&mut ledger, 0, 10), Err(ErrorCode::ChurnVaultNotFound));
    init_churn_vault(&mut ledger, 0).unwrap();
    assert_eq!(pool_churn(&mut ledger, 0, 0), Err(ErrorCode::InvalidAmount));
    assert_eq!(pool_churn(&mut ledger, 0, 1_001), Err(ErrorCode::InsufficientPoolFunds));
    assert_eq!(pool_unchurn(&mut ledger, 2, 10), Err(ErrorCode::ChurnVaultNotFound));
    assert_eq!(pool_unchurn(&mut ledger, 0, 0), Err(ErrorCode::InvalidAmount));
    assert_eq!(pool_unchurn(&mut ledger, 0, 1), Err(ErrorCode::InsufficientChurnFunds));
}
