use vstd::prelude::*;
use crate::constants::ENTROPY_MULTIPLIER;
use crate::constants::MAX_DELAY_SECONDS;
use crate::constants::MIN_DELAY_SECONDS;
use crate::constants::spec_is_allowed_amount;
use crate::constants::is_allowed_amount;
use crate::errors::ErrorCode;
use crate::pool::ChurnVault;
use crate::pool::ChurnVaultState;
use crate::pool::PendingWithdraw;
use crate::pool::PoolLedger;
use crate::pool::PrivacyPool;
use crate::pool::lemma_sum_churn_bound;
use crate::pool::lemma_sum_churn_nonneg;
use crate::pool::lemma_sum_churn_push;
use crate::pool::lemma_sum_churn_update;
use crate::util::bytes32_eq;

verus! {

/// A read-only snapshot of the pool's aggregates.
#[derive(Clone, Copy, Debug, PartialEq, Eq, Structural)]
pub struct PoolStats {
    /// Value currently in the pool's own custody.
    pub balance: u64,
    /// Sum of every amount ever deposited.
    pub total_deposited: u64,
    /// Sum of every amount ever withdrawn.
    pub total_withdrawn: u64,
    /// Number of successful deposits.
    pub deposit_count: u64,
    /// Number of successful withdrawals and claims.
    pub withdraw_count: u64,
}

/// Finds the position of the pending withdrawal keyed by `recipient`.
pub(crate) fn find_pending(pending: &Vec<PendingWithdraw>, recipient: &[u8; 32]) -> (r: Option<
    usize,
>)
    ensures
        match r {
            Some(i) => i < pending@.len() && pending@[i as int].recipient@ == recipient@,
            None => forall|j: int| 0 <= j < pending@.len() ==> pending@[j].recipient@ != recipient@,
        },
{
    let mut i: usize = 0;
    while i < pending.len()
        invariant
            i <= pending@.len(),
            forall|j: int| 0 <= j < i ==> pending@[j].recipient@ != recipient@,
        decreases pending@.len() - i,
    {
        if bytes32_eq(&pending[i].recipient, recipient) {
            return Some(i);
        }
        i += 1;
    }
    None
}

/// Finds the position of the churn vault with index `idx`.
pub(crate) fn find_churn_vault(vaults: &Vec<ChurnVault>, idx: u8) -> (r: Option<usize>)
    ensures
        match r {
            Some(i) => i < vaults@.len() && vaults@[i as int].state.vault_index == idx,
            None => forall|j: int|
                0 <= j < vaults@.len() ==> vaults@[j].state.vault_index != idx,
        },
{
    let mut i: usize = 0;
    while i < vaults.len()
        invariant
            i <= vaults@.len(),
            forall|j: int| 0 <= j < i ==> vaults@[j].state.vault_index != idx,
        decreases vaults@.len() - i,
    {
        if vaults[i].state.vault_index == idx {
            return Some(i);
        }
        i += 1;
    }
    None
}

/// Creates the pool, once, with every aggregate at zero and no records.
pub fn init_privacy_pool() -> (ledger: PoolLedger)
    ensures
        ledger.wf(),
        ledger.pool == (PrivacyPool {
            total_deposited: 0,
            total_withdrawn: 0,
            deposit_count: 0,
            withdraw_count: 0,
            churn_count: 0,
        }),
        ledger.vault_balance == 0,
        ledger.commitments@.len() == 0,
        ledger.nullifiers@.len() == 0,
        ledger.pending@.len() == 0,
        ledger.churn_vaults@.len() == 0,
{
    PoolLedger {
        pool: PrivacyPool {
            total_deposited: 0,
            total_withdrawn: 0,
            deposit_count: 0,
            withdraw_count: 0,
            churn_count: 0,
        },
        vault_balance: 0,
        commitments: Vec::new(),
        nullifiers: Vec::new(),
        pending: Vec::new(),
        churn_vaults: Vec::new(),
    }
}

/// Deposits any positive amount into the pool. Nothing about the depositor is
/// recorded: only the aggregates move.
pub fn pool_deposit(ledger: &mut PoolLedger, amount: u64) -> (r: Result<(), ErrorCode>)
    requires
        old(ledger).wf(),
    ensures
        final(ledger).wf(),
        r is Err ==> final(ledger).same_as(*old(ledger)),
        amount == 0 ==> r == Err::<(), ErrorCode>(ErrorCode::InvalidAmount),
        amount > 0 && (old(ledger).pool.total_deposited + amount > u64::MAX
            || old(ledger).pool.deposit_count + 1 > u64::MAX) ==> r == Err::<(), ErrorCode>(
            ErrorCode::Overflow,
        ),
        r is Ok <==> amount > 0 && old(ledger).pool.total_deposited + amount <= u64::MAX
            && old(ledger).pool.deposit_count + 1 <= u64::MAX,
        r is Ok ==> final(ledger).pool == (PrivacyPool {
            total_deposited: (old(ledger).pool.total_deposited + amount) as u64,
            deposit_count: (old(ledger).pool.deposit_count + 1) as u64,
            ..old(ledger).pool
        }) && final(ledger).vault_balance == old(ledger).vault_balance + amount && final(ledger).commitments@ == old(ledger).commitments@ && final(ledger).nullifiers@ == old(ledger).nullifiers@ && final(ledger).pending@ == old(ledger).pending@ && final(ledger).churn_vaults@ == old(ledger).churn_vaults@,
{
    if amount == 0 {
        return Err(ErrorCode::InvalidAmount);
    }
    let total = match ledger.pool.total_deposited.checked_add(amount) {
        Some(t) => t,
        None => {
            return Err(ErrorCode::Overflow);
        },
    };
    let count = match ledger.pool.deposit_count.checked_add(1) {
        Some(c) => c,
        None => {
            return Err(ErrorCode::Overflow);
        },
    };
    proof {
        lemma_sum_churn_nonneg(ledger.churn_vaults@);
    }
    ledger.vault_balance = ledger.vault_balance + amount;
    ledger.pool.total_deposited = total;
    ledger.pool.deposit_count = count;
    Ok(())
}

/// Reads the pool's aggregates and custody balance.
pub fn get_pool_stats(ledger: &PoolLedger) -> (s: PoolStats)
    ensures
        s == (PoolStats {
            balance: ledger.vault_balance,
            total_deposited: ledger.pool.total_deposited,
            total_withdrawn: ledger.pool.total_withdrawn,
            deposit_count: ledger.pool.deposit_count,
            withdraw_count: ledger.pool.withdraw_count,
        }),
{
    PoolStats {
        balance: ledger.vault_balance,
        total_deposited: ledger.pool.total_deposited,
        total_withdrawn: ledger.pool.total_withdrawn,
        deposit_count: ledger.pool.deposit_count,
        withdraw_count: ledger.pool.withdraw_count,
    }
}

/// The entropy a withdrawal delay is derived from: the slot counter mixed
/// with the first and last byte of the recipient key under an odd multiplier.
/// Both sources are observable chain state, so the delay is unpredictable
/// only to a casual observer; this is a known weakness of the scheme, kept as
/// designed, not a secure random source.
pub open spec fn spec_entropy(slot: u64, recipient: Seq<u8>) -> u64 {
    vstd::wrapping::u64_specs::wrapping_mul(
        vstd::wrapping::u64_specs::wrapping_add(
            vstd::wrapping::u64_specs::wrapping_add(slot, recipient[0] as u64),
            recipient[31] as u64,
        ),
        ENTROPY_MULTIPLIER,
    )
}

/// The delay, in seconds, before a requested withdrawal becomes claimable:
/// at least the minimum and strictly below the maximum.
pub open spec fn spec_withdraw_delay(slot: u64, recipient: Seq<u8>) -> int {
    MIN_DELAY_SECONDS + (spec_entropy(slot, recipient) as int) % (MAX_DELAY_SECONDS
        - MIN_DELAY_SECONDS)
}

/// Delay bound: every derived delay lies in the half-open window from the
/// minimum delay up to, but not reaching, the maximum delay.
pub proof fn lemma_withdraw_delay_bounds(slot: u64, recipient: Seq<u8>)
    ensures
        MIN_DELAY_SECONDS <= spec_withdraw_delay(slot, recipient) < MAX_DELAY_SECONDS,
{
}

/// Requests a withdrawal of a standardized amount for a recipient, creating a
/// pending record that becomes claimable only after a derived delay. Only the
/// recipient identity is recorded, never who asked.
pub fn request_withdraw(
    ledger: &mut PoolLedger,
    recipient: &[u8; 32],
    amount: u64,
    now: i64,
    slot: u64,
) -> (r: Result<(), ErrorCode>)
    requires
        old(ledger).wf(),
        now <= i64::MAX - MAX_DELAY_SECONDS,
    ensures
        final(ledger).wf(),
        r is Err ==> final(ledger).same_as(*old(ledger)),
        old(ledger).has_pending(recipient@) ==> r == Err::<(), ErrorCode>(
            ErrorCode::WithdrawalAlreadyPending,
        ),
        !old(ledger).has_pending(recipient@) && !spec_is_allowed_amount(amount) ==> r == Err::<
            (),
            ErrorCode,
        >(ErrorCode::InvalidWithdrawAmount),
        !old(ledger).has_pending(recipient@) && spec_is_allowed_amount(amount) && amount > old(ledger).vault_balance ==> r == Err::<(), ErrorCode>(ErrorCode::InsufficientPoolFunds),
        r is Ok <==> !old(ledger).has_pending(recipient@) && spec_is_allowed_amount(amount)
            && amount <= old(ledger).vault_balance,
        r is Ok ==> final(ledger).pending@ == old(ledger).pending@.push(
            (PendingWithdraw {
                recipient: *recipient,
                amount,
                requested_at: now,
                available_at: (now + spec_withdraw_delay(slot, recipient@)) as i64,
                claimed: false,
            }),
        ) && final(ledger).pool == old(ledger).pool && final(ledger).vault_balance == old(ledger).vault_balance && final(ledger).commitments@ == old(ledger).commitments@ && final(ledger).nullifiers@ == old(ledger).nullifiers@ && final(ledger).churn_vaults@ == old(ledger).churn_vaults@,
        r is Ok ==> MIN_DELAY_SECONDS <= final(ledger).pending@.last().available_at - now
            < MAX_DELAY_SECONDS,
{
    match find_pending(&ledger.pending, recipient) {
        Some(_) => {
            return Err(ErrorCode::WithdrawalAlreadyPending);
        },
        None => {},
    }
    if !is_allowed_amount(amount) {
        return Err(ErrorCode::InvalidWithdrawAmount);
    }
    if amount > ledger.vault_balance {
        return Err(ErrorCode::InsufficientPoolFunds);
    }
    let b0 = recipient[0];
    let b31 = recipient[31];
    let entropy = slot.wrapping_add(b0 as u64).wrapping_add(b31 as u64).wrapping_mul(
        ENTROPY_MULTIPLIER,
    );
    let delay_range = (MAX_DELAY_SECONDS - MIN_DELAY_SECONDS) as u64;
    let variable_delay = MIN_DELAY_SECONDS + ((entropy % delay_range) as i64);
    let available_at = now + variable_delay;
    let record = PendingWithdraw {
        recipient: *recipient,
        amount,
        requested_at: now,
        available_at,
        claimed: false,
    };
    ledger.pending.push(record);
    Ok(())
}

/// Claims a pending withdrawal once its delay has passed: flips the claimed
/// flag, releases the amount to the recipient and updates the aggregates.
pub fn claim_withdraw(ledger: &mut PoolLedger, recipient: &[u8; 32], now: i64) -> (r: Result<
    (),
    ErrorCode,
>)
    requires
        old(ledger).wf(),
    ensures
        final(ledger).wf(),
        r is Err ==> final(ledger).same_as(*old(ledger)),
        !old(ledger).has_pending(recipient@) ==> r == Err::<(), ErrorCode>(
            ErrorCode::PendingWithdrawNotFound,
        ),
        ({
            let p = old(ledger).pending@[old(ledger).pending_index_of(recipient@)];
            old(ledger).has_pending(recipient@) && p.claimed
        }) ==> r == Err::<(), ErrorCode>(ErrorCode::AlreadyClaimed),
        ({
            let p = old(ledger).pending@[old(ledger).pending_index_of(recipient@)];
            old(ledger).has_pending(recipient@) && !p.claimed && now < p.available_at
        }) ==> r == Err::<(), ErrorCode>(ErrorCode::WithdrawNotReady),
        ({
            let p = old(ledger).pending@[old(ledger).pending_index_of(recipient@)];
            old(ledger).has_pending(recipient@) && !p.claimed && now >= p.available_at && p.amount
                > old(ledger).vault_balance
        }) ==> r == Err::<(), ErrorCode>(ErrorCode::InsufficientPoolFunds),
        ({
            let p = old(ledger).pending@[old(ledger).pending_index_of(recipient@)];
            old(ledger).has_pending(recipient@) && !p.claimed && now >= p.available_at && p.amount
                <= old(ledger).vault_balance && old(ledger).pool.withdraw_count == u64::MAX
        }) ==> r == Err::<(), ErrorCode>(ErrorCode::Overflow),
        r is Ok <==> ({
            let p = old(ledger).pending@[old(ledger).pending_index_of(recipient@)];
            old(ledger).has_pending(recipient@) && !p.claimed && now >= p.available_at && p.amount
                <= old(ledger).vault_balance && old(ledger).pool.withdraw_count < u64::MAX
        }),
        r is Ok ==> ({
            let i = old(ledger).pending_index_of(recipient@);
            let p = old(ledger).pending@[i];
            &&& final(ledger).pending@ == old(ledger).pending@.update(
                i,
                (PendingWithdraw { claimed: true, ..p }),
            )
            &&& final(ledger).vault_balance == old(ledger).vault_balance - p.amount
            &&& final(ledger).pool == (PrivacyPool {
                total_withdrawn: (old(ledger).pool.total_withdrawn + p.amount) as u64,
                withdraw_count: (old(ledger).pool.withdraw_count + 1) as u64,
                ..old(ledger).pool
            })
            &&& final(ledger).commitments@ == old(ledger).commitments@
            &&& final(ledger).nullifiers@ == old(ledger).nullifiers@
            &&& final(ledger).churn_vaults@ == old(ledger).churn_vaults@
        }),
{
    let i = match find_pending(&ledger.pending, recipient) {
        Some(i) => i,
        None => {
            return Err(ErrorCode::PendingWithdrawNotFound);
        },
    };
    proof {
        let j = ledger.pending_index_of(recipient@);
        assert(ledger.pending@[j].recipient@ == recipient@);
        if i != j {
            assert(false);
        }
    }
    let p = ledger.pending[i];
    if p.claimed {
        return Err(ErrorCode::AlreadyClaimed);
    }
    if now < p.available_at {
        return Err(ErrorCode::WithdrawNotReady);
    }
    if p.amount > ledger.vault_balance {
        return Err(ErrorCode::InsufficientPoolFunds);
    }
    let count = match ledger.pool.withdraw_count.checked_add(1) {
        Some(c) => c,
        None => {
            return Err(ErrorCode::Overflow);
        },
    };
    proof {
        lemma_sum_churn_nonneg(ledger.churn_vaults@);
    }
    let total = ledger.pool.total_withdrawn + p.amount;
    ledger.pending.set(i, PendingWithdraw { claimed: true, ..p });
    ledger.vault_balance = ledger.vault_balance - p.amount;
    ledger.pool.total_withdrawn = total;
    ledger.pool.withdraw_count = count;
    Ok(())
}

/// Creates the churn vault with the given index, once per index 0, 1, 2.
pub fn init_churn_vault(ledger: &mut PoolLedger, vault_index: u8) -> (r: Result<(), ErrorCode>)
    requires
        old(ledger).wf(),
    ensures
        final(ledger).wf(),
        r is Err ==> final(ledger).same_as(*old(ledger)),
        old(ledger).has_churn_vault(vault_index) ==> r == Err::<(), ErrorCode>(
            ErrorCode::ChurnVaultAlreadyExists,
        ),
        !old(ledger).has_churn_vault(vault_index) && vault_index >= 3 ==> r == Err::<(), ErrorCode>(
            ErrorCode::InvalidChurnIndex,
        ),
        r is Ok <==> vault_index < 3 && !old(ledger).has_churn_vault(vault_index),
        r is Ok ==> final(ledger).churn_vaults@ == old(ledger).churn_vaults@.push(
            ChurnVault {
                state: ChurnVaultState { vault_index, total_churned: 0, churn_count: 0 },
                balance: 0,
            },
        ) && final(ledger).pool == old(ledger).pool && final(ledger).vault_balance == old(ledger).vault_balance && final(ledger).commitments@ == old(ledger).commitments@ && final(ledger).nullifiers@ == old(ledger).nullifiers@ && final(ledger).pending@ == old(ledger).pending@,
{
    match find_churn_vault(&ledger.churn_vaults, vault_index) {
        Some(_) => {
            return Err(ErrorCode::ChurnVaultAlreadyExists);
        },
        None => {},
    }
    if vault_index >= 3 {
        return Err(ErrorCode::InvalidChurnIndex);
    }
    let vault = ChurnVault {
        state: ChurnVaultState { vault_index, total_churned: 0, churn_count: 0 },
        balance: 0,
    };
    proof {
        lemma_sum_churn_push(ledger.churn_vaults@, vault);
    }
    ledger.churn_vaults.push(vault);
    Ok(())
}

/// Moves funds from the main pool into one churn vault: a decoy transfer that
/// makes internal activity look like real traffic. Balance-neutral across the
/// pool and its vaults.
pub fn pool_churn(ledger: &mut PoolLedger, vault_index: u8, amount: u64) -> (r: Result<
    (),
    ErrorCode,
>)
    requires
        old(ledger).wf(),
    ensures
        final(ledger).wf(),
        r is Err ==> final(ledger).same_as(*old(ledger)),
        !old(ledger).has_churn_vault(vault_index) ==> r == Err::<(), ErrorCode>(
            ErrorCode::ChurnVaultNotFound,
        ),
        old(ledger).has_churn_vault(vault_index) && amount == 0 ==> r == Err::<(), ErrorCode>(
            ErrorCode::InvalidAmount,
        ),
        old(ledger).has_churn_vault(vault_index) && amount > 0 && amount > old(ledger).vault_balance ==> r == Err::<(), ErrorCode>(ErrorCode::InsufficientPoolFunds),
        r is Ok <==> old(ledger).has_churn_vault(vault_index) && amount > 0 && amount <= old(ledger).vault_balance,
        r is Ok ==> ({
            let i = old(ledger).churn_vault_index_of(vault_index);
            let v = old(ledger).churn_vaults@[i];
            &&& final(ledger).churn_vaults@ == old(ledger).churn_vaults@.update(
                i,
                (ChurnVault {
                    state: (ChurnVaultState {
                        vault_index: v.state.vault_index,
                        total_churned: v.state.total_churned.saturating_add(amount),
                        churn_count: v.state.churn_count.saturating_add(1),
                    }),
                    balance: (v.balance + amount) as u64,
                }),
            )
            &&& final(ledger).vault_balance == old(ledger).vault_balance - amount
            &&& final(ledger).pool == (PrivacyPool {
                churn_count: old(ledger).pool.churn_count.saturating_add(1),
                ..old(ledger).pool
            })
            &&& final(ledger).commitments@ == old(ledger).commitments@
            &&& final(ledger).nullifiers@ == old(ledger).nullifiers@
            &&& final(ledger).pending@ == old(ledger).pending@
        }),
{
    let i = match find_churn_vault(&ledger.churn_vaults, vault_index) {
        Some(i) => i,
        None => {
            return Err(ErrorCode::ChurnVaultNotFound);
        },
    };
    if amount == 0 {
        return Err(ErrorCode::InvalidAmount);
    }
    if amount > ledger.vault_balance {
        return Err(ErrorCode::InsufficientPoolFunds);
    }
    proof {
        let j = ledger.churn_vault_index_of(vault_index);
        assert(ledger.churn_vaults@[j].state.vault_index == vault_index);
        if i != j {
            assert(false);
        }
        lemma_sum_churn_bound(ledger.churn_vaults@, i as int);
        lemma_sum_churn_nonneg(ledger.churn_vaults@);
    }
    let old_vault = ledger.churn_vaults[i];
    let updated = ChurnVault {
        state: ChurnVaultState {
            vault_index: old_vault.state.vault_index,
            total_churned: old_vault.state.total_churned.saturating_add(amount),
            churn_count: old_vault.state.churn_count.saturating_add(1),
        },
        balance: old_vault.balance + amount,
    };
    proof {
        lemma_sum_churn_update(ledger.churn_vaults@, i as int, updated);
    }
    ledger.churn_vaults.set(i, updated);
    ledger.vault_balance = ledger.vault_balance - amount;
    ledger.pool.churn_count = ledger.pool.churn_count.saturating_add(1);
    Ok(())
}

/// Moves funds from one churn vault back into the main pool: the second half
/// of a decoy movement. No bookkeeping beyond the transfer itself.
pub fn pool_unchurn(ledger: &mut PoolLedger, vault_index: u8, amount: u64) -> (r: Result<
    (),
    ErrorCode,
>)
    requires
        old(ledger).wf(),
    ensures
        final(ledger).wf(),
        r is Err ==> final(ledger).same_as(*old(ledger)),
        !old(ledger).has_churn_vault(vault_index) ==> r == Err::<(), ErrorCode>(
            ErrorCode::ChurnVaultNotFound,
        ),
        old(ledger).has_churn_vault(vault_index) && amount == 0 ==> r == Err::<(), ErrorCode>(
            ErrorCode::InvalidAmount,
        ),
        ({
            let i = old(ledger).churn_vault_index_of(vault_index);
            old(ledger).has_churn_vault(vault_index) && amount > 0 && amount > old(ledger).churn_vaults@[i].balance
        }) ==> r == Err::<(), ErrorCode>(ErrorCode::InsufficientChurnFunds),
        r is Ok <==> ({
            let i = old(ledger).churn_vault_index_of(vault_index);
            old(ledger).has_churn_vault(vault_index) && amount > 0 && amount <= old(ledger).churn_vaults@[i].balance
        }),
        r is Ok ==> ({
            let i = old(ledger).churn_vault_index_of(vault_index);
            let v = old(ledger).churn_vaults@[i];
            &&& final(ledger).churn_vaults@ == old(ledger).churn_vaults@.update(
                i,
                (ChurnVault { state: v.state, balance: (v.balance - amount) as u64 }),
            )
            &&& final(ledger).vault_balance == old(ledger).vault_balance + amount
            &&& final(ledger).pool == old(ledger).pool
            &&& final(ledger).commitments@ == old(ledger).commitments@
            &&& final(ledger).nullifiers@ == old(ledger).nullifiers@
            &&& final(ledger).pending@ == old(ledger).pending@
        }),
{
    let i = match find_churn_vault(&ledger.churn_vaults, vault_index) {
        Some(i) => i,
        None => {
            return Err(ErrorCode::ChurnVaultNotFound);
        },
    };
    proof {
        let j = ledger.churn_vault_index_of(vault_index);
        assert(ledger.churn_vaults@[j].state.vault_index == vault_index);
        if i != j {
            assert(false);
        }
    }
    if amount == 0 {
        return Err(ErrorCode::InvalidAmount);
    }
    let old_vault = ledger.churn_vaults[i];
    if amount > old_vault.balance {
        return Err(ErrorCode::InsufficientChurnFunds);
    }
    proof {
        lemma_sum_churn_bound(ledger.churn_vaults@, i as int);
        lemma_sum_churn_nonneg(ledger.churn_vaults@);
    }
    let updated = ChurnVault { state: old_vault.state, balance: old_vault.balance - amount };
    proof {
        lemma_sum_churn_update(ledger.churn_vaults@, i as int, updated);
    }
    ledger.churn_vaults.set(i, updated);
    ledger.vault_balance = ledger.vault_balance + amount;
    Ok(())
}

} // verus!
