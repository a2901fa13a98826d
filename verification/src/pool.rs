use vstd::prelude::*;
use crate::commitment::CommitmentPDA;
use crate::commitment::NullifierPDA;

verus! {

/// The pool's aggregate counters. Only totals are kept: no individual deposit
/// is recorded here, which is what breaks the sender-to-recipient linkage.
#[derive(Clone, Copy, Debug, PartialEq, Eq, Structural)]
pub struct PrivacyPool {
    /// Sum of every amount ever deposited.
    pub total_deposited: u64,
    /// Sum of every amount ever withdrawn.
    pub total_withdrawn: u64,
    /// Number of successful deposits.
    pub deposit_count: u64,
    /// Number of successful withdrawals and claims.
    pub withdraw_count: u64,
    /// Number of churn operations (a statistic; saturates rather than fails).
    pub churn_count: u64,
}

/// A pending withdrawal, keyed by its recipient. Created by a withdrawal
/// request with a pseudo-random delay; its `claimed` flag flips exactly once,
/// at the successful claim; the record is never deleted.
#[derive(Clone, Copy, Debug, PartialEq, Eq)]
pub struct PendingWithdraw {
    /// The recipient identity (a stealth address), the record's key.
    pub recipient: [u8; 32],
    /// The standardized amount to release.
    pub amount: u64,
    /// When the withdrawal was requested.
    pub requested_at: i64,
    /// When it becomes claimable: `requested_at` plus the derived delay.
    pub available_at: i64,
    /// Whether the withdrawal has been claimed.
    pub claimed: bool,
}

/// Counters of one churn vault, keyed by its index.
#[derive(Clone, Copy, Debug, PartialEq, Eq, Structural)]
pub struct ChurnVaultState {
    /// Which churn vault this is; fixed at creation, always below 3.
    pub vault_index: u8,
    /// Total value ever churned through this vault (saturating statistic).
    pub total_churned: u64,
    /// Number of churns through this vault (saturating statistic).
    pub churn_count: u64,
}

/// A churn vault together with the balance its custody account holds.
#[derive(Clone, Copy, Debug, PartialEq, Eq, Structural)]
pub struct ChurnVault {
    /// The vault's counters.
    pub state: ChurnVaultState,
    /// The value currently parked in this vault.
    pub balance: u64,
}

/// The whole pool: aggregate counters, the custody balance, and the keyed
/// record sets (commitments, nullifiers, pending withdrawals, churn vaults).
/// Each set lives here as an append-mostly vector whose keys stay unique,
/// mirroring keyed storage whose creation fails on an occupied slot.
#[derive(Clone, Debug)]
pub struct PoolLedger {
    /// Aggregate counters.
    pub pool: PrivacyPool,
    /// Value in the pool's own custody (churn vault balances not counted).
    pub vault_balance: u64,
    /// One record per unique commitment hash.
    pub commitments: Vec<CommitmentPDA>,
    /// One record per nullifier ever used.
    pub nullifiers: Vec<NullifierPDA>,
    /// One record per recipient that ever requested a withdrawal.
    pub pending: Vec<PendingWithdraw>,
    /// The auxiliary mixing vaults, at most one per index 0, 1, 2.
    pub churn_vaults: Vec<ChurnVault>,
}

/// Sum of the balances parked in the churn vaults.
pub open spec fn sum_churn_balances(s: Seq<ChurnVault>) -> int
    decreases s.len(),
{
    if s.len() == 0 {
        0
    } else {
        sum_churn_balances(s.drop_last()) + s.last().balance
    }
}

pub proof fn lemma_sum_churn_nonneg(s: Seq<ChurnVault>)
    ensures
        sum_churn_balances(s) >= 0,
    decreases s.len(),
{
    if s.len() > 0 {
        lemma_sum_churn_nonneg(s.drop_last());
    }
}

pub proof fn lemma_sum_churn_push(s: Seq<ChurnVault>, v: ChurnVault)
    ensures
        sum_churn_balances(s.push(v)) == sum_churn_balances(s) + v.balance,
{
    assert(s.push(v).drop_last() =~= s);
}

pub proof fn lemma_sum_churn_update(s: Seq<ChurnVault>, i: int, v: ChurnVault)
    requires
        0 <= i < s.len(),
    ensures
        sum_churn_balances(s.update(i, v)) == sum_churn_balances(s) - s[i].balance + v.balance,
    decreases s.len(),
{
    if i == s.len() - 1 {
        assert(s.update(i, v).drop_last() =~= s.drop_last());
    } else {
        assert(s.update(i, v).drop_last() =~= s.drop_last().update(i, v));
        lemma_sum_churn_update(s.drop_last(), i, v);
    }
}

/// Each single vault balance is at most the sum of all of them.
pub proof fn lemma_sum_churn_bound(s: Seq<ChurnVault>, i: int)
    requires
        0 <= i < s.len(),
    ensures
        s[i].balance <= sum_churn_balances(s),
    decreases s.len(),
{
    if i == s.len() - 1 {
        lemma_sum_churn_nonneg(s.drop_last());
    } else {
        lemma_sum_churn_bound(s.drop_last(), i);
    }
}

impl PoolLedger {
    /// Whether some commitment record carries this key.
    pub open spec fn has_commitment(self, key: Seq<u8>) -> bool {
        exists|i: int|
            0 <= i < self.commitments@.len() && self.commitments@[i].commitment@ == key
    }

    /// The position of the commitment record with this key (meaningful only
    /// when `has_commitment` holds; unique by well-formedness).
    pub open spec fn commitment_index_of(self, key: Seq<u8>) -> int {
        choose|i: int|
            0 <= i < self.commitments@.len() && self.commitments@[i].commitment@ == key
    }

    /// Whether this nullifier has ever been used.
    pub open spec fn has_nullifier(self, key: Seq<u8>) -> bool {
        exists|i: int|
            0 <= i < self.nullifiers@.len() && self.nullifiers@[i].nullifier@ == key
    }

    /// Whether this recipient ever requested a withdrawal.
    pub open spec fn has_pending(self, recipient: Seq<u8>) -> bool {
        exists|i: int|
            0 <= i < self.pending@.len() && self.pending@[i].recipient@ == recipient
    }

    /// The position of the pending withdrawal keyed by this recipient
    /// (meaningful only when `has_pending` holds; unique by well-formedness).
    pub open spec fn pending_index_of(self, recipient: Seq<u8>) -> int {
        choose|i: int|
            0 <= i < self.pending@.len() && self.pending@[i].recipient@ == recipient
    }

    /// Whether the churn vault with this index was initialized.
    pub open spec fn has_churn_vault(self, idx: u8) -> bool {
        exists|i: int|
            0 <= i < self.churn_vaults@.len() && self.churn_vaults@[i].state.vault_index == idx
    }

    /// The position of the churn vault with this index (meaningful only when
    /// `has_churn_vault` holds; unique by well-formedness).
    pub open spec fn churn_vault_index_of(self, idx: u8) -> int {
        choose|i: int|
            0 <= i < self.churn_vaults@.len() && self.churn_vaults@[i].state.vault_index == idx
    }

    /// Sum of the balances parked in the churn vaults.
    pub open spec fn churn_total(self) -> int {
        sum_churn_balances(self.churn_vaults@)
    }

    /// At most one commitment record per commitment hash: this is the
    /// double-deposit guard.
    pub open spec fn commitments_unique(self) -> bool {
        forall|i: int, j: int|
            0 <= i < j < self.commitments@.len()
                ==> self.commitments@[i].commitment@ != self.commitments@[j].commitment@
    }

    /// At most one record per nullifier: this is the double-spend guard.
    pub open spec fn nullifiers_unique(self) -> bool {
        forall|i: int, j: int|
            0 <= i < j < self.nullifiers@.len()
                ==> self.nullifiers@[i].nullifier@ != self.nullifiers@[j].nullifier@
    }

    /// At most one pending withdrawal per recipient.
    pub open spec fn pending_unique(self) -> bool {
        forall|i: int, j: int|
            0 <= i < j < self.pending@.len()
                ==> self.pending@[i].recipient@ != self.pending@[j].recipient@
    }

    /// Churn vault indices are valid and appear at most once each.
    pub open spec fn churn_vaults_wf(self) -> bool {
        &&& forall|i: int|
            0 <= i < self.churn_vaults@.len() ==> self.churn_vaults@[i].state.vault_index < 3
        &&& forall|i: int, j: int|
            0 <= i < j < self.churn_vaults@.len()
                ==> self.churn_vaults@[i].state.vault_index
                    != self.churn_vaults@[j].state.vault_index
    }

    /// Every pending withdrawal waits at least the minimum and strictly less
    /// than the maximum delay.
    pub open spec fn pending_delays_bounded(self) -> bool {
        forall|i: int|
            0 <= i < self.pending@.len()
                ==> 30 <= #[trigger] self.pending@[i].available_at - self.pending@[i].requested_at
                    < 300
    }

    /// Conservation: what the pool and its churn vaults hold is exactly what
    /// came in minus what went out.
    pub open spec fn conserved(self) -> bool {
        &&& self.pool.total_withdrawn <= self.pool.total_deposited
        &&& self.vault_balance + self.churn_total()
            == self.pool.total_deposited - self.pool.total_withdrawn
    }

    /// Whether two ledger values hold exactly the same state, field by field
    /// and record by record. Failed operations leave the ledger this way.
    pub open spec fn same_as(self, other: PoolLedger) -> bool {
        &&& self.pool == other.pool
        &&& self.vault_balance == other.vault_balance
        &&& self.commitments@ == other.commitments@
        &&& self.nullifiers@ == other.nullifiers@
        &&& self.pending@ == other.pending@
        &&& self.churn_vaults@ == other.churn_vaults@
    }

    /// The ledger's invariant: every constructor establishes it and every
    /// operation preserves it.
    pub open spec fn wf(self) -> bool {
        &&& self.commitments_unique()
        &&& self.nullifiers_unique()
        &&& self.pending_unique()
        &&& self.churn_vaults_wf()
        &&& self.pending_delays_bounded()
        &&& self.conserved()
    }
}

/// Uniqueness of deposits: in a well-formed ledger, two distinct commitment
/// records never share a key, so a commitment that was deposited once can
/// never be recorded again.
pub proof fn lemma_commitment_uniqueness(ledger: PoolLedger, i: int, j: int)
    requires
        ledger.wf(),
        0 <= i < ledger.commitments@.len(),
        0 <= j < ledger.commitments@.len(),
        i != j,
    ensures
        ledger.commitments@[i].commitment@ != ledger.commitments@[j].commitment@,
{
}

/// Double-spend prevention: in a well-formed ledger, two distinct nullifier
/// records never share a key, so a nullifier that was used once can never be
/// recorded again.
pub proof fn lemma_nullifier_uniqueness(ledger: PoolLedger, i: int, j: int)
    requires
        ledger.wf(),
        0 <= i < ledger.nullifiers@.len(),
        0 <= j < ledger.nullifiers@.len(),
        i != j,
    ensures
        ledger.nullifiers@[i].nullifier@ != ledger.nullifiers@[j].nullifier@,
{
}

/// Delay bound: every pending withdrawal a well-formed ledger holds became
/// claimable at least the minimum and strictly less than the maximum delay
/// after it was requested.
pub proof fn lemma_pending_delay_bound(ledger: PoolLedger, i: int)
    requires
        ledger.wf(),
        0 <= i < ledger.pending@.len(),
    ensures
        30 <= ledger.pending@[i].available_at - ledger.pending@[i].requested_at < 300,
{
}

/// Conservation: at every point, the pool custody balance equals total
/// deposits minus total withdrawals, once the balance-neutral churn holdings
/// are counted back in.
pub proof fn lemma_conservation(ledger: PoolLedger)
    requires
        ledger.wf(),
    ensures
        ledger.vault_balance + ledger.churn_total()
            == ledger.pool.total_deposited - ledger.pool.total_withdrawn,
        ledger.pool.total_withdrawn <= ledger.pool.total_deposited,
{
}

} // verus!
