use vstd::prelude::*;
use crate::errors::ErrorCode;
use crate::pool::PendingWithdraw;
use crate::pool::PoolLedger;
use crate::pool::PrivacyPool;
use crate::pool::lemma_sum_churn_nonneg;
use crate::util::bytes32_eq;

verus! {

/// One account handed to the batch claim processor. A well-formed batch
/// alternates recipients and references to pending withdrawals; anything
/// else in a slot makes that pair malformed, which skips it without failing
/// the batch.
#[derive(Clone, Copy, Debug, PartialEq, Eq)]
pub enum ClaimAccount {
    /// The recipient a pair pays out to.
    Recipient([u8; 32]),
    /// A reference to a pending withdrawal record.
    Pending(usize),
}

/// What a batch claim reports: how many pairs succeeded and how much moved.
#[derive(Clone, Copy, Debug, PartialEq, Eq, Structural)]
pub struct BatchSummary {
    /// Number of pairs that paid out.
    pub success_count: u64,
    /// Total amount paid out.
    pub total_claimed: u64,
}

/// The outcome of processing a batch: the pending records and pool balance
/// afterward, and the running success totals.
pub struct BatchOutcome {
    /// The pending withdrawals after the processed pairs.
    pub pending: Seq<PendingWithdraw>,
    /// The pool custody balance after the processed pairs.
    pub balance: u64,
    /// How many pairs succeeded.
    pub success_count: int,
    /// The summed amount of the successful pairs.
    pub total_claimed: int,
}

/// Whether one pair can pay out right now: the pair is shaped correctly, the
/// reference is in range, the stored recipient matches the given one, the
/// record is unclaimed and past its gate, and the pool still covers it.
pub open spec fn batch_pair_eligible(
    pending: Seq<PendingWithdraw>,
    balance: u64,
    rec: ClaimAccount,
    pen: ClaimAccount,
    now: i64,
) -> bool {
    match (rec, pen) {
        (ClaimAccount::Recipient(r), ClaimAccount::Pending(idx)) => {
            &&& idx < pending.len()
            &&& pending[idx as int].recipient@ == r@
            &&& !pending[idx as int].claimed
            &&& now >= pending[idx as int].available_at
            &&& pending[idx as int].amount <= balance
        },
        _ => false,
    }
}

/// Processes the pairs of `accounts` from pair `k` on, in order, each against
/// the state the pairs before it left behind: an eligible pair flips its
/// record to claimed and pays its amount out of the balance; any other pair
/// changes nothing. Best effort, never an error.
pub open spec fn batch_process(
    pending: Seq<PendingWithdraw>,
    balance: u64,
    accounts: Seq<ClaimAccount>,
    now: i64,
    k: nat,
) -> BatchOutcome
    decreases accounts.len() - 2 * k,
{
    if 2 * k + 1 >= accounts.len() {
        BatchOutcome { pending, balance, success_count: 0, total_claimed: 0 }
    } else {
        let rec = accounts[2 * k as int];
        let pen = accounts[2 * k + 1 as int];
        if batch_pair_eligible(pending, balance, rec, pen, now) {
            let idx = pen->Pending_0 as int;
            let p = pending[idx];
            let rest = batch_process(
                pending.update(idx, PendingWithdraw { claimed: true, ..p }),
                (balance - p.amount) as u64,
                accounts,
                now,
                k + 1,
            );
            BatchOutcome {
                pending: rest.pending,
                balance: rest.balance,
                success_count: rest.success_count + 1,
                total_claimed: rest.total_claimed + p.amount,
            }
        } else {
            batch_process(pending, balance, accounts, now, k + 1)
        }
    }
}

/// Claims up to five pending withdrawals in one call, given as pairs of
/// recipient and pending reference. Processing is best effort: a malformed,
/// mismatched, already-claimed, not-yet-ready or unfunded pair is skipped
/// while the rest proceed, and only a batch of the wrong shape fails as a
/// whole. Reports how many pairs succeeded and the total amount moved.
pub fn batch_claim_withdraw(ledger: &mut PoolLedger, accounts: &Vec<ClaimAccount>, now: i64) -> (r:
    Result<BatchSummary, ErrorCode>)
    requires
        old(ledger).wf(),
    ensures
        final(ledger).wf(),
        r is Err ==> final(ledger).same_as(*old(ledger)),
        accounts@.len() < 2 ==> r == Err::<BatchSummary, ErrorCode>(ErrorCode::BatchTooSmall),
        accounts@.len() >= 2 && accounts@.len() % 2 != 0 ==> r == Err::<BatchSummary, ErrorCode>(
            ErrorCode::BatchInvalidPairs,
        ),
        accounts@.len() >= 2 && accounts@.len() % 2 == 0 && accounts@.len() > 10 ==> r == Err::<
            BatchSummary,
            ErrorCode,
        >(ErrorCode::BatchTooLarge),
        r is Ok <==> 2 <= accounts@.len() <= 10 && accounts@.len() % 2 == 0,
        r is Ok ==> ({
            let out = batch_process(
                old(ledger).pending@,
                old(ledger).vault_balance,
                accounts@,
                now,
                0,
            );
            &&& r == Ok::<BatchSummary, ErrorCode>(
                (BatchSummary {
                    success_count: out.success_count as u64,
                    total_claimed: out.total_claimed as u64,
                }),
            )
            &&& final(ledger).pending@ == out.pending
            &&& final(ledger).vault_balance == out.balance
            &&& final(ledger).pool == (PrivacyPool {
                total_withdrawn: (old(ledger).pool.total_withdrawn + out.total_claimed) as u64,
                withdraw_count: old(ledger).pool.withdraw_count.saturating_add(
                    out.success_count as u64,
                ),
                ..old(ledger).pool
            })
            &&& final(ledger).commitments@ == old(ledger).commitments@
            &&& final(ledger).nullifiers@ == old(ledger).nullifiers@
            &&& final(ledger).churn_vaults@ == old(ledger).churn_vaults@
        }),
{
    let n = accounts.len();
    if n < 2 {
        return Err(ErrorCode::BatchTooSmall);
    }
    if n % 2 != 0 {
        return Err(ErrorCode::BatchInvalidPairs);
    }
    if n > 10 {
        return Err(ErrorCode::BatchTooLarge);
    }
    let num_claims = n / 2;
    let mut total_claimed: u64 = 0;
    let mut success_count: u64 = 0;
    let mut k: usize = 0;
    while k < num_claims
        invariant
            old(ledger).wf(),
            n == accounts@.len(),
            2 <= n <= 10,
            n % 2 == 0,
            num_claims == n / 2,
            k <= num_claims,
            ledger.pool == old(ledger).pool,
            ledger.commitments@ == old(ledger).commitments@,
            ledger.nullifiers@ == old(ledger).nullifiers@,
            ledger.churn_vaults@ == old(ledger).churn_vaults@,
            success_count <= k,
            success_count == 0 ==> total_claimed == 0,
            total_claimed <= old(ledger).vault_balance,
            ledger.vault_balance == old(ledger).vault_balance - total_claimed,
            ledger.pending@.len() == old(ledger).pending@.len(),
            forall|i: int|
                0 <= i < ledger.pending@.len() ==> {
                    &&& (#[trigger] ledger.pending@[i]).recipient@ == old(
                        ledger,
                    ).pending@[i].recipient@
                    &&& ledger.pending@[i].amount == old(ledger).pending@[i].amount
                    &&& ledger.pending@[i].requested_at == old(ledger).pending@[i].requested_at
                    &&& ledger.pending@[i].available_at == old(ledger).pending@[i].available_at
                },
            ({
                let full = batch_process(
                    old(ledger).pending@,
                    old(ledger).vault_balance,
                    accounts@,
                    now,
                    0,
                );
                let rest = batch_process(
                    ledger.pending@,
                    ledger.vault_balance,
                    accounts@,
                    now,
                    k as nat,
                );
                &&& full.pending == rest.pending
                &&& full.balance == rest.balance
                &&& full.success_count == success_count + rest.success_count
                &&& full.total_claimed == total_claimed + rest.total_claimed
            }),
        decreases num_claims - k,
    {
        let rec = accounts[2 * k];
        let pen = accounts[2 * k + 1];
        match (rec, pen) {
            (ClaimAccount::Recipient(rkey), ClaimAccount::Pending(idx)) => {
                if idx < ledger.pending.len() {
                    let p = ledger.pending[idx];
                    if bytes32_eq(&p.recipient, &rkey) && !p.claimed && now >= p.available_at
                        && p.amount <= ledger.vault_balance {
                        ledger.pending.set(idx, PendingWithdraw { claimed: true, ..p });
                        ledger.vault_balance = ledger.vault_balance - p.amount;
                        total_claimed = total_claimed.saturating_add(p.amount);
                        success_count = success_count + 1;
                    }
                }
            },
            _ => {},
        }
        k = k + 1;
    }
    proof {
        lemma_sum_churn_nonneg(ledger.churn_vaults@);
    }
    let summary = BatchSummary { success_count, total_claimed };
    if success_count > 0 {
        ledger.pool.total_withdrawn = ledger.pool.total_withdrawn.saturating_add(total_claimed);
        ledger.pool.withdraw_count = ledger.pool.withdraw_count.saturating_add(success_count);
    }
    Ok(summary)
}

} // verus!
