use vstd::prelude::*;
use vstd::bytes::spec_u64_to_le_bytes;
use vstd::bytes::u64_to_le_bytes;
use crate::errors::ErrorCode;
use crate::hashing::sha256;
use crate::hashing::sha256_of;
use crate::payroll::Employee;
use crate::payroll::PayrollBatch;
use crate::payroll::spec_elapsed_seconds;
use crate::util::append_bytes;
use crate::util::append_bytes32;
use crate::util::bytes32_eq;
use crate::util::cast_i64_to_u64;
use crate::util::i64_as_u64;

verus! {

/// An anonymous payment receipt: proof that a payment happened, without its
/// amount. The amount hides inside the commitment; the stored metadata binds
/// the receipt to one employee, batch and moment.
#[derive(Clone, Copy, Debug, PartialEq, Eq)]
pub struct PaymentReceipt {
    /// The wallet that was paid.
    pub employee: [u8; 32],
    /// The batch that paid.
    pub batch: [u8; 32],
    /// The batch's owner at the time.
    pub employer: [u8; 32],
    /// The digest hiding the amount: over employee, batch, timestamp,
    /// amount and a secret the employee keeps.
    pub commitment: [u8; 32],
    /// When the payment was made.
    pub timestamp: i64,
    /// A per-employee sequence number (their total claimed at the time).
    pub receipt_index: u64,
}

/// The exact byte string a receipt commitment digests: employee key, batch
/// key, the timestamp and amount as 8 little-endian bytes each, and the
/// 32-byte secret, in that order.
pub open spec fn receipt_preimage(
    employee: Seq<u8>,
    batch: Seq<u8>,
    timestamp: i64,
    amount: u64,
    secret: Seq<u8>,
) -> Seq<u8> {
    employee + batch + spec_u64_to_le_bytes(i64_as_u64(timestamp)) + spec_u64_to_le_bytes(amount)
        + secret
}

/// The commitment a receipt stores: the digest of its preimage.
pub open spec fn spec_receipt_commitment(
    employee: Seq<u8>,
    batch: Seq<u8>,
    timestamp: i64,
    amount: u64,
    secret: Seq<u8>,
) -> Seq<u8> {
    sha256_of(receipt_preimage(employee, batch, timestamp, amount, secret))
}

/// Computes the receipt commitment for the five revealed fields.
pub fn compute_receipt_commitment(
    employee: &[u8; 32],
    batch: &[u8; 32],
    timestamp: i64,
    amount: u64,
    secret: &[u8; 32],
) -> (r: [u8; 32])
    ensures
        r@ == spec_receipt_commitment(employee@, batch@, timestamp, amount, secret@),
{
    let mut preimage: Vec<u8> = Vec::new();
    append_bytes32(&mut preimage, employee);
    append_bytes32(&mut preimage, batch);
    let ts_bytes = u64_to_le_bytes(cast_i64_to_u64(timestamp));
    append_bytes(&mut preimage, &ts_bytes);
    let amount_bytes = u64_to_le_bytes(amount);
    append_bytes(&mut preimage, &amount_bytes);
    append_bytes32(&mut preimage, secret);
    proof {
        assert(preimage@ =~= receipt_preimage(employee@, batch@, timestamp, amount, secret@));
    }
    sha256(&preimage)
}

/// The amount a freshly created receipt commits to: the salary accrued since
/// the employee's last claim, read as rate times elapsed seconds (at least
/// one second), saturating at the top of the range. A clock reading behind
/// the last claim counts as no elapsed time.
pub open spec fn spec_receipt_amount(employee: Employee, now: i64) -> u64 {
    let elapsed = match spec_elapsed_seconds(now, employee.last_claimed_at) {
        Some(e) => e,
        None => 0,
    };
    let seconds = if elapsed == 0 {
        1u64
    } else {
        elapsed
    };
    if employee.salary_rate * seconds > u64::MAX {
        u64::MAX
    } else {
        (employee.salary_rate * seconds) as u64
    }
}

/// Creates an anonymous receipt for the employee's most recent claim; only
/// the employee's own wallet may do so, and only against their own batch.
/// The committed amount is re-derived from the same accrual formula the
/// salary claim uses.
pub fn create_receipt(
    employee: &Employee,
    batch: &PayrollBatch,
    employee_signer: &[u8; 32],
    receipt_secret: &[u8; 32],
    now: i64,
    batch_key: &[u8; 32],
) -> (r: Result<PaymentReceipt, ErrorCode>)
    ensures
        employee.wallet@ != employee_signer@ || employee.batch@ != batch_key@ ==> r == Err::<
            PaymentReceipt,
            ErrorCode,
        >(ErrorCode::Unauthorized),
        r is Ok <==> employee.wallet@ == employee_signer@ && employee.batch@ == batch_key@,
        r matches Ok(receipt) ==> {
            &&& receipt.employee@ == employee.wallet@
            &&& receipt.batch@ == batch_key@
            &&& receipt.employer@ == batch.owner@
            &&& receipt.commitment@ == spec_receipt_commitment(
                employee.wallet@,
                batch_key@,
                now,
                spec_receipt_amount(*employee, now),
                receipt_secret@,
            )
            &&& receipt.timestamp == now
            &&& receipt.receipt_index == employee.total_claimed
        },
{
    if !bytes32_eq(&employee.wallet, employee_signer) {
        return Err(ErrorCode::Unauthorized);
    }
    if !bytes32_eq(&employee.batch, batch_key) {
        return Err(ErrorCode::Unauthorized);
    }
    let elapsed = match now.checked_sub(employee.last_claimed_at) {
        Some(d) => cast_i64_to_u64(d),
        None => 0,
    };
    let seconds = if elapsed == 0 {
        1
    } else {
        elapsed
    };
    let claimed_amount = match employee.salary_rate.checked_mul(seconds) {
        Some(a) => a,
        None => u64::MAX,
    };
    let commitment = compute_receipt_commitment(
        &employee.wallet,
        batch_key,
        now,
        claimed_amount,
        receipt_secret,
    );
    Ok(
        PaymentReceipt {
            employee: employee.wallet,
            batch: *batch_key,
            employer: batch.owner,
            commitment,
            timestamp: now,
            receipt_index: employee.total_claimed,
        },
    )
}

/// Verifies a receipt against the five fully revealed fields: the recomputed
/// commitment must equal the stored one, and the stored employee, batch and
/// timestamp must each match as well, so a colliding digest alone can never
/// pass a receipt off as someone else's.
pub fn verify_receipt(
    receipt: &PaymentReceipt,
    employee_wallet: &[u8; 32],
    batch_key: &[u8; 32],
    timestamp: i64,
    amount: u64,
    secret: &[u8; 32],
) -> (r: Result<(), ErrorCode>)
    ensures
        receipt.commitment@ != spec_receipt_commitment(
            employee_wallet@,
            batch_key@,
            timestamp,
            amount,
            secret@,
        ) ==> r == Err::<(), ErrorCode>(ErrorCode::InvalidReceiptProof),
        receipt.commitment@ == spec_receipt_commitment(
            employee_wallet@,
            batch_key@,
            timestamp,
            amount,
            secret@,
        ) && receipt.employee@ != employee_wallet@ ==> r == Err::<(), ErrorCode>(
            ErrorCode::ReceiptEmployeeMismatch,
        ),
        receipt.commitment@ == spec_receipt_commitment(
            employee_wallet@,
            batch_key@,
            timestamp,
            amount,
            secret@,
        ) && receipt.employee@ == employee_wallet@ && receipt.batch@ != batch_key@ ==> r == Err::<
            (),
            ErrorCode,
        >(ErrorCode::ReceiptBatchMismatch),
        receipt.commitment@ == spec_receipt_commitment(
            employee_wallet@,
            batch_key@,
            timestamp,
            amount,
            secret@,
        ) && receipt.employee@ == employee_wallet@ && receipt.batch@ == batch_key@
            && receipt.timestamp != timestamp ==> r == Err::<(), ErrorCode>(
            ErrorCode::ReceiptTimestampMismatch,
        ),
        r is Ok <==> receipt.commitment@ == spec_receipt_commitment(
            employee_wallet@,
            batch_key@,
            timestamp,
            amount,
            secret@,
        ) && receipt.employee@ == employee_wallet@ && receipt.batch@ == batch_key@
            && receipt.timestamp == timestamp,
{
    let computed = compute_receipt_commitment(
        employee_wallet,
        batch_key,
        timestamp,
        amount,
        secret,
    );
    if !bytes32_eq(&receipt.commitment, &computed) {
        return Err(ErrorCode::InvalidReceiptProof);
    }
    if !bytes32_eq(&receipt.employee, employee_wallet) {
        return Err(ErrorCode::ReceiptEmployeeMismatch);
    }
    if !bytes32_eq(&receipt.batch, batch_key) {
        return Err(ErrorCode::ReceiptBatchMismatch);
    }
    if receipt.timestamp != timestamp {
        return Err(ErrorCode::ReceiptTimestampMismatch);
    }
    Ok(())
}

/// Blind verification: proves only that this receipt belongs to the given
/// employee, without the secret, the amount or the exact time. The range
/// arguments are accepted for the caller's records and not examined.
pub fn verify_receipt_blind(
    receipt: &PaymentReceipt,
    employee_wallet: &[u8; 32],
    _timestamp_range_start: i64,
    _timestamp_range_end: i64,
) -> (r: Result<(), ErrorCode>)
    ensures
        receipt.employee@ != employee_wallet@ ==> r == Err::<(), ErrorCode>(
            ErrorCode::ReceiptEmployeeMismatch,
        ),
        r is Ok <==> receipt.employee@ == employee_wallet@,
{
    if !bytes32_eq(&receipt.employee, employee_wallet) {
        return Err(ErrorCode::ReceiptEmployeeMismatch);
    }
    Ok(())
}

} // verus!
