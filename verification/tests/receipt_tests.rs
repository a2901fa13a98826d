use offuscate::errors::ErrorCode;
use offuscate::payroll::add_employee;
use offuscate::payroll::create_batch;
use offuscate::payroll::init_master_vault;
use offuscate::receipt::compute_receipt_commitment;
use offuscate::receipt::create_receipt;
use offuscate::receipt::verify_receipt;
use offuscate::receipt::verify_receipt_blind;

const COMPANY: [u8; 32] = [0x51; 32];
const WALLET: [u8; 32] = [0x52; 32];
const MASTER_KEY: [u8; 32] = [0x53; 32];
const BATCH_KEY: [u8; 32] = [0x54; 32];
const SECRET: [u8; 32] = [0xCC; 32];

#[test]
fn receipt_commitment_matches_known_sha256_digest() {
    // SHA-256 of 0xAA*32 || 0xBB*32 || 1_700_000_000 LE || 123_456 LE ||
    // 0xCC*32, computed independently.
    let expected: [u8; 32] = [
        138, 86, 119, 55, 75, 183, 95, 12, 186, 9, 29, 27, 175, 61, 18, 104, 128, 88, 225, 80, 37,
        251, 43, 49, 234, 36, 230, 249, 136, 202, 22, 157,
    ];
    let got = compute_receipt_commitment(&[0xAA; 32], &[0xBB; 32], 1_700_000_000, 123_456, &SECRET);
    assert_eq!(got, expected);
}

#[test]
fn receipt_round_trip() {
    // Enroll at t=1000 with rate 250, claim a receipt at t=1100: the
    // committed amount is 250 * 100 = 25_000, verifiable with the secret.
    let mut master = init_master_vault(&COMPANY);
    let mut batch =
        create_batch(&mut master, &COMPANY, "Crew".to_string(), 1_000, &MASTER_KEY).unwrap();
    let employee = add_employee(
        &mut master,
        &mut batch,
        &COMPANY,
        &WALLET,
        "st:meta".to_string(),
        250,
        1_000,
        &BATCH_KEY,
    )
    .unwrap();

    let receipt = create_receipt(&employee, &batch, &WALLET, &SECRET, 1_100, &BATCH_KEY).unwrap();
    assert_eq!(receipt.employee, WALLET);
    assert_eq!(receipt.batch, BATCH_KEY);
    assert_eq!(receipt.employer, COMPANY);
    assert_eq!(receipt.timestamp, 1_100);
    assert_eq!(receipt.receipt_index, 0);

    // The revealed amount verifies; any other amount does not.
    assert_eq!(verify_receipt(&receipt, &WALLET, &BATCH_KEY, 1_100, 25_000, &SECRET), Ok(()));
    assert_eq!(
        verify_receipt(&receipt, &WALLET, &BATCH_KEY, 1_100, 25_001, &SECRET),
        Err(ErrorCode::InvalidReceiptProof)
    );
    assert_eq!(
        verify_receipt(&receipt, &WALLET, &BATCH_KEY, 1_100, 25_000, &[0xDD; 32]),
        Err(ErrorCode::InvalidReceiptProof)
    );
}

#[test]
fn create_receipt_is_signer_and_batch_bound() {
    let mut master = init_master_vault(&COMPANY);
    let mut batch =
        create_batch(&mut master, &COMPANY, "Crew".to_string(), 1_000, &MASTER_KEY).unwrap();
    let employee = add_employee(
        &mut master,
        &mut batch,
        &COMPANY,
        &WALLET,
        "st:meta".to_string(),
        250,
        1_000,
        &BATCH_KEY,
    )
    .unwrap();
    assert_eq!(
        create_receipt(&employee, &batch, &[0x99; 32], &SECRET, 1_100, &BATCH_KEY),
        Err(ErrorCode::Unauthorized)
    );
    assert_eq!(
        create_receipt(&employee, &batch, &WALLET, &SECRET, 1_100, &[0x98; 32]),
        Err(ErrorCode::Unauthorized)
    );
}

#[test]
fn verify_receipt_binds_the_metadata_not_just_the_digest() {
    // A receipt whose digest verifies must also match on employee, batch and
    // timestamp, each with its own distinct rejection.
    let commitment = compute_receipt_commitment(&WALLET, &BATCH_KEY, 1_100, 25_000, &SECRET);
    let base = offuscate::receipt::PaymentReceipt {
        employee: WALLET,
        batch: BATCH_KEY,
        employer: COMPANY,
        commitment,
        timestamp: 1_100,
        receipt_index: 0,
    };

    let mut wrong_employee = base;
    wrong_employee.employee = [0x99; 32];
    assert_eq!(
        verify_receipt(&wrong_employee, &WALLET, &BATCH_KEY, 1_100, 25_000, &SECRET),
        Err(ErrorCode::ReceiptEmployeeMismatch)
    );

    let mut wrong_batch = base;
    wrong_batch.batch = [0x99; 32];
    assert_eq!(
        verify_receipt(&wrong_batch, &WALLET, &BATCH_KEY, 1_100, 25_000, &SECRET),
        Err(ErrorCode::ReceiptBatchMismatch)
    );

    let mut wrong_time = base;
    wrong_time.timestamp = 1_101;
    assert_eq!(
        verify_receipt(&wrong_time, &WALLET, &BATCH_KEY, 1_100, 25_000, &SECRET),
        Err(ErrorCode::ReceiptTimestampMismatch)
    );
}

#[test]
fn blind_verification_checks_only_the_payee() {
    let commitment = compute_receipt_commitment(&WALLET, &BATCH_KEY, 1_100, 25_000, &SECRET);
    let receipt = offuscate::receipt::PaymentReceipt {
        employee: WALLET,
        batch: BATCH_KEY,
        employer: COMPANY,
        commitment,
        timestamp: 1_100,
        receipt_index: 0,
    };
    assert_eq!(verify_receipt_blind(&receipt, &WALLET, 0, 2_000), Ok(()));
    assert_eq!(
        verify_receipt_blind(&receipt, &[0x99; 32], 0, 2_000),
        Err(ErrorCode::ReceiptEmployeeMismatch)
    );
}
