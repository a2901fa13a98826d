use offuscate::campaign::create_campaign;
use offuscate::errors::ErrorCode;
use offuscate::invite::accept_invite;
use offuscate::invite::accept_invite_streaming;
use offuscate::invite::create_batch_invite;
use offuscate::invite::create_invite;
use offuscate::invite::revoke_invite;
use offuscate::invite::Invite;
use offuscate::invite::InviteStatus;
use offuscate::payroll::create_batch;
use offuscate::payroll::init_master_vault;
use offuscate::payroll::EmployeeStatus;

const OWNER: [u8; 32] = [0x31; 32];
const STRANGER: [u8; 32] = [0x32; 32];
const RECIPIENT: [u8; 32] = [0x33; 32];
const CAMPAIGN_KEY: [u8; 32] = [0x34; 32];
const MASTER_KEY: [u8; 32] = [0x35; 32];
const BATCH_KEY: [u8; 32] = [0x36; 32];

fn fresh_invite(salary_rate: u64) -> Invite {
    let campaign = create_campaign(
        &OWNER,
        "team".to_string(),
        "Team".to_string(),
        "desc".to_string(),
        1,
        10_000,
        1_000,
    )
    .unwrap();
    create_invite(&campaign, &OWNER, "join-me".to_string(), salary_rate, 1_500, &CAMPAIGN_KEY)
        .unwrap()
}

#[test]
fn create_invite_checks_owner_and_code_length() {
    let campaign = create_campaign(
        &OWNER,
        "team".to_string(),
        "Team".to_string(),
        "desc".to_string(),
        1,
        10_000,
        1_000,
    )
    .unwrap();
    assert_eq!(
        create_invite(&campaign, &STRANGER, "join-me".to_string(), 0, 1_500, &CAMPAIGN_KEY),
        Err(ErrorCode::Unauthorized)
    );
    assert_eq!(
        create_invite(&campaign, &OWNER, "c".repeat(17), 0, 1_500, &CAMPAIGN_KEY),
        Err(ErrorCode::InviteCodeTooLong)
    );
    assert_eq!(
        create_invite(&campaign, &OWNER, "short".to_string(), 0, 1_500, &CAMPAIGN_KEY),
        Err(ErrorCode::InviteCodeTooShort)
    );
    let inv = create_invite(&campaign, &OWNER, "join-me".to_string(), 7, 1_500, &CAMPAIGN_KEY)
        .unwrap();
    assert_eq!(inv.status, InviteStatus::Pending);
    assert_eq!(inv.recipient, [0u8; 32]);
    assert_eq!(inv.salary_rate, 7);
    assert_eq!(inv.accepted_at, 0);
}

#[test]
fn accept_invite_registers_the_recipient() {
    let mut inv = fresh_invite(0);
    assert_eq!(
        accept_invite(&mut inv, &RECIPIENT, "m".repeat(201), 2_000),
        Err(ErrorCode::MetaAddressTooLong)
    );
    assert_eq!(
        accept_invite(&mut inv, &RECIPIENT, String::new(), 2_000),
        Err(ErrorCode::StealthAddressRequired)
    );
    assert_eq!(accept_invite(&mut inv, &RECIPIENT, "st:meta".to_string(), 2_000), Ok(()));
    assert_eq!(inv.status, InviteStatus::Accepted);
    assert_eq!(inv.recipient, RECIPIENT);
    assert_eq!(inv.accepted_at, 2_000);
    assert_eq!(
        accept_invite(&mut inv, &RECIPIENT, "st:meta".to_string(), 3_000),
        Err(ErrorCode::InviteNotPending)
    );
}

#[test]
fn revoke_invite_is_creator_only_and_pending_only() {
    let mut inv = fresh_invite(0);
    assert_eq!(revoke_invite(&mut inv, &STRANGER), Err(ErrorCode::Unauthorized));
    assert_eq!(revoke_invite(&mut inv, &OWNER), Ok(()));
    assert_eq!(inv.status, InviteStatus::Revoked);
    assert_eq!(revoke_invite(&mut inv, &OWNER), Err(ErrorCode::InviteNotPending));
}

#[test]
fn accept_invite_streaming_enrolls_a_stealth_employee() {
    let mut master = init_master_vault(&OWNER);
    let mut batch =
        create_batch(&mut master, &OWNER, "Crew".to_string(), 1_000, &MASTER_KEY).unwrap();
    let mut inv = create_batch_invite(&batch, &OWNER, "join-crew".to_string(), 500, 1_500, &BATCH_KEY)
        .unwrap();
    let payer = [0x40; 32];
    let stealth_key = [0x41; 32];

    let employee = accept_invite_streaming(
        &mut inv,
        &mut batch,
        &mut master,
        &payer,
        &stealth_key,
        "st:meta".to_string(),
        2_000,
        &BATCH_KEY,
    )
    .unwrap();
    // The employee account carries the stealth key, never the payer's wallet.
    assert_eq!(employee.wallet, stealth_key);
    assert_eq!(employee.salary_rate, 500);
    assert_eq!(employee.status, EmployeeStatus::Active);
    assert_eq!(employee.last_claimed_at, 2_000);
    assert_eq!(inv.status, InviteStatus::Accepted);
    assert_eq!(inv.recipient, payer);
    assert_eq!(batch.employee_count, 1);
    assert_eq!(master.total_employees, 1);
}

#[test]
fn accept_invite_streaming_needs_a_salary() {
    let mut master = init_master_vault(&OWNER);
    let mut batch =
        create_batch(&mut master, &OWNER, "Crew".to_string(), 1_000, &MASTER_KEY).unwrap();
    let mut inv = create_batch_invite(&batch, &OWNER, "join-crew".to_string(), 0, 1_500, &BATCH_KEY)
        .unwrap();
    let payer = [0x40; 32];
    let stealth_key = [0x41; 32];
    assert_eq!(
        accept_invite_streaming(
            &mut inv,
            &mut batch,
            &mut master,
            &payer,
            &stealth_key,
            "st:meta".to_string(),
            2_000,
            &BATCH_KEY
        ),
        Err(ErrorCode::InviteNoSalaryConfigured)
    );
    assert_eq!(inv.status, InviteStatus::Pending);
    assert_eq!(batch.employee_count, 0);
}
