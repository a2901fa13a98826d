use offuscate::campaign::close_campaign;
use offuscate::campaign::create_campaign;
use offuscate::campaign::donate;
use offuscate::campaign::set_stealth_meta_address;
use offuscate::campaign::withdraw;
use offuscate::campaign::Campaign;
use offuscate::campaign::CampaignStatus;
use offuscate::errors::ErrorCode;
use offuscate::stealth::register_stealth_payment;

const OWNER: [u8; 32] = [0x01; 32];
const STRANGER: [u8; 32] = [0x02; 32];

fn fresh_campaign() -> Campaign {
    create_campaign(
        &OWNER,
        "spring-drive".to_string(),
        "Spring drive".to_string(),
        "Community fundraiser".to_string(),
        1_000_000,
        10_000,
        1_000,
    )
    .unwrap()
}

#[test]
fn create_campaign_validates_every_field() {
    let long = |n: usize| "x".repeat(n);
    assert_eq!(
        create_campaign(&OWNER, long(33), "t".to_string(), "d".to_string(), 1, 10, 1),
        Err(ErrorCode::CampaignIdTooLong)
    );
    assert_eq!(
        create_campaign(&OWNER, "id".to_string(), long(65), "d".to_string(), 1, 10, 1),
        Err(ErrorCode::TitleTooLong)
    );
    assert_eq!(
        create_campaign(&OWNER, "id".to_string(), "t".to_string(), long(257), 1, 10, 1),
        Err(ErrorCode::DescriptionTooLong)
    );
    assert_eq!(
        create_campaign(&OWNER, "id".to_string(), "t".to_string(), "d".to_string(), 0, 10, 1),
        Err(ErrorCode::InvalidGoal)
    );
    assert_eq!(
        create_campaign(&OWNER, "id".to_string(), "t".to_string(), "d".to_string(), 1, 10, 10),
        Err(ErrorCode::InvalidDeadline)
    );
    let c = fresh_campaign();
    assert_eq!(c.status, CampaignStatus::Active);
    assert_eq!(c.total_raised, 0);
    assert_eq!(c.donor_count, 0);
    assert_eq!(c.created_at, 1_000);
}

#[test]
fn donate_moves_funds_into_the_vault() {
    let mut c = fresh_campaign();
    let mut vault: u64 = 0;
    assert_eq!(donate(&mut c, &mut vault, 300, 2_000), Ok(()));
    assert_eq!(donate(&mut c, &mut vault, 200, 3_000), Ok(()));
    assert_eq!(vault, 500);
    assert_eq!(c.total_raised, 500);
    assert_eq!(c.donor_count, 2);
}

#[test]
fn donate_error_cases() {
    let mut c = fresh_campaign();
    let mut vault: u64 = 0;
    assert_eq!(donate(&mut c, &mut vault, 0, 2_000), Err(ErrorCode::InvalidAmount));
    assert_eq!(donate(&mut c, &mut vault, 10, 10_000), Err(ErrorCode::CampaignEnded));
    close_campaign(&mut c, &OWNER).unwrap();
    assert_eq!(donate(&mut c, &mut vault, 10, 2_000), Err(ErrorCode::CampaignNotActive));
    assert_eq!(vault, 0);
}

#[test]
fn withdraw_is_owner_only_and_funds_bounded() {
    let mut c = fresh_campaign();
    let mut vault: u64 = 0;
    donate(&mut c, &mut vault, 500, 2_000).unwrap();
    assert_eq!(withdraw(&c, &STRANGER, &mut vault, 100), Err(ErrorCode::Unauthorized));
    assert_eq!(withdraw(&c, &OWNER, &mut vault, 0), Err(ErrorCode::InvalidAmount));
    assert_eq!(withdraw(&c, &OWNER, &mut vault, 501), Err(ErrorCode::InsufficientFunds));
    assert_eq!(withdraw(&c, &OWNER, &mut vault, 200), Ok(()));
    assert_eq!(vault, 300);
}

#[test]
fn close_campaign_is_owner_only_and_once() {
    let mut c = fresh_campaign();
    assert_eq!(close_campaign(&mut c, &STRANGER), Err(ErrorCode::Unauthorized));
    assert_eq!(close_campaign(&mut c, &OWNER), Ok(()));
    assert_eq!(c.status, CampaignStatus::Closed);
    assert_eq!(close_campaign(&mut c, &OWNER), Err(ErrorCode::CampaignNotActive));
}

#[test]
fn stealth_meta_address_is_owner_only_and_bounded() {
    let mut c = fresh_campaign();
    assert_eq!(
        set_stealth_meta_address(&mut c, &STRANGER, "st:abc".to_string()),
        Err(ErrorCode::Unauthorized)
    );
    assert_eq!(
        set_stealth_meta_address(&mut c, &OWNER, "y".repeat(201)),
        Err(ErrorCode::MetaAddressTooLong)
    );
    assert_eq!(set_stealth_meta_address(&mut c, &OWNER, "st:view:spend".to_string()), Ok(()));
    assert_eq!(c.stealth_meta_address, "st:view:spend");
}

#[test]
fn register_stealth_payment_records_metadata_only() {
    let mut c = fresh_campaign();
    let campaign_key = [0x10; 32];
    let stealth_addr = [0x20; 32];
    assert_eq!(
        register_stealth_payment(&mut c, &campaign_key, &stealth_addr, "e".repeat(65), 5, 2_000),
        Err(ErrorCode::EphemeralKeyTooLong)
    );
    let reg = register_stealth_payment(
        &mut c,
        &campaign_key,
        &stealth_addr,
        "ephemeral-key".to_string(),
        700,
        2_000,
    )
    .unwrap();
    assert_eq!(reg.campaign, campaign_key);
    assert_eq!(reg.stealth_address, stealth_addr);
    assert_eq!(reg.amount, 700);
    assert_eq!(reg.timestamp, 2_000);
    assert_eq!(c.stealth_donations, 1);
    assert_eq!(c.stealth_total, 700);
    // The open-donation aggregates stay untouched.
    assert_eq!(c.total_raised, 0);
    assert_eq!(c.donor_count, 0);
}
