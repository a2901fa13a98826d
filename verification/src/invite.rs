use vstd::prelude::*;
use vstd::string::StrSliceExecFns;
use crate::campaign::Campaign;
use crate::errors::ErrorCode;
use crate::payroll::Employee;
use crate::payroll::EmployeeStatus;
use crate::payroll::MasterVault;
use crate::payroll::PayrollBatch;
use crate::util::bytes32_eq;

verus! {

/// Where an invitation stands.
#[derive(Clone, Copy, Debug, PartialEq, Eq, Structural)]
pub enum InviteStatus {
    /// Waiting for a recipient.
    Pending,
    /// Accepted by a recipient.
    Accepted,
    /// Withdrawn by its creator.
    Revoked,
}

/// An invitation for a recipient to join a batch, keyed by its code. The
/// recipient stays the zero key until someone accepts.
#[derive(Clone, Debug, PartialEq, Eq)]
pub struct Invite {
    /// The batch or campaign the invite is for.
    pub batch: [u8; 32],
    /// The invite's code, 6 to 16 characters.
    pub invite_code: String,
    /// The employer who created the invite.
    pub creator: [u8; 32],
    /// The wallet that accepted; all zeroes while pending.
    pub recipient: [u8; 32],
    /// The stealth meta-address the recipient registered on acceptance;
    /// empty while pending, at most 200 characters.
    pub recipient_stealth_address: String,
    /// Salary per second the invite carries; zero means no streaming.
    pub salary_rate: u64,
    /// Where the invite stands.
    pub status: InviteStatus,
    /// When the invite was created.
    pub created_at: i64,
    /// When it was accepted; zero until then.
    pub accepted_at: i64,
}

/// Creates an invitation to a campaign; only the campaign owner may do so.
pub fn create_invite(
    campaign: &Campaign,
    owner: &[u8; 32],
    invite_code: String,
    salary_rate: u64,
    now: i64,
    campaign_key: &[u8; 32],
) -> (r: Result<Invite, ErrorCode>)
    ensures
        campaign.owner@ != owner@ ==> r == Err::<Invite, ErrorCode>(ErrorCode::Unauthorized),
        campaign.owner@ == owner@ && invite_code@.len() > 16 ==> r == Err::<Invite, ErrorCode>(
            ErrorCode::InviteCodeTooLong,
        ),
        campaign.owner@ == owner@ && invite_code@.len() <= 16 && invite_code@.len() < 6 ==> r
            == Err::<Invite, ErrorCode>(ErrorCode::InviteCodeTooShort),
        r is Ok <==> campaign.owner@ == owner@ && 6 <= invite_code@.len() <= 16,
        r matches Ok(inv) ==> {
            &&& inv.batch@ == campaign_key@
            &&& inv.invite_code@ == invite_code@
            &&& inv.creator@ == owner@
            &&& forall|i: int| 0 <= i < 32 ==> inv.recipient@[i] == 0
            &&& inv.recipient_stealth_address@.len() == 0
            &&& inv.salary_rate == salary_rate
            &&& inv.status == InviteStatus::Pending
            &&& inv.created_at == now
            &&& inv.accepted_at == 0
        },
{
    if !bytes32_eq(&campaign.owner, owner) {
        return Err(ErrorCode::Unauthorized);
    }
    if invite_code.as_str().unicode_len() > 16 {
        return Err(ErrorCode::InviteCodeTooLong);
    }
    if invite_code.as_str().unicode_len() < 6 {
        return Err(ErrorCode::InviteCodeTooShort);
    }
    Ok(
        Invite {
            batch: *campaign_key,
            invite_code,
            creator: *owner,
            recipient: [0u8; 32],
            recipient_stealth_address: String::new(),
            salary_rate,
            status: InviteStatus::Pending,
            created_at: now,
            accepted_at: 0,
        },
    )
}

/// Creates an invitation to a payroll batch; only the batch owner may do so.
pub fn create_batch_invite(
    batch: &PayrollBatch,
    owner: &[u8; 32],
    invite_code: String,
    salary_rate: u64,
    now: i64,
    batch_key: &[u8; 32],
) -> (r: Result<Invite, ErrorCode>)
    ensures
        batch.owner@ != owner@ ==> r == Err::<Invite, ErrorCode>(ErrorCode::Unauthorized),
        batch.owner@ == owner@ && invite_code@.len() > 16 ==> r == Err::<Invite, ErrorCode>(
            ErrorCode::InviteCodeTooLong,
        ),
        batch.owner@ == owner@ && invite_code@.len() <= 16 && invite_code@.len() < 6 ==> r == Err::<
            Invite,
            ErrorCode,
        >(ErrorCode::InviteCodeTooShort),
        r is Ok <==> batch.owner@ == owner@ && 6 <= invite_code@.len() <= 16,
        r matches Ok(inv) ==> {
            &&& inv.batch@ == batch_key@
            &&& inv.invite_code@ == invite_code@
            &&& inv.creator@ == owner@
            &&& forall|i: int| 0 <= i < 32 ==> inv.recipient@[i] == 0
            &&& inv.recipient_stealth_address@.len() == 0
            &&& inv.salary_rate == salary_rate
            &&& inv.status == InviteStatus::Pending
            &&& inv.created_at == now
            &&& inv.accepted_at == 0
        },
{
    if !bytes32_eq(&batch.owner, owner) {
        return Err(ErrorCode::Unauthorized);
    }
    if invite_code.as_str().unicode_len() > 16 {
        return Err(ErrorCode::InviteCodeTooLong);
    }
    if invite_code.as_str().unicode_len() < 6 {
        return Err(ErrorCode::InviteCodeTooShort);
    }
    Ok(
        Invite {
            batch: *batch_key,
            invite_code,
            creator: *owner,
            recipient: [0u8; 32],
            recipient_stealth_address: String::new(),
            salary_rate,
            status: InviteStatus::Pending,
            created_at: now,
            accepted_at: 0,
        },
    )
}

/// Accepts a pending invitation, registering the recipient and their stealth
/// meta-address.
pub fn accept_invite(
    invite: &mut Invite,
    recipient: &[u8; 32],
    stealth_meta_address: String,
    now: i64,
) -> (r: Result<(), ErrorCode>)
    ensures
        r is Err ==> *final(invite) == *old(invite),
        stealth_meta_address@.len() > 200 ==> r == Err::<(), ErrorCode>(
            ErrorCode::MetaAddressTooLong,
        ),
        stealth_meta_address@.len() <= 200 && stealth_meta_address@.len() == 0 ==> r == Err::<
            (),
            ErrorCode,
        >(ErrorCode::StealthAddressRequired),
        0 < stealth_meta_address@.len() <= 200 && old(invite).status != InviteStatus::Pending ==> r
            == Err::<(), ErrorCode>(ErrorCode::InviteNotPending),
        r is Ok <==> 0 < stealth_meta_address@.len() <= 200 && old(invite).status
            == InviteStatus::Pending,
        r is Ok ==> {
            &&& final(invite).recipient@ == recipient@
            &&& final(invite).recipient_stealth_address@ == stealth_meta_address@
            &&& final(invite).status == InviteStatus::Accepted
            &&& final(invite).accepted_at == now
            &&& final(invite).batch@ == old(invite).batch@
            &&& final(invite).invite_code@ == old(invite).invite_code@
            &&& final(invite).creator@ == old(invite).creator@
            &&& final(invite).salary_rate == old(invite).salary_rate
            &&& final(invite).created_at == old(invite).created_at
        },
{
    if stealth_meta_address.as_str().unicode_len() > 200 {
        return Err(ErrorCode::MetaAddressTooLong);
    }
    if stealth_meta_address.as_str().is_empty() {
        return Err(ErrorCode::StealthAddressRequired);
    }
    if !matches!(invite.status, InviteStatus::Pending) {
        return Err(ErrorCode::InviteNotPending);
    }
    invite.recipient = *recipient;
    invite.recipient_stealth_address = stealth_meta_address;
    invite.status = InviteStatus::Accepted;
    invite.accepted_at = now;
    Ok(())
}

/// Revokes a pending invitation; only its creator may do so.
pub fn revoke_invite(invite: &mut Invite, owner: &[u8; 32]) -> (r: Result<(), ErrorCode>)
    ensures
        r is Err ==> *final(invite) == *old(invite),
        old(invite).creator@ != owner@ ==> r == Err::<(), ErrorCode>(ErrorCode::Unauthorized),
        old(invite).creator@ == owner@ && old(invite).status != InviteStatus::Pending ==> r
            == Err::<(), ErrorCode>(ErrorCode::InviteNotPending),
        r is Ok <==> old(invite).creator@ == owner@ && old(invite).status == InviteStatus::Pending,
        r is Ok ==> *final(invite) == (Invite { status: InviteStatus::Revoked, ..*old(invite) }),
{
    if !bytes32_eq(&invite.creator, owner) {
        return Err(ErrorCode::Unauthorized);
    }
    if !matches!(invite.status, InviteStatus::Pending) {
        return Err(ErrorCode::InviteNotPending);
    }
    invite.status = InviteStatus::Revoked;
    Ok(())
}

/// Accepts a streaming invitation and enrolls the new employee in one step.
/// The employee account is keyed to a stealth public key the acceptor chose
/// locally, so the paying batch never learns their main wallet; the payer of
/// the submission is recorded on the invite only.
pub fn accept_invite_streaming(
    invite: &mut Invite,
    batch: &mut PayrollBatch,
    master: &mut MasterVault,
    payer: &[u8; 32],
    employee_stealth_pubkey: &[u8; 32],
    stealth_meta_address: String,
    now: i64,
    batch_key: &[u8; 32],
) -> (r: Result<Employee, ErrorCode>)
    ensures
        r is Err ==> *final(invite) == *old(invite) && *final(batch) == *old(batch) && *final(master) == *old(master),
        old(batch).owner@ != old(invite).creator@ ==> r == Err::<Employee, ErrorCode>(
            ErrorCode::Unauthorized,
        ),
        old(batch).owner@ == old(invite).creator@ && stealth_meta_address@.len() > 200 ==> r
            == Err::<Employee, ErrorCode>(ErrorCode::MetaAddressTooLong),
        old(batch).owner@ == old(invite).creator@ && stealth_meta_address@.len() <= 200
            && stealth_meta_address@.len() == 0 ==> r == Err::<Employee, ErrorCode>(
            ErrorCode::StealthAddressRequired,
        ),
        old(batch).owner@ == old(invite).creator@ && 0 < stealth_meta_address@.len() <= 200 && old(invite).status != InviteStatus::Pending ==> r == Err::<Employee, ErrorCode>(
            ErrorCode::InviteNotPending,
        ),
        old(batch).owner@ == old(invite).creator@ && 0 < stealth_meta_address@.len() <= 200 && old(invite).status == InviteStatus::Pending && old(invite).salary_rate == 0 ==> r == Err::<
            Employee,
            ErrorCode,
        >(ErrorCode::InviteNoSalaryConfigured),
        old(batch).owner@ == old(invite).creator@ && 0 < stealth_meta_address@.len() <= 200 && old(invite).status == InviteStatus::Pending && old(invite).salary_rate > 0 && (old(batch).employee_count + 1 > u32::MAX || old(master).total_employees + 1 > u32::MAX) ==> r
            == Err::<Employee, ErrorCode>(ErrorCode::Overflow),
        r is Ok <==> old(batch).owner@ == old(invite).creator@ && 0 < stealth_meta_address@.len()
            <= 200 && old(invite).status == InviteStatus::Pending && old(invite).salary_rate > 0
            && old(batch).employee_count + 1 <= u32::MAX && old(master).total_employees + 1
            <= u32::MAX,
        r matches Ok(e) ==> {
            &&& e.batch@ == batch_key@
            &&& e.wallet@ == employee_stealth_pubkey@
            &&& e.index == old(batch).employee_count
            &&& e.stealth_address@ == stealth_meta_address@
            &&& e.salary_rate == old(invite).salary_rate
            &&& e.start_time == now
            &&& e.last_claimed_at == now
            &&& e.total_claimed == 0
            &&& e.status == EmployeeStatus::Active
            &&& final(invite).recipient@ == payer@
            &&& final(invite).recipient_stealth_address@ == stealth_meta_address@
            &&& final(invite).status == InviteStatus::Accepted
            &&& final(invite).accepted_at == now
            &&& final(invite).batch@ == old(invite).batch@
            &&& final(invite).invite_code@ == old(invite).invite_code@
            &&& final(invite).creator@ == old(invite).creator@
            &&& final(invite).salary_rate == old(invite).salary_rate
            &&& final(invite).created_at == old(invite).created_at
            &&& *final(batch) == (PayrollBatch {
                employee_count: (old(batch).employee_count + 1) as u32,
                ..*old(batch)
            })
            &&& *final(master) == (MasterVault {
                total_employees: (old(master).total_employees + 1) as u32,
                ..*old(master)
            })
        },
{
    if !bytes32_eq(&batch.owner, &invite.creator) {
        return Err(ErrorCode::Unauthorized);
    }
    if stealth_meta_address.as_str().unicode_len() > 200 {
        return Err(ErrorCode::MetaAddressTooLong);
    }
    if stealth_meta_address.as_str().is_empty() {
        return Err(ErrorCode::StealthAddressRequired);
    }
    if !matches!(invite.status, InviteStatus::Pending) {
        return Err(ErrorCode::InviteNotPending);
    }
    if invite.salary_rate == 0 {
        return Err(ErrorCode::InviteNoSalaryConfigured);
    }
    let employee_count = match batch.employee_count.checked_add(1) {
        Some(c) => c,
        None => {
            return Err(ErrorCode::Overflow);
        },
    };
    let total_employees = match master.total_employees.checked_add(1) {
        Some(c) => c,
        None => {
            return Err(ErrorCode::Overflow);
        },
    };
    let employee = Employee {
        batch: *batch_key,
        wallet: *employee_stealth_pubkey,
        index: batch.employee_count,
        stealth_address: stealth_meta_address.clone(),
        salary_rate: invite.salary_rate,
        start_time: now,
        last_claimed_at: now,
        total_claimed: 0,
        status: EmployeeStatus::Active,
    };
    invite.recipient = *payer;
    invite.recipient_stealth_address = stealth_meta_address;
    invite.status = InviteStatus::Accepted;
    invite.accepted_at = now;
    batch.employee_count = employee_count;
    master.total_employees = total_employees;
    Ok(employee)
}

} // verus!
