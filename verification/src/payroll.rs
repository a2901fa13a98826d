use vstd::prelude::*;
use vstd::string::StrSliceExecFns;
use crate::errors::ErrorCode;
use crate::util::bytes32_eq;
use crate::util::cast_i64_to_u64;
use crate::util::i64_as_u64;

verus! {

/// Where a payroll batch stands in its life.
#[derive(Clone, Copy, Debug, PartialEq, Eq, Structural)]
pub enum BatchStatus {
    /// Taking on employees and paying out.
    Active,
    /// Paused.
    Paused,
    /// Closed.
    Closed,
}

/// Where an employee's salary stream stands.
#[derive(Clone, Copy, Debug, PartialEq, Eq, Structural)]
pub enum EmployeeStatus {
    /// Accruing salary.
    Active,
    /// Paused.
    Paused,
    /// Terminated.
    Terminated,
}

/// The one master vault. Batches hang off it by sequential index, which hides
/// organizational relationships behind bare numbers.
#[derive(Clone, Copy, Debug, PartialEq, Eq)]
pub struct MasterVault {
    /// Who may administer the vault.
    pub authority: [u8; 32],
    /// How many batches were ever created.
    pub batch_count: u32,
    /// How many employees exist across all batches.
    pub total_employees: u32,
    /// Total value ever put into batch vaults.
    pub total_deposited: u64,
    /// Total salary ever paid out.
    pub total_paid: u64,
}

/// One payroll batch, keyed by its sequential index under the master vault.
#[derive(Clone, Debug, PartialEq, Eq)]
pub struct PayrollBatch {
    /// The master vault this batch belongs to.
    pub master_vault: [u8; 32],
    /// The company identity that owns the batch.
    pub owner: [u8; 32],
    /// The batch's sequential index.
    pub index: u32,
    /// The batch's name, at most 64 characters.
    pub title: String,
    /// How many employees the batch has.
    pub employee_count: u32,
    /// Total value ever put into this batch's vault.
    pub total_budget: u64,
    /// Total salary this batch ever paid out.
    pub total_paid: u64,
    /// When the batch was created.
    pub created_at: i64,
    /// Where the batch stands.
    pub status: BatchStatus,
}

/// One employee, keyed by their sequential index within a batch. The wallet
/// is whatever key the employee registered, typically a stealth key unlinked
/// to their main identity.
#[derive(Clone, Debug, PartialEq, Eq)]
pub struct Employee {
    /// The batch the employee belongs to.
    pub batch: [u8; 32],
    /// The key that must sign salary claims.
    pub wallet: [u8; 32],
    /// The employee's sequential index within the batch.
    pub index: u32,
    /// The employee's stealth meta-address, at most 200 characters.
    pub stealth_address: String,
    /// Salary accrued per second, in the smallest currency unit.
    pub salary_rate: u64,
    /// When the salary stream started.
    pub start_time: i64,
    /// When salary was last claimed; accrual runs from here.
    pub last_claimed_at: i64,
    /// Total salary claimed so far.
    pub total_claimed: u64,
    /// Where the employee stands.
    pub status: EmployeeStatus,
}

/// Creates the master vault, once, with every counter at zero.
pub fn init_master_vault(authority: &[u8; 32]) -> (v: MasterVault)
    ensures
        v == (MasterVault {
            authority: *authority,
            batch_count: 0,
            total_employees: 0,
            total_deposited: 0,
            total_paid: 0,
        }),
{
    MasterVault {
        authority: *authority,
        batch_count: 0,
        total_employees: 0,
        total_deposited: 0,
        total_paid: 0,
    }
}

/// Creates a payroll batch under the master vault, taking the next
/// sequential index.
pub fn create_batch(
    master: &mut MasterVault,
    owner: &[u8; 32],
    title: String,
    now: i64,
    master_key: &[u8; 32],
) -> (r: Result<PayrollBatch, ErrorCode>)
    ensures
        r is Err ==> *final(master) == *old(master),
        title@.len() > 64 ==> r == Err::<PayrollBatch, ErrorCode>(ErrorCode::TitleTooLong),
        title@.len() <= 64 && old(master).batch_count + 1 > u32::MAX ==> r == Err::<
            PayrollBatch,
            ErrorCode,
        >(ErrorCode::Overflow),
        r is Ok <==> title@.len() <= 64 && old(master).batch_count + 1 <= u32::MAX,
        r matches Ok(b) ==> {
            &&& b.master_vault@ == master_key@
            &&& b.owner@ == owner@
            &&& b.index == old(master).batch_count
            &&& b.title@ == title@
            &&& b.employee_count == 0
            &&& b.total_budget == 0
            &&& b.total_paid == 0
            &&& b.created_at == now
            &&& b.status == BatchStatus::Active
            &&& *final(master) == (MasterVault {
                batch_count: (old(master).batch_count + 1) as u32,
                ..*old(master)
            })
        },
{
    if title.as_str().unicode_len() > 64 {
        return Err(ErrorCode::TitleTooLong);
    }
    let count = match master.batch_count.checked_add(1) {
        Some(c) => c,
        None => {
            return Err(ErrorCode::Overflow);
        },
    };
    let batch = PayrollBatch {
        master_vault: *master_key,
        owner: *owner,
        index: master.batch_count,
        title,
        employee_count: 0,
        total_budget: 0,
        total_paid: 0,
        created_at: now,
        status: BatchStatus::Active,
    };
    master.batch_count = count;
    Ok(batch)
}

/// Adds an employee with a streaming salary to an active batch the caller
/// owns, taking the next index within the batch.
pub fn add_employee(
    master: &mut MasterVault,
    batch: &mut PayrollBatch,
    owner: &[u8; 32],
    employee_wallet: &[u8; 32],
    stealth_address: String,
    salary_rate: u64,
    now: i64,
    batch_key: &[u8; 32],
) -> (r: Result<Employee, ErrorCode>)
    ensures
        r is Err ==> *final(master) == *old(master) && *final(batch) == *old(batch),
        old(batch).owner@ != owner@ ==> r == Err::<Employee, ErrorCode>(ErrorCode::Unauthorized),
        old(batch).owner@ == owner@ && old(batch).status != BatchStatus::Active ==> r == Err::<
            Employee,
            ErrorCode,
        >(ErrorCode::CampaignNotActive),
        old(batch).owner@ == owner@ && old(batch).status == BatchStatus::Active
            && stealth_address@.len() > 200 ==> r == Err::<Employee, ErrorCode>(
            ErrorCode::MetaAddressTooLong,
        ),
        old(batch).owner@ == owner@ && old(batch).status == BatchStatus::Active
            && stealth_address@.len() <= 200 && salary_rate == 0 ==> r == Err::<
            Employee,
            ErrorCode,
        >(ErrorCode::InvalidSalaryRate),
        old(batch).owner@ == owner@ && old(batch).status == BatchStatus::Active
            && stealth_address@.len() <= 200 && salary_rate > 0 && (old(batch).employee_count + 1
            > u32::MAX || old(master).total_employees + 1 > u32::MAX) ==> r == Err::<
            Employee,
            ErrorCode,
        >(ErrorCode::Overflow),
        r is Ok <==> old(batch).owner@ == owner@ && old(batch).status == BatchStatus::Active
            && stealth_address@.len() <= 200 && salary_rate > 0 && old(batch).employee_count + 1
            <= u32::MAX && old(master).total_employees + 1 <= u32::MAX,
        r matches Ok(e) ==> {
            &&& e.batch@ == batch_key@
            &&& e.wallet@ == employee_wallet@
            &&& e.index == old(batch).employee_count
            &&& e.stealth_address@ == stealth_address@
            &&& e.salary_rate == salary_rate
            &&& e.start_time == now
            &&& e.last_claimed_at == now
            &&& e.total_claimed == 0
            &&& e.status == EmployeeStatus::Active
            &&& *final(batch) == (PayrollBatch {
                employee_count: (old(batch).employee_count + 1) as u32,
                ..*old(batch)
            })
            &&& *final(master) == (MasterVault {
                total_employees: (old(master).total_employees + 1) as u32,
                ..*old(master)
            })
        },
{
    if !bytes32_eq(&batch.owner, owner) {
        return Err(ErrorCode::Unauthorized);
    }
    if !matches!(batch.status, BatchStatus::Active) {
        return Err(ErrorCode::CampaignNotActive);
    }
    if stealth_address.as_str().unicode_len() > 200 {
        return Err(ErrorCode::MetaAddressTooLong);
    }
    if salary_rate == 0 {
        return Err(ErrorCode::InvalidSalaryRate);
    }
    let employee_count = match batch.employee_count.checked_add(1) {
        Some(c) => c,
        None => {
            return Err(ErrorCode::Overflow);
        },
    };
    let total_employees = match master.total_employees.checked_add(1) {
        Some(c) => c,
        None => {
            return Err(ErrorCode::Overflow);
        },
    };
    let employee = Employee {
        batch: *batch_key,
        wallet: *employee_wallet,
        index: batch.employee_count,
        stealth_address,
        salary_rate,
        start_time: now,
        last_claimed_at: now,
        total_claimed: 0,
        status: EmployeeStatus::Active,
    };
    batch.employee_count = employee_count;
    master.total_employees = total_employees;
    Ok(employee)
}

/// Funds a batch's vault with any positive amount.
pub fn fund_batch(
    master: &mut MasterVault,
    batch: &mut PayrollBatch,
    batch_vault_balance: &mut u64,
    amount: u64,
) -> (r: Result<(), ErrorCode>)
    ensures
        r is Err ==> *final(master) == *old(master) && *final(batch) == *old(batch) && *final(batch_vault_balance) == *old(batch_vault_balance),
        amount == 0 ==> r == Err::<(), ErrorCode>(ErrorCode::InvalidAmount),
        amount > 0 && (old(batch).total_budget + amount > u64::MAX || old(master).total_deposited
            + amount > u64::MAX || *old(batch_vault_balance) + amount > u64::MAX) ==> r == Err::<
            (),
            ErrorCode,
        >(ErrorCode::Overflow),
        r is Ok <==> amount > 0 && old(batch).total_budget + amount <= u64::MAX && old(master).total_deposited + amount <= u64::MAX && *old(batch_vault_balance) + amount <= u64::MAX,
        r is Ok ==> {
            &&& *final(batch) == (PayrollBatch {
                total_budget: (old(batch).total_budget + amount) as u64,
                ..*old(batch)
            })
            &&& *final(master) == (MasterVault {
                total_deposited: (old(master).total_deposited + amount) as u64,
                ..*old(master)
            })
            &&& *final(batch_vault_balance) == *old(batch_vault_balance) + amount
        },
{
    if amount == 0 {
        return Err(ErrorCode::InvalidAmount);
    }
    let budget = match batch.total_budget.checked_add(amount) {
        Some(b) => b,
        None => {
            return Err(ErrorCode::Overflow);
        },
    };
    let deposited = match master.total_deposited.checked_add(amount) {
        Some(d) => d,
        None => {
            return Err(ErrorCode::Overflow);
        },
    };
    let vault = match batch_vault_balance.checked_add(amount) {
        Some(v) => v,
        None => {
            return Err(ErrorCode::Overflow);
        },
    };
    batch.total_budget = budget;
    master.total_deposited = deposited;
    *batch_vault_balance = vault;
    Ok(())
}

/// Seconds of salary accrual: the signed clock difference read as an
/// unsigned count, exactly as the stream accounting does.
pub open spec fn spec_elapsed_seconds(now: i64, last_claimed_at: i64) -> Option<u64> {
    match now.checked_sub(last_claimed_at) {
        Some(d) => Some(i64_as_u64(d)),
        None => None,
    }
}

/// Claims the salary accrued since the employee's last claim: the rate times
/// the elapsed seconds, capped by what the batch vault holds above the rent
/// reserve. Only the employee's own wallet may claim.
pub fn claim_salary(
    master: &mut MasterVault,
    batch: &mut PayrollBatch,
    employee: &mut Employee,
    batch_vault_balance: &mut u64,
    recipient: &[u8; 32],
    now: i64,
    rent_reserve: u64,
    batch_key: &[u8; 32],
) -> (r: Result<(), ErrorCode>)
    ensures
        r is Err ==> *final(master) == *old(master) && *final(batch) == *old(batch) && *final(employee) == *old(employee) && *final(batch_vault_balance) == *old(batch_vault_balance),
        old(employee).wallet@ != recipient@ || old(employee).batch@ != batch_key@ ==> r == Err::<
            (),
            ErrorCode,
        >(ErrorCode::Unauthorized),
        old(employee).wallet@ == recipient@ && old(employee).batch@ == batch_key@ && old(employee).status != EmployeeStatus::Active ==> r == Err::<(), ErrorCode>(
            ErrorCode::EmployeeNotActive,
        ),
        old(employee).wallet@ == recipient@ && old(employee).batch@ == batch_key@ && old(employee).status == EmployeeStatus::Active && (spec_elapsed_seconds(
            now,
            old(employee).last_claimed_at,
        ) is None || (old(employee).salary_rate * spec_elapsed_seconds(
            now,
            old(employee).last_claimed_at,
        )->0 > u64::MAX)) ==> r == Err::<(), ErrorCode>(ErrorCode::Overflow),
        ({
            let accrued = old(employee).salary_rate * spec_elapsed_seconds(
                now,
                old(employee).last_claimed_at,
            )->0;
            old(employee).wallet@ == recipient@ && old(employee).batch@ == batch_key@ && old(employee).status == EmployeeStatus::Active && spec_elapsed_seconds(
                now,
                old(employee).last_claimed_at,
            ) is Some && accrued <= u64::MAX && accrued == 0
        }) ==> r == Err::<(), ErrorCode>(ErrorCode::NoSalaryToClaim),
        ({
            let accrued = old(employee).salary_rate * spec_elapsed_seconds(
                now,
                old(employee).last_claimed_at,
            )->0;
            old(employee).wallet@ == recipient@ && old(employee).batch@ == batch_key@ && old(employee).status == EmployeeStatus::Active && spec_elapsed_seconds(
                now,
                old(employee).last_claimed_at,
            ) is Some && 0 < accrued <= u64::MAX && (*old(batch_vault_balance)).saturating_sub(
                rent_reserve,
            ) == 0
        }) ==> r == Err::<(), ErrorCode>(ErrorCode::InsufficientFunds),
        ({
            let accrued = old(employee).salary_rate * spec_elapsed_seconds(
                now,
                old(employee).last_claimed_at,
            )->0;
            let available = (*old(batch_vault_balance)).saturating_sub(rent_reserve);
            let claim = if accrued <= available {
                accrued
            } else {
                available as int
            };
            old(employee).wallet@ == recipient@ && old(employee).batch@ == batch_key@ && old(employee).status == EmployeeStatus::Active && spec_elapsed_seconds(
                now,
                old(employee).last_claimed_at,
            ) is Some && 0 < accrued <= u64::MAX && claim > 0 && (old(employee).total_claimed
                + claim > u64::MAX || old(batch).total_paid + claim > u64::MAX || old(master).total_paid + claim > u64::MAX)
        }) ==> r == Err::<(), ErrorCode>(ErrorCode::Overflow),
        r is Ok <==> ({
            let accrued = old(employee).salary_rate * spec_elapsed_seconds(
                now,
                old(employee).last_claimed_at,
            )->0;
            let available = (*old(batch_vault_balance)).saturating_sub(rent_reserve);
            let claim = if accrued <= available {
                accrued
            } else {
                available as int
            };
            &&& old(employee).wallet@ == recipient@
            &&& old(employee).batch@ == batch_key@
            &&& old(employee).status == EmployeeStatus::Active
            &&& spec_elapsed_seconds(now, old(employee).last_claimed_at) is Some
            &&& 0 < accrued <= u64::MAX
            &&& claim > 0
            &&& old(employee).total_claimed + claim <= u64::MAX
            &&& old(batch).total_paid + claim <= u64::MAX
            &&& old(master).total_paid + claim <= u64::MAX
        }),
        r is Ok ==> ({
            let accrued = old(employee).salary_rate * spec_elapsed_seconds(
                now,
                old(employee).last_claimed_at,
            )->0;
            let available = (*old(batch_vault_balance)).saturating_sub(rent_reserve);
            let claim = if accrued <= available {
                accrued
            } else {
                available as int
            };
            &&& *final(employee) == (Employee {
                last_claimed_at: now,
                total_claimed: (old(employee).total_claimed + claim) as u64,
                ..*old(employee)
            })
            &&& *final(batch) == (PayrollBatch {
                total_paid: (old(batch).total_paid + claim) as u64,
                ..*old(batch)
            })
            &&& *final(master) == (MasterVault {
                total_paid: (old(master).total_paid + claim) as u64,
                ..*old(master)
            })
            &&& *final(batch_vault_balance) == *old(batch_vault_balance) - claim
        }),
{
    if !bytes32_eq(&employee.wallet, recipient) {
        return Err(ErrorCode::Unauthorized);
    }
    if !bytes32_eq(&employee.batch, batch_key) {
        return Err(ErrorCode::Unauthorized);
    }
    if !matches!(employee.status, EmployeeStatus::Active) {
        return Err(ErrorCode::EmployeeNotActive);
    }
    let elapsed_signed = match now.checked_sub(employee.last_claimed_at) {
        Some(d) => d,
        None => {
            return Err(ErrorCode::Overflow);
        },
    };
    let elapsed = cast_i64_to_u64(elapsed_signed);
    let accrued = match employee.salary_rate.checked_mul(elapsed) {
        Some(a) => a,
        None => {
            return Err(ErrorCode::Overflow);
        },
    };
    if accrued == 0 {
        return Err(ErrorCode::NoSalaryToClaim);
    }
    let available = batch_vault_balance.saturating_sub(rent_reserve);
    let claim_amount = if accrued <= available {
        accrued
    } else {
        available
    };
    if claim_amount == 0 {
        return Err(ErrorCode::InsufficientFunds);
    }
    let total_claimed = match employee.total_claimed.checked_add(claim_amount) {
        Some(t) => t,
        None => {
            return Err(ErrorCode::Overflow);
        },
    };
    let batch_paid = match batch.total_paid.checked_add(claim_amount) {
        Some(t) => t,
        None => {
            return Err(ErrorCode::Overflow);
        },
    };
    let master_paid = match master.total_paid.checked_add(claim_amount) {
        Some(t) => t,
        None => {
            return Err(ErrorCode::Overflow);
        },
    };
    *batch_vault_balance = *batch_vault_balance - claim_amount;
    employee.last_claimed_at = now;
    employee.total_claimed = total_claimed;
    batch.total_paid = batch_paid;
    master.total_paid = master_paid;
    Ok(())
}

/// Changes an employee's salary rate; only the batch owner may do so.
pub fn update_salary_rate(
    batch: &PayrollBatch,
    employee: &mut Employee,
    owner: &[u8; 32],
    new_rate: u64,
    batch_key: &[u8; 32],
) -> (r: Result<(), ErrorCode>)
    ensures
        r is Err ==> *final(employee) == *old(employee),
        batch.owner@ != owner@ || old(employee).batch@ != batch_key@ ==> r == Err::<(), ErrorCode>(
            ErrorCode::Unauthorized,
        ),
        batch.owner@ == owner@ && old(employee).batch@ == batch_key@ && new_rate == 0 ==> r
            == Err::<(), ErrorCode>(ErrorCode::InvalidSalaryRate),
        r is Ok <==> batch.owner@ == owner@ && old(employee).batch@ == batch_key@ && new_rate > 0,
        r is Ok ==> *final(employee) == (Employee { salary_rate: new_rate, ..*old(employee) }),
{
    if !bytes32_eq(&batch.owner, owner) {
        return Err(ErrorCode::Unauthorized);
    }
    if !bytes32_eq(&employee.batch, batch_key) {
        return Err(ErrorCode::Unauthorized);
    }
    if new_rate == 0 {
        return Err(ErrorCode::InvalidSalaryRate);
    }
    employee.salary_rate = new_rate;
    Ok(())
}

/// Pauses, resumes or terminates an employee's stream; only the batch owner
/// may do so.
pub fn set_employee_status(
    batch: &PayrollBatch,
    employee: &mut Employee,
    owner: &[u8; 32],
    new_status: EmployeeStatus,
    batch_key: &[u8; 32],
) -> (r: Result<(), ErrorCode>)
    ensures
        r is Err ==> *final(employee) == *old(employee),
        batch.owner@ != owner@ || old(employee).batch@ != batch_key@ ==> r == Err::<(), ErrorCode>(
            ErrorCode::Unauthorized,
        ),
        r is Ok <==> batch.owner@ == owner@ && old(employee).batch@ == batch_key@,
        r is Ok ==> *final(employee) == (Employee { status: new_status, ..*old(employee) }),
{
    if !bytes32_eq(&batch.owner, owner) {
        return Err(ErrorCode::Unauthorized);
    }
    if !bytes32_eq(&employee.batch, batch_key) {
        return Err(ErrorCode::Unauthorized);
    }
    employee.status = new_status;
    Ok(())
}

} // verus!
