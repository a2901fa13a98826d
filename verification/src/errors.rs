use vstd::prelude::*;

verus! {

/// Every reason an operation can be refused. Each failure aborts the whole
/// operation before any state changes; the batch claim processor alone skips
/// bad entries instead of failing.
///
/// The variants ending in `AlreadyExists`, together with
/// `PendingWithdrawNotFound` and `ChurnVaultNotFound`, stand for the host's
/// keyed-storage semantics (creating an occupied slot fails; reading a missing
/// slot fails), which the ledger here makes explicit.
#[derive(Clone, Copy, Debug, PartialEq, Eq, Structural)]
pub enum ErrorCode {
    // Campaign errors
    CampaignIdTooLong,
    TitleTooLong,
    DescriptionTooLong,
    InvalidGoal,
    InvalidDeadline,
    InvalidAmount,
    CampaignNotActive,
    CampaignEnded,
    CampaignNotEnded,
    Unauthorized,
    InsufficientFunds,
    Overflow,
    MetaAddressTooLong,
    EphemeralKeyTooLong,
    // Privacy pool errors
    InvalidWithdrawAmount,
    InsufficientPoolFunds,
    WithdrawNotReady,
    AlreadyClaimed,
    WithdrawalAlreadyPending,
    PendingWithdrawNotFound,
    // Batch withdrawal errors
    BatchTooSmall,
    BatchInvalidPairs,
    BatchTooLarge,
    // Churn errors
    InvalidChurnIndex,
    InsufficientChurnFunds,
    ChurnVaultAlreadyExists,
    ChurnVaultNotFound,
    // Relayer errors
    InvalidSignatureInstruction,
    SignerMismatch,
    InvalidClaimMessage,
    // Commitment-based privacy errors
    NullifierAlreadyUsed,
    InvalidCommitmentProof,
    CommitmentAlreadySpent,
    CommitmentAlreadyExists,
    // Invite system errors
    InviteCodeTooLong,
    InviteCodeTooShort,
    InviteNotPending,
    StealthAddressRequired,
    InviteNotFound,
    InviteNoSalaryConfigured,
    // Streaming payroll errors
    EmployeeNotActive,
    NoSalaryToClaim,
    InvalidSalaryRate,
    EmployeeAlreadyExists,
    // Anonymous receipt errors
    InvalidReceiptProof,
    ReceiptEmployeeMismatch,
    ReceiptBatchMismatch,
    ReceiptTimestampMismatch,
    ReceiptNotFound,
}

} // verus!
