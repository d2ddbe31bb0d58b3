//! The ledger's records, the effects an operation hands back to its caller,
//! and the errors an operation can end in.
//!
//! Accounts (sponsors, donors, students, schools, the admin and token
//! contracts) are identified by `u64` account numbers.

use vstd::prelude::*;

verus! {

/// Lifecycle state of a pool; only `Active` pools accept donations.
#[derive(Clone, Copy, Debug, PartialEq, Eq, Structural)]
pub enum PoolState {
    Active,
    Paused,
    Completed,
    Cancelled,
    Disbursed,
    Closed,
}

/// Tracks a student's approved funding and how much has been streamed so far.
///
/// `amount_claimed` starts at zero and grows with each partial withdrawal.
#[derive(Clone, Copy, Debug, PartialEq, Eq, Structural)]
pub struct Application {
    /// The total amount the student is approved to receive from this pool.
    pub approved_amount: i128,
    /// Running total of funds already disbursed to the student.
    pub amount_claimed: i128,
}

/// A donation / sponsorship pool.
#[derive(Clone, Copy, Debug, PartialEq, Eq, Structural)]
pub struct Pool {
    pub sponsor: u64,
    pub goal: u128,
    pub collected: u128,
    pub is_closed: bool,
    pub state: PoolState,
    pub application_deadline: u64,
}

/// One step of a streamed disbursement.
#[derive(Clone, Copy, Debug, PartialEq, Eq, Structural)]
pub struct Milestone {
    pub amount: u128,
}

/// A pending emergency withdrawal of a pool's funds, requested by the admin.
#[derive(Clone, Copy, Debug, PartialEq, Eq, Structural)]
pub struct EmergencyWithdrawalRequest {
    pub pool_id: u32,
    pub token_address: u64,
    pub amount: i128,
    pub request_timestamp: u64,
    pub requested_by: u64,
}

/// A student's application to a pool, filed under its sequence number.
#[derive(Clone, Debug)]
pub struct ApplicationEntry {
    pub index: u32,
    pub student: u64,
    pub data: String,
}

/// A token movement that an operation asks its caller to carry out; the
/// operation's new state stands only if the movement succeeds.
#[derive(Clone, Copy, Debug, PartialEq, Eq, Structural)]
pub enum Transfer {
    /// `amount` of `token` moves from account `from` into the contract.
    ToContract { token: u64, from: u64, amount: i128 },
    /// `amount` of `token` moves from the contract to account `to`.
    FromContract { token: u64, to: u64, amount: i128 },
}

/// An event that an operation publishes when it succeeds.
#[derive(Clone, Debug, PartialEq, Eq)]
#[allow(inconsistent_fields)]
pub enum Event {
    PoolCreated { pool_id: u32, sponsor: u64, goal: u128, title: String, description: String },
    Donation { pool_id: u32, donor: u64, amount: u128, collected: u128 },
    Contribution { pool_id: u32, donor: u64, amount: i128, collected: u128, private: bool },
    PoolClosed { pool_id: u32, sponsor: u64, collected: u128 },
    ApplicationSubmitted { pool_id: u32, student: u64, index: u32, private: bool },
    CreationFeeUpdated { fee: i128 },
}

/// Why an operation was refused.
#[derive(Clone, Copy, Debug, PartialEq, Eq, Structural)]
pub enum ContractError {
    Unauthorized,
    AdminNotSet,
    UnauthorizedAdmin,
    SchoolNotRegistered,
    PoolSchoolNotSet,
    PoolNotFound,
    PoolClosed,
    InvalidPoolState,
    DescriptionTooLong,
    PoolNotDisbursedOrRefunded,
    DuplicateApplication,
    OnlyLinkedSchool,
    StudentNotApplied,
    MilestonesRequired,
    MilestoneOverflow,
    MilestoneTotalMismatch,
    LockedFundsOverflow,
    Insolvency,
    NoSurplus,
    ClaimAmountNotPositive,
    StatusNotFound,
    NotApproved,
    Overdraw,
    NoUnclaimedFees,
    InvalidFee,
    DeadlineNotInFuture,
    PoolNotExpired,
    NoContribution,
    InvalidAmount,
    CollectedOverflow,
    WithdrawalAlreadyRequested,
    WithdrawalNotRequested,
    GracePeriodNotElapsed,
    ArithmeticOverflow,
}

impl ContractError {
    /// The text with which the contract aborts on this error.
    pub open spec fn text(self) -> Seq<char> {
        match self {
            ContractError::Unauthorized => "Error(Auth, InvalidAction)"@,
            ContractError::AdminNotSet => "Admin not set"@,
            ContractError::UnauthorizedAdmin => "Unauthorized admin"@,
            ContractError::SchoolNotRegistered => "School is not registered"@,
            ContractError::PoolSchoolNotSet => "Pool school not set"@,
            ContractError::PoolNotFound => "Pool not found"@,
            ContractError::PoolClosed => "Pool is closed"@,
            ContractError::InvalidPoolState => "InvalidPoolState"@,
            ContractError::DescriptionTooLong => "Description exceeds maximum length"@,
            ContractError::PoolNotDisbursedOrRefunded => "PoolNotDisbursedOrRefunded"@,
            ContractError::DuplicateApplication => "Duplicate application"@,
            ContractError::OnlyLinkedSchool => "Only linked school can approve"@,
            ContractError::StudentNotApplied => "Student has not applied"@,
            ContractError::MilestonesRequired => "Milestones required"@,
            ContractError::MilestoneOverflow => "Milestone amount overflow"@,
            ContractError::MilestoneTotalMismatch => "Milestone total must equal pool goal"@,
            ContractError::LockedFundsOverflow => "Locked funds overflow"@,
            ContractError::Insolvency => "Insolvency: locked funds exceed collected"@,
            ContractError::NoSurplus => "No surplus to withdraw"@,
            ContractError::ClaimAmountNotPositive => "Claim amount must be positive"@,
            ContractError::StatusNotFound => "Application status not found"@,
            ContractError::NotApproved => "Application is not approved"@,
            ContractError::Overdraw => "Overdraw attempt"@,
            ContractError::NoUnclaimedFees => "No unclaimed fees"@,
            ContractError::InvalidFee => "InvalidFee"@,
            ContractError::DeadlineNotInFuture => "Deadline must be in the future"@,
            ContractError::PoolNotExpired => "PoolNotExpired"@,
            ContractError::NoContribution => "No contribution to refund"@,
            ContractError::InvalidAmount => "InvalidAmount"@,
            ContractError::CollectedOverflow => "Collected amount overflow"@,
            ContractError::WithdrawalAlreadyRequested => "EmergencyWithdrawalAlreadyRequested"@,
            ContractError::WithdrawalNotRequested => "Emergency withdrawal not requested"@,
            ContractError::GracePeriodNotElapsed => "Grace period not elapsed"@,
            ContractError::ArithmeticOverflow => "arithmetic overflow"@,
        }
    }

    /// The message with which the contract aborts on this error.
    pub fn message(&self) -> (m: &'static str)
        ensures
            m@ == self.text(),
    {
        match self {
            ContractError::Unauthorized => "Error(Auth, InvalidAction)",
            ContractError::AdminNotSet => "Admin not set",
            ContractError::UnauthorizedAdmin => "Unauthorized admin",
            ContractError::SchoolNotRegistered => "School is not registered",
            ContractError::PoolSchoolNotSet => "Pool school not set",
            ContractError::PoolNotFound => "Pool not found",
            ContractError::PoolClosed => "Pool is closed",
            ContractError::InvalidPoolState => "InvalidPoolState",
            ContractError::DescriptionTooLong => "Description exceeds maximum length",
            ContractError::PoolNotDisbursedOrRefunded => "PoolNotDisbursedOrRefunded",
            ContractError::DuplicateApplication => "Duplicate application",
            ContractError::OnlyLinkedSchool => "Only linked school can approve",
            ContractError::StudentNotApplied => "Student has not applied",
            ContractError::MilestonesRequired => "Milestones required",
            ContractError::MilestoneOverflow => "Milestone amount overflow",
            ContractError::MilestoneTotalMismatch => "Milestone total must equal pool goal",
            ContractError::LockedFundsOverflow => "Locked funds overflow",
            ContractError::Insolvency => "Insolvency: locked funds exceed collected",
            ContractError::NoSurplus => "No surplus to withdraw",
            ContractError::ClaimAmountNotPositive => "Claim amount must be positive",
            ContractError::StatusNotFound => "Application status not found",
            ContractError::NotApproved => "Application is not approved",
            ContractError::Overdraw => "Overdraw attempt",
            ContractError::NoUnclaimedFees => "No unclaimed fees",
            ContractError::InvalidFee => "InvalidFee",
            ContractError::DeadlineNotInFuture => "Deadline must be in the future",
            ContractError::PoolNotExpired => "PoolNotExpired",
            ContractError::NoContribution => "No contribution to refund",
            ContractError::InvalidAmount => "InvalidAmount",
            ContractError::CollectedOverflow => "Collected amount overflow",
            ContractError::WithdrawalAlreadyRequested => "EmergencyWithdrawalAlreadyRequested",
            ContractError::WithdrawalNotRequested => "Emergency withdrawal not requested",
            ContractError::GracePeriodNotElapsed => "Grace period not elapsed",
            ContractError::ArithmeticOverflow => "arithmetic overflow",
        }
    }
}

/// The accounts that have authorized the current invocation.
pub struct Authorization {
    /// Every account has authorized it.
    pub everyone: bool,
    /// These accounts have authorized it.
    pub signers: Vec<u64>,
}

impl Authorization {
    /// Whether `account` has authorized the invocation.
    pub open spec fn allows(&self, account: u64) -> bool {
        self.everyone || self.signers@.contains(account)
    }

    /// An invocation that every account has authorized.
    pub fn everyone() -> (a: Authorization)
        ensures
            forall|x: u64| a.allows(x),
    {
        Authorization { everyone: true, signers: Vec::new() }
    }

    /// An invocation authorized by exactly the accounts in `signers`.
    pub fn signed_by(signers: Vec<u64>) -> (a: Authorization)
        ensures
            forall|x: u64| a.allows(x) <==> signers@.contains(x),
    {
        Authorization { everyone: false, signers }
    }

    /// Whether `account` has authorized the invocation.
    pub fn permits(&self, account: u64) -> (r: bool)
        ensures
            r == self.allows(account),
    {
        if self.everyone {
            return true;
        }
        let mut i: usize = 0;
        while i < self.signers.len()
            invariant
                i <= self.signers@.len(),
                forall|j: int| 0 <= j < i ==> self.signers@[j] != account,
            decreases self.signers@.len() - i,
        {
            if self.signers[i] == account {
                return true;
            }
            i = i + 1;
        }
        false
    }
}

} // verus!
