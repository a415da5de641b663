use vstd::prelude::*;

verus! {

/// Errors the vault can return. Their numeric codes (see [`ContractError::code`])
/// are part of the contract's interface and run from 1 to 14.
#[derive(Copy, Clone, Debug, PartialEq, Eq, Structural, PartialOrd, Ord)]
pub enum ContractError {
    AlreadyInitialized,
    NotInitialized,
    Unauthorized,
    InvalidAmount,
    InvalidUnlockDate,
    UnlockDateInPast,
    PlanNotFound,
    PlanNotLocked,
    PlanNotBill,
    NotYetUnlocked,
    InsufficientBalance,
    EarlyWithdrawDelayNotMet,
    EarlyWithdrawNotRequested,
    Overflow,
}

/// The numeric code of each error, in declaration order from 1.
pub open spec fn error_code(e: ContractError) -> u32 {
    match e {
        ContractError::AlreadyInitialized => 1,
        ContractError::NotInitialized => 2,
        ContractError::Unauthorized => 3,
        ContractError::InvalidAmount => 4,
        ContractError::InvalidUnlockDate => 5,
        ContractError::UnlockDateInPast => 6,
        ContractError::PlanNotFound => 7,
        ContractError::PlanNotLocked => 8,
        ContractError::PlanNotBill => 9,
        ContractError::NotYetUnlocked => 10,
        ContractError::InsufficientBalance => 11,
        ContractError::EarlyWithdrawDelayNotMet => 12,
        ContractError::EarlyWithdrawNotRequested => 13,
        ContractError::Overflow => 14,
    }
}

impl ContractError {
    /// The error's code as it crosses the contract boundary.
    pub fn code(&self) -> (c: u32)
        ensures
            c == error_code(*self),
            1 <= c <= 14,
    {
        match self {
            ContractError::AlreadyInitialized => 1,
            ContractError::NotInitialized => 2,
            ContractError::Unauthorized => 3,
            ContractError::InvalidAmount => 4,
            ContractError::InvalidUnlockDate => 5,
            ContractError::UnlockDateInPast => 6,
            ContractError::PlanNotFound => 7,
            ContractError::PlanNotLocked => 8,
            ContractError::PlanNotBill => 9,
            ContractError::NotYetUnlocked => 10,
            ContractError::InsufficientBalance => 11,
            ContractError::EarlyWithdrawDelayNotMet => 12,
            ContractError::EarlyWithdrawNotRequested => 13,
            ContractError::Overflow => 14,
        }
    }
}

} // verus!
