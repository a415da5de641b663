//! Plan vault: time-locked savings plans held on behalf of a single owner.
//!
//! The library holds the vault's rules as verified code over a model of the
//! contract's storage: creating plans, releasing them once their unlock date
//! is reached, and the two-step early withdrawal. Each operation returns the
//! token transfer and the event that the host has to carry out.
pub mod errors;
pub mod types;
pub mod storage;
pub mod contract;
pub mod laws;

pub use errors::ContractError;
pub use types::{DataKey, Plan, PlanStatus, PlanType, PlanView, VaultInitData};
pub use contract::{Effects, Party, PlanVaultContract, Transfer, VaultEvent};
pub use storage::Storage;
