use vstd::prelude::*;
use vstd::std_specs::convert::FromSpecImpl;

verus! {

/// Ledger time is about five seconds, so one day is about 17 280 ledgers.
pub const DAY_IN_LEDGERS: u32 = 17_280;

/// How far storage lifetimes are bumped on every interaction: about 30 days.
pub const INSTANCE_BUMP_AMOUNT: u32 = 30 * DAY_IN_LEDGERS;

/// The keys under which the vault keeps its storage.
#[derive(Clone, Copy, Debug, PartialEq, Eq, Structural)]
pub enum DataKey {
    Owner,
    Token,
    Initialized,
    PlanCount,
    Plan(u32),
    EarlyWithdrawRequest(u32),
}

/// Where a plan is in its life: locked, then released or withdrawn early.
#[derive(Clone, Copy, Debug, PartialEq, Eq, Structural)]
pub enum PlanStatus {
    Locked,
    Released,
    EarlyWithdrawn,
}

/// What a plan is for, which decides how it may be released.
#[derive(Clone, Copy, Debug, PartialEq, Eq, Structural)]
pub enum PlanType {
    /// Unlocks on a set date, e.g. rent or electricity.
    Bill,
    /// Locked permanently until the owner breaks it.
    Emergency,
    /// Locked until a target date; behaves like `Bill` on-chain, only the UI
    /// presents it differently.
    Savings,
}

/// The plan type that a client's `u32` stands for: 1 is `Emergency`, 2 is
/// `Savings`, anything else is `Bill`.
pub open spec fn plan_type_from_u32(v: u32) -> PlanType {
    if v == 1 {
        PlanType::Emergency
    } else if v == 2 {
        PlanType::Savings
    } else {
        PlanType::Bill
    }
}

/// The number a plan type is sent as.
pub open spec fn plan_type_to_u32(p: PlanType) -> u32 {
    match p {
        PlanType::Bill => 0,
        PlanType::Emergency => 1,
        PlanType::Savings => 2,
    }
}

/// The plan status that a client's `u32` stands for: 1 is `Released`, 2 is
/// `EarlyWithdrawn`, anything else is `Locked`.
pub open spec fn plan_status_from_u32(v: u32) -> PlanStatus {
    if v == 1 {
        PlanStatus::Released
    } else if v == 2 {
        PlanStatus::EarlyWithdrawn
    } else {
        PlanStatus::Locked
    }
}

/// The number a plan status is sent as.
pub open spec fn plan_status_to_u32(s: PlanStatus) -> u32 {
    match s {
        PlanStatus::Locked => 0,
        PlanStatus::Released => 1,
        PlanStatus::EarlyWithdrawn => 2,
    }
}

impl From<u32> for PlanType {
    fn from(v: u32) -> (r: PlanType) {
        if v == 1 {
            PlanType::Emergency
        } else if v == 2 {
            PlanType::Savings
        } else {
            PlanType::Bill
        }
    }
}

impl FromSpecImpl<u32> for PlanType {
    open spec fn obeys_from_spec() -> bool {
        true
    }

    open spec fn from_spec(v: u32) -> PlanType {
        plan_type_from_u32(v)
    }
}

impl From<PlanType> for u32 {
    fn from(p: PlanType) -> (r: u32) {
        match p {
            PlanType::Bill => 0,
            PlanType::Emergency => 1,
            PlanType::Savings => 2,
        }
    }
}

impl FromSpecImpl<PlanType> for u32 {
    open spec fn obeys_from_spec() -> bool {
        true
    }

    open spec fn from_spec(p: PlanType) -> u32 {
        plan_type_to_u32(p)
    }
}

impl From<u32> for PlanStatus {
    fn from(v: u32) -> (r: PlanStatus) {
        if v == 1 {
            PlanStatus::Released
        } else if v == 2 {
            PlanStatus::EarlyWithdrawn
        } else {
            PlanStatus::Locked
        }
    }
}

impl FromSpecImpl<u32> for PlanStatus {
    open spec fn obeys_from_spec() -> bool {
        true
    }

    open spec fn from_spec(v: u32) -> PlanStatus {
        plan_status_from_u32(v)
    }
}

impl From<PlanStatus> for u32 {
    fn from(s: PlanStatus) -> (r: u32) {
        match s {
            PlanStatus::Locked => 0,
            PlanStatus::Released => 1,
            PlanStatus::EarlyWithdrawn => 2,
        }
    }
}

impl FromSpecImpl<PlanStatus> for u32 {
    open spec fn obeys_from_spec() -> bool {
        true
    }

    open spec fn from_spec(s: PlanStatus) -> u32 {
        plan_status_to_u32(s)
    }
}

/// A time-locked plan.
#[derive(Debug, PartialEq, Eq)]
pub struct Plan {
    pub id: u32,
    pub name: String,
    pub amount: i128,
    pub plan_type: PlanType,
    pub status: PlanStatus,
    /// 0 means "always locked" (Emergency plans).
    pub unlock_date: u64,
    pub created_at: u64,
}

/// A plan as a mathematical value: its name is the sequence of its characters.
pub struct PlanView {
    pub id: u32,
    pub name: Seq<char>,
    pub amount: i128,
    pub plan_type: PlanType,
    pub status: PlanStatus,
    pub unlock_date: u64,
    pub created_at: u64,
}

impl View for Plan {
    type V = PlanView;

    open spec fn view(&self) -> PlanView {
        PlanView {
            id: self.id,
            name: self.name@,
            amount: self.amount,
            plan_type: self.plan_type,
            status: self.status,
            unlock_date: self.unlock_date,
            created_at: self.created_at,
        }
    }
}

impl Clone for Plan {
    fn clone(&self) -> (r: Plan)
        ensures
            r@ == self@,
    {
        Plan {
            id: self.id,
            name: self.name.clone(),
            amount: self.amount,
            plan_type: self.plan_type,
            status: self.status,
            unlock_date: self.unlock_date,
            created_at: self.created_at,
        }
    }
}

/// The owner and token a vault was set up with.
#[derive(Debug)]
pub struct VaultInitData<A> {
    pub owner: A,
    pub token: A,
}

} // verus!
