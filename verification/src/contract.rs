//! The vault's operations. Each one reads and updates the vault's storage
//! and, when it succeeds, says which token transfer and which event the host
//! has to carry out. An operation that fails leaves the storage as it was.
use vstd::prelude::*;

use crate::errors::ContractError;
use crate::storage::{
    get_early_withdraw_delay, get_early_withdraw_request, get_owner, get_plan_count, get_token,
    is_initialized, put_plan, remove_early_withdraw_request, set_early_withdraw_request,
    set_initialized, set_owner, set_plan_count, set_token, Storage, StorageView,
};
use crate::types::{Plan, PlanStatus, PlanType, PlanView};

verus! {

/// One side of a token transfer: the vault's owner or the vault itself.
#[derive(Clone, Copy, Debug, PartialEq, Eq, Structural)]
pub enum Party {
    Owner,
    Vault,
}

/// A movement of `amount` of the vault's token.
#[derive(Clone, Copy, Debug, PartialEq, Eq, Structural)]
pub struct Transfer {
    pub from: Party,
    pub to: Party,
    pub amount: i128,
}

/// The events the vault publishes (topics `vault` and `init`, `create`,
/// `release`, `ew_req`, `ew_done`).
#[derive(Clone, Copy, Debug, PartialEq, Eq, Structural)]
pub enum VaultEvent {
    VaultInitialized,
    PlanCreated { plan_id: u32, amount: i128, unlock_date: u64 },
    PlanReleased { plan_id: u32, amount: i128 },
    EarlyWithdrawRequested { plan_id: u32 },
    EarlyWithdrawCompleted { plan_id: u32, amount: i128 },
}

/// What the host carries out after a successful operation: at most one
/// transfer, then one event.
#[derive(Clone, Copy, Debug, PartialEq, Eq, Structural)]
pub struct Effects {
    pub transfer: Option<Transfer>,
    pub event: VaultEvent,
}

/// The friction delay between requesting and confirming an early withdrawal.
pub open spec fn early_withdraw_delay() -> u64 {
    0
}

/// The unlock date a new plan is stored with: Emergency plans are always
/// locked (0); Bill and Savings plans keep their date.
pub open spec fn stored_unlock_date(plan_type: PlanType, unlock_date: u64) -> u64 {
    if plan_type == PlanType::Emergency {
        0
    } else {
        unlock_date
    }
}

/// Setting up the vault; it can happen only once.
pub open spec fn spec_constructor<A>(s: StorageView<A>, owner: A, token: A) -> (
    StorageView<A>,
    Result<Effects, ContractError>,
) {
    if s.initialized {
        (s, Err(ContractError::AlreadyInitialized))
    } else {
        (
            StorageView {
                initialized: true,
                owner: Some(owner),
                token: Some(token),
                plan_count: Some(0),
                ..s
            },
            Ok(Effects { transfer: None, event: VaultEvent::VaultInitialized }),
        )
    }
}

/// Creating a plan at ledger time `now`: the checks in order, then the new
/// plan under the next id, funded from the owner.
pub open spec fn spec_create_plan<A>(
    s: StorageView<A>,
    now: u64,
    name: Seq<char>,
    amount: i128,
    plan_type: PlanType,
    unlock_date: u64,
) -> (StorageView<A>, Result<(u32, Effects), ContractError>) {
    if s.owner is None {
        (s, Err(ContractError::NotInitialized))
    } else if amount <= 0 {
        (s, Err(ContractError::InvalidAmount))
    } else if plan_type == PlanType::Bill && unlock_date == 0 {
        (s, Err(ContractError::InvalidUnlockDate))
    } else if plan_type == PlanType::Bill && unlock_date <= now {
        (s, Err(ContractError::UnlockDateInPast))
    } else if s.plan_count is None {
        (s, Err(ContractError::NotInitialized))
    } else if s.plan_count->0 == u32::MAX {
        (s, Err(ContractError::Overflow))
    } else if s.token is None {
        (s, Err(ContractError::NotInitialized))
    } else {
        let id = (s.plan_count->0 + 1) as u32;
        let plan = PlanView {
            id,
            name,
            amount,
            plan_type,
            status: PlanStatus::Locked,
            unlock_date: stored_unlock_date(plan_type, unlock_date),
            created_at: now,
        };
        (
            StorageView { plans: s.plans.insert(id, plan), plan_count: Some(id), ..s },
            Ok(
                (
                    id,
                    Effects {
                        transfer: Some(Transfer { from: Party::Owner, to: Party::Vault, amount }),
                        event: VaultEvent::PlanCreated {
                            plan_id: id,
                            amount,
                            unlock_date: plan.unlock_date,
                        },
                    },
                ),
            ),
        )
    }
}

/// Whether a locked plan of this kind may be released at `now`: Emergency
/// plans never; the others once their unlock date has come, where an unlock
/// date of 0 means "always locked".
pub open spec fn releasable_at(p: PlanView, now: u64) -> bool {
    &&& p.plan_type != PlanType::Emergency
    &&& p.unlock_date != 0
    &&& p.unlock_date <= now
}

/// Releasing plan `plan_id` at ledger time `now`: its funds go back to the
/// owner, and the plan, marked released, is written back under the id it
/// carries.
pub open spec fn spec_release_plan<A>(s: StorageView<A>, now: u64, plan_id: u32) -> (
    StorageView<A>,
    Result<Effects, ContractError>,
) {
    if !s.plans.contains_key(plan_id) {
        (s, Err(ContractError::PlanNotFound))
    } else if s.owner is None {
        (s, Err(ContractError::NotInitialized))
    } else if s.plans[plan_id].status != PlanStatus::Locked {
        (s, Err(ContractError::PlanNotLocked))
    } else if s.plans[plan_id].plan_type == PlanType::Emergency {
        (s, Err(ContractError::PlanNotBill))
    } else if s.plans[plan_id].unlock_date == 0 || now < s.plans[plan_id].unlock_date {
        (s, Err(ContractError::NotYetUnlocked))
    } else if s.token is None {
        (s, Err(ContractError::NotInitialized))
    } else {
        let p = s.plans[plan_id];
        (
            StorageView {
                plans: s.plans.insert(p.id, PlanView { status: PlanStatus::Released, ..p }),
                ..s
            },
            Ok(
                Effects {
                    transfer: Some(
                        Transfer { from: Party::Vault, to: Party::Owner, amount: p.amount },
                    ),
                    event: VaultEvent::PlanReleased { plan_id, amount: p.amount },
                },
            ),
        )
    }
}

/// Early withdrawal, step 1: recording at `now` the intent to break a locked plan.
pub open spec fn spec_request_early_withdraw<A>(s: StorageView<A>, now: u64, plan_id: u32) -> (
    StorageView<A>,
    Result<Effects, ContractError>,
) {
    if s.owner is None {
        (s, Err(ContractError::NotInitialized))
    } else if !s.plans.contains_key(plan_id) {
        (s, Err(ContractError::PlanNotFound))
    } else if s.plans[plan_id].status != PlanStatus::Locked {
        (s, Err(ContractError::PlanNotLocked))
    } else {
        (
            StorageView { requests: s.requests.insert(plan_id, now), ..s },
            Ok(
                Effects {
                    transfer: None,
                    event: VaultEvent::EarlyWithdrawRequested { plan_id },
                },
            ),
        )
    }
}

/// Early withdrawal, step 2: paying a requested plan out to the owner at `now`,
/// once the delay since the request has passed; the plan, marked withdrawn, is
/// written back under the id it carries and the request is forgotten.
pub open spec fn spec_confirm_early_withdraw<A>(s: StorageView<A>, now: u64, plan_id: u32) -> (
    StorageView<A>,
    Result<Effects, ContractError>,
) {
    if s.owner is None {
        (s, Err(ContractError::NotInitialized))
    } else if !s.plans.contains_key(plan_id) {
        (s, Err(ContractError::PlanNotFound))
    } else if s.plans[plan_id].status != PlanStatus::Locked {
        (s, Err(ContractError::PlanNotLocked))
    } else if !s.requests.contains_key(plan_id) {
        (s, Err(ContractError::EarlyWithdrawNotRequested))
    } else if now < s.requests[plan_id] + early_withdraw_delay() {
        (s, Err(ContractError::EarlyWithdrawDelayNotMet))
    } else if s.token is None {
        (s, Err(ContractError::NotInitialized))
    } else {
        let p = s.plans[plan_id];
        (
            StorageView {
                plans: s.plans.insert(p.id, PlanView { status: PlanStatus::EarlyWithdrawn, ..p }),
                requests: s.requests.remove(plan_id),
                ..s
            },
            Ok(
                Effects {
                    transfer: Some(
                        Transfer { from: Party::Vault, to: Party::Owner, amount: p.amount },
                    ),
                    event: VaultEvent::EarlyWithdrawCompleted { plan_id, amount: p.amount },
                },
            ),
        )
    }
}

/// The plans stored under ids 1 to `n`, in id order, skipping missing ids.
pub open spec fn plans_upto(plans: Map<u32, PlanView>, n: nat) -> Seq<PlanView>
    decreases n,
{
    if n == 0 {
        Seq::empty()
    } else {
        let prev = plans_upto(plans, (n - 1) as nat);
        let id = n as u32;
        if plans.contains_key(id) {
            prev.push(plans[id])
        } else {
            prev
        }
    }
}

/// Whether a plan is stored under `id` and is still locked.
pub open spec fn locked_at(plans: Map<u32, PlanView>, id: u32) -> bool {
    plans.contains_key(id) && plans[id].status == PlanStatus::Locked
}

/// The running total of the amounts of the locked plans with ids 1 to `n`,
/// added in id order, or `None` when a partial sum leaves the range of `i128`.
pub open spec fn checked_locked_total(plans: Map<u32, PlanView>, n: nat) -> Option<int>
    decreases n,
{
    if n == 0 {
        Some(0)
    } else {
        match checked_locked_total(plans, (n - 1) as nat) {
            None => None,
            Some(t) => {
                let id = n as u32;
                if locked_at(plans, id) {
                    let sum = t + plans[id].amount;
                    if i128::MIN <= sum <= i128::MAX {
                        Some(sum)
                    } else {
                        None
                    }
                } else {
                    Some(t)
                }
            },
        }
    }
}

/// The total of the amounts of the locked plans with ids 1 to `n`.
pub open spec fn locked_total(plans: Map<u32, PlanView>, n: nat) -> int
    decreases n,
{
    if n == 0 {
        0
    } else {
        let id = n as u32;
        locked_total(plans, (n - 1) as nat) + if locked_at(plans, id) {
            plans[id].amount as int
        } else {
            0
        }
    }
}

/// The plans of the vault, or `NotInitialized` when it holds no plan count.
pub open spec fn spec_list_plans<A>(s: StorageView<A>) -> Result<Seq<PlanView>, ContractError> {
    match s.plan_count {
        None => Err(ContractError::NotInitialized),
        Some(c) => Ok(plans_upto(s.plans, c as nat)),
    }
}

/// The amount protected by the vault's locked plans: `NotInitialized` when it
/// holds no plan count, `Overflow` when the running total leaves `i128`.
pub open spec fn spec_protected_total<A>(s: StorageView<A>) -> Result<int, ContractError> {
    match s.plan_count {
        None => Err(ContractError::NotInitialized),
        Some(c) => match checked_locked_total(s.plans, c as nat) {
            None => Err(ContractError::Overflow),
            Some(t) => Ok(t),
        },
    }
}

/// Once the running total has overflowed, it stays overflowed.
proof fn overflow_stays(plans: Map<u32, PlanView>, k: nat, n: nat)
    requires
        k <= n,
        checked_locked_total(plans, k) is None,
    ensures
        checked_locked_total(plans, n) is None,
    decreases n - k,
{
    if k < n {
        overflow_stays(plans, k + 1, n);
    }
}

/// The vault contract. Its operations take the vault's storage in place of the
/// host environment, and the ledger time as `now`.
pub struct PlanVaultContract;

impl PlanVaultContract {
    /// Registers the vault owner and asset and marks the vault initialized.
    /// Runs once; a second call fails with `AlreadyInitialized`.
    pub fn __constructor<A>(store: &mut Storage<A>, owner: A, token: A) -> (r: Result<
        Effects,
        ContractError,
    >)
        ensures
            (final(store)@, r) == spec_constructor(old(store)@, owner, token),
    {
        if is_initialized(store) {
            return Err(ContractError::AlreadyInitialized);
        }
        set_owner(store, owner);
        set_token(store, token);
        set_initialized(store);
        set_plan_count(store, 0u32);
        Ok(Effects { transfer: None, event: VaultEvent::VaultInitialized })
    }

    /// Creates a new time-locked plan funded with `amount` from the owner and
    /// returns its id. Bill plans need an unlock date after `now`; Emergency
    /// plans are stored with unlock date 0 (always locked).
    pub fn create_plan<A>(
        store: &mut Storage<A>,
        now: u64,
        name: String,
        amount: i128,
        plan_type: PlanType,
        unlock_date: u64,
    ) -> (r: Result<(u32, Effects), ContractError>)
        ensures
            (final(store)@, r) == spec_create_plan(
                old(store)@,
                now,
                name@,
                amount,
                plan_type,
                unlock_date,
            ),
    {
        let owner = get_owner(store);
        if owner.is_err() {
            return Err(ContractError::NotInitialized);
        }
        if amount <= 0 {
            return Err(ContractError::InvalidAmount);
        }
        if plan_type == PlanType::Bill && unlock_date == 0 {
            return Err(ContractError::InvalidUnlockDate);
        }
        if plan_type == PlanType::Bill && unlock_date <= now {
            return Err(ContractError::UnlockDateInPast);
        }
        let count = match get_plan_count(store) {
            Ok(c) => c,
            Err(e) => return Err(e),
        };
        let plan_id = match count.checked_add(1) {
            Some(id) => id,
            None => return Err(ContractError::Overflow),
        };
        if get_token(store).is_err() {
            return Err(ContractError::NotInitialized);
        }
        let stored_unlock = if plan_type == PlanType::Emergency {
            0
        } else {
            unlock_date
        };
        let plan = Plan {
            id: plan_id,
            name,
            amount,
            plan_type,
            status: PlanStatus::Locked,
            unlock_date: stored_unlock,
            created_at: now,
        };
        put_plan(store, plan);
        set_plan_count(store, plan_id);
        Ok(
            (
                plan_id,
                Effects {
                    transfer: Some(Transfer { from: Party::Owner, to: Party::Vault, amount }),
                    event: VaultEvent::PlanCreated {
                        plan_id,
                        amount,
                        unlock_date: stored_unlock,
                    },
                },
            ),
        )
    }

    /// Releases a plan whose unlock date has come; its funds go back to the
    /// owner. Anyone may call it: funds can only ever go to the owner.
    pub fn release_plan<A>(store: &mut Storage<A>, now: u64, plan_id: u32) -> (r: Result<
        Effects,
        ContractError,
    >)
        ensures
            (final(store)@, r) == spec_release_plan(old(store)@, now, plan_id),
    {
        let mut plan = match crate::storage::get_plan(store, plan_id) {
            Ok(p) => p,
            Err(e) => return Err(e),
        };
        if get_owner(store).is_err() {
            return Err(ContractError::NotInitialized);
        }
        if plan.status != PlanStatus::Locked {
            return Err(ContractError::PlanNotLocked);
        }
        if plan.plan_type == PlanType::Emergency {
            return Err(ContractError::PlanNotBill);
        }
        if plan.unlock_date == 0 || now < plan.unlock_date {
            return Err(ContractError::NotYetUnlocked);
        }
        if get_token(store).is_err() {
            return Err(ContractError::NotInitialized);
        }
        let amount = plan.amount;
        plan.status = PlanStatus::Released;
        put_plan(store, plan);
        Ok(
            Effects {
                transfer: Some(Transfer { from: Party::Vault, to: Party::Owner, amount }),
                event: VaultEvent::PlanReleased { plan_id, amount },
            },
        )
    }

    /// Early withdrawal, step 1: records at `now` the owner's intent to break
    /// a locked plan, which starts the friction countdown.
    pub fn request_early_withdraw<A>(store: &mut Storage<A>, now: u64, plan_id: u32) -> (r: Result<
        Effects,
        ContractError,
    >)
        ensures
            (final(store)@, r) == spec_request_early_withdraw(old(store)@, now, plan_id),
    {
        if get_owner(store).is_err() {
            return Err(ContractError::NotInitialized);
        }
        let plan = match crate::storage::get_plan(store, plan_id) {
            Ok(p) => p,
            Err(e) => return Err(e),
        };
        if plan.status != PlanStatus::Locked {
            return Err(ContractError::PlanNotLocked);
        }
        set_early_withdraw_request(store, plan_id, now);
        Ok(Effects { transfer: None, event: VaultEvent::EarlyWithdrawRequested { plan_id } })
    }

    /// Early withdrawal, step 2: once the delay since the request has passed,
    /// pays the plan out to the owner and forgets the request.
    pub fn confirm_early_withdraw<A>(store: &mut Storage<A>, now: u64, plan_id: u32) -> (r: Result<
        Effects,
        ContractError,
    >)
        ensures
            (final(store)@, r) == spec_confirm_early_withdraw(old(store)@, now, plan_id),
    {
        if get_owner(store).is_err() {
            return Err(ContractError::NotInitialized);
        }
        let mut plan = match crate::storage::get_plan(store, plan_id) {
            Ok(p) => p,
            Err(e) => return Err(e),
        };
        if plan.status != PlanStatus::Locked {
            return Err(ContractError::PlanNotLocked);
        }
        let requested_at = match get_early_withdraw_request(store, plan_id) {
            Some(t) => t,
            None => return Err(ContractError::EarlyWithdrawNotRequested),
        };
        let required_delay = get_early_withdraw_delay();
        if now < requested_at || now - requested_at < required_delay {
            return Err(ContractError::EarlyWithdrawDelayNotMet);
        }
        if get_token(store).is_err() {
            return Err(ContractError::NotInitialized);
        }
        let amount = plan.amount;
        plan.status = PlanStatus::EarlyWithdrawn;
        put_plan(store, plan);
        remove_early_withdraw_request(store, plan_id);
        Ok(
            Effects {
                transfer: Some(Transfer { from: Party::Vault, to: Party::Owner, amount }),
                event: VaultEvent::EarlyWithdrawCompleted { plan_id, amount },
            },
        )
    }

    /// Reads a single plan.
    pub fn get_plan<A>(store: &Storage<A>, plan_id: u32) -> (r: Result<Plan, ContractError>)
        ensures
            match r {
                Ok(p) => store@.plans.contains_key(plan_id) && p@ == store@.plans[plan_id],
                Err(e) => !store@.plans.contains_key(plan_id) && e == ContractError::PlanNotFound,
            },
    {
        crate::storage::get_plan(store, plan_id)
    }

    /// Reads all plans, in id order.
    pub fn list_plans<A>(store: &Storage<A>) -> (r: Result<Vec<Plan>, ContractError>)
        ensures
            match r {
                Ok(v) => spec_list_plans(store@) == Ok::<Seq<PlanView>, ContractError>(
                    v@.map_values(|p: Plan| p@),
                ),
                Err(e) => spec_list_plans(store@) == Err::<Seq<PlanView>, ContractError>(e),
            },
    {
        let count = match get_plan_count(store) {
            Ok(c) => c,
            Err(e) => return Err(e),
        };
        let mut plans: Vec<Plan> = Vec::new();
        let mut id: u32 = 0;
        while id < count
            invariant
                id <= count,
                store@.plan_count == Some(count),
                plans@.map_values(|p: Plan| p@) =~= plans_upto(store@.plans, id as nat),
            decreases count - id,
        {
            id = id + 1;
            match crate::storage::get_plan(store, id) {
                Ok(plan) => {
                    let ghost before = plans@;
                    plans.push(plan);
                    assert(plans@.map_values(|p: Plan| p@) =~= before.map_values(|p: Plan| p@).push(
                        store@.plans[id],
                    ));
                },
                Err(_) => {},
            }
        }
        Ok(plans)
    }

    /// The total amount currently protected across all locked plans.
    pub fn get_protected_total<A>(store: &Storage<A>) -> (r: Result<i128, ContractError>)
        ensures
            match r {
                Ok(t) => spec_protected_total(store@) == Ok::<int, ContractError>(t as int),
                Err(e) => spec_protected_total(store@) == Err::<int, ContractError>(e),
            },
    {
        let count = match get_plan_count(store) {
            Ok(c) => c,
            Err(e) => return Err(e),
        };
        let mut total: i128 = 0;
        let mut id: u32 = 0;
        while id < count
            invariant
                id <= count,
                store@.plan_count == Some(count),
                checked_locked_total(store@.plans, id as nat) == Some(total as int),
            decreases count - id,
        {
            id = id + 1;
            match crate::storage::get_plan(store, id) {
                Ok(plan) => {
                    if plan.status == PlanStatus::Locked {
                        total = match total.checked_add(plan.amount) {
                            Some(t) => t,
                            None => {
                                proof {
                                    overflow_stays(store@.plans, id as nat, count as nat);
                                }
                                return Err(ContractError::Overflow);
                            },
                        };
                    }
                },
                Err(_) => {},
            }
        }
        Ok(total)
    }

    /// The contract version.
    pub fn version() -> (v: &'static str)
        ensures
            v@ == "v1_0_0"@,
    {
        "v1_0_0"
    }
}

} // verus!
