//! The vault's storage: instance entries (owner, token, initialized flag,
//! plan count) and persistent entries (plans and early-withdraw requests,
//! each keyed by plan id).
use std::collections::HashMap;
use vstd::prelude::*;

use crate::errors::ContractError;
use crate::types::{Plan, PlanView};

verus! {

broadcast use vstd::std_specs::hash::group_hash_axioms;

/// The storage of one vault. `A` is the type of account addresses.
pub struct Storage<A> {
    initialized: bool,
    owner: Option<A>,
    token: Option<A>,
    plan_count: Option<u32>,
    plans: HashMap<u32, Plan>,
    early_withdraw_requests: HashMap<u32, u64>,
}

/// What a vault's storage holds, as mathematical values.
pub struct StorageView<A> {
    pub initialized: bool,
    pub owner: Option<A>,
    pub token: Option<A>,
    pub plan_count: Option<u32>,
    /// `Plan(id)` entries.
    pub plans: Map<u32, PlanView>,
    /// `EarlyWithdrawRequest(id)` entries: when the request was recorded.
    pub requests: Map<u32, u64>,
}

impl<A> View for Storage<A> {
    type V = StorageView<A>;

    closed spec fn view(&self) -> StorageView<A> {
        StorageView {
            initialized: self.initialized,
            owner: self.owner,
            token: self.token,
            plan_count: self.plan_count,
            plans: self.plans@.map_values(|p: Plan| p@),
            requests: self.early_withdraw_requests@,
        }
    }
}

/// The empty storage of a freshly deployed vault.
pub open spec fn empty_storage<A>() -> StorageView<A> {
    StorageView {
        initialized: false,
        owner: None,
        token: None,
        plan_count: None,
        plans: Map::empty(),
        requests: Map::empty(),
    }
}

/// The result of reading an entry that may be missing: `err` when it is.
pub open spec fn present_or<T>(v: Option<T>, err: ContractError) -> Result<T, ContractError> {
    match v {
        Some(x) => Ok(x),
        None => Err(err),
    }
}

impl<A> Storage<A> {
    /// Storage with no entries.
    pub fn new() -> (s: Storage<A>)
        ensures
            s@ == empty_storage::<A>(),
    {
        let s = Storage {
            initialized: false,
            owner: None,
            token: None,
            plan_count: None,
            plans: HashMap::new(),
            early_withdraw_requests: HashMap::new(),
        };
        assert(s@.plans =~= Map::empty());
        s
    }
}

/// Early-withdraw friction delay, in seconds. It is 0: the intent only has to
/// be recorded before the withdrawal is confirmed.
pub fn get_early_withdraw_delay() -> (d: u64)
    ensures
        d == 0,
{
    0
}

/// Whether the vault has been set up.
pub fn is_initialized<A>(store: &Storage<A>) -> (b: bool)
    ensures
        b == store@.initialized,
{
    store.initialized
}

/// Marks the vault as set up.
pub fn set_initialized<A>(store: &mut Storage<A>)
    ensures
        final(store)@ == (StorageView { initialized: true, ..old(store)@ }),
{
    store.initialized = true;
}

/// The vault's owner, or `NotInitialized` when none is stored.
pub fn get_owner<A>(store: &Storage<A>) -> (r: Result<&A, ContractError>)
    ensures
        match r {
            Ok(a) => store@.owner == Some(*a),
            Err(e) => store@.owner is None && e == ContractError::NotInitialized,
        },
{
    match &store.owner {
        Some(a) => Ok(a),
        None => Err(ContractError::NotInitialized),
    }
}

/// Stores the vault's owner.
pub fn set_owner<A>(store: &mut Storage<A>, owner: A)
    ensures
        final(store)@ == (StorageView { owner: Some(owner), ..old(store)@ }),
{
    store.owner = Some(owner);
}

/// The vault's token, or `NotInitialized` when none is stored.
pub fn get_token<A>(store: &Storage<A>) -> (r: Result<&A, ContractError>)
    ensures
        match r {
            Ok(a) => store@.token == Some(*a),
            Err(e) => store@.token is None && e == ContractError::NotInitialized,
        },
{
    match &store.token {
        Some(a) => Ok(a),
        None => Err(ContractError::NotInitialized),
    }
}

/// Stores the vault's token.
pub fn set_token<A>(store: &mut Storage<A>, token: A)
    ensures
        final(store)@ == (StorageView { token: Some(token), ..old(store)@ }),
{
    store.token = Some(token);
}

/// How many plans have been created, or `NotInitialized` when no count is stored.
pub fn get_plan_count<A>(store: &Storage<A>) -> (r: Result<u32, ContractError>)
    ensures
        r == present_or(store@.plan_count, ContractError::NotInitialized),
{
    match store.plan_count {
        Some(c) => Ok(c),
        None => Err(ContractError::NotInitialized),
    }
}

/// Stores the plan count.
pub fn set_plan_count<A>(store: &mut Storage<A>, count: u32)
    ensures
        final(store)@ == (StorageView { plan_count: Some(count), ..old(store)@ }),
{
    store.plan_count = Some(count);
}

/// The plan stored under `plan_id`, or `PlanNotFound`.
pub fn get_plan<A>(store: &Storage<A>, plan_id: u32) -> (r: Result<Plan, ContractError>)
    ensures
        match r {
            Ok(p) => store@.plans.contains_key(plan_id) && p@ == store@.plans[plan_id],
            Err(e) => !store@.plans.contains_key(plan_id) && e == ContractError::PlanNotFound,
        },
{
    match store.plans.get(&plan_id) {
        Some(p) => Ok(p.clone()),
        None => Err(ContractError::PlanNotFound),
    }
}

/// Stores `plan` under its own id, replacing what was there.
pub fn put_plan<A>(store: &mut Storage<A>, plan: Plan)
    ensures
        final(store)@ == (StorageView { plans: old(store)@.plans.insert(plan.id, plan@), ..old(store)@ }),
{
    let ghost old_plans = store.plans@;
    let ghost pv = plan@;
    store.plans.insert(plan.id, plan);
    assert(store.plans@.map_values(|p: Plan| p@) =~= old_plans.map_values(|p: Plan| p@).insert(
        plan.id,
        pv,
    ));
}

/// When the early withdrawal of `plan_id` was requested, if it was.
pub fn get_early_withdraw_request<A>(store: &Storage<A>, plan_id: u32) -> (r: Option<u64>)
    ensures
        r == store@.requests.get(plan_id),
{
    match store.early_withdraw_requests.get(&plan_id) {
        Some(t) => Some(*t),
        None => None,
    }
}

/// Records that the early withdrawal of `plan_id` was requested at `at`.
pub fn set_early_withdraw_request<A>(store: &mut Storage<A>, plan_id: u32, at: u64)
    ensures
        final(store)@ == (StorageView { requests: old(store)@.requests.insert(plan_id, at), ..old(store)@ }),
{
    store.early_withdraw_requests.insert(plan_id, at);
}

/// Forgets the early-withdraw request of `plan_id`.
pub fn remove_early_withdraw_request<A>(store: &mut Storage<A>, plan_id: u32)
    ensures
        final(store)@ == (StorageView { requests: old(store)@.requests.remove(plan_id), ..old(store)@ }),
{
    store.early_withdraw_requests.remove(&plan_id);
}

} // verus!
