//! What holds of the vault across its operations, proved over the
//! specifications that the operations' own contracts use.
use vstd::prelude::*;

use crate::contract::{
    checked_locked_total, locked_at, locked_total, plans_upto,
    spec_confirm_early_withdraw, spec_constructor, spec_create_plan, spec_list_plans,
    spec_protected_total, spec_release_plan, spec_request_early_withdraw,
    Effects, Party, Transfer, VaultEvent,
};
use crate::errors::{error_code, ContractError};
use crate::storage::{empty_storage, StorageView};
use crate::types::{
    plan_status_from_u32, plan_status_to_u32, plan_type_from_u32, plan_type_to_u32, PlanStatus,
    PlanType, PlanView,
};

verus! {

/// A stored plan is well formed under `id`: it carries that id, a positive
/// amount, an unlock date of 0 when it is an Emergency plan and a non-zero
/// unlock date when it is a Bill.
pub open spec fn plan_wf(p: PlanView, id: u32) -> bool {
    &&& p.id == id
    &&& p.amount > 0
    &&& p.plan_type == PlanType::Emergency ==> p.unlock_date == 0
    &&& p.plan_type == PlanType::Bill ==> p.unlock_date > 0
}

/// The vault's storage invariant: a vault has an owner, a token and a plan
/// count exactly when it is initialized; plans are stored exactly under the ids 1 to the count,
/// each well formed; early-withdraw requests exist only for stored plans.
pub open spec fn vault_wf<A>(s: StorageView<A>) -> bool {
    &&& s.initialized == (s.plan_count is Some)
    &&& (s.owner is Some) == s.initialized && (s.token is Some) == s.initialized
    &&& forall|id: u32| #[trigger]
        s.plans.contains_key(id) <==> (s.plan_count is Some && 1 <= id <= s.plan_count->0)
    &&& forall|id: u32| #[trigger] s.plans.contains_key(id) ==> plan_wf(s.plans[id], id)
    &&& forall|id: u32| #[trigger] s.requests.contains_key(id) ==> s.plans.contains_key(id)
}

/// The amount held for locked plans, as a mathematical integer (0 before the
/// vault is set up).
pub open spec fn protected_amount<A>(s: StorageView<A>) -> int {
    match s.plan_count {
        None => 0,
        Some(c) => locked_total(s.plans, c as nat),
    }
}

/// How an operation's transfer changes what the vault holds: plus the amount
/// paid in by the owner, minus the amount paid out to the owner.
pub open spec fn vault_balance_change(e: Effects) -> int {
    match e.transfer {
        None => 0,
        Some(t) => if t.from == Party::Owner && t.to == Party::Vault {
            t.amount as int
        } else if t.from == Party::Vault && t.to == Party::Owner {
            -(t.amount as int)
        } else {
            0
        },
    }
}

/// A freshly deployed vault's empty storage is well formed.
pub proof fn lemma_empty_storage_wf<A>()
    ensures
        vault_wf(empty_storage::<A>()),
{
}

/// Setting up the vault keeps the invariant.
pub proof fn lemma_constructor_keeps_wf<A>(s: StorageView<A>, owner: A, token: A)
    requires
        vault_wf(s),
    ensures
        vault_wf(spec_constructor(s, owner, token).0),
{
    if !s.initialized {
        assert forall|id: u32| !s.plans.contains_key(id) by {}
        assert forall|id: u32| !s.requests.contains_key(id) by {}
    }
}

/// Creating a plan keeps the invariant.
pub proof fn lemma_create_plan_keeps_wf<A>(
    s: StorageView<A>,
    now: u64,
    name: Seq<char>,
    amount: i128,
    plan_type: PlanType,
    unlock_date: u64,
)
    requires
        vault_wf(s),
    ensures
        vault_wf(spec_create_plan(s, now, name, amount, plan_type, unlock_date).0),
{
}

/// Releasing a plan keeps the invariant.
pub proof fn lemma_release_plan_keeps_wf<A>(s: StorageView<A>, now: u64, plan_id: u32)
    requires
        vault_wf(s),
    ensures
        vault_wf(spec_release_plan(s, now, plan_id).0),
{
}

/// Requesting an early withdrawal keeps the invariant.
pub proof fn lemma_request_early_withdraw_keeps_wf<A>(s: StorageView<A>, now: u64, plan_id: u32)
    requires
        vault_wf(s),
    ensures
        vault_wf(spec_request_early_withdraw(s, now, plan_id).0),
{
}

/// Confirming an early withdrawal keeps the invariant.
pub proof fn lemma_confirm_early_withdraw_keeps_wf<A>(s: StorageView<A>, now: u64, plan_id: u32)
    requires
        vault_wf(s),
    ensures
        vault_wf(spec_confirm_early_withdraw(s, now, plan_id).0),
{
}

/// One call of a vault operation, with its arguments.
pub enum VaultOp<A> {
    Construct { owner: A, token: A },
    CreatePlan { now: u64, name: Seq<char>, amount: i128, plan_type: PlanType, unlock_date: u64 },
    ReleasePlan { now: u64, plan_id: u32 },
    RequestEarlyWithdraw { now: u64, plan_id: u32 },
    ConfirmEarlyWithdraw { now: u64, plan_id: u32 },
}

/// What one call does to the storage, and its effects (the id that
/// `create_plan` also returns is left out).
pub open spec fn spec_step<A>(s: StorageView<A>, op: VaultOp<A>) -> (
    StorageView<A>,
    Result<Effects, ContractError>,
) {
    match op {
        VaultOp::Construct { owner, token } => spec_constructor(s, owner, token),
        VaultOp::CreatePlan { now, name, amount, plan_type, unlock_date } => {
            let (s2, r) = spec_create_plan(s, now, name, amount, plan_type, unlock_date);
            (
                s2,
                match r {
                    Ok((_, e)) => Ok(e),
                    Err(e) => Err(e),
                },
            )
        },
        VaultOp::ReleasePlan { now, plan_id } => spec_release_plan(s, now, plan_id),
        VaultOp::RequestEarlyWithdraw { now, plan_id } => spec_request_early_withdraw(
            s,
            now,
            plan_id,
        ),
        VaultOp::ConfirmEarlyWithdraw { now, plan_id } => spec_confirm_early_withdraw(
            s,
            now,
            plan_id,
        ),
    }
}

/// Every operation keeps the storage invariant.
pub proof fn lemma_step_keeps_wf<A>(s: StorageView<A>, op: VaultOp<A>)
    requires
        vault_wf(s),
    ensures
        vault_wf(spec_step(s, op).0),
{
    match op {
        VaultOp::Construct { owner, token } => lemma_constructor_keeps_wf(s, owner, token),
        VaultOp::CreatePlan { now, name, amount, plan_type, unlock_date } => {
            lemma_create_plan_keeps_wf(s, now, name, amount, plan_type, unlock_date)
        },
        VaultOp::ReleasePlan { now, plan_id } => lemma_release_plan_keeps_wf(s, now, plan_id),
        VaultOp::RequestEarlyWithdraw { now, plan_id } => lemma_request_early_withdraw_keeps_wf(
            s,
            now,
            plan_id,
        ),
        VaultOp::ConfirmEarlyWithdraw { now, plan_id } => lemma_confirm_early_withdraw_keeps_wf(
            s,
            now,
            plan_id,
        ),
    }
}

/// An operation that fails leaves the storage exactly as it was.
pub proof fn lemma_failed_step_changes_nothing<A>(s: StorageView<A>, op: VaultOp<A>)
    ensures
        spec_step(s, op).1 is Err ==> spec_step(s, op).0 == s,
{
}

/// The vault can be set up only once: after a successful set-up, any further
/// set-up fails with `AlreadyInitialized` and changes nothing.
pub proof fn lemma_constructor_runs_once<A>(s: StorageView<A>, owner: A, token: A, owner2: A, token2: A)
    requires
        spec_constructor(s, owner, token).1 is Ok,
    ensures
        spec_constructor(spec_constructor(s, owner, token).0, owner2, token2) == (
            spec_constructor(s, owner, token).0,
            Err::<Effects, ContractError>(ContractError::AlreadyInitialized),
        ),
{
}

/// Funds only ever move between the owner and the vault: a successful
/// operation pays a positive amount in from the owner (plan creation), pays it
/// out to the owner (release, early withdrawal), or moves nothing.
pub proof fn lemma_funds_move_only_between_owner_and_vault<A>(s: StorageView<A>, op: VaultOp<A>)
    requires
        vault_wf(s),
        spec_step(s, op).1 is Ok,
    ensures
        match spec_step(s, op).1->Ok_0.transfer {
            None => true,
            Some(t) => t.amount > 0 && (
                (t.from == Party::Owner && t.to == Party::Vault)
                || (t.from == Party::Vault && t.to == Party::Owner)),
        },
{
}

/// Plans are never removed and the plan count never goes down.
pub proof fn lemma_plans_are_never_removed<A>(s: StorageView<A>, op: VaultOp<A>, id: u32)
    requires
        vault_wf(s),
        s.plans.contains_key(id),
    ensures
        spec_step(s, op).0.plans.contains_key(id),
        spec_step(s, op).0.plan_count is Some,
        spec_step(s, op).0.plan_count->0 >= s.plan_count->0,
{
}

/// A plan that is no longer locked (released or withdrawn early) never
/// changes again, and releasing or withdrawing it fails with `PlanNotLocked`.
pub proof fn lemma_settled_plan_is_final<A>(s: StorageView<A>, op: VaultOp<A>, id: u32)
    requires
        vault_wf(s),
        s.plans.contains_key(id),
        s.plans[id].status != PlanStatus::Locked,
    ensures
        spec_step(s, op).0.plans[id] == s.plans[id],
        op matches VaultOp::ReleasePlan { plan_id, .. } && plan_id == id
            ==> spec_step(s, op).1 == Err::<Effects, ContractError>(ContractError::PlanNotLocked),
        op matches VaultOp::ConfirmEarlyWithdraw { plan_id, .. } && plan_id == id
            ==> spec_step(s, op).1 == Err::<Effects, ContractError>(ContractError::PlanNotLocked),
{
}

/// Two plan maps that agree on the ids 1 to `n` give the same listing and the
/// same locked totals up to `n`.
proof fn lemma_agree_upto(p1: Map<u32, PlanView>, p2: Map<u32, PlanView>, n: nat)
    requires
        n <= u32::MAX,
        forall|id: u32|
            #![trigger p1.contains_key(id)]
            #![trigger p2.contains_key(id)]
            1 <= id <= n ==> p1.contains_key(id) == p2.contains_key(id) && (p1.contains_key(id)
                ==> p1[id] == p2[id]),
    ensures
        plans_upto(p1, n) == plans_upto(p2, n),
        locked_total(p1, n) == locked_total(p2, n),
        checked_locked_total(p1, n) == checked_locked_total(p2, n),
    decreases n,
{
    if n > 0 {
        lemma_agree_upto(p1, p2, (n - 1) as nat);
        let id = n as u32;
        assert(1 <= id <= n);
    }
}

/// Replacing the plan under an id in 1 to `n` changes the locked total by
/// what that plan contributes before and after.
proof fn lemma_locked_total_update(p: Map<u32, PlanView>, n: nat, id: u32, v: PlanView)
    requires
        n <= u32::MAX,
        1 <= id <= n,
        p.contains_key(id),
    ensures
        locked_total(p.insert(id, v), n) == locked_total(p, n) - (if locked_at(p, id) {
            p[id].amount as int
        } else {
            0
        }) + (if v.status == PlanStatus::Locked {
            v.amount as int
        } else {
            0
        }),
    decreases n,
{
    let q = p.insert(id, v);
    if n == id as nat {
        lemma_agree_upto(q, p, (n - 1) as nat);
        assert(n as u32 == id);
    } else {
        lemma_locked_total_update(p, (n - 1) as nat, id, v);
        let k = n as u32;
        assert(k != id);
    }
}

/// When every locked plan up to `n` holds a positive amount, the running
/// total overflows exactly when the whole total exceeds `i128::MAX`.
proof fn lemma_checked_total(p: Map<u32, PlanView>, n: nat)
    requires
        n <= u32::MAX,
        forall|id: u32| 1 <= id <= n && #[trigger] locked_at(p, id) ==> p[id].amount > 0,
    ensures
        locked_total(p, n) >= 0,
        checked_locked_total(p, n) == if locked_total(p, n) <= i128::MAX {
            Some(locked_total(p, n))
        } else {
            None::<int>
        },
    decreases n,
{
    if n > 0 {
        lemma_checked_total(p, (n - 1) as nat);
        let id = n as u32;
        if locked_at(p, id) {
            assert(p[id].amount > 0);
        }
    }
}

/// What `get_protected_total` reports on a well-formed vault: the sum of the
/// amounts of its locked plans, or `Overflow` when that sum does not fit an
/// `i128`, or `NotInitialized` before the vault is set up.
pub proof fn lemma_protected_total_is_locked_amount<A>(s: StorageView<A>)
    requires
        vault_wf(s),
    ensures
        spec_protected_total(s) == if s.plan_count is None {
            Err::<int, ContractError>(ContractError::NotInitialized)
        } else if protected_amount(s) <= i128::MAX {
            Ok::<int, ContractError>(protected_amount(s))
        } else {
            Err::<int, ContractError>(ContractError::Overflow)
        },
{
    if let Some(c) = s.plan_count {
        assert forall|id: u32| 1 <= id <= c && #[trigger] locked_at(s.plans, id) implies s.plans[id].amount > 0 by {
            assert(s.plans.contains_key(id));
        }
        lemma_checked_total(s.plans, c as nat);
    }
}

/// The funds held for locked plans follow the transfers: each successful
/// operation changes the protected amount by exactly what it pays into the
/// vault minus what it pays out.
pub proof fn lemma_step_accounts_for_funds<A>(s: StorageView<A>, op: VaultOp<A>)
    requires
        vault_wf(s),
        spec_step(s, op).1 is Ok,
    ensures
        protected_amount(spec_step(s, op).0) == protected_amount(s) + vault_balance_change(
            spec_step(s, op).1->Ok_0,
        ),
{
    let s2 = spec_step(s, op).0;
    match op {
        VaultOp::Construct { .. } => {},
        VaultOp::CreatePlan { .. } => {
            let c = s.plan_count->0;
            let id = (c + 1) as u32;
            lemma_agree_upto(s2.plans, s.plans, c as nat);
            assert(s2.plans.contains_key(id));
        },
        VaultOp::ReleasePlan { plan_id, .. } => {
            let c = s.plan_count->0;
            assert(s.plans.contains_key(plan_id));
            lemma_locked_total_update(s.plans, c as nat, plan_id, s2.plans[plan_id]);
        },
        VaultOp::RequestEarlyWithdraw { .. } => {},
        VaultOp::ConfirmEarlyWithdraw { plan_id, .. } => {
            let c = s.plan_count->0;
            assert(s.plans.contains_key(plan_id));
            lemma_locked_total_update(s.plans, c as nat, plan_id, s2.plans[plan_id]);
        },
    }
}

/// Reading back a created plan: on a well-formed vault a successful
/// `create_plan` returns the next id (the old count plus one), stores under it
/// exactly the new locked plan, leaves every other plan as it was, and the
/// plan list becomes the old list followed by the new plan.
pub proof fn lemma_create_plan_then_read<A>(
    s: StorageView<A>,
    now: u64,
    name: Seq<char>,
    amount: i128,
    plan_type: PlanType,
    unlock_date: u64,
)
    requires
        vault_wf(s),
        spec_create_plan(s, now, name, amount, plan_type, unlock_date).1 is Ok,
    ensures
        ({
            let (s2, r) = spec_create_plan(s, now, name, amount, plan_type, unlock_date);
            let id = r->Ok_0.0;
            let plan = PlanView {
                id,
                name,
                amount,
                plan_type,
                status: PlanStatus::Locked,
                unlock_date: if plan_type == PlanType::Emergency {
                    0
                } else {
                    unlock_date
                },
                created_at: now,
            };
            &&& id == s.plan_count->0 + 1
            &&& s2.plans.contains_key(id) && s2.plans[id] == plan
            &&& forall|other: u32| other != id ==> #[trigger] s2.plans.get(other) == s.plans.get(other)
            &&& spec_list_plans(s2) == Ok::<Seq<PlanView>, ContractError>(
                spec_list_plans(s)->Ok_0.push(plan),
            )
        }),
{
    let s2 = spec_create_plan(s, now, name, amount, plan_type, unlock_date).0;
    let c = s.plan_count->0;
    lemma_agree_upto(s2.plans, s.plans, c as nat);
    assert(((c + 1) as nat) as u32 == (c + 1) as u32);
}

/// The two-step early withdrawal: on a well-formed, set-up vault, a locked
/// plan whose withdrawal is requested at `t1` can be confirmed at any `t2` no
/// earlier (the delay is 0), which marks it `EarlyWithdrawn`, forgets the
/// request and pays its amount out to the owner; without a request,
/// confirming fails with `EarlyWithdrawNotRequested`.
pub proof fn lemma_early_withdraw_flow<A>(s: StorageView<A>, t1: u64, t2: u64, plan_id: u32)
    requires
        vault_wf(s),
        s.initialized,
        locked_at(s.plans, plan_id),
        t1 <= t2,
    ensures
        !s.requests.contains_key(plan_id) ==> spec_confirm_early_withdraw(s, t2, plan_id).1
            == Err::<Effects, ContractError>(ContractError::EarlyWithdrawNotRequested),
        ({
            let (s1, r1) = spec_request_early_withdraw(s, t1, plan_id);
            let (s2, r2) = spec_confirm_early_withdraw(s1, t2, plan_id);
            &&& r1 is Ok
            &&& r2 == Ok::<Effects, ContractError>(
                Effects {
                    transfer: Some(
                        Transfer {
                            from: Party::Vault,
                            to: Party::Owner,
                            amount: s.plans[plan_id].amount,
                        },
                    ),
                    event: VaultEvent::EarlyWithdrawCompleted {
                        plan_id,
                        amount: s.plans[plan_id].amount,
                    },
                },
            )
            &&& s2.plans[plan_id].status == PlanStatus::EarlyWithdrawn
            &&& !s2.requests.contains_key(plan_id)
        }),
{
}

/// On a well-formed vault whose plans are stored under the ids 1 to `n`, the
/// listing up to `n` has one entry per id, the plan stored under it.
proof fn lemma_listing_is_dense(plans: Map<u32, PlanView>, n: nat)
    requires
        n <= u32::MAX,
        forall|id: u32| 1 <= id <= n ==> #[trigger] plans.contains_key(id),
    ensures
        plans_upto(plans, n).len() == n,
        forall|i: int| 0 <= i < n ==> #[trigger] plans_upto(plans, n)[i] == plans[(i + 1) as u32],
    decreases n,
{
    if n > 0 {
        lemma_listing_is_dense(plans, (n - 1) as nat);
        let id = n as u32;
        assert(plans.contains_key(id));
        assert forall|i: int| 0 <= i < n implies #[trigger] plans_upto(plans, n)[i] == plans[(i
            + 1) as u32] by {
            if i < n - 1 {
                assert(plans_upto(plans, n)[i] == plans_upto(plans, (n - 1) as nat)[i]);
            }
        }
    }
}

/// Listing a set-up, well-formed vault gives every stored plan, whatever its
/// status, in id order: as many entries as the plan count, entry `i` being the
/// plan with id `i + 1`.
pub proof fn lemma_list_plans_lists_every_plan<A>(s: StorageView<A>)
    requires
        vault_wf(s),
        s.initialized,
    ensures
        spec_list_plans(s) is Ok,
        spec_list_plans(s)->Ok_0.len() == s.plan_count->0,
        forall|i: int|
            0 <= i < s.plan_count->0 ==> {
                &&& s.plans.contains_key((i + 1) as u32)
                &&& #[trigger] spec_list_plans(s)->Ok_0[i] == s.plans[(i + 1) as u32]
                &&& spec_list_plans(s)->Ok_0[i].id == i + 1
            },
{
    let c = s.plan_count->0;
    assert forall|id: u32| 1 <= id <= c as nat implies #[trigger] s.plans.contains_key(id) by {}
    lemma_listing_is_dense(s.plans, c as nat);
    let l = spec_list_plans(s)->Ok_0;
    assert forall|i: int| 0 <= i < c implies {
        &&& s.plans.contains_key((i + 1) as u32)
        &&& #[trigger] l[i] == s.plans[(i + 1) as u32]
        &&& l[i].id == i + 1
    } by {
        let id = (i + 1) as u32;
        assert(1 <= id <= c);
    }
}

/// Settling a plan does not take it off the list: after a successful release
/// or early withdrawal the list keeps its length, and the plan is listed at its
/// place with its new status.
pub proof fn lemma_settled_plans_stay_listed<A>(s: StorageView<A>, op: VaultOp<A>, plan_id: u32)
    requires
        vault_wf(s),
        s.initialized,
        (op matches VaultOp::ReleasePlan { plan_id: p, .. } && p == plan_id) || (op matches VaultOp::ConfirmEarlyWithdraw {
            plan_id: p,
            ..
        } && p == plan_id),
        spec_step(s, op).1 is Ok,
    ensures
        ({
            let s2 = spec_step(s, op).0;
            &&& spec_list_plans(s2)->Ok_0.len() == spec_list_plans(s)->Ok_0.len()
            &&& spec_list_plans(s2)->Ok_0[plan_id - 1].id == plan_id
            &&& spec_list_plans(s2)->Ok_0[plan_id - 1].status == (if op is ReleasePlan {
                PlanStatus::Released
            } else {
                PlanStatus::EarlyWithdrawn
            })
        }),
{
    let s2 = spec_step(s, op).0;
    lemma_step_keeps_wf(s, op);
    lemma_list_plans_lists_every_plan(s);
    lemma_list_plans_lists_every_plan(s2);
    assert(s.plans.contains_key(plan_id));
    assert(spec_list_plans(s2)->Ok_0[plan_id - 1] == s2.plans[((plan_id - 1) + 1) as u32]);
}

/// Setting up a vault that is not yet set up always succeeds and stores the
/// owner, the token and a plan count of 0, leaving plans and requests alone.
pub proof fn lemma_constructor_sets_up<A>(s: StorageView<A>, owner: A, token: A)
    requires
        !s.initialized,
    ensures
        spec_constructor(s, owner, token).1 == Ok::<Effects, ContractError>(
            Effects { transfer: None, event: VaultEvent::VaultInitialized },
        ),
        spec_constructor(s, owner, token).0.initialized,
        spec_constructor(s, owner, token).0.owner == Some(owner),
        spec_constructor(s, owner, token).0.token == Some(token),
        spec_constructor(s, owner, token).0.plan_count == Some(0u32),
        spec_constructor(s, owner, token).0.plans == s.plans,
        spec_constructor(s, owner, token).0.requests == s.requests,
{
}

/// Plan creation on a well-formed vault. Before set-up it fails with
/// `NotInitialized`. Once set up, it succeeds exactly when the amount is
/// positive, a Bill's unlock date is after `now` and ids are not exhausted; a
/// non-positive amount gives `InvalidAmount`, a Bill without a date
/// `InvalidUnlockDate`, a Bill dated at or before `now` `UnlockDateInPast`,
/// exhausted ids `Overflow`. On success the new plan, under the next id, is
/// locked with the given name, amount, type and creation time, keeps its
/// unlock date unless it is an Emergency plan (stored with 0); nothing else in
/// storage changes but the count; the owner pays the amount in and the
/// protected amount grows by it.
pub proof fn lemma_create_plan_outcome<A>(
    s: StorageView<A>,
    now: u64,
    name: Seq<char>,
    amount: i128,
    plan_type: PlanType,
    unlock_date: u64,
)
    requires
        vault_wf(s),
    ensures
        ({
            let (s2, r) = spec_create_plan(s, now, name, amount, plan_type, unlock_date);
            &&& !s.initialized ==> s2 == s && r == Err::<(u32, Effects), ContractError>(
                ContractError::NotInitialized,
            )
            &&& s.initialized ==> (r is Ok <==> (amount > 0 && (plan_type != PlanType::Bill
                || unlock_date > now) && s.plan_count->0 < u32::MAX))
            &&& s.initialized && amount <= 0 ==> r == Err::<(u32, Effects), ContractError>(
                ContractError::InvalidAmount,
            )
            &&& s.initialized && amount > 0 && plan_type == PlanType::Bill && unlock_date == 0
                ==> r == Err::<(u32, Effects), ContractError>(ContractError::InvalidUnlockDate)
            &&& s.initialized && amount > 0 && plan_type == PlanType::Bill && 0 < unlock_date
                <= now ==> r == Err::<(u32, Effects), ContractError>(
                ContractError::UnlockDateInPast,
            )
            &&& s.initialized && amount > 0 && (plan_type != PlanType::Bill || unlock_date > now)
                && s.plan_count->0 == u32::MAX ==> r == Err::<(u32, Effects), ContractError>(
                ContractError::Overflow,
            )
            &&& r is Err ==> s2 == s
            &&& r is Ok ==> {
                let id = r->Ok_0.0;
                let plan = PlanView {
                    id,
                    name,
                    amount,
                    plan_type,
                    status: PlanStatus::Locked,
                    unlock_date: if plan_type == PlanType::Emergency {
                        0
                    } else {
                        unlock_date
                    },
                    created_at: now,
                };
                &&& id == s.plan_count->0 + 1
                &&& s2.plans == s.plans.insert(id, plan)
                &&& s2.plan_count == Some(id)
                &&& s2.requests == s.requests
                &&& s2.owner == s.owner && s2.token == s.token && s2.initialized
                &&& r->Ok_0.1 == Effects {
                    transfer: Some(Transfer { from: Party::Owner, to: Party::Vault, amount }),
                    event: VaultEvent::PlanCreated { plan_id: id, amount, unlock_date: plan.unlock_date },
                }
                &&& protected_amount(s2) == protected_amount(s) + amount
            }
        }),
{
    let op = VaultOp::CreatePlan { now, name, amount, plan_type, unlock_date };
    if spec_create_plan(s, now, name, amount, plan_type, unlock_date).1 is Ok {
        lemma_step_accounts_for_funds(s, op);
    }
}

/// Releasing on a set-up, well-formed vault succeeds exactly for a stored,
/// locked plan that is not an Emergency plan, has a non-zero unlock date and
/// whose unlock date is at or before `now`. Otherwise: a missing plan gives
/// `PlanNotFound`, a settled one `PlanNotLocked`, an Emergency plan
/// `PlanNotBill`, and a plan whose time has not come `NotYetUnlocked`. On
/// success only that plan changes, to `Released`; its amount is paid out to
/// the owner and the protected amount shrinks by it.
pub proof fn lemma_release_plan_outcome<A>(s: StorageView<A>, now: u64, plan_id: u32)
    requires
        vault_wf(s),
        s.initialized,
    ensures
        ({
            let (s2, r) = spec_release_plan(s, now, plan_id);
            let p = s.plans[plan_id];
            &&& r is Ok <==> (s.plans.contains_key(plan_id) && p.status == PlanStatus::Locked
                && p.plan_type != PlanType::Emergency && p.unlock_date != 0 && p.unlock_date
                <= now)
            &&& !s.plans.contains_key(plan_id) ==> r == Err::<Effects, ContractError>(
                ContractError::PlanNotFound,
            )
            &&& s.plans.contains_key(plan_id) && p.status != PlanStatus::Locked ==> r == Err::<
                Effects,
                ContractError,
            >(ContractError::PlanNotLocked)
            &&& s.plans.contains_key(plan_id) && p.status == PlanStatus::Locked && p.plan_type
                == PlanType::Emergency ==> r == Err::<Effects, ContractError>(
                ContractError::PlanNotBill,
            )
            &&& s.plans.contains_key(plan_id) && p.status == PlanStatus::Locked && p.plan_type
                != PlanType::Emergency && (p.unlock_date == 0 || now < p.unlock_date) ==> r
                == Err::<Effects, ContractError>(ContractError::NotYetUnlocked)
            &&& r is Err ==> s2 == s
            &&& r is Ok ==> {
                &&& s2.plans == s.plans.insert(plan_id, PlanView { status: PlanStatus::Released, ..p })
                &&& s2.requests == s.requests && s2.plan_count == s.plan_count
                &&& s2.owner == s.owner && s2.token == s.token && s2.initialized
                &&& r->Ok_0 == Effects {
                    transfer: Some(Transfer { from: Party::Vault, to: Party::Owner, amount: p.amount }),
                    event: VaultEvent::PlanReleased { plan_id, amount: p.amount },
                }
                &&& protected_amount(s2) == protected_amount(s) - p.amount
            }
        }),
{
    if spec_release_plan(s, now, plan_id).1 is Ok {
        lemma_step_accounts_for_funds(s, VaultOp::ReleasePlan { now, plan_id });
    }
}

/// Release only gets easier with time: a release that succeeds at `now`
/// would also succeed at any later time, with the same effects.
pub proof fn lemma_release_is_monotone_in_time<A>(s: StorageView<A>, now: u64, later: u64, plan_id: u32)
    requires
        now <= later,
        spec_release_plan(s, now, plan_id).1 is Ok,
    ensures
        spec_release_plan(s, later, plan_id) == spec_release_plan(s, now, plan_id),
{
}

/// Requesting an early withdrawal on a set-up vault succeeds exactly for a
/// stored plan that is still locked; a missing plan gives `PlanNotFound`, a
/// settled one (released or withdrawn) `PlanNotLocked`, and neither changes
/// anything. On success only the request of that plan changes, to `now`; no
/// funds move.
pub proof fn lemma_request_early_withdraw_outcome<A>(s: StorageView<A>, now: u64, plan_id: u32)
    requires
        s.owner is Some,
    ensures
        ({
            let (s2, r) = spec_request_early_withdraw(s, now, plan_id);
            &&& r is Ok <==> (s.plans.contains_key(plan_id) && s.plans[plan_id].status
                == PlanStatus::Locked)
            &&& !s.plans.contains_key(plan_id) ==> (s2, r) == (s, Err::<Effects, ContractError>(
                ContractError::PlanNotFound,
            ))
            &&& s.plans.contains_key(plan_id) && s.plans[plan_id].status != PlanStatus::Locked
                ==> (s2, r) == (s, Err::<Effects, ContractError>(ContractError::PlanNotLocked))
            &&& r is Ok ==> {
                &&& s2.requests == s.requests.insert(plan_id, now)
                &&& s2.plans == s.plans && s2.plan_count == s.plan_count
                &&& s2.owner == s.owner && s2.token == s.token && s2.initialized == s.initialized
                &&& r->Ok_0 == Effects {
                    transfer: None,
                    event: VaultEvent::EarlyWithdrawRequested { plan_id },
                }
            }
        }),
{
}

/// Confirming an early withdrawal on a set-up, well-formed vault succeeds
/// exactly for a stored, locked plan with a request recorded at or before
/// `now`; otherwise a missing plan gives `PlanNotFound`, a settled one
/// `PlanNotLocked`, a locked one without request `EarlyWithdrawNotRequested`,
/// one requested after `now` `EarlyWithdrawDelayNotMet`. On success the plan
/// becomes `EarlyWithdrawn`, its request (and no other) is forgotten, its
/// amount is paid out to the owner and the protected amount shrinks by it.
pub proof fn lemma_confirm_early_withdraw_outcome<A>(s: StorageView<A>, now: u64, plan_id: u32)
    requires
        vault_wf(s),
        s.initialized,
    ensures
        ({
            let (s2, r) = spec_confirm_early_withdraw(s, now, plan_id);
            let p = s.plans[plan_id];
            &&& r is Ok <==> (s.plans.contains_key(plan_id) && p.status == PlanStatus::Locked
                && s.requests.contains_key(plan_id) && s.requests[plan_id] <= now)
            &&& !s.plans.contains_key(plan_id) ==> r == Err::<Effects, ContractError>(
                ContractError::PlanNotFound,
            )
            &&& s.plans.contains_key(plan_id) && p.status != PlanStatus::Locked ==> r == Err::<
                Effects,
                ContractError,
            >(ContractError::PlanNotLocked)
            &&& s.plans.contains_key(plan_id) && p.status == PlanStatus::Locked
                && !s.requests.contains_key(plan_id) ==> r == Err::<Effects, ContractError>(
                ContractError::EarlyWithdrawNotRequested,
            )
            &&& s.plans.contains_key(plan_id) && p.status == PlanStatus::Locked
                && s.requests.contains_key(plan_id) && now < s.requests[plan_id] ==> r == Err::<
                Effects,
                ContractError,
            >(ContractError::EarlyWithdrawDelayNotMet)
            &&& r is Err ==> s2 == s
            &&& r is Ok ==> {
                &&& s2.plans == s.plans.insert(
                    plan_id,
                    PlanView { status: PlanStatus::EarlyWithdrawn, ..p },
                )
                &&& s2.requests == s.requests.remove(plan_id)
                &&& s2.plan_count == s.plan_count
                &&& s2.owner == s.owner && s2.token == s.token && s2.initialized
                &&& r->Ok_0 == Effects {
                    transfer: Some(Transfer { from: Party::Vault, to: Party::Owner, amount: p.amount }),
                    event: VaultEvent::EarlyWithdrawCompleted { plan_id, amount: p.amount },
                }
                &&& protected_amount(s2) == protected_amount(s) - p.amount
            }
        }),
{
    if spec_confirm_early_withdraw(s, now, plan_id).1 is Ok {
        lemma_step_accounts_for_funds(s, VaultOp::ConfirmEarlyWithdraw { now, plan_id });
    }
}

/// The early-withdraw request of a plan is touched only by a request or a
/// confirmation for that very plan: any other operation, on any storage,
/// leaves it exactly as it was.
pub proof fn lemma_other_requests_survive<A>(s: StorageView<A>, op: VaultOp<A>, b: u32)
    requires
        !(op matches VaultOp::RequestEarlyWithdraw { plan_id, .. } && plan_id == b),
        !(op matches VaultOp::ConfirmEarlyWithdraw { plan_id, .. } && plan_id == b),
    ensures
        spec_step(s, op).0.requests.contains_key(b) == s.requests.contains_key(b),
        s.requests.contains_key(b) ==> spec_step(s, op).0.requests[b] == s.requests[b],
{
}

/// Before set-up a well-formed vault has no plan list: listing fails with
/// `NotInitialized`.
pub proof fn lemma_list_plans_before_setup<A>(s: StorageView<A>)
    requires
        vault_wf(s),
        !s.initialized,
    ensures
        spec_list_plans(s) == Err::<Seq<PlanView>, ContractError>(ContractError::NotInitialized),
{
}

/// The error codes are 1 to 14 in the documented order, one per error.
pub proof fn lemma_error_codes()
    ensures
        error_code(ContractError::AlreadyInitialized) == 1,
        error_code(ContractError::NotInitialized) == 2,
        error_code(ContractError::Unauthorized) == 3,
        error_code(ContractError::InvalidAmount) == 4,
        error_code(ContractError::InvalidUnlockDate) == 5,
        error_code(ContractError::UnlockDateInPast) == 6,
        error_code(ContractError::PlanNotFound) == 7,
        error_code(ContractError::PlanNotLocked) == 8,
        error_code(ContractError::PlanNotBill) == 9,
        error_code(ContractError::NotYetUnlocked) == 10,
        error_code(ContractError::InsufficientBalance) == 11,
        error_code(ContractError::EarlyWithdrawDelayNotMet) == 12,
        error_code(ContractError::EarlyWithdrawNotRequested) == 13,
        error_code(ContractError::Overflow) == 14,
        forall|a: ContractError, b: ContractError| error_code(a) == error_code(b) ==> a == b,
{
}

/// Plan types and statuses survive a round trip through their numbers, which
/// are 0, 1 and 2 in declaration order; a number out of range reads as the
/// first variant.
pub proof fn lemma_plan_numbers_round_trip()
    ensures
        forall|t: PlanType| #[trigger] plan_type_from_u32(plan_type_to_u32(t)) == t,
        forall|st: PlanStatus| #[trigger] plan_status_from_u32(plan_status_to_u32(st)) == st,
        plan_type_to_u32(PlanType::Bill) == 0,
        plan_type_to_u32(PlanType::Emergency) == 1,
        plan_type_to_u32(PlanType::Savings) == 2,
        plan_status_to_u32(PlanStatus::Locked) == 0,
        plan_status_to_u32(PlanStatus::Released) == 1,
        plan_status_to_u32(PlanStatus::EarlyWithdrawn) == 2,
        forall|v: u32| v > 2 ==> #[trigger] plan_type_from_u32(v) == PlanType::Bill,
        forall|v: u32| v > 2 ==> #[trigger] plan_status_from_u32(v) == PlanStatus::Locked,
{
}

} // verus!
