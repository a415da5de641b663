use plan_vault::{ContractError, Effects, Party, PlanStatus, PlanType, PlanVaultContract, Storage};

/// Token balances of the owner and of the vault, moved by the operations' effects.
struct Balances {
    owner: i128,
    vault: i128,
}

impl Balances {
    fn apply(&mut self, effects: &Effects) {
        if let Some(t) = effects.transfer {
            match (t.from, t.to) {
                (Party::Owner, Party::Vault) => {
                    assert!(self.owner >= t.amount, "insufficient balance");
                    self.owner -= t.amount;
                    self.vault += t.amount;
                }
                (Party::Vault, Party::Owner) => {
                    assert!(self.vault >= t.amount, "insufficient balance");
                    self.vault -= t.amount;
                    self.owner += t.amount;
                }
                _ => {}
            }
        }
    }
}

/// A deployed vault owned by "owner", holding the "usdc" token, at ledger time 0.
fn create_vault() -> Storage<&'static str> {
    let mut store = Storage::new();
    PlanVaultContract::__constructor(&mut store, "owner", "usdc").unwrap();
    store
}

fn create(
    store: &mut Storage<&'static str>,
    bal: &mut Balances,
    now: u64,
    name: &str,
    amount: i128,
    plan_type: PlanType,
    unlock_date: u64,
) -> Result<u32, ContractError> {
    let (id, effects) =
        PlanVaultContract::create_plan(store, now, name.to_string(), amount, plan_type, unlock_date)?;
    bal.apply(&effects);
    Ok(id)
}

#[test]
fn init_and_create_bill_plan_locks_funds() {
    let mut store = create_vault();
    let mut bal = Balances { owner: 1_000_000, vault: 0 };
    let now = 0u64;

    let id = create(&mut store, &mut bal, now, "House Rent", 900_000, PlanType::Bill, now + 86_400).unwrap();
    assert_eq!(id, 1);

    let plan = PlanVaultContract::get_plan(&store, 1).unwrap();
    assert_eq!(plan.amount, 900_000);
    assert_eq!(plan.status, PlanStatus::Locked);
    assert_eq!(plan.plan_type, PlanType::Bill);
    assert_eq!(plan.name, "House Rent".to_string());

    // Funds are inside the contract, off the owner's balance.
    assert_eq!(bal.vault, 900_000);
    assert_eq!(bal.owner, 100_000);
    assert_eq!(PlanVaultContract::get_protected_total(&store), Ok(900_000));
}

#[test]
fn release_before_unlock_date_fails() {
    let mut store = create_vault();
    let mut bal = Balances { owner: 500_000, vault: 0 };
    let now = 0u64;
    let id = create(&mut store, &mut bal, now, "Rent", 500_000, PlanType::Bill, now + 1000).unwrap();
    let res = PlanVaultContract::release_plan(&mut store, now, id);
    assert_eq!(res.err(), Some(ContractError::NotYetUnlocked));
}

#[test]
fn release_after_unlock_date_sends_funds_back() {
    let mut store = create_vault();
    let mut bal = Balances { owner: 1_000_000, vault: 0 };
    let now = 0u64;

    let unlock = now + 1000;
    let id = create(&mut store, &mut bal, now, "Rent", 500_000, PlanType::Bill, unlock).unwrap();

    let now = unlock + 1;
    let effects = PlanVaultContract::release_plan(&mut store, now, id).unwrap();
    bal.apply(&effects);

    let plan = PlanVaultContract::get_plan(&store, id).unwrap();
    assert_eq!(plan.status, PlanStatus::Released);

    assert_eq!(bal.vault, 0);
    assert_eq!(bal.owner, 1_000_000);
    assert_eq!(PlanVaultContract::get_protected_total(&store), Ok(0));
}

#[test]
fn release_before_time_even_without_auth_rejected() {
    let mut store = create_vault();
    let mut bal = Balances { owner: 100_000, vault: 0 };
    let now = 0u64;

    let id = create(&mut store, &mut bal, now, "Rent", 50_000, PlanType::Bill, now + 1000).unwrap();

    // Releasing asks for no signature; a stranger's call still fails because
    // the time hasn't been reached (and funds could only go to the owner).
    let res = PlanVaultContract::release_plan(&mut store, now, id);
    assert_eq!(res.err(), Some(ContractError::NotYetUnlocked));
}

#[test]
fn emergency_plan_cannot_auto_release_but_can_early_withdraw() {
    let mut store = create_vault();
    let mut bal = Balances { owner: 300_000, vault: 0 };
    let mut now = 0u64;

    let id = create(&mut store, &mut bal, now, "Emergency", 300_000, PlanType::Emergency, 0).unwrap();
    let plan = PlanVaultContract::get_plan(&store, id).unwrap();
    assert_eq!(plan.plan_type, PlanType::Emergency);
    assert_eq!(plan.unlock_date, 0);

    // Time passes — still not auto-releasable.
    now += 99_999_999;
    let res = PlanVaultContract::release_plan(&mut store, now, id);
    assert_eq!(res.err(), Some(ContractError::PlanNotBill));

    // Two-step early withdrawal works.
    let e1 = PlanVaultContract::request_early_withdraw(&mut store, now, id).unwrap();
    bal.apply(&e1);
    let e2 = PlanVaultContract::confirm_early_withdraw(&mut store, now, id).unwrap();
    bal.apply(&e2);

    let plan = PlanVaultContract::get_plan(&store, id).unwrap();
    assert_eq!(plan.status, PlanStatus::EarlyWithdrawn);
    assert_eq!(bal.vault, 0);
    assert_eq!(bal.owner, 300_000);
}

#[test]
fn confirm_without_request_fails() {
    let mut store = create_vault();
    let mut bal = Balances { owner: 100_000, vault: 0 };
    let now = 0u64;

    let id = create(&mut store, &mut bal, now, "Rent", 50_000, PlanType::Bill, now + 86_400).unwrap();
    let res = PlanVaultContract::confirm_early_withdraw(&mut store, now, id);
    assert_eq!(res.err(), Some(ContractError::EarlyWithdrawNotRequested));
}

#[test]
fn double_release_is_rejected() {
    let mut store = create_vault();
    let mut bal = Balances { owner: 100_000, vault: 0 };
    let now = 0u64;

    let unlock_at = now + 1000;
    let id = create(&mut store, &mut bal, now, "Rent", 40_000, PlanType::Bill, unlock_at).unwrap();
    let now = unlock_at + 1;

    let effects = PlanVaultContract::release_plan(&mut store, now, id).unwrap();
    bal.apply(&effects);
    let res = PlanVaultContract::release_plan(&mut store, now, id);
    assert_eq!(res.err(), Some(ContractError::PlanNotLocked));
}

#[test]
fn init_can_only_be_called_once() {
    let mut store = create_vault();
    // Run the constructor again on the already-deployed vault.
    let err = PlanVaultContract::__constructor(&mut store, "owner", "usdc");
    assert!(err.is_err());
}

#[test]
fn creating_a_bill_plan_with_zero_or_past_unlock_date_fails() {
    let mut store = create_vault();
    let mut bal = Balances { owner: 100_000, vault: 0 };
    let mut now = 0u64;

    let r1 = create(&mut store, &mut bal, now, "Rent", 10_000, PlanType::Bill, 0);
    assert_eq!(r1.err(), Some(ContractError::InvalidUnlockDate));

    // Ensure ledger timestamp is non-zero before subtracting.
    now = 1_000;
    let r2 = create(&mut store, &mut bal, now, "Rent", 10_000, PlanType::Bill, now - 1);
    assert_eq!(r2.err(), Some(ContractError::UnlockDateInPast));

    let r3 = create(&mut store, &mut bal, now, "Rent", 0, PlanType::Bill, now + 100);
    assert_eq!(r3.err(), Some(ContractError::InvalidAmount));
}

#[test]
fn list_plans_and_protected_total() {
    let mut store = create_vault();
    let mut bal = Balances { owner: 1_000_000, vault: 0 };
    let now = 0u64;

    create(&mut store, &mut bal, now, "Rent", 900_000, PlanType::Bill, now + 86_400).unwrap();
    create(&mut store, &mut bal, now, "Emergency", 50_000, PlanType::Emergency, 0).unwrap();

    let plans = PlanVaultContract::list_plans(&store).unwrap();
    assert_eq!(plans.len(), 2);
    assert_eq!(plans[0].name, "Rent".to_string());
    assert_eq!(PlanVaultContract::get_protected_total(&store), Ok(950_000));
}
