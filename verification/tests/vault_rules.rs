use plan_vault::storage::{
    get_early_withdraw_delay, get_early_withdraw_request, get_owner, get_plan, get_plan_count,
    get_token, is_initialized, put_plan, remove_early_withdraw_request, set_early_withdraw_request,
    set_initialized, set_owner, set_plan_count, set_token,
};
use plan_vault::types::{DAY_IN_LEDGERS, INSTANCE_BUMP_AMOUNT};
use plan_vault::{
    ContractError, DataKey, Effects, Party, Plan, PlanStatus, PlanType, PlanVaultContract, Storage,
    Transfer, VaultEvent, VaultInitData,
};

fn vault() -> Storage<u64> {
    let mut store = Storage::new();
    PlanVaultContract::__constructor(&mut store, 1, 2).unwrap();
    store
}

fn names(store: &Storage<u64>) -> Vec<(u32, String, PlanStatus)> {
    PlanVaultContract::list_plans(store)
        .unwrap()
        .into_iter()
        .map(|p| (p.id, p.name, p.status))
        .collect()
}

#[test]
fn error_codes_run_from_one_to_fourteen() {
    let all = [
        ContractError::AlreadyInitialized,
        ContractError::NotInitialized,
        ContractError::Unauthorized,
        ContractError::InvalidAmount,
        ContractError::InvalidUnlockDate,
        ContractError::UnlockDateInPast,
        ContractError::PlanNotFound,
        ContractError::PlanNotLocked,
        ContractError::PlanNotBill,
        ContractError::NotYetUnlocked,
        ContractError::InsufficientBalance,
        ContractError::EarlyWithdrawDelayNotMet,
        ContractError::EarlyWithdrawNotRequested,
        ContractError::Overflow,
    ];
    for (i, e) in all.iter().enumerate() {
        assert_eq!(e.code(), i as u32 + 1);
    }
}

#[test]
fn plan_type_and_status_convert_from_and_to_u32() {
    assert_eq!(PlanType::from(0u32), PlanType::Bill);
    assert_eq!(PlanType::from(1u32), PlanType::Emergency);
    assert_eq!(PlanType::from(2u32), PlanType::Savings);
    assert_eq!(PlanType::from(7u32), PlanType::Bill);
    assert_eq!(u32::from(PlanType::Bill), 0);
    assert_eq!(u32::from(PlanType::Emergency), 1);
    assert_eq!(u32::from(PlanType::Savings), 2);
    assert_eq!(PlanStatus::from(0u32), PlanStatus::Locked);
    assert_eq!(PlanStatus::from(1u32), PlanStatus::Released);
    assert_eq!(PlanStatus::from(2u32), PlanStatus::EarlyWithdrawn);
    assert_eq!(PlanStatus::from(99u32), PlanStatus::Locked);
    assert_eq!(u32::from(PlanStatus::Locked), 0);
    assert_eq!(u32::from(PlanStatus::Released), 1);
    assert_eq!(u32::from(PlanStatus::EarlyWithdrawn), 2);
}

#[test]
fn storage_lifetime_constants() {
    assert_eq!(DAY_IN_LEDGERS, 17_280);
    assert_eq!(INSTANCE_BUMP_AMOUNT, 518_400);
    assert_eq!(get_early_withdraw_delay(), 0);
}

#[test]
fn version_is_v1_0_0() {
    assert_eq!(PlanVaultContract::version(), "v1_0_0");
}

#[test]
fn constructor_records_owner_token_and_empty_count() {
    let mut store: Storage<u64> = Storage::new();
    assert!(!is_initialized(&store));
    let effects = PlanVaultContract::__constructor(&mut store, 10, 20).unwrap();
    assert_eq!(effects, Effects { transfer: None, event: VaultEvent::VaultInitialized });
    assert!(is_initialized(&store));
    assert_eq!(get_owner(&store), Ok(&10));
    assert_eq!(get_token(&store), Ok(&20));
    assert_eq!(get_plan_count(&store), Ok(0));
    assert_eq!(
        PlanVaultContract::__constructor(&mut store, 30, 40),
        Err(ContractError::AlreadyInitialized)
    );
    assert_eq!(get_owner(&store), Ok(&10));
    assert_eq!(get_token(&store), Ok(&20));
}

#[test]
fn operations_before_setup_fail() {
    let mut store: Storage<u64> = Storage::new();
    assert_eq!(
        PlanVaultContract::create_plan(&mut store, 0, "x".to_string(), 5, PlanType::Bill, 10),
        Err(ContractError::NotInitialized)
    );
    assert_eq!(PlanVaultContract::release_plan(&mut store, 0, 1), Err(ContractError::PlanNotFound));
    assert_eq!(
        PlanVaultContract::request_early_withdraw(&mut store, 0, 1),
        Err(ContractError::NotInitialized)
    );
    assert_eq!(
        PlanVaultContract::confirm_early_withdraw(&mut store, 0, 1),
        Err(ContractError::NotInitialized)
    );
    assert_eq!(PlanVaultContract::list_plans(&store).err(), Some(ContractError::NotInitialized));
    assert_eq!(PlanVaultContract::get_protected_total(&store), Err(ContractError::NotInitialized));
}

#[test]
fn missing_plans_are_not_found() {
    let mut store = vault();
    assert_eq!(PlanVaultContract::get_plan(&store, 5).err(), Some(ContractError::PlanNotFound));
    assert_eq!(PlanVaultContract::release_plan(&mut store, 0, 5), Err(ContractError::PlanNotFound));
    assert_eq!(
        PlanVaultContract::request_early_withdraw(&mut store, 0, 5),
        Err(ContractError::PlanNotFound)
    );
    assert_eq!(
        PlanVaultContract::confirm_early_withdraw(&mut store, 0, 5),
        Err(ContractError::PlanNotFound)
    );
}

#[test]
fn plan_ids_are_sequential_and_listed_in_order() {
    let mut store = vault();
    for (i, n) in ["a", "b", "c"].iter().enumerate() {
        let (id, _) =
            PlanVaultContract::create_plan(&mut store, 5, n.to_string(), 10, PlanType::Emergency, 0)
                .unwrap();
        assert_eq!(id, i as u32 + 1);
    }
    assert_eq!(get_plan_count(&store), Ok(3));
    assert_eq!(
        names(&store),
        vec![
            (1, "a".to_string(), PlanStatus::Locked),
            (2, "b".to_string(), PlanStatus::Locked),
            (3, "c".to_string(), PlanStatus::Locked)
        ]
    );
}

#[test]
fn create_plan_effects_and_stored_plan() {
    let mut store = vault();
    let (id, effects) =
        PlanVaultContract::create_plan(&mut store, 100, "Power".to_string(), 250, PlanType::Bill, 200)
            .unwrap();
    assert_eq!(id, 1);
    assert_eq!(
        effects,
        Effects {
            transfer: Some(Transfer { from: Party::Owner, to: Party::Vault, amount: 250 }),
            event: VaultEvent::PlanCreated { plan_id: 1, amount: 250, unlock_date: 200 },
        }
    );
    let plan = PlanVaultContract::get_plan(&store, 1).unwrap();
    assert_eq!(
        plan,
        Plan {
            id: 1,
            name: "Power".to_string(),
            amount: 250,
            plan_type: PlanType::Bill,
            status: PlanStatus::Locked,
            unlock_date: 200,
            created_at: 100,
        }
    );
}

#[test]
fn emergency_plans_are_stored_always_locked() {
    let mut store = vault();
    let (_, effects) = PlanVaultContract::create_plan(
        &mut store,
        100,
        "Rainy day".to_string(),
        70,
        PlanType::Emergency,
        5_000,
    )
    .unwrap();
    assert_eq!(effects.event, VaultEvent::PlanCreated { plan_id: 1, amount: 70, unlock_date: 0 });
    assert_eq!(PlanVaultContract::get_plan(&store, 1).unwrap().unlock_date, 0);
    assert_eq!(
        PlanVaultContract::release_plan(&mut store, 10_000, 1),
        Err(ContractError::PlanNotBill)
    );
}

#[test]
fn savings_plans_release_like_bills() {
    let mut store = vault();
    // A savings date need not be in the future; it is kept as given.
    PlanVaultContract::create_plan(&mut store, 1_000, "Car".to_string(), 80, PlanType::Savings, 500)
        .unwrap();
    assert_eq!(PlanVaultContract::get_plan(&store, 1).unwrap().unlock_date, 500);
    let effects = PlanVaultContract::release_plan(&mut store, 1_000, 1).unwrap();
    assert_eq!(
        effects,
        Effects {
            transfer: Some(Transfer { from: Party::Vault, to: Party::Owner, amount: 80 }),
            event: VaultEvent::PlanReleased { plan_id: 1, amount: 80 },
        }
    );
    // A savings plan without a date stays locked until broken early.
    PlanVaultContract::create_plan(&mut store, 1_000, "Trip".to_string(), 90, PlanType::Savings, 0)
        .unwrap();
    assert_eq!(
        PlanVaultContract::release_plan(&mut store, u64::MAX, 2),
        Err(ContractError::NotYetUnlocked)
    );
    PlanVaultContract::request_early_withdraw(&mut store, 2_000, 2).unwrap();
    PlanVaultContract::confirm_early_withdraw(&mut store, 2_000, 2).unwrap();
    assert_eq!(
        PlanVaultContract::get_plan(&store, 2).unwrap().status,
        PlanStatus::EarlyWithdrawn
    );
}

#[test]
fn bill_releases_exactly_at_unlock_date() {
    let mut store = vault();
    PlanVaultContract::create_plan(&mut store, 0, "Rent".to_string(), 10, PlanType::Bill, 500)
        .unwrap();
    assert_eq!(PlanVaultContract::release_plan(&mut store, 499, 1), Err(ContractError::NotYetUnlocked));
    assert!(PlanVaultContract::release_plan(&mut store, 500, 1).is_ok());
    assert_eq!(PlanVaultContract::get_plan(&store, 1).unwrap().status, PlanStatus::Released);
}

#[test]
fn settled_plans_cannot_be_withdrawn_or_requested() {
    let mut store = vault();
    PlanVaultContract::create_plan(&mut store, 0, "Rent".to_string(), 10, PlanType::Bill, 5)
        .unwrap();
    PlanVaultContract::release_plan(&mut store, 5, 1).unwrap();
    assert_eq!(
        PlanVaultContract::request_early_withdraw(&mut store, 6, 1),
        Err(ContractError::PlanNotLocked)
    );
    assert_eq!(
        PlanVaultContract::confirm_early_withdraw(&mut store, 6, 1),
        Err(ContractError::PlanNotLocked)
    );
    assert_eq!(PlanVaultContract::release_plan(&mut store, 6, 1), Err(ContractError::PlanNotLocked));
    assert_eq!(PlanVaultContract::get_plan(&store, 1).unwrap().status, PlanStatus::Released);
}

#[test]
fn early_withdraw_request_is_recorded_and_cleared() {
    let mut store = vault();
    PlanVaultContract::create_plan(&mut store, 0, "Fund".to_string(), 40, PlanType::Emergency, 0)
        .unwrap();
    let effects = PlanVaultContract::request_early_withdraw(&mut store, 7, 1).unwrap();
    assert_eq!(
        effects,
        Effects { transfer: None, event: VaultEvent::EarlyWithdrawRequested { plan_id: 1 } }
    );
    assert_eq!(get_early_withdraw_request(&store, 1), Some(7));
    // A second request restarts the countdown.
    PlanVaultContract::request_early_withdraw(&mut store, 9, 1).unwrap();
    assert_eq!(get_early_withdraw_request(&store, 1), Some(9));
    // Confirming before the request's time is too early.
    assert_eq!(
        PlanVaultContract::confirm_early_withdraw(&mut store, 8, 1),
        Err(ContractError::EarlyWithdrawDelayNotMet)
    );
    let effects = PlanVaultContract::confirm_early_withdraw(&mut store, 9, 1).unwrap();
    assert_eq!(
        effects,
        Effects {
            transfer: Some(Transfer { from: Party::Vault, to: Party::Owner, amount: 40 }),
            event: VaultEvent::EarlyWithdrawCompleted { plan_id: 1, amount: 40 },
        }
    );
    assert_eq!(get_early_withdraw_request(&store, 1), None);
}

#[test]
fn plan_id_overflow_is_reported_and_changes_nothing() {
    let mut store = vault();
    set_plan_count(&mut store, u32::MAX);
    assert_eq!(
        PlanVaultContract::create_plan(&mut store, 0, "x".to_string(), 1, PlanType::Emergency, 0),
        Err(ContractError::Overflow)
    );
    assert_eq!(get_plan_count(&store), Ok(u32::MAX));
    assert_eq!(get_plan(&store, 0).err(), Some(ContractError::PlanNotFound));
}

#[test]
fn protected_total_overflow_is_reported() {
    let mut store = vault();
    PlanVaultContract::create_plan(&mut store, 0, "a".to_string(), i128::MAX, PlanType::Emergency, 0)
        .unwrap();
    assert_eq!(PlanVaultContract::get_protected_total(&store), Ok(i128::MAX));
    PlanVaultContract::create_plan(&mut store, 0, "b".to_string(), 1, PlanType::Emergency, 0)
        .unwrap();
    assert_eq!(PlanVaultContract::get_protected_total(&store), Err(ContractError::Overflow));
}

#[test]
fn failed_operations_leave_storage_unchanged() {
    let mut store = vault();
    PlanVaultContract::create_plan(&mut store, 0, "a".to_string(), 5, PlanType::Bill, 10).unwrap();
    let before = names(&store);
    assert!(PlanVaultContract::create_plan(&mut store, 0, "b".to_string(), -1, PlanType::Bill, 10)
        .is_err());
    assert!(PlanVaultContract::release_plan(&mut store, 9, 1).is_err());
    assert!(PlanVaultContract::confirm_early_withdraw(&mut store, 9, 1).is_err());
    assert_eq!(names(&store), before);
    assert_eq!(get_plan_count(&store), Ok(1));
    assert_eq!(get_early_withdraw_request(&store, 1), None);
}

#[test]
fn protected_total_follows_the_transfers() {
    let mut store = vault();
    let mut held: i128 = 0;
    let mut follow = |e: Effects| {
        if let Some(t) = e.transfer {
            match (t.from, t.to) {
                (Party::Owner, Party::Vault) => held += t.amount,
                (Party::Vault, Party::Owner) => held -= t.amount,
                _ => {}
            }
        }
    };
    follow(PlanVaultContract::create_plan(&mut store, 0, "a".to_string(), 30, PlanType::Bill, 10).unwrap().1);
    follow(PlanVaultContract::create_plan(&mut store, 0, "b".to_string(), 20, PlanType::Emergency, 0).unwrap().1);
    follow(PlanVaultContract::create_plan(&mut store, 0, "c".to_string(), 5, PlanType::Savings, 3).unwrap().1);
    follow(PlanVaultContract::release_plan(&mut store, 10, 1).unwrap());
    follow(PlanVaultContract::request_early_withdraw(&mut store, 11, 2).unwrap());
    follow(PlanVaultContract::confirm_early_withdraw(&mut store, 11, 2).unwrap());
    assert_eq!(held, 5);
    assert_eq!(PlanVaultContract::get_protected_total(&store), Ok(5));
}

#[test]
fn storage_entries_read_back_what_was_written() {
    let mut store: Storage<u64> = Storage::new();
    assert_eq!(get_owner(&store), Err(ContractError::NotInitialized));
    assert_eq!(get_token(&store), Err(ContractError::NotInitialized));
    assert_eq!(get_plan_count(&store), Err(ContractError::NotInitialized));
    set_owner(&mut store, 3);
    set_token(&mut store, 4);
    set_plan_count(&mut store, 9);
    set_initialized(&mut store);
    assert_eq!(get_owner(&store), Ok(&3));
    assert_eq!(get_token(&store), Ok(&4));
    assert_eq!(get_plan_count(&store), Ok(9));
    assert!(is_initialized(&store));
    let plan = Plan {
        id: 9,
        name: "n".to_string(),
        amount: 1,
        plan_type: PlanType::Savings,
        status: PlanStatus::Released,
        unlock_date: 2,
        created_at: 1,
    };
    put_plan(&mut store, plan.clone());
    assert_eq!(get_plan(&store, 9), Ok(plan));
    set_early_withdraw_request(&mut store, 9, 44);
    assert_eq!(get_early_withdraw_request(&store, 9), Some(44));
    remove_early_withdraw_request(&mut store, 9);
    assert_eq!(get_early_withdraw_request(&store, 9), None);
}

#[test]
fn data_keys_and_init_data() {
    assert_eq!(DataKey::Plan(3), DataKey::Plan(3));
    assert_ne!(DataKey::Plan(3), DataKey::EarlyWithdrawRequest(3));
    assert_ne!(DataKey::Owner, DataKey::Token);
    let d = VaultInitData { owner: 1u64, token: 2u64 };
    assert_eq!((d.owner, d.token), (1, 2));
}
