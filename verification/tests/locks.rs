use token_vault::{Error, Event, Identity, TokenLock, TokenVaultContract};

fn admin() -> Identity {
    Identity::account(0, 1)
}

fn owner() -> Identity {
    Identity::account(0, 2)
}

fn other() -> Identity {
    Identity::contract(7, 3)
}

fn ready() -> TokenVaultContract {
    let mut vault = TokenVaultContract::new();
    vault.initialize(admin(), true, vec![], 1).unwrap();
    vault.drain_events();
    vault
}

#[test]
fn lock_then_claim_scenario() {
    let mut vault = TokenVaultContract::new();
    vault.initialize(admin(), true, vec![Identity::account(0, 100)], 1).unwrap();
    let start: u64 = 1_700_000_000;

    let id = vault.lock_tokens(owner(), true, 1_000_000, 86400, String::from("team"), start);
    assert_eq!(id, Ok(1));
    assert_eq!(vault.get_stats().unwrap().total_locked, 1_000_000);

    assert_eq!(vault.claim(owner(), true, 1, start), Err(Error::LockStillActive));
    assert_eq!(vault.claim(owner(), true, 1, start + 86399), Err(Error::LockStillActive));
    assert_eq!(vault.get_stats().unwrap().total_locked, 1_000_000);
    assert_eq!(vault.get_lock(1).unwrap().claimed, false);

    assert_eq!(vault.claim(owner(), true, 1, start + 86400), Ok(1_000_000));
    assert_eq!(vault.get_stats().unwrap().total_locked, 0);
    assert_eq!(vault.get_lock(1).unwrap().claimed, true);
}

#[test]
fn new_lock_reads_back_as_given() {
    let mut vault = ready();
    let id = vault.lock_tokens(owner(), true, 42, 10, String::from("grant"), 500).unwrap();
    assert_eq!(
        vault.get_lock(id),
        Ok(TokenLock {
            id: 1,
            owner: owner(),
            amount: 42,
            locked_at: 500,
            unlock_at: 510,
            claimed: false,
            memo: String::from("grant"),
        })
    );
}

#[test]
fn lock_ids_count_up_and_are_not_reused() {
    let mut vault = ready();
    assert_eq!(vault.lock_tokens(owner(), true, 5, 1, String::from("a"), 0), Ok(1));
    assert_eq!(vault.lock_tokens(other(), true, 6, 1, String::from("b"), 0), Ok(2));
    assert_eq!(vault.claim(owner(), true, 1, 1), Ok(5));
    assert_eq!(vault.lock_tokens(owner(), true, 7, 1, String::from("c"), 0), Ok(3));
    let stats = vault.get_stats().unwrap();
    assert_eq!(stats.lock_count, 3);
    assert_eq!(stats.total_locked, 13);
    assert_eq!(vault.get_lock(2).unwrap().owner, other());
    assert_eq!(vault.get_lock(3).unwrap().amount, 7);
}

#[test]
fn lock_tokens_checks_in_order() {
    let mut fresh = TokenVaultContract::new();
    assert_eq!(
        fresh.lock_tokens(owner(), false, 0, 0, String::new(), 0),
        Err(Error::NotInitialized)
    );
    let mut vault = ready();
    assert_eq!(vault.lock_tokens(owner(), false, 0, 0, String::new(), 0), Err(Error::InvalidAmount));
    assert_eq!(vault.lock_tokens(owner(), true, -1, 5, String::new(), 0), Err(Error::InvalidAmount));
    assert_eq!(
        vault.lock_tokens(owner(), false, 1, 0, String::new(), 0),
        Err(Error::InvalidDuration)
    );
    assert_eq!(vault.lock_tokens(owner(), false, 1, 1, String::new(), 0), Err(Error::Unauthorized));
    let stats = vault.get_stats().unwrap();
    assert_eq!(stats.lock_count, 0);
    assert_eq!(stats.total_locked, 0);
    assert!(vault.drain_events().is_empty());
}

#[test]
fn claim_checks_in_order() {
    let mut fresh = TokenVaultContract::new();
    assert_eq!(fresh.claim(owner(), false, 1, 0), Err(Error::NotInitialized));
    let mut vault = ready();
    vault.lock_tokens(owner(), true, 10, 100, String::from("x"), 1000).unwrap();
    assert_eq!(vault.claim(owner(), false, 9, 0), Err(Error::Unauthorized));
    assert_eq!(vault.claim(owner(), true, 9, 0), Err(Error::LockNotFound));
    assert_eq!(vault.claim(owner(), true, 0, 0), Err(Error::LockNotFound));
    assert_eq!(vault.claim(owner(), true, 2, 0), Err(Error::LockNotFound));
    assert_eq!(vault.claim(other(), true, 1, 2000), Err(Error::Unauthorized));
    assert_eq!(vault.claim(owner(), true, 1, 1099), Err(Error::LockStillActive));
    assert_eq!(vault.claim(owner(), true, 1, 1100), Ok(10));
    assert_eq!(vault.claim(owner(), true, 1, 1100), Err(Error::AlreadyClaimed));
    assert_eq!(vault.claim(other(), true, 1, 1100), Err(Error::Unauthorized));
}

#[test]
fn released_lock_stays_released() {
    let mut vault = TokenVaultContract::new();
    let signer = Identity::account(0, 100);
    vault.initialize(admin(), true, vec![signer], 1).unwrap();
    vault.lock_tokens(owner(), true, 10, 100, String::from("x"), 0).unwrap();
    vault.approve_emergency(signer, true, 1).unwrap();
    assert_eq!(vault.claim(owner(), true, 1, 100), Ok(10));
    assert_eq!(vault.claim(owner(), true, 1, 100), Err(Error::AlreadyClaimed));
    assert_eq!(vault.claim(owner(), true, 1, u64::MAX), Err(Error::AlreadyClaimed));
    assert_eq!(vault.emergency_unlock(other(), true, 1), Err(Error::AlreadyClaimed));
    assert_eq!(vault.approve_emergency(signer, true, 1), Err(Error::AlreadyClaimed));
    vault.lock_tokens(owner(), true, 3, 1, String::from("y"), 0).unwrap();
    assert_eq!(vault.get_lock(1).unwrap().claimed, true);
    assert_eq!(vault.get_stats().unwrap().total_locked, 3);
}

#[test]
fn total_locked_is_what_is_still_committed() {
    let mut vault = ready();
    vault.lock_tokens(owner(), true, 100, 10, String::from("a"), 0).unwrap();
    vault.lock_tokens(other(), true, 250, 20, String::from("b"), 0).unwrap();
    vault
        .create_vesting(admin(), true, other(), 1000, 100, 0, String::from("v"), 0)
        .unwrap();
    assert_eq!(vault.get_stats().unwrap().total_locked, 1350);
    assert_eq!(vault.claim(owner(), true, 1, 10), Ok(100));
    assert_eq!(vault.get_stats().unwrap().total_locked, 1250);
    assert_eq!(vault.claim_vested(other(), true, 1, 30), Ok(300));
    assert_eq!(vault.get_stats().unwrap().total_locked, 950);
    let lock2 = vault.get_lock(2).unwrap();
    let schedule = vault.get_vesting(1).unwrap();
    assert_eq!(
        vault.get_stats().unwrap().total_locked,
        lock2.amount + schedule.total_amount - schedule.claimed_amount
    );
    assert_eq!(vault.claim(other(), true, 2, 20), Ok(250));
    assert_eq!(vault.claim_vested(other(), true, 1, 100), Ok(700));
    assert_eq!(vault.get_stats().unwrap().total_locked, 0);
}

#[test]
fn operations_note_their_events() {
    let mut vault = TokenVaultContract::new();
    let signer = Identity::account(0, 100);
    vault.initialize(admin(), true, vec![signer], 1).unwrap();
    vault.lock_tokens(owner(), true, 10, 100, String::from("x"), 0).unwrap();
    vault.lock_tokens(owner(), true, 20, 100, String::from("y"), 0).unwrap();
    assert_eq!(vault.claim(owner(), true, 1, 50), Err(Error::LockStillActive));
    vault.claim(owner(), true, 1, 100).unwrap();
    vault.approve_emergency(signer, true, 2).unwrap();
    vault.emergency_unlock(other(), true, 2).unwrap();
    let events = vault.drain_events();
    assert_eq!(
        events,
        vec![
            Event::Initialized { admin: admin(), signer_count: 1 },
            Event::Locked { lock_id: 1, owner: owner(), amount: 10, duration: 100 },
            Event::Locked { lock_id: 2, owner: owner(), amount: 20, duration: 100 },
            Event::Claimed { lock_id: 1, owner: owner(), amount: 10 },
            Event::EmergencyApproved { lock_id: 2, signer, approvals: 1 },
            Event::EmergencyUnlocked { lock_id: 2, caller: other(), amount: 20 },
        ]
    );
    assert!(vault.drain_events().is_empty());
    assert_eq!(vault.get_stats().unwrap().total_locked, 0);
}

#[test]
fn event_topics() {
    assert_eq!(Event::Initialized { admin: admin(), signer_count: 0 }.topic(), "init");
    assert_eq!(Event::Locked { lock_id: 1, owner: owner(), amount: 1, duration: 1 }.topic(), "lock");
    assert_eq!(Event::Claimed { lock_id: 1, owner: owner(), amount: 1 }.topic(), "claim");
    assert_eq!(
        Event::EmergencyApproved { lock_id: 1, signer: owner(), approvals: 1 }.topic(),
        "emrg_ap"
    );
    assert_eq!(
        Event::EmergencyUnlocked { lock_id: 1, caller: owner(), amount: 1 }.topic(),
        "emrg_ex"
    );
    assert_eq!(
        Event::VestingCreated { vesting_id: 1, beneficiary: owner(), total_amount: 1, duration: 1 }
            .topic(),
        "vest"
    );
    assert_eq!(
        Event::VestedClaimed { vesting_id: 1, beneficiary: owner(), amount: 1 }.topic(),
        "v_claim"
    );
    assert_eq!(Event::AdminTransferred { previous: admin(), current: owner() }.topic(), "admin");
}

#[test]
fn checked_lock_tokens_refuses_what_the_machine_cannot_hold() {
    let mut vault = ready();
    assert_eq!(
        vault.checked_lock_tokens(owner(), true, 1, 2, String::from("late"), u64::MAX - 1),
        None
    );
    assert_eq!(
        vault.checked_lock_tokens(owner(), true, i128::MAX - 5, 1, String::from("big"), u64::MAX - 1),
        Some(Ok(1))
    );
    assert_eq!(vault.get_lock(1).unwrap().unlock_at, u64::MAX);
    assert_eq!(vault.checked_lock_tokens(owner(), true, 6, 1, String::from("more"), 0), None);
    assert_eq!(vault.get_stats().unwrap().lock_count, 1);
    assert_eq!(vault.get_stats().unwrap().total_locked, i128::MAX - 5);
    assert_eq!(
        vault.checked_lock_tokens(owner(), true, 5, 1, String::from("rest"), 0),
        Some(Ok(2))
    );
    assert_eq!(vault.get_stats().unwrap().total_locked, i128::MAX);
}

#[test]
fn checked_lock_tokens_answers_a_refused_request_whatever_its_numbers() {
    let mut vault = ready();
    assert_eq!(
        vault.checked_lock_tokens(owner(), true, 0, 2, String::new(), u64::MAX),
        Some(Err(Error::InvalidAmount))
    );
    assert_eq!(
        vault.checked_lock_tokens(owner(), false, 1, 2, String::new(), u64::MAX),
        Some(Err(Error::Unauthorized))
    );
    let mut fresh = TokenVaultContract::new();
    assert_eq!(
        fresh.checked_lock_tokens(owner(), true, 1, 2, String::new(), u64::MAX),
        Some(Err(Error::NotInitialized))
    );
}
