use token_vault::ledger::{credit, debit};
use token_vault::{Error, Event, Identity, Snapshot, TokenLock, TokenVaultContract, VaultStats};

fn first_admin() -> Identity {
    Identity::account(0, 1)
}

fn successor() -> Identity {
    Identity::account(0, 8)
}

fn client() -> Identity {
    Identity::account(0, 2)
}

fn ready_with_committee() -> TokenVaultContract {
    let mut vault = TokenVaultContract::new();
    vault.initialize(first_admin(), true, vec![Identity::account(9, 1)], 1).unwrap();
    vault.drain_events();
    vault
}

#[test]
fn transfer_admin_hands_the_role_on() {
    let mut vault = ready_with_committee();
    assert_eq!(vault.transfer_admin(first_admin(), true, successor()), Ok(()));
    assert_eq!(vault.get_stats().unwrap().admin, successor());
    assert_eq!(vault.require_admin(&successor()), Ok(()));
    assert_eq!(vault.require_admin(&first_admin()), Err(Error::Unauthorized));
    assert_eq!(vault.transfer_admin(first_admin(), true, first_admin()), Err(Error::Unauthorized));
    assert_eq!(
        vault.create_vesting(first_admin(), true, client(), 10, 10, 0, String::from("v"), 0),
        Err(Error::Unauthorized)
    );
    assert_eq!(
        vault.create_vesting(successor(), true, client(), 10, 10, 0, String::from("v"), 0),
        Ok(1)
    );
    assert_eq!(
        vault.drain_events()[0],
        Event::AdminTransferred { previous: first_admin(), current: successor() }
    );
}

#[test]
fn transfer_admin_checks_in_order() {
    let mut fresh = TokenVaultContract::new();
    assert_eq!(fresh.transfer_admin(first_admin(), false, successor()), Err(Error::NotInitialized));
    let mut vault = ready_with_committee();
    assert_eq!(vault.transfer_admin(successor(), false, successor()), Err(Error::Unauthorized));
    assert_eq!(vault.transfer_admin(successor(), true, successor()), Err(Error::Unauthorized));
    assert_eq!(vault.transfer_admin(first_admin(), false, successor()), Err(Error::Unauthorized));
    assert_eq!(vault.get_stats().unwrap().admin, first_admin());
    assert!(vault.drain_events().is_empty());
}

#[test]
fn upgrade_is_for_the_authentic_admin() {
    let fresh = TokenVaultContract::new();
    assert_eq!(fresh.upgrade(first_admin(), true), Err(Error::NotInitialized));
    let vault = ready_with_committee();
    assert_eq!(vault.upgrade(successor(), true), Err(Error::Unauthorized));
    assert_eq!(vault.upgrade(first_admin(), false), Err(Error::Unauthorized));
    assert_eq!(vault.upgrade(first_admin(), true), Ok(()));
}

#[test]
fn stats_report_totals_counts_and_admin() {
    let mut vault = ready_with_committee();
    vault.lock_tokens(client(), true, 11, 5, String::from("a"), 0).unwrap();
    vault.lock_tokens(client(), true, 22, 5, String::from("b"), 0).unwrap();
    vault.create_vesting(first_admin(), true, client(), 100, 10, 0, String::from("v"), 0).unwrap();
    assert_eq!(
        vault.get_stats(),
        Ok(VaultStats { total_locked: 133, lock_count: 2, vesting_count: 1, admin: first_admin() })
    );
}

#[test]
fn ledger_credit_and_debit() {
    assert_eq!(credit(0, 1_000_000), 1_000_000);
    assert_eq!(credit(40, 2), 42);
    assert_eq!(debit(1_000_000, 1_000_000), 0);
    assert_eq!(debit(10, 3), 7);
    assert_eq!(debit(3, 10), 0);
    assert_eq!(debit(0, 0), 0);
    assert_eq!(debit(i128::MAX, 1), i128::MAX - 1);
}

#[test]
fn snapshot_round_trip_keeps_everything_but_the_journal() {
    let mut vault = ready_with_committee();
    vault.lock_tokens(client(), true, 11, 5, String::from("a"), 3).unwrap();
    vault.create_vesting(first_admin(), true, client(), 100, 10, 2, String::from("v"), 4).unwrap();
    vault.approve_emergency(Identity::account(9, 1), true, 1).unwrap();
    assert_eq!(vault.claim_vested(client(), true, 1, 9), Ok(50));
    let snapshot = vault.into_snapshot();
    assert_eq!(snapshot.initialized, true);
    assert_eq!(snapshot.admin, Some(first_admin()));
    assert_eq!(snapshot.emergency_signers, vec![Identity::account(9, 1)]);
    assert_eq!(snapshot.emergency_threshold, 1);
    assert_eq!(snapshot.total_locked, 61);
    assert_eq!(snapshot.locks.len(), 1);
    assert_eq!(snapshot.vestings[0].claimed_amount, 50);
    assert_eq!(snapshot.approvals, vec![vec![Identity::account(9, 1)]]);
    assert!(snapshot.is_consistent());

    let mut restored = TokenVaultContract::restore(snapshot).unwrap();
    assert!(restored.drain_events().is_empty());
    assert_eq!(
        restored.get_stats(),
        Ok(VaultStats { total_locked: 61, lock_count: 1, vesting_count: 1, admin: first_admin() })
    );
    assert_eq!(
        restored.approve_emergency(Identity::account(9, 1), true, 1),
        Err(Error::AlreadyApprovedEmergency)
    );
    assert_eq!(restored.emergency_unlock(client(), true, 1), Ok(11));
    assert_eq!(restored.claim_vested(client(), true, 1, 14), Ok(50));
    assert_eq!(restored.get_stats().unwrap().total_locked, 0);
}

fn one_lock_snapshot() -> Snapshot {
    Snapshot {
        initialized: true,
        admin: Some(first_admin()),
        emergency_signers: vec![Identity::account(9, 1), Identity::account(9, 2)],
        emergency_threshold: 2,
        total_locked: 10,
        locks: vec![TokenLock {
            id: 1,
            owner: client(),
            amount: 10,
            locked_at: 0,
            unlock_at: 5,
            claimed: false,
            memo: String::from("m"),
        }],
        vestings: vec![],
        approvals: vec![vec![Identity::account(9, 2)]],
    }
}

#[test]
fn consistent_snapshot_is_restored() {
    assert!(one_lock_snapshot().is_consistent());
    let mut vault = TokenVaultContract::restore(one_lock_snapshot()).unwrap();
    assert_eq!(vault.approve_emergency(Identity::account(9, 1), true, 1), Ok(2));
    assert_eq!(vault.emergency_unlock(client(), true, 1), Ok(10));
}

#[test]
fn empty_snapshot_is_the_new_vault() {
    let snapshot = TokenVaultContract::new().into_snapshot();
    assert_eq!(snapshot.initialized, false);
    assert_eq!(snapshot.admin, None);
    assert_eq!(snapshot.emergency_threshold, 2);
    assert_eq!(snapshot.total_locked, 0);
    assert!(snapshot.is_consistent());
    let vault = TokenVaultContract::restore(snapshot).unwrap();
    assert_eq!(vault.get_stats(), Err(Error::NotInitialized));
}

#[test]
fn snapshot_with_a_wrong_total_is_refused() {
    let mut snapshot = one_lock_snapshot();
    snapshot.total_locked = 11;
    assert!(!snapshot.is_consistent());
    assert!(TokenVaultContract::restore(snapshot).is_none());
    let mut released = one_lock_snapshot();
    released.locks[0].claimed = true;
    assert!(!released.is_consistent());
    released.total_locked = 0;
    assert!(released.is_consistent());
}

#[test]
fn snapshot_with_broken_records_is_refused() {
    let mut wrong_id = one_lock_snapshot();
    wrong_id.locks[0].id = 2;
    assert!(!wrong_id.is_consistent());

    let mut no_admin = one_lock_snapshot();
    no_admin.admin = None;
    assert!(!no_admin.is_consistent());

    let mut not_initialized = one_lock_snapshot();
    not_initialized.initialized = false;
    not_initialized.admin = None;
    assert!(!not_initialized.is_consistent());

    let mut twice = one_lock_snapshot();
    twice.approvals[0].push(Identity::account(9, 2));
    assert!(!twice.is_consistent());

    let mut outsider = one_lock_snapshot();
    outsider.approvals[0].push(client());
    assert!(!outsider.is_consistent());

    let mut missing = one_lock_snapshot();
    missing.approvals.clear();
    assert!(!missing.is_consistent());

    let mut negative = one_lock_snapshot();
    negative.locks[0].amount = -10;
    negative.total_locked = -10;
    assert!(!negative.is_consistent());

    let mut backwards = one_lock_snapshot();
    backwards.locks[0].locked_at = 6;
    assert!(!backwards.is_consistent());
}

#[test]
fn snapshot_whose_commitments_overflow_is_refused() {
    let mut snapshot = one_lock_snapshot();
    snapshot.locks[0].amount = i128::MAX;
    snapshot.locks.push(TokenLock {
        id: 2,
        owner: client(),
        amount: 1,
        locked_at: 0,
        unlock_at: 5,
        claimed: false,
        memo: String::from("n"),
    });
    snapshot.approvals.push(vec![]);
    snapshot.total_locked = i128::MAX;
    assert!(!snapshot.is_consistent());
    assert!(TokenVaultContract::restore(snapshot).is_none());
}

#[test]
fn require_authentic_passes_only_the_authentic() {
    assert_eq!(TokenVaultContract::require_authentic(true), Ok(()));
    assert_eq!(TokenVaultContract::require_authentic(false), Err(Error::Unauthorized));
}

#[test]
fn committee_and_threshold_stay_as_initialized() {
    let mut vault = ready_with_committee();
    vault.lock_tokens(client(), true, 5, 5, String::from("a"), 0).unwrap();
    vault.transfer_admin(first_admin(), true, successor()).unwrap();
    assert_eq!(
        vault.initialize(successor(), true, vec![client()], 0),
        Err(Error::AlreadyInitialized)
    );
    let snapshot = vault.into_snapshot();
    assert_eq!(snapshot.emergency_signers, vec![Identity::account(9, 1)]);
    assert_eq!(snapshot.emergency_threshold, 1);
    assert_eq!(snapshot.admin, Some(successor()));
}
