use token_vault::records::VestingSchedule;
use token_vault::vesting::vested_amount;
use token_vault::{Error, Event, Identity, TokenVaultContract};

fn grantor() -> Identity {
    Identity::account(0, 1)
}

fn beneficiary() -> Identity {
    Identity::account(0, 4)
}

fn stranger() -> Identity {
    Identity::account(0, 5)
}

fn ready_for_vesting() -> TokenVaultContract {
    let mut vault = TokenVaultContract::new();
    vault.initialize(grantor(), true, vec![], 1).unwrap();
    vault.drain_events();
    vault
}

#[test]
fn half_way_vesting_scenario() {
    let mut vault = ready_for_vesting();
    let start: u64 = 1_000;
    let id = vault.create_vesting(
        grantor(),
        true,
        beneficiary(),
        10_000_000,
        31_536_000,
        7_776_000,
        String::from("hire"),
        start,
    );
    assert_eq!(id, Ok(1));
    assert_eq!(vault.claim_vested(beneficiary(), true, 1, start + 15_768_000), Ok(5_000_000));
    assert_eq!(
        vault.claim_vested(beneficiary(), true, 1, start + 15_768_000),
        Err(Error::NothingToClaim)
    );
    assert_eq!(vault.get_vesting(1).unwrap().claimed_amount, 5_000_000);
    assert_eq!(vault.get_stats().unwrap().total_locked, 5_000_000);
}

#[test]
fn cliff_boundary() {
    let mut vault = ready_for_vesting();
    let start: u64 = 50;
    vault
        .create_vesting(grantor(), true, beneficiary(), 1000, 100, 30, String::from("c"), start)
        .unwrap();
    assert_eq!(vault.claim_vested(beneficiary(), true, 1, start), Err(Error::NothingToClaim));
    assert_eq!(
        vault.claim_vested(beneficiary(), true, 1, start + 29),
        Err(Error::NothingToClaim)
    );
    assert_eq!(vault.get_vesting(1).unwrap().claimed_amount, 0);
    assert_eq!(vault.claim_vested(beneficiary(), true, 1, start + 30), Ok(300));
    assert_eq!(vault.get_vesting(1).unwrap().claimed_amount, 300);
}

#[test]
fn cliff_boundary_of_the_year_long_schedule() {
    let mut vault = ready_for_vesting();
    vault
        .create_vesting(
            grantor(),
            true,
            beneficiary(),
            10_000_000,
            31_536_000,
            7_776_000,
            String::from("hire"),
            0,
        )
        .unwrap();
    assert_eq!(
        vault.claim_vested(beneficiary(), true, 1, 7_775_999),
        Err(Error::NothingToClaim)
    );
    assert_eq!(vault.claim_vested(beneficiary(), true, 1, 7_776_000), Ok(2_465_753));
}

#[test]
fn without_a_cliff_nothing_has_vested_at_the_start() {
    let mut vault = ready_for_vesting();
    vault
        .create_vesting(grantor(), true, beneficiary(), 1000, 100, 0, String::from("c"), 10)
        .unwrap();
    assert_eq!(vault.claim_vested(beneficiary(), true, 1, 10), Err(Error::NothingToClaim));
    assert_eq!(vault.claim_vested(beneficiary(), true, 1, 9), Err(Error::NothingToClaim));
    assert_eq!(vault.claim_vested(beneficiary(), true, 1, 11), Ok(10));
}

#[test]
fn full_vesting_pays_the_rest_once() {
    let mut vault = ready_for_vesting();
    vault
        .create_vesting(grantor(), true, beneficiary(), 1000, 100, 10, String::from("c"), 0)
        .unwrap();
    assert_eq!(vault.claim_vested(beneficiary(), true, 1, 33), Ok(330));
    assert_eq!(vault.claim_vested(beneficiary(), true, 1, 100), Ok(670));
    assert_eq!(vault.claim_vested(beneficiary(), true, 1, 100), Err(Error::NothingToClaim));
    assert_eq!(vault.claim_vested(beneficiary(), true, 1, 5000), Err(Error::NothingToClaim));
    assert_eq!(vault.claim_vested(beneficiary(), true, 1, u64::MAX), Err(Error::NothingToClaim));
    let schedule = vault.get_vesting(1).unwrap();
    assert_eq!(schedule.claimed_amount, schedule.total_amount);
    assert_eq!(vault.get_stats().unwrap().total_locked, 0);
}

#[test]
fn full_vesting_in_one_call() {
    let mut vault = ready_for_vesting();
    vault
        .create_vesting(grantor(), true, beneficiary(), 777, 100, 0, String::from("c"), 1)
        .unwrap();
    assert_eq!(vault.claim_vested(beneficiary(), true, 1, 101), Ok(777));
    assert_eq!(vault.claim_vested(beneficiary(), true, 1, 101), Err(Error::NothingToClaim));
}

#[test]
fn cliff_longer_than_duration_vests_all_at_the_cliff() {
    let mut vault = ready_for_vesting();
    vault
        .create_vesting(grantor(), true, beneficiary(), 1000, 100, 250, String::from("c"), 0)
        .unwrap();
    assert_eq!(vault.claim_vested(beneficiary(), true, 1, 100), Err(Error::NothingToClaim));
    assert_eq!(vault.claim_vested(beneficiary(), true, 1, 249), Err(Error::NothingToClaim));
    assert_eq!(vault.claim_vested(beneficiary(), true, 1, 250), Ok(1000));
}

#[test]
fn cliff_past_the_end_of_time_is_never_reached() {
    let mut vault = ready_for_vesting();
    vault
        .create_vesting(grantor(), true, beneficiary(), 1000, 100, u64::MAX, String::from("c"), 1)
        .unwrap();
    assert_eq!(vault.claim_vested(beneficiary(), true, 1, u64::MAX), Err(Error::NothingToClaim));
}

#[test]
fn claimed_amount_only_grows() {
    let mut vault = ready_for_vesting();
    vault
        .create_vesting(grantor(), true, beneficiary(), 1000, 3, 0, String::from("c"), 0)
        .unwrap();
    assert_eq!(vault.claim_vested(beneficiary(), true, 1, 1), Ok(333));
    assert_eq!(vault.get_vesting(1).unwrap().claimed_amount, 333);
    assert_eq!(vault.claim_vested(beneficiary(), true, 1, 2), Ok(333));
    assert_eq!(vault.get_vesting(1).unwrap().claimed_amount, 666);
    assert_eq!(vault.claim_vested(beneficiary(), true, 1, 1), Err(Error::NothingToClaim));
    assert_eq!(vault.get_vesting(1).unwrap().claimed_amount, 666);
    assert_eq!(vault.claim_vested(beneficiary(), true, 1, 3), Ok(334));
    let schedule = vault.get_vesting(1).unwrap();
    assert_eq!(schedule.claimed_amount, 1000);
    assert!(schedule.claimed_amount <= schedule.total_amount);
}

#[test]
fn create_vesting_checks_in_order() {
    let mut fresh = TokenVaultContract::new();
    assert_eq!(
        fresh.create_vesting(grantor(), false, beneficiary(), 0, 0, 0, String::new(), 0),
        Err(Error::NotInitialized)
    );
    let mut vault = ready_for_vesting();
    assert_eq!(
        vault.create_vesting(stranger(), true, beneficiary(), 0, 0, 0, String::new(), 0),
        Err(Error::Unauthorized)
    );
    assert_eq!(
        vault.create_vesting(grantor(), false, beneficiary(), 0, 0, 0, String::new(), 0),
        Err(Error::Unauthorized)
    );
    assert_eq!(
        vault.create_vesting(grantor(), true, beneficiary(), 0, 0, 0, String::new(), 0),
        Err(Error::InvalidAmount)
    );
    assert_eq!(
        vault.create_vesting(grantor(), true, beneficiary(), -5, 10, 0, String::new(), 0),
        Err(Error::InvalidAmount)
    );
    assert_eq!(
        vault.create_vesting(grantor(), true, beneficiary(), 1, 0, 0, String::new(), 0),
        Err(Error::InvalidDuration)
    );
    let stats = vault.get_stats().unwrap();
    assert_eq!(stats.vesting_count, 0);
    assert_eq!(stats.total_locked, 0);
    assert!(vault.drain_events().is_empty());
}

#[test]
fn claim_vested_checks_in_order() {
    let mut fresh = TokenVaultContract::new();
    assert_eq!(fresh.claim_vested(beneficiary(), false, 1, 0), Err(Error::NotInitialized));
    let mut vault = ready_for_vesting();
    vault
        .create_vesting(grantor(), true, beneficiary(), 1000, 100, 0, String::from("c"), 0)
        .unwrap();
    assert_eq!(vault.claim_vested(beneficiary(), false, 5, 50), Err(Error::Unauthorized));
    assert_eq!(vault.claim_vested(beneficiary(), true, 5, 50), Err(Error::VestingNotFound));
    assert_eq!(vault.claim_vested(beneficiary(), true, 0, 50), Err(Error::VestingNotFound));
    assert_eq!(vault.claim_vested(stranger(), true, 1, 50), Err(Error::Unauthorized));
    assert_eq!(vault.claim_vested(beneficiary(), true, 1, 50), Ok(500));
}

#[test]
fn vesting_events_and_ids() {
    let mut vault = ready_for_vesting();
    assert_eq!(
        vault.create_vesting(grantor(), true, beneficiary(), 1000, 100, 0, String::from("a"), 0),
        Ok(1)
    );
    assert_eq!(
        vault.create_vesting(grantor(), true, stranger(), 50, 10, 5, String::from("b"), 7),
        Ok(2)
    );
    assert_eq!(vault.claim_vested(beneficiary(), true, 1, 10), Ok(100));
    assert_eq!(
        vault.drain_events(),
        vec![
            Event::VestingCreated {
                vesting_id: 1,
                beneficiary: beneficiary(),
                total_amount: 1000,
                duration: 100
            },
            Event::VestingCreated {
                vesting_id: 2,
                beneficiary: stranger(),
                total_amount: 50,
                duration: 10
            },
            Event::VestedClaimed { vesting_id: 1, beneficiary: beneficiary(), amount: 100 },
        ]
    );
    assert_eq!(
        vault.get_vesting(2),
        Ok(VestingSchedule {
            id: 2,
            beneficiary: stranger(),
            total_amount: 50,
            claimed_amount: 0,
            start_time: 7,
            duration: 10,
            cliff: 5,
            memo: String::from("b"),
        })
    );
    assert_eq!(vault.get_stats().unwrap().vesting_count, 2);
}

#[test]
fn vested_amount_is_the_rounded_down_share() {
    assert_eq!(vested_amount(10_000_000, 15_768_000, 31_536_000), 5_000_000);
    assert_eq!(vested_amount(10_000_000, 7_776_000, 31_536_000), 2_465_753);
    assert_eq!(vested_amount(1000, 1, 3), 333);
    assert_eq!(vested_amount(1000, 2, 3), 666);
    assert_eq!(vested_amount(7, 99, 100), 6);
    assert_eq!(vested_amount(7, 0, 100), 0);
    assert_eq!(vested_amount(0, 50, 100), 0);
}

#[test]
fn vested_amount_is_everything_from_the_end_on() {
    assert_eq!(vested_amount(1000, 3, 3), 1000);
    assert_eq!(vested_amount(1000, 4, 3), 1000);
    assert_eq!(vested_amount(i128::MAX, u64::MAX, u64::MAX), i128::MAX);
    assert_eq!(vested_amount(5, u64::MAX, 1), 5);
}

#[test]
fn vested_amount_is_exact_where_the_product_exceeds_128_bits() {
    assert_eq!(
        vested_amount(i128::MAX, u64::MAX - 1, u64::MAX),
        170141183460469231722463931679029329918
    );
    assert_eq!(vested_amount(i128::MAX, 1, u64::MAX), 9223372036854775808);
    assert_eq!(
        vested_amount(1_000_000_000_000_000_000_000_000_000_000, 123_456_789, 987_654_321),
        124999998860937500014238281249
    );
}

#[test]
fn claimable_at_follows_the_schedule() {
    let schedule = VestingSchedule {
        id: 1,
        beneficiary: beneficiary(),
        total_amount: 1000,
        claimed_amount: 400,
        start_time: 100,
        duration: 100,
        cliff: 20,
        memo: String::from("s"),
    };
    assert_eq!(schedule.claimable_at(0), 0);
    assert_eq!(schedule.claimable_at(119), 0);
    assert_eq!(schedule.claimable_at(120), -200);
    assert_eq!(schedule.claimable_at(140), 0);
    assert_eq!(schedule.claimable_at(150), 100);
    assert_eq!(schedule.claimable_at(200), 600);
    assert_eq!(schedule.claimable_at(u64::MAX), 600);
}

#[test]
fn checked_create_vesting_refuses_what_the_machine_cannot_hold() {
    let mut vault = ready_for_vesting();
    assert_eq!(
        vault.checked_create_vesting(
            grantor(),
            true,
            beneficiary(),
            i128::MAX,
            10,
            0,
            String::from("all"),
            0
        ),
        Some(Ok(1))
    );
    assert_eq!(
        vault.checked_create_vesting(grantor(), true, beneficiary(), 1, 10, 0, String::from("x"), 0),
        None
    );
    assert_eq!(
        vault.checked_create_vesting(grantor(), true, beneficiary(), 1, 0, 0, String::from("x"), 0),
        Some(Err(Error::InvalidDuration))
    );
    assert_eq!(
        vault.checked_create_vesting(stranger(), true, beneficiary(), 1, 10, 0, String::new(), 0),
        Some(Err(Error::Unauthorized))
    );
    assert_eq!(vault.get_stats().unwrap().vesting_count, 1);
    assert_eq!(vault.claim_vested(beneficiary(), true, 1, 10), Ok(i128::MAX));
    assert_eq!(
        vault.checked_create_vesting(grantor(), true, beneficiary(), 1, 10, 0, String::from("x"), 0),
        Some(Ok(2))
    );
}
