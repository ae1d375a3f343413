use mining_cli::address::Address;
use mining_cli::cooldown::{determin_sleep_time, ConfigurationError, CooldownRange, RoleTag};
use mining_cli::scheduler::{
    sleep_after, sleep_before_deposit, sleep_before_withdrawal, sleep_if_needed, SchedulerError,
    SleepPlan,
};

fn sample_address() -> Address {
    Address::new([
        0xfa, 0x1a, 0x49, 0x98, 0x13, 0x63, 0x77, 0xdb, 0x9b, 0x09, 0xe2, 0x45, 0x67, 0xbd, 0x6d,
        0x17, 0xad, 0x78, 0xaa, 0xe6,
    ])
}

#[test]
fn no_history_means_no_wait() {
    let address = sample_address();
    let range = CooldownRange { min: 50, max: 60 };
    assert_eq!(sleep_before_deposit(None, &address, range, 1040), Ok(SleepPlan::NoWait));
    assert_eq!(sleep_before_withdrawal(None, &address, range, 0), Ok(SleepPlan::NoWait));
    assert_eq!(sleep_after(None, 53, 1040), Ok(SleepPlan::NoWait));
    assert_eq!(sleep_after(None, u64::MAX, u64::MAX), Ok(SleepPlan::NoWait));
}

#[test]
fn no_history_is_decided_before_the_window_is_read() {
    let address = sample_address();
    let empty = CooldownRange { min: 60, max: 60 };
    assert_eq!(sleep_before_deposit(None, &address, empty, 1040), Ok(SleepPlan::NoWait));
}

#[test]
fn past_deadline_means_no_wait() {
    assert_eq!(sleep_after(Some(1000), 53, 1060), Ok(SleepPlan::NoWait));
    assert_eq!(sleep_after(Some(1000), 53, 1053), Ok(SleepPlan::NoWait));
    assert_eq!(sleep_if_needed(1053, 1053), SleepPlan::NoWait);
    assert_eq!(sleep_if_needed(0, 0), SleepPlan::NoWait);
}

#[test]
fn future_deadline_sleeps_until_it() {
    assert_eq!(
        sleep_after(Some(1000), 53, 1040),
        Ok(SleepPlan::SleepUntil { target_time: 1053, sleep_from_now: 13 })
    );
    assert_eq!(
        sleep_if_needed(1053, 1052),
        SleepPlan::SleepUntil { target_time: 1053, sleep_from_now: 1 }
    );
    assert_eq!(
        sleep_if_needed(u64::MAX, 0),
        SleepPlan::SleepUntil { target_time: u64::MAX, sleep_from_now: u64::MAX }
    );
}

#[test]
fn end_to_end_scenario() {
    let address = sample_address();
    let range = CooldownRange { min: 50, max: 60 };
    let cooldown = determin_sleep_time(1000, &address, RoleTag::Deposit, range).unwrap();
    assert!(50 <= cooldown && cooldown < 60);
    let target: u64 = 1000 + cooldown;
    assert_eq!(
        sleep_before_deposit(Some(1000), &address, range, 1040),
        Ok(SleepPlan::SleepUntil { target_time: target, sleep_from_now: target - 1040 })
    );
    assert_eq!(sleep_before_deposit(Some(1000), &address, range, 1060), Ok(SleepPlan::NoWait));
    assert_eq!(sleep_before_deposit(Some(1000), &address, range, target), Ok(SleepPlan::NoWait));
}

#[test]
fn withdrawal_wait_uses_the_withdrawal_role() {
    let address = sample_address();
    let range = CooldownRange { min: 0, max: 1_000_000 };
    let cooldown = determin_sleep_time(5000, &address, RoleTag::Withdrawal, range).unwrap();
    let expected = if cooldown == 0 {
        SleepPlan::NoWait
    } else {
        SleepPlan::SleepUntil { target_time: 5000 + cooldown, sleep_from_now: cooldown }
    };
    assert_eq!(sleep_before_withdrawal(Some(5000), &address, range, 5000), Ok(expected));
}

#[test]
fn empty_window_with_history_is_rejected() {
    let address = sample_address();
    let empty = CooldownRange { min: 60, max: 50 };
    assert_eq!(
        sleep_before_deposit(Some(1000), &address, empty, 1040),
        Err(SchedulerError::Configuration(ConfigurationError::EmptyCooldownRange {
            min: 60,
            max: 50
        }))
    );
    assert_eq!(
        sleep_before_withdrawal(Some(1000), &address, empty, 1040),
        Err(SchedulerError::Configuration(ConfigurationError::EmptyCooldownRange {
            min: 60,
            max: 50
        }))
    );
}

#[test]
fn latest_possible_deadline() {
    let address = sample_address();
    let range = CooldownRange { min: 5, max: 6 };
    let last: u64 = u64::MAX - 5;
    assert_eq!(
        sleep_before_deposit(Some(last), &address, range, last),
        Ok(SleepPlan::SleepUntil { target_time: u64::MAX, sleep_from_now: 5 })
    );
    assert_eq!(
        sleep_before_withdrawal(Some(last), &address, range, u64::MAX),
        Ok(SleepPlan::NoWait)
    );
}

#[test]
fn deadline_beyond_every_timestamp_is_an_error() {
    assert_eq!(
        sleep_after(Some(u64::MAX), 1, 0),
        Err(SchedulerError::DeadlineOutOfRange { last_time: u64::MAX, cooldown: 1 })
    );
    assert_eq!(
        sleep_after(Some(u64::MAX), 0, 0),
        Ok(SleepPlan::SleepUntil { target_time: u64::MAX, sleep_from_now: u64::MAX })
    );
    let address = sample_address();
    let range = CooldownRange { min: 5, max: 6 };
    let last: u64 = u64::MAX - 4;
    assert_eq!(
        sleep_before_deposit(Some(last), &address, range, u64::MAX),
        Err(SchedulerError::DeadlineOutOfRange { last_time: last, cooldown: 5 })
    );
    assert_eq!(
        sleep_before_withdrawal(Some(last), &address, range, 0),
        Err(SchedulerError::DeadlineOutOfRange { last_time: last, cooldown: 5 })
    );
}
