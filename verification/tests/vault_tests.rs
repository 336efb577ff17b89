use curve_launchpad::error::CustomError;
use curve_launchpad::identity::Address;
use curve_launchpad::vault::{
    initialize_vault, initialize_vesting, lock_tokens, lock_tokens_for_vesting, unlock_tokens,
    unlock_vested_tokens, vesting_period, TokensLocked, TokensUnlocked, Vault, VaultInitialized, Vesting,
    VestingInitialized, VestingTokensLocked, VestingTokensUnlocked, MAXIMUM_VESTING_PERIOD,
    MINIMUM_AMOUNT, MINIMUM_VESTING_PERIOD, SECONDS_IN_DAY,
};

fn key(tag: u8) -> Address {
    Address { bytes: [tag; 32] }
}

fn vault() -> Vault {
    initialize_vault(key(1), 250, 0).0
}

fn grant() -> Vesting {
    initialize_vesting(key(1), key(2), 251, 1_000, 2_000, 2_000 + MINIMUM_VESTING_PERIOD, 5_000, 1_000)
        .unwrap()
        .0
}

#[test]
fn the_bounds_are_a_week_and_two_years() {
    assert_eq!(SECONDS_IN_DAY, 86_400);
    assert_eq!(MINIMUM_VESTING_PERIOD, 604_800);
    assert_eq!(MAXIMUM_VESTING_PERIOD, 63_072_000);
    assert_eq!(MINIMUM_AMOUNT, 1);
}

#[test]
fn initialize_vault_starts_empty() {
    let (v, record) = initialize_vault(key(1), 250, 99);
    assert_eq!(v, Vault { owner: key(1), bump: 250, locked_amount: 0, locked_until: 0 });
    assert_eq!(record, VaultInitialized { owner: key(1), timestamp: 99 });
}

#[test]
fn lock_tokens_sets_amount_and_expiry() {
    let mut v = vault();
    let r = lock_tokens(&mut v, &key(1), key(3), 500, MINIMUM_VESTING_PERIOD, 1_000);
    assert_eq!(
        r,
        Ok(TokensLocked {
            vault_owner: key(1),
            locker_authority: key(3),
            amount: 500,
            lock_until: 605_800,
        })
    );
    assert_eq!(v.locked_amount, 500);
    assert_eq!(v.locked_until, 605_800);
    assert_eq!(v.owner, key(1));
    assert_eq!(v.bump, 250);
}

#[test]
fn lock_tokens_needs_more_than_the_minimum() {
    let mut v = vault();
    for amount in [0, 1] {
        assert_eq!(
            lock_tokens(&mut v, &key(1), key(3), amount, MINIMUM_VESTING_PERIOD, 1_000),
            Err(CustomError::InvalidAmount)
        );
    }
    assert_eq!(v, vault());
    assert!(lock_tokens(&mut v, &key(1), key(3), 2, MINIMUM_VESTING_PERIOD, 1_000).is_ok());
}

#[test]
fn lock_tokens_needs_an_allowed_duration() {
    let mut v = vault();
    for duration in [0, -1, MINIMUM_VESTING_PERIOD - 1, MAXIMUM_VESTING_PERIOD + 1, i64::MAX, i64::MIN] {
        assert_eq!(
            lock_tokens(&mut v, &key(1), key(3), 500, duration, 1_000),
            Err(CustomError::InvalidTimeParameters)
        );
    }
    assert_eq!(v, vault());
    assert!(lock_tokens(&mut v, &key(1), key(3), 500, MAXIMUM_VESTING_PERIOD, 1_000).is_ok());
    assert_eq!(v.locked_until, 1_000 + MAXIMUM_VESTING_PERIOD);
}

#[test]
fn lock_tokens_reports_the_amount_before_the_duration() {
    let mut v = vault();
    assert_eq!(lock_tokens(&mut v, &key(1), key(3), 1, 0, 1_000), Err(CustomError::InvalidAmount));
}

#[test]
fn lock_tokens_fails_where_the_expiry_overflows() {
    let mut v = vault();
    assert_eq!(
        lock_tokens(&mut v, &key(1), key(3), 500, MINIMUM_VESTING_PERIOD, i64::MAX - MINIMUM_VESTING_PERIOD + 1),
        Err(CustomError::CalculationError)
    );
    assert_eq!(v, vault());
    assert!(
        lock_tokens(&mut v, &key(1), key(3), 500, MINIMUM_VESTING_PERIOD, i64::MAX - MINIMUM_VESTING_PERIOD)
            .is_ok()
    );
    assert_eq!(v.locked_until, i64::MAX);
}

#[test]
fn unlock_tokens_frees_everything_after_the_expiry() {
    let mut v = vault();
    lock_tokens(&mut v, &key(1), key(3), 500, MINIMUM_VESTING_PERIOD, 1_000).unwrap();
    let locked = v;
    assert_eq!(unlock_tokens(&mut v, &key(1), key(4), 605_799), Err(CustomError::TokensStillLocked));
    assert_eq!(v, locked);
    assert_eq!(
        unlock_tokens(&mut v, &key(1), key(4), 605_800),
        Ok(TokensUnlocked {
            vault_owner: key(1),
            unlocker_authority: key(4),
            amount: 500,
            timestamp: 605_800,
        })
    );
    assert_eq!(v.locked_amount, 0);
    assert_eq!(v.locked_until, 605_800);
}

#[test]
fn unlock_tokens_fails_on_an_empty_vault() {
    let mut v = vault();
    assert_eq!(unlock_tokens(&mut v, &key(1), key(4), 10), Err(CustomError::InsufficientBalance));
    lock_tokens(&mut v, &key(1), key(3), 500, MINIMUM_VESTING_PERIOD, 1_000).unwrap();
    unlock_tokens(&mut v, &key(1), key(4), 700_000).unwrap();
    assert_eq!(unlock_tokens(&mut v, &key(1), key(4), 700_000), Err(CustomError::InsufficientBalance));
}

#[test]
fn initialize_vesting_creates_a_locked_grant() {
    let end = 2_000 + MINIMUM_VESTING_PERIOD;
    let (g, record) = initialize_vesting(key(1), key(2), 251, 1_000, 2_000, end, 5_000, 1_000).unwrap();
    assert_eq!(
        g,
        Vesting {
            owner: key(1),
            token_mint: key(2),
            amount: 1_000,
            start_time: 2_000,
            end_time: end,
            target_market_cap: 5_000,
            is_locked: true,
            bump: 251,
        }
    );
    assert_eq!(
        record,
        VestingInitialized { owner: key(1), amount: 1_000, start_time: 2_000, end_time: end }
    );
}

#[test]
fn initialize_vesting_needs_more_than_the_minimum() {
    for amount in [0, 1] {
        let r = initialize_vesting(key(1), key(2), 0, amount, 2_000, 2_000 + MINIMUM_VESTING_PERIOD, 0, 1_000);
        assert_eq!(r.err(), Some(CustomError::InvalidVestingAmount));
    }
}

#[test]
fn initialize_vesting_needs_a_period_in_the_future() {
    let week = MINIMUM_VESTING_PERIOD;
    for (start, end, now) in [(2_000, 2_000, 1_000), (2_000, 1_999, 1_000), (1_000, 1_000 + week, 1_000), (999, 999 + week, 1_000)] {
        let r = initialize_vesting(key(1), key(2), 0, 10, start, end, 0, now);
        assert_eq!(r.err(), Some(CustomError::InvalidTimeParameters));
    }
}

#[test]
fn initialize_vesting_needs_an_allowed_length() {
    let r = initialize_vesting(key(1), key(2), 0, 10, 2_000, 2_000 + MINIMUM_VESTING_PERIOD - 1, 0, 1_000);
    assert_eq!(r.err(), Some(CustomError::InvalidTimeParameters));
    let r = initialize_vesting(key(1), key(2), 0, 10, 2_000, 2_001 + MAXIMUM_VESTING_PERIOD, 0, 1_000);
    assert_eq!(r.err(), Some(CustomError::InvalidTimeParameters));
    let r = initialize_vesting(key(1), key(2), 0, 10, 2_000, 2_000 + MAXIMUM_VESTING_PERIOD, 0, 1_000);
    assert!(r.is_ok());
}

#[test]
fn initialize_vesting_fails_where_the_length_overflows() {
    // the length is i64::MAX + 1
    let r = initialize_vesting(key(1), key(2), 0, 10, -1, i64::MAX, 0, -3);
    assert_eq!(r.err(), Some(CustomError::CalculationError));
    // the length is i64::MAX: it fits, and is longer than two years
    let r = initialize_vesting(key(1), key(2), 0, 10, 0, i64::MAX, 0, -3);
    assert_eq!(r.err(), Some(CustomError::InvalidTimeParameters));
}

#[test]
fn lock_tokens_for_vesting_takes_the_exact_amount() {
    let g = grant();
    assert_eq!(
        lock_tokens_for_vesting(&g, &key(1), key(8), 1_000),
        Ok(VestingTokensLocked { owner: key(1), amount: 1_000, vesting_account: key(8) })
    );
    assert_eq!(lock_tokens_for_vesting(&g, &key(1), key(8), 999), Err(CustomError::InvalidVestingAmount));
    assert_eq!(lock_tokens_for_vesting(&g, &key(1), key(8), 1_001), Err(CustomError::InvalidVestingAmount));
}

#[test]
fn lock_tokens_for_vesting_fails_on_an_unlocked_grant() {
    let mut g = grant();
    g.is_locked = false;
    assert_eq!(lock_tokens_for_vesting(&g, &key(1), key(8), 1_000), Err(CustomError::TokensAlreadyUnlocked));
    assert_eq!(lock_tokens_for_vesting(&g, &key(1), key(8), 1), Err(CustomError::InvalidVestingAmount));
}

#[test]
fn unlock_vested_tokens_checks_the_three_conditions_in_order() {
    let mut g = grant();
    let end = g.end_time;
    assert_eq!(unlock_vested_tokens(&mut g, &key(1), 0, end - 1), Err(CustomError::VestingPeriodNotEnded));
    assert_eq!(unlock_vested_tokens(&mut g, &key(1), 4_999, end), Err(CustomError::MarketCapNotReached));
    assert_eq!(g, grant());
    assert_eq!(
        unlock_vested_tokens(&mut g, &key(1), 5_000, end),
        Ok(VestingTokensUnlocked { owner: key(1), amount: 1_000, timestamp: end })
    );
    assert!(!g.is_locked);
    assert_eq!(g.amount, 1_000);
    assert_eq!(unlock_vested_tokens(&mut g, &key(1), 0, 0), Err(CustomError::TokensAlreadyUnlocked));
}

#[test]
fn vault_operations_are_for_the_owner() {
    let mut v = vault();
    assert_eq!(
        lock_tokens(&mut v, &key(2), key(3), 500, MINIMUM_VESTING_PERIOD, 1_000),
        Err(CustomError::UnauthorizedAccess)
    );
    // the owner is asked for before the amount is looked at
    assert_eq!(lock_tokens(&mut v, &key(2), key(3), 0, 0, 1_000), Err(CustomError::UnauthorizedAccess));
    assert_eq!(v, vault());
    lock_tokens(&mut v, &key(1), key(3), 500, MINIMUM_VESTING_PERIOD, 1_000).unwrap();
    let locked = v;
    assert_eq!(unlock_tokens(&mut v, &key(3), key(3), 700_000), Err(CustomError::UnauthorizedAccess));
    assert_eq!(v, locked);
}

#[test]
fn grant_operations_are_for_the_owner() {
    let mut g = grant();
    let end = g.end_time;
    assert_eq!(lock_tokens_for_vesting(&g, &key(2), key(8), 1_000), Err(CustomError::UnauthorizedAccess));
    assert_eq!(lock_tokens_for_vesting(&g, &key(2), key(8), 7), Err(CustomError::UnauthorizedAccess));
    assert_eq!(unlock_vested_tokens(&mut g, &key(2), 5_000, end), Err(CustomError::UnauthorizedAccess));
    assert_eq!(g, grant());
}

#[test]
fn vesting_period_is_held_against_the_bounds() {
    assert_eq!(vesting_period(100, 100 + MINIMUM_VESTING_PERIOD), Ok(MINIMUM_VESTING_PERIOD));
    assert_eq!(vesting_period(-5, MAXIMUM_VESTING_PERIOD - 5), Ok(MAXIMUM_VESTING_PERIOD));
    assert_eq!(
        vesting_period(100, 99 + MINIMUM_VESTING_PERIOD),
        Err(CustomError::InvalidTimeParameters)
    );
    assert_eq!(
        vesting_period(100, 101 + MAXIMUM_VESTING_PERIOD),
        Err(CustomError::InvalidTimeParameters)
    );
    assert_eq!(vesting_period(100, 100), Err(CustomError::InvalidTimeParameters));
    assert_eq!(vesting_period(100, 0), Err(CustomError::InvalidTimeParameters));
    assert_eq!(vesting_period(i64::MIN, i64::MAX), Err(CustomError::CalculationError));
    assert_eq!(vesting_period(i64::MAX, i64::MIN), Err(CustomError::CalculationError));
    assert_eq!(vesting_period(0, i64::MAX), Err(CustomError::InvalidTimeParameters));
}
