//! Locks: a vault that holds tokens until a time, and a grant that holds
//! them until its period has ended and a market capitalisation is reached.
//!
//! As with trades, each operation decides and commits in one step and
//! returns the record of what is to move; the caller moves it before it
//! stores the changed state. An operation on a vault or a grant is for its
//! owner: it begins by holding the caller against the owner on record.

use vstd::prelude::*;
use crate::error::CustomError;
use crate::identity::{authorize, spec_authorize, Address};

verus! {

pub const SECONDS_IN_DAY: i64 = 86400;

/// The shortest lock or vesting period: one week.
pub const MINIMUM_VESTING_PERIOD: i64 = SECONDS_IN_DAY * 7;

/// The longest lock or vesting period: two years.
pub const MAXIMUM_VESTING_PERIOD: i64 = SECONDS_IN_DAY * 365 * 2;

/// A lock or a grant must hold more than this.
pub const MINIMUM_AMOUNT: u64 = 1;

/// Tokens locked until a time.
#[derive(Clone, Copy, Debug, PartialEq, Eq)]
pub struct Vault {
    pub owner: Address,
    pub bump: u8,
    pub locked_amount: u64,
    pub locked_until: i64,
}

/// A grant that unlocks all at once.
#[derive(Clone, Copy, Debug, PartialEq, Eq)]
pub struct Vesting {
    pub owner: Address,
    pub token_mint: Address,
    pub amount: u64,
    pub start_time: i64,
    pub end_time: i64,
    pub target_market_cap: u64,
    pub is_locked: bool,
    pub bump: u8,
}

#[derive(Clone, Copy, Debug, PartialEq, Eq)]
pub struct VaultInitialized {
    pub owner: Address,
    pub timestamp: i64,
}

#[derive(Clone, Copy, Debug, PartialEq, Eq)]
pub struct TokensLocked {
    pub vault_owner: Address,
    pub locker_authority: Address,
    pub amount: u64,
    pub lock_until: i64,
}

#[derive(Clone, Copy, Debug, PartialEq, Eq)]
pub struct TokensUnlocked {
    pub vault_owner: Address,
    pub unlocker_authority: Address,
    pub amount: u64,
    pub timestamp: i64,
}

#[derive(Clone, Copy, Debug, PartialEq, Eq)]
pub struct VestingInitialized {
    pub owner: Address,
    pub amount: u64,
    pub start_time: i64,
    pub end_time: i64,
}

#[derive(Clone, Copy, Debug, PartialEq, Eq)]
pub struct VestingTokensLocked {
    pub owner: Address,
    pub amount: u64,
    pub vesting_account: Address,
}

#[derive(Clone, Copy, Debug, PartialEq, Eq)]
pub struct VestingTokensUnlocked {
    pub owner: Address,
    pub amount: u64,
    pub timestamp: i64,
}

/// Whether a duration lies between one week and two years.
pub open spec fn period_allowed(duration: int) -> bool {
    MINIMUM_VESTING_PERIOD <= duration <= MAXIMUM_VESTING_PERIOD
}

/// The time at which a lock of `lock_duration`, made by `owner` at
/// `current_time` for `amount`, expires.
pub open spec fn spec_lock_tokens(
    vault: Vault,
    owner: Address,
    amount: u64,
    lock_duration: i64,
    current_time: i64,
) -> Result<i64, CustomError> {
    if spec_authorize(owner, vault.owner).is_err() {
        Err(CustomError::UnauthorizedAccess)
    } else if amount <= MINIMUM_AMOUNT {
        Err(CustomError::InvalidAmount)
    } else if !period_allowed(lock_duration as int) {
        Err(CustomError::InvalidTimeParameters)
    } else if current_time + lock_duration > i64::MAX {
        Err(CustomError::CalculationError)
    } else {
        Ok((current_time + lock_duration) as i64)
    }
}

/// The amount that `owner` frees by unlocking a vault at `current_time`.
pub open spec fn spec_unlock_tokens(vault: Vault, owner: Address, current_time: i64) -> Result<
    u64,
    CustomError,
> {
    if spec_authorize(owner, vault.owner).is_err() {
        Err(CustomError::UnauthorizedAccess)
    } else if current_time < vault.locked_until {
        Err(CustomError::TokensStillLocked)
    } else if vault.locked_amount == 0 {
        Err(CustomError::InsufficientBalance)
    } else {
        Ok(vault.locked_amount)
    }
}

/// The length of the period from `start_time` to `end_time`, where a signed
/// 64-bit number holds it and it lies between one week and two years.
pub open spec fn spec_vesting_period(start_time: i64, end_time: i64) -> Result<i64, CustomError> {
    if !(i64::MIN <= end_time - start_time <= i64::MAX) {
        Err(CustomError::CalculationError)
    } else if !period_allowed(end_time - start_time) {
        Err(CustomError::InvalidTimeParameters)
    } else {
        Ok((end_time - start_time) as i64)
    }
}

/// Whether a grant with these parameters can be created at `current_time`.
pub open spec fn spec_initialize_vesting(
    amount: u64,
    start_time: i64,
    end_time: i64,
    current_time: i64,
) -> Result<(), CustomError> {
    if amount <= MINIMUM_AMOUNT {
        Err(CustomError::InvalidVestingAmount)
    } else if end_time <= start_time || start_time <= current_time {
        Err(CustomError::InvalidTimeParameters)
    } else {
        match spec_vesting_period(start_time, end_time) {
            Ok(_) => Ok(()),
            Err(e) => Err(e),
        }
    }
}

/// Whether `owner` may lock `amount` into a grant.
pub open spec fn spec_lock_tokens_for_vesting(vesting: Vesting, owner: Address, amount: u64)
    -> Result<(), CustomError> {
    if spec_authorize(owner, vesting.owner).is_err() {
        Err(CustomError::UnauthorizedAccess)
    } else if amount != vesting.amount {
        Err(CustomError::InvalidVestingAmount)
    } else if !vesting.is_locked {
        Err(CustomError::TokensAlreadyUnlocked)
    } else {
        Ok(())
    }
}

/// Whether `owner` may unlock a grant at `current_time` with the market
/// capitalisation at `current_market_cap`.
pub open spec fn spec_unlock_vested_tokens(
    vesting: Vesting,
    owner: Address,
    current_market_cap: u64,
    current_time: i64,
) -> Result<(), CustomError> {
    if spec_authorize(owner, vesting.owner).is_err() {
        Err(CustomError::UnauthorizedAccess)
    } else if !vesting.is_locked {
        Err(CustomError::TokensAlreadyUnlocked)
    } else if current_time < vesting.end_time {
        Err(CustomError::VestingPeriodNotEnded)
    } else if current_market_cap < vesting.target_market_cap {
        Err(CustomError::MarketCapNotReached)
    } else {
        Ok(())
    }
}

/// The length of a vesting period, held against the bounds: fails with
/// `CalculationError` where the length overflows and with
/// `InvalidTimeParameters` where it is shorter than a week or longer than two
/// years.
pub fn vesting_period(start_time: i64, end_time: i64) -> (r: Result<i64, CustomError>)
    ensures
        r == spec_vesting_period(start_time, end_time),
{
    let length: i128 = end_time as i128 - start_time as i128;
    if length < i64::MIN as i128 || length > i64::MAX as i128 {
        return Err(CustomError::CalculationError);
    }
    if length < MINIMUM_VESTING_PERIOD as i128 || length > MAXIMUM_VESTING_PERIOD as i128 {
        return Err(CustomError::InvalidTimeParameters);
    }
    Ok(length as i64)
}

/// Creates an empty vault for `payer`.
pub fn initialize_vault(payer: Address, bump: u8, timestamp: i64) -> (r: (Vault, VaultInitialized))
    ensures
        r.0 == (Vault { owner: payer, bump, locked_amount: 0, locked_until: 0 }),
        r.1 == (VaultInitialized { owner: payer, timestamp }),
{
    (
        Vault { owner: payer, bump, locked_amount: 0, locked_until: 0 },
        VaultInitialized { owner: payer, timestamp },
    )
}

/// Locks `amount` tokens in the vault for `lock_duration` seconds from
/// `current_time`. The amount must exceed the minimum and the duration must
/// lie between one week and two years.
pub fn lock_tokens(
    vault: &mut Vault,
    owner: &Address,
    authority: Address,
    amount: u64,
    lock_duration: i64,
    current_time: i64,
) -> (r: Result<TokensLocked, CustomError>)
    ensures
        match spec_lock_tokens(*old(vault), *owner, amount, lock_duration, current_time) {
            Ok(unlock_time) => r == Ok::<TokensLocked, CustomError>(
                TokensLocked {
                    vault_owner: old(vault).owner,
                    locker_authority: authority,
                    amount,
                    lock_until: unlock_time,
                },
            ) && *final(vault) == (Vault {
                locked_until: unlock_time,
                locked_amount: amount,
                ..*old(vault)
            }),
            Err(e) => r == Err::<TokensLocked, CustomError>(e) && *final(vault) == *old(vault),
        },
{
    authorize(owner, &vault.owner)?;
    if amount <= MINIMUM_AMOUNT {
        return Err(CustomError::InvalidAmount);
    }
    if lock_duration < MINIMUM_VESTING_PERIOD || lock_duration > MAXIMUM_VESTING_PERIOD {
        return Err(CustomError::InvalidTimeParameters);
    }
    if current_time > i64::MAX - lock_duration {
        return Err(CustomError::CalculationError);
    }
    let unlock_time: i64 = current_time + lock_duration;
    vault.locked_until = unlock_time;
    vault.locked_amount = amount;
    Ok(
        TokensLocked {
            vault_owner: vault.owner,
            locker_authority: authority,
            amount,
            lock_until: unlock_time,
        },
    )
}

/// Frees everything that the vault holds, once the lock has expired. Fails
/// with `TokensStillLocked` before that, and with `InsufficientBalance`
/// where the vault holds nothing.
pub fn unlock_tokens(
    vault: &mut Vault,
    owner: &Address,
    authority: Address,
    current_time: i64,
) -> (r: Result<TokensUnlocked, CustomError>)
    ensures
        match spec_unlock_tokens(*old(vault), *owner, current_time) {
            Ok(amount) => r == Ok::<TokensUnlocked, CustomError>(
                TokensUnlocked {
                    vault_owner: old(vault).owner,
                    unlocker_authority: authority,
                    amount,
                    timestamp: current_time,
                },
            ) && *final(vault) == (Vault { locked_amount: 0, ..*old(vault) }),
            Err(e) => r == Err::<TokensUnlocked, CustomError>(e) && *final(vault) == *old(vault),
        },
{
    authorize(owner, &vault.owner)?;
    if current_time < vault.locked_until {
        return Err(CustomError::TokensStillLocked);
    }
    if vault.locked_amount == 0 {
        return Err(CustomError::InsufficientBalance);
    }
    let amount: u64 = vault.locked_amount;
    vault.locked_amount = 0;
    Ok(
        TokensUnlocked {
            vault_owner: vault.owner,
            unlocker_authority: authority,
            amount,
            timestamp: current_time,
        },
    )
}

/// Creates a locked grant. The amount must exceed the minimum, the period
/// must begin after `current_time`, and its length must lie between one week
/// and two years.
pub fn initialize_vesting(
    owner: Address,
    token_mint: Address,
    bump: u8,
    amount: u64,
    start_time: i64,
    end_time: i64,
    target_market_cap: u64,
    current_time: i64,
) -> (r: Result<(Vesting, VestingInitialized), CustomError>)
    ensures
        match spec_initialize_vesting(amount, start_time, end_time, current_time) {
            Ok(_) => r == Ok::<(Vesting, VestingInitialized), CustomError>(
                (
                    Vesting {
                        owner,
                        token_mint,
                        amount,
                        start_time,
                        end_time,
                        target_market_cap,
                        is_locked: true,
                        bump,
                    },
                    VestingInitialized { owner, amount, start_time, end_time },
                ),
            ),
            Err(e) => r == Err::<(Vesting, VestingInitialized), CustomError>(e),
        },
{
    if amount <= MINIMUM_AMOUNT {
        return Err(CustomError::InvalidVestingAmount);
    }
    if end_time <= start_time || start_time <= current_time {
        return Err(CustomError::InvalidTimeParameters);
    }
    vesting_period(start_time, end_time)?;
    Ok(
        (
            Vesting {
                owner,
                token_mint,
                amount,
                start_time,
                end_time,
                target_market_cap,
                is_locked: true,
                bump,
            },
            VestingInitialized { owner, amount, start_time, end_time },
        ),
    )
}

/// Accepts the grant's tokens: exactly the grant's amount, while the grant
/// is locked.
pub fn lock_tokens_for_vesting(
    vesting: &Vesting,
    owner: &Address,
    vesting_account: Address,
    amount: u64,
) -> (r: Result<VestingTokensLocked, CustomError>)
    ensures
        match spec_lock_tokens_for_vesting(*vesting, *owner, amount) {
            Ok(_) => r == Ok::<VestingTokensLocked, CustomError>(
                VestingTokensLocked { owner: vesting.owner, amount, vesting_account },
            ),
            Err(e) => r == Err::<VestingTokensLocked, CustomError>(e),
        },
{
    authorize(owner, &vesting.owner)?;
    if amount != vesting.amount {
        return Err(CustomError::InvalidVestingAmount);
    }
    if !vesting.is_locked {
        return Err(CustomError::TokensAlreadyUnlocked);
    }
    Ok(VestingTokensLocked { owner: vesting.owner, amount, vesting_account })
}

/// Unlocks the grant once its period has ended and the market capitalisation
/// has reached the target. A grant unlocks once.
pub fn unlock_vested_tokens(
    vesting: &mut Vesting,
    owner: &Address,
    current_market_cap: u64,
    current_time: i64,
) -> (r: Result<VestingTokensUnlocked, CustomError>)
    ensures
        match spec_unlock_vested_tokens(*old(vesting), *owner, current_market_cap, current_time) {
            Ok(_) => r == Ok::<VestingTokensUnlocked, CustomError>(
                VestingTokensUnlocked {
                    owner: old(vesting).owner,
                    amount: old(vesting).amount,
                    timestamp: current_time,
                },
            ) && *final(vesting) == (Vesting { is_locked: false, ..*old(vesting) }),
            Err(e) => r == Err::<VestingTokensUnlocked, CustomError>(e) && *final(vesting) == *old(
                vesting,
            ),
        },
{
    authorize(owner, &vesting.owner)?;
    if !vesting.is_locked {
        return Err(CustomError::TokensAlreadyUnlocked);
    }
    if current_time < vesting.end_time {
        return Err(CustomError::VestingPeriodNotEnded);
    }
    if current_market_cap < vesting.target_market_cap {
        return Err(CustomError::MarketCapNotReached);
    }
    vesting.is_locked = false;
    Ok(
        VestingTokensUnlocked {
            owner: vesting.owner,
            amount: vesting.amount,
            timestamp: current_time,
        },
    )
}

} // verus!
