//! Trades against a pool, from the request to the record of what moved.
//!
//! Each operation here decides and commits in one step: it prices the trade,
//! checks it against the bound or balance that the caller states, and changes
//! the reserves. What it returns names the amounts to move. The caller moves
//! them before it stores the changed state; a failed operation has changed
//! nothing. The base asset of the curve is the token, its quote asset the
//! native coin.

use vstd::prelude::*;
use crate::curve::{Curve, CurveType};
use crate::error::CustomError;
use crate::identity::{authorize, spec_authorize, Address};

verus! {

/// A launch: the token on sale and the curve that prices it.
#[derive(Clone, Copy, Debug, PartialEq, Eq)]
pub struct TokenLaunch {
    pub creator: Address,
    pub mint: Address,
    pub total_supply: u64,
    pub curve: Curve,
    pub is_initialized: bool,
    pub bump: u8,
}

/// A launchpad: a curve with an authority and the fee settings.
#[derive(Clone, Copy, Debug, PartialEq, Eq)]
pub struct Launchpad {
    pub authority: Address,
    pub mint: Address,
    pub curve: Curve,
    pub fee_recipient: Address,
    pub withdraw_authority: Address,
    pub fee_basis_points: u64,
    pub bump: u8,
}

/// What describes a token to its holders.
#[derive(Clone, Debug, PartialEq, Eq)]
pub struct TokenMetadata {
    pub name: String,
    pub symbol: String,
    pub uri: String,
}

/// The record of a launch's creation.
#[derive(Clone, Copy, Debug, PartialEq, Eq)]
pub struct LaunchInitialized {
    pub creator: Address,
    pub mint: Address,
    pub total_supply: u64,
    pub timestamp: i64,
}

/// The record of a purchase: at `timestamp` the trader receives
/// `token_amount` and pays `sol_amount`.
#[derive(Clone, Copy, Debug, PartialEq, Eq)]
pub struct TokensPurchased {
    pub trader: Address,
    pub token_amount: u64,
    pub sol_amount: u64,
    pub timestamp: i64,
}

/// The record of a sale: at `timestamp` the trader gives `token_amount` and
/// receives `sol_amount`.
#[derive(Clone, Copy, Debug, PartialEq, Eq)]
pub struct TokensSold {
    pub trader: Address,
    pub token_amount: u64,
    pub sol_amount: u64,
    pub timestamp: i64,
}

/// The balances of the paying and the receiving account after a payment in
/// the native coin.
#[derive(Clone, Copy, Debug, PartialEq, Eq, Structural)]
pub struct Payment {
    pub amount: u64,
    pub source_balance: u64,
    pub destination_balance: u64,
}

/// A payment of `amount` between two balances, where the source covers it and
/// the destination stays within 64 bits.
pub open spec fn spec_pay(source: u64, destination: u64, amount: u64) -> Result<
    Payment,
    CustomError,
> {
    if amount <= source && destination + amount <= u64::MAX {
        Ok(
            Payment {
                amount,
                source_balance: (source - amount) as u64,
                destination_balance: (destination + amount) as u64,
            },
        )
    } else {
        Err(CustomError::CalculationError)
    }
}

/// The curve after a trade that changes the quote reserve by `quote_change`
/// and the base reserve by `base_change`. Each change is an amount of at most
/// `i64::MAX` with a sign; a larger one cannot be committed.
pub open spec fn spec_trade(curve: Curve, quote_change: int, base_change: int) -> Result<
    Curve,
    CustomError,
> {
    if i64::MIN < quote_change <= i64::MAX && i64::MIN < base_change <= i64::MAX {
        curve.spec_update_reserves(quote_change as i64, base_change as i64)
    } else {
        Err(CustomError::CalculationError)
    }
}

/// A purchase of `token_amount` whose price may not exceed `limit`: the
/// curve afterwards and the price.
pub open spec fn spec_purchase(curve: Curve, token_amount: u64, limit: u64) -> Result<
    (Curve, u64),
    CustomError,
> {
    match curve.spec_calculate_buy_price(token_amount) {
        Err(e) => Err(e),
        Ok(sol_amount) => if sol_amount > limit {
            Err(CustomError::InsufficientBalance)
        } else {
            match spec_trade(curve, sol_amount as int, -(token_amount as int)) {
                Err(e) => Err(e),
                Ok(next) => Ok((next, sol_amount)),
            }
        },
    }
}

/// A sale of `token_amount` whose proceeds must lie between `at_least` and
/// `at_most`, paid from `vault_balance` to `trader_balance`: the curve
/// afterwards and the payment.
pub open spec fn spec_sale(
    curve: Curve,
    token_amount: u64,
    at_least: u64,
    at_most: u64,
    vault_balance: u64,
    trader_balance: u64,
) -> Result<(Curve, Payment), CustomError> {
    match curve.spec_calculate_sell_price(token_amount) {
        Err(e) => Err(e),
        Ok(sol_amount) => if sol_amount < at_least || sol_amount > at_most {
            Err(CustomError::InsufficientBalance)
        } else {
            match spec_pay(vault_balance, trader_balance, sol_amount) {
                Err(e) => Err(e),
                Ok(payment) => match spec_trade(
                    curve,
                    -(sol_amount as int),
                    token_amount as int,
                ) {
                    Err(e) => Err(e),
                    Ok(next) => Ok((next, payment)),
                },
            }
        },
    }
}

/// An amount as a signed change of a reserve.
fn signed(amount: u64, negative: bool) -> (r: Result<i64, CustomError>)
    ensures
        amount <= i64::MAX ==> r == Ok::<i64, CustomError>(
            (if negative {
                -(amount as int)
            } else {
                amount as int
            }) as i64,
        ),
        amount > i64::MAX ==> r == Err::<i64, CustomError>(CustomError::CalculationError),
{
    if amount > i64::MAX as u64 {
        Err(CustomError::CalculationError)
    } else if negative {
        Ok(-(amount as i64))
    } else {
        Ok(amount as i64)
    }
}

/// Moves `amount` from one balance to another.
fn pay(source: u64, destination: u64, amount: u64) -> (r: Result<Payment, CustomError>)
    ensures
        r == spec_pay(source, destination, amount),
{
    if amount > source || destination > u64::MAX - amount {
        return Err(CustomError::CalculationError);
    }
    Ok(Payment { amount, source_balance: source - amount, destination_balance: destination + amount })
}

/// Prices a purchase, holds the price against the limit and commits it.
fn purchase(curve: &mut Curve, token_amount: u64, limit: u64) -> (r: Result<u64, CustomError>)
    ensures
        match spec_purchase(*old(curve), token_amount, limit) {
            Ok((next, sol_amount)) => r == Ok::<u64, CustomError>(sol_amount) && *final(curve)
                == next,
            Err(e) => r == Err::<u64, CustomError>(e) && *final(curve) == *old(curve),
        },
{
    let sol_amount: u64 = curve.calculate_buy_price(token_amount)?;
    if sol_amount > limit {
        return Err(CustomError::InsufficientBalance);
    }
    let quote_delta: i64 = signed(sol_amount, false)?;
    let base_delta: i64 = signed(token_amount, true)?;
    curve.update_reserves(quote_delta, base_delta)?;
    Ok(sol_amount)
}

/// Prices a sale, holds the proceeds against the two bounds, pays them out
/// of the vault's balance and commits the sale.
fn sale(
    curve: &mut Curve,
    token_amount: u64,
    at_least: u64,
    at_most: u64,
    vault_balance: u64,
    trader_balance: u64,
) -> (r: Result<Payment, CustomError>)
    ensures
        match spec_sale(*old(curve), token_amount, at_least, at_most, vault_balance, trader_balance) {
            Ok((next, payment)) => r == Ok::<Payment, CustomError>(payment) && *final(curve)
                == next,
            Err(e) => r == Err::<Payment, CustomError>(e) && *final(curve) == *old(curve),
        },
{
    let sol_amount: u64 = curve.calculate_sell_price(token_amount)?;
    if sol_amount < at_least || sol_amount > at_most {
        return Err(CustomError::InsufficientBalance);
    }
    let payment: Payment = pay(vault_balance, trader_balance, sol_amount)?;
    let quote_delta: i64 = signed(sol_amount, true)?;
    let base_delta: i64 = signed(token_amount, false)?;
    curve.update_reserves(quote_delta, base_delta)?;
    Ok(payment)
}

/// Creates a launch with its curve. Fails with `InvalidCurveParameters`
/// where a virtual reserve is zero.
pub fn initialize_launch(
    creator: Address,
    mint: Address,
    bump: u8,
    total_supply: u64,
    virtual_base: u64,
    virtual_quote: u64,
    curve_type: CurveType,
    shape_params: [u64; 3],
    timestamp: i64,
) -> (r: Result<(TokenLaunch, LaunchInitialized), CustomError>)
    ensures
        virtual_base > 0 && virtual_quote > 0 ==> r == Ok::<
            (TokenLaunch, LaunchInitialized),
            CustomError,
        >(
            (
                TokenLaunch {
                    creator,
                    mint,
                    total_supply,
                    curve: Curve {
                        curve_type,
                        virtual_base_reserve: virtual_base,
                        virtual_quote_reserve: virtual_quote,
                        real_base_reserve: 0,
                        real_quote_reserve: virtual_quote,
                        initial_virtual_quote_reserve: virtual_quote,
                        shape_params,
                    },
                    is_initialized: true,
                    bump,
                },
                LaunchInitialized { creator, mint, total_supply, timestamp },
            ),
        ),
        !(virtual_base > 0 && virtual_quote > 0) ==> r == Err::<
            (TokenLaunch, LaunchInitialized),
            CustomError,
        >(CustomError::InvalidCurveParameters),
{
    let mut curve: Curve = Curve::new();
    curve.initialize(curve_type, virtual_base, virtual_quote, shape_params)?;
    Ok(
        (
            TokenLaunch { creator, mint, total_supply, curve, is_initialized: true, bump },
            LaunchInitialized { creator, mint, total_supply, timestamp },
        ),
    )
}

/// Buys `amount` tokens for a trader who holds `trader_balance`. Fails with
/// `InsufficientBalance` where the price exceeds that balance.
pub fn buy_tokens(
    curve: &mut Curve,
    trader: Address,
    amount: u64,
    trader_balance: u64,
    timestamp: i64,
) -> (r: Result<TokensPurchased, CustomError>)
    ensures
        match spec_purchase(*old(curve), amount, trader_balance) {
            Ok((next, sol_amount)) => r == Ok::<TokensPurchased, CustomError>(
                TokensPurchased { trader, token_amount: amount, sol_amount, timestamp },
            ) && *final(curve) == next,
            Err(e) => r == Err::<TokensPurchased, CustomError>(e) && *final(curve) == *old(curve),
        },
{
    let sol_amount: u64 = purchase(curve, amount, trader_balance)?;
    Ok(TokensPurchased { trader, token_amount: amount, sol_amount, timestamp })
}

/// Sells `amount` tokens and pays the proceeds out of the vault. Fails with
/// `InsufficientBalance` where the vault holds less than the proceeds.
pub fn sell_tokens(
    curve: &mut Curve,
    trader: Address,
    amount: u64,
    vault_balance: u64,
    trader_balance: u64,
    timestamp: i64,
) -> (r: Result<(TokensSold, Payment), CustomError>)
    ensures
        match spec_sale(*old(curve), amount, 0, vault_balance, vault_balance, trader_balance) {
            Ok((next, payment)) => r == Ok::<(TokensSold, Payment), CustomError>(
                (TokensSold { trader, token_amount: amount, sol_amount: payment.amount, timestamp }, payment),
            ) && *final(curve) == next,
            Err(e) => r == Err::<(TokensSold, Payment), CustomError>(e) && *final(curve) == *old(
                curve,
            ),
        },
{
    let payment: Payment = sale(curve, amount, 0, vault_balance, vault_balance, trader_balance)?;
    Ok((TokensSold { trader, token_amount: amount, sol_amount: payment.amount, timestamp }, payment))
}

/// Buys `token_amount` tokens for at most `max_sol_cost`. Fails with
/// `InsufficientBalance` where the price exceeds that bound.
pub fn buy(
    curve: &mut Curve,
    trader: Address,
    token_amount: u64,
    max_sol_cost: u64,
    timestamp: i64,
) -> (r: Result<TokensPurchased, CustomError>)
    ensures
        match spec_purchase(*old(curve), token_amount, max_sol_cost) {
            Ok((next, sol_amount)) => r == Ok::<TokensPurchased, CustomError>(
                TokensPurchased { trader, token_amount, sol_amount, timestamp },
            ) && *final(curve) == next,
            Err(e) => r == Err::<TokensPurchased, CustomError>(e) && *final(curve) == *old(curve),
        },
{
    let sol_amount: u64 = purchase(curve, token_amount, max_sol_cost)?;
    Ok(TokensPurchased { trader, token_amount, sol_amount, timestamp })
}

/// Sells `token_amount` tokens for at least `min_sol_output`. Fails with
/// `InsufficientBalance` where the proceeds are below that bound, and with
/// `CalculationError` where the vault cannot pay them.
pub fn sell(
    curve: &mut Curve,
    trader: Address,
    token_amount: u64,
    min_sol_output: u64,
    vault_balance: u64,
    trader_balance: u64,
    timestamp: i64,
) -> (r: Result<(TokensSold, Payment), CustomError>)
    ensures
        match spec_sale(
            *old(curve),
            token_amount,
            min_sol_output,
            u64::MAX,
            vault_balance,
            trader_balance,
        ) {
            Ok((next, payment)) => r == Ok::<(TokensSold, Payment), CustomError>(
                (TokensSold { trader, token_amount, sol_amount: payment.amount, timestamp }, payment),
            ) && *final(curve) == next,
            Err(e) => r == Err::<(TokensSold, Payment), CustomError>(e) && *final(curve) == *old(
                curve,
            ),
        },
{
    let payment: Payment = sale(
        curve,
        token_amount,
        min_sol_output,
        u64::MAX,
        vault_balance,
        trader_balance,
    )?;
    Ok((TokensSold { trader, token_amount, sol_amount: payment.amount, timestamp }, payment))
}

/// What a withdrawal by `caller` gives: the launchpad with an empty quote
/// reserve and the payment of what the reserve held.
pub open spec fn spec_withdraw(
    launchpad: Launchpad,
    caller: Address,
    vault_balance: u64,
    recipient_balance: u64,
) -> Result<(Launchpad, Payment), CustomError> {
    match spec_authorize(caller, launchpad.authority) {
        Err(e) => Err(e),
        Ok(_) => match spec_pay(vault_balance, recipient_balance, launchpad.curve.real_quote_reserve) {
            Err(e) => Err(e),
            Ok(payment) => Ok(
                (
                    Launchpad {
                        curve: Curve { real_quote_reserve: 0, ..launchpad.curve },
                        ..launchpad
                    },
                    payment,
                ),
            ),
        },
    }
}

/// Pays the whole quote reserve out of the vault to the fee recipient and
/// sets the reserve to zero. Only the launchpad's authority may do this.
pub fn withdraw(
    launchpad: &mut Launchpad,
    caller: &Address,
    vault_balance: u64,
    recipient_balance: u64,
) -> (r: Result<Payment, CustomError>)
    ensures
        match spec_withdraw(*old(launchpad), *caller, vault_balance, recipient_balance) {
            Ok((next, payment)) => r == Ok::<Payment, CustomError>(payment) && *final(launchpad)
                == next,
            Err(e) => r == Err::<Payment, CustomError>(e) && *final(launchpad) == *old(launchpad),
        },
{
    authorize(caller, &launchpad.authority)?;
    let payment: Payment = pay(vault_balance, recipient_balance, launchpad.curve.real_quote_reserve)?;
    launchpad.curve.real_quote_reserve = 0;
    Ok(payment)
}

/// What `set_params` by `caller` gives: the launchpad with a new linear
/// curve and the new fee settings.
pub open spec fn spec_set_params(
    launchpad: Launchpad,
    caller: Address,
    fee_recipient: Address,
    withdraw_authority: Address,
    initial_virtual_base_reserves: u64,
    initial_virtual_quote_reserves: u64,
    initial_real_base_reserves: u64,
    fee_basis_points: u64,
) -> Result<Launchpad, CustomError> {
    if spec_authorize(caller, launchpad.authority).is_err() {
        Err(CustomError::UnauthorizedAccess)
    } else if initial_virtual_base_reserves == 0 || initial_virtual_quote_reserves == 0 {
        Err(CustomError::InvalidCurveParameters)
    } else {
        Ok(
            Launchpad {
                curve: Curve {
                    curve_type: CurveType::Linear,
                    virtual_base_reserve: initial_virtual_base_reserves,
                    virtual_quote_reserve: initial_virtual_quote_reserves,
                    real_base_reserve: initial_real_base_reserves,
                    real_quote_reserve: 0,
                    initial_virtual_quote_reserve: initial_virtual_quote_reserves,
                    shape_params: [0, 0, 0],
                },
                fee_recipient,
                withdraw_authority,
                fee_basis_points,
                ..launchpad
            },
        )
    }
}

/// Replaces the launchpad's curve by a linear one with the given reserves and
/// an empty quote reserve, and sets the fee recipient, the withdraw authority
/// and the fee. Only the launchpad's authority may do this, and both virtual
/// reserves must be positive.
pub fn set_params(
    launchpad: &mut Launchpad,
    caller: &Address,
    fee_recipient: Address,
    withdraw_authority: Address,
    initial_virtual_base_reserves: u64,
    initial_virtual_quote_reserves: u64,
    initial_real_base_reserves: u64,
    fee_basis_points: u64,
) -> (r: Result<(), CustomError>)
    ensures
        match spec_set_params(
            *old(launchpad),
            *caller,
            fee_recipient,
            withdraw_authority,
            initial_virtual_base_reserves,
            initial_virtual_quote_reserves,
            initial_real_base_reserves,
            fee_basis_points,
        ) {
            Ok(next) => r.is_ok() && *final(launchpad) == next && final(launchpad).curve.wf(),
            Err(e) => r == Err::<(), CustomError>(e) && *final(launchpad) == *old(launchpad),
        },
{
    authorize(caller, &launchpad.authority)?;
    if initial_virtual_base_reserves == 0 || initial_virtual_quote_reserves == 0 {
        return Err(CustomError::InvalidCurveParameters);
    }
    launchpad.curve = Curve {
        curve_type: CurveType::Linear,
        virtual_base_reserve: initial_virtual_base_reserves,
        virtual_quote_reserve: initial_virtual_quote_reserves,
        real_base_reserve: initial_real_base_reserves,
        real_quote_reserve: 0,
        initial_virtual_quote_reserve: initial_virtual_quote_reserves,
        shape_params: [0, 0, 0],
    };
    launchpad.fee_recipient = fee_recipient;
    launchpad.withdraw_authority = withdraw_authority;
    launchpad.fee_basis_points = fee_basis_points;
    Ok(())
}

/// Makes `user` the launchpad's authority.
pub fn initialize(launchpad: &mut Launchpad, user: Address)
    ensures
        *final(launchpad) == (Launchpad { authority: user, ..*old(launchpad) }),
{
    launchpad.authority = user;
}

/// Puts a token's description together.
pub fn create(name: String, symbol: String, uri: String) -> (r: TokenMetadata)
    ensures
        r.name == name,
        r.symbol == symbol,
        r.uri == uri,
{
    TokenMetadata { name, symbol, uri }
}

} // verus!
