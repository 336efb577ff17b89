//! A simpler pool that prices a trade by the ratio of the token's supply to
//! the coin it holds. Only the linear formula is defined.

use vstd::prelude::*;
use crate::error::{calculation, CustomError};
use crate::identity::Address;
use crate::math::{checked_add, checked_div, checked_mul, checked_sub, lemma_product_fits, narrow};

verus! {

/// The number that selects the linear formula.
pub const LINEAR: u8 = 0;

/// A pool: the token's supply, the two reserves and the formula's number.
#[derive(Clone, Copy, Debug, PartialEq, Eq)]
pub struct Curve {
    pub creator: Address,
    pub mint: Address,
    pub total_supply: u64,
    pub reserve_token: u64,
    pub reserve_sol: u64,
    pub curve_type: u8,
    pub custom_params: [u64; 3],
    pub bump: u8,
}

/// `amount · numerator / denominator`, rounded down, where the divisor is
/// not zero and the quotient fits 64 bits.
pub open spec fn spec_ratio(amount: u64, numerator: u64, denominator: u64) -> Result<
    u64,
    CustomError,
> {
    if denominator != 0 && (amount * numerator) / (denominator as int) <= u64::MAX {
        Ok(((amount * numerator) / (denominator as int)) as u64)
    } else {
        Err(CustomError::CalculationError)
    }
}

/// The tokens that `sol_amount` buys: `sol_amount · total_supply /
/// reserve_sol`. Every formula but the linear one is undefined.
pub open spec fn spec_calculate_tokens_out(curve: Curve, sol_amount: u64) -> Result<
    u64,
    CustomError,
> {
    if curve.curve_type == LINEAR {
        spec_ratio(sol_amount, curve.total_supply, curve.reserve_sol)
    } else {
        Err(CustomError::InvalidCurveParameters)
    }
}

/// The coin that `token_amount` sells for: `token_amount · reserve_sol /
/// total_supply`. Every formula but the linear one is undefined.
pub open spec fn spec_calculate_sol_out(curve: Curve, token_amount: u64) -> Result<
    u64,
    CustomError,
> {
    if curve.curve_type == LINEAR {
        spec_ratio(token_amount, curve.reserve_sol, curve.total_supply)
    } else {
        Err(CustomError::InvalidCurveParameters)
    }
}

/// The pool after `taken` left one reserve and `given` entered the other,
/// as the pair (reserve that shrank, reserve that grew).
pub open spec fn spec_swap(shrinking: u64, taken: u64, growing: u64, given: u64) -> Result<
    (u64, u64),
    CustomError,
> {
    if taken <= shrinking && growing + given <= u64::MAX {
        Ok(((shrinking - taken) as u64, (growing + given) as u64))
    } else {
        Err(CustomError::CalculationError)
    }
}

/// The pool after a purchase for `amount` of the coin, and the tokens bought.
pub open spec fn spec_buy_tokens(curve: Curve, amount: u64) -> Result<(Curve, u64), CustomError> {
    match spec_calculate_tokens_out(curve, amount) {
        Err(e) => Err(e),
        Ok(tokens_out) => match spec_swap(curve.reserve_token, tokens_out, curve.reserve_sol, amount) {
            Err(e) => Err(e),
            Ok((reserve_token, reserve_sol)) => Ok(
                (Curve { reserve_token, reserve_sol, ..curve }, tokens_out),
            ),
        },
    }
}

/// The pool after a sale of `amount` tokens, and the coin paid.
pub open spec fn spec_sell_tokens(curve: Curve, amount: u64) -> Result<(Curve, u64), CustomError> {
    match spec_calculate_sol_out(curve, amount) {
        Err(e) => Err(e),
        Ok(sol_out) => match spec_swap(curve.reserve_sol, sol_out, curve.reserve_token, amount) {
            Err(e) => Err(e),
            Ok((reserve_sol, reserve_token)) => Ok(
                (Curve { reserve_token, reserve_sol, ..curve }, sol_out),
            ),
        },
    }
}

fn ratio(amount: u64, numerator: u64, denominator: u64) -> (r: Result<u64, CustomError>)
    ensures
        r == spec_ratio(amount, numerator, denominator),
{
    proof {
        lemma_product_fits(amount, numerator);
    }
    let product: u128 = calculation(checked_mul(amount as u128, numerator as u128))?;
    let quotient: u128 = calculation(checked_div(product, denominator as u128))?;
    calculation(narrow(quotient))
}

fn swap(shrinking: u64, taken: u64, growing: u64, given: u64) -> (r: Result<(u64, u64), CustomError>)
    ensures
        r == spec_swap(shrinking, taken, growing, given),
{
    let rest: u128 = calculation(checked_sub(shrinking as u128, taken as u128))?;
    let sum: u128 = calculation(checked_add(growing as u128, given as u128))?;
    let sum: u64 = calculation(narrow(sum))?;
    Ok((rest as u64, sum))
}

/// Creates a pool that holds the whole supply and no coin.
pub fn initialize_launch(
    creator: Address,
    mint: Address,
    total_supply: u64,
    curve_type: u8,
    custom_params: [u64; 3],
    bump: u8,
) -> (curve: Curve)
    ensures
        curve == (Curve {
            creator,
            mint,
            total_supply,
            reserve_token: total_supply,
            reserve_sol: 0,
            curve_type,
            custom_params,
            bump,
        }),
{
    Curve {
        creator,
        mint,
        total_supply,
        reserve_token: total_supply,
        reserve_sol: 0,
        curve_type,
        custom_params,
        bump,
    }
}

/// The tokens that `sol_amount` of the coin buys. Fails with
/// `InvalidCurveParameters` for a formula other than the linear one and with
/// `CalculationError` where the pool holds no coin to divide by.
pub fn calculate_tokens_out(curve: &Curve, sol_amount: u64) -> (r: Result<u64, CustomError>)
    ensures
        r == spec_calculate_tokens_out(*curve, sol_amount),
{
    if curve.curve_type == LINEAR {
        ratio(sol_amount, curve.total_supply, curve.reserve_sol)
    } else {
        Err(CustomError::InvalidCurveParameters)
    }
}

/// The coin that `token_amount` tokens sell for. Fails with
/// `InvalidCurveParameters` for a formula other than the linear one and with
/// `CalculationError` where the supply is zero.
pub fn calculate_sol_out(curve: &Curve, token_amount: u64) -> (r: Result<u64, CustomError>)
    ensures
        r == spec_calculate_sol_out(*curve, token_amount),
{
    if curve.curve_type == LINEAR {
        ratio(token_amount, curve.reserve_sol, curve.total_supply)
    } else {
        Err(CustomError::InvalidCurveParameters)
    }
}

/// Buys tokens for `amount` of the coin: the tokens leave the pool, the coin
/// enters it. Returns the tokens bought. A failed purchase changes nothing.
pub fn buy_tokens(curve: &mut Curve, amount: u64) -> (r: Result<u64, CustomError>)
    ensures
        match spec_buy_tokens(*old(curve), amount) {
            Ok((next, tokens_out)) => r == Ok::<u64, CustomError>(tokens_out) && *final(curve)
                == next,
            Err(e) => r == Err::<u64, CustomError>(e) && *final(curve) == *old(curve),
        },
{
    let tokens_out: u64 = calculate_tokens_out(curve, amount)?;
    let (reserve_token, reserve_sol) = swap(curve.reserve_token, tokens_out, curve.reserve_sol, amount)?;
    curve.reserve_token = reserve_token;
    curve.reserve_sol = reserve_sol;
    Ok(tokens_out)
}

/// Sells `amount` tokens: the tokens enter the pool, the coin leaves it.
/// Returns the coin paid. A failed sale changes nothing.
pub fn sell_tokens(curve: &mut Curve, amount: u64) -> (r: Result<u64, CustomError>)
    ensures
        match spec_sell_tokens(*old(curve), amount) {
            Ok((next, sol_out)) => r == Ok::<u64, CustomError>(sol_out) && *final(curve) == next,
            Err(e) => r == Err::<u64, CustomError>(e) && *final(curve) == *old(curve),
        },
{
    let sol_out: u64 = calculate_sol_out(curve, amount)?;
    let (reserve_sol, reserve_token) = swap(curve.reserve_sol, sol_out, curve.reserve_token, amount)?;
    curve.reserve_token = reserve_token;
    curve.reserve_sol = reserve_sol;
    Ok(sol_out)
}

} // verus!
