//! The bonding curve: prices under four formulas, and the pool's reserves.

use vstd::prelude::*;
use crate::error::{calculation, CustomError};
use crate::math::{
    checked_add, checked_div, checked_mul, checked_sub, lemma_product_fits, lemma_quotient_bounds,
    narrow,
};

verus! {

/// The scale of slopes, exponents and midpoints: one unit is 1/10000.
pub const BASIS_POINTS: u16 = 10000;

/// The formula that a curve prices with.
#[derive(Clone, Copy, Debug, PartialEq, Eq, Structural)]
pub enum CurveType {
    Linear,
    Exponential,
    Sigmoid,
    Custom,
}

/// One pool: the parameters that shape its prices and the balances it holds.
///
/// `shape_params` holds the slope, the exponent and the midpoint, in this
/// order; each formula reads the ones it needs.
#[derive(Clone, Copy, Debug, PartialEq, Eq)]
pub struct Curve {
    pub curve_type: CurveType,
    /// Shapes the price; set at creation and never changed by a trade.
    pub virtual_base_reserve: u64,
    /// Shapes the price; set at creation and never changed by a trade.
    pub virtual_quote_reserve: u64,
    /// The base asset that the pool holds.
    pub real_base_reserve: u64,
    /// The quote asset that the pool holds: the most that a sale can pay.
    pub real_quote_reserve: u64,
    /// The virtual quote reserve as it was at creation.
    pub initial_virtual_quote_reserve: u64,
    /// Slope, exponent and midpoint.
    pub shape_params: [u64; 3],
}

/// An amount charged to the buyer: the exact total where the formula is
/// defined and the total fits 64 bits.
pub open spec fn charged(defined: bool, total: int) -> Result<u64, CustomError> {
    if defined && 0 <= total <= u64::MAX {
        Ok(total as u64)
    } else {
        Err(CustomError::CalculationError)
    }
}

/// An amount paid to the seller: the exact total where the formula is defined
/// and the total is not negative, but never more than the pool holds.
pub open spec fn paid_out(defined: bool, total: int, reserve: u64) -> Result<u64, CustomError> {
    if defined && 0 <= total {
        Ok((if total <= reserve { total } else { reserve as int }) as u64)
    } else {
        Err(CustomError::CalculationError)
    }
}

/// A reserve after a signed change, where the result is a 64-bit amount.
pub open spec fn spec_apply_delta(reserve: u64, delta: i64) -> Result<u64, CustomError> {
    if 0 <= reserve + delta <= u64::MAX {
        Ok((reserve + delta) as u64)
    } else {
        Err(CustomError::CalculationError)
    }
}

impl Curve {
    pub open spec fn slope(&self) -> int {
        self.shape_params[0] as int
    }

    pub open spec fn exponent(&self) -> int {
        self.shape_params[1] as int
    }

    pub open spec fn midpoint(&self) -> int {
        self.shape_params[2] as int
    }

    /// A curve can price once both virtual reserves are positive.
    pub open spec fn wf(&self) -> bool {
        self.virtual_base_reserve > 0 && self.virtual_quote_reserve > 0
    }

    /// `virtual_quote · amount / virtual_base`, rounded down.
    pub open spec fn base_price(&self, amount: u64) -> int {
        (self.virtual_quote_reserve * amount) / (self.virtual_base_reserve as int)
    }

    /// `amount · slope / 10000`, rounded down.
    pub open spec fn linear_factor(&self, amount: u64) -> int {
        (amount * self.slope()) / 10000
    }

    /// `(amount · exponent / 10000)²`, the quotient rounded down.
    pub open spec fn exponential_factor(&self, amount: u64) -> int {
        ((amount * self.exponent()) / 10000) * ((amount * self.exponent()) / 10000)
    }

    /// `amount · slope · exponent / (midpoint · 10000)`, rounded down.
    pub open spec fn custom_factor(&self, amount: u64) -> int {
        (amount * self.slope() * self.exponent()) / (self.midpoint() * 10000)
    }

    /// The custom surcharge exists where the midpoint is positive and the
    /// triple product fits the wide domain.
    pub open spec fn custom_defined(&self, amount: u64) -> bool {
        self.midpoint() > 0 && amount * self.slope() * self.exponent() <= u128::MAX
    }

    /// The trade size relative to the pool: `amount · 10000 / virtual_base`.
    pub open spec fn sigmoid_x(&self, amount: u64) -> int {
        (amount * 10000) / (self.virtual_base_reserve as int)
    }

    /// `x · 10000 / (x + midpoint)`, rounded down.
    pub open spec fn sigmoid_weight(x: int, midpoint: int) -> int {
        (x * 10000) / (x + midpoint)
    }

    /// `virtual_quote · amount · weight`, before the division.
    pub open spec fn sigmoid_numerator(&self, amount: u64) -> int {
        self.virtual_quote_reserve * amount * Self::sigmoid_weight(
            self.sigmoid_x(amount),
            self.midpoint(),
        )
    }

    /// `virtual_quote · amount · weight / (virtual_base · 10000)`, rounded down.
    pub open spec fn sigmoid_price(&self, amount: u64) -> int {
        self.sigmoid_numerator(amount) / (self.virtual_base_reserve * 10000)
    }

    /// The sigmoid price exists where the weight's divisor is positive and the
    /// numerator fits the wide domain.
    pub open spec fn sigmoid_defined(&self, amount: u64) -> bool {
        self.sigmoid_x(amount) + self.midpoint() > 0 && self.sigmoid_numerator(amount) <= u128::MAX
    }

    /// Whether the selected formula has a value for this amount.
    pub open spec fn pricing_defined(&self, amount: u64) -> bool {
        self.virtual_base_reserve > 0 && match self.curve_type {
            CurveType::Linear => true,
            CurveType::Exponential => true,
            CurveType::Sigmoid => self.sigmoid_defined(amount),
            CurveType::Custom => self.custom_defined(amount),
        }
    }

    /// What the selected formula charges for `amount` of the base asset.
    pub open spec fn buy_total(&self, amount: u64) -> int {
        match self.curve_type {
            CurveType::Linear => self.base_price(amount) + self.linear_factor(amount),
            CurveType::Exponential => self.base_price(amount) + self.exponential_factor(amount),
            CurveType::Sigmoid => self.sigmoid_price(amount),
            CurveType::Custom => self.base_price(amount) + self.custom_factor(amount),
        }
    }

    /// What the selected formula pays for `amount` of the base asset, before
    /// the clamp to the pool's balance.
    pub open spec fn sell_total(&self, amount: u64) -> int {
        match self.curve_type {
            CurveType::Linear => self.base_price(amount) - self.linear_factor(amount),
            CurveType::Exponential => self.base_price(amount) - self.exponential_factor(amount),
            CurveType::Sigmoid => self.sigmoid_price(amount),
            CurveType::Custom => self.base_price(amount) - self.custom_factor(amount),
        }
    }

    /// The quote-asset amount charged for buying `amount`.
    pub open spec fn spec_calculate_buy_price(&self, amount: u64) -> Result<u64, CustomError> {
        if amount == 0 {
            Err(CustomError::InvalidAmount)
        } else {
            charged(self.pricing_defined(amount), self.buy_total(amount))
        }
    }

    /// The quote-asset amount paid for selling `amount`.
    pub open spec fn spec_calculate_sell_price(&self, amount: u64) -> Result<u64, CustomError> {
        if amount == 0 {
            Err(CustomError::InvalidAmount)
        } else {
            paid_out(self.pricing_defined(amount), self.sell_total(amount), self.real_quote_reserve)
        }
    }

    /// The curve after both reserves took their signed change.
    pub open spec fn spec_update_reserves(&self, quote_delta: i64, base_delta: i64) -> Result<
        Curve,
        CustomError,
    > {
        match (
            spec_apply_delta(self.real_quote_reserve, quote_delta),
            spec_apply_delta(self.real_base_reserve, base_delta),
        ) {
            (Ok(quote), Ok(base)) => Ok(
                Curve { real_quote_reserve: quote, real_base_reserve: base, ..*self },
            ),
            _ => Err(CustomError::CalculationError),
        }
    }
}

/// The sigmoid weight on wide values, with every step checked.
pub open spec fn spec_sigmoid(x: u128, midpoint: u128) -> Result<u128, CustomError> {
    if x * 10000 <= u128::MAX && 0 < x + midpoint <= u128::MAX {
        Ok(Curve::sigmoid_weight(x as int, midpoint as int) as u128)
    } else {
        Err(CustomError::CalculationError)
    }
}

/// Applies a signed change to a reserve: a checked addition for a positive
/// change, a checked subtraction of the magnitude for a negative one.
fn apply_delta(reserve: u64, delta: i64) -> (r: Result<u64, CustomError>)
    ensures
        r == spec_apply_delta(reserve, delta),
{
    if delta >= 0 {
        let sum: u128 = calculation(checked_add(reserve as u128, delta as u128))?;
        calculation(narrow(sum))
    } else {
        let magnitude: u128 = (-(delta as i128)) as u128;
        let rest: u128 = calculation(checked_sub(reserve as u128, magnitude))?;
        calculation(narrow(rest))
    }
}

impl Curve {
    /// A curve before `initialize`: every number zero, the formula linear.
    /// It prices nothing, because its virtual base reserve is zero.
    pub fn new() -> (c: Curve)
        ensures
            c == (Curve {
                curve_type: CurveType::Linear,
                virtual_base_reserve: 0,
                virtual_quote_reserve: 0,
                real_base_reserve: 0,
                real_quote_reserve: 0,
                initial_virtual_quote_reserve: 0,
                shape_params: [0, 0, 0],
            }),
    {
        Curve {
            curve_type: CurveType::Linear,
            virtual_base_reserve: 0,
            virtual_quote_reserve: 0,
            real_base_reserve: 0,
            real_quote_reserve: 0,
            initial_virtual_quote_reserve: 0,
            shape_params: [0, 0, 0],
        }
    }

    /// Sets the curve up for a pool. Both virtual reserves must be positive;
    /// otherwise the curve is left as it was. The pool starts with the whole
    /// virtual quote reserve on hand and no base asset.
    pub fn initialize(
        &mut self,
        curve_type: CurveType,
        virtual_base: u64,
        virtual_quote: u64,
        shape_params: [u64; 3],
    ) -> (r: Result<(), CustomError>)
        ensures
            virtual_base > 0 && virtual_quote > 0 ==> r.is_ok() && *final(self) == (Curve {
                curve_type,
                virtual_base_reserve: virtual_base,
                virtual_quote_reserve: virtual_quote,
                real_base_reserve: 0,
                real_quote_reserve: virtual_quote,
                initial_virtual_quote_reserve: virtual_quote,
                shape_params,
            }),
            !(virtual_base > 0 && virtual_quote > 0) ==> r == Err::<(), CustomError>(
                CustomError::InvalidCurveParameters,
            ) && *final(self) == *old(self),
            r.is_ok() ==> final(self).wf(),
    {
        if !(virtual_base > 0 && virtual_quote > 0) {
            return Err(CustomError::InvalidCurveParameters);
        }
        self.curve_type = curve_type;
        self.virtual_base_reserve = virtual_base;
        self.virtual_quote_reserve = virtual_quote;
        self.real_base_reserve = 0;
        self.real_quote_reserve = virtual_quote;
        self.initial_virtual_quote_reserve = virtual_quote;
        self.shape_params = shape_params;
        Ok(())
    }

    /// What buying `amount` of the base asset costs in the quote asset, under
    /// the curve's formula. Nothing is changed.
    pub fn calculate_buy_price(&self, amount: u64) -> (r: Result<u64, CustomError>)
        ensures
            r == self.spec_calculate_buy_price(amount),
            amount == 0 ==> r == Err::<u64, CustomError>(CustomError::InvalidAmount),
    {
        if amount == 0 {
            return Err(CustomError::InvalidAmount);
        }
        match self.curve_type {
            CurveType::Linear => self.calculate_linear_buy_price(amount),
            CurveType::Exponential => self.calculate_exponential_buy_price(amount),
            CurveType::Sigmoid => self.calculate_sigmoid_buy_price(amount),
            CurveType::Custom => self.calculate_custom_buy_price(amount),
        }
    }

    /// What selling `amount` of the base asset pays in the quote asset, under
    /// the curve's formula: never more than the pool holds. Nothing is
    /// changed.
    pub fn calculate_sell_price(&self, amount: u64) -> (r: Result<u64, CustomError>)
        ensures
            r == self.spec_calculate_sell_price(amount),
            amount == 0 ==> r == Err::<u64, CustomError>(CustomError::InvalidAmount),
            r.is_ok() ==> r.unwrap() <= self.real_quote_reserve,
    {
        if amount == 0 {
            return Err(CustomError::InvalidAmount);
        }
        match self.curve_type {
            CurveType::Linear => self.calculate_linear_sell_price(amount),
            CurveType::Exponential => self.calculate_exponential_sell_price(amount),
            CurveType::Sigmoid => self.calculate_sigmoid_sell_price(amount),
            CurveType::Custom => self.calculate_custom_sell_price(amount),
        }
    }

    /// The price before any surcharge, in the wide domain.
    fn calculate_base_price(&self, amount: u64) -> (r: Result<u128, CustomError>)
        ensures
            self.virtual_base_reserve > 0 ==> r == Ok::<u128, CustomError>(
                self.base_price(amount) as u128,
            ),
            self.virtual_base_reserve == 0 ==> r == Err::<u128, CustomError>(
                CustomError::CalculationError,
            ),
            0 <= self.base_price(amount) <= u128::MAX || self.virtual_base_reserve == 0,
    {
        proof {
            lemma_product_fits(self.virtual_quote_reserve, amount);
            if self.virtual_base_reserve > 0 {
                lemma_quotient_bounds(
                    self.virtual_quote_reserve * amount,
                    self.virtual_base_reserve as int,
                );
            }
        }
        let product: u128 = calculation(
            checked_mul(self.virtual_quote_reserve as u128, amount as u128),
        )?;
        calculation(checked_div(product, self.virtual_base_reserve as u128))
    }

    /// Clamps a sale's total to what the pool holds.
    fn clamp_to_reserve(&self, total: u128) -> (r: u64)
        ensures
            r == (if total <= self.real_quote_reserve {
                total
            } else {
                self.real_quote_reserve as u128
            }),
    {
        if total <= self.real_quote_reserve as u128 {
            total as u64
        } else {
            self.real_quote_reserve
        }
    }

    fn calculate_linear_buy_price(&self, amount: u64) -> (r: Result<u64, CustomError>)
        ensures
            r == charged(
                self.virtual_base_reserve > 0,
                self.base_price(amount) + self.linear_factor(amount),
            ),
    {
        let price: u128 = self.calculate_base_price(amount)?;
        proof {
            lemma_product_fits(amount, self.shape_params[0]);
            lemma_quotient_bounds(amount * self.slope(), 10000);
        }
        let scaled: u128 = calculation(checked_mul(amount as u128, self.shape_params[0] as u128))?;
        let linear_factor: u128 = calculation(checked_div(scaled, BASIS_POINTS as u128))?;
        let total_price: u128 = calculation(checked_add(price, linear_factor))?;
        calculation(narrow(total_price))
    }

    fn calculate_linear_sell_price(&self, amount: u64) -> (r: Result<u64, CustomError>)
        ensures
            r == paid_out(
                self.virtual_base_reserve > 0,
                self.base_price(amount) - self.linear_factor(amount),
                self.real_quote_reserve,
            ),
    {
        let base_price: u128 = self.calculate_base_price(amount)?;
        proof {
            lemma_product_fits(amount, self.shape_params[0]);
            lemma_quotient_bounds(amount * self.slope(), 10000);
        }
        let scaled: u128 = calculation(checked_mul(amount as u128, self.shape_params[0] as u128))?;
        let linear_factor: u128 = calculation(checked_div(scaled, BASIS_POINTS as u128))?;
        let total_price: u128 = calculation(checked_sub(base_price, linear_factor))?;
        Ok(self.clamp_to_reserve(total_price))
    }

    /// `(amount · exponent / 10000)²` in the wide domain, or the fact that
    /// the square does not fit it.
    fn calculate_exponential_factor(&self, amount: u64) -> (r: Result<u128, CustomError>)
        ensures
            self.exponential_factor(amount) <= u128::MAX ==> r == Ok::<u128, CustomError>(
                self.exponential_factor(amount) as u128,
            ),
            self.exponential_factor(amount) > u128::MAX ==> r == Err::<u128, CustomError>(
                CustomError::CalculationError,
            ),
            0 <= self.exponential_factor(amount),
    {
        proof {
            lemma_product_fits(amount, self.shape_params[1]);
            lemma_quotient_bounds(amount * self.exponent(), 10000);
        }
        let scaled: u128 = calculation(checked_mul(amount as u128, self.shape_params[1] as u128))?;
        let root: u128 = calculation(checked_div(scaled, BASIS_POINTS as u128))?;
        calculation(checked_mul(root, root))
    }

    fn calculate_exponential_buy_price(&self, amount: u64) -> (r: Result<u64, CustomError>)
        ensures
            r == charged(
                self.virtual_base_reserve > 0,
                self.base_price(amount) + self.exponential_factor(amount),
            ),
    {
        let base_price: u128 = self.calculate_base_price(amount)?;
        let exp_factor: u128 = self.calculate_exponential_factor(amount)?;
        let total_price: u128 = calculation(checked_add(base_price, exp_factor))?;
        calculation(narrow(total_price))
    }

    fn calculate_exponential_sell_price(&self, amount: u64) -> (r: Result<u64, CustomError>)
        ensures
            r == paid_out(
                self.virtual_base_reserve > 0,
                self.base_price(amount) - self.exponential_factor(amount),
                self.real_quote_reserve,
            ),
    {
        let base_price: u128 = self.calculate_base_price(amount)?;
        let exp_factor: u128 = self.calculate_exponential_factor(amount)?;
        let total_price: u128 = calculation(checked_sub(base_price, exp_factor))?;
        Ok(self.clamp_to_reserve(total_price))
    }

    /// The sigmoid price in the wide domain, shared by both directions.
    fn calculate_sigmoid_price(&self, amount: u64) -> (r: Result<u128, CustomError>)
        ensures
            self.virtual_base_reserve > 0 && self.sigmoid_defined(amount) ==> r == Ok::<
                u128,
                CustomError,
            >(self.sigmoid_price(amount) as u128),
            !(self.virtual_base_reserve > 0 && self.sigmoid_defined(amount)) ==> r == Err::<
                u128,
                CustomError,
            >(CustomError::CalculationError),
            self.virtual_base_reserve > 0 && self.sigmoid_defined(amount) ==> 0
                <= self.sigmoid_price(amount) <= u128::MAX,
    {
        let scaled: u128 = amount as u128 * BASIS_POINTS as u128;
        let x: u128 = calculation(checked_div(scaled, self.virtual_base_reserve as u128))?;
        proof {
            lemma_quotient_bounds(amount * 10000, self.virtual_base_reserve as int);
            lemma_product_fits(self.virtual_quote_reserve, amount);
        }
        let sigmoid: u128 = Self::sigmoid(x, self.shape_params[2] as u128)?;
        let product: u128 = calculation(
            checked_mul(self.virtual_quote_reserve as u128, amount as u128),
        )?;
        let numerator: u128 = calculation(checked_mul(product, sigmoid))?;
        let divisor: u128 = self.virtual_base_reserve as u128 * BASIS_POINTS as u128;
        proof {
            lemma_quotient_bounds(numerator as int, divisor as int);
        }
        calculation(checked_div(numerator, divisor))
    }

    fn calculate_sigmoid_buy_price(&self, amount: u64) -> (r: Result<u64, CustomError>)
        ensures
            r == charged(
                self.virtual_base_reserve > 0 && self.sigmoid_defined(amount),
                self.sigmoid_price(amount),
            ),
    {
        let price: u128 = self.calculate_sigmoid_price(amount)?;
        calculation(narrow(price))
    }

    fn calculate_sigmoid_sell_price(&self, amount: u64) -> (r: Result<u64, CustomError>)
        ensures
            r == paid_out(
                self.virtual_base_reserve > 0 && self.sigmoid_defined(amount),
                self.sigmoid_price(amount),
                self.real_quote_reserve,
            ),
    {
        let price: u128 = self.calculate_sigmoid_price(amount)?;
        Ok(self.clamp_to_reserve(price))
    }

    /// `amount · slope · exponent / (midpoint · 10000)` in the wide domain.
    fn calculate_custom_factor(&self, amount: u64) -> (r: Result<u128, CustomError>)
        ensures
            self.custom_defined(amount) ==> r == Ok::<u128, CustomError>(
                self.custom_factor(amount) as u128,
            ),
            !self.custom_defined(amount) ==> r == Err::<u128, CustomError>(
                CustomError::CalculationError,
            ),
            self.custom_defined(amount) ==> 0 <= self.custom_factor(amount) <= u128::MAX,
    {
        proof {
            lemma_product_fits(amount, self.shape_params[0]);
        }
        let sloped: u128 = calculation(checked_mul(amount as u128, self.shape_params[0] as u128))?;
        let numerator: u128 = calculation(checked_mul(sloped, self.shape_params[1] as u128))?;
        let divisor: u128 = self.shape_params[2] as u128 * BASIS_POINTS as u128;
        proof {
            if divisor > 0 {
                lemma_quotient_bounds(numerator as int, divisor as int);
            }
        }
        calculation(checked_div(numerator, divisor))
    }

    fn calculate_custom_buy_price(&self, amount: u64) -> (r: Result<u64, CustomError>)
        ensures
            r == charged(
                self.virtual_base_reserve > 0 && self.custom_defined(amount),
                self.base_price(amount) + self.custom_factor(amount),
            ),
    {
        let base_price: u128 = self.calculate_base_price(amount)?;
        let custom_factor: u128 = self.calculate_custom_factor(amount)?;
        let total_price: u128 = calculation(checked_add(base_price, custom_factor))?;
        calculation(narrow(total_price))
    }

    fn calculate_custom_sell_price(&self, amount: u64) -> (r: Result<u64, CustomError>)
        ensures
            r == paid_out(
                self.virtual_base_reserve > 0 && self.custom_defined(amount),
                self.base_price(amount) - self.custom_factor(amount),
                self.real_quote_reserve,
            ),
    {
        let base_price: u128 = self.calculate_base_price(amount)?;
        let custom_factor: u128 = self.calculate_custom_factor(amount)?;
        let total_price: u128 = calculation(checked_sub(base_price, custom_factor))?;
        Ok(self.clamp_to_reserve(total_price))
    }

    /// The weight `x · 10000 / (x + midpoint)`: fails where a step leaves the
    /// wide domain or the divisor is zero.
    fn sigmoid(x: u128, midpoint: u128) -> (r: Result<u128, CustomError>)
        ensures
            r == spec_sigmoid(x, midpoint),
    {
        let numerator: u128 = calculation(checked_mul(x, BASIS_POINTS as u128))?;
        let denominator: u128 = calculation(checked_add(x, midpoint))?;
        proof {
            if denominator > 0 {
                lemma_quotient_bounds(numerator as int, denominator as int);
            }
        }
        calculation(checked_div(numerator, denominator))
    }

    /// Commits a trade: adds the signed changes to the two real reserves.
    /// Either both reserves change or, where one of them would leave the
    /// 64-bit range, neither does.
    pub fn update_reserves(&mut self, quote_delta: i64, base_delta: i64) -> (r: Result<
        (),
        CustomError,
    >)
        ensures
            match old(self).spec_update_reserves(quote_delta, base_delta) {
                Ok(next) => r.is_ok() && *final(self) == next,
                Err(e) => r == Err::<(), CustomError>(e) && *final(self) == *old(self),
            },
            final(self).curve_type == old(self).curve_type,
            final(self).virtual_base_reserve == old(self).virtual_base_reserve,
            final(self).virtual_quote_reserve == old(self).virtual_quote_reserve,
            final(self).initial_virtual_quote_reserve == old(self).initial_virtual_quote_reserve,
            final(self).shape_params == old(self).shape_params,
    {
        let quote: u64 = apply_delta(self.real_quote_reserve, quote_delta)?;
        let base: u64 = apply_delta(self.real_base_reserve, base_delta)?;
        self.real_quote_reserve = quote;
        self.real_base_reserve = base;
        Ok(())
    }
}


/// A change that is committed and then committed again with the opposite
/// signs leaves the curve as it was, whenever the first step succeeds. With
/// `base_delta` zero this is a change of the quote reserve by `+d` and then
/// by `-d`.
pub proof fn lemma_update_reserves_round_trip(c: Curve, d: i64, base_delta: i64)
    requires
        d > i64::MIN,
        base_delta > i64::MIN,
        c.spec_update_reserves(d, base_delta).is_ok(),
    ensures
        c.spec_update_reserves(d, base_delta).unwrap().spec_update_reserves(
            (-d) as i64,
            (-base_delta) as i64,
        ) == Ok::<Curve, CustomError>(c),
{
}

/// Taking more from the quote reserve than it holds fails with
/// `CalculationError`, whatever the change to the base reserve.
pub proof fn lemma_update_reserves_underflow(c: Curve, d: i64, base_delta: i64)
    requires
        d > c.real_quote_reserve,
    ensures
        c.spec_update_reserves((-d) as i64, base_delta) == Err::<Curve, CustomError>(
            CustomError::CalculationError,
        ),
{
}

impl Default for Curve {
    /// The curve before `initialize`.
    fn default() -> (c: Curve)
        ensures
            c == (Curve {
                curve_type: CurveType::Linear,
                virtual_base_reserve: 0,
                virtual_quote_reserve: 0,
                real_base_reserve: 0,
                real_quote_reserve: 0,
                initial_virtual_quote_reserve: 0,
                shape_params: [0, 0, 0],
            }),
    {
        Curve::new()
    }
}

} // verus!
