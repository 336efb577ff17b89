//! Checked arithmetic on the wide unsigned domain.
//!
//! Every amount that crosses the public interface is a `u64`; every product
//! and quotient on the way is taken in `u128`. The four operations here never
//! wrap and never truncate: each returns the exact result or says why there
//! is none.

use vstd::prelude::*;

verus! {

/// Why a checked operation could not produce a value.
#[derive(Clone, Copy, Debug, PartialEq, Eq, Structural)]
pub enum ArithmeticError {
    /// The exact result is above `u128::MAX`.
    Overflow,
    /// The exact result is below zero.
    Underflow,
    /// The divisor is zero.
    DivisionByZero,
}

/// The exact sum, where it fits the wide domain.
pub open spec fn spec_checked_add(a: u128, b: u128) -> Result<u128, ArithmeticError> {
    if a + b <= u128::MAX {
        Ok((a + b) as u128)
    } else {
        Err(ArithmeticError::Overflow)
    }
}

/// The exact difference, where it is not negative.
pub open spec fn spec_checked_sub(a: u128, b: u128) -> Result<u128, ArithmeticError> {
    if b <= a {
        Ok((a - b) as u128)
    } else {
        Err(ArithmeticError::Underflow)
    }
}

/// The exact product, where it fits the wide domain.
pub open spec fn spec_checked_mul(a: u128, b: u128) -> Result<u128, ArithmeticError> {
    if a * b <= u128::MAX {
        Ok((a * b) as u128)
    } else {
        Err(ArithmeticError::Overflow)
    }
}

/// The quotient rounded toward zero, where the divisor is not zero.
pub open spec fn spec_checked_div(a: u128, b: u128) -> Result<u128, ArithmeticError> {
    if b != 0 {
        Ok((a / b) as u128)
    } else {
        Err(ArithmeticError::DivisionByZero)
    }
}

/// The value as an external amount, where it fits 64 bits.
pub open spec fn spec_narrow(a: u128) -> Result<u64, ArithmeticError> {
    if a <= u64::MAX {
        Ok(a as u64)
    } else {
        Err(ArithmeticError::Overflow)
    }
}

/// `a + b`, or `Overflow` where the sum exceeds `u128::MAX`.
pub fn checked_add(a: u128, b: u128) -> (r: Result<u128, ArithmeticError>)
    ensures
        r == spec_checked_add(a, b),
{
    if a <= u128::MAX - b {
        Ok(a + b)
    } else {
        Err(ArithmeticError::Overflow)
    }
}

/// `a - b`, or `Underflow` where `a` is smaller than `b`.
pub fn checked_sub(a: u128, b: u128) -> (r: Result<u128, ArithmeticError>)
    ensures
        r == spec_checked_sub(a, b),
{
    if b <= a {
        Ok(a - b)
    } else {
        Err(ArithmeticError::Underflow)
    }
}

/// `a * b`, or `Overflow` where the product exceeds `u128::MAX`.
pub fn checked_mul(a: u128, b: u128) -> (r: Result<u128, ArithmeticError>)
    ensures
        r == spec_checked_mul(a, b),
{
    if a == 0 || b == 0 {
        proof {
            assert(a * b == 0) by (nonlinear_arith)
                requires
                    a == 0 || b == 0,
            ;
        }
        return Ok(0);
    }
    let limit: u128 = u128::MAX / b;
    if a <= limit {
        proof {
            assert(a * b <= u128::MAX) by (nonlinear_arith)
                requires
                    b > 0,
                    a <= limit,
                    limit == u128::MAX / b,
            ;
        }
        Ok(a * b)
    } else {
        proof {
            assert(a * b > u128::MAX) by (nonlinear_arith)
                requires
                    b > 0,
                    a > limit,
                    limit == u128::MAX / b,
            ;
        }
        Err(ArithmeticError::Overflow)
    }
}

/// `a / b` rounded toward zero, or `DivisionByZero` where `b` is zero.
pub fn checked_div(a: u128, b: u128) -> (r: Result<u128, ArithmeticError>)
    ensures
        r == spec_checked_div(a, b),
{
    if b != 0 {
        Ok(a / b)
    } else {
        Err(ArithmeticError::DivisionByZero)
    }
}

/// The wide value as a 64-bit amount, or `Overflow` where it does not fit.
/// This is the only way back from the wide domain.
pub fn narrow(a: u128) -> (r: Result<u64, ArithmeticError>)
    ensures
        r == spec_narrow(a),
{
    if a <= u64::MAX as u128 {
        Ok(a as u64)
    } else {
        Err(ArithmeticError::Overflow)
    }
}

/// The product of two 64-bit amounts fits the wide domain.
pub proof fn lemma_product_fits(a: u64, b: u64)
    ensures
        0 <= a * b <= u128::MAX,
{
    assert(0 <= a * b <= 0xFFFF_FFFF_FFFF_FFFF * 0xFFFF_FFFF_FFFF_FFFF) by (nonlinear_arith)
        requires
            0 <= a <= 0xFFFF_FFFF_FFFF_FFFF,
            0 <= b <= 0xFFFF_FFFF_FFFF_FFFF,
    ;
}

/// A quotient of a non-negative number by a positive one lies between zero
/// and the number.
pub proof fn lemma_quotient_bounds(n: int, d: int)
    requires
        0 <= n,
        0 < d,
    ensures
        0 <= n / d <= n,
{
    assert(0 <= n / d <= n) by (nonlinear_arith)
        requires
            0 <= n,
            0 < d,
    ;
}

/// Scaling by a fraction of at most one does not increase a number:
/// `a · e / d ≤ a` where `0 ≤ e ≤ d` and `d > 0`.
pub proof fn lemma_fraction_bounds(a: int, e: int, d: int)
    requires
        0 <= a,
        0 <= e <= d,
        0 < d,
    ensures
        0 <= (a * e) / d <= a,
{
    assert(0 <= (a * e) / d <= a) by (nonlinear_arith)
        requires
            0 <= a,
            0 <= e <= d,
            0 < d,
    ;
}

/// A quotient grows with its numerator: `a / d ≤ b / d` where `a ≤ b` and
/// `d > 0`.
pub proof fn lemma_quotient_monotonic(a: int, b: int, d: int)
    requires
        a <= b,
        0 < d,
    ensures
        a / d <= b / d,
{
    assert(a / d <= b / d) by (nonlinear_arith)
        requires
            a <= b,
            0 < d,
    ;
}

} // verus!
