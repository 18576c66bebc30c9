//! Overflow-, underflow- and truncation-safe arithmetic on unsigned 64-bit
//! values, plus ceiling division for fee computation.
//!
//! No operation ever returns a wrapped or truncated value on out-of-range
//! input: every such condition is reported as a typed error.

use vstd::prelude::*;

use crate::errors::PolicyError;

verus! {

/// Mathematical ceiling of `a / b`, written with the identity
/// `ceil(a / b) == (a + b - 1) / b` for nonnegative `a` and positive `b`.
pub open spec fn div_ceil_spec(a: int, b: int) -> int
    recommends
        a >= 0,
        b >= 1,
{
    (a + b - 1) / b
}

/// The fee charged on `amount` at `bps` basis points: the ceiling of
/// `amount * bps / 10000`, so that no nonzero liable amount rounds to zero.
pub open spec fn bps_fee_spec(amount: int, bps: int) -> int
    recommends
        amount >= 0,
        bps >= 0,
{
    div_ceil_spec(amount * bps, 10000)
}

/// Add two balances, reporting `Overflow` instead of wrapping.
pub fn safe_add(a: u64, b: u64) -> (r: Result<u64, PolicyError>)
    ensures
        a + b <= u64::MAX ==> r == Ok::<u64, PolicyError>((a + b) as u64),
        a + b > u64::MAX ==> r == Err::<u64, PolicyError>(PolicyError::Overflow),
{
    if b <= u64::MAX - a {
        Ok(a + b)
    } else {
        Err(PolicyError::Overflow)
    }
}

/// Subtract `b` from `a`, reporting `InsufficientFunds` instead of wrapping
/// below zero.
pub fn safe_sub(a: u64, b: u64) -> (r: Result<u64, PolicyError>)
    ensures
        b <= a ==> r == Ok::<u64, PolicyError>((a - b) as u64),
        b > a ==> r == Err::<u64, PolicyError>(PolicyError::InsufficientFunds),
{
    if b <= a {
        Ok(a - b)
    } else {
        Err(PolicyError::InsufficientFunds)
    }
}

/// Multiply two values, reporting `Overflow` instead of wrapping.
pub fn safe_mul(a: u64, b: u64) -> (r: Result<u64, PolicyError>)
    ensures
        a * b <= u64::MAX ==> r == Ok::<u64, PolicyError>((a * b) as u64),
        a * b > u64::MAX ==> r == Err::<u64, PolicyError>(PolicyError::Overflow),
{
    proof {
        assert(a as int * b as int <= u64::MAX as int * u64::MAX as int) by (nonlinear_arith)
            requires
                a <= u64::MAX,
                b <= u64::MAX,
        ;
    }
    let wide: u128 = (a as u128) * (b as u128);
    if wide <= u64::MAX as u128 {
        Ok(wide as u64)
    } else {
        Err(PolicyError::Overflow)
    }
}

/// Divide `a` by `b`, reporting `DivisionByZero` for divisor zero.
pub fn safe_div(a: u64, b: u64) -> (r: Result<u64, PolicyError>)
    ensures
        b != 0 ==> r == Ok::<u64, PolicyError>((a as int / b as int) as u64),
        b == 0 ==> r == Err::<u64, PolicyError>(PolicyError::DivisionByZero),
{
    if b == 0 {
        Err(PolicyError::DivisionByZero)
    } else {
        Ok(a / b)
    }
}

/// Ceiling division `ceil(a / b)`, evaluated through checked operations:
/// divisor zero reports `DivisionByZero`, and an intermediate sum past the
/// 64-bit range reports `Overflow`.
pub fn ceil_div(a: u64, b: u64) -> (r: Result<u64, PolicyError>)
    ensures
        b == 0 ==> r == Err::<u64, PolicyError>(PolicyError::DivisionByZero),
        b >= 1 && a + b - 1 <= u64::MAX ==> r == Ok::<u64, PolicyError>(
            div_ceil_spec(a as int, b as int) as u64,
        ),
        b >= 1 && a + b - 1 > u64::MAX ==> r == Err::<u64, PolicyError>(PolicyError::Overflow),
{
    if b == 0 {
        return Err(PolicyError::DivisionByZero);
    }
    let numerator = match safe_add(a, b - 1) {
        Ok(n) => n,
        Err(e) => {
            return Err(e);
        },
    };
    Ok(numerator / b)
}

/// The basis-point fee `ceil(amount * bps / 10000)`: a checked multiply
/// followed by ceiling division, so the fee on any nonzero liable amount is
/// at least one unit.
pub fn calculate_bps_fee(amount: u64, bps: u16) -> (r: Result<u64, PolicyError>)
    ensures
        amount * bps + 9999 <= u64::MAX ==> r == Ok::<u64, PolicyError>(
            bps_fee_spec(amount as int, bps as int) as u64,
        ),
        amount * bps + 9999 > u64::MAX ==> r == Err::<u64, PolicyError>(PolicyError::Overflow),
{
    let numerator = match safe_mul(amount, bps as u64) {
        Ok(n) => n,
        Err(e) => {
            return Err(e);
        },
    };
    ceil_div(numerator, 10000)
}

/// Narrow a 64-bit value to 32 bits, reporting `CastOverflow` instead of
/// silently dropping the high bits.
pub fn narrow_cast_u32(a: u64) -> (r: Result<u32, PolicyError>)
    ensures
        a <= u32::MAX ==> r == Ok::<u32, PolicyError>(a as u32),
        a > u32::MAX ==> r == Err::<u32, PolicyError>(PolicyError::CastOverflow),
{
    if a <= u32::MAX as u64 {
        Ok(a as u32)
    } else {
        Err(PolicyError::CastOverflow)
    }
}

/// The round trip through a product and back: for any positive factor `b`,
/// ceiling division returns at least the other factor, and in fact exactly
/// recovers it.
pub proof fn lemma_ceil_div_recovers_factor(a: int, b: int)
    requires
        a >= 0,
        b >= 1,
    ensures
        div_ceil_spec(a * b, b) == a,
        div_ceil_spec(a * b, b) >= a,
{
    assert((a * b + b - 1) / b == a) by (nonlinear_arith)
        requires
            a >= 0,
            b >= 1,
    ;
}

} // verus!
