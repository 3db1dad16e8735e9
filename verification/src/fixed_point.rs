//! Fixed-point arithmetic over rates scaled by one billion.

use vstd::prelude::*;

verus! {

/// The scale of every rate: a rate of `SCALE` stands for the ratio 1:1.
pub const SCALE: u64 = 1_000_000_000;

/// The quotient `floor(a * b / d)` over the mathematical integers.
pub open spec fn mul_div_floor(a: int, b: int, d: int) -> int
    recommends
        d > 0,
{
    (a * b) / d
}

/// Computes `floor(a * b / d)` through a double-width intermediate.
///
/// Returns `None` exactly when the divisor is zero or the quotient does not
/// fit in 64 bits.
pub fn mul_div(a: u64, b: u64, d: u64) -> (r: Option<u64>)
    ensures
        r is Some <==> (d > 0 && mul_div_floor(a as int, b as int, d as int) <= u64::MAX),
        r is Some ==> r->0 as int == mul_div_floor(a as int, b as int, d as int),
{
    if d == 0 {
        return None;
    }
    assert((a as int) * (b as int) <= 0xFFFF_FFFF_FFFF_FFFF * 0xFFFF_FFFF_FFFF_FFFF) by (nonlinear_arith)
        requires
            0 <= a <= 0xFFFF_FFFF_FFFF_FFFF,
            0 <= b <= 0xFFFF_FFFF_FFFF_FFFF,
    ;
    let wide: u128 = (a as u128) * (b as u128);
    let q: u128 = wide / (d as u128);
    if q > u64::MAX as u128 {
        None
    } else {
        Some(q as u64)
    }
}

/// The derivative tokens that `amount` of the base asset is worth at `rate`:
/// `floor(amount * 1e9 / rate)`.
pub open spec fn derivative_for(amount: int, rate: int) -> int
    recommends
        rate > 0,
{
    mul_div_floor(amount, SCALE as int, rate)
}

/// The base asset that `amount` is worth once `rate` is applied to it:
/// `floor(amount * rate / 1e9)`.
pub open spec fn base_for(amount: int, rate: int) -> int {
    mul_div_floor(amount, rate, SCALE as int)
}

/// Converts an amount of the base asset into derivative tokens at `rate`.
///
/// Returns `None` exactly when the rate is zero or the result does not fit
/// in 64 bits.
pub fn to_derivative(amount: u64, rate: u64) -> (r: Option<u64>)
    ensures
        r is Some <==> (rate > 0 && derivative_for(amount as int, rate as int) <= u64::MAX),
        r is Some ==> r->0 as int == derivative_for(amount as int, rate as int),
{
    mul_div(amount, SCALE, rate)
}

/// Applies `rate` to an amount to get its worth in the base asset.
///
/// Returns `None` exactly when the result does not fit in 64 bits.
pub fn to_base(amount: u64, rate: u64) -> (r: Option<u64>)
    ensures
        r is Some <==> base_for(amount as int, rate as int) <= u64::MAX,
        r is Some ==> r->0 as int == base_for(amount as int, rate as int),
{
    mul_div(amount, rate, SCALE)
}

} // verus!
