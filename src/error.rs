//! The single error of this library: an arithmetic step that failed.
use vstd::prelude::*;

verus! {

/// Raised by any checked step that overflows, underflows, divides by zero or
/// fails to narrow.
#[derive(Debug, Clone, Copy, PartialEq, Eq, Structural)]
pub enum ErrorCode {
    MathError,
}

pub type ClearingHouseResult<T> = Result<T, ErrorCode>;

/// A computation that may fail, as the result an operation returns.
pub open spec fn or_math_error<T>(o: Option<T>) -> ClearingHouseResult<T> {
    match o {
        Some(v) => Ok(v),
        None => Err(ErrorCode::MathError),
    }
}

/// `x` as `i128`, when it fits.
pub open spec fn i128_of(x: int) -> Option<i128> {
    if i128::MIN <= x <= i128::MAX {
        Some(x as i128)
    } else {
        None
    }
}

/// `x` as `u128`, when it fits.
pub open spec fn u128_of(x: int) -> Option<u128> {
    if 0 <= x <= u128::MAX {
        Some(x as u128)
    } else {
        None
    }
}

/// Converts to `i128`, failing above `i128::MAX`.
pub fn cast_to_i128(x: u128) -> (r: ClearingHouseResult<i128>)
    ensures
        r == or_math_error(i128_of(x as int)),
{
    if x <= i128::MAX as u128 {
        Ok(x as i128)
    } else {
        Err(ErrorCode::MathError)
    }
}

/// Converts to `u128`, failing below zero.
pub fn cast_to_u128(x: i128) -> (r: ClearingHouseResult<u128>)
    ensures
        r == or_math_error(u128_of(x as int)),
{
    if x >= 0 {
        Ok(x as u128)
    } else {
        Err(ErrorCode::MathError)
    }
}

/// Magnitude of a signed amount.
pub fn unsigned_abs(x: i128) -> (r: u128)
    ensures
        r as int == (if x < 0 { -(x as int) } else { x as int }),
{
    if x >= 0 {
        x as u128
    } else {
        ((-(x + 1)) as u128) + 1
    }
}

} // verus!
