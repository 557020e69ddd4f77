//! Floored and ceiled integer division.

use vstd::prelude::*;
use num_integer::Integer;

verus! {

/// The floor of the quotient `a / b`, for `b != 0`: the greatest integer
/// `q` with `q * b <= a` when `b > 0`, and with `q * b >= a` when `b < 0`.
pub open spec fn floor_div(a: int, b: int) -> int {
    if b > 0 {
        a / b
    } else {
        (-a) / (-b)
    }
}

/// The ceiling of the quotient `a / b`, for `b != 0`.
pub open spec fn ceil_div(a: int, b: int) -> int {
    -floor_div(-a, b)
}

/// Calls `num_integer::Integer::div_floor` on `i32`, which divides and
/// rounds toward negative infinity. It panics where `b` is zero and where
/// the quotient `i32::MIN / -1` overflows, so those inputs are left out.
#[verifier::external_body]
pub fn div_floor(a: i32, b: i32) -> (q: i32)
    requires
        b != 0,
        !(a == i32::MIN && b == -1),
    ensures
        q == floor_div(a as int, b as int),
{
    Integer::div_floor(&a, &b)
}

/// Calls `num_integer::Integer::div_ceil` on `i32`, which divides and
/// rounds toward positive infinity. It panics where `b` is zero and where
/// the quotient `i32::MIN / -1` overflows, so those inputs are left out.
#[verifier::external_body]
pub fn div_ceil(a: i32, b: i32) -> (q: i32)
    requires
        b != 0,
        !(a == i32::MIN && b == -1),
    ensures
        q == ceil_div(a as int, b as int),
{
    Integer::div_ceil(&a, &b)
}

} // verus!
