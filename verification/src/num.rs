//! Small integer helpers shared by the measurement arithmetic.

use vstd::prelude::*;

verus! {

/// Truncating division (rounds toward zero), matching the source-language
/// division operator on signed integers.
pub open spec fn spec_tdiv(a: int, b: int) -> int {
    if a >= 0 {
        a / b
    } else {
        -((-a) / b)
    }
}

/// Truncating division of a signed quantity by a positive divisor.
pub fn tdiv(a: i64, b: i64) -> (q: i64)
    requires
        b > 0,
        a > i64::MIN,
    ensures
        q == spec_tdiv(a as int, b as int),
{
    if a >= 0 {
        a / b
    } else {
        -((-a) / b)
    }
}

} // verus!
