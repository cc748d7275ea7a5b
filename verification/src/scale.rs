//! Scaling by a million within the 32-bit signed range.

use vstd::prelude::*;

verus! {

/// The factor by which the helper scales each element.
pub const SCALE: i32 = 1_000_000;

/// The largest magnitude whose product with [`SCALE`] still fits in an `i32`.
pub const SAFE_MAGNITUDE: i32 = 2147;

/// The product of `value` and the scale, as a mathematical integer.
pub open spec fn scaled(value: int) -> int {
    value * 1_000_000
}

/// Whether `n` lies in the 32-bit signed range.
pub open spec fn fits_i32(n: int) -> bool {
    i32::MIN <= n <= i32::MAX
}

/// Whether scaling `value` leaves the 32-bit signed range.
pub open spec fn overflows(value: int) -> bool {
    !fits_i32(scaled(value))
}

/// Scaling overflows exactly for the values of magnitude above 2147:
/// 2147 million is the last product below 2^31, and -2147 million the last
/// above -2^31.
pub proof fn lemma_overflow_threshold(value: int)
    ensures
        overflows(value) <==> (value < -2147 || value > 2147),
{
}

/// Tells from the value alone, without multiplying, whether scaling it
/// overflows.
pub fn scale_overflows(value: i32) -> (flag: bool)
    ensures
        flag == overflows(value as int),
{
    value < -SAFE_MAGNITUDE || value > SAFE_MAGNITUDE
}

/// Scales `value` by a million, or returns `None` where the product leaves the
/// 32-bit signed range.
pub fn checked_scale(value: i32) -> (product: Option<i32>)
    ensures
        overflows(value as int) <==> product is None,
        product matches Some(p) ==> p as int == scaled(value as int),
{
    value.checked_mul(SCALE)
}

} // verus!
