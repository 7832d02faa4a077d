use spl_math::uint::U192;
use vstd::prelude::*;

verus! {

/// 2^192, the range of the wide intermediate domain.
pub open spec fn wide_bound() -> int {
    (u64::MAX as int + 1) * (u128::MAX as int + 1)
}

/// `a · b · c / d / e` computed in 192 bits: `None` when a product leaves the
/// 192-bit range, a divisor is zero, or the quotient does not fit in 128 bits.
pub open spec fn wide_mul_div(a: int, b: int, c: int, d: int, e: int) -> Option<u128> {
    if a * b >= wide_bound() || a * b * c >= wide_bound() || d == 0 || e == 0
        || a * b * c / d / e > u128::MAX {
        None
    } else {
        Some((a * b * c / d / e) as u128)
    }
}

/// Relies on spl_math's `U192` (built by the uint crate): `checked_mul` is `None`
/// exactly when the product overflows 192 bits, `checked_div` is `None` exactly
/// for a zero divisor and otherwise the floor quotient, and `u128::try_from`
/// fails exactly when the value needs more than 128 bits.
#[verifier::external_body]
pub(crate) fn mul_div_wide(a: u128, b: u128, c: u128, d: u128, e: u128) -> (r: Option<u128>)
    ensures
        r == wide_mul_div(a as int, b as int, c as int, d as int, e as int),
{
    U192::from(a).checked_mul(U192::from(b))
        .and_then(|v| v.checked_mul(U192::from(c)))
        .and_then(|v| v.checked_div(U192::from(d)))
        .and_then(|v| v.checked_div(U192::from(e)))
        .and_then(|v| u128::try_from(v).ok())
}

} // verus!
