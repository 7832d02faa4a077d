//! Fixed-point value math: basis points, decimal exponents and the
//! precision divisor, all through checked 192-bit intermediates.
use crate::error::LendingError;
use crate::wide::{mul_div_wide, wide_mul_div};
use vstd::prelude::*;

verus! {

/// Basis-point scale.
pub const BASIS_POINTS_DIVISOR: u128 = 10_000;

/// Divisor that keeps asset values within 128 bits.
pub const PRECISION_DIVISOR: u128 = 1_000_000_000_000;

/// An oracle reading: the value of one whole token is `price · 10^expo`.
#[derive(Debug, Clone, Copy, PartialEq, Eq, Structural)]
pub struct Price {
    pub price: i64,
    pub conf: u64,
    pub expo: i32,
    pub publish_time: i64,
}

pub open spec fn pow10(k: nat) -> nat
    decreases k,
{
    if k == 0 {
        1
    } else {
        10 * pow10((k - 1) as nat)
    }
}

proof fn lemma_pow10_grows(i: nat, k: nat)
    requires
        i <= k,
    ensures
        pow10(i) <= pow10(k),
        pow10(k) >= 1,
    decreases k,
{
    if k > 0 {
        if i < k {
            lemma_pow10_grows(i, (k - 1) as nat);
        } else {
            lemma_pow10_grows(0, (k - 1) as nat);
        }
    }
}

/// `10^k` when it fits in 128 bits.
pub open spec fn pow10_u128(k: nat) -> Option<u128> {
    if pow10(k) <= u128::MAX {
        Some(pow10(k) as u128)
    } else {
        None
    }
}

/// Computes `10^k`, or `None` when it does not fit in 128 bits.
pub fn checked_pow10(k: u32) -> (r: Option<u128>)
    ensures
        r == pow10_u128(k as nat),
{
    let mut acc: u128 = 1;
    let mut i: u32 = 0;
    while i < k
        invariant
            i <= k,
            acc as nat == pow10(i as nat),
        decreases k - i,
    {
        if acc > u128::MAX / 10 {
            proof {
                lemma_pow10_grows((i + 1) as nat, k as nat);
            }
            return None;
        }
        acc = acc * 10;
        i = i + 1;
    }
    Some(acc)
}

/// The absolute value of an exponent.
pub open spec fn expo_magnitude(expo: i32) -> nat {
    if expo >= 0 {
        expo as nat
    } else {
        (-expo) as nat
    }
}

fn expo_abs(expo: i32) -> (r: u32)
    ensures
        r as nat == expo_magnitude(expo),
{
    if expo >= 0 {
        expo as u32
    } else {
        ((-(expo as i64)) as u32)
    }
}

/// `x` when present, `MathOverflow` otherwise.
pub open spec fn or_overflow(x: Option<u128>) -> Result<u128, LendingError> {
    match x {
        Some(v) => Ok(v),
        None => Err(LendingError::MathOverflow),
    }
}

/// Value of `amount` token units at `price`:
/// `amount · price · 10^expo / P`, with the power dividing before the final
/// division by `P` when `expo < 0`. Negative prices, powers beyond 128 bits and
/// any overflow of the 192-bit intermediates are `MathOverflow`.
pub open spec fn asset_value(amount: u64, price: Price) -> Result<u128, LendingError> {
    if price.price < 0 {
        Err(LendingError::MathOverflow)
    } else {
        match pow10_u128(expo_magnitude(price.expo)) {
            None => Err(LendingError::MathOverflow),
            Some(p) => if price.expo >= 0 {
                or_overflow(
                    wide_mul_div(amount as int, price.price as int, p as int, PRECISION_DIVISOR as int, 1),
                )
            } else {
                or_overflow(
                    wide_mul_div(amount as int, price.price as int, 1, p as int, PRECISION_DIVISOR as int),
                )
            },
        }
    }
}

/// The structural inverse of [`asset_value`]: `value · P / 10^expo / price`
/// (the power multiplies when `expo < 0`), failing with `MathOverflow` on a
/// negative or zero price, an overflow, or a result beyond 64 bits.
pub open spec fn amount_from_value(value: u128, price: Price) -> Result<u64, LendingError> {
    if price.price < 0 {
        Err(LendingError::MathOverflow)
    } else {
        match pow10_u128(expo_magnitude(price.expo)) {
            None => Err(LendingError::MathOverflow),
            Some(p) => {
                let q = if price.expo >= 0 {
                    wide_mul_div(value as int, PRECISION_DIVISOR as int, 1, p as int, price.price as int)
                } else {
                    wide_mul_div(value as int, PRECISION_DIVISOR as int, p as int, price.price as int, 1)
                };
                match q {
                    None => Err(LendingError::MathOverflow),
                    Some(v) => if v > u64::MAX {
                        Err(LendingError::MathOverflow)
                    } else {
                        Ok(v as u64)
                    },
                }
            },
        }
    }
}

/// `value · bps / 10_000`, checked.
pub open spec fn bps_of(value: u128, bps: u128) -> Result<u128, LendingError> {
    or_overflow(wide_mul_div(value as int, bps as int, 1, BASIS_POINTS_DIVISOR as int, 1))
}

fn pow10_of(expo: i32) -> (r: Result<u128, LendingError>)
    ensures
        r == (match pow10_u128(expo_magnitude(expo)) {
            Some(p) => Ok::<u128, LendingError>(p),
            None => Err(LendingError::MathOverflow),
        }),
{
    match checked_pow10(expo_abs(expo)) {
        Some(p) => Ok(p),
        None => Err(LendingError::MathOverflow),
    }
}

fn overflow_checked(x: Option<u128>) -> (r: Result<u128, LendingError>)
    ensures
        r == or_overflow(x),
{
    match x {
        Some(v) => Ok(v),
        None => Err(LendingError::MathOverflow),
    }
}

/// Value of `amount` at `price`, in precision units.
pub fn calculate_asset_value(amount: u64, price: Price) -> (r: Result<u128, LendingError>)
    ensures
        r == asset_value(amount, price),
{
    if price.price < 0 {
        return Err(LendingError::MathOverflow);
    }
    let p = pow10_of(price.expo)?;
    let px = price.price as u128;
    if price.expo >= 0 {
        overflow_checked(mul_div_wide(amount as u128, px, p, PRECISION_DIVISOR, 1))
    } else {
        overflow_checked(mul_div_wide(amount as u128, px, 1, p, PRECISION_DIVISOR))
    }
}

/// Token units worth `value` at `price`.
pub fn calculate_amount_from_value(value: u128, price: Price) -> (r: Result<u64, LendingError>)
    ensures
        r == amount_from_value(value, price),
{
    if price.price < 0 {
        return Err(LendingError::MathOverflow);
    }
    let p = pow10_of(price.expo)?;
    let px = price.price as u128;
    let q = if price.expo >= 0 {
        mul_div_wide(value, PRECISION_DIVISOR, 1, p, px)
    } else {
        mul_div_wide(value, PRECISION_DIVISOR, p, px, 1)
    };
    match q {
        None => Err(LendingError::MathOverflow),
        Some(v) => if v > u64::MAX as u128 {
            Err(LendingError::MathOverflow)
        } else {
            Ok(v as u64)
        },
    }
}

/// `value · bps / 10_000` through the 192-bit domain.
pub fn apply_bps(value: u128, bps: u128) -> (r: Result<u128, LendingError>)
    ensures
        r == bps_of(value, bps),
{
    overflow_checked(mul_div_wide(value, bps, 1, BASIS_POINTS_DIVISOR, 1))
}

} // verus!
