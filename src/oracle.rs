//! Price adapter: a primary (Pyth) reading with a secondary (Chainlink)
//! fallback, each validated for freshness and sanity.
use crate::error::LendingError;
use crate::keys::Pubkey;
use crate::math::Price;
use crate::wide::mul_div_wide;
use vstd::prelude::*;

verus! {

/// A reading older than this many seconds is stale.
pub const STALE_PRICE_THRESHOLD_SECONDS: i64 = 60;

/// Largest accepted confidence interval, in basis points of the price.
pub const MAX_CONFIDENCE_INTERVAL_BPS: u64 = 300;

/// Size of a secondary feed record.
pub const CHAINLINK_FEED_LEN: usize = 64;

/// The fields of a decoded primary price record.
#[derive(Debug, Clone, Copy, PartialEq, Eq, Structural)]
pub struct PythQuote {
    pub price: i64,
    pub conf: u64,
    pub expo: i32,
    pub publish_time: i64,
    /// Whether the aggregate status is `Trading`.
    pub trading: bool,
}

/// Validation of a primary reading, in order: it decoded with status
/// `Trading`; `now − publish_time < 60`; `price > 0`;
/// `conf ≤ price · 300 / 10_000`.
pub open spec fn pyth_price(quote: Option<PythQuote>, now: i64) -> Result<Price, LendingError> {
    match quote {
        None => Err(LendingError::InvalidPythAccount),
        Some(q) => if !q.trading {
            Err(LendingError::InvalidPythAccount)
        } else if now - q.publish_time >= STALE_PRICE_THRESHOLD_SECONDS {
            Err(LendingError::PythPriceTooOld)
        } else if q.price <= 0 {
            Err(LendingError::InvalidPythPrice)
        } else if q.conf > q.price * 300 / 10_000 {
            Err(LendingError::PythConfidenceTooWide)
        } else {
            Ok(Price { price: q.price, conf: q.conf, expo: q.expo, publish_time: q.publish_time })
        },
    }
}

/// Little-endian value of `n` bytes of `s` from `off`.
pub open spec fn le_bytes(s: Seq<u8>, off: int, n: nat) -> nat
    decreases n,
{
    if n == 0 {
        0
    } else {
        s[off] as nat + 256 * le_bytes(s, off + 1, (n - 1) as nat)
    }
}

pub open spec fn pow256(n: nat) -> nat
    decreases n,
{
    if n == 0 {
        1
    } else {
        256 * pow256((n - 1) as nat)
    }
}

proof fn lemma_le_bytes_bound(s: Seq<u8>, off: int, n: nat)
    ensures
        le_bytes(s, off, n) < pow256(n),
    decreases n,
{
    if n > 0 {
        lemma_le_bytes_bound(s, off + 1, (n - 1) as nat);
        let b = s[off] as nat;
        let rest = le_bytes(s, off + 1, (n - 1) as nat);
        let p = pow256((n - 1) as nat);
        assert(b + 256 * rest < 256 * p) by (nonlinear_arith)
            requires b < 256, rest < p, rest + 1 <= p;
    }
}

/// A 64-bit two's-complement pattern read as a signed number.
pub open spec fn signed64(v: nat) -> int {
    if v <= i64::MAX {
        v as int
    } else {
        v - 0x1_0000_0000_0000_0000
    }
}

/// Secondary record layout: `description[32]`, `decimals: u8`, 7 bytes of
/// padding, `round: u64`, `answer: i64`, `timestamp: i64`, little-endian.
pub open spec fn chainlink_answer(data: Seq<u8>) -> int {
    signed64(le_bytes(data, 48, 8))
}

pub open spec fn chainlink_timestamp(data: Seq<u8>) -> int {
    signed64(le_bytes(data, 56, 8))
}

/// Validation of a secondary record: it is complete; `now − timestamp < 60`;
/// `answer > 0`. The reading has confidence 0 and exponent `−decimals`.
pub open spec fn chainlink_price(data: Seq<u8>, now: i64) -> Result<Price, LendingError> {
    if data.len() < CHAINLINK_FEED_LEN {
        Err(LendingError::InvalidChainlinkPrice)
    } else if now - chainlink_timestamp(data) >= STALE_PRICE_THRESHOLD_SECONDS {
        Err(LendingError::ChainlinkPriceTooOld)
    } else if chainlink_answer(data) <= 0 {
        Err(LendingError::InvalidChainlinkPrice)
    } else {
        Ok(
            Price {
                price: chainlink_answer(data) as i64,
                conf: 0,
                expo: -(data[32] as int) as i32,
                publish_time: chainlink_timestamp(data) as i64,
            },
        )
    }
}

/// Fail-over: the primary reading when valid, else the secondary when one is
/// configured and valid, else `AllOraclesFailed`.
pub open spec fn oracle_price(
    quote: Option<PythQuote>,
    secondary: Option<Seq<u8>>,
    now: i64,
) -> Result<Price, LendingError> {
    match pyth_price(quote, now) {
        Ok(p) => Ok(p),
        Err(_) => match secondary {
            Some(d) => match chainlink_price(d, now) {
                Ok(p) => Ok(p),
                Err(_) => Err(LendingError::AllOraclesFailed),
            },
            None => Err(LendingError::AllOraclesFailed),
        },
    }
}

/// Validates a decoded primary reading.
pub fn get_price_from_pyth(quote: Option<PythQuote>, now: i64) -> (r: Result<Price, LendingError>)
    ensures
        r == pyth_price(quote, now),
        r matches Ok(p) ==> p.price > 0,
{
    let q = match quote {
        None => return Err(LendingError::InvalidPythAccount),
        Some(q) => q,
    };
    if !q.trading {
        return Err(LendingError::InvalidPythAccount);
    }
    if now as i128 - q.publish_time as i128 >= STALE_PRICE_THRESHOLD_SECONDS as i128 {
        return Err(LendingError::PythPriceTooOld);
    }
    if q.price <= 0 {
        return Err(LendingError::InvalidPythPrice);
    }
    let magnitude = q.price as u128;
    let w = mul_div_wide(magnitude, MAX_CONFIDENCE_INTERVAL_BPS as u128, 1, 10_000, 1);
    proof {
        let m = magnitude as int;
        assert(m * 300 < crate::wide::wide_bound()) by (nonlinear_arith)
            requires 0 <= m <= i64::MAX;
        assert(m * 300 * 1 == m * 300);
        assert(m * 300 / 10_000 <= m * 300) by (nonlinear_arith)
            requires 0 <= m;
        assert(m * 300 / 10_000 / 1 == m * 300 / 10_000);
    }
    let max_conf = match w {
        Some(v) => v,
        None => return Err(LendingError::MathOverflow),
    };
    if q.conf as u128 > max_conf {
        return Err(LendingError::PythConfidenceTooWide);
    }
    Ok(Price { price: q.price, conf: q.conf, expo: q.expo, publish_time: q.publish_time })
}

fn read_u64_le(data: &[u8], off: usize) -> (r: u64)
    requires
        off + 8 <= data@.len(),
    ensures
        r as nat == le_bytes(data@, off as int, 8),
{
    let len = data.len();
    let mut acc: u64 = 0;
    let mut i: usize = 8;
    while i > 0
        invariant
            i <= 8,
            len == data@.len(),
            off + 8 <= data@.len(),
            acc as nat == le_bytes(data@, off + i, (8 - i) as nat),
        decreases i,
    {
        proof {
            lemma_le_bytes_bound(data@, off + i, (8 - i) as nat);
            reveal_with_fuel(pow256, 8);
            assert(pow256(7) == 0x100_0000_0000_0000);
            lemma_pow256_grows((8 - i) as nat, 7);
        }
        i = i - 1;
        acc = (data[off + i] as u64) + 256 * acc;
    }
    acc
}

proof fn lemma_pow256_grows(i: nat, k: nat)
    requires
        i <= k,
    ensures
        pow256(i) <= pow256(k),
    decreases k,
{
    if i < k {
        lemma_pow256_grows(i, (k - 1) as nat);
    }
}

fn to_signed(v: u64) -> (r: i64)
    ensures
        r as int == signed64(v as nat),
{
    if v <= i64::MAX as u64 {
        v as i64
    } else {
        ((v - 0x8000_0000_0000_0000u64) as i64) + i64::MIN
    }
}

/// Validates a secondary feed record.
pub fn get_price_from_chainlink(data: &[u8], now: i64) -> (r: Result<Price, LendingError>)
    ensures
        r == chainlink_price(data@, now),
        r matches Ok(p) ==> p.price > 0,
{
    if data.len() < CHAINLINK_FEED_LEN {
        return Err(LendingError::InvalidChainlinkPrice);
    }
    let timestamp = to_signed(read_u64_le(data, 56));
    let answer = to_signed(read_u64_le(data, 48));
    if now as i128 - timestamp as i128 >= STALE_PRICE_THRESHOLD_SECONDS as i128 {
        return Err(LendingError::ChainlinkPriceTooOld);
    }
    if answer <= 0 {
        return Err(LendingError::InvalidChainlinkPrice);
    }
    let decimals = data[32];
    Ok(Price { price: answer, conf: 0, expo: -(decimals as i32), publish_time: timestamp })
}

/// A validated price: the primary when it passes, else the secondary.
pub fn get_price(quote: Option<PythQuote>, secondary: Option<&[u8]>, now: i64) -> (r: Result<
    Price,
    LendingError,
>)
    ensures
        r == oracle_price(
            quote,
            match secondary {
                Some(d) => Some(d@),
                None => None,
            },
            now,
        ),
        r matches Ok(p) ==> p.price > 0,
{
    if let Ok(p) = get_price_from_pyth(quote, now) {
        return Ok(p);
    }
    if let Some(d) = secondary {
        if let Ok(p) = get_price_from_chainlink(d, now) {
            return Ok(p);
        }
    }
    Err(LendingError::AllOraclesFailed)
}

/// The secondary feed's data when the pool has one configured: a pool
/// without one stores the all-zero key.
pub open spec fn configured_secondary(feed: Pubkey, data: Seq<u8>) -> Option<Seq<u8>> {
    if feed@ == Seq::new(32, |i: int| 0u8) {
        None
    } else {
        Some(data)
    }
}

/// A validated price for a pool whose secondary feed is `secondary_feed`
/// (the all-zero key when it has none) holding `secondary_data`.
pub fn get_pool_price(
    quote: Option<PythQuote>,
    secondary_feed: &Pubkey,
    secondary_data: &[u8],
    now: i64,
) -> (r: Result<Price, LendingError>)
    ensures
        r == oracle_price(quote, configured_secondary(*secondary_feed, secondary_data@), now),
        r matches Ok(p) ==> p.price > 0,
{
    if secondary_feed.is_zero() {
        get_price(quote, None, now)
    } else {
        get_price(quote, Some(secondary_data), now)
    }
}

} // verus!
