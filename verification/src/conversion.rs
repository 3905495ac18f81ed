//! Fixed-point conversion between shares and assets.
//!
//! Every ratio carries a virtual offset: `VIRTUAL_SHARES` is added to the
//! share supply and `VIRTUAL_ASSETS` to the pool balance. The offsets make
//! the exchange rate insensitive to small first deposits, so an attacker
//! cannot cheaply push the per-share price up and round later depositors
//! down to zero shares. All division rounds down (operands are never
//! negative), which systematically favours the pool.

use vstd::arithmetic::div_mod::{
    lemma_div_is_ordered, lemma_div_is_ordered_by_denominator, lemma_fundamental_div_mod,
    lemma_hoist_over_denominator, lemma_mod_bound,
};
use vstd::arithmetic::mul::{
    lemma_mul_is_commutative, lemma_mul_is_distributive_add, lemma_mul_upper_bound,
};
use vstd::prelude::*;

use crate::error::CustomErrorCode;

verus! {

/// Shares added to every denominator/numerator that carries the supply.
pub const VIRTUAL_SHARES: u128 = 1_000_000;

/// Assets added to every denominator/numerator that carries the balance.
pub const VIRTUAL_ASSETS: u128 = 1_000_000;

/// The exchange rate is reported as assets per share scaled by this factor.
pub const RATE_SCALE: u128 = 1_000_000_000;

/// Assets owed for `shares` under totals `(total_shares, total_assets)`:
/// `floor(shares * (total_assets + VIRTUAL_ASSETS) / (total_shares + VIRTUAL_SHARES))`,
/// and zero while no share exists.
pub open spec fn spec_shares_to_assets(shares: int, total_shares: int, total_assets: int) -> int {
    if total_shares == 0 {
        0
    } else {
        (shares * (total_assets + VIRTUAL_ASSETS)) / (total_shares + VIRTUAL_SHARES)
    }
}

/// Shares minted for `assets` under totals `(total_shares, total_assets)`:
/// `floor(assets * (total_shares + VIRTUAL_SHARES) / (total_assets + VIRTUAL_ASSETS))`,
/// except that the first deposit (no share exists yet) is priced at the
/// fixed bootstrap ratio `VIRTUAL_SHARES / VIRTUAL_ASSETS`, whatever the
/// pool balance.
pub open spec fn spec_assets_to_shares(assets: int, total_shares: int, total_assets: int) -> int {
    if total_shares == 0 {
        (assets * VIRTUAL_SHARES) / (VIRTUAL_ASSETS as int)
    } else {
        (assets * (total_shares + VIRTUAL_SHARES)) / (total_assets + VIRTUAL_ASSETS)
    }
}

/// Assets per share scaled by `RATE_SCALE`:
/// `floor((total_assets + VIRTUAL_ASSETS) * RATE_SCALE / (total_shares + VIRTUAL_SHARES))`,
/// and exactly `RATE_SCALE` (a 1:1 rate) while no share exists.
pub open spec fn spec_exchange_rate(total_shares: int, total_assets: int) -> int {
    if total_shares == 0 {
        RATE_SCALE as int
    } else {
        ((total_assets + VIRTUAL_ASSETS) * RATE_SCALE) / (total_shares + VIRTUAL_SHARES)
    }
}

/// Computes `floor(a * (b + k) / d)` exactly.
///
/// `a * (b + k)` can exceed 128 bits by a sliver when `a` and `b` are both
/// near `u64::MAX`, so the product is split as `a * b + a * k` and the two
/// parts are divided separately: `x / d + (x % d + a * k) / d` equals
/// `(a * (b + k)) / d` because `x % d` is what the first division left
/// behind. Every intermediate value then fits in 128 bits.
fn mul_add_div(a: u64, b: u64, k: u64, d: u128) -> (q: u128)
    requires
        0 < k <= 1_000_000,
        1_000_000 <= d <= u64::MAX + 1_000_000,
    ensures
        q == (a * (b + k)) / (d as int),
{
    proof {
        lemma_mul_upper_bound(a as int, u64::MAX as int, b as int, u64::MAX as int);
        lemma_mul_upper_bound(a as int, u64::MAX as int, k as int, 1_000_000);
    }
    let x: u128 = (a as u128) * (b as u128);
    let y: u128 = (a as u128) * (k as u128);
    let q1: u128 = x / d;
    let r1: u128 = x % d;
    proof {
        lemma_mod_bound(x as int, d as int);
    }
    let q2: u128 = (r1 + y) / d;
    proof {
        lemma_fundamental_div_mod(x as int, d as int);
        lemma_mul_is_commutative(d as int, q1 as int);
        assert(r1 + y + q1 * d == x + y);
        lemma_hoist_over_denominator((r1 + y) as int, q1 as int, d as nat);
        assert(q1 + q2 == (x + y) / d as int);
        lemma_mul_is_distributive_add(a as int, b as int, k as int);
        assert(x + y == a * (b + k));
        lemma_div_is_ordered_by_denominator((x + y) as int, 1_000_000, d as int);
        lemma_div_is_ordered(
            (x + y) as int,
            u64::MAX * (u64::MAX + 1_000_000),
            1_000_000,
        );
        assert(q1 + q2 <= u128::MAX);
    }
    q1 + q2
}

/// How many assets `shares` of the supply are worth at the current totals,
/// rounded down; `Overflow` exactly when the true value does not fit in 64
/// bits. The divisor is at least `VIRTUAL_SHARES`, so the division is always
/// defined.
pub fn calculate_shares_to_assets(shares: u64, total_shares: u64, total_assets: u64) -> (result:
    Result<u64, CustomErrorCode>)
    ensures
        result is Ok <==> spec_shares_to_assets(
            shares as int,
            total_shares as int,
            total_assets as int,
        ) <= u64::MAX,
        result matches Ok(assets) ==> assets == spec_shares_to_assets(
            shares as int,
            total_shares as int,
            total_assets as int,
        ),
        result matches Err(e) ==> e == CustomErrorCode::Overflow,
{
    if total_shares == 0 {
        return Ok(0);
    }
    let q = mul_add_div(
        shares,
        total_assets,
        1_000_000,
        (total_shares as u128) + VIRTUAL_SHARES,
    );
    if q <= u64::MAX as u128 {
        Ok(q as u64)
    } else {
        Err(CustomErrorCode::Overflow)
    }
}

/// How many shares `assets` buy at the current totals, rounded down;
/// `Overflow` exactly when the true value does not fit in 64 bits. The
/// first deposit is priced at the bootstrap ratio, which never overflows.
pub fn calculate_assets_to_shares(assets: u64, total_shares: u64, total_assets: u64) -> (result:
    Result<u64, CustomErrorCode>)
    ensures
        result is Ok <==> spec_assets_to_shares(
            assets as int,
            total_shares as int,
            total_assets as int,
        ) <= u64::MAX,
        result matches Ok(shares) ==> shares == spec_assets_to_shares(
            assets as int,
            total_shares as int,
            total_assets as int,
        ),
        result matches Err(e) ==> e == CustomErrorCode::Overflow,
{
    if total_shares == 0 {
        let q = mul_add_div(assets, 0, 1_000_000, VIRTUAL_ASSETS);
        proof {
            vstd::arithmetic::div_mod::lemma_div_by_multiple(assets as int, 1_000_000);
            assert(q == assets as int);
        }
        return Ok(q as u64);
    }
    let q = mul_add_div(
        assets,
        total_shares,
        1_000_000,
        (total_assets as u128) + VIRTUAL_ASSETS,
    );
    if q <= u64::MAX as u128 {
        Ok(q as u64)
    } else {
        Err(CustomErrorCode::Overflow)
    }
}

/// The current exchange rate, scaled by `RATE_SCALE` and rounded down;
/// `Overflow` exactly when the scaled rate does not fit in 64 bits. An
/// empty pool reports the 1:1 rate.
pub fn calculate_exchange_rate(total_shares: u64, total_assets: u64) -> (result: Result<
    u64,
    CustomErrorCode,
>)
    ensures
        result is Ok <==> spec_exchange_rate(total_shares as int, total_assets as int)
            <= u64::MAX,
        result matches Ok(rate) ==> rate == spec_exchange_rate(
            total_shares as int,
            total_assets as int,
        ),
        result matches Err(e) ==> e == CustomErrorCode::Overflow,
{
    if total_shares == 0 {
        return Ok(1_000_000_000);
    }
    let numerator: u128 = ((total_assets as u128) + VIRTUAL_ASSETS) * RATE_SCALE;
    let q: u128 = numerator / ((total_shares as u128) + VIRTUAL_SHARES);
    if q <= u64::MAX as u128 {
        Ok(q as u64)
    } else {
        Err(CustomErrorCode::Overflow)
    }
}

} // verus!
