//! Proved properties of the conversion formulas, beyond what each function's
//! own contract states: converting nothing yields nothing, the bootstrap
//! price is exact, a share-to-asset-to-share round trip never gains, and no
//! deposit, redemption or reward publication lowers the exchange rate —
//! neither a single one nor any sequence of them.

use vstd::arithmetic::div_mod::{
    lemma_div_by_multiple, lemma_div_is_ordered, lemma_div_multiples_vanish, lemma_div_of0,
    lemma_div_pos_is_pos, lemma_fundamental_div_mod, lemma_mod_bound,
};
use vstd::arithmetic::mul::{lemma_mul_inequality, lemma_mul_nonnegative};
use vstd::prelude::*;

use crate::conversion::{
    spec_assets_to_shares, spec_exchange_rate, spec_shares_to_assets, RATE_SCALE, VIRTUAL_ASSETS,
    VIRTUAL_SHARES,
};

verus! {

/// When two ratios satisfy `x2 / y2 <= x1 / y1` in cross-multiplied form,
/// their floored scalings are ordered the same way.
proof fn lemma_scaled_ratio_monotone(x1: int, y1: int, x2: int, y2: int, scale: int)
    requires
        0 <= x2,
        0 < y1,
        0 < y2,
        0 < scale,
        x2 * y1 <= x1 * y2,
    ensures
        (x2 * scale) / y2 <= (x1 * scale) / y1,
{
    let q = (x2 * scale) / y2;
    lemma_mul_nonnegative(x2, scale);
    lemma_div_pos_is_pos(x2 * scale, y2);
    lemma_fundamental_div_mod(x2 * scale, y2);
    lemma_mod_bound(x2 * scale, y2);
    assert(y2 * q <= x2 * scale);
    assert((q * y1) * y2 <= (x1 * scale) * y2) by (nonlinear_arith)
        requires
            y2 * q <= x2 * scale,
            x2 * y1 <= x1 * y2,
            0 < y1,
            0 < scale,
    ;
    assert(q * y1 <= x1 * scale) by (nonlinear_arith)
        requires
            (q * y1) * y2 <= (x1 * scale) * y2,
            0 < y2,
    ;
    lemma_div_is_ordered(q * y1, x1 * scale, y1);
    lemma_div_by_multiple(q, y1);
}

/// Neither conversion ever goes negative: its numerator and denominator are
/// both non-negative and the division rounds toward zero.
pub proof fn lemma_conversions_nonnegative(x: int, total_shares: int, total_assets: int)
    requires
        0 <= x,
        0 <= total_shares,
        0 <= total_assets,
    ensures
        0 <= spec_assets_to_shares(x, total_shares, total_assets),
        0 <= spec_shares_to_assets(x, total_shares, total_assets),
{
    if total_shares == 0 {
        lemma_mul_nonnegative(x, VIRTUAL_SHARES as int);
        lemma_div_pos_is_pos(x * VIRTUAL_SHARES, VIRTUAL_ASSETS as int);
    } else {
        lemma_mul_nonnegative(x, total_shares + VIRTUAL_SHARES);
        lemma_div_pos_is_pos(x * (total_shares + VIRTUAL_SHARES), total_assets + VIRTUAL_ASSETS);
        lemma_mul_nonnegative(x, total_assets + VIRTUAL_ASSETS);
        lemma_div_pos_is_pos(x * (total_assets + VIRTUAL_ASSETS), total_shares + VIRTUAL_SHARES);
    }
}

/// Converting nothing yields nothing: zero assets buy zero shares and zero
/// shares are worth zero assets, whatever the totals.
pub proof fn lemma_zero_conversions(total_shares: int, total_assets: int)
    requires
        0 <= total_shares,
        0 <= total_assets,
    ensures
        spec_assets_to_shares(0, total_shares, total_assets) == 0,
        spec_shares_to_assets(0, total_shares, total_assets) == 0,
{
    if total_shares == 0 {
        lemma_div_of0(VIRTUAL_ASSETS as int);
    } else {
        lemma_div_of0(total_assets + VIRTUAL_ASSETS);
        lemma_div_of0(total_shares + VIRTUAL_SHARES);
    }
}

/// While no share exists, a deposit is priced at the fixed bootstrap ratio
/// `floor(amount * VIRTUAL_SHARES / VIRTUAL_ASSETS)` — the pool balance has
/// no say — and with the two offsets equal that ratio is exactly one share
/// per asset.
pub proof fn lemma_bootstrap_conversion(amount: int, total_assets: int)
    requires
        0 <= amount,
    ensures
        spec_assets_to_shares(amount, 0, total_assets) == (amount * VIRTUAL_SHARES) / (
        VIRTUAL_ASSETS as int),
        spec_assets_to_shares(amount, 0, total_assets) == amount,
{
    lemma_div_by_multiple(amount, VIRTUAL_ASSETS as int);
}

/// A round trip never creates value: converting `shares` to assets and the
/// result back to shares ends at or below `shares`, because both divisions
/// round down.
pub proof fn lemma_round_trip_bound(shares: int, total_shares: int, total_assets: int)
    requires
        0 <= shares <= total_shares,
        0 <= total_assets,
    ensures
        spec_assets_to_shares(
            spec_shares_to_assets(shares, total_shares, total_assets),
            total_shares,
            total_assets,
        ) <= shares,
{
    if total_shares == 0 {
        lemma_zero_conversions(total_shares, total_assets);
    } else {
        let numerator = total_assets + VIRTUAL_ASSETS;
        let denominator = total_shares + VIRTUAL_SHARES;
        let assets = (shares * numerator) / denominator;
        lemma_mul_nonnegative(shares, numerator);
        lemma_div_pos_is_pos(shares * numerator, denominator);
        lemma_fundamental_div_mod(shares * numerator, denominator);
        lemma_mod_bound(shares * numerator, denominator);
        assert(assets * denominator <= shares * numerator) by (nonlinear_arith)
            requires
                denominator * assets <= shares * numerator,
        ;
        lemma_div_is_ordered(assets * denominator, shares * numerator, numerator);
        assert((assets * denominator) / numerator <= (shares * numerator) / numerator);
        lemma_div_by_multiple(shares, numerator);
    }
}

/// A deposit never lowers the exchange rate: pricing the minted shares by
/// the pre-transfer totals and rounding them down means the assets grow at
/// least in proportion to the shares.
pub proof fn lemma_deposit_rate_nondecreasing(
    total_shares: int,
    total_assets: int,
    amount: int,
    shares: int,
)
    requires
        0 <= total_shares,
        0 <= total_assets,
        0 < amount,
        shares == spec_assets_to_shares(amount, total_shares, total_assets),
    ensures
        spec_exchange_rate(total_shares, total_assets) <= spec_exchange_rate(
            total_shares + shares,
            total_assets + amount,
        ),
{
    let scale = RATE_SCALE as int;
    if total_shares == 0 {
        lemma_bootstrap_conversion(amount, total_assets);
        assert(shares == amount);
        let denominator = amount + VIRTUAL_SHARES;
        lemma_mul_inequality(denominator, total_assets + amount + VIRTUAL_ASSETS, scale);
        lemma_div_multiples_vanish(scale, denominator);
        lemma_div_is_ordered(
            denominator * scale,
            (total_assets + amount + VIRTUAL_ASSETS) * scale,
            denominator,
        );
        assert(((total_assets + amount + VIRTUAL_ASSETS) * scale) / denominator >= scale);
    } else {
        let numerator = total_assets + VIRTUAL_ASSETS;
        let denominator = total_shares + VIRTUAL_SHARES;
        lemma_mul_nonnegative(amount, denominator);
        lemma_div_pos_is_pos(amount * denominator, numerator);
        assert(0 <= shares);
        lemma_fundamental_div_mod(amount * denominator, numerator);
        lemma_mod_bound(amount * denominator, numerator);
        assert(numerator * shares <= amount * denominator);
        assert(numerator * (total_shares + shares + VIRTUAL_SHARES) <= (total_assets + amount
            + VIRTUAL_ASSETS) * denominator) by (nonlinear_arith)
            requires
                numerator * shares <= amount * denominator,
                numerator == total_assets + VIRTUAL_ASSETS,
                denominator == total_shares + VIRTUAL_SHARES,
        ;
        lemma_scaled_ratio_monotone(
            total_assets + amount + VIRTUAL_ASSETS,
            total_shares + shares + VIRTUAL_SHARES,
            numerator,
            denominator,
            scale,
        );
    }
}

/// A published reward never lowers the exchange rate: it adds assets while
/// minting no share, so every outstanding share is worth at least as much
/// as before.
pub proof fn lemma_reward_rate_nondecreasing(total_shares: int, total_assets: int, amount: int)
    requires
        0 <= total_shares,
        0 <= total_assets,
        0 <= amount,
    ensures
        spec_exchange_rate(total_shares, total_assets) <= spec_exchange_rate(
            total_shares,
            total_assets + amount,
        ),
{
    if total_shares != 0 {
        let scale = RATE_SCALE as int;
        let denominator = total_shares + VIRTUAL_SHARES;
        lemma_mul_inequality(
            total_assets + VIRTUAL_ASSETS,
            total_assets + amount + VIRTUAL_ASSETS,
            scale,
        );
        lemma_div_is_ordered(
            (total_assets + VIRTUAL_ASSETS) * scale,
            (total_assets + amount + VIRTUAL_ASSETS) * scale,
            denominator,
        );
    }
}

/// A redemption that leaves at least one share outstanding never lowers the
/// exchange rate: the assets paid out are rounded down, so the pool keeps
/// the remainder. (Redeeming the entire supply is excluded: the rate of an
/// emptied pool is the 1:1 bootstrap rate again, which can sit below a rate
/// that rounding dust had pushed up.)
pub proof fn lemma_redeem_rate_nondecreasing(
    total_shares: int,
    total_assets: int,
    shares: int,
    assets_out: int,
)
    requires
        0 <= total_assets,
        0 < shares < total_shares,
        assets_out == spec_shares_to_assets(shares, total_shares, total_assets),
        assets_out <= total_assets,
    ensures
        spec_exchange_rate(total_shares, total_assets) <= spec_exchange_rate(
            total_shares - shares,
            total_assets - assets_out,
        ),
{
    let scale = RATE_SCALE as int;
    let numerator = total_assets + VIRTUAL_ASSETS;
    let denominator = total_shares + VIRTUAL_SHARES;
    lemma_fundamental_div_mod(shares * numerator, denominator);
    lemma_mod_bound(shares * numerator, denominator);
    assert(denominator * assets_out <= shares * numerator);
    assert(numerator * (total_shares - shares + VIRTUAL_SHARES) <= (total_assets - assets_out
        + VIRTUAL_ASSETS) * denominator) by (nonlinear_arith)
        requires
            denominator * assets_out <= shares * numerator,
            numerator == total_assets + VIRTUAL_ASSETS,
            denominator == total_shares + VIRTUAL_SHARES,
    ;
    lemma_scaled_ratio_monotone(
        total_assets - assets_out + VIRTUAL_ASSETS,
        total_shares - shares + VIRTUAL_SHARES,
        numerator,
        denominator,
        scale,
    );
}

/// One user operation on the pool totals, as the fairness law sees it: a
/// deposit of some assets, or a redemption of some shares. No reward
/// publication appears here on purpose — the law is about what users alone
/// can do to the rate.
pub enum PoolStep {
    /// Assets paid in; the shares minted for them follow from the totals.
    Deposit { amount: int },
    /// Shares burned; the assets paid out follow from the totals.
    Redeem { shares: int },
}

/// Whether `step` can settle at the given totals: a deposit needs a
/// positive amount; a redemption needs a positive share count, must leave
/// at least one share outstanding, and must be payable from the pool.
pub open spec fn step_allowed(total_shares: int, total_assets: int, step: PoolStep) -> bool {
    match step {
        PoolStep::Deposit { amount } => 0 < amount,
        PoolStep::Redeem { shares } => 0 < shares < total_shares && spec_shares_to_assets(
            shares,
            total_shares,
            total_assets,
        ) <= total_assets,
    }
}

/// The totals after `step` settles: both sides of the ratio move by the
/// amounts the conversion formulas dictate.
pub open spec fn step_totals(total_shares: int, total_assets: int, step: PoolStep) -> (int, int) {
    match step {
        PoolStep::Deposit { amount } => (
            total_shares + spec_assets_to_shares(amount, total_shares, total_assets),
            total_assets + amount,
        ),
        PoolStep::Redeem { shares } => (
            total_shares - shares,
            total_assets - spec_shares_to_assets(shares, total_shares, total_assets),
        ),
    }
}

/// The totals after a whole run of steps, first step first.
pub open spec fn run_totals(total_shares: int, total_assets: int, steps: Seq<PoolStep>) -> (
    int,
    int,
)
    decreases steps.len(),
{
    if steps.len() == 0 {
        (total_shares, total_assets)
    } else {
        let next = step_totals(total_shares, total_assets, steps[0]);
        run_totals(next.0, next.1, steps.skip(1))
    }
}

/// Whether every step of the run can settle at the totals it finds.
pub open spec fn run_allowed(total_shares: int, total_assets: int, steps: Seq<PoolStep>) -> bool
    decreases steps.len(),
{
    steps.len() == 0 || (step_allowed(total_shares, total_assets, steps[0]) && {
        let next = step_totals(total_shares, total_assets, steps[0]);
        run_allowed(next.0, next.1, steps.skip(1))
    })
}

/// Monotonic fairness: over any sequence of deposits and redemptions — no
/// reward published in between — the exchange rate never decreases. Each
/// step rounds in the pool's favour, so the rate can only pick up the
/// rounding remainders. (Each redemption must leave a share outstanding:
/// see `lemma_redeem_rate_nondecreasing`.)
pub proof fn lemma_rate_nondecreasing_over_run(
    total_shares: int,
    total_assets: int,
    steps: Seq<PoolStep>,
)
    requires
        0 <= total_shares,
        0 <= total_assets,
        run_allowed(total_shares, total_assets, steps),
    ensures
        spec_exchange_rate(total_shares, total_assets) <= ({
            let end = run_totals(total_shares, total_assets, steps);
            spec_exchange_rate(end.0, end.1)
        }),
    decreases steps.len(),
{
    if steps.len() > 0 {
        let next = step_totals(total_shares, total_assets, steps[0]);
        match steps[0] {
            PoolStep::Deposit { amount } => {
                lemma_conversions_nonnegative(amount, total_shares, total_assets);
                lemma_deposit_rate_nondecreasing(
                    total_shares,
                    total_assets,
                    amount,
                    spec_assets_to_shares(amount, total_shares, total_assets),
                );
            },
            PoolStep::Redeem { shares } => {
                lemma_redeem_rate_nondecreasing(
                    total_shares,
                    total_assets,
                    shares,
                    spec_shares_to_assets(shares, total_shares, total_assets),
                );
            },
        }
        lemma_rate_nondecreasing_over_run(next.0, next.1, steps.skip(1));
    }
}

} // verus!
