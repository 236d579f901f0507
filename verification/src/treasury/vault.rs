//! Conversion between shares and assets.
//!
//! Both conversions add a small constant to each total before dividing, so
//! that they are defined near zero supply and a donation moves the price
//! little, and both round toward zero: the vault keeps the remainder.

use crate::treasury::TreasuryError;
use vstd::prelude::*;

verus! {

/// The least amount that the first deposit may have.
pub const MIN_INITIAL_DEPOSIT: i128 = 1000;

/// The constant added to the share total in a conversion.
pub const VIRTUAL_SHARES: i128 = 1000;

/// The constant added to the asset total in a conversion.
pub const VIRTUAL_ASSETS: i128 = 1;

/// Quotient of `x` by `d`, rounded toward zero.
pub open spec fn spec_div_trunc(x: int, d: int) -> int
    recommends
        d != 0,
{
    if x == 0 {
        0
    } else if x > 0 && d > 0 {
        x / d
    } else if x < 0 && d < 0 {
        ((x * -1) / (d * -1))
    } else if x < 0 {
        ((x * -1) / d) * -1
    } else {
        (x / (d * -1)) * -1
    }
}

/// Whether `v` is an `i128`.
pub open spec fn spec_fits(v: int) -> bool {
    i128::MIN <= v && v <= i128::MAX
}

/// `amount * numerator / denominator`, rounded toward zero, where the
/// denominator is not zero and each step is an `i128`.
pub open spec fn spec_scale(amount: i128, numerator: int, denominator: int) -> Option<i128> {
    if !spec_fits(numerator) || !spec_fits(denominator) || !spec_fits(amount * numerator)
        || denominator == 0 || !spec_fits(spec_div_trunc(amount * numerator, denominator)) {
        None
    } else {
        Some(spec_div_trunc(amount * numerator, denominator) as i128)
    }
}

/// The shares that `assets` are worth in a vault with the given totals.
pub open spec fn spec_convert_to_shares(assets: i128, total_assets: i128, total_shares: i128)
    -> Option<i128> {
    if !spec_fits(total_assets + VIRTUAL_ASSETS) {
        None
    } else {
        spec_scale(assets, total_shares + VIRTUAL_SHARES, total_assets + VIRTUAL_ASSETS)
    }
}

/// The assets that `shares` are worth in a vault with the given totals:
/// nothing while no share is outstanding.
pub open spec fn spec_convert_to_assets(shares: i128, total_assets: i128, total_shares: i128)
    -> Option<i128> {
    if total_shares == 0 {
        Some(0)
    } else if !spec_fits(total_assets + VIRTUAL_ASSETS) {
        None
    } else {
        spec_scale(shares, total_assets + VIRTUAL_ASSETS, total_shares + VIRTUAL_SHARES)
    }
}

/// Whether a deposit of `shares` is acceptable: positive, and at least the
/// minimum where it is the first.
pub open spec fn spec_deposit_ok(shares: i128, is_first_deposit: bool) -> bool {
    shares > 0 && !(is_first_deposit && shares < MIN_INITIAL_DEPOSIT)
}

/// `amount * numerator / denominator` in checked arithmetic.
fn scale(amount: i128, numerator: i128, denominator: i128) -> (r: Result<i128, TreasuryError>)
    ensures
        r == (match spec_scale(amount, numerator as int, denominator as int) {
            Some(v) => Ok::<i128, TreasuryError>(v),
            None => Err(TreasuryError::MathOverflow),
        }),
{
    let product = match amount.checked_mul(numerator) {
        Some(v) => v,
        None => {
            return Err(TreasuryError::MathOverflow);
        },
    };
    match product.checked_div(denominator) {
        Some(v) => Ok(v),
        None => Err(TreasuryError::MathOverflow),
    }
}

/// Converts assets to shares. Fails with `MathOverflow` where a step leaves
/// the range of `i128` or the divisor is zero.
pub fn convert_to_shares(assets: i128, total_assets: i128, total_shares: i128) -> (r: Result<
    i128,
    TreasuryError,
>)
    ensures
        r == (match spec_convert_to_shares(assets, total_assets, total_shares) {
            Some(v) => Ok::<i128, TreasuryError>(v),
            None => Err(TreasuryError::MathOverflow),
        }),
{
    let total_assets_virtual = match total_assets.checked_add(VIRTUAL_ASSETS) {
        Some(v) => v,
        None => {
            return Err(TreasuryError::MathOverflow);
        },
    };
    let total_shares_virtual = match total_shares.checked_add(VIRTUAL_SHARES) {
        Some(v) => v,
        None => {
            return Err(TreasuryError::MathOverflow);
        },
    };
    scale(assets, total_shares_virtual, total_assets_virtual)
}

/// Converts shares to assets. Fails with `MathOverflow` where a step leaves
/// the range of `i128` or the divisor is zero.
pub fn convert_to_assets(shares: i128, total_assets: i128, total_shares: i128) -> (r: Result<
    i128,
    TreasuryError,
>)
    ensures
        r == (match spec_convert_to_assets(shares, total_assets, total_shares) {
            Some(v) => Ok::<i128, TreasuryError>(v),
            None => Err(TreasuryError::MathOverflow),
        }),
{
    if total_shares == 0 {
        return Ok(0);
    }
    let total_assets_virtual = match total_assets.checked_add(VIRTUAL_ASSETS) {
        Some(v) => v,
        None => {
            return Err(TreasuryError::MathOverflow);
        },
    };
    let total_shares_virtual = match total_shares.checked_add(VIRTUAL_SHARES) {
        Some(v) => v,
        None => {
            return Err(TreasuryError::MathOverflow);
        },
    };
    scale(shares, total_assets_virtual, total_shares_virtual)
}

/// Accepts a deposit that is positive and, where it is the first, at least
/// the minimum.
pub fn validate_deposit(shares: i128, is_first_deposit: bool) -> (r: Result<(), TreasuryError>)
    ensures
        r == (if spec_deposit_ok(shares, is_first_deposit) {
            Ok::<(), TreasuryError>(())
        } else {
            Err(TreasuryError::ZeroAmount)
        }),
{
    if shares <= 0 {
        return Err(TreasuryError::ZeroAmount);
    }
    if is_first_deposit && shares < MIN_INITIAL_DEPOSIT {
        return Err(TreasuryError::ZeroAmount);
    }
    Ok(())
}

/// A quotient rounded toward zero, times the divisor, lies between zero and
/// the dividend.
pub proof fn lemma_div_trunc_between(x: int, d: int)
    requires
        d != 0,
    ensures
        x >= 0 ==> 0 <= spec_div_trunc(x, d) * d <= x,
        x <= 0 ==> x <= spec_div_trunc(x, d) * d <= 0,
{
    if x == 0 {
    } else if x > 0 && d > 0 {
        assert(0 <= (x / d) * d <= x) by (nonlinear_arith)
            requires
                x > 0,
                d > 0,
        ;
    } else if x < 0 && d < 0 {
        let a = x * -1;
        let b = d * -1;
        assert(0 <= (a / b) * b <= a) by (nonlinear_arith)
            requires
                a > 0,
                b > 0,
        ;
        assert((a / b) * d == -((a / b) * b)) by (nonlinear_arith)
            requires
                b == d * -1,
        ;
    } else if x < 0 {
        let a = x * -1;
        assert(0 <= (a / d) * d <= a) by (nonlinear_arith)
            requires
                a > 0,
                d > 0,
        ;
        assert(((a / d) * -1) * d == -((a / d) * d)) by (nonlinear_arith);
    } else {
        let b = d * -1;
        assert(0 <= (x / b) * b <= x) by (nonlinear_arith)
            requires
                x > 0,
                b > 0,
        ;
        assert(((x / b) * -1) * d == (x / b) * b) by (nonlinear_arith)
            requires
                b == d * -1,
        ;
    }
}

/// Converting an amount of assets to shares and back never yields more than
/// the amount: rounding does not create value.
///
/// The amount is not negative: of a negative amount the conversions, which
/// round toward zero, can give back one nearer to zero.
pub proof fn lemma_round_trip_loses(assets: i128, total_assets: i128, total_shares: i128)
    requires
        assets >= 0,
        spec_convert_to_shares(assets, total_assets, total_shares) is Some,
        spec_convert_to_assets(
            spec_convert_to_shares(assets, total_assets, total_shares)->Some_0,
            total_assets,
            total_shares,
        ) is Some,
    ensures
        0 <= spec_convert_to_assets(
            spec_convert_to_shares(assets, total_assets, total_shares)->Some_0,
            total_assets,
            total_shares,
        )->Some_0 <= assets,
{
    if total_shares != 0 {
        let a = total_assets + VIRTUAL_ASSETS;
        let s = total_shares + VIRTUAL_SHARES;
        let x = assets as int;
        let shares = spec_div_trunc(x * s, a);
        let back = spec_div_trunc(shares * a, s);
        lemma_div_trunc_between(x * s, a);
        lemma_div_trunc_between(shares * a, s);
        if s > 0 {
            assert(x * s >= 0) by (nonlinear_arith)
                requires
                    x >= 0,
                    s > 0,
            ;
            assert(0 <= back <= x) by (nonlinear_arith)
                requires
                    0 <= back * s <= x * s,
                    s > 0,
            ;
        } else {
            assert(x * s <= 0) by (nonlinear_arith)
                requires
                    x >= 0,
                    s < 0,
            ;
            assert(0 <= back <= x) by (nonlinear_arith)
                requires
                    x * s <= back * s <= 0,
                    s < 0,
            ;
        }
    }
}

} // verus!
