use crate::error::AmmError;
use vstd::arithmetic::div_mod::{
    lemma_div_denominator, lemma_div_is_ordered, lemma_div_multiples_vanish,
    lemma_div_multiples_vanish_quotient, lemma_fundamental_div_mod,
};
use vstd::arithmetic::mul::lemma_mul_inequality;
use vstd::prelude::*;

verus! {

/// Decimal places of intermediate precision used when none is configured.
pub const DEFAULT_PRECISION: u32 = 6;

/// The two payouts of a withdrawal, in units of asset X and asset Y.
#[derive(Clone, Copy, Debug, PartialEq, Eq, Structural)]
pub struct XYAmounts {
    pub x: u64,
    pub y: u64,
}

/// `10` raised to `precision`: the fixed-point scale of the intermediate math.
pub open spec fn scale(precision: nat) -> nat
    decreases precision,
{
    if precision == 0 {
        1
    } else {
        10 * scale((precision - 1) as nat)
    }
}

/// The share of `reserve` that burning `burn` of `total` liquidity tokens
/// redeems, rounded down.
pub open spec fn payout(reserve: u64, burn: u64, total: u64) -> int {
    (reserve * burn) / (total as int)
}

/// Whether the payout math succeeds: the supply is not empty, the burn does
/// not exceed it, and every scaled product fits in 128 bits.
pub open spec fn curve_ok(x: u64, y: u64, l: u64, a: u64, precision: u32) -> bool {
    &&& l > 0
    &&& a <= l
    &&& scale(precision as nat) <= u128::MAX
    &&& x * a * scale(precision as nat) <= u128::MAX
    &&& y * a * scale(precision as nat) <= u128::MAX
}

/// Whether payouts `amounts` meet the caller's minimums.
pub open spec fn slippage_ok(amounts: XYAmounts, min_x: u64, min_y: u64) -> bool {
    amounts.x >= min_x && amounts.y >= min_y
}

proof fn lemma_scale_positive(p: nat)
    ensures
        scale(p) >= 1,
    decreases p,
{
    if p > 0 {
        lemma_scale_positive((p - 1) as nat);
    }
}

proof fn lemma_scale_monotonic(p: nat, q: nat)
    requires
        p <= q,
    ensures
        scale(p) <= scale(q),
    decreases q - p,
{
    if p < q {
        lemma_scale_monotonic(p, (q - 1) as nat);
        lemma_scale_positive((q - 1) as nat);
    }
}

/// Never pays out more than is held: burning at most the whole supply
/// redeems at most the whole reserve.
pub proof fn lemma_payout_within_reserve(reserve: u64, burn: u64, total: u64)
    requires
        0 < total,
        burn <= total,
    ensures
        0 <= payout(reserve, burn, total) <= reserve,
{
    assert(reserve * burn <= reserve * total) by (nonlinear_arith)
        requires
            burn <= total,
    ;
    assert(0 <= reserve * burn) by (nonlinear_arith);
    lemma_div_is_ordered(reserve * burn, reserve * total, total as int);
    lemma_div_is_ordered(0, reserve * burn, total as int);
    lemma_div_multiples_vanish(reserve as int, total as int);
    assert(reserve * total == total * reserve) by (nonlinear_arith);
}

/// Proportionality: the payout is the exact share `reserve * burn / total`
/// rounded down, so it falls short of the exact share by less than one unit.
pub proof fn lemma_payout_proportional(reserve: u64, burn: u64, total: u64)
    requires
        0 < total,
    ensures
        payout(reserve, burn, total) * total <= reserve * burn,
        reserve * burn < (payout(reserve, burn, total) + 1) * total,
{
    let n = reserve * burn;
    let t = total as int;
    lemma_fundamental_div_mod(n, t);
    assert(0 <= n % t < t);
    assert(t * (n / t) == (n / t) * t) by (nonlinear_arith);
    assert((n / t + 1) * t == (n / t) * t + t) by (nonlinear_arith);
}

/// Monotonicity: burning more never lowers the payout.
pub proof fn lemma_payout_monotonic(reserve: u64, burn1: u64, burn2: u64, total: u64)
    requires
        0 < total,
        burn1 <= burn2,
    ensures
        payout(reserve, burn1, total) <= payout(reserve, burn2, total),
{
    lemma_mul_inequality(burn1 as int, burn2 as int, reserve as int);
    assert(reserve * burn1 == burn1 * reserve) by (nonlinear_arith);
    assert(reserve * burn2 == burn2 * reserve) by (nonlinear_arith);
    lemma_div_is_ordered(reserve * burn1, reserve * burn2, total as int);
}

/// Burning the whole supply redeems the whole reserve.
pub proof fn lemma_payout_full_burn(reserve: u64, total: u64)
    requires
        0 < total,
    ensures
        payout(reserve, total, total) == reserve,
{
    lemma_div_multiples_vanish(reserve as int, total as int);
    assert(reserve * total == total * reserve) by (nonlinear_arith);
}

/// The fixed-point scale for `precision` decimal places, or `None` where it
/// does not fit in 128 bits.
pub fn precision_scale(precision: u32) -> (r: Option<u128>)
    ensures
        r is None <==> scale(precision as nat) > u128::MAX,
        r matches Some(s) ==> s == scale(precision as nat),
{
    let mut acc: u128 = 1;
    let mut i: u32 = 0;
    while i < precision
        invariant
            i <= precision,
            acc == scale(i as nat),
        decreases precision - i,
    {
        match acc.checked_mul(10) {
            Some(next) => {
                acc = next;
            },
            None => {
                proof {
                    lemma_scale_monotonic((i + 1) as nat, precision as nat);
                }
                return None;
            },
        }
        i = i + 1;
    }
    Some(acc)
}

/// The payout for one asset computed at scale `s`: `reserve * burn * s` is
/// divided by `total`, then by `s`, which rounds exactly as the unscaled
/// share does. `None` where the scaled product overflows 128 bits.
fn scaled_share(reserve: u64, burn: u64, total: u64, s: u128) -> (r: Option<u64>)
    requires
        0 < total,
        burn <= total,
        1 <= s,
    ensures
        r is None <==> reserve * burn * s > u128::MAX,
        r matches Some(v) ==> v == payout(reserve, burn, total),
{
    assert(reserve * burn <= u64::MAX * u64::MAX) by (nonlinear_arith);
    let p: u128 = (reserve as u128) * (burn as u128);
    match p.checked_mul(s) {
        None => None,
        Some(n) => {
            let q: u128 = n / (total as u128);
            let v: u128 = q / s;
            proof {
                let pi = p as int;
                let si = s as int;
                let ti = total as int;
                assert(n as int == pi * si);
                lemma_div_denominator(pi * si, ti, si);
                assert(pi * si == si * pi) by (nonlinear_arith);
                assert(ti * si == si * ti) by (nonlinear_arith);
                lemma_div_multiples_vanish_quotient(si, pi, ti);
                assert(v as int == pi / ti);
                lemma_payout_within_reserve(reserve, burn, total);
            }
            Some(v as u64)
        },
    }
}

/// Payouts of both assets for burning `a` of `l` outstanding liquidity
/// tokens against reserves `x` and `y`, with `precision` decimal places of
/// intermediate precision. Each payout is the exact share rounded down;
/// every failure is an `ArithmeticError`.
pub fn xy_withdraw_amounts_from_l(x: u64, y: u64, l: u64, a: u64, precision: u32) -> (r: Result<
    XYAmounts,
    AmmError,
>)
    ensures
        r is Ok <==> curve_ok(x, y, l, a, precision),
        r matches Ok(v) ==> v.x == payout(x, a, l) && v.y == payout(y, a, l),
        r matches Ok(v) ==> v.x <= x && v.y <= y,
        r matches Err(e) ==> e == AmmError::ArithmeticError,
{
    if l == 0 || a > l {
        return Err(AmmError::ArithmeticError);
    }
    let s = match precision_scale(precision) {
        Some(s) => s,
        None => {
            return Err(AmmError::ArithmeticError);
        },
    };
    proof {
        lemma_scale_positive(precision as nat);
        lemma_payout_within_reserve(x, a, l);
        lemma_payout_within_reserve(y, a, l);
    }
    let px = match scaled_share(x, a, l, s) {
        Some(v) => v,
        None => {
            return Err(AmmError::ArithmeticError);
        },
    };
    let py = match scaled_share(y, a, l, s) {
        Some(v) => v,
        None => {
            return Err(AmmError::ArithmeticError);
        },
    };
    Ok(XYAmounts { x: px, y: py })
}

/// The slippage guard: succeeds only when both payouts reach the caller's
/// minimums.
pub fn check_slippage(amounts: &XYAmounts, min_x: u64, min_y: u64) -> (r: Result<(), AmmError>)
    ensures
        r is Ok <==> slippage_ok(*amounts, min_x, min_y),
        r matches Err(e) ==> e == AmmError::SlippageExceeded,
{
    if amounts.x >= min_x && amounts.y >= min_y {
        Ok(())
    } else {
        Err(AmmError::SlippageExceeded)
    }
}

} // verus!
