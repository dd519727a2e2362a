use vstd::prelude::*;
use vstd::arithmetic::div_mod::{lemma_fundamental_div_mod, lemma_hoist_over_denominator};

verus! {

/// The scale of a `Decimal`: eighteen fractional digits.
pub const DECIMAL_FRACTIONAL: u128 = 1_000_000_000_000_000_000;

/// A non-negative fixed-point number, stored as `atomics / 10^18`.
#[derive(Clone, Copy, Debug, PartialEq, Eq, Structural)]
pub struct Decimal {
    pub atomics: u128,
}

/// The atomics of `num / den` at eighteen fractional digits, rounded down.
pub open spec fn ratio_atomics(num: int, den: int) -> int {
    (num * DECIMAL_FRACTIONAL as int) / den
}

/// A ratio can be built when its denominator is positive and the scaled
/// numerator fits in 128 bits.
pub open spec fn ratio_ok(num: int, den: int) -> bool {
    den > 0 && 0 <= num && num * DECIMAL_FRACTIONAL as int <= u128::MAX as int
}

/// `amount * (atomics / 10^18)`, with any fractional part dropped.
pub open spec fn mul_floor(amount: int, atomics: int) -> int {
    (amount * atomics) / DECIMAL_FRACTIONAL as int
}

impl Decimal {
    /// The decimal `1`.
    pub fn one() -> (r: Decimal)
        ensures
            r.atomics == DECIMAL_FRACTIONAL,
    {
        Decimal { atomics: DECIMAL_FRACTIONAL }
    }

    /// The decimal `x / 100`.
    pub fn percent(x: u64) -> (r: Decimal)
        ensures
            r.atomics == x as int * 10_000_000_000_000_000,
    {
        Decimal { atomics: (x as u128) * 10_000_000_000_000_000u128 }
    }

    /// The decimal `num / den`, rounded down to eighteen fractional digits.
    pub fn from_ratio(num: u128, den: u128) -> (r: Decimal)
        requires
            ratio_ok(num as int, den as int),
        ensures
            r.atomics as int == ratio_atomics(num as int, den as int),
    {
        proof {
            let n = num as int * DECIMAL_FRACTIONAL as int;
            let d = den as int;
            assert(0 <= n / d <= n) by (nonlinear_arith)
                requires
                    d > 0,
                    n >= 0,
            ;
        }
        Decimal { atomics: num * DECIMAL_FRACTIONAL / den }
    }

    /// The decimal `num / den`, or `None` where it cannot be built.
    pub fn checked_from_ratio(num: u128, den: u128) -> (r: Option<Decimal>)
        ensures
            r == (if ratio_ok(num as int, den as int) {
                Some(Decimal { atomics: ratio_atomics(num as int, den as int) as u128 })
            } else {
                None::<Decimal>
            }),
    {
        let limit = u128::MAX / DECIMAL_FRACTIONAL;
        proof {
            let m = u128::MAX as int;
            let f = DECIMAL_FRACTIONAL as int;
            let n = num as int;
            lemma_fundamental_div_mod(m, f);
            vstd::arithmetic::div_mod::lemma_mod_bound(m, f);
            if n <= limit {
                assert(n * f <= (m / f) * f) by (nonlinear_arith)
                    requires
                        n <= m / f,
                        f > 0,
                ;
            } else {
                assert(n * f >= (m / f + 1) * f) by (nonlinear_arith)
                    requires
                        n >= m / f + 1,
                        f > 0,
                ;
            }
        }
        if den == 0 || num > limit {
            None
        } else {
            Some(Decimal::from_ratio(num, den))
        }
    }
}

proof fn lemma_mul_floor_parts(a: int, d: int, a1: int, a0: int, q: int, r: int)
    requires
        a >= 0,
        d >= 0,
        a1 == a / DECIMAL_FRACTIONAL as int,
        a0 == a % DECIMAL_FRACTIONAL as int,
        q == d / DECIMAL_FRACTIONAL as int,
        r == d % DECIMAL_FRACTIONAL as int,
    ensures
        mul_floor(a, d) == a1 * q * DECIMAL_FRACTIONAL as int + a1 * r + a0 * q + (a0 * r)
            / DECIMAL_FRACTIONAL as int,
        0 <= a0 < DECIMAL_FRACTIONAL as int,
        0 <= r < DECIMAL_FRACTIONAL as int,
        a1 >= 0,
        q >= 0,
{
    let f = DECIMAL_FRACTIONAL as int;
    lemma_fundamental_div_mod(a, f);
    lemma_fundamental_div_mod(d, f);
    assert(0 <= a0 < f && 0 <= r < f && a1 >= 0 && q >= 0) by {
        vstd::arithmetic::div_mod::lemma_mod_bound(a, f);
        vstd::arithmetic::div_mod::lemma_mod_bound(d, f);
        vstd::arithmetic::div_mod::lemma_div_pos_is_pos(a, f);
        vstd::arithmetic::div_mod::lemma_div_pos_is_pos(d, f);
    }
    let j = a1 * q * f + a1 * r + a0 * q;
    assert(a * d == (f * a1) * d + a0 * d) by (nonlinear_arith)
        requires
            a == f * a1 + a0,
    ;
    assert((f * a1) * d == (f * a1) * (f * q) + (f * a1) * r) by (nonlinear_arith)
        requires
            d == f * q + r,
    ;
    assert(a0 * d == a0 * (f * q) + a0 * r) by (nonlinear_arith)
        requires
            d == f * q + r,
    ;
    assert((f * a1) * (f * q) == (a1 * q * f) * f) by (nonlinear_arith);
    assert((f * a1) * r == (a1 * r) * f) by (nonlinear_arith);
    assert(a0 * (f * q) == (a0 * q) * f) by (nonlinear_arith);
    assert(j * f == (a1 * q * f) * f + (a1 * r) * f + (a0 * q) * f) by (nonlinear_arith)
        requires
            j == a1 * q * f + a1 * r + a0 * q,
    ;
    lemma_hoist_over_denominator(a0 * r, j, f as nat);
}

/// `amount * ratio` rounded down, or `None` where the product does not fit
/// in 128 bits.
pub fn checked_mul_floor(amount: u128, ratio: Decimal) -> (res: Option<u128>)
    ensures
        res == (if mul_floor(amount as int, ratio.atomics as int) <= u128::MAX as int {
            Some(mul_floor(amount as int, ratio.atomics as int) as u128)
        } else {
            None::<u128>
        }),
{
    let a1 = amount / DECIMAL_FRACTIONAL;
    let a0 = amount % DECIMAL_FRACTIONAL;
    let q = ratio.atomics / DECIMAL_FRACTIONAL;
    let r = ratio.atomics % DECIMAL_FRACTIONAL;
    let ghost total = mul_floor(amount as int, ratio.atomics as int);
    let ghost f = DECIMAL_FRACTIONAL as int;
    proof {
        lemma_mul_floor_parts(amount as int, ratio.atomics as int, a1 as int, a0 as int, q as int, r as int);
        assert(a0 * r < f * f) by (nonlinear_arith)
            requires
                0 <= a0 < f,
                0 <= r < f,
        ;
        assert(0 <= (a0 * r) / f <= a0 * r) by (nonlinear_arith)
            requires
                a0 * r >= 0,
                f > 0,
        ;
        assert(a1 * q >= 0 && a1 * r >= 0 && a0 * q >= 0 && a1 * q * f >= a1 * q) by (nonlinear_arith)
            requires
                a1 >= 0,
                q >= 0,
                r >= 0,
                a0 >= 0,
                f > 0,
        ;
    }
    let low: u128 = a0 * r / DECIMAL_FRACTIONAL;
    let t1 = match a1.checked_mul(q) {
        Some(v) => v,
        None => return None,
    };
    let t1 = match t1.checked_mul(DECIMAL_FRACTIONAL) {
        Some(v) => v,
        None => return None,
    };
    let t2 = match a1.checked_mul(r) {
        Some(v) => v,
        None => return None,
    };
    let t3 = match a0.checked_mul(q) {
        Some(v) => v,
        None => return None,
    };
    let s = match t1.checked_add(t2) {
        Some(v) => v,
        None => return None,
    };
    let s = match s.checked_add(t3) {
        Some(v) => v,
        None => return None,
    };
    match s.checked_add(low) {
        Some(v) => Some(v),
        None => None,
    }
}

} // verus!
