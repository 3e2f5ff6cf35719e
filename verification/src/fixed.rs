//! Fixed-point arithmetic.
//!
//! Prices, base quantities and quote amounts are unsigned integers counted
//! in units of 10^-8. Percentages are unsigned integers counted in units of
//! 10^-4 percent, so `10_000` is one percent.

use vstd::prelude::*;

verus! {

/// Units per whole price, quantity or quote amount.
pub const SCALE: u64 = 100_000_000;

/// Units per one percent.
pub const PCT_SCALE: u64 = 10_000;

/// Percent units per ratio of one: a move of `PCT_PARTS` percent units is a
/// move by the whole.
pub const PCT_PARTS: u64 = 1_000_000;

/// Largest price the engine evaluates (one million, in units).
pub const MAX_PRICE: u64 = 100_000_000_000_000;

/// Largest base quantity a position may hold (ten billion, in units).
pub const MAX_QUANTITY: u64 = 1_000_000_000_000_000_000;

/// Largest quote amount a position may have invested (one hundred million, in units).
pub const MAX_COST: u64 = 10_000_000_000_000_000;

/// Largest percentage a setting may hold (one hundred thousand percent).
pub const MAX_PCT: u64 = 1_000_000_000;

/// Largest entry interval, in minutes.
pub const MAX_INTERVAL_MINUTES: u64 = 1_000_000_000;

/// Mathematical floor of `a / b` for a positive divisor.
pub open spec fn floor_div(a: int, b: int) -> int
    recommends
        b > 0,
{
    a / b
}

/// Floor division on machine integers: rounds toward negative infinity,
/// unlike the built-in operator, which rounds toward zero.
pub fn div_floor(a: i128, b: i128) -> (q: i128)
    requires
        b > 0,
    ensures
        q == floor_div(a as int, b as int),
        q * b <= a < q * b + b,
{
    if a >= 0 {
        let q: i128 = a / b;
        proof {
            lemma_floor_div_bounds(a as int, b as int);
        }
        q
    } else {
        let n: i128 = -(a + 1);
        let t: i128 = n / b;
        let q: i128 = -t - 1;
        proof {
            lemma_floor_div_bounds(n as int, b as int);
            assert(q * b == -(t * b) - b) by (nonlinear_arith)
                requires
                    q == -t - 1,
            ;
            lemma_floor_div_unique(a as int, b as int, q as int);
        }
        q
    }
}

/// The floor quotient brackets the dividend.
pub proof fn lemma_floor_div_bounds(a: int, b: int)
    requires
        b > 0,
    ensures
        floor_div(a, b) * b <= a < floor_div(a, b) * b + b,
{
    vstd::arithmetic::div_mod::lemma_fundamental_div_mod(a, b);
    vstd::arithmetic::div_mod::lemma_mod_bound(a, b);
    vstd::arithmetic::mul::lemma_mul_is_commutative(a / b, b);
}

/// The floor quotient is the only `q` with `q * b <= a < q * b + b`.
pub proof fn lemma_floor_div_unique(a: int, b: int, q: int)
    requires
        b > 0,
        q * b <= a < q * b + b,
    ensures
        q == floor_div(a, b),
{
    vstd::arithmetic::div_mod::lemma_fundamental_div_mod(a, b);
    vstd::arithmetic::div_mod::lemma_mod_bound(a, b);
    let d = a / b;
    let r = a % b;
    assert(a == b * d + r);
    assert(0 <= r < b);
    assert(q == d) by (nonlinear_arith)
        requires
            b > 0,
            q * b <= a < q * b + b,
            a == b * d + r,
            0 <= r < b,
    ;
}

/// `value` limited to the range `lo..=hi`.
pub open spec fn clamp(value: int, lo: int, hi: int) -> int {
    if value < lo {
        lo
    } else if value > hi {
        hi
    } else {
        value
    }
}

/// The product of two 64-bit values fits in 128 bits.
pub proof fn lemma_u64_product_fits(a: u64, b: u64)
    ensures
        0 <= a * b <= u128::MAX,
{
    assert(0 <= a * b <= 0xffff_ffff_ffff_ffff * 0xffff_ffff_ffff_ffff) by (nonlinear_arith)
        requires
            0 <= a <= 0xffff_ffff_ffff_ffff,
            0 <= b <= 0xffff_ffff_ffff_ffff,
    ;
}


} // verus!
