//! Fixed-point LMSR pricing and the market state it prices.

use vstd::prelude::*;
use vstd::arithmetic::div_mod::{
    lemma_div_is_ordered, lemma_fundamental_div_mod, lemma_fundamental_div_mod_converse_div,
    lemma_mod_bound,
};
use vstd::arithmetic::mul::lemma_mul_inequality;

verus! {

/// Fixed-point scale: six decimal places.
pub const SCALE: u64 = 1_000_000;

/// `2 * SCALE`, the denominator of the quadratic terms.
pub const TWO_SCALE: u64 = 2_000_000;

/// `3 * SCALE * SCALE`, the denominator of the logarithm's cubic term.
pub const THREE_SCALE_SQ: u64 = 3_000_000_000_000;

/// `6 * SCALE * SCALE`, the denominator of the exponential's cubic term.
pub const SIX_SCALE_SQ: u64 = 6_000_000_000_000;

/// `shares / b` in fixed point, rounded down.
pub open spec fn ratio(shares: int, b: int) -> int {
    (shares * SCALE) / b
}

/// The series `1 + x + x^2/2 + x^3/6` for `e^x`, in fixed point.
pub open spec fn exp_approx(q: int) -> int {
    SCALE + q + (q * q) / (TWO_SCALE as int) + (q * q * q) / (SIX_SCALE_SQ as int)
}

/// The argument of the logarithm, less one: `e^(q1/b) + e^(q2/b) - 1`.
pub open spec fn ln_argument(yes: int, no: int, b: int) -> int {
    exp_approx(ratio(yes, b)) + exp_approx(ratio(no, b)) - SCALE
}

/// The series `t - t^2/2 + t^3/3` for `ln(1 + t)`, in fixed point.
pub open spec fn ln_approx(t: int) -> int {
    t + (t * t * t) / (THREE_SCALE_SQ as int) - (t * t) / (TWO_SCALE as int)
}

/// The market cost `b * ln(e^(q1/b) + e^(q2/b))`, with `q1` and `q2` the
/// yes and no totals, as the fixed-point series compute it.
pub open spec fn lmsr_cost(yes: int, no: int, b: int) -> int {
    (b * ln_approx(ln_argument(yes, no, b))) / (SCALE as int)
}

/// Every intermediate value of the exponential series fits in a `u64`.
pub open spec fn exp_fits(shares: int, b: int) -> bool {
    let q = ratio(shares, b);
    &&& shares * SCALE <= u64::MAX
    &&& SCALE + q <= u64::MAX
    &&& q * q <= u64::MAX
    &&& SCALE + q + (q * q) / (TWO_SCALE as int) <= u64::MAX
    &&& q * q * q <= u64::MAX
    &&& exp_approx(q) <= u64::MAX
}

/// The cost can be computed: `b` is not zero and no intermediate value of
/// the computation leaves the `u64` range.
pub open spec fn cost_defined(yes: int, no: int, b: int) -> bool {
    let t = ln_argument(yes, no, b);
    &&& b > 0
    &&& exp_fits(yes, b)
    &&& exp_fits(no, b)
    &&& exp_approx(ratio(yes, b)) + exp_approx(ratio(no, b)) <= u64::MAX
    &&& t * t <= u64::MAX
    &&& t * t * t <= u64::MAX
    &&& t + (t * t * t) / (THREE_SCALE_SQ as int) <= u64::MAX
    &&& (t * t) / (TWO_SCALE as int) <= t + (t * t * t) / (THREE_SCALE_SQ as int)
    &&& b * ln_approx(t) <= u64::MAX
}

/// The market maker's confidential state.
pub struct LMSR {
    pub total_yes_shares: u64,
    pub total_no_shares: u64,
    pub lmsr_b: u64,
    pub initial_deposit: u64,
}

impl LMSR {
    /// A fresh market with liquidity parameter `lmsr_b`: no shares sold, and
    /// an initial deposit equal to the cost of the empty market.
    pub fn init_market_data(lmsr_b: u64) -> (lmsr_data: LMSR)
        requires
            cost_defined(0, 0, lmsr_b as int),
        ensures
            lmsr_data.lmsr_b == lmsr_b,
            lmsr_data.total_yes_shares == 0,
            lmsr_data.total_no_shares == 0,
            lmsr_data.initial_deposit == lmsr_cost(0, 0, lmsr_b as int),
    {
        let mut lmsr_data = LMSR { lmsr_b, total_yes_shares: 0, total_no_shares: 0, initial_deposit: 0 };
        let initial_deposit = lmsr_data.cost_calculation(0, 0, lmsr_b);
        lmsr_data.initial_deposit = initial_deposit;
        lmsr_data
    }

    /// The fixed-point LMSR cost `b * ln(e^(q1/b) + e^(q2/b))` of a market
    /// holding `yes_shares` and `no_shares` with liquidity parameter `lmsr_b`,
    /// with `e^x ~ 1 + x + x^2/2 + x^3/6` and `ln x ~ (x-1) - (x-1)^2/2 +
    /// (x-1)^3/3`. The cubic term of the logarithm is added before the square
    /// is taken away.
    pub fn cost_calculation(&self, yes_shares: u64, no_shares: u64, lmsr_b: u64) -> (cost: u64)
        requires
            cost_defined(yes_shares as int, no_shares as int, lmsr_b as int),
        ensures
            cost == lmsr_cost(yes_shares as int, no_shares as int, lmsr_b as int),
    {
        let b = lmsr_b;
        let scale: u64 = SCALE;
        let q1_over_b = (yes_shares * scale) / b;
        let q2_over_b = (no_shares * scale) / b;
        let exp_q1 = scale + q1_over_b + (q1_over_b * q1_over_b) / TWO_SCALE + (q1_over_b
            * q1_over_b * q1_over_b) / SIX_SCALE_SQ;
        let exp_q2 = scale + q2_over_b + (q2_over_b * q2_over_b) / TWO_SCALE + (q2_over_b
            * q2_over_b * q2_over_b) / SIX_SCALE_SQ;
        let outcome_sum = exp_q1 + exp_q2;
        let x_minus_1 = outcome_sum - scale;
        let ln_approx = x_minus_1 + (x_minus_1 * x_minus_1 * x_minus_1) / THREE_SCALE_SQ - (
        x_minus_1 * x_minus_1) / TWO_SCALE;
        let cost = (b * ln_approx) / scale;
        cost
    }
}

/// The cost treats the two outcomes alike: swapping the yes and no totals
/// changes neither the cost nor whether it can be computed.
pub proof fn lemma_cost_symmetric(yes: int, no: int, b: int)
    ensures
        lmsr_cost(yes, no, b) == lmsr_cost(no, yes, b),
        cost_defined(yes, no, b) == cost_defined(no, yes, b),
{
    assert(ln_argument(yes, no, b) == ln_argument(no, yes, b));
}

/// The empty market costs `b * 0.833333` (rounded down): the logarithm series
/// at `e^0 + e^0 = 2`. That cost can be computed exactly when `b` is positive
/// and `b * 833_333` fits in a `u64`.
pub proof fn lemma_empty_market_cost(b: int)
    ensures
        cost_defined(0, 0, b) == (0 < b && b * 833_333 <= u64::MAX),
        b != 0 ==> lmsr_cost(0, 0, b) == (b * 833_333) / 1_000_000,
{
    if b != 0 {
        assert(0int / b == 0) by (nonlinear_arith)
            requires
                b != 0,
        ;
        assert(ratio(0, b) == 0);
        assert(exp_approx(0) == 1_000_000);
        assert(ln_argument(0, 0, b) == 1_000_000);
        assert(1_000_000int * 1_000_000 * 1_000_000 == 1_000_000_000_000_000_000int);
        assert(ln_approx(1_000_000) == 833_333);
    }
}

proof fn lemma_ratio_monotone(a: int, c: int, b: int)
    requires
        0 <= a <= c,
        b > 0,
    ensures
        0 <= ratio(a, b) <= ratio(c, b),
{
    lemma_mul_inequality(a, c, SCALE as int);
    lemma_div_is_ordered(a * SCALE, c * SCALE, b);
    lemma_div_is_ordered(0, a * SCALE, b);
}

proof fn lemma_exp_monotone(q1: int, q2: int)
    requires
        0 <= q1 <= q2,
    ensures
        SCALE <= exp_approx(q1) <= exp_approx(q2),
        exp_approx(q2) - exp_approx(q1) >= q2 - q1,
{
    assert(0 <= q1 * q1 <= q2 * q2 && 0 <= q1 * q1 * q1 <= q2 * q2 * q2) by (nonlinear_arith)
        requires
            0 <= q1 <= q2,
    ;
    lemma_div_is_ordered(q1 * q1, q2 * q2, TWO_SCALE as int);
    lemma_div_is_ordered(0, q1 * q1, TWO_SCALE as int);
    lemma_div_is_ordered(q1 * q1 * q1, q2 * q2 * q2, SIX_SCALE_SQ as int);
    lemma_div_is_ordered(0, q1 * q1 * q1, SIX_SCALE_SQ as int);
}

/// On `[SCALE, ...)` the cubic term of the logarithm series grows at least as
/// fast as the quadratic one: `2S (t2^3 - t1^3) >= 3S^2 (t2^2 - t1^2)`.
proof fn lemma_cube_outgrows_square(t1: int, t2: int)
    requires
        SCALE <= t1 <= t2,
    ensures
        2_000_000 * (t2 * t2 * t2 - t1 * t1 * t1) >= 3_000_000_000_000 * (t2 * t2 - t1 * t1),
{
    let s = SCALE as int;
    let d = t2 - t1;
    let x = t2 * t2 + t1 * t2 + t1 * t1;
    assert(t2 * t2 * t2 - t1 * t1 * t1 == d * x) by (nonlinear_arith)
        requires
            d == t2 - t1,
            x == t2 * t2 + t1 * t2 + t1 * t1,
    ;
    assert(t2 * t2 - t1 * t1 == d * (t1 + t2)) by (nonlinear_arith)
        requires
            d == t2 - t1,
    ;
    lemma_mul_inequality(s, t2, t2);
    lemma_mul_inequality(s, t1, t1);
    lemma_mul_inequality(s, t1, t2);
    lemma_mul_inequality(s, t2, t1);
    assert(t2 * t1 == t1 * t2) by (nonlinear_arith);
    assert(2 * x >= 3 * s * (t1 + t2));
    assert(d * (2 * x) >= d * (3 * s * (t1 + t2))) by (nonlinear_arith)
        requires
            d >= 0,
            2 * x >= 3 * s * (t1 + t2),
    ;
    assert(s * (d * (2 * x)) >= s * (d * (3 * s * (t1 + t2)))) by (nonlinear_arith)
        requires
            s > 0,
            d * (2 * x) >= d * (3 * s * (t1 + t2)),
    ;
    assert(2_000_000 * (d * x) == s * (d * (2 * x)) && 3_000_000_000_000 * (d * (t1 + t2)) == s
        * (d * (3 * s * (t1 + t2)))) by (nonlinear_arith)
        requires
            s == 1_000_000,
    ;
}

/// The logarithm series never falls on `[SCALE, ...)`, rounding included.
proof fn lemma_ln_monotone(t1: int, t2: int)
    requires
        SCALE <= t1 <= t2,
    ensures
        ln_approx(t1) <= ln_approx(t2),
        ln_approx(t2) - ln_approx(t1) >= t2 - t1 - 1,
{
    if t1 < t2 {
        let dd = TWO_SCALE as int;
        let ee = THREE_SCALE_SQ as int;
        lemma_cube_outgrows_square(t1, t2);
        lemma_fundamental_div_mod(t1 * t1, dd);
        lemma_fundamental_div_mod(t2 * t2, dd);
        lemma_fundamental_div_mod(t1 * t1 * t1, ee);
        lemma_fundamental_div_mod(t2 * t2 * t2, ee);
        lemma_mod_bound(t1 * t1, dd);
        lemma_mod_bound(t2 * t2, dd);
        lemma_mod_bound(t1 * t1 * t1, ee);
        lemma_mod_bound(t2 * t2 * t2, ee);
    }
}

/// The cost never falls as shares are added to either side: for a positive
/// `b`, more shares of each outcome never cost less.
pub proof fn lemma_cost_never_falls(yes1: int, no1: int, yes2: int, no2: int, b: int)
    requires
        b > 0,
        0 <= yes1 <= yes2,
        0 <= no1 <= no2,
    ensures
        lmsr_cost(yes1, no1, b) <= lmsr_cost(yes2, no2, b),
{
    lemma_ratio_monotone(yes1, yes2, b);
    lemma_ratio_monotone(no1, no2, b);
    lemma_exp_monotone(ratio(yes1, b), ratio(yes2, b));
    lemma_exp_monotone(ratio(no1, b), ratio(no2, b));
    let t1 = ln_argument(yes1, no1, b);
    let t2 = ln_argument(yes2, no2, b);
    lemma_ln_monotone(t1, t2);
    lemma_mul_inequality(ln_approx(t1), ln_approx(t2), b);
    assert(b * ln_approx(t1) <= b * ln_approx(t2)) by (nonlinear_arith)
        requires
            ln_approx(t1) * b <= ln_approx(t2) * b,
    ;
    lemma_div_is_ordered(b * ln_approx(t1), b * ln_approx(t2), SCALE as int);
}

/// Adding shares raises the cost by at least `b / SCALE` for each step of
/// the fixed-point ratios `shares * SCALE / b`, less one step and less the
/// final rounding: `SCALE * (C2 - C1) + SCALE > b * (dq - 1)`, where `dq` is
/// the rise of `yes * SCALE / b` plus that of `no * SCALE / b`. In
/// particular, once the ratios rise by more than `1 + SCALE / b`, the cost
/// strictly rises.
pub proof fn lemma_cost_rise_lower_bound(yes1: int, no1: int, yes2: int, no2: int, b: int)
    requires
        b > 0,
        0 <= yes1 <= yes2,
        0 <= no1 <= no2,
    ensures
        1_000_000 * (lmsr_cost(yes2, no2, b) - lmsr_cost(yes1, no1, b)) + 1_000_000 > b * (
        (yes2 * 1_000_000) / b - (yes1 * 1_000_000) / b + (no2 * 1_000_000) / b - (no1
            * 1_000_000) / b - 1),
{
    let s = SCALE as int;
    lemma_ratio_monotone(yes1, yes2, b);
    lemma_ratio_monotone(no1, no2, b);
    lemma_exp_monotone(ratio(yes1, b), ratio(yes2, b));
    lemma_exp_monotone(ratio(no1, b), ratio(no2, b));
    let t1 = ln_argument(yes1, no1, b);
    let t2 = ln_argument(yes2, no2, b);
    lemma_ln_monotone(t1, t2);
    let l1 = ln_approx(t1);
    let l2 = ln_approx(t2);
    let dq = ratio(yes2, b) - ratio(yes1, b) + ratio(no2, b) - ratio(no1, b);
    assert(l2 - l1 >= dq - 1);
    assert(b * (l2 - l1) >= b * (dq - 1)) by (nonlinear_arith)
        requires
            b > 0,
            l2 - l1 >= dq - 1,
    ;
    let x1 = b * l1;
    let x2 = b * l2;
    assert(x2 - x1 == b * (l2 - l1)) by (nonlinear_arith)
        requires
            x1 == b * l1,
            x2 == b * l2,
    ;
    lemma_fundamental_div_mod(x1, s);
    lemma_fundamental_div_mod(x2, s);
    lemma_mod_bound(x1, s);
    lemma_mod_bound(x2, s);
}

/// Scaling the totals and `b` together leaves the fixed-point ratios alone.
proof fn lemma_ratio_scaled(shares: int, b: int, k: int)
    requires
        b > 0,
        k >= 1,
    ensures
        ratio(k * shares, k * b) == ratio(shares, b),
{
    let a = shares * SCALE;
    let q = a / b;
    let r = a % b;
    lemma_fundamental_div_mod(a, b);
    lemma_mod_bound(a, b);
    assert((k * shares) * SCALE == q * (k * b) + k * r && 0 <= k * r < k * b) by (nonlinear_arith)
        requires
            a == shares * SCALE,
            a == b * q + r,
            0 <= r < b,
            k >= 1,
    ;
    lemma_fundamental_div_mod_converse_div((k * shares) * SCALE, k * b, q, k * r);
}

/// The cost is homogeneous of degree one in the totals and `b`, up to the
/// final rounding: scaling all three by `k` scales the cost by `k`, give or
/// take less than `k`.
pub proof fn lemma_cost_homogeneous(yes: int, no: int, b: int, k: int)
    requires
        b > 0,
        k >= 1,
    ensures
        k * lmsr_cost(yes, no, b) <= lmsr_cost(k * yes, k * no, k * b),
        lmsr_cost(k * yes, k * no, k * b) < k * (lmsr_cost(yes, no, b) + 1),
{
    let s = SCALE as int;
    lemma_ratio_scaled(yes, b, k);
    lemma_ratio_scaled(no, b, k);
    let l = ln_approx(ln_argument(yes, no, b));
    assert(ln_argument(k * yes, k * no, k * b) == ln_argument(yes, no, b));
    let x = b * l;
    let c1 = x / s;
    let r = x % s;
    lemma_fundamental_div_mod(x, s);
    lemma_mod_bound(x, s);
    let kr = k * r;
    let j = kr / s;
    let m = kr % s;
    lemma_fundamental_div_mod(kr, s);
    lemma_mod_bound(kr, s);
    assert((k * b) * l == (k * c1 + j) * s + m) by (nonlinear_arith)
        requires
            x == b * l,
            x == s * c1 + r,
            kr == k * r,
            kr == s * j + m,
    ;
    lemma_fundamental_div_mod_converse_div((k * b) * l, s, k * c1 + j, m);
    assert(0 <= j < k) by (nonlinear_arith)
        requires
            kr == s * j + m,
            0 <= m < s,
            kr == k * r,
            0 <= r < s,
            k >= 1,
            s > 0,
    ;
    assert(k * (c1 + 1) == k * c1 + k) by (nonlinear_arith);
}

} // verus!
