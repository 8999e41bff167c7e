//! The score calculator: converts per-category issue counts into a bounded
//! health score using diminishing-returns penalty curves per severity.
//!
//! Scores are fixed-point values counted in millionths of a point, so the
//! perfect score 100.0 is `100_000_000`.  Each severity class contributes
//! the penalty `cap * (1 - 1 / (1 + count / divisor))`, which over the
//! integers is `(cap * 1_000_000 * count) / (divisor + count)` rounded
//! down; the caps bound the total penalty by 70 points, so the score never
//! goes negative.

use vstd::prelude::*;
use vstd::arithmetic::div_mod::{
    lemma_fundamental_div_mod, lemma_div_is_ordered, lemma_div_pos_is_pos, lemma_basic_div,
    lemma_multiply_divide_le,
};

verus! {

/// One point of score, in fixed-point units.
pub open spec fn score_point() -> int {
    1000000
}

/// The saturating penalty of one severity class, in millionths of a point.
pub open spec fn penalty_spec(cap: int, divisor: int, n: int) -> int {
    (cap * score_point() * n) / (divisor + n)
}

/// The category score for a triple of issue counts, in millionths of a
/// point: exactly 100 points when all counts are zero, otherwise 100
/// points minus the three penalties, clamped to the 0..=100 point range.
pub open spec fn category_score_spec(c: int, w: int, i: int) -> int {
    if c == 0 && w == 0 && i == 0 {
        100 * score_point()
    } else {
        let p = penalty_spec(30, 100, c) + penalty_spec(25, 1000, w) + penalty_spec(15, 5000, i);
        if 100 * score_point() - p < 0 {
            0
        } else if 100 * score_point() - p > 100 * score_point() {
            100 * score_point()
        } else {
            100 * score_point() - p
        }
    }
}

/// Cross-multiplication monotonicity of integer division.
proof fn lemma_div_cross(a1: int, d1: int, a2: int, d2: int)
    requires
        0 <= a1,
        0 < d1,
        0 < d2,
        a1 * d2 <= a2 * d1,
    ensures
        a1 / d1 <= a2 / d2,
{
    let q1 = a1 / d1;
    let q2 = a2 / d2;
    lemma_fundamental_div_mod(a1, d1);
    lemma_fundamental_div_mod(a2, d2);
    assert(d1 * q1 <= a1);
    assert((d1 * q1) * d2 <= a1 * d2) by (nonlinear_arith)
        requires
            d1 * q1 <= a1,
            0 < d2,
    ;
    assert((d1 * q1) * d2 == (q1 * d2) * d1) by (nonlinear_arith);
    assert((q1 * d2) * d1 <= a2 * d1);
    assert(q1 * d2 <= a2) by (nonlinear_arith)
        requires
            (q1 * d2) * d1 <= a2 * d1,
            0 < d1,
    ;
    if q1 > q2 {
        assert(q1 * d2 >= (q2 + 1) * d2) by (nonlinear_arith)
            requires
                q1 >= q2 + 1,
                0 < d2,
        ;
        assert((q2 + 1) * d2 == d2 * q2 + d2) by (nonlinear_arith);
        assert(a2 < d2 * q2 + d2);
        assert(false);
    }
}

/// The penalty of one severity class is non-negative, bounded by its cap,
/// zero exactly on a zero count (for the caps and divisors in use), and
/// monotone in the count.
proof fn lemma_penalty_bounds(cap: int, divisor: int, n: int)
    requires
        0 < cap,
        divisor + 1 <= cap * score_point(),
        0 < divisor,
        0 <= n,
    ensures
        0 <= penalty_spec(cap, divisor, n),
        penalty_spec(cap, divisor, n) <= cap * score_point(),
        n == 0 ==> penalty_spec(cap, divisor, n) == 0,
        n >= 1 ==> penalty_spec(cap, divisor, n) >= 1,
{
    let num = cap * score_point() * n;
    let den = divisor + n;
    assert(num >= 0) by (nonlinear_arith)
        requires
            num == cap * 1000000 * n,
            0 < cap,
            0 <= n,
    ;
    lemma_div_pos_is_pos(num, den);
    assert(num <= den * (cap * score_point())) by (nonlinear_arith)
        requires
            num == cap * 1000000 * n,
            den == divisor + n,
            0 < cap,
            0 <= n,
            0 < divisor,
    ;
    lemma_multiply_divide_le(num, den, cap * score_point());
    if n == 0 {
        assert(num == 0) by (nonlinear_arith)
            requires
                num == cap * 1000000 * n,
                n == 0,
        ;
        lemma_basic_div(0, den);
    }
    if n >= 1 {
        assert(num >= den) by (nonlinear_arith)
            requires
                num == cap * 1000000 * n,
                den == divisor + n,
                n >= 1,
                divisor + 1 <= cap * 1000000,
                0 < divisor,
        ;
        assert(den / den == 1) by {
            vstd::arithmetic::div_mod::lemma_div_by_self(den);
        }
        lemma_div_is_ordered(den, num, den);
    }
}

/// The penalty is monotone in the count.
proof fn lemma_penalty_mono(cap: int, divisor: int, a: int, b: int)
    requires
        0 < cap,
        0 < divisor,
        0 <= a <= b,
    ensures
        penalty_spec(cap, divisor, a) <= penalty_spec(cap, divisor, b),
{
    let s = cap * score_point();
    assert(s * a >= 0) by (nonlinear_arith)
        requires
            s == cap * 1000000,
            0 < cap,
            0 <= a,
    ;
    assert((s * a) * (divisor + b) <= (s * b) * (divisor + a)) by (nonlinear_arith)
        requires
            s == cap * 1000000,
            0 < cap,
            0 < divisor,
            0 <= a <= b,
    ;
    lemma_div_cross(s * a, divisor + a, s * b, divisor + b);
}

/// The score is always within the 0..=100 point range.
pub proof fn lemma_score_range(c: int, w: int, i: int)
    requires
        0 <= c,
        0 <= w,
        0 <= i,
    ensures
        0 <= category_score_spec(c, w, i) <= 100 * score_point(),
{
    if !(c == 0 && w == 0 && i == 0) {
        lemma_penalty_bounds(30, 100, c);
        lemma_penalty_bounds(25, 1000, w);
        lemma_penalty_bounds(15, 5000, i);
    }
}

/// The score is exactly 100 points if and only if all three counts are 0.
pub proof fn lemma_score_perfect_iff(c: int, w: int, i: int)
    requires
        0 <= c,
        0 <= w,
        0 <= i,
    ensures
        (category_score_spec(c, w, i) == 100 * score_point()) <==> (c == 0 && w == 0 && i == 0),
{
    if !(c == 0 && w == 0 && i == 0) {
        lemma_penalty_bounds(30, 100, c);
        lemma_penalty_bounds(25, 1000, w);
        lemma_penalty_bounds(15, 5000, i);
    }
}

/// The score is monotonically non-increasing as any count increases with
/// the others held fixed (and more generally under pointwise increase).
pub proof fn lemma_score_monotonic(c1: int, w1: int, i1: int, c2: int, w2: int, i2: int)
    requires
        0 <= c1 <= c2,
        0 <= w1 <= w2,
        0 <= i1 <= i2,
    ensures
        category_score_spec(c2, w2, i2) <= category_score_spec(c1, w1, i1),
{
    lemma_score_range(c2, w2, i2);
    if c1 == 0 && w1 == 0 && i1 == 0 {
    } else {
        lemma_penalty_mono(30, 100, c1, c2);
        lemma_penalty_mono(25, 1000, w1, w2);
        lemma_penalty_mono(15, 5000, i1, i2);
        lemma_penalty_bounds(30, 100, c1);
        lemma_penalty_bounds(25, 1000, w1);
        lemma_penalty_bounds(15, 5000, i1);
        lemma_penalty_bounds(30, 100, c2);
        lemma_penalty_bounds(25, 1000, w2);
        lemma_penalty_bounds(15, 5000, i2);
    }
}

/// The saturating penalty of one severity class.
fn penalty(cap: u64, divisor: u64, n: u32) -> (r: u64)
    requires
        0 < cap <= 30,
        0 < divisor <= 5000,
    ensures
        r as int == penalty_spec(cap as int, divisor as int, n as int),
        r <= cap * 1000000,
{
    proof {
        assert((cap * 1000000) as int * (n as int) <= 30000000 * 0xffffffff) by (nonlinear_arith)
            requires
                0 < cap <= 30,
                n <= 0xffffffff,
        ;
        lemma_penalty_bounds(cap as int, divisor as int, n as int);
    }
    let num = cap * 1000000 * (n as u64);
    let den = divisor + (n as u64);
    num / den
}

/// Converts one category's issue counts into its health score, in
/// millionths of a point.  Returns exactly 100 points when and only when
/// all counts are zero; the result never exceeds 100 points; and it is
/// monotonically non-increasing in each count (`lemma_score_monotonic`).
pub fn category_score(critical: u32, warning: u32, info: u32) -> (r: u64)
    ensures
        r as int == category_score_spec(critical as int, warning as int, info as int),
        r <= 100000000,
        (r == 100000000) <==> (critical == 0 && warning == 0 && info == 0),
{
    proof {
        lemma_score_range(critical as int, warning as int, info as int);
        lemma_score_perfect_iff(critical as int, warning as int, info as int);
    }
    if critical == 0 && warning == 0 && info == 0 {
        100000000
    } else {
        let p = penalty(30, 100, critical) + penalty(25, 1000, warning) + penalty(15, 5000, info);
        if p > 100000000 {
            0
        } else {
            100000000 - p
        }
    }
}

} // verus!
