//! Board exam algebra: quadratic equations, arithmetic and geometric
//! progressions, and elementary antiderivatives.
//!
//! All arithmetic is exact over [`Rational`]; each formula is stated over
//! the lowest-terms operations of [`crate::rational`].

use vstd::prelude::*;
use crate::calculus::{eval_at, evaluate_at};
use crate::expr::{copy_expr, Expr, Symbol};
use crate::rational::{
    fits, frac_add, frac_div, frac_mul, frac_sub, gcd, lemma_lowest_unique, lemma_normalize_same, lemma_same_value_ops,
    lemma_same_value_trans, lowest, normalize, pow_fits, radd, rat, rdiv, rmul, rpow, rsub, same_value, lemma_rat_pair, Rational,
};

verus! {

// ============================================================================
// Integer square roots
// ============================================================================

/// The integer square root: the largest `s` with `s·s ≤ n`.
pub open spec fn floor_sqrt(n: nat) -> nat
    decreases n,
{
    if n == 0 {
        0
    } else {
        let s = floor_sqrt((n - 1) as nat);
        if (s + 1) * (s + 1) <= n {
            s + 1
        } else {
            s
        }
    }
}

/// `floor_sqrt(n)` is the `s` with `s² ≤ n < (s+1)²`.
pub proof fn lemma_floor_sqrt(n: nat)
    ensures
        (floor_sqrt(n) as int) * (floor_sqrt(n) as int) <= n < (floor_sqrt(n) as int + 1) * (floor_sqrt(n) as int + 1),
    decreases n,
{
    let f = floor_sqrt(n) as int;
    if n > 0 {
        lemma_floor_sqrt((n - 1) as nat);
        let s = floor_sqrt((n - 1) as nat);
        assert(s * s <= n - 1 && n - 1 < (s + 1) * (s + 1));
        if (s + 1) * (s + 1) <= n {
            assert(f == s + 1);
            assert(n < (s + 2) * (s + 2)) by (nonlinear_arith)
                requires
                    (s + 1) * (s + 1) <= n,
                    n - 1 < (s + 1) * (s + 1),
            ;
            assert(f * f <= n < (f + 1) * (f + 1)) by (nonlinear_arith)
                requires
                    f == s + 1,
                    (s + 1) * (s + 1) <= n,
                    n < (s + 2) * (s + 2),
            ;
        } else {
            assert(f == s);
            assert(f * f <= n < (f + 1) * (f + 1)) by (nonlinear_arith)
                requires
                    f == s,
                    s * s <= n - 1,
                    n < (s + 1) * (s + 1),
            ;
        }
    } else {
        assert(f == 0);
    }
}

/// Only `floor_sqrt(n)` satisfies `s² ≤ n < (s+1)²`.
pub proof fn lemma_floor_sqrt_unique(n: nat, s: nat)
    requires
        s * s <= n < (s + 1) * (s + 1),
    ensures
        s == floor_sqrt(n),
{
    lemma_floor_sqrt(n);
    let t = floor_sqrt(n);
    if s < t {
        assert((s + 1) * (s + 1) <= t * t) by (nonlinear_arith)
            requires
                s + 1 <= t,
        ;
    }
    if t < s {
        assert((t + 1) * (t + 1) <= s * s) by (nonlinear_arith)
            requires
                t + 1 <= s,
        ;
    }
}

/// `⌊√n⌋` by bisection.
fn isqrt_u128(n: u128) -> (s: u64)
    ensures
        s == floor_sqrt(n as nat),
{
    let mut lo: u128 = 0;
    let mut hi: u128 = 0x1_0000_0000_0000_0000;
    assert(n < hi * hi) by (nonlinear_arith)
        requires
            hi == 0x1_0000_0000_0000_0000,
            n <= u128::MAX,
    ;
    while hi - lo > 1
        invariant
            lo < hi <= 0x1_0000_0000_0000_0000,
            lo * lo <= n,
            n < hi * hi,
        decreases hi - lo,
    {
        let mid = lo + (hi - lo) / 2;
        assert(mid * mid <= u128::MAX) by (nonlinear_arith)
            requires
                mid < 0x1_0000_0000_0000_0000,
        ;
        if mid * mid <= n {
            lo = mid;
        } else {
            hi = mid;
        }
    }
    proof {
        lemma_floor_sqrt_unique(n as nat, lo as nat);
    }
    lo as u64
}

/// The square root of a perfect square: `Some(k)` with `k·k == n` for
/// `n ≥ 0`; `None` for a negative `n` or one that is not a perfect square.
pub fn int_sqrt(n: i64) -> (r: Option<i64>)
    ensures
        r is Some <==> n >= 0 && floor_sqrt(n as nat) * floor_sqrt(n as nat) == n,
        r matches Some(k) ==> k == floor_sqrt(n as nat),
{
    if n < 0 {
        return None;
    }
    let s = isqrt_u128(n as u128);
    proof {
        lemma_floor_sqrt(n as nat);
        assert(s <= 0xffff_ffff) by (nonlinear_arith)
            requires
                s * s <= n,
                n <= i64::MAX,
        ;
    }
    let sq = (s as u128) * (s as u128);
    if sq == n as u128 {
        Some(s as i64)
    } else {
        None
    }
}

// ============================================================================
// Quadratic equations: ax² + bx + c = 0
// ============================================================================

/// The roots of a quadratic equation.
#[derive(Debug, Clone, Copy, PartialEq, Eq, Structural)]
pub enum QuadraticRoots {
    /// Two distinct real roots.
    TwoReal(Rational, Rational),
    /// One repeated real root (discriminant zero).
    OneReal(Rational),
    /// Complex roots (negative discriminant): the real part and the square
    /// of the imaginary part.
    Complex { real: Rational, imaginary_squared: Rational },
    /// Not a quadratic (`a == 0`).
    NotQuadratic,
}

/// The discriminant `b² - 4ac`, computed as `b·b - (4·a)·c`.
pub open spec fn disc(a: (int, int), b: (int, int), c: (int, int)) -> (int, int) {
    rsub(rmul(b, b), rmul(rmul((4, 1), a), c))
}

/// Every intermediate value of the discriminant fits.
pub open spec fn disc_ok(a: (int, int), b: (int, int), c: (int, int)) -> bool {
    &&& fits(rmul(b, b))
    &&& fits(rmul((4, 1), a))
    &&& fits(rmul(rmul((4, 1), a), c))
    &&& fits(disc(a, b, c))
}

/// The discriminant `D = b² - 4ac` of `ax² + bx + c`.
pub fn discriminant(a: Rational, b: Rational, c: Rational) -> (d: Rational)
    requires
        disc_ok(a.pair(), b.pair(), c.pair()),
    ensures
        d.pair() == disc(a.pair(), b.pair(), c.pair()),
{
    let four = Rational::from_integer(4);
    b.mul(&b).sub(&four.mul(&a).mul(&c))
}

/// `√D` for a positive discriminant `n/d`: exact when numerator and
/// denominator are perfect squares, otherwise `⌊1000·√D⌋ / 1000`.
pub open spec fn sqrt_disc(dv: (int, int)) -> (int, int) {
    let sn = floor_sqrt(dv.0 as nat);
    let sd = floor_sqrt(dv.1 as nat);
    if sn * sn == dv.0 && sd * sd == dv.1 {
        normalize(sn as int, sd as int)
    } else {
        normalize(floor_sqrt(((dv.0 * 1000000) / dv.1) as nat) as int, 1000)
    }
}

/// Every intermediate value of [`solve_quadratic`] fits.
pub open spec fn solve_ok(a: (int, int), b: (int, int), c: (int, int)) -> bool {
    let d = disc(a, b, c);
    let two_a = rmul((2, 1), a);
    let neg_b = rsub((0, 1), b);
    a.0 == 0 || {
        &&& disc_ok(a, b, c)
        &&& fits(two_a)
        &&& fits(neg_b)
        &&& (d.0 == 0 ==> fits(rdiv(neg_b, two_a)))
        &&& (d.0 > 0 ==> {
            let sq = sqrt_disc(d);
            &&& fits(radd(neg_b, sq))
            &&& fits(rsub(neg_b, sq))
            &&& fits(rdiv(radd(neg_b, sq), two_a))
            &&& fits(rdiv(rsub(neg_b, sq), two_a))
        })
        &&& (d.0 < 0 ==> {
            &&& fits(rdiv(neg_b, two_a))
            &&& fits(rsub((0, 1), d))
            &&& fits(rmul(two_a, two_a))
            &&& fits(rdiv(rsub((0, 1), d), rmul(two_a, two_a)))
        })
    }
}

/// `√D` as a rational, as [`sqrt_disc`] states.
fn sqrt_of_disc(d: &Rational) -> (r: Rational)
    requires
        d.num() > 0,
    ensures
        r.pair() == sqrt_disc(d.pair()),
{
    d.lemma_wf();
    let n = d.numer();
    let m = d.denom();
    match (int_sqrt(n), int_sqrt(m)) {
        (Some(sn), Some(sd)) => {
            proof {
                lemma_floor_sqrt(m as nat);
                if sd == 0 {
                    assert(m < 1);
                }
            }
            Rational::new(sn, sd)
        },
        _ => {
            let scaled = ((n as u128) * 1_000_000) / (m as u128);
            let s = isqrt_u128(scaled);
            proof {
                lemma_floor_sqrt(scaled as nat);
                assert(scaled <= 0x7fff_ffff_ffff_ffff * 1_000_000);
                assert(s <= 0xffff_ffff_ffff) by (nonlinear_arith)
                    requires
                        s * s <= scaled,
                        scaled <= 0x7fff_ffff_ffff_ffff * 1_000_000,
                ;
            }
            Rational::new(s as i64, 1000)
        },
    }
}

/// The roots of `ax² + bx + c = 0`: `NotQuadratic` for `a == 0`; one root
/// `-b/2a` for a zero discriminant; two roots `(-b ± √D)/2a` for a positive
/// one (see [`sqrt_disc`]); for a negative one the real part `-b/2a` and the
/// squared imaginary part `-D/(2a)²`.
pub fn solve_quadratic(a: Rational, b: Rational, c: Rational) -> (r: QuadraticRoots)
    requires
        solve_ok(a.pair(), b.pair(), c.pair()),
    ensures
        a.num() == 0 ==> r == QuadraticRoots::NotQuadratic,
        a.num() != 0 ==> {
            let d = disc(a.pair(), b.pair(), c.pair());
            let two_a = rmul((2, 1), a.pair());
            let neg_b = rsub((0, 1), b.pair());
            &&& d.0 == 0 ==> (r matches QuadraticRoots::OneReal(x) && x.pair() == rdiv(neg_b, two_a))
            &&& d.0 > 0 ==> (r matches QuadraticRoots::TwoReal(x, y)
                && x.pair() == root_plus(a.pair(), b.pair(), sqrt_disc(d))
                && y.pair() == root_minus(a.pair(), b.pair(), sqrt_disc(d)))
            &&& d.0 < 0 ==> (r matches QuadraticRoots::Complex { real: re, imaginary_squared: im }
                && re.pair() == rdiv(neg_b, two_a)
                && im.pair() == rdiv(rsub((0, 1), d), rmul(two_a, two_a)))
        },
{
    if a.is_zero() {
        return QuadraticRoots::NotQuadratic;
    }
    let d = discriminant(a, b, c);
    let two_a = Rational::from_integer(2).mul(&a);
    let neg_b = Rational::from_integer(0).sub(&b);
    a.lemma_wf();
    proof {
        crate::rational::lemma_normalize_zero(2 * a.num(), a.den());
    }
    if d.is_zero() {
        QuadraticRoots::OneReal(neg_b.div(&two_a))
    } else if d.is_positive() {
        let sqrt_d = sqrt_of_disc(&d);
        let root1 = neg_b.add(&sqrt_d).div(&two_a);
        let root2 = neg_b.sub(&sqrt_d).div(&two_a);
        QuadraticRoots::TwoReal(root1, root2)
    } else {
        let sq = two_a.mul(&two_a);
        two_a.lemma_wf();
        proof {
            assert(two_a.num() * two_a.num() != 0) by (nonlinear_arith)
                requires
                    two_a.num() != 0,
            ;
            assert(two_a.den() * two_a.den() != 0) by (nonlinear_arith)
                requires
                    two_a.den() > 0,
            ;
            crate::rational::lemma_normalize_zero(two_a.num() * two_a.num(), two_a.den() * two_a.den());
        }
        QuadraticRoots::Complex {
            real: neg_b.div(&two_a),
            imaginary_squared: Rational::from_integer(0).sub(&d).div(&sq),
        }
    }
}

/// The sum of the roots by Vieta's formula: `-b/a`, or 0 when `a == 0`.
pub fn sum_of_roots(a: Rational, b: Rational, c: Rational) -> (s: Rational)
    requires
        a.num() != 0 ==> fits(rsub((0, 1), b.pair())) && fits(rdiv(rsub((0, 1), b.pair()), a.pair())),
    ensures
        a.num() == 0 ==> s.pair() == (0int, 1int),
        a.num() != 0 ==> s.pair() == rdiv(rsub((0, 1), b.pair()), a.pair()),
{
    if a.is_zero() {
        return Rational::from_integer(0);
    }
    Rational::from_integer(0).sub(&b).div(&a)
}

/// The product of the roots by Vieta's formula: `c/a`, or 0 when `a == 0`.
pub fn product_of_roots(a: Rational, b: Rational, c: Rational) -> (p: Rational)
    requires
        a.num() != 0 ==> fits(rdiv(c.pair(), a.pair())),
    ensures
        a.num() == 0 ==> p.pair() == (0int, 1int),
        a.num() != 0 ==> p.pair() == rdiv(c.pair(), a.pair()),
{
    if a.is_zero() {
        return Rational::from_integer(0);
    }
    c.div(&a)
}

/// The root `(-b + s)/(2a)` of `ax² + bx + c` for a square root `s` of the
/// discriminant.
pub open spec fn root_plus(a: (int, int), b: (int, int), s: (int, int)) -> (int, int) {
    rdiv(radd(rsub((0, 1), b), s), rmul((2, 1), a))
}

/// The root `(-b - s)/(2a)` of `ax² + bx + c` for a square root `s` of the
/// discriminant.
pub open spec fn root_minus(a: (int, int), b: (int, int), s: (int, int)) -> (int, int) {
    rdiv(rsub(rsub((0, 1), b), s), rmul((2, 1), a))
}

/// The values of the two roots as plain fractions:
/// `((-b₀s₁ ± s₀b₁)·a₁) / (b₁s₁·2a₀)`.
proof fn lemma_root_values(a: (int, int), b: (int, int), s: (int, int))
    requires
        lowest(a),
        lowest(b),
        a.0 != 0,
        s.1 > 0,
    ensures
        lowest(root_plus(a, b, s)),
        lowest(root_minus(a, b, s)),
        same_value(root_plus(a, b, s), ((-b.0 * s.1 + s.0 * b.1) * a.1, (b.1 * s.1) * (2 * a.0))),
        same_value(root_minus(a, b, s), ((-b.0 * s.1 - s.0 * b.1) * a.1, (b.1 * s.1) * (2 * a.0))),
        (b.1 * s.1) * (2 * a.0) != 0,
{
    let nb = rsub((0, 1), b);
    let nb2 = (-b.0, b.1);
    lemma_normalize_same(frac_sub((0, 1), b).0, frac_sub((0, 1), b).1);
    assert(frac_sub((0, 1), b) == nb2);
    let ta = rmul((2, 1), a);
    let ta2 = (2 * a.0, a.1);
    lemma_normalize_same(frac_mul((2, 1), a).0, frac_mul((2, 1), a).1);
    assert(frac_mul((2, 1), a) == ta2);
    assert(ta.0 != 0) by (nonlinear_arith)
        requires
            ta.0 * a.1 == (2 * a.0) * ta.1,
            a.0 != 0,
            a.1 > 0,
            ta.1 > 0,
    ;
    let u = radd(nb, s);
    let w = rsub(nb, s);
    let u2 = frac_add(nb2, s);
    let w2 = frac_sub(nb2, s);
    assert(nb.1 * s.1 != 0) by (nonlinear_arith)
        requires
            nb.1 > 0,
            s.1 > 0,
    ;
    lemma_normalize_same(frac_add(nb, s).0, frac_add(nb, s).1);
    lemma_normalize_same(frac_sub(nb, s).0, frac_sub(nb, s).1);
    lemma_same_value_ops(nb, nb2, s, s);
    lemma_same_value_trans(u, frac_add(nb, s), u2);
    lemma_same_value_trans(w, frac_sub(nb, s), w2);
    let x = rdiv(u, ta);
    let y = rdiv(w, ta);
    let x2 = frac_div(u2, ta2);
    let y2 = frac_div(w2, ta2);
    assert(u.1 * ta.0 != 0 && w.1 * ta.0 != 0) by (nonlinear_arith)
        requires
            u.1 > 0,
            w.1 > 0,
            ta.0 != 0,
    ;
    lemma_normalize_same(frac_div(u, ta).0, frac_div(u, ta).1);
    lemma_normalize_same(frac_div(w, ta).0, frac_div(w, ta).1);
    lemma_same_value_ops(u, u2, ta, ta2);
    lemma_same_value_ops(w, w2, ta, ta2);
    lemma_same_value_trans(x, frac_div(u, ta), x2);
    lemma_same_value_trans(y, frac_div(w, ta), y2);
    assert(u2 == (-b.0 * s.1 + s.0 * b.1, b.1 * s.1));
    assert(w2 == (-b.0 * s.1 - s.0 * b.1, b.1 * s.1));
    assert((b.1 * s.1) * (2 * a.0) != 0) by (nonlinear_arith)
        requires
            b.1 > 0,
            s.1 > 0,
            a.0 != 0,
    ;
}

/// Vieta's formula for the sum: the two roots `(-b ± s)/(2a)` add up to
/// `-b/a`, whatever square root `s` of the discriminant was used, so the
/// roots of [`solve_quadratic`] add up to [`sum_of_roots`].
pub proof fn lemma_vieta_sum(a: (int, int), b: (int, int), s: (int, int))
    requires
        lowest(a),
        lowest(b),
        a.0 != 0,
        s.1 > 0,
    ensures
        radd(root_plus(a, b, s), root_minus(a, b, s)) == rdiv(rsub((0, 1), b), a),
{
    lemma_root_values(a, b, s);
    let (b0, b1, s0, s1, a0, a1) = (b.0, b.1, s.0, s.1, a.0, a.1);
    let k = b1 * s1 * (2 * a0);
    let x = root_plus(a, b, s);
    let y = root_minus(a, b, s);
    let x2 = ((-b0 * s1 + s0 * b1) * a1, k);
    let y2 = ((-b0 * s1 - s0 * b1) * a1, k);
    let l = radd(x, y);
    let l2 = frac_add(x2, y2);
    assert(x.1 * y.1 != 0) by (nonlinear_arith)
        requires
            x.1 > 0,
            y.1 > 0,
    ;
    lemma_normalize_same(frac_add(x, y).0, frac_add(x, y).1);
    lemma_same_value_ops(x, x2, y, y2);
    lemma_same_value_trans(l, frac_add(x, y), l2);
    let nb = rsub((0, 1), b);
    let nb2 = (-b0, b1);
    lemma_normalize_same(frac_sub((0, 1), b).0, frac_sub((0, 1), b).1);
    assert(frac_sub((0, 1), b) == nb2);
    let r = rdiv(nb, a);
    let r2 = frac_div(nb2, a);
    assert(nb.1 * a.0 != 0) by (nonlinear_arith)
        requires
            nb.1 > 0,
            a.0 != 0,
    ;
    lemma_normalize_same(frac_div(nb, a).0, frac_div(nb, a).1);
    lemma_same_value_ops(nb, nb2, a, a);
    lemma_same_value_trans(r, frac_div(nb, a), r2);
    assert(l2.0 == -2 * b0 * s1 * a1 * k) by (nonlinear_arith)
        requires
            l2 == frac_add(x2, y2),
            x2 == ((-b0 * s1 + s0 * b1) * a1, k),
            y2 == ((-b0 * s1 - s0 * b1) * a1, k),
    ;
    assert(l2.1 == k * k);
    assert(r2 == (-b0 * a1, b1 * a0));
    assert(same_value(l2, r2)) by (nonlinear_arith)
        requires
            l2.0 == -2 * b0 * s1 * a1 * k,
            l2.1 == k * k,
            k == b1 * s1 * (2 * a0),
            r2 == (-b0 * a1, b1 * a0),
    ;
    assert(l2.1 != 0) by (nonlinear_arith)
        requires
            l2.1 == k * k,
            k != 0,
    ;
    assert(r2.1 != 0) by (nonlinear_arith)
        requires
            r2.1 == b1 * a0,
            b1 > 0,
            a0 != 0,
    ;
    lemma_same_value_trans(l, l2, r2);
    lemma_same_value_trans(l, r2, r);
    lemma_lowest_unique(l, r);
}

/// Vieta's formula for the product: when `s` is an exact square root of the
/// discriminant (`s·s == b² - 4ac`), the roots `(-b ± s)/(2a)` multiply to
/// `c/a`, so the roots of [`solve_quadratic`] multiply to
/// [`product_of_roots`].
pub proof fn lemma_vieta_product(a: (int, int), b: (int, int), c: (int, int), s: (int, int))
    requires
        lowest(a),
        lowest(b),
        lowest(c),
        a.0 != 0,
        s.1 > 0,
        rmul(s, s) == disc(a, b, c),
    ensures
        rmul(root_plus(a, b, s), root_minus(a, b, s)) == rdiv(c, a),
{
    lemma_root_values(a, b, s);
    let (b0, b1, s0, s1, a0, a1, c0, c1) = (b.0, b.1, s.0, s.1, a.0, a.1, c.0, c.1);
    let k = b1 * s1 * (2 * a0);
    let x = root_plus(a, b, s);
    let y = root_minus(a, b, s);
    let x2 = ((-b0 * s1 + s0 * b1) * a1, k);
    let y2 = ((-b0 * s1 - s0 * b1) * a1, k);
    // the product of the roots
    let m = rmul(x, y);
    let m2 = frac_mul(x2, y2);
    assert(x.1 * y.1 != 0) by (nonlinear_arith)
        requires
            x.1 > 0,
            y.1 > 0,
    ;
    lemma_normalize_same(frac_mul(x, y).0, frac_mul(x, y).1);
    lemma_same_value_ops(x, x2, y, y2);
    lemma_same_value_trans(m, frac_mul(x, y), m2);
    // c / a
    let r = rdiv(c, a);
    let r2 = frac_div(c, a);
    assert(c1 * a0 != 0) by (nonlinear_arith)
        requires
            c1 > 0,
            a0 != 0,
    ;
    lemma_normalize_same(r2.0, r2.1);
    // the discriminant as a plain fraction
    let bb = rmul(b, b);
    assert(b1 * b1 != 0) by (nonlinear_arith)
        requires
            b1 > 0,
    ;
    lemma_normalize_same(frac_mul(b, b).0, frac_mul(b, b).1);
    let fa = rmul((4, 1), a);
    lemma_normalize_same(frac_mul((4, 1), a).0, frac_mul((4, 1), a).1);
    assert(frac_mul((4, 1), a) == (4 * a0, a1));
    let fac = rmul(fa, c);
    assert(fa.1 * c1 != 0) by (nonlinear_arith)
        requires
            fa.1 > 0,
            c1 > 0,
    ;
    lemma_normalize_same(frac_mul(fa, c).0, frac_mul(fa, c).1);
    lemma_same_value_ops(fa, (4 * a0, a1), c, c);
    lemma_same_value_trans(fac, frac_mul(fa, c), frac_mul((4 * a0, a1), c));
    let d = rsub(bb, fac);
    assert(bb.1 * fac.1 != 0) by (nonlinear_arith)
        requires
            bb.1 > 0,
            fac.1 > 0,
    ;
    lemma_normalize_same(frac_sub(bb, fac).0, frac_sub(bb, fac).1);
    let d2 = frac_sub(frac_mul(b, b), frac_mul((4 * a0, a1), c));
    lemma_same_value_ops(bb, frac_mul(b, b), fac, frac_mul((4 * a0, a1), c));
    lemma_same_value_trans(d, frac_sub(bb, fac), d2);
    // s·s has the value of the discriminant
    let ss = rmul(s, s);
    assert(s1 * s1 != 0) by (nonlinear_arith)
        requires
            s1 > 0,
    ;
    lemma_normalize_same(frac_mul(s, s).0, frac_mul(s, s).1);
    assert(ss == d);
    lemma_same_value_trans(frac_mul(s, s), ss, d2);
    let dd = b0 * b0 * (a1 * c1) - (4 * a0 * c0) * (b1 * b1);
    assert(d2 == (dd, (b1 * b1) * (a1 * c1)));
    assert(s0 * s0 * ((b1 * b1) * (a1 * c1)) == dd * (s1 * s1));
    // the algebra: (b₀²s₁² - s₀²b₁²)·a₁c₁ = 4a₀c₀b₁²s₁²
    let p = b0 * s1;
    let q = s0 * b1;
    let e = (-b0 * s1 + s0 * b1) * (-b0 * s1 - s0 * b1);
    assert(e == (-p + q) * (-p - q)) by (nonlinear_arith)
        requires
            p == b0 * s1,
            q == s0 * b1,
            e == (-b0 * s1 + s0 * b1) * (-b0 * s1 - s0 * b1),
    ;
    assert((-p + q) * (-p - q) == p * p - q * q) by (nonlinear_arith);
    let p2 = b0 * b0;
    let s2 = s1 * s1;
    let b2 = b1 * b1;
    let t2 = s0 * s0;
    let ac = a1 * c1;
    let f = 4 * a0 * c0;
    assert(p * p == p2 * s2) by (nonlinear_arith)
        requires
            p == b0 * s1,
            p2 == b0 * b0,
            s2 == s1 * s1,
    ;
    assert(q * q == t2 * b2) by (nonlinear_arith)
        requires
            q == s0 * b1,
            t2 == s0 * s0,
            b2 == b1 * b1,
    ;
    assert(e == p2 * s2 - t2 * b2);
    assert(t2 * (b2 * ac) == (p2 * ac - f * b2) * s2);
    assert(e * ac == p2 * s2 * ac - t2 * b2 * ac) by (nonlinear_arith)
        requires
            e == p2 * s2 - t2 * b2,
    ;
    assert(t2 * b2 * ac == p2 * ac * s2 - f * b2 * s2) by (nonlinear_arith)
        requires
            t2 * (b2 * ac) == (p2 * ac - f * b2) * s2,
    ;
    assert(p2 * s2 * ac == p2 * ac * s2) by (nonlinear_arith);
    assert(e * (a1 * c1) == f * b2 * s2);
    assert(m2 == (e * (a1 * a1), k * k)) by (nonlinear_arith)
        requires
            m2 == frac_mul(x2, y2),
            x2 == ((-b0 * s1 + s0 * b1) * a1, k),
            y2 == ((-b0 * s1 - s0 * b1) * a1, k),
            e == (-b0 * s1 + s0 * b1) * (-b0 * s1 - s0 * b1),
    ;
    assert(r2 == (c0 * a1, c1 * a0));
    assert(k * k == 4 * (a0 * a0) * (b2 * s2)) by (nonlinear_arith)
        requires
            k == b1 * s1 * (2 * a0),
            b2 == b1 * b1,
            s2 == s1 * s1,
    ;
    assert((e * (a1 * a1)) * (c1 * a0) * a1 == (e * (a1 * c1)) * (a1 * a1 * a0)) by (nonlinear_arith);
    assert((e * (a1 * c1)) * (a1 * a1 * a0) == (4 * a0 * c0 * b2 * s2) * (a1 * a1 * a0)) by (nonlinear_arith)
        requires
            e * (a1 * c1) == f * b2 * s2,
            f == 4 * a0 * c0,
    ;
    assert((4 * a0 * c0 * b2 * s2) * (a1 * a1 * a0) == (c0 * a1) * (4 * (a0 * a0) * (b2 * s2)) * a1) by (nonlinear_arith);
    assert((e * (a1 * a1)) * (c1 * a0) * a1 == (c0 * a1) * (k * k) * a1);
    assert(same_value(m2, r2)) by (nonlinear_arith)
        requires
            (e * (a1 * a1)) * (c1 * a0) * a1 == (c0 * a1) * (k * k) * a1,
            a1 > 0,
            m2 == (e * (a1 * a1), k * k),
            r2 == (c0 * a1, c1 * a0),
    ;
    assert(m2.1 != 0 && r2.1 != 0) by (nonlinear_arith)
        requires
            m2.1 == k * k,
            k != 0,
            r2.1 == c1 * a0,
            c1 > 0,
            a0 != 0,
    ;
    lemma_same_value_trans(m, m2, r2);
    lemma_same_value_trans(m, r2, r);
    lemma_lowest_unique(m, r);
}

// ============================================================================
// Arithmetic progressions
// ============================================================================

/// The `n`-th term (1-indexed) of an arithmetic progression: `a + (n-1)·d`.
pub fn ap_nth_term(a: Rational, d: Rational, n: i64) -> (t: Rational)
    requires
        n > i64::MIN + 1,
        fits(rmul((n - 1, 1), d.pair())),
        fits(radd(a.pair(), rmul((n - 1, 1), d.pair()))),
    ensures
        t.pair() == radd(a.pair(), rmul((n - 1, 1), d.pair())),
{
    a.add(&Rational::from_integer(n - 1).mul(&d))
}

/// The sum of the first `n` terms: `n/2 · (2a + (n-1)·d)`.
pub fn ap_sum(a: Rational, d: Rational, n: i64) -> (s: Rational)
    requires
        n > i64::MIN + 1,
        fits(rdiv((n as int, 1), (2, 1))),
        fits(rmul((2, 1), a.pair())),
        fits(rmul((n - 1, 1), d.pair())),
        fits(radd(rmul((2, 1), a.pair()), rmul((n - 1, 1), d.pair()))),
        fits(rmul(rdiv((n as int, 1), (2, 1)), radd(rmul((2, 1), a.pair()), rmul((n - 1, 1), d.pair())))),
    ensures
        s.pair() == rmul(rdiv((n as int, 1), (2, 1)), radd(rmul((2, 1), a.pair()), rmul((n - 1, 1), d.pair()))),
{
    let n_rat = Rational::from_integer(n);
    let two = Rational::from_integer(2);
    n_rat.div(&two).mul(&two.mul(&a).add(&Rational::from_integer(n - 1).mul(&d)))
}

/// The sum of the first `n` terms from the first and last: `n/2 · (first + last)`.
pub fn ap_sum_with_last(first: Rational, last: Rational, n: i64) -> (s: Rational)
    requires
        n > i64::MIN,
        fits(rdiv((n as int, 1), (2, 1))),
        fits(radd(first.pair(), last.pair())),
        fits(rmul(rdiv((n as int, 1), (2, 1)), radd(first.pair(), last.pair()))),
    ensures
        s.pair() == rmul(rdiv((n as int, 1), (2, 1)), radd(first.pair(), last.pair())),
{
    let two = Rational::from_integer(2);
    Rational::from_integer(n).div(&two).mul(&first.add(&last))
}

/// The common difference from the terms at positions `m` and `n`:
/// `(term_n - term_m) / (n - m)`, or 0 when `m == n`.
pub fn ap_common_difference(term_m: Rational, term_n: Rational, m: i64, n: i64) -> (d: Rational)
    requires
        m != n ==> i64::MIN < n - m <= i64::MAX,
        m != n ==> fits(rsub(term_n.pair(), term_m.pair())),
        m != n ==> fits(rdiv(rsub(term_n.pair(), term_m.pair()), (n - m, 1))),
    ensures
        m == n ==> d.pair() == (0int, 1int),
        m != n ==> d.pair() == rdiv(rsub(term_n.pair(), term_m.pair()), (n - m, 1)),
{
    if m == n {
        return Rational::from_integer(0);
    }
    let k = Rational::from_integer(n - m);
    term_n.sub(&term_m).div(&k)
}

// ============================================================================
// Geometric progressions
// ============================================================================

/// `p^k` for an integer `k`: the reciprocal of `p^(-k)` when `k` is negative.
pub open spec fn rpow_int(p: (int, int), k: int) -> (int, int) {
    if k >= 0 {
        rpow(p, k as nat)
    } else {
        rdiv((1, 1), rpow(p, (-k) as nat))
    }
}

/// Whether `p^k` can be computed: every partial power fits and, for a
/// negative `k`, `p` is not zero and the reciprocal fits.
pub open spec fn pow_int_ok(p: (int, int), k: int) -> bool {
    if k >= 0 {
        pow_fits(p, k as nat)
    } else {
        p.0 != 0 && pow_fits(p, (-k) as nat) && fits(rdiv((1, 1), rpow(p, (-k) as nat)))
    }
}

/// A power of a non-zero fraction in lowest terms is non-zero.
proof fn lemma_rpow_nonzero(p: (int, int), k: nat)
    requires
        p.0 != 0,
        p.1 > 0,
    ensures
        rpow(p, k).0 != 0,
        rpow(p, k).1 > 0,
    decreases k,
{
    if k > 0 {
        lemma_rpow_nonzero(p, (k - 1) as nat);
        let x = rpow(p, (k - 1) as nat);
        let n = x.0 * p.0;
        let d = x.1 * p.1;
        assert(n != 0 && d > 0) by (nonlinear_arith)
            requires
                x.0 != 0,
                p.0 != 0,
                x.1 > 0,
                p.1 > 0,
                n == x.0 * p.0,
                d == x.1 * p.1,
        ;
        crate::rational::lemma_normalize(n, d);
        let q = normalize(n, d);
        assert(q.0 != 0) by (nonlinear_arith)
            requires
                q.0 * d == n * q.1,
                n != 0,
                q.1 > 0,
        ;
    }
}

/// `r^k` for an integer exponent, as [`rpow_int`] states.
fn pow_int(r: &Rational, k: i64) -> (t: Rational)
    requires
        i32::MIN <= k <= i32::MAX,
        pow_int_ok(r.pair(), k as int),
    ensures
        t.pair() == rpow_int(r.pair(), k as int),
{
    if k >= 0 {
        r.pow(k as u32)
    } else {
        let p = r.pow((-k) as u32);
        r.lemma_wf();
        proof {
            lemma_rpow_nonzero(r.pair(), (-k) as nat);
        }
        let one = Rational::from_integer(1);
        one.div(&p)
    }
}

/// The `n`-th term (1-indexed) of a geometric progression: `a · r^(n-1)`;
/// a negative exponent gives the reciprocal power.
pub fn gp_nth_term(a: Rational, r: Rational, n: i64) -> (t: Rational)
    requires
        i32::MIN <= n - 1 <= i32::MAX,
        pow_int_ok(r.pair(), n - 1),
        fits(rmul(a.pair(), rpow_int(r.pair(), n - 1))),
    ensures
        t.pair() == rmul(a.pair(), rpow_int(r.pair(), n - 1)),
{
    a.mul(&pow_int(&r, n - 1))
}

/// The sum of the first `n` terms: `n·a` when `r == 1`, otherwise
/// `a·(r^n - 1)/(r - 1)`, with `r^n` as [`rpow_int`] states.
pub fn gp_sum(a: Rational, r: Rational, n: i64) -> (s: Option<Rational>)
    requires
        i32::MIN <= n <= i32::MAX,
        r.pair() == (1int, 1int) ==> fits(rmul((n as int, 1), a.pair())),
        r.pair() != (1int, 1int) ==> {
            &&& pow_int_ok(r.pair(), n as int)
            &&& fits(rsub(rpow_int(r.pair(), n as int), (1, 1)))
            &&& fits(rmul(a.pair(), rsub(rpow_int(r.pair(), n as int), (1, 1))))
            &&& fits(rsub(r.pair(), (1, 1)))
            &&& fits(rdiv(rmul(a.pair(), rsub(rpow_int(r.pair(), n as int), (1, 1))), rsub(r.pair(), (1, 1))))
        },
    ensures
        r.pair() == (1int, 1int) ==> (s matches Some(x) && x.pair() == rmul((n as int, 1), a.pair())),
        r.pair() != (1int, 1int) ==> (s matches Some(x) && x.pair() == rdiv(
            rmul(a.pair(), rsub(rpow_int(r.pair(), n as int), (1, 1))),
            rsub(r.pair(), (1, 1)),
        )),
{
    if r.is_one() {
        return Some(Rational::from_integer(n).mul(&a));
    }
    let one = Rational::from_integer(1);
    let r_n = pow_int(&r, n);
    let numerator = a.mul(&r_n.sub(&one));
    let denominator = r.sub(&one);
    r.lemma_wf();
    proof {
        assert(frac_sub(r.pair(), (1, 1)) == (r.num() - r.den(), r.den()));
        if denominator.num() == 0 {
            crate::rational::lemma_normalize_zero(r.num() - r.den(), r.den());
            assert(r.num() == r.den());
            assert(gcd(r.den() as nat, r.den() as nat) == gcd(r.den() as nat, 0nat)) by {
                assert((r.den() as nat) % (r.den() as nat) == 0) by (nonlinear_arith)
                    requires
                        r.den() > 0,
                ;
            }
        }
    }
    if denominator.is_zero() {
        None
    } else {
        Some(numerator.div(&denominator))
    }
}

/// The sum of an infinite geometric progression, `a / (1 - r)`, when
/// `|r| < 1`; `None` when the series diverges.
pub fn gp_sum_infinite(a: Rational, r: Rational) -> (s: Option<Rational>)
    requires
        crate::rational::abs(r.num()) < r.den() ==> fits(rsub((1, 1), r.pair())) && fits(rdiv(a.pair(), rsub((1, 1), r.pair()))),
    ensures
        crate::rational::abs(r.num()) >= r.den() ==> s is None,
        crate::rational::abs(r.num()) < r.den() ==> (s matches Some(x) && x.pair() == rdiv(a.pair(), rsub((1, 1), r.pair()))),
{
    let abs_r = r.abs();
    r.lemma_wf();
    if abs_r.numer() >= abs_r.denom() {
        return None;
    }
    let one = Rational::from_integer(1);
    let denominator = one.sub(&r);
    proof {
        crate::rational::lemma_normalize_zero(r.den() - r.num(), r.den());
    }
    if denominator.is_zero() {
        None
    } else {
        Some(a.div(&denominator))
    }
}

/// The common ratio from the terms at positions `m` and `n`: the quotient
/// for adjacent terms, its rational square root for terms two apart (when
/// numerator and denominator are perfect squares and it is not negative);
/// `None` when `m == n`, `term_m` is zero, or otherwise.
pub fn gp_common_ratio(term_m: Rational, term_n: Rational, m: i64, n: i64) -> (r: Option<Rational>)
    requires
        m != n && term_m.num() != 0 ==> i64::MIN <= n - m <= i64::MAX && fits(rdiv(term_n.pair(), term_m.pair())),
    ensures
        (m == n || term_m.num() == 0) ==> r is None,
        m != n && term_m.num() != 0 ==> ({
            let q = rdiv(term_n.pair(), term_m.pair());
            let sn = floor_sqrt(q.0 as nat);
            let sd = floor_sqrt(q.1 as nat);
            &&& n - m == 1 ==> r == Some(rat(q))
            &&& n - m == 2 ==> r == (if q.0 >= 0 && sn * sn == q.0 && sd * sd == q.1 {
                Some(rat(normalize(sn as int, sd as int)))
            } else {
                None
            })
            &&& (n - m != 1 && n - m != 2) ==> r is None
        }),
{
    if m == n || term_m.is_zero() {
        return None;
    }
    let ratio = term_n.div(&term_m);
    ratio.lemma_wf();
    proof {
        lemma_rat_pair(ratio);
    }
    let power = n - m;
    if power == 1 {
        Some(ratio)
    } else if power == 2 {
        let r_numer = ratio.numer();
        let r_denom = ratio.denom();
        let a = if r_numer < 0 {
            -r_numer
        } else {
            r_numer
        };
        match (int_sqrt(a), int_sqrt(r_denom)) {
            (Some(sn), Some(sd)) => {
                if r_numer >= 0 {
                    proof {
                        lemma_floor_sqrt(r_denom as nat);
                        if sd == 0 {
                            assert(r_denom < 1);
                        }
                    }
                    let x = Rational::new(sn, sd);
                    proof {
                        lemma_rat_pair(x);
                    }
                    Some(x)
                } else {
                    None
                }
            },
            _ => None,
        }
    } else {
        None
    }
}

// ============================================================================
// Antiderivatives
// ============================================================================

/// Whether `var` may occur in `e`: constants do not contain it, a variable
/// is it or not, and the check goes through negation, sums, differences,
/// products, quotients and powers; any other form may contain it.
pub open spec fn contains_var_view(e: Expr, var: Symbol) -> bool
    decreases e,
{
    match e {
        Expr::Const(_) => false,
        Expr::Var(v) => v == var,
        Expr::Neg(x) => contains_var_view(*x, var),
        Expr::Add(x, y) => contains_var_view(*x, var) || contains_var_view(*y, var),
        Expr::Sub(x, y) => contains_var_view(*x, var) || contains_var_view(*y, var),
        Expr::Mul(x, y) => contains_var_view(*x, var) || contains_var_view(*y, var),
        Expr::Div(x, y) => contains_var_view(*x, var) || contains_var_view(*y, var),
        Expr::Pow(x, y) => contains_var_view(*x, var) || contains_var_view(*y, var),
        _ => true,
    }
}

/// Whether `var` may occur in `expr`, as [`contains_var_view`] states.
pub fn contains_var(expr: &Expr, var: Symbol) -> (b: bool)
    ensures
        b == contains_var_view(*expr, var),
    decreases expr,
{
    match expr {
        Expr::Const(_) => false,
        Expr::Var(v) => v.0 == var.0,
        Expr::Neg(e) => contains_var(e, var),
        Expr::Add(a, b) | Expr::Sub(a, b) | Expr::Mul(a, b) | Expr::Div(a, b) => contains_var(a, var) || contains_var(b, var),
        Expr::Pow(base, exp) => contains_var(base, var) || contains_var(exp, var),
        _ => true,
    }
}

/// The integer constant `n` as an expression.
pub open spec fn int_expr(n: int) -> Expr {
    Expr::Const(rat((n, 1)))
}

/// The antiderivative by the elementary rules, constant of integration
/// omitted: `∫c = c·x`; `∫x = x²/2`; another variable `y` gives `y·x`;
/// negation, sums and differences term by term; a product with one factor
/// free of `x` keeps that factor; `∫x^n = x^(n+1)/(n+1)` for a constant
/// `n ≠ -1` (with `n + 1` in `i64`); a power of another base `b^e`, with a
/// variable base and constant exponent, gives `b^e·x`.  `None` otherwise.
pub open spec fn integrate_view(e: Expr, var: Symbol) -> Option<Expr>
    decreases e,
{
    match e {
        Expr::Const(c) => Some(Expr::Mul(Box::new(Expr::Const(c)), Box::new(Expr::Var(var)))),
        Expr::Var(v) => if v == var {
            Some(Expr::Div(Box::new(Expr::Pow(Box::new(Expr::Var(var)), Box::new(int_expr(2)))), Box::new(int_expr(2))))
        } else {
            Some(Expr::Mul(Box::new(e), Box::new(Expr::Var(var))))
        },
        Expr::Neg(inner) => match integrate_view(*inner, var) {
            Some(i) => Some(Expr::Neg(Box::new(i))),
            None => None,
        },
        Expr::Add(a, b) => match (integrate_view(*a, var), integrate_view(*b, var)) {
            (Some(x), Some(y)) => Some(Expr::Add(Box::new(x), Box::new(y))),
            _ => None,
        },
        Expr::Sub(a, b) => match (integrate_view(*a, var), integrate_view(*b, var)) {
            (Some(x), Some(y)) => Some(Expr::Sub(Box::new(x), Box::new(y))),
            _ => None,
        },
        Expr::Mul(a, b) => if !contains_var_view(*a, var) {
            match integrate_view(*b, var) {
                Some(y) => Some(Expr::Mul(a, Box::new(y))),
                None => None,
            }
        } else if !contains_var_view(*b, var) {
            match integrate_view(*a, var) {
                Some(x) => Some(Expr::Mul(Box::new(x), b)),
                None => None,
            }
        } else {
            None
        },
        Expr::Pow(base, exp) => match (*base, *exp) {
            (Expr::Var(v), Expr::Const(n)) => if v == var {
                let n1 = radd(n.pair(), (1, 1));
                if n1.0 == 0 || !fits(n1) {
                    None
                } else {
                    Some(Expr::Div(
                        Box::new(Expr::Pow(Box::new(Expr::Var(var)), Box::new(Expr::Const(rat(n1))))),
                        Box::new(Expr::Const(rat(n1))),
                    ))
                }
            } else {
                Some(Expr::Mul(Box::new(e), Box::new(Expr::Var(var))))
            },
            _ => None,
        },
        _ => None,
    }
}

/// The antiderivative of `expr` with respect to `var`, as
/// [`integrate_view`] states.
pub fn integrate(expr: &Expr, var: Symbol) -> (r: Option<Expr>)
    ensures
        r == integrate_view(*expr, var),
    decreases expr,
{
    match expr {
        Expr::Const(c) => Some(Expr::Mul(Box::new(Expr::Const(*c)), Box::new(Expr::Var(var)))),
        Expr::Var(v) => {
            if v.0 == var.0 {
                let two = Expr::integer(2);
                let two2 = Expr::integer(2);
                proof {
                    lemma_rat_pair(two->Const_0);
                    lemma_rat_pair(two2->Const_0);
                }
                Some(Expr::Div(Box::new(Expr::Pow(Box::new(Expr::Var(var)), Box::new(two))), Box::new(two2)))
            } else {
                Some(Expr::Mul(Box::new(Expr::Var(*v)), Box::new(Expr::Var(var))))
            }
        },
        Expr::Neg(inner) => match integrate(inner, var) {
            Some(i) => Some(Expr::Neg(Box::new(i))),
            None => None,
        },
        Expr::Add(a, b) => {
            let x = match integrate(a, var) {
                Some(x) => x,
                None => return None,
            };
            let y = match integrate(b, var) {
                Some(y) => y,
                None => return None,
            };
            Some(Expr::Add(Box::new(x), Box::new(y)))
        },
        Expr::Sub(a, b) => {
            let x = match integrate(a, var) {
                Some(x) => x,
                None => return None,
            };
            let y = match integrate(b, var) {
                Some(y) => y,
                None => return None,
            };
            Some(Expr::Sub(Box::new(x), Box::new(y)))
        },
        Expr::Mul(a, b) => {
            if !contains_var(a, var) {
                match integrate(b, var) {
                    Some(y) => Some(Expr::Mul(Box::new(copy_expr(a)), Box::new(y))),
                    None => None,
                }
            } else if !contains_var(b, var) {
                match integrate(a, var) {
                    Some(x) => Some(Expr::Mul(Box::new(x), Box::new(copy_expr(b)))),
                    None => None,
                }
            } else {
                None
            }
        },
        Expr::Pow(base, exp) => {
            match (&**base, &**exp) {
                (Expr::Var(v), Expr::Const(n)) => {
                    if v.0 == var.0 {
                        let one = Rational::from_integer(1);
                        match n.checked_add(&one) {
                            Some(n1) => {
                                n1.lemma_wf();
                                proof {
                                    lemma_rat_pair(n1);
                                }
                                if n1.is_zero() {
                                    None
                                } else {
                                    Some(Expr::Div(
                                        Box::new(Expr::Pow(Box::new(Expr::Var(var)), Box::new(Expr::Const(n1)))),
                                        Box::new(Expr::Const(n1)),
                                    ))
                                }
                            },
                            None => None,
                        }
                    } else {
                        Some(Expr::Mul(Box::new(copy_expr(expr)), Box::new(Expr::Var(var))))
                    }
                },
                _ => None,
            }
        },
        _ => None,
    }
}

/// The antiderivative is linear: at any point `p` where the
/// antiderivatives of `a` and `b` take the values `u` and `w`, the
/// antiderivative of `a - b` takes `u - w` and that of `a + b` takes
/// `u + w` (where these fit), and the antiderivative of `-a` takes `-u`.
pub proof fn lemma_integral_linear(a: Expr, b: Expr, var: Symbol, p: (int, int))
    ensures
        integrate_view(a, var) matches Some(fa) ==> integrate_view(b, var) matches Some(fb) ==> eval_at(fa, var, p)
            matches Some(u) ==> eval_at(fb, var, p) matches Some(w) ==> {
            &&& integrate_view(Expr::Sub(Box::new(a), Box::new(b)), var) is Some
            &&& fits(rsub(u, w)) ==> eval_at(integrate_view(Expr::Sub(Box::new(a), Box::new(b)), var)->0, var, p) == Some(
                rsub(u, w),
            )
            &&& integrate_view(Expr::Add(Box::new(a), Box::new(b)), var) is Some
            &&& fits(radd(u, w)) ==> eval_at(integrate_view(Expr::Add(Box::new(a), Box::new(b)), var)->0, var, p) == Some(
                radd(u, w),
            )
        },
        integrate_view(a, var) matches Some(fa) ==> eval_at(fa, var, p) matches Some(u) ==> eval_at(
            integrate_view(Expr::Neg(Box::new(a)), var)->0,
            var,
            p,
        ) == Some((-u.0, u.1)),
{
    if let Some(fa) = integrate_view(a, var) {
        let na = Expr::Neg(Box::new(fa));
        assert(integrate_view(Expr::Neg(Box::new(a)), var) == Some(na));
        if let Some(u) = eval_at(fa, var, p) {
            assert(eval_at(na, var, p) == Some((-u.0, u.1)));
        }
        if let Some(fb) = integrate_view(b, var) {
            let sab = Expr::Sub(Box::new(fa), Box::new(fb));
            let aab = Expr::Add(Box::new(fa), Box::new(fb));
            assert(integrate_view(Expr::Sub(Box::new(a), Box::new(b)), var) == Some(sab));
            assert(integrate_view(Expr::Add(Box::new(a), Box::new(b)), var) == Some(aab));
            if let (Some(u), Some(w)) = (eval_at(fa, var, p), eval_at(fb, var, p)) {
                assert(fits(rsub(u, w)) ==> eval_at(sab, var, p) == Some(rsub(u, w)));
                assert(fits(radd(u, w)) ==> eval_at(aab, var, p) == Some(radd(u, w)));
            }
        }
    }
}

/// A factor free of the variable comes out of the antiderivative: where
/// `c` has the value `k` and the antiderivative of `f` the value `w` at
/// `p`, the antiderivative of `c·f` takes the value `k·w`, and, when `f`
/// contains the variable, that of `f·c` takes `w·k` (where these fit).
pub proof fn lemma_integral_constant_factor(c: Expr, f: Expr, var: Symbol, p: (int, int))
    requires
        !contains_var_view(c, var),
    ensures
        integrate_view(f, var) matches Some(ff) ==> eval_at(c, var, p) matches Some(k) ==> eval_at(ff, var, p) matches Some(
            w,
        ) ==> {
            &&& integrate_view(Expr::Mul(Box::new(c), Box::new(f)), var) is Some
            &&& fits(rmul(k, w)) ==> eval_at(integrate_view(Expr::Mul(Box::new(c), Box::new(f)), var)->0, var, p) == Some(
                rmul(k, w),
            )
            &&& contains_var_view(f, var) ==> integrate_view(Expr::Mul(Box::new(f), Box::new(c)), var) is Some
            &&& contains_var_view(f, var) && fits(rmul(w, k)) ==> eval_at(
                integrate_view(Expr::Mul(Box::new(f), Box::new(c)), var)->0,
                var,
                p,
            ) == Some(rmul(w, k))
        },
{
    if let Some(ff) = integrate_view(f, var) {
        let cf = Expr::Mul(Box::new(c), Box::new(ff));
        let fc = Expr::Mul(Box::new(ff), Box::new(c));
        assert(integrate_view(Expr::Mul(Box::new(c), Box::new(f)), var) == Some(cf));
        if contains_var_view(f, var) {
            assert(integrate_view(Expr::Mul(Box::new(f), Box::new(c)), var) == Some(fc));
        }
        if let (Some(k), Some(w)) = (eval_at(c, var, p), eval_at(ff, var, p)) {
            assert(fits(rmul(k, w)) ==> eval_at(cf, var, p) == Some(rmul(k, w)));
            assert(fits(rmul(w, k)) ==> eval_at(fc, var, p) == Some(rmul(w, k)));
        }
    }
}

/// The antiderivative of an expression whose constants are valid has valid
/// constants.
proof fn lemma_integral_valid(e: Expr, var: Symbol)
    requires
        crate::calculus::valid_constants(e),
    ensures
        integrate_view(e, var) matches Some(f) ==> crate::calculus::valid_constants(f),
    decreases e,
{
    reveal_with_fuel(crate::calculus::valid_constants, 3);
    crate::rational::lemma_rat_of_pair((2, 1));
    assert(crate::rational::gcd(2, 1) == crate::rational::gcd(1, 0));
    match e {
        Expr::Neg(a) => lemma_integral_valid(*a, var),
        Expr::Add(a, b) | Expr::Sub(a, b) | Expr::Mul(a, b) => {
            lemma_integral_valid(*a, var);
            lemma_integral_valid(*b, var);
        },
        Expr::Pow(base, exp) => {
            if let (Expr::Var(v), Expr::Const(n)) = (*base, *exp) {
                assert(lowest(n.pair()));
                let n1 = radd(n.pair(), (1, 1));
                crate::rational::lemma_normalize_lowest(n.pair().0 * 1 + 1 * n.pair().1, n.pair().1 * 1);
                if fits(n1) {
                    crate::rational::lemma_rat_of_pair(n1);
                }
            }
        },
        _ => {},
    }
}

/// The ring identity behind [`lemma_difference_of_differences`].
proof fn lemma_sub_sub_identity(a0: int, a1: int, b0: int, b1: int, c0: int, c1: int, d0: int, d1: int)
    ensures
        (a0 * b1 - b0 * a1) * (c1 * d1) - (c0 * d1 - d0 * c1) * (a1 * b1) == (a0 * c1 - c0 * a1) * (b1 * d1) - (b0 * d1
            - d0 * b1) * (a1 * c1),
        (a1 * b1) * (c1 * d1) == (a1 * c1) * (b1 * d1),
{
    assert((a0 * b1 - b0 * a1) * (c1 * d1) == a0 * b1 * c1 * d1 - b0 * a1 * c1 * d1) by (nonlinear_arith);
    assert((c0 * d1 - d0 * c1) * (a1 * b1) == c0 * d1 * a1 * b1 - d0 * c1 * a1 * b1) by (nonlinear_arith);
    assert((a0 * c1 - c0 * a1) * (b1 * d1) == a0 * c1 * b1 * d1 - c0 * a1 * b1 * d1) by (nonlinear_arith);
    assert((b0 * d1 - d0 * b1) * (a1 * c1) == b0 * d1 * a1 * c1 - d0 * b1 * a1 * c1) by (nonlinear_arith);
    assert(a0 * b1 * c1 * d1 == a0 * c1 * b1 * d1) by (nonlinear_arith);
    assert(b0 * a1 * c1 * d1 == b0 * d1 * a1 * c1) by (nonlinear_arith);
    assert(c0 * d1 * a1 * b1 == c0 * a1 * b1 * d1) by (nonlinear_arith);
    assert(d0 * c1 * a1 * b1 == d0 * b1 * a1 * c1) by (nonlinear_arith);
    assert((a1 * b1) * (c1 * d1) == (a1 * c1) * (b1 * d1)) by (nonlinear_arith);
}

/// `(a - b) - (c - d) = (a - c) - (b - d)` for values in lowest terms.
proof fn lemma_difference_of_differences(a: (int, int), b: (int, int), c: (int, int), d: (int, int))
    requires
        lowest(a),
        lowest(b),
        lowest(c),
        lowest(d),
    ensures
        rsub(rsub(a, b), rsub(c, d)) == rsub(rsub(a, c), rsub(b, d)),
{
    let ab = rsub(a, b);
    let cd = rsub(c, d);
    let ac = rsub(a, c);
    let bd = rsub(b, d);
    assert(a.1 * b.1 > 0 && c.1 * d.1 > 0 && a.1 * c.1 > 0 && b.1 * d.1 > 0) by (nonlinear_arith)
        requires
            a.1 > 0,
            b.1 > 0,
            c.1 > 0,
            d.1 > 0,
    ;
    crate::rational::lemma_normalize_same(frac_sub(a, b).0, frac_sub(a, b).1);
    crate::rational::lemma_normalize_same(frac_sub(c, d).0, frac_sub(c, d).1);
    crate::rational::lemma_normalize_same(frac_sub(a, c).0, frac_sub(a, c).1);
    crate::rational::lemma_normalize_same(frac_sub(b, d).0, frac_sub(b, d).1);
    let l = rsub(ab, cd);
    let r = rsub(ac, bd);
    assert(ab.1 * cd.1 > 0 && ac.1 * bd.1 > 0) by (nonlinear_arith)
        requires
            ab.1 > 0,
            cd.1 > 0,
            ac.1 > 0,
            bd.1 > 0,
    ;
    crate::rational::lemma_normalize_same(frac_sub(ab, cd).0, frac_sub(ab, cd).1);
    crate::rational::lemma_normalize_same(frac_sub(ac, bd).0, frac_sub(ac, bd).1);
    lemma_same_value_ops(ab, frac_sub(a, b), cd, frac_sub(c, d));
    lemma_same_value_ops(ac, frac_sub(a, c), bd, frac_sub(b, d));
    let x = frac_sub(frac_sub(a, b), frac_sub(c, d));
    let y = frac_sub(frac_sub(a, c), frac_sub(b, d));
    lemma_sub_sub_identity(a.0, a.1, b.0, b.1, c.0, c.1, d.0, d.1);
    assert(x == y);
    assert(x.1 != 0) by (nonlinear_arith)
        requires
            x == frac_sub(frac_sub(a, b), frac_sub(c, d)),
            a.1 > 0,
            b.1 > 0,
            c.1 > 0,
            d.1 > 0,
    ;
    assert(frac_sub(ab, cd).1 != 0);
    lemma_same_value_trans(l, frac_sub(ab, cd), x);
    lemma_same_value_trans(l, x, frac_sub(ac, bd));
    assert(frac_sub(ac, bd).1 != 0);
    assert(same_value(r, frac_sub(ac, bd)));
    assert(same_value(frac_sub(ac, bd), r)) by (nonlinear_arith)
        requires
            same_value(r, frac_sub(ac, bd)),
    ;
    lemma_same_value_trans(l, frac_sub(ac, bd), r);
    lemma_lowest_unique(l, r);
}

/// The definite integral of a difference is the difference of the definite
/// integrals: where the antiderivatives of `a`, `b` and `a - b` have values
/// at both ends, `∫(a - b)` over `[lower, upper]` is `∫a - ∫b` over it.
pub proof fn lemma_definite_integral_of_difference(
    a: Expr,
    b: Expr,
    var: Symbol,
    lower: (int, int),
    upper: (int, int),
)
    requires
        crate::calculus::valid_constants(a),
        crate::calculus::valid_constants(b),
        lowest(lower),
        fits(lower),
        lowest(upper),
        fits(upper),
    ensures
        integrate_view(a, var) matches Some(fa) ==> integrate_view(b, var) matches Some(fb) ==> integrate_view(
            Expr::Sub(Box::new(a), Box::new(b)),
            var,
        ) matches Some(fab) ==> eval_at(fa, var, upper) matches Some(u1) ==> eval_at(fa, var, lower) matches Some(u0)
            ==> eval_at(fb, var, upper) matches Some(w1) ==> eval_at(fb, var, lower) matches Some(w0) ==> eval_at(
            fab,
            var,
            upper,
        ) matches Some(h1) ==> eval_at(fab, var, lower) matches Some(h0) ==> rsub(h1, h0) == rsub(rsub(u1, u0), rsub(w1, w0)),
{
    lemma_integral_valid(a, var);
    lemma_integral_valid(b, var);
    if let (Some(fa), Some(fb)) = (integrate_view(a, var), integrate_view(b, var)) {
        let fab = Expr::Sub(Box::new(fa), Box::new(fb));
        assert(integrate_view(Expr::Sub(Box::new(a), Box::new(b)), var) == Some(fab));
        crate::calculus::lemma_eval_valid(fa, var, upper);
        crate::calculus::lemma_eval_valid(fa, var, lower);
        crate::calculus::lemma_eval_valid(fb, var, upper);
        crate::calculus::lemma_eval_valid(fb, var, lower);
        if let (Some(u1), Some(u0), Some(w1), Some(w0)) = (
            eval_at(fa, var, upper),
            eval_at(fa, var, lower),
            eval_at(fb, var, upper),
            eval_at(fb, var, lower),
        ) {
            lemma_difference_of_differences(u1, w1, u0, w0);
        }
    }
}

/// The definite integral `F(upper) - F(lower)` for the antiderivative `F`
/// of [`integrate_view`], evaluated by [`eval_at`]; `None` when there is no
/// antiderivative, an evaluation fails, or the difference leaves `i64`.
pub fn definite_integral(expr: &Expr, var: Symbol, lower: Rational, upper: Rational) -> (r: Option<Rational>)
    ensures
        r matches Some(v) ==> (integrate_view(*expr, var) matches Some(f) && eval_at(f, var, upper.pair()) matches Some(
            hi,
        ) && eval_at(f, var, lower.pair()) matches Some(lo) && v.pair() == rsub(hi, lo)),
        r is None ==> !(integrate_view(*expr, var) matches Some(f) && eval_at(f, var, upper.pair()) matches Some(hi)
            && eval_at(f, var, lower.pair()) matches Some(lo) && fits(rsub(hi, lo))),
{
    let antideriv = match integrate(expr, var) {
        Some(f) => f,
        None => return None,
    };
    let f_upper = match evaluate_at(&antideriv, var, upper) {
        Some(v) => v,
        None => return None,
    };
    let f_lower = match evaluate_at(&antideriv, var, lower) {
        Some(v) => v,
        None => return None,
    };
    f_upper.checked_sub(&f_lower)
}

} // verus!
