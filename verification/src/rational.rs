//! Exact rational numbers in lowest terms.
//!
//! A [`Rational`] is a pair of `i64` numerator and positive denominator with
//! no common factor, so two rationals are equal exactly when their fields are.
//! Every operation is stated over [`normalize`], the lowest-terms form of an
//! exact integer fraction; operations whose lowest-terms result does not fit
//! in `i64` are excluded by their `requires`.

use vstd::prelude::*;
use vstd::arithmetic::div_mod::*;
use vstd::arithmetic::mul::*;

verus! {

/// A pair in lowest terms with a positive denominator, as every
/// [`Rational`] is.
pub open spec fn lowest(p: (int, int)) -> bool {
    p.1 > 0 && gcd(abs(p.0), p.1 as nat) == 1
}

/// Lowest-terms sum.
pub open spec fn radd(a: (int, int), b: (int, int)) -> (int, int) {
    normalize(frac_add(a, b).0, frac_add(a, b).1)
}

/// Lowest-terms product.
pub open spec fn rmul(a: (int, int), b: (int, int)) -> (int, int) {
    normalize(frac_mul(a, b).0, frac_mul(a, b).1)
}

/// Lowest-terms difference.
pub open spec fn rsub(a: (int, int), b: (int, int)) -> (int, int) {
    normalize(frac_sub(a, b).0, frac_sub(a, b).1)
}

/// Lowest-terms quotient.
pub open spec fn rdiv(a: (int, int), b: (int, int)) -> (int, int) {
    normalize(frac_div(a, b).0, frac_div(a, b).1)
}

/// `p^k` by repeated multiplication, in lowest terms: `p^0 = 1`,
/// `p^k = p^(k-1) · p`.
pub open spec fn rpow(p: (int, int), k: nat) -> (int, int)
    decreases k,
{
    if k == 0 {
        (1, 1)
    } else {
        rmul(rpow(p, (k - 1) as nat), p)
    }
}

/// Every partial power `p^1, …, p^k` fits in a [`Rational`].
pub open spec fn pow_fits(p: (int, int), k: nat) -> bool
    decreases k,
{
    if k == 0 {
        true
    } else {
        pow_fits(p, (k - 1) as nat) && fits(rpow(p, k))
    }
}

/// `pow_fits` for an exponent gives it for every smaller one.
pub proof fn lemma_pow_fits_mono(p: (int, int), k: nat, j: nat)
    requires
        j <= k,
        pow_fits(p, k),
    ensures
        pow_fits(p, j),
    decreases k - j,
{
    if j < k {
        lemma_pow_fits_mono(p, (k - 1) as nat, j);
    }
}

/// Greatest common divisor, by Euclid's algorithm.
pub open spec fn gcd(a: nat, b: nat) -> nat
    decreases b,
{
    if b == 0 {
        a
    } else {
        gcd(b, a % b)
    }
}

/// Absolute value.
pub open spec fn abs(x: int) -> nat {
    if x < 0 {
        (-x) as nat
    } else {
        x as nat
    }
}

/// The lowest-terms form is itself in lowest terms.
pub proof fn lemma_normalize_lowest(n: int, d: int)
    requires
        d != 0,
    ensures
        lowest(normalize(n, d)),
{
    lemma_normalize(n, d);
}

/// Lowest-terms form `(numerator, denominator)` of `n / d`, with a positive
/// denominator.  Meaningful for `d != 0`.
pub open spec fn normalize(n: int, d: int) -> (int, int) {
    let g = gcd(abs(n), abs(d)) as int;
    let s: int = if d < 0 {
        -1
    } else {
        1
    };
    ((s * n) / g, abs(d) as int / g)
}

/// Whether a lowest-terms pair can be stored in a [`Rational`].
pub open spec fn fits(p: (int, int)) -> bool {
    i64::MIN < p.0 <= i64::MAX && 0 < p.1 <= i64::MAX
}

/// Exact sum of two fractions, unreduced.
pub open spec fn frac_add(a: (int, int), b: (int, int)) -> (int, int) {
    (a.0 * b.1 + b.0 * a.1, a.1 * b.1)
}

/// Exact difference of two fractions, unreduced.
pub open spec fn frac_sub(a: (int, int), b: (int, int)) -> (int, int) {
    (a.0 * b.1 - b.0 * a.1, a.1 * b.1)
}

/// Exact product of two fractions, unreduced.
pub open spec fn frac_mul(a: (int, int), b: (int, int)) -> (int, int) {
    (a.0 * b.0, a.1 * b.1)
}

/// Exact quotient of two fractions, unreduced.
pub open spec fn frac_div(a: (int, int), b: (int, int)) -> (int, int) {
    (a.0 * b.1, a.1 * b.0)
}

/// `gcd(a, b)` divides both arguments; the witnesses are returned.
pub proof fn lemma_gcd_divides(a: nat, b: nat) -> (ks: (int, int))
    requires
        a > 0 || b > 0,
    ensures
        gcd(a, b) > 0,
        a == ks.0 * gcd(a, b),
        b == ks.1 * gcd(a, b),
        ks.0 >= 0,
        ks.1 >= 0,
    decreases b,
{
    if b == 0 {
        (1, 0)
    } else {
        let r = a % b;
        let q = a / b;
        lemma_fundamental_div_mod(a as int, b as int);
        assert(q >= 0);
        let inner = lemma_gcd_divides(b, r);
        let g = gcd(b, r) as int;
        // a == b * q + r == g * (ks.0 * q + ks.1)
        assert(a == (inner.0 * q + inner.1) * g) by (nonlinear_arith)
            requires
                a == b * q + r,
                b == inner.0 * g,
                r == inner.1 * g,
        ;
        assert(inner.0 * q + inner.1 >= 0) by (nonlinear_arith)
            requires
                inner.0 >= 0,
                q >= 0,
                inner.1 >= 0,
        ;
        (inner.0 * q + inner.1, inner.0)
    }
}

/// `(k * a) % (k * b) == k * (a % b)` for positive `k` and `b`.
proof fn lemma_mod_scale(k: nat, a: nat, b: nat)
    requires
        k > 0,
        b > 0,
    ensures
        (k * a) % (k * b) == k * (a % b),
{
    lemma_fundamental_div_mod(a as int, b as int);
    let q = a / b;
    let r = a % b;
    assert(k * a == q * (k * b) + k * r && 0 <= k * r < k * b) by (nonlinear_arith)
        requires
            a == b * q + r,
            0 <= r < b,
            k > 0,
    ;
    lemma_fundamental_div_mod_converse((k * a) as int, (k * b) as int, q as int, (k * r) as int);
}

/// `gcd(k * a, k * b) == k * gcd(a, b)` for positive `k`.
proof fn lemma_gcd_scale(k: nat, a: nat, b: nat)
    requires
        k > 0,
    ensures
        gcd(k * a, k * b) == k * gcd(a, b),
    decreases b,
{
    if b == 0 {
        assert(k * b == 0);
    } else {
        assert(k * b > 0) by (nonlinear_arith)
            requires
                k > 0,
                b > 0,
        ;
        lemma_mod_scale(k, a, b);
        lemma_gcd_scale(k, b, a % b);
    }
}

/// Dividing both arguments by their gcd leaves coprime numbers.
pub proof fn lemma_reduced_coprime(a: nat, b: nat, ka: nat, kb: nat)
    requires
        a > 0 || b > 0,
        a == ka * gcd(a, b),
        b == kb * gcd(a, b),
    ensures
        gcd(ka, kb) == 1,
{
    let ks = lemma_gcd_divides(a, b);
    let g = gcd(a, b);
    assert(a == g * ka && b == g * kb) by (nonlinear_arith)
        requires
            a == ka * g,
            b == kb * g,
    ;
    lemma_gcd_scale(g, ka, kb);
    assert(g * gcd(ka, kb) == g * 1);
    lemma_mul_equality_converse(g as int, gcd(ka, kb) as int, 1);
}

/// Facts about [`normalize`]: it keeps the value, gives a positive
/// denominator and a coprime pair.
pub proof fn lemma_normalize(n: int, d: int)
    requires
        d != 0,
    ensures
        normalize(n, d).1 > 0,
        normalize(n, d).0 * d == n * normalize(n, d).1,
        gcd(abs(normalize(n, d).0), normalize(n, d).1 as nat) == 1,
        abs(normalize(n, d).0) <= abs(n),
        normalize(n, d).1 <= abs(d),
        n == 0 ==> normalize(n, d) == (0int, 1int),
{
    let g = gcd(abs(n), abs(d));
    let ks = lemma_gcd_divides(abs(n), abs(d));
    let s: int = if d < 0 {
        -1
    } else {
        1
    };
    let p = normalize(n, d);
    // s * n == (s * sign(n) * ks.0) * g, exactly divisible.
    let sn: int = if n < 0 {
        -s * ks.0
    } else {
        s * ks.0
    };
    assert(s * n == sn * g) by (nonlinear_arith)
        requires
            abs(n) == ks.0 * g,
            s == 1 || s == -1,
            sn == (if n < 0 {
                -s * ks.0
            } else {
                s * ks.0
            }),
            abs(n) == (if n < 0 {
                -n
            } else {
                n
            }),
    ;
    lemma_div_multiples_vanish(sn, g as int);
    lemma_div_multiples_vanish(ks.1, g as int);
    assert(g * sn == s * n);
    assert(g * ks.1 == abs(d));
    assert(p.0 == sn);
    assert(p.1 == ks.1);
    assert(ks.1 > 0) by (nonlinear_arith)
        requires
            abs(d) == ks.1 * g,
            abs(d) > 0,
            g > 0,
    ;
    assert(p.0 * d == n * p.1) by (nonlinear_arith)
        requires
            s * n == p.0 * g,
            abs(d) == p.1 * g,
            s == (if d < 0 {
                -1int
            } else {
                1int
            }),
            abs(d) == (if d < 0 {
                -d
            } else {
                d
            }),
            g > 0,
    ;
    assert(abs(p.0) == ks.0) by (nonlinear_arith)
        requires
            p.0 == (if n < 0 {
                -s * ks.0
            } else {
                s * ks.0
            }),
            s == 1 || s == -1,
            ks.0 >= 0,
            abs(p.0) == (if p.0 < 0 {
                -p.0
            } else {
                p.0
            }),
    ;
    lemma_reduced_coprime(abs(n), abs(d), ks.0 as nat, ks.1 as nat);
    assert(ks.0 <= abs(n) && ks.1 <= abs(d)) by (nonlinear_arith)
        requires
            abs(n) == ks.0 * g,
            abs(d) == ks.1 * g,
            g >= 1,
            ks.0 >= 0,
            ks.1 >= 0,
    ;
    if n == 0 {
        assert(ks.0 == 0) by (nonlinear_arith)
            requires
                0 == ks.0 * g,
                g > 0,
        ;
        assert(gcd(0, ks.1 as nat) == ks.1) by {
            assert(gcd(0, ks.1 as nat) == gcd(ks.1 as nat, 0));
        }
    }
}

/// A coprime pair with positive denominator is its own lowest-terms form.
pub proof fn lemma_normalize_reduced(n: int, d: int)
    requires
        d > 0,
        gcd(abs(n), d as nat) == 1,
    ensures
        normalize(n, d) == (n, d),
{
    assert(n / 1 == n);
    assert(d / 1 == d);
}

/// Greatest common divisor of two unsigned 128-bit numbers.
pub fn gcd_u128(a: u128, b: u128) -> (g: u128)
    ensures
        g == gcd(a as nat, b as nat),
{
    let mut x = a;
    let mut y = b;
    while y != 0
        invariant
            gcd(x as nat, y as nat) == gcd(a as nat, b as nat),
        decreases y,
    {
        let t = x % y;
        x = y;
        y = t;
    }
    x
}

/// An exact rational number in lowest terms with a positive denominator.
#[derive(Clone, Copy, Debug, PartialEq, Eq, Hash, Structural)]
pub struct Rational {
    num: i64,
    den: i64,
}

impl Rational {
    #[verifier::type_invariant]
    spec fn inv(self) -> bool {
        &&& self.den > 0
        &&& self.num > i64::MIN
        &&& gcd(abs(self.num as int), self.den as nat) == 1
    }

    /// The numerator.
    pub closed spec fn num(self) -> int {
        self.num as int
    }

    /// The (positive) denominator.
    pub closed spec fn den(self) -> int {
        self.den as int
    }

    /// The pair `(numerator, denominator)`.
    pub open spec fn pair(self) -> (int, int) {
        (self.num(), self.den())
    }

    /// Every rational is in lowest terms.
    pub fn lemma_wf(&self)
        ensures
            lowest(self.pair()),
            self.den() > 0,
            i64::MIN < self.num() <= i64::MAX,
            self.den() <= i64::MAX,
            gcd(abs(self.num()), self.den() as nat) == 1,
            normalize(self.num(), self.den()) == self.pair(),
    {
        proof {
            use_type_invariant(self);
            lemma_normalize_reduced(self.num as int, self.den as int);
        }
    }

    /// Build the lowest-terms form of a 128-bit fraction.
    fn from_i128(n: i128, d: i128) -> (r: Rational)
        requires
            d != 0,
            n > i128::MIN,
            d > i128::MIN,
            fits(normalize(n as int, d as int)),
        ensures
            r.pair() == normalize(n as int, d as int),
    {
        proof {
            lemma_normalize(n as int, d as int);
        }
        let an: u128 = if n < 0 { (-n) as u128 } else { n as u128 };
        let ad: u128 = if d < 0 { (-d) as u128 } else { d as u128 };
        assert(an as nat == abs(n as int) && ad as nat == abs(d as int));
        let g = gcd_u128(an, ad);
        let ghost ks = lemma_gcd_divides(an as nat, ad as nat);
        let mag = an / g;
        let den_u = ad / g;
        let negative = (n < 0) != (d < 0);
        proof {
            let gg = g as int;
            lemma_div_multiples_vanish(ks.0, gg);
            lemma_div_multiples_vanish(ks.1, gg);
            lemma_div_multiples_vanish(-ks.0, gg);
            assert(gg * ks.0 == an as int) by (nonlinear_arith)
                requires
                    an as int == ks.0 * gg,
            ;
            assert(gg * ks.1 == ad as int) by (nonlinear_arith)
                requires
                    ad as int == ks.1 * gg,
            ;
            assert(gg * (-ks.0) == -(an as int)) by (nonlinear_arith)
                requires gg * ks.0 == an as int;
            assert(mag as int == ks.0);
            assert(den_u as int == ks.1);
            let s: int = if d < 0 { -1 } else { 1 };
            assert(s * (n as int) == (if negative { -(an as int) } else { an as int })) by (nonlinear_arith)
                requires
                    s == (if d < 0 { -1int } else { 1int }),
                    negative == ((n < 0) != (d < 0)),
                    an as int == (if n < 0 { -(n as int) } else { n as int }),
            ;
        }
        let num: i128 = if negative { -(mag as i128) } else { mag as i128 };
        Rational { num: num as i64, den: den_u as i64 }
    }

    /// The lowest-terms form of a 128-bit fraction, when it fits.
    fn checked_from_i128(n: i128, d: i128) -> (r: Option<Rational>)
        requires
            d != 0,
            n > i128::MIN,
            d > i128::MIN,
        ensures
            r is Some <==> fits(normalize(n as int, d as int)),
            r matches Some(x) ==> x.pair() == normalize(n as int, d as int),
    {
        proof {
            lemma_normalize(n as int, d as int);
        }
        let an: u128 = if n < 0 { (-n) as u128 } else { n as u128 };
        let ad: u128 = if d < 0 { (-d) as u128 } else { d as u128 };
        assert(an as nat == abs(n as int) && ad as nat == abs(d as int));
        let g = gcd_u128(an, ad);
        let ghost ks = lemma_gcd_divides(an as nat, ad as nat);
        let mag = an / g;
        let den_u = ad / g;
        proof {
            let gg = g as int;
            lemma_div_multiples_vanish(ks.0, gg);
            lemma_div_multiples_vanish(ks.1, gg);
            lemma_div_multiples_vanish(-ks.0, gg);
            assert(gg * ks.0 == an as int) by (nonlinear_arith)
                requires
                    an as int == ks.0 * gg,
            ;
            assert(gg * ks.1 == ad as int) by (nonlinear_arith)
                requires
                    ad as int == ks.1 * gg,
            ;
            assert(gg * (-ks.0) == -(an as int)) by (nonlinear_arith)
                requires gg * ks.0 == an as int;
            let s: int = if d < 0 { -1 } else { 1 };
            assert(s * (n as int) == (if (n < 0) != (d < 0) { -(an as int) } else { an as int })) by (nonlinear_arith)
                requires
                    s == (if d < 0 { -1int } else { 1int }),
                    an as int == (if n < 0 { -(n as int) } else { n as int }),
            ;
            assert(abs(normalize(n as int, d as int).0) == mag as int);
            assert(normalize(n as int, d as int).1 == den_u as int);
        }
        if mag <= 0x7fff_ffff_ffff_ffff && den_u <= 0x7fff_ffff_ffff_ffff {
            Some(Self::from_i128(n, d))
        } else {
            None
        }
    }

    /// Exact sum, when its lowest-terms form fits.
    pub fn checked_add(&self, other: &Rational) -> (r: Option<Rational>)
        ensures
            r is Some <==> fits(normalize(frac_add(self.pair(), other.pair()).0, frac_add(self.pair(), other.pair()).1)),
            r matches Some(x) ==> x.pair() == normalize(frac_add(self.pair(), other.pair()).0, frac_add(self.pair(), other.pair()).1),
    {
        proof {
            use_type_invariant(self);
            use_type_invariant(other);
            lemma_i64_products(self.num as int, other.den as int);
            lemma_i64_products(other.num as int, self.den as int);
            lemma_i64_products(self.den as int, other.den as int);
            assert(self.den as int * other.den as int > 0) by (nonlinear_arith)
                requires
                    self.den > 0,
                    other.den > 0,
            ;
        }
        let n = (self.num as i128) * (other.den as i128) + (other.num as i128) * (self.den as i128);
        let d = (self.den as i128) * (other.den as i128);
        Self::checked_from_i128(n, d)
    }

    /// Exact product, when its lowest-terms form fits.
    pub fn checked_mul(&self, other: &Rational) -> (r: Option<Rational>)
        ensures
            r is Some <==> fits(normalize(frac_mul(self.pair(), other.pair()).0, frac_mul(self.pair(), other.pair()).1)),
            r matches Some(x) ==> x.pair() == normalize(frac_mul(self.pair(), other.pair()).0, frac_mul(self.pair(), other.pair()).1),
    {
        proof {
            use_type_invariant(self);
            use_type_invariant(other);
            lemma_i64_products(self.num as int, other.num as int);
            lemma_i64_products(self.den as int, other.den as int);
            assert(self.den as int * other.den as int > 0) by (nonlinear_arith)
                requires
                    self.den > 0,
                    other.den > 0,
            ;
        }
        let n = (self.num as i128) * (other.num as i128);
        let d = (self.den as i128) * (other.den as i128);
        Self::checked_from_i128(n, d)
    }

    /// Exact difference, when its lowest-terms form fits.
    pub fn checked_sub(&self, other: &Rational) -> (r: Option<Rational>)
        ensures
            r is Some <==> fits(rsub(self.pair(), other.pair())),
            r matches Some(x) ==> x.pair() == rsub(self.pair(), other.pair()),
    {
        proof {
            use_type_invariant(self);
            use_type_invariant(other);
            lemma_i64_products(self.num as int, other.den as int);
            lemma_i64_products(other.num as int, self.den as int);
            lemma_i64_products(self.den as int, other.den as int);
            assert(self.den as int * other.den as int > 0) by (nonlinear_arith)
                requires
                    self.den > 0,
                    other.den > 0,
            ;
        }
        let n = (self.num as i128) * (other.den as i128) - (other.num as i128) * (self.den as i128);
        let d = (self.den as i128) * (other.den as i128);
        Self::checked_from_i128(n, d)
    }

    /// `self^k` by repeated multiplication, when every partial power fits.
    pub fn checked_pow(&self, k: u32) -> (r: Option<Rational>)
        ensures
            r is Some <==> pow_fits(self.pair(), k as nat),
            r matches Some(x) ==> x.pair() == rpow(self.pair(), k as nat),
    {
        let mut acc = Rational::from_integer(1);
        let mut i: u32 = 0;
        while i < k
            invariant
                i <= k,
                acc.pair() == rpow(self.pair(), i as nat),
                pow_fits(self.pair(), i as nat),
            decreases k - i,
        {
            match acc.checked_mul(self) {
                Some(x) => {
                    acc = x;
                },
                None => {
                    proof {
                        if pow_fits(self.pair(), k as nat) {
                            lemma_pow_fits_mono(self.pair(), k as nat, (i + 1) as nat);
                        }
                    }
                    return None;
                },
            }
            i = i + 1;
        }
        Some(acc)
    }

    /// `self^k` by repeated multiplication.
    pub fn pow(&self, k: u32) -> (r: Rational)
        requires
            pow_fits(self.pair(), k as nat),
        ensures
            r.pair() == rpow(self.pair(), k as nat),
    {
        match self.checked_pow(k) {
            Some(x) => x,
            None => Rational::from_integer(1),
        }
    }

    /// Exact quotient, when the divisor is non-zero and the lowest-terms form
    /// fits.
    pub fn checked_div(&self, other: &Rational) -> (r: Option<Rational>)
        ensures
            r is Some <==> other.num() != 0 && fits(normalize(frac_div(self.pair(), other.pair()).0, frac_div(self.pair(), other.pair()).1)),
            r matches Some(x) ==> x.pair() == normalize(frac_div(self.pair(), other.pair()).0, frac_div(self.pair(), other.pair()).1),
    {
        if other.num == 0 {
            return None;
        }
        proof {
            use_type_invariant(self);
            use_type_invariant(other);
            lemma_i64_products(self.num as int, other.den as int);
            lemma_i64_products(self.den as int, other.num as int);
            assert(self.den as int * other.num as int != 0) by (nonlinear_arith)
                requires
                    self.den > 0,
                    other.num != 0,
            ;
        }
        let n = (self.num as i128) * (other.den as i128);
        let d = (self.den as i128) * (other.num as i128);
        Self::checked_from_i128(n, d)
    }

    /// `n / d` in lowest terms.
    pub fn new(n: i64, d: i64) -> (r: Rational)
        requires
            d != 0,
            n > i64::MIN,
            d > i64::MIN,
        ensures
            r.pair() == normalize(n as int, d as int),
    {
        proof {
            lemma_normalize(n as int, d as int);
        }
        Self::from_i128(n as i128, d as i128)
    }

    /// The integer `n`.
    pub fn from_integer(n: i64) -> (r: Rational)
        requires
            n > i64::MIN,
        ensures
            r.pair() == (n as int, 1int),
    {
        proof {
            assert(gcd(abs(n as int), 1) == gcd(1, abs(n as int) % 1));
            assert(abs(n as int) % 1 == 0);
            assert(gcd(1nat, 0nat) == 1);
        }
        Rational { num: n, den: 1 }
    }

    /// The numerator.
    pub fn numer(&self) -> (n: i64)
        ensures
            n == self.num(),
    {
        self.num
    }

    /// The positive denominator.
    pub fn denom(&self) -> (d: i64)
        ensures
            d == self.den(),
            d > 0,
    {
        proof {
            use_type_invariant(self);
        }
        self.den
    }

    /// Whether this is zero.
    pub fn is_zero(&self) -> (b: bool)
        ensures
            b == (self.num() == 0),
    {
        self.num == 0
    }

    /// Whether this is one.
    pub fn is_one(&self) -> (b: bool)
        ensures
            b == (self.num() == 1 && self.den() == 1),
    {
        self.num == 1 && self.den == 1
    }

    /// Whether this is an integer.
    pub fn is_integer(&self) -> (b: bool)
        ensures
            b == (self.den() == 1),
    {
        self.den == 1
    }

    /// Whether this is strictly positive.
    pub fn is_positive(&self) -> (b: bool)
        ensures
            b == (self.num() > 0),
    {
        self.num > 0
    }

    /// Whether this is strictly negative.
    pub fn is_negative(&self) -> (b: bool)
        ensures
            b == (self.num() < 0),
    {
        self.num < 0
    }

    /// Negation.
    pub fn neg(&self) -> (r: Rational)
        ensures
            r.pair() == (-self.num(), self.den()),
    {
        proof {
            use_type_invariant(self);
            assert(abs(-self.num as int) == abs(self.num as int));
        }
        Rational { num: -self.num, den: self.den }
    }

    /// Absolute value.
    pub fn abs(&self) -> (r: Rational)
        ensures
            r.pair() == (abs(self.num()) as int, self.den()),
    {
        proof {
            use_type_invariant(self);
        }
        if self.num < 0 {
            self.neg()
        } else {
            *self
        }
    }

    /// Exact sum, in lowest terms.
    pub fn add(&self, other: &Rational) -> (r: Rational)
        requires
            fits(normalize(frac_add(self.pair(), other.pair()).0, frac_add(self.pair(), other.pair()).1)),
        ensures
            r.pair() == normalize(frac_add(self.pair(), other.pair()).0, frac_add(self.pair(), other.pair()).1),
    {
        proof {
            use_type_invariant(self);
            use_type_invariant(other);
            lemma_i64_products(self.num as int, other.den as int);
            lemma_i64_products(other.num as int, self.den as int);
            lemma_i64_products(self.den as int, other.den as int);
            assert(self.den as int * other.den as int > 0) by (nonlinear_arith)
                requires
                    self.den > 0,
                    other.den > 0,
            ;
        }
        let n = (self.num as i128) * (other.den as i128) + (other.num as i128) * (self.den as i128);
        let d = (self.den as i128) * (other.den as i128);
        Self::from_i128(n, d)
    }

    /// Exact difference, in lowest terms.
    pub fn sub(&self, other: &Rational) -> (r: Rational)
        requires
            fits(normalize(frac_sub(self.pair(), other.pair()).0, frac_sub(self.pair(), other.pair()).1)),
        ensures
            r.pair() == normalize(frac_sub(self.pair(), other.pair()).0, frac_sub(self.pair(), other.pair()).1),
    {
        proof {
            use_type_invariant(self);
            use_type_invariant(other);
            lemma_i64_products(self.num as int, other.den as int);
            lemma_i64_products(other.num as int, self.den as int);
            lemma_i64_products(self.den as int, other.den as int);
            assert(self.den as int * other.den as int > 0) by (nonlinear_arith)
                requires
                    self.den > 0,
                    other.den > 0,
            ;
        }
        let n = (self.num as i128) * (other.den as i128) - (other.num as i128) * (self.den as i128);
        let d = (self.den as i128) * (other.den as i128);
        Self::from_i128(n, d)
    }

    /// Exact product, in lowest terms.
    pub fn mul(&self, other: &Rational) -> (r: Rational)
        requires
            fits(normalize(frac_mul(self.pair(), other.pair()).0, frac_mul(self.pair(), other.pair()).1)),
        ensures
            r.pair() == normalize(frac_mul(self.pair(), other.pair()).0, frac_mul(self.pair(), other.pair()).1),
    {
        proof {
            use_type_invariant(self);
            use_type_invariant(other);
            lemma_i64_products(self.num as int, other.num as int);
            lemma_i64_products(self.den as int, other.den as int);
            assert(self.den as int * other.den as int > 0) by (nonlinear_arith)
                requires
                    self.den > 0,
                    other.den > 0,
            ;
        }
        let n = (self.num as i128) * (other.num as i128);
        let d = (self.den as i128) * (other.den as i128);
        Self::from_i128(n, d)
    }

    /// Exact quotient, in lowest terms; the divisor must be non-zero.
    pub fn div(&self, other: &Rational) -> (r: Rational)
        requires
            other.num() != 0,
            fits(normalize(frac_div(self.pair(), other.pair()).0, frac_div(self.pair(), other.pair()).1)),
        ensures
            r.pair() == normalize(frac_div(self.pair(), other.pair()).0, frac_div(self.pair(), other.pair()).1),
    {
        proof {
            use_type_invariant(self);
            use_type_invariant(other);
            lemma_i64_products(self.num as int, other.den as int);
            lemma_i64_products(self.den as int, other.num as int);
            assert(self.den as int * other.num as int != 0) by (nonlinear_arith)
                requires
                    self.den > 0,
                    other.num != 0,
            ;
        }
        let n = (self.num as i128) * (other.den as i128);
        let d = (self.den as i128) * (other.num as i128);
        Self::from_i128(n, d)
    }
}

/// Divisibility is transitive: `g | a` and `h | g` give `h | a`.
pub proof fn lemma_divides_trans(a: int, g: int, h: int)
    requires
        h > 0,
        g > 0,
        a % g == 0,
        g % h == 0,
    ensures
        a % h == 0,
{
    lemma_fundamental_div_mod(a, g);
    lemma_fundamental_div_mod(g, h);
    let k1 = a / g;
    let k2 = g / h;
    assert(a == (k1 * k2) * h) by (nonlinear_arith)
        requires
            a == g * k1,
            g == h * k2,
    ;
    lemma_mod_multiples_basic(k1 * k2, h);
}

/// `gcd(a, b)` divides both arguments, as remainders.
pub proof fn lemma_gcd_mod(a: nat, b: nat)
    requires
        a > 0 || b > 0,
    ensures
        gcd(a, b) > 0,
        a as int % gcd(a, b) as int == 0,
        b as int % gcd(a, b) as int == 0,
{
    let ks = lemma_gcd_divides(a, b);
    let g = gcd(a, b) as int;
    lemma_mod_multiples_basic(ks.0, g);
    lemma_mod_multiples_basic(ks.1, g);
}

/// Zero in lowest terms is `0/1`; a non-zero numerator stays non-zero.
pub proof fn lemma_normalize_zero(n: int, d: int)
    requires
        d != 0,
    ensures
        (normalize(n, d).0 == 0) <==> (n == 0),
        n == 0 ==> normalize(n, d) == (0int, 1int),
{
    lemma_normalize(n, d);
    if normalize(n, d).0 == 0 {
        assert(n * normalize(n, d).1 == 0);
        assert(n == 0) by (nonlinear_arith)
            requires
                n * normalize(n, d).1 == 0,
                normalize(n, d).1 > 0,
        ;
    }
}

/// Adding zero, or multiplying zero, in lowest terms.
pub proof fn lemma_zero_arith(x: (int, int), y: (int, int))
    requires
        x.1 > 0,
        gcd(abs(x.0), x.1 as nat) == 1,
        y.1 != 0,
    ensures
        normalize(frac_add((0, 1), x).0, frac_add((0, 1), x).1) == x,
        normalize(frac_add(x, (0, 1)).0, frac_add(x, (0, 1)).1) == x,
        normalize(frac_mul((0, 1), y).0, frac_mul((0, 1), y).1) == (0int, 1int),
{
    assert(frac_add((0, 1), x) == (x.0, x.1));
    assert(frac_add(x, (0, 1)) == (x.0, x.1));
    lemma_normalize_reduced(x.0, x.1);
    assert(frac_mul((0, 1), y).0 == 0);
    lemma_normalize(0, y.1);
}

/// The rational with numerator `p.0` and denominator `p.1`.
pub closed spec fn rat(p: (int, int)) -> Rational {
    Rational { num: p.0 as i64, den: p.1 as i64 }
}

/// A rational is the one named by its pair.
pub proof fn lemma_rat_pair(x: Rational)
    ensures
        rat(x.pair()) == x,
{
}

/// The rational named by a pair that fits has that pair.
pub proof fn lemma_rat_of_pair(p: (int, int))
    requires
        fits(p),
    ensures
        rat(p).pair() == p,
{
}

/// Two rationals with the same numerator and denominator are the same value.
pub proof fn lemma_rat_ext(x: Rational, y: Rational)
    requires
        x.pair() == y.pair(),
    ensures
        x == y,
{
}

/// Products of two `i64` values above `i64::MIN` are at most `(2^63 - 1)^2`
/// in magnitude, so a sum of two such products fits in `i128`.
proof fn lemma_i64_products(a: int, b: int)
    requires
        i64::MIN < a <= i64::MAX,
        i64::MIN < b <= i64::MAX,
    ensures
        -0x3fff_ffff_ffff_ffff_0000_0000_0000_0001 <= a * b <= 0x3fff_ffff_ffff_ffff_0000_0000_0000_0001,
{
    assert(-0x3fff_ffff_ffff_ffff_0000_0000_0000_0001 <= a * b <= 0x3fff_ffff_ffff_ffff_0000_0000_0000_0001) by (nonlinear_arith)
        requires
            -0x7fff_ffff_ffff_ffff <= a <= 0x7fff_ffff_ffff_ffff,
            -0x7fff_ffff_ffff_ffff <= b <= 0x7fff_ffff_ffff_ffff,
    ;
}


/// Bézout's identity: `gcd(a, b)` is an integer combination of `a` and `b`.
pub proof fn lemma_bezout(a: nat, b: nat) -> (xy: (int, int))
    ensures
        a * xy.0 + b * xy.1 == gcd(a, b),
    decreases b,
{
    if b == 0 {
        (1, 0)
    } else {
        let r = a % b;
        let q = a / b;
        lemma_fundamental_div_mod(a as int, b as int);
        let inner = lemma_bezout(b, r);
        let x = inner.0;
        let y = inner.1;
        let g = gcd(a, b) as int;
        assert(a * y + b * (x - q * y) == g) by (nonlinear_arith)
            requires
                b * x + r * y == g,
                a == b * q + r,
        ;
        (y, x - q * y)
    }
}

/// A positive `q` coprime to `|p|` that divides `p · s` divides `s`: the
/// quotient is returned.
proof fn lemma_coprime_factor(q: int, p: int, s: int, k: int) -> (m: int)
    requires
        q > 0,
        gcd(abs(p), q as nat) == 1,
        p * s == k * q,
    ensures
        s == q * m,
{
    let xy = lemma_bezout(abs(p), q as nat);
    let x = xy.0;
    let y = xy.1;
    if p >= 0 {
        assert(s == q * (k * x + s * y)) by (nonlinear_arith)
            requires
                p * x + q * y == 1,
                p * s == k * q,
        ;
        k * x + s * y
    } else {
        assert(s == q * (s * y - k * x)) by (nonlinear_arith)
            requires
                (-p) * x + q * y == 1,
                p * s == k * q,
        ;
        s * y - k * x
    }
}

/// Two pairs in lowest terms with the same value are the same pair.
pub proof fn lemma_lowest_unique(p: (int, int), r: (int, int))
    requires
        lowest(p),
        lowest(r),
        p.0 * r.1 == r.0 * p.1,
    ensures
        p == r,
{
    let m = lemma_coprime_factor(p.1, p.0, r.1, r.0);
    assert(r.0 * p.1 == p.0 * r.1);
    let n = lemma_coprime_factor(r.1, r.0, p.1, p.0);
    assert(m * n == 1 && m > 0) by (nonlinear_arith)
        requires
            r.1 == p.1 * m,
            p.1 == r.1 * n,
            p.1 > 0,
            r.1 > 0,
    ;
    assert(m == 1) by (nonlinear_arith)
        requires
            m * n == 1,
            m > 0,
    ;
    assert(p.0 == r.0) by (nonlinear_arith)
        requires
            p.0 * r.1 == r.0 * p.1,
            r.1 == p.1,
            p.1 > 0,
    ;
}

/// A fraction with a non-zero denominator and the same value as a pair in
/// lowest terms normalizes to that pair.
pub proof fn lemma_normalize_value(n: int, d: int, p: (int, int))
    requires
        d != 0,
        lowest(p),
        n * p.1 == p.0 * d,
    ensures
        normalize(n, d) == p,
{
    lemma_normalize(n, d);
    let q = normalize(n, d);
    assert(q.0 * p.1 == p.0 * q.1) by (nonlinear_arith)
        requires
            q.0 * d == n * q.1,
            n * p.1 == p.0 * d,
            d != 0,
    ;
    lemma_lowest_unique(q, p);
}


/// Whether two fractions have the same value: `p.0/p.1 == q.0/q.1`, by
/// cross-multiplication.
pub open spec fn same_value(p: (int, int), q: (int, int)) -> bool {
    p.0 * q.1 == q.0 * p.1
}

/// A fraction has the value of its lowest-terms form.
pub proof fn lemma_normalize_same(n: int, d: int)
    requires
        d != 0,
    ensures
        same_value(normalize(n, d), (n, d)),
        normalize(n, d).1 > 0,
        lowest(normalize(n, d)),
{
    lemma_normalize(n, d);
}

/// Having the same value is transitive through a fraction with a non-zero
/// denominator.
pub proof fn lemma_same_value_trans(p: (int, int), q: (int, int), r: (int, int))
    requires
        q.1 != 0,
        same_value(p, q),
        same_value(q, r),
    ensures
        same_value(p, r),
{
    assert((p.0 * r.1 - r.0 * p.1) * q.1 == 0) by (nonlinear_arith)
        requires
            p.0 * q.1 == q.0 * p.1,
            q.0 * r.1 == r.0 * q.1,
    ;
    assert(p.0 * r.1 - r.0 * p.1 == 0) by (nonlinear_arith)
        requires
            (p.0 * r.1 - r.0 * p.1) * q.1 == 0,
            q.1 != 0,
    ;
}

/// `a·d + c·b` over `b·d` keeps its value when `a/b` and `c/d` are replaced
/// by `e/f` and `g/h` of the same values (the sign `k` gives sums and
/// differences).
proof fn lemma_cross_sum(a: int, b: int, c: int, d: int, e: int, f: int, g: int, h: int, k: int)
    requires
        a * f == e * b,
        c * h == g * d,
    ensures
        (a * d + k * (c * b)) * (f * h) == (e * h + k * (g * f)) * (b * d),
{
    assert(a * d * (f * h) == (a * f) * (d * h)) by (nonlinear_arith);
    assert((e * b) * (d * h) == e * h * (b * d)) by (nonlinear_arith);
    assert(c * b * (f * h) == (c * h) * (b * f)) by (nonlinear_arith);
    assert((g * d) * (b * f) == g * f * (b * d)) by (nonlinear_arith);
    assert((a * d + k * (c * b)) * (f * h) == a * d * (f * h) + k * (c * b * (f * h))) by (nonlinear_arith);
    assert((e * h + k * (g * f)) * (b * d) == e * h * (b * d) + k * (g * f * (b * d))) by (nonlinear_arith);
}

/// `(a·c)/(b·d)` keeps its value when `a/b` and `c/d` are replaced by `e/f`
/// and `g/h` of the same values.
proof fn lemma_cross_product(a: int, b: int, c: int, d: int, e: int, f: int, g: int, h: int)
    requires
        a * f == e * b,
        c * h == g * d,
    ensures
        (a * c) * (f * h) == (e * g) * (b * d),
{
    assert((a * c) * (f * h) == (a * f) * (c * h)) by (nonlinear_arith);
    assert((e * b) * (g * d) == (e * g) * (b * d)) by (nonlinear_arith);
}

/// Sums, differences, products and quotients of fractions with the same
/// values have the same values.
pub proof fn lemma_same_value_ops(p: (int, int), p2: (int, int), q: (int, int), q2: (int, int))
    requires
        same_value(p, p2),
        same_value(q, q2),
    ensures
        same_value(frac_add(p, q), frac_add(p2, q2)),
        same_value(frac_sub(p, q), frac_sub(p2, q2)),
        same_value(frac_mul(p, q), frac_mul(p2, q2)),
        same_value(frac_div(p, q), frac_div(p2, q2)),
{
    lemma_cross_sum(p.0, p.1, q.0, q.1, p2.0, p2.1, q2.0, q2.1, 1);
    lemma_cross_sum(p.0, p.1, q.0, q.1, p2.0, p2.1, q2.0, q2.1, -1);
    assert(frac_add(p, q).0 == p.0 * q.1 + 1 * (q.0 * p.1));
    assert(frac_sub(p, q).0 == p.0 * q.1 + (-1) * (q.0 * p.1)) by (nonlinear_arith);
    assert(frac_sub(p2, q2).0 == p2.0 * q2.1 + (-1) * (q2.0 * p2.1)) by (nonlinear_arith);
    lemma_cross_product(p.0, p.1, q.0, q.1, p2.0, p2.1, q2.0, q2.1);
    lemma_cross_product(p.0, p.1, q.1, q.0, p2.0, p2.1, q2.1, q2.0);
}
} // verus!
