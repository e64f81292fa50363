//! Polynomial normal form for algebraic equality.
//!
//! An expression built from constants, variables, `+`, `-`, `*`, division by
//! a constant and small constant powers is brought to a numerator polynomial
//! over a common denominator.  Two such expressions are algebraically equal
//! when every monomial has the same coefficient relative to the denominator:
//!
//! ```text
//! k(k+1)/2 + (k+1)  →  (k² + 3k + 2) / 2
//! (k+1)(k+2)/2      →  (k² + 3k + 2) / 2
//! ```
//!
//! Coefficients are exact `i64` rationals; an operation whose exact
//! coefficients leave that range gives `None`.

use vstd::prelude::*;
use crate::expr::{Expr, Symbol};
use crate::rational::{
    abs, frac_add, frac_div, frac_mul, gcd, gcd_u128, lowest, normalize, radd, rmul, fits, lemma_normalize_lowest,
    lemma_rat_pair, lemma_same_value_trans, rat, same_value, Rational,
};

verus! {

// ---------------------------------------------------------------------------
// Monomials
// ---------------------------------------------------------------------------

/// A monomial `x₁^e₁ · x₂^e₂ · …`: variable powers sorted by symbol, every
/// exponent positive.
#[derive(Debug, PartialEq, Eq)]
pub struct Monomial {
    /// Variable powers: `(symbol, exponent)`, sorted by symbol.
    pub powers: Vec<(Symbol, u32)>,
}

/// Merge of two sorted monomials by symbol, adding the exponents of a symbol
/// present in both (as an integer, which may exceed `u32`).
pub open spec fn mono_merge(a: Seq<(Symbol, u32)>, b: Seq<(Symbol, u32)>) -> Seq<(Symbol, int)>
    decreases a.len() + b.len(),
{
    if a.len() == 0 {
        b.map_values(|p: (Symbol, u32)| (p.0, p.1 as int))
    } else if b.len() == 0 {
        a.map_values(|p: (Symbol, u32)| (p.0, p.1 as int))
    } else if a[0].0.0 < b[0].0.0 {
        seq![(a[0].0, a[0].1 as int)] + mono_merge(a.drop_first(), b)
    } else if b[0].0.0 < a[0].0.0 {
        seq![(b[0].0, b[0].1 as int)] + mono_merge(a, b.drop_first())
    } else {
        seq![(a[0].0, a[0].1 + b[0].1)] + mono_merge(a.drop_first(), b.drop_first())
    }
}

/// The powers of a merged monomial whose exponent is not zero, in order.
pub open spec fn drop_zero(s: Seq<(Symbol, int)>) -> Seq<(Symbol, int)>
    decreases s.len(),
{
    if s.len() == 0 {
        s
    } else if s.last().1 == 0 {
        drop_zero(s.drop_last())
    } else {
        drop_zero(s.drop_last()).push(s.last())
    }
}

/// Product of two monomials: their merge, without zero exponents.
pub open spec fn mono_mul(a: Seq<(Symbol, u32)>, b: Seq<(Symbol, u32)>) -> Seq<(Symbol, int)> {
    drop_zero(mono_merge(a, b))
}

/// Whether every exponent of a merged monomial fits in `u32`.
pub open spec fn exps_fit(s: Seq<(Symbol, int)>) -> bool {
    forall|i: int| 0 <= i < s.len() ==> (#[trigger] s[i]).1 <= u32::MAX
}

/// A merged monomial with `u32` exponents.
pub open spec fn as_u32(s: Seq<(Symbol, int)>) -> Seq<(Symbol, u32)> {
    s.map_values(|p: (Symbol, int)| (p.0, p.1 as u32))
}

/// The total degree: sum of exponents.
pub open spec fn degree_of(s: Seq<(Symbol, u32)>) -> int
    decreases s.len(),
{
    if s.len() == 0 {
        0
    } else {
        degree_of(s.drop_last()) + s.last().1
    }
}

impl View for Monomial {
    type V = Seq<(Symbol, u32)>;

    open spec fn view(&self) -> Seq<(Symbol, u32)> {
        self.powers@
    }
}

/// A structural copy of a power list.
fn copy_powers(p: &Vec<(Symbol, u32)>) -> (r: Vec<(Symbol, u32)>)
    ensures
        r@ == p@,
{
    let mut r = Vec::new();
    let mut i: usize = 0;
    while i < p.len()
        invariant
            i <= p.len(),
            r@ == p@.take(i as int),
        decreases p.len() - i,
    {
        r.push(p[i]);
        assert(p@.take(i + 1) =~= p@.take(i as int).push(p@[i as int]));
        i = i + 1;
    }
    assert(p@.take(p.len() as int) =~= p@);
    r
}

impl Monomial {
    /// The constant monomial (no variables).
    pub fn constant() -> (m: Self)
        ensures
            m@ == Seq::<(Symbol, u32)>::empty(),
    {
        Monomial { powers: Vec::new() }
    }

    /// A single variable: `x^1`.
    pub fn var(v: Symbol) -> (m: Self)
        ensures
            m@ == seq![(v, 1u32)],
    {
        let mut powers = Vec::new();
        powers.push((v, 1u32));
        Monomial { powers }
    }

    /// A variable with a power: `x^n`; the constant monomial when `n == 0`.
    pub fn var_pow(v: Symbol, n: u32) -> (m: Self)
        ensures
            n == 0 ==> m@ == Seq::<(Symbol, u32)>::empty(),
            n != 0 ==> m@ == seq![(v, n)],
    {
        if n == 0 {
            return Self::constant();
        }
        let mut powers = Vec::new();
        powers.push((v, n));
        Monomial { powers }
    }

    /// A structural copy.
    pub fn copy(&self) -> (m: Self)
        ensures
            m@ == self@,
    {
        Monomial { powers: copy_powers(&self.powers) }
    }

    /// Multiply two monomials, `x^a · x^b = x^(a+b)`, dropping zero
    /// exponents; `None` when an exponent of the product exceeds `u32`.
    pub fn checked_mul(&self, other: &Monomial) -> (r: Option<Monomial>)
        ensures
            r is Some <==> exps_fit(mono_merge(self@, other@)),
            r matches Some(m) ==> m@ == as_u32(mono_mul(self@, other@)),
    {
        let a = &self.powers;
        let b = &other.powers;
        let mut out: Vec<(Symbol, u32)> = Vec::new();
        let mut i: usize = 0;
        let mut j: usize = 0;
        let ghost whole = mono_merge(a@, b@);
        assert(whole == mono_merge(self@, other@));
        let ghost mut done: Seq<(Symbol, int)> = Seq::empty();
        proof {
            assert(a@.skip(0) =~= a@);
            assert(b@.skip(0) =~= b@);
            assert(whole =~= done + mono_merge(a@.skip(0), b@.skip(0)));
        }
        while i < a.len() || j < b.len()
            invariant
                i <= a.len(),
                j <= b.len(),
                whole == mono_merge(a@, b@),
                whole == mono_merge(self@, other@),
                whole == done + mono_merge(a@.skip(i as int), b@.skip(j as int)),
                exps_fit(done),
                out@ == as_u32(drop_zero(done)),
            decreases a.len() + b.len() - i - j,
        {
            let ghost sa = a@.skip(i as int);
            let ghost sb = b@.skip(j as int);
            let ghost rest = mono_merge(sa, sb);
            if i < a.len() && (j >= b.len() || a[i].0.0 < b[j].0.0) {
                proof {
                    assert(sa[0] == a@[i as int]);
                    assert(sa.drop_first() =~= a@.skip(i + 1));
                    if sb.len() == 0 {
                        lemma_mono_merge_right_empty(sa, sb);
                    }
                    let item = (a@[i as int].0, a@[i as int].1 as int);
                    assert(rest == seq![item] + mono_merge(a@.skip(i + 1), sb));
                    assert(whole =~= done.push(item) + mono_merge(a@.skip(i + 1), sb));
                    assert(done.push(item).drop_last() =~= done);
                    if item.1 != 0 {
                        assert(as_u32(drop_zero(done).push(item)) =~= as_u32(drop_zero(done)).push(a@[i as int]));
                    }
                    done = done.push(item);
                }
                if a[i].1 != 0 {
                    out.push(a[i]);
                }
                i = i + 1;
            } else if j < b.len() && (i >= a.len() || b[j].0.0 < a[i].0.0) {
                proof {
                    assert(sb[0] == b@[j as int]);
                    assert(sb.drop_first() =~= b@.skip(j + 1));
                    if sa.len() == 0 {
                        lemma_mono_merge_left_empty(sa, sb);
                    }
                    let item = (b@[j as int].0, b@[j as int].1 as int);
                    assert(rest == seq![item] + mono_merge(sa, b@.skip(j + 1)));
                    assert(whole =~= done.push(item) + mono_merge(sa, b@.skip(j + 1)));
                    assert(done.push(item).drop_last() =~= done);
                    if item.1 != 0 {
                        assert(as_u32(drop_zero(done).push(item)) =~= as_u32(drop_zero(done)).push(b@[j as int]));
                    }
                    done = done.push(item);
                }
                if b[j].1 != 0 {
                    out.push(b[j]);
                }
                j = j + 1;
            } else {
                let ghost item = (a@[i as int].0, a@[i as int].1 + b@[j as int].1);
                proof {
                    assert(sa[0] == a@[i as int]);
                    assert(sb[0] == b@[j as int]);
                    assert(sa.drop_first() =~= a@.skip(i + 1));
                    assert(sb.drop_first() =~= b@.skip(j + 1));
                    assert(rest == seq![item] + mono_merge(a@.skip(i + 1), b@.skip(j + 1)));
                    assert(whole =~= done.push(item) + mono_merge(a@.skip(i + 1), b@.skip(j + 1)));
                }
                let e = a[i].1 as u64 + b[j].1 as u64;
                if e > 0xffff_ffff {
                    proof {
                        assert(whole[done.len() as int] == item);
                        assert(item.1 > u32::MAX);
                        assert(!exps_fit(whole));
                        assert(!exps_fit(mono_merge(self@, other@)));
                    }
                    return None;
                }
                proof {
                    assert(done.push(item).drop_last() =~= done);
                    if item.1 != 0 {
                        assert(as_u32(drop_zero(done).push(item)) =~= as_u32(drop_zero(done)).push((a@[i as int].0, e as u32)));
                    }
                    done = done.push(item);
                }
                if e != 0 {
                    out.push((a[i].0, e as u32));
                }
                i = i + 1;
                j = j + 1;
            }
        }
        proof {
            assert(a@.skip(i as int) =~= Seq::<(Symbol, u32)>::empty());
            assert(b@.skip(j as int) =~= Seq::<(Symbol, u32)>::empty());
            assert(mono_merge(a@.skip(i as int), b@.skip(j as int)) =~= Seq::<(Symbol, int)>::empty());
            assert(whole =~= done);
            assert(exps_fit(whole));
        }
        Some(Monomial { powers: out })
    }

    /// Multiply two monomials, `x^a · x^b = x^(a+b)`, dropping zero
    /// exponents.
    pub fn mul(&self, other: &Monomial) -> (r: Monomial)
        requires
            exps_fit(mono_merge(self@, other@)),
        ensures
            r@ == as_u32(mono_mul(self@, other@)),
    {
        match self.checked_mul(other) {
            Some(m) => m,
            None => Monomial { powers: Vec::new() },
        }
    }

    /// Total degree of the monomial.
    pub fn degree(&self) -> (d: u32)
        requires
            degree_of(self@) <= u32::MAX,
        ensures
            d == degree_of(self@),
    {
        let mut total: u32 = 0;
        let mut i: usize = 0;
        while i < self.powers.len()
            invariant
                i <= self.powers.len(),
                total == degree_of(self@.take(i as int)),
                degree_of(self@) <= u32::MAX,
            decreases self.powers.len() - i,
        {
            proof {
                assert(self@.take(i + 1).drop_last() =~= self@.take(i as int));
                lemma_degree_prefix(self@, i + 1);
            }
            total = total + self.powers[i].1;
            i = i + 1;
        }
        assert(self@.take(self.powers.len() as int) =~= self@);
        total
    }

    /// Whether this is the constant monomial.
    pub fn is_constant(&self) -> (b: bool)
        ensures
            b == (self@.len() == 0),
    {
        self.powers.len() == 0
    }
}

/// The degree of a prefix is at most the degree of the whole.
proof fn lemma_degree_prefix(s: Seq<(Symbol, u32)>, k: int)
    requires
        0 <= k <= s.len(),
    ensures
        degree_of(s.take(k)) <= degree_of(s),
    decreases s.len() - k,
{
    if k < s.len() {
        lemma_degree_prefix(s, k + 1);
        assert(s.take(k + 1).drop_last() =~= s.take(k));
    } else {
        assert(s.take(k) =~= s);
    }
}

/// Symbols strictly increasing: the order in which an ordered map keeps a
/// monomial's powers, with no symbol twice.
pub open spec fn mono_sorted(s: Seq<(Symbol, u32)>) -> bool {
    forall|i: int, j: int| 0 <= i < j < s.len() ==> (#[trigger] s[i]).0.0 < (#[trigger] s[j]).0.0
}

/// Canonical form of a monomial: symbols strictly increasing, exponents
/// positive.
pub open spec fn mono_wf(s: Seq<(Symbol, u32)>) -> bool {
    &&& mono_sorted(s)
    &&& forall|i: int| 0 <= i < s.len() ==> (#[trigger] s[i]).1 > 0
}

/// Symbols strictly increasing, for merged powers.
pub open spec fn merged_sorted(s: Seq<(Symbol, int)>) -> bool {
    forall|i: int, j: int| 0 <= i < j < s.len() ==> (#[trigger] s[i]).0.0 < (#[trigger] s[j]).0.0
}

/// The merge of sorted monomials is sorted, with non-negative exponents,
/// and every symbol in it is above any bound both operands are above.
proof fn lemma_merge_sorted(a: Seq<(Symbol, u32)>, b: Seq<(Symbol, u32)>, x: int)
    requires
        mono_sorted(a),
        mono_sorted(b),
        forall|i: int| 0 <= i < a.len() ==> (#[trigger] a[i]).0.0 > x,
        forall|j: int| 0 <= j < b.len() ==> (#[trigger] b[j]).0.0 > x,
    ensures
        merged_sorted(mono_merge(a, b)),
        forall|k: int| 0 <= k < mono_merge(a, b).len() ==> (#[trigger] mono_merge(a, b)[k]).0.0 > x
            && mono_merge(a, b)[k].1 >= 0,
    decreases a.len() + b.len(),
{
    let m = mono_merge(a, b);
    if a.len() == 0 {
        assert forall|i: int, j: int| 0 <= i < j < m.len() implies (#[trigger] m[i]).0.0 < (#[trigger] m[j]).0.0 by {
            assert(m[i].0 == b[i].0 && m[j].0 == b[j].0);
        }
        assert forall|k: int| 0 <= k < m.len() implies (#[trigger] m[k]).0.0 > x && m[k].1 >= 0 by {
            assert(m[k].0 == b[k].0);
        }
    } else if b.len() == 0 {
        assert forall|i: int, j: int| 0 <= i < j < m.len() implies (#[trigger] m[i]).0.0 < (#[trigger] m[j]).0.0 by {
            assert(m[i].0 == a[i].0 && m[j].0 == a[j].0);
        }
        assert forall|k: int| 0 <= k < m.len() implies (#[trigger] m[k]).0.0 > x && m[k].1 >= 0 by {
            assert(m[k].0 == a[k].0);
        }
    } else {
        let (a0, b0) = (a[0].0.0 as int, b[0].0.0 as int);
        let (ra, rb) = (a.drop_first(), b.drop_first());
        assert forall|i: int, j: int| 0 <= i < j < ra.len() implies (#[trigger] ra[i]).0.0 < (#[trigger] ra[j]).0.0 by {
            assert(ra[i] == a[i + 1] && ra[j] == a[j + 1]);
        }
        assert forall|i: int, j: int| 0 <= i < j < rb.len() implies (#[trigger] rb[i]).0.0 < (#[trigger] rb[j]).0.0 by {
            assert(rb[i] == b[i + 1] && rb[j] == b[j + 1]);
        }
        let (head, rest, low) = if a0 < b0 {
            assert forall|i: int| 0 <= i < ra.len() implies (#[trigger] ra[i]).0.0 > a0 by {
                assert(ra[i] == a[i + 1]);
            }
            assert forall|j: int| 0 <= j < b.len() implies (#[trigger] b[j]).0.0 > a0 by {
                if j > 0 {
                    assert(b[0].0.0 < b[j].0.0);
                }
            }
            lemma_merge_sorted(ra, b, a0);
            ((a[0].0, a[0].1 as int), mono_merge(ra, b), a0)
        } else if b0 < a0 {
            assert forall|i: int| 0 <= i < a.len() implies (#[trigger] a[i]).0.0 > b0 by {
                if i > 0 {
                    assert(a[0].0.0 < a[i].0.0);
                }
            }
            assert forall|j: int| 0 <= j < rb.len() implies (#[trigger] rb[j]).0.0 > b0 by {
                assert(rb[j] == b[j + 1]);
            }
            lemma_merge_sorted(a, rb, b0);
            ((b[0].0, b[0].1 as int), mono_merge(a, rb), b0)
        } else {
            assert forall|i: int| 0 <= i < ra.len() implies (#[trigger] ra[i]).0.0 > a0 by {
                assert(ra[i] == a[i + 1]);
            }
            assert forall|j: int| 0 <= j < rb.len() implies (#[trigger] rb[j]).0.0 > a0 by {
                assert(rb[j] == b[j + 1]);
            }
            lemma_merge_sorted(ra, rb, a0);
            ((a[0].0, a[0].1 + b[0].1), mono_merge(ra, rb), a0)
        };
        assert(m == seq![head] + rest);
        assert(head.0.0 == low && low > x && head.1 >= 0);
        assert forall|i: int, j: int| 0 <= i < j < m.len() implies (#[trigger] m[i]).0.0 < (#[trigger] m[j]).0.0 by {
            assert(m[j] == rest[j - 1]);
            if i > 0 {
                assert(m[i] == rest[i - 1]);
            }
        }
        assert forall|k: int| 0 <= k < m.len() implies (#[trigger] m[k]).0.0 > x && m[k].1 >= 0 by {
            if k > 0 {
                assert(m[k] == rest[k - 1]);
            }
        }
    }
}

/// Dropping zero exponents keeps a subsequence: every power left is a power
/// of the original, with a non-zero exponent, and order is kept.
proof fn lemma_drop_zero(s: Seq<(Symbol, int)>)
    ensures
        forall|k: int| 0 <= k < drop_zero(s).len() ==> exists|i: int| 0 <= i < s.len() && #[trigger] drop_zero(s)[k] == s[i],
        forall|k: int| 0 <= k < drop_zero(s).len() ==> (#[trigger] drop_zero(s)[k]).1 != 0,
        merged_sorted(s) ==> merged_sorted(drop_zero(s)),
    decreases s.len(),
{
    if s.len() > 0 {
        let init = s.drop_last();
        lemma_drop_zero(init);
        let d = drop_zero(init);
        assert forall|k: int| 0 <= k < d.len() implies exists|i: int| 0 <= i < s.len() && #[trigger] d[k] == s[i] by {
            let i = choose|i: int| 0 <= i < init.len() && d[k] == init[i];
            assert(s[i] == init[i]);
        }
        if merged_sorted(s) {
            assert forall|i: int, j: int| 0 <= i < j < init.len() implies (#[trigger] init[i]).0.0 < (#[trigger] init[j]).0.0 by {
                assert(init[i] == s[i] && init[j] == s[j]);
            }
        }
        if s.last().1 != 0 {
            let r = d.push(s.last());
            assert(drop_zero(s) == r);
            assert forall|k: int| 0 <= k < r.len() implies exists|i: int| 0 <= i < s.len() && #[trigger] r[k] == s[i] by {
                if k < d.len() {
                    assert(r[k] == d[k]);
                } else {
                    assert(r[k] == s[s.len() - 1]);
                }
            }
            if merged_sorted(s) {
                assert forall|i: int, j: int| 0 <= i < j < r.len() implies (#[trigger] r[i]).0.0 < (#[trigger] r[j]).0.0 by {
                    assert(r[i] == d[i]);
                    if j == d.len() {
                        let p = choose|p: int| 0 <= p < init.len() && d[i] == init[p];
                        assert(init[p] == s[p]);
                        assert(r[j] == s[s.len() - 1]);
                    } else {
                        assert(r[j] == d[j]);
                    }
                }
            }
        }
    }
}

/// The product of two monomials whose symbols are in order is canonical:
/// symbols strictly increasing, every exponent positive.
pub proof fn lemma_mono_mul_canonical(a: Seq<(Symbol, u32)>, b: Seq<(Symbol, u32)>)
    requires
        mono_sorted(a),
        mono_sorted(b),
        exps_fit(mono_merge(a, b)),
    ensures
        mono_wf(as_u32(mono_mul(a, b))),
{
    let m = mono_merge(a, b);
    lemma_merge_sorted(a, b, -1);
    lemma_drop_zero(m);
    let d = drop_zero(m);
    let r = as_u32(d);
    assert forall|k: int| 0 <= k < d.len() implies 0 < (#[trigger] d[k]).1 <= u32::MAX by {
        let i = choose|i: int| 0 <= i < m.len() && d[k] == m[i];
        assert(m[i].1 >= 0 && m[i].1 <= u32::MAX);
    }
    assert forall|i: int, j: int| 0 <= i < j < r.len() implies (#[trigger] r[i]).0.0 < (#[trigger] r[j]).0.0 by {
        assert(r[i].0 == d[i].0 && r[j].0 == d[j].0);
    }
    assert forall|i: int| 0 <= i < r.len() implies (#[trigger] r[i]).1 > 0 by {
        assert(0 < d[i].1 <= u32::MAX);
        assert(r[i].1 == d[i].1 as u32);
    }
}

/// Merging with an empty right operand copies the left one.
proof fn lemma_mono_merge_right_empty(a: Seq<(Symbol, u32)>, b: Seq<(Symbol, u32)>)
    requires
        b.len() == 0,
        a.len() > 0,
    ensures
        mono_merge(a, b) == seq![(a[0].0, a[0].1 as int)] + mono_merge(a.drop_first(), b),
{
    assert(mono_merge(a, b) =~= seq![(a[0].0, a[0].1 as int)] + mono_merge(a.drop_first(), b));
}

/// Merging with an empty left operand copies the right one.
proof fn lemma_mono_merge_left_empty(a: Seq<(Symbol, u32)>, b: Seq<(Symbol, u32)>)
    requires
        a.len() == 0,
        b.len() > 0,
    ensures
        mono_merge(a, b) == seq![(b[0].0, b[0].1 as int)] + mono_merge(a, b.drop_first()),
{
    assert(mono_merge(a, b) =~= seq![(b[0].0, b[0].1 as int)] + mono_merge(a, b.drop_first()));
}

/// Structural equality of two monomials.
pub fn mono_eq(a: &Monomial, b: &Monomial) -> (r: bool)
    ensures
        r == (a@ == b@),
{
    if a.powers.len() != b.powers.len() {
        return false;
    }
    let mut i: usize = 0;
    while i < a.powers.len()
        invariant
            i <= a.powers.len() == b.powers.len(),
            forall|j: int| 0 <= j < i ==> a@[j] == b@[j],
        decreases a.powers.len() - i,
    {
        if a.powers[i].0.0 != b.powers[i].0.0 || a.powers[i].1 != b.powers[i].1 {
            return false;
        }
        i = i + 1;
    }
    assert(a@ =~= b@);
    true
}


// ---------------------------------------------------------------------------
// The order of monomials
// ---------------------------------------------------------------------------

/// `(symbol, exponent)` pairs ordered by symbol, then exponent.
pub open spec fn pair_lt(a: (Symbol, u32), b: (Symbol, u32)) -> bool {
    a.0.0 < b.0.0 || (a.0.0 == b.0.0 && a.1 < b.1)
}

/// The order of monomials: lexicographic over their `(symbol, exponent)`
/// pairs, a proper prefix first.
pub open spec fn mono_lt(a: Seq<(Symbol, u32)>, b: Seq<(Symbol, u32)>) -> bool
    decreases a.len(),
{
    if a.len() == 0 {
        b.len() > 0
    } else if b.len() == 0 {
        false
    } else if a[0] == b[0] {
        mono_lt(a.drop_first(), b.drop_first())
    } else {
        pair_lt(a[0], b[0])
    }
}

/// No monomial precedes itself.
pub proof fn lemma_mono_lt_irrefl(a: Seq<(Symbol, u32)>)
    ensures
        !mono_lt(a, a),
    decreases a.len(),
{
    if a.len() > 0 {
        lemma_mono_lt_irrefl(a.drop_first());
    }
}

/// The order of monomials is transitive.
pub proof fn lemma_mono_lt_trans(a: Seq<(Symbol, u32)>, b: Seq<(Symbol, u32)>, c: Seq<(Symbol, u32)>)
    requires
        mono_lt(a, b),
        mono_lt(b, c),
    ensures
        mono_lt(a, c),
    decreases a.len(),
{
    if a.len() > 0 && b.len() > 0 && c.len() > 0 {
        if a[0] == b[0] && b[0] == c[0] {
            lemma_mono_lt_trans(a.drop_first(), b.drop_first(), c.drop_first());
        }
    }
}

/// Two different monomials are ordered one way or the other.
pub proof fn lemma_mono_lt_total(a: Seq<(Symbol, u32)>, b: Seq<(Symbol, u32)>)
    requires
        a != b,
    ensures
        mono_lt(a, b) || mono_lt(b, a),
    decreases a.len(),
{
    if a.len() > 0 && b.len() > 0 {
        if a[0] == b[0] {
            if a.drop_first() == b.drop_first() {
                assert(a =~= seq![a[0]] + a.drop_first());
                assert(b =~= seq![b[0]] + b.drop_first());
            }
            lemma_mono_lt_total(a.drop_first(), b.drop_first());
        }
    } else if a.len() == 0 && b.len() == 0 {
        assert(a =~= b);
    }
}

/// Whether `a` precedes `b` in the order of monomials.
pub fn mono_less(a: &Monomial, b: &Monomial) -> (r: bool)
    ensures
        r == mono_lt(a@, b@),
{
    let mut i: usize = 0;
    assert(a@.skip(0) =~= a@);
    assert(b@.skip(0) =~= b@);
    while i < a.powers.len() && i < b.powers.len()
        invariant
            i <= a@.len(),
            i <= b@.len(),
            mono_lt(a@, b@) == mono_lt(a@.skip(i as int), b@.skip(i as int)),
        decreases a.powers.len() - i,
    {
        let x = a.powers[i];
        let y = b.powers[i];
        proof {
            assert(a@.skip(i as int)[0] == x);
            assert(b@.skip(i as int)[0] == y);
            assert(a@.skip(i as int).drop_first() =~= a@.skip(i + 1));
            assert(b@.skip(i as int).drop_first() =~= b@.skip(i + 1));
        }
        if x.0.0 != y.0.0 || x.1 != y.1 {
            return x.0.0 < y.0.0 || (x.0.0 == y.0.0 && x.1 < y.1);
        }
        i = i + 1;
    }
    i == a.powers.len() && i < b.powers.len()
}

/// Terms in strictly increasing order of monomials.
pub open spec fn sorted(ts: Seq<(Seq<(Symbol, u32)>, (int, int))>) -> bool {
    forall|i: int, j: int| 0 <= i < j < ts.len() ==> mono_lt((#[trigger] ts[i]).0, (#[trigger] ts[j]).0)
}

// ---------------------------------------------------------------------------
// Polynomials in normal form: the model
// ---------------------------------------------------------------------------

/// A monomial as its `(symbol, exponent)` pairs.
pub type MonoView = Seq<(Symbol, u32)>;

/// Terms as `(monomial, coefficient)` pairs, a coefficient as
/// `(numerator, denominator)`.
pub type TermsView = Seq<(MonoView, (int, int))>;

/// A polynomial: its terms and its common denominator.
pub type PolyView = (TermsView, (int, int));

/// The model of stored terms.
pub open spec fn tview(ts: Seq<(Monomial, Rational)>) -> TermsView {
    ts.map_values(|t: (Monomial, Rational)| (t.0@, t.1.pair()))
}

/// No monomial occurs twice.
pub open spec fn keys_unique(ts: TermsView) -> bool {
    forall|i: int, j: int| 0 <= i < j < ts.len() ==> (#[trigger] ts[i]).0 != (#[trigger] ts[j]).0
}

/// Every coefficient is in lowest terms.
pub open spec fn coeffs_lowest(ts: TermsView) -> bool {
    forall|i: int| 0 <= i < ts.len() ==> lowest((#[trigger] ts[i]).1)
}

/// Every coefficient is non-zero.
pub open spec fn coeffs_nonzero(ts: TermsView) -> bool {
    forall|i: int| 0 <= i < ts.len() ==> (#[trigger] ts[i]).1.0 != 0
}

/// The coefficient of monomial `m`: that of its first term, `0/1` without one.
pub open spec fn cfv(ts: TermsView, m: MonoView) -> (int, int)
    decreases ts.len(),
{
    if ts.len() == 0 {
        (0, 1)
    } else if ts[0].0 == m {
        ts[0].1
    } else {
        cfv(ts.drop_first(), m)
    }
}

/// Add `x` to the coefficient of `m` in sorted terms: the term of `m` gets
/// the sum; without one, `(m, x)` is inserted before the first term whose
/// monomial follows `m`.
pub open spec fn acc_add(ts: TermsView, m: MonoView, x: (int, int)) -> TermsView
    decreases ts.len(),
{
    if ts.len() == 0 {
        seq![(m, x)]
    } else if ts[0].0 == m {
        seq![(m, radd(ts[0].1, x))] + ts.drop_first()
    } else if mono_lt(m, ts[0].0) {
        seq![(m, x)] + ts
    } else {
        seq![ts[0]] + acc_add(ts.drop_first(), m, x)
    }
}

/// The terms with a non-zero coefficient, in order.
pub open spec fn nonzero(ts: TermsView) -> TermsView {
    ts.filter(|t: (MonoView, (int, int))| t.1.0 != 0)
}

/// Rust's `/` on integers: the quotient truncated toward zero.
pub open spec fn tdiv(n: int, g: int) -> int {
    if n < 0 {
        -(abs(n) as int / g)
    } else {
        n / g
    }
}

/// Left fold of `gcd` over the absolute numerators, starting from `g0`.
pub open spec fn gcd_fold(ts: TermsView, g0: nat) -> nat
    decreases ts.len(),
{
    if ts.len() == 0 {
        g0
    } else {
        gcd(gcd_fold(ts.drop_last(), g0), abs(ts.last().1.0))
    }
}

/// Every coefficient `n/d` replaced by `(n / g)/d` in lowest terms.
pub open spec fn divide_all(ts: TermsView, g: int) -> TermsView {
    ts.map_values(|t: (MonoView, (int, int))| (t.0, normalize(tdiv(t.1.0, g), t.1.1)))
}

/// Every coefficient negated.
pub open spec fn negate_all(ts: TermsView) -> TermsView {
    ts.map_values(|t: (MonoView, (int, int))| (t.0, (-t.1.0, t.1.1)))
}

/// Reduction by the common factor: without terms the denominator becomes 1;
/// otherwise `g`, the gcd of the denominator's numerator and all coefficient
/// numerators, is divided out when it exceeds 1, and a negative denominator
/// is made positive by negating everything.
pub open spec fn simp(ts: TermsView, d: (int, int)) -> PolyView {
    if ts.len() == 0 {
        (ts, (1, 1))
    } else {
        let g = gcd_fold(ts, abs(d.0)) as int;
        let ts1 = if g > 1 {
            divide_all(ts, g)
        } else {
            ts
        };
        let d1 = if g > 1 {
            normalize(tdiv(d.0, g), d.1)
        } else {
            d
        };
        if d1.0 < 0 {
            (negate_all(ts1), (-d1.0, d1.1))
        } else {
            (ts1, d1)
        }
    }
}

// ---------------------------------------------------------------------------
// Lemmas on the model
// ---------------------------------------------------------------------------

/// `tview` of a push.
proof fn lemma_tview_push(ts: Seq<(Monomial, Rational)>, t: (Monomial, Rational))
    ensures
        tview(ts.push(t)) == tview(ts).push((t.0@, t.1.pair())),
{
    assert(tview(ts.push(t)) =~= tview(ts).push((t.0@, t.1.pair())));
}

/// Sorted terms have unique monomials.
proof fn lemma_sorted_unique(ts: TermsView)
    requires
        sorted(ts),
    ensures
        keys_unique(ts),
{
    assert forall|i: int, j: int| 0 <= i < j < ts.len() implies (#[trigger] ts[i]).0 != (#[trigger] ts[j]).0 by {
        assert(mono_lt(ts[i].0, ts[j].0));
        lemma_mono_lt_irrefl(ts[i].0);
    }
}

/// The tail of sorted terms is sorted.
proof fn lemma_sorted_tail(ts: TermsView)
    requires
        sorted(ts),
        ts.len() > 0,
    ensures
        sorted(ts.drop_first()),
{
    let rest = ts.drop_first();
    assert forall|a: int, b: int| 0 <= a < b < rest.len() implies mono_lt((#[trigger] rest[a]).0, (#[trigger] rest[b]).0) by {
        assert(rest[a] == ts[a + 1] && rest[b] == ts[b + 1]);
    }
}

/// A monomial before the first of sorted terms precedes all of them.
proof fn lemma_sorted_below(ts: TermsView, m: MonoView)
    requires
        sorted(ts),
        ts.len() > 0,
        mono_lt(m, ts[0].0),
    ensures
        forall|j: int| 0 <= j < ts.len() ==> mono_lt(m, (#[trigger] ts[j]).0) && ts[j].0 != m,
{
    assert forall|j: int| 0 <= j < ts.len() implies mono_lt(m, (#[trigger] ts[j]).0) && ts[j].0 != m by {
        if j > 0 {
            lemma_mono_lt_trans(m, ts[0].0, ts[j].0);
        }
        lemma_mono_lt_irrefl(m);
    }
}

/// A monomial without a term has coefficient `0/1`.
proof fn lemma_cfv_absent(ts: TermsView, m: MonoView)
    requires
        forall|j: int| 0 <= j < ts.len() ==> (#[trigger] ts[j]).0 != m,
    ensures
        cfv(ts, m) == (0int, 1int),
    decreases ts.len(),
{
    if ts.len() > 0 {
        assert(ts[0].0 != m);
        let rest = ts.drop_first();
        assert forall|j: int| 0 <= j < rest.len() implies (#[trigger] rest[j]).0 != m by {
            assert(rest[j] == ts[j + 1]);
        }
        lemma_cfv_absent(rest, m);
    }
}

/// Where `acc_add` puts `m` in sorted terms: at the first position whose
/// monomial does not precede `m`, updating the term of `m` when it is there
/// and inserting a new term otherwise.
proof fn lemma_acc_add_at(ts: TermsView, m: MonoView, x: (int, int), i: int)
    requires
        sorted(ts),
        0 <= i <= ts.len(),
        forall|j: int| 0 <= j < i ==> mono_lt((#[trigger] ts[j]).0, m),
        i < ts.len() ==> !mono_lt(ts[i].0, m),
    ensures
        i < ts.len() && ts[i].0 == m ==> acc_add(ts, m, x) == ts.update(i, (m, radd(ts[i].1, x))) && cfv(ts, m) == ts[i].1,
        !(i < ts.len() && ts[i].0 == m) ==> acc_add(ts, m, x) == ts.insert(i, (m, x)) && cfv(ts, m) == (0int, 1int),
    decreases i,
{
    if i == 0 {
        if ts.len() == 0 {
            assert(acc_add(ts, m, x) =~= ts.insert(0, (m, x)));
        } else if ts[0].0 == m {
            assert(acc_add(ts, m, x) =~= ts.update(0, (m, radd(ts[0].1, x))));
        } else {
            lemma_mono_lt_total(ts[0].0, m);
            lemma_sorted_below(ts, m);
            assert(acc_add(ts, m, x) =~= ts.insert(0, (m, x)));
            lemma_cfv_absent(ts, m);
        }
    } else {
        assert(mono_lt(ts[0].0, m));
        lemma_mono_lt_irrefl(m);
        if mono_lt(m, ts[0].0) {
            lemma_mono_lt_trans(m, ts[0].0, m);
        }
        let rest = ts.drop_first();
        lemma_sorted_tail(ts);
        assert forall|j: int| 0 <= j < i - 1 implies mono_lt((#[trigger] rest[j]).0, m) by {
            assert(rest[j] == ts[j + 1]);
        }
        if i - 1 < rest.len() {
            assert(rest[i - 1] == ts[i]);
        }
        lemma_acc_add_at(rest, m, x, i - 1);
        if i < ts.len() && ts[i].0 == m {
            assert(acc_add(ts, m, x) =~= ts.update(i, (m, radd(ts[i].1, x))));
        } else {
            assert(acc_add(ts, m, x) =~= ts.insert(i, (m, x)));
        }
    }
}

/// A monomial preceding `m` and every term precedes every term after
/// `acc_add`.
proof fn lemma_acc_add_lower(ts: TermsView, m: MonoView, x: (int, int), b: MonoView)
    requires
        mono_lt(b, m),
        forall|i: int| 0 <= i < ts.len() ==> mono_lt(b, (#[trigger] ts[i]).0),
    ensures
        forall|j: int| 0 <= j < acc_add(ts, m, x).len() ==> mono_lt(b, (#[trigger] acc_add(ts, m, x)[j]).0),
    decreases ts.len(),
{
    let r = acc_add(ts, m, x);
    if ts.len() == 0 {
        assert(r == seq![(m, x)]);
    } else if ts[0].0 == m {
        assert forall|j: int| 0 <= j < r.len() implies mono_lt(b, (#[trigger] r[j]).0) by {
            assert(r[j].0 == ts[j].0);
        }
    } else if mono_lt(m, ts[0].0) {
        assert forall|j: int| 0 <= j < r.len() implies mono_lt(b, (#[trigger] r[j]).0) by {
            if j > 0 {
                assert(r[j] == ts[j - 1]);
            }
        }
    } else {
        let rest = ts.drop_first();
        assert forall|i: int| 0 <= i < rest.len() implies mono_lt(b, (#[trigger] rest[i]).0) by {
            assert(rest[i] == ts[i + 1]);
        }
        lemma_acc_add_lower(rest, m, x, b);
        let r2 = acc_add(rest, m, x);
        assert(r == seq![ts[0]] + r2);
        assert forall|j: int| 0 <= j < r.len() implies mono_lt(b, (#[trigger] r[j]).0) by {
            if j > 0 {
                assert(r[j] == r2[j - 1]);
            }
        }
    }
}

/// `acc_add` keeps terms sorted and coefficients in lowest terms.
proof fn lemma_acc_add_wf(ts: TermsView, m: MonoView, x: (int, int))
    requires
        sorted(ts),
        coeffs_lowest(ts),
        lowest(x),
    ensures
        sorted(acc_add(ts, m, x)),
        keys_unique(acc_add(ts, m, x)),
        coeffs_lowest(acc_add(ts, m, x)),
    decreases ts.len(),
{
    let r = acc_add(ts, m, x);
    if ts.len() == 0 {
        assert(r == seq![(m, x)]);
    } else if ts[0].0 == m {
        assert(ts[0].1.1 * x.1 > 0) by (nonlinear_arith)
            requires
                ts[0].1.1 > 0,
                x.1 > 0,
        ;
        lemma_normalize_lowest(frac_add(ts[0].1, x).0, frac_add(ts[0].1, x).1);
        assert forall|a: int| 0 <= a < r.len() implies r[a].0 == ts[a].0 && lowest((#[trigger] r[a]).1) by {
            if a > 0 {
                assert(r[a] == ts[a]);
            }
        }
    } else if mono_lt(m, ts[0].0) {
        lemma_sorted_below(ts, m);
        assert forall|a: int| 0 <= a < r.len() implies lowest((#[trigger] r[a]).1) by {
            if a > 0 {
                assert(r[a] == ts[a - 1]);
            }
        }
        assert forall|a: int, b: int| 0 <= a < b < r.len() implies mono_lt((#[trigger] r[a]).0, (#[trigger] r[b]).0) by {
            assert(r[b] == ts[b - 1]);
            if a > 0 {
                assert(r[a] == ts[a - 1]);
            }
        }
    } else {
        let rest = ts.drop_first();
        lemma_sorted_tail(ts);
        assert forall|a: int| 0 <= a < rest.len() implies lowest((#[trigger] rest[a]).1) by {
            assert(rest[a] == ts[a + 1]);
        }
        lemma_acc_add_wf(rest, m, x);
        lemma_mono_lt_total(ts[0].0, m);
        assert forall|i: int| 0 <= i < rest.len() implies mono_lt(ts[0].0, (#[trigger] rest[i]).0) by {
            assert(rest[i] == ts[i + 1]);
        }
        lemma_acc_add_lower(rest, m, x, ts[0].0);
        let r2 = acc_add(rest, m, x);
        assert(r == seq![ts[0]] + r2);
        assert forall|a: int| 0 <= a < r.len() implies lowest((#[trigger] r[a]).1) by {
            if a > 0 {
                assert(r[a] == r2[a - 1]);
            }
        }
        assert forall|a: int, b: int| 0 <= a < b < r.len() implies mono_lt((#[trigger] r[a]).0, (#[trigger] r[b]).0) by {
            assert(r[b] == r2[b - 1]);
            if a > 0 {
                assert(r[a] == r2[a - 1]);
            }
        }
    }
    lemma_sorted_unique(r);
}

/// Filtering keeps monomials unique and coefficients in lowest terms, and
/// leaves only non-zero coefficients.
proof fn lemma_nonzero_wf(ts: TermsView)
    requires
        sorted(ts),
        keys_unique(ts),
        coeffs_lowest(ts),
    ensures
        sorted(nonzero(ts)),
        keys_unique(nonzero(ts)),
        coeffs_lowest(nonzero(ts)),
        coeffs_nonzero(nonzero(ts)),
    decreases ts.len(),
{
    let f = nonzero(ts);
    reveal(Seq::filter);
    if ts.len() > 0 {
        let rest = ts.drop_last();
        assert forall|a: int, b: int| 0 <= a < b < rest.len() implies mono_lt((#[trigger] rest[a]).0, (#[trigger] rest[b]).0) by {
            assert(rest[a] == ts[a] && rest[b] == ts[b]);
        }
        assert forall|a: int, b: int| 0 <= a < b < rest.len() implies (#[trigger] rest[a]).0 != (#[trigger] rest[b]).0 by {
            assert(rest[a] == ts[a] && rest[b] == ts[b]);
        }
        assert forall|a: int| 0 <= a < rest.len() implies lowest((#[trigger] rest[a]).1) by {
            assert(rest[a] == ts[a]);
        }
        lemma_nonzero_wf(rest);
        let fr = nonzero(rest);
        assert(ts == rest.push(ts.last()));
        if ts.last().1.0 != 0 {
            assert(f == fr.push(ts.last()));
            assert forall|a: int, b: int| 0 <= a < b < f.len() implies mono_lt((#[trigger] f[a]).0, (#[trigger] f[b]).0) by {
                if b == fr.len() {
                    // every kept term comes from `rest`
                    assert(fr.contains(fr[a]));
                    rest.lemma_filter_contains_rev(|t: (MonoView, (int, int))| t.1.0 != 0, fr[a]);
                    assert(rest.contains(fr[a]));
                    let k = choose|k: int| 0 <= k < rest.len() && rest[k] == fr[a];
                    assert(ts[k] == rest[k]);
                    assert(f[a] == fr[a]);
                    assert(ts[ts.len() - 1] == ts.last());
                } else {
                    assert(f[a] == fr[a] && f[b] == fr[b]);
                }
            }
            assert forall|a: int| 0 <= a < f.len() implies lowest((#[trigger] f[a]).1) && f[a].1.0 != 0 by {
                if a < fr.len() {
                    assert(f[a] == fr[a]);
                } else {
                    assert(ts[ts.len() - 1] == ts.last());
                }
            }
        } else {
            assert(f == fr);
        }
    }
    lemma_sorted_unique(f);
}

// ---------------------------------------------------------------------------
// Term-list operations
// ---------------------------------------------------------------------------

/// The first position whose monomial does not precede `m`.
fn find_pos(terms: &Vec<(Monomial, Rational)>, m: &Monomial) -> (i: usize)
    ensures
        i <= terms@.len(),
        forall|j: int| 0 <= j < i ==> mono_lt((#[trigger] tview(terms@)[j]).0, m@),
        i < terms@.len() ==> !mono_lt(tview(terms@)[i as int].0, m@),
{
    let mut i: usize = 0;
    while i < terms.len()
        invariant
            i <= terms.len(),
            forall|j: int| 0 <= j < i ==> mono_lt((#[trigger] tview(terms@)[j]).0, m@),
        decreases terms.len() - i,
    {
        if !mono_less(&terms[i].0, m) {
            return i;
        }
        i = i + 1;
    }
    i
}

/// Add `x` to the coefficient of `m` in sorted terms, as [`acc_add`]
/// states; `false` when the sum does not fit.
fn accumulate(terms: &mut Vec<(Monomial, Rational)>, m: Monomial, x: Rational) -> (ok: bool)
    requires
        sorted(tview(old(terms)@)),
    ensures
        ok <==> fits(radd(cfv(tview(old(terms)@), m@), x.pair())),
        ok ==> tview(final(terms)@) == acc_add(tview(old(terms)@), m@, x.pair()),
{
    x.lemma_wf();
    let ghost before = terms@;
    let i = find_pos(terms, &m);
    proof {
        lemma_acc_add_at(tview(before), m@, x.pair(), i as int);
    }
    if i < terms.len() && mono_eq(&terms[i].0, &m) {
        let c = terms[i].1;
        match c.checked_add(&x) {
            Some(sum) => {
                terms.set(i, (m, sum));
                assert(tview(terms@) =~= tview(before).update(i as int, (m@, radd(tview(before)[i as int].1, x.pair()))));
                true
            },
            None => false,
        }
    } else {
        proof {
            crate::rational::lemma_zero_arith(x.pair(), x.pair());
        }
        terms.insert(i, (m, x));
        assert(tview(terms@) =~= tview(before).insert(i as int, (m@, x.pair())));
        true
    }
}

/// The terms whose coefficient is non-zero, in order.
fn retain_nonzero(terms: &Vec<(Monomial, Rational)>) -> (r: Vec<(Monomial, Rational)>)
    ensures
        tview(r@) == nonzero(tview(terms@)),
{
    let mut kept: Vec<(Monomial, Rational)> = Vec::new();
    let mut i: usize = 0;
    while i < terms.len()
        invariant
            i <= terms.len(),
            tview(kept@) == nonzero(tview(terms@).take(i as int)),
        decreases terms.len() - i,
    {
        let ghost pre = tview(terms@).take(i as int);
        let ghost e = tview(terms@)[i as int];
        assert(tview(terms@).take(i + 1) =~= pre.push(e));
        proof {
            pre.lemma_filter_push(e, |t: (MonoView, (int, int))| t.1.0 != 0);
        }
        if !terms[i].1.is_zero() {
            let t = (terms[i].0.copy(), terms[i].1);
            proof {
                lemma_tview_push(kept@, t);
            }
            kept.push(t);
        }
        i = i + 1;
    }
    assert(tview(terms@).take(terms.len() as int) =~= tview(terms@));
    kept
}


/// `gcd(a, b)` is zero only when both are.
proof fn lemma_gcd_zero(a: nat, b: nat)
    ensures
        gcd(a, b) == 0 ==> a == 0 && b == 0,
{
    if a > 0 || b > 0 {
        crate::rational::lemma_gcd_divides(a, b);
    }
}

/// The folded gcd divides the start value and every numerator; it is zero
/// only when all of them are.
proof fn lemma_gcd_fold_divides(ts: TermsView, g0: nat)
    ensures
        gcd_fold(ts, g0) > 0 || (g0 == 0 && forall|i: int| 0 <= i < ts.len() ==> abs((#[trigger] ts[i]).1.0) == 0),
        gcd_fold(ts, g0) > 0 ==> g0 as int % gcd_fold(ts, g0) as int == 0
            && forall|i: int| 0 <= i < ts.len() ==> abs((#[trigger] ts[i]).1.0) as int % gcd_fold(ts, g0) as int == 0,
    decreases ts.len(),
{
    if ts.len() == 0 {
        if g0 > 0 {
            vstd::arithmetic::div_mod::lemma_mod_self_0(g0 as int);
        }
    } else {
        let rest = ts.drop_last();
        lemma_gcd_fold_divides(rest, g0);
        let h = gcd_fold(rest, g0);
        let c = abs(ts.last().1.0);
        let g = gcd_fold(ts, g0);
        assert(g == gcd(h, c));
        lemma_gcd_zero(h, c);
        assert forall|i: int| 0 <= i < rest.len() implies (#[trigger] rest[i]) == ts[i] by {}
        if h > 0 || c > 0 {
            crate::rational::lemma_gcd_mod(h, c);
            if h > 0 {
                crate::rational::lemma_divides_trans(g0 as int, h as int, g as int);
                assert forall|i: int| 0 <= i < ts.len() implies abs((#[trigger] ts[i]).1.0) as int % g as int == 0 by {
                    if i < rest.len() {
                        assert(rest[i] == ts[i]);
                        crate::rational::lemma_divides_trans(abs(ts[i].1.0) as int, h as int, g as int);
                    } else {
                        assert(ts[i] == ts.last());
                    }
                }
            } else {
                assert forall|i: int| 0 <= i < ts.len() implies abs((#[trigger] ts[i]).1.0) as int % g as int == 0 by {
                    if i < rest.len() {
                        assert(rest[i] == ts[i]);
                    } else {
                        assert(ts[i] == ts.last());
                    }
                }
            }
        } else {
            assert forall|i: int| 0 <= i < ts.len() implies abs((#[trigger] ts[i]).1.0) == 0 by {
                if i < rest.len() {
                    assert(rest[i] == ts[i]);
                } else {
                    assert(ts[i] == ts.last());
                }
            }
        }
    }
}

/// A positive multiple of `g` is at least `g`.
proof fn lemma_mod_zero_le(a: int, g: int)
    requires
        g > 0,
        a > 0,
        a % g == 0,
    ensures
        g <= a,
{
    vstd::arithmetic::div_mod::lemma_fundamental_div_mod(a, g);
    let k = a / g;
    assert(a == g * k);
    if k <= 0 {
        assert(g * k <= 0) by (nonlinear_arith)
            requires
                g > 0,
                k <= 0,
        ;
    }
    assert(g <= g * k) by (nonlinear_arith)
        requires
            g > 0,
            k >= 1,
    ;
}

/// A quotient of a value by a positive divisor not above it is at least 1.
proof fn lemma_div_ge_one(a: int, g: int)
    requires
        a >= g > 0,
    ensures
        a / g >= 1,
{
    vstd::arithmetic::div_mod::lemma_fundamental_div_mod(a, g);
    let k = a / g;
    if k <= 0 {
        assert(g * k <= 0) by (nonlinear_arith)
            requires
                g > 0,
                k <= 0,
        ;
    }
}

/// `gcd(a, b)` is at most the larger argument.
proof fn lemma_gcd_le(a: nat, b: nat)
    ensures
        gcd(a, b) <= if a > b { a } else { b },
    decreases b,
{
    if b > 0 {
        lemma_gcd_le(b, a % b);
    }
}

/// `|n|` as an unsigned value.
pub(crate) fn abs_u64(n: i64) -> (r: u64)
    requires
        n > i64::MIN,
    ensures
        r == abs(n as int),
        r <= i64::MAX,
{
    if n < 0 {
        (-n) as u64
    } else {
        n as u64
    }
}

/// `n / g` truncated toward zero.
pub(crate) fn div_trunc(n: i64, g: u64) -> (q: i64)
    requires
        g > 0,
        n > i64::MIN,
    ensures
        q == tdiv(n as int, g as int),
        abs(q as int) <= abs(n as int),
{
    if n < 0 {
        let m = ((-n) as u64) / g;
        -(m as i64)
    } else {
        ((n as u64) / g) as i64
    }
}

/// A polynomial in normal form: a numerator polynomial with exact rational
/// coefficients over a common denominator.  Each monomial has at most one
/// term and every stored coefficient is non-zero.
#[derive(Debug)]
pub struct PolynomialNF {
    terms: Vec<(Monomial, Rational)>,
    denominator: Rational,
}

impl View for PolynomialNF {
    type V = PolyView;

    closed spec fn view(&self) -> PolyView {
        (tview(self.terms@), self.denominator.pair())
    }
}

/// The invariant of a polynomial's model.
pub open spec fn poly_wf(p: PolyView) -> bool {
    &&& sorted(p.0)
    &&& keys_unique(p.0)
    &&& coeffs_lowest(p.0)
    &&& coeffs_nonzero(p.0)
    &&& lowest(p.1)
}

/// Reduce `(terms, den)` by their common factor, as [`simp`] states.
fn simplify(terms: Vec<(Monomial, Rational)>, den: Rational) -> (r: (Vec<(Monomial, Rational)>, Rational))
    requires
        sorted(tview(terms@)),
        keys_unique(tview(terms@)),
        coeffs_lowest(tview(terms@)),
        coeffs_nonzero(tview(terms@)),
        lowest(den.pair()),
    ensures
        (tview(r.0@), r.1.pair()) == simp(tview(terms@), den.pair()),
        poly_wf((tview(r.0@), r.1.pair())),
{
    let ghost tv = tview(terms@);
    if terms.len() == 0 {
        let one = Rational::from_integer(1);
        one.lemma_wf();
        return (terms, one);
    }
    den.lemma_wf();
    let mut g: u64 = abs_u64(den.numer());
    let mut i: usize = 0;
    while i < terms.len()
        invariant
            i <= terms.len(),
            tv == tview(terms@),
            g == gcd_fold(tv.take(i as int), abs(den.num())),
            g <= i64::MAX,
        decreases terms.len() - i,
    {
        let c = terms[i].1;
        c.lemma_wf();
        let a = abs_u64(c.numer());
        proof {
            assert(tv.take(i + 1).drop_last() =~= tv.take(i as int));
            assert(tv.take(i + 1).last() == tv[i as int]);
            lemma_gcd_le(g as nat, a as nat);
        }
        g = gcd_u128(g as u128, a as u128) as u64;
        i = i + 1;
    }
    assert(tv.take(terms.len() as int) =~= tv);
    let ghost gi = g as int;
    proof {
        lemma_gcd_fold_divides(tv, abs(den.num()));
    }
    let out: Vec<(Monomial, Rational)>;
    let d: Rational;
    if g > 1 {
        let mut acc: Vec<(Monomial, Rational)> = Vec::new();
        let mut j: usize = 0;
        while j < terms.len()
            invariant
                j <= terms.len(),
                tv == tview(terms@),
                g > 1,
                gi == g,
                gi == gcd_fold(tv, abs(den.num())),
                forall|k: int| 0 <= k < tv.len() ==> abs((#[trigger] tv[k]).1.0) as int % gi == 0,
                coeffs_nonzero(tv),
                tview(acc@) == divide_all(tv, gi).take(j as int),
                coeffs_nonzero(tview(acc@)),
                coeffs_lowest(tview(acc@)),
            decreases terms.len() - j,
        {
            let c = terms[j].1;
            c.lemma_wf();
            let q = div_trunc(c.numer(), g);
            proof {
                assert(tv[j as int].1 == c.pair());
                lemma_mod_zero_le(abs(c.num()) as int, gi);
                lemma_div_ge_one(abs(c.num()) as int, gi);
                assert(q != 0);
            }
            let nc = Rational::new(q, c.denom());
            nc.lemma_wf();
            proof {
                crate::rational::lemma_normalize_zero(q as int, c.den());
            }
            let t = (terms[j].0.copy(), nc);
            proof {
                lemma_tview_push(acc@, t);
                assert(divide_all(tv, gi).take(j + 1) =~= divide_all(tv, gi).take(j as int).push(tview(acc@.push(t))[j as int]));
            }
            acc.push(t);
            j = j + 1;
        }
        assert(divide_all(tv, gi).take(terms.len() as int) =~= divide_all(tv, gi));
        out = acc;
        let dq = div_trunc(den.numer(), g);
        d = Rational::new(dq, den.denom());
        d.lemma_wf();
    } else {
        out = terms;
        d = den;
    }
    let ghost ts1 = tview(out@);
    d.lemma_wf();
    proof {
        if g <= 1 {
            assert(ts1 == tv);
        }
    }
    if d.is_negative() {
        let mut neg_out: Vec<(Monomial, Rational)> = Vec::new();
        let mut j: usize = 0;
        while j < out.len()
            invariant
                j <= out.len(),
                ts1 == tview(out@),
                coeffs_nonzero(ts1),
                tview(neg_out@) == negate_all(ts1).take(j as int),
                coeffs_lowest(tview(neg_out@)),
            decreases out.len() - j,
        {
            let t = (out[j].0.copy(), out[j].1.neg());
            t.1.lemma_wf();
            proof {
                lemma_tview_push(neg_out@, t);
                assert(negate_all(ts1).take(j + 1) =~= negate_all(ts1).take(j as int).push(tview(neg_out@.push(t))[j as int]));
            }
            neg_out.push(t);
            j = j + 1;
        }
        assert(negate_all(ts1).take(out.len() as int) =~= negate_all(ts1));
        let nd = d.neg();
        nd.lemma_wf();
        proof {
            assert forall|a: int, b: int| 0 <= a < b < tview(neg_out@).len() implies (#[trigger] tview(neg_out@)[a]).0 != (#[trigger] tview(neg_out@)[b]).0 by {
                assert(tview(neg_out@)[a].0 == ts1[a].0 && tview(neg_out@)[b].0 == ts1[b].0);
                assert(ts1[a].0 == tv[a].0 && ts1[b].0 == tv[b].0);
            }
            assert forall|a: int| 0 <= a < tview(neg_out@).len() implies (#[trigger] tview(neg_out@)[a]).1.0 != 0 by {
                assert(tview(neg_out@)[a].1.0 == -ts1[a].1.0);
            }
        }
        (neg_out, nd)
    } else {
        proof {
            assert forall|a: int, b: int| 0 <= a < b < ts1.len() implies (#[trigger] ts1[a]).0 != (#[trigger] ts1[b]).0 by {
                assert(ts1[a].0 == tv[a].0 && ts1[b].0 == tv[b].0);
            }
        }
        (out, d)
    }
}


// ---------------------------------------------------------------------------
// Models of the operations
// ---------------------------------------------------------------------------

/// The model of [`PolynomialNF::neg`]: every coefficient negated.
pub open spec fn neg_view(p: PolyView) -> PolyView {
    (negate_all(p.0), p.1)
}

/// Fold `ts` into `acc`, each coefficient multiplied by `s` before it is added.
pub open spec fn scale_into(acc: TermsView, ts: TermsView, s: (int, int)) -> TermsView
    decreases ts.len(),
{
    if ts.len() == 0 {
        acc
    } else {
        acc_add(scale_into(acc, ts.drop_last(), s), ts.last().0, rmul(ts.last().1, s))
    }
}

/// Whether every product and every running sum of [`scale_into`] fits.
pub open spec fn scale_ok(acc: TermsView, ts: TermsView, s: (int, int)) -> bool
    decreases ts.len(),
{
    if ts.len() == 0 {
        true
    } else {
        &&& scale_ok(acc, ts.drop_last(), s)
        &&& fits(rmul(ts.last().1, s))
        &&& fits(radd(cfv(scale_into(acc, ts.drop_last(), s), ts.last().0), rmul(ts.last().1, s)))
    }
}

/// The unreduced numerator of `p + q` over the denominator `dp·dq`: the
/// terms of `p` scaled by `dq`, then those of `q` scaled by `dp`.
pub open spec fn add_sum(p: PolyView, q: PolyView) -> TermsView {
    scale_into(scale_into(Seq::empty(), p.0, q.1), q.0, p.1)
}

/// The model of [`PolynomialNF::add`].
pub open spec fn add_view(p: PolyView, q: PolyView) -> PolyView {
    simp(nonzero(add_sum(p, q)), rmul(p.1, q.1))
}

/// Whether every intermediate value of `p + q` fits in `i64`.
pub open spec fn add_ok(p: PolyView, q: PolyView) -> bool {
    &&& fits(rmul(p.1, q.1))
    &&& scale_ok(Seq::empty(), p.0, q.1)
    &&& scale_ok(scale_into(Seq::empty(), p.0, q.1), q.0, p.1)
}

/// The product of two stored monomials.
pub open spec fn mono_of(a: MonoView, b: MonoView) -> MonoView {
    as_u32(mono_mul(a, b))
}

/// Fold the products of term `t` with each term of `qs` into `acc`.
pub open spec fn mul_row(acc: TermsView, t: (MonoView, (int, int)), qs: TermsView) -> TermsView
    decreases qs.len(),
{
    if qs.len() == 0 {
        acc
    } else {
        acc_add(mul_row(acc, t, qs.drop_last()), mono_of(t.0, qs.last().0), rmul(t.1, qs.last().1))
    }
}

/// Whether every exponent, product and running sum of [`mul_row`] fits.
pub open spec fn mul_row_ok(acc: TermsView, t: (MonoView, (int, int)), qs: TermsView) -> bool
    decreases qs.len(),
{
    if qs.len() == 0 {
        true
    } else {
        &&& mul_row_ok(acc, t, qs.drop_last())
        &&& exps_fit(mono_merge(t.0, qs.last().0))
        &&& fits(rmul(t.1, qs.last().1))
        &&& fits(radd(cfv(mul_row(acc, t, qs.drop_last()), mono_of(t.0, qs.last().0)), rmul(t.1, qs.last().1)))
    }
}

/// Fold all products of a term of `ps` with a term of `qs`, row by row.
pub open spec fn mul_rows(acc: TermsView, ps: TermsView, qs: TermsView) -> TermsView
    decreases ps.len(),
{
    if ps.len() == 0 {
        acc
    } else {
        mul_row(mul_rows(acc, ps.drop_last(), qs), ps.last(), qs)
    }
}

/// Whether every step of [`mul_rows`] fits.
pub open spec fn mul_rows_ok(acc: TermsView, ps: TermsView, qs: TermsView) -> bool
    decreases ps.len(),
{
    if ps.len() == 0 {
        true
    } else {
        mul_rows_ok(acc, ps.drop_last(), qs) && mul_row_ok(mul_rows(acc, ps.drop_last(), qs), ps.last(), qs)
    }
}

/// The model of [`PolynomialNF::mul`].
pub open spec fn mul_view(p: PolyView, q: PolyView) -> PolyView {
    simp(nonzero(mul_rows(Seq::empty(), p.0, q.0)), rmul(p.1, q.1))
}

/// Whether every intermediate value of `p · q` fits.
pub open spec fn mul_ok(p: PolyView, q: PolyView) -> bool {
    mul_rows_ok(Seq::empty(), p.0, q.0) && fits(rmul(p.1, q.1))
}

/// The constant polynomial 1.
pub open spec fn one_view() -> PolyView {
    (seq![(Seq::<(Symbol, u32)>::empty(), (1int, 1int))], (1int, 1int))
}

/// The model of [`PolynomialNF::pow`]: `p^0 = 1`, `p^1 = p`, and
/// `p^n = p^(n-1) · p`.
pub open spec fn pow_view(p: PolyView, n: nat) -> PolyView
    decreases n,
{
    if n == 0 {
        one_view()
    } else if n == 1 {
        p
    } else {
        mul_view(pow_view(p, (n - 1) as nat), p)
    }
}

/// Whether every product of [`pow_view`] fits.
pub open spec fn pow_ok(p: PolyView, n: nat) -> bool
    decreases n,
{
    n <= 1 || (pow_ok(p, (n - 1) as nat) && mul_ok(pow_view(p, (n - 1) as nat), p))
}

/// The model of [`PolynomialNF::div_constant`]: same terms, denominator
/// multiplied by the divisor.
pub open spec fn div_view(p: PolyView, c: (int, int)) -> PolyView {
    (p.0, rmul(p.1, c))
}

/// Whether `p` is constant: no terms, or one term of the constant monomial.
pub open spec fn is_const_view(p: PolyView) -> bool {
    p.0.len() == 0 || (p.0.len() == 1 && p.0[0].0.len() == 0)
}

/// The value of a constant polynomial: 0 without terms, otherwise the
/// coefficient over the denominator (`None` for a zero denominator or a
/// value outside `i64`, and for a non-constant polynomial).
pub open spec fn const_value_view(p: PolyView) -> Option<(int, int)> {
    if p.0.len() == 0 {
        Some((0int, 1int))
    } else if p.0.len() == 1 && p.0[0].0.len() == 0 {
        let q = frac_div(p.0[0].1, p.1);
        if p.1.0 != 0 && fits(normalize(q.0, q.1)) {
            Some(normalize(q.0, q.1))
        } else {
            None
        }
    } else {
        None
    }
}

/// Algebraic equality of two polynomials: `p - q` has no terms.
pub open spec fn equals_view(p: PolyView, q: PolyView) -> bool {
    add_view(p, neg_view(q)).0.len() == 0
}

// ---------------------------------------------------------------------------
// Lemmas on the folds
// ---------------------------------------------------------------------------

/// A fold that fits on all of `ts` fits on each prefix.
proof fn lemma_scale_ok_prefix(acc: TermsView, ts: TermsView, s: (int, int), k: int)
    requires
        0 <= k <= ts.len(),
        scale_ok(acc, ts, s),
    ensures
        scale_ok(acc, ts.take(k), s),
    decreases ts.len() - k,
{
    if k < ts.len() {
        assert(ts.drop_last() =~= ts.take(ts.len() - 1));
        lemma_scale_ok_prefix(acc, ts.drop_last(), s, k);
        assert(ts.drop_last().take(k) =~= ts.take(k));
    } else {
        assert(ts.take(k) =~= ts);
    }
}

/// A row fold that fits on all of `qs` fits on each prefix.
proof fn lemma_mul_row_ok_prefix(acc: TermsView, t: (MonoView, (int, int)), qs: TermsView, k: int)
    requires
        0 <= k <= qs.len(),
        mul_row_ok(acc, t, qs),
    ensures
        mul_row_ok(acc, t, qs.take(k)),
    decreases qs.len() - k,
{
    if k < qs.len() {
        lemma_mul_row_ok_prefix(acc, t, qs.drop_last(), k);
        assert(qs.drop_last().take(k) =~= qs.take(k));
    } else {
        assert(qs.take(k) =~= qs);
    }
}

/// A fold over rows that fits on all of `ps` fits on each prefix.
proof fn lemma_mul_rows_ok_prefix(acc: TermsView, ps: TermsView, qs: TermsView, k: int)
    requires
        0 <= k <= ps.len(),
        mul_rows_ok(acc, ps, qs),
    ensures
        mul_rows_ok(acc, ps.take(k), qs),
    decreases ps.len() - k,
{
    if k < ps.len() {
        lemma_mul_rows_ok_prefix(acc, ps.drop_last(), qs, k);
        assert(ps.drop_last().take(k) =~= ps.take(k));
    } else {
        assert(ps.take(k) =~= ps);
    }
}

// ---------------------------------------------------------------------------
// Exec folds
// ---------------------------------------------------------------------------

/// Fold `src` into `terms`, each coefficient multiplied by `s`; `false` when
/// a product or a sum does not fit.
fn scale_accumulate(terms: &mut Vec<(Monomial, Rational)>, src: &Vec<(Monomial, Rational)>, s: &Rational) -> (ok: bool)
    requires
        sorted(tview(old(terms)@)),
        keys_unique(tview(old(terms)@)),
        coeffs_lowest(tview(old(terms)@)),
    ensures
        ok == scale_ok(tview(old(terms)@), tview(src@), s.pair()),
        ok ==> tview(final(terms)@) == scale_into(tview(old(terms)@), tview(src@), s.pair())
            && sorted(tview(final(terms)@)) && keys_unique(tview(final(terms)@)) && coeffs_lowest(tview(final(terms)@)),
{
    let ghost acc0 = tview(terms@);
    let ghost sv = tview(src@);
    let mut i: usize = 0;
    assert(sv.take(0) =~= Seq::<(MonoView, (int, int))>::empty());
    while i < src.len()
        invariant
            i <= src.len(),
            sv == tview(src@),
            acc0 == tview(old(terms)@),
            tview(terms@) == scale_into(acc0, sv.take(i as int), s.pair()),
            scale_ok(acc0, sv.take(i as int), s.pair()),
            sorted(tview(terms@)),
            keys_unique(tview(terms@)),
            coeffs_lowest(tview(terms@)),
        decreases src.len() - i,
    {
        let ghost cur = tview(terms@);
        proof {
            assert(sv.take(i + 1).drop_last() =~= sv.take(i as int));
            assert(sv.take(i + 1).last() == sv[i as int]);
        }
        match src[i].1.checked_mul(s) {
            None => {
                proof {
                    if scale_ok(acc0, sv, s.pair()) {
                        lemma_scale_ok_prefix(acc0, sv, s.pair(), i + 1);
                    }
                }
                return false;
            },
            Some(x) => {
                x.lemma_wf();
                let m = src[i].0.copy();
                if !accumulate(terms, m, x) {
                    proof {
                        if scale_ok(acc0, sv, s.pair()) {
                            lemma_scale_ok_prefix(acc0, sv, s.pair(), i + 1);
                        }
                    }
                    return false;
                }
                proof {
                    lemma_acc_add_wf(cur, sv[i as int].0, x.pair());
                }
            },
        }
        i = i + 1;
    }
    assert(sv.take(src.len() as int) =~= sv);
    true
}

/// Fold the products of term `t` with each term of `src` into `terms`;
/// `false` when an exponent, a product or a sum does not fit.
fn mul_row_accumulate(terms: &mut Vec<(Monomial, Rational)>, t: &(Monomial, Rational), src: &Vec<(Monomial, Rational)>) -> (ok: bool)
    requires
        sorted(tview(old(terms)@)),
        keys_unique(tview(old(terms)@)),
        coeffs_lowest(tview(old(terms)@)),
    ensures
        ok == mul_row_ok(tview(old(terms)@), (t.0@, t.1.pair()), tview(src@)),
        ok ==> tview(final(terms)@) == mul_row(tview(old(terms)@), (t.0@, t.1.pair()), tview(src@))
            && sorted(tview(final(terms)@)) && keys_unique(tview(final(terms)@)) && coeffs_lowest(tview(final(terms)@)),
{
    let ghost acc0 = tview(terms@);
    let ghost sv = tview(src@);
    let ghost tv = (t.0@, t.1.pair());
    let mut i: usize = 0;
    assert(sv.take(0) =~= Seq::<(MonoView, (int, int))>::empty());
    while i < src.len()
        invariant
            i <= src.len(),
            sv == tview(src@),
            tv == (t.0@, t.1.pair()),
            acc0 == tview(old(terms)@),
            tview(terms@) == mul_row(acc0, tv, sv.take(i as int)),
            mul_row_ok(acc0, tv, sv.take(i as int)),
            sorted(tview(terms@)),
            keys_unique(tview(terms@)),
            coeffs_lowest(tview(terms@)),
        decreases src.len() - i,
    {
        let ghost cur = tview(terms@);
        proof {
            assert(sv.take(i + 1).drop_last() =~= sv.take(i as int));
            assert(sv.take(i + 1).last() == sv[i as int]);
        }
        let mono = t.0.checked_mul(&src[i].0);
        let coeff = t.1.checked_mul(&src[i].1);
        match (mono, coeff) {
            (Some(m), Some(x)) => {
                x.lemma_wf();
                if !accumulate(terms, m, x) {
                    proof {
                        if mul_row_ok(acc0, tv, sv) {
                            lemma_mul_row_ok_prefix(acc0, tv, sv, i + 1);
                        }
                    }
                    return false;
                }
                proof {
                    lemma_acc_add_wf(cur, mono_of(tv.0, sv[i as int].0), x.pair());
                }
            },
            _ => {
                proof {
                    if mul_row_ok(acc0, tv, sv) {
                        lemma_mul_row_ok_prefix(acc0, tv, sv, i + 1);
                    }
                }
                return false;
            },
        }
        i = i + 1;
    }
    assert(sv.take(src.len() as int) =~= sv);
    true
}


/// A structural copy of a term list.
fn copy_terms(ts: &Vec<(Monomial, Rational)>) -> (r: Vec<(Monomial, Rational)>)
    ensures
        tview(r@) == tview(ts@),
{
    let mut out: Vec<(Monomial, Rational)> = Vec::new();
    let mut i: usize = 0;
    while i < ts.len()
        invariant
            i <= ts.len(),
            tview(out@) == tview(ts@).take(i as int),
        decreases ts.len() - i,
    {
        let t = (ts[i].0.copy(), ts[i].1);
        proof {
            lemma_tview_push(out@, t);
            assert(tview(ts@).take(i + 1) =~= tview(ts@).take(i as int).push(tview(out@.push(t))[i as int]));
        }
        out.push(t);
        i = i + 1;
    }
    assert(tview(ts@).take(ts.len() as int) =~= tview(ts@));
    out
}

/// `pow_ok` for an exponent gives it for every smaller one.
proof fn lemma_pow_ok_mono(p: PolyView, n: nat, k: nat)
    requires
        k <= n,
        pow_ok(p, n),
    ensures
        pow_ok(p, k),
    decreases n - k,
{
    if k < n {
        lemma_pow_ok_mono(p, (n - 1) as nat, k);
    }
}

impl PolynomialNF {
    #[verifier::type_invariant]
    spec fn inv(self) -> bool {
        poly_wf((tview(self.terms@), self.denominator.pair()))
    }

    /// Every polynomial satisfies [`poly_wf`].
    pub fn lemma_wf(&self)
        ensures
            poly_wf(self@),
    {
        proof {
            use_type_invariant(self);
        }
    }

    /// The zero polynomial: no terms, denominator 1.
    pub fn zero() -> (p: Self)
        ensures
            p@ == (Seq::<(MonoView, (int, int))>::empty(), (1int, 1int)),
    {
        let one = Rational::from_integer(1);
        one.lemma_wf();
        let terms: Vec<(Monomial, Rational)> = Vec::new();
        assert(tview(terms@) =~= Seq::<(MonoView, (int, int))>::empty());
        PolynomialNF { terms, denominator: one }
    }

    /// A constant polynomial; the zero polynomial when `c` is zero.
    pub fn constant(c: Rational) -> (p: Self)
        ensures
            p@ == (if c.num() == 0 {
                (Seq::<(MonoView, (int, int))>::empty(), (1int, 1int))
            } else {
                (seq![(Seq::<(Symbol, u32)>::empty(), c.pair())], (1int, 1int))
            }),
    {
        if c.is_zero() {
            return Self::zero();
        }
        c.lemma_wf();
        let one = Rational::from_integer(1);
        one.lemma_wf();
        let mut terms: Vec<(Monomial, Rational)> = Vec::new();
        terms.push((Monomial::constant(), c));
        assert(tview(terms@) =~= seq![(Seq::<(Symbol, u32)>::empty(), c.pair())]);
        PolynomialNF { terms, denominator: one }
    }

    /// The polynomial `x`: one term `x^1` with coefficient 1, denominator 1.
    pub fn var(v: Symbol) -> (p: Self)
        ensures
            p@ == (seq![(seq![(v, 1u32)], (1int, 1int))], (1int, 1int)),
    {
        let one = Rational::from_integer(1);
        one.lemma_wf();
        let mut terms: Vec<(Monomial, Rational)> = Vec::new();
        terms.push((Monomial::var(v), one));
        assert(tview(terms@) =~= seq![(seq![(v, 1u32)], (1int, 1int))]);
        PolynomialNF { terms, denominator: one }
    }

    /// A structural copy.
    pub fn copy(&self) -> (p: Self)
        ensures
            p@ == self@,
    {
        proof {
            use_type_invariant(self);
        }
        PolynomialNF { terms: copy_terms(&self.terms), denominator: self.denominator }
    }

    /// The negated polynomial: every coefficient negated, same denominator.
    pub fn neg(&self) -> (p: Self)
        ensures
            p@ == neg_view(self@),
    {
        proof {
            use_type_invariant(self);
        }
        let ghost tv = tview(self.terms@);
        let mut terms: Vec<(Monomial, Rational)> = Vec::new();
        let mut i: usize = 0;
        while i < self.terms.len()
            invariant
                i <= self.terms.len(),
                tv == tview(self.terms@),
                tview(terms@) == negate_all(tv).take(i as int),
                coeffs_lowest(tview(terms@)),
            decreases self.terms.len() - i,
        {
            let c = self.terms[i].1.neg();
            c.lemma_wf();
            let t = (self.terms[i].0.copy(), c);
            proof {
                lemma_tview_push(terms@, t);
                assert(negate_all(tv).take(i + 1) =~= negate_all(tv).take(i as int).push(tview(terms@.push(t))[i as int]));
            }
            terms.push(t);
            i = i + 1;
        }
        assert(negate_all(tv).take(self.terms.len() as int) =~= negate_all(tv));
        proof {
            let n = tview(terms@);
            assert forall|a: int, b: int| 0 <= a < b < n.len() implies (#[trigger] n[a]).0 != (#[trigger] n[b]).0 by {
                assert(n[a].0 == tv[a].0 && n[b].0 == tv[b].0);
            }
            assert forall|a: int| 0 <= a < n.len() implies (#[trigger] n[a]).1.0 != 0 by {
                assert(n[a].1.0 == -tv[a].1.0);
            }
        }
        PolynomialNF { terms, denominator: self.denominator }
    }

    /// The sum, or `None` when an intermediate value leaves `i64`.
    pub fn checked_add(&self, other: &PolynomialNF) -> (r: Option<PolynomialNF>)
        ensures
            r is Some <==> add_ok(self@, other@),
            r matches Some(p) ==> p@ == add_view(self@, other@),
    {
        proof {
            use_type_invariant(self);
            use_type_invariant(other);
        }
        let den = match self.denominator.checked_mul(&other.denominator) {
            Some(d) => d,
            None => return None,
        };
        den.lemma_wf();
        let mut terms: Vec<(Monomial, Rational)> = Vec::new();
        assert(tview(terms@) =~= Seq::<(MonoView, (int, int))>::empty());
        if !scale_accumulate(&mut terms, &self.terms, &other.denominator) {
            return None;
        }
        if !scale_accumulate(&mut terms, &other.terms, &self.denominator) {
            return None;
        }
        let kept = retain_nonzero(&terms);
        proof {
            lemma_nonzero_wf(tview(terms@));
        }
        let (ts, d) = simplify(kept, den);
        Some(PolynomialNF { terms: ts, denominator: d })
    }

    /// The sum: the terms of each side scaled by the other's denominator and
    /// added monomial by monomial over the product of the denominators, zero
    /// terms dropped, then reduced.
    pub fn add(&self, other: &PolynomialNF) -> (p: PolynomialNF)
        requires
            add_ok(self@, other@),
        ensures
            p@ == add_view(self@, other@),
    {
        match self.checked_add(other) {
            Some(p) => p,
            None => Self::zero(),
        }
    }

    /// The product, or `None` when an exponent or an intermediate value
    /// leaves its type.
    pub fn checked_mul(&self, other: &PolynomialNF) -> (r: Option<PolynomialNF>)
        ensures
            r is Some <==> mul_ok(self@, other@),
            r matches Some(p) ==> p@ == mul_view(self@, other@),
    {
        proof {
            use_type_invariant(self);
            use_type_invariant(other);
        }
        let ghost ps = tview(self.terms@);
        let ghost qs = tview(other.terms@);
        let ghost e = Seq::<(MonoView, (int, int))>::empty();
        let mut terms: Vec<(Monomial, Rational)> = Vec::new();
        assert(tview(terms@) =~= e);
        assert(ps.take(0) =~= e);
        let mut i: usize = 0;
        while i < self.terms.len()
            invariant
                i <= self.terms.len(),
                ps == tview(self.terms@),
                qs == tview(other.terms@),
                e == Seq::<(MonoView, (int, int))>::empty(),
                tview(terms@) == mul_rows(e, ps.take(i as int), qs),
                mul_rows_ok(e, ps.take(i as int), qs),
                sorted(tview(terms@)),
                keys_unique(tview(terms@)),
                coeffs_lowest(tview(terms@)),
            decreases self.terms.len() - i,
        {
            proof {
                assert(ps.take(i + 1).drop_last() =~= ps.take(i as int));
                assert(ps.take(i + 1).last() == ps[i as int]);
            }
            if !mul_row_accumulate(&mut terms, &self.terms[i], &other.terms) {
                proof {
                    if mul_rows_ok(e, ps, qs) {
                        lemma_mul_rows_ok_prefix(e, ps, qs, i + 1);
                    }
                }
                return None;
            }
            i = i + 1;
        }
        assert(ps.take(self.terms.len() as int) =~= ps);
        let den = match self.denominator.checked_mul(&other.denominator) {
            Some(d) => d,
            None => return None,
        };
        den.lemma_wf();
        let kept = retain_nonzero(&terms);
        proof {
            lemma_nonzero_wf(tview(terms@));
        }
        let (ts, d) = simplify(kept, den);
        Some(PolynomialNF { terms: ts, denominator: d })
    }

    /// The product: every pair of terms multiplied and added monomial by
    /// monomial, over the product of the denominators, zero terms dropped,
    /// then reduced.
    pub fn mul(&self, other: &PolynomialNF) -> (p: PolynomialNF)
        requires
            mul_ok(self@, other@),
        ensures
            p@ == mul_view(self@, other@),
    {
        match self.checked_mul(other) {
            Some(p) => p,
            None => Self::zero(),
        }
    }

    /// Division by a constant, or `None` when the new denominator does not fit.
    pub fn checked_div_constant(&self, divisor: Rational) -> (r: Option<PolynomialNF>)
        ensures
            r is Some <==> fits(rmul(self@.1, divisor.pair())),
            r matches Some(p) ==> p@ == div_view(self@, divisor.pair()),
    {
        proof {
            use_type_invariant(self);
        }
        match self.denominator.checked_mul(&divisor) {
            Some(d) => {
                d.lemma_wf();
                Some(PolynomialNF { terms: copy_terms(&self.terms), denominator: d })
            },
            None => None,
        }
    }

    /// Division by a constant: same terms, the denominator multiplied by the
    /// divisor.
    pub fn div_constant(&self, divisor: Rational) -> (p: PolynomialNF)
        requires
            fits(rmul(self@.1, divisor.pair())),
        ensures
            p@ == div_view(self@, divisor.pair()),
    {
        match self.checked_div_constant(divisor) {
            Some(p) => p,
            None => Self::zero(),
        }
    }

    /// The `n`-th power, or `None` when a product does not fit.
    pub fn checked_pow(&self, n: u32) -> (r: Option<PolynomialNF>)
        ensures
            r is Some <==> pow_ok(self@, n as nat),
            r matches Some(p) ==> p@ == pow_view(self@, n as nat),
    {
        if n == 0 {
            let one = Rational::from_integer(1);
            let p = Self::constant(one);
            assert(p@ == one_view());
            return Some(p);
        }
        let mut result = self.copy();
        let mut k: u32 = 1;
        while k < n
            invariant
                1 <= k <= n,
                result@ == pow_view(self@, k as nat),
                pow_ok(self@, k as nat),
            decreases n - k,
        {
            match result.checked_mul(self) {
                Some(r) => {
                    result = r;
                },
                None => {
                    proof {
                        if pow_ok(self@, n as nat) {
                            lemma_pow_ok_mono(self@, n as nat, (k + 1) as nat);
                        }
                    }
                    return None;
                },
            }
            k = k + 1;
        }
        Some(result)
    }

    /// The `n`-th power: 1 for `n == 0`, otherwise `n - 1` repeated
    /// multiplications by `self`.
    pub fn pow(&self, n: u32) -> (p: PolynomialNF)
        requires
            pow_ok(self@, n as nat),
        ensures
            p@ == pow_view(self@, n as nat),
    {
        match self.checked_pow(n) {
            Some(p) => p,
            None => Self::zero(),
        }
    }

    /// Whether this is a constant polynomial: no terms, or a single term of
    /// the constant monomial.
    pub fn is_constant(&self) -> (b: bool)
        ensures
            b == is_const_view(self@),
    {
        self.terms.len() == 0 || (self.terms.len() == 1 && self.terms[0].0.is_constant())
    }

    /// The value of a constant polynomial: 0 without terms, the single
    /// constant coefficient divided by the denominator otherwise; `None` for
    /// a non-constant polynomial, a zero denominator or a quotient outside
    /// `i64`.
    pub fn constant_value(&self) -> (r: Option<Rational>)
        ensures
            r matches Some(v) ==> const_value_view(self@) == Some(v.pair()),
            r is None ==> const_value_view(self@) is None,
    {
        if self.terms.len() == 0 {
            return Some(Rational::from_integer(0));
        }
        if self.terms.len() == 1 && self.terms[0].0.is_constant() {
            return self.terms[0].1.checked_div(&self.denominator);
        }
        None
    }

    /// Algebraic equality: `self - other` has no terms.
    pub fn equals(&self, other: &PolynomialNF) -> (b: bool)
        requires
            add_ok(self@, neg_view(other@)),
        ensures
            b == equals_view(self@, other@),
    {
        let diff = self.add(&other.neg());
        diff.terms.len() == 0
    }

    /// Algebraic equality, or `None` when `self - other` leaves `i64`.
    pub fn checked_equals(&self, other: &PolynomialNF) -> (r: Option<bool>)
        ensures
            r is Some <==> add_ok(self@, neg_view(other@)),
            r matches Some(b) ==> b == equals_view(self@, other@),
    {
        match self.checked_add(&other.neg()) {
            Some(diff) => Some(diff.terms.len() == 0),
            None => None,
        }
    }
}


// ---------------------------------------------------------------------------
// Expressions
// ---------------------------------------------------------------------------

/// The model of [`PolynomialNF::constant`].
pub open spec fn const_view(c: (int, int)) -> PolyView {
    if c.0 == 0 {
        (Seq::empty(), (1int, 1int))
    } else {
        (seq![(Seq::<(Symbol, u32)>::empty(), c)], (1int, 1int))
    }
}

/// The model of [`PolynomialNF::var`].
pub open spec fn var_view(v: Symbol) -> PolyView {
    (seq![(seq![(v, 1u32)], (1int, 1int))], (1int, 1int))
}

/// The normal form of an expression: constants, variables, negation, sum,
/// difference, product, division by a constant polynomial with a value,
/// and a power with a constant integer exponent from 0 to 10.  `None` for
/// any other expression, and where an intermediate value leaves `i64`.
pub open spec fn nf(e: Expr) -> Option<PolyView>
    decreases e,
{
    match e {
        Expr::Const(r) => Some(const_view(r.pair())),
        Expr::Var(v) => Some(var_view(v)),
        Expr::Neg(a) => match nf(*a) {
            Some(p) => Some(neg_view(p)),
            None => None,
        },
        Expr::Add(a, b) => match (nf(*a), nf(*b)) {
            (Some(p), Some(q)) => if add_ok(p, q) {
                Some(add_view(p, q))
            } else {
                None
            },
            _ => None,
        },
        Expr::Sub(a, b) => match (nf(*a), nf(*b)) {
            (Some(p), Some(q)) => if add_ok(p, neg_view(q)) {
                Some(add_view(p, neg_view(q)))
            } else {
                None
            },
            _ => None,
        },
        Expr::Mul(a, b) => match (nf(*a), nf(*b)) {
            (Some(p), Some(q)) => if mul_ok(p, q) {
                Some(mul_view(p, q))
            } else {
                None
            },
            _ => None,
        },
        Expr::Div(a, b) => match (nf(*a), nf(*b)) {
            (Some(p), Some(q)) => if is_const_view(q) {
                match const_value_view(q) {
                    Some(c) => if fits(rmul(p.1, c)) {
                        Some(div_view(p, c))
                    } else {
                        None
                    },
                    None => None,
                }
            } else {
                None
            },
            _ => None,
        },
        Expr::Pow(base, exp) => match nf(*base) {
            Some(p) => match *exp {
                Expr::Const(r) => if r.den() == 1 && 0 <= r.num() <= 10 && pow_ok(p, r.num() as nat) {
                    Some(pow_view(p, r.num() as nat))
                } else {
                    None
                },
                _ => None,
            },
            None => None,
        },
        _ => None,
    }
}

/// Whether two expressions are algebraically equal: `Some` when both have a
/// normal form and their difference fits, then whether it has no terms.
pub open spec fn alg_eq_view(a: Expr, b: Expr) -> Option<bool> {
    match (nf(a), nf(b)) {
        (Some(p), Some(q)) => if add_ok(p, neg_view(q)) {
            Some(equals_view(p, q))
        } else {
            None
        },
        _ => None,
    }
}

/// `x^e` as an expression: `x` itself for `e == 1`.
pub open spec fn power_expr(p: (Symbol, u32)) -> Expr {
    if p.1 == 1 {
        Expr::Var(p.0)
    } else {
        Expr::Pow(Box::new(Expr::Var(p.0)), Box::new(Expr::Const(rat((p.1 as int, 1)))))
    }
}

/// The product of a monomial's powers, left-nested; `None` for the constant
/// monomial.
pub open spec fn mono_expr(ps: MonoView) -> Option<Expr>
    decreases ps.len(),
{
    if ps.len() == 0 {
        None
    } else {
        match mono_expr(ps.drop_last()) {
            None => Some(power_expr(ps.last())),
            Some(e) => Some(Expr::Mul(Box::new(e), Box::new(power_expr(ps.last())))),
        }
    }
}

/// A term as an expression: the bare constant for the constant monomial,
/// the monomial alone for coefficient 1, its negation for -1, and the
/// coefficient times the monomial otherwise.
pub open spec fn term_expr(t: (MonoView, (int, int))) -> Expr {
    match mono_expr(t.0) {
        None => Expr::Const(rat(t.1)),
        Some(e) => if t.1 == (1int, 1int) {
            e
        } else if t.1 == (-1int, 1int) {
            Expr::Neg(Box::new(e))
        } else {
            Expr::Mul(Box::new(Expr::Const(rat(t.1))), Box::new(e))
        },
    }
}

/// The sum of the terms, left-nested; `None` without terms.
pub open spec fn sum_expr(ts: TermsView) -> Option<Expr>
    decreases ts.len(),
{
    if ts.len() == 0 {
        None
    } else {
        match sum_expr(ts.drop_last()) {
            None => Some(term_expr(ts.last())),
            Some(r) => Some(Expr::Add(Box::new(r), Box::new(term_expr(ts.last())))),
        }
    }
}

/// The model of [`PolynomialNF::to_expr`]: `0` without terms; otherwise the
/// sum of the terms, divided by the denominator unless it is 1.
pub open spec fn to_expr_view(p: PolyView) -> Expr {
    match sum_expr(p.0) {
        None => Expr::Const(rat((0, 1))),
        Some(n) => if p.1 == (1int, 1int) {
            n
        } else {
            Expr::Div(Box::new(n), Box::new(Expr::Const(rat(p.1))))
        },
    }
}

impl PolynomialNF {
    /// The normal form of an expression, as [`nf`] states.
    pub fn from_expr(expr: &Expr) -> (r: Option<PolynomialNF>)
        ensures
            r matches Some(p) ==> nf(*expr) == Some(p@),
            r is None ==> nf(*expr) is None,
        decreases expr,
    {
        match expr {
            Expr::Const(c) => Some(Self::constant(*c)),
            Expr::Var(v) => Some(Self::var(*v)),
            Expr::Neg(a) => match Self::from_expr(a) {
                Some(p) => Some(p.neg()),
                None => None,
            },
            Expr::Add(a, b) => {
                let pa = match Self::from_expr(a) {
                    Some(p) => p,
                    None => return None,
                };
                let pb = match Self::from_expr(b) {
                    Some(p) => p,
                    None => return None,
                };
                pa.checked_add(&pb)
            },
            Expr::Sub(a, b) => {
                let pa = match Self::from_expr(a) {
                    Some(p) => p,
                    None => return None,
                };
                let pb = match Self::from_expr(b) {
                    Some(p) => p,
                    None => return None,
                };
                pa.checked_add(&pb.neg())
            },
            Expr::Mul(a, b) => {
                let pa = match Self::from_expr(a) {
                    Some(p) => p,
                    None => return None,
                };
                let pb = match Self::from_expr(b) {
                    Some(p) => p,
                    None => return None,
                };
                pa.checked_mul(&pb)
            },
            Expr::Div(a, b) => {
                let pa = match Self::from_expr(a) {
                    Some(p) => p,
                    None => return None,
                };
                let pb = match Self::from_expr(b) {
                    Some(p) => p,
                    None => return None,
                };
                if pb.is_constant() {
                    match pb.constant_value() {
                        Some(d) => pa.checked_div_constant(d),
                        None => None,
                    }
                } else {
                    None
                }
            },
            Expr::Pow(base, exp) => {
                let pb = match Self::from_expr(base) {
                    Some(p) => p,
                    None => return None,
                };
                match &**exp {
                    Expr::Const(r) => {
                        if r.is_integer() && r.denom() == 1 {
                            let n = r.numer();
                            if n >= 0 && n <= 10 {
                                return pb.checked_pow(n as u32);
                            }
                        }
                        None
                    },
                    _ => None,
                }
            },
            _ => None,
        }
    }

    /// The polynomial as an expression, as [`to_expr_view`] states.
    pub fn to_expr(&self) -> (e: Expr)
        ensures
            e == to_expr_view(self@),
    {
        let ghost tv = tview(self.terms@);
        let mut result: Option<Expr> = None;
        let mut i: usize = 0;
        assert(tv.take(0) =~= Seq::<(MonoView, (int, int))>::empty());
        while i < self.terms.len()
            invariant
                i <= self.terms.len(),
                tv == tview(self.terms@),
                result == sum_expr(tv.take(i as int)),
            decreases self.terms.len() - i,
        {
            let powers = &self.terms[i].0.powers;
            let ghost pv = powers@;
            let mut term: Option<Expr> = None;
            let mut j: usize = 0;
            assert(pv.take(0) =~= Seq::<(Symbol, u32)>::empty());
            while j < powers.len()
                invariant
                    j <= powers.len(),
                    pv == powers@,
                    term == mono_expr(pv.take(j as int)),
                decreases powers.len() - j,
            {
                let (v, k) = powers[j];
                let var_expr = if k == 1 {
                    Expr::Var(v)
                } else {
                    let c = Expr::integer(k as i64);
                    proof {
                        let cc = c->Const_0;
                        lemma_rat_pair(cc);
                    }
                    Expr::Pow(Box::new(Expr::Var(v)), Box::new(c))
                };
                proof {
                    assert(pv.take(j + 1).drop_last() =~= pv.take(j as int));
                    assert(pv.take(j + 1).last() == pv[j as int]);
                }
                term = match term {
                    None => Some(var_expr),
                    Some(e) => Some(Expr::Mul(Box::new(e), Box::new(var_expr))),
                };
                j = j + 1;
            }
            assert(pv.take(powers.len() as int) =~= pv);
            let coeff = self.terms[i].1;
            proof {
                lemma_rat_pair(coeff);
                assert(tv[i as int] == (pv, coeff.pair()));
            }
            let with_coeff = match term {
                None => Expr::Const(coeff),
                Some(e) => {
                    if coeff.numer() == 1 && coeff.denom() == 1 {
                        e
                    } else if coeff.numer() == -1 && coeff.denom() == 1 {
                        Expr::Neg(Box::new(e))
                    } else {
                        Expr::Mul(Box::new(Expr::Const(coeff)), Box::new(e))
                    }
                },
            };
            proof {
                assert(tv.take(i + 1).drop_last() =~= tv.take(i as int));
                assert(tv.take(i + 1).last() == tv[i as int]);
            }
            result = match result {
                None => Some(with_coeff),
                Some(r) => Some(Expr::Add(Box::new(r), Box::new(with_coeff))),
            };
            i = i + 1;
        }
        assert(tv.take(self.terms.len() as int) =~= tv);
        proof {
            lemma_rat_pair(self.denominator);
        }
        match result {
            None => {
                let z = Expr::integer(0);
                proof {
                    lemma_rat_pair(z->Const_0);
                }
                z
            },
            Some(n) => {
                if self.denominator.numer() == 1 && self.denominator.denom() == 1 {
                    n
                } else {
                    Expr::Div(Box::new(n), Box::new(Expr::Const(self.denominator)))
                }
            },
        }
    }
}

/// Whether two expressions are algebraically equal, as [`alg_eq_view`]
/// states: `None` when either has no polynomial normal form.
pub fn algebraically_equal(a: &Expr, b: &Expr) -> (r: Option<bool>)
    ensures
        r == alg_eq_view(*a, *b),
{
    let pa = match PolynomialNF::from_expr(a) {
        Some(p) => p,
        None => return None,
    };
    let pb = match PolynomialNF::from_expr(b) {
        Some(p) => p,
        None => return None,
    };
    pa.checked_equals(&pb)
}


// ---------------------------------------------------------------------------
// Laws
// ---------------------------------------------------------------------------

/// The value that monomial `m` has in `p`: its coefficient over the
/// denominator.
pub open spec fn coeff_value(p: PolyView, m: MonoView) -> (int, int) {
    frac_div(cfv(p.0, m), p.1)
}

/// The coefficient of `m` is `0/1` or that of a term of `m`; with unique
/// monomials, a term's coefficient is the coefficient of its monomial.
proof fn lemma_cfv_cases(ts: TermsView, m: MonoView)
    ensures
        cfv(ts, m) == (0int, 1int) || exists|i: int| 0 <= i < ts.len() && ts[i].0 == m && cfv(ts, m) == ts[i].1,
        keys_unique(ts) ==> forall|i: int| 0 <= i < ts.len() && ts[i].0 == m ==> cfv(ts, m) == (#[trigger] ts[i]).1,
    decreases ts.len(),
{
    if ts.len() > 0 {
        let rest = ts.drop_first();
        lemma_cfv_cases(rest, m);
        if ts[0].0 != m {
            if cfv(rest, m) != (0int, 1int) {
                let i = choose|i: int| 0 <= i < rest.len() && rest[i].0 == m && cfv(rest, m) == rest[i].1;
                assert(ts[i + 1] == rest[i]);
            }
            if keys_unique(ts) {
                assert forall|a: int, b: int| 0 <= a < b < rest.len() implies (#[trigger] rest[a]).0 != (#[trigger] rest[b]).0 by {
                    assert(rest[a] == ts[a + 1] && rest[b] == ts[b + 1]);
                }
                assert forall|i: int| 0 <= i < ts.len() && ts[i].0 == m implies cfv(ts, m) == (#[trigger] ts[i]).1 by {
                    assert(i > 0);
                    assert(rest[i - 1] == ts[i]);
                }
            }
        } else {
            if keys_unique(ts) {
                assert forall|i: int| 0 <= i < ts.len() && ts[i].0 == m implies cfv(ts, m) == (#[trigger] ts[i]).1 by {
                    if i > 0 {
                        assert(ts[0].0 == ts[i].0);
                    }
                }
            }
        }
    }
}

/// How `acc_add` changes a coefficient.
proof fn lemma_cfv_acc_add(a: TermsView, k: MonoView, x: (int, int), m: MonoView)
    requires
        sorted(a),
        lowest(x),
    ensures
        cfv(acc_add(a, k, x), m) == (if k == m {
            radd(cfv(a, m), x)
        } else {
            cfv(a, m)
        }),
    decreases a.len(),
{
    let r = acc_add(a, k, x);
    if a.len() == 0 {
        crate::rational::lemma_zero_arith(x, x);
        assert(r == seq![(k, x)]);
        assert(r[0] == (k, x));
        assert(cfv(a, m) == (0int, 1int));
        if k != m {
            assert(r.drop_first().len() == 0);
            assert(cfv(r.drop_first(), m) == (0int, 1int));
            assert(cfv(r, m) == cfv(r.drop_first(), m));
        } else {
            assert(cfv(r, m) == x);
        }
    } else if a[0].0 == k {
        assert(r == seq![(k, radd(a[0].1, x))] + a.drop_first());
        assert(r[0] == (k, radd(a[0].1, x)));
        assert(r.drop_first() =~= a.drop_first());
        if k == m {
            assert(cfv(a, m) == a[0].1);
        } else {
            assert(cfv(a, m) == cfv(a.drop_first(), m));
            assert(cfv(r, m) == cfv(r.drop_first(), m));
        }
    } else if mono_lt(k, a[0].0) {
        crate::rational::lemma_zero_arith(x, x);
        assert(r == seq![(k, x)] + a);
        assert(r[0] == (k, x));
        assert(r.drop_first() =~= a);
        if k == m {
            lemma_sorted_below(a, k);
            lemma_cfv_absent(a, k);
        } else {
            assert(cfv(r, m) == cfv(r.drop_first(), m));
        }
    } else {
        lemma_sorted_tail(a);
        lemma_cfv_acc_add(a.drop_first(), k, x, m);
        assert(r == seq![a[0]] + acc_add(a.drop_first(), k, x));
        assert(r[0] == a[0]);
        assert(r.drop_first() =~= acc_add(a.drop_first(), k, x));
        if a[0].0 == m {
            assert(cfv(a, m) == a[0].1);
            assert(cfv(r, m) == r[0].1);
        } else {
            assert(cfv(a, m) == cfv(a.drop_first(), m));
            assert(cfv(r, m) == cfv(r.drop_first(), m));
        }
    }
}

/// Appending a term leaves the coefficient of an earlier or another monomial.
proof fn lemma_cfv_push(a: TermsView, t: (MonoView, (int, int)), m: MonoView)
    ensures
        t.0 != m ==> cfv(a.push(t), m) == cfv(a, m),
        (forall|i: int| 0 <= i < a.len() ==> (#[trigger] a[i]).0 != m) ==> cfv(a, m) == (0int, 1int) && cfv(a.push(t), m) == (if t.0 == m {
            t.1
        } else {
            (0int, 1int)
        }),
    decreases a.len(),
{
    let b = a.push(t);
    if a.len() == 0 {
        assert(b[0] == t);
        assert(b.drop_first().len() == 0);
        assert(cfv(b.drop_first(), m) == (0int, 1int));
        assert(cfv(a, m) == (0int, 1int));
        if t.0 != m {
            assert(cfv(b, m) == cfv(b.drop_first(), m));
        } else {
            assert(cfv(b, m) == t.1);
        }
    } else {
        assert(b[0] == a[0]);
        assert(b.drop_first() =~= a.drop_first().push(t));
        lemma_cfv_push(a.drop_first(), t, m);
        if a[0].0 == m {
            assert(cfv(a, m) == a[0].1);
            assert(cfv(b, m) == b[0].1);
        } else {
            assert(cfv(a, m) == cfv(a.drop_first(), m));
            assert(cfv(b, m) == cfv(b.drop_first(), m));
            if forall|i: int| 0 <= i < a.len() ==> (#[trigger] a[i]).0 != m {
                assert forall|i: int| 0 <= i < a.drop_first().len() implies (#[trigger] a.drop_first()[i]).0 != m by {
                    assert(a.drop_first()[i] == a[i + 1]);
                }
            }
        }
    }
}

/// A coefficient of lowest-terms pairs is in lowest terms.
proof fn lemma_cfv_lowest(ts: TermsView, m: MonoView)
    requires
        coeffs_lowest(ts),
    ensures
        lowest(cfv(ts, m)),
{
    lemma_cfv_cases(ts, m);
    if cfv(ts, m) == (0int, 1int) {
        assert(gcd(0, 1) == gcd(1, 0));
    }
}

/// The coefficient of `m` after scaling `ts` into `acc`.
proof fn lemma_cfv_scale_into(acc: TermsView, ts: TermsView, s: (int, int), m: MonoView)
    requires
        keys_unique(ts),
        coeffs_lowest(ts),
        sorted(acc),
        coeffs_lowest(acc),
        s.1 > 0,
    ensures
        cfv(scale_into(acc, ts, s), m) == radd(cfv(acc, m), rmul(cfv(ts, m), s)),
    decreases ts.len(),
{
    lemma_cfv_lowest(acc, m);
    let c0 = cfv(acc, m);
    if ts.len() == 0 {
        crate::rational::lemma_zero_arith(c0, s);
    } else {
        let rest = ts.drop_last();
        let t = ts.last();
        assert(ts == rest.push(t));
        assert forall|a: int, b: int| 0 <= a < b < rest.len() implies (#[trigger] rest[a]).0 != (#[trigger] rest[b]).0 by {
            assert(rest[a] == ts[a] && rest[b] == ts[b]);
        }
        assert forall|a: int| 0 <= a < rest.len() implies lowest((#[trigger] rest[a]).1) by {
            assert(rest[a] == ts[a]);
        }
        lemma_cfv_scale_into(acc, rest, s, m);
        assert(lowest(t.1)) by {
            assert(ts[ts.len() - 1] == t);
        }
        assert(t.1.1 * s.1 > 0) by (nonlinear_arith)
            requires
                t.1.1 > 0,
                s.1 > 0,
        ;
        let x = rmul(t.1, s);
        lemma_normalize_lowest(frac_mul(t.1, s).0, frac_mul(t.1, s).1);
        lemma_scale_into_wf(acc, rest, s);
        lemma_cfv_acc_add(scale_into(acc, rest, s), t.0, x, m);
        lemma_cfv_push(rest, t, m);
        if t.0 == m {
            assert forall|i: int| 0 <= i < rest.len() implies (#[trigger] rest[i]).0 != m by {
                assert(rest[i] == ts[i]);
                assert(ts[ts.len() - 1] == t);
            }
            crate::rational::lemma_zero_arith(c0, s);
        }
    }
}

/// `scale_into` keeps monomials unique and coefficients in lowest terms.
proof fn lemma_scale_into_wf(acc: TermsView, ts: TermsView, s: (int, int))
    requires
        sorted(acc),
        coeffs_lowest(acc),
        coeffs_lowest(ts),
        s.1 > 0,
    ensures
        sorted(scale_into(acc, ts, s)),
        keys_unique(scale_into(acc, ts, s)),
        coeffs_lowest(scale_into(acc, ts, s)),
    decreases ts.len(),
{
    lemma_sorted_unique(acc);
    if ts.len() > 0 {
        let rest = ts.drop_last();
        let t = ts.last();
        assert forall|a: int| 0 <= a < rest.len() implies lowest((#[trigger] rest[a]).1) by {
            assert(rest[a] == ts[a]);
        }
        lemma_scale_into_wf(acc, rest, s);
        assert(lowest(t.1)) by {
            assert(ts[ts.len() - 1] == t);
        }
        assert(t.1.1 * s.1 > 0) by (nonlinear_arith)
            requires
                t.1.1 > 0,
                s.1 > 0,
        ;
        lemma_normalize_lowest(frac_mul(t.1, s).0, frac_mul(t.1, s).1);
        lemma_acc_add_wf(scale_into(acc, rest, s), t.0, rmul(t.1, s));
    }
}

/// Negation of every coefficient, seen through `cfv`.
proof fn lemma_cfv_negate(ts: TermsView, m: MonoView)
    ensures
        cfv(negate_all(ts), m) == (-cfv(ts, m).0, cfv(ts, m).1),
    decreases ts.len(),
{
    if ts.len() > 0 {
        assert(negate_all(ts).drop_first() =~= negate_all(ts.drop_first()));
        lemma_cfv_negate(ts.drop_first(), m);
    }
}

/// Negating every coefficient keeps monomials unique and coefficients in
/// lowest terms.
proof fn lemma_negate_wf(ts: TermsView)
    requires
        sorted(ts),
        keys_unique(ts),
        coeffs_lowest(ts),
    ensures
        sorted(negate_all(ts)),
        keys_unique(negate_all(ts)),
        coeffs_lowest(negate_all(ts)),
{
    let n = negate_all(ts);
    assert forall|a: int, b: int| 0 <= a < b < n.len() implies mono_lt((#[trigger] n[a]).0, (#[trigger] n[b]).0) by {
        assert(n[a].0 == ts[a].0 && n[b].0 == ts[b].0);
    }
    assert forall|a: int, b: int| 0 <= a < b < n.len() implies (#[trigger] n[a]).0 != (#[trigger] n[b]).0 by {
        assert(n[a].0 == ts[a].0 && n[b].0 == ts[b].0);
    }
    assert forall|a: int| 0 <= a < n.len() implies lowest((#[trigger] n[a]).1) by {
        assert(n[a].1 == (-ts[a].1.0, ts[a].1.1));
        assert(abs(-ts[a].1.0) == abs(ts[a].1.0));
    }
}

/// Filtering leaves nothing exactly when every coefficient is zero.
proof fn lemma_nonzero_empty(ts: TermsView)
    ensures
        (nonzero(ts).len() == 0) <==> (forall|i: int| 0 <= i < ts.len() ==> (#[trigger] ts[i]).1.0 == 0),
{
    let pred = |t: (MonoView, (int, int))| t.1.0 != 0;
    let f = nonzero(ts);
    if f.len() != 0 {
        assert(f.contains(f[0]));
        ts.lemma_filter_contains_rev(pred, f[0]);
        ts.lemma_filter_pred(pred, 0);
        let k = choose|k: int| 0 <= k < ts.len() && ts[k] == f[0];
        assert(ts[k].1.0 != 0);
    } else {
        assert forall|i: int| 0 <= i < ts.len() implies (#[trigger] ts[i]).1.0 == 0 by {
            if ts[i].1.0 != 0 {
                ts.lemma_filter_contains(pred, i);
                assert(f.contains(ts[i]));
            }
        }
    }
}

/// Reduction keeps the number of terms.
proof fn lemma_simp_len(ts: TermsView, d: (int, int))
    ensures
        simp(ts, d).0.len() == ts.len(),
{
}

/// The arithmetic behind the difference of two coefficients: the scaled
/// difference vanishes exactly when the two values are equal.
proof fn lemma_difference_zero(cp: (int, int), cq: (int, int), dp: (int, int), dq: (int, int))
    requires
        lowest(cp),
        lowest(cq),
        dp.1 > 0,
        dq.1 > 0,
    ensures
        (radd(radd((0, 1), rmul(cp, dq)), rmul((-cq.0, cq.1), dp)).0 == 0) <==> same_value(frac_div(cp, dp), frac_div(cq, dq)),
{
    let u = frac_mul(cp, dq);
    let v = frac_mul((-cq.0, cq.1), dp);
    assert(u.1 > 0 && v.1 > 0) by (nonlinear_arith)
        requires
            cp.1 > 0,
            cq.1 > 0,
            dp.1 > 0,
            dq.1 > 0,
            u == frac_mul(cp, dq),
            v == frac_mul((-cq.0, cq.1), dp),
    ;
    crate::rational::lemma_normalize(u.0, u.1);
    crate::rational::lemma_normalize(v.0, v.1);
    let x = normalize(u.0, u.1);
    let y = normalize(v.0, v.1);
    crate::rational::lemma_zero_arith(x, x);
    let w = frac_add(x, y);
    assert(w.1 > 0) by (nonlinear_arith)
        requires
            x.1 > 0,
            y.1 > 0,
            w == frac_add(x, y),
    ;
    crate::rational::lemma_normalize_zero(w.0, w.1);
    // w.0 == 0  <==>  u.0 * v.1 + v.0 * u.1 == 0, scaling by x.1 * y.1 > 0
    let big = u.0 * v.1 + v.0 * u.1;
    let px = x.1 * y.1;
    let pu = u.1 * v.1;
    assert(w.0 == x.0 * y.1 + y.0 * x.1);
    assert((x.0 * y.1) * pu == (x.0 * u.1) * (y.1 * v.1)) by (nonlinear_arith)
        requires
            pu == u.1 * v.1,
    ;
    assert((y.0 * x.1) * pu == (y.0 * v.1) * (x.1 * u.1)) by (nonlinear_arith)
        requires
            pu == u.1 * v.1,
    ;
    assert((u.0 * x.1) * (y.1 * v.1) == (u.0 * v.1) * px) by (nonlinear_arith)
        requires
            px == x.1 * y.1,
    ;
    assert((v.0 * y.1) * (x.1 * u.1) == (v.0 * u.1) * px) by (nonlinear_arith)
        requires
            px == x.1 * y.1,
    ;
    assert(w.0 * pu == px * big) by (nonlinear_arith)
        requires
            w.0 == x.0 * y.1 + y.0 * x.1,
            (x.0 * y.1) * pu == (u.0 * x.1) * (y.1 * v.1),
            (y.0 * x.1) * pu == (v.0 * y.1) * (x.1 * u.1),
            (u.0 * x.1) * (y.1 * v.1) == (u.0 * v.1) * px,
            (v.0 * y.1) * (x.1 * u.1) == (v.0 * u.1) * px,
            big == u.0 * v.1 + v.0 * u.1,
    ;
    assert(px > 0 && pu > 0) by (nonlinear_arith)
        requires
            px == x.1 * y.1,
            pu == u.1 * v.1,
            x.1 > 0,
            y.1 > 0,
            u.1 > 0,
            v.1 > 0,
    ;
    assert((w.0 == 0) <==> (big == 0)) by (nonlinear_arith)
        requires
            w.0 * pu == px * big,
            px > 0,
            pu > 0,
    ;
    lemma_cross_identity(cp.0, cp.1, cq.0, cq.1, dp.0, dp.1, dq.0, dq.1);
    assert(big == (cp.0 * dp.1) * (cq.1 * dq.0) - (cq.0 * dq.1) * (cp.1 * dp.0));
}

/// The ring identity behind [`lemma_difference_zero`].
proof fn lemma_cross_identity(a: int, b: int, c: int, d: int, e: int, f: int, g: int, h: int)
    ensures
        (a * g) * (d * f) + (-c * e) * (b * h) == (a * f) * (d * g) - (c * h) * (b * e),
{
    assert((a * g) * (d * f) == (a * f) * (d * g)) by (nonlinear_arith);
    assert((-c * e) * (b * h) == -((c * h) * (b * e))) by (nonlinear_arith);
}

/// `p.equals(q)` holds exactly when every monomial has the same value in
/// `p` and in `q` (coefficient over denominator), for polynomials with
/// non-zero denominators.
pub proof fn lemma_equals_iff_same_values(p: PolyView, q: PolyView)
    requires
        poly_wf(p),
        poly_wf(q),
        p.1.0 != 0,
        q.1.0 != 0,
    ensures
        equals_view(p, q) <==> forall|m: MonoView| same_value(#[trigger] coeff_value(p, m), coeff_value(q, m)),
{
    let e = Seq::<(MonoView, (int, int))>::empty();
    let nq = neg_view(q);
    lemma_negate_wf(q.0);
    let a = scale_into(e, p.0, q.1);
    let sum = add_sum(p, nq);
    assert(sum == scale_into(a, nq.0, p.1));
    lemma_scale_into_wf(e, p.0, q.1);
    lemma_scale_into_wf(a, nq.0, p.1);
    lemma_simp_len(nonzero(sum), rmul(p.1, nq.1));
    lemma_nonzero_empty(sum);
    assert forall|m: MonoView| #[trigger] cfv(sum, m) == radd(radd((0, 1), rmul(cfv(p.0, m), q.1)), rmul((-cfv(q.0, m).0, cfv(q.0, m).1), p.1)) by {
        lemma_cfv_scale_into(e, p.0, q.1, m);
        lemma_cfv_scale_into(a, nq.0, p.1, m);
        lemma_cfv_negate(q.0, m);
    }
    assert forall|m: MonoView| (cfv(sum, m).0 == 0) <==> same_value(#[trigger] coeff_value(p, m), coeff_value(q, m)) by {
        lemma_cfv_lowest(p.0, m);
        lemma_cfv_lowest(q.0, m);
        lemma_difference_zero(cfv(p.0, m), cfv(q.0, m), p.1, q.1);
    }
    if equals_view(p, q) {
        assert forall|m: MonoView| same_value(#[trigger] coeff_value(p, m), coeff_value(q, m)) by {
            lemma_cfv_cases(sum, m);
            if cfv(sum, m) != (0int, 1int) {
                let i = choose|i: int| 0 <= i < sum.len() && sum[i].0 == m && cfv(sum, m) == sum[i].1;
                assert(sum[i].1.0 == 0);
            }
        }
    }
    if forall|m: MonoView| same_value(#[trigger] coeff_value(p, m), coeff_value(q, m)) {
        assert forall|i: int| 0 <= i < sum.len() implies (#[trigger] sum[i]).1.0 == 0 by {
            lemma_cfv_cases(sum, sum[i].0);
            assert(same_value(coeff_value(p, sum[i].0), coeff_value(q, sum[i].0)));
        }
    }
}


/// Every polynomial with a non-zero denominator equals itself.
pub proof fn lemma_equals_reflexive(p: PolyView)
    requires
        poly_wf(p),
        p.1.0 != 0,
    ensures
        equals_view(p, p),
{
    lemma_equals_iff_same_values(p, p);
    assert forall|m: MonoView| same_value(#[trigger] coeff_value(p, m), coeff_value(p, m)) by {
        let v = coeff_value(p, m);
        assert(v.0 * v.1 == v.0 * v.1);
    }
}

/// Equality of polynomials with non-zero denominators does not depend on
/// the order of the operands.
pub proof fn lemma_equals_symmetric(p: PolyView, q: PolyView)
    requires
        poly_wf(p),
        poly_wf(q),
        p.1.0 != 0,
        q.1.0 != 0,
    ensures
        equals_view(p, q) == equals_view(q, p),
{
    lemma_equals_iff_same_values(p, q);
    lemma_equals_iff_same_values(q, p);
    assert forall|m: MonoView| same_value(#[trigger] coeff_value(p, m), coeff_value(q, m)) <==> same_value(coeff_value(q, m), coeff_value(p, m)) by {
        let a = coeff_value(p, m);
        let b = coeff_value(q, m);
        assert((a.0 * b.1 == b.0 * a.1) <==> (b.0 * a.1 == a.0 * b.1));
    }
}


/// Equality of polynomials with non-zero denominators is transitive.
pub proof fn lemma_equals_transitive(p: PolyView, q: PolyView, r: PolyView)
    requires
        poly_wf(p),
        poly_wf(q),
        poly_wf(r),
        p.1.0 != 0,
        q.1.0 != 0,
        r.1.0 != 0,
        equals_view(p, q),
        equals_view(q, r),
    ensures
        equals_view(p, r),
{
    lemma_equals_iff_same_values(p, q);
    lemma_equals_iff_same_values(q, r);
    lemma_equals_iff_same_values(p, r);
    assert forall|m: MonoView| same_value(#[trigger] coeff_value(p, m), coeff_value(r, m)) by {
        assert(same_value(coeff_value(p, m), coeff_value(q, m)));
        assert(same_value(coeff_value(q, m), coeff_value(r, m)));
        lemma_cfv_lowest(q.0, m);
        let c = cfv(q.0, m);
        assert(c.1 * q.1.0 != 0) by (nonlinear_arith)
            requires
                c.1 > 0,
                q.1.0 != 0,
        ;
        lemma_same_value_trans(coeff_value(p, m), coeff_value(q, m), coeff_value(r, m));
    }
}

} // verus!
