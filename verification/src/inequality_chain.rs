//! Inequality chaining for transitive reasoning.
//!
//! Known facts `a > b` and `a ≥ b` combine transitively:
//! - `a > b` and `b > c` give `a > c`;
//! - `a ≥ b` and `b ≥ c` give `a ≥ c`;
//! - `a > b` and `b ≥ c` give `a > c`.
//!
//! Two sides match when they are algebraically equal
//! ([`algebraically_equal`] returns `Some(true)`).

use vstd::prelude::*;
use crate::expr::{copy_expr, Expr};
use crate::polynomial::{alg_eq_view, algebraically_equal};

verus! {

/// An inequality fact `lhs > rhs` (strict) or `lhs ≥ rhs`.
#[derive(Debug)]
pub struct InequalityFact {
    pub lhs: Expr,
    pub rhs: Expr,
    /// `true` for `>`, `false` for `≥`.
    pub is_strict: bool,
}

/// Two expressions match: algebraic equality was decided and holds.
#[verifier::opaque]
pub open spec fn matching(a: Expr, b: Expr) -> bool {
    alg_eq_view(a, b) == Some(true)
}

/// The model of [`InequalityFact::chain`]: `a OP1 b` and `b OP2 c` give
/// `a OP c`, strict when either is strict; `None` when the middle terms do
/// not match.
pub open spec fn chain_view(f: InequalityFact, g: InequalityFact) -> Option<InequalityFact> {
    if matching(f.rhs, g.lhs) {
        Some(InequalityFact { lhs: f.lhs, rhs: g.rhs, is_strict: f.is_strict || g.is_strict })
    } else {
        None
    }
}

/// The model of [`InequalityFact::implies`]: both sides match, and a strict
/// goal needs a strict fact.
pub open spec fn implies_view(f: InequalityFact, goal: InequalityFact) -> bool {
    &&& matching(f.lhs, goal.lhs)
    &&& matching(f.rhs, goal.rhs)
    &&& !(goal.is_strict && !f.is_strict)
}

impl InequalityFact {
    /// The fact `lhs > rhs`.
    pub fn gt(lhs: Expr, rhs: Expr) -> (f: Self)
        ensures
            f == (InequalityFact { lhs, rhs, is_strict: true }),
    {
        InequalityFact { lhs, rhs, is_strict: true }
    }

    /// The fact `lhs ≥ rhs`.
    pub fn gte(lhs: Expr, rhs: Expr) -> (f: Self)
        ensures
            f == (InequalityFact { lhs, rhs, is_strict: false }),
    {
        InequalityFact { lhs, rhs, is_strict: false }
    }

    /// Chain `self` and `other` through a matching middle term.
    pub fn chain(&self, other: &InequalityFact) -> (r: Option<InequalityFact>)
        ensures
            r == chain_view(*self, *other),
    {
        proof {
            reveal(matching);
        }
        match algebraically_equal(&self.rhs, &other.lhs) {
            Some(true) => Some(
                InequalityFact {
                    lhs: copy_expr(&self.lhs),
                    rhs: copy_expr(&other.rhs),
                    is_strict: self.is_strict || other.is_strict,
                },
            ),
            _ => None,
        }
    }

    /// Whether this fact implies `goal`.
    pub fn implies(&self, goal: &InequalityFact) -> (b: bool)
        ensures
            b == implies_view(*self, *goal),
    {
        proof {
            reveal(matching);
        }
        let lhs_match = match algebraically_equal(&self.lhs, &goal.lhs) {
            Some(true) => true,
            _ => false,
        };
        let rhs_match = match algebraically_equal(&self.rhs, &goal.rhs) {
            Some(true) => true,
            _ => false,
        };
        if !lhs_match || !rhs_match {
            return false;
        }
        if goal.is_strict && !self.is_strict {
            return false;
        }
        true
    }
}

/// Fact `i` alone implies the goal.
pub open spec fn single_ok(fs: Seq<InequalityFact>, goal: InequalityFact, i: int) -> bool {
    0 <= i < fs.len() && implies_view(fs[i], goal)
}

/// Facts `i` then `j`, distinct, chain to a fact that implies the goal.
pub open spec fn pair_ok(fs: Seq<InequalityFact>, goal: InequalityFact, i: int, j: int) -> bool {
    &&& 0 <= i < fs.len()
    &&& 0 <= j < fs.len()
    &&& i != j
    &&& chain_view(fs[i], fs[j]) matches Some(c) && implies_view(c, goal)
}

/// Facts `i`, `j`, `k`, pairwise distinct, chain to a fact that implies
/// the goal.
pub open spec fn triple_ok(fs: Seq<InequalityFact>, goal: InequalityFact, i: int, j: int, k: int) -> bool {
    &&& 0 <= i < fs.len()
    &&& 0 <= j < fs.len()
    &&& 0 <= k < fs.len()
    &&& i != j
    &&& i != k
    &&& j != k
    &&& chain_view(fs[i], fs[j]) matches Some(c) && chain_view(c, fs[k]) matches Some(d) && implies_view(d, goal)
}

/// No single fact implies the goal.
pub open spec fn no_single(fs: Seq<InequalityFact>, goal: InequalityFact) -> bool {
    forall|i: int| !#[trigger] single_ok(fs, goal, i)
}

/// No chain of two facts implies the goal.
pub open spec fn no_pair(fs: Seq<InequalityFact>, goal: InequalityFact) -> bool {
    forall|i: int, j: int| !#[trigger] pair_ok(fs, goal, i, j)
}

/// No chain of three facts implies the goal.
pub open spec fn no_triple(fs: Seq<InequalityFact>, goal: InequalityFact) -> bool {
    forall|i: int, j: int, k: int| !#[trigger] triple_ok(fs, goal, i, j, k)
}

/// Whether the goal follows from one fact, or a chain of two or three.
pub open spec fn provable(fs: Seq<InequalityFact>, goal: InequalityFact) -> bool {
    !(no_single(fs, goal) && no_pair(fs, goal) && no_triple(fs, goal))
}

/// `v` is the proof [`InequalityChain::prove`] finds: the first single fact,
/// else the first pair `(i, j)` in lexicographic order, else the first
/// triple.
pub open spec fn first_proof(fs: Seq<InequalityFact>, goal: InequalityFact, v: Seq<usize>) -> bool {
    ||| v.len() == 1 && single_ok(fs, goal, v[0] as int) && forall|i: int| 0 <= i < v[0] ==> !#[trigger] single_ok(fs, goal, i)
    ||| v.len() == 2 && no_single(fs, goal) && pair_ok(fs, goal, v[0] as int, v[1] as int) && forall|i: int, j: int|
        (i < v[0] || (i == v[0] && j < v[1])) ==> !#[trigger] pair_ok(fs, goal, i, j)
    ||| v.len() == 3 && no_single(fs, goal) && no_pair(fs, goal) && triple_ok(fs, goal, v[0] as int, v[1] as int, v[2] as int)
        && forall|i: int, j: int, k: int|
        (i < v[0] || (i == v[0] && j < v[1]) || (i == v[0] && j == v[1] && k < v[2])) ==> !#[trigger] triple_ok(fs, goal, i, j, k)
}

/// A fact implies a goal only when its left side is algebraically equal to
/// the goal's left side, its right side to the goal's right side, and it is
/// strict wherever the goal is; so `a > b` never proves `b > a` unless `a`
/// and `b` are algebraically equal.
pub proof fn lemma_implies_sound(f: InequalityFact, goal: InequalityFact)
    ensures
        implies_view(f, goal) ==> alg_eq_view(f.lhs, goal.lhs) == Some(true) && alg_eq_view(f.rhs, goal.rhs)
            == Some(true) && (goal.is_strict ==> f.is_strict),
{
    reveal(matching);
}

/// The facts `v` names form a chain from the goal's left side to its right
/// side: each link's sides are algebraically equal to the goal's sides or
/// to the neighbouring link's sides, and some link is strict where the goal
/// is.
pub open spec fn is_chain_for(fs: Seq<InequalityFact>, goal: InequalityFact, v: Seq<usize>) -> bool {
    &&& 1 <= v.len() <= 3
    &&& forall|t: int| 0 <= t < v.len() ==> #[trigger] v[t] < fs.len()
    &&& alg_eq_view(fs[v[0] as int].lhs, goal.lhs) == Some(true)
    &&& forall|t: int|
        0 <= t < v.len() - 1 ==> alg_eq_view(fs[#[trigger] v[t] as int].rhs, fs[v[t + 1] as int].lhs) == Some(true)
    &&& alg_eq_view(fs[v[v.len() - 1] as int].rhs, goal.rhs) == Some(true)
    &&& goal.is_strict ==> exists|t: int| 0 <= t < v.len() && fs[#[trigger] v[t] as int].is_strict
}

/// A chain of one, two or three links whose sides match as
/// [`chain_view`] and [`implies_view`] ask is a chain for the goal.
proof fn lemma_links_chain(fs: Seq<InequalityFact>, goal: InequalityFact, v: Seq<usize>)
    requires
        1 <= v.len() <= 3,
        forall|t: int| 0 <= t < v.len() ==> #[trigger] v[t] < fs.len(),
        matching(fs[v[0] as int].lhs, goal.lhs),
        v.len() >= 2 ==> matching(fs[v[0] as int].rhs, fs[v[1] as int].lhs),
        v.len() == 3 ==> matching(fs[v[1] as int].rhs, fs[v[2] as int].lhs),
        matching(fs[v[v.len() - 1] as int].rhs, goal.rhs),
        goal.is_strict ==> fs[v[0] as int].is_strict || (v.len() >= 2 && fs[v[1] as int].is_strict) || (v.len() == 3
            && fs[v[2] as int].is_strict),
    ensures
        is_chain_for(fs, goal, v),
{
    reveal(matching);
    assert forall|t: int| 0 <= t < v.len() - 1 implies alg_eq_view(fs[#[trigger] v[t] as int].rhs, fs[v[t + 1] as int].lhs)
        == Some(true) by {
        if t == 0 {
        } else {
            assert(t == 1);
        }
    }
    if goal.is_strict {
        if fs[v[0] as int].is_strict {
            assert(fs[v[0] as int].is_strict);
        } else if fs[v[1] as int].is_strict {
            assert(fs[v[1] as int].is_strict);
        } else {
            assert(fs[v[2] as int].is_strict);
        }
    }
}

/// Every proof that [`InequalityChain::prove`] returns is sound: its facts
/// chain, through algebraically equal middle terms, from the goal's left
/// side to its right side, with a strict link for a strict goal.
pub proof fn lemma_proof_is_chain(fs: Seq<InequalityFact>, goal: InequalityFact, v: Seq<usize>)
    requires
        first_proof(fs, goal, v),
    ensures
        is_chain_for(fs, goal, v),
{
    if v.len() == 1 {
        assert(single_ok(fs, goal, v[0] as int));
    } else if v.len() == 2 {
        assert(pair_ok(fs, goal, v[0] as int, v[1] as int));
    } else {
        assert(triple_ok(fs, goal, v[0] as int, v[1] as int, v[2] as int));
    }
    lemma_links_chain(fs, goal, v);
}

/// The facts an expression contributes: `a > b`, `a ≥ b`, `a < b` (as
/// `b > a`), `a ≤ b` (as `b ≥ a`), and those of both sides of a
/// conjunction, in order.
pub open spec fn extract_view(e: Expr) -> Seq<InequalityFact>
    decreases e,
{
    match e {
        Expr::Gt(l, r) => seq![InequalityFact { lhs: *l, rhs: *r, is_strict: true }],
        Expr::Gte(l, r) => seq![InequalityFact { lhs: *l, rhs: *r, is_strict: false }],
        Expr::Lt(l, r) => seq![InequalityFact { lhs: *r, rhs: *l, is_strict: true }],
        Expr::Lte(l, r) => seq![InequalityFact { lhs: *r, rhs: *l, is_strict: false }],
        Expr::And(a, b) => extract_view(*a) + extract_view(*b),
        _ => Seq::empty(),
    }
}

/// A collection of known inequality facts for chaining.
#[derive(Debug)]
pub struct InequalityChain {
    facts: Vec<InequalityFact>,
}

impl View for InequalityChain {
    type V = Seq<InequalityFact>;

    closed spec fn view(&self) -> Seq<InequalityFact> {
        self.facts@
    }
}

impl Default for InequalityChain {
    fn default() -> (c: Self)
        ensures
            c@ == Seq::<InequalityFact>::empty(),
    {
        InequalityChain::new()
    }
}

impl InequalityChain {
    /// An empty collection.
    pub fn new() -> (c: Self)
        ensures
            c@ == Seq::<InequalityFact>::empty(),
    {
        InequalityChain { facts: Vec::new() }
    }

    /// Add a known fact at the end.
    pub fn add_fact(&mut self, fact: InequalityFact)
        ensures
            final(self)@ == old(self)@.push(fact),
    {
        self.facts.push(fact);
    }

    /// Add `lhs > rhs`.
    pub fn add_gt(&mut self, lhs: Expr, rhs: Expr)
        ensures
            final(self)@ == old(self)@.push(InequalityFact { lhs, rhs, is_strict: true }),
    {
        self.add_fact(InequalityFact::gt(lhs, rhs));
    }

    /// Add `lhs ≥ rhs`.
    pub fn add_gte(&mut self, lhs: Expr, rhs: Expr)
        ensures
            final(self)@ == old(self)@.push(InequalityFact { lhs, rhs, is_strict: false }),
    {
        self.add_fact(InequalityFact::gte(lhs, rhs));
    }

    /// The first fact that alone implies `goal`.
    fn first_single(&self, goal: &InequalityFact) -> (r: Option<usize>)
        ensures
            r matches Some(i) ==> single_ok(self@, *goal, i as int)
                && forall|a: int| 0 <= a < i ==> !#[trigger] single_ok(self@, *goal, a),
            r is None ==> no_single(self@, *goal),
    {
        let n = self.facts.len();
        let mut i: usize = 0;
        while i < n
            invariant
                i <= n == self@.len(),
                forall|a: int| 0 <= a < i ==> !#[trigger] single_ok(self@, *goal, a),
            decreases n - i,
        {
            if self.facts[i].implies(goal) {
                return Some(i);
            }
            i = i + 1;
        }
        None
    }

    /// The first `j` such that facts `i`, `j` chain to a fact implying `goal`.
    fn first_second(&self, i: usize, goal: &InequalityFact) -> (r: Option<usize>)
        requires
            i < self@.len(),
        ensures
            r matches Some(j) ==> pair_ok(self@, *goal, i as int, j as int)
                && forall|b: int| 0 <= b < j ==> !#[trigger] pair_ok(self@, *goal, i as int, b),
            r is None ==> forall|b: int| !#[trigger] pair_ok(self@, *goal, i as int, b),
    {
        let n = self.facts.len();
        let mut j: usize = 0;
        while j < n
            invariant
                i < n == self@.len(),
                j <= n,
                forall|b: int| 0 <= b < j ==> !#[trigger] pair_ok(self@, *goal, i as int, b),
            decreases n - j,
        {
            if i != j {
                if let Some(chained) = self.facts[i].chain(&self.facts[j]) {
                    if chained.implies(goal) {
                        return Some(j);
                    }
                }
            }
            j = j + 1;
        }
        None
    }

    /// The first pair `(i, j)`, in lexicographic order, that chains to a
    /// fact implying `goal`.
    fn first_pair(&self, goal: &InequalityFact) -> (r: Option<(usize, usize)>)
        ensures
            r matches Some(p) ==> pair_ok(self@, *goal, p.0 as int, p.1 as int)
                && forall|a: int, b: int| (a < p.0 || (a == p.0 && b < p.1)) ==> !#[trigger] pair_ok(self@, *goal, a, b),
            r is None ==> no_pair(self@, *goal),
    {
        let n = self.facts.len();
        let mut i: usize = 0;
        while i < n
            invariant
                i <= n == self@.len(),
                forall|a: int, b: int| 0 <= a < i ==> !#[trigger] pair_ok(self@, *goal, a, b),
            decreases n - i,
        {
            if let Some(j) = self.first_second(i, goal) {
                return Some((i, j));
            }
            i = i + 1;
        }
        None
    }

    /// The first `k` such that the chain `c12` of facts `i`, `j` chains with
    /// fact `k` to a fact implying `goal`.
    fn first_third(&self, i: usize, j: usize, c12: &InequalityFact, goal: &InequalityFact) -> (r: Option<usize>)
        requires
            i < self@.len(),
            j < self@.len(),
            i != j,
            chain_view(self@[i as int], self@[j as int]) == Some(*c12),
        ensures
            r matches Some(k) ==> triple_ok(self@, *goal, i as int, j as int, k as int)
                && forall|c: int| 0 <= c < k ==> !#[trigger] triple_ok(self@, *goal, i as int, j as int, c),
            r is None ==> forall|c: int| !#[trigger] triple_ok(self@, *goal, i as int, j as int, c),
    {
        let n = self.facts.len();
        let mut k: usize = 0;
        while k < n
            invariant
                i < n == self@.len(),
                j < n,
                i != j,
                k <= n,
                chain_view(self@[i as int], self@[j as int]) == Some(*c12),
                forall|c: int| 0 <= c < k ==> !#[trigger] triple_ok(self@, *goal, i as int, j as int, c),
            decreases n - k,
        {
            if i != k && j != k {
                if let Some(c123) = c12.chain(&self.facts[k]) {
                    if c123.implies(goal) {
                        return Some(k);
                    }
                }
            }
            k = k + 1;
        }
        None
    }

    /// The first `j` such that facts `i`, `j` and some third chain to a fact
    /// implying `goal`, with that third.
    fn first_second_third(&self, i: usize, goal: &InequalityFact) -> (r: Option<(usize, usize)>)
        requires
            i < self@.len(),
        ensures
            r matches Some(p) ==> triple_ok(self@, *goal, i as int, p.0 as int, p.1 as int)
                && forall|b: int, c: int| (b < p.0 || (b == p.0 && c < p.1)) ==> !#[trigger] triple_ok(self@, *goal, i as int, b, c),
            r is None ==> forall|b: int, c: int| !#[trigger] triple_ok(self@, *goal, i as int, b, c),
    {
        let n = self.facts.len();
        let mut j: usize = 0;
        while j < n
            invariant
                i < n == self@.len(),
                j <= n,
                forall|b: int, c: int| 0 <= b < j ==> !#[trigger] triple_ok(self@, *goal, i as int, b, c),
            decreases n - j,
        {
            if i != j {
                if let Some(c12) = self.facts[i].chain(&self.facts[j]) {
                    if let Some(k) = self.first_third(i, j, &c12, goal) {
                        return Some((j, k));
                    }
                }
            }
            j = j + 1;
        }
        None
    }

    /// The first triple `(i, j, k)`, in lexicographic order, that chains to a
    /// fact implying `goal`.
    fn first_triple(&self, goal: &InequalityFact) -> (r: Option<(usize, usize, usize)>)
        ensures
            r matches Some(t) ==> triple_ok(self@, *goal, t.0 as int, t.1 as int, t.2 as int)
                && forall|a: int, b: int, c: int| (a < t.0 || (a == t.0 && b < t.1) || (a == t.0 && b == t.1 && c < t.2))
                    ==> !#[trigger] triple_ok(self@, *goal, a, b, c),
            r is None ==> no_triple(self@, *goal),
    {
        let n = self.facts.len();
        let mut i: usize = 0;
        while i < n
            invariant
                i <= n == self@.len(),
                forall|a: int, b: int, c: int| 0 <= a < i ==> !#[trigger] triple_ok(self@, *goal, a, b, c),
            decreases n - i,
        {
            if let Some((j, k)) = self.first_second_third(i, goal) {
                return Some((i, j, k));
            }
            i = i + 1;
        }
        None
    }

    /// Prove `goal` from the known facts: the index of a single fact that
    /// implies it, else of a chain of two, else of three, each the first in
    /// index order; `None` when there is none.
    pub fn prove(&self, goal: &InequalityFact) -> (r: Option<Vec<usize>>)
        ensures
            r matches Some(v) ==> first_proof(self@, *goal, v@),
            r is None <==> !provable(self@, *goal),
    {
        if let Some(i) = self.first_single(goal) {
            let v = vec![i];
            assert(v@ =~= seq![i]);
            return Some(v);
        }
        if let Some((i, j)) = self.first_pair(goal) {
            let v = vec![i, j];
            assert(v@ =~= seq![i, j]);
            return Some(v);
        }
        if let Some((i, j, k)) = self.first_triple(goal) {
            let v = vec![i, j, k];
            assert(v@ =~= seq![i, j, k]);
            return Some(v);
        }
        None
    }

    /// Add the facts of a hypothesis, as [`extract_view`] states.
    pub fn extract_from_expr(&mut self, expr: &Expr)
        ensures
            final(self)@ == old(self)@ + extract_view(*expr),
        decreases expr,
    {
        match expr {
            Expr::Gt(lhs, rhs) => {
                self.add_gt(copy_expr(lhs), copy_expr(rhs));
            },
            Expr::Gte(lhs, rhs) => {
                self.add_gte(copy_expr(lhs), copy_expr(rhs));
            },
            Expr::Lt(lhs, rhs) => {
                self.add_gt(copy_expr(rhs), copy_expr(lhs));
            },
            Expr::Lte(lhs, rhs) => {
                self.add_gte(copy_expr(rhs), copy_expr(lhs));
            },
            Expr::And(a, b) => {
                self.extract_from_expr(a);
                self.extract_from_expr(b);
            },
            _ => {},
        }
        assert(final(self)@ =~= old(self)@ + extract_view(*expr));
    }
}

/// The facts of all hypotheses, in order.
pub open spec fn hypotheses_view(hs: Seq<Expr>) -> Seq<InequalityFact>
    decreases hs.len(),
{
    if hs.len() == 0 {
        Seq::empty()
    } else {
        hypotheses_view(hs.drop_last()) + extract_view(hs.last())
    }
}

/// The goal as a fact: `a > b`, `a ≥ b`, `a < b` as `b > a`, `a ≤ b` as
/// `b ≥ a`; `None` for anything else.
pub open spec fn goal_view(e: Expr) -> Option<InequalityFact> {
    match e {
        Expr::Gt(l, r) => Some(InequalityFact { lhs: *l, rhs: *r, is_strict: true }),
        Expr::Gte(l, r) => Some(InequalityFact { lhs: *l, rhs: *r, is_strict: false }),
        Expr::Lt(l, r) => Some(InequalityFact { lhs: *r, rhs: *l, is_strict: true }),
        Expr::Lte(l, r) => Some(InequalityFact { lhs: *r, rhs: *l, is_strict: false }),
        _ => None,
    }
}

/// The goal as a fact, as [`goal_view`] states.
fn goal_fact(goal: &Expr) -> (r: Option<InequalityFact>)
    ensures
        r == goal_view(*goal),
{
    match goal {
        Expr::Gt(lhs, rhs) => Some(InequalityFact::gt(copy_expr(lhs), copy_expr(rhs))),
        Expr::Gte(lhs, rhs) => Some(InequalityFact::gte(copy_expr(lhs), copy_expr(rhs))),
        Expr::Lt(lhs, rhs) => Some(InequalityFact::gt(copy_expr(rhs), copy_expr(lhs))),
        Expr::Lte(lhs, rhs) => Some(InequalityFact::gte(copy_expr(rhs), copy_expr(lhs))),
        _ => None,
    }
}

/// Whether an inequality goal follows from the hypotheses by chaining at
/// most three of their facts.
pub fn prove_inequality_by_chaining(hypotheses: &[Expr], goal: &Expr) -> (b: bool)
    ensures
        b == (goal_view(*goal) matches Some(g) && provable(hypotheses_view(hypotheses@), g)),
{
    let mut chain = InequalityChain::new();
    let mut i: usize = 0;
    while i < hypotheses.len()
        invariant
            i <= hypotheses@.len(),
            chain@ == hypotheses_view(hypotheses@.take(i as int)),
        decreases hypotheses.len() - i,
    {
        chain.extract_from_expr(&hypotheses[i]);
        proof {
            assert(hypotheses@.take(i + 1).drop_last() =~= hypotheses@.take(i as int));
            assert(hypotheses@.take(i + 1).last() == hypotheses@[i as int]);
        }
        i = i + 1;
    }
    assert(hypotheses@.take(hypotheses.len() as int) =~= hypotheses@);
    match goal_fact(goal) {
        Some(g) => chain.prove(&g).is_some(),
        None => false,
    }
}


/// Adding a fact never loses a proof: a goal provable from `fs` stays
/// provable once `f` is added.
pub proof fn lemma_provable_monotone(fs: Seq<InequalityFact>, f: InequalityFact, goal: InequalityFact)
    requires
        provable(fs, goal),
    ensures
        provable(fs.push(f), goal),
{
    let gs = fs.push(f);
    if !no_single(fs, goal) {
        let i = choose|i: int| #[trigger] single_ok(fs, goal, i);
        assert(gs[i] == fs[i]);
        assert(single_ok(gs, goal, i));
    } else if !no_pair(fs, goal) {
        let (i, j) = choose|i: int, j: int| #[trigger] pair_ok(fs, goal, i, j);
        assert(gs[i] == fs[i] && gs[j] == fs[j]);
        assert(pair_ok(gs, goal, i, j));
    } else {
        let (i, j, k) = choose|i: int, j: int, k: int| #[trigger] triple_ok(fs, goal, i, j, k);
        assert(gs[i] == fs[i] && gs[j] == fs[j] && gs[k] == fs[k]);
        assert(triple_ok(gs, goal, i, j, k));
    }
}

/// Chaining combines strictness: the chained fact is strict exactly when
/// one of the two facts is (`a > b`, `b ≥ c` give `a > c`; `a ≥ b`,
/// `b ≥ c` give `a ≥ c`), and it runs from the first fact's left side to
/// the second fact's right side.
pub proof fn lemma_chain_strictness(f: InequalityFact, g: InequalityFact)
    requires
        matching(f.rhs, g.lhs),
    ensures
        chain_view(f, g) matches Some(c) && c.lhs == f.lhs && c.rhs == g.rhs && c.is_strict == (f.is_strict || g.is_strict),
{
}

} // verus!
