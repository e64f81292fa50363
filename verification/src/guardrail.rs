//! Guardrails for rule application.
//!
//! Analyses an expression into a coarse [`ProblemProfile`] and filters rules
//! whose declared domain cannot apply to it.  The scan is a complete
//! traversal: a trigonometric, calculus or combinatorics node anywhere in the
//! tree raises the matching flag (see [`lemma_scan_trig_complete`] and its siblings).

use vstd::prelude::*;
use crate::expr::{copy_expr, Expr};
use crate::rule::{Domain, Rule};

verus! {

/// Characteristics of a problem or sub-problem.
#[derive(Debug, Clone)]
pub struct ProblemProfile {
    pub has_trig: bool,
    pub has_calculus: bool,
    pub has_combinatorics: bool,
    pub complexity: u32,
}

impl Default for ProblemProfile {
    fn default() -> (p: Self)
        ensures
            !p.has_trig && !p.has_calculus && !p.has_combinatorics && p.complexity == 0,
    {
        ProblemProfile { has_trig: false, has_calculus: false, has_combinatorics: false, complexity: 0 }
    }
}

/// What a scan of an expression contributes to a profile.
pub struct ScanView {
    pub trig: bool,
    pub calculus: bool,
    pub combinatorics: bool,
    pub complexity: nat,
}

/// Combine the contributions of two subtrees and a node of weight `w`.
pub open spec fn join2(a: ScanView, b: ScanView, w: nat) -> ScanView {
    ScanView {
        trig: a.trig || b.trig,
        calculus: a.calculus || b.calculus,
        combinatorics: a.combinatorics || b.combinatorics,
        complexity: a.complexity + b.complexity + w,
    }
}

/// A node of weight `w` over one subtree, raising the given flags.
pub open spec fn join1(a: ScanView, w: nat, trig: bool, calculus: bool, combinatorics: bool) -> ScanView {
    ScanView {
        trig: a.trig || trig,
        calculus: a.calculus || calculus,
        combinatorics: a.combinatorics || combinatorics,
        complexity: a.complexity + w,
    }
}

/// A leaf of weight one.
pub open spec fn leaf() -> ScanView {
    ScanView { trig: false, calculus: false, combinatorics: false, complexity: 1 }
}

/// What scanning `e` contributes: the domain flags it raises and the
/// complexity it adds (one per atom and per plain operator, two per
/// trigonometric function, three per gcd/lcm/mod and quantifier, four per
/// factorial, five per binomial, derivative and integral, six per indexed
/// sum or product).
pub open spec fn spec_scan(e: Expr) -> ScanView
    decreases e,
{
    match e {
        Expr::Add(a, b) | Expr::Sub(a, b) | Expr::Mul(a, b) | Expr::Div(a, b) | Expr::Pow(a, b)
        | Expr::Equation { lhs: a, rhs: b } | Expr::Gte(a, b) | Expr::Gt(a, b) | Expr::Lte(a, b)
        | Expr::Lt(a, b) | Expr::And(a, b) | Expr::Or(a, b) | Expr::Implies(a, b) => join2(
            spec_scan(*a),
            spec_scan(*b),
            1,
        ),
        Expr::Sin(x) | Expr::Cos(x) | Expr::Tan(x) | Expr::Arcsin(x) | Expr::Arccos(x) | Expr::Arctan(x) => join1(
            spec_scan(*x),
            2,
            true,
            false,
            false,
        ),
        Expr::Derivative { expr: x, .. } | Expr::Integral { expr: x, .. } => join1(spec_scan(*x), 5, false, true, false),
        Expr::Factorial(x) => join1(spec_scan(*x), 4, false, false, true),
        Expr::Binomial(a, b) => {
            let j = join2(spec_scan(*a), spec_scan(*b), 5);
            ScanView { combinatorics: true, ..j }
        },
        Expr::Summation { from, to, body, .. } | Expr::BigProduct { from, to, body, .. } => {
            let j = join2(join2(spec_scan(*from), spec_scan(*to), 0), spec_scan(*body), 6);
            ScanView { combinatorics: true, ..j }
        },
        Expr::GCD(a, b) | Expr::LCM(a, b) | Expr::Mod(a, b) => join2(spec_scan(*a), spec_scan(*b), 3),
        Expr::Sqrt(x) | Expr::Ln(x) | Expr::Exp(x) | Expr::Abs(x) | Expr::Neg(x) | Expr::Floor(x)
        | Expr::Ceiling(x) | Expr::Not(x) => join1(spec_scan(*x), 1, false, false, false),
        Expr::ForAll { domain, body, .. } | Expr::Exists { domain, body, .. } => match domain {
            Some(d) => join2(spec_scan(*d), spec_scan(*body), 3),
            None => join1(spec_scan(*body), 3, false, false, false),
        },
        Expr::Const(_) | Expr::Var(_) | Expr::Pi | Expr::E => leaf(),
    }
}

/// The profile that scanning `e` into `p` leaves.
pub open spec fn scanned(p: ProblemProfile, e: Expr) -> ProblemProfile {
    let s = spec_scan(e);
    ProblemProfile {
        has_trig: p.has_trig || s.trig,
        has_calculus: p.has_calculus || s.calculus,
        has_combinatorics: p.has_combinatorics || s.combinatorics,
        complexity: (p.complexity + s.complexity) as u32,
    }
}

/// `c` capped at `2³²`, one more than the largest `u32`.
pub open spec fn capped(c: nat) -> nat {
    if c > 0x1_0000_0000 { 0x1_0000_0000 } else { c }
}

/// The complexity [`spec_scan`] gives `e`, capped at `2³²`.
fn capped_complexity(e: &Expr) -> (c: u64)
    ensures
        c == capped(spec_scan(*e).complexity),
    decreases e,
{
    let cap: u64 = 0x1_0000_0000;
    let (sum, w): (u64, u64) = match e {
        Expr::Add(a, b) | Expr::Sub(a, b) | Expr::Mul(a, b) | Expr::Div(a, b) | Expr::Pow(a, b)
        | Expr::Equation { lhs: a, rhs: b } | Expr::Gte(a, b) | Expr::Gt(a, b) | Expr::Lte(a, b)
        | Expr::Lt(a, b) | Expr::And(a, b) | Expr::Or(a, b) | Expr::Implies(a, b) => (capped_complexity(a) + capped_complexity(b), 1),
        Expr::Sin(x) | Expr::Cos(x) | Expr::Tan(x) | Expr::Arcsin(x) | Expr::Arccos(x) | Expr::Arctan(x) => (capped_complexity(x), 2),
        Expr::Derivative { expr: x, .. } | Expr::Integral { expr: x, .. } => (capped_complexity(x), 5),
        Expr::Factorial(x) => (capped_complexity(x), 4),
        Expr::Binomial(a, b) => (capped_complexity(a) + capped_complexity(b), 5),
        Expr::Summation { from, to, body, .. } | Expr::BigProduct { from, to, body, .. } => (
            capped_complexity(from) + capped_complexity(to) + capped_complexity(body),
            6,
        ),
        Expr::GCD(a, b) | Expr::LCM(a, b) | Expr::Mod(a, b) => (capped_complexity(a) + capped_complexity(b), 3),
        Expr::Sqrt(x) | Expr::Ln(x) | Expr::Exp(x) | Expr::Abs(x) | Expr::Neg(x) | Expr::Floor(x)
        | Expr::Ceiling(x) | Expr::Not(x) => (capped_complexity(x), 1),
        Expr::ForAll { domain, body, .. } | Expr::Exists { domain, body, .. } => match domain {
            Some(d) => (capped_complexity(d) + capped_complexity(body), 3),
            None => (capped_complexity(body), 3),
        },
        Expr::Const(_) | Expr::Var(_) | Expr::Pi | Expr::E => (0, 1),
    };
    let total = sum + w;
    if total > cap { cap } else { total }
}

/// Whether the weighted size of `expr` fits in a `u32`: exactly when
/// [`analyze`] can profile it.
pub fn complexity_fits(expr: &Expr) -> (b: bool)
    ensures
        b == (spec_scan(*expr).complexity <= u32::MAX),
{
    capped_complexity(expr) <= 0xffff_ffff
}

/// Analyze an expression to determine its problem profile.
pub fn analyze(expr: &Expr) -> (p: ProblemProfile)
    requires
        spec_scan(*expr).complexity <= u32::MAX,
    ensures
        p.has_trig == spec_scan(*expr).trig,
        p.has_calculus == spec_scan(*expr).calculus,
        p.has_combinatorics == spec_scan(*expr).combinatorics,
        p.complexity == spec_scan(*expr).complexity,
{
    let mut profile = ProblemProfile::default();
    scan_expr(expr, &mut profile);
    profile
}

/// Scan `expr` into `profile`: raise the flags of every domain found and add
/// the expression's complexity.
pub fn scan_expr(expr: &Expr, profile: &mut ProblemProfile)
    requires
        old(profile).complexity + spec_scan(*expr).complexity <= u32::MAX,
    ensures
        *final(profile) == scanned(*old(profile), *expr),
    decreases expr,
{
    match expr {
        Expr::Add(a, b) | Expr::Sub(a, b) | Expr::Mul(a, b) | Expr::Div(a, b) | Expr::Pow(a, b)
        | Expr::Equation { lhs: a, rhs: b } | Expr::Gte(a, b) | Expr::Gt(a, b) | Expr::Lte(a, b)
        | Expr::Lt(a, b) | Expr::And(a, b) | Expr::Or(a, b) | Expr::Implies(a, b) => {
            scan_expr(a, profile);
            scan_expr(b, profile);
            profile.complexity = profile.complexity + 1;
        },
        Expr::Sin(inner) | Expr::Cos(inner) | Expr::Tan(inner) | Expr::Arcsin(inner)
        | Expr::Arccos(inner) | Expr::Arctan(inner) => {
            profile.has_trig = true;
            scan_expr(inner, profile);
            profile.complexity = profile.complexity + 2;
        },
        Expr::Derivative { expr: inner, .. } | Expr::Integral { expr: inner, .. } => {
            profile.has_calculus = true;
            scan_expr(inner, profile);
            profile.complexity = profile.complexity + 5;
        },
        Expr::Factorial(inner) => {
            profile.has_combinatorics = true;
            scan_expr(inner, profile);
            profile.complexity = profile.complexity + 4;
        },
        Expr::Binomial(a, b) => {
            profile.has_combinatorics = true;
            scan_expr(a, profile);
            scan_expr(b, profile);
            profile.complexity = profile.complexity + 5;
        },
        Expr::Summation { from, to, body, .. } | Expr::BigProduct { from, to, body, .. } => {
            profile.has_combinatorics = true;
            scan_expr(from, profile);
            scan_expr(to, profile);
            scan_expr(body, profile);
            profile.complexity = profile.complexity + 6;
        },
        Expr::GCD(a, b) | Expr::LCM(a, b) | Expr::Mod(a, b) => {
            scan_expr(a, profile);
            scan_expr(b, profile);
            profile.complexity = profile.complexity + 3;
        },
        Expr::Sqrt(inner) | Expr::Ln(inner) | Expr::Exp(inner) | Expr::Abs(inner) | Expr::Neg(inner)
        | Expr::Floor(inner) | Expr::Ceiling(inner) | Expr::Not(inner) => {
            scan_expr(inner, profile);
            profile.complexity = profile.complexity + 1;
        },
        Expr::ForAll { domain, body, .. } | Expr::Exists { domain, body, .. } => {
            match domain {
                Some(d) => {
                    scan_expr(d, profile);
                },
                None => {},
            }
            scan_expr(body, profile);
            profile.complexity = profile.complexity + 3;
        },
        Expr::Const(_) | Expr::Var(_) | Expr::Pi | Expr::E => {
            profile.complexity = profile.complexity + 1;
        },
    }
}

/// Whether `s` occurs in `e` (as `e` itself or inside it).
pub open spec fn is_subterm(s: Expr, e: Expr) -> bool
    decreases e,
{
    s == e || match e {
        Expr::Add(a, b) | Expr::Sub(a, b) | Expr::Mul(a, b) | Expr::Div(a, b) | Expr::Pow(a, b)
        | Expr::Equation { lhs: a, rhs: b } | Expr::Gte(a, b) | Expr::Gt(a, b) | Expr::Lte(a, b)
        | Expr::Lt(a, b) | Expr::And(a, b) | Expr::Or(a, b) | Expr::Implies(a, b) | Expr::GCD(a, b)
        | Expr::LCM(a, b) | Expr::Mod(a, b) | Expr::Binomial(a, b) => is_subterm(s, *a) || is_subterm(s, *b),
        Expr::Sin(x) | Expr::Cos(x) | Expr::Tan(x) | Expr::Arcsin(x) | Expr::Arccos(x) | Expr::Arctan(x)
        | Expr::Sqrt(x) | Expr::Ln(x) | Expr::Exp(x) | Expr::Abs(x) | Expr::Neg(x) | Expr::Floor(x)
        | Expr::Ceiling(x) | Expr::Not(x) | Expr::Factorial(x) | Expr::Derivative { expr: x, .. }
        | Expr::Integral { expr: x, .. } => is_subterm(s, *x),
        Expr::Summation { from, to, body, .. } | Expr::BigProduct { from, to, body, .. } => is_subterm(s, *from)
            || is_subterm(s, *to) || is_subterm(s, *body),
        Expr::ForAll { domain, body, .. } | Expr::Exists { domain, body, .. } => (match domain {
            Some(d) => is_subterm(s, *d),
            None => false,
        }) || is_subterm(s, *body),
        Expr::Const(_) | Expr::Var(_) | Expr::Pi | Expr::E => false,
    }
}

/// A trigonometric node, direct or inverse.
pub open spec fn is_trig_node(e: Expr) -> bool {
    e is Sin || e is Cos || e is Tan || e is Arcsin || e is Arccos || e is Arctan
}

/// A derivative or integral node.
pub open spec fn is_calculus_node(e: Expr) -> bool {
    e is Derivative || e is Integral
}

/// A factorial, binomial, indexed sum or indexed product node.
pub open spec fn is_combinatorics_node(e: Expr) -> bool {
    e is Factorial || e is Binomial || e is Summation || e is BigProduct
}

/// The scan is complete for trigonometry: the flag is raised exactly when a
/// trigonometric node occurs anywhere in the expression.
pub proof fn lemma_scan_trig_complete(e: Expr)
    ensures
        spec_scan(e).trig <==> exists|s: Expr| is_subterm(s, e) && #[trigger] is_trig_node(s),
    decreases e,
{
    match e {
        Expr::Add(a, b) | Expr::Sub(a, b) | Expr::Mul(a, b) | Expr::Div(a, b) | Expr::Pow(a, b)
        | Expr::Equation { lhs: a, rhs: b } | Expr::Gte(a, b) | Expr::Gt(a, b) | Expr::Lte(a, b)
        | Expr::Lt(a, b) | Expr::And(a, b) | Expr::Or(a, b) | Expr::Implies(a, b) | Expr::GCD(a, b)
        | Expr::LCM(a, b) | Expr::Mod(a, b) | Expr::Binomial(a, b) => {
            lemma_scan_trig_complete(*a);
            lemma_scan_trig_complete(*b);
            if spec_scan(e).trig && !is_trig_node(e) {
                if spec_scan(*a).trig {
                    let w = choose|w: Expr| is_subterm(w, *a) && is_trig_node(w);
                    assert(is_subterm(w, e));
                } else if spec_scan(*b).trig {
                    let w = choose|w: Expr| is_subterm(w, *b) && is_trig_node(w);
                    assert(is_subterm(w, e));
                }
            }
            if spec_scan(e).trig && is_trig_node(e) {
                assert(is_subterm(e, e));
            }
            if exists|w: Expr| is_subterm(w, e) && #[trigger] is_trig_node(w) {
                let w = choose|w: Expr| is_subterm(w, e) && #[trigger] is_trig_node(w);
                if w != e && is_subterm(w, *a) {
                    assert(spec_scan(*a).trig);
                }
                if w != e && is_subterm(w, *b) {
                    assert(spec_scan(*b).trig);
                }
            }
        },
        Expr::Sin(x) | Expr::Cos(x) | Expr::Tan(x) | Expr::Arcsin(x) | Expr::Arccos(x) | Expr::Arctan(x)
        | Expr::Sqrt(x) | Expr::Ln(x) | Expr::Exp(x) | Expr::Abs(x) | Expr::Neg(x) | Expr::Floor(x)
        | Expr::Ceiling(x) | Expr::Not(x) | Expr::Factorial(x) | Expr::Derivative { expr: x, .. }
        | Expr::Integral { expr: x, .. } => {
            lemma_scan_trig_complete(*x);
            if spec_scan(e).trig && !is_trig_node(e) {
                if spec_scan(*x).trig {
                    let w = choose|w: Expr| is_subterm(w, *x) && is_trig_node(w);
                    assert(is_subterm(w, e));
                }
            }
            if spec_scan(e).trig && is_trig_node(e) {
                assert(is_subterm(e, e));
            }
            if exists|w: Expr| is_subterm(w, e) && #[trigger] is_trig_node(w) {
                let w = choose|w: Expr| is_subterm(w, e) && #[trigger] is_trig_node(w);
                if w != e && is_subterm(w, *x) {
                    assert(spec_scan(*x).trig);
                }
            }
        },
        Expr::Summation { from, to, body, .. } | Expr::BigProduct { from, to, body, .. } => {
            lemma_scan_trig_complete(*from);
            lemma_scan_trig_complete(*to);
            lemma_scan_trig_complete(*body);
            if spec_scan(e).trig && !is_trig_node(e) {
                if spec_scan(*from).trig {
                    let w = choose|w: Expr| is_subterm(w, *from) && is_trig_node(w);
                    assert(is_subterm(w, e));
                } else if spec_scan(*to).trig {
                    let w = choose|w: Expr| is_subterm(w, *to) && is_trig_node(w);
                    assert(is_subterm(w, e));
                } else if spec_scan(*body).trig {
                    let w = choose|w: Expr| is_subterm(w, *body) && is_trig_node(w);
                    assert(is_subterm(w, e));
                }
            }
            if spec_scan(e).trig && is_trig_node(e) {
                assert(is_subterm(e, e));
            }
            if exists|w: Expr| is_subterm(w, e) && #[trigger] is_trig_node(w) {
                let w = choose|w: Expr| is_subterm(w, e) && #[trigger] is_trig_node(w);
                if w != e && is_subterm(w, *from) {
                    assert(spec_scan(*from).trig);
                }
                if w != e && is_subterm(w, *to) {
                    assert(spec_scan(*to).trig);
                }
                if w != e && is_subterm(w, *body) {
                    assert(spec_scan(*body).trig);
                }
            }
        },
        Expr::ForAll { domain, body, .. } | Expr::Exists { domain, body, .. } => {
            match domain {
                Some(d) => {
            lemma_scan_trig_complete(*d);
            lemma_scan_trig_complete(*body);
            if spec_scan(e).trig && !is_trig_node(e) {
                if spec_scan(*d).trig {
                    let w = choose|w: Expr| is_subterm(w, *d) && is_trig_node(w);
                    assert(is_subterm(w, e));
                } else if spec_scan(*body).trig {
                    let w = choose|w: Expr| is_subterm(w, *body) && is_trig_node(w);
                    assert(is_subterm(w, e));
                }
            }
            if spec_scan(e).trig && is_trig_node(e) {
                assert(is_subterm(e, e));
            }
            if exists|w: Expr| is_subterm(w, e) && #[trigger] is_trig_node(w) {
                let w = choose|w: Expr| is_subterm(w, e) && #[trigger] is_trig_node(w);
                if w != e && is_subterm(w, *d) {
                    assert(spec_scan(*d).trig);
                }
                if w != e && is_subterm(w, *body) {
                    assert(spec_scan(*body).trig);
                }
            }
                },
                None => {
            lemma_scan_trig_complete(*body);
            if spec_scan(e).trig && !is_trig_node(e) {
                if spec_scan(*body).trig {
                    let w = choose|w: Expr| is_subterm(w, *body) && is_trig_node(w);
                    assert(is_subterm(w, e));
                }
            }
            if spec_scan(e).trig && is_trig_node(e) {
                assert(is_subterm(e, e));
            }
            if exists|w: Expr| is_subterm(w, e) && #[trigger] is_trig_node(w) {
                let w = choose|w: Expr| is_subterm(w, e) && #[trigger] is_trig_node(w);
                if w != e && is_subterm(w, *body) {
                    assert(spec_scan(*body).trig);
                }
            }
                },
            }
        },
        Expr::Const(_) | Expr::Var(_) | Expr::Pi | Expr::E => {
            if exists|w: Expr| is_subterm(w, e) && #[trigger] is_trig_node(w) {
                let w = choose|w: Expr| is_subterm(w, e) && #[trigger] is_trig_node(w);
                assert(w == e);
            }
        },
    }
}

/// The scan is complete for calculus: the flag is raised exactly when a
/// derivative or integral node occurs anywhere in the expression.
pub proof fn lemma_scan_calculus_complete(e: Expr)
    ensures
        spec_scan(e).calculus <==> exists|s: Expr| is_subterm(s, e) && #[trigger] is_calculus_node(s),
    decreases e,
{
    match e {
        Expr::Add(a, b) | Expr::Sub(a, b) | Expr::Mul(a, b) | Expr::Div(a, b) | Expr::Pow(a, b)
        | Expr::Equation { lhs: a, rhs: b } | Expr::Gte(a, b) | Expr::Gt(a, b) | Expr::Lte(a, b)
        | Expr::Lt(a, b) | Expr::And(a, b) | Expr::Or(a, b) | Expr::Implies(a, b) | Expr::GCD(a, b)
        | Expr::LCM(a, b) | Expr::Mod(a, b) | Expr::Binomial(a, b) => {
            lemma_scan_calculus_complete(*a);
            lemma_scan_calculus_complete(*b);
            if spec_scan(e).calculus && !is_calculus_node(e) {
                if spec_scan(*a).calculus {
                    let w = choose|w: Expr| is_subterm(w, *a) && is_calculus_node(w);
                    assert(is_subterm(w, e));
                } else if spec_scan(*b).calculus {
                    let w = choose|w: Expr| is_subterm(w, *b) && is_calculus_node(w);
                    assert(is_subterm(w, e));
                }
            }
            if spec_scan(e).calculus && is_calculus_node(e) {
                assert(is_subterm(e, e));
            }
            if exists|w: Expr| is_subterm(w, e) && #[trigger] is_calculus_node(w) {
                let w = choose|w: Expr| is_subterm(w, e) && #[trigger] is_calculus_node(w);
                if w != e && is_subterm(w, *a) {
                    assert(spec_scan(*a).calculus);
                }
                if w != e && is_subterm(w, *b) {
                    assert(spec_scan(*b).calculus);
                }
            }
        },
        Expr::Sin(x) | Expr::Cos(x) | Expr::Tan(x) | Expr::Arcsin(x) | Expr::Arccos(x) | Expr::Arctan(x)
        | Expr::Sqrt(x) | Expr::Ln(x) | Expr::Exp(x) | Expr::Abs(x) | Expr::Neg(x) | Expr::Floor(x)
        | Expr::Ceiling(x) | Expr::Not(x) | Expr::Factorial(x) | Expr::Derivative { expr: x, .. }
        | Expr::Integral { expr: x, .. } => {
            lemma_scan_calculus_complete(*x);
            if spec_scan(e).calculus && !is_calculus_node(e) {
                if spec_scan(*x).calculus {
                    let w = choose|w: Expr| is_subterm(w, *x) && is_calculus_node(w);
                    assert(is_subterm(w, e));
                }
            }
            if spec_scan(e).calculus && is_calculus_node(e) {
                assert(is_subterm(e, e));
            }
            if exists|w: Expr| is_subterm(w, e) && #[trigger] is_calculus_node(w) {
                let w = choose|w: Expr| is_subterm(w, e) && #[trigger] is_calculus_node(w);
                if w != e && is_subterm(w, *x) {
                    assert(spec_scan(*x).calculus);
                }
            }
        },
        Expr::Summation { from, to, body, .. } | Expr::BigProduct { from, to, body, .. } => {
            lemma_scan_calculus_complete(*from);
            lemma_scan_calculus_complete(*to);
            lemma_scan_calculus_complete(*body);
            if spec_scan(e).calculus && !is_calculus_node(e) {
                if spec_scan(*from).calculus {
                    let w = choose|w: Expr| is_subterm(w, *from) && is_calculus_node(w);
                    assert(is_subterm(w, e));
                } else if spec_scan(*to).calculus {
                    let w = choose|w: Expr| is_subterm(w, *to) && is_calculus_node(w);
                    assert(is_subterm(w, e));
                } else if spec_scan(*body).calculus {
                    let w = choose|w: Expr| is_subterm(w, *body) && is_calculus_node(w);
                    assert(is_subterm(w, e));
                }
            }
            if spec_scan(e).calculus && is_calculus_node(e) {
                assert(is_subterm(e, e));
            }
            if exists|w: Expr| is_subterm(w, e) && #[trigger] is_calculus_node(w) {
                let w = choose|w: Expr| is_subterm(w, e) && #[trigger] is_calculus_node(w);
                if w != e && is_subterm(w, *from) {
                    assert(spec_scan(*from).calculus);
                }
                if w != e && is_subterm(w, *to) {
                    assert(spec_scan(*to).calculus);
                }
                if w != e && is_subterm(w, *body) {
                    assert(spec_scan(*body).calculus);
                }
            }
        },
        Expr::ForAll { domain, body, .. } | Expr::Exists { domain, body, .. } => {
            match domain {
                Some(d) => {
            lemma_scan_calculus_complete(*d);
            lemma_scan_calculus_complete(*body);
            if spec_scan(e).calculus && !is_calculus_node(e) {
                if spec_scan(*d).calculus {
                    let w = choose|w: Expr| is_subterm(w, *d) && is_calculus_node(w);
                    assert(is_subterm(w, e));
                } else if spec_scan(*body).calculus {
                    let w = choose|w: Expr| is_subterm(w, *body) && is_calculus_node(w);
                    assert(is_subterm(w, e));
                }
            }
            if spec_scan(e).calculus && is_calculus_node(e) {
                assert(is_subterm(e, e));
            }
            if exists|w: Expr| is_subterm(w, e) && #[trigger] is_calculus_node(w) {
                let w = choose|w: Expr| is_subterm(w, e) && #[trigger] is_calculus_node(w);
                if w != e && is_subterm(w, *d) {
                    assert(spec_scan(*d).calculus);
                }
                if w != e && is_subterm(w, *body) {
                    assert(spec_scan(*body).calculus);
                }
            }
                },
                None => {
            lemma_scan_calculus_complete(*body);
            if spec_scan(e).calculus && !is_calculus_node(e) {
                if spec_scan(*body).calculus {
                    let w = choose|w: Expr| is_subterm(w, *body) && is_calculus_node(w);
                    assert(is_subterm(w, e));
                }
            }
            if spec_scan(e).calculus && is_calculus_node(e) {
                assert(is_subterm(e, e));
            }
            if exists|w: Expr| is_subterm(w, e) && #[trigger] is_calculus_node(w) {
                let w = choose|w: Expr| is_subterm(w, e) && #[trigger] is_calculus_node(w);
                if w != e && is_subterm(w, *body) {
                    assert(spec_scan(*body).calculus);
                }
            }
                },
            }
        },
        Expr::Const(_) | Expr::Var(_) | Expr::Pi | Expr::E => {
            if exists|w: Expr| is_subterm(w, e) && #[trigger] is_calculus_node(w) {
                let w = choose|w: Expr| is_subterm(w, e) && #[trigger] is_calculus_node(w);
                assert(w == e);
            }
        },
    }
}

/// The scan is complete for combinatorics: the flag is raised exactly when a
/// factorial, binomial, indexed sum or indexed product occurs anywhere.
pub proof fn lemma_scan_combinatorics_complete(e: Expr)
    ensures
        spec_scan(e).combinatorics <==> exists|s: Expr| is_subterm(s, e) && #[trigger] is_combinatorics_node(s),
    decreases e,
{
    match e {
        Expr::Add(a, b) | Expr::Sub(a, b) | Expr::Mul(a, b) | Expr::Div(a, b) | Expr::Pow(a, b)
        | Expr::Equation { lhs: a, rhs: b } | Expr::Gte(a, b) | Expr::Gt(a, b) | Expr::Lte(a, b)
        | Expr::Lt(a, b) | Expr::And(a, b) | Expr::Or(a, b) | Expr::Implies(a, b) | Expr::GCD(a, b)
        | Expr::LCM(a, b) | Expr::Mod(a, b) | Expr::Binomial(a, b) => {
            lemma_scan_combinatorics_complete(*a);
            lemma_scan_combinatorics_complete(*b);
            if spec_scan(e).combinatorics && !is_combinatorics_node(e) {
                if spec_scan(*a).combinatorics {
                    let w = choose|w: Expr| is_subterm(w, *a) && is_combinatorics_node(w);
                    assert(is_subterm(w, e));
                } else if spec_scan(*b).combinatorics {
                    let w = choose|w: Expr| is_subterm(w, *b) && is_combinatorics_node(w);
                    assert(is_subterm(w, e));
                }
            }
            if spec_scan(e).combinatorics && is_combinatorics_node(e) {
                assert(is_subterm(e, e));
            }
            if exists|w: Expr| is_subterm(w, e) && #[trigger] is_combinatorics_node(w) {
                let w = choose|w: Expr| is_subterm(w, e) && #[trigger] is_combinatorics_node(w);
                if w != e && is_subterm(w, *a) {
                    assert(spec_scan(*a).combinatorics);
                }
                if w != e && is_subterm(w, *b) {
                    assert(spec_scan(*b).combinatorics);
                }
            }
        },
        Expr::Sin(x) | Expr::Cos(x) | Expr::Tan(x) | Expr::Arcsin(x) | Expr::Arccos(x) | Expr::Arctan(x)
        | Expr::Sqrt(x) | Expr::Ln(x) | Expr::Exp(x) | Expr::Abs(x) | Expr::Neg(x) | Expr::Floor(x)
        | Expr::Ceiling(x) | Expr::Not(x) | Expr::Factorial(x) | Expr::Derivative { expr: x, .. }
        | Expr::Integral { expr: x, .. } => {
            lemma_scan_combinatorics_complete(*x);
            if spec_scan(e).combinatorics && !is_combinatorics_node(e) {
                if spec_scan(*x).combinatorics {
                    let w = choose|w: Expr| is_subterm(w, *x) && is_combinatorics_node(w);
                    assert(is_subterm(w, e));
                }
            }
            if spec_scan(e).combinatorics && is_combinatorics_node(e) {
                assert(is_subterm(e, e));
            }
            if exists|w: Expr| is_subterm(w, e) && #[trigger] is_combinatorics_node(w) {
                let w = choose|w: Expr| is_subterm(w, e) && #[trigger] is_combinatorics_node(w);
                if w != e && is_subterm(w, *x) {
                    assert(spec_scan(*x).combinatorics);
                }
            }
        },
        Expr::Summation { from, to, body, .. } | Expr::BigProduct { from, to, body, .. } => {
            lemma_scan_combinatorics_complete(*from);
            lemma_scan_combinatorics_complete(*to);
            lemma_scan_combinatorics_complete(*body);
            if spec_scan(e).combinatorics && !is_combinatorics_node(e) {
                if spec_scan(*from).combinatorics {
                    let w = choose|w: Expr| is_subterm(w, *from) && is_combinatorics_node(w);
                    assert(is_subterm(w, e));
                } else if spec_scan(*to).combinatorics {
                    let w = choose|w: Expr| is_subterm(w, *to) && is_combinatorics_node(w);
                    assert(is_subterm(w, e));
                } else if spec_scan(*body).combinatorics {
                    let w = choose|w: Expr| is_subterm(w, *body) && is_combinatorics_node(w);
                    assert(is_subterm(w, e));
                }
            }
            if spec_scan(e).combinatorics && is_combinatorics_node(e) {
                assert(is_subterm(e, e));
            }
            if exists|w: Expr| is_subterm(w, e) && #[trigger] is_combinatorics_node(w) {
                let w = choose|w: Expr| is_subterm(w, e) && #[trigger] is_combinatorics_node(w);
                if w != e && is_subterm(w, *from) {
                    assert(spec_scan(*from).combinatorics);
                }
                if w != e && is_subterm(w, *to) {
                    assert(spec_scan(*to).combinatorics);
                }
                if w != e && is_subterm(w, *body) {
                    assert(spec_scan(*body).combinatorics);
                }
            }
        },
        Expr::ForAll { domain, body, .. } | Expr::Exists { domain, body, .. } => {
            match domain {
                Some(d) => {
            lemma_scan_combinatorics_complete(*d);
            lemma_scan_combinatorics_complete(*body);
            if spec_scan(e).combinatorics && !is_combinatorics_node(e) {
                if spec_scan(*d).combinatorics {
                    let w = choose|w: Expr| is_subterm(w, *d) && is_combinatorics_node(w);
                    assert(is_subterm(w, e));
                } else if spec_scan(*body).combinatorics {
                    let w = choose|w: Expr| is_subterm(w, *body) && is_combinatorics_node(w);
                    assert(is_subterm(w, e));
                }
            }
            if spec_scan(e).combinatorics && is_combinatorics_node(e) {
                assert(is_subterm(e, e));
            }
            if exists|w: Expr| is_subterm(w, e) && #[trigger] is_combinatorics_node(w) {
                let w = choose|w: Expr| is_subterm(w, e) && #[trigger] is_combinatorics_node(w);
                if w != e && is_subterm(w, *d) {
                    assert(spec_scan(*d).combinatorics);
                }
                if w != e && is_subterm(w, *body) {
                    assert(spec_scan(*body).combinatorics);
                }
            }
                },
                None => {
            lemma_scan_combinatorics_complete(*body);
            if spec_scan(e).combinatorics && !is_combinatorics_node(e) {
                if spec_scan(*body).combinatorics {
                    let w = choose|w: Expr| is_subterm(w, *body) && is_combinatorics_node(w);
                    assert(is_subterm(w, e));
                }
            }
            if spec_scan(e).combinatorics && is_combinatorics_node(e) {
                assert(is_subterm(e, e));
            }
            if exists|w: Expr| is_subterm(w, e) && #[trigger] is_combinatorics_node(w) {
                let w = choose|w: Expr| is_subterm(w, e) && #[trigger] is_combinatorics_node(w);
                if w != e && is_subterm(w, *body) {
                    assert(spec_scan(*body).combinatorics);
                }
            }
                },
            }
        },
        Expr::Const(_) | Expr::Var(_) | Expr::Pi | Expr::E => {
            if exists|w: Expr| is_subterm(w, e) && #[trigger] is_combinatorics_node(w) {
                let w = choose|w: Expr| is_subterm(w, e) && #[trigger] is_combinatorics_node(w);
                assert(w == e);
            }
        },
    }
}

/// Whether a rule's declared domains allow it on a profile: a
/// trigonometry rule needs trigonometry, a calculus rule needs calculus.
pub open spec fn spec_applicable(domains: Seq<Domain>, p: ProblemProfile) -> bool {
    forall|i: int| 0 <= i < domains.len() ==> {
        &&& (#[trigger] domains[i]) == Domain::Trigonometry ==> p.has_trig
        &&& (domains[i] == Domain::CalculusDiff || domains[i] == Domain::CalculusInt) ==> p.has_calculus
    }
}

/// Determines if a rule is applicable based on the problem profile.
pub fn is_rule_applicable(rule: &Rule, profile: &ProblemProfile) -> (b: bool)
    ensures
        b == spec_applicable(rule.domains@, *profile),
{
    let mut i: usize = 0;
    while i < rule.domains.len()
        invariant
            i <= rule.domains.len(),
            forall|j: int| 0 <= j < i ==> {
                &&& (#[trigger] rule.domains@[j]) == Domain::Trigonometry ==> profile.has_trig
                &&& (rule.domains@[j] == Domain::CalculusDiff || rule.domains@[j] == Domain::CalculusInt)
                    ==> profile.has_calculus
            },
        decreases rule.domains.len() - i,
    {
        match rule.domains[i] {
            Domain::Trigonometry => {
                if !profile.has_trig {
                    return false;
                }
            },
            Domain::CalculusDiff | Domain::CalculusInt => {
                if !profile.has_calculus {
                    return false;
                }
            },
            _ => {},
        }
        i = i + 1;
    }
    true
}

/// The rules of `rules` that are applicable to `p`, in order.
pub open spec fn spec_filter(rules: Seq<Rule>, p: ProblemProfile) -> Seq<Rule>
    decreases rules.len(),
{
    if rules.len() == 0 {
        Seq::empty()
    } else {
        let rest = spec_filter(rules.drop_last(), p);
        if spec_applicable(rules.last().domains@, p) {
            rest.push(rules.last())
        } else {
            rest
        }
    }
}

/// Filters a list of rules to those relevant for the current problem profile,
/// keeping their order.
pub fn filter_rules<'a>(rules: &'a [Rule], profile: &ProblemProfile) -> (res: Vec<&'a Rule>)
    ensures
        res@.map_values(|r: &Rule| *r) == spec_filter(rules@, *profile),
{
    let mut res: Vec<&'a Rule> = Vec::new();
    let mut i: usize = 0;
    while i < rules.len()
        invariant
            i <= rules.len(),
            res@.map_values(|r: &Rule| *r) == spec_filter(rules@.take(i as int), *profile),
        decreases rules.len() - i,
    {
        let ghost before = res@;
        let keep = is_rule_applicable(&rules[i], profile);
        if keep {
            res.push(&rules[i]);
        }
        proof {
            assert(rules@.take(i + 1).drop_last() =~= rules@.take(i as int));
            assert(rules@.take(i + 1).last() == rules@[i as int]);
            if keep {
                assert(res@.map_values(|r: &Rule| *r) =~= before.map_values(|r: &Rule| *r).push(rules@[i as int]));
            }
        }
        i = i + 1;
    }
    assert(rules@.take(rules.len() as int) =~= rules@);
    res
}

/// The terms of a sum nested through `Add`, left to right.
pub open spec fn additive_terms(e: Expr) -> Seq<Expr>
    decreases e,
{
    match e {
        Expr::Add(a, b) => additive_terms(*a) + additive_terms(*b),
        _ => seq![e],
    }
}

/// Decompose an additive expression into its terms: `a + b + c -> [a, b, c]`.
pub fn decompose_additive(expr: &Expr) -> (terms: Vec<Expr>)
    ensures
        terms@ == additive_terms(*expr),
{
    let mut terms = Vec::new();
    collect_additive_terms(expr, &mut terms);
    assert(terms@ =~= additive_terms(*expr));
    terms
}

/// Append the additive terms of `expr` to `terms`.
fn collect_additive_terms(expr: &Expr, terms: &mut Vec<Expr>)
    ensures
        final(terms)@ == old(terms)@ + additive_terms(*expr),
    decreases expr,
{
    match expr {
        Expr::Add(a, b) => {
            collect_additive_terms(a, terms);
            collect_additive_terms(b, terms);
            assert(terms@ =~= old(terms)@ + additive_terms(*expr));
        },
        _ => {
            terms.push(copy_expr(expr));
            assert(terms@ =~= old(terms)@ + additive_terms(*expr));
        },
    }
}

} // verus!
