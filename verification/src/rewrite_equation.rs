//! The rewrites of the equation-solving rules.
//!
//! Each rule fires on an equation `lhs = rhs` of a given shape and moves a
//! term or a factor to the other side, or solves the equation outright when
//! its coefficients are constants.  Arithmetic on the constants is exact; a
//! result whose numbers do not fit a 64-bit rational is not produced.

use vstd::prelude::*;
use crate::expr::{copy_expr, Expr, Symbol};
use crate::rational::{fits, radd, rat, rdiv, rmul, rsub, Rational};
use crate::rewrite::{bx, is_zero, is_zero_e, none, nothing, one, single};
use crate::rule::{apps_view, RuleApplication};
use crate::text::{push_text, rational_text, render_rational};

verus! {

// ---------------------------------------------------------------------------
// Building blocks
// ---------------------------------------------------------------------------

/// Whether `e` is a non-zero constant.
pub open spec fn nonzero_const(e: Expr) -> bool {
    e matches Expr::Const(c) && c.num() != 0
}

fn nonzero_const_e(e: &Expr) -> (b: bool)
    ensures
        b == nonzero_const(*e),
{
    match e {
        Expr::Const(c) => !c.is_zero(),
        _ => false,
    }
}

fn is_const_e(e: &Expr) -> (b: bool)
    ensures
        b == (*e matches Expr::Const(_)),
{
    match e {
        Expr::Const(_) => true,
        _ => false,
    }
}

/// One result whose justification is built at run time.
fn single_text(result: Expr, justification: String) -> (v: Vec<RuleApplication>)
    ensures
        apps_view(v@) == seq![(result, justification@)],
{
    let mut v: Vec<RuleApplication> = Vec::new();
    v.push(RuleApplication { result, justification });
    assert(apps_view(v@) =~= seq![(result, justification@)]);
    v
}

// ---------------------------------------------------------------------------
// Moving terms and factors
// ---------------------------------------------------------------------------

/// `a + k = c → a = c - k` and `a - k = c → a = c + k` for a constant `k`.
pub open spec fn isolate_variable_applies(e: Expr) -> bool {
    e matches Expr::Equation { lhs, .. } && match *lhs {
        Expr::Add(_, b) => *b matches Expr::Const(_),
        Expr::Sub(_, b) => *b matches Expr::Const(_),
        _ => false,
    }
}

/// The results of `isolate_variable` on `e`, each with its justification.
pub open spec fn isolate_variable_results(e: Expr) -> Seq<(Expr, Seq<char>)> {
    match e {
        Expr::Equation { lhs, rhs } => match *lhs {
            Expr::Add(a, b) => if *b matches Expr::Const(_) {
                one(Expr::Equation { lhs: a, rhs: Box::new(Expr::Sub(rhs, b)) }, "Subtract constant from both sides"@)
            } else {
                none()
            },
            Expr::Sub(a, b) => if *b matches Expr::Const(_) {
                one(Expr::Equation { lhs: a, rhs: Box::new(Expr::Add(rhs, b)) }, "Add constant to both sides"@)
            } else {
                none()
            },
            _ => none(),
        },
        _ => none(),
    }
}

/// Whether [`isolate_variable_applies`] holds of `e`.
pub(crate) fn isolate_variable_applicable(e: &Expr) -> (r: bool)
    ensures
        r == isolate_variable_applies(*e),
{
    match e {
        Expr::Equation { lhs, .. } => match &**lhs {
            Expr::Add(_, b) => is_const_e(b),
            Expr::Sub(_, b) => is_const_e(b),
            _ => false,
        },
        _ => false,
    }
}

/// The results of `isolate_variable` on `e`, as [`isolate_variable_results`] states.
pub(crate) fn isolate_variable_apply(e: &Expr) -> (v: Vec<RuleApplication>)
    ensures
        apps_view(v@) == isolate_variable_results(*e),
{
    match e {
        Expr::Equation { lhs, rhs } => match &**lhs {
            Expr::Add(a, b) => if is_const_e(b) {
                single(Expr::Equation { lhs: bx(a), rhs: Box::new(Expr::Sub(bx(rhs), bx(b))) }, "Subtract constant from both sides")
            } else {
                nothing()
            },
            Expr::Sub(a, b) => if is_const_e(b) {
                single(Expr::Equation { lhs: bx(a), rhs: Box::new(Expr::Add(bx(rhs), bx(b))) }, "Add constant to both sides")
            } else {
                nothing()
            },
            _ => nothing(),
        },
        _ => nothing(),
    }
}

/// `x + a = b → x = b - a`.
pub open spec fn cancel_addition_applies(e: Expr) -> bool {
    e matches Expr::Equation { lhs, .. } && (*lhs matches Expr::Add(_, _))
}

/// The results of `cancel_addition` on `e`, each with its justification.
pub open spec fn cancel_addition_results(e: Expr) -> Seq<(Expr, Seq<char>)> {
    match e {
        Expr::Equation { lhs, rhs } => match *lhs {
            Expr::Add(x, a) => one(Expr::Equation { lhs: x, rhs: Box::new(Expr::Sub(rhs, a)) }, "x + a = b → x = b - a"@),
            _ => none(),
        },
        _ => none(),
    }
}

/// Whether [`cancel_addition_applies`] holds of `e`.
pub(crate) fn cancel_addition_applicable(e: &Expr) -> (r: bool)
    ensures
        r == cancel_addition_applies(*e),
{
    match e {
        Expr::Equation { lhs, .. } => match &**lhs {
            Expr::Add(_, _) => true,
            _ => false,
        },
        _ => false,
    }
}

/// The results of `cancel_addition` on `e`, as [`cancel_addition_results`] states.
pub(crate) fn cancel_addition_apply(e: &Expr) -> (v: Vec<RuleApplication>)
    ensures
        apps_view(v@) == cancel_addition_results(*e),
{
    match e {
        Expr::Equation { lhs, rhs } => match &**lhs {
            Expr::Add(x, a) => single(Expr::Equation { lhs: bx(x), rhs: Box::new(Expr::Sub(bx(rhs), bx(a))) }, "x + a = b → x = b - a"),
            _ => nothing(),
        },
        _ => nothing(),
    }
}

/// `x - a = b → x = b + a`.
pub open spec fn cancel_subtraction_applies(e: Expr) -> bool {
    e matches Expr::Equation { lhs, .. } && (*lhs matches Expr::Sub(_, _))
}

/// The results of `cancel_subtraction` on `e`, each with its justification.
pub open spec fn cancel_subtraction_results(e: Expr) -> Seq<(Expr, Seq<char>)> {
    match e {
        Expr::Equation { lhs, rhs } => match *lhs {
            Expr::Sub(x, a) => one(Expr::Equation { lhs: x, rhs: Box::new(Expr::Add(rhs, a)) }, "x - a = b → x = b + a"@),
            _ => none(),
        },
        _ => none(),
    }
}

/// Whether [`cancel_subtraction_applies`] holds of `e`.
pub(crate) fn cancel_subtraction_applicable(e: &Expr) -> (r: bool)
    ensures
        r == cancel_subtraction_applies(*e),
{
    match e {
        Expr::Equation { lhs, .. } => match &**lhs {
            Expr::Sub(_, _) => true,
            _ => false,
        },
        _ => false,
    }
}

/// The results of `cancel_subtraction` on `e`, as [`cancel_subtraction_results`] states.
pub(crate) fn cancel_subtraction_apply(e: &Expr) -> (v: Vec<RuleApplication>)
    ensures
        apps_view(v@) == cancel_subtraction_results(*e),
{
    match e {
        Expr::Equation { lhs, rhs } => match &**lhs {
            Expr::Sub(x, a) => single(Expr::Equation { lhs: bx(x), rhs: Box::new(Expr::Add(bx(rhs), bx(a))) }, "x - a = b → x = b + a"),
            _ => nothing(),
        },
        _ => nothing(),
    }
}

/// The text `Divide both sides by c`.
pub open spec fn divide_text(c: (int, int)) -> Seq<char> {
    "Divide both sides by "@ + rational_text(c)
}

/// `c·x = b → x = b/c` and `x·c = b → x = b/c` for a non-zero constant `c`;
/// a constant on the left is divided out first.
pub open spec fn cancel_multiplication_applies(e: Expr) -> bool {
    e matches Expr::Equation { lhs, .. } && (*lhs matches Expr::Mul(a, b) && (nonzero_const(*a) || nonzero_const(*b)))
}

/// The results of `cancel_multiplication` on `e`, each with its justification.
pub open spec fn cancel_multiplication_results(e: Expr) -> Seq<(Expr, Seq<char>)> {
    match e {
        Expr::Equation { lhs, rhs } => match *lhs {
            Expr::Mul(a, b) => match (*a, *b) {
                (Expr::Const(c), _) if c.num() != 0 => one(
                    Expr::Equation { lhs: b, rhs: Box::new(Expr::Div(rhs, a)) },
                    divide_text(c.pair()),
                ),
                (_, Expr::Const(c)) if c.num() != 0 => one(
                    Expr::Equation { lhs: a, rhs: Box::new(Expr::Div(rhs, b)) },
                    divide_text(c.pair()),
                ),
                _ => none(),
            },
            _ => none(),
        },
        _ => none(),
    }
}

/// Whether [`cancel_multiplication_applies`] holds of `e`.
pub(crate) fn cancel_multiplication_applicable(e: &Expr) -> (r: bool)
    ensures
        r == cancel_multiplication_applies(*e),
{
    match e {
        Expr::Equation { lhs, .. } => match &**lhs {
            Expr::Mul(a, b) => nonzero_const_e(a) || nonzero_const_e(b),
            _ => false,
        },
        _ => false,
    }
}

fn divide_text_e(c: &Rational) -> (t: String)
    ensures
        t@ == divide_text(c.pair()),
{
    let mut t = String::new();
    push_text(&mut t, "Divide both sides by ");
    let ct = render_rational(c);
    push_text(&mut t, ct.as_str());
    assert(t@ =~= divide_text(c.pair()));
    t
}

/// The results of `cancel_multiplication` on `e`, as [`cancel_multiplication_results`] states.
pub(crate) fn cancel_multiplication_apply(e: &Expr) -> (v: Vec<RuleApplication>)
    ensures
        apps_view(v@) == cancel_multiplication_results(*e),
{
    match e {
        Expr::Equation { lhs, rhs } => match &**lhs {
            Expr::Mul(a, b) => {
                if let Expr::Const(c) = &**a {
                    if !c.is_zero() {
                        let t = divide_text_e(c);
                        return single_text(Expr::Equation { lhs: bx(b), rhs: Box::new(Expr::Div(bx(rhs), bx(a))) }, t);
                    }
                }
                if let Expr::Const(c) = &**b {
                    if !c.is_zero() {
                        let t = divide_text_e(c);
                        return single_text(Expr::Equation { lhs: bx(a), rhs: Box::new(Expr::Div(bx(rhs), bx(b))) }, t);
                    }
                }
                nothing()
            },
            _ => nothing(),
        },
        _ => nothing(),
    }
}

/// `x/a = b → x = b·a`, offered when `a` is a non-zero constant.
pub open spec fn cancel_division_applies(e: Expr) -> bool {
    e matches Expr::Equation { lhs, .. } && (*lhs matches Expr::Div(_, a) && nonzero_const(*a))
}

/// The results of `cancel_division` on `e`, each with its justification.
pub open spec fn cancel_division_results(e: Expr) -> Seq<(Expr, Seq<char>)> {
    match e {
        Expr::Equation { lhs, rhs } => match *lhs {
            Expr::Div(x, a) => one(Expr::Equation { lhs: x, rhs: Box::new(Expr::Mul(rhs, a)) }, "x/a = b → x = ab"@),
            _ => none(),
        },
        _ => none(),
    }
}

/// Whether [`cancel_division_applies`] holds of `e`.
pub(crate) fn cancel_division_applicable(e: &Expr) -> (r: bool)
    ensures
        r == cancel_division_applies(*e),
{
    match e {
        Expr::Equation { lhs, .. } => match &**lhs {
            Expr::Div(_, a) => nonzero_const_e(a),
            _ => false,
        },
        _ => false,
    }
}

/// The results of `cancel_division` on `e`, as [`cancel_division_results`] states.
pub(crate) fn cancel_division_apply(e: &Expr) -> (v: Vec<RuleApplication>)
    ensures
        apps_view(v@) == cancel_division_results(*e),
{
    match e {
        Expr::Equation { lhs, rhs } => match &**lhs {
            Expr::Div(x, a) => single(Expr::Equation { lhs: bx(x), rhs: Box::new(Expr::Mul(bx(rhs), bx(a))) }, "x/a = b → x = ab"),
            _ => nothing(),
        },
        _ => nothing(),
    }
}

// ---------------------------------------------------------------------------
// Solving
// ---------------------------------------------------------------------------

/// The text `x = (c - b) / a = s`.
pub open spec fn linear_text(c: (int, int), b: (int, int), a: (int, int), s: (int, int)) -> Seq<char> {
    "x = ("@ + rational_text(c) + " - "@ + rational_text(b) + ") / "@ + rational_text(a) + " = "@ + rational_text(s)
}

/// `a·x + b = c → x = (c - b)/a` for constants `a`, `b`, `c`; a result only
/// for `a ≠ 0`, and when `c - b` and the quotient fit.
pub open spec fn linear_solve_applies(e: Expr) -> bool {
    e matches Expr::Equation { lhs, rhs } && (*lhs matches Expr::Add(term, b) && (*b matches Expr::Const(_))
        && (*term matches Expr::Mul(a, _) && (*a matches Expr::Const(_)) && (*rhs matches Expr::Const(_))))
}

/// The results of `linear_solve` on `e`, each with its justification.
pub open spec fn linear_solve_results(e: Expr) -> Seq<(Expr, Seq<char>)> {
    match e {
        Expr::Equation { lhs, rhs } => match (*lhs, *rhs) {
            (Expr::Add(term, b), Expr::Const(cv)) => match (*term, *b) {
                (Expr::Mul(a, x), Expr::Const(bv)) => match *a {
                    Expr::Const(av) => {
                        let num = rsub(cv.pair(), bv.pair());
                        let sol = rdiv(num, av.pair());
                        if av.num() != 0 && fits(num) && fits(sol) {
                            one(
                                Expr::Equation { lhs: x, rhs: Box::new(Expr::Const(rat(sol))) },
                                linear_text(cv.pair(), bv.pair(), av.pair(), sol),
                            )
                        } else {
                            none()
                        }
                    },
                    _ => none(),
                },
                _ => none(),
            },
            _ => none(),
        },
        _ => none(),
    }
}

/// Whether [`linear_solve_applies`] holds of `e`.
pub(crate) fn linear_solve_applicable(e: &Expr) -> (r: bool)
    ensures
        r == linear_solve_applies(*e),
{
    match e {
        Expr::Equation { lhs, rhs } => match &**lhs {
            Expr::Add(term, b) => is_const_e(b) && match &**term {
                Expr::Mul(a, _) => is_const_e(a) && is_const_e(rhs),
                _ => false,
            },
            _ => false,
        },
        _ => false,
    }
}

/// The results of `linear_solve` on `e`, as [`linear_solve_results`] states.
pub(crate) fn linear_solve_apply(e: &Expr) -> (v: Vec<RuleApplication>)
    ensures
        apps_view(v@) == linear_solve_results(*e),
{
    match e {
        Expr::Equation { lhs, rhs } => match (&**lhs, &**rhs) {
            (Expr::Add(term, b), Expr::Const(cv)) => match (&**term, &**b) {
                (Expr::Mul(a, x), Expr::Const(bv)) => match &**a {
                    Expr::Const(av) => {
                        if av.is_zero() {
                            return nothing();
                        }
                        let num = match cv.checked_sub(bv) {
                            Some(n) => n,
                            None => return nothing(),
                        };
                        let sol = match num.checked_div(av) {
                            Some(s) => s,
                            None => return nothing(),
                        };
                        proof {
                            crate::rational::lemma_rat_pair(sol);
                        }
                        let mut t = String::new();
                        push_text(&mut t, "x = (");
                        let s1 = render_rational(cv);
                        push_text(&mut t, s1.as_str());
                        push_text(&mut t, " - ");
                        let s2 = render_rational(bv);
                        push_text(&mut t, s2.as_str());
                        push_text(&mut t, ") / ");
                        let s3 = render_rational(av);
                        push_text(&mut t, s3.as_str());
                        push_text(&mut t, " = ");
                        let s4 = render_rational(&sol);
                        push_text(&mut t, s4.as_str());
                        assert(t@ =~= linear_text(cv.pair(), bv.pair(), av.pair(), sol.pair()));
                        single_text(Expr::Equation { lhs: bx(x), rhs: Box::new(Expr::Const(sol)) }, t)
                    },
                    _ => nothing(),
                },
                _ => nothing(),
            },
            _ => nothing(),
        },
        _ => nothing(),
    }
}

/// The coefficient and variable of a squared term: `x^2` gives `(1, x)`;
/// `c·t` or `t·c` for a constant `c` and a squared term `t` gives `(c, x)`
/// (a constant on the left is tried first); anything else gives nothing.
pub open spec fn squared_term(e: Expr) -> Option<((int, int), Symbol)>
    decreases e,
{
    match e {
        Expr::Pow(b, x) => match (*b, *x) {
            (Expr::Var(v), Expr::Const(c)) => if c.pair() == (2int, 1int) {
                Some(((1int, 1int), v))
            } else {
                None
            },
            _ => None,
        },
        Expr::Mul(a, b) => {
            let left = match *a {
                Expr::Const(c) => match squared_term(*b) {
                    Some((_, v)) => Some((c.pair(), v)),
                    None => None,
                },
                _ => None,
            };
            if left is Some {
                left
            } else {
                match *b {
                    Expr::Const(c) => match squared_term(*a) {
                        Some((_, v)) => Some((c.pair(), v)),
                        None => None,
                    },
                    _ => None,
                }
            }
        },
        _ => None,
    }
}

/// The coefficient and variable of a squared term, as [`squared_term`] states.
pub fn extract_squared_term(expr: &Expr) -> (r: Option<(Rational, Symbol)>)
    ensures
        match r {
            Some((c, v)) => squared_term(*expr) == Some((c.pair(), v)),
            None => squared_term(*expr) is None,
        },
    decreases expr,
{
    match expr {
        Expr::Pow(b, x) => match (&**b, &**x) {
            (Expr::Var(v), Expr::Const(c)) => if c.numer() == 2 && c.denom() == 1 {
                Some((Rational::from_integer(1), *v))
            } else {
                None
            },
            _ => None,
        },
        Expr::Mul(a, b) => {
            if let Expr::Const(coeff) = &**a {
                if let Some((_, v)) = extract_squared_term(b) {
                    return Some((*coeff, v));
                }
            }
            if let Expr::Const(coeff) = &**b {
                if let Some((_, v)) = extract_squared_term(a) {
                    return Some((*coeff, v));
                }
            }
            None
        },
        _ => None,
    }
}

/// The linear coefficient and constant of a sum of terms: a constant `c`
/// gives `(0, c)`; a variable `(1, 0)`; `k·x` or `x·k` for a constant `k` and
/// a variable `x` gives `(k, 0)`; a sum adds the pairs of its parts; anything
/// else gives `(0, 0)`.  Nothing when a partial sum does not fit.
pub open spec fn linear_and_const(e: Expr) -> Option<((int, int), (int, int))>
    decreases e,
{
    match e {
        Expr::Const(c) => Some(((0int, 1int), c.pair())),
        Expr::Add(a, b) => match (linear_and_const(*a), linear_and_const(*b)) {
            (Some((b1, c1)), Some((b2, c2))) => {
                let bs = radd(b1, b2);
                let cs = radd(c1, c2);
                if fits(bs) && fits(cs) {
                    Some((bs, cs))
                } else {
                    None
                }
            },
            _ => None,
        },
        Expr::Mul(a, b) => match (*a, *b) {
            (Expr::Const(k), Expr::Var(_)) => Some((k.pair(), (0int, 1int))),
            (Expr::Var(_), Expr::Const(k)) => Some((k.pair(), (0int, 1int))),
            _ => Some(((0int, 1int), (0int, 1int))),
        },
        Expr::Var(_) => Some(((1int, 1int), (0int, 1int))),
        _ => Some(((0int, 1int), (0int, 1int))),
    }
}

/// The linear coefficient and constant of `expr`, as [`linear_and_const`]
/// states.
pub fn extract_linear_and_const(expr: &Expr, _var: Symbol) -> (r: Option<(Rational, Rational)>)
    ensures
        match r {
            Some((b, c)) => linear_and_const(*expr) == Some((b.pair(), c.pair())),
            None => linear_and_const(*expr) is None,
        },
    decreases expr,
{
    let zero = Rational::from_integer(0);
    match expr {
        Expr::Const(c) => Some((zero, *c)),
        Expr::Add(a, b) => {
            let (b1, c1) = match extract_linear_and_const(a, _var) {
                Some(p) => p,
                None => return None,
            };
            let (b2, c2) = match extract_linear_and_const(b, _var) {
                Some(p) => p,
                None => return None,
            };
            match (b1.checked_add(&b2), c1.checked_add(&c2)) {
                (Some(bs), Some(cs)) => Some((bs, cs)),
                _ => None,
            }
        },
        Expr::Mul(a, b) => match (&**a, &**b) {
            (Expr::Const(k), Expr::Var(_)) => Some((*k, zero)),
            (Expr::Var(_), Expr::Const(k)) => Some((*k, zero)),
            _ => Some((zero, zero)),
        },
        Expr::Var(_) => Some((Rational::from_integer(1), zero)),
        _ => Some((zero, zero)),
    }
}

/// The coefficients `(a, b, c)` and variable of `a·x² + b·x + c`: a sum with
/// a squared term on the left (else on the right) and the linear and
/// constant part on the other side; or a lone squared term, with `b = c = 0`.
pub open spec fn quadratic_coefficients(e: Expr) -> Option<((int, int), (int, int), (int, int), Symbol)> {
    match e {
        Expr::Add(l, r) => match squared_term(*l) {
            Some((a, v)) => match linear_and_const(*r) {
                Some((b, c)) => Some((a, b, c, v)),
                None => None,
            },
            None => match squared_term(*r) {
                Some((a, v)) => match linear_and_const(*l) {
                    Some((b, c)) => Some((a, b, c, v)),
                    None => None,
                },
                None => None,
            },
        },
        Expr::Mul(_, _) | Expr::Pow(_, _) => match squared_term(e) {
            Some((a, v)) => Some((a, (0int, 1int), (0int, 1int), v)),
            None => None,
        },
        _ => None,
    }
}

/// The coefficients of a quadratic, as [`quadratic_coefficients`] states.
pub fn extract_quadratic_coefficients(expr: &Expr) -> (r: Option<(Rational, Rational, Rational, Symbol)>)
    ensures
        match r {
            Some((a, b, c, v)) => quadratic_coefficients(*expr) == Some((a.pair(), b.pair(), c.pair(), v)),
            None => quadratic_coefficients(*expr) is None,
        },
{
    match expr {
        Expr::Add(left, right) => {
            if let Some((a, v)) = extract_squared_term(left) {
                return match extract_linear_and_const(right, v) {
                    Some((b, c)) => Some((a, b, c, v)),
                    None => None,
                };
            }
            if let Some((a, v)) = extract_squared_term(right) {
                return match extract_linear_and_const(left, v) {
                    Some((b, c)) => Some((a, b, c, v)),
                    None => None,
                };
            }
            None
        },
        Expr::Mul(_, _) | Expr::Pow(_, _) => match extract_squared_term(expr) {
            Some((a, v)) => Some((a, Rational::from_integer(0), Rational::from_integer(0), v)),
            None => None,
        },
        _ => None,
    }
}

/// The text `Quadratic formula: x = (-b + √d) / t`.
pub open spec fn quadratic_text(b: (int, int), d: (int, int), t: (int, int)) -> Seq<char> {
    "Quadratic formula: x = (-"@ + rational_text(b) + " + √"@ + rational_text(d) + ") / "@ + rational_text(t)
}

/// `a·x² + b·x + c = 0`: with `d = b² - 4ac`, the equation itself when
/// `d < 0` ("no real solutions"), else `x = (-b + √d)/(2a)`.  Offered on any
/// equation whose right side is the constant 0.
pub open spec fn quadratic_formula_applies(e: Expr) -> bool {
    e matches Expr::Equation { rhs, .. } && is_zero(*rhs)
}

/// The results of `quadratic_formula` on `e`, each with its justification.
pub open spec fn quadratic_formula_results(e: Expr) -> Seq<(Expr, Seq<char>)> {
    match e {
        Expr::Equation { lhs, rhs } => if is_zero(*rhs) {
            match quadratic_coefficients(*lhs) {
                Some((a, b, c, v)) => {
                    let bb = rmul(b, b);
                    let fa = rmul((4int, 1int), a);
                    let fac = rmul(fa, c);
                    let d = rsub(bb, fac);
                    let ta = rmul((2int, 1int), a);
                    if !(fits(bb) && fits(fa) && fits(fac) && fits(d)) {
                        none()
                    } else if d.0 < 0 {
                        one(e, "No real solutions (discriminant < 0)"@)
                    } else if fits(ta) {
                        one(
                            Expr::Equation {
                                lhs: Box::new(Expr::Var(v)),
                                rhs: Box::new(Expr::Div(
                                    Box::new(Expr::Add(
                                        Box::new(Expr::Neg(Box::new(Expr::Const(rat(b))))),
                                        Box::new(Expr::Sqrt(Box::new(Expr::Const(rat(d))))),
                                    )),
                                    Box::new(Expr::Const(rat(ta))),
                                )),
                            },
                            quadratic_text(b, d, ta),
                        )
                    } else {
                        none()
                    }
                },
                None => none(),
            }
        } else {
            none()
        },
        _ => none(),
    }
}

/// Whether [`quadratic_formula_applies`] holds of `e`.
pub(crate) fn quadratic_formula_applicable(e: &Expr) -> (r: bool)
    ensures
        r == quadratic_formula_applies(*e),
{
    match e {
        Expr::Equation { rhs, .. } => is_zero_e(rhs),
        _ => false,
    }
}

/// The results of `quadratic_formula` on `e`, as [`quadratic_formula_results`] states.
pub(crate) fn quadratic_formula_apply(e: &Expr) -> (v: Vec<RuleApplication>)
    ensures
        apps_view(v@) == quadratic_formula_results(*e),
{
    match e {
        Expr::Equation { lhs, rhs } => {
            if !is_zero_e(rhs) {
                return nothing();
            }
            let (a, b, c, var) = match extract_quadratic_coefficients(lhs) {
                Some(q) => q,
                None => return nothing(),
            };
            let bb = match b.checked_mul(&b) {
                Some(x) => x,
                None => return nothing(),
            };
            let four = Rational::from_integer(4);
            let fa = match four.checked_mul(&a) {
                Some(x) => x,
                None => return nothing(),
            };
            let fac = match fa.checked_mul(&c) {
                Some(x) => x,
                None => return nothing(),
            };
            let d = match bb.checked_sub(&fac) {
                Some(x) => x,
                None => return nothing(),
            };
            if d.is_negative() {
                return single(copy_expr(e), "No real solutions (discriminant < 0)");
            }
            let two = Rational::from_integer(2);
            let ta = match two.checked_mul(&a) {
                Some(x) => x,
                None => return nothing(),
            };
            proof {
                crate::rational::lemma_rat_pair(b);
                crate::rational::lemma_rat_pair(d);
                crate::rational::lemma_rat_pair(ta);
            }
            let mut t = String::new();
            push_text(&mut t, "Quadratic formula: x = (-");
            let s1 = render_rational(&b);
            push_text(&mut t, s1.as_str());
            push_text(&mut t, " + √");
            let s2 = render_rational(&d);
            push_text(&mut t, s2.as_str());
            push_text(&mut t, ") / ");
            let s3 = render_rational(&ta);
            push_text(&mut t, s3.as_str());
            assert(t@ =~= quadratic_text(b.pair(), d.pair(), ta.pair()));
            single_text(
                Expr::Equation {
                    lhs: Box::new(Expr::Var(var)),
                    rhs: Box::new(Expr::Div(
                        Box::new(Expr::Add(Box::new(Expr::Neg(Box::new(Expr::Const(b)))), Box::new(Expr::Sqrt(Box::new(Expr::Const(d)))))),
                        Box::new(Expr::Const(ta)),
                    )),
                },
                t,
            )
        },
        _ => nothing(),
    }
}

} // verus!
