//! The rewrites of the differentiation rules.
//!
//! Each rule fires on a `d/dx(…)` node of a given shape and produces the
//! derivative by one step of the corresponding law, leaving the derivatives
//! of the parts as new `d/dx(…)` nodes.

use vstd::prelude::*;
use crate::expr::{copy_expr, expr_eq, Expr, Symbol};
use crate::rational::{fits, rat, rsub, Rational};
use crate::rewrite::{bx, is_lit, is_lit_e, lit, mk_lit, mk_pow, none, nothing, one, pow_lit, single};
use crate::rule::{apps_view, RuleApplication};
use crate::text::{push_text, rational_text, render_rational};

verus! {

// ---------------------------------------------------------------------------
// Building blocks
// ---------------------------------------------------------------------------

/// Whether `var` occurs free in `e`.  A summation, product or quantifier
/// that binds `var` hides it in its body (and, for a quantifier, leaves only
/// its domain).
pub open spec fn var_occurs(e: Expr, var: Symbol) -> bool
    decreases e,
{
    match e {
        Expr::Var(v) => v == var,
        Expr::Const(_) | Expr::Pi | Expr::E => false,
        Expr::Neg(x) | Expr::Sqrt(x) | Expr::Sin(x) | Expr::Cos(x) | Expr::Tan(x) | Expr::Arcsin(x)
        | Expr::Arccos(x) | Expr::Arctan(x) | Expr::Ln(x) | Expr::Exp(x) | Expr::Abs(x) | Expr::Floor(x)
        | Expr::Ceiling(x) | Expr::Factorial(x) | Expr::Not(x) => var_occurs(*x, var),
        Expr::Add(a, b) | Expr::Sub(a, b) | Expr::Mul(a, b) | Expr::Div(a, b) | Expr::Pow(a, b)
        | Expr::GCD(a, b) | Expr::LCM(a, b) | Expr::Mod(a, b) | Expr::Binomial(a, b) | Expr::Gte(a, b)
        | Expr::Gt(a, b) | Expr::Lte(a, b) | Expr::Lt(a, b) | Expr::And(a, b) | Expr::Or(a, b)
        | Expr::Implies(a, b) => var_occurs(*a, var) || var_occurs(*b, var),
        Expr::Equation { lhs, rhs } => var_occurs(*lhs, var) || var_occurs(*rhs, var),
        Expr::Derivative { expr, .. } | Expr::Integral { expr, .. } => var_occurs(*expr, var),
        Expr::Summation { var: v, from, to, body } | Expr::BigProduct { var: v, from, to, body } =>
            var_occurs(*from, var) || var_occurs(*to, var) || (v != var && var_occurs(*body, var)),
        Expr::ForAll { var: v, domain, body } | Expr::Exists { var: v, domain, body } =>
            (domain matches Some(d) && var_occurs(*d, var)) || (v != var && var_occurs(*body, var)),
    }
}

/// Whether `var` occurs free in `expr`, as [`var_occurs`] states.
pub fn contains_var(expr: &Expr, var: Symbol) -> (b: bool)
    ensures
        b == var_occurs(*expr, var),
    decreases expr,
{
    match expr {
        Expr::Var(v) => v.0 == var.0,
        Expr::Const(_) | Expr::Pi | Expr::E => false,
        Expr::Neg(x) | Expr::Sqrt(x) | Expr::Sin(x) | Expr::Cos(x) | Expr::Tan(x) | Expr::Arcsin(x)
        | Expr::Arccos(x) | Expr::Arctan(x) | Expr::Ln(x) | Expr::Exp(x) | Expr::Abs(x) | Expr::Floor(x)
        | Expr::Ceiling(x) | Expr::Factorial(x) | Expr::Not(x) => contains_var(x, var),
        Expr::Add(a, b) | Expr::Sub(a, b) | Expr::Mul(a, b) | Expr::Div(a, b) | Expr::Pow(a, b)
        | Expr::GCD(a, b) | Expr::LCM(a, b) | Expr::Mod(a, b) | Expr::Binomial(a, b) | Expr::Gte(a, b)
        | Expr::Gt(a, b) | Expr::Lte(a, b) | Expr::Lt(a, b) | Expr::And(a, b) | Expr::Or(a, b)
        | Expr::Implies(a, b) => contains_var(a, var) || contains_var(b, var),
        Expr::Equation { lhs, rhs } => contains_var(lhs, var) || contains_var(rhs, var),
        Expr::Derivative { expr, .. } | Expr::Integral { expr, .. } => contains_var(expr, var),
        Expr::Summation { var: v, from, to, body } | Expr::BigProduct { var: v, from, to, body } => {
            if v.0 == var.0 {
                contains_var(from, var) || contains_var(to, var)
            } else {
                contains_var(from, var) || contains_var(to, var) || contains_var(body, var)
            }
        },
        Expr::ForAll { var: v, domain, body } | Expr::Exists { var: v, domain, body } => {
            let in_domain = match domain {
                Some(d) => contains_var(d, var),
                None => false,
            };
            if v.0 == var.0 {
                in_domain
            } else {
                in_domain || contains_var(body, var)
            }
        },
    }
}

/// `d/dv(f)`.
pub open spec fn d(f: Expr, v: Symbol) -> Expr {
    Expr::Derivative { expr: Box::new(f), var: v }
}

fn mk_d(f: &Expr, v: Symbol) -> (e: Expr)
    ensures
        e == d(*f, v),
{
    Expr::Derivative { expr: bx(f), var: v }
}

/// Whether `e` is the variable `v`.
pub open spec fn is_var(e: Expr, v: Symbol) -> bool {
    e matches Expr::Var(w) && w == v
}

/// Whether `e` is the variable `v`.
pub(crate) fn is_var_e(e: &Expr, v: Symbol) -> (b: bool)
    ensures
        b == is_var(*e, v),
{
    match e {
        Expr::Var(w) => w.0 == v.0,
        _ => false,
    }
}

/// Whether a target variable, when the search has one, is `v`.
pub open spec fn target_ok(target: Option<Symbol>, v: Symbol) -> bool {
    match target {
        Some(t) => t == v,
        None => true,
    }
}

fn target_ok_e(target: Option<Symbol>, v: Symbol) -> (b: bool)
    ensures
        b == target_ok(target, v),
{
    match target {
        Some(t) => t.0 == v.0,
        None => true,
    }
}

/// One result with an owned justification.
fn single_text(result: Expr, justification: String) -> (v: Vec<RuleApplication>)
    ensures
        apps_view(v@) == seq![(result, justification@)],
{
    let mut v: Vec<RuleApplication> = Vec::new();
    v.push(RuleApplication { result, justification });
    assert(apps_view(v@) =~= seq![(result, justification@)]);
    v
}

/// `n - 1` for a rational `n`, when it fits.
fn minus_one(n: &Rational) -> (r: Option<Rational>)
    ensures
        r is Some <==> fits(rsub(n.pair(), (1, 1))),
        r matches Some(m) ==> m.pair() == rsub(n.pair(), (1, 1)),
{
    let one = Rational::from_integer(1);
    n.checked_sub(&one)
}

// ---------------------------------------------------------------------------
// Basic rules
// ---------------------------------------------------------------------------

/// `d/dx(x) = 1` and `d/dx(x^n) = n·x^(n-1)` for a constant `n`.
pub open spec fn power_rule_applies(e: Expr) -> bool {
    match e {
        Expr::Derivative { expr: inner, var } => match *inner {
            Expr::Pow(b, x) => is_var(*b, var) && (*x matches Expr::Const(_)),
            Expr::Var(v) => v == var,
            _ => false,
        },
        _ => false,
    }
}

/// The text `d/dx(x^n) = n · x^m`.
pub open spec fn power_rule_text(n: (int, int), m: (int, int)) -> Seq<char> {
    "d/dx(x^"@ + rational_text(n) + ") = "@ + rational_text(n) + " · x^"@ + rational_text(m)
}

/// The results of `power_rule` on `e`, each with its justification.
pub open spec fn power_rule_results(e: Expr) -> Seq<(Expr, Seq<char>)> {
    match e {
        Expr::Derivative { expr: inner, var } => match *inner {
            Expr::Var(v) => if v == var {
                one(lit(1), "d/dx(x) = 1"@)
            } else {
                none()
            },
            Expr::Pow(b, x) => match (*b, *x) {
                (Expr::Var(v), Expr::Const(n)) => {
                    let m = rsub(n.pair(), (1, 1));
                    if v == var && fits(m) {
                        one(
                            Expr::Mul(Box::new(Expr::Const(n)), Box::new(Expr::Pow(b, Box::new(Expr::Const(rat(m)))))),
                            power_rule_text(n.pair(), m),
                        )
                    } else {
                        none()
                    }
                },
                _ => none(),
            },
            _ => none(),
        },
        _ => none(),
    }
}

/// Whether [`power_rule_applies`] holds of `e`.
pub(crate) fn power_rule_applicable(e: &Expr) -> (r: bool)
    ensures
        r == power_rule_applies(*e),
{
    match e {
        Expr::Derivative { expr: inner, var } => match &**inner {
            Expr::Pow(b, x) => is_var_e(b, *var) && match &**x {
                Expr::Const(_) => true,
                _ => false,
            },
            Expr::Var(v) => v.0 == var.0,
            _ => false,
        },
        _ => false,
    }
}

/// The results of `power_rule` on `e`, as [`power_rule_results`] states.
pub(crate) fn power_rule_apply(e: &Expr) -> (v: Vec<RuleApplication>)
    ensures
        apps_view(v@) == power_rule_results(*e),
{
    match e {
        Expr::Derivative { expr: inner, var } => match &**inner {
            Expr::Var(v) => if v.0 == var.0 {
                single(mk_lit(1), "d/dx(x) = 1")
            } else {
                nothing()
            },
            Expr::Pow(b, x) => match (&**b, &**x) {
                (Expr::Var(v), Expr::Const(n)) => {
                    if v.0 != var.0 {
                        return nothing();
                    }
                    match minus_one(n) {
                        Some(m) => {
                            proof {
                                crate::rational::lemma_rat_pair(m);
                            }
                            let mut t = String::new();
                            push_text(&mut t, "d/dx(x^");
                            let nt = render_rational(n);
                            push_text(&mut t, nt.as_str());
                            push_text(&mut t, ") = ");
                            push_text(&mut t, nt.as_str());
                            push_text(&mut t, " · x^");
                            let mt = render_rational(&m);
                            push_text(&mut t, mt.as_str());
                            assert(t@ =~= power_rule_text(n.pair(), m.pair()));
                            single_text(
                                Expr::Mul(Box::new(Expr::Const(*n)), Box::new(Expr::Pow(bx(b), Box::new(Expr::Const(m))))),
                                t,
                            )
                        },
                        None => nothing(),
                    }
                },
                _ => nothing(),
            },
            _ => nothing(),
        },
        _ => nothing(),
    }
}

/// `d/dx(c) = 0` for an expression free of `x`.
pub open spec fn constant_rule_applies(e: Expr) -> bool {
    e matches Expr::Derivative { expr: inner, var } && !var_occurs(*inner, var)
}

/// The results of `constant_rule` on `e`, each with its justification.
pub open spec fn constant_rule_results(e: Expr) -> Seq<(Expr, Seq<char>)> {
    if constant_rule_applies(e) {
        one(lit(0), "d/dx(c) = 0 (c does not contain x)"@)
    } else {
        none()
    }
}

/// Whether [`constant_rule_applies`] holds of `e`.
pub(crate) fn constant_rule_applicable(e: &Expr) -> (r: bool)
    ensures
        r == constant_rule_applies(*e),
{
    match e {
        Expr::Derivative { expr: inner, var } => !contains_var(inner, *var),
        _ => false,
    }
}

/// The results of `constant_rule` on `e`, as [`constant_rule_results`] states.
pub(crate) fn constant_rule_apply(e: &Expr) -> (v: Vec<RuleApplication>)
    ensures
        apps_view(v@) == constant_rule_results(*e),
{
    if constant_rule_applicable(e) {
        single(mk_lit(0), "d/dx(c) = 0 (c does not contain x)")
    } else {
        nothing()
    }
}

/// `d/dx(f + g) = f' + g'`.
pub open spec fn sum_rule_applies(e: Expr) -> bool {
    e matches Expr::Derivative { expr: inner, .. } && (*inner matches Expr::Add(_, _))
}

/// The results of `sum_rule` on `e`, each with its justification.
pub open spec fn sum_rule_results(e: Expr) -> Seq<(Expr, Seq<char>)> {
    match e {
        Expr::Derivative { expr: inner, var } => match *inner {
            Expr::Add(f, g) => one(Expr::Add(Box::new(d(*f, var)), Box::new(d(*g, var))), "d/dx(f + g) = f' + g'"@),
            _ => none(),
        },
        _ => none(),
    }
}

/// Whether [`sum_rule_applies`] holds of `e`.
pub(crate) fn sum_rule_applicable(e: &Expr) -> (r: bool)
    ensures
        r == sum_rule_applies(*e),
{
    match e {
        Expr::Derivative { expr: inner, .. } => match &**inner {
            Expr::Add(_, _) => true,
            _ => false,
        },
        _ => false,
    }
}

/// The results of `sum_rule` on `e`, as [`sum_rule_results`] states.
pub(crate) fn sum_rule_apply(e: &Expr) -> (v: Vec<RuleApplication>)
    ensures
        apps_view(v@) == sum_rule_results(*e),
{
    match e {
        Expr::Derivative { expr: inner, var } => match &**inner {
            Expr::Add(f, g) => single(Expr::Add(Box::new(mk_d(f, *var)), Box::new(mk_d(g, *var))), "d/dx(f + g) = f' + g'"),
            _ => nothing(),
        },
        _ => nothing(),
    }
}

/// `d/dx(fg) = f'g + fg'`.
pub open spec fn product_rule_applies(e: Expr) -> bool {
    e matches Expr::Derivative { expr: inner, .. } && (*inner matches Expr::Mul(_, _))
}

/// The results of `product_rule` on `e`, each with its justification.
pub open spec fn product_rule_results(e: Expr) -> Seq<(Expr, Seq<char>)> {
    match e {
        Expr::Derivative { expr: inner, var } => match *inner {
            Expr::Mul(f, g) => one(
                Expr::Add(
                    Box::new(Expr::Mul(Box::new(d(*f, var)), g)),
                    Box::new(Expr::Mul(f, Box::new(d(*g, var)))),
                ),
                "d/dx(fg) = f'g + fg'"@,
            ),
            _ => none(),
        },
        _ => none(),
    }
}

/// Whether [`product_rule_applies`] holds of `e`.
pub(crate) fn product_rule_applicable(e: &Expr) -> (r: bool)
    ensures
        r == product_rule_applies(*e),
{
    match e {
        Expr::Derivative { expr: inner, .. } => match &**inner {
            Expr::Mul(_, _) => true,
            _ => false,
        },
        _ => false,
    }
}

/// The results of `product_rule` on `e`, as [`product_rule_results`] states.
pub(crate) fn product_rule_apply(e: &Expr) -> (v: Vec<RuleApplication>)
    ensures
        apps_view(v@) == product_rule_results(*e),
{
    match e {
        Expr::Derivative { expr: inner, var } => match &**inner {
            Expr::Mul(f, g) => single(
                Expr::Add(
                    Box::new(Expr::Mul(Box::new(mk_d(f, *var)), bx(g))),
                    Box::new(Expr::Mul(bx(f), Box::new(mk_d(g, *var)))),
                ),
                "d/dx(fg) = f'g + fg'",
            ),
            _ => nothing(),
        },
        _ => nothing(),
    }
}

/// `d/dx(f/g) = (f'g - fg') / g²`.
pub open spec fn quotient_rule_applies(e: Expr) -> bool {
    e matches Expr::Derivative { expr: inner, .. } && (*inner matches Expr::Div(_, _))
}

/// The results of `quotient_rule` on `e`, each with its justification.
pub open spec fn quotient_rule_results(e: Expr) -> Seq<(Expr, Seq<char>)> {
    match e {
        Expr::Derivative { expr: inner, var } => match *inner {
            Expr::Div(f, g) => one(
                Expr::Div(
                    Box::new(Expr::Sub(
                        Box::new(Expr::Mul(Box::new(d(*f, var)), g)),
                        Box::new(Expr::Mul(f, Box::new(d(*g, var)))),
                    )),
                    Box::new(pow_lit(*g, 2)),
                ),
                "d/dx(f/g) = (f'g - fg') / g²"@,
            ),
            _ => none(),
        },
        _ => none(),
    }
}

/// Whether [`quotient_rule_applies`] holds of `e`.
pub(crate) fn quotient_rule_applicable(e: &Expr) -> (r: bool)
    ensures
        r == quotient_rule_applies(*e),
{
    match e {
        Expr::Derivative { expr: inner, .. } => match &**inner {
            Expr::Div(_, _) => true,
            _ => false,
        },
        _ => false,
    }
}

/// The results of `quotient_rule` on `e`, as [`quotient_rule_results`] states.
pub(crate) fn quotient_rule_apply(e: &Expr) -> (v: Vec<RuleApplication>)
    ensures
        apps_view(v@) == quotient_rule_results(*e),
{
    match e {
        Expr::Derivative { expr: inner, var } => match &**inner {
            Expr::Div(f, g) => single(
                Expr::Div(
                    Box::new(Expr::Sub(
                        Box::new(Expr::Mul(Box::new(mk_d(f, *var)), bx(g))),
                        Box::new(Expr::Mul(bx(f), Box::new(mk_d(g, *var)))),
                    )),
                    Box::new(mk_pow(g, 2)),
                ),
                "d/dx(f/g) = (f'g - fg') / g²",
            ),
            _ => nothing(),
        },
        _ => nothing(),
    }
}

/// `d/dx(sin(g)) = cos(g)·g'`, or `cos(x)` when `g` is `x`.
pub open spec fn sin_chain_rule_applies(e: Expr) -> bool {
    e matches Expr::Derivative { expr: inner, var } && (*inner matches Expr::Sin(a) && var_occurs(*a, var))
}

/// The results of `sin_chain_rule` on `e`, each with its justification.
pub open spec fn sin_chain_rule_results(e: Expr) -> Seq<(Expr, Seq<char>)> {
    match e {
        Expr::Derivative { expr: inner, var } => match *inner {
            Expr::Sin(g) => if is_var(*g, var) {
                one(Expr::Cos(g), "d/dx(sin(x)) = cos(x)"@)
            } else {
                one(Expr::Mul(Box::new(Expr::Cos(g)), Box::new(d(*g, var))), "d/dx(sin(g)) = cos(g) * g'"@)
            },
            _ => none(),
        },
        _ => none(),
    }
}

/// Whether [`sin_chain_rule_applies`] holds of `e`.
pub(crate) fn sin_chain_rule_applicable(e: &Expr) -> (r: bool)
    ensures
        r == sin_chain_rule_applies(*e),
{
    match e {
        Expr::Derivative { expr: inner, var } => match &**inner {
            Expr::Sin(a) => contains_var(a, *var),
            _ => false,
        },
        _ => false,
    }
}

/// The results of `sin_chain_rule` on `e`, as [`sin_chain_rule_results`] states.
pub(crate) fn sin_chain_rule_apply(e: &Expr) -> (v: Vec<RuleApplication>)
    ensures
        apps_view(v@) == sin_chain_rule_results(*e),
{
    match e {
        Expr::Derivative { expr: inner, var } => match &**inner {
            Expr::Sin(g) => if is_var_e(g, *var) {
                single(Expr::Cos(bx(g)), "d/dx(sin(x)) = cos(x)")
            } else {
                single(Expr::Mul(Box::new(Expr::Cos(bx(g))), Box::new(mk_d(g, *var))), "d/dx(sin(g)) = cos(g) * g'")
            },
            _ => nothing(),
        },
        _ => nothing(),
    }
}

/// `d/dx(cos(g)) = -sin(g)·g'`, or `-sin(x)` when `g` is `x`.
pub open spec fn cos_chain_rule_applies(e: Expr) -> bool {
    e matches Expr::Derivative { expr: inner, var } && (*inner matches Expr::Cos(a) && var_occurs(*a, var))
}

/// The results of `cos_chain_rule` on `e`, each with its justification.
pub open spec fn cos_chain_rule_results(e: Expr) -> Seq<(Expr, Seq<char>)> {
    match e {
        Expr::Derivative { expr: inner, var } => match *inner {
            Expr::Cos(g) => if is_var(*g, var) {
                one(Expr::Neg(Box::new(Expr::Sin(g))), "d/dx(cos(x)) = -sin(x)"@)
            } else {
                one(
                    Expr::Mul(Box::new(Expr::Neg(Box::new(Expr::Sin(g)))), Box::new(d(*g, var))),
                    "d/dx(cos(g)) = -sin(g) * g'"@,
                )
            },
            _ => none(),
        },
        _ => none(),
    }
}

/// Whether [`cos_chain_rule_applies`] holds of `e`.
pub(crate) fn cos_chain_rule_applicable(e: &Expr) -> (r: bool)
    ensures
        r == cos_chain_rule_applies(*e),
{
    match e {
        Expr::Derivative { expr: inner, var } => match &**inner {
            Expr::Cos(a) => contains_var(a, *var),
            _ => false,
        },
        _ => false,
    }
}

/// The results of `cos_chain_rule` on `e`, as [`cos_chain_rule_results`] states.
pub(crate) fn cos_chain_rule_apply(e: &Expr) -> (v: Vec<RuleApplication>)
    ensures
        apps_view(v@) == cos_chain_rule_results(*e),
{
    match e {
        Expr::Derivative { expr: inner, var } => match &**inner {
            Expr::Cos(g) => if is_var_e(g, *var) {
                single(Expr::Neg(Box::new(Expr::Sin(bx(g)))), "d/dx(cos(x)) = -sin(x)")
            } else {
                single(
                    Expr::Mul(Box::new(Expr::Neg(Box::new(Expr::Sin(bx(g))))), Box::new(mk_d(g, *var))),
                    "d/dx(cos(g)) = -sin(g) * g'",
                )
            },
            _ => nothing(),
        },
        _ => nothing(),
    }
}

/// `d/dx(e^x) = e^x`.
pub open spec fn exp_derivative_applies(e: Expr) -> bool {
    e matches Expr::Derivative { expr: inner, var } && (*inner matches Expr::Exp(a) && is_var(*a, var))
}

/// The results of `exp_derivative` on `e`, each with its justification.
pub open spec fn exp_derivative_results(e: Expr) -> Seq<(Expr, Seq<char>)> {
    match e {
        Expr::Derivative { expr: inner, var } => if exp_derivative_applies(e) {
            one(*inner, "d/dx(e^x) = e^x"@)
        } else {
            none()
        },
        _ => none(),
    }
}

/// Whether [`exp_derivative_applies`] holds of `e`.
pub(crate) fn exp_derivative_applicable(e: &Expr) -> (r: bool)
    ensures
        r == exp_derivative_applies(*e),
{
    match e {
        Expr::Derivative { expr: inner, var } => match &**inner {
            Expr::Exp(a) => is_var_e(a, *var),
            _ => false,
        },
        _ => false,
    }
}

/// The results of `exp_derivative` on `e`, as [`exp_derivative_results`] states.
pub(crate) fn exp_derivative_apply(e: &Expr) -> (v: Vec<RuleApplication>)
    ensures
        apps_view(v@) == exp_derivative_results(*e),
{
    match e {
        Expr::Derivative { expr: inner, .. } => if exp_derivative_applicable(e) {
            single(copy_expr(inner), "d/dx(e^x) = e^x")
        } else {
            nothing()
        },
        _ => nothing(),
    }
}

/// `d/dx(ln(x)) = 1/x`.
pub open spec fn ln_derivative_applies(e: Expr) -> bool {
    e matches Expr::Derivative { expr: inner, var } && (*inner matches Expr::Ln(a) && is_var(*a, var))
}

/// The results of `ln_derivative` on `e`, each with its justification.
pub open spec fn ln_derivative_results(e: Expr) -> Seq<(Expr, Seq<char>)> {
    match e {
        Expr::Derivative { var, .. } => if ln_derivative_applies(e) {
            one(Expr::Div(Box::new(lit(1)), Box::new(Expr::Var(var))), "d/dx(ln(x)) = 1/x"@)
        } else {
            none()
        },
        _ => none(),
    }
}

/// Whether [`ln_derivative_applies`] holds of `e`.
pub(crate) fn ln_derivative_applicable(e: &Expr) -> (r: bool)
    ensures
        r == ln_derivative_applies(*e),
{
    match e {
        Expr::Derivative { expr: inner, var } => match &**inner {
            Expr::Ln(a) => is_var_e(a, *var),
            _ => false,
        },
        _ => false,
    }
}

/// The results of `ln_derivative` on `e`, as [`ln_derivative_results`] states.
pub(crate) fn ln_derivative_apply(e: &Expr) -> (v: Vec<RuleApplication>)
    ensures
        apps_view(v@) == ln_derivative_results(*e),
{
    match e {
        Expr::Derivative { var, .. } => if ln_derivative_applicable(e) {
            single(Expr::Div(Box::new(mk_lit(1)), Box::new(Expr::Var(*var))), "d/dx(ln(x)) = 1/x")
        } else {
            nothing()
        },
        _ => nothing(),
    }
}

// ---------------------------------------------------------------------------
// Chain rules and further derivatives
// ---------------------------------------------------------------------------

/// `d/dx(tan(g)) = g'/cos²(g)`, when the search targets `x` or nothing.
pub open spec fn chain_rule_tan_applies(e: Expr, target: Option<Symbol>) -> bool {
    e matches Expr::Derivative { expr: inner, var } && (*inner matches Expr::Tan(_)) && target_ok(target, var)
}

/// The results of `chain_rule_tan` on `e`, each with its justification.
pub open spec fn chain_rule_tan_results(e: Expr) -> Seq<(Expr, Seq<char>)> {
    match e {
        Expr::Derivative { expr: inner, var } => match *inner {
            Expr::Tan(g) => one(
                Expr::Div(Box::new(d(*g, var)), Box::new(pow_lit(Expr::Cos(g), 2))),
                "d/dx(tan(g)) = g'/cos²(g)"@,
            ),
            _ => none(),
        },
        _ => none(),
    }
}

/// Whether [`chain_rule_tan_applies`] holds of `e`.
pub(crate) fn chain_rule_tan_applicable(e: &Expr, target: Option<Symbol>) -> (r: bool)
    ensures
        r == chain_rule_tan_applies(*e, target),
{
    match e {
        Expr::Derivative { expr: inner, var } => match &**inner {
            Expr::Tan(_) => target_ok_e(target, *var),
            _ => false,
        },
        _ => false,
    }
}

/// The results of `chain_rule_tan` on `e`, as [`chain_rule_tan_results`] states.
pub(crate) fn chain_rule_tan_apply(e: &Expr) -> (v: Vec<RuleApplication>)
    ensures
        apps_view(v@) == chain_rule_tan_results(*e),
{
    match e {
        Expr::Derivative { expr: inner, var } => match &**inner {
            Expr::Tan(g) => single(
                Expr::Div(Box::new(mk_d(g, *var)), Box::new(mk_pow(&Expr::Cos(bx(g)), 2))),
                "d/dx(tan(g)) = g'/cos²(g)",
            ),
            _ => nothing(),
        },
        _ => nothing(),
    }
}

/// `d/dx(e^g) = e^g·g'`, when the search targets `x` or nothing.
pub open spec fn chain_rule_exp_applies(e: Expr, target: Option<Symbol>) -> bool {
    e matches Expr::Derivative { expr: inner, var } && (*inner matches Expr::Exp(_)) && target_ok(target, var)
}

/// The results of `chain_rule_exp` on `e`, each with its justification.
pub open spec fn chain_rule_exp_results(e: Expr) -> Seq<(Expr, Seq<char>)> {
    match e {
        Expr::Derivative { expr: inner, var } => match *inner {
            Expr::Exp(g) => one(Expr::Mul(Box::new(Expr::Exp(g)), Box::new(d(*g, var))), "d/dx(e^g) = e^g * g'"@),
            _ => none(),
        },
        _ => none(),
    }
}

/// Whether [`chain_rule_exp_applies`] holds of `e`.
pub(crate) fn chain_rule_exp_applicable(e: &Expr, target: Option<Symbol>) -> (r: bool)
    ensures
        r == chain_rule_exp_applies(*e, target),
{
    match e {
        Expr::Derivative { expr: inner, var } => match &**inner {
            Expr::Exp(_) => target_ok_e(target, *var),
            _ => false,
        },
        _ => false,
    }
}

/// The results of `chain_rule_exp` on `e`, as [`chain_rule_exp_results`] states.
pub(crate) fn chain_rule_exp_apply(e: &Expr) -> (v: Vec<RuleApplication>)
    ensures
        apps_view(v@) == chain_rule_exp_results(*e),
{
    match e {
        Expr::Derivative { expr: inner, var } => match &**inner {
            Expr::Exp(g) => single(Expr::Mul(Box::new(Expr::Exp(bx(g))), Box::new(mk_d(g, *var))), "d/dx(e^g) = e^g * g'"),
            _ => nothing(),
        },
        _ => nothing(),
    }
}

/// `d/dx(ln(g)) = g'/g`, when the search targets `x` or nothing.
pub open spec fn chain_rule_ln_applies(e: Expr, target: Option<Symbol>) -> bool {
    e matches Expr::Derivative { expr: inner, var } && (*inner matches Expr::Ln(_)) && target_ok(target, var)
}

/// The results of `chain_rule_ln` on `e`, each with its justification.
pub open spec fn chain_rule_ln_results(e: Expr) -> Seq<(Expr, Seq<char>)> {
    match e {
        Expr::Derivative { expr: inner, var } => match *inner {
            Expr::Ln(g) => one(Expr::Div(Box::new(d(*g, var)), g), "d/dx(ln(g)) = g'/g"@),
            _ => none(),
        },
        _ => none(),
    }
}

/// Whether [`chain_rule_ln_applies`] holds of `e`.
pub(crate) fn chain_rule_ln_applicable(e: &Expr, target: Option<Symbol>) -> (r: bool)
    ensures
        r == chain_rule_ln_applies(*e, target),
{
    match e {
        Expr::Derivative { expr: inner, var } => match &**inner {
            Expr::Ln(_) => target_ok_e(target, *var),
            _ => false,
        },
        _ => false,
    }
}

/// The results of `chain_rule_ln` on `e`, as [`chain_rule_ln_results`] states.
pub(crate) fn chain_rule_ln_apply(e: &Expr) -> (v: Vec<RuleApplication>)
    ensures
        apps_view(v@) == chain_rule_ln_results(*e),
{
    match e {
        Expr::Derivative { expr: inner, var } => match &**inner {
            Expr::Ln(g) => single(Expr::Div(Box::new(mk_d(g, *var)), bx(g)), "d/dx(ln(g)) = g'/g"),
            _ => nothing(),
        },
        _ => nothing(),
    }
}

/// `d/dx(arcsin(x)) = 1/√(1-x²)`, offered on the derivative of `arcsin(x)`
/// with respect to `x` itself, when the search targets `x`.
pub open spec fn inverse_trig_deriv_arcsin_applies(e: Expr, target: Option<Symbol>) -> bool {
    e matches Expr::Derivative { expr: inner, var } && (*inner matches Expr::Arcsin(u) && is_var(*u, var))
        && target == Some(var)
}

/// The results of `inverse_trig_deriv_arcsin` on `e`, each with its justification.
pub open spec fn inverse_trig_deriv_arcsin_results(e: Expr) -> Seq<(Expr, Seq<char>)> {
    match e {
        Expr::Derivative { expr: inner, var } => match *inner {
            Expr::Arcsin(u) => if is_var(*u, var) {
                one(
                    Expr::Div(Box::new(lit(1)), Box::new(Expr::Sqrt(Box::new(Expr::Sub(Box::new(lit(1)), Box::new(pow_lit(*u, 2))))))),
                    "d/dx(arcsin(x)) = 1/√(1-x²)"@,
                )
            } else {
                none()
            },
            _ => none(),
        },
        _ => none(),
    }
}

/// Whether [`inverse_trig_deriv_arcsin_applies`] holds of `e`.
pub(crate) fn inverse_trig_deriv_arcsin_applicable(e: &Expr, target: Option<Symbol>) -> (r: bool)
    ensures
        r == inverse_trig_deriv_arcsin_applies(*e, target),
{
    match e {
        Expr::Derivative { expr: inner, var } => match (&**inner, target) {
            (Expr::Arcsin(u), Some(t)) => t.0 == var.0 && is_var_e(u, *var),
            _ => false,
        },
        _ => false,
    }
}

/// The results of `inverse_trig_deriv_arcsin` on `e`, as [`inverse_trig_deriv_arcsin_results`] states.
pub(crate) fn inverse_trig_deriv_arcsin_apply(e: &Expr) -> (v: Vec<RuleApplication>)
    ensures
        apps_view(v@) == inverse_trig_deriv_arcsin_results(*e),
{
    match e {
        Expr::Derivative { expr: inner, var } => match &**inner {
            Expr::Arcsin(u) => if is_var_e(u, *var) {
                single(
                    Expr::Div(Box::new(mk_lit(1)), Box::new(Expr::Sqrt(Box::new(Expr::Sub(Box::new(mk_lit(1)), Box::new(mk_pow(u, 2))))))),
                    "d/dx(arcsin(x)) = 1/√(1-x²)",
                )
            } else {
                nothing()
            },
            _ => nothing(),
        },
        _ => nothing(),
    }
}

/// `d/dx(f - g) = f' - g'`, when the search targets `x` or nothing.
pub open spec fn diff_rule_applies(e: Expr, target: Option<Symbol>) -> bool {
    e matches Expr::Derivative { expr: inner, var } && (*inner matches Expr::Sub(_, _)) && target_ok(target, var)
}

/// The results of `diff_rule` on `e`, each with its justification.
pub open spec fn diff_rule_results(e: Expr) -> Seq<(Expr, Seq<char>)> {
    match e {
        Expr::Derivative { expr: inner, var } => match *inner {
            Expr::Sub(f, g) => one(Expr::Sub(Box::new(d(*f, var)), Box::new(d(*g, var))), "d/dx(f - g) = f' - g'"@),
            _ => none(),
        },
        _ => none(),
    }
}

/// Whether [`diff_rule_applies`] holds of `e`.
pub(crate) fn diff_rule_applicable(e: &Expr, target: Option<Symbol>) -> (r: bool)
    ensures
        r == diff_rule_applies(*e, target),
{
    match e {
        Expr::Derivative { expr: inner, var } => match &**inner {
            Expr::Sub(_, _) => target_ok_e(target, *var),
            _ => false,
        },
        _ => false,
    }
}

/// The results of `diff_rule` on `e`, as [`diff_rule_results`] states.
pub(crate) fn diff_rule_apply(e: &Expr) -> (v: Vec<RuleApplication>)
    ensures
        apps_view(v@) == diff_rule_results(*e),
{
    match e {
        Expr::Derivative { expr: inner, var } => match &**inner {
            Expr::Sub(f, g) => single(Expr::Sub(Box::new(mk_d(f, *var)), Box::new(mk_d(g, *var))), "d/dx(f - g) = f' - g'"),
            _ => nothing(),
        },
        _ => nothing(),
    }
}

/// `d/dx(c·f) = c·f'` for a constant `c`, when the search targets `x` or nothing.
pub open spec fn constant_multiple_rule_applies(e: Expr, target: Option<Symbol>) -> bool {
    e matches Expr::Derivative { expr: inner, var } && (*inner matches Expr::Mul(c, _) && (*c matches Expr::Const(_)))
        && target_ok(target, var)
}

/// The results of `constant_multiple_rule` on `e`, each with its justification.
pub open spec fn constant_multiple_rule_results(e: Expr) -> Seq<(Expr, Seq<char>)> {
    match e {
        Expr::Derivative { expr: inner, var } => match *inner {
            Expr::Mul(c, f) => if *c matches Expr::Const(_) {
                one(Expr::Mul(c, Box::new(d(*f, var))), "d/dx(c*f) = c*f'"@)
            } else {
                none()
            },
            _ => none(),
        },
        _ => none(),
    }
}

/// Whether [`constant_multiple_rule_applies`] holds of `e`.
pub(crate) fn constant_multiple_rule_applicable(e: &Expr, target: Option<Symbol>) -> (r: bool)
    ensures
        r == constant_multiple_rule_applies(*e, target),
{
    match e {
        Expr::Derivative { expr: inner, var } => match &**inner {
            Expr::Mul(c, _) => match &**c {
                Expr::Const(_) => target_ok_e(target, *var),
                _ => false,
            },
            _ => false,
        },
        _ => false,
    }
}

/// The results of `constant_multiple_rule` on `e`, as [`constant_multiple_rule_results`] states.
pub(crate) fn constant_multiple_rule_apply(e: &Expr) -> (v: Vec<RuleApplication>)
    ensures
        apps_view(v@) == constant_multiple_rule_results(*e),
{
    match e {
        Expr::Derivative { expr: inner, var } => match &**inner {
            Expr::Mul(c, f) => match &**c {
                Expr::Const(_) => single(Expr::Mul(bx(c), Box::new(mk_d(f, *var))), "d/dx(c*f) = c*f'"),
                _ => nothing(),
            },
            _ => nothing(),
        },
        _ => nothing(),
    }
}

/// `d/dx(a^x) = a^x·ln(a)` for a base free of `x`.
pub open spec fn constant_base_exp_simple_applies(e: Expr) -> bool {
    e matches Expr::Derivative { expr: inner, var } && (*inner matches Expr::Pow(b, x) && !var_occurs(*b, var)
        && is_var(*x, var))
}

/// The results of `constant_base_exp_simple` on `e`, each with its justification.
pub open spec fn constant_base_exp_simple_results(e: Expr) -> Seq<(Expr, Seq<char>)> {
    match e {
        Expr::Derivative { expr: inner, .. } => match *inner {
            Expr::Pow(b, _) => one(Expr::Mul(inner, Box::new(Expr::Ln(b))), "d/dx(a^x) = a^x·ln(a)"@),
            _ => none(),
        },
        _ => none(),
    }
}

/// Whether [`constant_base_exp_simple_applies`] holds of `e`.
pub(crate) fn constant_base_exp_simple_applicable(e: &Expr) -> (r: bool)
    ensures
        r == constant_base_exp_simple_applies(*e),
{
    match e {
        Expr::Derivative { expr: inner, var } => match &**inner {
            Expr::Pow(b, x) => !contains_var(b, *var) && is_var_e(x, *var),
            _ => false,
        },
        _ => false,
    }
}

/// The results of `constant_base_exp_simple` on `e`, as [`constant_base_exp_simple_results`] states.
pub(crate) fn constant_base_exp_simple_apply(e: &Expr) -> (v: Vec<RuleApplication>)
    ensures
        apps_view(v@) == constant_base_exp_simple_results(*e),
{
    match e {
        Expr::Derivative { expr: inner, .. } => match &**inner {
            Expr::Pow(b, _) => single(Expr::Mul(bx(inner), Box::new(Expr::Ln(bx(b)))), "d/dx(a^x) = a^x·ln(a)"),
            _ => nothing(),
        },
        _ => nothing(),
    }
}

/// `d/dx(a^f) = a^f·ln(a)·f'` for a base free of `x` and an exponent that
/// contains `x` and is not `x` itself.
pub open spec fn constant_base_exp_chain_applies(e: Expr) -> bool {
    e matches Expr::Derivative { expr: inner, var } && (*inner matches Expr::Pow(b, x) && !var_occurs(*b, var)
        && var_occurs(*x, var) && !(*x matches Expr::Var(_)))
}

/// The results of `constant_base_exp_chain` on `e`, each with its justification.
pub open spec fn constant_base_exp_chain_results(e: Expr) -> Seq<(Expr, Seq<char>)> {
    match e {
        Expr::Derivative { expr: inner, var } => match *inner {
            Expr::Pow(b, x) => one(
                Expr::Mul(Box::new(Expr::Mul(inner, Box::new(Expr::Ln(b)))), Box::new(d(*x, var))),
                "d/dx(a^f) = a^f·ln(a)·f'"@,
            ),
            _ => none(),
        },
        _ => none(),
    }
}

/// Whether [`constant_base_exp_chain_applies`] holds of `e`.
pub(crate) fn constant_base_exp_chain_applicable(e: &Expr) -> (r: bool)
    ensures
        r == constant_base_exp_chain_applies(*e),
{
    match e {
        Expr::Derivative { expr: inner, var } => match &**inner {
            Expr::Pow(b, x) => !contains_var(b, *var) && contains_var(x, *var) && match &**x {
                Expr::Var(_) => false,
                _ => true,
            },
            _ => false,
        },
        _ => false,
    }
}

/// The results of `constant_base_exp_chain` on `e`, as [`constant_base_exp_chain_results`] states.
pub(crate) fn constant_base_exp_chain_apply(e: &Expr) -> (v: Vec<RuleApplication>)
    ensures
        apps_view(v@) == constant_base_exp_chain_results(*e),
{
    match e {
        Expr::Derivative { expr: inner, var } => match &**inner {
            Expr::Pow(b, x) => single(
                Expr::Mul(Box::new(Expr::Mul(bx(inner), Box::new(Expr::Ln(bx(b))))), Box::new(mk_d(x, *var))),
                "d/dx(a^f) = a^f·ln(a)·f'",
            ),
            _ => nothing(),
        },
        _ => nothing(),
    }
}

/// `d/dx(√f) = f'/(2√f)` for an `f` that contains `x`.
pub open spec fn sqrt_chain_rule_applies(e: Expr) -> bool {
    e matches Expr::Derivative { expr: inner, var } && (*inner matches Expr::Sqrt(a) && var_occurs(*a, var))
}

/// The results of `sqrt_chain_rule` on `e`, each with its justification.
pub open spec fn sqrt_chain_rule_results(e: Expr) -> Seq<(Expr, Seq<char>)> {
    match e {
        Expr::Derivative { expr: inner, var } => match *inner {
            Expr::Sqrt(f) => one(
                Expr::Div(Box::new(d(*f, var)), Box::new(Expr::Mul(Box::new(lit(2)), Box::new(Expr::Sqrt(f))))),
                "d/dx(√f) = f'/(2√f)"@,
            ),
            _ => none(),
        },
        _ => none(),
    }
}

/// Whether [`sqrt_chain_rule_applies`] holds of `e`.
pub(crate) fn sqrt_chain_rule_applicable(e: &Expr) -> (r: bool)
    ensures
        r == sqrt_chain_rule_applies(*e),
{
    match e {
        Expr::Derivative { expr: inner, var } => match &**inner {
            Expr::Sqrt(a) => contains_var(a, *var),
            _ => false,
        },
        _ => false,
    }
}

/// The results of `sqrt_chain_rule` on `e`, as [`sqrt_chain_rule_results`] states.
pub(crate) fn sqrt_chain_rule_apply(e: &Expr) -> (v: Vec<RuleApplication>)
    ensures
        apps_view(v@) == sqrt_chain_rule_results(*e),
{
    match e {
        Expr::Derivative { expr: inner, var } => match &**inner {
            Expr::Sqrt(f) => single(
                Expr::Div(Box::new(mk_d(f, *var)), Box::new(Expr::Mul(Box::new(mk_lit(2)), Box::new(Expr::Sqrt(bx(f)))))),
                "d/dx(√f) = f'/(2√f)",
            ),
            _ => nothing(),
        },
        _ => nothing(),
    }
}

/// `d/dx(f^n) = n·f^(n-1)·f'` for a base that contains `x` and is not `x`
/// itself, and an exponent free of `x`; a result only for a constant
/// exponent `n` whose `n - 1` fits.
pub open spec fn general_power_rule_applies(e: Expr) -> bool {
    e matches Expr::Derivative { expr: inner, var } && (*inner matches Expr::Pow(b, x) && var_occurs(*b, var)
        && !var_occurs(*x, var) && !(*b matches Expr::Var(_)))
}

/// The results of `general_power_rule` on `e`, each with its justification.
pub open spec fn general_power_rule_results(e: Expr) -> Seq<(Expr, Seq<char>)> {
    match e {
        Expr::Derivative { expr: inner, var } => match *inner {
            Expr::Pow(f, n) => match *n {
                Expr::Const(c) => {
                    let m = rsub(c.pair(), (1, 1));
                    if fits(m) {
                        one(
                            Expr::Mul(
                                Box::new(Expr::Mul(n, Box::new(Expr::Pow(f, Box::new(Expr::Const(rat(m))))))),
                                Box::new(d(*f, var)),
                            ),
                            "d/dx(f^n) = n·f^(n-1)·f'"@,
                        )
                    } else {
                        none()
                    }
                },
                _ => none(),
            },
            _ => none(),
        },
        _ => none(),
    }
}

/// Whether [`general_power_rule_applies`] holds of `e`.
pub(crate) fn general_power_rule_applicable(e: &Expr) -> (r: bool)
    ensures
        r == general_power_rule_applies(*e),
{
    match e {
        Expr::Derivative { expr: inner, var } => match &**inner {
            Expr::Pow(b, x) => contains_var(b, *var) && !contains_var(x, *var) && match &**b {
                Expr::Var(_) => false,
                _ => true,
            },
            _ => false,
        },
        _ => false,
    }
}

/// The results of `general_power_rule` on `e`, as [`general_power_rule_results`] states.
pub(crate) fn general_power_rule_apply(e: &Expr) -> (v: Vec<RuleApplication>)
    ensures
        apps_view(v@) == general_power_rule_results(*e),
{
    match e {
        Expr::Derivative { expr: inner, var } => match &**inner {
            Expr::Pow(f, n) => match &**n {
                Expr::Const(c) => match minus_one(c) {
                    Some(m) => {
                        proof {
                            crate::rational::lemma_rat_pair(m);
                        }
                        single(
                            Expr::Mul(
                                Box::new(Expr::Mul(bx(n), Box::new(Expr::Pow(bx(f), Box::new(Expr::Const(m)))))),
                                Box::new(mk_d(f, *var)),
                            ),
                            "d/dx(f^n) = n·f^(n-1)·f'",
                        )
                    },
                    None => nothing(),
                },
                _ => nothing(),
            },
            _ => nothing(),
        },
        _ => nothing(),
    }
}

/// `d/dx(ln(x)/ln(a)) = 1/(x·ln(a))`: the derivative of `log_a(x)` for a base
/// free of `x`.
pub open spec fn log_base_simple_applies(e: Expr) -> bool {
    e matches Expr::Derivative { expr: inner, var } && (*inner matches Expr::Div(num, den)
        && (*num matches Expr::Ln(a) && is_var(*a, var)) && (*den matches Expr::Ln(b) && !var_occurs(*b, var)))
}

/// The results of `log_base_simple` on `e`, each with its justification.
pub open spec fn log_base_simple_results(e: Expr) -> Seq<(Expr, Seq<char>)> {
    match e {
        Expr::Derivative { expr: inner, .. } => match *inner {
            Expr::Div(num, den) => match (*num, *den) {
                (Expr::Ln(a), Expr::Ln(_)) => if *a matches Expr::Var(_) {
                    one(Expr::Div(Box::new(lit(1)), Box::new(Expr::Mul(a, den))), "d/dx(log_a(x)) = 1/(x·ln(a))"@)
                } else {
                    none()
                },
                _ => none(),
            },
            _ => none(),
        },
        _ => none(),
    }
}

/// Whether [`log_base_simple_applies`] holds of `e`.
pub(crate) fn log_base_simple_applicable(e: &Expr) -> (r: bool)
    ensures
        r == log_base_simple_applies(*e),
{
    match e {
        Expr::Derivative { expr: inner, var } => match &**inner {
            Expr::Div(num, den) => match (&**num, &**den) {
                (Expr::Ln(a), Expr::Ln(b)) => is_var_e(a, *var) && !contains_var(b, *var),
                _ => false,
            },
            _ => false,
        },
        _ => false,
    }
}

/// The results of `log_base_simple` on `e`, as [`log_base_simple_results`] states.
pub(crate) fn log_base_simple_apply(e: &Expr) -> (v: Vec<RuleApplication>)
    ensures
        apps_view(v@) == log_base_simple_results(*e),
{
    match e {
        Expr::Derivative { expr: inner, .. } => match &**inner {
            Expr::Div(num, den) => match (&**num, &**den) {
                (Expr::Ln(a), Expr::Ln(_)) => match &**a {
                    Expr::Var(_) => single(
                        Expr::Div(Box::new(mk_lit(1)), Box::new(Expr::Mul(bx(a), bx(den)))),
                        "d/dx(log_a(x)) = 1/(x·ln(a))",
                    ),
                    _ => nothing(),
                },
                _ => nothing(),
            },
            _ => nothing(),
        },
        _ => nothing(),
    }
}

/// `d/dx(ln(f)/ln(a)) = f'/(f·ln(a))`: the derivative of `log_a(f)` for an
/// `f` that contains `x` and is not `x` itself, and a base free of `x`.
pub open spec fn log_base_chain_applies(e: Expr) -> bool {
    e matches Expr::Derivative { expr: inner, var } && (*inner matches Expr::Div(num, den)
        && (*num matches Expr::Ln(a) && var_occurs(*a, var) && !(*a matches Expr::Var(_)))
        && (*den matches Expr::Ln(b) && !var_occurs(*b, var)))
}

/// The results of `log_base_chain` on `e`, each with its justification.
pub open spec fn log_base_chain_results(e: Expr) -> Seq<(Expr, Seq<char>)> {
    match e {
        Expr::Derivative { expr: inner, var } => match *inner {
            Expr::Div(num, den) => match (*num, *den) {
                (Expr::Ln(f), Expr::Ln(_)) => one(
                    Expr::Div(Box::new(d(*f, var)), Box::new(Expr::Mul(f, den))),
                    "d/dx(log_a(f)) = f'/(f·ln(a))"@,
                ),
                _ => none(),
            },
            _ => none(),
        },
        _ => none(),
    }
}

/// Whether [`log_base_chain_applies`] holds of `e`.
pub(crate) fn log_base_chain_applicable(e: &Expr) -> (r: bool)
    ensures
        r == log_base_chain_applies(*e),
{
    match e {
        Expr::Derivative { expr: inner, var } => match &**inner {
            Expr::Div(num, den) => match (&**num, &**den) {
                (Expr::Ln(a), Expr::Ln(b)) => contains_var(a, *var) && !contains_var(b, *var) && match &**a {
                    Expr::Var(_) => false,
                    _ => true,
                },
                _ => false,
            },
            _ => false,
        },
        _ => false,
    }
}

/// The results of `log_base_chain` on `e`, as [`log_base_chain_results`] states.
pub(crate) fn log_base_chain_apply(e: &Expr) -> (v: Vec<RuleApplication>)
    ensures
        apps_view(v@) == log_base_chain_results(*e),
{
    match e {
        Expr::Derivative { expr: inner, var } => match &**inner {
            Expr::Div(num, den) => match (&**num, &**den) {
                (Expr::Ln(f), Expr::Ln(_)) => single(
                    Expr::Div(Box::new(mk_d(f, *var)), Box::new(Expr::Mul(bx(f), bx(den)))),
                    "d/dx(log_a(f)) = f'/(f·ln(a))",
                ),
                _ => nothing(),
            },
            _ => nothing(),
        },
        _ => nothing(),
    }
}

// ---------------------------------------------------------------------------
// Reciprocal and inverse trigonometric functions
// ---------------------------------------------------------------------------

/// `d/dx(1/cos(f)) = f'·sin(f)/cos²(f)`, the derivative of `sec(f)`, for an `f` that contains `x`.
pub open spec fn sec_derivative_applies(e: Expr) -> bool {
    e matches Expr::Derivative { expr: inner, var } && (*inner matches Expr::Div(n, den) && is_lit(*n, 1)
        && (*den matches Expr::Cos(a) && var_occurs(*a, var)))
}

/// The results of `sec_derivative` on `e`, each with its justification.
pub open spec fn sec_derivative_results(e: Expr) -> Seq<(Expr, Seq<char>)> {
    match e {
        Expr::Derivative { expr: inner, var } => match *inner {
            Expr::Div(_, den) => match *den {
                Expr::Cos(f) => one(
                    Expr::Div(Box::new(Expr::Mul(Box::new(d(*f, var)), Box::new(Expr::Sin(f)))), Box::new(pow_lit(Expr::Cos(f), 2))),
                    "d/dx(sec(f)) = f'·sec(f)·tan(f)"@,
                ),
                _ => none(),
            },
            _ => none(),
        },
        _ => none(),
    }
}

/// Whether [`sec_derivative_applies`] holds of `e`.
pub(crate) fn sec_derivative_applicable(e: &Expr) -> (r: bool)
    ensures
        r == sec_derivative_applies(*e),
{
    match e {
        Expr::Derivative { expr: inner, var } => match &**inner {
            Expr::Div(n, den) => match &**den {
                Expr::Cos(a) => is_lit_e(n, 1) && contains_var(a, *var),
                _ => false,
            },
            _ => false,
        },
        _ => false,
    }
}

/// The results of `sec_derivative` on `e`, as [`sec_derivative_results`] states.
pub(crate) fn sec_derivative_apply(e: &Expr) -> (v: Vec<RuleApplication>)
    ensures
        apps_view(v@) == sec_derivative_results(*e),
{
    match e {
        Expr::Derivative { expr: inner, var } => match &**inner {
            Expr::Div(_, den) => match &**den {
                Expr::Cos(f) => single(
                    Expr::Div(Box::new(Expr::Mul(Box::new(mk_d(f, *var)), Box::new(Expr::Sin(bx(f))))), Box::new(mk_pow(&Expr::Cos(bx(f)), 2))),
                    "d/dx(sec(f)) = f'·sec(f)·tan(f)",
                ),
                _ => nothing(),
            },
            _ => nothing(),
        },
        _ => nothing(),
    }
}

/// `d/dx(1/sin(f)) = -f'·cos(f)/sin²(f)`, the derivative of `csc(f)`, for an `f` that contains `x`.
pub open spec fn csc_derivative_applies(e: Expr) -> bool {
    e matches Expr::Derivative { expr: inner, var } && (*inner matches Expr::Div(n, den) && is_lit(*n, 1)
        && (*den matches Expr::Sin(a) && var_occurs(*a, var)))
}

/// The results of `csc_derivative` on `e`, each with its justification.
pub open spec fn csc_derivative_results(e: Expr) -> Seq<(Expr, Seq<char>)> {
    match e {
        Expr::Derivative { expr: inner, var } => match *inner {
            Expr::Div(_, den) => match *den {
                Expr::Sin(f) => one(
                    Expr::Neg(Box::new(Expr::Div(Box::new(Expr::Mul(Box::new(d(*f, var)), Box::new(Expr::Cos(f)))), Box::new(pow_lit(Expr::Sin(f), 2))))),
                    "d/dx(csc(f)) = -f'·csc(f)·cot(f)"@,
                ),
                _ => none(),
            },
            _ => none(),
        },
        _ => none(),
    }
}

/// Whether [`csc_derivative_applies`] holds of `e`.
pub(crate) fn csc_derivative_applicable(e: &Expr) -> (r: bool)
    ensures
        r == csc_derivative_applies(*e),
{
    match e {
        Expr::Derivative { expr: inner, var } => match &**inner {
            Expr::Div(n, den) => match &**den {
                Expr::Sin(a) => is_lit_e(n, 1) && contains_var(a, *var),
                _ => false,
            },
            _ => false,
        },
        _ => false,
    }
}

/// The results of `csc_derivative` on `e`, as [`csc_derivative_results`] states.
pub(crate) fn csc_derivative_apply(e: &Expr) -> (v: Vec<RuleApplication>)
    ensures
        apps_view(v@) == csc_derivative_results(*e),
{
    match e {
        Expr::Derivative { expr: inner, var } => match &**inner {
            Expr::Div(_, den) => match &**den {
                Expr::Sin(f) => single(
                    Expr::Neg(Box::new(Expr::Div(Box::new(Expr::Mul(Box::new(mk_d(f, *var)), Box::new(Expr::Cos(bx(f))))), Box::new(mk_pow(&Expr::Sin(bx(f)), 2))))),
                    "d/dx(csc(f)) = -f'·csc(f)·cot(f)",
                ),
                _ => nothing(),
            },
            _ => nothing(),
        },
        _ => nothing(),
    }
}

/// `d/dx(cos(f)/sin(f)) = -f'/sin²(f)`, the derivative of `cot(f)`, for an `f` that contains `x`.
pub open spec fn cot_derivative_applies(e: Expr) -> bool {
    e matches Expr::Derivative { expr: inner, var } && (*inner matches Expr::Div(num, den)
        && (*num matches Expr::Cos(a1) && (*den matches Expr::Sin(a2) && a1 == a2 && var_occurs(*a1, var))))
}

/// The results of `cot_derivative` on `e`, each with its justification.
pub open spec fn cot_derivative_results(e: Expr) -> Seq<(Expr, Seq<char>)> {
    match e {
        Expr::Derivative { expr: inner, var } => match *inner {
            Expr::Div(num, _) => match *num {
                Expr::Cos(f) => one(
                    Expr::Neg(Box::new(Expr::Div(Box::new(d(*f, var)), Box::new(pow_lit(Expr::Sin(f), 2))))),
                    "d/dx(cot(f)) = -f'/sin²(f)"@,
                ),
                _ => none(),
            },
            _ => none(),
        },
        _ => none(),
    }
}

/// Whether [`cot_derivative_applies`] holds of `e`.
pub(crate) fn cot_derivative_applicable(e: &Expr) -> (r: bool)
    ensures
        r == cot_derivative_applies(*e),
{
    match e {
        Expr::Derivative { expr: inner, var } => match &**inner {
            Expr::Div(num, den) => match (&**num, &**den) {
                (Expr::Cos(a1), Expr::Sin(a2)) => expr_eq(a1, a2) && contains_var(a1, *var),
                _ => false,
            },
            _ => false,
        },
        _ => false,
    }
}

/// The results of `cot_derivative` on `e`, as [`cot_derivative_results`] states.
pub(crate) fn cot_derivative_apply(e: &Expr) -> (v: Vec<RuleApplication>)
    ensures
        apps_view(v@) == cot_derivative_results(*e),
{
    match e {
        Expr::Derivative { expr: inner, var } => match &**inner {
            Expr::Div(num, _) => match &**num {
                Expr::Cos(f) => single(
                    Expr::Neg(Box::new(Expr::Div(Box::new(mk_d(f, *var)), Box::new(mk_pow(&Expr::Sin(bx(f)), 2))))),
                    "d/dx(cot(f)) = -f'/sin²(f)",
                ),
                _ => nothing(),
            },
            _ => nothing(),
        },
        _ => nothing(),
    }
}

/// `d/dx(arcsin(f)) = f'/√(1-f²)` for an `f` that contains `x`.
pub open spec fn arcsin_derivative_applies(e: Expr) -> bool {
    e matches Expr::Derivative { expr: inner, var } && (*inner matches Expr::Arcsin(a) && var_occurs(*a, var))
}

/// The results of `arcsin_derivative` on `e`, each with its justification.
pub open spec fn arcsin_derivative_results(e: Expr) -> Seq<(Expr, Seq<char>)> {
    match e {
        Expr::Derivative { expr: inner, var } => match *inner {
            Expr::Arcsin(f) => one(
                Expr::Div(Box::new(d(*f, var)), Box::new(Expr::Sqrt(Box::new(Expr::Sub(Box::new(lit(1)), Box::new(pow_lit(*f, 2))))))),
                "d/dx(arcsin(f)) = f'/√(1-f²)"@,
            ),
            _ => none(),
        },
        _ => none(),
    }
}

/// Whether [`arcsin_derivative_applies`] holds of `e`.
pub(crate) fn arcsin_derivative_applicable(e: &Expr) -> (r: bool)
    ensures
        r == arcsin_derivative_applies(*e),
{
    match e {
        Expr::Derivative { expr: inner, var } => match &**inner {
            Expr::Arcsin(a) => contains_var(a, *var),
            _ => false,
        },
        _ => false,
    }
}

/// The results of `arcsin_derivative` on `e`, as [`arcsin_derivative_results`] states.
pub(crate) fn arcsin_derivative_apply(e: &Expr) -> (v: Vec<RuleApplication>)
    ensures
        apps_view(v@) == arcsin_derivative_results(*e),
{
    match e {
        Expr::Derivative { expr: inner, var } => match &**inner {
            Expr::Arcsin(f) => single(
                Expr::Div(Box::new(mk_d(f, *var)), Box::new(Expr::Sqrt(Box::new(Expr::Sub(Box::new(mk_lit(1)), Box::new(mk_pow(f, 2))))))),
                "d/dx(arcsin(f)) = f'/√(1-f²)",
            ),
            _ => nothing(),
        },
        _ => nothing(),
    }
}

/// `d/dx(arccos(f)) = -f'/√(1-f²)` for an `f` that contains `x`.
pub open spec fn arccos_derivative_applies(e: Expr) -> bool {
    e matches Expr::Derivative { expr: inner, var } && (*inner matches Expr::Arccos(a) && var_occurs(*a, var))
}

/// The results of `arccos_derivative` on `e`, each with its justification.
pub open spec fn arccos_derivative_results(e: Expr) -> Seq<(Expr, Seq<char>)> {
    match e {
        Expr::Derivative { expr: inner, var } => match *inner {
            Expr::Arccos(f) => one(
                Expr::Neg(Box::new(Expr::Div(Box::new(d(*f, var)), Box::new(Expr::Sqrt(Box::new(Expr::Sub(Box::new(lit(1)), Box::new(pow_lit(*f, 2))))))))),
                "d/dx(arccos(f)) = -f'/√(1-f²)"@,
            ),
            _ => none(),
        },
        _ => none(),
    }
}

/// Whether [`arccos_derivative_applies`] holds of `e`.
pub(crate) fn arccos_derivative_applicable(e: &Expr) -> (r: bool)
    ensures
        r == arccos_derivative_applies(*e),
{
    match e {
        Expr::Derivative { expr: inner, var } => match &**inner {
            Expr::Arccos(a) => contains_var(a, *var),
            _ => false,
        },
        _ => false,
    }
}

/// The results of `arccos_derivative` on `e`, as [`arccos_derivative_results`] states.
pub(crate) fn arccos_derivative_apply(e: &Expr) -> (v: Vec<RuleApplication>)
    ensures
        apps_view(v@) == arccos_derivative_results(*e),
{
    match e {
        Expr::Derivative { expr: inner, var } => match &**inner {
            Expr::Arccos(f) => single(
                Expr::Neg(Box::new(Expr::Div(Box::new(mk_d(f, *var)), Box::new(Expr::Sqrt(Box::new(Expr::Sub(Box::new(mk_lit(1)), Box::new(mk_pow(f, 2))))))))),
                "d/dx(arccos(f)) = -f'/√(1-f²)",
            ),
            _ => nothing(),
        },
        _ => nothing(),
    }
}

/// `d/dx(arctan(f)) = f'/(1+f²)` for an `f` that contains `x`.
pub open spec fn arctan_derivative_applies(e: Expr) -> bool {
    e matches Expr::Derivative { expr: inner, var } && (*inner matches Expr::Arctan(a) && var_occurs(*a, var))
}

/// The results of `arctan_derivative` on `e`, each with its justification.
pub open spec fn arctan_derivative_results(e: Expr) -> Seq<(Expr, Seq<char>)> {
    match e {
        Expr::Derivative { expr: inner, var } => match *inner {
            Expr::Arctan(f) => one(
                Expr::Div(Box::new(d(*f, var)), Box::new(Expr::Add(Box::new(lit(1)), Box::new(pow_lit(*f, 2))))),
                "d/dx(arctan(f)) = f'/(1+f²)"@,
            ),
            _ => none(),
        },
        _ => none(),
    }
}

/// Whether [`arctan_derivative_applies`] holds of `e`.
pub(crate) fn arctan_derivative_applicable(e: &Expr) -> (r: bool)
    ensures
        r == arctan_derivative_applies(*e),
{
    match e {
        Expr::Derivative { expr: inner, var } => match &**inner {
            Expr::Arctan(a) => contains_var(a, *var),
            _ => false,
        },
        _ => false,
    }
}

/// The results of `arctan_derivative` on `e`, as [`arctan_derivative_results`] states.
pub(crate) fn arctan_derivative_apply(e: &Expr) -> (v: Vec<RuleApplication>)
    ensures
        apps_view(v@) == arctan_derivative_results(*e),
{
    match e {
        Expr::Derivative { expr: inner, var } => match &**inner {
            Expr::Arctan(f) => single(
                Expr::Div(Box::new(mk_d(f, *var)), Box::new(Expr::Add(Box::new(mk_lit(1)), Box::new(mk_pow(f, 2))))),
                "d/dx(arctan(f)) = f'/(1+f²)",
            ),
            _ => nothing(),
        },
        _ => nothing(),
    }
}

/// `d/dx(1/tan(f)) = -f'/(1+f²)`, offered as the derivative of `arccot(f)`.
pub open spec fn arccot_derivative_applies(e: Expr) -> bool {
    e matches Expr::Derivative { expr: inner, var } && (*inner matches Expr::Div(n, den) && is_lit(*n, 1)
        && (*den matches Expr::Tan(a)))
}

/// The results of `arccot_derivative` on `e`, each with its justification.
pub open spec fn arccot_derivative_results(e: Expr) -> Seq<(Expr, Seq<char>)> {
    match e {
        Expr::Derivative { expr: inner, var } => match *inner {
            Expr::Div(_, den) => match *den {
                Expr::Tan(f) => one(
                    Expr::Neg(Box::new(Expr::Div(Box::new(d(*f, var)), Box::new(Expr::Add(Box::new(lit(1)), Box::new(pow_lit(*f, 2))))))),
                    "d/dx(arccot(f)) = -f'/(1+f²)"@,
                ),
                _ => none(),
            },
            _ => none(),
        },
        _ => none(),
    }
}

/// Whether [`arccot_derivative_applies`] holds of `e`.
pub(crate) fn arccot_derivative_applicable(e: &Expr) -> (r: bool)
    ensures
        r == arccot_derivative_applies(*e),
{
    match e {
        Expr::Derivative { expr: inner, var } => match &**inner {
            Expr::Div(n, den) => match &**den {
                Expr::Tan(a) => is_lit_e(n, 1),
                _ => false,
            },
            _ => false,
        },
        _ => false,
    }
}

/// The results of `arccot_derivative` on `e`, as [`arccot_derivative_results`] states.
pub(crate) fn arccot_derivative_apply(e: &Expr) -> (v: Vec<RuleApplication>)
    ensures
        apps_view(v@) == arccot_derivative_results(*e),
{
    match e {
        Expr::Derivative { expr: inner, var } => match &**inner {
            Expr::Div(_, den) => match &**den {
                Expr::Tan(f) => single(
                    Expr::Neg(Box::new(Expr::Div(Box::new(mk_d(f, *var)), Box::new(Expr::Add(Box::new(mk_lit(1)), Box::new(mk_pow(f, 2))))))),
                    "d/dx(arccot(f)) = -f'/(1+f²)",
                ),
                _ => nothing(),
            },
            _ => nothing(),
        },
        _ => nothing(),
    }
}

/// `d/dx(1/cos(f)) = f'/(|f|√(f²-1))`, offered as the derivative of `arcsec(f)`.
pub open spec fn arcsec_derivative_applies(e: Expr) -> bool {
    e matches Expr::Derivative { expr: inner, var } && (*inner matches Expr::Div(n, den) && is_lit(*n, 1)
        && (*den matches Expr::Cos(a)))
}

/// The results of `arcsec_derivative` on `e`, each with its justification.
pub open spec fn arcsec_derivative_results(e: Expr) -> Seq<(Expr, Seq<char>)> {
    match e {
        Expr::Derivative { expr: inner, var } => match *inner {
            Expr::Div(_, den) => match *den {
                Expr::Cos(f) => one(
                    Expr::Div(Box::new(d(*f, var)), Box::new(Expr::Mul(Box::new(Expr::Abs(f)), Box::new(Expr::Sqrt(Box::new(Expr::Sub(Box::new(pow_lit(*f, 2)), Box::new(lit(1))))))))),
                    "d/dx(arcsec(f)) = f'/(|f|√(f²-1))"@,
                ),
                _ => none(),
            },
            _ => none(),
        },
        _ => none(),
    }
}

/// Whether [`arcsec_derivative_applies`] holds of `e`.
pub(crate) fn arcsec_derivative_applicable(e: &Expr) -> (r: bool)
    ensures
        r == arcsec_derivative_applies(*e),
{
    match e {
        Expr::Derivative { expr: inner, var } => match &**inner {
            Expr::Div(n, den) => match &**den {
                Expr::Cos(a) => is_lit_e(n, 1),
                _ => false,
            },
            _ => false,
        },
        _ => false,
    }
}

/// The results of `arcsec_derivative` on `e`, as [`arcsec_derivative_results`] states.
pub(crate) fn arcsec_derivative_apply(e: &Expr) -> (v: Vec<RuleApplication>)
    ensures
        apps_view(v@) == arcsec_derivative_results(*e),
{
    match e {
        Expr::Derivative { expr: inner, var } => match &**inner {
            Expr::Div(_, den) => match &**den {
                Expr::Cos(f) => single(
                    Expr::Div(Box::new(mk_d(f, *var)), Box::new(Expr::Mul(Box::new(Expr::Abs(bx(f))), Box::new(Expr::Sqrt(Box::new(Expr::Sub(Box::new(mk_pow(f, 2)), Box::new(mk_lit(1))))))))),
                    "d/dx(arcsec(f)) = f'/(|f|√(f²-1))",
                ),
                _ => nothing(),
            },
            _ => nothing(),
        },
        _ => nothing(),
    }
}

/// `d/dx(1/sin(f)) = -f'/(|f|√(f²-1))`, offered as the derivative of `arccsc(f)`.
pub open spec fn arccsc_derivative_applies(e: Expr) -> bool {
    e matches Expr::Derivative { expr: inner, var } && (*inner matches Expr::Div(n, den) && is_lit(*n, 1)
        && (*den matches Expr::Sin(a)))
}

/// The results of `arccsc_derivative` on `e`, each with its justification.
pub open spec fn arccsc_derivative_results(e: Expr) -> Seq<(Expr, Seq<char>)> {
    match e {
        Expr::Derivative { expr: inner, var } => match *inner {
            Expr::Div(_, den) => match *den {
                Expr::Sin(f) => one(
                    Expr::Neg(Box::new(Expr::Div(Box::new(d(*f, var)), Box::new(Expr::Mul(Box::new(Expr::Abs(f)), Box::new(Expr::Sqrt(Box::new(Expr::Sub(Box::new(pow_lit(*f, 2)), Box::new(lit(1))))))))))),
                    "d/dx(arccsc(f)) = -f'/(|f|√(f²-1))"@,
                ),
                _ => none(),
            },
            _ => none(),
        },
        _ => none(),
    }
}

/// Whether [`arccsc_derivative_applies`] holds of `e`.
pub(crate) fn arccsc_derivative_applicable(e: &Expr) -> (r: bool)
    ensures
        r == arccsc_derivative_applies(*e),
{
    match e {
        Expr::Derivative { expr: inner, var } => match &**inner {
            Expr::Div(n, den) => match &**den {
                Expr::Sin(a) => is_lit_e(n, 1),
                _ => false,
            },
            _ => false,
        },
        _ => false,
    }
}

/// The results of `arccsc_derivative` on `e`, as [`arccsc_derivative_results`] states.
pub(crate) fn arccsc_derivative_apply(e: &Expr) -> (v: Vec<RuleApplication>)
    ensures
        apps_view(v@) == arccsc_derivative_results(*e),
{
    match e {
        Expr::Derivative { expr: inner, var } => match &**inner {
            Expr::Div(_, den) => match &**den {
                Expr::Sin(f) => single(
                    Expr::Neg(Box::new(Expr::Div(Box::new(mk_d(f, *var)), Box::new(Expr::Mul(Box::new(Expr::Abs(bx(f))), Box::new(Expr::Sqrt(Box::new(Expr::Sub(Box::new(mk_pow(f, 2)), Box::new(mk_lit(1))))))))))),
                    "d/dx(arccsc(f)) = -f'/(|f|√(f²-1))",
                ),
                _ => nothing(),
            },
            _ => nothing(),
        },
        _ => nothing(),
    }
}


/// The trigonometric chain rules of the registry give the derivatives of
/// calculus: applied to `d/dx(sin(g))` the rule yields the single result
/// `cos(g)·g'`, and applied to `d/dx(cos(g))` the single result
/// `-sin(g)·g'`, the negation of the sine; the factor `g'` is left out when
/// `g` is the variable itself.
pub proof fn lemma_trig_chain_rules(g: Expr, var: Symbol)
    ensures
        crate::rewrite::results(crate::rewrite::Rewrite::SinChainRule, d(Expr::Sin(Box::new(g)), var)).len() == 1,
        crate::rewrite::results(crate::rewrite::Rewrite::SinChainRule, d(Expr::Sin(Box::new(g)), var))[0].0 == (
        if g == Expr::Var(var) {
            Expr::Cos(Box::new(g))
        } else {
            Expr::Mul(Box::new(Expr::Cos(Box::new(g))), Box::new(d(g, var)))
        }),
        crate::rewrite::results(crate::rewrite::Rewrite::CosChainRule, d(Expr::Cos(Box::new(g)), var)).len() == 1,
        crate::rewrite::results(crate::rewrite::Rewrite::CosChainRule, d(Expr::Cos(Box::new(g)), var))[0].0 == (
        if g == Expr::Var(var) {
            Expr::Neg(Box::new(Expr::Sin(Box::new(g))))
        } else {
            Expr::Mul(Box::new(Expr::Neg(Box::new(Expr::Sin(Box::new(g))))), Box::new(d(g, var)))
        }),
{
}

/// The exponential and logarithm rules of the registry give the
/// derivatives of calculus: `d/dx(e^x)` is `e^x` and `d/dx(ln(x))` is `1/x`.
pub proof fn lemma_exp_ln_derivatives(var: Symbol)
    ensures
        crate::rewrite::results(
            crate::rewrite::Rewrite::ExpDerivative,
            d(Expr::Exp(Box::new(Expr::Var(var))), var),
        ).len() == 1,
        crate::rewrite::results(
            crate::rewrite::Rewrite::ExpDerivative,
            d(Expr::Exp(Box::new(Expr::Var(var))), var),
        )[0].0 == Expr::Exp(Box::new(Expr::Var(var))),
        crate::rewrite::results(
            crate::rewrite::Rewrite::LnDerivative,
            d(Expr::Ln(Box::new(Expr::Var(var))), var),
        ).len() == 1,
        crate::rewrite::results(
            crate::rewrite::Rewrite::LnDerivative,
            d(Expr::Ln(Box::new(Expr::Var(var))), var),
        )[0].0 == Expr::Div(Box::new(lit(1)), Box::new(Expr::Var(var))),
{
}

} // verus!
