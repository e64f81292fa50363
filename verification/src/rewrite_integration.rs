//! The rewrites of the elementary integration rules.
//!
//! Each rule fires on an `∫… dx` node of a given shape and answers with the
//! antiderivative, constant of integration omitted.

use vstd::prelude::*;
use crate::expr::{copy_expr, Expr, Symbol};
use crate::rational::{fits, radd, rat, Rational};
use crate::rewrite::{is_lit, is_lit_e, lit, mk_lit, none, nothing, one, single};
use crate::rewrite_derivative::{is_var, is_var_e};
use crate::rule::{apps_view, RuleApplication};
use crate::text::{push_text, rational_text, render_rational};

verus! {

/// Whether `var` occurs in `e`, looking through constants, variables,
/// arithmetic, negation, the elementary functions `sin`, `cos`, `tan`, `exp`,
/// `ln`, `√`, `|·|`, and derivatives and integrals; any other form counts as
/// free of `var`.
pub open spec fn var_in(e: Expr, var: Symbol) -> bool
    decreases e,
{
    match e {
        Expr::Var(v) => v == var,
        Expr::Add(a, b) | Expr::Sub(a, b) | Expr::Mul(a, b) | Expr::Div(a, b) | Expr::Pow(a, b) =>
            var_in(*a, var) || var_in(*b, var),
        Expr::Neg(a) | Expr::Sin(a) | Expr::Cos(a) | Expr::Tan(a) | Expr::Exp(a) | Expr::Ln(a) | Expr::Sqrt(a)
        | Expr::Abs(a) => var_in(*a, var),
        Expr::Derivative { expr, .. } | Expr::Integral { expr, .. } => var_in(*expr, var),
        _ => false,
    }
}

/// Whether `var` occurs in `expr`, as [`var_in`] states.
pub fn contains_var(expr: &Expr, var: Symbol) -> (b: bool)
    ensures
        b == var_in(*expr, var),
    decreases expr,
{
    match expr {
        Expr::Var(v) => v.0 == var.0,
        Expr::Add(a, b) | Expr::Sub(a, b) | Expr::Mul(a, b) | Expr::Div(a, b) | Expr::Pow(a, b) =>
            contains_var(a, var) || contains_var(b, var),
        Expr::Neg(a) | Expr::Sin(a) | Expr::Cos(a) | Expr::Tan(a) | Expr::Exp(a) | Expr::Ln(a) | Expr::Sqrt(a)
        | Expr::Abs(a) => contains_var(a, var),
        Expr::Derivative { expr, .. } | Expr::Integral { expr, .. } => contains_var(expr, var),
        _ => false,
    }
}

/// `∫x dx = x²/2` and `∫x^n dx = x^(n+1)/(n+1)` for a constant `n ≠ -1`,
/// when `n + 1` fits.
pub open spec fn power_integral_applies(e: Expr) -> bool {
    e matches Expr::Integral { expr: inner, var } && match *inner {
        Expr::Var(v) => v == var,
        Expr::Pow(b, x) => match (*b, *x) {
            (Expr::Var(v), Expr::Const(n)) => v == var && n.pair() != (-1int, 1int),
            _ => false,
        },
        _ => false,
    }
}

/// The text `integral(x^n dx) = x^m/m`.
pub open spec fn power_integral_text(n: (int, int), m: (int, int)) -> Seq<char> {
    "integral(x^"@ + rational_text(n) + " dx) = x^"@ + rational_text(m) + "/"@ + rational_text(m)
}

/// The results of `power_integral` on `e`, each with its justification.
pub open spec fn power_integral_results(e: Expr) -> Seq<(Expr, Seq<char>)> {
    match e {
        Expr::Integral { expr: inner, var } => match *inner {
            Expr::Var(v) => if v == var {
                one(Expr::Div(Box::new(Expr::Pow(Box::new(Expr::Var(var)), Box::new(lit(2)))), Box::new(lit(2))), "integral(x dx) = x^2/2"@)
            } else {
                none()
            },
            Expr::Pow(b, x) => match (*b, *x) {
                (Expr::Var(v), Expr::Const(n)) => {
                    let m = radd(n.pair(), (1, 1));
                    if v == var && n.pair() != (-1int, 1int) && fits(m) {
                        one(
                            Expr::Div(Box::new(Expr::Pow(b, Box::new(Expr::Const(rat(m))))), Box::new(Expr::Const(rat(m)))),
                            power_integral_text(n.pair(), m),
                        )
                    } else {
                        none()
                    }
                },
                _ => none(),
            },
            _ => none(),
        },
        _ => none(),
    }
}

/// Whether [`power_integral_applies`] holds of `e`.
pub(crate) fn power_integral_applicable(e: &Expr) -> (r: bool)
    ensures
        r == power_integral_applies(*e),
{
    match e {
        Expr::Integral { expr: inner, var } => match &**inner {
            Expr::Var(v) => v.0 == var.0,
            Expr::Pow(b, x) => match (&**b, &**x) {
                (Expr::Var(v), Expr::Const(n)) => v.0 == var.0 && !(n.numer() == -1 && n.denom() == 1),
                _ => false,
            },
            _ => false,
        },
        _ => false,
    }
}

/// The results of `power_integral` on `e`, as [`power_integral_results`] states.
pub(crate) fn power_integral_apply(e: &Expr) -> (v: Vec<RuleApplication>)
    ensures
        apps_view(v@) == power_integral_results(*e),
{
    match e {
        Expr::Integral { expr: inner, var } => match &**inner {
            Expr::Var(v) => if v.0 == var.0 {
                single(
                    Expr::Div(Box::new(Expr::Pow(Box::new(Expr::Var(*var)), Box::new(mk_lit(2)))), Box::new(mk_lit(2))),
                    "integral(x dx) = x^2/2",
                )
            } else {
                nothing()
            },
            Expr::Pow(b, x) => match (&**b, &**x) {
                (Expr::Var(v), Expr::Const(n)) => {
                    if v.0 != var.0 || (n.numer() == -1 && n.denom() == 1) {
                        return nothing();
                    }
                    let one_r = Rational::from_integer(1);
                    match n.checked_add(&one_r) {
                        Some(m) => {
                            proof {
                                crate::rational::lemma_rat_pair(m);
                            }
                            let mut t = String::new();
                            push_text(&mut t, "integral(x^");
                            let nt = render_rational(n);
                            push_text(&mut t, nt.as_str());
                            push_text(&mut t, " dx) = x^");
                            let mt = render_rational(&m);
                            push_text(&mut t, mt.as_str());
                            push_text(&mut t, "/");
                            push_text(&mut t, mt.as_str());
                            assert(t@ =~= power_integral_text(n.pair(), m.pair()));
                            let mut out: Vec<RuleApplication> = Vec::new();
                            out.push(RuleApplication {
                                result: Expr::Div(
                                    Box::new(Expr::Pow(Box::new(copy_expr(b)), Box::new(Expr::Const(m)))),
                                    Box::new(Expr::Const(m)),
                                ),
                                justification: t,
                            });
                            proof {
                                assert(apps_view(out@) =~= power_integral_results(*e));
                            }
                            out
                        },
                        None => nothing(),
                    }
                },
                _ => nothing(),
            },
            _ => nothing(),
        },
        _ => nothing(),
    }
}

/// `∫1/x dx = ln|x|` and `∫x^(-1) dx = ln|x|`.
pub open spec fn one_over_x_integral_applies(e: Expr) -> bool {
    e matches Expr::Integral { expr: inner, var } && match *inner {
        Expr::Div(n, d) => is_lit(*n, 1) && is_var(*d, var),
        Expr::Pow(b, x) => is_var(*b, var) && is_lit(*x, -1),
        _ => false,
    }
}

/// The results of `one_over_x_integral` on `e`, each with its justification.
pub open spec fn one_over_x_integral_results(e: Expr) -> Seq<(Expr, Seq<char>)> {
    match e {
        Expr::Integral { expr: inner, var } => if one_over_x_integral_applies(e) {
            match *inner {
                Expr::Div(_, _) => one(Expr::Ln(Box::new(Expr::Abs(Box::new(Expr::Var(var))))), "integral(1/x dx) = ln|x|"@),
                _ => one(Expr::Ln(Box::new(Expr::Abs(Box::new(Expr::Var(var))))), "integral(x^(-1) dx) = ln|x|"@),
            }
        } else {
            none()
        },
        _ => none(),
    }
}

/// Whether [`one_over_x_integral_applies`] holds of `e`.
pub(crate) fn one_over_x_integral_applicable(e: &Expr) -> (r: bool)
    ensures
        r == one_over_x_integral_applies(*e),
{
    match e {
        Expr::Integral { expr: inner, var } => match &**inner {
            Expr::Div(n, d) => is_lit_e(n, 1) && is_var_e(d, *var),
            Expr::Pow(b, x) => is_var_e(b, *var) && is_lit_e(x, -1),
            _ => false,
        },
        _ => false,
    }
}

/// The results of `one_over_x_integral` on `e`, as [`one_over_x_integral_results`] states.
pub(crate) fn one_over_x_integral_apply(e: &Expr) -> (v: Vec<RuleApplication>)
    ensures
        apps_view(v@) == one_over_x_integral_results(*e),
{
    match e {
        Expr::Integral { expr: inner, var } => if one_over_x_integral_applicable(e) {
            match &**inner {
                Expr::Div(_, _) => single(Expr::Ln(Box::new(Expr::Abs(Box::new(Expr::Var(*var))))), "integral(1/x dx) = ln|x|"),
                _ => single(Expr::Ln(Box::new(Expr::Abs(Box::new(Expr::Var(*var))))), "integral(x^(-1) dx) = ln|x|"),
            }
        } else {
            nothing()
        },
        _ => nothing(),
    }
}

/// `∫c·f dx = c·∫f dx` and `∫f·c dx = c·∫f dx`, for a product with exactly
/// one factor free of `x`.
pub open spec fn constant_multiple_integral_applies(e: Expr) -> bool {
    e matches Expr::Integral { expr: inner, var } && (*inner matches Expr::Mul(a, b)
        && ((!var_in(*a, var) && var_in(*b, var)) || (var_in(*a, var) && !var_in(*b, var))))
}

/// The results of `constant_multiple_integral` on `e`, each with its justification.
pub open spec fn constant_multiple_integral_results(e: Expr) -> Seq<(Expr, Seq<char>)> {
    match e {
        Expr::Integral { expr: inner, var } => match *inner {
            Expr::Mul(a, b) => if !var_in(*a, var) && var_in(*b, var) {
                one(Expr::Mul(a, Box::new(Expr::Integral { expr: b, var })), "integral(c*f dx) = c * integral(f dx)"@)
            } else if var_in(*a, var) && !var_in(*b, var) {
                one(Expr::Mul(b, Box::new(Expr::Integral { expr: a, var })), "integral(f*c dx) = c * integral(f dx)"@)
            } else {
                none()
            },
            _ => none(),
        },
        _ => none(),
    }
}

/// Whether [`constant_multiple_integral_applies`] holds of `e`.
pub(crate) fn constant_multiple_integral_applicable(e: &Expr) -> (r: bool)
    ensures
        r == constant_multiple_integral_applies(*e),
{
    match e {
        Expr::Integral { expr: inner, var } => match &**inner {
            Expr::Mul(a, b) => {
                let in_a = contains_var(a, *var);
                let in_b = contains_var(b, *var);
                (!in_a && in_b) || (in_a && !in_b)
            },
            _ => false,
        },
        _ => false,
    }
}

/// The results of `constant_multiple_integral` on `e`, as [`constant_multiple_integral_results`] states.
pub(crate) fn constant_multiple_integral_apply(e: &Expr) -> (v: Vec<RuleApplication>)
    ensures
        apps_view(v@) == constant_multiple_integral_results(*e),
{
    match e {
        Expr::Integral { expr: inner, var } => match &**inner {
            Expr::Mul(a, b) => {
                let in_a = contains_var(a, *var);
                let in_b = contains_var(b, *var);
                if !in_a && in_b {
                    single(
                        Expr::Mul(Box::new(copy_expr(a)), Box::new(Expr::Integral { expr: Box::new(copy_expr(b)), var: *var })),
                        "integral(c*f dx) = c * integral(f dx)",
                    )
                } else if in_a && !in_b {
                    single(
                        Expr::Mul(Box::new(copy_expr(b)), Box::new(Expr::Integral { expr: Box::new(copy_expr(a)), var: *var })),
                        "integral(f*c dx) = c * integral(f dx)",
                    )
                } else {
                    nothing()
                }
            },
            _ => nothing(),
        },
        _ => nothing(),
    }
}

/// `∫c dx = c·x` for an integrand free of `x`.
pub open spec fn constant_integral_applies(e: Expr) -> bool {
    e matches Expr::Integral { expr: inner, var } && !var_in(*inner, var)
}

/// The results of `constant_integral` on `e`, each with its justification.
pub open spec fn constant_integral_results(e: Expr) -> Seq<(Expr, Seq<char>)> {
    match e {
        Expr::Integral { expr: inner, var } => if constant_integral_applies(e) {
            one(Expr::Mul(Box::new(*inner), Box::new(Expr::Var(var))), "integral(c dx) = cx"@)
        } else {
            none()
        },
        _ => none(),
    }
}

/// Whether [`constant_integral_applies`] holds of `e`.
pub(crate) fn constant_integral_applicable(e: &Expr) -> (r: bool)
    ensures
        r == constant_integral_applies(*e),
{
    match e {
        Expr::Integral { expr: inner, var } => !contains_var(&**inner, *var),
        _ => false,
    }
}

/// The results of `constant_integral` on `e`, as [`constant_integral_results`] states.
pub(crate) fn constant_integral_apply(e: &Expr) -> (v: Vec<RuleApplication>)
    ensures
        apps_view(v@) == constant_integral_results(*e),
{
    match e {
        Expr::Integral { expr: inner, var } => if constant_integral_applicable(e) {
            single(Expr::Mul(Box::new(copy_expr(inner)), Box::new(Expr::Var(*var))), "integral(c dx) = cx")
        } else {
            nothing()
        },
        _ => nothing(),
    }
}

/// `∫(f+g) dx = ∫f dx + ∫g dx`.
pub open spec fn sum_integral_applies(e: Expr) -> bool {
    e matches Expr::Integral { expr: inner, var } && (*inner matches Expr::Add(_, _))
}

/// The results of `sum_integral` on `e`, each with its justification.
pub open spec fn sum_integral_results(e: Expr) -> Seq<(Expr, Seq<char>)> {
    match e {
        Expr::Integral { expr: inner, var } => match *inner {
            Expr::Add(f, g) => one(Expr::Add(Box::new(Expr::Integral { expr: Box::new(*f), var: var }), Box::new(Expr::Integral { expr: Box::new(*g), var: var })), "integral(f + g) = integral(f) + integral(g)"@),
            _ => none(),
        },
        _ => none(),
    }
}

/// Whether [`sum_integral_applies`] holds of `e`.
pub(crate) fn sum_integral_applicable(e: &Expr) -> (r: bool)
    ensures
        r == sum_integral_applies(*e),
{
    match e {
        Expr::Integral { expr: inner, .. } => (match &**inner {
            Expr::Add(_, _) => true,
            _ => false,
        }),
        _ => false,
    }
}

/// The results of `sum_integral` on `e`, as [`sum_integral_results`] states.
pub(crate) fn sum_integral_apply(e: &Expr) -> (v: Vec<RuleApplication>)
    ensures
        apps_view(v@) == sum_integral_results(*e),
{
    match e {
        Expr::Integral { expr: inner, var } => match &**inner {
            Expr::Add(f, g) => single(Expr::Add(Box::new(Expr::Integral { expr: Box::new(copy_expr(f)), var: *var }), Box::new(Expr::Integral { expr: Box::new(copy_expr(g)), var: *var })), "integral(f + g) = integral(f) + integral(g)"),
            _ => nothing(),
        },
        _ => nothing(),
    }
}

/// `∫(f-g) dx = ∫f dx - ∫g dx`.
pub open spec fn difference_integral_applies(e: Expr) -> bool {
    e matches Expr::Integral { expr: inner, var } && (*inner matches Expr::Sub(_, _))
}

/// The results of `difference_integral` on `e`, each with its justification.
pub open spec fn difference_integral_results(e: Expr) -> Seq<(Expr, Seq<char>)> {
    match e {
        Expr::Integral { expr: inner, var } => match *inner {
            Expr::Sub(f, g) => one(Expr::Sub(Box::new(Expr::Integral { expr: Box::new(*f), var: var }), Box::new(Expr::Integral { expr: Box::new(*g), var: var })), "integral(f - g) = integral(f) - integral(g)"@),
            _ => none(),
        },
        _ => none(),
    }
}

/// Whether [`difference_integral_applies`] holds of `e`.
pub(crate) fn difference_integral_applicable(e: &Expr) -> (r: bool)
    ensures
        r == difference_integral_applies(*e),
{
    match e {
        Expr::Integral { expr: inner, .. } => (match &**inner {
            Expr::Sub(_, _) => true,
            _ => false,
        }),
        _ => false,
    }
}

/// The results of `difference_integral` on `e`, as [`difference_integral_results`] states.
pub(crate) fn difference_integral_apply(e: &Expr) -> (v: Vec<RuleApplication>)
    ensures
        apps_view(v@) == difference_integral_results(*e),
{
    match e {
        Expr::Integral { expr: inner, var } => match &**inner {
            Expr::Sub(f, g) => single(Expr::Sub(Box::new(Expr::Integral { expr: Box::new(copy_expr(f)), var: *var }), Box::new(Expr::Integral { expr: Box::new(copy_expr(g)), var: *var })), "integral(f - g) = integral(f) - integral(g)"),
            _ => nothing(),
        },
        _ => nothing(),
    }
}

/// `∫sin(x) dx = -cos(x)`.
pub open spec fn sin_integral_applies(e: Expr) -> bool {
    e matches Expr::Integral { expr: inner, var } && (*inner matches Expr::Sin(a8) && is_var(*a8, var))
}

/// The results of `sin_integral` on `e`, each with its justification.
pub open spec fn sin_integral_results(e: Expr) -> Seq<(Expr, Seq<char>)> {
    match e {
        Expr::Integral { var, .. } => if sin_integral_applies(e) {
            one(Expr::Neg(Box::new(Expr::Cos(Box::new(Expr::Var(var))))), "integral(sin(x) dx) = -cos(x)"@)
        } else {
            none()
        },
        _ => none(),
    }
}

/// Whether [`sin_integral_applies`] holds of `e`.
pub(crate) fn sin_integral_applicable(e: &Expr) -> (r: bool)
    ensures
        r == sin_integral_applies(*e),
{
    match e {
        Expr::Integral { expr: inner, var } => (match &**inner {
            Expr::Sin(a9) => is_var_e(&**a9, *var),
            _ => false,
        }),
        _ => false,
    }
}

/// The results of `sin_integral` on `e`, as [`sin_integral_results`] states.
pub(crate) fn sin_integral_apply(e: &Expr) -> (v: Vec<RuleApplication>)
    ensures
        apps_view(v@) == sin_integral_results(*e),
{
    match e {
        Expr::Integral { var, .. } => if sin_integral_applicable(e) {
            single(Expr::Neg(Box::new(Expr::Cos(Box::new(Expr::Var(*var))))), "integral(sin(x) dx) = -cos(x)")
        } else {
            nothing()
        },
        _ => nothing(),
    }
}

/// `∫cos(x) dx = sin(x)`.
pub open spec fn cos_integral_applies(e: Expr) -> bool {
    e matches Expr::Integral { expr: inner, var } && (*inner matches Expr::Cos(a10) && is_var(*a10, var))
}

/// The results of `cos_integral` on `e`, each with its justification.
pub open spec fn cos_integral_results(e: Expr) -> Seq<(Expr, Seq<char>)> {
    match e {
        Expr::Integral { var, .. } => if cos_integral_applies(e) {
            one(Expr::Sin(Box::new(Expr::Var(var))), "integral(cos(x) dx) = sin(x)"@)
        } else {
            none()
        },
        _ => none(),
    }
}

/// Whether [`cos_integral_applies`] holds of `e`.
pub(crate) fn cos_integral_applicable(e: &Expr) -> (r: bool)
    ensures
        r == cos_integral_applies(*e),
{
    match e {
        Expr::Integral { expr: inner, var } => (match &**inner {
            Expr::Cos(a11) => is_var_e(&**a11, *var),
            _ => false,
        }),
        _ => false,
    }
}

/// The results of `cos_integral` on `e`, as [`cos_integral_results`] states.
pub(crate) fn cos_integral_apply(e: &Expr) -> (v: Vec<RuleApplication>)
    ensures
        apps_view(v@) == cos_integral_results(*e),
{
    match e {
        Expr::Integral { var, .. } => if cos_integral_applicable(e) {
            single(Expr::Sin(Box::new(Expr::Var(*var))), "integral(cos(x) dx) = sin(x)")
        } else {
            nothing()
        },
        _ => nothing(),
    }
}

/// `∫e^x dx = e^x`.
pub open spec fn exp_integral_applies(e: Expr) -> bool {
    e matches Expr::Integral { expr: inner, var } && (*inner matches Expr::Exp(a12) && is_var(*a12, var))
}

/// The results of `exp_integral` on `e`, each with its justification.
pub open spec fn exp_integral_results(e: Expr) -> Seq<(Expr, Seq<char>)> {
    match e {
        Expr::Integral { expr: inner, .. } => if exp_integral_applies(e) {
            one(*inner, "integral(e^x dx) = e^x"@)
        } else {
            none()
        },
        _ => none(),
    }
}

/// Whether [`exp_integral_applies`] holds of `e`.
pub(crate) fn exp_integral_applicable(e: &Expr) -> (r: bool)
    ensures
        r == exp_integral_applies(*e),
{
    match e {
        Expr::Integral { expr: inner, var } => (match &**inner {
            Expr::Exp(a13) => is_var_e(&**a13, *var),
            _ => false,
        }),
        _ => false,
    }
}

/// The results of `exp_integral` on `e`, as [`exp_integral_results`] states.
pub(crate) fn exp_integral_apply(e: &Expr) -> (v: Vec<RuleApplication>)
    ensures
        apps_view(v@) == exp_integral_results(*e),
{
    match e {
        Expr::Integral { expr: inner, .. } => if exp_integral_applicable(e) {
            single(copy_expr(inner), "integral(e^x dx) = e^x")
        } else {
            nothing()
        },
        _ => nothing(),
    }
}

} // verus!
