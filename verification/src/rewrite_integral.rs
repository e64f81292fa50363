//! The rewrites of the integration rules.
//!
//! Each rule fires on an `∫… dx` node of a given shape.  Several of them, as
//! the rules were written, answer any integral they are applied to with the
//! antiderivative of their own pattern; their contracts say so.

use vstd::prelude::*;
use crate::expr::{copy_expr, Expr, Symbol};
use crate::rational::{fits, radd, rat, Rational};
use crate::rewrite::{is_lit, is_lit_e, lit, mk_lit, none, nothing, one, single};
use crate::rewrite_derivative::{contains_var, is_var, is_var_e, var_occurs};
use crate::rule::{apps_view, RuleApplication};
use crate::text::{push_text, rational_text, render_rational};

verus! {

// ---------------------------------------------------------------------------
// Building blocks
// ---------------------------------------------------------------------------

/// Whether `e` is a constant whose numerator is `k`.
pub open spec fn num_is(e: Expr, k: int) -> bool {
    e matches Expr::Const(c) && c.num() == k
}

fn num_is_e(e: &Expr, k: i64) -> (b: bool)
    ensures
        b == num_is(*e, k as int),
{
    match e {
        Expr::Const(c) => c.numer() == k,
        _ => false,
    }
}

fn is_const_e(e: &Expr) -> (b: bool)
    ensures
        b == (*e matches Expr::Const(_)),
{
    match e {
        Expr::Const(_) => true,
        _ => false,
    }
}

/// A rule that never fires and produces nothing.
pub open spec fn inert_applies(e: Expr) -> bool {
    false
}

/// The results of `inert` on `e`, each with its justification.
pub open spec fn inert_results(e: Expr) -> Seq<(Expr, Seq<char>)> {
    none()
}

/// Whether [`inert_applies`] holds of `e`.
pub(crate) fn inert_applicable(e: &Expr) -> (r: bool)
    ensures
        r == inert_applies(*e),
{
    false
}

/// The results of `inert` on `e`, as [`inert_results`] states.
pub(crate) fn inert_apply(e: &Expr) -> (v: Vec<RuleApplication>)
    ensures
        apps_view(v@) == inert_results(*e),
{
    nothing()
}

// ---------------------------------------------------------------------------
// Integration rules
// ---------------------------------------------------------------------------

/// `∫x dx = x²/2` and `∫x^n dx = x^(n+1)/(n+1)` for a constant `n ≠ -1`.
/// Applied to any power with a constant exponent `n` it answers with
/// `b^(n+1)/(n+1)` for the base `b`, when `n + 1` fits.
pub open spec fn integral_power_applies(e: Expr) -> bool {
    e matches Expr::Integral { expr: inner, var } && match *inner {
        Expr::Pow(b, x) => match (*b, *x) {
            (Expr::Var(v), Expr::Const(n)) => v == var && n.pair() != (-1int, 1int),
            _ => false,
        },
        Expr::Var(v) => v == var,
        _ => false,
    }
}

/// The text `∫x^n dx = x^m/(m)`.
pub open spec fn integral_power_text(n: (int, int), m: (int, int)) -> Seq<char> {
    "∫x^"@ + rational_text(n) + " dx = x^"@ + rational_text(m) + "/("@ + rational_text(m) + ")"@
}

/// The results of `integral_power` on `e`, each with its justification.
pub open spec fn integral_power_results(e: Expr) -> Seq<(Expr, Seq<char>)> {
    match e {
        Expr::Integral { expr: inner, .. } => match *inner {
            Expr::Pow(b, x) => match *x {
                Expr::Const(n) => {
                    let m = radd(n.pair(), (1, 1));
                    if fits(m) {
                        one(
                            Expr::Div(Box::new(Expr::Pow(b, Box::new(Expr::Const(rat(m))))), Box::new(Expr::Const(rat(m)))),
                            integral_power_text(n.pair(), m),
                        )
                    } else {
                        none()
                    }
                },
                _ => none(),
            },
            Expr::Var(_) => one(
                Expr::Div(Box::new(Expr::Pow(inner, Box::new(lit(2)))), Box::new(lit(2))),
                "∫x dx = x²/2"@,
            ),
            _ => none(),
        },
        _ => none(),
    }
}

/// Whether [`integral_power_applies`] holds of `e`.
pub(crate) fn integral_power_applicable(e: &Expr) -> (r: bool)
    ensures
        r == integral_power_applies(*e),
{
    match e {
        Expr::Integral { expr: inner, var } => match &**inner {
            Expr::Pow(b, x) => match (&**b, &**x) {
                (Expr::Var(v), Expr::Const(n)) => v.0 == var.0 && !(n.numer() == -1 && n.denom() == 1),
                _ => false,
            },
            Expr::Var(v) => v.0 == var.0,
            _ => false,
        },
        _ => false,
    }
}

/// The results of `integral_power` on `e`, as [`integral_power_results`] states.
pub(crate) fn integral_power_apply(e: &Expr) -> (v: Vec<RuleApplication>)
    ensures
        apps_view(v@) == integral_power_results(*e),
{
    match e {
        Expr::Integral { expr: inner, .. } => match &**inner {
            Expr::Pow(b, x) => match &**x {
                Expr::Const(n) => {
                    let one_r = Rational::from_integer(1);
                    match n.checked_add(&one_r) {
                        Some(m) => {
                            proof {
                                crate::rational::lemma_rat_pair(m);
                            }
                            let mut t = String::new();
                            push_text(&mut t, "∫x^");
                            let nt = render_rational(n);
                            push_text(&mut t, nt.as_str());
                            push_text(&mut t, " dx = x^");
                            let mt = render_rational(&m);
                            push_text(&mut t, mt.as_str());
                            push_text(&mut t, "/(");
                            push_text(&mut t, mt.as_str());
                            push_text(&mut t, ")");
                            assert(t@ =~= integral_power_text(n.pair(), m.pair()));
                            let mut v: Vec<RuleApplication> = Vec::new();
                            v.push(RuleApplication {
                                result: Expr::Div(
                                    Box::new(Expr::Pow(Box::new(copy_expr(b)), Box::new(Expr::Const(m)))),
                                    Box::new(Expr::Const(m)),
                                ),
                                justification: t,
                            });
                            proof {
                                assert(apps_view(v@) =~= integral_power_results(*e));
                            }
                            v
                        },
                        None => nothing(),
                    }
                },
                _ => nothing(),
            },
            Expr::Var(_) => single(
                Expr::Div(Box::new(Expr::Pow(Box::new(copy_expr(inner)), Box::new(mk_lit(2)))), Box::new(mk_lit(2))),
                "∫x dx = x²/2",
            ),
            _ => nothing(),
        },
        _ => nothing(),
    }
}

/// `∫1/(c + x²) dx = arctan(x/√c)/√c` for a constant or power `c`, either
/// order; `c` is the summand that is not a power of a variable.
pub open spec fn integral_inv_a2_plus_x2_applies(e: Expr) -> bool {
    e matches Expr::Integral { expr: inner, var } && (*inner matches Expr::Div(a0, a1) && is_lit(*a0, 1) && ((*a1 matches Expr::Add(a2, a3) && ((*a2 matches Expr::Const(_)) || (*a2 matches Expr::Pow(_, _))) && (*a3 matches Expr::Pow(a6, a7) && is_var(*a6, var) && num_is(*a7, 2))) || (*a1 matches Expr::Add(a8, a9) && (*a8 matches Expr::Pow(a10, a11) && is_var(*a10, var) && num_is(*a11, 2)) && ((*a9 matches Expr::Const(_)) || (*a9 matches Expr::Pow(_, _))))))
}

/// The results of `integral_inv_a2_plus_x2` on `e`, each with its justification.
pub open spec fn integral_inv_a2_plus_x2_results(e: Expr) -> Seq<(Expr, Seq<char>)> {
    match e {
        Expr::Integral { expr: inner, var } => match *inner {
            Expr::Div(_, den) => match *den {
                Expr::Add(l, r) => {
                    let a2 = if *l matches Expr::Pow(b, _) && (*b matches Expr::Var(_)) {
                        r
                    } else {
                        l
                    };
                    let a = Expr::Sqrt(a2);
                    one(
                        Expr::Div(Box::new(Expr::Arctan(Box::new(Expr::Div(Box::new(Expr::Var(var)), Box::new(a))))), Box::new(a)),
                        "∫1/(a²+x²) dx = (1/a)arctan(x/a)"@,
                    )
                },
                _ => none(),
            },
            _ => none(),
        },
        _ => none(),
    }
}

/// Whether [`integral_inv_a2_plus_x2_applies`] holds of `e`.
pub(crate) fn integral_inv_a2_plus_x2_applicable(e: &Expr) -> (r: bool)
    ensures
        r == integral_inv_a2_plus_x2_applies(*e),
{
    match e {
        Expr::Integral { expr: inner, var } => (match &**inner {
            Expr::Div(a0, a1) => is_lit_e(&**a0, 1) && ((match &**a1 {
                    Expr::Add(a2, a3) => (is_const_e(&**a2) || (match &**a2 {
                            Expr::Pow(_, _) => true,
                            _ => false,
                        })) && (match &**a3 {
                            Expr::Pow(a6, a7) => is_var_e(&**a6, *var) && num_is_e(&**a7, 2),
                            _ => false,
                        }),
                    _ => false,
                }) || (match &**a1 {
                    Expr::Add(a8, a9) => (match &**a8 {
                            Expr::Pow(a10, a11) => is_var_e(&**a10, *var) && num_is_e(&**a11, 2),
                            _ => false,
                        }) && (is_const_e(&**a9) || (match &**a9 {
                            Expr::Pow(_, _) => true,
                            _ => false,
                        })),
                    _ => false,
                })),
            _ => false,
        }),
        _ => false,
    }
}

/// The results of `integral_inv_a2_plus_x2` on `e`, as [`integral_inv_a2_plus_x2_results`] states.
pub(crate) fn integral_inv_a2_plus_x2_apply(e: &Expr) -> (v: Vec<RuleApplication>)
    ensures
        apps_view(v@) == integral_inv_a2_plus_x2_results(*e),
{
    match e {
        Expr::Integral { expr: inner, var } => match &**inner {
            Expr::Div(_, den) => match &**den {
                Expr::Add(l, r) => {
                    let var_power = match &**l {
                        Expr::Pow(b, _) => match &**b {
                            Expr::Var(_) => true,
                            _ => false,
                        },
                        _ => false,
                    };
                    let a2 = if var_power {
                        copy_expr(r)
                    } else {
                        copy_expr(l)
                    };
                    let a = Expr::Sqrt(Box::new(a2));
                    let a_again = copy_expr(&a);
                    single(
                        Expr::Div(Box::new(Expr::Arctan(Box::new(Expr::Div(Box::new(Expr::Var(*var)), Box::new(a))))), Box::new(a_again)),
                        "∫1/(a²+x²) dx = (1/a)arctan(x/a)",
                    )
                },
                _ => nothing(),
            },
            _ => nothing(),
        },
        _ => nothing(),
    }
}

/// `∫k·f dx = k·∫f dx` for a factor `k` free of `x` and an `f` that contains it.
pub open spec fn integral_constant_multiple_applies(e: Expr) -> bool {
    e matches Expr::Integral { expr: inner, var } && (*inner matches Expr::Mul(a0, a1) && !var_occurs(*a0, var) && var_occurs(*a1, var))
}

/// The results of `integral_constant_multiple` on `e`, each with its justification.
pub open spec fn integral_constant_multiple_results(e: Expr) -> Seq<(Expr, Seq<char>)> {
    match e {
        Expr::Integral { expr: inner, var } => match *inner {
            Expr::Mul(k, f) => one(Expr::Mul(Box::new(*k), Box::new(Expr::Integral { expr: Box::new(*f), var: var })), "∫k·f(x) dx = k·∫f(x) dx"@),
            _ => none(),
        },
        _ => none(),
    }
}

/// Whether [`integral_constant_multiple_applies`] holds of `e`.
pub(crate) fn integral_constant_multiple_applicable(e: &Expr) -> (r: bool)
    ensures
        r == integral_constant_multiple_applies(*e),
{
    match e {
        Expr::Integral { expr: inner, var } => (match &**inner {
            Expr::Mul(a2, a3) => !contains_var(&**a2, *var) && contains_var(&**a3, *var),
            _ => false,
        }),
        _ => false,
    }
}

/// The results of `integral_constant_multiple` on `e`, as [`integral_constant_multiple_results`] states.
pub(crate) fn integral_constant_multiple_apply(e: &Expr) -> (v: Vec<RuleApplication>)
    ensures
        apps_view(v@) == integral_constant_multiple_results(*e),
{
    match e {
        Expr::Integral { expr: inner, var } => match &**inner {
            Expr::Mul(k, f) => single(Expr::Mul(Box::new(copy_expr(k)), Box::new(Expr::Integral { expr: Box::new(copy_expr(f)), var: *var })), "∫k·f(x) dx = k·∫f(x) dx"),
            _ => nothing(),
        },
        _ => nothing(),
    }
}

/// `∫k dx = k·x` for an integrand free of `x`.
pub open spec fn integral_constant_applies(e: Expr) -> bool {
    e matches Expr::Integral { expr: inner, var } && !var_occurs(*inner, var)
}

/// The results of `integral_constant` on `e`, each with its justification.
pub open spec fn integral_constant_results(e: Expr) -> Seq<(Expr, Seq<char>)> {
    match e {
        Expr::Integral { expr: inner, var } => one(Expr::Mul(Box::new(*inner), Box::new(Expr::Var(var))), "∫k dx = kx"@),
        _ => none(),
    }
}

/// Whether [`integral_constant_applies`] holds of `e`.
pub(crate) fn integral_constant_applicable(e: &Expr) -> (r: bool)
    ensures
        r == integral_constant_applies(*e),
{
    match e {
        Expr::Integral { expr: inner, var } => !contains_var(&**inner, *var),
        _ => false,
    }
}

/// The results of `integral_constant` on `e`, as [`integral_constant_results`] states.
pub(crate) fn integral_constant_apply(e: &Expr) -> (v: Vec<RuleApplication>)
    ensures
        apps_view(v@) == integral_constant_results(*e),
{
    match e {
        Expr::Integral { expr: inner, var } => single(Expr::Mul(Box::new(copy_expr(inner)), Box::new(Expr::Var(*var))), "∫k dx = kx"),
        _ => nothing(),
    }
}

/// `∫(f+g) dx = ∫f dx + ∫g dx`.
pub open spec fn integral_sum_applies(e: Expr) -> bool {
    e matches Expr::Integral { expr: inner, var } && (*inner matches Expr::Add(_, _))
}

/// The results of `integral_sum` on `e`, each with its justification.
pub open spec fn integral_sum_results(e: Expr) -> Seq<(Expr, Seq<char>)> {
    match e {
        Expr::Integral { expr: inner, var } => match *inner {
            Expr::Add(f, g) => one(Expr::Add(Box::new(Expr::Integral { expr: Box::new(*f), var: var }), Box::new(Expr::Integral { expr: Box::new(*g), var: var })), "∫(f+g) dx = ∫f dx + ∫g dx"@),
            _ => none(),
        },
        _ => none(),
    }
}

/// Whether [`integral_sum_applies`] holds of `e`.
pub(crate) fn integral_sum_applicable(e: &Expr) -> (r: bool)
    ensures
        r == integral_sum_applies(*e),
{
    match e {
        Expr::Integral { expr: inner, .. } => (match &**inner {
            Expr::Add(_, _) => true,
            _ => false,
        }),
        _ => false,
    }
}

/// The results of `integral_sum` on `e`, as [`integral_sum_results`] states.
pub(crate) fn integral_sum_apply(e: &Expr) -> (v: Vec<RuleApplication>)
    ensures
        apps_view(v@) == integral_sum_results(*e),
{
    match e {
        Expr::Integral { expr: inner, var } => match &**inner {
            Expr::Add(f, g) => single(Expr::Add(Box::new(Expr::Integral { expr: Box::new(copy_expr(f)), var: *var }), Box::new(Expr::Integral { expr: Box::new(copy_expr(g)), var: *var })), "∫(f+g) dx = ∫f dx + ∫g dx"),
            _ => nothing(),
        },
        _ => nothing(),
    }
}

/// `∫(f-g) dx = ∫f dx - ∫g dx`.
pub open spec fn integral_difference_applies(e: Expr) -> bool {
    e matches Expr::Integral { expr: inner, var } && (*inner matches Expr::Sub(_, _))
}

/// The results of `integral_difference` on `e`, each with its justification.
pub open spec fn integral_difference_results(e: Expr) -> Seq<(Expr, Seq<char>)> {
    match e {
        Expr::Integral { expr: inner, var } => match *inner {
            Expr::Sub(f, g) => one(Expr::Sub(Box::new(Expr::Integral { expr: Box::new(*f), var: var }), Box::new(Expr::Integral { expr: Box::new(*g), var: var })), "∫(f-g) dx = ∫f dx - ∫g dx"@),
            _ => none(),
        },
        _ => none(),
    }
}

/// Whether [`integral_difference_applies`] holds of `e`.
pub(crate) fn integral_difference_applicable(e: &Expr) -> (r: bool)
    ensures
        r == integral_difference_applies(*e),
{
    match e {
        Expr::Integral { expr: inner, .. } => (match &**inner {
            Expr::Sub(_, _) => true,
            _ => false,
        }),
        _ => false,
    }
}

/// The results of `integral_difference` on `e`, as [`integral_difference_results`] states.
pub(crate) fn integral_difference_apply(e: &Expr) -> (v: Vec<RuleApplication>)
    ensures
        apps_view(v@) == integral_difference_results(*e),
{
    match e {
        Expr::Integral { expr: inner, var } => match &**inner {
            Expr::Sub(f, g) => single(Expr::Sub(Box::new(Expr::Integral { expr: Box::new(copy_expr(f)), var: *var }), Box::new(Expr::Integral { expr: Box::new(copy_expr(g)), var: *var })), "∫(f-g) dx = ∫f dx - ∫g dx"),
            _ => nothing(),
        },
        _ => nothing(),
    }
}

/// `∫e^x dx = e^x`; any integral gives back its integrand.
pub open spec fn integral_exp_applies(e: Expr) -> bool {
    e matches Expr::Integral { expr: inner, var } && (*inner matches Expr::Exp(a12) && is_var(*a12, var))
}

/// The results of `integral_exp` on `e`, each with its justification.
pub open spec fn integral_exp_results(e: Expr) -> Seq<(Expr, Seq<char>)> {
    match e {
        Expr::Integral { expr: inner, .. } => one(*inner, "∫e^x dx = e^x"@),
        _ => none(),
    }
}

/// Whether [`integral_exp_applies`] holds of `e`.
pub(crate) fn integral_exp_applicable(e: &Expr) -> (r: bool)
    ensures
        r == integral_exp_applies(*e),
{
    match e {
        Expr::Integral { expr: inner, var } => (match &**inner {
            Expr::Exp(a13) => is_var_e(&**a13, *var),
            _ => false,
        }),
        _ => false,
    }
}

/// The results of `integral_exp` on `e`, as [`integral_exp_results`] states.
pub(crate) fn integral_exp_apply(e: &Expr) -> (v: Vec<RuleApplication>)
    ensures
        apps_view(v@) == integral_exp_results(*e),
{
    match e {
        Expr::Integral { expr: inner, .. } => single(copy_expr(inner), "∫e^x dx = e^x"),
        _ => nothing(),
    }
}

/// `∫1/x dx = ln|x|`; any integral gives `ln|x|`.
pub open spec fn integral_ln_applies(e: Expr) -> bool {
    e matches Expr::Integral { expr: inner, var } && (*inner matches Expr::Div(a14, a15) && is_lit(*a14, 1) && is_var(*a15, var))
}

/// The results of `integral_ln` on `e`, each with its justification.
pub open spec fn integral_ln_results(e: Expr) -> Seq<(Expr, Seq<char>)> {
    match e {
        Expr::Integral { var, .. } => one(Expr::Ln(Box::new(Expr::Abs(Box::new(Expr::Var(var))))), "∫1/x dx = ln|x|"@),
        _ => none(),
    }
}

/// Whether [`integral_ln_applies`] holds of `e`.
pub(crate) fn integral_ln_applicable(e: &Expr) -> (r: bool)
    ensures
        r == integral_ln_applies(*e),
{
    match e {
        Expr::Integral { expr: inner, var } => (match &**inner {
            Expr::Div(a16, a17) => is_lit_e(&**a16, 1) && is_var_e(&**a17, *var),
            _ => false,
        }),
        _ => false,
    }
}

/// The results of `integral_ln` on `e`, as [`integral_ln_results`] states.
pub(crate) fn integral_ln_apply(e: &Expr) -> (v: Vec<RuleApplication>)
    ensures
        apps_view(v@) == integral_ln_results(*e),
{
    match e {
        Expr::Integral { var, .. } => single(Expr::Ln(Box::new(Expr::Abs(Box::new(Expr::Var(*var))))), "∫1/x dx = ln|x|"),
        _ => nothing(),
    }
}

/// `∫sin(x) dx = -cos(x)`; any integral gives `-cos(x)`.
pub open spec fn integral_sin_applies(e: Expr) -> bool {
    e matches Expr::Integral { expr: inner, var } && (*inner matches Expr::Sin(a18) && is_var(*a18, var))
}

/// The results of `integral_sin` on `e`, each with its justification.
pub open spec fn integral_sin_results(e: Expr) -> Seq<(Expr, Seq<char>)> {
    match e {
        Expr::Integral { var, .. } => one(Expr::Neg(Box::new(Expr::Cos(Box::new(Expr::Var(var))))), "∫sin(x) dx = -cos(x)"@),
        _ => none(),
    }
}

/// Whether [`integral_sin_applies`] holds of `e`.
pub(crate) fn integral_sin_applicable(e: &Expr) -> (r: bool)
    ensures
        r == integral_sin_applies(*e),
{
    match e {
        Expr::Integral { expr: inner, var } => (match &**inner {
            Expr::Sin(a19) => is_var_e(&**a19, *var),
            _ => false,
        }),
        _ => false,
    }
}

/// The results of `integral_sin` on `e`, as [`integral_sin_results`] states.
pub(crate) fn integral_sin_apply(e: &Expr) -> (v: Vec<RuleApplication>)
    ensures
        apps_view(v@) == integral_sin_results(*e),
{
    match e {
        Expr::Integral { var, .. } => single(Expr::Neg(Box::new(Expr::Cos(Box::new(Expr::Var(*var))))), "∫sin(x) dx = -cos(x)"),
        _ => nothing(),
    }
}

/// `∫cos(x) dx = sin(x)`; any integral gives `sin(x)`.
pub open spec fn integral_cos_applies(e: Expr) -> bool {
    e matches Expr::Integral { expr: inner, var } && (*inner matches Expr::Cos(a20) && is_var(*a20, var))
}

/// The results of `integral_cos` on `e`, each with its justification.
pub open spec fn integral_cos_results(e: Expr) -> Seq<(Expr, Seq<char>)> {
    match e {
        Expr::Integral { var, .. } => one(Expr::Sin(Box::new(Expr::Var(var))), "∫cos(x) dx = sin(x)"@),
        _ => none(),
    }
}

/// Whether [`integral_cos_applies`] holds of `e`.
pub(crate) fn integral_cos_applicable(e: &Expr) -> (r: bool)
    ensures
        r == integral_cos_applies(*e),
{
    match e {
        Expr::Integral { expr: inner, var } => (match &**inner {
            Expr::Cos(a21) => is_var_e(&**a21, *var),
            _ => false,
        }),
        _ => false,
    }
}

/// The results of `integral_cos` on `e`, as [`integral_cos_results`] states.
pub(crate) fn integral_cos_apply(e: &Expr) -> (v: Vec<RuleApplication>)
    ensures
        apps_view(v@) == integral_cos_results(*e),
{
    match e {
        Expr::Integral { var, .. } => single(Expr::Sin(Box::new(Expr::Var(*var))), "∫cos(x) dx = sin(x)"),
        _ => nothing(),
    }
}

/// `∫tan(x) dx = -ln|cos(x)|`; any integral gives that.
pub open spec fn integral_tan_applies(e: Expr) -> bool {
    e matches Expr::Integral { expr: inner, var } && (*inner matches Expr::Tan(a22) && is_var(*a22, var))
}

/// The results of `integral_tan` on `e`, each with its justification.
pub open spec fn integral_tan_results(e: Expr) -> Seq<(Expr, Seq<char>)> {
    match e {
        Expr::Integral { var, .. } => one(Expr::Neg(Box::new(Expr::Ln(Box::new(Expr::Abs(Box::new(Expr::Cos(Box::new(Expr::Var(var))))))))), "∫tan(x) dx = -ln|cos(x)|"@),
        _ => none(),
    }
}

/// Whether [`integral_tan_applies`] holds of `e`.
pub(crate) fn integral_tan_applicable(e: &Expr) -> (r: bool)
    ensures
        r == integral_tan_applies(*e),
{
    match e {
        Expr::Integral { expr: inner, var } => (match &**inner {
            Expr::Tan(a23) => is_var_e(&**a23, *var),
            _ => false,
        }),
        _ => false,
    }
}

/// The results of `integral_tan` on `e`, as [`integral_tan_results`] states.
pub(crate) fn integral_tan_apply(e: &Expr) -> (v: Vec<RuleApplication>)
    ensures
        apps_view(v@) == integral_tan_results(*e),
{
    match e {
        Expr::Integral { var, .. } => single(Expr::Neg(Box::new(Expr::Ln(Box::new(Expr::Abs(Box::new(Expr::Cos(Box::new(Expr::Var(*var))))))))), "∫tan(x) dx = -ln|cos(x)|"),
        _ => nothing(),
    }
}

/// `∫1/cos(x)^n dx = tan(x)` for an exponent with numerator 2; any integral gives `tan(x)`.
pub open spec fn integral_sec2_applies(e: Expr) -> bool {
    e matches Expr::Integral { expr: inner, var } && (*inner matches Expr::Div(a24, a25) && is_lit(*a24, 1) && (*a25 matches Expr::Pow(a26, a27) && (*a26 matches Expr::Cos(a28) && is_var(*a28, var)) && num_is(*a27, 2)))
}

/// The results of `integral_sec2` on `e`, each with its justification.
pub open spec fn integral_sec2_results(e: Expr) -> Seq<(Expr, Seq<char>)> {
    match e {
        Expr::Integral { var, .. } => one(Expr::Tan(Box::new(Expr::Var(var))), "∫sec²(x) dx = tan(x)"@),
        _ => none(),
    }
}

/// Whether [`integral_sec2_applies`] holds of `e`.
pub(crate) fn integral_sec2_applicable(e: &Expr) -> (r: bool)
    ensures
        r == integral_sec2_applies(*e),
{
    match e {
        Expr::Integral { expr: inner, var } => (match &**inner {
            Expr::Div(a29, a30) => is_lit_e(&**a29, 1) && (match &**a30 {
                    Expr::Pow(a31, a32) => (match &**a31 {
                            Expr::Cos(a33) => is_var_e(&**a33, *var),
                            _ => false,
                        }) && num_is_e(&**a32, 2),
                    _ => false,
                }),
            _ => false,
        }),
        _ => false,
    }
}

/// The results of `integral_sec2` on `e`, as [`integral_sec2_results`] states.
pub(crate) fn integral_sec2_apply(e: &Expr) -> (v: Vec<RuleApplication>)
    ensures
        apps_view(v@) == integral_sec2_results(*e),
{
    match e {
        Expr::Integral { var, .. } => single(Expr::Tan(Box::new(Expr::Var(*var))), "∫sec²(x) dx = tan(x)"),
        _ => nothing(),
    }
}

/// `∫1/sin(x)^n dx = -cos(x)/sin(x)` for an exponent with numerator 2; any integral gives that.
pub open spec fn integral_csc2_applies(e: Expr) -> bool {
    e matches Expr::Integral { expr: inner, var } && (*inner matches Expr::Div(a34, a35) && is_lit(*a34, 1) && (*a35 matches Expr::Pow(a36, a37) && (*a36 matches Expr::Sin(a38) && is_var(*a38, var)) && num_is(*a37, 2)))
}

/// The results of `integral_csc2` on `e`, each with its justification.
pub open spec fn integral_csc2_results(e: Expr) -> Seq<(Expr, Seq<char>)> {
    match e {
        Expr::Integral { var, .. } => one(Expr::Neg(Box::new(Expr::Div(Box::new(Expr::Cos(Box::new(Expr::Var(var)))), Box::new(Expr::Sin(Box::new(Expr::Var(var))))))), "∫csc²(x) dx = -cot(x)"@),
        _ => none(),
    }
}

/// Whether [`integral_csc2_applies`] holds of `e`.
pub(crate) fn integral_csc2_applicable(e: &Expr) -> (r: bool)
    ensures
        r == integral_csc2_applies(*e),
{
    match e {
        Expr::Integral { expr: inner, var } => (match &**inner {
            Expr::Div(a39, a40) => is_lit_e(&**a39, 1) && (match &**a40 {
                    Expr::Pow(a41, a42) => (match &**a41 {
                            Expr::Sin(a43) => is_var_e(&**a43, *var),
                            _ => false,
                        }) && num_is_e(&**a42, 2),
                    _ => false,
                }),
            _ => false,
        }),
        _ => false,
    }
}

/// The results of `integral_csc2` on `e`, as [`integral_csc2_results`] states.
pub(crate) fn integral_csc2_apply(e: &Expr) -> (v: Vec<RuleApplication>)
    ensures
        apps_view(v@) == integral_csc2_results(*e),
{
    match e {
        Expr::Integral { var, .. } => single(Expr::Neg(Box::new(Expr::Div(Box::new(Expr::Cos(Box::new(Expr::Var(*var)))), Box::new(Expr::Sin(Box::new(Expr::Var(*var))))))), "∫csc²(x) dx = -cot(x)"),
        _ => nothing(),
    }
}

/// `∫x·e^x dx = x·e^x - e^x` (either factor order); any integral gives that.
pub open spec fn integration_by_parts_applies(e: Expr) -> bool {
    e matches Expr::Integral { expr: inner, var } && ((*inner matches Expr::Mul(a44, a45) && is_var(*a44, var) && (*a45 matches Expr::Exp(a46) && is_var(*a46, var))) || (*inner matches Expr::Mul(a47, a48) && (*a47 matches Expr::Exp(a49) && is_var(*a49, var)) && is_var(*a48, var)))
}

/// The results of `integration_by_parts` on `e`, each with its justification.
pub open spec fn integration_by_parts_results(e: Expr) -> Seq<(Expr, Seq<char>)> {
    match e {
        Expr::Integral { var, .. } => one(Expr::Sub(Box::new(Expr::Mul(Box::new(Expr::Var(var)), Box::new(Expr::Exp(Box::new(Expr::Var(var)))))), Box::new(Expr::Exp(Box::new(Expr::Var(var))))), "∫x·e^x dx = x·e^x - e^x (integration by parts)"@),
        _ => none(),
    }
}

/// Whether [`integration_by_parts_applies`] holds of `e`.
pub(crate) fn integration_by_parts_applicable(e: &Expr) -> (r: bool)
    ensures
        r == integration_by_parts_applies(*e),
{
    match e {
        Expr::Integral { expr: inner, var } => ((match &**inner {
            Expr::Mul(a50, a51) => is_var_e(&**a50, *var) && (match &**a51 {
                    Expr::Exp(a52) => is_var_e(&**a52, *var),
                    _ => false,
                }),
            _ => false,
        }) || (match &**inner {
            Expr::Mul(a53, a54) => (match &**a53 {
                    Expr::Exp(a55) => is_var_e(&**a55, *var),
                    _ => false,
                }) && is_var_e(&**a54, *var),
            _ => false,
        })),
        _ => false,
    }
}

/// The results of `integration_by_parts` on `e`, as [`integration_by_parts_results`] states.
pub(crate) fn integration_by_parts_apply(e: &Expr) -> (v: Vec<RuleApplication>)
    ensures
        apps_view(v@) == integration_by_parts_results(*e),
{
    match e {
        Expr::Integral { var, .. } => single(Expr::Sub(Box::new(Expr::Mul(Box::new(Expr::Var(*var)), Box::new(Expr::Exp(Box::new(Expr::Var(*var)))))), Box::new(Expr::Exp(Box::new(Expr::Var(*var))))), "∫x·e^x dx = x·e^x - e^x (integration by parts)"),
        _ => nothing(),
    }
}

/// `∫(2x)·e^(x²) dx = e^(x²)`, with `2` and `²` read by numerator; any integral gives `e^(x²)`.
pub open spec fn u_substitution_applies(e: Expr) -> bool {
    e matches Expr::Integral { expr: inner, var } && (*inner matches Expr::Mul(a56, a57) && (*a56 matches Expr::Mul(a58, a59) && num_is(*a58, 2) && is_var(*a59, var)) && (*a57 matches Expr::Exp(a60) && (*a60 matches Expr::Pow(a61, a62) && is_var(*a61, var) && num_is(*a62, 2))))
}

/// The results of `u_substitution` on `e`, each with its justification.
pub open spec fn u_substitution_results(e: Expr) -> Seq<(Expr, Seq<char>)> {
    match e {
        Expr::Integral { var, .. } => one(Expr::Exp(Box::new(Expr::Pow(Box::new(Expr::Var(var)), Box::new(lit(2))))), "∫2x·e^(x²) dx = e^(x²) (u-substitution with u=x²)"@),
        _ => none(),
    }
}

/// Whether [`u_substitution_applies`] holds of `e`.
pub(crate) fn u_substitution_applicable(e: &Expr) -> (r: bool)
    ensures
        r == u_substitution_applies(*e),
{
    match e {
        Expr::Integral { expr: inner, var } => (match &**inner {
            Expr::Mul(a63, a64) => (match &**a63 {
                    Expr::Mul(a65, a66) => num_is_e(&**a65, 2) && is_var_e(&**a66, *var),
                    _ => false,
                }) && (match &**a64 {
                    Expr::Exp(a67) => (match &**a67 {
                            Expr::Pow(a68, a69) => is_var_e(&**a68, *var) && num_is_e(&**a69, 2),
                            _ => false,
                        }),
                    _ => false,
                }),
            _ => false,
        }),
        _ => false,
    }
}

/// The results of `u_substitution` on `e`, as [`u_substitution_results`] states.
pub(crate) fn u_substitution_apply(e: &Expr) -> (v: Vec<RuleApplication>)
    ensures
        apps_view(v@) == u_substitution_results(*e),
{
    match e {
        Expr::Integral { var, .. } => single(Expr::Exp(Box::new(Expr::Pow(Box::new(Expr::Var(*var)), Box::new(mk_lit(2))))), "∫2x·e^(x²) dx = e^(x²) (u-substitution with u=x²)"),
        _ => nothing(),
    }
}

/// `∫1/(x²-1) dx = (1/2)·ln|(x-1)/(x+1)|`; any integral gives that.
pub open spec fn partial_fractions_applies(e: Expr) -> bool {
    e matches Expr::Integral { expr: inner, var } && (*inner matches Expr::Div(a70, a71) && is_lit(*a70, 1) && (*a71 matches Expr::Sub(a72, a73) && (*a72 matches Expr::Pow(a74, a75) && is_var(*a74, var) && num_is(*a75, 2)) && is_lit(*a73, 1)))
}

/// The results of `partial_fractions` on `e`, each with its justification.
pub open spec fn partial_fractions_results(e: Expr) -> Seq<(Expr, Seq<char>)> {
    match e {
        Expr::Integral { var, .. } => one(Expr::Mul(Box::new(Expr::Div(Box::new(lit(1)), Box::new(lit(2)))), Box::new(Expr::Ln(Box::new(Expr::Abs(Box::new(Expr::Div(Box::new(Expr::Sub(Box::new(Expr::Var(var)), Box::new(lit(1)))), Box::new(Expr::Add(Box::new(Expr::Var(var)), Box::new(lit(1))))))))))), "∫1/(x²-1) dx = (1/2)ln|(x-1)/(x+1)| (partial fractions)"@),
        _ => none(),
    }
}

/// Whether [`partial_fractions_applies`] holds of `e`.
pub(crate) fn partial_fractions_applicable(e: &Expr) -> (r: bool)
    ensures
        r == partial_fractions_applies(*e),
{
    match e {
        Expr::Integral { expr: inner, var } => (match &**inner {
            Expr::Div(a76, a77) => is_lit_e(&**a76, 1) && (match &**a77 {
                    Expr::Sub(a78, a79) => (match &**a78 {
                            Expr::Pow(a80, a81) => is_var_e(&**a80, *var) && num_is_e(&**a81, 2),
                            _ => false,
                        }) && is_lit_e(&**a79, 1),
                    _ => false,
                }),
            _ => false,
        }),
        _ => false,
    }
}

/// The results of `partial_fractions` on `e`, as [`partial_fractions_results`] states.
pub(crate) fn partial_fractions_apply(e: &Expr) -> (v: Vec<RuleApplication>)
    ensures
        apps_view(v@) == partial_fractions_results(*e),
{
    match e {
        Expr::Integral { var, .. } => single(Expr::Mul(Box::new(Expr::Div(Box::new(mk_lit(1)), Box::new(mk_lit(2)))), Box::new(Expr::Ln(Box::new(Expr::Abs(Box::new(Expr::Div(Box::new(Expr::Sub(Box::new(Expr::Var(*var)), Box::new(mk_lit(1)))), Box::new(Expr::Add(Box::new(Expr::Var(*var)), Box::new(mk_lit(1))))))))))), "∫1/(x²-1) dx = (1/2)ln|(x-1)/(x+1)| (partial fractions)"),
        _ => nothing(),
    }
}

/// `∫1/√(1-x²) dx = arcsin(x)`; any integral gives `arcsin(x)`.
pub open spec fn trig_substitution_applies(e: Expr) -> bool {
    e matches Expr::Integral { expr: inner, var } && (*inner matches Expr::Div(a82, a83) && is_lit(*a82, 1) && (*a83 matches Expr::Sqrt(a84) && (*a84 matches Expr::Sub(a85, a86) && is_lit(*a85, 1) && (*a86 matches Expr::Pow(a87, a88) && is_var(*a87, var) && num_is(*a88, 2)))))
}

/// The results of `trig_substitution` on `e`, each with its justification.
pub open spec fn trig_substitution_results(e: Expr) -> Seq<(Expr, Seq<char>)> {
    match e {
        Expr::Integral { var, .. } => one(Expr::Arcsin(Box::new(Expr::Var(var))), "∫1/√(1-x²) dx = arcsin(x) (trig substitution)"@),
        _ => none(),
    }
}

/// Whether [`trig_substitution_applies`] holds of `e`.
pub(crate) fn trig_substitution_applicable(e: &Expr) -> (r: bool)
    ensures
        r == trig_substitution_applies(*e),
{
    match e {
        Expr::Integral { expr: inner, var } => (match &**inner {
            Expr::Div(a89, a90) => is_lit_e(&**a89, 1) && (match &**a90 {
                    Expr::Sqrt(a91) => (match &**a91 {
                            Expr::Sub(a92, a93) => is_lit_e(&**a92, 1) && (match &**a93 {
                                    Expr::Pow(a94, a95) => is_var_e(&**a94, *var) && num_is_e(&**a95, 2),
                                    _ => false,
                                }),
                            _ => false,
                        }),
                    _ => false,
                }),
            _ => false,
        }),
        _ => false,
    }
}

/// The results of `trig_substitution` on `e`, as [`trig_substitution_results`] states.
pub(crate) fn trig_substitution_apply(e: &Expr) -> (v: Vec<RuleApplication>)
    ensures
        apps_view(v@) == trig_substitution_results(*e),
{
    match e {
        Expr::Integral { var, .. } => single(Expr::Arcsin(Box::new(Expr::Var(*var))), "∫1/√(1-x²) dx = arcsin(x) (trig substitution)"),
        _ => nothing(),
    }
}

/// `∫cos(x)/sin(x) dx = ln|sin(x)|`; any integral gives that.
pub open spec fn integral_cot_applies(e: Expr) -> bool {
    e matches Expr::Integral { expr: inner, var } && (*inner matches Expr::Div(a96, a97) && (*a96 matches Expr::Cos(a98) && is_var(*a98, var)) && (*a97 matches Expr::Sin(a99) && is_var(*a99, var)))
}

/// The results of `integral_cot` on `e`, each with its justification.
pub open spec fn integral_cot_results(e: Expr) -> Seq<(Expr, Seq<char>)> {
    match e {
        Expr::Integral { var, .. } => one(Expr::Ln(Box::new(Expr::Abs(Box::new(Expr::Sin(Box::new(Expr::Var(var))))))), "∫cot(x) dx = ln|sin(x)|"@),
        _ => none(),
    }
}

/// Whether [`integral_cot_applies`] holds of `e`.
pub(crate) fn integral_cot_applicable(e: &Expr) -> (r: bool)
    ensures
        r == integral_cot_applies(*e),
{
    match e {
        Expr::Integral { expr: inner, var } => (match &**inner {
            Expr::Div(a100, a101) => (match &**a100 {
                    Expr::Cos(a102) => is_var_e(&**a102, *var),
                    _ => false,
                }) && (match &**a101 {
                    Expr::Sin(a103) => is_var_e(&**a103, *var),
                    _ => false,
                }),
            _ => false,
        }),
        _ => false,
    }
}

/// The results of `integral_cot` on `e`, as [`integral_cot_results`] states.
pub(crate) fn integral_cot_apply(e: &Expr) -> (v: Vec<RuleApplication>)
    ensures
        apps_view(v@) == integral_cot_results(*e),
{
    match e {
        Expr::Integral { var, .. } => single(Expr::Ln(Box::new(Expr::Abs(Box::new(Expr::Sin(Box::new(Expr::Var(*var))))))), "∫cot(x) dx = ln|sin(x)|"),
        _ => nothing(),
    }
}

/// `∫1/cos(x) dx = ln|1/cos(x) + sin(x)/cos(x)|`; any integral gives that.
pub open spec fn integral_sec_applies(e: Expr) -> bool {
    e matches Expr::Integral { expr: inner, var } && (*inner matches Expr::Div(a104, a105) && is_lit(*a104, 1) && (*a105 matches Expr::Cos(a106) && is_var(*a106, var)))
}

/// The results of `integral_sec` on `e`, each with its justification.
pub open spec fn integral_sec_results(e: Expr) -> Seq<(Expr, Seq<char>)> {
    match e {
        Expr::Integral { var, .. } => one(Expr::Ln(Box::new(Expr::Abs(Box::new(Expr::Add(Box::new(Expr::Div(Box::new(lit(1)), Box::new(Expr::Cos(Box::new(Expr::Var(var)))))), Box::new(Expr::Div(Box::new(Expr::Sin(Box::new(Expr::Var(var)))), Box::new(Expr::Cos(Box::new(Expr::Var(var))))))))))), "∫sec(x) dx = ln|sec(x) + tan(x)|"@),
        _ => none(),
    }
}

/// Whether [`integral_sec_applies`] holds of `e`.
pub(crate) fn integral_sec_applicable(e: &Expr) -> (r: bool)
    ensures
        r == integral_sec_applies(*e),
{
    match e {
        Expr::Integral { expr: inner, var } => (match &**inner {
            Expr::Div(a107, a108) => is_lit_e(&**a107, 1) && (match &**a108 {
                    Expr::Cos(a109) => is_var_e(&**a109, *var),
                    _ => false,
                }),
            _ => false,
        }),
        _ => false,
    }
}

/// The results of `integral_sec` on `e`, as [`integral_sec_results`] states.
pub(crate) fn integral_sec_apply(e: &Expr) -> (v: Vec<RuleApplication>)
    ensures
        apps_view(v@) == integral_sec_results(*e),
{
    match e {
        Expr::Integral { var, .. } => single(Expr::Ln(Box::new(Expr::Abs(Box::new(Expr::Add(Box::new(Expr::Div(Box::new(mk_lit(1)), Box::new(Expr::Cos(Box::new(Expr::Var(*var)))))), Box::new(Expr::Div(Box::new(Expr::Sin(Box::new(Expr::Var(*var)))), Box::new(Expr::Cos(Box::new(Expr::Var(*var))))))))))), "∫sec(x) dx = ln|sec(x) + tan(x)|"),
        _ => nothing(),
    }
}

/// `∫1/sin(x) dx = -ln|1/sin(x) + cos(x)/sin(x)|`; any integral gives that.
pub open spec fn integral_csc_applies(e: Expr) -> bool {
    e matches Expr::Integral { expr: inner, var } && (*inner matches Expr::Div(a110, a111) && is_lit(*a110, 1) && (*a111 matches Expr::Sin(a112) && is_var(*a112, var)))
}

/// The results of `integral_csc` on `e`, each with its justification.
pub open spec fn integral_csc_results(e: Expr) -> Seq<(Expr, Seq<char>)> {
    match e {
        Expr::Integral { var, .. } => one(Expr::Neg(Box::new(Expr::Ln(Box::new(Expr::Abs(Box::new(Expr::Add(Box::new(Expr::Div(Box::new(lit(1)), Box::new(Expr::Sin(Box::new(Expr::Var(var)))))), Box::new(Expr::Div(Box::new(Expr::Cos(Box::new(Expr::Var(var)))), Box::new(Expr::Sin(Box::new(Expr::Var(var))))))))))))), "∫csc(x) dx = -ln|csc(x) + cot(x)|"@),
        _ => none(),
    }
}

/// Whether [`integral_csc_applies`] holds of `e`.
pub(crate) fn integral_csc_applicable(e: &Expr) -> (r: bool)
    ensures
        r == integral_csc_applies(*e),
{
    match e {
        Expr::Integral { expr: inner, var } => (match &**inner {
            Expr::Div(a113, a114) => is_lit_e(&**a113, 1) && (match &**a114 {
                    Expr::Sin(a115) => is_var_e(&**a115, *var),
                    _ => false,
                }),
            _ => false,
        }),
        _ => false,
    }
}

/// The results of `integral_csc` on `e`, as [`integral_csc_results`] states.
pub(crate) fn integral_csc_apply(e: &Expr) -> (v: Vec<RuleApplication>)
    ensures
        apps_view(v@) == integral_csc_results(*e),
{
    match e {
        Expr::Integral { var, .. } => single(Expr::Neg(Box::new(Expr::Ln(Box::new(Expr::Abs(Box::new(Expr::Add(Box::new(Expr::Div(Box::new(mk_lit(1)), Box::new(Expr::Sin(Box::new(Expr::Var(*var)))))), Box::new(Expr::Div(Box::new(Expr::Cos(Box::new(Expr::Var(*var)))), Box::new(Expr::Sin(Box::new(Expr::Var(*var))))))))))))), "∫csc(x) dx = -ln|csc(x) + cot(x)|"),
        _ => nothing(),
    }
}

/// `∫sin(x)/cos(x)^n dx = 1/cos(x)` for an exponent with numerator 2; any integral gives that.
pub open spec fn integral_sec_tan_applies(e: Expr) -> bool {
    e matches Expr::Integral { expr: inner, var } && (*inner matches Expr::Div(a116, a117) && (*a116 matches Expr::Sin(a118) && is_var(*a118, var)) && (*a117 matches Expr::Pow(a119, a120) && (*a119 matches Expr::Cos(a121) && is_var(*a121, var)) && num_is(*a120, 2)))
}

/// The results of `integral_sec_tan` on `e`, each with its justification.
pub open spec fn integral_sec_tan_results(e: Expr) -> Seq<(Expr, Seq<char>)> {
    match e {
        Expr::Integral { var, .. } => one(Expr::Div(Box::new(lit(1)), Box::new(Expr::Cos(Box::new(Expr::Var(var))))), "∫sec(x)tan(x) dx = sec(x)"@),
        _ => none(),
    }
}

/// Whether [`integral_sec_tan_applies`] holds of `e`.
pub(crate) fn integral_sec_tan_applicable(e: &Expr) -> (r: bool)
    ensures
        r == integral_sec_tan_applies(*e),
{
    match e {
        Expr::Integral { expr: inner, var } => (match &**inner {
            Expr::Div(a122, a123) => (match &**a122 {
                    Expr::Sin(a124) => is_var_e(&**a124, *var),
                    _ => false,
                }) && (match &**a123 {
                    Expr::Pow(a125, a126) => (match &**a125 {
                            Expr::Cos(a127) => is_var_e(&**a127, *var),
                            _ => false,
                        }) && num_is_e(&**a126, 2),
                    _ => false,
                }),
            _ => false,
        }),
        _ => false,
    }
}

/// The results of `integral_sec_tan` on `e`, as [`integral_sec_tan_results`] states.
pub(crate) fn integral_sec_tan_apply(e: &Expr) -> (v: Vec<RuleApplication>)
    ensures
        apps_view(v@) == integral_sec_tan_results(*e),
{
    match e {
        Expr::Integral { var, .. } => single(Expr::Div(Box::new(mk_lit(1)), Box::new(Expr::Cos(Box::new(Expr::Var(*var))))), "∫sec(x)tan(x) dx = sec(x)"),
        _ => nothing(),
    }
}

/// `∫1/√(c - x²) dx = arcsin(x/√c)` for a constant `c` or a constant squared.
pub open spec fn integral_inv_sqrt_a2_minus_x2_applies(e: Expr) -> bool {
    e matches Expr::Integral { expr: inner, var } && (*inner matches Expr::Div(a128, a129) && is_lit(*a128, 1) && (*a129 matches Expr::Sqrt(a130) && (*a130 matches Expr::Sub(a131, a132) && ((*a131 matches Expr::Const(_)) || (*a131 matches Expr::Pow(a133, a134) && (*a133 matches Expr::Const(_)) && num_is(*a134, 2))) && (*a132 matches Expr::Pow(a135, a136) && is_var(*a135, var) && num_is(*a136, 2)))))
}

/// The results of `integral_inv_sqrt_a2_minus_x2` on `e`, each with its justification.
pub open spec fn integral_inv_sqrt_a2_minus_x2_results(e: Expr) -> Seq<(Expr, Seq<char>)> {
    match e {
        Expr::Integral { expr: inner, var } => match *inner {
            Expr::Div(_, b146) => match *b146 {
                    Expr::Sqrt(b147) => match *b147 {
                            Expr::Sub(left, _) => one(Expr::Arcsin(Box::new(Expr::Div(Box::new(Expr::Var(var)), Box::new(Expr::Sqrt(Box::new(*left)))))), "∫1/√(a²-x²) dx = arcsin(x/a)"@),
                            _ => none(),
                        },
                    _ => none(),
                },
            _ => none(),
        },
        _ => none(),
    }
}

/// Whether [`integral_inv_sqrt_a2_minus_x2_applies`] holds of `e`.
pub(crate) fn integral_inv_sqrt_a2_minus_x2_applicable(e: &Expr) -> (r: bool)
    ensures
        r == integral_inv_sqrt_a2_minus_x2_applies(*e),
{
    match e {
        Expr::Integral { expr: inner, var } => (match &**inner {
            Expr::Div(a137, a138) => is_lit_e(&**a137, 1) && (match &**a138 {
                    Expr::Sqrt(a139) => (match &**a139 {
                            Expr::Sub(a140, a141) => (is_const_e(&**a140) || (match &**a140 {
                                    Expr::Pow(a142, a143) => is_const_e(&**a142) && num_is_e(&**a143, 2),
                                    _ => false,
                                })) && (match &**a141 {
                                    Expr::Pow(a144, a145) => is_var_e(&**a144, *var) && num_is_e(&**a145, 2),
                                    _ => false,
                                }),
                            _ => false,
                        }),
                    _ => false,
                }),
            _ => false,
        }),
        _ => false,
    }
}

/// The results of `integral_inv_sqrt_a2_minus_x2` on `e`, as [`integral_inv_sqrt_a2_minus_x2_results`] states.
pub(crate) fn integral_inv_sqrt_a2_minus_x2_apply(e: &Expr) -> (v: Vec<RuleApplication>)
    ensures
        apps_view(v@) == integral_inv_sqrt_a2_minus_x2_results(*e),
{
    match e {
        Expr::Integral { expr: inner, var } => match &**inner {
            Expr::Div(_, b148) => match &**b148 {
                    Expr::Sqrt(b149) => match &**b149 {
                            Expr::Sub(left, _) => single(Expr::Arcsin(Box::new(Expr::Div(Box::new(Expr::Var(*var)), Box::new(Expr::Sqrt(Box::new(copy_expr(left))))))), "∫1/√(a²-x²) dx = arcsin(x/a)"),
                            _ => nothing(),
                        },
                    _ => nothing(),
                },
            _ => nothing(),
        },
        _ => nothing(),
    }
}

/// `∫1/(x·√…) dx = arccos(1/|x|)`: a product of `x` and a square root, either order; any integral gives that.
pub open spec fn integral_inv_x_sqrt_x2_minus_a2_applies(e: Expr) -> bool {
    e matches Expr::Integral { expr: inner, var } && (*inner matches Expr::Div(a150, a151) && is_lit(*a150, 1) && (((*a151 matches Expr::Mul(a152, a153) && is_var(*a152, var)) || (*a151 matches Expr::Mul(a154, a155) && is_var(*a155, var))) && ((*a151 matches Expr::Mul(a156, a157) && (*a156 matches Expr::Sqrt(_))) || (*a151 matches Expr::Mul(a159, a160) && (*a160 matches Expr::Sqrt(_))))))
}

/// The results of `integral_inv_x_sqrt_x2_minus_a2` on `e`, each with its justification.
pub open spec fn integral_inv_x_sqrt_x2_minus_a2_results(e: Expr) -> Seq<(Expr, Seq<char>)> {
    match e {
        Expr::Integral { var, .. } => one(Expr::Arccos(Box::new(Expr::Div(Box::new(lit(1)), Box::new(Expr::Abs(Box::new(Expr::Var(var))))))), "∫1/(x√(x²-a²)) dx = arccos(1/|x|) (arcsec form)"@),
        _ => none(),
    }
}

/// Whether [`integral_inv_x_sqrt_x2_minus_a2_applies`] holds of `e`.
pub(crate) fn integral_inv_x_sqrt_x2_minus_a2_applicable(e: &Expr) -> (r: bool)
    ensures
        r == integral_inv_x_sqrt_x2_minus_a2_applies(*e),
{
    match e {
        Expr::Integral { expr: inner, var } => (match &**inner {
            Expr::Div(a162, a163) => is_lit_e(&**a162, 1) && (((match &**a163 {
                    Expr::Mul(a164, _) => is_var_e(&**a164, *var),
                    _ => false,
                }) || (match &**a163 {
                    Expr::Mul(_, a167) => is_var_e(&**a167, *var),
                    _ => false,
                })) && ((match &**a163 {
                    Expr::Mul(a168, _) => (match &**a168 {
                            Expr::Sqrt(_) => true,
                            _ => false,
                        }),
                    _ => false,
                }) || (match &**a163 {
                    Expr::Mul(_, a172) => (match &**a172 {
                            Expr::Sqrt(_) => true,
                            _ => false,
                        }),
                    _ => false,
                }))),
            _ => false,
        }),
        _ => false,
    }
}

/// The results of `integral_inv_x_sqrt_x2_minus_a2` on `e`, as [`integral_inv_x_sqrt_x2_minus_a2_results`] states.
pub(crate) fn integral_inv_x_sqrt_x2_minus_a2_apply(e: &Expr) -> (v: Vec<RuleApplication>)
    ensures
        apps_view(v@) == integral_inv_x_sqrt_x2_minus_a2_results(*e),
{
    match e {
        Expr::Integral { var, .. } => single(Expr::Arccos(Box::new(Expr::Div(Box::new(mk_lit(1)), Box::new(Expr::Abs(Box::new(Expr::Var(*var))))))), "∫1/(x√(x²-a²)) dx = arccos(1/|x|) (arcsec form)"),
        _ => nothing(),
    }
}

/// `∫x·sin(x) dx = -x·cos(x) + sin(x)` (either factor order); any integral gives that.
pub open spec fn integral_x_sin_applies(e: Expr) -> bool {
    e matches Expr::Integral { expr: inner, var } && ((*inner matches Expr::Mul(a174, a175) && is_var(*a174, var) && (*a175 matches Expr::Sin(a176) && is_var(*a176, var))) || (*inner matches Expr::Mul(a177, a178) && (*a177 matches Expr::Sin(a179) && is_var(*a179, var)) && is_var(*a178, var)))
}

/// The results of `integral_x_sin` on `e`, each with its justification.
pub open spec fn integral_x_sin_results(e: Expr) -> Seq<(Expr, Seq<char>)> {
    match e {
        Expr::Integral { var, .. } => one(Expr::Add(Box::new(Expr::Neg(Box::new(Expr::Mul(Box::new(Expr::Var(var)), Box::new(Expr::Cos(Box::new(Expr::Var(var)))))))), Box::new(Expr::Sin(Box::new(Expr::Var(var))))), "∫x·sin(x) dx = -x·cos(x) + sin(x) (integration by parts)"@),
        _ => none(),
    }
}

/// Whether [`integral_x_sin_applies`] holds of `e`.
pub(crate) fn integral_x_sin_applicable(e: &Expr) -> (r: bool)
    ensures
        r == integral_x_sin_applies(*e),
{
    match e {
        Expr::Integral { expr: inner, var } => ((match &**inner {
            Expr::Mul(a180, a181) => is_var_e(&**a180, *var) && (match &**a181 {
                    Expr::Sin(a182) => is_var_e(&**a182, *var),
                    _ => false,
                }),
            _ => false,
        }) || (match &**inner {
            Expr::Mul(a183, a184) => (match &**a183 {
                    Expr::Sin(a185) => is_var_e(&**a185, *var),
                    _ => false,
                }) && is_var_e(&**a184, *var),
            _ => false,
        })),
        _ => false,
    }
}

/// The results of `integral_x_sin` on `e`, as [`integral_x_sin_results`] states.
pub(crate) fn integral_x_sin_apply(e: &Expr) -> (v: Vec<RuleApplication>)
    ensures
        apps_view(v@) == integral_x_sin_results(*e),
{
    match e {
        Expr::Integral { var, .. } => single(Expr::Add(Box::new(Expr::Neg(Box::new(Expr::Mul(Box::new(Expr::Var(*var)), Box::new(Expr::Cos(Box::new(Expr::Var(*var)))))))), Box::new(Expr::Sin(Box::new(Expr::Var(*var))))), "∫x·sin(x) dx = -x·cos(x) + sin(x) (integration by parts)"),
        _ => nothing(),
    }
}

/// `∫x·cos(x) dx = x·sin(x) + cos(x)` (either factor order); any integral gives that.
pub open spec fn integral_x_cos_applies(e: Expr) -> bool {
    e matches Expr::Integral { expr: inner, var } && ((*inner matches Expr::Mul(a186, a187) && is_var(*a186, var) && (*a187 matches Expr::Cos(a188) && is_var(*a188, var))) || (*inner matches Expr::Mul(a189, a190) && (*a189 matches Expr::Cos(a191) && is_var(*a191, var)) && is_var(*a190, var)))
}

/// The results of `integral_x_cos` on `e`, each with its justification.
pub open spec fn integral_x_cos_results(e: Expr) -> Seq<(Expr, Seq<char>)> {
    match e {
        Expr::Integral { var, .. } => one(Expr::Add(Box::new(Expr::Mul(Box::new(Expr::Var(var)), Box::new(Expr::Sin(Box::new(Expr::Var(var)))))), Box::new(Expr::Cos(Box::new(Expr::Var(var))))), "∫x·cos(x) dx = x·sin(x) + cos(x) (integration by parts)"@),
        _ => none(),
    }
}

/// Whether [`integral_x_cos_applies`] holds of `e`.
pub(crate) fn integral_x_cos_applicable(e: &Expr) -> (r: bool)
    ensures
        r == integral_x_cos_applies(*e),
{
    match e {
        Expr::Integral { expr: inner, var } => ((match &**inner {
            Expr::Mul(a192, a193) => is_var_e(&**a192, *var) && (match &**a193 {
                    Expr::Cos(a194) => is_var_e(&**a194, *var),
                    _ => false,
                }),
            _ => false,
        }) || (match &**inner {
            Expr::Mul(a195, a196) => (match &**a195 {
                    Expr::Cos(a197) => is_var_e(&**a197, *var),
                    _ => false,
                }) && is_var_e(&**a196, *var),
            _ => false,
        })),
        _ => false,
    }
}

/// The results of `integral_x_cos` on `e`, as [`integral_x_cos_results`] states.
pub(crate) fn integral_x_cos_apply(e: &Expr) -> (v: Vec<RuleApplication>)
    ensures
        apps_view(v@) == integral_x_cos_results(*e),
{
    match e {
        Expr::Integral { var, .. } => single(Expr::Add(Box::new(Expr::Mul(Box::new(Expr::Var(*var)), Box::new(Expr::Sin(Box::new(Expr::Var(*var)))))), Box::new(Expr::Cos(Box::new(Expr::Var(*var))))), "∫x·cos(x) dx = x·sin(x) + cos(x) (integration by parts)"),
        _ => nothing(),
    }
}

/// `∫ln(x) dx = x·ln(x) - x`; any integral gives that.
pub open spec fn integral_ln_x_applies(e: Expr) -> bool {
    e matches Expr::Integral { expr: inner, var } && (*inner matches Expr::Ln(a198) && is_var(*a198, var))
}

/// The results of `integral_ln_x` on `e`, each with its justification.
pub open spec fn integral_ln_x_results(e: Expr) -> Seq<(Expr, Seq<char>)> {
    match e {
        Expr::Integral { var, .. } => one(Expr::Sub(Box::new(Expr::Mul(Box::new(Expr::Var(var)), Box::new(Expr::Ln(Box::new(Expr::Var(var)))))), Box::new(Expr::Var(var))), "∫ln(x) dx = x·ln(x) - x (integration by parts)"@),
        _ => none(),
    }
}

/// Whether [`integral_ln_x_applies`] holds of `e`.
pub(crate) fn integral_ln_x_applicable(e: &Expr) -> (r: bool)
    ensures
        r == integral_ln_x_applies(*e),
{
    match e {
        Expr::Integral { expr: inner, var } => (match &**inner {
            Expr::Ln(a199) => is_var_e(&**a199, *var),
            _ => false,
        }),
        _ => false,
    }
}

/// The results of `integral_ln_x` on `e`, as [`integral_ln_x_results`] states.
pub(crate) fn integral_ln_x_apply(e: &Expr) -> (v: Vec<RuleApplication>)
    ensures
        apps_view(v@) == integral_ln_x_results(*e),
{
    match e {
        Expr::Integral { var, .. } => single(Expr::Sub(Box::new(Expr::Mul(Box::new(Expr::Var(*var)), Box::new(Expr::Ln(Box::new(Expr::Var(*var)))))), Box::new(Expr::Var(*var))), "∫ln(x) dx = x·ln(x) - x (integration by parts)"),
        _ => nothing(),
    }
}

/// `∫x·e^(…) dx = (x-1)·e^x` (either factor order); any integral gives that.
pub open spec fn integral_x_exp_ax_applies(e: Expr) -> bool {
    e matches Expr::Integral { expr: inner, var } && ((*inner matches Expr::Mul(a200, a201) && is_var(*a200, var) && (*a201 matches Expr::Exp(_))) || (*inner matches Expr::Mul(a203, a204) && (*a203 matches Expr::Exp(_)) && is_var(*a204, var)))
}

/// The results of `integral_x_exp_ax` on `e`, each with its justification.
pub open spec fn integral_x_exp_ax_results(e: Expr) -> Seq<(Expr, Seq<char>)> {
    match e {
        Expr::Integral { var, .. } => one(Expr::Mul(Box::new(Expr::Sub(Box::new(Expr::Var(var)), Box::new(lit(1)))), Box::new(Expr::Exp(Box::new(Expr::Var(var))))), "∫x·e^x dx = (x-1)·e^x (integration by parts)"@),
        _ => none(),
    }
}

/// Whether [`integral_x_exp_ax_applies`] holds of `e`.
pub(crate) fn integral_x_exp_ax_applicable(e: &Expr) -> (r: bool)
    ensures
        r == integral_x_exp_ax_applies(*e),
{
    match e {
        Expr::Integral { expr: inner, var } => ((match &**inner {
            Expr::Mul(a206, a207) => is_var_e(&**a206, *var) && (match &**a207 {
                    Expr::Exp(_) => true,
                    _ => false,
                }),
            _ => false,
        }) || (match &**inner {
            Expr::Mul(a209, a210) => (match &**a209 {
                    Expr::Exp(_) => true,
                    _ => false,
                }) && is_var_e(&**a210, *var),
            _ => false,
        })),
        _ => false,
    }
}

/// The results of `integral_x_exp_ax` on `e`, as [`integral_x_exp_ax_results`] states.
pub(crate) fn integral_x_exp_ax_apply(e: &Expr) -> (v: Vec<RuleApplication>)
    ensures
        apps_view(v@) == integral_x_exp_ax_results(*e),
{
    match e {
        Expr::Integral { var, .. } => single(Expr::Mul(Box::new(Expr::Sub(Box::new(Expr::Var(*var)), Box::new(mk_lit(1)))), Box::new(Expr::Exp(Box::new(Expr::Var(*var))))), "∫x·e^x dx = (x-1)·e^x (integration by parts)"),
        _ => nothing(),
    }
}

/// `∫x/(p+q) dx = (1/2)·ln(p+q)`.
pub open spec fn integral_x_over_x2_plus_a2_applies(e: Expr) -> bool {
    e matches Expr::Integral { expr: inner, var } && (*inner matches Expr::Div(a212, a213) && is_var(*a212, var) && (*a213 matches Expr::Add(_, _)))
}

/// The results of `integral_x_over_x2_plus_a2` on `e`, each with its justification.
pub open spec fn integral_x_over_x2_plus_a2_results(e: Expr) -> Seq<(Expr, Seq<char>)> {
    match e {
        Expr::Integral { expr: inner, .. } => match *inner {
            Expr::Div(_, den) => one(Expr::Mul(Box::new(Expr::Div(Box::new(lit(1)), Box::new(lit(2)))), Box::new(Expr::Ln(Box::new(*den)))), "∫x/(x²+a²) dx = (1/2)ln(x²+a²)"@),
            _ => none(),
        },
        _ => none(),
    }
}

/// Whether [`integral_x_over_x2_plus_a2_applies`] holds of `e`.
pub(crate) fn integral_x_over_x2_plus_a2_applicable(e: &Expr) -> (r: bool)
    ensures
        r == integral_x_over_x2_plus_a2_applies(*e),
{
    match e {
        Expr::Integral { expr: inner, var } => (match &**inner {
            Expr::Div(a216, a217) => is_var_e(&**a216, *var) && (match &**a217 {
                    Expr::Add(_, _) => true,
                    _ => false,
                }),
            _ => false,
        }),
        _ => false,
    }
}

/// The results of `integral_x_over_x2_plus_a2` on `e`, as [`integral_x_over_x2_plus_a2_results`] states.
pub(crate) fn integral_x_over_x2_plus_a2_apply(e: &Expr) -> (v: Vec<RuleApplication>)
    ensures
        apps_view(v@) == integral_x_over_x2_plus_a2_results(*e),
{
    match e {
        Expr::Integral { expr: inner, .. } => match &**inner {
            Expr::Div(_, den) => single(Expr::Mul(Box::new(Expr::Div(Box::new(mk_lit(1)), Box::new(mk_lit(2)))), Box::new(Expr::Ln(Box::new(copy_expr(den))))), "∫x/(x²+a²) dx = (1/2)ln(x²+a²)"),
            _ => nothing(),
        },
        _ => nothing(),
    }
}

/// `∫x/(p-q) dx = (1/2)·ln|p-q|`.
pub open spec fn integral_x_over_x2_minus_a2_applies(e: Expr) -> bool {
    e matches Expr::Integral { expr: inner, var } && (*inner matches Expr::Div(a220, a221) && is_var(*a220, var) && (*a221 matches Expr::Sub(_, _)))
}

/// The results of `integral_x_over_x2_minus_a2` on `e`, each with its justification.
pub open spec fn integral_x_over_x2_minus_a2_results(e: Expr) -> Seq<(Expr, Seq<char>)> {
    match e {
        Expr::Integral { expr: inner, .. } => match *inner {
            Expr::Div(_, den) => one(Expr::Mul(Box::new(Expr::Div(Box::new(lit(1)), Box::new(lit(2)))), Box::new(Expr::Ln(Box::new(Expr::Abs(Box::new(*den)))))), "∫x/(x²-a²) dx = (1/2)ln|x²-a²|"@),
            _ => none(),
        },
        _ => none(),
    }
}

/// Whether [`integral_x_over_x2_minus_a2_applies`] holds of `e`.
pub(crate) fn integral_x_over_x2_minus_a2_applicable(e: &Expr) -> (r: bool)
    ensures
        r == integral_x_over_x2_minus_a2_applies(*e),
{
    match e {
        Expr::Integral { expr: inner, var } => (match &**inner {
            Expr::Div(a224, a225) => is_var_e(&**a224, *var) && (match &**a225 {
                    Expr::Sub(_, _) => true,
                    _ => false,
                }),
            _ => false,
        }),
        _ => false,
    }
}

/// The results of `integral_x_over_x2_minus_a2` on `e`, as [`integral_x_over_x2_minus_a2_results`] states.
pub(crate) fn integral_x_over_x2_minus_a2_apply(e: &Expr) -> (v: Vec<RuleApplication>)
    ensures
        apps_view(v@) == integral_x_over_x2_minus_a2_results(*e),
{
    match e {
        Expr::Integral { expr: inner, .. } => match &**inner {
            Expr::Div(_, den) => single(Expr::Mul(Box::new(Expr::Div(Box::new(mk_lit(1)), Box::new(mk_lit(2)))), Box::new(Expr::Ln(Box::new(Expr::Abs(Box::new(copy_expr(den))))))), "∫x/(x²-a²) dx = (1/2)ln|x²-a²|"),
            _ => nothing(),
        },
        _ => nothing(),
    }
}

/// `∫e^(a·u) dx = (1/a)·e^(a·u)`.
pub open spec fn integral_exp_ax_applies(e: Expr) -> bool {
    e matches Expr::Integral { expr: inner, var } && (*inner matches Expr::Exp(a228) && (*a228 matches Expr::Mul(_, _)))
}

/// The results of `integral_exp_ax` on `e`, each with its justification.
pub open spec fn integral_exp_ax_results(e: Expr) -> Seq<(Expr, Seq<char>)> {
    match e {
        Expr::Integral { expr: inner, .. } => match *inner {
            Expr::Exp(b234) => match *b234 {
                    Expr::Mul(coeff, _) => one(Expr::Mul(Box::new(Expr::Div(Box::new(lit(1)), Box::new(*coeff))), Box::new(*inner)), "∫e^(ax) dx = (1/a)e^(ax)"@),
                    _ => none(),
                },
            _ => none(),
        },
        _ => none(),
    }
}

/// Whether [`integral_exp_ax_applies`] holds of `e`.
pub(crate) fn integral_exp_ax_applicable(e: &Expr) -> (r: bool)
    ensures
        r == integral_exp_ax_applies(*e),
{
    match e {
        Expr::Integral { expr: inner, .. } => (match &**inner {
            Expr::Exp(a231) => (match &**a231 {
                    Expr::Mul(_, _) => true,
                    _ => false,
                }),
            _ => false,
        }),
        _ => false,
    }
}

/// The results of `integral_exp_ax` on `e`, as [`integral_exp_ax_results`] states.
pub(crate) fn integral_exp_ax_apply(e: &Expr) -> (v: Vec<RuleApplication>)
    ensures
        apps_view(v@) == integral_exp_ax_results(*e),
{
    match e {
        Expr::Integral { expr: inner, .. } => match &**inner {
            Expr::Exp(b235) => match &**b235 {
                    Expr::Mul(coeff, _) => single(Expr::Mul(Box::new(Expr::Div(Box::new(mk_lit(1)), Box::new(copy_expr(coeff)))), Box::new(copy_expr(inner))), "∫e^(ax) dx = (1/a)e^(ax)"),
                    _ => nothing(),
                },
            _ => nothing(),
        },
        _ => nothing(),
    }
}

/// `∫1/(x²-c) dx = (1/(2√c))·ln|(x-√c)/(x+√c)|`.
pub open spec fn integral_one_over_x2_minus_a2_applies(e: Expr) -> bool {
    e matches Expr::Integral { expr: inner, var } && (*inner matches Expr::Div(a236, a237) && is_lit(*a236, 1) && (*a237 matches Expr::Sub(a238, a239) && (*a238 matches Expr::Pow(a240, a241) && is_var(*a240, var) && num_is(*a241, 2))))
}

/// The results of `integral_one_over_x2_minus_a2` on `e`, each with its justification.
pub open spec fn integral_one_over_x2_minus_a2_results(e: Expr) -> Seq<(Expr, Seq<char>)> {
    match e {
        Expr::Integral { expr: inner, var } => match *inner {
            Expr::Div(_, b248) => match *b248 {
                    Expr::Sub(_, right) => one(Expr::Mul(Box::new(Expr::Div(Box::new(lit(1)), Box::new(Expr::Mul(Box::new(lit(2)), Box::new(Expr::Sqrt(Box::new(*right))))))), Box::new(Expr::Ln(Box::new(Expr::Abs(Box::new(Expr::Div(Box::new(Expr::Sub(Box::new(Expr::Var(var)), Box::new(Expr::Sqrt(Box::new(*right))))), Box::new(Expr::Add(Box::new(Expr::Var(var)), Box::new(Expr::Sqrt(Box::new(*right)))))))))))), "∫1/(x²-a²) dx = (1/2a)ln|(x-a)/(x+a)| (partial fractions)"@),
                    _ => none(),
                },
            _ => none(),
        },
        _ => none(),
    }
}

/// Whether [`integral_one_over_x2_minus_a2_applies`] holds of `e`.
pub(crate) fn integral_one_over_x2_minus_a2_applicable(e: &Expr) -> (r: bool)
    ensures
        r == integral_one_over_x2_minus_a2_applies(*e),
{
    match e {
        Expr::Integral { expr: inner, var } => (match &**inner {
            Expr::Div(a242, a243) => is_lit_e(&**a242, 1) && (match &**a243 {
                    Expr::Sub(a244, _) => (match &**a244 {
                            Expr::Pow(a246, a247) => is_var_e(&**a246, *var) && num_is_e(&**a247, 2),
                            _ => false,
                        }),
                    _ => false,
                }),
            _ => false,
        }),
        _ => false,
    }
}

/// The results of `integral_one_over_x2_minus_a2` on `e`, as [`integral_one_over_x2_minus_a2_results`] states.
pub(crate) fn integral_one_over_x2_minus_a2_apply(e: &Expr) -> (v: Vec<RuleApplication>)
    ensures
        apps_view(v@) == integral_one_over_x2_minus_a2_results(*e),
{
    match e {
        Expr::Integral { expr: inner, var } => match &**inner {
            Expr::Div(_, b249) => match &**b249 {
                    Expr::Sub(_, right) => single(Expr::Mul(Box::new(Expr::Div(Box::new(mk_lit(1)), Box::new(Expr::Mul(Box::new(mk_lit(2)), Box::new(Expr::Sqrt(Box::new(copy_expr(right)))))))), Box::new(Expr::Ln(Box::new(Expr::Abs(Box::new(Expr::Div(Box::new(Expr::Sub(Box::new(Expr::Var(*var)), Box::new(Expr::Sqrt(Box::new(copy_expr(right)))))), Box::new(Expr::Add(Box::new(Expr::Var(*var)), Box::new(Expr::Sqrt(Box::new(copy_expr(right))))))))))))), "∫1/(x²-a²) dx = (1/2a)ln|(x-a)/(x+a)| (partial fractions)"),
                    _ => nothing(),
                },
            _ => nothing(),
        },
        _ => nothing(),
    }
}

/// `∫sin(x)^n dx = x/2 - sin(2x)/4` for an exponent with numerator 2; any integral gives that.
pub open spec fn integral_sin_squared_applies(e: Expr) -> bool {
    e matches Expr::Integral { expr: inner, var } && (*inner matches Expr::Pow(a250, a251) && (*a250 matches Expr::Sin(a252) && is_var(*a252, var)) && num_is(*a251, 2))
}

/// The results of `integral_sin_squared` on `e`, each with its justification.
pub open spec fn integral_sin_squared_results(e: Expr) -> Seq<(Expr, Seq<char>)> {
    match e {
        Expr::Integral { var, .. } => one(Expr::Sub(Box::new(Expr::Div(Box::new(Expr::Var(var)), Box::new(lit(2)))), Box::new(Expr::Div(Box::new(Expr::Sin(Box::new(Expr::Mul(Box::new(lit(2)), Box::new(Expr::Var(var)))))), Box::new(lit(4))))), "∫sin²(x) dx = x/2 - sin(2x)/4 (reduction formula)"@),
        _ => none(),
    }
}

/// Whether [`integral_sin_squared_applies`] holds of `e`.
pub(crate) fn integral_sin_squared_applicable(e: &Expr) -> (r: bool)
    ensures
        r == integral_sin_squared_applies(*e),
{
    match e {
        Expr::Integral { expr: inner, var } => (match &**inner {
            Expr::Pow(a253, a254) => (match &**a253 {
                    Expr::Sin(a255) => is_var_e(&**a255, *var),
                    _ => false,
                }) && num_is_e(&**a254, 2),
            _ => false,
        }),
        _ => false,
    }
}

/// The results of `integral_sin_squared` on `e`, as [`integral_sin_squared_results`] states.
pub(crate) fn integral_sin_squared_apply(e: &Expr) -> (v: Vec<RuleApplication>)
    ensures
        apps_view(v@) == integral_sin_squared_results(*e),
{
    match e {
        Expr::Integral { var, .. } => single(Expr::Sub(Box::new(Expr::Div(Box::new(Expr::Var(*var)), Box::new(mk_lit(2)))), Box::new(Expr::Div(Box::new(Expr::Sin(Box::new(Expr::Mul(Box::new(mk_lit(2)), Box::new(Expr::Var(*var)))))), Box::new(mk_lit(4))))), "∫sin²(x) dx = x/2 - sin(2x)/4 (reduction formula)"),
        _ => nothing(),
    }
}

/// `∫cos(x)^n dx = x/2 + sin(2x)/4` for an exponent with numerator 2; any integral gives that.
pub open spec fn integral_cos_squared_applies(e: Expr) -> bool {
    e matches Expr::Integral { expr: inner, var } && (*inner matches Expr::Pow(a256, a257) && (*a256 matches Expr::Cos(a258) && is_var(*a258, var)) && num_is(*a257, 2))
}

/// The results of `integral_cos_squared` on `e`, each with its justification.
pub open spec fn integral_cos_squared_results(e: Expr) -> Seq<(Expr, Seq<char>)> {
    match e {
        Expr::Integral { var, .. } => one(Expr::Add(Box::new(Expr::Div(Box::new(Expr::Var(var)), Box::new(lit(2)))), Box::new(Expr::Div(Box::new(Expr::Sin(Box::new(Expr::Mul(Box::new(lit(2)), Box::new(Expr::Var(var)))))), Box::new(lit(4))))), "∫cos²(x) dx = x/2 + sin(2x)/4 (reduction formula)"@),
        _ => none(),
    }
}

/// Whether [`integral_cos_squared_applies`] holds of `e`.
pub(crate) fn integral_cos_squared_applicable(e: &Expr) -> (r: bool)
    ensures
        r == integral_cos_squared_applies(*e),
{
    match e {
        Expr::Integral { expr: inner, var } => (match &**inner {
            Expr::Pow(a259, a260) => (match &**a259 {
                    Expr::Cos(a261) => is_var_e(&**a261, *var),
                    _ => false,
                }) && num_is_e(&**a260, 2),
            _ => false,
        }),
        _ => false,
    }
}

/// The results of `integral_cos_squared` on `e`, as [`integral_cos_squared_results`] states.
pub(crate) fn integral_cos_squared_apply(e: &Expr) -> (v: Vec<RuleApplication>)
    ensures
        apps_view(v@) == integral_cos_squared_results(*e),
{
    match e {
        Expr::Integral { var, .. } => single(Expr::Add(Box::new(Expr::Div(Box::new(Expr::Var(*var)), Box::new(mk_lit(2)))), Box::new(Expr::Div(Box::new(Expr::Sin(Box::new(Expr::Mul(Box::new(mk_lit(2)), Box::new(Expr::Var(*var)))))), Box::new(mk_lit(4))))), "∫cos²(x) dx = x/2 + sin(2x)/4 (reduction formula)"),
        _ => nothing(),
    }
}

/// `∫(sin(x)/cos(x))^n dx = sin(x)/cos(x) - x` for an exponent with numerator 2; any integral gives that.
pub open spec fn integral_tan_squared_applies(e: Expr) -> bool {
    e matches Expr::Integral { expr: inner, var } && (*inner matches Expr::Pow(a262, a263) && (*a262 matches Expr::Div(a264, a265) && (*a264 matches Expr::Sin(a266) && is_var(*a266, var)) && (*a265 matches Expr::Cos(a267) && is_var(*a267, var))) && num_is(*a263, 2))
}

/// The results of `integral_tan_squared` on `e`, each with its justification.
pub open spec fn integral_tan_squared_results(e: Expr) -> Seq<(Expr, Seq<char>)> {
    match e {
        Expr::Integral { var, .. } => one(Expr::Sub(Box::new(Expr::Div(Box::new(Expr::Sin(Box::new(Expr::Var(var)))), Box::new(Expr::Cos(Box::new(Expr::Var(var)))))), Box::new(Expr::Var(var))), "∫tan²(x) dx = tan(x) - x (reduction formula)"@),
        _ => none(),
    }
}

/// Whether [`integral_tan_squared_applies`] holds of `e`.
pub(crate) fn integral_tan_squared_applicable(e: &Expr) -> (r: bool)
    ensures
        r == integral_tan_squared_applies(*e),
{
    match e {
        Expr::Integral { expr: inner, var } => (match &**inner {
            Expr::Pow(a268, a269) => (match &**a268 {
                    Expr::Div(a270, a271) => (match &**a270 {
                            Expr::Sin(a272) => is_var_e(&**a272, *var),
                            _ => false,
                        }) && (match &**a271 {
                            Expr::Cos(a273) => is_var_e(&**a273, *var),
                            _ => false,
                        }),
                    _ => false,
                }) && num_is_e(&**a269, 2),
            _ => false,
        }),
        _ => false,
    }
}

/// The results of `integral_tan_squared` on `e`, as [`integral_tan_squared_results`] states.
pub(crate) fn integral_tan_squared_apply(e: &Expr) -> (v: Vec<RuleApplication>)
    ensures
        apps_view(v@) == integral_tan_squared_results(*e),
{
    match e {
        Expr::Integral { var, .. } => single(Expr::Sub(Box::new(Expr::Div(Box::new(Expr::Sin(Box::new(Expr::Var(*var)))), Box::new(Expr::Cos(Box::new(Expr::Var(*var)))))), Box::new(Expr::Var(*var))), "∫tan²(x) dx = tan(x) - x (reduction formula)"),
        _ => nothing(),
    }
}

/// `∫(1/cos(x))^n dx = (sec·tan + ln|sec + tan|)/2` for an exponent with numerator 3; any integral gives that.
pub open spec fn integral_sec_cubed_applies(e: Expr) -> bool {
    e matches Expr::Integral { expr: inner, var } && (*inner matches Expr::Pow(a274, a275) && (*a274 matches Expr::Div(a276, a277) && is_lit(*a276, 1) && (*a277 matches Expr::Cos(a278) && is_var(*a278, var))) && num_is(*a275, 3))
}

/// The results of `integral_sec_cubed` on `e`, each with its justification.
pub open spec fn integral_sec_cubed_results(e: Expr) -> Seq<(Expr, Seq<char>)> {
    match e {
        Expr::Integral { var, .. } => one(Expr::Div(Box::new(Expr::Add(Box::new(Expr::Mul(Box::new(Expr::Div(Box::new(lit(1)), Box::new(Expr::Cos(Box::new(Expr::Var(var)))))), Box::new(Expr::Div(Box::new(Expr::Sin(Box::new(Expr::Var(var)))), Box::new(Expr::Cos(Box::new(Expr::Var(var)))))))), Box::new(Expr::Ln(Box::new(Expr::Abs(Box::new(Expr::Add(Box::new(Expr::Div(Box::new(lit(1)), Box::new(Expr::Cos(Box::new(Expr::Var(var)))))), Box::new(Expr::Div(Box::new(Expr::Sin(Box::new(Expr::Var(var)))), Box::new(Expr::Cos(Box::new(Expr::Var(var)))))))))))))), Box::new(lit(2))), "∫sec³(x) dx = (1/2)[sec(x)tan(x) + ln|sec(x)+tan(x)|]"@),
        _ => none(),
    }
}

/// Whether [`integral_sec_cubed_applies`] holds of `e`.
pub(crate) fn integral_sec_cubed_applicable(e: &Expr) -> (r: bool)
    ensures
        r == integral_sec_cubed_applies(*e),
{
    match e {
        Expr::Integral { expr: inner, var } => (match &**inner {
            Expr::Pow(a279, a280) => (match &**a279 {
                    Expr::Div(a281, a282) => is_lit_e(&**a281, 1) && (match &**a282 {
                            Expr::Cos(a283) => is_var_e(&**a283, *var),
                            _ => false,
                        }),
                    _ => false,
                }) && num_is_e(&**a280, 3),
            _ => false,
        }),
        _ => false,
    }
}

/// The results of `integral_sec_cubed` on `e`, as [`integral_sec_cubed_results`] states.
pub(crate) fn integral_sec_cubed_apply(e: &Expr) -> (v: Vec<RuleApplication>)
    ensures
        apps_view(v@) == integral_sec_cubed_results(*e),
{
    match e {
        Expr::Integral { var, .. } => single(Expr::Div(Box::new(Expr::Add(Box::new(Expr::Mul(Box::new(Expr::Div(Box::new(mk_lit(1)), Box::new(Expr::Cos(Box::new(Expr::Var(*var)))))), Box::new(Expr::Div(Box::new(Expr::Sin(Box::new(Expr::Var(*var)))), Box::new(Expr::Cos(Box::new(Expr::Var(*var)))))))), Box::new(Expr::Ln(Box::new(Expr::Abs(Box::new(Expr::Add(Box::new(Expr::Div(Box::new(mk_lit(1)), Box::new(Expr::Cos(Box::new(Expr::Var(*var)))))), Box::new(Expr::Div(Box::new(Expr::Sin(Box::new(Expr::Var(*var)))), Box::new(Expr::Cos(Box::new(Expr::Var(*var)))))))))))))), Box::new(mk_lit(2))), "∫sec³(x) dx = (1/2)[sec(x)tan(x) + ln|sec(x)+tan(x)|]"),
        _ => nothing(),
    }
}

/// `∫x²·sin(x) dx = -x²·cos(x) + 2x·sin(x) + 2cos(x)` (either factor order); any integral gives that.
pub open spec fn integral_x2_sin_applies(e: Expr) -> bool {
    e matches Expr::Integral { expr: inner, var } && ((*inner matches Expr::Mul(a284, a285) && (*a284 matches Expr::Pow(a286, a287) && is_var(*a286, var) && num_is(*a287, 2)) && (*a285 matches Expr::Sin(a288) && is_var(*a288, var))) || (*inner matches Expr::Mul(a289, a290) && (*a289 matches Expr::Sin(a291) && is_var(*a291, var)) && (*a290 matches Expr::Pow(a292, a293) && is_var(*a292, var) && num_is(*a293, 2))))
}

/// The results of `integral_x2_sin` on `e`, each with its justification.
pub open spec fn integral_x2_sin_results(e: Expr) -> Seq<(Expr, Seq<char>)> {
    match e {
        Expr::Integral { var, .. } => one(Expr::Add(Box::new(Expr::Add(Box::new(Expr::Neg(Box::new(Expr::Mul(Box::new(Expr::Pow(Box::new(Expr::Var(var)), Box::new(lit(2)))), Box::new(Expr::Cos(Box::new(Expr::Var(var)))))))), Box::new(Expr::Mul(Box::new(Expr::Mul(Box::new(lit(2)), Box::new(Expr::Var(var)))), Box::new(Expr::Sin(Box::new(Expr::Var(var)))))))), Box::new(Expr::Mul(Box::new(lit(2)), Box::new(Expr::Cos(Box::new(Expr::Var(var))))))), "∫x²·sin(x) dx = -x²·cos(x) + 2x·sin(x) + 2cos(x) (by parts)"@),
        _ => none(),
    }
}

/// Whether [`integral_x2_sin_applies`] holds of `e`.
pub(crate) fn integral_x2_sin_applicable(e: &Expr) -> (r: bool)
    ensures
        r == integral_x2_sin_applies(*e),
{
    match e {
        Expr::Integral { expr: inner, var } => ((match &**inner {
            Expr::Mul(a294, a295) => (match &**a294 {
                    Expr::Pow(a296, a297) => is_var_e(&**a296, *var) && num_is_e(&**a297, 2),
                    _ => false,
                }) && (match &**a295 {
                    Expr::Sin(a298) => is_var_e(&**a298, *var),
                    _ => false,
                }),
            _ => false,
        }) || (match &**inner {
            Expr::Mul(a299, a300) => (match &**a299 {
                    Expr::Sin(a301) => is_var_e(&**a301, *var),
                    _ => false,
                }) && (match &**a300 {
                    Expr::Pow(a302, a303) => is_var_e(&**a302, *var) && num_is_e(&**a303, 2),
                    _ => false,
                }),
            _ => false,
        })),
        _ => false,
    }
}

/// The results of `integral_x2_sin` on `e`, as [`integral_x2_sin_results`] states.
pub(crate) fn integral_x2_sin_apply(e: &Expr) -> (v: Vec<RuleApplication>)
    ensures
        apps_view(v@) == integral_x2_sin_results(*e),
{
    match e {
        Expr::Integral { var, .. } => single(Expr::Add(Box::new(Expr::Add(Box::new(Expr::Neg(Box::new(Expr::Mul(Box::new(Expr::Pow(Box::new(Expr::Var(*var)), Box::new(mk_lit(2)))), Box::new(Expr::Cos(Box::new(Expr::Var(*var)))))))), Box::new(Expr::Mul(Box::new(Expr::Mul(Box::new(mk_lit(2)), Box::new(Expr::Var(*var)))), Box::new(Expr::Sin(Box::new(Expr::Var(*var)))))))), Box::new(Expr::Mul(Box::new(mk_lit(2)), Box::new(Expr::Cos(Box::new(Expr::Var(*var))))))), "∫x²·sin(x) dx = -x²·cos(x) + 2x·sin(x) + 2cos(x) (by parts)"),
        _ => nothing(),
    }
}

/// `∫x²·cos(x) dx = x²·sin(x) + 2x·cos(x) - 2sin(x)` (either factor order); any integral gives that.
pub open spec fn integral_x2_cos_applies(e: Expr) -> bool {
    e matches Expr::Integral { expr: inner, var } && ((*inner matches Expr::Mul(a304, a305) && (*a304 matches Expr::Pow(a306, a307) && is_var(*a306, var) && num_is(*a307, 2)) && (*a305 matches Expr::Cos(a308) && is_var(*a308, var))) || (*inner matches Expr::Mul(a309, a310) && (*a309 matches Expr::Cos(a311) && is_var(*a311, var)) && (*a310 matches Expr::Pow(a312, a313) && is_var(*a312, var) && num_is(*a313, 2))))
}

/// The results of `integral_x2_cos` on `e`, each with its justification.
pub open spec fn integral_x2_cos_results(e: Expr) -> Seq<(Expr, Seq<char>)> {
    match e {
        Expr::Integral { var, .. } => one(Expr::Sub(Box::new(Expr::Add(Box::new(Expr::Mul(Box::new(Expr::Pow(Box::new(Expr::Var(var)), Box::new(lit(2)))), Box::new(Expr::Sin(Box::new(Expr::Var(var)))))), Box::new(Expr::Mul(Box::new(Expr::Mul(Box::new(lit(2)), Box::new(Expr::Var(var)))), Box::new(Expr::Cos(Box::new(Expr::Var(var)))))))), Box::new(Expr::Mul(Box::new(lit(2)), Box::new(Expr::Sin(Box::new(Expr::Var(var))))))), "∫x²·cos(x) dx = x²·sin(x) + 2x·cos(x) - 2sin(x) (by parts)"@),
        _ => none(),
    }
}

/// Whether [`integral_x2_cos_applies`] holds of `e`.
pub(crate) fn integral_x2_cos_applicable(e: &Expr) -> (r: bool)
    ensures
        r == integral_x2_cos_applies(*e),
{
    match e {
        Expr::Integral { expr: inner, var } => ((match &**inner {
            Expr::Mul(a314, a315) => (match &**a314 {
                    Expr::Pow(a316, a317) => is_var_e(&**a316, *var) && num_is_e(&**a317, 2),
                    _ => false,
                }) && (match &**a315 {
                    Expr::Cos(a318) => is_var_e(&**a318, *var),
                    _ => false,
                }),
            _ => false,
        }) || (match &**inner {
            Expr::Mul(a319, a320) => (match &**a319 {
                    Expr::Cos(a321) => is_var_e(&**a321, *var),
                    _ => false,
                }) && (match &**a320 {
                    Expr::Pow(a322, a323) => is_var_e(&**a322, *var) && num_is_e(&**a323, 2),
                    _ => false,
                }),
            _ => false,
        })),
        _ => false,
    }
}

/// The results of `integral_x2_cos` on `e`, as [`integral_x2_cos_results`] states.
pub(crate) fn integral_x2_cos_apply(e: &Expr) -> (v: Vec<RuleApplication>)
    ensures
        apps_view(v@) == integral_x2_cos_results(*e),
{
    match e {
        Expr::Integral { var, .. } => single(Expr::Sub(Box::new(Expr::Add(Box::new(Expr::Mul(Box::new(Expr::Pow(Box::new(Expr::Var(*var)), Box::new(mk_lit(2)))), Box::new(Expr::Sin(Box::new(Expr::Var(*var)))))), Box::new(Expr::Mul(Box::new(Expr::Mul(Box::new(mk_lit(2)), Box::new(Expr::Var(*var)))), Box::new(Expr::Cos(Box::new(Expr::Var(*var)))))))), Box::new(Expr::Mul(Box::new(mk_lit(2)), Box::new(Expr::Sin(Box::new(Expr::Var(*var))))))), "∫x²·cos(x) dx = x²·sin(x) + 2x·cos(x) - 2sin(x) (by parts)"),
        _ => nothing(),
    }
}

/// `∫e^x·sin(x) dx = e^x·(sin(x) - cos(x))/2` (either factor order); any integral gives that.
pub open spec fn integral_exp_sin_applies(e: Expr) -> bool {
    e matches Expr::Integral { expr: inner, var } && ((*inner matches Expr::Mul(a324, a325) && (*a324 matches Expr::Exp(a326) && is_var(*a326, var)) && (*a325 matches Expr::Sin(a327) && is_var(*a327, var))) || (*inner matches Expr::Mul(a328, a329) && (*a328 matches Expr::Sin(a330) && is_var(*a330, var)) && (*a329 matches Expr::Exp(a331) && is_var(*a331, var))))
}

/// The results of `integral_exp_sin` on `e`, each with its justification.
pub open spec fn integral_exp_sin_results(e: Expr) -> Seq<(Expr, Seq<char>)> {
    match e {
        Expr::Integral { var, .. } => one(Expr::Div(Box::new(Expr::Mul(Box::new(Expr::Exp(Box::new(Expr::Var(var)))), Box::new(Expr::Sub(Box::new(Expr::Sin(Box::new(Expr::Var(var)))), Box::new(Expr::Cos(Box::new(Expr::Var(var)))))))), Box::new(lit(2))), "∫e^x·sin(x) dx = (e^x/2)(sin(x) - cos(x)) (by parts)"@),
        _ => none(),
    }
}

/// Whether [`integral_exp_sin_applies`] holds of `e`.
pub(crate) fn integral_exp_sin_applicable(e: &Expr) -> (r: bool)
    ensures
        r == integral_exp_sin_applies(*e),
{
    match e {
        Expr::Integral { expr: inner, var } => ((match &**inner {
            Expr::Mul(a332, a333) => (match &**a332 {
                    Expr::Exp(a334) => is_var_e(&**a334, *var),
                    _ => false,
                }) && (match &**a333 {
                    Expr::Sin(a335) => is_var_e(&**a335, *var),
                    _ => false,
                }),
            _ => false,
        }) || (match &**inner {
            Expr::Mul(a336, a337) => (match &**a336 {
                    Expr::Sin(a338) => is_var_e(&**a338, *var),
                    _ => false,
                }) && (match &**a337 {
                    Expr::Exp(a339) => is_var_e(&**a339, *var),
                    _ => false,
                }),
            _ => false,
        })),
        _ => false,
    }
}

/// The results of `integral_exp_sin` on `e`, as [`integral_exp_sin_results`] states.
pub(crate) fn integral_exp_sin_apply(e: &Expr) -> (v: Vec<RuleApplication>)
    ensures
        apps_view(v@) == integral_exp_sin_results(*e),
{
    match e {
        Expr::Integral { var, .. } => single(Expr::Div(Box::new(Expr::Mul(Box::new(Expr::Exp(Box::new(Expr::Var(*var)))), Box::new(Expr::Sub(Box::new(Expr::Sin(Box::new(Expr::Var(*var)))), Box::new(Expr::Cos(Box::new(Expr::Var(*var)))))))), Box::new(mk_lit(2))), "∫e^x·sin(x) dx = (e^x/2)(sin(x) - cos(x)) (by parts)"),
        _ => nothing(),
    }
}

/// `∫e^x·cos(x) dx = e^x·(sin(x) + cos(x))/2` (either factor order); any integral gives that.
pub open spec fn integral_exp_cos_applies(e: Expr) -> bool {
    e matches Expr::Integral { expr: inner, var } && ((*inner matches Expr::Mul(a340, a341) && (*a340 matches Expr::Exp(a342) && is_var(*a342, var)) && (*a341 matches Expr::Cos(a343) && is_var(*a343, var))) || (*inner matches Expr::Mul(a344, a345) && (*a344 matches Expr::Cos(a346) && is_var(*a346, var)) && (*a345 matches Expr::Exp(a347) && is_var(*a347, var))))
}

/// The results of `integral_exp_cos` on `e`, each with its justification.
pub open spec fn integral_exp_cos_results(e: Expr) -> Seq<(Expr, Seq<char>)> {
    match e {
        Expr::Integral { var, .. } => one(Expr::Div(Box::new(Expr::Mul(Box::new(Expr::Exp(Box::new(Expr::Var(var)))), Box::new(Expr::Add(Box::new(Expr::Sin(Box::new(Expr::Var(var)))), Box::new(Expr::Cos(Box::new(Expr::Var(var)))))))), Box::new(lit(2))), "∫e^x·cos(x) dx = (e^x/2)(sin(x) + cos(x)) (by parts)"@),
        _ => none(),
    }
}

/// Whether [`integral_exp_cos_applies`] holds of `e`.
pub(crate) fn integral_exp_cos_applicable(e: &Expr) -> (r: bool)
    ensures
        r == integral_exp_cos_applies(*e),
{
    match e {
        Expr::Integral { expr: inner, var } => ((match &**inner {
            Expr::Mul(a348, a349) => (match &**a348 {
                    Expr::Exp(a350) => is_var_e(&**a350, *var),
                    _ => false,
                }) && (match &**a349 {
                    Expr::Cos(a351) => is_var_e(&**a351, *var),
                    _ => false,
                }),
            _ => false,
        }) || (match &**inner {
            Expr::Mul(a352, a353) => (match &**a352 {
                    Expr::Cos(a354) => is_var_e(&**a354, *var),
                    _ => false,
                }) && (match &**a353 {
                    Expr::Exp(a355) => is_var_e(&**a355, *var),
                    _ => false,
                }),
            _ => false,
        })),
        _ => false,
    }
}

/// The results of `integral_exp_cos` on `e`, as [`integral_exp_cos_results`] states.
pub(crate) fn integral_exp_cos_apply(e: &Expr) -> (v: Vec<RuleApplication>)
    ensures
        apps_view(v@) == integral_exp_cos_results(*e),
{
    match e {
        Expr::Integral { var, .. } => single(Expr::Div(Box::new(Expr::Mul(Box::new(Expr::Exp(Box::new(Expr::Var(*var)))), Box::new(Expr::Add(Box::new(Expr::Sin(Box::new(Expr::Var(*var)))), Box::new(Expr::Cos(Box::new(Expr::Var(*var)))))))), Box::new(mk_lit(2))), "∫e^x·cos(x) dx = (e^x/2)(sin(x) + cos(x)) (by parts)"),
        _ => nothing(),
    }
}

/// `∫√(c - x²) dx`, answered with the unit radius: `(x/2)·√(1-x²) + arcsin(x)/2`.
pub open spec fn integral_sqrt_a2_minus_x2_applies(e: Expr) -> bool {
    e matches Expr::Integral { expr: inner, var } && (*inner matches Expr::Sqrt(a356) && (*a356 matches Expr::Sub(a357, a358) && (*a358 matches Expr::Pow(a359, a360) && is_var(*a359, var) && num_is(*a360, 2))))
}

/// The results of `integral_sqrt_a2_minus_x2` on `e`, each with its justification.
pub open spec fn integral_sqrt_a2_minus_x2_results(e: Expr) -> Seq<(Expr, Seq<char>)> {
    match e {
        Expr::Integral { var, .. } => one(Expr::Add(Box::new(Expr::Mul(Box::new(Expr::Div(Box::new(Expr::Var(var)), Box::new(lit(2)))), Box::new(Expr::Sqrt(Box::new(Expr::Sub(Box::new(lit(1)), Box::new(Expr::Pow(Box::new(Expr::Var(var)), Box::new(lit(2)))))))))), Box::new(Expr::Div(Box::new(Expr::Arcsin(Box::new(Expr::Var(var)))), Box::new(lit(2))))), "∫√(a²-x²) dx = (x/2)√(a²-x²) + (a²/2)arcsin(x/a)"@),
        _ => none(),
    }
}

/// Whether [`integral_sqrt_a2_minus_x2_applies`] holds of `e`.
pub(crate) fn integral_sqrt_a2_minus_x2_applicable(e: &Expr) -> (r: bool)
    ensures
        r == integral_sqrt_a2_minus_x2_applies(*e),
{
    match e {
        Expr::Integral { expr: inner, var } => (match &**inner {
            Expr::Sqrt(a361) => (match &**a361 {
                    Expr::Sub(_, a363) => (match &**a363 {
                            Expr::Pow(a364, a365) => is_var_e(&**a364, *var) && num_is_e(&**a365, 2),
                            _ => false,
                        }),
                    _ => false,
                }),
            _ => false,
        }),
        _ => false,
    }
}

/// The results of `integral_sqrt_a2_minus_x2` on `e`, as [`integral_sqrt_a2_minus_x2_results`] states.
pub(crate) fn integral_sqrt_a2_minus_x2_apply(e: &Expr) -> (v: Vec<RuleApplication>)
    ensures
        apps_view(v@) == integral_sqrt_a2_minus_x2_results(*e),
{
    match e {
        Expr::Integral { var, .. } => single(Expr::Add(Box::new(Expr::Mul(Box::new(Expr::Div(Box::new(Expr::Var(*var)), Box::new(mk_lit(2)))), Box::new(Expr::Sqrt(Box::new(Expr::Sub(Box::new(mk_lit(1)), Box::new(Expr::Pow(Box::new(Expr::Var(*var)), Box::new(mk_lit(2)))))))))), Box::new(Expr::Div(Box::new(Expr::Arcsin(Box::new(Expr::Var(*var)))), Box::new(mk_lit(2))))), "∫√(a²-x²) dx = (x/2)√(a²-x²) + (a²/2)arcsin(x/a)"),
        _ => nothing(),
    }
}

/// `∫√(x² + c) dx` (either order), answered with the unit radius: `(x/2)·√(x²+1) + ln|x+√(x²+1)|/2`.
pub open spec fn integral_sqrt_x2_plus_a2_applies(e: Expr) -> bool {
    e matches Expr::Integral { expr: inner, var } && (*inner matches Expr::Sqrt(a366) && ((*a366 matches Expr::Add(a367, a368) && (*a367 matches Expr::Pow(a369, a370) && is_var(*a369, var) && num_is(*a370, 2))) || (*a366 matches Expr::Add(a371, a372) && (*a372 matches Expr::Pow(a373, a374) && is_var(*a373, var) && num_is(*a374, 2)))))
}

/// The results of `integral_sqrt_x2_plus_a2` on `e`, each with its justification.
pub open spec fn integral_sqrt_x2_plus_a2_results(e: Expr) -> Seq<(Expr, Seq<char>)> {
    match e {
        Expr::Integral { var, .. } => one(Expr::Add(Box::new(Expr::Mul(Box::new(Expr::Div(Box::new(Expr::Var(var)), Box::new(lit(2)))), Box::new(Expr::Sqrt(Box::new(Expr::Add(Box::new(Expr::Pow(Box::new(Expr::Var(var)), Box::new(lit(2)))), Box::new(lit(1)))))))), Box::new(Expr::Div(Box::new(Expr::Ln(Box::new(Expr::Abs(Box::new(Expr::Add(Box::new(Expr::Var(var)), Box::new(Expr::Sqrt(Box::new(Expr::Add(Box::new(Expr::Pow(Box::new(Expr::Var(var)), Box::new(lit(2)))), Box::new(lit(1)))))))))))), Box::new(lit(2))))), "∫√(x²+a²) dx = (x/2)√(x²+a²) + (a²/2)ln|x+√(x²+a²)|"@),
        _ => none(),
    }
}

/// Whether [`integral_sqrt_x2_plus_a2_applies`] holds of `e`.
pub(crate) fn integral_sqrt_x2_plus_a2_applicable(e: &Expr) -> (r: bool)
    ensures
        r == integral_sqrt_x2_plus_a2_applies(*e),
{
    match e {
        Expr::Integral { expr: inner, var } => (match &**inner {
            Expr::Sqrt(a375) => ((match &**a375 {
                    Expr::Add(a376, _) => (match &**a376 {
                            Expr::Pow(a378, a379) => is_var_e(&**a378, *var) && num_is_e(&**a379, 2),
                            _ => false,
                        }),
                    _ => false,
                }) || (match &**a375 {
                    Expr::Add(_, a381) => (match &**a381 {
                            Expr::Pow(a382, a383) => is_var_e(&**a382, *var) && num_is_e(&**a383, 2),
                            _ => false,
                        }),
                    _ => false,
                })),
            _ => false,
        }),
        _ => false,
    }
}

/// The results of `integral_sqrt_x2_plus_a2` on `e`, as [`integral_sqrt_x2_plus_a2_results`] states.
pub(crate) fn integral_sqrt_x2_plus_a2_apply(e: &Expr) -> (v: Vec<RuleApplication>)
    ensures
        apps_view(v@) == integral_sqrt_x2_plus_a2_results(*e),
{
    match e {
        Expr::Integral { var, .. } => single(Expr::Add(Box::new(Expr::Mul(Box::new(Expr::Div(Box::new(Expr::Var(*var)), Box::new(mk_lit(2)))), Box::new(Expr::Sqrt(Box::new(Expr::Add(Box::new(Expr::Pow(Box::new(Expr::Var(*var)), Box::new(mk_lit(2)))), Box::new(mk_lit(1)))))))), Box::new(Expr::Div(Box::new(Expr::Ln(Box::new(Expr::Abs(Box::new(Expr::Add(Box::new(Expr::Var(*var)), Box::new(Expr::Sqrt(Box::new(Expr::Add(Box::new(Expr::Pow(Box::new(Expr::Var(*var)), Box::new(mk_lit(2)))), Box::new(mk_lit(1)))))))))))), Box::new(mk_lit(2))))), "∫√(x²+a²) dx = (x/2)√(x²+a²) + (a²/2)ln|x+√(x²+a²)|"),
        _ => nothing(),
    }
}

/// `∫√(x² - c) dx`, answered with the unit radius: `(x/2)·√(x²-1) - ln|x+√(x²-1)|/2`.
pub open spec fn integral_sqrt_x2_minus_a2_applies(e: Expr) -> bool {
    e matches Expr::Integral { expr: inner, var } && (*inner matches Expr::Sqrt(a384) && (*a384 matches Expr::Sub(a385, a386) && (*a385 matches Expr::Pow(a387, a388) && is_var(*a387, var) && num_is(*a388, 2))))
}

/// The results of `integral_sqrt_x2_minus_a2` on `e`, each with its justification.
pub open spec fn integral_sqrt_x2_minus_a2_results(e: Expr) -> Seq<(Expr, Seq<char>)> {
    match e {
        Expr::Integral { var, .. } => one(Expr::Add(Box::new(Expr::Mul(Box::new(Expr::Div(Box::new(Expr::Var(var)), Box::new(lit(2)))), Box::new(Expr::Sqrt(Box::new(Expr::Sub(Box::new(Expr::Pow(Box::new(Expr::Var(var)), Box::new(lit(2)))), Box::new(lit(1)))))))), Box::new(Expr::Neg(Box::new(Expr::Div(Box::new(Expr::Ln(Box::new(Expr::Abs(Box::new(Expr::Add(Box::new(Expr::Var(var)), Box::new(Expr::Sqrt(Box::new(Expr::Sub(Box::new(Expr::Pow(Box::new(Expr::Var(var)), Box::new(lit(2)))), Box::new(lit(1)))))))))))), Box::new(lit(2))))))), "∫√(x²-a²) dx = (x/2)√(x²-a²) - (a²/2)ln|x+√(x²-a²)|"@),
        _ => none(),
    }
}

/// Whether [`integral_sqrt_x2_minus_a2_applies`] holds of `e`.
pub(crate) fn integral_sqrt_x2_minus_a2_applicable(e: &Expr) -> (r: bool)
    ensures
        r == integral_sqrt_x2_minus_a2_applies(*e),
{
    match e {
        Expr::Integral { expr: inner, var } => (match &**inner {
            Expr::Sqrt(a389) => (match &**a389 {
                    Expr::Sub(a390, _) => (match &**a390 {
                            Expr::Pow(a392, a393) => is_var_e(&**a392, *var) && num_is_e(&**a393, 2),
                            _ => false,
                        }),
                    _ => false,
                }),
            _ => false,
        }),
        _ => false,
    }
}

/// The results of `integral_sqrt_x2_minus_a2` on `e`, as [`integral_sqrt_x2_minus_a2_results`] states.
pub(crate) fn integral_sqrt_x2_minus_a2_apply(e: &Expr) -> (v: Vec<RuleApplication>)
    ensures
        apps_view(v@) == integral_sqrt_x2_minus_a2_results(*e),
{
    match e {
        Expr::Integral { var, .. } => single(Expr::Add(Box::new(Expr::Mul(Box::new(Expr::Div(Box::new(Expr::Var(*var)), Box::new(mk_lit(2)))), Box::new(Expr::Sqrt(Box::new(Expr::Sub(Box::new(Expr::Pow(Box::new(Expr::Var(*var)), Box::new(mk_lit(2)))), Box::new(mk_lit(1)))))))), Box::new(Expr::Neg(Box::new(Expr::Div(Box::new(Expr::Ln(Box::new(Expr::Abs(Box::new(Expr::Add(Box::new(Expr::Var(*var)), Box::new(Expr::Sqrt(Box::new(Expr::Sub(Box::new(Expr::Pow(Box::new(Expr::Var(*var)), Box::new(mk_lit(2)))), Box::new(mk_lit(1)))))))))))), Box::new(mk_lit(2))))))), "∫√(x²-a²) dx = (x/2)√(x²-a²) - (a²/2)ln|x+√(x²-a²)|"),
        _ => nothing(),
    }
}

/// `∫x·√… dx` (either order), answered with the unit radius: `-(1/3)·(1-x²)^(3/2)`.
pub open spec fn integral_x_sqrt_a2_minus_x2_applies(e: Expr) -> bool {
    e matches Expr::Integral { expr: inner, var } && ((*inner matches Expr::Mul(a394, a395) && is_var(*a394, var) && (*a395 matches Expr::Sqrt(_))) || (*inner matches Expr::Mul(a397, a398) && (*a397 matches Expr::Sqrt(_)) && is_var(*a398, var)))
}

/// The results of `integral_x_sqrt_a2_minus_x2` on `e`, each with its justification.
pub open spec fn integral_x_sqrt_a2_minus_x2_results(e: Expr) -> Seq<(Expr, Seq<char>)> {
    match e {
        Expr::Integral { var, .. } => one(Expr::Neg(Box::new(Expr::Mul(Box::new(Expr::Div(Box::new(lit(1)), Box::new(lit(3)))), Box::new(Expr::Pow(Box::new(Expr::Sub(Box::new(lit(1)), Box::new(Expr::Pow(Box::new(Expr::Var(var)), Box::new(lit(2)))))), Box::new(Expr::Div(Box::new(lit(3)), Box::new(lit(2))))))))), "∫x·√(a²-x²) dx = -(1/3)(a²-x²)^(3/2)"@),
        _ => none(),
    }
}

/// Whether [`integral_x_sqrt_a2_minus_x2_applies`] holds of `e`.
pub(crate) fn integral_x_sqrt_a2_minus_x2_applicable(e: &Expr) -> (r: bool)
    ensures
        r == integral_x_sqrt_a2_minus_x2_applies(*e),
{
    match e {
        Expr::Integral { expr: inner, var } => ((match &**inner {
            Expr::Mul(a400, a401) => is_var_e(&**a400, *var) && (match &**a401 {
                    Expr::Sqrt(_) => true,
                    _ => false,
                }),
            _ => false,
        }) || (match &**inner {
            Expr::Mul(a403, a404) => (match &**a403 {
                    Expr::Sqrt(_) => true,
                    _ => false,
                }) && is_var_e(&**a404, *var),
            _ => false,
        })),
        _ => false,
    }
}

/// The results of `integral_x_sqrt_a2_minus_x2` on `e`, as [`integral_x_sqrt_a2_minus_x2_results`] states.
pub(crate) fn integral_x_sqrt_a2_minus_x2_apply(e: &Expr) -> (v: Vec<RuleApplication>)
    ensures
        apps_view(v@) == integral_x_sqrt_a2_minus_x2_results(*e),
{
    match e {
        Expr::Integral { var, .. } => single(Expr::Neg(Box::new(Expr::Mul(Box::new(Expr::Div(Box::new(mk_lit(1)), Box::new(mk_lit(3)))), Box::new(Expr::Pow(Box::new(Expr::Sub(Box::new(mk_lit(1)), Box::new(Expr::Pow(Box::new(Expr::Var(*var)), Box::new(mk_lit(2)))))), Box::new(Expr::Div(Box::new(mk_lit(3)), Box::new(mk_lit(2))))))))), "∫x·√(a²-x²) dx = -(1/3)(a²-x²)^(3/2)"),
        _ => nothing(),
    }
}

/// `∫1/√(p+q) dx`, answered with the unit radius: `ln|x+√(x²+1)|`.
pub open spec fn integral_inv_sqrt_x2_plus_a2_applies(e: Expr) -> bool {
    e matches Expr::Integral { expr: inner, var } && (*inner matches Expr::Div(a406, a407) && is_lit(*a406, 1) && (*a407 matches Expr::Sqrt(a408) && (*a408 matches Expr::Add(_, _))))
}

/// The results of `integral_inv_sqrt_x2_plus_a2` on `e`, each with its justification.
pub open spec fn integral_inv_sqrt_x2_plus_a2_results(e: Expr) -> Seq<(Expr, Seq<char>)> {
    match e {
        Expr::Integral { var, .. } => one(Expr::Ln(Box::new(Expr::Abs(Box::new(Expr::Add(Box::new(Expr::Var(var)), Box::new(Expr::Sqrt(Box::new(Expr::Add(Box::new(Expr::Pow(Box::new(Expr::Var(var)), Box::new(lit(2)))), Box::new(lit(1))))))))))), "∫1/√(x²+a²) dx = ln|x+√(x²+a²)|"@),
        _ => none(),
    }
}

/// Whether [`integral_inv_sqrt_x2_plus_a2_applies`] holds of `e`.
pub(crate) fn integral_inv_sqrt_x2_plus_a2_applicable(e: &Expr) -> (r: bool)
    ensures
        r == integral_inv_sqrt_x2_plus_a2_applies(*e),
{
    match e {
        Expr::Integral { expr: inner, .. } => (match &**inner {
            Expr::Div(a411, a412) => is_lit_e(&**a411, 1) && (match &**a412 {
                    Expr::Sqrt(a413) => (match &**a413 {
                            Expr::Add(_, _) => true,
                            _ => false,
                        }),
                    _ => false,
                }),
            _ => false,
        }),
        _ => false,
    }
}

/// The results of `integral_inv_sqrt_x2_plus_a2` on `e`, as [`integral_inv_sqrt_x2_plus_a2_results`] states.
pub(crate) fn integral_inv_sqrt_x2_plus_a2_apply(e: &Expr) -> (v: Vec<RuleApplication>)
    ensures
        apps_view(v@) == integral_inv_sqrt_x2_plus_a2_results(*e),
{
    match e {
        Expr::Integral { var, .. } => single(Expr::Ln(Box::new(Expr::Abs(Box::new(Expr::Add(Box::new(Expr::Var(*var)), Box::new(Expr::Sqrt(Box::new(Expr::Add(Box::new(Expr::Pow(Box::new(Expr::Var(*var)), Box::new(mk_lit(2)))), Box::new(mk_lit(1))))))))))), "∫1/√(x²+a²) dx = ln|x+√(x²+a²)|"),
        _ => nothing(),
    }
}

/// `∫1/√(x²-c) dx`, answered with the unit radius: `ln|x+√(x²-1)|`.
pub open spec fn integral_inv_sqrt_x2_minus_a2_applies(e: Expr) -> bool {
    e matches Expr::Integral { expr: inner, var } && (*inner matches Expr::Div(a416, a417) && is_lit(*a416, 1) && (*a417 matches Expr::Sqrt(a418) && (*a418 matches Expr::Sub(a419, a420) && (*a419 matches Expr::Pow(a421, a422) && is_var(*a421, var) && num_is(*a422, 2)))))
}

/// The results of `integral_inv_sqrt_x2_minus_a2` on `e`, each with its justification.
pub open spec fn integral_inv_sqrt_x2_minus_a2_results(e: Expr) -> Seq<(Expr, Seq<char>)> {
    match e {
        Expr::Integral { var, .. } => one(Expr::Ln(Box::new(Expr::Abs(Box::new(Expr::Add(Box::new(Expr::Var(var)), Box::new(Expr::Sqrt(Box::new(Expr::Sub(Box::new(Expr::Pow(Box::new(Expr::Var(var)), Box::new(lit(2)))), Box::new(lit(1))))))))))), "∫1/√(x²-a²) dx = ln|x+√(x²-a²)|"@),
        _ => none(),
    }
}

/// Whether [`integral_inv_sqrt_x2_minus_a2_applies`] holds of `e`.
pub(crate) fn integral_inv_sqrt_x2_minus_a2_applicable(e: &Expr) -> (r: bool)
    ensures
        r == integral_inv_sqrt_x2_minus_a2_applies(*e),
{
    match e {
        Expr::Integral { expr: inner, var } => (match &**inner {
            Expr::Div(a423, a424) => is_lit_e(&**a423, 1) && (match &**a424 {
                    Expr::Sqrt(a425) => (match &**a425 {
                            Expr::Sub(a426, _) => (match &**a426 {
                                    Expr::Pow(a428, a429) => is_var_e(&**a428, *var) && num_is_e(&**a429, 2),
                                    _ => false,
                                }),
                            _ => false,
                        }),
                    _ => false,
                }),
            _ => false,
        }),
        _ => false,
    }
}

/// The results of `integral_inv_sqrt_x2_minus_a2` on `e`, as [`integral_inv_sqrt_x2_minus_a2_results`] states.
pub(crate) fn integral_inv_sqrt_x2_minus_a2_apply(e: &Expr) -> (v: Vec<RuleApplication>)
    ensures
        apps_view(v@) == integral_inv_sqrt_x2_minus_a2_results(*e),
{
    match e {
        Expr::Integral { var, .. } => single(Expr::Ln(Box::new(Expr::Abs(Box::new(Expr::Add(Box::new(Expr::Var(*var)), Box::new(Expr::Sqrt(Box::new(Expr::Sub(Box::new(Expr::Pow(Box::new(Expr::Var(*var)), Box::new(mk_lit(2)))), Box::new(mk_lit(1))))))))))), "∫1/√(x²-a²) dx = ln|x+√(x²-a²)|"),
        _ => nothing(),
    }
}

/// `∫x/√(p+q) dx`, answered with the unit radius: `√(x²+1)`.
pub open spec fn integral_x_over_sqrt_x2_plus_a2_applies(e: Expr) -> bool {
    e matches Expr::Integral { expr: inner, var } && (*inner matches Expr::Div(a430, a431) && is_var(*a430, var) && (*a431 matches Expr::Sqrt(a432) && (*a432 matches Expr::Add(_, _))))
}

/// The results of `integral_x_over_sqrt_x2_plus_a2` on `e`, each with its justification.
pub open spec fn integral_x_over_sqrt_x2_plus_a2_results(e: Expr) -> Seq<(Expr, Seq<char>)> {
    match e {
        Expr::Integral { var, .. } => one(Expr::Sqrt(Box::new(Expr::Add(Box::new(Expr::Pow(Box::new(Expr::Var(var)), Box::new(lit(2)))), Box::new(lit(1))))), "∫x/√(x²+a²) dx = √(x²+a²)"@),
        _ => none(),
    }
}

/// Whether [`integral_x_over_sqrt_x2_plus_a2_applies`] holds of `e`.
pub(crate) fn integral_x_over_sqrt_x2_plus_a2_applicable(e: &Expr) -> (r: bool)
    ensures
        r == integral_x_over_sqrt_x2_plus_a2_applies(*e),
{
    match e {
        Expr::Integral { expr: inner, var } => (match &**inner {
            Expr::Div(a435, a436) => is_var_e(&**a435, *var) && (match &**a436 {
                    Expr::Sqrt(a437) => (match &**a437 {
                            Expr::Add(_, _) => true,
                            _ => false,
                        }),
                    _ => false,
                }),
            _ => false,
        }),
        _ => false,
    }
}

/// The results of `integral_x_over_sqrt_x2_plus_a2` on `e`, as [`integral_x_over_sqrt_x2_plus_a2_results`] states.
pub(crate) fn integral_x_over_sqrt_x2_plus_a2_apply(e: &Expr) -> (v: Vec<RuleApplication>)
    ensures
        apps_view(v@) == integral_x_over_sqrt_x2_plus_a2_results(*e),
{
    match e {
        Expr::Integral { var, .. } => single(Expr::Sqrt(Box::new(Expr::Add(Box::new(Expr::Pow(Box::new(Expr::Var(*var)), Box::new(mk_lit(2)))), Box::new(mk_lit(1))))), "∫x/√(x²+a²) dx = √(x²+a²)"),
        _ => nothing(),
    }
}

} // verus!
