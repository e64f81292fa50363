//! The rewrites of the classical-inequality and monotonicity rules.
//!
//! Each rule fires on an expression of a given shape and produces the bound
//! or the comparison that the named inequality gives.

use vstd::prelude::*;
use crate::expr::Expr;
use crate::rewrite::{bx, is_lit, is_lit_e, lit, mk_lit, none, nothing, one, single};
use crate::rule::{apps_view, RuleApplication};

verus! {

/// `(1+x)^n ≥ 1 + n·x`: offered on a power whose base is `1 + …`.
pub open spec fn bernoulli_inequality_applies(e: Expr) -> bool {
    e matches Expr::Pow(base, _) && (*base matches Expr::Add(l, _) && is_lit(*l, 1))
}

/// The results of `bernoulli_inequality` on `e`, each with its justification.
pub open spec fn bernoulli_inequality_results(e: Expr) -> Seq<(Expr, Seq<char>)> {
    match e {
        Expr::Pow(base, n) => match *base {
            Expr::Add(_, x) => one(Expr::Add(Box::new(lit(1)), Box::new(Expr::Mul(n, x))), "(1+x)^n >= 1+nx (Bernoulli)"@),
            _ => none(),
        },
        _ => none(),
    }
}

/// Whether [`bernoulli_inequality_applies`] holds of `e`.
pub(crate) fn bernoulli_inequality_applicable(e: &Expr) -> (r: bool)
    ensures
        r == bernoulli_inequality_applies(*e),
{
    match e {
        Expr::Pow(base, _) => match &**base {
            Expr::Add(l, _) => is_lit_e(l, 1),
            _ => false,
        },
        _ => false,
    }
}

/// The results of `bernoulli_inequality` on `e`, as [`bernoulli_inequality_results`] states.
pub(crate) fn bernoulli_inequality_apply(e: &Expr) -> (v: Vec<RuleApplication>)
    ensures
        apps_view(v@) == bernoulli_inequality_results(*e),
{
    match e {
        Expr::Pow(base, n) => match &**base {
            Expr::Add(_, x) => single(Expr::Add(Box::new(mk_lit(1)), Box::new(Expr::Mul(bx(n), bx(x)))), "(1+x)^n >= 1+nx (Bernoulli)"),
            _ => nothing(),
        },
        _ => nothing(),
    }
}

/// The base of a square `b^2`.
pub open spec fn square_base(e: Expr) -> Option<Expr> {
    match e {
        Expr::Pow(b, x) => if is_lit(*x, 2) {
            Some(*b)
        } else {
            None
        },
        _ => None,
    }
}

fn square_base_e(e: &Expr) -> (r: Option<Box<Expr>>)
    ensures
        match r {
            Some(b) => square_base(*e) == Some(*b),
            None => square_base(*e) is None,
        },
{
    match e {
        Expr::Pow(b, x) => if is_lit_e(x, 2) {
            Some(bx(b))
        } else {
            None
        },
        _ => None,
    }
}

/// `√((a²+b²)/2) ≥ (a+b)/2`: offered on the square root of a sum over the
/// constant 2; a result when both summands are squares.
pub open spec fn qm_am_inequality_applies(e: Expr) -> bool {
    e matches Expr::Sqrt(inner) && (*inner matches Expr::Div(num, den) && is_lit(*den, 2) && (*num matches Expr::Add(_, _)))
}

/// The results of `qm_am_inequality` on `e`, each with its justification.
pub open spec fn qm_am_inequality_results(e: Expr) -> Seq<(Expr, Seq<char>)> {
    match e {
        Expr::Sqrt(inner) => match *inner {
            Expr::Div(num, den) => match *num {
                Expr::Add(p, q) => match (square_base(*p), square_base(*q)) {
                    (Some(a), Some(b)) => one(
                        Expr::Div(Box::new(Expr::Add(Box::new(a), Box::new(b))), den),
                        "QM >= AM: √((a²+b²)/2) >= (a+b)/2 (lower bound)"@,
                    ),
                    _ => none(),
                },
                _ => none(),
            },
            _ => none(),
        },
        _ => none(),
    }
}

/// Whether [`qm_am_inequality_applies`] holds of `e`.
pub(crate) fn qm_am_inequality_applicable(e: &Expr) -> (r: bool)
    ensures
        r == qm_am_inequality_applies(*e),
{
    match e {
        Expr::Sqrt(inner) => match &**inner {
            Expr::Div(num, den) => is_lit_e(den, 2) && match &**num {
                Expr::Add(_, _) => true,
                _ => false,
            },
            _ => false,
        },
        _ => false,
    }
}

/// The results of `qm_am_inequality` on `e`, as [`qm_am_inequality_results`] states.
pub(crate) fn qm_am_inequality_apply(e: &Expr) -> (v: Vec<RuleApplication>)
    ensures
        apps_view(v@) == qm_am_inequality_results(*e),
{
    match e {
        Expr::Sqrt(inner) => match &**inner {
            Expr::Div(num, den) => match &**num {
                Expr::Add(p, q) => match (square_base_e(p), square_base_e(q)) {
                    (Some(a), Some(b)) => single(
                        Expr::Div(Box::new(Expr::Add(a, b)), bx(den)),
                        "QM >= AM: √((a²+b²)/2) >= (a+b)/2 (lower bound)",
                    ),
                    _ => nothing(),
                },
                _ => nothing(),
            },
            _ => nothing(),
        },
        _ => nothing(),
    }
}

/// `2ab/(a+b) ≤ √(ab)`: offered on `2·(a·b) / (… + …)`.
pub open spec fn hm_gm_inequality_applies(e: Expr) -> bool {
    e matches Expr::Div(num, den) && (*num matches Expr::Mul(two, ab) && is_lit(*two, 2) && (*ab matches Expr::Mul(_, _))
        && (*den matches Expr::Add(_, _)))
}

/// The results of `hm_gm_inequality` on `e`, each with its justification.
pub open spec fn hm_gm_inequality_results(e: Expr) -> Seq<(Expr, Seq<char>)> {
    match e {
        Expr::Div(num, _) => match *num {
            Expr::Mul(_, ab) => match *ab {
                Expr::Mul(a, b) => one(Expr::Sqrt(Box::new(Expr::Mul(a, b))), "HM <= GM: 2ab/(a+b) <= √(ab) (upper bound)"@),
                _ => none(),
            },
            _ => none(),
        },
        _ => none(),
    }
}

/// Whether [`hm_gm_inequality_applies`] holds of `e`.
pub(crate) fn hm_gm_inequality_applicable(e: &Expr) -> (r: bool)
    ensures
        r == hm_gm_inequality_applies(*e),
{
    match e {
        Expr::Div(num, den) => match (&**num, &**den) {
            (Expr::Mul(two, ab), Expr::Add(_, _)) => is_lit_e(two, 2) && match &**ab {
                Expr::Mul(_, _) => true,
                _ => false,
            },
            _ => false,
        },
        _ => false,
    }
}

/// The results of `hm_gm_inequality` on `e`, as [`hm_gm_inequality_results`] states.
pub(crate) fn hm_gm_inequality_apply(e: &Expr) -> (v: Vec<RuleApplication>)
    ensures
        apps_view(v@) == hm_gm_inequality_results(*e),
{
    match e {
        Expr::Div(num, _) => match &**num {
            Expr::Mul(_, ab) => match &**ab {
                Expr::Mul(a, b) => single(Expr::Sqrt(Box::new(Expr::Mul(bx(a), bx(b)))), "HM <= GM: 2ab/(a+b) <= √(ab) (upper bound)"),
                _ => nothing(),
            },
            _ => nothing(),
        },
        _ => nothing(),
    }
}

/// `|ab| = |a||b|`.
pub open spec fn abs_product_split_applies(e: Expr) -> bool {
    e matches Expr::Abs(x) && (*x matches Expr::Mul(_, _))
}

/// The results of `abs_product_split` on `e`, each with its justification.
pub open spec fn abs_product_split_results(e: Expr) -> Seq<(Expr, Seq<char>)> {
    match e {
        Expr::Abs(x) => match *x {
            Expr::Mul(a, b) => one(Expr::Mul(Box::new(Expr::Abs(a)), Box::new(Expr::Abs(b))), "|ab| = |a||b|"@),
            _ => none(),
        },
        _ => none(),
    }
}

/// Whether [`abs_product_split_applies`] holds of `e`.
pub(crate) fn abs_product_split_applicable(e: &Expr) -> (r: bool)
    ensures
        r == abs_product_split_applies(*e),
{
    match e {
        Expr::Abs(x) => match &**x {
            Expr::Mul(_, _) => true,
            _ => false,
        },
        _ => false,
    }
}

/// The results of `abs_product_split` on `e`, as [`abs_product_split_results`] states.
pub(crate) fn abs_product_split_apply(e: &Expr) -> (v: Vec<RuleApplication>)
    ensures
        apps_view(v@) == abs_product_split_results(*e),
{
    match e {
        Expr::Abs(x) => match &**x {
            Expr::Mul(a, b) => single(Expr::Mul(Box::new(Expr::Abs(bx(a))), Box::new(Expr::Abs(bx(b)))), "|ab| = |a||b|"),
            _ => nothing(),
        },
        _ => nothing(),
    }
}

/// `|a^n| = |a|^n`.
pub open spec fn abs_power_applies(e: Expr) -> bool {
    e matches Expr::Abs(x) && (*x matches Expr::Pow(_, _))
}

/// The results of `abs_power` on `e`, each with its justification.
pub open spec fn abs_power_results(e: Expr) -> Seq<(Expr, Seq<char>)> {
    match e {
        Expr::Abs(x) => match *x {
            Expr::Pow(b, n) => one(Expr::Pow(Box::new(Expr::Abs(b)), n), "|a^n| = |a|^n"@),
            _ => none(),
        },
        _ => none(),
    }
}

/// Whether [`abs_power_applies`] holds of `e`.
pub(crate) fn abs_power_applicable(e: &Expr) -> (r: bool)
    ensures
        r == abs_power_applies(*e),
{
    match e {
        Expr::Abs(x) => match &**x {
            Expr::Pow(_, _) => true,
            _ => false,
        },
        _ => false,
    }
}

/// The results of `abs_power` on `e`, as [`abs_power_results`] states.
pub(crate) fn abs_power_apply(e: &Expr) -> (v: Vec<RuleApplication>)
    ensures
        apps_view(v@) == abs_power_results(*e),
{
    match e {
        Expr::Abs(x) => match &**x {
            Expr::Pow(b, n) => single(Expr::Pow(Box::new(Expr::Abs(bx(b))), bx(n)), "|a^n| = |a|^n"),
            _ => nothing(),
        },
        _ => nothing(),
    }
}

/// Offered on any equation, with no result: the operand to apply to both
/// sides is not part of the expression.
pub open spec fn both_sides_applies(e: Expr) -> bool {
    e matches Expr::Equation { .. }
}

/// The results of `both_sides` on `e`, each with its justification.
pub open spec fn both_sides_results(e: Expr) -> Seq<(Expr, Seq<char>)> {
    none()
}

/// Whether [`both_sides_applies`] holds of `e`.
pub(crate) fn both_sides_applicable(e: &Expr) -> (r: bool)
    ensures
        r == both_sides_applies(*e),
{
    match e {
        Expr::Equation { .. } => true,
        _ => false,
    }
}

/// The results of `both_sides` on `e`, as [`both_sides_results`] states.
pub(crate) fn both_sides_apply(e: &Expr) -> (v: Vec<RuleApplication>)
    ensures
        apps_view(v@) == both_sides_results(*e),
{
    nothing()
}

/// `a ≥ b ⇒ √a ≥ √b`: offered on `≥` and `>`; a result for `≥` only.
pub open spec fn sqrt_comparison_applies(e: Expr) -> bool {
    e matches Expr::Gte(_, _) || e matches Expr::Gt(_, _)
}

/// The results of `sqrt_comparison` on `e`, each with its justification.
pub open spec fn sqrt_comparison_results(e: Expr) -> Seq<(Expr, Seq<char>)> {
    match e {
        Expr::Gte(a, b) => one(
            Expr::Gte(Box::new(Expr::Sqrt(a)), Box::new(Expr::Sqrt(b))),
            "For a,b >= 0: a >= b => √a >= √b (sqrt is increasing)"@,
        ),
        _ => none(),
    }
}

/// Whether [`sqrt_comparison_applies`] holds of `e`.
pub(crate) fn sqrt_comparison_applicable(e: &Expr) -> (r: bool)
    ensures
        r == sqrt_comparison_applies(*e),
{
    match e {
        Expr::Gte(_, _) | Expr::Gt(_, _) => true,
        _ => false,
    }
}

/// The results of `sqrt_comparison` on `e`, as [`sqrt_comparison_results`] states.
pub(crate) fn sqrt_comparison_apply(e: &Expr) -> (v: Vec<RuleApplication>)
    ensures
        apps_view(v@) == sqrt_comparison_results(*e),
{
    match e {
        Expr::Gte(a, b) => single(
            Expr::Gte(Box::new(Expr::Sqrt(bx(a))), Box::new(Expr::Sqrt(bx(b)))),
            "For a,b >= 0: a >= b => √a >= √b (sqrt is increasing)",
        ),
        _ => nothing(),
    }
}

/// `a > b ⇒ ln(a) > ln(b)`, for positive `a`, `b`.
pub open spec fn ln_comparison_applies(e: Expr) -> bool {
    e matches Expr::Gt(_, _)
}

/// The results of `ln_comparison` on `e`, each with its justification.
pub open spec fn ln_comparison_results(e: Expr) -> Seq<(Expr, Seq<char>)> {
    match e {
        Expr::Gt(a, b) => one(
            Expr::Gt(Box::new(Expr::Ln(a)), Box::new(Expr::Ln(b))),
            "For a,b > 0: a > b => ln(a) > ln(b) (ln is increasing)"@,
        ),
        _ => none(),
    }
}

/// Whether [`ln_comparison_applies`] holds of `e`.
pub(crate) fn ln_comparison_applicable(e: &Expr) -> (r: bool)
    ensures
        r == ln_comparison_applies(*e),
{
    match e {
        Expr::Gt(_, _) => true,
        _ => false,
    }
}

/// The results of `ln_comparison` on `e`, as [`ln_comparison_results`] states.
pub(crate) fn ln_comparison_apply(e: &Expr) -> (v: Vec<RuleApplication>)
    ensures
        apps_view(v@) == ln_comparison_results(*e),
{
    match e {
        Expr::Gt(a, b) => single(
            Expr::Gt(Box::new(Expr::Ln(bx(a))), Box::new(Expr::Ln(bx(b)))),
            "For a,b > 0: a > b => ln(a) > ln(b) (ln is increasing)",
        ),
        _ => nothing(),
    }
}

/// `a > b ⇒ e^a > e^b`.
pub open spec fn exp_monotonic_applies(e: Expr) -> bool {
    e matches Expr::Gt(_, _)
}

/// The results of `exp_monotonic` on `e`, each with its justification.
pub open spec fn exp_monotonic_results(e: Expr) -> Seq<(Expr, Seq<char>)> {
    match e {
        Expr::Gt(a, b) => one(
            Expr::Gt(Box::new(Expr::Exp(a)), Box::new(Expr::Exp(b))),
            "a > b => e^a > e^b (exp is strictly increasing)"@,
        ),
        _ => none(),
    }
}

/// Whether [`exp_monotonic_applies`] holds of `e`.
pub(crate) fn exp_monotonic_applicable(e: &Expr) -> (r: bool)
    ensures
        r == exp_monotonic_applies(*e),
{
    match e {
        Expr::Gt(_, _) => true,
        _ => false,
    }
}

/// The results of `exp_monotonic` on `e`, as [`exp_monotonic_results`] states.
pub(crate) fn exp_monotonic_apply(e: &Expr) -> (v: Vec<RuleApplication>)
    ensures
        apps_view(v@) == exp_monotonic_results(*e),
{
    match e {
        Expr::Gt(a, b) => single(
            Expr::Gt(Box::new(Expr::Exp(bx(a))), Box::new(Expr::Exp(bx(b)))),
            "a > b => e^a > e^b (exp is strictly increasing)",
        ),
        _ => nothing(),
    }
}

/// `a > b > 0 ⇒ ln(a) > ln(b)`.
pub open spec fn ln_monotonic_applies(e: Expr) -> bool {
    e matches Expr::Gt(_, _)
}

/// The results of `ln_monotonic` on `e`, each with its justification.
pub open spec fn ln_monotonic_results(e: Expr) -> Seq<(Expr, Seq<char>)> {
    match e {
        Expr::Gt(a, b) => one(
            Expr::Gt(Box::new(Expr::Ln(a)), Box::new(Expr::Ln(b))),
            "a > b > 0 => ln(a) > ln(b) (ln is strictly increasing on R+)"@,
        ),
        _ => none(),
    }
}

/// Whether [`ln_monotonic_applies`] holds of `e`.
pub(crate) fn ln_monotonic_applicable(e: &Expr) -> (r: bool)
    ensures
        r == ln_monotonic_applies(*e),
{
    match e {
        Expr::Gt(_, _) => true,
        _ => false,
    }
}

/// The results of `ln_monotonic` on `e`, as [`ln_monotonic_results`] states.
pub(crate) fn ln_monotonic_apply(e: &Expr) -> (v: Vec<RuleApplication>)
    ensures
        apps_view(v@) == ln_monotonic_results(*e),
{
    match e {
        Expr::Gt(a, b) => single(
            Expr::Gt(Box::new(Expr::Ln(bx(a))), Box::new(Expr::Ln(bx(b)))),
            "a > b > 0 => ln(a) > ln(b) (ln is strictly increasing on R+)",
        ),
        _ => nothing(),
    }
}

} // verus!
