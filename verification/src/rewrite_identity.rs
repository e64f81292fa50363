//! The rewrites of the elementary identities on remainders, roots, powers,
//! factorials, floors and ceilings, and of the triangle and square
//! inequalities.

use vstd::prelude::*;
use crate::expr::{copy_expr, expr_eq, Expr};
use crate::rewrite::{bx, is_lit, is_lit_e, is_zero, is_zero_e, lit, mk_lit, none, nothing, one, single};
use crate::rule::{apps_view, RuleApplication};

verus! {

fn is_const_e(e: &Expr) -> (b: bool)
    ensures
        b == (*e matches Expr::Const(_)),
{
    match e {
        Expr::Const(_) => true,
        _ => false,
    }
}

/// `a mod a = 0`.
pub open spec fn mod_self_applies(e: Expr) -> bool {
    e matches Expr::Mod(a, b) && a == b
}

/// The results of `mod_self` on `e`, each with its justification.
pub open spec fn mod_self_results(e: Expr) -> Seq<(Expr, Seq<char>)> {
    if mod_self_applies(e) {
        one(lit(0), "a mod a = 0"@)
    } else {
        none()
    }
}

/// Whether [`mod_self_applies`] holds of `e`.
pub(crate) fn mod_self_applicable(e: &Expr) -> (r: bool)
    ensures
        r == mod_self_applies(*e),
{
    match e {
        Expr::Mod(a, b) => expr_eq(a, b),
        _ => false,
    }
}

/// The results of `mod_self` on `e`, as [`mod_self_results`] states.
pub(crate) fn mod_self_apply(e: &Expr) -> (v: Vec<RuleApplication>)
    ensures
        apps_view(v@) == mod_self_results(*e),
{
    if mod_self_applicable(e) {
        single(mk_lit(0), "a mod a = 0")
    } else {
        nothing()
    }
}

/// Whether `e` is an integer constant.
pub open spec fn int_const(e: Expr) -> bool {
    e matches Expr::Const(c) && c.den() == 1
}

fn int_const_e(e: &Expr) -> (b: bool)
    ensures
        b == int_const(*e),
{
    match e {
        Expr::Const(c) => c.is_integer(),
        _ => false,
    }
}

/// `⌊n⌋ = n` for an integer constant `n`.
pub open spec fn floor_integer_applies(e: Expr) -> bool {
    e matches Expr::Floor(x) && int_const(*x)
}

/// The results of `floor_integer` on `e`, each with its justification.
pub open spec fn floor_integer_results(e: Expr) -> Seq<(Expr, Seq<char>)> {
    match e {
        Expr::Floor(x) => if int_const(*x) {
            one(*x, "⌊n⌋ = n for integer n"@)
        } else {
            none()
        },
        _ => none(),
    }
}

/// Whether [`floor_integer_applies`] holds of `e`.
pub(crate) fn floor_integer_applicable(e: &Expr) -> (r: bool)
    ensures
        r == floor_integer_applies(*e),
{
    match e {
        Expr::Floor(x) => int_const_e(x),
        _ => false,
    }
}

/// The results of `floor_integer` on `e`, as [`floor_integer_results`] states.
pub(crate) fn floor_integer_apply(e: &Expr) -> (v: Vec<RuleApplication>)
    ensures
        apps_view(v@) == floor_integer_results(*e),
{
    match e {
        Expr::Floor(x) => if int_const_e(x) {
            single(copy_expr(x), "⌊n⌋ = n for integer n")
        } else {
            nothing()
        },
        _ => nothing(),
    }
}

/// `⌈n⌉ = n` for an integer constant `n`.
pub open spec fn ceiling_integer_applies(e: Expr) -> bool {
    e matches Expr::Ceiling(x) && int_const(*x)
}

/// The results of `ceiling_integer` on `e`, each with its justification.
pub open spec fn ceiling_integer_results(e: Expr) -> Seq<(Expr, Seq<char>)> {
    match e {
        Expr::Ceiling(x) => if int_const(*x) {
            one(*x, "⌈n⌉ = n for integer n"@)
        } else {
            none()
        },
        _ => none(),
    }
}

/// Whether [`ceiling_integer_applies`] holds of `e`.
pub(crate) fn ceiling_integer_applicable(e: &Expr) -> (r: bool)
    ensures
        r == ceiling_integer_applies(*e),
{
    match e {
        Expr::Ceiling(x) => int_const_e(x),
        _ => false,
    }
}

/// The results of `ceiling_integer` on `e`, as [`ceiling_integer_results`] states.
pub(crate) fn ceiling_integer_apply(e: &Expr) -> (v: Vec<RuleApplication>)
    ensures
        apps_view(v@) == ceiling_integer_results(*e),
{
    match e {
        Expr::Ceiling(x) => if int_const_e(x) {
            single(copy_expr(x), "⌈n⌉ = n for integer n")
        } else {
            nothing()
        },
        _ => nothing(),
    }
}

/// `⌈x⌉ - ⌊x⌋`: offered on a ceiling minus a floor; for the same `x` the two
/// cases, 0 for an integer and 1 otherwise.
pub open spec fn floor_ceiling_diff_applies(e: Expr) -> bool {
    e matches Expr::Sub(a, b) && (*a matches Expr::Ceiling(_)) && (*b matches Expr::Floor(_))
}

/// The results of `floor_ceiling_diff` on `e`, each with its justification.
pub open spec fn floor_ceiling_diff_results(e: Expr) -> Seq<(Expr, Seq<char>)> {
    match e {
        Expr::Sub(a, b) => match (*a, *b) {
            (Expr::Ceiling(x1), Expr::Floor(x2)) => if x1 == x2 {
                seq![
                    (lit(0), "⌈x⌉ - ⌊x⌋ = 0 (when x is integer)"@),
                    (lit(1), "⌈x⌉ - ⌊x⌋ = 1 (when x is non-integer)"@),
                ]
            } else {
                none()
            },
            _ => none(),
        },
        _ => none(),
    }
}

/// Whether [`floor_ceiling_diff_applies`] holds of `e`.
pub(crate) fn floor_ceiling_diff_applicable(e: &Expr) -> (r: bool)
    ensures
        r == floor_ceiling_diff_applies(*e),
{
    match e {
        Expr::Sub(a, b) => match (&**a, &**b) {
            (Expr::Ceiling(_), Expr::Floor(_)) => true,
            _ => false,
        },
        _ => false,
    }
}

/// The results of `floor_ceiling_diff` on `e`, as [`floor_ceiling_diff_results`] states.
pub(crate) fn floor_ceiling_diff_apply(e: &Expr) -> (v: Vec<RuleApplication>)
    ensures
        apps_view(v@) == floor_ceiling_diff_results(*e),
{
    match e {
        Expr::Sub(a, b) => match (&**a, &**b) {
            (Expr::Ceiling(x1), Expr::Floor(x2)) => if expr_eq(x1, x2) {
                let mut v: Vec<RuleApplication> = Vec::new();
                v.push(RuleApplication { result: mk_lit(0), justification: "⌈x⌉ - ⌊x⌋ = 0 (when x is integer)".to_owned() });
                v.push(RuleApplication { result: mk_lit(1), justification: "⌈x⌉ - ⌊x⌋ = 1 (when x is non-integer)".to_owned() });
                assert(apps_view(v@) =~= floor_ceiling_diff_results(*e));
                v
            } else {
                nothing()
            },
            _ => nothing(),
        },
        _ => nothing(),
    }
}

/// `a² = 0 ⟺ a = 0`: offered on `a² = 0`; any equation with a power on the
/// left gives `base = 0`.
pub open spec fn square_zero_applies(e: Expr) -> bool {
    e matches Expr::Equation { lhs, rhs } && is_zero(*rhs) && (*lhs matches Expr::Pow(_, x) && is_lit(*x, 2))
}

/// The results of `square_zero` on `e`, each with its justification.
pub open spec fn square_zero_results(e: Expr) -> Seq<(Expr, Seq<char>)> {
    match e {
        Expr::Equation { lhs, .. } => match *lhs {
            Expr::Pow(b, _) => one(Expr::Equation { lhs: b, rhs: Box::new(lit(0)) }, "a² = 0 ⟺ a = 0"@),
            _ => none(),
        },
        _ => none(),
    }
}

/// Whether [`square_zero_applies`] holds of `e`.
pub(crate) fn square_zero_applicable(e: &Expr) -> (r: bool)
    ensures
        r == square_zero_applies(*e),
{
    match e {
        Expr::Equation { lhs, rhs } => is_zero_e(rhs) && match &**lhs {
            Expr::Pow(_, x) => is_lit_e(x, 2),
            _ => false,
        },
        _ => false,
    }
}

/// The results of `square_zero` on `e`, as [`square_zero_results`] states.
pub(crate) fn square_zero_apply(e: &Expr) -> (v: Vec<RuleApplication>)
    ensures
        apps_view(v@) == square_zero_results(*e),
{
    match e {
        Expr::Equation { lhs, .. } => match &**lhs {
            Expr::Pow(b, _) => single(Expr::Equation { lhs: bx(b), rhs: Box::new(mk_lit(0)) }, "a² = 0 ⟺ a = 0"),
            _ => nothing(),
        },
        _ => nothing(),
    }
}

/// `0 mod n = 0`.
pub open spec fn zero_mod_applies(e: Expr) -> bool {
    (e matches Expr::Mod(a0, a1) && is_zero(*a0))
}

/// The results of `zero_mod` on `e`, each with its justification.
pub open spec fn zero_mod_results(e: Expr) -> Seq<(Expr, Seq<char>)> {
    if zero_mod_applies(e) {
        one(lit(0), "0 mod n = 0"@)
    } else {
        none()
    }
}

/// Whether [`zero_mod_applies`] holds of `e`.
pub(crate) fn zero_mod_applicable(e: &Expr) -> (r: bool)
    ensures
        r == zero_mod_applies(*e),
{
    (match e {
        Expr::Mod(a2, _) => is_zero_e(&**a2),
        _ => false,
    })
}

/// The results of `zero_mod` on `e`, as [`zero_mod_results`] states.
pub(crate) fn zero_mod_apply(e: &Expr) -> (v: Vec<RuleApplication>)
    ensures
        apps_view(v@) == zero_mod_results(*e),
{
    if zero_mod_applicable(e) {
        single(mk_lit(0), "0 mod n = 0")
    } else {
        nothing()
    }
}

/// `a mod 1 = 0`.
pub open spec fn mod_one_applies(e: Expr) -> bool {
    (e matches Expr::Mod(a4, a5) && is_lit(*a5, 1))
}

/// The results of `mod_one` on `e`, each with its justification.
pub open spec fn mod_one_results(e: Expr) -> Seq<(Expr, Seq<char>)> {
    if mod_one_applies(e) {
        one(lit(0), "a mod 1 = 0 (for integers)"@)
    } else {
        none()
    }
}

/// Whether [`mod_one_applies`] holds of `e`.
pub(crate) fn mod_one_applicable(e: &Expr) -> (r: bool)
    ensures
        r == mod_one_applies(*e),
{
    (match e {
        Expr::Mod(_, a7) => is_lit_e(&**a7, 1),
        _ => false,
    })
}

/// The results of `mod_one` on `e`, as [`mod_one_results`] states.
pub(crate) fn mod_one_apply(e: &Expr) -> (v: Vec<RuleApplication>)
    ensures
        apps_view(v@) == mod_one_results(*e),
{
    if mod_one_applicable(e) {
        single(mk_lit(0), "a mod 1 = 0 (for integers)")
    } else {
        nothing()
    }
}

/// `√(a²) = |a|`: offered on the square root of a square; any square root of a power gives `|base|`.
pub open spec fn sqrt_square_applies(e: Expr) -> bool {
    (e matches Expr::Sqrt(a8) && (*a8 matches Expr::Pow(a9, a10) && is_lit(*a10, 2)))
}

/// The results of `sqrt_square` on `e`, each with its justification.
pub open spec fn sqrt_square_results(e: Expr) -> Seq<(Expr, Seq<char>)> {
    match e {
        Expr::Sqrt(b14) => match *b14 {
                Expr::Pow(b, _) => one(Expr::Abs(Box::new(*b)), "√(a²) = |a|"@),
                _ => none(),
            },
        _ => none(),
    }
}

/// Whether [`sqrt_square_applies`] holds of `e`.
pub(crate) fn sqrt_square_applicable(e: &Expr) -> (r: bool)
    ensures
        r == sqrt_square_applies(*e),
{
    (match e {
        Expr::Sqrt(a11) => (match &**a11 {
                Expr::Pow(_, a13) => is_lit_e(&**a13, 2),
                _ => false,
            }),
        _ => false,
    })
}

/// The results of `sqrt_square` on `e`, as [`sqrt_square_results`] states.
pub(crate) fn sqrt_square_apply(e: &Expr) -> (v: Vec<RuleApplication>)
    ensures
        apps_view(v@) == sqrt_square_results(*e),
{
    match e {
        Expr::Sqrt(b15) => match &**b15 {
                Expr::Pow(b, _) => single(Expr::Abs(Box::new(copy_expr(b))), "√(a²) = |a|"),
                _ => nothing(),
            },
        _ => nothing(),
    }
}

/// `(√a)² = a`: offered on a square of a root; any power of a root gives the radicand.
pub open spec fn square_sqrt_applies(e: Expr) -> bool {
    (e matches Expr::Pow(a16, a17) && (*a16 matches Expr::Sqrt(_)) && is_lit(*a17, 2))
}

/// The results of `square_sqrt` on `e`, each with its justification.
pub open spec fn square_sqrt_results(e: Expr) -> Seq<(Expr, Seq<char>)> {
    match e {
        Expr::Pow(b22, _) => match *b22 {
                Expr::Sqrt(a) => one(*a, "(√a)² = a"@),
                _ => none(),
            },
        _ => none(),
    }
}

/// Whether [`square_sqrt_applies`] holds of `e`.
pub(crate) fn square_sqrt_applicable(e: &Expr) -> (r: bool)
    ensures
        r == square_sqrt_applies(*e),
{
    (match e {
        Expr::Pow(a19, a20) => (match &**a19 {
                Expr::Sqrt(_) => true,
                _ => false,
            }) && is_lit_e(&**a20, 2),
        _ => false,
    })
}

/// The results of `square_sqrt` on `e`, as [`square_sqrt_results`] states.
pub(crate) fn square_sqrt_apply(e: &Expr) -> (v: Vec<RuleApplication>)
    ensures
        apps_view(v@) == square_sqrt_results(*e),
{
    match e {
        Expr::Pow(b23, _) => match &**b23 {
                Expr::Sqrt(a) => single(copy_expr(a), "(√a)² = a"),
                _ => nothing(),
            },
        _ => nothing(),
    }
}

/// `√a·√b = √(ab)`.
pub open spec fn sqrt_product_applies(e: Expr) -> bool {
    (e matches Expr::Mul(a24, a25) && (*a24 matches Expr::Sqrt(_)) && (*a25 matches Expr::Sqrt(_)))
}

/// The results of `sqrt_product` on `e`, each with its justification.
pub open spec fn sqrt_product_results(e: Expr) -> Seq<(Expr, Seq<char>)> {
    match e {
        Expr::Mul(b32, b33) => match *b32 {
                Expr::Sqrt(a) => match *b33 {
                Expr::Sqrt(b) => one(Expr::Sqrt(Box::new(Expr::Mul(Box::new(*a), Box::new(*b)))), "√a · √b = √(ab)"@),
                _ => none(),
            },
                _ => none(),
            },
        _ => none(),
    }
}

/// Whether [`sqrt_product_applies`] holds of `e`.
pub(crate) fn sqrt_product_applicable(e: &Expr) -> (r: bool)
    ensures
        r == sqrt_product_applies(*e),
{
    (match e {
        Expr::Mul(a28, a29) => (match &**a28 {
                Expr::Sqrt(_) => true,
                _ => false,
            }) && (match &**a29 {
                Expr::Sqrt(_) => true,
                _ => false,
            }),
        _ => false,
    })
}

/// The results of `sqrt_product` on `e`, as [`sqrt_product_results`] states.
pub(crate) fn sqrt_product_apply(e: &Expr) -> (v: Vec<RuleApplication>)
    ensures
        apps_view(v@) == sqrt_product_results(*e),
{
    match e {
        Expr::Mul(b34, b35) => match &**b34 {
                Expr::Sqrt(a) => match &**b35 {
                Expr::Sqrt(b) => single(Expr::Sqrt(Box::new(Expr::Mul(Box::new(copy_expr(a)), Box::new(copy_expr(b))))), "√a · √b = √(ab)"),
                _ => nothing(),
            },
                _ => nothing(),
            },
        _ => nothing(),
    }
}

/// `√(a/b) = √a/√b`.
pub open spec fn sqrt_quotient_applies(e: Expr) -> bool {
    (e matches Expr::Sqrt(a36) && (*a36 matches Expr::Div(_, _)))
}

/// The results of `sqrt_quotient` on `e`, each with its justification.
pub open spec fn sqrt_quotient_results(e: Expr) -> Seq<(Expr, Seq<char>)> {
    match e {
        Expr::Sqrt(b42) => match *b42 {
                Expr::Div(a, b) => one(Expr::Div(Box::new(Expr::Sqrt(Box::new(*a))), Box::new(Expr::Sqrt(Box::new(*b)))), "√(a/b) = √a/√b"@),
                _ => none(),
            },
        _ => none(),
    }
}

/// Whether [`sqrt_quotient_applies`] holds of `e`.
pub(crate) fn sqrt_quotient_applicable(e: &Expr) -> (r: bool)
    ensures
        r == sqrt_quotient_applies(*e),
{
    (match e {
        Expr::Sqrt(a39) => (match &**a39 {
                Expr::Div(_, _) => true,
                _ => false,
            }),
        _ => false,
    })
}

/// The results of `sqrt_quotient` on `e`, as [`sqrt_quotient_results`] states.
pub(crate) fn sqrt_quotient_apply(e: &Expr) -> (v: Vec<RuleApplication>)
    ensures
        apps_view(v@) == sqrt_quotient_results(*e),
{
    match e {
        Expr::Sqrt(b43) => match &**b43 {
                Expr::Div(a, b) => single(Expr::Div(Box::new(Expr::Sqrt(Box::new(copy_expr(a)))), Box::new(Expr::Sqrt(Box::new(copy_expr(b))))), "√(a/b) = √a/√b"),
                _ => nothing(),
            },
        _ => nothing(),
    }
}

/// `a^(1/2) = √a`: offered on a power with exponent `1/2` written as a quotient; any power gives the root of its base.
pub open spec fn half_power_sqrt_applies(e: Expr) -> bool {
    (e matches Expr::Pow(a44, a45) && (*a45 matches Expr::Div(a46, a47) && is_lit(*a46, 1) && is_lit(*a47, 2)))
}

/// The results of `half_power_sqrt` on `e`, each with its justification.
pub open spec fn half_power_sqrt_results(e: Expr) -> Seq<(Expr, Seq<char>)> {
    match e {
        Expr::Pow(b, _) => one(Expr::Sqrt(Box::new(*b)), "a^(1/2) = √a"@),
        _ => none(),
    }
}

/// Whether [`half_power_sqrt_applies`] holds of `e`.
pub(crate) fn half_power_sqrt_applicable(e: &Expr) -> (r: bool)
    ensures
        r == half_power_sqrt_applies(*e),
{
    (match e {
        Expr::Pow(_, a49) => (match &**a49 {
                Expr::Div(a50, a51) => is_lit_e(&**a50, 1) && is_lit_e(&**a51, 2),
                _ => false,
            }),
        _ => false,
    })
}

/// The results of `half_power_sqrt` on `e`, as [`half_power_sqrt_results`] states.
pub(crate) fn half_power_sqrt_apply(e: &Expr) -> (v: Vec<RuleApplication>)
    ensures
        apps_view(v@) == half_power_sqrt_results(*e),
{
    match e {
        Expr::Pow(b, _) => single(Expr::Sqrt(Box::new(copy_expr(b))), "a^(1/2) = √a"),
        _ => nothing(),
    }
}

/// `(-1)^n = 1` for an even integer `n`.
pub open spec fn neg_one_even_power_applies(e: Expr) -> bool {
    (e matches Expr::Pow(a52, a53) && (*a52 matches Expr::Neg(a54) && is_lit(*a54, 1)) && (*a53 matches Expr::Const(c) && c.den() == 1 && c.num() % 2 == 0))
}

/// The results of `neg_one_even_power` on `e`, each with its justification.
pub open spec fn neg_one_even_power_results(e: Expr) -> Seq<(Expr, Seq<char>)> {
    if neg_one_even_power_applies(e) {
        one(lit(1), "(-1)^(2n) = 1"@)
    } else {
        none()
    }
}

/// Whether [`neg_one_even_power_applies`] holds of `e`.
pub(crate) fn neg_one_even_power_applicable(e: &Expr) -> (r: bool)
    ensures
        r == neg_one_even_power_applies(*e),
{
    (match e {
        Expr::Pow(a55, a56) => (match &**a55 {
                Expr::Neg(a57) => is_lit_e(&**a57, 1),
                _ => false,
            }) && (match &**a56 { Expr::Const(c) => c.is_integer() && c.numer() % 2 == 0, _ => false }),
        _ => false,
    })
}

/// The results of `neg_one_even_power` on `e`, as [`neg_one_even_power_results`] states.
pub(crate) fn neg_one_even_power_apply(e: &Expr) -> (v: Vec<RuleApplication>)
    ensures
        apps_view(v@) == neg_one_even_power_results(*e),
{
    if neg_one_even_power_applicable(e) {
        single(mk_lit(1), "(-1)^(2n) = 1")
    } else {
        nothing()
    }
}

/// `(-1)^n = -1` for an odd integer `n`.
pub open spec fn neg_one_odd_power_applies(e: Expr) -> bool {
    (e matches Expr::Pow(a58, a59) && (*a58 matches Expr::Neg(a60) && is_lit(*a60, 1)) && (*a59 matches Expr::Const(c) && c.den() == 1 && c.num() % 2 != 0))
}

/// The results of `neg_one_odd_power` on `e`, each with its justification.
pub open spec fn neg_one_odd_power_results(e: Expr) -> Seq<(Expr, Seq<char>)> {
    if neg_one_odd_power_applies(e) {
        one(Expr::Neg(Box::new(lit(1))), "(-1)^(2n+1) = -1"@)
    } else {
        none()
    }
}

/// Whether [`neg_one_odd_power_applies`] holds of `e`.
pub(crate) fn neg_one_odd_power_applicable(e: &Expr) -> (r: bool)
    ensures
        r == neg_one_odd_power_applies(*e),
{
    (match e {
        Expr::Pow(a61, a62) => (match &**a61 {
                Expr::Neg(a63) => is_lit_e(&**a63, 1),
                _ => false,
            }) && (match &**a62 { Expr::Const(c) => c.is_integer() && c.numer() % 2 != 0, _ => false }),
        _ => false,
    })
}

/// The results of `neg_one_odd_power` on `e`, as [`neg_one_odd_power_results`] states.
pub(crate) fn neg_one_odd_power_apply(e: &Expr) -> (v: Vec<RuleApplication>)
    ensures
        apps_view(v@) == neg_one_odd_power_results(*e),
{
    if neg_one_odd_power_applicable(e) {
        single(Expr::Neg(Box::new(mk_lit(1))), "(-1)^(2n+1) = -1")
    } else {
        nothing()
    }
}

/// `(-a)^n = a^n`, offered for a positive even integer `n`; any power of a negation drops the sign.
pub open spec fn neg_squared_applies(e: Expr) -> bool {
    (e matches Expr::Pow(a64, a65) && (*a64 matches Expr::Neg(_)) && (*a65 matches Expr::Const(c) && c.den() == 1 && c.num() % 2 == 0 && c.num() > 0))
}

/// The results of `neg_squared` on `e`, each with its justification.
pub open spec fn neg_squared_results(e: Expr) -> Seq<(Expr, Seq<char>)> {
    match e {
        Expr::Pow(b70, n) => match *b70 {
                Expr::Neg(a) => one(Expr::Pow(Box::new(*a), Box::new(*n)), "(-a)² = a²"@),
                _ => none(),
            },
        _ => none(),
    }
}

/// Whether [`neg_squared_applies`] holds of `e`.
pub(crate) fn neg_squared_applicable(e: &Expr) -> (r: bool)
    ensures
        r == neg_squared_applies(*e),
{
    (match e {
        Expr::Pow(a67, a68) => (match &**a67 {
                Expr::Neg(_) => true,
                _ => false,
            }) && (match &**a68 { Expr::Const(c) => c.is_integer() && c.numer() % 2 == 0 && c.is_positive(), _ => false }),
        _ => false,
    })
}

/// The results of `neg_squared` on `e`, as [`neg_squared_results`] states.
pub(crate) fn neg_squared_apply(e: &Expr) -> (v: Vec<RuleApplication>)
    ensures
        apps_view(v@) == neg_squared_results(*e),
{
    match e {
        Expr::Pow(b71, n) => match &**b71 {
                Expr::Neg(a) => single(Expr::Pow(Box::new(copy_expr(a)), Box::new(copy_expr(n))), "(-a)² = a²"),
                _ => nothing(),
            },
        _ => nothing(),
    }
}

/// `0! = 1`.
pub open spec fn factorial_zero_applies(e: Expr) -> bool {
    (e matches Expr::Factorial(a72) && is_zero(*a72))
}

/// The results of `factorial_zero` on `e`, each with its justification.
pub open spec fn factorial_zero_results(e: Expr) -> Seq<(Expr, Seq<char>)> {
    if factorial_zero_applies(e) {
        one(lit(1), "0! = 1 (by definition)"@)
    } else {
        none()
    }
}

/// Whether [`factorial_zero_applies`] holds of `e`.
pub(crate) fn factorial_zero_applicable(e: &Expr) -> (r: bool)
    ensures
        r == factorial_zero_applies(*e),
{
    (match e {
        Expr::Factorial(a73) => is_zero_e(&**a73),
        _ => false,
    })
}

/// The results of `factorial_zero` on `e`, as [`factorial_zero_results`] states.
pub(crate) fn factorial_zero_apply(e: &Expr) -> (v: Vec<RuleApplication>)
    ensures
        apps_view(v@) == factorial_zero_results(*e),
{
    if factorial_zero_applicable(e) {
        single(mk_lit(1), "0! = 1 (by definition)")
    } else {
        nothing()
    }
}

/// `1! = 1`.
pub open spec fn factorial_one_applies(e: Expr) -> bool {
    (e matches Expr::Factorial(a74) && is_lit(*a74, 1))
}

/// The results of `factorial_one` on `e`, each with its justification.
pub open spec fn factorial_one_results(e: Expr) -> Seq<(Expr, Seq<char>)> {
    if factorial_one_applies(e) {
        one(lit(1), "1! = 1"@)
    } else {
        none()
    }
}

/// Whether [`factorial_one_applies`] holds of `e`.
pub(crate) fn factorial_one_applicable(e: &Expr) -> (r: bool)
    ensures
        r == factorial_one_applies(*e),
{
    (match e {
        Expr::Factorial(a75) => is_lit_e(&**a75, 1),
        _ => false,
    })
}

/// The results of `factorial_one` on `e`, as [`factorial_one_results`] states.
pub(crate) fn factorial_one_apply(e: &Expr) -> (v: Vec<RuleApplication>)
    ensures
        apps_view(v@) == factorial_one_results(*e),
{
    if factorial_one_applicable(e) {
        single(mk_lit(1), "1! = 1")
    } else {
        nothing()
    }
}

/// `n! = n·(n-1)!`.
pub open spec fn factorial_recurse_applies(e: Expr) -> bool {
    (e matches Expr::Factorial(_))
}

/// The results of `factorial_recurse` on `e`, each with its justification.
pub open spec fn factorial_recurse_results(e: Expr) -> Seq<(Expr, Seq<char>)> {
    match e {
        Expr::Factorial(n) => one(Expr::Mul(Box::new(*n), Box::new(Expr::Factorial(Box::new(Expr::Sub(Box::new(*n), Box::new(lit(1))))))), "n! = n · (n-1)! (factorial recursion)"@),
        _ => none(),
    }
}

/// Whether [`factorial_recurse_applies`] holds of `e`.
pub(crate) fn factorial_recurse_applicable(e: &Expr) -> (r: bool)
    ensures
        r == factorial_recurse_applies(*e),
{
    (match e {
        Expr::Factorial(_) => true,
        _ => false,
    })
}

/// The results of `factorial_recurse` on `e`, as [`factorial_recurse_results`] states.
pub(crate) fn factorial_recurse_apply(e: &Expr) -> (v: Vec<RuleApplication>)
    ensures
        apps_view(v@) == factorial_recurse_results(*e),
{
    match e {
        Expr::Factorial(n) => single(Expr::Mul(Box::new(copy_expr(n)), Box::new(Expr::Factorial(Box::new(Expr::Sub(Box::new(copy_expr(n)), Box::new(mk_lit(1))))))), "n! = n · (n-1)! (factorial recursion)"),
        _ => nothing(),
    }
}

/// Legendre's formula, offered on a factorial; any expression is kept unchanged.
pub open spec fn legendre_formula_applies(e: Expr) -> bool {
    (e matches Expr::Factorial(_))
}

/// The results of `legendre_formula` on `e`, each with its justification.
pub open spec fn legendre_formula_results(e: Expr) -> Seq<(Expr, Seq<char>)> {
    one(e, "Legendre's formula: ν_p(n!) = Σ⌊n/p^k⌋ for k ≥ 1"@)
}

/// Whether [`legendre_formula_applies`] holds of `e`.
pub(crate) fn legendre_formula_applicable(e: &Expr) -> (r: bool)
    ensures
        r == legendre_formula_applies(*e),
{
    (match e {
        Expr::Factorial(_) => true,
        _ => false,
    })
}

/// The results of `legendre_formula` on `e`, as [`legendre_formula_results`] states.
pub(crate) fn legendre_formula_apply(e: &Expr) -> (v: Vec<RuleApplication>)
    ensures
        apps_view(v@) == legendre_formula_results(*e),
{
    single(copy_expr(e), "Legendre's formula: ν_p(n!) = Σ⌊n/p^k⌋ for k ≥ 1")
}

/// Lucas' theorem, offered on a remainder; any expression is kept unchanged.
pub open spec fn lucas_theorem_applies(e: Expr) -> bool {
    (e matches Expr::Mod(_, _))
}

/// The results of `lucas_theorem` on `e`, each with its justification.
pub open spec fn lucas_theorem_results(e: Expr) -> Seq<(Expr, Seq<char>)> {
    one(e, "Lucas' theorem: C(m,n) ≡ Π C(m_i, n_i) (mod p)"@)
}

/// Whether [`lucas_theorem_applies`] holds of `e`.
pub(crate) fn lucas_theorem_applicable(e: &Expr) -> (r: bool)
    ensures
        r == lucas_theorem_applies(*e),
{
    (match e {
        Expr::Mod(_, _) => true,
        _ => false,
    })
}

/// The results of `lucas_theorem` on `e`, as [`lucas_theorem_results`] states.
pub(crate) fn lucas_theorem_apply(e: &Expr) -> (v: Vec<RuleApplication>)
    ensures
        apps_view(v@) == lucas_theorem_results(*e),
{
    single(copy_expr(e), "Lucas' theorem: C(m,n) ≡ Π C(m_i, n_i) (mod p)")
}

/// Cauchy–Schwarz for two terms, offered on a product of two sums, with no result.
pub open spec fn cauchy_schwarz_2_applies(e: Expr) -> bool {
    (e matches Expr::Mul(a84, a85) && (*a84 matches Expr::Add(_, _)) && (*a85 matches Expr::Add(_, _)))
}

/// The results of `cauchy_schwarz_2` on `e`, each with its justification.
pub open spec fn cauchy_schwarz_2_results(e: Expr) -> Seq<(Expr, Seq<char>)> {
    none()
}

/// Whether [`cauchy_schwarz_2_applies`] holds of `e`.
pub(crate) fn cauchy_schwarz_2_applicable(e: &Expr) -> (r: bool)
    ensures
        r == cauchy_schwarz_2_applies(*e),
{
    (match e {
        Expr::Mul(a90, a91) => (match &**a90 {
                Expr::Add(_, _) => true,
                _ => false,
            }) && (match &**a91 {
                Expr::Add(_, _) => true,
                _ => false,
            }),
        _ => false,
    })
}

/// The results of `cauchy_schwarz_2` on `e`, as [`cauchy_schwarz_2_results`] states.
pub(crate) fn cauchy_schwarz_2_apply(e: &Expr) -> (v: Vec<RuleApplication>)
    ensures
        apps_view(v@) == cauchy_schwarz_2_results(*e),
{
    nothing()
}

/// `|a + b| ≤ |a| + |b|`.
pub open spec fn triangle_ineq_applies(e: Expr) -> bool {
    (e matches Expr::Abs(a96) && (*a96 matches Expr::Add(_, _)))
}

/// The results of `triangle_ineq` on `e`, each with its justification.
pub open spec fn triangle_ineq_results(e: Expr) -> Seq<(Expr, Seq<char>)> {
    match e {
        Expr::Abs(b102) => match *b102 {
                Expr::Add(a, b) => one(Expr::Add(Box::new(Expr::Abs(Box::new(*a))), Box::new(Expr::Abs(Box::new(*b)))), "|a + b| ≤ |a| + |b| (upper bound)"@),
                _ => none(),
            },
        _ => none(),
    }
}

/// Whether [`triangle_ineq_applies`] holds of `e`.
pub(crate) fn triangle_ineq_applicable(e: &Expr) -> (r: bool)
    ensures
        r == triangle_ineq_applies(*e),
{
    (match e {
        Expr::Abs(a99) => (match &**a99 {
                Expr::Add(_, _) => true,
                _ => false,
            }),
        _ => false,
    })
}

/// The results of `triangle_ineq` on `e`, as [`triangle_ineq_results`] states.
pub(crate) fn triangle_ineq_apply(e: &Expr) -> (v: Vec<RuleApplication>)
    ensures
        apps_view(v@) == triangle_ineq_results(*e),
{
    match e {
        Expr::Abs(b103) => match &**b103 {
                Expr::Add(a, b) => single(Expr::Add(Box::new(Expr::Abs(Box::new(copy_expr(a)))), Box::new(Expr::Abs(Box::new(copy_expr(b))))), "|a + b| ≤ |a| + |b| (upper bound)"),
                _ => nothing(),
            },
        _ => nothing(),
    }
}

/// `|a - b| ≥ ||a| - |b||`.
pub open spec fn reverse_triangle_applies(e: Expr) -> bool {
    (e matches Expr::Abs(a104) && (*a104 matches Expr::Sub(_, _)))
}

/// The results of `reverse_triangle` on `e`, each with its justification.
pub open spec fn reverse_triangle_results(e: Expr) -> Seq<(Expr, Seq<char>)> {
    match e {
        Expr::Abs(b110) => match *b110 {
                Expr::Sub(a, b) => one(Expr::Abs(Box::new(Expr::Sub(Box::new(Expr::Abs(Box::new(*a))), Box::new(Expr::Abs(Box::new(*b)))))), "|a - b| ≥ ||a| - |b|| (lower bound)"@),
                _ => none(),
            },
        _ => none(),
    }
}

/// Whether [`reverse_triangle_applies`] holds of `e`.
pub(crate) fn reverse_triangle_applicable(e: &Expr) -> (r: bool)
    ensures
        r == reverse_triangle_applies(*e),
{
    (match e {
        Expr::Abs(a107) => (match &**a107 {
                Expr::Sub(_, _) => true,
                _ => false,
            }),
        _ => false,
    })
}

/// The results of `reverse_triangle` on `e`, as [`reverse_triangle_results`] states.
pub(crate) fn reverse_triangle_apply(e: &Expr) -> (v: Vec<RuleApplication>)
    ensures
        apps_view(v@) == reverse_triangle_results(*e),
{
    match e {
        Expr::Abs(b111) => match &**b111 {
                Expr::Sub(a, b) => single(Expr::Abs(Box::new(Expr::Sub(Box::new(Expr::Abs(Box::new(copy_expr(a)))), Box::new(Expr::Abs(Box::new(copy_expr(b))))))), "|a - b| ≥ ||a| - |b|| (lower bound)"),
                _ => nothing(),
            },
        _ => nothing(),
    }
}

/// `a² ≥ 0`: offered on a square; any power gives `power ≥ 0`.
pub open spec fn square_nonneg_applies(e: Expr) -> bool {
    (e matches Expr::Pow(a112, a113) && is_lit(*a113, 2))
}

/// The results of `square_nonneg` on `e`, each with its justification.
pub open spec fn square_nonneg_results(e: Expr) -> Seq<(Expr, Seq<char>)> {
    match e {
        Expr::Pow(_, _) => one(Expr::Gte(Box::new(e), Box::new(lit(0))), "a² ≥ 0 for all real a (squares are non-negative)"@),
        _ => none(),
    }
}

/// Whether [`square_nonneg_applies`] holds of `e`.
pub(crate) fn square_nonneg_applicable(e: &Expr) -> (r: bool)
    ensures
        r == square_nonneg_applies(*e),
{
    (match e {
        Expr::Pow(_, a115) => is_lit_e(&**a115, 2),
        _ => false,
    })
}

/// The results of `square_nonneg` on `e`, as [`square_nonneg_results`] states.
pub(crate) fn square_nonneg_apply(e: &Expr) -> (v: Vec<RuleApplication>)
    ensures
        apps_view(v@) == square_nonneg_results(*e),
{
    match e {
        Expr::Pow(_, _) => single(Expr::Gte(Box::new(copy_expr(e)), Box::new(mk_lit(0))), "a² ≥ 0 for all real a (squares are non-negative)"),
        _ => nothing(),
    }
}

/// `(a-b)² ≥ 0`: offered on a square of a difference; any power of a difference gives `power ≥ 0`.
pub open spec fn diff_squared_ge_zero_applies(e: Expr) -> bool {
    (e matches Expr::Pow(a116, a117) && (*a116 matches Expr::Sub(_, _)) && is_lit(*a117, 2))
}

/// The results of `diff_squared_ge_zero` on `e`, each with its justification.
pub open spec fn diff_squared_ge_zero_results(e: Expr) -> Seq<(Expr, Seq<char>)> {
    match e {
        Expr::Pow(b124, _) => match *b124 {
                Expr::Sub(_, _) => one(Expr::Gte(Box::new(e), Box::new(lit(0))), "(a-b)² ≥ 0 always holds (squares are non-negative)"@),
                _ => none(),
            },
        _ => none(),
    }
}

/// Whether [`diff_squared_ge_zero_applies`] holds of `e`.
pub(crate) fn diff_squared_ge_zero_applicable(e: &Expr) -> (r: bool)
    ensures
        r == diff_squared_ge_zero_applies(*e),
{
    (match e {
        Expr::Pow(a120, a121) => (match &**a120 {
                Expr::Sub(_, _) => true,
                _ => false,
            }) && is_lit_e(&**a121, 2),
        _ => false,
    })
}

/// The results of `diff_squared_ge_zero` on `e`, as [`diff_squared_ge_zero_results`] states.
pub(crate) fn diff_squared_ge_zero_apply(e: &Expr) -> (v: Vec<RuleApplication>)
    ensures
        apps_view(v@) == diff_squared_ge_zero_results(*e),
{
    match e {
        Expr::Pow(b125, _) => match &**b125 {
                Expr::Sub(_, _) => single(Expr::Gte(Box::new(copy_expr(e)), Box::new(mk_lit(0))), "(a-b)² ≥ 0 always holds (squares are non-negative)"),
                _ => nothing(),
            },
        _ => nothing(),
    }
}

/// Titu's lemma `a²/x + b²/y ≥ (a+b)²/(x+y)`, offered on a sum of two squares over anything.
pub open spec fn titus_lemma_applies(e: Expr) -> bool {
    (e matches Expr::Add(a126, a127) && (*a126 matches Expr::Div(a128, a129) && (*a128 matches Expr::Pow(a130, a131) && is_lit(*a131, 2))) && (*a127 matches Expr::Div(a132, a133) && (*a132 matches Expr::Pow(a134, a135) && is_lit(*a135, 2))))
}

/// The results of `titus_lemma` on `e`, each with its justification.
pub open spec fn titus_lemma_results(e: Expr) -> Seq<(Expr, Seq<char>)> {
    match e {
        Expr::Add(b146, b147) => match *b146 {
                Expr::Div(b149, x) => match *b149 {
                        Expr::Pow(a, _) => match *b147 {
                Expr::Div(b148, y) => match *b148 {
                        Expr::Pow(b, _) => one(Expr::Div(Box::new(Expr::Pow(Box::new(Expr::Add(Box::new(*a), Box::new(*b))), Box::new(lit(2)))), Box::new(Expr::Add(Box::new(*x), Box::new(*y)))), "Titu's Lemma: a²/x + b²/y ≥ (a+b)²/(x+y) (lower bound)"@),
                        _ => none(),
                    },
                _ => none(),
            },
                        _ => none(),
                    },
                _ => none(),
            },
        _ => none(),
    }
}

/// Whether [`titus_lemma_applies`] holds of `e`.
pub(crate) fn titus_lemma_applicable(e: &Expr) -> (r: bool)
    ensures
        r == titus_lemma_applies(*e),
{
    (match e {
        Expr::Add(a136, a137) => (match &**a136 {
                Expr::Div(a138, _) => (match &**a138 {
                        Expr::Pow(_, a141) => is_lit_e(&**a141, 2),
                        _ => false,
                    }),
                _ => false,
            }) && (match &**a137 {
                Expr::Div(a142, _) => (match &**a142 {
                        Expr::Pow(_, a145) => is_lit_e(&**a145, 2),
                        _ => false,
                    }),
                _ => false,
            }),
        _ => false,
    })
}

/// The results of `titus_lemma` on `e`, as [`titus_lemma_results`] states.
pub(crate) fn titus_lemma_apply(e: &Expr) -> (v: Vec<RuleApplication>)
    ensures
        apps_view(v@) == titus_lemma_results(*e),
{
    match e {
        Expr::Add(b150, b151) => match &**b150 {
                Expr::Div(b153, x) => match &**b153 {
                        Expr::Pow(a, _) => match &**b151 {
                Expr::Div(b152, y) => match &**b152 {
                        Expr::Pow(b, _) => single(Expr::Div(Box::new(Expr::Pow(Box::new(Expr::Add(Box::new(copy_expr(a)), Box::new(copy_expr(b)))), Box::new(mk_lit(2)))), Box::new(Expr::Add(Box::new(copy_expr(x)), Box::new(copy_expr(y))))), "Titu's Lemma: a²/x + b²/y ≥ (a+b)²/(x+y) (lower bound)"),
                        _ => nothing(),
                    },
                _ => nothing(),
            },
                        _ => nothing(),
                    },
                _ => nothing(),
            },
        _ => nothing(),
    }
}

} // verus!
