//! The rewrites of the counting identities and polynomial theorems that
//! annotate an expression.
//!
//! Offered on an expression of a given shape, each answers with the
//! expression itself, or with the constant the identity gives, and the
//! identity as justification.

use vstd::prelude::*;
use crate::expr::{copy_expr, Expr};
use crate::rewrite::{is_lit, is_lit_e, lit, mk_lit, none, nothing, one, single};
use crate::rule::{apps_view, RuleApplication};

verus! {

fn is_const_e(e: &Expr) -> (b: bool)
    ensures
        b == (*e matches Expr::Const(_)),
{
    match e {
        Expr::Const(_) => true,
        _ => false,
    }
}

/// `Σ k·C(n,k) = n·2^(n-1)`, offered on a product with a power of 2 on either side; any expression is kept unchanged.
pub open spec fn binomial_weighted_sum_applies(e: Expr) -> bool {
    ((e matches Expr::Mul(a0, a1) && (*a1 matches Expr::Pow(a2, a3) && is_lit(*a2, 2))) || (e matches Expr::Mul(a4, a5) && (*a4 matches Expr::Pow(a6, a7) && is_lit(*a6, 2))))
}

/// The results of `binomial_weighted_sum` on `e`, each with its justification.
pub open spec fn binomial_weighted_sum_results(e: Expr) -> Seq<(Expr, Seq<char>)> {
    one(e, "Σ k*C(n,k) = n*2^(n-1) for k=0..n"@)
}

/// Whether [`binomial_weighted_sum_applies`] holds of `e`.
pub(crate) fn binomial_weighted_sum_applicable(e: &Expr) -> (r: bool)
    ensures
        r == binomial_weighted_sum_applies(*e),
{
    ((match e {
        Expr::Mul(_, a9) => (match &**a9 {
                Expr::Pow(a10, _) => is_lit_e(&**a10, 2),
                _ => false,
            }),
        _ => false,
    }) || (match e {
        Expr::Mul(a12, _) => (match &**a12 {
                Expr::Pow(a14, _) => is_lit_e(&**a14, 2),
                _ => false,
            }),
        _ => false,
    }))
}

/// The results of `binomial_weighted_sum` on `e`, as [`binomial_weighted_sum_results`] states.
pub(crate) fn binomial_weighted_sum_apply(e: &Expr) -> (v: Vec<RuleApplication>)
    ensures
        apps_view(v@) == binomial_weighted_sum_results(*e),
{
    single(copy_expr(e), "Σ k*C(n,k) = n*2^(n-1) for k=0..n")
}

/// The Fibonacci generating function, offered on `x/(1-x-x^2)`; any
/// expression is kept unchanged.
pub open spec fn fibonacci_generating_function_applies(e: Expr) -> bool {
    e matches Expr::Div(n, d) && (*n matches Expr::Var(x) && (*d matches Expr::Sub(l, r)
        && (*l matches Expr::Sub(one_, v) && is_lit(*one_, 1) && *v == Expr::Var(x))
        && (*r matches Expr::Pow(b, k) && *b == Expr::Var(x) && is_lit(*k, 2))))
}

/// The results of `fibonacci_generating_function` on `e`, each with its justification.
pub open spec fn fibonacci_generating_function_results(e: Expr) -> Seq<(Expr, Seq<char>)> {
    one(e, "Fibonacci generating function: Σ F_n x^n = x/(1-x-x^2)"@)
}

/// Whether [`fibonacci_generating_function_applies`] holds of `e`.
pub(crate) fn fibonacci_generating_function_applicable(e: &Expr) -> (r: bool)
    ensures
        r == fibonacci_generating_function_applies(*e),
{
    if let Expr::Div(n, d) = e {
        if let Expr::Var(x) = &**n {
            if let Expr::Sub(l, r) = &**d {
                if let (Expr::Sub(one_, v), Expr::Pow(b, k)) = (&**l, &**r) {
                    if let (Expr::Var(y), Expr::Var(z)) = (&**v, &**b) {
                        return is_lit_e(one_, 1) && y.0 == x.0 && z.0 == x.0 && is_lit_e(k, 2);
                    }
                }
            }
        }
    }
    false
}

/// The results of `fibonacci_generating_function` on `e`, as [`fibonacci_generating_function_results`] states.
pub(crate) fn fibonacci_generating_function_apply(e: &Expr) -> (v: Vec<RuleApplication>)
    ensures
        apps_view(v@) == fibonacci_generating_function_results(*e),
{
    single(copy_expr(e), "Fibonacci generating function: Σ F_n x^n = x/(1-x-x^2)")
}

/// `Σ C(n,k) = 2^n`, offered on a power of 2; any expression is kept unchanged.
pub open spec fn binomial_sum_2n_applies(e: Expr) -> bool {
    (e matches Expr::Pow(a24, a25) && is_lit(*a24, 2))
}

/// The results of `binomial_sum_2n` on `e`, each with its justification.
pub open spec fn binomial_sum_2n_results(e: Expr) -> Seq<(Expr, Seq<char>)> {
    one(e, "Σ C(n,k) = 2^n"@)
}

/// Whether [`binomial_sum_2n_applies`] holds of `e`.
pub(crate) fn binomial_sum_2n_applicable(e: &Expr) -> (r: bool)
    ensures
        r == binomial_sum_2n_applies(*e),
{
    (match e {
        Expr::Pow(a26, _) => is_lit_e(&**a26, 2),
        _ => false,
    })
}

/// The results of `binomial_sum_2n` on `e`, as [`binomial_sum_2n_results`] states.
pub(crate) fn binomial_sum_2n_apply(e: &Expr) -> (v: Vec<RuleApplication>)
    ensures
        apps_view(v@) == binomial_sum_2n_results(*e),
{
    single(copy_expr(e), "Σ C(n,k) = 2^n")
}

/// `n^k` arrangements, offered on a power with a constant or variable exponent; any expression is kept unchanged.
pub open spec fn permutation_with_repetition_applies(e: Expr) -> bool {
    (e matches Expr::Pow(a28, a29) && ((*a29 matches Expr::Const(_)) || (*a29 matches Expr::Var(_))))
}

/// The results of `permutation_with_repetition` on `e`, each with its justification.
pub open spec fn permutation_with_repetition_results(e: Expr) -> Seq<(Expr, Seq<char>)> {
    one(e, "Permutations with repetition: n choices k times = n^k"@)
}

/// Whether [`permutation_with_repetition_applies`] holds of `e`.
pub(crate) fn permutation_with_repetition_applicable(e: &Expr) -> (r: bool)
    ensures
        r == permutation_with_repetition_applies(*e),
{
    (match e {
        Expr::Pow(_, a31) => (is_const_e(&**a31) || (match &**a31 { Expr::Var(_) => true, _ => false })),
        _ => false,
    })
}

/// The results of `permutation_with_repetition` on `e`, as [`permutation_with_repetition_results`] states.
pub(crate) fn permutation_with_repetition_apply(e: &Expr) -> (v: Vec<RuleApplication>)
    ensures
        apps_view(v@) == permutation_with_repetition_results(*e),
{
    single(copy_expr(e), "Permutations with repetition: n choices k times = n^k")
}

/// The multinomial coefficient, offered on a factorial over anything; any expression is kept unchanged.
pub open spec fn multinomial_coefficient_applies(e: Expr) -> bool {
    (e matches Expr::Div(a32, a33) && (*a32 matches Expr::Factorial(_)))
}

/// The results of `multinomial_coefficient` on `e`, each with its justification.
pub open spec fn multinomial_coefficient_results(e: Expr) -> Seq<(Expr, Seq<char>)> {
    one(e, "Multinomial coefficient: n!/(k1!k2!...km!)"@)
}

/// Whether [`multinomial_coefficient_applies`] holds of `e`.
pub(crate) fn multinomial_coefficient_applicable(e: &Expr) -> (r: bool)
    ensures
        r == multinomial_coefficient_applies(*e),
{
    (match e {
        Expr::Div(a35, _) => (match &**a35 {
                Expr::Factorial(_) => true,
                _ => false,
            }),
        _ => false,
    })
}

/// The results of `multinomial_coefficient` on `e`, as [`multinomial_coefficient_results`] states.
pub(crate) fn multinomial_coefficient_apply(e: &Expr) -> (v: Vec<RuleApplication>)
    ensures
        apps_view(v@) == multinomial_coefficient_results(*e),
{
    single(copy_expr(e), "Multinomial coefficient: n!/(k1!k2!...km!)")
}

/// Lucas' theorem, offered on a quotient modulo anything; any expression is kept unchanged.
pub open spec fn lucas_binomial_mod_applies(e: Expr) -> bool {
    (e matches Expr::Mod(a38, a39) && (*a38 matches Expr::Div(_, _)))
}

/// The results of `lucas_binomial_mod` on `e`, each with its justification.
pub open spec fn lucas_binomial_mod_results(e: Expr) -> Seq<(Expr, Seq<char>)> {
    one(e, "Lucas' theorem: C(m,n) mod p = Π C(mi,ni) mod p where m,n in base p"@)
}

/// Whether [`lucas_binomial_mod_applies`] holds of `e`.
pub(crate) fn lucas_binomial_mod_applicable(e: &Expr) -> (r: bool)
    ensures
        r == lucas_binomial_mod_applies(*e),
{
    (match e {
        Expr::Mod(a42, _) => (match &**a42 {
                Expr::Div(_, _) => true,
                _ => false,
            }),
        _ => false,
    })
}

/// The results of `lucas_binomial_mod` on `e`, as [`lucas_binomial_mod_results`] states.
pub(crate) fn lucas_binomial_mod_apply(e: &Expr) -> (v: Vec<RuleApplication>)
    ensures
        apps_view(v@) == lucas_binomial_mod_results(*e),
{
    single(copy_expr(e), "Lucas' theorem: C(m,n) mod p = Π C(mi,ni) mod p where m,n in base p")
}

/// The Catalan closed form, offered on a factorial over anything; any expression is kept unchanged.
pub open spec fn catalan_alternative_applies(e: Expr) -> bool {
    (e matches Expr::Div(a46, a47) && (*a46 matches Expr::Factorial(_)))
}

/// The results of `catalan_alternative` on `e`, each with its justification.
pub open spec fn catalan_alternative_results(e: Expr) -> Seq<(Expr, Seq<char>)> {
    one(e, "Catalan alternative: C_n = (2n)!/(n!(n+1)!)"@)
}

/// Whether [`catalan_alternative_applies`] holds of `e`.
pub(crate) fn catalan_alternative_applicable(e: &Expr) -> (r: bool)
    ensures
        r == catalan_alternative_applies(*e),
{
    (match e {
        Expr::Div(a49, _) => (match &**a49 {
                Expr::Factorial(_) => true,
                _ => false,
            }),
        _ => false,
    })
}

/// The results of `catalan_alternative` on `e`, as [`catalan_alternative_results`] states.
pub(crate) fn catalan_alternative_apply(e: &Expr) -> (v: Vec<RuleApplication>)
    ensures
        apps_view(v@) == catalan_alternative_results(*e),
{
    single(copy_expr(e), "Catalan alternative: C_n = (2n)!/(n!(n+1)!)")
}

/// The pigeonhole principle, offered on `>` and `≥`; any expression gives 2.
pub open spec fn pigeonhole_principle_applies(e: Expr) -> bool {
    ((e matches Expr::Gt(_, _)) || (e matches Expr::Gte(_, _)))
}

/// The results of `pigeonhole_principle` on `e`, each with its justification.
pub open spec fn pigeonhole_principle_results(e: Expr) -> Seq<(Expr, Seq<char>)> {
    one(lit(2), "Pigeonhole: n+1 items in n containers => at least 2 share"@)
}

/// Whether [`pigeonhole_principle_applies`] holds of `e`.
pub(crate) fn pigeonhole_principle_applicable(e: &Expr) -> (r: bool)
    ensures
        r == pigeonhole_principle_applies(*e),
{
    ((match e {
        Expr::Gt(_, _) => true,
        _ => false,
    }) || (match e {
        Expr::Gte(_, _) => true,
        _ => false,
    }))
}

/// The results of `pigeonhole_principle` on `e`, as [`pigeonhole_principle_results`] states.
pub(crate) fn pigeonhole_principle_apply(e: &Expr) -> (v: Vec<RuleApplication>)
    ensures
        apps_view(v@) == pigeonhole_principle_results(*e),
{
    single(mk_lit(2), "Pigeonhole: n+1 items in n containers => at least 2 share")
}

/// Combinations with repetition, offered on a quotient; any expression is kept unchanged.
pub open spec fn combination_with_repetition_applies(e: Expr) -> bool {
    (e matches Expr::Div(_, _))
}

/// The results of `combination_with_repetition` on `e`, each with its justification.
pub open spec fn combination_with_repetition_results(e: Expr) -> Seq<(Expr, Seq<char>)> {
    one(e, "Combinations with repetition: C(n+k-1, k) = (n+k-1)!/(k!(n-1)!)"@)
}

/// Whether [`combination_with_repetition_applies`] holds of `e`.
pub(crate) fn combination_with_repetition_applicable(e: &Expr) -> (r: bool)
    ensures
        r == combination_with_repetition_applies(*e),
{
    (match e {
        Expr::Div(_, _) => true,
        _ => false,
    })
}

/// The results of `combination_with_repetition` on `e`, as [`combination_with_repetition_results`] states.
pub(crate) fn combination_with_repetition_apply(e: &Expr) -> (v: Vec<RuleApplication>)
    ensures
        apps_view(v@) == combination_with_repetition_results(*e),
{
    single(copy_expr(e), "Combinations with repetition: C(n+k-1, k) = (n+k-1)!/(k!(n-1)!)")
}

/// `Σ C(n,k)² = C(2n,n)`, offered on a quotient or a power; any expression is kept unchanged.
pub open spec fn binomial_squares_sum_applies(e: Expr) -> bool {
    ((e matches Expr::Div(_, _)) || (e matches Expr::Pow(_, _)))
}

/// The results of `binomial_squares_sum` on `e`, each with its justification.
pub open spec fn binomial_squares_sum_results(e: Expr) -> Seq<(Expr, Seq<char>)> {
    one(e, "Σ C(n,k)^2 = C(2n,n) for k=0..n"@)
}

/// Whether [`binomial_squares_sum_applies`] holds of `e`.
pub(crate) fn binomial_squares_sum_applicable(e: &Expr) -> (r: bool)
    ensures
        r == binomial_squares_sum_applies(*e),
{
    ((match e {
        Expr::Div(_, _) => true,
        _ => false,
    }) || (match e {
        Expr::Pow(_, _) => true,
        _ => false,
    }))
}

/// The results of `binomial_squares_sum` on `e`, as [`binomial_squares_sum_results`] states.
pub(crate) fn binomial_squares_sum_apply(e: &Expr) -> (v: Vec<RuleApplication>)
    ensures
        apps_view(v@) == binomial_squares_sum_results(*e),
{
    single(copy_expr(e), "Σ C(n,k)^2 = C(2n,n) for k=0..n")
}

/// `Σ (-1)^k·C(n,k) = 0`, offered on a sum or a product; any expression gives 0.
pub open spec fn binomial_alternating_sum_applies(e: Expr) -> bool {
    ((e matches Expr::Add(_, _)) || (e matches Expr::Mul(_, _)))
}

/// The results of `binomial_alternating_sum` on `e`, each with its justification.
pub open spec fn binomial_alternating_sum_results(e: Expr) -> Seq<(Expr, Seq<char>)> {
    one(lit(0), "Σ (-1)^k * C(n,k) = 0 for n > 0"@)
}

/// Whether [`binomial_alternating_sum_applies`] holds of `e`.
pub(crate) fn binomial_alternating_sum_applicable(e: &Expr) -> (r: bool)
    ensures
        r == binomial_alternating_sum_applies(*e),
{
    ((match e {
        Expr::Add(_, _) => true,
        _ => false,
    }) || (match e {
        Expr::Mul(_, _) => true,
        _ => false,
    }))
}

/// The results of `binomial_alternating_sum` on `e`, as [`binomial_alternating_sum_results`] states.
pub(crate) fn binomial_alternating_sum_apply(e: &Expr) -> (v: Vec<RuleApplication>)
    ensures
        apps_view(v@) == binomial_alternating_sum_results(*e),
{
    single(mk_lit(0), "Σ (-1)^k * C(n,k) = 0 for n > 0")
}

/// Sturm's theorem, offered on a derivative; any expression is kept unchanged.
pub open spec fn sturm_sequence_applies(e: Expr) -> bool {
    e matches Expr::Derivative { .. }
}

/// The results of `sturm_sequence` on `e`, each with its justification.
pub open spec fn sturm_sequence_results(e: Expr) -> Seq<(Expr, Seq<char>)> {
    one(e, "Sturm's theorem: count real roots via sequence"@)
}

/// Whether [`sturm_sequence_applies`] holds of `e`.
pub(crate) fn sturm_sequence_applicable(e: &Expr) -> (r: bool)
    ensures
        r == sturm_sequence_applies(*e),
{
    match e {
        Expr::Derivative { .. } => true,
        _ => false,
    }
}

/// The results of `sturm_sequence` on `e`, as [`sturm_sequence_results`] states.
pub(crate) fn sturm_sequence_apply(e: &Expr) -> (v: Vec<RuleApplication>)
    ensures
        apps_view(v@) == sturm_sequence_results(*e),
{
    single(copy_expr(e), "Sturm's theorem: count real roots via sequence")
}

/// The Gauss–Lucas theorem, offered on a derivative; any expression is kept unchanged.
pub open spec fn gauss_lucas_theorem_applies(e: Expr) -> bool {
    e matches Expr::Derivative { .. }
}

/// The results of `gauss_lucas_theorem` on `e`, each with its justification.
pub open spec fn gauss_lucas_theorem_results(e: Expr) -> Seq<(Expr, Seq<char>)> {
    one(e, "Gauss-Lucas: derivative roots lie in convex hull of polynomial roots"@)
}

/// Whether [`gauss_lucas_theorem_applies`] holds of `e`.
pub(crate) fn gauss_lucas_theorem_applicable(e: &Expr) -> (r: bool)
    ensures
        r == gauss_lucas_theorem_applies(*e),
{
    match e {
        Expr::Derivative { .. } => true,
        _ => false,
    }
}

/// The results of `gauss_lucas_theorem` on `e`, as [`gauss_lucas_theorem_results`] states.
pub(crate) fn gauss_lucas_theorem_apply(e: &Expr) -> (v: Vec<RuleApplication>)
    ensures
        apps_view(v@) == gauss_lucas_theorem_results(*e),
{
    single(copy_expr(e), "Gauss-Lucas: derivative roots lie in convex hull of polynomial roots")
}

} // verus!
