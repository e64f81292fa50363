//! The rewrites rules perform.
//!
//! Each [`Rewrite`] is the behaviour of one rule: [`applies`] says on which
//! expressions it fires and [`results`] what it produces there, as
//! `(expression, justification)` pairs.  [`Rewrite::is_applicable`] and
//! [`Rewrite::apply`] compute them.

use vstd::prelude::*;
use crate::expr::{copy_expr, expr_eq, Expr, Symbol};
use crate::rational::{lemma_rat_pair, rat, Rational};
use crate::rule::{apps_view, RuleApplication};

verus! {

// ---------------------------------------------------------------------------
// Building blocks
// ---------------------------------------------------------------------------

/// The integer constant `n`.
pub open spec fn lit(n: int) -> Expr {
    Expr::Const(rat((n, 1)))
}

/// Whether `e` is the constant `n`.
pub open spec fn is_lit(e: Expr, n: int) -> bool {
    e matches Expr::Const(c) && c.pair() == (n, 1int)
}

/// Whether `e` is a zero constant.
pub open spec fn is_zero(e: Expr) -> bool {
    e matches Expr::Const(c) && c.num() == 0
}

/// Whether `e` is a power with the constant exponent `n`.
pub open spec fn pow_of(e: Expr, n: int) -> bool {
    e matches Expr::Pow(_, x) && is_lit(*x, n)
}

/// `b^n` for a constant `n`.
pub open spec fn pow_lit(b: Expr, n: int) -> Expr {
    Expr::Pow(Box::new(b), Box::new(lit(n)))
}

/// The constant `n`.
pub(crate) fn mk_lit(n: i64) -> (e: Expr)
    requires
        n > i64::MIN,
    ensures
        e == lit(n as int),
{
    let c = Rational::from_integer(n);
    proof {
        lemma_rat_pair(c);
    }
    Expr::Const(c)
}

/// Whether `e` is the constant `n`.
pub(crate) fn is_lit_e(e: &Expr, n: i64) -> (b: bool)
    ensures
        b == is_lit(*e, n as int),
{
    match e {
        Expr::Const(c) => c.numer() == n && c.denom() == 1,
        _ => false,
    }
}

/// Whether `e` is a zero constant.
pub(crate) fn is_zero_e(e: &Expr) -> (b: bool)
    ensures
        b == is_zero(*e),
{
    match e {
        Expr::Const(c) => c.is_zero(),
        _ => false,
    }
}

/// Whether `e` is a power with the constant exponent `n`.
pub(crate) fn pow_of_e(e: &Expr, n: i64) -> (b: bool)
    ensures
        b == pow_of(*e, n as int),
{
    match e {
        Expr::Pow(_, x) => is_lit_e(x, n),
        _ => false,
    }
}

/// `b^n` for a constant `n`.
pub(crate) fn mk_pow(b: &Expr, n: i64) -> (e: Expr)
    requires
        n > i64::MIN,
    ensures
        e == pow_lit(*b, n as int),
{
    Expr::Pow(Box::new(copy_expr(b)), Box::new(mk_lit(n)))
}

/// Structural copy of a boxed expression.
pub(crate) fn bx(e: &Expr) -> (r: Box<Expr>)
    ensures
        *r == *e,
{
    Box::new(copy_expr(e))
}

/// A single result.
pub(crate) fn single(result: Expr, justification: &str) -> (v: Vec<RuleApplication>)
    ensures
        apps_view(v@) == seq![(result, justification@)],
{
    let mut v: Vec<RuleApplication> = Vec::new();
    v.push(RuleApplication { result, justification: justification.to_owned() });
    assert(apps_view(v@) =~= seq![(result, justification@)]);
    v
}

/// No result.
pub(crate) fn nothing() -> (v: Vec<RuleApplication>)
    ensures
        apps_view(v@) == Seq::<(Expr, Seq<char>)>::empty(),
{
    let v: Vec<RuleApplication> = Vec::new();
    assert(apps_view(v@) =~= Seq::<(Expr, Seq<char>)>::empty());
    v
}

/// One result, as a model.
pub open spec fn one(e: Expr, t: Seq<char>) -> Seq<(Expr, Seq<char>)> {
    seq![(e, t)]
}

/// No result, as a model.
pub open spec fn none() -> Seq<(Expr, Seq<char>)> {
    Seq::empty()
}

// ---------------------------------------------------------------------------
// Number theory: divisibility
// ---------------------------------------------------------------------------

/// `0 / n` with `n` not a zero constant: rewrites to 0.
pub open spec fn divides_zero_applies(e: Expr) -> bool {
    e matches Expr::Div(a, b) && is_zero(*a) && !is_zero(*b)
}

/// The results of `divides_zero` on `e`, each with its justification.
pub open spec fn divides_zero_results(e: Expr) -> Seq<(Expr, Seq<char>)> {
    if divides_zero_applies(e) {
        one(lit(0), "0/n = 0"@)
    } else {
        none()
    }
}

/// `n / n` with `n` not a zero constant.
pub open spec fn divides_self_applies(e: Expr) -> bool {
    e matches Expr::Div(a, b) && a == b && !is_zero(*b)
}

/// The results of `divides_self` on `e`, each with its justification.
pub open spec fn divides_self_results(e: Expr) -> Seq<(Expr, Seq<char>)> {
    if e matches Expr::Div(a, b) && a == b {
        one(lit(1), "n/n = 1"@)
    } else {
        none()
    }
}

/// `a + a = 2a`.
pub open spec fn even_sum_applies(e: Expr) -> bool {
    e matches Expr::Add(a, b) && a == b
}

/// The results of `even_sum` on `e`, each with its justification.
pub open spec fn even_sum_results(e: Expr) -> Seq<(Expr, Seq<char>)> {
    match e {
        Expr::Add(a, b) => if a == b {
            one(Expr::Mul(Box::new(lit(2)), a), "a + a = 2a"@)
        } else {
            none()
        },
        _ => none(),
    }
}

/// `2·n` is even.
pub open spec fn div_by_2_applies(e: Expr) -> bool {
    e matches Expr::Mul(a, _) && is_lit(*a, 2)
}

/// The results of `div_by_2` on `e`, each with its justification.
pub open spec fn div_by_2_results(e: Expr) -> Seq<(Expr, Seq<char>)> {
    match e {
        Expr::Mul(_, b) => one(Expr::Mul(Box::new(lit(2)), b), "2n is even (divisible by 2)"@),
        _ => none(),
    }
}

/// `(a·b)/a = b`.
pub open spec fn cancel_common_factor_applies(e: Expr) -> bool {
    e matches Expr::Div(num, den) && (*num matches Expr::Mul(a, _) && a == den)
}

/// The results of `cancel_common_factor` on `e`, each with its justification.
pub open spec fn cancel_common_factor_results(e: Expr) -> Seq<(Expr, Seq<char>)> {
    match e {
        Expr::Div(num, den) => match *num {
            Expr::Mul(a, b) => if a == den {
                one(*b, "(a*b)/a = b"@)
            } else if b == den {
                one(*a, "(a*b)/b = a"@)
            } else {
                none()
            },
            _ => none(),
        },
        _ => none(),
    }
}

/// `(a/b)·b = a`.
pub open spec fn mul_by_denom_applies(e: Expr) -> bool {
    match e {
        Expr::Mul(a, b) => match *a {
            Expr::Div(_, d) => d == b,
            _ => (*b matches Expr::Div(_, d) && d == a),
        },
        _ => false,
    }
}

/// The results of `mul_by_denom` on `e`, each with its justification.
pub open spec fn mul_by_denom_results(e: Expr) -> Seq<(Expr, Seq<char>)> {
    match e {
        Expr::Mul(a, b) => {
            let first: Option<Expr> = match *a {
                Expr::Div(n, d) => if d == b {
                    Some(*n)
                } else {
                    None
                },
                _ => None,
            };
            match first {
                Some(n) => one(n, "(a/b) * b = a"@),
                None => match *b {
                    Expr::Div(n, d) => if d == a {
                        one(*n, "b * (a/b) = a"@)
                    } else {
                        none()
                    },
                    _ => none(),
                },
            }
        },
        _ => none(),
    }
}

fn divides_zero_applicable(e: &Expr) -> (b: bool)
    ensures
        b == divides_zero_applies(*e),
{
    match e {
        Expr::Div(a, b) => is_zero_e(a) && !is_zero_e(b),
        _ => false,
    }
}

fn divides_zero_apply(e: &Expr) -> (v: Vec<RuleApplication>)
    ensures
        apps_view(v@) == divides_zero_results(*e),
{
    if divides_zero_applicable(e) {
        single(mk_lit(0), "0/n = 0")
    } else {
        nothing()
    }
}

fn divides_self_applicable(e: &Expr) -> (r: bool)
    ensures
        r == divides_self_applies(*e),
{
    match e {
        Expr::Div(a, b) => expr_eq(a, b) && !is_zero_e(b),
        _ => false,
    }
}

fn divides_self_apply(e: &Expr) -> (v: Vec<RuleApplication>)
    ensures
        apps_view(v@) == divides_self_results(*e),
{
    match e {
        Expr::Div(a, b) => if expr_eq(a, b) {
            single(mk_lit(1), "n/n = 1")
        } else {
            nothing()
        },
        _ => nothing(),
    }
}

fn even_sum_applicable(e: &Expr) -> (r: bool)
    ensures
        r == even_sum_applies(*e),
{
    match e {
        Expr::Add(a, b) => expr_eq(a, b),
        _ => false,
    }
}

fn even_sum_apply(e: &Expr) -> (v: Vec<RuleApplication>)
    ensures
        apps_view(v@) == even_sum_results(*e),
{
    match e {
        Expr::Add(a, b) => if expr_eq(a, b) {
            single(Expr::Mul(Box::new(mk_lit(2)), bx(a)), "a + a = 2a")
        } else {
            nothing()
        },
        _ => nothing(),
    }
}

fn div_by_2_applicable(e: &Expr) -> (r: bool)
    ensures
        r == div_by_2_applies(*e),
{
    match e {
        Expr::Mul(a, _) => is_lit_e(a, 2),
        _ => false,
    }
}

fn div_by_2_apply(e: &Expr) -> (v: Vec<RuleApplication>)
    ensures
        apps_view(v@) == div_by_2_results(*e),
{
    match e {
        Expr::Mul(_, b) => single(Expr::Mul(Box::new(mk_lit(2)), bx(b)), "2n is even (divisible by 2)"),
        _ => nothing(),
    }
}

fn cancel_common_factor_applicable(e: &Expr) -> (r: bool)
    ensures
        r == cancel_common_factor_applies(*e),
{
    match e {
        Expr::Div(num, den) => match &**num {
            Expr::Mul(a, _) => expr_eq(a, den),
            _ => false,
        },
        _ => false,
    }
}

fn cancel_common_factor_apply(e: &Expr) -> (v: Vec<RuleApplication>)
    ensures
        apps_view(v@) == cancel_common_factor_results(*e),
{
    match e {
        Expr::Div(num, den) => match &**num {
            Expr::Mul(a, b) => if expr_eq(a, den) {
                single(copy_expr(b), "(a*b)/a = b")
            } else if expr_eq(b, den) {
                single(copy_expr(a), "(a*b)/b = a")
            } else {
                nothing()
            },
            _ => nothing(),
        },
        _ => nothing(),
    }
}

fn mul_by_denom_applicable(e: &Expr) -> (r: bool)
    ensures
        r == mul_by_denom_applies(*e),
{
    match e {
        Expr::Mul(a, b) => match &**a {
            Expr::Div(_, d) => expr_eq(d, b),
            _ => match &**b {
                Expr::Div(_, d) => expr_eq(d, a),
                _ => false,
            },
        },
        _ => false,
    }
}

fn mul_by_denom_apply(e: &Expr) -> (v: Vec<RuleApplication>)
    ensures
        apps_view(v@) == mul_by_denom_results(*e),
{
    match e {
        Expr::Mul(a, b) => {
            if let Expr::Div(n, d) = &**a {
                if expr_eq(d, b) {
                    return single(copy_expr(n), "(a/b) * b = a");
                }
            }
            if let Expr::Div(n, d) = &**b {
                if expr_eq(d, a) {
                    return single(copy_expr(n), "b * (a/b) = a");
                }
            }
            nothing()
        },
        _ => nothing(),
    }
}

/// `a² - b² = (a+b)(a-b)`.
pub open spec fn diff_squares_factor_applies(e: Expr) -> bool {
    e matches Expr::Sub(a, b) && pow_of(*a, 2) && pow_of(*b, 2)
}

/// The results of `diff_squares_factor` on `e`, each with its justification.
pub open spec fn diff_squares_factor_results(e: Expr) -> Seq<(Expr, Seq<char>)> {
    match e {
        Expr::Sub(a, b) => match (*a, *b) {
            (Expr::Pow(x, _), Expr::Pow(y, _)) => one(
                Expr::Mul(Box::new(Expr::Add(x, y)), Box::new(Expr::Sub(x, y))),
                "a² - b² = (a+b)(a-b)"@,
            ),
            _ => none(),
        },
        _ => none(),
    }
}

fn diff_squares_factor_applicable(e: &Expr) -> (r: bool)
    ensures
        r == diff_squares_factor_applies(*e),
{
    match e {
        Expr::Sub(a, b) => pow_of_e(a, 2) && pow_of_e(b, 2),
        _ => false,
    }
}

fn diff_squares_factor_apply(e: &Expr) -> (v: Vec<RuleApplication>)
    ensures
        apps_view(v@) == diff_squares_factor_results(*e),
{
    match e {
        Expr::Sub(a, b) => match (&**a, &**b) {
            (Expr::Pow(x, _), Expr::Pow(y, _)) => single(
                Expr::Mul(Box::new(Expr::Add(bx(x), bx(y))), Box::new(Expr::Sub(bx(x), bx(y)))),
                "a² - b² = (a+b)(a-b)",
            ),
            _ => nothing(),
        },
        _ => nothing(),
    }
}

/// `a³ - b³ = (a-b)(a² + ab + b²)`.
pub open spec fn diff_cubes_factor_applies(e: Expr) -> bool {
    e matches Expr::Sub(a, b) && pow_of(*a, 3) && pow_of(*b, 3)
}

/// The results of `diff_cubes_factor` on `e`, each with its justification.
pub open spec fn diff_cubes_factor_results(e: Expr) -> Seq<(Expr, Seq<char>)> {
    match e {
        Expr::Sub(a, b) => match (*a, *b) {
            (Expr::Pow(x, _), Expr::Pow(y, _)) => one(
                Expr::Mul(
                    Box::new(Expr::Sub(x, y)),
                    Box::new(Expr::Add(
                        Box::new(Expr::Add(Box::new(pow_lit(*x, 2)), Box::new(Expr::Mul(x, y)))),
                        Box::new(pow_lit(*y, 2)),
                    )),
                ),
                "a³ - b³ = (a-b)(a² + ab + b²)"@,
            ),
            _ => none(),
        },
        _ => none(),
    }
}

fn diff_cubes_factor_applicable(e: &Expr) -> (r: bool)
    ensures
        r == diff_cubes_factor_applies(*e),
{
    match e {
        Expr::Sub(a, b) => pow_of_e(a, 3) && pow_of_e(b, 3),
        _ => false,
    }
}

fn diff_cubes_factor_apply(e: &Expr) -> (v: Vec<RuleApplication>)
    ensures
        apps_view(v@) == diff_cubes_factor_results(*e),
{
    match e {
        Expr::Sub(a, b) => match (&**a, &**b) {
            (Expr::Pow(x, _), Expr::Pow(y, _)) => single(
                Expr::Mul(
                    Box::new(Expr::Sub(bx(x), bx(y))),
                    Box::new(Expr::Add(
                        Box::new(Expr::Add(Box::new(mk_pow(x, 2)), Box::new(Expr::Mul(bx(x), bx(y))))),
                        Box::new(mk_pow(y, 2)),
                    )),
                ),
                "a³ - b³ = (a-b)(a² + ab + b²)",
            ),
            _ => nothing(),
        },
        _ => nothing(),
    }
}

/// `a³ + b³ = (a+b)(a² - ab + b²)`.
pub open spec fn sum_cubes_factor_applies(e: Expr) -> bool {
    e matches Expr::Add(a, b) && pow_of(*a, 3) && pow_of(*b, 3)
}

/// The results of `sum_cubes_factor` on `e`, each with its justification.
pub open spec fn sum_cubes_factor_results(e: Expr) -> Seq<(Expr, Seq<char>)> {
    match e {
        Expr::Add(a, b) => match (*a, *b) {
            (Expr::Pow(x, _), Expr::Pow(y, _)) => one(
                Expr::Mul(
                    Box::new(Expr::Add(x, y)),
                    Box::new(Expr::Add(
                        Box::new(Expr::Sub(Box::new(pow_lit(*x, 2)), Box::new(Expr::Mul(x, y)))),
                        Box::new(pow_lit(*y, 2)),
                    )),
                ),
                "a³ + b³ = (a+b)(a² - ab + b²)"@,
            ),
            _ => none(),
        },
        _ => none(),
    }
}

fn sum_cubes_factor_applicable(e: &Expr) -> (r: bool)
    ensures
        r == sum_cubes_factor_applies(*e),
{
    match e {
        Expr::Add(a, b) => pow_of_e(a, 3) && pow_of_e(b, 3),
        _ => false,
    }
}

fn sum_cubes_factor_apply(e: &Expr) -> (v: Vec<RuleApplication>)
    ensures
        apps_view(v@) == sum_cubes_factor_results(*e),
{
    match e {
        Expr::Add(a, b) => match (&**a, &**b) {
            (Expr::Pow(x, _), Expr::Pow(y, _)) => single(
                Expr::Mul(
                    Box::new(Expr::Add(bx(x), bx(y))),
                    Box::new(Expr::Add(
                        Box::new(Expr::Sub(Box::new(mk_pow(x, 2)), Box::new(Expr::Mul(bx(x), bx(y))))),
                        Box::new(mk_pow(y, 2)),
                    )),
                ),
                "a³ + b³ = (a+b)(a² - ab + b²)",
            ),
            _ => nothing(),
        },
        _ => nothing(),
    }
}

/// `(a+b)² = a² + 2ab + b²`.
pub open spec fn square_binomial_expand_applies(e: Expr) -> bool {
    e matches Expr::Pow(base, x) && is_lit(*x, 2) && (*base matches Expr::Add(_, _))
}

/// The results of `square_binomial_expand` on `e`, each with its justification.
pub open spec fn square_binomial_expand_results(e: Expr) -> Seq<(Expr, Seq<char>)> {
    match e {
        Expr::Pow(base, _) => match *base {
            Expr::Add(a, b) => one(
                Expr::Add(
                    Box::new(Expr::Add(Box::new(pow_lit(*a, 2)), Box::new(Expr::Mul(Box::new(lit(2)), Box::new(Expr::Mul(a, b)))))),
                    Box::new(pow_lit(*b, 2)),
                ),
                "(a+b)² = a² + 2ab + b²"@,
            ),
            _ => none(),
        },
        _ => none(),
    }
}

fn square_binomial_expand_applicable(e: &Expr) -> (r: bool)
    ensures
        r == square_binomial_expand_applies(*e),
{
    match e {
        Expr::Pow(base, x) => is_lit_e(x, 2) && match &**base {
            Expr::Add(_, _) => true,
            _ => false,
        },
        _ => false,
    }
}

fn square_binomial_expand_apply(e: &Expr) -> (v: Vec<RuleApplication>)
    ensures
        apps_view(v@) == square_binomial_expand_results(*e),
{
    match e {
        Expr::Pow(base, _) => match &**base {
            Expr::Add(a, b) => single(
                Expr::Add(
                    Box::new(Expr::Add(Box::new(mk_pow(a, 2)), Box::new(Expr::Mul(Box::new(mk_lit(2)), Box::new(Expr::Mul(bx(a), bx(b))))))),
                    Box::new(mk_pow(b, 2)),
                ),
                "(a+b)² = a² + 2ab + b²",
            ),
            _ => nothing(),
        },
        _ => nothing(),
    }
}

/// `(a-b)² = a² - 2ab + b²`.
pub open spec fn square_binomial_sub_expand_applies(e: Expr) -> bool {
    e matches Expr::Pow(base, x) && is_lit(*x, 2) && (*base matches Expr::Sub(_, _))
}

/// The results of `square_binomial_sub_expand` on `e`, each with its justification.
pub open spec fn square_binomial_sub_expand_results(e: Expr) -> Seq<(Expr, Seq<char>)> {
    match e {
        Expr::Pow(base, _) => match *base {
            Expr::Sub(a, b) => one(
                Expr::Add(
                    Box::new(Expr::Sub(Box::new(pow_lit(*a, 2)), Box::new(Expr::Mul(Box::new(lit(2)), Box::new(Expr::Mul(a, b)))))),
                    Box::new(pow_lit(*b, 2)),
                ),
                "(a-b)² = a² - 2ab + b²"@,
            ),
            _ => none(),
        },
        _ => none(),
    }
}

fn square_binomial_sub_expand_applicable(e: &Expr) -> (r: bool)
    ensures
        r == square_binomial_sub_expand_applies(*e),
{
    match e {
        Expr::Pow(base, x) => is_lit_e(x, 2) && match &**base {
            Expr::Sub(_, _) => true,
            _ => false,
        },
        _ => false,
    }
}

fn square_binomial_sub_expand_apply(e: &Expr) -> (v: Vec<RuleApplication>)
    ensures
        apps_view(v@) == square_binomial_sub_expand_results(*e),
{
    match e {
        Expr::Pow(base, _) => match &**base {
            Expr::Sub(a, b) => single(
                Expr::Add(
                    Box::new(Expr::Sub(Box::new(mk_pow(a, 2)), Box::new(Expr::Mul(Box::new(mk_lit(2)), Box::new(Expr::Mul(bx(a), bx(b))))))),
                    Box::new(mk_pow(b, 2)),
                ),
                "(a-b)² = a² - 2ab + b²",
            ),
            _ => nothing(),
        },
        _ => nothing(),
    }
}

// ---------------------------------------------------------------------------
// Number theory: gcd and lcm
// ---------------------------------------------------------------------------

/// `gcd(a, a) = |a|`.
pub open spec fn gcd_self_applies(e: Expr) -> bool {
    e matches Expr::GCD(a, b) && a == b
}

/// The results of `gcd_self` on `e`, each with its justification.
pub open spec fn gcd_self_results(e: Expr) -> Seq<(Expr, Seq<char>)> {
    match e {
        Expr::GCD(a, b) => if a == b {
            one(Expr::Abs(a), "gcd(a, a) = |a|"@)
        } else {
            none()
        },
        _ => none(),
    }
}

fn gcd_self_applicable(e: &Expr) -> (r: bool)
    ensures
        r == gcd_self_applies(*e),
{
    match e {
        Expr::GCD(a, b) => expr_eq(a, b),
        _ => false,
    }
}

fn gcd_self_apply(e: &Expr) -> (v: Vec<RuleApplication>)
    ensures
        apps_view(v@) == gcd_self_results(*e),
{
    match e {
        Expr::GCD(a, b) => if expr_eq(a, b) {
            single(Expr::Abs(bx(a)), "gcd(a, a) = |a|")
        } else {
            nothing()
        },
        _ => nothing(),
    }
}

/// `gcd(a, 0) = |a|`.
pub open spec fn gcd_zero_applies(e: Expr) -> bool {
    e matches Expr::GCD(_, b) && is_zero(*b)
}

/// The results of `gcd_zero` on `e`, each with its justification.
pub open spec fn gcd_zero_results(e: Expr) -> Seq<(Expr, Seq<char>)> {
    match e {
        Expr::GCD(a, b) => if is_zero(*b) {
            one(Expr::Abs(a), "gcd(a, 0) = |a|"@)
        } else {
            none()
        },
        _ => none(),
    }
}

fn gcd_zero_applicable(e: &Expr) -> (r: bool)
    ensures
        r == gcd_zero_applies(*e),
{
    match e {
        Expr::GCD(_, b) => is_zero_e(b),
        _ => false,
    }
}

fn gcd_zero_apply(e: &Expr) -> (v: Vec<RuleApplication>)
    ensures
        apps_view(v@) == gcd_zero_results(*e),
{
    match e {
        Expr::GCD(a, b) => if is_zero_e(b) {
            single(Expr::Abs(bx(a)), "gcd(a, 0) = |a|")
        } else {
            nothing()
        },
        _ => nothing(),
    }
}

/// `gcd(a, 1) = 1`.
pub open spec fn gcd_one_applies(e: Expr) -> bool {
    e matches Expr::GCD(_, b) && is_lit(*b, 1)
}

/// The results of `gcd_one` on `e`, each with its justification.
pub open spec fn gcd_one_results(e: Expr) -> Seq<(Expr, Seq<char>)> {
    if gcd_one_applies(e) {
        one(lit(1), "gcd(a, 1) = 1"@)
    } else {
        none()
    }
}

fn gcd_one_applicable(e: &Expr) -> (r: bool)
    ensures
        r == gcd_one_applies(*e),
{
    match e {
        Expr::GCD(_, b) => is_lit_e(b, 1),
        _ => false,
    }
}

fn gcd_one_apply(e: &Expr) -> (v: Vec<RuleApplication>)
    ensures
        apps_view(v@) == gcd_one_results(*e),
{
    if gcd_one_applicable(e) {
        single(mk_lit(1), "gcd(a, 1) = 1")
    } else {
        nothing()
    }
}

/// `lcm(a, a) = |a|`.
pub open spec fn lcm_self_applies(e: Expr) -> bool {
    e matches Expr::LCM(a, b) && a == b
}

/// The results of `lcm_self` on `e`, each with its justification.
pub open spec fn lcm_self_results(e: Expr) -> Seq<(Expr, Seq<char>)> {
    match e {
        Expr::LCM(a, b) => if a == b {
            one(Expr::Abs(a), "lcm(a, a) = |a|"@)
        } else {
            none()
        },
        _ => none(),
    }
}

fn lcm_self_applicable(e: &Expr) -> (r: bool)
    ensures
        r == lcm_self_applies(*e),
{
    match e {
        Expr::LCM(a, b) => expr_eq(a, b),
        _ => false,
    }
}

fn lcm_self_apply(e: &Expr) -> (v: Vec<RuleApplication>)
    ensures
        apps_view(v@) == lcm_self_results(*e),
{
    match e {
        Expr::LCM(a, b) => if expr_eq(a, b) {
            single(Expr::Abs(bx(a)), "lcm(a, a) = |a|")
        } else {
            nothing()
        },
        _ => nothing(),
    }
}

/// `lcm(a, 1) = |a|`.
pub open spec fn lcm_one_applies(e: Expr) -> bool {
    e matches Expr::LCM(_, b) && is_lit(*b, 1)
}

/// The results of `lcm_one` on `e`, each with its justification.
pub open spec fn lcm_one_results(e: Expr) -> Seq<(Expr, Seq<char>)> {
    match e {
        Expr::LCM(a, b) => if is_lit(*b, 1) {
            one(Expr::Abs(a), "lcm(a, 1) = |a|"@)
        } else {
            none()
        },
        _ => none(),
    }
}

fn lcm_one_applicable(e: &Expr) -> (r: bool)
    ensures
        r == lcm_one_applies(*e),
{
    match e {
        Expr::LCM(_, b) => is_lit_e(b, 1),
        _ => false,
    }
}

fn lcm_one_apply(e: &Expr) -> (v: Vec<RuleApplication>)
    ensures
        apps_view(v@) == lcm_one_results(*e),
{
    match e {
        Expr::LCM(a, b) => if is_lit_e(b, 1) {
            single(Expr::Abs(bx(a)), "lcm(a, 1) = |a|")
        } else {
            nothing()
        },
        _ => nothing(),
    }
}

/// `gcd(a,b) · lcm(a,b) = |a·b|`, in either order.
pub open spec fn gcd_lcm_product_applies(e: Expr) -> bool {
    match e {
        Expr::Mul(l, r) => match (*l, *r) {
            (Expr::GCD(a1, b1), Expr::LCM(a2, b2)) => a1 == a2 && b1 == b2,
            (Expr::LCM(a1, b1), Expr::GCD(a2, b2)) => a1 == a2 && b1 == b2,
            _ => false,
        },
        _ => false,
    }
}

/// The results of `gcd_lcm_product` on `e`, each with its justification.
pub open spec fn gcd_lcm_product_results(e: Expr) -> Seq<(Expr, Seq<char>)> {
    match e {
        Expr::Mul(l, r) => match (*l, *r) {
            (Expr::GCD(a1, b1), Expr::LCM(_, _)) => one(Expr::Abs(Box::new(Expr::Mul(a1, b1))), "gcd(a,b) * lcm(a,b) = |a*b|"@),
            (Expr::LCM(a1, b1), Expr::GCD(_, _)) => one(Expr::Abs(Box::new(Expr::Mul(a1, b1))), "gcd(a,b) * lcm(a,b) = |a*b|"@),
            _ => none(),
        },
        _ => none(),
    }
}

fn gcd_lcm_product_applicable(e: &Expr) -> (r: bool)
    ensures
        r == gcd_lcm_product_applies(*e),
{
    match e {
        Expr::Mul(l, r) => match (&**l, &**r) {
            (Expr::GCD(a1, b1), Expr::LCM(a2, b2)) => expr_eq(a1, a2) && expr_eq(b1, b2),
            (Expr::LCM(a1, b1), Expr::GCD(a2, b2)) => expr_eq(a1, a2) && expr_eq(b1, b2),
            _ => false,
        },
        _ => false,
    }
}

fn gcd_lcm_product_apply(e: &Expr) -> (v: Vec<RuleApplication>)
    ensures
        apps_view(v@) == gcd_lcm_product_results(*e),
{
    match e {
        Expr::Mul(l, r) => match (&**l, &**r) {
            (Expr::GCD(a1, b1), Expr::LCM(_, _)) => single(Expr::Abs(Box::new(Expr::Mul(bx(a1), bx(b1)))), "gcd(a,b) * lcm(a,b) = |a*b|"),
            (Expr::LCM(a1, b1), Expr::GCD(_, _)) => single(Expr::Abs(Box::new(Expr::Mul(bx(a1), bx(b1)))), "gcd(a,b) * lcm(a,b) = |a*b|"),
            _ => nothing(),
        },
        _ => nothing(),
    }
}

// ---------------------------------------------------------------------------
// Number theory: sum formulas
// ---------------------------------------------------------------------------

/// `c·n`, a constant times a variable, read as a sum of `n` copies of `c`.
pub open spec fn sum_constant_applies(e: Expr) -> bool {
    e matches Expr::Mul(a, b) && (*a matches Expr::Const(_)) && (*b matches Expr::Var(_))
}

/// The results of `sum_constant` on `e`, each with its justification.
pub open spec fn sum_constant_results(e: Expr) -> Seq<(Expr, Seq<char>)> {
    if sum_constant_applies(e) {
        one(e, "Σc (n times) = cn (sum of constant)"@)
    } else {
        none()
    }
}

fn sum_constant_applicable(e: &Expr) -> (r: bool)
    ensures
        r == sum_constant_applies(*e),
{
    match e {
        Expr::Mul(a, b) => match (&**a, &**b) {
            (Expr::Const(_), Expr::Var(_)) => true,
            _ => false,
        },
        _ => false,
    }
}

fn sum_constant_apply(e: &Expr) -> (v: Vec<RuleApplication>)
    ensures
        apps_view(v@) == sum_constant_results(*e),
{
    if sum_constant_applicable(e) {
        single(copy_expr(e), "Σc (n times) = cn (sum of constant)")
    } else {
        nothing()
    }
}

/// `n(n+1)/2`, the closed form of `1 + 2 + … + n`.
pub open spec fn sum_arithmetic_applies(e: Expr) -> bool {
    match e {
        Expr::Div(num, den) => is_lit(*den, 2) && match *num {
            Expr::Mul(n1, np1) => match *np1 {
                Expr::Add(n2, one) => is_lit(*one, 1) && n1 == n2,
                _ => false,
            },
            _ => false,
        },
        _ => false,
    }
}

/// The results of `sum_arithmetic` on `e`, each with its justification.
pub open spec fn sum_arithmetic_results(e: Expr) -> Seq<(Expr, Seq<char>)> {
    if e matches Expr::Div(num, _) && (*num matches Expr::Mul(_, _)) {
        one(e, "1+2+...+n = n(n+1)/2 (arithmetic sum formula)"@)
    } else {
        none()
    }
}

fn sum_arithmetic_applicable(e: &Expr) -> (r: bool)
    ensures
        r == sum_arithmetic_applies(*e),
{
    match e {
        Expr::Div(num, den) => is_lit_e(den, 2) && match &**num {
            Expr::Mul(n1, np1) => match &**np1 {
                Expr::Add(n2, one) => is_lit_e(one, 1) && expr_eq(n1, n2),
                _ => false,
            },
            _ => false,
        },
        _ => false,
    }
}

fn sum_arithmetic_apply(e: &Expr) -> (v: Vec<RuleApplication>)
    ensures
        apps_view(v@) == sum_arithmetic_results(*e),
{
    match e {
        Expr::Div(num, _) => match &**num {
            Expr::Mul(_, _) => single(copy_expr(e), "1+2+...+n = n(n+1)/2 (arithmetic sum formula)"),
            _ => nothing(),
        },
        _ => nothing(),
    }
}

/// A quotient by 6, read as the closed form of `1² + … + n²`.
pub open spec fn sum_squares_applies(e: Expr) -> bool {
    e matches Expr::Div(_, den) && is_lit(*den, 6)
}

/// The results of `sum_squares` on `e`, each with its justification.
pub open spec fn sum_squares_results(e: Expr) -> Seq<(Expr, Seq<char>)> {
    if sum_squares_applies(e) {
        one(e, "1²+2²+...+n² = n(n+1)(2n+1)/6 (sum of squares)"@)
    } else {
        none()
    }
}

fn sum_squares_applicable(e: &Expr) -> (r: bool)
    ensures
        r == sum_squares_applies(*e),
{
    match e {
        Expr::Div(_, den) => is_lit_e(den, 6),
        _ => false,
    }
}

fn sum_squares_apply(e: &Expr) -> (v: Vec<RuleApplication>)
    ensures
        apps_view(v@) == sum_squares_results(*e),
{
    if sum_squares_applicable(e) {
        single(copy_expr(e), "1²+2²+...+n² = n(n+1)(2n+1)/6 (sum of squares)")
    } else {
        nothing()
    }
}

/// The square of a quotient, read as the closed form of `1³ + … + n³`.
pub open spec fn sum_cubes_applies(e: Expr) -> bool {
    e matches Expr::Pow(base, x) && is_lit(*x, 2) && (*base matches Expr::Div(_, _))
}

/// The results of `sum_cubes` on `e`, each with its justification.
pub open spec fn sum_cubes_results(e: Expr) -> Seq<(Expr, Seq<char>)> {
    if e matches Expr::Pow(base, _) && (*base matches Expr::Div(_, _)) {
        one(e, "1³+2³+...+n³ = [n(n+1)/2]² (sum of cubes)"@)
    } else {
        none()
    }
}

fn sum_cubes_applicable(e: &Expr) -> (r: bool)
    ensures
        r == sum_cubes_applies(*e),
{
    match e {
        Expr::Pow(base, x) => is_lit_e(x, 2) && match &**base {
            Expr::Div(_, _) => true,
            _ => false,
        },
        _ => false,
    }
}

fn sum_cubes_apply(e: &Expr) -> (v: Vec<RuleApplication>)
    ensures
        apps_view(v@) == sum_cubes_results(*e),
{
    match e {
        Expr::Pow(base, _) => match &**base {
            Expr::Div(_, _) => single(copy_expr(e), "1³+2³+...+n³ = [n(n+1)/2]² (sum of cubes)"),
            _ => nothing(),
        },
        _ => nothing(),
    }
}

/// `(r^k - x)/(r - 1)`, the closed form of a geometric sum.
pub open spec fn geometric_sum_applies(e: Expr) -> bool {
    e matches Expr::Div(num, den) && (*num matches Expr::Sub(_, _)) && (*den matches Expr::Sub(_, _))
}

/// The results of `geometric_sum` on `e`, each with its justification.
pub open spec fn geometric_sum_results(e: Expr) -> Seq<(Expr, Seq<char>)> {
    match e {
        Expr::Div(num, den) => match (*num, *den) {
            (Expr::Sub(p, _), Expr::Sub(r, one_)) => if is_lit(*one_, 1) && (*p matches Expr::Pow(base, _) && base == r) {
                one(e, "1+r+r²+...+r^n = (r^(n+1)-1)/(r-1) (geometric series)"@)
            } else {
                none()
            },
            _ => none(),
        },
        _ => none(),
    }
}

fn geometric_sum_applicable(e: &Expr) -> (r: bool)
    ensures
        r == geometric_sum_applies(*e),
{
    match e {
        Expr::Div(num, den) => match (&**num, &**den) {
            (Expr::Sub(_, _), Expr::Sub(_, _)) => true,
            _ => false,
        },
        _ => false,
    }
}

fn geometric_sum_apply(e: &Expr) -> (v: Vec<RuleApplication>)
    ensures
        apps_view(v@) == geometric_sum_results(*e),
{
    match e {
        Expr::Div(num, den) => match (&**num, &**den) {
            (Expr::Sub(p, _), Expr::Sub(r, one_)) => {
                if is_lit_e(one_, 1) {
                    if let Expr::Pow(base, _) = &**p {
                        if expr_eq(base, r) {
                            return single(copy_expr(e), "1+r+r²+...+r^n = (r^(n+1)-1)/(r-1) (geometric series)");
                        }
                    }
                }
                nothing()
            },
            _ => nothing(),
        },
        _ => nothing(),
    }
}

// ---------------------------------------------------------------------------
// Combinatorics: binomial coefficients and counting
// ---------------------------------------------------------------------------

/// `C(n,0) = 1`.
pub open spec fn binomial_zero_applies(e: Expr) -> bool {
    e matches Expr::Binomial(_, k) && is_lit(*k, 0)
}

/// The results of `binomial_zero` on `e`, each with its justification.
pub open spec fn binomial_zero_results(e: Expr) -> Seq<(Expr, Seq<char>)> {
    if binomial_zero_applies(e) {
        one(lit(1), "C(n,0) = 1 for all n"@)
    } else {
        none()
    }
}

fn binomial_zero_applicable(e: &Expr) -> (r: bool)
    ensures
        r == binomial_zero_applies(*e),
{
    match e {
        Expr::Binomial(_, k) => is_lit_e(k, 0),
        _ => false,
    }
}

fn binomial_zero_apply(e: &Expr) -> (v: Vec<RuleApplication>)
    ensures
        apps_view(v@) == binomial_zero_results(*e),
{
    if binomial_zero_applicable(e) {
        single(mk_lit(1), "C(n,0) = 1 for all n")
    } else {
        nothing()
    }
}

/// `C(n,n) = 1`.
pub open spec fn binomial_full_applies(e: Expr) -> bool {
    e matches Expr::Binomial(n, k) && n == k
}

/// The results of `binomial_full` on `e`, each with its justification.
pub open spec fn binomial_full_results(e: Expr) -> Seq<(Expr, Seq<char>)> {
    if binomial_full_applies(e) {
        one(lit(1), "C(n,n) = 1 for all n"@)
    } else {
        none()
    }
}

fn binomial_full_applicable(e: &Expr) -> (r: bool)
    ensures
        r == binomial_full_applies(*e),
{
    match e {
        Expr::Binomial(n, k) => expr_eq(n, k),
        _ => false,
    }
}

fn binomial_full_apply(e: &Expr) -> (v: Vec<RuleApplication>)
    ensures
        apps_view(v@) == binomial_full_results(*e),
{
    if binomial_full_applicable(e) {
        single(mk_lit(1), "C(n,n) = 1 for all n")
    } else {
        nothing()
    }
}

/// `Σ C(n,k) = 2^n`: fires on powers of the constant 2.
pub open spec fn binomial_sum_applies(e: Expr) -> bool {
    e matches Expr::Pow(base, _) && is_lit(*base, 2)
}

/// The results of `binomial_sum` on `e`, each with its justification.
pub open spec fn binomial_sum_results(e: Expr) -> Seq<(Expr, Seq<char>)> {
    one(e, "Binomial sum: Σ C(n,k) = 2^n"@)
}

fn binomial_sum_applicable(e: &Expr) -> (r: bool)
    ensures
        r == binomial_sum_applies(*e),
{
    match e {
        Expr::Pow(base, _) => is_lit_e(base, 2),
        _ => false,
    }
}

fn binomial_sum_apply(e: &Expr) -> (v: Vec<RuleApplication>)
    ensures
        apps_view(v@) == binomial_sum_results(*e),
{
    single(copy_expr(e), "Binomial sum: Σ C(n,k) = 2^n")
}

/// `(a+b)^n` for an integer constant `n > 2`; produces nothing.
pub open spec fn binomial_theorem_applies(e: Expr) -> bool {
    e matches Expr::Pow(base, x) && (*base is Add) && (*x matches Expr::Const(n) && n.den() == 1 && n.num() > 2)
}

/// The results of `binomial_theorem` on `e`, each with its justification.
pub open spec fn binomial_theorem_results(e: Expr) -> Seq<(Expr, Seq<char>)> {
    none()
}

fn binomial_theorem_applicable(e: &Expr) -> (r: bool)
    ensures
        r == binomial_theorem_applies(*e),
{
    match e {
        Expr::Pow(base, x) => match (&**base, &**x) {
            (Expr::Add(_, _), Expr::Const(n)) => n.is_integer() && n.numer() > 2,
            _ => false,
        },
        _ => false,
    }
}

fn binomial_theorem_apply(e: &Expr) -> (v: Vec<RuleApplication>)
    ensures
        apps_view(v@) == binomial_theorem_results(*e),
{
    nothing()
}

/// The pigeonhole principle: fires on `>` and `≥`, giving the constant 2.
pub open spec fn pigeonhole_applies(e: Expr) -> bool {
    (e is Gt) || (e is Gte)
}

/// The results of `pigeonhole` on `e`, each with its justification.
pub open spec fn pigeonhole_results(e: Expr) -> Seq<(Expr, Seq<char>)> {
    one(lit(2), "Pigeonhole: n+1 items in n boxes => at least one box has 2+ items"@)
}

fn pigeonhole_applicable(e: &Expr) -> (r: bool)
    ensures
        r == pigeonhole_applies(*e),
{
    match e {
        Expr::Gt(_, _) | Expr::Gte(_, _) => true,
        _ => false,
    }
}

fn pigeonhole_apply(e: &Expr) -> (v: Vec<RuleApplication>)
    ensures
        apps_view(v@) == pigeonhole_results(*e),
{
    single(mk_lit(2), "Pigeonhole: n+1 items in n boxes => at least one box has 2+ items")
}

// ---------------------------------------------------------------------------
// Inequalities: AM-GM and consequences
// ---------------------------------------------------------------------------

/// Whether a variable occurs in `e`, looking through constants, `π`, `e`,
/// the unary forms `-`, `√`, `sin`, `cos`, `tan`, `ln`, `exp`, `|·|`,
/// `⌊·⌋`, `⌈·⌉`, `!` and the binary forms `+ - · / ^`, gcd, lcm, mod and
/// binomial; any other form counts as variable-free.
pub open spec fn has_var(e: Expr) -> bool
    decreases e,
{
    match e {
        Expr::Var(_) => true,
        Expr::Neg(x) => has_var(*x),
        Expr::Sqrt(x) => has_var(*x),
        Expr::Sin(x) => has_var(*x),
        Expr::Cos(x) => has_var(*x),
        Expr::Tan(x) => has_var(*x),
        Expr::Ln(x) => has_var(*x),
        Expr::Exp(x) => has_var(*x),
        Expr::Abs(x) => has_var(*x),
        Expr::Floor(x) => has_var(*x),
        Expr::Ceiling(x) => has_var(*x),
        Expr::Factorial(x) => has_var(*x),
        Expr::Add(x, y) => has_var(*x) || has_var(*y),
        Expr::Sub(x, y) => has_var(*x) || has_var(*y),
        Expr::Mul(x, y) => has_var(*x) || has_var(*y),
        Expr::Div(x, y) => has_var(*x) || has_var(*y),
        Expr::Pow(x, y) => has_var(*x) || has_var(*y),
        Expr::GCD(x, y) => has_var(*x) || has_var(*y),
        Expr::LCM(x, y) => has_var(*x) || has_var(*y),
        Expr::Mod(x, y) => has_var(*x) || has_var(*y),
        Expr::Binomial(x, y) => has_var(*x) || has_var(*y),
        _ => false,
    }
}

/// Whether a variable occurs in `e`, as [`has_var`] states.
pub fn has_var_e(e: &Expr) -> (b: bool)
    ensures
        b == has_var(*e),
    decreases e,
{
    match e {
        Expr::Var(_) => true,
        Expr::Neg(x) | Expr::Sqrt(x) | Expr::Sin(x) | Expr::Cos(x) | Expr::Tan(x) | Expr::Ln(x) | Expr::Exp(x)
        | Expr::Abs(x) | Expr::Floor(x) | Expr::Ceiling(x) | Expr::Factorial(x) => has_var_e(x),
        Expr::Add(x, y) | Expr::Sub(x, y) | Expr::Mul(x, y) | Expr::Div(x, y) | Expr::Pow(x, y) | Expr::GCD(x, y)
        | Expr::LCM(x, y) | Expr::Mod(x, y) | Expr::Binomial(x, y) => has_var_e(x) || has_var_e(y),
        _ => false,
    }
}

/// AM-GM for two terms: `a + b ≥ 2√(ab)`, on sums with a variable.
pub open spec fn am_gm_2_applies(e: Expr) -> bool {
    e matches Expr::Add(a, b) && (has_var(*a) || has_var(*b))
}

/// The results of `am_gm_2` on `e`, each with its justification.
pub open spec fn am_gm_2_results(e: Expr) -> Seq<(Expr, Seq<char>)> {
    match e {
        Expr::Add(a, b) => one(
            Expr::Mul(Box::new(lit(2)), Box::new(Expr::Sqrt(Box::new(Expr::Mul(a, b))))),
            "AM-GM: a + b ≥ 2√(ab), equality iff a = b"@,
        ),
        _ => none(),
    }
}

fn am_gm_2_applicable(e: &Expr) -> (r: bool)
    ensures
        r == am_gm_2_applies(*e),
{
    match e {
        Expr::Add(a, b) => has_var_e(a) || has_var_e(b),
        _ => false,
    }
}

fn am_gm_2_apply(e: &Expr) -> (v: Vec<RuleApplication>)
    ensures
        apps_view(v@) == am_gm_2_results(*e),
{
    match e {
        Expr::Add(a, b) => single(
            Expr::Mul(Box::new(mk_lit(2)), Box::new(Expr::Sqrt(Box::new(Expr::Mul(bx(a), bx(b)))))),
            "AM-GM: a + b ≥ 2√(ab), equality iff a = b",
        ),
        _ => nothing(),
    }
}

/// `a² + b² ≥ 2ab`.
pub open spec fn sum_squares_ge_product_applies(e: Expr) -> bool {
    e matches Expr::Add(a, b) && pow_of(*a, 2) && pow_of(*b, 2)
}

/// The results of `sum_squares_ge_product` on `e`, each with its justification.
pub open spec fn sum_squares_ge_product_results(e: Expr) -> Seq<(Expr, Seq<char>)> {
    match e {
        Expr::Add(a, b) => match (*a, *b) {
            (Expr::Pow(x, _), Expr::Pow(y, _)) => one(
                Expr::Mul(Box::new(lit(2)), Box::new(Expr::Mul(x, y))),
                "a² + b² ≥ 2ab (lower bound)"@,
            ),
            _ => none(),
        },
        _ => none(),
    }
}

fn sum_squares_ge_product_applicable(e: &Expr) -> (r: bool)
    ensures
        r == sum_squares_ge_product_applies(*e),
{
    match e {
        Expr::Add(a, b) => pow_of_e(a, 2) && pow_of_e(b, 2),
        _ => false,
    }
}

fn sum_squares_ge_product_apply(e: &Expr) -> (v: Vec<RuleApplication>)
    ensures
        apps_view(v@) == sum_squares_ge_product_results(*e),
{
    match e {
        Expr::Add(a, b) => match (&**a, &**b) {
            (Expr::Pow(x, _), Expr::Pow(y, _)) => single(
                Expr::Mul(Box::new(mk_lit(2)), Box::new(Expr::Mul(bx(x), bx(y)))),
                "a² + b² ≥ 2ab (lower bound)",
            ),
            _ => nothing(),
        },
        _ => nothing(),
    }
}

/// `a² + b² + c² ≥ ab + bc + ca`, for `(a² + b²) + c²` or `a² + (b² + c²)`.
pub open spec fn sum_three_squares_applies(e: Expr) -> bool {
    match e {
        Expr::Add(l, r) => if pow_of(*r, 2) && (*l is Add) {
            pow_of(*l->Add_0, 2) && pow_of(*l->Add_1, 2)
        } else if pow_of(*l, 2) && (*r is Add) {
            pow_of(*r->Add_0, 2) && pow_of(*r->Add_1, 2)
        } else {
            false
        },
        _ => false,
    }
}

/// The three squares of a sum of three terms, grouping the left pair first.
pub open spec fn three_terms(l: Expr, r: Expr) -> Option<(Expr, Expr, Expr)> {
    match l {
        Expr::Add(a, b) => Some((*a, *b, r)),
        _ => match r {
            Expr::Add(a, b) => Some((*a, *b, l)),
            _ => None,
        },
    }
}

/// The results of `sum_three_squares` on `e`, each with its justification.
pub open spec fn sum_three_squares_results(e: Expr) -> Seq<(Expr, Seq<char>)> {
    match e {
        Expr::Add(l, r) => match three_terms(*l, *r) {
            Some(t) => match (t.0, t.1, t.2) {
                (Expr::Pow(a, _), Expr::Pow(b, _), Expr::Pow(c, _)) => one(
                    Expr::Add(
                        Box::new(Expr::Add(Box::new(Expr::Mul(a, b)), Box::new(Expr::Mul(b, c)))),
                        Box::new(Expr::Mul(c, a)),
                    ),
                    "a² + b² + c² ≥ ab + bc + ca (lower bound)"@,
                ),
                _ => none(),
            },
            None => none(),
        },
        _ => none(),
    }
}

fn sum_three_squares_applicable(e: &Expr) -> (r: bool)
    ensures
        r == sum_three_squares_applies(*e),
{
    match e {
        Expr::Add(l, r) => {
            if pow_of_e(r, 2) {
                if let Expr::Add(a, b) = &**l {
                    return pow_of_e(a, 2) && pow_of_e(b, 2);
                }
            }
            if pow_of_e(l, 2) {
                if let Expr::Add(a, b) = &**r {
                    return pow_of_e(a, 2) && pow_of_e(b, 2);
                }
            }
            false
        },
        _ => false,
    }
}

fn sum_three_squares_apply(e: &Expr) -> (v: Vec<RuleApplication>)
    ensures
        apps_view(v@) == sum_three_squares_results(*e),
{
    match e {
        Expr::Add(l, r) => {
            let (x, y, z) = match &**l {
                Expr::Add(a, b) => (&**a, &**b, &**r),
                _ => match &**r {
                    Expr::Add(a, b) => (&**a, &**b, &**l),
                    _ => return nothing(),
                },
            };
            match (x, y, z) {
                (Expr::Pow(a, _), Expr::Pow(b, _), Expr::Pow(c, _)) => single(
                    Expr::Add(
                        Box::new(Expr::Add(Box::new(Expr::Mul(bx(a), bx(b))), Box::new(Expr::Mul(bx(b), bx(c))))),
                        Box::new(Expr::Mul(bx(c), bx(a))),
                    ),
                    "a² + b² + c² ≥ ab + bc + ca (lower bound)",
                ),
                _ => nothing(),
            }
        },
        _ => nothing(),
    }
}

/// `a/b + b/a ≥ 2`.
pub open spec fn reciprocal_sum_ge_2_applies(e: Expr) -> bool {
    match e {
        Expr::Add(l, r) => match (*l, *r) {
            (Expr::Div(a1, b1), Expr::Div(b2, a2)) => a1 == a2 && b1 == b2,
            _ => false,
        },
        _ => false,
    }
}

/// The results of `reciprocal_sum_ge_2` on `e`, each with its justification.
pub open spec fn reciprocal_sum_ge_2_results(e: Expr) -> Seq<(Expr, Seq<char>)> {
    if reciprocal_sum_ge_2_applies(e) {
        one(lit(2), "a/b + b/a ≥ 2 (minimum)"@)
    } else {
        none()
    }
}

fn reciprocal_sum_ge_2_applicable(e: &Expr) -> (r: bool)
    ensures
        r == reciprocal_sum_ge_2_applies(*e),
{
    match e {
        Expr::Add(l, r) => match (&**l, &**r) {
            (Expr::Div(a1, b1), Expr::Div(b2, a2)) => expr_eq(a1, a2) && expr_eq(b1, b2),
            _ => false,
        },
        _ => false,
    }
}

fn reciprocal_sum_ge_2_apply(e: &Expr) -> (v: Vec<RuleApplication>)
    ensures
        apps_view(v@) == reciprocal_sum_ge_2_results(*e),
{
    if reciprocal_sum_ge_2_applicable(e) {
        single(mk_lit(2), "a/b + b/a ≥ 2 (minimum)")
    } else {
        nothing()
    }
}

/// AM-GM for three terms: `(a+b+c)/3 ≥ ∛(abc)`.
pub open spec fn am_gm_3_applies(e: Expr) -> bool {
    e matches Expr::Div(num, den) && is_lit(*den, 3) && (*num matches Expr::Add(l, r) && ((*l is Add) || (*r is Add)))
}

/// The three terms of `(a + b) + c` or `a + (b + c)`, in order.
pub open spec fn three_in_order(l: Expr, r: Expr) -> Option<(Expr, Expr, Expr)> {
    match l {
        Expr::Add(a, b) => Some((*a, *b, r)),
        _ => match r {
            Expr::Add(a, b) => Some((l, *a, *b)),
            _ => None,
        },
    }
}

/// The results of `am_gm_3` on `e`, each with its justification.
pub open spec fn am_gm_3_results(e: Expr) -> Seq<(Expr, Seq<char>)> {
    match e {
        Expr::Div(num, _) => match *num {
            Expr::Add(l, r) => match three_in_order(*l, *r) {
                Some(t) => one(
                    Expr::Pow(
                        Box::new(Expr::Mul(Box::new(Expr::Mul(Box::new(t.0), Box::new(t.1))), Box::new(t.2))),
                        Box::new(Expr::Div(Box::new(lit(1)), Box::new(lit(3)))),
                    ),
                    "AM-GM: (a+b+c)/3 ≥ ∛(abc), equality iff a=b=c"@,
                ),
                None => none(),
            },
            _ => none(),
        },
        _ => none(),
    }
}

fn am_gm_3_applicable(e: &Expr) -> (r: bool)
    ensures
        r == am_gm_3_applies(*e),
{
    match e {
        Expr::Div(num, den) => is_lit_e(den, 3) && match &**num {
            Expr::Add(l, r) => (match &**l {
                Expr::Add(_, _) => true,
                _ => false,
            }) || (match &**r {
                Expr::Add(_, _) => true,
                _ => false,
            }),
            _ => false,
        },
        _ => false,
    }
}

fn am_gm_3_apply(e: &Expr) -> (v: Vec<RuleApplication>)
    ensures
        apps_view(v@) == am_gm_3_results(*e),
{
    match e {
        Expr::Div(num, _) => match &**num {
            Expr::Add(l, r) => {
                let (a, b, c) = match &**l {
                    Expr::Add(a, b) => (bx(a), bx(b), bx(r)),
                    _ => match &**r {
                        Expr::Add(a, b) => (bx(l), bx(a), bx(b)),
                        _ => return nothing(),
                    },
                };
                single(
                    Expr::Pow(
                        Box::new(Expr::Mul(Box::new(Expr::Mul(a, b)), c)),
                        Box::new(Expr::Div(Box::new(mk_lit(1)), Box::new(mk_lit(3)))),
                    ),
                    "AM-GM: (a+b+c)/3 ≥ ∛(abc), equality iff a=b=c",
                )
            },
            _ => nothing(),
        },
        _ => nothing(),
    }
}

// ---------------------------------------------------------------------------
// Inequalities: absolute values
// ---------------------------------------------------------------------------

/// `|a| ≥ 0`.
pub open spec fn abs_nonneg_applies(e: Expr) -> bool {
    e is Abs
}

/// The results of `abs_nonneg` on `e`, each with its justification.
pub open spec fn abs_nonneg_results(e: Expr) -> Seq<(Expr, Seq<char>)> {
    if e is Abs {
        one(Expr::Gte(Box::new(e), Box::new(lit(0))), "|a| ≥ 0 always holds"@)
    } else {
        none()
    }
}

fn abs_nonneg_applicable(e: &Expr) -> (r: bool)
    ensures
        r == abs_nonneg_applies(*e),
{
    match e {
        Expr::Abs(_) => true,
        _ => false,
    }
}

fn abs_nonneg_apply(e: &Expr) -> (v: Vec<RuleApplication>)
    ensures
        apps_view(v@) == abs_nonneg_results(*e),
{
    match e {
        Expr::Abs(_) => single(Expr::Gte(Box::new(copy_expr(e)), Box::new(mk_lit(0))), "|a| ≥ 0 always holds"),
        _ => nothing(),
    }
}

/// `|a·b| = |a|·|b|`.
pub open spec fn abs_product_applies(e: Expr) -> bool {
    e matches Expr::Abs(x) && (*x is Mul)
}

/// The results of `abs_product` on `e`, each with its justification.
pub open spec fn abs_product_results(e: Expr) -> Seq<(Expr, Seq<char>)> {
    match e {
        Expr::Abs(x) => match *x {
            Expr::Mul(a, b) => one(Expr::Mul(Box::new(Expr::Abs(a)), Box::new(Expr::Abs(b))), "|a·b| = |a|·|b|"@),
            _ => none(),
        },
        _ => none(),
    }
}

fn abs_product_applicable(e: &Expr) -> (r: bool)
    ensures
        r == abs_product_applies(*e),
{
    match e {
        Expr::Abs(x) => match &**x {
            Expr::Mul(_, _) => true,
            _ => false,
        },
        _ => false,
    }
}

fn abs_product_apply(e: &Expr) -> (v: Vec<RuleApplication>)
    ensures
        apps_view(v@) == abs_product_results(*e),
{
    match e {
        Expr::Abs(x) => match &**x {
            Expr::Mul(a, b) => single(Expr::Mul(Box::new(Expr::Abs(bx(a))), Box::new(Expr::Abs(bx(b)))), "|a·b| = |a|·|b|"),
            _ => nothing(),
        },
        _ => nothing(),
    }
}

/// `|a/b| = |a|/|b|`.
pub open spec fn abs_quotient_applies(e: Expr) -> bool {
    e matches Expr::Abs(x) && (*x is Div)
}

/// The results of `abs_quotient` on `e`, each with its justification.
pub open spec fn abs_quotient_results(e: Expr) -> Seq<(Expr, Seq<char>)> {
    match e {
        Expr::Abs(x) => match *x {
            Expr::Div(a, b) => one(Expr::Div(Box::new(Expr::Abs(a)), Box::new(Expr::Abs(b))), "|a/b| = |a|/|b|"@),
            _ => none(),
        },
        _ => none(),
    }
}

fn abs_quotient_applicable(e: &Expr) -> (r: bool)
    ensures
        r == abs_quotient_applies(*e),
{
    match e {
        Expr::Abs(x) => match &**x {
            Expr::Div(_, _) => true,
            _ => false,
        },
        _ => false,
    }
}

fn abs_quotient_apply(e: &Expr) -> (v: Vec<RuleApplication>)
    ensures
        apps_view(v@) == abs_quotient_results(*e),
{
    match e {
        Expr::Abs(x) => match &**x {
            Expr::Div(a, b) => single(Expr::Div(Box::new(Expr::Abs(bx(a))), Box::new(Expr::Abs(bx(b)))), "|a/b| = |a|/|b|"),
            _ => nothing(),
        },
        _ => nothing(),
    }
}

/// `|-a| = |a|`.
pub open spec fn abs_neg_applies(e: Expr) -> bool {
    e matches Expr::Abs(x) && (*x is Neg)
}

/// The results of `abs_neg` on `e`, each with its justification.
pub open spec fn abs_neg_results(e: Expr) -> Seq<(Expr, Seq<char>)> {
    match e {
        Expr::Abs(x) => match *x {
            Expr::Neg(a) => one(Expr::Abs(a), "|-a| = |a|"@),
            _ => none(),
        },
        _ => none(),
    }
}

fn abs_neg_applicable(e: &Expr) -> (r: bool)
    ensures
        r == abs_neg_applies(*e),
{
    match e {
        Expr::Abs(x) => match &**x {
            Expr::Neg(_) => true,
            _ => false,
        },
        _ => false,
    }
}

fn abs_neg_apply(e: &Expr) -> (v: Vec<RuleApplication>)
    ensures
        apps_view(v@) == abs_neg_results(*e),
{
    match e {
        Expr::Abs(x) => match &**x {
            Expr::Neg(a) => single(Expr::Abs(bx(a)), "|-a| = |a|"),
            _ => nothing(),
        },
        _ => nothing(),
    }
}

/// `||a|| = |a|`.
pub open spec fn abs_abs_applies(e: Expr) -> bool {
    e matches Expr::Abs(x) && (*x is Abs)
}

/// The results of `abs_abs` on `e`, each with its justification.
pub open spec fn abs_abs_results(e: Expr) -> Seq<(Expr, Seq<char>)> {
    match e {
        Expr::Abs(x) => match *x {
            Expr::Abs(a) => one(Expr::Abs(a), "||a|| = |a|"@),
            _ => none(),
        },
        _ => none(),
    }
}

fn abs_abs_applicable(e: &Expr) -> (r: bool)
    ensures
        r == abs_abs_applies(*e),
{
    match e {
        Expr::Abs(x) => match &**x {
            Expr::Abs(_) => true,
            _ => false,
        },
        _ => false,
    }
}

fn abs_abs_apply(e: &Expr) -> (v: Vec<RuleApplication>)
    ensures
        apps_view(v@) == abs_abs_results(*e),
{
    match e {
        Expr::Abs(x) => match &**x {
            Expr::Abs(a) => single(Expr::Abs(bx(a)), "||a|| = |a|"),
            _ => nothing(),
        },
        _ => nothing(),
    }
}

/// `|a|² = a²`.
pub open spec fn abs_squared_applies(e: Expr) -> bool {
    e matches Expr::Pow(base, x) && is_lit(*x, 2) && (*base is Abs)
}

/// The results of `abs_squared` on `e`, each with its justification.
pub open spec fn abs_squared_results(e: Expr) -> Seq<(Expr, Seq<char>)> {
    match e {
        Expr::Pow(base, x) => match *base {
            Expr::Abs(inner) => if is_lit(*x, 2) {
                one(Expr::Pow(inner, x), "|a|² = a²"@)
            } else {
                none()
            },
            _ => none(),
        },
        _ => none(),
    }
}

fn abs_squared_applicable(e: &Expr) -> (r: bool)
    ensures
        r == abs_squared_applies(*e),
{
    match e {
        Expr::Pow(base, x) => is_lit_e(x, 2) && match &**base {
            Expr::Abs(_) => true,
            _ => false,
        },
        _ => false,
    }
}

fn abs_squared_apply(e: &Expr) -> (v: Vec<RuleApplication>)
    ensures
        apps_view(v@) == abs_squared_results(*e),
{
    match e {
        Expr::Pow(base, x) => match &**base {
            Expr::Abs(inner) => if is_lit_e(x, 2) {
                single(Expr::Pow(bx(inner), bx(x)), "|a|² = a²")
            } else {
                nothing()
            },
            _ => nothing(),
        },
        _ => nothing(),
    }
}

// ---------------------------------------------------------------------------
// Polynomials: factoring and symmetric forms
// ---------------------------------------------------------------------------

/// `x² + y² = (x+y)² - 2xy`.
pub open spec fn sum_squares_sym_applies(e: Expr) -> bool {
    e matches Expr::Add(a, b) && pow_of(*a, 2) && pow_of(*b, 2)
}

/// The results of `sum_squares_sym` on `e`, each with its justification.
pub open spec fn sum_squares_sym_results(e: Expr) -> Seq<(Expr, Seq<char>)> {
    match e {
        Expr::Add(a, b) => match (*a, *b) {
            (Expr::Pow(x, _), Expr::Pow(y, _)) => one(
                Expr::Sub(
                    Box::new(Expr::Pow(Box::new(Expr::Add(x, y)), Box::new(lit(2)))),
                    Box::new(Expr::Mul(Box::new(lit(2)), Box::new(Expr::Mul(x, y)))),
                ),
                "x² + y² = (x+y)² - 2xy"@,
            ),
            _ => none(),
        },
        _ => none(),
    }
}

fn sum_squares_sym_applicable(e: &Expr) -> (r: bool)
    ensures
        r == sum_squares_sym_applies(*e),
{
    match e {
        Expr::Add(a, b) => pow_of_e(a, 2) && pow_of_e(b, 2),
        _ => false,
    }
}

fn sum_squares_sym_apply(e: &Expr) -> (v: Vec<RuleApplication>)
    ensures
        apps_view(v@) == sum_squares_sym_results(*e),
{
    match e {
        Expr::Add(a, b) => match (&**a, &**b) {
            (Expr::Pow(x, _), Expr::Pow(y, _)) => single(
                Expr::Sub(
                    Box::new(Expr::Pow(Box::new(Expr::Add(bx(x), bx(y))), Box::new(mk_lit(2)))),
                    Box::new(Expr::Mul(Box::new(mk_lit(2)), Box::new(Expr::Mul(bx(x), bx(y))))),
                ),
                "x² + y² = (x+y)² - 2xy",
            ),
            _ => nothing(),
        },
        _ => nothing(),
    }
}

/// `x² + bx`: a square plus a product; produces nothing.
pub open spec fn complete_square_applies(e: Expr) -> bool {
    e matches Expr::Add(a, b) && pow_of(*a, 2) && (*b is Mul)
}

/// The results of `complete_square` on `e`, each with its justification.
pub open spec fn complete_square_results(e: Expr) -> Seq<(Expr, Seq<char>)> {
    none()
}

fn complete_square_applicable(e: &Expr) -> (r: bool)
    ensures
        r == complete_square_applies(*e),
{
    match e {
        Expr::Add(a, b) => pow_of_e(a, 2) && match &**b {
            Expr::Mul(_, _) => true,
            _ => false,
        },
        _ => false,
    }
}

fn complete_square_apply(e: &Expr) -> (v: Vec<RuleApplication>)
    ensures
        apps_view(v@) == complete_square_results(*e),
{
    nothing()
}

/// `xⁿ - yⁿ` with equal exponents; produces nothing.
pub open spec fn diff_nth_power_applies(e: Expr) -> bool {
    match e {
        Expr::Sub(a, b) => match (*a, *b) {
            (Expr::Pow(_, ea), Expr::Pow(_, eb)) => ea == eb,
            _ => false,
        },
        _ => false,
    }
}

/// The results of `diff_nth_power` on `e`, each with its justification.
pub open spec fn diff_nth_power_results(e: Expr) -> Seq<(Expr, Seq<char>)> {
    none()
}

fn diff_nth_power_applicable(e: &Expr) -> (r: bool)
    ensures
        r == diff_nth_power_applies(*e),
{
    match e {
        Expr::Sub(a, b) => match (&**a, &**b) {
            (Expr::Pow(_, ea), Expr::Pow(_, eb)) => expr_eq(ea, eb),
            _ => false,
        },
        _ => false,
    }
}

fn diff_nth_power_apply(e: &Expr) -> (v: Vec<RuleApplication>)
    ensures
        apps_view(v@) == diff_nth_power_results(*e),
{
    nothing()
}

/// Difference of cubes: `a³ - b³ = (a-b)(a² + ab + b²)`.
pub open spec fn diff_cubes_applies(e: Expr) -> bool {
    e matches Expr::Sub(a, b) && pow_of(*a, 3) && pow_of(*b, 3)
}

/// The results of `diff_cubes` on `e`, each with its justification.
pub open spec fn diff_cubes_results(e: Expr) -> Seq<(Expr, Seq<char>)> {
    match e {
        Expr::Sub(a, b) => match (*a, *b) {
            (Expr::Pow(x, _), Expr::Pow(y, _)) => one(
                Expr::Mul(
                    Box::new(Expr::Sub(x, y)),
                    Box::new(Expr::Add(
                        Box::new(Expr::Add(Box::new(pow_lit(*x, 2)), Box::new(Expr::Mul(x, y)))),
                        Box::new(pow_lit(*y, 2)),
                    )),
                ),
                "Difference of cubes: a³ - b³ = (a-b)(a² + ab + b²)"@,
            ),
            _ => none(),
        },
        _ => none(),
    }
}

fn diff_cubes_applicable(e: &Expr) -> (r: bool)
    ensures
        r == diff_cubes_applies(*e),
{
    match e {
        Expr::Sub(a, b) => pow_of_e(a, 3) && pow_of_e(b, 3),
        _ => false,
    }
}

fn diff_cubes_apply(e: &Expr) -> (v: Vec<RuleApplication>)
    ensures
        apps_view(v@) == diff_cubes_results(*e),
{
    match e {
        Expr::Sub(a, b) => match (&**a, &**b) {
            (Expr::Pow(x, _), Expr::Pow(y, _)) => single(
                Expr::Mul(
                    Box::new(Expr::Sub(bx(x), bx(y))),
                    Box::new(Expr::Add(
                        Box::new(Expr::Add(Box::new(mk_pow(x, 2)), Box::new(Expr::Mul(bx(x), bx(y))))),
                        Box::new(mk_pow(y, 2)),
                    )),
                ),
                "Difference of cubes: a³ - b³ = (a-b)(a² + ab + b²)",
            ),
            _ => nothing(),
        },
        _ => nothing(),
    }
}

/// Sum of cubes: `a³ + b³ = (a+b)·((a² - ab) + b²)`.
pub open spec fn poly_sum_cubes_applies(e: Expr) -> bool {
    e matches Expr::Add(a, b) && pow_of(*a, 3) && pow_of(*b, 3)
}

/// The results of `poly_sum_cubes` on `e`, each with its justification.
pub open spec fn poly_sum_cubes_results(e: Expr) -> Seq<(Expr, Seq<char>)> {
    match e {
        Expr::Add(a, b) => match (*a, *b) {
            (Expr::Pow(x, _), Expr::Pow(y, _)) => one(
                Expr::Mul(
                    Box::new(Expr::Add(x, y)),
                    Box::new(Expr::Add(
                        Box::new(Expr::Sub(Box::new(pow_lit(*x, 2)), Box::new(Expr::Mul(x, y)))),
                        Box::new(pow_lit(*y, 2)),
                    )),
                ),
                "Sum of cubes: a³ + b³ = (a+b)(a² - ab + b²)"@,
            ),
            _ => none(),
        },
        _ => none(),
    }
}

fn poly_sum_cubes_applicable(e: &Expr) -> (r: bool)
    ensures
        r == poly_sum_cubes_applies(*e),
{
    match e {
        Expr::Add(a, b) => pow_of_e(a, 3) && pow_of_e(b, 3),
        _ => false,
    }
}

fn poly_sum_cubes_apply(e: &Expr) -> (v: Vec<RuleApplication>)
    ensures
        apps_view(v@) == poly_sum_cubes_results(*e),
{
    match e {
        Expr::Add(a, b) => match (&**a, &**b) {
            (Expr::Pow(x, _), Expr::Pow(y, _)) => single(
                Expr::Mul(
                    Box::new(Expr::Add(bx(x), bx(y))),
                    Box::new(Expr::Add(
                        Box::new(Expr::Sub(Box::new(mk_pow(x, 2)), Box::new(Expr::Mul(bx(x), bx(y))))),
                        Box::new(mk_pow(y, 2)),
                    )),
                ),
                "Sum of cubes: a³ + b³ = (a+b)(a² - ab + b²)",
            ),
            _ => nothing(),
        },
        _ => nothing(),
    }
}

/// `xⁿ - 1`: a power minus the constant 1.
pub open spec fn cyclotomic_factor_applies(e: Expr) -> bool {
    e matches Expr::Sub(a, b) && (*a is Pow) && is_lit(*b, 1)
}

/// The results of `cyclotomic_factor` on `e`, each with its justification.
pub open spec fn cyclotomic_factor_results(e: Expr) -> Seq<(Expr, Seq<char>)> {
    one(e, "Cyclotomic factorization: x^n - 1 = Π Φ_d(x)"@)
}

fn cyclotomic_factor_applicable(e: &Expr) -> (r: bool)
    ensures
        r == cyclotomic_factor_applies(*e),
{
    match e {
        Expr::Sub(a, b) => (match &**a {
            Expr::Pow(_, _) => true,
            _ => false,
        }) && is_lit_e(b, 1),
        _ => false,
    }
}

fn cyclotomic_factor_apply(e: &Expr) -> (v: Vec<RuleApplication>)
    ensures
        apps_view(v@) == cyclotomic_factor_results(*e),
{
    single(copy_expr(e), "Cyclotomic factorization: x^n - 1 = Π Φ_d(x)")
}

/// `(x ± y)^n`.
pub open spec fn binomial_factor_applies(e: Expr) -> bool {
    e matches Expr::Pow(base, _) && ((*base is Add) || (*base is Sub))
}

/// The results of `binomial_factor` on `e`, each with its justification.
pub open spec fn binomial_factor_results(e: Expr) -> Seq<(Expr, Seq<char>)> {
    one(e, "Binomial expansion: (x+y)^n = Σ C(n,k)x^k y^(n-k)"@)
}

fn binomial_factor_applicable(e: &Expr) -> (r: bool)
    ensures
        r == binomial_factor_applies(*e),
{
    match e {
        Expr::Pow(base, _) => match &**base {
            Expr::Add(_, _) | Expr::Sub(_, _) => true,
            _ => false,
        },
        _ => false,
    }
}

fn binomial_factor_apply(e: &Expr) -> (v: Vec<RuleApplication>)
    ensures
        apps_view(v@) == binomial_factor_results(*e),
{
    single(copy_expr(e), "Binomial expansion: (x+y)^n = Σ C(n,k)x^k y^(n-k)")
}

// ---------------------------------------------------------------------------
// Rules that note an identity on expressions of given shapes
// ---------------------------------------------------------------------------

/// `binomial_one`: Fires on `Div`, `Var`; returns the expression unchanged, with its justification.
pub open spec fn comb_binomial_one_applies(e: Expr) -> bool {
    (e is Div) || (e is Var)
}

/// The results of `comb_binomial_one` on `e`, each with its justification.
pub open spec fn comb_binomial_one_results(e: Expr) -> Seq<(Expr, Seq<char>)> {
    one(e, "C(n,1) = n"@)
}

fn comb_binomial_one_applicable(e: &Expr) -> (r: bool)
    ensures
        r == comb_binomial_one_applies(*e),
{
    match e {
        Expr::Div(_, _) | Expr::Var(_) => true,
        _ => false,
    }
}

fn comb_binomial_one_apply(e: &Expr) -> (v: Vec<RuleApplication>)
    ensures
        apps_view(v@) == comb_binomial_one_results(*e),
{
    single(copy_expr(e), "C(n,1) = n")
}

/// `binomial_symmetry`: Fires on `Div`; returns the expression unchanged, with its justification.
pub open spec fn comb_binomial_symmetry_applies(e: Expr) -> bool {
    (e is Div)
}

/// The results of `comb_binomial_symmetry` on `e`, each with its justification.
pub open spec fn comb_binomial_symmetry_results(e: Expr) -> Seq<(Expr, Seq<char>)> {
    one(e, "Binomial symmetry: C(n,k) = C(n,n-k)"@)
}

fn comb_binomial_symmetry_applicable(e: &Expr) -> (r: bool)
    ensures
        r == comb_binomial_symmetry_applies(*e),
{
    match e {
        Expr::Div(_, _) => true,
        _ => false,
    }
}

fn comb_binomial_symmetry_apply(e: &Expr) -> (v: Vec<RuleApplication>)
    ensures
        apps_view(v@) == comb_binomial_symmetry_results(*e),
{
    single(copy_expr(e), "Binomial symmetry: C(n,k) = C(n,n-k)")
}

/// `pascal_identity`: Fires on `Add`; returns the expression unchanged, with its justification.
pub open spec fn comb_pascal_identity_applies(e: Expr) -> bool {
    (e is Add)
}

/// The results of `comb_pascal_identity` on `e`, each with its justification.
pub open spec fn comb_pascal_identity_results(e: Expr) -> Seq<(Expr, Seq<char>)> {
    one(e, "Pascal's identity: C(n,k) = C(n-1,k-1) + C(n-1,k)"@)
}

fn comb_pascal_identity_applicable(e: &Expr) -> (r: bool)
    ensures
        r == comb_pascal_identity_applies(*e),
{
    match e {
        Expr::Add(_, _) => true,
        _ => false,
    }
}

fn comb_pascal_identity_apply(e: &Expr) -> (v: Vec<RuleApplication>)
    ensures
        apps_view(v@) == comb_pascal_identity_results(*e),
{
    single(copy_expr(e), "Pascal's identity: C(n,k) = C(n-1,k-1) + C(n-1,k)")
}

/// `hockey_stick`: Fires on `Add`; returns the expression unchanged, with its justification.
pub open spec fn comb_hockey_stick_applies(e: Expr) -> bool {
    (e is Add)
}

/// The results of `comb_hockey_stick` on `e`, each with its justification.
pub open spec fn comb_hockey_stick_results(e: Expr) -> Seq<(Expr, Seq<char>)> {
    one(e, "Hockey stick identity: ΣC(i,k) = C(n+1,k+1)"@)
}

fn comb_hockey_stick_applicable(e: &Expr) -> (r: bool)
    ensures
        r == comb_hockey_stick_applies(*e),
{
    match e {
        Expr::Add(_, _) => true,
        _ => false,
    }
}

fn comb_hockey_stick_apply(e: &Expr) -> (v: Vec<RuleApplication>)
    ensures
        apps_view(v@) == comb_hockey_stick_results(*e),
{
    single(copy_expr(e), "Hockey stick identity: ΣC(i,k) = C(n+1,k+1)")
}

/// `vandermonde`: Fires on `Mul`, `Add`; returns the expression unchanged, with its justification.
pub open spec fn comb_vandermonde_applies(e: Expr) -> bool {
    (e is Mul) || (e is Add)
}

/// The results of `comb_vandermonde` on `e`, each with its justification.
pub open spec fn comb_vandermonde_results(e: Expr) -> Seq<(Expr, Seq<char>)> {
    one(e, "Vandermonde's identity: ΣC(m,k)C(n,r-k) = C(m+n,r)"@)
}

fn comb_vandermonde_applicable(e: &Expr) -> (r: bool)
    ensures
        r == comb_vandermonde_applies(*e),
{
    match e {
        Expr::Mul(_, _) | Expr::Add(_, _) => true,
        _ => false,
    }
}

fn comb_vandermonde_apply(e: &Expr) -> (v: Vec<RuleApplication>)
    ensures
        apps_view(v@) == comb_vandermonde_results(*e),
{
    single(copy_expr(e), "Vandermonde's identity: ΣC(m,k)C(n,r-k) = C(m+n,r)")
}

/// `permutation_formula`: Fires on `Div`, `Factorial`; returns the expression unchanged, with its justification.
pub open spec fn comb_counting_rules_permutation_formula_applies(e: Expr) -> bool {
    (e is Div) || (e is Factorial)
}

/// The results of `comb_counting_rules_permutation_formula` on `e`, each with its justification.
pub open spec fn comb_counting_rules_permutation_formula_results(e: Expr) -> Seq<(Expr, Seq<char>)> {
    one(e, "P(n,k) = n!/(n-k)!"@)
}

fn comb_counting_rules_permutation_formula_applicable(e: &Expr) -> (r: bool)
    ensures
        r == comb_counting_rules_permutation_formula_applies(*e),
{
    match e {
        Expr::Div(_, _) | Expr::Factorial(_) => true,
        _ => false,
    }
}

fn comb_counting_rules_permutation_formula_apply(e: &Expr) -> (v: Vec<RuleApplication>)
    ensures
        apps_view(v@) == comb_counting_rules_permutation_formula_results(*e),
{
    single(copy_expr(e), "P(n,k) = n!/(n-k)!")
}

/// `combination_formula`: Fires on `Div`, `Factorial`; returns the expression unchanged, with its justification.
pub open spec fn comb_combination_formula_applies(e: Expr) -> bool {
    (e is Div) || (e is Factorial)
}

/// The results of `comb_combination_formula` on `e`, each with its justification.
pub open spec fn comb_combination_formula_results(e: Expr) -> Seq<(Expr, Seq<char>)> {
    one(e, "C(n,k) = n!/(k!(n-k)!)"@)
}

fn comb_combination_formula_applicable(e: &Expr) -> (r: bool)
    ensures
        r == comb_combination_formula_applies(*e),
{
    match e {
        Expr::Div(_, _) | Expr::Factorial(_) => true,
        _ => false,
    }
}

fn comb_combination_formula_apply(e: &Expr) -> (v: Vec<RuleApplication>)
    ensures
        apps_view(v@) == comb_combination_formula_results(*e),
{
    single(copy_expr(e), "C(n,k) = n!/(k!(n-k)!)")
}

/// `pigeonhole_gen`: Fires on `Ceiling`, `Div`; returns the expression unchanged, with its justification.
pub open spec fn comb_pigeonhole_gen_applies(e: Expr) -> bool {
    (e is Ceiling) || (e is Div)
}

/// The results of `comb_pigeonhole_gen` on `e`, each with its justification.
pub open spec fn comb_pigeonhole_gen_results(e: Expr) -> Seq<(Expr, Seq<char>)> {
    one(e, "Generalized pigeonhole: n items in k boxes => some box has ≥ ⌈n/k⌉ items"@)
}

fn comb_pigeonhole_gen_applicable(e: &Expr) -> (r: bool)
    ensures
        r == comb_pigeonhole_gen_applies(*e),
{
    match e {
        Expr::Ceiling(_) | Expr::Div(_, _) => true,
        _ => false,
    }
}

fn comb_pigeonhole_gen_apply(e: &Expr) -> (v: Vec<RuleApplication>)
    ensures
        apps_view(v@) == comb_pigeonhole_gen_results(*e),
{
    single(copy_expr(e), "Generalized pigeonhole: n items in k boxes => some box has ≥ ⌈n/k⌉ items")
}

/// `inclusion_exclusion_2`: Fires on `Add`, `Sub`; returns the expression unchanged, with its justification.
pub open spec fn comb_counting_rules_inclusion_exclusion_2_applies(e: Expr) -> bool {
    (e is Add) || (e is Sub)
}

/// The results of `comb_counting_rules_inclusion_exclusion_2` on `e`, each with its justification.
pub open spec fn comb_counting_rules_inclusion_exclusion_2_results(e: Expr) -> Seq<(Expr, Seq<char>)> {
    one(e, "Inclusion-exclusion: |A ∪ B| = |A| + |B| - |A ∩ B|"@)
}

fn comb_counting_rules_inclusion_exclusion_2_applicable(e: &Expr) -> (r: bool)
    ensures
        r == comb_counting_rules_inclusion_exclusion_2_applies(*e),
{
    match e {
        Expr::Add(_, _) | Expr::Sub(_, _) => true,
        _ => false,
    }
}

fn comb_counting_rules_inclusion_exclusion_2_apply(e: &Expr) -> (v: Vec<RuleApplication>)
    ensures
        apps_view(v@) == comb_counting_rules_inclusion_exclusion_2_results(*e),
{
    single(copy_expr(e), "Inclusion-exclusion: |A ∪ B| = |A| + |B| - |A ∩ B|")
}

/// `inclusion_exclusion_3`: Fires on `Add`, `Sub`; returns the expression unchanged, with its justification.
pub open spec fn comb_counting_rules_inclusion_exclusion_3_applies(e: Expr) -> bool {
    (e is Add) || (e is Sub)
}

/// The results of `comb_counting_rules_inclusion_exclusion_3` on `e`, each with its justification.
pub open spec fn comb_counting_rules_inclusion_exclusion_3_results(e: Expr) -> Seq<(Expr, Seq<char>)> {
    one(e, "3-set inclusion-exclusion"@)
}

fn comb_counting_rules_inclusion_exclusion_3_applicable(e: &Expr) -> (r: bool)
    ensures
        r == comb_counting_rules_inclusion_exclusion_3_applies(*e),
{
    match e {
        Expr::Add(_, _) | Expr::Sub(_, _) => true,
        _ => false,
    }
}

fn comb_counting_rules_inclusion_exclusion_3_apply(e: &Expr) -> (v: Vec<RuleApplication>)
    ensures
        apps_view(v@) == comb_counting_rules_inclusion_exclusion_3_results(*e),
{
    single(copy_expr(e), "3-set inclusion-exclusion")
}

/// `derangement`: Fires on `Factorial`, `Mul`; returns the expression unchanged, with its justification.
pub open spec fn comb_derangement_applies(e: Expr) -> bool {
    (e is Factorial) || (e is Mul)
}

/// The results of `comb_derangement` on `e`, each with its justification.
pub open spec fn comb_derangement_results(e: Expr) -> Seq<(Expr, Seq<char>)> {
    one(e, "D(n) = n! Σ (-1)^k/k! - derangement formula"@)
}

fn comb_derangement_applicable(e: &Expr) -> (r: bool)
    ensures
        r == comb_derangement_applies(*e),
{
    match e {
        Expr::Factorial(_) | Expr::Mul(_, _) => true,
        _ => false,
    }
}

fn comb_derangement_apply(e: &Expr) -> (v: Vec<RuleApplication>)
    ensures
        apps_view(v@) == comb_derangement_results(*e),
{
    single(copy_expr(e), "D(n) = n! Σ (-1)^k/k! - derangement formula")
}

/// `catalan`: Fires on `Div`; returns the expression unchanged, with its justification.
pub open spec fn comb_catalan_applies(e: Expr) -> bool {
    (e is Div)
}

/// The results of `comb_catalan` on `e`, each with its justification.
pub open spec fn comb_catalan_results(e: Expr) -> Seq<(Expr, Seq<char>)> {
    one(e, "Catalan number: C_n = C(2n,n)/(n+1)"@)
}

fn comb_catalan_applicable(e: &Expr) -> (r: bool)
    ensures
        r == comb_catalan_applies(*e),
{
    match e {
        Expr::Div(_, _) => true,
        _ => false,
    }
}

fn comb_catalan_apply(e: &Expr) -> (v: Vec<RuleApplication>)
    ensures
        apps_view(v@) == comb_catalan_results(*e),
{
    single(copy_expr(e), "Catalan number: C_n = C(2n,n)/(n+1)")
}

/// `fibonacci_recurrence`: Fires on `Add`; returns the expression unchanged, with its justification.
pub open spec fn comb_fibonacci_recurrence_applies(e: Expr) -> bool {
    (e is Add)
}

/// The results of `comb_fibonacci_recurrence` on `e`, each with its justification.
pub open spec fn comb_fibonacci_recurrence_results(e: Expr) -> Seq<(Expr, Seq<char>)> {
    one(e, "Fibonacci recurrence: F(n) = F(n-1) + F(n-2)"@)
}

fn comb_fibonacci_recurrence_applicable(e: &Expr) -> (r: bool)
    ensures
        r == comb_fibonacci_recurrence_applies(*e),
{
    match e {
        Expr::Add(_, _) => true,
        _ => false,
    }
}

fn comb_fibonacci_recurrence_apply(e: &Expr) -> (v: Vec<RuleApplication>)
    ensures
        apps_view(v@) == comb_fibonacci_recurrence_results(*e),
{
    single(copy_expr(e), "Fibonacci recurrence: F(n) = F(n-1) + F(n-2)")
}

/// `binet_formula`: Fires on `Div`, `Pow`; returns the expression unchanged, with its justification.
pub open spec fn comb_binet_formula_applies(e: Expr) -> bool {
    (e is Div) || (e is Pow)
}

/// The results of `comb_binet_formula` on `e`, each with its justification.
pub open spec fn comb_binet_formula_results(e: Expr) -> Seq<(Expr, Seq<char>)> {
    one(e, "Binet's formula: F(n) = (φ^n - ψ^n)/√5 where φ = (1+√5)/2"@)
}

fn comb_binet_formula_applicable(e: &Expr) -> (r: bool)
    ensures
        r == comb_binet_formula_applies(*e),
{
    match e {
        Expr::Div(_, _) | Expr::Pow(_, _) => true,
        _ => false,
    }
}

fn comb_binet_formula_apply(e: &Expr) -> (v: Vec<RuleApplication>)
    ensures
        apps_view(v@) == comb_binet_formula_results(*e),
{
    single(copy_expr(e), "Binet's formula: F(n) = (φ^n - ψ^n)/√5 where φ = (1+√5)/2")
}

/// `linear_recurrence`: Fires on `Add`, `Mul`; returns the expression unchanged, with its justification.
pub open spec fn comb_linear_recurrence_applies(e: Expr) -> bool {
    (e is Add) || (e is Mul)
}

/// The results of `comb_linear_recurrence` on `e`, each with its justification.
pub open spec fn comb_linear_recurrence_results(e: Expr) -> Seq<(Expr, Seq<char>)> {
    one(e, "Solve linear recurrence via characteristic equation"@)
}

fn comb_linear_recurrence_applicable(e: &Expr) -> (r: bool)
    ensures
        r == comb_linear_recurrence_applies(*e),
{
    match e {
        Expr::Add(_, _) | Expr::Mul(_, _) => true,
        _ => false,
    }
}

fn comb_linear_recurrence_apply(e: &Expr) -> (v: Vec<RuleApplication>)
    ensures
        apps_view(v@) == comb_linear_recurrence_results(*e),
{
    single(copy_expr(e), "Solve linear recurrence via characteristic equation")
}

/// `derangement_formula`: Fires on `Factorial`, `Mul`; returns the expression unchanged, with its justification.
pub open spec fn comb_derangement_formula_applies(e: Expr) -> bool {
    (e is Factorial) || (e is Mul)
}

/// The results of `comb_derangement_formula` on `e`, each with its justification.
pub open spec fn comb_derangement_formula_results(e: Expr) -> Seq<(Expr, Seq<char>)> {
    one(e, "D(n) = n! * Σ(-1)^k/k! for k=0..n"@)
}

fn comb_derangement_formula_applicable(e: &Expr) -> (r: bool)
    ensures
        r == comb_derangement_formula_applies(*e),
{
    match e {
        Expr::Factorial(_) | Expr::Mul(_, _) => true,
        _ => false,
    }
}

fn comb_derangement_formula_apply(e: &Expr) -> (v: Vec<RuleApplication>)
    ensures
        apps_view(v@) == comb_derangement_formula_results(*e),
{
    single(copy_expr(e), "D(n) = n! * Σ(-1)^k/k! for k=0..n")
}

/// `derangement_recurrence`: Fires on `Mul`, `Add`; returns the expression unchanged, with its justification.
pub open spec fn comb_derangement_recurrence_applies(e: Expr) -> bool {
    (e is Mul) || (e is Add)
}

/// The results of `comb_derangement_recurrence` on `e`, each with its justification.
pub open spec fn comb_derangement_recurrence_results(e: Expr) -> Seq<(Expr, Seq<char>)> {
    one(e, "Derangement recurrence: D(n) = (n-1)(D(n-1) + D(n-2))"@)
}

fn comb_derangement_recurrence_applicable(e: &Expr) -> (r: bool)
    ensures
        r == comb_derangement_recurrence_applies(*e),
{
    match e {
        Expr::Mul(_, _) | Expr::Add(_, _) => true,
        _ => false,
    }
}

fn comb_derangement_recurrence_apply(e: &Expr) -> (v: Vec<RuleApplication>)
    ensures
        apps_view(v@) == comb_derangement_recurrence_results(*e),
{
    single(copy_expr(e), "Derangement recurrence: D(n) = (n-1)(D(n-1) + D(n-2))")
}

/// `catalan_formula`: Fires on `Div`; returns the expression unchanged, with its justification.
pub open spec fn comb_catalan_formula_applies(e: Expr) -> bool {
    (e is Div)
}

/// The results of `comb_catalan_formula` on `e`, each with its justification.
pub open spec fn comb_catalan_formula_results(e: Expr) -> Seq<(Expr, Seq<char>)> {
    one(e, "Catalan formula: C(n) = C(2n,n)/(n+1)"@)
}

fn comb_catalan_formula_applicable(e: &Expr) -> (r: bool)
    ensures
        r == comb_catalan_formula_applies(*e),
{
    match e {
        Expr::Div(_, _) => true,
        _ => false,
    }
}

fn comb_catalan_formula_apply(e: &Expr) -> (v: Vec<RuleApplication>)
    ensures
        apps_view(v@) == comb_catalan_formula_results(*e),
{
    single(copy_expr(e), "Catalan formula: C(n) = C(2n,n)/(n+1)")
}

/// `catalan_recurrence`: Fires on `Mul`, `Add`; returns the expression unchanged, with its justification.
pub open spec fn comb_catalan_recurrence_applies(e: Expr) -> bool {
    (e is Mul) || (e is Add)
}

/// The results of `comb_catalan_recurrence` on `e`, each with its justification.
pub open spec fn comb_catalan_recurrence_results(e: Expr) -> Seq<(Expr, Seq<char>)> {
    one(e, "Catalan recurrence: C(n+1) = Σ C(i)*C(n-i)"@)
}

fn comb_catalan_recurrence_applicable(e: &Expr) -> (r: bool)
    ensures
        r == comb_catalan_recurrence_applies(*e),
{
    match e {
        Expr::Mul(_, _) | Expr::Add(_, _) => true,
        _ => false,
    }
}

fn comb_catalan_recurrence_apply(e: &Expr) -> (v: Vec<RuleApplication>)
    ensures
        apps_view(v@) == comb_catalan_recurrence_results(*e),
{
    single(copy_expr(e), "Catalan recurrence: C(n+1) = Σ C(i)*C(n-i)")
}

/// `stirling_first_recurrence`: Fires on `Sub`, `Mul`; returns the expression unchanged, with its justification.
pub open spec fn comb_stirling_first_recurrence_applies(e: Expr) -> bool {
    (e is Sub) || (e is Mul)
}

/// The results of `comb_stirling_first_recurrence` on `e`, each with its justification.
pub open spec fn comb_stirling_first_recurrence_results(e: Expr) -> Seq<(Expr, Seq<char>)> {
    one(e, "Stirling 1st kind recurrence: s(n,k) = s(n-1,k-1) - (n-1)*s(n-1,k)"@)
}

fn comb_stirling_first_recurrence_applicable(e: &Expr) -> (r: bool)
    ensures
        r == comb_stirling_first_recurrence_applies(*e),
{
    match e {
        Expr::Sub(_, _) | Expr::Mul(_, _) => true,
        _ => false,
    }
}

fn comb_stirling_first_recurrence_apply(e: &Expr) -> (v: Vec<RuleApplication>)
    ensures
        apps_view(v@) == comb_stirling_first_recurrence_results(*e),
{
    single(copy_expr(e), "Stirling 1st kind recurrence: s(n,k) = s(n-1,k-1) - (n-1)*s(n-1,k)")
}

/// `stirling_second_recurrence`: Fires on `Add`, `Mul`; returns the expression unchanged, with its justification.
pub open spec fn comb_stirling_second_recurrence_applies(e: Expr) -> bool {
    (e is Add) || (e is Mul)
}

/// The results of `comb_stirling_second_recurrence` on `e`, each with its justification.
pub open spec fn comb_stirling_second_recurrence_results(e: Expr) -> Seq<(Expr, Seq<char>)> {
    one(e, "Stirling 2nd kind: S(n,k) = k*S(n-1,k) + S(n-1,k-1)"@)
}

fn comb_stirling_second_recurrence_applicable(e: &Expr) -> (r: bool)
    ensures
        r == comb_stirling_second_recurrence_applies(*e),
{
    match e {
        Expr::Add(_, _) | Expr::Mul(_, _) => true,
        _ => false,
    }
}

fn comb_stirling_second_recurrence_apply(e: &Expr) -> (v: Vec<RuleApplication>)
    ensures
        apps_view(v@) == comb_stirling_second_recurrence_results(*e),
{
    single(copy_expr(e), "Stirling 2nd kind: S(n,k) = k*S(n-1,k) + S(n-1,k-1)")
}

/// `partition_recurrence`: Fires on `Add`, `Mul`; returns the expression unchanged, with its justification.
pub open spec fn comb_partition_recurrence_applies(e: Expr) -> bool {
    (e is Add) || (e is Mul)
}

/// The results of `comb_partition_recurrence` on `e`, each with its justification.
pub open spec fn comb_partition_recurrence_results(e: Expr) -> Seq<(Expr, Seq<char>)> {
    one(e, "Partition pentagonal recurrence: p(n) = Σ (-1)^{k+1} * p(n - k(3k-1)/2)"@)
}

fn comb_partition_recurrence_applicable(e: &Expr) -> (r: bool)
    ensures
        r == comb_partition_recurrence_applies(*e),
{
    match e {
        Expr::Add(_, _) | Expr::Mul(_, _) => true,
        _ => false,
    }
}

fn comb_partition_recurrence_apply(e: &Expr) -> (v: Vec<RuleApplication>)
    ensures
        apps_view(v@) == comb_partition_recurrence_results(*e),
{
    single(copy_expr(e), "Partition pentagonal recurrence: p(n) = Σ (-1)^{k+1} * p(n - k(3k-1)/2)")
}

/// `hockey_stick_identity`: Fires on `Add`; returns the expression unchanged, with its justification.
pub open spec fn comb_hockey_stick_identity_applies(e: Expr) -> bool {
    (e is Add)
}

/// The results of `comb_hockey_stick_identity` on `e`, each with its justification.
pub open spec fn comb_hockey_stick_identity_results(e: Expr) -> Seq<(Expr, Seq<char>)> {
    one(e, "Hockey stick identity: Σ C(i,k) = C(n+1,k+1)"@)
}

fn comb_hockey_stick_identity_applicable(e: &Expr) -> (r: bool)
    ensures
        r == comb_hockey_stick_identity_applies(*e),
{
    match e {
        Expr::Add(_, _) => true,
        _ => false,
    }
}

fn comb_hockey_stick_identity_apply(e: &Expr) -> (v: Vec<RuleApplication>)
    ensures
        apps_view(v@) == comb_hockey_stick_identity_results(*e),
{
    single(copy_expr(e), "Hockey stick identity: Σ C(i,k) = C(n+1,k+1)")
}

/// `vandermonde_identity`: Fires on `Mul`, `Add`; returns the expression unchanged, with its justification.
pub open spec fn comb_vandermonde_identity_applies(e: Expr) -> bool {
    (e is Mul) || (e is Add)
}

/// The results of `comb_vandermonde_identity` on `e`, each with its justification.
pub open spec fn comb_vandermonde_identity_results(e: Expr) -> Seq<(Expr, Seq<char>)> {
    one(e, "Vandermonde identity: Σ C(m,k)*C(n,r-k) = C(m+n,r)"@)
}

fn comb_vandermonde_identity_applicable(e: &Expr) -> (r: bool)
    ensures
        r == comb_vandermonde_identity_applies(*e),
{
    match e {
        Expr::Mul(_, _) | Expr::Add(_, _) => true,
        _ => false,
    }
}

fn comb_vandermonde_identity_apply(e: &Expr) -> (v: Vec<RuleApplication>)
    ensures
        apps_view(v@) == comb_vandermonde_identity_results(*e),
{
    single(copy_expr(e), "Vandermonde identity: Σ C(m,k)*C(n,r-k) = C(m+n,r)")
}

/// `chu_vandermonde`: Fires on `Mul`, `Pow`; returns the expression unchanged, with its justification.
pub open spec fn comb_chu_vandermonde_applies(e: Expr) -> bool {
    (e is Mul) || (e is Pow)
}

/// The results of `comb_chu_vandermonde` on `e`, each with its justification.
pub open spec fn comb_chu_vandermonde_results(e: Expr) -> Seq<(Expr, Seq<char>)> {
    one(e, "Chu-Vandermonde: Σ C(a,k)*C(b,n-k)*(-1)^(n-k) = C(a-b,n)"@)
}

fn comb_chu_vandermonde_applicable(e: &Expr) -> (r: bool)
    ensures
        r == comb_chu_vandermonde_applies(*e),
{
    match e {
        Expr::Mul(_, _) | Expr::Pow(_, _) => true,
        _ => false,
    }
}

fn comb_chu_vandermonde_apply(e: &Expr) -> (v: Vec<RuleApplication>)
    ensures
        apps_view(v@) == comb_chu_vandermonde_results(*e),
{
    single(copy_expr(e), "Chu-Vandermonde: Σ C(a,k)*C(b,n-k)*(-1)^(n-k) = C(a-b,n)")
}

/// `multinomial_theorem`: Fires on `Pow`; returns the expression unchanged, with its justification.
pub open spec fn comb_multinomial_theorem_applies(e: Expr) -> bool {
    (e is Pow)
}

/// The results of `comb_multinomial_theorem` on `e`, each with its justification.
pub open spec fn comb_multinomial_theorem_results(e: Expr) -> Seq<(Expr, Seq<char>)> {
    one(e, "Multinomial theorem: (x1+...+xk)^n = Σ n!/(n1!*...*nk!) * x1^n1 * ... * xk^nk"@)
}

fn comb_multinomial_theorem_applicable(e: &Expr) -> (r: bool)
    ensures
        r == comb_multinomial_theorem_applies(*e),
{
    match e {
        Expr::Pow(_, _) => true,
        _ => false,
    }
}

fn comb_multinomial_theorem_apply(e: &Expr) -> (v: Vec<RuleApplication>)
    ensures
        apps_view(v@) == comb_multinomial_theorem_results(*e),
{
    single(copy_expr(e), "Multinomial theorem: (x1+...+xk)^n = Σ n!/(n1!*...*nk!) * x1^n1 * ... * xk^nk")
}

/// `stars_and_bars`: Fires on `Div`, `Add`; returns the expression unchanged, with its justification.
pub open spec fn comb_stars_and_bars_applies(e: Expr) -> bool {
    (e is Div) || (e is Add)
}

/// The results of `comb_stars_and_bars` on `e`, each with its justification.
pub open spec fn comb_stars_and_bars_results(e: Expr) -> Seq<(Expr, Seq<char>)> {
    one(e, "Stars and bars: C(n+k-1,k) ways to distribute k items into n bins"@)
}

fn comb_stars_and_bars_applicable(e: &Expr) -> (r: bool)
    ensures
        r == comb_stars_and_bars_applies(*e),
{
    match e {
        Expr::Div(_, _) | Expr::Add(_, _) => true,
        _ => false,
    }
}

fn comb_stars_and_bars_apply(e: &Expr) -> (v: Vec<RuleApplication>)
    ensures
        apps_view(v@) == comb_stars_and_bars_results(*e),
{
    single(copy_expr(e), "Stars and bars: C(n+k-1,k) ways to distribute k items into n bins")
}

/// `inclusion_exclusion_2`: Fires on `Add`, `Sub`; returns the expression unchanged, with its justification.
pub open spec fn comb_inclusion_exclusion_2_inclusion_exclusion_2_applies(e: Expr) -> bool {
    (e is Add) || (e is Sub)
}

/// The results of `comb_inclusion_exclusion_2_inclusion_exclusion_2` on `e`, each with its justification.
pub open spec fn comb_inclusion_exclusion_2_inclusion_exclusion_2_results(e: Expr) -> Seq<(Expr, Seq<char>)> {
    one(e, "Inclusion-exclusion principle: |A∪B| = |A| + |B| - |A∩B|"@)
}

fn comb_inclusion_exclusion_2_inclusion_exclusion_2_applicable(e: &Expr) -> (r: bool)
    ensures
        r == comb_inclusion_exclusion_2_inclusion_exclusion_2_applies(*e),
{
    match e {
        Expr::Add(_, _) | Expr::Sub(_, _) => true,
        _ => false,
    }
}

fn comb_inclusion_exclusion_2_inclusion_exclusion_2_apply(e: &Expr) -> (v: Vec<RuleApplication>)
    ensures
        apps_view(v@) == comb_inclusion_exclusion_2_inclusion_exclusion_2_results(*e),
{
    single(copy_expr(e), "Inclusion-exclusion principle: |A∪B| = |A| + |B| - |A∩B|")
}

/// `inclusion_exclusion_3`: Fires on `Add`, `Sub`; returns the expression unchanged, with its justification.
pub open spec fn comb_inclusion_exclusion_3_inclusion_exclusion_3_applies(e: Expr) -> bool {
    (e is Add) || (e is Sub)
}

/// The results of `comb_inclusion_exclusion_3_inclusion_exclusion_3` on `e`, each with its justification.
pub open spec fn comb_inclusion_exclusion_3_inclusion_exclusion_3_results(e: Expr) -> Seq<(Expr, Seq<char>)> {
    one(e, "3-set inclusion-exclusion: |A∪B∪C| = |A|+|B|+|C| - |A∩B| - |A∩C| - |B∩C| + |A∩B∩C|"@)
}

fn comb_inclusion_exclusion_3_inclusion_exclusion_3_applicable(e: &Expr) -> (r: bool)
    ensures
        r == comb_inclusion_exclusion_3_inclusion_exclusion_3_applies(*e),
{
    match e {
        Expr::Add(_, _) | Expr::Sub(_, _) => true,
        _ => false,
    }
}

fn comb_inclusion_exclusion_3_inclusion_exclusion_3_apply(e: &Expr) -> (v: Vec<RuleApplication>)
    ensures
        apps_view(v@) == comb_inclusion_exclusion_3_inclusion_exclusion_3_results(*e),
{
    single(copy_expr(e), "3-set inclusion-exclusion: |A∪B∪C| = |A|+|B|+|C| - |A∩B| - |A∩C| - |B∩C| + |A∩B∩C|")
}

/// `double_counting`: Fires on `Equation`; returns the expression unchanged, with its justification.
pub open spec fn comb_double_counting_applies(e: Expr) -> bool {
    (e is Equation)
}

/// The results of `comb_double_counting` on `e`, each with its justification.
pub open spec fn comb_double_counting_results(e: Expr) -> Seq<(Expr, Seq<char>)> {
    one(e, "Double counting: Count the same set in two different ways"@)
}

fn comb_double_counting_applicable(e: &Expr) -> (r: bool)
    ensures
        r == comb_double_counting_applies(*e),
{
    match e {
        Expr::Equation { .. } => true,
        _ => false,
    }
}

fn comb_double_counting_apply(e: &Expr) -> (v: Vec<RuleApplication>)
    ensures
        apps_view(v@) == comb_double_counting_results(*e),
{
    single(copy_expr(e), "Double counting: Count the same set in two different ways")
}

/// `ordinary_gf`: Fires on `Pow`, `Mul`; returns the expression unchanged, with its justification.
pub open spec fn comb_ordinary_gf_applies(e: Expr) -> bool {
    (e is Pow) || (e is Mul)
}

/// The results of `comb_ordinary_gf` on `e`, each with its justification.
pub open spec fn comb_ordinary_gf_results(e: Expr) -> Seq<(Expr, Seq<char>)> {
    one(e, "OGF: Σ a_n * x^n"@)
}

fn comb_ordinary_gf_applicable(e: &Expr) -> (r: bool)
    ensures
        r == comb_ordinary_gf_applies(*e),
{
    match e {
        Expr::Pow(_, _) | Expr::Mul(_, _) => true,
        _ => false,
    }
}

fn comb_ordinary_gf_apply(e: &Expr) -> (v: Vec<RuleApplication>)
    ensures
        apps_view(v@) == comb_ordinary_gf_results(*e),
{
    single(copy_expr(e), "OGF: Σ a_n * x^n")
}

/// `exponential_gf`: Fires on `Div`, `Factorial`; returns the expression unchanged, with its justification.
pub open spec fn comb_exponential_gf_applies(e: Expr) -> bool {
    (e is Div) || (e is Factorial)
}

/// The results of `comb_exponential_gf` on `e`, each with its justification.
pub open spec fn comb_exponential_gf_results(e: Expr) -> Seq<(Expr, Seq<char>)> {
    one(e, "EGF: Σ a_n * x^n / n!"@)
}

fn comb_exponential_gf_applicable(e: &Expr) -> (r: bool)
    ensures
        r == comb_exponential_gf_applies(*e),
{
    match e {
        Expr::Div(_, _) | Expr::Factorial(_) => true,
        _ => false,
    }
}

fn comb_exponential_gf_apply(e: &Expr) -> (v: Vec<RuleApplication>)
    ensures
        apps_view(v@) == comb_exponential_gf_results(*e),
{
    single(copy_expr(e), "EGF: Σ a_n * x^n / n!")
}

/// `permutation_formula`: Fires on `Div`, `Factorial`; returns the expression unchanged, with its justification.
pub open spec fn comb_permutation_formula_permutation_formula_applies(e: Expr) -> bool {
    (e is Div) || (e is Factorial)
}

/// The results of `comb_permutation_formula_permutation_formula` on `e`, each with its justification.
pub open spec fn comb_permutation_formula_permutation_formula_results(e: Expr) -> Seq<(Expr, Seq<char>)> {
    one(e, "Permutation formula: P(n,k) = n!/(n-k)!"@)
}

fn comb_permutation_formula_permutation_formula_applicable(e: &Expr) -> (r: bool)
    ensures
        r == comb_permutation_formula_permutation_formula_applies(*e),
{
    match e {
        Expr::Div(_, _) | Expr::Factorial(_) => true,
        _ => false,
    }
}

fn comb_permutation_formula_permutation_formula_apply(e: &Expr) -> (v: Vec<RuleApplication>)
    ensures
        apps_view(v@) == comb_permutation_formula_permutation_formula_results(*e),
{
    single(copy_expr(e), "Permutation formula: P(n,k) = n!/(n-k)!")
}

/// `circular_permutation`: Fires on `Factorial`; returns the expression unchanged, with its justification.
pub open spec fn comb_circular_permutation_applies(e: Expr) -> bool {
    (e is Factorial)
}

/// The results of `comb_circular_permutation` on `e`, each with its justification.
pub open spec fn comb_circular_permutation_results(e: Expr) -> Seq<(Expr, Seq<char>)> {
    one(e, "Circular permutations: (n-1)!"@)
}

fn comb_circular_permutation_applicable(e: &Expr) -> (r: bool)
    ensures
        r == comb_circular_permutation_applies(*e),
{
    match e {
        Expr::Factorial(_) => true,
        _ => false,
    }
}

fn comb_circular_permutation_apply(e: &Expr) -> (v: Vec<RuleApplication>)
    ensures
        apps_view(v@) == comb_circular_permutation_results(*e),
{
    single(copy_expr(e), "Circular permutations: (n-1)!")
}

/// `derangement_asymptotic`: Fires on `Div`, `Factorial`; returns the expression unchanged, with its justification.
pub open spec fn comb_derangement_asymptotic_applies(e: Expr) -> bool {
    (e is Div) || (e is Factorial)
}

/// The results of `comb_derangement_asymptotic` on `e`, each with its justification.
pub open spec fn comb_derangement_asymptotic_results(e: Expr) -> Seq<(Expr, Seq<char>)> {
    one(e, "Derangement asymptotic: D(n) ~ n!/e as n -> ∞"@)
}

fn comb_derangement_asymptotic_applicable(e: &Expr) -> (r: bool)
    ensures
        r == comb_derangement_asymptotic_applies(*e),
{
    match e {
        Expr::Div(_, _) | Expr::Factorial(_) => true,
        _ => false,
    }
}

fn comb_derangement_asymptotic_apply(e: &Expr) -> (v: Vec<RuleApplication>)
    ensures
        apps_view(v@) == comb_derangement_asymptotic_results(*e),
{
    single(copy_expr(e), "Derangement asymptotic: D(n) ~ n!/e as n -> ∞")
}

/// `fibonacci_addition`: Fires on `Add`, `Mul`; returns the expression unchanged, with its justification.
pub open spec fn comb_fibonacci_addition_applies(e: Expr) -> bool {
    (e is Add) || (e is Mul)
}

/// The results of `comb_fibonacci_addition` on `e`, each with its justification.
pub open spec fn comb_fibonacci_addition_results(e: Expr) -> Seq<(Expr, Seq<char>)> {
    one(e, "Fibonacci addition: F(m+n) = F(m)*F(n+1) + F(m-1)*F(n)"@)
}

fn comb_fibonacci_addition_applicable(e: &Expr) -> (r: bool)
    ensures
        r == comb_fibonacci_addition_applies(*e),
{
    match e {
        Expr::Add(_, _) | Expr::Mul(_, _) => true,
        _ => false,
    }
}

fn comb_fibonacci_addition_apply(e: &Expr) -> (v: Vec<RuleApplication>)
    ensures
        apps_view(v@) == comb_fibonacci_addition_results(*e),
{
    single(copy_expr(e), "Fibonacci addition: F(m+n) = F(m)*F(n+1) + F(m-1)*F(n)")
}

/// `fibonacci_gcd`: Fires on `GCD`; returns the expression unchanged, with its justification.
pub open spec fn comb_fibonacci_gcd_applies(e: Expr) -> bool {
    (e is GCD)
}

/// The results of `comb_fibonacci_gcd` on `e`, each with its justification.
pub open spec fn comb_fibonacci_gcd_results(e: Expr) -> Seq<(Expr, Seq<char>)> {
    one(e, "Fibonacci GCD: gcd(F(m), F(n)) = F(gcd(m,n))"@)
}

fn comb_fibonacci_gcd_applicable(e: &Expr) -> (r: bool)
    ensures
        r == comb_fibonacci_gcd_applies(*e),
{
    match e {
        Expr::GCD(_, _) => true,
        _ => false,
    }
}

fn comb_fibonacci_gcd_apply(e: &Expr) -> (v: Vec<RuleApplication>)
    ensures
        apps_view(v@) == comb_fibonacci_gcd_results(*e),
{
    single(copy_expr(e), "Fibonacci GCD: gcd(F(m), F(n)) = F(gcd(m,n))")
}

/// `lucas_numbers`: Fires on `Add`; returns the expression unchanged, with its justification.
pub open spec fn comb_lucas_numbers_applies(e: Expr) -> bool {
    (e is Add)
}

/// The results of `comb_lucas_numbers` on `e`, each with its justification.
pub open spec fn comb_lucas_numbers_results(e: Expr) -> Seq<(Expr, Seq<char>)> {
    one(e, "Lucas numbers: L(n) = F(n-1) + F(n+1)"@)
}

fn comb_lucas_numbers_applicable(e: &Expr) -> (r: bool)
    ensures
        r == comb_lucas_numbers_applies(*e),
{
    match e {
        Expr::Add(_, _) => true,
        _ => false,
    }
}

fn comb_lucas_numbers_apply(e: &Expr) -> (v: Vec<RuleApplication>)
    ensures
        apps_view(v@) == comb_lucas_numbers_results(*e),
{
    single(copy_expr(e), "Lucas numbers: L(n) = F(n-1) + F(n+1)")
}

/// `bell_number_recurrence`: Fires on `Add`, `Mul`; returns the expression unchanged, with its justification.
pub open spec fn comb_bell_number_recurrence_applies(e: Expr) -> bool {
    (e is Add) || (e is Mul)
}

/// The results of `comb_bell_number_recurrence` on `e`, each with its justification.
pub open spec fn comb_bell_number_recurrence_results(e: Expr) -> Seq<(Expr, Seq<char>)> {
    one(e, "Bell number recurrence: B(n+1) = Σ C(n,k)*B(k) for k=0..n"@)
}

fn comb_bell_number_recurrence_applicable(e: &Expr) -> (r: bool)
    ensures
        r == comb_bell_number_recurrence_applies(*e),
{
    match e {
        Expr::Add(_, _) | Expr::Mul(_, _) => true,
        _ => false,
    }
}

fn comb_bell_number_recurrence_apply(e: &Expr) -> (v: Vec<RuleApplication>)
    ensures
        apps_view(v@) == comb_bell_number_recurrence_results(*e),
{
    single(copy_expr(e), "Bell number recurrence: B(n+1) = Σ C(n,k)*B(k) for k=0..n")
}

/// `subfactorial`: Fires on `Factorial`, `Div`; returns the expression unchanged, with its justification.
pub open spec fn comb_subfactorial_applies(e: Expr) -> bool {
    (e is Factorial) || (e is Div)
}

/// The results of `comb_subfactorial` on `e`, each with its justification.
pub open spec fn comb_subfactorial_results(e: Expr) -> Seq<(Expr, Seq<char>)> {
    one(e, "Subfactorial: !n = D(n) = ⌊n!/e + 1/2⌋"@)
}

fn comb_subfactorial_applicable(e: &Expr) -> (r: bool)
    ensures
        r == comb_subfactorial_applies(*e),
{
    match e {
        Expr::Factorial(_) | Expr::Div(_, _) => true,
        _ => false,
    }
}

fn comb_subfactorial_apply(e: &Expr) -> (v: Vec<RuleApplication>)
    ensures
        apps_view(v@) == comb_subfactorial_results(*e),
{
    single(copy_expr(e), "Subfactorial: !n = D(n) = ⌊n!/e + 1/2⌋")
}

/// `christmas_stocking`: Fires on `Mul`; returns the expression unchanged, with its justification.
pub open spec fn comb_christmas_stocking_applies(e: Expr) -> bool {
    (e is Mul)
}

/// The results of `comb_christmas_stocking` on `e`, each with its justification.
pub open spec fn comb_christmas_stocking_results(e: Expr) -> Seq<(Expr, Seq<char>)> {
    one(e, "Christmas stocking: C(n,m)*C(m,k) = C(n,k)*C(n-k,m-k)"@)
}

fn comb_christmas_stocking_applicable(e: &Expr) -> (r: bool)
    ensures
        r == comb_christmas_stocking_applies(*e),
{
    match e {
        Expr::Mul(_, _) => true,
        _ => false,
    }
}

fn comb_christmas_stocking_apply(e: &Expr) -> (v: Vec<RuleApplication>)
    ensures
        apps_view(v@) == comb_christmas_stocking_results(*e),
{
    single(copy_expr(e), "Christmas stocking: C(n,m)*C(m,k) = C(n,k)*C(n-k,m-k)")
}

/// `rising_factorial`: Fires on `Mul`; returns the expression unchanged, with its justification.
pub open spec fn comb_rising_factorial_applies(e: Expr) -> bool {
    (e is Mul)
}

/// The results of `comb_rising_factorial` on `e`, each with its justification.
pub open spec fn comb_rising_factorial_results(e: Expr) -> Seq<(Expr, Seq<char>)> {
    one(e, "Rising factorial: (x)_n = x(x+1)(x+2)...(x+n-1)"@)
}

fn comb_rising_factorial_applicable(e: &Expr) -> (r: bool)
    ensures
        r == comb_rising_factorial_applies(*e),
{
    match e {
        Expr::Mul(_, _) => true,
        _ => false,
    }
}

fn comb_rising_factorial_apply(e: &Expr) -> (v: Vec<RuleApplication>)
    ensures
        apps_view(v@) == comb_rising_factorial_results(*e),
{
    single(copy_expr(e), "Rising factorial: (x)_n = x(x+1)(x+2)...(x+n-1)")
}

/// `falling_factorial`: Fires on `Mul`; returns the expression unchanged, with its justification.
pub open spec fn comb_falling_factorial_applies(e: Expr) -> bool {
    (e is Mul)
}

/// The results of `comb_falling_factorial` on `e`, each with its justification.
pub open spec fn comb_falling_factorial_results(e: Expr) -> Seq<(Expr, Seq<char>)> {
    one(e, "Falling factorial: x^(n) = x(x-1)(x-2)...(x-n+1)"@)
}

fn comb_falling_factorial_applicable(e: &Expr) -> (r: bool)
    ensures
        r == comb_falling_factorial_applies(*e),
{
    match e {
        Expr::Mul(_, _) => true,
        _ => false,
    }
}

fn comb_falling_factorial_apply(e: &Expr) -> (v: Vec<RuleApplication>)
    ensures
        apps_view(v@) == comb_falling_factorial_results(*e),
{
    single(copy_expr(e), "Falling factorial: x^(n) = x(x-1)(x-2)...(x-n+1)")
}

/// `legendre_formula`: Fires on `Floor`, `Div`; returns the expression unchanged, with its justification.
pub open spec fn comb_legendre_formula_applies(e: Expr) -> bool {
    (e is Floor) || (e is Div)
}

/// The results of `comb_legendre_formula` on `e`, each with its justification.
pub open spec fn comb_legendre_formula_results(e: Expr) -> Seq<(Expr, Seq<char>)> {
    one(e, "Legendre's formula: highest power of p dividing n! is Σ ⌊n/p^k⌋"@)
}

fn comb_legendre_formula_applicable(e: &Expr) -> (r: bool)
    ensures
        r == comb_legendre_formula_applies(*e),
{
    match e {
        Expr::Floor(_) | Expr::Div(_, _) => true,
        _ => false,
    }
}

fn comb_legendre_formula_apply(e: &Expr) -> (v: Vec<RuleApplication>)
    ensures
        apps_view(v@) == comb_legendre_formula_results(*e),
{
    single(copy_expr(e), "Legendre's formula: highest power of p dividing n! is Σ ⌊n/p^k⌋")
}

/// `kummer_theorem`: Fires on `Div`, `Mod`; returns the expression unchanged, with its justification.
pub open spec fn comb_kummer_theorem_applies(e: Expr) -> bool {
    (e is Div) || (e is Mod)
}

/// The results of `comb_kummer_theorem` on `e`, each with its justification.
pub open spec fn comb_kummer_theorem_results(e: Expr) -> Seq<(Expr, Seq<char>)> {
    one(e, "Kummer: vp(C(m+n,m)) equals number of carries when adding m and n in base p"@)
}

fn comb_kummer_theorem_applicable(e: &Expr) -> (r: bool)
    ensures
        r == comb_kummer_theorem_applies(*e),
{
    match e {
        Expr::Div(_, _) | Expr::Mod(_, _) => true,
        _ => false,
    }
}

fn comb_kummer_theorem_apply(e: &Expr) -> (v: Vec<RuleApplication>)
    ensures
        apps_view(v@) == comb_kummer_theorem_results(*e),
{
    single(copy_expr(e), "Kummer: vp(C(m+n,m)) equals number of carries when adding m and n in base p")
}

/// `burnside_lemma`: Fires on `Div`, `Mul`; returns the expression unchanged, with its justification.
pub open spec fn comb_burnside_lemma_applies(e: Expr) -> bool {
    (e is Div) || (e is Mul)
}

/// The results of `comb_burnside_lemma` on `e`, each with its justification.
pub open spec fn comb_burnside_lemma_results(e: Expr) -> Seq<(Expr, Seq<char>)> {
    one(e, "Burnside's lemma: |X/G| = (1/|G|) Σ |X^g| for g in G"@)
}

fn comb_burnside_lemma_applicable(e: &Expr) -> (r: bool)
    ensures
        r == comb_burnside_lemma_applies(*e),
{
    match e {
        Expr::Div(_, _) | Expr::Mul(_, _) => true,
        _ => false,
    }
}

fn comb_burnside_lemma_apply(e: &Expr) -> (v: Vec<RuleApplication>)
    ensures
        apps_view(v@) == comb_burnside_lemma_results(*e),
{
    single(copy_expr(e), "Burnside's lemma: |X/G| = (1/|G|) Σ |X^g| for g in G")
}

/// `polya_enumeration`: Fires on `Div`, `Mul`; returns the expression unchanged, with its justification.
pub open spec fn comb_polya_enumeration_applies(e: Expr) -> bool {
    (e is Div) || (e is Mul)
}

/// The results of `comb_polya_enumeration` on `e`, each with its justification.
pub open spec fn comb_polya_enumeration_results(e: Expr) -> Seq<(Expr, Seq<char>)> {
    one(e, "Polya enumeration: count inequivalent configurations under group action"@)
}

fn comb_polya_enumeration_applicable(e: &Expr) -> (r: bool)
    ensures
        r == comb_polya_enumeration_applies(*e),
{
    match e {
        Expr::Div(_, _) | Expr::Mul(_, _) => true,
        _ => false,
    }
}

fn comb_polya_enumeration_apply(e: &Expr) -> (v: Vec<RuleApplication>)
    ensures
        apps_view(v@) == comb_polya_enumeration_results(*e),
{
    single(copy_expr(e), "Polya enumeration: count inequivalent configurations under group action")
}

/// `partition_into_parts`: Fires on `Add`; returns the expression unchanged, with its justification.
pub open spec fn comb_partition_into_parts_applies(e: Expr) -> bool {
    (e is Add)
}

/// The results of `comb_partition_into_parts` on `e`, each with its justification.
pub open spec fn comb_partition_into_parts_results(e: Expr) -> Seq<(Expr, Seq<char>)> {
    one(e, "Partition recurrence: p(n,k) = p(n-1,k-1) + p(n-k,k)"@)
}

fn comb_partition_into_parts_applicable(e: &Expr) -> (r: bool)
    ensures
        r == comb_partition_into_parts_applies(*e),
{
    match e {
        Expr::Add(_, _) => true,
        _ => false,
    }
}

fn comb_partition_into_parts_apply(e: &Expr) -> (v: Vec<RuleApplication>)
    ensures
        apps_view(v@) == comb_partition_into_parts_results(*e),
{
    single(copy_expr(e), "Partition recurrence: p(n,k) = p(n-1,k-1) + p(n-k,k)")
}

/// `pattern_avoidance`: Fires on `Factorial`, `Div`; returns the expression unchanged, with its justification.
pub open spec fn comb_pattern_avoidance_applies(e: Expr) -> bool {
    (e is Factorial) || (e is Div)
}

/// The results of `comb_pattern_avoidance` on `e`, each with its justification.
pub open spec fn comb_pattern_avoidance_results(e: Expr) -> Seq<(Expr, Seq<char>)> {
    one(e, "Pattern-avoiding permutations counted by Catalan or similar sequences"@)
}

fn comb_pattern_avoidance_applicable(e: &Expr) -> (r: bool)
    ensures
        r == comb_pattern_avoidance_applies(*e),
{
    match e {
        Expr::Factorial(_) | Expr::Div(_, _) => true,
        _ => false,
    }
}

fn comb_pattern_avoidance_apply(e: &Expr) -> (v: Vec<RuleApplication>)
    ensures
        apps_view(v@) == comb_pattern_avoidance_results(*e),
{
    single(copy_expr(e), "Pattern-avoiding permutations counted by Catalan or similar sequences")
}

/// `derangement_simple_recurrence`: Fires on `Add`, `Mul`; returns the expression unchanged, with its justification.
pub open spec fn comb_derangement_simple_recurrence_applies(e: Expr) -> bool {
    (e is Add) || (e is Mul)
}

/// The results of `comb_derangement_simple_recurrence` on `e`, each with its justification.
pub open spec fn comb_derangement_simple_recurrence_results(e: Expr) -> Seq<(Expr, Seq<char>)> {
    one(e, "Derangement simple recurrence: D(n) = n*D(n-1) + (-1)^n"@)
}

fn comb_derangement_simple_recurrence_applicable(e: &Expr) -> (r: bool)
    ensures
        r == comb_derangement_simple_recurrence_applies(*e),
{
    match e {
        Expr::Add(_, _) | Expr::Mul(_, _) => true,
        _ => false,
    }
}

fn comb_derangement_simple_recurrence_apply(e: &Expr) -> (v: Vec<RuleApplication>)
    ensures
        apps_view(v@) == comb_derangement_simple_recurrence_results(*e),
{
    single(copy_expr(e), "Derangement simple recurrence: D(n) = n*D(n-1) + (-1)^n")
}

/// `positive_square_root`: Fires on `Sqrt`; produces nothing.
pub open spec fn ineq_positive_square_root_applies(e: Expr) -> bool {
    (e is Sqrt)
}

/// The results of `ineq_positive_square_root` on `e`, each with its justification.
pub open spec fn ineq_positive_square_root_results(e: Expr) -> Seq<(Expr, Seq<char>)> {
    none()
}

fn ineq_positive_square_root_applicable(e: &Expr) -> (r: bool)
    ensures
        r == ineq_positive_square_root_applies(*e),
{
    match e {
        Expr::Sqrt(_) => true,
        _ => false,
    }
}

fn ineq_positive_square_root_apply(e: &Expr) -> (v: Vec<RuleApplication>)
    ensures
        apps_view(v@) == ineq_positive_square_root_results(*e),
{
    nothing()
}

/// `exp_positivity`: Fires on `Exp`; produces nothing.
pub open spec fn ineq_exp_positivity_applies(e: Expr) -> bool {
    (e is Exp)
}

/// The results of `ineq_exp_positivity` on `e`, each with its justification.
pub open spec fn ineq_exp_positivity_results(e: Expr) -> Seq<(Expr, Seq<char>)> {
    none()
}

fn ineq_exp_positivity_applicable(e: &Expr) -> (r: bool)
    ensures
        r == ineq_exp_positivity_applies(*e),
{
    match e {
        Expr::Exp(_) => true,
        _ => false,
    }
}

fn ineq_exp_positivity_apply(e: &Expr) -> (v: Vec<RuleApplication>)
    ensures
        apps_view(v@) == ineq_exp_positivity_results(*e),
{
    nothing()
}

/// `chebyshev_prime_bounds`: Fires on `Div`, `Ln`; returns the expression unchanged, with its justification.
pub open spec fn nt_chebyshev_prime_bounds_applies(e: Expr) -> bool {
    (e is Div) || (e is Ln)
}

/// The results of `nt_chebyshev_prime_bounds` on `e`, each with its justification.
pub open spec fn nt_chebyshev_prime_bounds_results(e: Expr) -> Seq<(Expr, Seq<char>)> {
    one(e, "Chebyshev bounds: c₁x/ln(x) < π(x) < c₂x/ln(x) for x ≥ 2"@)
}

fn nt_chebyshev_prime_bounds_applicable(e: &Expr) -> (r: bool)
    ensures
        r == nt_chebyshev_prime_bounds_applies(*e),
{
    match e {
        Expr::Div(_, _) | Expr::Ln(_) => true,
        _ => false,
    }
}

fn nt_chebyshev_prime_bounds_apply(e: &Expr) -> (v: Vec<RuleApplication>)
    ensures
        apps_view(v@) == nt_chebyshev_prime_bounds_results(*e),
{
    single(copy_expr(e), "Chebyshev bounds: c₁x/ln(x) < π(x) < c₂x/ln(x) for x ≥ 2")
}

/// `totient_sum`: Fires on `Const`, `Var`; returns the expression unchanged, with its justification.
pub open spec fn nt_totient_sum_applies(e: Expr) -> bool {
    (e is Const) || (e is Var)
}

/// The results of `nt_totient_sum` on `e`, each with its justification.
pub open spec fn nt_totient_sum_results(e: Expr) -> Seq<(Expr, Seq<char>)> {
    one(e, "Totient sum identity: Σ φ(d) = n for all d | n"@)
}

fn nt_totient_sum_applicable(e: &Expr) -> (r: bool)
    ensures
        r == nt_totient_sum_applies(*e),
{
    match e {
        Expr::Const(_) | Expr::Var(_) => true,
        _ => false,
    }
}

fn nt_totient_sum_apply(e: &Expr) -> (v: Vec<RuleApplication>)
    ensures
        apps_view(v@) == nt_totient_sum_results(*e),
{
    single(copy_expr(e), "Totient sum identity: Σ φ(d) = n for all d | n")
}

/// `primitive_root_count`: Fires on `Const`, `Pow`; returns the expression unchanged, with its justification.
pub open spec fn nt_primitive_root_count_applies(e: Expr) -> bool {
    (e is Const) || (e is Pow)
}

/// The results of `nt_primitive_root_count` on `e`, each with its justification.
pub open spec fn nt_primitive_root_count_results(e: Expr) -> Seq<(Expr, Seq<char>)> {
    one(e, "Primitive root count: φ(φ(n)) primitive roots exist mod n (when they exist)"@)
}

fn nt_primitive_root_count_applicable(e: &Expr) -> (r: bool)
    ensures
        r == nt_primitive_root_count_applies(*e),
{
    match e {
        Expr::Const(_) | Expr::Pow(_, _) => true,
        _ => false,
    }
}

fn nt_primitive_root_count_apply(e: &Expr) -> (v: Vec<RuleApplication>)
    ensures
        apps_view(v@) == nt_primitive_root_count_results(*e),
{
    single(copy_expr(e), "Primitive root count: φ(φ(n)) primitive roots exist mod n (when they exist)")
}

/// `carmichael_function`: Fires on `Const`, `LCM`; returns the expression unchanged, with its justification.
pub open spec fn nt_carmichael_function_applies(e: Expr) -> bool {
    (e is Const) || (e is LCM)
}

/// The results of `nt_carmichael_function` on `e`, each with its justification.
pub open spec fn nt_carmichael_function_results(e: Expr) -> Seq<(Expr, Seq<char>)> {
    one(e, "Carmichael function λ(n) = lcm of orders of elements mod n"@)
}

fn nt_carmichael_function_applicable(e: &Expr) -> (r: bool)
    ensures
        r == nt_carmichael_function_applies(*e),
{
    match e {
        Expr::Const(_) | Expr::LCM(_, _) => true,
        _ => false,
    }
}

fn nt_carmichael_function_apply(e: &Expr) -> (v: Vec<RuleApplication>)
    ensures
        apps_view(v@) == nt_carmichael_function_results(*e),
{
    single(copy_expr(e), "Carmichael function λ(n) = lcm of orders of elements mod n")
}

/// `prime_gap_bound`: Fires on `Sub`, `Gt`; returns the expression unchanged, with its justification.
pub open spec fn nt_prime_gap_bound_applies(e: Expr) -> bool {
    (e is Sub) || (e is Gt)
}

/// The results of `nt_prime_gap_bound` on `e`, each with its justification.
pub open spec fn nt_prime_gap_bound_results(e: Expr) -> Seq<(Expr, Seq<char>)> {
    one(e, "Prime gap bound: For large n, gap between consecutive primes is O(n^0.525)"@)
}

fn nt_prime_gap_bound_applicable(e: &Expr) -> (r: bool)
    ensures
        r == nt_prime_gap_bound_applies(*e),
{
    match e {
        Expr::Sub(_, _) | Expr::Gt(_, _) => true,
        _ => false,
    }
}

fn nt_prime_gap_bound_apply(e: &Expr) -> (v: Vec<RuleApplication>)
    ensures
        apps_view(v@) == nt_prime_gap_bound_results(*e),
{
    single(copy_expr(e), "Prime gap bound: For large n, gap between consecutive primes is O(n^0.525)")
}

/// `quadratic_reciprocity`: Fires on `Mul`, `Pow`; returns the expression unchanged, with its justification.
pub open spec fn nt_quadratic_reciprocity_applies(e: Expr) -> bool {
    (e is Mul) || (e is Pow)
}

/// The results of `nt_quadratic_reciprocity` on `e`, each with its justification.
pub open spec fn nt_quadratic_reciprocity_results(e: Expr) -> Seq<(Expr, Seq<char>)> {
    one(e, "Quadratic reciprocity: (p/q)(q/p) = (-1)^((p-1)(q-1)/4) for odd primes p,q"@)
}

fn nt_quadratic_reciprocity_applicable(e: &Expr) -> (r: bool)
    ensures
        r == nt_quadratic_reciprocity_applies(*e),
{
    match e {
        Expr::Mul(_, _) | Expr::Pow(_, _) => true,
        _ => false,
    }
}

fn nt_quadratic_reciprocity_apply(e: &Expr) -> (v: Vec<RuleApplication>)
    ensures
        apps_view(v@) == nt_quadratic_reciprocity_results(*e),
{
    single(copy_expr(e), "Quadratic reciprocity: (p/q)(q/p) = (-1)^((p-1)(q-1)/4) for odd primes p,q")
}

/// `jacobi_symbol`: Fires on `Div`, `Mod`; returns the expression unchanged, with its justification.
pub open spec fn nt_jacobi_symbol_applies(e: Expr) -> bool {
    (e is Div) || (e is Mod)
}

/// The results of `nt_jacobi_symbol` on `e`, each with its justification.
pub open spec fn nt_jacobi_symbol_results(e: Expr) -> Seq<(Expr, Seq<char>)> {
    one(e, "Jacobi symbol (a/n) generalizes Legendre symbol to composite moduli"@)
}

fn nt_jacobi_symbol_applicable(e: &Expr) -> (r: bool)
    ensures
        r == nt_jacobi_symbol_applies(*e),
{
    match e {
        Expr::Div(_, _) | Expr::Mod(_, _) => true,
        _ => false,
    }
}

fn nt_jacobi_symbol_apply(e: &Expr) -> (v: Vec<RuleApplication>)
    ensures
        apps_view(v@) == nt_jacobi_symbol_results(*e),
{
    single(copy_expr(e), "Jacobi symbol (a/n) generalizes Legendre symbol to composite moduli")
}

/// `kronecker_symbol`: Fires on `Div`, `Mod`; returns the expression unchanged, with its justification.
pub open spec fn nt_kronecker_symbol_applies(e: Expr) -> bool {
    (e is Div) || (e is Mod)
}

/// The results of `nt_kronecker_symbol` on `e`, each with its justification.
pub open spec fn nt_kronecker_symbol_results(e: Expr) -> Seq<(Expr, Seq<char>)> {
    one(e, "Kronecker symbol extends Jacobi symbol to all integers"@)
}

fn nt_kronecker_symbol_applicable(e: &Expr) -> (r: bool)
    ensures
        r == nt_kronecker_symbol_applies(*e),
{
    match e {
        Expr::Div(_, _) | Expr::Mod(_, _) => true,
        _ => false,
    }
}

fn nt_kronecker_symbol_apply(e: &Expr) -> (v: Vec<RuleApplication>)
    ensures
        apps_view(v@) == nt_kronecker_symbol_results(*e),
{
    single(copy_expr(e), "Kronecker symbol extends Jacobi symbol to all integers")
}

/// `tonelli_shanks`: Fires on `Mod`, `Sqrt`; returns the expression unchanged, with its justification.
pub open spec fn nt_tonelli_shanks_applies(e: Expr) -> bool {
    (e is Mod) || (e is Sqrt)
}

/// The results of `nt_tonelli_shanks` on `e`, each with its justification.
pub open spec fn nt_tonelli_shanks_results(e: Expr) -> Seq<(Expr, Seq<char>)> {
    one(e, "Tonelli-Shanks: Computes modular square root x where x² ≡ a (mod p)"@)
}

fn nt_tonelli_shanks_applicable(e: &Expr) -> (r: bool)
    ensures
        r == nt_tonelli_shanks_applies(*e),
{
    match e {
        Expr::Mod(_, _) | Expr::Sqrt(_) => true,
        _ => false,
    }
}

fn nt_tonelli_shanks_apply(e: &Expr) -> (v: Vec<RuleApplication>)
    ensures
        apps_view(v@) == nt_tonelli_shanks_results(*e),
{
    single(copy_expr(e), "Tonelli-Shanks: Computes modular square root x where x² ≡ a (mod p)")
}

/// `discrete_log_order`: Fires on `Pow`, `Mod`; returns the expression unchanged, with its justification.
pub open spec fn nt_discrete_log_order_applies(e: Expr) -> bool {
    (e is Pow) || (e is Mod)
}

/// The results of `nt_discrete_log_order` on `e`, each with its justification.
pub open spec fn nt_discrete_log_order_results(e: Expr) -> Seq<(Expr, Seq<char>)> {
    one(e, "Discrete log: Find x such that g^x ≡ h (mod n)"@)
}

fn nt_discrete_log_order_applicable(e: &Expr) -> (r: bool)
    ensures
        r == nt_discrete_log_order_applies(*e),
{
    match e {
        Expr::Pow(_, _) | Expr::Mod(_, _) => true,
        _ => false,
    }
}

fn nt_discrete_log_order_apply(e: &Expr) -> (v: Vec<RuleApplication>)
    ensures
        apps_view(v@) == nt_discrete_log_order_results(*e),
{
    single(copy_expr(e), "Discrete log: Find x such that g^x ≡ h (mod n)")
}

/// `continued_fraction_gcd`: Fires on `GCD`, `Div`; returns the expression unchanged, with its justification.
pub open spec fn nt_continued_fraction_gcd_applies(e: Expr) -> bool {
    (e is GCD) || (e is Div)
}

/// The results of `nt_continued_fraction_gcd` on `e`, each with its justification.
pub open spec fn nt_continued_fraction_gcd_results(e: Expr) -> Seq<(Expr, Seq<char>)> {
    one(e, "Continued fraction expansion computes GCD via convergents"@)
}

fn nt_continued_fraction_gcd_applicable(e: &Expr) -> (r: bool)
    ensures
        r == nt_continued_fraction_gcd_applies(*e),
{
    match e {
        Expr::GCD(_, _) | Expr::Div(_, _) => true,
        _ => false,
    }
}

fn nt_continued_fraction_gcd_apply(e: &Expr) -> (v: Vec<RuleApplication>)
    ensures
        apps_view(v@) == nt_continued_fraction_gcd_results(*e),
{
    single(copy_expr(e), "Continued fraction expansion computes GCD via convergents")
}

/// `stern_brocot`: Fires on `Div`, `Add`; returns the expression unchanged, with its justification.
pub open spec fn nt_stern_brocot_applies(e: Expr) -> bool {
    (e is Div) || (e is Add)
}

/// The results of `nt_stern_brocot` on `e`, each with its justification.
pub open spec fn nt_stern_brocot_results(e: Expr) -> Seq<(Expr, Seq<char>)> {
    one(e, "Stern-Brocot: Mediant of a/b and c/d is (a+c)/(b+d)"@)
}

fn nt_stern_brocot_applicable(e: &Expr) -> (r: bool)
    ensures
        r == nt_stern_brocot_applies(*e),
{
    match e {
        Expr::Div(_, _) | Expr::Add(_, _) => true,
        _ => false,
    }
}

fn nt_stern_brocot_apply(e: &Expr) -> (v: Vec<RuleApplication>)
    ensures
        apps_view(v@) == nt_stern_brocot_results(*e),
{
    single(copy_expr(e), "Stern-Brocot: Mediant of a/b and c/d is (a+c)/(b+d)")
}

/// `egyptian_fraction`: Fires on `Div`; returns the expression unchanged, with its justification.
pub open spec fn nt_egyptian_fraction_applies(e: Expr) -> bool {
    (e is Div)
}

/// The results of `nt_egyptian_fraction` on `e`, each with its justification.
pub open spec fn nt_egyptian_fraction_results(e: Expr) -> Seq<(Expr, Seq<char>)> {
    one(e, "Egyptian fraction: Express a/b as sum of distinct unit fractions"@)
}

fn nt_egyptian_fraction_applicable(e: &Expr) -> (r: bool)
    ensures
        r == nt_egyptian_fraction_applies(*e),
{
    match e {
        Expr::Div(_, _) => true,
        _ => false,
    }
}

fn nt_egyptian_fraction_apply(e: &Expr) -> (v: Vec<RuleApplication>)
    ensures
        apps_view(v@) == nt_egyptian_fraction_results(*e),
{
    single(copy_expr(e), "Egyptian fraction: Express a/b as sum of distinct unit fractions")
}

/// `gaussian_prime`: Fires on `Const`, `Add`; returns the expression unchanged, with its justification.
pub open spec fn nt_gaussian_prime_applies(e: Expr) -> bool {
    (e is Const) || (e is Add)
}

/// The results of `nt_gaussian_prime` on `e`, each with its justification.
pub open spec fn nt_gaussian_prime_results(e: Expr) -> Seq<(Expr, Seq<char>)> {
    one(e, "Gaussian primes: p ≡ 3 (mod 4) or factors of primes ≡ 1 (mod 4)"@)
}

fn nt_gaussian_prime_applicable(e: &Expr) -> (r: bool)
    ensures
        r == nt_gaussian_prime_applies(*e),
{
    match e {
        Expr::Const(_) | Expr::Add(_, _) => true,
        _ => false,
    }
}

fn nt_gaussian_prime_apply(e: &Expr) -> (v: Vec<RuleApplication>)
    ensures
        apps_view(v@) == nt_gaussian_prime_results(*e),
{
    single(copy_expr(e), "Gaussian primes: p ≡ 3 (mod 4) or factors of primes ≡ 1 (mod 4)")
}

/// `vieta_sum_quadratic`: Fires on `Add`, `Equation`; returns the expression unchanged, with its justification.
pub open spec fn poly_vieta_sum_quadratic_applies(e: Expr) -> bool {
    (e is Add) || (e is Equation)
}

/// The results of `poly_vieta_sum_quadratic` on `e`, each with its justification.
pub open spec fn poly_vieta_sum_quadratic_results(e: Expr) -> Seq<(Expr, Seq<char>)> {
    one(e, "Vieta: For ax² + bx + c = 0, r₁ + r₂ = -b/a"@)
}

fn poly_vieta_sum_quadratic_applicable(e: &Expr) -> (r: bool)
    ensures
        r == poly_vieta_sum_quadratic_applies(*e),
{
    match e {
        Expr::Add(_, _) | Expr::Equation { .. } => true,
        _ => false,
    }
}

fn poly_vieta_sum_quadratic_apply(e: &Expr) -> (v: Vec<RuleApplication>)
    ensures
        apps_view(v@) == poly_vieta_sum_quadratic_results(*e),
{
    single(copy_expr(e), "Vieta: For ax² + bx + c = 0, r₁ + r₂ = -b/a")
}

/// `vieta_product_quadratic`: Fires on `Mul`, `Equation`; returns the expression unchanged, with its justification.
pub open spec fn poly_vieta_product_quadratic_applies(e: Expr) -> bool {
    (e is Mul) || (e is Equation)
}

/// The results of `poly_vieta_product_quadratic` on `e`, each with its justification.
pub open spec fn poly_vieta_product_quadratic_results(e: Expr) -> Seq<(Expr, Seq<char>)> {
    one(e, "Vieta: For ax² + bx + c = 0, r₁ · r₂ = c/a"@)
}

fn poly_vieta_product_quadratic_applicable(e: &Expr) -> (r: bool)
    ensures
        r == poly_vieta_product_quadratic_applies(*e),
{
    match e {
        Expr::Mul(_, _) | Expr::Equation { .. } => true,
        _ => false,
    }
}

fn poly_vieta_product_quadratic_apply(e: &Expr) -> (v: Vec<RuleApplication>)
    ensures
        apps_view(v@) == poly_vieta_product_quadratic_results(*e),
{
    single(copy_expr(e), "Vieta: For ax² + bx + c = 0, r₁ · r₂ = c/a")
}

/// `vieta_sum_cubic`: Fires on `Add`, `Equation`; returns the expression unchanged, with its justification.
pub open spec fn poly_vieta_sum_cubic_applies(e: Expr) -> bool {
    (e is Add) || (e is Equation)
}

/// The results of `poly_vieta_sum_cubic` on `e`, each with its justification.
pub open spec fn poly_vieta_sum_cubic_results(e: Expr) -> Seq<(Expr, Seq<char>)> {
    one(e, "Vieta (cubic): r₁ + r₂ + r₃ = -b/a"@)
}

fn poly_vieta_sum_cubic_applicable(e: &Expr) -> (r: bool)
    ensures
        r == poly_vieta_sum_cubic_applies(*e),
{
    match e {
        Expr::Add(_, _) | Expr::Equation { .. } => true,
        _ => false,
    }
}

fn poly_vieta_sum_cubic_apply(e: &Expr) -> (v: Vec<RuleApplication>)
    ensures
        apps_view(v@) == poly_vieta_sum_cubic_results(*e),
{
    single(copy_expr(e), "Vieta (cubic): r₁ + r₂ + r₃ = -b/a")
}

/// `vieta_pairs_cubic`: Fires on `Add`, `Mul`; returns the expression unchanged, with its justification.
pub open spec fn poly_vieta_pairs_cubic_applies(e: Expr) -> bool {
    (e is Add) || (e is Mul)
}

/// The results of `poly_vieta_pairs_cubic` on `e`, each with its justification.
pub open spec fn poly_vieta_pairs_cubic_results(e: Expr) -> Seq<(Expr, Seq<char>)> {
    one(e, "Vieta (cubic): r₁r₂ + r₂r₃ + r₁r₃ = c/a"@)
}

fn poly_vieta_pairs_cubic_applicable(e: &Expr) -> (r: bool)
    ensures
        r == poly_vieta_pairs_cubic_applies(*e),
{
    match e {
        Expr::Add(_, _) | Expr::Mul(_, _) => true,
        _ => false,
    }
}

fn poly_vieta_pairs_cubic_apply(e: &Expr) -> (v: Vec<RuleApplication>)
    ensures
        apps_view(v@) == poly_vieta_pairs_cubic_results(*e),
{
    single(copy_expr(e), "Vieta (cubic): r₁r₂ + r₂r₃ + r₁r₃ = c/a")
}

/// `vieta_product_cubic`: Fires on `Mul`; returns the expression unchanged, with its justification.
pub open spec fn poly_vieta_product_cubic_applies(e: Expr) -> bool {
    (e is Mul)
}

/// The results of `poly_vieta_product_cubic` on `e`, each with its justification.
pub open spec fn poly_vieta_product_cubic_results(e: Expr) -> Seq<(Expr, Seq<char>)> {
    one(e, "Vieta (cubic): r₁ · r₂ · r₃ = -d/a"@)
}

fn poly_vieta_product_cubic_applicable(e: &Expr) -> (r: bool)
    ensures
        r == poly_vieta_product_cubic_applies(*e),
{
    match e {
        Expr::Mul(_, _) => true,
        _ => false,
    }
}

fn poly_vieta_product_cubic_apply(e: &Expr) -> (v: Vec<RuleApplication>)
    ensures
        apps_view(v@) == poly_vieta_product_cubic_results(*e),
{
    single(copy_expr(e), "Vieta (cubic): r₁ · r₂ · r₃ = -d/a")
}

/// `elementary_sym_1`: Fires on `Add`; returns the expression unchanged, with its justification.
pub open spec fn poly_elementary_sym_1_applies(e: Expr) -> bool {
    (e is Add)
}

/// The results of `poly_elementary_sym_1` on `e`, each with its justification.
pub open spec fn poly_elementary_sym_1_results(e: Expr) -> Seq<(Expr, Seq<char>)> {
    one(e, "Elementary symmetric polynomial e₁ = Σxᵢ"@)
}

fn poly_elementary_sym_1_applicable(e: &Expr) -> (r: bool)
    ensures
        r == poly_elementary_sym_1_applies(*e),
{
    match e {
        Expr::Add(_, _) => true,
        _ => false,
    }
}

fn poly_elementary_sym_1_apply(e: &Expr) -> (v: Vec<RuleApplication>)
    ensures
        apps_view(v@) == poly_elementary_sym_1_results(*e),
{
    single(copy_expr(e), "Elementary symmetric polynomial e₁ = Σxᵢ")
}

/// `elementary_sym_2`: Fires on `Add`, `Mul`; returns the expression unchanged, with its justification.
pub open spec fn poly_elementary_sym_2_applies(e: Expr) -> bool {
    (e is Add) || (e is Mul)
}

/// The results of `poly_elementary_sym_2` on `e`, each with its justification.
pub open spec fn poly_elementary_sym_2_results(e: Expr) -> Seq<(Expr, Seq<char>)> {
    one(e, "Elementary symmetric polynomial e₂ = Σxᵢxⱼ"@)
}

fn poly_elementary_sym_2_applicable(e: &Expr) -> (r: bool)
    ensures
        r == poly_elementary_sym_2_applies(*e),
{
    match e {
        Expr::Add(_, _) | Expr::Mul(_, _) => true,
        _ => false,
    }
}

fn poly_elementary_sym_2_apply(e: &Expr) -> (v: Vec<RuleApplication>)
    ensures
        apps_view(v@) == poly_elementary_sym_2_results(*e),
{
    single(copy_expr(e), "Elementary symmetric polynomial e₂ = Σxᵢxⱼ")
}

/// `newton_identity_1`: Fires on `Add`; returns the expression unchanged, with its justification.
pub open spec fn poly_newton_identity_1_applies(e: Expr) -> bool {
    (e is Add)
}

/// The results of `poly_newton_identity_1` on `e`, each with its justification.
pub open spec fn poly_newton_identity_1_results(e: Expr) -> Seq<(Expr, Seq<char>)> {
    one(e, "Newton's identity: p₁ = e₁"@)
}

fn poly_newton_identity_1_applicable(e: &Expr) -> (r: bool)
    ensures
        r == poly_newton_identity_1_applies(*e),
{
    match e {
        Expr::Add(_, _) => true,
        _ => false,
    }
}

fn poly_newton_identity_1_apply(e: &Expr) -> (v: Vec<RuleApplication>)
    ensures
        apps_view(v@) == poly_newton_identity_1_results(*e),
{
    single(copy_expr(e), "Newton's identity: p₁ = e₁")
}

/// `newton_identity_2`: Fires on `Sub`, `Pow`; returns the expression unchanged, with its justification.
pub open spec fn poly_newton_identity_2_applies(e: Expr) -> bool {
    (e is Sub) || (e is Pow)
}

/// The results of `poly_newton_identity_2` on `e`, each with its justification.
pub open spec fn poly_newton_identity_2_results(e: Expr) -> Seq<(Expr, Seq<char>)> {
    one(e, "Newton's identity: p₂ = e₁² - 2e₂"@)
}

fn poly_newton_identity_2_applicable(e: &Expr) -> (r: bool)
    ensures
        r == poly_newton_identity_2_applies(*e),
{
    match e {
        Expr::Sub(_, _) | Expr::Pow(_, _) => true,
        _ => false,
    }
}

fn poly_newton_identity_2_apply(e: &Expr) -> (v: Vec<RuleApplication>)
    ensures
        apps_view(v@) == poly_newton_identity_2_results(*e),
{
    single(copy_expr(e), "Newton's identity: p₂ = e₁² - 2e₂")
}

/// `newton_identity_3`: Fires on `Add`, `Sub`, `Pow`; returns the expression unchanged, with its justification.
pub open spec fn poly_newton_identity_3_applies(e: Expr) -> bool {
    (e is Add) || (e is Sub) || (e is Pow)
}

/// The results of `poly_newton_identity_3` on `e`, each with its justification.
pub open spec fn poly_newton_identity_3_results(e: Expr) -> Seq<(Expr, Seq<char>)> {
    one(e, "Newton's identity: p₃ = e₁³ - 3e₁e₂ + 3e₃"@)
}

fn poly_newton_identity_3_applicable(e: &Expr) -> (r: bool)
    ensures
        r == poly_newton_identity_3_applies(*e),
{
    match e {
        Expr::Add(_, _) | Expr::Sub(_, _) | Expr::Pow(_, _) => true,
        _ => false,
    }
}

fn poly_newton_identity_3_apply(e: &Expr) -> (v: Vec<RuleApplication>)
    ensures
        apps_view(v@) == poly_newton_identity_3_results(*e),
{
    single(copy_expr(e), "Newton's identity: p₃ = e₁³ - 3e₁e₂ + 3e₃")
}

/// `sum_cubes_sym`: Fires on `Add`, `Pow`; returns the expression unchanged, with its justification.
pub open spec fn poly_sum_cubes_sym_applies(e: Expr) -> bool {
    (e is Add) || (e is Pow)
}

/// The results of `poly_sum_cubes_sym` on `e`, each with its justification.
pub open spec fn poly_sum_cubes_sym_results(e: Expr) -> Seq<(Expr, Seq<char>)> {
    one(e, "x³ + y³ = (x+y)³ - 3xy(x+y)"@)
}

fn poly_sum_cubes_sym_applicable(e: &Expr) -> (r: bool)
    ensures
        r == poly_sum_cubes_sym_applies(*e),
{
    match e {
        Expr::Add(_, _) | Expr::Pow(_, _) => true,
        _ => false,
    }
}

fn poly_sum_cubes_sym_apply(e: &Expr) -> (v: Vec<RuleApplication>)
    ensures
        apps_view(v@) == poly_sum_cubes_sym_results(*e),
{
    single(copy_expr(e), "x³ + y³ = (x+y)³ - 3xy(x+y)")
}

/// `sum_three_cubes`: Fires on `Add`, `Sub`; returns the expression unchanged, with its justification.
pub open spec fn poly_sum_three_cubes_applies(e: Expr) -> bool {
    (e is Add) || (e is Sub)
}

/// The results of `poly_sum_three_cubes` on `e`, each with its justification.
pub open spec fn poly_sum_three_cubes_results(e: Expr) -> Seq<(Expr, Seq<char>)> {
    one(e, "x³+y³+z³-3xyz = (x+y+z)(x²+y²+z²-xy-yz-zx)"@)
}

fn poly_sum_three_cubes_applicable(e: &Expr) -> (r: bool)
    ensures
        r == poly_sum_three_cubes_applies(*e),
{
    match e {
        Expr::Add(_, _) | Expr::Sub(_, _) => true,
        _ => false,
    }
}

fn poly_sum_three_cubes_apply(e: &Expr) -> (v: Vec<RuleApplication>)
    ensures
        apps_view(v@) == poly_sum_three_cubes_results(*e),
{
    single(copy_expr(e), "x³+y³+z³-3xyz = (x+y+z)(x²+y²+z²-xy-yz-zx)")
}

/// `factor_theorem`: Fires on `Equation`, `Div`; returns the expression unchanged, with its justification.
pub open spec fn poly_factor_theorem_applies(e: Expr) -> bool {
    (e is Equation) || (e is Div)
}

/// The results of `poly_factor_theorem` on `e`, each with its justification.
pub open spec fn poly_factor_theorem_results(e: Expr) -> Seq<(Expr, Seq<char>)> {
    one(e, "Factor theorem: (x-a) divides P(x) iff P(a) = 0"@)
}

fn poly_factor_theorem_applicable(e: &Expr) -> (r: bool)
    ensures
        r == poly_factor_theorem_applies(*e),
{
    match e {
        Expr::Equation { .. } | Expr::Div(_, _) => true,
        _ => false,
    }
}

fn poly_factor_theorem_apply(e: &Expr) -> (v: Vec<RuleApplication>)
    ensures
        apps_view(v@) == poly_factor_theorem_results(*e),
{
    single(copy_expr(e), "Factor theorem: (x-a) divides P(x) iff P(a) = 0")
}

/// `remainder_theorem`: Fires on `Div`, `Add`; returns the expression unchanged, with its justification.
pub open spec fn poly_remainder_theorem_applies(e: Expr) -> bool {
    (e is Div) || (e is Add)
}

/// The results of `poly_remainder_theorem` on `e`, each with its justification.
pub open spec fn poly_remainder_theorem_results(e: Expr) -> Seq<(Expr, Seq<char>)> {
    one(e, "Remainder theorem: P(a) is remainder when dividing P(x) by (x-a)"@)
}

fn poly_remainder_theorem_applicable(e: &Expr) -> (r: bool)
    ensures
        r == poly_remainder_theorem_applies(*e),
{
    match e {
        Expr::Div(_, _) | Expr::Add(_, _) => true,
        _ => false,
    }
}

fn poly_remainder_theorem_apply(e: &Expr) -> (v: Vec<RuleApplication>)
    ensures
        apps_view(v@) == poly_remainder_theorem_results(*e),
{
    single(copy_expr(e), "Remainder theorem: P(a) is remainder when dividing P(x) by (x-a)")
}

/// `poly_div_identity`: Fires on `Div`, `Add`, `Mul`; returns the expression unchanged, with its justification.
pub open spec fn poly_poly_div_identity_applies(e: Expr) -> bool {
    (e is Div) || (e is Add) || (e is Mul)
}

/// The results of `poly_poly_div_identity` on `e`, each with its justification.
pub open spec fn poly_poly_div_identity_results(e: Expr) -> Seq<(Expr, Seq<char>)> {
    one(e, "Polynomial division: P(x) = D(x)·Q(x) + R(x)"@)
}

fn poly_poly_div_identity_applicable(e: &Expr) -> (r: bool)
    ensures
        r == poly_poly_div_identity_applies(*e),
{
    match e {
        Expr::Div(_, _) | Expr::Add(_, _) | Expr::Mul(_, _) => true,
        _ => false,
    }
}

fn poly_poly_div_identity_apply(e: &Expr) -> (v: Vec<RuleApplication>)
    ensures
        apps_view(v@) == poly_poly_div_identity_results(*e),
{
    single(copy_expr(e), "Polynomial division: P(x) = D(x)·Q(x) + R(x)")
}

/// `sophie_germain`: Fires on `Add`, `Pow`; returns the expression unchanged, with its justification.
pub open spec fn poly_sophie_germain_applies(e: Expr) -> bool {
    (e is Add) || (e is Pow)
}

/// The results of `poly_sophie_germain` on `e`, each with its justification.
pub open spec fn poly_sophie_germain_results(e: Expr) -> Seq<(Expr, Seq<char>)> {
    one(e, "Sophie Germain: a⁴ + 4b⁴ = (a² + 2b² + 2ab)(a² + 2b² - 2ab)"@)
}

fn poly_sophie_germain_applicable(e: &Expr) -> (r: bool)
    ensures
        r == poly_sophie_germain_applies(*e),
{
    match e {
        Expr::Add(_, _) | Expr::Pow(_, _) => true,
        _ => false,
    }
}

fn poly_sophie_germain_apply(e: &Expr) -> (v: Vec<RuleApplication>)
    ensures
        apps_view(v@) == poly_sophie_germain_results(*e),
{
    single(copy_expr(e), "Sophie Germain: a⁴ + 4b⁴ = (a² + 2b² + 2ab)(a² + 2b² - 2ab)")
}

/// `factor_by_grouping`: Fires on `Add`; returns the expression unchanged, with its justification.
pub open spec fn poly_factor_by_grouping_applies(e: Expr) -> bool {
    (e is Add)
}

/// The results of `poly_factor_by_grouping` on `e`, each with its justification.
pub open spec fn poly_factor_by_grouping_results(e: Expr) -> Seq<(Expr, Seq<char>)> {
    one(e, "Factoring by grouping: ax + ay + bx + by = (a+b)(x+y)"@)
}

fn poly_factor_by_grouping_applicable(e: &Expr) -> (r: bool)
    ensures
        r == poly_factor_by_grouping_applies(*e),
{
    match e {
        Expr::Add(_, _) => true,
        _ => false,
    }
}

fn poly_factor_by_grouping_apply(e: &Expr) -> (v: Vec<RuleApplication>)
    ensures
        apps_view(v@) == poly_factor_by_grouping_results(*e),
{
    single(copy_expr(e), "Factoring by grouping: ax + ay + bx + by = (a+b)(x+y)")
}

/// `sum_odd_powers`: Fires on `Add`, `Pow`; returns the expression unchanged, with its justification.
pub open spec fn poly_sum_odd_powers_applies(e: Expr) -> bool {
    (e is Add) || (e is Pow)
}

/// The results of `poly_sum_odd_powers` on `e`, each with its justification.
pub open spec fn poly_sum_odd_powers_results(e: Expr) -> Seq<(Expr, Seq<char>)> {
    one(e, "Sum of odd powers divisible by (x+y)"@)
}

fn poly_sum_odd_powers_applicable(e: &Expr) -> (r: bool)
    ensures
        r == poly_sum_odd_powers_applies(*e),
{
    match e {
        Expr::Add(_, _) | Expr::Pow(_, _) => true,
        _ => false,
    }
}

fn poly_sum_odd_powers_apply(e: &Expr) -> (v: Vec<RuleApplication>)
    ensures
        apps_view(v@) == poly_sum_odd_powers_results(*e),
{
    single(copy_expr(e), "Sum of odd powers divisible by (x+y)")
}

/// `diff_even_powers`: Fires on `Sub`, `Pow`; returns the expression unchanged, with its justification.
pub open spec fn poly_diff_even_powers_applies(e: Expr) -> bool {
    (e is Sub) || (e is Pow)
}

/// The results of `poly_diff_even_powers` on `e`, each with its justification.
pub open spec fn poly_diff_even_powers_results(e: Expr) -> Seq<(Expr, Seq<char>)> {
    one(e, "Difference of even powers: x^(2n) - y^(2n) = (x²-y²)·Q(x,y)"@)
}

fn poly_diff_even_powers_applicable(e: &Expr) -> (r: bool)
    ensures
        r == poly_diff_even_powers_applies(*e),
{
    match e {
        Expr::Sub(_, _) | Expr::Pow(_, _) => true,
        _ => false,
    }
}

fn poly_diff_even_powers_apply(e: &Expr) -> (v: Vec<RuleApplication>)
    ensures
        apps_view(v@) == poly_diff_even_powers_results(*e),
{
    single(copy_expr(e), "Difference of even powers: x^(2n) - y^(2n) = (x²-y²)·Q(x,y)")
}

/// `quadratic_substitution`: Fires on `Add`, `Pow`; returns the expression unchanged, with its justification.
pub open spec fn poly_quadratic_substitution_applies(e: Expr) -> bool {
    (e is Add) || (e is Pow)
}

/// The results of `poly_quadratic_substitution` on `e`, each with its justification.
pub open spec fn poly_quadratic_substitution_results(e: Expr) -> Seq<(Expr, Seq<char>)> {
    one(e, "Quadratic substitution: let u = x² for biquadratic"@)
}

fn poly_quadratic_substitution_applicable(e: &Expr) -> (r: bool)
    ensures
        r == poly_quadratic_substitution_applies(*e),
{
    match e {
        Expr::Add(_, _) | Expr::Pow(_, _) => true,
        _ => false,
    }
}

fn poly_quadratic_substitution_apply(e: &Expr) -> (v: Vec<RuleApplication>)
    ensures
        apps_view(v@) == poly_quadratic_substitution_results(*e),
{
    single(copy_expr(e), "Quadratic substitution: let u = x² for biquadratic")
}

/// `symmetric_factor`: Fires on `Add`, `Mul`; returns the expression unchanged, with its justification.
pub open spec fn poly_symmetric_factor_applies(e: Expr) -> bool {
    (e is Add) || (e is Mul)
}

/// The results of `poly_symmetric_factor` on `e`, each with its justification.
pub open spec fn poly_symmetric_factor_results(e: Expr) -> Seq<(Expr, Seq<char>)> {
    one(e, "Symmetric polynomial can be factored via elementary symmetric functions"@)
}

fn poly_symmetric_factor_applicable(e: &Expr) -> (r: bool)
    ensures
        r == poly_symmetric_factor_applies(*e),
{
    match e {
        Expr::Add(_, _) | Expr::Mul(_, _) => true,
        _ => false,
    }
}

fn poly_symmetric_factor_apply(e: &Expr) -> (v: Vec<RuleApplication>)
    ensures
        apps_view(v@) == poly_symmetric_factor_results(*e),
{
    single(copy_expr(e), "Symmetric polynomial can be factored via elementary symmetric functions")
}

/// `partial_fractions`: Fires on `Div`; returns the expression unchanged, with its justification.
pub open spec fn poly_partial_fractions_applies(e: Expr) -> bool {
    (e is Div)
}

/// The results of `poly_partial_fractions` on `e`, each with its justification.
pub open spec fn poly_partial_fractions_results(e: Expr) -> Seq<(Expr, Seq<char>)> {
    one(e, "Partial fraction decomposition: P(x)/Q(x) = Σ A_i/(x-r_i)^k"@)
}

fn poly_partial_fractions_applicable(e: &Expr) -> (r: bool)
    ensures
        r == poly_partial_fractions_applies(*e),
{
    match e {
        Expr::Div(_, _) => true,
        _ => false,
    }
}

fn poly_partial_fractions_apply(e: &Expr) -> (v: Vec<RuleApplication>)
    ensures
        apps_view(v@) == poly_partial_fractions_results(*e),
{
    single(copy_expr(e), "Partial fraction decomposition: P(x)/Q(x) = Σ A_i/(x-r_i)^k")
}

/// `horner_method`: Fires on `Add`, `Mul`; returns the expression unchanged, with its justification.
pub open spec fn poly_horner_method_applies(e: Expr) -> bool {
    (e is Add) || (e is Mul)
}

/// The results of `poly_horner_method` on `e`, each with its justification.
pub open spec fn poly_horner_method_results(e: Expr) -> Seq<(Expr, Seq<char>)> {
    one(e, "Horner's method: efficient polynomial evaluation"@)
}

fn poly_horner_method_applicable(e: &Expr) -> (r: bool)
    ensures
        r == poly_horner_method_applies(*e),
{
    match e {
        Expr::Add(_, _) | Expr::Mul(_, _) => true,
        _ => false,
    }
}

fn poly_horner_method_apply(e: &Expr) -> (v: Vec<RuleApplication>)
    ensures
        apps_view(v@) == poly_horner_method_results(*e),
{
    single(copy_expr(e), "Horner's method: efficient polynomial evaluation")
}

/// `synthetic_division`: Fires on `Div`; returns the expression unchanged, with its justification.
pub open spec fn poly_synthetic_division_applies(e: Expr) -> bool {
    (e is Div)
}

/// The results of `poly_synthetic_division` on `e`, each with its justification.
pub open spec fn poly_synthetic_division_results(e: Expr) -> Seq<(Expr, Seq<char>)> {
    one(e, "Synthetic division: efficient division by linear factor"@)
}

fn poly_synthetic_division_applicable(e: &Expr) -> (r: bool)
    ensures
        r == poly_synthetic_division_applies(*e),
{
    match e {
        Expr::Div(_, _) => true,
        _ => false,
    }
}

fn poly_synthetic_division_apply(e: &Expr) -> (v: Vec<RuleApplication>)
    ensures
        apps_view(v@) == poly_synthetic_division_results(*e),
{
    single(copy_expr(e), "Synthetic division: efficient division by linear factor")
}

/// `polynomial_long_division`: Fires on `Div`; returns the expression unchanged, with its justification.
pub open spec fn poly_polynomial_long_division_applies(e: Expr) -> bool {
    (e is Div)
}

/// The results of `poly_polynomial_long_division` on `e`, each with its justification.
pub open spec fn poly_polynomial_long_division_results(e: Expr) -> Seq<(Expr, Seq<char>)> {
    one(e, "Polynomial long division: P(x) = D(x)·Q(x) + R(x)"@)
}

fn poly_polynomial_long_division_applicable(e: &Expr) -> (r: bool)
    ensures
        r == poly_polynomial_long_division_applies(*e),
{
    match e {
        Expr::Div(_, _) => true,
        _ => false,
    }
}

fn poly_polynomial_long_division_apply(e: &Expr) -> (v: Vec<RuleApplication>)
    ensures
        apps_view(v@) == poly_polynomial_long_division_results(*e),
{
    single(copy_expr(e), "Polynomial long division: P(x) = D(x)·Q(x) + R(x)")
}

/// `ruffini_rule`: Fires on `Div`; returns the expression unchanged, with its justification.
pub open spec fn poly_ruffini_rule_applies(e: Expr) -> bool {
    (e is Div)
}

/// The results of `poly_ruffini_rule` on `e`, each with its justification.
pub open spec fn poly_ruffini_rule_results(e: Expr) -> Seq<(Expr, Seq<char>)> {
    one(e, "Ruffini's rule: synthetic division variant"@)
}

fn poly_ruffini_rule_applicable(e: &Expr) -> (r: bool)
    ensures
        r == poly_ruffini_rule_applies(*e),
{
    match e {
        Expr::Div(_, _) => true,
        _ => false,
    }
}

fn poly_ruffini_rule_apply(e: &Expr) -> (v: Vec<RuleApplication>)
    ensures
        apps_view(v@) == poly_ruffini_rule_results(*e),
{
    single(copy_expr(e), "Ruffini's rule: synthetic division variant")
}

/// `rational_root_theorem`: Fires on `Div`, `Equation`; returns the expression unchanged, with its justification.
pub open spec fn poly_rational_root_theorem_applies(e: Expr) -> bool {
    (e is Div) || (e is Equation)
}

/// The results of `poly_rational_root_theorem` on `e`, each with its justification.
pub open spec fn poly_rational_root_theorem_results(e: Expr) -> Seq<(Expr, Seq<char>)> {
    one(e, "Rational root theorem: roots have form ±(factor of a₀)/(factor of aₙ)"@)
}

fn poly_rational_root_theorem_applicable(e: &Expr) -> (r: bool)
    ensures
        r == poly_rational_root_theorem_applies(*e),
{
    match e {
        Expr::Div(_, _) | Expr::Equation { .. } => true,
        _ => false,
    }
}

fn poly_rational_root_theorem_apply(e: &Expr) -> (v: Vec<RuleApplication>)
    ensures
        apps_view(v@) == poly_rational_root_theorem_results(*e),
{
    single(copy_expr(e), "Rational root theorem: roots have form ±(factor of a₀)/(factor of aₙ)")
}

/// `integer_root`: Fires on `Div`, `Mod`; returns the expression unchanged, with its justification.
pub open spec fn poly_integer_root_applies(e: Expr) -> bool {
    (e is Div) || (e is Mod)
}

/// The results of `poly_integer_root` on `e`, each with its justification.
pub open spec fn poly_integer_root_results(e: Expr) -> Seq<(Expr, Seq<char>)> {
    one(e, "Integer roots divide constant term"@)
}

fn poly_integer_root_applicable(e: &Expr) -> (r: bool)
    ensures
        r == poly_integer_root_applies(*e),
{
    match e {
        Expr::Div(_, _) | Expr::Mod(_, _) => true,
        _ => false,
    }
}

fn poly_integer_root_apply(e: &Expr) -> (v: Vec<RuleApplication>)
    ensures
        apps_view(v@) == poly_integer_root_results(*e),
{
    single(copy_expr(e), "Integer roots divide constant term")
}

/// `quadratic_formula`: Fires on `Equation`, `Sqrt`; returns the expression unchanged, with its justification.
pub open spec fn poly_quadratic_formula_applies(e: Expr) -> bool {
    (e is Equation) || (e is Sqrt)
}

/// The results of `poly_quadratic_formula` on `e`, each with its justification.
pub open spec fn poly_quadratic_formula_results(e: Expr) -> Seq<(Expr, Seq<char>)> {
    one(e, "Quadratic formula: x = (-b ± √(b²-4ac)) / 2a"@)
}

fn poly_quadratic_formula_applicable(e: &Expr) -> (r: bool)
    ensures
        r == poly_quadratic_formula_applies(*e),
{
    match e {
        Expr::Equation { .. } | Expr::Sqrt(_) => true,
        _ => false,
    }
}

fn poly_quadratic_formula_apply(e: &Expr) -> (v: Vec<RuleApplication>)
    ensures
        apps_view(v@) == poly_quadratic_formula_results(*e),
{
    single(copy_expr(e), "Quadratic formula: x = (-b ± √(b²-4ac)) / 2a")
}

/// `discriminant_sign`: Fires on `Gt`, `Lt`, `Equation`; returns the expression unchanged, with its justification.
pub open spec fn poly_discriminant_sign_applies(e: Expr) -> bool {
    (e is Gt) || (e is Lt) || (e is Equation)
}

/// The results of `poly_discriminant_sign` on `e`, each with its justification.
pub open spec fn poly_discriminant_sign_results(e: Expr) -> Seq<(Expr, Seq<char>)> {
    one(e, "Discriminant sign determines root nature"@)
}

fn poly_discriminant_sign_applicable(e: &Expr) -> (r: bool)
    ensures
        r == poly_discriminant_sign_applies(*e),
{
    match e {
        Expr::Gt(_, _) | Expr::Lt(_, _) | Expr::Equation { .. } => true,
        _ => false,
    }
}

fn poly_discriminant_sign_apply(e: &Expr) -> (v: Vec<RuleApplication>)
    ensures
        apps_view(v@) == poly_discriminant_sign_results(*e),
{
    single(copy_expr(e), "Discriminant sign determines root nature")
}

/// `discriminant_perfect_square`: Fires on `Pow`, `Sqrt`; returns the expression unchanged, with its justification.
pub open spec fn poly_discriminant_perfect_square_applies(e: Expr) -> bool {
    (e is Pow) || (e is Sqrt)
}

/// The results of `poly_discriminant_perfect_square` on `e`, each with its justification.
pub open spec fn poly_discriminant_perfect_square_results(e: Expr) -> Seq<(Expr, Seq<char>)> {
    one(e, "Perfect square discriminant implies rational roots"@)
}

fn poly_discriminant_perfect_square_applicable(e: &Expr) -> (r: bool)
    ensures
        r == poly_discriminant_perfect_square_applies(*e),
{
    match e {
        Expr::Pow(_, _) | Expr::Sqrt(_) => true,
        _ => false,
    }
}

fn poly_discriminant_perfect_square_apply(e: &Expr) -> (v: Vec<RuleApplication>)
    ensures
        apps_view(v@) == poly_discriminant_perfect_square_results(*e),
{
    single(copy_expr(e), "Perfect square discriminant implies rational roots")
}

/// `cardano_formula`: Fires on `Pow`, `Equation`; returns the expression unchanged, with its justification.
pub open spec fn poly_cardano_formula_applies(e: Expr) -> bool {
    (e is Pow) || (e is Equation)
}

/// The results of `poly_cardano_formula` on `e`, each with its justification.
pub open spec fn poly_cardano_formula_results(e: Expr) -> Seq<(Expr, Seq<char>)> {
    one(e, "Cardano's formula for depressed cubic"@)
}

fn poly_cardano_formula_applicable(e: &Expr) -> (r: bool)
    ensures
        r == poly_cardano_formula_applies(*e),
{
    match e {
        Expr::Pow(_, _) | Expr::Equation { .. } => true,
        _ => false,
    }
}

fn poly_cardano_formula_apply(e: &Expr) -> (v: Vec<RuleApplication>)
    ensures
        apps_view(v@) == poly_cardano_formula_results(*e),
{
    single(copy_expr(e), "Cardano's formula for depressed cubic")
}

/// `cubic_discriminant`: Fires on `Add`, `Sub`, `Pow`; returns the expression unchanged, with its justification.
pub open spec fn poly_cubic_discriminant_applies(e: Expr) -> bool {
    (e is Add) || (e is Sub) || (e is Pow)
}

/// The results of `poly_cubic_discriminant` on `e`, each with its justification.
pub open spec fn poly_cubic_discriminant_results(e: Expr) -> Seq<(Expr, Seq<char>)> {
    one(e, "Cubic discriminant: Δ = -4p³ - 27q²"@)
}

fn poly_cubic_discriminant_applicable(e: &Expr) -> (r: bool)
    ensures
        r == poly_cubic_discriminant_applies(*e),
{
    match e {
        Expr::Add(_, _) | Expr::Sub(_, _) | Expr::Pow(_, _) => true,
        _ => false,
    }
}

fn poly_cubic_discriminant_apply(e: &Expr) -> (v: Vec<RuleApplication>)
    ensures
        apps_view(v@) == poly_cubic_discriminant_results(*e),
{
    single(copy_expr(e), "Cubic discriminant: Δ = -4p³ - 27q²")
}

/// `quartic_resolvent`: Fires on `Pow`, `Equation`; returns the expression unchanged, with its justification.
pub open spec fn poly_quartic_resolvent_applies(e: Expr) -> bool {
    (e is Pow) || (e is Equation)
}

/// The results of `poly_quartic_resolvent` on `e`, each with its justification.
pub open spec fn poly_quartic_resolvent_results(e: Expr) -> Seq<(Expr, Seq<char>)> {
    one(e, "Quartic resolvent cubic"@)
}

fn poly_quartic_resolvent_applicable(e: &Expr) -> (r: bool)
    ensures
        r == poly_quartic_resolvent_applies(*e),
{
    match e {
        Expr::Pow(_, _) | Expr::Equation { .. } => true,
        _ => false,
    }
}

fn poly_quartic_resolvent_apply(e: &Expr) -> (v: Vec<RuleApplication>)
    ensures
        apps_view(v@) == poly_quartic_resolvent_results(*e),
{
    single(copy_expr(e), "Quartic resolvent cubic")
}

/// `descartes_rule`: Fires on `Add`, `Sub`, `Lte`; returns the expression unchanged, with its justification.
pub open spec fn poly_descartes_rule_applies(e: Expr) -> bool {
    (e is Add) || (e is Sub) || (e is Lte)
}

/// The results of `poly_descartes_rule` on `e`, each with its justification.
pub open spec fn poly_descartes_rule_results(e: Expr) -> Seq<(Expr, Seq<char>)> {
    one(e, "Descartes' rule: positive roots ≤ sign changes"@)
}

fn poly_descartes_rule_applicable(e: &Expr) -> (r: bool)
    ensures
        r == poly_descartes_rule_applies(*e),
{
    match e {
        Expr::Add(_, _) | Expr::Sub(_, _) | Expr::Lte(_, _) => true,
        _ => false,
    }
}

fn poly_descartes_rule_apply(e: &Expr) -> (v: Vec<RuleApplication>)
    ensures
        apps_view(v@) == poly_descartes_rule_results(*e),
{
    single(copy_expr(e), "Descartes' rule: positive roots ≤ sign changes")
}

/// `resultant_definition`: Fires on `Equation`, `Mul`; returns the expression unchanged, with its justification.
pub open spec fn poly_resultant_definition_applies(e: Expr) -> bool {
    (e is Equation) || (e is Mul)
}

/// The results of `poly_resultant_definition` on `e`, each with its justification.
pub open spec fn poly_resultant_definition_results(e: Expr) -> Seq<(Expr, Seq<char>)> {
    one(e, "Resultant: Res(f,g) = 0 iff f and g share a root"@)
}

fn poly_resultant_definition_applicable(e: &Expr) -> (r: bool)
    ensures
        r == poly_resultant_definition_applies(*e),
{
    match e {
        Expr::Equation { .. } | Expr::Mul(_, _) => true,
        _ => false,
    }
}

fn poly_resultant_definition_apply(e: &Expr) -> (v: Vec<RuleApplication>)
    ensures
        apps_view(v@) == poly_resultant_definition_results(*e),
{
    single(copy_expr(e), "Resultant: Res(f,g) = 0 iff f and g share a root")
}

/// `bezout_theorem`: Fires on `GCD`, `Add`; returns the expression unchanged, with its justification.
pub open spec fn poly_bezout_theorem_applies(e: Expr) -> bool {
    (e is GCD) || (e is Add)
}

/// The results of `poly_bezout_theorem` on `e`, each with its justification.
pub open spec fn poly_bezout_theorem_results(e: Expr) -> Seq<(Expr, Seq<char>)> {
    one(e, "Bezout's identity for polynomials: f·u + g·v = gcd(f,g)"@)
}

fn poly_bezout_theorem_applicable(e: &Expr) -> (r: bool)
    ensures
        r == poly_bezout_theorem_applies(*e),
{
    match e {
        Expr::GCD(_, _) | Expr::Add(_, _) => true,
        _ => false,
    }
}

fn poly_bezout_theorem_apply(e: &Expr) -> (v: Vec<RuleApplication>)
    ensures
        apps_view(v@) == poly_bezout_theorem_results(*e),
{
    single(copy_expr(e), "Bezout's identity for polynomials: f·u + g·v = gcd(f,g)")
}

/// `cauchy_bound`: Fires on `Abs`, `Lte`; returns the expression unchanged, with its justification.
pub open spec fn poly_cauchy_bound_applies(e: Expr) -> bool {
    (e is Abs) || (e is Lte)
}

/// The results of `poly_cauchy_bound` on `e`, each with its justification.
pub open spec fn poly_cauchy_bound_results(e: Expr) -> Seq<(Expr, Seq<char>)> {
    one(e, "Cauchy root bound: |roots| ≤ 1 + max|aᵢ/aₙ|"@)
}

fn poly_cauchy_bound_applicable(e: &Expr) -> (r: bool)
    ensures
        r == poly_cauchy_bound_applies(*e),
{
    match e {
        Expr::Abs(_) | Expr::Lte(_, _) => true,
        _ => false,
    }
}

fn poly_cauchy_bound_apply(e: &Expr) -> (v: Vec<RuleApplication>)
    ensures
        apps_view(v@) == poly_cauchy_bound_results(*e),
{
    single(copy_expr(e), "Cauchy root bound: |roots| ≤ 1 + max|aᵢ/aₙ|")
}

/// `fujiwara_bound`: Fires on `Abs`, `Lte`; returns the expression unchanged, with its justification.
pub open spec fn poly_fujiwara_bound_applies(e: Expr) -> bool {
    (e is Abs) || (e is Lte)
}

/// The results of `poly_fujiwara_bound` on `e`, each with its justification.
pub open spec fn poly_fujiwara_bound_results(e: Expr) -> Seq<(Expr, Seq<char>)> {
    one(e, "Fujiwara root bound"@)
}

fn poly_fujiwara_bound_applicable(e: &Expr) -> (r: bool)
    ensures
        r == poly_fujiwara_bound_applies(*e),
{
    match e {
        Expr::Abs(_) | Expr::Lte(_, _) => true,
        _ => false,
    }
}

fn poly_fujiwara_bound_apply(e: &Expr) -> (v: Vec<RuleApplication>)
    ensures
        apps_view(v@) == poly_fujiwara_bound_results(*e),
{
    single(copy_expr(e), "Fujiwara root bound")
}

/// `lagrange_interpolation`: Fires on no expression of this library; returns the expression unchanged, with its justification.
pub open spec fn poly_lagrange_interpolation_applies(e: Expr) -> bool {
    false
}

/// The results of `poly_lagrange_interpolation` on `e`, each with its justification.
pub open spec fn poly_lagrange_interpolation_results(e: Expr) -> Seq<(Expr, Seq<char>)> {
    one(e, "Lagrange interpolation: P(x) = Σ yᵢ Π(x-xⱼ)/(xᵢ-xⱼ)"@)
}

fn poly_lagrange_interpolation_applicable(e: &Expr) -> (r: bool)
    ensures
        r == poly_lagrange_interpolation_applies(*e),
{
    false
}

fn poly_lagrange_interpolation_apply(e: &Expr) -> (v: Vec<RuleApplication>)
    ensures
        apps_view(v@) == poly_lagrange_interpolation_results(*e),
{
    single(copy_expr(e), "Lagrange interpolation: P(x) = Σ yᵢ Π(x-xⱼ)/(xᵢ-xⱼ)")
}

/// `newton_interpolation`: Fires on `Add`, `Mul`; returns the expression unchanged, with its justification.
pub open spec fn poly_newton_interpolation_applies(e: Expr) -> bool {
    (e is Add) || (e is Mul)
}

/// The results of `poly_newton_interpolation` on `e`, each with its justification.
pub open spec fn poly_newton_interpolation_results(e: Expr) -> Seq<(Expr, Seq<char>)> {
    one(e, "Newton interpolation: divided differences form"@)
}

fn poly_newton_interpolation_applicable(e: &Expr) -> (r: bool)
    ensures
        r == poly_newton_interpolation_applies(*e),
{
    match e {
        Expr::Add(_, _) | Expr::Mul(_, _) => true,
        _ => false,
    }
}

fn poly_newton_interpolation_apply(e: &Expr) -> (v: Vec<RuleApplication>)
    ensures
        apps_view(v@) == poly_newton_interpolation_results(*e),
{
    single(copy_expr(e), "Newton interpolation: divided differences form")
}

/// `chebyshev_recurrence`: Fires on `Sub`, `Mul`; returns the expression unchanged, with its justification.
pub open spec fn poly_chebyshev_recurrence_applies(e: Expr) -> bool {
    (e is Sub) || (e is Mul)
}

/// The results of `poly_chebyshev_recurrence` on `e`, each with its justification.
pub open spec fn poly_chebyshev_recurrence_results(e: Expr) -> Seq<(Expr, Seq<char>)> {
    one(e, "Chebyshev recurrence: T_{n+1} = 2xT_n - T_{n-1}"@)
}

fn poly_chebyshev_recurrence_applicable(e: &Expr) -> (r: bool)
    ensures
        r == poly_chebyshev_recurrence_applies(*e),
{
    match e {
        Expr::Sub(_, _) | Expr::Mul(_, _) => true,
        _ => false,
    }
}

fn poly_chebyshev_recurrence_apply(e: &Expr) -> (v: Vec<RuleApplication>)
    ensures
        apps_view(v@) == poly_chebyshev_recurrence_results(*e),
{
    single(copy_expr(e), "Chebyshev recurrence: T_{n+1} = 2xT_n - T_{n-1}")
}

/// `hermite_recurrence`: Fires on `Sub`, `Mul`; returns the expression unchanged, with its justification.
pub open spec fn poly_hermite_recurrence_applies(e: Expr) -> bool {
    (e is Sub) || (e is Mul)
}

/// The results of `poly_hermite_recurrence` on `e`, each with its justification.
pub open spec fn poly_hermite_recurrence_results(e: Expr) -> Seq<(Expr, Seq<char>)> {
    one(e, "Hermite recurrence: H_{n+1} = 2xH_n - 2nH_{n-1}"@)
}

fn poly_hermite_recurrence_applicable(e: &Expr) -> (r: bool)
    ensures
        r == poly_hermite_recurrence_applies(*e),
{
    match e {
        Expr::Sub(_, _) | Expr::Mul(_, _) => true,
        _ => false,
    }
}

fn poly_hermite_recurrence_apply(e: &Expr) -> (v: Vec<RuleApplication>)
    ensures
        apps_view(v@) == poly_hermite_recurrence_results(*e),
{
    single(copy_expr(e), "Hermite recurrence: H_{n+1} = 2xH_n - 2nH_{n-1}")
}

/// `legendre_recurrence`: Fires on `Sub`, `Mul`; returns the expression unchanged, with its justification.
pub open spec fn poly_legendre_recurrence_applies(e: Expr) -> bool {
    (e is Sub) || (e is Mul)
}

/// The results of `poly_legendre_recurrence` on `e`, each with its justification.
pub open spec fn poly_legendre_recurrence_results(e: Expr) -> Seq<(Expr, Seq<char>)> {
    one(e, "Legendre recurrence: (n+1)P_{n+1} = (2n+1)xP_n - nP_{n-1}"@)
}

fn poly_legendre_recurrence_applicable(e: &Expr) -> (r: bool)
    ensures
        r == poly_legendre_recurrence_applies(*e),
{
    match e {
        Expr::Sub(_, _) | Expr::Mul(_, _) => true,
        _ => false,
    }
}

fn poly_legendre_recurrence_apply(e: &Expr) -> (v: Vec<RuleApplication>)
    ensures
        apps_view(v@) == poly_legendre_recurrence_results(*e),
{
    single(copy_expr(e), "Legendre recurrence: (n+1)P_{n+1} = (2n+1)xP_n - nP_{n-1}")
}

/// `laguerre_recurrence`: Fires on `Sub`, `Mul`; returns the expression unchanged, with its justification.
pub open spec fn poly_laguerre_recurrence_applies(e: Expr) -> bool {
    (e is Sub) || (e is Mul)
}

/// The results of `poly_laguerre_recurrence` on `e`, each with its justification.
pub open spec fn poly_laguerre_recurrence_results(e: Expr) -> Seq<(Expr, Seq<char>)> {
    one(e, "Laguerre recurrence: L_{n+1} = (2n+1-x)L_n - n²L_{n-1}"@)
}

fn poly_laguerre_recurrence_applicable(e: &Expr) -> (r: bool)
    ensures
        r == poly_laguerre_recurrence_applies(*e),
{
    match e {
        Expr::Sub(_, _) | Expr::Mul(_, _) => true,
        _ => false,
    }
}

fn poly_laguerre_recurrence_apply(e: &Expr) -> (v: Vec<RuleApplication>)
    ensures
        apps_view(v@) == poly_laguerre_recurrence_results(*e),
{
    single(copy_expr(e), "Laguerre recurrence: L_{n+1} = (2n+1-x)L_n - n²L_{n-1}")
}

// ---------------------------------------------------------------------------
// Dispatch
// ---------------------------------------------------------------------------

/// The behaviour of a rule, named after the rule.
#[derive(Debug, Clone, Copy, PartialEq, Eq, Structural)]
pub enum Rewrite {
    DividesZero,
    DividesSelf,
    EvenSum,
    DivBy2,
    CancelCommonFactor,
    MulByDenom,
    DiffSquaresFactor,
    DiffCubesFactor,
    SumCubesFactor,
    SquareBinomialExpand,
    SquareBinomialSubExpand,
    GcdSelf,
    GcdZero,
    GcdOne,
    LcmSelf,
    LcmOne,
    GcdLcmProduct,
    SumConstant,
    SumArithmetic,
    SumSquares,
    SumCubes,
    GeometricSum,
    BinomialZero,
    BinomialFull,
    BinomialSum,
    BinomialTheorem,
    Pigeonhole,
    AmGm2,
    SumSquaresGeProduct,
    SumThreeSquares,
    ReciprocalSumGe2,
    AmGm3,
    AbsNonneg,
    AbsProduct,
    AbsQuotient,
    AbsNeg,
    AbsAbs,
    AbsSquared,
    SumSquaresSym,
    CompleteSquare,
    DiffNthPower,
    DiffCubes,
    PolySumCubes,
    CyclotomicFactor,
    BinomialFactor,
    CombBinomialOne,
    CombBinomialSymmetry,
    CombPascalIdentity,
    CombHockeyStick,
    CombVandermonde,
    CombCountingRulesPermutationFormula,
    CombCombinationFormula,
    CombPigeonholeGen,
    CombCountingRulesInclusionExclusion2,
    CombCountingRulesInclusionExclusion3,
    CombDerangement,
    CombCatalan,
    CombFibonacciRecurrence,
    CombBinetFormula,
    CombLinearRecurrence,
    CombDerangementFormula,
    CombDerangementRecurrence,
    CombCatalanFormula,
    CombCatalanRecurrence,
    CombStirlingFirstRecurrence,
    CombStirlingSecondRecurrence,
    CombPartitionRecurrence,
    CombHockeyStickIdentity,
    CombVandermondeIdentity,
    CombChuVandermonde,
    CombMultinomialTheorem,
    CombStarsAndBars,
    CombInclusionExclusion2InclusionExclusion2,
    CombInclusionExclusion3InclusionExclusion3,
    CombDoubleCounting,
    CombOrdinaryGf,
    CombExponentialGf,
    CombPermutationFormulaPermutationFormula,
    CombCircularPermutation,
    CombDerangementAsymptotic,
    CombFibonacciAddition,
    CombFibonacciGcd,
    CombLucasNumbers,
    CombBellNumberRecurrence,
    CombSubfactorial,
    CombChristmasStocking,
    CombRisingFactorial,
    CombFallingFactorial,
    CombLegendreFormula,
    CombKummerTheorem,
    CombBurnsideLemma,
    CombPolyaEnumeration,
    CombPartitionIntoParts,
    CombPatternAvoidance,
    CombDerangementSimpleRecurrence,
    IneqPositiveSquareRoot,
    IneqExpPositivity,
    NtChebyshevPrimeBounds,
    NtTotientSum,
    NtPrimitiveRootCount,
    NtCarmichaelFunction,
    NtPrimeGapBound,
    NtQuadraticReciprocity,
    NtJacobiSymbol,
    NtKroneckerSymbol,
    NtTonelliShanks,
    NtDiscreteLogOrder,
    NtContinuedFractionGcd,
    NtSternBrocot,
    NtEgyptianFraction,
    NtGaussianPrime,
    PolyVietaSumQuadratic,
    PolyVietaProductQuadratic,
    PolyVietaSumCubic,
    PolyVietaPairsCubic,
    PolyVietaProductCubic,
    PolyElementarySym1,
    PolyElementarySym2,
    PolyNewtonIdentity1,
    PolyNewtonIdentity2,
    PolyNewtonIdentity3,
    PolySumCubesSym,
    PolySumThreeCubes,
    PolyFactorTheorem,
    PolyRemainderTheorem,
    PolyPolyDivIdentity,
    PolySophieGermain,
    PolyFactorByGrouping,
    PolySumOddPowers,
    PolyDiffEvenPowers,
    PolyQuadraticSubstitution,
    PolySymmetricFactor,
    PolyPartialFractions,
    PolyHornerMethod,
    PolySyntheticDivision,
    PolyPolynomialLongDivision,
    PolyRuffiniRule,
    PolyRationalRootTheorem,
    PolyIntegerRoot,
    PolyQuadraticFormula,
    PolyDiscriminantSign,
    PolyDiscriminantPerfectSquare,
    PolyCardanoFormula,
    PolyCubicDiscriminant,
    PolyQuarticResolvent,
    PolyDescartesRule,
    PolyResultantDefinition,
    PolyBezoutTheorem,
    PolyCauchyBound,
    PolyFujiwaraBound,
    PolyLagrangeInterpolation,
    PolyNewtonInterpolation,
    PolyChebyshevRecurrence,
    PolyHermiteRecurrence,
    PolyLegendreRecurrence,
    PolyLaguerreRecurrence,
    PowerRule,
    ConstantRule,
    SumRule,
    ProductRule,
    QuotientRule,
    SinChainRule,
    CosChainRule,
    ExpDerivative,
    LnDerivative,
    ChainRuleTan,
    ChainRuleExp,
    ChainRuleLn,
    InverseTrigDerivArcsin,
    DiffRule,
    ConstantMultipleRule,
    ConstantBaseExpSimple,
    ConstantBaseExpChain,
    SqrtChainRule,
    GeneralPowerRule,
    LogBaseSimple,
    LogBaseChain,
    SecDerivative,
    CscDerivative,
    CotDerivative,
    ArcsinDerivative,
    ArccosDerivative,
    ArctanDerivative,
    ArccotDerivative,
    ArcsecDerivative,
    ArccscDerivative,
    Inert,
    IntegralPower,
    IntegralInvA2PlusX2,
    IntegralConstantMultiple,
    IntegralConstant,
    IntegralSum,
    IntegralDifference,
    IntegralExp,
    IntegralLn,
    IntegralSin,
    IntegralCos,
    IntegralTan,
    IntegralSec2,
    IntegralCsc2,
    IntegrationByParts,
    USubstitution,
    PartialFractions,
    TrigSubstitution,
    IntegralCot,
    IntegralSec,
    IntegralCsc,
    IntegralSecTan,
    IntegralInvSqrtA2MinusX2,
    IntegralInvXSqrtX2MinusA2,
    IntegralXSin,
    IntegralXCos,
    IntegralLnX,
    IntegralXExpAx,
    IntegralXOverX2PlusA2,
    IntegralXOverX2MinusA2,
    IntegralExpAx,
    IntegralOneOverX2MinusA2,
    IntegralSinSquared,
    IntegralCosSquared,
    IntegralTanSquared,
    IntegralSecCubed,
    IntegralX2Sin,
    IntegralX2Cos,
    IntegralExpSin,
    IntegralExpCos,
    IntegralSqrtA2MinusX2,
    IntegralSqrtX2PlusA2,
    IntegralSqrtX2MinusA2,
    IntegralXSqrtA2MinusX2,
    IntegralInvSqrtX2PlusA2,
    IntegralInvSqrtX2MinusA2,
    IntegralXOverSqrtX2PlusA2,
    PowerIntegral,
    OneOverXIntegral,
    ConstantMultipleIntegral,
    ConstantIntegral,
    SumIntegral,
    DifferenceIntegral,
    SinIntegral,
    CosIntegral,
    ExpIntegral,
    IsolateVariable,
    CancelAddition,
    CancelSubtraction,
    CancelMultiplication,
    CancelDivision,
    LinearSolve,
    QuadraticFormula,
    BernoulliInequality,
    QmAmInequality,
    HmGmInequality,
    AbsProductSplit,
    AbsPower,
    BothSides,
    SqrtComparison,
    LnComparison,
    ExpMonotonic,
    LnMonotonic,
    FermatLittleTheorem,
    FermatLastTheorem,
    PrimeCountingApprox,
    LinearDiophantine,
    PellEquation,
    SumOfDivisors,
    NumberOfDivisors,
    EulerTheorem,
    EulerPhiMultiplicative,
    EulerPhiPrimePower,
    ChineseRemainderTheorem,
    QuadraticResidue,
    LegendreSymbolMultiplicative,
    EulerCriterion,
    BertrandPostulate,
    SumOfTwoSquares,
    SumOfFourSquares,
    WilsonTheorem,
    HenselLemma,
    OrderDividesPhi,
    PrimitiveRootExistence,
    MobiusMultiplicative,
    EvenPerfectNumber,
    MersennePrimeCondition,
    SquareFreeDensity,
    SophieGermainPrime,
    FareyNeighbors,
    GaussianNorm,
    MobiusInversion,
    BinomialWeightedSum,
    FibonacciGeneratingFunction,
    BinomialSum2n,
    PermutationWithRepetition,
    MultinomialCoefficient,
    LucasBinomialMod,
    CatalanAlternative,
    PigeonholePrinciple,
    CombinationWithRepetition,
    BinomialSquaresSum,
    BinomialAlternatingSum,
    SturmSequence,
    GaussLucasTheorem,
    ModSelf,
    FloorInteger,
    CeilingInteger,
    FloorCeilingDiff,
    SquareZero,
    ZeroMod,
    ModOne,
    SqrtSquare,
    SquareSqrt,
    SqrtProduct,
    SqrtQuotient,
    HalfPowerSqrt,
    NegOneEvenPower,
    NegOneOddPower,
    NegSquared,
    FactorialZero,
    FactorialOne,
    FactorialRecurse,
    LegendreFormula,
    LucasTheorem,
    CauchySchwarz2,
    TriangleIneq,
    ReverseTriangle,
    SquareNonneg,
    DiffSquaredGeZero,
    TitusLemma,
    DistanceFormula,
    ParabolaTangentParametric,
    ParabolaNormalParametric,
    ParabolaFocalChordReciprocal,
    ParabolaChordOfContact,
    EllipseTangentParametric,
    EllipseEccentricity,
    EllipseDirectorCircle,
    EllipseAuxiliaryCircle,
    EllipseFocalSum,
    HyperbolaAsymptotes,
    HyperbolaEccentricity,
    HyperbolaRectangular,
    HyperbolaFocalDifference,
    HyperbolaConjugate,
    CircleTangentAtPoint,
    CirclePowerOfPoint,
    CircleTangentLength,
    SectionFormulaInternal,
    TriangleAreaCoordinates,
    CollinearityCondition,
    TriangleCentroid,
}

/// Whether rewrite `r` fires on `e` when the search targets `target`.
pub open spec fn applies(r: Rewrite, e: Expr, target: Option<Symbol>) -> bool {
    match r {
        Rewrite::DividesZero => divides_zero_applies(e),
        Rewrite::DividesSelf => divides_self_applies(e),
        Rewrite::EvenSum => even_sum_applies(e),
        Rewrite::DivBy2 => div_by_2_applies(e),
        Rewrite::CancelCommonFactor => cancel_common_factor_applies(e),
        Rewrite::MulByDenom => mul_by_denom_applies(e),
        Rewrite::DiffSquaresFactor => diff_squares_factor_applies(e),
        Rewrite::DiffCubesFactor => diff_cubes_factor_applies(e),
        Rewrite::SumCubesFactor => sum_cubes_factor_applies(e),
        Rewrite::SquareBinomialExpand => square_binomial_expand_applies(e),
        Rewrite::SquareBinomialSubExpand => square_binomial_sub_expand_applies(e),
        Rewrite::GcdSelf => gcd_self_applies(e),
        Rewrite::GcdZero => gcd_zero_applies(e),
        Rewrite::GcdOne => gcd_one_applies(e),
        Rewrite::LcmSelf => lcm_self_applies(e),
        Rewrite::LcmOne => lcm_one_applies(e),
        Rewrite::GcdLcmProduct => gcd_lcm_product_applies(e),
        Rewrite::SumConstant => sum_constant_applies(e),
        Rewrite::SumArithmetic => sum_arithmetic_applies(e),
        Rewrite::SumSquares => sum_squares_applies(e),
        Rewrite::SumCubes => sum_cubes_applies(e),
        Rewrite::GeometricSum => geometric_sum_applies(e),
        Rewrite::BinomialZero => binomial_zero_applies(e),
        Rewrite::BinomialFull => binomial_full_applies(e),
        Rewrite::BinomialSum => binomial_sum_applies(e),
        Rewrite::BinomialTheorem => binomial_theorem_applies(e),
        Rewrite::Pigeonhole => pigeonhole_applies(e),
        Rewrite::AmGm2 => am_gm_2_applies(e),
        Rewrite::SumSquaresGeProduct => sum_squares_ge_product_applies(e),
        Rewrite::SumThreeSquares => sum_three_squares_applies(e),
        Rewrite::ReciprocalSumGe2 => reciprocal_sum_ge_2_applies(e),
        Rewrite::AmGm3 => am_gm_3_applies(e),
        Rewrite::AbsNonneg => abs_nonneg_applies(e),
        Rewrite::AbsProduct => abs_product_applies(e),
        Rewrite::AbsQuotient => abs_quotient_applies(e),
        Rewrite::AbsNeg => abs_neg_applies(e),
        Rewrite::AbsAbs => abs_abs_applies(e),
        Rewrite::AbsSquared => abs_squared_applies(e),
        Rewrite::SumSquaresSym => sum_squares_sym_applies(e),
        Rewrite::CompleteSquare => complete_square_applies(e),
        Rewrite::DiffNthPower => diff_nth_power_applies(e),
        Rewrite::DiffCubes => diff_cubes_applies(e),
        Rewrite::PolySumCubes => poly_sum_cubes_applies(e),
        Rewrite::CyclotomicFactor => cyclotomic_factor_applies(e),
        Rewrite::BinomialFactor => binomial_factor_applies(e),
        Rewrite::CombBinomialOne => comb_binomial_one_applies(e),
        Rewrite::CombBinomialSymmetry => comb_binomial_symmetry_applies(e),
        Rewrite::CombPascalIdentity => comb_pascal_identity_applies(e),
        Rewrite::CombHockeyStick => comb_hockey_stick_applies(e),
        Rewrite::CombVandermonde => comb_vandermonde_applies(e),
        Rewrite::CombCountingRulesPermutationFormula => comb_counting_rules_permutation_formula_applies(e),
        Rewrite::CombCombinationFormula => comb_combination_formula_applies(e),
        Rewrite::CombPigeonholeGen => comb_pigeonhole_gen_applies(e),
        Rewrite::CombCountingRulesInclusionExclusion2 => comb_counting_rules_inclusion_exclusion_2_applies(e),
        Rewrite::CombCountingRulesInclusionExclusion3 => comb_counting_rules_inclusion_exclusion_3_applies(e),
        Rewrite::CombDerangement => comb_derangement_applies(e),
        Rewrite::CombCatalan => comb_catalan_applies(e),
        Rewrite::CombFibonacciRecurrence => comb_fibonacci_recurrence_applies(e),
        Rewrite::CombBinetFormula => comb_binet_formula_applies(e),
        Rewrite::CombLinearRecurrence => comb_linear_recurrence_applies(e),
        Rewrite::CombDerangementFormula => comb_derangement_formula_applies(e),
        Rewrite::CombDerangementRecurrence => comb_derangement_recurrence_applies(e),
        Rewrite::CombCatalanFormula => comb_catalan_formula_applies(e),
        Rewrite::CombCatalanRecurrence => comb_catalan_recurrence_applies(e),
        Rewrite::CombStirlingFirstRecurrence => comb_stirling_first_recurrence_applies(e),
        Rewrite::CombStirlingSecondRecurrence => comb_stirling_second_recurrence_applies(e),
        Rewrite::CombPartitionRecurrence => comb_partition_recurrence_applies(e),
        Rewrite::CombHockeyStickIdentity => comb_hockey_stick_identity_applies(e),
        Rewrite::CombVandermondeIdentity => comb_vandermonde_identity_applies(e),
        Rewrite::CombChuVandermonde => comb_chu_vandermonde_applies(e),
        Rewrite::CombMultinomialTheorem => comb_multinomial_theorem_applies(e),
        Rewrite::CombStarsAndBars => comb_stars_and_bars_applies(e),
        Rewrite::CombInclusionExclusion2InclusionExclusion2 => comb_inclusion_exclusion_2_inclusion_exclusion_2_applies(e),
        Rewrite::CombInclusionExclusion3InclusionExclusion3 => comb_inclusion_exclusion_3_inclusion_exclusion_3_applies(e),
        Rewrite::CombDoubleCounting => comb_double_counting_applies(e),
        Rewrite::CombOrdinaryGf => comb_ordinary_gf_applies(e),
        Rewrite::CombExponentialGf => comb_exponential_gf_applies(e),
        Rewrite::CombPermutationFormulaPermutationFormula => comb_permutation_formula_permutation_formula_applies(e),
        Rewrite::CombCircularPermutation => comb_circular_permutation_applies(e),
        Rewrite::CombDerangementAsymptotic => comb_derangement_asymptotic_applies(e),
        Rewrite::CombFibonacciAddition => comb_fibonacci_addition_applies(e),
        Rewrite::CombFibonacciGcd => comb_fibonacci_gcd_applies(e),
        Rewrite::CombLucasNumbers => comb_lucas_numbers_applies(e),
        Rewrite::CombBellNumberRecurrence => comb_bell_number_recurrence_applies(e),
        Rewrite::CombSubfactorial => comb_subfactorial_applies(e),
        Rewrite::CombChristmasStocking => comb_christmas_stocking_applies(e),
        Rewrite::CombRisingFactorial => comb_rising_factorial_applies(e),
        Rewrite::CombFallingFactorial => comb_falling_factorial_applies(e),
        Rewrite::CombLegendreFormula => comb_legendre_formula_applies(e),
        Rewrite::CombKummerTheorem => comb_kummer_theorem_applies(e),
        Rewrite::CombBurnsideLemma => comb_burnside_lemma_applies(e),
        Rewrite::CombPolyaEnumeration => comb_polya_enumeration_applies(e),
        Rewrite::CombPartitionIntoParts => comb_partition_into_parts_applies(e),
        Rewrite::CombPatternAvoidance => comb_pattern_avoidance_applies(e),
        Rewrite::CombDerangementSimpleRecurrence => comb_derangement_simple_recurrence_applies(e),
        Rewrite::IneqPositiveSquareRoot => ineq_positive_square_root_applies(e),
        Rewrite::IneqExpPositivity => ineq_exp_positivity_applies(e),
        Rewrite::NtChebyshevPrimeBounds => nt_chebyshev_prime_bounds_applies(e),
        Rewrite::NtTotientSum => nt_totient_sum_applies(e),
        Rewrite::NtPrimitiveRootCount => nt_primitive_root_count_applies(e),
        Rewrite::NtCarmichaelFunction => nt_carmichael_function_applies(e),
        Rewrite::NtPrimeGapBound => nt_prime_gap_bound_applies(e),
        Rewrite::NtQuadraticReciprocity => nt_quadratic_reciprocity_applies(e),
        Rewrite::NtJacobiSymbol => nt_jacobi_symbol_applies(e),
        Rewrite::NtKroneckerSymbol => nt_kronecker_symbol_applies(e),
        Rewrite::NtTonelliShanks => nt_tonelli_shanks_applies(e),
        Rewrite::NtDiscreteLogOrder => nt_discrete_log_order_applies(e),
        Rewrite::NtContinuedFractionGcd => nt_continued_fraction_gcd_applies(e),
        Rewrite::NtSternBrocot => nt_stern_brocot_applies(e),
        Rewrite::NtEgyptianFraction => nt_egyptian_fraction_applies(e),
        Rewrite::NtGaussianPrime => nt_gaussian_prime_applies(e),
        Rewrite::PolyVietaSumQuadratic => poly_vieta_sum_quadratic_applies(e),
        Rewrite::PolyVietaProductQuadratic => poly_vieta_product_quadratic_applies(e),
        Rewrite::PolyVietaSumCubic => poly_vieta_sum_cubic_applies(e),
        Rewrite::PolyVietaPairsCubic => poly_vieta_pairs_cubic_applies(e),
        Rewrite::PolyVietaProductCubic => poly_vieta_product_cubic_applies(e),
        Rewrite::PolyElementarySym1 => poly_elementary_sym_1_applies(e),
        Rewrite::PolyElementarySym2 => poly_elementary_sym_2_applies(e),
        Rewrite::PolyNewtonIdentity1 => poly_newton_identity_1_applies(e),
        Rewrite::PolyNewtonIdentity2 => poly_newton_identity_2_applies(e),
        Rewrite::PolyNewtonIdentity3 => poly_newton_identity_3_applies(e),
        Rewrite::PolySumCubesSym => poly_sum_cubes_sym_applies(e),
        Rewrite::PolySumThreeCubes => poly_sum_three_cubes_applies(e),
        Rewrite::PolyFactorTheorem => poly_factor_theorem_applies(e),
        Rewrite::PolyRemainderTheorem => poly_remainder_theorem_applies(e),
        Rewrite::PolyPolyDivIdentity => poly_poly_div_identity_applies(e),
        Rewrite::PolySophieGermain => poly_sophie_germain_applies(e),
        Rewrite::PolyFactorByGrouping => poly_factor_by_grouping_applies(e),
        Rewrite::PolySumOddPowers => poly_sum_odd_powers_applies(e),
        Rewrite::PolyDiffEvenPowers => poly_diff_even_powers_applies(e),
        Rewrite::PolyQuadraticSubstitution => poly_quadratic_substitution_applies(e),
        Rewrite::PolySymmetricFactor => poly_symmetric_factor_applies(e),
        Rewrite::PolyPartialFractions => poly_partial_fractions_applies(e),
        Rewrite::PolyHornerMethod => poly_horner_method_applies(e),
        Rewrite::PolySyntheticDivision => poly_synthetic_division_applies(e),
        Rewrite::PolyPolynomialLongDivision => poly_polynomial_long_division_applies(e),
        Rewrite::PolyRuffiniRule => poly_ruffini_rule_applies(e),
        Rewrite::PolyRationalRootTheorem => poly_rational_root_theorem_applies(e),
        Rewrite::PolyIntegerRoot => poly_integer_root_applies(e),
        Rewrite::PolyQuadraticFormula => poly_quadratic_formula_applies(e),
        Rewrite::PolyDiscriminantSign => poly_discriminant_sign_applies(e),
        Rewrite::PolyDiscriminantPerfectSquare => poly_discriminant_perfect_square_applies(e),
        Rewrite::PolyCardanoFormula => poly_cardano_formula_applies(e),
        Rewrite::PolyCubicDiscriminant => poly_cubic_discriminant_applies(e),
        Rewrite::PolyQuarticResolvent => poly_quartic_resolvent_applies(e),
        Rewrite::PolyDescartesRule => poly_descartes_rule_applies(e),
        Rewrite::PolyResultantDefinition => poly_resultant_definition_applies(e),
        Rewrite::PolyBezoutTheorem => poly_bezout_theorem_applies(e),
        Rewrite::PolyCauchyBound => poly_cauchy_bound_applies(e),
        Rewrite::PolyFujiwaraBound => poly_fujiwara_bound_applies(e),
        Rewrite::PolyLagrangeInterpolation => poly_lagrange_interpolation_applies(e),
        Rewrite::PolyNewtonInterpolation => poly_newton_interpolation_applies(e),
        Rewrite::PolyChebyshevRecurrence => poly_chebyshev_recurrence_applies(e),
        Rewrite::PolyHermiteRecurrence => poly_hermite_recurrence_applies(e),
        Rewrite::PolyLegendreRecurrence => poly_legendre_recurrence_applies(e),
        Rewrite::PolyLaguerreRecurrence => poly_laguerre_recurrence_applies(e),
        Rewrite::PowerRule => crate::rewrite_derivative::power_rule_applies(e),
        Rewrite::ConstantRule => crate::rewrite_derivative::constant_rule_applies(e),
        Rewrite::SumRule => crate::rewrite_derivative::sum_rule_applies(e),
        Rewrite::ProductRule => crate::rewrite_derivative::product_rule_applies(e),
        Rewrite::QuotientRule => crate::rewrite_derivative::quotient_rule_applies(e),
        Rewrite::SinChainRule => crate::rewrite_derivative::sin_chain_rule_applies(e),
        Rewrite::CosChainRule => crate::rewrite_derivative::cos_chain_rule_applies(e),
        Rewrite::ExpDerivative => crate::rewrite_derivative::exp_derivative_applies(e),
        Rewrite::LnDerivative => crate::rewrite_derivative::ln_derivative_applies(e),
        Rewrite::ChainRuleTan => crate::rewrite_derivative::chain_rule_tan_applies(e, target),
        Rewrite::ChainRuleExp => crate::rewrite_derivative::chain_rule_exp_applies(e, target),
        Rewrite::ChainRuleLn => crate::rewrite_derivative::chain_rule_ln_applies(e, target),
        Rewrite::InverseTrigDerivArcsin => crate::rewrite_derivative::inverse_trig_deriv_arcsin_applies(e, target),
        Rewrite::DiffRule => crate::rewrite_derivative::diff_rule_applies(e, target),
        Rewrite::ConstantMultipleRule => crate::rewrite_derivative::constant_multiple_rule_applies(e, target),
        Rewrite::ConstantBaseExpSimple => crate::rewrite_derivative::constant_base_exp_simple_applies(e),
        Rewrite::ConstantBaseExpChain => crate::rewrite_derivative::constant_base_exp_chain_applies(e),
        Rewrite::SqrtChainRule => crate::rewrite_derivative::sqrt_chain_rule_applies(e),
        Rewrite::GeneralPowerRule => crate::rewrite_derivative::general_power_rule_applies(e),
        Rewrite::LogBaseSimple => crate::rewrite_derivative::log_base_simple_applies(e),
        Rewrite::LogBaseChain => crate::rewrite_derivative::log_base_chain_applies(e),
        Rewrite::SecDerivative => crate::rewrite_derivative::sec_derivative_applies(e),
        Rewrite::CscDerivative => crate::rewrite_derivative::csc_derivative_applies(e),
        Rewrite::CotDerivative => crate::rewrite_derivative::cot_derivative_applies(e),
        Rewrite::ArcsinDerivative => crate::rewrite_derivative::arcsin_derivative_applies(e),
        Rewrite::ArccosDerivative => crate::rewrite_derivative::arccos_derivative_applies(e),
        Rewrite::ArctanDerivative => crate::rewrite_derivative::arctan_derivative_applies(e),
        Rewrite::ArccotDerivative => crate::rewrite_derivative::arccot_derivative_applies(e),
        Rewrite::ArcsecDerivative => crate::rewrite_derivative::arcsec_derivative_applies(e),
        Rewrite::ArccscDerivative => crate::rewrite_derivative::arccsc_derivative_applies(e),
        Rewrite::Inert => crate::rewrite_integral::inert_applies(e),
        Rewrite::IntegralPower => crate::rewrite_integral::integral_power_applies(e),
        Rewrite::IntegralInvA2PlusX2 => crate::rewrite_integral::integral_inv_a2_plus_x2_applies(e),
        Rewrite::IntegralConstantMultiple => crate::rewrite_integral::integral_constant_multiple_applies(e),
        Rewrite::IntegralConstant => crate::rewrite_integral::integral_constant_applies(e),
        Rewrite::IntegralSum => crate::rewrite_integral::integral_sum_applies(e),
        Rewrite::IntegralDifference => crate::rewrite_integral::integral_difference_applies(e),
        Rewrite::IntegralExp => crate::rewrite_integral::integral_exp_applies(e),
        Rewrite::IntegralLn => crate::rewrite_integral::integral_ln_applies(e),
        Rewrite::IntegralSin => crate::rewrite_integral::integral_sin_applies(e),
        Rewrite::IntegralCos => crate::rewrite_integral::integral_cos_applies(e),
        Rewrite::IntegralTan => crate::rewrite_integral::integral_tan_applies(e),
        Rewrite::IntegralSec2 => crate::rewrite_integral::integral_sec2_applies(e),
        Rewrite::IntegralCsc2 => crate::rewrite_integral::integral_csc2_applies(e),
        Rewrite::IntegrationByParts => crate::rewrite_integral::integration_by_parts_applies(e),
        Rewrite::USubstitution => crate::rewrite_integral::u_substitution_applies(e),
        Rewrite::PartialFractions => crate::rewrite_integral::partial_fractions_applies(e),
        Rewrite::TrigSubstitution => crate::rewrite_integral::trig_substitution_applies(e),
        Rewrite::IntegralCot => crate::rewrite_integral::integral_cot_applies(e),
        Rewrite::IntegralSec => crate::rewrite_integral::integral_sec_applies(e),
        Rewrite::IntegralCsc => crate::rewrite_integral::integral_csc_applies(e),
        Rewrite::IntegralSecTan => crate::rewrite_integral::integral_sec_tan_applies(e),
        Rewrite::IntegralInvSqrtA2MinusX2 => crate::rewrite_integral::integral_inv_sqrt_a2_minus_x2_applies(e),
        Rewrite::IntegralInvXSqrtX2MinusA2 => crate::rewrite_integral::integral_inv_x_sqrt_x2_minus_a2_applies(e),
        Rewrite::IntegralXSin => crate::rewrite_integral::integral_x_sin_applies(e),
        Rewrite::IntegralXCos => crate::rewrite_integral::integral_x_cos_applies(e),
        Rewrite::IntegralLnX => crate::rewrite_integral::integral_ln_x_applies(e),
        Rewrite::IntegralXExpAx => crate::rewrite_integral::integral_x_exp_ax_applies(e),
        Rewrite::IntegralXOverX2PlusA2 => crate::rewrite_integral::integral_x_over_x2_plus_a2_applies(e),
        Rewrite::IntegralXOverX2MinusA2 => crate::rewrite_integral::integral_x_over_x2_minus_a2_applies(e),
        Rewrite::IntegralExpAx => crate::rewrite_integral::integral_exp_ax_applies(e),
        Rewrite::IntegralOneOverX2MinusA2 => crate::rewrite_integral::integral_one_over_x2_minus_a2_applies(e),
        Rewrite::IntegralSinSquared => crate::rewrite_integral::integral_sin_squared_applies(e),
        Rewrite::IntegralCosSquared => crate::rewrite_integral::integral_cos_squared_applies(e),
        Rewrite::IntegralTanSquared => crate::rewrite_integral::integral_tan_squared_applies(e),
        Rewrite::IntegralSecCubed => crate::rewrite_integral::integral_sec_cubed_applies(e),
        Rewrite::IntegralX2Sin => crate::rewrite_integral::integral_x2_sin_applies(e),
        Rewrite::IntegralX2Cos => crate::rewrite_integral::integral_x2_cos_applies(e),
        Rewrite::IntegralExpSin => crate::rewrite_integral::integral_exp_sin_applies(e),
        Rewrite::IntegralExpCos => crate::rewrite_integral::integral_exp_cos_applies(e),
        Rewrite::IntegralSqrtA2MinusX2 => crate::rewrite_integral::integral_sqrt_a2_minus_x2_applies(e),
        Rewrite::IntegralSqrtX2PlusA2 => crate::rewrite_integral::integral_sqrt_x2_plus_a2_applies(e),
        Rewrite::IntegralSqrtX2MinusA2 => crate::rewrite_integral::integral_sqrt_x2_minus_a2_applies(e),
        Rewrite::IntegralXSqrtA2MinusX2 => crate::rewrite_integral::integral_x_sqrt_a2_minus_x2_applies(e),
        Rewrite::IntegralInvSqrtX2PlusA2 => crate::rewrite_integral::integral_inv_sqrt_x2_plus_a2_applies(e),
        Rewrite::IntegralInvSqrtX2MinusA2 => crate::rewrite_integral::integral_inv_sqrt_x2_minus_a2_applies(e),
        Rewrite::IntegralXOverSqrtX2PlusA2 => crate::rewrite_integral::integral_x_over_sqrt_x2_plus_a2_applies(e),
        Rewrite::PowerIntegral => crate::rewrite_integration::power_integral_applies(e),
        Rewrite::OneOverXIntegral => crate::rewrite_integration::one_over_x_integral_applies(e),
        Rewrite::ConstantMultipleIntegral => crate::rewrite_integration::constant_multiple_integral_applies(e),
        Rewrite::ConstantIntegral => crate::rewrite_integration::constant_integral_applies(e),
        Rewrite::SumIntegral => crate::rewrite_integration::sum_integral_applies(e),
        Rewrite::DifferenceIntegral => crate::rewrite_integration::difference_integral_applies(e),
        Rewrite::SinIntegral => crate::rewrite_integration::sin_integral_applies(e),
        Rewrite::CosIntegral => crate::rewrite_integration::cos_integral_applies(e),
        Rewrite::ExpIntegral => crate::rewrite_integration::exp_integral_applies(e),
        Rewrite::IsolateVariable => crate::rewrite_equation::isolate_variable_applies(e),
        Rewrite::CancelAddition => crate::rewrite_equation::cancel_addition_applies(e),
        Rewrite::CancelSubtraction => crate::rewrite_equation::cancel_subtraction_applies(e),
        Rewrite::CancelMultiplication => crate::rewrite_equation::cancel_multiplication_applies(e),
        Rewrite::CancelDivision => crate::rewrite_equation::cancel_division_applies(e),
        Rewrite::LinearSolve => crate::rewrite_equation::linear_solve_applies(e),
        Rewrite::QuadraticFormula => crate::rewrite_equation::quadratic_formula_applies(e),
        Rewrite::BernoulliInequality => crate::rewrite_inequality::bernoulli_inequality_applies(e),
        Rewrite::QmAmInequality => crate::rewrite_inequality::qm_am_inequality_applies(e),
        Rewrite::HmGmInequality => crate::rewrite_inequality::hm_gm_inequality_applies(e),
        Rewrite::AbsProductSplit => crate::rewrite_inequality::abs_product_split_applies(e),
        Rewrite::AbsPower => crate::rewrite_inequality::abs_power_applies(e),
        Rewrite::BothSides => crate::rewrite_inequality::both_sides_applies(e),
        Rewrite::SqrtComparison => crate::rewrite_inequality::sqrt_comparison_applies(e),
        Rewrite::LnComparison => crate::rewrite_inequality::ln_comparison_applies(e),
        Rewrite::ExpMonotonic => crate::rewrite_inequality::exp_monotonic_applies(e),
        Rewrite::LnMonotonic => crate::rewrite_inequality::ln_monotonic_applies(e),
        Rewrite::FermatLittleTheorem => crate::rewrite_number::fermat_little_theorem_applies(e),
        Rewrite::FermatLastTheorem => crate::rewrite_number::fermat_last_theorem_applies(e),
        Rewrite::PrimeCountingApprox => crate::rewrite_number::prime_counting_approx_applies(e),
        Rewrite::LinearDiophantine => crate::rewrite_number::linear_diophantine_applies(e),
        Rewrite::PellEquation => crate::rewrite_number::pell_equation_applies(e),
        Rewrite::SumOfDivisors => crate::rewrite_number::sum_of_divisors_applies(e),
        Rewrite::NumberOfDivisors => crate::rewrite_number::number_of_divisors_applies(e),
        Rewrite::EulerTheorem => crate::rewrite_number::euler_theorem_applies(e),
        Rewrite::EulerPhiMultiplicative => crate::rewrite_number::euler_phi_multiplicative_applies(e),
        Rewrite::EulerPhiPrimePower => crate::rewrite_number::euler_phi_prime_power_applies(e),
        Rewrite::ChineseRemainderTheorem => crate::rewrite_number::chinese_remainder_theorem_applies(e),
        Rewrite::QuadraticResidue => crate::rewrite_number::quadratic_residue_applies(e),
        Rewrite::LegendreSymbolMultiplicative => crate::rewrite_number::legendre_symbol_multiplicative_applies(e),
        Rewrite::EulerCriterion => crate::rewrite_number::euler_criterion_applies(e),
        Rewrite::BertrandPostulate => crate::rewrite_number::bertrand_postulate_applies(e),
        Rewrite::SumOfTwoSquares => crate::rewrite_number::sum_of_two_squares_applies(e),
        Rewrite::SumOfFourSquares => crate::rewrite_number::sum_of_four_squares_applies(e),
        Rewrite::WilsonTheorem => crate::rewrite_number::wilson_theorem_applies(e),
        Rewrite::HenselLemma => crate::rewrite_number::hensel_lemma_applies(e),
        Rewrite::OrderDividesPhi => crate::rewrite_number::order_divides_phi_applies(e),
        Rewrite::PrimitiveRootExistence => crate::rewrite_number::primitive_root_existence_applies(e),
        Rewrite::MobiusMultiplicative => crate::rewrite_number::mobius_multiplicative_applies(e),
        Rewrite::EvenPerfectNumber => crate::rewrite_number::even_perfect_number_applies(e),
        Rewrite::MersennePrimeCondition => crate::rewrite_number::mersenne_prime_condition_applies(e),
        Rewrite::SquareFreeDensity => crate::rewrite_number::square_free_density_applies(e),
        Rewrite::SophieGermainPrime => crate::rewrite_number::sophie_germain_prime_applies(e),
        Rewrite::FareyNeighbors => crate::rewrite_number::farey_neighbors_applies(e),
        Rewrite::GaussianNorm => crate::rewrite_number::gaussian_norm_applies(e),
        Rewrite::MobiusInversion => crate::rewrite_number::mobius_inversion_applies(e),
        Rewrite::BinomialWeightedSum => crate::rewrite_counting::binomial_weighted_sum_applies(e),
        Rewrite::FibonacciGeneratingFunction => crate::rewrite_counting::fibonacci_generating_function_applies(e),
        Rewrite::BinomialSum2n => crate::rewrite_counting::binomial_sum_2n_applies(e),
        Rewrite::PermutationWithRepetition => crate::rewrite_counting::permutation_with_repetition_applies(e),
        Rewrite::MultinomialCoefficient => crate::rewrite_counting::multinomial_coefficient_applies(e),
        Rewrite::LucasBinomialMod => crate::rewrite_counting::lucas_binomial_mod_applies(e),
        Rewrite::CatalanAlternative => crate::rewrite_counting::catalan_alternative_applies(e),
        Rewrite::PigeonholePrinciple => crate::rewrite_counting::pigeonhole_principle_applies(e),
        Rewrite::CombinationWithRepetition => crate::rewrite_counting::combination_with_repetition_applies(e),
        Rewrite::BinomialSquaresSum => crate::rewrite_counting::binomial_squares_sum_applies(e),
        Rewrite::BinomialAlternatingSum => crate::rewrite_counting::binomial_alternating_sum_applies(e),
        Rewrite::SturmSequence => crate::rewrite_counting::sturm_sequence_applies(e),
        Rewrite::GaussLucasTheorem => crate::rewrite_counting::gauss_lucas_theorem_applies(e),
        Rewrite::ModSelf => crate::rewrite_identity::mod_self_applies(e),
        Rewrite::FloorInteger => crate::rewrite_identity::floor_integer_applies(e),
        Rewrite::CeilingInteger => crate::rewrite_identity::ceiling_integer_applies(e),
        Rewrite::FloorCeilingDiff => crate::rewrite_identity::floor_ceiling_diff_applies(e),
        Rewrite::SquareZero => crate::rewrite_identity::square_zero_applies(e),
        Rewrite::ZeroMod => crate::rewrite_identity::zero_mod_applies(e),
        Rewrite::ModOne => crate::rewrite_identity::mod_one_applies(e),
        Rewrite::SqrtSquare => crate::rewrite_identity::sqrt_square_applies(e),
        Rewrite::SquareSqrt => crate::rewrite_identity::square_sqrt_applies(e),
        Rewrite::SqrtProduct => crate::rewrite_identity::sqrt_product_applies(e),
        Rewrite::SqrtQuotient => crate::rewrite_identity::sqrt_quotient_applies(e),
        Rewrite::HalfPowerSqrt => crate::rewrite_identity::half_power_sqrt_applies(e),
        Rewrite::NegOneEvenPower => crate::rewrite_identity::neg_one_even_power_applies(e),
        Rewrite::NegOneOddPower => crate::rewrite_identity::neg_one_odd_power_applies(e),
        Rewrite::NegSquared => crate::rewrite_identity::neg_squared_applies(e),
        Rewrite::FactorialZero => crate::rewrite_identity::factorial_zero_applies(e),
        Rewrite::FactorialOne => crate::rewrite_identity::factorial_one_applies(e),
        Rewrite::FactorialRecurse => crate::rewrite_identity::factorial_recurse_applies(e),
        Rewrite::LegendreFormula => crate::rewrite_identity::legendre_formula_applies(e),
        Rewrite::LucasTheorem => crate::rewrite_identity::lucas_theorem_applies(e),
        Rewrite::CauchySchwarz2 => crate::rewrite_identity::cauchy_schwarz_2_applies(e),
        Rewrite::TriangleIneq => crate::rewrite_identity::triangle_ineq_applies(e),
        Rewrite::ReverseTriangle => crate::rewrite_identity::reverse_triangle_applies(e),
        Rewrite::SquareNonneg => crate::rewrite_identity::square_nonneg_applies(e),
        Rewrite::DiffSquaredGeZero => crate::rewrite_identity::diff_squared_ge_zero_applies(e),
        Rewrite::TitusLemma => crate::rewrite_identity::titus_lemma_applies(e),
        Rewrite::DistanceFormula => crate::rewrite_geometry::distance_formula_applies(e),
        Rewrite::ParabolaTangentParametric => crate::rewrite_geometry::parabola_tangent_parametric_applies(e),
        Rewrite::ParabolaNormalParametric => crate::rewrite_geometry::parabola_normal_parametric_applies(e),
        Rewrite::ParabolaFocalChordReciprocal => crate::rewrite_geometry::parabola_focal_chord_reciprocal_applies(e),
        Rewrite::ParabolaChordOfContact => crate::rewrite_geometry::parabola_chord_of_contact_applies(e),
        Rewrite::EllipseTangentParametric => crate::rewrite_geometry::ellipse_tangent_parametric_applies(e),
        Rewrite::EllipseEccentricity => crate::rewrite_geometry::ellipse_eccentricity_applies(e),
        Rewrite::EllipseDirectorCircle => crate::rewrite_geometry::ellipse_director_circle_applies(e),
        Rewrite::EllipseAuxiliaryCircle => crate::rewrite_geometry::ellipse_auxiliary_circle_applies(e),
        Rewrite::EllipseFocalSum => crate::rewrite_geometry::ellipse_focal_sum_applies(e),
        Rewrite::HyperbolaAsymptotes => crate::rewrite_geometry::hyperbola_asymptotes_applies(e),
        Rewrite::HyperbolaEccentricity => crate::rewrite_geometry::hyperbola_eccentricity_applies(e),
        Rewrite::HyperbolaRectangular => crate::rewrite_geometry::hyperbola_rectangular_applies(e),
        Rewrite::HyperbolaFocalDifference => crate::rewrite_geometry::hyperbola_focal_difference_applies(e),
        Rewrite::HyperbolaConjugate => crate::rewrite_geometry::hyperbola_conjugate_applies(e),
        Rewrite::CircleTangentAtPoint => crate::rewrite_geometry::circle_tangent_at_point_applies(e),
        Rewrite::CirclePowerOfPoint => crate::rewrite_geometry::circle_power_of_point_applies(e),
        Rewrite::CircleTangentLength => crate::rewrite_geometry::circle_tangent_length_applies(e),
        Rewrite::SectionFormulaInternal => crate::rewrite_geometry::section_formula_internal_applies(e),
        Rewrite::TriangleAreaCoordinates => crate::rewrite_geometry::triangle_area_coordinates_applies(e),
        Rewrite::CollinearityCondition => crate::rewrite_geometry::collinearity_condition_applies(e),
        Rewrite::TriangleCentroid => crate::rewrite_geometry::triangle_centroid_applies(e),
    }
}

/// What rewrite `r` produces on `e`.
pub open spec fn results(r: Rewrite, e: Expr) -> Seq<(Expr, Seq<char>)> {
    match r {
        Rewrite::DividesZero => divides_zero_results(e),
        Rewrite::DividesSelf => divides_self_results(e),
        Rewrite::EvenSum => even_sum_results(e),
        Rewrite::DivBy2 => div_by_2_results(e),
        Rewrite::CancelCommonFactor => cancel_common_factor_results(e),
        Rewrite::MulByDenom => mul_by_denom_results(e),
        Rewrite::DiffSquaresFactor => diff_squares_factor_results(e),
        Rewrite::DiffCubesFactor => diff_cubes_factor_results(e),
        Rewrite::SumCubesFactor => sum_cubes_factor_results(e),
        Rewrite::SquareBinomialExpand => square_binomial_expand_results(e),
        Rewrite::SquareBinomialSubExpand => square_binomial_sub_expand_results(e),
        Rewrite::GcdSelf => gcd_self_results(e),
        Rewrite::GcdZero => gcd_zero_results(e),
        Rewrite::GcdOne => gcd_one_results(e),
        Rewrite::LcmSelf => lcm_self_results(e),
        Rewrite::LcmOne => lcm_one_results(e),
        Rewrite::GcdLcmProduct => gcd_lcm_product_results(e),
        Rewrite::SumConstant => sum_constant_results(e),
        Rewrite::SumArithmetic => sum_arithmetic_results(e),
        Rewrite::SumSquares => sum_squares_results(e),
        Rewrite::SumCubes => sum_cubes_results(e),
        Rewrite::GeometricSum => geometric_sum_results(e),
        Rewrite::BinomialZero => binomial_zero_results(e),
        Rewrite::BinomialFull => binomial_full_results(e),
        Rewrite::BinomialSum => binomial_sum_results(e),
        Rewrite::BinomialTheorem => binomial_theorem_results(e),
        Rewrite::Pigeonhole => pigeonhole_results(e),
        Rewrite::AmGm2 => am_gm_2_results(e),
        Rewrite::SumSquaresGeProduct => sum_squares_ge_product_results(e),
        Rewrite::SumThreeSquares => sum_three_squares_results(e),
        Rewrite::ReciprocalSumGe2 => reciprocal_sum_ge_2_results(e),
        Rewrite::AmGm3 => am_gm_3_results(e),
        Rewrite::AbsNonneg => abs_nonneg_results(e),
        Rewrite::AbsProduct => abs_product_results(e),
        Rewrite::AbsQuotient => abs_quotient_results(e),
        Rewrite::AbsNeg => abs_neg_results(e),
        Rewrite::AbsAbs => abs_abs_results(e),
        Rewrite::AbsSquared => abs_squared_results(e),
        Rewrite::SumSquaresSym => sum_squares_sym_results(e),
        Rewrite::CompleteSquare => complete_square_results(e),
        Rewrite::DiffNthPower => diff_nth_power_results(e),
        Rewrite::DiffCubes => diff_cubes_results(e),
        Rewrite::PolySumCubes => poly_sum_cubes_results(e),
        Rewrite::CyclotomicFactor => cyclotomic_factor_results(e),
        Rewrite::BinomialFactor => binomial_factor_results(e),
        Rewrite::CombBinomialOne => comb_binomial_one_results(e),
        Rewrite::CombBinomialSymmetry => comb_binomial_symmetry_results(e),
        Rewrite::CombPascalIdentity => comb_pascal_identity_results(e),
        Rewrite::CombHockeyStick => comb_hockey_stick_results(e),
        Rewrite::CombVandermonde => comb_vandermonde_results(e),
        Rewrite::CombCountingRulesPermutationFormula => comb_counting_rules_permutation_formula_results(e),
        Rewrite::CombCombinationFormula => comb_combination_formula_results(e),
        Rewrite::CombPigeonholeGen => comb_pigeonhole_gen_results(e),
        Rewrite::CombCountingRulesInclusionExclusion2 => comb_counting_rules_inclusion_exclusion_2_results(e),
        Rewrite::CombCountingRulesInclusionExclusion3 => comb_counting_rules_inclusion_exclusion_3_results(e),
        Rewrite::CombDerangement => comb_derangement_results(e),
        Rewrite::CombCatalan => comb_catalan_results(e),
        Rewrite::CombFibonacciRecurrence => comb_fibonacci_recurrence_results(e),
        Rewrite::CombBinetFormula => comb_binet_formula_results(e),
        Rewrite::CombLinearRecurrence => comb_linear_recurrence_results(e),
        Rewrite::CombDerangementFormula => comb_derangement_formula_results(e),
        Rewrite::CombDerangementRecurrence => comb_derangement_recurrence_results(e),
        Rewrite::CombCatalanFormula => comb_catalan_formula_results(e),
        Rewrite::CombCatalanRecurrence => comb_catalan_recurrence_results(e),
        Rewrite::CombStirlingFirstRecurrence => comb_stirling_first_recurrence_results(e),
        Rewrite::CombStirlingSecondRecurrence => comb_stirling_second_recurrence_results(e),
        Rewrite::CombPartitionRecurrence => comb_partition_recurrence_results(e),
        Rewrite::CombHockeyStickIdentity => comb_hockey_stick_identity_results(e),
        Rewrite::CombVandermondeIdentity => comb_vandermonde_identity_results(e),
        Rewrite::CombChuVandermonde => comb_chu_vandermonde_results(e),
        Rewrite::CombMultinomialTheorem => comb_multinomial_theorem_results(e),
        Rewrite::CombStarsAndBars => comb_stars_and_bars_results(e),
        Rewrite::CombInclusionExclusion2InclusionExclusion2 => comb_inclusion_exclusion_2_inclusion_exclusion_2_results(e),
        Rewrite::CombInclusionExclusion3InclusionExclusion3 => comb_inclusion_exclusion_3_inclusion_exclusion_3_results(e),
        Rewrite::CombDoubleCounting => comb_double_counting_results(e),
        Rewrite::CombOrdinaryGf => comb_ordinary_gf_results(e),
        Rewrite::CombExponentialGf => comb_exponential_gf_results(e),
        Rewrite::CombPermutationFormulaPermutationFormula => comb_permutation_formula_permutation_formula_results(e),
        Rewrite::CombCircularPermutation => comb_circular_permutation_results(e),
        Rewrite::CombDerangementAsymptotic => comb_derangement_asymptotic_results(e),
        Rewrite::CombFibonacciAddition => comb_fibonacci_addition_results(e),
        Rewrite::CombFibonacciGcd => comb_fibonacci_gcd_results(e),
        Rewrite::CombLucasNumbers => comb_lucas_numbers_results(e),
        Rewrite::CombBellNumberRecurrence => comb_bell_number_recurrence_results(e),
        Rewrite::CombSubfactorial => comb_subfactorial_results(e),
        Rewrite::CombChristmasStocking => comb_christmas_stocking_results(e),
        Rewrite::CombRisingFactorial => comb_rising_factorial_results(e),
        Rewrite::CombFallingFactorial => comb_falling_factorial_results(e),
        Rewrite::CombLegendreFormula => comb_legendre_formula_results(e),
        Rewrite::CombKummerTheorem => comb_kummer_theorem_results(e),
        Rewrite::CombBurnsideLemma => comb_burnside_lemma_results(e),
        Rewrite::CombPolyaEnumeration => comb_polya_enumeration_results(e),
        Rewrite::CombPartitionIntoParts => comb_partition_into_parts_results(e),
        Rewrite::CombPatternAvoidance => comb_pattern_avoidance_results(e),
        Rewrite::CombDerangementSimpleRecurrence => comb_derangement_simple_recurrence_results(e),
        Rewrite::IneqPositiveSquareRoot => ineq_positive_square_root_results(e),
        Rewrite::IneqExpPositivity => ineq_exp_positivity_results(e),
        Rewrite::NtChebyshevPrimeBounds => nt_chebyshev_prime_bounds_results(e),
        Rewrite::NtTotientSum => nt_totient_sum_results(e),
        Rewrite::NtPrimitiveRootCount => nt_primitive_root_count_results(e),
        Rewrite::NtCarmichaelFunction => nt_carmichael_function_results(e),
        Rewrite::NtPrimeGapBound => nt_prime_gap_bound_results(e),
        Rewrite::NtQuadraticReciprocity => nt_quadratic_reciprocity_results(e),
        Rewrite::NtJacobiSymbol => nt_jacobi_symbol_results(e),
        Rewrite::NtKroneckerSymbol => nt_kronecker_symbol_results(e),
        Rewrite::NtTonelliShanks => nt_tonelli_shanks_results(e),
        Rewrite::NtDiscreteLogOrder => nt_discrete_log_order_results(e),
        Rewrite::NtContinuedFractionGcd => nt_continued_fraction_gcd_results(e),
        Rewrite::NtSternBrocot => nt_stern_brocot_results(e),
        Rewrite::NtEgyptianFraction => nt_egyptian_fraction_results(e),
        Rewrite::NtGaussianPrime => nt_gaussian_prime_results(e),
        Rewrite::PolyVietaSumQuadratic => poly_vieta_sum_quadratic_results(e),
        Rewrite::PolyVietaProductQuadratic => poly_vieta_product_quadratic_results(e),
        Rewrite::PolyVietaSumCubic => poly_vieta_sum_cubic_results(e),
        Rewrite::PolyVietaPairsCubic => poly_vieta_pairs_cubic_results(e),
        Rewrite::PolyVietaProductCubic => poly_vieta_product_cubic_results(e),
        Rewrite::PolyElementarySym1 => poly_elementary_sym_1_results(e),
        Rewrite::PolyElementarySym2 => poly_elementary_sym_2_results(e),
        Rewrite::PolyNewtonIdentity1 => poly_newton_identity_1_results(e),
        Rewrite::PolyNewtonIdentity2 => poly_newton_identity_2_results(e),
        Rewrite::PolyNewtonIdentity3 => poly_newton_identity_3_results(e),
        Rewrite::PolySumCubesSym => poly_sum_cubes_sym_results(e),
        Rewrite::PolySumThreeCubes => poly_sum_three_cubes_results(e),
        Rewrite::PolyFactorTheorem => poly_factor_theorem_results(e),
        Rewrite::PolyRemainderTheorem => poly_remainder_theorem_results(e),
        Rewrite::PolyPolyDivIdentity => poly_poly_div_identity_results(e),
        Rewrite::PolySophieGermain => poly_sophie_germain_results(e),
        Rewrite::PolyFactorByGrouping => poly_factor_by_grouping_results(e),
        Rewrite::PolySumOddPowers => poly_sum_odd_powers_results(e),
        Rewrite::PolyDiffEvenPowers => poly_diff_even_powers_results(e),
        Rewrite::PolyQuadraticSubstitution => poly_quadratic_substitution_results(e),
        Rewrite::PolySymmetricFactor => poly_symmetric_factor_results(e),
        Rewrite::PolyPartialFractions => poly_partial_fractions_results(e),
        Rewrite::PolyHornerMethod => poly_horner_method_results(e),
        Rewrite::PolySyntheticDivision => poly_synthetic_division_results(e),
        Rewrite::PolyPolynomialLongDivision => poly_polynomial_long_division_results(e),
        Rewrite::PolyRuffiniRule => poly_ruffini_rule_results(e),
        Rewrite::PolyRationalRootTheorem => poly_rational_root_theorem_results(e),
        Rewrite::PolyIntegerRoot => poly_integer_root_results(e),
        Rewrite::PolyQuadraticFormula => poly_quadratic_formula_results(e),
        Rewrite::PolyDiscriminantSign => poly_discriminant_sign_results(e),
        Rewrite::PolyDiscriminantPerfectSquare => poly_discriminant_perfect_square_results(e),
        Rewrite::PolyCardanoFormula => poly_cardano_formula_results(e),
        Rewrite::PolyCubicDiscriminant => poly_cubic_discriminant_results(e),
        Rewrite::PolyQuarticResolvent => poly_quartic_resolvent_results(e),
        Rewrite::PolyDescartesRule => poly_descartes_rule_results(e),
        Rewrite::PolyResultantDefinition => poly_resultant_definition_results(e),
        Rewrite::PolyBezoutTheorem => poly_bezout_theorem_results(e),
        Rewrite::PolyCauchyBound => poly_cauchy_bound_results(e),
        Rewrite::PolyFujiwaraBound => poly_fujiwara_bound_results(e),
        Rewrite::PolyLagrangeInterpolation => poly_lagrange_interpolation_results(e),
        Rewrite::PolyNewtonInterpolation => poly_newton_interpolation_results(e),
        Rewrite::PolyChebyshevRecurrence => poly_chebyshev_recurrence_results(e),
        Rewrite::PolyHermiteRecurrence => poly_hermite_recurrence_results(e),
        Rewrite::PolyLegendreRecurrence => poly_legendre_recurrence_results(e),
        Rewrite::PolyLaguerreRecurrence => poly_laguerre_recurrence_results(e),
        Rewrite::PowerRule => crate::rewrite_derivative::power_rule_results(e),
        Rewrite::ConstantRule => crate::rewrite_derivative::constant_rule_results(e),
        Rewrite::SumRule => crate::rewrite_derivative::sum_rule_results(e),
        Rewrite::ProductRule => crate::rewrite_derivative::product_rule_results(e),
        Rewrite::QuotientRule => crate::rewrite_derivative::quotient_rule_results(e),
        Rewrite::SinChainRule => crate::rewrite_derivative::sin_chain_rule_results(e),
        Rewrite::CosChainRule => crate::rewrite_derivative::cos_chain_rule_results(e),
        Rewrite::ExpDerivative => crate::rewrite_derivative::exp_derivative_results(e),
        Rewrite::LnDerivative => crate::rewrite_derivative::ln_derivative_results(e),
        Rewrite::ChainRuleTan => crate::rewrite_derivative::chain_rule_tan_results(e),
        Rewrite::ChainRuleExp => crate::rewrite_derivative::chain_rule_exp_results(e),
        Rewrite::ChainRuleLn => crate::rewrite_derivative::chain_rule_ln_results(e),
        Rewrite::InverseTrigDerivArcsin => crate::rewrite_derivative::inverse_trig_deriv_arcsin_results(e),
        Rewrite::DiffRule => crate::rewrite_derivative::diff_rule_results(e),
        Rewrite::ConstantMultipleRule => crate::rewrite_derivative::constant_multiple_rule_results(e),
        Rewrite::ConstantBaseExpSimple => crate::rewrite_derivative::constant_base_exp_simple_results(e),
        Rewrite::ConstantBaseExpChain => crate::rewrite_derivative::constant_base_exp_chain_results(e),
        Rewrite::SqrtChainRule => crate::rewrite_derivative::sqrt_chain_rule_results(e),
        Rewrite::GeneralPowerRule => crate::rewrite_derivative::general_power_rule_results(e),
        Rewrite::LogBaseSimple => crate::rewrite_derivative::log_base_simple_results(e),
        Rewrite::LogBaseChain => crate::rewrite_derivative::log_base_chain_results(e),
        Rewrite::SecDerivative => crate::rewrite_derivative::sec_derivative_results(e),
        Rewrite::CscDerivative => crate::rewrite_derivative::csc_derivative_results(e),
        Rewrite::CotDerivative => crate::rewrite_derivative::cot_derivative_results(e),
        Rewrite::ArcsinDerivative => crate::rewrite_derivative::arcsin_derivative_results(e),
        Rewrite::ArccosDerivative => crate::rewrite_derivative::arccos_derivative_results(e),
        Rewrite::ArctanDerivative => crate::rewrite_derivative::arctan_derivative_results(e),
        Rewrite::ArccotDerivative => crate::rewrite_derivative::arccot_derivative_results(e),
        Rewrite::ArcsecDerivative => crate::rewrite_derivative::arcsec_derivative_results(e),
        Rewrite::ArccscDerivative => crate::rewrite_derivative::arccsc_derivative_results(e),
        Rewrite::Inert => crate::rewrite_integral::inert_results(e),
        Rewrite::IntegralPower => crate::rewrite_integral::integral_power_results(e),
        Rewrite::IntegralInvA2PlusX2 => crate::rewrite_integral::integral_inv_a2_plus_x2_results(e),
        Rewrite::IntegralConstantMultiple => crate::rewrite_integral::integral_constant_multiple_results(e),
        Rewrite::IntegralConstant => crate::rewrite_integral::integral_constant_results(e),
        Rewrite::IntegralSum => crate::rewrite_integral::integral_sum_results(e),
        Rewrite::IntegralDifference => crate::rewrite_integral::integral_difference_results(e),
        Rewrite::IntegralExp => crate::rewrite_integral::integral_exp_results(e),
        Rewrite::IntegralLn => crate::rewrite_integral::integral_ln_results(e),
        Rewrite::IntegralSin => crate::rewrite_integral::integral_sin_results(e),
        Rewrite::IntegralCos => crate::rewrite_integral::integral_cos_results(e),
        Rewrite::IntegralTan => crate::rewrite_integral::integral_tan_results(e),
        Rewrite::IntegralSec2 => crate::rewrite_integral::integral_sec2_results(e),
        Rewrite::IntegralCsc2 => crate::rewrite_integral::integral_csc2_results(e),
        Rewrite::IntegrationByParts => crate::rewrite_integral::integration_by_parts_results(e),
        Rewrite::USubstitution => crate::rewrite_integral::u_substitution_results(e),
        Rewrite::PartialFractions => crate::rewrite_integral::partial_fractions_results(e),
        Rewrite::TrigSubstitution => crate::rewrite_integral::trig_substitution_results(e),
        Rewrite::IntegralCot => crate::rewrite_integral::integral_cot_results(e),
        Rewrite::IntegralSec => crate::rewrite_integral::integral_sec_results(e),
        Rewrite::IntegralCsc => crate::rewrite_integral::integral_csc_results(e),
        Rewrite::IntegralSecTan => crate::rewrite_integral::integral_sec_tan_results(e),
        Rewrite::IntegralInvSqrtA2MinusX2 => crate::rewrite_integral::integral_inv_sqrt_a2_minus_x2_results(e),
        Rewrite::IntegralInvXSqrtX2MinusA2 => crate::rewrite_integral::integral_inv_x_sqrt_x2_minus_a2_results(e),
        Rewrite::IntegralXSin => crate::rewrite_integral::integral_x_sin_results(e),
        Rewrite::IntegralXCos => crate::rewrite_integral::integral_x_cos_results(e),
        Rewrite::IntegralLnX => crate::rewrite_integral::integral_ln_x_results(e),
        Rewrite::IntegralXExpAx => crate::rewrite_integral::integral_x_exp_ax_results(e),
        Rewrite::IntegralXOverX2PlusA2 => crate::rewrite_integral::integral_x_over_x2_plus_a2_results(e),
        Rewrite::IntegralXOverX2MinusA2 => crate::rewrite_integral::integral_x_over_x2_minus_a2_results(e),
        Rewrite::IntegralExpAx => crate::rewrite_integral::integral_exp_ax_results(e),
        Rewrite::IntegralOneOverX2MinusA2 => crate::rewrite_integral::integral_one_over_x2_minus_a2_results(e),
        Rewrite::IntegralSinSquared => crate::rewrite_integral::integral_sin_squared_results(e),
        Rewrite::IntegralCosSquared => crate::rewrite_integral::integral_cos_squared_results(e),
        Rewrite::IntegralTanSquared => crate::rewrite_integral::integral_tan_squared_results(e),
        Rewrite::IntegralSecCubed => crate::rewrite_integral::integral_sec_cubed_results(e),
        Rewrite::IntegralX2Sin => crate::rewrite_integral::integral_x2_sin_results(e),
        Rewrite::IntegralX2Cos => crate::rewrite_integral::integral_x2_cos_results(e),
        Rewrite::IntegralExpSin => crate::rewrite_integral::integral_exp_sin_results(e),
        Rewrite::IntegralExpCos => crate::rewrite_integral::integral_exp_cos_results(e),
        Rewrite::IntegralSqrtA2MinusX2 => crate::rewrite_integral::integral_sqrt_a2_minus_x2_results(e),
        Rewrite::IntegralSqrtX2PlusA2 => crate::rewrite_integral::integral_sqrt_x2_plus_a2_results(e),
        Rewrite::IntegralSqrtX2MinusA2 => crate::rewrite_integral::integral_sqrt_x2_minus_a2_results(e),
        Rewrite::IntegralXSqrtA2MinusX2 => crate::rewrite_integral::integral_x_sqrt_a2_minus_x2_results(e),
        Rewrite::IntegralInvSqrtX2PlusA2 => crate::rewrite_integral::integral_inv_sqrt_x2_plus_a2_results(e),
        Rewrite::IntegralInvSqrtX2MinusA2 => crate::rewrite_integral::integral_inv_sqrt_x2_minus_a2_results(e),
        Rewrite::IntegralXOverSqrtX2PlusA2 => crate::rewrite_integral::integral_x_over_sqrt_x2_plus_a2_results(e),
        Rewrite::PowerIntegral => crate::rewrite_integration::power_integral_results(e),
        Rewrite::OneOverXIntegral => crate::rewrite_integration::one_over_x_integral_results(e),
        Rewrite::ConstantMultipleIntegral => crate::rewrite_integration::constant_multiple_integral_results(e),
        Rewrite::ConstantIntegral => crate::rewrite_integration::constant_integral_results(e),
        Rewrite::SumIntegral => crate::rewrite_integration::sum_integral_results(e),
        Rewrite::DifferenceIntegral => crate::rewrite_integration::difference_integral_results(e),
        Rewrite::SinIntegral => crate::rewrite_integration::sin_integral_results(e),
        Rewrite::CosIntegral => crate::rewrite_integration::cos_integral_results(e),
        Rewrite::ExpIntegral => crate::rewrite_integration::exp_integral_results(e),
        Rewrite::IsolateVariable => crate::rewrite_equation::isolate_variable_results(e),
        Rewrite::CancelAddition => crate::rewrite_equation::cancel_addition_results(e),
        Rewrite::CancelSubtraction => crate::rewrite_equation::cancel_subtraction_results(e),
        Rewrite::CancelMultiplication => crate::rewrite_equation::cancel_multiplication_results(e),
        Rewrite::CancelDivision => crate::rewrite_equation::cancel_division_results(e),
        Rewrite::LinearSolve => crate::rewrite_equation::linear_solve_results(e),
        Rewrite::QuadraticFormula => crate::rewrite_equation::quadratic_formula_results(e),
        Rewrite::BernoulliInequality => crate::rewrite_inequality::bernoulli_inequality_results(e),
        Rewrite::QmAmInequality => crate::rewrite_inequality::qm_am_inequality_results(e),
        Rewrite::HmGmInequality => crate::rewrite_inequality::hm_gm_inequality_results(e),
        Rewrite::AbsProductSplit => crate::rewrite_inequality::abs_product_split_results(e),
        Rewrite::AbsPower => crate::rewrite_inequality::abs_power_results(e),
        Rewrite::BothSides => crate::rewrite_inequality::both_sides_results(e),
        Rewrite::SqrtComparison => crate::rewrite_inequality::sqrt_comparison_results(e),
        Rewrite::LnComparison => crate::rewrite_inequality::ln_comparison_results(e),
        Rewrite::ExpMonotonic => crate::rewrite_inequality::exp_monotonic_results(e),
        Rewrite::LnMonotonic => crate::rewrite_inequality::ln_monotonic_results(e),
        Rewrite::FermatLittleTheorem => crate::rewrite_number::fermat_little_theorem_results(e),
        Rewrite::FermatLastTheorem => crate::rewrite_number::fermat_last_theorem_results(e),
        Rewrite::PrimeCountingApprox => crate::rewrite_number::prime_counting_approx_results(e),
        Rewrite::LinearDiophantine => crate::rewrite_number::linear_diophantine_results(e),
        Rewrite::PellEquation => crate::rewrite_number::pell_equation_results(e),
        Rewrite::SumOfDivisors => crate::rewrite_number::sum_of_divisors_results(e),
        Rewrite::NumberOfDivisors => crate::rewrite_number::number_of_divisors_results(e),
        Rewrite::EulerTheorem => crate::rewrite_number::euler_theorem_results(e),
        Rewrite::EulerPhiMultiplicative => crate::rewrite_number::euler_phi_multiplicative_results(e),
        Rewrite::EulerPhiPrimePower => crate::rewrite_number::euler_phi_prime_power_results(e),
        Rewrite::ChineseRemainderTheorem => crate::rewrite_number::chinese_remainder_theorem_results(e),
        Rewrite::QuadraticResidue => crate::rewrite_number::quadratic_residue_results(e),
        Rewrite::LegendreSymbolMultiplicative => crate::rewrite_number::legendre_symbol_multiplicative_results(e),
        Rewrite::EulerCriterion => crate::rewrite_number::euler_criterion_results(e),
        Rewrite::BertrandPostulate => crate::rewrite_number::bertrand_postulate_results(e),
        Rewrite::SumOfTwoSquares => crate::rewrite_number::sum_of_two_squares_results(e),
        Rewrite::SumOfFourSquares => crate::rewrite_number::sum_of_four_squares_results(e),
        Rewrite::WilsonTheorem => crate::rewrite_number::wilson_theorem_results(e),
        Rewrite::HenselLemma => crate::rewrite_number::hensel_lemma_results(e),
        Rewrite::OrderDividesPhi => crate::rewrite_number::order_divides_phi_results(e),
        Rewrite::PrimitiveRootExistence => crate::rewrite_number::primitive_root_existence_results(e),
        Rewrite::MobiusMultiplicative => crate::rewrite_number::mobius_multiplicative_results(e),
        Rewrite::EvenPerfectNumber => crate::rewrite_number::even_perfect_number_results(e),
        Rewrite::MersennePrimeCondition => crate::rewrite_number::mersenne_prime_condition_results(e),
        Rewrite::SquareFreeDensity => crate::rewrite_number::square_free_density_results(e),
        Rewrite::SophieGermainPrime => crate::rewrite_number::sophie_germain_prime_results(e),
        Rewrite::FareyNeighbors => crate::rewrite_number::farey_neighbors_results(e),
        Rewrite::GaussianNorm => crate::rewrite_number::gaussian_norm_results(e),
        Rewrite::MobiusInversion => crate::rewrite_number::mobius_inversion_results(e),
        Rewrite::BinomialWeightedSum => crate::rewrite_counting::binomial_weighted_sum_results(e),
        Rewrite::FibonacciGeneratingFunction => crate::rewrite_counting::fibonacci_generating_function_results(e),
        Rewrite::BinomialSum2n => crate::rewrite_counting::binomial_sum_2n_results(e),
        Rewrite::PermutationWithRepetition => crate::rewrite_counting::permutation_with_repetition_results(e),
        Rewrite::MultinomialCoefficient => crate::rewrite_counting::multinomial_coefficient_results(e),
        Rewrite::LucasBinomialMod => crate::rewrite_counting::lucas_binomial_mod_results(e),
        Rewrite::CatalanAlternative => crate::rewrite_counting::catalan_alternative_results(e),
        Rewrite::PigeonholePrinciple => crate::rewrite_counting::pigeonhole_principle_results(e),
        Rewrite::CombinationWithRepetition => crate::rewrite_counting::combination_with_repetition_results(e),
        Rewrite::BinomialSquaresSum => crate::rewrite_counting::binomial_squares_sum_results(e),
        Rewrite::BinomialAlternatingSum => crate::rewrite_counting::binomial_alternating_sum_results(e),
        Rewrite::SturmSequence => crate::rewrite_counting::sturm_sequence_results(e),
        Rewrite::GaussLucasTheorem => crate::rewrite_counting::gauss_lucas_theorem_results(e),
        Rewrite::ModSelf => crate::rewrite_identity::mod_self_results(e),
        Rewrite::FloorInteger => crate::rewrite_identity::floor_integer_results(e),
        Rewrite::CeilingInteger => crate::rewrite_identity::ceiling_integer_results(e),
        Rewrite::FloorCeilingDiff => crate::rewrite_identity::floor_ceiling_diff_results(e),
        Rewrite::SquareZero => crate::rewrite_identity::square_zero_results(e),
        Rewrite::ZeroMod => crate::rewrite_identity::zero_mod_results(e),
        Rewrite::ModOne => crate::rewrite_identity::mod_one_results(e),
        Rewrite::SqrtSquare => crate::rewrite_identity::sqrt_square_results(e),
        Rewrite::SquareSqrt => crate::rewrite_identity::square_sqrt_results(e),
        Rewrite::SqrtProduct => crate::rewrite_identity::sqrt_product_results(e),
        Rewrite::SqrtQuotient => crate::rewrite_identity::sqrt_quotient_results(e),
        Rewrite::HalfPowerSqrt => crate::rewrite_identity::half_power_sqrt_results(e),
        Rewrite::NegOneEvenPower => crate::rewrite_identity::neg_one_even_power_results(e),
        Rewrite::NegOneOddPower => crate::rewrite_identity::neg_one_odd_power_results(e),
        Rewrite::NegSquared => crate::rewrite_identity::neg_squared_results(e),
        Rewrite::FactorialZero => crate::rewrite_identity::factorial_zero_results(e),
        Rewrite::FactorialOne => crate::rewrite_identity::factorial_one_results(e),
        Rewrite::FactorialRecurse => crate::rewrite_identity::factorial_recurse_results(e),
        Rewrite::LegendreFormula => crate::rewrite_identity::legendre_formula_results(e),
        Rewrite::LucasTheorem => crate::rewrite_identity::lucas_theorem_results(e),
        Rewrite::CauchySchwarz2 => crate::rewrite_identity::cauchy_schwarz_2_results(e),
        Rewrite::TriangleIneq => crate::rewrite_identity::triangle_ineq_results(e),
        Rewrite::ReverseTriangle => crate::rewrite_identity::reverse_triangle_results(e),
        Rewrite::SquareNonneg => crate::rewrite_identity::square_nonneg_results(e),
        Rewrite::DiffSquaredGeZero => crate::rewrite_identity::diff_squared_ge_zero_results(e),
        Rewrite::TitusLemma => crate::rewrite_identity::titus_lemma_results(e),
        Rewrite::DistanceFormula => crate::rewrite_geometry::distance_formula_results(e),
        Rewrite::ParabolaTangentParametric => crate::rewrite_geometry::parabola_tangent_parametric_results(e),
        Rewrite::ParabolaNormalParametric => crate::rewrite_geometry::parabola_normal_parametric_results(e),
        Rewrite::ParabolaFocalChordReciprocal => crate::rewrite_geometry::parabola_focal_chord_reciprocal_results(e),
        Rewrite::ParabolaChordOfContact => crate::rewrite_geometry::parabola_chord_of_contact_results(e),
        Rewrite::EllipseTangentParametric => crate::rewrite_geometry::ellipse_tangent_parametric_results(e),
        Rewrite::EllipseEccentricity => crate::rewrite_geometry::ellipse_eccentricity_results(e),
        Rewrite::EllipseDirectorCircle => crate::rewrite_geometry::ellipse_director_circle_results(e),
        Rewrite::EllipseAuxiliaryCircle => crate::rewrite_geometry::ellipse_auxiliary_circle_results(e),
        Rewrite::EllipseFocalSum => crate::rewrite_geometry::ellipse_focal_sum_results(e),
        Rewrite::HyperbolaAsymptotes => crate::rewrite_geometry::hyperbola_asymptotes_results(e),
        Rewrite::HyperbolaEccentricity => crate::rewrite_geometry::hyperbola_eccentricity_results(e),
        Rewrite::HyperbolaRectangular => crate::rewrite_geometry::hyperbola_rectangular_results(e),
        Rewrite::HyperbolaFocalDifference => crate::rewrite_geometry::hyperbola_focal_difference_results(e),
        Rewrite::HyperbolaConjugate => crate::rewrite_geometry::hyperbola_conjugate_results(e),
        Rewrite::CircleTangentAtPoint => crate::rewrite_geometry::circle_tangent_at_point_results(e),
        Rewrite::CirclePowerOfPoint => crate::rewrite_geometry::circle_power_of_point_results(e),
        Rewrite::CircleTangentLength => crate::rewrite_geometry::circle_tangent_length_results(e),
        Rewrite::SectionFormulaInternal => crate::rewrite_geometry::section_formula_internal_results(e),
        Rewrite::TriangleAreaCoordinates => crate::rewrite_geometry::triangle_area_coordinates_results(e),
        Rewrite::CollinearityCondition => crate::rewrite_geometry::collinearity_condition_results(e),
        Rewrite::TriangleCentroid => crate::rewrite_geometry::triangle_centroid_results(e),
    }
}

impl Rewrite {
    /// Whether this rewrite fires on `e` when the search targets `target`.
    pub fn is_applicable(&self, e: &Expr, target: Option<Symbol>) -> (b: bool)
        ensures
            b == applies(*self, *e, target),
    {
        match self {
            Rewrite::DividesZero => divides_zero_applicable(e),
            Rewrite::DividesSelf => divides_self_applicable(e),
            Rewrite::EvenSum => even_sum_applicable(e),
            Rewrite::DivBy2 => div_by_2_applicable(e),
            Rewrite::CancelCommonFactor => cancel_common_factor_applicable(e),
            Rewrite::MulByDenom => mul_by_denom_applicable(e),
            Rewrite::DiffSquaresFactor => diff_squares_factor_applicable(e),
            Rewrite::DiffCubesFactor => diff_cubes_factor_applicable(e),
            Rewrite::SumCubesFactor => sum_cubes_factor_applicable(e),
            Rewrite::SquareBinomialExpand => square_binomial_expand_applicable(e),
            Rewrite::SquareBinomialSubExpand => square_binomial_sub_expand_applicable(e),
            Rewrite::GcdSelf => gcd_self_applicable(e),
            Rewrite::GcdZero => gcd_zero_applicable(e),
            Rewrite::GcdOne => gcd_one_applicable(e),
            Rewrite::LcmSelf => lcm_self_applicable(e),
            Rewrite::LcmOne => lcm_one_applicable(e),
            Rewrite::GcdLcmProduct => gcd_lcm_product_applicable(e),
            Rewrite::SumConstant => sum_constant_applicable(e),
            Rewrite::SumArithmetic => sum_arithmetic_applicable(e),
            Rewrite::SumSquares => sum_squares_applicable(e),
            Rewrite::SumCubes => sum_cubes_applicable(e),
            Rewrite::GeometricSum => geometric_sum_applicable(e),
            Rewrite::BinomialZero => binomial_zero_applicable(e),
            Rewrite::BinomialFull => binomial_full_applicable(e),
            Rewrite::BinomialSum => binomial_sum_applicable(e),
            Rewrite::BinomialTheorem => binomial_theorem_applicable(e),
            Rewrite::Pigeonhole => pigeonhole_applicable(e),
            Rewrite::AmGm2 => am_gm_2_applicable(e),
            Rewrite::SumSquaresGeProduct => sum_squares_ge_product_applicable(e),
            Rewrite::SumThreeSquares => sum_three_squares_applicable(e),
            Rewrite::ReciprocalSumGe2 => reciprocal_sum_ge_2_applicable(e),
            Rewrite::AmGm3 => am_gm_3_applicable(e),
            Rewrite::AbsNonneg => abs_nonneg_applicable(e),
            Rewrite::AbsProduct => abs_product_applicable(e),
            Rewrite::AbsQuotient => abs_quotient_applicable(e),
            Rewrite::AbsNeg => abs_neg_applicable(e),
            Rewrite::AbsAbs => abs_abs_applicable(e),
            Rewrite::AbsSquared => abs_squared_applicable(e),
            Rewrite::SumSquaresSym => sum_squares_sym_applicable(e),
            Rewrite::CompleteSquare => complete_square_applicable(e),
            Rewrite::DiffNthPower => diff_nth_power_applicable(e),
            Rewrite::DiffCubes => diff_cubes_applicable(e),
            Rewrite::PolySumCubes => poly_sum_cubes_applicable(e),
            Rewrite::CyclotomicFactor => cyclotomic_factor_applicable(e),
            Rewrite::BinomialFactor => binomial_factor_applicable(e),
            Rewrite::CombBinomialOne => comb_binomial_one_applicable(e),
            Rewrite::CombBinomialSymmetry => comb_binomial_symmetry_applicable(e),
            Rewrite::CombPascalIdentity => comb_pascal_identity_applicable(e),
            Rewrite::CombHockeyStick => comb_hockey_stick_applicable(e),
            Rewrite::CombVandermonde => comb_vandermonde_applicable(e),
            Rewrite::CombCountingRulesPermutationFormula => comb_counting_rules_permutation_formula_applicable(e),
            Rewrite::CombCombinationFormula => comb_combination_formula_applicable(e),
            Rewrite::CombPigeonholeGen => comb_pigeonhole_gen_applicable(e),
            Rewrite::CombCountingRulesInclusionExclusion2 => comb_counting_rules_inclusion_exclusion_2_applicable(e),
            Rewrite::CombCountingRulesInclusionExclusion3 => comb_counting_rules_inclusion_exclusion_3_applicable(e),
            Rewrite::CombDerangement => comb_derangement_applicable(e),
            Rewrite::CombCatalan => comb_catalan_applicable(e),
            Rewrite::CombFibonacciRecurrence => comb_fibonacci_recurrence_applicable(e),
            Rewrite::CombBinetFormula => comb_binet_formula_applicable(e),
            Rewrite::CombLinearRecurrence => comb_linear_recurrence_applicable(e),
            Rewrite::CombDerangementFormula => comb_derangement_formula_applicable(e),
            Rewrite::CombDerangementRecurrence => comb_derangement_recurrence_applicable(e),
            Rewrite::CombCatalanFormula => comb_catalan_formula_applicable(e),
            Rewrite::CombCatalanRecurrence => comb_catalan_recurrence_applicable(e),
            Rewrite::CombStirlingFirstRecurrence => comb_stirling_first_recurrence_applicable(e),
            Rewrite::CombStirlingSecondRecurrence => comb_stirling_second_recurrence_applicable(e),
            Rewrite::CombPartitionRecurrence => comb_partition_recurrence_applicable(e),
            Rewrite::CombHockeyStickIdentity => comb_hockey_stick_identity_applicable(e),
            Rewrite::CombVandermondeIdentity => comb_vandermonde_identity_applicable(e),
            Rewrite::CombChuVandermonde => comb_chu_vandermonde_applicable(e),
            Rewrite::CombMultinomialTheorem => comb_multinomial_theorem_applicable(e),
            Rewrite::CombStarsAndBars => comb_stars_and_bars_applicable(e),
            Rewrite::CombInclusionExclusion2InclusionExclusion2 => comb_inclusion_exclusion_2_inclusion_exclusion_2_applicable(e),
            Rewrite::CombInclusionExclusion3InclusionExclusion3 => comb_inclusion_exclusion_3_inclusion_exclusion_3_applicable(e),
            Rewrite::CombDoubleCounting => comb_double_counting_applicable(e),
            Rewrite::CombOrdinaryGf => comb_ordinary_gf_applicable(e),
            Rewrite::CombExponentialGf => comb_exponential_gf_applicable(e),
            Rewrite::CombPermutationFormulaPermutationFormula => comb_permutation_formula_permutation_formula_applicable(e),
            Rewrite::CombCircularPermutation => comb_circular_permutation_applicable(e),
            Rewrite::CombDerangementAsymptotic => comb_derangement_asymptotic_applicable(e),
            Rewrite::CombFibonacciAddition => comb_fibonacci_addition_applicable(e),
            Rewrite::CombFibonacciGcd => comb_fibonacci_gcd_applicable(e),
            Rewrite::CombLucasNumbers => comb_lucas_numbers_applicable(e),
            Rewrite::CombBellNumberRecurrence => comb_bell_number_recurrence_applicable(e),
            Rewrite::CombSubfactorial => comb_subfactorial_applicable(e),
            Rewrite::CombChristmasStocking => comb_christmas_stocking_applicable(e),
            Rewrite::CombRisingFactorial => comb_rising_factorial_applicable(e),
            Rewrite::CombFallingFactorial => comb_falling_factorial_applicable(e),
            Rewrite::CombLegendreFormula => comb_legendre_formula_applicable(e),
            Rewrite::CombKummerTheorem => comb_kummer_theorem_applicable(e),
            Rewrite::CombBurnsideLemma => comb_burnside_lemma_applicable(e),
            Rewrite::CombPolyaEnumeration => comb_polya_enumeration_applicable(e),
            Rewrite::CombPartitionIntoParts => comb_partition_into_parts_applicable(e),
            Rewrite::CombPatternAvoidance => comb_pattern_avoidance_applicable(e),
            Rewrite::CombDerangementSimpleRecurrence => comb_derangement_simple_recurrence_applicable(e),
            Rewrite::IneqPositiveSquareRoot => ineq_positive_square_root_applicable(e),
            Rewrite::IneqExpPositivity => ineq_exp_positivity_applicable(e),
            Rewrite::NtChebyshevPrimeBounds => nt_chebyshev_prime_bounds_applicable(e),
            Rewrite::NtTotientSum => nt_totient_sum_applicable(e),
            Rewrite::NtPrimitiveRootCount => nt_primitive_root_count_applicable(e),
            Rewrite::NtCarmichaelFunction => nt_carmichael_function_applicable(e),
            Rewrite::NtPrimeGapBound => nt_prime_gap_bound_applicable(e),
            Rewrite::NtQuadraticReciprocity => nt_quadratic_reciprocity_applicable(e),
            Rewrite::NtJacobiSymbol => nt_jacobi_symbol_applicable(e),
            Rewrite::NtKroneckerSymbol => nt_kronecker_symbol_applicable(e),
            Rewrite::NtTonelliShanks => nt_tonelli_shanks_applicable(e),
            Rewrite::NtDiscreteLogOrder => nt_discrete_log_order_applicable(e),
            Rewrite::NtContinuedFractionGcd => nt_continued_fraction_gcd_applicable(e),
            Rewrite::NtSternBrocot => nt_stern_brocot_applicable(e),
            Rewrite::NtEgyptianFraction => nt_egyptian_fraction_applicable(e),
            Rewrite::NtGaussianPrime => nt_gaussian_prime_applicable(e),
            Rewrite::PolyVietaSumQuadratic => poly_vieta_sum_quadratic_applicable(e),
            Rewrite::PolyVietaProductQuadratic => poly_vieta_product_quadratic_applicable(e),
            Rewrite::PolyVietaSumCubic => poly_vieta_sum_cubic_applicable(e),
            Rewrite::PolyVietaPairsCubic => poly_vieta_pairs_cubic_applicable(e),
            Rewrite::PolyVietaProductCubic => poly_vieta_product_cubic_applicable(e),
            Rewrite::PolyElementarySym1 => poly_elementary_sym_1_applicable(e),
            Rewrite::PolyElementarySym2 => poly_elementary_sym_2_applicable(e),
            Rewrite::PolyNewtonIdentity1 => poly_newton_identity_1_applicable(e),
            Rewrite::PolyNewtonIdentity2 => poly_newton_identity_2_applicable(e),
            Rewrite::PolyNewtonIdentity3 => poly_newton_identity_3_applicable(e),
            Rewrite::PolySumCubesSym => poly_sum_cubes_sym_applicable(e),
            Rewrite::PolySumThreeCubes => poly_sum_three_cubes_applicable(e),
            Rewrite::PolyFactorTheorem => poly_factor_theorem_applicable(e),
            Rewrite::PolyRemainderTheorem => poly_remainder_theorem_applicable(e),
            Rewrite::PolyPolyDivIdentity => poly_poly_div_identity_applicable(e),
            Rewrite::PolySophieGermain => poly_sophie_germain_applicable(e),
            Rewrite::PolyFactorByGrouping => poly_factor_by_grouping_applicable(e),
            Rewrite::PolySumOddPowers => poly_sum_odd_powers_applicable(e),
            Rewrite::PolyDiffEvenPowers => poly_diff_even_powers_applicable(e),
            Rewrite::PolyQuadraticSubstitution => poly_quadratic_substitution_applicable(e),
            Rewrite::PolySymmetricFactor => poly_symmetric_factor_applicable(e),
            Rewrite::PolyPartialFractions => poly_partial_fractions_applicable(e),
            Rewrite::PolyHornerMethod => poly_horner_method_applicable(e),
            Rewrite::PolySyntheticDivision => poly_synthetic_division_applicable(e),
            Rewrite::PolyPolynomialLongDivision => poly_polynomial_long_division_applicable(e),
            Rewrite::PolyRuffiniRule => poly_ruffini_rule_applicable(e),
            Rewrite::PolyRationalRootTheorem => poly_rational_root_theorem_applicable(e),
            Rewrite::PolyIntegerRoot => poly_integer_root_applicable(e),
            Rewrite::PolyQuadraticFormula => poly_quadratic_formula_applicable(e),
            Rewrite::PolyDiscriminantSign => poly_discriminant_sign_applicable(e),
            Rewrite::PolyDiscriminantPerfectSquare => poly_discriminant_perfect_square_applicable(e),
            Rewrite::PolyCardanoFormula => poly_cardano_formula_applicable(e),
            Rewrite::PolyCubicDiscriminant => poly_cubic_discriminant_applicable(e),
            Rewrite::PolyQuarticResolvent => poly_quartic_resolvent_applicable(e),
            Rewrite::PolyDescartesRule => poly_descartes_rule_applicable(e),
            Rewrite::PolyResultantDefinition => poly_resultant_definition_applicable(e),
            Rewrite::PolyBezoutTheorem => poly_bezout_theorem_applicable(e),
            Rewrite::PolyCauchyBound => poly_cauchy_bound_applicable(e),
            Rewrite::PolyFujiwaraBound => poly_fujiwara_bound_applicable(e),
            Rewrite::PolyLagrangeInterpolation => poly_lagrange_interpolation_applicable(e),
            Rewrite::PolyNewtonInterpolation => poly_newton_interpolation_applicable(e),
            Rewrite::PolyChebyshevRecurrence => poly_chebyshev_recurrence_applicable(e),
            Rewrite::PolyHermiteRecurrence => poly_hermite_recurrence_applicable(e),
            Rewrite::PolyLegendreRecurrence => poly_legendre_recurrence_applicable(e),
            Rewrite::PolyLaguerreRecurrence => poly_laguerre_recurrence_applicable(e),
            Rewrite::PowerRule => crate::rewrite_derivative::power_rule_applicable(e),
            Rewrite::ConstantRule => crate::rewrite_derivative::constant_rule_applicable(e),
            Rewrite::SumRule => crate::rewrite_derivative::sum_rule_applicable(e),
            Rewrite::ProductRule => crate::rewrite_derivative::product_rule_applicable(e),
            Rewrite::QuotientRule => crate::rewrite_derivative::quotient_rule_applicable(e),
            Rewrite::SinChainRule => crate::rewrite_derivative::sin_chain_rule_applicable(e),
            Rewrite::CosChainRule => crate::rewrite_derivative::cos_chain_rule_applicable(e),
            Rewrite::ExpDerivative => crate::rewrite_derivative::exp_derivative_applicable(e),
            Rewrite::LnDerivative => crate::rewrite_derivative::ln_derivative_applicable(e),
            Rewrite::ChainRuleTan => crate::rewrite_derivative::chain_rule_tan_applicable(e, target),
            Rewrite::ChainRuleExp => crate::rewrite_derivative::chain_rule_exp_applicable(e, target),
            Rewrite::ChainRuleLn => crate::rewrite_derivative::chain_rule_ln_applicable(e, target),
            Rewrite::InverseTrigDerivArcsin => crate::rewrite_derivative::inverse_trig_deriv_arcsin_applicable(e, target),
            Rewrite::DiffRule => crate::rewrite_derivative::diff_rule_applicable(e, target),
            Rewrite::ConstantMultipleRule => crate::rewrite_derivative::constant_multiple_rule_applicable(e, target),
            Rewrite::ConstantBaseExpSimple => crate::rewrite_derivative::constant_base_exp_simple_applicable(e),
            Rewrite::ConstantBaseExpChain => crate::rewrite_derivative::constant_base_exp_chain_applicable(e),
            Rewrite::SqrtChainRule => crate::rewrite_derivative::sqrt_chain_rule_applicable(e),
            Rewrite::GeneralPowerRule => crate::rewrite_derivative::general_power_rule_applicable(e),
            Rewrite::LogBaseSimple => crate::rewrite_derivative::log_base_simple_applicable(e),
            Rewrite::LogBaseChain => crate::rewrite_derivative::log_base_chain_applicable(e),
            Rewrite::SecDerivative => crate::rewrite_derivative::sec_derivative_applicable(e),
            Rewrite::CscDerivative => crate::rewrite_derivative::csc_derivative_applicable(e),
            Rewrite::CotDerivative => crate::rewrite_derivative::cot_derivative_applicable(e),
            Rewrite::ArcsinDerivative => crate::rewrite_derivative::arcsin_derivative_applicable(e),
            Rewrite::ArccosDerivative => crate::rewrite_derivative::arccos_derivative_applicable(e),
            Rewrite::ArctanDerivative => crate::rewrite_derivative::arctan_derivative_applicable(e),
            Rewrite::ArccotDerivative => crate::rewrite_derivative::arccot_derivative_applicable(e),
            Rewrite::ArcsecDerivative => crate::rewrite_derivative::arcsec_derivative_applicable(e),
            Rewrite::ArccscDerivative => crate::rewrite_derivative::arccsc_derivative_applicable(e),
            Rewrite::Inert => crate::rewrite_integral::inert_applicable(e),
            Rewrite::IntegralPower => crate::rewrite_integral::integral_power_applicable(e),
            Rewrite::IntegralInvA2PlusX2 => crate::rewrite_integral::integral_inv_a2_plus_x2_applicable(e),
            Rewrite::IntegralConstantMultiple => crate::rewrite_integral::integral_constant_multiple_applicable(e),
            Rewrite::IntegralConstant => crate::rewrite_integral::integral_constant_applicable(e),
            Rewrite::IntegralSum => crate::rewrite_integral::integral_sum_applicable(e),
            Rewrite::IntegralDifference => crate::rewrite_integral::integral_difference_applicable(e),
            Rewrite::IntegralExp => crate::rewrite_integral::integral_exp_applicable(e),
            Rewrite::IntegralLn => crate::rewrite_integral::integral_ln_applicable(e),
            Rewrite::IntegralSin => crate::rewrite_integral::integral_sin_applicable(e),
            Rewrite::IntegralCos => crate::rewrite_integral::integral_cos_applicable(e),
            Rewrite::IntegralTan => crate::rewrite_integral::integral_tan_applicable(e),
            Rewrite::IntegralSec2 => crate::rewrite_integral::integral_sec2_applicable(e),
            Rewrite::IntegralCsc2 => crate::rewrite_integral::integral_csc2_applicable(e),
            Rewrite::IntegrationByParts => crate::rewrite_integral::integration_by_parts_applicable(e),
            Rewrite::USubstitution => crate::rewrite_integral::u_substitution_applicable(e),
            Rewrite::PartialFractions => crate::rewrite_integral::partial_fractions_applicable(e),
            Rewrite::TrigSubstitution => crate::rewrite_integral::trig_substitution_applicable(e),
            Rewrite::IntegralCot => crate::rewrite_integral::integral_cot_applicable(e),
            Rewrite::IntegralSec => crate::rewrite_integral::integral_sec_applicable(e),
            Rewrite::IntegralCsc => crate::rewrite_integral::integral_csc_applicable(e),
            Rewrite::IntegralSecTan => crate::rewrite_integral::integral_sec_tan_applicable(e),
            Rewrite::IntegralInvSqrtA2MinusX2 => crate::rewrite_integral::integral_inv_sqrt_a2_minus_x2_applicable(e),
            Rewrite::IntegralInvXSqrtX2MinusA2 => crate::rewrite_integral::integral_inv_x_sqrt_x2_minus_a2_applicable(e),
            Rewrite::IntegralXSin => crate::rewrite_integral::integral_x_sin_applicable(e),
            Rewrite::IntegralXCos => crate::rewrite_integral::integral_x_cos_applicable(e),
            Rewrite::IntegralLnX => crate::rewrite_integral::integral_ln_x_applicable(e),
            Rewrite::IntegralXExpAx => crate::rewrite_integral::integral_x_exp_ax_applicable(e),
            Rewrite::IntegralXOverX2PlusA2 => crate::rewrite_integral::integral_x_over_x2_plus_a2_applicable(e),
            Rewrite::IntegralXOverX2MinusA2 => crate::rewrite_integral::integral_x_over_x2_minus_a2_applicable(e),
            Rewrite::IntegralExpAx => crate::rewrite_integral::integral_exp_ax_applicable(e),
            Rewrite::IntegralOneOverX2MinusA2 => crate::rewrite_integral::integral_one_over_x2_minus_a2_applicable(e),
            Rewrite::IntegralSinSquared => crate::rewrite_integral::integral_sin_squared_applicable(e),
            Rewrite::IntegralCosSquared => crate::rewrite_integral::integral_cos_squared_applicable(e),
            Rewrite::IntegralTanSquared => crate::rewrite_integral::integral_tan_squared_applicable(e),
            Rewrite::IntegralSecCubed => crate::rewrite_integral::integral_sec_cubed_applicable(e),
            Rewrite::IntegralX2Sin => crate::rewrite_integral::integral_x2_sin_applicable(e),
            Rewrite::IntegralX2Cos => crate::rewrite_integral::integral_x2_cos_applicable(e),
            Rewrite::IntegralExpSin => crate::rewrite_integral::integral_exp_sin_applicable(e),
            Rewrite::IntegralExpCos => crate::rewrite_integral::integral_exp_cos_applicable(e),
            Rewrite::IntegralSqrtA2MinusX2 => crate::rewrite_integral::integral_sqrt_a2_minus_x2_applicable(e),
            Rewrite::IntegralSqrtX2PlusA2 => crate::rewrite_integral::integral_sqrt_x2_plus_a2_applicable(e),
            Rewrite::IntegralSqrtX2MinusA2 => crate::rewrite_integral::integral_sqrt_x2_minus_a2_applicable(e),
            Rewrite::IntegralXSqrtA2MinusX2 => crate::rewrite_integral::integral_x_sqrt_a2_minus_x2_applicable(e),
            Rewrite::IntegralInvSqrtX2PlusA2 => crate::rewrite_integral::integral_inv_sqrt_x2_plus_a2_applicable(e),
            Rewrite::IntegralInvSqrtX2MinusA2 => crate::rewrite_integral::integral_inv_sqrt_x2_minus_a2_applicable(e),
            Rewrite::IntegralXOverSqrtX2PlusA2 => crate::rewrite_integral::integral_x_over_sqrt_x2_plus_a2_applicable(e),
            Rewrite::PowerIntegral => crate::rewrite_integration::power_integral_applicable(e),
            Rewrite::OneOverXIntegral => crate::rewrite_integration::one_over_x_integral_applicable(e),
            Rewrite::ConstantMultipleIntegral => crate::rewrite_integration::constant_multiple_integral_applicable(e),
            Rewrite::ConstantIntegral => crate::rewrite_integration::constant_integral_applicable(e),
            Rewrite::SumIntegral => crate::rewrite_integration::sum_integral_applicable(e),
            Rewrite::DifferenceIntegral => crate::rewrite_integration::difference_integral_applicable(e),
            Rewrite::SinIntegral => crate::rewrite_integration::sin_integral_applicable(e),
            Rewrite::CosIntegral => crate::rewrite_integration::cos_integral_applicable(e),
            Rewrite::ExpIntegral => crate::rewrite_integration::exp_integral_applicable(e),
            Rewrite::IsolateVariable => crate::rewrite_equation::isolate_variable_applicable(e),
            Rewrite::CancelAddition => crate::rewrite_equation::cancel_addition_applicable(e),
            Rewrite::CancelSubtraction => crate::rewrite_equation::cancel_subtraction_applicable(e),
            Rewrite::CancelMultiplication => crate::rewrite_equation::cancel_multiplication_applicable(e),
            Rewrite::CancelDivision => crate::rewrite_equation::cancel_division_applicable(e),
            Rewrite::LinearSolve => crate::rewrite_equation::linear_solve_applicable(e),
            Rewrite::QuadraticFormula => crate::rewrite_equation::quadratic_formula_applicable(e),
            Rewrite::BernoulliInequality => crate::rewrite_inequality::bernoulli_inequality_applicable(e),
            Rewrite::QmAmInequality => crate::rewrite_inequality::qm_am_inequality_applicable(e),
            Rewrite::HmGmInequality => crate::rewrite_inequality::hm_gm_inequality_applicable(e),
            Rewrite::AbsProductSplit => crate::rewrite_inequality::abs_product_split_applicable(e),
            Rewrite::AbsPower => crate::rewrite_inequality::abs_power_applicable(e),
            Rewrite::BothSides => crate::rewrite_inequality::both_sides_applicable(e),
            Rewrite::SqrtComparison => crate::rewrite_inequality::sqrt_comparison_applicable(e),
            Rewrite::LnComparison => crate::rewrite_inequality::ln_comparison_applicable(e),
            Rewrite::ExpMonotonic => crate::rewrite_inequality::exp_monotonic_applicable(e),
            Rewrite::LnMonotonic => crate::rewrite_inequality::ln_monotonic_applicable(e),
            Rewrite::FermatLittleTheorem => crate::rewrite_number::fermat_little_theorem_applicable(e),
            Rewrite::FermatLastTheorem => crate::rewrite_number::fermat_last_theorem_applicable(e),
            Rewrite::PrimeCountingApprox => crate::rewrite_number::prime_counting_approx_applicable(e),
            Rewrite::LinearDiophantine => crate::rewrite_number::linear_diophantine_applicable(e),
            Rewrite::PellEquation => crate::rewrite_number::pell_equation_applicable(e),
            Rewrite::SumOfDivisors => crate::rewrite_number::sum_of_divisors_applicable(e),
            Rewrite::NumberOfDivisors => crate::rewrite_number::number_of_divisors_applicable(e),
            Rewrite::EulerTheorem => crate::rewrite_number::euler_theorem_applicable(e),
            Rewrite::EulerPhiMultiplicative => crate::rewrite_number::euler_phi_multiplicative_applicable(e),
            Rewrite::EulerPhiPrimePower => crate::rewrite_number::euler_phi_prime_power_applicable(e),
            Rewrite::ChineseRemainderTheorem => crate::rewrite_number::chinese_remainder_theorem_applicable(e),
            Rewrite::QuadraticResidue => crate::rewrite_number::quadratic_residue_applicable(e),
            Rewrite::LegendreSymbolMultiplicative => crate::rewrite_number::legendre_symbol_multiplicative_applicable(e),
            Rewrite::EulerCriterion => crate::rewrite_number::euler_criterion_applicable(e),
            Rewrite::BertrandPostulate => crate::rewrite_number::bertrand_postulate_applicable(e),
            Rewrite::SumOfTwoSquares => crate::rewrite_number::sum_of_two_squares_applicable(e),
            Rewrite::SumOfFourSquares => crate::rewrite_number::sum_of_four_squares_applicable(e),
            Rewrite::WilsonTheorem => crate::rewrite_number::wilson_theorem_applicable(e),
            Rewrite::HenselLemma => crate::rewrite_number::hensel_lemma_applicable(e),
            Rewrite::OrderDividesPhi => crate::rewrite_number::order_divides_phi_applicable(e),
            Rewrite::PrimitiveRootExistence => crate::rewrite_number::primitive_root_existence_applicable(e),
            Rewrite::MobiusMultiplicative => crate::rewrite_number::mobius_multiplicative_applicable(e),
            Rewrite::EvenPerfectNumber => crate::rewrite_number::even_perfect_number_applicable(e),
            Rewrite::MersennePrimeCondition => crate::rewrite_number::mersenne_prime_condition_applicable(e),
            Rewrite::SquareFreeDensity => crate::rewrite_number::square_free_density_applicable(e),
            Rewrite::SophieGermainPrime => crate::rewrite_number::sophie_germain_prime_applicable(e),
            Rewrite::FareyNeighbors => crate::rewrite_number::farey_neighbors_applicable(e),
            Rewrite::GaussianNorm => crate::rewrite_number::gaussian_norm_applicable(e),
            Rewrite::MobiusInversion => crate::rewrite_number::mobius_inversion_applicable(e),
            Rewrite::BinomialWeightedSum => crate::rewrite_counting::binomial_weighted_sum_applicable(e),
            Rewrite::FibonacciGeneratingFunction => crate::rewrite_counting::fibonacci_generating_function_applicable(e),
            Rewrite::BinomialSum2n => crate::rewrite_counting::binomial_sum_2n_applicable(e),
            Rewrite::PermutationWithRepetition => crate::rewrite_counting::permutation_with_repetition_applicable(e),
            Rewrite::MultinomialCoefficient => crate::rewrite_counting::multinomial_coefficient_applicable(e),
            Rewrite::LucasBinomialMod => crate::rewrite_counting::lucas_binomial_mod_applicable(e),
            Rewrite::CatalanAlternative => crate::rewrite_counting::catalan_alternative_applicable(e),
            Rewrite::PigeonholePrinciple => crate::rewrite_counting::pigeonhole_principle_applicable(e),
            Rewrite::CombinationWithRepetition => crate::rewrite_counting::combination_with_repetition_applicable(e),
            Rewrite::BinomialSquaresSum => crate::rewrite_counting::binomial_squares_sum_applicable(e),
            Rewrite::BinomialAlternatingSum => crate::rewrite_counting::binomial_alternating_sum_applicable(e),
            Rewrite::SturmSequence => crate::rewrite_counting::sturm_sequence_applicable(e),
            Rewrite::GaussLucasTheorem => crate::rewrite_counting::gauss_lucas_theorem_applicable(e),
            Rewrite::ModSelf => crate::rewrite_identity::mod_self_applicable(e),
            Rewrite::FloorInteger => crate::rewrite_identity::floor_integer_applicable(e),
            Rewrite::CeilingInteger => crate::rewrite_identity::ceiling_integer_applicable(e),
            Rewrite::FloorCeilingDiff => crate::rewrite_identity::floor_ceiling_diff_applicable(e),
            Rewrite::SquareZero => crate::rewrite_identity::square_zero_applicable(e),
            Rewrite::ZeroMod => crate::rewrite_identity::zero_mod_applicable(e),
            Rewrite::ModOne => crate::rewrite_identity::mod_one_applicable(e),
            Rewrite::SqrtSquare => crate::rewrite_identity::sqrt_square_applicable(e),
            Rewrite::SquareSqrt => crate::rewrite_identity::square_sqrt_applicable(e),
            Rewrite::SqrtProduct => crate::rewrite_identity::sqrt_product_applicable(e),
            Rewrite::SqrtQuotient => crate::rewrite_identity::sqrt_quotient_applicable(e),
            Rewrite::HalfPowerSqrt => crate::rewrite_identity::half_power_sqrt_applicable(e),
            Rewrite::NegOneEvenPower => crate::rewrite_identity::neg_one_even_power_applicable(e),
            Rewrite::NegOneOddPower => crate::rewrite_identity::neg_one_odd_power_applicable(e),
            Rewrite::NegSquared => crate::rewrite_identity::neg_squared_applicable(e),
            Rewrite::FactorialZero => crate::rewrite_identity::factorial_zero_applicable(e),
            Rewrite::FactorialOne => crate::rewrite_identity::factorial_one_applicable(e),
            Rewrite::FactorialRecurse => crate::rewrite_identity::factorial_recurse_applicable(e),
            Rewrite::LegendreFormula => crate::rewrite_identity::legendre_formula_applicable(e),
            Rewrite::LucasTheorem => crate::rewrite_identity::lucas_theorem_applicable(e),
            Rewrite::CauchySchwarz2 => crate::rewrite_identity::cauchy_schwarz_2_applicable(e),
            Rewrite::TriangleIneq => crate::rewrite_identity::triangle_ineq_applicable(e),
            Rewrite::ReverseTriangle => crate::rewrite_identity::reverse_triangle_applicable(e),
            Rewrite::SquareNonneg => crate::rewrite_identity::square_nonneg_applicable(e),
            Rewrite::DiffSquaredGeZero => crate::rewrite_identity::diff_squared_ge_zero_applicable(e),
            Rewrite::TitusLemma => crate::rewrite_identity::titus_lemma_applicable(e),
            Rewrite::DistanceFormula => crate::rewrite_geometry::distance_formula_applicable(e),
            Rewrite::ParabolaTangentParametric => crate::rewrite_geometry::parabola_tangent_parametric_applicable(e),
            Rewrite::ParabolaNormalParametric => crate::rewrite_geometry::parabola_normal_parametric_applicable(e),
            Rewrite::ParabolaFocalChordReciprocal => crate::rewrite_geometry::parabola_focal_chord_reciprocal_applicable(e),
            Rewrite::ParabolaChordOfContact => crate::rewrite_geometry::parabola_chord_of_contact_applicable(e),
            Rewrite::EllipseTangentParametric => crate::rewrite_geometry::ellipse_tangent_parametric_applicable(e),
            Rewrite::EllipseEccentricity => crate::rewrite_geometry::ellipse_eccentricity_applicable(e),
            Rewrite::EllipseDirectorCircle => crate::rewrite_geometry::ellipse_director_circle_applicable(e),
            Rewrite::EllipseAuxiliaryCircle => crate::rewrite_geometry::ellipse_auxiliary_circle_applicable(e),
            Rewrite::EllipseFocalSum => crate::rewrite_geometry::ellipse_focal_sum_applicable(e),
            Rewrite::HyperbolaAsymptotes => crate::rewrite_geometry::hyperbola_asymptotes_applicable(e),
            Rewrite::HyperbolaEccentricity => crate::rewrite_geometry::hyperbola_eccentricity_applicable(e),
            Rewrite::HyperbolaRectangular => crate::rewrite_geometry::hyperbola_rectangular_applicable(e),
            Rewrite::HyperbolaFocalDifference => crate::rewrite_geometry::hyperbola_focal_difference_applicable(e),
            Rewrite::HyperbolaConjugate => crate::rewrite_geometry::hyperbola_conjugate_applicable(e),
            Rewrite::CircleTangentAtPoint => crate::rewrite_geometry::circle_tangent_at_point_applicable(e),
            Rewrite::CirclePowerOfPoint => crate::rewrite_geometry::circle_power_of_point_applicable(e),
            Rewrite::CircleTangentLength => crate::rewrite_geometry::circle_tangent_length_applicable(e),
            Rewrite::SectionFormulaInternal => crate::rewrite_geometry::section_formula_internal_applicable(e),
            Rewrite::TriangleAreaCoordinates => crate::rewrite_geometry::triangle_area_coordinates_applicable(e),
            Rewrite::CollinearityCondition => crate::rewrite_geometry::collinearity_condition_applicable(e),
            Rewrite::TriangleCentroid => crate::rewrite_geometry::triangle_centroid_applicable(e),
        }
    }

    /// What this rewrite produces on `e`.
    pub fn apply(&self, e: &Expr) -> (v: Vec<RuleApplication>)
        ensures
            apps_view(v@) == results(*self, *e),
    {
        match self {
            Rewrite::DividesZero => divides_zero_apply(e),
            Rewrite::DividesSelf => divides_self_apply(e),
            Rewrite::EvenSum => even_sum_apply(e),
            Rewrite::DivBy2 => div_by_2_apply(e),
            Rewrite::CancelCommonFactor => cancel_common_factor_apply(e),
            Rewrite::MulByDenom => mul_by_denom_apply(e),
            Rewrite::DiffSquaresFactor => diff_squares_factor_apply(e),
            Rewrite::DiffCubesFactor => diff_cubes_factor_apply(e),
            Rewrite::SumCubesFactor => sum_cubes_factor_apply(e),
            Rewrite::SquareBinomialExpand => square_binomial_expand_apply(e),
            Rewrite::SquareBinomialSubExpand => square_binomial_sub_expand_apply(e),
            Rewrite::GcdSelf => gcd_self_apply(e),
            Rewrite::GcdZero => gcd_zero_apply(e),
            Rewrite::GcdOne => gcd_one_apply(e),
            Rewrite::LcmSelf => lcm_self_apply(e),
            Rewrite::LcmOne => lcm_one_apply(e),
            Rewrite::GcdLcmProduct => gcd_lcm_product_apply(e),
            Rewrite::SumConstant => sum_constant_apply(e),
            Rewrite::SumArithmetic => sum_arithmetic_apply(e),
            Rewrite::SumSquares => sum_squares_apply(e),
            Rewrite::SumCubes => sum_cubes_apply(e),
            Rewrite::GeometricSum => geometric_sum_apply(e),
            Rewrite::BinomialZero => binomial_zero_apply(e),
            Rewrite::BinomialFull => binomial_full_apply(e),
            Rewrite::BinomialSum => binomial_sum_apply(e),
            Rewrite::BinomialTheorem => binomial_theorem_apply(e),
            Rewrite::Pigeonhole => pigeonhole_apply(e),
            Rewrite::AmGm2 => am_gm_2_apply(e),
            Rewrite::SumSquaresGeProduct => sum_squares_ge_product_apply(e),
            Rewrite::SumThreeSquares => sum_three_squares_apply(e),
            Rewrite::ReciprocalSumGe2 => reciprocal_sum_ge_2_apply(e),
            Rewrite::AmGm3 => am_gm_3_apply(e),
            Rewrite::AbsNonneg => abs_nonneg_apply(e),
            Rewrite::AbsProduct => abs_product_apply(e),
            Rewrite::AbsQuotient => abs_quotient_apply(e),
            Rewrite::AbsNeg => abs_neg_apply(e),
            Rewrite::AbsAbs => abs_abs_apply(e),
            Rewrite::AbsSquared => abs_squared_apply(e),
            Rewrite::SumSquaresSym => sum_squares_sym_apply(e),
            Rewrite::CompleteSquare => complete_square_apply(e),
            Rewrite::DiffNthPower => diff_nth_power_apply(e),
            Rewrite::DiffCubes => diff_cubes_apply(e),
            Rewrite::PolySumCubes => poly_sum_cubes_apply(e),
            Rewrite::CyclotomicFactor => cyclotomic_factor_apply(e),
            Rewrite::BinomialFactor => binomial_factor_apply(e),
            Rewrite::CombBinomialOne => comb_binomial_one_apply(e),
            Rewrite::CombBinomialSymmetry => comb_binomial_symmetry_apply(e),
            Rewrite::CombPascalIdentity => comb_pascal_identity_apply(e),
            Rewrite::CombHockeyStick => comb_hockey_stick_apply(e),
            Rewrite::CombVandermonde => comb_vandermonde_apply(e),
            Rewrite::CombCountingRulesPermutationFormula => comb_counting_rules_permutation_formula_apply(e),
            Rewrite::CombCombinationFormula => comb_combination_formula_apply(e),
            Rewrite::CombPigeonholeGen => comb_pigeonhole_gen_apply(e),
            Rewrite::CombCountingRulesInclusionExclusion2 => comb_counting_rules_inclusion_exclusion_2_apply(e),
            Rewrite::CombCountingRulesInclusionExclusion3 => comb_counting_rules_inclusion_exclusion_3_apply(e),
            Rewrite::CombDerangement => comb_derangement_apply(e),
            Rewrite::CombCatalan => comb_catalan_apply(e),
            Rewrite::CombFibonacciRecurrence => comb_fibonacci_recurrence_apply(e),
            Rewrite::CombBinetFormula => comb_binet_formula_apply(e),
            Rewrite::CombLinearRecurrence => comb_linear_recurrence_apply(e),
            Rewrite::CombDerangementFormula => comb_derangement_formula_apply(e),
            Rewrite::CombDerangementRecurrence => comb_derangement_recurrence_apply(e),
            Rewrite::CombCatalanFormula => comb_catalan_formula_apply(e),
            Rewrite::CombCatalanRecurrence => comb_catalan_recurrence_apply(e),
            Rewrite::CombStirlingFirstRecurrence => comb_stirling_first_recurrence_apply(e),
            Rewrite::CombStirlingSecondRecurrence => comb_stirling_second_recurrence_apply(e),
            Rewrite::CombPartitionRecurrence => comb_partition_recurrence_apply(e),
            Rewrite::CombHockeyStickIdentity => comb_hockey_stick_identity_apply(e),
            Rewrite::CombVandermondeIdentity => comb_vandermonde_identity_apply(e),
            Rewrite::CombChuVandermonde => comb_chu_vandermonde_apply(e),
            Rewrite::CombMultinomialTheorem => comb_multinomial_theorem_apply(e),
            Rewrite::CombStarsAndBars => comb_stars_and_bars_apply(e),
            Rewrite::CombInclusionExclusion2InclusionExclusion2 => comb_inclusion_exclusion_2_inclusion_exclusion_2_apply(e),
            Rewrite::CombInclusionExclusion3InclusionExclusion3 => comb_inclusion_exclusion_3_inclusion_exclusion_3_apply(e),
            Rewrite::CombDoubleCounting => comb_double_counting_apply(e),
            Rewrite::CombOrdinaryGf => comb_ordinary_gf_apply(e),
            Rewrite::CombExponentialGf => comb_exponential_gf_apply(e),
            Rewrite::CombPermutationFormulaPermutationFormula => comb_permutation_formula_permutation_formula_apply(e),
            Rewrite::CombCircularPermutation => comb_circular_permutation_apply(e),
            Rewrite::CombDerangementAsymptotic => comb_derangement_asymptotic_apply(e),
            Rewrite::CombFibonacciAddition => comb_fibonacci_addition_apply(e),
            Rewrite::CombFibonacciGcd => comb_fibonacci_gcd_apply(e),
            Rewrite::CombLucasNumbers => comb_lucas_numbers_apply(e),
            Rewrite::CombBellNumberRecurrence => comb_bell_number_recurrence_apply(e),
            Rewrite::CombSubfactorial => comb_subfactorial_apply(e),
            Rewrite::CombChristmasStocking => comb_christmas_stocking_apply(e),
            Rewrite::CombRisingFactorial => comb_rising_factorial_apply(e),
            Rewrite::CombFallingFactorial => comb_falling_factorial_apply(e),
            Rewrite::CombLegendreFormula => comb_legendre_formula_apply(e),
            Rewrite::CombKummerTheorem => comb_kummer_theorem_apply(e),
            Rewrite::CombBurnsideLemma => comb_burnside_lemma_apply(e),
            Rewrite::CombPolyaEnumeration => comb_polya_enumeration_apply(e),
            Rewrite::CombPartitionIntoParts => comb_partition_into_parts_apply(e),
            Rewrite::CombPatternAvoidance => comb_pattern_avoidance_apply(e),
            Rewrite::CombDerangementSimpleRecurrence => comb_derangement_simple_recurrence_apply(e),
            Rewrite::IneqPositiveSquareRoot => ineq_positive_square_root_apply(e),
            Rewrite::IneqExpPositivity => ineq_exp_positivity_apply(e),
            Rewrite::NtChebyshevPrimeBounds => nt_chebyshev_prime_bounds_apply(e),
            Rewrite::NtTotientSum => nt_totient_sum_apply(e),
            Rewrite::NtPrimitiveRootCount => nt_primitive_root_count_apply(e),
            Rewrite::NtCarmichaelFunction => nt_carmichael_function_apply(e),
            Rewrite::NtPrimeGapBound => nt_prime_gap_bound_apply(e),
            Rewrite::NtQuadraticReciprocity => nt_quadratic_reciprocity_apply(e),
            Rewrite::NtJacobiSymbol => nt_jacobi_symbol_apply(e),
            Rewrite::NtKroneckerSymbol => nt_kronecker_symbol_apply(e),
            Rewrite::NtTonelliShanks => nt_tonelli_shanks_apply(e),
            Rewrite::NtDiscreteLogOrder => nt_discrete_log_order_apply(e),
            Rewrite::NtContinuedFractionGcd => nt_continued_fraction_gcd_apply(e),
            Rewrite::NtSternBrocot => nt_stern_brocot_apply(e),
            Rewrite::NtEgyptianFraction => nt_egyptian_fraction_apply(e),
            Rewrite::NtGaussianPrime => nt_gaussian_prime_apply(e),
            Rewrite::PolyVietaSumQuadratic => poly_vieta_sum_quadratic_apply(e),
            Rewrite::PolyVietaProductQuadratic => poly_vieta_product_quadratic_apply(e),
            Rewrite::PolyVietaSumCubic => poly_vieta_sum_cubic_apply(e),
            Rewrite::PolyVietaPairsCubic => poly_vieta_pairs_cubic_apply(e),
            Rewrite::PolyVietaProductCubic => poly_vieta_product_cubic_apply(e),
            Rewrite::PolyElementarySym1 => poly_elementary_sym_1_apply(e),
            Rewrite::PolyElementarySym2 => poly_elementary_sym_2_apply(e),
            Rewrite::PolyNewtonIdentity1 => poly_newton_identity_1_apply(e),
            Rewrite::PolyNewtonIdentity2 => poly_newton_identity_2_apply(e),
            Rewrite::PolyNewtonIdentity3 => poly_newton_identity_3_apply(e),
            Rewrite::PolySumCubesSym => poly_sum_cubes_sym_apply(e),
            Rewrite::PolySumThreeCubes => poly_sum_three_cubes_apply(e),
            Rewrite::PolyFactorTheorem => poly_factor_theorem_apply(e),
            Rewrite::PolyRemainderTheorem => poly_remainder_theorem_apply(e),
            Rewrite::PolyPolyDivIdentity => poly_poly_div_identity_apply(e),
            Rewrite::PolySophieGermain => poly_sophie_germain_apply(e),
            Rewrite::PolyFactorByGrouping => poly_factor_by_grouping_apply(e),
            Rewrite::PolySumOddPowers => poly_sum_odd_powers_apply(e),
            Rewrite::PolyDiffEvenPowers => poly_diff_even_powers_apply(e),
            Rewrite::PolyQuadraticSubstitution => poly_quadratic_substitution_apply(e),
            Rewrite::PolySymmetricFactor => poly_symmetric_factor_apply(e),
            Rewrite::PolyPartialFractions => poly_partial_fractions_apply(e),
            Rewrite::PolyHornerMethod => poly_horner_method_apply(e),
            Rewrite::PolySyntheticDivision => poly_synthetic_division_apply(e),
            Rewrite::PolyPolynomialLongDivision => poly_polynomial_long_division_apply(e),
            Rewrite::PolyRuffiniRule => poly_ruffini_rule_apply(e),
            Rewrite::PolyRationalRootTheorem => poly_rational_root_theorem_apply(e),
            Rewrite::PolyIntegerRoot => poly_integer_root_apply(e),
            Rewrite::PolyQuadraticFormula => poly_quadratic_formula_apply(e),
            Rewrite::PolyDiscriminantSign => poly_discriminant_sign_apply(e),
            Rewrite::PolyDiscriminantPerfectSquare => poly_discriminant_perfect_square_apply(e),
            Rewrite::PolyCardanoFormula => poly_cardano_formula_apply(e),
            Rewrite::PolyCubicDiscriminant => poly_cubic_discriminant_apply(e),
            Rewrite::PolyQuarticResolvent => poly_quartic_resolvent_apply(e),
            Rewrite::PolyDescartesRule => poly_descartes_rule_apply(e),
            Rewrite::PolyResultantDefinition => poly_resultant_definition_apply(e),
            Rewrite::PolyBezoutTheorem => poly_bezout_theorem_apply(e),
            Rewrite::PolyCauchyBound => poly_cauchy_bound_apply(e),
            Rewrite::PolyFujiwaraBound => poly_fujiwara_bound_apply(e),
            Rewrite::PolyLagrangeInterpolation => poly_lagrange_interpolation_apply(e),
            Rewrite::PolyNewtonInterpolation => poly_newton_interpolation_apply(e),
            Rewrite::PolyChebyshevRecurrence => poly_chebyshev_recurrence_apply(e),
            Rewrite::PolyHermiteRecurrence => poly_hermite_recurrence_apply(e),
            Rewrite::PolyLegendreRecurrence => poly_legendre_recurrence_apply(e),
            Rewrite::PolyLaguerreRecurrence => poly_laguerre_recurrence_apply(e),
            Rewrite::PowerRule => crate::rewrite_derivative::power_rule_apply(e),
            Rewrite::ConstantRule => crate::rewrite_derivative::constant_rule_apply(e),
            Rewrite::SumRule => crate::rewrite_derivative::sum_rule_apply(e),
            Rewrite::ProductRule => crate::rewrite_derivative::product_rule_apply(e),
            Rewrite::QuotientRule => crate::rewrite_derivative::quotient_rule_apply(e),
            Rewrite::SinChainRule => crate::rewrite_derivative::sin_chain_rule_apply(e),
            Rewrite::CosChainRule => crate::rewrite_derivative::cos_chain_rule_apply(e),
            Rewrite::ExpDerivative => crate::rewrite_derivative::exp_derivative_apply(e),
            Rewrite::LnDerivative => crate::rewrite_derivative::ln_derivative_apply(e),
            Rewrite::ChainRuleTan => crate::rewrite_derivative::chain_rule_tan_apply(e),
            Rewrite::ChainRuleExp => crate::rewrite_derivative::chain_rule_exp_apply(e),
            Rewrite::ChainRuleLn => crate::rewrite_derivative::chain_rule_ln_apply(e),
            Rewrite::InverseTrigDerivArcsin => crate::rewrite_derivative::inverse_trig_deriv_arcsin_apply(e),
            Rewrite::DiffRule => crate::rewrite_derivative::diff_rule_apply(e),
            Rewrite::ConstantMultipleRule => crate::rewrite_derivative::constant_multiple_rule_apply(e),
            Rewrite::ConstantBaseExpSimple => crate::rewrite_derivative::constant_base_exp_simple_apply(e),
            Rewrite::ConstantBaseExpChain => crate::rewrite_derivative::constant_base_exp_chain_apply(e),
            Rewrite::SqrtChainRule => crate::rewrite_derivative::sqrt_chain_rule_apply(e),
            Rewrite::GeneralPowerRule => crate::rewrite_derivative::general_power_rule_apply(e),
            Rewrite::LogBaseSimple => crate::rewrite_derivative::log_base_simple_apply(e),
            Rewrite::LogBaseChain => crate::rewrite_derivative::log_base_chain_apply(e),
            Rewrite::SecDerivative => crate::rewrite_derivative::sec_derivative_apply(e),
            Rewrite::CscDerivative => crate::rewrite_derivative::csc_derivative_apply(e),
            Rewrite::CotDerivative => crate::rewrite_derivative::cot_derivative_apply(e),
            Rewrite::ArcsinDerivative => crate::rewrite_derivative::arcsin_derivative_apply(e),
            Rewrite::ArccosDerivative => crate::rewrite_derivative::arccos_derivative_apply(e),
            Rewrite::ArctanDerivative => crate::rewrite_derivative::arctan_derivative_apply(e),
            Rewrite::ArccotDerivative => crate::rewrite_derivative::arccot_derivative_apply(e),
            Rewrite::ArcsecDerivative => crate::rewrite_derivative::arcsec_derivative_apply(e),
            Rewrite::ArccscDerivative => crate::rewrite_derivative::arccsc_derivative_apply(e),
            Rewrite::Inert => crate::rewrite_integral::inert_apply(e),
            Rewrite::IntegralPower => crate::rewrite_integral::integral_power_apply(e),
            Rewrite::IntegralInvA2PlusX2 => crate::rewrite_integral::integral_inv_a2_plus_x2_apply(e),
            Rewrite::IntegralConstantMultiple => crate::rewrite_integral::integral_constant_multiple_apply(e),
            Rewrite::IntegralConstant => crate::rewrite_integral::integral_constant_apply(e),
            Rewrite::IntegralSum => crate::rewrite_integral::integral_sum_apply(e),
            Rewrite::IntegralDifference => crate::rewrite_integral::integral_difference_apply(e),
            Rewrite::IntegralExp => crate::rewrite_integral::integral_exp_apply(e),
            Rewrite::IntegralLn => crate::rewrite_integral::integral_ln_apply(e),
            Rewrite::IntegralSin => crate::rewrite_integral::integral_sin_apply(e),
            Rewrite::IntegralCos => crate::rewrite_integral::integral_cos_apply(e),
            Rewrite::IntegralTan => crate::rewrite_integral::integral_tan_apply(e),
            Rewrite::IntegralSec2 => crate::rewrite_integral::integral_sec2_apply(e),
            Rewrite::IntegralCsc2 => crate::rewrite_integral::integral_csc2_apply(e),
            Rewrite::IntegrationByParts => crate::rewrite_integral::integration_by_parts_apply(e),
            Rewrite::USubstitution => crate::rewrite_integral::u_substitution_apply(e),
            Rewrite::PartialFractions => crate::rewrite_integral::partial_fractions_apply(e),
            Rewrite::TrigSubstitution => crate::rewrite_integral::trig_substitution_apply(e),
            Rewrite::IntegralCot => crate::rewrite_integral::integral_cot_apply(e),
            Rewrite::IntegralSec => crate::rewrite_integral::integral_sec_apply(e),
            Rewrite::IntegralCsc => crate::rewrite_integral::integral_csc_apply(e),
            Rewrite::IntegralSecTan => crate::rewrite_integral::integral_sec_tan_apply(e),
            Rewrite::IntegralInvSqrtA2MinusX2 => crate::rewrite_integral::integral_inv_sqrt_a2_minus_x2_apply(e),
            Rewrite::IntegralInvXSqrtX2MinusA2 => crate::rewrite_integral::integral_inv_x_sqrt_x2_minus_a2_apply(e),
            Rewrite::IntegralXSin => crate::rewrite_integral::integral_x_sin_apply(e),
            Rewrite::IntegralXCos => crate::rewrite_integral::integral_x_cos_apply(e),
            Rewrite::IntegralLnX => crate::rewrite_integral::integral_ln_x_apply(e),
            Rewrite::IntegralXExpAx => crate::rewrite_integral::integral_x_exp_ax_apply(e),
            Rewrite::IntegralXOverX2PlusA2 => crate::rewrite_integral::integral_x_over_x2_plus_a2_apply(e),
            Rewrite::IntegralXOverX2MinusA2 => crate::rewrite_integral::integral_x_over_x2_minus_a2_apply(e),
            Rewrite::IntegralExpAx => crate::rewrite_integral::integral_exp_ax_apply(e),
            Rewrite::IntegralOneOverX2MinusA2 => crate::rewrite_integral::integral_one_over_x2_minus_a2_apply(e),
            Rewrite::IntegralSinSquared => crate::rewrite_integral::integral_sin_squared_apply(e),
            Rewrite::IntegralCosSquared => crate::rewrite_integral::integral_cos_squared_apply(e),
            Rewrite::IntegralTanSquared => crate::rewrite_integral::integral_tan_squared_apply(e),
            Rewrite::IntegralSecCubed => crate::rewrite_integral::integral_sec_cubed_apply(e),
            Rewrite::IntegralX2Sin => crate::rewrite_integral::integral_x2_sin_apply(e),
            Rewrite::IntegralX2Cos => crate::rewrite_integral::integral_x2_cos_apply(e),
            Rewrite::IntegralExpSin => crate::rewrite_integral::integral_exp_sin_apply(e),
            Rewrite::IntegralExpCos => crate::rewrite_integral::integral_exp_cos_apply(e),
            Rewrite::IntegralSqrtA2MinusX2 => crate::rewrite_integral::integral_sqrt_a2_minus_x2_apply(e),
            Rewrite::IntegralSqrtX2PlusA2 => crate::rewrite_integral::integral_sqrt_x2_plus_a2_apply(e),
            Rewrite::IntegralSqrtX2MinusA2 => crate::rewrite_integral::integral_sqrt_x2_minus_a2_apply(e),
            Rewrite::IntegralXSqrtA2MinusX2 => crate::rewrite_integral::integral_x_sqrt_a2_minus_x2_apply(e),
            Rewrite::IntegralInvSqrtX2PlusA2 => crate::rewrite_integral::integral_inv_sqrt_x2_plus_a2_apply(e),
            Rewrite::IntegralInvSqrtX2MinusA2 => crate::rewrite_integral::integral_inv_sqrt_x2_minus_a2_apply(e),
            Rewrite::IntegralXOverSqrtX2PlusA2 => crate::rewrite_integral::integral_x_over_sqrt_x2_plus_a2_apply(e),
            Rewrite::PowerIntegral => crate::rewrite_integration::power_integral_apply(e),
            Rewrite::OneOverXIntegral => crate::rewrite_integration::one_over_x_integral_apply(e),
            Rewrite::ConstantMultipleIntegral => crate::rewrite_integration::constant_multiple_integral_apply(e),
            Rewrite::ConstantIntegral => crate::rewrite_integration::constant_integral_apply(e),
            Rewrite::SumIntegral => crate::rewrite_integration::sum_integral_apply(e),
            Rewrite::DifferenceIntegral => crate::rewrite_integration::difference_integral_apply(e),
            Rewrite::SinIntegral => crate::rewrite_integration::sin_integral_apply(e),
            Rewrite::CosIntegral => crate::rewrite_integration::cos_integral_apply(e),
            Rewrite::ExpIntegral => crate::rewrite_integration::exp_integral_apply(e),
            Rewrite::IsolateVariable => crate::rewrite_equation::isolate_variable_apply(e),
            Rewrite::CancelAddition => crate::rewrite_equation::cancel_addition_apply(e),
            Rewrite::CancelSubtraction => crate::rewrite_equation::cancel_subtraction_apply(e),
            Rewrite::CancelMultiplication => crate::rewrite_equation::cancel_multiplication_apply(e),
            Rewrite::CancelDivision => crate::rewrite_equation::cancel_division_apply(e),
            Rewrite::LinearSolve => crate::rewrite_equation::linear_solve_apply(e),
            Rewrite::QuadraticFormula => crate::rewrite_equation::quadratic_formula_apply(e),
            Rewrite::BernoulliInequality => crate::rewrite_inequality::bernoulli_inequality_apply(e),
            Rewrite::QmAmInequality => crate::rewrite_inequality::qm_am_inequality_apply(e),
            Rewrite::HmGmInequality => crate::rewrite_inequality::hm_gm_inequality_apply(e),
            Rewrite::AbsProductSplit => crate::rewrite_inequality::abs_product_split_apply(e),
            Rewrite::AbsPower => crate::rewrite_inequality::abs_power_apply(e),
            Rewrite::BothSides => crate::rewrite_inequality::both_sides_apply(e),
            Rewrite::SqrtComparison => crate::rewrite_inequality::sqrt_comparison_apply(e),
            Rewrite::LnComparison => crate::rewrite_inequality::ln_comparison_apply(e),
            Rewrite::ExpMonotonic => crate::rewrite_inequality::exp_monotonic_apply(e),
            Rewrite::LnMonotonic => crate::rewrite_inequality::ln_monotonic_apply(e),
            Rewrite::FermatLittleTheorem => crate::rewrite_number::fermat_little_theorem_apply(e),
            Rewrite::FermatLastTheorem => crate::rewrite_number::fermat_last_theorem_apply(e),
            Rewrite::PrimeCountingApprox => crate::rewrite_number::prime_counting_approx_apply(e),
            Rewrite::LinearDiophantine => crate::rewrite_number::linear_diophantine_apply(e),
            Rewrite::PellEquation => crate::rewrite_number::pell_equation_apply(e),
            Rewrite::SumOfDivisors => crate::rewrite_number::sum_of_divisors_apply(e),
            Rewrite::NumberOfDivisors => crate::rewrite_number::number_of_divisors_apply(e),
            Rewrite::EulerTheorem => crate::rewrite_number::euler_theorem_apply(e),
            Rewrite::EulerPhiMultiplicative => crate::rewrite_number::euler_phi_multiplicative_apply(e),
            Rewrite::EulerPhiPrimePower => crate::rewrite_number::euler_phi_prime_power_apply(e),
            Rewrite::ChineseRemainderTheorem => crate::rewrite_number::chinese_remainder_theorem_apply(e),
            Rewrite::QuadraticResidue => crate::rewrite_number::quadratic_residue_apply(e),
            Rewrite::LegendreSymbolMultiplicative => crate::rewrite_number::legendre_symbol_multiplicative_apply(e),
            Rewrite::EulerCriterion => crate::rewrite_number::euler_criterion_apply(e),
            Rewrite::BertrandPostulate => crate::rewrite_number::bertrand_postulate_apply(e),
            Rewrite::SumOfTwoSquares => crate::rewrite_number::sum_of_two_squares_apply(e),
            Rewrite::SumOfFourSquares => crate::rewrite_number::sum_of_four_squares_apply(e),
            Rewrite::WilsonTheorem => crate::rewrite_number::wilson_theorem_apply(e),
            Rewrite::HenselLemma => crate::rewrite_number::hensel_lemma_apply(e),
            Rewrite::OrderDividesPhi => crate::rewrite_number::order_divides_phi_apply(e),
            Rewrite::PrimitiveRootExistence => crate::rewrite_number::primitive_root_existence_apply(e),
            Rewrite::MobiusMultiplicative => crate::rewrite_number::mobius_multiplicative_apply(e),
            Rewrite::EvenPerfectNumber => crate::rewrite_number::even_perfect_number_apply(e),
            Rewrite::MersennePrimeCondition => crate::rewrite_number::mersenne_prime_condition_apply(e),
            Rewrite::SquareFreeDensity => crate::rewrite_number::square_free_density_apply(e),
            Rewrite::SophieGermainPrime => crate::rewrite_number::sophie_germain_prime_apply(e),
            Rewrite::FareyNeighbors => crate::rewrite_number::farey_neighbors_apply(e),
            Rewrite::GaussianNorm => crate::rewrite_number::gaussian_norm_apply(e),
            Rewrite::MobiusInversion => crate::rewrite_number::mobius_inversion_apply(e),
            Rewrite::BinomialWeightedSum => crate::rewrite_counting::binomial_weighted_sum_apply(e),
            Rewrite::FibonacciGeneratingFunction => crate::rewrite_counting::fibonacci_generating_function_apply(e),
            Rewrite::BinomialSum2n => crate::rewrite_counting::binomial_sum_2n_apply(e),
            Rewrite::PermutationWithRepetition => crate::rewrite_counting::permutation_with_repetition_apply(e),
            Rewrite::MultinomialCoefficient => crate::rewrite_counting::multinomial_coefficient_apply(e),
            Rewrite::LucasBinomialMod => crate::rewrite_counting::lucas_binomial_mod_apply(e),
            Rewrite::CatalanAlternative => crate::rewrite_counting::catalan_alternative_apply(e),
            Rewrite::PigeonholePrinciple => crate::rewrite_counting::pigeonhole_principle_apply(e),
            Rewrite::CombinationWithRepetition => crate::rewrite_counting::combination_with_repetition_apply(e),
            Rewrite::BinomialSquaresSum => crate::rewrite_counting::binomial_squares_sum_apply(e),
            Rewrite::BinomialAlternatingSum => crate::rewrite_counting::binomial_alternating_sum_apply(e),
            Rewrite::SturmSequence => crate::rewrite_counting::sturm_sequence_apply(e),
            Rewrite::GaussLucasTheorem => crate::rewrite_counting::gauss_lucas_theorem_apply(e),
            Rewrite::ModSelf => crate::rewrite_identity::mod_self_apply(e),
            Rewrite::FloorInteger => crate::rewrite_identity::floor_integer_apply(e),
            Rewrite::CeilingInteger => crate::rewrite_identity::ceiling_integer_apply(e),
            Rewrite::FloorCeilingDiff => crate::rewrite_identity::floor_ceiling_diff_apply(e),
            Rewrite::SquareZero => crate::rewrite_identity::square_zero_apply(e),
            Rewrite::ZeroMod => crate::rewrite_identity::zero_mod_apply(e),
            Rewrite::ModOne => crate::rewrite_identity::mod_one_apply(e),
            Rewrite::SqrtSquare => crate::rewrite_identity::sqrt_square_apply(e),
            Rewrite::SquareSqrt => crate::rewrite_identity::square_sqrt_apply(e),
            Rewrite::SqrtProduct => crate::rewrite_identity::sqrt_product_apply(e),
            Rewrite::SqrtQuotient => crate::rewrite_identity::sqrt_quotient_apply(e),
            Rewrite::HalfPowerSqrt => crate::rewrite_identity::half_power_sqrt_apply(e),
            Rewrite::NegOneEvenPower => crate::rewrite_identity::neg_one_even_power_apply(e),
            Rewrite::NegOneOddPower => crate::rewrite_identity::neg_one_odd_power_apply(e),
            Rewrite::NegSquared => crate::rewrite_identity::neg_squared_apply(e),
            Rewrite::FactorialZero => crate::rewrite_identity::factorial_zero_apply(e),
            Rewrite::FactorialOne => crate::rewrite_identity::factorial_one_apply(e),
            Rewrite::FactorialRecurse => crate::rewrite_identity::factorial_recurse_apply(e),
            Rewrite::LegendreFormula => crate::rewrite_identity::legendre_formula_apply(e),
            Rewrite::LucasTheorem => crate::rewrite_identity::lucas_theorem_apply(e),
            Rewrite::CauchySchwarz2 => crate::rewrite_identity::cauchy_schwarz_2_apply(e),
            Rewrite::TriangleIneq => crate::rewrite_identity::triangle_ineq_apply(e),
            Rewrite::ReverseTriangle => crate::rewrite_identity::reverse_triangle_apply(e),
            Rewrite::SquareNonneg => crate::rewrite_identity::square_nonneg_apply(e),
            Rewrite::DiffSquaredGeZero => crate::rewrite_identity::diff_squared_ge_zero_apply(e),
            Rewrite::TitusLemma => crate::rewrite_identity::titus_lemma_apply(e),
            Rewrite::DistanceFormula => crate::rewrite_geometry::distance_formula_apply(e),
            Rewrite::ParabolaTangentParametric => crate::rewrite_geometry::parabola_tangent_parametric_apply(e),
            Rewrite::ParabolaNormalParametric => crate::rewrite_geometry::parabola_normal_parametric_apply(e),
            Rewrite::ParabolaFocalChordReciprocal => crate::rewrite_geometry::parabola_focal_chord_reciprocal_apply(e),
            Rewrite::ParabolaChordOfContact => crate::rewrite_geometry::parabola_chord_of_contact_apply(e),
            Rewrite::EllipseTangentParametric => crate::rewrite_geometry::ellipse_tangent_parametric_apply(e),
            Rewrite::EllipseEccentricity => crate::rewrite_geometry::ellipse_eccentricity_apply(e),
            Rewrite::EllipseDirectorCircle => crate::rewrite_geometry::ellipse_director_circle_apply(e),
            Rewrite::EllipseAuxiliaryCircle => crate::rewrite_geometry::ellipse_auxiliary_circle_apply(e),
            Rewrite::EllipseFocalSum => crate::rewrite_geometry::ellipse_focal_sum_apply(e),
            Rewrite::HyperbolaAsymptotes => crate::rewrite_geometry::hyperbola_asymptotes_apply(e),
            Rewrite::HyperbolaEccentricity => crate::rewrite_geometry::hyperbola_eccentricity_apply(e),
            Rewrite::HyperbolaRectangular => crate::rewrite_geometry::hyperbola_rectangular_apply(e),
            Rewrite::HyperbolaFocalDifference => crate::rewrite_geometry::hyperbola_focal_difference_apply(e),
            Rewrite::HyperbolaConjugate => crate::rewrite_geometry::hyperbola_conjugate_apply(e),
            Rewrite::CircleTangentAtPoint => crate::rewrite_geometry::circle_tangent_at_point_apply(e),
            Rewrite::CirclePowerOfPoint => crate::rewrite_geometry::circle_power_of_point_apply(e),
            Rewrite::CircleTangentLength => crate::rewrite_geometry::circle_tangent_length_apply(e),
            Rewrite::SectionFormulaInternal => crate::rewrite_geometry::section_formula_internal_apply(e),
            Rewrite::TriangleAreaCoordinates => crate::rewrite_geometry::triangle_area_coordinates_apply(e),
            Rewrite::CollinearityCondition => crate::rewrite_geometry::collinearity_condition_apply(e),
            Rewrite::TriangleCentroid => crate::rewrite_geometry::triangle_centroid_apply(e),
        }
    }
}

} // verus!
