//! The rewrites of the coordinate-geometry rules.
//!
//! Most of these rules recognise a conic or a coordinate formula by its shape
//! and answer with the expression itself and the property that applies.  The
//! distance rule evaluates `√(a² + b²)` for constants `a` and `b`.

use vstd::prelude::*;
use crate::expr::{copy_expr, Expr};
use crate::rational::{fits, radd, rat, rmul, Rational};
use crate::rewrite::{is_lit, is_lit_e, none, nothing, one, single};
use crate::rule::{apps_view, RuleApplication};

verus! {

// ---------------------------------------------------------------------------
// Shape tests
// ---------------------------------------------------------------------------

/// Whether `e` is the constant 1.
pub open spec fn const_one(e: Expr) -> bool {
    is_lit(e, 1)
}

/// Whether `expr` is the constant 1.
pub fn is_const_one(expr: &Expr) -> (b: bool)
    ensures
        b == const_one(*expr),
{
    is_lit_e(expr, 1)
}

/// Whether `e` is the constant 0.
pub open spec fn const_zero(e: Expr) -> bool {
    is_lit(e, 0)
}

/// Whether `expr` is the constant 0.
pub fn is_const_zero(expr: &Expr) -> (b: bool)
    ensures
        b == const_zero(*expr),
{
    is_lit_e(expr, 0)
}

/// Whether `e` is the constant 3.
pub open spec fn const_three(e: Expr) -> bool {
    is_lit(e, 3)
}

/// Whether `expr` is the constant 3.
pub fn is_const_three(expr: &Expr) -> (b: bool)
    ensures
        b == const_three(*expr),
{
    is_lit_e(expr, 3)
}

/// Whether `e` is the square `v^2` of a variable.
pub open spec fn y_squared(e: Expr) -> bool {
    e matches Expr::Pow(b, x) && is_lit(*x, 2) && (*b matches Expr::Var(_))
}

/// Whether `expr` is the square of a variable.
pub fn is_y_squared(expr: &Expr) -> (r: bool)
    ensures
        r == y_squared(*expr),
{
    match expr {
        Expr::Pow(b, x) => is_lit_e(x, 2) && match &**b {
            Expr::Var(_) => true,
            _ => false,
        },
        _ => false,
    }
}

/// Whether `e` is `1/…`.
pub open spec fn reciprocal(e: Expr) -> bool {
    e matches Expr::Div(n, _) && const_one(*n)
}

/// Whether `expr` is a reciprocal `1/…`.
pub fn is_reciprocal(expr: &Expr) -> (r: bool)
    ensures
        r == reciprocal(*expr),
{
    match expr {
        Expr::Div(n, _) => is_const_one(n),
        _ => false,
    }
}

/// Whether `e` is `1/2` written as a quotient.
pub open spec fn one_half(e: Expr) -> bool {
    e matches Expr::Div(n, d) && const_one(*n) && is_lit(*d, 2)
}

/// Whether `expr` is `1/2` written as a quotient.
pub fn is_one_half(expr: &Expr) -> (r: bool)
    ensures
        r == one_half(*expr),
{
    match expr {
        Expr::Div(n, d) => is_const_one(n) && is_lit_e(d, 2),
        _ => false,
    }
}

/// Whether `e` is a square `…^2`.
pub open spec fn squared(e: Expr) -> bool {
    e matches Expr::Pow(_, x) && is_lit(*x, 2)
}

/// Whether `expr` is a square.
pub fn is_squared(expr: &Expr) -> (r: bool)
    ensures
        r == squared(*expr),
{
    match expr {
        Expr::Pow(_, x) => is_lit_e(x, 2),
        _ => false,
    }
}

/// Whether `e` is an equation `p² + q² = …`.
pub open spec fn circle_equation(e: Expr) -> bool {
    e matches Expr::Equation { lhs, .. } && (*lhs matches Expr::Add(a, b) && squared(*a) && squared(*b))
}

/// Whether `expr` is an equation `p² + q² = …`.
pub fn is_circle_equation(expr: &Expr) -> (r: bool)
    ensures
        r == circle_equation(*expr),
{
    match expr {
        Expr::Equation { lhs, .. } => match &**lhs {
            Expr::Add(a, b) => is_squared(a) && is_squared(b),
            _ => false,
        },
        _ => false,
    }
}

// ---------------------------------------------------------------------------
// Distance
// ---------------------------------------------------------------------------

/// `√(p² + q²)`: for constants `a`, `b` under the squares, `√(a² + b²)`
/// evaluated under the root (when it fits); any other expression is answered
/// with itself.
pub open spec fn distance_formula_applies(e: Expr) -> bool {
    e matches Expr::Sqrt(x) && (*x matches Expr::Add(l, r) && squared(*l) && squared(*r))
}

/// The results of `distance_formula` on `e`, each with its justification.
pub open spec fn distance_formula_results(e: Expr) -> Seq<(Expr, Seq<char>)> {
    if e matches Expr::Sqrt(x) && (*x matches Expr::Add(l, r) && (*l matches Expr::Pow(a, _) && (*a matches Expr::Const(_)))
        && (*r matches Expr::Pow(b, _) && (*b matches Expr::Const(_)))) {
        let a = e->Sqrt_0->Add_0->Pow_0->Const_0.pair();
        let b = e->Sqrt_0->Add_1->Pow_0->Const_0.pair();
        let s = radd(rmul(a, a), rmul(b, b));
        if fits(rmul(a, a)) && fits(rmul(b, b)) && fits(s) {
            one(Expr::Sqrt(Box::new(Expr::Const(rat(s)))), "Distance formula: √(a² + b²)"@)
        } else {
            none()
        }
    } else {
        one(e, "Distance formula pattern: √(Δx² + Δy²)"@)
    }
}

/// Whether [`distance_formula_applies`] holds of `e`.
pub(crate) fn distance_formula_applicable(e: &Expr) -> (r: bool)
    ensures
        r == distance_formula_applies(*e),
{
    match e {
        Expr::Sqrt(x) => match &**x {
            Expr::Add(l, r) => is_squared(l) && is_squared(r),
            _ => false,
        },
        _ => false,
    }
}

fn const_pair(e: &Expr) -> (r: Option<(Rational, Rational)>)
    ensures
        r is Some <==> (*e matches Expr::Sqrt(x) && (*x matches Expr::Add(l, r) && (*l matches Expr::Pow(a, _)
            && (*a matches Expr::Const(_))) && (*r matches Expr::Pow(b, _) && (*b matches Expr::Const(_))))),
        r matches Some((a, b)) ==> a == e->Sqrt_0->Add_0->Pow_0->Const_0 && b == e->Sqrt_0->Add_1->Pow_0->Const_0,
{
    match e {
        Expr::Sqrt(x) => match &**x {
            Expr::Add(l, r) => match (&**l, &**r) {
                (Expr::Pow(a, _), Expr::Pow(b, _)) => match (&**a, &**b) {
                    (Expr::Const(va), Expr::Const(vb)) => Some((*va, *vb)),
                    _ => None,
                },
                _ => None,
            },
            _ => None,
        },
        _ => None,
    }
}

/// The results of `distance_formula` on `e`, as [`distance_formula_results`] states.
pub(crate) fn distance_formula_apply(e: &Expr) -> (v: Vec<RuleApplication>)
    ensures
        apps_view(v@) == distance_formula_results(*e),
{
    match const_pair(e) {
        Some((a, b)) => {
            let aa = match a.checked_mul(&a) {
                Some(x) => x,
                None => return nothing(),
            };
            let bb = match b.checked_mul(&b) {
                Some(x) => x,
                None => return nothing(),
            };
            let s = match aa.checked_add(&bb) {
                Some(x) => x,
                None => return nothing(),
            };
            proof {
                crate::rational::lemma_rat_pair(s);
            }
            single(Expr::Sqrt(Box::new(Expr::Const(s))), "Distance formula: √(a² + b²)")
        },
        None => single(copy_expr(e), "Distance formula pattern: √(Δx² + Δy²)"),
    }
}

// ---------------------------------------------------------------------------
// Recognised shapes
// ---------------------------------------------------------------------------

/// A parabola `y² = …`: answered with itself and the tangent at parameter `t`.
pub open spec fn parabola_tangent_parametric_applies(e: Expr) -> bool {
    e matches Expr::Equation { lhs, .. } && y_squared(*lhs)
}

/// The results of `parabola_tangent_parametric` on `e`, each with its justification.
pub open spec fn parabola_tangent_parametric_results(e: Expr) -> Seq<(Expr, Seq<char>)> {
    one(e, "Parabola detected. Tangent at parameter t: ty = x + at²"@)
}

/// Whether [`parabola_tangent_parametric_applies`] holds of `e`.
pub(crate) fn parabola_tangent_parametric_applicable(e: &Expr) -> (r: bool)
    ensures
        r == parabola_tangent_parametric_applies(*e),
{
    match e {
        Expr::Equation { lhs, .. } => is_y_squared(lhs),
        _ => false,
    }
}

/// The results of `parabola_tangent_parametric` on `e`, as [`parabola_tangent_parametric_results`] states.
pub(crate) fn parabola_tangent_parametric_apply(e: &Expr) -> (v: Vec<RuleApplication>)
    ensures
        apps_view(v@) == parabola_tangent_parametric_results(*e),
{
    single(copy_expr(e), "Parabola detected. Tangent at parameter t: ty = x + at²")
}

/// A parabola `y² = …`: answered with itself and the normal at parameter `t`.
pub open spec fn parabola_normal_parametric_applies(e: Expr) -> bool {
    e matches Expr::Equation { lhs, .. } && y_squared(*lhs)
}

/// The results of `parabola_normal_parametric` on `e`, each with its justification.
pub open spec fn parabola_normal_parametric_results(e: Expr) -> Seq<(Expr, Seq<char>)> {
    one(e, "Parabola detected. Normal at parameter t: y + tx = 2at + at³"@)
}

/// Whether [`parabola_normal_parametric_applies`] holds of `e`.
pub(crate) fn parabola_normal_parametric_applicable(e: &Expr) -> (r: bool)
    ensures
        r == parabola_normal_parametric_applies(*e),
{
    match e {
        Expr::Equation { lhs, .. } => is_y_squared(lhs),
        _ => false,
    }
}

/// The results of `parabola_normal_parametric` on `e`, as [`parabola_normal_parametric_results`] states.
pub(crate) fn parabola_normal_parametric_apply(e: &Expr) -> (v: Vec<RuleApplication>)
    ensures
        apps_view(v@) == parabola_normal_parametric_results(*e),
{
    single(copy_expr(e), "Parabola detected. Normal at parameter t: y + tx = 2at + at³")
}

/// A sum of two reciprocals: the focal-chord property.
pub open spec fn parabola_focal_chord_reciprocal_applies(e: Expr) -> bool {
    e matches Expr::Add(a, b) && reciprocal(*a) && reciprocal(*b)
}

/// The results of `parabola_focal_chord_reciprocal` on `e`, each with its justification.
pub open spec fn parabola_focal_chord_reciprocal_results(e: Expr) -> Seq<(Expr, Seq<char>)> {
    one(e, "Focal chord reciprocal property: 1/SP + 1/SQ = 2/l"@)
}

/// Whether [`parabola_focal_chord_reciprocal_applies`] holds of `e`.
pub(crate) fn parabola_focal_chord_reciprocal_applicable(e: &Expr) -> (r: bool)
    ensures
        r == parabola_focal_chord_reciprocal_applies(*e),
{
    match e {
        Expr::Add(a, b) => is_reciprocal(a) && is_reciprocal(b),
        _ => false,
    }
}

/// The results of `parabola_focal_chord_reciprocal` on `e`, as [`parabola_focal_chord_reciprocal_results`] states.
pub(crate) fn parabola_focal_chord_reciprocal_apply(e: &Expr) -> (v: Vec<RuleApplication>)
    ensures
        apps_view(v@) == parabola_focal_chord_reciprocal_results(*e),
{
    single(copy_expr(e), "Focal chord reciprocal property: 1/SP + 1/SQ = 2/l")
}

/// A parabola `y² = …`: answered with itself and the chord of contact.
pub open spec fn parabola_chord_of_contact_applies(e: Expr) -> bool {
    e matches Expr::Equation { lhs, .. } && y_squared(*lhs)
}

/// The results of `parabola_chord_of_contact` on `e`, each with its justification.
pub open spec fn parabola_chord_of_contact_results(e: Expr) -> Seq<(Expr, Seq<char>)> {
    one(e, "Chord of contact from external point: yy₁ = 2a(x + x₁)"@)
}

/// Whether [`parabola_chord_of_contact_applies`] holds of `e`.
pub(crate) fn parabola_chord_of_contact_applicable(e: &Expr) -> (r: bool)
    ensures
        r == parabola_chord_of_contact_applies(*e),
{
    match e {
        Expr::Equation { lhs, .. } => is_y_squared(lhs),
        _ => false,
    }
}

/// The results of `parabola_chord_of_contact` on `e`, as [`parabola_chord_of_contact_results`] states.
pub(crate) fn parabola_chord_of_contact_apply(e: &Expr) -> (v: Vec<RuleApplication>)
    ensures
        apps_view(v@) == parabola_chord_of_contact_results(*e),
{
    single(copy_expr(e), "Chord of contact from external point: yy₁ = 2a(x + x₁)")
}

/// `p + q = 1`, read as an ellipse: the tangent at parameter `θ`.
pub open spec fn ellipse_tangent_parametric_applies(e: Expr) -> bool {
    e matches Expr::Equation { lhs, rhs } && const_one(*rhs) && (*lhs matches Expr::Add(_, _))
}

/// The results of `ellipse_tangent_parametric` on `e`, each with its justification.
pub open spec fn ellipse_tangent_parametric_results(e: Expr) -> Seq<(Expr, Seq<char>)> {
    one(e, "Ellipse tangent at parameter θ: (x cos θ)/a + (y sin θ)/b = 1"@)
}

/// Whether [`ellipse_tangent_parametric_applies`] holds of `e`.
pub(crate) fn ellipse_tangent_parametric_applicable(e: &Expr) -> (r: bool)
    ensures
        r == ellipse_tangent_parametric_applies(*e),
{
    match e {
        Expr::Equation { lhs, rhs } => is_const_one(rhs) && match &**lhs {
            Expr::Add(_, _) => true,
            _ => false,
        },
        _ => false,
    }
}

/// The results of `ellipse_tangent_parametric` on `e`, as [`ellipse_tangent_parametric_results`] states.
pub(crate) fn ellipse_tangent_parametric_apply(e: &Expr) -> (v: Vec<RuleApplication>)
    ensures
        apps_view(v@) == ellipse_tangent_parametric_results(*e),
{
    single(copy_expr(e), "Ellipse tangent at parameter θ: (x cos θ)/a + (y sin θ)/b = 1")
}

/// `√(1 - …)`: the eccentricity of an ellipse.
pub open spec fn ellipse_eccentricity_applies(e: Expr) -> bool {
    e matches Expr::Sqrt(x) && (*x matches Expr::Sub(o, _) && const_one(*o))
}

/// The results of `ellipse_eccentricity` on `e`, each with its justification.
pub open spec fn ellipse_eccentricity_results(e: Expr) -> Seq<(Expr, Seq<char>)> {
    one(e, "Ellipse eccentricity formula: e = √(1 - b²/a²)"@)
}

/// Whether [`ellipse_eccentricity_applies`] holds of `e`.
pub(crate) fn ellipse_eccentricity_applicable(e: &Expr) -> (r: bool)
    ensures
        r == ellipse_eccentricity_applies(*e),
{
    match e {
        Expr::Sqrt(x) => match &**x {
            Expr::Sub(o, _) => is_const_one(o),
            _ => false,
        },
        _ => false,
    }
}

/// The results of `ellipse_eccentricity` on `e`, as [`ellipse_eccentricity_results`] states.
pub(crate) fn ellipse_eccentricity_apply(e: &Expr) -> (v: Vec<RuleApplication>)
    ensures
        apps_view(v@) == ellipse_eccentricity_results(*e),
{
    single(copy_expr(e), "Ellipse eccentricity formula: e = √(1 - b²/a²)")
}

/// A circle equation: the director circle of an ellipse.
pub open spec fn ellipse_director_circle_applies(e: Expr) -> bool {
    circle_equation(e)
}

/// The results of `ellipse_director_circle` on `e`, each with its justification.
pub open spec fn ellipse_director_circle_results(e: Expr) -> Seq<(Expr, Seq<char>)> {
    one(e, "Director circle: x² + y² = a² + b²"@)
}

/// Whether [`ellipse_director_circle_applies`] holds of `e`.
pub(crate) fn ellipse_director_circle_applicable(e: &Expr) -> (r: bool)
    ensures
        r == ellipse_director_circle_applies(*e),
{
    is_circle_equation(e)
}

/// The results of `ellipse_director_circle` on `e`, as [`ellipse_director_circle_results`] states.
pub(crate) fn ellipse_director_circle_apply(e: &Expr) -> (v: Vec<RuleApplication>)
    ensures
        apps_view(v@) == ellipse_director_circle_results(*e),
{
    single(copy_expr(e), "Director circle: x² + y² = a² + b²")
}

/// A circle equation: the auxiliary circle of an ellipse.
pub open spec fn ellipse_auxiliary_circle_applies(e: Expr) -> bool {
    circle_equation(e)
}

/// The results of `ellipse_auxiliary_circle` on `e`, each with its justification.
pub open spec fn ellipse_auxiliary_circle_results(e: Expr) -> Seq<(Expr, Seq<char>)> {
    one(e, "Auxiliary circle: x² + y² = a²"@)
}

/// Whether [`ellipse_auxiliary_circle_applies`] holds of `e`.
pub(crate) fn ellipse_auxiliary_circle_applicable(e: &Expr) -> (r: bool)
    ensures
        r == ellipse_auxiliary_circle_applies(*e),
{
    is_circle_equation(e)
}

/// The results of `ellipse_auxiliary_circle` on `e`, as [`ellipse_auxiliary_circle_results`] states.
pub(crate) fn ellipse_auxiliary_circle_apply(e: &Expr) -> (v: Vec<RuleApplication>)
    ensures
        apps_view(v@) == ellipse_auxiliary_circle_results(*e),
{
    single(copy_expr(e), "Auxiliary circle: x² + y² = a²")
}

/// A sum: the focal-sum property of an ellipse.
pub open spec fn ellipse_focal_sum_applies(e: Expr) -> bool {
    e matches Expr::Add(_, _)
}

/// The results of `ellipse_focal_sum` on `e`, each with its justification.
pub open spec fn ellipse_focal_sum_results(e: Expr) -> Seq<(Expr, Seq<char>)> {
    one(e, "Ellipse property: SP + S'P = 2a"@)
}

/// Whether [`ellipse_focal_sum_applies`] holds of `e`.
pub(crate) fn ellipse_focal_sum_applicable(e: &Expr) -> (r: bool)
    ensures
        r == ellipse_focal_sum_applies(*e),
{
    match e {
        Expr::Add(_, _) => true,
        _ => false,
    }
}

/// The results of `ellipse_focal_sum` on `e`, as [`ellipse_focal_sum_results`] states.
pub(crate) fn ellipse_focal_sum_apply(e: &Expr) -> (v: Vec<RuleApplication>)
    ensures
        apps_view(v@) == ellipse_focal_sum_results(*e),
{
    single(copy_expr(e), "Ellipse property: SP + S'P = 2a")
}

/// `p - q = 1`, read as a hyperbola: its asymptotes.
pub open spec fn hyperbola_asymptotes_applies(e: Expr) -> bool {
    e matches Expr::Equation { lhs, rhs } && const_one(*rhs) && (*lhs matches Expr::Sub(_, _))
}

/// The results of `hyperbola_asymptotes` on `e`, each with its justification.
pub open spec fn hyperbola_asymptotes_results(e: Expr) -> Seq<(Expr, Seq<char>)> {
    one(e, "Hyperbola asymptotes: y = ±(b/a)x"@)
}

/// Whether [`hyperbola_asymptotes_applies`] holds of `e`.
pub(crate) fn hyperbola_asymptotes_applicable(e: &Expr) -> (r: bool)
    ensures
        r == hyperbola_asymptotes_applies(*e),
{
    match e {
        Expr::Equation { lhs, rhs } => is_const_one(rhs) && match &**lhs {
            Expr::Sub(_, _) => true,
            _ => false,
        },
        _ => false,
    }
}

/// The results of `hyperbola_asymptotes` on `e`, as [`hyperbola_asymptotes_results`] states.
pub(crate) fn hyperbola_asymptotes_apply(e: &Expr) -> (v: Vec<RuleApplication>)
    ensures
        apps_view(v@) == hyperbola_asymptotes_results(*e),
{
    single(copy_expr(e), "Hyperbola asymptotes: y = ±(b/a)x")
}

/// `√(1 + …)`: the eccentricity of a hyperbola.
pub open spec fn hyperbola_eccentricity_applies(e: Expr) -> bool {
    e matches Expr::Sqrt(x) && (*x matches Expr::Add(o, _) && const_one(*o))
}

/// The results of `hyperbola_eccentricity` on `e`, each with its justification.
pub open spec fn hyperbola_eccentricity_results(e: Expr) -> Seq<(Expr, Seq<char>)> {
    one(e, "Hyperbola eccentricity: e = √(1 + b²/a²)"@)
}

/// Whether [`hyperbola_eccentricity_applies`] holds of `e`.
pub(crate) fn hyperbola_eccentricity_applicable(e: &Expr) -> (r: bool)
    ensures
        r == hyperbola_eccentricity_applies(*e),
{
    match e {
        Expr::Sqrt(x) => match &**x {
            Expr::Add(o, _) => is_const_one(o),
            _ => false,
        },
        _ => false,
    }
}

/// The results of `hyperbola_eccentricity` on `e`, as [`hyperbola_eccentricity_results`] states.
pub(crate) fn hyperbola_eccentricity_apply(e: &Expr) -> (v: Vec<RuleApplication>)
    ensures
        apps_view(v@) == hyperbola_eccentricity_results(*e),
{
    single(copy_expr(e), "Hyperbola eccentricity: e = √(1 + b²/a²)")
}

/// An equation with a product on the left: a rectangular hyperbola.
pub open spec fn hyperbola_rectangular_applies(e: Expr) -> bool {
    e matches Expr::Equation { lhs, .. } && (*lhs matches Expr::Mul(_, _))
}

/// The results of `hyperbola_rectangular` on `e`, each with its justification.
pub open spec fn hyperbola_rectangular_results(e: Expr) -> Seq<(Expr, Seq<char>)> {
    one(e, "Rectangular hyperbola: xy = c²"@)
}

/// Whether [`hyperbola_rectangular_applies`] holds of `e`.
pub(crate) fn hyperbola_rectangular_applicable(e: &Expr) -> (r: bool)
    ensures
        r == hyperbola_rectangular_applies(*e),
{
    match e {
        Expr::Equation { lhs, .. } => match &**lhs {
            Expr::Mul(_, _) => true,
            _ => false,
        },
        _ => false,
    }
}

/// The results of `hyperbola_rectangular` on `e`, as [`hyperbola_rectangular_results`] states.
pub(crate) fn hyperbola_rectangular_apply(e: &Expr) -> (v: Vec<RuleApplication>)
    ensures
        apps_view(v@) == hyperbola_rectangular_results(*e),
{
    single(copy_expr(e), "Rectangular hyperbola: xy = c²")
}

/// `|p - q|`: the focal-difference property of a hyperbola.
pub open spec fn hyperbola_focal_difference_applies(e: Expr) -> bool {
    e matches Expr::Abs(x) && (*x matches Expr::Sub(_, _))
}

/// The results of `hyperbola_focal_difference` on `e`, each with its justification.
pub open spec fn hyperbola_focal_difference_results(e: Expr) -> Seq<(Expr, Seq<char>)> {
    one(e, "Hyperbola property: |SP - S'P| = 2a"@)
}

/// Whether [`hyperbola_focal_difference_applies`] holds of `e`.
pub(crate) fn hyperbola_focal_difference_applicable(e: &Expr) -> (r: bool)
    ensures
        r == hyperbola_focal_difference_applies(*e),
{
    match e {
        Expr::Abs(x) => match &**x {
            Expr::Sub(_, _) => true,
            _ => false,
        },
        _ => false,
    }
}

/// The results of `hyperbola_focal_difference` on `e`, as [`hyperbola_focal_difference_results`] states.
pub(crate) fn hyperbola_focal_difference_apply(e: &Expr) -> (v: Vec<RuleApplication>)
    ensures
        apps_view(v@) == hyperbola_focal_difference_results(*e),
{
    single(copy_expr(e), "Hyperbola property: |SP - S'P| = 2a")
}

/// An equation with right side `-1`: a conjugate hyperbola.
pub open spec fn hyperbola_conjugate_applies(e: Expr) -> bool {
    e matches Expr::Equation { rhs, .. } && (*rhs matches Expr::Neg(x) && const_one(*x))
}

/// The results of `hyperbola_conjugate` on `e`, each with its justification.
pub open spec fn hyperbola_conjugate_results(e: Expr) -> Seq<(Expr, Seq<char>)> {
    one(e, "Conjugate hyperbola detected"@)
}

/// Whether [`hyperbola_conjugate_applies`] holds of `e`.
pub(crate) fn hyperbola_conjugate_applicable(e: &Expr) -> (r: bool)
    ensures
        r == hyperbola_conjugate_applies(*e),
{
    match e {
        Expr::Equation { rhs, .. } => match &**rhs {
            Expr::Neg(x) => is_const_one(x),
            _ => false,
        },
        _ => false,
    }
}

/// The results of `hyperbola_conjugate` on `e`, as [`hyperbola_conjugate_results`] states.
pub(crate) fn hyperbola_conjugate_apply(e: &Expr) -> (v: Vec<RuleApplication>)
    ensures
        apps_view(v@) == hyperbola_conjugate_results(*e),
{
    single(copy_expr(e), "Conjugate hyperbola detected")
}

/// A circle equation: the tangent at a point of it.
pub open spec fn circle_tangent_at_point_applies(e: Expr) -> bool {
    circle_equation(e)
}

/// The results of `circle_tangent_at_point` on `e`, each with its justification.
pub open spec fn circle_tangent_at_point_results(e: Expr) -> Seq<(Expr, Seq<char>)> {
    one(e, "Circle tangent at (x₁,y₁): xx₁ + yy₁ = r²"@)
}

/// Whether [`circle_tangent_at_point_applies`] holds of `e`.
pub(crate) fn circle_tangent_at_point_applicable(e: &Expr) -> (r: bool)
    ensures
        r == circle_tangent_at_point_applies(*e),
{
    is_circle_equation(e)
}

/// The results of `circle_tangent_at_point` on `e`, as [`circle_tangent_at_point_results`] states.
pub(crate) fn circle_tangent_at_point_apply(e: &Expr) -> (v: Vec<RuleApplication>)
    ensures
        apps_view(v@) == circle_tangent_at_point_results(*e),
{
    single(copy_expr(e), "Circle tangent at (x₁,y₁): xx₁ + yy₁ = r²")
}

/// A product: the power of a point.
pub open spec fn circle_power_of_point_applies(e: Expr) -> bool {
    e matches Expr::Mul(_, _)
}

/// The results of `circle_power_of_point` on `e`, each with its justification.
pub open spec fn circle_power_of_point_results(e: Expr) -> Seq<(Expr, Seq<char>)> {
    one(e, "Power of point: PA · PB = d² - r²"@)
}

/// Whether [`circle_power_of_point_applies`] holds of `e`.
pub(crate) fn circle_power_of_point_applicable(e: &Expr) -> (r: bool)
    ensures
        r == circle_power_of_point_applies(*e),
{
    match e {
        Expr::Mul(_, _) => true,
        _ => false,
    }
}

/// The results of `circle_power_of_point` on `e`, as [`circle_power_of_point_results`] states.
pub(crate) fn circle_power_of_point_apply(e: &Expr) -> (v: Vec<RuleApplication>)
    ensures
        apps_view(v@) == circle_power_of_point_results(*e),
{
    single(copy_expr(e), "Power of point: PA · PB = d² - r²")
}

/// `√((p + q) - r)`: the tangent length from an external point.
pub open spec fn circle_tangent_length_applies(e: Expr) -> bool {
    e matches Expr::Sqrt(x) && (*x matches Expr::Sub(s, _) && (*s matches Expr::Add(_, _)))
}

/// The results of `circle_tangent_length` on `e`, each with its justification.
pub open spec fn circle_tangent_length_results(e: Expr) -> Seq<(Expr, Seq<char>)> {
    one(e, "Tangent length from external point"@)
}

/// Whether [`circle_tangent_length_applies`] holds of `e`.
pub(crate) fn circle_tangent_length_applicable(e: &Expr) -> (r: bool)
    ensures
        r == circle_tangent_length_applies(*e),
{
    match e {
        Expr::Sqrt(x) => match &**x {
            Expr::Sub(s, _) => match &**s {
                Expr::Add(_, _) => true,
                _ => false,
            },
            _ => false,
        },
        _ => false,
    }
}

/// The results of `circle_tangent_length` on `e`, as [`circle_tangent_length_results`] states.
pub(crate) fn circle_tangent_length_apply(e: &Expr) -> (v: Vec<RuleApplication>)
    ensures
        apps_view(v@) == circle_tangent_length_results(*e),
{
    single(copy_expr(e), "Tangent length from external point")
}

/// A sum over a sum: the section formula.
pub open spec fn section_formula_internal_applies(e: Expr) -> bool {
    e matches Expr::Div(n, d) && (*n matches Expr::Add(_, _)) && (*d matches Expr::Add(_, _))
}

/// The results of `section_formula_internal` on `e`, each with its justification.
pub open spec fn section_formula_internal_results(e: Expr) -> Seq<(Expr, Seq<char>)> {
    one(e, "Section formula: point dividing line in ratio m:n"@)
}

/// Whether [`section_formula_internal_applies`] holds of `e`.
pub(crate) fn section_formula_internal_applicable(e: &Expr) -> (r: bool)
    ensures
        r == section_formula_internal_applies(*e),
{
    match e {
        Expr::Div(n, d) => match (&**n, &**d) {
            (Expr::Add(_, _), Expr::Add(_, _)) => true,
            _ => false,
        },
        _ => false,
    }
}

/// The results of `section_formula_internal` on `e`, as [`section_formula_internal_results`] states.
pub(crate) fn section_formula_internal_apply(e: &Expr) -> (v: Vec<RuleApplication>)
    ensures
        apps_view(v@) == section_formula_internal_results(*e),
{
    single(copy_expr(e), "Section formula: point dividing line in ratio m:n")
}

/// `(1/2)·|…|`: the area of a triangle from coordinates.
pub open spec fn triangle_area_coordinates_applies(e: Expr) -> bool {
    e matches Expr::Mul(h, a) && one_half(*h) && (*a matches Expr::Abs(_))
}

/// The results of `triangle_area_coordinates` on `e`, each with its justification.
pub open spec fn triangle_area_coordinates_results(e: Expr) -> Seq<(Expr, Seq<char>)> {
    one(e, "Triangle area using coordinate formula"@)
}

/// Whether [`triangle_area_coordinates_applies`] holds of `e`.
pub(crate) fn triangle_area_coordinates_applicable(e: &Expr) -> (r: bool)
    ensures
        r == triangle_area_coordinates_applies(*e),
{
    match e {
        Expr::Mul(h, a) => is_one_half(h) && match &**a {
            Expr::Abs(_) => true,
            _ => false,
        },
        _ => false,
    }
}

/// The results of `triangle_area_coordinates` on `e`, as [`triangle_area_coordinates_results`] states.
pub(crate) fn triangle_area_coordinates_apply(e: &Expr) -> (v: Vec<RuleApplication>)
    ensures
        apps_view(v@) == triangle_area_coordinates_results(*e),
{
    single(copy_expr(e), "Triangle area using coordinate formula")
}

/// An equation with right side 0: the collinearity determinant.
pub open spec fn collinearity_condition_applies(e: Expr) -> bool {
    e matches Expr::Equation { rhs, .. } && const_zero(*rhs)
}

/// The results of `collinearity_condition` on `e`, each with its justification.
pub open spec fn collinearity_condition_results(e: Expr) -> Seq<(Expr, Seq<char>)> {
    one(e, "Collinearity condition: determinant = 0"@)
}

/// Whether [`collinearity_condition_applies`] holds of `e`.
pub(crate) fn collinearity_condition_applicable(e: &Expr) -> (r: bool)
    ensures
        r == collinearity_condition_applies(*e),
{
    match e {
        Expr::Equation { rhs, .. } => is_const_zero(rhs),
        _ => false,
    }
}

/// The results of `collinearity_condition` on `e`, as [`collinearity_condition_results`] states.
pub(crate) fn collinearity_condition_apply(e: &Expr) -> (v: Vec<RuleApplication>)
    ensures
        apps_view(v@) == collinearity_condition_results(*e),
{
    single(copy_expr(e), "Collinearity condition: determinant = 0")
}

/// A sum over 3: the centroid of a triangle.
pub open spec fn triangle_centroid_applies(e: Expr) -> bool {
    e matches Expr::Div(n, d) && const_three(*d) && (*n matches Expr::Add(_, _))
}

/// The results of `triangle_centroid` on `e`, each with its justification.
pub open spec fn triangle_centroid_results(e: Expr) -> Seq<(Expr, Seq<char>)> {
    one(e, "Centroid formula: (sum of coordinates)/3"@)
}

/// Whether [`triangle_centroid_applies`] holds of `e`.
pub(crate) fn triangle_centroid_applicable(e: &Expr) -> (r: bool)
    ensures
        r == triangle_centroid_applies(*e),
{
    match e {
        Expr::Div(n, d) => is_const_three(d) && match &**n {
            Expr::Add(_, _) => true,
            _ => false,
        },
        _ => false,
    }
}

/// The results of `triangle_centroid` on `e`, as [`triangle_centroid_results`] states.
pub(crate) fn triangle_centroid_apply(e: &Expr) -> (v: Vec<RuleApplication>)
    ensures
        apps_view(v@) == triangle_centroid_results(*e),
{
    single(copy_expr(e), "Centroid formula: (sum of coordinates)/3")
}

} // verus!
