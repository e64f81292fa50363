//! Backward reasoning for proof search.
//!
//! Given a goal `G`, find subgoals that would prove it.  For example the
//! goal `x² + y² ≥ 2xy` follows from `(x-y)² ≥ 0`, since
//! `(x-y)² = x² - 2xy + y²`.

use vstd::prelude::*;
use crate::expr::{copy_expr, expr_eq, Expr};
use crate::rational::{rat, lemma_rat_pair, Rational};
use crate::text::{expr_text, push_text, render_expr};

verus! {

/// Strategies for reasoning backwards from a goal.
#[derive(Debug, Clone, Copy, PartialEq, Eq, Structural)]
pub enum BackwardStrategy {
    /// Find a non-negative expression that proves an inequality.
    InequalityToNonneg,
    /// Expand or factor to an equivalent form.
    EquivalentForm,
    /// Apply a known theorem backwards.
    TheoremApplication,
    /// Substitute to get a simpler goal.
    Substitution,
}

/// One backward step: subgoals that together prove the goal.
#[derive(Debug, Clone)]
pub struct BackwardStep {
    /// The subgoals that would prove the original goal.
    pub subgoals: Vec<Expr>,
    /// The strategy used.
    pub strategy: BackwardStrategy,
    /// Human-readable justification.
    pub justification: String,
}

/// Backward rule application: what would prove a goal.
pub trait BackwardRule {
    /// Given a goal, the steps that would prove it.
    fn would_prove(&self, goal: &Expr) -> Vec<BackwardStep>;
}

/// The constant 0 as an expression.
pub open spec fn zero_expr() -> Expr {
    Expr::Const(rat((0, 1)))
}

/// The constant 2 as an expression.
pub open spec fn two_expr() -> Expr {
    Expr::Const(rat((2, 1)))
}

/// The constant 0.
fn zero() -> (e: Expr)
    ensures
        e == zero_expr(),
{
    let z = Rational::from_integer(0);
    proof {
        lemma_rat_pair(z);
    }
    Expr::Const(z)
}

/// The subgoal `A - B ≥ 0` for `A ≥ B`, and `B - A ≥ 0` for `A ≤ B`.
pub open spec fn difference_goal(goal: Expr) -> Option<Expr> {
    match goal {
        Expr::Gte(l, r) => Some(Expr::Gte(Box::new(Expr::Sub(l, r)), Box::new(zero_expr()))),
        Expr::Lte(l, r) => Some(Expr::Gte(Box::new(Expr::Sub(r, l)), Box::new(zero_expr()))),
        _ => None,
    }
}

/// `(x - y)²` when `lhs` is `x² + y²` and `rhs` is `2·(x·y)`, the
/// exponents and the factor being the constant 2.
pub open spec fn squared_form_view(lhs: Expr, rhs: Expr) -> Option<Expr> {
    match (lhs, rhs) {
        (Expr::Add(t1, t2), Expr::Mul(coef, product)) => match (*t1, *t2, *product) {
            (Expr::Pow(x1, e1), Expr::Pow(y1, e2), Expr::Mul(x2, y2)) => if *e1 == two_expr() && *e2 == two_expr()
                && *coef == two_expr() && x1 == x2 && y1 == y2 {
                Some(Expr::Pow(Box::new(Expr::Sub(x1, y1)), Box::new(two_expr())))
            } else {
                None
            },
            _ => None,
        },
        _ => None,
    }
}

/// The squared form behind an inequality goal: for `A ≥ B` that of
/// `(A, B)`, for `A ≤ B` that of `(B, A)`.
pub open spec fn squared_goal(goal: Expr) -> Option<Expr> {
    match goal {
        Expr::Gte(l, r) => squared_form_view(*l, *r),
        Expr::Lte(l, r) => squared_form_view(*r, *l),
        _ => None,
    }
}

/// The subgoal `A - B = 0` for the equation `A = B`.
pub open spec fn equation_goal(goal: Expr) -> Option<Expr> {
    match goal {
        Expr::Equation { lhs, rhs } => Some(Expr::Equation { lhs: Box::new(Expr::Sub(lhs, rhs)), rhs: Box::new(zero_expr()) }),
        _ => None,
    }
}

/// Whether `e` is the constant 2.
fn is_const_2(e: &Expr) -> (b: bool)
    ensures
        b == (*e == two_expr()),
{
    match e {
        Expr::Const(c) => {
            let two = Rational::from_integer(2);
            proof {
                lemma_rat_pair(two);
                lemma_rat_pair(*c);
            }
            c.numer() == 2 && c.denom() == 1
        },
        _ => false,
    }
}

/// The squared form `(x - y)²` of `lhs - rhs`, as [`squared_form_view`]
/// states.
fn try_find_squared_form(lhs: &Expr, rhs: &Expr) -> (r: Option<Expr>)
    ensures
        r == squared_form_view(*lhs, *rhs),
{
    if let (Expr::Add(term1, term2), Expr::Mul(coef, product)) = (lhs, rhs) {
        if let (Expr::Pow(x1, exp1), Expr::Pow(y1, exp2), Expr::Mul(x2, y2)) = (&**term1, &**term2, &**product) {
            if is_const_2(exp1) && is_const_2(exp2) && is_const_2(coef) && expr_eq(x1, x2) && expr_eq(y1, y2) {
                let two = Rational::from_integer(2);
                proof {
                    lemma_rat_pair(two);
                }
                return Some(
                    Expr::Pow(
                        Box::new(Expr::Sub(Box::new(copy_expr(x1)), Box::new(copy_expr(y1)))),
                        Box::new(Expr::Const(two)),
                    ),
                );
            }
        }
    }
    None
}

/// `A ≥ B ⇐ A - B ≥ 0` and `A ≤ B ⇐ B - A ≥ 0`.
fn inequality_to_difference(goal: &Expr) -> (r: Option<BackwardStep>)
    ensures
        r matches Some(s) ==> difference_goal(*goal) matches Some(g) && s.subgoals@ == seq![g]
            && s.strategy == BackwardStrategy::InequalityToNonneg,
        r matches Some(s) ==> (goal is Gte ==> s.justification@ == "A ≥ B if and only if A - B ≥ 0"@)
            && (goal is Lte ==> s.justification@ == "A ≤ B if and only if B - A ≥ 0"@),
        r is None <==> difference_goal(*goal) is None,
{
    match goal {
        Expr::Gte(lhs, rhs) => {
            let diff = Expr::Sub(Box::new(copy_expr(lhs)), Box::new(copy_expr(rhs)));
            let new_goal = Expr::Gte(Box::new(diff), Box::new(zero()));
            let subgoals = vec![new_goal];
            assert(subgoals@ =~= seq![new_goal]);
            Some(BackwardStep {
                subgoals,
                strategy: BackwardStrategy::InequalityToNonneg,
                justification: "A ≥ B if and only if A - B ≥ 0".to_owned(),
            })
        },
        Expr::Lte(lhs, rhs) => {
            let diff = Expr::Sub(Box::new(copy_expr(rhs)), Box::new(copy_expr(lhs)));
            let new_goal = Expr::Gte(Box::new(diff), Box::new(zero()));
            let subgoals = vec![new_goal];
            assert(subgoals@ =~= seq![new_goal]);
            Some(BackwardStep {
                subgoals,
                strategy: BackwardStrategy::InequalityToNonneg,
                justification: "A ≤ B if and only if B - A ≥ 0".to_owned(),
            })
        },
        _ => None,
    }
}

/// `A ≥ B ⇐ X² ≥ 0` when `A - B` is the square `X²` of [`squared_goal`].
fn inequality_to_squared(goal: &Expr) -> (r: Option<BackwardStep>)
    ensures
        r matches Some(s) ==> squared_goal(*goal) matches Some(x) && s.subgoals@ == seq![
            Expr::Gte(Box::new(x), Box::new(zero_expr())),
        ] && s.strategy == BackwardStrategy::InequalityToNonneg,
        r matches Some(s) ==> squared_goal(*goal) matches Some(x)
            && s.justification@ == squared_text(x),
        r is None <==> squared_goal(*goal) is None,
{
    let found = match goal {
        Expr::Gte(lhs, rhs) => try_find_squared_form(lhs, rhs),
        Expr::Lte(lhs, rhs) => try_find_squared_form(rhs, lhs),
        _ => None,
    };
    match found {
        Some(squared_form) => {
            let mut justification = String::new();
            push_text(&mut justification, "Proved by showing ");
            let shown = render_expr(&squared_form);
            push_text(&mut justification, shown.as_str());
            push_text(&mut justification, " ≥ 0 (squares are nonnegative)");
            assert(justification@ == "Proved by showing "@ + shown@ + " ≥ 0 (squares are nonnegative)"@);
            let new_goal = Expr::Gte(Box::new(squared_form), Box::new(zero()));
            let subgoals = vec![new_goal];
            assert(subgoals@ =~= seq![new_goal]);
            Some(BackwardStep { subgoals, strategy: BackwardStrategy::InequalityToNonneg, justification })
        },
        None => None,
    }
}

/// `A = B ⇐ A - B = 0`.
fn equation_to_factored(goal: &Expr) -> (r: Option<BackwardStep>)
    ensures
        r matches Some(s) ==> equation_goal(*goal) matches Some(g) && s.subgoals@ == seq![g]
            && s.strategy == BackwardStrategy::EquivalentForm,
        r matches Some(s) ==> s.justification@ == "A = B if and only if A - B = 0"@,
        r is None <==> equation_goal(*goal) is None,
{
    match goal {
        Expr::Equation { lhs, rhs } => {
            let diff = Expr::Sub(Box::new(copy_expr(lhs)), Box::new(copy_expr(rhs)));
            let new_goal = Expr::Equation { lhs: Box::new(diff), rhs: Box::new(zero()) };
            let subgoals = vec![new_goal];
            assert(subgoals@ =~= seq![new_goal]);
            Some(BackwardStep {
                subgoals,
                strategy: BackwardStrategy::EquivalentForm,
                justification: "A = B if and only if A - B = 0".to_owned(),
            })
        },
        _ => None,
    }
}

/// The subgoals of the strategies, in order: difference, squared form,
/// equation difference; each where it applies.
pub open spec fn backward_subgoals(goal: Expr) -> Seq<(Seq<Expr>, BackwardStrategy)> {
    let d: Seq<(Seq<Expr>, BackwardStrategy)> = match difference_goal(goal) {
        Some(g) => seq![(seq![g], BackwardStrategy::InequalityToNonneg)],
        None => Seq::empty(),
    };
    let s: Seq<(Seq<Expr>, BackwardStrategy)> = match squared_goal(goal) {
        Some(x) => seq![(seq![Expr::Gte(Box::new(x), Box::new(zero_expr()))], BackwardStrategy::InequalityToNonneg)],
        None => Seq::empty(),
    };
    let e: Seq<(Seq<Expr>, BackwardStrategy)> = match equation_goal(goal) {
        Some(g) => seq![(seq![g], BackwardStrategy::EquivalentForm)],
        None => Seq::empty(),
    };
    d + s + e
}

/// The justification of the squared-form step for the square `x`.
pub open spec fn squared_text(x: Expr) -> Seq<char> {
    "Proved by showing "@ + expr_text(x) + " ≥ 0 (squares are nonnegative)"@
}

/// The justification of each step of [`backward_subgoals`], in order.
pub open spec fn backward_texts(goal: Expr) -> Seq<Seq<char>> {
    let d: Seq<Seq<char>> = match goal {
        Expr::Gte(_, _) => seq!["A ≥ B if and only if A - B ≥ 0"@],
        Expr::Lte(_, _) => seq!["A ≤ B if and only if B - A ≥ 0"@],
        _ => Seq::empty(),
    };
    let s: Seq<Seq<char>> = match squared_goal(goal) {
        Some(x) => seq![squared_text(x)],
        None => Seq::empty(),
    };
    let e: Seq<Seq<char>> = match goal {
        Expr::Equation { .. } => seq!["A = B if and only if A - B = 0"@],
        _ => Seq::empty(),
    };
    d + s + e
}

/// The steps' subgoals and strategies.
pub open spec fn steps_view(steps: Seq<BackwardStep>) -> Seq<(Seq<Expr>, BackwardStrategy)> {
    steps.map_values(|s: BackwardStep| (s.subgoals@, s.strategy))
}

/// The backward steps that would prove `goal`, as [`backward_subgoals`]
/// states.
pub fn find_proof_of(goal: &Expr) -> (steps: Vec<BackwardStep>)
    ensures
        steps_view(steps@) == backward_subgoals(*goal),
        steps@.len() == backward_texts(*goal).len(),
        forall|i: int| 0 <= i < steps@.len() ==> (#[trigger] steps@[i]).justification@ == backward_texts(*goal)[i],
{
    let mut steps: Vec<BackwardStep> = Vec::new();
    if let Some(step) = inequality_to_difference(goal) {
        steps.push(step);
    }
    let ghost after_d = steps@;
    if let Some(step) = inequality_to_squared(goal) {
        steps.push(step);
    }
    let ghost after_s = steps@;
    if let Some(step) = equation_to_factored(goal) {
        steps.push(step);
    }
    assert(steps_view(steps@) =~= backward_subgoals(*goal));
    proof {
        let t = backward_texts(*goal);
        assert(steps@.len() == t.len());
        assert forall|i: int| 0 <= i < steps@.len() implies (#[trigger] steps@[i]).justification@ == t[i] by {
            if i < after_d.len() {
                assert(steps@[i] == after_d[i]);
            } else if i < after_s.len() {
                assert(steps@[i] == after_s[i]);
            }
        }
    }
    steps
}

/// Backward search from a goal: the steps of [`find_proof_of`].
pub fn backward_search(goal: &Expr) -> (steps: Vec<BackwardStep>)
    ensures
        steps_view(steps@) == backward_subgoals(*goal),
        steps@.len() == backward_texts(*goal).len(),
        forall|i: int| 0 <= i < steps@.len() ==> (#[trigger] steps@[i]).justification@ == backward_texts(*goal)[i],
{
    find_proof_of(goal)
}

} // verus!
