use mm_rules::backward::{backward_search, find_proof_of, BackwardStrategy};
use mm_rules::expr::{Expr, SymbolTable};
use mm_rules::patterns::{match_integral_pattern, IntegralForm};

#[test]
fn test_inequality_to_difference() {
    let mut symbols = SymbolTable::new();
    let x = symbols.intern("x");
    let y = symbols.intern("y");

    // Goal: x ≥ y
    let goal = Expr::Gte(Box::new(Expr::Var(x)), Box::new(Expr::Var(y)));

    let steps = backward_search(&goal);
    assert!(!steps.is_empty());

    // Suggests x - y ≥ 0
    let step = &steps[0];
    assert_eq!(step.strategy, BackwardStrategy::InequalityToNonneg);
}

#[test]
fn test_squared_form_detection() {
    let mut symbols = SymbolTable::new();
    let x = symbols.intern("x");
    let y = symbols.intern("y");

    // Goal: x² + y² ≥ 2xy
    let lhs = Expr::Add(
        Box::new(Expr::Pow(Box::new(Expr::Var(x)), Box::new(Expr::integer(2)))),
        Box::new(Expr::Pow(Box::new(Expr::Var(y)), Box::new(Expr::integer(2)))),
    );
    let rhs = Expr::Mul(
        Box::new(Expr::integer(2)),
        Box::new(Expr::Mul(Box::new(Expr::Var(x)), Box::new(Expr::Var(y)))),
    );
    let goal = Expr::Gte(Box::new(lhs), Box::new(rhs));

    let steps = backward_search(&goal);
    assert!(!steps.is_empty());
}

#[test]
fn squared_form_gives_second_step() {
    let mut symbols = SymbolTable::new();
    let x = symbols.intern("x");
    let y = symbols.intern("y");
    let lhs = Expr::Add(
        Box::new(Expr::Pow(Box::new(Expr::Var(x)), Box::new(Expr::integer(2)))),
        Box::new(Expr::Pow(Box::new(Expr::Var(y)), Box::new(Expr::integer(2)))),
    );
    let rhs = Expr::Mul(
        Box::new(Expr::integer(2)),
        Box::new(Expr::Mul(Box::new(Expr::Var(x)), Box::new(Expr::Var(y)))),
    );
    let goal = Expr::Gte(Box::new(lhs), Box::new(rhs));
    let steps = find_proof_of(&goal);
    assert_eq!(steps.len(), 2);
    let square = Expr::Pow(
        Box::new(Expr::Sub(Box::new(Expr::Var(x)), Box::new(Expr::Var(y)))),
        Box::new(Expr::integer(2)),
    );
    let shown = format!("{:?}", square);
    assert_eq!(
        steps[1].subgoals,
        vec![Expr::Gte(Box::new(square), Box::new(Expr::integer(0)))]
    );
    assert!(steps[1].justification.starts_with("Proved by showing "));
    assert!(steps[1].justification.ends_with(" ≥ 0 (squares are nonnegative)"));
    assert_eq!(
        steps[1].justification,
        format!("Proved by showing {} ≥ 0 (squares are nonnegative)", shown)
    );
    assert_eq!(steps[0].justification, "A ≥ B if and only if A - B ≥ 0");
}

#[test]
fn lte_and_equation_goals() {
    let mut symbols = SymbolTable::new();
    let x = symbols.intern("x");
    let y = symbols.intern("y");
    let lte = Expr::Lte(Box::new(Expr::Var(x)), Box::new(Expr::Var(y)));
    let steps = find_proof_of(&lte);
    assert_eq!(steps.len(), 1);
    assert_eq!(
        steps[0].subgoals,
        vec![Expr::Gte(
            Box::new(Expr::Sub(Box::new(Expr::Var(y)), Box::new(Expr::Var(x)))),
            Box::new(Expr::integer(0)),
        )]
    );
    let eq = Expr::Equation { lhs: Box::new(Expr::Var(x)), rhs: Box::new(Expr::Var(y)) };
    let steps = find_proof_of(&eq);
    assert_eq!(steps.len(), 1);
    assert_eq!(steps[0].strategy, BackwardStrategy::EquivalentForm);
    assert_eq!(steps[0].justification, "A = B if and only if A - B = 0");
    assert!(find_proof_of(&Expr::Var(x)).is_empty());
}

#[test]
fn integral_patterns() {
    let mut symbols = SymbolTable::new();
    let x = symbols.intern("x");
    let sin = Expr::Sin(Box::new(Expr::Var(x)));
    assert!(matches!(match_integral_pattern(&sin), Some(IntegralForm::TrigSin(Expr::Var(v))) if v == x));
    let recip = Expr::Div(Box::new(Expr::integer(1)), Box::new(Expr::Var(x)));
    assert!(matches!(match_integral_pattern(&recip), Some(IntegralForm::Logarithmic)));
    let two_over = Expr::Div(Box::new(Expr::integer(2)), Box::new(Expr::Var(x)));
    assert!(match_integral_pattern(&two_over).is_none());
    let pow = Expr::Pow(Box::new(Expr::Var(x)), Box::new(Expr::integer(3)));
    assert!(matches!(match_integral_pattern(&pow), Some(IntegralForm::PowerRule(_, _))));
    assert!(match_integral_pattern(&Expr::Var(x)).is_none());
}
