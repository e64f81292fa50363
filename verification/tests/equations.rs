use mm_rules::equations::{cancel_addition, cancel_multiplication, linear_solve, quadratic_formula};
use mm_rules::expr::{Expr, Symbol, SymbolTable};
use mm_rules::rational::Rational;
use mm_rules::rule::RuleContext;

fn var_x() -> Symbol {
    let mut symbols = SymbolTable::new();
    symbols.intern("x")
}

fn num(n: i64) -> Expr {
    Expr::integer(n)
}

#[test]
fn test_cancel_addition() {
    let x = var_x();
    let rule = cancel_addition();
    let ctx = RuleContext::default();

    // x + 3 = 7
    let expr = Expr::Equation {
        lhs: Box::new(Expr::Add(Box::new(Expr::Var(x)), Box::new(num(3)))),
        rhs: Box::new(num(7)),
    };

    assert!(rule.can_apply(&expr, &ctx));
    let results = rule.apply(&expr, &ctx);
    assert_eq!(results.len(), 1);
    // x = 7 - 3
    assert_eq!(
        results[0].result,
        Expr::Equation { lhs: Box::new(Expr::Var(x)), rhs: Box::new(Expr::Sub(Box::new(num(7)), Box::new(num(3)))) }
    );
}

#[test]
fn test_cancel_multiplication() {
    let x = var_x();
    let rule = cancel_multiplication();
    let ctx = RuleContext::default();

    // 2x = 6
    let expr = Expr::Equation {
        lhs: Box::new(Expr::Mul(Box::new(num(2)), Box::new(Expr::Var(x)))),
        rhs: Box::new(num(6)),
    };

    assert!(rule.can_apply(&expr, &ctx));
    let results = rule.apply(&expr, &ctx);
    assert_eq!(results.len(), 1);
    // x = 6 / 2
    assert_eq!(
        results[0].result,
        Expr::Equation { lhs: Box::new(Expr::Var(x)), rhs: Box::new(Expr::Div(Box::new(num(6)), Box::new(num(2)))) }
    );
    assert_eq!(results[0].justification, "Divide both sides by 2");
}

#[test]
fn test_linear_solve() {
    let x = var_x();
    let rule = linear_solve();
    let ctx = RuleContext::default();

    // 2x + 3 = 7
    let expr = Expr::Equation {
        lhs: Box::new(Expr::Add(Box::new(Expr::Mul(Box::new(num(2)), Box::new(Expr::Var(x)))), Box::new(num(3)))),
        rhs: Box::new(num(7)),
    };

    assert!(rule.can_apply(&expr, &ctx));
    let results = rule.apply(&expr, &ctx);
    assert_eq!(results.len(), 1);
    // x = 2
    assert_eq!(results[0].result, Expr::Equation { lhs: Box::new(Expr::Var(x)), rhs: Box::new(num(2)) });
    assert_eq!(results[0].justification, "x = (7 - 3) / 2 = 2");
}

#[test]
fn linear_solve_keeps_fractions_exact() {
    let x = var_x();
    let rule = linear_solve();
    let ctx = RuleContext::default();
    // 3x + 1 = 2  gives x = 1/3
    let expr = Expr::Equation {
        lhs: Box::new(Expr::Add(Box::new(Expr::Mul(Box::new(num(3)), Box::new(Expr::Var(x)))), Box::new(num(1)))),
        rhs: Box::new(num(2)),
    };
    let results = rule.apply(&expr, &ctx);
    assert_eq!(
        results[0].result,
        Expr::Equation { lhs: Box::new(Expr::Var(x)), rhs: Box::new(Expr::Const(Rational::new(1, 3))) }
    );
    assert_eq!(results[0].justification, "x = (2 - 1) / 3 = 1/3");
}

#[test]
fn quadratic_formula_on_x_squared_minus_four() {
    let x = var_x();
    let rule = quadratic_formula();
    let ctx = RuleContext::default();
    // x^2 + (-4) = 0: a = 1, b = 0, c = -4, discriminant 16
    let expr = Expr::Equation {
        lhs: Box::new(Expr::Add(
            Box::new(Expr::Pow(Box::new(Expr::Var(x)), Box::new(num(2)))),
            Box::new(num(-4)),
        )),
        rhs: Box::new(num(0)),
    };
    assert!(rule.can_apply(&expr, &ctx));
    let results = rule.apply(&expr, &ctx);
    assert_eq!(results.len(), 1);
    assert_eq!(results[0].justification, "Quadratic formula: x = (-0 + √16) / 2");
}

#[test]
fn quadratic_formula_reports_negative_discriminant() {
    let x = var_x();
    let rule = quadratic_formula();
    let ctx = RuleContext::default();
    // x^2 + 1 = 0
    let expr = Expr::Equation {
        lhs: Box::new(Expr::Add(Box::new(Expr::Pow(Box::new(Expr::Var(x)), Box::new(num(2)))), Box::new(num(1)))),
        rhs: Box::new(num(0)),
    };
    let results = rule.apply(&expr, &ctx);
    assert_eq!(results.len(), 1);
    assert_eq!(results[0].justification, "No real solutions (discriminant < 0)");
}
