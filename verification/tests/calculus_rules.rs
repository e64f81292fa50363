use mm_rules::calculus::{
    constant_rule, integral_constant, integral_constant_multiple, integral_cos, integral_csc2, integral_difference,
    integral_exp, integral_power, integral_sec2, integral_sin, integral_sum, integral_tan, integration_by_parts,
    partial_fractions, power_rule, trig_substitution, u_substitution,
};
use mm_rules::expr::{Expr, Symbol, SymbolTable};
use mm_rules::rule::RuleContext;

fn var_x() -> Symbol {
    let mut symbols = SymbolTable::new();
    symbols.intern("x")
}

fn num(n: i64) -> Expr {
    Expr::integer(n)
}

fn x_pow(x: Symbol, n: i64) -> Expr {
    Expr::Pow(Box::new(Expr::Var(x)), Box::new(num(n)))
}

fn integral(e: Expr, x: Symbol) -> Expr {
    Expr::Integral { expr: Box::new(e), var: x }
}

#[test]
fn test_power_rule() {
    let x = var_x();
    let rule = power_rule();
    let ctx = RuleContext::default();

    // d/dx(x^3)
    let expr = Expr::Derivative { expr: Box::new(x_pow(x, 3)), var: x };

    assert!(rule.can_apply(&expr, &ctx));
    let results = rule.apply(&expr, &ctx);
    assert_eq!(results.len(), 1);
    // 3 * x^2
    assert_eq!(results[0].result, Expr::Mul(Box::new(num(3)), Box::new(x_pow(x, 2))));
    assert_eq!(results[0].justification, "d/dx(x^3) = 3 · x^2");
}

#[test]
fn test_constant_rule() {
    let x = var_x();
    let rule = constant_rule();
    let ctx = RuleContext::default();

    // d/dx(5)
    let expr = Expr::Derivative { expr: Box::new(num(5)), var: x };

    assert!(rule.can_apply(&expr, &ctx));
    let results = rule.apply(&expr, &ctx);
    assert_eq!(results.len(), 1);
    assert_eq!(results[0].result, num(0));
}

#[test]
fn test_integral_power_rule() {
    let x = var_x();
    // ∫x² dx should give x³/3
    let expr = integral(x_pow(x, 2), x);
    let rule = integral_power();
    let ctx = RuleContext::default();

    assert!(rule.is_applicable(&expr, &ctx));
    let results = rule.apply(&expr, &ctx);
    assert!(!results.is_empty());
    assert_eq!(results[0].result, Expr::Div(Box::new(x_pow(x, 3)), Box::new(num(3))));
    assert_eq!(results[0].justification, "∫x^2 dx = x^3/(3)");
}

#[test]
fn test_integral_constant() {
    let x = var_x();
    // ∫5 dx should give 5x
    let expr = integral(num(5), x);
    let rule = integral_constant();
    let ctx = RuleContext::default();

    assert!(rule.is_applicable(&expr, &ctx));
    let results = rule.apply(&expr, &ctx);
    assert!(!results.is_empty());
    assert_eq!(results[0].result, Expr::Mul(Box::new(num(5)), Box::new(Expr::Var(x))));
}

#[test]
fn test_integral_constant_multiple() {
    let x = var_x();
    // ∫3x² dx should give 3·∫x² dx
    let expr = integral(Expr::Mul(Box::new(num(3)), Box::new(x_pow(x, 2))), x);
    let rule = integral_constant_multiple();
    let ctx = RuleContext::default();

    assert!(rule.is_applicable(&expr, &ctx));
    let results = rule.apply(&expr, &ctx);
    assert!(!results.is_empty());
    assert!(matches!(results[0].result, Expr::Mul(_, _)));
}

#[test]
fn test_integral_sum() {
    let x = var_x();
    // ∫(x² + x) dx should split into ∫x² dx + ∫x dx
    let expr = integral(Expr::Add(Box::new(x_pow(x, 2)), Box::new(Expr::Var(x))), x);
    let rule = integral_sum();
    let ctx = RuleContext::default();

    assert!(rule.is_applicable(&expr, &ctx));
    let results = rule.apply(&expr, &ctx);
    assert!(!results.is_empty());
    assert!(matches!(results[0].result, Expr::Add(_, _)));
}

#[test]
fn test_integral_exp() {
    let x = var_x();
    // ∫e^x dx should give e^x
    let expr = integral(Expr::Exp(Box::new(Expr::Var(x))), x);
    let rule = integral_exp();
    let ctx = RuleContext::default();

    assert!(rule.is_applicable(&expr, &ctx));
    let results = rule.apply(&expr, &ctx);
    assert!(!results.is_empty());
    assert_eq!(results[0].result, Expr::Exp(Box::new(Expr::Var(x))));
}

#[test]
fn test_integral_sin() {
    let x = var_x();
    // ∫sin(x) dx should give -cos(x)
    let expr = integral(Expr::Sin(Box::new(Expr::Var(x))), x);
    let rule = integral_sin();
    let ctx = RuleContext::default();

    assert!(rule.is_applicable(&expr, &ctx));
    let results = rule.apply(&expr, &ctx);
    assert!(!results.is_empty());
    assert!(matches!(results[0].result, Expr::Neg(_)));
}

#[test]
fn test_integral_cos() {
    let x = var_x();
    // ∫cos(x) dx should give sin(x)
    let expr = integral(Expr::Cos(Box::new(Expr::Var(x))), x);
    let rule = integral_cos();
    let ctx = RuleContext::default();

    assert!(rule.is_applicable(&expr, &ctx));
    let results = rule.apply(&expr, &ctx);
    assert!(!results.is_empty());
    assert_eq!(results[0].result, Expr::Sin(Box::new(Expr::Var(x))));
}

#[test]
fn test_integral_difference() {
    let x = var_x();
    // ∫(x² - x) dx should split into ∫x² dx - ∫x dx
    let expr = integral(Expr::Sub(Box::new(x_pow(x, 2)), Box::new(Expr::Var(x))), x);
    let rule = integral_difference();
    let ctx = RuleContext::default();

    assert!(rule.is_applicable(&expr, &ctx));
    let results = rule.apply(&expr, &ctx);
    assert!(!results.is_empty());
    assert!(matches!(results[0].result, Expr::Sub(_, _)));
}

#[test]
fn test_integral_tan() {
    let x = var_x();
    // ∫tan(x) dx should give -ln|cos(x)|
    let expr = integral(Expr::Tan(Box::new(Expr::Var(x))), x);
    let rule = integral_tan();
    let ctx = RuleContext::default();

    assert!(rule.is_applicable(&expr, &ctx));
    let results = rule.apply(&expr, &ctx);
    assert!(!results.is_empty());
    assert!(matches!(results[0].result, Expr::Neg(_)));
}

#[test]
fn test_integral_sec2() {
    let x = var_x();
    // ∫sec²(x) dx = ∫1/cos²(x) dx should give tan(x)
    let expr = integral(
        Expr::Div(
            Box::new(num(1)),
            Box::new(Expr::Pow(Box::new(Expr::Cos(Box::new(Expr::Var(x)))), Box::new(num(2)))),
        ),
        x,
    );
    let rule = integral_sec2();
    let ctx = RuleContext::default();

    assert!(rule.is_applicable(&expr, &ctx));
    let results = rule.apply(&expr, &ctx);
    assert!(!results.is_empty());
    assert_eq!(results[0].result, Expr::Tan(Box::new(Expr::Var(x))));
}

#[test]
fn test_integral_csc2() {
    let x = var_x();
    // ∫csc²(x) dx = ∫1/sin²(x) dx should give -cot(x)
    let expr = integral(
        Expr::Div(
            Box::new(num(1)),
            Box::new(Expr::Pow(Box::new(Expr::Sin(Box::new(Expr::Var(x)))), Box::new(num(2)))),
        ),
        x,
    );
    let rule = integral_csc2();
    let ctx = RuleContext::default();

    assert!(rule.is_applicable(&expr, &ctx));
    let results = rule.apply(&expr, &ctx);
    assert!(!results.is_empty());
    assert!(matches!(results[0].result, Expr::Neg(_)));
}

#[test]
fn test_integration_by_parts() {
    let x = var_x();
    // ∫x·e^x dx should give x·e^x - e^x
    let expr = integral(Expr::Mul(Box::new(Expr::Var(x)), Box::new(Expr::Exp(Box::new(Expr::Var(x))))), x);
    let rule = integration_by_parts();
    let ctx = RuleContext::default();

    assert!(rule.is_applicable(&expr, &ctx));
    let results = rule.apply(&expr, &ctx);
    assert!(!results.is_empty());
    assert!(matches!(results[0].result, Expr::Sub(_, _)));
}

#[test]
fn test_u_substitution() {
    let x = var_x();
    // ∫2x·e^(x²) dx should give e^(x²)
    let expr = integral(
        Expr::Mul(
            Box::new(Expr::Mul(Box::new(num(2)), Box::new(Expr::Var(x)))),
            Box::new(Expr::Exp(Box::new(x_pow(x, 2)))),
        ),
        x,
    );
    let rule = u_substitution();
    let ctx = RuleContext::default();

    assert!(rule.is_applicable(&expr, &ctx));
    let results = rule.apply(&expr, &ctx);
    assert!(!results.is_empty());
    assert!(matches!(results[0].result, Expr::Exp(_)));
}

#[test]
fn test_partial_fractions() {
    let x = var_x();
    // ∫1/(x²-1) dx should give (1/2)ln|(x-1)/(x+1)|
    let expr = integral(Expr::Div(Box::new(num(1)), Box::new(Expr::Sub(Box::new(x_pow(x, 2)), Box::new(num(1))))), x);
    let rule = partial_fractions();
    let ctx = RuleContext::default();

    assert!(rule.is_applicable(&expr, &ctx));
    let results = rule.apply(&expr, &ctx);
    assert!(!results.is_empty());
    assert!(matches!(results[0].result, Expr::Mul(_, _)));
}

#[test]
fn test_trig_substitution() {
    let x = var_x();
    // ∫1/√(1-x²) dx should give arcsin(x)
    let expr = integral(
        Expr::Div(Box::new(num(1)), Box::new(Expr::Sqrt(Box::new(Expr::Sub(Box::new(num(1)), Box::new(x_pow(x, 2))))))),
        x,
    );
    let rule = trig_substitution();
    let ctx = RuleContext::default();

    assert!(rule.is_applicable(&expr, &ctx));
    let results = rule.apply(&expr, &ctx);
    assert!(!results.is_empty());
    assert_eq!(results[0].result, Expr::Arcsin(Box::new(Expr::Var(x))));
}
