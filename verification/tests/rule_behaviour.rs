use mm_rules::equations::quadratic_formula;
use mm_rules::expr::{Expr, Symbol, SymbolTable};
use mm_rules::geometry::geometry_rules;
use mm_rules::number_theory::{number_of_divisors, sum_of_divisors};
use mm_rules::rational::Rational;
use mm_rules::rule::RuleContext;

fn var_x() -> Symbol {
    let mut symbols = SymbolTable::new();
    symbols.intern("x")
}

fn num(n: i64) -> Expr {
    Expr::integer(n)
}

fn bx(e: Expr) -> Box<Expr> {
    Box::new(e)
}

#[test]
fn sum_of_divisors_of_six() {
    let rule = sum_of_divisors();
    let ctx = RuleContext::default();
    assert!(rule.can_apply(&num(6), &ctx));
    let apps = rule.apply(&num(6), &ctx);
    assert_eq!(apps.len(), 1);
    assert_eq!(apps[0].result, num(12));
    assert_eq!(apps[0].justification, "Sum of divisors: σ(6) = 12 (sum of all divisors)");
}

#[test]
fn sum_of_divisors_outside_its_range() {
    let rule = sum_of_divisors();
    let ctx = RuleContext::default();
    assert!(!rule.can_apply(&num(1000), &ctx));
    assert!(!rule.can_apply(&num(0), &ctx));
    let apps = rule.apply(&num(1000), &ctx);
    assert_eq!(apps.len(), 1);
    assert_eq!(apps[0].result, num(1000));
    assert_eq!(apps[0].justification, "Sum of divisors: σ(n) = Σ d for all d | n");
}

#[test]
fn number_of_divisors_of_twelve() {
    let rule = number_of_divisors();
    let ctx = RuleContext::default();
    let apps = rule.apply(&num(12), &ctx);
    assert_eq!(apps.len(), 1);
    assert_eq!(apps[0].result, num(6));
    assert_eq!(apps[0].justification, "Number of divisors: τ(12) = 6 (count of all divisors)");
}

#[test]
fn quadratic_formula_on_monic_quadratic() {
    // x² + (-5·x + 6) = 0
    let x = var_x();
    let square = Expr::Pow(bx(Expr::Var(x)), bx(num(2)));
    let linear = Expr::Add(bx(Expr::Mul(bx(num(-5)), bx(Expr::Var(x)))), bx(num(6)));
    let eq = Expr::Equation { lhs: bx(Expr::Add(bx(square), bx(linear))), rhs: bx(num(0)) };
    let rule = quadratic_formula();
    let ctx = RuleContext::default();
    assert!(rule.can_apply(&eq, &ctx));
    let apps = rule.apply(&eq, &ctx);
    assert_eq!(apps.len(), 1);
    let expected = Expr::Equation {
        lhs: bx(Expr::Var(x)),
        rhs: bx(Expr::Div(
            bx(Expr::Add(bx(Expr::Neg(bx(num(-5)))), bx(Expr::Sqrt(bx(num(1)))))),
            bx(num(2)),
        )),
    };
    assert_eq!(apps[0].result, expected);
    assert_eq!(apps[0].justification, "Quadratic formula: x = (--5 + √1) / 2");
}

#[test]
fn quadratic_formula_without_real_roots() {
    // x² + 1 = 0
    let x = var_x();
    let square = Expr::Pow(bx(Expr::Var(x)), bx(num(2)));
    let eq = Expr::Equation { lhs: bx(Expr::Add(bx(square), bx(num(1)))), rhs: bx(num(0)) };
    let apps = quadratic_formula().apply(&eq, &RuleContext::default());
    assert_eq!(apps.len(), 1);
    assert_eq!(apps[0].result, eq);
    assert_eq!(apps[0].justification, "No real solutions (discriminant < 0)");
}

#[test]
fn distance_formula_on_constants() {
    let rules = geometry_rules();
    let rule = rules.iter().find(|r| r.name == "distance_formula").unwrap();
    let e = Expr::Sqrt(bx(Expr::Add(
        bx(Expr::Pow(bx(num(3)), bx(num(2)))),
        bx(Expr::Pow(bx(num(4)), bx(num(2)))),
    )));
    let ctx = RuleContext::default();
    assert!(rule.can_apply(&e, &ctx));
    let apps = rule.apply(&e, &ctx);
    assert_eq!(apps.len(), 1);
    assert_eq!(apps[0].result, Expr::Sqrt(bx(Expr::Const(Rational::from_integer(25)))));
    assert_eq!(apps[0].justification, "Distance formula: √(a² + b²)");
}
