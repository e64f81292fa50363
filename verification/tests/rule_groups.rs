use mm_rules::calculus::chain_rule_exp;
use mm_rules::expr::{Expr, Symbol, SymbolTable};
use mm_rules::inequalities::inequality_rules;
use mm_rules::integration::power_integral;
use mm_rules::number_theory::number_theory_rules;
use mm_rules::polynomials::polynomial_rules;
use mm_rules::rational::Rational;
use mm_rules::rule::{Rule, RuleContext};

fn vars() -> (Symbol, Symbol) {
    let mut symbols = SymbolTable::new();
    (symbols.intern("x"), symbols.intern("y"))
}

fn num(n: i64) -> Expr {
    Expr::integer(n)
}

fn bx(e: Expr) -> Box<Expr> {
    Box::new(e)
}

fn named(rules: Vec<Rule>, name: &str) -> Rule {
    rules.into_iter().find(|r| r.name == name).unwrap()
}

#[test]
fn gcd_of_a_value_with_itself_is_its_absolute_value() {
    let (x, _) = vars();
    let rule = named(number_theory_rules(), "gcd_self");
    let e = Expr::GCD(bx(Expr::Var(x)), bx(Expr::Var(x)));
    let ctx = RuleContext::default();
    assert!(rule.can_apply(&e, &ctx));
    let apps = rule.apply(&e, &ctx);
    assert_eq!(apps.len(), 1);
    assert_eq!(apps[0].result, Expr::Abs(bx(Expr::Var(x))));
    assert_eq!(apps[0].justification, "gcd(a, a) = |a|");
}

#[test]
fn gcd_times_lcm_is_absolute_product() {
    let (x, y) = vars();
    let rule = named(number_theory_rules(), "gcd_lcm_product");
    let e = Expr::Mul(
        bx(Expr::LCM(bx(Expr::Var(x)), bx(Expr::Var(y)))),
        bx(Expr::GCD(bx(Expr::Var(x)), bx(Expr::Var(y)))),
    );
    let ctx = RuleContext::default();
    assert!(rule.can_apply(&e, &ctx));
    let apps = rule.apply(&e, &ctx);
    assert_eq!(apps.len(), 1);
    assert_eq!(apps[0].result, Expr::Abs(bx(Expr::Mul(bx(Expr::Var(x)), bx(Expr::Var(y))))));
    assert_eq!(apps[0].justification, "gcd(a,b) * lcm(a,b) = |a*b|");
}

#[test]
fn cancel_common_factor_tests_only_the_left_factor() {
    let (x, y) = vars();
    let rule = named(number_theory_rules(), "cancel_common_factor");
    let ctx = RuleContext::default();
    let left = Expr::Div(bx(Expr::Mul(bx(Expr::Var(x)), bx(Expr::Var(y)))), bx(Expr::Var(x)));
    assert!(rule.can_apply(&left, &ctx));
    let apps = rule.apply(&left, &ctx);
    assert_eq!(apps.len(), 1);
    assert_eq!(apps[0].result, Expr::Var(y));
    assert_eq!(apps[0].justification, "(a*b)/a = b");
    // The applicability test looks at the left factor only; applying still
    // cancels a matching right factor.
    let right = Expr::Div(bx(Expr::Mul(bx(Expr::Var(x)), bx(Expr::Var(y)))), bx(Expr::Var(y)));
    assert!(!rule.can_apply(&right, &ctx));
    let apps = rule.apply(&right, &ctx);
    assert_eq!(apps.len(), 1);
    assert_eq!(apps[0].result, Expr::Var(x));
    assert_eq!(apps[0].justification, "(a*b)/b = a");
}

#[test]
fn square_of_a_sum_expands() {
    let (x, y) = vars();
    let rule = named(number_theory_rules(), "square_binomial_expand");
    let e = Expr::Pow(bx(Expr::Add(bx(Expr::Var(x)), bx(Expr::Var(y)))), bx(num(2)));
    let apps = rule.apply(&e, &RuleContext::default());
    assert_eq!(apps.len(), 1);
    let expected = Expr::Add(
        bx(Expr::Add(
            bx(Expr::Pow(bx(Expr::Var(x)), bx(num(2)))),
            bx(Expr::Mul(bx(num(2)), bx(Expr::Mul(bx(Expr::Var(x)), bx(Expr::Var(y)))))),
        )),
        bx(Expr::Pow(bx(Expr::Var(y)), bx(num(2)))),
    );
    assert_eq!(apps[0].result, expected);
    assert_eq!(apps[0].justification, "(a+b)² = a² + 2ab + b²");
}

#[test]
fn difference_of_cubes_factors() {
    let (x, y) = vars();
    let rule = named(polynomial_rules(), "diff_cubes");
    let e = Expr::Sub(
        bx(Expr::Pow(bx(Expr::Var(x)), bx(num(3)))),
        bx(Expr::Pow(bx(Expr::Var(y)), bx(num(3)))),
    );
    let ctx = RuleContext::default();
    assert!(rule.can_apply(&e, &ctx));
    let apps = rule.apply(&e, &ctx);
    assert_eq!(apps.len(), 1);
    let expected = Expr::Mul(
        bx(Expr::Sub(bx(Expr::Var(x)), bx(Expr::Var(y)))),
        bx(Expr::Add(
            bx(Expr::Add(
                bx(Expr::Pow(bx(Expr::Var(x)), bx(num(2)))),
                bx(Expr::Mul(bx(Expr::Var(x)), bx(Expr::Var(y)))),
            )),
            bx(Expr::Pow(bx(Expr::Var(y)), bx(num(2)))),
        )),
    );
    assert_eq!(apps[0].result, expected);
    assert_eq!(apps[0].justification, "Difference of cubes: a³ - b³ = (a-b)(a² + ab + b²)");
}

#[test]
fn complete_square_applies_but_gives_nothing() {
    let (x, _) = vars();
    let rule = named(polynomial_rules(), "complete_square");
    let e = Expr::Add(
        bx(Expr::Pow(bx(Expr::Var(x)), bx(num(2)))),
        bx(Expr::Mul(bx(num(3)), bx(Expr::Var(x)))),
    );
    let ctx = RuleContext::default();
    assert!(rule.can_apply(&e, &ctx));
    assert!(rule.apply(&e, &ctx).is_empty());
}

#[test]
fn power_integral_with_a_fractional_exponent() {
    let (x, _) = vars();
    let rule = power_integral();
    let half = Expr::Const(Rational::new(1, 2));
    let e = Expr::Integral { expr: bx(Expr::Pow(bx(Expr::Var(x)), bx(half))), var: x };
    let ctx = RuleContext::default();
    assert!(rule.can_apply(&e, &ctx));
    let apps = rule.apply(&e, &ctx);
    assert_eq!(apps.len(), 1);
    let three_halves = Rational::new(3, 2);
    let expected = Expr::Div(
        bx(Expr::Pow(bx(Expr::Var(x)), bx(Expr::Const(three_halves)))),
        bx(Expr::Const(three_halves)),
    );
    assert_eq!(apps[0].result, expected);
    assert_eq!(apps[0].justification, "integral(x^1/2 dx) = x^3/2/3/2");
}

#[test]
fn power_integral_refuses_the_reciprocal() {
    let (x, _) = vars();
    let e = Expr::Integral { expr: bx(Expr::Pow(bx(Expr::Var(x)), bx(num(-1)))), var: x };
    let rule = power_integral();
    assert!(!rule.can_apply(&e, &RuleContext::default()));
    assert!(rule.apply(&e, &RuleContext::default()).is_empty());
}

#[test]
fn floor_of_an_integer_constant() {
    let rule = named(number_theory_rules(), "floor_integer");
    let ctx = RuleContext::default();
    let e = Expr::Floor(bx(num(7)));
    assert!(rule.can_apply(&e, &ctx));
    let apps = rule.apply(&e, &ctx);
    assert_eq!(apps.len(), 1);
    assert_eq!(apps[0].result, num(7));
    assert_eq!(apps[0].justification, "⌊n⌋ = n for integer n");
    let half = Expr::Floor(bx(Expr::Const(Rational::new(7, 2))));
    assert!(!rule.can_apply(&half, &ctx));
    assert!(rule.apply(&half, &ctx).is_empty());
}

#[test]
fn minus_one_to_an_even_power() {
    let rule = named(number_theory_rules(), "neg_one_even_power");
    let ctx = RuleContext::default();
    let even = Expr::Pow(bx(Expr::Neg(bx(num(1)))), bx(num(-4)));
    assert!(rule.can_apply(&even, &ctx));
    let apps = rule.apply(&even, &ctx);
    assert_eq!(apps.len(), 1);
    assert_eq!(apps[0].result, num(1));
    assert_eq!(apps[0].justification, "(-1)^(2n) = 1");
    let odd = Expr::Pow(bx(Expr::Neg(bx(num(1)))), bx(num(3)));
    assert!(!rule.can_apply(&odd, &ctx));
    assert!(rule.apply(&odd, &ctx).is_empty());
}

#[test]
fn factorial_unfolds_once() {
    let (x, _) = vars();
    let rule = named(number_theory_rules(), "factorial_recurse");
    let e = Expr::Factorial(bx(Expr::Var(x)));
    let apps = rule.apply(&e, &RuleContext::default());
    assert_eq!(apps.len(), 1);
    let expected = Expr::Mul(
        bx(Expr::Var(x)),
        bx(Expr::Factorial(bx(Expr::Sub(bx(Expr::Var(x)), bx(num(1)))))),
    );
    assert_eq!(apps[0].result, expected);
    assert_eq!(apps[0].justification, "n! = n · (n-1)! (factorial recursion)");
}

#[test]
fn triangle_inequality_bounds_the_absolute_sum() {
    let (x, y) = vars();
    let rule = named(inequality_rules(), "triangle_ineq");
    let e = Expr::Abs(bx(Expr::Add(bx(Expr::Var(x)), bx(Expr::Var(y)))));
    let ctx = RuleContext::default();
    assert!(rule.can_apply(&e, &ctx));
    let apps = rule.apply(&e, &ctx);
    assert_eq!(apps.len(), 1);
    assert_eq!(
        apps[0].result,
        Expr::Add(bx(Expr::Abs(bx(Expr::Var(x)))), bx(Expr::Abs(bx(Expr::Var(y)))))
    );
    assert_eq!(apps[0].justification, "|a + b| ≤ |a| + |b| (upper bound)");
}

#[test]
fn chain_rule_exp_respects_the_target_variable() {
    let (x, y) = vars();
    let rule = chain_rule_exp();
    let g = Expr::Mul(bx(num(2)), bx(Expr::Var(x)));
    let e = Expr::Derivative { expr: bx(Expr::Exp(bx(g))), var: x };
    assert!(rule.can_apply(&e, &RuleContext::default()));
    assert!(rule.can_apply(&e, &RuleContext { target_var: Some(x) }));
    assert!(!rule.can_apply(&e, &RuleContext { target_var: Some(y) }));
    let apps = rule.apply(&e, &RuleContext { target_var: Some(y) });
    assert_eq!(apps.len(), 1);
    let g = Expr::Mul(bx(num(2)), bx(Expr::Var(x)));
    let expected = Expr::Mul(
        bx(Expr::Exp(bx(Expr::Mul(bx(num(2)), bx(Expr::Var(x)))))),
        bx(Expr::Derivative { expr: bx(g), var: x }),
    );
    assert_eq!(apps[0].result, expected);
    assert_eq!(apps[0].justification, "d/dx(e^g) = e^g * g'");
}
