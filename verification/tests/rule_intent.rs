use mm_rules::board_exam::{gp_nth_term, gp_sum};
use mm_rules::calculus::{advanced_calculus_rules, calculus_rules, find_max_on_interval, phase4_calculus_rules};
use mm_rules::case_analysis::suggest_case_splits;
use mm_rules::combinatorics::{combinatorics_rules, fibonacci_generating_function};
use mm_rules::equations::equation_rules;
use mm_rules::expr::{Expr, Symbol, SymbolTable};
use mm_rules::geometry::geometry_rules;
use mm_rules::induction::{InductionProof, InductionType};
use mm_rules::inequalities::inequality_rules;
use mm_rules::integration::integration_rules;
use mm_rules::number_theory::{euler_theorem, number_theory_rules};
use mm_rules::polynomials::polynomial_rules;
use mm_rules::rational::Rational;
use mm_rules::rule::{Rule, RuleContext};

fn bx(e: Expr) -> Box<Expr> {
    Box::new(e)
}

fn num(n: i64) -> Expr {
    Expr::integer(n)
}

fn var(x: Symbol) -> Expr {
    Expr::Var(x)
}

fn named(rules: Vec<Rule>, name: &str) -> Rule {
    rules.into_iter().find(|r| r.name == name).unwrap()
}

fn xyz() -> (SymbolTable, Symbol, Symbol) {
    let mut symbols = SymbolTable::new();
    let x = symbols.intern("x");
    let y = symbols.intern("y");
    (symbols, x, y)
}

#[test]
fn arcsin_derivative_fires_only_on_arcsin() {
    let (_, x, _) = xyz();
    let rule = named(advanced_calculus_rules(), "inverse_trig_deriv_arcsin");
    let ctx = RuleContext { target_var: Some(x) };
    let plain = Expr::Derivative { expr: bx(var(x)), var: x };
    assert!(!rule.can_apply(&plain, &ctx));
    assert!(rule.apply(&plain, &ctx).is_empty());
    let e = Expr::Derivative { expr: bx(Expr::Arcsin(bx(var(x)))), var: x };
    assert!(rule.can_apply(&e, &ctx));
    let apps = rule.apply(&e, &ctx);
    assert_eq!(apps.len(), 1);
    let expected = Expr::Div(
        bx(num(1)),
        bx(Expr::Sqrt(bx(Expr::Sub(bx(num(1)), bx(Expr::Pow(bx(var(x)), bx(num(2)))))))),
    );
    assert_eq!(apps[0].result, expected);
    assert_eq!(apps[0].justification, "d/dx(arcsin(x)) = 1/√(1-x²)");
}

#[test]
fn euler_theorem_needs_the_totient_exponent_and_coprimality() {
    let rule = euler_theorem();
    let ctx = RuleContext::default();
    let modpow = |a: i64, k: i64, n: i64| Expr::Mod(bx(Expr::Pow(bx(num(a)), bx(num(k)))), bx(num(n)));
    // 2³ mod 5 = 3: not Euler's theorem.
    assert!(!rule.can_apply(&modpow(2, 3, 5), &ctx));
    assert!(rule.apply(&modpow(2, 3, 5), &ctx).is_empty());
    // 2⁴ mod 5 = 1 with φ(5) = 4.
    assert!(rule.can_apply(&modpow(2, 4, 5), &ctx));
    let apps = rule.apply(&modpow(2, 4, 5), &ctx);
    assert_eq!(apps.len(), 1);
    assert_eq!(apps[0].result, num(1));
    // 3² mod 4 with φ(4) = 2; 5⁴ mod 12 with φ(12) = 4.
    assert!(rule.can_apply(&modpow(3, 2, 4), &ctx));
    assert!(rule.can_apply(&modpow(5, 4, 12), &ctx));
    // gcd(2, 6) = 2.
    assert!(!rule.can_apply(&modpow(2, 2, 6), &ctx));
}

#[test]
fn substitution_reaches_inverse_trig_arguments() {
    let (mut symbols, x, y) = xyz();
    let proof = InductionProof::new(var(x), x, InductionType::Simple, &mut symbols);
    let e = Expr::Add(bx(Expr::Arcsin(bx(var(x)))), bx(Expr::Arctan(bx(Expr::Arccos(bx(var(x)))))));
    let expected = Expr::Add(bx(Expr::Arcsin(bx(num(0)))), bx(Expr::Arctan(bx(Expr::Arccos(bx(num(0)))))));
    assert_eq!(proof.substitute(&e, x, &num(0)), expected);
    assert_eq!(proof.substitute(&e, x, &var(x)), e);
    assert_eq!(proof.substitute(&e, y, &num(0)), e);
}

#[test]
fn induction_interns_exactly_the_fresh_variable() {
    let (mut symbols, x, _) = xyz();
    let goal = Expr::ForAll { var: x, domain: None, body: bx(Expr::Gte(bx(var(x)), bx(num(0)))) };
    let proof = InductionProof::from_forall(&goal, &mut symbols).unwrap();
    let k = proof.k_var.unwrap();
    assert_eq!(k, Symbol(2));
    // Interning again reuses `_k`; the next new name gets the next id.
    let again = InductionProof::new(var(x), x, InductionType::Simple, &mut symbols);
    assert_eq!(again.k_var, Some(k));
    assert_eq!(symbols.intern("z"), Symbol(3));
    assert_eq!(symbols.intern("x"), x);
}

#[test]
fn fibonacci_generating_function_matches_its_denominator() {
    let (_, x, y) = xyz();
    let rule = fibonacci_generating_function();
    let ctx = RuleContext::default();
    let gf = Expr::Div(
        bx(var(x)),
        bx(Expr::Sub(bx(Expr::Sub(bx(num(1)), bx(var(x)))), bx(Expr::Pow(bx(var(x)), bx(num(2)))))),
    );
    assert!(rule.can_apply(&gf, &ctx));
    assert_eq!(rule.apply(&gf, &ctx)[0].result, gf);
    let other = Expr::Div(bx(var(x)), bx(Expr::Sub(bx(var(x)), bx(var(y)))));
    assert!(!rule.can_apply(&other, &ctx));
}

fn assert_distinct(rules: &[Rule]) {
    for i in 0..rules.len() {
        for j in (i + 1)..rules.len() {
            assert_ne!(rules[i].id, rules[j].id, "{} and {}", rules[i].name, rules[j].name);
            assert_ne!(rules[i].name, rules[j].name);
        }
    }
}

#[test]
fn every_group_has_distinct_ids_and_names() {
    let phase4 = phase4_calculus_rules();
    assert_eq!(phase4.len(), 82);
    assert_distinct(&phase4);
    assert_distinct(&calculus_rules());
    assert_distinct(&combinatorics_rules());
    assert_distinct(&equation_rules());
    assert_distinct(&geometry_rules());
    assert_distinct(&inequality_rules());
    assert_distinct(&integration_rules());
    let nt = number_theory_rules();
    assert!(nt.iter().all(|r| r.id.0 >= 100));
    assert_distinct(&nt);
    assert_distinct(&polynomial_rules());
}

#[test]
fn sum_of_cubes_factors_correctly() {
    let (_, x, y) = xyz();
    let rule = named(polynomial_rules(), "sum_cubes");
    let e = Expr::Add(bx(Expr::Pow(bx(var(x)), bx(num(3)))), bx(Expr::Pow(bx(var(y)), bx(num(3)))));
    let ctx = RuleContext::default();
    assert!(rule.can_apply(&e, &ctx));
    let apps = rule.apply(&e, &ctx);
    assert_eq!(apps.len(), 1);
    let expected = Expr::Mul(
        bx(Expr::Add(bx(var(x)), bx(var(y)))),
        bx(Expr::Add(
            bx(Expr::Sub(bx(Expr::Pow(bx(var(x)), bx(num(2)))), bx(Expr::Mul(bx(var(x)), bx(var(y)))))),
            bx(Expr::Pow(bx(var(y)), bx(num(2)))),
        )),
    );
    assert_eq!(apps[0].result, expected);
    assert_eq!(mm_rules::polynomial::algebraically_equal(&apps[0].result, &e), Some(true));
}

#[test]
fn zero_divided_by_n_but_never_division_by_zero() {
    let (_, x, _) = xyz();
    let rule = named(number_theory_rules(), "divides_zero");
    let ctx = RuleContext::default();
    let by_zero = Expr::Div(bx(var(x)), bx(num(0)));
    assert!(!rule.can_apply(&by_zero, &ctx));
    assert!(rule.apply(&by_zero, &ctx).is_empty());
    let zero_over = Expr::Div(bx(num(0)), bx(var(x)));
    assert!(rule.can_apply(&zero_over, &ctx));
    let apps = rule.apply(&zero_over, &ctx);
    assert_eq!(apps.len(), 1);
    assert_eq!(apps[0].result, num(0));
    assert_eq!(apps[0].justification, "0/n = 0");
}

#[test]
fn binomial_identities_fire_only_on_binomials() {
    let (_, x, _) = xyz();
    let rules = combinatorics_rules();
    let zero = rules.iter().find(|r| r.name == "binomial_zero").unwrap();
    let full = rules.iter().find(|r| r.name == "binomial_full").unwrap();
    let ctx = RuleContext::default();
    let fact = Expr::Factorial(bx(num(3)));
    assert!(!zero.can_apply(&fact, &ctx));
    assert!(zero.apply(&fact, &ctx).is_empty());
    assert!(full.apply(&fact, &ctx).is_empty());
    let c_n_0 = Expr::Binomial(bx(var(x)), bx(num(0)));
    assert!(zero.can_apply(&c_n_0, &ctx));
    assert_eq!(zero.apply(&c_n_0, &ctx)[0].result, num(1));
    let c_n_n = Expr::Binomial(bx(var(x)), bx(var(x)));
    assert!(full.can_apply(&c_n_n, &ctx));
    assert_eq!(full.apply(&c_n_n, &ctx)[0].result, num(1));
}

#[test]
fn absolute_square_needs_exponent_two() {
    let (_, x, _) = xyz();
    let rule = named(inequality_rules(), "abs_squared");
    let ctx = RuleContext::default();
    let cube = Expr::Pow(bx(Expr::Abs(bx(var(x)))), bx(num(3)));
    assert!(rule.apply(&cube, &ctx).is_empty());
    let square = Expr::Pow(bx(Expr::Abs(bx(var(x)))), bx(num(2)));
    assert_eq!(rule.apply(&square, &ctx)[0].result, Expr::Pow(bx(var(x)), bx(num(2))));
}

#[test]
fn bound_variables_are_hidden_only_inside_their_binder() {
    let (_, x, y) = xyz();
    // x ≥ 0 ∧ ∀x. x > y: x occurs free on the left, y inside the binder.
    let goal = Expr::And(
        bx(Expr::Gte(bx(var(x)), bx(num(0)))),
        bx(Expr::ForAll { var: x, domain: None, body: bx(Expr::Gt(bx(var(x)), bx(var(y)))) }),
    );
    let splits = suggest_case_splits(&goal);
    let vars: Vec<Symbol> = splits.iter().map(|s| s.variable).collect();
    assert_eq!(vars, vec![x, x, y, y]);
    // ∀x. x > y alone: only y is free.
    let bound = Expr::ForAll { var: x, domain: None, body: bx(Expr::Gt(bx(var(x)), bx(var(y)))) };
    let vars: Vec<Symbol> = suggest_case_splits(&bound).iter().map(|s| s.variable).collect();
    assert_eq!(vars, vec![y, y]);
}

#[test]
fn maximum_at_a_half_integer_critical_point() {
    // x - x² on [0, 1] peaks at x = 1/2 with value 1/4.
    let (_, x, _) = xyz();
    let f = Expr::Sub(bx(var(x)), bx(Expr::Pow(bx(var(x)), bx(num(2)))));
    let (xm, m) = find_max_on_interval(&f, x, Rational::from_integer(0), Rational::from_integer(1)).unwrap();
    assert_eq!(xm, Rational::new(1, 2));
    assert_eq!(m, Rational::new(1, 4));
}

#[test]
fn complexity_fits_small_expressions() {
    let (_, x, _) = xyz();
    let e = Expr::Sin(bx(Expr::Add(bx(var(x)), bx(num(1)))));
    assert!(mm_rules::guardrail::complexity_fits(&e));
    assert_eq!(mm_rules::guardrail::analyze(&e).complexity, 5);
}

#[test]
fn fermat_little_theorem_needs_a_prime_modulus() {
    let (_, x, _) = xyz();
    let rule = mm_rules::number_theory::fermat_little_theorem();
    let ctx = RuleContext::default();
    let fermat = |a: Expr, p: Expr| Expr::Mod(bx(Expr::Pow(bx(a), bx(Expr::Sub(bx(p.clone()), bx(num(1)))))), bx(p));
    let seven = fermat(num(3), num(7));
    assert!(rule.can_apply(&seven, &ctx));
    assert_eq!(rule.apply(&seven, &ctx)[0].result, num(1));
    // 4 is not prime: 3³ mod 4 = 3.
    assert!(!rule.can_apply(&fermat(num(3), num(4)), &ctx));
    assert!(rule.apply(&fermat(num(3), num(4)), &ctx).is_empty());
    // gcd(7, 7) = 7.
    assert!(!rule.can_apply(&fermat(num(7), num(7)), &ctx));
    // A symbolic modulus cannot be checked.
    assert!(!rule.can_apply(&fermat(num(2), var(x)), &ctx));
}

#[test]
fn phase4_placeholders_never_fire() {
    let (_, x, _) = xyz();
    let rules = phase4_calculus_rules();
    let samples = [
        var(x),
        Expr::Integral { expr: bx(var(x)), var: x },
        Expr::Derivative { expr: bx(Expr::Sin(bx(var(x)))), var: x },
        Expr::Div(bx(num(1)), bx(Expr::Sub(bx(num(1)), bx(var(x))))),
    ];
    for rule in &rules[48..] {
        for e in &samples {
            assert!(!rule.can_apply(e, &RuleContext { target_var: Some(x) }));
            assert!(rule.apply(e, &RuleContext::default()).is_empty());
        }
    }
}

#[test]
fn expression_text_matches_debug_formatting() {
    let (_, x, y) = xyz();
    let exprs = vec![
        Expr::Add(bx(Expr::Const(Rational::new(-3, 4))), bx(Expr::Pi)),
        Expr::ForAll {
            var: x,
            domain: Some(bx(Expr::Gte(bx(var(x)), bx(num(0))))),
            body: bx(Expr::Exists { var: y, domain: None, body: bx(Expr::Lt(bx(var(y)), bx(var(x)))) }),
        },
        Expr::Summation { var: x, from: bx(num(1)), to: bx(var(y)), body: bx(Expr::Factorial(bx(var(x)))) },
        Expr::Derivative { expr: bx(Expr::Arctan(bx(Expr::E))), var: y },
        Expr::Equation { lhs: bx(Expr::Binomial(bx(var(x)), bx(num(2)))), rhs: bx(Expr::Neg(bx(num(7)))) },
    ];
    for e in &exprs {
        assert_eq!(mm_rules::text::render_expr(e), format!("{:?}", e));
    }
}

#[test]
fn geometric_terms_with_negative_exponents() {
    let r = |n: i64| Rational::from_integer(n);
    // 2·3^(0-1) = 2/3 and 2·3^(-1-1) = 2/9.
    assert_eq!(gp_nth_term(r(2), r(3), 0), Rational::new(2, 3));
    assert_eq!(gp_nth_term(r(2), r(3), -1), Rational::new(2, 9));
    // 1·(2^(-1) - 1)/(2 - 1) = -1/2.
    assert_eq!(gp_sum(r(1), r(2), -1), Some(Rational::new(-1, 2)));
}

#[test]
fn substituting_a_variable_by_itself_changes_nothing() {
    let (mut symbols, x, y) = xyz();
    let proof = InductionProof::new(var(x), x, InductionType::Simple, &mut symbols);
    let e = Expr::Mul(
        bx(Expr::Sin(bx(var(x)))),
        bx(Expr::ForAll { var: y, domain: None, body: bx(Expr::Gt(bx(var(x)), bx(var(y)))) }),
    );
    assert_eq!(proof.substitute(&e, x, &var(x)), e);
    assert_eq!(proof.substitute(&e, y, &var(y)), e);
}

#[test]
fn absolute_value_rules_give_one_result_each() {
    let (_, x, y) = xyz();
    let rules = mm_rules::inequalities::absolute_value_rules();
    let ctx = RuleContext::default();
    let product = Expr::Abs(bx(Expr::Mul(bx(var(x)), bx(var(y)))));
    let r = rules.iter().find(|r| r.name == "abs_product").unwrap();
    assert!(r.can_apply(&product, &ctx));
    let apps = r.apply(&product, &ctx);
    assert_eq!(apps.len(), 1);
    assert_eq!(apps[0].result, Expr::Mul(bx(Expr::Abs(bx(var(x)))), bx(Expr::Abs(bx(var(y))))));
    let neg = Expr::Abs(bx(Expr::Neg(bx(var(x)))));
    let r = rules.iter().find(|r| r.name == "abs_neg").unwrap();
    assert_eq!(r.apply(&neg, &ctx)[0].result, Expr::Abs(bx(var(x))));
}
