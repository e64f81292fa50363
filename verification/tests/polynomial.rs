use mm_rules::expr::{Expr, SymbolTable};
use mm_rules::polynomial::{algebraically_equal, Monomial, PolynomialNF};
use mm_rules::rational::Rational;

#[test]
fn test_constant_equality() {
    let a = Expr::integer(5);
    let b = Expr::integer(5);
    assert_eq!(algebraically_equal(&a, &b), Some(true));

    let c = Expr::integer(3);
    assert_eq!(algebraically_equal(&a, &c), Some(false));
}

#[test]
fn test_variable_equality() {
    let mut symbols = SymbolTable::new();
    let x = symbols.intern("x");

    let a = Expr::Var(x);
    let b = Expr::Var(x);
    assert_eq!(algebraically_equal(&a, &b), Some(true));
}

#[test]
fn test_polynomial_equality() {
    let mut symbols = SymbolTable::new();
    let k = symbols.intern("k");

    // (k+1)(k+2) = k² + 3k + 2
    let lhs = Expr::Mul(
        Box::new(Expr::Add(Box::new(Expr::Var(k)), Box::new(Expr::integer(1)))),
        Box::new(Expr::Add(Box::new(Expr::Var(k)), Box::new(Expr::integer(2)))),
    );

    let rhs = Expr::Add(
        Box::new(Expr::Add(
            Box::new(Expr::Pow(Box::new(Expr::Var(k)), Box::new(Expr::integer(2)))),
            Box::new(Expr::Mul(Box::new(Expr::integer(3)), Box::new(Expr::Var(k)))),
        )),
        Box::new(Expr::integer(2)),
    );

    assert_eq!(algebraically_equal(&lhs, &rhs), Some(true));
}

#[test]
fn test_sum_formula_step() {
    let mut symbols = SymbolTable::new();
    let k = symbols.intern("k");

    // k(k+1)/2 + (k+1) = (k+1)(k+2)/2
    let k_times_k_plus_1 = Expr::Mul(
        Box::new(Expr::Var(k)),
        Box::new(Expr::Add(Box::new(Expr::Var(k)), Box::new(Expr::integer(1)))),
    );
    let k_times_k_plus_1_div_2 = Expr::Div(Box::new(k_times_k_plus_1), Box::new(Expr::integer(2)));
    let lhs = Expr::Add(
        Box::new(k_times_k_plus_1_div_2),
        Box::new(Expr::Add(Box::new(Expr::Var(k)), Box::new(Expr::integer(1)))),
    );

    let rhs = Expr::Div(
        Box::new(Expr::Mul(
            Box::new(Expr::Add(Box::new(Expr::Var(k)), Box::new(Expr::integer(1)))),
            Box::new(Expr::Add(Box::new(Expr::Var(k)), Box::new(Expr::integer(2)))),
        )),
        Box::new(Expr::integer(2)),
    );

    assert_eq!(algebraically_equal(&lhs, &rhs), Some(true));
}

#[test]
fn unsupported_expression_has_no_normal_form() {
    let mut symbols = SymbolTable::new();
    let x = symbols.intern("x");
    let s = Expr::Sin(Box::new(Expr::Var(x)));
    assert!(PolynomialNF::from_expr(&s).is_none());
    assert_eq!(algebraically_equal(&s, &s), None);
    // division by a non-constant polynomial
    let d = Expr::Div(Box::new(Expr::integer(1)), Box::new(Expr::Var(x)));
    assert!(PolynomialNF::from_expr(&d).is_none());
    // exponent above 10
    let p = Expr::Pow(Box::new(Expr::Var(x)), Box::new(Expr::integer(11)));
    assert!(PolynomialNF::from_expr(&p).is_none());
}

#[test]
fn difference_of_squares_and_inequality() {
    let mut symbols = SymbolTable::new();
    let x = symbols.intern("x");
    let y = symbols.intern("y");
    // (x+y)(x-y) = x² - y²
    let lhs = Expr::Mul(
        Box::new(Expr::Add(Box::new(Expr::Var(x)), Box::new(Expr::Var(y)))),
        Box::new(Expr::Sub(Box::new(Expr::Var(x)), Box::new(Expr::Var(y)))),
    );
    let rhs = Expr::Sub(
        Box::new(Expr::Pow(Box::new(Expr::Var(x)), Box::new(Expr::integer(2)))),
        Box::new(Expr::Pow(Box::new(Expr::Var(y)), Box::new(Expr::integer(2)))),
    );
    assert_eq!(algebraically_equal(&lhs, &rhs), Some(true));
    assert_eq!(algebraically_equal(&rhs, &lhs), Some(true));
    // x² + y² differs
    let other = Expr::Add(
        Box::new(Expr::Pow(Box::new(Expr::Var(x)), Box::new(Expr::integer(2)))),
        Box::new(Expr::Pow(Box::new(Expr::Var(y)), Box::new(Expr::integer(2)))),
    );
    assert_eq!(algebraically_equal(&lhs, &other), Some(false));
}

#[test]
fn normal_form_reduces_common_factor() {
    let mut symbols = SymbolTable::new();
    let x = symbols.intern("x");
    // (2x + 4) / 2
    let e = Expr::Div(
        Box::new(Expr::Add(
            Box::new(Expr::Mul(Box::new(Expr::integer(2)), Box::new(Expr::Var(x)))),
            Box::new(Expr::integer(4)),
        )),
        Box::new(Expr::integer(2)),
    );
    let p = PolynomialNF::from_expr(&e).unwrap();
    // division by a constant does not reduce; terms are listed in monomial
    // order, the constant first
    assert_eq!(
        p.to_expr(),
        Expr::Div(
            Box::new(Expr::Add(
                Box::new(Expr::integer(4)),
                Box::new(Expr::Mul(Box::new(Expr::integer(2)), Box::new(Expr::Var(x)))),
            )),
            Box::new(Expr::integer(2)),
        )
    );
    // adding zero runs the reduction: 2 + x over 1
    let q = p.add(&PolynomialNF::zero());
    assert_eq!(
        q.to_expr(),
        Expr::Add(Box::new(Expr::integer(2)), Box::new(Expr::Var(x)))
    );
}

#[test]
fn constant_value_and_power() {
    let three = PolynomialNF::constant(Rational::from_integer(3));
    assert!(three.is_constant());
    assert_eq!(three.constant_value(), Some(Rational::from_integer(3)));
    let nine = three.pow(2);
    assert_eq!(nine.constant_value(), Some(Rational::from_integer(9)));
    let one = three.pow(0);
    assert_eq!(one.constant_value(), Some(Rational::from_integer(1)));
    assert_eq!(PolynomialNF::zero().constant_value(), Some(Rational::from_integer(0)));
    let mut symbols = SymbolTable::new();
    let x = symbols.intern("x");
    assert!(!PolynomialNF::var(x).is_constant());
    assert_eq!(PolynomialNF::var(x).constant_value(), None);
}

#[test]
fn negation_and_equals() {
    let mut symbols = SymbolTable::new();
    let x = symbols.intern("x");
    let p = PolynomialNF::var(x);
    let n = p.neg();
    assert!(!p.equals(&n));
    assert!(p.equals(&n.neg()));
    assert_eq!(n.to_expr(), Expr::Neg(Box::new(Expr::Var(x))));
}

#[test]
fn monomial_product_merges_and_drops_zero_exponents() {
    let mut symbols = SymbolTable::new();
    let x = symbols.intern("x");
    let y = symbols.intern("y");
    let z = symbols.intern("z");
    // (x² · z) · (y · z³) = x² · y · z⁴
    let a = Monomial { powers: vec![(x, 2), (z, 1)] };
    let b = Monomial { powers: vec![(y, 1), (z, 3)] };
    assert_eq!(a.mul(&b).powers, vec![(x, 2), (y, 1), (z, 4)]);
    assert_eq!(a.mul(&b).degree(), 7);
    // A zero exponent does not survive a product.
    let with_zero = Monomial { powers: vec![(x, 0)] };
    assert_eq!(with_zero.mul(&Monomial::var(y)).powers, vec![(y, 1)]);
    assert!(Monomial::var_pow(x, 0).is_constant());
    // Exponents that leave u32 give no product.
    let big = Monomial::var_pow(x, u32::MAX);
    assert!(big.checked_mul(&Monomial::var(x)).is_none());
}
