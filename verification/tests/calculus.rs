use mm_rules::calculus::{
    checked_simplify, differentiate, evaluate_at, find_max_on_interval, find_min_on_interval, simplify,
};
use mm_rules::expr::{Expr, SymbolTable};
use mm_rules::rational::Rational;

fn r(n: i64) -> Rational {
    Rational::from_integer(n)
}

#[test]
fn test_differentiate_polynomial() {
    let mut symbols = SymbolTable::new();
    let x = symbols.intern("x");

    // d/dx(x^3) = 3x^2
    let expr = Expr::Pow(Box::new(Expr::Var(x)), Box::new(Expr::integer(3)));
    let deriv = differentiate(&expr, x);
    let deriv = simplify(&deriv);

    // at x = 2: 3·4 = 12
    let val = evaluate_at(&deriv, x, r(2));
    assert_eq!(val, Some(r(12)));
}

fn cubic(x: mm_rules::expr::Symbol) -> Expr {
    // f(x) = x³ - 3x + 2
    Expr::Add(
        Box::new(Expr::Sub(
            Box::new(Expr::Pow(Box::new(Expr::Var(x)), Box::new(Expr::integer(3)))),
            Box::new(Expr::Mul(Box::new(Expr::integer(3)), Box::new(Expr::Var(x)))),
        )),
        Box::new(Expr::integer(2)),
    )
}

#[test]
fn test_cbse_q8_max_value() {
    // max of x³ - 3x + 2 on [0, 2] is 4 at x = 2
    let mut symbols = SymbolTable::new();
    let x = symbols.intern("x");
    let f = cubic(x);
    let result = find_max_on_interval(&f, x, r(0), r(2));
    assert!(result.is_some());
    let (x_max, max_val) = result.unwrap();
    assert_eq!(x_max, r(2));
    assert_eq!(max_val, r(4));
}

#[test]
fn test_cbse_q8_min_value() {
    // min is 0 at x = 1
    let mut symbols = SymbolTable::new();
    let x = symbols.intern("x");
    let f = cubic(x);
    let result = find_min_on_interval(&f, x, r(0), r(2));
    assert!(result.is_some());
    let (x_min, min_val) = result.unwrap();
    assert_eq!(x_min, r(1));
    assert_eq!(min_val, r(0));
}

#[test]
fn derivative_rules() {
    let mut symbols = SymbolTable::new();
    let x = symbols.intern("x");
    let y = symbols.intern("y");
    assert_eq!(differentiate(&Expr::integer(5), x), Expr::integer(0));
    assert_eq!(differentiate(&Expr::Var(x), x), Expr::integer(1));
    assert_eq!(differentiate(&Expr::Var(y), x), Expr::integer(0));
    // d/dx(sin x) stays unevaluated
    let s = Expr::Sin(Box::new(Expr::Var(x)));
    assert_eq!(
        differentiate(&s, x),
        Expr::Derivative { expr: Box::new(s.clone()), var: x }
    );
    // product rule on x·x, simplified: 1·x + x·1 → x + x
    let xx = Expr::Mul(Box::new(Expr::Var(x)), Box::new(Expr::Var(x)));
    let d = simplify(&differentiate(&xx, x));
    assert_eq!(d, Expr::Add(Box::new(Expr::Var(x)), Box::new(Expr::Var(x))));
}

#[test]
fn simplification_rules() {
    let mut symbols = SymbolTable::new();
    let x = symbols.intern("x");
    let e = Expr::Add(
        Box::new(Expr::integer(0)),
        Box::new(Expr::Mul(Box::new(Expr::integer(1)), Box::new(Expr::Var(x)))),
    );
    assert_eq!(simplify(&e), Expr::Var(x));
    let folded = Expr::Sub(Box::new(Expr::integer(7)), Box::new(Expr::integer(2)));
    assert_eq!(simplify(&folded), Expr::integer(5));
    let pow0 = Expr::Pow(Box::new(Expr::Var(x)), Box::new(Expr::integer(0)));
    assert_eq!(simplify(&pow0), Expr::integer(1));
    let negneg = Expr::Neg(Box::new(Expr::Neg(Box::new(Expr::Var(x)))));
    assert_eq!(simplify(&negneg), Expr::Var(x));
    let big = Expr::Mul(Box::new(Expr::integer(i64::MAX)), Box::new(Expr::integer(2)));
    assert_eq!(checked_simplify(&big), None);
}

#[test]
fn evaluation_edge_cases() {
    let mut symbols = SymbolTable::new();
    let x = symbols.intern("x");
    let y = symbols.intern("y");
    assert_eq!(evaluate_at(&Expr::Var(y), x, r(1)), None);
    let div0 = Expr::Div(Box::new(Expr::Var(x)), Box::new(Expr::integer(0)));
    assert_eq!(evaluate_at(&div0, x, r(3)), None);
    let half = Expr::Div(Box::new(Expr::Var(x)), Box::new(Expr::integer(2)));
    assert_eq!(evaluate_at(&half, x, r(3)), Some(Rational::new(3, 2)));
    let neg_exp = Expr::Pow(Box::new(Expr::Var(x)), Box::new(Expr::integer(-1)));
    assert_eq!(evaluate_at(&neg_exp, x, r(3)), None);
}

#[test]
fn extremes_bound_every_examined_point() {
    // f(x) = x² on [-2, 1]: examined points -2, 1 and the critical point 0.
    let mut symbols = SymbolTable::new();
    let x = symbols.intern("x");
    let f = Expr::Pow(Box::new(Expr::Var(x)), Box::new(Expr::integer(2)));
    let (x_max, max_val) = find_max_on_interval(&f, x, r(-2), r(1)).unwrap();
    let (x_min, min_val) = find_min_on_interval(&f, x, r(-2), r(1)).unwrap();
    assert_eq!((x_max, max_val), (r(-2), r(4)));
    assert_eq!((x_min, min_val), (r(0), r(0)));
    for p in [r(-2), r(0), r(1)] {
        let v = evaluate_at(&f, x, p).unwrap();
        assert!(!max_val.sub(&v).is_negative());
        assert!(!v.sub(&min_val).is_negative());
    }
}

#[test]
fn simplification_keeps_the_value() {
    // (0 + x·1)·(x + 2·3) at x = 5 is 55 before and after simplification.
    let mut symbols = SymbolTable::new();
    let x = symbols.intern("x");
    let e = Expr::Mul(
        Box::new(Expr::Add(
            Box::new(Expr::integer(0)),
            Box::new(Expr::Mul(Box::new(Expr::Var(x)), Box::new(Expr::integer(1)))),
        )),
        Box::new(Expr::Add(
            Box::new(Expr::Var(x)),
            Box::new(Expr::Mul(Box::new(Expr::integer(2)), Box::new(Expr::integer(3)))),
        )),
    );
    let s = simplify(&e);
    assert_eq!(evaluate_at(&e, x, r(5)), Some(r(55)));
    assert_eq!(evaluate_at(&s, x, r(5)), Some(r(55)));
    assert_eq!(evaluate_at(&s, x, Rational::new(1, 2)), evaluate_at(&e, x, Rational::new(1, 2)));
}
