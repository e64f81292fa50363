use mm_rules::board_exam::{
    ap_common_difference, ap_nth_term, ap_sum, ap_sum_with_last, definite_integral, discriminant,
    gp_common_ratio, gp_nth_term, gp_sum, gp_sum_infinite, int_sqrt, integrate, product_of_roots,
    solve_quadratic, sum_of_roots, QuadraticRoots,
};
use mm_rules::expr::{Expr, SymbolTable};
use mm_rules::rational::Rational;

fn r(n: i64) -> Rational {
    Rational::from_integer(n)
}

#[test]
fn test_quadratic_two_roots() {
    // x² - 5x + 6 = 0 → x = 2, 3
    let roots = solve_quadratic(r(1), r(-5), r(6));
    match roots {
        QuadraticRoots::TwoReal(r1, r2) => {
            assert!((r1 == r(3) && r2 == r(2)) || (r1 == r(2) && r2 == r(3)));
        }
        _ => panic!("Expected two real roots"),
    }
}

#[test]
fn test_quadratic_one_root() {
    // x² - 4x + 4 = 0 → x = 2
    let roots = solve_quadratic(r(1), r(-4), r(4));
    assert_eq!(roots, QuadraticRoots::OneReal(r(2)));
}

#[test]
fn test_quadratic_complex() {
    // x² + 1 = 0 → x = ±i
    let roots = solve_quadratic(r(1), r(0), r(1));
    match roots {
        QuadraticRoots::Complex { real, .. } => {
            assert!(real.is_zero());
        }
        _ => panic!("Expected complex roots"),
    }
}

#[test]
fn test_sum_product_of_roots() {
    let a = r(1);
    let b = r(-5);
    let c = r(6);
    assert_eq!(sum_of_roots(a, b, c), r(5));
    assert_eq!(product_of_roots(a, b, c), r(6));
}

#[test]
fn test_ap_nth_term() {
    // 2, 5, 8, 11, ...
    let a = r(2);
    let d = r(3);
    assert_eq!(ap_nth_term(a, d, 1), r(2));
    assert_eq!(ap_nth_term(a, d, 2), r(5));
    assert_eq!(ap_nth_term(a, d, 4), r(11));
    assert_eq!(ap_nth_term(a, d, 10), r(29));
}

#[test]
fn test_ap_sum() {
    assert_eq!(ap_sum(r(1), r(1), 10), r(55));
}

#[test]
fn test_gp_nth_term() {
    // 2, 6, 18, 54, ...
    let a = r(2);
    let q = r(3);
    assert_eq!(gp_nth_term(a, q, 1), r(2));
    assert_eq!(gp_nth_term(a, q, 2), r(6));
    assert_eq!(gp_nth_term(a, q, 4), r(54));
}

#[test]
fn test_gp_sum() {
    assert_eq!(gp_sum(r(1), r(2), 4), Some(r(15)));
}

#[test]
fn test_gp_infinite_sum() {
    assert_eq!(gp_sum_infinite(r(1), Rational::new(1, 2)), Some(r(2)));
}

#[test]
fn test_integrate_polynomial() {
    let mut symbols = SymbolTable::new();
    let x = symbols.intern("x");
    // ∫x² dx = x³/3
    let expr = Expr::Pow(Box::new(Expr::Var(x)), Box::new(Expr::integer(2)));
    let result = integrate(&expr, x);
    assert!(result.is_some());
}

#[test]
fn test_definite_integral() {
    let mut symbols = SymbolTable::new();
    let x = symbols.intern("x");
    // ∫[0,2] x dx = 2
    let expr = Expr::Var(x);
    let result = definite_integral(&expr, x, r(0), r(2));
    assert_eq!(result, Some(r(2)));
}

#[test]
fn test_area_under_parabola() {
    let mut symbols = SymbolTable::new();
    let x = symbols.intern("x");
    // ∫[0,3] x² dx = 9
    let expr = Expr::Pow(Box::new(Expr::Var(x)), Box::new(Expr::integer(2)));
    let result = definite_integral(&expr, x, r(0), r(3));
    assert_eq!(result, Some(r(9)));
}

#[test]
fn discriminant_and_int_sqrt_examples() {
    assert_eq!(discriminant(r(1), r(-5), r(6)), r(1));
    assert_eq!(int_sqrt(16), Some(4));
    assert_eq!(int_sqrt(15), None);
    assert_eq!(int_sqrt(0), Some(0));
    assert_eq!(int_sqrt(-1), None);
    assert_eq!(int_sqrt(i64::MAX), None);
    assert_eq!(int_sqrt(3037000499 * 3037000499), Some(3037000499));
}

#[test]
fn not_quadratic_and_vieta_with_zero_leading_coefficient() {
    assert_eq!(solve_quadratic(r(0), r(2), r(1)), QuadraticRoots::NotQuadratic);
    assert_eq!(sum_of_roots(r(0), r(2), r(1)), r(0));
    assert_eq!(product_of_roots(r(0), r(2), r(1)), r(0));
}

#[test]
fn irrational_roots_are_truncated_to_thousandths() {
    // x² - 2 = 0: D = 8, √8 ≈ 2.828 → roots ±1.414
    let roots = solve_quadratic(r(1), r(0), r(-2));
    assert_eq!(
        roots,
        QuadraticRoots::TwoReal(Rational::new(2828, 2000), Rational::new(-2828, 2000))
    );
}

#[test]
fn complex_roots_imaginary_part_squared() {
    // x² + 2x + 5 = 0: roots -1 ± 2i
    let roots = solve_quadratic(r(1), r(2), r(5));
    assert_eq!(
        roots,
        QuadraticRoots::Complex { real: r(-1), imaginary_squared: r(4) }
    );
}

#[test]
fn ap_helpers() {
    assert_eq!(ap_sum_with_last(r(1), r(10), 10), r(55));
    assert_eq!(ap_common_difference(r(2), r(8), 1, 3), r(3));
    assert_eq!(ap_common_difference(r(2), r(8), 3, 3), r(0));
}

#[test]
fn gp_helpers() {
    assert_eq!(gp_sum(r(3), r(1), 5), Some(r(15)));
    assert_eq!(gp_sum_infinite(r(1), r(2)), None);
    assert_eq!(gp_sum_infinite(r(1), r(-1)), None);
    assert_eq!(gp_common_ratio(r(2), r(18), 1, 3), Some(r(3)));
    assert_eq!(gp_common_ratio(r(5), r(15), 1, 2), Some(r(3)));
    assert_eq!(gp_common_ratio(r(1), r(8), 1, 4), None);
    assert_eq!(gp_common_ratio(r(1), r(-4), 1, 3), None);
    assert_eq!(gp_common_ratio(r(0), r(4), 1, 3), None);
    assert_eq!(gp_common_ratio(r(4), r(1), 1, 3), Some(Rational::new(1, 2)));
}

#[test]
fn integrate_rules() {
    let mut symbols = SymbolTable::new();
    let x = symbols.intern("x");
    let y = symbols.intern("y");
    // ∫x² dx = x³/3
    let sq = Expr::Pow(Box::new(Expr::Var(x)), Box::new(Expr::integer(2)));
    assert_eq!(
        integrate(&sq, x),
        Some(Expr::Div(
            Box::new(Expr::Pow(Box::new(Expr::Var(x)), Box::new(Expr::integer(3)))),
            Box::new(Expr::integer(3)),
        ))
    );
    // ∫y dx = y·x
    assert_eq!(
        integrate(&Expr::Var(y), x),
        Some(Expr::Mul(Box::new(Expr::Var(y)), Box::new(Expr::Var(x))))
    );
    // ∫x⁻¹ dx has no rational antiderivative
    let inv = Expr::Pow(Box::new(Expr::Var(x)), Box::new(Expr::integer(-1)));
    assert_eq!(integrate(&inv, x), None);
    // ∫x·x dx: both factors contain x
    let xx = Expr::Mul(Box::new(Expr::Var(x)), Box::new(Expr::Var(x)));
    assert_eq!(integrate(&xx, x), None);
    // ∫3x dx = 3·(x²/2)
    let three_x = Expr::Mul(Box::new(Expr::integer(3)), Box::new(Expr::Var(x)));
    assert_eq!(
        integrate(&three_x, x),
        Some(Expr::Mul(
            Box::new(Expr::integer(3)),
            Box::new(Expr::Div(
                Box::new(Expr::Pow(Box::new(Expr::Var(x)), Box::new(Expr::integer(2)))),
                Box::new(Expr::integer(2)),
            )),
        ))
    );
}

#[test]
fn roots_satisfy_vieta_relations() {
    // 2x² - 7x + 3 = 0 → x = 3, 1/2
    let (a, b, c) = (r(2), r(-7), r(3));
    match solve_quadratic(a, b, c) {
        QuadraticRoots::TwoReal(x, y) => {
            assert_eq!(x.add(&y), sum_of_roots(a, b, c));
            assert_eq!(x.mul(&y), product_of_roots(a, b, c));
            assert_eq!(x.add(&y), Rational::new(7, 2));
            assert_eq!(x.mul(&y), Rational::new(3, 2));
        }
        other => panic!("expected two real roots, got {:?}", other),
    }
}
