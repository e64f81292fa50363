use mm_rules::case_analysis::{suggest_case_splits, CaseAnalysis};
use mm_rules::expr::{Expr, SymbolTable};

#[test]
fn test_sign_split() {
    let mut symbols = SymbolTable::new();
    let x = symbols.intern("x");

    // Goal: x² ≥ 0
    let goal = Expr::Gte(
        Box::new(Expr::Pow(Box::new(Expr::Var(x)), Box::new(Expr::integer(2)))),
        Box::new(Expr::integer(0)),
    );

    let analysis = CaseAnalysis::new(goal).split_by_sign(x);

    assert_eq!(analysis.cases.len(), 3);
    assert!(analysis.is_exhaustive);
    assert!(!analysis.all_proven());

    assert!(analysis.cases[0].name.contains("positive"));
    assert!(analysis.cases[1].name.contains("zero"));
    assert!(analysis.cases[2].name.contains("negative"));
}

#[test]
fn test_parity_split() {
    let mut symbols = SymbolTable::new();
    let n = symbols.intern("n");

    // Goal: n(n+1) is even
    let goal = Expr::Equation {
        lhs: Box::new(Expr::Mod(
            Box::new(Expr::Mul(
                Box::new(Expr::Var(n)),
                Box::new(Expr::Add(Box::new(Expr::Var(n)), Box::new(Expr::integer(1)))),
            )),
            Box::new(Expr::integer(2)),
        )),
        rhs: Box::new(Expr::integer(0)),
    };

    let analysis = CaseAnalysis::new(goal).split_by_parity(n, &mut symbols);

    assert_eq!(analysis.cases.len(), 2);
    assert!(analysis.is_exhaustive);
    assert!(analysis.cases[0].name.contains("even"));
    assert!(analysis.cases[1].name.contains("odd"));
}

#[test]
fn test_prove_cases() {
    let mut symbols = SymbolTable::new();
    let x = symbols.intern("x");

    let goal = Expr::Gte(
        Box::new(Expr::Pow(Box::new(Expr::Var(x)), Box::new(Expr::integer(2)))),
        Box::new(Expr::integer(0)),
    );

    let mut analysis = CaseAnalysis::new(goal).split_by_sign(x);

    assert!(!analysis.is_complete());

    analysis.prove_case(0, "Positive squared is positive".to_string());
    analysis.prove_case(1, "0² = 0 ≥ 0".to_string());
    analysis.prove_case(2, "Negative squared is positive".to_string());

    assert!(analysis.is_complete());
    assert!(analysis.justification().is_some());
}

#[test]
fn test_suggest_splits() {
    let mut symbols = SymbolTable::new();
    let x = symbols.intern("x");
    let y = symbols.intern("y");

    let goal = Expr::Gte(
        Box::new(Expr::Add(
            Box::new(Expr::Pow(Box::new(Expr::Var(x)), Box::new(Expr::integer(2)))),
            Box::new(Expr::Pow(Box::new(Expr::Var(y)), Box::new(Expr::integer(2)))),
        )),
        Box::new(Expr::integer(0)),
    );

    let suggestions = suggest_case_splits(&goal);

    // At least sign and parity for each variable
    assert!(suggestions.len() >= 4);
}

#[test]
fn proving_out_of_range_case_is_refused() {
    let mut symbols = SymbolTable::new();
    let x = symbols.intern("x");
    let goal = Expr::Gte(Box::new(Expr::Var(x)), Box::new(Expr::integer(0)));
    let mut analysis = CaseAnalysis::new(goal).split_by_sign(x);
    assert!(!analysis.prove_case(3, "no such case".to_string()));
    assert_eq!(analysis.unproven_cases().len(), 3);
}
