use mm_rules::expr::{Expr, SymbolTable};
use mm_rules::induction::{InductionProof, InductionType};

#[test]
fn test_simple_induction_setup() {
    let mut symbols = SymbolTable::new();
    let n = symbols.intern("n");

    // Goal: ∀n. n ≥ 0
    let goal = Expr::ForAll {
        var: n,
        domain: None,
        body: Box::new(Expr::Gte(Box::new(Expr::Var(n)), Box::new(Expr::integer(0)))),
    };

    let proof = InductionProof::from_forall(&goal, &mut symbols);
    assert!(proof.is_some());

    let proof = proof.unwrap();

    // The base case is P(0)
    let base = proof.base_case();
    match base {
        Expr::Gte(lhs, rhs) => {
            assert_eq!(*lhs, Expr::integer(0));
            assert_eq!(*rhs, Expr::integer(0));
        }
        _ => panic!("Expected Gte"),
    }
}

#[test]
fn test_inductive_step() {
    let mut symbols = SymbolTable::new();
    let n = symbols.intern("n");

    let goal = Expr::ForAll {
        var: n,
        domain: None,
        body: Box::new(Expr::Gte(
            Box::new(Expr::Pow(Box::new(Expr::Var(n)), Box::new(Expr::integer(2)))),
            Box::new(Expr::integer(0)),
        )),
    };

    let proof = InductionProof::from_forall(&goal, &mut symbols).unwrap();

    // Inductive hypothesis P(k)
    let hyp = proof.inductive_hypothesis().unwrap();
    match hyp {
        Expr::Gte(lhs, _) => match lhs.as_ref() {
            Expr::Pow(base, _) => {
                assert!(matches!(base.as_ref(), Expr::Var(_)));
            }
            _ => panic!("Expected Pow"),
        },
        _ => panic!("Expected Gte"),
    }

    // Step goal P(k+1)
    let step = proof.inductive_step_goal().unwrap();
    match step {
        Expr::Gte(lhs, _) => match lhs.as_ref() {
            Expr::Pow(base, _) => {
                assert!(matches!(base.as_ref(), Expr::Add(_, _)));
            }
            _ => panic!("Expected Pow"),
        },
        _ => panic!("Expected Gte"),
    }
}

#[test]
fn test_complete_induction() {
    let mut symbols = SymbolTable::new();
    let n = symbols.intern("n");

    let goal = Expr::ForAll {
        var: n,
        domain: None,
        body: Box::new(Expr::Gte(Box::new(Expr::Var(n)), Box::new(Expr::integer(0)))),
    };

    let mut proof = InductionProof::from_forall(&goal, &mut symbols).unwrap();

    assert!(!proof.is_complete());

    proof.prove_base("0 ≥ 0 is trivially true".to_string());
    assert!(!proof.is_complete());

    proof.prove_step("If k ≥ 0, then k+1 ≥ 1 > 0".to_string());
    assert!(proof.is_complete());

    let justification = proof.justification();
    assert!(justification.is_some());
    assert!(justification.unwrap().contains("mathematical induction"));
}

#[test]
fn test_induction_from_one() {
    let mut symbols = SymbolTable::new();
    let n = symbols.intern("n");

    let property = Expr::Gte(Box::new(Expr::Var(n)), Box::new(Expr::integer(1)));

    let proof = InductionProof::new(property, n, InductionType::FromOne, &mut symbols);

    // The base case is P(1)
    let base = proof.base_case();
    match base {
        Expr::Gte(lhs, rhs) => {
            assert_eq!(*lhs, Expr::integer(1));
            assert_eq!(*rhs, Expr::integer(1));
        }
        _ => panic!("Expected Gte"),
    }
}

#[test]
fn step_goal_substitutes_successor_of_fresh_variable() {
    let mut symbols = SymbolTable::new();
    let n = symbols.intern("n");
    let property = Expr::Gte(Box::new(Expr::Var(n)), Box::new(Expr::integer(0)));
    let proof = InductionProof::new(property, n, InductionType::Simple, &mut symbols);
    let k = proof.k_var.unwrap();
    assert_ne!(k, n);
    let step = proof.inductive_step_goal().unwrap();
    assert_eq!(
        step,
        Expr::Gte(
            Box::new(Expr::Add(Box::new(Expr::Var(k)), Box::new(Expr::integer(1)))),
            Box::new(Expr::integer(0)),
        )
    );
}

#[test]
fn justification_absent_until_both_parts_proven() {
    let mut symbols = SymbolTable::new();
    let n = symbols.intern("n");
    let property = Expr::Gte(Box::new(Expr::Var(n)), Box::new(Expr::integer(0)));
    let mut proof = InductionProof::new(property, n, InductionType::Simple, &mut symbols);
    assert!(proof.justification().is_none());
    proof.prove_step("step".to_string());
    assert!(proof.justification().is_none());
    proof.prove_base("base".to_string());
    assert!(proof.justification().is_some());
}
