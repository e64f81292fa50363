use mm_rules::expr::{Expr, SymbolTable};
use mm_rules::inequality_chain::{prove_inequality_by_chaining, InequalityChain, InequalityFact};

#[test]
fn test_simple_transitivity() {
    let mut symbols = SymbolTable::new();
    let a = symbols.intern("a");
    let b = symbols.intern("b");
    let c = symbols.intern("c");

    let mut chain = InequalityChain::new();
    chain.add_gt(Expr::Var(a), Expr::Var(b)); // a > b
    chain.add_gt(Expr::Var(b), Expr::Var(c)); // b > c

    // a > c follows
    let goal = InequalityFact::gt(Expr::Var(a), Expr::Var(c));
    assert!(chain.prove(&goal).is_some());
}

#[test]
fn test_mixed_strictness() {
    let mut symbols = SymbolTable::new();
    let a = symbols.intern("a");
    let b = symbols.intern("b");
    let c = symbols.intern("c");

    let mut chain = InequalityChain::new();
    chain.add_gt(Expr::Var(a), Expr::Var(b)); // a > b
    chain.add_gte(Expr::Var(b), Expr::Var(c)); // b ≥ c

    // a > c (strict because a > b is strict)
    let goal = InequalityFact::gt(Expr::Var(a), Expr::Var(c));
    assert!(chain.prove(&goal).is_some());

    // a ≥ c as well
    let goal_weak = InequalityFact::gte(Expr::Var(a), Expr::Var(c));
    assert!(chain.prove(&goal_weak).is_some());
}

#[test]
fn test_from_hypotheses() {
    let mut symbols = SymbolTable::new();
    let x = symbols.intern("x");
    let y = symbols.intern("y");
    let z = symbols.intern("z");

    let hypotheses = vec![
        Expr::Gt(Box::new(Expr::Var(x)), Box::new(Expr::Var(y))),
        Expr::Gt(Box::new(Expr::Var(y)), Box::new(Expr::Var(z))),
    ];

    let goal = Expr::Gt(Box::new(Expr::Var(x)), Box::new(Expr::Var(z)));

    assert!(prove_inequality_by_chaining(&hypotheses, &goal));
}

#[test]
fn weak_facts_do_not_give_strict_goal() {
    let mut symbols = SymbolTable::new();
    let a = symbols.intern("a");
    let b = symbols.intern("b");
    let c = symbols.intern("c");
    let mut chain = InequalityChain::new();
    chain.add_gte(Expr::Var(a), Expr::Var(b));
    chain.add_gte(Expr::Var(b), Expr::Var(c));
    assert!(chain.prove(&InequalityFact::gt(Expr::Var(a), Expr::Var(c))).is_none());
    assert_eq!(chain.prove(&InequalityFact::gte(Expr::Var(a), Expr::Var(c))), Some(vec![0, 1]));
}

#[test]
fn three_step_chain_and_index_order() {
    let mut symbols = SymbolTable::new();
    let a = symbols.intern("a");
    let b = symbols.intern("b");
    let c = symbols.intern("c");
    let d = symbols.intern("d");
    let mut chain = InequalityChain::new();
    chain.add_gt(Expr::Var(c), Expr::Var(d)); // 0
    chain.add_gt(Expr::Var(a), Expr::Var(b)); // 1
    chain.add_gt(Expr::Var(b), Expr::Var(c)); // 2
    let goal = InequalityFact::gt(Expr::Var(a), Expr::Var(d));
    assert_eq!(chain.prove(&goal), Some(vec![1, 2, 0]));
    // a single fact is preferred
    let single = InequalityFact::gte(Expr::Var(b), Expr::Var(c));
    assert_eq!(chain.prove(&single), Some(vec![2]));
}

#[test]
fn lt_and_lte_hypotheses_are_flipped() {
    let mut symbols = SymbolTable::new();
    let x = symbols.intern("x");
    let y = symbols.intern("y");
    let z = symbols.intern("z");
    // y < x and z ≤ y, as one conjunction
    let hyp = Expr::And(
        Box::new(Expr::Lt(Box::new(Expr::Var(y)), Box::new(Expr::Var(x)))),
        Box::new(Expr::Lte(Box::new(Expr::Var(z)), Box::new(Expr::Var(y)))),
    );
    let goal = Expr::Lt(Box::new(Expr::Var(z)), Box::new(Expr::Var(x)));
    assert!(prove_inequality_by_chaining(&[hyp], &goal));
    let not_ineq = Expr::Var(x);
    assert!(!prove_inequality_by_chaining(&[], &not_ineq));
}

#[test]
fn algebraic_middle_terms_match() {
    let mut symbols = SymbolTable::new();
    let x = symbols.intern("x");
    let y = symbols.intern("y");
    // x > 2·y and y + y ≥ 0 chain through 2y = y + y
    let f1 = InequalityFact::gt(
        Expr::Var(x),
        Expr::Mul(Box::new(Expr::integer(2)), Box::new(Expr::Var(y))),
    );
    let f2 = InequalityFact::gte(
        Expr::Add(Box::new(Expr::Var(y)), Box::new(Expr::Var(y))),
        Expr::integer(0),
    );
    let c = f1.chain(&f2).unwrap();
    assert!(c.is_strict);
    assert_eq!(c.lhs, Expr::Var(x));
    assert_eq!(c.rhs, Expr::integer(0));
    assert!(f2.chain(&f1).is_none());
}
