//! Equation-solving rules.
//!
//! Each group function returns the metadata of its rules in registration
//! order; its contract fixes every field of every rule.

use vstd::prelude::*;
use crate::rewrite::Rewrite;
use crate::rule::{ids_of, names_of, rule_view, rules_view, RuleMeta, Domain, Feature, Rule, RuleCategory, RuleId};

verus! {
/// Identifiers of the rules of [`equation_rules`], in order.
pub open spec fn equation_rules_ids() -> Seq<u32> {
    seq![21u32, 22u32, 23u32, 24u32, 25u32, 26u32, 27u32]
}

/// Names of the rules of [`equation_rules`], in order.
pub open spec fn equation_rules_names() -> Seq<Seq<char>> {
    seq!["isolate_variable"@, "cancel_addition"@, "cancel_subtraction"@, "cancel_multiplication"@, "cancel_division"@, "linear_solve"@, "quadratic_formula"@]
}

/// Metadata of the rules of [`equation_rules`], in order.
pub open spec fn equation_rules_meta() -> Seq<RuleMeta> {
    seq![
        (21u32, "isolate_variable"@, RuleCategory::EquationSolving, "Move terms to isolate variable: ax + b = c → ax = c - b"@, seq![Domain::Equations], Seq::<Feature>::empty(), true, 2u32, Rewrite::IsolateVariable),
        (22u32, "cancel_addition"@, RuleCategory::EquationSolving, "Cancel addition: x + a = b → x = b - a"@, seq![Domain::Equations], Seq::<Feature>::empty(), false, 1u32, Rewrite::CancelAddition),
        (23u32, "cancel_subtraction"@, RuleCategory::EquationSolving, "Cancel subtraction: x - a = b → x = b + a"@, seq![Domain::Equations], Seq::<Feature>::empty(), false, 1u32, Rewrite::CancelSubtraction),
        (24u32, "cancel_multiplication"@, RuleCategory::EquationSolving, "Cancel multiplication: ax = b -> x = b/a (or xa = b -> x = b/a)"@, seq![Domain::Equations], Seq::<Feature>::empty(), false, 1u32, Rewrite::CancelMultiplication),
        (25u32, "cancel_division"@, RuleCategory::EquationSolving, "Cancel division: x/a = b → x = ab"@, seq![Domain::Equations], Seq::<Feature>::empty(), false, 1u32, Rewrite::CancelDivision),
        (26u32, "linear_solve"@, RuleCategory::EquationSolving, "Solve linear equation: ax + b = c → x = (c-b)/a"@, seq![Domain::Equations], Seq::<Feature>::empty(), false, 1u32, Rewrite::LinearSolve),
        (27u32, "quadratic_formula"@, RuleCategory::EquationSolving, "Quadratic formula: ax² + bx + c = 0 → x = (-b ± √(b²-4ac))/(2a)"@, seq![Domain::Equations], Seq::<Feature>::empty(), false, 5u32, Rewrite::QuadraticFormula),
    ]
}

/// The rules of this group, in registration order.
pub fn equation_rules() -> (rules: Vec<Rule>)
    ensures
        ids_of(rules@) == equation_rules_ids(),
        names_of(rules@) == equation_rules_names(),
        rules_view(rules@) == equation_rules_meta(),
{
    let mut rules: Vec<Rule> = Vec::new();
    let mut part: Vec<Rule> = vec![
        isolate_variable(),
        cancel_addition(),
        cancel_subtraction(),
        cancel_multiplication(),
        cancel_division(),
        linear_solve(),
        quadratic_formula(),
    ];
    assert(ids_of(part@) =~= seq![21u32, 22u32, 23u32, 24u32, 25u32, 26u32, 27u32]);
    assert(names_of(part@) =~= seq!["isolate_variable"@, "cancel_addition"@, "cancel_subtraction"@, "cancel_multiplication"@, "cancel_division"@, "linear_solve"@, "quadratic_formula"@]);
    assert(rules_view(part@) =~~= equation_rules_meta());
    let ghost before = rules@;
    rules.append(&mut part);
    proof {
        crate::rule::lemma_ids_names_append(before, part@);
    }
    assert(ids_of(rules@) =~= equation_rules_ids());
    assert(names_of(rules@) =~= equation_rules_names());
    assert(rules_view(rules@) =~= equation_rules_meta());
    rules
}

/// The rule `isolate_variable`: Move terms to isolate variable: ax + b = c → ax = c - b.
pub fn isolate_variable() -> (r: Rule)
    ensures
        rule_view(r) == (21u32, "isolate_variable"@, RuleCategory::EquationSolving, "Move terms to isolate variable: ax + b = c → ax = c - b"@, seq![Domain::Equations], Seq::<Feature>::empty(), true, 2u32, Rewrite::IsolateVariable),
{
    Rule {
        id: RuleId(21),
        name: "isolate_variable",
        category: RuleCategory::EquationSolving,
        description: "Move terms to isolate variable: ax + b = c → ax = c - b",
        domains: vec![Domain::Equations],
        requires: Vec::new(),
        reversible: true,
        cost: 2,
        rewrite: Rewrite::IsolateVariable,
    }
}

/// The rule `cancel_addition`: Cancel addition: x + a = b → x = b - a.
pub fn cancel_addition() -> (r: Rule)
    ensures
        rule_view(r) == (22u32, "cancel_addition"@, RuleCategory::EquationSolving, "Cancel addition: x + a = b → x = b - a"@, seq![Domain::Equations], Seq::<Feature>::empty(), false, 1u32, Rewrite::CancelAddition),
{
    Rule {
        id: RuleId(22),
        name: "cancel_addition",
        category: RuleCategory::EquationSolving,
        description: "Cancel addition: x + a = b → x = b - a",
        domains: vec![Domain::Equations],
        requires: Vec::new(),
        reversible: false,
        cost: 1,
        rewrite: Rewrite::CancelAddition,
    }
}

/// The rule `cancel_subtraction`: Cancel subtraction: x - a = b → x = b + a.
pub fn cancel_subtraction() -> (r: Rule)
    ensures
        rule_view(r) == (23u32, "cancel_subtraction"@, RuleCategory::EquationSolving, "Cancel subtraction: x - a = b → x = b + a"@, seq![Domain::Equations], Seq::<Feature>::empty(), false, 1u32, Rewrite::CancelSubtraction),
{
    Rule {
        id: RuleId(23),
        name: "cancel_subtraction",
        category: RuleCategory::EquationSolving,
        description: "Cancel subtraction: x - a = b → x = b + a",
        domains: vec![Domain::Equations],
        requires: Vec::new(),
        reversible: false,
        cost: 1,
        rewrite: Rewrite::CancelSubtraction,
    }
}

/// The rule `cancel_multiplication`: Cancel multiplication: ax = b -> x = b/a (or xa = b -> x = b/a).
pub fn cancel_multiplication() -> (r: Rule)
    ensures
        rule_view(r) == (24u32, "cancel_multiplication"@, RuleCategory::EquationSolving, "Cancel multiplication: ax = b -> x = b/a (or xa = b -> x = b/a)"@, seq![Domain::Equations], Seq::<Feature>::empty(), false, 1u32, Rewrite::CancelMultiplication),
{
    Rule {
        id: RuleId(24),
        name: "cancel_multiplication",
        category: RuleCategory::EquationSolving,
        description: "Cancel multiplication: ax = b -> x = b/a (or xa = b -> x = b/a)",
        domains: vec![Domain::Equations],
        requires: Vec::new(),
        reversible: false,
        cost: 1,
        rewrite: Rewrite::CancelMultiplication,
    }
}

/// The rule `cancel_division`: Cancel division: x/a = b → x = ab.
pub fn cancel_division() -> (r: Rule)
    ensures
        rule_view(r) == (25u32, "cancel_division"@, RuleCategory::EquationSolving, "Cancel division: x/a = b → x = ab"@, seq![Domain::Equations], Seq::<Feature>::empty(), false, 1u32, Rewrite::CancelDivision),
{
    Rule {
        id: RuleId(25),
        name: "cancel_division",
        category: RuleCategory::EquationSolving,
        description: "Cancel division: x/a = b → x = ab",
        domains: vec![Domain::Equations],
        requires: Vec::new(),
        reversible: false,
        cost: 1,
        rewrite: Rewrite::CancelDivision,
    }
}

/// The rule `linear_solve`: Solve linear equation: ax + b = c → x = (c-b)/a.
pub fn linear_solve() -> (r: Rule)
    ensures
        rule_view(r) == (26u32, "linear_solve"@, RuleCategory::EquationSolving, "Solve linear equation: ax + b = c → x = (c-b)/a"@, seq![Domain::Equations], Seq::<Feature>::empty(), false, 1u32, Rewrite::LinearSolve),
{
    Rule {
        id: RuleId(26),
        name: "linear_solve",
        category: RuleCategory::EquationSolving,
        description: "Solve linear equation: ax + b = c → x = (c-b)/a",
        domains: vec![Domain::Equations],
        requires: Vec::new(),
        reversible: false,
        cost: 1,
        rewrite: Rewrite::LinearSolve,
    }
}

/// The rule `quadratic_formula`: Quadratic formula: ax² + bx + c = 0 → x = (-b ± √(b²-4ac))/(2a).
pub fn quadratic_formula() -> (r: Rule)
    ensures
        rule_view(r) == (27u32, "quadratic_formula"@, RuleCategory::EquationSolving, "Quadratic formula: ax² + bx + c = 0 → x = (-b ± √(b²-4ac))/(2a)"@, seq![Domain::Equations], Seq::<Feature>::empty(), false, 5u32, Rewrite::QuadraticFormula),
{
    Rule {
        id: RuleId(27),
        name: "quadratic_formula",
        category: RuleCategory::EquationSolving,
        description: "Quadratic formula: ax² + bx + c = 0 → x = (-b ± √(b²-4ac))/(2a)",
        domains: vec![Domain::Equations],
        requires: Vec::new(),
        reversible: false,
        cost: 5,
        rewrite: Rewrite::QuadraticFormula,
    }
}

} // verus!
