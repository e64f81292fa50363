//! Integration rules.
//!
//! Each group function returns the metadata of its rules in registration
//! order; its contract fixes every field of every rule.

use vstd::prelude::*;
use crate::rewrite::Rewrite;
use crate::rule::{ids_of, names_of, rule_view, rules_view, RuleMeta, Domain, Feature, Rule, RuleCategory, RuleId};

verus! {
/// Identifiers of the rules of [`integration_rules`], in order.
pub open spec fn integration_rules_ids() -> Seq<u32> {
    seq![30u32, 31u32, 32u32, 33u32, 34u32, 35u32, 36u32, 37u32, 38u32]
}

/// Names of the rules of [`integration_rules`], in order.
pub open spec fn integration_rules_names() -> Seq<Seq<char>> {
    seq!["power_integral"@, "constant_integral"@, "sum_integral"@, "difference_integral"@, "sin_integral"@, "cos_integral"@, "exp_integral"@, "one_over_x_integral"@, "constant_multiple_integral"@]
}

/// Metadata of the rules of [`integration_rules`], in order.
pub open spec fn integration_rules_meta() -> Seq<RuleMeta> {
    seq![
        (30u32, "power_integral"@, RuleCategory::Integral, "Power rule: integral(x^n dx) = x^(n+1)/(n+1) for n != -1"@, Seq::<Domain>::empty(), Seq::<Feature>::empty(), false, 2u32, Rewrite::PowerIntegral),
        (31u32, "constant_integral"@, RuleCategory::Integral, "Constant rule: integral(c dx) = cx"@, Seq::<Domain>::empty(), Seq::<Feature>::empty(), false, 1u32, Rewrite::ConstantIntegral),
        (32u32, "sum_integral"@, RuleCategory::Integral, "Sum rule: integral(f + g dx) = integral(f dx) + integral(g dx)"@, Seq::<Domain>::empty(), Seq::<Feature>::empty(), false, 2u32, Rewrite::SumIntegral),
        (33u32, "difference_integral"@, RuleCategory::Integral, "Difference rule: integral(f - g dx) = integral(f dx) - integral(g dx)"@, Seq::<Domain>::empty(), Seq::<Feature>::empty(), false, 2u32, Rewrite::DifferenceIntegral),
        (34u32, "sin_integral"@, RuleCategory::Integral, "Sine integral: integral(sin(x) dx) = -cos(x)"@, Seq::<Domain>::empty(), Seq::<Feature>::empty(), false, 2u32, Rewrite::SinIntegral),
        (35u32, "cos_integral"@, RuleCategory::Integral, "Cosine integral: integral(cos(x) dx) = sin(x)"@, Seq::<Domain>::empty(), Seq::<Feature>::empty(), false, 2u32, Rewrite::CosIntegral),
        (36u32, "exp_integral"@, RuleCategory::Integral, "Exponential integral: integral(e^x dx) = e^x"@, Seq::<Domain>::empty(), Seq::<Feature>::empty(), false, 2u32, Rewrite::ExpIntegral),
        (37u32, "one_over_x_integral"@, RuleCategory::Integral, "Reciprocal integral: integral(1/x dx) = ln(x)"@, Seq::<Domain>::empty(), Seq::<Feature>::empty(), false, 2u32, Rewrite::OneOverXIntegral),
        (38u32, "constant_multiple_integral"@, RuleCategory::Integral, "Constant multiple: integral(c*f dx) = c * integral(f dx)"@, Seq::<Domain>::empty(), Seq::<Feature>::empty(), false, 2u32, Rewrite::ConstantMultipleIntegral),
    ]
}

/// The rules of this group, in registration order.
pub fn integration_rules() -> (rules: Vec<Rule>)
    ensures
        ids_of(rules@) == integration_rules_ids(),
        names_of(rules@) == integration_rules_names(),
        rules_view(rules@) == integration_rules_meta(),
{
    let mut rules: Vec<Rule> = Vec::new();
    let mut part: Vec<Rule> = vec![
        power_integral(),
        constant_integral(),
        sum_integral(),
        difference_integral(),
        sin_integral(),
        cos_integral(),
        exp_integral(),
        one_over_x_integral(),
        constant_multiple_integral(),
    ];
    assert(ids_of(part@) =~= seq![30u32, 31u32, 32u32, 33u32, 34u32, 35u32, 36u32, 37u32, 38u32]);
    assert(names_of(part@) =~= seq!["power_integral"@, "constant_integral"@, "sum_integral"@, "difference_integral"@, "sin_integral"@, "cos_integral"@, "exp_integral"@, "one_over_x_integral"@, "constant_multiple_integral"@]);
    assert(rules_view(part@) =~~= integration_rules_meta());
    let ghost before = rules@;
    rules.append(&mut part);
    proof {
        crate::rule::lemma_ids_names_append(before, part@);
    }
    assert(ids_of(rules@) =~= integration_rules_ids());
    assert(names_of(rules@) =~= integration_rules_names());
    assert(rules_view(rules@) =~= integration_rules_meta());
    rules
}

/// The rule `power_integral`: Power rule: integral(x^n dx) = x^(n+1)/(n+1) for n != -1.
pub fn power_integral() -> (r: Rule)
    ensures
        rule_view(r) == (30u32, "power_integral"@, RuleCategory::Integral, "Power rule: integral(x^n dx) = x^(n+1)/(n+1) for n != -1"@, Seq::<Domain>::empty(), Seq::<Feature>::empty(), false, 2u32, Rewrite::PowerIntegral),
{
    Rule {
        id: RuleId(30),
        name: "power_integral",
        category: RuleCategory::Integral,
        description: "Power rule: integral(x^n dx) = x^(n+1)/(n+1) for n != -1",
        domains: Vec::new(),
        requires: Vec::new(),
        reversible: false,
        cost: 2,
        rewrite: Rewrite::PowerIntegral,
    }
}

/// The rule `constant_integral`: Constant rule: integral(c dx) = cx.
pub fn constant_integral() -> (r: Rule)
    ensures
        rule_view(r) == (31u32, "constant_integral"@, RuleCategory::Integral, "Constant rule: integral(c dx) = cx"@, Seq::<Domain>::empty(), Seq::<Feature>::empty(), false, 1u32, Rewrite::ConstantIntegral),
{
    Rule {
        id: RuleId(31),
        name: "constant_integral",
        category: RuleCategory::Integral,
        description: "Constant rule: integral(c dx) = cx",
        domains: Vec::new(),
        requires: Vec::new(),
        reversible: false,
        cost: 1,
        rewrite: Rewrite::ConstantIntegral,
    }
}

/// The rule `sum_integral`: Sum rule: integral(f + g dx) = integral(f dx) + integral(g dx).
pub fn sum_integral() -> (r: Rule)
    ensures
        rule_view(r) == (32u32, "sum_integral"@, RuleCategory::Integral, "Sum rule: integral(f + g dx) = integral(f dx) + integral(g dx)"@, Seq::<Domain>::empty(), Seq::<Feature>::empty(), false, 2u32, Rewrite::SumIntegral),
{
    Rule {
        id: RuleId(32),
        name: "sum_integral",
        category: RuleCategory::Integral,
        description: "Sum rule: integral(f + g dx) = integral(f dx) + integral(g dx)",
        domains: Vec::new(),
        requires: Vec::new(),
        reversible: false,
        cost: 2,
        rewrite: Rewrite::SumIntegral,
    }
}

/// The rule `difference_integral`: Difference rule: integral(f - g dx) = integral(f dx) - integral(g dx).
pub fn difference_integral() -> (r: Rule)
    ensures
        rule_view(r) == (33u32, "difference_integral"@, RuleCategory::Integral, "Difference rule: integral(f - g dx) = integral(f dx) - integral(g dx)"@, Seq::<Domain>::empty(), Seq::<Feature>::empty(), false, 2u32, Rewrite::DifferenceIntegral),
{
    Rule {
        id: RuleId(33),
        name: "difference_integral",
        category: RuleCategory::Integral,
        description: "Difference rule: integral(f - g dx) = integral(f dx) - integral(g dx)",
        domains: Vec::new(),
        requires: Vec::new(),
        reversible: false,
        cost: 2,
        rewrite: Rewrite::DifferenceIntegral,
    }
}

/// The rule `sin_integral`: Sine integral: integral(sin(x) dx) = -cos(x).
pub fn sin_integral() -> (r: Rule)
    ensures
        rule_view(r) == (34u32, "sin_integral"@, RuleCategory::Integral, "Sine integral: integral(sin(x) dx) = -cos(x)"@, Seq::<Domain>::empty(), Seq::<Feature>::empty(), false, 2u32, Rewrite::SinIntegral),
{
    Rule {
        id: RuleId(34),
        name: "sin_integral",
        category: RuleCategory::Integral,
        description: "Sine integral: integral(sin(x) dx) = -cos(x)",
        domains: Vec::new(),
        requires: Vec::new(),
        reversible: false,
        cost: 2,
        rewrite: Rewrite::SinIntegral,
    }
}

/// The rule `cos_integral`: Cosine integral: integral(cos(x) dx) = sin(x).
pub fn cos_integral() -> (r: Rule)
    ensures
        rule_view(r) == (35u32, "cos_integral"@, RuleCategory::Integral, "Cosine integral: integral(cos(x) dx) = sin(x)"@, Seq::<Domain>::empty(), Seq::<Feature>::empty(), false, 2u32, Rewrite::CosIntegral),
{
    Rule {
        id: RuleId(35),
        name: "cos_integral",
        category: RuleCategory::Integral,
        description: "Cosine integral: integral(cos(x) dx) = sin(x)",
        domains: Vec::new(),
        requires: Vec::new(),
        reversible: false,
        cost: 2,
        rewrite: Rewrite::CosIntegral,
    }
}

/// The rule `exp_integral`: Exponential integral: integral(e^x dx) = e^x.
pub fn exp_integral() -> (r: Rule)
    ensures
        rule_view(r) == (36u32, "exp_integral"@, RuleCategory::Integral, "Exponential integral: integral(e^x dx) = e^x"@, Seq::<Domain>::empty(), Seq::<Feature>::empty(), false, 2u32, Rewrite::ExpIntegral),
{
    Rule {
        id: RuleId(36),
        name: "exp_integral",
        category: RuleCategory::Integral,
        description: "Exponential integral: integral(e^x dx) = e^x",
        domains: Vec::new(),
        requires: Vec::new(),
        reversible: false,
        cost: 2,
        rewrite: Rewrite::ExpIntegral,
    }
}

/// The rule `one_over_x_integral`: Reciprocal integral: integral(1/x dx) = ln(x).
pub fn one_over_x_integral() -> (r: Rule)
    ensures
        rule_view(r) == (37u32, "one_over_x_integral"@, RuleCategory::Integral, "Reciprocal integral: integral(1/x dx) = ln(x)"@, Seq::<Domain>::empty(), Seq::<Feature>::empty(), false, 2u32, Rewrite::OneOverXIntegral),
{
    Rule {
        id: RuleId(37),
        name: "one_over_x_integral",
        category: RuleCategory::Integral,
        description: "Reciprocal integral: integral(1/x dx) = ln(x)",
        domains: Vec::new(),
        requires: Vec::new(),
        reversible: false,
        cost: 2,
        rewrite: Rewrite::OneOverXIntegral,
    }
}

/// The rule `constant_multiple_integral`: Constant multiple: integral(c*f dx) = c * integral(f dx).
pub fn constant_multiple_integral() -> (r: Rule)
    ensures
        rule_view(r) == (38u32, "constant_multiple_integral"@, RuleCategory::Integral, "Constant multiple: integral(c*f dx) = c * integral(f dx)"@, Seq::<Domain>::empty(), Seq::<Feature>::empty(), false, 2u32, Rewrite::ConstantMultipleIntegral),
{
    Rule {
        id: RuleId(38),
        name: "constant_multiple_integral",
        category: RuleCategory::Integral,
        description: "Constant multiple: integral(c*f dx) = c * integral(f dx)",
        domains: Vec::new(),
        requires: Vec::new(),
        reversible: false,
        cost: 2,
        rewrite: Rewrite::ConstantMultipleIntegral,
    }
}

} // verus!
