//! Number theory rules: divisibility, modular arithmetic, gcd/lcm, powers, parity, sums, factorials, floor and ceiling.
//!
//! Each group function returns the metadata of its rules in registration
//! order; its contract fixes every field of every rule.

use vstd::prelude::*;
use crate::rewrite::Rewrite;
use crate::rule::{ids_of, names_of, rule_view, rules_view, RuleMeta, Domain, Feature, Rule, RuleCategory, RuleId};

verus! {
/// Identifiers of the rules of [`divisibility_rules`], in order.
pub open spec fn divisibility_rules_ids() -> Seq<u32> {
    seq![100u32, 101u32, 102u32, 103u32, 104u32, 105u32, 106u32, 107u32, 108u32, 109u32, 110u32]
}

/// Names of the rules of [`divisibility_rules`], in order.
pub open spec fn divisibility_rules_names() -> Seq<Seq<char>> {
    seq!["divides_zero"@, "divides_self"@, "even_sum"@, "div_by_2"@, "cancel_common_factor"@, "mul_by_denom"@, "diff_squares_factor"@, "diff_cubes_factor"@, "sum_cubes_factor"@, "square_binomial_expand"@, "square_binomial_sub_expand"@]
}

/// Metadata of the rules of [`divisibility_rules`], in order.
pub open spec fn divisibility_rules_meta() -> Seq<RuleMeta> {
    seq![
        (100u32, "divides_zero"@, RuleCategory::AlgebraicSolving, "n divides 0 for any n"@, Seq::<Domain>::empty(), Seq::<Feature>::empty(), false, 1u32, Rewrite::DividesZero),
        (101u32, "divides_self"@, RuleCategory::Simplification, "n/n = 1 for any n ≠ 0"@, Seq::<Domain>::empty(), Seq::<Feature>::empty(), false, 1u32, Rewrite::DividesSelf),
        (102u32, "even_sum"@, RuleCategory::Simplification, "a + a = 2a (even)"@, Seq::<Domain>::empty(), Seq::<Feature>::empty(), true, 1u32, Rewrite::EvenSum),
        (103u32, "div_by_2"@, RuleCategory::Simplification, "2n is divisible by 2"@, Seq::<Domain>::empty(), Seq::<Feature>::empty(), false, 1u32, Rewrite::DivBy2),
        (104u32, "cancel_common_factor"@, RuleCategory::Simplification, "(a*b)/a = b"@, Seq::<Domain>::empty(), Seq::<Feature>::empty(), false, 2u32, Rewrite::CancelCommonFactor),
        (105u32, "mul_by_denom"@, RuleCategory::Simplification, "(a/b) * b = a"@, Seq::<Domain>::empty(), Seq::<Feature>::empty(), false, 2u32, Rewrite::MulByDenom),
        (106u32, "diff_squares_factor"@, RuleCategory::Factoring, "a² - b² = (a+b)(a-b)"@, Seq::<Domain>::empty(), Seq::<Feature>::empty(), true, 2u32, Rewrite::DiffSquaresFactor),
        (107u32, "diff_cubes_factor"@, RuleCategory::Factoring, "a³ - b³ = (a-b)(a² + ab + b²)"@, Seq::<Domain>::empty(), Seq::<Feature>::empty(), true, 3u32, Rewrite::DiffCubesFactor),
        (108u32, "sum_cubes_factor"@, RuleCategory::Factoring, "a³ + b³ = (a+b)(a² - ab + b²)"@, Seq::<Domain>::empty(), Seq::<Feature>::empty(), true, 3u32, Rewrite::SumCubesFactor),
        (109u32, "square_binomial_expand"@, RuleCategory::Expansion, "(a+b)² = a² + 2ab + b²"@, Seq::<Domain>::empty(), Seq::<Feature>::empty(), true, 2u32, Rewrite::SquareBinomialExpand),
        (110u32, "square_binomial_sub_expand"@, RuleCategory::Expansion, "(a-b)² = a² - 2ab + b²"@, Seq::<Domain>::empty(), Seq::<Feature>::empty(), true, 2u32, Rewrite::SquareBinomialSubExpand),
    ]
}

/// The rules of this group, in registration order.
fn divisibility_rules() -> (rules: Vec<Rule>)
    ensures
        ids_of(rules@) == divisibility_rules_ids(),
        names_of(rules@) == divisibility_rules_names(),
        rules_view(rules@) == divisibility_rules_meta(),
{
    let mut rules: Vec<Rule> = Vec::new();
    let mut part: Vec<Rule> = vec![
        Rule {
            id: RuleId(100),
            name: "divides_zero",
            category: RuleCategory::AlgebraicSolving,
            description: "n divides 0 for any n",
            domains: Vec::new(),
            requires: Vec::new(),
            reversible: false,
            cost: 1,
            rewrite: Rewrite::DividesZero,
        },
        Rule {
            id: RuleId(101),
            name: "divides_self",
            category: RuleCategory::Simplification,
            description: "n/n = 1 for any n ≠ 0",
            domains: Vec::new(),
            requires: Vec::new(),
            reversible: false,
            cost: 1,
            rewrite: Rewrite::DividesSelf,
        },
        Rule {
            id: RuleId(102),
            name: "even_sum",
            category: RuleCategory::Simplification,
            description: "a + a = 2a (even)",
            domains: Vec::new(),
            requires: Vec::new(),
            reversible: true,
            cost: 1,
            rewrite: Rewrite::EvenSum,
        },
        Rule {
            id: RuleId(103),
            name: "div_by_2",
            category: RuleCategory::Simplification,
            description: "2n is divisible by 2",
            domains: Vec::new(),
            requires: Vec::new(),
            reversible: false,
            cost: 1,
            rewrite: Rewrite::DivBy2,
        },
        Rule {
            id: RuleId(104),
            name: "cancel_common_factor",
            category: RuleCategory::Simplification,
            description: "(a*b)/a = b",
            domains: Vec::new(),
            requires: Vec::new(),
            reversible: false,
            cost: 2,
            rewrite: Rewrite::CancelCommonFactor,
        },
        Rule {
            id: RuleId(105),
            name: "mul_by_denom",
            category: RuleCategory::Simplification,
            description: "(a/b) * b = a",
            domains: Vec::new(),
            requires: Vec::new(),
            reversible: false,
            cost: 2,
            rewrite: Rewrite::MulByDenom,
        },
        Rule {
            id: RuleId(106),
            name: "diff_squares_factor",
            category: RuleCategory::Factoring,
            description: "a² - b² = (a+b)(a-b)",
            domains: Vec::new(),
            requires: Vec::new(),
            reversible: true,
            cost: 2,
            rewrite: Rewrite::DiffSquaresFactor,
        },
        Rule {
            id: RuleId(107),
            name: "diff_cubes_factor",
            category: RuleCategory::Factoring,
            description: "a³ - b³ = (a-b)(a² + ab + b²)",
            domains: Vec::new(),
            requires: Vec::new(),
            reversible: true,
            cost: 3,
            rewrite: Rewrite::DiffCubesFactor,
        },
        Rule {
            id: RuleId(108),
            name: "sum_cubes_factor",
            category: RuleCategory::Factoring,
            description: "a³ + b³ = (a+b)(a² - ab + b²)",
            domains: Vec::new(),
            requires: Vec::new(),
            reversible: true,
            cost: 3,
            rewrite: Rewrite::SumCubesFactor,
        },
        Rule {
            id: RuleId(109),
            name: "square_binomial_expand",
            category: RuleCategory::Expansion,
            description: "(a+b)² = a² + 2ab + b²",
            domains: Vec::new(),
            requires: Vec::new(),
            reversible: true,
            cost: 2,
            rewrite: Rewrite::SquareBinomialExpand,
        },
        Rule {
            id: RuleId(110),
            name: "square_binomial_sub_expand",
            category: RuleCategory::Expansion,
            description: "(a-b)² = a² - 2ab + b²",
            domains: Vec::new(),
            requires: Vec::new(),
            reversible: true,
            cost: 2,
            rewrite: Rewrite::SquareBinomialSubExpand,
        },
    ];
    assert(ids_of(part@) =~= seq![100u32, 101u32, 102u32, 103u32, 104u32, 105u32, 106u32, 107u32, 108u32, 109u32, 110u32]);
    assert(names_of(part@) =~= seq!["divides_zero"@, "divides_self"@, "even_sum"@, "div_by_2"@, "cancel_common_factor"@, "mul_by_denom"@, "diff_squares_factor"@, "diff_cubes_factor"@, "sum_cubes_factor"@, "square_binomial_expand"@, "square_binomial_sub_expand"@]);
    assert(rules_view(part@) =~~= divisibility_rules_meta());
    let ghost before = rules@;
    rules.append(&mut part);
    proof {
        crate::rule::lemma_ids_names_append(before, part@);
    }
    assert(ids_of(rules@) =~= divisibility_rules_ids());
    assert(names_of(rules@) =~= divisibility_rules_names());
    assert(rules_view(rules@) =~= divisibility_rules_meta());
    rules
}

/// Identifiers of the rules of [`modular_rules`], in order.
pub open spec fn modular_rules_ids() -> Seq<u32> {
    seq![120u32, 121u32, 122u32]
}

/// Names of the rules of [`modular_rules`], in order.
pub open spec fn modular_rules_names() -> Seq<Seq<char>> {
    seq!["mod_self"@, "zero_mod"@, "mod_one"@]
}

/// Metadata of the rules of [`modular_rules`], in order.
pub open spec fn modular_rules_meta() -> Seq<RuleMeta> {
    seq![
        (120u32, "mod_self"@, RuleCategory::Simplification, "a mod a = 0"@, Seq::<Domain>::empty(), Seq::<Feature>::empty(), false, 1u32, Rewrite::ModSelf),
        (121u32, "zero_mod"@, RuleCategory::Simplification, "0 mod n = 0"@, Seq::<Domain>::empty(), Seq::<Feature>::empty(), false, 1u32, Rewrite::ZeroMod),
        (122u32, "mod_one"@, RuleCategory::Simplification, "a mod 1 = 0"@, Seq::<Domain>::empty(), Seq::<Feature>::empty(), false, 1u32, Rewrite::ModOne),
    ]
}

/// The rules of this group, in registration order.
fn modular_rules() -> (rules: Vec<Rule>)
    ensures
        ids_of(rules@) == modular_rules_ids(),
        names_of(rules@) == modular_rules_names(),
        rules_view(rules@) == modular_rules_meta(),
{
    let mut rules: Vec<Rule> = Vec::new();
    let mut part: Vec<Rule> = vec![
        Rule {
            id: RuleId(120),
            name: "mod_self",
            category: RuleCategory::Simplification,
            description: "a mod a = 0",
            domains: Vec::new(),
            requires: Vec::new(),
            reversible: false,
            cost: 1,
            rewrite: Rewrite::ModSelf,
        },
        Rule {
            id: RuleId(121),
            name: "zero_mod",
            category: RuleCategory::Simplification,
            description: "0 mod n = 0",
            domains: Vec::new(),
            requires: Vec::new(),
            reversible: false,
            cost: 1,
            rewrite: Rewrite::ZeroMod,
        },
        Rule {
            id: RuleId(122),
            name: "mod_one",
            category: RuleCategory::Simplification,
            description: "a mod 1 = 0",
            domains: Vec::new(),
            requires: Vec::new(),
            reversible: false,
            cost: 1,
            rewrite: Rewrite::ModOne,
        },
    ];
    assert(ids_of(part@) =~= seq![120u32, 121u32, 122u32]);
    assert(names_of(part@) =~= seq!["mod_self"@, "zero_mod"@, "mod_one"@]);
    assert(rules_view(part@) =~~= modular_rules_meta());
    let ghost before = rules@;
    rules.append(&mut part);
    proof {
        crate::rule::lemma_ids_names_append(before, part@);
    }
    assert(ids_of(rules@) =~= modular_rules_ids());
    assert(names_of(rules@) =~= modular_rules_names());
    assert(rules_view(rules@) =~= modular_rules_meta());
    rules
}

/// Identifiers of the rules of [`gcd_lcm_rules`], in order.
pub open spec fn gcd_lcm_rules_ids() -> Seq<u32> {
    seq![140u32, 141u32, 142u32, 143u32, 144u32, 145u32]
}

/// Names of the rules of [`gcd_lcm_rules`], in order.
pub open spec fn gcd_lcm_rules_names() -> Seq<Seq<char>> {
    seq!["gcd_self"@, "gcd_zero"@, "gcd_one"@, "lcm_self"@, "lcm_one"@, "gcd_lcm_product"@]
}

/// Metadata of the rules of [`gcd_lcm_rules`], in order.
pub open spec fn gcd_lcm_rules_meta() -> Seq<RuleMeta> {
    seq![
        (140u32, "gcd_self"@, RuleCategory::Simplification, "gcd(a, a) = a"@, Seq::<Domain>::empty(), Seq::<Feature>::empty(), false, 1u32, Rewrite::GcdSelf),
        (141u32, "gcd_zero"@, RuleCategory::Simplification, "gcd(a, 0) = |a|"@, Seq::<Domain>::empty(), Seq::<Feature>::empty(), false, 1u32, Rewrite::GcdZero),
        (142u32, "gcd_one"@, RuleCategory::Simplification, "gcd(a, 1) = 1"@, Seq::<Domain>::empty(), Seq::<Feature>::empty(), false, 1u32, Rewrite::GcdOne),
        (143u32, "lcm_self"@, RuleCategory::Simplification, "lcm(a, a) = |a|"@, Seq::<Domain>::empty(), Seq::<Feature>::empty(), false, 1u32, Rewrite::LcmSelf),
        (144u32, "lcm_one"@, RuleCategory::Simplification, "lcm(a, 1) = |a|"@, Seq::<Domain>::empty(), Seq::<Feature>::empty(), false, 1u32, Rewrite::LcmOne),
        (145u32, "gcd_lcm_product"@, RuleCategory::AlgebraicSolving, "gcd(a,b) * lcm(a,b) = |a*b|"@, Seq::<Domain>::empty(), Seq::<Feature>::empty(), true, 2u32, Rewrite::GcdLcmProduct),
    ]
}

/// The rules of this group, in registration order.
fn gcd_lcm_rules() -> (rules: Vec<Rule>)
    ensures
        ids_of(rules@) == gcd_lcm_rules_ids(),
        names_of(rules@) == gcd_lcm_rules_names(),
        rules_view(rules@) == gcd_lcm_rules_meta(),
{
    let mut rules: Vec<Rule> = Vec::new();
    let mut part: Vec<Rule> = vec![
        Rule {
            id: RuleId(140),
            name: "gcd_self",
            category: RuleCategory::Simplification,
            description: "gcd(a, a) = a",
            domains: Vec::new(),
            requires: Vec::new(),
            reversible: false,
            cost: 1,
            rewrite: Rewrite::GcdSelf,
        },
        Rule {
            id: RuleId(141),
            name: "gcd_zero",
            category: RuleCategory::Simplification,
            description: "gcd(a, 0) = |a|",
            domains: Vec::new(),
            requires: Vec::new(),
            reversible: false,
            cost: 1,
            rewrite: Rewrite::GcdZero,
        },
        Rule {
            id: RuleId(142),
            name: "gcd_one",
            category: RuleCategory::Simplification,
            description: "gcd(a, 1) = 1",
            domains: Vec::new(),
            requires: Vec::new(),
            reversible: false,
            cost: 1,
            rewrite: Rewrite::GcdOne,
        },
        Rule {
            id: RuleId(143),
            name: "lcm_self",
            category: RuleCategory::Simplification,
            description: "lcm(a, a) = |a|",
            domains: Vec::new(),
            requires: Vec::new(),
            reversible: false,
            cost: 1,
            rewrite: Rewrite::LcmSelf,
        },
        Rule {
            id: RuleId(144),
            name: "lcm_one",
            category: RuleCategory::Simplification,
            description: "lcm(a, 1) = |a|",
            domains: Vec::new(),
            requires: Vec::new(),
            reversible: false,
            cost: 1,
            rewrite: Rewrite::LcmOne,
        },
        Rule {
            id: RuleId(145),
            name: "gcd_lcm_product",
            category: RuleCategory::AlgebraicSolving,
            description: "gcd(a,b) * lcm(a,b) = |a*b|",
            domains: Vec::new(),
            requires: Vec::new(),
            reversible: true,
            cost: 2,
            rewrite: Rewrite::GcdLcmProduct,
        },
    ];
    assert(ids_of(part@) =~= seq![140u32, 141u32, 142u32, 143u32, 144u32, 145u32]);
    assert(names_of(part@) =~= seq!["gcd_self"@, "gcd_zero"@, "gcd_one"@, "lcm_self"@, "lcm_one"@, "gcd_lcm_product"@]);
    assert(rules_view(part@) =~~= gcd_lcm_rules_meta());
    let ghost before = rules@;
    rules.append(&mut part);
    proof {
        crate::rule::lemma_ids_names_append(before, part@);
    }
    assert(ids_of(rules@) =~= gcd_lcm_rules_ids());
    assert(names_of(rules@) =~= gcd_lcm_rules_names());
    assert(rules_view(rules@) =~= gcd_lcm_rules_meta());
    rules
}

/// Identifiers of the rules of [`perfect_power_rules`], in order.
pub open spec fn perfect_power_rules_ids() -> Seq<u32> {
    seq![160u32, 161u32, 162u32, 163u32, 164u32]
}

/// Names of the rules of [`perfect_power_rules`], in order.
pub open spec fn perfect_power_rules_names() -> Seq<Seq<char>> {
    seq!["sqrt_square"@, "square_sqrt"@, "sqrt_product"@, "sqrt_quotient"@, "half_power_sqrt"@]
}

/// Metadata of the rules of [`perfect_power_rules`], in order.
pub open spec fn perfect_power_rules_meta() -> Seq<RuleMeta> {
    seq![
        (160u32, "sqrt_square"@, RuleCategory::Simplification, "√(a²) = |a|"@, Seq::<Domain>::empty(), Seq::<Feature>::empty(), false, 1u32, Rewrite::SqrtSquare),
        (161u32, "square_sqrt"@, RuleCategory::Simplification, "(√a)² = a"@, Seq::<Domain>::empty(), Seq::<Feature>::empty(), false, 1u32, Rewrite::SquareSqrt),
        (162u32, "sqrt_product"@, RuleCategory::Simplification, "√a · √b = √(ab)"@, Seq::<Domain>::empty(), Seq::<Feature>::empty(), true, 2u32, Rewrite::SqrtProduct),
        (163u32, "sqrt_quotient"@, RuleCategory::Simplification, "√(a/b) = √a/√b"@, Seq::<Domain>::empty(), Seq::<Feature>::empty(), true, 2u32, Rewrite::SqrtQuotient),
        (164u32, "half_power_sqrt"@, RuleCategory::Simplification, "a^(1/2) = √a"@, Seq::<Domain>::empty(), Seq::<Feature>::empty(), true, 1u32, Rewrite::HalfPowerSqrt),
    ]
}

/// The rules of this group, in registration order.
fn perfect_power_rules() -> (rules: Vec<Rule>)
    ensures
        ids_of(rules@) == perfect_power_rules_ids(),
        names_of(rules@) == perfect_power_rules_names(),
        rules_view(rules@) == perfect_power_rules_meta(),
{
    let mut rules: Vec<Rule> = Vec::new();
    let mut part: Vec<Rule> = vec![
        Rule {
            id: RuleId(160),
            name: "sqrt_square",
            category: RuleCategory::Simplification,
            description: "√(a²) = |a|",
            domains: Vec::new(),
            requires: Vec::new(),
            reversible: false,
            cost: 1,
            rewrite: Rewrite::SqrtSquare,
        },
        Rule {
            id: RuleId(161),
            name: "square_sqrt",
            category: RuleCategory::Simplification,
            description: "(√a)² = a",
            domains: Vec::new(),
            requires: Vec::new(),
            reversible: false,
            cost: 1,
            rewrite: Rewrite::SquareSqrt,
        },
        Rule {
            id: RuleId(162),
            name: "sqrt_product",
            category: RuleCategory::Simplification,
            description: "√a · √b = √(ab)",
            domains: Vec::new(),
            requires: Vec::new(),
            reversible: true,
            cost: 2,
            rewrite: Rewrite::SqrtProduct,
        },
        Rule {
            id: RuleId(163),
            name: "sqrt_quotient",
            category: RuleCategory::Simplification,
            description: "√(a/b) = √a/√b",
            domains: Vec::new(),
            requires: Vec::new(),
            reversible: true,
            cost: 2,
            rewrite: Rewrite::SqrtQuotient,
        },
        Rule {
            id: RuleId(164),
            name: "half_power_sqrt",
            category: RuleCategory::Simplification,
            description: "a^(1/2) = √a",
            domains: Vec::new(),
            requires: Vec::new(),
            reversible: true,
            cost: 1,
            rewrite: Rewrite::HalfPowerSqrt,
        },
    ];
    assert(ids_of(part@) =~= seq![160u32, 161u32, 162u32, 163u32, 164u32]);
    assert(names_of(part@) =~= seq!["sqrt_square"@, "square_sqrt"@, "sqrt_product"@, "sqrt_quotient"@, "half_power_sqrt"@]);
    assert(rules_view(part@) =~~= perfect_power_rules_meta());
    let ghost before = rules@;
    rules.append(&mut part);
    proof {
        crate::rule::lemma_ids_names_append(before, part@);
    }
    assert(ids_of(rules@) =~= perfect_power_rules_ids());
    assert(names_of(rules@) =~= perfect_power_rules_names());
    assert(rules_view(rules@) =~= perfect_power_rules_meta());
    rules
}

/// Identifiers of the rules of [`parity_rules`], in order.
pub open spec fn parity_rules_ids() -> Seq<u32> {
    seq![180u32, 181u32, 182u32]
}

/// Names of the rules of [`parity_rules`], in order.
pub open spec fn parity_rules_names() -> Seq<Seq<char>> {
    seq!["neg_one_even_power"@, "neg_one_odd_power"@, "neg_squared"@]
}

/// Metadata of the rules of [`parity_rules`], in order.
pub open spec fn parity_rules_meta() -> Seq<RuleMeta> {
    seq![
        (180u32, "neg_one_even_power"@, RuleCategory::Simplification, "(-1)^(2n) = 1"@, Seq::<Domain>::empty(), Seq::<Feature>::empty(), false, 1u32, Rewrite::NegOneEvenPower),
        (181u32, "neg_one_odd_power"@, RuleCategory::Simplification, "(-1)^(2n+1) = -1"@, Seq::<Domain>::empty(), Seq::<Feature>::empty(), false, 1u32, Rewrite::NegOneOddPower),
        (182u32, "neg_squared"@, RuleCategory::Simplification, "(-a)² = a²"@, Seq::<Domain>::empty(), Seq::<Feature>::empty(), false, 1u32, Rewrite::NegSquared),
    ]
}

/// The rules of this group, in registration order.
fn parity_rules() -> (rules: Vec<Rule>)
    ensures
        ids_of(rules@) == parity_rules_ids(),
        names_of(rules@) == parity_rules_names(),
        rules_view(rules@) == parity_rules_meta(),
{
    let mut rules: Vec<Rule> = Vec::new();
    let mut part: Vec<Rule> = vec![
        Rule {
            id: RuleId(180),
            name: "neg_one_even_power",
            category: RuleCategory::Simplification,
            description: "(-1)^(2n) = 1",
            domains: Vec::new(),
            requires: Vec::new(),
            reversible: false,
            cost: 1,
            rewrite: Rewrite::NegOneEvenPower,
        },
        Rule {
            id: RuleId(181),
            name: "neg_one_odd_power",
            category: RuleCategory::Simplification,
            description: "(-1)^(2n+1) = -1",
            domains: Vec::new(),
            requires: Vec::new(),
            reversible: false,
            cost: 1,
            rewrite: Rewrite::NegOneOddPower,
        },
        Rule {
            id: RuleId(182),
            name: "neg_squared",
            category: RuleCategory::Simplification,
            description: "(-a)² = a²",
            domains: Vec::new(),
            requires: Vec::new(),
            reversible: false,
            cost: 1,
            rewrite: Rewrite::NegSquared,
        },
    ];
    assert(ids_of(part@) =~= seq![180u32, 181u32, 182u32]);
    assert(names_of(part@) =~= seq!["neg_one_even_power"@, "neg_one_odd_power"@, "neg_squared"@]);
    assert(rules_view(part@) =~~= parity_rules_meta());
    let ghost before = rules@;
    rules.append(&mut part);
    proof {
        crate::rule::lemma_ids_names_append(before, part@);
    }
    assert(ids_of(rules@) =~= parity_rules_ids());
    assert(names_of(rules@) =~= parity_rules_names());
    assert(rules_view(rules@) =~= parity_rules_meta());
    rules
}

/// Identifiers of the rules of [`sum_formulas`], in order.
pub open spec fn sum_formulas_ids() -> Seq<u32> {
    seq![200u32, 201u32, 202u32, 203u32, 204u32]
}

/// Names of the rules of [`sum_formulas`], in order.
pub open spec fn sum_formulas_names() -> Seq<Seq<char>> {
    seq!["sum_constant"@, "sum_arithmetic"@, "sum_squares"@, "sum_cubes"@, "geometric_sum"@]
}

/// Metadata of the rules of [`sum_formulas`], in order.
pub open spec fn sum_formulas_meta() -> Seq<RuleMeta> {
    seq![
        (200u32, "sum_constant"@, RuleCategory::Simplification, "Σc (n times) = cn"@, Seq::<Domain>::empty(), Seq::<Feature>::empty(), true, 2u32, Rewrite::SumConstant),
        (201u32, "sum_arithmetic"@, RuleCategory::Simplification, "1+2+...+n = n(n+1)/2"@, Seq::<Domain>::empty(), Seq::<Feature>::empty(), true, 2u32, Rewrite::SumArithmetic),
        (202u32, "sum_squares"@, RuleCategory::Simplification, "1²+2²+...+n² = n(n+1)(2n+1)/6"@, Seq::<Domain>::empty(), Seq::<Feature>::empty(), true, 2u32, Rewrite::SumSquares),
        (203u32, "sum_cubes"@, RuleCategory::Simplification, "1³+2³+...+n³ = [n(n+1)/2]²"@, Seq::<Domain>::empty(), Seq::<Feature>::empty(), true, 2u32, Rewrite::SumCubes),
        (204u32, "geometric_sum"@, RuleCategory::Simplification, "1+r+r²+...+r^n = (r^(n+1)-1)/(r-1)"@, Seq::<Domain>::empty(), Seq::<Feature>::empty(), true, 3u32, Rewrite::GeometricSum),
    ]
}

/// The rules of this group, in registration order.
fn sum_formulas() -> (rules: Vec<Rule>)
    ensures
        ids_of(rules@) == sum_formulas_ids(),
        names_of(rules@) == sum_formulas_names(),
        rules_view(rules@) == sum_formulas_meta(),
{
    let mut rules: Vec<Rule> = Vec::new();
    let mut part: Vec<Rule> = vec![
        Rule {
            id: RuleId(200),
            name: "sum_constant",
            category: RuleCategory::Simplification,
            description: "Σc (n times) = cn",
            domains: Vec::new(),
            requires: Vec::new(),
            reversible: true,
            cost: 2,
            rewrite: Rewrite::SumConstant,
        },
        Rule {
            id: RuleId(201),
            name: "sum_arithmetic",
            category: RuleCategory::Simplification,
            description: "1+2+...+n = n(n+1)/2",
            domains: Vec::new(),
            requires: Vec::new(),
            reversible: true,
            cost: 2,
            rewrite: Rewrite::SumArithmetic,
        },
        Rule {
            id: RuleId(202),
            name: "sum_squares",
            category: RuleCategory::Simplification,
            description: "1²+2²+...+n² = n(n+1)(2n+1)/6",
            domains: Vec::new(),
            requires: Vec::new(),
            reversible: true,
            cost: 2,
            rewrite: Rewrite::SumSquares,
        },
        Rule {
            id: RuleId(203),
            name: "sum_cubes",
            category: RuleCategory::Simplification,
            description: "1³+2³+...+n³ = [n(n+1)/2]²",
            domains: Vec::new(),
            requires: Vec::new(),
            reversible: true,
            cost: 2,
            rewrite: Rewrite::SumCubes,
        },
        Rule {
            id: RuleId(204),
            name: "geometric_sum",
            category: RuleCategory::Simplification,
            description: "1+r+r²+...+r^n = (r^(n+1)-1)/(r-1)",
            domains: Vec::new(),
            requires: Vec::new(),
            reversible: true,
            cost: 3,
            rewrite: Rewrite::GeometricSum,
        },
    ];
    assert(ids_of(part@) =~= seq![200u32, 201u32, 202u32, 203u32, 204u32]);
    assert(names_of(part@) =~= seq!["sum_constant"@, "sum_arithmetic"@, "sum_squares"@, "sum_cubes"@, "geometric_sum"@]);
    assert(rules_view(part@) =~~= sum_formulas_meta());
    let ghost before = rules@;
    rules.append(&mut part);
    proof {
        crate::rule::lemma_ids_names_append(before, part@);
    }
    assert(ids_of(rules@) =~= sum_formulas_ids());
    assert(names_of(rules@) =~= sum_formulas_names());
    assert(rules_view(rules@) =~= sum_formulas_meta());
    rules
}

/// Identifiers of the rules of [`factorial_rules`], in order.
pub open spec fn factorial_rules_ids() -> Seq<u32> {
    seq![220u32, 221u32, 222u32]
}

/// Names of the rules of [`factorial_rules`], in order.
pub open spec fn factorial_rules_names() -> Seq<Seq<char>> {
    seq!["factorial_zero"@, "factorial_one"@, "factorial_recurse"@]
}

/// Metadata of the rules of [`factorial_rules`], in order.
pub open spec fn factorial_rules_meta() -> Seq<RuleMeta> {
    seq![
        (220u32, "factorial_zero"@, RuleCategory::Simplification, "0! = 1"@, Seq::<Domain>::empty(), Seq::<Feature>::empty(), false, 1u32, Rewrite::FactorialZero),
        (221u32, "factorial_one"@, RuleCategory::Simplification, "1! = 1"@, Seq::<Domain>::empty(), Seq::<Feature>::empty(), false, 1u32, Rewrite::FactorialOne),
        (222u32, "factorial_recurse"@, RuleCategory::Expansion, "n! = n · (n-1)!"@, Seq::<Domain>::empty(), Seq::<Feature>::empty(), true, 2u32, Rewrite::FactorialRecurse),
    ]
}

/// The rules of this group, in registration order.
fn factorial_rules() -> (rules: Vec<Rule>)
    ensures
        ids_of(rules@) == factorial_rules_ids(),
        names_of(rules@) == factorial_rules_names(),
        rules_view(rules@) == factorial_rules_meta(),
{
    let mut rules: Vec<Rule> = Vec::new();
    let mut part: Vec<Rule> = vec![
        Rule {
            id: RuleId(220),
            name: "factorial_zero",
            category: RuleCategory::Simplification,
            description: "0! = 1",
            domains: Vec::new(),
            requires: Vec::new(),
            reversible: false,
            cost: 1,
            rewrite: Rewrite::FactorialZero,
        },
        Rule {
            id: RuleId(221),
            name: "factorial_one",
            category: RuleCategory::Simplification,
            description: "1! = 1",
            domains: Vec::new(),
            requires: Vec::new(),
            reversible: false,
            cost: 1,
            rewrite: Rewrite::FactorialOne,
        },
        Rule {
            id: RuleId(222),
            name: "factorial_recurse",
            category: RuleCategory::Expansion,
            description: "n! = n · (n-1)!",
            domains: Vec::new(),
            requires: Vec::new(),
            reversible: true,
            cost: 2,
            rewrite: Rewrite::FactorialRecurse,
        },
    ];
    assert(ids_of(part@) =~= seq![220u32, 221u32, 222u32]);
    assert(names_of(part@) =~= seq!["factorial_zero"@, "factorial_one"@, "factorial_recurse"@]);
    assert(rules_view(part@) =~~= factorial_rules_meta());
    let ghost before = rules@;
    rules.append(&mut part);
    proof {
        crate::rule::lemma_ids_names_append(before, part@);
    }
    assert(ids_of(rules@) =~= factorial_rules_ids());
    assert(names_of(rules@) =~= factorial_rules_names());
    assert(rules_view(rules@) =~= factorial_rules_meta());
    rules
}

/// Identifiers of the rules of [`floor_ceiling_rules`], in order.
pub open spec fn floor_ceiling_rules_ids() -> Seq<u32> {
    seq![240u32, 241u32, 242u32]
}

/// Names of the rules of [`floor_ceiling_rules`], in order.
pub open spec fn floor_ceiling_rules_names() -> Seq<Seq<char>> {
    seq!["floor_integer"@, "ceiling_integer"@, "floor_ceiling_diff"@]
}

/// Metadata of the rules of [`floor_ceiling_rules`], in order.
pub open spec fn floor_ceiling_rules_meta() -> Seq<RuleMeta> {
    seq![
        (240u32, "floor_integer"@, RuleCategory::Simplification, "⌊n⌋ = n for integer n"@, Seq::<Domain>::empty(), Seq::<Feature>::empty(), false, 1u32, Rewrite::FloorInteger),
        (241u32, "ceiling_integer"@, RuleCategory::Simplification, "⌈n⌉ = n for integer n"@, Seq::<Domain>::empty(), Seq::<Feature>::empty(), false, 1u32, Rewrite::CeilingInteger),
        (242u32, "floor_ceiling_diff"@, RuleCategory::AlgebraicSolving, "⌈x⌉ - ⌊x⌋ = 0 or 1"@, Seq::<Domain>::empty(), Seq::<Feature>::empty(), false, 2u32, Rewrite::FloorCeilingDiff),
    ]
}

/// The rules of this group, in registration order.
fn floor_ceiling_rules() -> (rules: Vec<Rule>)
    ensures
        ids_of(rules@) == floor_ceiling_rules_ids(),
        names_of(rules@) == floor_ceiling_rules_names(),
        rules_view(rules@) == floor_ceiling_rules_meta(),
{
    let mut rules: Vec<Rule> = Vec::new();
    let mut part: Vec<Rule> = vec![
        Rule {
            id: RuleId(240),
            name: "floor_integer",
            category: RuleCategory::Simplification,
            description: "⌊n⌋ = n for integer n",
            domains: Vec::new(),
            requires: Vec::new(),
            reversible: false,
            cost: 1,
            rewrite: Rewrite::FloorInteger,
        },
        Rule {
            id: RuleId(241),
            name: "ceiling_integer",
            category: RuleCategory::Simplification,
            description: "⌈n⌉ = n for integer n",
            domains: Vec::new(),
            requires: Vec::new(),
            reversible: false,
            cost: 1,
            rewrite: Rewrite::CeilingInteger,
        },
        Rule {
            id: RuleId(242),
            name: "floor_ceiling_diff",
            category: RuleCategory::AlgebraicSolving,
            description: "⌈x⌉ - ⌊x⌋ = 0 or 1",
            domains: Vec::new(),
            requires: Vec::new(),
            reversible: false,
            cost: 2,
            rewrite: Rewrite::FloorCeilingDiff,
        },
    ];
    assert(ids_of(part@) =~= seq![240u32, 241u32, 242u32]);
    assert(names_of(part@) =~= seq!["floor_integer"@, "ceiling_integer"@, "floor_ceiling_diff"@]);
    assert(rules_view(part@) =~~= floor_ceiling_rules_meta());
    let ghost before = rules@;
    rules.append(&mut part);
    proof {
        crate::rule::lemma_ids_names_append(before, part@);
    }
    assert(ids_of(rules@) =~= floor_ceiling_rules_ids());
    assert(names_of(rules@) =~= floor_ceiling_rules_names());
    assert(rules_view(rules@) =~= floor_ceiling_rules_meta());
    rules
}

/// Identifiers of the rules of [`advanced_number_theory_rules`], in order.
pub open spec fn advanced_number_theory_rules_ids() -> Seq<u32> {
    seq![700u32, 701u32, 702u32, 703u32, 704u32, 705u32, 706u32, 707u32, 708u32, 709u32, 710u32, 711u32, 712u32, 713u32, 714u32, 715u32, 716u32, 717u32, 718u32, 719u32, 720u32, 721u32, 722u32, 723u32, 724u32, 725u32, 726u32, 727u32, 728u32, 729u32, 730u32, 731u32, 732u32, 733u32, 734u32, 735u32, 736u32, 737u32, 738u32, 739u32, 740u32, 741u32, 742u32, 743u32, 744u32]
}

/// Names of the rules of [`advanced_number_theory_rules`], in order.
pub open spec fn advanced_number_theory_rules_names() -> Seq<Seq<char>> {
    seq!["fermat_little_theorem"@, "fermat_last_theorem"@, "euler_theorem"@, "euler_phi_multiplicative"@, "euler_phi_prime_power"@, "chinese_remainder_theorem"@, "quadratic_residue"@, "legendre_symbol_multiplicative"@, "euler_criterion"@, "prime_counting_approx"@, "bertrand_postulate"@, "linear_diophantine"@, "pell_equation"@, "sum_of_two_squares"@, "sum_of_four_squares"@, "wilson_theorem"@, "hensel_lemma"@, "order_divides_phi"@, "primitive_root_existence"@, "legendre_formula"@, "lucas_theorem"@, "mobius_inversion"@, "mobius_multiplicative"@, "chebyshev_prime_bounds"@, "even_perfect_number"@, "mersenne_prime_condition"@, "sum_of_divisors"@, "number_of_divisors"@, "totient_sum"@, "primitive_root_count"@, "carmichael_function"@, "square_free_density"@, "prime_gap_bound"@, "sophie_germain_prime"@, "quadratic_reciprocity"@, "jacobi_symbol"@, "kronecker_symbol"@, "tonelli_shanks"@, "discrete_log_order"@, "continued_fraction_gcd"@, "farey_neighbors"@, "stern_brocot"@, "egyptian_fraction"@, "gaussian_norm"@, "gaussian_prime"@]
}

/// Metadata of the rules of [`advanced_number_theory_rules`], in order.
pub open spec fn advanced_number_theory_rules_meta() -> Seq<RuleMeta> {
    seq![
        (700u32, "fermat_little_theorem"@, RuleCategory::Simplification, "a^(p-1) ≡ 1 (mod p)"@, Seq::<Domain>::empty(), Seq::<Feature>::empty(), false, 2u32, Rewrite::FermatLittleTheorem),
        (701u32, "fermat_last_theorem"@, RuleCategory::AlgebraicSolving, "No integer solutions to x^n + y^n = z^n for n > 2"@, Seq::<Domain>::empty(), Seq::<Feature>::empty(), false, 1u32, Rewrite::FermatLastTheorem),
        (702u32, "euler_theorem"@, RuleCategory::Simplification, "a^φ(n) ≡ 1 (mod n)"@, Seq::<Domain>::empty(), Seq::<Feature>::empty(), false, 2u32, Rewrite::EulerTheorem),
        (703u32, "euler_phi_multiplicative"@, RuleCategory::Simplification, "φ(mn) = φ(m)φ(n) for gcd(m,n)=1"@, Seq::<Domain>::empty(), Seq::<Feature>::empty(), false, 2u32, Rewrite::EulerPhiMultiplicative),
        (704u32, "euler_phi_prime_power"@, RuleCategory::Simplification, "φ(p^k) = p^k - p^(k-1)"@, Seq::<Domain>::empty(), Seq::<Feature>::empty(), false, 2u32, Rewrite::EulerPhiPrimePower),
        (705u32, "chinese_remainder_theorem"@, RuleCategory::EquationSolving, "CRT: x ≡ a_i (mod m_i) has unique solution mod Π m_i"@, Seq::<Domain>::empty(), Seq::<Feature>::empty(), false, 3u32, Rewrite::ChineseRemainderTheorem),
        (706u32, "quadratic_residue"@, RuleCategory::AlgebraicSolving, "Quadratic residue test"@, Seq::<Domain>::empty(), Seq::<Feature>::empty(), false, 2u32, Rewrite::QuadraticResidue),
        (707u32, "legendre_symbol_multiplicative"@, RuleCategory::Simplification, "(ab/p) = (a/p)(b/p)"@, Seq::<Domain>::empty(), Seq::<Feature>::empty(), false, 1u32, Rewrite::LegendreSymbolMultiplicative),
        (708u32, "euler_criterion"@, RuleCategory::Simplification, "(a/p) = a^((p-1)/2) mod p"@, Seq::<Domain>::empty(), Seq::<Feature>::empty(), false, 2u32, Rewrite::EulerCriterion),
        (709u32, "prime_counting_approx"@, RuleCategory::Simplification, "π(x) ~ x/ln(x)"@, Seq::<Domain>::empty(), Seq::<Feature>::empty(), false, 2u32, Rewrite::PrimeCountingApprox),
        (710u32, "bertrand_postulate"@, RuleCategory::AlgebraicSolving, "Prime exists between n and 2n"@, Seq::<Domain>::empty(), Seq::<Feature>::empty(), false, 1u32, Rewrite::BertrandPostulate),
        (711u32, "linear_diophantine"@, RuleCategory::EquationSolving, "ax + by = c solvable iff gcd(a,b) | c"@, Seq::<Domain>::empty(), Seq::<Feature>::empty(), false, 2u32, Rewrite::LinearDiophantine),
        (712u32, "pell_equation"@, RuleCategory::EquationSolving, "Pell equation x² - Dy² = 1"@, Seq::<Domain>::empty(), Seq::<Feature>::empty(), false, 3u32, Rewrite::PellEquation),
        (713u32, "sum_of_two_squares"@, RuleCategory::AlgebraicSolving, "Sum of two squares condition"@, Seq::<Domain>::empty(), Seq::<Feature>::empty(), false, 3u32, Rewrite::SumOfTwoSquares),
        (714u32, "sum_of_four_squares"@, RuleCategory::AlgebraicSolving, "Every n = a² + b² + c² + d²"@, Seq::<Domain>::empty(), Seq::<Feature>::empty(), false, 2u32, Rewrite::SumOfFourSquares),
        (715u32, "wilson_theorem"@, RuleCategory::Simplification, "(p-1)! ≡ -1 (mod p)"@, Seq::<Domain>::empty(), Seq::<Feature>::empty(), false, 2u32, Rewrite::WilsonTheorem),
        (716u32, "hensel_lemma"@, RuleCategory::EquationSolving, "Hensel's lemma for lifting solutions"@, Seq::<Domain>::empty(), Seq::<Feature>::empty(), false, 4u32, Rewrite::HenselLemma),
        (717u32, "order_divides_phi"@, RuleCategory::Simplification, "ord_n(a) | φ(n)"@, Seq::<Domain>::empty(), Seq::<Feature>::empty(), false, 2u32, Rewrite::OrderDividesPhi),
        (718u32, "primitive_root_existence"@, RuleCategory::AlgebraicSolving, "Primitive roots exist for n = 1,2,4,p^k,2p^k"@, Seq::<Domain>::empty(), Seq::<Feature>::empty(), false, 2u32, Rewrite::PrimitiveRootExistence),
        (719u32, "legendre_formula"@, RuleCategory::Simplification, "ν_p(n!) = Σ⌊n/p^k⌋"@, Seq::<Domain>::empty(), Seq::<Feature>::empty(), false, 2u32, Rewrite::LegendreFormula),
        (720u32, "lucas_theorem"@, RuleCategory::Simplification, "Lucas' theorem for binomials mod p"@, Seq::<Domain>::empty(), Seq::<Feature>::empty(), false, 3u32, Rewrite::LucasTheorem),
        (721u32, "mobius_inversion"@, RuleCategory::Simplification, "Möbius inversion formula"@, Seq::<Domain>::empty(), Seq::<Feature>::empty(), false, 3u32, Rewrite::MobiusInversion),
        (722u32, "mobius_multiplicative"@, RuleCategory::Simplification, "μ(mn) = μ(m)μ(n) for gcd(m,n)=1"@, Seq::<Domain>::empty(), Seq::<Feature>::empty(), false, 1u32, Rewrite::MobiusMultiplicative),
        (723u32, "chebyshev_prime_bounds"@, RuleCategory::AlgebraicSolving, "Chebyshev bounds on π(x)"@, Seq::<Domain>::empty(), Seq::<Feature>::empty(), false, 2u32, Rewrite::NtChebyshevPrimeBounds),
        (724u32, "even_perfect_number"@, RuleCategory::AlgebraicSolving, "Even perfect = 2^(p-1)(2^p - 1)"@, Seq::<Domain>::empty(), Seq::<Feature>::empty(), false, 2u32, Rewrite::EvenPerfectNumber),
        (725u32, "mersenne_prime_condition"@, RuleCategory::AlgebraicSolving, "2^p - 1 prime => p prime"@, Seq::<Domain>::empty(), Seq::<Feature>::empty(), false, 1u32, Rewrite::MersennePrimeCondition),
        (726u32, "sum_of_divisors"@, RuleCategory::Simplification, "σ(n) = Σ d for d|n"@, Seq::<Domain>::empty(), Seq::<Feature>::empty(), false, 2u32, Rewrite::SumOfDivisors),
        (727u32, "number_of_divisors"@, RuleCategory::Simplification, "τ(n) is number of divisors"@, Seq::<Domain>::empty(), Seq::<Feature>::empty(), false, 1u32, Rewrite::NumberOfDivisors),
        (728u32, "totient_sum"@, RuleCategory::Simplification, "Σ φ(d) = n for d|n"@, Seq::<Domain>::empty(), Seq::<Feature>::empty(), false, 2u32, Rewrite::NtTotientSum),
        (729u32, "primitive_root_count"@, RuleCategory::Simplification, "φ(φ(n)) primitive roots mod n"@, Seq::<Domain>::empty(), Seq::<Feature>::empty(), false, 2u32, Rewrite::NtPrimitiveRootCount),
        (730u32, "carmichael_function"@, RuleCategory::Simplification, "Carmichael function λ(n)"@, Seq::<Domain>::empty(), Seq::<Feature>::empty(), false, 2u32, Rewrite::NtCarmichaelFunction),
        (731u32, "square_free_density"@, RuleCategory::Simplification, "Square-free density = 6/π²"@, Seq::<Domain>::empty(), Seq::<Feature>::empty(), false, 2u32, Rewrite::SquareFreeDensity),
        (732u32, "prime_gap_bound"@, RuleCategory::AlgebraicSolving, "Prime gap upper bounds"@, Seq::<Domain>::empty(), Seq::<Feature>::empty(), false, 3u32, Rewrite::NtPrimeGapBound),
        (733u32, "sophie_germain_prime"@, RuleCategory::AlgebraicSolving, "Sophie Germain: p and 2p+1 both prime"@, Seq::<Domain>::empty(), Seq::<Feature>::empty(), false, 2u32, Rewrite::SophieGermainPrime),
        (734u32, "quadratic_reciprocity"@, RuleCategory::Simplification, "Quadratic reciprocity law"@, Seq::<Domain>::empty(), Seq::<Feature>::empty(), false, 2u32, Rewrite::NtQuadraticReciprocity),
        (735u32, "jacobi_symbol"@, RuleCategory::Simplification, "Jacobi symbol (a/n)"@, Seq::<Domain>::empty(), Seq::<Feature>::empty(), false, 2u32, Rewrite::NtJacobiSymbol),
        (736u32, "kronecker_symbol"@, RuleCategory::Simplification, "Kronecker symbol extension"@, Seq::<Domain>::empty(), Seq::<Feature>::empty(), false, 2u32, Rewrite::NtKroneckerSymbol),
        (737u32, "tonelli_shanks"@, RuleCategory::EquationSolving, "Tonelli-Shanks modular square root"@, Seq::<Domain>::empty(), Seq::<Feature>::empty(), false, 4u32, Rewrite::NtTonelliShanks),
        (738u32, "discrete_log_order"@, RuleCategory::EquationSolving, "Discrete logarithm order"@, Seq::<Domain>::empty(), Seq::<Feature>::empty(), false, 3u32, Rewrite::NtDiscreteLogOrder),
        (739u32, "continued_fraction_gcd"@, RuleCategory::Simplification, "GCD via continued fractions"@, Seq::<Domain>::empty(), Seq::<Feature>::empty(), false, 3u32, Rewrite::NtContinuedFractionGcd),
        (740u32, "farey_neighbors"@, RuleCategory::AlgebraicSolving, "Farey neighbors: |ad - bc| = 1"@, Seq::<Domain>::empty(), Seq::<Feature>::empty(), false, 2u32, Rewrite::FareyNeighbors),
        (741u32, "stern_brocot"@, RuleCategory::Simplification, "Stern-Brocot tree mediant"@, Seq::<Domain>::empty(), Seq::<Feature>::empty(), false, 2u32, Rewrite::NtSternBrocot),
        (742u32, "egyptian_fraction"@, RuleCategory::Expansion, "Egyptian fraction decomposition"@, Seq::<Domain>::empty(), Seq::<Feature>::empty(), false, 3u32, Rewrite::NtEgyptianFraction),
        (743u32, "gaussian_norm"@, RuleCategory::Simplification, "Gaussian integer norm N(a+bi) = a² + b²"@, Seq::<Domain>::empty(), Seq::<Feature>::empty(), false, 1u32, Rewrite::GaussianNorm),
        (744u32, "gaussian_prime"@, RuleCategory::AlgebraicSolving, "Gaussian prime conditions"@, Seq::<Domain>::empty(), Seq::<Feature>::empty(), false, 2u32, Rewrite::NtGaussianPrime),
    ]
}

/// The rules of this group, in registration order.
pub fn advanced_number_theory_rules() -> (rules: Vec<Rule>)
    ensures
        ids_of(rules@) == advanced_number_theory_rules_ids(),
        names_of(rules@) == advanced_number_theory_rules_names(),
        rules_view(rules@) == advanced_number_theory_rules_meta(),
{
    let mut rules: Vec<Rule> = Vec::new();
    let mut part: Vec<Rule> = vec![
        fermat_little_theorem(),
        fermat_last_theorem(),
        euler_theorem(),
        euler_phi_multiplicative(),
        euler_phi_prime_power(),
        chinese_remainder_theorem(),
        quadratic_residue(),
        legendre_symbol_multiplicative(),
        euler_criterion(),
        prime_counting_approx(),
        bertrand_postulate(),
        linear_diophantine(),
        pell_equation(),
        sum_of_two_squares(),
        sum_of_four_squares(),
        wilson_theorem(),
        hensel_lemma(),
        order_divides_phi(),
        primitive_root_existence(),
        legendre_formula(),
        lucas_theorem(),
        mobius_inversion(),
        mobius_multiplicative(),
        chebyshev_prime_bounds(),
        even_perfect_number(),
        mersenne_prime_condition(),
        sum_of_divisors(),
        number_of_divisors(),
        totient_sum(),
        primitive_root_count(),
        carmichael_function(),
        square_free_density(),
        prime_gap_bound(),
        sophie_germain_prime(),
        quadratic_reciprocity(),
        jacobi_symbol(),
        kronecker_symbol(),
        tonelli_shanks(),
        discrete_log_order(),
        continued_fraction_gcd(),
        farey_neighbors(),
        stern_brocot(),
        egyptian_fraction(),
        gaussian_norm(),
        gaussian_prime(),
    ];
    assert(ids_of(part@) =~= seq![700u32, 701u32, 702u32, 703u32, 704u32, 705u32, 706u32, 707u32, 708u32, 709u32, 710u32, 711u32, 712u32, 713u32, 714u32, 715u32, 716u32, 717u32, 718u32, 719u32, 720u32, 721u32, 722u32, 723u32, 724u32, 725u32, 726u32, 727u32, 728u32, 729u32, 730u32, 731u32, 732u32, 733u32, 734u32, 735u32, 736u32, 737u32, 738u32, 739u32, 740u32, 741u32, 742u32, 743u32, 744u32]);
    assert(names_of(part@) =~= seq!["fermat_little_theorem"@, "fermat_last_theorem"@, "euler_theorem"@, "euler_phi_multiplicative"@, "euler_phi_prime_power"@, "chinese_remainder_theorem"@, "quadratic_residue"@, "legendre_symbol_multiplicative"@, "euler_criterion"@, "prime_counting_approx"@, "bertrand_postulate"@, "linear_diophantine"@, "pell_equation"@, "sum_of_two_squares"@, "sum_of_four_squares"@, "wilson_theorem"@, "hensel_lemma"@, "order_divides_phi"@, "primitive_root_existence"@, "legendre_formula"@, "lucas_theorem"@, "mobius_inversion"@, "mobius_multiplicative"@, "chebyshev_prime_bounds"@, "even_perfect_number"@, "mersenne_prime_condition"@, "sum_of_divisors"@, "number_of_divisors"@, "totient_sum"@, "primitive_root_count"@, "carmichael_function"@, "square_free_density"@, "prime_gap_bound"@, "sophie_germain_prime"@, "quadratic_reciprocity"@, "jacobi_symbol"@, "kronecker_symbol"@, "tonelli_shanks"@, "discrete_log_order"@, "continued_fraction_gcd"@, "farey_neighbors"@, "stern_brocot"@, "egyptian_fraction"@, "gaussian_norm"@, "gaussian_prime"@]);
    assert(rules_view(part@) =~~= advanced_number_theory_rules_meta());
    let ghost before = rules@;
    rules.append(&mut part);
    proof {
        crate::rule::lemma_ids_names_append(before, part@);
    }
    assert(ids_of(rules@) =~= advanced_number_theory_rules_ids());
    assert(names_of(rules@) =~= advanced_number_theory_rules_names());
    assert(rules_view(rules@) =~= advanced_number_theory_rules_meta());
    rules
}

/// Identifiers of the rules of [`number_theory_rules`], in order.
pub open spec fn number_theory_rules_ids() -> Seq<u32> {
    divisibility_rules_ids() + modular_rules_ids() + gcd_lcm_rules_ids() + perfect_power_rules_ids() + parity_rules_ids() + sum_formulas_ids() + factorial_rules_ids() + floor_ceiling_rules_ids() + advanced_number_theory_rules_ids()
}

/// Names of the rules of [`number_theory_rules`], in order.
pub open spec fn number_theory_rules_names() -> Seq<Seq<char>> {
    divisibility_rules_names() + modular_rules_names() + gcd_lcm_rules_names() + perfect_power_rules_names() + parity_rules_names() + sum_formulas_names() + factorial_rules_names() + floor_ceiling_rules_names() + advanced_number_theory_rules_names()
}

/// Metadata of the rules of [`number_theory_rules`], in order.
pub open spec fn number_theory_rules_meta() -> Seq<RuleMeta> {
    divisibility_rules_meta() + modular_rules_meta() + gcd_lcm_rules_meta() + perfect_power_rules_meta() + parity_rules_meta() + sum_formulas_meta() + factorial_rules_meta() + floor_ceiling_rules_meta() + advanced_number_theory_rules_meta()
}

/// The rules of this group, in registration order.
pub fn number_theory_rules() -> (rules: Vec<Rule>)
    ensures
        ids_of(rules@) == number_theory_rules_ids(),
        names_of(rules@) == number_theory_rules_names(),
        rules_view(rules@) == number_theory_rules_meta(),
{
    let mut rules: Vec<Rule> = Vec::new();
    let mut part = divisibility_rules();
    let ghost before = rules@;
    rules.append(&mut part);
    proof {
        crate::rule::lemma_ids_names_append(before, part@);
    }
    let mut part = modular_rules();
    let ghost before = rules@;
    rules.append(&mut part);
    proof {
        crate::rule::lemma_ids_names_append(before, part@);
    }
    let mut part = gcd_lcm_rules();
    let ghost before = rules@;
    rules.append(&mut part);
    proof {
        crate::rule::lemma_ids_names_append(before, part@);
    }
    let mut part = perfect_power_rules();
    let ghost before = rules@;
    rules.append(&mut part);
    proof {
        crate::rule::lemma_ids_names_append(before, part@);
    }
    let mut part = parity_rules();
    let ghost before = rules@;
    rules.append(&mut part);
    proof {
        crate::rule::lemma_ids_names_append(before, part@);
    }
    let mut part = sum_formulas();
    let ghost before = rules@;
    rules.append(&mut part);
    proof {
        crate::rule::lemma_ids_names_append(before, part@);
    }
    let mut part = factorial_rules();
    let ghost before = rules@;
    rules.append(&mut part);
    proof {
        crate::rule::lemma_ids_names_append(before, part@);
    }
    let mut part = floor_ceiling_rules();
    let ghost before = rules@;
    rules.append(&mut part);
    proof {
        crate::rule::lemma_ids_names_append(before, part@);
    }
    let mut part = advanced_number_theory_rules();
    let ghost before = rules@;
    rules.append(&mut part);
    proof {
        crate::rule::lemma_ids_names_append(before, part@);
    }
    assert(ids_of(rules@) =~= number_theory_rules_ids());
    assert(names_of(rules@) =~= number_theory_rules_names());
    assert(rules_view(rules@) =~= number_theory_rules_meta());
    rules
}

/// The rule `fermat_little_theorem`: a^(p-1) ≡ 1 (mod p).
pub fn fermat_little_theorem() -> (r: Rule)
    ensures
        rule_view(r) == (700u32, "fermat_little_theorem"@, RuleCategory::Simplification, "a^(p-1) ≡ 1 (mod p)"@, Seq::<Domain>::empty(), Seq::<Feature>::empty(), false, 2u32, Rewrite::FermatLittleTheorem),
{
    Rule {
        id: RuleId(700),
        name: "fermat_little_theorem",
        category: RuleCategory::Simplification,
        description: "a^(p-1) ≡ 1 (mod p)",
        domains: Vec::new(),
        requires: Vec::new(),
        reversible: false,
        cost: 2,
        rewrite: Rewrite::FermatLittleTheorem,
    }
}

/// The rule `fermat_last_theorem`: No integer solutions to x^n + y^n = z^n for n > 2.
pub fn fermat_last_theorem() -> (r: Rule)
    ensures
        rule_view(r) == (701u32, "fermat_last_theorem"@, RuleCategory::AlgebraicSolving, "No integer solutions to x^n + y^n = z^n for n > 2"@, Seq::<Domain>::empty(), Seq::<Feature>::empty(), false, 1u32, Rewrite::FermatLastTheorem),
{
    Rule {
        id: RuleId(701),
        name: "fermat_last_theorem",
        category: RuleCategory::AlgebraicSolving,
        description: "No integer solutions to x^n + y^n = z^n for n > 2",
        domains: Vec::new(),
        requires: Vec::new(),
        reversible: false,
        cost: 1,
        rewrite: Rewrite::FermatLastTheorem,
    }
}

/// The rule `euler_theorem`: a^φ(n) ≡ 1 (mod n).
pub fn euler_theorem() -> (r: Rule)
    ensures
        rule_view(r) == (702u32, "euler_theorem"@, RuleCategory::Simplification, "a^φ(n) ≡ 1 (mod n)"@, Seq::<Domain>::empty(), Seq::<Feature>::empty(), false, 2u32, Rewrite::EulerTheorem),
{
    Rule {
        id: RuleId(702),
        name: "euler_theorem",
        category: RuleCategory::Simplification,
        description: "a^φ(n) ≡ 1 (mod n)",
        domains: Vec::new(),
        requires: Vec::new(),
        reversible: false,
        cost: 2,
        rewrite: Rewrite::EulerTheorem,
    }
}

/// The rule `euler_phi_multiplicative`: φ(mn) = φ(m)φ(n) for gcd(m,n)=1.
pub fn euler_phi_multiplicative() -> (r: Rule)
    ensures
        rule_view(r) == (703u32, "euler_phi_multiplicative"@, RuleCategory::Simplification, "φ(mn) = φ(m)φ(n) for gcd(m,n)=1"@, Seq::<Domain>::empty(), Seq::<Feature>::empty(), false, 2u32, Rewrite::EulerPhiMultiplicative),
{
    Rule {
        id: RuleId(703),
        name: "euler_phi_multiplicative",
        category: RuleCategory::Simplification,
        description: "φ(mn) = φ(m)φ(n) for gcd(m,n)=1",
        domains: Vec::new(),
        requires: Vec::new(),
        reversible: false,
        cost: 2,
        rewrite: Rewrite::EulerPhiMultiplicative,
    }
}

/// The rule `euler_phi_prime_power`: φ(p^k) = p^k - p^(k-1).
pub fn euler_phi_prime_power() -> (r: Rule)
    ensures
        rule_view(r) == (704u32, "euler_phi_prime_power"@, RuleCategory::Simplification, "φ(p^k) = p^k - p^(k-1)"@, Seq::<Domain>::empty(), Seq::<Feature>::empty(), false, 2u32, Rewrite::EulerPhiPrimePower),
{
    Rule {
        id: RuleId(704),
        name: "euler_phi_prime_power",
        category: RuleCategory::Simplification,
        description: "φ(p^k) = p^k - p^(k-1)",
        domains: Vec::new(),
        requires: Vec::new(),
        reversible: false,
        cost: 2,
        rewrite: Rewrite::EulerPhiPrimePower,
    }
}

/// The rule `chinese_remainder_theorem`: CRT: x ≡ a_i (mod m_i) has unique solution mod Π m_i.
pub fn chinese_remainder_theorem() -> (r: Rule)
    ensures
        rule_view(r) == (705u32, "chinese_remainder_theorem"@, RuleCategory::EquationSolving, "CRT: x ≡ a_i (mod m_i) has unique solution mod Π m_i"@, Seq::<Domain>::empty(), Seq::<Feature>::empty(), false, 3u32, Rewrite::ChineseRemainderTheorem),
{
    Rule {
        id: RuleId(705),
        name: "chinese_remainder_theorem",
        category: RuleCategory::EquationSolving,
        description: "CRT: x ≡ a_i (mod m_i) has unique solution mod Π m_i",
        domains: Vec::new(),
        requires: Vec::new(),
        reversible: false,
        cost: 3,
        rewrite: Rewrite::ChineseRemainderTheorem,
    }
}

/// The rule `quadratic_residue`: Quadratic residue test.
pub fn quadratic_residue() -> (r: Rule)
    ensures
        rule_view(r) == (706u32, "quadratic_residue"@, RuleCategory::AlgebraicSolving, "Quadratic residue test"@, Seq::<Domain>::empty(), Seq::<Feature>::empty(), false, 2u32, Rewrite::QuadraticResidue),
{
    Rule {
        id: RuleId(706),
        name: "quadratic_residue",
        category: RuleCategory::AlgebraicSolving,
        description: "Quadratic residue test",
        domains: Vec::new(),
        requires: Vec::new(),
        reversible: false,
        cost: 2,
        rewrite: Rewrite::QuadraticResidue,
    }
}

/// The rule `legendre_symbol_multiplicative`: (ab/p) = (a/p)(b/p).
pub fn legendre_symbol_multiplicative() -> (r: Rule)
    ensures
        rule_view(r) == (707u32, "legendre_symbol_multiplicative"@, RuleCategory::Simplification, "(ab/p) = (a/p)(b/p)"@, Seq::<Domain>::empty(), Seq::<Feature>::empty(), false, 1u32, Rewrite::LegendreSymbolMultiplicative),
{
    Rule {
        id: RuleId(707),
        name: "legendre_symbol_multiplicative",
        category: RuleCategory::Simplification,
        description: "(ab/p) = (a/p)(b/p)",
        domains: Vec::new(),
        requires: Vec::new(),
        reversible: false,
        cost: 1,
        rewrite: Rewrite::LegendreSymbolMultiplicative,
    }
}

/// The rule `euler_criterion`: (a/p) = a^((p-1)/2) mod p.
pub fn euler_criterion() -> (r: Rule)
    ensures
        rule_view(r) == (708u32, "euler_criterion"@, RuleCategory::Simplification, "(a/p) = a^((p-1)/2) mod p"@, Seq::<Domain>::empty(), Seq::<Feature>::empty(), false, 2u32, Rewrite::EulerCriterion),
{
    Rule {
        id: RuleId(708),
        name: "euler_criterion",
        category: RuleCategory::Simplification,
        description: "(a/p) = a^((p-1)/2) mod p",
        domains: Vec::new(),
        requires: Vec::new(),
        reversible: false,
        cost: 2,
        rewrite: Rewrite::EulerCriterion,
    }
}

/// The rule `prime_counting_approx`: π(x) ~ x/ln(x).
pub fn prime_counting_approx() -> (r: Rule)
    ensures
        rule_view(r) == (709u32, "prime_counting_approx"@, RuleCategory::Simplification, "π(x) ~ x/ln(x)"@, Seq::<Domain>::empty(), Seq::<Feature>::empty(), false, 2u32, Rewrite::PrimeCountingApprox),
{
    Rule {
        id: RuleId(709),
        name: "prime_counting_approx",
        category: RuleCategory::Simplification,
        description: "π(x) ~ x/ln(x)",
        domains: Vec::new(),
        requires: Vec::new(),
        reversible: false,
        cost: 2,
        rewrite: Rewrite::PrimeCountingApprox,
    }
}

/// The rule `bertrand_postulate`: Prime exists between n and 2n.
pub fn bertrand_postulate() -> (r: Rule)
    ensures
        rule_view(r) == (710u32, "bertrand_postulate"@, RuleCategory::AlgebraicSolving, "Prime exists between n and 2n"@, Seq::<Domain>::empty(), Seq::<Feature>::empty(), false, 1u32, Rewrite::BertrandPostulate),
{
    Rule {
        id: RuleId(710),
        name: "bertrand_postulate",
        category: RuleCategory::AlgebraicSolving,
        description: "Prime exists between n and 2n",
        domains: Vec::new(),
        requires: Vec::new(),
        reversible: false,
        cost: 1,
        rewrite: Rewrite::BertrandPostulate,
    }
}

/// The rule `linear_diophantine`: ax + by = c solvable iff gcd(a,b) | c.
pub fn linear_diophantine() -> (r: Rule)
    ensures
        rule_view(r) == (711u32, "linear_diophantine"@, RuleCategory::EquationSolving, "ax + by = c solvable iff gcd(a,b) | c"@, Seq::<Domain>::empty(), Seq::<Feature>::empty(), false, 2u32, Rewrite::LinearDiophantine),
{
    Rule {
        id: RuleId(711),
        name: "linear_diophantine",
        category: RuleCategory::EquationSolving,
        description: "ax + by = c solvable iff gcd(a,b) | c",
        domains: Vec::new(),
        requires: Vec::new(),
        reversible: false,
        cost: 2,
        rewrite: Rewrite::LinearDiophantine,
    }
}

/// The rule `pell_equation`: Pell equation x² - Dy² = 1.
pub fn pell_equation() -> (r: Rule)
    ensures
        rule_view(r) == (712u32, "pell_equation"@, RuleCategory::EquationSolving, "Pell equation x² - Dy² = 1"@, Seq::<Domain>::empty(), Seq::<Feature>::empty(), false, 3u32, Rewrite::PellEquation),
{
    Rule {
        id: RuleId(712),
        name: "pell_equation",
        category: RuleCategory::EquationSolving,
        description: "Pell equation x² - Dy² = 1",
        domains: Vec::new(),
        requires: Vec::new(),
        reversible: false,
        cost: 3,
        rewrite: Rewrite::PellEquation,
    }
}

/// The rule `sum_of_two_squares`: Sum of two squares condition.
pub fn sum_of_two_squares() -> (r: Rule)
    ensures
        rule_view(r) == (713u32, "sum_of_two_squares"@, RuleCategory::AlgebraicSolving, "Sum of two squares condition"@, Seq::<Domain>::empty(), Seq::<Feature>::empty(), false, 3u32, Rewrite::SumOfTwoSquares),
{
    Rule {
        id: RuleId(713),
        name: "sum_of_two_squares",
        category: RuleCategory::AlgebraicSolving,
        description: "Sum of two squares condition",
        domains: Vec::new(),
        requires: Vec::new(),
        reversible: false,
        cost: 3,
        rewrite: Rewrite::SumOfTwoSquares,
    }
}

/// The rule `sum_of_four_squares`: Every n = a² + b² + c² + d².
pub fn sum_of_four_squares() -> (r: Rule)
    ensures
        rule_view(r) == (714u32, "sum_of_four_squares"@, RuleCategory::AlgebraicSolving, "Every n = a² + b² + c² + d²"@, Seq::<Domain>::empty(), Seq::<Feature>::empty(), false, 2u32, Rewrite::SumOfFourSquares),
{
    Rule {
        id: RuleId(714),
        name: "sum_of_four_squares",
        category: RuleCategory::AlgebraicSolving,
        description: "Every n = a² + b² + c² + d²",
        domains: Vec::new(),
        requires: Vec::new(),
        reversible: false,
        cost: 2,
        rewrite: Rewrite::SumOfFourSquares,
    }
}

/// The rule `wilson_theorem`: (p-1)! ≡ -1 (mod p).
pub fn wilson_theorem() -> (r: Rule)
    ensures
        rule_view(r) == (715u32, "wilson_theorem"@, RuleCategory::Simplification, "(p-1)! ≡ -1 (mod p)"@, Seq::<Domain>::empty(), Seq::<Feature>::empty(), false, 2u32, Rewrite::WilsonTheorem),
{
    Rule {
        id: RuleId(715),
        name: "wilson_theorem",
        category: RuleCategory::Simplification,
        description: "(p-1)! ≡ -1 (mod p)",
        domains: Vec::new(),
        requires: Vec::new(),
        reversible: false,
        cost: 2,
        rewrite: Rewrite::WilsonTheorem,
    }
}

/// The rule `hensel_lemma`: Hensel's lemma for lifting solutions.
pub fn hensel_lemma() -> (r: Rule)
    ensures
        rule_view(r) == (716u32, "hensel_lemma"@, RuleCategory::EquationSolving, "Hensel's lemma for lifting solutions"@, Seq::<Domain>::empty(), Seq::<Feature>::empty(), false, 4u32, Rewrite::HenselLemma),
{
    Rule {
        id: RuleId(716),
        name: "hensel_lemma",
        category: RuleCategory::EquationSolving,
        description: "Hensel's lemma for lifting solutions",
        domains: Vec::new(),
        requires: Vec::new(),
        reversible: false,
        cost: 4,
        rewrite: Rewrite::HenselLemma,
    }
}

/// The rule `order_divides_phi`: ord_n(a) | φ(n).
pub fn order_divides_phi() -> (r: Rule)
    ensures
        rule_view(r) == (717u32, "order_divides_phi"@, RuleCategory::Simplification, "ord_n(a) | φ(n)"@, Seq::<Domain>::empty(), Seq::<Feature>::empty(), false, 2u32, Rewrite::OrderDividesPhi),
{
    Rule {
        id: RuleId(717),
        name: "order_divides_phi",
        category: RuleCategory::Simplification,
        description: "ord_n(a) | φ(n)",
        domains: Vec::new(),
        requires: Vec::new(),
        reversible: false,
        cost: 2,
        rewrite: Rewrite::OrderDividesPhi,
    }
}

/// The rule `primitive_root_existence`: Primitive roots exist for n = 1,2,4,p^k,2p^k.
pub fn primitive_root_existence() -> (r: Rule)
    ensures
        rule_view(r) == (718u32, "primitive_root_existence"@, RuleCategory::AlgebraicSolving, "Primitive roots exist for n = 1,2,4,p^k,2p^k"@, Seq::<Domain>::empty(), Seq::<Feature>::empty(), false, 2u32, Rewrite::PrimitiveRootExistence),
{
    Rule {
        id: RuleId(718),
        name: "primitive_root_existence",
        category: RuleCategory::AlgebraicSolving,
        description: "Primitive roots exist for n = 1,2,4,p^k,2p^k",
        domains: Vec::new(),
        requires: Vec::new(),
        reversible: false,
        cost: 2,
        rewrite: Rewrite::PrimitiveRootExistence,
    }
}

/// The rule `legendre_formula`: ν_p(n!) = Σ⌊n/p^k⌋.
pub fn legendre_formula() -> (r: Rule)
    ensures
        rule_view(r) == (719u32, "legendre_formula"@, RuleCategory::Simplification, "ν_p(n!) = Σ⌊n/p^k⌋"@, Seq::<Domain>::empty(), Seq::<Feature>::empty(), false, 2u32, Rewrite::LegendreFormula),
{
    Rule {
        id: RuleId(719),
        name: "legendre_formula",
        category: RuleCategory::Simplification,
        description: "ν_p(n!) = Σ⌊n/p^k⌋",
        domains: Vec::new(),
        requires: Vec::new(),
        reversible: false,
        cost: 2,
        rewrite: Rewrite::LegendreFormula,
    }
}

/// The rule `lucas_theorem`: Lucas' theorem for binomials mod p.
pub fn lucas_theorem() -> (r: Rule)
    ensures
        rule_view(r) == (720u32, "lucas_theorem"@, RuleCategory::Simplification, "Lucas' theorem for binomials mod p"@, Seq::<Domain>::empty(), Seq::<Feature>::empty(), false, 3u32, Rewrite::LucasTheorem),
{
    Rule {
        id: RuleId(720),
        name: "lucas_theorem",
        category: RuleCategory::Simplification,
        description: "Lucas' theorem for binomials mod p",
        domains: Vec::new(),
        requires: Vec::new(),
        reversible: false,
        cost: 3,
        rewrite: Rewrite::LucasTheorem,
    }
}

/// The rule `mobius_inversion`: Möbius inversion formula.
pub fn mobius_inversion() -> (r: Rule)
    ensures
        rule_view(r) == (721u32, "mobius_inversion"@, RuleCategory::Simplification, "Möbius inversion formula"@, Seq::<Domain>::empty(), Seq::<Feature>::empty(), false, 3u32, Rewrite::MobiusInversion),
{
    Rule {
        id: RuleId(721),
        name: "mobius_inversion",
        category: RuleCategory::Simplification,
        description: "Möbius inversion formula",
        domains: Vec::new(),
        requires: Vec::new(),
        reversible: false,
        cost: 3,
        rewrite: Rewrite::MobiusInversion,
    }
}

/// The rule `mobius_multiplicative`: μ(mn) = μ(m)μ(n) for gcd(m,n)=1.
pub fn mobius_multiplicative() -> (r: Rule)
    ensures
        rule_view(r) == (722u32, "mobius_multiplicative"@, RuleCategory::Simplification, "μ(mn) = μ(m)μ(n) for gcd(m,n)=1"@, Seq::<Domain>::empty(), Seq::<Feature>::empty(), false, 1u32, Rewrite::MobiusMultiplicative),
{
    Rule {
        id: RuleId(722),
        name: "mobius_multiplicative",
        category: RuleCategory::Simplification,
        description: "μ(mn) = μ(m)μ(n) for gcd(m,n)=1",
        domains: Vec::new(),
        requires: Vec::new(),
        reversible: false,
        cost: 1,
        rewrite: Rewrite::MobiusMultiplicative,
    }
}

/// The rule `chebyshev_prime_bounds`: Chebyshev bounds on π(x).
pub fn chebyshev_prime_bounds() -> (r: Rule)
    ensures
        rule_view(r) == (723u32, "chebyshev_prime_bounds"@, RuleCategory::AlgebraicSolving, "Chebyshev bounds on π(x)"@, Seq::<Domain>::empty(), Seq::<Feature>::empty(), false, 2u32, Rewrite::NtChebyshevPrimeBounds),
{
    Rule {
        id: RuleId(723),
        name: "chebyshev_prime_bounds",
        category: RuleCategory::AlgebraicSolving,
        description: "Chebyshev bounds on π(x)",
        domains: Vec::new(),
        requires: Vec::new(),
        reversible: false,
        cost: 2,
        rewrite: Rewrite::NtChebyshevPrimeBounds,
    }
}

/// The rule `even_perfect_number`: Even perfect = 2^(p-1)(2^p - 1).
pub fn even_perfect_number() -> (r: Rule)
    ensures
        rule_view(r) == (724u32, "even_perfect_number"@, RuleCategory::AlgebraicSolving, "Even perfect = 2^(p-1)(2^p - 1)"@, Seq::<Domain>::empty(), Seq::<Feature>::empty(), false, 2u32, Rewrite::EvenPerfectNumber),
{
    Rule {
        id: RuleId(724),
        name: "even_perfect_number",
        category: RuleCategory::AlgebraicSolving,
        description: "Even perfect = 2^(p-1)(2^p - 1)",
        domains: Vec::new(),
        requires: Vec::new(),
        reversible: false,
        cost: 2,
        rewrite: Rewrite::EvenPerfectNumber,
    }
}

/// The rule `mersenne_prime_condition`: 2^p - 1 prime => p prime.
pub fn mersenne_prime_condition() -> (r: Rule)
    ensures
        rule_view(r) == (725u32, "mersenne_prime_condition"@, RuleCategory::AlgebraicSolving, "2^p - 1 prime => p prime"@, Seq::<Domain>::empty(), Seq::<Feature>::empty(), false, 1u32, Rewrite::MersennePrimeCondition),
{
    Rule {
        id: RuleId(725),
        name: "mersenne_prime_condition",
        category: RuleCategory::AlgebraicSolving,
        description: "2^p - 1 prime => p prime",
        domains: Vec::new(),
        requires: Vec::new(),
        reversible: false,
        cost: 1,
        rewrite: Rewrite::MersennePrimeCondition,
    }
}

/// The rule `sum_of_divisors`: σ(n) = Σ d for d|n.
pub fn sum_of_divisors() -> (r: Rule)
    ensures
        rule_view(r) == (726u32, "sum_of_divisors"@, RuleCategory::Simplification, "σ(n) = Σ d for d|n"@, Seq::<Domain>::empty(), Seq::<Feature>::empty(), false, 2u32, Rewrite::SumOfDivisors),
{
    Rule {
        id: RuleId(726),
        name: "sum_of_divisors",
        category: RuleCategory::Simplification,
        description: "σ(n) = Σ d for d|n",
        domains: Vec::new(),
        requires: Vec::new(),
        reversible: false,
        cost: 2,
        rewrite: Rewrite::SumOfDivisors,
    }
}

/// The rule `number_of_divisors`: τ(n) is number of divisors.
pub fn number_of_divisors() -> (r: Rule)
    ensures
        rule_view(r) == (727u32, "number_of_divisors"@, RuleCategory::Simplification, "τ(n) is number of divisors"@, Seq::<Domain>::empty(), Seq::<Feature>::empty(), false, 1u32, Rewrite::NumberOfDivisors),
{
    Rule {
        id: RuleId(727),
        name: "number_of_divisors",
        category: RuleCategory::Simplification,
        description: "τ(n) is number of divisors",
        domains: Vec::new(),
        requires: Vec::new(),
        reversible: false,
        cost: 1,
        rewrite: Rewrite::NumberOfDivisors,
    }
}

/// The rule `totient_sum`: Σ φ(d) = n for d|n.
pub fn totient_sum() -> (r: Rule)
    ensures
        rule_view(r) == (728u32, "totient_sum"@, RuleCategory::Simplification, "Σ φ(d) = n for d|n"@, Seq::<Domain>::empty(), Seq::<Feature>::empty(), false, 2u32, Rewrite::NtTotientSum),
{
    Rule {
        id: RuleId(728),
        name: "totient_sum",
        category: RuleCategory::Simplification,
        description: "Σ φ(d) = n for d|n",
        domains: Vec::new(),
        requires: Vec::new(),
        reversible: false,
        cost: 2,
        rewrite: Rewrite::NtTotientSum,
    }
}

/// The rule `primitive_root_count`: φ(φ(n)) primitive roots mod n.
pub fn primitive_root_count() -> (r: Rule)
    ensures
        rule_view(r) == (729u32, "primitive_root_count"@, RuleCategory::Simplification, "φ(φ(n)) primitive roots mod n"@, Seq::<Domain>::empty(), Seq::<Feature>::empty(), false, 2u32, Rewrite::NtPrimitiveRootCount),
{
    Rule {
        id: RuleId(729),
        name: "primitive_root_count",
        category: RuleCategory::Simplification,
        description: "φ(φ(n)) primitive roots mod n",
        domains: Vec::new(),
        requires: Vec::new(),
        reversible: false,
        cost: 2,
        rewrite: Rewrite::NtPrimitiveRootCount,
    }
}

/// The rule `carmichael_function`: Carmichael function λ(n).
pub fn carmichael_function() -> (r: Rule)
    ensures
        rule_view(r) == (730u32, "carmichael_function"@, RuleCategory::Simplification, "Carmichael function λ(n)"@, Seq::<Domain>::empty(), Seq::<Feature>::empty(), false, 2u32, Rewrite::NtCarmichaelFunction),
{
    Rule {
        id: RuleId(730),
        name: "carmichael_function",
        category: RuleCategory::Simplification,
        description: "Carmichael function λ(n)",
        domains: Vec::new(),
        requires: Vec::new(),
        reversible: false,
        cost: 2,
        rewrite: Rewrite::NtCarmichaelFunction,
    }
}

/// The rule `square_free_density`: Square-free density = 6/π².
pub fn square_free_density() -> (r: Rule)
    ensures
        rule_view(r) == (731u32, "square_free_density"@, RuleCategory::Simplification, "Square-free density = 6/π²"@, Seq::<Domain>::empty(), Seq::<Feature>::empty(), false, 2u32, Rewrite::SquareFreeDensity),
{
    Rule {
        id: RuleId(731),
        name: "square_free_density",
        category: RuleCategory::Simplification,
        description: "Square-free density = 6/π²",
        domains: Vec::new(),
        requires: Vec::new(),
        reversible: false,
        cost: 2,
        rewrite: Rewrite::SquareFreeDensity,
    }
}

/// The rule `prime_gap_bound`: Prime gap upper bounds.
pub fn prime_gap_bound() -> (r: Rule)
    ensures
        rule_view(r) == (732u32, "prime_gap_bound"@, RuleCategory::AlgebraicSolving, "Prime gap upper bounds"@, Seq::<Domain>::empty(), Seq::<Feature>::empty(), false, 3u32, Rewrite::NtPrimeGapBound),
{
    Rule {
        id: RuleId(732),
        name: "prime_gap_bound",
        category: RuleCategory::AlgebraicSolving,
        description: "Prime gap upper bounds",
        domains: Vec::new(),
        requires: Vec::new(),
        reversible: false,
        cost: 3,
        rewrite: Rewrite::NtPrimeGapBound,
    }
}

/// The rule `sophie_germain_prime`: Sophie Germain: p and 2p+1 both prime.
pub fn sophie_germain_prime() -> (r: Rule)
    ensures
        rule_view(r) == (733u32, "sophie_germain_prime"@, RuleCategory::AlgebraicSolving, "Sophie Germain: p and 2p+1 both prime"@, Seq::<Domain>::empty(), Seq::<Feature>::empty(), false, 2u32, Rewrite::SophieGermainPrime),
{
    Rule {
        id: RuleId(733),
        name: "sophie_germain_prime",
        category: RuleCategory::AlgebraicSolving,
        description: "Sophie Germain: p and 2p+1 both prime",
        domains: Vec::new(),
        requires: Vec::new(),
        reversible: false,
        cost: 2,
        rewrite: Rewrite::SophieGermainPrime,
    }
}

/// The rule `quadratic_reciprocity`: Quadratic reciprocity law.
pub fn quadratic_reciprocity() -> (r: Rule)
    ensures
        rule_view(r) == (734u32, "quadratic_reciprocity"@, RuleCategory::Simplification, "Quadratic reciprocity law"@, Seq::<Domain>::empty(), Seq::<Feature>::empty(), false, 2u32, Rewrite::NtQuadraticReciprocity),
{
    Rule {
        id: RuleId(734),
        name: "quadratic_reciprocity",
        category: RuleCategory::Simplification,
        description: "Quadratic reciprocity law",
        domains: Vec::new(),
        requires: Vec::new(),
        reversible: false,
        cost: 2,
        rewrite: Rewrite::NtQuadraticReciprocity,
    }
}

/// The rule `jacobi_symbol`: Jacobi symbol (a/n).
pub fn jacobi_symbol() -> (r: Rule)
    ensures
        rule_view(r) == (735u32, "jacobi_symbol"@, RuleCategory::Simplification, "Jacobi symbol (a/n)"@, Seq::<Domain>::empty(), Seq::<Feature>::empty(), false, 2u32, Rewrite::NtJacobiSymbol),
{
    Rule {
        id: RuleId(735),
        name: "jacobi_symbol",
        category: RuleCategory::Simplification,
        description: "Jacobi symbol (a/n)",
        domains: Vec::new(),
        requires: Vec::new(),
        reversible: false,
        cost: 2,
        rewrite: Rewrite::NtJacobiSymbol,
    }
}

/// The rule `kronecker_symbol`: Kronecker symbol extension.
pub fn kronecker_symbol() -> (r: Rule)
    ensures
        rule_view(r) == (736u32, "kronecker_symbol"@, RuleCategory::Simplification, "Kronecker symbol extension"@, Seq::<Domain>::empty(), Seq::<Feature>::empty(), false, 2u32, Rewrite::NtKroneckerSymbol),
{
    Rule {
        id: RuleId(736),
        name: "kronecker_symbol",
        category: RuleCategory::Simplification,
        description: "Kronecker symbol extension",
        domains: Vec::new(),
        requires: Vec::new(),
        reversible: false,
        cost: 2,
        rewrite: Rewrite::NtKroneckerSymbol,
    }
}

/// The rule `tonelli_shanks`: Tonelli-Shanks modular square root.
pub fn tonelli_shanks() -> (r: Rule)
    ensures
        rule_view(r) == (737u32, "tonelli_shanks"@, RuleCategory::EquationSolving, "Tonelli-Shanks modular square root"@, Seq::<Domain>::empty(), Seq::<Feature>::empty(), false, 4u32, Rewrite::NtTonelliShanks),
{
    Rule {
        id: RuleId(737),
        name: "tonelli_shanks",
        category: RuleCategory::EquationSolving,
        description: "Tonelli-Shanks modular square root",
        domains: Vec::new(),
        requires: Vec::new(),
        reversible: false,
        cost: 4,
        rewrite: Rewrite::NtTonelliShanks,
    }
}

/// The rule `discrete_log_order`: Discrete logarithm order.
pub fn discrete_log_order() -> (r: Rule)
    ensures
        rule_view(r) == (738u32, "discrete_log_order"@, RuleCategory::EquationSolving, "Discrete logarithm order"@, Seq::<Domain>::empty(), Seq::<Feature>::empty(), false, 3u32, Rewrite::NtDiscreteLogOrder),
{
    Rule {
        id: RuleId(738),
        name: "discrete_log_order",
        category: RuleCategory::EquationSolving,
        description: "Discrete logarithm order",
        domains: Vec::new(),
        requires: Vec::new(),
        reversible: false,
        cost: 3,
        rewrite: Rewrite::NtDiscreteLogOrder,
    }
}

/// The rule `continued_fraction_gcd`: GCD via continued fractions.
pub fn continued_fraction_gcd() -> (r: Rule)
    ensures
        rule_view(r) == (739u32, "continued_fraction_gcd"@, RuleCategory::Simplification, "GCD via continued fractions"@, Seq::<Domain>::empty(), Seq::<Feature>::empty(), false, 3u32, Rewrite::NtContinuedFractionGcd),
{
    Rule {
        id: RuleId(739),
        name: "continued_fraction_gcd",
        category: RuleCategory::Simplification,
        description: "GCD via continued fractions",
        domains: Vec::new(),
        requires: Vec::new(),
        reversible: false,
        cost: 3,
        rewrite: Rewrite::NtContinuedFractionGcd,
    }
}

/// The rule `farey_neighbors`: Farey neighbors: |ad - bc| = 1.
pub fn farey_neighbors() -> (r: Rule)
    ensures
        rule_view(r) == (740u32, "farey_neighbors"@, RuleCategory::AlgebraicSolving, "Farey neighbors: |ad - bc| = 1"@, Seq::<Domain>::empty(), Seq::<Feature>::empty(), false, 2u32, Rewrite::FareyNeighbors),
{
    Rule {
        id: RuleId(740),
        name: "farey_neighbors",
        category: RuleCategory::AlgebraicSolving,
        description: "Farey neighbors: |ad - bc| = 1",
        domains: Vec::new(),
        requires: Vec::new(),
        reversible: false,
        cost: 2,
        rewrite: Rewrite::FareyNeighbors,
    }
}

/// The rule `stern_brocot`: Stern-Brocot tree mediant.
pub fn stern_brocot() -> (r: Rule)
    ensures
        rule_view(r) == (741u32, "stern_brocot"@, RuleCategory::Simplification, "Stern-Brocot tree mediant"@, Seq::<Domain>::empty(), Seq::<Feature>::empty(), false, 2u32, Rewrite::NtSternBrocot),
{
    Rule {
        id: RuleId(741),
        name: "stern_brocot",
        category: RuleCategory::Simplification,
        description: "Stern-Brocot tree mediant",
        domains: Vec::new(),
        requires: Vec::new(),
        reversible: false,
        cost: 2,
        rewrite: Rewrite::NtSternBrocot,
    }
}

/// The rule `egyptian_fraction`: Egyptian fraction decomposition.
pub fn egyptian_fraction() -> (r: Rule)
    ensures
        rule_view(r) == (742u32, "egyptian_fraction"@, RuleCategory::Expansion, "Egyptian fraction decomposition"@, Seq::<Domain>::empty(), Seq::<Feature>::empty(), false, 3u32, Rewrite::NtEgyptianFraction),
{
    Rule {
        id: RuleId(742),
        name: "egyptian_fraction",
        category: RuleCategory::Expansion,
        description: "Egyptian fraction decomposition",
        domains: Vec::new(),
        requires: Vec::new(),
        reversible: false,
        cost: 3,
        rewrite: Rewrite::NtEgyptianFraction,
    }
}

/// The rule `gaussian_norm`: Gaussian integer norm N(a+bi) = a² + b².
pub fn gaussian_norm() -> (r: Rule)
    ensures
        rule_view(r) == (743u32, "gaussian_norm"@, RuleCategory::Simplification, "Gaussian integer norm N(a+bi) = a² + b²"@, Seq::<Domain>::empty(), Seq::<Feature>::empty(), false, 1u32, Rewrite::GaussianNorm),
{
    Rule {
        id: RuleId(743),
        name: "gaussian_norm",
        category: RuleCategory::Simplification,
        description: "Gaussian integer norm N(a+bi) = a² + b²",
        domains: Vec::new(),
        requires: Vec::new(),
        reversible: false,
        cost: 1,
        rewrite: Rewrite::GaussianNorm,
    }
}

/// The rule `gaussian_prime`: Gaussian prime conditions.
pub fn gaussian_prime() -> (r: Rule)
    ensures
        rule_view(r) == (744u32, "gaussian_prime"@, RuleCategory::AlgebraicSolving, "Gaussian prime conditions"@, Seq::<Domain>::empty(), Seq::<Feature>::empty(), false, 2u32, Rewrite::NtGaussianPrime),
{
    Rule {
        id: RuleId(744),
        name: "gaussian_prime",
        category: RuleCategory::AlgebraicSolving,
        description: "Gaussian prime conditions",
        domains: Vec::new(),
        requires: Vec::new(),
        reversible: false,
        cost: 2,
        rewrite: Rewrite::NtGaussianPrime,
    }
}

} // verus!
