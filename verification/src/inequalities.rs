//! Inequality rules: AM-GM, Cauchy-Schwarz, triangle, absolute-value and square inequalities.
//!
//! Each group function returns the metadata of its rules in registration
//! order; its contract fixes every field of every rule.

use vstd::prelude::*;
use crate::expr::{Expr, Symbol};
use crate::rational::{abs, frac_add, frac_div, frac_mul, frac_sub};
use crate::rewrite::{is_lit, Rewrite};
use crate::rule::{ids_of, names_of, rule_view, rules_view, RuleMeta, Domain, Feature, Rule, RuleCategory, RuleId};

verus! {
/// Identifiers of the rules of [`am_gm_rules`], in order.
pub open spec fn am_gm_rules_ids() -> Seq<u32> {
    seq![300u32, 301u32, 302u32, 303u32, 304u32]
}

/// Names of the rules of [`am_gm_rules`], in order.
pub open spec fn am_gm_rules_names() -> Seq<Seq<char>> {
    seq!["am_gm_2"@, "sum_squares_ge_product"@, "sum_three_squares"@, "reciprocal_sum_ge_2"@, "am_gm_3"@]
}

/// Metadata of the rules of [`am_gm_rules`], in order.
pub open spec fn am_gm_rules_meta() -> Seq<RuleMeta> {
    seq![
        (300u32, "am_gm_2"@, RuleCategory::AlgebraicSolving, "AM-GM: (a+b)/2 ≥ √(ab), so a+b ≥ 2√(ab)"@, Seq::<Domain>::empty(), Seq::<Feature>::empty(), false, 3u32, Rewrite::AmGm2),
        (301u32, "sum_squares_ge_product"@, RuleCategory::AlgebraicSolving, "a² + b² ≥ 2ab (from (a-b)² ≥ 0)"@, Seq::<Domain>::empty(), Seq::<Feature>::empty(), false, 2u32, Rewrite::SumSquaresGeProduct),
        (302u32, "sum_three_squares"@, RuleCategory::AlgebraicSolving, "a² + b² + c² ≥ ab + bc + ca"@, Seq::<Domain>::empty(), Seq::<Feature>::empty(), false, 3u32, Rewrite::SumThreeSquares),
        (303u32, "reciprocal_sum_ge_2"@, RuleCategory::AlgebraicSolving, "a/b + b/a ≥ 2 for positive a,b"@, Seq::<Domain>::empty(), Seq::<Feature>::empty(), false, 2u32, Rewrite::ReciprocalSumGe2),
        (304u32, "am_gm_3"@, RuleCategory::AlgebraicSolving, "AM-GM for 3 terms: (a+b+c)/3 ≥ ∛(abc)"@, Seq::<Domain>::empty(), Seq::<Feature>::empty(), false, 3u32, Rewrite::AmGm3),
    ]
}

/// The rules of this group, in registration order.
fn am_gm_rules() -> (rules: Vec<Rule>)
    ensures
        ids_of(rules@) == am_gm_rules_ids(),
        names_of(rules@) == am_gm_rules_names(),
        rules_view(rules@) == am_gm_rules_meta(),
{
    let mut rules: Vec<Rule> = Vec::new();
    let mut part: Vec<Rule> = vec![
        Rule {
            id: RuleId(300),
            name: "am_gm_2",
            category: RuleCategory::AlgebraicSolving,
            description: "AM-GM: (a+b)/2 ≥ √(ab), so a+b ≥ 2√(ab)",
            domains: Vec::new(),
            requires: Vec::new(),
            reversible: false,
            cost: 3,
            rewrite: Rewrite::AmGm2,
        },
        Rule {
            id: RuleId(301),
            name: "sum_squares_ge_product",
            category: RuleCategory::AlgebraicSolving,
            description: "a² + b² ≥ 2ab (from (a-b)² ≥ 0)",
            domains: Vec::new(),
            requires: Vec::new(),
            reversible: false,
            cost: 2,
            rewrite: Rewrite::SumSquaresGeProduct,
        },
        Rule {
            id: RuleId(302),
            name: "sum_three_squares",
            category: RuleCategory::AlgebraicSolving,
            description: "a² + b² + c² ≥ ab + bc + ca",
            domains: Vec::new(),
            requires: Vec::new(),
            reversible: false,
            cost: 3,
            rewrite: Rewrite::SumThreeSquares,
        },
        Rule {
            id: RuleId(303),
            name: "reciprocal_sum_ge_2",
            category: RuleCategory::AlgebraicSolving,
            description: "a/b + b/a ≥ 2 for positive a,b",
            domains: Vec::new(),
            requires: Vec::new(),
            reversible: false,
            cost: 2,
            rewrite: Rewrite::ReciprocalSumGe2,
        },
        Rule {
            id: RuleId(304),
            name: "am_gm_3",
            category: RuleCategory::AlgebraicSolving,
            description: "AM-GM for 3 terms: (a+b+c)/3 ≥ ∛(abc)",
            domains: Vec::new(),
            requires: Vec::new(),
            reversible: false,
            cost: 3,
            rewrite: Rewrite::AmGm3,
        },
    ];
    assert(ids_of(part@) =~= seq![300u32, 301u32, 302u32, 303u32, 304u32]);
    assert(names_of(part@) =~= seq!["am_gm_2"@, "sum_squares_ge_product"@, "sum_three_squares"@, "reciprocal_sum_ge_2"@, "am_gm_3"@]);
    assert(rules_view(part@) =~~= am_gm_rules_meta());
    let ghost before = rules@;
    rules.append(&mut part);
    proof {
        crate::rule::lemma_ids_names_append(before, part@);
    }
    assert(ids_of(rules@) =~= am_gm_rules_ids());
    assert(names_of(rules@) =~= am_gm_rules_names());
    assert(rules_view(rules@) =~= am_gm_rules_meta());
    rules
}

/// Identifiers of the rules of [`cauchy_schwarz_rules`], in order.
pub open spec fn cauchy_schwarz_rules_ids() -> Seq<u32> {
    seq![320u32, 321u32]
}

/// Names of the rules of [`cauchy_schwarz_rules`], in order.
pub open spec fn cauchy_schwarz_rules_names() -> Seq<Seq<char>> {
    seq!["cauchy_schwarz_2"@, "titus_lemma"@]
}

/// Metadata of the rules of [`cauchy_schwarz_rules`], in order.
pub open spec fn cauchy_schwarz_rules_meta() -> Seq<RuleMeta> {
    seq![
        (320u32, "cauchy_schwarz_2"@, RuleCategory::AlgebraicSolving, "Cauchy-Schwarz: (a²+b²)(c²+d²) ≥ (ac+bd)²"@, Seq::<Domain>::empty(), Seq::<Feature>::empty(), false, 4u32, Rewrite::CauchySchwarz2),
        (321u32, "titus_lemma"@, RuleCategory::AlgebraicSolving, "Titu's Lemma: a²/x + b²/y ≥ (a+b)²/(x+y)"@, Seq::<Domain>::empty(), Seq::<Feature>::empty(), false, 4u32, Rewrite::TitusLemma),
    ]
}

/// The rules of this group, in registration order.
fn cauchy_schwarz_rules() -> (rules: Vec<Rule>)
    ensures
        ids_of(rules@) == cauchy_schwarz_rules_ids(),
        names_of(rules@) == cauchy_schwarz_rules_names(),
        rules_view(rules@) == cauchy_schwarz_rules_meta(),
{
    let mut rules: Vec<Rule> = Vec::new();
    let mut part: Vec<Rule> = vec![
        Rule {
            id: RuleId(320),
            name: "cauchy_schwarz_2",
            category: RuleCategory::AlgebraicSolving,
            description: "Cauchy-Schwarz: (a²+b²)(c²+d²) ≥ (ac+bd)²",
            domains: Vec::new(),
            requires: Vec::new(),
            reversible: false,
            cost: 4,
            rewrite: Rewrite::CauchySchwarz2,
        },
        Rule {
            id: RuleId(321),
            name: "titus_lemma",
            category: RuleCategory::AlgebraicSolving,
            description: "Titu's Lemma: a²/x + b²/y ≥ (a+b)²/(x+y)",
            domains: Vec::new(),
            requires: Vec::new(),
            reversible: false,
            cost: 4,
            rewrite: Rewrite::TitusLemma,
        },
    ];
    assert(ids_of(part@) =~= seq![320u32, 321u32]);
    assert(names_of(part@) =~= seq!["cauchy_schwarz_2"@, "titus_lemma"@]);
    assert(rules_view(part@) =~~= cauchy_schwarz_rules_meta());
    let ghost before = rules@;
    rules.append(&mut part);
    proof {
        crate::rule::lemma_ids_names_append(before, part@);
    }
    assert(ids_of(rules@) =~= cauchy_schwarz_rules_ids());
    assert(names_of(rules@) =~= cauchy_schwarz_rules_names());
    assert(rules_view(rules@) =~= cauchy_schwarz_rules_meta());
    rules
}

/// Identifiers of the rules of [`triangle_inequality_rules`], in order.
pub open spec fn triangle_inequality_rules_ids() -> Seq<u32> {
    seq![340u32, 341u32]
}

/// Names of the rules of [`triangle_inequality_rules`], in order.
pub open spec fn triangle_inequality_rules_names() -> Seq<Seq<char>> {
    seq!["triangle_ineq"@, "reverse_triangle"@]
}

/// Metadata of the rules of [`triangle_inequality_rules`], in order.
pub open spec fn triangle_inequality_rules_meta() -> Seq<RuleMeta> {
    seq![
        (340u32, "triangle_ineq"@, RuleCategory::AlgebraicSolving, "|a + b| ≤ |a| + |b|"@, Seq::<Domain>::empty(), Seq::<Feature>::empty(), false, 2u32, Rewrite::TriangleIneq),
        (341u32, "reverse_triangle"@, RuleCategory::AlgebraicSolving, "|a - b| ≥ ||a| - |b||"@, Seq::<Domain>::empty(), Seq::<Feature>::empty(), false, 2u32, Rewrite::ReverseTriangle),
    ]
}

/// The rules of this group, in registration order.
fn triangle_inequality_rules() -> (rules: Vec<Rule>)
    ensures
        ids_of(rules@) == triangle_inequality_rules_ids(),
        names_of(rules@) == triangle_inequality_rules_names(),
        rules_view(rules@) == triangle_inequality_rules_meta(),
{
    let mut rules: Vec<Rule> = Vec::new();
    let mut part: Vec<Rule> = vec![
        Rule {
            id: RuleId(340),
            name: "triangle_ineq",
            category: RuleCategory::AlgebraicSolving,
            description: "|a + b| ≤ |a| + |b|",
            domains: Vec::new(),
            requires: Vec::new(),
            reversible: false,
            cost: 2,
            rewrite: Rewrite::TriangleIneq,
        },
        Rule {
            id: RuleId(341),
            name: "reverse_triangle",
            category: RuleCategory::AlgebraicSolving,
            description: "|a - b| ≥ ||a| - |b||",
            domains: Vec::new(),
            requires: Vec::new(),
            reversible: false,
            cost: 2,
            rewrite: Rewrite::ReverseTriangle,
        },
    ];
    assert(ids_of(part@) =~= seq![340u32, 341u32]);
    assert(names_of(part@) =~= seq!["triangle_ineq"@, "reverse_triangle"@]);
    assert(rules_view(part@) =~~= triangle_inequality_rules_meta());
    let ghost before = rules@;
    rules.append(&mut part);
    proof {
        crate::rule::lemma_ids_names_append(before, part@);
    }
    assert(ids_of(rules@) =~= triangle_inequality_rules_ids());
    assert(names_of(rules@) =~= triangle_inequality_rules_names());
    assert(rules_view(rules@) =~= triangle_inequality_rules_meta());
    rules
}

/// Identifiers of the rules of [`absolute_value_rules`], in order.
pub open spec fn absolute_value_rules_ids() -> Seq<u32> {
    seq![360u32, 361u32, 362u32, 363u32, 364u32, 365u32]
}

/// Names of the rules of [`absolute_value_rules`], in order.
pub open spec fn absolute_value_rules_names() -> Seq<Seq<char>> {
    seq!["abs_nonneg"@, "abs_product"@, "abs_quotient"@, "abs_neg"@, "abs_abs"@, "abs_squared"@]
}

/// Metadata of the rules of [`absolute_value_rules`], in order.
pub open spec fn absolute_value_rules_meta() -> Seq<RuleMeta> {
    seq![
        (360u32, "abs_nonneg"@, RuleCategory::Simplification, "|a| ≥ 0 for all a"@, Seq::<Domain>::empty(), Seq::<Feature>::empty(), false, 1u32, Rewrite::AbsNonneg),
        (361u32, "abs_product"@, RuleCategory::Simplification, "|a·b| = |a|·|b|"@, Seq::<Domain>::empty(), Seq::<Feature>::empty(), true, 2u32, Rewrite::AbsProduct),
        (362u32, "abs_quotient"@, RuleCategory::Simplification, "|a/b| = |a|/|b|"@, Seq::<Domain>::empty(), Seq::<Feature>::empty(), true, 2u32, Rewrite::AbsQuotient),
        (363u32, "abs_neg"@, RuleCategory::Simplification, "|-a| = |a|"@, Seq::<Domain>::empty(), Seq::<Feature>::empty(), false, 1u32, Rewrite::AbsNeg),
        (364u32, "abs_abs"@, RuleCategory::Simplification, "||a|| = |a|"@, Seq::<Domain>::empty(), Seq::<Feature>::empty(), false, 1u32, Rewrite::AbsAbs),
        (365u32, "abs_squared"@, RuleCategory::Simplification, "|a|² = a²"@, Seq::<Domain>::empty(), Seq::<Feature>::empty(), false, 1u32, Rewrite::AbsSquared),
    ]
}

/// The rules of this group, in registration order.
pub fn absolute_value_rules() -> (rules: Vec<Rule>)
    ensures
        ids_of(rules@) == absolute_value_rules_ids(),
        names_of(rules@) == absolute_value_rules_names(),
        rules_view(rules@) == absolute_value_rules_meta(),
{
    let mut rules: Vec<Rule> = Vec::new();
    let mut part: Vec<Rule> = vec![
        Rule {
            id: RuleId(360),
            name: "abs_nonneg",
            category: RuleCategory::Simplification,
            description: "|a| ≥ 0 for all a",
            domains: Vec::new(),
            requires: Vec::new(),
            reversible: false,
            cost: 1,
            rewrite: Rewrite::AbsNonneg,
        },
        Rule {
            id: RuleId(361),
            name: "abs_product",
            category: RuleCategory::Simplification,
            description: "|a·b| = |a|·|b|",
            domains: Vec::new(),
            requires: Vec::new(),
            reversible: true,
            cost: 2,
            rewrite: Rewrite::AbsProduct,
        },
        Rule {
            id: RuleId(362),
            name: "abs_quotient",
            category: RuleCategory::Simplification,
            description: "|a/b| = |a|/|b|",
            domains: Vec::new(),
            requires: Vec::new(),
            reversible: true,
            cost: 2,
            rewrite: Rewrite::AbsQuotient,
        },
        Rule {
            id: RuleId(363),
            name: "abs_neg",
            category: RuleCategory::Simplification,
            description: "|-a| = |a|",
            domains: Vec::new(),
            requires: Vec::new(),
            reversible: false,
            cost: 1,
            rewrite: Rewrite::AbsNeg,
        },
        Rule {
            id: RuleId(364),
            name: "abs_abs",
            category: RuleCategory::Simplification,
            description: "||a|| = |a|",
            domains: Vec::new(),
            requires: Vec::new(),
            reversible: false,
            cost: 1,
            rewrite: Rewrite::AbsAbs,
        },
        Rule {
            id: RuleId(365),
            name: "abs_squared",
            category: RuleCategory::Simplification,
            description: "|a|² = a²",
            domains: Vec::new(),
            requires: Vec::new(),
            reversible: false,
            cost: 1,
            rewrite: Rewrite::AbsSquared,
        },
    ];
    assert(ids_of(part@) =~= seq![360u32, 361u32, 362u32, 363u32, 364u32, 365u32]);
    assert(names_of(part@) =~= seq!["abs_nonneg"@, "abs_product"@, "abs_quotient"@, "abs_neg"@, "abs_abs"@, "abs_squared"@]);
    assert(rules_view(part@) =~~= absolute_value_rules_meta());
    let ghost before = rules@;
    rules.append(&mut part);
    proof {
        crate::rule::lemma_ids_names_append(before, part@);
    }
    assert(ids_of(rules@) =~= absolute_value_rules_ids());
    assert(names_of(rules@) =~= absolute_value_rules_names());
    assert(rules_view(rules@) =~= absolute_value_rules_meta());
    rules
}

/// Identifiers of the rules of [`square_inequality_rules`], in order.
pub open spec fn square_inequality_rules_ids() -> Seq<u32> {
    seq![380u32, 381u32, 382u32]
}

/// Names of the rules of [`square_inequality_rules`], in order.
pub open spec fn square_inequality_rules_names() -> Seq<Seq<char>> {
    seq!["square_nonneg"@, "square_zero"@, "diff_squared_ge_zero"@]
}

/// Metadata of the rules of [`square_inequality_rules`], in order.
pub open spec fn square_inequality_rules_meta() -> Seq<RuleMeta> {
    seq![
        (380u32, "square_nonneg"@, RuleCategory::AlgebraicSolving, "a² ≥ 0 for all real a"@, Seq::<Domain>::empty(), Seq::<Feature>::empty(), false, 1u32, Rewrite::SquareNonneg),
        (381u32, "square_zero"@, RuleCategory::EquationSolving, "a² = 0 ⟺ a = 0"@, Seq::<Domain>::empty(), Seq::<Feature>::empty(), false, 2u32, Rewrite::SquareZero),
        (382u32, "diff_squared_ge_zero"@, RuleCategory::AlgebraicSolving, "(a-b)² ≥ 0"@, Seq::<Domain>::empty(), Seq::<Feature>::empty(), false, 1u32, Rewrite::DiffSquaredGeZero),
    ]
}

/// The rules of this group, in registration order.
fn square_inequality_rules() -> (rules: Vec<Rule>)
    ensures
        ids_of(rules@) == square_inequality_rules_ids(),
        names_of(rules@) == square_inequality_rules_names(),
        rules_view(rules@) == square_inequality_rules_meta(),
{
    let mut rules: Vec<Rule> = Vec::new();
    let mut part: Vec<Rule> = vec![
        Rule {
            id: RuleId(380),
            name: "square_nonneg",
            category: RuleCategory::AlgebraicSolving,
            description: "a² ≥ 0 for all real a",
            domains: Vec::new(),
            requires: Vec::new(),
            reversible: false,
            cost: 1,
            rewrite: Rewrite::SquareNonneg,
        },
        Rule {
            id: RuleId(381),
            name: "square_zero",
            category: RuleCategory::EquationSolving,
            description: "a² = 0 ⟺ a = 0",
            domains: Vec::new(),
            requires: Vec::new(),
            reversible: false,
            cost: 2,
            rewrite: Rewrite::SquareZero,
        },
        Rule {
            id: RuleId(382),
            name: "diff_squared_ge_zero",
            category: RuleCategory::AlgebraicSolving,
            description: "(a-b)² ≥ 0",
            domains: Vec::new(),
            requires: Vec::new(),
            reversible: false,
            cost: 1,
            rewrite: Rewrite::DiffSquaredGeZero,
        },
    ];
    assert(ids_of(part@) =~= seq![380u32, 381u32, 382u32]);
    assert(names_of(part@) =~= seq!["square_nonneg"@, "square_zero"@, "diff_squared_ge_zero"@]);
    assert(rules_view(part@) =~~= square_inequality_rules_meta());
    let ghost before = rules@;
    rules.append(&mut part);
    proof {
        crate::rule::lemma_ids_names_append(before, part@);
    }
    assert(ids_of(rules@) =~= square_inequality_rules_ids());
    assert(names_of(rules@) =~= square_inequality_rules_names());
    assert(rules_view(rules@) =~= square_inequality_rules_meta());
    rules
}

/// Identifiers of the rules of [`advanced_inequality_rules`], in order.
pub open spec fn advanced_inequality_rules_ids() -> Seq<u32> {
    seq![580u32, 581u32, 582u32, 583u32, 584u32, 585u32, 586u32, 587u32, 588u32, 589u32, 590u32, 591u32, 512u32, 513u32]
}

/// Names of the rules of [`advanced_inequality_rules`], in order.
pub open spec fn advanced_inequality_rules_names() -> Seq<Seq<char>> {
    seq!["bernoulli_inequality"@, "qm_am_inequality"@, "hm_gm_inequality"@, "positive_square_root"@, "exp_positivity"@, "abs_product_advanced"@, "abs_quotient_advanced"@, "abs_power"@, "add_to_both_sides"@, "mul_positive_both_sides"@, "sqrt_comparison"@, "ln_comparison"@, "exp_monotonic"@, "ln_monotonic"@]
}

/// Metadata of the rules of [`advanced_inequality_rules`], in order.
pub open spec fn advanced_inequality_rules_meta() -> Seq<RuleMeta> {
    seq![
        (580u32, "bernoulli_inequality"@, RuleCategory::AlgebraicSolving, "(1+x)^n >= 1 + nx for x >= -1, n >= 1"@, Seq::<Domain>::empty(), Seq::<Feature>::empty(), false, 2u32, Rewrite::BernoulliInequality),
        (581u32, "qm_am_inequality"@, RuleCategory::AlgebraicSolving, "QM >= AM: √((a²+b²)/2) >= (a+b)/2"@, Seq::<Domain>::empty(), Seq::<Feature>::empty(), false, 2u32, Rewrite::QmAmInequality),
        (582u32, "hm_gm_inequality"@, RuleCategory::AlgebraicSolving, "HM <= GM: 2ab/(a+b) <= √(ab)"@, Seq::<Domain>::empty(), Seq::<Feature>::empty(), false, 2u32, Rewrite::HmGmInequality),
        (583u32, "positive_square_root"@, RuleCategory::Simplification, "√a >= 0 for a >= 0"@, Seq::<Domain>::empty(), Seq::<Feature>::empty(), false, 1u32, Rewrite::IneqPositiveSquareRoot),
        (584u32, "exp_positivity"@, RuleCategory::Simplification, "e^x > 0 for all x"@, Seq::<Domain>::empty(), Seq::<Feature>::empty(), false, 1u32, Rewrite::IneqExpPositivity),
        (585u32, "abs_product_advanced"@, RuleCategory::Simplification, "|ab| = |a||b|"@, Seq::<Domain>::empty(), Seq::<Feature>::empty(), true, 1u32, Rewrite::AbsProductSplit),
        (586u32, "abs_quotient_advanced"@, RuleCategory::Simplification, "|a/b| = |a|/|b|"@, Seq::<Domain>::empty(), Seq::<Feature>::empty(), true, 1u32, Rewrite::AbsQuotient),
        (587u32, "abs_power"@, RuleCategory::Simplification, "|a^n| = |a|^n"@, Seq::<Domain>::empty(), Seq::<Feature>::empty(), true, 1u32, Rewrite::AbsPower),
        (588u32, "add_to_both_sides"@, RuleCategory::EquationSolving, "Add same expression to both sides of equation"@, Seq::<Domain>::empty(), Seq::<Feature>::empty(), true, 1u32, Rewrite::BothSides),
        (589u32, "mul_positive_both_sides"@, RuleCategory::EquationSolving, "Multiply both sides by positive expression"@, Seq::<Domain>::empty(), Seq::<Feature>::empty(), true, 1u32, Rewrite::BothSides),
        (590u32, "sqrt_comparison"@, RuleCategory::AlgebraicSolving, "For a,b >= 0: a >= b => √a >= √b"@, Seq::<Domain>::empty(), Seq::<Feature>::empty(), false, 1u32, Rewrite::SqrtComparison),
        (591u32, "ln_comparison"@, RuleCategory::AlgebraicSolving, "For a,b > 0: a > b => ln(a) > ln(b)"@, Seq::<Domain>::empty(), Seq::<Feature>::empty(), false, 1u32, Rewrite::LnComparison),
        (512u32, "exp_monotonic"@, RuleCategory::AlgebraicSolving, "a > b => e^a > e^b (exp is increasing)"@, Seq::<Domain>::empty(), Seq::<Feature>::empty(), false, 1u32, Rewrite::ExpMonotonic),
        (513u32, "ln_monotonic"@, RuleCategory::AlgebraicSolving, "a > b > 0 => ln(a) > ln(b) (ln is increasing)"@, Seq::<Domain>::empty(), Seq::<Feature>::empty(), false, 1u32, Rewrite::LnMonotonic),
    ]
}

/// The rules of this group, in registration order.
pub fn advanced_inequality_rules() -> (rules: Vec<Rule>)
    ensures
        ids_of(rules@) == advanced_inequality_rules_ids(),
        names_of(rules@) == advanced_inequality_rules_names(),
        rules_view(rules@) == advanced_inequality_rules_meta(),
{
    let mut rules: Vec<Rule> = Vec::new();
    let mut part: Vec<Rule> = vec![
        bernoulli_inequality(),
        qm_am_inequality(),
        hm_gm_inequality(),
        positive_square_root(),
        exp_positivity(),
        abs_product(),
        abs_quotient(),
        abs_power(),
        add_to_both_sides(),
        mul_positive_both_sides(),
        sqrt_comparison(),
        ln_comparison(),
        exp_monotonic(),
        ln_monotonic(),
    ];
    assert(ids_of(part@) =~= seq![580u32, 581u32, 582u32, 583u32, 584u32, 585u32, 586u32, 587u32, 588u32, 589u32, 590u32, 591u32, 512u32, 513u32]);
    assert(names_of(part@) =~= seq!["bernoulli_inequality"@, "qm_am_inequality"@, "hm_gm_inequality"@, "positive_square_root"@, "exp_positivity"@, "abs_product_advanced"@, "abs_quotient_advanced"@, "abs_power"@, "add_to_both_sides"@, "mul_positive_both_sides"@, "sqrt_comparison"@, "ln_comparison"@, "exp_monotonic"@, "ln_monotonic"@]);
    assert(rules_view(part@) =~~= advanced_inequality_rules_meta());
    let ghost before = rules@;
    rules.append(&mut part);
    proof {
        crate::rule::lemma_ids_names_append(before, part@);
    }
    assert(ids_of(rules@) =~= advanced_inequality_rules_ids());
    assert(names_of(rules@) =~= advanced_inequality_rules_names());
    assert(rules_view(rules@) =~= advanced_inequality_rules_meta());
    rules
}

/// Identifiers of the rules of [`inequality_rules`], in order.
pub open spec fn inequality_rules_ids() -> Seq<u32> {
    am_gm_rules_ids() + cauchy_schwarz_rules_ids() + triangle_inequality_rules_ids() + absolute_value_rules_ids() + square_inequality_rules_ids() + advanced_inequality_rules_ids()
}

/// Names of the rules of [`inequality_rules`], in order.
pub open spec fn inequality_rules_names() -> Seq<Seq<char>> {
    am_gm_rules_names() + cauchy_schwarz_rules_names() + triangle_inequality_rules_names() + absolute_value_rules_names() + square_inequality_rules_names() + advanced_inequality_rules_names()
}

/// Metadata of the rules of [`inequality_rules`], in order.
pub open spec fn inequality_rules_meta() -> Seq<RuleMeta> {
    am_gm_rules_meta() + cauchy_schwarz_rules_meta() + triangle_inequality_rules_meta() + absolute_value_rules_meta() + square_inequality_rules_meta() + advanced_inequality_rules_meta()
}

/// The rules of this group, in registration order.
pub fn inequality_rules() -> (rules: Vec<Rule>)
    ensures
        ids_of(rules@) == inequality_rules_ids(),
        names_of(rules@) == inequality_rules_names(),
        rules_view(rules@) == inequality_rules_meta(),
{
    let mut rules: Vec<Rule> = Vec::new();
    let mut part = am_gm_rules();
    let ghost before = rules@;
    rules.append(&mut part);
    proof {
        crate::rule::lemma_ids_names_append(before, part@);
    }
    let mut part = cauchy_schwarz_rules();
    let ghost before = rules@;
    rules.append(&mut part);
    proof {
        crate::rule::lemma_ids_names_append(before, part@);
    }
    let mut part = triangle_inequality_rules();
    let ghost before = rules@;
    rules.append(&mut part);
    proof {
        crate::rule::lemma_ids_names_append(before, part@);
    }
    let mut part = absolute_value_rules();
    let ghost before = rules@;
    rules.append(&mut part);
    proof {
        crate::rule::lemma_ids_names_append(before, part@);
    }
    let mut part = square_inequality_rules();
    let ghost before = rules@;
    rules.append(&mut part);
    proof {
        crate::rule::lemma_ids_names_append(before, part@);
    }
    let mut part = advanced_inequality_rules();
    let ghost before = rules@;
    rules.append(&mut part);
    proof {
        crate::rule::lemma_ids_names_append(before, part@);
    }
    assert(ids_of(rules@) =~= inequality_rules_ids());
    assert(names_of(rules@) =~= inequality_rules_names());
    assert(rules_view(rules@) =~= inequality_rules_meta());
    rules
}

/// The rule `bernoulli_inequality`: (1+x)^n >= 1 + nx for x >= -1, n >= 1.
pub fn bernoulli_inequality() -> (r: Rule)
    ensures
        rule_view(r) == (580u32, "bernoulli_inequality"@, RuleCategory::AlgebraicSolving, "(1+x)^n >= 1 + nx for x >= -1, n >= 1"@, Seq::<Domain>::empty(), Seq::<Feature>::empty(), false, 2u32, Rewrite::BernoulliInequality),
{
    Rule {
        id: RuleId(580),
        name: "bernoulli_inequality",
        category: RuleCategory::AlgebraicSolving,
        description: "(1+x)^n >= 1 + nx for x >= -1, n >= 1",
        domains: Vec::new(),
        requires: Vec::new(),
        reversible: false,
        cost: 2,
        rewrite: Rewrite::BernoulliInequality,
    }
}

/// The rule `qm_am_inequality`: QM >= AM: √((a²+b²)/2) >= (a+b)/2.
pub fn qm_am_inequality() -> (r: Rule)
    ensures
        rule_view(r) == (581u32, "qm_am_inequality"@, RuleCategory::AlgebraicSolving, "QM >= AM: √((a²+b²)/2) >= (a+b)/2"@, Seq::<Domain>::empty(), Seq::<Feature>::empty(), false, 2u32, Rewrite::QmAmInequality),
{
    Rule {
        id: RuleId(581),
        name: "qm_am_inequality",
        category: RuleCategory::AlgebraicSolving,
        description: "QM >= AM: √((a²+b²)/2) >= (a+b)/2",
        domains: Vec::new(),
        requires: Vec::new(),
        reversible: false,
        cost: 2,
        rewrite: Rewrite::QmAmInequality,
    }
}

/// The rule `hm_gm_inequality`: HM <= GM: 2ab/(a+b) <= √(ab).
pub fn hm_gm_inequality() -> (r: Rule)
    ensures
        rule_view(r) == (582u32, "hm_gm_inequality"@, RuleCategory::AlgebraicSolving, "HM <= GM: 2ab/(a+b) <= √(ab)"@, Seq::<Domain>::empty(), Seq::<Feature>::empty(), false, 2u32, Rewrite::HmGmInequality),
{
    Rule {
        id: RuleId(582),
        name: "hm_gm_inequality",
        category: RuleCategory::AlgebraicSolving,
        description: "HM <= GM: 2ab/(a+b) <= √(ab)",
        domains: Vec::new(),
        requires: Vec::new(),
        reversible: false,
        cost: 2,
        rewrite: Rewrite::HmGmInequality,
    }
}

/// The rule `positive_square_root`: √a >= 0 for a >= 0.
pub fn positive_square_root() -> (r: Rule)
    ensures
        rule_view(r) == (583u32, "positive_square_root"@, RuleCategory::Simplification, "√a >= 0 for a >= 0"@, Seq::<Domain>::empty(), Seq::<Feature>::empty(), false, 1u32, Rewrite::IneqPositiveSquareRoot),
{
    Rule {
        id: RuleId(583),
        name: "positive_square_root",
        category: RuleCategory::Simplification,
        description: "√a >= 0 for a >= 0",
        domains: Vec::new(),
        requires: Vec::new(),
        reversible: false,
        cost: 1,
        rewrite: Rewrite::IneqPositiveSquareRoot,
    }
}

/// The rule `exp_positivity`: e^x > 0 for all x.
pub fn exp_positivity() -> (r: Rule)
    ensures
        rule_view(r) == (584u32, "exp_positivity"@, RuleCategory::Simplification, "e^x > 0 for all x"@, Seq::<Domain>::empty(), Seq::<Feature>::empty(), false, 1u32, Rewrite::IneqExpPositivity),
{
    Rule {
        id: RuleId(584),
        name: "exp_positivity",
        category: RuleCategory::Simplification,
        description: "e^x > 0 for all x",
        domains: Vec::new(),
        requires: Vec::new(),
        reversible: false,
        cost: 1,
        rewrite: Rewrite::IneqExpPositivity,
    }
}

/// The rule `abs_product_advanced` (named apart from the absolute-value
/// group's `abs_product`): |ab| = |a||b|.
pub fn abs_product() -> (r: Rule)
    ensures
        rule_view(r) == (585u32, "abs_product_advanced"@, RuleCategory::Simplification, "|ab| = |a||b|"@, Seq::<Domain>::empty(), Seq::<Feature>::empty(), true, 1u32, Rewrite::AbsProductSplit),
{
    Rule {
        id: RuleId(585),
        name: "abs_product_advanced",
        category: RuleCategory::Simplification,
        description: "|ab| = |a||b|",
        domains: Vec::new(),
        requires: Vec::new(),
        reversible: true,
        cost: 1,
        rewrite: Rewrite::AbsProductSplit,
    }
}

/// The rule `abs_quotient_advanced` (named apart from the absolute-value
/// group's `abs_quotient`): |a/b| = |a|/|b|.
pub fn abs_quotient() -> (r: Rule)
    ensures
        rule_view(r) == (586u32, "abs_quotient_advanced"@, RuleCategory::Simplification, "|a/b| = |a|/|b|"@, Seq::<Domain>::empty(), Seq::<Feature>::empty(), true, 1u32, Rewrite::AbsQuotient),
{
    Rule {
        id: RuleId(586),
        name: "abs_quotient_advanced",
        category: RuleCategory::Simplification,
        description: "|a/b| = |a|/|b|",
        domains: Vec::new(),
        requires: Vec::new(),
        reversible: true,
        cost: 1,
        rewrite: Rewrite::AbsQuotient,
    }
}

/// The rule `abs_power`: |a^n| = |a|^n.
pub fn abs_power() -> (r: Rule)
    ensures
        rule_view(r) == (587u32, "abs_power"@, RuleCategory::Simplification, "|a^n| = |a|^n"@, Seq::<Domain>::empty(), Seq::<Feature>::empty(), true, 1u32, Rewrite::AbsPower),
{
    Rule {
        id: RuleId(587),
        name: "abs_power",
        category: RuleCategory::Simplification,
        description: "|a^n| = |a|^n",
        domains: Vec::new(),
        requires: Vec::new(),
        reversible: true,
        cost: 1,
        rewrite: Rewrite::AbsPower,
    }
}

/// The rule `add_to_both_sides`: Add same expression to both sides of equation.
pub fn add_to_both_sides() -> (r: Rule)
    ensures
        rule_view(r) == (588u32, "add_to_both_sides"@, RuleCategory::EquationSolving, "Add same expression to both sides of equation"@, Seq::<Domain>::empty(), Seq::<Feature>::empty(), true, 1u32, Rewrite::BothSides),
{
    Rule {
        id: RuleId(588),
        name: "add_to_both_sides",
        category: RuleCategory::EquationSolving,
        description: "Add same expression to both sides of equation",
        domains: Vec::new(),
        requires: Vec::new(),
        reversible: true,
        cost: 1,
        rewrite: Rewrite::BothSides,
    }
}

/// The rule `mul_positive_both_sides`: Multiply both sides by positive expression.
pub fn mul_positive_both_sides() -> (r: Rule)
    ensures
        rule_view(r) == (589u32, "mul_positive_both_sides"@, RuleCategory::EquationSolving, "Multiply both sides by positive expression"@, Seq::<Domain>::empty(), Seq::<Feature>::empty(), true, 1u32, Rewrite::BothSides),
{
    Rule {
        id: RuleId(589),
        name: "mul_positive_both_sides",
        category: RuleCategory::EquationSolving,
        description: "Multiply both sides by positive expression",
        domains: Vec::new(),
        requires: Vec::new(),
        reversible: true,
        cost: 1,
        rewrite: Rewrite::BothSides,
    }
}

/// The rule `sqrt_comparison`: For a,b >= 0: a >= b => √a >= √b.
pub fn sqrt_comparison() -> (r: Rule)
    ensures
        rule_view(r) == (590u32, "sqrt_comparison"@, RuleCategory::AlgebraicSolving, "For a,b >= 0: a >= b => √a >= √b"@, Seq::<Domain>::empty(), Seq::<Feature>::empty(), false, 1u32, Rewrite::SqrtComparison),
{
    Rule {
        id: RuleId(590),
        name: "sqrt_comparison",
        category: RuleCategory::AlgebraicSolving,
        description: "For a,b >= 0: a >= b => √a >= √b",
        domains: Vec::new(),
        requires: Vec::new(),
        reversible: false,
        cost: 1,
        rewrite: Rewrite::SqrtComparison,
    }
}

/// The rule `ln_comparison`: For a,b > 0: a > b => ln(a) > ln(b).
pub fn ln_comparison() -> (r: Rule)
    ensures
        rule_view(r) == (591u32, "ln_comparison"@, RuleCategory::AlgebraicSolving, "For a,b > 0: a > b => ln(a) > ln(b)"@, Seq::<Domain>::empty(), Seq::<Feature>::empty(), false, 1u32, Rewrite::LnComparison),
{
    Rule {
        id: RuleId(591),
        name: "ln_comparison",
        category: RuleCategory::AlgebraicSolving,
        description: "For a,b > 0: a > b => ln(a) > ln(b)",
        domains: Vec::new(),
        requires: Vec::new(),
        reversible: false,
        cost: 1,
        rewrite: Rewrite::LnComparison,
    }
}

/// The rule `exp_monotonic`: a > b => e^a > e^b (exp is increasing).
pub fn exp_monotonic() -> (r: Rule)
    ensures
        rule_view(r) == (512u32, "exp_monotonic"@, RuleCategory::AlgebraicSolving, "a > b => e^a > e^b (exp is increasing)"@, Seq::<Domain>::empty(), Seq::<Feature>::empty(), false, 1u32, Rewrite::ExpMonotonic),
{
    Rule {
        id: RuleId(512),
        name: "exp_monotonic",
        category: RuleCategory::AlgebraicSolving,
        description: "a > b => e^a > e^b (exp is increasing)",
        domains: Vec::new(),
        requires: Vec::new(),
        reversible: false,
        cost: 1,
        rewrite: Rewrite::ExpMonotonic,
    }
}

/// The rule `ln_monotonic`: a > b > 0 => ln(a) > ln(b) (ln is increasing).
pub fn ln_monotonic() -> (r: Rule)
    ensures
        rule_view(r) == (513u32, "ln_monotonic"@, RuleCategory::AlgebraicSolving, "a > b > 0 => ln(a) > ln(b) (ln is increasing)"@, Seq::<Domain>::empty(), Seq::<Feature>::empty(), false, 1u32, Rewrite::LnMonotonic),
{
    Rule {
        id: RuleId(513),
        name: "ln_monotonic",
        category: RuleCategory::AlgebraicSolving,
        description: "a > b > 0 => ln(a) > ln(b) (ln is increasing)",
        domains: Vec::new(),
        requires: Vec::new(),
        reversible: false,
        cost: 1,
        rewrite: Rewrite::LnMonotonic,
    }
}


/// A fraction to a natural power, unreduced.
pub open spec fn frac_pow(x: (int, int), k: nat) -> (int, int)
    decreases k,
{
    if k == 0 {
        (1, 1)
    } else {
        frac_mul(frac_pow(x, (k - 1) as nat), x)
    }
}

/// The exact value of `e` under the assignment `env` of values to
/// variables, as an unreduced fraction: constants, the variable, `-`, `+`, `-`, `·`, `/` by a non-zero
/// value, `|·|` and powers with a non-negative integer exponent; `None`
/// elsewhere.
pub open spec fn value_of(e: Expr, env: Map<Symbol, (int, int)>) -> Option<(int, int)>
    decreases e,
{
    match e {
        Expr::Const(c) => Some(c.pair()),
        Expr::Var(v) => if env.contains_key(v) { Some(env[v]) } else { None },
        Expr::Neg(a) => match value_of(*a, env) {
            Some(x) => Some((-x.0, x.1)),
            None => None,
        },
        Expr::Abs(a) => match value_of(*a, env) {
            Some(x) => Some((abs(x.0) as int, abs(x.1) as int)),
            None => None,
        },
        Expr::Add(a, b) => match (value_of(*a, env), value_of(*b, env)) {
            (Some(x), Some(y)) => Some(frac_add(x, y)),
            _ => None,
        },
        Expr::Sub(a, b) => match (value_of(*a, env), value_of(*b, env)) {
            (Some(x), Some(y)) => Some(frac_sub(x, y)),
            _ => None,
        },
        Expr::Mul(a, b) => match (value_of(*a, env), value_of(*b, env)) {
            (Some(x), Some(y)) => Some(frac_mul(x, y)),
            _ => None,
        },
        Expr::Div(a, b) => match (value_of(*a, env), value_of(*b, env)) {
            (Some(x), Some(y)) => if y.0 != 0 { Some(frac_div(x, y)) } else { None },
            _ => None,
        },
        Expr::Pow(a, k) => match (value_of(*a, env), *k) {
            (Some(x), Expr::Const(c)) => if c.den() == 1 && c.num() >= 0 {
                Some(frac_pow(x, c.num() as nat))
            } else {
                None
            },
            _ => None,
        },
        _ => None,
    }
}

/// `|p·q| = |p|·|q|`.
proof fn lemma_abs_mul(p: int, q: int)
    ensures
        abs(p * q) == abs(p) * abs(q),
{
    if p >= 0 && q >= 0 {
        assert(p * q >= 0) by (nonlinear_arith) requires p >= 0 && q >= 0;
    } else if p < 0 && q < 0 {
        assert(p * q == (-p) * (-q)) by (nonlinear_arith);
        assert((-p) * (-q) >= 0) by (nonlinear_arith) requires p < 0 && q < 0;
    } else if p < 0 {
        assert(p * q == -((-p) * q)) by (nonlinear_arith);
        assert((-p) * q >= 0) by (nonlinear_arith) requires p < 0 && q >= 0;
    } else {
        assert(p * q == -(p * (-q))) by (nonlinear_arith);
        assert(p * (-q) >= 0) by (nonlinear_arith) requires p >= 0 && q < 0;
    }
}

/// The equational absolute-value rules keep the value: under any assignment
/// of values to variables where the expression has a value, every result of `abs_product`, `abs_quotient`,
/// `abs_neg`, `abs_abs` and `abs_squared` has the same value.  (`abs_nonneg`,
/// position 0, answers with the inequality `|a| ≥ 0` instead.)
pub proof fn lemma_absolute_value_rules_keep_value(i: int, e: Expr, env: Map<Symbol, (int, int)>, k: int)
    requires
        1 <= i < absolute_value_rules_meta().len(),
        0 <= k < crate::rewrite::results(absolute_value_rules_meta()[i].8, e).len(),
        value_of(e, env) is Some,
    ensures
        value_of(crate::rewrite::results(absolute_value_rules_meta()[i].8, e)[k].0, env) == value_of(e, env),
{
    let m = absolute_value_rules_meta();
    assert(m.len() == 6);
    reveal_with_fuel(value_of, 3);
    if i == 1 {
        assert(m[1].8 == Rewrite::AbsProduct);
        assert(crate::rewrite::results(m[i].8, e) == crate::rewrite::abs_product_results(e));
        if let Expr::Abs(x) = e {
            if let Expr::Mul(a, b) = *x {
                let p = value_of(*a, env)->0;
                let q = value_of(*b, env)->0;
                lemma_abs_mul(p.0, q.0);
                lemma_abs_mul(p.1, q.1);
            }
        }
        assert(value_of(crate::rewrite::results(m[i].8, e)[k].0, env) == value_of(e, env));
    } else if i == 2 {
        assert(m[2].8 == Rewrite::AbsQuotient);
        assert(crate::rewrite::results(m[i].8, e) == crate::rewrite::abs_quotient_results(e));
        if let Expr::Abs(x) = e {
            if let Expr::Div(a, b) = *x {
                let p = value_of(*a, env)->0;
                let q = value_of(*b, env)->0;
                lemma_abs_mul(p.0, q.1);
                lemma_abs_mul(p.1, q.0);
            }
        }
        assert(value_of(crate::rewrite::results(m[i].8, e)[k].0, env) == value_of(e, env));
    } else if i == 3 {
        assert(m[3].8 == Rewrite::AbsNeg);
        assert(crate::rewrite::results(m[i].8, e) == crate::rewrite::abs_neg_results(e));
        assert(value_of(crate::rewrite::results(m[i].8, e)[k].0, env) == value_of(e, env));
    } else if i == 4 {
        assert(m[4].8 == Rewrite::AbsAbs);
        assert(crate::rewrite::results(m[i].8, e) == crate::rewrite::abs_abs_results(e));
        assert(value_of(crate::rewrite::results(m[i].8, e)[k].0, env) == value_of(e, env));
    } else {
        assert(m[5].8 == Rewrite::AbsSquared);
        assert(crate::rewrite::results(m[i].8, e) == crate::rewrite::abs_squared_results(e));
        if let Expr::Pow(base, x) = e {
            if let Expr::Abs(a) = *base {
                if is_lit(*x, 2) {
                    let p = value_of(*a, env)->0;
                    reveal_with_fuel(frac_pow, 3);
                    assert(frac_pow(p, 2) == frac_mul(frac_mul((1, 1), p), p));
                    let ap = (abs(p.0) as int, abs(p.1) as int);
                    assert(frac_pow(ap, 2) == frac_mul(frac_mul((1, 1), ap), ap));
                    lemma_abs_mul(p.0, p.0);
                    lemma_abs_mul(p.1, p.1);
                    assert(p.0 * p.0 >= 0 && p.1 * p.1 >= 0) by (nonlinear_arith);
                    assert(1 * p.0 == p.0 && 1 * p.1 == p.1 && 1 * ap.0 == ap.0 && 1 * ap.1 == ap.1);
                }
            }
        }
        assert(value_of(crate::rewrite::results(m[i].8, e)[k].0, env) == value_of(e, env));
    }
}


/// Where an absolute-value rule applies, it gives exactly one result.
pub proof fn lemma_absolute_value_rules_single(i: int, e: Expr, target: Option<Symbol>)
    requires
        0 <= i < absolute_value_rules_meta().len(),
        crate::rewrite::applies(absolute_value_rules_meta()[i].8, e, target),
    ensures
        crate::rewrite::results(absolute_value_rules_meta()[i].8, e).len() == 1,
{
    let m = absolute_value_rules_meta();
    assert(m.len() == 6);
    if i == 0 {
        assert(m[0].8 == Rewrite::AbsNonneg);
    } else if i == 1 {
        assert(m[1].8 == Rewrite::AbsProduct);
    } else if i == 2 {
        assert(m[2].8 == Rewrite::AbsQuotient);
    } else if i == 3 {
        assert(m[3].8 == Rewrite::AbsNeg);
    } else if i == 4 {
        assert(m[4].8 == Rewrite::AbsAbs);
    } else {
        assert(m[5].8 == Rewrite::AbsSquared);
    }
}

} // verus!
