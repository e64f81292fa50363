//! Polynomial rules: Vieta, symmetric polynomials, factoring and rational roots.
//!
//! Each group function returns the metadata of its rules in registration
//! order; its contract fixes every field of every rule.

use vstd::prelude::*;
use crate::rewrite::Rewrite;
use crate::rule::{ids_of, names_of, rule_view, rules_view, RuleMeta, Domain, Feature, Rule, RuleCategory, RuleId};

verus! {
/// Identifiers of the rules of [`vieta_rules`], in order.
pub open spec fn vieta_rules_ids() -> Seq<u32> {
    seq![500u32, 501u32, 502u32, 503u32, 504u32]
}

/// Names of the rules of [`vieta_rules`], in order.
pub open spec fn vieta_rules_names() -> Seq<Seq<char>> {
    seq!["vieta_sum_quadratic"@, "vieta_product_quadratic"@, "vieta_sum_cubic"@, "vieta_pairs_cubic"@, "vieta_product_cubic"@]
}

/// Metadata of the rules of [`vieta_rules`], in order.
pub open spec fn vieta_rules_meta() -> Seq<RuleMeta> {
    seq![
        (500u32, "vieta_sum_quadratic"@, RuleCategory::AlgebraicSolving, "For ax² + bx + c = 0: r₁ + r₂ = -b/a"@, Seq::<Domain>::empty(), Seq::<Feature>::empty(), true, 2u32, Rewrite::PolyVietaSumQuadratic),
        (501u32, "vieta_product_quadratic"@, RuleCategory::AlgebraicSolving, "For ax² + bx + c = 0: r₁ · r₂ = c/a"@, Seq::<Domain>::empty(), Seq::<Feature>::empty(), true, 2u32, Rewrite::PolyVietaProductQuadratic),
        (502u32, "vieta_sum_cubic"@, RuleCategory::AlgebraicSolving, "For ax³ + bx² + cx + d = 0: r₁ + r₂ + r₃ = -b/a"@, Seq::<Domain>::empty(), Seq::<Feature>::empty(), true, 2u32, Rewrite::PolyVietaSumCubic),
        (503u32, "vieta_pairs_cubic"@, RuleCategory::AlgebraicSolving, "r₁r₂ + r₂r₃ + r₁r₃ = c/a"@, Seq::<Domain>::empty(), Seq::<Feature>::empty(), true, 2u32, Rewrite::PolyVietaPairsCubic),
        (504u32, "vieta_product_cubic"@, RuleCategory::AlgebraicSolving, "r₁ · r₂ · r₃ = -d/a"@, Seq::<Domain>::empty(), Seq::<Feature>::empty(), true, 2u32, Rewrite::PolyVietaProductCubic),
    ]
}

/// The rules of this group, in registration order.
fn vieta_rules() -> (rules: Vec<Rule>)
    ensures
        ids_of(rules@) == vieta_rules_ids(),
        names_of(rules@) == vieta_rules_names(),
        rules_view(rules@) == vieta_rules_meta(),
{
    let mut rules: Vec<Rule> = Vec::new();
    let mut part: Vec<Rule> = vec![
        Rule {
            id: RuleId(500),
            name: "vieta_sum_quadratic",
            category: RuleCategory::AlgebraicSolving,
            description: "For ax² + bx + c = 0: r₁ + r₂ = -b/a",
            domains: Vec::new(),
            requires: Vec::new(),
            reversible: true,
            cost: 2,
            rewrite: Rewrite::PolyVietaSumQuadratic,
        },
        Rule {
            id: RuleId(501),
            name: "vieta_product_quadratic",
            category: RuleCategory::AlgebraicSolving,
            description: "For ax² + bx + c = 0: r₁ · r₂ = c/a",
            domains: Vec::new(),
            requires: Vec::new(),
            reversible: true,
            cost: 2,
            rewrite: Rewrite::PolyVietaProductQuadratic,
        },
        Rule {
            id: RuleId(502),
            name: "vieta_sum_cubic",
            category: RuleCategory::AlgebraicSolving,
            description: "For ax³ + bx² + cx + d = 0: r₁ + r₂ + r₃ = -b/a",
            domains: Vec::new(),
            requires: Vec::new(),
            reversible: true,
            cost: 2,
            rewrite: Rewrite::PolyVietaSumCubic,
        },
        Rule {
            id: RuleId(503),
            name: "vieta_pairs_cubic",
            category: RuleCategory::AlgebraicSolving,
            description: "r₁r₂ + r₂r₃ + r₁r₃ = c/a",
            domains: Vec::new(),
            requires: Vec::new(),
            reversible: true,
            cost: 2,
            rewrite: Rewrite::PolyVietaPairsCubic,
        },
        Rule {
            id: RuleId(504),
            name: "vieta_product_cubic",
            category: RuleCategory::AlgebraicSolving,
            description: "r₁ · r₂ · r₃ = -d/a",
            domains: Vec::new(),
            requires: Vec::new(),
            reversible: true,
            cost: 2,
            rewrite: Rewrite::PolyVietaProductCubic,
        },
    ];
    assert(ids_of(part@) =~= seq![500u32, 501u32, 502u32, 503u32, 504u32]);
    assert(names_of(part@) =~= seq!["vieta_sum_quadratic"@, "vieta_product_quadratic"@, "vieta_sum_cubic"@, "vieta_pairs_cubic"@, "vieta_product_cubic"@]);
    assert(rules_view(part@) =~~= vieta_rules_meta());
    let ghost before = rules@;
    rules.append(&mut part);
    proof {
        crate::rule::lemma_ids_names_append(before, part@);
    }
    assert(ids_of(rules@) =~= vieta_rules_ids());
    assert(names_of(rules@) =~= vieta_rules_names());
    assert(rules_view(rules@) =~= vieta_rules_meta());
    rules
}

/// Identifiers of the rules of [`symmetric_polynomial_rules`], in order.
pub open spec fn symmetric_polynomial_rules_ids() -> Seq<u32> {
    seq![520u32, 521u32, 522u32, 523u32, 524u32, 525u32, 526u32, 527u32]
}

/// Names of the rules of [`symmetric_polynomial_rules`], in order.
pub open spec fn symmetric_polynomial_rules_names() -> Seq<Seq<char>> {
    seq!["elementary_sym_1"@, "elementary_sym_2"@, "newton_identity_1"@, "newton_identity_2"@, "newton_identity_3"@, "sum_squares_sym"@, "sum_cubes_sym"@, "sum_three_cubes"@]
}

/// Metadata of the rules of [`symmetric_polynomial_rules`], in order.
pub open spec fn symmetric_polynomial_rules_meta() -> Seq<RuleMeta> {
    seq![
        (520u32, "elementary_sym_1"@, RuleCategory::AlgebraicSolving, "e₁ = Σxᵢ (sum of variables)"@, Seq::<Domain>::empty(), Seq::<Feature>::empty(), true, 2u32, Rewrite::PolyElementarySym1),
        (521u32, "elementary_sym_2"@, RuleCategory::AlgebraicSolving, "e₂ = Σxᵢxⱼ (sum of pairwise products)"@, Seq::<Domain>::empty(), Seq::<Feature>::empty(), true, 2u32, Rewrite::PolyElementarySym2),
        (522u32, "newton_identity_1"@, RuleCategory::AlgebraicSolving, "p₁ = e₁"@, Seq::<Domain>::empty(), Seq::<Feature>::empty(), true, 2u32, Rewrite::PolyNewtonIdentity1),
        (523u32, "newton_identity_2"@, RuleCategory::AlgebraicSolving, "p₂ = e₁² - 2e₂"@, Seq::<Domain>::empty(), Seq::<Feature>::empty(), true, 3u32, Rewrite::PolyNewtonIdentity2),
        (524u32, "newton_identity_3"@, RuleCategory::AlgebraicSolving, "p₃ = e₁³ - 3e₁e₂ + 3e₃"@, Seq::<Domain>::empty(), Seq::<Feature>::empty(), true, 3u32, Rewrite::PolyNewtonIdentity3),
        (525u32, "sum_squares_sym"@, RuleCategory::Simplification, "x² + y² = (x+y)² - 2xy"@, Seq::<Domain>::empty(), Seq::<Feature>::empty(), true, 2u32, Rewrite::SumSquaresSym),
        (526u32, "sum_cubes_sym"@, RuleCategory::Simplification, "x³ + y³ = (x+y)³ - 3xy(x+y)"@, Seq::<Domain>::empty(), Seq::<Feature>::empty(), true, 3u32, Rewrite::PolySumCubesSym),
        (527u32, "sum_three_cubes"@, RuleCategory::Factoring, "x³+y³+z³-3xyz = (x+y+z)(x²+y²+z²-xy-yz-zx)"@, Seq::<Domain>::empty(), Seq::<Feature>::empty(), true, 4u32, Rewrite::PolySumThreeCubes),
    ]
}

/// The rules of this group, in registration order.
fn symmetric_polynomial_rules() -> (rules: Vec<Rule>)
    ensures
        ids_of(rules@) == symmetric_polynomial_rules_ids(),
        names_of(rules@) == symmetric_polynomial_rules_names(),
        rules_view(rules@) == symmetric_polynomial_rules_meta(),
{
    let mut rules: Vec<Rule> = Vec::new();
    let mut part: Vec<Rule> = vec![
        Rule {
            id: RuleId(520),
            name: "elementary_sym_1",
            category: RuleCategory::AlgebraicSolving,
            description: "e₁ = Σxᵢ (sum of variables)",
            domains: Vec::new(),
            requires: Vec::new(),
            reversible: true,
            cost: 2,
            rewrite: Rewrite::PolyElementarySym1,
        },
        Rule {
            id: RuleId(521),
            name: "elementary_sym_2",
            category: RuleCategory::AlgebraicSolving,
            description: "e₂ = Σxᵢxⱼ (sum of pairwise products)",
            domains: Vec::new(),
            requires: Vec::new(),
            reversible: true,
            cost: 2,
            rewrite: Rewrite::PolyElementarySym2,
        },
        Rule {
            id: RuleId(522),
            name: "newton_identity_1",
            category: RuleCategory::AlgebraicSolving,
            description: "p₁ = e₁",
            domains: Vec::new(),
            requires: Vec::new(),
            reversible: true,
            cost: 2,
            rewrite: Rewrite::PolyNewtonIdentity1,
        },
        Rule {
            id: RuleId(523),
            name: "newton_identity_2",
            category: RuleCategory::AlgebraicSolving,
            description: "p₂ = e₁² - 2e₂",
            domains: Vec::new(),
            requires: Vec::new(),
            reversible: true,
            cost: 3,
            rewrite: Rewrite::PolyNewtonIdentity2,
        },
        Rule {
            id: RuleId(524),
            name: "newton_identity_3",
            category: RuleCategory::AlgebraicSolving,
            description: "p₃ = e₁³ - 3e₁e₂ + 3e₃",
            domains: Vec::new(),
            requires: Vec::new(),
            reversible: true,
            cost: 3,
            rewrite: Rewrite::PolyNewtonIdentity3,
        },
        Rule {
            id: RuleId(525),
            name: "sum_squares_sym",
            category: RuleCategory::Simplification,
            description: "x² + y² = (x+y)² - 2xy",
            domains: Vec::new(),
            requires: Vec::new(),
            reversible: true,
            cost: 2,
            rewrite: Rewrite::SumSquaresSym,
        },
        Rule {
            id: RuleId(526),
            name: "sum_cubes_sym",
            category: RuleCategory::Simplification,
            description: "x³ + y³ = (x+y)³ - 3xy(x+y)",
            domains: Vec::new(),
            requires: Vec::new(),
            reversible: true,
            cost: 3,
            rewrite: Rewrite::PolySumCubesSym,
        },
        Rule {
            id: RuleId(527),
            name: "sum_three_cubes",
            category: RuleCategory::Factoring,
            description: "x³+y³+z³-3xyz = (x+y+z)(x²+y²+z²-xy-yz-zx)",
            domains: Vec::new(),
            requires: Vec::new(),
            reversible: true,
            cost: 4,
            rewrite: Rewrite::PolySumThreeCubes,
        },
    ];
    assert(ids_of(part@) =~= seq![520u32, 521u32, 522u32, 523u32, 524u32, 525u32, 526u32, 527u32]);
    assert(names_of(part@) =~= seq!["elementary_sym_1"@, "elementary_sym_2"@, "newton_identity_1"@, "newton_identity_2"@, "newton_identity_3"@, "sum_squares_sym"@, "sum_cubes_sym"@, "sum_three_cubes"@]);
    assert(rules_view(part@) =~~= symmetric_polynomial_rules_meta());
    let ghost before = rules@;
    rules.append(&mut part);
    proof {
        crate::rule::lemma_ids_names_append(before, part@);
    }
    assert(ids_of(rules@) =~= symmetric_polynomial_rules_ids());
    assert(names_of(rules@) =~= symmetric_polynomial_rules_names());
    assert(rules_view(rules@) =~= symmetric_polynomial_rules_meta());
    rules
}

/// Identifiers of the rules of [`factoring_rules`], in order.
pub open spec fn factoring_rules_ids() -> Seq<u32> {
    seq![540u32, 541u32, 542u32, 543u32, 544u32, 545u32, 546u32, 547u32, 548u32, 549u32, 550u32, 551u32, 552u32, 553u32, 554u32, 555u32, 556u32, 557u32, 558u32, 559u32]
}

/// Names of the rules of [`factoring_rules`], in order.
pub open spec fn factoring_rules_names() -> Seq<Seq<char>> {
    seq!["factor_theorem"@, "remainder_theorem"@, "poly_div_identity"@, "complete_square"@, "diff_nth_power"@, "diff_cubes"@, "sum_cubes"@, "sophie_germain"@, "factor_by_grouping"@, "sum_odd_powers"@, "diff_even_powers"@, "cyclotomic_factor"@, "binomial_factor"@, "quadratic_substitution"@, "symmetric_factor"@, "partial_fractions"@, "horner_method"@, "synthetic_division"@, "polynomial_long_division"@, "ruffini_rule"@]
}

/// Metadata of the rules of [`factoring_rules`], in order.
pub open spec fn factoring_rules_meta() -> Seq<RuleMeta> {
    seq![
        (540u32, "factor_theorem"@, RuleCategory::Factoring, "(x-a) | P(x) ⟺ P(a) = 0"@, Seq::<Domain>::empty(), Seq::<Feature>::empty(), true, 3u32, Rewrite::PolyFactorTheorem),
        (541u32, "remainder_theorem"@, RuleCategory::AlgebraicSolving, "P(a) is remainder when dividing P(x) by (x-a)"@, Seq::<Domain>::empty(), Seq::<Feature>::empty(), false, 3u32, Rewrite::PolyRemainderTheorem),
        (542u32, "poly_div_identity"@, RuleCategory::AlgebraicSolving, "P(x) = D(x)·Q(x) + R(x)"@, Seq::<Domain>::empty(), Seq::<Feature>::empty(), true, 4u32, Rewrite::PolyPolyDivIdentity),
        (543u32, "complete_square"@, RuleCategory::Simplification, "x² + bx = (x + b/2)² - b²/4"@, Seq::<Domain>::empty(), Seq::<Feature>::empty(), true, 3u32, Rewrite::CompleteSquare),
        (544u32, "diff_nth_power"@, RuleCategory::Factoring, "xⁿ - yⁿ = (x-y)(xⁿ⁻¹ + xⁿ⁻²y + ... + yⁿ⁻¹)"@, Seq::<Domain>::empty(), Seq::<Feature>::empty(), true, 4u32, Rewrite::DiffNthPower),
        (545u32, "diff_cubes"@, RuleCategory::Factoring, "a³ - b³ = (a-b)(a² + ab + b²)"@, Seq::<Domain>::empty(), Seq::<Feature>::empty(), true, 3u32, Rewrite::DiffCubes),
        (546u32, "sum_cubes"@, RuleCategory::Factoring, "a³ + b³ = (a+b)(a² - ab + b²)"@, Seq::<Domain>::empty(), Seq::<Feature>::empty(), true, 3u32, Rewrite::PolySumCubes),
        (547u32, "sophie_germain"@, RuleCategory::Factoring, "a⁴ + 4b⁴ = (a² + 2b² + 2ab)(a² + 2b² - 2ab)"@, Seq::<Domain>::empty(), Seq::<Feature>::empty(), true, 4u32, Rewrite::PolySophieGermain),
        (548u32, "factor_by_grouping"@, RuleCategory::Factoring, "ax + ay + bx + by = (a+b)(x+y)"@, Seq::<Domain>::empty(), Seq::<Feature>::empty(), true, 3u32, Rewrite::PolyFactorByGrouping),
        (549u32, "sum_odd_powers"@, RuleCategory::Factoring, "x^(2n+1) + y^(2n+1) = (x+y)·Q(x,y)"@, Seq::<Domain>::empty(), Seq::<Feature>::empty(), false, 3u32, Rewrite::PolySumOddPowers),
        (550u32, "diff_even_powers"@, RuleCategory::Factoring, "x^(2n) - y^(2n) = (x-y)(x+y)·Q(x,y)"@, Seq::<Domain>::empty(), Seq::<Feature>::empty(), false, 3u32, Rewrite::PolyDiffEvenPowers),
        (551u32, "cyclotomic_factor"@, RuleCategory::Factoring, "x^n - 1 = Π Φ_d(x) for d|n"@, Seq::<Domain>::empty(), Seq::<Feature>::empty(), false, 4u32, Rewrite::CyclotomicFactor),
        (552u32, "binomial_factor"@, RuleCategory::Factoring, "(x+y)^n expansion via binomial theorem"@, Seq::<Domain>::empty(), Seq::<Feature>::empty(), false, 3u32, Rewrite::BinomialFactor),
        (553u32, "quadratic_substitution"@, RuleCategory::Factoring, "Biquadratic: x⁴ + bx² + c via u = x²"@, Seq::<Domain>::empty(), Seq::<Feature>::empty(), false, 2u32, Rewrite::PolyQuadraticSubstitution),
        (554u32, "symmetric_factor"@, RuleCategory::Factoring, "Symmetric polynomial factorization"@, Seq::<Domain>::empty(), Seq::<Feature>::empty(), false, 4u32, Rewrite::PolySymmetricFactor),
        (555u32, "partial_fractions"@, RuleCategory::Simplification, "P(x)/Q(x) = Σ A_i/(x-r_i)^k"@, Seq::<Domain>::empty(), Seq::<Feature>::empty(), false, 4u32, Rewrite::PolyPartialFractions),
        (556u32, "horner_method"@, RuleCategory::Simplification, "P(x) = (...((a_n·x + a_{n-1})x + ...)x + a_0"@, Seq::<Domain>::empty(), Seq::<Feature>::empty(), false, 2u32, Rewrite::PolyHornerMethod),
        (557u32, "synthetic_division"@, RuleCategory::Simplification, "Synthetic division by (x-a)"@, Seq::<Domain>::empty(), Seq::<Feature>::empty(), false, 2u32, Rewrite::PolySyntheticDivision),
        (558u32, "polynomial_long_division"@, RuleCategory::Simplification, "Long division algorithm for polynomials"@, Seq::<Domain>::empty(), Seq::<Feature>::empty(), false, 3u32, Rewrite::PolyPolynomialLongDivision),
        (559u32, "ruffini_rule"@, RuleCategory::Simplification, "Ruffini's rule for polynomial division"@, Seq::<Domain>::empty(), Seq::<Feature>::empty(), false, 2u32, Rewrite::PolyRuffiniRule),
    ]
}

/// The rules of this group, in registration order.
fn factoring_rules() -> (rules: Vec<Rule>)
    ensures
        ids_of(rules@) == factoring_rules_ids(),
        names_of(rules@) == factoring_rules_names(),
        rules_view(rules@) == factoring_rules_meta(),
{
    let mut rules: Vec<Rule> = Vec::new();
    let mut part: Vec<Rule> = vec![
        Rule {
            id: RuleId(540),
            name: "factor_theorem",
            category: RuleCategory::Factoring,
            description: "(x-a) | P(x) ⟺ P(a) = 0",
            domains: Vec::new(),
            requires: Vec::new(),
            reversible: true,
            cost: 3,
            rewrite: Rewrite::PolyFactorTheorem,
        },
        Rule {
            id: RuleId(541),
            name: "remainder_theorem",
            category: RuleCategory::AlgebraicSolving,
            description: "P(a) is remainder when dividing P(x) by (x-a)",
            domains: Vec::new(),
            requires: Vec::new(),
            reversible: false,
            cost: 3,
            rewrite: Rewrite::PolyRemainderTheorem,
        },
        Rule {
            id: RuleId(542),
            name: "poly_div_identity",
            category: RuleCategory::AlgebraicSolving,
            description: "P(x) = D(x)·Q(x) + R(x)",
            domains: Vec::new(),
            requires: Vec::new(),
            reversible: true,
            cost: 4,
            rewrite: Rewrite::PolyPolyDivIdentity,
        },
        Rule {
            id: RuleId(543),
            name: "complete_square",
            category: RuleCategory::Simplification,
            description: "x² + bx = (x + b/2)² - b²/4",
            domains: Vec::new(),
            requires: Vec::new(),
            reversible: true,
            cost: 3,
            rewrite: Rewrite::CompleteSquare,
        },
        Rule {
            id: RuleId(544),
            name: "diff_nth_power",
            category: RuleCategory::Factoring,
            description: "xⁿ - yⁿ = (x-y)(xⁿ⁻¹ + xⁿ⁻²y + ... + yⁿ⁻¹)",
            domains: Vec::new(),
            requires: Vec::new(),
            reversible: true,
            cost: 4,
            rewrite: Rewrite::DiffNthPower,
        },
        Rule {
            id: RuleId(545),
            name: "diff_cubes",
            category: RuleCategory::Factoring,
            description: "a³ - b³ = (a-b)(a² + ab + b²)",
            domains: Vec::new(),
            requires: Vec::new(),
            reversible: true,
            cost: 3,
            rewrite: Rewrite::DiffCubes,
        },
        Rule {
            id: RuleId(546),
            name: "sum_cubes",
            category: RuleCategory::Factoring,
            description: "a³ + b³ = (a+b)(a² - ab + b²)",
            domains: Vec::new(),
            requires: Vec::new(),
            reversible: true,
            cost: 3,
            rewrite: Rewrite::PolySumCubes,
        },
        Rule {
            id: RuleId(547),
            name: "sophie_germain",
            category: RuleCategory::Factoring,
            description: "a⁴ + 4b⁴ = (a² + 2b² + 2ab)(a² + 2b² - 2ab)",
            domains: Vec::new(),
            requires: Vec::new(),
            reversible: true,
            cost: 4,
            rewrite: Rewrite::PolySophieGermain,
        },
        Rule {
            id: RuleId(548),
            name: "factor_by_grouping",
            category: RuleCategory::Factoring,
            description: "ax + ay + bx + by = (a+b)(x+y)",
            domains: Vec::new(),
            requires: Vec::new(),
            reversible: true,
            cost: 3,
            rewrite: Rewrite::PolyFactorByGrouping,
        },
        Rule {
            id: RuleId(549),
            name: "sum_odd_powers",
            category: RuleCategory::Factoring,
            description: "x^(2n+1) + y^(2n+1) = (x+y)·Q(x,y)",
            domains: Vec::new(),
            requires: Vec::new(),
            reversible: false,
            cost: 3,
            rewrite: Rewrite::PolySumOddPowers,
        },
        Rule {
            id: RuleId(550),
            name: "diff_even_powers",
            category: RuleCategory::Factoring,
            description: "x^(2n) - y^(2n) = (x-y)(x+y)·Q(x,y)",
            domains: Vec::new(),
            requires: Vec::new(),
            reversible: false,
            cost: 3,
            rewrite: Rewrite::PolyDiffEvenPowers,
        },
        Rule {
            id: RuleId(551),
            name: "cyclotomic_factor",
            category: RuleCategory::Factoring,
            description: "x^n - 1 = Π Φ_d(x) for d|n",
            domains: Vec::new(),
            requires: Vec::new(),
            reversible: false,
            cost: 4,
            rewrite: Rewrite::CyclotomicFactor,
        },
        Rule {
            id: RuleId(552),
            name: "binomial_factor",
            category: RuleCategory::Factoring,
            description: "(x+y)^n expansion via binomial theorem",
            domains: Vec::new(),
            requires: Vec::new(),
            reversible: false,
            cost: 3,
            rewrite: Rewrite::BinomialFactor,
        },
        Rule {
            id: RuleId(553),
            name: "quadratic_substitution",
            category: RuleCategory::Factoring,
            description: "Biquadratic: x⁴ + bx² + c via u = x²",
            domains: Vec::new(),
            requires: Vec::new(),
            reversible: false,
            cost: 2,
            rewrite: Rewrite::PolyQuadraticSubstitution,
        },
        Rule {
            id: RuleId(554),
            name: "symmetric_factor",
            category: RuleCategory::Factoring,
            description: "Symmetric polynomial factorization",
            domains: Vec::new(),
            requires: Vec::new(),
            reversible: false,
            cost: 4,
            rewrite: Rewrite::PolySymmetricFactor,
        },
        Rule {
            id: RuleId(555),
            name: "partial_fractions",
            category: RuleCategory::Simplification,
            description: "P(x)/Q(x) = Σ A_i/(x-r_i)^k",
            domains: Vec::new(),
            requires: Vec::new(),
            reversible: false,
            cost: 4,
            rewrite: Rewrite::PolyPartialFractions,
        },
        Rule {
            id: RuleId(556),
            name: "horner_method",
            category: RuleCategory::Simplification,
            description: "P(x) = (...((a_n·x + a_{n-1})x + ...)x + a_0",
            domains: Vec::new(),
            requires: Vec::new(),
            reversible: false,
            cost: 2,
            rewrite: Rewrite::PolyHornerMethod,
        },
        Rule {
            id: RuleId(557),
            name: "synthetic_division",
            category: RuleCategory::Simplification,
            description: "Synthetic division by (x-a)",
            domains: Vec::new(),
            requires: Vec::new(),
            reversible: false,
            cost: 2,
            rewrite: Rewrite::PolySyntheticDivision,
        },
        Rule {
            id: RuleId(558),
            name: "polynomial_long_division",
            category: RuleCategory::Simplification,
            description: "Long division algorithm for polynomials",
            domains: Vec::new(),
            requires: Vec::new(),
            reversible: false,
            cost: 3,
            rewrite: Rewrite::PolyPolynomialLongDivision,
        },
        Rule {
            id: RuleId(559),
            name: "ruffini_rule",
            category: RuleCategory::Simplification,
            description: "Ruffini's rule for polynomial division",
            domains: Vec::new(),
            requires: Vec::new(),
            reversible: false,
            cost: 2,
            rewrite: Rewrite::PolyRuffiniRule,
        },
    ];
    assert(ids_of(part@) =~= seq![540u32, 541u32, 542u32, 543u32, 544u32, 545u32, 546u32, 547u32, 548u32, 549u32, 550u32, 551u32, 552u32, 553u32, 554u32, 555u32, 556u32, 557u32, 558u32, 559u32]);
    assert(names_of(part@) =~= seq!["factor_theorem"@, "remainder_theorem"@, "poly_div_identity"@, "complete_square"@, "diff_nth_power"@, "diff_cubes"@, "sum_cubes"@, "sophie_germain"@, "factor_by_grouping"@, "sum_odd_powers"@, "diff_even_powers"@, "cyclotomic_factor"@, "binomial_factor"@, "quadratic_substitution"@, "symmetric_factor"@, "partial_fractions"@, "horner_method"@, "synthetic_division"@, "polynomial_long_division"@, "ruffini_rule"@]);
    assert(rules_view(part@) =~~= factoring_rules_meta());
    let ghost before = rules@;
    rules.append(&mut part);
    proof {
        crate::rule::lemma_ids_names_append(before, part@);
    }
    assert(ids_of(rules@) =~= factoring_rules_ids());
    assert(names_of(rules@) =~= factoring_rules_names());
    assert(rules_view(rules@) =~= factoring_rules_meta());
    rules
}

/// Identifiers of the rules of [`rational_root_rules`], in order.
pub open spec fn rational_root_rules_ids() -> Seq<u32> {
    seq![560u32, 561u32]
}

/// Names of the rules of [`rational_root_rules`], in order.
pub open spec fn rational_root_rules_names() -> Seq<Seq<char>> {
    seq!["rational_root_theorem"@, "integer_root"@]
}

/// Metadata of the rules of [`rational_root_rules`], in order.
pub open spec fn rational_root_rules_meta() -> Seq<RuleMeta> {
    seq![
        (560u32, "rational_root_theorem"@, RuleCategory::AlgebraicSolving, "Rational roots of aₙxⁿ + ... + a₀ have form ±(factor of a₀)/(factor of aₙ)"@, Seq::<Domain>::empty(), Seq::<Feature>::empty(), false, 4u32, Rewrite::PolyRationalRootTheorem),
        (561u32, "integer_root"@, RuleCategory::AlgebraicSolving, "Integer roots divide constant term"@, Seq::<Domain>::empty(), Seq::<Feature>::empty(), false, 3u32, Rewrite::PolyIntegerRoot),
    ]
}

/// The rules of this group, in registration order.
fn rational_root_rules() -> (rules: Vec<Rule>)
    ensures
        ids_of(rules@) == rational_root_rules_ids(),
        names_of(rules@) == rational_root_rules_names(),
        rules_view(rules@) == rational_root_rules_meta(),
{
    let mut rules: Vec<Rule> = Vec::new();
    let mut part: Vec<Rule> = vec![
        Rule {
            id: RuleId(560),
            name: "rational_root_theorem",
            category: RuleCategory::AlgebraicSolving,
            description: "Rational roots of aₙxⁿ + ... + a₀ have form ±(factor of a₀)/(factor of aₙ)",
            domains: Vec::new(),
            requires: Vec::new(),
            reversible: false,
            cost: 4,
            rewrite: Rewrite::PolyRationalRootTheorem,
        },
        Rule {
            id: RuleId(561),
            name: "integer_root",
            category: RuleCategory::AlgebraicSolving,
            description: "Integer roots divide constant term",
            domains: Vec::new(),
            requires: Vec::new(),
            reversible: false,
            cost: 3,
            rewrite: Rewrite::PolyIntegerRoot,
        },
    ];
    assert(ids_of(part@) =~= seq![560u32, 561u32]);
    assert(names_of(part@) =~= seq!["rational_root_theorem"@, "integer_root"@]);
    assert(rules_view(part@) =~~= rational_root_rules_meta());
    let ghost before = rules@;
    rules.append(&mut part);
    proof {
        crate::rule::lemma_ids_names_append(before, part@);
    }
    assert(ids_of(rules@) =~= rational_root_rules_ids());
    assert(names_of(rules@) =~= rational_root_rules_names());
    assert(rules_view(rules@) =~= rational_root_rules_meta());
    rules
}

/// Identifiers of the rules of [`advanced_polynomial_rules`], in order.
pub open spec fn advanced_polynomial_rules_ids() -> Seq<u32> {
    seq![800u32, 801u32, 802u32, 803u32, 804u32, 805u32, 806u32, 807u32, 808u32, 809u32, 810u32, 811u32, 812u32, 813u32, 814u32, 815u32, 816u32, 817u32, 818u32]
}

/// Names of the rules of [`advanced_polynomial_rules`], in order.
pub open spec fn advanced_polynomial_rules_names() -> Seq<Seq<char>> {
    seq!["quadratic_formula"@, "discriminant_sign"@, "discriminant_perfect_square"@, "cardano_formula"@, "cubic_discriminant"@, "quartic_resolvent"@, "descartes_rule"@, "sturm_sequence"@, "resultant_definition"@, "bezout_theorem"@, "cauchy_bound"@, "fujiwara_bound"@, "gauss_lucas_theorem"@, "lagrange_interpolation"@, "newton_interpolation"@, "chebyshev_recurrence"@, "hermite_recurrence"@, "legendre_recurrence"@, "laguerre_recurrence"@]
}

/// Metadata of the rules of [`advanced_polynomial_rules`], in order.
pub open spec fn advanced_polynomial_rules_meta() -> Seq<RuleMeta> {
    seq![
        (800u32, "quadratic_formula"@, RuleCategory::EquationSolving, "x = (-b ± √(b²-4ac)) / 2a"@, Seq::<Domain>::empty(), Seq::<Feature>::empty(), false, 3u32, Rewrite::PolyQuadraticFormula),
        (801u32, "discriminant_sign"@, RuleCategory::AlgebraicSolving, "Δ > 0 ⟹ 2 real roots; Δ = 0 ⟹ 1 repeated; Δ < 0 ⟹ complex"@, Seq::<Domain>::empty(), Seq::<Feature>::empty(), false, 2u32, Rewrite::PolyDiscriminantSign),
        (802u32, "discriminant_perfect_square"@, RuleCategory::AlgebraicSolving, "Δ = k² ⟹ rational roots"@, Seq::<Domain>::empty(), Seq::<Feature>::empty(), false, 2u32, Rewrite::PolyDiscriminantPerfectSquare),
        (803u32, "cardano_formula"@, RuleCategory::EquationSolving, "Cardano's formula for x³ + px + q = 0"@, Seq::<Domain>::empty(), Seq::<Feature>::empty(), false, 5u32, Rewrite::PolyCardanoFormula),
        (804u32, "cubic_discriminant"@, RuleCategory::AlgebraicSolving, "Cubic discriminant Δ = -4p³ - 27q²"@, Seq::<Domain>::empty(), Seq::<Feature>::empty(), false, 3u32, Rewrite::PolyCubicDiscriminant),
        (805u32, "quartic_resolvent"@, RuleCategory::EquationSolving, "Resolvent cubic for quartic equations"@, Seq::<Domain>::empty(), Seq::<Feature>::empty(), false, 5u32, Rewrite::PolyQuarticResolvent),
        (806u32, "descartes_rule"@, RuleCategory::AlgebraicSolving, "Number of positive roots ≤ sign changes"@, Seq::<Domain>::empty(), Seq::<Feature>::empty(), false, 2u32, Rewrite::PolyDescartesRule),
        (807u32, "sturm_sequence"@, RuleCategory::AlgebraicSolving, "Sturm's theorem for counting real roots"@, Seq::<Domain>::empty(), Seq::<Feature>::empty(), false, 4u32, Rewrite::SturmSequence),
        (808u32, "resultant_definition"@, RuleCategory::AlgebraicSolving, "Res(f,g) = 0 ⟺ f and g share a root"@, Seq::<Domain>::empty(), Seq::<Feature>::empty(), false, 4u32, Rewrite::PolyResultantDefinition),
        (809u32, "bezout_theorem"@, RuleCategory::Simplification, "f·u + g·v = gcd(f,g) for some polynomials u,v"@, Seq::<Domain>::empty(), Seq::<Feature>::empty(), false, 4u32, Rewrite::PolyBezoutTheorem),
        (810u32, "cauchy_bound"@, RuleCategory::AlgebraicSolving, "Cauchy bound on polynomial roots"@, Seq::<Domain>::empty(), Seq::<Feature>::empty(), false, 2u32, Rewrite::PolyCauchyBound),
        (811u32, "fujiwara_bound"@, RuleCategory::AlgebraicSolving, "Fujiwara bound on polynomial roots"@, Seq::<Domain>::empty(), Seq::<Feature>::empty(), false, 2u32, Rewrite::PolyFujiwaraBound),
        (812u32, "gauss_lucas_theorem"@, RuleCategory::AlgebraicSolving, "Critical points in convex hull of roots"@, Seq::<Domain>::empty(), Seq::<Feature>::empty(), false, 3u32, Rewrite::GaussLucasTheorem),
        (813u32, "lagrange_interpolation"@, RuleCategory::Simplification, "P(x) = Σ yᵢ Π(x-xⱼ)/(xᵢ-xⱼ)"@, Seq::<Domain>::empty(), Seq::<Feature>::empty(), false, 4u32, Rewrite::PolyLagrangeInterpolation),
        (814u32, "newton_interpolation"@, RuleCategory::Simplification, "Newton form of interpolating polynomial"@, Seq::<Domain>::empty(), Seq::<Feature>::empty(), false, 4u32, Rewrite::PolyNewtonInterpolation),
        (815u32, "chebyshev_recurrence"@, RuleCategory::Simplification, "Chebyshev T_{n+1} = 2xT_n - T_{n-1}"@, Seq::<Domain>::empty(), Seq::<Feature>::empty(), false, 2u32, Rewrite::PolyChebyshevRecurrence),
        (816u32, "hermite_recurrence"@, RuleCategory::Simplification, "Hermite H_{n+1} = 2xH_n - 2nH_{n-1}"@, Seq::<Domain>::empty(), Seq::<Feature>::empty(), false, 2u32, Rewrite::PolyHermiteRecurrence),
        (817u32, "legendre_recurrence"@, RuleCategory::Simplification, "Legendre (n+1)P_{n+1} = (2n+1)xP_n - nP_{n-1}"@, Seq::<Domain>::empty(), Seq::<Feature>::empty(), false, 2u32, Rewrite::PolyLegendreRecurrence),
        (818u32, "laguerre_recurrence"@, RuleCategory::Simplification, "Laguerre L_{n+1} = (2n+1-x)L_n - n²L_{n-1}"@, Seq::<Domain>::empty(), Seq::<Feature>::empty(), false, 2u32, Rewrite::PolyLaguerreRecurrence),
    ]
}

/// The rules of this group, in registration order.
pub fn advanced_polynomial_rules() -> (rules: Vec<Rule>)
    ensures
        ids_of(rules@) == advanced_polynomial_rules_ids(),
        names_of(rules@) == advanced_polynomial_rules_names(),
        rules_view(rules@) == advanced_polynomial_rules_meta(),
{
    let mut rules: Vec<Rule> = Vec::new();
    let mut part: Vec<Rule> = vec![
        quadratic_formula(),
        discriminant_sign(),
        discriminant_perfect_square(),
        cardano_formula(),
        cubic_discriminant(),
        quartic_resolvent(),
        descartes_rule(),
        sturm_sequence(),
        resultant_definition(),
        bezout_theorem(),
        cauchy_bound(),
        fujiwara_bound(),
        gauss_lucas_theorem(),
        lagrange_interpolation(),
        newton_interpolation(),
        chebyshev_recurrence(),
        hermite_recurrence(),
        legendre_recurrence(),
        laguerre_recurrence(),
    ];
    assert(ids_of(part@) =~= seq![800u32, 801u32, 802u32, 803u32, 804u32, 805u32, 806u32, 807u32, 808u32, 809u32, 810u32, 811u32, 812u32, 813u32, 814u32, 815u32, 816u32, 817u32, 818u32]);
    assert(names_of(part@) =~= seq!["quadratic_formula"@, "discriminant_sign"@, "discriminant_perfect_square"@, "cardano_formula"@, "cubic_discriminant"@, "quartic_resolvent"@, "descartes_rule"@, "sturm_sequence"@, "resultant_definition"@, "bezout_theorem"@, "cauchy_bound"@, "fujiwara_bound"@, "gauss_lucas_theorem"@, "lagrange_interpolation"@, "newton_interpolation"@, "chebyshev_recurrence"@, "hermite_recurrence"@, "legendre_recurrence"@, "laguerre_recurrence"@]);
    assert(rules_view(part@) =~~= advanced_polynomial_rules_meta());
    let ghost before = rules@;
    rules.append(&mut part);
    proof {
        crate::rule::lemma_ids_names_append(before, part@);
    }
    assert(ids_of(rules@) =~= advanced_polynomial_rules_ids());
    assert(names_of(rules@) =~= advanced_polynomial_rules_names());
    assert(rules_view(rules@) =~= advanced_polynomial_rules_meta());
    rules
}

/// Identifiers of the rules of [`polynomial_rules`], in order.
pub open spec fn polynomial_rules_ids() -> Seq<u32> {
    vieta_rules_ids() + symmetric_polynomial_rules_ids() + factoring_rules_ids() + rational_root_rules_ids() + advanced_polynomial_rules_ids()
}

/// Names of the rules of [`polynomial_rules`], in order.
pub open spec fn polynomial_rules_names() -> Seq<Seq<char>> {
    vieta_rules_names() + symmetric_polynomial_rules_names() + factoring_rules_names() + rational_root_rules_names() + advanced_polynomial_rules_names()
}

/// Metadata of the rules of [`polynomial_rules`], in order.
pub open spec fn polynomial_rules_meta() -> Seq<RuleMeta> {
    vieta_rules_meta() + symmetric_polynomial_rules_meta() + factoring_rules_meta() + rational_root_rules_meta() + advanced_polynomial_rules_meta()
}

/// The rules of this group, in registration order.
pub fn polynomial_rules() -> (rules: Vec<Rule>)
    ensures
        ids_of(rules@) == polynomial_rules_ids(),
        names_of(rules@) == polynomial_rules_names(),
        rules_view(rules@) == polynomial_rules_meta(),
{
    let mut rules: Vec<Rule> = Vec::new();
    let mut part = vieta_rules();
    let ghost before = rules@;
    rules.append(&mut part);
    proof {
        crate::rule::lemma_ids_names_append(before, part@);
    }
    let mut part = symmetric_polynomial_rules();
    let ghost before = rules@;
    rules.append(&mut part);
    proof {
        crate::rule::lemma_ids_names_append(before, part@);
    }
    let mut part = factoring_rules();
    let ghost before = rules@;
    rules.append(&mut part);
    proof {
        crate::rule::lemma_ids_names_append(before, part@);
    }
    let mut part = rational_root_rules();
    let ghost before = rules@;
    rules.append(&mut part);
    proof {
        crate::rule::lemma_ids_names_append(before, part@);
    }
    let mut part = advanced_polynomial_rules();
    let ghost before = rules@;
    rules.append(&mut part);
    proof {
        crate::rule::lemma_ids_names_append(before, part@);
    }
    assert(ids_of(rules@) =~= polynomial_rules_ids());
    assert(names_of(rules@) =~= polynomial_rules_names());
    assert(rules_view(rules@) =~= polynomial_rules_meta());
    rules
}

/// The rule `quadratic_formula`: x = (-b ± √(b²-4ac)) / 2a.
pub fn quadratic_formula() -> (r: Rule)
    ensures
        rule_view(r) == (800u32, "quadratic_formula"@, RuleCategory::EquationSolving, "x = (-b ± √(b²-4ac)) / 2a"@, Seq::<Domain>::empty(), Seq::<Feature>::empty(), false, 3u32, Rewrite::PolyQuadraticFormula),
{
    Rule {
        id: RuleId(800),
        name: "quadratic_formula",
        category: RuleCategory::EquationSolving,
        description: "x = (-b ± √(b²-4ac)) / 2a",
        domains: Vec::new(),
        requires: Vec::new(),
        reversible: false,
        cost: 3,
        rewrite: Rewrite::PolyQuadraticFormula,
    }
}

/// The rule `discriminant_sign`: Δ > 0 ⟹ 2 real roots; Δ = 0 ⟹ 1 repeated; Δ < 0 ⟹ complex.
pub fn discriminant_sign() -> (r: Rule)
    ensures
        rule_view(r) == (801u32, "discriminant_sign"@, RuleCategory::AlgebraicSolving, "Δ > 0 ⟹ 2 real roots; Δ = 0 ⟹ 1 repeated; Δ < 0 ⟹ complex"@, Seq::<Domain>::empty(), Seq::<Feature>::empty(), false, 2u32, Rewrite::PolyDiscriminantSign),
{
    Rule {
        id: RuleId(801),
        name: "discriminant_sign",
        category: RuleCategory::AlgebraicSolving,
        description: "Δ > 0 ⟹ 2 real roots; Δ = 0 ⟹ 1 repeated; Δ < 0 ⟹ complex",
        domains: Vec::new(),
        requires: Vec::new(),
        reversible: false,
        cost: 2,
        rewrite: Rewrite::PolyDiscriminantSign,
    }
}

/// The rule `discriminant_perfect_square`: Δ = k² ⟹ rational roots.
pub fn discriminant_perfect_square() -> (r: Rule)
    ensures
        rule_view(r) == (802u32, "discriminant_perfect_square"@, RuleCategory::AlgebraicSolving, "Δ = k² ⟹ rational roots"@, Seq::<Domain>::empty(), Seq::<Feature>::empty(), false, 2u32, Rewrite::PolyDiscriminantPerfectSquare),
{
    Rule {
        id: RuleId(802),
        name: "discriminant_perfect_square",
        category: RuleCategory::AlgebraicSolving,
        description: "Δ = k² ⟹ rational roots",
        domains: Vec::new(),
        requires: Vec::new(),
        reversible: false,
        cost: 2,
        rewrite: Rewrite::PolyDiscriminantPerfectSquare,
    }
}

/// The rule `cardano_formula`: Cardano's formula for x³ + px + q = 0.
pub fn cardano_formula() -> (r: Rule)
    ensures
        rule_view(r) == (803u32, "cardano_formula"@, RuleCategory::EquationSolving, "Cardano's formula for x³ + px + q = 0"@, Seq::<Domain>::empty(), Seq::<Feature>::empty(), false, 5u32, Rewrite::PolyCardanoFormula),
{
    Rule {
        id: RuleId(803),
        name: "cardano_formula",
        category: RuleCategory::EquationSolving,
        description: "Cardano's formula for x³ + px + q = 0",
        domains: Vec::new(),
        requires: Vec::new(),
        reversible: false,
        cost: 5,
        rewrite: Rewrite::PolyCardanoFormula,
    }
}

/// The rule `cubic_discriminant`: Cubic discriminant Δ = -4p³ - 27q².
pub fn cubic_discriminant() -> (r: Rule)
    ensures
        rule_view(r) == (804u32, "cubic_discriminant"@, RuleCategory::AlgebraicSolving, "Cubic discriminant Δ = -4p³ - 27q²"@, Seq::<Domain>::empty(), Seq::<Feature>::empty(), false, 3u32, Rewrite::PolyCubicDiscriminant),
{
    Rule {
        id: RuleId(804),
        name: "cubic_discriminant",
        category: RuleCategory::AlgebraicSolving,
        description: "Cubic discriminant Δ = -4p³ - 27q²",
        domains: Vec::new(),
        requires: Vec::new(),
        reversible: false,
        cost: 3,
        rewrite: Rewrite::PolyCubicDiscriminant,
    }
}

/// The rule `quartic_resolvent`: Resolvent cubic for quartic equations.
pub fn quartic_resolvent() -> (r: Rule)
    ensures
        rule_view(r) == (805u32, "quartic_resolvent"@, RuleCategory::EquationSolving, "Resolvent cubic for quartic equations"@, Seq::<Domain>::empty(), Seq::<Feature>::empty(), false, 5u32, Rewrite::PolyQuarticResolvent),
{
    Rule {
        id: RuleId(805),
        name: "quartic_resolvent",
        category: RuleCategory::EquationSolving,
        description: "Resolvent cubic for quartic equations",
        domains: Vec::new(),
        requires: Vec::new(),
        reversible: false,
        cost: 5,
        rewrite: Rewrite::PolyQuarticResolvent,
    }
}

/// The rule `descartes_rule`: Number of positive roots ≤ sign changes.
pub fn descartes_rule() -> (r: Rule)
    ensures
        rule_view(r) == (806u32, "descartes_rule"@, RuleCategory::AlgebraicSolving, "Number of positive roots ≤ sign changes"@, Seq::<Domain>::empty(), Seq::<Feature>::empty(), false, 2u32, Rewrite::PolyDescartesRule),
{
    Rule {
        id: RuleId(806),
        name: "descartes_rule",
        category: RuleCategory::AlgebraicSolving,
        description: "Number of positive roots ≤ sign changes",
        domains: Vec::new(),
        requires: Vec::new(),
        reversible: false,
        cost: 2,
        rewrite: Rewrite::PolyDescartesRule,
    }
}

/// The rule `sturm_sequence`: Sturm's theorem for counting real roots.
pub fn sturm_sequence() -> (r: Rule)
    ensures
        rule_view(r) == (807u32, "sturm_sequence"@, RuleCategory::AlgebraicSolving, "Sturm's theorem for counting real roots"@, Seq::<Domain>::empty(), Seq::<Feature>::empty(), false, 4u32, Rewrite::SturmSequence),
{
    Rule {
        id: RuleId(807),
        name: "sturm_sequence",
        category: RuleCategory::AlgebraicSolving,
        description: "Sturm's theorem for counting real roots",
        domains: Vec::new(),
        requires: Vec::new(),
        reversible: false,
        cost: 4,
        rewrite: Rewrite::SturmSequence,
    }
}

/// The rule `resultant_definition`: Res(f,g) = 0 ⟺ f and g share a root.
pub fn resultant_definition() -> (r: Rule)
    ensures
        rule_view(r) == (808u32, "resultant_definition"@, RuleCategory::AlgebraicSolving, "Res(f,g) = 0 ⟺ f and g share a root"@, Seq::<Domain>::empty(), Seq::<Feature>::empty(), false, 4u32, Rewrite::PolyResultantDefinition),
{
    Rule {
        id: RuleId(808),
        name: "resultant_definition",
        category: RuleCategory::AlgebraicSolving,
        description: "Res(f,g) = 0 ⟺ f and g share a root",
        domains: Vec::new(),
        requires: Vec::new(),
        reversible: false,
        cost: 4,
        rewrite: Rewrite::PolyResultantDefinition,
    }
}

/// The rule `bezout_theorem`: f·u + g·v = gcd(f,g) for some polynomials u,v.
pub fn bezout_theorem() -> (r: Rule)
    ensures
        rule_view(r) == (809u32, "bezout_theorem"@, RuleCategory::Simplification, "f·u + g·v = gcd(f,g) for some polynomials u,v"@, Seq::<Domain>::empty(), Seq::<Feature>::empty(), false, 4u32, Rewrite::PolyBezoutTheorem),
{
    Rule {
        id: RuleId(809),
        name: "bezout_theorem",
        category: RuleCategory::Simplification,
        description: "f·u + g·v = gcd(f,g) for some polynomials u,v",
        domains: Vec::new(),
        requires: Vec::new(),
        reversible: false,
        cost: 4,
        rewrite: Rewrite::PolyBezoutTheorem,
    }
}

/// The rule `cauchy_bound`: Cauchy bound on polynomial roots.
pub fn cauchy_bound() -> (r: Rule)
    ensures
        rule_view(r) == (810u32, "cauchy_bound"@, RuleCategory::AlgebraicSolving, "Cauchy bound on polynomial roots"@, Seq::<Domain>::empty(), Seq::<Feature>::empty(), false, 2u32, Rewrite::PolyCauchyBound),
{
    Rule {
        id: RuleId(810),
        name: "cauchy_bound",
        category: RuleCategory::AlgebraicSolving,
        description: "Cauchy bound on polynomial roots",
        domains: Vec::new(),
        requires: Vec::new(),
        reversible: false,
        cost: 2,
        rewrite: Rewrite::PolyCauchyBound,
    }
}

/// The rule `fujiwara_bound`: Fujiwara bound on polynomial roots.
pub fn fujiwara_bound() -> (r: Rule)
    ensures
        rule_view(r) == (811u32, "fujiwara_bound"@, RuleCategory::AlgebraicSolving, "Fujiwara bound on polynomial roots"@, Seq::<Domain>::empty(), Seq::<Feature>::empty(), false, 2u32, Rewrite::PolyFujiwaraBound),
{
    Rule {
        id: RuleId(811),
        name: "fujiwara_bound",
        category: RuleCategory::AlgebraicSolving,
        description: "Fujiwara bound on polynomial roots",
        domains: Vec::new(),
        requires: Vec::new(),
        reversible: false,
        cost: 2,
        rewrite: Rewrite::PolyFujiwaraBound,
    }
}

/// The rule `gauss_lucas_theorem`: Critical points in convex hull of roots.
pub fn gauss_lucas_theorem() -> (r: Rule)
    ensures
        rule_view(r) == (812u32, "gauss_lucas_theorem"@, RuleCategory::AlgebraicSolving, "Critical points in convex hull of roots"@, Seq::<Domain>::empty(), Seq::<Feature>::empty(), false, 3u32, Rewrite::GaussLucasTheorem),
{
    Rule {
        id: RuleId(812),
        name: "gauss_lucas_theorem",
        category: RuleCategory::AlgebraicSolving,
        description: "Critical points in convex hull of roots",
        domains: Vec::new(),
        requires: Vec::new(),
        reversible: false,
        cost: 3,
        rewrite: Rewrite::GaussLucasTheorem,
    }
}

/// The rule `lagrange_interpolation`: P(x) = Σ yᵢ Π(x-xⱼ)/(xᵢ-xⱼ).
pub fn lagrange_interpolation() -> (r: Rule)
    ensures
        rule_view(r) == (813u32, "lagrange_interpolation"@, RuleCategory::Simplification, "P(x) = Σ yᵢ Π(x-xⱼ)/(xᵢ-xⱼ)"@, Seq::<Domain>::empty(), Seq::<Feature>::empty(), false, 4u32, Rewrite::PolyLagrangeInterpolation),
{
    Rule {
        id: RuleId(813),
        name: "lagrange_interpolation",
        category: RuleCategory::Simplification,
        description: "P(x) = Σ yᵢ Π(x-xⱼ)/(xᵢ-xⱼ)",
        domains: Vec::new(),
        requires: Vec::new(),
        reversible: false,
        cost: 4,
        rewrite: Rewrite::PolyLagrangeInterpolation,
    }
}

/// The rule `newton_interpolation`: Newton form of interpolating polynomial.
pub fn newton_interpolation() -> (r: Rule)
    ensures
        rule_view(r) == (814u32, "newton_interpolation"@, RuleCategory::Simplification, "Newton form of interpolating polynomial"@, Seq::<Domain>::empty(), Seq::<Feature>::empty(), false, 4u32, Rewrite::PolyNewtonInterpolation),
{
    Rule {
        id: RuleId(814),
        name: "newton_interpolation",
        category: RuleCategory::Simplification,
        description: "Newton form of interpolating polynomial",
        domains: Vec::new(),
        requires: Vec::new(),
        reversible: false,
        cost: 4,
        rewrite: Rewrite::PolyNewtonInterpolation,
    }
}

/// The rule `chebyshev_recurrence`: Chebyshev T_{n+1} = 2xT_n - T_{n-1}.
pub fn chebyshev_recurrence() -> (r: Rule)
    ensures
        rule_view(r) == (815u32, "chebyshev_recurrence"@, RuleCategory::Simplification, "Chebyshev T_{n+1} = 2xT_n - T_{n-1}"@, Seq::<Domain>::empty(), Seq::<Feature>::empty(), false, 2u32, Rewrite::PolyChebyshevRecurrence),
{
    Rule {
        id: RuleId(815),
        name: "chebyshev_recurrence",
        category: RuleCategory::Simplification,
        description: "Chebyshev T_{n+1} = 2xT_n - T_{n-1}",
        domains: Vec::new(),
        requires: Vec::new(),
        reversible: false,
        cost: 2,
        rewrite: Rewrite::PolyChebyshevRecurrence,
    }
}

/// The rule `hermite_recurrence`: Hermite H_{n+1} = 2xH_n - 2nH_{n-1}.
pub fn hermite_recurrence() -> (r: Rule)
    ensures
        rule_view(r) == (816u32, "hermite_recurrence"@, RuleCategory::Simplification, "Hermite H_{n+1} = 2xH_n - 2nH_{n-1}"@, Seq::<Domain>::empty(), Seq::<Feature>::empty(), false, 2u32, Rewrite::PolyHermiteRecurrence),
{
    Rule {
        id: RuleId(816),
        name: "hermite_recurrence",
        category: RuleCategory::Simplification,
        description: "Hermite H_{n+1} = 2xH_n - 2nH_{n-1}",
        domains: Vec::new(),
        requires: Vec::new(),
        reversible: false,
        cost: 2,
        rewrite: Rewrite::PolyHermiteRecurrence,
    }
}

/// The rule `legendre_recurrence`: Legendre (n+1)P_{n+1} = (2n+1)xP_n - nP_{n-1}.
pub fn legendre_recurrence() -> (r: Rule)
    ensures
        rule_view(r) == (817u32, "legendre_recurrence"@, RuleCategory::Simplification, "Legendre (n+1)P_{n+1} = (2n+1)xP_n - nP_{n-1}"@, Seq::<Domain>::empty(), Seq::<Feature>::empty(), false, 2u32, Rewrite::PolyLegendreRecurrence),
{
    Rule {
        id: RuleId(817),
        name: "legendre_recurrence",
        category: RuleCategory::Simplification,
        description: "Legendre (n+1)P_{n+1} = (2n+1)xP_n - nP_{n-1}",
        domains: Vec::new(),
        requires: Vec::new(),
        reversible: false,
        cost: 2,
        rewrite: Rewrite::PolyLegendreRecurrence,
    }
}

/// The rule `laguerre_recurrence`: Laguerre L_{n+1} = (2n+1-x)L_n - n²L_{n-1}.
pub fn laguerre_recurrence() -> (r: Rule)
    ensures
        rule_view(r) == (818u32, "laguerre_recurrence"@, RuleCategory::Simplification, "Laguerre L_{n+1} = (2n+1-x)L_n - n²L_{n-1}"@, Seq::<Domain>::empty(), Seq::<Feature>::empty(), false, 2u32, Rewrite::PolyLaguerreRecurrence),
{
    Rule {
        id: RuleId(818),
        name: "laguerre_recurrence",
        category: RuleCategory::Simplification,
        description: "Laguerre L_{n+1} = (2n+1-x)L_n - n²L_{n-1}",
        domains: Vec::new(),
        requires: Vec::new(),
        reversible: false,
        cost: 2,
        rewrite: Rewrite::PolyLaguerreRecurrence,
    }
}

} // verus!
