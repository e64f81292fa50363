//! Combinatorics rules: binomial coefficients, counting and recurrences.
//!
//! Each group function returns the metadata of its rules in registration
//! order; its contract fixes every field of every rule.

use vstd::prelude::*;
use crate::rewrite::Rewrite;
use crate::rule::{ids_of, names_of, rule_view, rules_view, RuleMeta, Domain, Feature, Rule, RuleCategory, RuleId};

verus! {
/// Identifiers of the rules of [`binomial_rules`], in order.
pub open spec fn binomial_rules_ids() -> Seq<u32> {
    seq![400u32, 401u32, 402u32, 403u32, 404u32, 405u32, 406u32, 407u32, 408u32]
}

/// Names of the rules of [`binomial_rules`], in order.
pub open spec fn binomial_rules_names() -> Seq<Seq<char>> {
    seq!["binomial_zero"@, "binomial_full"@, "binomial_one"@, "binomial_symmetry"@, "pascal_identity"@, "hockey_stick"@, "vandermonde"@, "binomial_sum"@, "binomial_theorem"@]
}

/// Metadata of the rules of [`binomial_rules`], in order.
pub open spec fn binomial_rules_meta() -> Seq<RuleMeta> {
    seq![
        (400u32, "binomial_zero"@, RuleCategory::Simplification, "C(n,0) = 1"@, seq![Domain::Combinatorics], Seq::<Feature>::empty(), false, 1u32, Rewrite::BinomialZero),
        (401u32, "binomial_full"@, RuleCategory::Simplification, "C(n,n) = 1"@, seq![Domain::Combinatorics], Seq::<Feature>::empty(), false, 1u32, Rewrite::BinomialFull),
        (402u32, "binomial_one"@, RuleCategory::Simplification, "C(n,1) = n"@, seq![Domain::Combinatorics], Seq::<Feature>::empty(), false, 1u32, Rewrite::CombBinomialOne),
        (403u32, "binomial_symmetry"@, RuleCategory::Simplification, "C(n,k) = C(n,n-k)"@, seq![Domain::Combinatorics], Seq::<Feature>::empty(), true, 1u32, Rewrite::CombBinomialSymmetry),
        (404u32, "pascal_identity"@, RuleCategory::Expansion, "C(n,k) = C(n-1,k-1) + C(n-1,k)"@, seq![Domain::Combinatorics], Seq::<Feature>::empty(), true, 2u32, Rewrite::CombPascalIdentity),
        (405u32, "hockey_stick"@, RuleCategory::Simplification, "ΣC(i,k) for i=k to n = C(n+1,k+1)"@, seq![Domain::Combinatorics], Seq::<Feature>::empty(), true, 3u32, Rewrite::CombHockeyStick),
        (406u32, "vandermonde"@, RuleCategory::Simplification, "ΣC(m,k)C(n,r-k) = C(m+n,r)"@, seq![Domain::Combinatorics], Seq::<Feature>::empty(), true, 4u32, Rewrite::CombVandermonde),
        (407u32, "binomial_sum"@, RuleCategory::Simplification, "Σ C(n,k) for k=0 to n = 2^n"@, seq![Domain::Combinatorics], Seq::<Feature>::empty(), true, 2u32, Rewrite::BinomialSum),
        (408u32, "binomial_theorem"@, RuleCategory::Expansion, "(a+b)^n = Σ C(n,k) a^k b^(n-k)"@, seq![Domain::Combinatorics], Seq::<Feature>::empty(), true, 5u32, Rewrite::BinomialTheorem),
    ]
}

/// The rules of this group, in registration order.
fn binomial_rules() -> (rules: Vec<Rule>)
    ensures
        ids_of(rules@) == binomial_rules_ids(),
        names_of(rules@) == binomial_rules_names(),
        rules_view(rules@) == binomial_rules_meta(),
{
    let mut rules: Vec<Rule> = Vec::new();
    let mut part: Vec<Rule> = vec![
        Rule {
            id: RuleId(400),
            name: "binomial_zero",
            category: RuleCategory::Simplification,
            description: "C(n,0) = 1",
            domains: vec![Domain::Combinatorics],
            requires: Vec::new(),
            reversible: false,
            cost: 1,
            rewrite: Rewrite::BinomialZero,
        },
        Rule {
            id: RuleId(401),
            name: "binomial_full",
            category: RuleCategory::Simplification,
            description: "C(n,n) = 1",
            domains: vec![Domain::Combinatorics],
            requires: Vec::new(),
            reversible: false,
            cost: 1,
            rewrite: Rewrite::BinomialFull,
        },
        Rule {
            id: RuleId(402),
            name: "binomial_one",
            category: RuleCategory::Simplification,
            description: "C(n,1) = n",
            domains: vec![Domain::Combinatorics],
            requires: Vec::new(),
            reversible: false,
            cost: 1,
            rewrite: Rewrite::CombBinomialOne,
        },
        Rule {
            id: RuleId(403),
            name: "binomial_symmetry",
            category: RuleCategory::Simplification,
            description: "C(n,k) = C(n,n-k)",
            domains: vec![Domain::Combinatorics],
            requires: Vec::new(),
            reversible: true,
            cost: 1,
            rewrite: Rewrite::CombBinomialSymmetry,
        },
        Rule {
            id: RuleId(404),
            name: "pascal_identity",
            category: RuleCategory::Expansion,
            description: "C(n,k) = C(n-1,k-1) + C(n-1,k)",
            domains: vec![Domain::Combinatorics],
            requires: Vec::new(),
            reversible: true,
            cost: 2,
            rewrite: Rewrite::CombPascalIdentity,
        },
        Rule {
            id: RuleId(405),
            name: "hockey_stick",
            category: RuleCategory::Simplification,
            description: "ΣC(i,k) for i=k to n = C(n+1,k+1)",
            domains: vec![Domain::Combinatorics],
            requires: Vec::new(),
            reversible: true,
            cost: 3,
            rewrite: Rewrite::CombHockeyStick,
        },
        Rule {
            id: RuleId(406),
            name: "vandermonde",
            category: RuleCategory::Simplification,
            description: "ΣC(m,k)C(n,r-k) = C(m+n,r)",
            domains: vec![Domain::Combinatorics],
            requires: Vec::new(),
            reversible: true,
            cost: 4,
            rewrite: Rewrite::CombVandermonde,
        },
        Rule {
            id: RuleId(407),
            name: "binomial_sum",
            category: RuleCategory::Simplification,
            description: "Σ C(n,k) for k=0 to n = 2^n",
            domains: vec![Domain::Combinatorics],
            requires: Vec::new(),
            reversible: true,
            cost: 2,
            rewrite: Rewrite::BinomialSum,
        },
        Rule {
            id: RuleId(408),
            name: "binomial_theorem",
            category: RuleCategory::Expansion,
            description: "(a+b)^n = Σ C(n,k) a^k b^(n-k)",
            domains: vec![Domain::Combinatorics],
            requires: Vec::new(),
            reversible: true,
            cost: 5,
            rewrite: Rewrite::BinomialTheorem,
        },
    ];
    assert(ids_of(part@) =~= seq![400u32, 401u32, 402u32, 403u32, 404u32, 405u32, 406u32, 407u32, 408u32]);
    assert(names_of(part@) =~= seq!["binomial_zero"@, "binomial_full"@, "binomial_one"@, "binomial_symmetry"@, "pascal_identity"@, "hockey_stick"@, "vandermonde"@, "binomial_sum"@, "binomial_theorem"@]);
    assert(rules_view(part@) =~~= binomial_rules_meta());
    let ghost before = rules@;
    rules.append(&mut part);
    proof {
        crate::rule::lemma_ids_names_append(before, part@);
    }
    assert(ids_of(rules@) =~= binomial_rules_ids());
    assert(names_of(rules@) =~= binomial_rules_names());
    assert(rules_view(rules@) =~= binomial_rules_meta());
    rules
}

/// Identifiers of the rules of [`counting_rules`], in order.
pub open spec fn counting_rules_ids() -> Seq<u32> {
    seq![420u32, 421u32, 422u32, 423u32, 424u32, 425u32, 426u32, 427u32]
}

/// Names of the rules of [`counting_rules`], in order.
pub open spec fn counting_rules_names() -> Seq<Seq<char>> {
    seq!["permutation_formula"@, "combination_formula"@, "pigeonhole"@, "pigeonhole_gen"@, "inclusion_exclusion_2"@, "inclusion_exclusion_3"@, "derangement"@, "catalan"@]
}

/// Metadata of the rules of [`counting_rules`], in order.
pub open spec fn counting_rules_meta() -> Seq<RuleMeta> {
    seq![
        (420u32, "permutation_formula"@, RuleCategory::Simplification, "P(n,k) = n!/(n-k)!"@, seq![Domain::Combinatorics], Seq::<Feature>::empty(), true, 2u32, Rewrite::CombCountingRulesPermutationFormula),
        (421u32, "combination_formula"@, RuleCategory::Simplification, "C(n,k) = n!/(k!(n-k)!)"@, seq![Domain::Combinatorics], Seq::<Feature>::empty(), true, 2u32, Rewrite::CombCombinationFormula),
        (422u32, "pigeonhole"@, RuleCategory::AlgebraicSolving, "n+1 items in n boxes => at least one box has 2+ items"@, seq![Domain::Combinatorics], Seq::<Feature>::empty(), false, 1u32, Rewrite::Pigeonhole),
        (423u32, "pigeonhole_gen"@, RuleCategory::AlgebraicSolving, "n items in k boxes => some box has ≥ ⌈n/k⌉ items"@, seq![Domain::Combinatorics], Seq::<Feature>::empty(), false, 2u32, Rewrite::CombPigeonholeGen),
        (424u32, "inclusion_exclusion_2"@, RuleCategory::Simplification, "|A ∪ B| = |A| + |B| - |A ∩ B|"@, seq![Domain::Combinatorics], Seq::<Feature>::empty(), true, 2u32, Rewrite::CombCountingRulesInclusionExclusion2),
        (425u32, "inclusion_exclusion_3"@, RuleCategory::Simplification, "|A ∪ B ∪ C| = |A|+|B|+|C| - |A∩B| - |B∩C| - |A∩C| + |A∩B∩C|"@, seq![Domain::Combinatorics], Seq::<Feature>::empty(), true, 3u32, Rewrite::CombCountingRulesInclusionExclusion3),
        (426u32, "derangement"@, RuleCategory::Simplification, "D(n) = n! Σ (-1)^k/k! for k=0 to n"@, seq![Domain::Combinatorics], Seq::<Feature>::empty(), false, 3u32, Rewrite::CombDerangement),
        (427u32, "catalan"@, RuleCategory::Simplification, "C_n = C(2n,n)/(n+1)"@, seq![Domain::Combinatorics], Seq::<Feature>::empty(), true, 3u32, Rewrite::CombCatalan),
    ]
}

/// The rules of this group, in registration order.
fn counting_rules() -> (rules: Vec<Rule>)
    ensures
        ids_of(rules@) == counting_rules_ids(),
        names_of(rules@) == counting_rules_names(),
        rules_view(rules@) == counting_rules_meta(),
{
    let mut rules: Vec<Rule> = Vec::new();
    let mut part: Vec<Rule> = vec![
        Rule {
            id: RuleId(420),
            name: "permutation_formula",
            category: RuleCategory::Simplification,
            description: "P(n,k) = n!/(n-k)!",
            domains: vec![Domain::Combinatorics],
            requires: Vec::new(),
            reversible: true,
            cost: 2,
            rewrite: Rewrite::CombCountingRulesPermutationFormula,
        },
        Rule {
            id: RuleId(421),
            name: "combination_formula",
            category: RuleCategory::Simplification,
            description: "C(n,k) = n!/(k!(n-k)!)",
            domains: vec![Domain::Combinatorics],
            requires: Vec::new(),
            reversible: true,
            cost: 2,
            rewrite: Rewrite::CombCombinationFormula,
        },
        Rule {
            id: RuleId(422),
            name: "pigeonhole",
            category: RuleCategory::AlgebraicSolving,
            description: "n+1 items in n boxes => at least one box has 2+ items",
            domains: vec![Domain::Combinatorics],
            requires: Vec::new(),
            reversible: false,
            cost: 1,
            rewrite: Rewrite::Pigeonhole,
        },
        Rule {
            id: RuleId(423),
            name: "pigeonhole_gen",
            category: RuleCategory::AlgebraicSolving,
            description: "n items in k boxes => some box has ≥ ⌈n/k⌉ items",
            domains: vec![Domain::Combinatorics],
            requires: Vec::new(),
            reversible: false,
            cost: 2,
            rewrite: Rewrite::CombPigeonholeGen,
        },
        Rule {
            id: RuleId(424),
            name: "inclusion_exclusion_2",
            category: RuleCategory::Simplification,
            description: "|A ∪ B| = |A| + |B| - |A ∩ B|",
            domains: vec![Domain::Combinatorics],
            requires: Vec::new(),
            reversible: true,
            cost: 2,
            rewrite: Rewrite::CombCountingRulesInclusionExclusion2,
        },
        Rule {
            id: RuleId(425),
            name: "inclusion_exclusion_3",
            category: RuleCategory::Simplification,
            description: "|A ∪ B ∪ C| = |A|+|B|+|C| - |A∩B| - |B∩C| - |A∩C| + |A∩B∩C|",
            domains: vec![Domain::Combinatorics],
            requires: Vec::new(),
            reversible: true,
            cost: 3,
            rewrite: Rewrite::CombCountingRulesInclusionExclusion3,
        },
        Rule {
            id: RuleId(426),
            name: "derangement",
            category: RuleCategory::Simplification,
            description: "D(n) = n! Σ (-1)^k/k! for k=0 to n",
            domains: vec![Domain::Combinatorics],
            requires: Vec::new(),
            reversible: false,
            cost: 3,
            rewrite: Rewrite::CombDerangement,
        },
        Rule {
            id: RuleId(427),
            name: "catalan",
            category: RuleCategory::Simplification,
            description: "C_n = C(2n,n)/(n+1)",
            domains: vec![Domain::Combinatorics],
            requires: Vec::new(),
            reversible: true,
            cost: 3,
            rewrite: Rewrite::CombCatalan,
        },
    ];
    assert(ids_of(part@) =~= seq![420u32, 421u32, 422u32, 423u32, 424u32, 425u32, 426u32, 427u32]);
    assert(names_of(part@) =~= seq!["permutation_formula"@, "combination_formula"@, "pigeonhole"@, "pigeonhole_gen"@, "inclusion_exclusion_2"@, "inclusion_exclusion_3"@, "derangement"@, "catalan"@]);
    assert(rules_view(part@) =~~= counting_rules_meta());
    let ghost before = rules@;
    rules.append(&mut part);
    proof {
        crate::rule::lemma_ids_names_append(before, part@);
    }
    assert(ids_of(rules@) =~= counting_rules_ids());
    assert(names_of(rules@) =~= counting_rules_names());
    assert(rules_view(rules@) =~= counting_rules_meta());
    rules
}

/// Identifiers of the rules of [`recurrence_rules`], in order.
pub open spec fn recurrence_rules_ids() -> Seq<u32> {
    seq![440u32, 441u32, 442u32]
}

/// Names of the rules of [`recurrence_rules`], in order.
pub open spec fn recurrence_rules_names() -> Seq<Seq<char>> {
    seq!["fibonacci_recurrence"@, "binet_formula"@, "linear_recurrence"@]
}

/// Metadata of the rules of [`recurrence_rules`], in order.
pub open spec fn recurrence_rules_meta() -> Seq<RuleMeta> {
    seq![
        (440u32, "fibonacci_recurrence"@, RuleCategory::AlgebraicSolving, "F(n) = F(n-1) + F(n-2)"@, seq![Domain::Combinatorics], Seq::<Feature>::empty(), true, 2u32, Rewrite::CombFibonacciRecurrence),
        (441u32, "binet_formula"@, RuleCategory::Simplification, "F(n) = (φ^n - ψ^n)/√5"@, seq![Domain::Combinatorics], Seq::<Feature>::empty(), false, 3u32, Rewrite::CombBinetFormula),
        (442u32, "linear_recurrence"@, RuleCategory::AlgebraicSolving, "a_n = c1*a_{n-1} + c2*a_{n-2} => characteristic equation"@, seq![Domain::Combinatorics], Seq::<Feature>::empty(), false, 4u32, Rewrite::CombLinearRecurrence),
    ]
}

/// The rules of this group, in registration order.
fn recurrence_rules() -> (rules: Vec<Rule>)
    ensures
        ids_of(rules@) == recurrence_rules_ids(),
        names_of(rules@) == recurrence_rules_names(),
        rules_view(rules@) == recurrence_rules_meta(),
{
    let mut rules: Vec<Rule> = Vec::new();
    let mut part: Vec<Rule> = vec![
        Rule {
            id: RuleId(440),
            name: "fibonacci_recurrence",
            category: RuleCategory::AlgebraicSolving,
            description: "F(n) = F(n-1) + F(n-2)",
            domains: vec![Domain::Combinatorics],
            requires: Vec::new(),
            reversible: true,
            cost: 2,
            rewrite: Rewrite::CombFibonacciRecurrence,
        },
        Rule {
            id: RuleId(441),
            name: "binet_formula",
            category: RuleCategory::Simplification,
            description: "F(n) = (φ^n - ψ^n)/√5",
            domains: vec![Domain::Combinatorics],
            requires: Vec::new(),
            reversible: false,
            cost: 3,
            rewrite: Rewrite::CombBinetFormula,
        },
        Rule {
            id: RuleId(442),
            name: "linear_recurrence",
            category: RuleCategory::AlgebraicSolving,
            description: "a_n = c1*a_{n-1} + c2*a_{n-2} => characteristic equation",
            domains: vec![Domain::Combinatorics],
            requires: Vec::new(),
            reversible: false,
            cost: 4,
            rewrite: Rewrite::CombLinearRecurrence,
        },
    ];
    assert(ids_of(part@) =~= seq![440u32, 441u32, 442u32]);
    assert(names_of(part@) =~= seq!["fibonacci_recurrence"@, "binet_formula"@, "linear_recurrence"@]);
    assert(rules_view(part@) =~~= recurrence_rules_meta());
    let ghost before = rules@;
    rules.append(&mut part);
    proof {
        crate::rule::lemma_ids_names_append(before, part@);
    }
    assert(ids_of(rules@) =~= recurrence_rules_ids());
    assert(names_of(rules@) =~= recurrence_rules_names());
    assert(rules_view(rules@) =~= recurrence_rules_meta());
    rules
}

/// Identifiers of the rules of [`advanced_combinatorics_rules`], in order.
pub open spec fn advanced_combinatorics_rules_ids() -> Seq<u32> {
    seq![600u32, 601u32, 602u32, 603u32, 604u32, 605u32, 606u32, 607u32, 608u32, 609u32, 610u32, 611u32, 612u32, 613u32, 614u32, 615u32, 616u32, 617u32, 618u32, 619u32, 620u32, 621u32, 622u32, 623u32, 624u32, 625u32, 650u32, 651u32, 652u32, 653u32, 654u32, 655u32, 656u32, 657u32, 658u32, 659u32, 660u32, 661u32, 662u32, 663u32, 664u32, 665u32, 666u32, 667u32, 668u32, 669u32]
}

/// Names of the rules of [`advanced_combinatorics_rules`], in order.
pub open spec fn advanced_combinatorics_rules_names() -> Seq<Seq<char>> {
    seq!["derangement_formula"@, "derangement_recurrence"@, "catalan_formula"@, "catalan_recurrence"@, "stirling_first_recurrence"@, "stirling_second_recurrence"@, "partition_recurrence"@, "hockey_stick_identity"@, "vandermonde_identity"@, "chu_vandermonde"@, "multinomial_theorem"@, "stars_and_bars"@, "pigeonhole_principle"@, "inclusion_exclusion_2_advanced"@, "inclusion_exclusion_3_advanced"@, "double_counting"@, "ordinary_gf"@, "exponential_gf"@, "binomial_sum_2n"@, "binomial_alternating_sum"@, "permutation_formula_advanced"@, "circular_permutation"@, "derangement_asymptotic"@, "fibonacci_addition"@, "fibonacci_gcd"@, "lucas_numbers"@, "permutation_with_repetition"@, "combination_with_repetition"@, "bell_number_recurrence"@, "multinomial_coefficient"@, "binomial_weighted_sum"@, "subfactorial"@, "christmas_stocking"@, "binomial_squares_sum"@, "rising_factorial"@, "falling_factorial"@, "legendre_formula"@, "kummer_theorem"@, "lucas_theorem"@, "burnside_lemma"@, "polya_enumeration"@, "catalan_alternative"@, "partition_into_parts"@, "pattern_avoidance"@, "derangement_simple_recurrence"@, "fibonacci_generating_function"@]
}

/// Metadata of the rules of [`advanced_combinatorics_rules`], in order.
pub open spec fn advanced_combinatorics_rules_meta() -> Seq<RuleMeta> {
    seq![
        (600u32, "derangement_formula"@, RuleCategory::Simplification, "D(n) = n! * Σ(-1)^k/k!"@, seq![Domain::Combinatorics], Seq::<Feature>::empty(), false, 3u32, Rewrite::CombDerangementFormula),
        (601u32, "derangement_recurrence"@, RuleCategory::Simplification, "D(n) = (n-1)(D(n-1) + D(n-2))"@, seq![Domain::Combinatorics], Seq::<Feature>::empty(), false, 2u32, Rewrite::CombDerangementRecurrence),
        (602u32, "catalan_formula"@, RuleCategory::Simplification, "C(n) = C(2n,n)/(n+1)"@, seq![Domain::Combinatorics], Seq::<Feature>::empty(), false, 2u32, Rewrite::CombCatalanFormula),
        (603u32, "catalan_recurrence"@, RuleCategory::Simplification, "C(n+1) = Σ C(i)*C(n-i)"@, seq![Domain::Combinatorics], Seq::<Feature>::empty(), false, 3u32, Rewrite::CombCatalanRecurrence),
        (604u32, "stirling_first_recurrence"@, RuleCategory::Simplification, "s(n,k) = s(n-1,k-1) - (n-1)*s(n-1,k)"@, seq![Domain::Combinatorics], Seq::<Feature>::empty(), false, 3u32, Rewrite::CombStirlingFirstRecurrence),
        (605u32, "stirling_second_recurrence"@, RuleCategory::Simplification, "S(n,k) = k*S(n-1,k) + S(n-1,k-1)"@, seq![Domain::Combinatorics], Seq::<Feature>::empty(), false, 3u32, Rewrite::CombStirlingSecondRecurrence),
        (606u32, "partition_recurrence"@, RuleCategory::Simplification, "Partition function pentagonal recurrence"@, seq![Domain::Combinatorics], Seq::<Feature>::empty(), false, 4u32, Rewrite::CombPartitionRecurrence),
        (607u32, "hockey_stick_identity"@, RuleCategory::Simplification, "Σ C(i,k) = C(n+1,k+1) (Hockey stick)"@, seq![Domain::Combinatorics], Seq::<Feature>::empty(), false, 2u32, Rewrite::CombHockeyStickIdentity),
        (608u32, "vandermonde_identity"@, RuleCategory::Simplification, "Σ C(m,k)*C(n,r-k) = C(m+n,r)"@, seq![Domain::Combinatorics], Seq::<Feature>::empty(), false, 3u32, Rewrite::CombVandermondeIdentity),
        (609u32, "chu_vandermonde"@, RuleCategory::Simplification, "Chu-Vandermonde identity"@, seq![Domain::Combinatorics], Seq::<Feature>::empty(), false, 3u32, Rewrite::CombChuVandermonde),
        (610u32, "multinomial_theorem"@, RuleCategory::Expansion, "Multinomial theorem expansion"@, seq![Domain::Combinatorics], Seq::<Feature>::empty(), false, 4u32, Rewrite::CombMultinomialTheorem),
        (611u32, "stars_and_bars"@, RuleCategory::Simplification, "Stars and bars: C(n+k-1,k)"@, seq![Domain::Combinatorics], Seq::<Feature>::empty(), false, 2u32, Rewrite::CombStarsAndBars),
        (612u32, "pigeonhole_principle"@, RuleCategory::AlgebraicSolving, "n+1 items in n containers => at least 2 share"@, seq![Domain::Combinatorics], Seq::<Feature>::empty(), false, 1u32, Rewrite::PigeonholePrinciple),
        (613u32, "inclusion_exclusion_2_advanced"@, RuleCategory::Simplification, "|A∪B| = |A| + |B| - |A∩B|"@, seq![Domain::Combinatorics], Seq::<Feature>::empty(), false, 2u32, Rewrite::CombInclusionExclusion2InclusionExclusion2),
        (614u32, "inclusion_exclusion_3_advanced"@, RuleCategory::Simplification, "3-set inclusion-exclusion"@, seq![Domain::Combinatorics], Seq::<Feature>::empty(), false, 3u32, Rewrite::CombInclusionExclusion3InclusionExclusion3),
        (615u32, "double_counting"@, RuleCategory::AlgebraicSolving, "Count same set in two ways"@, seq![Domain::Combinatorics], Seq::<Feature>::empty(), false, 2u32, Rewrite::CombDoubleCounting),
        (616u32, "ordinary_gf"@, RuleCategory::Simplification, "Ordinary generating function"@, seq![Domain::Combinatorics], Seq::<Feature>::empty(), false, 3u32, Rewrite::CombOrdinaryGf),
        (617u32, "exponential_gf"@, RuleCategory::Simplification, "Exponential generating function"@, seq![Domain::Combinatorics], Seq::<Feature>::empty(), false, 3u32, Rewrite::CombExponentialGf),
        (618u32, "binomial_sum_2n"@, RuleCategory::Simplification, "Σ C(n,k) = 2^n"@, seq![Domain::Combinatorics], Seq::<Feature>::empty(), false, 1u32, Rewrite::BinomialSum2n),
        (619u32, "binomial_alternating_sum"@, RuleCategory::Simplification, "Σ (-1)^k * C(n,k) = 0"@, seq![Domain::Combinatorics], Seq::<Feature>::empty(), false, 1u32, Rewrite::BinomialAlternatingSum),
        (620u32, "permutation_formula_advanced"@, RuleCategory::Simplification, "P(n,k) = n!/(n-k)!"@, seq![Domain::Combinatorics], Seq::<Feature>::empty(), false, 2u32, Rewrite::CombPermutationFormulaPermutationFormula),
        (621u32, "circular_permutation"@, RuleCategory::Simplification, "Circular permutations = (n-1)!"@, seq![Domain::Combinatorics], Seq::<Feature>::empty(), false, 2u32, Rewrite::CombCircularPermutation),
        (622u32, "derangement_asymptotic"@, RuleCategory::Simplification, "D(n) ~ n!/e"@, seq![Domain::Combinatorics], Seq::<Feature>::empty(), false, 2u32, Rewrite::CombDerangementAsymptotic),
        (623u32, "fibonacci_addition"@, RuleCategory::Simplification, "F(m+n) = F(m)*F(n+1) + F(m-1)*F(n)"@, seq![Domain::Combinatorics], Seq::<Feature>::empty(), false, 3u32, Rewrite::CombFibonacciAddition),
        (624u32, "fibonacci_gcd"@, RuleCategory::Simplification, "gcd(F(m), F(n)) = F(gcd(m,n))"@, seq![Domain::Combinatorics], Seq::<Feature>::empty(), false, 3u32, Rewrite::CombFibonacciGcd),
        (625u32, "lucas_numbers"@, RuleCategory::Simplification, "L(n) = F(n-1) + F(n+1)"@, seq![Domain::Combinatorics], Seq::<Feature>::empty(), false, 2u32, Rewrite::CombLucasNumbers),
        (650u32, "permutation_with_repetition"@, RuleCategory::Simplification, "Permutations with repetition: n^k"@, Seq::<Domain>::empty(), Seq::<Feature>::empty(), false, 1u32, Rewrite::PermutationWithRepetition),
        (651u32, "combination_with_repetition"@, RuleCategory::Simplification, "Combinations with repetition: C(n+k-1, k)"@, Seq::<Domain>::empty(), Seq::<Feature>::empty(), false, 2u32, Rewrite::CombinationWithRepetition),
        (652u32, "bell_number_recurrence"@, RuleCategory::Simplification, "B(n+1) = Σ C(n,k)*B(k)"@, Seq::<Domain>::empty(), Seq::<Feature>::empty(), false, 3u32, Rewrite::CombBellNumberRecurrence),
        (653u32, "multinomial_coefficient"@, RuleCategory::Simplification, "Multinomial: n!/(k1!k2!...km!)"@, Seq::<Domain>::empty(), Seq::<Feature>::empty(), false, 2u32, Rewrite::MultinomialCoefficient),
        (654u32, "binomial_weighted_sum"@, RuleCategory::Simplification, "Σ k*C(n,k) = n*2^(n-1)"@, Seq::<Domain>::empty(), Seq::<Feature>::empty(), false, 2u32, Rewrite::BinomialWeightedSum),
        (655u32, "subfactorial"@, RuleCategory::Simplification, "Subfactorial !n = D(n)"@, Seq::<Domain>::empty(), Seq::<Feature>::empty(), false, 2u32, Rewrite::CombSubfactorial),
        (656u32, "christmas_stocking"@, RuleCategory::Simplification, "C(n,m)*C(m,k) = C(n,k)*C(n-k,m-k)"@, Seq::<Domain>::empty(), Seq::<Feature>::empty(), true, 2u32, Rewrite::CombChristmasStocking),
        (657u32, "binomial_squares_sum"@, RuleCategory::Simplification, "Σ C(n,k)^2 = C(2n,n)"@, Seq::<Domain>::empty(), Seq::<Feature>::empty(), false, 2u32, Rewrite::BinomialSquaresSum),
        (658u32, "rising_factorial"@, RuleCategory::Expansion, "Rising factorial (x)_n"@, Seq::<Domain>::empty(), Seq::<Feature>::empty(), false, 2u32, Rewrite::CombRisingFactorial),
        (659u32, "falling_factorial"@, RuleCategory::Expansion, "Falling factorial (x)^n"@, Seq::<Domain>::empty(), Seq::<Feature>::empty(), false, 2u32, Rewrite::CombFallingFactorial),
        (660u32, "legendre_formula"@, RuleCategory::NumberTheory, "Legendre: vp(n!) = Σ ⌊n/p^k⌋"@, Seq::<Domain>::empty(), Seq::<Feature>::empty(), false, 3u32, Rewrite::CombLegendreFormula),
        (661u32, "kummer_theorem"@, RuleCategory::NumberTheory, "Kummer: vp(C(m+n,m)) = carries in base p"@, Seq::<Domain>::empty(), Seq::<Feature>::empty(), false, 3u32, Rewrite::CombKummerTheorem),
        (662u32, "lucas_theorem"@, RuleCategory::NumberTheory, "Lucas: C(m,n) mod p"@, Seq::<Domain>::empty(), Seq::<Feature>::empty(), false, 3u32, Rewrite::LucasBinomialMod),
        (663u32, "burnside_lemma"@, RuleCategory::Simplification, "Burnside: |X/G| = (1/|G|) Σ |X^g|"@, Seq::<Domain>::empty(), Seq::<Feature>::empty(), false, 4u32, Rewrite::CombBurnsideLemma),
        (664u32, "polya_enumeration"@, RuleCategory::Simplification, "Polya enumeration theorem"@, Seq::<Domain>::empty(), Seq::<Feature>::empty(), false, 4u32, Rewrite::CombPolyaEnumeration),
        (665u32, "catalan_alternative"@, RuleCategory::Simplification, "C_n = (2n)!/(n!(n+1)!)"@, Seq::<Domain>::empty(), Seq::<Feature>::empty(), false, 2u32, Rewrite::CatalanAlternative),
        (666u32, "partition_into_parts"@, RuleCategory::Simplification, "p(n,k) = p(n-1,k-1) + p(n-k,k)"@, Seq::<Domain>::empty(), Seq::<Feature>::empty(), false, 2u32, Rewrite::CombPartitionIntoParts),
        (667u32, "pattern_avoidance"@, RuleCategory::Simplification, "Permutations avoiding pattern"@, Seq::<Domain>::empty(), Seq::<Feature>::empty(), false, 3u32, Rewrite::CombPatternAvoidance),
        (668u32, "derangement_simple_recurrence"@, RuleCategory::Simplification, "D(n) = n*D(n-1) + (-1)^n"@, Seq::<Domain>::empty(), Seq::<Feature>::empty(), false, 2u32, Rewrite::CombDerangementSimpleRecurrence),
        (669u32, "fibonacci_generating_function"@, RuleCategory::Simplification, "Fibonacci GF: x/(1-x-x^2)"@, Seq::<Domain>::empty(), Seq::<Feature>::empty(), false, 3u32, Rewrite::FibonacciGeneratingFunction),
    ]
}

/// The rules of this group, in registration order.
pub fn advanced_combinatorics_rules() -> (rules: Vec<Rule>)
    ensures
        ids_of(rules@) == advanced_combinatorics_rules_ids(),
        names_of(rules@) == advanced_combinatorics_rules_names(),
        rules_view(rules@) == advanced_combinatorics_rules_meta(),
{
    let mut rules: Vec<Rule> = Vec::new();
    let mut part: Vec<Rule> = vec![
        derangement_formula(),
        derangement_recurrence(),
        catalan_formula(),
        catalan_recurrence(),
        stirling_first_recurrence(),
        stirling_second_recurrence(),
        partition_recurrence(),
        hockey_stick_identity(),
        vandermonde_identity(),
        chu_vandermonde(),
        multinomial_theorem(),
        stars_and_bars(),
        pigeonhole_principle(),
        inclusion_exclusion_2(),
        inclusion_exclusion_3(),
        double_counting(),
        ordinary_gf(),
        exponential_gf(),
        binomial_sum_2n(),
        binomial_alternating_sum(),
        permutation_formula(),
        circular_permutation(),
        derangement_asymptotic(),
        fibonacci_addition(),
        fibonacci_gcd(),
        lucas_numbers(),
        permutation_with_repetition(),
        combination_with_repetition(),
        bell_number_recurrence(),
        multinomial_coefficient(),
        binomial_weighted_sum(),
        subfactorial(),
        christmas_stocking(),
        binomial_squares_sum(),
        rising_factorial(),
        falling_factorial(),
        legendre_formula(),
        kummer_theorem(),
        lucas_theorem(),
        burnside_lemma(),
        polya_enumeration(),
        catalan_alternative(),
        partition_into_parts(),
        pattern_avoidance(),
        derangement_simple_recurrence(),
        fibonacci_generating_function(),
    ];
    assert(ids_of(part@) =~= seq![600u32, 601u32, 602u32, 603u32, 604u32, 605u32, 606u32, 607u32, 608u32, 609u32, 610u32, 611u32, 612u32, 613u32, 614u32, 615u32, 616u32, 617u32, 618u32, 619u32, 620u32, 621u32, 622u32, 623u32, 624u32, 625u32, 650u32, 651u32, 652u32, 653u32, 654u32, 655u32, 656u32, 657u32, 658u32, 659u32, 660u32, 661u32, 662u32, 663u32, 664u32, 665u32, 666u32, 667u32, 668u32, 669u32]);
    assert(names_of(part@) =~= seq!["derangement_formula"@, "derangement_recurrence"@, "catalan_formula"@, "catalan_recurrence"@, "stirling_first_recurrence"@, "stirling_second_recurrence"@, "partition_recurrence"@, "hockey_stick_identity"@, "vandermonde_identity"@, "chu_vandermonde"@, "multinomial_theorem"@, "stars_and_bars"@, "pigeonhole_principle"@, "inclusion_exclusion_2_advanced"@, "inclusion_exclusion_3_advanced"@, "double_counting"@, "ordinary_gf"@, "exponential_gf"@, "binomial_sum_2n"@, "binomial_alternating_sum"@, "permutation_formula_advanced"@, "circular_permutation"@, "derangement_asymptotic"@, "fibonacci_addition"@, "fibonacci_gcd"@, "lucas_numbers"@, "permutation_with_repetition"@, "combination_with_repetition"@, "bell_number_recurrence"@, "multinomial_coefficient"@, "binomial_weighted_sum"@, "subfactorial"@, "christmas_stocking"@, "binomial_squares_sum"@, "rising_factorial"@, "falling_factorial"@, "legendre_formula"@, "kummer_theorem"@, "lucas_theorem"@, "burnside_lemma"@, "polya_enumeration"@, "catalan_alternative"@, "partition_into_parts"@, "pattern_avoidance"@, "derangement_simple_recurrence"@, "fibonacci_generating_function"@]);
    assert(rules_view(part@) =~~= advanced_combinatorics_rules_meta());
    let ghost before = rules@;
    rules.append(&mut part);
    proof {
        crate::rule::lemma_ids_names_append(before, part@);
    }
    assert(ids_of(rules@) =~= advanced_combinatorics_rules_ids());
    assert(names_of(rules@) =~= advanced_combinatorics_rules_names());
    assert(rules_view(rules@) =~= advanced_combinatorics_rules_meta());
    rules
}

/// Identifiers of the rules of [`combinatorics_rules`], in order.
pub open spec fn combinatorics_rules_ids() -> Seq<u32> {
    binomial_rules_ids() + counting_rules_ids() + recurrence_rules_ids() + advanced_combinatorics_rules_ids()
}

/// Names of the rules of [`combinatorics_rules`], in order.
pub open spec fn combinatorics_rules_names() -> Seq<Seq<char>> {
    binomial_rules_names() + counting_rules_names() + recurrence_rules_names() + advanced_combinatorics_rules_names()
}

/// Metadata of the rules of [`combinatorics_rules`], in order.
pub open spec fn combinatorics_rules_meta() -> Seq<RuleMeta> {
    binomial_rules_meta() + counting_rules_meta() + recurrence_rules_meta() + advanced_combinatorics_rules_meta()
}

/// The rules of this group, in registration order.
pub fn combinatorics_rules() -> (rules: Vec<Rule>)
    ensures
        ids_of(rules@) == combinatorics_rules_ids(),
        names_of(rules@) == combinatorics_rules_names(),
        rules_view(rules@) == combinatorics_rules_meta(),
{
    let mut rules: Vec<Rule> = Vec::new();
    let mut part = binomial_rules();
    let ghost before = rules@;
    rules.append(&mut part);
    proof {
        crate::rule::lemma_ids_names_append(before, part@);
    }
    let mut part = counting_rules();
    let ghost before = rules@;
    rules.append(&mut part);
    proof {
        crate::rule::lemma_ids_names_append(before, part@);
    }
    let mut part = recurrence_rules();
    let ghost before = rules@;
    rules.append(&mut part);
    proof {
        crate::rule::lemma_ids_names_append(before, part@);
    }
    let mut part = advanced_combinatorics_rules();
    let ghost before = rules@;
    rules.append(&mut part);
    proof {
        crate::rule::lemma_ids_names_append(before, part@);
    }
    assert(ids_of(rules@) =~= combinatorics_rules_ids());
    assert(names_of(rules@) =~= combinatorics_rules_names());
    assert(rules_view(rules@) =~= combinatorics_rules_meta());
    rules
}

/// The rule `derangement_formula`: D(n) = n! * Σ(-1)^k/k!.
pub fn derangement_formula() -> (r: Rule)
    ensures
        rule_view(r) == (600u32, "derangement_formula"@, RuleCategory::Simplification, "D(n) = n! * Σ(-1)^k/k!"@, seq![Domain::Combinatorics], Seq::<Feature>::empty(), false, 3u32, Rewrite::CombDerangementFormula),
{
    Rule {
        id: RuleId(600),
        name: "derangement_formula",
        category: RuleCategory::Simplification,
        description: "D(n) = n! * Σ(-1)^k/k!",
        domains: vec![Domain::Combinatorics],
        requires: Vec::new(),
        reversible: false,
        cost: 3,
        rewrite: Rewrite::CombDerangementFormula,
    }
}

/// The rule `derangement_recurrence`: D(n) = (n-1)(D(n-1) + D(n-2)).
pub fn derangement_recurrence() -> (r: Rule)
    ensures
        rule_view(r) == (601u32, "derangement_recurrence"@, RuleCategory::Simplification, "D(n) = (n-1)(D(n-1) + D(n-2))"@, seq![Domain::Combinatorics], Seq::<Feature>::empty(), false, 2u32, Rewrite::CombDerangementRecurrence),
{
    Rule {
        id: RuleId(601),
        name: "derangement_recurrence",
        category: RuleCategory::Simplification,
        description: "D(n) = (n-1)(D(n-1) + D(n-2))",
        domains: vec![Domain::Combinatorics],
        requires: Vec::new(),
        reversible: false,
        cost: 2,
        rewrite: Rewrite::CombDerangementRecurrence,
    }
}

/// The rule `catalan_formula`: C(n) = C(2n,n)/(n+1).
pub fn catalan_formula() -> (r: Rule)
    ensures
        rule_view(r) == (602u32, "catalan_formula"@, RuleCategory::Simplification, "C(n) = C(2n,n)/(n+1)"@, seq![Domain::Combinatorics], Seq::<Feature>::empty(), false, 2u32, Rewrite::CombCatalanFormula),
{
    Rule {
        id: RuleId(602),
        name: "catalan_formula",
        category: RuleCategory::Simplification,
        description: "C(n) = C(2n,n)/(n+1)",
        domains: vec![Domain::Combinatorics],
        requires: Vec::new(),
        reversible: false,
        cost: 2,
        rewrite: Rewrite::CombCatalanFormula,
    }
}

/// The rule `catalan_recurrence`: C(n+1) = Σ C(i)*C(n-i).
pub fn catalan_recurrence() -> (r: Rule)
    ensures
        rule_view(r) == (603u32, "catalan_recurrence"@, RuleCategory::Simplification, "C(n+1) = Σ C(i)*C(n-i)"@, seq![Domain::Combinatorics], Seq::<Feature>::empty(), false, 3u32, Rewrite::CombCatalanRecurrence),
{
    Rule {
        id: RuleId(603),
        name: "catalan_recurrence",
        category: RuleCategory::Simplification,
        description: "C(n+1) = Σ C(i)*C(n-i)",
        domains: vec![Domain::Combinatorics],
        requires: Vec::new(),
        reversible: false,
        cost: 3,
        rewrite: Rewrite::CombCatalanRecurrence,
    }
}

/// The rule `stirling_first_recurrence`: s(n,k) = s(n-1,k-1) - (n-1)*s(n-1,k).
pub fn stirling_first_recurrence() -> (r: Rule)
    ensures
        rule_view(r) == (604u32, "stirling_first_recurrence"@, RuleCategory::Simplification, "s(n,k) = s(n-1,k-1) - (n-1)*s(n-1,k)"@, seq![Domain::Combinatorics], Seq::<Feature>::empty(), false, 3u32, Rewrite::CombStirlingFirstRecurrence),
{
    Rule {
        id: RuleId(604),
        name: "stirling_first_recurrence",
        category: RuleCategory::Simplification,
        description: "s(n,k) = s(n-1,k-1) - (n-1)*s(n-1,k)",
        domains: vec![Domain::Combinatorics],
        requires: Vec::new(),
        reversible: false,
        cost: 3,
        rewrite: Rewrite::CombStirlingFirstRecurrence,
    }
}

/// The rule `stirling_second_recurrence`: S(n,k) = k*S(n-1,k) + S(n-1,k-1).
pub fn stirling_second_recurrence() -> (r: Rule)
    ensures
        rule_view(r) == (605u32, "stirling_second_recurrence"@, RuleCategory::Simplification, "S(n,k) = k*S(n-1,k) + S(n-1,k-1)"@, seq![Domain::Combinatorics], Seq::<Feature>::empty(), false, 3u32, Rewrite::CombStirlingSecondRecurrence),
{
    Rule {
        id: RuleId(605),
        name: "stirling_second_recurrence",
        category: RuleCategory::Simplification,
        description: "S(n,k) = k*S(n-1,k) + S(n-1,k-1)",
        domains: vec![Domain::Combinatorics],
        requires: Vec::new(),
        reversible: false,
        cost: 3,
        rewrite: Rewrite::CombStirlingSecondRecurrence,
    }
}

/// The rule `partition_recurrence`: Partition function pentagonal recurrence.
pub fn partition_recurrence() -> (r: Rule)
    ensures
        rule_view(r) == (606u32, "partition_recurrence"@, RuleCategory::Simplification, "Partition function pentagonal recurrence"@, seq![Domain::Combinatorics], Seq::<Feature>::empty(), false, 4u32, Rewrite::CombPartitionRecurrence),
{
    Rule {
        id: RuleId(606),
        name: "partition_recurrence",
        category: RuleCategory::Simplification,
        description: "Partition function pentagonal recurrence",
        domains: vec![Domain::Combinatorics],
        requires: Vec::new(),
        reversible: false,
        cost: 4,
        rewrite: Rewrite::CombPartitionRecurrence,
    }
}

/// The rule `hockey_stick_identity`: Σ C(i,k) = C(n+1,k+1) (Hockey stick).
pub fn hockey_stick_identity() -> (r: Rule)
    ensures
        rule_view(r) == (607u32, "hockey_stick_identity"@, RuleCategory::Simplification, "Σ C(i,k) = C(n+1,k+1) (Hockey stick)"@, seq![Domain::Combinatorics], Seq::<Feature>::empty(), false, 2u32, Rewrite::CombHockeyStickIdentity),
{
    Rule {
        id: RuleId(607),
        name: "hockey_stick_identity",
        category: RuleCategory::Simplification,
        description: "Σ C(i,k) = C(n+1,k+1) (Hockey stick)",
        domains: vec![Domain::Combinatorics],
        requires: Vec::new(),
        reversible: false,
        cost: 2,
        rewrite: Rewrite::CombHockeyStickIdentity,
    }
}

/// The rule `vandermonde_identity`: Σ C(m,k)*C(n,r-k) = C(m+n,r).
pub fn vandermonde_identity() -> (r: Rule)
    ensures
        rule_view(r) == (608u32, "vandermonde_identity"@, RuleCategory::Simplification, "Σ C(m,k)*C(n,r-k) = C(m+n,r)"@, seq![Domain::Combinatorics], Seq::<Feature>::empty(), false, 3u32, Rewrite::CombVandermondeIdentity),
{
    Rule {
        id: RuleId(608),
        name: "vandermonde_identity",
        category: RuleCategory::Simplification,
        description: "Σ C(m,k)*C(n,r-k) = C(m+n,r)",
        domains: vec![Domain::Combinatorics],
        requires: Vec::new(),
        reversible: false,
        cost: 3,
        rewrite: Rewrite::CombVandermondeIdentity,
    }
}

/// The rule `chu_vandermonde`: Chu-Vandermonde identity.
pub fn chu_vandermonde() -> (r: Rule)
    ensures
        rule_view(r) == (609u32, "chu_vandermonde"@, RuleCategory::Simplification, "Chu-Vandermonde identity"@, seq![Domain::Combinatorics], Seq::<Feature>::empty(), false, 3u32, Rewrite::CombChuVandermonde),
{
    Rule {
        id: RuleId(609),
        name: "chu_vandermonde",
        category: RuleCategory::Simplification,
        description: "Chu-Vandermonde identity",
        domains: vec![Domain::Combinatorics],
        requires: Vec::new(),
        reversible: false,
        cost: 3,
        rewrite: Rewrite::CombChuVandermonde,
    }
}

/// The rule `multinomial_theorem`: Multinomial theorem expansion.
pub fn multinomial_theorem() -> (r: Rule)
    ensures
        rule_view(r) == (610u32, "multinomial_theorem"@, RuleCategory::Expansion, "Multinomial theorem expansion"@, seq![Domain::Combinatorics], Seq::<Feature>::empty(), false, 4u32, Rewrite::CombMultinomialTheorem),
{
    Rule {
        id: RuleId(610),
        name: "multinomial_theorem",
        category: RuleCategory::Expansion,
        description: "Multinomial theorem expansion",
        domains: vec![Domain::Combinatorics],
        requires: Vec::new(),
        reversible: false,
        cost: 4,
        rewrite: Rewrite::CombMultinomialTheorem,
    }
}

/// The rule `stars_and_bars`: Stars and bars: C(n+k-1,k).
pub fn stars_and_bars() -> (r: Rule)
    ensures
        rule_view(r) == (611u32, "stars_and_bars"@, RuleCategory::Simplification, "Stars and bars: C(n+k-1,k)"@, seq![Domain::Combinatorics], Seq::<Feature>::empty(), false, 2u32, Rewrite::CombStarsAndBars),
{
    Rule {
        id: RuleId(611),
        name: "stars_and_bars",
        category: RuleCategory::Simplification,
        description: "Stars and bars: C(n+k-1,k)",
        domains: vec![Domain::Combinatorics],
        requires: Vec::new(),
        reversible: false,
        cost: 2,
        rewrite: Rewrite::CombStarsAndBars,
    }
}

/// The rule `pigeonhole_principle`: n+1 items in n containers => at least 2 share.
pub fn pigeonhole_principle() -> (r: Rule)
    ensures
        rule_view(r) == (612u32, "pigeonhole_principle"@, RuleCategory::AlgebraicSolving, "n+1 items in n containers => at least 2 share"@, seq![Domain::Combinatorics], Seq::<Feature>::empty(), false, 1u32, Rewrite::PigeonholePrinciple),
{
    Rule {
        id: RuleId(612),
        name: "pigeonhole_principle",
        category: RuleCategory::AlgebraicSolving,
        description: "n+1 items in n containers => at least 2 share",
        domains: vec![Domain::Combinatorics],
        requires: Vec::new(),
        reversible: false,
        cost: 1,
        rewrite: Rewrite::PigeonholePrinciple,
    }
}

/// The rule `inclusion_exclusion_2_advanced` (named apart from the counting group's
/// `inclusion_exclusion_2`): |A∪B| = |A| + |B| - |A∩B|.
pub fn inclusion_exclusion_2() -> (r: Rule)
    ensures
        rule_view(r) == (613u32, "inclusion_exclusion_2_advanced"@, RuleCategory::Simplification, "|A∪B| = |A| + |B| - |A∩B|"@, seq![Domain::Combinatorics], Seq::<Feature>::empty(), false, 2u32, Rewrite::CombInclusionExclusion2InclusionExclusion2),
{
    Rule {
        id: RuleId(613),
        name: "inclusion_exclusion_2_advanced",
        category: RuleCategory::Simplification,
        description: "|A∪B| = |A| + |B| - |A∩B|",
        domains: vec![Domain::Combinatorics],
        requires: Vec::new(),
        reversible: false,
        cost: 2,
        rewrite: Rewrite::CombInclusionExclusion2InclusionExclusion2,
    }
}

/// The rule `inclusion_exclusion_3_advanced` (named apart from the counting group's
/// `inclusion_exclusion_3`): 3-set inclusion-exclusion.
pub fn inclusion_exclusion_3() -> (r: Rule)
    ensures
        rule_view(r) == (614u32, "inclusion_exclusion_3_advanced"@, RuleCategory::Simplification, "3-set inclusion-exclusion"@, seq![Domain::Combinatorics], Seq::<Feature>::empty(), false, 3u32, Rewrite::CombInclusionExclusion3InclusionExclusion3),
{
    Rule {
        id: RuleId(614),
        name: "inclusion_exclusion_3_advanced",
        category: RuleCategory::Simplification,
        description: "3-set inclusion-exclusion",
        domains: vec![Domain::Combinatorics],
        requires: Vec::new(),
        reversible: false,
        cost: 3,
        rewrite: Rewrite::CombInclusionExclusion3InclusionExclusion3,
    }
}

/// The rule `double_counting`: Count same set in two ways.
pub fn double_counting() -> (r: Rule)
    ensures
        rule_view(r) == (615u32, "double_counting"@, RuleCategory::AlgebraicSolving, "Count same set in two ways"@, seq![Domain::Combinatorics], Seq::<Feature>::empty(), false, 2u32, Rewrite::CombDoubleCounting),
{
    Rule {
        id: RuleId(615),
        name: "double_counting",
        category: RuleCategory::AlgebraicSolving,
        description: "Count same set in two ways",
        domains: vec![Domain::Combinatorics],
        requires: Vec::new(),
        reversible: false,
        cost: 2,
        rewrite: Rewrite::CombDoubleCounting,
    }
}

/// The rule `ordinary_gf`: Ordinary generating function.
pub fn ordinary_gf() -> (r: Rule)
    ensures
        rule_view(r) == (616u32, "ordinary_gf"@, RuleCategory::Simplification, "Ordinary generating function"@, seq![Domain::Combinatorics], Seq::<Feature>::empty(), false, 3u32, Rewrite::CombOrdinaryGf),
{
    Rule {
        id: RuleId(616),
        name: "ordinary_gf",
        category: RuleCategory::Simplification,
        description: "Ordinary generating function",
        domains: vec![Domain::Combinatorics],
        requires: Vec::new(),
        reversible: false,
        cost: 3,
        rewrite: Rewrite::CombOrdinaryGf,
    }
}

/// The rule `exponential_gf`: Exponential generating function.
pub fn exponential_gf() -> (r: Rule)
    ensures
        rule_view(r) == (617u32, "exponential_gf"@, RuleCategory::Simplification, "Exponential generating function"@, seq![Domain::Combinatorics], Seq::<Feature>::empty(), false, 3u32, Rewrite::CombExponentialGf),
{
    Rule {
        id: RuleId(617),
        name: "exponential_gf",
        category: RuleCategory::Simplification,
        description: "Exponential generating function",
        domains: vec![Domain::Combinatorics],
        requires: Vec::new(),
        reversible: false,
        cost: 3,
        rewrite: Rewrite::CombExponentialGf,
    }
}

/// The rule `binomial_sum_2n`: Σ C(n,k) = 2^n.
pub fn binomial_sum_2n() -> (r: Rule)
    ensures
        rule_view(r) == (618u32, "binomial_sum_2n"@, RuleCategory::Simplification, "Σ C(n,k) = 2^n"@, seq![Domain::Combinatorics], Seq::<Feature>::empty(), false, 1u32, Rewrite::BinomialSum2n),
{
    Rule {
        id: RuleId(618),
        name: "binomial_sum_2n",
        category: RuleCategory::Simplification,
        description: "Σ C(n,k) = 2^n",
        domains: vec![Domain::Combinatorics],
        requires: Vec::new(),
        reversible: false,
        cost: 1,
        rewrite: Rewrite::BinomialSum2n,
    }
}

/// The rule `binomial_alternating_sum`: Σ (-1)^k * C(n,k) = 0.
pub fn binomial_alternating_sum() -> (r: Rule)
    ensures
        rule_view(r) == (619u32, "binomial_alternating_sum"@, RuleCategory::Simplification, "Σ (-1)^k * C(n,k) = 0"@, seq![Domain::Combinatorics], Seq::<Feature>::empty(), false, 1u32, Rewrite::BinomialAlternatingSum),
{
    Rule {
        id: RuleId(619),
        name: "binomial_alternating_sum",
        category: RuleCategory::Simplification,
        description: "Σ (-1)^k * C(n,k) = 0",
        domains: vec![Domain::Combinatorics],
        requires: Vec::new(),
        reversible: false,
        cost: 1,
        rewrite: Rewrite::BinomialAlternatingSum,
    }
}

/// The rule `permutation_formula_advanced` (named apart from the counting group's
/// `permutation_formula`): P(n,k) = n!/(n-k)!.
pub fn permutation_formula() -> (r: Rule)
    ensures
        rule_view(r) == (620u32, "permutation_formula_advanced"@, RuleCategory::Simplification, "P(n,k) = n!/(n-k)!"@, seq![Domain::Combinatorics], Seq::<Feature>::empty(), false, 2u32, Rewrite::CombPermutationFormulaPermutationFormula),
{
    Rule {
        id: RuleId(620),
        name: "permutation_formula_advanced",
        category: RuleCategory::Simplification,
        description: "P(n,k) = n!/(n-k)!",
        domains: vec![Domain::Combinatorics],
        requires: Vec::new(),
        reversible: false,
        cost: 2,
        rewrite: Rewrite::CombPermutationFormulaPermutationFormula,
    }
}

/// The rule `circular_permutation`: Circular permutations = (n-1)!.
pub fn circular_permutation() -> (r: Rule)
    ensures
        rule_view(r) == (621u32, "circular_permutation"@, RuleCategory::Simplification, "Circular permutations = (n-1)!"@, seq![Domain::Combinatorics], Seq::<Feature>::empty(), false, 2u32, Rewrite::CombCircularPermutation),
{
    Rule {
        id: RuleId(621),
        name: "circular_permutation",
        category: RuleCategory::Simplification,
        description: "Circular permutations = (n-1)!",
        domains: vec![Domain::Combinatorics],
        requires: Vec::new(),
        reversible: false,
        cost: 2,
        rewrite: Rewrite::CombCircularPermutation,
    }
}

/// The rule `derangement_asymptotic`: D(n) ~ n!/e.
pub fn derangement_asymptotic() -> (r: Rule)
    ensures
        rule_view(r) == (622u32, "derangement_asymptotic"@, RuleCategory::Simplification, "D(n) ~ n!/e"@, seq![Domain::Combinatorics], Seq::<Feature>::empty(), false, 2u32, Rewrite::CombDerangementAsymptotic),
{
    Rule {
        id: RuleId(622),
        name: "derangement_asymptotic",
        category: RuleCategory::Simplification,
        description: "D(n) ~ n!/e",
        domains: vec![Domain::Combinatorics],
        requires: Vec::new(),
        reversible: false,
        cost: 2,
        rewrite: Rewrite::CombDerangementAsymptotic,
    }
}

/// The rule `fibonacci_addition`: F(m+n) = F(m)*F(n+1) + F(m-1)*F(n).
pub fn fibonacci_addition() -> (r: Rule)
    ensures
        rule_view(r) == (623u32, "fibonacci_addition"@, RuleCategory::Simplification, "F(m+n) = F(m)*F(n+1) + F(m-1)*F(n)"@, seq![Domain::Combinatorics], Seq::<Feature>::empty(), false, 3u32, Rewrite::CombFibonacciAddition),
{
    Rule {
        id: RuleId(623),
        name: "fibonacci_addition",
        category: RuleCategory::Simplification,
        description: "F(m+n) = F(m)*F(n+1) + F(m-1)*F(n)",
        domains: vec![Domain::Combinatorics],
        requires: Vec::new(),
        reversible: false,
        cost: 3,
        rewrite: Rewrite::CombFibonacciAddition,
    }
}

/// The rule `fibonacci_gcd`: gcd(F(m), F(n)) = F(gcd(m,n)).
pub fn fibonacci_gcd() -> (r: Rule)
    ensures
        rule_view(r) == (624u32, "fibonacci_gcd"@, RuleCategory::Simplification, "gcd(F(m), F(n)) = F(gcd(m,n))"@, seq![Domain::Combinatorics], Seq::<Feature>::empty(), false, 3u32, Rewrite::CombFibonacciGcd),
{
    Rule {
        id: RuleId(624),
        name: "fibonacci_gcd",
        category: RuleCategory::Simplification,
        description: "gcd(F(m), F(n)) = F(gcd(m,n))",
        domains: vec![Domain::Combinatorics],
        requires: Vec::new(),
        reversible: false,
        cost: 3,
        rewrite: Rewrite::CombFibonacciGcd,
    }
}

/// The rule `lucas_numbers`: L(n) = F(n-1) + F(n+1).
pub fn lucas_numbers() -> (r: Rule)
    ensures
        rule_view(r) == (625u32, "lucas_numbers"@, RuleCategory::Simplification, "L(n) = F(n-1) + F(n+1)"@, seq![Domain::Combinatorics], Seq::<Feature>::empty(), false, 2u32, Rewrite::CombLucasNumbers),
{
    Rule {
        id: RuleId(625),
        name: "lucas_numbers",
        category: RuleCategory::Simplification,
        description: "L(n) = F(n-1) + F(n+1)",
        domains: vec![Domain::Combinatorics],
        requires: Vec::new(),
        reversible: false,
        cost: 2,
        rewrite: Rewrite::CombLucasNumbers,
    }
}

/// The rule `permutation_with_repetition`: Permutations with repetition: n^k.
pub fn permutation_with_repetition() -> (r: Rule)
    ensures
        rule_view(r) == (650u32, "permutation_with_repetition"@, RuleCategory::Simplification, "Permutations with repetition: n^k"@, Seq::<Domain>::empty(), Seq::<Feature>::empty(), false, 1u32, Rewrite::PermutationWithRepetition),
{
    Rule {
        id: RuleId(650),
        name: "permutation_with_repetition",
        category: RuleCategory::Simplification,
        description: "Permutations with repetition: n^k",
        domains: Vec::new(),
        requires: Vec::new(),
        reversible: false,
        cost: 1,
        rewrite: Rewrite::PermutationWithRepetition,
    }
}

/// The rule `combination_with_repetition`: Combinations with repetition: C(n+k-1, k).
pub fn combination_with_repetition() -> (r: Rule)
    ensures
        rule_view(r) == (651u32, "combination_with_repetition"@, RuleCategory::Simplification, "Combinations with repetition: C(n+k-1, k)"@, Seq::<Domain>::empty(), Seq::<Feature>::empty(), false, 2u32, Rewrite::CombinationWithRepetition),
{
    Rule {
        id: RuleId(651),
        name: "combination_with_repetition",
        category: RuleCategory::Simplification,
        description: "Combinations with repetition: C(n+k-1, k)",
        domains: Vec::new(),
        requires: Vec::new(),
        reversible: false,
        cost: 2,
        rewrite: Rewrite::CombinationWithRepetition,
    }
}

/// The rule `bell_number_recurrence`: B(n+1) = Σ C(n,k)*B(k).
pub fn bell_number_recurrence() -> (r: Rule)
    ensures
        rule_view(r) == (652u32, "bell_number_recurrence"@, RuleCategory::Simplification, "B(n+1) = Σ C(n,k)*B(k)"@, Seq::<Domain>::empty(), Seq::<Feature>::empty(), false, 3u32, Rewrite::CombBellNumberRecurrence),
{
    Rule {
        id: RuleId(652),
        name: "bell_number_recurrence",
        category: RuleCategory::Simplification,
        description: "B(n+1) = Σ C(n,k)*B(k)",
        domains: Vec::new(),
        requires: Vec::new(),
        reversible: false,
        cost: 3,
        rewrite: Rewrite::CombBellNumberRecurrence,
    }
}

/// The rule `multinomial_coefficient`: Multinomial: n!/(k1!k2!...km!).
pub fn multinomial_coefficient() -> (r: Rule)
    ensures
        rule_view(r) == (653u32, "multinomial_coefficient"@, RuleCategory::Simplification, "Multinomial: n!/(k1!k2!...km!)"@, Seq::<Domain>::empty(), Seq::<Feature>::empty(), false, 2u32, Rewrite::MultinomialCoefficient),
{
    Rule {
        id: RuleId(653),
        name: "multinomial_coefficient",
        category: RuleCategory::Simplification,
        description: "Multinomial: n!/(k1!k2!...km!)",
        domains: Vec::new(),
        requires: Vec::new(),
        reversible: false,
        cost: 2,
        rewrite: Rewrite::MultinomialCoefficient,
    }
}

/// The rule `binomial_weighted_sum`: Σ k*C(n,k) = n*2^(n-1).
pub fn binomial_weighted_sum() -> (r: Rule)
    ensures
        rule_view(r) == (654u32, "binomial_weighted_sum"@, RuleCategory::Simplification, "Σ k*C(n,k) = n*2^(n-1)"@, Seq::<Domain>::empty(), Seq::<Feature>::empty(), false, 2u32, Rewrite::BinomialWeightedSum),
{
    Rule {
        id: RuleId(654),
        name: "binomial_weighted_sum",
        category: RuleCategory::Simplification,
        description: "Σ k*C(n,k) = n*2^(n-1)",
        domains: Vec::new(),
        requires: Vec::new(),
        reversible: false,
        cost: 2,
        rewrite: Rewrite::BinomialWeightedSum,
    }
}

/// The rule `subfactorial`: Subfactorial !n = D(n).
pub fn subfactorial() -> (r: Rule)
    ensures
        rule_view(r) == (655u32, "subfactorial"@, RuleCategory::Simplification, "Subfactorial !n = D(n)"@, Seq::<Domain>::empty(), Seq::<Feature>::empty(), false, 2u32, Rewrite::CombSubfactorial),
{
    Rule {
        id: RuleId(655),
        name: "subfactorial",
        category: RuleCategory::Simplification,
        description: "Subfactorial !n = D(n)",
        domains: Vec::new(),
        requires: Vec::new(),
        reversible: false,
        cost: 2,
        rewrite: Rewrite::CombSubfactorial,
    }
}

/// The rule `christmas_stocking`: C(n,m)*C(m,k) = C(n,k)*C(n-k,m-k).
pub fn christmas_stocking() -> (r: Rule)
    ensures
        rule_view(r) == (656u32, "christmas_stocking"@, RuleCategory::Simplification, "C(n,m)*C(m,k) = C(n,k)*C(n-k,m-k)"@, Seq::<Domain>::empty(), Seq::<Feature>::empty(), true, 2u32, Rewrite::CombChristmasStocking),
{
    Rule {
        id: RuleId(656),
        name: "christmas_stocking",
        category: RuleCategory::Simplification,
        description: "C(n,m)*C(m,k) = C(n,k)*C(n-k,m-k)",
        domains: Vec::new(),
        requires: Vec::new(),
        reversible: true,
        cost: 2,
        rewrite: Rewrite::CombChristmasStocking,
    }
}

/// The rule `binomial_squares_sum`: Σ C(n,k)^2 = C(2n,n).
pub fn binomial_squares_sum() -> (r: Rule)
    ensures
        rule_view(r) == (657u32, "binomial_squares_sum"@, RuleCategory::Simplification, "Σ C(n,k)^2 = C(2n,n)"@, Seq::<Domain>::empty(), Seq::<Feature>::empty(), false, 2u32, Rewrite::BinomialSquaresSum),
{
    Rule {
        id: RuleId(657),
        name: "binomial_squares_sum",
        category: RuleCategory::Simplification,
        description: "Σ C(n,k)^2 = C(2n,n)",
        domains: Vec::new(),
        requires: Vec::new(),
        reversible: false,
        cost: 2,
        rewrite: Rewrite::BinomialSquaresSum,
    }
}

/// The rule `rising_factorial`: Rising factorial (x)_n.
pub fn rising_factorial() -> (r: Rule)
    ensures
        rule_view(r) == (658u32, "rising_factorial"@, RuleCategory::Expansion, "Rising factorial (x)_n"@, Seq::<Domain>::empty(), Seq::<Feature>::empty(), false, 2u32, Rewrite::CombRisingFactorial),
{
    Rule {
        id: RuleId(658),
        name: "rising_factorial",
        category: RuleCategory::Expansion,
        description: "Rising factorial (x)_n",
        domains: Vec::new(),
        requires: Vec::new(),
        reversible: false,
        cost: 2,
        rewrite: Rewrite::CombRisingFactorial,
    }
}

/// The rule `falling_factorial`: Falling factorial (x)^n.
pub fn falling_factorial() -> (r: Rule)
    ensures
        rule_view(r) == (659u32, "falling_factorial"@, RuleCategory::Expansion, "Falling factorial (x)^n"@, Seq::<Domain>::empty(), Seq::<Feature>::empty(), false, 2u32, Rewrite::CombFallingFactorial),
{
    Rule {
        id: RuleId(659),
        name: "falling_factorial",
        category: RuleCategory::Expansion,
        description: "Falling factorial (x)^n",
        domains: Vec::new(),
        requires: Vec::new(),
        reversible: false,
        cost: 2,
        rewrite: Rewrite::CombFallingFactorial,
    }
}

/// The rule `legendre_formula`: Legendre: vp(n!) = Σ ⌊n/p^k⌋.
pub fn legendre_formula() -> (r: Rule)
    ensures
        rule_view(r) == (660u32, "legendre_formula"@, RuleCategory::NumberTheory, "Legendre: vp(n!) = Σ ⌊n/p^k⌋"@, Seq::<Domain>::empty(), Seq::<Feature>::empty(), false, 3u32, Rewrite::CombLegendreFormula),
{
    Rule {
        id: RuleId(660),
        name: "legendre_formula",
        category: RuleCategory::NumberTheory,
        description: "Legendre: vp(n!) = Σ ⌊n/p^k⌋",
        domains: Vec::new(),
        requires: Vec::new(),
        reversible: false,
        cost: 3,
        rewrite: Rewrite::CombLegendreFormula,
    }
}

/// The rule `kummer_theorem`: Kummer: vp(C(m+n,m)) = carries in base p.
pub fn kummer_theorem() -> (r: Rule)
    ensures
        rule_view(r) == (661u32, "kummer_theorem"@, RuleCategory::NumberTheory, "Kummer: vp(C(m+n,m)) = carries in base p"@, Seq::<Domain>::empty(), Seq::<Feature>::empty(), false, 3u32, Rewrite::CombKummerTheorem),
{
    Rule {
        id: RuleId(661),
        name: "kummer_theorem",
        category: RuleCategory::NumberTheory,
        description: "Kummer: vp(C(m+n,m)) = carries in base p",
        domains: Vec::new(),
        requires: Vec::new(),
        reversible: false,
        cost: 3,
        rewrite: Rewrite::CombKummerTheorem,
    }
}

/// The rule `lucas_theorem`: Lucas: C(m,n) mod p.
pub fn lucas_theorem() -> (r: Rule)
    ensures
        rule_view(r) == (662u32, "lucas_theorem"@, RuleCategory::NumberTheory, "Lucas: C(m,n) mod p"@, Seq::<Domain>::empty(), Seq::<Feature>::empty(), false, 3u32, Rewrite::LucasBinomialMod),
{
    Rule {
        id: RuleId(662),
        name: "lucas_theorem",
        category: RuleCategory::NumberTheory,
        description: "Lucas: C(m,n) mod p",
        domains: Vec::new(),
        requires: Vec::new(),
        reversible: false,
        cost: 3,
        rewrite: Rewrite::LucasBinomialMod,
    }
}

/// The rule `burnside_lemma`: Burnside: |X/G| = (1/|G|) Σ |X^g|.
pub fn burnside_lemma() -> (r: Rule)
    ensures
        rule_view(r) == (663u32, "burnside_lemma"@, RuleCategory::Simplification, "Burnside: |X/G| = (1/|G|) Σ |X^g|"@, Seq::<Domain>::empty(), Seq::<Feature>::empty(), false, 4u32, Rewrite::CombBurnsideLemma),
{
    Rule {
        id: RuleId(663),
        name: "burnside_lemma",
        category: RuleCategory::Simplification,
        description: "Burnside: |X/G| = (1/|G|) Σ |X^g|",
        domains: Vec::new(),
        requires: Vec::new(),
        reversible: false,
        cost: 4,
        rewrite: Rewrite::CombBurnsideLemma,
    }
}

/// The rule `polya_enumeration`: Polya enumeration theorem.
pub fn polya_enumeration() -> (r: Rule)
    ensures
        rule_view(r) == (664u32, "polya_enumeration"@, RuleCategory::Simplification, "Polya enumeration theorem"@, Seq::<Domain>::empty(), Seq::<Feature>::empty(), false, 4u32, Rewrite::CombPolyaEnumeration),
{
    Rule {
        id: RuleId(664),
        name: "polya_enumeration",
        category: RuleCategory::Simplification,
        description: "Polya enumeration theorem",
        domains: Vec::new(),
        requires: Vec::new(),
        reversible: false,
        cost: 4,
        rewrite: Rewrite::CombPolyaEnumeration,
    }
}

/// The rule `catalan_alternative`: C_n = (2n)!/(n!(n+1)!).
pub fn catalan_alternative() -> (r: Rule)
    ensures
        rule_view(r) == (665u32, "catalan_alternative"@, RuleCategory::Simplification, "C_n = (2n)!/(n!(n+1)!)"@, Seq::<Domain>::empty(), Seq::<Feature>::empty(), false, 2u32, Rewrite::CatalanAlternative),
{
    Rule {
        id: RuleId(665),
        name: "catalan_alternative",
        category: RuleCategory::Simplification,
        description: "C_n = (2n)!/(n!(n+1)!)",
        domains: Vec::new(),
        requires: Vec::new(),
        reversible: false,
        cost: 2,
        rewrite: Rewrite::CatalanAlternative,
    }
}

/// The rule `partition_into_parts`: p(n,k) = p(n-1,k-1) + p(n-k,k).
pub fn partition_into_parts() -> (r: Rule)
    ensures
        rule_view(r) == (666u32, "partition_into_parts"@, RuleCategory::Simplification, "p(n,k) = p(n-1,k-1) + p(n-k,k)"@, Seq::<Domain>::empty(), Seq::<Feature>::empty(), false, 2u32, Rewrite::CombPartitionIntoParts),
{
    Rule {
        id: RuleId(666),
        name: "partition_into_parts",
        category: RuleCategory::Simplification,
        description: "p(n,k) = p(n-1,k-1) + p(n-k,k)",
        domains: Vec::new(),
        requires: Vec::new(),
        reversible: false,
        cost: 2,
        rewrite: Rewrite::CombPartitionIntoParts,
    }
}

/// The rule `pattern_avoidance`: Permutations avoiding pattern.
pub fn pattern_avoidance() -> (r: Rule)
    ensures
        rule_view(r) == (667u32, "pattern_avoidance"@, RuleCategory::Simplification, "Permutations avoiding pattern"@, Seq::<Domain>::empty(), Seq::<Feature>::empty(), false, 3u32, Rewrite::CombPatternAvoidance),
{
    Rule {
        id: RuleId(667),
        name: "pattern_avoidance",
        category: RuleCategory::Simplification,
        description: "Permutations avoiding pattern",
        domains: Vec::new(),
        requires: Vec::new(),
        reversible: false,
        cost: 3,
        rewrite: Rewrite::CombPatternAvoidance,
    }
}

/// The rule `derangement_simple_recurrence`: D(n) = n*D(n-1) + (-1)^n.
pub fn derangement_simple_recurrence() -> (r: Rule)
    ensures
        rule_view(r) == (668u32, "derangement_simple_recurrence"@, RuleCategory::Simplification, "D(n) = n*D(n-1) + (-1)^n"@, Seq::<Domain>::empty(), Seq::<Feature>::empty(), false, 2u32, Rewrite::CombDerangementSimpleRecurrence),
{
    Rule {
        id: RuleId(668),
        name: "derangement_simple_recurrence",
        category: RuleCategory::Simplification,
        description: "D(n) = n*D(n-1) + (-1)^n",
        domains: Vec::new(),
        requires: Vec::new(),
        reversible: false,
        cost: 2,
        rewrite: Rewrite::CombDerangementSimpleRecurrence,
    }
}

/// The rule `fibonacci_generating_function`: Fibonacci GF: x/(1-x-x^2).
pub fn fibonacci_generating_function() -> (r: Rule)
    ensures
        rule_view(r) == (669u32, "fibonacci_generating_function"@, RuleCategory::Simplification, "Fibonacci GF: x/(1-x-x^2)"@, Seq::<Domain>::empty(), Seq::<Feature>::empty(), false, 3u32, Rewrite::FibonacciGeneratingFunction),
{
    Rule {
        id: RuleId(669),
        name: "fibonacci_generating_function",
        category: RuleCategory::Simplification,
        description: "Fibonacci GF: x/(1-x-x^2)",
        domains: Vec::new(),
        requires: Vec::new(),
        reversible: false,
        cost: 3,
        rewrite: Rewrite::FibonacciGeneratingFunction,
    }
}

} // verus!
