//! Mathematical transformation rules: a rule registry, a dense action
//! vocabulary over it, and the symbolic reasoning helpers the rules use.

pub mod rule;
pub mod rewrite;
pub mod rewrite_derivative;
pub mod rewrite_integral;
pub mod rewrite_integration;
pub mod rewrite_equation;
pub mod rewrite_inequality;
pub mod rewrite_number;
pub mod rewrite_counting;
pub mod rewrite_identity;
pub mod rewrite_geometry;
pub mod text;
pub mod action;
pub mod rational;
pub mod expr;
pub mod guardrail;
pub mod induction;
pub mod case_analysis;
pub mod number_theory;
pub mod calculus;
pub mod board_exam;
pub mod combinatorics;
pub mod equations;
pub mod geometry;
pub mod inequalities;
pub mod inequality_chain;
pub mod integration;
pub mod polynomials;
pub mod polynomial;
pub mod backward;
pub mod patterns;

pub use action::{ActionEntry, ActionError, ActionVocabulary, ACTION_VOCABULARY_VERSION};
pub use guardrail::{analyze, decompose_additive, filter_rules, is_rule_applicable, ProblemProfile};
pub use patterns::match_integral_pattern;
pub use rule::{
    try_standard_rules, Domain, Feature, RegistryError, Rule, RuleApplication, RuleCategory, RuleContext, RuleId,
    RuleKey, RuleSet,
};
