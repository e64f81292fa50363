# mm_rules

Mathematical transformation rules, verified with Verus.

The library holds a registry of rewrite rules over symbolic expressions, a
dense action vocabulary over that registry for policy networks, and the
symbolic helpers the rules rely on: exact rational arithmetic, polynomial
normal forms, differentiation, simplification and evaluation, quadratic and
progression formulas, inequality chains, induction and case-analysis
bookkeeping, and backward proof search.

Every rule's applicability test and results are specified by spec functions
(`rewrite::applies`, `rewrite::results`), and the executable code is proved
against them. Arithmetic on `i64`-based rationals is proved free of overflow:
where a result would not fit, the functions say so in their contracts.

Layout:

- `src/` — the verified library (`src/lib.rs` is the crate root).
  - `rule.rs`, `action.rs` — the registry and the action vocabulary with its
    digest.
  - `rewrite*.rs` — the behaviour of every rule, with its specification.
  - `calculus.rs`, `integration.rs`, `equations.rs`, `geometry.rs`,
    `number_theory.rs`, `combinatorics.rs`, `inequalities.rs`,
    `polynomials.rs` — the rule groups and the helpers they expose.
  - `rational.rs`, `expr.rs`, `polynomial.rs`, `text.rs` — the data model.
  - `board_exam.rs`, `induction.rs`, `case_analysis.rs`,
    `inequality_chain.rs`, `backward.rs`, `guardrail.rs`, `patterns.rs` —
    reasoning helpers.
- `tests/` — behavioural tests run against the compiled library.
- `app/` — thin unverified glue: a `Display`able error wrapper, the
  process-wide standard vocabulary and the floating-point solvability
  heuristic.

Run `verus` on `src/lib.rs` to check the proofs.
