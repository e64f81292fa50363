//! Mathematical induction for proof search.
//!
//! - Simple induction: `P(0) ∧ (∀k. P(k) → P(k+1)) → ∀n. P(n)`
//! - Strong induction: `(∀k. (∀j < k. P(j)) → P(k)) → ∀n. P(n)`
//! - Starting from 1: `P(1) ∧ (∀k≥1. P(k) → P(k+1)) → ∀n≥1. P(n)`

use vstd::prelude::*;
use crate::expr::{copy_expr, is_int_const, Expr, Symbol, SymbolTable};
use crate::rational::Rational;
use crate::text::push_text;

verus! {

/// Type of induction to use.
#[derive(Debug, Clone, Copy, PartialEq, Eq, Structural)]
pub enum InductionType {
    /// Standard weak induction: `P(0) ∧ (P(k) → P(k+1))`.
    Simple,
    /// Strong induction: `(∀j < k. P(j)) → P(k)`.
    Strong,
    /// Induction starting from 1 instead of 0.
    FromOne,
}

/// State of an induction proof.
#[derive(Debug)]
pub struct InductionProof {
    /// The property `P(n)` being proven.
    pub property: Expr,
    /// The induction variable.
    pub var: Symbol,
    /// Type of induction.
    pub induction_type: InductionType,
    /// Whether the base case is proven.
    pub base_proven: bool,
    /// Base case justification.
    pub base_justification: Option<String>,
    /// Whether the inductive step is proven.
    pub step_proven: bool,
    /// Inductive step justification.
    pub step_justification: Option<String>,
    /// Fresh variable for the inductive hypothesis.
    pub k_var: Option<Symbol>,
}

/// `e` with every free occurrence of `var` replaced by `value`.  Binders
/// (`∀`, `∃`, `Σ`, `Π`) of `var` itself are left untouched; derivative and
/// integral variables are not binders here.
pub open spec fn subst(e: Expr, var: Symbol, value: Expr) -> Expr
    decreases e,
{
    match e {
        Expr::Var(v) => if v == var {
            value
        } else {
            e
        },
        Expr::Const(_) | Expr::Pi | Expr::E => e,
        Expr::Neg(x) => Expr::Neg(Box::new(subst(*x, var, value))),
        Expr::Sqrt(x) => Expr::Sqrt(Box::new(subst(*x, var, value))),
        Expr::Sin(x) => Expr::Sin(Box::new(subst(*x, var, value))),
        Expr::Cos(x) => Expr::Cos(Box::new(subst(*x, var, value))),
        Expr::Tan(x) => Expr::Tan(Box::new(subst(*x, var, value))),
        Expr::Arcsin(x) => Expr::Arcsin(Box::new(subst(*x, var, value))),
        Expr::Arccos(x) => Expr::Arccos(Box::new(subst(*x, var, value))),
        Expr::Arctan(x) => Expr::Arctan(Box::new(subst(*x, var, value))),
        Expr::Ln(x) => Expr::Ln(Box::new(subst(*x, var, value))),
        Expr::Exp(x) => Expr::Exp(Box::new(subst(*x, var, value))),
        Expr::Abs(x) => Expr::Abs(Box::new(subst(*x, var, value))),
        Expr::Floor(x) => Expr::Floor(Box::new(subst(*x, var, value))),
        Expr::Ceiling(x) => Expr::Ceiling(Box::new(subst(*x, var, value))),
        Expr::Factorial(x) => Expr::Factorial(Box::new(subst(*x, var, value))),
        Expr::Not(x) => Expr::Not(Box::new(subst(*x, var, value))),
        Expr::Add(a, b) => Expr::Add(Box::new(subst(*a, var, value)), Box::new(subst(*b, var, value))),
        Expr::Sub(a, b) => Expr::Sub(Box::new(subst(*a, var, value)), Box::new(subst(*b, var, value))),
        Expr::Mul(a, b) => Expr::Mul(Box::new(subst(*a, var, value)), Box::new(subst(*b, var, value))),
        Expr::Div(a, b) => Expr::Div(Box::new(subst(*a, var, value)), Box::new(subst(*b, var, value))),
        Expr::Pow(a, b) => Expr::Pow(Box::new(subst(*a, var, value)), Box::new(subst(*b, var, value))),
        Expr::Gte(a, b) => Expr::Gte(Box::new(subst(*a, var, value)), Box::new(subst(*b, var, value))),
        Expr::Gt(a, b) => Expr::Gt(Box::new(subst(*a, var, value)), Box::new(subst(*b, var, value))),
        Expr::Lte(a, b) => Expr::Lte(Box::new(subst(*a, var, value)), Box::new(subst(*b, var, value))),
        Expr::Lt(a, b) => Expr::Lt(Box::new(subst(*a, var, value)), Box::new(subst(*b, var, value))),
        Expr::And(a, b) => Expr::And(Box::new(subst(*a, var, value)), Box::new(subst(*b, var, value))),
        Expr::Or(a, b) => Expr::Or(Box::new(subst(*a, var, value)), Box::new(subst(*b, var, value))),
        Expr::Implies(a, b) => Expr::Implies(Box::new(subst(*a, var, value)), Box::new(subst(*b, var, value))),
        Expr::Equation { lhs, rhs } => Expr::Equation {
            lhs: Box::new(subst(*lhs, var, value)),
            rhs: Box::new(subst(*rhs, var, value)),
        },
        Expr::GCD(a, b) => Expr::GCD(Box::new(subst(*a, var, value)), Box::new(subst(*b, var, value))),
        Expr::LCM(a, b) => Expr::LCM(Box::new(subst(*a, var, value)), Box::new(subst(*b, var, value))),
        Expr::Mod(a, b) => Expr::Mod(Box::new(subst(*a, var, value)), Box::new(subst(*b, var, value))),
        Expr::Binomial(a, b) => Expr::Binomial(Box::new(subst(*a, var, value)), Box::new(subst(*b, var, value))),
        Expr::ForAll { var: v, domain, body } => if v != var {
            Expr::ForAll {
                var: v,
                domain: match domain {
                    Some(d) => Some(Box::new(subst(*d, var, value))),
                    None => None,
                },
                body: Box::new(subst(*body, var, value)),
            }
        } else {
            e
        },
        Expr::Exists { var: v, domain, body } => if v != var {
            Expr::Exists {
                var: v,
                domain: match domain {
                    Some(d) => Some(Box::new(subst(*d, var, value))),
                    None => None,
                },
                body: Box::new(subst(*body, var, value)),
            }
        } else {
            e
        },
        Expr::Summation { var: v, from, to, body } => if v != var {
            Expr::Summation {
                var: v,
                from: Box::new(subst(*from, var, value)),
                to: Box::new(subst(*to, var, value)),
                body: Box::new(subst(*body, var, value)),
            }
        } else {
            e
        },
        Expr::BigProduct { var: v, from, to, body } => if v != var {
            Expr::BigProduct {
                var: v,
                from: Box::new(subst(*from, var, value)),
                to: Box::new(subst(*to, var, value)),
                body: Box::new(subst(*body, var, value)),
            }
        } else {
            e
        },
        Expr::Derivative { expr, var: v } => Expr::Derivative { expr: Box::new(subst(*expr, var, value)), var: v },
        Expr::Integral { expr, var: v } => Expr::Integral { expr: Box::new(subst(*expr, var, value)), var: v },
    }
}

/// Whether `var` occurs free in `e`, in the positions [`subst`] rewrites.
pub open spec fn occurs_free(var: Symbol, e: Expr) -> bool
    decreases e,
{
    match e {
        Expr::Var(v) => v == var,
        Expr::Neg(x) | Expr::Sqrt(x) | Expr::Sin(x) | Expr::Cos(x) | Expr::Tan(x) | Expr::Arcsin(x)
        | Expr::Arccos(x) | Expr::Arctan(x) | Expr::Ln(x) | Expr::Exp(x) | Expr::Abs(x) | Expr::Floor(x) | Expr::Ceiling(x) | Expr::Factorial(x)
        | Expr::Not(x) | Expr::Derivative { expr: x, .. } | Expr::Integral { expr: x, .. } => occurs_free(var, *x),
        Expr::Add(a, b) | Expr::Sub(a, b) | Expr::Mul(a, b) | Expr::Div(a, b) | Expr::Pow(a, b)
        | Expr::Gte(a, b) | Expr::Gt(a, b) | Expr::Lte(a, b) | Expr::Lt(a, b) | Expr::And(a, b)
        | Expr::Or(a, b) | Expr::Implies(a, b) | Expr::Equation { lhs: a, rhs: b } | Expr::GCD(a, b)
        | Expr::LCM(a, b) | Expr::Mod(a, b) | Expr::Binomial(a, b) => occurs_free(var, *a) || occurs_free(var, *b),
        Expr::ForAll { var: v, domain, body } | Expr::Exists { var: v, domain, body } => v != var && ((match domain {
            Some(d) => occurs_free(var, *d),
            None => false,
        }) || occurs_free(var, *body)),
        Expr::Summation { var: v, from, to, body } | Expr::BigProduct { var: v, from, to, body } => v != var
            && (occurs_free(var, *from) || occurs_free(var, *to) || occurs_free(var, *body)),
        _ => false,
    }
}

/// Substituting for a variable that does not occur free changes nothing.
pub proof fn lemma_subst_absent(e: Expr, var: Symbol, value: Expr)
    requires
        !occurs_free(var, e),
    ensures
        subst(e, var, value) == e,
    decreases e,
{
    match e {
        Expr::Neg(x) | Expr::Sqrt(x) | Expr::Sin(x) | Expr::Cos(x) | Expr::Tan(x) | Expr::Arcsin(x)
        | Expr::Arccos(x) | Expr::Arctan(x) | Expr::Ln(x) | Expr::Exp(x) | Expr::Abs(x) | Expr::Floor(x) | Expr::Ceiling(x) | Expr::Factorial(x)
        | Expr::Not(x) | Expr::Derivative { expr: x, .. } | Expr::Integral { expr: x, .. } => {
            lemma_subst_absent(*x, var, value);
        },
        Expr::Add(a, b) | Expr::Sub(a, b) | Expr::Mul(a, b) | Expr::Div(a, b) | Expr::Pow(a, b)
        | Expr::Gte(a, b) | Expr::Gt(a, b) | Expr::Lte(a, b) | Expr::Lt(a, b) | Expr::And(a, b)
        | Expr::Or(a, b) | Expr::Implies(a, b) | Expr::Equation { lhs: a, rhs: b } | Expr::GCD(a, b)
        | Expr::LCM(a, b) | Expr::Mod(a, b) | Expr::Binomial(a, b) => {
            lemma_subst_absent(*a, var, value);
            lemma_subst_absent(*b, var, value);
        },
        Expr::ForAll { var: v, domain, body } | Expr::Exists { var: v, domain, body } => {
            if v != var {
                match domain {
                    Some(d) => lemma_subst_absent(*d, var, value),
                    None => {},
                }
                lemma_subst_absent(*body, var, value);
            }
        },
        Expr::Summation { var: v, from, to, body } | Expr::BigProduct { var: v, from, to, body } => {
            if v != var {
                lemma_subst_absent(*from, var, value);
                lemma_subst_absent(*to, var, value);
                lemma_subst_absent(*body, var, value);
            }
        },
        _ => {},
    }
}

/// Substituting a variable by itself gives the expression back.
pub proof fn lemma_subst_self(e: Expr, var: Symbol)
    ensures
        subst(e, var, Expr::Var(var)) == e,
    decreases e,
{
    match e {
        Expr::Neg(x) | Expr::Sqrt(x) | Expr::Sin(x) | Expr::Cos(x) | Expr::Tan(x) | Expr::Arcsin(x)
        | Expr::Arccos(x) | Expr::Arctan(x) | Expr::Ln(x) | Expr::Exp(x) | Expr::Abs(x) | Expr::Floor(x)
        | Expr::Ceiling(x) | Expr::Factorial(x) | Expr::Not(x) | Expr::Derivative { expr: x, .. }
        | Expr::Integral { expr: x, .. } => {
            lemma_subst_self(*x, var);
        },
        Expr::Add(a, b) | Expr::Sub(a, b) | Expr::Mul(a, b) | Expr::Div(a, b) | Expr::Pow(a, b)
        | Expr::Gte(a, b) | Expr::Gt(a, b) | Expr::Lte(a, b) | Expr::Lt(a, b) | Expr::And(a, b)
        | Expr::Or(a, b) | Expr::Implies(a, b) | Expr::Equation { lhs: a, rhs: b } | Expr::GCD(a, b)
        | Expr::LCM(a, b) | Expr::Mod(a, b) | Expr::Binomial(a, b) => {
            lemma_subst_self(*a, var);
            lemma_subst_self(*b, var);
        },
        Expr::ForAll { var: v, domain, body } | Expr::Exists { var: v, domain, body } => {
            match domain {
                Some(d) => lemma_subst_self(*d, var),
                None => {},
            }
            lemma_subst_self(*body, var);
        },
        Expr::Summation { var: v, from, to, body } | Expr::BigProduct { var: v, from, to, body } => {
            lemma_subst_self(*from, var);
            lemma_subst_self(*to, var);
            lemma_subst_self(*body, var);
        },
        _ => {},
    }
}

/// After substituting a value in which `var` does not occur, `var` no longer
/// occurs free.
pub proof fn lemma_subst_eliminates(e: Expr, var: Symbol, value: Expr)
    requires
        !occurs_free(var, value),
    ensures
        !occurs_free(var, subst(e, var, value)),
    decreases e,
{
    match e {
        Expr::Neg(x) | Expr::Sqrt(x) | Expr::Sin(x) | Expr::Cos(x) | Expr::Tan(x) | Expr::Arcsin(x)
        | Expr::Arccos(x) | Expr::Arctan(x) | Expr::Ln(x) | Expr::Exp(x) | Expr::Abs(x) | Expr::Floor(x) | Expr::Ceiling(x) | Expr::Factorial(x)
        | Expr::Not(x) | Expr::Derivative { expr: x, .. } | Expr::Integral { expr: x, .. } => {
            lemma_subst_eliminates(*x, var, value);
        },
        Expr::Add(a, b) | Expr::Sub(a, b) | Expr::Mul(a, b) | Expr::Div(a, b) | Expr::Pow(a, b)
        | Expr::Gte(a, b) | Expr::Gt(a, b) | Expr::Lte(a, b) | Expr::Lt(a, b) | Expr::And(a, b)
        | Expr::Or(a, b) | Expr::Implies(a, b) | Expr::Equation { lhs: a, rhs: b } | Expr::GCD(a, b)
        | Expr::LCM(a, b) | Expr::Mod(a, b) | Expr::Binomial(a, b) => {
            lemma_subst_eliminates(*a, var, value);
            lemma_subst_eliminates(*b, var, value);
        },
        Expr::ForAll { var: v, domain, body } | Expr::Exists { var: v, domain, body } => {
            if v != var {
                match domain {
                    Some(d) => lemma_subst_eliminates(*d, var, value),
                    None => {},
                }
                lemma_subst_eliminates(*body, var, value);
            }
        },
        Expr::Summation { var: v, from, to, body } | Expr::BigProduct { var: v, from, to, body } => {
            if v != var {
                lemma_subst_eliminates(*from, var, value);
                lemma_subst_eliminates(*to, var, value);
                lemma_subst_eliminates(*body, var, value);
            }
        },
        _ => {},
    }
}

/// The name the table gives the fresh inductive variable.
pub open spec fn fresh_k_name() -> Seq<char> {
    seq!['_', 'k']
}

/// The base value of an induction: 1 when starting from one, 0 otherwise.
pub open spec fn base_value(t: InductionType) -> int {
    match t {
        InductionType::FromOne => 1,
        _ => 0,
    }
}

/// The name of an induction scheme as written in justifications.
pub open spec fn induction_name(t: InductionType) -> Seq<char> {
    match t {
        InductionType::Simple => "mathematical induction"@,
        InductionType::Strong => "strong induction"@,
        InductionType::FromOne => "mathematical induction (from n=1)"@,
    }
}

/// The justification text of a completed induction.
pub open spec fn induction_text(t: InductionType, base: Seq<char>, step: Seq<char>) -> Seq<char> {
    "By "@ + induction_name(t) + ":\n  Base case: "@ + base + "\n  Inductive step: "@ + step
}

/// `k + 1` as an expression.
pub open spec fn succ_of(k: Symbol, one: Expr) -> Expr {
    Expr::Add(Box::new(Expr::Var(k)), Box::new(one))
}

/// How interning `_k` changes a table: unchanged when `_k` is already
/// there, otherwise extended by `_k` alone; every old symbol keeps its id.
pub open spec fn k_interned(before: Seq<Seq<char>>, after: Seq<Seq<char>>) -> bool {
    if before.contains(fresh_k_name()) {
        after == before
    } else {
        after == before.push(fresh_k_name())
    }
}

/// Intern the fresh inductive variable `_k`.
fn intern_k(symbols: &mut SymbolTable) -> (k: Symbol)
    requires
        old(symbols).spec_names().len() < u32::MAX,
    ensures
        final(symbols).spec_names()[k.0 as int] == fresh_k_name(),
        k.0 < final(symbols).spec_names().len(),
        k_interned(old(symbols).spec_names(), final(symbols).spec_names()),
{
    let name = "_k";
    proof {
        reveal_strlit("_k");
    }
    symbols.intern(name)
}

impl InductionProof {
    /// A simple induction proof of a universally quantified goal `∀n. P(n)`;
    /// `None` for any other goal.
    pub fn from_forall(goal: &Expr, symbols: &mut SymbolTable) -> (res: Option<Self>)
        requires
            old(symbols).spec_names().len() < u32::MAX,
        ensures
            res is Some <==> *goal is ForAll,
            res matches Some(p) ==> ({
                &&& *goal matches Expr::ForAll { var, body, .. } && p.var == var && p.property == *body
                &&& p.induction_type == InductionType::Simple
                &&& !p.base_proven && !p.step_proven
                &&& p.base_justification is None && p.step_justification is None
                &&& p.k_var matches Some(k) && final(symbols).spec_names()[k.0 as int] == fresh_k_name()
                    && k.0 < final(symbols).spec_names().len()
                &&& k_interned(old(symbols).spec_names(), final(symbols).spec_names())
            }),
            *goal !is ForAll ==> *final(symbols) == *old(symbols),
    {
        match goal {
            Expr::ForAll { var, body, .. } => {
                let k = intern_k(symbols);
                Some(InductionProof {
                    property: copy_expr(body),
                    var: *var,
                    induction_type: InductionType::Simple,
                    base_proven: false,
                    base_justification: None,
                    step_proven: false,
                    step_justification: None,
                    k_var: Some(k),
                })
            },
            _ => None,
        }
    }

    /// An induction proof of `property` over `var` with the given scheme.
    pub fn new(property: Expr, var: Symbol, induction_type: InductionType, symbols: &mut SymbolTable) -> (p: Self)
        requires
            old(symbols).spec_names().len() < u32::MAX,
        ensures
            p.property == property && p.var == var && p.induction_type == induction_type,
            !p.base_proven && !p.step_proven,
            p.base_justification is None && p.step_justification is None,
            p.k_var matches Some(k) && final(symbols).spec_names()[k.0 as int] == fresh_k_name()
                && k.0 < final(symbols).spec_names().len(),
            k_interned(old(symbols).spec_names(), final(symbols).spec_names()),
    {
        let k = intern_k(symbols);
        InductionProof {
            property,
            var,
            induction_type,
            base_proven: false,
            base_justification: None,
            step_proven: false,
            step_justification: None,
            k_var: Some(k),
        }
    }

    /// The base case goal: `P(0)`, or `P(1)` when starting from one.
    pub fn base_case(&self) -> (e: Expr)
        ensures
            exists|b: Expr| is_int_const(b, base_value(self.induction_type)) && e == subst(self.property, self.var, b),
    {
        let base = match self.induction_type {
            InductionType::Simple | InductionType::Strong => Expr::integer(0),
            InductionType::FromOne => Expr::integer(1),
        };
        assert(is_int_const(base, base_value(self.induction_type)));
        self.substitute(&self.property, self.var, &base)
    }

    /// The inductive hypothesis: `P(k)`; for strong induction the quantified
    /// form `∀k. (k < k) P(k)` that stands for "P holds below k".
    pub fn inductive_hypothesis(&self) -> (res: Option<Expr>)
        ensures
            res is Some <==> self.k_var is Some,
            res matches Some(h) ==> ({
                let k = self.k_var->0;
                let pk = subst(self.property, self.var, Expr::Var(k));
                match self.induction_type {
                    InductionType::Strong => h == Expr::ForAll {
                        var: k,
                        domain: Some(Box::new(Expr::Lt(Box::new(Expr::Var(k)), Box::new(Expr::Var(k))))),
                        body: Box::new(pk),
                    },
                    _ => h == pk,
                }
            }),
    {
        let k = match self.k_var {
            Some(k) => k,
            None => return None,
        };
        match self.induction_type {
            InductionType::Simple | InductionType::FromOne => {
                Some(self.substitute(&self.property, self.var, &Expr::Var(k)))
            },
            InductionType::Strong => Some(
                Expr::ForAll {
                    var: k,
                    domain: Some(Box::new(Expr::Lt(Box::new(Expr::Var(k)), Box::new(Expr::Var(k))))),
                    body: Box::new(self.substitute(&self.property, self.var, &Expr::Var(k))),
                },
            ),
        }
    }

    /// The inductive step goal: `P(k+1)`.
    pub fn inductive_step_goal(&self) -> (res: Option<Expr>)
        ensures
            res is Some <==> self.k_var is Some,
            res matches Some(g) ==> exists|one: Expr|
                is_int_const(one, 1) && g == subst(self.property, self.var, succ_of(self.k_var->0, one)),
    {
        let k = match self.k_var {
            Some(k) => k,
            None => return None,
        };
        let one = Expr::integer(1);
        let ghost one_spec = one;
        let k_plus_1 = Expr::Add(Box::new(Expr::Var(k)), Box::new(one));
        assert(is_int_const(one_spec, 1) && k_plus_1 == succ_of(k, one_spec));
        Some(self.substitute(&self.property, self.var, &k_plus_1))
    }

    /// The full inductive step as an implication `hypothesis → step goal`.
    pub fn inductive_step_implication(&self) -> (res: Option<Expr>)
        ensures
            res is Some <==> self.k_var is Some,
            res matches Some(i) ==> i matches Expr::Implies(h, g) && ({
                let k = self.k_var->0;
                let pk = subst(self.property, self.var, Expr::Var(k));
                &&& match self.induction_type {
                    InductionType::Strong => *h == Expr::ForAll {
                        var: k,
                        domain: Some(Box::new(Expr::Lt(Box::new(Expr::Var(k)), Box::new(Expr::Var(k))))),
                        body: Box::new(pk),
                    },
                    _ => *h == pk,
                }
                &&& exists|one: Expr| is_int_const(one, 1) && *g == subst(self.property, self.var, succ_of(k, one))
            }),
    {
        let hypothesis = match self.inductive_hypothesis() {
            Some(h) => h,
            None => return None,
        };
        let goal = match self.inductive_step_goal() {
            Some(g) => g,
            None => return None,
        };
        Some(Expr::Implies(Box::new(hypothesis), Box::new(goal)))
    }

    /// Mark the base case as proven.
    pub fn prove_base(&mut self, justification: String)
        ensures
            final(self).base_proven,
            final(self).base_justification == Some(justification),
            final(self).step_proven == old(self).step_proven,
            final(self).step_justification == old(self).step_justification,
            final(self).property == old(self).property,
            final(self).var == old(self).var,
            final(self).induction_type == old(self).induction_type,
            final(self).k_var == old(self).k_var,
    {
        self.base_proven = true;
        self.base_justification = Some(justification);
    }

    /// Mark the inductive step as proven.
    pub fn prove_step(&mut self, justification: String)
        ensures
            final(self).step_proven,
            final(self).step_justification == Some(justification),
            final(self).base_proven == old(self).base_proven,
            final(self).base_justification == old(self).base_justification,
            final(self).property == old(self).property,
            final(self).var == old(self).var,
            final(self).induction_type == old(self).induction_type,
            final(self).k_var == old(self).k_var,
    {
        self.step_proven = true;
        self.step_justification = Some(justification);
    }

    /// Whether both the base case and the inductive step are proven.
    pub fn is_complete(&self) -> (b: bool)
        ensures
            b == (self.base_proven && self.step_proven),
    {
        self.base_proven && self.step_proven
    }

    /// The proof justification, once the proof is complete.
    pub fn justification(&self) -> (res: Option<String>)
        requires
            self.base_proven && self.step_proven ==> self.base_justification is Some
                && self.step_justification is Some,
        ensures
            res is Some <==> (self.base_proven && self.step_proven),
            res matches Some(s) ==> s@ == induction_text(
                self.induction_type,
                self.base_justification->0@,
                self.step_justification->0@,
            ),
    {
        if !self.is_complete() {
            return None;
        }
        let name: &str = match self.induction_type {
            InductionType::Simple => {
                proof {
                    reveal_strlit("mathematical induction");
                }
                "mathematical induction"
            },
            InductionType::Strong => {
                proof {
                    reveal_strlit("strong induction");
                }
                "strong induction"
            },
            InductionType::FromOne => {
                proof {
                    reveal_strlit("mathematical induction (from n=1)");
                }
                "mathematical induction (from n=1)"
            },
        };
        let base = match &self.base_justification {
            Some(b) => b,
            None => return None,
        };
        let step = match &self.step_justification {
            Some(s) => s,
            None => return None,
        };
        let mut out = String::new();
        push_text(&mut out, "By ");
        push_text(&mut out, name);
        push_text(&mut out, ":\n  Base case: ");
        push_text(&mut out, base.as_str());
        push_text(&mut out, "\n  Inductive step: ");
        push_text(&mut out, step.as_str());
        Some(out)
    }

    /// Substitute `value` for the free occurrences of `var` in `expr`.
    pub fn substitute(&self, expr: &Expr, var: Symbol, value: &Expr) -> (r: Expr)
        ensures
            r == subst(*expr, var, *value),
        decreases expr,
    {
        match expr {
            Expr::Var(v) => if v.0 == var.0 {
                copy_expr(value)
            } else {
                copy_expr(expr)
            },
            Expr::Const(_) | Expr::Pi | Expr::E => copy_expr(expr),
            Expr::Neg(e) => Expr::Neg(Box::new(self.substitute(e, var, value))),
            Expr::Sqrt(e) => Expr::Sqrt(Box::new(self.substitute(e, var, value))),
            Expr::Sin(e) => Expr::Sin(Box::new(self.substitute(e, var, value))),
            Expr::Cos(e) => Expr::Cos(Box::new(self.substitute(e, var, value))),
            Expr::Tan(e) => Expr::Tan(Box::new(self.substitute(e, var, value))),
            Expr::Arcsin(e) => Expr::Arcsin(Box::new(self.substitute(e, var, value))),
            Expr::Arccos(e) => Expr::Arccos(Box::new(self.substitute(e, var, value))),
            Expr::Arctan(e) => Expr::Arctan(Box::new(self.substitute(e, var, value))),
            Expr::Ln(e) => Expr::Ln(Box::new(self.substitute(e, var, value))),
            Expr::Exp(e) => Expr::Exp(Box::new(self.substitute(e, var, value))),
            Expr::Abs(e) => Expr::Abs(Box::new(self.substitute(e, var, value))),
            Expr::Floor(e) => Expr::Floor(Box::new(self.substitute(e, var, value))),
            Expr::Ceiling(e) => Expr::Ceiling(Box::new(self.substitute(e, var, value))),
            Expr::Factorial(e) => Expr::Factorial(Box::new(self.substitute(e, var, value))),
            Expr::Not(e) => Expr::Not(Box::new(self.substitute(e, var, value))),
            Expr::Add(a, b) => Expr::Add(
                Box::new(self.substitute(a, var, value)),
                Box::new(self.substitute(b, var, value)),
            ),
            Expr::Sub(a, b) => Expr::Sub(
                Box::new(self.substitute(a, var, value)),
                Box::new(self.substitute(b, var, value)),
            ),
            Expr::Mul(a, b) => Expr::Mul(
                Box::new(self.substitute(a, var, value)),
                Box::new(self.substitute(b, var, value)),
            ),
            Expr::Div(a, b) => Expr::Div(
                Box::new(self.substitute(a, var, value)),
                Box::new(self.substitute(b, var, value)),
            ),
            Expr::Pow(a, b) => Expr::Pow(
                Box::new(self.substitute(a, var, value)),
                Box::new(self.substitute(b, var, value)),
            ),
            Expr::Gte(a, b) => Expr::Gte(
                Box::new(self.substitute(a, var, value)),
                Box::new(self.substitute(b, var, value)),
            ),
            Expr::Gt(a, b) => Expr::Gt(
                Box::new(self.substitute(a, var, value)),
                Box::new(self.substitute(b, var, value)),
            ),
            Expr::Lte(a, b) => Expr::Lte(
                Box::new(self.substitute(a, var, value)),
                Box::new(self.substitute(b, var, value)),
            ),
            Expr::Lt(a, b) => Expr::Lt(
                Box::new(self.substitute(a, var, value)),
                Box::new(self.substitute(b, var, value)),
            ),
            Expr::And(a, b) => Expr::And(
                Box::new(self.substitute(a, var, value)),
                Box::new(self.substitute(b, var, value)),
            ),
            Expr::Or(a, b) => Expr::Or(
                Box::new(self.substitute(a, var, value)),
                Box::new(self.substitute(b, var, value)),
            ),
            Expr::Implies(a, b) => Expr::Implies(
                Box::new(self.substitute(a, var, value)),
                Box::new(self.substitute(b, var, value)),
            ),
            Expr::Equation { lhs, rhs } => Expr::Equation {
                lhs: Box::new(self.substitute(lhs, var, value)),
                rhs: Box::new(self.substitute(rhs, var, value)),
            },
            Expr::GCD(a, b) => Expr::GCD(
                Box::new(self.substitute(a, var, value)),
                Box::new(self.substitute(b, var, value)),
            ),
            Expr::LCM(a, b) => Expr::LCM(
                Box::new(self.substitute(a, var, value)),
                Box::new(self.substitute(b, var, value)),
            ),
            Expr::Mod(a, b) => Expr::Mod(
                Box::new(self.substitute(a, var, value)),
                Box::new(self.substitute(b, var, value)),
            ),
            Expr::Binomial(a, b) => Expr::Binomial(
                Box::new(self.substitute(a, var, value)),
                Box::new(self.substitute(b, var, value)),
            ),
            Expr::ForAll { var: v, domain, body } => if v.0 != var.0 {
                Expr::ForAll {
                    var: *v,
                    domain: match domain {
                        Some(d) => Some(Box::new(self.substitute(d, var, value))),
                        None => None,
                    },
                    body: Box::new(self.substitute(body, var, value)),
                }
            } else {
                copy_expr(expr)
            },
            Expr::Exists { var: v, domain, body } => if v.0 != var.0 {
                Expr::Exists {
                    var: *v,
                    domain: match domain {
                        Some(d) => Some(Box::new(self.substitute(d, var, value))),
                        None => None,
                    },
                    body: Box::new(self.substitute(body, var, value)),
                }
            } else {
                copy_expr(expr)
            },
            Expr::Summation { var: v, from, to, body } => if v.0 != var.0 {
                Expr::Summation {
                    var: *v,
                    from: Box::new(self.substitute(from, var, value)),
                    to: Box::new(self.substitute(to, var, value)),
                    body: Box::new(self.substitute(body, var, value)),
                }
            } else {
                copy_expr(expr)
            },
            Expr::BigProduct { var: v, from, to, body } => if v.0 != var.0 {
                Expr::BigProduct {
                    var: *v,
                    from: Box::new(self.substitute(from, var, value)),
                    to: Box::new(self.substitute(to, var, value)),
                    body: Box::new(self.substitute(body, var, value)),
                }
            } else {
                copy_expr(expr)
            },
            Expr::Derivative { expr: e, var: v } => Expr::Derivative {
                expr: Box::new(self.substitute(e, var, value)),
                var: *v,
            },
            Expr::Integral { expr: e, var: v } => Expr::Integral {
                expr: Box::new(self.substitute(e, var, value)),
                var: *v,
            },
        }
    }
}

/// Whether a goal is suitable for induction: a universally quantified goal.
pub fn can_use_induction(goal: &Expr) -> (b: bool)
    ensures
        b == (*goal is ForAll),
{
    match goal {
        Expr::ForAll { .. } => true,
        _ => false,
    }
}

/// Suggested induction approach.
#[derive(Debug)]
pub struct InductionSuggestion {
    pub var: Symbol,
    pub induction_type: InductionType,
    pub property: Expr,
    pub description: String,
}

/// Whether a quantifier domain is `_ ≥ 1`, which suggests starting from one.
pub open spec fn domain_from_one(domain: Option<Box<Expr>>) -> bool {
    domain matches Some(d) && *d matches Expr::Gte(_, rhs) && is_int_const(*rhs, 1)
}

/// The description text of an induction suggestion.
pub open spec fn suggestion_text(t: InductionType, var_text: Seq<char>, from_one: bool) -> Seq<char> {
    "Use "@ + (match t {
        InductionType::Simple => "induction"@,
        InductionType::Strong => "strong induction"@,
        InductionType::FromOne => "induction from n=1"@,
    }) + " on "@ + var_text + ": Prove P("@ + (if from_one {
        "1"@
    } else {
        "0"@
    }) + "), then P(k) → P(k+1)"@
}

/// Suggest an induction strategy for a universally quantified goal: from one
/// when the domain is `_ ≥ 1`, simple induction otherwise.
pub fn suggest_induction(goal: &Expr) -> (res: Option<InductionSuggestion>)
    ensures
        res is Some <==> *goal is ForAll,
        res matches Some(s) ==> *goal matches Expr::ForAll { var, domain, body } && ({
            &&& s.var == var
            &&& s.property == *body
            &&& s.induction_type == (if domain_from_one(domain) {
                InductionType::FromOne
            } else {
                InductionType::Simple
            })
            &&& s.description@ == suggestion_text(s.induction_type, crate::text::symbol_text(var), domain_from_one(domain))
        }),
{
    match goal {
        Expr::ForAll { var, domain, body } => {
            let from_one = match domain {
                Some(d) => match &**d {
                    Expr::Gte(_, rhs) => match &**rhs {
                        Expr::Const(r) => {
                            let one = Rational::from_integer(1);
                            proof {
                                if r.pair() == (1int, 1int) {
                                    crate::rational::lemma_rat_ext(*r, one);
                                }
                            }
                            crate::expr::rat_eq(r, &one)
                        },
                        _ => false,
                    },
                    _ => false,
                },
                None => false,
            };
            let induction_type = if from_one { InductionType::FromOne } else { InductionType::Simple };
            let mut description = String::new();
            push_text(&mut description, "Use ");
            let scheme: &str = if from_one {
                proof {
                    reveal_strlit("induction from n=1");
                }
                "induction from n=1"
            } else {
                proof {
                    reveal_strlit("induction");
                }
                "induction"
            };
            push_text(&mut description, scheme);
            push_text(&mut description, " on ");
            let vt = crate::text::render_symbol(*var);
            push_text(&mut description, vt.as_str());
            push_text(&mut description, ": Prove P(");
            let base: &str = if from_one {
                proof {
                    reveal_strlit("1");
                }
                "1"
            } else {
                proof {
                    reveal_strlit("0");
                }
                "0"
            };
            push_text(&mut description, base);
            push_text(&mut description, "), then P(k) → P(k+1)");
            Some(InductionSuggestion { var: *var, induction_type, property: copy_expr(body), description })
        },
        _ => None,
    }
}

} // verus!
