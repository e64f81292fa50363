//! Case analysis for mathematical proofs.
//!
//! A goal is proven by splitting it into cases and proving each: `x > 0`,
//! `x = 0`, `x < 0` for a real `x`, or `n` even / `n` odd for an integer `n`.
//! The analysis is complete exactly when the split is exhaustive and every
//! case is proven.

use vstd::prelude::*;
use crate::expr::{copy_expr, is_int_const, Expr, Symbol, SymbolTable};
use crate::text::{push_text, render_symbol, symbol_text};

verus! {

/// A case in case analysis.
#[derive(Debug)]
pub struct Case {
    /// Human-readable name of the case.
    pub name: String,
    /// The condition that defines this case.
    pub condition: Expr,
    /// The goal to prove in this case (the original goal under the condition).
    pub goal: Expr,
    /// Whether this case has been proven.
    pub proven: bool,
    /// Proof justification if proven.
    pub justification: Option<String>,
}

/// Case analysis state.
#[derive(Debug)]
pub struct CaseAnalysis {
    /// The original goal being proven.
    pub original_goal: Expr,
    /// The variable being case-split on.
    pub split_var: Option<Symbol>,
    /// The cases to prove.
    pub cases: Vec<Case>,
    /// Whether the case split is exhaustive.
    pub is_exhaustive: bool,
}

/// Whether every case of a list is proven.
pub open spec fn all_cases_proven(cases: Seq<Case>) -> bool {
    forall|i: int| 0 <= i < cases.len() ==> (#[trigger] cases[i]).proven
}

/// A fresh unproven case.
pub open spec fn fresh_case(name: Seq<char>, condition: Expr, goal: Expr, c: Case) -> bool {
    c.name@ == name && c.condition == condition && c.goal == goal && !c.proven && c.justification is None
}

/// The zero constant is an integer constant 0.
pub open spec fn zero_like(z: Expr) -> bool {
    is_int_const(z, 0)
}

/// One line of a case-analysis justification.
pub open spec fn case_line(c: Case) -> Seq<char> {
    "  - "@ + c.name@ + ": "@ + (match c.justification {
        Some(j) => j@,
        None => "proven"@,
    })
}

/// The lines of all cases, joined by newlines.
pub open spec fn case_lines(cases: Seq<Case>) -> Seq<char>
    decreases cases.len(),
{
    if cases.len() == 0 {
        Seq::empty()
    } else if cases.len() == 1 {
        case_line(cases[0])
    } else {
        case_lines(cases.drop_last()) + "\n"@ + case_line(cases.last())
    }
}

impl CaseAnalysis {
    /// A new case analysis for a goal, with no cases yet.
    pub fn new(goal: Expr) -> (a: Self)
        ensures
            a.original_goal == goal,
            a.split_var is None,
            a.cases@.len() == 0,
            !a.is_exhaustive,
    {
        CaseAnalysis { original_goal: goal, split_var: None, cases: Vec::new(), is_exhaustive: false }
    }

    /// Split into positive, zero and negative cases for a variable
    /// (`x > 0`, `x = 0`, `x < 0`), which is exhaustive for reals.
    pub fn split_by_sign(self, var: Symbol) -> (a: Self)
        ensures
            a.original_goal == self.original_goal,
            a.split_var == Some(var),
            a.is_exhaustive,
            a.cases@.len() == self.cases@.len() + 3,
            forall|i: int| 0 <= i < self.cases@.len() ==> a.cases@[i] == self.cases@[i],
            ({
                let n = self.cases@.len() as int;
                let x = Expr::Var(var);
                let g = self.original_goal;
                exists|z: Expr| {
                    &&& zero_like(z)
                    &&& fresh_case(symbol_text(var) + " > 0 (positive)"@, Expr::Gt(Box::new(x), Box::new(z)), g, a.cases@[n])
                    &&& fresh_case(symbol_text(var) + " = 0 (zero)"@, Expr::Equation { lhs: Box::new(x), rhs: Box::new(z) }, g, a.cases@[n + 1])
                    &&& fresh_case(symbol_text(var) + " < 0 (negative)"@, Expr::Lt(Box::new(x), Box::new(z)), g, a.cases@[n + 2])
                }
            }),
    {
        let mut this = self;
        this.split_var = Some(var);
        let zero = Expr::integer(0);
        let ghost z = zero;

        let mut name1 = render_symbol(var);
        push_text(&mut name1, " > 0 (positive)");
        this.cases.push(Case {
            name: name1,
            condition: Expr::Gt(Box::new(Expr::Var(var)), Box::new(copy_expr(&zero))),
            goal: copy_expr(&this.original_goal),
            proven: false,
            justification: None,
        });

        let mut name2 = render_symbol(var);
        push_text(&mut name2, " = 0 (zero)");
        this.cases.push(Case {
            name: name2,
            condition: Expr::Equation { lhs: Box::new(Expr::Var(var)), rhs: Box::new(copy_expr(&zero)) },
            goal: copy_expr(&this.original_goal),
            proven: false,
            justification: None,
        });

        let mut name3 = render_symbol(var);
        push_text(&mut name3, " < 0 (negative)");
        this.cases.push(Case {
            name: name3,
            condition: Expr::Lt(Box::new(Expr::Var(var)), Box::new(zero)),
            goal: copy_expr(&this.original_goal),
            proven: false,
            justification: None,
        });

        this.is_exhaustive = true;
        assert(zero_like(z));
        this
    }

    /// Split into even (`∃k. n = 2k`) and odd (`∃k. n = 2k + 1`) cases for an
    /// integer variable, which is exhaustive for integers; `k` is the symbol
    /// `_k` of the table.
    pub fn split_by_parity(self, var: Symbol, symbols: &mut SymbolTable) -> (a: Self)
        requires
            old(symbols).spec_names().len() < u32::MAX,
        ensures
            a.original_goal == self.original_goal,
            a.split_var == Some(var),
            a.is_exhaustive,
            a.cases@.len() == self.cases@.len() + 2,
            forall|i: int| 0 <= i < self.cases@.len() ==> a.cases@[i] == self.cases@[i],
            ({
                let n = self.cases@.len() as int;
                let g = self.original_goal;
                exists|k: Symbol, one: Expr, two: Expr|
                    #![trigger is_int_const(two, 2), is_int_const(one, 1), final(symbols).spec_names()[k.0 as int]]
                {
                    let two_k = Expr::Mul(Box::new(two), Box::new(Expr::Var(k)));
                    &&& final(symbols).spec_names()[k.0 as int] == seq!['_', 'k']
                    &&& is_int_const(two, 2) && is_int_const(one, 1)
                    &&& fresh_case(symbol_text(var) + " is even"@, Expr::Exists {
                        var: k,
                        domain: None,
                        body: Box::new(Expr::Equation { lhs: Box::new(Expr::Var(var)), rhs: Box::new(two_k) }),
                    }, g, a.cases@[n])
                    &&& fresh_case(symbol_text(var) + " is odd"@, Expr::Exists {
                        var: k,
                        domain: None,
                        body: Box::new(Expr::Equation {
                            lhs: Box::new(Expr::Var(var)),
                            rhs: Box::new(Expr::Add(Box::new(two_k), Box::new(one))),
                        }),
                    }, g, a.cases@[n + 1])
                }
            }),
    {
        let mut this = self;
        this.split_var = Some(var);
        proof {
            reveal_strlit("_k");
        }
        let k = symbols.intern("_k");
        let two = Expr::integer(2);
        let one = Expr::integer(1);
        let ghost two_s = two;
        let ghost one_s = one;

        let mut name1 = render_symbol(var);
        push_text(&mut name1, " is even");
        this.cases.push(Case {
            name: name1,
            condition: Expr::Exists {
                var: k,
                domain: None,
                body: Box::new(Expr::Equation {
                    lhs: Box::new(Expr::Var(var)),
                    rhs: Box::new(Expr::Mul(Box::new(copy_expr(&two)), Box::new(Expr::Var(k)))),
                }),
            },
            goal: copy_expr(&this.original_goal),
            proven: false,
            justification: None,
        });

        let mut name2 = render_symbol(var);
        push_text(&mut name2, " is odd");
        this.cases.push(Case {
            name: name2,
            condition: Expr::Exists {
                var: k,
                domain: None,
                body: Box::new(Expr::Equation {
                    lhs: Box::new(Expr::Var(var)),
                    rhs: Box::new(Expr::Add(Box::new(Expr::Mul(Box::new(two), Box::new(Expr::Var(k)))), Box::new(one))),
                }),
            },
            goal: copy_expr(&this.original_goal),
            proven: false,
            justification: None,
        });

        this.is_exhaustive = true;
        assert(is_int_const(two_s, 2) && is_int_const(one_s, 1));
        this
    }

    /// Add custom cases with the given names and conditions.  Their
    /// exhaustiveness is up to the caller, so the analysis is marked
    /// non-exhaustive.
    pub fn split_custom(self, cases: Vec<(String, Expr)>) -> (a: Self)
        ensures
            a.original_goal == self.original_goal,
            a.split_var == self.split_var,
            !a.is_exhaustive,
            a.cases@.len() == self.cases@.len() + cases@.len(),
            forall|i: int| 0 <= i < self.cases@.len() ==> a.cases@[i] == self.cases@[i],
            forall|i: int| 0 <= i < cases@.len() ==> fresh_case(
                (#[trigger] cases@[i]).0@,
                cases@[i].1,
                self.original_goal,
                a.cases@[self.cases@.len() + i],
            ),
    {
        let mut this = self;
        let ghost old_cases = this.cases@;
        let ghost given = cases@;
        let mut rest = cases;
        assert(given.len() == rest.len());
        let mut i: usize = 0;
        while rest.len() > 0
            invariant
                given.len() <= usize::MAX,
                i + rest@.len() == given.len(),
                rest@ =~= given.skip(i as int),
                this.cases@.len() == old_cases.len() + i,
                this.original_goal == self.original_goal,
                this.split_var == self.split_var,
                forall|j: int| 0 <= j < old_cases.len() ==> this.cases@[j] == old_cases[j],
                forall|j: int| 0 <= j < i ==> fresh_case(
                    (#[trigger] given[j]).0@,
                    given[j].1,
                    self.original_goal,
                    this.cases@[old_cases.len() + j],
                ),
            decreases rest.len(),
        {
            let (name, condition) = rest.remove(0);
            assert(given[i as int] == (name, condition));
            this.cases.push(Case {
                name,
                condition,
                goal: copy_expr(&this.original_goal),
                proven: false,
                justification: None,
            });
            i = i + 1;
        }
        this.is_exhaustive = false;
        this
    }

    /// Record whether the split is exhaustive.
    pub fn set_exhaustive(self, exhaustive: bool) -> (a: Self)
        ensures
            a.is_exhaustive == exhaustive,
            a.original_goal == self.original_goal,
            a.split_var == self.split_var,
            a.cases@ == self.cases@,
    {
        let mut this = self;
        this.is_exhaustive = exhaustive;
        this
    }

    /// Mark a case as proven; `false`, with nothing changed, when there is no
    /// case at that index.
    pub fn prove_case(&mut self, case_index: usize, justification: String) -> (ok: bool)
        ensures
            ok == (case_index < old(self).cases@.len()),
            final(self).original_goal == old(self).original_goal,
            final(self).split_var == old(self).split_var,
            final(self).is_exhaustive == old(self).is_exhaustive,
            final(self).cases@.len() == old(self).cases@.len(),
            forall|i: int| 0 <= i < old(self).cases@.len() && i != case_index ==> final(self).cases@[i] == old(self).cases@[i],
            ok ==> ({
                let c = final(self).cases@[case_index as int];
                let o = old(self).cases@[case_index as int];
                &&& c.proven
                &&& c.justification == Some(justification)
                &&& c.name == o.name && c.condition == o.condition && c.goal == o.goal
            }),
            !ok ==> final(self).cases@ == old(self).cases@,
    {
        if case_index < self.cases.len() {
            let mut cases = Vec::new();
            std::mem::swap(&mut cases, &mut self.cases);
            let old_case = cases.remove(case_index);
            let updated = Case {
                name: old_case.name,
                condition: old_case.condition,
                goal: old_case.goal,
                proven: true,
                justification: Some(justification),
            };
            cases.insert(case_index, updated);
            self.cases = cases;
            true
        } else {
            false
        }
    }

    /// Whether all cases are proven.
    pub fn all_proven(&self) -> (b: bool)
        ensures
            b == all_cases_proven(self.cases@),
    {
        let mut i: usize = 0;
        while i < self.cases.len()
            invariant
                i <= self.cases.len(),
                forall|j: int| 0 <= j < i ==> (#[trigger] self.cases@[j]).proven,
            decreases self.cases.len() - i,
        {
            if !self.cases[i].proven {
                return false;
            }
            i = i + 1;
        }
        true
    }

    /// The unproven cases with their indices, in order.
    pub fn unproven_cases(&self) -> (res: Vec<(usize, &Case)>)
        ensures
            forall|j: int| 0 <= j < res@.len() ==> {
                let (i, c) = #[trigger] res@[j];
                i < self.cases@.len() && *c == self.cases@[i as int] && !c.proven
            },
            forall|i: int, j: int| 0 <= i < j < res@.len() ==> res@[i].0 < res@[j].0,
            forall|i: int| 0 <= i < self.cases@.len() && !(#[trigger] self.cases@[i]).proven ==> exists|j: int|
                0 <= j < res@.len() && res@[j].0 == i,
    {
        let mut res: Vec<(usize, &Case)> = Vec::new();
        let mut i: usize = 0;
        while i < self.cases.len()
            invariant
                i <= self.cases.len(),
                forall|j: int| 0 <= j < res@.len() ==> {
                    let (k, c) = #[trigger] res@[j];
                    k < i && *c == self.cases@[k as int] && !c.proven
                },
                forall|a: int, b: int| 0 <= a < b < res@.len() ==> res@[a].0 < res@[b].0,
                forall|k: int| 0 <= k < i && !(#[trigger] self.cases@[k]).proven ==> exists|j: int|
                    0 <= j < res@.len() && res@[j].0 == k,
            decreases self.cases.len() - i,
        {
            let ghost before = res@;
            if !self.cases[i].proven {
                res.push((i, &self.cases[i]));
                assert(res@[res@.len() - 1].0 == i);
            }
            proof {
                assert forall|k: int| 0 <= k < i + 1 && !(#[trigger] self.cases@[k]).proven implies exists|j: int|
                    0 <= j < res@.len() && res@[j].0 == k by {
                    if k < i {
                        let j = choose|j: int| 0 <= j < before.len() && before[j].0 == k;
                        assert(res@[j] == before[j]);
                    } else {
                        assert(res@[res@.len() - 1].0 == k);
                    }
                }
            }
            i = i + 1;
        }
        res
    }

    /// Whether the analysis is complete: exhaustive and all cases proven.
    pub fn is_complete(&self) -> (b: bool)
        ensures
            b == (self.is_exhaustive && all_cases_proven(self.cases@)),
    {
        self.is_exhaustive && self.all_proven()
    }

    /// The proof justification, once the analysis is complete.
    pub fn justification(&self) -> (res: Option<String>)
        ensures
            res is Some <==> (self.is_exhaustive && all_cases_proven(self.cases@)),
            res matches Some(s) ==> s@ == "By exhaustive case analysis:\n"@ + case_lines(self.cases@),
    {
        if !self.is_complete() {
            return None;
        }
        let mut out = String::new();
        push_text(&mut out, "By exhaustive case analysis:\n");
        let ghost head = out@;
        let mut i: usize = 0;
        while i < self.cases.len()
            invariant
                i <= self.cases.len(),
                out@ == head + case_lines(self.cases@.take(i as int)),
            decreases self.cases.len() - i,
        {
            let c = &self.cases[i];
            if i > 0 {
                push_text(&mut out, "\n");
            }
            push_text(&mut out, "  - ");
            push_text(&mut out, c.name.as_str());
            push_text(&mut out, ": ");
            match &c.justification {
                Some(j) => push_text(&mut out, j.as_str()),
                None => push_text(&mut out, "proven"),
            }
            proof {
                let t = self.cases@.take(i + 1);
                assert(t.drop_last() =~= self.cases@.take(i as int));
                assert(t.last() == *c);
                if i == 0 {
                    assert(t.len() == 1 && t[0] == *c);
                }
            }
            i = i + 1;
        }
        assert(self.cases@.take(self.cases.len() as int) =~= self.cases@);
        Some(out)
    }
}

/// Type of case split.
#[derive(Debug, Clone, Copy, PartialEq, Eq, Structural)]
pub enum SplitType {
    /// `x > 0`, `x = 0`, `x < 0`.
    Sign,
    /// `n = 2k`, `n = 2k + 1`.
    Parity,
    /// Custom user-defined split.
    Custom,
}

/// Suggested case split.
#[derive(Debug)]
pub struct CaseSplitSuggestion {
    pub variable: Symbol,
    pub split_type: SplitType,
    pub description: String,
}

/// The free variables of `e` (and the variable of a derivative or integral)
/// in the order the scan meets them, appended to `acc` without repeats.  A
/// binder hides its own variable inside its body only: the body's other
/// variables are appended, and a bound occurrence never is.
pub open spec fn collect_vars(e: Expr, acc: Seq<Symbol>) -> Seq<Symbol>
    decreases e,
{
    match e {
        Expr::Var(v) => add_var(acc, v),
        Expr::Const(_) | Expr::Pi | Expr::E => acc,
        Expr::Neg(x) | Expr::Sqrt(x) | Expr::Sin(x) | Expr::Cos(x) | Expr::Tan(x) | Expr::Arcsin(x)
        | Expr::Arccos(x) | Expr::Arctan(x) | Expr::Ln(x) | Expr::Exp(x) | Expr::Abs(x) | Expr::Floor(x)
        | Expr::Ceiling(x) | Expr::Factorial(x) | Expr::Not(x) => collect_vars(*x, acc),
        Expr::Add(a, b) | Expr::Sub(a, b) | Expr::Mul(a, b) | Expr::Div(a, b) | Expr::Pow(a, b)
        | Expr::GCD(a, b) | Expr::LCM(a, b) | Expr::Mod(a, b) | Expr::Binomial(a, b) | Expr::Gte(a, b)
        | Expr::Gt(a, b) | Expr::Lte(a, b) | Expr::Lt(a, b) | Expr::And(a, b) | Expr::Or(a, b)
        | Expr::Implies(a, b) | Expr::Equation { lhs: a, rhs: b } => collect_vars(*b, collect_vars(*a, acc)),
        Expr::Derivative { expr, var } | Expr::Integral { expr, var } => add_var(collect_vars(*expr, acc), var),
        Expr::ForAll { var, domain, body } | Expr::Exists { var, domain, body } => {
            let after_domain = match domain {
                Some(d) => collect_vars(*d, acc),
                None => acc,
            };
            add_all(after_domain, remove_var(collect_vars(*body, Seq::empty()), var))
        },
        Expr::Summation { var, from, to, body } | Expr::BigProduct { var, from, to, body } => add_all(
            collect_vars(*to, collect_vars(*from, acc)),
            remove_var(collect_vars(*body, Seq::empty()), var),
        ),
    }
}

/// Append each of `vs` in order, skipping those already present.
pub open spec fn add_all(acc: Seq<Symbol>, vs: Seq<Symbol>) -> Seq<Symbol>
    decreases vs.len(),
{
    if vs.len() == 0 {
        acc
    } else {
        add_var(add_all(acc, vs.drop_last()), vs.last())
    }
}

/// Append `v` unless it is already present.
pub open spec fn add_var(acc: Seq<Symbol>, v: Symbol) -> Seq<Symbol> {
    if acc.contains(v) {
        acc
    } else {
        acc.push(v)
    }
}

/// Remove every occurrence of `v`, keeping the order of the rest.
pub open spec fn remove_var(acc: Seq<Symbol>, v: Symbol) -> Seq<Symbol>
    decreases acc.len(),
{
    if acc.len() == 0 {
        acc
    } else {
        let rest = remove_var(acc.drop_last(), v);
        if acc.last() == v {
            rest
        } else {
            rest.push(acc.last())
        }
    }
}

/// Append `v` to `vars` unless it is already there.
fn push_unique(vars: &mut Vec<Symbol>, v: Symbol)
    ensures
        final(vars)@ == add_var(old(vars)@, v),
{
    let mut i: usize = 0;
    while i < vars.len()
        invariant
            i <= vars.len(),
            forall|j: int| 0 <= j < i ==> vars@[j] != v,
        decreases vars.len() - i,
    {
        if vars[i].0 == v.0 {
            assert(vars@.contains(v));
            return;
        }
        i = i + 1;
    }
    assert(!vars@.contains(v));
    vars.push(v);
}

/// Remove every occurrence of `v` from `vars`, keeping the order.
fn retain_other(vars: &mut Vec<Symbol>, v: Symbol)
    ensures
        final(vars)@ == remove_var(old(vars)@, v),
{
    let mut kept: Vec<Symbol> = Vec::new();
    let mut i: usize = 0;
    while i < vars.len()
        invariant
            i <= vars.len(),
            kept@ == remove_var(vars@.take(i as int), v),
        decreases vars.len() - i,
    {
        proof {
            assert(vars@.take(i + 1).drop_last() =~= vars@.take(i as int));
        }
        if vars[i].0 != v.0 {
            kept.push(vars[i]);
        }
        i = i + 1;
    }
    assert(vars@.take(vars.len() as int) =~= vars@);
    *vars = kept;
}

/// Append the variables of `expr` to `vars` as [`collect_vars`] describes.
fn collect_vars_recursive(expr: &Expr, vars: &mut Vec<Symbol>)
    ensures
        final(vars)@ == collect_vars(*expr, old(vars)@),
    decreases expr, 0nat,
{
    match expr {
        Expr::Var(v) => {
            push_unique(vars, *v);
        },
        Expr::Const(_) | Expr::Pi | Expr::E => {},
        Expr::Neg(e) | Expr::Sqrt(e) | Expr::Sin(e) | Expr::Cos(e) | Expr::Tan(e) | Expr::Arcsin(e)
        | Expr::Arccos(e) | Expr::Arctan(e) | Expr::Ln(e) | Expr::Exp(e) | Expr::Abs(e) | Expr::Floor(e)
        | Expr::Ceiling(e) | Expr::Factorial(e) | Expr::Not(e) => {
            collect_vars_recursive(e, vars);
        },
        Expr::Add(a, b) | Expr::Sub(a, b) | Expr::Mul(a, b) | Expr::Div(a, b) | Expr::Pow(a, b)
        | Expr::GCD(a, b) | Expr::LCM(a, b) | Expr::Mod(a, b) | Expr::Binomial(a, b) | Expr::Gte(a, b)
        | Expr::Gt(a, b) | Expr::Lte(a, b) | Expr::Lt(a, b) | Expr::And(a, b) | Expr::Or(a, b)
        | Expr::Implies(a, b) => {
            collect_vars_recursive(a, vars);
            collect_vars_recursive(b, vars);
        },
        Expr::Equation { lhs, rhs } => {
            collect_vars_recursive(lhs, vars);
            collect_vars_recursive(rhs, vars);
        },
        Expr::Derivative { expr, var } | Expr::Integral { expr, var } => {
            collect_vars_recursive(expr, vars);
            push_unique(vars, *var);
        },
        Expr::ForAll { var, domain, body } | Expr::Exists { var, domain, body } => {
            match domain {
                Some(d) => {
                    collect_vars_recursive(d, vars);
                },
                None => {},
            }
            add_body_vars(body, *var, vars);
        },
        Expr::Summation { var, from, to, body } | Expr::BigProduct { var, from, to, body } => {
            collect_vars_recursive(from, vars);
            collect_vars_recursive(to, vars);
            add_body_vars(body, *var, vars);
        },
    }
}

/// Append the variables of a binder's body other than the bound one.
fn add_body_vars(body: &Expr, bound: Symbol, vars: &mut Vec<Symbol>)
    ensures
        final(vars)@ == add_all(old(vars)@, remove_var(collect_vars(*body, Seq::empty()), bound)),
    decreases body, 1nat,
{
    let mut inner: Vec<Symbol> = Vec::new();
    collect_vars_recursive(body, &mut inner);
    retain_other(&mut inner, bound);
    let ghost start = vars@;
    let mut i: usize = 0;
    while i < inner.len()
        invariant
            i <= inner.len(),
            vars@ == add_all(start, inner@.take(i as int)),
        decreases inner.len() - i,
    {
        proof {
            assert(inner@.take(i + 1).drop_last() =~= inner@.take(i as int));
        }
        push_unique(vars, inner[i]);
        i = i + 1;
    }
    assert(inner@.take(inner.len() as int) =~= inner@);
}

/// All variables of an expression, in scan order.
fn collect_variables(expr: &Expr) -> (vars: Vec<Symbol>)
    ensures
        vars@ == collect_vars(*expr, Seq::empty()),
{
    let mut vars = Vec::new();
    collect_vars_recursive(expr, &mut vars);
    vars
}

/// Common case splits for backward reasoning: for every variable of the
/// goal, in scan order, a sign split followed by a parity split.
pub fn suggest_case_splits(goal: &Expr) -> (res: Vec<CaseSplitSuggestion>)
    ensures
        ({
            let vars = collect_vars(*goal, Seq::empty());
            &&& res@.len() == 2 * vars.len()
            &&& forall|i: int| 0 <= i < vars.len() ==> {
                &&& (#[trigger] res@[2 * i]).variable == vars[i]
                &&& res@[2 * i].split_type == SplitType::Sign
                &&& res@[2 * i].description@ == "Split "@ + symbol_text(vars[i]) + " into positive, zero, negative"@
                &&& res@[2 * i + 1].variable == vars[i]
                &&& res@[2 * i + 1].split_type == SplitType::Parity
                &&& res@[2 * i + 1].description@ == "Split "@ + symbol_text(vars[i]) + " into even and odd"@
            }
        }),
{
    let vars = collect_variables(goal);
    let mut res: Vec<CaseSplitSuggestion> = Vec::new();
    let mut i: usize = 0;
    while i < vars.len()
        invariant
            i <= vars.len(),
            vars@ == collect_vars(*goal, Seq::empty()),
            res@.len() == 2 * i,
            forall|j: int| 0 <= j < i ==> {
                &&& (#[trigger] res@[2 * j]).variable == vars@[j]
                &&& res@[2 * j].split_type == SplitType::Sign
                &&& res@[2 * j].description@ == "Split "@ + symbol_text(vars@[j]) + " into positive, zero, negative"@
                &&& res@[2 * j + 1].variable == vars@[j]
                &&& res@[2 * j + 1].split_type == SplitType::Parity
                &&& res@[2 * j + 1].description@ == "Split "@ + symbol_text(vars@[j]) + " into even and odd"@
            },
        decreases vars.len() - i,
    {
        let var = vars[i];
        let mut d1 = String::new();
        push_text(&mut d1, "Split ");
        let t1 = render_symbol(var);
        push_text(&mut d1, t1.as_str());
        push_text(&mut d1, " into positive, zero, negative");
        res.push(CaseSplitSuggestion { variable: var, split_type: SplitType::Sign, description: d1 });
        let mut d2 = String::new();
        push_text(&mut d2, "Split ");
        let t2 = render_symbol(var);
        push_text(&mut d2, t2.as_str());
        push_text(&mut d2, " into even and odd");
        res.push(CaseSplitSuggestion { variable: var, split_type: SplitType::Parity, description: d2 });
        proof {
            assert(res@[2 * i as int].variable == var);
            assert(res@[2 * i + 1].variable == var);
        }
        i = i + 1;
    }
    res
}

} // verus!
