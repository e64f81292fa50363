//! Symbolic expressions the rules work on.
//!
//! [`Expr`] is a tree of constants, variables, arithmetic, elementary
//! functions, relations, quantifiers and calculus operators.  Its spec
//! equality (`==` in contracts) is structural equality, and
//! [`expr_eq`] decides it at run time.

use vstd::prelude::*;
use crate::rational::Rational;

verus! {

/// An interned variable name.
#[derive(Clone, Copy, Debug, PartialEq, Eq, Hash, PartialOrd, Ord, Structural)]
pub struct Symbol(pub u32);

/// Interning table from names to [`Symbol`]s.
#[derive(Debug)]
pub struct SymbolTable {
    names: Vec<String>,
}

impl SymbolTable {
    /// The names interned so far; symbol `i` is name `i`.
    pub closed spec fn spec_names(&self) -> Seq<Seq<char>> {
        self.names@.map_values(|s: String| s@)
    }

    /// An empty table.
    pub fn new() -> (t: Self)
        ensures
            t.spec_names().len() == 0,
    {
        SymbolTable { names: Vec::new() }
    }

    /// The symbol of `name`: the existing one if the name was interned before,
    /// a fresh one (the next index) otherwise.
    pub fn intern(&mut self, name: &str) -> (s: Symbol)
        requires
            old(self).spec_names().len() < u32::MAX,
        ensures
            s.0 < final(self).spec_names().len(),
            final(self).spec_names()[s.0 as int] == name@,
            old(self).spec_names().contains(name@) ==> final(self).spec_names() == old(self).spec_names(),
            !old(self).spec_names().contains(name@) ==> final(self).spec_names() == old(self).spec_names().push(name@)
                && s.0 == old(self).spec_names().len(),
    {
        let owned = name.to_owned();
        let mut i: usize = 0;
        while i < self.names.len()
            invariant
                i <= self.names.len(),
                owned@ == name@,
                self.names@ == old(self).names@,
                self.names.len() < u32::MAX,
                forall|j: int| 0 <= j < i ==> (#[trigger] self.names@[j])@ != name@,
            decreases self.names.len() - i,
        {
            if self.names[i] == owned {
                assert(self.spec_names()[i as int] == name@);
                return Symbol(i as u32);
            }
            i = i + 1;
        }
        proof {
            if self.spec_names().contains(name@) {
                let j = choose|j: int| 0 <= j < self.spec_names().len() && self.spec_names()[j] == name@;
                assert(self.names@[j]@ == name@);
            }
        }
        let index = self.names.len() as u32;
        self.names.push(owned);
        assert(self.spec_names() =~= old(self).spec_names().push(name@));
        Symbol(index)
    }
}

/// A symbolic expression.
#[derive(Debug, PartialEq)]
pub enum Expr {
    Const(Rational),
    Var(Symbol),
    Pi,
    E,
    Neg(Box<Expr>),
    Sqrt(Box<Expr>),
    Sin(Box<Expr>),
    Cos(Box<Expr>),
    Tan(Box<Expr>),
    Arcsin(Box<Expr>),
    Arccos(Box<Expr>),
    Arctan(Box<Expr>),
    Ln(Box<Expr>),
    Exp(Box<Expr>),
    Abs(Box<Expr>),
    Floor(Box<Expr>),
    Ceiling(Box<Expr>),
    Factorial(Box<Expr>),
    Not(Box<Expr>),
    Add(Box<Expr>, Box<Expr>),
    Sub(Box<Expr>, Box<Expr>),
    Mul(Box<Expr>, Box<Expr>),
    Div(Box<Expr>, Box<Expr>),
    Pow(Box<Expr>, Box<Expr>),
    GCD(Box<Expr>, Box<Expr>),
    LCM(Box<Expr>, Box<Expr>),
    Mod(Box<Expr>, Box<Expr>),
    Binomial(Box<Expr>, Box<Expr>),
    Gte(Box<Expr>, Box<Expr>),
    Gt(Box<Expr>, Box<Expr>),
    Lte(Box<Expr>, Box<Expr>),
    Lt(Box<Expr>, Box<Expr>),
    And(Box<Expr>, Box<Expr>),
    Or(Box<Expr>, Box<Expr>),
    Implies(Box<Expr>, Box<Expr>),
    Equation { lhs: Box<Expr>, rhs: Box<Expr> },
    Derivative { expr: Box<Expr>, var: Symbol },
    Integral { expr: Box<Expr>, var: Symbol },
    ForAll { var: Symbol, domain: Option<Box<Expr>>, body: Box<Expr> },
    Exists { var: Symbol, domain: Option<Box<Expr>>, body: Box<Expr> },
    Summation { var: Symbol, from: Box<Expr>, to: Box<Expr>, body: Box<Expr> },
    BigProduct { var: Symbol, from: Box<Expr>, to: Box<Expr>, body: Box<Expr> },
}

impl Expr {
    /// The integer constant `n`.
    pub fn integer(n: i64) -> (e: Expr)
        requires
            n > i64::MIN,
        ensures
            e matches Expr::Const(c) && c.pair() == (n as int, 1int),
    {
        Expr::Const(Rational::from_integer(n))
    }
}

/// The integer constant `n` as a spec value: a constant whose rational is `n/1`.
pub open spec fn is_int_const(e: Expr, n: int) -> bool {
    e matches Expr::Const(c) && c.pair() == (n, 1int)
}

/// Structural equality of two optional boxed expressions.
fn opt_eq(a: &Option<Box<Expr>>, b: &Option<Box<Expr>>) -> (r: bool)
    ensures
        r == (a == b),
    decreases a, b,
{
    match (a, b) {
        (None, None) => true,
        (Some(x), Some(y)) => expr_eq(x, y),
        _ => false,
    }
}

/// Structural equality of two expressions.
pub fn expr_eq(a: &Expr, b: &Expr) -> (r: bool)
    ensures
        r == (*a == *b),
    decreases a, b,
{
    match (a, b) {
        (Expr::Const(x), Expr::Const(y)) => rat_eq(x, y),
        (Expr::Var(x), Expr::Var(y)) => x.0 == y.0,
        (Expr::Pi, Expr::Pi) => true,
        (Expr::E, Expr::E) => true,
        (Expr::Neg(x), Expr::Neg(y)) => expr_eq(x, y),
        (Expr::Sqrt(x), Expr::Sqrt(y)) => expr_eq(x, y),
        (Expr::Sin(x), Expr::Sin(y)) => expr_eq(x, y),
        (Expr::Cos(x), Expr::Cos(y)) => expr_eq(x, y),
        (Expr::Tan(x), Expr::Tan(y)) => expr_eq(x, y),
        (Expr::Arcsin(x), Expr::Arcsin(y)) => expr_eq(x, y),
        (Expr::Arccos(x), Expr::Arccos(y)) => expr_eq(x, y),
        (Expr::Arctan(x), Expr::Arctan(y)) => expr_eq(x, y),
        (Expr::Ln(x), Expr::Ln(y)) => expr_eq(x, y),
        (Expr::Exp(x), Expr::Exp(y)) => expr_eq(x, y),
        (Expr::Abs(x), Expr::Abs(y)) => expr_eq(x, y),
        (Expr::Floor(x), Expr::Floor(y)) => expr_eq(x, y),
        (Expr::Ceiling(x), Expr::Ceiling(y)) => expr_eq(x, y),
        (Expr::Factorial(x), Expr::Factorial(y)) => expr_eq(x, y),
        (Expr::Not(x), Expr::Not(y)) => expr_eq(x, y),
        (Expr::Add(a1, a2), Expr::Add(b1, b2)) => expr_eq(a1, b1) && expr_eq(a2, b2),
        (Expr::Sub(a1, a2), Expr::Sub(b1, b2)) => expr_eq(a1, b1) && expr_eq(a2, b2),
        (Expr::Mul(a1, a2), Expr::Mul(b1, b2)) => expr_eq(a1, b1) && expr_eq(a2, b2),
        (Expr::Div(a1, a2), Expr::Div(b1, b2)) => expr_eq(a1, b1) && expr_eq(a2, b2),
        (Expr::Pow(a1, a2), Expr::Pow(b1, b2)) => expr_eq(a1, b1) && expr_eq(a2, b2),
        (Expr::GCD(a1, a2), Expr::GCD(b1, b2)) => expr_eq(a1, b1) && expr_eq(a2, b2),
        (Expr::LCM(a1, a2), Expr::LCM(b1, b2)) => expr_eq(a1, b1) && expr_eq(a2, b2),
        (Expr::Mod(a1, a2), Expr::Mod(b1, b2)) => expr_eq(a1, b1) && expr_eq(a2, b2),
        (Expr::Binomial(a1, a2), Expr::Binomial(b1, b2)) => expr_eq(a1, b1) && expr_eq(a2, b2),
        (Expr::Gte(a1, a2), Expr::Gte(b1, b2)) => expr_eq(a1, b1) && expr_eq(a2, b2),
        (Expr::Gt(a1, a2), Expr::Gt(b1, b2)) => expr_eq(a1, b1) && expr_eq(a2, b2),
        (Expr::Lte(a1, a2), Expr::Lte(b1, b2)) => expr_eq(a1, b1) && expr_eq(a2, b2),
        (Expr::Lt(a1, a2), Expr::Lt(b1, b2)) => expr_eq(a1, b1) && expr_eq(a2, b2),
        (Expr::And(a1, a2), Expr::And(b1, b2)) => expr_eq(a1, b1) && expr_eq(a2, b2),
        (Expr::Or(a1, a2), Expr::Or(b1, b2)) => expr_eq(a1, b1) && expr_eq(a2, b2),
        (Expr::Implies(a1, a2), Expr::Implies(b1, b2)) => expr_eq(a1, b1) && expr_eq(a2, b2),
        (Expr::Equation { lhs: a1, rhs: a2 }, Expr::Equation { lhs: b1, rhs: b2 }) => expr_eq(a1, b1)
            && expr_eq(a2, b2),
        (Expr::Derivative { expr: x, var: v }, Expr::Derivative { expr: y, var: w }) => v.0 == w.0
            && expr_eq(x, y),
        (Expr::Integral { expr: x, var: v }, Expr::Integral { expr: y, var: w }) => v.0 == w.0
            && expr_eq(x, y),
        (
            Expr::ForAll { var: v, domain: d1, body: b1 },
            Expr::ForAll { var: w, domain: d2, body: b2 },
        ) => v.0 == w.0 && opt_eq(d1, d2) && expr_eq(b1, b2),
        (
            Expr::Exists { var: v, domain: d1, body: b1 },
            Expr::Exists { var: w, domain: d2, body: b2 },
        ) => v.0 == w.0 && opt_eq(d1, d2) && expr_eq(b1, b2),
        (
            Expr::Summation { var: v, from: f1, to: t1, body: b1 },
            Expr::Summation { var: w, from: f2, to: t2, body: b2 },
        ) => v.0 == w.0 && expr_eq(f1, f2) && expr_eq(t1, t2) && expr_eq(b1, b2),
        (
            Expr::BigProduct { var: v, from: f1, to: t1, body: b1 },
            Expr::BigProduct { var: w, from: f2, to: t2, body: b2 },
        ) => v.0 == w.0 && expr_eq(f1, f2) && expr_eq(t1, t2) && expr_eq(b1, b2),
        _ => false,
    }
}


/// A structural copy of an optional boxed expression.
fn copy_opt(e: &Option<Box<Expr>>) -> (r: Option<Box<Expr>>)
    ensures
        r == *e,
    decreases e,
{
    match e {
        None => None,
        Some(x) => Some(Box::new(copy_expr(x))),
    }
}

/// A structural copy of an expression.
pub fn copy_expr(e: &Expr) -> (r: Expr)
    ensures
        r == *e,
    decreases e,
{
    match e {
        Expr::Const(c) => Expr::Const(*c),
        Expr::Var(v) => Expr::Var(*v),
        Expr::Pi => Expr::Pi,
        Expr::E => Expr::E,
        Expr::Neg(x) => Expr::Neg(Box::new(copy_expr(x))),
        Expr::Sqrt(x) => Expr::Sqrt(Box::new(copy_expr(x))),
        Expr::Sin(x) => Expr::Sin(Box::new(copy_expr(x))),
        Expr::Cos(x) => Expr::Cos(Box::new(copy_expr(x))),
        Expr::Tan(x) => Expr::Tan(Box::new(copy_expr(x))),
        Expr::Arcsin(x) => Expr::Arcsin(Box::new(copy_expr(x))),
        Expr::Arccos(x) => Expr::Arccos(Box::new(copy_expr(x))),
        Expr::Arctan(x) => Expr::Arctan(Box::new(copy_expr(x))),
        Expr::Ln(x) => Expr::Ln(Box::new(copy_expr(x))),
        Expr::Exp(x) => Expr::Exp(Box::new(copy_expr(x))),
        Expr::Abs(x) => Expr::Abs(Box::new(copy_expr(x))),
        Expr::Floor(x) => Expr::Floor(Box::new(copy_expr(x))),
        Expr::Ceiling(x) => Expr::Ceiling(Box::new(copy_expr(x))),
        Expr::Factorial(x) => Expr::Factorial(Box::new(copy_expr(x))),
        Expr::Not(x) => Expr::Not(Box::new(copy_expr(x))),
        Expr::Add(x, y) => Expr::Add(Box::new(copy_expr(x)), Box::new(copy_expr(y))),
        Expr::Sub(x, y) => Expr::Sub(Box::new(copy_expr(x)), Box::new(copy_expr(y))),
        Expr::Mul(x, y) => Expr::Mul(Box::new(copy_expr(x)), Box::new(copy_expr(y))),
        Expr::Div(x, y) => Expr::Div(Box::new(copy_expr(x)), Box::new(copy_expr(y))),
        Expr::Pow(x, y) => Expr::Pow(Box::new(copy_expr(x)), Box::new(copy_expr(y))),
        Expr::GCD(x, y) => Expr::GCD(Box::new(copy_expr(x)), Box::new(copy_expr(y))),
        Expr::LCM(x, y) => Expr::LCM(Box::new(copy_expr(x)), Box::new(copy_expr(y))),
        Expr::Mod(x, y) => Expr::Mod(Box::new(copy_expr(x)), Box::new(copy_expr(y))),
        Expr::Binomial(x, y) => Expr::Binomial(Box::new(copy_expr(x)), Box::new(copy_expr(y))),
        Expr::Gte(x, y) => Expr::Gte(Box::new(copy_expr(x)), Box::new(copy_expr(y))),
        Expr::Gt(x, y) => Expr::Gt(Box::new(copy_expr(x)), Box::new(copy_expr(y))),
        Expr::Lte(x, y) => Expr::Lte(Box::new(copy_expr(x)), Box::new(copy_expr(y))),
        Expr::Lt(x, y) => Expr::Lt(Box::new(copy_expr(x)), Box::new(copy_expr(y))),
        Expr::And(x, y) => Expr::And(Box::new(copy_expr(x)), Box::new(copy_expr(y))),
        Expr::Or(x, y) => Expr::Or(Box::new(copy_expr(x)), Box::new(copy_expr(y))),
        Expr::Implies(x, y) => Expr::Implies(Box::new(copy_expr(x)), Box::new(copy_expr(y))),
        Expr::Equation { lhs, rhs } => Expr::Equation {
            lhs: Box::new(copy_expr(lhs)),
            rhs: Box::new(copy_expr(rhs)),
        },
        Expr::Derivative { expr, var } => Expr::Derivative { expr: Box::new(copy_expr(expr)), var: *var },
        Expr::Integral { expr, var } => Expr::Integral { expr: Box::new(copy_expr(expr)), var: *var },
        Expr::ForAll { var, domain, body } => Expr::ForAll {
            var: *var,
            domain: copy_opt(domain),
            body: Box::new(copy_expr(body)),
        },
        Expr::Exists { var, domain, body } => Expr::Exists {
            var: *var,
            domain: copy_opt(domain),
            body: Box::new(copy_expr(body)),
        },
        Expr::Summation { var, from, to, body } => Expr::Summation {
            var: *var,
            from: Box::new(copy_expr(from)),
            to: Box::new(copy_expr(to)),
            body: Box::new(copy_expr(body)),
        },
        Expr::BigProduct { var, from, to, body } => Expr::BigProduct {
            var: *var,
            from: Box::new(copy_expr(from)),
            to: Box::new(copy_expr(to)),
            body: Box::new(copy_expr(body)),
        },
    }
}

impl Clone for Expr {
    fn clone(&self) -> (r: Self)
        ensures
            r == *self,
    {
        copy_expr(self)
    }
}

/// Field equality of two rationals.
pub fn rat_eq(x: &Rational, y: &Rational) -> (r: bool)
    ensures
        r == (*x == *y),
{
    let r = x.numer() == y.numer() && x.denom() == y.denom();
    proof {
        if r {
            crate::rational::lemma_rat_ext(*x, *y);
        }
    }
    r
}

} // verus!
