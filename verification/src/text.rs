//! Small verified helpers on string slices.

use vstd::prelude::*;
use vstd::string::StringSliceAdditionalSpecFns;
use vstd::string::StringExecFns;
use crate::expr::{Expr, Symbol};
use crate::rational::Rational;

verus! {

/// Character-wise equality of two string slices, decided on their bytes.
pub fn str_eq(a: &str, b: &str) -> (r: bool)
    ensures
        r == (a@ == b@),
{
    let ab = a.as_bytes();
    let bb = b.as_bytes();
    proof {
        vstd::utf8::encode_utf8_decode_utf8(a@);
        vstd::utf8::encode_utf8_decode_utf8(b@);
    }
    if ab.len() != bb.len() {
        return false;
    }
    let mut i: usize = 0;
    while i < ab.len()
        invariant
            i <= ab.len(),
            ab.len() == bb.len(),
            ab@ == a.spec_bytes(),
            bb@ == b.spec_bytes(),
            forall|j: int| 0 <= j < i ==> ab@[j] == bb@[j],
        decreases ab.len() - i,
    {
        if ab[i] != bb[i] {
            return false;
        }
        i = i + 1;
    }
    assert(ab@ =~= bb@);
    true
}

/// Append `t` to `s`.
pub fn push_text(s: &mut String, t: &str)
    ensures
        final(s)@ == old(s)@ + t@,
{
    s.append(t);
}

/// How a symbol is rendered in descriptions: `Symbol(<number>)`.
pub open spec fn symbol_text(s: Symbol) -> Seq<char> {
    "Symbol("@ + decimal(s.0 as nat) + ")"@
}

/// Render a symbol as `Symbol(<number>)`.
pub fn render_symbol(s: Symbol) -> (t: String)
    ensures
        t@ == symbol_text(s),
{
    let mut t = String::new();
    push_text(&mut t, "Symbol(");
    let digits = decimal_string(s.0 as u64);
    push_text(&mut t, digits.as_str());
    push_text(&mut t, ")");
    t
}

/// Decimal digits of `n`, most significant first, with no leading zero.
pub open spec fn decimal(n: nat) -> Seq<char>
    decreases n,
{
    if n < 10 {
        seq![digit_char(n)]
    } else {
        decimal(n / 10).push(digit_char(n % 10))
    }
}

/// The character of a decimal digit.
pub open spec fn digit_char(d: nat) -> char {
    ((d + 48) as u32) as char
}

/// Decimal rendering of a number.
pub fn decimal_string(n: u64) -> (s: String)
    ensures
        s@ == decimal(n as nat),
    decreases n,
{
    if n < 10 {
        let mut s = String::new();
        push_text(&mut s, digit_str(n));
        s
    } else {
        let mut s = decimal_string(n / 10);
        push_text(&mut s, digit_str(n % 10));
        s
    }
}

/// How an integer is written: its decimal digits, after `-` when negative.
pub open spec fn int_text(n: int) -> Seq<char> {
    if n < 0 {
        "-"@ + decimal((-n) as nat)
    } else {
        decimal(n as nat)
    }
}

/// How a rational `(numerator, denominator)` in lowest terms is written:
/// the integer when the denominator is 1, `numerator/denominator` otherwise.
pub open spec fn rational_text(p: (int, int)) -> Seq<char> {
    if p.1 == 1 {
        int_text(p.0)
    } else {
        int_text(p.0) + "/"@ + decimal(p.1 as nat)
    }
}

/// Render a rational as [`rational_text`] states.
pub fn render_rational(r: &Rational) -> (t: String)
    ensures
        t@ == rational_text(r.pair()),
{
    r.lemma_wf();
    let n = r.numer();
    let d = r.denom();
    let mut t = String::new();
    if n < 0 {
        push_text(&mut t, "-");
        let digits = decimal_string((-n) as u64);
        push_text(&mut t, digits.as_str());
    } else {
        let digits = decimal_string(n as u64);
        push_text(&mut t, digits.as_str());
    }
    if d != 1 {
        push_text(&mut t, "/");
        let digits = decimal_string(d as u64);
        push_text(&mut t, digits.as_str());
    }
    assert(t@ =~= rational_text(r.pair()));
    t
}

/// The one-character string of a decimal digit.
fn digit_str(d: u64) -> (s: &'static str)
    requires
        d < 10,
    ensures
        s@ == seq![digit_char(d as nat)],
{
    match d {
        0 => {
            proof {
                reveal_strlit("0");
            }
            "0"
        },
        1 => {
            proof {
                reveal_strlit("1");
            }
            "1"
        },
        2 => {
            proof {
                reveal_strlit("2");
            }
            "2"
        },
        3 => {
            proof {
                reveal_strlit("3");
            }
            "3"
        },
        4 => {
            proof {
                reveal_strlit("4");
            }
            "4"
        },
        5 => {
            proof {
                reveal_strlit("5");
            }
            "5"
        },
        6 => {
            proof {
                reveal_strlit("6");
            }
            "6"
        },
        7 => {
            proof {
                reveal_strlit("7");
            }
            "7"
        },
        8 => {
            proof {
                reveal_strlit("8");
            }
            "8"
        },
        _ => {
            proof {
                reveal_strlit("9");
            }
            "9"
        },
    }
}


/// The character of a hexadecimal digit, lower case.
pub open spec fn hex_char(d: nat) -> char {
    if d < 10 {
        ((d + 48) as u32) as char
    } else {
        ((d + 87) as u32) as char
    }
}

/// The last `k` hexadecimal digits of `n`, most significant first, padded
/// with zeros.
pub open spec fn hex_fixed(n: nat, k: nat) -> Seq<char>
    decreases k,
{
    if k == 0 {
        Seq::empty()
    } else {
        hex_fixed(n / 16, (k - 1) as nat).push(hex_char(n % 16))
    }
}

/// The last `k` hexadecimal digits of `n`, as [`hex_fixed`] states.
pub fn hex_fixed_string(n: u64, k: u32) -> (s: String)
    ensures
        s@ == hex_fixed(n as nat, k as nat),
    decreases k,
{
    if k == 0 {
        let s = String::new();
        assert(s@ =~= hex_fixed(n as nat, 0));
        s
    } else {
        let mut s = hex_fixed_string(n / 16, k - 1);
        push_text(&mut s, hex_digit_str(n % 16));
        s
    }
}

/// The one-character string of a hexadecimal digit.
fn hex_digit_str(d: u64) -> (s: &'static str)
    requires
        d < 16,
    ensures
        s@ == seq![hex_char(d as nat)],
{
    match d {
        0 => {
            proof {
                reveal_strlit("0");
            }
            "0"
        },
        1 => {
            proof {
                reveal_strlit("1");
            }
            "1"
        },
        2 => {
            proof {
                reveal_strlit("2");
            }
            "2"
        },
        3 => {
            proof {
                reveal_strlit("3");
            }
            "3"
        },
        4 => {
            proof {
                reveal_strlit("4");
            }
            "4"
        },
        5 => {
            proof {
                reveal_strlit("5");
            }
            "5"
        },
        6 => {
            proof {
                reveal_strlit("6");
            }
            "6"
        },
        7 => {
            proof {
                reveal_strlit("7");
            }
            "7"
        },
        8 => {
            proof {
                reveal_strlit("8");
            }
            "8"
        },
        9 => {
            proof {
                reveal_strlit("9");
            }
            "9"
        },
        10 => {
            proof {
                reveal_strlit("a");
            }
            "a"
        },
        11 => {
            proof {
                reveal_strlit("b");
            }
            "b"
        },
        12 => {
            proof {
                reveal_strlit("c");
            }
            "c"
        },
        13 => {
            proof {
                reveal_strlit("d");
            }
            "d"
        },
        14 => {
            proof {
                reveal_strlit("e");
            }
            "e"
        },
        _ => {
            proof {
                reveal_strlit("f");
            }
            "f"
        },
    }
}


/// How `Debug` writes an expression: each variant by name, a tuple variant
/// with its fields in brackets separated by `, `, a struct variant with
/// `{ field: value, ... }`; a rational as `Rational { num: n, den: d }` and a
/// symbol as `Symbol(i)`.
pub open spec fn expr_text(e: Expr) -> Seq<char>
    decreases e,
{
    match e {
        Expr::Const(c) => "Const(Rational { num: "@ + int_text(c.num()) + ", den: "@ + int_text(c.den()) + " })"@,
        Expr::Var(v) => "Var("@ + symbol_text(v) + ")"@,
        Expr::Pi => "Pi"@,
        Expr::E => "E"@,
        Expr::Neg(a) => "Neg("@ + expr_text(*a) + ")"@,
        Expr::Sqrt(a) => "Sqrt("@ + expr_text(*a) + ")"@,
        Expr::Sin(a) => "Sin("@ + expr_text(*a) + ")"@,
        Expr::Cos(a) => "Cos("@ + expr_text(*a) + ")"@,
        Expr::Tan(a) => "Tan("@ + expr_text(*a) + ")"@,
        Expr::Arcsin(a) => "Arcsin("@ + expr_text(*a) + ")"@,
        Expr::Arccos(a) => "Arccos("@ + expr_text(*a) + ")"@,
        Expr::Arctan(a) => "Arctan("@ + expr_text(*a) + ")"@,
        Expr::Ln(a) => "Ln("@ + expr_text(*a) + ")"@,
        Expr::Exp(a) => "Exp("@ + expr_text(*a) + ")"@,
        Expr::Abs(a) => "Abs("@ + expr_text(*a) + ")"@,
        Expr::Floor(a) => "Floor("@ + expr_text(*a) + ")"@,
        Expr::Ceiling(a) => "Ceiling("@ + expr_text(*a) + ")"@,
        Expr::Factorial(a) => "Factorial("@ + expr_text(*a) + ")"@,
        Expr::Not(a) => "Not("@ + expr_text(*a) + ")"@,
        Expr::Add(a, b) => "Add("@ + expr_text(*a) + ", "@ + expr_text(*b) + ")"@,
        Expr::Sub(a, b) => "Sub("@ + expr_text(*a) + ", "@ + expr_text(*b) + ")"@,
        Expr::Mul(a, b) => "Mul("@ + expr_text(*a) + ", "@ + expr_text(*b) + ")"@,
        Expr::Div(a, b) => "Div("@ + expr_text(*a) + ", "@ + expr_text(*b) + ")"@,
        Expr::Pow(a, b) => "Pow("@ + expr_text(*a) + ", "@ + expr_text(*b) + ")"@,
        Expr::GCD(a, b) => "GCD("@ + expr_text(*a) + ", "@ + expr_text(*b) + ")"@,
        Expr::LCM(a, b) => "LCM("@ + expr_text(*a) + ", "@ + expr_text(*b) + ")"@,
        Expr::Mod(a, b) => "Mod("@ + expr_text(*a) + ", "@ + expr_text(*b) + ")"@,
        Expr::Binomial(a, b) => "Binomial("@ + expr_text(*a) + ", "@ + expr_text(*b) + ")"@,
        Expr::Gte(a, b) => "Gte("@ + expr_text(*a) + ", "@ + expr_text(*b) + ")"@,
        Expr::Gt(a, b) => "Gt("@ + expr_text(*a) + ", "@ + expr_text(*b) + ")"@,
        Expr::Lte(a, b) => "Lte("@ + expr_text(*a) + ", "@ + expr_text(*b) + ")"@,
        Expr::Lt(a, b) => "Lt("@ + expr_text(*a) + ", "@ + expr_text(*b) + ")"@,
        Expr::And(a, b) => "And("@ + expr_text(*a) + ", "@ + expr_text(*b) + ")"@,
        Expr::Or(a, b) => "Or("@ + expr_text(*a) + ", "@ + expr_text(*b) + ")"@,
        Expr::Implies(a, b) => "Implies("@ + expr_text(*a) + ", "@ + expr_text(*b) + ")"@,
        Expr::Equation { lhs, rhs } => "Equation { lhs: "@ + expr_text(*lhs) + ", rhs: "@ + expr_text(*rhs) + " }"@,
        Expr::Derivative { expr, var } => "Derivative { expr: "@ + expr_text(*expr) + ", var: "@ + symbol_text(var) + " }"@,
        Expr::Integral { expr, var } => "Integral { expr: "@ + expr_text(*expr) + ", var: "@ + symbol_text(var) + " }"@,
        Expr::ForAll { var, domain, body } => "ForAll { var: "@ + symbol_text(var) + ", domain: "@ + match domain {
            Some(d) => "Some("@ + expr_text(*d) + ")"@,
            None => "None"@,
        } + ", body: "@ + expr_text(*body) + " }"@,
        Expr::Exists { var, domain, body } => "Exists { var: "@ + symbol_text(var) + ", domain: "@ + match domain {
            Some(d) => "Some("@ + expr_text(*d) + ")"@,
            None => "None"@,
        } + ", body: "@ + expr_text(*body) + " }"@,
        Expr::Summation { var, from, to, body } => "Summation { var: "@ + symbol_text(var) + ", from: "@ + expr_text(*from)
            + ", to: "@ + expr_text(*to) + ", body: "@ + expr_text(*body) + " }"@,
        Expr::BigProduct { var, from, to, body } => "BigProduct { var: "@ + symbol_text(var) + ", from: "@
            + expr_text(*from) + ", to: "@ + expr_text(*to) + ", body: "@ + expr_text(*body) + " }"@,
    }
}

/// The decimal text of an integer above `i64::MIN`.
fn int_string(n: i64) -> (t: String)
    requires
        n > i64::MIN,
    ensures
        t@ == int_text(n as int),
{
    if n < 0 {
        let digits = decimal_string((-n) as u64);
        let t = cat3("-", digits.as_str(), "");
        proof {
            reveal_strlit("");
            assert(t@ =~= int_text(n as int));
        }
        t
    } else {
        decimal_string(n as u64)
    }
}

/// The concatenation of 1 pieces.
fn cat1(p0: &str) -> (r: String)
    ensures
        r@ == p0@,
{
    let mut r = String::new();
    push_text(&mut r, p0);
    assert(r@ =~= p0@);
    r
}
/// The concatenation of 3 pieces.
fn cat3(p0: &str, p1: &str, p2: &str) -> (r: String)
    ensures
        r@ == p0@ + p1@ + p2@,
{
    let mut r = String::new();
    push_text(&mut r, p0);
    push_text(&mut r, p1);
    push_text(&mut r, p2);
    assert(r@ =~= p0@ + p1@ + p2@);
    r
}
/// The concatenation of 5 pieces.
fn cat5(p0: &str, p1: &str, p2: &str, p3: &str, p4: &str) -> (r: String)
    ensures
        r@ == p0@ + p1@ + p2@ + p3@ + p4@,
{
    let mut r = String::new();
    push_text(&mut r, p0);
    push_text(&mut r, p1);
    push_text(&mut r, p2);
    push_text(&mut r, p3);
    push_text(&mut r, p4);
    assert(r@ =~= p0@ + p1@ + p2@ + p3@ + p4@);
    r
}
/// The concatenation of 7 pieces.
fn cat7(p0: &str, p1: &str, p2: &str, p3: &str, p4: &str, p5: &str, p6: &str) -> (r: String)
    ensures
        r@ == p0@ + p1@ + p2@ + p3@ + p4@ + p5@ + p6@,
{
    let mut r = String::new();
    push_text(&mut r, p0);
    push_text(&mut r, p1);
    push_text(&mut r, p2);
    push_text(&mut r, p3);
    push_text(&mut r, p4);
    push_text(&mut r, p5);
    push_text(&mut r, p6);
    assert(r@ =~= p0@ + p1@ + p2@ + p3@ + p4@ + p5@ + p6@);
    r
}
/// The concatenation of 9 pieces.
fn cat9(p0: &str, p1: &str, p2: &str, p3: &str, p4: &str, p5: &str, p6: &str, p7: &str, p8: &str) -> (r: String)
    ensures
        r@ == p0@ + p1@ + p2@ + p3@ + p4@ + p5@ + p6@ + p7@ + p8@,
{
    let mut r = String::new();
    push_text(&mut r, p0);
    push_text(&mut r, p1);
    push_text(&mut r, p2);
    push_text(&mut r, p3);
    push_text(&mut r, p4);
    push_text(&mut r, p5);
    push_text(&mut r, p6);
    push_text(&mut r, p7);
    push_text(&mut r, p8);
    assert(r@ =~= p0@ + p1@ + p2@ + p3@ + p4@ + p5@ + p6@ + p7@ + p8@);
    r
}

/// The text of an optional domain: `Some(..)` or `None`.
pub open spec fn domain_text(d: Option<Box<Expr>>) -> Seq<char> {
    match d {
        Some(x) => "Some("@ + expr_text(*x) + ")"@,
        None => "None"@,
    }
}

/// The text of an optional domain, as [`domain_text`] states.
fn render_domain(d: &Option<Box<Expr>>) -> (t: String)
    ensures
        t@ == domain_text(*d),
    decreases d, 0nat,
{
    match d {
        Some(x) => {
            let y = render_expr(x);
            cat3("Some(", y.as_str(), ")")
        },
        None => cat1("None"),
    }
}

/// The `Debug` text of an expression, as [`expr_text`] states.
#[verifier::spinoff_prover]
pub fn render_expr(e: &Expr) -> (t: String)
    ensures
        t@ == expr_text(*e),
    decreases e, 1nat,
{
    match e {
        Expr::Const(c) => {
            c.lemma_wf();
            let n = int_string(c.numer());
            let d = int_string(c.denom());
            cat5("Const(Rational { num: ", n.as_str(), ", den: ", d.as_str(), " })")
        },
        Expr::Var(v) => {
            let t = render_symbol(*v);
            cat3("Var(", t.as_str(), ")")
        },
        Expr::Pi => cat1("Pi"),
        Expr::E => cat1("E"),
        Expr::Neg(a) => {
            let x = render_expr(a);
            cat3("Neg(", x.as_str(), ")")
        },
        Expr::Sqrt(a) => {
            let x = render_expr(a);
            cat3("Sqrt(", x.as_str(), ")")
        },
        Expr::Sin(a) => {
            let x = render_expr(a);
            cat3("Sin(", x.as_str(), ")")
        },
        Expr::Cos(a) => {
            let x = render_expr(a);
            cat3("Cos(", x.as_str(), ")")
        },
        Expr::Tan(a) => {
            let x = render_expr(a);
            cat3("Tan(", x.as_str(), ")")
        },
        Expr::Arcsin(a) => {
            let x = render_expr(a);
            cat3("Arcsin(", x.as_str(), ")")
        },
        Expr::Arccos(a) => {
            let x = render_expr(a);
            cat3("Arccos(", x.as_str(), ")")
        },
        Expr::Arctan(a) => {
            let x = render_expr(a);
            cat3("Arctan(", x.as_str(), ")")
        },
        Expr::Ln(a) => {
            let x = render_expr(a);
            cat3("Ln(", x.as_str(), ")")
        },
        Expr::Exp(a) => {
            let x = render_expr(a);
            cat3("Exp(", x.as_str(), ")")
        },
        Expr::Abs(a) => {
            let x = render_expr(a);
            cat3("Abs(", x.as_str(), ")")
        },
        Expr::Floor(a) => {
            let x = render_expr(a);
            cat3("Floor(", x.as_str(), ")")
        },
        Expr::Ceiling(a) => {
            let x = render_expr(a);
            cat3("Ceiling(", x.as_str(), ")")
        },
        Expr::Factorial(a) => {
            let x = render_expr(a);
            cat3("Factorial(", x.as_str(), ")")
        },
        Expr::Not(a) => {
            let x = render_expr(a);
            cat3("Not(", x.as_str(), ")")
        },
        Expr::Add(a, b) => {
            let x = render_expr(a);
            let y = render_expr(b);
            cat5("Add(", x.as_str(), ", ", y.as_str(), ")")
        },
        Expr::Sub(a, b) => {
            let x = render_expr(a);
            let y = render_expr(b);
            cat5("Sub(", x.as_str(), ", ", y.as_str(), ")")
        },
        Expr::Mul(a, b) => {
            let x = render_expr(a);
            let y = render_expr(b);
            cat5("Mul(", x.as_str(), ", ", y.as_str(), ")")
        },
        Expr::Div(a, b) => {
            let x = render_expr(a);
            let y = render_expr(b);
            cat5("Div(", x.as_str(), ", ", y.as_str(), ")")
        },
        Expr::Pow(a, b) => {
            let x = render_expr(a);
            let y = render_expr(b);
            cat5("Pow(", x.as_str(), ", ", y.as_str(), ")")
        },
        Expr::GCD(a, b) => {
            let x = render_expr(a);
            let y = render_expr(b);
            cat5("GCD(", x.as_str(), ", ", y.as_str(), ")")
        },
        Expr::LCM(a, b) => {
            let x = render_expr(a);
            let y = render_expr(b);
            cat5("LCM(", x.as_str(), ", ", y.as_str(), ")")
        },
        Expr::Mod(a, b) => {
            let x = render_expr(a);
            let y = render_expr(b);
            cat5("Mod(", x.as_str(), ", ", y.as_str(), ")")
        },
        Expr::Binomial(a, b) => {
            let x = render_expr(a);
            let y = render_expr(b);
            cat5("Binomial(", x.as_str(), ", ", y.as_str(), ")")
        },
        Expr::Gte(a, b) => {
            let x = render_expr(a);
            let y = render_expr(b);
            cat5("Gte(", x.as_str(), ", ", y.as_str(), ")")
        },
        Expr::Gt(a, b) => {
            let x = render_expr(a);
            let y = render_expr(b);
            cat5("Gt(", x.as_str(), ", ", y.as_str(), ")")
        },
        Expr::Lte(a, b) => {
            let x = render_expr(a);
            let y = render_expr(b);
            cat5("Lte(", x.as_str(), ", ", y.as_str(), ")")
        },
        Expr::Lt(a, b) => {
            let x = render_expr(a);
            let y = render_expr(b);
            cat5("Lt(", x.as_str(), ", ", y.as_str(), ")")
        },
        Expr::And(a, b) => {
            let x = render_expr(a);
            let y = render_expr(b);
            cat5("And(", x.as_str(), ", ", y.as_str(), ")")
        },
        Expr::Or(a, b) => {
            let x = render_expr(a);
            let y = render_expr(b);
            cat5("Or(", x.as_str(), ", ", y.as_str(), ")")
        },
        Expr::Implies(a, b) => {
            let x = render_expr(a);
            let y = render_expr(b);
            cat5("Implies(", x.as_str(), ", ", y.as_str(), ")")
        },
        Expr::Equation { lhs, rhs } => {
            let x = render_expr(lhs);
            let y = render_expr(rhs);
            cat5("Equation { lhs: ", x.as_str(), ", rhs: ", y.as_str(), " }")
        },
        Expr::Derivative { expr, var } => {
            let x = render_expr(expr);
            let y = render_symbol(*var);
            cat5("Derivative { expr: ", x.as_str(), ", var: ", y.as_str(), " }")
        },
        Expr::Integral { expr, var } => {
            let x = render_expr(expr);
            let y = render_symbol(*var);
            cat5("Integral { expr: ", x.as_str(), ", var: ", y.as_str(), " }")
        },
        Expr::ForAll { var, domain, body } => {
            let x = render_symbol(*var);
            let y = render_domain(domain);
            let z = render_expr(body);
            cat7("ForAll { var: ", x.as_str(), ", domain: ", y.as_str(), ", body: ", z.as_str(), " }")
        },
        Expr::Exists { var, domain, body } => {
            let x = render_symbol(*var);
            let y = render_domain(domain);
            let z = render_expr(body);
            cat7("Exists { var: ", x.as_str(), ", domain: ", y.as_str(), ", body: ", z.as_str(), " }")
        },
        Expr::Summation { var, from, to, body } => {
            let x = render_symbol(*var);
            let y = render_expr(from);
            let z = render_expr(to);
            let w = render_expr(body);
            cat9("Summation { var: ", x.as_str(), ", from: ", y.as_str(), ", to: ", z.as_str(), ", body: ", w.as_str(), " }")
        },
        Expr::BigProduct { var, from, to, body } => {
            let x = render_symbol(*var);
            let y = render_expr(from);
            let z = render_expr(to);
            let w = render_expr(body);
            cat9("BigProduct { var: ", x.as_str(), ", from: ", y.as_str(), ", to: ", z.as_str(), ", body: ", w.as_str(), " }")
        },
    }
}

} // verus!
