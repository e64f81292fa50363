//! The rewrites of the classical number-theory theorems.
//!
//! Most of these rules annotate: offered on an expression of a given shape,
//! they answer with the expression itself, or with the constant the theorem
//! gives, together with the theorem as justification.  The divisor-function
//! rules compute `σ(n)` and `τ(n)` for small positive integers.

use vstd::prelude::*;
use crate::expr::{copy_expr, expr_eq, Expr};
use crate::rational::{abs, gcd, gcd_u128, Rational};
use crate::rewrite::{is_lit, is_lit_e, lit, mk_lit, none, nothing, one, single};
use crate::rule::{apps_view, RuleApplication};
use crate::text::{decimal, decimal_string, push_text};

verus! {

fn is_const_e(e: &Expr) -> (b: bool)
    ensures
        b == (*e matches Expr::Const(_)),
{
    match e {
        Expr::Const(_) => true,
        _ => false,
    }
}

/// Fermat's little theorem: `a^(p-1) mod p` gives 1, for an integer
/// constant `a` and a prime constant `p` (one with `φ(p) = p - 1`) with
/// `gcd(a, p) = 1`, the exponent written `p - 1`.
pub open spec fn fermat_little_theorem_applies(e: Expr) -> bool {
    e matches Expr::Mod(inner, m) && (*inner matches Expr::Pow(a, x) && (*x matches Expr::Sub(p, o) && *p == *m
        && is_lit(*o, 1) && {
        &&& integer_of(*a) is Some
        &&& integer_of(*m) is Some
        &&& integer_of(*m)->0 >= 2
        &&& totient(integer_of(*m)->0) == integer_of(*m)->0 - 1
        &&& gcd(abs(integer_of(*a)->0), integer_of(*m)->0 as nat) == 1
    }))
}

/// The results of `fermat_little_theorem` on `e`, each with its justification.
pub open spec fn fermat_little_theorem_results(e: Expr) -> Seq<(Expr, Seq<char>)> {
    if fermat_little_theorem_applies(e) {
        one(lit(1), "Fermat's Little Theorem: a^(p-1) ≡ 1 (mod p) for prime p, gcd(a,p)=1"@)
    } else {
        none()
    }
}

/// Whether [`fermat_little_theorem_applies`] holds of `e`.
pub(crate) fn fermat_little_theorem_applicable(e: &Expr) -> (r: bool)
    ensures
        r == fermat_little_theorem_applies(*e),
{
    if let Expr::Mod(inner, m) = e {
        if let Expr::Pow(a, x) = &**inner {
            if let Expr::Sub(p, o) = &**x {
                if !(expr_eq(p, m) && is_lit_e(o, 1)) {
                    return false;
                }
                match (integer_of_e(a), integer_of_e(m)) {
                    (Some(av), Some(mv)) => {
                        if mv < 2 {
                            return false;
                        }
                        let abs_a: u128 = if av < 0 { (0 - (av as i128)) as u128 } else { av as u128 };
                        if gcd_u128(abs_a, mv as u128) != 1 {
                            return false;
                        }
                        return totient_exec(mv) == mv - 1;
                    },
                    _ => return false,
                }
            }
        }
    }
    false
}

/// The results of `fermat_little_theorem` on `e`, as [`fermat_little_theorem_results`] states.
pub(crate) fn fermat_little_theorem_apply(e: &Expr) -> (v: Vec<RuleApplication>)
    ensures
        apps_view(v@) == fermat_little_theorem_results(*e),
{
    if fermat_little_theorem_applicable(e) {
        single(mk_lit(1), "Fermat's Little Theorem: a^(p-1) ≡ 1 (mod p) for prime p, gcd(a,p)=1")
    } else {
        nothing()
    }
}

/// Fermat's last theorem: offered on `a^m + b^n = c^k`; any expression
/// gives 0 (no solutions).
pub open spec fn fermat_last_theorem_applies(e: Expr) -> bool {
    e matches Expr::Equation { lhs, rhs } && (*lhs matches Expr::Add(a, b) && (*a matches Expr::Pow(_, _))
        && (*b matches Expr::Pow(_, _)) && (*rhs matches Expr::Pow(_, _)))
}

/// The results of `fermat_last_theorem` on `e`, each with its justification.
pub open spec fn fermat_last_theorem_results(e: Expr) -> Seq<(Expr, Seq<char>)> {
    one(lit(0), "Fermat's Last Theorem: No integer solutions for x^n + y^n = z^n when n > 2"@)
}

/// Whether [`fermat_last_theorem_applies`] holds of `e`.
pub(crate) fn fermat_last_theorem_applicable(e: &Expr) -> (r: bool)
    ensures
        r == fermat_last_theorem_applies(*e),
{
    match e {
        Expr::Equation { lhs, rhs } => match (&**lhs, &**rhs) {
            (Expr::Add(a, b), Expr::Pow(_, _)) => match (&**a, &**b) {
                (Expr::Pow(_, _), Expr::Pow(_, _)) => true,
                _ => false,
            },
            _ => false,
        },
        _ => false,
    }
}

/// The results of `fermat_last_theorem` on `e`, as [`fermat_last_theorem_results`] states.
pub(crate) fn fermat_last_theorem_apply(e: &Expr) -> (v: Vec<RuleApplication>)
    ensures
        apps_view(v@) == fermat_last_theorem_results(*e),
{
    single(mk_lit(0), "Fermat's Last Theorem: No integer solutions for x^n + y^n = z^n when n > 2")
}

/// The prime-counting estimate `π(x) ~ x/ln(x)`: offered on `x/ln(x)`, and
/// any quotient gives its numerator.
pub open spec fn prime_counting_approx_applies(e: Expr) -> bool {
    e matches Expr::Div(num, den) && (*den matches Expr::Ln(x) && *num == *x)
}

/// The results of `prime_counting_approx` on `e`, each with its justification.
pub open spec fn prime_counting_approx_results(e: Expr) -> Seq<(Expr, Seq<char>)> {
    match e {
        Expr::Div(x, _) => one(*x, "Prime counting function: π(x) ~ x/ln(x) (asymptotic)"@),
        _ => none(),
    }
}

/// Whether [`prime_counting_approx_applies`] holds of `e`.
pub(crate) fn prime_counting_approx_applicable(e: &Expr) -> (r: bool)
    ensures
        r == prime_counting_approx_applies(*e),
{
    match e {
        Expr::Div(num, den) => match &**den {
            Expr::Ln(x) => expr_eq(num, x),
            _ => false,
        },
        _ => false,
    }
}

/// The results of `prime_counting_approx` on `e`, as [`prime_counting_approx_results`] states.
pub(crate) fn prime_counting_approx_apply(e: &Expr) -> (v: Vec<RuleApplication>)
    ensures
        apps_view(v@) == prime_counting_approx_results(*e),
{
    match e {
        Expr::Div(x, _) => single(copy_expr(x), "Prime counting function: π(x) ~ x/ln(x) (asymptotic)"),
        _ => nothing(),
    }
}

/// Linear Diophantine equations: offered on any equation; one whose left
/// side is a sum is kept unchanged.
pub open spec fn linear_diophantine_applies(e: Expr) -> bool {
    e matches Expr::Equation { .. }
}

/// The results of `linear_diophantine` on `e`, each with its justification.
pub open spec fn linear_diophantine_results(e: Expr) -> Seq<(Expr, Seq<char>)> {
    if e matches Expr::Equation { lhs, .. } && (*lhs matches Expr::Add(_, _)) {
        one(e, "Linear Diophantine: ax + by = c solvable iff gcd(a,b) | c"@)
    } else {
        none()
    }
}

/// Whether [`linear_diophantine_applies`] holds of `e`.
pub(crate) fn linear_diophantine_applicable(e: &Expr) -> (r: bool)
    ensures
        r == linear_diophantine_applies(*e),
{
    match e {
        Expr::Equation { .. } => true,
        _ => false,
    }
}

/// The results of `linear_diophantine` on `e`, as [`linear_diophantine_results`] states.
pub(crate) fn linear_diophantine_apply(e: &Expr) -> (v: Vec<RuleApplication>)
    ensures
        apps_view(v@) == linear_diophantine_results(*e),
{
    match e {
        Expr::Equation { lhs, .. } => match &**lhs {
            Expr::Add(_, _) => single(copy_expr(e), "Linear Diophantine: ax + by = c solvable iff gcd(a,b) | c"),
            _ => nothing(),
        },
        _ => nothing(),
    }
}

/// Pell's equation: offered on `a - b = 1`; any equation is kept unchanged.
pub open spec fn pell_equation_applies(e: Expr) -> bool {
    e matches Expr::Equation { lhs, rhs } && is_lit(*rhs, 1) && (*lhs matches Expr::Sub(_, _))
}

/// The results of `pell_equation` on `e`, each with its justification.
pub open spec fn pell_equation_results(e: Expr) -> Seq<(Expr, Seq<char>)> {
    if e matches Expr::Equation { .. } {
        one(e, "Pell equation x² - Dy² = 1 has infinitely many solutions via continued fractions"@)
    } else {
        none()
    }
}

/// Whether [`pell_equation_applies`] holds of `e`.
pub(crate) fn pell_equation_applicable(e: &Expr) -> (r: bool)
    ensures
        r == pell_equation_applies(*e),
{
    match e {
        Expr::Equation { lhs, rhs } => is_lit_e(rhs, 1) && match &**lhs {
            Expr::Sub(_, _) => true,
            _ => false,
        },
        _ => false,
    }
}

/// The results of `pell_equation` on `e`, as [`pell_equation_results`] states.
pub(crate) fn pell_equation_apply(e: &Expr) -> (v: Vec<RuleApplication>)
    ensures
        apps_view(v@) == pell_equation_results(*e),
{
    match e {
        Expr::Equation { .. } => single(copy_expr(e), "Pell equation x² - Dy² = 1 has infinitely many solutions via continued fractions"),
        _ => nothing(),
    }
}

// ---------------------------------------------------------------------------
// Divisor functions
// ---------------------------------------------------------------------------

/// The sum of the divisors of `n` among `1..=k`.
pub open spec fn divisor_sum_upto(n: int, k: nat) -> int
    decreases k,
{
    if k == 0 {
        0
    } else {
        divisor_sum_upto(n, (k - 1) as nat) + if n % (k as int) == 0 {
            k as int
        } else {
            0
        }
    }
}

/// The number of divisors of `n` among `1..=k`.
pub open spec fn divisor_count_upto(n: int, k: nat) -> int
    decreases k,
{
    if k == 0 {
        0
    } else {
        divisor_count_upto(n, (k - 1) as nat) + if n % (k as int) == 0 {
            1int
        } else {
            0
        }
    }
}

proof fn lemma_divisor_bounds(n: int, k: nat)
    ensures
        0 <= divisor_sum_upto(n, k) <= k * k,
        0 <= divisor_count_upto(n, k) <= k,
    decreases k,
{
    if k > 0 {
        lemma_divisor_bounds(n, (k - 1) as nat);
        assert((k - 1) * (k - 1) + k <= k * k) by (nonlinear_arith)
            requires
                k >= 1,
        ;
    }
}

/// `σ(n)`: the sum of the divisors of `n`.
pub open spec fn sigma(n: int) -> int {
    divisor_sum_upto(n, n as nat)
}

/// `τ(n)`: the number of divisors of `n`.
pub open spec fn tau(n: int) -> int {
    divisor_count_upto(n, n as nat)
}

/// Whether `e` is a positive integer constant below 1000.
pub open spec fn small_positive_integer(e: Expr) -> bool {
    e matches Expr::Const(c) && c.den() == 1 && 0 < c.num() < 1000
}

fn small_positive_integer_e(e: &Expr) -> (r: Option<i64>)
    ensures
        small_positive_integer(*e) <==> r is Some,
        r matches Some(n) ==> (*e matches Expr::Const(c) && c.num() == n),
{
    match e {
        Expr::Const(c) => {
            let n = c.numer();
            if c.is_integer() && n > 0 && n < 1000 {
                Some(n)
            } else {
                None
            }
        },
        _ => None,
    }
}

/// The text `Sum of divisors: σ(n) = s (sum of all divisors)`.
pub open spec fn sigma_text(n: int, s: int) -> Seq<char> {
    "Sum of divisors: σ("@ + decimal(n as nat) + ") = "@ + decimal(s as nat) + " (sum of all divisors)"@
}

/// `σ(n)` for a positive integer constant `n < 1000`; any other expression
/// is kept unchanged with the definition as justification.
pub open spec fn sum_of_divisors_applies(e: Expr) -> bool {
    small_positive_integer(e)
}

/// The results of `sum_of_divisors` on `e`, each with its justification.
pub open spec fn sum_of_divisors_results(e: Expr) -> Seq<(Expr, Seq<char>)> {
    if small_positive_integer(e) {
        let n = e->Const_0.num();
        one(lit(sigma(n)), sigma_text(n, sigma(n)))
    } else {
        one(e, "Sum of divisors: σ(n) = Σ d for all d | n"@)
    }
}

/// Whether [`sum_of_divisors_applies`] holds of `e`.
pub(crate) fn sum_of_divisors_applicable(e: &Expr) -> (r: bool)
    ensures
        r == sum_of_divisors_applies(*e),
{
    small_positive_integer_e(e).is_some()
}

/// The results of `sum_of_divisors` on `e`, as [`sum_of_divisors_results`] states.
pub(crate) fn sum_of_divisors_apply(e: &Expr) -> (v: Vec<RuleApplication>)
    ensures
        apps_view(v@) == sum_of_divisors_results(*e),
{
    match small_positive_integer_e(e) {
        Some(num) => {
            let mut sum: i64 = 0;
            let mut d: i64 = 1;
            while d <= num
                invariant
                    0 < num < 1000,
                    1 <= d <= num + 1,
                    sum == divisor_sum_upto(num as int, (d - 1) as nat),
                decreases num + 1 - d,
            {
                proof {
                    lemma_divisor_bounds(num as int, (d - 1) as nat);
                    assert((d - 1) * (d - 1) <= 1000 * 1000) by (nonlinear_arith)
                        requires
                            1 <= d <= 1000,
                    ;
                }
                if num % d == 0 {
                    sum = sum + d;
                }
                d = d + 1;
            }
            proof {
                lemma_divisor_bounds(num as int, num as nat);
            }
            let mut t = String::new();
            push_text(&mut t, "Sum of divisors: σ(");
            let s1 = decimal_string(num as u64);
            push_text(&mut t, s1.as_str());
            push_text(&mut t, ") = ");
            let s2 = decimal_string(sum as u64);
            push_text(&mut t, s2.as_str());
            push_text(&mut t, " (sum of all divisors)");
            assert(t@ =~= sigma_text(num as int, sum as int));
            let mut v: Vec<RuleApplication> = Vec::new();
            v.push(RuleApplication { result: mk_lit(sum), justification: t });
            assert(apps_view(v@) =~= sum_of_divisors_results(*e));
            v
        },
        None => single(copy_expr(e), "Sum of divisors: σ(n) = Σ d for all d | n"),
    }
}

/// The text `Number of divisors: τ(n) = c (count of all divisors)`.
pub open spec fn tau_text(n: int, c: int) -> Seq<char> {
    "Number of divisors: τ("@ + decimal(n as nat) + ") = "@ + decimal(c as nat) + " (count of all divisors)"@
}

/// `τ(n)` for a positive integer constant `n < 1000`; any other expression
/// is kept unchanged with the definition as justification.
pub open spec fn number_of_divisors_applies(e: Expr) -> bool {
    small_positive_integer(e)
}

/// The results of `number_of_divisors` on `e`, each with its justification.
pub open spec fn number_of_divisors_results(e: Expr) -> Seq<(Expr, Seq<char>)> {
    if small_positive_integer(e) {
        let n = e->Const_0.num();
        one(lit(tau(n)), tau_text(n, tau(n)))
    } else {
        one(e, "Number of divisors: τ(n) counts divisors of n"@)
    }
}

/// Whether [`number_of_divisors_applies`] holds of `e`.
pub(crate) fn number_of_divisors_applicable(e: &Expr) -> (r: bool)
    ensures
        r == number_of_divisors_applies(*e),
{
    small_positive_integer_e(e).is_some()
}

/// The results of `number_of_divisors` on `e`, as [`number_of_divisors_results`] states.
pub(crate) fn number_of_divisors_apply(e: &Expr) -> (v: Vec<RuleApplication>)
    ensures
        apps_view(v@) == number_of_divisors_results(*e),
{
    match small_positive_integer_e(e) {
        Some(num) => {
            let mut count: i64 = 0;
            let mut d: i64 = 1;
            while d <= num
                invariant
                    0 < num < 1000,
                    1 <= d <= num + 1,
                    count == divisor_count_upto(num as int, (d - 1) as nat),
                decreases num + 1 - d,
            {
                proof {
                    lemma_divisor_bounds(num as int, (d - 1) as nat);
                }
                if num % d == 0 {
                    count = count + 1;
                }
                d = d + 1;
            }
            proof {
                lemma_divisor_bounds(num as int, num as nat);
            }
            let mut t = String::new();
            push_text(&mut t, "Number of divisors: τ(");
            let s1 = decimal_string(num as u64);
            push_text(&mut t, s1.as_str());
            push_text(&mut t, ") = ");
            let s2 = decimal_string(count as u64);
            push_text(&mut t, s2.as_str());
            push_text(&mut t, " (count of all divisors)");
            assert(t@ =~= tau_text(num as int, count as int));
            let mut v: Vec<RuleApplication> = Vec::new();
            v.push(RuleApplication { result: mk_lit(count), justification: t });
            assert(apps_view(v@) =~= number_of_divisors_results(*e));
            v
        },
        None => single(copy_expr(e), "Number of divisors: τ(n) counts divisors of n"),
    }
}

// ---------------------------------------------------------------------------
// Annotating theorems
// ---------------------------------------------------------------------------

/// How many of `1..=m` are coprime to `n`.
pub open spec fn coprime_count(n: int, m: int) -> int
    decreases m,
{
    if m <= 0 {
        0
    } else {
        coprime_count(n, m - 1) + if gcd(m as nat, n as nat) == 1 { 1int } else { 0int }
    }
}

/// Euler's totient `φ(n)`: how many of `1..=n` are coprime to `n`.
pub open spec fn totient(n: int) -> int {
    coprime_count(n, n)
}

/// The integer an integer constant holds.
pub open spec fn integer_of(e: Expr) -> Option<int> {
    match e {
        Expr::Const(c) => if c.den() == 1 { Some(c.num()) } else { None },
        _ => None,
    }
}

/// `a^φ(n) mod n = 1` for constants with `n ≥ 2`, `gcd(a, n) = 1` and the
/// exponent exactly `φ(n)`.
pub open spec fn euler_theorem_applies(e: Expr) -> bool {
    e matches Expr::Mod(p, m) && (*p matches Expr::Pow(a, k) && {
        &&& integer_of(*a) is Some
        &&& integer_of(*k) is Some
        &&& integer_of(*m) is Some
        &&& integer_of(*m)->0 >= 2
        &&& gcd(abs(integer_of(*a)->0), integer_of(*m)->0 as nat) == 1
        &&& integer_of(*k)->0 == totient(integer_of(*m)->0)
    })
}

/// The results of `euler_theorem` on `e`, each with its justification.
pub open spec fn euler_theorem_results(e: Expr) -> Seq<(Expr, Seq<char>)> {
    if euler_theorem_applies(e) {
        one(lit(1), "Euler's Theorem: a^φ(n) ≡ 1 (mod n) for gcd(a,n)=1"@)
    } else {
        none()
    }
}

/// The integer an integer constant holds, as [`integer_of`] states.
fn integer_of_e(e: &Expr) -> (r: Option<i64>)
    ensures
        match r {
            Some(n) => integer_of(*e) == Some(n as int),
            None => integer_of(*e) is None,
        },
{
    match e {
        Expr::Const(c) => if c.is_integer() {
            Some(c.numer())
        } else {
            None
        },
        _ => None,
    }
}

/// `φ(n)`, counting the coprime residues one by one.
fn totient_exec(n: i64) -> (t: i64)
    requires
        n >= 2,
    ensures
        t == totient(n as int),
{
    let mut count: i64 = 0;
    let mut k: i64 = 1;
    while k < n
        invariant
            2 <= n,
            1 <= k <= n,
            count == coprime_count(n as int, k - 1),
            0 <= count < k,
        decreases n - k,
    {
        let g = gcd_u128(k as u128, n as u128);
        if g == 1 {
            count = count + 1;
        }
        k = k + 1;
    }
    proof {
        assert((n as nat) % (n as nat) == 0) by (nonlinear_arith)
            requires
                n >= 2,
        ;
        assert(gcd(n as nat, n as nat) == gcd(n as nat, 0));
    }
    count
}

/// Whether [`euler_theorem_applies`] holds of `e`.
pub(crate) fn euler_theorem_applicable(e: &Expr) -> (r: bool)
    ensures
        r == euler_theorem_applies(*e),
{
    if let Expr::Mod(p, m) = e {
        if let Expr::Pow(a, k) = &**p {
            match (integer_of_e(a), integer_of_e(k), integer_of_e(m)) {
                (Some(av), Some(kv), Some(mv)) => {
                    if mv < 2 {
                        return false;
                    }
                    let abs_a: u128 = if av < 0 { (0 - (av as i128)) as u128 } else { av as u128 };
                    if gcd_u128(abs_a, mv as u128) != 1 {
                        return false;
                    }
                    return kv == totient_exec(mv);
                },
                _ => return false,
            }
        }
    }
    false
}

/// The results of `euler_theorem` on `e`, as [`euler_theorem_results`] states.
pub(crate) fn euler_theorem_apply(e: &Expr) -> (v: Vec<RuleApplication>)
    ensures
        apps_view(v@) == euler_theorem_results(*e),
{
    if euler_theorem_applicable(e) {
        single(mk_lit(1), "Euler's Theorem: a^φ(n) ≡ 1 (mod n) for gcd(a,n)=1")
    } else {
        nothing()
    }
}

/// `φ(mn) = φ(m)φ(n)`: a product is rebuilt unchanged.
pub open spec fn euler_phi_multiplicative_applies(e: Expr) -> bool {
    (e matches Expr::Mul(_, _))
}

/// The results of `euler_phi_multiplicative` on `e`, each with its justification.
pub open spec fn euler_phi_multiplicative_results(e: Expr) -> Seq<(Expr, Seq<char>)> {
    match e {
        Expr::Mul(m, n) => one(Expr::Mul(Box::new(*m), Box::new(*n)), "φ(mn) = φ(m)φ(n) for coprime m, n (Euler phi multiplicativity)"@),
        _ => none(),
    }
}

/// Whether [`euler_phi_multiplicative_applies`] holds of `e`.
pub(crate) fn euler_phi_multiplicative_applicable(e: &Expr) -> (r: bool)
    ensures
        r == euler_phi_multiplicative_applies(*e),
{
    (match e {
        Expr::Mul(_, _) => true,
        _ => false,
    })
}

/// The results of `euler_phi_multiplicative` on `e`, as [`euler_phi_multiplicative_results`] states.
pub(crate) fn euler_phi_multiplicative_apply(e: &Expr) -> (v: Vec<RuleApplication>)
    ensures
        apps_view(v@) == euler_phi_multiplicative_results(*e),
{
    match e {
        Expr::Mul(m, n) => single(Expr::Mul(Box::new(copy_expr(m)), Box::new(copy_expr(n))), "φ(mn) = φ(m)φ(n) for coprime m, n (Euler phi multiplicativity)"),
        _ => nothing(),
    }
}

/// `φ(p^k) = p^k - p^(k-1)`.
pub open spec fn euler_phi_prime_power_applies(e: Expr) -> bool {
    (e matches Expr::Pow(_, _))
}

/// The results of `euler_phi_prime_power` on `e`, each with its justification.
pub open spec fn euler_phi_prime_power_results(e: Expr) -> Seq<(Expr, Seq<char>)> {
    match e {
        Expr::Pow(p, k) => one(Expr::Sub(Box::new(e), Box::new(Expr::Pow(Box::new(*p), Box::new(Expr::Sub(Box::new(*k), Box::new(lit(1))))))), "φ(p^k) = p^k - p^(k-1) for prime p"@),
        _ => none(),
    }
}

/// Whether [`euler_phi_prime_power_applies`] holds of `e`.
pub(crate) fn euler_phi_prime_power_applicable(e: &Expr) -> (r: bool)
    ensures
        r == euler_phi_prime_power_applies(*e),
{
    (match e {
        Expr::Pow(_, _) => true,
        _ => false,
    })
}

/// The results of `euler_phi_prime_power` on `e`, as [`euler_phi_prime_power_results`] states.
pub(crate) fn euler_phi_prime_power_apply(e: &Expr) -> (v: Vec<RuleApplication>)
    ensures
        apps_view(v@) == euler_phi_prime_power_results(*e),
{
    match e {
        Expr::Pow(p, k) => single(Expr::Sub(Box::new(copy_expr(e)), Box::new(Expr::Pow(Box::new(copy_expr(p)), Box::new(Expr::Sub(Box::new(copy_expr(k)), Box::new(mk_lit(1))))))), "φ(p^k) = p^k - p^(k-1) for prime p"),
        _ => nothing(),
    }
}

/// The Chinese remainder theorem, offered on an equation; the equation is rebuilt unchanged.
pub open spec fn chinese_remainder_theorem_applies(e: Expr) -> bool {
    (e matches Expr::Equation { .. })
}

/// The results of `chinese_remainder_theorem` on `e`, each with its justification.
pub open spec fn chinese_remainder_theorem_results(e: Expr) -> Seq<(Expr, Seq<char>)> {
    if chinese_remainder_theorem_applies(e) {
        one(e, "CRT: System x ≡ a_i (mod m_i) has unique solution mod Π m_i for coprime m_i"@)
    } else {
        none()
    }
}

/// Whether [`chinese_remainder_theorem_applies`] holds of `e`.
pub(crate) fn chinese_remainder_theorem_applicable(e: &Expr) -> (r: bool)
    ensures
        r == chinese_remainder_theorem_applies(*e),
{
    (match e { Expr::Equation { .. } => true, _ => false })
}

/// The results of `chinese_remainder_theorem` on `e`, as [`chinese_remainder_theorem_results`] states.
pub(crate) fn chinese_remainder_theorem_apply(e: &Expr) -> (v: Vec<RuleApplication>)
    ensures
        apps_view(v@) == chinese_remainder_theorem_results(*e),
{
    if chinese_remainder_theorem_applicable(e) {
        single(copy_expr(e), "CRT: System x ≡ a_i (mod m_i) has unique solution mod Π m_i for coprime m_i")
    } else {
        nothing()
    }
}

/// Quadratic residues, offered on a square modulo anything; any remainder is kept unchanged.
pub open spec fn quadratic_residue_applies(e: Expr) -> bool {
    (e matches Expr::Mod(a16, a17) && (*a16 matches Expr::Pow(a18, a19) && is_lit(*a19, 2)))
}

/// The results of `quadratic_residue` on `e`, each with its justification.
pub open spec fn quadratic_residue_results(e: Expr) -> Seq<(Expr, Seq<char>)> {
    match e {
        Expr::Mod(_, _) => one(e, "a is a quadratic residue mod p if a = x² (mod p) has a solution"@),
        _ => none(),
    }
}

/// Whether [`quadratic_residue_applies`] holds of `e`.
pub(crate) fn quadratic_residue_applicable(e: &Expr) -> (r: bool)
    ensures
        r == quadratic_residue_applies(*e),
{
    (match e {
        Expr::Mod(a20, _) => (match &**a20 {
                Expr::Pow(_, a23) => is_lit_e(&**a23, 2),
                _ => false,
            }),
        _ => false,
    })
}

/// The results of `quadratic_residue` on `e`, as [`quadratic_residue_results`] states.
pub(crate) fn quadratic_residue_apply(e: &Expr) -> (v: Vec<RuleApplication>)
    ensures
        apps_view(v@) == quadratic_residue_results(*e),
{
    match e {
        Expr::Mod(_, _) => single(copy_expr(e), "a is a quadratic residue mod p if a = x² (mod p) has a solution"),
        _ => nothing(),
    }
}

/// `(ab/p) = (a/p)(b/p)`: a product is rebuilt unchanged.
pub open spec fn legendre_symbol_multiplicative_applies(e: Expr) -> bool {
    (e matches Expr::Mul(_, _))
}

/// The results of `legendre_symbol_multiplicative` on `e`, each with its justification.
pub open spec fn legendre_symbol_multiplicative_results(e: Expr) -> Seq<(Expr, Seq<char>)> {
    match e {
        Expr::Mul(a, b) => one(Expr::Mul(Box::new(*a), Box::new(*b)), "Legendre symbol is multiplicative: (ab/p) = (a/p)(b/p)"@),
        _ => none(),
    }
}

/// Whether [`legendre_symbol_multiplicative_applies`] holds of `e`.
pub(crate) fn legendre_symbol_multiplicative_applicable(e: &Expr) -> (r: bool)
    ensures
        r == legendre_symbol_multiplicative_applies(*e),
{
    (match e {
        Expr::Mul(_, _) => true,
        _ => false,
    })
}

/// The results of `legendre_symbol_multiplicative` on `e`, as [`legendre_symbol_multiplicative_results`] states.
pub(crate) fn legendre_symbol_multiplicative_apply(e: &Expr) -> (v: Vec<RuleApplication>)
    ensures
        apps_view(v@) == legendre_symbol_multiplicative_results(*e),
{
    match e {
        Expr::Mul(a, b) => single(Expr::Mul(Box::new(copy_expr(a)), Box::new(copy_expr(b))), "Legendre symbol is multiplicative: (ab/p) = (a/p)(b/p)"),
        _ => nothing(),
    }
}

/// Euler's criterion, offered on a power modulo anything; any remainder gives 1.
pub open spec fn euler_criterion_applies(e: Expr) -> bool {
    (e matches Expr::Mod(a28, a29) && (*a28 matches Expr::Pow(_, _)))
}

/// The results of `euler_criterion` on `e`, each with its justification.
pub open spec fn euler_criterion_results(e: Expr) -> Seq<(Expr, Seq<char>)> {
    match e {
        Expr::Mod(_, _) => one(lit(1), "Euler's criterion: (a/p) = a^((p-1)/2) mod p = ±1 or 0"@),
        _ => none(),
    }
}

/// Whether [`euler_criterion_applies`] holds of `e`.
pub(crate) fn euler_criterion_applicable(e: &Expr) -> (r: bool)
    ensures
        r == euler_criterion_applies(*e),
{
    (match e {
        Expr::Mod(a32, _) => (match &**a32 {
                Expr::Pow(_, _) => true,
                _ => false,
            }),
        _ => false,
    })
}

/// The results of `euler_criterion` on `e`, as [`euler_criterion_results`] states.
pub(crate) fn euler_criterion_apply(e: &Expr) -> (v: Vec<RuleApplication>)
    ensures
        apps_view(v@) == euler_criterion_results(*e),
{
    match e {
        Expr::Mod(_, _) => single(mk_lit(1), "Euler's criterion: (a/p) = a^((p-1)/2) mod p = ±1 or 0"),
        _ => nothing(),
    }
}

/// Bertrand's postulate, offered on `>` and `<`; any expression gives 1 (true).
pub open spec fn bertrand_postulate_applies(e: Expr) -> bool {
    ((e matches Expr::Gt(_, _)) || (e matches Expr::Lt(_, _)))
}

/// The results of `bertrand_postulate` on `e`, each with its justification.
pub open spec fn bertrand_postulate_results(e: Expr) -> Seq<(Expr, Seq<char>)> {
    one(lit(1), "Bertrand's postulate: For n > 1, ∃ prime p with n < p < 2n"@)
}

/// Whether [`bertrand_postulate_applies`] holds of `e`.
pub(crate) fn bertrand_postulate_applicable(e: &Expr) -> (r: bool)
    ensures
        r == bertrand_postulate_applies(*e),
{
    ((match e {
        Expr::Gt(_, _) => true,
        _ => false,
    }) || (match e {
        Expr::Lt(_, _) => true,
        _ => false,
    }))
}

/// The results of `bertrand_postulate` on `e`, as [`bertrand_postulate_results`] states.
pub(crate) fn bertrand_postulate_apply(e: &Expr) -> (v: Vec<RuleApplication>)
    ensures
        apps_view(v@) == bertrand_postulate_results(*e),
{
    single(mk_lit(1), "Bertrand's postulate: For n > 1, ∃ prime p with n < p < 2n")
}

/// The sum-of-two-squares condition, offered on a sum of two squares; any expression is kept unchanged.
pub open spec fn sum_of_two_squares_applies(e: Expr) -> bool {
    (e matches Expr::Add(a44, a45) && (*a44 matches Expr::Pow(a46, a47) && is_lit(*a47, 2)) && (*a45 matches Expr::Pow(a48, a49) && is_lit(*a49, 2)))
}

/// The results of `sum_of_two_squares` on `e`, each with its justification.
pub open spec fn sum_of_two_squares_results(e: Expr) -> Seq<(Expr, Seq<char>)> {
    one(e, "n = a² + b² iff primes ≡ 3 (mod 4) have even exponents in n's factorization"@)
}

/// Whether [`sum_of_two_squares_applies`] holds of `e`.
pub(crate) fn sum_of_two_squares_applicable(e: &Expr) -> (r: bool)
    ensures
        r == sum_of_two_squares_applies(*e),
{
    (match e {
        Expr::Add(a50, a51) => (match &**a50 {
                Expr::Pow(_, a53) => is_lit_e(&**a53, 2),
                _ => false,
            }) && (match &**a51 {
                Expr::Pow(_, a55) => is_lit_e(&**a55, 2),
                _ => false,
            }),
        _ => false,
    })
}

/// The results of `sum_of_two_squares` on `e`, as [`sum_of_two_squares_results`] states.
pub(crate) fn sum_of_two_squares_apply(e: &Expr) -> (v: Vec<RuleApplication>)
    ensures
        apps_view(v@) == sum_of_two_squares_results(*e),
{
    single(copy_expr(e), "n = a² + b² iff primes ≡ 3 (mod 4) have even exponents in n's factorization")
}

/// Lagrange's four-square theorem, offered on a non-negative constant; any expression is kept unchanged.
pub open spec fn sum_of_four_squares_applies(e: Expr) -> bool {
    (e matches Expr::Const(c) && c.num() >= 0)
}

/// The results of `sum_of_four_squares` on `e`, each with its justification.
pub open spec fn sum_of_four_squares_results(e: Expr) -> Seq<(Expr, Seq<char>)> {
    one(e, "Lagrange's four square theorem: Every positive integer is a sum of four squares"@)
}

/// Whether [`sum_of_four_squares_applies`] holds of `e`.
pub(crate) fn sum_of_four_squares_applicable(e: &Expr) -> (r: bool)
    ensures
        r == sum_of_four_squares_applies(*e),
{
    (match e { Expr::Const(c) => !c.is_negative(), _ => false })
}

/// The results of `sum_of_four_squares` on `e`, as [`sum_of_four_squares_results`] states.
pub(crate) fn sum_of_four_squares_apply(e: &Expr) -> (v: Vec<RuleApplication>)
    ensures
        apps_view(v@) == sum_of_four_squares_results(*e),
{
    single(copy_expr(e), "Lagrange's four square theorem: Every positive integer is a sum of four squares")
}

/// Wilson's theorem, offered on a factorial modulo anything; any expression gives -1.
pub open spec fn wilson_theorem_applies(e: Expr) -> bool {
    (e matches Expr::Mod(a56, a57) && (*a56 matches Expr::Factorial(_)))
}

/// The results of `wilson_theorem` on `e`, each with its justification.
pub open spec fn wilson_theorem_results(e: Expr) -> Seq<(Expr, Seq<char>)> {
    one(Expr::Neg(Box::new(lit(1))), "Wilson's theorem: (p-1)! ≡ -1 (mod p) for prime p"@)
}

/// Whether [`wilson_theorem_applies`] holds of `e`.
pub(crate) fn wilson_theorem_applicable(e: &Expr) -> (r: bool)
    ensures
        r == wilson_theorem_applies(*e),
{
    (match e {
        Expr::Mod(a59, _) => (match &**a59 {
                Expr::Factorial(_) => true,
                _ => false,
            }),
        _ => false,
    })
}

/// The results of `wilson_theorem` on `e`, as [`wilson_theorem_results`] states.
pub(crate) fn wilson_theorem_apply(e: &Expr) -> (v: Vec<RuleApplication>)
    ensures
        apps_view(v@) == wilson_theorem_results(*e),
{
    single(Expr::Neg(Box::new(mk_lit(1))), "Wilson's theorem: (p-1)! ≡ -1 (mod p) for prime p")
}

/// Hensel's lemma, offered on a remainder or an equation; any expression is kept unchanged.
pub open spec fn hensel_lemma_applies(e: Expr) -> bool {
    ((e matches Expr::Mod(_, _)) || (e matches Expr::Equation { .. }))
}

/// The results of `hensel_lemma` on `e`, each with its justification.
pub open spec fn hensel_lemma_results(e: Expr) -> Seq<(Expr, Seq<char>)> {
    one(e, "Hensel's lemma: Solutions mod p can be lifted to solutions mod p^k"@)
}

/// Whether [`hensel_lemma_applies`] holds of `e`.
pub(crate) fn hensel_lemma_applicable(e: &Expr) -> (r: bool)
    ensures
        r == hensel_lemma_applies(*e),
{
    ((match e {
        Expr::Mod(_, _) => true,
        _ => false,
    }) || (match e { Expr::Equation { .. } => true, _ => false }))
}

/// The results of `hensel_lemma` on `e`, as [`hensel_lemma_results`] states.
pub(crate) fn hensel_lemma_apply(e: &Expr) -> (v: Vec<RuleApplication>)
    ensures
        apps_view(v@) == hensel_lemma_results(*e),
{
    single(copy_expr(e), "Hensel's lemma: Solutions mod p can be lifted to solutions mod p^k")
}

/// `ord_n(a) | φ(n)`, offered on a gcd or a remainder; any expression is kept unchanged.
pub open spec fn order_divides_phi_applies(e: Expr) -> bool {
    ((e matches Expr::GCD(_, _)) || (e matches Expr::Mod(_, _)))
}

/// The results of `order_divides_phi` on `e`, each with its justification.
pub open spec fn order_divides_phi_results(e: Expr) -> Seq<(Expr, Seq<char>)> {
    one(e, "Order divides phi: ord_n(a) | φ(n) for gcd(a,n)=1"@)
}

/// Whether [`order_divides_phi_applies`] holds of `e`.
pub(crate) fn order_divides_phi_applicable(e: &Expr) -> (r: bool)
    ensures
        r == order_divides_phi_applies(*e),
{
    ((match e {
        Expr::GCD(_, _) => true,
        _ => false,
    }) || (match e {
        Expr::Mod(_, _) => true,
        _ => false,
    }))
}

/// The results of `order_divides_phi` on `e`, as [`order_divides_phi_results`] states.
pub(crate) fn order_divides_phi_apply(e: &Expr) -> (v: Vec<RuleApplication>)
    ensures
        apps_view(v@) == order_divides_phi_results(*e),
{
    single(copy_expr(e), "Order divides phi: ord_n(a) | φ(n) for gcd(a,n)=1")
}

/// The existence of primitive roots, offered on a constant or a power; any expression is kept unchanged.
pub open spec fn primitive_root_existence_applies(e: Expr) -> bool {
    ((e matches Expr::Const(_)) || (e matches Expr::Pow(_, _)))
}

/// The results of `primitive_root_existence` on `e`, each with its justification.
pub open spec fn primitive_root_existence_results(e: Expr) -> Seq<(Expr, Seq<char>)> {
    one(e, "Primitive roots exist for n = 1, 2, 4, p^k, 2p^k (odd prime p)"@)
}

/// Whether [`primitive_root_existence_applies`] holds of `e`.
pub(crate) fn primitive_root_existence_applicable(e: &Expr) -> (r: bool)
    ensures
        r == primitive_root_existence_applies(*e),
{
    (is_const_e(e) || (match e {
        Expr::Pow(_, _) => true,
        _ => false,
    }))
}

/// The results of `primitive_root_existence` on `e`, as [`primitive_root_existence_results`] states.
pub(crate) fn primitive_root_existence_apply(e: &Expr) -> (v: Vec<RuleApplication>)
    ensures
        apps_view(v@) == primitive_root_existence_results(*e),
{
    single(copy_expr(e), "Primitive roots exist for n = 1, 2, 4, p^k, 2p^k (odd prime p)")
}

/// `μ(mn) = μ(m)μ(n)`: a product is rebuilt unchanged.
pub open spec fn mobius_multiplicative_applies(e: Expr) -> bool {
    (e matches Expr::Mul(_, _))
}

/// The results of `mobius_multiplicative` on `e`, each with its justification.
pub open spec fn mobius_multiplicative_results(e: Expr) -> Seq<(Expr, Seq<char>)> {
    match e {
        Expr::Mul(m, n) => one(Expr::Mul(Box::new(*m), Box::new(*n)), "μ(mn) = μ(m)μ(n) for coprime m, n (Mobius is multiplicative)"@),
        _ => none(),
    }
}

/// Whether [`mobius_multiplicative_applies`] holds of `e`.
pub(crate) fn mobius_multiplicative_applicable(e: &Expr) -> (r: bool)
    ensures
        r == mobius_multiplicative_applies(*e),
{
    (match e {
        Expr::Mul(_, _) => true,
        _ => false,
    })
}

/// The results of `mobius_multiplicative` on `e`, as [`mobius_multiplicative_results`] states.
pub(crate) fn mobius_multiplicative_apply(e: &Expr) -> (v: Vec<RuleApplication>)
    ensures
        apps_view(v@) == mobius_multiplicative_results(*e),
{
    match e {
        Expr::Mul(m, n) => single(Expr::Mul(Box::new(copy_expr(m)), Box::new(copy_expr(n))), "μ(mn) = μ(m)μ(n) for coprime m, n (Mobius is multiplicative)"),
        _ => nothing(),
    }
}

/// The Euclid–Euler form, offered on `2^… · (… - …)`; any expression is kept unchanged.
pub open spec fn even_perfect_number_applies(e: Expr) -> bool {
    (e matches Expr::Mul(a82, a83) && (*a82 matches Expr::Pow(_, _)) && (*a83 matches Expr::Sub(_, _)))
}

/// The results of `even_perfect_number` on `e`, each with its justification.
pub open spec fn even_perfect_number_results(e: Expr) -> Seq<(Expr, Seq<char>)> {
    one(e, "Euclid-Euler: Even perfect numbers have form 2^(p-1)(2^p - 1) where 2^p - 1 is prime"@)
}

/// Whether [`even_perfect_number_applies`] holds of `e`.
pub(crate) fn even_perfect_number_applicable(e: &Expr) -> (r: bool)
    ensures
        r == even_perfect_number_applies(*e),
{
    (match e {
        Expr::Mul(a88, a89) => (match &**a88 {
                Expr::Pow(_, _) => true,
                _ => false,
            }) && (match &**a89 {
                Expr::Sub(_, _) => true,
                _ => false,
            }),
        _ => false,
    })
}

/// The results of `even_perfect_number` on `e`, as [`even_perfect_number_results`] states.
pub(crate) fn even_perfect_number_apply(e: &Expr) -> (v: Vec<RuleApplication>)
    ensures
        apps_view(v@) == even_perfect_number_results(*e),
{
    single(copy_expr(e), "Euclid-Euler: Even perfect numbers have form 2^(p-1)(2^p - 1) where 2^p - 1 is prime")
}

/// The Mersenne condition, offered on `a^b - 1`; any expression gives 1 (true).
pub open spec fn mersenne_prime_condition_applies(e: Expr) -> bool {
    (e matches Expr::Sub(a94, a95) && (*a94 matches Expr::Pow(_, _)) && is_lit(*a95, 1))
}

/// The results of `mersenne_prime_condition` on `e`, each with its justification.
pub open spec fn mersenne_prime_condition_results(e: Expr) -> Seq<(Expr, Seq<char>)> {
    one(lit(1), "Mersenne prime condition: If 2^p - 1 is prime, then p must be prime"@)
}

/// Whether [`mersenne_prime_condition_applies`] holds of `e`.
pub(crate) fn mersenne_prime_condition_applicable(e: &Expr) -> (r: bool)
    ensures
        r == mersenne_prime_condition_applies(*e),
{
    (match e {
        Expr::Sub(a98, a99) => (match &**a98 {
                Expr::Pow(_, _) => true,
                _ => false,
            }) && is_lit_e(&**a99, 1),
        _ => false,
    })
}

/// The results of `mersenne_prime_condition` on `e`, as [`mersenne_prime_condition_results`] states.
pub(crate) fn mersenne_prime_condition_apply(e: &Expr) -> (v: Vec<RuleApplication>)
    ensures
        apps_view(v@) == mersenne_prime_condition_results(*e),
{
    single(mk_lit(1), "Mersenne prime condition: If 2^p - 1 is prime, then p must be prime")
}

/// The density `6/π^k` of square-free integers; any expression is kept unchanged.
pub open spec fn square_free_density_applies(e: Expr) -> bool {
    (e matches Expr::Div(a102, a103) && is_lit(*a102, 6) && (*a103 matches Expr::Pow(a104, a105) && (*a104 matches Expr::Pi)))
}

/// The results of `square_free_density` on `e`, each with its justification.
pub open spec fn square_free_density_results(e: Expr) -> Seq<(Expr, Seq<char>)> {
    one(e, "Density of square-free integers is 6/π² = 1/ζ(2)"@)
}

/// Whether [`square_free_density_applies`] holds of `e`.
pub(crate) fn square_free_density_applicable(e: &Expr) -> (r: bool)
    ensures
        r == square_free_density_applies(*e),
{
    (match e {
        Expr::Div(a106, a107) => is_lit_e(&**a106, 6) && (match &**a107 {
                Expr::Pow(a108, _) => (match &**a108 { Expr::Pi => true, _ => false }),
                _ => false,
            }),
        _ => false,
    })
}

/// The results of `square_free_density` on `e`, as [`square_free_density_results`] states.
pub(crate) fn square_free_density_apply(e: &Expr) -> (v: Vec<RuleApplication>)
    ensures
        apps_view(v@) == square_free_density_results(*e),
{
    single(copy_expr(e), "Density of square-free integers is 6/π² = 1/ζ(2)")
}

/// Sophie Germain primes, offered on `a·b + 1`; any expression gives 1 (true).
pub open spec fn sophie_germain_prime_applies(e: Expr) -> bool {
    (e matches Expr::Add(a110, a111) && (*a110 matches Expr::Mul(_, _)) && is_lit(*a111, 1))
}

/// The results of `sophie_germain_prime` on `e`, each with its justification.
pub open spec fn sophie_germain_prime_results(e: Expr) -> Seq<(Expr, Seq<char>)> {
    one(lit(1), "Sophie Germain prime: Both p and 2p+1 are prime"@)
}

/// Whether [`sophie_germain_prime_applies`] holds of `e`.
pub(crate) fn sophie_germain_prime_applicable(e: &Expr) -> (r: bool)
    ensures
        r == sophie_germain_prime_applies(*e),
{
    (match e {
        Expr::Add(a114, a115) => (match &**a114 {
                Expr::Mul(_, _) => true,
                _ => false,
            }) && is_lit_e(&**a115, 1),
        _ => false,
    })
}

/// The results of `sophie_germain_prime` on `e`, as [`sophie_germain_prime_results`] states.
pub(crate) fn sophie_germain_prime_apply(e: &Expr) -> (v: Vec<RuleApplication>)
    ensures
        apps_view(v@) == sophie_germain_prime_results(*e),
{
    single(mk_lit(1), "Sophie Germain prime: Both p and 2p+1 are prime")
}

/// Farey neighbours, offered on a difference or an absolute value; any expression gives 1.
pub open spec fn farey_neighbors_applies(e: Expr) -> bool {
    ((e matches Expr::Sub(_, _)) || (e matches Expr::Abs(_)))
}

/// The results of `farey_neighbors` on `e`, each with its justification.
pub open spec fn farey_neighbors_results(e: Expr) -> Seq<(Expr, Seq<char>)> {
    one(lit(1), "Farey neighbors: Adjacent fractions a/b and c/d satisfy |ad - bc| = 1"@)
}

/// Whether [`farey_neighbors_applies`] holds of `e`.
pub(crate) fn farey_neighbors_applicable(e: &Expr) -> (r: bool)
    ensures
        r == farey_neighbors_applies(*e),
{
    ((match e {
        Expr::Sub(_, _) => true,
        _ => false,
    }) || (match e {
        Expr::Abs(_) => true,
        _ => false,
    }))
}

/// The results of `farey_neighbors` on `e`, as [`farey_neighbors_results`] states.
pub(crate) fn farey_neighbors_apply(e: &Expr) -> (v: Vec<RuleApplication>)
    ensures
        apps_view(v@) == farey_neighbors_results(*e),
{
    single(mk_lit(1), "Farey neighbors: Adjacent fractions a/b and c/d satisfy |ad - bc| = 1")
}

/// The Gaussian norm, offered on a sum of two powers; any expression is kept unchanged.
pub open spec fn gaussian_norm_applies(e: Expr) -> bool {
    (e matches Expr::Add(a124, a125) && (*a124 matches Expr::Pow(_, _)) && (*a125 matches Expr::Pow(_, _)))
}

/// The results of `gaussian_norm` on `e`, each with its justification.
pub open spec fn gaussian_norm_results(e: Expr) -> Seq<(Expr, Seq<char>)> {
    one(e, "Gaussian norm: N(a+bi) = a² + b² is multiplicative"@)
}

/// Whether [`gaussian_norm_applies`] holds of `e`.
pub(crate) fn gaussian_norm_applicable(e: &Expr) -> (r: bool)
    ensures
        r == gaussian_norm_applies(*e),
{
    (match e {
        Expr::Add(a130, a131) => (match &**a130 {
                Expr::Pow(_, _) => true,
                _ => false,
            }) && (match &**a131 {
                Expr::Pow(_, _) => true,
                _ => false,
            }),
        _ => false,
    })
}

/// The results of `gaussian_norm` on `e`, as [`gaussian_norm_results`] states.
pub(crate) fn gaussian_norm_apply(e: &Expr) -> (v: Vec<RuleApplication>)
    ensures
        apps_view(v@) == gaussian_norm_results(*e),
{
    single(copy_expr(e), "Gaussian norm: N(a+bi) = a² + b² is multiplicative")
}

/// Möbius inversion, offered on a quotient or a sum; any expression is kept unchanged.
pub open spec fn mobius_inversion_applies(e: Expr) -> bool {
    ((e matches Expr::Div(_, _)) || (e matches Expr::Add(_, _)))
}

/// The results of `mobius_inversion` on `e`, each with its justification.
pub open spec fn mobius_inversion_results(e: Expr) -> Seq<(Expr, Seq<char>)> {
    one(e, "Möbius inversion: f(n) = Σ g(d) ⇒ g(n) = Σ μ(d)f(n/d)"@)
}

/// Whether [`mobius_inversion_applies`] holds of `e`.
pub(crate) fn mobius_inversion_applicable(e: &Expr) -> (r: bool)
    ensures
        r == mobius_inversion_applies(*e),
{
    ((match e {
        Expr::Div(_, _) => true,
        _ => false,
    }) || (match e {
        Expr::Add(_, _) => true,
        _ => false,
    }))
}

/// The results of `mobius_inversion` on `e`, as [`mobius_inversion_results`] states.
pub(crate) fn mobius_inversion_apply(e: &Expr) -> (v: Vec<RuleApplication>)
    ensures
        apps_view(v@) == mobius_inversion_results(*e),
{
    single(copy_expr(e), "Möbius inversion: f(n) = Σ g(d) ⇒ g(n) = Σ μ(d)f(n/d)")
}

} // verus!
