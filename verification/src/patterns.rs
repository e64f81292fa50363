//! Recognising standard integral forms.
//!
//! [`match_integral_pattern`] tells the integration rules which formula an
//! integrand calls for.

use vstd::prelude::*;
use crate::expr::{copy_expr, Expr};

verus! {

/// Standard forms of integrands.
#[derive(Debug, Clone)]
pub enum IntegralForm {
    /// `base^exponent`.
    PowerRule(Expr, Expr),
    /// `1/x`.
    Logarithmic,
    /// `e^u`, with its argument.
    Exponential(Expr),
    /// `sin(u)`, with its argument.
    TrigSin(Expr),
    /// `cos(u)`, with its argument.
    TrigCos(Expr),
    /// None of the above.
    Unknown,
}

/// The standard form of an integrand: a power, a quotient with numerator
/// the constant 1, an exponential, a sine or a cosine; `None` otherwise.
pub open spec fn integral_form_view(e: Expr) -> Option<IntegralForm> {
    match e {
        Expr::Pow(base, exp) => Some(IntegralForm::PowerRule(*base, *exp)),
        Expr::Div(num, _) => match *num {
            Expr::Const(c) => if c.pair() == (1int, 1int) {
                Some(IntegralForm::Logarithmic)
            } else {
                None
            },
            _ => None,
        },
        Expr::Exp(arg) => Some(IntegralForm::Exponential(*arg)),
        Expr::Sin(arg) => Some(IntegralForm::TrigSin(*arg)),
        Expr::Cos(arg) => Some(IntegralForm::TrigCos(*arg)),
        _ => None,
    }
}

/// The standard integral form of `expr`, as [`integral_form_view`] states.
pub fn match_integral_pattern(expr: &Expr) -> (r: Option<IntegralForm>)
    ensures
        r == integral_form_view(*expr),
{
    match expr {
        Expr::Pow(base, exp) => Some(IntegralForm::PowerRule(copy_expr(base), copy_expr(exp))),
        Expr::Div(num, _denom) => {
            match &**num {
                Expr::Const(c) => {
                    if c.is_one() {
                        Some(IntegralForm::Logarithmic)
                    } else {
                        None
                    }
                },
                _ => None,
            }
        },
        Expr::Exp(arg) => Some(IntegralForm::Exponential(copy_expr(arg))),
        Expr::Sin(arg) => Some(IntegralForm::TrigSin(copy_expr(arg))),
        Expr::Cos(arg) => Some(IntegralForm::TrigCos(copy_expr(arg))),
        _ => None,
    }
}

} // verus!
