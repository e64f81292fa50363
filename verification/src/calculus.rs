//! Calculus rules: derivatives, integrals, limits, series and multivariable calculus.
//!
//! Each group function returns the metadata of its rules in registration
//! order; its contract fixes every field of every rule.

use vstd::prelude::*;
use crate::expr::{copy_expr, Expr, Symbol};
use crate::polynomial::{div_trunc, tdiv};
use crate::rational::{
    fits, lemma_normalize, lemma_normalize_reduced, lemma_rat_of_pair, lemma_rat_pair, lowest, normalize, pow_fits, radd, rat, rdiv,
    rmul, rpow, rsub, Rational,
};
use crate::rewrite::{lit, mk_lit};
use crate::rewrite::{results, Rewrite};
use crate::rewrite_derivative::d;
use crate::rule::{ids_of, names_of, rule_view, rules_view, RuleMeta, Domain, Feature, Rule, RuleCategory, RuleId};

verus! {
/// Identifiers of the rules of [`advanced_calculus_rules`], in order.
pub open spec fn advanced_calculus_rules_ids() -> Seq<u32> {
    seq![900u32, 901u32, 902u32, 903u32, 904u32, 905u32, 906u32, 409u32, 476u32, 475u32, 411u32, 412u32, 472u32, 473u32, 474u32, 413u32, 414u32, 415u32, 416u32, 417u32, 418u32]
}

/// Names of the rules of [`advanced_calculus_rules`], in order.
pub open spec fn advanced_calculus_rules_names() -> Seq<Seq<char>> {
    seq!["chain_rule_tan"@, "chain_rule_exp"@, "chain_rule_ln"@, "inverse_trig_deriv_arcsin"@, "diff_rule"@, "constant_multiple_rule"@, "constant_base_exp_simple"@, "constant_base_exp_chain"@, "sqrt_chain_rule"@, "general_power_rule"@, "log_base_simple"@, "log_base_chain"@, "sec_derivative"@, "csc_derivative"@, "cot_derivative"@, "arcsin_derivative"@, "arccos_derivative"@, "arctan_derivative"@, "arccot_derivative"@, "arcsec_derivative"@, "arccsc_derivative"@]
}

/// Metadata of the rules of [`advanced_calculus_rules`], in order.
pub open spec fn advanced_calculus_rules_meta() -> Seq<RuleMeta> {
    seq![
        (900u32, "chain_rule_tan"@, RuleCategory::Derivative, "d/dx(tan(g(x))) = sec²(g(x)) * g'(x) = g'(x)/cos²(g(x))"@, Seq::<Domain>::empty(), Seq::<Feature>::empty(), false, 2u32, Rewrite::ChainRuleTan),
        (901u32, "chain_rule_exp"@, RuleCategory::Derivative, "d/dx(e^g(x)) = e^g(x) * g'(x)"@, Seq::<Domain>::empty(), Seq::<Feature>::empty(), false, 2u32, Rewrite::ChainRuleExp),
        (902u32, "chain_rule_ln"@, RuleCategory::Derivative, "d/dx(ln(g(x))) = g'(x)/g(x)"@, Seq::<Domain>::empty(), Seq::<Feature>::empty(), false, 2u32, Rewrite::ChainRuleLn),
        (903u32, "inverse_trig_deriv_arcsin"@, RuleCategory::Derivative, "d/dx(arcsin(x)) = 1/√(1-x²)"@, Seq::<Domain>::empty(), Seq::<Feature>::empty(), false, 2u32, Rewrite::InverseTrigDerivArcsin),
        (904u32, "diff_rule"@, RuleCategory::Derivative, "d/dx(f - g) = f' - g'"@, Seq::<Domain>::empty(), Seq::<Feature>::empty(), false, 1u32, Rewrite::DiffRule),
        (905u32, "constant_multiple_rule"@, RuleCategory::Derivative, "d/dx(c*f) = c*f' where c is constant"@, Seq::<Domain>::empty(), Seq::<Feature>::empty(), false, 1u32, Rewrite::ConstantMultipleRule),
        (906u32, "constant_base_exp_simple"@, RuleCategory::Derivative, "d/dx(a^x) = a^x·ln(a) where a is constant"@, Seq::<Domain>::empty(), Seq::<Feature>::empty(), false, 2u32, Rewrite::ConstantBaseExpSimple),
        (409u32, "constant_base_exp_chain"@, RuleCategory::Derivative, "d/dx(a^f(x)) = a^f(x)·ln(a)·f'(x) where a is constant"@, Seq::<Domain>::empty(), Seq::<Feature>::empty(), false, 3u32, Rewrite::ConstantBaseExpChain),
        (476u32, "sqrt_chain_rule"@, RuleCategory::Derivative, "d/dx(√f) = f'/(2√f)"@, Seq::<Domain>::empty(), Seq::<Feature>::empty(), false, 2u32, Rewrite::SqrtChainRule),
        (475u32, "general_power_rule"@, RuleCategory::Derivative, "d/dx(f^n) = n·f^(n-1)·f' where n is constant"@, Seq::<Domain>::empty(), Seq::<Feature>::empty(), false, 3u32, Rewrite::GeneralPowerRule),
        (411u32, "log_base_simple"@, RuleCategory::Derivative, "d/dx(log_a(x)) = 1/(x·ln(a))"@, Seq::<Domain>::empty(), Seq::<Feature>::empty(), false, 2u32, Rewrite::LogBaseSimple),
        (412u32, "log_base_chain"@, RuleCategory::Derivative, "d/dx(log_a(f)) = f'/(f·ln(a))"@, Seq::<Domain>::empty(), Seq::<Feature>::empty(), false, 3u32, Rewrite::LogBaseChain),
        (472u32, "sec_derivative"@, RuleCategory::Derivative, "d/dx(sec(f)) = f'·sec(f)·tan(f) where sec(f) = 1/cos(f)"@, Seq::<Domain>::empty(), Seq::<Feature>::empty(), false, 3u32, Rewrite::SecDerivative),
        (473u32, "csc_derivative"@, RuleCategory::Derivative, "d/dx(csc(f)) = -f'·csc(f)·cot(f) where csc(f) = 1/sin(f)"@, Seq::<Domain>::empty(), Seq::<Feature>::empty(), false, 3u32, Rewrite::CscDerivative),
        (474u32, "cot_derivative"@, RuleCategory::Derivative, "d/dx(cot(f)) = -f'/sin²(f) where cot(f) = cos(f)/sin(f)"@, Seq::<Domain>::empty(), Seq::<Feature>::empty(), false, 3u32, Rewrite::CotDerivative),
        (413u32, "arcsin_derivative"@, RuleCategory::Derivative, "d/dx(arcsin(f)) = f'/√(1-f²)"@, Seq::<Domain>::empty(), Seq::<Feature>::empty(), false, 3u32, Rewrite::ArcsinDerivative),
        (414u32, "arccos_derivative"@, RuleCategory::Derivative, "d/dx(arccos(f)) = -f'/√(1-f²)"@, Seq::<Domain>::empty(), Seq::<Feature>::empty(), false, 3u32, Rewrite::ArccosDerivative),
        (415u32, "arctan_derivative"@, RuleCategory::Derivative, "d/dx(arctan(f)) = f'/(1+f²)"@, Seq::<Domain>::empty(), Seq::<Feature>::empty(), false, 3u32, Rewrite::ArctanDerivative),
        (416u32, "arccot_derivative"@, RuleCategory::Derivative, "d/dx(arccot(f)) = -f'/(1+f²)"@, Seq::<Domain>::empty(), Seq::<Feature>::empty(), false, 3u32, Rewrite::ArccotDerivative),
        (417u32, "arcsec_derivative"@, RuleCategory::Derivative, "d/dx(arcsec(f)) = f'/(|f|√(f²-1))"@, Seq::<Domain>::empty(), Seq::<Feature>::empty(), false, 4u32, Rewrite::ArcsecDerivative),
        (418u32, "arccsc_derivative"@, RuleCategory::Derivative, "d/dx(arccsc(f)) = -f'/(|f|√(f²-1))"@, Seq::<Domain>::empty(), Seq::<Feature>::empty(), false, 4u32, Rewrite::ArccscDerivative),
    ]
}

/// The rules of this group, in registration order.
pub fn advanced_calculus_rules() -> (rules: Vec<Rule>)
    ensures
        ids_of(rules@) == advanced_calculus_rules_ids(),
        names_of(rules@) == advanced_calculus_rules_names(),
        rules_view(rules@) == advanced_calculus_rules_meta(),
{
    let mut rules: Vec<Rule> = Vec::new();
    let mut part: Vec<Rule> = vec![
        chain_rule_tan(),
        chain_rule_exp(),
        chain_rule_ln(),
        inverse_trig_deriv_arcsin(),
        diff_rule(),
        constant_multiple_rule(),
        constant_base_exp_simple(),
        constant_base_exp_chain(),
        sqrt_chain_rule(),
        general_power_rule(),
        log_base_simple(),
        log_base_chain(),
        sec_derivative(),
        csc_derivative(),
        cot_derivative(),
        arcsin_derivative(),
        arccos_derivative(),
        arctan_derivative(),
        arccot_derivative(),
        arcsec_derivative(),
        arccsc_derivative(),
    ];
    assert(ids_of(part@) =~= seq![900u32, 901u32, 902u32, 903u32, 904u32, 905u32, 906u32, 409u32, 476u32, 475u32, 411u32, 412u32, 472u32, 473u32, 474u32, 413u32, 414u32, 415u32, 416u32, 417u32, 418u32]);
    assert(names_of(part@) =~= seq!["chain_rule_tan"@, "chain_rule_exp"@, "chain_rule_ln"@, "inverse_trig_deriv_arcsin"@, "diff_rule"@, "constant_multiple_rule"@, "constant_base_exp_simple"@, "constant_base_exp_chain"@, "sqrt_chain_rule"@, "general_power_rule"@, "log_base_simple"@, "log_base_chain"@, "sec_derivative"@, "csc_derivative"@, "cot_derivative"@, "arcsin_derivative"@, "arccos_derivative"@, "arctan_derivative"@, "arccot_derivative"@, "arcsec_derivative"@, "arccsc_derivative"@]);
    assert(rules_view(part@) =~~= advanced_calculus_rules_meta());
    let ghost before = rules@;
    rules.append(&mut part);
    proof {
        crate::rule::lemma_ids_names_append(before, part@);
    }
    assert(ids_of(rules@) =~= advanced_calculus_rules_ids());
    assert(names_of(rules@) =~= advanced_calculus_rules_names());
    assert(rules_view(rules@) =~= advanced_calculus_rules_meta());
    rules
}

/// Identifiers of the rules of [`phase4_calculus_rules`], in order.
pub open spec fn phase4_calculus_rules_ids() -> Seq<u32> {
    seq![419u32, 907u32, 908u32, 909u32, 910u32, 911u32, 912u32, 913u32, 914u32, 428u32, 429u32, 430u32, 431u32, 432u32, 433u32, 434u32, 435u32, 436u32, 915u32, 916u32, 443u32, 444u32, 445u32, 446u32, 447u32, 448u32, 449u32, 450u32, 451u32, 452u32, 453u32, 454u32, 455u32, 456u32, 457u32, 458u32, 459u32, 460u32, 461u32, 462u32, 463u32, 464u32, 465u32, 466u32, 467u32, 468u32, 469u32, 470u32, 917u32, 918u32, 919u32, 920u32, 921u32, 922u32, 923u32, 924u32, 925u32, 926u32, 927u32, 928u32, 477u32, 478u32, 479u32, 480u32, 481u32, 482u32, 483u32, 484u32, 485u32, 486u32, 487u32, 488u32, 489u32, 490u32, 491u32, 492u32, 493u32, 494u32, 495u32, 496u32, 497u32, 498u32]
}

/// Names of the rules of [`phase4_calculus_rules`], in order.
pub open spec fn phase4_calculus_rules_names() -> Seq<Seq<char>> {
    seq!["integral_constant_multiple"@, "integral_power"@, "integral_constant"@, "integral_sum"@, "integral_exp"@, "integral_ln"@, "integral_sin"@, "integral_cos"@, "integral_difference"@, "integral_tan"@, "integral_sec2"@, "integral_csc2"@, "integral_sinh"@, "integral_cosh"@, "integration_by_parts"@, "u_substitution"@, "partial_fractions"@, "trig_substitution"@, "integral_cot"@, "integral_sec"@, "integral_csc"@, "integral_sec_tan"@, "integral_inv_sqrt_a2_minus_x2"@, "integral_inv_a2_plus_x2"@, "integral_inv_x_sqrt_x2_minus_a2"@, "integral_x_sin"@, "integral_x_cos"@, "integral_ln_x"@, "integral_x_exp_ax"@, "integral_x_over_x2_plus_a2"@, "integral_x_over_x2_minus_a2"@, "integral_exp_ax"@, "integral_one_over_x2_minus_a2"@, "integral_sin_squared"@, "integral_cos_squared"@, "integral_tan_squared"@, "integral_sec_cubed"@, "integral_x2_sin"@, "integral_x2_cos"@, "integral_exp_sin"@, "integral_exp_cos"@, "integral_sqrt_a2_minus_x2"@, "integral_sqrt_x2_plus_a2"@, "integral_sqrt_x2_minus_a2"@, "integral_x_sqrt_a2_minus_x2"@, "integral_inv_sqrt_x2_plus_a2"@, "integral_inv_sqrt_x2_minus_a2"@, "integral_x_over_sqrt_x2_plus_a2"@, "limit_constant"@, "limit_sum"@, "limit_product"@, "limit_quotient"@, "limit_power"@, "limit_lhopital"@, "limit_squeeze"@, "taylor_exp"@, "taylor_sin"@, "taylor_cos"@, "taylor_ln"@, "maclaurin_1mx"@, "geometric_series"@, "power_series_diff"@, "power_series_int"@, "partial_x"@, "partial_y"@, "partial_z"@, "gradient"@, "divergence_vec"@, "curl_vec"@, "laplacian"@, "chain_multivariable"@, "implicit_diff"@, "total_differential"@, "directional_derivative"@, "double_integral"@, "triple_integral"@, "line_integral"@, "surface_integral"@, "greens_theorem"@, "stokes_theorem"@, "divergence_theorem"@, "jacobian_transform"@]
}

/// Metadata of the rules of [`phase4_calculus_rules`], in order.
pub open spec fn phase4_calculus_rules_meta() -> Seq<RuleMeta> {
    seq![
        (419u32, "integral_constant_multiple"@, RuleCategory::Integral, "∫k·f(x) dx = k·∫f(x) dx"@, Seq::<Domain>::empty(), Seq::<Feature>::empty(), true, 1u32, Rewrite::IntegralConstantMultiple),
        (907u32, "integral_power"@, RuleCategory::Integral, "∫x^n dx = x^(n+1)/(n+1) + C"@, Seq::<Domain>::empty(), Seq::<Feature>::empty(), true, 2u32, Rewrite::IntegralPower),
        (908u32, "integral_constant"@, RuleCategory::Integral, "∫k dx = kx + C"@, Seq::<Domain>::empty(), Seq::<Feature>::empty(), true, 1u32, Rewrite::IntegralConstant),
        (909u32, "integral_sum"@, RuleCategory::Integral, "∫(f+g) dx = ∫f dx + ∫g dx"@, Seq::<Domain>::empty(), Seq::<Feature>::empty(), true, 2u32, Rewrite::IntegralSum),
        (910u32, "integral_exp"@, RuleCategory::Integral, "∫e^x dx = e^x + C"@, Seq::<Domain>::empty(), Seq::<Feature>::empty(), true, 1u32, Rewrite::IntegralExp),
        (911u32, "integral_ln"@, RuleCategory::Integral, "∫1/x dx = ln|x| + C"@, Seq::<Domain>::empty(), Seq::<Feature>::empty(), true, 2u32, Rewrite::IntegralLn),
        (912u32, "integral_sin"@, RuleCategory::Integral, "∫sin(x) dx = -cos(x) + C"@, Seq::<Domain>::empty(), Seq::<Feature>::empty(), true, 2u32, Rewrite::IntegralSin),
        (913u32, "integral_cos"@, RuleCategory::Integral, "∫cos(x) dx = sin(x) + C"@, Seq::<Domain>::empty(), Seq::<Feature>::empty(), true, 2u32, Rewrite::IntegralCos),
        (914u32, "integral_difference"@, RuleCategory::Integral, "∫(f-g) dx = ∫f dx - ∫g dx"@, Seq::<Domain>::empty(), Seq::<Feature>::empty(), true, 2u32, Rewrite::IntegralDifference),
        (428u32, "integral_tan"@, RuleCategory::Integral, "∫tan(x) dx = -ln|cos(x)| + C"@, Seq::<Domain>::empty(), Seq::<Feature>::empty(), true, 3u32, Rewrite::IntegralTan),
        (429u32, "integral_sec2"@, RuleCategory::Integral, "∫sec²(x) dx = tan(x) + C"@, Seq::<Domain>::empty(), Seq::<Feature>::empty(), true, 2u32, Rewrite::IntegralSec2),
        (430u32, "integral_csc2"@, RuleCategory::Integral, "∫csc²(x) dx = -cot(x) + C"@, Seq::<Domain>::empty(), Seq::<Feature>::empty(), true, 2u32, Rewrite::IntegralCsc2),
        (431u32, "integral_sinh"@, RuleCategory::Integral, "∫sinh(x) dx = cosh(x) + C"@, Seq::<Domain>::empty(), Seq::<Feature>::empty(), true, 2u32, Rewrite::Inert),
        (432u32, "integral_cosh"@, RuleCategory::Integral, "∫cosh(x) dx = sinh(x) + C"@, Seq::<Domain>::empty(), Seq::<Feature>::empty(), true, 2u32, Rewrite::Inert),
        (433u32, "integration_by_parts"@, RuleCategory::Integral, "∫x·e^x dx = x·e^x - e^x + C (simplified pattern)"@, Seq::<Domain>::empty(), Seq::<Feature>::empty(), true, 4u32, Rewrite::IntegrationByParts),
        (434u32, "u_substitution"@, RuleCategory::Integral, "∫2x·e^(x²) dx = e^(x²) + C (chain rule pattern)"@, Seq::<Domain>::empty(), Seq::<Feature>::empty(), true, 3u32, Rewrite::USubstitution),
        (435u32, "partial_fractions"@, RuleCategory::Integral, "∫1/(x²-1) dx = (1/2)ln|(x-1)/(x+1)| + C (partial fractions)"@, Seq::<Domain>::empty(), Seq::<Feature>::empty(), true, 4u32, Rewrite::PartialFractions),
        (436u32, "trig_substitution"@, RuleCategory::Integral, "∫1/√(1-x²) dx = arcsin(x) + C (trig substitution)"@, Seq::<Domain>::empty(), Seq::<Feature>::empty(), true, 4u32, Rewrite::TrigSubstitution),
        (915u32, "integral_cot"@, RuleCategory::Integral, "∫cot(x) dx = ln|sin(x)| + C"@, Seq::<Domain>::empty(), Seq::<Feature>::empty(), true, 2u32, Rewrite::IntegralCot),
        (916u32, "integral_sec"@, RuleCategory::Integral, "∫sec(x) dx = ln|sec(x) + tan(x)| + C"@, Seq::<Domain>::empty(), Seq::<Feature>::empty(), true, 3u32, Rewrite::IntegralSec),
        (443u32, "integral_csc"@, RuleCategory::Integral, "∫csc(x) dx = -ln|csc(x) + cot(x)| + C"@, Seq::<Domain>::empty(), Seq::<Feature>::empty(), true, 3u32, Rewrite::IntegralCsc),
        (444u32, "integral_sec_tan"@, RuleCategory::Integral, "∫sec(x)tan(x) dx = sec(x) + C"@, Seq::<Domain>::empty(), Seq::<Feature>::empty(), true, 2u32, Rewrite::IntegralSecTan),
        (445u32, "integral_inv_sqrt_a2_minus_x2"@, RuleCategory::Integral, "∫1/√(a²-x²) dx = arcsin(x/a) + C"@, Seq::<Domain>::empty(), Seq::<Feature>::empty(), true, 3u32, Rewrite::IntegralInvSqrtA2MinusX2),
        (446u32, "integral_inv_a2_plus_x2"@, RuleCategory::Integral, "∫1/(a²+x²) dx = (1/a)arctan(x/a) + C"@, Seq::<Domain>::empty(), Seq::<Feature>::empty(), true, 3u32, Rewrite::IntegralInvA2PlusX2),
        (447u32, "integral_inv_x_sqrt_x2_minus_a2"@, RuleCategory::Integral, "∫1/(x√(x²-a²)) dx = (1/a)arcsec(|x|/a) + C"@, Seq::<Domain>::empty(), Seq::<Feature>::empty(), true, 4u32, Rewrite::IntegralInvXSqrtX2MinusA2),
        (448u32, "integral_x_sin"@, RuleCategory::Integral, "∫x·sin(x) dx = -x·cos(x) + sin(x) + C"@, Seq::<Domain>::empty(), Seq::<Feature>::empty(), true, 4u32, Rewrite::IntegralXSin),
        (449u32, "integral_x_cos"@, RuleCategory::Integral, "∫x·cos(x) dx = x·sin(x) + cos(x) + C"@, Seq::<Domain>::empty(), Seq::<Feature>::empty(), true, 4u32, Rewrite::IntegralXCos),
        (450u32, "integral_ln_x"@, RuleCategory::Integral, "∫ln(x) dx = x·ln(x) - x + C"@, Seq::<Domain>::empty(), Seq::<Feature>::empty(), true, 3u32, Rewrite::IntegralLnX),
        (451u32, "integral_x_exp_ax"@, RuleCategory::Integral, "∫x·e^(ax) dx = (e^(ax)/a²)(ax-1) + C"@, Seq::<Domain>::empty(), Seq::<Feature>::empty(), true, 4u32, Rewrite::IntegralXExpAx),
        (452u32, "integral_x_over_x2_plus_a2"@, RuleCategory::Integral, "∫x/(x²+a²) dx = (1/2)ln(x²+a²) + C"@, Seq::<Domain>::empty(), Seq::<Feature>::empty(), true, 3u32, Rewrite::IntegralXOverX2PlusA2),
        (453u32, "integral_x_over_x2_minus_a2"@, RuleCategory::Integral, "∫x/(x²-a²) dx = (1/2)ln|x²-a²| + C"@, Seq::<Domain>::empty(), Seq::<Feature>::empty(), true, 3u32, Rewrite::IntegralXOverX2MinusA2),
        (454u32, "integral_exp_ax"@, RuleCategory::Integral, "∫e^(ax) dx = (1/a)e^(ax) + C"@, Seq::<Domain>::empty(), Seq::<Feature>::empty(), true, 2u32, Rewrite::IntegralExpAx),
        (455u32, "integral_one_over_x2_minus_a2"@, RuleCategory::Integral, "∫1/(x²-a²) dx = (1/2a)ln|(x-a)/(x+a)| + C"@, Seq::<Domain>::empty(), Seq::<Feature>::empty(), true, 4u32, Rewrite::IntegralOneOverX2MinusA2),
        (456u32, "integral_sin_squared"@, RuleCategory::Integral, "∫sin²(x) dx = x/2 - sin(2x)/4 + C"@, Seq::<Domain>::empty(), Seq::<Feature>::empty(), true, 3u32, Rewrite::IntegralSinSquared),
        (457u32, "integral_cos_squared"@, RuleCategory::Integral, "∫cos²(x) dx = x/2 + sin(2x)/4 + C"@, Seq::<Domain>::empty(), Seq::<Feature>::empty(), true, 3u32, Rewrite::IntegralCosSquared),
        (458u32, "integral_tan_squared"@, RuleCategory::Integral, "∫tan²(x) dx = tan(x) - x + C"@, Seq::<Domain>::empty(), Seq::<Feature>::empty(), true, 3u32, Rewrite::IntegralTanSquared),
        (459u32, "integral_sec_cubed"@, RuleCategory::Integral, "∫sec³(x) dx = (1/2)[sec(x)tan(x) + ln|sec(x)+tan(x)|] + C"@, Seq::<Domain>::empty(), Seq::<Feature>::empty(), true, 5u32, Rewrite::IntegralSecCubed),
        (460u32, "integral_x2_sin"@, RuleCategory::Integral, "∫x²·sin(x) dx = -x²·cos(x) + 2x·sin(x) + 2cos(x) + C"@, Seq::<Domain>::empty(), Seq::<Feature>::empty(), true, 5u32, Rewrite::IntegralX2Sin),
        (461u32, "integral_x2_cos"@, RuleCategory::Integral, "∫x²·cos(x) dx = x²·sin(x) + 2x·cos(x) - 2sin(x) + C"@, Seq::<Domain>::empty(), Seq::<Feature>::empty(), true, 5u32, Rewrite::IntegralX2Cos),
        (462u32, "integral_exp_sin"@, RuleCategory::Integral, "∫e^x·sin(x) dx = (e^x/2)(sin(x) - cos(x)) + C"@, Seq::<Domain>::empty(), Seq::<Feature>::empty(), true, 5u32, Rewrite::IntegralExpSin),
        (463u32, "integral_exp_cos"@, RuleCategory::Integral, "∫e^x·cos(x) dx = (e^x/2)(sin(x) + cos(x)) + C"@, Seq::<Domain>::empty(), Seq::<Feature>::empty(), true, 5u32, Rewrite::IntegralExpCos),
        (464u32, "integral_sqrt_a2_minus_x2"@, RuleCategory::Integral, "∫√(a²-x²) dx = (x/2)√(a²-x²) + (a²/2)arcsin(x/a) + C"@, Seq::<Domain>::empty(), Seq::<Feature>::empty(), true, 5u32, Rewrite::IntegralSqrtA2MinusX2),
        (465u32, "integral_sqrt_x2_plus_a2"@, RuleCategory::Integral, "∫√(x²+a²) dx = (x/2)√(x²+a²) + (a²/2)ln|x+√(x²+a²)| + C"@, Seq::<Domain>::empty(), Seq::<Feature>::empty(), true, 5u32, Rewrite::IntegralSqrtX2PlusA2),
        (466u32, "integral_sqrt_x2_minus_a2"@, RuleCategory::Integral, "∫√(x²-a²) dx = (x/2)√(x²-a²) - (a²/2)ln|x+√(x²-a²)| + C"@, Seq::<Domain>::empty(), Seq::<Feature>::empty(), true, 5u32, Rewrite::IntegralSqrtX2MinusA2),
        (467u32, "integral_x_sqrt_a2_minus_x2"@, RuleCategory::Integral, "∫x·√(a²-x²) dx = -(1/3)(a²-x²)^(3/2) + C"@, Seq::<Domain>::empty(), Seq::<Feature>::empty(), true, 4u32, Rewrite::IntegralXSqrtA2MinusX2),
        (468u32, "integral_inv_sqrt_x2_plus_a2"@, RuleCategory::Integral, "∫1/√(x²+a²) dx = ln|x+√(x²+a²)| + C"@, Seq::<Domain>::empty(), Seq::<Feature>::empty(), true, 3u32, Rewrite::IntegralInvSqrtX2PlusA2),
        (469u32, "integral_inv_sqrt_x2_minus_a2"@, RuleCategory::Integral, "∫1/√(x²-a²) dx = ln|x+√(x²-a²)| + C"@, Seq::<Domain>::empty(), Seq::<Feature>::empty(), true, 3u32, Rewrite::IntegralInvSqrtX2MinusA2),
        (470u32, "integral_x_over_sqrt_x2_plus_a2"@, RuleCategory::Integral, "∫x/√(x²+a²) dx = √(x²+a²) + C"@, Seq::<Domain>::empty(), Seq::<Feature>::empty(), true, 2u32, Rewrite::IntegralXOverSqrtX2PlusA2),
        (917u32, "limit_constant"@, RuleCategory::Simplification, "lim c = c"@, Seq::<Domain>::empty(), Seq::<Feature>::empty(), false, 1u32, Rewrite::Inert),
        (918u32, "limit_sum"@, RuleCategory::Simplification, "lim(f+g) = lim f + lim g"@, Seq::<Domain>::empty(), Seq::<Feature>::empty(), true, 2u32, Rewrite::Inert),
        (919u32, "limit_product"@, RuleCategory::Simplification, "lim(fg) = lim f · lim g"@, Seq::<Domain>::empty(), Seq::<Feature>::empty(), true, 2u32, Rewrite::Inert),
        (920u32, "limit_quotient"@, RuleCategory::Simplification, "lim(f/g) = lim f / lim g"@, Seq::<Domain>::empty(), Seq::<Feature>::empty(), true, 2u32, Rewrite::Inert),
        (921u32, "limit_power"@, RuleCategory::Simplification, "lim(f^n) = (lim f)^n"@, Seq::<Domain>::empty(), Seq::<Feature>::empty(), true, 2u32, Rewrite::Inert),
        (922u32, "limit_lhopital"@, RuleCategory::Simplification, "L'Hôpital's rule for 0/0 or ∞/∞"@, Seq::<Domain>::empty(), Seq::<Feature>::empty(), false, 3u32, Rewrite::Inert),
        (923u32, "limit_squeeze"@, RuleCategory::Simplification, "Squeeze theorem"@, Seq::<Domain>::empty(), Seq::<Feature>::empty(), false, 3u32, Rewrite::Inert),
        (924u32, "taylor_exp"@, RuleCategory::Simplification, "e^x = Σ x^n/n!"@, Seq::<Domain>::empty(), Seq::<Feature>::empty(), true, 3u32, Rewrite::Inert),
        (925u32, "taylor_sin"@, RuleCategory::Simplification, "sin(x) = Σ (-1)^n x^(2n+1)/(2n+1)!"@, Seq::<Domain>::empty(), Seq::<Feature>::empty(), true, 3u32, Rewrite::Inert),
        (926u32, "taylor_cos"@, RuleCategory::Simplification, "cos(x) = Σ (-1)^n x^(2n)/(2n)!"@, Seq::<Domain>::empty(), Seq::<Feature>::empty(), true, 3u32, Rewrite::Inert),
        (927u32, "taylor_ln"@, RuleCategory::Simplification, "ln(1+x) = Σ (-1)^(n+1) x^n/n"@, Seq::<Domain>::empty(), Seq::<Feature>::empty(), true, 3u32, Rewrite::Inert),
        (928u32, "maclaurin_1mx"@, RuleCategory::Simplification, "1/(1-x) = Σ x^n"@, Seq::<Domain>::empty(), Seq::<Feature>::empty(), true, 2u32, Rewrite::Inert),
        (477u32, "geometric_series"@, RuleCategory::Simplification, "Σ ar^n = a/(1-r) for |r|<1"@, Seq::<Domain>::empty(), Seq::<Feature>::empty(), true, 2u32, Rewrite::Inert),
        (478u32, "power_series_diff"@, RuleCategory::Derivative, "d/dx(Σa_n x^n) = Σ n·a_n x^(n-1)"@, Seq::<Domain>::empty(), Seq::<Feature>::empty(), true, 3u32, Rewrite::Inert),
        (479u32, "power_series_int"@, RuleCategory::Integral, "∫(Σa_n x^n)dx = Σ a_n x^(n+1)/(n+1)"@, Seq::<Domain>::empty(), Seq::<Feature>::empty(), true, 3u32, Rewrite::Inert),
        (480u32, "partial_x"@, RuleCategory::Derivative, "∂f/∂x partial derivative"@, Seq::<Domain>::empty(), Seq::<Feature>::empty(), false, 2u32, Rewrite::Inert),
        (481u32, "partial_y"@, RuleCategory::Derivative, "∂f/∂y partial derivative"@, Seq::<Domain>::empty(), Seq::<Feature>::empty(), false, 2u32, Rewrite::Inert),
        (482u32, "partial_z"@, RuleCategory::Derivative, "∂f/∂z partial derivative"@, Seq::<Domain>::empty(), Seq::<Feature>::empty(), false, 2u32, Rewrite::Inert),
        (483u32, "gradient"@, RuleCategory::Derivative, "∇f = (∂f/∂x, ∂f/∂y, ∂f/∂z)"@, Seq::<Domain>::empty(), Seq::<Feature>::empty(), false, 3u32, Rewrite::Inert),
        (484u32, "divergence_vec"@, RuleCategory::Derivative, "∇·F divergence of vector field"@, Seq::<Domain>::empty(), Seq::<Feature>::empty(), false, 3u32, Rewrite::Inert),
        (485u32, "curl_vec"@, RuleCategory::Derivative, "∇×F curl of vector field"@, Seq::<Domain>::empty(), Seq::<Feature>::empty(), false, 4u32, Rewrite::Inert),
        (486u32, "laplacian"@, RuleCategory::Derivative, "∇²f = ∂²f/∂x² + ∂²f/∂y² + ∂²f/∂z²"@, Seq::<Domain>::empty(), Seq::<Feature>::empty(), false, 4u32, Rewrite::Inert),
        (487u32, "chain_multivariable"@, RuleCategory::Derivative, "Multivariable chain rule"@, Seq::<Domain>::empty(), Seq::<Feature>::empty(), false, 4u32, Rewrite::Inert),
        (488u32, "implicit_diff"@, RuleCategory::Derivative, "Implicit differentiation"@, Seq::<Domain>::empty(), Seq::<Feature>::empty(), false, 3u32, Rewrite::Inert),
        (489u32, "total_differential"@, RuleCategory::Derivative, "df = ∂f/∂x dx + ∂f/∂y dy"@, Seq::<Domain>::empty(), Seq::<Feature>::empty(), false, 3u32, Rewrite::Inert),
        (490u32, "directional_derivative"@, RuleCategory::Derivative, "D_u f = ∇f · u"@, Seq::<Domain>::empty(), Seq::<Feature>::empty(), false, 3u32, Rewrite::Inert),
        (491u32, "double_integral"@, RuleCategory::Integral, "∬f dA double integral"@, Seq::<Domain>::empty(), Seq::<Feature>::empty(), false, 4u32, Rewrite::Inert),
        (492u32, "triple_integral"@, RuleCategory::Integral, "∭f dV triple integral"@, Seq::<Domain>::empty(), Seq::<Feature>::empty(), false, 5u32, Rewrite::Inert),
        (493u32, "line_integral"@, RuleCategory::Integral, "∫_C F·dr line integral"@, Seq::<Domain>::empty(), Seq::<Feature>::empty(), false, 4u32, Rewrite::Inert),
        (494u32, "surface_integral"@, RuleCategory::Integral, "∬_S F·dS surface integral"@, Seq::<Domain>::empty(), Seq::<Feature>::empty(), false, 5u32, Rewrite::Inert),
        (495u32, "greens_theorem"@, RuleCategory::Integral, "Green's theorem: ∮_C = ∬_D"@, Seq::<Domain>::empty(), Seq::<Feature>::empty(), true, 4u32, Rewrite::Inert),
        (496u32, "stokes_theorem"@, RuleCategory::Integral, "Stokes' theorem"@, Seq::<Domain>::empty(), Seq::<Feature>::empty(), true, 5u32, Rewrite::Inert),
        (497u32, "divergence_theorem"@, RuleCategory::Integral, "Divergence theorem"@, Seq::<Domain>::empty(), Seq::<Feature>::empty(), true, 5u32, Rewrite::Inert),
        (498u32, "jacobian_transform"@, RuleCategory::Integral, "Jacobian coordinate transform"@, Seq::<Domain>::empty(), Seq::<Feature>::empty(), false, 4u32, Rewrite::Inert),
    ]
}

/// The rules of this group, in registration order.
pub fn phase4_calculus_rules() -> (rules: Vec<Rule>)
    ensures
        ids_of(rules@) == phase4_calculus_rules_ids(),
        names_of(rules@) == phase4_calculus_rules_names(),
        rules_view(rules@) == phase4_calculus_rules_meta(),
{
    let mut rules: Vec<Rule> = Vec::new();
    let mut part: Vec<Rule> = vec![
        integral_constant_multiple(),
        integral_power(),
        integral_constant(),
        integral_sum(),
        integral_exp(),
        integral_ln(),
        integral_sin(),
        integral_cos(),
        integral_difference(),
        integral_tan(),
        integral_sec2(),
        integral_csc2(),
        integral_sinh(),
        integral_cosh(),
        integration_by_parts(),
        u_substitution(),
        partial_fractions(),
        trig_substitution(),
        integral_cot(),
        integral_sec(),
        integral_csc(),
        integral_sec_tan(),
        integral_inv_sqrt_a2_minus_x2(),
        integral_inv_a2_plus_x2(),
        integral_inv_x_sqrt_x2_minus_a2(),
        integral_x_sin(),
        integral_x_cos(),
        integral_ln_x(),
        integral_x_exp_ax(),
        integral_x_over_x2_plus_a2(),
        integral_x_over_x2_minus_a2(),
        integral_exp_ax(),
        integral_one_over_x2_minus_a2(),
        integral_sin_squared(),
        integral_cos_squared(),
        integral_tan_squared(),
        integral_sec_cubed(),
        integral_x2_sin(),
        integral_x2_cos(),
        integral_exp_sin(),
        integral_exp_cos(),
        integral_sqrt_a2_minus_x2(),
        integral_sqrt_x2_plus_a2(),
        integral_sqrt_x2_minus_a2(),
        integral_x_sqrt_a2_minus_x2(),
        integral_inv_sqrt_x2_plus_a2(),
        integral_inv_sqrt_x2_minus_a2(),
        integral_x_over_sqrt_x2_plus_a2(),
        limit_constant(),
        limit_sum(),
        limit_product(),
        limit_quotient(),
        limit_power(),
        limit_lhopital(),
        limit_squeeze(),
        taylor_exp(),
        taylor_sin(),
        taylor_cos(),
        taylor_ln(),
        maclaurin_1mx(),
        geometric_series(),
        power_series_diff(),
        power_series_int(),
        partial_x(),
        partial_y(),
        partial_z(),
        gradient(),
        divergence_vec(),
        curl_vec(),
        laplacian(),
        chain_multivariable(),
        implicit_diff(),
        total_differential(),
        directional_derivative(),
        double_integral(),
        triple_integral(),
        line_integral(),
        surface_integral(),
        greens_theorem(),
        stokes_theorem(),
        divergence_theorem(),
        jacobian_transform(),
    ];
    assert(ids_of(part@) =~= seq![419u32, 907u32, 908u32, 909u32, 910u32, 911u32, 912u32, 913u32, 914u32, 428u32, 429u32, 430u32, 431u32, 432u32, 433u32, 434u32, 435u32, 436u32, 915u32, 916u32, 443u32, 444u32, 445u32, 446u32, 447u32, 448u32, 449u32, 450u32, 451u32, 452u32, 453u32, 454u32, 455u32, 456u32, 457u32, 458u32, 459u32, 460u32, 461u32, 462u32, 463u32, 464u32, 465u32, 466u32, 467u32, 468u32, 469u32, 470u32, 917u32, 918u32, 919u32, 920u32, 921u32, 922u32, 923u32, 924u32, 925u32, 926u32, 927u32, 928u32, 477u32, 478u32, 479u32, 480u32, 481u32, 482u32, 483u32, 484u32, 485u32, 486u32, 487u32, 488u32, 489u32, 490u32, 491u32, 492u32, 493u32, 494u32, 495u32, 496u32, 497u32, 498u32]);
    assert(names_of(part@) =~= seq!["integral_constant_multiple"@, "integral_power"@, "integral_constant"@, "integral_sum"@, "integral_exp"@, "integral_ln"@, "integral_sin"@, "integral_cos"@, "integral_difference"@, "integral_tan"@, "integral_sec2"@, "integral_csc2"@, "integral_sinh"@, "integral_cosh"@, "integration_by_parts"@, "u_substitution"@, "partial_fractions"@, "trig_substitution"@, "integral_cot"@, "integral_sec"@, "integral_csc"@, "integral_sec_tan"@, "integral_inv_sqrt_a2_minus_x2"@, "integral_inv_a2_plus_x2"@, "integral_inv_x_sqrt_x2_minus_a2"@, "integral_x_sin"@, "integral_x_cos"@, "integral_ln_x"@, "integral_x_exp_ax"@, "integral_x_over_x2_plus_a2"@, "integral_x_over_x2_minus_a2"@, "integral_exp_ax"@, "integral_one_over_x2_minus_a2"@, "integral_sin_squared"@, "integral_cos_squared"@, "integral_tan_squared"@, "integral_sec_cubed"@, "integral_x2_sin"@, "integral_x2_cos"@, "integral_exp_sin"@, "integral_exp_cos"@, "integral_sqrt_a2_minus_x2"@, "integral_sqrt_x2_plus_a2"@, "integral_sqrt_x2_minus_a2"@, "integral_x_sqrt_a2_minus_x2"@, "integral_inv_sqrt_x2_plus_a2"@, "integral_inv_sqrt_x2_minus_a2"@, "integral_x_over_sqrt_x2_plus_a2"@, "limit_constant"@, "limit_sum"@, "limit_product"@, "limit_quotient"@, "limit_power"@, "limit_lhopital"@, "limit_squeeze"@, "taylor_exp"@, "taylor_sin"@, "taylor_cos"@, "taylor_ln"@, "maclaurin_1mx"@, "geometric_series"@, "power_series_diff"@, "power_series_int"@, "partial_x"@, "partial_y"@, "partial_z"@, "gradient"@, "divergence_vec"@, "curl_vec"@, "laplacian"@, "chain_multivariable"@, "implicit_diff"@, "total_differential"@, "directional_derivative"@, "double_integral"@, "triple_integral"@, "line_integral"@, "surface_integral"@, "greens_theorem"@, "stokes_theorem"@, "divergence_theorem"@, "jacobian_transform"@]);
    assert(rules_view(part@) =~~= phase4_calculus_rules_meta());
    let ghost before = rules@;
    rules.append(&mut part);
    proof {
        crate::rule::lemma_ids_names_append(before, part@);
    }
    assert(ids_of(rules@) =~= phase4_calculus_rules_ids());
    assert(names_of(rules@) =~= phase4_calculus_rules_names());
    assert(rules_view(rules@) =~= phase4_calculus_rules_meta());
    rules
}

/// Identifiers of the rules of [`calculus_rules`], in order.
pub open spec fn calculus_rules_ids() -> Seq<u32> {
    seq![11u32, 12u32, 13u32, 14u32, 19u32, 15u32, 16u32, 17u32, 18u32] + advanced_calculus_rules_ids() + phase4_calculus_rules_ids()
}

/// Names of the rules of [`calculus_rules`], in order.
pub open spec fn calculus_rules_names() -> Seq<Seq<char>> {
    seq!["power_rule"@, "constant_rule"@, "sum_rule"@, "product_rule"@, "quotient_rule"@, "sin_chain_rule"@, "cos_chain_rule"@, "exp_derivative"@, "ln_derivative"@] + advanced_calculus_rules_names() + phase4_calculus_rules_names()
}

/// Metadata of the rules that [`calculus_rules`] registers itself, in order.
pub open spec fn calculus_rules_own_meta() -> Seq<RuleMeta> {
    seq![
        (11u32, "power_rule"@, RuleCategory::Derivative, "Power rule: d/dx(x^n) = n·x^(n-1)"@, Seq::<Domain>::empty(), Seq::<Feature>::empty(), false, 2u32, Rewrite::PowerRule),
        (12u32, "constant_rule"@, RuleCategory::Derivative, "Constant rule: d/dx(c) = 0"@, Seq::<Domain>::empty(), Seq::<Feature>::empty(), false, 1u32, Rewrite::ConstantRule),
        (13u32, "sum_rule"@, RuleCategory::Derivative, "Sum rule: d/dx(f + g) = f' + g'"@, Seq::<Domain>::empty(), Seq::<Feature>::empty(), false, 2u32, Rewrite::SumRule),
        (14u32, "product_rule"@, RuleCategory::Derivative, "Product rule: d/dx(fg) = f'g + fg'"@, Seq::<Domain>::empty(), Seq::<Feature>::empty(), false, 3u32, Rewrite::ProductRule),
        (19u32, "quotient_rule"@, RuleCategory::Derivative, "Quotient rule: d/dx(f/g) = (f'g - fg') / g²"@, Seq::<Domain>::empty(), Seq::<Feature>::empty(), false, 4u32, Rewrite::QuotientRule),
        (15u32, "sin_chain_rule"@, RuleCategory::Derivative, "Sine chain rule: d/dx(sin(g)) = cos(g) * g'"@, Seq::<Domain>::empty(), Seq::<Feature>::empty(), false, 2u32, Rewrite::SinChainRule),
        (16u32, "cos_chain_rule"@, RuleCategory::Derivative, "Cosine chain rule: d/dx(cos(g)) = -sin(g) * g'"@, Seq::<Domain>::empty(), Seq::<Feature>::empty(), false, 2u32, Rewrite::CosChainRule),
        (17u32, "exp_derivative"@, RuleCategory::Derivative, "Exponential derivative: d/dx(e^x) = e^x"@, Seq::<Domain>::empty(), Seq::<Feature>::empty(), false, 2u32, Rewrite::ExpDerivative),
        (18u32, "ln_derivative"@, RuleCategory::Derivative, "Natural log derivative: d/dx(ln(x)) = 1/x"@, Seq::<Domain>::empty(), Seq::<Feature>::empty(), false, 2u32, Rewrite::LnDerivative),
    ]
}

/// Metadata of the rules of [`calculus_rules`], in order.
pub open spec fn calculus_rules_meta() -> Seq<RuleMeta> {
    calculus_rules_own_meta() + advanced_calculus_rules_meta() + phase4_calculus_rules_meta()
}

/// The rules of this group, in registration order.
pub fn calculus_rules() -> (rules: Vec<Rule>)
    ensures
        ids_of(rules@) == calculus_rules_ids(),
        names_of(rules@) == calculus_rules_names(),
        rules_view(rules@) == calculus_rules_meta(),
{
    let mut rules: Vec<Rule> = Vec::new();
    let mut part: Vec<Rule> = vec![
        power_rule(),
        constant_rule(),
        sum_rule(),
        product_rule(),
        quotient_rule(),
        chain_rule_sin(),
        chain_rule_cos(),
        exp_rule(),
        ln_rule(),
    ];
    assert(ids_of(part@) =~= seq![11u32, 12u32, 13u32, 14u32, 19u32, 15u32, 16u32, 17u32, 18u32]);
    assert(names_of(part@) =~= seq!["power_rule"@, "constant_rule"@, "sum_rule"@, "product_rule"@, "quotient_rule"@, "sin_chain_rule"@, "cos_chain_rule"@, "exp_derivative"@, "ln_derivative"@]);
    assert(rules_view(part@) =~~= calculus_rules_own_meta());
    let ghost before = rules@;
    rules.append(&mut part);
    proof {
        crate::rule::lemma_ids_names_append(before, part@);
    }
    let mut part = advanced_calculus_rules();
    let ghost before = rules@;
    rules.append(&mut part);
    proof {
        crate::rule::lemma_ids_names_append(before, part@);
    }
    let mut part = phase4_calculus_rules();
    let ghost before = rules@;
    rules.append(&mut part);
    proof {
        crate::rule::lemma_ids_names_append(before, part@);
    }
    assert(ids_of(rules@) =~= calculus_rules_ids());
    assert(names_of(rules@) =~= calculus_rules_names());
    assert(rules_view(rules@) =~= calculus_rules_meta());
    rules
}


/// The value of `e` with `var` set to `value`: constants, the variable,
/// negation, sums, differences, products, quotients by a non-zero value and
/// powers with a constant integer exponent from 0 to `i32::MAX`.  `None` for
/// any other variable or form, a zero divisor, and a value outside `i64`.
pub open spec fn eval_at(e: Expr, var: Symbol, value: (int, int)) -> Option<(int, int)>
    decreases e,
{
    match e {
        Expr::Const(c) => Some(c.pair()),
        Expr::Var(v) => if v == var {
            Some(value)
        } else {
            None
        },
        Expr::Neg(a) => match eval_at(*a, var, value) {
            Some(x) => Some((-x.0, x.1)),
            None => None,
        },
        Expr::Add(a, b) => match (eval_at(*a, var, value), eval_at(*b, var, value)) {
            (Some(x), Some(y)) => if fits(radd(x, y)) {
                Some(radd(x, y))
            } else {
                None
            },
            _ => None,
        },
        Expr::Sub(a, b) => match (eval_at(*a, var, value), eval_at(*b, var, value)) {
            (Some(x), Some(y)) => if fits(rsub(x, y)) {
                Some(rsub(x, y))
            } else {
                None
            },
            _ => None,
        },
        Expr::Mul(a, b) => match (eval_at(*a, var, value), eval_at(*b, var, value)) {
            (Some(x), Some(y)) => if fits(rmul(x, y)) {
                Some(rmul(x, y))
            } else {
                None
            },
            _ => None,
        },
        Expr::Div(a, b) => match (eval_at(*a, var, value), eval_at(*b, var, value)) {
            (Some(x), Some(y)) => if y.0 != 0 && fits(rdiv(x, y)) {
                Some(rdiv(x, y))
            } else {
                None
            },
            _ => None,
        },
        Expr::Pow(base, exp) => match eval_at(*base, var, value) {
            Some(x) => match *exp {
                Expr::Const(n) => if n.den() == 1 && 0 <= n.num() <= i32::MAX && pow_fits(x, n.num() as nat) {
                    Some(rpow(x, n.num() as nat))
                } else {
                    None
                },
                _ => None,
            },
            None => None,
        },
        _ => None,
    }
}

/// The value of `expr` with `var` set to `value`, as [`eval_at`] states.
pub fn evaluate_at(expr: &Expr, var: Symbol, value: Rational) -> (r: Option<Rational>)
    ensures
        r matches Some(v) ==> eval_at(*expr, var, value.pair()) == Some(v.pair()),
        r is None ==> eval_at(*expr, var, value.pair()) is None,
    decreases expr,
{
    match expr {
        Expr::Const(c) => Some(*c),
        Expr::Var(v) => {
            if v.0 == var.0 {
                Some(value)
            } else {
                None
            }
        },
        Expr::Neg(inner) => match evaluate_at(inner, var, value) {
            Some(x) => Some(x.neg()),
            None => None,
        },
        Expr::Add(a, b) => {
            let x = match evaluate_at(a, var, value) {
                Some(x) => x,
                None => return None,
            };
            let y = match evaluate_at(b, var, value) {
                Some(y) => y,
                None => return None,
            };
            x.checked_add(&y)
        },
        Expr::Sub(a, b) => {
            let x = match evaluate_at(a, var, value) {
                Some(x) => x,
                None => return None,
            };
            let y = match evaluate_at(b, var, value) {
                Some(y) => y,
                None => return None,
            };
            x.checked_sub(&y)
        },
        Expr::Mul(a, b) => {
            let x = match evaluate_at(a, var, value) {
                Some(x) => x,
                None => return None,
            };
            let y = match evaluate_at(b, var, value) {
                Some(y) => y,
                None => return None,
            };
            x.checked_mul(&y)
        },
        Expr::Div(a, b) => {
            let x = match evaluate_at(a, var, value) {
                Some(x) => x,
                None => return None,
            };
            let y = match evaluate_at(b, var, value) {
                Some(y) => y,
                None => return None,
            };
            if y.is_zero() {
                None
            } else {
                x.checked_div(&y)
            }
        },
        Expr::Pow(base, exp) => {
            let x = match evaluate_at(base, var, value) {
                Some(x) => x,
                None => return None,
            };
            match &**exp {
                Expr::Const(n) => {
                    if n.is_integer() && n.numer() >= 0 && n.numer() <= 0x7fff_ffff {
                        x.checked_pow(n.numer() as u32)
                    } else {
                        None
                    }
                },
                _ => None,
            }
        },
        _ => None,
    }
}


// ---------------------------------------------------------------------------
// Symbolic differentiation and simplification
// ---------------------------------------------------------------------------

/// The derivative by the elementary rules: constants give 0, the variable 1
/// and any other variable 0; negation, sums and differences term by term;
/// the product rule `f'g + fg'`; the quotient rule `(f'g - fg')/g²`; for a
/// constant exponent `n` the chain rule `(n·f^(n-1))·f'`.  Any other form
/// stays an unevaluated derivative.
pub open spec fn deriv(e: Expr, var: Symbol) -> Expr
    decreases e,
{
    match e {
        Expr::Const(_) => lit(0),
        Expr::Var(v) => if v == var {
            lit(1)
        } else {
            lit(0)
        },
        Expr::Neg(a) => Expr::Neg(Box::new(deriv(*a, var))),
        Expr::Add(a, b) => Expr::Add(Box::new(deriv(*a, var)), Box::new(deriv(*b, var))),
        Expr::Sub(a, b) => Expr::Sub(Box::new(deriv(*a, var)), Box::new(deriv(*b, var))),
        Expr::Mul(f, g) => Expr::Add(
            Box::new(Expr::Mul(Box::new(deriv(*f, var)), g)),
            Box::new(Expr::Mul(f, Box::new(deriv(*g, var)))),
        ),
        Expr::Div(f, g) => Expr::Div(
            Box::new(Expr::Sub(
                Box::new(Expr::Mul(Box::new(deriv(*f, var)), g)),
                Box::new(Expr::Mul(f, Box::new(deriv(*g, var)))),
            )),
            Box::new(Expr::Pow(g, Box::new(lit(2)))),
        ),
        Expr::Pow(base, exp) => match *exp {
            Expr::Const(n) => Expr::Mul(
                Box::new(Expr::Mul(
                    Box::new(Expr::Const(n)),
                    Box::new(Expr::Pow(base, Box::new(Expr::Const(rat(rsub(n.pair(), (1, 1))))))),
                )),
                Box::new(deriv(*base, var)),
            ),
            _ => Expr::Derivative { expr: Box::new(e), var },
        },
        _ => Expr::Derivative { expr: Box::new(e), var },
    }
}

/// Every exponent `n - 1` that [`deriv`] computes fits.
pub open spec fn deriv_ok(e: Expr) -> bool
    decreases e,
{
    match e {
        Expr::Neg(a) => deriv_ok(*a),
        Expr::Add(a, b) => deriv_ok(*a) && deriv_ok(*b),
        Expr::Sub(a, b) => deriv_ok(*a) && deriv_ok(*b),
        Expr::Mul(a, b) => deriv_ok(*a) && deriv_ok(*b),
        Expr::Div(a, b) => deriv_ok(*a) && deriv_ok(*b),
        Expr::Pow(base, exp) => match *exp {
            Expr::Const(n) => fits(rsub(n.pair(), (1, 1))) && deriv_ok(*base),
            _ => true,
        },
        _ => true,
    }
}

/// The derivative of `expr` with respect to `var`, as [`deriv`] states.
pub fn differentiate(expr: &Expr, var: Symbol) -> (d: Expr)
    requires
        deriv_ok(*expr),
    ensures
        d == deriv(*expr, var),
    decreases expr,
{
    match expr {
        Expr::Const(_) => mk_lit(0),
        Expr::Var(v) => {
            if v.0 == var.0 {
                mk_lit(1)
            } else {
                mk_lit(0)
            }
        },
        Expr::Neg(inner) => Expr::Neg(Box::new(differentiate(inner, var))),
        Expr::Add(a, b) => Expr::Add(Box::new(differentiate(a, var)), Box::new(differentiate(b, var))),
        Expr::Sub(a, b) => Expr::Sub(Box::new(differentiate(a, var)), Box::new(differentiate(b, var))),
        Expr::Mul(f, g) => {
            let fp = differentiate(f, var);
            let gp = differentiate(g, var);
            Expr::Add(
                Box::new(Expr::Mul(Box::new(fp), Box::new(copy_expr(g)))),
                Box::new(Expr::Mul(Box::new(copy_expr(f)), Box::new(gp))),
            )
        },
        Expr::Div(f, g) => {
            let fp = differentiate(f, var);
            let gp = differentiate(g, var);
            Expr::Div(
                Box::new(Expr::Sub(
                    Box::new(Expr::Mul(Box::new(fp), Box::new(copy_expr(g)))),
                    Box::new(Expr::Mul(Box::new(copy_expr(f)), Box::new(gp))),
                )),
                Box::new(Expr::Pow(Box::new(copy_expr(g)), Box::new(mk_lit(2)))),
            )
        },
        Expr::Pow(base, exp) => {
            match &**exp {
                Expr::Const(n) => {
                    let n1 = n.sub(&Rational::from_integer(1));
                    proof {
                        lemma_rat_pair(n1);
                    }
                    let bp = differentiate(base, var);
                    Expr::Mul(
                        Box::new(Expr::Mul(
                            Box::new(Expr::Const(*n)),
                            Box::new(Expr::Pow(Box::new(copy_expr(base)), Box::new(Expr::Const(n1)))),
                        )),
                        Box::new(bp),
                    )
                },
                _ => Expr::Derivative { expr: Box::new(copy_expr(expr)), var },
            }
        },
        _ => Expr::Derivative { expr: Box::new(copy_expr(expr)), var },
    }
}

/// Whether `e` is a zero constant.
pub open spec fn zero_const(e: Expr) -> bool {
    e matches Expr::Const(c) && c.num() == 0
}

/// Whether `e` is the constant 1.
pub open spec fn one_const(e: Expr) -> bool {
    e matches Expr::Const(c) && c.pair() == (1int, 1int)
}

/// One bottom-up simplification pass: `0 + x = x`, `x + 0 = x`,
/// `x - 0 = x`, `0·x = x·0 = 0`, `1·x = x`, `x·1 = x`, `x^0 = 1`, `x^1 = x`,
/// `-(-x) = x`, and constant folding of `+ - ·` and negation; other forms
/// are left as they are.  `None` when a folded constant leaves `i64`.
pub open spec fn simp_view(e: Expr) -> Option<Expr>
    decreases e,
{
    match e {
        Expr::Add(a, b) => match (simp_view(*a), simp_view(*b)) {
            (Some(x), Some(y)) => if zero_const(x) {
                Some(y)
            } else if zero_const(y) {
                Some(x)
            } else {
                match (x, y) {
                    (Expr::Const(c1), Expr::Const(c2)) => if fits(radd(c1.pair(), c2.pair())) {
                        Some(Expr::Const(rat(radd(c1.pair(), c2.pair()))))
                    } else {
                        None
                    },
                    _ => Some(Expr::Add(Box::new(x), Box::new(y))),
                }
            },
            _ => None,
        },
        Expr::Sub(a, b) => match (simp_view(*a), simp_view(*b)) {
            (Some(x), Some(y)) => if zero_const(y) {
                Some(x)
            } else {
                match (x, y) {
                    (Expr::Const(c1), Expr::Const(c2)) => if fits(rsub(c1.pair(), c2.pair())) {
                        Some(Expr::Const(rat(rsub(c1.pair(), c2.pair()))))
                    } else {
                        None
                    },
                    _ => Some(Expr::Sub(Box::new(x), Box::new(y))),
                }
            },
            _ => None,
        },
        Expr::Mul(a, b) => match (simp_view(*a), simp_view(*b)) {
            (Some(x), Some(y)) => if zero_const(x) || zero_const(y) {
                Some(lit(0))
            } else if one_const(x) {
                Some(y)
            } else if one_const(y) {
                Some(x)
            } else {
                match (x, y) {
                    (Expr::Const(c1), Expr::Const(c2)) => if fits(rmul(c1.pair(), c2.pair())) {
                        Some(Expr::Const(rat(rmul(c1.pair(), c2.pair()))))
                    } else {
                        None
                    },
                    _ => Some(Expr::Mul(Box::new(x), Box::new(y))),
                }
            },
            _ => None,
        },
        Expr::Pow(a, b) => match (simp_view(*a), simp_view(*b)) {
            (Some(x), Some(y)) => if zero_const(y) {
                Some(lit(1))
            } else if one_const(y) {
                Some(x)
            } else {
                Some(Expr::Pow(Box::new(x), Box::new(y)))
            },
            _ => None,
        },
        Expr::Neg(a) => match simp_view(*a) {
            Some(x) => match x {
                Expr::Neg(y) => Some(*y),
                Expr::Const(c) => Some(Expr::Const(rat((-c.num(), c.den())))),
                _ => Some(Expr::Neg(Box::new(x))),
            },
            None => None,
        },
        _ => Some(e),
    }
}

/// Whether `e` is a zero constant.
fn zero_const_e(e: &Expr) -> (b: bool)
    ensures
        b == zero_const(*e),
{
    match e {
        Expr::Const(c) => c.is_zero(),
        _ => false,
    }
}

/// Whether `e` is the constant 1.
fn one_const_e(e: &Expr) -> (b: bool)
    ensures
        b == one_const(*e),
{
    match e {
        Expr::Const(c) => c.is_one(),
        _ => false,
    }
}

/// One simplification pass, or `None` when a folded constant leaves `i64`.
pub fn checked_simplify(expr: &Expr) -> (r: Option<Expr>)
    ensures
        r == simp_view(*expr),
    decreases expr,
{
    match expr {
        Expr::Add(a, b) => {
            let x = match checked_simplify(a) {
                Some(x) => x,
                None => return None,
            };
            let y = match checked_simplify(b) {
                Some(y) => y,
                None => return None,
            };
            if zero_const_e(&x) {
                Some(y)
            } else if zero_const_e(&y) {
                Some(x)
            } else {
                match (&x, &y) {
                    (Expr::Const(c1), Expr::Const(c2)) => match c1.checked_add(c2) {
                        Some(c) => {
                            proof {
                                lemma_rat_pair(c);
                            }
                            Some(Expr::Const(c))
                        },
                        None => None,
                    },
                    _ => Some(Expr::Add(Box::new(x), Box::new(y))),
                }
            }
        },
        Expr::Sub(a, b) => {
            let x = match checked_simplify(a) {
                Some(x) => x,
                None => return None,
            };
            let y = match checked_simplify(b) {
                Some(y) => y,
                None => return None,
            };
            if zero_const_e(&y) {
                Some(x)
            } else {
                match (&x, &y) {
                    (Expr::Const(c1), Expr::Const(c2)) => match c1.checked_sub(c2) {
                        Some(c) => {
                            proof {
                                lemma_rat_pair(c);
                            }
                            Some(Expr::Const(c))
                        },
                        None => None,
                    },
                    _ => Some(Expr::Sub(Box::new(x), Box::new(y))),
                }
            }
        },
        Expr::Mul(a, b) => {
            let x = match checked_simplify(a) {
                Some(x) => x,
                None => return None,
            };
            let y = match checked_simplify(b) {
                Some(y) => y,
                None => return None,
            };
            if zero_const_e(&x) || zero_const_e(&y) {
                Some(mk_lit(0))
            } else if one_const_e(&x) {
                Some(y)
            } else if one_const_e(&y) {
                Some(x)
            } else {
                match (&x, &y) {
                    (Expr::Const(c1), Expr::Const(c2)) => match c1.checked_mul(c2) {
                        Some(c) => {
                            proof {
                                lemma_rat_pair(c);
                            }
                            Some(Expr::Const(c))
                        },
                        None => None,
                    },
                    _ => Some(Expr::Mul(Box::new(x), Box::new(y))),
                }
            }
        },
        Expr::Pow(a, b) => {
            let x = match checked_simplify(a) {
                Some(x) => x,
                None => return None,
            };
            let y = match checked_simplify(b) {
                Some(y) => y,
                None => return None,
            };
            if zero_const_e(&y) {
                Some(mk_lit(1))
            } else if one_const_e(&y) {
                Some(x)
            } else {
                Some(Expr::Pow(Box::new(x), Box::new(y)))
            }
        },
        Expr::Neg(a) => {
            let x = match checked_simplify(a) {
                Some(x) => x,
                None => return None,
            };
            match x {
                Expr::Neg(y) => Some(*y),
                Expr::Const(c) => {
                    let n = c.neg();
                    proof {
                        lemma_rat_pair(n);
                    }
                    Some(Expr::Const(n))
                },
                _ => Some(Expr::Neg(Box::new(x))),
            }
        },
        _ => Some(copy_expr(expr)),
    }
}

/// One simplification pass, as [`simp_view`] states.
pub fn simplify(expr: &Expr) -> (r: Expr)
    requires
        simp_view(*expr) is Some,
    ensures
        simp_view(*expr) == Some(r),
{
    match checked_simplify(expr) {
        Some(r) => r,
        None => copy_expr(expr),
    }
}


// ---------------------------------------------------------------------------
// Extreme values on an interval
// ---------------------------------------------------------------------------

/// `p ≤ q` for fractions with positive denominators.
pub open spec fn frac_le(p: (int, int), q: (int, int)) -> bool {
    p.0 * q.1 <= q.0 * p.1
}

/// `p < q` for fractions with positive denominators.
pub open spec fn frac_lt(p: (int, int), q: (int, int)) -> bool {
    p.0 * q.1 < q.0 * p.1
}

/// The half-integers `h/2` for `h` in `lo..=hi`, in increasing order, that
/// lie in `[a, b]` and at which `d` evaluates to zero.
pub open spec fn critical_points(d: Expr, var: Symbol, a: (int, int), b: (int, int), lo: int, hi: int) -> Seq<(int, int)>
    decreases hi - lo + 1,
{
    if hi < lo {
        Seq::empty()
    } else {
        let rest = critical_points(d, var, a, b, lo, hi - 1);
        let x = normalize(hi, 2);
        if frac_le(a, x) && frac_le(x, b) && (eval_at(d, var, x) matches Some(v) && v.0 == 0) {
            rest.push(x)
        } else {
            rest
        }
    }
}

/// The candidates for an extreme value: the two end points, then the
/// integer and half-integer points from `⌊a⌋` to `⌊b⌋ + 1` (quotients
/// truncated) where the simplified derivative vanishes.
pub open spec fn extreme_candidates(f: Expr, var: Symbol, a: (int, int), b: (int, int)) -> Seq<(int, int)> {
    let ds = simp_view(deriv(f, var))->0;
    seq![a, b] + critical_points(ds, var, a, b, 2 * tdiv(a.0, a.1), 2 * (tdiv(b.0, b.1) + 1))
}

/// The first candidate, in order, with the largest (or smallest) value of
/// `f`, with that value; candidates where `f` has no value are skipped.
pub open spec fn best_of(f: Expr, var: Symbol, cs: Seq<(int, int)>, want_max: bool) -> Option<((int, int), (int, int))>
    decreases cs.len(),
{
    if cs.len() == 0 {
        None
    } else {
        let prev = best_of(f, var, cs.drop_last(), want_max);
        let x = cs.last();
        match eval_at(f, var, x) {
            Some(v) => match prev {
                None => Some((x, v)),
                Some(p) => if (if want_max {
                    frac_lt(p.1, v)
                } else {
                    frac_lt(v, p.1)
                }) {
                    Some((x, v))
                } else {
                    prev
                },
            },
            None => prev,
        }
    }
}

/// Whether the extreme-value search on `[a, b]` can run: the derivative's
/// exponents and folded constants fit, and so does `⌊b⌋ + 1`.
pub open spec fn extreme_ok(f: Expr, var: Symbol, a: (int, int), b: (int, int)) -> bool {
    &&& deriv_ok(f)
    &&& simp_view(deriv(f, var)) is Some
    &&& -4611686018427387904 < tdiv(a.0, a.1)
    &&& tdiv(b.0, b.1) < 4611686018427387903
}

/// Pairs of a run of rationals.
pub open spec fn pairs(v: Seq<Rational>) -> Seq<(int, int)> {
    v.map_values(|r: Rational| r.pair())
}

/// `p < q`.
fn rat_lt(p: &Rational, q: &Rational) -> (b: bool)
    ensures
        b == frac_lt(p.pair(), q.pair()),
{
    p.lemma_wf();
    q.lemma_wf();
    let pn = p.numer() as i128;
    let pd = p.denom() as i128;
    let qn = q.numer() as i128;
    let qd = q.denom() as i128;
    proof {
        assert(-0x7fff_ffff_ffff_ffff * 0x7fff_ffff_ffff_ffff <= pn * qd <= 0x7fff_ffff_ffff_ffff * 0x7fff_ffff_ffff_ffff) by (nonlinear_arith)
            requires
                -0x7fff_ffff_ffff_ffff <= pn <= 0x7fff_ffff_ffff_ffff,
                0 < qd <= 0x7fff_ffff_ffff_ffff,
        ;
        assert(-0x7fff_ffff_ffff_ffff * 0x7fff_ffff_ffff_ffff <= qn * pd <= 0x7fff_ffff_ffff_ffff * 0x7fff_ffff_ffff_ffff) by (nonlinear_arith)
            requires
                -0x7fff_ffff_ffff_ffff <= qn <= 0x7fff_ffff_ffff_ffff,
                0 < pd <= 0x7fff_ffff_ffff_ffff,
        ;
    }
    let l = pn * qd;
    let r = qn * pd;
    l < r
}

/// `p ≤ q`.
fn rat_le(p: &Rational, q: &Rational) -> (b: bool)
    ensures
        b == frac_le(p.pair(), q.pair()),
{
    !rat_lt(q, p)
}

/// The extreme value of `f` over the candidates, as [`best_of`] states.
fn find_extreme(expr: &Expr, var: Symbol, a: Rational, b: Rational, want_max: bool) -> (r: Option<(Rational, Rational)>)
    requires
        extreme_ok(*expr, var, a.pair(), b.pair()),
    ensures
        r matches Some(p) ==> best_of(*expr, var, extreme_candidates(*expr, var, a.pair(), b.pair()), want_max) == Some((p.0.pair(), p.1.pair())),
        r is None ==> best_of(*expr, var, extreme_candidates(*expr, var, a.pair(), b.pair()), want_max) is None,
{
    let d = differentiate(expr, var);
    let ds = simplify(&d);
    let ghost dsv = simp_view(deriv(*expr, var))->0;
    assert(ds == dsv);
    a.lemma_wf();
    b.lemma_wf();
    let qa = div_trunc(a.numer(), a.denom() as u64);
    let qb = div_trunc(b.numer(), b.denom() as u64);
    assert(qa as int == tdiv(a.pair().0, a.pair().1));
    assert(qb as int == tdiv(b.pair().0, b.pair().1));
    assert(-4611686018427387904int < (qa as int) && (qb as int) < 4611686018427387903int);
    let a_int: i128 = 2 * (qa as i128);
    let b_int: i128 = 2 * (qb as i128 + 1);
    let mut cands: Vec<Rational> = Vec::new();
    cands.push(a);
    cands.push(b);
    assert(pairs(cands@) =~= seq![a.pair(), b.pair()] + critical_points(dsv, var, a.pair(), b.pair(), a_int as int, a_int - 1));
    let mut x: i128 = a_int;
    while x <= b_int
        invariant
            a_int <= x,
            x <= b_int + 1 || x == a_int,
            ds == dsv,
            pairs(cands@) == seq![a.pair(), b.pair()] + critical_points(dsv, var, a.pair(), b.pair(), a_int as int, x - 1),
            a_int > i64::MIN,
            b_int < i64::MAX,
        decreases b_int + 1 - x,
    {
        let xi = x as i64;
        let xr = Rational::new(xi, 2);
        let ghost before = cands@;
        if rat_le(&a, &xr) && rat_le(&xr, &b) {
            match evaluate_at(&ds, var, xr) {
                Some(v) => {
                    if v.is_zero() {
                        cands.push(xr);
                        assert(pairs(cands@) =~= pairs(before).push(xr.pair()));
                    }
                },
                None => {},
            }
        }
        x = x + 1;
    }
    assert(critical_points(dsv, var, a.pair(), b.pair(), a_int as int, x - 1) == critical_points(dsv, var, a.pair(), b.pair(), a_int as int, b_int as int));
    let ghost cs = pairs(cands@);
    let mut best: Option<(Rational, Rational)> = None;
    let mut i: usize = 0;
    assert(cs.take(0) =~= Seq::<(int, int)>::empty());
    while i < cands.len()
        invariant
            i <= cands@.len(),
            cs == pairs(cands@),
            best matches Some(p) ==> best_of(*expr, var, cs.take(i as int), want_max) == Some((p.0.pair(), p.1.pair())),
            best is None ==> best_of(*expr, var, cs.take(i as int), want_max) is None,
        decreases cands.len() - i,
    {
        let c = cands[i];
        proof {
            assert(cs.take(i + 1).drop_last() =~= cs.take(i as int));
            assert(cs.take(i + 1).last() == c.pair());
        }
        match evaluate_at(expr, var, c) {
            Some(v) => {
                let better = match &best {
                    None => true,
                    Some(p) => if want_max {
                        rat_lt(&p.1, &v)
                    } else {
                        rat_lt(&v, &p.1)
                    },
                };
                if better {
                    best = Some((c, v));
                }
            },
            None => {},
        }
        i = i + 1;
    }
    assert(cs.take(cands.len() as int) =~= cs);
    best
}

/// The largest value of `f` on `[a, b]` and the first candidate point where
/// it is taken, among the end points and the integer and half-integer
/// points where the derivative vanishes (see [`extreme_candidates`] and
/// [`best_of`]).  A critical point that is not a multiple of one half (an
/// irrational one, say) is not examined: a rational result cannot name it.
pub fn find_max_on_interval(expr: &Expr, var: Symbol, a: Rational, b: Rational) -> (r: Option<(Rational, Rational)>)
    requires
        extreme_ok(*expr, var, a.pair(), b.pair()),
    ensures
        r matches Some(p) ==> best_of(*expr, var, extreme_candidates(*expr, var, a.pair(), b.pair()), true) == Some((p.0.pair(), p.1.pair())),
        r is None ==> best_of(*expr, var, extreme_candidates(*expr, var, a.pair(), b.pair()), true) is None,
{
    find_extreme(expr, var, a, b, true)
}

/// The smallest value of `f` on `[a, b]` and the first candidate point where
/// it is taken, as for [`find_max_on_interval`].
pub fn find_min_on_interval(expr: &Expr, var: Symbol, a: Rational, b: Rational) -> (r: Option<(Rational, Rational)>)
    requires
        extreme_ok(*expr, var, a.pair(), b.pair()),
    ensures
        r matches Some(p) ==> best_of(*expr, var, extreme_candidates(*expr, var, a.pair(), b.pair()), false) == Some((p.0.pair(), p.1.pair())),
        r is None ==> best_of(*expr, var, extreme_candidates(*expr, var, a.pair(), b.pair()), false) is None,
{
    find_extreme(expr, var, a, b, false)
}

/// The rule `chain_rule_tan`: d/dx(tan(g(x))) = sec²(g(x)) * g'(x) = g'(x)/cos²(g(x)).
pub fn chain_rule_tan() -> (r: Rule)
    ensures
        rule_view(r) == (900u32, "chain_rule_tan"@, RuleCategory::Derivative, "d/dx(tan(g(x))) = sec²(g(x)) * g'(x) = g'(x)/cos²(g(x))"@, Seq::<Domain>::empty(), Seq::<Feature>::empty(), false, 2u32, Rewrite::ChainRuleTan),
{
    Rule {
        id: RuleId(900),
        name: "chain_rule_tan",
        category: RuleCategory::Derivative,
        description: "d/dx(tan(g(x))) = sec²(g(x)) * g'(x) = g'(x)/cos²(g(x))",
        domains: Vec::new(),
        requires: Vec::new(),
        reversible: false,
        cost: 2,
        rewrite: Rewrite::ChainRuleTan,
    }
}

/// The rule `chain_rule_exp`: d/dx(e^g(x)) = e^g(x) * g'(x).
pub fn chain_rule_exp() -> (r: Rule)
    ensures
        rule_view(r) == (901u32, "chain_rule_exp"@, RuleCategory::Derivative, "d/dx(e^g(x)) = e^g(x) * g'(x)"@, Seq::<Domain>::empty(), Seq::<Feature>::empty(), false, 2u32, Rewrite::ChainRuleExp),
{
    Rule {
        id: RuleId(901),
        name: "chain_rule_exp",
        category: RuleCategory::Derivative,
        description: "d/dx(e^g(x)) = e^g(x) * g'(x)",
        domains: Vec::new(),
        requires: Vec::new(),
        reversible: false,
        cost: 2,
        rewrite: Rewrite::ChainRuleExp,
    }
}

/// The rule `chain_rule_ln`: d/dx(ln(g(x))) = g'(x)/g(x).
pub fn chain_rule_ln() -> (r: Rule)
    ensures
        rule_view(r) == (902u32, "chain_rule_ln"@, RuleCategory::Derivative, "d/dx(ln(g(x))) = g'(x)/g(x)"@, Seq::<Domain>::empty(), Seq::<Feature>::empty(), false, 2u32, Rewrite::ChainRuleLn),
{
    Rule {
        id: RuleId(902),
        name: "chain_rule_ln",
        category: RuleCategory::Derivative,
        description: "d/dx(ln(g(x))) = g'(x)/g(x)",
        domains: Vec::new(),
        requires: Vec::new(),
        reversible: false,
        cost: 2,
        rewrite: Rewrite::ChainRuleLn,
    }
}

/// The rule `inverse_trig_deriv_arcsin`: d/dx(arcsin(x)) = 1/√(1-x²).
pub fn inverse_trig_deriv_arcsin() -> (r: Rule)
    ensures
        rule_view(r) == (903u32, "inverse_trig_deriv_arcsin"@, RuleCategory::Derivative, "d/dx(arcsin(x)) = 1/√(1-x²)"@, Seq::<Domain>::empty(), Seq::<Feature>::empty(), false, 2u32, Rewrite::InverseTrigDerivArcsin),
{
    Rule {
        id: RuleId(903),
        name: "inverse_trig_deriv_arcsin",
        category: RuleCategory::Derivative,
        description: "d/dx(arcsin(x)) = 1/√(1-x²)",
        domains: Vec::new(),
        requires: Vec::new(),
        reversible: false,
        cost: 2,
        rewrite: Rewrite::InverseTrigDerivArcsin,
    }
}

/// The rule `diff_rule`: d/dx(f - g) = f' - g'.
pub fn diff_rule() -> (r: Rule)
    ensures
        rule_view(r) == (904u32, "diff_rule"@, RuleCategory::Derivative, "d/dx(f - g) = f' - g'"@, Seq::<Domain>::empty(), Seq::<Feature>::empty(), false, 1u32, Rewrite::DiffRule),
{
    Rule {
        id: RuleId(904),
        name: "diff_rule",
        category: RuleCategory::Derivative,
        description: "d/dx(f - g) = f' - g'",
        domains: Vec::new(),
        requires: Vec::new(),
        reversible: false,
        cost: 1,
        rewrite: Rewrite::DiffRule,
    }
}

/// The rule `constant_multiple_rule`: d/dx(c*f) = c*f' where c is constant.
pub fn constant_multiple_rule() -> (r: Rule)
    ensures
        rule_view(r) == (905u32, "constant_multiple_rule"@, RuleCategory::Derivative, "d/dx(c*f) = c*f' where c is constant"@, Seq::<Domain>::empty(), Seq::<Feature>::empty(), false, 1u32, Rewrite::ConstantMultipleRule),
{
    Rule {
        id: RuleId(905),
        name: "constant_multiple_rule",
        category: RuleCategory::Derivative,
        description: "d/dx(c*f) = c*f' where c is constant",
        domains: Vec::new(),
        requires: Vec::new(),
        reversible: false,
        cost: 1,
        rewrite: Rewrite::ConstantMultipleRule,
    }
}

/// The rule `constant_base_exp_simple`: d/dx(a^x) = a^x·ln(a) where a is constant.
pub fn constant_base_exp_simple() -> (r: Rule)
    ensures
        rule_view(r) == (906u32, "constant_base_exp_simple"@, RuleCategory::Derivative, "d/dx(a^x) = a^x·ln(a) where a is constant"@, Seq::<Domain>::empty(), Seq::<Feature>::empty(), false, 2u32, Rewrite::ConstantBaseExpSimple),
{
    Rule {
        id: RuleId(906),
        name: "constant_base_exp_simple",
        category: RuleCategory::Derivative,
        description: "d/dx(a^x) = a^x·ln(a) where a is constant",
        domains: Vec::new(),
        requires: Vec::new(),
        reversible: false,
        cost: 2,
        rewrite: Rewrite::ConstantBaseExpSimple,
    }
}

/// The rule `constant_base_exp_chain`: d/dx(a^f(x)) = a^f(x)·ln(a)·f'(x) where a is constant.
pub fn constant_base_exp_chain() -> (r: Rule)
    ensures
        rule_view(r) == (409u32, "constant_base_exp_chain"@, RuleCategory::Derivative, "d/dx(a^f(x)) = a^f(x)·ln(a)·f'(x) where a is constant"@, Seq::<Domain>::empty(), Seq::<Feature>::empty(), false, 3u32, Rewrite::ConstantBaseExpChain),
{
    Rule {
        id: RuleId(409),
        name: "constant_base_exp_chain",
        category: RuleCategory::Derivative,
        description: "d/dx(a^f(x)) = a^f(x)·ln(a)·f'(x) where a is constant",
        domains: Vec::new(),
        requires: Vec::new(),
        reversible: false,
        cost: 3,
        rewrite: Rewrite::ConstantBaseExpChain,
    }
}

/// The rule `sqrt_chain_rule`: d/dx(√f) = f'/(2√f).
pub fn sqrt_chain_rule() -> (r: Rule)
    ensures
        rule_view(r) == (476u32, "sqrt_chain_rule"@, RuleCategory::Derivative, "d/dx(√f) = f'/(2√f)"@, Seq::<Domain>::empty(), Seq::<Feature>::empty(), false, 2u32, Rewrite::SqrtChainRule),
{
    Rule {
        id: RuleId(476),
        name: "sqrt_chain_rule",
        category: RuleCategory::Derivative,
        description: "d/dx(√f) = f'/(2√f)",
        domains: Vec::new(),
        requires: Vec::new(),
        reversible: false,
        cost: 2,
        rewrite: Rewrite::SqrtChainRule,
    }
}

/// The rule `general_power_rule`: d/dx(f^n) = n·f^(n-1)·f' where n is constant.
pub fn general_power_rule() -> (r: Rule)
    ensures
        rule_view(r) == (475u32, "general_power_rule"@, RuleCategory::Derivative, "d/dx(f^n) = n·f^(n-1)·f' where n is constant"@, Seq::<Domain>::empty(), Seq::<Feature>::empty(), false, 3u32, Rewrite::GeneralPowerRule),
{
    Rule {
        id: RuleId(475),
        name: "general_power_rule",
        category: RuleCategory::Derivative,
        description: "d/dx(f^n) = n·f^(n-1)·f' where n is constant",
        domains: Vec::new(),
        requires: Vec::new(),
        reversible: false,
        cost: 3,
        rewrite: Rewrite::GeneralPowerRule,
    }
}

/// The rule `log_base_simple`: d/dx(log_a(x)) = 1/(x·ln(a)).
pub fn log_base_simple() -> (r: Rule)
    ensures
        rule_view(r) == (411u32, "log_base_simple"@, RuleCategory::Derivative, "d/dx(log_a(x)) = 1/(x·ln(a))"@, Seq::<Domain>::empty(), Seq::<Feature>::empty(), false, 2u32, Rewrite::LogBaseSimple),
{
    Rule {
        id: RuleId(411),
        name: "log_base_simple",
        category: RuleCategory::Derivative,
        description: "d/dx(log_a(x)) = 1/(x·ln(a))",
        domains: Vec::new(),
        requires: Vec::new(),
        reversible: false,
        cost: 2,
        rewrite: Rewrite::LogBaseSimple,
    }
}

/// The rule `log_base_chain`: d/dx(log_a(f)) = f'/(f·ln(a)).
pub fn log_base_chain() -> (r: Rule)
    ensures
        rule_view(r) == (412u32, "log_base_chain"@, RuleCategory::Derivative, "d/dx(log_a(f)) = f'/(f·ln(a))"@, Seq::<Domain>::empty(), Seq::<Feature>::empty(), false, 3u32, Rewrite::LogBaseChain),
{
    Rule {
        id: RuleId(412),
        name: "log_base_chain",
        category: RuleCategory::Derivative,
        description: "d/dx(log_a(f)) = f'/(f·ln(a))",
        domains: Vec::new(),
        requires: Vec::new(),
        reversible: false,
        cost: 3,
        rewrite: Rewrite::LogBaseChain,
    }
}

/// The rule `sec_derivative`: d/dx(sec(f)) = f'·sec(f)·tan(f) where sec(f) = 1/cos(f).
pub fn sec_derivative() -> (r: Rule)
    ensures
        rule_view(r) == (472u32, "sec_derivative"@, RuleCategory::Derivative, "d/dx(sec(f)) = f'·sec(f)·tan(f) where sec(f) = 1/cos(f)"@, Seq::<Domain>::empty(), Seq::<Feature>::empty(), false, 3u32, Rewrite::SecDerivative),
{
    Rule {
        id: RuleId(472),
        name: "sec_derivative",
        category: RuleCategory::Derivative,
        description: "d/dx(sec(f)) = f'·sec(f)·tan(f) where sec(f) = 1/cos(f)",
        domains: Vec::new(),
        requires: Vec::new(),
        reversible: false,
        cost: 3,
        rewrite: Rewrite::SecDerivative,
    }
}

/// The rule `csc_derivative`: d/dx(csc(f)) = -f'·csc(f)·cot(f) where csc(f) = 1/sin(f).
pub fn csc_derivative() -> (r: Rule)
    ensures
        rule_view(r) == (473u32, "csc_derivative"@, RuleCategory::Derivative, "d/dx(csc(f)) = -f'·csc(f)·cot(f) where csc(f) = 1/sin(f)"@, Seq::<Domain>::empty(), Seq::<Feature>::empty(), false, 3u32, Rewrite::CscDerivative),
{
    Rule {
        id: RuleId(473),
        name: "csc_derivative",
        category: RuleCategory::Derivative,
        description: "d/dx(csc(f)) = -f'·csc(f)·cot(f) where csc(f) = 1/sin(f)",
        domains: Vec::new(),
        requires: Vec::new(),
        reversible: false,
        cost: 3,
        rewrite: Rewrite::CscDerivative,
    }
}

/// The rule `cot_derivative`: d/dx(cot(f)) = -f'/sin²(f) where cot(f) = cos(f)/sin(f).
pub fn cot_derivative() -> (r: Rule)
    ensures
        rule_view(r) == (474u32, "cot_derivative"@, RuleCategory::Derivative, "d/dx(cot(f)) = -f'/sin²(f) where cot(f) = cos(f)/sin(f)"@, Seq::<Domain>::empty(), Seq::<Feature>::empty(), false, 3u32, Rewrite::CotDerivative),
{
    Rule {
        id: RuleId(474),
        name: "cot_derivative",
        category: RuleCategory::Derivative,
        description: "d/dx(cot(f)) = -f'/sin²(f) where cot(f) = cos(f)/sin(f)",
        domains: Vec::new(),
        requires: Vec::new(),
        reversible: false,
        cost: 3,
        rewrite: Rewrite::CotDerivative,
    }
}

/// The rule `arcsin_derivative`: d/dx(arcsin(f)) = f'/√(1-f²).
pub fn arcsin_derivative() -> (r: Rule)
    ensures
        rule_view(r) == (413u32, "arcsin_derivative"@, RuleCategory::Derivative, "d/dx(arcsin(f)) = f'/√(1-f²)"@, Seq::<Domain>::empty(), Seq::<Feature>::empty(), false, 3u32, Rewrite::ArcsinDerivative),
{
    Rule {
        id: RuleId(413),
        name: "arcsin_derivative",
        category: RuleCategory::Derivative,
        description: "d/dx(arcsin(f)) = f'/√(1-f²)",
        domains: Vec::new(),
        requires: Vec::new(),
        reversible: false,
        cost: 3,
        rewrite: Rewrite::ArcsinDerivative,
    }
}

/// The rule `arccos_derivative`: d/dx(arccos(f)) = -f'/√(1-f²).
pub fn arccos_derivative() -> (r: Rule)
    ensures
        rule_view(r) == (414u32, "arccos_derivative"@, RuleCategory::Derivative, "d/dx(arccos(f)) = -f'/√(1-f²)"@, Seq::<Domain>::empty(), Seq::<Feature>::empty(), false, 3u32, Rewrite::ArccosDerivative),
{
    Rule {
        id: RuleId(414),
        name: "arccos_derivative",
        category: RuleCategory::Derivative,
        description: "d/dx(arccos(f)) = -f'/√(1-f²)",
        domains: Vec::new(),
        requires: Vec::new(),
        reversible: false,
        cost: 3,
        rewrite: Rewrite::ArccosDerivative,
    }
}

/// The rule `arctan_derivative`: d/dx(arctan(f)) = f'/(1+f²).
pub fn arctan_derivative() -> (r: Rule)
    ensures
        rule_view(r) == (415u32, "arctan_derivative"@, RuleCategory::Derivative, "d/dx(arctan(f)) = f'/(1+f²)"@, Seq::<Domain>::empty(), Seq::<Feature>::empty(), false, 3u32, Rewrite::ArctanDerivative),
{
    Rule {
        id: RuleId(415),
        name: "arctan_derivative",
        category: RuleCategory::Derivative,
        description: "d/dx(arctan(f)) = f'/(1+f²)",
        domains: Vec::new(),
        requires: Vec::new(),
        reversible: false,
        cost: 3,
        rewrite: Rewrite::ArctanDerivative,
    }
}

/// The rule `arccot_derivative`: d/dx(arccot(f)) = -f'/(1+f²).
pub fn arccot_derivative() -> (r: Rule)
    ensures
        rule_view(r) == (416u32, "arccot_derivative"@, RuleCategory::Derivative, "d/dx(arccot(f)) = -f'/(1+f²)"@, Seq::<Domain>::empty(), Seq::<Feature>::empty(), false, 3u32, Rewrite::ArccotDerivative),
{
    Rule {
        id: RuleId(416),
        name: "arccot_derivative",
        category: RuleCategory::Derivative,
        description: "d/dx(arccot(f)) = -f'/(1+f²)",
        domains: Vec::new(),
        requires: Vec::new(),
        reversible: false,
        cost: 3,
        rewrite: Rewrite::ArccotDerivative,
    }
}

/// The rule `arcsec_derivative`: d/dx(arcsec(f)) = f'/(|f|√(f²-1)).
pub fn arcsec_derivative() -> (r: Rule)
    ensures
        rule_view(r) == (417u32, "arcsec_derivative"@, RuleCategory::Derivative, "d/dx(arcsec(f)) = f'/(|f|√(f²-1))"@, Seq::<Domain>::empty(), Seq::<Feature>::empty(), false, 4u32, Rewrite::ArcsecDerivative),
{
    Rule {
        id: RuleId(417),
        name: "arcsec_derivative",
        category: RuleCategory::Derivative,
        description: "d/dx(arcsec(f)) = f'/(|f|√(f²-1))",
        domains: Vec::new(),
        requires: Vec::new(),
        reversible: false,
        cost: 4,
        rewrite: Rewrite::ArcsecDerivative,
    }
}

/// The rule `arccsc_derivative`: d/dx(arccsc(f)) = -f'/(|f|√(f²-1)).
pub fn arccsc_derivative() -> (r: Rule)
    ensures
        rule_view(r) == (418u32, "arccsc_derivative"@, RuleCategory::Derivative, "d/dx(arccsc(f)) = -f'/(|f|√(f²-1))"@, Seq::<Domain>::empty(), Seq::<Feature>::empty(), false, 4u32, Rewrite::ArccscDerivative),
{
    Rule {
        id: RuleId(418),
        name: "arccsc_derivative",
        category: RuleCategory::Derivative,
        description: "d/dx(arccsc(f)) = -f'/(|f|√(f²-1))",
        domains: Vec::new(),
        requires: Vec::new(),
        reversible: false,
        cost: 4,
        rewrite: Rewrite::ArccscDerivative,
    }
}

/// The rule `integral_constant_multiple`: ∫k·f(x) dx = k·∫f(x) dx.
pub fn integral_constant_multiple() -> (r: Rule)
    ensures
        rule_view(r) == (419u32, "integral_constant_multiple"@, RuleCategory::Integral, "∫k·f(x) dx = k·∫f(x) dx"@, Seq::<Domain>::empty(), Seq::<Feature>::empty(), true, 1u32, Rewrite::IntegralConstantMultiple),
{
    Rule {
        id: RuleId(419),
        name: "integral_constant_multiple",
        category: RuleCategory::Integral,
        description: "∫k·f(x) dx = k·∫f(x) dx",
        domains: Vec::new(),
        requires: Vec::new(),
        reversible: true,
        cost: 1,
        rewrite: Rewrite::IntegralConstantMultiple,
    }
}

/// The rule `integral_power`: ∫x^n dx = x^(n+1)/(n+1) + C.
pub fn integral_power() -> (r: Rule)
    ensures
        rule_view(r) == (907u32, "integral_power"@, RuleCategory::Integral, "∫x^n dx = x^(n+1)/(n+1) + C"@, Seq::<Domain>::empty(), Seq::<Feature>::empty(), true, 2u32, Rewrite::IntegralPower),
{
    Rule {
        id: RuleId(907),
        name: "integral_power",
        category: RuleCategory::Integral,
        description: "∫x^n dx = x^(n+1)/(n+1) + C",
        domains: Vec::new(),
        requires: Vec::new(),
        reversible: true,
        cost: 2,
        rewrite: Rewrite::IntegralPower,
    }
}

/// The rule `integral_constant`: ∫k dx = kx + C.
pub fn integral_constant() -> (r: Rule)
    ensures
        rule_view(r) == (908u32, "integral_constant"@, RuleCategory::Integral, "∫k dx = kx + C"@, Seq::<Domain>::empty(), Seq::<Feature>::empty(), true, 1u32, Rewrite::IntegralConstant),
{
    Rule {
        id: RuleId(908),
        name: "integral_constant",
        category: RuleCategory::Integral,
        description: "∫k dx = kx + C",
        domains: Vec::new(),
        requires: Vec::new(),
        reversible: true,
        cost: 1,
        rewrite: Rewrite::IntegralConstant,
    }
}

/// The rule `integral_sum`: ∫(f+g) dx = ∫f dx + ∫g dx.
pub fn integral_sum() -> (r: Rule)
    ensures
        rule_view(r) == (909u32, "integral_sum"@, RuleCategory::Integral, "∫(f+g) dx = ∫f dx + ∫g dx"@, Seq::<Domain>::empty(), Seq::<Feature>::empty(), true, 2u32, Rewrite::IntegralSum),
{
    Rule {
        id: RuleId(909),
        name: "integral_sum",
        category: RuleCategory::Integral,
        description: "∫(f+g) dx = ∫f dx + ∫g dx",
        domains: Vec::new(),
        requires: Vec::new(),
        reversible: true,
        cost: 2,
        rewrite: Rewrite::IntegralSum,
    }
}

/// The rule `integral_exp`: ∫e^x dx = e^x + C.
pub fn integral_exp() -> (r: Rule)
    ensures
        rule_view(r) == (910u32, "integral_exp"@, RuleCategory::Integral, "∫e^x dx = e^x + C"@, Seq::<Domain>::empty(), Seq::<Feature>::empty(), true, 1u32, Rewrite::IntegralExp),
{
    Rule {
        id: RuleId(910),
        name: "integral_exp",
        category: RuleCategory::Integral,
        description: "∫e^x dx = e^x + C",
        domains: Vec::new(),
        requires: Vec::new(),
        reversible: true,
        cost: 1,
        rewrite: Rewrite::IntegralExp,
    }
}

/// The rule `integral_ln`: ∫1/x dx = ln|x| + C.
pub fn integral_ln() -> (r: Rule)
    ensures
        rule_view(r) == (911u32, "integral_ln"@, RuleCategory::Integral, "∫1/x dx = ln|x| + C"@, Seq::<Domain>::empty(), Seq::<Feature>::empty(), true, 2u32, Rewrite::IntegralLn),
{
    Rule {
        id: RuleId(911),
        name: "integral_ln",
        category: RuleCategory::Integral,
        description: "∫1/x dx = ln|x| + C",
        domains: Vec::new(),
        requires: Vec::new(),
        reversible: true,
        cost: 2,
        rewrite: Rewrite::IntegralLn,
    }
}

/// The rule `integral_sin`: ∫sin(x) dx = -cos(x) + C.
pub fn integral_sin() -> (r: Rule)
    ensures
        rule_view(r) == (912u32, "integral_sin"@, RuleCategory::Integral, "∫sin(x) dx = -cos(x) + C"@, Seq::<Domain>::empty(), Seq::<Feature>::empty(), true, 2u32, Rewrite::IntegralSin),
{
    Rule {
        id: RuleId(912),
        name: "integral_sin",
        category: RuleCategory::Integral,
        description: "∫sin(x) dx = -cos(x) + C",
        domains: Vec::new(),
        requires: Vec::new(),
        reversible: true,
        cost: 2,
        rewrite: Rewrite::IntegralSin,
    }
}

/// The rule `integral_cos`: ∫cos(x) dx = sin(x) + C.
pub fn integral_cos() -> (r: Rule)
    ensures
        rule_view(r) == (913u32, "integral_cos"@, RuleCategory::Integral, "∫cos(x) dx = sin(x) + C"@, Seq::<Domain>::empty(), Seq::<Feature>::empty(), true, 2u32, Rewrite::IntegralCos),
{
    Rule {
        id: RuleId(913),
        name: "integral_cos",
        category: RuleCategory::Integral,
        description: "∫cos(x) dx = sin(x) + C",
        domains: Vec::new(),
        requires: Vec::new(),
        reversible: true,
        cost: 2,
        rewrite: Rewrite::IntegralCos,
    }
}

/// The rule `integral_difference`: ∫(f-g) dx = ∫f dx - ∫g dx.
pub fn integral_difference() -> (r: Rule)
    ensures
        rule_view(r) == (914u32, "integral_difference"@, RuleCategory::Integral, "∫(f-g) dx = ∫f dx - ∫g dx"@, Seq::<Domain>::empty(), Seq::<Feature>::empty(), true, 2u32, Rewrite::IntegralDifference),
{
    Rule {
        id: RuleId(914),
        name: "integral_difference",
        category: RuleCategory::Integral,
        description: "∫(f-g) dx = ∫f dx - ∫g dx",
        domains: Vec::new(),
        requires: Vec::new(),
        reversible: true,
        cost: 2,
        rewrite: Rewrite::IntegralDifference,
    }
}

/// The rule `integral_tan`: ∫tan(x) dx = -ln|cos(x)| + C.
pub fn integral_tan() -> (r: Rule)
    ensures
        rule_view(r) == (428u32, "integral_tan"@, RuleCategory::Integral, "∫tan(x) dx = -ln|cos(x)| + C"@, Seq::<Domain>::empty(), Seq::<Feature>::empty(), true, 3u32, Rewrite::IntegralTan),
{
    Rule {
        id: RuleId(428),
        name: "integral_tan",
        category: RuleCategory::Integral,
        description: "∫tan(x) dx = -ln|cos(x)| + C",
        domains: Vec::new(),
        requires: Vec::new(),
        reversible: true,
        cost: 3,
        rewrite: Rewrite::IntegralTan,
    }
}

/// The rule `integral_sec2`: ∫sec²(x) dx = tan(x) + C.
pub fn integral_sec2() -> (r: Rule)
    ensures
        rule_view(r) == (429u32, "integral_sec2"@, RuleCategory::Integral, "∫sec²(x) dx = tan(x) + C"@, Seq::<Domain>::empty(), Seq::<Feature>::empty(), true, 2u32, Rewrite::IntegralSec2),
{
    Rule {
        id: RuleId(429),
        name: "integral_sec2",
        category: RuleCategory::Integral,
        description: "∫sec²(x) dx = tan(x) + C",
        domains: Vec::new(),
        requires: Vec::new(),
        reversible: true,
        cost: 2,
        rewrite: Rewrite::IntegralSec2,
    }
}

/// The rule `integral_csc2`: ∫csc²(x) dx = -cot(x) + C.
pub fn integral_csc2() -> (r: Rule)
    ensures
        rule_view(r) == (430u32, "integral_csc2"@, RuleCategory::Integral, "∫csc²(x) dx = -cot(x) + C"@, Seq::<Domain>::empty(), Seq::<Feature>::empty(), true, 2u32, Rewrite::IntegralCsc2),
{
    Rule {
        id: RuleId(430),
        name: "integral_csc2",
        category: RuleCategory::Integral,
        description: "∫csc²(x) dx = -cot(x) + C",
        domains: Vec::new(),
        requires: Vec::new(),
        reversible: true,
        cost: 2,
        rewrite: Rewrite::IntegralCsc2,
    }
}

/// The rule `integral_sinh`: ∫sinh(x) dx = cosh(x) + C.
pub fn integral_sinh() -> (r: Rule)
    ensures
        rule_view(r) == (431u32, "integral_sinh"@, RuleCategory::Integral, "∫sinh(x) dx = cosh(x) + C"@, Seq::<Domain>::empty(), Seq::<Feature>::empty(), true, 2u32, Rewrite::Inert),
{
    Rule {
        id: RuleId(431),
        name: "integral_sinh",
        category: RuleCategory::Integral,
        description: "∫sinh(x) dx = cosh(x) + C",
        domains: Vec::new(),
        requires: Vec::new(),
        reversible: true,
        cost: 2,
        rewrite: Rewrite::Inert,
    }
}

/// The rule `integral_cosh`: ∫cosh(x) dx = sinh(x) + C.
pub fn integral_cosh() -> (r: Rule)
    ensures
        rule_view(r) == (432u32, "integral_cosh"@, RuleCategory::Integral, "∫cosh(x) dx = sinh(x) + C"@, Seq::<Domain>::empty(), Seq::<Feature>::empty(), true, 2u32, Rewrite::Inert),
{
    Rule {
        id: RuleId(432),
        name: "integral_cosh",
        category: RuleCategory::Integral,
        description: "∫cosh(x) dx = sinh(x) + C",
        domains: Vec::new(),
        requires: Vec::new(),
        reversible: true,
        cost: 2,
        rewrite: Rewrite::Inert,
    }
}

/// The rule `integration_by_parts`: ∫x·e^x dx = x·e^x - e^x + C (simplified pattern).
pub fn integration_by_parts() -> (r: Rule)
    ensures
        rule_view(r) == (433u32, "integration_by_parts"@, RuleCategory::Integral, "∫x·e^x dx = x·e^x - e^x + C (simplified pattern)"@, Seq::<Domain>::empty(), Seq::<Feature>::empty(), true, 4u32, Rewrite::IntegrationByParts),
{
    Rule {
        id: RuleId(433),
        name: "integration_by_parts",
        category: RuleCategory::Integral,
        description: "∫x·e^x dx = x·e^x - e^x + C (simplified pattern)",
        domains: Vec::new(),
        requires: Vec::new(),
        reversible: true,
        cost: 4,
        rewrite: Rewrite::IntegrationByParts,
    }
}

/// The rule `u_substitution`: ∫2x·e^(x²) dx = e^(x²) + C (chain rule pattern).
pub fn u_substitution() -> (r: Rule)
    ensures
        rule_view(r) == (434u32, "u_substitution"@, RuleCategory::Integral, "∫2x·e^(x²) dx = e^(x²) + C (chain rule pattern)"@, Seq::<Domain>::empty(), Seq::<Feature>::empty(), true, 3u32, Rewrite::USubstitution),
{
    Rule {
        id: RuleId(434),
        name: "u_substitution",
        category: RuleCategory::Integral,
        description: "∫2x·e^(x²) dx = e^(x²) + C (chain rule pattern)",
        domains: Vec::new(),
        requires: Vec::new(),
        reversible: true,
        cost: 3,
        rewrite: Rewrite::USubstitution,
    }
}

/// The rule `partial_fractions`: ∫1/(x²-1) dx = (1/2)ln|(x-1)/(x+1)| + C (partial fractions).
pub fn partial_fractions() -> (r: Rule)
    ensures
        rule_view(r) == (435u32, "partial_fractions"@, RuleCategory::Integral, "∫1/(x²-1) dx = (1/2)ln|(x-1)/(x+1)| + C (partial fractions)"@, Seq::<Domain>::empty(), Seq::<Feature>::empty(), true, 4u32, Rewrite::PartialFractions),
{
    Rule {
        id: RuleId(435),
        name: "partial_fractions",
        category: RuleCategory::Integral,
        description: "∫1/(x²-1) dx = (1/2)ln|(x-1)/(x+1)| + C (partial fractions)",
        domains: Vec::new(),
        requires: Vec::new(),
        reversible: true,
        cost: 4,
        rewrite: Rewrite::PartialFractions,
    }
}

/// The rule `trig_substitution`: ∫1/√(1-x²) dx = arcsin(x) + C (trig substitution).
pub fn trig_substitution() -> (r: Rule)
    ensures
        rule_view(r) == (436u32, "trig_substitution"@, RuleCategory::Integral, "∫1/√(1-x²) dx = arcsin(x) + C (trig substitution)"@, Seq::<Domain>::empty(), Seq::<Feature>::empty(), true, 4u32, Rewrite::TrigSubstitution),
{
    Rule {
        id: RuleId(436),
        name: "trig_substitution",
        category: RuleCategory::Integral,
        description: "∫1/√(1-x²) dx = arcsin(x) + C (trig substitution)",
        domains: Vec::new(),
        requires: Vec::new(),
        reversible: true,
        cost: 4,
        rewrite: Rewrite::TrigSubstitution,
    }
}

/// The rule `integral_cot`: ∫cot(x) dx = ln|sin(x)| + C.
pub fn integral_cot() -> (r: Rule)
    ensures
        rule_view(r) == (915u32, "integral_cot"@, RuleCategory::Integral, "∫cot(x) dx = ln|sin(x)| + C"@, Seq::<Domain>::empty(), Seq::<Feature>::empty(), true, 2u32, Rewrite::IntegralCot),
{
    Rule {
        id: RuleId(915),
        name: "integral_cot",
        category: RuleCategory::Integral,
        description: "∫cot(x) dx = ln|sin(x)| + C",
        domains: Vec::new(),
        requires: Vec::new(),
        reversible: true,
        cost: 2,
        rewrite: Rewrite::IntegralCot,
    }
}

/// The rule `integral_sec`: ∫sec(x) dx = ln|sec(x) + tan(x)| + C.
pub fn integral_sec() -> (r: Rule)
    ensures
        rule_view(r) == (916u32, "integral_sec"@, RuleCategory::Integral, "∫sec(x) dx = ln|sec(x) + tan(x)| + C"@, Seq::<Domain>::empty(), Seq::<Feature>::empty(), true, 3u32, Rewrite::IntegralSec),
{
    Rule {
        id: RuleId(916),
        name: "integral_sec",
        category: RuleCategory::Integral,
        description: "∫sec(x) dx = ln|sec(x) + tan(x)| + C",
        domains: Vec::new(),
        requires: Vec::new(),
        reversible: true,
        cost: 3,
        rewrite: Rewrite::IntegralSec,
    }
}

/// The rule `integral_csc`: ∫csc(x) dx = -ln|csc(x) + cot(x)| + C.
pub fn integral_csc() -> (r: Rule)
    ensures
        rule_view(r) == (443u32, "integral_csc"@, RuleCategory::Integral, "∫csc(x) dx = -ln|csc(x) + cot(x)| + C"@, Seq::<Domain>::empty(), Seq::<Feature>::empty(), true, 3u32, Rewrite::IntegralCsc),
{
    Rule {
        id: RuleId(443),
        name: "integral_csc",
        category: RuleCategory::Integral,
        description: "∫csc(x) dx = -ln|csc(x) + cot(x)| + C",
        domains: Vec::new(),
        requires: Vec::new(),
        reversible: true,
        cost: 3,
        rewrite: Rewrite::IntegralCsc,
    }
}

/// The rule `integral_sec_tan`: ∫sec(x)tan(x) dx = sec(x) + C.
pub fn integral_sec_tan() -> (r: Rule)
    ensures
        rule_view(r) == (444u32, "integral_sec_tan"@, RuleCategory::Integral, "∫sec(x)tan(x) dx = sec(x) + C"@, Seq::<Domain>::empty(), Seq::<Feature>::empty(), true, 2u32, Rewrite::IntegralSecTan),
{
    Rule {
        id: RuleId(444),
        name: "integral_sec_tan",
        category: RuleCategory::Integral,
        description: "∫sec(x)tan(x) dx = sec(x) + C",
        domains: Vec::new(),
        requires: Vec::new(),
        reversible: true,
        cost: 2,
        rewrite: Rewrite::IntegralSecTan,
    }
}

/// The rule `integral_inv_sqrt_a2_minus_x2`: ∫1/√(a²-x²) dx = arcsin(x/a) + C.
pub fn integral_inv_sqrt_a2_minus_x2() -> (r: Rule)
    ensures
        rule_view(r) == (445u32, "integral_inv_sqrt_a2_minus_x2"@, RuleCategory::Integral, "∫1/√(a²-x²) dx = arcsin(x/a) + C"@, Seq::<Domain>::empty(), Seq::<Feature>::empty(), true, 3u32, Rewrite::IntegralInvSqrtA2MinusX2),
{
    Rule {
        id: RuleId(445),
        name: "integral_inv_sqrt_a2_minus_x2",
        category: RuleCategory::Integral,
        description: "∫1/√(a²-x²) dx = arcsin(x/a) + C",
        domains: Vec::new(),
        requires: Vec::new(),
        reversible: true,
        cost: 3,
        rewrite: Rewrite::IntegralInvSqrtA2MinusX2,
    }
}

/// The rule `integral_inv_a2_plus_x2`: ∫1/(a²+x²) dx = (1/a)arctan(x/a) + C.
pub fn integral_inv_a2_plus_x2() -> (r: Rule)
    ensures
        rule_view(r) == (446u32, "integral_inv_a2_plus_x2"@, RuleCategory::Integral, "∫1/(a²+x²) dx = (1/a)arctan(x/a) + C"@, Seq::<Domain>::empty(), Seq::<Feature>::empty(), true, 3u32, Rewrite::IntegralInvA2PlusX2),
{
    Rule {
        id: RuleId(446),
        name: "integral_inv_a2_plus_x2",
        category: RuleCategory::Integral,
        description: "∫1/(a²+x²) dx = (1/a)arctan(x/a) + C",
        domains: Vec::new(),
        requires: Vec::new(),
        reversible: true,
        cost: 3,
        rewrite: Rewrite::IntegralInvA2PlusX2,
    }
}

/// The rule `integral_inv_x_sqrt_x2_minus_a2`: ∫1/(x√(x²-a²)) dx = (1/a)arcsec(|x|/a) + C.
pub fn integral_inv_x_sqrt_x2_minus_a2() -> (r: Rule)
    ensures
        rule_view(r) == (447u32, "integral_inv_x_sqrt_x2_minus_a2"@, RuleCategory::Integral, "∫1/(x√(x²-a²)) dx = (1/a)arcsec(|x|/a) + C"@, Seq::<Domain>::empty(), Seq::<Feature>::empty(), true, 4u32, Rewrite::IntegralInvXSqrtX2MinusA2),
{
    Rule {
        id: RuleId(447),
        name: "integral_inv_x_sqrt_x2_minus_a2",
        category: RuleCategory::Integral,
        description: "∫1/(x√(x²-a²)) dx = (1/a)arcsec(|x|/a) + C",
        domains: Vec::new(),
        requires: Vec::new(),
        reversible: true,
        cost: 4,
        rewrite: Rewrite::IntegralInvXSqrtX2MinusA2,
    }
}

/// The rule `integral_x_sin`: ∫x·sin(x) dx = -x·cos(x) + sin(x) + C.
pub fn integral_x_sin() -> (r: Rule)
    ensures
        rule_view(r) == (448u32, "integral_x_sin"@, RuleCategory::Integral, "∫x·sin(x) dx = -x·cos(x) + sin(x) + C"@, Seq::<Domain>::empty(), Seq::<Feature>::empty(), true, 4u32, Rewrite::IntegralXSin),
{
    Rule {
        id: RuleId(448),
        name: "integral_x_sin",
        category: RuleCategory::Integral,
        description: "∫x·sin(x) dx = -x·cos(x) + sin(x) + C",
        domains: Vec::new(),
        requires: Vec::new(),
        reversible: true,
        cost: 4,
        rewrite: Rewrite::IntegralXSin,
    }
}

/// The rule `integral_x_cos`: ∫x·cos(x) dx = x·sin(x) + cos(x) + C.
pub fn integral_x_cos() -> (r: Rule)
    ensures
        rule_view(r) == (449u32, "integral_x_cos"@, RuleCategory::Integral, "∫x·cos(x) dx = x·sin(x) + cos(x) + C"@, Seq::<Domain>::empty(), Seq::<Feature>::empty(), true, 4u32, Rewrite::IntegralXCos),
{
    Rule {
        id: RuleId(449),
        name: "integral_x_cos",
        category: RuleCategory::Integral,
        description: "∫x·cos(x) dx = x·sin(x) + cos(x) + C",
        domains: Vec::new(),
        requires: Vec::new(),
        reversible: true,
        cost: 4,
        rewrite: Rewrite::IntegralXCos,
    }
}

/// The rule `integral_ln_x`: ∫ln(x) dx = x·ln(x) - x + C.
pub fn integral_ln_x() -> (r: Rule)
    ensures
        rule_view(r) == (450u32, "integral_ln_x"@, RuleCategory::Integral, "∫ln(x) dx = x·ln(x) - x + C"@, Seq::<Domain>::empty(), Seq::<Feature>::empty(), true, 3u32, Rewrite::IntegralLnX),
{
    Rule {
        id: RuleId(450),
        name: "integral_ln_x",
        category: RuleCategory::Integral,
        description: "∫ln(x) dx = x·ln(x) - x + C",
        domains: Vec::new(),
        requires: Vec::new(),
        reversible: true,
        cost: 3,
        rewrite: Rewrite::IntegralLnX,
    }
}

/// The rule `integral_x_exp_ax`: ∫x·e^(ax) dx = (e^(ax)/a²)(ax-1) + C.
pub fn integral_x_exp_ax() -> (r: Rule)
    ensures
        rule_view(r) == (451u32, "integral_x_exp_ax"@, RuleCategory::Integral, "∫x·e^(ax) dx = (e^(ax)/a²)(ax-1) + C"@, Seq::<Domain>::empty(), Seq::<Feature>::empty(), true, 4u32, Rewrite::IntegralXExpAx),
{
    Rule {
        id: RuleId(451),
        name: "integral_x_exp_ax",
        category: RuleCategory::Integral,
        description: "∫x·e^(ax) dx = (e^(ax)/a²)(ax-1) + C",
        domains: Vec::new(),
        requires: Vec::new(),
        reversible: true,
        cost: 4,
        rewrite: Rewrite::IntegralXExpAx,
    }
}

/// The rule `integral_x_over_x2_plus_a2`: ∫x/(x²+a²) dx = (1/2)ln(x²+a²) + C.
pub fn integral_x_over_x2_plus_a2() -> (r: Rule)
    ensures
        rule_view(r) == (452u32, "integral_x_over_x2_plus_a2"@, RuleCategory::Integral, "∫x/(x²+a²) dx = (1/2)ln(x²+a²) + C"@, Seq::<Domain>::empty(), Seq::<Feature>::empty(), true, 3u32, Rewrite::IntegralXOverX2PlusA2),
{
    Rule {
        id: RuleId(452),
        name: "integral_x_over_x2_plus_a2",
        category: RuleCategory::Integral,
        description: "∫x/(x²+a²) dx = (1/2)ln(x²+a²) + C",
        domains: Vec::new(),
        requires: Vec::new(),
        reversible: true,
        cost: 3,
        rewrite: Rewrite::IntegralXOverX2PlusA2,
    }
}

/// The rule `integral_x_over_x2_minus_a2`: ∫x/(x²-a²) dx = (1/2)ln|x²-a²| + C.
pub fn integral_x_over_x2_minus_a2() -> (r: Rule)
    ensures
        rule_view(r) == (453u32, "integral_x_over_x2_minus_a2"@, RuleCategory::Integral, "∫x/(x²-a²) dx = (1/2)ln|x²-a²| + C"@, Seq::<Domain>::empty(), Seq::<Feature>::empty(), true, 3u32, Rewrite::IntegralXOverX2MinusA2),
{
    Rule {
        id: RuleId(453),
        name: "integral_x_over_x2_minus_a2",
        category: RuleCategory::Integral,
        description: "∫x/(x²-a²) dx = (1/2)ln|x²-a²| + C",
        domains: Vec::new(),
        requires: Vec::new(),
        reversible: true,
        cost: 3,
        rewrite: Rewrite::IntegralXOverX2MinusA2,
    }
}

/// The rule `integral_exp_ax`: ∫e^(ax) dx = (1/a)e^(ax) + C.
pub fn integral_exp_ax() -> (r: Rule)
    ensures
        rule_view(r) == (454u32, "integral_exp_ax"@, RuleCategory::Integral, "∫e^(ax) dx = (1/a)e^(ax) + C"@, Seq::<Domain>::empty(), Seq::<Feature>::empty(), true, 2u32, Rewrite::IntegralExpAx),
{
    Rule {
        id: RuleId(454),
        name: "integral_exp_ax",
        category: RuleCategory::Integral,
        description: "∫e^(ax) dx = (1/a)e^(ax) + C",
        domains: Vec::new(),
        requires: Vec::new(),
        reversible: true,
        cost: 2,
        rewrite: Rewrite::IntegralExpAx,
    }
}

/// The rule `integral_one_over_x2_minus_a2`: ∫1/(x²-a²) dx = (1/2a)ln|(x-a)/(x+a)| + C.
pub fn integral_one_over_x2_minus_a2() -> (r: Rule)
    ensures
        rule_view(r) == (455u32, "integral_one_over_x2_minus_a2"@, RuleCategory::Integral, "∫1/(x²-a²) dx = (1/2a)ln|(x-a)/(x+a)| + C"@, Seq::<Domain>::empty(), Seq::<Feature>::empty(), true, 4u32, Rewrite::IntegralOneOverX2MinusA2),
{
    Rule {
        id: RuleId(455),
        name: "integral_one_over_x2_minus_a2",
        category: RuleCategory::Integral,
        description: "∫1/(x²-a²) dx = (1/2a)ln|(x-a)/(x+a)| + C",
        domains: Vec::new(),
        requires: Vec::new(),
        reversible: true,
        cost: 4,
        rewrite: Rewrite::IntegralOneOverX2MinusA2,
    }
}

/// The rule `integral_sin_squared`: ∫sin²(x) dx = x/2 - sin(2x)/4 + C.
pub fn integral_sin_squared() -> (r: Rule)
    ensures
        rule_view(r) == (456u32, "integral_sin_squared"@, RuleCategory::Integral, "∫sin²(x) dx = x/2 - sin(2x)/4 + C"@, Seq::<Domain>::empty(), Seq::<Feature>::empty(), true, 3u32, Rewrite::IntegralSinSquared),
{
    Rule {
        id: RuleId(456),
        name: "integral_sin_squared",
        category: RuleCategory::Integral,
        description: "∫sin²(x) dx = x/2 - sin(2x)/4 + C",
        domains: Vec::new(),
        requires: Vec::new(),
        reversible: true,
        cost: 3,
        rewrite: Rewrite::IntegralSinSquared,
    }
}

/// The rule `integral_cos_squared`: ∫cos²(x) dx = x/2 + sin(2x)/4 + C.
pub fn integral_cos_squared() -> (r: Rule)
    ensures
        rule_view(r) == (457u32, "integral_cos_squared"@, RuleCategory::Integral, "∫cos²(x) dx = x/2 + sin(2x)/4 + C"@, Seq::<Domain>::empty(), Seq::<Feature>::empty(), true, 3u32, Rewrite::IntegralCosSquared),
{
    Rule {
        id: RuleId(457),
        name: "integral_cos_squared",
        category: RuleCategory::Integral,
        description: "∫cos²(x) dx = x/2 + sin(2x)/4 + C",
        domains: Vec::new(),
        requires: Vec::new(),
        reversible: true,
        cost: 3,
        rewrite: Rewrite::IntegralCosSquared,
    }
}

/// The rule `integral_tan_squared`: ∫tan²(x) dx = tan(x) - x + C.
pub fn integral_tan_squared() -> (r: Rule)
    ensures
        rule_view(r) == (458u32, "integral_tan_squared"@, RuleCategory::Integral, "∫tan²(x) dx = tan(x) - x + C"@, Seq::<Domain>::empty(), Seq::<Feature>::empty(), true, 3u32, Rewrite::IntegralTanSquared),
{
    Rule {
        id: RuleId(458),
        name: "integral_tan_squared",
        category: RuleCategory::Integral,
        description: "∫tan²(x) dx = tan(x) - x + C",
        domains: Vec::new(),
        requires: Vec::new(),
        reversible: true,
        cost: 3,
        rewrite: Rewrite::IntegralTanSquared,
    }
}

/// The rule `integral_sec_cubed`: ∫sec³(x) dx = (1/2)[sec(x)tan(x) + ln|sec(x)+tan(x)|] + C.
pub fn integral_sec_cubed() -> (r: Rule)
    ensures
        rule_view(r) == (459u32, "integral_sec_cubed"@, RuleCategory::Integral, "∫sec³(x) dx = (1/2)[sec(x)tan(x) + ln|sec(x)+tan(x)|] + C"@, Seq::<Domain>::empty(), Seq::<Feature>::empty(), true, 5u32, Rewrite::IntegralSecCubed),
{
    Rule {
        id: RuleId(459),
        name: "integral_sec_cubed",
        category: RuleCategory::Integral,
        description: "∫sec³(x) dx = (1/2)[sec(x)tan(x) + ln|sec(x)+tan(x)|] + C",
        domains: Vec::new(),
        requires: Vec::new(),
        reversible: true,
        cost: 5,
        rewrite: Rewrite::IntegralSecCubed,
    }
}

/// The rule `integral_x2_sin`: ∫x²·sin(x) dx = -x²·cos(x) + 2x·sin(x) + 2cos(x) + C.
pub fn integral_x2_sin() -> (r: Rule)
    ensures
        rule_view(r) == (460u32, "integral_x2_sin"@, RuleCategory::Integral, "∫x²·sin(x) dx = -x²·cos(x) + 2x·sin(x) + 2cos(x) + C"@, Seq::<Domain>::empty(), Seq::<Feature>::empty(), true, 5u32, Rewrite::IntegralX2Sin),
{
    Rule {
        id: RuleId(460),
        name: "integral_x2_sin",
        category: RuleCategory::Integral,
        description: "∫x²·sin(x) dx = -x²·cos(x) + 2x·sin(x) + 2cos(x) + C",
        domains: Vec::new(),
        requires: Vec::new(),
        reversible: true,
        cost: 5,
        rewrite: Rewrite::IntegralX2Sin,
    }
}

/// The rule `integral_x2_cos`: ∫x²·cos(x) dx = x²·sin(x) + 2x·cos(x) - 2sin(x) + C.
pub fn integral_x2_cos() -> (r: Rule)
    ensures
        rule_view(r) == (461u32, "integral_x2_cos"@, RuleCategory::Integral, "∫x²·cos(x) dx = x²·sin(x) + 2x·cos(x) - 2sin(x) + C"@, Seq::<Domain>::empty(), Seq::<Feature>::empty(), true, 5u32, Rewrite::IntegralX2Cos),
{
    Rule {
        id: RuleId(461),
        name: "integral_x2_cos",
        category: RuleCategory::Integral,
        description: "∫x²·cos(x) dx = x²·sin(x) + 2x·cos(x) - 2sin(x) + C",
        domains: Vec::new(),
        requires: Vec::new(),
        reversible: true,
        cost: 5,
        rewrite: Rewrite::IntegralX2Cos,
    }
}

/// The rule `integral_exp_sin`: ∫e^x·sin(x) dx = (e^x/2)(sin(x) - cos(x)) + C.
pub fn integral_exp_sin() -> (r: Rule)
    ensures
        rule_view(r) == (462u32, "integral_exp_sin"@, RuleCategory::Integral, "∫e^x·sin(x) dx = (e^x/2)(sin(x) - cos(x)) + C"@, Seq::<Domain>::empty(), Seq::<Feature>::empty(), true, 5u32, Rewrite::IntegralExpSin),
{
    Rule {
        id: RuleId(462),
        name: "integral_exp_sin",
        category: RuleCategory::Integral,
        description: "∫e^x·sin(x) dx = (e^x/2)(sin(x) - cos(x)) + C",
        domains: Vec::new(),
        requires: Vec::new(),
        reversible: true,
        cost: 5,
        rewrite: Rewrite::IntegralExpSin,
    }
}

/// The rule `integral_exp_cos`: ∫e^x·cos(x) dx = (e^x/2)(sin(x) + cos(x)) + C.
pub fn integral_exp_cos() -> (r: Rule)
    ensures
        rule_view(r) == (463u32, "integral_exp_cos"@, RuleCategory::Integral, "∫e^x·cos(x) dx = (e^x/2)(sin(x) + cos(x)) + C"@, Seq::<Domain>::empty(), Seq::<Feature>::empty(), true, 5u32, Rewrite::IntegralExpCos),
{
    Rule {
        id: RuleId(463),
        name: "integral_exp_cos",
        category: RuleCategory::Integral,
        description: "∫e^x·cos(x) dx = (e^x/2)(sin(x) + cos(x)) + C",
        domains: Vec::new(),
        requires: Vec::new(),
        reversible: true,
        cost: 5,
        rewrite: Rewrite::IntegralExpCos,
    }
}

/// The rule `integral_sqrt_a2_minus_x2`: ∫√(a²-x²) dx = (x/2)√(a²-x²) + (a²/2)arcsin(x/a) + C.
pub fn integral_sqrt_a2_minus_x2() -> (r: Rule)
    ensures
        rule_view(r) == (464u32, "integral_sqrt_a2_minus_x2"@, RuleCategory::Integral, "∫√(a²-x²) dx = (x/2)√(a²-x²) + (a²/2)arcsin(x/a) + C"@, Seq::<Domain>::empty(), Seq::<Feature>::empty(), true, 5u32, Rewrite::IntegralSqrtA2MinusX2),
{
    Rule {
        id: RuleId(464),
        name: "integral_sqrt_a2_minus_x2",
        category: RuleCategory::Integral,
        description: "∫√(a²-x²) dx = (x/2)√(a²-x²) + (a²/2)arcsin(x/a) + C",
        domains: Vec::new(),
        requires: Vec::new(),
        reversible: true,
        cost: 5,
        rewrite: Rewrite::IntegralSqrtA2MinusX2,
    }
}

/// The rule `integral_sqrt_x2_plus_a2`: ∫√(x²+a²) dx = (x/2)√(x²+a²) + (a²/2)ln|x+√(x²+a²)| + C.
pub fn integral_sqrt_x2_plus_a2() -> (r: Rule)
    ensures
        rule_view(r) == (465u32, "integral_sqrt_x2_plus_a2"@, RuleCategory::Integral, "∫√(x²+a²) dx = (x/2)√(x²+a²) + (a²/2)ln|x+√(x²+a²)| + C"@, Seq::<Domain>::empty(), Seq::<Feature>::empty(), true, 5u32, Rewrite::IntegralSqrtX2PlusA2),
{
    Rule {
        id: RuleId(465),
        name: "integral_sqrt_x2_plus_a2",
        category: RuleCategory::Integral,
        description: "∫√(x²+a²) dx = (x/2)√(x²+a²) + (a²/2)ln|x+√(x²+a²)| + C",
        domains: Vec::new(),
        requires: Vec::new(),
        reversible: true,
        cost: 5,
        rewrite: Rewrite::IntegralSqrtX2PlusA2,
    }
}

/// The rule `integral_sqrt_x2_minus_a2`: ∫√(x²-a²) dx = (x/2)√(x²-a²) - (a²/2)ln|x+√(x²-a²)| + C.
pub fn integral_sqrt_x2_minus_a2() -> (r: Rule)
    ensures
        rule_view(r) == (466u32, "integral_sqrt_x2_minus_a2"@, RuleCategory::Integral, "∫√(x²-a²) dx = (x/2)√(x²-a²) - (a²/2)ln|x+√(x²-a²)| + C"@, Seq::<Domain>::empty(), Seq::<Feature>::empty(), true, 5u32, Rewrite::IntegralSqrtX2MinusA2),
{
    Rule {
        id: RuleId(466),
        name: "integral_sqrt_x2_minus_a2",
        category: RuleCategory::Integral,
        description: "∫√(x²-a²) dx = (x/2)√(x²-a²) - (a²/2)ln|x+√(x²-a²)| + C",
        domains: Vec::new(),
        requires: Vec::new(),
        reversible: true,
        cost: 5,
        rewrite: Rewrite::IntegralSqrtX2MinusA2,
    }
}

/// The rule `integral_x_sqrt_a2_minus_x2`: ∫x·√(a²-x²) dx = -(1/3)(a²-x²)^(3/2) + C.
pub fn integral_x_sqrt_a2_minus_x2() -> (r: Rule)
    ensures
        rule_view(r) == (467u32, "integral_x_sqrt_a2_minus_x2"@, RuleCategory::Integral, "∫x·√(a²-x²) dx = -(1/3)(a²-x²)^(3/2) + C"@, Seq::<Domain>::empty(), Seq::<Feature>::empty(), true, 4u32, Rewrite::IntegralXSqrtA2MinusX2),
{
    Rule {
        id: RuleId(467),
        name: "integral_x_sqrt_a2_minus_x2",
        category: RuleCategory::Integral,
        description: "∫x·√(a²-x²) dx = -(1/3)(a²-x²)^(3/2) + C",
        domains: Vec::new(),
        requires: Vec::new(),
        reversible: true,
        cost: 4,
        rewrite: Rewrite::IntegralXSqrtA2MinusX2,
    }
}

/// The rule `integral_inv_sqrt_x2_plus_a2`: ∫1/√(x²+a²) dx = ln|x+√(x²+a²)| + C.
pub fn integral_inv_sqrt_x2_plus_a2() -> (r: Rule)
    ensures
        rule_view(r) == (468u32, "integral_inv_sqrt_x2_plus_a2"@, RuleCategory::Integral, "∫1/√(x²+a²) dx = ln|x+√(x²+a²)| + C"@, Seq::<Domain>::empty(), Seq::<Feature>::empty(), true, 3u32, Rewrite::IntegralInvSqrtX2PlusA2),
{
    Rule {
        id: RuleId(468),
        name: "integral_inv_sqrt_x2_plus_a2",
        category: RuleCategory::Integral,
        description: "∫1/√(x²+a²) dx = ln|x+√(x²+a²)| + C",
        domains: Vec::new(),
        requires: Vec::new(),
        reversible: true,
        cost: 3,
        rewrite: Rewrite::IntegralInvSqrtX2PlusA2,
    }
}

/// The rule `integral_inv_sqrt_x2_minus_a2`: ∫1/√(x²-a²) dx = ln|x+√(x²-a²)| + C.
pub fn integral_inv_sqrt_x2_minus_a2() -> (r: Rule)
    ensures
        rule_view(r) == (469u32, "integral_inv_sqrt_x2_minus_a2"@, RuleCategory::Integral, "∫1/√(x²-a²) dx = ln|x+√(x²-a²)| + C"@, Seq::<Domain>::empty(), Seq::<Feature>::empty(), true, 3u32, Rewrite::IntegralInvSqrtX2MinusA2),
{
    Rule {
        id: RuleId(469),
        name: "integral_inv_sqrt_x2_minus_a2",
        category: RuleCategory::Integral,
        description: "∫1/√(x²-a²) dx = ln|x+√(x²-a²)| + C",
        domains: Vec::new(),
        requires: Vec::new(),
        reversible: true,
        cost: 3,
        rewrite: Rewrite::IntegralInvSqrtX2MinusA2,
    }
}

/// The rule `integral_x_over_sqrt_x2_plus_a2`: ∫x/√(x²+a²) dx = √(x²+a²) + C.
pub fn integral_x_over_sqrt_x2_plus_a2() -> (r: Rule)
    ensures
        rule_view(r) == (470u32, "integral_x_over_sqrt_x2_plus_a2"@, RuleCategory::Integral, "∫x/√(x²+a²) dx = √(x²+a²) + C"@, Seq::<Domain>::empty(), Seq::<Feature>::empty(), true, 2u32, Rewrite::IntegralXOverSqrtX2PlusA2),
{
    Rule {
        id: RuleId(470),
        name: "integral_x_over_sqrt_x2_plus_a2",
        category: RuleCategory::Integral,
        description: "∫x/√(x²+a²) dx = √(x²+a²) + C",
        domains: Vec::new(),
        requires: Vec::new(),
        reversible: true,
        cost: 2,
        rewrite: Rewrite::IntegralXOverSqrtX2PlusA2,
    }
}

/// The rule `limit_constant`: lim c = c.
pub fn limit_constant() -> (r: Rule)
    ensures
        rule_view(r) == (917u32, "limit_constant"@, RuleCategory::Simplification, "lim c = c"@, Seq::<Domain>::empty(), Seq::<Feature>::empty(), false, 1u32, Rewrite::Inert),
{
    Rule {
        id: RuleId(917),
        name: "limit_constant",
        category: RuleCategory::Simplification,
        description: "lim c = c",
        domains: Vec::new(),
        requires: Vec::new(),
        reversible: false,
        cost: 1,
        rewrite: Rewrite::Inert,
    }
}

/// The rule `limit_sum`: lim(f+g) = lim f + lim g.
pub fn limit_sum() -> (r: Rule)
    ensures
        rule_view(r) == (918u32, "limit_sum"@, RuleCategory::Simplification, "lim(f+g) = lim f + lim g"@, Seq::<Domain>::empty(), Seq::<Feature>::empty(), true, 2u32, Rewrite::Inert),
{
    Rule {
        id: RuleId(918),
        name: "limit_sum",
        category: RuleCategory::Simplification,
        description: "lim(f+g) = lim f + lim g",
        domains: Vec::new(),
        requires: Vec::new(),
        reversible: true,
        cost: 2,
        rewrite: Rewrite::Inert,
    }
}

/// The rule `limit_product`: lim(fg) = lim f · lim g.
pub fn limit_product() -> (r: Rule)
    ensures
        rule_view(r) == (919u32, "limit_product"@, RuleCategory::Simplification, "lim(fg) = lim f · lim g"@, Seq::<Domain>::empty(), Seq::<Feature>::empty(), true, 2u32, Rewrite::Inert),
{
    Rule {
        id: RuleId(919),
        name: "limit_product",
        category: RuleCategory::Simplification,
        description: "lim(fg) = lim f · lim g",
        domains: Vec::new(),
        requires: Vec::new(),
        reversible: true,
        cost: 2,
        rewrite: Rewrite::Inert,
    }
}

/// The rule `limit_quotient`: lim(f/g) = lim f / lim g.
pub fn limit_quotient() -> (r: Rule)
    ensures
        rule_view(r) == (920u32, "limit_quotient"@, RuleCategory::Simplification, "lim(f/g) = lim f / lim g"@, Seq::<Domain>::empty(), Seq::<Feature>::empty(), true, 2u32, Rewrite::Inert),
{
    Rule {
        id: RuleId(920),
        name: "limit_quotient",
        category: RuleCategory::Simplification,
        description: "lim(f/g) = lim f / lim g",
        domains: Vec::new(),
        requires: Vec::new(),
        reversible: true,
        cost: 2,
        rewrite: Rewrite::Inert,
    }
}

/// The rule `limit_power`: lim(f^n) = (lim f)^n.
pub fn limit_power() -> (r: Rule)
    ensures
        rule_view(r) == (921u32, "limit_power"@, RuleCategory::Simplification, "lim(f^n) = (lim f)^n"@, Seq::<Domain>::empty(), Seq::<Feature>::empty(), true, 2u32, Rewrite::Inert),
{
    Rule {
        id: RuleId(921),
        name: "limit_power",
        category: RuleCategory::Simplification,
        description: "lim(f^n) = (lim f)^n",
        domains: Vec::new(),
        requires: Vec::new(),
        reversible: true,
        cost: 2,
        rewrite: Rewrite::Inert,
    }
}

/// The rule `limit_lhopital`: L'Hôpital's rule for 0/0 or ∞/∞.
pub fn limit_lhopital() -> (r: Rule)
    ensures
        rule_view(r) == (922u32, "limit_lhopital"@, RuleCategory::Simplification, "L'Hôpital's rule for 0/0 or ∞/∞"@, Seq::<Domain>::empty(), Seq::<Feature>::empty(), false, 3u32, Rewrite::Inert),
{
    Rule {
        id: RuleId(922),
        name: "limit_lhopital",
        category: RuleCategory::Simplification,
        description: "L'Hôpital's rule for 0/0 or ∞/∞",
        domains: Vec::new(),
        requires: Vec::new(),
        reversible: false,
        cost: 3,
        rewrite: Rewrite::Inert,
    }
}

/// The rule `limit_squeeze`: Squeeze theorem.
pub fn limit_squeeze() -> (r: Rule)
    ensures
        rule_view(r) == (923u32, "limit_squeeze"@, RuleCategory::Simplification, "Squeeze theorem"@, Seq::<Domain>::empty(), Seq::<Feature>::empty(), false, 3u32, Rewrite::Inert),
{
    Rule {
        id: RuleId(923),
        name: "limit_squeeze",
        category: RuleCategory::Simplification,
        description: "Squeeze theorem",
        domains: Vec::new(),
        requires: Vec::new(),
        reversible: false,
        cost: 3,
        rewrite: Rewrite::Inert,
    }
}

/// The rule `taylor_exp`: e^x = Σ x^n/n!.
pub fn taylor_exp() -> (r: Rule)
    ensures
        rule_view(r) == (924u32, "taylor_exp"@, RuleCategory::Simplification, "e^x = Σ x^n/n!"@, Seq::<Domain>::empty(), Seq::<Feature>::empty(), true, 3u32, Rewrite::Inert),
{
    Rule {
        id: RuleId(924),
        name: "taylor_exp",
        category: RuleCategory::Simplification,
        description: "e^x = Σ x^n/n!",
        domains: Vec::new(),
        requires: Vec::new(),
        reversible: true,
        cost: 3,
        rewrite: Rewrite::Inert,
    }
}

/// The rule `taylor_sin`: sin(x) = Σ (-1)^n x^(2n+1)/(2n+1)!.
pub fn taylor_sin() -> (r: Rule)
    ensures
        rule_view(r) == (925u32, "taylor_sin"@, RuleCategory::Simplification, "sin(x) = Σ (-1)^n x^(2n+1)/(2n+1)!"@, Seq::<Domain>::empty(), Seq::<Feature>::empty(), true, 3u32, Rewrite::Inert),
{
    Rule {
        id: RuleId(925),
        name: "taylor_sin",
        category: RuleCategory::Simplification,
        description: "sin(x) = Σ (-1)^n x^(2n+1)/(2n+1)!",
        domains: Vec::new(),
        requires: Vec::new(),
        reversible: true,
        cost: 3,
        rewrite: Rewrite::Inert,
    }
}

/// The rule `taylor_cos`: cos(x) = Σ (-1)^n x^(2n)/(2n)!.
pub fn taylor_cos() -> (r: Rule)
    ensures
        rule_view(r) == (926u32, "taylor_cos"@, RuleCategory::Simplification, "cos(x) = Σ (-1)^n x^(2n)/(2n)!"@, Seq::<Domain>::empty(), Seq::<Feature>::empty(), true, 3u32, Rewrite::Inert),
{
    Rule {
        id: RuleId(926),
        name: "taylor_cos",
        category: RuleCategory::Simplification,
        description: "cos(x) = Σ (-1)^n x^(2n)/(2n)!",
        domains: Vec::new(),
        requires: Vec::new(),
        reversible: true,
        cost: 3,
        rewrite: Rewrite::Inert,
    }
}

/// The rule `taylor_ln`: ln(1+x) = Σ (-1)^(n+1) x^n/n.
pub fn taylor_ln() -> (r: Rule)
    ensures
        rule_view(r) == (927u32, "taylor_ln"@, RuleCategory::Simplification, "ln(1+x) = Σ (-1)^(n+1) x^n/n"@, Seq::<Domain>::empty(), Seq::<Feature>::empty(), true, 3u32, Rewrite::Inert),
{
    Rule {
        id: RuleId(927),
        name: "taylor_ln",
        category: RuleCategory::Simplification,
        description: "ln(1+x) = Σ (-1)^(n+1) x^n/n",
        domains: Vec::new(),
        requires: Vec::new(),
        reversible: true,
        cost: 3,
        rewrite: Rewrite::Inert,
    }
}

/// The rule `maclaurin_1mx`: 1/(1-x) = Σ x^n.
pub fn maclaurin_1mx() -> (r: Rule)
    ensures
        rule_view(r) == (928u32, "maclaurin_1mx"@, RuleCategory::Simplification, "1/(1-x) = Σ x^n"@, Seq::<Domain>::empty(), Seq::<Feature>::empty(), true, 2u32, Rewrite::Inert),
{
    Rule {
        id: RuleId(928),
        name: "maclaurin_1mx",
        category: RuleCategory::Simplification,
        description: "1/(1-x) = Σ x^n",
        domains: Vec::new(),
        requires: Vec::new(),
        reversible: true,
        cost: 2,
        rewrite: Rewrite::Inert,
    }
}

/// The rule `geometric_series`: Σ ar^n = a/(1-r) for |r|<1.
pub fn geometric_series() -> (r: Rule)
    ensures
        rule_view(r) == (477u32, "geometric_series"@, RuleCategory::Simplification, "Σ ar^n = a/(1-r) for |r|<1"@, Seq::<Domain>::empty(), Seq::<Feature>::empty(), true, 2u32, Rewrite::Inert),
{
    Rule {
        id: RuleId(477),
        name: "geometric_series",
        category: RuleCategory::Simplification,
        description: "Σ ar^n = a/(1-r) for |r|<1",
        domains: Vec::new(),
        requires: Vec::new(),
        reversible: true,
        cost: 2,
        rewrite: Rewrite::Inert,
    }
}

/// The rule `power_series_diff`: d/dx(Σa_n x^n) = Σ n·a_n x^(n-1).
pub fn power_series_diff() -> (r: Rule)
    ensures
        rule_view(r) == (478u32, "power_series_diff"@, RuleCategory::Derivative, "d/dx(Σa_n x^n) = Σ n·a_n x^(n-1)"@, Seq::<Domain>::empty(), Seq::<Feature>::empty(), true, 3u32, Rewrite::Inert),
{
    Rule {
        id: RuleId(478),
        name: "power_series_diff",
        category: RuleCategory::Derivative,
        description: "d/dx(Σa_n x^n) = Σ n·a_n x^(n-1)",
        domains: Vec::new(),
        requires: Vec::new(),
        reversible: true,
        cost: 3,
        rewrite: Rewrite::Inert,
    }
}

/// The rule `power_series_int`: ∫(Σa_n x^n)dx = Σ a_n x^(n+1)/(n+1).
pub fn power_series_int() -> (r: Rule)
    ensures
        rule_view(r) == (479u32, "power_series_int"@, RuleCategory::Integral, "∫(Σa_n x^n)dx = Σ a_n x^(n+1)/(n+1)"@, Seq::<Domain>::empty(), Seq::<Feature>::empty(), true, 3u32, Rewrite::Inert),
{
    Rule {
        id: RuleId(479),
        name: "power_series_int",
        category: RuleCategory::Integral,
        description: "∫(Σa_n x^n)dx = Σ a_n x^(n+1)/(n+1)",
        domains: Vec::new(),
        requires: Vec::new(),
        reversible: true,
        cost: 3,
        rewrite: Rewrite::Inert,
    }
}

/// The rule `partial_x`: ∂f/∂x partial derivative.
pub fn partial_x() -> (r: Rule)
    ensures
        rule_view(r) == (480u32, "partial_x"@, RuleCategory::Derivative, "∂f/∂x partial derivative"@, Seq::<Domain>::empty(), Seq::<Feature>::empty(), false, 2u32, Rewrite::Inert),
{
    Rule {
        id: RuleId(480),
        name: "partial_x",
        category: RuleCategory::Derivative,
        description: "∂f/∂x partial derivative",
        domains: Vec::new(),
        requires: Vec::new(),
        reversible: false,
        cost: 2,
        rewrite: Rewrite::Inert,
    }
}

/// The rule `partial_y`: ∂f/∂y partial derivative.
pub fn partial_y() -> (r: Rule)
    ensures
        rule_view(r) == (481u32, "partial_y"@, RuleCategory::Derivative, "∂f/∂y partial derivative"@, Seq::<Domain>::empty(), Seq::<Feature>::empty(), false, 2u32, Rewrite::Inert),
{
    Rule {
        id: RuleId(481),
        name: "partial_y",
        category: RuleCategory::Derivative,
        description: "∂f/∂y partial derivative",
        domains: Vec::new(),
        requires: Vec::new(),
        reversible: false,
        cost: 2,
        rewrite: Rewrite::Inert,
    }
}

/// The rule `partial_z`: ∂f/∂z partial derivative.
pub fn partial_z() -> (r: Rule)
    ensures
        rule_view(r) == (482u32, "partial_z"@, RuleCategory::Derivative, "∂f/∂z partial derivative"@, Seq::<Domain>::empty(), Seq::<Feature>::empty(), false, 2u32, Rewrite::Inert),
{
    Rule {
        id: RuleId(482),
        name: "partial_z",
        category: RuleCategory::Derivative,
        description: "∂f/∂z partial derivative",
        domains: Vec::new(),
        requires: Vec::new(),
        reversible: false,
        cost: 2,
        rewrite: Rewrite::Inert,
    }
}

/// The rule `gradient`: ∇f = (∂f/∂x, ∂f/∂y, ∂f/∂z).
pub fn gradient() -> (r: Rule)
    ensures
        rule_view(r) == (483u32, "gradient"@, RuleCategory::Derivative, "∇f = (∂f/∂x, ∂f/∂y, ∂f/∂z)"@, Seq::<Domain>::empty(), Seq::<Feature>::empty(), false, 3u32, Rewrite::Inert),
{
    Rule {
        id: RuleId(483),
        name: "gradient",
        category: RuleCategory::Derivative,
        description: "∇f = (∂f/∂x, ∂f/∂y, ∂f/∂z)",
        domains: Vec::new(),
        requires: Vec::new(),
        reversible: false,
        cost: 3,
        rewrite: Rewrite::Inert,
    }
}

/// The rule `divergence_vec`: ∇·F divergence of vector field.
pub fn divergence_vec() -> (r: Rule)
    ensures
        rule_view(r) == (484u32, "divergence_vec"@, RuleCategory::Derivative, "∇·F divergence of vector field"@, Seq::<Domain>::empty(), Seq::<Feature>::empty(), false, 3u32, Rewrite::Inert),
{
    Rule {
        id: RuleId(484),
        name: "divergence_vec",
        category: RuleCategory::Derivative,
        description: "∇·F divergence of vector field",
        domains: Vec::new(),
        requires: Vec::new(),
        reversible: false,
        cost: 3,
        rewrite: Rewrite::Inert,
    }
}

/// The rule `curl_vec`: ∇×F curl of vector field.
pub fn curl_vec() -> (r: Rule)
    ensures
        rule_view(r) == (485u32, "curl_vec"@, RuleCategory::Derivative, "∇×F curl of vector field"@, Seq::<Domain>::empty(), Seq::<Feature>::empty(), false, 4u32, Rewrite::Inert),
{
    Rule {
        id: RuleId(485),
        name: "curl_vec",
        category: RuleCategory::Derivative,
        description: "∇×F curl of vector field",
        domains: Vec::new(),
        requires: Vec::new(),
        reversible: false,
        cost: 4,
        rewrite: Rewrite::Inert,
    }
}

/// The rule `laplacian`: ∇²f = ∂²f/∂x² + ∂²f/∂y² + ∂²f/∂z².
pub fn laplacian() -> (r: Rule)
    ensures
        rule_view(r) == (486u32, "laplacian"@, RuleCategory::Derivative, "∇²f = ∂²f/∂x² + ∂²f/∂y² + ∂²f/∂z²"@, Seq::<Domain>::empty(), Seq::<Feature>::empty(), false, 4u32, Rewrite::Inert),
{
    Rule {
        id: RuleId(486),
        name: "laplacian",
        category: RuleCategory::Derivative,
        description: "∇²f = ∂²f/∂x² + ∂²f/∂y² + ∂²f/∂z²",
        domains: Vec::new(),
        requires: Vec::new(),
        reversible: false,
        cost: 4,
        rewrite: Rewrite::Inert,
    }
}

/// The rule `chain_multivariable`: Multivariable chain rule.
pub fn chain_multivariable() -> (r: Rule)
    ensures
        rule_view(r) == (487u32, "chain_multivariable"@, RuleCategory::Derivative, "Multivariable chain rule"@, Seq::<Domain>::empty(), Seq::<Feature>::empty(), false, 4u32, Rewrite::Inert),
{
    Rule {
        id: RuleId(487),
        name: "chain_multivariable",
        category: RuleCategory::Derivative,
        description: "Multivariable chain rule",
        domains: Vec::new(),
        requires: Vec::new(),
        reversible: false,
        cost: 4,
        rewrite: Rewrite::Inert,
    }
}

/// The rule `implicit_diff`: Implicit differentiation.
pub fn implicit_diff() -> (r: Rule)
    ensures
        rule_view(r) == (488u32, "implicit_diff"@, RuleCategory::Derivative, "Implicit differentiation"@, Seq::<Domain>::empty(), Seq::<Feature>::empty(), false, 3u32, Rewrite::Inert),
{
    Rule {
        id: RuleId(488),
        name: "implicit_diff",
        category: RuleCategory::Derivative,
        description: "Implicit differentiation",
        domains: Vec::new(),
        requires: Vec::new(),
        reversible: false,
        cost: 3,
        rewrite: Rewrite::Inert,
    }
}

/// The rule `total_differential`: df = ∂f/∂x dx + ∂f/∂y dy.
pub fn total_differential() -> (r: Rule)
    ensures
        rule_view(r) == (489u32, "total_differential"@, RuleCategory::Derivative, "df = ∂f/∂x dx + ∂f/∂y dy"@, Seq::<Domain>::empty(), Seq::<Feature>::empty(), false, 3u32, Rewrite::Inert),
{
    Rule {
        id: RuleId(489),
        name: "total_differential",
        category: RuleCategory::Derivative,
        description: "df = ∂f/∂x dx + ∂f/∂y dy",
        domains: Vec::new(),
        requires: Vec::new(),
        reversible: false,
        cost: 3,
        rewrite: Rewrite::Inert,
    }
}

/// The rule `directional_derivative`: D_u f = ∇f · u.
pub fn directional_derivative() -> (r: Rule)
    ensures
        rule_view(r) == (490u32, "directional_derivative"@, RuleCategory::Derivative, "D_u f = ∇f · u"@, Seq::<Domain>::empty(), Seq::<Feature>::empty(), false, 3u32, Rewrite::Inert),
{
    Rule {
        id: RuleId(490),
        name: "directional_derivative",
        category: RuleCategory::Derivative,
        description: "D_u f = ∇f · u",
        domains: Vec::new(),
        requires: Vec::new(),
        reversible: false,
        cost: 3,
        rewrite: Rewrite::Inert,
    }
}

/// The rule `double_integral`: ∬f dA double integral.
pub fn double_integral() -> (r: Rule)
    ensures
        rule_view(r) == (491u32, "double_integral"@, RuleCategory::Integral, "∬f dA double integral"@, Seq::<Domain>::empty(), Seq::<Feature>::empty(), false, 4u32, Rewrite::Inert),
{
    Rule {
        id: RuleId(491),
        name: "double_integral",
        category: RuleCategory::Integral,
        description: "∬f dA double integral",
        domains: Vec::new(),
        requires: Vec::new(),
        reversible: false,
        cost: 4,
        rewrite: Rewrite::Inert,
    }
}

/// The rule `triple_integral`: ∭f dV triple integral.
pub fn triple_integral() -> (r: Rule)
    ensures
        rule_view(r) == (492u32, "triple_integral"@, RuleCategory::Integral, "∭f dV triple integral"@, Seq::<Domain>::empty(), Seq::<Feature>::empty(), false, 5u32, Rewrite::Inert),
{
    Rule {
        id: RuleId(492),
        name: "triple_integral",
        category: RuleCategory::Integral,
        description: "∭f dV triple integral",
        domains: Vec::new(),
        requires: Vec::new(),
        reversible: false,
        cost: 5,
        rewrite: Rewrite::Inert,
    }
}

/// The rule `line_integral`: ∫_C F·dr line integral.
pub fn line_integral() -> (r: Rule)
    ensures
        rule_view(r) == (493u32, "line_integral"@, RuleCategory::Integral, "∫_C F·dr line integral"@, Seq::<Domain>::empty(), Seq::<Feature>::empty(), false, 4u32, Rewrite::Inert),
{
    Rule {
        id: RuleId(493),
        name: "line_integral",
        category: RuleCategory::Integral,
        description: "∫_C F·dr line integral",
        domains: Vec::new(),
        requires: Vec::new(),
        reversible: false,
        cost: 4,
        rewrite: Rewrite::Inert,
    }
}

/// The rule `surface_integral`: ∬_S F·dS surface integral.
pub fn surface_integral() -> (r: Rule)
    ensures
        rule_view(r) == (494u32, "surface_integral"@, RuleCategory::Integral, "∬_S F·dS surface integral"@, Seq::<Domain>::empty(), Seq::<Feature>::empty(), false, 5u32, Rewrite::Inert),
{
    Rule {
        id: RuleId(494),
        name: "surface_integral",
        category: RuleCategory::Integral,
        description: "∬_S F·dS surface integral",
        domains: Vec::new(),
        requires: Vec::new(),
        reversible: false,
        cost: 5,
        rewrite: Rewrite::Inert,
    }
}

/// The rule `greens_theorem`: Green's theorem: ∮_C = ∬_D.
pub fn greens_theorem() -> (r: Rule)
    ensures
        rule_view(r) == (495u32, "greens_theorem"@, RuleCategory::Integral, "Green's theorem: ∮_C = ∬_D"@, Seq::<Domain>::empty(), Seq::<Feature>::empty(), true, 4u32, Rewrite::Inert),
{
    Rule {
        id: RuleId(495),
        name: "greens_theorem",
        category: RuleCategory::Integral,
        description: "Green's theorem: ∮_C = ∬_D",
        domains: Vec::new(),
        requires: Vec::new(),
        reversible: true,
        cost: 4,
        rewrite: Rewrite::Inert,
    }
}

/// The rule `stokes_theorem`: Stokes' theorem.
pub fn stokes_theorem() -> (r: Rule)
    ensures
        rule_view(r) == (496u32, "stokes_theorem"@, RuleCategory::Integral, "Stokes' theorem"@, Seq::<Domain>::empty(), Seq::<Feature>::empty(), true, 5u32, Rewrite::Inert),
{
    Rule {
        id: RuleId(496),
        name: "stokes_theorem",
        category: RuleCategory::Integral,
        description: "Stokes' theorem",
        domains: Vec::new(),
        requires: Vec::new(),
        reversible: true,
        cost: 5,
        rewrite: Rewrite::Inert,
    }
}

/// The rule `divergence_theorem`: Divergence theorem.
pub fn divergence_theorem() -> (r: Rule)
    ensures
        rule_view(r) == (497u32, "divergence_theorem"@, RuleCategory::Integral, "Divergence theorem"@, Seq::<Domain>::empty(), Seq::<Feature>::empty(), true, 5u32, Rewrite::Inert),
{
    Rule {
        id: RuleId(497),
        name: "divergence_theorem",
        category: RuleCategory::Integral,
        description: "Divergence theorem",
        domains: Vec::new(),
        requires: Vec::new(),
        reversible: true,
        cost: 5,
        rewrite: Rewrite::Inert,
    }
}

/// The rule `jacobian_transform`: Jacobian coordinate transform.
pub fn jacobian_transform() -> (r: Rule)
    ensures
        rule_view(r) == (498u32, "jacobian_transform"@, RuleCategory::Integral, "Jacobian coordinate transform"@, Seq::<Domain>::empty(), Seq::<Feature>::empty(), false, 4u32, Rewrite::Inert),
{
    Rule {
        id: RuleId(498),
        name: "jacobian_transform",
        category: RuleCategory::Integral,
        description: "Jacobian coordinate transform",
        domains: Vec::new(),
        requires: Vec::new(),
        reversible: false,
        cost: 4,
        rewrite: Rewrite::Inert,
    }
}

/// The rule `power_rule`: Power rule: d/dx(x^n) = n·x^(n-1).
pub fn power_rule() -> (r: Rule)
    ensures
        rule_view(r) == (11u32, "power_rule"@, RuleCategory::Derivative, "Power rule: d/dx(x^n) = n·x^(n-1)"@, Seq::<Domain>::empty(), Seq::<Feature>::empty(), false, 2u32, Rewrite::PowerRule),
{
    Rule {
        id: RuleId(11),
        name: "power_rule",
        category: RuleCategory::Derivative,
        description: "Power rule: d/dx(x^n) = n·x^(n-1)",
        domains: Vec::new(),
        requires: Vec::new(),
        reversible: false,
        cost: 2,
        rewrite: Rewrite::PowerRule,
    }
}

/// The rule `constant_rule`: Constant rule: d/dx(c) = 0.
pub fn constant_rule() -> (r: Rule)
    ensures
        rule_view(r) == (12u32, "constant_rule"@, RuleCategory::Derivative, "Constant rule: d/dx(c) = 0"@, Seq::<Domain>::empty(), Seq::<Feature>::empty(), false, 1u32, Rewrite::ConstantRule),
{
    Rule {
        id: RuleId(12),
        name: "constant_rule",
        category: RuleCategory::Derivative,
        description: "Constant rule: d/dx(c) = 0",
        domains: Vec::new(),
        requires: Vec::new(),
        reversible: false,
        cost: 1,
        rewrite: Rewrite::ConstantRule,
    }
}

/// The rule `sum_rule`: Sum rule: d/dx(f + g) = f' + g'.
pub fn sum_rule() -> (r: Rule)
    ensures
        rule_view(r) == (13u32, "sum_rule"@, RuleCategory::Derivative, "Sum rule: d/dx(f + g) = f' + g'"@, Seq::<Domain>::empty(), Seq::<Feature>::empty(), false, 2u32, Rewrite::SumRule),
{
    Rule {
        id: RuleId(13),
        name: "sum_rule",
        category: RuleCategory::Derivative,
        description: "Sum rule: d/dx(f + g) = f' + g'",
        domains: Vec::new(),
        requires: Vec::new(),
        reversible: false,
        cost: 2,
        rewrite: Rewrite::SumRule,
    }
}

/// The rule `product_rule`: Product rule: d/dx(fg) = f'g + fg'.
pub fn product_rule() -> (r: Rule)
    ensures
        rule_view(r) == (14u32, "product_rule"@, RuleCategory::Derivative, "Product rule: d/dx(fg) = f'g + fg'"@, Seq::<Domain>::empty(), Seq::<Feature>::empty(), false, 3u32, Rewrite::ProductRule),
{
    Rule {
        id: RuleId(14),
        name: "product_rule",
        category: RuleCategory::Derivative,
        description: "Product rule: d/dx(fg) = f'g + fg'",
        domains: Vec::new(),
        requires: Vec::new(),
        reversible: false,
        cost: 3,
        rewrite: Rewrite::ProductRule,
    }
}

/// The rule `quotient_rule`: Quotient rule: d/dx(f/g) = (f'g - fg') / g².
pub fn quotient_rule() -> (r: Rule)
    ensures
        rule_view(r) == (19u32, "quotient_rule"@, RuleCategory::Derivative, "Quotient rule: d/dx(f/g) = (f'g - fg') / g²"@, Seq::<Domain>::empty(), Seq::<Feature>::empty(), false, 4u32, Rewrite::QuotientRule),
{
    Rule {
        id: RuleId(19),
        name: "quotient_rule",
        category: RuleCategory::Derivative,
        description: "Quotient rule: d/dx(f/g) = (f'g - fg') / g²",
        domains: Vec::new(),
        requires: Vec::new(),
        reversible: false,
        cost: 4,
        rewrite: Rewrite::QuotientRule,
    }
}

/// The rule `sin_chain_rule`: Sine chain rule: d/dx(sin(g)) = cos(g) * g'.
pub fn chain_rule_sin() -> (r: Rule)
    ensures
        rule_view(r) == (15u32, "sin_chain_rule"@, RuleCategory::Derivative, "Sine chain rule: d/dx(sin(g)) = cos(g) * g'"@, Seq::<Domain>::empty(), Seq::<Feature>::empty(), false, 2u32, Rewrite::SinChainRule),
{
    Rule {
        id: RuleId(15),
        name: "sin_chain_rule",
        category: RuleCategory::Derivative,
        description: "Sine chain rule: d/dx(sin(g)) = cos(g) * g'",
        domains: Vec::new(),
        requires: Vec::new(),
        reversible: false,
        cost: 2,
        rewrite: Rewrite::SinChainRule,
    }
}

/// The rule `cos_chain_rule`: Cosine chain rule: d/dx(cos(g)) = -sin(g) * g'.
pub fn chain_rule_cos() -> (r: Rule)
    ensures
        rule_view(r) == (16u32, "cos_chain_rule"@, RuleCategory::Derivative, "Cosine chain rule: d/dx(cos(g)) = -sin(g) * g'"@, Seq::<Domain>::empty(), Seq::<Feature>::empty(), false, 2u32, Rewrite::CosChainRule),
{
    Rule {
        id: RuleId(16),
        name: "cos_chain_rule",
        category: RuleCategory::Derivative,
        description: "Cosine chain rule: d/dx(cos(g)) = -sin(g) * g'",
        domains: Vec::new(),
        requires: Vec::new(),
        reversible: false,
        cost: 2,
        rewrite: Rewrite::CosChainRule,
    }
}

/// The rule `exp_derivative`: Exponential derivative: d/dx(e^x) = e^x.
pub fn exp_rule() -> (r: Rule)
    ensures
        rule_view(r) == (17u32, "exp_derivative"@, RuleCategory::Derivative, "Exponential derivative: d/dx(e^x) = e^x"@, Seq::<Domain>::empty(), Seq::<Feature>::empty(), false, 2u32, Rewrite::ExpDerivative),
{
    Rule {
        id: RuleId(17),
        name: "exp_derivative",
        category: RuleCategory::Derivative,
        description: "Exponential derivative: d/dx(e^x) = e^x",
        domains: Vec::new(),
        requires: Vec::new(),
        reversible: false,
        cost: 2,
        rewrite: Rewrite::ExpDerivative,
    }
}

/// The rule `ln_derivative`: Natural log derivative: d/dx(ln(x)) = 1/x.
pub fn ln_rule() -> (r: Rule)
    ensures
        rule_view(r) == (18u32, "ln_derivative"@, RuleCategory::Derivative, "Natural log derivative: d/dx(ln(x)) = 1/x"@, Seq::<Domain>::empty(), Seq::<Feature>::empty(), false, 2u32, Rewrite::LnDerivative),
{
    Rule {
        id: RuleId(18),
        name: "ln_derivative",
        category: RuleCategory::Derivative,
        description: "Natural log derivative: d/dx(ln(x)) = 1/x",
        domains: Vec::new(),
        requires: Vec::new(),
        reversible: false,
        cost: 2,
        rewrite: Rewrite::LnDerivative,
    }
}


// ---------------------------------------------------------------------------
// Simplification keeps the value
// ---------------------------------------------------------------------------

/// Every constant reachable through negations, sums, differences, products,
/// quotients and powers is a valid rational: in lowest terms and within
/// `i64`, as every [`Rational`] is.
pub open spec fn valid_constants(e: Expr) -> bool
    decreases e,
{
    match e {
        Expr::Const(c) => lowest(c.pair()) && fits(c.pair()),
        Expr::Neg(a) => valid_constants(*a),
        Expr::Add(a, b) | Expr::Sub(a, b) | Expr::Mul(a, b) | Expr::Div(a, b) | Expr::Pow(a, b) =>
            valid_constants(*a) && valid_constants(*b),
        _ => true,
    }
}

/// A partial power of a valid rational is in lowest terms.
proof fn lemma_rpow_lowest(p: (int, int), k: nat)
    requires
        lowest(p),
    ensures
        lowest(rpow(p, k)),
    decreases k,
{
    if k == 0 {
        assert(crate::rational::gcd(1, 1) == crate::rational::gcd(1, 0));
    } else {
        lemma_rpow_lowest(p, (k - 1) as nat);
        let q = rpow(p, (k - 1) as nat);
        assert(q.1 * p.1 > 0) by (nonlinear_arith)
            requires
                q.1 > 0,
                p.1 > 0,
        ;
        crate::rational::lemma_normalize_lowest(q.0 * p.0, q.1 * p.1);
    }
}

/// A value computed by [`eval_at`] from valid constants and a valid value is
/// itself valid.
pub proof fn lemma_eval_valid(e: Expr, var: Symbol, value: (int, int))
    requires
        valid_constants(e),
        lowest(value),
        fits(value),
    ensures
        eval_at(e, var, value) is Some ==> lowest(eval_at(e, var, value)->0) && fits(eval_at(e, var, value)->0),
    decreases e,
{
    match e {
        Expr::Neg(a) => {
            lemma_eval_valid(*a, var, value);
            if let Some(x) = eval_at(*a, var, value) {
                assert(crate::rational::abs(-x.0) == crate::rational::abs(x.0));
            }
        },
        Expr::Add(a, b) | Expr::Sub(a, b) | Expr::Mul(a, b) | Expr::Div(a, b) => {
            lemma_eval_valid(*a, var, value);
            lemma_eval_valid(*b, var, value);
            if let (Some(x), Some(y)) = (eval_at(*a, var, value), eval_at(*b, var, value)) {
                assert(x.1 * y.1 > 0) by (nonlinear_arith)
                    requires
                        x.1 > 0,
                        y.1 > 0,
                ;
                crate::rational::lemma_normalize_lowest(x.0 * y.1 + y.0 * x.1, x.1 * y.1);
                crate::rational::lemma_normalize_lowest(x.0 * y.1 - y.0 * x.1, x.1 * y.1);
                crate::rational::lemma_normalize_lowest(x.0 * y.0, x.1 * y.1);
                if y.0 != 0 {
                    assert(x.1 * y.0 != 0) by (nonlinear_arith)
                        requires
                            x.1 > 0,
                            y.0 != 0,
                    ;
                    crate::rational::lemma_normalize_lowest(x.0 * y.1, x.1 * y.0);
                }
            }
        },
        Expr::Pow(a, _) => {
            lemma_eval_valid(*a, var, value);
            if let Some(x) = eval_at(*a, var, value) {
                if let Some(v) = eval_at(e, var, value) {
                    let k = e->Pow_1->Const_0.num() as nat;
                    lemma_rpow_lowest(x, k);
                    if k > 0 {
                        assert(pow_fits(x, k));
                    }
                }
            }
        },
        _ => {},
    }
}

/// `0 + y`, `y + 0`, `y - 0`, `1·y` and `y·1` have the value of `y`, and
/// `0·y`, `y·0` the value 0, for a value `y` in lowest terms.
proof fn lemma_unit_values(y: (int, int))
    requires
        lowest(y),
    ensures
        radd((0, 1), y) == y,
        radd(y, (0, 1)) == y,
        rsub(y, (0, 1)) == y,
        rmul((1, 1), y) == y,
        rmul(y, (1, 1)) == y,
        rmul((0, 1), y) == (0int, 1int),
        rmul(y, (0, 1)) == (0int, 1int),
        rpow(y, 1) == y,
{
    lemma_normalize_reduced(y.0, y.1);
    assert(y.0 * 1 == y.0 && 0 * y.1 == 0 && y.1 * 1 == y.1 && 1 * y.1 == y.1 && 1 * y.0 == y.0);
    assert(crate::rational::frac_add((0, 1), y) == (y.0, y.1));
    assert(crate::rational::frac_add(y, (0, 1)) == (y.0, y.1));
    assert(crate::rational::frac_sub(y, (0, 1)) == (y.0, y.1));
    assert(crate::rational::frac_mul((1, 1), y) == (y.0, y.1));
    assert(crate::rational::frac_mul(y, (1, 1)) == (y.0, y.1));
    lemma_normalize(0, y.1);
    assert(crate::rational::frac_mul((0, 1), y) == (0int, y.1));
    assert(crate::rational::frac_mul(y, (0, 1)) == (0int, y.1));
    assert(rpow(y, 1) == rmul(rpow(y, 0), y));
}

/// A zero constant of valid value is `0/1`.
proof fn lemma_zero_const_value(x: Expr, v: (int, int))
    requires
        zero_const(x),
        x->Const_0.pair() == v,
        lowest(v),
    ensures
        v == (0int, 1int),
{
    assert(crate::rational::gcd(0, v.1 as nat) == crate::rational::gcd(v.1 as nat, 0));
}

/// Simplification keeps the value: where `e` evaluates to `v` and
/// [`simplify`] succeeds, the simplified expression evaluates to `v` too.
pub proof fn lemma_simplify_keeps_value(e: Expr, var: Symbol, value: (int, int))
    requires
        valid_constants(e),
        lowest(value),
        fits(value),
    ensures
        eval_at(e, var, value) is Some && simp_view(e) is Some ==> eval_at(simp_view(e)->0, var, value) == eval_at(e, var, value),
{
    let nothing = |t: Expr| None::<(int, int)>;
    lemma_simplify_keeps_meaning(e, var, value, nothing);
    lemma_eval_with_nothing(e, var, value, nothing);
    if let Some(x) = simp_view(e) {
        lemma_eval_with_nothing(x, var, value, nothing);
    }
}

/// Under an interpretation that gives no value, [`eval_with`] is [`eval_at`].
proof fn lemma_eval_with_nothing(e: Expr, var: Symbol, value: (int, int), oracle: spec_fn(Expr) -> Option<(int, int)>)
    requires
        forall|t: Expr| #[trigger] oracle(t) is None,
    ensures
        eval_with(e, var, value, oracle) == eval_at(e, var, value),
    decreases e,
{
    match e {
        Expr::Neg(a) => lemma_eval_with_nothing(*a, var, value, oracle),
        Expr::Add(a, b) | Expr::Sub(a, b) | Expr::Mul(a, b) | Expr::Div(a, b) => {
            lemma_eval_with_nothing(*a, var, value, oracle);
            lemma_eval_with_nothing(*b, var, value, oracle);
        },
        Expr::Pow(a, _) => lemma_eval_with_nothing(*a, var, value, oracle),
        _ => {},
    }
}


/// The value of `e` with `var` set to `value`, where every form that
/// [`eval_at`] does not evaluate (`sin`, `cos`, `e^x`, `ln`, an unevaluated
/// derivative and the like) takes the value `oracle` gives it: an
/// interpretation of the functions the library leaves symbolic.  With an
/// oracle that gives nothing this is [`eval_at`].
pub open spec fn eval_with(e: Expr, var: Symbol, value: (int, int), oracle: spec_fn(Expr) -> Option<(int, int)>) -> Option<(int, int)>
    decreases e,
{
    match e {
        Expr::Const(c) => Some(c.pair()),
        Expr::Var(v) => if v == var {
            Some(value)
        } else {
            None
        },
        Expr::Neg(a) => match eval_with(*a, var, value, oracle) {
            Some(x) => Some((-x.0, x.1)),
            None => None,
        },
        Expr::Add(a, b) => match (eval_with(*a, var, value, oracle), eval_with(*b, var, value, oracle)) {
            (Some(x), Some(y)) => if fits(radd(x, y)) {
                Some(radd(x, y))
            } else {
                None
            },
            _ => None,
        },
        Expr::Sub(a, b) => match (eval_with(*a, var, value, oracle), eval_with(*b, var, value, oracle)) {
            (Some(x), Some(y)) => if fits(rsub(x, y)) {
                Some(rsub(x, y))
            } else {
                None
            },
            _ => None,
        },
        Expr::Mul(a, b) => match (eval_with(*a, var, value, oracle), eval_with(*b, var, value, oracle)) {
            (Some(x), Some(y)) => if fits(rmul(x, y)) {
                Some(rmul(x, y))
            } else {
                None
            },
            _ => None,
        },
        Expr::Div(a, b) => match (eval_with(*a, var, value, oracle), eval_with(*b, var, value, oracle)) {
            (Some(x), Some(y)) => if y.0 != 0 && fits(rdiv(x, y)) {
                Some(rdiv(x, y))
            } else {
                None
            },
            _ => None,
        },
        Expr::Pow(base, exp) => match eval_with(*base, var, value, oracle) {
            Some(x) => match *exp {
                Expr::Const(n) => if n.den() == 1 && 0 <= n.num() <= i32::MAX && pow_fits(x, n.num() as nat) {
                    Some(rpow(x, n.num() as nat))
                } else {
                    None
                },
                _ => None,
            },
            None => None,
        },
        _ => oracle(e),
    }
}

/// Every value `oracle` gives is in lowest terms and fits.
pub open spec fn oracle_valid(oracle: spec_fn(Expr) -> Option<(int, int)>) -> bool {
    forall|t: Expr| #[trigger] oracle(t) is Some ==> lowest(oracle(t)->0) && fits(oracle(t)->0)
}

/// Values under an interpretation are in lowest terms and fit.
proof fn lemma_eval_with_valid(e: Expr, var: Symbol, value: (int, int), oracle: spec_fn(Expr) -> Option<(int, int)>)
    requires
        oracle_valid(oracle),
        valid_constants(e),
        lowest(value),
        fits(value),
    ensures
        eval_with(e, var, value, oracle) is Some ==> lowest(eval_with(e, var, value, oracle)->0) && fits(eval_with(e, var, value, oracle)->0),
    decreases e,
{
    match e {
        Expr::Neg(a) => {
            lemma_eval_with_valid(*a, var, value, oracle);
            if let Some(x) = eval_with(*a, var, value, oracle) {
                assert(crate::rational::abs(-x.0) == crate::rational::abs(x.0));
            }
        },
        Expr::Add(a, b) | Expr::Sub(a, b) | Expr::Mul(a, b) | Expr::Div(a, b) => {
            lemma_eval_with_valid(*a, var, value, oracle);
            lemma_eval_with_valid(*b, var, value, oracle);
            if let (Some(x), Some(y)) = (eval_with(*a, var, value, oracle), eval_with(*b, var, value, oracle)) {
                assert(x.1 * y.1 > 0) by (nonlinear_arith)
                    requires
                        x.1 > 0,
                        y.1 > 0,
                ;
                crate::rational::lemma_normalize_lowest(x.0 * y.1 + y.0 * x.1, x.1 * y.1);
                crate::rational::lemma_normalize_lowest(x.0 * y.1 - y.0 * x.1, x.1 * y.1);
                crate::rational::lemma_normalize_lowest(x.0 * y.0, x.1 * y.1);
                if y.0 != 0 {
                    assert(x.1 * y.0 != 0) by (nonlinear_arith)
                        requires
                            x.1 > 0,
                            y.0 != 0,
                    ;
                    crate::rational::lemma_normalize_lowest(x.0 * y.1, x.1 * y.0);
                }
            }
        },
        Expr::Pow(a, _) => {
            lemma_eval_with_valid(*a, var, value, oracle);
            if let Some(x) = eval_with(*a, var, value, oracle) {
                if let Some(v) = eval_with(e, var, value, oracle) {
                    let k = e->Pow_1->Const_0.num() as nat;
                    lemma_rpow_lowest(x, k);
                    if k > 0 {
                        assert(pow_fits(x, k));
                    }
                }
            }
        },
        _ => {},
    }
}

/// Simplification keeps the meaning of every expression, not only of those
/// [`eval_at`] evaluates: under any interpretation `oracle` of the symbolic
/// functions, where `e` has a value and [`simplify`] succeeds, the
/// simplified expression has the same value.  So `-sin(x)` never loses its
/// sign, and `x - sin(x)` never becomes `x + sin(x)`.
pub proof fn lemma_simplify_keeps_meaning(
    e: Expr,
    var: Symbol,
    value: (int, int),
    oracle: spec_fn(Expr) -> Option<(int, int)>,
)
    requires
        oracle_valid(oracle),
        valid_constants(e),
        lowest(value),
        fits(value),
    ensures
        eval_with(e, var, value, oracle) is Some && simp_view(e) is Some ==> eval_with(simp_view(e)->0, var, value, oracle) == eval_with(e, var, value, oracle),
    decreases e,
{
    lemma_eval_with_valid(e, var, value, oracle);
    match e {
        Expr::Add(a, b) => {
            lemma_simplify_keeps_meaning(*a, var, value, oracle);
            lemma_simplify_keeps_meaning(*b, var, value, oracle);
            lemma_eval_with_valid(*a, var, value, oracle);
            lemma_eval_with_valid(*b, var, value, oracle);
            if eval_with(e, var, value, oracle) is Some && simp_view(e) is Some {
                let va = eval_with(*a, var, value, oracle)->0;
                let vb = eval_with(*b, var, value, oracle)->0;
                let x = simp_view(*a)->0;
                let y = simp_view(*b)->0;
                let v = eval_with(e, var, value, oracle)->0;
                assert(v == radd(va, vb));
                lemma_unit_values(va);
                lemma_unit_values(vb);
                assert(eval_with(x, var, value, oracle) == Some(va));
                assert(eval_with(y, var, value, oracle) == Some(vb));
                if zero_const(x) {
                    lemma_zero_const_value(x, va);
                    assert(simp_view(e) == Some(y));
                } else if zero_const(y) {
                    lemma_zero_const_value(y, vb);
                    assert(simp_view(e) == Some(x));
                } else if x is Const && y is Const {
                    lemma_rat_of_pair(radd(va, vb));
                    assert(eval_with(simp_view(e)->0, var, value, oracle) == Some(v));
                } else {
                    assert(simp_view(e) == Some(Expr::Add(Box::new(x), Box::new(y))));
                }
                assert(eval_with(simp_view(e)->0, var, value, oracle) == Some(v));
            }
        },
        Expr::Sub(a, b) => {
            lemma_simplify_keeps_meaning(*a, var, value, oracle);
            lemma_simplify_keeps_meaning(*b, var, value, oracle);
            lemma_eval_with_valid(*a, var, value, oracle);
            lemma_eval_with_valid(*b, var, value, oracle);
            if let (Some(va), Some(vb), Some(x), Some(y)) = (
                eval_with(*a, var, value, oracle),
                eval_with(*b, var, value, oracle),
                simp_view(*a),
                simp_view(*b),
            ) {
                lemma_unit_values(va);
                lemma_unit_values(vb);
                if zero_const(x) {
                    lemma_zero_const_value(x, va);
                }
                if zero_const(y) {
                    lemma_zero_const_value(y, vb);
                }
                if fits(rsub(va, vb)) {
                    lemma_rat_of_pair(rsub(va, vb));
                }
                lemma_rat_of_pair((0, 1));
            }
        },
        Expr::Mul(a, b) => {
            lemma_simplify_keeps_meaning(*a, var, value, oracle);
            lemma_simplify_keeps_meaning(*b, var, value, oracle);
            lemma_eval_with_valid(*a, var, value, oracle);
            lemma_eval_with_valid(*b, var, value, oracle);
            if let (Some(va), Some(vb), Some(x), Some(y)) = (
                eval_with(*a, var, value, oracle),
                eval_with(*b, var, value, oracle),
                simp_view(*a),
                simp_view(*b),
            ) {
                lemma_unit_values(va);
                lemma_unit_values(vb);
                if zero_const(x) {
                    lemma_zero_const_value(x, va);
                }
                if zero_const(y) {
                    lemma_zero_const_value(y, vb);
                }
                if fits(rmul(va, vb)) {
                    lemma_rat_of_pair(rmul(va, vb));
                }
                lemma_rat_of_pair((0, 1));
            }
        },
        Expr::Pow(a, b) => {
            lemma_simplify_keeps_meaning(*a, var, value, oracle);
            lemma_simplify_keeps_meaning(*b, var, value, oracle);
            lemma_eval_with_valid(*a, var, value, oracle);
            if let (Some(va), Some(x), Some(y)) = (eval_with(*a, var, value, oracle), simp_view(*a), simp_view(*b)) {
                lemma_unit_values(va);
                lemma_rat_of_pair((1, 1));
                if let Expr::Const(n) = *b {
                    assert(y == *b);
                }
            }
        },
        Expr::Neg(a) => {
            lemma_simplify_keeps_meaning(*a, var, value, oracle);
            lemma_eval_with_valid(*a, var, value, oracle);
            if let (Some(va), Some(x)) = (eval_with(*a, var, value, oracle), simp_view(*a)) {
                if let Expr::Const(c) = x {
                    lemma_rat_of_pair((-c.num(), c.den()));
                }
            }
        },
        _ => {},
    }
}


/// The value of `f` at a candidate, when it has one.
pub open spec fn value_at(f: Expr, var: Symbol, c: (int, int)) -> Option<(int, int)> {
    eval_at(f, var, c)
}

/// `w ≤ p < v` gives `w < v` for fractions with positive denominators.
proof fn lemma_frac_le_lt(w: (int, int), p: (int, int), v: (int, int))
    requires
        w.1 > 0,
        p.1 > 0,
        v.1 > 0,
        !frac_lt(p, w),
        frac_lt(p, v),
    ensures
        frac_lt(w, v),
{
    assert(w.0 * v.1 < v.0 * w.1) by (nonlinear_arith)
        requires
            w.1 > 0,
            p.1 > 0,
            v.1 > 0,
            w.0 * p.1 <= p.0 * w.1,
            p.0 * v.1 < v.0 * p.1,
    {
        assert(w.0 * p.1 * v.1 <= p.0 * w.1 * v.1);
        assert(p.0 * v.1 * w.1 < v.0 * p.1 * w.1);
        assert(w.0 * v.1 * p.1 < v.0 * w.1 * p.1);
    }
}

/// `v < p ≤ w` gives `v < w` for fractions with positive denominators.
proof fn lemma_frac_lt_le(v: (int, int), p: (int, int), w: (int, int))
    requires
        w.1 > 0,
        p.1 > 0,
        v.1 > 0,
        frac_lt(v, p),
        !frac_lt(w, p),
    ensures
        frac_lt(v, w),
{
    assert(v.0 * w.1 < w.0 * v.1) by (nonlinear_arith)
        requires
            w.1 > 0,
            p.1 > 0,
            v.1 > 0,
            v.0 * p.1 < p.0 * v.1,
            p.0 * w.1 <= w.0 * p.1,
    {
        assert(v.0 * p.1 * w.1 < p.0 * v.1 * w.1);
        assert(p.0 * w.1 * v.1 <= w.0 * p.1 * v.1);
        assert(v.0 * w.1 * p.1 < w.0 * v.1 * p.1);
    }
}

/// The best candidate is an extreme: [`best_of`] picks a candidate and its
/// value, and no candidate where `f` has a value does better (none is larger
/// for the maximum, none smaller for the minimum).  It finds nothing exactly
/// when `f` has no value at any candidate.  So [`find_max_on_interval`] and
/// [`find_min_on_interval`] return the largest and the smallest value of `f`
/// over the points they examine.
pub proof fn lemma_best_is_extreme(f: Expr, var: Symbol, cs: Seq<(int, int)>, want_max: bool)
    requires
        valid_constants(f),
        forall|i: int| 0 <= i < cs.len() ==> lowest(#[trigger] cs[i]) && fits(cs[i]),
    ensures
        match best_of(f, var, cs, want_max) {
            Some((x, v)) => {
                &&& cs.contains(x)
                &&& value_at(f, var, x) == Some(v)
                &&& forall|i: int| 0 <= i < cs.len() && (#[trigger] value_at(f, var, cs[i])) is Some ==> if want_max {
                    !frac_lt(v, value_at(f, var, cs[i])->0)
                } else {
                    !frac_lt(value_at(f, var, cs[i])->0, v)
                }
            },
            None => forall|i: int| 0 <= i < cs.len() ==> (#[trigger] value_at(f, var, cs[i])) is None,
        },
    decreases cs.len(),
{
    if cs.len() == 0 {
        return;
    }
    let init = cs.drop_last();
    let x = cs.last();
    assert forall|i: int| 0 <= i < init.len() implies lowest(#[trigger] init[i]) && fits(init[i]) by {
        assert(init[i] == cs[i]);
    }
    lemma_best_is_extreme(f, var, init, want_max);
    assert(lowest(cs[cs.len() - 1]) && fits(cs[cs.len() - 1]));
    lemma_eval_valid(f, var, x);
    assert forall|i: int| 0 <= i < init.len() implies #[trigger] cs[i] == init[i] by {}
    let prev = best_of(f, var, init, want_max);
    assert(cs.contains(x)) by {
        assert(cs[cs.len() - 1] == x);
    }
    match eval_at(f, var, x) {
        Some(v) => {
            match prev {
                None => {
                    assert forall|i: int| 0 <= i < cs.len() && (#[trigger] value_at(f, var, cs[i])) is Some
                        implies value_at(f, var, cs[i]) == Some(v) by {
                        if i < init.len() {
                            assert(value_at(f, var, init[i]) is None);
                        }
                    }
                },
                Some(p) => {
                    let px = p.0;
                    assert(init.contains(px));
                    let k = choose|k: int| 0 <= k < init.len() && init[k] == px;
                    assert(lowest(init[k]) && fits(init[k]));
                    lemma_eval_valid(f, var, px);
                    let better = if want_max { frac_lt(p.1, v) } else { frac_lt(v, p.1) };
                    if better {
                        assert forall|i: int| 0 <= i < cs.len() && (#[trigger] value_at(f, var, cs[i])) is Some
                            implies (if want_max {
                                !frac_lt(v, value_at(f, var, cs[i])->0)
                            } else {
                                !frac_lt(value_at(f, var, cs[i])->0, v)
                            }) by {
                            if i < init.len() {
                                let w = value_at(f, var, init[i])->0;
                                assert(lowest(init[i]) && fits(init[i]));
                                lemma_eval_valid(f, var, init[i]);
                                if want_max {
                                    lemma_frac_le_lt(w, p.1, v);
                                } else {
                                    lemma_frac_lt_le(v, p.1, w);
                                }
                            } else {
                                assert(cs[i] == x);
                            }
                        }
                    } else {
                        assert(init.contains(px) ==> cs.contains(px)) by {
                            assert(cs[k] == init[k]);
                        }
                        assert forall|i: int| 0 <= i < cs.len() && (#[trigger] value_at(f, var, cs[i])) is Some
                            implies (if want_max {
                                !frac_lt(p.1, value_at(f, var, cs[i])->0)
                            } else {
                                !frac_lt(value_at(f, var, cs[i])->0, p.1)
                            }) by {
                            if i < init.len() {
                                assert(cs[i] == init[i]);
                            } else {
                                assert(cs[i] == x);
                            }
                        }
                    }
                },
            }
        },
        None => {
            match prev {
                None => {
                    assert forall|i: int| 0 <= i < cs.len() implies (#[trigger] value_at(f, var, cs[i])) is None by {
                        if i < init.len() {
                            assert(cs[i] == init[i]);
                        } else {
                            assert(cs[i] == x);
                        }
                    }
                },
                Some(p) => {
                    let px = p.0;
                    assert(init.contains(px));
                    let k = choose|k: int| 0 <= k < init.len() && init[k] == px;
                    assert(cs[k] == init[k]);
                    assert forall|i: int| 0 <= i < cs.len() && (#[trigger] value_at(f, var, cs[i])) is Some
                        implies (if want_max {
                            !frac_lt(p.1, value_at(f, var, cs[i])->0)
                        } else {
                            !frac_lt(value_at(f, var, cs[i])->0, p.1)
                        }) by {
                        if i < init.len() {
                            assert(cs[i] == init[i]);
                        } else {
                            assert(cs[i] == x);
                        }
                    }
                },
            }
        },
    }
}


/// The placeholder rules of [`phase4_calculus_rules`] (limits, series,
/// multivariable calculus: position 48 onward) never fire and never give a
/// result, whatever the expression and the search target.
pub proof fn lemma_phase4_placeholders_never_fire(i: int, e: Expr, target: Option<Symbol>)
    requires
        48 <= i < phase4_calculus_rules_meta().len(),
    ensures
        phase4_calculus_rules_meta()[i].8 == Rewrite::Inert,
        !crate::rewrite::applies(phase4_calculus_rules_meta()[i].8, e, target),
        crate::rewrite::results(phase4_calculus_rules_meta()[i].8, e).len() == 0,
{
    let m = phase4_calculus_rules_meta();
    assert(m.len() == 82);
    if i == 48 {
        assert(m[48].8 == Rewrite::Inert);
    } else if i == 49 {
        assert(m[49].8 == Rewrite::Inert);
    } else if i == 50 {
        assert(m[50].8 == Rewrite::Inert);
    } else if i == 51 {
        assert(m[51].8 == Rewrite::Inert);
    } else if i == 52 {
        assert(m[52].8 == Rewrite::Inert);
    } else if i == 53 {
        assert(m[53].8 == Rewrite::Inert);
    } else if i == 54 {
        assert(m[54].8 == Rewrite::Inert);
    } else if i == 55 {
        assert(m[55].8 == Rewrite::Inert);
    } else if i == 56 {
        assert(m[56].8 == Rewrite::Inert);
    } else if i == 57 {
        assert(m[57].8 == Rewrite::Inert);
    } else if i == 58 {
        assert(m[58].8 == Rewrite::Inert);
    } else if i == 59 {
        assert(m[59].8 == Rewrite::Inert);
    } else if i == 60 {
        assert(m[60].8 == Rewrite::Inert);
    } else if i == 61 {
        assert(m[61].8 == Rewrite::Inert);
    } else if i == 62 {
        assert(m[62].8 == Rewrite::Inert);
    } else if i == 63 {
        assert(m[63].8 == Rewrite::Inert);
    } else if i == 64 {
        assert(m[64].8 == Rewrite::Inert);
    } else if i == 65 {
        assert(m[65].8 == Rewrite::Inert);
    } else if i == 66 {
        assert(m[66].8 == Rewrite::Inert);
    } else if i == 67 {
        assert(m[67].8 == Rewrite::Inert);
    } else if i == 68 {
        assert(m[68].8 == Rewrite::Inert);
    } else if i == 69 {
        assert(m[69].8 == Rewrite::Inert);
    } else if i == 70 {
        assert(m[70].8 == Rewrite::Inert);
    } else if i == 71 {
        assert(m[71].8 == Rewrite::Inert);
    } else if i == 72 {
        assert(m[72].8 == Rewrite::Inert);
    } else if i == 73 {
        assert(m[73].8 == Rewrite::Inert);
    } else if i == 74 {
        assert(m[74].8 == Rewrite::Inert);
    } else if i == 75 {
        assert(m[75].8 == Rewrite::Inert);
    } else if i == 76 {
        assert(m[76].8 == Rewrite::Inert);
    } else if i == 77 {
        assert(m[77].8 == Rewrite::Inert);
    } else if i == 78 {
        assert(m[78].8 == Rewrite::Inert);
    } else if i == 79 {
        assert(m[79].8 == Rewrite::Inert);
    } else if i == 80 {
        assert(m[80].8 == Rewrite::Inert);
    } else if i == 81 {
        assert(m[81].8 == Rewrite::Inert);
    }
}


/// The value of `e` and of its derivative with respect to `var` at `p`,
/// computed on dual numbers `x + dx·ε` (with `ε² = 0`): constants have slope
/// 0, the variable slope 1, and each operation combines values and slopes
/// as the sum, product, quotient and power rules of calculus say.  `None`
/// where a value is undefined (another variable, a zero divisor, a
/// non-integer or negative power) or leaves the `i64` range.
pub open spec fn dual_eval(e: Expr, var: Symbol, p: (int, int)) -> Option<((int, int), (int, int))>
    decreases e,
{
    match e {
        Expr::Const(c) => Some((c.pair(), (0int, 1int))),
        Expr::Var(v) => if v == var { Some((p, (1int, 1int))) } else { None },
        Expr::Neg(a) => match dual_eval(*a, var, p) {
            Some((x, dx)) => Some(((-x.0, x.1), (-dx.0, dx.1))),
            None => None,
        },
        Expr::Add(a, b) => match (dual_eval(*a, var, p), dual_eval(*b, var, p)) {
            (Some((x, dx)), Some((y, dy))) => if fits(radd(x, y)) && fits(radd(dx, dy)) {
                Some((radd(x, y), radd(dx, dy)))
            } else {
                None
            },
            _ => None,
        },
        Expr::Sub(a, b) => match (dual_eval(*a, var, p), dual_eval(*b, var, p)) {
            (Some((x, dx)), Some((y, dy))) => if fits(rsub(x, y)) && fits(rsub(dx, dy)) {
                Some((rsub(x, y), rsub(dx, dy)))
            } else {
                None
            },
            _ => None,
        },
        Expr::Mul(a, b) => match (dual_eval(*a, var, p), dual_eval(*b, var, p)) {
            (Some((x, dx)), Some((y, dy))) => {
                let t1 = rmul(dx, y);
                let t2 = rmul(x, dy);
                if fits(rmul(x, y)) && fits(t1) && fits(t2) && fits(radd(t1, t2)) {
                    Some((rmul(x, y), radd(t1, t2)))
                } else {
                    None
                }
            },
            _ => None,
        },
        Expr::Div(a, b) => match (dual_eval(*a, var, p), dual_eval(*b, var, p)) {
            (Some((x, dx)), Some((y, dy))) => {
                let t1 = rmul(dx, y);
                let t2 = rmul(x, dy);
                let num = rsub(t1, t2);
                let den = rpow(y, 2);
                if y.0 != 0 && fits(rdiv(x, y)) && fits(t1) && fits(t2) && fits(num) && pow_fits(y, 2) && den.0 != 0
                    && fits(rdiv(num, den)) {
                    Some((rdiv(x, y), rdiv(num, den)))
                } else {
                    None
                }
            },
            _ => None,
        },
        Expr::Pow(base, exp) => match (dual_eval(*base, var, p), *exp) {
            (Some((x, dx)), Expr::Const(n)) => {
                let k = rsub(n.pair(), (1, 1));
                let c = rmul(n.pair(), rpow(x, k.0 as nat));
                if n.den() == 1 && 0 <= n.num() <= i32::MAX && pow_fits(x, n.num() as nat) && fits(k) && k.1 == 1
                    && 0 <= k.0 <= i32::MAX && pow_fits(x, k.0 as nat) && fits(c) && fits(rmul(c, dx)) {
                    Some((rpow(x, n.num() as nat), rmul(c, dx)))
                } else {
                    None
                }
            },
            _ => None,
        },
        _ => None,
    }
}

/// The derivative of `e` agrees with its dual-number slope at `p`: where
/// [`dual_eval`] gives the value `x` and the slope `dx`, `e` evaluates to
/// `x` and [`deriv`] of `e` evaluates to `dx`.
pub open spec fn slope_agrees(e: Expr, var: Symbol, p: (int, int)) -> bool {
    dual_eval(e, var, p) matches Some((x, dx)) ==> eval_at(e, var, p) == Some(x) && eval_at(deriv(e, var), var, p)
        == Some(dx)
}

/// The product rule case of [`lemma_derivative_is_dual_slope`].
proof fn lemma_slope_mul(a: Expr, b: Expr, var: Symbol, p: (int, int))
    requires
        slope_agrees(a, var, p),
        slope_agrees(b, var, p),
    ensures
        slope_agrees(Expr::Mul(Box::new(a), Box::new(b)), var, p),
{
    reveal_with_fuel(eval_at, 3);
}

/// The quotient rule case of [`lemma_derivative_is_dual_slope`].
proof fn lemma_slope_div(a: Expr, b: Expr, var: Symbol, p: (int, int))
    requires
        slope_agrees(a, var, p),
        slope_agrees(b, var, p),
    ensures
        slope_agrees(Expr::Div(Box::new(a), Box::new(b)), var, p),
{
    reveal_with_fuel(eval_at, 3);
    crate::rational::lemma_rat_of_pair((2, 1));
}

/// The power rule case of [`lemma_derivative_is_dual_slope`].
proof fn lemma_slope_pow(base: Expr, n: Rational, var: Symbol, p: (int, int))
    requires
        slope_agrees(base, var, p),
        fits(rsub(n.pair(), (1, 1))),
    ensures
        slope_agrees(Expr::Pow(Box::new(base), Box::new(Expr::Const(n))), var, p),
{
    reveal_with_fuel(eval_at, 3);
    crate::rational::lemma_rat_of_pair(rsub(n.pair(), (1, 1)));
}

/// Differentiation is correct: wherever the dual-number evaluation of `e`
/// at `p` is defined, `e` evaluates to its value and the derivative that
/// [`differentiate`] builds evaluates to its slope.  So the derivative of a
/// sum, product, quotient or power has the value the sum, product, quotient
/// and power rules give (for instance `d/dx(1/x)` at 1 is `-1`).
pub proof fn lemma_derivative_is_dual_slope(e: Expr, var: Symbol, p: (int, int))
    requires
        deriv_ok(e),
    ensures
        slope_agrees(e, var, p),
    decreases e,
{
    crate::rational::lemma_rat_of_pair((0, 1));
    crate::rational::lemma_rat_of_pair((1, 1));
    match e {
        Expr::Neg(a) => {
            lemma_derivative_is_dual_slope(*a, var, p);
            assert(deriv(e, var) == Expr::Neg(Box::new(deriv(*a, var))));
        },
        Expr::Add(a, b) => {
            lemma_derivative_is_dual_slope(*a, var, p);
            lemma_derivative_is_dual_slope(*b, var, p);
        },
        Expr::Sub(a, b) => {
            lemma_derivative_is_dual_slope(*a, var, p);
            lemma_derivative_is_dual_slope(*b, var, p);
        },
        Expr::Mul(a, b) => {
            lemma_derivative_is_dual_slope(*a, var, p);
            lemma_derivative_is_dual_slope(*b, var, p);
            lemma_slope_mul(*a, *b, var, p);
        },
        Expr::Div(a, b) => {
            lemma_derivative_is_dual_slope(*a, var, p);
            lemma_derivative_is_dual_slope(*b, var, p);
            lemma_slope_div(*a, *b, var, p);
        },
        Expr::Pow(base, exp) => {
            if let Expr::Const(n) = *exp {
                lemma_derivative_is_dual_slope(*base, var, p);
                lemma_slope_pow(*base, n, var, p);
            }
        },
        _ => {},
    }
}

/// `e` with every unevaluated derivative with respect to `var` worked out
/// by [`deriv`]; the rest of `e` is kept.
pub open spec fn resolve_derivatives(e: Expr, var: Symbol) -> Expr
    decreases e,
{
    match e {
        Expr::Derivative { expr: h, var: w } => if w == var {
            deriv(*h, var)
        } else {
            e
        },
        Expr::Neg(a) => Expr::Neg(Box::new(resolve_derivatives(*a, var))),
        Expr::Add(a, b) => Expr::Add(Box::new(resolve_derivatives(*a, var)), Box::new(resolve_derivatives(*b, var))),
        Expr::Sub(a, b) => Expr::Sub(Box::new(resolve_derivatives(*a, var)), Box::new(resolve_derivatives(*b, var))),
        Expr::Mul(a, b) => Expr::Mul(Box::new(resolve_derivatives(*a, var)), Box::new(resolve_derivatives(*b, var))),
        Expr::Div(a, b) => Expr::Div(Box::new(resolve_derivatives(*a, var)), Box::new(resolve_derivatives(*b, var))),
        Expr::Pow(a, b) => Expr::Pow(Box::new(resolve_derivatives(*a, var)), Box::new(resolve_derivatives(*b, var))),
        _ => e,
    }
}

/// The sum, product and quotient rules of the registry agree with
/// [`differentiate`]: for `f` and `g` free of unevaluated derivatives, the
/// single result of each rule on `d/dx(f + g)`, `d/dx(f·g)` and
/// `d/dx(f/g)`, with its inner derivatives worked out, is the derivative
/// [`differentiate`] gives; so by [`lemma_derivative_is_dual_slope`] it has
/// the value the calculus rules give.
pub proof fn lemma_registry_rules_match_differentiate(f: Expr, g: Expr, var: Symbol)
    requires
        resolve_derivatives(f, var) == f,
        resolve_derivatives(g, var) == g,
    ensures
        results(Rewrite::SumRule, d(Expr::Add(Box::new(f), Box::new(g)), var)).len() == 1,
        resolve_derivatives(results(Rewrite::SumRule, d(Expr::Add(Box::new(f), Box::new(g)), var))[0].0, var) == deriv(
            Expr::Add(Box::new(f), Box::new(g)),
            var,
        ),
        results(Rewrite::ProductRule, d(Expr::Mul(Box::new(f), Box::new(g)), var)).len() == 1,
        resolve_derivatives(results(Rewrite::ProductRule, d(Expr::Mul(Box::new(f), Box::new(g)), var))[0].0, var)
            == deriv(Expr::Mul(Box::new(f), Box::new(g)), var),
        results(Rewrite::QuotientRule, d(Expr::Div(Box::new(f), Box::new(g)), var)).len() == 1,
        resolve_derivatives(results(Rewrite::QuotientRule, d(Expr::Div(Box::new(f), Box::new(g)), var))[0].0, var)
            == deriv(Expr::Div(Box::new(f), Box::new(g)), var),
{
    reveal_with_fuel(resolve_derivatives, 4);
}

/// An integer over 1 is in lowest terms.
proof fn lemma_integer_lowest(a: int)
    ensures
        lowest((a, 1)),
        normalize(a, 1) == (a, 1int),
{
    assert(crate::rational::abs(a) % 1 == 0);
    assert(crate::rational::gcd(crate::rational::abs(a), 1) == crate::rational::gcd(1, 0));
    crate::rational::lemma_normalize_value(a, 1, (a, 1));
}

/// Dividing `c·m` by `m²` gives back `q` when `c` has the value `m·q`.
proof fn lemma_quotient_by_square(q: (int, int), m: int)
    requires
        lowest(q),
        m != 0,
    ensures
        rdiv(rmul(rmul((m, 1), q), (m, 1)), rmul((m, 1), (m, 1))) == q,
{
    let c = rmul((m, 1), q);
    let t1 = rmul(c, (m, 1));
    crate::rational::lemma_normalize_same(m * q.0, 1 * q.1);
    crate::rational::lemma_normalize_same(c.0 * m, c.1 * 1);
    lemma_integer_lowest(m * m);
    assert(rmul((m, 1), (m, 1)) == (m * m, 1int));
    assert(m * m != 0) by (nonlinear_arith)
        requires
            m != 0,
    ;
    assert(t1.1 * (m * m) != 0) by (nonlinear_arith)
        requires
            t1.1 > 0,
            m * m != 0,
    ;
    assert(t1.0 * q.1 == q.0 * (t1.1 * (m * m))) by (nonlinear_arith)
        requires
            c.0 * (1 * q.1) == (m * q.0) * c.1,
            t1.0 * (c.1 * 1) == (c.0 * m) * t1.1,
            c.1 > 0,
    ;
    crate::rational::lemma_normalize_value(t1.0 * 1, t1.1 * (m * m), q);
}

/// `∫c = c·x` differentiates back to `c`.
proof fn lemma_integral_const_back(c: Rational, var: Symbol, p: (int, int))
    requires
        lowest(c.pair()),
        lowest(p),
    ensures
        crate::board_exam::integrate_view(Expr::Const(c), var) matches Some(f) ==> dual_eval(f, var, p) matches Some(
            (_, s),
        ) ==> s == c.pair(),
{
    reveal_with_fuel(dual_eval, 2);
    lemma_unit_values(p);
    lemma_unit_values(c.pair());
}

/// `∫x = x²/2` differentiates back to `x`.
proof fn lemma_integral_var_back(var: Symbol, p: (int, int))
    requires
        lowest(p),
    ensures
        crate::board_exam::integrate_view(Expr::Var(var), var) matches Some(f) ==> dual_eval(f, var, p) matches Some(
            (_, s),
        ) ==> s == p,
{
    reveal_with_fuel(dual_eval, 3);
    lemma_unit_values(p);
    lemma_integer_lowest(1);
    lemma_integer_lowest(2);
    crate::rational::lemma_rat_of_pair((2, 1));
    let c2 = rmul((2, 1), p);
    crate::rational::lemma_normalize_lowest(2 * p.0, 1 * p.1);
    lemma_unit_values(c2);
    assert(rsub((2, 1), (1, 1)) == (1int, 1int));
    lemma_rpow_lowest(p, 2);
    lemma_unit_values(rpow(p, 2));
    let t2 = rmul(c2, (2, 1));
    crate::rational::lemma_normalize_lowest(c2.0 * 2, c2.1 * 1);
    lemma_unit_values(t2);
    lemma_unit_values((2, 1));
    lemma_quotient_by_square(p, 2);
    assert(rpow((2, 1), 2) == rmul((2, 1), (2, 1)));
}

/// `∫x^n = x^(n+1)/(n+1)` differentiates back to `x^n`.
proof fn lemma_integral_power_back(n: Rational, var: Symbol, p: (int, int))
    requires
        lowest(p),
    ensures
        crate::board_exam::integrate_view(
            Expr::Pow(Box::new(Expr::Var(var)), Box::new(Expr::Const(n))),
            var,
        ) matches Some(f) ==> dual_eval(f, var, p) matches Some((_, s)) ==> eval_at(
            Expr::Pow(Box::new(Expr::Var(var)), Box::new(Expr::Const(n))),
            var,
            p,
        ) matches Some(v) ==> s == v,
{
    if n.den() == 1 && n.num() >= 0 {
        let m = n.num() + 1;
        lemma_integer_lowest(1);
        lemma_integer_lowest(m);
        lemma_integer_lowest(n.num());
        assert(n.num() * 1 + 1 * n.den() == m && n.den() * 1 == 1) by (nonlinear_arith)
            requires
                n.den() == 1,
                m == n.num() + 1,
        ;
        assert(m * 1 - 1 * 1 == n.num() && 1int * 1 == 1) by (nonlinear_arith)
            requires
                m == n.num() + 1,
        ;
        assert(crate::rational::frac_add(n.pair(), (1, 1)) == (m, 1int));
        assert(radd(n.pair(), (1, 1)) == (m, 1int));
        assert(crate::rational::frac_sub((m, 1), (1, 1)) == (n.num(), 1int));
        assert(rsub((m, 1), (1, 1)) == (n.num(), 1int));
        if fits((m, 1)) {
            reveal_with_fuel(dual_eval, 3);
            crate::rational::lemma_rat_of_pair((m, 1));
            lemma_unit_values((m, 1));
            let q = rpow(p, n.num() as nat);
            lemma_rpow_lowest(p, n.num() as nat);
            let cm = rmul((m, 1), q);
            crate::rational::lemma_normalize_lowest(m * q.0, 1 * q.1);
            lemma_unit_values(cm);
            lemma_rpow_lowest(p, m as nat);
            lemma_unit_values(rpow(p, m as nat));
            let tm = rmul(cm, (m, 1));
            crate::rational::lemma_normalize_lowest(cm.0 * m, cm.1 * 1);
            lemma_unit_values(tm);
            lemma_quotient_by_square(q, m);
            assert(rpow((m, 1), 2) == rmul((m, 1), (m, 1)));
            let big_n = rat((m, 1));
            let pw = Expr::Pow(Box::new(Expr::Var(var)), Box::new(Expr::Const(big_n)));
            let f = Expr::Div(Box::new(pw), Box::new(Expr::Const(big_n)));
            assert(crate::board_exam::integrate_view(
                Expr::Pow(Box::new(Expr::Var(var)), Box::new(Expr::Const(n))),
                var,
            ) == Some(f));
            assert(eval_at(Expr::Var(var), var, p) == Some(p));
            assert(eval_at(Expr::Pow(Box::new(Expr::Var(var)), Box::new(Expr::Const(n))), var, p) matches Some(v) ==> v
                == q);
            if let Some((xm, dm)) = dual_eval(pw, var, p) {
                assert(xm == rpow(p, m as nat));
                assert(dm == cm);
                if let Some((_, s)) = dual_eval(f, var, p) {
                    assert(s == q);
                }
            }
        }
    } else {
        assert(eval_at(Expr::Pow(Box::new(Expr::Var(var)), Box::new(Expr::Const(n))), var, p) is None);
    }
}

/// The antiderivatives of the elementary integrands differentiate back to
/// them: at any point `p`, the derivative (dual-number slope) of `∫c` is
/// `c`, that of `∫x = x²/2` is `x`, and that of `∫x^n = x^(n+1)/(n+1)` is
/// `x^n`, wherever these values are defined.
pub proof fn lemma_integral_base_cases(c: Rational, n: Rational, var: Symbol, p: (int, int))
    requires
        lowest(c.pair()),
        lowest(p),
    ensures
        crate::board_exam::integrate_view(Expr::Const(c), var) matches Some(f) ==> dual_eval(f, var, p) matches Some(
            (_, s),
        ) ==> s == c.pair(),
        crate::board_exam::integrate_view(Expr::Var(var), var) matches Some(f) ==> dual_eval(f, var, p) matches Some(
            (_, s),
        ) ==> s == p,
        crate::board_exam::integrate_view(
            Expr::Pow(Box::new(Expr::Var(var)), Box::new(Expr::Const(n))),
            var,
        ) matches Some(f) ==> dual_eval(f, var, p) matches Some((_, s)) ==> eval_at(
            Expr::Pow(Box::new(Expr::Var(var)), Box::new(Expr::Const(n))),
            var,
            p,
        ) matches Some(v) ==> s == v,
{
    lemma_integral_const_back(c, var, p);
    lemma_integral_var_back(var, p);
    lemma_integral_power_back(n, var, p);
}

} // verus!
