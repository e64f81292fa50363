//! Geometry rules: conic sections and coordinate geometry.
//!
//! Each group function returns the metadata of its rules in registration
//! order; its contract fixes every field of every rule.

use vstd::prelude::*;
use crate::expr::Expr;
use crate::rewrite::Rewrite;
use crate::rule::{ids_of, names_of, rules_view, RuleMeta, Domain, Feature, Rule, RuleCategory, RuleId};

verus! {
/// Identifiers of the rules of [`parabola_rules`], in order.
pub open spec fn parabola_rules_ids() -> Seq<u32> {
    seq![5001u32, 5002u32, 5003u32, 5004u32, 5005u32]
}

/// Names of the rules of [`parabola_rules`], in order.
pub open spec fn parabola_rules_names() -> Seq<Seq<char>> {
    seq!["parabola_tangent_parametric"@, "parabola_normal_parametric"@, "parabola_focal_chord_reciprocal"@, "parabola_reflection_property"@, "parabola_chord_of_contact"@]
}

/// Metadata of the rules of [`parabola_rules`], in order.
pub open spec fn parabola_rules_meta() -> Seq<RuleMeta> {
    seq![
        (5001u32, "parabola_tangent_parametric"@, RuleCategory::Simplification, "Tangent to parabola y²=4ax at parameter t: ty = x + at²"@, seq![Domain::Geometry], seq![Feature::ConicSection], false, 3u32, Rewrite::ParabolaTangentParametric),
        (5002u32, "parabola_normal_parametric"@, RuleCategory::Simplification, "Normal to parabola y²=4ax at parameter t: y + tx = 2at + at³"@, seq![Domain::Geometry], seq![Feature::ConicSection], false, 3u32, Rewrite::ParabolaNormalParametric),
        (5003u32, "parabola_focal_chord_reciprocal"@, RuleCategory::Simplification, "Focal chord property: 1/SP + 1/SQ = 2/l (l = semi-latus rectum)"@, seq![Domain::Geometry], seq![Feature::ConicSection], true, 4u32, Rewrite::ParabolaFocalChordReciprocal),
        (5004u32, "parabola_reflection_property"@, RuleCategory::Simplification, "Parabola reflection: tangent bisects angle between focal radius and axis"@, seq![Domain::Geometry], seq![Feature::ConicSection], false, 5u32, Rewrite::Inert),
        (5005u32, "parabola_chord_of_contact"@, RuleCategory::Simplification, "Chord of contact from (x₁,y₁): yy₁ = 2a(x + x₁)"@, seq![Domain::Geometry], seq![Feature::ConicSection], true, 3u32, Rewrite::ParabolaChordOfContact),
    ]
}

/// The rules of this group, in registration order.
fn parabola_rules() -> (rules: Vec<Rule>)
    ensures
        ids_of(rules@) == parabola_rules_ids(),
        names_of(rules@) == parabola_rules_names(),
        rules_view(rules@) == parabola_rules_meta(),
{
    let mut rules: Vec<Rule> = Vec::new();
    let mut part: Vec<Rule> = vec![
        Rule {
            id: RuleId(5001),
            name: "parabola_tangent_parametric",
            category: RuleCategory::Simplification,
            description: "Tangent to parabola y²=4ax at parameter t: ty = x + at²",
            domains: vec![Domain::Geometry],
            requires: vec![Feature::ConicSection],
            reversible: false,
            cost: 3,
            rewrite: Rewrite::ParabolaTangentParametric,
        },
        Rule {
            id: RuleId(5002),
            name: "parabola_normal_parametric",
            category: RuleCategory::Simplification,
            description: "Normal to parabola y²=4ax at parameter t: y + tx = 2at + at³",
            domains: vec![Domain::Geometry],
            requires: vec![Feature::ConicSection],
            reversible: false,
            cost: 3,
            rewrite: Rewrite::ParabolaNormalParametric,
        },
        Rule {
            id: RuleId(5003),
            name: "parabola_focal_chord_reciprocal",
            category: RuleCategory::Simplification,
            description: "Focal chord property: 1/SP + 1/SQ = 2/l (l = semi-latus rectum)",
            domains: vec![Domain::Geometry],
            requires: vec![Feature::ConicSection],
            reversible: true,
            cost: 4,
            rewrite: Rewrite::ParabolaFocalChordReciprocal,
        },
        Rule {
            id: RuleId(5004),
            name: "parabola_reflection_property",
            category: RuleCategory::Simplification,
            description: "Parabola reflection: tangent bisects angle between focal radius and axis",
            domains: vec![Domain::Geometry],
            requires: vec![Feature::ConicSection],
            reversible: false,
            cost: 5,
            rewrite: Rewrite::Inert,
        },
        Rule {
            id: RuleId(5005),
            name: "parabola_chord_of_contact",
            category: RuleCategory::Simplification,
            description: "Chord of contact from (x₁,y₁): yy₁ = 2a(x + x₁)",
            domains: vec![Domain::Geometry],
            requires: vec![Feature::ConicSection],
            reversible: true,
            cost: 3,
            rewrite: Rewrite::ParabolaChordOfContact,
        },
    ];
    assert(ids_of(part@) =~= seq![5001u32, 5002u32, 5003u32, 5004u32, 5005u32]);
    assert(names_of(part@) =~= seq!["parabola_tangent_parametric"@, "parabola_normal_parametric"@, "parabola_focal_chord_reciprocal"@, "parabola_reflection_property"@, "parabola_chord_of_contact"@]);
    assert(rules_view(part@) =~~= parabola_rules_meta());
    let ghost before = rules@;
    rules.append(&mut part);
    proof {
        crate::rule::lemma_ids_names_append(before, part@);
    }
    assert(ids_of(rules@) =~= parabola_rules_ids());
    assert(names_of(rules@) =~= parabola_rules_names());
    assert(rules_view(rules@) =~= parabola_rules_meta());
    rules
}

/// Identifiers of the rules of [`ellipse_rules`], in order.
pub open spec fn ellipse_rules_ids() -> Seq<u32> {
    seq![5101u32, 5102u32, 5103u32, 5104u32, 5105u32]
}

/// Names of the rules of [`ellipse_rules`], in order.
pub open spec fn ellipse_rules_names() -> Seq<Seq<char>> {
    seq!["ellipse_tangent_parametric"@, "ellipse_eccentricity"@, "ellipse_director_circle"@, "ellipse_auxiliary_circle"@, "ellipse_focal_sum"@]
}

/// Metadata of the rules of [`ellipse_rules`], in order.
pub open spec fn ellipse_rules_meta() -> Seq<RuleMeta> {
    seq![
        (5101u32, "ellipse_tangent_parametric"@, RuleCategory::Simplification, "Tangent to ellipse at θ: (x cos θ)/a + (y sin θ)/b = 1"@, seq![Domain::Geometry], seq![Feature::ConicSection], false, 3u32, Rewrite::EllipseTangentParametric),
        (5102u32, "ellipse_eccentricity"@, RuleCategory::Simplification, "Ellipse eccentricity: e = √(1 - b²/a²)"@, seq![Domain::Geometry], seq![Feature::ConicSection], true, 2u32, Rewrite::EllipseEccentricity),
        (5103u32, "ellipse_director_circle"@, RuleCategory::Simplification, "Director circle of ellipse: x² + y² = a² + b²"@, seq![Domain::Geometry], seq![Feature::ConicSection], true, 4u32, Rewrite::EllipseDirectorCircle),
        (5104u32, "ellipse_auxiliary_circle"@, RuleCategory::Simplification, "Auxiliary circle of ellipse: x² + y² = a²"@, seq![Domain::Geometry], seq![Feature::ConicSection], false, 2u32, Rewrite::EllipseAuxiliaryCircle),
        (5105u32, "ellipse_focal_sum"@, RuleCategory::Simplification, "Sum of focal distances: SP + S'P = 2a"@, seq![Domain::Geometry], seq![Feature::ConicSection], true, 2u32, Rewrite::EllipseFocalSum),
    ]
}

/// The rules of this group, in registration order.
fn ellipse_rules() -> (rules: Vec<Rule>)
    ensures
        ids_of(rules@) == ellipse_rules_ids(),
        names_of(rules@) == ellipse_rules_names(),
        rules_view(rules@) == ellipse_rules_meta(),
{
    let mut rules: Vec<Rule> = Vec::new();
    let mut part: Vec<Rule> = vec![
        Rule {
            id: RuleId(5101),
            name: "ellipse_tangent_parametric",
            category: RuleCategory::Simplification,
            description: "Tangent to ellipse at θ: (x cos θ)/a + (y sin θ)/b = 1",
            domains: vec![Domain::Geometry],
            requires: vec![Feature::ConicSection],
            reversible: false,
            cost: 3,
            rewrite: Rewrite::EllipseTangentParametric,
        },
        Rule {
            id: RuleId(5102),
            name: "ellipse_eccentricity",
            category: RuleCategory::Simplification,
            description: "Ellipse eccentricity: e = √(1 - b²/a²)",
            domains: vec![Domain::Geometry],
            requires: vec![Feature::ConicSection],
            reversible: true,
            cost: 2,
            rewrite: Rewrite::EllipseEccentricity,
        },
        Rule {
            id: RuleId(5103),
            name: "ellipse_director_circle",
            category: RuleCategory::Simplification,
            description: "Director circle of ellipse: x² + y² = a² + b²",
            domains: vec![Domain::Geometry],
            requires: vec![Feature::ConicSection],
            reversible: true,
            cost: 4,
            rewrite: Rewrite::EllipseDirectorCircle,
        },
        Rule {
            id: RuleId(5104),
            name: "ellipse_auxiliary_circle",
            category: RuleCategory::Simplification,
            description: "Auxiliary circle of ellipse: x² + y² = a²",
            domains: vec![Domain::Geometry],
            requires: vec![Feature::ConicSection],
            reversible: false,
            cost: 2,
            rewrite: Rewrite::EllipseAuxiliaryCircle,
        },
        Rule {
            id: RuleId(5105),
            name: "ellipse_focal_sum",
            category: RuleCategory::Simplification,
            description: "Sum of focal distances: SP + S'P = 2a",
            domains: vec![Domain::Geometry],
            requires: vec![Feature::ConicSection],
            reversible: true,
            cost: 2,
            rewrite: Rewrite::EllipseFocalSum,
        },
    ];
    assert(ids_of(part@) =~= seq![5101u32, 5102u32, 5103u32, 5104u32, 5105u32]);
    assert(names_of(part@) =~= seq!["ellipse_tangent_parametric"@, "ellipse_eccentricity"@, "ellipse_director_circle"@, "ellipse_auxiliary_circle"@, "ellipse_focal_sum"@]);
    assert(rules_view(part@) =~~= ellipse_rules_meta());
    let ghost before = rules@;
    rules.append(&mut part);
    proof {
        crate::rule::lemma_ids_names_append(before, part@);
    }
    assert(ids_of(rules@) =~= ellipse_rules_ids());
    assert(names_of(rules@) =~= ellipse_rules_names());
    assert(rules_view(rules@) =~= ellipse_rules_meta());
    rules
}

/// Identifiers of the rules of [`hyperbola_rules`], in order.
pub open spec fn hyperbola_rules_ids() -> Seq<u32> {
    seq![5201u32, 5202u32, 5203u32, 5204u32, 5205u32]
}

/// Names of the rules of [`hyperbola_rules`], in order.
pub open spec fn hyperbola_rules_names() -> Seq<Seq<char>> {
    seq!["hyperbola_asymptotes"@, "hyperbola_eccentricity"@, "hyperbola_rectangular"@, "hyperbola_focal_difference"@, "hyperbola_conjugate"@]
}

/// Metadata of the rules of [`hyperbola_rules`], in order.
pub open spec fn hyperbola_rules_meta() -> Seq<RuleMeta> {
    seq![
        (5201u32, "hyperbola_asymptotes"@, RuleCategory::Simplification, "Asymptotes of hyperbola: y = ±(b/a)x"@, seq![Domain::Geometry], seq![Feature::ConicSection], true, 2u32, Rewrite::HyperbolaAsymptotes),
        (5202u32, "hyperbola_eccentricity"@, RuleCategory::Simplification, "Hyperbola eccentricity: e = √(1 + b²/a²)"@, seq![Domain::Geometry], seq![Feature::ConicSection], true, 2u32, Rewrite::HyperbolaEccentricity),
        (5203u32, "hyperbola_rectangular"@, RuleCategory::Simplification, "Rectangular hyperbola (a=b): xy = c²"@, seq![Domain::Geometry], seq![Feature::ConicSection], true, 3u32, Rewrite::HyperbolaRectangular),
        (5204u32, "hyperbola_focal_difference"@, RuleCategory::Simplification, "Difference of focal distances: |SP - S'P| = 2a"@, seq![Domain::Geometry], seq![Feature::ConicSection], true, 2u32, Rewrite::HyperbolaFocalDifference),
        (5205u32, "hyperbola_conjugate"@, RuleCategory::Simplification, "Conjugate hyperbola: x²/a² - y²/b² = -1"@, seq![Domain::Geometry], seq![Feature::ConicSection], true, 2u32, Rewrite::HyperbolaConjugate),
    ]
}

/// The rules of this group, in registration order.
fn hyperbola_rules() -> (rules: Vec<Rule>)
    ensures
        ids_of(rules@) == hyperbola_rules_ids(),
        names_of(rules@) == hyperbola_rules_names(),
        rules_view(rules@) == hyperbola_rules_meta(),
{
    let mut rules: Vec<Rule> = Vec::new();
    let mut part: Vec<Rule> = vec![
        Rule {
            id: RuleId(5201),
            name: "hyperbola_asymptotes",
            category: RuleCategory::Simplification,
            description: "Asymptotes of hyperbola: y = ±(b/a)x",
            domains: vec![Domain::Geometry],
            requires: vec![Feature::ConicSection],
            reversible: true,
            cost: 2,
            rewrite: Rewrite::HyperbolaAsymptotes,
        },
        Rule {
            id: RuleId(5202),
            name: "hyperbola_eccentricity",
            category: RuleCategory::Simplification,
            description: "Hyperbola eccentricity: e = √(1 + b²/a²)",
            domains: vec![Domain::Geometry],
            requires: vec![Feature::ConicSection],
            reversible: true,
            cost: 2,
            rewrite: Rewrite::HyperbolaEccentricity,
        },
        Rule {
            id: RuleId(5203),
            name: "hyperbola_rectangular",
            category: RuleCategory::Simplification,
            description: "Rectangular hyperbola (a=b): xy = c²",
            domains: vec![Domain::Geometry],
            requires: vec![Feature::ConicSection],
            reversible: true,
            cost: 3,
            rewrite: Rewrite::HyperbolaRectangular,
        },
        Rule {
            id: RuleId(5204),
            name: "hyperbola_focal_difference",
            category: RuleCategory::Simplification,
            description: "Difference of focal distances: |SP - S'P| = 2a",
            domains: vec![Domain::Geometry],
            requires: vec![Feature::ConicSection],
            reversible: true,
            cost: 2,
            rewrite: Rewrite::HyperbolaFocalDifference,
        },
        Rule {
            id: RuleId(5205),
            name: "hyperbola_conjugate",
            category: RuleCategory::Simplification,
            description: "Conjugate hyperbola: x²/a² - y²/b² = -1",
            domains: vec![Domain::Geometry],
            requires: vec![Feature::ConicSection],
            reversible: true,
            cost: 2,
            rewrite: Rewrite::HyperbolaConjugate,
        },
    ];
    assert(ids_of(part@) =~= seq![5201u32, 5202u32, 5203u32, 5204u32, 5205u32]);
    assert(names_of(part@) =~= seq!["hyperbola_asymptotes"@, "hyperbola_eccentricity"@, "hyperbola_rectangular"@, "hyperbola_focal_difference"@, "hyperbola_conjugate"@]);
    assert(rules_view(part@) =~~= hyperbola_rules_meta());
    let ghost before = rules@;
    rules.append(&mut part);
    proof {
        crate::rule::lemma_ids_names_append(before, part@);
    }
    assert(ids_of(rules@) =~= hyperbola_rules_ids());
    assert(names_of(rules@) =~= hyperbola_rules_names());
    assert(rules_view(rules@) =~= hyperbola_rules_meta());
    rules
}

/// Identifiers of the rules of [`circle_rules`], in order.
pub open spec fn circle_rules_ids() -> Seq<u32> {
    seq![5301u32, 5302u32, 5303u32, 5304u32, 5305u32]
}

/// Names of the rules of [`circle_rules`], in order.
pub open spec fn circle_rules_names() -> Seq<Seq<char>> {
    seq!["circle_tangent_at_point"@, "circle_power_of_point"@, "circle_radical_axis"@, "circle_orthogonal_condition"@, "circle_tangent_length"@]
}

/// Metadata of the rules of [`circle_rules`], in order.
pub open spec fn circle_rules_meta() -> Seq<RuleMeta> {
    seq![
        (5301u32, "circle_tangent_at_point"@, RuleCategory::Simplification, "Tangent to circle at (x₁,y₁): xx₁ + yy₁ = r²"@, seq![Domain::Geometry], seq![Feature::ConicSection], false, 2u32, Rewrite::CircleTangentAtPoint),
        (5302u32, "circle_power_of_point"@, RuleCategory::Simplification, "Power of point: PA · PB = d² - r²"@, seq![Domain::Geometry], seq![Feature::ConicSection], true, 3u32, Rewrite::CirclePowerOfPoint),
        (5303u32, "circle_radical_axis"@, RuleCategory::Simplification, "Radical axis: S₁ - S₂ = 0"@, seq![Domain::Geometry], seq![Feature::ConicSection], true, 4u32, Rewrite::Inert),
        (5304u32, "circle_orthogonal_condition"@, RuleCategory::Simplification, "Orthogonal circles: 2g₁g₂ + 2f₁f₂ = c₁ + c₂"@, seq![Domain::Geometry], seq![Feature::ConicSection], true, 4u32, Rewrite::Inert),
        (5305u32, "circle_tangent_length"@, RuleCategory::Simplification, "Tangent length from (x₁,y₁): √(x₁² + y₁² - r²)"@, seq![Domain::Geometry], seq![Feature::ConicSection], true, 2u32, Rewrite::CircleTangentLength),
    ]
}

/// The rules of this group, in registration order.
fn circle_rules() -> (rules: Vec<Rule>)
    ensures
        ids_of(rules@) == circle_rules_ids(),
        names_of(rules@) == circle_rules_names(),
        rules_view(rules@) == circle_rules_meta(),
{
    let mut rules: Vec<Rule> = Vec::new();
    let mut part: Vec<Rule> = vec![
        Rule {
            id: RuleId(5301),
            name: "circle_tangent_at_point",
            category: RuleCategory::Simplification,
            description: "Tangent to circle at (x₁,y₁): xx₁ + yy₁ = r²",
            domains: vec![Domain::Geometry],
            requires: vec![Feature::ConicSection],
            reversible: false,
            cost: 2,
            rewrite: Rewrite::CircleTangentAtPoint,
        },
        Rule {
            id: RuleId(5302),
            name: "circle_power_of_point",
            category: RuleCategory::Simplification,
            description: "Power of point: PA · PB = d² - r²",
            domains: vec![Domain::Geometry],
            requires: vec![Feature::ConicSection],
            reversible: true,
            cost: 3,
            rewrite: Rewrite::CirclePowerOfPoint,
        },
        Rule {
            id: RuleId(5303),
            name: "circle_radical_axis",
            category: RuleCategory::Simplification,
            description: "Radical axis: S₁ - S₂ = 0",
            domains: vec![Domain::Geometry],
            requires: vec![Feature::ConicSection],
            reversible: true,
            cost: 4,
            rewrite: Rewrite::Inert,
        },
        Rule {
            id: RuleId(5304),
            name: "circle_orthogonal_condition",
            category: RuleCategory::Simplification,
            description: "Orthogonal circles: 2g₁g₂ + 2f₁f₂ = c₁ + c₂",
            domains: vec![Domain::Geometry],
            requires: vec![Feature::ConicSection],
            reversible: true,
            cost: 4,
            rewrite: Rewrite::Inert,
        },
        Rule {
            id: RuleId(5305),
            name: "circle_tangent_length",
            category: RuleCategory::Simplification,
            description: "Tangent length from (x₁,y₁): √(x₁² + y₁² - r²)",
            domains: vec![Domain::Geometry],
            requires: vec![Feature::ConicSection],
            reversible: true,
            cost: 2,
            rewrite: Rewrite::CircleTangentLength,
        },
    ];
    assert(ids_of(part@) =~= seq![5301u32, 5302u32, 5303u32, 5304u32, 5305u32]);
    assert(names_of(part@) =~= seq!["circle_tangent_at_point"@, "circle_power_of_point"@, "circle_radical_axis"@, "circle_orthogonal_condition"@, "circle_tangent_length"@]);
    assert(rules_view(part@) =~~= circle_rules_meta());
    let ghost before = rules@;
    rules.append(&mut part);
    proof {
        crate::rule::lemma_ids_names_append(before, part@);
    }
    assert(ids_of(rules@) =~= circle_rules_ids());
    assert(names_of(rules@) =~= circle_rules_names());
    assert(rules_view(rules@) =~= circle_rules_meta());
    rules
}

/// Identifiers of the rules of [`coordinate_rules`], in order.
pub open spec fn coordinate_rules_ids() -> Seq<u32> {
    seq![5401u32, 5402u32, 5403u32, 5404u32, 5405u32]
}

/// Names of the rules of [`coordinate_rules`], in order.
pub open spec fn coordinate_rules_names() -> Seq<Seq<char>> {
    seq!["distance_formula"@, "section_formula_internal"@, "triangle_area_coordinates"@, "collinearity_condition"@, "triangle_centroid"@]
}

/// Metadata of the rules of [`coordinate_rules`], in order.
pub open spec fn coordinate_rules_meta() -> Seq<RuleMeta> {
    seq![
        (5401u32, "distance_formula"@, RuleCategory::Simplification, "Distance: d = √((x₂-x₁)² + (y₂-y₁)²)"@, seq![Domain::Geometry], Seq::<Feature>::empty(), true, 1u32, Rewrite::DistanceFormula),
        (5402u32, "section_formula_internal"@, RuleCategory::Simplification, "Internal division m:n: ((mx₂+nx₁)/(m+n), (my₂+ny₁)/(m+n))"@, seq![Domain::Geometry], Seq::<Feature>::empty(), true, 2u32, Rewrite::SectionFormulaInternal),
        (5403u32, "triangle_area_coordinates"@, RuleCategory::Simplification, "Triangle area: ½|x₁(y₂-y₃) + x₂(y₃-y₁) + x₃(y₁-y₂)|"@, seq![Domain::Geometry], Seq::<Feature>::empty(), false, 3u32, Rewrite::TriangleAreaCoordinates),
        (5404u32, "collinearity_condition"@, RuleCategory::Simplification, "Collinear if area = 0: x₁(y₂-y₃) + x₂(y₃-y₁) + x₃(y₁-y₂) = 0"@, seq![Domain::Geometry], Seq::<Feature>::empty(), true, 2u32, Rewrite::CollinearityCondition),
        (5405u32, "triangle_centroid"@, RuleCategory::Simplification, "Centroid: ((x₁+x₂+x₃)/3, (y₁+y₂+y₃)/3)"@, seq![Domain::Geometry], Seq::<Feature>::empty(), true, 1u32, Rewrite::TriangleCentroid),
    ]
}

/// The rules of this group, in registration order.
fn coordinate_rules() -> (rules: Vec<Rule>)
    ensures
        ids_of(rules@) == coordinate_rules_ids(),
        names_of(rules@) == coordinate_rules_names(),
        rules_view(rules@) == coordinate_rules_meta(),
{
    let mut rules: Vec<Rule> = Vec::new();
    let mut part: Vec<Rule> = vec![
        Rule {
            id: RuleId(5401),
            name: "distance_formula",
            category: RuleCategory::Simplification,
            description: "Distance: d = √((x₂-x₁)² + (y₂-y₁)²)",
            domains: vec![Domain::Geometry],
            requires: Vec::new(),
            reversible: true,
            cost: 1,
            rewrite: Rewrite::DistanceFormula,
        },
        Rule {
            id: RuleId(5402),
            name: "section_formula_internal",
            category: RuleCategory::Simplification,
            description: "Internal division m:n: ((mx₂+nx₁)/(m+n), (my₂+ny₁)/(m+n))",
            domains: vec![Domain::Geometry],
            requires: Vec::new(),
            reversible: true,
            cost: 2,
            rewrite: Rewrite::SectionFormulaInternal,
        },
        Rule {
            id: RuleId(5403),
            name: "triangle_area_coordinates",
            category: RuleCategory::Simplification,
            description: "Triangle area: ½|x₁(y₂-y₃) + x₂(y₃-y₁) + x₃(y₁-y₂)|",
            domains: vec![Domain::Geometry],
            requires: Vec::new(),
            reversible: false,
            cost: 3,
            rewrite: Rewrite::TriangleAreaCoordinates,
        },
        Rule {
            id: RuleId(5404),
            name: "collinearity_condition",
            category: RuleCategory::Simplification,
            description: "Collinear if area = 0: x₁(y₂-y₃) + x₂(y₃-y₁) + x₃(y₁-y₂) = 0",
            domains: vec![Domain::Geometry],
            requires: Vec::new(),
            reversible: true,
            cost: 2,
            rewrite: Rewrite::CollinearityCondition,
        },
        Rule {
            id: RuleId(5405),
            name: "triangle_centroid",
            category: RuleCategory::Simplification,
            description: "Centroid: ((x₁+x₂+x₃)/3, (y₁+y₂+y₃)/3)",
            domains: vec![Domain::Geometry],
            requires: Vec::new(),
            reversible: true,
            cost: 1,
            rewrite: Rewrite::TriangleCentroid,
        },
    ];
    assert(ids_of(part@) =~= seq![5401u32, 5402u32, 5403u32, 5404u32, 5405u32]);
    assert(names_of(part@) =~= seq!["distance_formula"@, "section_formula_internal"@, "triangle_area_coordinates"@, "collinearity_condition"@, "triangle_centroid"@]);
    assert(rules_view(part@) =~~= coordinate_rules_meta());
    let ghost before = rules@;
    rules.append(&mut part);
    proof {
        crate::rule::lemma_ids_names_append(before, part@);
    }
    assert(ids_of(rules@) =~= coordinate_rules_ids());
    assert(names_of(rules@) =~= coordinate_rules_names());
    assert(rules_view(rules@) =~= coordinate_rules_meta());
    rules
}

/// Identifiers of the rules of [`geometry_rules`], in order.
pub open spec fn geometry_rules_ids() -> Seq<u32> {
    parabola_rules_ids() + ellipse_rules_ids() + hyperbola_rules_ids() + circle_rules_ids() + coordinate_rules_ids()
}

/// Names of the rules of [`geometry_rules`], in order.
pub open spec fn geometry_rules_names() -> Seq<Seq<char>> {
    parabola_rules_names() + ellipse_rules_names() + hyperbola_rules_names() + circle_rules_names() + coordinate_rules_names()
}

/// Metadata of the rules of [`geometry_rules`], in order.
pub open spec fn geometry_rules_meta() -> Seq<RuleMeta> {
    parabola_rules_meta() + ellipse_rules_meta() + hyperbola_rules_meta() + circle_rules_meta() + coordinate_rules_meta()
}

/// The rules of this group, in registration order.
pub fn geometry_rules() -> (rules: Vec<Rule>)
    ensures
        ids_of(rules@) == geometry_rules_ids(),
        names_of(rules@) == geometry_rules_names(),
        rules_view(rules@) == geometry_rules_meta(),
{
    let mut rules: Vec<Rule> = Vec::new();
    let mut part = parabola_rules();
    let ghost before = rules@;
    rules.append(&mut part);
    proof {
        crate::rule::lemma_ids_names_append(before, part@);
    }
    let mut part = ellipse_rules();
    let ghost before = rules@;
    rules.append(&mut part);
    proof {
        crate::rule::lemma_ids_names_append(before, part@);
    }
    let mut part = hyperbola_rules();
    let ghost before = rules@;
    rules.append(&mut part);
    proof {
        crate::rule::lemma_ids_names_append(before, part@);
    }
    let mut part = circle_rules();
    let ghost before = rules@;
    rules.append(&mut part);
    proof {
        crate::rule::lemma_ids_names_append(before, part@);
    }
    let mut part = coordinate_rules();
    let ghost before = rules@;
    rules.append(&mut part);
    proof {
        crate::rule::lemma_ids_names_append(before, part@);
    }
    assert(ids_of(rules@) =~= geometry_rules_ids());
    assert(names_of(rules@) =~= geometry_rules_names());
    assert(rules_view(rules@) =~= geometry_rules_meta());
    rules
}


/// Whether every result of rewrite `r` on `e` is `e` itself.
pub open spec fn keeps_input(r: Rewrite, e: Expr) -> bool {
    forall|k: int| 0 <= k < crate::rewrite::results(r, e).len() ==> (#[trigger] crate::rewrite::results(r, e)[k]).0 == e
}

/// Every geometry rule but the distance formula only annotates: it gives no
/// result, or one result that is the expression itself unchanged, with a
/// justification.
pub proof fn lemma_geometry_rules_annotate(i: int, e: Expr)
    requires
        0 <= i < geometry_rules_meta().len(),
        geometry_rules_meta()[i].1 != "distance_formula"@,
    ensures
        keeps_input(geometry_rules_meta()[i].8, e),
        crate::rewrite::results(geometry_rules_meta()[i].8, e).len() <= 1,
{
    let m = geometry_rules_meta();
    assert(m.len() == 25);
    assert(m[20].1 == "distance_formula"@);
    if i == 0 {
        assert(m[0].8 == Rewrite::ParabolaTangentParametric);
        assert(keeps_input(Rewrite::ParabolaTangentParametric, e));
        assert(crate::rewrite::results(Rewrite::ParabolaTangentParametric, e).len() <= 1);
    } else if i == 1 {
        assert(m[1].8 == Rewrite::ParabolaNormalParametric);
        assert(keeps_input(Rewrite::ParabolaNormalParametric, e));
        assert(crate::rewrite::results(Rewrite::ParabolaNormalParametric, e).len() <= 1);
    } else if i == 2 {
        assert(m[2].8 == Rewrite::ParabolaFocalChordReciprocal);
        assert(keeps_input(Rewrite::ParabolaFocalChordReciprocal, e));
        assert(crate::rewrite::results(Rewrite::ParabolaFocalChordReciprocal, e).len() <= 1);
    } else if i == 3 {
        assert(m[3].8 == Rewrite::Inert);
        assert(keeps_input(Rewrite::Inert, e));
        assert(crate::rewrite::results(Rewrite::Inert, e).len() <= 1);
    } else if i == 4 {
        assert(m[4].8 == Rewrite::ParabolaChordOfContact);
        assert(keeps_input(Rewrite::ParabolaChordOfContact, e));
        assert(crate::rewrite::results(Rewrite::ParabolaChordOfContact, e).len() <= 1);
    } else if i == 5 {
        assert(m[5].8 == Rewrite::EllipseTangentParametric);
        assert(keeps_input(Rewrite::EllipseTangentParametric, e));
        assert(crate::rewrite::results(Rewrite::EllipseTangentParametric, e).len() <= 1);
    } else if i == 6 {
        assert(m[6].8 == Rewrite::EllipseEccentricity);
        assert(keeps_input(Rewrite::EllipseEccentricity, e));
        assert(crate::rewrite::results(Rewrite::EllipseEccentricity, e).len() <= 1);
    } else if i == 7 {
        assert(m[7].8 == Rewrite::EllipseDirectorCircle);
        assert(keeps_input(Rewrite::EllipseDirectorCircle, e));
        assert(crate::rewrite::results(Rewrite::EllipseDirectorCircle, e).len() <= 1);
    } else if i == 8 {
        assert(m[8].8 == Rewrite::EllipseAuxiliaryCircle);
        assert(keeps_input(Rewrite::EllipseAuxiliaryCircle, e));
        assert(crate::rewrite::results(Rewrite::EllipseAuxiliaryCircle, e).len() <= 1);
    } else if i == 9 {
        assert(m[9].8 == Rewrite::EllipseFocalSum);
        assert(keeps_input(Rewrite::EllipseFocalSum, e));
        assert(crate::rewrite::results(Rewrite::EllipseFocalSum, e).len() <= 1);
    } else if i == 10 {
        assert(m[10].8 == Rewrite::HyperbolaAsymptotes);
        assert(keeps_input(Rewrite::HyperbolaAsymptotes, e));
        assert(crate::rewrite::results(Rewrite::HyperbolaAsymptotes, e).len() <= 1);
    } else if i == 11 {
        assert(m[11].8 == Rewrite::HyperbolaEccentricity);
        assert(keeps_input(Rewrite::HyperbolaEccentricity, e));
        assert(crate::rewrite::results(Rewrite::HyperbolaEccentricity, e).len() <= 1);
    } else if i == 12 {
        assert(m[12].8 == Rewrite::HyperbolaRectangular);
        assert(keeps_input(Rewrite::HyperbolaRectangular, e));
        assert(crate::rewrite::results(Rewrite::HyperbolaRectangular, e).len() <= 1);
    } else if i == 13 {
        assert(m[13].8 == Rewrite::HyperbolaFocalDifference);
        assert(keeps_input(Rewrite::HyperbolaFocalDifference, e));
        assert(crate::rewrite::results(Rewrite::HyperbolaFocalDifference, e).len() <= 1);
    } else if i == 14 {
        assert(m[14].8 == Rewrite::HyperbolaConjugate);
        assert(keeps_input(Rewrite::HyperbolaConjugate, e));
        assert(crate::rewrite::results(Rewrite::HyperbolaConjugate, e).len() <= 1);
    } else if i == 15 {
        assert(m[15].8 == Rewrite::CircleTangentAtPoint);
        assert(keeps_input(Rewrite::CircleTangentAtPoint, e));
        assert(crate::rewrite::results(Rewrite::CircleTangentAtPoint, e).len() <= 1);
    } else if i == 16 {
        assert(m[16].8 == Rewrite::CirclePowerOfPoint);
        assert(keeps_input(Rewrite::CirclePowerOfPoint, e));
        assert(crate::rewrite::results(Rewrite::CirclePowerOfPoint, e).len() <= 1);
    } else if i == 17 {
        assert(m[17].8 == Rewrite::Inert);
        assert(keeps_input(Rewrite::Inert, e));
        assert(crate::rewrite::results(Rewrite::Inert, e).len() <= 1);
    } else if i == 18 {
        assert(m[18].8 == Rewrite::Inert);
        assert(keeps_input(Rewrite::Inert, e));
        assert(crate::rewrite::results(Rewrite::Inert, e).len() <= 1);
    } else if i == 19 {
        assert(m[19].8 == Rewrite::CircleTangentLength);
        assert(keeps_input(Rewrite::CircleTangentLength, e));
        assert(crate::rewrite::results(Rewrite::CircleTangentLength, e).len() <= 1);
    } else if i == 21 {
        assert(m[21].8 == Rewrite::SectionFormulaInternal);
        assert(keeps_input(Rewrite::SectionFormulaInternal, e));
        assert(crate::rewrite::results(Rewrite::SectionFormulaInternal, e).len() <= 1);
    } else if i == 22 {
        assert(m[22].8 == Rewrite::TriangleAreaCoordinates);
        assert(keeps_input(Rewrite::TriangleAreaCoordinates, e));
        assert(crate::rewrite::results(Rewrite::TriangleAreaCoordinates, e).len() <= 1);
    } else if i == 23 {
        assert(m[23].8 == Rewrite::CollinearityCondition);
        assert(keeps_input(Rewrite::CollinearityCondition, e));
        assert(crate::rewrite::results(Rewrite::CollinearityCondition, e).len() <= 1);
    } else if i == 24 {
        assert(m[24].8 == Rewrite::TriangleCentroid);
        assert(keeps_input(Rewrite::TriangleCentroid, e));
        assert(crate::rewrite::results(Rewrite::TriangleCentroid, e).len() <= 1);
    }
}

} // verus!
