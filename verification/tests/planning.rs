use collider_render::palette::{ground_color, palette_color, Rgb};
use collider_render::plan::{
    choose_paint, default_color, plan_render, plan_renders, ColliderFacts, Paint, RenderInput,
    RenderPlan, UnsupportedShape,
};
use collider_render::shape::{Dimension, MeshKind, ScaleAxis, ScaleRule, ShapeKind};

type Tint = (f32, f32, f32);

fn fixed(kind: ShapeKind) -> RenderInput<Tint> {
    RenderInput { found: Some(ColliderFacts { is_static: true, kind }), custom: None }
}

fn moving(kind: ShapeKind) -> RenderInput<Tint> {
    RenderInput { found: Some(ColliderFacts { is_static: false, kind }), custom: None }
}

fn missing() -> RenderInput<Tint> {
    RenderInput { found: None, custom: None }
}

fn tinted(input: RenderInput<Tint>, tint: Tint) -> RenderInput<Tint> {
    RenderInput { found: input.found, custom: Some(tint) }
}

fn paints(plans: &[Option<RenderPlan<Tint>>]) -> Vec<Option<Paint<Tint>>> {
    plans.iter().map(|plan| plan.map(|p| p.paint)).collect()
}

const GROUND: Rgb = Rgb { r: 0xF3, g: 0xD9, b: 0xB1 };
const FIRST: Rgb = Rgb { r: 0x98, g: 0xC1, b: 0xD9 };
const SECOND: Rgb = Rgb { r: 0x05, g: 0x3C, b: 0x5E };
const THIRD: Rgb = Rgb { r: 0x1F, g: 0x7A, b: 0x8C };

#[test]
fn default_color_of_static_body_is_ground() {
    for moving in [0usize, 1, 2, 3, 100] {
        assert_eq!(default_color(true, moving), GROUND);
    }
}

#[test]
fn default_color_of_moving_body_follows_the_count() {
    assert_eq!(default_color(false, 1), SECOND);
    assert_eq!(default_color(false, 2), THIRD);
    assert_eq!(default_color(false, 3), FIRST);
    assert_eq!(default_color(false, 4), SECOND);
}

#[test]
fn custom_colour_replaces_the_fallback() {
    assert_eq!(choose_paint(Some((0.1f32, 0.2f32, 0.3f32)), GROUND), Paint::Custom((0.1, 0.2, 0.3)));
    assert_eq!(choose_paint::<Tint>(None, GROUND), Paint::Fixed(GROUND));
}

#[test]
fn single_plan_has_paint_mesh_and_scale() {
    let facts = ColliderFacts { is_static: false, kind: ShapeKind::Ball };
    let plan = plan_render::<Tint>(Dimension::Three, facts, None, 2);
    assert_eq!(
        plan,
        RenderPlan {
            paint: Paint::Fixed(THIRD),
            mesh: MeshKind::Icosphere { subdivisions: 2, radius: 1 },
            scale: ScaleRule { x: ScaleAxis::Radius, y: ScaleAxis::Radius, z: ScaleAxis::Radius },
        }
    );
}

#[test]
fn empty_input_gives_empty_plans() {
    let outcome = plan_renders::<Tint>(Dimension::Two, &Vec::new());
    assert_eq!(outcome, Ok(Vec::new()));
}

#[test]
fn static_bodies_are_painted_ground() {
    let inputs = vec![
        moving(ShapeKind::Ball),
        fixed(ShapeKind::Cuboid),
        moving(ShapeKind::Cuboid),
        fixed(ShapeKind::Ball),
        fixed(ShapeKind::Trimesh),
    ];
    let plans = plan_renders(Dimension::Two, &inputs).unwrap();
    for at in [1usize, 3, 4] {
        assert_eq!(plans[at].unwrap().paint, Paint::Fixed(ground_color()));
    }
}

#[test]
fn first_moving_body_takes_the_second_palette_entry() {
    let plans = plan_renders(Dimension::Three, &vec![moving(ShapeKind::Cuboid)]).unwrap();
    assert_eq!(
        plans,
        vec![Some(RenderPlan {
            paint: Paint::Fixed(SECOND),
            mesh: MeshKind::Cube { size: 1 },
            scale: ScaleRule {
                x: ScaleAxis::HalfExtentX,
                y: ScaleAxis::HalfExtentY,
                z: ScaleAxis::HalfExtentZ
            },
        })]
    );
}

#[test]
fn palette_cycles_with_moving_bodies() {
    let inputs: Vec<RenderInput<Tint>> = (0..7).map(|_| moving(ShapeKind::Ball)).collect();
    let plans = plan_renders(Dimension::Two, &inputs).unwrap();
    let expected = [SECOND, THIRD, FIRST, SECOND, THIRD, FIRST, SECOND];
    assert_eq!(
        paints(&plans),
        expected.iter().map(|c| Some(Paint::Fixed(*c))).collect::<Vec<_>>()
    );
    for (at, plan) in plans.iter().enumerate() {
        assert_eq!(plan.unwrap().paint, Paint::Fixed(palette_color(at + 1)));
    }
}

#[test]
fn static_and_missing_inputs_do_not_advance_the_palette() {
    let inputs = vec![
        fixed(ShapeKind::Cuboid),
        moving(ShapeKind::Ball),
        missing(),
        fixed(ShapeKind::Ball),
        moving(ShapeKind::Cuboid),
        missing(),
        moving(ShapeKind::Trimesh),
    ];
    let plans = plan_renders(Dimension::Two, &inputs).unwrap();
    assert_eq!(
        paints(&plans),
        vec![
            Some(Paint::Fixed(GROUND)),
            Some(Paint::Fixed(SECOND)),
            None,
            Some(Paint::Fixed(GROUND)),
            Some(Paint::Fixed(THIRD)),
            None,
            Some(Paint::Fixed(FIRST)),
        ]
    );
}

#[test]
fn custom_colour_wins_and_still_advances_the_palette() {
    let red = (1.0f32, 0.0f32, 0.0f32);
    let blue = (0.0f32, 0.0f32, 1.0f32);
    let inputs = vec![
        tinted(moving(ShapeKind::Ball), red),
        tinted(fixed(ShapeKind::Cuboid), blue),
        moving(ShapeKind::Ball),
    ];
    let plans = plan_renders(Dimension::Three, &inputs).unwrap();
    assert_eq!(
        paints(&plans),
        vec![Some(Paint::Custom(red)), Some(Paint::Custom(blue)), Some(Paint::Fixed(THIRD))]
    );
}

#[test]
fn colours_asked_for_leave_the_other_paints_alone() {
    let plain = vec![moving(ShapeKind::Ball), fixed(ShapeKind::Ball), moving(ShapeKind::Cuboid)];
    let mut mixed = plain.clone();
    mixed[0] = tinted(mixed[0], (0.5, 0.5, 0.5));
    let a = plan_renders(Dimension::Two, &plain).unwrap();
    let b = plan_renders(Dimension::Two, &mixed).unwrap();
    assert_eq!(a[1], b[1]);
    assert_eq!(a[2], b[2]);
    assert_eq!(b[0].unwrap().paint, Paint::Custom((0.5, 0.5, 0.5)));
}

#[test]
fn missing_input_with_custom_colour_gets_no_plan() {
    let inputs = vec![tinted(missing(), (0.3, 0.3, 0.3))];
    assert_eq!(plan_renders(Dimension::Two, &inputs), Ok(vec![None]));
}

#[test]
fn mesh_and_scale_follow_the_shape() {
    let inputs =
        vec![fixed(ShapeKind::Cuboid), fixed(ShapeKind::Ball), fixed(ShapeKind::Trimesh)];
    let plans = plan_renders(Dimension::Two, &inputs).unwrap();
    let one = ScaleAxis::One;
    assert_eq!(plans[0].unwrap().mesh, MeshKind::Quad { width: 2, height: 2, flip: false });
    assert_eq!(
        plans[0].unwrap().scale,
        ScaleRule { x: ScaleAxis::HalfExtentX, y: ScaleAxis::HalfExtentY, z: one }
    );
    assert_eq!(plans[1].unwrap().mesh, MeshKind::Icosphere { subdivisions: 2, radius: 1 });
    assert_eq!(plans[2].unwrap().mesh, MeshKind::Triangles);
    assert_eq!(plans[2].unwrap().scale, ScaleRule { x: one, y: one, z: one });
}

#[test]
fn first_unsupported_shape_is_reported() {
    let inputs = vec![
        moving(ShapeKind::Ball),
        missing(),
        fixed(ShapeKind::Capsule),
        moving(ShapeKind::HeightField),
    ];
    assert_eq!(
        plan_renders(Dimension::Two, &inputs),
        Err(UnsupportedShape { position: 2, kind: ShapeKind::Capsule })
    );
}

#[test]
fn trimesh_is_unsupported_in_space() {
    let inputs = vec![fixed(ShapeKind::Cuboid), tinted(moving(ShapeKind::Trimesh), (0.0, 0.0, 0.0))];
    assert_eq!(
        plan_renders(Dimension::Three, &inputs),
        Err(UnsupportedShape { position: 1, kind: ShapeKind::Trimesh })
    );
    assert!(plan_renders(Dimension::Two, &inputs).is_ok());
}

#[test]
fn every_other_kind_is_refused() {
    let refused = [
        ShapeKind::Polygon,
        ShapeKind::Capsule,
        ShapeKind::Segment,
        ShapeKind::Triangle,
        ShapeKind::HeightField,
        ShapeKind::Cylinder,
        ShapeKind::Cone,
        ShapeKind::RoundCylinder,
    ];
    for dim in [Dimension::Two, Dimension::Three] {
        for kind in refused {
            assert_eq!(
                plan_renders(dim, &vec![moving(kind)]),
                Err(UnsupportedShape { position: 0, kind })
            );
        }
    }
}

#[test]
fn planning_twice_gives_the_same_outcome() {
    let inputs = vec![
        moving(ShapeKind::Cuboid),
        fixed(ShapeKind::Ball),
        tinted(moving(ShapeKind::Ball), (0.9, 0.8, 0.7)),
        missing(),
    ];
    assert_eq!(plan_renders(Dimension::Three, &inputs), plan_renders(Dimension::Three, &inputs));
    let bad = vec![moving(ShapeKind::Cone)];
    assert_eq!(plan_renders(Dimension::Three, &bad), plan_renders(Dimension::Three, &bad));
}
