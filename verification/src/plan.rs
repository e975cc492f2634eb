//! From what is known of each collider to what is drawn for it.

use vstd::prelude::*;
use crate::palette::{ground_color, ground_rgb, palette_color, palette_rgb, Rgb};
use crate::shape::{
    is_supported, mesh_for, mesh_of, scale_for, scale_of, supported, Dimension, MeshKind,
    ScaleRule, ShapeKind,
};

verus! {

/// What drawing needs to know of a collider and of the body it is attached to.
#[derive(Clone, Copy, Debug, PartialEq, Eq, Structural)]
pub struct ColliderFacts {
    /// Whether the parent body is static.
    pub is_static: bool,
    /// The kind of the collider's shape.
    pub kind: ShapeKind,
}

/// One entity that holds a collider handle and has no mesh yet.
#[derive(Clone, Copy, Debug, PartialEq)]
pub struct RenderInput<C> {
    /// The collider and its parent body, if both were found.
    pub found: Option<ColliderFacts>,
    /// A colour asked for by the entity itself, in the caller's own representation.
    pub custom: Option<C>,
}

/// The colour of a collider's material.
#[derive(Clone, Copy, Debug, PartialEq)]
pub enum Paint<C> {
    /// The colour the library chose.
    Fixed(Rgb),
    /// The colour the entity asked for.
    Custom(C),
}

/// What is attached to an entity so that its collider is drawn.
#[derive(Clone, Copy, Debug, PartialEq)]
pub struct RenderPlan<C> {
    pub paint: Paint<C>,
    pub mesh: MeshKind,
    pub scale: ScaleRule,
}

/// One entity as the caller knows it: the handle of its collider, and the
/// colour it asks for, if any.
#[derive(Clone, Copy, Debug, PartialEq)]
pub struct Candidate<H, C> {
    pub collider: H,
    pub custom: Option<C>,
}

/// A collider whose shape cannot be drawn.
#[derive(Clone, Copy, Debug, PartialEq, Eq, Structural)]
pub struct UnsupportedShape {
    /// The position of the collider among the inputs.
    pub position: usize,
    /// The kind of its shape.
    pub kind: ShapeKind,
}

/// The colour of a collider whose entity asks for none: the ground tone for a
/// static body, else the palette entry for the number of moving bodies met so
/// far, this one included.
pub open spec fn default_rgb(is_static: bool, moving: int) -> Rgb {
    if is_static {
        ground_rgb()
    } else {
        palette_rgb(moving)
    }
}

/// The entity's own colour where it has one, else the fallback.
pub open spec fn paint_of<C>(custom: Option<C>, fallback: Rgb) -> Paint<C> {
    match custom {
        Some(colour) => Paint::Custom(colour),
        None => Paint::Fixed(fallback),
    }
}

/// The plan for one collider, given the number of moving bodies met so far,
/// this one included.
pub open spec fn plan_of<C>(
    dim: Dimension,
    facts: ColliderFacts,
    custom: Option<C>,
    moving: int,
) -> RenderPlan<C>
    recommends
        supported(dim, facts.kind),
{
    RenderPlan {
        paint: paint_of(custom, default_rgb(facts.is_static, moving)),
        mesh: mesh_of(dim, facts.kind),
        scale: scale_of(dim, facts.kind),
    }
}

/// Whether the input is a collider that was found on a body that is not static.
pub open spec fn is_moving<C>(input: RenderInput<C>) -> bool {
    input.found matches Some(facts) && !facts.is_static
}

/// How many of the first `n` inputs are colliders of moving bodies.
pub open spec fn moving_count<C>(inputs: Seq<RenderInput<C>>, n: int) -> int
    recommends
        0 <= n <= inputs.len(),
    decreases n,
{
    if n <= 0 {
        0
    } else if is_moving(inputs[n - 1]) {
        moving_count(inputs, n - 1) + 1
    } else {
        moving_count(inputs, n - 1)
    }
}

/// Whether the input is a collider that was found and cannot be drawn.
pub open spec fn rejected<C>(dim: Dimension, input: RenderInput<C>) -> bool {
    input.found matches Some(facts) && !supported(dim, facts.kind)
}

/// What is drawn for the input at position `i`: nothing where the collider
/// or its body is missing, else the plan for it.
pub open spec fn plan_at<C>(dim: Dimension, inputs: Seq<RenderInput<C>>, i: int) -> Option<
    RenderPlan<C>,
>
    recommends
        0 <= i < inputs.len(),
{
    match inputs[i].found {
        None => None,
        Some(facts) => Some(plan_of(dim, facts, inputs[i].custom, moving_count(inputs, i + 1))),
    }
}

/// Whether `outcome` is what planning the inputs in order gives: a plan per
/// input where every collider found can be drawn, else the first one that cannot.
pub open spec fn is_outcome<C>(
    dim: Dimension,
    inputs: Seq<RenderInput<C>>,
    outcome: Result<Vec<Option<RenderPlan<C>>>, UnsupportedShape>,
) -> bool {
    match outcome {
        Ok(plans) => {
            &&& forall|i: int| 0 <= i < inputs.len() ==> !rejected(dim, #[trigger] inputs[i])
            &&& plans@.len() == inputs.len()
            &&& forall|i: int|
                0 <= i < inputs.len() ==> #[trigger] plans@[i] == plan_at(dim, inputs, i)
        },
        Err(refusal) => {
            &&& refusal.position < inputs.len()
            &&& forall|i: int| 0 <= i < refusal.position ==> !rejected(dim, #[trigger] inputs[i])
            &&& inputs[refusal.position as int].found matches Some(facts)
            &&& !supported(dim, facts.kind)
            &&& refusal.kind == facts.kind
        },
    }
}

/// The colour of a collider whose entity asks for none.
pub fn default_color(is_static: bool, moving: usize) -> (colour: Rgb)
    ensures
        colour == default_rgb(is_static, moving as int),
{
    if is_static {
        ground_color()
    } else {
        palette_color(moving)
    }
}

/// Lets the entity's own colour, if any, take the place of the fallback.
pub fn choose_paint<C>(custom: Option<C>, fallback: Rgb) -> (paint: Paint<C>)
    ensures
        paint == paint_of(custom, fallback),
{
    match custom {
        Some(colour) => Paint::Custom(colour),
        None => Paint::Fixed(fallback),
    }
}

/// Plans the drawing of one collider. `moving` is the number of colliders of
/// moving bodies planned so far, this one included.
pub fn plan_render<C>(
    dim: Dimension,
    facts: ColliderFacts,
    custom: Option<C>,
    moving: usize,
) -> (plan: RenderPlan<C>)
    requires
        supported(dim, facts.kind),
    ensures
        plan == plan_of(dim, facts, custom, moving as int),
{
    let fallback = default_color(facts.is_static, moving);
    RenderPlan {
        paint: choose_paint(custom, fallback),
        mesh: mesh_for(dim, facts.kind),
        scale: scale_for(dim, facts.kind),
    }
}

/// Plans the drawing of every input, in order. Inputs whose collider or body
/// is missing get no plan and do not advance the palette. Planning stops at
/// the first collider whose shape cannot be drawn.
pub fn plan_renders<C: Copy>(dim: Dimension, inputs: &Vec<RenderInput<C>>) -> (outcome: Result<
    Vec<Option<RenderPlan<C>>>,
    UnsupportedShape,
>)
    ensures
        is_outcome(dim, inputs@, outcome),
{
    let mut plans: Vec<Option<RenderPlan<C>>> = Vec::new();
    let mut moving: usize = 0;
    let mut i: usize = 0;
    while i < inputs.len()
        invariant
            i <= inputs.len(),
            moving <= i,
            moving == moving_count(inputs@, i as int),
            plans@.len() == i,
            forall|j: int| 0 <= j < i ==> !rejected(dim, #[trigger] inputs@[j]),
            forall|j: int| 0 <= j < i ==> #[trigger] plans@[j] == plan_at(dim, inputs@, j),
        decreases inputs.len() - i,
    {
        let input = inputs[i];
        match input.found {
            None => {
                plans.push(None);
            },
            Some(facts) => {
                if !is_supported(dim, facts.kind) {
                    return Err(UnsupportedShape { position: i, kind: facts.kind });
                }
                if !facts.is_static {
                    moving = moving + 1;
                }
                plans.push(Some(plan_render(dim, facts, input.custom, moving)));
            },
        }
        i = i + 1;
    }
    Ok(plans)
}

} // verus!
