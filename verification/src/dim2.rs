//! Colliders of a planar physics world.

use vstd::prelude::*;
use rapier2d::data::arena::Index;
use rapier2d::dynamics::RigidBodySet;
use rapier2d::geometry::{ColliderSet, ShapeType};
use crate::plan::{
    is_outcome, plan_renders, Candidate, ColliderFacts, RenderInput, RenderPlan,
    UnsupportedShape,
};
use crate::shape::{Dimension, ShapeKind};
use crate::triangles::{flat_indices, flatten_faces};

verus! {

/// `rapier2d::data::arena::Index`, the handle of a collider or of a rigid body.
#[verifier::external_type_specification]
#[verifier::external_body]
pub struct ExIndex(Index);

/// `rapier2d::geometry::ColliderSet`.
#[verifier::external_type_specification]
#[verifier::external_body]
pub struct ExColliderSet(ColliderSet);

/// `rapier2d::dynamics::RigidBodySet`.
#[verifier::external_type_specification]
#[verifier::external_body]
pub struct ExRigidBodySet(RigidBodySet);

/// `rapier2d::geometry::ShapeType`, with its variants.
#[verifier::external_type_specification]
pub struct ExShapeType(ShapeType);

/// What a collider set holds: for the handle of each collider in it, the
/// handle of the collider's parent body and the tag of its shape.
pub uninterp spec fn collider_entries(colliders: ColliderSet) -> Map<Index, (Index, ShapeType)>;

/// What a rigid-body set holds: for the handle of each body in it, whether
/// the body is static.
pub uninterp spec fn static_flags(bodies: RigidBodySet) -> Map<Index, bool>;

/// The triangle meshes among the colliders of a set: for the handle of each
/// collider whose shape is a triangle mesh, the faces of the mesh, each as the
/// indices of its three vertices.
pub uninterp spec fn trimesh_faces(colliders: ColliderSet) -> Map<Index, Seq<[u32; 3]>>;

/// `ColliderSet::get`, with the collider it finds reduced to what
/// `Collider::parent` and the `shape_type` of `Collider::shape` return.
/// Believed: the result is `None` exactly for a handle that the set does not
/// hold, and else the entry of that handle; the tag of a shape is taken to be
/// fixed, as it is for every shape that rapier provides.
#[verifier::external_body]
fn find_collider(colliders: &ColliderSet, handle: Index) -> (found: Option<(Index, ShapeType)>)
    ensures
        found == (if collider_entries(*colliders).contains_key(handle) {
            Some(collider_entries(*colliders)[handle])
        } else {
            None
        }),
{
    match colliders.get(handle) {
        Some(collider) => Some((collider.parent(), collider.shape().shape_type())),
        None => None,
    }
}

/// `RigidBodySet::get`, with the body it finds reduced to what
/// `RigidBody::is_static` returns. Believed: the result is `None` exactly
/// for a handle that the set does not hold, and else the flag of that handle.
#[verifier::external_body]
fn find_body(bodies: &RigidBodySet, handle: Index) -> (found: Option<bool>)
    ensures
        found == (if static_flags(*bodies).contains_key(handle) {
            Some(static_flags(*bodies)[handle])
        } else {
            None
        }),
{
    match bodies.get(handle) {
        Some(body) => Some(body.is_static()),
        None => None,
    }
}

/// `Trimesh::indices`, on the shape of the collider that `ColliderSet::get`
/// finds, where `as_trimesh` on `Collider::shape` is a triangle mesh.
/// Believed: the result is `None` exactly for a handle that stands for no
/// triangle mesh in the set, and else the faces of that mesh in their order,
/// each with its three indices in their order.
#[verifier::external_body]
fn find_faces(colliders: &ColliderSet, handle: Index) -> (found: Option<Vec<[u32; 3]>>)
    ensures
        found is Some <==> trimesh_faces(*colliders).contains_key(handle),
        found matches Some(faces) ==> faces@ == trimesh_faces(*colliders)[handle],
{
    let trimesh = colliders.get(handle)?.shape().as_trimesh()?;
    Some(trimesh.indices().iter().map(|face| [face.x, face.y, face.z]).collect())
}

/// The shape kind that a shape tag of the planar engine stands for.
pub open spec fn kind_of(tag: ShapeType) -> ShapeKind {
    match tag {
        ShapeType::Ball => ShapeKind::Ball,
        ShapeType::Polygon => ShapeKind::Polygon,
        ShapeType::Cuboid => ShapeKind::Cuboid,
        ShapeType::Capsule => ShapeKind::Capsule,
        ShapeType::Segment => ShapeKind::Segment,
        ShapeType::Triangle => ShapeKind::Triangle,
        ShapeType::Trimesh => ShapeKind::Trimesh,
        ShapeType::HeightField => ShapeKind::HeightField,
    }
}

/// What drawing needs to know of the collider behind `handle`: nothing
/// where the set holds no such collider, or where the body set does not hold
/// the collider's parent.
pub open spec fn facts_of(colliders: ColliderSet, bodies: RigidBodySet, handle: Index) -> Option<
    ColliderFacts,
> {
    if collider_entries(colliders).contains_key(handle) {
        let (parent, tag) = collider_entries(colliders)[handle];
        if static_flags(bodies).contains_key(parent) {
            Some(ColliderFacts { is_static: static_flags(bodies)[parent], kind: kind_of(tag) })
        } else {
            None
        }
    } else {
        None
    }
}

/// The planning inputs that the candidates stand for in this world.
pub open spec fn inputs_of<C>(
    colliders: ColliderSet,
    bodies: RigidBodySet,
    candidates: Seq<Candidate<Index, C>>,
) -> Seq<RenderInput<C>> {
    Seq::new(
        candidates.len(),
        |i: int|
            RenderInput {
                found: facts_of(colliders, bodies, candidates[i].collider),
                custom: candidates[i].custom,
            },
    )
}

/// Names the kind of a shape from its tag.
pub fn shape_kind(tag: ShapeType) -> (kind: ShapeKind)
    ensures
        kind == kind_of(tag),
{
    match tag {
        ShapeType::Ball => ShapeKind::Ball,
        ShapeType::Polygon => ShapeKind::Polygon,
        ShapeType::Cuboid => ShapeKind::Cuboid,
        ShapeType::Capsule => ShapeKind::Capsule,
        ShapeType::Segment => ShapeKind::Segment,
        ShapeType::Triangle => ShapeKind::Triangle,
        ShapeType::Trimesh => ShapeKind::Trimesh,
        ShapeType::HeightField => ShapeKind::HeightField,
    }
}

/// Looks a collider up, and then the body it is attached to.
pub fn inspect_collider(colliders: &ColliderSet, bodies: &RigidBodySet, handle: Index) -> (found:
    Option<ColliderFacts>)
    ensures
        found == facts_of(*colliders, *bodies, handle),
{
    match find_collider(colliders, handle) {
        None => None,
        Some((parent, tag)) => match find_body(bodies, parent) {
            None => None,
            Some(is_static) => Some(ColliderFacts { is_static, kind: shape_kind(tag) }),
        },
    }
}

/// The index buffer for drawing the triangle mesh of a collider: the vertex
/// indices of all its faces in one row. There is none where `handle` stands
/// for no triangle mesh.
pub fn trimesh_index_buffer(colliders: &ColliderSet, handle: Index) -> (buffer: Option<Vec<u32>>)
    ensures
        buffer is Some <==> trimesh_faces(*colliders).contains_key(handle),
        buffer matches Some(indices) ==> indices@ == flat_indices(
            trimesh_faces(*colliders)[handle],
        ),
{
    match find_faces(colliders, handle) {
        Some(faces) => Some(flatten_faces(&faces)),
        None => None,
    }
}

/// Plans the drawing of each candidate's collider, in order. A candidate
/// whose collider or parent body is missing gets no plan. The outcome is a
/// refusal where a collider that was found has a shape that cannot be drawn
/// in two dimensions.
pub fn create_collider_renders_system<C: Copy>(
    colliders: &ColliderSet,
    bodies: &RigidBodySet,
    candidates: &Vec<Candidate<Index, C>>,
) -> (outcome: Result<Vec<Option<RenderPlan<C>>>, UnsupportedShape>)
    ensures
        is_outcome(Dimension::Two, inputs_of(*colliders, *bodies, candidates@), outcome),
{
    let mut inputs: Vec<RenderInput<C>> = Vec::new();
    let mut i: usize = 0;
    while i < candidates.len()
        invariant
            i <= candidates.len(),
            inputs@.len() == i,
            forall|j: int|
                0 <= j < i ==> #[trigger] inputs@[j] == inputs_of(
                    *colliders,
                    *bodies,
                    candidates@,
                )[j],
        decreases candidates.len() - i,
    {
        let candidate = candidates[i];
        let found = inspect_collider(colliders, bodies, candidate.collider);
        inputs.push(RenderInput { found, custom: candidate.custom });
        i = i + 1;
    }
    assert(inputs@ =~= inputs_of(*colliders, *bodies, candidates@));
    plan_renders(Dimension::Two, &inputs)
}

} // verus!
