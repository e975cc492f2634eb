//! Collider shapes and the primitive meshes that stand for them.

use vstd::prelude::*;

verus! {

/// The number of space dimensions the physics world simulates.
#[derive(Clone, Copy, Debug, PartialEq, Eq, Structural)]
pub enum Dimension {
    Two,
    Three,
}

/// The kind of geometry a collider carries.
#[derive(Clone, Copy, Debug, PartialEq, Eq, Structural)]
pub enum ShapeKind {
    Ball,
    Polygon,
    Cuboid,
    Capsule,
    Segment,
    Triangle,
    Trimesh,
    HeightField,
    Cylinder,
    Cone,
    RoundCylinder,
}

/// A primitive mesh, in mesh units, before any scaling.
#[derive(Clone, Copy, Debug, PartialEq, Eq, Structural)]
pub enum MeshKind {
    /// An axis-aligned cube with edges of length `size`, centred at the origin.
    Cube { size: u32 },
    /// A rectangle in the x-y plane, centred at the origin.
    Quad { width: u32, height: u32, flip: bool },
    /// A sphere approximated by a subdivided icosahedron.
    Icosphere { subdivisions: usize, radius: u32 },
    /// The collider's own triangles: its vertices as positions, its faces as indices.
    Triangles,
}

/// Where one component of a mesh's scale comes from.
#[derive(Clone, Copy, Debug, PartialEq, Eq, Structural)]
pub enum ScaleAxis {
    /// The cuboid's half extent along x.
    HalfExtentX,
    /// The cuboid's half extent along y.
    HalfExtentY,
    /// The cuboid's half extent along z.
    HalfExtentZ,
    /// The ball's radius.
    Radius,
    /// The constant one.
    One,
}

/// The scale of a mesh along each axis, before the global scale factor
/// multiplies all three components.
#[derive(Clone, Copy, Debug, PartialEq, Eq, Structural)]
pub struct ScaleRule {
    pub x: ScaleAxis,
    pub y: ScaleAxis,
    pub z: ScaleAxis,
}

/// Whether a shape of this kind can be drawn in a world of `dim` dimensions.
pub open spec fn supported(dim: Dimension, kind: ShapeKind) -> bool {
    match kind {
        ShapeKind::Cuboid => true,
        ShapeKind::Ball => true,
        ShapeKind::Trimesh => dim == Dimension::Two,
        _ => false,
    }
}

/// The mesh that stands for a shape of this kind.
pub open spec fn mesh_of(dim: Dimension, kind: ShapeKind) -> MeshKind
    recommends
        supported(dim, kind),
{
    match kind {
        ShapeKind::Cuboid => match dim {
            Dimension::Two => MeshKind::Quad { width: 2, height: 2, flip: false },
            Dimension::Three => MeshKind::Cube { size: 1 },
        },
        ShapeKind::Ball => MeshKind::Icosphere { subdivisions: 2, radius: 1 },
        ShapeKind::Trimesh => MeshKind::Triangles,
        _ => arbitrary(),
    }
}

/// The scale that brings the mesh of a shape of this kind to the shape's size.
pub open spec fn scale_of(dim: Dimension, kind: ShapeKind) -> ScaleRule
    recommends
        supported(dim, kind),
{
    match kind {
        ShapeKind::Cuboid => match dim {
            Dimension::Two => ScaleRule {
                x: ScaleAxis::HalfExtentX,
                y: ScaleAxis::HalfExtentY,
                z: ScaleAxis::One,
            },
            Dimension::Three => ScaleRule {
                x: ScaleAxis::HalfExtentX,
                y: ScaleAxis::HalfExtentY,
                z: ScaleAxis::HalfExtentZ,
            },
        },
        ShapeKind::Ball => ScaleRule {
            x: ScaleAxis::Radius,
            y: ScaleAxis::Radius,
            z: ScaleAxis::Radius,
        },
        ShapeKind::Trimesh => ScaleRule { x: ScaleAxis::One, y: ScaleAxis::One, z: ScaleAxis::One },
        _ => arbitrary(),
    }
}

/// Tells whether a shape of this kind can be drawn in a world of `dim` dimensions.
pub fn is_supported(dim: Dimension, kind: ShapeKind) -> (yes: bool)
    ensures
        yes == supported(dim, kind),
{
    match kind {
        ShapeKind::Cuboid => true,
        ShapeKind::Ball => true,
        ShapeKind::Trimesh => match dim {
            Dimension::Two => true,
            Dimension::Three => false,
        },
        _ => false,
    }
}

/// Picks the primitive mesh for a shape.
pub fn mesh_for(dim: Dimension, kind: ShapeKind) -> (mesh: MeshKind)
    requires
        supported(dim, kind),
    ensures
        mesh == mesh_of(dim, kind),
{
    match kind {
        ShapeKind::Cuboid => match dim {
            Dimension::Two => MeshKind::Quad { width: 2, height: 2, flip: false },
            Dimension::Three => MeshKind::Cube { size: 1 },
        },
        ShapeKind::Ball => MeshKind::Icosphere { subdivisions: 2, radius: 1 },
        _ => MeshKind::Triangles,
    }
}

/// Picks, for each axis, the shape measure that scales the mesh.
pub fn scale_for(dim: Dimension, kind: ShapeKind) -> (rule: ScaleRule)
    requires
        supported(dim, kind),
    ensures
        rule == scale_of(dim, kind),
{
    match kind {
        ShapeKind::Cuboid => match dim {
            Dimension::Two => ScaleRule {
                x: ScaleAxis::HalfExtentX,
                y: ScaleAxis::HalfExtentY,
                z: ScaleAxis::One,
            },
            Dimension::Three => ScaleRule {
                x: ScaleAxis::HalfExtentX,
                y: ScaleAxis::HalfExtentY,
                z: ScaleAxis::HalfExtentZ,
            },
        },
        ShapeKind::Ball => ScaleRule {
            x: ScaleAxis::Radius,
            y: ScaleAxis::Radius,
            z: ScaleAxis::Radius,
        },
        _ => ScaleRule { x: ScaleAxis::One, y: ScaleAxis::One, z: ScaleAxis::One },
    }
}

} // verus!
