//! Planning of how physics colliders are drawn.
//!
//! Every collider that has no mesh yet gets a colour, a primitive mesh that
//! matches its shape, and a rule for scaling that mesh to the shape's size.
//! The decisions are made here on plain values; attaching the resulting
//! components to entities is left to the caller.

pub mod palette;
pub mod shape;
pub mod plan;
pub mod lemmas;
pub mod triangles;
pub mod dim2;
pub mod dim3;
