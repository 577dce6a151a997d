//! The vertex record that flows through the transform stage.

use vstd::prelude::*;
use crate::color::Color;
use crate::geometry::{Fx2, Fx3};

verus! {

/// A mesh vertex: model-space attributes set by the mesh producer, plus the
/// screen-space position and transformed normal filled in by the vertex
/// shader.
#[derive(Clone, Copy, PartialEq, Eq, Structural, Debug)]
pub struct Vertex {
    pub position: Fx3,
    pub normal: Fx3,
    pub tex_coords: Fx2,
    pub color: Color,
    /// Screen-space position: x/y in pixel coordinates, z the depth.
    pub transformed_position: Fx3,
    pub transformed_normal: Fx3,
}

impl Vertex {
    /// A model-space vertex before transformation; the transformed fields
    /// start at the model values until the vertex shader fills them in.
    pub fn new(position: Fx3, normal: Fx3, tex_coords: Fx2, color: Color) -> (v: Vertex)
        ensures
            v == (Vertex {
                position,
                normal,
                tex_coords,
                color,
                transformed_position: position,
                transformed_normal: normal,
            }),
    {
        Vertex {
            position,
            normal,
            tex_coords,
            color,
            transformed_position: position,
            transformed_normal: normal,
        }
    }
}

} // verus!
