//! The fragment record the rasterizer hands to the shading stage.

use vstd::prelude::*;
use crate::fixed::FX_ONE;
use crate::geometry::Fx3;

verus! {

/// One covered pixel candidate: its pixel coordinate, interpolated depth,
/// interpolated normal, the interpolated model-space position used as the
/// procedural texture coordinate, and a light intensity in [0, FX_ONE].
#[derive(Clone, Copy, PartialEq, Eq, Structural, Debug)]
pub struct Fragment {
    pub x: usize,
    pub y: usize,
    pub depth: i64,
    pub normal: Fx3,
    pub vertex_position: Fx3,
    pub intensity: i64,
}

impl Fragment {
    /// The light intensity always lies in the unit interval.
    pub open spec fn wf(self) -> bool {
        0 <= self.intensity <= FX_ONE
    }

    pub fn new(x: usize, y: usize, depth: i64, normal: Fx3, vertex_position: Fx3, intensity: i64)
        -> (f: Fragment)
        ensures
            f == (Fragment { x, y, depth, normal, vertex_position, intensity }),
    {
        Fragment { x, y, depth, normal, vertex_position, intensity }
    }
}

} // verus!
