//! Point lights: a position and an intensity.
use crate::color::Color;
use crate::tuple::Tuple;
use vstd::prelude::*;

verus! {

/// A point light source; a scene holds at most one.
#[derive(Debug, Clone, Copy, PartialEq, Eq, Structural)]
pub struct PointLight {
    pub position: Tuple,
    pub intensity: Color,
}

impl PointLight {
    /// A light from a position and an intensity.
    pub fn new(position: Tuple, intensity: Color) -> (r: PointLight)
        ensures
            r == (PointLight { position, intensity }),
    {
        PointLight { position, intensity }
    }
}

} // verus!
