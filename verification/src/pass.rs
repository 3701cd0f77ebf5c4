//! The parameter values of the techniques: what a caller says with each
//! invocation.

use crate::bits::GFormat;
use crate::target::Camera;
use vstd::prelude::*;

verus! {

/// Clear the target to one color.
#[derive(Clone, Copy, Debug, PartialEq, Eq)]
pub struct Clear {
    pub color: GFormat,
}

/// Draw a scene with flat shading, as seen by a camera.
#[derive(Clone, Debug, PartialEq, Eq)]
pub struct FlatShading {
    pub camera: Camera,
    pub scene: String,
}

/// Draw a scene as a wireframe, as seen by a camera.
#[derive(Clone, Debug, PartialEq, Eq)]
pub struct Wireframe {
    pub camera: Camera,
    pub scene: String,
}

} // verus!
