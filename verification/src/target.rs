//! Cameras and render targets.

use crate::bits::Matrix;
use crate::handle::DepthStencilView;
use crate::handle::RenderTargetView;
use vstd::prelude::*;

verus! {

/// The view and projection transforms of one frame.
#[derive(Clone, Copy, Debug, PartialEq, Eq)]
pub struct Camera {
    pub projection: Matrix,
    pub view: Matrix,
}

/// What a technique draws into: a color attachment and, where there is one, a
/// depth attachment.
#[derive(Clone, Copy, Debug, PartialEq, Eq)]
pub struct ScreenOutput {
    pub output: RenderTargetView,
    pub output_depth: Option<DepthStencilView>,
}

} // verus!
