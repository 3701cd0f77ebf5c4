//! The pipeline of the wireframe overlay: what it is declared with and what a
//! draw call binds to it. It has no depth target.

use crate::bits::GFormat;
use crate::bits::Matrix;
use crate::handle::Buffer;
use crate::handle::RenderTargetView;
use vstd::prelude::*;

verus! {

/// The declaration of the pipeline: the name under which the shader program
/// knows each uniform and the color output.
#[derive(Clone, Copy, Debug, PartialEq, Eq)]
pub struct Init {
    pub ka: &'static str,
    pub model: &'static str,
    pub view: &'static str,
    pub proj: &'static str,
    pub out_ka: &'static str,
}

/// What one draw call binds: the vertex buffer, the four uniforms, and the
/// color attachment it writes.
#[derive(Clone, Copy, Debug, PartialEq, Eq)]
pub struct Data {
    pub vbuf: Buffer,
    pub ka: GFormat,
    pub model: Matrix,
    pub view: Matrix,
    pub proj: Matrix,
    pub out_ka: RenderTargetView,
}

/// The declaration that the wireframe pipeline is built with.
pub open spec fn init() -> Init {
    Init { ka: "u_Ka", model: "u_Model", view: "u_View", proj: "u_Proj", out_ka: "o_Ka" }
}

/// The declaration of the wireframe pipeline: the uniforms `u_Ka`, `u_Model`,
/// `u_View` and `u_Proj`, and the color output `o_Ka`.
pub fn new() -> (declared: Init)
    ensures
        declared == init(),
{
    Init { ka: "u_Ka", model: "u_Model", view: "u_View", proj: "u_Proj", out_ka: "o_Ka" }
}

} // verus!
