//! The pipeline of the flat-shaded fill: what it is declared with and what a
//! draw call binds to it.

use crate::bits::GFormat;
use crate::bits::Matrix;
use crate::handle::Buffer;
use crate::handle::DepthStencilView;
use crate::handle::RenderTargetView;
use crate::state::depth_less_equal_write;
use crate::state::less_equal_write;
use vstd::prelude::*;

verus! {

/// The declaration of the pipeline: the name under which the shader program
/// knows each uniform and the color output, and the depth test. The vertex
/// buffer needs no declaration beyond its vertex format.
#[derive(Clone, Copy, Debug, PartialEq, Eq)]
pub struct Init {
    pub ka: &'static str,
    pub model: &'static str,
    pub view: &'static str,
    pub proj: &'static str,
    pub out_ka: &'static str,
    pub out_depth: gfx::state::Depth,
}

/// What one draw call binds: the vertex buffer, the four uniforms, and the
/// color and depth attachments it writes.
#[derive(Clone, Copy, Debug, PartialEq, Eq)]
pub struct Data {
    pub vbuf: Buffer,
    pub ka: GFormat,
    pub model: Matrix,
    pub view: Matrix,
    pub proj: Matrix,
    pub out_ka: RenderTargetView,
    pub out_depth: DepthStencilView,
}

/// The declaration that the flat pipeline is built with.
pub open spec fn init() -> Init {
    Init {
        ka: "u_Ka",
        model: "u_Model",
        view: "u_View",
        proj: "u_Proj",
        out_ka: "o_Ka",
        out_depth: less_equal_write(),
    }
}

/// The declaration of the flat pipeline: the uniforms `u_Ka`, `u_Model`,
/// `u_View` and `u_Proj`, the color output `o_Ka`, and a depth target tested
/// with less-or-equal and written.
pub fn new() -> (declared: Init)
    ensures
        declared == init(),
{
    Init {
        ka: "u_Ka",
        model: "u_Model",
        view: "u_View",
        proj: "u_Proj",
        out_ka: "o_Ka",
        out_depth: depth_less_equal_write(),
    }
}

} // verus!
