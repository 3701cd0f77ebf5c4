//! Fixed-function state, in the types of the `gfx` crate.
//!
//! A pipeline descriptor holds `gfx`'s own rasterizer, primitive and depth
//! values, so that a factory can take them as they are. The types whose values
//! are built or compared here are declared with their fields and variants,
//! which the verifier reads from `gfx` itself; the two that are only passed
//! over are declared without their contents. The two contracts state what
//! `gfx`'s source shows and are not proved here.

use vstd::prelude::*;

verus! {

/// `gfx::state::CullFace`: which face, if any, is culled.
#[verifier::external_type_specification]
pub struct ExCullFace(gfx::state::CullFace);

/// `gfx::state::FrontFace`: the winding order of a front face.
#[verifier::external_type_specification]
pub struct ExFrontFace(gfx::state::FrontFace);

/// `gfx::state::RasterMethod`: points, lines of a width, or filled faces with
/// their cull mode.
#[verifier::external_type_specification]
pub struct ExRasterMethod(gfx::state::RasterMethod);

/// `gfx::state::Offset`: a polygon offset. Nothing here looks into one.
#[verifier::external_type_specification]
#[verifier::external_body]
pub struct ExOffset(gfx::state::Offset);

/// `gfx::state::MultiSample`: the multi-sampling mode. Nothing here looks
/// into one.
#[verifier::external_type_specification]
#[verifier::external_body]
pub struct ExMultiSample(gfx::state::MultiSample);

/// `gfx::state::Rasterizer`: front face, raster method, offset and sampling.
#[verifier::external_type_specification]
pub struct ExRasterizer(gfx::state::Rasterizer);

/// `gfx::state::Comparison`: a pixel-wise comparison function.
#[verifier::external_type_specification]
pub struct ExComparison(gfx::state::Comparison);

/// `gfx::state::Depth`: the depth test, its comparison and whether it writes.
#[verifier::external_type_specification]
pub struct ExDepth(gfx::state::Depth);

/// `gfx::Primitive`: how vertices are assembled into primitives.
#[verifier::external_type_specification]
pub struct ExPrimitive(gfx::Primitive);

/// `gfx::state::Rasterizer::new_fill` returns a rasterizer that fills faces
/// with the given cull mode, takes counter-clockwise faces as front, and has
/// neither an offset nor multi-sampling.
pub assume_specification[ gfx::state::Rasterizer::new_fill ](cull: gfx::state::CullFace) -> (r:
    gfx::state::Rasterizer)
    ensures
        r == fill(cull),
;

/// The rasterizer that fills faces with cull mode `cull`.
pub open spec fn fill(cull: gfx::state::CullFace) -> gfx::state::Rasterizer {
    gfx::state::Rasterizer {
        front_face: gfx::state::FrontFace::CounterClockwise,
        method: gfx::state::RasterMethod::Fill(cull),
        offset: None,
        samples: None,
    }
}

/// The depth test that passes on less-or-equal and writes the depth.
pub open spec fn less_equal_write() -> gfx::state::Depth {
    gfx::state::Depth { fun: gfx::state::Comparison::LessEqual, write: true }
}

/// Reads the constant `gfx::preset::depth::LESS_EQUAL_WRITE`, which `gfx`
/// defines as the less-or-equal comparison with depth writes enabled.
#[verifier::external_body]
pub(crate) fn depth_less_equal_write() -> (d: gfx::state::Depth)
    ensures
        d == less_equal_write(),
{
    gfx::preset::depth::LESS_EQUAL_WRITE
}

} // verus!
