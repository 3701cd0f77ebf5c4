//! Pipeline descriptions, and building pipeline state objects from them.
//!
//! A technique does not compile shaders itself. A [`Builder`] says what a
//! factory has to do next, takes the factory's answer, and ends with a
//! [`PipelineState`] or with the [`PipelineError`] that stopped it. There are
//! two paths. The simple path takes a vertex and a pixel stage and leaves
//! topology and fill mode to the factory's defaults: triangle lists, filled
//! faces. The explicit path compiles each stage on its own and then creates
//! the state object with the topology and rasterizer it was given.
//!
//! Either path ends at the first failure. No pipeline is ever built from a
//! part of its stages.

use crate::error::PipelineError;
use crate::error::ShaderStage;
use crate::flat;
use crate::handle::Pipeline;
use crate::state::fill;
use crate::wireframe;
use vstd::prelude::*;

verus! {

/// The sources of the stages of a shader program.
#[derive(Clone, Copy, Debug, PartialEq, Eq)]
pub enum ShaderSet {
    /// A vertex stage and a pixel stage.
    Simple(&'static str, &'static str),
    /// A vertex stage, a geometry stage and a pixel stage.
    Geometry(&'static str, &'static str, &'static str),
}

impl ShaderSet {
    /// The stages with their sources, in the order in which they are compiled.
    pub open spec fn stages(self) -> Seq<(ShaderStage, &'static str)> {
        match self {
            ShaderSet::Simple(vs, ps) => seq![(ShaderStage::Vertex, vs), (ShaderStage::Pixel, ps)],
            ShaderSet::Geometry(vs, gs, ps) => seq![
                (ShaderStage::Vertex, vs),
                (ShaderStage::Geometry, gs),
                (ShaderStage::Pixel, ps),
            ],
        }
    }

    /// The stage at position `index` of the compile order, with its source.
    pub fn stage(&self, index: usize) -> (found: Option<(ShaderStage, &'static str)>)
        ensures
            found == if index < self.stages().len() {
                Some(self.stages()[index as int])
            } else {
                None
            },
    {
        match *self {
            ShaderSet::Simple(vs, ps) => {
                if index == 0 {
                    Some((ShaderStage::Vertex, vs))
                } else if index == 1 {
                    Some((ShaderStage::Pixel, ps))
                } else {
                    None
                }
            },
            ShaderSet::Geometry(vs, gs, ps) => {
                if index == 0 {
                    Some((ShaderStage::Vertex, vs))
                } else if index == 1 {
                    Some((ShaderStage::Geometry, gs))
                } else if index == 2 {
                    Some((ShaderStage::Pixel, ps))
                } else {
                    None
                }
            },
        }
    }
}

/// What a pipeline expects of each draw call: its uniforms and its outputs.
#[derive(Clone, Copy, Debug, PartialEq, Eq)]
pub enum Layout {
    /// Four uniforms, a color output and a depth target.
    Flat(flat::Init),
    /// Four uniforms and a color output.
    Wireframe(wireframe::Init),
}

/// Everything that a pipeline state object is built from.
#[derive(Clone, Copy, Debug, PartialEq, Eq)]
pub struct Descriptor {
    /// The stages that are compiled and linked.
    pub shaders: ShaderSet,
    /// How the vertices of a slice are assembled.
    pub primitive: gfx::Primitive,
    /// Front face, fill mode and culling.
    pub rasterizer: gfx::state::Rasterizer,
    /// The uniforms and outputs that the program is linked against.
    pub layout: Layout,
}

/// A pipeline state object: the handle of the object on the device, and the
/// description it was built from. It does not change after it is built.
#[derive(Clone, Copy, Debug, PartialEq, Eq)]
pub struct PipelineState {
    pub handle: Pipeline,
    pub descriptor: Descriptor,
}

/// What a builder asks of the factory.
#[derive(Clone, Copy, Debug, PartialEq, Eq)]
pub enum Request {
    /// Compile one stage from its source.
    Compile { stage: ShaderStage, source: &'static str },
    /// Compile and link a vertex and a pixel stage, and create the state
    /// object for triangle lists with filled faces and cull mode `cull`.
    CreateSimple { vs: &'static str, ps: &'static str, cull: gfx::state::CullFace, layout: Layout },
    /// Link the stages compiled so far and create the state object.
    CreateState { primitive: gfx::Primitive, rasterizer: gfx::state::Rasterizer, layout: Layout },
}

/// What the factory answers, in its own words where it failed.
#[derive(Debug, PartialEq)]
pub enum Reply {
    /// The stage compiled.
    Compiled,
    /// The stage did not compile.
    CompileFailed(gfx::core::shade::CreateShaderError),
    /// The state object exists, under this handle.
    Created(Pipeline),
    /// The state object was not created.
    CreateFailed(gfx::PipelineStateError),
}

/// The construction of one pipeline state object, from its start to its end.
#[derive(Debug, PartialEq)]
pub enum Builder {
    /// On the simple path, before the one request it makes.
    Simple { vs: &'static str, ps: &'static str, cull: gfx::state::CullFace, layout: Layout },
    /// On the explicit path, with the first `compiled` stages of
    /// `descriptor.shaders` compiled.
    Explicit { descriptor: Descriptor, compiled: usize },
    /// At its end: the state object exists.
    Built(PipelineState),
    /// At its end: a request failed.
    Failed(PipelineError),
}

impl Builder {
    /// The simple path for a vertex stage `vs` and a pixel stage `ps`.
    pub fn simple(vs: &'static str, ps: &'static str, cull: gfx::state::CullFace, layout: Layout) -> (b:
        Builder)
        ensures
            b == (Builder::Simple { vs, ps, cull, layout }),
    {
        Builder::Simple { vs, ps, cull, layout }
    }

    /// The explicit path for the given stages, topology, rasterizer and
    /// layout.
    pub fn explicit(
        shaders: ShaderSet,
        primitive: gfx::Primitive,
        rasterizer: gfx::state::Rasterizer,
        layout: Layout,
    ) -> (b: Builder)
        ensures
            b == (Builder::Explicit {
                descriptor: Descriptor { shaders, primitive, rasterizer, layout },
                compiled: 0,
            }),
    {
        Builder::Explicit { descriptor: Descriptor { shaders, primitive, rasterizer, layout }, compiled: 0 }
    }

    /// The description of the pipeline that the simple path builds.
    pub open spec fn simple_descriptor(
        vs: &'static str,
        ps: &'static str,
        cull: gfx::state::CullFace,
        layout: Layout,
    ) -> Descriptor {
        Descriptor {
            shaders: ShaderSet::Simple(vs, ps),
            primitive: gfx::Primitive::TriangleList,
            rasterizer: fill(cull),
            layout,
        }
    }

    /// What the builder asks next; nothing once it is at its end.
    pub open spec fn pending(self) -> Option<Request> {
        match self {
            Builder::Simple { vs, ps, cull, layout } => Some(
                Request::CreateSimple { vs, ps, cull, layout },
            ),
            Builder::Explicit { descriptor, compiled } => {
                let stages = descriptor.shaders.stages();
                if compiled < stages.len() {
                    Some(
                        Request::Compile {
                            stage: stages[compiled as int].0,
                            source: stages[compiled as int].1,
                        },
                    )
                } else {
                    Some(
                        Request::CreateState {
                            primitive: descriptor.primitive,
                            rasterizer: descriptor.rasterizer,
                            layout: descriptor.layout,
                        },
                    )
                }
            },
            Builder::Built(_) => None,
            Builder::Failed(_) => None,
        }
    }

    /// The builder after the factory's answer to the pending request. A
    /// failure ends the construction: a stage that did not compile is
    /// reported with that stage, a state object that was not created with
    /// what the factory says of it. A success moves the construction on by
    /// one step. An answer that does not belong to the pending request, or
    /// that comes after the end, changes nothing.
    pub open spec fn after(self, reply: Reply) -> Builder {
        match self {
            Builder::Simple { vs, ps, cull, layout } => match reply {
                Reply::Created(handle) => Builder::Built(
                    PipelineState { handle, descriptor: Self::simple_descriptor(vs, ps, cull, layout) },
                ),
                Reply::CreateFailed(e) => Builder::Failed(PipelineError::state(e)),
                _ => self,
            },
            Builder::Explicit { descriptor, compiled } => {
                let stages = descriptor.shaders.stages();
                if compiled < stages.len() {
                    match reply {
                        Reply::Compiled => Builder::Explicit {
                            descriptor,
                            compiled: (compiled + 1) as usize,
                        },
                        Reply::CompileFailed(e) => Builder::Failed(
                            PipelineError::shader(stages[compiled as int].0, e),
                        ),
                        _ => self,
                    }
                } else {
                    match reply {
                        Reply::Created(handle) => Builder::Built(PipelineState { handle, descriptor }),
                        Reply::CreateFailed(e) => Builder::Failed(PipelineError::state(e)),
                        _ => self,
                    }
                }
            },
            Builder::Built(_) => self,
            Builder::Failed(_) => self,
        }
    }

    /// How the construction ended, if it has.
    pub open spec fn outcome(self) -> Option<Result<PipelineState, PipelineError>> {
        match self {
            Builder::Built(pso) => Some(Ok(pso)),
            Builder::Failed(e) => Some(Err(e)),
            _ => None,
        }
    }

    /// What the factory has to do next, or `None` at the end.
    pub fn request(&self) -> (next: Option<Request>)
        ensures
            next == self.pending(),
    {
        match self {
            Builder::Simple { vs, ps, cull, layout } => Some(
                Request::CreateSimple { vs: *vs, ps: *ps, cull: *cull, layout: *layout },
            ),
            Builder::Explicit { descriptor, compiled } => {
                match descriptor.shaders.stage(*compiled) {
                    Some((stage, source)) => Some(Request::Compile { stage, source }),
                    None => Some(
                        Request::CreateState {
                            primitive: descriptor.primitive,
                            rasterizer: descriptor.rasterizer,
                            layout: descriptor.layout,
                        },
                    ),
                }
            },
            Builder::Built(_) => None,
            Builder::Failed(_) => None,
        }
    }

    /// Takes the factory's answer to the pending request.
    pub fn advance(self, reply: Reply) -> (next: Builder)
        ensures
            next == self.after(reply),
    {
        match self {
            Builder::Simple { vs, ps, cull, layout } => {
                match reply {
                    Reply::Created(handle) => Builder::Built(
                        PipelineState {
                            handle,
                            descriptor: Descriptor {
                                shaders: ShaderSet::Simple(vs, ps),
                                primitive: gfx::Primitive::TriangleList,
                                rasterizer: gfx::state::Rasterizer::new_fill(cull),
                                layout,
                            },
                        },
                    ),
                    Reply::CreateFailed(e) => Builder::Failed(PipelineError::from_state(e)),
                    _ => Builder::Simple { vs, ps, cull, layout },
                }
            },
            Builder::Explicit { descriptor, compiled } => {
                match descriptor.shaders.stage(compiled) {
                    Some((stage, _)) => match reply {
                        Reply::Compiled => Builder::Explicit { descriptor, compiled: compiled + 1 },
                        Reply::CompileFailed(e) => Builder::Failed(
                            PipelineError::from_shader(stage, e),
                        ),
                        _ => Builder::Explicit { descriptor, compiled },
                    },
                    None => match reply {
                        Reply::Created(handle) => Builder::Built(PipelineState { handle, descriptor }),
                        Reply::CreateFailed(e) => Builder::Failed(PipelineError::from_state(e)),
                        _ => Builder::Explicit { descriptor, compiled },
                    },
                }
            },
            Builder::Built(pso) => Builder::Built(pso),
            Builder::Failed(e) => Builder::Failed(e),
        }
    }

    /// How the construction ended, or `None` while a request is pending.
    pub fn finish(self) -> (end: Option<Result<PipelineState, PipelineError>>)
        ensures
            end == self.outcome(),
    {
        match self {
            Builder::Built(pso) => Some(Ok(pso)),
            Builder::Failed(e) => Some(Err(e)),
            _ => None,
        }
    }
}

/// A stage that does not compile ends the construction: the builder asks
/// nothing more, and its outcome is the failure of that stage.
pub proof fn failed_stage_ends_construction(
    builder: Builder,
    error: gfx::core::shade::CreateShaderError,
)
    requires
        builder.pending() is Some,
        builder.pending()->0 is Compile,
    ensures
        builder.after(Reply::CompileFailed(error)).pending() is None,
        builder.after(Reply::CompileFailed(error)).outcome() == Some(
            Err::<PipelineState, PipelineError>(
                PipelineError::shader(builder.pending()->0->stage, error),
            ),
        ),
{
}

/// A state object that is not created ends the construction, on either
/// path: the builder asks nothing more, and its outcome is that failure.
pub proof fn failed_creation_ends_construction(builder: Builder, error: gfx::PipelineStateError)
    requires
        builder.pending() is Some,
        !(builder.pending()->0 is Compile),
    ensures
        builder.after(Reply::CreateFailed(error)).pending() is None,
        builder.after(Reply::CreateFailed(error)).outcome() == Some(
            Err::<PipelineState, PipelineError>(PipelineError::state(error)),
        ),
{
}

/// A construction that has ended stays as it ended, whatever is answered.
pub proof fn ended_construction_stays(builder: Builder, reply: Reply)
    requires
        builder.pending() is None,
    ensures
        builder.after(reply) == builder,
{
}

/// A state object comes out of the explicit path only when every stage has
/// been compiled, and then it is described by what the builder started with.
pub proof fn explicit_path_builds_from_every_stage(
    descriptor: Descriptor,
    compiled: usize,
    reply: Reply,
)
    requires
        (Builder::Explicit { descriptor, compiled }).after(reply) is Built,
    ensures
        compiled >= descriptor.shaders.stages().len(),
        reply is Created,
        (Builder::Explicit { descriptor, compiled }).after(reply) == Builder::Built(
            PipelineState { handle: reply->Created_0, descriptor },
        ),
{
}

} // verus!
