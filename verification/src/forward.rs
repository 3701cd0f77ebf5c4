//! The forward techniques: clearing a target, flat-shaded fill, and wireframe
//! overlay.
//!
//! `Clear` holds no state. `FlatShading` and `Wireframe` each own one pipeline
//! state object, built once from the technique's fixed description and used
//! for every draw the technique records.

use crate::bits::ONE;
use crate::command::Bindings;
use crate::command::Command;
use crate::command::CommandContext;
use crate::error::PipelineError;
use crate::flat;
use crate::handle::DepthStencilView;
use crate::handle::Pipeline;
use crate::handle::RenderTargetView;
use crate::method::ApplyError;
use crate::method::Method;
use crate::pass;
use crate::pipeline::Builder;
use crate::pipeline::Descriptor;
use crate::pipeline::Layout;
use crate::pipeline::PipelineState;
use crate::pipeline::Reply;
use crate::pipeline::ShaderSet;
use crate::scene::Fragment;
use crate::scene::Scene;
use crate::scene::Scenes;
use crate::shaders::FLAT_FRAGMENT_SRC;
use crate::shaders::VERTEX_SRC;
use crate::shaders::WIREFRAME_GEOMETRY_SRC;
use crate::state::fill;
use crate::target::Camera;
use crate::target::ScreenOutput;
use crate::wireframe;
use vstd::prelude::*;

pub use crate::bits::GFormat;
pub use crate::scene::VertexPosNormal;

verus! {

/// The depth that a clear writes: the far plane, one.
pub const DEPTH_FAR: u32 = ONE;

/// Clears the color attachment of a target to a color, then its depth
/// attachment to the far plane.
///
/// `Clear` always clears both. A target that has no depth attachment is not
/// cleared in part: applying `Clear` to it fails with
/// `ApplyError::MissingAttachment` and records nothing.
#[derive(Clone, Copy, Debug, PartialEq, Eq)]
pub struct Clear;

impl Method<pass::Clear, ScreenOutput> for Clear {
    /// One color clear, then one depth clear, whatever the scenes are. A
    /// target without a depth attachment is refused.
    open spec fn commands(
        &self,
        arg: &pass::Clear,
        target: &ScreenOutput,
        scenes: Map<Seq<char>, Scene>,
    ) -> Result<Seq<Command>, ApplyError> {
        match target.output_depth {
            Some(depth) => Ok(
                seq![
                    Command::ClearColor { target: target.output, color: arg.color },
                    Command::ClearDepth { depth_target: depth, depth: DEPTH_FAR },
                ],
            ),
            None => Err(ApplyError::MissingAttachment),
        }
    }

    fn apply(
        &self,
        arg: &pass::Clear,
        target: &ScreenOutput,
        scenes: &Scenes,
        encoder: &mut CommandContext,
    ) -> (done: Result<(), ApplyError>)
        ensures
            done is Ok <==> target.output_depth is Some,
            done is Ok ==> final(encoder)@ == old(encoder)@.push(
                Command::ClearColor { target: target.output, color: arg.color },
            ).push(Command::ClearDepth { depth_target: target.output_depth->0, depth: DEPTH_FAR }),
            done is Err ==> done == Err::<(), ApplyError>(ApplyError::MissingAttachment)
                && final(encoder)@ == old(encoder)@,
    {
        match target.output_depth {
            Some(depth) => {
                encoder.clear_color(target.output, arg.color);
                encoder.clear_depth(depth, DEPTH_FAR);
                assert(encoder@ =~= old(encoder)@ + self.commands(arg, target, scenes@)->Ok_0);
                Ok(())
            },
            None => Err(ApplyError::MissingAttachment),
        }
    }
}

/// The draw that flat shading records for one fragment.
pub open spec fn flat_draw(
    pipeline: Pipeline,
    fragment: Fragment,
    camera: Camera,
    output: RenderTargetView,
    depth: DepthStencilView,
) -> Command {
    Command::Draw {
        slice: fragment.slice,
        pipeline,
        bindings: Bindings::Flat(
            flat::Data {
                vbuf: fragment.buffer,
                ka: fragment.ka,
                model: fragment.transform,
                view: camera.view,
                proj: camera.projection,
                out_ka: output,
                out_depth: depth,
            },
        ),
    }
}

/// The draw that the wireframe records for one fragment.
pub open spec fn wireframe_draw(
    pipeline: Pipeline,
    fragment: Fragment,
    camera: Camera,
    output: RenderTargetView,
) -> Command {
    Command::Draw {
        slice: fragment.slice,
        pipeline,
        bindings: Bindings::Wireframe(
            wireframe::Data {
                vbuf: fragment.buffer,
                ka: fragment.ka,
                model: fragment.transform,
                view: camera.view,
                proj: camera.projection,
                out_ka: output,
            },
        ),
    }
}

/// Fills the triangles of a scene with the material color of each fragment,
/// with depth testing.
#[derive(Clone, Copy, Debug, PartialEq, Eq)]
pub struct FlatShading(PipelineState);

impl FlatShading {
    /// The technique's pipeline state object.
    pub closed spec fn state(&self) -> PipelineState {
        self.0
    }

    /// The technique's pipeline is declared for the bindings that its draw
    /// calls supply. `new` makes no other technique.
    pub open spec fn wf(&self) -> bool {
        self.state().descriptor.layout is Flat
    }

    /// The construction of the technique's pipeline, at its start: the simple
    /// path over the shared vertex stage and the flat fragment stage, back
    /// faces culled, a color output and a depth target.
    pub open spec fn spec_builder() -> Builder {
        Builder::Simple {
            vs: VERTEX_SRC,
            ps: FLAT_FRAGMENT_SRC,
            cull: gfx::state::CullFace::Back,
            layout: Layout::Flat(flat::init()),
        }
    }

    /// Starts the construction of the technique's pipeline.
    pub fn builder() -> (b: Builder)
        ensures
            b == Self::spec_builder(),
    {
        Builder::simple(
            VERTEX_SRC,
            FLAT_FRAGMENT_SRC,
            gfx::state::CullFace::Back,
            Layout::Flat(flat::new()),
        )
    }

    /// Makes the technique from the end of a construction. A failed
    /// construction makes no technique and hands its error on. Neither does
    /// a pipeline that was declared for other bindings than flat shading
    /// supplies: that is found here, not when the first draw is recorded.
    pub fn new(built: Result<PipelineState, PipelineError>) -> (made: Result<
        FlatShading,
        PipelineError,
    >)
        ensures
            match built {
                Ok(pso) => if pso.descriptor.layout is Flat {
                    made matches Ok(technique) && technique.state() == pso
                } else {
                    made == Err::<FlatShading, PipelineError>(PipelineError::Incompatible)
                },
                Err(e) => made == Err::<FlatShading, PipelineError>(e),
            },
            made matches Ok(technique) ==> technique.wf(),
    {
        match built {
            Ok(pso) => match pso.descriptor.layout {
                Layout::Flat(_) => Ok(FlatShading(pso)),
                _ => Err(PipelineError::Incompatible),
            },
            Err(e) => Err(e),
        }
    }

    /// The technique's pipeline state object.
    pub fn pso(&self) -> (pso: PipelineState)
        ensures
            pso == self.state(),
    {
        self.0
    }
}

impl Method<pass::FlatShading, ScreenOutput> for FlatShading {
    /// One draw per fragment of the named scene, in the order of storage. An
    /// unknown scene is refused, then a target without a depth attachment.
    open spec fn commands(
        &self,
        arg: &pass::FlatShading,
        target: &ScreenOutput,
        scenes: Map<Seq<char>, Scene>,
    ) -> Result<Seq<Command>, ApplyError> {
        if !scenes.contains_key(arg.scene@) {
            Err(ApplyError::SceneNotFound)
        } else {
            match target.output_depth {
                Some(depth) => Ok(
                    scenes[arg.scene@].fragments@.map_values(
                        |fragment: Fragment|
                            flat_draw(self.state().handle, fragment, arg.camera, target.output, depth),
                    ),
                ),
                None => Err(ApplyError::MissingAttachment),
            }
        }
    }

    fn apply(
        &self,
        arg: &pass::FlatShading,
        target: &ScreenOutput,
        scenes: &Scenes,
        encoder: &mut CommandContext,
    ) -> (done: Result<(), ApplyError>)
        ensures
            done is Ok <==> scenes@.contains_key(arg.scene@) && target.output_depth is Some,
            done is Ok ==> final(encoder)@ == old(encoder)@ + scenes@[arg.scene@].fragments@.map_values(
                |fragment: Fragment|
                    flat_draw(
                        self.state().handle,
                        fragment,
                        arg.camera,
                        target.output,
                        target.output_depth->0,
                    ),
            ),
            done is Err ==> final(encoder)@ == old(encoder)@,
            !scenes@.contains_key(arg.scene@) ==> done == Err::<(), ApplyError>(
                ApplyError::SceneNotFound,
            ),
            scenes@.contains_key(arg.scene@) && target.output_depth is None ==> done == Err::<
                (),
                ApplyError,
            >(ApplyError::MissingAttachment),
    {
        let scene = match scenes.get(arg.scene.as_str()) {
            Some(scene) => scene,
            None => { return Err(ApplyError::SceneNotFound); },
        };
        let depth = match target.output_depth {
            Some(depth) => depth,
            None => { return Err(ApplyError::MissingAttachment); },
        };
        let ghost draws = self.commands(arg, target, scenes@)->Ok_0;
        let count = scene.fragments.len();
        let mut i: usize = 0;
        // every entity gets drawn
        while i < count
            invariant
                i <= count,
                count == scene.fragments@.len(),
                draws == scene.fragments@.map_values(
                    |fragment: Fragment|
                        flat_draw(self.state().handle, fragment, arg.camera, target.output, depth),
                ),
                encoder@ == old(encoder)@ + draws.take(i as int),
            decreases count - i,
        {
            let e = &scene.fragments[i];
            encoder.draw(
                e.slice,
                self.0.handle,
                Bindings::Flat(
                    flat::Data {
                        vbuf: e.buffer,
                        ka: e.ka,
                        model: e.transform,
                        view: arg.camera.view,
                        proj: arg.camera.projection,
                        out_ka: target.output,
                        out_depth: depth,
                    },
                ),
            );
            assert(draws.take(i + 1) =~= draws.take(i as int).push(draws[i as int]));
            i += 1;
        }
        assert(draws.take(count as int) =~= draws);
        Ok(())
    }
}

/// Draws the edges of the triangles of a scene in the material color of each
/// fragment. It neither tests nor writes depth.
#[derive(Clone, Copy, Debug, PartialEq, Eq)]
pub struct Wireframe(PipelineState);

impl Wireframe {
    /// The technique's pipeline state object.
    pub closed spec fn state(&self) -> PipelineState {
        self.0
    }

    /// The technique's pipeline is declared for the bindings that its draw
    /// calls supply. `new` makes no other technique.
    pub open spec fn wf(&self) -> bool {
        self.state().descriptor.layout is Wireframe
    }

    /// The construction of the technique's pipeline, at its start: the
    /// explicit path over the shared vertex stage, the geometry stage that
    /// turns triangles into line strips, and the flat fragment stage;
    /// triangle lists as input, filled with no face culled, and a color
    /// output alone.
    pub open spec fn spec_builder() -> Builder {
        Builder::Explicit {
            descriptor: Descriptor {
                shaders: ShaderSet::Geometry(VERTEX_SRC, WIREFRAME_GEOMETRY_SRC, FLAT_FRAGMENT_SRC),
                primitive: gfx::Primitive::TriangleList,
                rasterizer: fill(gfx::state::CullFace::Nothing),
                layout: Layout::Wireframe(wireframe::init()),
            },
            compiled: 0,
        }
    }

    /// Starts the construction of the technique's pipeline.
    pub fn builder() -> (b: Builder)
        ensures
            b == Self::spec_builder(),
    {
        Builder::explicit(
            ShaderSet::Geometry(VERTEX_SRC, WIREFRAME_GEOMETRY_SRC, FLAT_FRAGMENT_SRC),
            gfx::Primitive::TriangleList,
            gfx::state::Rasterizer::new_fill(gfx::state::CullFace::Nothing),
            Layout::Wireframe(wireframe::new()),
        )
    }

    /// Makes the technique from the end of a construction. A failed
    /// construction makes no technique and hands its error on. Neither does
    /// a pipeline that was declared for other bindings than the wireframe
    /// supplies: that is found here, not when the first draw is recorded.
    pub fn new(built: Result<PipelineState, PipelineError>) -> (made: Result<
        Wireframe,
        PipelineError,
    >)
        ensures
            match built {
                Ok(pso) => if pso.descriptor.layout is Wireframe {
                    made matches Ok(technique) && technique.state() == pso
                } else {
                    made == Err::<Wireframe, PipelineError>(PipelineError::Incompatible)
                },
                Err(e) => made == Err::<Wireframe, PipelineError>(e),
            },
            made matches Ok(technique) ==> technique.wf(),
    {
        match built {
            Ok(pso) => match pso.descriptor.layout {
                Layout::Wireframe(_) => Ok(Wireframe(pso)),
                _ => Err(PipelineError::Incompatible),
            },
            Err(e) => Err(e),
        }
    }

    /// The technique's pipeline state object.
    pub fn pso(&self) -> (pso: PipelineState)
        ensures
            pso == self.state(),
    {
        self.0
    }
}

impl Method<pass::Wireframe, ScreenOutput> for Wireframe {
    /// One draw per fragment of the named scene, in the order of storage,
    /// into the color attachment alone. An unknown scene is refused.
    open spec fn commands(
        &self,
        arg: &pass::Wireframe,
        target: &ScreenOutput,
        scenes: Map<Seq<char>, Scene>,
    ) -> Result<Seq<Command>, ApplyError> {
        if !scenes.contains_key(arg.scene@) {
            Err(ApplyError::SceneNotFound)
        } else {
            Ok(
                scenes[arg.scene@].fragments@.map_values(
                    |fragment: Fragment|
                        wireframe_draw(self.state().handle, fragment, arg.camera, target.output),
                ),
            )
        }
    }

    fn apply(
        &self,
        arg: &pass::Wireframe,
        target: &ScreenOutput,
        scenes: &Scenes,
        encoder: &mut CommandContext,
    ) -> (done: Result<(), ApplyError>)
        ensures
            done is Ok <==> scenes@.contains_key(arg.scene@),
            done is Ok ==> final(encoder)@ == old(encoder)@ + scenes@[arg.scene@].fragments@.map_values(
                |fragment: Fragment|
                    wireframe_draw(self.state().handle, fragment, arg.camera, target.output),
            ),
            done is Err ==> done == Err::<(), ApplyError>(ApplyError::SceneNotFound)
                && final(encoder)@ == old(encoder)@,
    {
        let scene = match scenes.get(arg.scene.as_str()) {
            Some(scene) => scene,
            None => { return Err(ApplyError::SceneNotFound); },
        };
        let ghost draws = self.commands(arg, target, scenes@)->Ok_0;
        let count = scene.fragments.len();
        let mut i: usize = 0;
        // every entity gets drawn
        while i < count
            invariant
                i <= count,
                count == scene.fragments@.len(),
                draws == scene.fragments@.map_values(
                    |fragment: Fragment|
                        wireframe_draw(self.state().handle, fragment, arg.camera, target.output),
                ),
                encoder@ == old(encoder)@ + draws.take(i as int),
            decreases count - i,
        {
            let e = &scene.fragments[i];
            encoder.draw(
                e.slice,
                self.0.handle,
                Bindings::Wireframe(
                    wireframe::Data {
                        vbuf: e.buffer,
                        ka: e.ka,
                        model: e.transform,
                        view: arg.camera.view,
                        proj: arg.camera.projection,
                        out_ka: target.output,
                    },
                ),
            );
            assert(draws.take(i + 1) =~= draws.take(i as int).push(draws[i as int]));
            i += 1;
        }
        assert(draws.take(count as int) =~= draws);
        Ok(())
    }
}

/// `Clear` records one clear of the color attachment to the parameter's
/// color and then one clear of the depth attachment to the far plane, and
/// nothing else, whatever scenes it is given.
pub proof fn clear_records_color_then_depth(
    arg: pass::Clear,
    target: ScreenOutput,
    depth: DepthStencilView,
    scenes: Map<Seq<char>, Scene>,
)
    requires
        target.output_depth == Some(depth),
    ensures
        Clear.commands(&arg, &target, scenes) == Ok::<Seq<Command>, ApplyError>(
            seq![
                Command::ClearColor { target: target.output, color: arg.color },
                Command::ClearDepth { depth_target: depth, depth: DEPTH_FAR },
            ],
        ),
{
}

/// What `Clear` records does not depend on the scenes.
pub proof fn clear_ignores_scenes(
    arg: pass::Clear,
    target: ScreenOutput,
    scenes: Map<Seq<char>, Scene>,
    others: Map<Seq<char>, Scene>,
)
    ensures
        Clear.commands(&arg, &target, scenes) == Clear.commands(&arg, &target, others),
{
}

/// For a scene of N fragments, flat shading records exactly N draws: the
/// draw at position `i` is the one for fragment `i`, with the technique's own
/// pipeline, the camera of the parameter and both attachments of the target.
pub proof fn flat_shading_draws_every_fragment(
    technique: FlatShading,
    arg: pass::FlatShading,
    target: ScreenOutput,
    depth: DepthStencilView,
    scenes: Map<Seq<char>, Scene>,
)
    requires
        scenes.contains_key(arg.scene@),
        target.output_depth == Some(depth),
    ensures
        technique.commands(&arg, &target, scenes) is Ok,
        technique.commands(&arg, &target, scenes)->Ok_0.len() == scenes[arg.scene@].fragments@.len(),
        forall|i: int|
            0 <= i < scenes[arg.scene@].fragments@.len() ==> #[trigger] technique.commands(
                &arg,
                &target,
                scenes,
            )->Ok_0[i] == flat_draw(
                technique.state().handle,
                scenes[arg.scene@].fragments@[i],
                arg.camera,
                target.output,
                depth,
            ),
{
}

/// For a scene of N fragments, the wireframe records exactly N draws: the
/// draw at position `i` is the one for fragment `i`, with the technique's own
/// pipeline, the camera of the parameter and the color attachment of the
/// target.
pub proof fn wireframe_draws_every_fragment(
    technique: Wireframe,
    arg: pass::Wireframe,
    target: ScreenOutput,
    scenes: Map<Seq<char>, Scene>,
)
    requires
        scenes.contains_key(arg.scene@),
    ensures
        technique.commands(&arg, &target, scenes) is Ok,
        technique.commands(&arg, &target, scenes)->Ok_0.len() == scenes[arg.scene@].fragments@.len(),
        forall|i: int|
            0 <= i < scenes[arg.scene@].fragments@.len() ==> #[trigger] technique.commands(
                &arg,
                &target,
                scenes,
            )->Ok_0[i] == wireframe_draw(
                technique.state().handle,
                scenes[arg.scene@].fragments@[i],
                arg.camera,
                target.output,
            ),
{
}

/// Flat shading of a scene that is not registered fails with the lookup
/// error; it does not succeed with no draws.
pub proof fn flat_shading_refuses_unknown_scene(
    technique: FlatShading,
    arg: pass::FlatShading,
    target: ScreenOutput,
    scenes: Map<Seq<char>, Scene>,
)
    requires
        !scenes.contains_key(arg.scene@),
    ensures
        technique.commands(&arg, &target, scenes) == Err::<Seq<Command>, ApplyError>(
            ApplyError::SceneNotFound,
        ),
{
}

/// The wireframe of a scene that is not registered fails with the lookup
/// error; it does not succeed with no draws.
pub proof fn wireframe_refuses_unknown_scene(
    technique: Wireframe,
    arg: pass::Wireframe,
    target: ScreenOutput,
    scenes: Map<Seq<char>, Scene>,
)
    requires
        !scenes.contains_key(arg.scene@),
    ensures
        technique.commands(&arg, &target, scenes) == Err::<Seq<Command>, ApplyError>(
            ApplyError::SceneNotFound,
        ),
{
}

/// When the factory creates what `FlatShading::builder` asks for, the
/// construction ends with a pipeline over triangle lists, back faces culled,
/// declared for the bindings of flat shading: one that `FlatShading::new`
/// accepts.
pub proof fn flat_shading_builder_builds_its_pipeline(handle: Pipeline)
    ensures
        FlatShading::spec_builder().after(Reply::Created(handle)).outcome() == Some(
            Ok::<PipelineState, PipelineError>(
                PipelineState {
                    handle,
                    descriptor: Descriptor {
                        shaders: ShaderSet::Simple(VERTEX_SRC, FLAT_FRAGMENT_SRC),
                        primitive: gfx::Primitive::TriangleList,
                        rasterizer: fill(gfx::state::CullFace::Back),
                        layout: Layout::Flat(flat::init()),
                    },
                },
            ),
        ),
{
}

/// When the factory compiles the three stages that `Wireframe::builder` asks
/// for, in the order vertex, geometry, pixel, and then creates the state
/// object, the construction ends with a pipeline over triangle lists, no face
/// culled, declared for the bindings of the wireframe: one that
/// `Wireframe::new` accepts.
pub proof fn wireframe_builder_builds_its_pipeline(handle: Pipeline)
    ensures
        Wireframe::spec_builder().after(Reply::Compiled).after(Reply::Compiled).after(
            Reply::Compiled,
        ).after(Reply::Created(handle)).outcome() == Some(
            Ok::<PipelineState, PipelineError>(
                PipelineState {
                    handle,
                    descriptor: Descriptor {
                        shaders: ShaderSet::Geometry(
                            VERTEX_SRC,
                            WIREFRAME_GEOMETRY_SRC,
                            FLAT_FRAGMENT_SRC,
                        ),
                        primitive: gfx::Primitive::TriangleList,
                        rasterizer: fill(gfx::state::CullFace::Nothing),
                        layout: Layout::Wireframe(wireframe::init()),
                    },
                },
            ),
        ),
{
}

/// Whatever flat shading records is a draw with the technique's pipeline and
/// with the bindings that this pipeline was declared for. A pipeline that
/// does not fit is turned away by `FlatShading::new`, so no draw ever meets
/// one.
pub proof fn flat_shading_draws_fit_its_pipeline(
    technique: FlatShading,
    arg: pass::FlatShading,
    target: ScreenOutput,
    scenes: Map<Seq<char>, Scene>,
    i: int,
)
    requires
        technique.wf(),
        technique.commands(&arg, &target, scenes) is Ok,
        0 <= i < technique.commands(&arg, &target, scenes)->Ok_0.len(),
    ensures
        technique.commands(&arg, &target, scenes)->Ok_0[i] is Draw,
        technique.commands(&arg, &target, scenes)->Ok_0[i]->pipeline == technique.state().handle,
        technique.commands(&arg, &target, scenes)->Ok_0[i]->bindings.fits(
            technique.state().descriptor.layout,
        ),
{
}

/// Whatever the wireframe records is a draw with the technique's pipeline
/// and with the bindings that this pipeline was declared for. A pipeline that
/// does not fit is turned away by `Wireframe::new`, so no draw ever meets one.
pub proof fn wireframe_draws_fit_its_pipeline(
    technique: Wireframe,
    arg: pass::Wireframe,
    target: ScreenOutput,
    scenes: Map<Seq<char>, Scene>,
    i: int,
)
    requires
        technique.wf(),
        technique.commands(&arg, &target, scenes) is Ok,
        0 <= i < technique.commands(&arg, &target, scenes)->Ok_0.len(),
    ensures
        technique.commands(&arg, &target, scenes)->Ok_0[i] is Draw,
        technique.commands(&arg, &target, scenes)->Ok_0[i]->pipeline == technique.state().handle,
        technique.commands(&arg, &target, scenes)->Ok_0[i]->bindings.fits(
            technique.state().descriptor.layout,
        ),
{
}

} // verus!
