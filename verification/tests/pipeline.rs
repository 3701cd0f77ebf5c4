use renderer::flat;
use renderer::forward;
use renderer::handle::Pipeline;
use renderer::error::{Mismatch, PipelineError, ShaderStage};
use renderer::pipeline::{Builder, Descriptor, Layout, PipelineState, Reply, Request, ShaderSet};
use renderer::shaders::{FLAT_FRAGMENT_SRC, VERTEX_SRC, WIREFRAME_GEOMETRY_SRC};
use renderer::wireframe;

use gfx::pso::InitError;
use gfx::shade::ProgramError;
use gfx::state::{Comparison, CullFace, Depth, FrontFace, RasterMethod, Rasterizer};
use gfx::PipelineStateError;

fn wire_layout() -> Layout {
    Layout::Wireframe(wireframe::new())
}

fn not_compiled(log: &str) -> gfx::core::shade::CreateShaderError {
    gfx::core::shade::CreateShaderError::CompilationFailed(log.to_string())
}

fn no_model() -> gfx::core::shade::CreateShaderError {
    gfx::core::shade::CreateShaderError::ModelNotSupported
}

fn no_stage(stage: gfx::core::shade::Stage) -> gfx::core::shade::CreateShaderError {
    gfx::core::shade::CreateShaderError::StageNotSupported(stage)
}

fn not_linked(log: &str) -> PipelineStateError {
    PipelineStateError::Program(ProgramError::Link(log.to_string()))
}

fn not_created() -> PipelineStateError {
    PipelineStateError::DeviceCreate(gfx::core::pso::CreationError)
}

#[test]
fn flat_pipeline_declares_its_uniforms_and_outputs() {
    let init = flat::new();
    assert_eq!(init.ka, "u_Ka");
    assert_eq!(init.model, "u_Model");
    assert_eq!(init.view, "u_View");
    assert_eq!(init.proj, "u_Proj");
    assert_eq!(init.out_ka, "o_Ka");
    assert_eq!(init.out_depth, Depth { fun: Comparison::LessEqual, write: true });
    assert_eq!(init.out_depth, gfx::preset::depth::LESS_EQUAL_WRITE);
}

#[test]
fn wireframe_pipeline_declares_its_uniforms_and_output() {
    let init = wireframe::new();
    assert_eq!(init.ka, "u_Ka");
    assert_eq!(init.model, "u_Model");
    assert_eq!(init.view, "u_View");
    assert_eq!(init.proj, "u_Proj");
    assert_eq!(init.out_ka, "o_Ka");
}

#[test]
fn shader_sets_list_their_stages_in_compile_order() {
    let simple = ShaderSet::Simple("v", "p");
    assert_eq!(simple.stage(0), Some((ShaderStage::Vertex, "v")));
    assert_eq!(simple.stage(1), Some((ShaderStage::Pixel, "p")));
    assert_eq!(simple.stage(2), None);
    let geometry = ShaderSet::Geometry("v", "g", "p");
    assert_eq!(geometry.stage(0), Some((ShaderStage::Vertex, "v")));
    assert_eq!(geometry.stage(1), Some((ShaderStage::Geometry, "g")));
    assert_eq!(geometry.stage(2), Some((ShaderStage::Pixel, "p")));
    assert_eq!(geometry.stage(3), None);
    assert_eq!(geometry.stage(usize::MAX), None);
}

#[test]
fn flat_shading_is_built_on_the_simple_path() {
    let builder = forward::FlatShading::builder();
    assert_eq!(
        builder.request(),
        Some(Request::CreateSimple {
            vs: VERTEX_SRC,
            ps: FLAT_FRAGMENT_SRC,
            cull: CullFace::Back,
            layout: Layout::Flat(flat::new()),
        })
    );
    let builder = builder.advance(Reply::Created(Pipeline(3)));
    assert_eq!(builder.request(), None);
    let pso = builder.finish().unwrap().unwrap();
    assert_eq!(pso.handle, Pipeline(3));
    assert_eq!(pso.descriptor.shaders, ShaderSet::Simple(VERTEX_SRC, FLAT_FRAGMENT_SRC));
    assert_eq!(pso.descriptor.primitive, gfx::Primitive::TriangleList);
    assert_eq!(
        pso.descriptor.rasterizer,
        Rasterizer {
            front_face: FrontFace::CounterClockwise,
            method: RasterMethod::Fill(CullFace::Back),
            offset: None,
            samples: None,
        }
    );
    assert_eq!(pso.descriptor.layout, Layout::Flat(flat::new()));
}

#[test]
fn simple_path_fills_with_the_cull_mode_it_was_given() {
    for cull in [CullFace::Nothing, CullFace::Front, CullFace::Back] {
        let builder = Builder::simple("v", "p", cull, wire_layout());
        let pso = builder.advance(Reply::Created(Pipeline(1))).finish().unwrap().unwrap();
        assert_eq!(pso.descriptor.rasterizer, Rasterizer::new_fill(cull));
        assert_eq!(pso.descriptor.rasterizer.method, RasterMethod::Fill(cull));
        assert_eq!(pso.descriptor.rasterizer.front_face, FrontFace::CounterClockwise);
        assert_eq!(pso.descriptor.rasterizer.offset, None);
        assert_eq!(pso.descriptor.rasterizer.samples, None);
    }
}

#[test]
fn wireframe_is_built_on_the_explicit_path() {
    let mut builder = forward::Wireframe::builder();
    let mut requests = Vec::new();
    while let Some(request) = builder.request() {
        requests.push(request);
        let reply = match request {
            Request::Compile { .. } => Reply::Compiled,
            _ => Reply::Created(Pipeline(8)),
        };
        builder = builder.advance(reply);
    }
    assert_eq!(
        requests,
        vec![
            Request::Compile { stage: ShaderStage::Vertex, source: VERTEX_SRC },
            Request::Compile { stage: ShaderStage::Geometry, source: WIREFRAME_GEOMETRY_SRC },
            Request::Compile { stage: ShaderStage::Pixel, source: FLAT_FRAGMENT_SRC },
            Request::CreateState {
                primitive: gfx::Primitive::TriangleList,
                rasterizer: Rasterizer {
                    front_face: FrontFace::CounterClockwise,
                    method: RasterMethod::Fill(CullFace::Nothing),
                    offset: None,
                    samples: None,
                },
                layout: Layout::Wireframe(wireframe::new()),
            },
        ]
    );
    assert_eq!(
        builder.finish(),
        Some(Ok(PipelineState {
            handle: Pipeline(8),
            descriptor: Descriptor {
                shaders: ShaderSet::Geometry(VERTEX_SRC, WIREFRAME_GEOMETRY_SRC, FLAT_FRAGMENT_SRC),
                primitive: gfx::Primitive::TriangleList,
                rasterizer: Rasterizer::new_fill(CullFace::Nothing),
                layout: Layout::Wireframe(wireframe::new()),
            },
        }))
    );
}

#[test]
fn explicit_path_without_geometry_stage_compiles_two_stages() {
    let mut builder = Builder::explicit(
        ShaderSet::Simple("v", "p"),
        gfx::Primitive::LineList,
        Rasterizer::new_fill(CullFace::Front),
        wire_layout(),
    );
    assert_eq!(builder.request(), Some(Request::Compile { stage: ShaderStage::Vertex, source: "v" }));
    builder = builder.advance(Reply::Compiled);
    assert_eq!(builder.request(), Some(Request::Compile { stage: ShaderStage::Pixel, source: "p" }));
    builder = builder.advance(Reply::Compiled);
    assert_eq!(
        builder.request(),
        Some(Request::CreateState {
            primitive: gfx::Primitive::LineList,
            rasterizer: Rasterizer::new_fill(CullFace::Front),
            layout: wire_layout(),
        })
    );
    builder = builder.advance(Reply::Created(Pipeline(1)));
    let pso = builder.finish().unwrap().unwrap();
    assert_eq!(pso.descriptor.primitive, gfx::Primitive::LineList);
    assert_eq!(pso.descriptor.shaders, ShaderSet::Simple("v", "p"));
}

#[test]
fn a_builder_with_a_pending_request_has_no_outcome() {
    assert_eq!(forward::FlatShading::builder().finish(), None);
    let builder = forward::Wireframe::builder().advance(Reply::Compiled);
    assert_eq!(builder.finish(), None);
}

#[test]
fn construction_stops_at_the_first_failure() {
    for failing in 0..4 {
        let mut builder = forward::Wireframe::builder();
        let mut asked = 0;
        while let Some(request) = builder.request() {
            let reply = match request {
                Request::Compile { .. } if asked == failing => {
                    Reply::CompileFailed(not_compiled(&format!("error in step {}", asked)))
                }
                Request::Compile { .. } => Reply::Compiled,
                _ if asked == failing => Reply::CreateFailed(not_linked("unresolved")),
                _ => Reply::Created(Pipeline(1)),
            };
            asked += 1;
            builder = builder.advance(reply);
        }
        assert_eq!(asked, failing + 1);
        let error = builder.finish().unwrap().unwrap_err();
        let expected = [
            PipelineError::Compile { stage: ShaderStage::Vertex, log: "error in step 0".to_string() },
            PipelineError::Compile { stage: ShaderStage::Geometry, log: "error in step 1".to_string() },
            PipelineError::Compile { stage: ShaderStage::Pixel, log: "error in step 2".to_string() },
            PipelineError::Link { log: "unresolved".to_string() },
        ];
        assert_eq!(error, expected[failing]);
        assert_eq!(forward::Wireframe::new(Err(error.clone())), Err(error));
    }
}

#[test]
fn simple_path_fails_with_what_the_factory_reports() {
    let reports = vec![
        (
            PipelineStateError::Program(ProgramError::Vertex(not_compiled("0:1: bad"))),
            PipelineError::Compile { stage: ShaderStage::Vertex, log: "0:1: bad".to_string() },
        ),
        (
            PipelineStateError::Program(ProgramError::Pixel(no_model())),
            PipelineError::ModelNotSupported { stage: ShaderStage::Pixel },
        ),
        (not_linked("no main"), PipelineError::Link { log: "no main".to_string() }),
        (
            PipelineStateError::DescriptorInit(InitError::PixelExport(0, None)),
            PipelineError::Layout { mismatch: Mismatch::PixelExport(0) },
        ),
        (not_created(), PipelineError::Device),
    ];
    for (report, error) in reports {
        let builder = forward::FlatShading::builder().advance(Reply::CreateFailed(report));
        assert_eq!(builder.request(), None);
        assert_eq!(builder.finish(), Some(Err(error.clone())));
        assert_eq!(forward::FlatShading::new(Err(error.clone())), Err(error));
    }
}

#[test]
fn a_stage_that_does_not_compile_is_named() {
    let at_geometry = forward::Wireframe::builder().advance(Reply::Compiled);
    let failed =
        at_geometry.advance(Reply::CompileFailed(no_stage(gfx::core::shade::Stage::Geometry)));
    assert_eq!(
        failed,
        Builder::Failed(PipelineError::StageNotSupported {
            stage: ShaderStage::Geometry,
            unsupported: ShaderStage::Geometry,
        })
    );
    let failed = forward::Wireframe::builder().advance(Reply::CompileFailed(no_model()));
    assert_eq!(
        failed.finish(),
        Some(Err(PipelineError::ModelNotSupported { stage: ShaderStage::Vertex }))
    );
}

#[test]
fn shader_failures_keep_their_stage_and_text() {
    assert_eq!(
        PipelineError::from_shader(ShaderStage::Geometry, no_model()),
        PipelineError::ModelNotSupported { stage: ShaderStage::Geometry }
    );
    assert_eq!(
        PipelineError::from_shader(ShaderStage::Vertex, no_stage(gfx::core::shade::Stage::Pixel)),
        PipelineError::StageNotSupported { stage: ShaderStage::Vertex, unsupported: ShaderStage::Pixel }
    );
    assert_eq!(
        PipelineError::from_shader(ShaderStage::Pixel, not_compiled("0:7: 'o_Ka' undeclared")),
        PipelineError::Compile { stage: ShaderStage::Pixel, log: "0:7: 'o_Ka' undeclared".to_string() }
    );
}

#[test]
fn program_failures_name_the_stage_of_the_program() {
    assert_eq!(
        PipelineError::from_program(ProgramError::Vertex(no_model())),
        PipelineError::ModelNotSupported { stage: ShaderStage::Vertex }
    );
    assert_eq!(
        PipelineError::from_program(ProgramError::Pixel(not_compiled("x"))),
        PipelineError::Compile { stage: ShaderStage::Pixel, log: "x".to_string() }
    );
    assert_eq!(
        PipelineError::from_program(ProgramError::Link("y".to_string())),
        PipelineError::Link { log: "y".to_string() }
    );
}

#[test]
fn state_failures_are_told_apart() {
    assert_eq!(
        PipelineError::from_state(not_linked("z")),
        PipelineError::Link { log: "z".to_string() }
    );
    assert_eq!(
        PipelineError::from_state(PipelineStateError::Program(ProgramError::Vertex(no_model()))),
        PipelineError::ModelNotSupported { stage: ShaderStage::Vertex }
    );
    assert_eq!(PipelineError::from_state(not_created()), PipelineError::Device);
    let format =
        gfx::format::Format(gfx::format::SurfaceType::R8_G8_B8_A8, gfx::format::ChannelType::Unorm);
    let mismatches = vec![
        (InitError::VertexImport(1, Some(format)), Mismatch::VertexImport(1)),
        (InitError::VertexImport(2, None), Mismatch::VertexImport(2)),
        (InitError::ConstantBuffer(3, None), Mismatch::ConstantBuffer(3)),
        (InitError::GlobalConstant(40, Some(())), Mismatch::GlobalConstant(40)),
        (InitError::ResourceView(5, None), Mismatch::ResourceView(5)),
        (InitError::UnorderedView(6, None), Mismatch::UnorderedView(6)),
        (InitError::Sampler(7, None), Mismatch::Sampler(7)),
        (InitError::PixelExport(0, Some(format)), Mismatch::PixelExport(0)),
    ];
    for (reported, mismatch) in mismatches {
        assert_eq!(Mismatch::from_gfx(reported.clone()), mismatch);
        assert_eq!(
            PipelineError::from_state(PipelineStateError::DescriptorInit(reported)),
            PipelineError::Layout { mismatch }
        );
    }
}

#[test]
fn stages_are_named_as_gfx_names_them() {
    assert_eq!(ShaderStage::from_gfx(gfx::core::shade::Stage::Vertex), ShaderStage::Vertex);
    assert_eq!(ShaderStage::from_gfx(gfx::core::shade::Stage::Geometry), ShaderStage::Geometry);
    assert_eq!(ShaderStage::from_gfx(gfx::core::shade::Stage::Pixel), ShaderStage::Pixel);
}

#[test]
fn answers_that_do_not_belong_are_ignored() {
    let start = forward::Wireframe::builder();
    let same = forward::Wireframe::builder().advance(Reply::Created(Pipeline(1)));
    assert_eq!(start, same);

    let mut at_create = forward::Wireframe::builder();
    for _ in 0..3 {
        at_create = at_create.advance(Reply::Compiled);
    }
    let request = at_create.request();
    let still = at_create.advance(Reply::Compiled);
    assert_eq!(still.request(), request);
    assert!(matches!(request, Some(Request::CreateState { .. })));

    let refused = still.advance(Reply::CompileFailed(no_model()));
    assert_eq!(refused.request(), request);

    let simple = forward::FlatShading::builder()
        .advance(Reply::Compiled)
        .advance(Reply::CompileFailed(no_model()));
    assert_eq!(simple, forward::FlatShading::builder());

    let compiling = forward::Wireframe::builder()
        .advance(Reply::CreateFailed(not_created()));
    assert_eq!(compiling, forward::Wireframe::builder());
}

#[test]
fn an_ended_construction_stays_ended() {
    let built = forward::FlatShading::builder().advance(Reply::Created(Pipeline(1)));
    let pso = PipelineState {
        handle: Pipeline(1),
        descriptor: Descriptor {
            shaders: ShaderSet::Simple(VERTEX_SRC, FLAT_FRAGMENT_SRC),
            primitive: gfx::Primitive::TriangleList,
            rasterizer: Rasterizer::new_fill(CullFace::Back),
            layout: Layout::Flat(flat::new()),
        },
    };
    assert_eq!(built, Builder::Built(pso));
    let built = built
        .advance(Reply::CreateFailed(not_created()))
        .advance(Reply::Created(Pipeline(2)))
        .advance(Reply::CompileFailed(no_model()))
        .advance(Reply::Compiled);
    assert_eq!(built, Builder::Built(pso));

    let failed = forward::FlatShading::builder()
        .advance(Reply::CreateFailed(not_created()));
    let failed = failed
        .advance(Reply::Created(Pipeline(2)))
        .advance(Reply::CreateFailed(not_linked("l")))
        .advance(Reply::Compiled);
    assert_eq!(failed, Builder::Failed(PipelineError::Device));
}

#[test]
fn errors_name_their_stage_and_carry_the_diagnostic() {
    let compile = PipelineError::Compile { stage: ShaderStage::Geometry, log: "0:12: 'gl_in' undeclared".to_string() };
    assert_eq!(compile.stage(), Some(ShaderStage::Geometry));
    assert_eq!(compile.diagnostic(), Some("0:12: 'gl_in' undeclared"));

    let link = PipelineError::Link { log: "missing main".to_string() };
    assert_eq!(link.stage(), None);
    assert_eq!(link.diagnostic(), Some("missing main"));

    let model = PipelineError::ModelNotSupported { stage: ShaderStage::Vertex };
    assert_eq!(model.stage(), Some(ShaderStage::Vertex));
    assert_eq!(model.diagnostic(), None);

    let unsupported =
        PipelineError::StageNotSupported { stage: ShaderStage::Pixel, unsupported: ShaderStage::Pixel };
    assert_eq!(unsupported.stage(), Some(ShaderStage::Pixel));
    assert_eq!(unsupported.diagnostic(), None);

    for other in [
        PipelineError::Layout { mismatch: Mismatch::Sampler(1) },
        PipelineError::Device,
        PipelineError::Incompatible,
    ] {
        assert_eq!(other.stage(), None);
        assert_eq!(other.diagnostic(), None);
    }
}
