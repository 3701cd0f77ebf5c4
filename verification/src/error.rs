//! Why there is no pipeline state object.
//!
//! A `gfx` factory reports failures in three types of its own: one for a
//! stage that it could not compile, one for a program, one for a state
//! object. They are brought together here in [`PipelineError`], which always
//! says which stage failed, where one did, and carries what the compiler or
//! linker said.
//!
//! The types of `gfx` that are taken apart here are declared with their
//! variants, which the verifier reads from `gfx` itself. The two that are only
//! passed over are declared without their contents.

use vstd::prelude::*;

verus! {

/// `gfx::core::shade::Stage`: a stage of a shader program.
#[verifier::external_type_specification]
pub struct ExStage(gfx::core::shade::Stage);

/// `gfx::core::shade::CreateShaderError`: why a stage was not compiled.
#[verifier::external_type_specification]
pub struct ExCreateShaderError(gfx::core::shade::CreateShaderError);

/// `gfx::shade::ProgramError`: why a vertex and a pixel stage did not become
/// a program.
#[verifier::external_type_specification]
pub struct ExProgramError(gfx::shade::ProgramError);

/// `gfx::format::Format`: the format of a surface. Nothing here looks into
/// one.
#[verifier::external_type_specification]
#[verifier::external_body]
pub struct ExFormat(gfx::format::Format);

/// `gfx::pso::InitError`: the part of a program that a pipeline's declaration
/// does not account for.
#[verifier::external_type_specification]
pub struct ExInitError(gfx::pso::InitError);

/// `gfx::core::pso::CreationError`: the device refused a state object.
#[verifier::external_type_specification]
#[verifier::external_body]
pub struct ExCreationError(gfx::core::pso::CreationError);

/// `gfx::PipelineStateError`: why a state object was not created.
#[verifier::external_type_specification]
pub struct ExPipelineStateError(gfx::PipelineStateError);

/// A stage of a shader program.
#[derive(Clone, Copy, Debug, PartialEq, Eq, Structural)]
pub enum ShaderStage {
    Vertex,
    Geometry,
    Pixel,
}

impl ShaderStage {
    /// The stage that `gfx` calls `stage`.
    pub open spec fn of(stage: gfx::core::shade::Stage) -> ShaderStage {
        match stage {
            gfx::core::shade::Stage::Vertex => ShaderStage::Vertex,
            gfx::core::shade::Stage::Geometry => ShaderStage::Geometry,
            gfx::core::shade::Stage::Pixel => ShaderStage::Pixel,
        }
    }

    /// The stage that `gfx` calls `stage`.
    pub fn from_gfx(stage: gfx::core::shade::Stage) -> (s: ShaderStage)
        ensures
            s == ShaderStage::of(stage),
    {
        match stage {
            gfx::core::shade::Stage::Vertex => ShaderStage::Vertex,
            gfx::core::shade::Stage::Geometry => ShaderStage::Geometry,
            gfx::core::shade::Stage::Pixel => ShaderStage::Pixel,
        }
    }
}

/// The part of a program that a pipeline's declaration does not account for,
/// by its slot or location in the program.
#[derive(Clone, Copy, Debug, PartialEq, Eq, Structural)]
pub enum Mismatch {
    VertexImport(u8),
    ConstantBuffer(u8),
    GlobalConstant(usize),
    ResourceView(u8),
    UnorderedView(u8),
    Sampler(u8),
    PixelExport(u8),
}

impl Mismatch {
    /// The mismatch that `gfx` reports as `error`.
    pub open spec fn of(error: gfx::pso::InitError) -> Mismatch {
        match error {
            gfx::pso::InitError::VertexImport(slot, _) => Mismatch::VertexImport(slot),
            gfx::pso::InitError::ConstantBuffer(slot, _) => Mismatch::ConstantBuffer(slot),
            gfx::pso::InitError::GlobalConstant(location, _) => Mismatch::GlobalConstant(location),
            gfx::pso::InitError::ResourceView(slot, _) => Mismatch::ResourceView(slot),
            gfx::pso::InitError::UnorderedView(slot, _) => Mismatch::UnorderedView(slot),
            gfx::pso::InitError::Sampler(slot, _) => Mismatch::Sampler(slot),
            gfx::pso::InitError::PixelExport(slot, _) => Mismatch::PixelExport(slot),
        }
    }

    /// The mismatch that `gfx` reports as `error`.
    pub fn from_gfx(error: gfx::pso::InitError) -> (mismatch: Mismatch)
        ensures
            mismatch == Mismatch::of(error),
    {
        match error {
            gfx::pso::InitError::VertexImport(slot, _) => Mismatch::VertexImport(slot),
            gfx::pso::InitError::ConstantBuffer(slot, _) => Mismatch::ConstantBuffer(slot),
            gfx::pso::InitError::GlobalConstant(location, _) => Mismatch::GlobalConstant(location),
            gfx::pso::InitError::ResourceView(slot, _) => Mismatch::ResourceView(slot),
            gfx::pso::InitError::UnorderedView(slot, _) => Mismatch::UnorderedView(slot),
            gfx::pso::InitError::Sampler(slot, _) => Mismatch::Sampler(slot),
            gfx::pso::InitError::PixelExport(slot, _) => Mismatch::PixelExport(slot),
        }
    }
}

/// Why there is no pipeline state object.
#[derive(Clone, Debug, PartialEq, Eq)]
pub enum PipelineError {
    /// The device does not support the shader model of the stage `stage`.
    ModelNotSupported { stage: ShaderStage },
    /// While it compiled the stage `stage`, the device reported that it does
    /// not support the stage `unsupported`.
    StageNotSupported { stage: ShaderStage, unsupported: ShaderStage },
    /// The stage did not compile; `log` is what the compiler said.
    Compile { stage: ShaderStage, log: String },
    /// The stages did not link; `log` is what the linker said.
    Link { log: String },
    /// The linked program and the declared layout do not fit together.
    Layout { mismatch: Mismatch },
    /// The device refused to create the state object.
    Device,
    /// The pipeline was declared for other bindings than the technique
    /// supplies with its draw calls.
    Incompatible,
}

impl PipelineError {
    /// The failure of the stage `stage` to compile, reported as `error`.
    pub open spec fn shader(stage: ShaderStage, error: gfx::core::shade::CreateShaderError) -> PipelineError {
        match error {
            gfx::core::shade::CreateShaderError::ModelNotSupported => PipelineError::ModelNotSupported {
                stage,
            },
            gfx::core::shade::CreateShaderError::StageNotSupported(unsupported) => {
                PipelineError::StageNotSupported { stage, unsupported: ShaderStage::of(unsupported) }
            },
            gfx::core::shade::CreateShaderError::CompilationFailed(log) => PipelineError::Compile {
                stage,
                log,
            },
        }
    }

    /// The failure to make a program, reported as `error`.
    pub open spec fn program(error: gfx::shade::ProgramError) -> PipelineError {
        match error {
            gfx::shade::ProgramError::Vertex(e) => Self::shader(ShaderStage::Vertex, e),
            gfx::shade::ProgramError::Pixel(e) => Self::shader(ShaderStage::Pixel, e),
            gfx::shade::ProgramError::Link(log) => PipelineError::Link { log },
        }
    }

    /// The failure to create a state object, reported as `error`.
    pub open spec fn state(error: gfx::PipelineStateError) -> PipelineError {
        match error {
            gfx::PipelineStateError::Program(e) => Self::program(e),
            gfx::PipelineStateError::DescriptorInit(e) => PipelineError::Layout {
                mismatch: Mismatch::of(e),
            },
            gfx::PipelineStateError::DeviceCreate(_) => PipelineError::Device,
        }
    }

    /// The failure of the stage `stage` to compile, reported as `error`.
    pub fn from_shader(stage: ShaderStage, error: gfx::core::shade::CreateShaderError) -> (e: PipelineError)
        ensures
            e == Self::shader(stage, error),
    {
        match error {
            gfx::core::shade::CreateShaderError::ModelNotSupported => PipelineError::ModelNotSupported {
                stage,
            },
            gfx::core::shade::CreateShaderError::StageNotSupported(unsupported) => {
                PipelineError::StageNotSupported { stage, unsupported: ShaderStage::from_gfx(unsupported) }
            },
            gfx::core::shade::CreateShaderError::CompilationFailed(log) => PipelineError::Compile {
                stage,
                log,
            },
        }
    }

    /// The failure to make a program, reported as `error`.
    pub fn from_program(error: gfx::shade::ProgramError) -> (e: PipelineError)
        ensures
            e == Self::program(error),
    {
        match error {
            gfx::shade::ProgramError::Vertex(e) => Self::from_shader(ShaderStage::Vertex, e),
            gfx::shade::ProgramError::Pixel(e) => Self::from_shader(ShaderStage::Pixel, e),
            gfx::shade::ProgramError::Link(log) => PipelineError::Link { log },
        }
    }

    /// The failure to create a state object, reported as `error`.
    pub fn from_state(error: gfx::PipelineStateError) -> (e: PipelineError)
        ensures
            e == Self::state(error),
    {
        match error {
            gfx::PipelineStateError::Program(e) => Self::from_program(e),
            gfx::PipelineStateError::DescriptorInit(e) => PipelineError::Layout {
                mismatch: Mismatch::from_gfx(e),
            },
            gfx::PipelineStateError::DeviceCreate(_) => PipelineError::Device,
        }
    }

    /// The stage that failed, where a single stage did.
    pub open spec fn spec_stage(&self) -> Option<ShaderStage> {
        match self {
            PipelineError::ModelNotSupported { stage } => Some(*stage),
            PipelineError::StageNotSupported { stage, .. } => Some(*stage),
            PipelineError::Compile { stage, .. } => Some(*stage),
            _ => None,
        }
    }

    /// The text of the compiler or linker, where there is one.
    pub open spec fn spec_diagnostic(&self) -> Option<Seq<char>> {
        match self {
            PipelineError::Compile { log, .. } => Some(log@),
            PipelineError::Link { log } => Some(log@),
            _ => None,
        }
    }

    /// The stage that failed, where a single stage did.
    pub fn stage(&self) -> (stage: Option<ShaderStage>)
        ensures
            stage == self.spec_stage(),
    {
        match self {
            PipelineError::ModelNotSupported { stage } => Some(*stage),
            PipelineError::StageNotSupported { stage, .. } => Some(*stage),
            PipelineError::Compile { stage, .. } => Some(*stage),
            _ => None,
        }
    }

    /// The text of the compiler or linker, where there is one.
    pub fn diagnostic(&self) -> (text: Option<&str>)
        ensures
            text is Some <==> self.spec_diagnostic() is Some,
            text matches Some(t) ==> Some(t@) == self.spec_diagnostic(),
    {
        match self {
            PipelineError::Compile { log, .. } => Some(log.as_str()),
            PipelineError::Link { log } => Some(log.as_str()),
            _ => None,
        }
    }
}

} // verus!
