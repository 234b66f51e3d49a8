//! Shader objects.
//!
//! Compiling a shader is the build protocol of [`crate::protocol`]: the
//! driver runs the steps that [`Shader::compile`] starts and hands the outcome
//! to [`Shader::from_build`].

use vstd::prelude::*;
use vstd::std_specs::convert::FromSpecImpl;
use vstd::string::StringExecFns;

use crate::call::{GlCall, GlOp};
use crate::glenum;
use crate::handle::{owned, GpuResource, Handle};
use crate::info_log::{log_start, InfoLogRead, LogStep, LogStepModel, ObjectKind};
use crate::protocol::{start_step, BuildOutcome, BuildStep, BuildTarget, ObjectBuild, OutcomeModel, StepModel, TargetModel};

verus! {

/// Shader compilation errors.
#[derive(Debug, Clone)]
pub enum ShaderError {
    /// Failed to create shader object.
    NoShader,
    /// Shader compilation failed with the given info log.
    CompileError(String),
}

/// The text of a shader error as it displays.
pub open spec fn shader_error_text(e: ShaderError) -> Seq<char> {
    match e {
        ShaderError::NoShader => "Failed to create shader object"@,
        ShaderError::CompileError(log) => "Shader compilation failed:\n"@ + log@,
    }
}

impl ShaderError {
    /// The error as it displays.
    pub fn to_string(&self) -> (s: String)
        ensures
            s@ == shader_error_text(*self),
    {
        match self {
            ShaderError::NoShader => String::from_str("Failed to create shader object"),
            ShaderError::CompileError(log) => {
                let mut s = String::from_str("Shader compilation failed:\n");
                s.append(log.as_str());
                s
            },
        }
    }
}

/// Type of shader.
#[derive(Debug, Clone, Copy, PartialEq, Eq, Hash, Structural)]
pub enum ShaderType {
    /// Vertex shader.
    Vertex,
    /// Fragment shader.
    Fragment,
}

/// The GL enumerant of a shader type.
pub open spec fn shader_type_enum(t: ShaderType) -> u32 {
    match t {
        ShaderType::Vertex => glenum::VERTEX_SHADER,
        ShaderType::Fragment => glenum::FRAGMENT_SHADER,
    }
}

impl ShaderType {
    /// The GL enumerant of this shader type.
    pub fn gl_enum(&self) -> (e: u32)
        ensures
            e == shader_type_enum(*self),
    {
        match self {
            ShaderType::Vertex => glenum::VERTEX_SHADER,
            ShaderType::Fragment => glenum::FRAGMENT_SHADER,
        }
    }
}

impl From<ShaderType> for u32 {
    fn from(t: ShaderType) -> (e: u32) {
        t.gl_enum()
    }
}

impl FromSpecImpl<ShaderType> for u32 {
    open spec fn obeys_from_spec() -> bool {
        true
    }

    open spec fn from_spec(t: ShaderType) -> u32 {
        shader_type_enum(t)
    }
}

/// Distinct shader types have distinct GL enumerants.
pub proof fn lemma_shader_type_enum_injective(a: ShaderType, b: ShaderType)
    ensures
        shader_type_enum(a) == shader_type_enum(b) <==> a == b,
{
}

/// Marker type for shader resources.
#[derive(Debug)]
pub struct ShaderResource;

impl GpuResource for ShaderResource {
    type Id = u32;

    fn is_null(id: u32) -> (b: bool)
        ensures
            b == (id == 0),
    {
        id == 0
    }

    fn resource_name() -> (s: &'static str)
        ensures
            s@ == "Shader"@,
    {
        "Shader"
    }
}

/// A compiled shader object.
///
/// Deleting it when it is dropped is the driver's part, through
/// [`Shader::release`].
#[derive(Debug)]
pub struct Shader {
    handle: Handle<ShaderResource>,
    shader_type: ShaderType,
}

impl View for Shader {
    type V = (Option<u32>, ShaderType);

    /// The id the shader owns, if any, and its type.
    closed spec fn view(&self) -> (Option<u32>, ShaderType) {
        (self.handle@, self.shader_type)
    }
}

impl Shader {
    /// Starts compiling `source` into a shader of type `shader_type`.
    pub fn compile(source: &str, shader_type: ShaderType) -> (step: BuildStep)
        ensures
            step.deep_view() == start_step(
                TargetModel::Shader { shader_type: shader_type_enum(shader_type), source: source@ },
            ),
    {
        ObjectBuild::start(BuildTarget::Shader { shader_type: shader_type.gl_enum(), source: source.to_owned() })
    }

    /// The result of a finished compile: the shader that owns the id built,
    /// or the error.
    pub fn from_build(outcome: BuildOutcome, shader_type: ShaderType) -> (r: Result<Shader, ShaderError>)
        ensures
            outcome.deep_view() matches OutcomeModel::Built(id) ==> (r matches Ok(s) && s@ == (owned(id), shader_type)),
            outcome.deep_view() is NoObject ==> r matches Err(ShaderError::NoShader),
            outcome.deep_view() matches OutcomeModel::Failed(log) ==> (r matches Err(ShaderError::CompileError(l)) && l@ == log),
    {
        match outcome {
            BuildOutcome::Built(id) => Ok(Shader { handle: Handle::from_raw(id), shader_type }),
            BuildOutcome::NoObject => Err(ShaderError::NoShader),
            BuildOutcome::Failed(log) => Err(ShaderError::CompileError(log)),
        }
    }

    /// The shader type.
    pub fn shader_type(&self) -> (t: ShaderType)
        ensures
            t == self@.1,
    {
        self.shader_type
    }

    /// The raw OpenGL shader id; `None` if the shader is invalid.
    pub fn id(&self) -> (r: Option<u32>)
        ensures
            r == self@.0,
    {
        self.handle.id()
    }

    /// The raw OpenGL shader id of a valid shader.
    pub fn id_unwrap(&self) -> (r: u32)
        requires
            self@.0 is Some,
        ensures
            r == self@.0->0,
    {
        self.handle.id_unwrap()
    }

    /// Whether this shader is valid.
    pub fn is_valid(&self) -> (b: bool)
        ensures
            b == (self@.0 is Some),
    {
        self.handle.is_valid()
    }

    /// Gives up ownership of the id: the caller now deletes the shader.
    pub fn into_raw(self) -> (r: Option<u32>)
        ensures
            r == self@.0,
    {
        self.handle.into_raw()
    }

    /// What dropping the shader does: the call that deletes it, if it is
    /// valid; the shader becomes invalid.
    pub fn release(&mut self) -> (c: Option<GlCall>)
        ensures
            final(self)@ == (None::<u32>, old(self)@.1),
            c matches Some(c) ==> old(self)@.0 matches Some(id) && c.deep_view() == (GlOp::DeleteShader { shader: id }),
            c is None ==> old(self)@.0 is None,
    {
        match self.handle.release() {
            Some(id) => Some(GlCall::DeleteShader { shader: id }),
            None => None,
        }
    }

    /// Starts reading the shader's info log; an invalid shader has an empty log.
    pub fn info_log(&self) -> (step: LogStep)
        ensures
            self@.0 matches Some(id) ==> step.deep_view() == log_start(ObjectKind::Shader, id),
            self@.0 is None ==> step.deep_view() == LogStepModel::Done(Seq::<char>::empty()),
    {
        match self.handle.id() {
            Some(id) => InfoLogRead::start(ObjectKind::Shader, id),
            None => LogStep::Done(String::new()),
        }
    }
}

/// A shader id without ownership (the older API).
#[derive(Clone, Copy, PartialEq, Eq, Default)]
pub struct LegacyShader(pub u32);

/// The shader type that a GL enumerant names, if any.
pub open spec fn shader_type_of(typ: u32) -> Option<ShaderType> {
    if typ == glenum::VERTEX_SHADER {
        Some(ShaderType::Vertex)
    } else if typ == glenum::FRAGMENT_SHADER {
        Some(ShaderType::Fragment)
    } else {
        None
    }
}

/// Starts compiling `source` as a shader of GL type `typ`; a type that is
/// neither vertex nor fragment fails at once with `NoShader`.
pub fn load_shader(source: &str, typ: u32) -> (r: Result<BuildStep, ShaderError>)
    ensures
        shader_type_of(typ) matches Some(t) ==> (r matches Ok(step) && step.deep_view() == start_step(
            TargetModel::Shader { shader_type: typ, source: source@ },
        )),
        shader_type_of(typ) is None ==> r matches Err(ShaderError::NoShader),
{
    let shader_type = if typ == glenum::VERTEX_SHADER {
        ShaderType::Vertex
    } else if typ == glenum::FRAGMENT_SHADER {
        ShaderType::Fragment
    } else {
        return Err(ShaderError::NoShader);
    };
    Ok(Shader::compile(source, shader_type))
}

/// Loading accepts exactly the two shader types: for `GL_VERTEX_SHADER` and
/// `GL_FRAGMENT_SHADER` it starts a build whose one first call creates a
/// shader of that very type, the source kept for compiling; for any other
/// type it fails with `NoShader` and starts nothing.
pub proof fn law_load_shader_types(source: &str, typ: u32, r: Result<BuildStep, ShaderError>)
    requires
        call_ensures(load_shader, (source, typ), r),
    ensures
        r is Ok <==> (typ == glenum::VERTEX_SHADER || typ == glenum::FRAGMENT_SHADER),
        r is Err ==> r matches Err(ShaderError::NoShader),
        r matches Ok(step) ==> (step.deep_view() matches StepModel::Query { calls, next }
            && calls == seq![GlOp::CreateShader { shader_type: typ }]
            && next.target == (TargetModel::Shader { shader_type: typ, source: source@ })),
{
}

/// Compiling starts with one call, which creates a shader of the GL type of
/// `shader_type`: `GL_VERTEX_SHADER` for a vertex shader, `GL_FRAGMENT_SHADER`
/// for a fragment shader.
pub proof fn law_compile_creates_type(source: &str, shader_type: ShaderType, step: BuildStep)
    requires
        call_ensures(Shader::compile, (source, shader_type), step),
    ensures
        step.deep_view() matches StepModel::Query { calls, next } && calls.len() == 1
            && (shader_type == ShaderType::Vertex ==> calls[0] == (GlOp::CreateShader { shader_type: glenum::VERTEX_SHADER }))
            && (shader_type == ShaderType::Fragment ==> calls[0] == (GlOp::CreateShader { shader_type: glenum::FRAGMENT_SHADER }))
            && (next.target matches TargetModel::Shader { source: src, .. } && src == source@),
{
}

/// A finished compile gives a shader that owns the id built, of the type
/// asked for (an id of 0 gives the null shader); a build with no object gives
/// `NoShader`, and a failed one the compile error with its log.
pub proof fn law_shader_from_build(outcome: BuildOutcome, shader_type: ShaderType, r: Result<Shader, ShaderError>)
    requires
        call_ensures(Shader::from_build, (outcome, shader_type), r),
    ensures
        outcome.deep_view() matches OutcomeModel::Built(id) ==> (r matches Ok(s) && s@.1 == shader_type
            && (id != 0 ==> s@.0 == Some(id)) && (id == 0 ==> s@.0 is None)),
        outcome.deep_view() is NoObject ==> r matches Err(ShaderError::NoShader),
        outcome.deep_view() matches OutcomeModel::Failed(log) ==> (r matches Err(ShaderError::CompileError(l)) && l@ == log),
{
}

/// Reading the log of a valid shader starts with the `GL_INFO_LOG_LENGTH`
/// query of that shader; an invalid shader has an empty log and no call.
pub proof fn law_shader_log_start(s: Shader, step: LogStep)
    requires
        call_ensures(Shader::info_log, (&s,), step),
    ensures
        s@.0 matches Some(id) ==> (step.deep_view() matches LogStepModel::Query { call, .. }
            && call == (GlOp::GetShaderiv { shader: id, pname: glenum::INFO_LOG_LENGTH })),
        s@.0 is None ==> step.deep_view() == LogStepModel::Done(seq![]),
{
}

impl LegacyShader {
    /// The result of a finished [`load_shader`]: the id built, or the error.
    pub fn from_build(outcome: BuildOutcome) -> (r: Result<LegacyShader, ShaderError>)
        ensures
            outcome.deep_view() matches OutcomeModel::Built(id) ==> r == Ok::<LegacyShader, ShaderError>(LegacyShader(id)),
            outcome.deep_view() is NoObject ==> r matches Err(ShaderError::NoShader),
            outcome.deep_view() matches OutcomeModel::Failed(log) ==> (r matches Err(ShaderError::CompileError(l)) && l@ == log),
    {
        match outcome {
            BuildOutcome::Built(id) => Ok(LegacyShader(id)),
            BuildOutcome::NoObject => Err(ShaderError::NoShader),
            BuildOutcome::Failed(log) => Err(ShaderError::CompileError(log)),
        }
    }

    /// The call that deletes the shader.
    pub fn delete(&self) -> (c: GlCall)
        ensures
            c.deep_view() == (GlOp::DeleteShader { shader: self.0 }),
    {
        GlCall::DeleteShader { shader: self.0 }
    }

    /// Whether this is the null shader.
    pub fn is_null(&self) -> (b: bool)
        ensures
            b == (self.0 == 0),
    {
        self.0 == 0
    }
}

impl From<LegacyShader> for u32 {
    fn from(s: LegacyShader) -> (r: u32) {
        s.0
    }
}

impl FromSpecImpl<LegacyShader> for u32 {
    open spec fn obeys_from_spec() -> bool {
        true
    }

    open spec fn from_spec(s: LegacyShader) -> u32 {
        s.0
    }
}

} // verus!
