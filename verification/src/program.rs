//! Shader program objects.
//!
//! Linking a program is the build protocol of [`crate::protocol`]: the driver
//! runs the steps that [`Program::link`] starts and hands the outcome to
//! [`Program::from_build`].

use vstd::prelude::*;
use vstd::std_specs::convert::FromSpecImpl;
use vstd::string::StringExecFns;

use crate::attribute::{attribute_table_from, attribute_table_result, AttributeTable, MissingAttributes};
use crate::call::{GlCall, GlOp};
use crate::glenum;
use crate::handle::{owned, GpuResource, Handle};
use crate::info_log::{log_start, InfoLogRead, LogStep, LogStepModel, ObjectKind};
use crate::names::has_nul;
use crate::protocol::{start_step, BuildOutcome, BuildStep, BuildTarget, ObjectBuild, OutcomeModel, TargetModel};
use crate::shader::{LegacyShader, Shader};
use crate::uniforms::{uniform_table_from, uniform_table_result, MissingUniforms, UniformTable};

verus! {

/// Program linking errors.
#[derive(Debug, Clone)]
pub enum ProgramError {
    /// Failed to create program object.
    NoProgram,
    /// Program linking failed with the given info log.
    LinkError(String),
}

/// The text of a program error as it displays.
pub open spec fn program_error_text(e: ProgramError) -> Seq<char> {
    match e {
        ProgramError::NoProgram => "Failed to create program object"@,
        ProgramError::LinkError(log) => "Program linking failed:\n"@ + log@,
    }
}

impl ProgramError {
    /// The error as it displays.
    pub fn to_string(&self) -> (s: String)
        ensures
            s@ == program_error_text(*self),
    {
        match self {
            ProgramError::NoProgram => String::from_str("Failed to create program object"),
            ProgramError::LinkError(log) => {
                let mut s = String::from_str("Program linking failed:\n");
                s.append(log.as_str());
                s
            },
        }
    }
}

/// Marker type for program resources.
#[derive(Debug)]
pub struct ProgramResource;

impl GpuResource for ProgramResource {
    type Id = u32;

    fn is_null(id: u32) -> (b: bool)
        ensures
            b == (id == 0),
    {
        id == 0
    }

    fn resource_name() -> (s: &'static str)
        ensures
            s@ == "Program"@,
    {
        "Program"
    }
}

/// The query of a vertex attribute's location by name in program `id`.
pub open spec fn attrib_location_op(id: u32, name: Seq<char>) -> GlOp {
    GlOp::GetAttribLocation { program: id, name }
}

/// The query of a uniform's location by name in program `id`.
pub open spec fn uniform_location_op(id: u32, name: Seq<char>) -> GlOp {
    GlOp::GetUniformLocation { program: id, name }
}

/// A linked shader program.
///
/// Deleting it when it is dropped is the driver's part, through
/// [`Program::release`].
#[derive(Debug)]
pub struct Program(Handle<ProgramResource>);

impl View for Program {
    type V = Option<u32>;

    /// The id the program owns, if any.
    closed spec fn view(&self) -> Option<u32> {
        self.0@
    }
}

impl Program {
    /// Starts linking a program from a vertex and a fragment shader, both valid.
    pub fn link(vert: &Shader, frag: &Shader) -> (step: BuildStep)
        requires
            vert@.0 is Some,
            frag@.0 is Some,
        ensures
            step.deep_view() == start_step(
                TargetModel::Program { vert: vert@.0->0, frag: frag@.0->0 },
            ),
    {
        ObjectBuild::start(BuildTarget::Program { vert: vert.id_unwrap(), frag: frag.id_unwrap() })
    }

    /// The result of a finished link: the program that owns the id built, or
    /// the error.
    pub fn from_build(outcome: BuildOutcome) -> (r: Result<Program, ProgramError>)
        ensures
            outcome.deep_view() matches OutcomeModel::Built(id) ==> (r matches Ok(p) && p@ == owned(id)),
            outcome.deep_view() is NoObject ==> r matches Err(ProgramError::NoProgram),
            outcome.deep_view() matches OutcomeModel::Failed(log) ==> (r matches Err(ProgramError::LinkError(l)) && l@ == log),
    {
        match outcome {
            BuildOutcome::Built(id) => Ok(Program(Handle::from_raw(id))),
            BuildOutcome::NoObject => Err(ProgramError::NoProgram),
            BuildOutcome::Failed(log) => Err(ProgramError::LinkError(log)),
        }
    }

    /// Takes ownership of a raw program id; id 0 gives an invalid program.
    pub fn from_raw(id: u32) -> (p: Program)
        ensures
            p@ == owned(id),
    {
        Program(Handle::from_raw(id))
    }

    /// The raw OpenGL program id; `None` if the program is invalid.
    pub fn id(&self) -> (r: Option<u32>)
        ensures
            r == self@,
    {
        self.0.id()
    }

    /// The raw OpenGL program id of a valid program.
    pub fn id_unwrap(&self) -> (r: u32)
        requires
            self@ is Some,
        ensures
            r == self@->0,
    {
        self.0.id_unwrap()
    }

    /// Whether this program is valid.
    pub fn is_valid(&self) -> (b: bool)
        ensures
            b == (self@ is Some),
    {
        self.0.is_valid()
    }

    /// Gives up ownership of the id: the caller now deletes the program.
    pub fn into_raw(self) -> (r: Option<u32>)
        ensures
            r == self@,
    {
        self.0.into_raw()
    }

    /// What dropping the program does: the call that deletes it, if it is
    /// valid; the program becomes invalid.
    pub fn release(&mut self) -> (c: Option<GlCall>)
        ensures
            final(self)@ is None,
            c matches Some(c) ==> old(self)@ matches Some(id) && c.deep_view() == (GlOp::DeleteProgram { program: id }),
            c is None ==> old(self)@ is None,
    {
        match self.0.release() {
            Some(id) => Some(GlCall::DeleteProgram { program: id }),
            None => None,
        }
    }

    /// The call that uses this program for rendering; none for an invalid program.
    pub fn use_program(&self) -> (c: Option<GlCall>)
        ensures
            self@ matches Some(id) ==> (c matches Some(c) && c.deep_view() == (GlOp::UseProgram { program: id })),
            self@ is None ==> c is None,
    {
        match self.0.id() {
            Some(id) => Some(GlCall::UseProgram { program: id }),
            None => None,
        }
    }

    /// Same as [`Self::use_program`].
    pub fn use_me(&self) -> (c: Option<GlCall>)
        ensures
            self@ matches Some(id) ==> (c matches Some(c) && c.deep_view() == (GlOp::UseProgram { program: id })),
            self@ is None ==> c is None,
    {
        self.use_program()
    }

    /// The query of the location of vertex attribute `name`. `None` means
    /// the location is -1 without asking the GL: the program is invalid or
    /// the name holds a NUL character.
    pub fn get_attrib_location(&self, name: &str) -> (c: Option<GlCall>)
        ensures
            (self@ is None || name@.contains('\0')) ==> c is None,
            self@ matches Some(id) ==> (!name@.contains('\0') ==> (c matches Some(c) && c.deep_view()
                == attrib_location_op(id, name@))),
    {
        let id = match self.0.id() {
            Some(id) => id,
            None => return None,
        };
        if has_nul(name) {
            return None;
        }
        Some(GlCall::GetAttribLocation { program: id, name: name.to_owned() })
    }

    /// The query of the location of uniform `name`. `None` means the location
    /// is -1 without asking the GL: the program is invalid or the name holds
    /// a NUL character.
    pub fn get_uniform_location(&self, name: &str) -> (c: Option<GlCall>)
        ensures
            (self@ is None || name@.contains('\0')) ==> c is None,
            self@ matches Some(id) ==> (!name@.contains('\0') ==> (c matches Some(c) && c.deep_view()
                == uniform_location_op(id, name@))),
    {
        let id = match self.0.id() {
            Some(id) => id,
            None => return None,
        };
        if has_nul(name) {
            return None;
        }
        Some(GlCall::GetUniformLocation { program: id, name: name.to_owned() })
    }

    /// The uniform table `T` of this program, from the locations of its
    /// uniforms in declaration order.
    pub fn get_uniform_table<T: UniformTable>(&self, locations: &Vec<i32>) -> (r: Result<T, MissingUniforms>)
        ensures
            uniform_table_result(locations@, r),
    {
        uniform_table_from(locations)
    }

    /// The attribute table `T` of this program, from the locations of its
    /// attributes in declaration order.
    pub fn get_attribute_table<T: AttributeTable>(&self, locations: &Vec<i32>) -> (r: Result<T, MissingAttributes>)
        ensures
            attribute_table_result(locations@, r),
    {
        attribute_table_from(locations)
    }

    /// Starts reading the program's info log; an invalid program has an empty log.
    pub fn info_log(&self) -> (step: LogStep)
        ensures
            self@ matches Some(id) ==> step.deep_view() == log_start(ObjectKind::Program, id),
            self@ is None ==> step.deep_view() == LogStepModel::Done(Seq::<char>::empty()),
    {
        match self.0.id() {
            Some(id) => InfoLogRead::start(ObjectKind::Program, id),
            None => LogStep::Done(String::new()),
        }
    }
}

/// Starts linking a program from two shader ids (the older API).
pub fn link_program(vert: LegacyShader, frag: LegacyShader) -> (step: BuildStep)
    ensures
        step.deep_view() == start_step(TargetModel::Program { vert: vert.0, frag: frag.0 }),
{
    ObjectBuild::start(BuildTarget::Program { vert: vert.0, frag: frag.0 })
}

/// A program id without ownership (the older API).
#[derive(Clone, Copy, PartialEq, Eq, Default)]
pub struct LegacyProgram(pub u32);

impl LegacyProgram {
    /// The result of a finished [`link_program`]: the id built, or the error.
    pub fn from_build(outcome: BuildOutcome) -> (r: Result<LegacyProgram, ProgramError>)
        ensures
            outcome.deep_view() matches OutcomeModel::Built(id) ==> r == Ok::<LegacyProgram, ProgramError>(LegacyProgram(id)),
            outcome.deep_view() is NoObject ==> r matches Err(ProgramError::NoProgram),
            outcome.deep_view() matches OutcomeModel::Failed(log) ==> (r matches Err(ProgramError::LinkError(l)) && l@ == log),
    {
        match outcome {
            BuildOutcome::Built(id) => Ok(LegacyProgram(id)),
            BuildOutcome::NoObject => Err(ProgramError::NoProgram),
            BuildOutcome::Failed(log) => Err(ProgramError::LinkError(log)),
        }
    }

    /// The call that uses this program.
    pub fn use_me(&self) -> (c: GlCall)
        ensures
            c.deep_view() == (GlOp::UseProgram { program: self.0 }),
    {
        GlCall::UseProgram { program: self.0 }
    }

    /// The call that deletes the program.
    pub fn delete(&self) -> (c: GlCall)
        ensures
            c.deep_view() == (GlOp::DeleteProgram { program: self.0 }),
    {
        GlCall::DeleteProgram { program: self.0 }
    }

    /// The query of the location of vertex attribute `attrib`, a name
    /// without NUL characters.
    pub fn get_attrib_location(&self, attrib: &str) -> (c: GlCall)
        requires
            !attrib@.contains('\0'),
        ensures
            c.deep_view() == attrib_location_op(self.0, attrib@),
    {
        GlCall::GetAttribLocation { program: self.0, name: attrib.to_owned() }
    }

    /// The query of the location of uniform `uniform`, a name without NUL
    /// characters.
    pub fn get_uniform_location(&self, uniform: &str) -> (c: GlCall)
        requires
            !uniform@.contains('\0'),
        ensures
            c.deep_view() == uniform_location_op(self.0, uniform@),
    {
        GlCall::GetUniformLocation { program: self.0, name: uniform.to_owned() }
    }

    /// The uniform table `T` of this program, from the locations of its
    /// uniforms in declaration order.
    pub fn get_uniform_table<T: UniformTable>(&self, locations: &Vec<i32>) -> (r: Result<T, MissingUniforms>)
        ensures
            uniform_table_result(locations@, r),
    {
        uniform_table_from(locations)
    }

    /// The attribute table `T` of this program, from the locations of its
    /// attributes in declaration order.
    pub fn get_attribute_table<T: AttributeTable>(&self, locations: &Vec<i32>) -> (r: Result<T, MissingAttributes>)
        ensures
            attribute_table_result(locations@, r),
    {
        attribute_table_from(locations)
    }
}

impl From<LegacyProgram> for u32 {
    fn from(p: LegacyProgram) -> (r: u32) {
        p.0
    }
}

impl FromSpecImpl<LegacyProgram> for u32 {
    open spec fn obeys_from_spec() -> bool {
        true
    }

    open spec fn from_spec(p: LegacyProgram) -> u32 {
        p.0
    }
}

/// Linking starts with one call, which creates a program, and the program
/// is then built from the vertex shader and the fragment shader, in that
/// order, whether the shaders are owned or given by id.
pub proof fn law_link_order(
    vert: &Shader,
    frag: &Shader,
    step: BuildStep,
    legacy_vert: LegacyShader,
    legacy_frag: LegacyShader,
    legacy_step: BuildStep,
)
    requires
        vert@.0 is Some,
        frag@.0 is Some,
        call_ensures(Program::link, (vert, frag), step),
        call_ensures(link_program, (legacy_vert, legacy_frag), legacy_step),
    ensures
        step.deep_view() is Query,
        step.deep_view()->Query_calls == seq![GlOp::CreateProgram],
        step.deep_view()->Query_next.target == (TargetModel::Program { vert: vert@.0->0, frag: frag@.0->0 }),
        legacy_step.deep_view() is Query,
        legacy_step.deep_view()->Query_calls == seq![GlOp::CreateProgram],
        legacy_step.deep_view()->Query_next.target == (TargetModel::Program {
            vert: legacy_vert.0,
            frag: legacy_frag.0,
        }),
{
}

/// A location is asked of the GL exactly when the program is valid and the
/// name holds no NUL character, and then the query names this program and
/// this very name: `glGetAttribLocation` for an attribute,
/// `glGetUniformLocation` for a uniform.
pub proof fn law_location_queries(program: Program, name: &str, attrib: Option<GlCall>, uniform: Option<GlCall>)
    requires
        call_ensures(Program::get_attrib_location, (&program, name), attrib),
        call_ensures(Program::get_uniform_location, (&program, name), uniform),
    ensures
        attrib is Some <==> (program@ is Some && !name@.contains('\0')),
        uniform is Some <==> (program@ is Some && !name@.contains('\0')),
        attrib matches Some(c) ==> c.deep_view() == (GlOp::GetAttribLocation { program: program@->0, name: name@ }),
        uniform matches Some(c) ==> c.deep_view() == (GlOp::GetUniformLocation { program: program@->0, name: name@ }),
{
}

/// The location queries of a program given by id name that program and
/// the very name asked for.
pub proof fn law_legacy_location_queries(program: LegacyProgram, name: &str, attrib: GlCall, uniform: GlCall)
    requires
        !name@.contains('\0'),
        call_ensures(LegacyProgram::get_attrib_location, (&program, name), attrib),
        call_ensures(LegacyProgram::get_uniform_location, (&program, name), uniform),
    ensures
        attrib.deep_view() == (GlOp::GetAttribLocation { program: program.0, name: name@ }),
        uniform.deep_view() == (GlOp::GetUniformLocation { program: program.0, name: name@ }),
{
}

/// A finished link gives a program that owns the id built (an id of 0
/// gives the null program); a build with no object gives `NoProgram`, and a
/// failed one the link error with its log.
pub proof fn law_program_from_build(outcome: BuildOutcome, r: Result<Program, ProgramError>)
    requires
        call_ensures(Program::from_build, (outcome,), r),
    ensures
        outcome.deep_view() matches OutcomeModel::Built(id) ==> (r matches Ok(p) && (id != 0 ==> p@ == Some(id))
            && (id == 0 ==> p@ is None)),
        outcome.deep_view() is NoObject ==> r matches Err(ProgramError::NoProgram),
        outcome.deep_view() matches OutcomeModel::Failed(log) ==> (r matches Err(ProgramError::LinkError(l)) && l@ == log),
{
}

/// Reading the log of a valid program starts with the `GL_INFO_LOG_LENGTH`
/// query of that program; an invalid program has an empty log and no call.
pub proof fn law_program_log_start(p: Program, step: LogStep)
    requires
        call_ensures(Program::info_log, (&p,), step),
    ensures
        p@ matches Some(id) ==> (step.deep_view() matches LogStepModel::Query { call, .. }
            && call == (GlOp::GetProgramiv { program: id, pname: glenum::INFO_LOG_LENGTH })),
        p@ is None ==> step.deep_view() == LogStepModel::Done(seq![]),
{
}

} // verus!
