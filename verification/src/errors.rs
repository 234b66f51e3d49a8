//! GL error codes.
//!
//! `glGetError` hands out the oldest recorded error and clears it; the driver
//! makes that call ([`GlCall::GetError`](crate::call::GlCall::GetError)) and
//! passes the code it returned to the functions here.

use vstd::prelude::*;
use vstd::std_specs::convert::TryFromSpecImpl;
use vstd::string::StringExecFns;

use crate::glenum;

verus! {

/// OpenGL error codes, as `glGetError` returns them.
#[derive(Debug, Clone, Copy, PartialEq, Eq, Hash, Structural)]
pub enum GlError {
    /// No error (`GL_NO_ERROR`)
    NoError,
    /// Invalid enum parameter (`GL_INVALID_ENUM`)
    InvalidEnum,
    /// Invalid value parameter (`GL_INVALID_VALUE`)
    InvalidValue,
    /// Invalid operation for current state (`GL_INVALID_OPERATION`)
    InvalidOperation,
    /// Invalid framebuffer operation (`GL_INVALID_FRAMEBUFFER_OPERATION`)
    InvalidFramebufferOperation,
    /// Out of memory (`GL_OUT_OF_MEMORY`)
    OutOfMemory,
    /// Stack underflow (`GL_STACK_UNDERFLOW`)
    StackUnderflow,
    /// Stack overflow (`GL_STACK_OVERFLOW`)
    StackOverflow,
}

/// The GL code of each error.
pub open spec fn code_of(e: GlError) -> u32 {
    match e {
        GlError::NoError => glenum::NO_ERROR,
        GlError::InvalidEnum => glenum::INVALID_ENUM,
        GlError::InvalidValue => glenum::INVALID_VALUE,
        GlError::InvalidOperation => glenum::INVALID_OPERATION,
        GlError::InvalidFramebufferOperation => glenum::INVALID_FRAMEBUFFER_OPERATION,
        GlError::OutOfMemory => glenum::OUT_OF_MEMORY,
        GlError::StackUnderflow => glenum::STACK_UNDERFLOW,
        GlError::StackOverflow => glenum::STACK_OVERFLOW,
    }
}

/// The error that a code stands for, if it is one of the eight codes.
pub open spec fn error_of(code: u32) -> Option<GlError> {
    if code == glenum::NO_ERROR {
        Some(GlError::NoError)
    } else if code == glenum::INVALID_ENUM {
        Some(GlError::InvalidEnum)
    } else if code == glenum::INVALID_VALUE {
        Some(GlError::InvalidValue)
    } else if code == glenum::INVALID_OPERATION {
        Some(GlError::InvalidOperation)
    } else if code == glenum::INVALID_FRAMEBUFFER_OPERATION {
        Some(GlError::InvalidFramebufferOperation)
    } else if code == glenum::OUT_OF_MEMORY {
        Some(GlError::OutOfMemory)
    } else if code == glenum::STACK_UNDERFLOW {
        Some(GlError::StackUnderflow)
    } else if code == glenum::STACK_OVERFLOW {
        Some(GlError::StackOverflow)
    } else {
        None
    }
}

/// The GL name of each error.
pub open spec fn name_of(e: GlError) -> Seq<char> {
    match e {
        GlError::NoError => "GL_NO_ERROR"@,
        GlError::InvalidEnum => "GL_INVALID_ENUM"@,
        GlError::InvalidValue => "GL_INVALID_VALUE"@,
        GlError::InvalidOperation => "GL_INVALID_OPERATION"@,
        GlError::InvalidFramebufferOperation => "GL_INVALID_FRAMEBUFFER_OPERATION"@,
        GlError::OutOfMemory => "GL_OUT_OF_MEMORY"@,
        GlError::StackUnderflow => "GL_STACK_UNDERFLOW"@,
        GlError::StackOverflow => "GL_STACK_OVERFLOW"@,
    }
}

/// The human-readable description of each error.
pub open spec fn description_of(e: GlError) -> Seq<char> {
    match e {
        GlError::NoError => "No error has been recorded"@,
        GlError::InvalidEnum => "An unacceptable value was specified for an enumerated argument"@,
        GlError::InvalidValue => "A numeric argument was out of range"@,
        GlError::InvalidOperation => "The specified operation is not allowed in the current state"@,
        GlError::InvalidFramebufferOperation => "The framebuffer object is not complete"@,
        GlError::OutOfMemory => "There is not enough memory left to execute the command"@,
        GlError::StackUnderflow => "An attempt was made to perform an operation that would cause an internal stack to underflow"@,
        GlError::StackOverflow => "An attempt was made to perform an operation that would cause an internal stack to overflow"@,
    }
}

/// The line that reports an error on stderr.
pub open spec fn report_line_of(e: GlError) -> Seq<char> {
    "GL ERROR: "@ + name_of(e) + " - "@ + description_of(e)
}

/// Every error has its own code, and decoding the code gives the error back.
pub proof fn lemma_error_code_round_trip(e: GlError)
    ensures
        error_of(code_of(e)) == Some(e),
{
}

/// A code decodes to an error exactly when it is that error's code.
pub proof fn lemma_error_of_code(code: u32, e: GlError)
    ensures
        error_of(code) == Some(e) <==> code_of(e) == code,
{
}

impl TryFrom<u32> for GlError {
    type Error = u32;

    /// The error of a GL code; a code that is none of the eight is the error.
    fn try_from(code: u32) -> (r: Result<GlError, u32>) {
        match GlError::from_code(code) {
            Some(e) => Ok(e),
            None => Err(code),
        }
    }
}

impl TryFromSpecImpl<u32> for GlError {
    open spec fn obeys_try_from_spec() -> bool {
        true
    }

    open spec fn try_from_spec(code: u32) -> Result<GlError, u32> {
        match error_of(code) {
            Some(e) => Ok(e),
            None => Err(code),
        }
    }
}

impl GlError {
    /// The GL code of this error.
    pub fn code(&self) -> (c: u32)
        ensures
            c == code_of(*self),
    {
        match self {
            GlError::NoError => glenum::NO_ERROR,
            GlError::InvalidEnum => glenum::INVALID_ENUM,
            GlError::InvalidValue => glenum::INVALID_VALUE,
            GlError::InvalidOperation => glenum::INVALID_OPERATION,
            GlError::InvalidFramebufferOperation => glenum::INVALID_FRAMEBUFFER_OPERATION,
            GlError::OutOfMemory => glenum::OUT_OF_MEMORY,
            GlError::StackUnderflow => glenum::STACK_UNDERFLOW,
            GlError::StackOverflow => glenum::STACK_OVERFLOW,
        }
    }

    /// The error that a GL code stands for; `None` for a code that is none of them.
    pub fn from_code(code: u32) -> (r: Option<GlError>)
        ensures
            r == error_of(code),
    {
        if code == glenum::NO_ERROR {
            Some(GlError::NoError)
        } else if code == glenum::INVALID_ENUM {
            Some(GlError::InvalidEnum)
        } else if code == glenum::INVALID_VALUE {
            Some(GlError::InvalidValue)
        } else if code == glenum::INVALID_OPERATION {
            Some(GlError::InvalidOperation)
        } else if code == glenum::INVALID_FRAMEBUFFER_OPERATION {
            Some(GlError::InvalidFramebufferOperation)
        } else if code == glenum::OUT_OF_MEMORY {
            Some(GlError::OutOfMemory)
        } else if code == glenum::STACK_UNDERFLOW {
            Some(GlError::StackUnderflow)
        } else if code == glenum::STACK_OVERFLOW {
            Some(GlError::StackOverflow)
        } else {
            None
        }
    }

    /// Whether this is an actual error (not `NoError`).
    pub fn is_error(&self) -> (b: bool)
        ensures
            b == (*self != GlError::NoError),
    {
        !matches!(self, GlError::NoError)
    }

    /// The GL name of the error, such as `GL_INVALID_ENUM`.
    pub fn name(&self) -> (s: &'static str)
        ensures
            s@ == name_of(*self),
    {
        match self {
            GlError::NoError => "GL_NO_ERROR",
            GlError::InvalidEnum => "GL_INVALID_ENUM",
            GlError::InvalidValue => "GL_INVALID_VALUE",
            GlError::InvalidOperation => "GL_INVALID_OPERATION",
            GlError::InvalidFramebufferOperation => "GL_INVALID_FRAMEBUFFER_OPERATION",
            GlError::OutOfMemory => "GL_OUT_OF_MEMORY",
            GlError::StackUnderflow => "GL_STACK_UNDERFLOW",
            GlError::StackOverflow => "GL_STACK_OVERFLOW",
        }
    }

    /// The error as it displays: its GL name.
    pub fn to_string(&self) -> (s: String)
        ensures
            s@ == name_of(*self),
    {
        String::from_str(self.name())
    }

    /// A human-readable description of the error.
    pub fn description(&self) -> (s: &'static str)
        ensures
            s@ == description_of(*self),
    {
        match self {
            GlError::NoError => "No error has been recorded",
            GlError::InvalidEnum => "An unacceptable value was specified for an enumerated argument",
            GlError::InvalidValue => "A numeric argument was out of range",
            GlError::InvalidOperation => "The specified operation is not allowed in the current state",
            GlError::InvalidFramebufferOperation => "The framebuffer object is not complete",
            GlError::OutOfMemory => "There is not enough memory left to execute the command",
            GlError::StackUnderflow => "An attempt was made to perform an operation that would cause an internal stack to underflow",
            GlError::StackOverflow => "An attempt was made to perform an operation that would cause an internal stack to overflow",
        }
    }

    /// The line that reports this error on stderr:
    /// `GL ERROR: <name> - <description>`.
    pub fn report_line(&self) -> (s: String)
        ensures
            s@ == report_line_of(*self),
    {
        let mut s = String::from_str("GL ERROR: ");
        s.append(self.name());
        s.append(" - ");
        s.append(self.description());
        s
    }
}

/// The current GL error, from the code that `glGetError` returned.
///
/// The code must be one of the eight error codes (any other is a broken GL).
pub fn get_error(code: u32) -> (e: GlError)
    requires
        error_of(code) is Some,
    ensures
        error_of(code) == Some(e),
        code_of(e) == code,
{
    GlError::from_code(code).unwrap()
}

/// The pending GL errors, one per `glGetError` call, until `GL_NO_ERROR`.
pub struct Errors;

impl Errors {
    /// The next pending error, from the code that `glGetError` returned;
    /// `None` once the GL reports no error.
    pub fn next(&mut self, code: u32) -> (r: Option<GlError>)
        requires
            error_of(code) is Some,
        ensures
            r == next_of(code),
    {
        let e = get_error(code);
        if e.is_error() {
            Some(e)
        } else {
            None
        }
    }
}

/// The result of checking the code that `glGetError` returned: `Ok` when it is
/// `GL_NO_ERROR`, the error otherwise.
pub fn check_error(code: u32) -> (r: Result<(), GlError>)
    requires
        error_of(code) is Some,
    ensures
        r == (if code == glenum::NO_ERROR { Ok(()) } else { Err(error_of(code)->0) }),
{
    let e = get_error(code);
    if e.is_error() {
        Err(e)
    } else {
        Ok(())
    }
}

/// Asserts that `glGetError` returned `GL_NO_ERROR`; any other code is a
/// failure that the caller must rule out.
pub fn assert_no_error(code: u32)
    requires
        code == glenum::NO_ERROR,
{
    get_error(code);
}

/// Error checking after an operation, active only in debug-GL builds; this
/// build checks nothing.
pub fn debug_check_error(operation: &str) {
}

/// The line that a debug-GL build prints on stderr after `operation`, from
/// the code that `glGetError` returned then: none when the GL reports no
/// error, else `GL ERROR during '<operation>': <name> - <description>`.
pub fn debug_error_line(operation: &str, code: u32) -> (line: Option<String>)
    requires
        error_of(code) is Some,
    ensures
        code == glenum::NO_ERROR ==> line is None,
        code != glenum::NO_ERROR ==> (line matches Some(l) && l@ == debug_line_of(operation@, error_of(code)->0)),
{
    let e = get_error(code);
    if e.is_error() {
        let mut s = String::from_str("GL ERROR during '");
        s.append(operation);
        s.append("': ");
        s.append(e.name());
        s.append(" - ");
        s.append(e.description());
        Some(s)
    } else {
        None
    }
}

/// The line that reports an error found after an operation.
pub open spec fn debug_line_of(operation: Seq<char>, e: GlError) -> Seq<char> {
    "GL ERROR during '"@ + operation + "': "@ + name_of(e) + " - "@ + description_of(e)
}

/// What one step of the error iteration yields for the code that
/// `glGetError` returned: nothing for `GL_NO_ERROR`, else that error.
pub open spec fn next_of(code: u32) -> Option<GlError> {
    if code == glenum::NO_ERROR {
        None
    } else {
        error_of(code)
    }
}

/// The errors that successive `glGetError` codes report: those before the
/// first `GL_NO_ERROR` (or all of them, if none is `GL_NO_ERROR`).
pub open spec fn pending_errors(codes: Seq<u32>) -> Seq<GlError>
    decreases codes.len(),
{
    if codes.len() == 0 || codes[0] == glenum::NO_ERROR {
        Seq::empty()
    } else {
        seq![error_of(codes[0])->0] + pending_errors(codes.drop_first())
    }
}

/// Every code up to the first `GL_NO_ERROR` is one of the eight error codes.
pub open spec fn readable(codes: Seq<u32>) -> bool
    decreases codes.len(),
{
    codes.len() == 0 || codes[0] == glenum::NO_ERROR || (error_of(codes[0]) is Some
        && readable(codes.drop_first()))
}

/// Drains the error iteration over the codes that successive `glGetError`
/// calls returned: the errors in order, up to the first `GL_NO_ERROR`.
pub fn collect_errors(codes: &Vec<u32>) -> (errors: Vec<GlError>)
    requires
        readable(codes@),
    ensures
        errors@ == pending_errors(codes@),
{
    let mut errors: Vec<GlError> = Vec::new();
    let mut it = Errors;
    let mut i: usize = 0;
    assert(codes@.skip(0) =~= codes@);
    assert(errors@ + pending_errors(codes@) =~= pending_errors(codes@));
    while i < codes.len()
        invariant_except_break
            i <= codes.len(),
            readable(codes@.skip(i as int)),
            errors@ + pending_errors(codes@.skip(i as int)) == pending_errors(codes@),
        ensures
            errors@ == pending_errors(codes@),
        decreases codes.len() - i,
    {
        let code = codes[i];
        let ghost rest = codes@.skip(i as int);
        assert(rest.drop_first() =~= codes@.skip(i + 1));
        match it.next(code) {
            Some(e) => {
                errors.push(e);
                assert(errors@ + pending_errors(codes@.skip(i + 1)) =~= pending_errors(codes@));
                i = i + 1;
            },
            None => {
                assert(errors@ =~= pending_errors(codes@));
                break;
            },
        }
    }
    errors
}

/// Draining the error iteration gives the pending error queue: when
/// `glGetError` reports the queued errors `queue` in order and then
/// `GL_NO_ERROR`, each of the first `queue.len()` reads yields the next
/// queued error, the read after them yields nothing, and collecting gives
/// back `queue` itself, whatever codes would come later.
pub proof fn lemma_errors_drain_queue(queue: Seq<GlError>, later: Seq<u32>)
    requires
        forall|i: int| 0 <= i < queue.len() ==> queue[i] != GlError::NoError,
    ensures
        ({
            let codes = queue.map_values(|e: GlError| code_of(e)) + seq![glenum::NO_ERROR] + later;
            &&& forall|i: int| 0 <= i < queue.len() ==> next_of(#[trigger] codes[i]) == Some(queue[i])
            &&& next_of(codes[queue.len() as int]) is None
            &&& readable(codes)
            &&& pending_errors(codes) == queue
        }),
    decreases queue.len(),
{
    let codes = queue.map_values(|e: GlError| code_of(e)) + seq![glenum::NO_ERROR] + later;
    if queue.len() == 0 {
        assert(codes[0] == glenum::NO_ERROR);
    } else {
        let tail = queue.drop_first();
        lemma_errors_drain_queue(tail, later);
        let tail_codes = tail.map_values(|e: GlError| code_of(e)) + seq![glenum::NO_ERROR] + later;
        assert(codes.drop_first() =~= tail_codes);
        assert(codes[0] == code_of(queue[0]));
        lemma_error_code_round_trip(queue[0]);
        assert forall|i: int| 0 <= i < queue.len() implies next_of(#[trigger] codes[i]) == Some(queue[i]) by {
            lemma_error_code_round_trip(queue[i]);
        }
        assert(queue =~= seq![queue[0]] + tail);
    }
}

/// Each error has the GL code of its name, and a code is decoded to an
/// error exactly when it is one of those eight codes, giving the error whose
/// code it is.
pub proof fn law_error_codes(e: GlError, c: u32, code: u32, decoded: Option<GlError>)
    requires
        call_ensures(GlError::code, (&e,), c),
        call_ensures(GlError::from_code, (code,), decoded),
    ensures
        e == GlError::NoError <==> c == 0,
        e == GlError::InvalidEnum <==> c == 0x0500,
        e == GlError::InvalidValue <==> c == 0x0501,
        e == GlError::InvalidOperation <==> c == 0x0502,
        e == GlError::StackOverflow <==> c == 0x0503,
        e == GlError::StackUnderflow <==> c == 0x0504,
        e == GlError::OutOfMemory <==> c == 0x0505,
        e == GlError::InvalidFramebufferOperation <==> c == 0x0506,
        decoded is Some <==> (code == 0 || 0x0500 <= code <= 0x0506),
        decoded matches Some(d) ==> code_of(d) == code,
{
}

/// Checking an error code succeeds exactly on `GL_NO_ERROR` (0); any other
/// code is the error whose code it is.
pub proof fn law_check_error(code: u32, r: Result<(), GlError>)
    requires
        error_of(code) is Some,
        call_ensures(check_error, (code,), r),
    ensures
        r is Ok <==> code == 0,
        r matches Err(e) ==> code_of(e) == code && e != GlError::NoError,
{
}

/// Each error displays as its GL name.
pub proof fn law_error_names(e: GlError, n: &'static str)
    requires
        call_ensures(GlError::name, (&e,), n),
    ensures
        e == GlError::NoError ==> n@ == "GL_NO_ERROR"@,
        e == GlError::InvalidEnum ==> n@ == "GL_INVALID_ENUM"@,
        e == GlError::InvalidValue ==> n@ == "GL_INVALID_VALUE"@,
        e == GlError::InvalidOperation ==> n@ == "GL_INVALID_OPERATION"@,
        e == GlError::InvalidFramebufferOperation ==> n@ == "GL_INVALID_FRAMEBUFFER_OPERATION"@,
        e == GlError::OutOfMemory ==> n@ == "GL_OUT_OF_MEMORY"@,
        e == GlError::StackUnderflow ==> n@ == "GL_STACK_UNDERFLOW"@,
        e == GlError::StackOverflow ==> n@ == "GL_STACK_OVERFLOW"@,
{
}

/// The lines that report an error are made of the error's name and
/// description: `GL ERROR: <name> - <description>`, and after an operation
/// `GL ERROR during '<operation>': <name> - <description>`, for the error of
/// the code that the GL returned; no line is made for `GL_NO_ERROR`.
pub proof fn law_report_lines(
    operation: &str,
    code: u32,
    e: GlError,
    name: &'static str,
    description: &'static str,
    report: String,
    line: Option<String>,
)
    requires
        error_of(code) == Some(e),
        call_ensures(GlError::name, (&e,), name),
        call_ensures(GlError::description, (&e,), description),
        call_ensures(GlError::report_line, (&e,), report),
        call_ensures(debug_error_line, (operation, code), line),
    ensures
        report@ == "GL ERROR: "@ + name@ + " - "@ + description@,
        line is None <==> code == 0,
        line matches Some(l) ==> l@ == "GL ERROR during '"@ + operation@ + "': "@ + name@ + " - "@ + description@,
{
}

} // verus!
