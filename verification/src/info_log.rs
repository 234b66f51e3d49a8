//! Reading the info log of a shader or program object.
//!
//! The log is read in two queries: its length (`GL_INFO_LOG_LENGTH`), then,
//! when that length is positive, its bytes into a buffer of that length. The
//! text is those bytes without a final NUL byte, decoded as UTF-8 with
//! invalid sequences replaced.

use vstd::prelude::*;

use crate::call::{GlCall, GlOp, Reply, ReplyModel};
use crate::glenum;

verus! {

/// The kind of GL object whose status and log are read.
#[derive(Clone, Copy, Debug, PartialEq, Eq)]
pub enum ObjectKind {
    Shader,
    Program,
}

/// What `String::from_utf8_lossy` makes of these bytes.
pub uninterp spec fn utf8_lossy(bytes: Seq<u8>) -> Seq<char>;

/// The characters of bytes that are all ASCII, one for each byte.
pub open spec fn ascii_chars(bytes: Seq<u8>) -> Seq<char> {
    bytes.map_values(|b: u8| b as char)
}

/// Every byte is below 128.
pub open spec fn all_ascii(bytes: Seq<u8>) -> bool {
    forall|i: int| 0 <= i < bytes.len() ==> #[trigger] bytes[i] < 128
}

/// Decodes bytes with `String::from_utf8_lossy`.
///
/// Claims of it: the result is `utf8_lossy` of the bytes, and, as the
/// documentation of the function says that valid UTF-8 is returned as it is,
/// bytes that are all ASCII give one character for each byte. What it does with
/// other bytes is left unsaid beyond the name.
#[verifier::external_body]
fn decode_utf8_lossy(bytes: &[u8]) -> (text: String)
    ensures
        text@ == utf8_lossy(bytes@),
        all_ascii(bytes@) ==> text@ == ascii_chars(bytes@),
{
    String::from_utf8_lossy(bytes).into_owned()
}

/// The log bytes without one trailing NUL byte, if there is one.
pub open spec fn without_nul(bytes: Seq<u8>) -> Seq<u8> {
    if bytes.len() > 0 && bytes.last() == 0 {
        bytes.drop_last()
    } else {
        bytes
    }
}

/// The text of an info log read into `bytes`.
pub open spec fn log_text(bytes: Seq<u8>) -> Seq<char> {
    utf8_lossy(without_nul(bytes))
}

/// Turns the bytes that `glGet*InfoLog` wrote into the log's text: a final
/// NUL byte is dropped and the rest decoded, invalid UTF-8 being replaced.
pub fn info_log_text(bytes: Vec<u8>) -> (text: String)
    ensures
        text@ == log_text(bytes@),
        all_ascii(without_nul(bytes@)) ==> text@ == ascii_chars(without_nul(bytes@)),
{
    let mut bytes = bytes;
    let n = bytes.len();
    if n > 0 && bytes[n - 1] == 0 {
        bytes.pop();
    }
    decode_utf8_lossy(bytes.as_slice())
}

/// The query of an object's info log length.
pub open spec fn log_length_op(kind: ObjectKind, id: u32) -> GlOp {
    match kind {
        ObjectKind::Shader => GlOp::GetShaderiv { shader: id, pname: glenum::INFO_LOG_LENGTH },
        ObjectKind::Program => GlOp::GetProgramiv { program: id, pname: glenum::INFO_LOG_LENGTH },
    }
}

/// The read of an object's info log into a buffer of `len` bytes.
pub open spec fn log_read_op(kind: ObjectKind, id: u32, len: i32) -> GlOp {
    match kind {
        ObjectKind::Shader => GlOp::GetShaderInfoLog { shader: id, max_length: len },
        ObjectKind::Program => GlOp::GetProgramInfoLog { program: id, max_length: len },
    }
}

/// The query of an object's compile or link status.
pub open spec fn status_op(kind: ObjectKind, id: u32) -> GlOp {
    match kind {
        ObjectKind::Shader => GlOp::GetShaderiv { shader: id, pname: glenum::COMPILE_STATUS },
        ObjectKind::Program => GlOp::GetProgramiv { program: id, pname: glenum::LINK_STATUS },
    }
}

/// The deletion of an object.
pub open spec fn delete_op(kind: ObjectKind, id: u32) -> GlOp {
    match kind {
        ObjectKind::Shader => GlOp::DeleteShader { shader: id },
        ObjectKind::Program => GlOp::DeleteProgram { program: id },
    }
}

pub fn log_length_call(kind: ObjectKind, id: u32) -> (c: GlCall)
    ensures
        c.deep_view() == log_length_op(kind, id),
{
    match kind {
        ObjectKind::Shader => GlCall::GetShaderiv { shader: id, pname: glenum::INFO_LOG_LENGTH },
        ObjectKind::Program => GlCall::GetProgramiv { program: id, pname: glenum::INFO_LOG_LENGTH },
    }
}

pub fn log_read_call(kind: ObjectKind, id: u32, len: i32) -> (c: GlCall)
    ensures
        c.deep_view() == log_read_op(kind, id, len),
{
    match kind {
        ObjectKind::Shader => GlCall::GetShaderInfoLog { shader: id, max_length: len },
        ObjectKind::Program => GlCall::GetProgramInfoLog { program: id, max_length: len },
    }
}

pub fn status_call(kind: ObjectKind, id: u32) -> (c: GlCall)
    ensures
        c.deep_view() == status_op(kind, id),
{
    match kind {
        ObjectKind::Shader => GlCall::GetShaderiv { shader: id, pname: glenum::COMPILE_STATUS },
        ObjectKind::Program => GlCall::GetProgramiv { program: id, pname: glenum::LINK_STATUS },
    }
}

pub fn delete_call(kind: ObjectKind, id: u32) -> (c: GlCall)
    ensures
        c.deep_view() == delete_op(kind, id),
{
    match kind {
        ObjectKind::Shader => GlCall::DeleteShader { shader: id },
        ObjectKind::Program => GlCall::DeleteProgram { program: id },
    }
}

/// Where a read of an info log stands.
#[derive(Clone, Copy, Debug, PartialEq, Eq)]
pub enum LogPhase {
    /// The log length is awaited.
    Measuring,
    /// The log bytes are awaited.
    Reading,
}

/// A read of the info log of object `id` in progress.
#[derive(Clone, Copy, Debug, PartialEq, Eq)]
pub struct InfoLogRead {
    pub kind: ObjectKind,
    pub id: u32,
    pub phase: LogPhase,
}

/// One step of reading an info log.
#[derive(Debug, PartialEq)]
pub enum LogStep {
    /// Make `call`; what it returns goes to `next`.
    Query { call: GlCall, next: InfoLogRead },
    /// The log's text.
    Done(String),
}

/// The abstract value of a [`LogStep`].
pub ghost enum LogStepModel {
    Query { call: GlOp, next: InfoLogRead },
    Done(Seq<char>),
}

impl DeepView for LogStep {
    type V = LogStepModel;

    open spec fn deep_view(&self) -> LogStepModel {
        match self {
            LogStep::Query { call, next } => LogStepModel::Query { call: call.deep_view(), next: *next },
            LogStep::Done(text) => LogStepModel::Done(text@),
        }
    }
}

/// The first step of reading the info log of object `id`.
pub open spec fn log_start(kind: ObjectKind, id: u32) -> LogStepModel {
    LogStepModel::Query {
        call: log_length_op(kind, id),
        next: InfoLogRead { kind, id, phase: LogPhase::Measuring },
    }
}

/// The reply is of the kind that the pending query returns.
pub open spec fn log_answers(phase: LogPhase, r: ReplyModel) -> bool {
    match phase {
        LogPhase::Measuring => r is Int,
        LogPhase::Reading => r is Bytes,
    }
}

/// The step that follows `read` when its query returned `r`: an empty log
/// when the length is not positive, else a read of that many bytes, whose
/// text ends the read.
pub open spec fn log_next(read: InfoLogRead, r: ReplyModel) -> LogStepModel
    recommends
        log_answers(read.phase, r),
{
    match (read.phase, r) {
        (LogPhase::Measuring, ReplyModel::Int(len)) => if len <= 0 {
            LogStepModel::Done(seq![])
        } else {
            LogStepModel::Query {
                call: log_read_op(read.kind, read.id, len),
                next: InfoLogRead { phase: LogPhase::Reading, ..read },
            }
        },
        (LogPhase::Reading, ReplyModel::Bytes(bytes)) => LogStepModel::Done(log_text(bytes)),
        _ => arbitrary(),
    }
}

impl InfoLogRead {
    /// Starts reading the info log of object `id`.
    pub fn start(kind: ObjectKind, id: u32) -> (step: LogStep)
        ensures
            step.deep_view() == log_start(kind, id),
    {
        LogStep::Query {
            call: log_length_call(kind, id),
            next: InfoLogRead { kind, id, phase: LogPhase::Measuring },
        }
    }

    /// Whether `reply` is of the kind that the pending query returns.
    pub fn accepts(&self, reply: &Reply) -> (b: bool)
        ensures
            b == log_answers(self.phase, reply.deep_view()),
    {
        match (self.phase, reply) {
            (LogPhase::Measuring, Reply::Int(_)) => true,
            (LogPhase::Reading, Reply::Bytes(_)) => true,
            _ => false,
        }
    }

    /// The step after the pending query returned `reply`.
    pub fn advance(self, reply: Reply) -> (step: LogStep)
        requires
            log_answers(self.phase, reply.deep_view()),
        ensures
            step.deep_view() == log_next(self, reply.deep_view()),
    {
        match (self.phase, reply) {
            (LogPhase::Measuring, Reply::Int(len)) => {
                if len <= 0 {
                    LogStep::Done(String::new())
                } else {
                    LogStep::Query {
                        call: log_read_call(self.kind, self.id, len),
                        next: InfoLogRead { phase: LogPhase::Reading, ..self },
                    }
                }
            },
            (LogPhase::Reading, Reply::Bytes(bytes)) => LogStep::Done(info_log_text(bytes)),
            _ => {
                assert(false);
                LogStep::Done(String::new())
            },
        }
    }
}

/// An ASCII log comes back byte for byte, one character for each byte,
/// without a final NUL byte if it has one and with every other byte kept.
pub proof fn law_ascii_log_text(bytes: Vec<u8>, text: String)
    requires
        forall|i: int| 0 <= i < bytes@.len() ==> #[trigger] bytes@[i] < 128,
        call_ensures(info_log_text, (bytes,), text),
    ensures
        bytes@.len() > 0 && bytes@.last() == 0 ==> text@.len() == bytes@.len() - 1,
        !(bytes@.len() > 0 && bytes@.last() == 0) ==> text@.len() == bytes@.len(),
        forall|i: int| 0 <= i < text@.len() ==> #[trigger] text@[i] == bytes@[i] as char,
{
    let kept = without_nul(bytes@);
    assert(all_ascii(kept)) by {
        assert forall|i: int| 0 <= i < kept.len() implies #[trigger] kept[i] < 128 by {
            assert(kept[i] == bytes@[i]);
        }
    }
    assert forall|i: int| 0 <= i < text@.len() implies #[trigger] text@[i] == bytes@[i] as char by {
        assert(kept[i] == bytes@[i]);
    }
}

/// Reading an info log asks for its length first (`GL_INFO_LOG_LENGTH` of
/// the shader or program). A length that is not positive is an empty log; a
/// positive one is followed by a read of exactly that many bytes of the same
/// object's log, and the bytes read are the log.
pub proof fn law_log_read_steps(
    kind: ObjectKind,
    id: u32,
    start: LogStep,
    read: InfoLogRead,
    reply: Reply,
    next: LogStep,
)
    requires
        call_ensures(InfoLogRead::start, (kind, id), start),
        log_answers(read.phase, reply.deep_view()),
        call_ensures(InfoLogRead::advance, (read, reply), next),
    ensures
        kind == ObjectKind::Shader ==> start.deep_view() == (LogStepModel::Query {
            call: GlOp::GetShaderiv { shader: id, pname: glenum::INFO_LOG_LENGTH },
            next: InfoLogRead { kind, id, phase: LogPhase::Measuring },
        }),
        kind == ObjectKind::Program ==> start.deep_view() == (LogStepModel::Query {
            call: GlOp::GetProgramiv { program: id, pname: glenum::INFO_LOG_LENGTH },
            next: InfoLogRead { kind, id, phase: LogPhase::Measuring },
        }),
        (read.phase is Measuring && reply.deep_view()->Int_0 <= 0) ==> next.deep_view() == LogStepModel::Done(seq![]),
        (read.phase is Measuring && reply.deep_view()->Int_0 > 0 && read.kind == ObjectKind::Shader) ==> next.deep_view()
            == (LogStepModel::Query {
            call: GlOp::GetShaderInfoLog { shader: read.id, max_length: reply.deep_view()->Int_0 },
            next: InfoLogRead { kind: read.kind, id: read.id, phase: LogPhase::Reading },
        }),
        (read.phase is Measuring && reply.deep_view()->Int_0 > 0 && read.kind == ObjectKind::Program) ==> next.deep_view()
            == (LogStepModel::Query {
            call: GlOp::GetProgramInfoLog { program: read.id, max_length: reply.deep_view()->Int_0 },
            next: InfoLogRead { kind: read.kind, id: read.id, phase: LogPhase::Reading },
        }),
        read.phase is Reading ==> next.deep_view() == LogStepModel::Done(log_text(reply.deep_view()->Bytes_0)),
{
}

} // verus!
