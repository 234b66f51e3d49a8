//! The protocol by which shader and program objects are built.
//!
//! Compiling a shader and linking a program follow the same steps: create the
//! object; if the GL gave id 0, fail; otherwise compile or link it and query
//! its status; on success the object is built; on failure read its info log,
//! delete the object and fail with the log.
//!
//! [`ObjectBuild`] is that protocol as a state machine: each step names the
//! calls to make and, unless the protocol is over, the state that takes what
//! the last call returned.

use vstd::prelude::*;

use crate::call::{none, single, GlCall, GlOp, Reply, ReplyModel};
use crate::glenum;
use crate::info_log::{
    delete_call, delete_op, log_answers, log_length_op, log_next, log_text, status_call, status_op,
    InfoLogRead, LogPhase, LogStep, LogStepModel, ObjectKind,
};

verus! {

/// The object to build and what building it needs.
#[derive(Debug)]
pub enum BuildTarget {
    /// A shader of this GL type, compiled from this source.
    Shader { shader_type: u32, source: String },
    /// A program linked from these two shader objects.
    Program { vert: u32, frag: u32 },
}

/// The abstract value of a [`BuildTarget`].
pub ghost enum TargetModel {
    Shader { shader_type: u32, source: Seq<char> },
    Program { vert: u32, frag: u32 },
}

impl DeepView for BuildTarget {
    type V = TargetModel;

    open spec fn deep_view(&self) -> TargetModel {
        match self {
            BuildTarget::Shader { shader_type, source } => TargetModel::Shader {
                shader_type: *shader_type,
                source: source@,
            },
            BuildTarget::Program { vert, frag } => TargetModel::Program { vert: *vert, frag: *frag },
        }
    }
}

/// Where a build stands.
#[derive(Clone, Copy, Debug, PartialEq, Eq)]
pub enum BuildPhase {
    /// The create call was made; its id is awaited.
    Creating,
    /// Object `id` was compiled or linked; its status is awaited.
    Checking { id: u32 },
    /// The object failed; its info log is being read.
    Logging(InfoLogRead),
}

/// A build in progress.
#[derive(Debug)]
pub struct ObjectBuild {
    pub target: BuildTarget,
    pub phase: BuildPhase,
}

/// The abstract value of an [`ObjectBuild`].
pub ghost struct BuildModel {
    pub target: TargetModel,
    pub phase: BuildPhase,
}

impl DeepView for ObjectBuild {
    type V = BuildModel;

    open spec fn deep_view(&self) -> BuildModel {
        BuildModel { target: self.target.deep_view(), phase: self.phase }
    }
}

/// How a build ended.
#[derive(Debug)]
pub enum BuildOutcome {
    /// The object with this id was built.
    Built(u32),
    /// The GL created no object.
    NoObject,
    /// Compiling or linking failed with this info log; the object was deleted.
    Failed(String),
}

/// The abstract value of a [`BuildOutcome`].
pub ghost enum OutcomeModel {
    Built(u32),
    NoObject,
    Failed(Seq<char>),
}

impl DeepView for BuildOutcome {
    type V = OutcomeModel;

    open spec fn deep_view(&self) -> OutcomeModel {
        match self {
            BuildOutcome::Built(id) => OutcomeModel::Built(*id),
            BuildOutcome::NoObject => OutcomeModel::NoObject,
            BuildOutcome::Failed(log) => OutcomeModel::Failed(log@),
        }
    }
}

/// One step of a build.
#[derive(Debug)]
pub enum BuildStep {
    /// Make `calls` in order; what the last one returns goes to `next`.
    Query { calls: Vec<GlCall>, next: ObjectBuild },
    /// Make `calls` in order; the build is over.
    Done { calls: Vec<GlCall>, outcome: BuildOutcome },
}

/// The abstract value of a [`BuildStep`].
pub ghost enum StepModel {
    Query { calls: Seq<GlOp>, next: BuildModel },
    Done { calls: Seq<GlOp>, outcome: OutcomeModel },
}

impl DeepView for BuildStep {
    type V = StepModel;

    open spec fn deep_view(&self) -> StepModel {
        match self {
            BuildStep::Query { calls, next } => StepModel::Query {
                calls: calls.deep_view(),
                next: next.deep_view(),
            },
            BuildStep::Done { calls, outcome } => StepModel::Done {
                calls: calls.deep_view(),
                outcome: outcome.deep_view(),
            },
        }
    }
}

/// The kind of object a target builds.
pub open spec fn kind_of(t: TargetModel) -> ObjectKind {
    match t {
        TargetModel::Shader { .. } => ObjectKind::Shader,
        TargetModel::Program { .. } => ObjectKind::Program,
    }
}

/// The call that creates the object.
pub open spec fn create_op(t: TargetModel) -> GlOp {
    match t {
        TargetModel::Shader { shader_type, .. } => GlOp::CreateShader { shader_type },
        TargetModel::Program { .. } => GlOp::CreateProgram,
    }
}

/// The calls that compile or link object `id`, ending with the status query.
pub open spec fn build_ops(t: TargetModel, id: u32) -> Seq<GlOp> {
    match t {
        TargetModel::Shader { source, .. } => seq![
            GlOp::ShaderSource { shader: id, source },
            GlOp::CompileShader { shader: id },
            status_op(ObjectKind::Shader, id),
        ],
        TargetModel::Program { vert, frag } => seq![
            GlOp::AttachShader { program: id, shader: vert },
            GlOp::AttachShader { program: id, shader: frag },
            GlOp::LinkProgram { program: id },
            status_op(ObjectKind::Program, id),
        ],
    }
}

/// The first step of building `t`.
pub open spec fn start_step(t: TargetModel) -> StepModel {
    StepModel::Query {
        calls: seq![create_op(t)],
        next: BuildModel { target: t, phase: BuildPhase::Creating },
    }
}

/// The reply is of the kind that the pending query returns.
pub open spec fn answers(phase: BuildPhase, r: ReplyModel) -> bool {
    match phase {
        BuildPhase::Creating => r is Id,
        BuildPhase::Checking { .. } => r is Int,
        BuildPhase::Logging(read) => log_answers(read.phase, r),
    }
}

/// The step that follows build state `b` when its query returned `r`.
pub open spec fn next_step(b: BuildModel, r: ReplyModel) -> StepModel
    recommends
        answers(b.phase, r),
{
    let kind = kind_of(b.target);
    match (b.phase, r) {
        (BuildPhase::Creating, ReplyModel::Id(id)) => if id == 0 {
            StepModel::Done { calls: seq![], outcome: OutcomeModel::NoObject }
        } else {
            StepModel::Query {
                calls: build_ops(b.target, id),
                next: BuildModel { target: b.target, phase: BuildPhase::Checking { id } },
            }
        },
        (BuildPhase::Checking { id }, ReplyModel::Int(status)) => if status != 0 {
            StepModel::Done { calls: seq![], outcome: OutcomeModel::Built(id) }
        } else {
            StepModel::Query {
                calls: seq![log_length_op(kind, id)],
                next: BuildModel {
                    target: b.target,
                    phase: BuildPhase::Logging(InfoLogRead { kind, id, phase: LogPhase::Measuring }),
                },
            }
        },
        (BuildPhase::Logging(read), r) => match log_next(read, r) {
            LogStepModel::Query { call, next } => StepModel::Query {
                calls: seq![call],
                next: BuildModel { target: b.target, phase: BuildPhase::Logging(next) },
            },
            LogStepModel::Done(text) => StepModel::Done {
                calls: seq![delete_op(kind, read.id)],
                outcome: OutcomeModel::Failed(text),
            },
        },
        _ => arbitrary(),
    }
}

/// The step reached from `step` by handing over `replies` one after another,
/// for as long as the build goes on and each reply answers the pending query.
pub open spec fn run(step: StepModel, replies: Seq<ReplyModel>) -> StepModel
    decreases replies.len(),
{
    match step {
        StepModel::Query { next, .. } => if replies.len() > 0 && answers(next.phase, replies[0]) {
            run(next_step(next, replies[0]), replies.drop_first())
        } else {
            step
        },
        StepModel::Done { .. } => step,
    }
}

/// The id that the create call returned, as the first reply hands it over.
pub open spec fn created_id(replies: Seq<ReplyModel>) -> u32 {
    replies[0]->Id_0
}

/// How every build ends, whatever the GL answers.
///
/// - It fails for want of an object exactly when the create call returned 0,
///   and then makes no further call.
/// - It builds an object only when the create call returned a nonzero id and
///   the status query returned nonzero; the object built is the one created,
///   and it is not deleted.
/// - When compiling or linking fails, the last call deletes the object that
///   was created, and nothing else.
pub proof fn lemma_build_outcomes(t: TargetModel, replies: Seq<ReplyModel>)
    ensures
        run(start_step(t), replies) matches StepModel::Done { calls, outcome } ==> {
            &&& replies.len() > 0 && replies[0] is Id
            &&& (outcome is NoObject <==> created_id(replies) == 0)
            &&& outcome is NoObject ==> calls == Seq::<GlOp>::empty()
            &&& outcome matches OutcomeModel::Built(id) ==> {
                &&& id == created_id(replies)
                &&& id != 0
                &&& calls == Seq::<GlOp>::empty()
                &&& replies.len() > 1
                &&& replies[1] matches ReplyModel::Int(status) && status != 0
            }
            &&& outcome is Failed ==> {
                &&& created_id(replies) != 0
                &&& calls == seq![delete_op(kind_of(t), created_id(replies))]
                &&& replies.len() > 2
                &&& replies[1] == ReplyModel::Int(0)
                &&& replies[2] is Int
            }
            &&& outcome matches OutcomeModel::Failed(log) ==> {
                &&& replies[2]->Int_0 <= 0 ==> log == Seq::<char>::empty()
                &&& replies[2]->Int_0 > 0 ==> (replies.len() > 3 && replies[3] is Bytes
                    && log == log_text(replies[3]->Bytes_0))
            }
        },
{
    reveal_with_fuel(run, 5);
}

/// A build is over after at most four replies: whatever follows them is
/// never used.
pub proof fn lemma_build_uses_four_replies(t: TargetModel, replies: Seq<ReplyModel>)
    requires
        replies.len() >= 4,
    ensures
        run(start_step(t), replies) == run(start_step(t), replies.take(4)),
{
    reveal_with_fuel(run, 6);
    let r = replies;
    assert(r.take(4).drop_first() =~= r.drop_first().take(3));
    assert(r.take(4).drop_first().drop_first() =~= r.drop_first().drop_first().take(2));
    assert(r.take(4).drop_first().drop_first().drop_first() =~= r.drop_first().drop_first().drop_first().take(1));
}

/// A build always ends: answered in turn with an id, a status, a log length
/// and the log's bytes, it is over, whatever the values.
pub proof fn lemma_build_ends(t: TargetModel, id: u32, status: i32, len: i32, bytes: Seq<u8>)
    ensures
        run(
            start_step(t),
            seq![ReplyModel::Id(id), ReplyModel::Int(status), ReplyModel::Int(len), ReplyModel::Bytes(bytes)],
        ) is Done,
{
    reveal_with_fuel(run, 5);
    let r = seq![ReplyModel::Id(id), ReplyModel::Int(status), ReplyModel::Int(len), ReplyModel::Bytes(bytes)];
    assert(r.drop_first() =~= seq![ReplyModel::Int(status), ReplyModel::Int(len), ReplyModel::Bytes(bytes)]);
    assert(r.drop_first().drop_first() =~= seq![ReplyModel::Int(len), ReplyModel::Bytes(bytes)]);
    assert(r.drop_first().drop_first().drop_first() =~= seq![ReplyModel::Bytes(bytes)]);
    assert(r.drop_first().drop_first().drop_first().drop_first() =~= Seq::<ReplyModel>::empty());
}

impl BuildTarget {
    pub fn kind(&self) -> (k: ObjectKind)
        ensures
            k == kind_of(self.deep_view()),
    {
        match self {
            BuildTarget::Shader { .. } => ObjectKind::Shader,
            BuildTarget::Program { .. } => ObjectKind::Program,
        }
    }

    fn create_call(&self) -> (c: GlCall)
        ensures
            c.deep_view() == create_op(self.deep_view()),
    {
        match self {
            BuildTarget::Shader { shader_type, .. } => GlCall::CreateShader { shader_type: *shader_type },
            BuildTarget::Program { .. } => GlCall::CreateProgram,
        }
    }

    fn build_calls(&self, id: u32) -> (calls: Vec<GlCall>)
        ensures
            calls.deep_view() == build_ops(self.deep_view(), id),
    {
        let mut calls = Vec::new();
        match self {
            BuildTarget::Shader { source, .. } => {
                calls.push(GlCall::ShaderSource { shader: id, source: source.clone() });
                calls.push(GlCall::CompileShader { shader: id });
                calls.push(status_call(ObjectKind::Shader, id));
            },
            BuildTarget::Program { vert, frag } => {
                calls.push(GlCall::AttachShader { program: id, shader: *vert });
                calls.push(GlCall::AttachShader { program: id, shader: *frag });
                calls.push(GlCall::LinkProgram { program: id });
                calls.push(status_call(ObjectKind::Program, id));
            },
        }
        calls
    }
}

impl ObjectBuild {
    /// Starts building `target`: the first step creates the object.
    pub fn start(target: BuildTarget) -> (step: BuildStep)
        ensures
            step.deep_view() == start_step(target.deep_view()),
    {
        let calls = single(target.create_call());
        BuildStep::Query { calls, next: ObjectBuild { target, phase: BuildPhase::Creating } }
    }

    /// Whether `reply` is of the kind that the pending query returns.
    pub fn accepts(&self, reply: &Reply) -> (b: bool)
        ensures
            b == answers(self.phase, reply.deep_view()),
    {
        match (self.phase, reply) {
            (BuildPhase::Creating, Reply::Id(_)) => true,
            (BuildPhase::Checking { .. }, Reply::Int(_)) => true,
            (BuildPhase::Logging(read), reply) => read.accepts(reply),
            _ => false,
        }
    }

    /// The step after the pending query returned `reply`.
    pub fn advance(self, reply: Reply) -> (step: BuildStep)
        requires
            answers(self.phase, reply.deep_view()),
        ensures
            step.deep_view() == next_step(self.deep_view(), reply.deep_view()),
    {
        let kind = self.target.kind();
        match (self.phase, reply) {
            (BuildPhase::Creating, Reply::Id(id)) => {
                if id == 0 {
                    BuildStep::Done { calls: none(), outcome: BuildOutcome::NoObject }
                } else {
                    let calls = self.target.build_calls(id);
                    BuildStep::Query {
                        calls,
                        next: ObjectBuild { target: self.target, phase: BuildPhase::Checking { id } },
                    }
                }
            },
            (BuildPhase::Checking { id }, Reply::Int(status)) => {
                if status != 0 {
                    BuildStep::Done { calls: none(), outcome: BuildOutcome::Built(id) }
                } else {
                    match InfoLogRead::start(kind, id) {
                        LogStep::Query { call, next } => BuildStep::Query {
                            calls: single(call),
                            next: ObjectBuild { target: self.target, phase: BuildPhase::Logging(next) },
                        },
                        LogStep::Done(text) => {
                            assert(false);
                            BuildStep::Done { calls: none(), outcome: BuildOutcome::Failed(text) }
                        },
                    }
                }
            },
            (BuildPhase::Logging(read), reply) => {
                match read.advance(reply) {
                    LogStep::Query { call, next } => BuildStep::Query {
                        calls: single(call),
                        next: ObjectBuild { target: self.target, phase: BuildPhase::Logging(next) },
                    },
                    LogStep::Done(text) => BuildStep::Done {
                        calls: single(delete_call(kind, read.id)),
                        outcome: BuildOutcome::Failed(text),
                    },
                }
            },
            _ => {
                assert(false);
                BuildStep::Done { calls: none(), outcome: BuildOutcome::NoObject }
            },
        }
    }
}

/// What one step of a build does with the GL's answer, for every build and
/// every answer of the kind awaited:
///
/// - a create call that returned 0 ends the build with no object and no call;
/// - a create call that returned an object `id` goes on to compile `id` from
///   the source (`glShaderSource`, `glCompileShader`, then the
///   `GL_COMPILE_STATUS` query) or to link it from the two shaders, vertex
///   first (`glAttachShader` twice, `glLinkProgram`, then the
///   `GL_LINK_STATUS` query), and then awaits that status of `id`;
/// - a nonzero status ends the build with object `id` built and no call;
///   a zero status goes on to query the `GL_INFO_LOG_LENGTH` of `id`;
/// - a log length that is not positive ends the build as failed with an
///   empty log, deleting the object; a positive one goes on to read that many
///   bytes of the log of the object;
/// - the log's bytes end the build as failed with their text, deleting the
///   object.
pub proof fn law_build_steps(b: ObjectBuild, reply: Reply, step: BuildStep)
    requires
        answers(b.phase, reply.deep_view()),
        call_ensures(ObjectBuild::advance, (b, reply), step),
    ensures
        ({
            let t = b.target.deep_view();
            let r = reply.deep_view();
            let s = step.deep_view();
            &&& (b.phase is Creating && r == ReplyModel::Id(0)) ==> s == (StepModel::Done {
                calls: seq![],
                outcome: OutcomeModel::NoObject,
            })
            &&& (b.phase is Creating && r is Id && r->Id_0 != 0) ==> (s is Query && s->Query_next == (BuildModel {
                target: t,
                phase: BuildPhase::Checking { id: r->Id_0 },
            }))
            &&& (b.phase is Creating && r is Id && r->Id_0 != 0 && t is Shader) ==> s->Query_calls == seq![
                GlOp::ShaderSource { shader: r->Id_0, source: t->Shader_source },
                GlOp::CompileShader { shader: r->Id_0 },
                GlOp::GetShaderiv { shader: r->Id_0, pname: glenum::COMPILE_STATUS },
            ]
            &&& (b.phase is Creating && r is Id && r->Id_0 != 0 && t is Program) ==> s->Query_calls == seq![
                GlOp::AttachShader { program: r->Id_0, shader: t->vert },
                GlOp::AttachShader { program: r->Id_0, shader: t->frag },
                GlOp::LinkProgram { program: r->Id_0 },
                GlOp::GetProgramiv { program: r->Id_0, pname: glenum::LINK_STATUS },
            ]
            &&& (b.phase is Checking && r is Int && r->Int_0 != 0) ==> s == (StepModel::Done {
                calls: seq![],
                outcome: OutcomeModel::Built(b.phase->Checking_id),
            })
            &&& (b.phase is Checking && r == ReplyModel::Int(0) && t is Shader) ==> (s is Query
                && s->Query_calls == seq![GlOp::GetShaderiv { shader: b.phase->Checking_id, pname: glenum::INFO_LOG_LENGTH }])
            &&& (b.phase is Checking && r == ReplyModel::Int(0) && t is Program) ==> (s is Query
                && s->Query_calls == seq![GlOp::GetProgramiv { program: b.phase->Checking_id, pname: glenum::INFO_LOG_LENGTH }])
            &&& (b.phase is Logging && b.phase->Logging_0.kind == kind_of(t) && b.phase->Logging_0.phase is Measuring
                && r is Int && r->Int_0 <= 0 && t is Shader) ==> s == (StepModel::Done {
                calls: seq![GlOp::DeleteShader { shader: b.phase->Logging_0.id }],
                outcome: OutcomeModel::Failed(seq![]),
            })
            &&& (b.phase is Logging && b.phase->Logging_0.kind == kind_of(t) && b.phase->Logging_0.phase is Measuring
                && r is Int && r->Int_0 <= 0 && t is Program) ==> s == (StepModel::Done {
                calls: seq![GlOp::DeleteProgram { program: b.phase->Logging_0.id }],
                outcome: OutcomeModel::Failed(seq![]),
            })
            &&& (b.phase is Logging && b.phase->Logging_0.kind == kind_of(t) && b.phase->Logging_0.phase is Measuring
                && r is Int && r->Int_0 > 0 && t is Shader) ==> (s is Query && s->Query_calls == seq![
                GlOp::GetShaderInfoLog { shader: b.phase->Logging_0.id, max_length: r->Int_0 },
            ])
            &&& (b.phase is Logging && b.phase->Logging_0.kind == kind_of(t) && b.phase->Logging_0.phase is Measuring
                && r is Int && r->Int_0 > 0 && t is Program) ==> (s is Query && s->Query_calls == seq![
                GlOp::GetProgramInfoLog { program: b.phase->Logging_0.id, max_length: r->Int_0 },
            ])
            &&& (b.phase is Logging && b.phase->Logging_0.phase is Reading && r is Bytes && t is Shader) ==> s == (StepModel::Done {
                calls: seq![GlOp::DeleteShader { shader: b.phase->Logging_0.id }],
                outcome: OutcomeModel::Failed(log_text(r->Bytes_0)),
            })
            &&& (b.phase is Logging && b.phase->Logging_0.phase is Reading && r is Bytes && t is Program) ==> s == (StepModel::Done {
                calls: seq![GlOp::DeleteProgram { program: b.phase->Logging_0.id }],
                outcome: OutcomeModel::Failed(log_text(r->Bytes_0)),
            })
        }),
{
}

/// Starting a build makes one call, which creates the object: a shader of
/// the target's GL type, or a program; the create call's id is awaited next.
pub proof fn law_build_start(target: BuildTarget, step: BuildStep)
    requires
        call_ensures(ObjectBuild::start, (target,), step),
    ensures
        step.deep_view() is Query,
        step.deep_view()->Query_next == (BuildModel { target: target.deep_view(), phase: BuildPhase::Creating }),
        target.deep_view() is Shader ==> step.deep_view()->Query_calls == seq![
            GlOp::CreateShader { shader_type: target.deep_view()->Shader_shader_type },
        ],
        target.deep_view() is Program ==> step.deep_view()->Query_calls == seq![GlOp::CreateProgram],
{
}

} // verus!
