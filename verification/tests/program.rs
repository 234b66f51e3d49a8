use vita_gl_helpers::call::{GlCall, Reply};
use vita_gl_helpers::info_log::LogStep;
use vita_gl_helpers::program::{link_program, LegacyProgram, Program, ProgramError};
use vita_gl_helpers::protocol::{BuildOutcome, BuildStep};
use vita_gl_helpers::shader::{LegacyShader, Shader, ShaderType};
use vita_gl_helpers::uniforms::{Uniform4fv, UniformMatrix4fv, UniformTable};

fn run(mut step: BuildStep, replies: Vec<Reply>) -> (Vec<GlCall>, BuildOutcome) {
    let mut made = Vec::new();
    let mut replies = replies.into_iter();
    loop {
        match step {
            BuildStep::Query { calls, next } => {
                made.extend(calls);
                step = next.advance(replies.next().expect("a reply"));
            }
            BuildStep::Done { calls, outcome } => {
                made.extend(calls);
                return (made, outcome);
            }
        }
    }
}

fn shader(id: u32, t: ShaderType) -> Shader {
    let (_, outcome) = run(Shader::compile("s", t), vec![Reply::Id(id), Reply::Int(1)]);
    Shader::from_build(outcome, t).unwrap()
}

#[test]
fn link_success() {
    let vert = shader(1, ShaderType::Vertex);
    let frag = shader(2, ShaderType::Fragment);
    let (calls, outcome) = run(Program::link(&vert, &frag), vec![Reply::Id(10), Reply::Int(1)]);
    assert!(matches!(calls[0], GlCall::CreateProgram));
    assert!(matches!(calls[1], GlCall::AttachShader { program: 10, shader: 1 }));
    assert!(matches!(calls[2], GlCall::AttachShader { program: 10, shader: 2 }));
    assert!(matches!(calls[3], GlCall::LinkProgram { program: 10 }));
    assert!(matches!(calls[4], GlCall::GetProgramiv { program: 10, pname: gl::LINK_STATUS }));
    assert_eq!(calls.len(), 5);
    let program = Program::from_build(outcome).unwrap();
    assert_eq!(program.id(), Some(10));
    assert!(program.is_valid());
    assert!(matches!(program.use_program(), Some(GlCall::UseProgram { program: 10 })));
    assert!(matches!(program.use_me(), Some(GlCall::UseProgram { program: 10 })));
}

#[test]
fn link_failure_deletes_program() {
    let vert = shader(1, ShaderType::Vertex);
    let frag = shader(2, ShaderType::Fragment);
    let (calls, outcome) = run(
        Program::link(&vert, &frag),
        vec![Reply::Id(10), Reply::Int(0), Reply::Int(5), Reply::Bytes(b"oops".to_vec())],
    );
    assert!(matches!(calls.last(), Some(GlCall::DeleteProgram { program: 10 })));
    let err = Program::from_build(outcome).err().unwrap();
    assert_eq!(err.to_string(), "Program linking failed:\noops");
}

#[test]
fn link_without_program_object() {
    let (_, outcome) = run(link_program(LegacyShader(1), LegacyShader(2)), vec![Reply::Id(0)]);
    let err = LegacyProgram::from_build(outcome).err().unwrap();
    assert!(matches!(err, ProgramError::NoProgram));
    assert_eq!(err.to_string(), "Failed to create program object");
}

#[test]
fn location_queries() {
    let program = Program::from_raw(3);
    match program.get_uniform_location("uMVP") {
        Some(GlCall::GetUniformLocation { program, name }) => assert_eq!((program, name.as_str()), (3, "uMVP")),
        other => panic!("unexpected {:?}", other),
    }
    assert!(program.get_attrib_location("a\0b").is_none());
    assert!(Program::from_raw(0).get_attrib_location("aPos").is_none());
    match program.get_attrib_location("aPos") {
        Some(GlCall::GetAttribLocation { program, name }) => assert_eq!((program, name.as_str()), (3, "aPos")),
        other => panic!("unexpected {:?}", other),
    }
}

struct MyUniforms {
    mvp: UniformMatrix4fv,
    color: Uniform4fv,
}

impl UniformTable for MyUniforms {
    fn names() -> Vec<&'static str> {
        vec!["uMVP", "uColor"]
    }

    fn from_locations(locations: Vec<i32>) -> Self {
        MyUniforms { mvp: UniformMatrix4fv(locations[0]), color: Uniform4fv(locations[1]) }
    }
}

#[test]
fn uniform_table_from_program() {
    let program = Program::from_raw(3);
    let table: MyUniforms = program.get_uniform_table(&vec![0, 4]).ok().unwrap();
    assert_eq!((table.mvp.location(), table.color.location()), (0, 4));
    let err = program.get_uniform_table::<MyUniforms>(&vec![-1, 4]).err().unwrap();
    assert_eq!(err.0, vec!["uMVP"]);
}

#[test]
fn program_info_log_read() {
    let program = Program::from_raw(3);
    match program.info_log() {
        LogStep::Query { call, next } => {
            assert!(matches!(call, GlCall::GetProgramiv { program: 3, pname: gl::INFO_LOG_LENGTH }));
            match next.advance(Reply::Int(3)) {
                LogStep::Query { call, next } => {
                    assert!(matches!(call, GlCall::GetProgramInfoLog { program: 3, max_length: 3 }));
                    match next.advance(Reply::Bytes(b"ok\0".to_vec())) {
                        LogStep::Done(text) => assert_eq!(text, "ok"),
                        other => panic!("unexpected {:?}", other),
                    }
                }
                other => panic!("unexpected {:?}", other),
            }
        }
        other => panic!("unexpected {:?}", other),
    }
    assert!(matches!(Program::from_raw(0).info_log(), LogStep::Done(text) if text.is_empty()));
}

#[test]
fn program_release() {
    let mut program = Program::from_raw(4);
    assert!(matches!(program.release(), Some(GlCall::DeleteProgram { program: 4 })));
    assert_eq!(program.into_raw(), None);
}

#[test]
fn legacy_program_calls() {
    let p = LegacyProgram(6);
    assert!(matches!(p.use_me(), GlCall::UseProgram { program: 6 }));
    assert!(matches!(p.delete(), GlCall::DeleteProgram { program: 6 }));
    assert_eq!(u32::from(p), 6);
}
