use gl::types::GLenum;

use vita_gl_helpers::call::{GlCall, Reply};
use vita_gl_helpers::protocol::{BuildOutcome, BuildStep};
use vita_gl_helpers::shader::{load_shader, LegacyShader, Shader, ShaderError, ShaderType};

#[test]
fn test_shader_type_conversion() {
    assert_eq!(GLenum::from(ShaderType::Vertex), gl::VERTEX_SHADER);
    assert_eq!(GLenum::from(ShaderType::Fragment), gl::FRAGMENT_SHADER);
}

/// Runs a build to its end, answering the queries from `replies` in turn.
fn run(mut step: BuildStep, replies: Vec<Reply>) -> (Vec<GlCall>, BuildOutcome) {
    let mut made = Vec::new();
    let mut replies = replies.into_iter();
    loop {
        match step {
            BuildStep::Query { calls, next } => {
                made.extend(calls);
                step = next.advance(replies.next().expect("a reply"));
            }
            BuildStep::Done { calls, outcome } => {
                made.extend(calls);
                return (made, outcome);
            }
        }
    }
}

#[test]
fn compile_success() {
    let (calls, outcome) = run(Shader::compile("void main() {}", ShaderType::Vertex), vec![Reply::Id(5), Reply::Int(1)]);
    assert_eq!(calls.len(), 4);
    assert!(matches!(calls[0], GlCall::CreateShader { shader_type: gl::VERTEX_SHADER }));
    match &calls[1] {
        GlCall::ShaderSource { shader, source } => assert_eq!((*shader, source.as_str()), (5, "void main() {}")),
        other => panic!("unexpected call {:?}", other),
    }
    assert!(matches!(calls[2], GlCall::CompileShader { shader: 5 }));
    assert!(matches!(calls[3], GlCall::GetShaderiv { shader: 5, pname: gl::COMPILE_STATUS }));
    let shader = Shader::from_build(outcome, ShaderType::Vertex).unwrap();
    assert_eq!(shader.id(), Some(5));
    assert_eq!(shader.shader_type(), ShaderType::Vertex);
}

#[test]
fn compile_no_shader() {
    let (calls, outcome) = run(Shader::compile("x", ShaderType::Fragment), vec![Reply::Id(0)]);
    assert_eq!(calls.len(), 1);
    assert!(matches!(calls[0], GlCall::CreateShader { shader_type: gl::FRAGMENT_SHADER }));
    let err = Shader::from_build(outcome, ShaderType::Fragment).err().unwrap();
    assert!(matches!(err, ShaderError::NoShader));
    assert_eq!(err.to_string(), "Failed to create shader object");
}

#[test]
fn compile_failure_reads_log_and_deletes() {
    let log = b"error: bad\0".to_vec();
    let (calls, outcome) = run(
        Shader::compile("x", ShaderType::Fragment),
        vec![Reply::Id(3), Reply::Int(0), Reply::Int(11), Reply::Bytes(log)],
    );
    assert!(matches!(calls[4], GlCall::GetShaderiv { shader: 3, pname: gl::INFO_LOG_LENGTH }));
    assert!(matches!(calls[5], GlCall::GetShaderInfoLog { shader: 3, max_length: 11 }));
    assert!(matches!(calls[6], GlCall::DeleteShader { shader: 3 }));
    assert_eq!(calls.len(), 7);
    let err = Shader::from_build(outcome, ShaderType::Fragment).err().unwrap();
    match &err {
        ShaderError::CompileError(text) => assert_eq!(text, "error: bad"),
        other => panic!("unexpected error {:?}", other),
    }
    assert_eq!(err.to_string(), "Shader compilation failed:\nerror: bad");
}

#[test]
fn compile_failure_with_empty_log() {
    let (calls, outcome) = run(
        Shader::compile("x", ShaderType::Vertex),
        vec![Reply::Id(3), Reply::Int(0), Reply::Int(0)],
    );
    assert!(matches!(calls.last(), Some(GlCall::DeleteShader { shader: 3 })));
    match outcome {
        BuildOutcome::Failed(text) => assert_eq!(text, ""),
        other => panic!("unexpected outcome {:?}", other),
    }
}

#[test]
fn shader_release_and_info_log() {
    let (_, outcome) = run(Shader::compile("x", ShaderType::Vertex), vec![Reply::Id(9), Reply::Int(1)]);
    let mut shader = Shader::from_build(outcome, ShaderType::Vertex).unwrap();
    assert!(matches!(shader.release(), Some(GlCall::DeleteShader { shader: 9 })));
    assert!(!shader.is_valid());
    assert!(shader.release().is_none());
}

#[test]
fn load_shader_checks_the_type() {
    assert!(matches!(load_shader("x", 0x1234), Err(ShaderError::NoShader)));
    let step = load_shader("x", gl::VERTEX_SHADER).ok().unwrap();
    let (_, outcome) = run(step, vec![Reply::Id(4), Reply::Int(1)]);
    let legacy = LegacyShader::from_build(outcome).ok().unwrap();
    assert_eq!(legacy.0, 4);
    assert!(!legacy.is_null());
    assert!(matches!(legacy.delete(), GlCall::DeleteShader { shader: 4 }));
    assert_eq!(u32::from(legacy), 4);
}
