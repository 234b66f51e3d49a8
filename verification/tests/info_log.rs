use vita_gl_helpers::call::{GlCall, Reply};
use vita_gl_helpers::info_log::{info_log_text, InfoLogRead, LogStep, ObjectKind};

#[test]
fn info_log_drops_one_trailing_nul() {
    assert_eq!(info_log_text(b"bad token\0".to_vec()), "bad token");
    assert_eq!(info_log_text(b"no nul".to_vec()), "no nul");
    assert_eq!(info_log_text(b"two\0\0".to_vec()), "two\0");
    assert_eq!(info_log_text(Vec::new()), "");
}

#[test]
fn info_log_replaces_invalid_utf8() {
    assert_eq!(info_log_text(vec![b'a', 0xff, b'b', 0]), "a\u{FFFD}b");
}

#[test]
fn info_log_read_of_empty_log() {
    match InfoLogRead::start(ObjectKind::Shader, 4) {
        LogStep::Query { call, next } => {
            assert_eq!(call, GlCall::GetShaderiv { shader: 4, pname: gl::INFO_LOG_LENGTH });
            assert!(next.accepts(&Reply::Int(0)));
            assert!(!next.accepts(&Reply::Bytes(Vec::new())));
            assert_eq!(next.advance(Reply::Int(0)), LogStep::Done(String::new()));
        }
        other => panic!("unexpected {:?}", other),
    }
}
