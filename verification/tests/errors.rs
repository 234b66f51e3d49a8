use vita_gl_helpers::errors::{check_error, collect_errors, debug_error_line, get_error, GlError, Errors};

#[test]
fn test_gl_error_display() {
    assert_eq!(GlError::NoError.to_string(), "GL_NO_ERROR");
    assert_eq!(GlError::InvalidEnum.to_string(), "GL_INVALID_ENUM");
    assert_eq!(GlError::OutOfMemory.to_string(), "GL_OUT_OF_MEMORY");
}

#[test]
fn test_gl_error_is_error() {
    assert!(!GlError::NoError.is_error());
    assert!(GlError::InvalidEnum.is_error());
    assert!(GlError::OutOfMemory.is_error());
}

const ALL: [GlError; 8] = [
    GlError::NoError,
    GlError::InvalidEnum,
    GlError::InvalidValue,
    GlError::InvalidOperation,
    GlError::InvalidFramebufferOperation,
    GlError::OutOfMemory,
    GlError::StackUnderflow,
    GlError::StackOverflow,
];

#[test]
fn error_codes_match_gl() {
    assert_eq!(GlError::NoError.code(), gl::NO_ERROR);
    assert_eq!(GlError::InvalidEnum.code(), gl::INVALID_ENUM);
    assert_eq!(GlError::InvalidValue.code(), gl::INVALID_VALUE);
    assert_eq!(GlError::InvalidOperation.code(), gl::INVALID_OPERATION);
    assert_eq!(GlError::InvalidFramebufferOperation.code(), gl::INVALID_FRAMEBUFFER_OPERATION);
    assert_eq!(GlError::OutOfMemory.code(), gl::OUT_OF_MEMORY);
    assert_eq!(GlError::StackUnderflow.code(), gl::STACK_UNDERFLOW);
    assert_eq!(GlError::StackOverflow.code(), gl::STACK_OVERFLOW);
}

#[test]
fn error_code_round_trip() {
    for e in ALL {
        assert_eq!(GlError::from_code(e.code()), Some(e));
    }
    assert_eq!(GlError::from_code(0x1234), None);
}

#[test]
fn error_descriptions_and_report_line() {
    assert_eq!(GlError::InvalidValue.description(), "A numeric argument was out of range");
    assert_eq!(
        GlError::InvalidValue.report_line(),
        "GL ERROR: GL_INVALID_VALUE - A numeric argument was out of range"
    );
}

#[test]
fn check_error_results() {
    assert_eq!(check_error(gl::NO_ERROR), Ok(()));
    assert_eq!(check_error(gl::OUT_OF_MEMORY), Err(GlError::OutOfMemory));
    assert_eq!(get_error(gl::INVALID_OPERATION), GlError::InvalidOperation);
}

#[test]
fn errors_stop_at_no_error() {
    let mut errors = Errors;
    let codes = [gl::INVALID_ENUM, gl::STACK_OVERFLOW, gl::NO_ERROR];
    let mut seen = Vec::new();
    for code in codes {
        match errors.next(code) {
            Some(e) => seen.push(e),
            None => break,
        }
    }
    assert_eq!(seen, vec![GlError::InvalidEnum, GlError::StackOverflow]);
}

#[test]
fn assert_no_error_accepts_no_error() {
    vita_gl_helpers::errors::assert_no_error(gl::NO_ERROR);
    vita_gl_helpers::errors::debug_check_error("draw");
}

#[test]
fn debug_error_line_reports_operation() {
    assert_eq!(debug_error_line("draw", gl::NO_ERROR), None);
    assert_eq!(
        debug_error_line("draw", gl::INVALID_ENUM),
        Some(String::from(
            "GL ERROR during 'draw': GL_INVALID_ENUM - An unacceptable value was specified for an enumerated argument"
        ))
    );
}

#[test]
fn collect_errors_drains_queue_in_order() {
    let codes = vec![gl::INVALID_VALUE, gl::OUT_OF_MEMORY, gl::NO_ERROR, gl::INVALID_ENUM];
    assert_eq!(collect_errors(&codes), vec![GlError::InvalidValue, GlError::OutOfMemory]);
    assert_eq!(collect_errors(&vec![gl::NO_ERROR]), Vec::<GlError>::new());
    assert_eq!(collect_errors(&vec![gl::STACK_OVERFLOW]), vec![GlError::StackOverflow]);
}
