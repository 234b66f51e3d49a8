use vita_gl_helpers::glenum;

#[test]
fn enumerants_match_the_gl_bindings() {
    assert_eq!(glenum::FALSE, gl::FALSE);
    assert_eq!(glenum::TRUE, gl::TRUE);
    assert_eq!(glenum::POINTS, gl::POINTS);
    assert_eq!(glenum::LINES, gl::LINES);
    assert_eq!(glenum::LINE_LOOP, gl::LINE_LOOP);
    assert_eq!(glenum::LINE_STRIP, gl::LINE_STRIP);
    assert_eq!(glenum::TRIANGLES, gl::TRIANGLES);
    assert_eq!(glenum::TRIANGLE_STRIP, gl::TRIANGLE_STRIP);
    assert_eq!(glenum::TRIANGLE_FAN, gl::TRIANGLE_FAN);
    assert_eq!(glenum::BYTE, gl::BYTE);
    assert_eq!(glenum::UNSIGNED_BYTE, gl::UNSIGNED_BYTE);
    assert_eq!(glenum::SHORT, gl::SHORT);
    assert_eq!(glenum::UNSIGNED_SHORT, gl::UNSIGNED_SHORT);
    assert_eq!(glenum::UNSIGNED_INT, gl::UNSIGNED_INT);
    assert_eq!(glenum::FLOAT, gl::FLOAT);
    assert_eq!(glenum::FIXED, gl::FIXED);
    assert_eq!(glenum::NO_ERROR, gl::NO_ERROR);
    assert_eq!(glenum::INVALID_ENUM, gl::INVALID_ENUM);
    assert_eq!(glenum::INVALID_VALUE, gl::INVALID_VALUE);
    assert_eq!(glenum::INVALID_OPERATION, gl::INVALID_OPERATION);
    assert_eq!(glenum::STACK_OVERFLOW, gl::STACK_OVERFLOW);
    assert_eq!(glenum::STACK_UNDERFLOW, gl::STACK_UNDERFLOW);
    assert_eq!(glenum::OUT_OF_MEMORY, gl::OUT_OF_MEMORY);
    assert_eq!(glenum::INVALID_FRAMEBUFFER_OPERATION, gl::INVALID_FRAMEBUFFER_OPERATION);
    assert_eq!(glenum::ARRAY_BUFFER, gl::ARRAY_BUFFER);
    assert_eq!(glenum::ELEMENT_ARRAY_BUFFER, gl::ELEMENT_ARRAY_BUFFER);
    assert_eq!(glenum::FRAGMENT_SHADER, gl::FRAGMENT_SHADER);
    assert_eq!(glenum::VERTEX_SHADER, gl::VERTEX_SHADER);
    assert_eq!(glenum::COMPILE_STATUS, gl::COMPILE_STATUS);
    assert_eq!(glenum::LINK_STATUS, gl::LINK_STATUS);
    assert_eq!(glenum::INFO_LOG_LENGTH, gl::INFO_LOG_LENGTH);
    assert_eq!(glenum::TEXTURE0, gl::TEXTURE0);
    assert_eq!(glenum::NEAREST, gl::NEAREST);
    assert_eq!(glenum::LINEAR, gl::LINEAR);
    assert_eq!(glenum::TEXTURE_MAG_FILTER, gl::TEXTURE_MAG_FILTER);
    assert_eq!(glenum::TEXTURE_MIN_FILTER, gl::TEXTURE_MIN_FILTER);
    assert_eq!(glenum::TEXTURE_WRAP_S, gl::TEXTURE_WRAP_S);
    assert_eq!(glenum::TEXTURE_WRAP_T, gl::TEXTURE_WRAP_T);
    // GL_QUADS is not in the core profile that the `gl` crate binds; its
    // registry value is 0x0007.
    assert_eq!(glenum::QUADS, 0x0007);
}
