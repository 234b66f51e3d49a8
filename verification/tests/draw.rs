use gl::types::GLenum;

use vita_gl_helpers::buffer::Buffer;
use vita_gl_helpers::call::{GlCall, IndexSource};
use vita_gl_helpers::draw::{
    draw_arrays, draw_arrays_instanced, Elements, ElementsBufIdU32, ElementsBufU16, ElementsU16, Mode,
};

#[test]
fn test_mode_conversion() {
    assert_eq!(GLenum::from(Mode::Triangles), gl::TRIANGLES);
    assert_eq!(GLenum::from(Mode::Points), gl::POINTS);
    // GL_QUADS (0x0007) is not in the core-profile bindings of the `gl` crate.
    assert_eq!(GLenum::from(Mode::Quads), 0x0007);
}

#[test]
fn mode_enums_match_gl() {
    assert_eq!(Mode::Lines.gl_enum(), gl::LINES);
    assert_eq!(Mode::LineStrip.gl_enum(), gl::LINE_STRIP);
    assert_eq!(Mode::LineLoop.gl_enum(), gl::LINE_LOOP);
    assert_eq!(Mode::TriangleStrip.gl_enum(), gl::TRIANGLE_STRIP);
    assert_eq!(Mode::TriangleFan.gl_enum(), gl::TRIANGLE_FAN);
}

#[test]
fn draw_arrays_calls() {
    assert!(matches!(draw_arrays(Mode::Triangles, 0, 3), GlCall::DrawArrays { mode: 4, first: 0, count: 3 }));
    assert!(matches!(
        draw_arrays_instanced(Mode::TriangleStrip, 0, 4, 100),
        GlCall::DrawArraysInstanced { mode: 5, first: 0, count: 4, primcount: 100 }
    ));
}

#[test]
fn draw_client_indices_unbinds_element_buffer() {
    let indices: [u16; 6] = [0, 1, 2, 2, 3, 0];
    let calls = ElementsU16 { indices: &indices }.draw(Mode::Triangles);
    assert_eq!(calls.len(), 2);
    assert!(matches!(calls[0], GlCall::BindBuffer { target: gl::ELEMENT_ARRAY_BUFFER, buffer: 0 }));
    assert!(matches!(
        calls[1],
        GlCall::DrawElements { mode: 4, count: 6, type_: gl::UNSIGNED_SHORT, indices: IndexSource::Client }
    ));
}

#[test]
fn draw_buffer_indices_binds_the_buffer() {
    let e = ElementsBufU16 { indices: Buffer::from_raw(8), len: 6 };
    let calls = e.draw_instanced(Mode::Triangles, 10);
    assert!(matches!(calls[0], GlCall::BindBuffer { target: gl::ELEMENT_ARRAY_BUFFER, buffer: 8 }));
    assert!(matches!(
        calls[1],
        GlCall::DrawElementsInstanced {
            count: 6,
            type_: gl::UNSIGNED_SHORT,
            indices: IndexSource::BufferOffset(0),
            primcount: 10,
            ..
        }
    ));
}

#[test]
fn draw_invalid_buffer_indices_binds_nothing() {
    let e = ElementsBufU16 { indices: Buffer::from_raw(0), len: 3 };
    let calls = e.draw(Mode::Points);
    assert_eq!(calls.len(), 1);
    assert!(matches!(calls[0], GlCall::DrawElements { mode: 0, count: 3, type_: gl::UNSIGNED_SHORT, .. }));
    let calls = e.draw_instanced(Mode::Points, 4);
    assert_eq!(calls.len(), 1);
    assert!(matches!(calls[0], GlCall::DrawElementsInstanced { mode: 0, count: 3, primcount: 4, .. }));
}

#[test]
fn draw_raw_buffer_id_indices() {
    let calls = ElementsBufIdU32 { buffer_id: 12, len: 9 }.draw(Mode::Lines);
    assert!(matches!(calls[0], GlCall::BindBuffer { target: gl::ELEMENT_ARRAY_BUFFER, buffer: 12 }));
    assert!(matches!(calls[1], GlCall::DrawElements { mode: 1, count: 9, type_: gl::UNSIGNED_INT, .. }));
}
