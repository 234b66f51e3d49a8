use vita_gl_helpers::attribute::{Attribute, AttributeFormat};
use vita_gl_helpers::buffer::Buffer;
use vita_gl_helpers::call::GlCall;

#[test]
fn test_buffer_batch_creation() {
    let buffers = Buffer::new_batch(vec![1, 2, 0]);
    assert_eq!(buffers.len(), 3);
    assert_eq!(buffers[0].id(), Some(1));
    assert_eq!(buffers[1].id(), Some(2));
    assert!(!buffers[2].is_valid());
}

#[test]
fn buffer_bind_and_data() {
    let buffer = Buffer::from_raw(4);
    assert!(matches!(buffer.bind(gl::ARRAY_BUFFER), Some(GlCall::BindBuffer { target: gl::ARRAY_BUFFER, buffer: 4 })));
    let vertices: [f32; 6] = [0.0, 0.5, 0.5, -0.5, -0.5, -0.5];
    let calls = buffer.data(gl::ARRAY_BUFFER, &vertices, gl::STATIC_DRAW);
    assert_eq!(calls.len(), 2);
    assert!(matches!(calls[1], GlCall::BufferData { target: gl::ARRAY_BUFFER, bytes: 24, usage: gl::STATIC_DRAW }));
}

#[test]
fn null_buffer_binds_nothing() {
    let buffer = Buffer::from_raw(0);
    assert!(buffer.bind(gl::ARRAY_BUFFER).is_none());
    let calls = buffer.bind_to(Attribute::new(1), AttributeFormat::FLOAT3(), 0, 0);
    assert_eq!(calls.len(), 1);
    assert!(matches!(calls[0], GlCall::VertexAttribPointer { index: 1, size: 3, .. }));
}

#[test]
fn buffer_bind_to_binds_array_buffer_first() {
    let buffer = Buffer::from_raw(6);
    let calls = buffer.bind_to(Attribute::new(2), AttributeFormat::FLOAT2(), 8, 16);
    assert!(matches!(calls[0], GlCall::BindBuffer { target: gl::ARRAY_BUFFER, buffer: 6 }));
    assert!(matches!(calls[1], GlCall::VertexAttribPointer { index: 2, size: 2, stride: 8, offset: 16, .. }));
}

#[test]
fn buffer_release_and_into_raw() {
    let mut buffer = Buffer::from_raw(5);
    assert!(matches!(buffer.release(), Some(GlCall::DeleteBuffers { buffer: 5 })));
    assert!(buffer.release().is_none());
    assert_eq!(Buffer::from_raw(3).into_raw(), Some(3));
}

#[test]
fn buffer_bind_then_runs_closure() {
    let buffer = Buffer::from_raw(2);
    let (bind, n) = buffer.bind_then(gl::ELEMENT_ARRAY_BUFFER, |bound| bound.0 + 1);
    assert!(matches!(bind, Some(GlCall::BindBuffer { target: gl::ELEMENT_ARRAY_BUFFER, buffer: 2 })));
    assert_eq!(n, gl::ELEMENT_ARRAY_BUFFER + 1);
}

#[test]
fn null_buffer_uploads_nothing() {
    let buffer = Buffer::from_raw(0);
    let vertices: [f32; 3] = [1.0, 2.0, 3.0];
    assert!(buffer.data(gl::ARRAY_BUFFER, &vertices, gl::STATIC_DRAW).is_empty());
}
