use vita_gl_helpers::call::GlCall;
use vita_gl_helpers::texture::Texture;

#[test]
fn test_texture_batch_creation() {
    let textures = Texture::new_batch(vec![3, 0, 8, 9, 10]);
    assert_eq!(textures.len(), 5);
    assert_eq!(textures[0].id(), Some(3));
    assert!(!textures[1].is_valid());
    assert_eq!(textures[4].id_unwrap(), 10);
}

#[test]
fn texture_bind_to_unit() {
    let texture = Texture::from_raw(7);
    let calls = texture.bind_to_unit(2, gl::TEXTURE_2D);
    assert!(matches!(calls[0], GlCall::ActiveTexture { texture } if texture == gl::TEXTURE0 + 2));
    assert!(matches!(calls[1], GlCall::BindTexture { target: gl::TEXTURE_2D, texture: 7 }));
}

#[test]
fn texture_parameters() {
    let texture = Texture::from_raw(7);
    let (bind, calls) = texture.bind_then(gl::TEXTURE_2D, |bound| bound.set_linear_filtering());
    assert!(matches!(bind, Some(GlCall::BindTexture { target: gl::TEXTURE_2D, texture: 7 })));
    assert!(matches!(
        calls[0],
        GlCall::TexParameteri { target: gl::TEXTURE_2D, pname: gl::TEXTURE_MIN_FILTER, param } if param == gl::LINEAR as i32
    ));
    assert!(matches!(
        calls[1],
        GlCall::TexParameteri { target: gl::TEXTURE_2D, pname: gl::TEXTURE_MAG_FILTER, param } if param == gl::LINEAR as i32
    ));
    let (_, wrap) = texture.bind_then(gl::TEXTURE_2D, |bound| bound.set_wrap(0x812F));
    assert!(matches!(wrap[0], GlCall::TexParameteri { pname: gl::TEXTURE_WRAP_S, param: 0x812F, .. }));
    assert!(matches!(wrap[1], GlCall::TexParameteri { pname: gl::TEXTURE_WRAP_T, param: 0x812F, .. }));
    let (_, nearest) = texture.bind_then(gl::TEXTURE_2D, |bound| bound.set_nearest_filtering());
    assert!(matches!(nearest[0], GlCall::TexParameteri { param, .. } if param == gl::NEAREST as i32));
    let (_, image) = texture.bind_then(gl::TEXTURE_2D, |bound| bound.image_2d(0, gl::RGBA as i32, 4, 4, gl::RGBA, gl::UNSIGNED_BYTE));
    assert!(matches!(image, GlCall::TexImage2D { width: 4, height: 4, border: 0, .. }));
}

#[test]
fn null_texture_binds_nothing_and_releases_nothing() {
    let mut texture = Texture::from_raw(0);
    assert!(texture.bind(gl::TEXTURE_2D).is_none());
    assert_eq!(texture.bind_to_unit(0, gl::TEXTURE_2D).len(), 1);
    assert!(texture.release().is_none());
}
