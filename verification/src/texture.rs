//! Texture objects.
//!
//! The driver generates texture ids (`glGenTextures`) and hands them to
//! [`Texture::from_raw`] or [`Texture::new_batch`]; deleting a texture when it
//! is dropped is the driver's part, through [`Texture::release`].

use vstd::prelude::*;

use crate::call::{opt_ops, pair, GlCall, GlOp};
use crate::glenum;
use crate::handle::{owned, GpuResource, Handle};

verus! {

/// Marker type for texture resources.
#[derive(Debug)]
pub struct TextureResource;

impl GpuResource for TextureResource {
    type Id = u32;

    fn is_null(id: u32) -> (b: bool)
        ensures
            b == (id == 0),
    {
        id == 0
    }

    fn resource_name() -> (s: &'static str)
        ensures
            s@ == "Texture"@,
    {
        "Texture"
    }
}

/// The binding of a texture whose handle state is `h`: none for a null texture.
pub open spec fn bind_texture_ops(target: u32, h: Option<u32>) -> Seq<GlOp> {
    match h {
        Some(id) => seq![GlOp::BindTexture { target, texture: id }],
        None => seq![],
    }
}

/// A GPU texture object.
#[derive(Debug)]
pub struct Texture(Handle<TextureResource>);

impl View for Texture {
    type V = Option<u32>;

    /// The id the texture owns, if any.
    closed spec fn view(&self) -> Option<u32> {
        self.0@
    }
}

impl Texture {
    /// Takes ownership of a texture id that `glGenTextures` produced; id 0
    /// gives an invalid texture.
    pub fn from_raw(id: u32) -> (t: Texture)
        ensures
            t@ == owned(id),
    {
        Texture(Handle::from_raw(id))
    }

    /// The textures of the ids that one `glGenTextures` call produced, in order.
    pub fn new_batch(ids: Vec<u32>) -> (textures: Vec<Texture>)
        ensures
            textures@.len() == ids@.len(),
            forall|i: int| 0 <= i < ids@.len() ==> (#[trigger] textures@[i])@ == owned(ids@[i]),
    {
        let mut textures: Vec<Texture> = Vec::new();
        let mut i: usize = 0;
        while i < ids.len()
            invariant
                0 <= i <= ids@.len(),
                textures@.len() == i,
                forall|j: int| 0 <= j < i ==> (#[trigger] textures@[j])@ == owned(ids@[j]),
            decreases ids.len() - i,
        {
            textures.push(Texture::from_raw(ids[i]));
            i += 1;
        }
        textures
    }

    /// The raw OpenGL texture id; `None` if the texture is invalid.
    pub fn id(&self) -> (r: Option<u32>)
        ensures
            r == self@,
    {
        self.0.id()
    }

    /// The raw OpenGL texture id of a valid texture.
    pub fn id_unwrap(&self) -> (r: u32)
        requires
            self@ is Some,
        ensures
            r == self@->0,
    {
        self.0.id_unwrap()
    }

    /// Whether this texture is valid.
    pub fn is_valid(&self) -> (b: bool)
        ensures
            b == (self@ is Some),
    {
        self.0.is_valid()
    }

    /// Gives up ownership of the id: the caller now deletes the texture.
    pub fn into_raw(self) -> (r: Option<u32>)
        ensures
            r == self@,
    {
        self.0.into_raw()
    }

    /// What dropping the texture does: the call that deletes it, if it is
    /// valid; the texture becomes invalid.
    pub fn release(&mut self) -> (c: Option<GlCall>)
        ensures
            final(self)@ is None,
            c matches Some(c) ==> old(self)@ matches Some(id) && c.deep_view() == (GlOp::DeleteTextures { texture: id }),
            c is None ==> old(self)@ is None,
    {
        match self.0.release() {
            Some(id) => Some(GlCall::DeleteTextures { texture: id }),
            None => None,
        }
    }

    /// The call that binds this texture to `target` (such as
    /// `GL_TEXTURE_2D`); none for an invalid texture.
    pub fn bind(&self, target: u32) -> (c: Option<GlCall>)
        ensures
            self@ matches Some(id) ==> (c matches Some(c) && c.deep_view() == (GlOp::BindTexture { target, texture: id })),
            self@ is None ==> c is None,
            opt_ops(c) == bind_texture_ops(target, self@),
    {
        match self.0.id() {
            Some(id) => Some(GlCall::BindTexture { target, texture: id }),
            None => None,
        }
    }

    /// Binds this texture to `target`, then runs `then` on the bound texture:
    /// the binding call and what `then` returned.
    pub fn bind_then<R, F: FnOnce(BoundTexture) -> R>(&self, target: u32, then: F) -> (r: (Option<GlCall>, R))
        requires
            then.requires((BoundTexture(target),)),
        ensures
            opt_ops(r.0) == bind_texture_ops(target, self@),
            then.ensures((BoundTexture(target),), r.1),
    {
        let c = self.bind(target);
        (c, then(BoundTexture(target)))
    }

    /// The calls that activate texture unit `unit` and bind this texture to
    /// `target` there (no binding for an invalid texture).
    pub fn bind_to_unit(&self, unit: u32, target: u32) -> (calls: Vec<GlCall>)
        requires
            glenum::TEXTURE0 + unit <= u32::MAX,
        ensures
            calls.deep_view() == seq![GlOp::ActiveTexture { texture: (glenum::TEXTURE0 + unit) as u32 }]
                + bind_texture_ops(target, self@),
    {
        let mut calls = Vec::new();
        calls.push(GlCall::ActiveTexture { texture: glenum::TEXTURE0 + unit });
        if let Some(c) = self.bind(target) {
            calls.push(c);
        }
        assert(calls.deep_view() =~= seq![GlOp::ActiveTexture { texture: (glenum::TEXTURE0 + unit) as u32 }]
            + bind_texture_ops(target, self@));
        calls
    }
}

/// The call that sets integer parameter `pname` of the texture bound to `target`.
pub open spec fn parameter_op(target: u32, pname: u32, param: i32) -> GlOp {
    GlOp::TexParameteri { target, pname, param }
}

/// A texture bound to a target; only this library makes one.
#[non_exhaustive]
pub struct BoundTexture(pub u32);

impl BoundTexture {
    /// The call that uploads 2D image data of mipmap `level` (0 for the base
    /// level) to the bound texture, the pixels being those the driver holds
    /// (none for allocation only). The border is always 0.
    pub fn image_2d(&self, level: i32, internalformat: i32, width: i32, height: i32, format: u32, type_: u32) -> (c: GlCall)
        ensures
            c.deep_view() == (GlOp::TexImage2D {
                target: self.0,
                level,
                internalformat,
                width,
                height,
                border: 0,
                format,
                type_,
            }),
    {
        GlCall::TexImage2D { target: self.0, level, internalformat, width, height, border: 0, format, type_ }
    }

    /// The call that generates mipmaps for the bound texture.
    pub fn gen_mipmap(&self) -> (c: GlCall)
        ensures
            c.deep_view() == (GlOp::GenerateMipmap { target: self.0 }),
    {
        GlCall::GenerateMipmap { target: self.0 }
    }

    /// The call that sets integer parameter `pname` (such as
    /// `GL_TEXTURE_MIN_FILTER`) to `param`.
    pub fn parameter_i(&self, pname: u32, param: i32) -> (c: GlCall)
        ensures
            c.deep_view() == parameter_op(self.0, pname, param),
    {
        GlCall::TexParameteri { target: self.0, pname, param }
    }

    /// The calls that set linear filtering: minification, then magnification.
    pub fn set_linear_filtering(&self) -> (calls: Vec<GlCall>)
        ensures
            calls.deep_view() == seq![
                parameter_op(self.0, glenum::TEXTURE_MIN_FILTER, glenum::LINEAR as i32),
                parameter_op(self.0, glenum::TEXTURE_MAG_FILTER, glenum::LINEAR as i32),
            ],
    {
        pair(
            self.parameter_i(glenum::TEXTURE_MIN_FILTER, glenum::LINEAR as i32),
            self.parameter_i(glenum::TEXTURE_MAG_FILTER, glenum::LINEAR as i32),
        )
    }

    /// The calls that set nearest (pixel) filtering: minification, then magnification.
    pub fn set_nearest_filtering(&self) -> (calls: Vec<GlCall>)
        ensures
            calls.deep_view() == seq![
                parameter_op(self.0, glenum::TEXTURE_MIN_FILTER, glenum::NEAREST as i32),
                parameter_op(self.0, glenum::TEXTURE_MAG_FILTER, glenum::NEAREST as i32),
            ],
    {
        pair(
            self.parameter_i(glenum::TEXTURE_MIN_FILTER, glenum::NEAREST as i32),
            self.parameter_i(glenum::TEXTURE_MAG_FILTER, glenum::NEAREST as i32),
        )
    }

    /// The calls that set the wrap mode of both S and T coordinates.
    pub fn set_wrap(&self, wrap_mode: i32) -> (calls: Vec<GlCall>)
        ensures
            calls.deep_view() == seq![
                parameter_op(self.0, glenum::TEXTURE_WRAP_S, wrap_mode),
                parameter_op(self.0, glenum::TEXTURE_WRAP_T, wrap_mode),
            ],
    {
        pair(
            self.parameter_i(glenum::TEXTURE_WRAP_S, wrap_mode),
            self.parameter_i(glenum::TEXTURE_WRAP_T, wrap_mode),
        )
    }
}

/// Setting a parameter of a bound texture makes one `glTexParameteri` for
/// the target the texture is bound to, with the parameter name and value
/// given.
pub proof fn law_parameter_of_bound_target(b: BoundTexture, pname: u32, param: i32, c: GlCall)
    requires
        call_ensures(BoundTexture::parameter_i, (&b, pname, param), c),
    ensures
        c.deep_view() == (GlOp::TexParameteri { target: b.0, pname, param }),
{
}

/// Binding a texture to a unit first activates texture unit `unit`
/// (`GL_TEXTURE0 + unit`), then binds a valid texture to `target` there; an
/// invalid texture is not bound.
pub proof fn law_bind_to_unit(t: Texture, unit: u32, target: u32, calls: Vec<GlCall>)
    requires
        glenum::TEXTURE0 + unit <= u32::MAX,
        call_ensures(Texture::bind_to_unit, (&t, unit, target), calls),
    ensures
        calls@.len() >= 1,
        calls@[0].deep_view() == (GlOp::ActiveTexture { texture: (glenum::TEXTURE0 + unit) as u32 }),
        t@ matches Some(id) ==> calls@.len() == 2 && calls@[1].deep_view() == (GlOp::BindTexture { target, texture: id }),
        t@ is None ==> calls@.len() == 1,
{
    assert(calls@.len() == calls.deep_view().len());
    assert(calls@[0].deep_view() == calls.deep_view()[0]);
    if t@ is Some {
        assert(calls@[1].deep_view() == calls.deep_view()[1]);
    }
}

/// Binding a texture then running a step on it binds a valid texture to
/// `target`, and hands the step a texture bound to that same target.
pub proof fn law_bind_then_target<R, F: FnOnce(BoundTexture) -> R>(t: Texture, target: u32, then: F, r: (Option<GlCall>, R))
    requires
        call_ensures(Texture::bind_then::<R, F>, (&t, target, then), r),
    ensures
        t@ matches Some(id) ==> (r.0 matches Some(c) && c.deep_view() == (GlOp::BindTexture { target, texture: id })),
        t@ is None ==> r.0 is None,
        call_ensures(then, (BoundTexture(target),), r.1),
{
    assert(opt_ops(r.0).len() == bind_texture_ops(target, t@).len());
    if t@ is Some {
        assert(opt_ops(r.0)[0] == bind_texture_ops(target, t@)[0]);
    }
}

} // verus!
