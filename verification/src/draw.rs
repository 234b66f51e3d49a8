//! Draw calls.
//!
//! Indexed drawing takes its indices from an [`Elements`] source: client
//! memory, a buffer object, or a raw buffer id. Preparing a source binds the
//! element array buffer it needs; drawing is that binding followed by the draw.

use vstd::prelude::*;
use vstd::std_specs::convert::FromSpecImpl;

use crate::buffer::{bind_buffer_ops, Buffer};
use crate::call::{opt_ops, GlCall, GlOp, IndexSource};
use crate::glenum;

verus! {

/// Primitive drawing modes.
#[derive(Debug, Clone, Copy, PartialEq, Eq, Hash, Structural)]
pub enum Mode {
    /// Draw individual points.
    Points,
    /// Draw line segments.
    Lines,
    /// Draw connected line strips.
    LineStrip,
    /// Draw closed line loops.
    LineLoop,
    /// Draw triangles (3 vertices per triangle).
    Triangles,
    /// Draw connected triangle strips.
    TriangleStrip,
    /// Draw triangle fans.
    TriangleFan,
    /// Draw quads (4 vertices per quad), a vitaGL extension.
    Quads,
}

/// The GL enumerant of a mode.
pub open spec fn mode_enum(m: Mode) -> u32 {
    match m {
        Mode::Points => glenum::POINTS,
        Mode::Lines => glenum::LINES,
        Mode::LineStrip => glenum::LINE_STRIP,
        Mode::LineLoop => glenum::LINE_LOOP,
        Mode::Triangles => glenum::TRIANGLES,
        Mode::TriangleStrip => glenum::TRIANGLE_STRIP,
        Mode::TriangleFan => glenum::TRIANGLE_FAN,
        Mode::Quads => glenum::QUADS,
    }
}

impl Mode {
    /// The GL enumerant of this mode.
    pub fn gl_enum(&self) -> (e: u32)
        ensures
            e == mode_enum(*self),
    {
        match self {
            Mode::Points => glenum::POINTS,
            Mode::Lines => glenum::LINES,
            Mode::LineStrip => glenum::LINE_STRIP,
            Mode::LineLoop => glenum::LINE_LOOP,
            Mode::Triangles => glenum::TRIANGLES,
            Mode::TriangleStrip => glenum::TRIANGLE_STRIP,
            Mode::TriangleFan => glenum::TRIANGLE_FAN,
            Mode::Quads => glenum::QUADS,
        }
    }
}

impl From<Mode> for u32 {
    fn from(mode: Mode) -> (e: u32) {
        mode.gl_enum()
    }
}

impl FromSpecImpl<Mode> for u32 {
    open spec fn obeys_from_spec() -> bool {
        true
    }

    open spec fn from_spec(mode: Mode) -> u32 {
        mode_enum(mode)
    }
}

/// Distinct modes have distinct GL enumerants.
pub proof fn lemma_mode_enum_injective(a: Mode, b: Mode)
    ensures
        mode_enum(a) == mode_enum(b) <==> a == b,
{
}

/// The call that draws `count` consecutive vertices from `first`.
pub fn draw_arrays(mode: Mode, first: i32, count: i32) -> (c: GlCall)
    ensures
        c.deep_view() == (GlOp::DrawArrays { mode: mode_enum(mode), first, count }),
{
    GlCall::DrawArrays { mode: mode.gl_enum(), first, count }
}

/// The call that draws `primcount` instances of `count` consecutive vertices
/// from `first`.
pub fn draw_arrays_instanced(mode: Mode, first: i32, count: i32, primcount: i32) -> (c: GlCall)
    ensures
        c.deep_view() == (GlOp::DrawArraysInstanced { mode: mode_enum(mode), first, count, primcount }),
{
    GlCall::DrawArraysInstanced { mode: mode.gl_enum(), first, count, primcount }
}

/// Parameters of an indexed draw.
#[derive(Debug, Clone, Copy, PartialEq, Eq)]
pub struct ElementParams {
    /// Number of indices to draw.
    pub count: i32,
    /// Type of the index values (such as `GL_UNSIGNED_SHORT`).
    pub type_: u32,
    /// Where the index data lives.
    pub indices: IndexSource,
}

/// The calls of an indexed draw: the preparation, then the draw.
pub open spec fn draw_elements_ops(mode: Mode, prepare: Option<GlCall>, p: ElementParams) -> Seq<GlOp> {
    opt_ops(prepare).push(GlOp::DrawElements { mode: mode_enum(mode), count: p.count, type_: p.type_, indices: p.indices })
}

/// The calls of an instanced indexed draw: the preparation, then the draw.
pub open spec fn draw_elements_instanced_ops(
    mode: Mode,
    prepare: Option<GlCall>,
    p: ElementParams,
    primcount: i32,
) -> Seq<GlOp> {
    opt_ops(prepare).push(
        GlOp::DrawElementsInstanced {
            mode: mode_enum(mode),
            count: p.count,
            type_: p.type_,
            indices: p.indices,
            primcount,
        },
    )
}

/// The calls that draw with the indices that `prepare` makes ready.
pub fn draw_elements_calls(mode: Mode, prepare: Option<GlCall>, p: ElementParams) -> (calls: Vec<GlCall>)
    ensures
        calls.deep_view() == draw_elements_ops(mode, prepare, p),
{
    let ghost pre = opt_ops(prepare);
    let mut calls = Vec::new();
    if let Some(c) = prepare {
        calls.push(c);
    }
    calls.push(GlCall::DrawElements { mode: mode.gl_enum(), count: p.count, type_: p.type_, indices: p.indices });
    assert(calls.deep_view() =~= pre.push(
        GlOp::DrawElements { mode: mode_enum(mode), count: p.count, type_: p.type_, indices: p.indices },
    ));
    calls
}

/// The calls that draw `primcount` instances with the indices that `prepare`
/// makes ready.
pub fn draw_elements_instanced_calls(mode: Mode, prepare: Option<GlCall>, p: ElementParams, primcount: i32) -> (calls: Vec<GlCall>)
    ensures
        calls.deep_view() == draw_elements_instanced_ops(mode, prepare, p, primcount),
{
    let ghost pre = opt_ops(prepare);
    let mut calls = Vec::new();
    if let Some(c) = prepare {
        calls.push(c);
    }
    calls.push(
        GlCall::DrawElementsInstanced {
            mode: mode.gl_enum(),
            count: p.count,
            type_: p.type_,
            indices: p.indices,
            primcount,
        },
    );
    assert(calls.deep_view() =~= pre.push(
        GlOp::DrawElementsInstanced {
            mode: mode_enum(mode),
            count: p.count,
            type_: p.type_,
            indices: p.indices,
            primcount,
        },
    ));
    calls
}

/// A source of indices for indexed drawing.
pub trait Elements {
    /// The call that makes the indices ready (binding the element array
    /// buffer), if any, and the parameters of the draw.
    fn use_me(&self) -> (Option<GlCall>, ElementParams);

    /// The calls that draw indexed primitives of `mode`: what `use_me` makes
    /// ready, then exactly one `glDrawElements` with its parameters.
    fn draw(&self, mode: Mode) -> (calls: Vec<GlCall>)
        ensures
            exists|prepared: (Option<GlCall>, ElementParams)|
                #![trigger call_ensures(Self::use_me, (self,), prepared)]
                call_ensures(Self::use_me, (self,), prepared) && calls.deep_view() == draw_elements_ops(
                    mode,
                    prepared.0,
                    prepared.1,
                ),
    {
        let prepared = self.use_me();
        assert(call_ensures(Self::use_me, (self,), prepared));
        draw_elements_calls(mode, prepared.0, prepared.1)
    }

    /// The calls that draw `primcount` instances of indexed primitives of
    /// `mode`: what `use_me` makes ready, then exactly one
    /// `glDrawElementsInstanced` with its parameters.
    fn draw_instanced(&self, mode: Mode, primcount: i32) -> (calls: Vec<GlCall>)
        ensures
            exists|prepared: (Option<GlCall>, ElementParams)|
                #![trigger call_ensures(Self::use_me, (self,), prepared)]
                call_ensures(Self::use_me, (self,), prepared) && calls.deep_view()
                    == draw_elements_instanced_ops(mode, prepared.0, prepared.1, primcount),
    {
        let prepared = self.use_me();
        assert(call_ensures(Self::use_me, (self,), prepared));
        draw_elements_instanced_calls(mode, prepared.0, prepared.1, primcount)
    }
}

/// The binding that makes client-side indices (or buffer `id`) the element source.
pub open spec fn bind_elements_op(id: u32) -> GlOp {
    GlOp::BindBuffer { target: glenum::ELEMENT_ARRAY_BUFFER, buffer: id }
}

/// 16-bit indices in client memory.
pub struct ElementsU16<'a> {
    /// The index data.
    pub indices: &'a [u16],
}

impl<'a> Elements for ElementsU16<'a> {
    /// Unbinds any element buffer; the driver passes the index slice.
    fn use_me(&self) -> (r: (Option<GlCall>, ElementParams))
        ensures
            opt_ops(r.0) == seq![bind_elements_op(0)],
            r.1 == (ElementParams {
                count: self.indices@.len() as i32,
                type_: glenum::UNSIGNED_SHORT,
                indices: IndexSource::Client,
            }),
    {
        (
            Some(GlCall::BindBuffer { target: glenum::ELEMENT_ARRAY_BUFFER, buffer: 0 }),
            ElementParams { count: self.indices.len() as i32, type_: glenum::UNSIGNED_SHORT, indices: IndexSource::Client },
        )
    }
}

/// 32-bit indices in client memory.
pub struct ElementsU32<'a> {
    /// The index data.
    pub indices: &'a [u32],
}

impl<'a> Elements for ElementsU32<'a> {
    /// Unbinds any element buffer; the driver passes the index slice.
    fn use_me(&self) -> (r: (Option<GlCall>, ElementParams))
        ensures
            opt_ops(r.0) == seq![bind_elements_op(0)],
            r.1 == (ElementParams {
                count: self.indices@.len() as i32,
                type_: glenum::UNSIGNED_INT,
                indices: IndexSource::Client,
            }),
    {
        (
            Some(GlCall::BindBuffer { target: glenum::ELEMENT_ARRAY_BUFFER, buffer: 0 }),
            ElementParams { count: self.indices.len() as i32, type_: glenum::UNSIGNED_INT, indices: IndexSource::Client },
        )
    }
}

/// 16-bit indices in a buffer object.
pub struct ElementsBufU16 {
    /// The buffer holding the indices.
    pub indices: Buffer,
    /// Number of indices in the buffer.
    pub len: u32,
}

impl Elements for ElementsBufU16 {
    /// Binds the buffer, if it is valid; the indices start at offset 0 of
    /// the bound element buffer.
    fn use_me(&self) -> (r: (Option<GlCall>, ElementParams))
        ensures
            opt_ops(r.0) == bind_buffer_ops(glenum::ELEMENT_ARRAY_BUFFER, self.indices@),
            r.1 == (ElementParams {
                count: self.len as i32,
                type_: glenum::UNSIGNED_SHORT,
                indices: IndexSource::BufferOffset(0),
            }),
    {
        (
            self.indices.bind(glenum::ELEMENT_ARRAY_BUFFER),
            ElementParams { count: self.len as i32, type_: glenum::UNSIGNED_SHORT, indices: IndexSource::BufferOffset(0) },
        )
    }
}

/// 32-bit indices in a buffer object.
pub struct ElementsBufU32 {
    /// The buffer holding the indices.
    pub indices: Buffer,
    /// Number of indices in the buffer.
    pub len: u32,
}

impl Elements for ElementsBufU32 {
    /// Binds the buffer, if it is valid; the indices start at offset 0 of
    /// the bound element buffer.
    fn use_me(&self) -> (r: (Option<GlCall>, ElementParams))
        ensures
            opt_ops(r.0) == bind_buffer_ops(glenum::ELEMENT_ARRAY_BUFFER, self.indices@),
            r.1 == (ElementParams {
                count: self.len as i32,
                type_: glenum::UNSIGNED_INT,
                indices: IndexSource::BufferOffset(0),
            }),
    {
        (
            self.indices.bind(glenum::ELEMENT_ARRAY_BUFFER),
            ElementParams { count: self.len as i32, type_: glenum::UNSIGNED_INT, indices: IndexSource::BufferOffset(0) },
        )
    }
}

/// 16-bit indices in the buffer with a raw id.
pub struct ElementsBufIdU16 {
    /// Raw OpenGL buffer id.
    pub buffer_id: u32,
    /// Number of indices.
    pub len: u32,
}

impl Elements for ElementsBufIdU16 {
    /// Binds the buffer id; the indices start at offset 0.
    fn use_me(&self) -> (r: (Option<GlCall>, ElementParams))
        ensures
            opt_ops(r.0) == seq![bind_elements_op(self.buffer_id)],
            r.1 == (ElementParams {
                count: self.len as i32,
                type_: glenum::UNSIGNED_SHORT,
                indices: IndexSource::BufferOffset(0),
            }),
    {
        (
            Some(GlCall::BindBuffer { target: glenum::ELEMENT_ARRAY_BUFFER, buffer: self.buffer_id }),
            ElementParams { count: self.len as i32, type_: glenum::UNSIGNED_SHORT, indices: IndexSource::BufferOffset(0) },
        )
    }
}

/// 32-bit indices in the buffer with a raw id.
pub struct ElementsBufIdU32 {
    /// Raw OpenGL buffer id.
    pub buffer_id: u32,
    /// Number of indices.
    pub len: u32,
}

impl Elements for ElementsBufIdU32 {
    /// Binds the buffer id; the indices start at offset 0.
    fn use_me(&self) -> (r: (Option<GlCall>, ElementParams))
        ensures
            opt_ops(r.0) == seq![bind_elements_op(self.buffer_id)],
            r.1 == (ElementParams {
                count: self.len as i32,
                type_: glenum::UNSIGNED_INT,
                indices: IndexSource::BufferOffset(0),
            }),
    {
        (
            Some(GlCall::BindBuffer { target: glenum::ELEMENT_ARRAY_BUFFER, buffer: self.buffer_id }),
            ElementParams { count: self.len as i32, type_: glenum::UNSIGNED_INT, indices: IndexSource::BufferOffset(0) },
        )
    }
}

} // verus!

verus! {

/// Each mode stands for its own GL primitive enumerant.
pub proof fn law_mode_enums(m: Mode, e: u32)
    requires
        call_ensures(Mode::gl_enum, (&m,), e),
    ensures
        m == Mode::Points ==> e == glenum::POINTS,
        m == Mode::Lines ==> e == glenum::LINES,
        m == Mode::LineStrip ==> e == glenum::LINE_STRIP,
        m == Mode::LineLoop ==> e == glenum::LINE_LOOP,
        m == Mode::Triangles ==> e == glenum::TRIANGLES,
        m == Mode::TriangleStrip ==> e == glenum::TRIANGLE_STRIP,
        m == Mode::TriangleFan ==> e == glenum::TRIANGLE_FAN,
        m == Mode::Quads ==> e == glenum::QUADS,
{
}

/// An indexed draw makes the preparation call, if there is one, first and
/// then exactly one `glDrawElements`, which draws `p.count` indices of type
/// `p.type_` from the index source `p.indices`, unchanged, in `mode`.
pub proof fn law_draw_elements_uses_params(mode: Mode, prepare: Option<GlCall>, p: ElementParams, calls: Vec<GlCall>)
    requires
        call_ensures(draw_elements_calls, (mode, prepare, p), calls),
    ensures
        prepare is None ==> calls@.len() == 1,
        prepare matches Some(c) ==> calls@.len() == 2 && calls@[0].deep_view() == c.deep_view(),
        calls@.last().deep_view() matches GlOp::DrawElements { mode: m, count, type_, indices }
            && m == mode_enum(mode) && count == p.count && type_ == p.type_ && indices == p.indices,
{
    assert(calls@.len() == calls.deep_view().len());
    assert(calls@.last().deep_view() == calls.deep_view().last());
    if let Some(c) = prepare {
        assert(calls@[0].deep_view() == calls.deep_view()[0]);
    }
}

/// An instanced indexed draw makes the preparation call, if there is one,
/// first and then exactly one `glDrawElementsInstanced`, which draws
/// `primcount` instances of `p.count` indices of type `p.type_` from the
/// index source `p.indices`, unchanged, in `mode`.
pub proof fn law_draw_elements_instanced_uses_params(
    mode: Mode,
    prepare: Option<GlCall>,
    p: ElementParams,
    primcount: i32,
    calls: Vec<GlCall>,
)
    requires
        call_ensures(draw_elements_instanced_calls, (mode, prepare, p, primcount), calls),
    ensures
        prepare is None ==> calls@.len() == 1,
        prepare matches Some(c) ==> calls@.len() == 2 && calls@[0].deep_view() == c.deep_view(),
        calls@.last().deep_view() matches GlOp::DrawElementsInstanced { mode: m, count, type_, indices, primcount: n }
            && m == mode_enum(mode) && count == p.count && type_ == p.type_ && indices == p.indices
            && n == primcount,
{
    assert(calls@.len() == calls.deep_view().len());
    assert(calls@.last().deep_view() == calls.deep_view().last());
    if let Some(c) = prepare {
        assert(calls@[0].deep_view() == calls.deep_view()[0]);
    }
}

/// Drawing 16-bit indices from a buffer object reads them from offset 0 of
/// that buffer: it binds the buffer to `GL_ELEMENT_ARRAY_BUFFER` when it is
/// valid, then draws `len` unsigned shorts from the bound buffer. An invalid
/// buffer is not bound, and the draw is made all the same.
pub proof fn law_draw_from_buffer_u16(e: ElementsBufU16, mode: Mode, calls: Vec<GlCall>)
    requires
        call_ensures(ElementsBufU16::draw, (&e, mode), calls),
    ensures
        ({
            let draw = GlOp::DrawElements {
                mode: mode_enum(mode),
                count: e.len as i32,
                type_: glenum::UNSIGNED_SHORT,
                indices: IndexSource::BufferOffset(0),
            };
            &&& e.indices@ matches Some(id) ==> calls.deep_view() == seq![
                GlOp::BindBuffer { target: glenum::ELEMENT_ARRAY_BUFFER, buffer: id },
                draw,
            ]
            &&& e.indices@ is None ==> calls.deep_view() == seq![draw]
        }),
{
}

/// Drawing 32-bit indices from a buffer object reads them from offset 0 of
/// that buffer: it binds the buffer to `GL_ELEMENT_ARRAY_BUFFER` when it is
/// valid, then draws `len` unsigned ints from the bound buffer. An invalid
/// buffer is not bound, and the draw is made all the same.
pub proof fn law_draw_from_buffer_u32(e: ElementsBufU32, mode: Mode, calls: Vec<GlCall>)
    requires
        call_ensures(ElementsBufU32::draw, (&e, mode), calls),
    ensures
        ({
            let draw = GlOp::DrawElements {
                mode: mode_enum(mode),
                count: e.len as i32,
                type_: glenum::UNSIGNED_INT,
                indices: IndexSource::BufferOffset(0),
            };
            &&& e.indices@ matches Some(id) ==> calls.deep_view() == seq![
                GlOp::BindBuffer { target: glenum::ELEMENT_ARRAY_BUFFER, buffer: id },
                draw,
            ]
            &&& e.indices@ is None ==> calls.deep_view() == seq![draw]
        }),
{
}

/// Client-side indices are drawn from client memory, one index for each
/// element of the slice, as unsigned shorts for 16-bit indices and unsigned
/// ints for 32-bit ones; no element buffer stays bound while they are used.
pub proof fn law_client_indices(e16: ElementsU16, e32: ElementsU32, r16: (Option<GlCall>, ElementParams), r32: (Option<GlCall>, ElementParams))
    requires
        call_ensures(ElementsU16::use_me, (&e16,), r16),
        call_ensures(ElementsU32::use_me, (&e32,), r32),
    ensures
        r16.0 is Some && r16.0->0.deep_view() == (GlOp::BindBuffer { target: glenum::ELEMENT_ARRAY_BUFFER, buffer: 0 }),
        r16.1.indices == IndexSource::Client && r16.1.type_ == glenum::UNSIGNED_SHORT && r16.1.count == e16.indices@.len() as i32,
        r32.0 is Some && r32.0->0.deep_view() == (GlOp::BindBuffer { target: glenum::ELEMENT_ARRAY_BUFFER, buffer: 0 }),
        r32.1.indices == IndexSource::Client && r32.1.type_ == glenum::UNSIGNED_INT && r32.1.count == e32.indices@.len() as i32,
{
    assert(opt_ops(r16.0)[0] == seq![bind_elements_op(0)][0]);
    assert(opt_ops(r32.0)[0] == seq![bind_elements_op(0)][0]);
}

/// Indices in the buffer with a raw id are drawn from offset 0 of that
/// buffer, bound to `GL_ELEMENT_ARRAY_BUFFER` first: `len` unsigned shorts
/// for 16-bit indices, `len` unsigned ints for 32-bit ones.
pub proof fn law_raw_buffer_indices(e16: ElementsBufIdU16, e32: ElementsBufIdU32, r16: (Option<GlCall>, ElementParams), r32: (Option<GlCall>, ElementParams))
    requires
        call_ensures(ElementsBufIdU16::use_me, (&e16,), r16),
        call_ensures(ElementsBufIdU32::use_me, (&e32,), r32),
    ensures
        r16.0 is Some && r16.0->0.deep_view() == (GlOp::BindBuffer { target: glenum::ELEMENT_ARRAY_BUFFER, buffer: e16.buffer_id }),
        r16.1.indices == IndexSource::BufferOffset(0) && r16.1.type_ == glenum::UNSIGNED_SHORT && r16.1.count == e16.len as i32,
        r32.0 is Some && r32.0->0.deep_view() == (GlOp::BindBuffer { target: glenum::ELEMENT_ARRAY_BUFFER, buffer: e32.buffer_id }),
        r32.1.indices == IndexSource::BufferOffset(0) && r32.1.type_ == glenum::UNSIGNED_INT && r32.1.count == e32.len as i32,
{
    assert(opt_ops(r16.0)[0] == seq![bind_elements_op(e16.buffer_id)][0]);
    assert(opt_ops(r32.0)[0] == seq![bind_elements_op(e32.buffer_id)][0]);
}

/// Drawing arrays makes one call that draws `count` vertices from `first`
/// in `mode`; the instanced form draws `primcount` instances of them.
pub proof fn law_draw_arrays(mode: Mode, first: i32, count: i32, primcount: i32, c: GlCall, ci: GlCall)
    requires
        call_ensures(draw_arrays, (mode, first, count), c),
        call_ensures(draw_arrays_instanced, (mode, first, count, primcount), ci),
    ensures
        c.deep_view() matches GlOp::DrawArrays { mode: m, first: f, count: n } && m == mode_enum(mode) && f == first && n == count,
        ci.deep_view() matches GlOp::DrawArraysInstanced { mode: m, first: f, count: n, primcount: k }
            && m == mode_enum(mode) && f == first && n == count && k == primcount,
{
}

} // verus!
