//! GPU buffer objects.
//!
//! The driver generates buffer ids (`glGenBuffers`) and hands them to
//! [`Buffer::from_raw`] or [`Buffer::new_batch`]; deleting a buffer when it is
//! dropped is the driver's part, through [`Buffer::release`].

use vstd::layout::size_of;
use vstd::prelude::*;

use crate::attribute::{pointer_op, Attribute, AttributeFormat};
use crate::call::{none, opt_ops, pair, GlCall, GlOp};
use crate::glenum;
use crate::handle::{owned, GpuResource, Handle};

verus! {

/// Marker type for buffer resources.
#[derive(Debug)]
pub struct BufferResource;

impl GpuResource for BufferResource {
    type Id = u32;

    fn is_null(id: u32) -> (b: bool)
        ensures
            b == (id == 0),
    {
        id == 0
    }

    fn resource_name() -> (s: &'static str)
        ensures
            s@ == "Buffer"@,
    {
        "Buffer"
    }
}

/// The call that binds buffer `id` to `target`.
pub open spec fn bind_buffer_op(target: u32, id: u32) -> GlOp {
    GlOp::BindBuffer { target, buffer: id }
}

/// The binding of a buffer whose handle state is `h`: none for a null buffer.
pub open spec fn bind_buffer_ops(target: u32, h: Option<u32>) -> Seq<GlOp> {
    match h {
        Some(id) => seq![bind_buffer_op(target, id)],
        None => seq![],
    }
}

/// The upload of `len` values of type `T` to the buffer bound to `target`.
pub open spec fn buffer_data_op<T>(target: u32, len: nat, usage: u32) -> GlOp {
    GlOp::BufferData { target, bytes: (size_of::<T>() * len) as isize, usage }
}

/// A GPU buffer object.
#[derive(Debug)]
pub struct Buffer(Handle<BufferResource>);

impl View for Buffer {
    type V = Option<u32>;

    /// The id the buffer owns, if any.
    closed spec fn view(&self) -> Option<u32> {
        self.0@
    }
}

impl Buffer {
    /// Takes ownership of a buffer id that `glGenBuffers` produced; id 0 gives
    /// an invalid buffer.
    pub fn from_raw(id: u32) -> (b: Buffer)
        ensures
            b@ == owned(id),
    {
        Buffer(Handle::from_raw(id))
    }

    /// The buffers of the ids that one `glGenBuffers` call produced, in order.
    pub fn new_batch(ids: Vec<u32>) -> (buffers: Vec<Buffer>)
        ensures
            buffers@.len() == ids@.len(),
            forall|i: int| 0 <= i < ids@.len() ==> (#[trigger] buffers@[i])@ == owned(ids@[i]),
    {
        let mut buffers: Vec<Buffer> = Vec::new();
        let mut i: usize = 0;
        while i < ids.len()
            invariant
                0 <= i <= ids@.len(),
                buffers@.len() == i,
                forall|j: int| 0 <= j < i ==> (#[trigger] buffers@[j])@ == owned(ids@[j]),
            decreases ids.len() - i,
        {
            buffers.push(Buffer::from_raw(ids[i]));
            i += 1;
        }
        buffers
    }

    /// The raw OpenGL buffer id; `None` if the buffer is invalid.
    pub fn id(&self) -> (r: Option<u32>)
        ensures
            r == self@,
    {
        self.0.id()
    }

    /// The raw OpenGL buffer id of a valid buffer.
    pub fn id_unwrap(&self) -> (r: u32)
        requires
            self@ is Some,
        ensures
            r == self@->0,
    {
        self.0.id_unwrap()
    }

    /// Whether this buffer is valid.
    pub fn is_valid(&self) -> (b: bool)
        ensures
            b == (self@ is Some),
    {
        self.0.is_valid()
    }

    /// Gives up ownership of the id: the caller now deletes the buffer.
    pub fn into_raw(self) -> (r: Option<u32>)
        ensures
            r == self@,
    {
        self.0.into_raw()
    }

    /// What dropping the buffer does: the call that deletes it, if it is
    /// valid; the buffer becomes invalid.
    pub fn release(&mut self) -> (c: Option<GlCall>)
        ensures
            final(self)@ is None,
            c matches Some(c) ==> old(self)@ matches Some(id) && c.deep_view() == (GlOp::DeleteBuffers { buffer: id }),
            c is None ==> old(self)@ is None,
    {
        match self.0.release() {
            Some(id) => Some(GlCall::DeleteBuffers { buffer: id }),
            None => None,
        }
    }

    /// The call that binds this buffer to `target` (such as
    /// `GL_ARRAY_BUFFER`); none for an invalid buffer.
    pub fn bind(&self, target: u32) -> (c: Option<GlCall>)
        ensures
            self@ matches Some(id) ==> (c matches Some(c) && c.deep_view() == (GlOp::BindBuffer { target, buffer: id })),
            self@ is None ==> c is None,
            opt_ops(c) == bind_buffer_ops(target, self@),
    {
        match self.0.id() {
            Some(id) => Some(GlCall::BindBuffer { target, buffer: id }),
            None => None,
        }
    }

    /// Binds this buffer to `target`, then runs `then` on the bound buffer:
    /// the binding call and what `then` returned.
    pub fn bind_then<R, F: FnOnce(BoundBuffer) -> R>(&self, target: u32, then: F) -> (r: (Option<GlCall>, R))
        requires
            then.requires((BoundBuffer(target),)),
        ensures
            opt_ops(r.0) == bind_buffer_ops(target, self@),
            then.ensures((BoundBuffer(target),), r.1),
    {
        let c = self.bind(target);
        (c, then(BoundBuffer(target)))
    }

    /// The calls that upload `data` to this buffer through `target`: bind it,
    /// then hand the GL the data's bytes with the usage hint. An invalid
    /// buffer gets no call, so no other buffer bound at `target` is written.
    pub fn data<T>(&self, target: u32, data: &[T], usage: u32) -> (calls: Vec<GlCall>)
        requires
            size_of::<T>() * data@.len() <= isize::MAX,
        ensures
            self@ matches Some(id) ==> calls.deep_view() == seq![
                bind_buffer_op(target, id),
                buffer_data_op::<T>(target, data@.len(), usage),
            ],
            self@ is None ==> calls.deep_view() == Seq::<GlOp>::empty(),
    {
        match self.bind(target) {
            Some(c) => {
                let bound = BoundBuffer(target);
                pair(c, bound.data(data, usage))
            },
            None => none(),
        }
    }

    /// The calls that bind this buffer as `GL_ARRAY_BUFFER` and point
    /// `attribute` at its data of `format`, `stride` bytes apart, starting
    /// `offset` bytes in. An invalid buffer is not bound; the attribute is
    /// pointed all the same.
    pub fn bind_to(&self, attribute: Attribute, format: AttributeFormat, stride: i32, offset: usize) -> (calls: Vec<GlCall>)
        ensures
            calls.deep_view() == bind_buffer_ops(glenum::ARRAY_BUFFER, self@).push(
                pointer_op(attribute, format, stride, offset),
            ),
    {
        let c = self.bind(glenum::ARRAY_BUFFER);
        let bound = BoundBuffer(glenum::ARRAY_BUFFER);
        let p = bound.bind_to(attribute, format, stride, offset);
        let mut calls = Vec::new();
        if let Some(b) = c {
            calls.push(b);
        }
        calls.push(p);
        assert(calls.deep_view() =~= bind_buffer_ops(glenum::ARRAY_BUFFER, self@).push(
            pointer_op(attribute, format, stride, offset),
        ));
        calls
    }
}

/// A buffer bound to a target; only this library makes one.
#[non_exhaustive]
pub struct BoundBuffer(pub u32);

impl BoundBuffer {
    /// The call that hands the GL the bytes of `data` for the bound buffer.
    pub fn data<T>(&self, data: &[T], usage: u32) -> (c: GlCall)
        requires
            size_of::<T>() * data@.len() <= isize::MAX,
        ensures
            c.deep_view() == buffer_data_op::<T>(self.0, data@.len(), usage),
    {
        let n_bytes = core::mem::size_of::<T>() * data.len();
        GlCall::BufferData { target: self.0, bytes: n_bytes as isize, usage }
    }

    /// The call that points `attribute` at the bound buffer's data.
    pub fn bind_to(&self, attribute: Attribute, format: AttributeFormat, stride: i32, offset: usize) -> (c: GlCall)
        ensures
            c.deep_view() == pointer_op(attribute, format, stride, offset),
    {
        attribute.pointer(format, stride, offset)
    }
}

/// An upload through a bound buffer goes to the target that the buffer is
/// bound to, carries all the bytes of the data (the size of one value times
/// their number) and the usage hint given.
pub proof fn law_upload_to_bound_target<T>(b: BoundBuffer, data: &[T], usage: u32, c: GlCall)
    requires
        size_of::<T>() * data@.len() <= isize::MAX,
        call_ensures(BoundBuffer::data::<T>, (&b, data, usage), c),
    ensures
        c.deep_view() matches GlOp::BufferData { target, bytes, usage: u }
            && target == b.0 && bytes == size_of::<T>() * data@.len() && u == usage,
{
}

/// Uploading to a valid buffer binds that buffer to `target` and then hands
/// the GL the data for the same target, so the data lands in this buffer;
/// an invalid buffer gets no call.
pub proof fn law_buffer_data_lands_in_buffer<T>(buffer: Buffer, target: u32, data: &[T], usage: u32, calls: Vec<GlCall>)
    requires
        size_of::<T>() * data@.len() <= isize::MAX,
        call_ensures(Buffer::data::<T>, (&buffer, target, data, usage), calls),
    ensures
        buffer@ matches Some(id) ==> calls@.len() == 2
            && calls@[0].deep_view() == (GlOp::BindBuffer { target, buffer: id })
            && (calls@[1].deep_view() matches GlOp::BufferData { target: t, bytes, usage: u }
                && t == target && bytes == size_of::<T>() * data@.len() && u == usage),
        buffer@ is None ==> calls@.len() == 0,
{
    assert(calls@.len() == calls.deep_view().len());
    if buffer@ is Some {
        assert(calls@[0].deep_view() == calls.deep_view()[0]);
        assert(calls@[1].deep_view() == calls.deep_view()[1]);
    }
}

/// Pointing an attribute at a buffer binds a valid buffer to
/// `GL_ARRAY_BUFFER` first, then makes exactly one pointer call for that
/// attribute with the format, stride and offset given.
pub proof fn law_bind_to_points_attribute(
    buffer: Buffer,
    attribute: Attribute,
    format: AttributeFormat,
    stride: i32,
    offset: usize,
    calls: Vec<GlCall>,
)
    requires
        call_ensures(Buffer::bind_to, (&buffer, attribute, format, stride, offset), calls),
    ensures
        buffer@ matches Some(id) ==> calls@.len() == 2
            && calls@[0].deep_view() == (GlOp::BindBuffer { target: glenum::ARRAY_BUFFER, buffer: id }),
        buffer@ is None ==> calls@.len() == 1,
        calls@.last().deep_view() matches GlOp::VertexAttribPointer { index, stride: st, offset: off, .. }
            && index == attribute.0 && st == stride && off == offset,
        calls@.last().deep_view() == pointer_op(attribute, format, stride, offset),
{
    assert(calls@.len() == calls.deep_view().len());
    assert(calls@.last().deep_view() == calls.deep_view().last());
    if buffer@ is Some {
        assert(calls@[0].deep_view() == calls.deep_view()[0]);
    }
}

/// Binding a buffer then running a step on it binds a valid buffer to
/// `target`, and hands the step a buffer bound to that same target.
pub proof fn law_bind_then_target<R, F: FnOnce(BoundBuffer) -> R>(b: Buffer, target: u32, then: F, r: (Option<GlCall>, R))
    requires
        call_ensures(Buffer::bind_then::<R, F>, (&b, target, then), r),
    ensures
        b@ matches Some(id) ==> (r.0 matches Some(c) && c.deep_view() == (GlOp::BindBuffer { target, buffer: id })),
        b@ is None ==> r.0 is None,
        call_ensures(then, (BoundBuffer(target),), r.1),
{
    assert(opt_ops(r.0).len() == bind_buffer_ops(target, b@).len());
    if b@ is Some {
        assert(opt_ops(r.0)[0] == bind_buffer_ops(target, b@)[0]);
    }
}

/// A raw buffer id without ownership (the older API).
pub type LegacyBuffer = u32;

} // verus!
