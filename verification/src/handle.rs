//! Owning handles of GPU resources.
//!
//! A [`Handle`] owns the id of one GPU resource, or is null. Creating one from
//! a raw id that the resource type counts as null gives the null handle.
//! Deleting the resource is the driver's part: [`Handle::release`] is the
//! decision that a drop makes, handing out the id to delete exactly once.

use std::marker::PhantomData;

use vstd::prelude::*;

verus! {

/// A kind of GPU resource.
pub trait GpuResource {
    /// The type of the raw OpenGL id (usually `GLuint`).
    type Id: Copy + Default + Eq;

    /// Whether the id stands for no resource.
    fn is_null(id: Self::Id) -> bool;

    /// The name of this resource type, for debugging.
    fn resource_name() -> &'static str;
}

/// The handle state of a GL object id: null for 0, the id otherwise.
pub open spec fn owned(id: u32) -> Option<u32> {
    if id == 0 {
        None
    } else {
        Some(id)
    }
}

/// The exclusive owner of a GPU resource, or a null handle.
///
/// Handles cannot be cloned: two owners of one id would delete it twice.
#[derive(Debug)]
pub struct Handle<T: GpuResource> {
    id: Option<T::Id>,
    _marker: PhantomData<T>,
}

impl<T: GpuResource> View for Handle<T> {
    type V = Option<T::Id>;

    /// The id that the handle owns, if any.
    closed spec fn view(&self) -> Option<T::Id> {
        self.id
    }
}

impl<T: GpuResource> Handle<T> {
    /// A handle never owns an id that its resource type counts as null.
    #[verifier::type_invariant]
    spec fn owns_no_null_id(self) -> bool {
        self.id matches Some(id) ==> call_ensures(T::is_null, (id,), false)
    }

    /// Takes ownership of a raw id: the handle is null exactly when the
    /// resource type counts `id` as null, and owns `id` otherwise.
    pub fn from_raw(id: T::Id) -> (h: Self)
        ensures
            h@ is Some ==> h@ == Some(id),
            call_ensures(T::is_null, (id,), h@ is None),
    {
        let null = T::is_null(id);
        Handle { id: if null { None } else { Some(id) }, _marker: PhantomData }
    }

    /// The null handle.
    pub fn null() -> (h: Self)
        ensures
            h@ is None,
    {
        Handle { id: None, _marker: PhantomData }
    }

    /// The owned id, without giving up ownership.
    pub fn id(&self) -> (r: Option<T::Id>)
        ensures
            r == self@,
            r matches Some(x) ==> call_ensures(T::is_null, (x,), false),
    {
        proof {
            use_type_invariant(self);
        }
        self.id
    }

    /// The owned id of a handle that is not null.
    pub fn id_unwrap(&self) -> (r: T::Id)
        requires
            self@ is Some,
        ensures
            r == self@->0,
            call_ensures(T::is_null, (r,), false),
    {
        proof {
            use_type_invariant(self);
        }
        self.id.unwrap()
    }

    /// Gives up ownership of the id: the caller now deletes the resource.
    pub fn into_raw(self) -> (r: Option<T::Id>)
        ensures
            r == self@,
            r matches Some(x) ==> call_ensures(T::is_null, (x,), false),
    {
        proof {
            use_type_invariant(&self);
        }
        self.id
    }

    /// What dropping the handle does: the id to delete, if any, and the handle
    /// becomes null, so that no id is ever handed out twice.
    pub fn release(&mut self) -> (r: Option<T::Id>)
        ensures
            r == old(self)@,
            r matches Some(x) ==> call_ensures(T::is_null, (x,), false),
            final(self)@ is None,
    {
        proof {
            use_type_invariant(&*self);
        }
        let r = self.id;
        self.id = None;
        r
    }

    /// Whether the handle owns an id.
    pub fn is_valid(&self) -> (b: bool)
        ensures
            b == (self@ is Some),
    {
        self.id.is_some()
    }

    /// Whether the handle is null.
    pub fn is_null(&self) -> (b: bool)
        ensures
            b == (self@ is None),
    {
        self.id.is_none()
    }
}

impl<T: GpuResource> Default for Handle<T> {
    /// The null handle.
    fn default() -> (h: Self)
        ensures
            h@ is None,
    {
        Self::null()
    }
}

} // verus!
