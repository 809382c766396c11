//! Buffer handles: the owned byte buffers that cross an algorithm's call boundary.

use vstd::prelude::*;

verus! {

/// A handle to an owned buffer, as it crosses an algorithm's call boundary.
///
/// `ptr` is `None` for a null handle. A handle is valid when it holds a buffer
/// whose length is `len` and that length fits in an `isize`.
pub struct Slice<T> {
    pub ptr: Option<Vec<T>>,
    pub len: usize,
}

/// Relies on `Vec::into_boxed_slice`: the boxed slice holds the same elements.
#[verifier::external_body]
fn boxed_from_vec<T>(v: Vec<T>) -> (r: Box<[T]>)
    ensures
        r@ == v@,
{
    v.into_boxed_slice()
}

/// What taking ownership of a buffer gives: a handle that owns exactly `elements`.
pub open spec fn owns<T>(handle: Slice<T>, elements: Seq<T>) -> bool {
    &&& handle.ptr is Some
    &&& handle.contents() == elements
    &&& handle.len == elements.len()
}

/// What converting a handle back into a buffer gives: the buffer it owns where it
/// passes the validity gate, and nothing otherwise.
pub open spec fn handed_back<T>(handle: Slice<T>, r: Option<Box<[T]>>) -> bool {
    &&& r is Some <==> handle.is_valid()
    &&& r is Some ==> r->0@ == handle.contents()
}

impl<T> Slice<T> {
    /// The validity gate that every consumer applies before touching the buffer.
    pub open spec fn is_valid(&self) -> bool {
        &&& self.ptr is Some
        &&& self.ptr->0.len() == self.len
        &&& self.len <= isize::MAX
    }

    /// The elements of the buffer that the handle owns.
    pub open spec fn contents(&self) -> Seq<T> {
        self.ptr->0@
    }

    /// A null handle, which owns nothing.
    pub fn null() -> (r: Self)
        ensures
            r.ptr is None,
            r.len == 0,
    {
        Slice { ptr: None, len: 0 }
    }

    /// Applies the validity gate without consuming the handle.
    pub fn is_valid_handle(&self) -> (r: bool)
        ensures
            r == self.is_valid(),
    {
        if self.len > isize::MAX as usize {
            return false;
        }
        match &self.ptr {
            Some(v) => v.len() == self.len,
            None => false,
        }
    }

    /// Moves the handle out of its slot, leaving a null handle there.
    pub fn take(&mut self) -> (r: Self)
        ensures
            r == *old(self),
            final(self).ptr is None,
            final(self).len == 0,
    {
        let mut r = Slice::null();
        core::mem::swap(self, &mut r);
        r
    }

    /// Takes ownership of a boxed slice.
    pub fn from_boxed_slice(boxed_slice: Box<[T]>) -> (r: Self)
        ensures
            owns(r, boxed_slice@),
            boxed_slice@.len() <= isize::MAX ==> r.is_valid(),
    {
        let v = boxed_slice.into_vec();
        let len = v.len();
        Slice { ptr: Some(v), len }
    }

    /// Takes ownership of a vector.
    pub fn from_vec(vec: Vec<T>) -> (r: Self)
        ensures
            owns(r, vec@),
            vec@.len() <= isize::MAX ==> r.is_valid(),
    {
        Self::from_boxed_slice(boxed_from_vec(vec))
    }

    /// Consumes the handle and hands back the buffer it owns, or `None` when the
    /// handle fails the validity gate.
    pub fn into_boxed_slice(self) -> (r: Option<Box<[T]>>)
        ensures
            handed_back(self, r),
    {
        if self.len > isize::MAX as usize {
            return None;
        }
        match self.ptr {
            Some(v) => {
                if v.len() == self.len {
                    Some(boxed_from_vec(v))
                } else {
                    None
                }
            },
            None => None,
        }
    }

    /// A mutable view of the buffer that the handle still owns, or `None` when the
    /// handle fails the validity gate.
    pub fn as_mut_slice(&mut self) -> (r: Option<&mut [T]>)
        ensures
            r is Some <==> old(self).is_valid(),
            r is Some ==> r->0@ == old(self).contents(),
            r is None ==> *final(self) == *old(self),
            r is Some ==> final(self).len == old(self).len && final(self).ptr is Some
                && final(self).contents() == final(r->0)@,
    {
        if self.len > isize::MAX as usize {
            return None;
        }
        let len = self.len;
        match &mut self.ptr {
            Some(v) => {
                if v.len() == len {
                    Some(v.as_mut_slice())
                } else {
                    None
                }
            },
            None => None,
        }
    }
}

/// Taking ownership of a buffer and handing it straight back gives the same elements,
/// for every buffer, the empty one included: where `from_vec` or `from_boxed_slice`
/// returned `handle` for `elements`, and `into_boxed_slice` then returned `r`, `r`
/// holds exactly `elements`. (No vector or boxed slice is longer than `isize::MAX`.)
pub proof fn lemma_round_trip<T>(elements: Seq<T>, handle: Slice<T>, r: Option<Box<[T]>>)
    requires
        owns(handle, elements),
        handed_back(handle, r),
        elements.len() <= isize::MAX,
    ensures
        r is Some,
        r->0@ == elements,
{
}

} // verus!
