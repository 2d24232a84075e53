//! A growable device buffer for draw-call index data.

use vstd::prelude::*;

use crate::backend::RenderingBackend;
use crate::backend::UsageHint;
use crate::buffer_vec::BufferVec;
use crate::capacity::capacity_after_update;
use crate::capacity::planned_capacity;

verus! {

/// Element types valid as indices in an indexed draw operation: the
/// fixed-width unsigned integers the graphics pipeline recognizes.
pub trait IndexFormat {

}

impl IndexFormat for u8 {

}

impl IndexFormat for u16 {

}

impl IndexFormat for u32 {

}

/// A vector-like container for index data whose backing storage is a device
/// buffer reached through a [`RenderingBackend`].
///
/// It follows the same growth and update protocol as [`BufferVec`], with
/// elements restricted to [`IndexFormat`] types, and its views are usable
/// directly as the index source of an indexed draw.
pub struct IndexBufferVec<B, T> {
    inner: BufferVec<B, T>,
}

/// A non-owning view over the logical range `[0, len)` of an index buffer
/// vector's current allocation, usable as the index source of an indexed
/// draw.
///
/// A view is tied to the allocation it was taken from: it stays valid
/// until an update reallocates, which [`IndexBufferVec::view_is_live`]
/// tracks through the allocation generation.
pub struct IndexBufferView {
    len: usize,
    generation: Ghost<nat>,
}

impl IndexBufferView {
    /// The number of elements the view spans.
    pub closed spec fn spec_len(&self) -> nat {
        self.len as nat
    }

    /// The generation of the allocation the view was taken from.
    pub closed spec fn spec_generation(&self) -> nat {
        self.generation@
    }

    /// The number of elements the view spans.
    pub fn len(&self) -> (len: usize)
        ensures
            len == self.spec_len(),
    {
        self.len
    }
}

impl<B: RenderingBackend<T>, T: IndexFormat> IndexBufferVec<B, T> {
    /// The logical length: the element count of the most recent update.
    pub closed spec fn spec_len(&self) -> nat {
        self.inner.spec_len()
    }

    /// The element count of the current device allocation.
    pub closed spec fn spec_capacity(&self) -> nat {
        self.inner.spec_capacity()
    }

    /// The usage hint every allocation of this vector is created with.
    pub closed spec fn spec_usage(&self) -> UsageHint {
        self.inner.spec_usage()
    }

    /// The logical content: the elements of the most recent update, as
    /// held by the device allocation.
    pub closed spec fn contents(&self) -> Seq<T> {
        self.inner.contents()
    }

    /// The backend the vector issues its device work through.
    pub closed spec fn spec_backend(&self) -> B {
        self.inner.spec_backend()
    }

    /// How many device allocations the vector has made: it changes exactly
    /// when an update reallocates, so it identifies the current allocation.
    pub closed spec fn spec_generation(&self) -> nat {
        self.inner.spec_generation()
    }

    /// Well-formedness: the logical length fits the current allocation,
    /// and the tracked capacity and usage agree with the backend's.
    pub closed spec fn wf(&self) -> bool {
        self.inner.wf()
    }

    /// Whether `view` was taken from the vector's current allocation and
    /// is therefore still backed by live device memory.
    pub open spec fn view_is_live(&self, view: &IndexBufferView) -> bool {
        view.spec_generation() == self.spec_generation()
    }

    /// Creates an index-buffer-backed vector with capacity 0 on the given
    /// backend.
    pub fn new(backend: B, usage: UsageHint) -> (vec: Self)
        ensures
            vec.wf(),
            vec.spec_len() == 0,
            vec.spec_capacity() == 0,
            vec.spec_usage() == usage,
    {
        IndexBufferVec { inner: BufferVec::new(backend, usage) }
    }

    /// Creates an index-buffer-backed vector with the given starting
    /// capacity on the given backend.
    pub fn with_capacity(backend: B, usage: UsageHint, capacity: usize) -> (vec: Self)
        ensures
            vec.wf(),
            vec.spec_len() == 0,
            vec.spec_capacity() == capacity,
            vec.spec_usage() == usage,
    {
        IndexBufferVec { inner: BufferVec::with_capacity(backend, usage, capacity) }
    }

    /// Replaces the logical content with `data`, reallocating first when
    /// the current allocation is too small.
    ///
    /// The logical length becomes `data.len()`.  When the capacity planner
    /// signals growth, a fresh allocation of the planned capacity is
    /// created with the same usage hint and the old one is discarded;
    /// otherwise the allocation is reused.  Either way the data is uploaded
    /// into the range `[0, data.len())`.  A reallocation invalidates
    /// previously taken views, which the generation records.
    ///
    /// The upload is submitted, not awaited: device work submitted from the
    /// same queue after this call observes the new data, while work
    /// submitted before it, without a fence, observes the old data.  No
    /// guarantee is given across independent submission queues.
    pub fn update(&mut self, data: &Vec<T>)
        requires
            old(self).wf(),
            data.len() <= usize::MAX / 2 + 1,
        ensures
            final(self).wf(),
            final(self).spec_len() == data.len(),
            final(self).contents() == data@,
            final(self).spec_usage() == old(self).spec_usage(),
            final(self).spec_capacity() == capacity_after_update(
                old(self).spec_capacity(),
                data.len() as nat,
            ),
            final(self).spec_capacity() >= old(self).spec_capacity(),
            final(self).spec_generation() == old(self).spec_generation() + (if planned_capacity(
                old(self).spec_capacity(),
                data.len() as nat,
            ) is Some {
                1int
            } else {
                0int
            }),
    {
        self.inner.update(data);
    }

    /// The number of elements the vector can hold without allocating a new
    /// device buffer.
    pub fn capacity(&self) -> (capacity: usize)
        ensures
            capacity == self.spec_capacity(),
    {
        self.inner.capacity()
    }

    /// A view over the logical range `[0, len)` of the current allocation.
    ///
    /// The view is valid for the lifetime of the current allocation: it is
    /// invalidated by any later update that reallocates.
    pub fn as_buffer_view(&self) -> (view: IndexBufferView)
        requires
            self.wf(),
        ensures
            view.spec_len() == self.spec_len(),
            view.spec_len() <= self.spec_capacity(),
            self.view_is_live(&view),
    {
        let inner_view = self.inner.as_buffer_view();
        let ghost generation = self.inner.spec_generation();
        IndexBufferView { len: inner_view.len(), generation: Ghost(generation) }
    }

    /// Gives the backend back for inspection or further device work.
    pub fn backend(&self) -> (backend: &B)
        ensures
            *backend == self.spec_backend(),
    {
        self.inner.backend()
    }
}

} // verus!
