//! A growable device buffer for generic copyable element data.

use core::marker::PhantomData;
use vstd::prelude::*;

use crate::backend::RenderingBackend;
use crate::backend::UsageHint;
use crate::capacity::capacity_after_update;
use crate::capacity::growth_start;
use crate::capacity::lemma_doubled_until_bounds;
use crate::capacity::new_capacity_amortized;
use crate::capacity::planned_capacity;

verus! {

/// A vector-like container whose backing storage is a device buffer reached
/// through a [`RenderingBackend`].
///
/// The container tracks a logical length and the element count of the
/// current device allocation.  [`BufferVec::update`] replaces the whole
/// logical content: it grows the allocation by amortized doubling when the
/// new data does not fit, then uploads the data into the range
/// `[0, data.len())` of the (possibly fresh) allocation.
pub struct BufferVec<B, T> {
    backend: B,
    len: usize,
    capacity: usize,
    usage: UsageHint,
    generation: Ghost<nat>,
    elem: PhantomData<T>,
}

/// A non-owning view over the logical range `[0, len)` of a buffer
/// vector's current allocation, suitable as draw input.
///
/// A view is tied to the allocation it was taken from: it stays valid
/// until an update reallocates, which [`BufferVec::view_is_live`] tracks
/// through the allocation generation.
pub struct BufferView {
    len: usize,
    generation: Ghost<nat>,
}

impl BufferView {
    /// The number of elements the view spans.
    pub closed spec fn spec_len(&self) -> nat {
        self.len as nat
    }

    /// The generation of the allocation the view was taken from.
    pub closed spec fn spec_generation(&self) -> nat {
        self.generation@
    }

    /// The number of elements the view spans.
    pub fn len(&self) -> (len: usize)
        ensures
            len == self.spec_len(),
    {
        self.len
    }
}

impl<B: RenderingBackend<T>, T> BufferVec<B, T> {
    /// The logical length: the element count of the most recent update.
    pub closed spec fn spec_len(&self) -> nat {
        self.len as nat
    }

    /// The element count of the current device allocation.
    pub closed spec fn spec_capacity(&self) -> nat {
        self.capacity as nat
    }

    /// The usage hint every allocation of this vector is created with.
    pub closed spec fn spec_usage(&self) -> UsageHint {
        self.usage
    }

    /// The logical content: the elements of the most recent update, as
    /// held by the device allocation.
    pub closed spec fn contents(&self) -> Seq<T> {
        self.backend.contents()
    }

    /// The backend the vector issues its device work through.
    pub closed spec fn spec_backend(&self) -> B {
        self.backend
    }

    /// How many device allocations the vector has made: it changes exactly
    /// when an update reallocates, so it identifies the current allocation.
    pub closed spec fn spec_generation(&self) -> nat {
        self.generation@
    }

    /// Well-formedness: the logical length fits the current allocation,
    /// and the tracked capacity and usage agree with the backend's.
    pub closed spec fn wf(&self) -> bool {
        &&& self.len <= self.capacity
        &&& self.capacity as nat == self.backend.buffer_capacity()
        &&& self.usage == self.backend.buffer_usage()
    }

    /// Whether `view` was taken from the vector's current allocation and
    /// is therefore still backed by live device memory.
    pub open spec fn view_is_live(&self, view: &BufferView) -> bool {
        view.spec_generation() == self.spec_generation()
    }

    /// Creates a buffer-backed vector with capacity 0 on the given backend.
    pub fn new(backend: B, usage: UsageHint) -> (vec: Self)
        ensures
            vec.wf(),
            vec.spec_len() == 0,
            vec.spec_capacity() == 0,
            vec.spec_usage() == usage,
    {
        let mut backend = backend;
        backend.create_buffer(0, usage);
        BufferVec {
            backend,
            len: 0,
            capacity: 0,
            usage,
            generation: Ghost(0),
            elem: PhantomData,
        }
    }

    /// Creates a buffer-backed vector with the given starting capacity on
    /// the given backend.
    pub fn with_capacity(backend: B, usage: UsageHint, capacity: usize) -> (vec: Self)
        ensures
            vec.wf(),
            vec.spec_len() == 0,
            vec.spec_capacity() == capacity,
            vec.spec_usage() == usage,
    {
        let mut backend = backend;
        backend.create_buffer(capacity, usage);
        BufferVec {
            backend,
            len: 0,
            capacity,
            usage,
            generation: Ghost(0),
            elem: PhantomData,
        }
    }

    /// Replaces the logical content with `data`, reallocating first when
    /// the current allocation is too small.
    ///
    /// The logical length becomes `data.len()`.  When the capacity planner
    /// signals growth, a fresh allocation of the planned capacity is
    /// created with the same usage hint and the old one is discarded;
    /// otherwise the allocation is reused.  Either way the data is uploaded
    /// into the range `[0, data.len())`.  Returns whether a reallocation
    /// occurred; a reallocation invalidates previously taken views.
    ///
    /// The upload is submitted, not awaited: device work submitted from the
    /// same queue after this call observes the new data, while work
    /// submitted before it, without a fence, observes the old data.  No
    /// guarantee is given across independent submission queues.
    pub fn update(&mut self, data: &Vec<T>) -> (reallocated: bool)
        requires
            old(self).wf(),
            data.len() <= usize::MAX / 2 + 1,
        ensures
            final(self).wf(),
            final(self).spec_len() == data.len(),
            final(self).contents() == data@,
            final(self).spec_usage() == old(self).spec_usage(),
            reallocated == (planned_capacity(old(self).spec_capacity(), data.len() as nat)
                is Some),
            final(self).spec_capacity() == capacity_after_update(
                old(self).spec_capacity(),
                data.len() as nat,
            ),
            final(self).spec_capacity() >= old(self).spec_capacity(),
            final(self).spec_generation() == old(self).spec_generation() + (if reallocated {
                1int
            } else {
                0int
            }),
    {
        let required = data.len();
        self.len = required;

        let reallocated = if let Some(new_capacity) = new_capacity_amortized(
            self.capacity,
            required,
        ) {
            proof {
                lemma_doubled_until_bounds(growth_start(old(self).spec_capacity()), required as nat);
            }
            self.backend.create_buffer(new_capacity, self.usage);
            self.capacity = new_capacity;
            self.generation = Ghost(self.generation@ + 1);
            true
        } else {
            false
        };

        self.backend.submit_upload(data);

        reallocated
    }

    /// The number of elements the vector can hold without allocating a new
    /// device buffer.
    pub fn capacity(&self) -> (capacity: usize)
        ensures
            capacity == self.spec_capacity(),
    {
        self.capacity
    }

    /// A view over the logical range `[0, len)` of the current allocation.
    ///
    /// The view is valid for the lifetime of the current allocation: it is
    /// invalidated by any later update that reallocates.
    pub fn as_buffer_view(&self) -> (view: BufferView)
        requires
            self.wf(),
        ensures
            view.spec_len() == self.spec_len(),
            view.spec_len() <= self.spec_capacity(),
            self.view_is_live(&view),
    {
        BufferView { len: self.len, generation: self.generation }
    }

    /// Gives the backend back for inspection or further device work.
    pub fn backend(&self) -> (backend: &B)
        ensures
            *backend == self.spec_backend(),
    {
        &self.backend
    }
}

} // verus!
