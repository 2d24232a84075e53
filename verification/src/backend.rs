//! The device capability a buffer vector needs.
//!
//! A buffer vector does not talk to a concrete graphics runtime.  It goes
//! through [`RenderingBackend`], a small capability trait asking for exactly
//! the two device operations the update protocol uses: allocating a fresh
//! uninitialized buffer, and submitting an upload command that overwrites
//! the logical range of the current buffer.  A windowed application backs
//! the trait with a real device context; [`ModelBackend`] backs it with host
//! memory and is verified against the same contracts.

use vstd::prelude::*;

verus! {

/// A performance classification for a device allocation, describing the
/// expected access pattern.  It is passed through to the allocator unchanged
/// on every reallocation and is otherwise opaque to the buffer vector.
#[derive(Clone, Copy, Debug, PartialEq, Eq, Structural)]
pub enum UsageHint {
    /// Written rarely, drawn many times.
    StaticDraw,
    /// Rewritten regularly, drawn many times.
    DynamicDraw,
    /// Rewritten for nearly every draw.
    StreamDraw,
}

/// The device operations a buffer vector requires of a graphics backend.
///
/// A backend owns at most one live allocation per vector; `create_buffer`
/// discards the previous allocation and `submit_upload` rewrites the logical
/// prefix of the current one.  The contents of a fresh allocation are
/// unspecified: the update protocol only ever writes a range before any view
/// of it is handed out, so nothing may rely on what a new buffer holds.
pub trait RenderingBackend<T>: Sized {
    /// The element count of the current device allocation.
    spec fn buffer_capacity(&self) -> nat;

    /// The usage hint the current allocation was created with.
    spec fn buffer_usage(&self) -> UsageHint;

    /// The logically initialized contents of the current allocation: the
    /// elements written by the most recent upload.
    spec fn contents(&self) -> Seq<T>;

    /// Discards the current allocation and creates a fresh, uninitialized
    /// one sized for `capacity` elements.
    fn create_buffer(&mut self, capacity: usize, usage: UsageHint)
        ensures
            final(self).buffer_capacity() == capacity,
            final(self).buffer_usage() == usage,
    ;

    /// Builds an upload command that overwrites the range `[0, data.len())`
    /// of the current allocation with `data`, and submits it.  The range is
    /// fully overwritten and never read, so it need not be initialized
    /// beforehand; it must lie inside the allocation.
    fn submit_upload(&mut self, data: &Vec<T>)
        requires
            data.len() <= old(self).buffer_capacity(),
        ensures
            final(self).contents() == data@,
            final(self).buffer_capacity() == old(self).buffer_capacity(),
            final(self).buffer_usage() == old(self).buffer_usage(),
    ;
}

/// A host-memory rendering backend: allocations are plain vectors and an
/// upload is a copy.  It implements the same capability contract a device
/// backend is expected to meet, and is what the test suite runs against.
pub struct ModelBackend<T> {
    capacity: usize,
    usage: UsageHint,
    data: Vec<T>,
}

impl<T: Copy> ModelBackend<T> {
    /// A backend with an empty zero-sized allocation.
    pub fn new() -> (backend: Self)
        ensures
            backend.buffer_capacity() == 0,
            backend.contents() == Seq::<T>::empty(),
    {
        ModelBackend { capacity: 0, usage: UsageHint::StaticDraw, data: Vec::new() }
    }

    /// The element count of the current allocation.
    pub fn capacity(&self) -> (capacity: usize)
        ensures
            capacity == self.buffer_capacity(),
    {
        self.capacity
    }

    /// The usage hint the current allocation was created with.
    pub fn usage_hint(&self) -> (usage: UsageHint)
        ensures
            usage == self.buffer_usage(),
    {
        self.usage
    }

    /// The elements written by the most recent upload.
    pub fn data(&self) -> (data: &Vec<T>)
        ensures
            data@ == self.contents(),
    {
        &self.data
    }
}

impl<T: Copy> RenderingBackend<T> for ModelBackend<T> {
    closed spec fn buffer_capacity(&self) -> nat {
        self.capacity as nat
    }

    closed spec fn buffer_usage(&self) -> UsageHint {
        self.usage
    }

    closed spec fn contents(&self) -> Seq<T> {
        self.data@
    }

    fn create_buffer(&mut self, capacity: usize, usage: UsageHint) {
        self.capacity = capacity;
        self.usage = usage;
        self.data = Vec::new();
    }

    fn submit_upload(&mut self, data: &Vec<T>) {
        let mut written: Vec<T> = Vec::new();
        let mut i: usize = 0;
        while i < data.len()
            invariant
                i <= data.len(),
                written@ == data@.subrange(0, i as int),
            decreases data.len() - i,
        {
            written.push(data[i]);
            i = i + 1;
            assert(written@ =~= data@.subrange(0, i as int));
        }
        assert(written@ =~= data@);
        self.data = written;
    }
}

} // verus!
