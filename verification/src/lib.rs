//! Growable GPU-resident buffers for slices of data.
//!
//! A [`BufferVec`] (and its index-element counterpart [`IndexBufferVec`])
//! keeps a logical length in sync with a device-side allocation, growing the
//! allocation by amortized doubling whenever an update supplies more
//! elements than the current allocation can hold.  The device is reached
//! through the [`RenderingBackend`] capability trait; [`ModelBackend`] is a
//! host-memory implementation of that trait, verified against the same
//! contracts, for testing and headless use.

pub mod backend;
pub mod buffer_vec;
pub mod capacity;
pub mod index_buffer_vec;

pub use backend::ModelBackend;
pub use backend::RenderingBackend;
pub use backend::UsageHint;
pub use buffer_vec::BufferVec;
pub use buffer_vec::BufferView;
pub use index_buffer_vec::IndexBufferVec;
pub use index_buffer_vec::IndexBufferView;
pub use index_buffer_vec::IndexFormat;
