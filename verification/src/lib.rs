//! Awaitable mapping of `wgpu` buffers, as verified decisions.
//!
//! A mapping runs through four steps. A range of a buffer is described
//! ([`AsyncBuffer::slice`](buffer::AsyncBuffer::slice)). It is decided
//! whether the device is to be asked for the mapping
//! ([`AsyncBufferSlice::map_async`](slice::AsyncBufferSlice::map_async)).
//! The outcome that the device reported to the completion callback is turned
//! into a view ([`PendingMap::resolve`](slice::PendingMap::resolve)). The
//! view is released
//! ([`AsyncBufferView::release`](view::AsyncBufferView::release)): its
//! access handle is closed, and only then, and once, the caller is told to
//! unmap the buffer.
//!
//! Three things are left to the caller: the request to the device, the wait
//! for its callback, and the unmap. Nothing here suspends, and nothing here
//! makes a call whose failure depends on what the device holds.
pub mod bounds;
pub mod buffer;
pub mod mapping;
pub mod native;
pub mod slice;
pub mod view;
