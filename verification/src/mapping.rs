//! Access modes, the error of a mapping, and the platform's alignment rule.
use vstd::prelude::*;

verus! {

/// A mapped range starts at a multiple of this many bytes.
pub const MAP_ALIGNMENT: u64 = 8;

/// A mapped range is a multiple of this many bytes long.
pub const COPY_BUFFER_ALIGNMENT: u64 = 4;

/// The access that a mapping is requested for.
#[derive(Clone, Copy, Debug, PartialEq, Eq, Structural)]
pub enum MapMode {
    Read,
    Write,
}

/// Why a mapping did not yield a view.
#[derive(Clone, Copy, Debug, PartialEq, Eq, Structural)]
pub enum MappingFailed {
    /// The range does not lie within the buffer: the request was not
    /// submitted.
    OutOfRange,
    /// The range is not aligned as the platform demands, or the buffer was
    /// not created for this access: the request was not submitted.
    Unmappable,
    /// The device reported a failure to the completion callback.
    Rejected,
    /// The device reported success, but the platform refused to hand out
    /// access to the range.
    AccessDenied,
}

/// Whether a range of `size` bytes at `offset` is aligned for mapping.
pub open spec fn aligned(offset: u64, size: u64) -> bool {
    offset % MAP_ALIGNMENT == 0 && size % COPY_BUFFER_ALIGNMENT == 0
}

/// Tests the platform's alignment rule on a range.
pub fn is_aligned(offset: u64, size: u64) -> (ok: bool)
    ensures
        ok == aligned(offset, size),
{
    offset % MAP_ALIGNMENT == 0 && size % COPY_BUFFER_ALIGNMENT == 0
}

} // verus!
