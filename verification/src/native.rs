//! What this library takes on trust from `wgpu`.
//!
//! The handles of `wgpu` are opaque here. Each function below makes one call
//! on them, and its contract states what `wgpu` does there; none of it is
//! proved.
//!
//! Two calls of a mapping are not made from here: the request, and the
//! unmap. Whether `wgpu` takes them without a panic depends on what the
//! device holds behind the handle (a buffer that was destroyed, another view
//! that is alive), which no contract over a handle can say. The library
//! decides when each is due and leaves the call to its caller.
use crate::mapping::MapMode;
use vstd::prelude::*;

verus! {

#[verifier::external_type_specification]
#[verifier::external_body]
pub struct ExBuffer(wgpu::Buffer);

#[verifier::external_type_specification]
#[verifier::external_body]
pub struct ExBufferSlice<'a>(wgpu::BufferSlice<'a>);

#[verifier::external_type_specification]
#[verifier::external_body]
pub struct ExBufferView(wgpu::BufferView);

#[verifier::external_type_specification]
#[verifier::external_body]
pub struct ExBufferViewMut(wgpu::BufferViewMut);

#[verifier::external_type_specification]
#[verifier::external_body]
pub struct ExBufferAsyncError(wgpu::BufferAsyncError);

#[verifier::external_type_specification]
#[verifier::external_body]
pub struct ExMapRangeError(wgpu::MapRangeError);

/// The number of bytes that a buffer was created with.
pub uninterp spec fn buffer_size(buffer: wgpu::Buffer) -> u64;

/// Whether a buffer was created with the usage that mapping for writing
/// (`write`) or for reading (`!write`) needs.
pub uninterp spec fn buffer_allows(buffer: wgpu::Buffer, write: bool) -> bool;

/// The buffer that a slice refers to.
pub uninterp spec fn slice_buffer(slice: wgpu::BufferSlice) -> wgpu::Buffer;

/// The offset in its buffer at which a slice starts.
pub uninterp spec fn slice_offset(slice: wgpu::BufferSlice) -> u64;

/// The number of bytes in a slice.
pub uninterp spec fn slice_size(slice: wgpu::BufferSlice) -> u64;

/// The bytes that a read view shows.
pub uninterp spec fn visible_bytes(view: wgpu::BufferView) -> Seq<u8>;

/// The bytes that stand in the range of a write view.
pub uninterp spec fn held_bytes(view: wgpu::BufferViewMut) -> Seq<u8>;

/// `bytes` with `patch` written over it from `offset` on.
pub open spec fn overwritten(bytes: Seq<u8>, offset: int, patch: Seq<u8>) -> Seq<u8>
    recommends
        0 <= offset,
        offset + patch.len() <= bytes.len(),
{
    Seq::new(
        bytes.len(),
        |i: int|
            if offset <= i < offset + patch.len() {
                patch[i - offset]
            } else {
                bytes[i]
            },
    )
}

/// `wgpu::Buffer::size`: the size that the buffer was created with.
#[verifier::external_body]
pub(crate) fn size_of(buffer: &wgpu::Buffer) -> (size: u64)
    ensures
        size == buffer_size(*buffer),
{
    buffer.size()
}

/// `wgpu::Buffer::usage`, asked for the usage that mapping in `mode` needs:
/// the usages are those that the buffer was created with.
#[verifier::external_body]
pub(crate) fn allows(buffer: &wgpu::Buffer, mode: MapMode) -> (allowed: bool)
    ensures
        allowed == buffer_allows(*buffer, mode == MapMode::Write),
{
    let needed = match mode {
        MapMode::Read => wgpu::BufferUsages::MAP_READ,
        MapMode::Write => wgpu::BufferUsages::MAP_WRITE,
    };
    buffer.usage().contains(needed)
}

/// `wgpu::Buffer::slice` on `start..end`. It panics on a range that does not
/// lie within the buffer; on one that does, the slice refers to the buffer,
/// starts at `start` and holds `end - start` bytes.
#[verifier::external_body]
pub(crate) fn slice_of<'a>(buffer: &'a wgpu::Buffer, start: u64, end: u64) -> (slice:
    wgpu::BufferSlice<'a>)
    requires
        start <= end <= buffer_size(*buffer),
    ensures
        slice_buffer(slice) == *buffer,
        slice_offset(slice) == start,
        slice_size(slice) == end - start,
{
    buffer.slice(start..end)
}

/// `wgpu::BufferSlice::buffer`.
#[verifier::external_body]
pub(crate) fn buffer_of<'a>(slice: &wgpu::BufferSlice<'a>) -> (buffer: &'a wgpu::Buffer)
    ensures
        *buffer == slice_buffer(*slice),
{
    slice.buffer()
}

/// `wgpu::BufferSlice::offset`.
#[verifier::external_body]
pub(crate) fn offset_of(slice: &wgpu::BufferSlice) -> (offset: u64)
    ensures
        offset == slice_offset(*slice),
{
    slice.offset()
}

/// `wgpu::BufferSlice::size`.
#[verifier::external_body]
pub(crate) fn len_of(slice: &wgpu::BufferSlice) -> (size: u64)
    ensures
        size == slice_size(*slice),
{
    slice.size()
}

/// `wgpu::BufferSlice::get_mapped_range`: a view of the slice's bytes, as
/// many as the slice holds, or an error where the buffer is not mapped over
/// the slice or a write view overlaps it.
#[verifier::external_body]
pub(crate) fn read_range(slice: &wgpu::BufferSlice) -> (view: Result<
    wgpu::BufferView,
    wgpu::MapRangeError,
>)
    ensures
        view matches Ok(v) ==> visible_bytes(v).len() == slice_size(*slice),
{
    slice.get_mapped_range()
}

/// `wgpu::BufferSlice::get_mapped_range_mut`: a view to write the slice's
/// bytes through, as many as the slice holds, or an error where the buffer is
/// not mapped over the slice or another view overlaps it.
#[verifier::external_body]
pub(crate) fn write_range(slice: &wgpu::BufferSlice) -> (view: Result<
    wgpu::BufferViewMut,
    wgpu::MapRangeError,
>)
    ensures
        view matches Ok(v) ==> held_bytes(v).len() == slice_size(*slice),
{
    slice.get_mapped_range_mut()
}

/// The `Deref` of `wgpu::BufferView`: the bytes that the view shows.
#[verifier::external_body]
pub(crate) fn bytes_of(view: &wgpu::BufferView) -> (bytes: &[u8])
    ensures
        bytes@ == visible_bytes(*view),
{
    view
}

/// `wgpu::BufferViewMut::len`.
#[verifier::external_body]
pub(crate) fn held_len(view: &wgpu::BufferViewMut) -> (len: usize)
    ensures
        len == held_bytes(*view).len(),
{
    view.len()
}

/// `wgpu::BufferViewMut::slice` on `start..end`, then `copy_from_slice` on
/// that part: the bytes of `patch` stand there, the others are untouched.
/// `slice` panics on a part that does not lie within the view, and
/// `copy_from_slice` on a `patch` of another length than the part.
#[verifier::external_body]
pub(crate) fn put_bytes(view: &mut wgpu::BufferViewMut, start: usize, end: usize, patch: &[u8])
    requires
        start <= end <= held_bytes(*old(view)).len(),
        patch@.len() == end - start,
    ensures
        held_bytes(*final(view)) == overwritten(held_bytes(*old(view)), start as int, patch@),
{
    view.slice(start..end).copy_from_slice(patch)
}

} // verus!
