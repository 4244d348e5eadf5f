//! The buffer handle: a `wgpu` buffer together with a handle to the device
//! that completes its mappings.
use crate::bounds::Bounds;
use crate::mapping::{aligned, MapMode, MappingFailed};
use crate::native::{buffer_allows, buffer_size, size_of, slice_of};
use crate::slice::{AsyncBufferSlice, PendingMap, PendingMapMut};
use crate::view::{AsyncBufferView, AsyncBufferViewMut, Stage};
use vstd::prelude::*;

verus! {

/// A `wgpu` buffer whose mappings can be awaited. `D` is the handle to the
/// device; every range sliced from the buffer gets a clone of it.
#[derive(Debug)]
pub struct AsyncBuffer<D> {
    device: D,
    buffer: wgpu::Buffer,
}

impl<D> AsyncBuffer<D> {
    /// The buffer of `wgpu` that the handle wraps.
    pub closed spec fn native(&self) -> wgpu::Buffer {
        self.buffer
    }

    /// The handle to the device that the buffer carries.
    pub closed spec fn spec_device(&self) -> &D {
        &self.device
    }

    /// The number of bytes in the buffer.
    pub open spec fn spec_size(&self) -> u64 {
        buffer_size(self.native())
    }

    /// Whether `size` bytes at `offset` of `buffer` are the range that
    /// `bounds` gives in this buffer.
    pub open spec fn covers(&self, bounds: Bounds, buffer: &wgpu::Buffer, offset: u64, size: u64)
        -> bool {
        *buffer == self.native() && offset == bounds.lower() && size == bounds.span(self.size())
    }

    /// Whether the platform takes a request to map, in `mode`, the range
    /// that `bounds` gives: the range is aligned, and the buffer was created
    /// for that access.
    pub open spec fn mappable(&self, bounds: Bounds, mode: MapMode) -> bool {
        aligned(bounds.lower() as u64, bounds.span(self.size()) as u64) && buffer_allows(
            self.native(),
            mode == MapMode::Write,
        )
    }

    /// What [`map_async`](Self::map_async) decides on `bounds`: a request
    /// to map the range that they give where it lies within the buffer and
    /// the platform takes the request; `OutOfRange` where it does not lie
    /// within, `Unmappable` where it does and the platform takes no request.
    pub open spec fn decides(&self, bounds: Bounds, pending: Result<PendingMap, MappingFailed>)
        -> bool {
        match pending {
            Ok(p) => bounds.within(self.size()) && self.mappable(bounds, MapMode::Read)
                && self.covers(bounds, p.buffer(), p.offset(), p.size()),
            Err(e) => if bounds.within(self.size()) {
                e == MappingFailed::Unmappable && !self.mappable(bounds, MapMode::Read)
            } else {
                e == MappingFailed::OutOfRange
            },
        }
    }

    /// What [`map_async_mut`](Self::map_async_mut) decides on `bounds`: as
    /// [`decides`](Self::decides), for writing.
    pub open spec fn decides_mut(
        &self,
        bounds: Bounds,
        pending: Result<PendingMapMut, MappingFailed>,
    ) -> bool {
        match pending {
            Ok(p) => bounds.within(self.size()) && self.mappable(bounds, MapMode::Write)
                && self.covers(bounds, p.buffer(), p.offset(), p.size()),
            Err(e) => if bounds.within(self.size()) {
                e == MappingFailed::Unmappable && !self.mappable(bounds, MapMode::Write)
            } else {
                e == MappingFailed::OutOfRange
            },
        }
    }

    /// Wraps a buffer of `wgpu`, so that its mappings can be awaited.
    pub fn wrap(device: D, buffer: wgpu::Buffer) -> (wrapped: Self)
        ensures
            wrapped.native() == buffer,
            *wrapped.device() == device,
    {
        AsyncBuffer { device, buffer }
    }

    /// The handle to the device that the buffer carries.
    #[verifier::when_used_as_spec(spec_device)]
    pub fn device(&self) -> (device: &D)
        ensures
            device == self.spec_device(),
    {
        &self.device
    }

    /// The buffer of `wgpu` that the handle wraps.
    pub fn as_native(&self) -> (native: &wgpu::Buffer)
        ensures
            *native == self.native(),
    {
        &self.buffer
    }

    /// The number of bytes in the buffer.
    #[verifier::when_used_as_spec(spec_size)]
    pub fn size(&self) -> (size: u64)
        ensures
            size == self.spec_size(),
    {
        size_of(&self.buffer)
    }
}

impl<D: Clone> AsyncBuffer<D> {
    /// The `size` bytes of the buffer at `offset`, with a clone of the handle
    /// to the device.
    fn carve(&self, offset: u64, size: u64) -> (slice: AsyncBufferSlice<'_, D>)
        requires
            offset + size <= self.size(),
        ensures
            *slice.buffer() == self.native(),
            slice.offset() == offset,
            slice.size() == size,
            cloned(*self.device(), *slice.device()),
    {
        AsyncBufferSlice::wrap(self.device.clone(), slice_of(&self.buffer, offset, offset + size))
    }

    /// The range of the buffer that `bounds` gives, with a clone of the
    /// handle to the device. The buffer is left as it is.
    pub fn slice(&self, bounds: Bounds) -> (slice: AsyncBufferSlice<'_, D>)
        requires
            bounds.within(self.size()),
        ensures
            self.covers(bounds, slice.buffer(), slice.offset(), slice.size()),
            cloned(*self.device(), *slice.device()),
    {
        let (offset, size) = bounds.resolve(size_of(&self.buffer)).unwrap();
        self.carve(offset, size)
    }

    /// The range of the buffer that `bounds` gives, as
    /// [`slice`](Self::slice) makes it, or `None` where it does not lie
    /// within the buffer.
    pub fn try_slice(&self, bounds: Bounds) -> (slice: Option<AsyncBufferSlice<'_, D>>)
        ensures
            slice is Some <==> bounds.within(self.size()),
            slice matches Some(s) ==> self.covers(bounds, s.buffer(), s.offset(), s.size())
                && cloned(*self.device(), *s.device()),
    {
        match bounds.resolve(size_of(&self.buffer)) {
            Some((offset, size)) => Some(self.carve(offset, size)),
            None => None,
        }
    }

    /// Decides on the mapping for reading of the range that `bounds` gives:
    /// [`try_slice`](Self::try_slice), then
    /// [`AsyncBufferSlice::map_async`]. Where a pending mapping comes back,
    /// the caller is to make the request; where an error does, none.
    pub fn map_async(&self, bounds: Bounds) -> (pending: Result<PendingMap<'_>, MappingFailed>)
        ensures
            self.decides(bounds, pending),
    {
        match self.try_slice(bounds) {
            Some(slice) => slice.map_async(),
            None => Err(MappingFailed::OutOfRange),
        }
    }

    /// Decides on the mapping for writing of the range that `bounds` gives:
    /// [`try_slice`](Self::try_slice), then
    /// [`AsyncBufferSlice::map_async_mut`]. Where a pending mapping comes
    /// back, the caller is to make the request; where an error does, none.
    pub fn map_async_mut(&self, bounds: Bounds) -> (pending: Result<
        PendingMapMut<'_>,
        MappingFailed,
    >)
        ensures
            self.decides_mut(bounds, pending),
    {
        match self.try_slice(bounds) {
            Some(slice) => slice.map_async_mut(),
            None => Err(MappingFailed::OutOfRange),
        }
    }
}

impl<D> std::ops::Deref for AsyncBuffer<D> {
    type Target = wgpu::Buffer;

    fn deref(&self) -> (native: &wgpu::Buffer)
        ensures
            *native == self.native(),
    {
        &self.buffer
    }
}

impl<D> std::ops::DerefMut for AsyncBuffer<D> {
    fn deref_mut(&mut self) -> (native: &mut wgpu::Buffer)
        ensures
            *native == old(self).native(),
            final(self).native() == *final(native),
            final(self).device() == old(self).device(),
    {
        &mut self.buffer
    }
}

/// A mapping for reading of any range within the buffer ends in one of two
/// ways, whatever the device reports: in an open view of that buffer which
/// shows as many bytes as the range holds, or in an error, without a view.
/// `Unmappable` is the error of a range that the platform takes no request
/// for; `Rejected` is the error of a failure that the device reported;
/// `AccessDenied` is left to the platform.
pub proof fn read_mapping_spans_range<D>(
    buffer: AsyncBuffer<D>,
    bounds: Bounds,
    pending: Result<PendingMap, MappingFailed>,
    outcome: Result<(), wgpu::BufferAsyncError>,
    view: Result<AsyncBufferView, MappingFailed>,
)
    requires
        bounds.within(buffer.size()),
        buffer.decides(bounds, pending),
        pending matches Ok(p) ==> p.resolves_to(outcome, view),
    ensures
        pending matches Err(e) ==> e == MappingFailed::Unmappable && !buffer.mappable(
            bounds,
            MapMode::Read,
        ),
        pending is Ok ==> match view {
            Ok(v) => outcome is Ok && v.stage() == Stage::Open && v.stage().unmaps_asked() == 0
                && *v.buffer() == buffer.native() && v@.len() == bounds.span(buffer.size())
                && v@.len() <= buffer.size(),
            Err(e) => (e == MappingFailed::Rejected && outcome is Err) || (e
                == MappingFailed::AccessDenied && outcome is Ok),
        },
{
}

/// The same of a mapping for writing.
pub proof fn write_mapping_spans_range<D>(
    buffer: AsyncBuffer<D>,
    bounds: Bounds,
    pending: Result<PendingMapMut, MappingFailed>,
    outcome: Result<(), wgpu::BufferAsyncError>,
    view: Result<AsyncBufferViewMut, MappingFailed>,
)
    requires
        bounds.within(buffer.size()),
        buffer.decides_mut(bounds, pending),
        pending matches Ok(p) ==> p.resolves_to(outcome, view),
    ensures
        pending matches Err(e) ==> e == MappingFailed::Unmappable && !buffer.mappable(
            bounds,
            MapMode::Write,
        ),
        pending is Ok ==> match view {
            Ok(v) => outcome is Ok && v.stage() == Stage::Open && v.stage().unmaps_asked() == 0
                && *v.buffer() == buffer.native() && v@.len() == bounds.span(buffer.size())
                && v@.len() <= buffer.size(),
            Err(e) => (e == MappingFailed::Rejected && outcome is Err) || (e
                == MappingFailed::AccessDenied && outcome is Ok),
        },
{
}

/// A cycle of mapping and release leaves nothing behind in the library: the
/// view has asked for the unmap of the buffer that the mapping was decided
/// on, once and with its handle closed, and that buffer decides on the next
/// range as it did before the cycle. Whether the device then grants the next
/// request is the device's to say.
pub proof fn cycle_returns_buffer<D>(
    buffer: AsyncBuffer<D>,
    bounds: Bounds,
    pending: PendingMap,
    outcome: Result<(), wgpu::BufferAsyncError>,
    view: AsyncBufferView,
    closed: AsyncBufferView,
    released: AsyncBufferView,
    next: Bounds,
    again: Result<PendingMap, MappingFailed>,
)
    requires
        buffer.decides(bounds, Ok(pending)),
        pending.resolves_to(outcome, Ok(view)),
        view.releases_to(closed),
        closed.settles_to(released),
        buffer.decides(next, again),
    ensures
        view.stage().unmaps_due() == 1,
        closed.stage() == Stage::Closed,
        closed.as_native() is None,
        closed.stage().unmaps_asked() == 1,
        closed.stage().unmaps_due() == 0,
        released.stage() == Stage::Released,
        released.stage().unmaps_due() == 0,
        *released.buffer() == buffer.native(),
        again is Ok <==> next.within(buffer_size(*released.buffer())) && aligned(
            next.lower() as u64,
            next.span(buffer_size(*released.buffer())) as u64,
        ) && buffer_allows(*released.buffer(), false),
        next == bounds ==> again is Ok,
{
}

/// The same of a cycle of mapping for writing and release.
pub proof fn write_cycle_returns_buffer<D>(
    buffer: AsyncBuffer<D>,
    bounds: Bounds,
    pending: PendingMapMut,
    outcome: Result<(), wgpu::BufferAsyncError>,
    view: AsyncBufferViewMut,
    closed: AsyncBufferViewMut,
    released: AsyncBufferViewMut,
    next: Bounds,
    again: Result<PendingMapMut, MappingFailed>,
)
    requires
        buffer.decides_mut(bounds, Ok(pending)),
        pending.resolves_to(outcome, Ok(view)),
        view.releases_to(closed),
        closed.settles_to(released),
        buffer.decides_mut(next, again),
    ensures
        view.stage().unmaps_due() == 1,
        closed.stage() == Stage::Closed,
        closed.as_native() is None,
        closed.stage().unmaps_asked() == 1,
        closed.stage().unmaps_due() == 0,
        released.stage() == Stage::Released,
        released.stage().unmaps_due() == 0,
        *released.buffer() == buffer.native(),
        again is Ok <==> next.within(buffer_size(*released.buffer())) && aligned(
            next.lower() as u64,
            next.span(buffer_size(*released.buffer())) as u64,
        ) && buffer_allows(*released.buffer(), true),
        next == bounds ==> again is Ok,
{
}

} // verus!
