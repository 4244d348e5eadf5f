//! Range descriptors, and mappings that wait for the device.
use crate::mapping::{aligned, is_aligned, MapMode, MappingFailed};
use crate::native::{
    allows, buffer_allows, buffer_of, len_of, offset_of, slice_buffer, slice_offset, slice_size,
};
use crate::view::{AsyncBufferView, AsyncBufferViewMut, Stage};
use vstd::prelude::*;

verus! {

/// A range of a buffer that can be mapped, once: deciding on the mapping
/// uses the descriptor up. It carries its own handle to the device, so it
/// does not depend on the `AsyncBuffer` that it was sliced from.
#[derive(Debug)]
pub struct AsyncBufferSlice<'a, D> {
    device: D,
    buffer_slice: wgpu::BufferSlice<'a>,
}

/// A mapping for reading that is to be requested of the device, on the
/// slice that [`as_native`](Self::as_native) gives, and then waits for the
/// outcome. Dropping it abandons the wait; a request that was made stays
/// with the device.
#[derive(Debug)]
pub struct PendingMap<'a> {
    buffer_slice: wgpu::BufferSlice<'a>,
}

/// A mapping for writing that is to be requested of the device, on the
/// slice that [`as_native`](Self::as_native) gives, and then waits for the
/// outcome. Dropping it abandons the wait; a request that was made stays
/// with the device.
#[derive(Debug)]
pub struct PendingMapMut<'a> {
    buffer_slice: wgpu::BufferSlice<'a>,
}

impl<'a, D> AsyncBufferSlice<'a, D> {
    /// The slice of `wgpu` that the descriptor wraps.
    pub closed spec fn native(&self) -> wgpu::BufferSlice<'a> {
        self.buffer_slice
    }

    /// The handle to the device that the descriptor carries.
    pub closed spec fn spec_device(&self) -> &D {
        &self.device
    }

    /// The buffer that the range lies in.
    pub open spec fn spec_buffer(&self) -> &'a wgpu::Buffer {
        &slice_buffer(self.native())
    }

    /// The offset in the buffer at which the range starts.
    pub open spec fn spec_offset(&self) -> u64 {
        slice_offset(self.native())
    }

    /// The number of bytes in the range.
    pub open spec fn spec_size(&self) -> u64 {
        slice_size(self.native())
    }

    /// Whether the platform takes a request to map the range in `mode`: the
    /// range is aligned, and the buffer was created for that access.
    pub open spec fn mappable(&self, mode: MapMode) -> bool {
        aligned(self.offset(), self.size()) && buffer_allows(
            *self.buffer(),
            mode == MapMode::Write,
        )
    }

    /// What [`map_async`](Self::map_async) decides: a request to map this
    /// very slice where the platform takes one, `Unmappable` where not.
    pub open spec fn decides(&self, pending: Result<PendingMap<'a>, MappingFailed>) -> bool {
        match pending {
            Ok(p) => self.mappable(MapMode::Read) && p.native() == self.native(),
            Err(e) => !self.mappable(MapMode::Read) && e == MappingFailed::Unmappable,
        }
    }

    /// What [`map_async_mut`](Self::map_async_mut) decides: a request to map
    /// this very slice where the platform takes one, `Unmappable` where not.
    pub open spec fn decides_mut(&self, pending: Result<PendingMapMut<'a>, MappingFailed>)
        -> bool {
        match pending {
            Ok(p) => self.mappable(MapMode::Write) && p.native() == self.native(),
            Err(e) => !self.mappable(MapMode::Write) && e == MappingFailed::Unmappable,
        }
    }

    /// Wraps a slice of `wgpu`, so that its mapping can be awaited.
    pub fn wrap(device: D, buffer_slice: wgpu::BufferSlice<'a>) -> (slice: Self)
        ensures
            slice.native() == buffer_slice,
            *slice.device() == device,
    {
        AsyncBufferSlice { device, buffer_slice }
    }

    /// The handle to the device that the descriptor carries.
    #[verifier::when_used_as_spec(spec_device)]
    pub fn device(&self) -> (device: &D)
        ensures
            device == self.spec_device(),
    {
        &self.device
    }

    /// The slice of `wgpu` that the descriptor wraps.
    pub fn as_native(&self) -> (native: &wgpu::BufferSlice<'a>)
        ensures
            *native == self.native(),
    {
        &self.buffer_slice
    }

    /// The buffer that the range lies in.
    #[verifier::when_used_as_spec(spec_buffer)]
    pub fn buffer(&self) -> (buffer: &'a wgpu::Buffer)
        ensures
            buffer == self.spec_buffer(),
    {
        buffer_of(&self.buffer_slice)
    }

    /// The offset in the buffer at which the range starts.
    #[verifier::when_used_as_spec(spec_offset)]
    pub fn offset(&self) -> (offset: u64)
        ensures
            offset == self.spec_offset(),
    {
        offset_of(&self.buffer_slice)
    }

    /// The number of bytes in the range.
    #[verifier::when_used_as_spec(spec_size)]
    pub fn size(&self) -> (size: u64)
        ensures
            size == self.spec_size(),
    {
        len_of(&self.buffer_slice)
    }

    /// Tests whether the platform takes a request to map the range in
    /// `mode`.
    pub fn can_map(&self, mode: MapMode) -> (ok: bool)
        ensures
            ok == self.mappable(mode),
    {
        is_aligned(self.offset(), self.size()) && allows(self.buffer(), mode)
    }

    /// Decides on the mapping of the range for reading, and uses the
    /// descriptor up. Where the platform takes the request, the caller is
    /// to make it, on the slice of the pending mapping and with a completion
    /// callback, and to hand the outcome that the callback gets to
    /// [`PendingMap::resolve`]. Where it does not, no request is to be made.
    pub fn map_async(self) -> (pending: Result<PendingMap<'a>, MappingFailed>)
        ensures
            self.decides(pending),
    {
        if self.can_map(MapMode::Read) {
            Ok(PendingMap { buffer_slice: self.buffer_slice })
        } else {
            Err(MappingFailed::Unmappable)
        }
    }

    /// Decides on the mapping of the range for writing, and uses the
    /// descriptor up. Where the platform takes the request, the caller is
    /// to make it, on the slice of the pending mapping and with a completion
    /// callback, and to hand the outcome that the callback gets to
    /// [`PendingMapMut::resolve`]. Where it does not, no request is to be
    /// made.
    pub fn map_async_mut(self) -> (pending: Result<PendingMapMut<'a>, MappingFailed>)
        ensures
            self.decides_mut(pending),
    {
        if self.can_map(MapMode::Write) {
            Ok(PendingMapMut { buffer_slice: self.buffer_slice })
        } else {
            Err(MappingFailed::Unmappable)
        }
    }
}

impl<'a, D> std::ops::Deref for AsyncBufferSlice<'a, D> {
    type Target = wgpu::BufferSlice<'a>;

    fn deref(&self) -> (native: &wgpu::BufferSlice<'a>)
        ensures
            *native == self.native(),
    {
        &self.buffer_slice
    }
}

impl<'a, D> std::ops::DerefMut for AsyncBufferSlice<'a, D> {
    fn deref_mut(&mut self) -> (native: &mut wgpu::BufferSlice<'a>)
        ensures
            *native == old(self).native(),
            final(self).native() == *final(native),
            final(self).device() == old(self).device(),
    {
        &mut self.buffer_slice
    }
}

impl<'a> PendingMap<'a> {
    /// The slice of `wgpu` whose mapping is to be requested.
    pub closed spec fn native(&self) -> wgpu::BufferSlice<'a> {
        self.buffer_slice
    }

    /// The buffer that the range lies in.
    pub open spec fn spec_buffer(&self) -> &'a wgpu::Buffer {
        &slice_buffer(self.native())
    }

    /// The offset in the buffer at which the range starts.
    pub open spec fn spec_offset(&self) -> u64 {
        slice_offset(self.native())
    }

    /// The number of bytes in the range.
    pub open spec fn spec_size(&self) -> u64 {
        slice_size(self.native())
    }

    /// What [`resolve`](Self::resolve) makes of an outcome. A failure that
    /// the device reported is `Rejected`, and there is no view. On a success
    /// there is a view, open, of the buffer and as long as the range; or
    /// `AccessDenied`, which the platform decides.
    pub open spec fn resolves_to(
        &self,
        outcome: Result<(), wgpu::BufferAsyncError>,
        view: Result<AsyncBufferView<'a>, MappingFailed>,
    ) -> bool {
        match view {
            Ok(v) => outcome is Ok && v.stage() == Stage::Open && v@.len() == self.size()
                && v.buffer() == self.buffer(),
            Err(e) => e == (if outcome is Err {
                MappingFailed::Rejected
            } else {
                MappingFailed::AccessDenied
            }),
        }
    }

    /// The slice of `wgpu` whose mapping is to be requested, for reading.
    pub fn as_native(&self) -> (native: &wgpu::BufferSlice<'a>)
        ensures
            *native == self.native(),
    {
        &self.buffer_slice
    }

    /// The buffer that the range lies in.
    #[verifier::when_used_as_spec(spec_buffer)]
    pub fn buffer(&self) -> (buffer: &'a wgpu::Buffer)
        ensures
            buffer == self.spec_buffer(),
    {
        buffer_of(&self.buffer_slice)
    }

    /// The offset in the buffer at which the range starts.
    #[verifier::when_used_as_spec(spec_offset)]
    pub fn offset(&self) -> (offset: u64)
        ensures
            offset == self.spec_offset(),
    {
        offset_of(&self.buffer_slice)
    }

    /// The number of bytes in the range.
    #[verifier::when_used_as_spec(spec_size)]
    pub fn size(&self) -> (size: u64)
        ensures
            size == self.spec_size(),
    {
        len_of(&self.buffer_slice)
    }

    /// Turns the outcome that the device reported into the view. Where the
    /// device reported a failure, no view is made and no unmap is asked
    /// for. Where it reported success, the view is open over the whole
    /// range, unless the platform refuses access to it.
    pub fn resolve(self, outcome: Result<(), wgpu::BufferAsyncError>) -> (view: Result<
        AsyncBufferView<'a>,
        MappingFailed,
    >)
        ensures
            self.resolves_to(outcome, view),
    {
        match outcome {
            Ok(()) => AsyncBufferView::new(&self.buffer_slice),
            Err(_) => Err(MappingFailed::Rejected),
        }
    }
}

impl<'a> PendingMapMut<'a> {
    /// The slice of `wgpu` whose mapping is to be requested.
    pub closed spec fn native(&self) -> wgpu::BufferSlice<'a> {
        self.buffer_slice
    }

    /// The buffer that the range lies in.
    pub open spec fn spec_buffer(&self) -> &'a wgpu::Buffer {
        &slice_buffer(self.native())
    }

    /// The offset in the buffer at which the range starts.
    pub open spec fn spec_offset(&self) -> u64 {
        slice_offset(self.native())
    }

    /// The number of bytes in the range.
    pub open spec fn spec_size(&self) -> u64 {
        slice_size(self.native())
    }

    /// What [`resolve`](Self::resolve) makes of an outcome. A failure that
    /// the device reported is `Rejected`, and there is no view. On a success
    /// there is a view, open, of the buffer and as long as the range; or
    /// `AccessDenied`, which the platform decides.
    pub open spec fn resolves_to(
        &self,
        outcome: Result<(), wgpu::BufferAsyncError>,
        view: Result<AsyncBufferViewMut<'a>, MappingFailed>,
    ) -> bool {
        match view {
            Ok(v) => outcome is Ok && v.stage() == Stage::Open && v@.len() == self.size()
                && v.buffer() == self.buffer(),
            Err(e) => e == (if outcome is Err {
                MappingFailed::Rejected
            } else {
                MappingFailed::AccessDenied
            }),
        }
    }

    /// The slice of `wgpu` whose mapping is to be requested, for writing.
    pub fn as_native(&self) -> (native: &wgpu::BufferSlice<'a>)
        ensures
            *native == self.native(),
    {
        &self.buffer_slice
    }

    /// The buffer that the range lies in.
    #[verifier::when_used_as_spec(spec_buffer)]
    pub fn buffer(&self) -> (buffer: &'a wgpu::Buffer)
        ensures
            buffer == self.spec_buffer(),
    {
        buffer_of(&self.buffer_slice)
    }

    /// The offset in the buffer at which the range starts.
    #[verifier::when_used_as_spec(spec_offset)]
    pub fn offset(&self) -> (offset: u64)
        ensures
            offset == self.spec_offset(),
    {
        offset_of(&self.buffer_slice)
    }

    /// The number of bytes in the range.
    #[verifier::when_used_as_spec(spec_size)]
    pub fn size(&self) -> (size: u64)
        ensures
            size == self.spec_size(),
    {
        len_of(&self.buffer_slice)
    }

    /// Turns the outcome that the device reported into the view. Where the
    /// device reported a failure, no view is made and no unmap is asked
    /// for. Where it reported success, the view is open over the whole
    /// range, unless the platform refuses access to it.
    pub fn resolve(self, outcome: Result<(), wgpu::BufferAsyncError>) -> (view: Result<
        AsyncBufferViewMut<'a>,
        MappingFailed,
    >)
        ensures
            self.resolves_to(outcome, view),
    {
        match outcome {
            Ok(()) => AsyncBufferViewMut::new(&self.buffer_slice),
            Err(_) => Err(MappingFailed::Rejected),
        }
    }
}

/// A mapping for reading of any slice ends in one of two ways, whatever the
/// device reports: in an open view that shows as many bytes as the slice
/// holds, of the slice's buffer, or in an error, without a view.
/// `Unmappable` is the error of a slice that the platform takes no request
/// for, and then no outcome is waited for; `Rejected` is the error of a
/// failure that the device reported; `AccessDenied` is left to the platform.
pub proof fn read_mapping_spans_slice<D>(
    slice: AsyncBufferSlice<D>,
    pending: Result<PendingMap, MappingFailed>,
    outcome: Result<(), wgpu::BufferAsyncError>,
    view: Result<AsyncBufferView, MappingFailed>,
)
    requires
        slice.decides(pending),
        pending matches Ok(p) ==> p.resolves_to(outcome, view),
    ensures
        pending matches Err(e) ==> e == MappingFailed::Unmappable && !slice.mappable(
            MapMode::Read,
        ),
        pending is Ok ==> match view {
            Ok(v) => outcome is Ok && v.stage() == Stage::Open && v.stage().unmaps_asked() == 0
                && v.buffer() == slice.buffer() && v@.len() == slice.size(),
            Err(e) => (e == MappingFailed::Rejected && outcome is Err) || (e
                == MappingFailed::AccessDenied && outcome is Ok),
        },
{
}

/// The same of a mapping for writing.
pub proof fn write_mapping_spans_slice<D>(
    slice: AsyncBufferSlice<D>,
    pending: Result<PendingMapMut, MappingFailed>,
    outcome: Result<(), wgpu::BufferAsyncError>,
    view: Result<AsyncBufferViewMut, MappingFailed>,
)
    requires
        slice.decides_mut(pending),
        pending matches Ok(p) ==> p.resolves_to(outcome, view),
    ensures
        pending matches Err(e) ==> e == MappingFailed::Unmappable && !slice.mappable(
            MapMode::Write,
        ),
        pending is Ok ==> match view {
            Ok(v) => outcome is Ok && v.stage() == Stage::Open && v.stage().unmaps_asked() == 0
                && v.buffer() == slice.buffer() && v@.len() == slice.size(),
            Err(e) => (e == MappingFailed::Rejected && outcome is Err) || (e
                == MappingFailed::AccessDenied && outcome is Ok),
        },
{
}

/// A request that the device refuses ends in `Rejected`, whatever the
/// range: no view is made of it, so nothing is there to release and no unmap
/// is asked for. The device refuses a request on a buffer whose earlier
/// mapping is pending or open.
pub proof fn refused_read_makes_no_view(
    pending: PendingMap,
    outcome: Result<(), wgpu::BufferAsyncError>,
    view: Result<AsyncBufferView, MappingFailed>,
)
    requires
        outcome is Err,
        pending.resolves_to(outcome, view),
    ensures
        view == Err::<AsyncBufferView, MappingFailed>(MappingFailed::Rejected),
{
}

/// The same of a request to map for writing.
pub proof fn refused_write_makes_no_view(
    pending: PendingMapMut,
    outcome: Result<(), wgpu::BufferAsyncError>,
    view: Result<AsyncBufferViewMut, MappingFailed>,
)
    requires
        outcome is Err,
        pending.resolves_to(outcome, view),
    ensures
        view == Err::<AsyncBufferViewMut, MappingFailed>(MappingFailed::Rejected),
{
}

} // verus!
