//! Scoped views of a mapped range, and their release.
//!
//! A view owns the access handle of its range and borrows the buffer. Its
//! release has two steps, in this order: the access handle is closed, then
//! the buffer is unmapped. Unmapping first would leave the handle pointing at
//! memory that is no longer valid.
//!
//! The first step is made here. The second is the caller's: `release` says,
//! once, that the unmap is due, and it says so only with the handle closed;
//! `unmapped` takes the caller's word that it is done.
use crate::mapping::MappingFailed;
use crate::native::{
    buffer_of, bytes_of, held_bytes, held_len, overwritten, put_bytes, read_range, slice_buffer,
    slice_size, visible_bytes, write_range,
};
use vstd::prelude::*;

verus! {

/// How far the release of a view has come.
#[derive(Clone, Copy, Debug, PartialEq, Eq, Structural)]
pub enum Stage {
    /// The access handle is open and the buffer is mapped.
    Open,
    /// The access handle is closed, and the caller was told to unmap the
    /// buffer.
    Closed,
    /// The caller has unmapped the buffer.
    Released,
}

impl Stage {
    /// The stage that a release at this stage leads to.
    pub open spec fn after_release(self) -> Stage {
        if self == Stage::Open {
            Stage::Closed
        } else {
            self
        }
    }

    /// The number of times that the caller was told to unmap on the way to
    /// this stage.
    pub open spec fn unmaps_asked(self) -> nat {
        if self == Stage::Open {
            0
        } else {
            1
        }
    }

    /// The number of times that a release at this stage tells the caller to
    /// unmap.
    pub open spec fn unmaps_due(self) -> nat {
        if self == Stage::Open {
            1
        } else {
            0
        }
    }

    /// The number of times that `releases` releases in a row tell the caller
    /// to unmap, the first of them at this stage.
    pub open spec fn unmaps_in(self, releases: nat) -> nat
        decreases releases,
    {
        if releases == 0 {
            0
        } else {
            self.unmaps_due() + self.after_release().unmaps_in((releases - 1) as nat)
        }
    }
}

/// The unmap of a view is asked for once, however often the view is
/// released: the release that finds the view open asks for it, and no release
/// after that does. It is never asked for with the handle open.
pub proof fn release_unmaps_once(stage: Stage, releases: nat)
    ensures
        stage.unmaps_asked() + stage.unmaps_due() == 1,
        stage.after_release() != Stage::Open,
        stage.after_release().unmaps_due() == 0,
        stage.unmaps_due() == 1 ==> stage.after_release() == Stage::Closed,
        stage != Stage::Open ==> stage.unmaps_in(releases) == 0,
        releases >= 1 ==> stage.unmaps_asked() + stage.unmaps_in(releases) == 1,
    decreases releases,
{
    if releases > 0 {
        release_unmaps_once(stage.after_release(), (releases - 1) as nat);
    }
}

enum ReadAccess {
    Open(wgpu::BufferView),
    Closed,
    Released,
}

enum WriteAccess {
    Open(wgpu::BufferViewMut),
    Closed,
    Released,
}

/// Closes the access handle of a read view: it ends here.
fn close_read(handle: wgpu::BufferView) {
}

/// Closes the access handle of a write view: it ends here.
fn close_write(handle: wgpu::BufferViewMut) {
}

/// Read access to the bytes of a mapped range, until it is released. The
/// buffer stays mapped until the caller unmaps it: release every view, and
/// unmap where the release says that it is due.
#[must_use]
pub struct AsyncBufferView<'a> {
    buffer: &'a wgpu::Buffer,
    access: ReadAccess,
}

impl<'a> View for AsyncBufferView<'a> {
    type V = Seq<u8>;

    /// The bytes that the view shows: those of its range while it is open,
    /// none after that.
    closed spec fn view(&self) -> Seq<u8> {
        match self.access {
            ReadAccess::Open(handle) => visible_bytes(handle),
            _ => Seq::empty(),
        }
    }
}

impl<'a> AsyncBufferView<'a> {
    /// How far the release of this view has come.
    pub closed spec fn spec_stage(&self) -> Stage {
        match self.access {
            ReadAccess::Open(_) => Stage::Open,
            ReadAccess::Closed => Stage::Closed,
            ReadAccess::Released => Stage::Released,
        }
    }

    /// The buffer that the view was mapped from.
    pub closed spec fn spec_buffer(&self) -> &'a wgpu::Buffer {
        self.buffer
    }

    /// The access handle, while the view is open.
    pub closed spec fn spec_as_native(&self) -> Option<&wgpu::BufferView> {
        match self.access {
            ReadAccess::Open(handle) => Some(&handle),
            _ => None,
        }
    }

    /// Makes the view of a range whose mapping has completed, from what the
    /// platform answered when asked for access: an open view on its handle,
    /// or `AccessDenied` where it refused.
    pub fn open(
        buffer: &'a wgpu::Buffer,
        acquired: Result<wgpu::BufferView, wgpu::MapRangeError>,
    ) -> (view: Result<Self, MappingFailed>)
        ensures
            acquired is Err ==> view == Err::<Self, MappingFailed>(MappingFailed::AccessDenied),
            acquired matches Ok(handle) ==> (view matches Ok(v) && v.stage() == Stage::Open
                && v.as_native() == Some(&handle) && v@ == visible_bytes(handle) && v.buffer()
                == buffer),
    {
        match acquired {
            Ok(handle) => Ok(AsyncBufferView { buffer, access: ReadAccess::Open(handle) }),
            Err(_) => Err(MappingFailed::AccessDenied),
        }
    }

    /// The view of a slice whose mapping for reading has completed: asks the
    /// platform for access to the slice, and is open on what it hands out.
    pub(crate) fn new(buffer_slice: &wgpu::BufferSlice<'a>) -> (view: Result<Self, MappingFailed>)
        ensures
            view matches Ok(v) ==> v.stage() == Stage::Open && v@.len() == slice_size(
                *buffer_slice,
            ) && *v.buffer() == slice_buffer(*buffer_slice),
            view matches Err(e) ==> e == MappingFailed::AccessDenied,
    {
        let acquired = read_range(buffer_slice);
        Self::open(buffer_of(buffer_slice), acquired)
    }

    /// How far the release of this view has come.
    #[verifier::when_used_as_spec(spec_stage)]
    pub fn stage(&self) -> (stage: Stage)
        ensures
            stage == self.spec_stage(),
    {
        match &self.access {
            ReadAccess::Open(_) => Stage::Open,
            ReadAccess::Closed => Stage::Closed,
            ReadAccess::Released => Stage::Released,
        }
    }

    /// The buffer that the view was mapped from.
    #[verifier::when_used_as_spec(spec_buffer)]
    pub fn buffer(&self) -> (buffer: &'a wgpu::Buffer)
        ensures
            buffer == self.spec_buffer(),
    {
        self.buffer
    }

    /// The access handle, while the view is open.
    #[verifier::when_used_as_spec(spec_as_native)]
    pub fn as_native(&self) -> (handle: Option<&wgpu::BufferView>)
        ensures
            handle == self.spec_as_native(),
            handle is Some <==> self.stage() == Stage::Open,
            handle matches Some(h) ==> self@ == visible_bytes(*h),
    {
        match &self.access {
            ReadAccess::Open(handle) => Some(handle),
            _ => None,
        }
    }

    /// The bytes of the view, while it is open.
    pub fn bytes(&self) -> (bytes: Option<&[u8]>)
        ensures
            bytes is Some <==> self.stage() == Stage::Open,
            bytes matches Some(b) ==> b@ == self@,
    {
        match &self.access {
            ReadAccess::Open(handle) => Some(bytes_of(handle)),
            _ => None,
        }
    }

    /// The number of bytes that the view shows.
    pub fn len(&self) -> (len: usize)
        ensures
            len == self@.len(),
    {
        match &self.access {
            ReadAccess::Open(handle) => bytes_of(handle).len(),
            _ => 0,
        }
    }

    /// Whether the view shows no byte.
    pub fn is_empty(&self) -> (empty: bool)
        ensures
            empty == (self@.len() == 0),
    {
        self.len() == 0
    }

    /// The byte at `index`, where the view shows one there.
    pub fn get(&self, index: usize) -> (byte: Option<u8>)
        ensures
            byte is Some <==> index < self@.len(),
            byte matches Some(b) ==> b == self@[index as int],
    {
        match &self.access {
            ReadAccess::Open(handle) => {
                let bytes = bytes_of(handle);
                if index < bytes.len() {
                    Some(bytes[index])
                } else {
                    None
                }
            },
            _ => None,
        }
    }

    /// The first step of the release: closes the access handle.
    fn close_handle(&mut self)
        requires
            old(self).stage() == Stage::Open,
        ensures
            final(self).stage() == Stage::Closed,
            final(self).buffer() == old(self).buffer(),
    {
        let mut access = ReadAccess::Closed;
        std::mem::swap(&mut self.access, &mut access);
        match access {
            ReadAccess::Open(handle) => close_read(handle),
            _ => {},
        }
    }

    /// What a release makes of the view: the handle is closed, the view
    /// shows nothing, the buffer is the same. A view that was open is
    /// `Closed` then; another stays at its stage.
    pub open spec fn releases_to(&self, after: AsyncBufferView<'a>) -> bool {
        after.stage() == self.stage().after_release() && after.buffer() == self.buffer()
            && after.as_native() is None && after@ == Seq::<u8>::empty()
    }

    /// What the caller's word that it has unmapped makes of a view: the
    /// view is `Released`, of the same buffer.
    pub open spec fn settles_to(&self, after: AsyncBufferView<'a>) -> bool {
        after.stage() == Stage::Released && after.buffer() == self.buffer()
            && after.as_native() is None && after@ == Seq::<u8>::empty()
    }

    /// Releases the view: closes its access handle, and returns whether the
    /// caller is to unmap the buffer now. That is so once, for the release
    /// that finds the view open; by then the handle is closed. A view that
    /// is not open is left as it is.
    pub fn release(&mut self) -> (unmap_due: bool)
        ensures
            old(self).releases_to(*final(self)),
            unmap_due == (old(self).stage() == Stage::Open),
            unmap_due == (old(self).stage().unmaps_due() == 1),
            unmap_due ==> final(self).stage() == Stage::Closed,
            final(self).stage().unmaps_asked() == old(self).stage().unmaps_asked() + old(
                self,
            ).stage().unmaps_due(),
    {
        match self.stage() {
            Stage::Open => {
                self.close_handle();
                true
            },
            _ => false,
        }
    }

    /// Takes the caller's word that it has unmapped the buffer, as the
    /// release that closed the handle told it to.
    pub fn unmapped(&mut self)
        requires
            old(self).stage() == Stage::Closed,
        ensures
            old(self).settles_to(*final(self)),
    {
        self.access = ReadAccess::Released;
    }
}

/// Write access to the bytes of a mapped range, until it is released. The
/// buffer stays mapped until the caller unmaps it: release every view, and
/// unmap where the release says that it is due.
#[must_use]
pub struct AsyncBufferViewMut<'a> {
    buffer: &'a wgpu::Buffer,
    access: WriteAccess,
}

impl<'a> View for AsyncBufferViewMut<'a> {
    type V = Seq<u8>;

    /// The bytes that stand in the range of the view while it is open: what
    /// was written through it where anything was. None after that.
    closed spec fn view(&self) -> Seq<u8> {
        match self.access {
            WriteAccess::Open(handle) => held_bytes(handle),
            _ => Seq::empty(),
        }
    }
}

impl<'a> AsyncBufferViewMut<'a> {
    /// How far the release of this view has come.
    pub closed spec fn spec_stage(&self) -> Stage {
        match self.access {
            WriteAccess::Open(_) => Stage::Open,
            WriteAccess::Closed => Stage::Closed,
            WriteAccess::Released => Stage::Released,
        }
    }

    /// The buffer that the view was mapped from.
    pub closed spec fn spec_buffer(&self) -> &'a wgpu::Buffer {
        self.buffer
    }

    /// The access handle, while the view is open.
    pub closed spec fn spec_as_native(&self) -> Option<&wgpu::BufferViewMut> {
        match self.access {
            WriteAccess::Open(handle) => Some(&handle),
            _ => None,
        }
    }

    /// Makes the view of a range whose mapping has completed, from what the
    /// platform answered when asked for access: an open view on its handle,
    /// or `AccessDenied` where it refused.
    pub fn open(
        buffer: &'a wgpu::Buffer,
        acquired: Result<wgpu::BufferViewMut, wgpu::MapRangeError>,
    ) -> (view: Result<Self, MappingFailed>)
        ensures
            acquired is Err ==> view == Err::<Self, MappingFailed>(MappingFailed::AccessDenied),
            acquired matches Ok(handle) ==> (view matches Ok(v) && v.stage() == Stage::Open
                && v.as_native() == Some(&handle) && v@ == held_bytes(handle) && v.buffer()
                == buffer),
    {
        match acquired {
            Ok(handle) => Ok(AsyncBufferViewMut { buffer, access: WriteAccess::Open(handle) }),
            Err(_) => Err(MappingFailed::AccessDenied),
        }
    }

    /// The view of a slice whose mapping for writing has completed: asks the
    /// platform for access to the slice, and is open on what it hands out.
    pub(crate) fn new(buffer_slice: &wgpu::BufferSlice<'a>) -> (view: Result<Self, MappingFailed>)
        ensures
            view matches Ok(v) ==> v.stage() == Stage::Open && v@.len() == slice_size(
                *buffer_slice,
            ) && *v.buffer() == slice_buffer(*buffer_slice),
            view matches Err(e) ==> e == MappingFailed::AccessDenied,
    {
        let acquired = write_range(buffer_slice);
        Self::open(buffer_of(buffer_slice), acquired)
    }

    /// How far the release of this view has come.
    #[verifier::when_used_as_spec(spec_stage)]
    pub fn stage(&self) -> (stage: Stage)
        ensures
            stage == self.spec_stage(),
    {
        match &self.access {
            WriteAccess::Open(_) => Stage::Open,
            WriteAccess::Closed => Stage::Closed,
            WriteAccess::Released => Stage::Released,
        }
    }

    /// The buffer that the view was mapped from.
    #[verifier::when_used_as_spec(spec_buffer)]
    pub fn buffer(&self) -> (buffer: &'a wgpu::Buffer)
        ensures
            buffer == self.spec_buffer(),
    {
        self.buffer
    }

    /// The access handle, while the view is open.
    #[verifier::when_used_as_spec(spec_as_native)]
    pub fn as_native(&self) -> (handle: Option<&wgpu::BufferViewMut>)
        ensures
            handle == self.spec_as_native(),
            handle is Some <==> self.stage() == Stage::Open,
            handle matches Some(h) ==> self@ == held_bytes(*h),
    {
        match &self.access {
            WriteAccess::Open(handle) => Some(handle),
            _ => None,
        }
    }

    /// The access handle, to write through, while the view is open. What
    /// is written through it stands in the view.
    pub fn as_native_mut(&mut self) -> (handle: Option<&mut wgpu::BufferViewMut>)
        ensures
            handle is Some <==> old(self).stage() == Stage::Open,
            final(self).stage() == old(self).stage(),
            final(self).buffer() == old(self).buffer(),
            handle matches Some(h) ==> old(self).as_native() == Some(&*h),
            handle matches Some(h) ==> final(self).as_native() == Some(&*final(h)),
            handle matches Some(h) ==> final(self)@ == held_bytes(*final(h)),
            handle is None ==> final(self)@ == old(self)@ && final(self).as_native() is None,
    {
        match &mut self.access {
            WriteAccess::Open(handle) => Some(handle),
            _ => None,
        }
    }

    /// The number of bytes in the range of the view.
    pub fn len(&self) -> (len: usize)
        ensures
            len == self@.len(),
    {
        match &self.access {
            WriteAccess::Open(handle) => held_len(handle),
            _ => 0,
        }
    }

    /// Whether the range of the view holds no byte.
    pub fn is_empty(&self) -> (empty: bool)
        ensures
            empty == (self@.len() == 0),
    {
        self.len() == 0
    }

    /// Writes `patch` into the range from `offset` on, where the view is
    /// open and `patch` fits there; else writes nothing. Returns whether it
    /// wrote.
    pub fn write(&mut self, offset: usize, patch: &[u8]) -> (written: bool)
        ensures
            written == (old(self).stage() == Stage::Open && offset + patch@.len() <= old(
                self,
            )@.len()),
            written ==> final(self)@ == overwritten(old(self)@, offset as int, patch@),
            !written ==> final(self)@ == old(self)@,
            final(self).stage() == old(self).stage(),
            final(self).buffer() == old(self).buffer(),
    {
        match &mut self.access {
            WriteAccess::Open(handle) => {
                let len = held_len(handle);
                if offset <= len && patch.len() <= len - offset {
                    put_bytes(handle, offset, offset + patch.len(), patch);
                    true
                } else {
                    false
                }
            },
            _ => false,
        }
    }

    /// Writes `source` over the whole range, where the view is open and
    /// `source` is as long as the range; else writes nothing. Returns whether
    /// it wrote.
    pub fn copy_from_slice(&mut self, source: &[u8]) -> (written: bool)
        ensures
            written == (old(self).stage() == Stage::Open && source@.len() == old(self)@.len()),
            written ==> final(self)@ == source@,
            !written ==> final(self)@ == old(self)@,
            final(self).stage() == old(self).stage(),
            final(self).buffer() == old(self).buffer(),
    {
        if source.len() == self.len() {
            self.write(0, source)
        } else {
            false
        }
    }

    /// Writes `byte` to every place of the range.
    pub fn fill(&mut self, byte: u8)
        ensures
            final(self)@ == Seq::new(old(self)@.len(), |i: int| byte),
            final(self).stage() == old(self).stage(),
            final(self).buffer() == old(self).buffer(),
    {
        let len = self.len();
        let mut patch: Vec<u8> = Vec::new();
        while patch.len() < len
            invariant
                patch@.len() <= len,
                forall|i: int| 0 <= i < patch@.len() ==> patch@[i] == byte,
            decreases len - patch@.len(),
        {
            patch.push(byte);
        }
        let _ = self.write(0, patch.as_slice());
    }

    /// The first step of the release: closes the access handle.
    fn close_handle(&mut self)
        requires
            old(self).stage() == Stage::Open,
        ensures
            final(self).stage() == Stage::Closed,
            final(self).buffer() == old(self).buffer(),
    {
        let mut access = WriteAccess::Closed;
        std::mem::swap(&mut self.access, &mut access);
        match access {
            WriteAccess::Open(handle) => close_write(handle),
            _ => {},
        }
    }

    /// What a release makes of the view: the handle is closed, the view
    /// shows nothing, the buffer is the same. A view that was open is
    /// `Closed` then; another stays at its stage.
    pub open spec fn releases_to(&self, after: AsyncBufferViewMut<'a>) -> bool {
        after.stage() == self.stage().after_release() && after.buffer() == self.buffer()
            && after.as_native() is None && after@ == Seq::<u8>::empty()
    }

    /// What the caller's word that it has unmapped makes of a view: the
    /// view is `Released`, of the same buffer.
    pub open spec fn settles_to(&self, after: AsyncBufferViewMut<'a>) -> bool {
        after.stage() == Stage::Released && after.buffer() == self.buffer()
            && after.as_native() is None && after@ == Seq::<u8>::empty()
    }

    /// Releases the view: closes its access handle, and returns whether the
    /// caller is to unmap the buffer now. That is so once, for the release
    /// that finds the view open; by then the handle is closed. A view that
    /// is not open is left as it is.
    pub fn release(&mut self) -> (unmap_due: bool)
        ensures
            old(self).releases_to(*final(self)),
            unmap_due == (old(self).stage() == Stage::Open),
            unmap_due == (old(self).stage().unmaps_due() == 1),
            unmap_due ==> final(self).stage() == Stage::Closed,
            final(self).stage().unmaps_asked() == old(self).stage().unmaps_asked() + old(
                self,
            ).stage().unmaps_due(),
    {
        match self.stage() {
            Stage::Open => {
                self.close_handle();
                true
            },
            _ => false,
        }
    }

    /// Takes the caller's word that it has unmapped the buffer, as the
    /// release that closed the handle told it to.
    pub fn unmapped(&mut self)
        requires
            old(self).stage() == Stage::Closed,
        ensures
            old(self).settles_to(*final(self)),
    {
        self.access = WriteAccess::Released;
    }
}

} // verus!
