use async_buffer::bounds::Bounds;
use async_buffer::buffer::AsyncBuffer;
use async_buffer::mapping::{MapMode, MappingFailed};
use async_buffer::slice::{PendingMap, PendingMapMut};
use async_buffer::view::{AsyncBufferView, AsyncBufferViewMut, Stage};
use std::sync::{Arc, Mutex};

type Outcome = Result<(), wgpu::BufferAsyncError>;
type Slot = Arc<Mutex<Option<Outcome>>>;

fn device() -> wgpu::Device {
    let mut descriptor = wgpu::DeviceDescriptor::default();
    descriptor.required_features = wgpu::Features::MAPPABLE_PRIMARY_BUFFERS;
    wgpu::Device::noop(&descriptor).0
}

fn buffer(device: &wgpu::Device, size: u64, usage: wgpu::BufferUsages) -> AsyncBuffer<wgpu::Device> {
    let native = device.create_buffer(&wgpu::BufferDescriptor {
        label: None,
        size,
        usage,
        mapped_at_creation: false,
    });
    AsyncBuffer::wrap(device.clone(), native)
}

fn both() -> wgpu::BufferUsages {
    wgpu::BufferUsages::MAP_READ | wgpu::BufferUsages::MAP_WRITE
}

fn slot() -> Slot {
    Arc::new(Mutex::new(None))
}

fn filler(slot: &Slot) -> impl FnOnce(Outcome) + Send + 'static {
    let slot = slot.clone();
    move |outcome| {
        *slot.lock().unwrap() = Some(outcome);
    }
}

fn wait(device: &wgpu::Device, slot: &Slot) -> Outcome {
    let _ = device.poll(wgpu::PollType::wait_indefinitely());
    slot.lock().unwrap().take().expect("the device did not call back")
}

fn request(pending: &PendingMap<'_>) -> Slot {
    let reported = slot();
    pending.as_native().map_async(wgpu::MapMode::Read, filler(&reported));
    reported
}

fn request_mut(pending: &PendingMapMut<'_>) -> Slot {
    let reported = slot();
    pending.as_native().map_async(wgpu::MapMode::Write, filler(&reported));
    reported
}

fn read<'a>(
    buffer: &'a AsyncBuffer<wgpu::Device>,
    start: u64,
    end: u64,
) -> Result<AsyncBufferView<'a>, MappingFailed> {
    let pending = buffer.map_async(Bounds::range(start, end))?;
    let reported = request(&pending);
    pending.resolve(wait(buffer.device(), &reported))
}

fn write<'a>(
    buffer: &'a AsyncBuffer<wgpu::Device>,
    start: u64,
    end: u64,
) -> Result<AsyncBufferViewMut<'a>, MappingFailed> {
    let pending = buffer.map_async_mut(Bounds::range(start, end))?;
    let reported = request_mut(&pending);
    pending.resolve(wait(buffer.device(), &reported))
}

/// Releases a view as a scope guard does: the unmap only where it is due.
fn end(view: &mut AsyncBufferView<'_>) -> bool {
    let due = view.release();
    if due {
        assert_eq!(view.stage(), Stage::Closed);
        assert!(view.as_native().is_none());
        view.buffer().unmap();
        view.unmapped();
    }
    due
}

fn end_mut(view: &mut AsyncBufferViewMut<'_>) -> bool {
    let due = view.release();
    if due {
        assert_eq!(view.stage(), Stage::Closed);
        assert!(view.as_native().is_none());
        view.buffer().unmap();
        view.unmapped();
    }
    due
}

#[test]
fn read_then_write_then_whole_buffer() {
    let device = device();
    let buffer = buffer(&device, 1024, both());

    let mut view = read(&buffer, 0, 256).expect("first mapping");
    assert_eq!(view.len(), 256);
    assert_eq!(view.bytes().unwrap(), &[0u8; 256][..]);
    assert!(end(&mut view));
    assert_eq!(view.stage(), Stage::Released);

    let mut view_mut = write(&buffer, 256, 512).expect("second mapping");
    assert_eq!(view_mut.len(), 256);
    view_mut.fill(0xFF);
    assert!(end_mut(&mut view_mut));
    assert_eq!(view_mut.stage(), Stage::Released);

    let mut whole = read(&buffer, 0, 1024).expect("third mapping");
    assert_eq!(whole.len(), 1024);
    let bytes = whole.bytes().unwrap();
    assert!(bytes[..256].iter().all(|b| *b == 0));
    assert!(bytes[256..512].iter().all(|b| *b == 0xFF));
    assert!(bytes[512..].iter().all(|b| *b == 0));
    assert!(end(&mut whole));
}

#[test]
fn mapping_yields_a_view_of_the_requested_length() {
    let device = device();
    let buffer = buffer(&device, 1024, both());
    for (start, end_at) in [(0u64, 1024u64), (8, 12), (512, 1024), (1016, 1024), (64, 64)] {
        let mut view = read(&buffer, start, end_at).expect("in range and aligned");
        assert_eq!(view.len() as u64, end_at - start);
        assert_eq!(view.is_empty(), start == end_at);
        assert_eq!(view.stage(), Stage::Open);
        assert!(end(&mut view));
        let mut view_mut = write(&buffer, start, end_at).expect("in range and aligned");
        assert_eq!(view_mut.len() as u64, end_at - start);
        assert_eq!(view_mut.is_empty(), start == end_at);
        assert!(end_mut(&mut view_mut));
    }
}

#[test]
fn every_range_within_the_buffer_ends_in_a_view_of_its_length_or_an_error() {
    let device = device();
    let buffer = buffer(&device, 64, both());
    for start in 0..=64u64 {
        for end_at in start..=64u64 {
            match read(&buffer, start, end_at) {
                Ok(mut view) => {
                    assert_eq!(view.len() as u64, end_at - start);
                    assert_eq!((start % 8, (end_at - start) % 4), (0, 0));
                    assert!(end(&mut view));
                }
                Err(error) => {
                    assert_eq!(error, MappingFailed::Unmappable);
                    assert!(start % 8 != 0 || (end_at - start) % 4 != 0);
                }
            }
        }
    }
}

#[test]
fn the_unmap_is_due_once_and_only_with_the_handle_closed() {
    let device = device();
    let buffer = buffer(&device, 64, both());
    let mut view = read(&buffer, 0, 64).unwrap();
    assert_eq!(view.stage(), Stage::Open);
    assert!(view.as_native().is_some());
    assert!(view.release());
    // The handle is closed before the caller unmaps.
    assert_eq!(view.stage(), Stage::Closed);
    assert!(view.as_native().is_none());
    assert!(view.bytes().is_none());
    assert_eq!(view.len(), 0);
    // The buffer is still mapped: the unmap is the caller's.
    assert_eq!(read(&buffer, 0, 64).err(), Some(MappingFailed::Rejected));
    assert!(!view.release());
    assert!(!view.release());
    assert_eq!(view.stage(), Stage::Closed);
    view.buffer().unmap();
    view.unmapped();
    assert_eq!(view.stage(), Stage::Released);
    assert!(!view.release());
    assert_eq!(view.stage(), Stage::Released);

    let mut view_mut = write(&buffer, 0, 64).unwrap();
    assert!(view_mut.as_native().is_some());
    assert!(view_mut.release());
    assert_eq!(view_mut.stage(), Stage::Closed);
    assert!(view_mut.as_native().is_none());
    assert!(view_mut.as_native_mut().is_none());
    assert_eq!(view_mut.len(), 0);
    assert!(!view_mut.release());
    view_mut.buffer().unmap();
    view_mut.unmapped();
    assert_eq!(view_mut.stage(), Stage::Released);
    assert!(!view_mut.release());
}

#[test]
fn release_unmaps_exactly_once() {
    let device = device();
    let buffer = buffer(&device, 64, both());
    let mut view = read(&buffer, 0, 64).unwrap();
    assert!(end(&mut view));
    assert!(!end(&mut view));
    assert!(!end(&mut view));
    assert_eq!(view.stage(), Stage::Released);
    assert_eq!(view.len(), 0);
    assert!(view.bytes().is_none());
    assert!(view.as_native().is_none());

    // A second unmap would cancel this request.
    let pending = buffer.map_async(Bounds::full()).unwrap();
    let reported = request(&pending);
    assert!(!end(&mut view));
    let mut again = pending.resolve(wait(&device, &reported)).expect("mapped again");
    assert_eq!(again.len(), 64);
    assert!(end(&mut again));

    let mut view_mut = write(&buffer, 0, 64).unwrap();
    assert!(end_mut(&mut view_mut));
    assert!(!end_mut(&mut view_mut));
    assert_eq!(view_mut.stage(), Stage::Released);
    assert_eq!(view_mut.len(), 0);
}

#[test]
fn a_view_that_goes_out_of_scope_unreleased_leaves_the_buffer_mapped() {
    let device = device();
    let buffer = buffer(&device, 64, both());
    {
        let view = read(&buffer, 0, 64).unwrap();
        assert_eq!(view.stage(), Stage::Open);
    }
    assert_eq!(read(&buffer, 0, 64).err(), Some(MappingFailed::Rejected));
    buffer.as_native().unmap();
    let mut view = read(&buffer, 0, 64).unwrap();
    assert!(end(&mut view));
}

#[test]
fn cycles_on_one_buffer_are_independent() {
    let device = device();
    let buffer = buffer(&device, 1024, both());
    for _ in 0..3 {
        let mut same = read(&buffer, 0, 256).expect("same range again");
        assert_eq!(same.len(), 256);
        assert!(end(&mut same));
    }
    let mut other = read(&buffer, 256, 1024).expect("a range beside the first");
    assert_eq!(other.len(), 768);
    assert!(end(&mut other));
    let mut over = write(&buffer, 128, 512).expect("a range across the first two");
    assert_eq!(over.len(), 384);
    assert!(end_mut(&mut over));
}

#[test]
fn a_second_mapping_before_release_is_rejected() {
    let device = device();
    let buffer = buffer(&device, 1024, both());
    let mut first = read(&buffer, 0, 256).unwrap();
    assert_eq!(read(&buffer, 256, 512).err(), Some(MappingFailed::Rejected));
    assert_eq!(write(&buffer, 256, 512).err(), Some(MappingFailed::Rejected));
    assert_eq!(read(&buffer, 0, 256).err(), Some(MappingFailed::Rejected));
    // The first view is untouched by the refusals.
    assert_eq!(first.stage(), Stage::Open);
    assert_eq!(first.len(), 256);
    assert!(end(&mut first));
    let mut second = write(&buffer, 256, 512).expect("after the release");
    assert!(end_mut(&mut second));
}

#[test]
fn a_second_request_while_the_first_is_pending_is_rejected() {
    let device = device();
    let buffer = buffer(&device, 1024, both());
    let pending = buffer.map_async(Bounds::range(0, 256)).unwrap();
    let first = request(&pending);
    let refused = buffer.map_async(Bounds::range(256, 512)).unwrap();
    let second = request(&refused);
    let outcome = second.lock().unwrap().take().expect("refused at once");
    assert!(outcome.is_err());
    assert_eq!(refused.resolve(outcome).err(), Some(MappingFailed::Rejected));
    let mut view = pending.resolve(wait(&device, &first)).expect("the first goes through");
    assert_eq!(view.len(), 256);
    assert!(end(&mut view));
}

#[test]
fn reading_leaves_the_bytes_as_they_are() {
    let device = device();
    let buffer = buffer(&device, 16, both());
    let mut view_mut = write(&buffer, 0, 16).unwrap();
    let pattern: Vec<u8> = (1..=16).collect();
    assert!(view_mut.copy_from_slice(&pattern));
    assert!(end_mut(&mut view_mut));

    let mut view = read(&buffer, 0, 16).unwrap();
    let once = view.bytes().unwrap().to_vec();
    let twice = view.bytes().unwrap().to_vec();
    assert_eq!(once, pattern);
    assert_eq!(twice, pattern);
    for index in 0..16 {
        assert_eq!(view.get(index), Some(pattern[index]));
    }
    assert_eq!(view.get(16), None);
    assert_eq!(view.as_native().unwrap().len(), 16);
    assert!(end(&mut view));
    assert_eq!(view.get(0), None);

    let mut after = read(&buffer, 0, 16).unwrap();
    assert_eq!(after.bytes().unwrap(), &pattern[..]);
    assert!(end(&mut after));
}

#[test]
fn writes_are_visible_after_release() {
    let device = device();
    let buffer = buffer(&device, 32, both());
    let mut view_mut = write(&buffer, 8, 24).unwrap();
    assert_eq!(view_mut.len(), 16);
    view_mut.fill(0xAA);
    assert!(view_mut.write(4, &[1, 2, 3]));
    assert!(view_mut.write(16, &[]));
    assert!(!view_mut.write(14, &[9, 9, 9]));
    assert!(!view_mut.write(17, &[]));
    assert!(!view_mut.write(usize::MAX, &[9]));
    assert!(!view_mut.copy_from_slice(&[0; 15]));
    assert!(!view_mut.copy_from_slice(&[0; 17]));
    assert_eq!(view_mut.stage(), Stage::Open);
    assert!(end_mut(&mut view_mut));
    assert!(!view_mut.write(0, &[7]));
    assert!(!view_mut.copy_from_slice(&[]));
    view_mut.fill(0x55);

    let mut view = read(&buffer, 0, 32).unwrap();
    let mut expected = vec![0u8; 32];
    for byte in &mut expected[8..24] {
        *byte = 0xAA;
    }
    expected[12] = 1;
    expected[13] = 2;
    expected[14] = 3;
    assert_eq!(view.bytes().unwrap(), &expected[..]);
    assert!(end(&mut view));
}

#[test]
fn a_failure_reported_by_the_device_makes_no_view() {
    let device = device();
    let buffer = buffer(&device, 64, both());
    let pending = buffer.map_async(Bounds::full()).unwrap();
    let reported = request(&pending);
    let _ = wait(&device, &reported);
    // The buffer is mapped, but the outcome that is handed over says otherwise.
    assert_eq!(pending.resolve(Err(wgpu::BufferAsyncError)).err(), Some(MappingFailed::Rejected));
    // No view was made and nothing was unmapped: the mapping is still there.
    let native_view = buffer.as_native().slice(..).get_mapped_range().expect("still mapped");
    assert_eq!(native_view.len(), 64);
    drop(native_view);
    buffer.as_native().unmap();

    let pending = buffer.map_async_mut(Bounds::full()).unwrap();
    let reported = request_mut(&pending);
    let _ = wait(&device, &reported);
    assert_eq!(pending.resolve(Err(wgpu::BufferAsyncError)).err(), Some(MappingFailed::Rejected));
    buffer.as_native().unmap();
}

#[test]
fn access_is_denied_where_the_range_is_not_mapped() {
    let device = device();
    let buffer = buffer(&device, 64, both());
    // Decided on, but never requested of the device.
    let pending = buffer.map_async(Bounds::full()).unwrap();
    assert_eq!(pending.resolve(Ok(())).err(), Some(MappingFailed::AccessDenied));
    let pending = buffer.map_async_mut(Bounds::full()).unwrap();
    assert_eq!(pending.resolve(Ok(())).err(), Some(MappingFailed::AccessDenied));

    // Requested and mapped, but unmapped before the outcome is handed over.
    let pending = buffer.map_async(Bounds::full()).unwrap();
    let reported = request(&pending);
    assert!(wait(&device, &reported).is_ok());
    buffer.as_native().unmap();
    assert_eq!(pending.resolve(Ok(())).err(), Some(MappingFailed::AccessDenied));

    let pending = buffer.map_async_mut(Bounds::full()).unwrap();
    let reported = request_mut(&pending);
    assert!(wait(&device, &reported).is_ok());
    buffer.as_native().unmap();
    assert_eq!(pending.resolve(Ok(())).err(), Some(MappingFailed::AccessDenied));
}

#[test]
fn opening_a_view_follows_what_the_platform_answered() {
    let device = device();
    let buffer = buffer(&device, 64, both());
    let native = buffer.as_native();

    let refused = native.slice(..).get_mapped_range();
    assert!(refused.is_err());
    assert_eq!(AsyncBufferView::open(native, refused).err(), Some(MappingFailed::AccessDenied));
    let refused = native.slice(..).get_mapped_range_mut();
    assert!(refused.is_err());
    assert_eq!(AsyncBufferViewMut::open(native, refused).err(), Some(MappingFailed::AccessDenied));

    let reported = slot();
    native.slice(..).map_async(wgpu::MapMode::Read, filler(&reported));
    assert!(wait(&device, &reported).is_ok());
    let mut view = AsyncBufferView::open(native, native.slice(16..32).get_mapped_range()).unwrap();
    assert_eq!(view.len(), 16);
    assert_eq!(view.stage(), Stage::Open);
    assert_eq!(view.buffer().size(), 64);
    assert!(end(&mut view));

    let reported = slot();
    native.slice(..).map_async(wgpu::MapMode::Write, filler(&reported));
    assert!(wait(&device, &reported).is_ok());
    let mut view_mut =
        AsyncBufferViewMut::open(native, native.slice(16..24).get_mapped_range_mut()).unwrap();
    assert_eq!(view_mut.len(), 8);
    assert_eq!(view_mut.buffer().size(), 64);
    assert!(end_mut(&mut view_mut));
}

#[test]
fn two_views_of_one_mapping_are_each_released_without_an_unmap_in_between() {
    let device = device();
    let buffer = buffer(&device, 64, both());
    let native = buffer.as_native();
    let reported = slot();
    native.slice(..).map_async(wgpu::MapMode::Read, filler(&reported));
    assert!(wait(&device, &reported).is_ok());
    let mut first = AsyncBufferView::open(native, native.slice(0..32).get_mapped_range()).unwrap();
    let mut second = AsyncBufferView::open(native, native.slice(32..64).get_mapped_range()).unwrap();
    // Releasing closes a handle and calls nothing on the buffer: the other
    // view is still good, and the caller unmaps when all are closed.
    assert!(first.release());
    assert_eq!(second.len(), 32);
    assert_eq!(second.get(31), Some(0));
    assert!(second.release());
    native.unmap();
    first.unmapped();
    second.unmapped();
    assert_eq!((first.stage(), second.stage()), (Stage::Released, Stage::Released));
    let mut view = read(&buffer, 0, 64).expect("unmapped");
    assert!(end(&mut view));
}

#[test]
fn a_range_that_the_platform_would_refuse_is_not_to_be_requested() {
    let device = device();
    let buffer = buffer(&device, 64, both());
    for (start, end_at) in [(4u64, 12u64), (1, 9), (0, 6), (8, 9), (56, 63)] {
        let slice = buffer.slice(Bounds::range(start, end_at));
        assert!(!slice.can_map(MapMode::Read));
        assert!(!slice.can_map(MapMode::Write));
        assert_eq!(slice.map_async().err(), Some(MappingFailed::Unmappable));
        let slice = buffer.slice(Bounds::range(start, end_at));
        assert_eq!(slice.map_async_mut().err(), Some(MappingFailed::Unmappable));
        assert_eq!(read(&buffer, start, end_at).err(), Some(MappingFailed::Unmappable));
        assert_eq!(write(&buffer, start, end_at).err(), Some(MappingFailed::Unmappable));
    }
    for (start, end_at) in [(0u64, 4u64), (8, 64), (16, 16), (64, 64), (0, 64)] {
        let slice = buffer.slice(Bounds::range(start, end_at));
        assert!(slice.can_map(MapMode::Read));
        assert!(slice.can_map(MapMode::Write));
        assert!(slice.map_async().is_ok());
        assert!(buffer.slice(Bounds::range(start, end_at)).map_async_mut().is_ok());
    }
    // Deciding requested nothing: the buffer is free.
    let mut view = read(&buffer, 0, 64).unwrap();
    assert!(end(&mut view));
}

#[test]
fn a_buffer_is_mapped_only_for_the_access_it_was_created_for() {
    let device = device();
    let readable = buffer(&device, 64, wgpu::BufferUsages::MAP_READ | wgpu::BufferUsages::COPY_DST);
    let writable = buffer(&device, 64, wgpu::BufferUsages::MAP_WRITE | wgpu::BufferUsages::COPY_SRC);
    let neither = buffer(&device, 64, wgpu::BufferUsages::COPY_DST);

    assert!(readable.slice(Bounds::full()).can_map(MapMode::Read));
    assert!(!readable.slice(Bounds::full()).can_map(MapMode::Write));
    assert!(!writable.slice(Bounds::full()).can_map(MapMode::Read));
    assert!(writable.slice(Bounds::full()).can_map(MapMode::Write));
    assert!(!neither.slice(Bounds::full()).can_map(MapMode::Read));
    assert!(!neither.slice(Bounds::full()).can_map(MapMode::Write));

    assert_eq!(write(&readable, 0, 64).err(), Some(MappingFailed::Unmappable));
    assert_eq!(read(&writable, 0, 64).err(), Some(MappingFailed::Unmappable));
    assert_eq!(read(&neither, 0, 64).err(), Some(MappingFailed::Unmappable));
    let mut view = read(&readable, 0, 64).unwrap();
    assert!(end(&mut view));
    let mut view_mut = write(&writable, 0, 64).unwrap();
    assert!(end_mut(&mut view_mut));
}

#[test]
fn a_range_outside_the_buffer_is_refused() {
    let device = device();
    let buffer = buffer(&device, 64, both());
    assert!(buffer.try_slice(Bounds::range(0, 65)).is_none());
    assert!(buffer.try_slice(Bounds::range(65, 65)).is_none());
    assert!(buffer.try_slice(Bounds::range(32, 16)).is_none());
    assert!(buffer.try_slice(Bounds::range(64, 64)).is_some());
    assert_eq!(read(&buffer, 0, 72).err(), Some(MappingFailed::OutOfRange));
    assert_eq!(write(&buffer, 64, 72).err(), Some(MappingFailed::OutOfRange));
    assert_eq!(write(&buffer, 8, 0).err(), Some(MappingFailed::OutOfRange));
    // Out of range comes before misaligned.
    assert_eq!(read(&buffer, 1, 66).err(), Some(MappingFailed::OutOfRange));
    assert_eq!(buffer.map_async(Bounds::range(0, 65)).err(), Some(MappingFailed::OutOfRange));
    assert_eq!(buffer.map_async_mut(Bounds::range(0, 65)).err(), Some(MappingFailed::OutOfRange));
}

#[test]
fn an_abandoned_request_makes_no_view_and_is_not_taken_back() {
    let device = device();
    let buffer = buffer(&device, 64, both());
    let pending = buffer.map_async(Bounds::full()).unwrap();
    let reported = request(&pending);
    drop(pending);
    // The device goes on with the request and reports its outcome to nobody.
    assert!(wait(&device, &reported).is_ok());
    assert_eq!(read(&buffer, 0, 64).err(), Some(MappingFailed::Rejected));
    // Nothing of the request stays behind in the handle.
    assert_eq!(buffer.size(), 64);
    assert!(buffer.slice(Bounds::full()).can_map(MapMode::Read));
    buffer.as_native().unmap();
    let mut view = read(&buffer, 0, 64).expect("after the unmap");
    assert!(end(&mut view));
}

#[test]
fn the_pending_range_is_the_sliced_one() {
    let device = device();
    let buffer = buffer(&device, 1024, both());
    let pending = buffer.slice(Bounds::range(64, 192)).map_async().expect("aligned");
    assert_eq!((pending.offset(), pending.size()), (64, 128));
    assert_eq!(pending.buffer(), buffer.as_native());
    assert_eq!((pending.as_native().offset(), pending.as_native().size()), (64, 128));
    let reported = request(&pending);
    let mut view = pending.resolve(wait(&device, &reported)).unwrap();
    assert_eq!(view.len(), 128);
    assert_eq!(view.buffer().size(), 1024);
    // Only the requested range is mapped: a wider one cannot be accessed.
    assert!(buffer.as_native().slice(0..256).get_mapped_range().is_err());
    assert!(end(&mut view));

    let pending = buffer.slice(Bounds::range(64, 192)).map_async_mut().expect("aligned");
    assert_eq!((pending.offset(), pending.size()), (64, 128));
    assert_eq!(pending.buffer(), buffer.as_native());
    assert_eq!((pending.as_native().offset(), pending.as_native().size()), (64, 128));
    let reported = request_mut(&pending);
    let mut view_mut = pending.resolve(wait(&device, &reported)).unwrap();
    assert_eq!(view_mut.len(), 128);
    assert_eq!(view_mut.as_native().unwrap().len(), 128);
    view_mut.as_native_mut().unwrap().copy_from_slice(&[7u8; 128]);
    assert!(end_mut(&mut view_mut));
    assert!(view_mut.as_native().is_none());
    assert!(view_mut.as_native_mut().is_none());

    let mut whole = read(&buffer, 0, 1024).unwrap();
    assert_eq!(whole.get(63), Some(0));
    assert_eq!(whole.get(64), Some(7));
    assert_eq!(whole.get(191), Some(7));
    assert_eq!(whole.get(192), Some(0));
    assert!(end(&mut whole));
}
