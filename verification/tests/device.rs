use paya::allocator::{Allocation, MemoryFlags};
use paya::command_recorder::{CommandRecorderId, CommandRecorderPool, RecorderReset};
use paya::common::{BufferUsageFlags, Extent2D, Extent3D, Format, ImageUsageFlags, PipelineStageFlags};
use paya::device::{
    select_physical_device, Device, DeviceProperties, DeviceType, Image, ImageInfo, PresentInfo, SubmitInfo,
};
use paya::error::ErrorKind;
use paya::gpu_resources::{Buffer, BufferInfo, GpuResourcePool};
use paya::swapchain::{AcquireOutcome, Swapchain, SwapchainInfo};
use paya::sync::{BinarySemaphore, TimelineSemaphore};

fn buffer(handle: u64, address: u64) -> Buffer {
    Buffer {
        handle,
        offset: 0,
        size: 64,
        allocation: Allocation { memory: 1, offset: 0 },
        info: BufferInfo {
            name: String::from("b"),
            size: 64,
            memory_flags: MemoryFlags::empty(),
            usage: BufferUsageFlags::empty(),
        },
        address,
    }
}

fn device() -> Device {
    Device::new(500, 0, GpuResourcePool::new(1, 2, 3, buffer(9, 0)))
}

fn pass_frame(device: &mut Device, outcome: Result<(), ErrorKind>) -> Result<(), ErrorKind> {
    assert!(!device.has_pending_submit());
    let submit = device.submit(SubmitInfo {
        commands: vec![],
        wait_semaphores: vec![],
        signal_semaphores: vec![],
        signal_timeline_semaphores: vec![],
    });
    assert!(submit.command_buffers.is_empty() && submit.signal_values.is_empty());
    assert!(device.has_pending_submit());
    let answer = device.complete_submit(outcome);
    assert!(!device.has_pending_submit());
    answer
}

#[test]
fn frame_reclamation() {
    let mut device = device();
    let (b, _) = device.create_buffer(buffer(10, 0x10)).unwrap();
    let mut recorder = match device.rent_command_recorder() {
        Some(recorder) => recorder,
        None => device.create_command_recorder(70, 71),
    };
    recorder.destroy_buffer_deferred(b);
    let list = recorder.finish();
    let timeline = TimelineSemaphore::new(900, 0);
    let submit = device.submit(SubmitInfo {
        commands: vec![list],
        wait_semaphores: vec![BinarySemaphore::new(31)],
        signal_semaphores: vec![BinarySemaphore::new(32)],
        signal_timeline_semaphores: vec![(timeline, 1)],
    });
    assert_eq!(submit.wait_semaphores, vec![31]);
    assert_eq!(submit.wait_dst_stage_mask, vec![PipelineStageFlags::BOTTOM_OF_PIPE]);
    assert_eq!(submit.command_buffers, vec![71]);
    assert_eq!(submit.signal_semaphores, vec![32, 900]);
    assert_eq!(submit.signal_values, vec![0, 1]);
    assert_eq!(device.cpu_frame_index(), 0);
    assert_eq!(device.complete_submit(Ok(())), Ok(()));
    assert_eq!(device.cpu_frame_index(), 1);
    let garbage = device.collect_garbage(0);
    assert!(garbage.buffers.is_empty());
    assert!(garbage.recorders.is_empty());
    assert!(device.get_buffer(b).is_ok());
    let garbage = device.collect_garbage(1);
    assert_eq!(garbage.buffers.iter().map(|buffer| buffer.handle).collect::<Vec<_>>(), vec![10]);
    assert_eq!(garbage.recorders, vec![RecorderReset { command_pool: 70, command_buffer: 71 }]);
    assert_eq!((garbage.stale_recorders, garbage.stale_buffers, garbage.stale_images), (0, 0, 0));
    assert!(matches!(device.get_buffer(b), Err(ErrorKind::InvalidHandle)));
    let again = device.rent_command_recorder().unwrap();
    assert_eq!(again.id(), CommandRecorderId(0));
    assert_eq!((again.pool(), again.command_buffer()), (70, 71));
    let garbage = device.collect_garbage(1);
    assert!(garbage.buffers.is_empty() && garbage.recorders.is_empty() && garbage.images.is_empty());
}

#[test]
fn failed_submit_keeps_the_frame() {
    let mut device = device();
    assert_eq!(pass_frame(&mut device, Err(ErrorKind::OutOfDeviceMemory)), Err(ErrorKind::OutOfDeviceMemory));
    assert_eq!(device.cpu_frame_index(), 0);
    for expected in 1..=5u64 {
        assert_eq!(pass_frame(&mut device, Ok(())), Ok(()));
        assert_eq!(device.cpu_frame_index(), expected);
    }
}

#[test]
fn collection_sweeps_three_buckets() {
    let mut device = device();
    let mut ids = Vec::new();
    for frame in 0..6u64 {
        let (b, _) = device.create_buffer(buffer(100 + frame, frame)).unwrap();
        device.destroy_buffer_deferred(b);
        ids.push(b);
        assert_eq!(pass_frame(&mut device, Ok(())), Ok(()));
    }
    let garbage = device.collect_garbage(4);
    assert_eq!(garbage.buffers.iter().map(|buffer| buffer.handle).collect::<Vec<_>>(), vec![103, 102, 101]);
    assert!(device.get_buffer(ids[0]).is_ok());
    assert!(device.get_buffer(ids[4]).is_ok());
    assert!(device.get_buffer(ids[5]).is_ok());
    let garbage = device.collect_garbage(6);
    assert_eq!(garbage.buffers.iter().map(|buffer| buffer.handle).collect::<Vec<_>>(), vec![105, 104]);
    let garbage = device.collect_garbage(1);
    assert_eq!(garbage.buffers.iter().map(|buffer| buffer.handle).collect::<Vec<_>>(), vec![100]);
}

#[test]
fn deferred_images_and_stale_ids() {
    let mut device = device();
    let info = ImageInfo {
        dimensions: 2,
        extent: Extent3D::new(4, 4, 1),
        format: Format::R8G8B8A8Unorm,
        usage: ImageUsageFlags::empty(),
    };
    let image = Image { handle: 5, view: Some(6), info, allocation: None, is_swapchain_image: false };
    let (i, _) = device.create_image(image).unwrap();
    device.destroy_image_deferred(i);
    device.destroy_image_deferred(i);
    let (b, _) = device.create_buffer(buffer(1, 1)).unwrap();
    device.destroy_buffer_deferred(b);
    assert!(device.destroy_buffer(b).is_ok());
    let garbage = device.collect_garbage(1);
    assert_eq!(garbage.images.len(), 1);
    assert_eq!(garbage.images[0].teardown().image, Some(5));
    assert_eq!(garbage.images[0].teardown().view, Some(6));
    assert_eq!(garbage.stale_images, 1);
    assert_eq!(garbage.stale_buffers, 1);
    assert!(garbage.buffers.is_empty());
    assert!(matches!(device.get_image(i), Err(ErrorKind::InvalidHandle)));
    let (adopted, write) = device.create_swapchain_image(44, Some(45), &info).unwrap();
    assert_eq!(write, None);
    let kept = device.get_image(adopted).unwrap();
    assert!(kept.is_swapchain_image && kept.allocation.is_none() && kept.handle == 44);
    assert_eq!(device.destroy_image(adopted).unwrap().image, None);
    assert_eq!(device.main_queue(), 500);
    assert_eq!(device.main_queue_family_index(), 0);
    assert_eq!(device.gpu_resources().descriptor_set(), 3);
}

#[test]
fn recorder_pool_rents_last_freed_first() {
    let mut pool = CommandRecorderPool::new();
    assert!(pool.rent().is_none());
    let first = pool.create_command_recorder(10, 11);
    let second = pool.create_command_recorder(20, 21);
    assert_eq!((first.id(), second.id()), (CommandRecorderId(0), CommandRecorderId(1)));
    assert_eq!(pool.recorder_count(), 2);
    assert_eq!(pool.free_command_recorder(first.id()), Ok(RecorderReset { command_pool: 10, command_buffer: 11 }));
    assert_eq!(pool.free_command_recorder(second.id()), Ok(RecorderReset { command_pool: 20, command_buffer: 21 }));
    assert_eq!(pool.free_command_recorder(CommandRecorderId(2)), Err(ErrorKind::InvalidHandle));
    assert_eq!(pool.rent().unwrap().id(), CommandRecorderId(1));
    assert_eq!(pool.rent().unwrap().id(), CommandRecorderId(0));
    assert!(pool.rent().is_none());
    let (resets, stale) =
        pool.free_command_recorders(&vec![CommandRecorderId(1), CommandRecorderId(9), CommandRecorderId(0)]);
    assert_eq!(
        resets,
        vec![
            RecorderReset { command_pool: 20, command_buffer: 21 },
            RecorderReset { command_pool: 10, command_buffer: 11 }
        ]
    );
    assert_eq!(stale, 1);
    assert_eq!(pool.command_pools(), vec![10, 20]);
    let list = first.finish();
    assert_eq!(list.handle(), 11);
    assert_eq!((list.id, list.command_pool), (CommandRecorderId(0), 10));
    assert!(list.deferred_delete_buffers.is_empty());
}

#[test]
fn present_needs_an_acquired_image() {
    let device = device();
    let info = SwapchainInfo {
        format: Format::B8G8R8A8Srgb,
        extent: Extent2D::new(8, 8),
        image_usage: ImageUsageFlags::empty(),
        max_frames_in_flight: 1,
    };
    let (image, _) = Device::new(1, 0, GpuResourcePool::new(1, 2, 3, buffer(9, 0)))
        .create_swapchain_image(3, None, &ImageInfo::default())
        .unwrap();
    let mut swapchain = Swapchain::new(
        77,
        78,
        vec![image],
        info,
        vec![BinarySemaphore::new(1)],
        vec![BinarySemaphore::new(2)],
        TimelineSemaphore::new(3, 0),
    )
    .unwrap();
    let stale = device.present(&PresentInfo { swapchain: &swapchain, wait_semaphores: vec![] });
    assert!(matches!(stale, Err(ErrorKind::ProgrammingFault)));
    assert_eq!(swapchain.acquire_next_image(AcquireOutcome::Success(0)), Ok(Some(image)));
    let present = device
        .present(&PresentInfo { swapchain: &swapchain, wait_semaphores: vec![BinarySemaphore::new(5)] })
        .unwrap();
    assert_eq!((present.swapchain, present.image_index), (77, 0));
    assert_eq!(present.wait_semaphores, vec![5]);
}

#[test]
fn device_selection() {
    assert_eq!(select_physical_device(&vec![1, 5, 3]), Ok(1));
    assert_eq!(select_physical_device(&vec![4, 9, 9, 2]), Ok(1));
    assert_eq!(select_physical_device(&vec![7]), Ok(0));
    assert_eq!(select_physical_device(&vec![0, -3]), Err(ErrorKind::Unsupported));
    assert_eq!(select_physical_device(&vec![]), Err(ErrorKind::Unsupported));
    assert_eq!(select_physical_device(&vec![-1, 0, 1]), Ok(2));
    assert_eq!(DeviceType::from_raw(ash::vk::PhysicalDeviceType::INTEGRATED_GPU.as_raw()), DeviceType::Integrated);
    assert_eq!(DeviceType::from_raw(ash::vk::PhysicalDeviceType::DISCRETE_GPU.as_raw()), DeviceType::Discrete);
    assert_eq!(DeviceType::from_raw(ash::vk::PhysicalDeviceType::CPU.as_raw()), DeviceType::Other);
    assert_eq!(DeviceType::from_raw(ash::vk::PhysicalDeviceType::OTHER.as_raw()), DeviceType::Other);
    let properties = DeviceProperties::new(2, String::from("gpu"));
    assert_eq!(properties.device_type, DeviceType::Discrete);
    assert_eq!(properties.device_name, "gpu");
}

#[test]
fn image_info_builders() {
    let info = ImageInfo::default();
    assert_eq!(info.dimensions, 2);
    assert_eq!(info.extent, Extent3D::new(0, 0, 0));
    assert_eq!(info.format, Format::R8G8B8A8Unorm);
    assert_eq!(info.usage.bits(), 0);
    let built = info
        .dimensions(3)
        .extent(Extent3D::new(1, 2, 3))
        .format(Format::B8G8R8A8Srgb)
        .usage(ImageUsageFlags::from_bits_truncate(ImageUsageFlags::SAMPLED));
    assert_eq!(built.dimensions, 3);
    assert_eq!(built.extent, Extent3D::new(1, 2, 3));
    assert_eq!(built.format, Format::B8G8R8A8Srgb);
    assert_eq!(built.usage.bits(), 4);
}

#[test]
fn bindless_dispatch_bookkeeping() {
    let mut device = device();
    let info = ImageInfo {
        dimensions: 2,
        extent: Extent3D::new(256, 256, 1),
        format: Format::R8G8B8A8Unorm,
        usage: ImageUsageFlags::from_bits_truncate(ImageUsageFlags::STORAGE),
    };
    let image = Image {
        handle: 60,
        view: Some(61),
        info,
        allocation: Some(Allocation { memory: 1, offset: 4096 }),
        is_swapchain_image: false,
    };
    let (s, write) = device.create_image(image).unwrap();
    let write = write.unwrap();
    assert_eq!((write.binding, write.element, write.view), (1, s.pack().raw(), 61));
    assert_eq!(device.gpu_resources().storage_image_descriptor(s.pack().raw()), Some(61));
    let ranges = paya::pipeline::push_constant_ranges(paya::pipeline::SHADER_STAGE_COMPUTE, 12);
    assert_eq!((ranges.len(), ranges[0].offset, ranges[0].size), (1, 0, 12));
    let recorder = device.create_command_recorder(80, 81);
    let timeline = TimelineSemaphore::new(901, 0);
    let value = device.cpu_frame_index() + 1;
    let submit = device.submit(SubmitInfo {
        commands: vec![recorder.finish()],
        wait_semaphores: vec![],
        signal_semaphores: vec![],
        signal_timeline_semaphores: vec![(timeline, value)],
    });
    assert_eq!(submit.command_buffers, vec![81]);
    assert_eq!(submit.signal_semaphores, vec![901]);
    assert_eq!(submit.signal_values, vec![1]);
    assert!(submit.wait_semaphores.is_empty() && submit.wait_dst_stage_mask.is_empty());
    assert_eq!(device.complete_submit(Ok(())), Ok(()));
    assert_eq!(device.cpu_frame_index(), value);
    let garbage = device.collect_garbage(value);
    assert_eq!(garbage.recorders, vec![RecorderReset { command_pool: 80, command_buffer: 81 }]);
}

#[test]
fn submit_faults_are_handed_on() {
    let mut device = device();
    assert_eq!(pass_frame(&mut device, Err(ErrorKind::OutOfHostMemory)), Err(ErrorKind::OutOfHostMemory));
    assert_eq!(pass_frame(&mut device, Err(ErrorKind::ProgrammingFault)), Err(ErrorKind::ProgrammingFault));
    assert_eq!(device.cpu_frame_index(), 0);
    assert_eq!(device.command_pools(), Vec::<u64>::new());
    let left = device.shutdown();
    assert!(left.images.is_empty() && left.buffers.is_empty());
    assert_eq!((left.buffer_addresses_buffer.handle, left.bindless_descriptor_set_layout, left.descriptor_pool), (9, 2, 1));
}

#[test]
fn a_submission_is_pending_until_the_queue_has_answered() {
    let mut device = device();
    assert!(!device.has_pending_submit());
    let (b, _) = device.create_buffer(buffer(10, 0x10)).unwrap();
    let mut recorder = device.create_command_recorder(70, 71);
    recorder.destroy_buffer_deferred(b);
    let _ = device.submit(SubmitInfo {
        commands: vec![recorder.finish()],
        wait_semaphores: vec![],
        signal_semaphores: vec![],
        signal_timeline_semaphores: vec![],
    });
    assert!(device.has_pending_submit());
    assert_eq!(device.cpu_frame_index(), 0);
    device.destroy_buffer_deferred(b);
    assert!(device.has_pending_submit());
    assert!(device.collect_garbage(0).buffers.is_empty());
    assert!(device.has_pending_submit());
    assert_eq!(device.complete_submit(Ok(())), Ok(()));
    assert!(!device.has_pending_submit());
    assert_eq!(device.cpu_frame_index(), 1);
    let garbage = device.collect_garbage(1);
    assert_eq!(garbage.buffers.len(), 1);
    assert_eq!(garbage.stale_buffers, 1);
    assert!(device.collect_garbage(2).buffers.is_empty());
}
