use paya::common::{Extent2D, Extent3D, Format, ImageUsageFlags};
use paya::error::ErrorKind;
use paya::gpu_resources::{GpuResourceId, ImageId};
use paya::swapchain::{
    choose_image_count, choose_present_mode, choose_surface_format, plan_swapchain, swapchain_image_info,
    AcquireOutcome, SurfaceFormat, Swapchain, SwapchainInfo, ACQUIRE_TIMEOUT_NS, COLOR_SPACE_SRGB_NONLINEAR,
    PRESENT_MODE_FIFO, PRESENT_MODE_MAILBOX,
};
use paya::sync::{BinarySemaphore, TimelineSemaphore};

fn images(count: u32) -> Vec<ImageId> {
    (0..count).map(|i| ImageId(GpuResourceId::from_parts(i, 0))).collect()
}

fn swapchain(frames: u32, width: u32, height: u32) -> Swapchain {
    let info = SwapchainInfo {
        format: Format::B8G8R8A8Srgb,
        extent: Extent2D::new(width, height),
        image_usage: ImageUsageFlags::from_bits_truncate(ImageUsageFlags::COLOR_ATTACHMENT),
        max_frames_in_flight: frames,
    };
    let acquire = (0..frames as u64).map(|i| BinarySemaphore::new(100 + i)).collect();
    let present = (0..frames as u64).map(|i| BinarySemaphore::new(200 + i)).collect();
    Swapchain::new(1, 2, images(3), info, acquire, present, TimelineSemaphore::new(300, 0)).unwrap()
}

#[test]
fn acquire_ring_signals_each_semaphore_once() {
    for frames in 1..=4u32 {
        let mut swapchain = swapchain(frames, 64, 64);
        let mut signalled = vec![0u32; frames as usize];
        for round in 0..frames {
            let handle = swapchain.next_acquire_semaphore().handle();
            signalled[(handle - 100) as usize] += 1;
            assert_eq!(handle, 100 + ((round as u64 + 1) % frames as u64));
            assert!(swapchain.acquire_next_image(AcquireOutcome::Success(round % 3)).unwrap().is_some());
            assert_eq!(swapchain.current_acquire_semaphore().handle(), handle);
            assert_eq!(swapchain.current_present_semaphore().handle(), handle);
        }
        assert_eq!(signalled, vec![1u32; frames as usize]);
        assert_eq!(swapchain.cpu_timeline(), frames as u64);
    }
}

#[test]
fn swapchain_resize() {
    let mut swapchain = swapchain(2, 1280, 720);
    assert_eq!(swapchain.info().extent, Extent2D::new(1280, 720));
    let first = swapchain.acquire_next_image(AcquireOutcome::Success(0));
    assert_eq!(first, Ok(Some(ImageId(GpuResourceId::from_parts(0, 0)))));
    assert_eq!(swapchain.cpu_timeline(), 1);
    let fresh: Vec<ImageId> = (10..13).map(|i| ImageId(GpuResourceId::from_parts(i, 0))).collect();
    let old = swapchain.resize(9, fresh.clone(), 800, 600);
    assert_eq!(old, images(3));
    assert_eq!(swapchain.handle(), 9);
    assert_eq!(swapchain.surface(), 2);
    assert_eq!(swapchain.info().extent, Extent2D::new(800, 600));
    assert_eq!(swapchain.cpu_timeline(), 1);
    let info = swapchain_image_info(swapchain.info());
    assert_eq!(info.extent, Extent3D::new(800, 600, 1));
    assert_eq!(info.dimensions, 2);
    assert_eq!(info.format, Format::B8G8R8A8Srgb);
    assert_eq!(info.usage.bits(), ImageUsageFlags::COLOR_ATTACHMENT);
    assert_eq!(swapchain.acquire_next_image(AcquireOutcome::Success(2)), Ok(Some(fresh[2])));
    assert_eq!(swapchain.cpu_timeline(), 2);
    assert_eq!(swapchain.gpu_timeline_semaphore().handle(), 300);
    assert_eq!(swapchain.gpu_timeline_semaphore().initial_value(), 0);
}

#[test]
fn stale_swapchain() {
    let mut swapchain = swapchain(2, 64, 64);
    assert!(swapchain.acquire_next_image(AcquireOutcome::Success(1)).unwrap().is_some());
    assert_eq!(swapchain.last_aquired_image_index(), Some(1));
    let before = swapchain.next_acquire_semaphore().handle();
    assert_eq!(swapchain.acquire_next_image(AcquireOutcome::OutOfDate), Ok(None));
    assert_eq!(swapchain.cpu_timeline(), 1);
    assert_eq!(swapchain.last_aquired_image_index(), None);
    assert_eq!(swapchain.next_acquire_semaphore().handle(), before);
    assert_eq!(swapchain.acquire_next_image(AcquireOutcome::Suboptimal), Ok(None));
    assert_eq!(swapchain.cpu_timeline(), 1);
}

#[test]
fn acquire_faults() {
    let mut swapchain = swapchain(2, 64, 64);
    assert!(swapchain.acquire_next_image(AcquireOutcome::Success(0)).is_ok());
    assert_eq!(swapchain.acquire_next_image(AcquireOutcome::Timeout), Err(ErrorKind::Timeout));
    assert_eq!(swapchain.acquire_next_image(AcquireOutcome::SurfaceLost), Err(ErrorKind::SurfaceLost));
    assert_eq!(swapchain.acquire_next_image(AcquireOutcome::Failed(-4)), Err(ErrorKind::ProgrammingFault));
    assert_eq!(swapchain.acquire_next_image(AcquireOutcome::Success(3)), Err(ErrorKind::ProgrammingFault));
    assert_eq!(swapchain.cpu_timeline(), 1);
    assert_eq!(swapchain.last_aquired_image_index(), Some(0));
    assert_eq!(ACQUIRE_TIMEOUT_NS, 5e+9 as u64);
}

#[test]
fn rings_must_match_the_frames_in_flight() {
    let info = SwapchainInfo {
        format: Format::B8G8R8A8Srgb,
        extent: Extent2D::new(1, 1),
        image_usage: ImageUsageFlags::empty(),
        max_frames_in_flight: 2,
    };
    let one = vec![BinarySemaphore::new(1)];
    let two = vec![BinarySemaphore::new(1), BinarySemaphore::new(2)];
    let timeline = TimelineSemaphore::new(3, 0);
    assert!(matches!(
        Swapchain::new(1, 2, vec![], info, one.clone(), two.clone(), timeline),
        Err(ErrorKind::ProgrammingFault)
    ));
    assert!(matches!(
        Swapchain::new(1, 2, vec![], info, two.clone(), one, timeline),
        Err(ErrorKind::ProgrammingFault)
    ));
    let none = SwapchainInfo { max_frames_in_flight: 0, ..info };
    assert!(matches!(Swapchain::new(1, 2, vec![], none, vec![], vec![], timeline), Err(ErrorKind::ProgrammingFault)));
    assert!(Swapchain::new(1, 2, vec![], info, two.clone(), two, timeline).is_ok());
}

#[test]
fn surface_choices() {
    let srgb = SurfaceFormat {
        format: ash::vk::Format::B8G8R8A8_SRGB.as_raw(),
        color_space: ash::vk::ColorSpaceKHR::SRGB_NONLINEAR.as_raw(),
    };
    let unorm = SurfaceFormat { format: ash::vk::Format::R8G8B8A8_UNORM.as_raw(), color_space: 0 };
    let other_space = SurfaceFormat { format: srgb.format, color_space: 1000104001 };
    assert_eq!(COLOR_SPACE_SRGB_NONLINEAR, ash::vk::ColorSpaceKHR::SRGB_NONLINEAR.as_raw());
    assert_eq!(choose_surface_format(&vec![unorm, other_space, srgb]), Some(srgb));
    assert_eq!(choose_surface_format(&vec![unorm, other_space]), Some(unorm));
    assert_eq!(choose_surface_format(&vec![other_space, unorm]), Some(other_space));
    assert_eq!(choose_surface_format(&vec![]), None);
    assert_eq!(PRESENT_MODE_MAILBOX, ash::vk::PresentModeKHR::MAILBOX.as_raw());
    assert_eq!(PRESENT_MODE_FIFO, ash::vk::PresentModeKHR::FIFO.as_raw());
    assert_eq!(choose_present_mode(&vec![0, 2, 1]), PRESENT_MODE_MAILBOX);
    assert_eq!(choose_present_mode(&vec![0, 2, 3]), PRESENT_MODE_FIFO);
    assert_eq!(choose_present_mode(&vec![]), PRESENT_MODE_FIFO);
    assert_eq!(choose_image_count(0), 2);
    assert_eq!(choose_image_count(1), 2);
    assert_eq!(choose_image_count(2), 2);
    assert_eq!(choose_image_count(3), 3);
}

#[test]
fn swapchain_plans() {
    let srgb = SurfaceFormat { format: 50, color_space: 0 };
    let unknown = SurfaceFormat { format: 1, color_space: 0 };
    let usage = ImageUsageFlags::from_bits_truncate(ImageUsageFlags::TRANSFER_DST);
    let plan = plan_swapchain(1, &vec![unknown, srgb], &vec![2], Extent2D::new(5000, 1), usage, 2, Some(8)).unwrap();
    assert_eq!(plan.min_image_count, 2);
    assert_eq!(plan.format, srgb);
    assert_eq!(plan.present_mode, PRESENT_MODE_FIFO);
    assert_eq!(plan.extent, Extent2D::new(5000, 1));
    assert_eq!(plan.image_usage, usage);
    assert_eq!(plan.old_swapchain, Some(8));
    assert_eq!(
        plan.info,
        SwapchainInfo {
            format: Format::B8G8R8A8Srgb,
            extent: Extent2D::new(5000, 1),
            image_usage: usage,
            max_frames_in_flight: 2
        }
    );
    assert_eq!(
        plan_swapchain(4, &vec![unknown], &vec![1], Extent2D::new(1, 1), usage, 2, None),
        Err(ErrorKind::Unsupported)
    );
    assert_eq!(plan_swapchain(4, &vec![], &vec![1], Extent2D::new(1, 1), usage, 2, None), Err(ErrorKind::Unsupported));
    let plan = plan_swapchain(4, &vec![SurfaceFormat { format: 37, color_space: 0 }], &vec![1], Extent2D::new(1, 1), usage, 3, None)
        .unwrap();
    assert_eq!((plan.min_image_count, plan.present_mode, plan.info.format), (4, 1, Format::R8G8B8A8Unorm));
}

#[test]
fn result_codes_are_read() {
    let vk_code = |result: ash::vk::Result| result.as_raw();
    assert_eq!(AcquireOutcome::from_result_code(vk_code(ash::vk::Result::SUCCESS), 2), AcquireOutcome::Success(2));
    assert_eq!(AcquireOutcome::from_result_code(vk_code(ash::vk::Result::SUBOPTIMAL_KHR), 2), AcquireOutcome::Suboptimal);
    assert_eq!(
        AcquireOutcome::from_result_code(vk_code(ash::vk::Result::ERROR_OUT_OF_DATE_KHR), 0),
        AcquireOutcome::OutOfDate
    );
    assert_eq!(AcquireOutcome::from_result_code(vk_code(ash::vk::Result::TIMEOUT), 0), AcquireOutcome::Timeout);
    assert_eq!(AcquireOutcome::from_result_code(vk_code(ash::vk::Result::NOT_READY), 0), AcquireOutcome::Timeout);
    assert_eq!(
        AcquireOutcome::from_result_code(vk_code(ash::vk::Result::ERROR_SURFACE_LOST_KHR), 0),
        AcquireOutcome::SurfaceLost
    );
    assert_eq!(
        AcquireOutcome::from_result_code(vk_code(ash::vk::Result::ERROR_DEVICE_LOST), 0),
        AcquireOutcome::Failed(-4)
    );
    assert_eq!(ErrorKind::from_result_code(vk_code(ash::vk::Result::SUCCESS)), None);
    assert_eq!(
        ErrorKind::from_result_code(vk_code(ash::vk::Result::ERROR_OUT_OF_HOST_MEMORY)),
        Some(ErrorKind::OutOfHostMemory)
    );
    assert_eq!(
        ErrorKind::from_result_code(vk_code(ash::vk::Result::ERROR_OUT_OF_DEVICE_MEMORY)),
        Some(ErrorKind::OutOfDeviceMemory)
    );
    assert_eq!(
        ErrorKind::from_result_code(vk_code(ash::vk::Result::ERROR_SURFACE_LOST_KHR)),
        Some(ErrorKind::SurfaceLost)
    );
    assert_eq!(ErrorKind::from_result_code(vk_code(ash::vk::Result::SUBOPTIMAL_KHR)), Some(ErrorKind::SwapchainStale));
    assert_eq!(
        ErrorKind::from_result_code(vk_code(ash::vk::Result::ERROR_OUT_OF_DATE_KHR)),
        Some(ErrorKind::SwapchainStale)
    );
    assert_eq!(ErrorKind::from_result_code(vk_code(ash::vk::Result::TIMEOUT)), Some(ErrorKind::Timeout));
    assert_eq!(
        ErrorKind::from_result_code(vk_code(ash::vk::Result::ERROR_DEVICE_LOST)),
        Some(ErrorKind::ProgrammingFault)
    );
}
