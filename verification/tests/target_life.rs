use gfx_hal::format::Format;
use rendy_wsi::swapchain::plan_swapchain;
use rendy_wsi::swapchain::CompositeAlpha;
use rendy_wsi::swapchain::Extent2D;
use rendy_wsi::swapchain::PresentMode;
use rendy_wsi::swapchain::SurfaceCapabilities;
use rendy_wsi::swapchain::SwapchainConfig;
use rendy_wsi::swapchain::Usage;
use rendy_wsi::target::AcquireError;
use rendy_wsi::target::DeviceId;
use rendy_wsi::target::InstanceId;
use rendy_wsi::target::RecreateRequest;
use rendy_wsi::target::Surface;
use rendy_wsi::target::Target;

const INSTANCE: InstanceId = InstanceId { id: 7 };
const DEVICE: DeviceId = DeviceId { id: 3, instance: InstanceId { id: 7 } };

fn caps(current: Option<Extent2D>) -> SurfaceCapabilities {
    SurfaceCapabilities {
        image_count_start: 1,
        image_count_end: 8,
        current_extent: current,
        usage: Usage { bits: 0x10 },
        composite_alpha: CompositeAlpha { bits: 0x1 },
    }
}

fn config(current: Option<Extent2D>, count: u32) -> SwapchainConfig {
    plan_swapchain(
        &caps(current),
        &Some(vec![Format::Bgra8Srgb]),
        &vec![PresentMode::Fifo],
        Extent2D { width: 320, height: 200 },
        count,
        PresentMode::Fifo,
        Usage { bits: 0x10 },
    )
    .unwrap()
}

fn target(count: u32) -> Target {
    let c = config(Some(Extent2D { width: 800, height: 600 }), count);
    Surface::new(INSTANCE).into_target(DEVICE, &c, count as usize)
}

#[test]
fn surface_ownership() {
    let surface = Surface::new(INSTANCE);
    assert_eq!(surface.instance_id(), INSTANCE);
    assert!(surface.is_instance_owner(INSTANCE));
    assert!(!surface.is_instance_owner(InstanceId { id: 8 }));
}

#[test]
fn target_takes_config() {
    let t = target(3);
    assert_eq!(t.device_id(), DEVICE);
    assert_eq!(t.instance_id(), INSTANCE);
    assert!(t.is_device_owner(DEVICE));
    assert!(!t.is_device_owner(DeviceId { id: 4, instance: INSTANCE }));
    assert!(t.is_instance_owner(INSTANCE));
    assert_eq!(t.surface().instance_id(), INSTANCE);
    assert_eq!(t.backbuffer_len(), Some(3));
    assert_eq!(t.extent(), Extent2D { width: 800, height: 600 });
    assert_eq!(t.usage(), Usage { bits: 0x10 });
    assert_eq!(t.present_mode(), PresentMode::Fifo);
    let (surface, swapchain) = t.dispose(DEVICE);
    assert_eq!(surface.instance_id(), INSTANCE);
    assert_eq!(swapchain, Some(3));
}

#[test]
fn recreate_asks_for_backbuffer_size() {
    let mut t = target(3);
    let request = t.recreate(DEVICE);
    assert_eq!(request, RecreateRequest { image_count: 3, present_mode: PresentMode::Fifo, usage: Usage { bits: 0x10 } });
    assert_eq!(t.backbuffer_len(), None);
    assert_eq!(t.acquirable(), Err(AcquireError::OutOfDate));
    let again = t.recreate(DEVICE);
    assert_eq!(again.image_count, 0);
    let c = config(None, 4);
    t.install_swapchain(&c, 4);
    assert_eq!(t.backbuffer_len(), Some(4));
    assert_eq!(t.extent(), Extent2D { width: 320, height: 200 });
    assert_eq!(t.present_mode(), PresentMode::Fifo);
    assert_eq!(t.acquirable(), Ok(()));
    let (_, swapchain) = t.dispose(DEVICE);
    assert_eq!(swapchain, Some(4));
}

#[test]
fn recreate_replans_same_config() {
    let first = config(Some(Extent2D { width: 800, height: 600 }), 5);
    let mut t = Surface::new(INSTANCE).into_target(DEVICE, &first, 5);
    let request = t.recreate(DEVICE);
    let second = plan_swapchain(
        &caps(Some(Extent2D { width: 800, height: 600 })),
        &Some(vec![Format::Bgra8Srgb]),
        &vec![PresentMode::Fifo],
        Extent2D { width: 1, height: 1 },
        request.image_count,
        request.present_mode,
        request.usage,
    )
    .unwrap();
    assert_eq!(second.image_count, first.image_count);
    assert_eq!(second.extent, first.extent);
    assert_eq!(second.format, first.format);
    assert_eq!(second.composite_alpha, first.composite_alpha);
    t.install_swapchain(&second, 5);
    t.dispose(DEVICE);
}

#[test]
fn recreate_cuts_count_to_32_bits() {
    if usize::MAX as u64 > u32::MAX as u64 {
        let c = config(None, 2);
        let big = (1usize << 32) + 3;
        let mut t = Surface::new(INSTANCE).into_target(DEVICE, &c, big);
        assert_eq!(t.recreate(DEVICE).image_count, 3);
        t.dispose(DEVICE);
    }
}

#[test]
fn next_image_holds_acquired_index() {
    let t = target(2);
    assert_eq!(t.acquirable(), Ok(()));
    let images = t.next_image(Ok(1)).unwrap();
    assert_eq!(images.len(), 1);
    assert_eq!(images.indices(), vec![1]);
    assert_eq!(*images.index(0), 1);
    match t.next_image(Err(AcquireError::NotReady)) {
        Err(e) => assert_eq!(e, AcquireError::NotReady),
        Ok(_) => panic!("an acquire error must be passed on"),
    }
    t.dispose(DEVICE);
}

#[test]
fn next_image_without_swapchain_is_out_of_date() {
    let mut t = target(2);
    let _ = t.recreate(DEVICE);
    match t.next_image(Ok(1)) {
        Err(e) => assert_eq!(e, AcquireError::OutOfDate),
        Ok(_) => panic!("a target without swapchain must answer OutOfDate"),
    }
    t.dispose(DEVICE);
}

#[test]
fn recreations_keep_surface_usage_and_follow_last_install() {
    let mut t = target(3);
    let first = t.recreate(DEVICE);
    let c = config(None, first.image_count);
    t.install_swapchain(&c, 3);
    let _failed = t.recreate(DEVICE);
    assert_eq!(t.backbuffer_len(), None);
    assert_eq!(t.extent(), Extent2D { width: 320, height: 200 });
    assert_eq!(t.usage(), Usage { bits: 0x10 });
    assert_eq!(t.surface().instance_id(), INSTANCE);
    let (surface, swapchain) = t.dispose(DEVICE);
    assert_eq!(surface.instance_id(), INSTANCE);
    assert_eq!(swapchain, None);
}
