use gfx_hal::format::Format;
use rendy_wsi::swapchain::backbuffer_info;
use rendy_wsi::swapchain::find_request_fault;
use rendy_wsi::swapchain::pick_composite_alpha;
use rendy_wsi::swapchain::plan_swapchain;
use rendy_wsi::swapchain::supports_present_mode;
use rendy_wsi::swapchain::CompositeAlpha;
use rendy_wsi::swapchain::Extent2D;
use rendy_wsi::swapchain::PresentMode;
use rendy_wsi::swapchain::RequestFault;
use rendy_wsi::swapchain::SurfaceCapabilities;
use rendy_wsi::swapchain::SwapchainError;
use rendy_wsi::swapchain::Usage;
use rendy_wsi::swapchain::Tiling;
use rendy_wsi::swapchain::ViewCapabilities;

const COLOR_ATTACHMENT: u32 = 0x10;
const TRANSFER_DST: u32 = 0x2;

fn caps(current: Option<Extent2D>, alpha: u32) -> SurfaceCapabilities {
    SurfaceCapabilities {
        image_count_start: 2,
        image_count_end: 4,
        current_extent: current,
        usage: Usage { bits: COLOR_ATTACHMENT | TRANSFER_DST },
        composite_alpha: CompositeAlpha { bits: alpha },
    }
}

fn formats() -> Option<Vec<Format>> {
    Some(vec![Format::Rgba8Unorm, Format::Bgra8Srgb])
}

fn modes() -> Vec<PresentMode> {
    vec![PresentMode::Fifo, PresentMode::Mailbox]
}

fn suggested() -> Extent2D {
    Extent2D { width: 640, height: 480 }
}

#[test]
fn accepted_request_gets_full_config() {
    let caps = caps(Some(Extent2D { width: 800, height: 600 }), 0x1 | 0x8);
    let usage = Usage { bits: COLOR_ATTACHMENT };
    let config = plan_swapchain(&caps, &formats(), &modes(), suggested(), 3, PresentMode::Fifo, usage).unwrap();
    assert_eq!(config.present_mode, PresentMode::Fifo);
    assert_eq!(config.format, Format::Bgra8Srgb);
    assert_eq!(config.extent, Extent2D { width: 800, height: 600 });
    assert_eq!(config.image_count, 3);
    assert_eq!(config.image_layers, 1);
    assert_eq!(config.image_usage, usage);
    assert_eq!(config.composite_alpha, CompositeAlpha { bits: 0x8 });
}

#[test]
fn suggested_extent_used_without_current_extent() {
    let config = plan_swapchain(&caps(None, 0x1), &formats(), &modes(), suggested(), 2, PresentMode::Mailbox, Usage { bits: 0 }).unwrap();
    assert_eq!(config.extent, suggested());
    assert_eq!(config.composite_alpha, CompositeAlpha { bits: 0x1 });
}

#[test]
fn unsupported_present_mode_is_refused() {
    let r = plan_swapchain(&caps(None, 0x1), &formats(), &modes(), suggested(), 3, PresentMode::Immediate, Usage { bits: 0 });
    assert_eq!(r.unwrap_err(), SwapchainError::PresentModeNotSupported);
}

#[test]
fn present_mode_is_checked_before_image_count() {
    let r = plan_swapchain(&caps(None, 0x1), &formats(), &modes(), suggested(), 9, PresentMode::Relaxed, Usage { bits: 0 });
    assert_eq!(r.unwrap_err(), SwapchainError::PresentModeNotSupported);
}

#[test]
fn image_count_range_includes_both_ends() {
    for (count, ok) in [(1u32, false), (2, true), (3, true), (4, true), (5, false)] {
        let r = plan_swapchain(&caps(None, 0x1), &formats(), &modes(), suggested(), count, PresentMode::Fifo, Usage { bits: 0 });
        if ok {
            assert_eq!(r.unwrap().image_count, count);
        } else {
            assert_eq!(r.unwrap_err(), SwapchainError::ImageCountNotSupported);
        }
    }
}

#[test]
fn composite_alpha_order() {
    assert_eq!(pick_composite_alpha(&CompositeAlpha { bits: 0xf }), Some(CompositeAlpha { bits: 0x8 }));
    assert_eq!(pick_composite_alpha(&CompositeAlpha { bits: 0x7 }), Some(CompositeAlpha { bits: 0x1 }));
    assert_eq!(pick_composite_alpha(&CompositeAlpha { bits: 0x6 }), Some(CompositeAlpha { bits: 0x2 }));
    assert_eq!(pick_composite_alpha(&CompositeAlpha { bits: 0x4 }), Some(CompositeAlpha { bits: 0x4 }));
    assert_eq!(pick_composite_alpha(&CompositeAlpha { bits: 0x30 }), None);
}

#[test]
fn usage_containment() {
    let supported = Usage { bits: COLOR_ATTACHMENT | TRANSFER_DST };
    assert!(supported.contains(&Usage { bits: COLOR_ATTACHMENT }));
    assert!(supported.contains(&Usage { bits: 0 }));
    assert!(!supported.contains(&Usage { bits: COLOR_ATTACHMENT | 0x1 }));
}

#[test]
fn present_mode_lookup() {
    assert!(supports_present_mode(&modes(), PresentMode::Mailbox));
    assert!(!supports_present_mode(&modes(), PresentMode::Relaxed));
    assert!(!supports_present_mode(&vec![], PresentMode::Fifo));
}

#[test]
fn faults_are_found_in_order() {
    let usage = Usage { bits: COLOR_ATTACHMENT };
    let good = caps(None, 0x1);
    assert_eq!(find_request_fault(&good, &formats(), &modes(), 3, PresentMode::Fifo, usage), None);
    assert_eq!(find_request_fault(&good, &None, &modes(), 3, PresentMode::Fifo, usage), Some(RequestFault::FormatsUnknown));
    assert_eq!(find_request_fault(&good, &None, &modes(), 3, PresentMode::Immediate, usage), None);
    assert_eq!(find_request_fault(&good, &Some(vec![]), &modes(), 3, PresentMode::Fifo, usage), Some(RequestFault::NoFormat));
    let sentinel = Some(vec![Format::Rgba8Unorm, Format::__NumFormats]);
    assert_eq!(find_request_fault(&good, &sentinel, &modes(), 3, PresentMode::Fifo, usage), Some(RequestFault::UndefinedFormat));
    assert_eq!(find_request_fault(&good, &sentinel, &modes(), 9, PresentMode::Fifo, usage), Some(RequestFault::UndefinedFormat));
    assert_eq!(find_request_fault(&good, &sentinel, &modes(), 3, PresentMode::Relaxed, usage), None);
    let bad_usage = Usage { bits: 0x1 };
    assert_eq!(find_request_fault(&good, &formats(), &modes(), 3, PresentMode::Fifo, bad_usage), Some(RequestFault::UsageNotSupported));
    assert_eq!(find_request_fault(&good, &formats(), &modes(), 7, PresentMode::Fifo, bad_usage), None);
    let no_alpha = caps(None, 0x0);
    assert_eq!(find_request_fault(&no_alpha, &formats(), &modes(), 3, PresentMode::Fifo, usage), Some(RequestFault::NoCompositeAlpha));
    assert_eq!(RequestFault::NoFormat.message(), "At least one format must be supported by the surface");
    assert_eq!(RequestFault::NoCompositeAlpha.message(), "No CompositeAlpha modes supported");
}

#[test]
fn backbuffer_description() {
    let caps = caps(Some(Extent2D { width: 1024, height: 768 }), 0x2);
    let usage = Usage { bits: COLOR_ATTACHMENT };
    let config = plan_swapchain(&caps, &formats(), &modes(), suggested(), 2, PresentMode::Fifo, usage).unwrap();
    let info = backbuffer_info(&config);
    assert_eq!((info.width, info.height, info.layers, info.samples, info.levels), (1024, 768, 1, 1, 1));
    assert_eq!(info.format, Format::Bgra8Srgb);
    assert_eq!(info.usage, usage);
    assert_eq!(info.tiling, Tiling::Optimal);
    assert_eq!(info.view_caps, ViewCapabilities { bits: 0 });
}
