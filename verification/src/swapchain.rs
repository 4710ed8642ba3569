//! The decisions taken before a swapchain is created for a surface: which
//! requests are refused, and the configuration handed to the device.

use vstd::prelude::*;
use gfx_hal::format::Format;
use crate::format::format_infos;
use crate::format::ideal_format;
use crate::format::ideal_index;
use crate::format::are_formats_defined;
use crate::format::formats_defined;

verus! {

/// Size of a surface or of swapchain images, in pixels.
#[derive(Clone, Copy, Debug, PartialEq, Eq, Structural)]
pub struct Extent2D {
    pub width: u32,
    pub height: u32,
}

/// How a swapchain presents frames.
#[derive(Clone, Copy, Debug, PartialEq, Eq, Structural)]
pub enum PresentMode {
    /// Don't ever wait for v-sync.
    Immediate,
    /// Wait for v-sync, overwrite the last rendered frame.
    Mailbox,
    /// Present frames in the order they are rendered.
    Fifo,
    /// Don't wait for the next v-sync if it was just missed.
    Relaxed,
}

/// A set of image usage flags, as a bit mask.
#[derive(Clone, Copy, Debug, PartialEq, Eq, Structural)]
pub struct Usage {
    pub bits: u32,
}

impl Usage {
    /// Every flag of `other` is in `self`.
    pub open spec fn includes(self, other: Usage) -> bool {
        self.bits & other.bits == other.bits
    }

    /// Whether every flag of `other` is in `self`.
    pub fn contains(&self, other: &Usage) -> (r: bool)
        ensures
            r == self.includes(*other),
    {
        self.bits & other.bits == other.bits
    }
}

/// The alpha composition mode in which the alpha channel is ignored.
pub const COMPOSITE_ALPHA_OPAQUE: u32 = 0x1;
/// The alpha composition mode for premultiplied alpha.
pub const COMPOSITE_ALPHA_PREMULTIPLIED: u32 = 0x2;
/// The alpha composition mode in which the compositor multiplies by alpha.
pub const COMPOSITE_ALPHA_POSTMULTIPLIED: u32 = 0x4;
/// The alpha composition mode left to the native window system.
pub const COMPOSITE_ALPHA_INHERIT: u32 = 0x8;

/// A set of alpha composition modes, as a bit mask.
#[derive(Clone, Copy, Debug, PartialEq, Eq, Structural)]
pub struct CompositeAlpha {
    pub bits: u32,
}

impl CompositeAlpha {
    /// The mode `bit` is in the set.
    pub open spec fn supports(self, bit: u32) -> bool {
        self.bits & bit == bit
    }
}

/// What a surface supports, as far as the choice of a swapchain needs it.
#[derive(Clone, Copy, Debug, PartialEq, Eq, Structural)]
pub struct SurfaceCapabilities {
    /// Least number of images of a swapchain.
    pub image_count_start: u32,
    /// Greatest number of images of a swapchain.
    pub image_count_end: u32,
    /// The current size of the surface, if it has one.
    pub current_extent: Option<Extent2D>,
    /// Supported image usage.
    pub usage: Usage,
    /// Supported alpha composition modes.
    pub composite_alpha: CompositeAlpha,
}

/// Everything the device needs to create a swapchain.
#[derive(Clone, Copy, Debug)]
pub struct SwapchainConfig {
    pub present_mode: PresentMode,
    pub composite_alpha: CompositeAlpha,
    pub format: Format,
    pub extent: Extent2D,
    pub image_count: u32,
    pub image_layers: u16,
    pub image_usage: Usage,
}

/// How the texels of an image are laid out in memory.
#[derive(Clone, Copy, Debug, PartialEq, Eq, Structural)]
pub enum Tiling {
    /// The layout best for the device, left to the implementation.
    Optimal,
    /// Row-major, for access by the host.
    Linear,
}

/// A set of view capabilities of an image, as a bit mask.
#[derive(Clone, Copy, Debug, PartialEq, Eq, Structural)]
pub struct ViewCapabilities {
    pub bits: u32,
}

/// How the images of a swapchain's backbuffer are described to the
/// resource layer.
#[derive(Clone, Copy, Debug)]
pub struct BackbufferInfo {
    pub width: u32,
    pub height: u32,
    pub layers: u16,
    pub samples: u8,
    pub levels: u8,
    pub format: Format,
    pub tiling: Tiling,
    pub view_caps: ViewCapabilities,
    pub usage: Usage,
}

/// The description of the backbuffer images of a swapchain created with
/// `config`: two-dimensional with its extent, one layer, one sample, one
/// mip level, its format, optimal tiling, no extra view capabilities, and
/// its usage.
pub fn backbuffer_info(config: &SwapchainConfig) -> (info: BackbufferInfo)
    ensures
        info == (BackbufferInfo {
            width: config.extent.width,
            height: config.extent.height,
            layers: 1,
            samples: 1,
            levels: 1,
            format: config.format,
            tiling: Tiling::Optimal,
            view_caps: ViewCapabilities { bits: 0 },
            usage: config.image_usage,
        }),
{
    BackbufferInfo {
        width: config.extent.width,
        height: config.extent.height,
        layers: 1,
        samples: 1,
        levels: 1,
        format: config.format,
        tiling: Tiling::Optimal,
        view_caps: ViewCapabilities { bits: 0 },
        usage: config.image_usage,
    }
}

/// Why a swapchain request is refused.
#[derive(Clone, Copy, Debug, PartialEq, Eq, Structural)]
pub enum SwapchainError {
    /// The surface does not support the requested present mode.
    PresentModeNotSupported,
    /// The requested number of images is outside what the surface supports.
    ImageCountNotSupported,
}

/// A request that the surface cannot serve and that is a programming error
/// rather than a refusal.
#[derive(Clone, Copy, Debug, PartialEq, Eq, Structural)]
pub enum RequestFault {
    /// The surface did not say which formats it supports.
    FormatsUnknown,
    /// The surface supports no format at all.
    NoFormat,
    /// One of the formats is gfx-hal's hidden sentinel, which has no
    /// description.
    UndefinedFormat,
    /// The requested usage is not supported by the surface.
    UsageNotSupported,
    /// The surface supports none of the alpha composition modes.
    NoCompositeAlpha,
}

impl RequestFault {
    /// The message the fault is reported with.
    pub fn message(&self) -> (text: &'static str)
        ensures
            text@ == (match *self {
                RequestFault::FormatsUnknown => "Surface reported no formats"@,
                RequestFault::NoFormat => "At least one format must be supported by the surface"@,
                RequestFault::UndefinedFormat => "Surface reported an undefined format"@,
                RequestFault::UsageNotSupported => "Surface does not support the requested usage"@,
                RequestFault::NoCompositeAlpha => "No CompositeAlpha modes supported"@,
            }),
    {
        match self {
            RequestFault::FormatsUnknown => "Surface reported no formats",
            RequestFault::NoFormat => "At least one format must be supported by the surface",
            RequestFault::UndefinedFormat => "Surface reported an undefined format",
            RequestFault::UsageNotSupported => "Surface does not support the requested usage",
            RequestFault::NoCompositeAlpha => "No CompositeAlpha modes supported",
        }
    }
}

/// The first alpha composition mode the surface supports, in the order
/// inherit, opaque, premultiplied, postmultiplied.
pub open spec fn preferred_composite_alpha(supported: CompositeAlpha) -> Option<CompositeAlpha> {
    if supported.supports(COMPOSITE_ALPHA_INHERIT) {
        Some(CompositeAlpha { bits: COMPOSITE_ALPHA_INHERIT })
    } else if supported.supports(COMPOSITE_ALPHA_OPAQUE) {
        Some(CompositeAlpha { bits: COMPOSITE_ALPHA_OPAQUE })
    } else if supported.supports(COMPOSITE_ALPHA_PREMULTIPLIED) {
        Some(CompositeAlpha { bits: COMPOSITE_ALPHA_PREMULTIPLIED })
    } else if supported.supports(COMPOSITE_ALPHA_POSTMULTIPLIED) {
        Some(CompositeAlpha { bits: COMPOSITE_ALPHA_POSTMULTIPLIED })
    } else {
        None
    }
}

/// Picks the first alpha composition mode the surface supports, in the
/// order inherit, opaque, premultiplied, postmultiplied.
pub fn pick_composite_alpha(supported: &CompositeAlpha) -> (mode: Option<CompositeAlpha>)
    ensures
        mode == preferred_composite_alpha(*supported),
{
    let order: [u32; 4] = [
        COMPOSITE_ALPHA_INHERIT,
        COMPOSITE_ALPHA_OPAQUE,
        COMPOSITE_ALPHA_PREMULTIPLIED,
        COMPOSITE_ALPHA_POSTMULTIPLIED,
    ];
    let mut i: usize = 0;
    while i < 4
        invariant
            i <= 4,
            order@ == seq![COMPOSITE_ALPHA_INHERIT, COMPOSITE_ALPHA_OPAQUE, COMPOSITE_ALPHA_PREMULTIPLIED, COMPOSITE_ALPHA_POSTMULTIPLIED],
            forall|k: int| 0 <= k < i ==> !supported.supports(#[trigger] order@[k]),
        decreases 4 - i,
    {
        let bit = order[i];
        if supported.bits & bit == bit {
            return Some(CompositeAlpha { bits: bit });
        }
        i = i + 1;
    }
    None
}

/// The number of images lies in the range the surface supports, both ends
/// included.
pub open spec fn image_count_supported(caps: SurfaceCapabilities, image_count: u32) -> bool {
    caps.image_count_start <= image_count && image_count <= caps.image_count_end
}

/// The extent of new swapchain images: the surface's own size where it has
/// one, the suggested size otherwise.
pub open spec fn swapchain_extent(caps: SurfaceCapabilities, suggest_extent: Extent2D) -> Extent2D {
    match caps.current_extent {
        Some(extent) => extent,
        None => suggest_extent,
    }
}

/// The view of an optional vector.
pub open spec fn opt_seq<T>(v: Option<Vec<T>>) -> Option<Seq<T>> {
    match v {
        Some(v) => Some(v@),
        None => None,
    }
}

/// The fault, if any, that makes a request unserviceable. The checks come
/// in the order a request is examined: the present mode first (a request
/// for an unsupported mode is refused before anything else is looked at),
/// then the formats (all of which are described, so that one gfx-hal cannot
/// describe is a fault), then the image count (a refused count is not a fault),
/// then the usage and the composition modes.
pub open spec fn request_fault(
    caps: SurfaceCapabilities,
    formats: Option<Seq<Format>>,
    present_modes: Seq<PresentMode>,
    image_count: u32,
    present_mode: PresentMode,
    usage: Usage,
) -> Option<RequestFault> {
    if !present_modes.contains(present_mode) {
        None
    } else if formats is None {
        Some(RequestFault::FormatsUnknown)
    } else if formats.unwrap().len() == 0 {
        Some(RequestFault::NoFormat)
    } else if !formats_defined(formats.unwrap()) {
        Some(RequestFault::UndefinedFormat)
    } else if !image_count_supported(caps, image_count) {
        None
    } else if !caps.usage.includes(usage) {
        Some(RequestFault::UsageNotSupported)
    } else if preferred_composite_alpha(caps.composite_alpha) is None {
        Some(RequestFault::NoCompositeAlpha)
    } else {
        None
    }
}

/// The configuration of a swapchain for an accepted request.
pub open spec fn planned_config(
    caps: SurfaceCapabilities,
    formats: Seq<Format>,
    suggest_extent: Extent2D,
    image_count: u32,
    present_mode: PresentMode,
    usage: Usage,
) -> SwapchainConfig {
    SwapchainConfig {
        present_mode,
        composite_alpha: preferred_composite_alpha(caps.composite_alpha).unwrap(),
        format: formats[ideal_index(format_infos(formats))],
        extent: swapchain_extent(caps, suggest_extent),
        image_count,
        image_layers: 1,
        image_usage: usage,
    }
}

/// Whether `present_modes` holds `mode`.
pub fn supports_present_mode(present_modes: &Vec<PresentMode>, mode: PresentMode) -> (r: bool)
    ensures
        r == present_modes@.contains(mode),
{
    let mut i: usize = 0;
    while i < present_modes.len()
        invariant
            i <= present_modes.len(),
            forall|k: int| 0 <= k < i ==> present_modes@[k] != mode,
        decreases present_modes.len() - i,
    {
        if present_modes[i] == mode {
            assert(present_modes@[i as int] == mode);
            return true;
        }
        i = i + 1;
    }
    false
}

/// Finds the fault, if any, that makes a request unserviceable (see
/// `request_fault`).
pub fn find_request_fault(
    caps: &SurfaceCapabilities,
    formats: &Option<Vec<Format>>,
    present_modes: &Vec<PresentMode>,
    image_count: u32,
    present_mode: PresentMode,
    usage: Usage,
) -> (fault: Option<RequestFault>)
    ensures
        fault == request_fault(*caps, opt_seq(*formats), present_modes@, image_count, present_mode, usage),
{
    if !supports_present_mode(present_modes, present_mode) {
        return None;
    }
    match formats {
        None => {
            return Some(RequestFault::FormatsUnknown);
        },
        Some(formats) => {
            if formats.len() == 0 {
                return Some(RequestFault::NoFormat);
            }
            if !are_formats_defined(formats) {
                return Some(RequestFault::UndefinedFormat);
            }
        },
    }
    if image_count < caps.image_count_start || image_count > caps.image_count_end {
        return None;
    }
    if !caps.usage.contains(&usage) {
        return Some(RequestFault::UsageNotSupported);
    }
    if pick_composite_alpha(&caps.composite_alpha).is_none() {
        return Some(RequestFault::NoCompositeAlpha);
    }
    None
}

/// Decides on a swapchain for a surface with capabilities `caps`, formats
/// `formats` and present modes `present_modes`, for `image_count` images
/// presented in `present_mode` and used as `usage`.
///
/// The request is refused when the present mode is not supported, and then
/// when the image count lies outside the supported range. An accepted
/// request gets the ideal format, the surface's own extent (or the suggested
/// one when the surface has none), a single layer and the first supported
/// alpha composition mode.
pub fn plan_swapchain(
    caps: &SurfaceCapabilities,
    formats: &Option<Vec<Format>>,
    present_modes: &Vec<PresentMode>,
    suggest_extent: Extent2D,
    image_count: u32,
    present_mode: PresentMode,
    usage: Usage,
) -> (r: Result<SwapchainConfig, SwapchainError>)
    requires
        request_fault(*caps, opt_seq(*formats), present_modes@, image_count, present_mode, usage) is None,
    ensures
        r == Err::<SwapchainConfig, SwapchainError>(SwapchainError::PresentModeNotSupported)
            <==> !present_modes@.contains(present_mode),
        r == Err::<SwapchainConfig, SwapchainError>(SwapchainError::ImageCountNotSupported)
            <==> present_modes@.contains(present_mode) && !image_count_supported(*caps, image_count),
        r is Ok <==> present_modes@.contains(present_mode) && image_count_supported(*caps, image_count),
        r matches Ok(config) ==> config == planned_config(
            *caps, opt_seq(*formats).unwrap(), suggest_extent, image_count, present_mode, usage),
        r matches Ok(config) ==> {
            &&& config.present_mode == present_mode
            &&& config.image_count == image_count
            &&& config.image_layers == 1
            &&& config.image_usage == usage
            &&& config.extent == (if caps.current_extent is Some { caps.current_extent.unwrap() } else { suggest_extent })
            &&& caps.composite_alpha.bits & config.composite_alpha.bits == config.composite_alpha.bits
        },
{
    if !supports_present_mode(present_modes, present_mode) {
        return Err(SwapchainError::PresentModeNotSupported);
    }
    let format = ideal_format(formats.as_ref().unwrap());
    if image_count < caps.image_count_start || image_count > caps.image_count_end {
        return Err(SwapchainError::ImageCountNotSupported);
    }
    let extent = match caps.current_extent {
        Some(extent) => extent,
        None => suggest_extent,
    };
    let composite_alpha = pick_composite_alpha(&caps.composite_alpha).unwrap();
    Ok(SwapchainConfig {
        present_mode,
        composite_alpha,
        format,
        extent,
        image_count,
        image_layers: 1,
        image_usage: usage,
    })
}

/// The supported image counts form a closed range: both of its ends are
/// accepted, and the counts just outside it are refused.
pub proof fn law_image_count_range_inclusive(caps: SurfaceCapabilities)
    requires
        caps.image_count_start <= caps.image_count_end,
    ensures
        image_count_supported(caps, caps.image_count_start),
        image_count_supported(caps, caps.image_count_end),
        caps.image_count_start > 0 ==> !image_count_supported(caps, (caps.image_count_start - 1) as u32),
        caps.image_count_end < u32::MAX ==> !image_count_supported(caps, (caps.image_count_end + 1) as u32),
{
}

/// The chosen alpha composition mode is a single mode the surface supports,
/// and the window system's own mode is taken whenever it is supported.
pub proof fn law_composite_alpha_supported(supported: CompositeAlpha)
    ensures
        preferred_composite_alpha(supported) matches Some(mode) ==> supported.supports(mode.bits),
        preferred_composite_alpha(supported) matches Some(mode) ==> (
            mode.bits == COMPOSITE_ALPHA_INHERIT || mode.bits == COMPOSITE_ALPHA_OPAQUE
            || mode.bits == COMPOSITE_ALPHA_PREMULTIPLIED || mode.bits == COMPOSITE_ALPHA_POSTMULTIPLIED),
        supported.supports(COMPOSITE_ALPHA_INHERIT) ==> preferred_composite_alpha(supported)
            == Some(CompositeAlpha { bits: COMPOSITE_ALPHA_INHERIT }),
        (supported.bits & 0xf) == 0 ==> preferred_composite_alpha(supported) is None,
{
    let b = supported.bits;
    assert((b & 0xf) == 0 ==> (b & 8) != 8 && (b & 1) != 1 && (b & 2) != 2 && (b & 4) != 4) by (bit_vector);
}

/// The surface's own size wins over the suggested one; the suggestion is
/// taken only for a surface without a size of its own.
pub proof fn law_current_extent_wins(caps: SurfaceCapabilities, suggest_extent: Extent2D)
    ensures
        caps.current_extent matches Some(extent) ==> swapchain_extent(caps, suggest_extent) == extent,
        caps.current_extent is None ==> swapchain_extent(caps, suggest_extent) == suggest_extent,
{
}

/// An accepted plan configures exactly what was requested: the requested
/// present mode, image count and usage, one layer, the surface's own extent
/// (or the suggested one when it has none), a format among those offered,
/// and an alpha composition mode the surface supports.
pub proof fn law_planned_config_follows_request(
    caps: SurfaceCapabilities,
    formats: Seq<Format>,
    suggest_extent: Extent2D,
    image_count: u32,
    present_mode: PresentMode,
    usage: Usage,
)
    requires
        formats.len() > 0,
        preferred_composite_alpha(caps.composite_alpha) is Some,
    ensures ({
        let config = planned_config(caps, formats, suggest_extent, image_count, present_mode, usage);
        &&& config.present_mode == present_mode
        &&& config.image_count == image_count
        &&& config.image_usage == usage
        &&& config.image_layers == 1
        &&& config.extent == (if caps.current_extent is Some { caps.current_extent.unwrap() } else { suggest_extent })
        &&& formats.contains(config.format)
        &&& caps.composite_alpha.bits & config.composite_alpha.bits == config.composite_alpha.bits
    }),
{
    crate::format::lemma_ideal_index_is_last_maximum(format_infos(formats));
    let i = ideal_index(format_infos(formats));
    assert(formats[i] == planned_config(caps, formats, suggest_extent, image_count, present_mode, usage).format);
}

/// A request whose usage holds a flag the surface's usage lacks is a fault,
/// and only then, once the present mode is supported, the formats are
/// known, offered and defined, and the image count is supported.
pub proof fn law_usage_fault_exactly_when_flag_missing(
    caps: SurfaceCapabilities,
    formats: Seq<Format>,
    present_modes: Seq<PresentMode>,
    image_count: u32,
    present_mode: PresentMode,
    usage: Usage,
)
    requires
        present_modes.contains(present_mode),
        formats.len() > 0,
        formats_defined(formats),
        caps.image_count_start <= image_count <= caps.image_count_end,
    ensures
        (request_fault(caps, Some(formats), present_modes, image_count, present_mode, usage)
            == Some(RequestFault::UsageNotSupported)) <==> (caps.usage.bits & usage.bits != usage.bits),
{
}

/// The alpha composition mode chosen is a supported one of the four modes,
/// and every mode before it in the order inherit, opaque, premultiplied,
/// postmultiplied is unsupported; none is chosen only when none of the four
/// is supported.
pub proof fn law_composite_alpha_first_supported(supported: CompositeAlpha)
    ensures
        preferred_composite_alpha(supported) matches Some(mode) ==> {
            let b = supported.bits;
            &&& b & mode.bits == mode.bits
            &&& (mode.bits == COMPOSITE_ALPHA_INHERIT || mode.bits == COMPOSITE_ALPHA_OPAQUE
                || mode.bits == COMPOSITE_ALPHA_PREMULTIPLIED || mode.bits == COMPOSITE_ALPHA_POSTMULTIPLIED)
            &&& mode.bits != COMPOSITE_ALPHA_INHERIT ==> b & 0x8 != 0x8
            &&& (mode.bits == COMPOSITE_ALPHA_PREMULTIPLIED || mode.bits == COMPOSITE_ALPHA_POSTMULTIPLIED) ==> b & 0x1 != 0x1
            &&& mode.bits == COMPOSITE_ALPHA_POSTMULTIPLIED ==> b & 0x2 != 0x2
        },
        preferred_composite_alpha(supported) is None ==> {
            let b = supported.bits;
            b & 0x8 != 0x8 && b & 0x1 != 0x1 && b & 0x2 != 0x2 && b & 0x4 != 0x4
        },
{
}

} // verus!
