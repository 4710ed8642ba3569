//! Window system integration: choosing a swapchain configuration for a
//! surface, and the life cycle of a render target bound to a window.

pub mod format;
pub mod swapchain;
pub mod target;

pub use format::ideal_format;
pub use swapchain::plan_swapchain;
pub use swapchain::Extent2D;
pub use swapchain::PresentMode;
pub use swapchain::SwapchainConfig;
pub use target::NextImages;
pub use target::Surface;
pub use target::Target;
