//! Decision logic of a Vulkan bootstrap sequence: which diagnostic layers to
//! enable, how diagnostic messages are routed, which physical device and queue
//! family to use, which swapchain parameters a surface admits, and when the
//! window loop ends.

pub mod device;
pub mod diagnostics;
pub mod event_loop;
pub mod swapchain;
pub mod validation;

pub use device::{DeviceInfo, DeviceRequest, DeviceType, PhysicalDeviceSummary};
pub use swapchain::{Extent, SurfaceCapabilities, SwapchainConfig};
pub use validation::{InstanceSettings, LayerDecision, LayerOutcome, ValidationConfig, Version};
