//! Frame-lifecycle core for a windowed, GPU-accelerated rendering loop.
//!
//! The crate owns the decisions of the render loop: how a swapchain
//! configuration is chosen from the probed surface capabilities, how the
//! render state (swapchain, framebuffers, viewport) is rebuilt atomically on
//! resize or when the presentation engine reports the chain out of date, and
//! how the per-frame completion token is consumed and replaced so that no
//! frame ever starts without a synchronization anchor.
//!
//! Everything that talks to the GPU or the window system (instance, device
//! and queue creation, the actual swapchain and framebuffer objects, the
//! event pump) sits behind small traits that a host implements; the state
//! machine here is verified for every behaviour of those implementations.

pub mod app;
pub mod frame;
pub mod framebuffer;
pub mod logger;
pub mod render_state;
pub mod surface;
pub mod swapchain;
pub mod vulkan_device_factories;

pub use surface::Extent2D;
