//! Choosing a swapchain configuration from the probed surface capabilities,
//! and the trait through which a host actually builds the chain.

use vstd::prelude::*;
use crate::surface::{CompositeAlpha, Extent2D, PresentMode, SurfaceCapabilities, SurfaceFormat,
    SurfaceTransform};

verus! {

/// Everything the presentation engine needs to build a chain of presentable
/// images: how many, in which format, at which size, and how they are
/// composited, transformed and presented.
#[derive(Clone, Copy, Debug, PartialEq, Eq, Structural)]
pub struct SwapchainConfig {
    pub image_count: u32,
    pub format: SurfaceFormat,
    pub extent: Extent2D,
    pub layers: u32,
    pub transform: SurfaceTransform,
    pub composite_alpha: CompositeAlpha,
    pub present_mode: PresentMode,
    pub clipped: bool,
}

/// The chain of presentable images as the presentation engine built it: the
/// number of images it holds and their common extent. The engine may clamp
/// the requested extent to what the surface currently supports, and may
/// allocate more images than the requested minimum, so both are reported
/// back rather than assumed.
#[derive(Clone, Copy, Debug, PartialEq, Eq, Structural)]
pub struct Swapchain {
    pub image_count: usize,
    pub extent: Extent2D,
}

/// Why building a swapchain failed.
///
/// `UnsupportedDimensions` is the one recoverable case: the surface is
/// momentarily degenerate (a minimized window) and the caller should skip the
/// frame and retry on the next resize. Everything else is fatal.
#[derive(Clone, Copy, Debug, PartialEq, Eq, Structural)]
pub enum SwapchainCreationError {
    /// The requested extent has zero width or height.
    UnsupportedDimensions,
    /// The capability probe reported no usable composite-alpha mode or no
    /// usable format, so no configuration can be chosen at all.
    UnsupportedCompositeAlpha,
    /// The presentation engine failed for another reason (allocation failure,
    /// device lost).
    Failed,
}

/// Builds the chain of presentable images. A host implements this against the
/// real presentation engine; when the render state asks for a new chain while
/// it already holds one, the implementation must build the new chain as the
/// logical successor of the current one, and must not tear the current one
/// down before the new chain is live.
pub trait SwapchainFactory {
    /// Build or rebuild the chain to `config` and report what was built.
    fn create_swapchain(&mut self, config: &SwapchainConfig) -> Result<
        Swapchain,
        SwapchainCreationError,
    >;
}

/// The default configuration policy: the fewest images the surface supports,
/// the first reported format and composite-alpha mode, strict first-in
/// first-out presentation, and no transform.
#[derive(Clone, Copy, Debug, PartialEq, Eq, Structural)]
pub struct DefaultSwapchainFactory {}

/// The configuration `DefaultSwapchainFactory` chooses for the given
/// capabilities and surface size, or the error it reports instead.
pub open spec fn spec_plan(caps: SurfaceCapabilities, dimensions: Extent2D) -> Result<
    SwapchainConfig,
    SwapchainCreationError,
> {
    if caps.supported_composite_alpha@.len() == 0 {
        Err(SwapchainCreationError::UnsupportedCompositeAlpha)
    } else if caps.supported_formats@.len() == 0 {
        Err(SwapchainCreationError::UnsupportedCompositeAlpha)
    } else if dimensions.spec_is_degenerate() {
        Err(SwapchainCreationError::UnsupportedDimensions)
    } else {
        Ok(
            SwapchainConfig {
                image_count: caps.min_image_count,
                format: caps.supported_formats@[0],
                extent: dimensions,
                layers: 1,
                transform: SurfaceTransform::Identity,
                composite_alpha: caps.supported_composite_alpha@[0],
                present_mode: PresentMode::Fifo,
                clipped: true,
            },
        )
    }
}

impl DefaultSwapchainFactory {
    pub fn new() -> (r: DefaultSwapchainFactory)
        ensures
            r == (DefaultSwapchainFactory {}),
    {
        DefaultSwapchainFactory {}
    }

    /// Choose a swapchain configuration for the given capabilities and
    /// desired surface size.
    ///
    /// An empty format list is reported as `UnsupportedCompositeAlpha` as
    /// well: either empty list means the probe found no way to present at
    /// all, which is fatal. A degenerate extent is the recoverable
    /// `UnsupportedDimensions`.
    pub fn plan_swapchain(&self, caps: &SurfaceCapabilities, dimensions: Extent2D) -> (r: Result<
        SwapchainConfig,
        SwapchainCreationError,
    >)
        ensures
            r == spec_plan(*caps, dimensions),
    {
        if caps.supported_composite_alpha.len() == 0 {
            Err(SwapchainCreationError::UnsupportedCompositeAlpha)
        } else if caps.supported_formats.len() == 0 {
            Err(SwapchainCreationError::UnsupportedCompositeAlpha)
        } else if dimensions.is_degenerate() {
            Err(SwapchainCreationError::UnsupportedDimensions)
        } else {
            Ok(
                SwapchainConfig {
                    image_count: caps.min_image_count,
                    format: caps.supported_formats[0],
                    extent: dimensions,
                    layers: 1,
                    transform: SurfaceTransform::Identity,
                    composite_alpha: caps.supported_composite_alpha[0],
                    present_mode: PresentMode::Fifo,
                    clipped: true,
                },
            )
        }
    }
}

} // verus!
