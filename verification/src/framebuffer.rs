//! Per-image render targets and the viewport state that must match their
//! extent, as the render state tracks them.

use vstd::prelude::*;
use crate::surface::Extent2D;

verus! {

/// The screen rectangle rendering is mapped to. It always covers one whole
/// swapchain image: origin at the top-left corner, dimensions equal to the
/// image extent.
#[derive(Clone, Copy, Debug, PartialEq, Eq, Structural)]
pub struct Viewport {
    pub origin_x: u32,
    pub origin_y: u32,
    pub width: u32,
    pub height: u32,
}

/// The full-image viewport for images of extent `extent`.
pub open spec fn viewport_for(extent: Extent2D) -> Viewport {
    Viewport { origin_x: 0, origin_y: 0, width: extent.width, height: extent.height }
}

/// The runtime-configurable pipeline state that is recomputed whenever the
/// image dimensions change. Freshly constructed it holds no viewports; the
/// framebuffer builder fills in exactly one, sized to the image extent.
#[derive(Clone, Debug)]
pub struct DynamicState {
    pub viewports: Option<Vec<Viewport>>,
}

impl DynamicState {
    pub fn new() -> (r: DynamicState)
        ensures
            r.viewports is None,
    {
        DynamicState { viewports: None }
    }
}

/// One entry of the image chain: the render target bound to the swapchain
/// image at `image_index`, with the extent it was built at.
#[derive(Clone, Copy, Debug, PartialEq, Eq, Structural)]
pub struct Framebuffer {
    pub image_index: usize,
    pub extent: Extent2D,
}

/// Why building one framebuffer failed. Every variant is fatal: a chain whose
/// render targets cannot be built is unusable.
#[derive(Clone, Copy, Debug, PartialEq, Eq, Structural)]
pub enum FramebufferCreationError {
    OutOfMemory,
    /// The image cannot serve as the color attachment of the render pass.
    Incompatible,
}

/// Builds one render target per swapchain image. A host implements this
/// against the real device, binding the image at `image_index` to the single
/// color attachment of its render pass.
pub trait FramebufferFactory {
    fn create_framebuffer(&mut self, image_index: usize, extent: Extent2D) -> Result<
        (),
        FramebufferCreationError,
    >;
}

} // verus!
