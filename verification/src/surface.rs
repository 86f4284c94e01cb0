//! Plain-value descriptions of what the window surface reports: its extent
//! and the presentation parameters the capability probe returns.

use vstd::prelude::*;

verus! {

/// Width and height of the window surface, in pixels.
#[derive(Clone, Copy, Debug, PartialEq, Eq, Structural)]
pub struct Extent2D {
    pub width: u32,
    pub height: u32,
}

impl Extent2D {
    /// A degenerate extent (a minimized window) cannot back a swapchain.
    pub open spec fn spec_is_degenerate(&self) -> bool {
        self.width == 0 || self.height == 0
    }

    #[verifier::when_used_as_spec(spec_is_degenerate)]
    pub fn is_degenerate(&self) -> (r: bool)
        ensures
            r == self.spec_is_degenerate(),
    {
        self.width == 0 || self.height == 0
    }
}

/// One supported (pixel format, color space) pair, by their numeric codes.
#[derive(Clone, Copy, Debug, PartialEq, Eq, Structural)]
pub struct SurfaceFormat {
    pub format: u32,
    pub color_space: u32,
}

/// How the surface's alpha channel is composited with the rest of the screen.
#[derive(Clone, Copy, Debug, PartialEq, Eq, Structural)]
pub enum CompositeAlpha {
    Opaque,
    PreMultiplied,
    PostMultiplied,
    Inherit,
}

/// Order in which rendered images are handed to the presentation engine.
#[derive(Clone, Copy, Debug, PartialEq, Eq, Structural)]
pub enum PresentMode {
    Immediate,
    Mailbox,
    Fifo,
    Relaxed,
}

/// Transform applied to the image before presentation.
#[derive(Clone, Copy, Debug, PartialEq, Eq, Structural)]
pub enum SurfaceTransform {
    Identity,
    Rotate90,
    Rotate180,
    Rotate270,
    HorizontalMirror,
    HorizontalMirrorRotate90,
    HorizontalMirrorRotate180,
    HorizontalMirrorRotate270,
    Inherit,
}

/// What the capability probe reports for a device/surface pairing.
#[derive(Clone, Debug)]
pub struct SurfaceCapabilities {
    pub min_image_count: u32,
    pub supported_formats: Vec<SurfaceFormat>,
    pub supported_composite_alpha: Vec<CompositeAlpha>,
    pub supported_present_modes: Vec<PresentMode>,
    pub current_extent: Extent2D,
}

} // verus!
