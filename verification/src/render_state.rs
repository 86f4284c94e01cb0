//! The stateful core: the current swapchain, its framebuffers and viewport
//! state, rebuilt atomically whenever the surface changes.

use vstd::prelude::*;
use crate::app::AppError;
use crate::frame::{AcquireError, AcquireOutcome, FrameQueue};
use crate::framebuffer::{
    DynamicState, Framebuffer, FramebufferCreationError, FramebufferFactory, Viewport,
    viewport_for,
};
use crate::surface::{Extent2D, SurfaceCapabilities};
use crate::swapchain::{
    DefaultSwapchainFactory, Swapchain, SwapchainConfig, SwapchainCreationError, SwapchainFactory,
    spec_plan,
};

verus! {

/// What a successful acquisition hands the caller: which image to render
/// into, the render target bound to it, and whether the chain should be
/// recreated once this frame has been presented.
#[derive(Clone, Copy, Debug, PartialEq, Eq, Structural)]
pub struct AcquireResult {
    pub image_index: usize,
    pub suboptimal: bool,
    pub framebuffer: Framebuffer,
}

/// The abstract value of a [`RenderState`].
#[verifier::ext_equal]
pub ghost struct RenderStateView {
    pub swapchain: Swapchain,
    pub framebuffers: Seq<Framebuffer>,
    pub viewports: Option<Seq<Viewport>>,
    pub config: SwapchainConfig,
}

/// The render targets of a chain `chain`: one framebuffer per image, each
/// bound to its own image, all at the chain's extent.
pub open spec fn spec_framebuffers_for(chain: Swapchain) -> Seq<Framebuffer> {
    Seq::new(
        chain.image_count as nat,
        |i: int| Framebuffer { image_index: i as usize, extent: chain.extent },
    )
}

/// The chain-dependent part of the state right after a chain `chain` built to
/// `config` has been installed: one framebuffer per image, all at the chain's
/// extent, and a single full-image viewport.
pub open spec fn spec_installed(config: SwapchainConfig, chain: Swapchain) -> RenderStateView {
    RenderStateView {
        swapchain: chain,
        framebuffers: spec_framebuffers_for(chain),
        viewports: Some(seq![viewport_for(chain.extent)]),
        config,
    }
}

/// Every reachable render state is well formed: construction and recreation
/// only ever leave the state with a freshly installed chain (or, on failure,
/// with the previous installed chain kept), and an installed chain always has
/// exactly one framebuffer per swapchain image, every framebuffer at the
/// chain's extent, and the single viewport sized to it.
pub proof fn lemma_installed_well_formed(s: RenderState, config: SwapchainConfig, chain: Swapchain)
    requires
        chain.image_count >= 1,
        s@ == spec_installed(config, chain),
    ensures
        s.wf(),
        s@.framebuffers.len() == s.swapchain.image_count,
        forall|i: int|
            0 <= i < s@.framebuffers.len() ==> (#[trigger] s@.framebuffers[i]).extent
                == s.swapchain.extent,
{
}

/// Recreation is a stable fixed point for a stable surface. The state a
/// recreation installs is a function of the requested extent and the chain
/// the engine answers with alone; so when nothing intervenes — the surface
/// reports the same extent and the engine builds the same chain — a second
/// recreation reproduces the first one's state exactly, image extent and
/// framebuffer count included.
pub proof fn lemma_recreate_idempotent(
    before: RenderStateView,
    after_first: RenderStateView,
    after_second: RenderStateView,
    extent: Extent2D,
    chain: Swapchain,
)
    requires
        after_first == spec_installed(
            SwapchainConfig { extent, ..before.config },
            chain,
        ),
        after_second == spec_installed(
            SwapchainConfig { extent, ..after_first.config },
            chain,
        ),
    ensures
        after_second == after_first,
        after_second.swapchain.extent == after_first.swapchain.extent,
        after_second.framebuffers.len() == after_first.framebuffers.len(),
{
    assert(after_first.config == (SwapchainConfig { extent, ..before.config }));
    assert((SwapchainConfig { extent, ..after_first.config }) == after_first.config);
}

/// Owns the swapchain, one framebuffer per swapchain image, and the viewport
/// state sized to the images. Whenever the chain is rebuilt, all three are
/// swapped in together: no caller ever observes a new chain with stale
/// framebuffers, and on any failure the previous, still-valid state is kept
/// exactly as it was.
#[derive(Clone, Debug)]
pub struct RenderState {
    pub swapchain: Swapchain,
    pub framebuffers: Vec<Framebuffer>,
    pub dynamic_state: DynamicState,
    /// The configuration the current chain was requested with; recreation
    /// reuses it with the surface's new extent.
    pub config: SwapchainConfig,
}

impl View for RenderState {
    type V = RenderStateView;

    open spec fn view(&self) -> RenderStateView {
        RenderStateView {
            swapchain: self.swapchain,
            framebuffers: self.framebuffers@,
            viewports: match self.dynamic_state.viewports {
                Some(v) => Some(v@),
                None => None,
            },
            config: self.config,
        }
    }
}

impl RenderState {
    /// The structural invariant: the chain is never empty, there is exactly
    /// one framebuffer per swapchain image, every framebuffer is bound to its
    /// own image at the chain's extent, and the single viewport covers
    /// exactly one image.
    pub open spec fn wf(&self) -> bool {
        &&& self.swapchain.image_count >= 1
        &&& self@.framebuffers.len() == self.swapchain.image_count
        &&& forall|i: int|
            0 <= i < self@.framebuffers.len() ==> #[trigger] self@.framebuffers[i] == (Framebuffer {
                image_index: i as usize,
                extent: self.swapchain.extent,
            })
        &&& self@.viewports matches Some(v) && v.len() == 1 && v[0] == viewport_for(
            self.swapchain.extent,
        )
    }

    /// Build the render targets of a fresh chain: exactly one framebuffer per
    /// image, in image order, stopping at the first image whose target the
    /// factory cannot build — in which case the whole batch fails with that
    /// first error and no partial set is returned. Also recomputes the
    /// viewport state: a single viewport at the origin, sized to the chain's
    /// extent, which every image shares.
    pub fn create_frame_buffers<F: FramebufferFactory>(
        factory: &mut F,
        chain: &Swapchain,
        dynamic_state: &mut DynamicState,
    ) -> (r: Result<Vec<Framebuffer>, FramebufferCreationError>)
        requires
            chain.image_count >= 1,
        ensures
            final(dynamic_state).viewports matches Some(v) && v@ == seq![
                viewport_for(chain.extent),
            ],
            r matches Ok(fbs) ==> fbs@ == spec_framebuffers_for(*chain),
    {
        let viewport = Viewport {
            origin_x: 0,
            origin_y: 0,
            width: chain.extent.width,
            height: chain.extent.height,
        };
        let mut viewports: Vec<Viewport> = Vec::new();
        viewports.push(viewport);
        proof {
            assert(viewports@ =~= seq![viewport_for(chain.extent)]);
        }
        dynamic_state.viewports = Some(viewports);

        let mut framebuffers: Vec<Framebuffer> = Vec::new();
        let mut i: usize = 0;
        while i < chain.image_count
            invariant
                i <= chain.image_count,
                dynamic_state.viewports matches Some(v) && v@ == seq![viewport_for(chain.extent)],
                framebuffers@.len() == i,
                forall|j: int|
                    0 <= j < i ==> #[trigger] framebuffers@[j] == (Framebuffer {
                        image_index: j as usize,
                        extent: chain.extent,
                    }),
            decreases chain.image_count - i,
        {
            match factory.create_framebuffer(i, chain.extent) {
                Ok(()) => {},
                Err(e) => {
                    return Err(e);
                },
            }
            framebuffers.push(Framebuffer { image_index: i, extent: chain.extent });
            i = i + 1;
        }
        proof {
            assert(framebuffers@ =~= spec_framebuffers_for(*chain));
        }
        Ok(framebuffers)
    }

    /// Take the factory's answer to a chain request and install it: an
    /// engine error is handed through as `Swapchain`, a chain with no images
    /// is rejected as `EmptyImageChain`, and a usable chain has its render
    /// targets built and swapped into `self` together with it — so the value
    /// of every outcome is fixed here, one call below the function that asks
    /// the engine. On every failure `self` is left exactly as it was.
    pub fn install_chain<F: FramebufferFactory>(
        &mut self,
        factory: &mut F,
        config: SwapchainConfig,
        answer: Result<Swapchain, SwapchainCreationError>,
    ) -> (r: Result<(), AppError>)
        ensures
            r is Err ==> *final(self) == *old(self),
            answer matches Err(e) ==> r == Err::<(), AppError>(AppError::Swapchain(e)),
            answer matches Ok(chain) ==> {
                &&& chain.image_count == 0 ==> r == Err::<(), AppError>(AppError::EmptyImageChain)
                &&& chain.image_count >= 1 ==> {
                    &&& r matches Err(e) ==> e is Framebuffer
                    &&& r is Ok ==> final(self)@ =~= spec_installed(config, chain)
                }
            },
            r is Ok ==> final(self).wf() && final(self)@.config == config,
    {
        let chain = match answer {
            Ok(chain) => chain,
            Err(e) => {
                return Err(AppError::Swapchain(e));
            },
        };
        if chain.image_count == 0 {
            return Err(AppError::EmptyImageChain);
        }
        let mut dynamic_state = DynamicState::new();
        let framebuffers = match Self::create_frame_buffers(factory, &chain, &mut dynamic_state) {
            Ok(fbs) => fbs,
            Err(e) => {
                return Err(AppError::Framebuffer(e));
            },
        };
        self.swapchain = chain;
        self.framebuffers = framebuffers;
        self.dynamic_state = dynamic_state;
        self.config = config;
        proof {
            assert(self@ =~= spec_installed(config, chain));
        }
        Ok(())
    }

    /// Build the initial render state for a chain configured as `config`:
    /// have the factory build the chain, then its render targets, and enter
    /// the well-formed state with all of them installed together. What is
    /// made of each possible factory answer is fixed by [`Self::install_chain`],
    /// through which the answer flows.
    pub fn new_with_config<F: SwapchainFactory + FramebufferFactory>(
        factory: &mut F,
        config: SwapchainConfig,
    ) -> (r: Result<RenderState, AppError>)
        ensures
            config.extent.spec_is_degenerate() ==> r == Err::<RenderState, AppError>(
                AppError::Swapchain(SwapchainCreationError::UnsupportedDimensions),
            ),
            r matches Ok(s) ==> {
                &&& s.wf()
                &&& s@.config == config
                &&& exists|chain: Swapchain|
                    chain.image_count >= 1 && s@ =~= #[trigger] spec_installed(config, chain)
            },
    {
        if config.extent.is_degenerate() {
            return Err(AppError::Swapchain(SwapchainCreationError::UnsupportedDimensions));
        }
        let answer = factory.create_swapchain(&config);
        let mut state = RenderState {
            swapchain: Swapchain { image_count: 0, extent: config.extent },
            framebuffers: Vec::new(),
            dynamic_state: DynamicState::new(),
            config,
        };
        match state.install_chain(factory, config, answer) {
            Ok(()) => Ok(state),
            Err(e) => Err(e),
        }
    }

    /// Build the initial render state: choose a configuration for the probed
    /// capabilities and desired size with the default policy, then install
    /// the chain it describes. Fails exactly as the policy does when no
    /// configuration can be chosen.
    pub fn new<F: SwapchainFactory + FramebufferFactory>(
        factory: &mut F,
        caps: &SurfaceCapabilities,
        dimensions: Extent2D,
    ) -> (r: Result<RenderState, AppError>)
        ensures
            spec_plan(*caps, dimensions) matches Err(e) ==> r == Err::<RenderState, AppError>(
                AppError::Swapchain(e),
            ),
            r matches Ok(s) ==> {
                &&& s.wf()
                &&& spec_plan(*caps, dimensions) matches Ok(c) && s@.config == c
                &&& exists|chain: Swapchain|
                    chain.image_count >= 1 && s@ =~= #[trigger] spec_installed(s@.config, chain)
            },
    {
        let planner = DefaultSwapchainFactory::new();
        let config = match planner.plan_swapchain(caps, dimensions) {
            Ok(config) => config,
            Err(e) => {
                return Err(AppError::Swapchain(e));
            },
        };
        Self::new_with_config(factory, config)
    }

    /// Rebuild the chain for the surface's current extent, chained from the
    /// present one, and swap chain, framebuffers and viewport state in
    /// together. On a degenerate extent this fails with the recoverable
    /// `UnsupportedDimensions` signal; on this and every other failure the
    /// previous, still-valid state is left exactly as it was. What is made
    /// of each possible factory answer is fixed by [`Self::install_chain`],
    /// through which the answer flows.
    pub fn recreate<F: SwapchainFactory + FramebufferFactory>(
        &mut self,
        factory: &mut F,
        current_extent: Extent2D,
    ) -> (r: Result<(), AppError>)
        requires
            old(self).wf(),
        ensures
            final(self).wf(),
            r is Err ==> *final(self) == *old(self),
            current_extent.spec_is_degenerate() ==> r == Err::<(), AppError>(
                AppError::Swapchain(SwapchainCreationError::UnsupportedDimensions),
            ),
            r is Ok ==> {
                &&& final(self)@.config == (SwapchainConfig {
                    extent: current_extent,
                    ..old(self)@.config
                })
                &&& exists|chain: Swapchain|
                    chain.image_count >= 1 && final(self)@ =~= #[trigger] spec_installed(
                        final(self)@.config,
                        chain,
                    )
            },
    {
        let config = SwapchainConfig { extent: current_extent, ..self.config };
        if current_extent.is_degenerate() {
            return Err(AppError::Swapchain(SwapchainCreationError::UnsupportedDimensions));
        }
        let answer = factory.create_swapchain(&config);
        self.install_chain(factory, config, answer)
    }

    /// What each possible acquisition answer from the engine becomes: an
    /// error is handed through unchanged; an acquired index within the chain
    /// has its index and suboptimal flag passed through with the framebuffer
    /// bound to exactly that image attached; an index beyond the chain is
    /// the fatal contract violation `ImageOutOfRange`.
    pub fn resolve_acquired_image(&self, answer: Result<AcquireOutcome, AcquireError>) -> (r:
        Result<AcquireResult, AcquireError>)
        requires
            self.wf(),
        ensures
            answer matches Err(e) ==> r == Err::<AcquireResult, AcquireError>(e),
            answer matches Ok(o) ==> {
                &&& o.image_index < self@.framebuffers.len() ==> r == Ok::<
                    AcquireResult,
                    AcquireError,
                >(
                    AcquireResult {
                        image_index: o.image_index,
                        suboptimal: o.suboptimal,
                        framebuffer: self@.framebuffers[o.image_index as int],
                    },
                )
                &&& o.image_index >= self@.framebuffers.len() ==> r == Err::<
                    AcquireResult,
                    AcquireError,
                >(AcquireError::ImageOutOfRange)
            },
    {
        let outcome = match answer {
            Ok(outcome) => outcome,
            Err(e) => {
                return Err(e);
            },
        };
        if outcome.image_index < self.framebuffers.len() {
            let framebuffer = self.framebuffers[outcome.image_index];
            Ok(
                AcquireResult {
                    image_index: outcome.image_index,
                    suboptimal: outcome.suboptimal,
                    framebuffer,
                },
            )
        } else {
            Err(AcquireError::ImageOutOfRange)
        }
    }

    /// Ask the presentation engine for the next presentable image and hand
    /// back its index, the framebuffer bound to it, and whether the chain
    /// should be recreated after this frame is presented. An out-of-date
    /// answer is recoverable — the caller recreates and retries — and leaves
    /// the state untouched. What each possible engine answer becomes is
    /// fixed by [`Self::resolve_acquired_image`], through which it flows.
    pub fn acquire_next_image<Q: FrameQueue>(&self, queue: &mut Q) -> (r: Result<
        AcquireResult,
        AcquireError,
    >)
        requires
            self.wf(),
        ensures
            r matches Ok(a) ==> {
                &&& a.image_index < self@.framebuffers.len()
                &&& a.framebuffer == self@.framebuffers[a.image_index as int]
                &&& a.framebuffer.image_index == a.image_index
                &&& a.framebuffer.extent == self.swapchain.extent
            },
    {
        let answer = queue.acquire_next_image();
        self.resolve_acquired_image(answer)
    }
}

} // verus!
