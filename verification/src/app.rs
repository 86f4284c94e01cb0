//! The event-loop decisions: what the application does with each window
//! event, and the error taxonomy its handlers report back.

use vstd::prelude::*;
use crate::frame::AcquireError;
use crate::framebuffer::FramebufferCreationError;
use crate::swapchain::SwapchainCreationError;

verus! {

/// Everything a render-state operation or an event handler can fail with.
#[derive(Clone, Copy, Debug, PartialEq, Eq, Structural)]
pub enum AppError {
    Swapchain(SwapchainCreationError),
    Framebuffer(FramebufferCreationError),
    Acquire(AcquireError),
    /// The presentation engine reported a chain with no images in it. The
    /// render state would be unusable, so this is fatal.
    EmptyImageChain,
}

impl AppError {
    /// The one error that is expected in normal operation: the surface is
    /// momentarily degenerate (a minimized window). The caller skips the
    /// frame and retries on the next event instead of failing.
    pub open spec fn spec_is_non_fatal(&self) -> bool {
        *self == AppError::Swapchain(SwapchainCreationError::UnsupportedDimensions)
    }

    #[verifier::when_used_as_spec(spec_is_non_fatal)]
    pub fn is_non_fatal(&self) -> (r: bool)
        ensures
            r == self.spec_is_non_fatal(),
    {
        matches!(self, AppError::Swapchain(SwapchainCreationError::UnsupportedDimensions))
    }
}

/// How often the application wants its update callback to run.
#[derive(Clone, Copy, Debug, PartialEq, Eq, Structural)]
pub enum UpdateFrequency {
    /// only update when an event needs to be handled (appropriate for
    /// GUI/static apps)
    OnEvent,
    /// continually run the update loop (appropriate for game-type apps)
    Continuous,
}

/// A window event as the dispatcher sees it. `ours` says whether the event
/// belongs to the application's own window; events of other windows are
/// ignored.
#[derive(Clone, Copy, Debug, PartialEq, Eq, Structural)]
pub enum AppEvent {
    CloseRequested { ours: bool },
    Resized { ours: bool, width: u32, height: u32 },
    RedrawEventsCleared,
    Other,
}

/// What the event loop is told to do after an event is handled.
#[derive(Clone, Copy, Debug, PartialEq, Eq, Structural)]
pub enum ControlFlow {
    /// Run again immediately (continuous updates).
    Poll,
    /// Sleep until the next event.
    Wait,
    /// Leave the event loop.
    Exit,
}

/// The application's per-event callbacks. The host's event pump forwards its
/// events here through [`dispatch_event`].
pub trait AppEventHandler {
    /// (will only be run for continuous apps)
    fn on_update(&mut self) {
    }

    fn on_window_resize(&mut self, width: u32, height: u32) -> Result<(), AppError>;

    fn on_redraw(&mut self) -> Result<(), AppError>;

    /// The window is closing. The handler must drain all in-flight GPU work
    /// before it returns — nothing the GPU still references may be destroyed
    /// under it — after which the loop exits.
    fn on_close(&mut self);
}

/// The flow an uneventful iteration settles to: poll again for continuous
/// applications, sleep for event-driven ones.
pub open spec fn spec_base_flow(update_frequency: UpdateFrequency) -> ControlFlow {
    match update_frequency {
        UpdateFrequency::Continuous => ControlFlow::Poll,
        UpdateFrequency::OnEvent => ControlFlow::Wait,
    }
}

/// What one event left behind: the control flow for the loop, and the
/// handler's error if it failed (in which case the loop is told to exit).
#[derive(Clone, Copy, Debug, PartialEq, Eq, Structural)]
pub struct DispatchOutcome {
    pub control_flow: ControlFlow,
    pub error: Option<AppError>,
}

/// Dispatch one window event to the handler and decide how the loop goes on:
/// a close request for our window runs the handler's close hook — which
/// drains in-flight GPU work — and only then exits the loop; a resize of our
/// window and a redraw round go to the handler, and a handler failure exits
/// the loop carrying the error; everything else leaves the loop in its base
/// flow.
pub fn dispatch_event<H: AppEventHandler>(
    handler: &mut H,
    update_frequency: UpdateFrequency,
    event: AppEvent,
) -> (r: DispatchOutcome)
    ensures
        r.error is Some ==> r.control_flow == ControlFlow::Exit,
        event matches AppEvent::CloseRequested { ours: true } ==> r == (DispatchOutcome {
            control_flow: ControlFlow::Exit,
            error: None,
        }),
        r.error is None && !(event matches AppEvent::CloseRequested { ours: true })
            ==> r.control_flow == spec_base_flow(update_frequency),
        match event {
            AppEvent::Resized { ours: true, .. } | AppEvent::RedrawEventsCleared => true,
            _ => r.error is None,
        },
{
    match update_frequency {
        UpdateFrequency::Continuous => handler.on_update(),
        UpdateFrequency::OnEvent => {},
    }
    let base_flow = match update_frequency {
        UpdateFrequency::Continuous => ControlFlow::Poll,
        UpdateFrequency::OnEvent => ControlFlow::Wait,
    };
    let result: Result<(), AppError> = match event {
        AppEvent::CloseRequested { ours: true } => {
            handler.on_close();
            return DispatchOutcome { control_flow: ControlFlow::Exit, error: None };
        },
        AppEvent::Resized { ours: true, width, height } => handler.on_window_resize(
            width,
            height,
        ),
        AppEvent::RedrawEventsCleared => handler.on_redraw(),
        _ => Ok(()),
    };
    match result {
        Ok(()) => DispatchOutcome { control_flow: base_flow, error: None },
        Err(e) => DispatchOutcome { control_flow: ControlFlow::Exit, error: Some(e) },
    }
}

} // verus!
