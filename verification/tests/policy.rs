//! The pure decision functions: swapchain configuration policy, event
//! dispatch, queue-family selection and the logging configuration.

use vulkan_samples::app::{
    dispatch_event, AppError, AppEvent, AppEventHandler, ControlFlow, UpdateFrequency,
};
use vulkan_samples::logger;
use vulkan_samples::logger::LogLevel;
use vulkan_samples::surface::{
    CompositeAlpha, Extent2D, PresentMode, SurfaceCapabilities, SurfaceFormat, SurfaceTransform,
};
use vulkan_samples::swapchain::{DefaultSwapchainFactory, SwapchainCreationError};
use vulkan_samples::vulkan_device_factories::single_graphics_queue::{
    QueueFamilyInfo, SingleGraphicsQueueDeviceFactory,
};

fn extent(width: u32, height: u32) -> Extent2D {
    Extent2D { width, height }
}

#[test]
fn plan_picks_first_supported_pair_and_fifo() {
    let caps = SurfaceCapabilities {
        min_image_count: 2,
        supported_formats: vec![
            SurfaceFormat {
                format: 44,
                color_space: 0,
            },
            SurfaceFormat {
                format: 50,
                color_space: 1,
            },
        ],
        supported_composite_alpha: vec![CompositeAlpha::Inherit, CompositeAlpha::Opaque],
        supported_present_modes: vec![PresentMode::Mailbox, PresentMode::Fifo],
        current_extent: extent(800, 600),
    };
    let planner = DefaultSwapchainFactory::new();
    let config = planner.plan_swapchain(&caps, extent(800, 600)).expect("plan");
    assert_eq!(config.image_count, 2);
    assert_eq!(
        config.format,
        SurfaceFormat {
            format: 44,
            color_space: 0,
        }
    );
    assert_eq!(config.composite_alpha, CompositeAlpha::Inherit);
    assert_eq!(config.present_mode, PresentMode::Fifo);
    assert_eq!(config.transform, SurfaceTransform::Identity);
    assert_eq!(config.extent, extent(800, 600));
    assert_eq!(config.layers, 1);
    assert!(config.clipped);
}

#[test]
fn plan_fails_without_composite_alpha() {
    let caps = SurfaceCapabilities {
        min_image_count: 2,
        supported_formats: vec![SurfaceFormat {
            format: 44,
            color_space: 0,
        }],
        supported_composite_alpha: vec![],
        supported_present_modes: vec![PresentMode::Fifo],
        current_extent: extent(800, 600),
    };
    let planner = DefaultSwapchainFactory::new();
    let err = planner.plan_swapchain(&caps, extent(800, 600)).unwrap_err();
    assert_eq!(err, SwapchainCreationError::UnsupportedCompositeAlpha);
}

#[test]
fn plan_fails_without_formats() {
    let caps = SurfaceCapabilities {
        min_image_count: 2,
        supported_formats: vec![],
        supported_composite_alpha: vec![CompositeAlpha::Opaque],
        supported_present_modes: vec![PresentMode::Fifo],
        current_extent: extent(800, 600),
    };
    let planner = DefaultSwapchainFactory::new();
    let err = planner.plan_swapchain(&caps, extent(800, 600)).unwrap_err();
    assert_eq!(err, SwapchainCreationError::UnsupportedCompositeAlpha);
}

#[test]
fn plan_rejects_degenerate_extents() {
    let caps = SurfaceCapabilities {
        min_image_count: 2,
        supported_formats: vec![SurfaceFormat {
            format: 44,
            color_space: 0,
        }],
        supported_composite_alpha: vec![CompositeAlpha::Opaque],
        supported_present_modes: vec![PresentMode::Fifo],
        current_extent: extent(800, 600),
    };
    let planner = DefaultSwapchainFactory::new();
    assert_eq!(
        planner.plan_swapchain(&caps, extent(0, 600)).unwrap_err(),
        SwapchainCreationError::UnsupportedDimensions
    );
    assert_eq!(
        planner.plan_swapchain(&caps, extent(800, 0)).unwrap_err(),
        SwapchainCreationError::UnsupportedDimensions
    );
}

struct RecordingHandler {
    updates: usize,
    resizes: Vec<(u32, u32)>,
    redraws: usize,
    closes: usize,
    redraw_error: Option<AppError>,
}

impl RecordingHandler {
    fn new() -> RecordingHandler {
        RecordingHandler {
            updates: 0,
            resizes: Vec::new(),
            redraws: 0,
            closes: 0,
            redraw_error: None,
        }
    }
}

impl AppEventHandler for RecordingHandler {
    fn on_update(&mut self) {
        self.updates += 1;
    }

    fn on_window_resize(&mut self, width: u32, height: u32) -> Result<(), AppError> {
        self.resizes.push((width, height));
        Ok(())
    }

    fn on_redraw(&mut self) -> Result<(), AppError> {
        self.redraws += 1;
        match self.redraw_error {
            Some(e) => Err(e),
            None => Ok(()),
        }
    }

    fn on_close(&mut self) {
        self.closes += 1;
    }
}

#[test]
fn close_request_for_our_window_exits() {
    let mut handler = RecordingHandler::new();
    let outcome = dispatch_event(
        &mut handler,
        UpdateFrequency::OnEvent,
        AppEvent::CloseRequested { ours: true },
    );
    assert_eq!(outcome.control_flow, ControlFlow::Exit);
    assert_eq!(outcome.error, None);
    // the drain hook ran exactly once before the exit directive
    assert_eq!(handler.closes, 1);
}

#[test]
fn close_request_for_another_window_is_ignored() {
    let mut handler = RecordingHandler::new();
    let outcome = dispatch_event(
        &mut handler,
        UpdateFrequency::OnEvent,
        AppEvent::CloseRequested { ours: false },
    );
    assert_eq!(outcome.control_flow, ControlFlow::Wait);
    assert_eq!(outcome.error, None);
    assert_eq!(handler.closes, 0);
}

#[test]
fn resize_of_our_window_reaches_handler() {
    let mut handler = RecordingHandler::new();
    let outcome = dispatch_event(
        &mut handler,
        UpdateFrequency::OnEvent,
        AppEvent::Resized {
            ours: true,
            width: 1024,
            height: 768,
        },
    );
    assert_eq!(outcome.control_flow, ControlFlow::Wait);
    assert_eq!(outcome.error, None);
    assert_eq!(handler.resizes, vec![(1024, 768)]);
}

#[test]
fn resize_of_another_window_is_ignored() {
    let mut handler = RecordingHandler::new();
    let outcome = dispatch_event(
        &mut handler,
        UpdateFrequency::OnEvent,
        AppEvent::Resized {
            ours: false,
            width: 1024,
            height: 768,
        },
    );
    assert_eq!(outcome.control_flow, ControlFlow::Wait);
    assert_eq!(outcome.error, None);
    assert!(handler.resizes.is_empty());
}

#[test]
fn redraw_rounds_reach_handler() {
    let mut handler = RecordingHandler::new();
    let outcome = dispatch_event(
        &mut handler,
        UpdateFrequency::OnEvent,
        AppEvent::RedrawEventsCleared,
    );
    assert_eq!(outcome.control_flow, ControlFlow::Wait);
    assert_eq!(outcome.error, None);
    assert_eq!(handler.redraws, 1);
}

#[test]
fn handler_failure_exits_with_the_error() {
    let mut handler = RecordingHandler::new();
    handler.redraw_error = Some(AppError::EmptyImageChain);
    let outcome = dispatch_event(
        &mut handler,
        UpdateFrequency::Continuous,
        AppEvent::RedrawEventsCleared,
    );
    assert_eq!(outcome.control_flow, ControlFlow::Exit);
    assert_eq!(outcome.error, Some(AppError::EmptyImageChain));
}

struct FailingResizeHandler {}

impl AppEventHandler for FailingResizeHandler {
    fn on_window_resize(&mut self, _width: u32, _height: u32) -> Result<(), AppError> {
        Err(AppError::EmptyImageChain)
    }

    fn on_redraw(&mut self) -> Result<(), AppError> {
        Ok(())
    }

    fn on_close(&mut self) {}
}

#[test]
fn resize_failure_exits_with_the_error() {
    let mut handler = FailingResizeHandler {};
    let outcome = dispatch_event(
        &mut handler,
        UpdateFrequency::OnEvent,
        AppEvent::Resized {
            ours: true,
            width: 10,
            height: 10,
        },
    );
    assert_eq!(outcome.control_flow, ControlFlow::Exit);
    assert_eq!(outcome.error, Some(AppError::EmptyImageChain));
}

#[test]
fn continuous_apps_poll_and_update_event_apps_wait() {
    let mut handler = RecordingHandler::new();
    let outcome = dispatch_event(&mut handler, UpdateFrequency::Continuous, AppEvent::Other);
    assert_eq!(outcome.control_flow, ControlFlow::Poll);
    assert_eq!(handler.updates, 1);

    let outcome = dispatch_event(&mut handler, UpdateFrequency::OnEvent, AppEvent::Other);
    assert_eq!(outcome.control_flow, ControlFlow::Wait);
    assert_eq!(handler.updates, 1);
}

#[test]
fn selects_first_suitable_device_and_family() {
    let factory = SingleGraphicsQueueDeviceFactory::new();
    let graphics_only = QueueFamilyInfo {
        supports_graphics: true,
        supports_present: false,
    };
    let present_only = QueueFamilyInfo {
        supports_graphics: false,
        supports_present: true,
    };
    let both = QueueFamilyInfo {
        supports_graphics: true,
        supports_present: true,
    };
    let devices = vec![
        vec![graphics_only, present_only],
        vec![present_only, both, both],
    ];
    assert_eq!(factory.select_queue_family(&devices), Some((1, 1)));
}

#[test]
fn reports_when_no_device_is_suitable() {
    let factory = SingleGraphicsQueueDeviceFactory::new();
    let graphics_only = QueueFamilyInfo {
        supports_graphics: true,
        supports_present: false,
    };
    let devices = vec![vec![graphics_only], vec![]];
    assert_eq!(factory.select_queue_family(&devices), None);
}

#[test]
fn log_config_values() {
    let config = logger::init();
    assert_eq!(config.pattern, "{l} - {m}\n");
    assert_eq!(config.path, "log/output.log");
    assert_eq!(config.level, LogLevel::Trace);
}
