//! Policies for picking the GPU device and queues the application runs on.

pub mod single_graphics_queue;
