//! A small GPU rendering host: descriptor-driven construction of render
//! pipelines, a resize-safe surface manager, and the decisions of the frame
//! loop and of the window event pump, each stated and proved with Verus.
//!
//! The library computes what the GPU and the windowing layer are asked to do
//! (descriptors, surface configurations, commands); the calls that hand those
//! to a device or a window are made by the host program around it.

pub mod factory;
pub mod frame_loop;
pub mod surface;

pub use factory::{create_bind_group_layout, create_pipeline_layout, create_shader_module};
