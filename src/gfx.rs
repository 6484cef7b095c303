//! The GPU-facing parts of the engine, as plain values and decisions: images
//! and their layouts, the render graph and its registries, the swapchain
//! protocol, buffers, devices and surfaces.
pub mod image;
pub mod resource;
pub mod render_pass;
pub mod render_graph;
pub mod swapchain;
pub mod buffer;
pub mod commands;
pub mod context;
pub mod device;
pub mod surface;
