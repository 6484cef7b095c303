//! A small real-time rendering engine core: declarative render-graph resources,
//! per-frame layout tracking and barrier planning, and the swapchain and command
//! submission decisions that drive one frame.
pub mod application;
pub mod gfx;
pub mod utils;
pub mod debug;
pub mod version;
