//! Painting frames on a GPU surface.

pub mod error;
pub mod refresh;
pub mod types;
pub mod painter;
pub mod context;
pub mod surface;
pub mod swapchain;
