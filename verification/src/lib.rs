//! A verified core for drawing a queue of two-dimensional shapes: exact
//! vector arithmetic, geometry building, staging-buffer management and the
//! per-frame decisions of the renderer.

pub mod app;
pub mod math;
pub mod rendering;
