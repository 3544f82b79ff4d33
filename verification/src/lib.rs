//! The frame-presentation core of a small windowed renderer.
//!
//! The program around this library opens a window, initialises a graphics
//! device and draws fixed shapes once per redraw. All decisions that the
//! driver takes per frame — when the swapchain must be recreated, when a
//! frame is skipped, what a submission waits on, when the loop exits — are
//! made here, on plain values, with their contracts verified. The driver
//! performs the device and window calls and reports their outcomes back.

pub mod framebuffers;
pub mod geometry;
pub mod laws;
pub mod presentation;
