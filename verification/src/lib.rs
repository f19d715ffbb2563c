//! Core of a minimal windowed renderer: a surface configuration that is only
//! reconfigured while valid, fixed geometry for a triangle or an indexed
//! pentagon, the per-frame command plan, and the event-loop decisions.
//!
//! The library works on plain values; the process around it owns the window,
//! the GPU device and the event source, performs the actions this library
//! decides on, and hands the outcomes back.

pub mod config;
pub mod context;
pub mod errors;
pub mod events;
pub mod frame;
pub mod geometry;
pub mod pipeline;
