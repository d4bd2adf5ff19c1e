//! Conway's Game of Life on a fixed-size grid with hard (non-wrapping)
//! boundaries, together with a framebuffer that renders the grid as packed
//! RGB pixels and scales it to a display resolution by exact
//! nearest-neighbor sampling.
//!
//! The simulation state, the transition rule, the pattern catalog and the
//! pixel pipeline are all verified; a host program owns the window, the
//! input events and the frame pacing, and only exchanges plain pixel
//! buffers and reset signals with this crate.

pub mod engine;
pub mod framebuffer;
pub mod grid;
pub mod laws;
pub mod patterns;
