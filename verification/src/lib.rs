//! A micro-benchmark library for a 2D sprite-rendering pipeline.
//!
//! The library holds the benchmark's logic: a deterministic workload
//! generator (procedural textures and sprite placements), a frame-timing
//! harness modelled as an explicit state machine, percentile statistics
//! over the recorded frame times, and the selection and planning of the
//! three render-path strategies (direct draw, single offscreen target,
//! and dual offscreen targets with compositing).
//!
//! All quantities are integers: times are microseconds, world coordinates
//! and fractions are fixed-point thousandths. The surrounding binary owns
//! the window, the GPU and the clock; it feeds plain values in and carries
//! the returned frame plans out to the graphics layer.

pub mod config;
pub mod harness;
pub mod render;
pub mod stats;
pub mod workload;
