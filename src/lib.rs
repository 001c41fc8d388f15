//! Core of a small real-time viewer: a two-way selector for hot-swapping
//! render configurations, the geometry data that feeds the vertex and index
//! buffers, the byte layout of the camera uniform, and the decisions that
//! the frame loop takes on window input and surface faults.
//!
//! Floating-point values never appear here: a 32-bit float travels as its
//! IEEE-754 bit pattern in a `u32`, which is all the layout logic reads.

pub mod bytes;
pub mod flip;
pub mod frame;
pub mod model;
pub mod uniform;
