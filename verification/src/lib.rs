//! Procedural grass for a real-time 3D scene: a placement map is decoded into
//! regions, every region is expanded into jittered blade instances anchored on
//! the ground mesh, and the instances are handed to an instanced draw of one
//! shared blade mesh.
//!
//! All lengths are fixed-point integers (see [`units`]); nothing in this crate
//! touches the graphics device. The caller performs the device work that the
//! functions here plan, and hands the outcome back as plain values.

pub mod buffers;
pub mod draw;
pub mod ground;
pub mod instancing;
pub mod jitter;
pub mod pipeline;
pub mod placement;
pub mod scene;
pub mod units;
