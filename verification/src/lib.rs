//! Verified core of a minimal real-time 3D rendering engine.
//!
//! The engine couples a damped free-look camera to a single-mesh GPU
//! pipeline. This crate holds the part of that engine that makes
//! decisions on plain values: the surface-configuration bookkeeping, the
//! event-to-action state machine that drives one frame, the fixed
//! triangle geometry with its binary buffer layout, and the encoding of
//! the per-frame uniform matrix into the bytes the GPU consumes.
//!
//! Floating-point values never appear here; wherever the engine's rules
//! fix a floating-point quantity (the mouse sensitivity, the projection
//! planes, the vertex coordinates) this crate carries its IEEE-754 bit
//! pattern as an integer, and the unverified shell around the crate
//! converts at the boundary. All window, device and queue traffic lives
//! in that shell; it feeds events in and carries actions out.

pub mod camera;
pub mod codec;
pub mod engine;
pub mod events;
pub mod geometry_renderer;
pub mod matrix;
pub mod util;
