//! Frame orchestration for a compute-then-present rendering host.
//!
//! The library decides what a frame does: when the surface is reconfigured,
//! which off-screen texture the presentation pass samples, the exact order of
//! compute dispatches and draw calls, and how acquisition failures are handled.
//! The GPU work itself is carried out by the caller, command by command.
pub mod commands;
pub mod graphics;
pub mod host;
pub mod presentation;
pub mod shaders;
pub mod surface;
