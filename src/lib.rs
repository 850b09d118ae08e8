//! Instanced-quad rendering: surface configuration, the geometry pipeline and
//! the per-frame protocol, stated as plain values that a graphics backend
//! carries out.

pub mod command;
pub mod lifecycle;
pub mod pipeline;
pub mod renderer;
pub mod surface;
