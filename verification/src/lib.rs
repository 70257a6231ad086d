//! Render-graph execution and GPU synchronization core.
//!
//! The crate decides, for every frame, which completion signals have to be
//! waited on, which passes run, which ordering signals are joined into the
//! composite submission and when the surface has to be rebuilt. It performs
//! no device work itself: the caller carries out each requested action on the
//! graphics device and reports what happened.

pub mod error;
pub mod pass;
pub mod signal;
pub mod gate;
pub mod target;
pub mod surface;
pub mod pool;
pub mod context;
pub mod scheduler;
pub mod commands;
pub mod laws;
pub mod interface;
