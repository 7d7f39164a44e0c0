//! Verified core of a host that embeds the Flutter engine in its own window
//! and on its own GPU device.
//!
//! The crate holds the decisions of the embedder as functions on plain
//! values: which error a failed start-up reports, what the engine is handed
//! at initialization, how the surface is configured, which frame is in
//! flight, and in which order a window session moves through its life. The
//! host performs the windowing, GPU and engine calls and reports their
//! outcomes back.

pub mod application;
pub mod composition;
pub mod flutter_embedder;
pub mod flutter_render_config_vk;
pub mod tracing_integration;
