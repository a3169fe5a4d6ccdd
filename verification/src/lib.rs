//! A verified model of a minimal real-time rendering scaffold.
//!
//! The library holds the decision logic of a window/GPU-surface
//! lifecycle: how the surface configuration is chosen and kept in step
//! with resize requests, what the fixed per-frame render pass does, and
//! how the event loop controller routes platform events and reacts to
//! frame-acquisition failures. The host loop (windowing and GPU calls)
//! lives outside the library and only performs the effects this logic
//! returns.

pub mod controller;
pub mod events;
pub mod gfx;
pub mod surface;
