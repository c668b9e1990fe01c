//! Writer-side pacing: rendering external buffers into flows.
//!
//! The sink receives buffers carrying an external presentation timestamp
//! and writes them into a flow, translating the external timeline into ring
//! indices: discrete buffers map to grain indices with a clamp against the
//! ring's retention horizon, continuous buffers are split into chunks of at
//! most half the ring and de-interleaved into per-channel planes.

pub mod render_audio;
pub mod render_video;
pub mod state;
