//! Reader-side pacing: producing external buffers from flows.
//!
//! The source reads grains or sample batches from a flow and hands them
//! out as plain buffers with a presentation timestamp, translating the
//! ring's monotonically indexed timeline back into the external one:
//! output timestamps derive from a frame or batch counter and the rate,
//! shifted by a baseline that is only ever corrected forward, and a reader
//! that has fallen out of the retention window jumps forward and flags one
//! discontinuity.

pub mod create_audio;
pub mod create_video;
pub mod state;
