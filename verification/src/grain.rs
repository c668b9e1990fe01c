//! Discrete media units: grains.
//!
//! A grain is one complete unit of a discrete flow (one video frame, one
//! data packet), addressed by its logical index. Writers fill a grain
//! through a scoped session that must be committed to become visible;
//! readers obtain a copy of the committed payload.

pub mod data;
pub mod reader;
pub mod write_access;
pub mod writer;
