//! Continuous media: sample batches.
//!
//! A sample batch is a contiguous run of per-channel samples of a
//! continuous flow, addressed by the index its last sample carries and its
//! count. Within the ring a batch occupies up to two byte fragments per
//! channel; the second one is non-empty exactly when the batch crosses the
//! physical wrap boundary.

pub mod data;
pub mod reader;
pub mod write_access;
pub mod writer;
