//! Grain payload data.

use vstd::prelude::*;

use crate::ring::copy_bytes;

verus! {

/// A grain's payload as delivered to a reader.
///
/// For partial grains (not yet fully written), `payload.len()` is less than
/// [`Self::total_size`]; for complete grains the two are equal.
#[derive(Debug)]
pub struct GrainData {
    /// The grain payload bytes (possibly partial).
    pub payload: Vec<u8>,
    /// Total size of the complete grain payload.
    pub total_size: usize,
    /// Grain metadata flags.
    pub flags: u32,
}

impl GrainData {
    /// Creates an owned copy of this grain's payload.
    pub fn to_owned(&self) -> (r: OwnedGrainData)
        ensures
            r.payload@ == self.payload@,
    {
        OwnedGrainData { payload: copy_bytes(&self.payload) }
    }
}

/// Owned copy of grain payload data.
#[derive(Debug)]
pub struct OwnedGrainData {
    /// Owned copy of the grain payload bytes.
    pub payload: Vec<u8>,
}

} // verus!
