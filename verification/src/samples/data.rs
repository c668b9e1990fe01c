//! Multi-channel sample data.

use vstd::prelude::*;

use crate::error::{Error, Result};
use crate::ring::ChannelFragments;

verus! {

/// Multi-channel sample data as delivered to a reader.
///
/// Each channel's samples come as two byte fragments; the second is empty
/// unless the read range crossed the ring's physical wrap boundary. The two
/// fragments concatenated are the channel's bytes for the whole batch.
#[derive(Debug)]
pub struct SamplesData {
    /// The two fragments of every channel.
    pub channels: Vec<ChannelFragments>,
}

impl SamplesData {
    /// Returns the number of audio channels.
    pub fn num_of_channels(&self) -> (r: usize)
        ensures
            r == self.channels@.len(),
    {
        self.channels.len()
    }

    /// Returns one channel's sample data as its two fragments. Errors
    /// exactly when the channel index is out of range.
    pub fn channel_data(&self, channel: usize) -> (r: Result<(&Vec<u8>, &Vec<u8>)>)
        ensures
            r is Ok <==> channel < self.channels@.len(),
            r matches Ok((first, second)) ==> first@ == self.channels@[channel as int].first@
                && second@ == self.channels@[channel as int].second@,
            r is Err ==> r == Err::<(&Vec<u8>, &Vec<u8>), Error>(Error::InvalidArg),
    {
        if channel >= self.channels.len() {
            return Err(Error::InvalidArg);
        }
        let fragments = &self.channels[channel];
        Ok((&fragments.first, &fragments.second))
    }

    /// Creates an owned copy of this sample data, with the fragments of
    /// each channel joined into one contiguous buffer.
    pub fn to_owned(&self) -> (r: OwnedSamplesData)
        ensures
            r.payload@.len() == self.channels@.len(),
            forall|ch: int|
                0 <= ch < self.channels@.len() ==> (#[trigger] r.payload@[ch])@ == (
                self.channels@[ch].first@ + self.channels@[ch].second@),
    {
        let mut payload: Vec<Vec<u8>> = Vec::new();
        let mut ch: usize = 0;
        let n = self.channels.len();
        while ch < n
            invariant
                ch <= n == self.channels@.len(),
                payload@.len() == ch,
                forall|c: int|
                    0 <= c < ch ==> (#[trigger] payload@[c])@ == (self.channels@[c].first@
                        + self.channels@[c].second@),
            decreases n - ch,
        {
            let fragments = &self.channels[ch];
            let mut joined = crate::ring::copy_bytes(&fragments.first);
            let mut second = crate::ring::copy_bytes(&fragments.second);
            joined.append(&mut second);
            payload.push(joined);
            ch = ch + 1;
        }
        OwnedSamplesData { payload }
    }
}

/// Owned copy of multi-channel sample data: one contiguous byte vector per
/// channel, both fragments joined.
#[derive(Debug)]
pub struct OwnedSamplesData {
    /// Per-channel sample bytes.
    pub payload: Vec<Vec<u8>>,
}

} // verus!
