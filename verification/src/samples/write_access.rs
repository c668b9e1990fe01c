//! Scoped sample write session.

use vstd::prelude::*;
use vstd::pervasive::VecAdditionalExecFns;

use crate::error::{Error, Result};
use crate::instance::{cont_cfg, cont_ring, entry_is_continuous, MxlInstance};
use crate::ring::{
    samples_commit_post, spec_batch_args_ok, spec_f1_bytes, spec_f2_bytes, ChannelFragments,
};

verus! {

/// A scoped sample writing session.
///
/// The session stages the batch's per-channel fragments; nothing reaches
/// the ring until [`Self::commit`] is called. Exactly one of commit or
/// [`Self::cancel`] consumes the session; a session dropped without either
/// behaves like a cancel, leaving the flow's head index unchanged.
#[derive(Debug)]
pub struct SamplesWriteAccess {
    /// Position of the flow being written.
    pub flow: usize,
    /// Logical index of the batch's last sample.
    pub index: u64,
    /// Number of samples in the batch, per channel.
    pub count: u64,
    /// The staged fragments, one pair per channel, sized like the ring
    /// ranges they will be committed into.
    pub planes: Vec<ChannelFragments>,
}

impl SamplesWriteAccess {
    /// Returns the number of audio channels.
    pub fn channels(&self) -> (r: usize)
        ensures
            r == self.planes@.len(),
    {
        self.planes.len()
    }

    /// Returns the byte lengths of one channel's two staged fragments.
    /// Errors exactly when the channel index is out of range.
    pub fn fragment_lens(&self, channel: usize) -> (r: Result<(usize, usize)>)
        ensures
            r is Ok <==> channel < self.planes@.len(),
            r matches Ok((first, second)) ==> first == self.planes@[channel as int].first@.len()
                && second == self.planes@[channel as int].second@.len(),
    {
        if channel >= self.planes.len() {
            return Err(Error::InvalidArg);
        }
        let fragments = &self.planes[channel];
        Ok((fragments.first.len(), fragments.second.len()))
    }

    /// Replaces one channel's staged fragments. The new fragments must have
    /// exactly the staged lengths; errors exactly on a bad channel index or
    /// a length mismatch, leaving the session as it was.
    pub fn set_channel_data(&mut self, channel: usize, first: Vec<u8>, second: Vec<u8>) -> (r:
        Result<()>)
        ensures
            r is Ok <==> channel < old(self).planes@.len() && first@.len() == old(
                self,
            ).planes@[channel as int].first@.len() && second@.len() == old(
                self,
            ).planes@[channel as int].second@.len(),
            r is Ok ==> final(self).planes@ == old(self).planes@.update(
                channel as int,
                (ChannelFragments { first, second }),
            ),
            r is Err ==> *final(self) == *old(self),
            final(self).flow == old(self).flow,
            final(self).index == old(self).index,
            final(self).count == old(self).count,
    {
        if channel >= self.planes.len() {
            return Err(Error::InvalidArg);
        }
        if first.len() != self.planes[channel].first.len() || second.len()
            != self.planes[channel].second.len() {
            return Err(Error::InvalidArg);
        }
        self.planes.set(channel, ChannelFragments { first, second });
        Ok(())
    }

    /// Commits the batch, making it visible to readers: the staged
    /// fragments are installed in every channel's ring and the flow's head
    /// index advances to cover the batch.
    ///
    /// A stale session (wrong flow, wrong geometry) is an error and leaves
    /// the domain untouched.
    pub fn commit(self, instance: &mut MxlInstance) -> (r: Result<()>)
        requires
            old(instance).wf(),
        ensures
            final(instance).wf(),
            final(instance).now_ns == old(instance).now_ns,
            r is Err ==> *final(instance) == *old(instance),
            r is Ok <==> self.flow < old(instance).flows@.len() && old(
                instance,
            ).flows@[self.flow as int].config.details is Continuous && spec_batch_args_ok(
                cont_cfg(old(instance).flows@[self.flow as int]),
                self.index,
                self.count,
            ) && self.planes@.len() == cont_cfg(
                old(instance).flows@[self.flow as int],
            ).channel_count && (forall|ch: int|
                0 <= ch < self.planes@.len() ==> (#[trigger] self.planes@[ch]).first@.len()
                    == spec_f1_bytes(
                    cont_cfg(old(instance).flows@[self.flow as int]),
                    self.index,
                    self.count,
                ) && self.planes@[ch].second@.len() == spec_f2_bytes(
                    cont_cfg(old(instance).flows@[self.flow as int]),
                    self.index,
                    self.count,
                )),
            r is Ok ==> {
                &&& final(instance).flows@.len() == old(instance).flows@.len()
                &&& (forall|i: int|
                    0 <= i < old(instance).flows@.len() && i != self.flow ==> final(instance).flows@[i]
                        == old(instance).flows@[i])
                &&& entry_is_continuous(final(instance).flows@[self.flow as int])
                &&& samples_commit_post(
                    cont_ring(old(instance).flows@[self.flow as int]),
                    cont_ring(final(instance).flows@[self.flow as int]),
                    cont_cfg(old(instance).flows@[self.flow as int]),
                    self.index,
                    self.count,
                    self.planes@,
                )
                &&& final(instance).flows@[self.flow as int].config == old(
                    instance,
                ).flows@[self.flow as int].config
                &&& final(instance).flows@[self.flow as int].last_write_time == old(
                    instance,
                ).now_ns
            },
    {
        if self.flow >= instance.flows.len() {
            return Err(Error::InvalidFlowWriter);
        }
        let cfg = match instance.flows[self.flow].config.continuous() {
            Ok(cfg) => cfg,
            Err(_) => {
                return Err(Error::InvalidFlowWriter);
            },
        };
        let count = self.count;
        if count < 1 || count > cfg.buffer_length as u64 || count - 1 > self.index {
            return Err(Error::InvalidArg);
        }
        if self.planes.len() != cfg.channel_count as usize {
            return Err(Error::InvalidArg);
        }
        proof {
            assert(instance.flows@[self.flow as int].wf());
            crate::ring::lemma_fragment_geometry(cfg, self.index, count);
        }
        let first: u64 = self.index - (count - 1);
        let phys: u64 = first % (cfg.buffer_length as u64);
        let f1: u64 = if count <= cfg.buffer_length as u64 - phys {
            count
        } else {
            cfg.buffer_length as u64 - phys
        };
        let f2: u64 = count - f1;
        let word: u64 = cfg.sample_word_size as u64;
        let f1b: usize = (f1 * word) as usize;
        let f2b: usize = (f2 * word) as usize;
        let mut ch: usize = 0;
        let nch = self.planes.len();
        while ch < nch
            invariant
                ch <= nch == self.planes@.len(),
                *instance == *old(instance),
                old(instance).wf(),
                self.flow < instance.flows@.len(),
                instance.flows@[self.flow as int].config.details is Continuous,
                cfg == cont_cfg(instance.flows@[self.flow as int]),
                spec_batch_args_ok(cfg, self.index, self.count),
                nch == cfg.channel_count,
                f1b == spec_f1_bytes(cfg, self.index, self.count),
                f2b == spec_f2_bytes(cfg, self.index, self.count),
                count == self.count,
                forall|c: int|
                    0 <= c < ch ==> (#[trigger] self.planes@[c]).first@.len() == f1b
                        && self.planes@[c].second@.len() == f2b,
            decreases nch - ch,
        {
            if self.planes[ch].first.len() != f1b || self.planes[ch].second.len() != f2b {
                return Err(Error::InvalidArg);
            }
            ch = ch + 1;
        }
        instance.commit_samples_at(self.flow, self.index, count, &self.planes);
        Ok(())
    }

    /// Cancels the sample write session without committing.
    ///
    /// The session is consumed and the staged fragments discarded; the
    /// flow's head index does not move and readers see no change at all
    /// (the session never touched the domain).
    pub fn cancel(self) -> (r: Result<()>)
        ensures
            r is Ok,
    {
        Ok(())
    }
}

} // verus!
