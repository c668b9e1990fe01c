//! Sample writer for continuous flows.

use vstd::prelude::*;

use crate::error::{Error, Result};
use crate::flow::FlowConfigDetails;
use crate::instance::{FlowEntry, MxlInstance};
use crate::ring::{
    spec_batch_args_ok, spec_f1_bytes, spec_f2_bytes, zero_bytes, ChannelFragments,
};
use crate::samples::write_access::SamplesWriteAccess;

verus! {

/// Writer for continuous audio sample streams.
///
/// Batches are opened at a specific index and count, filled through a
/// [`SamplesWriteAccess`] session, and committed to become visible.
#[derive(Debug)]
pub struct SamplesWriter {
    /// Position of the owned flow in the domain.
    pub flow: usize,
}

impl SamplesWriter {
    /// Releases the writer, freeing the flow for a future writer. Errors
    /// exactly when the handle is stale; the flow's data stays as it is
    /// either way.
    pub fn destroy(self, instance: &mut MxlInstance) -> (r: Result<()>)
        requires
            old(instance).wf(),
        ensures
            final(instance).wf(),
            final(instance).now_ns == old(instance).now_ns,
            r is Ok <==> self.flow < old(instance).flows@.len(),
            r is Ok ==> final(instance).flows@ == old(instance).flows@.update(
                self.flow as int,
                (FlowEntry { writer_active: false, ..old(instance).flows@[self.flow as int] }),
            ),
            r is Err ==> *final(instance) == *old(instance),
    {
        if self.flow >= instance.flows.len() {
            return Err(Error::InvalidArg);
        }
        instance.set_writer_active(self.flow, false);
        Ok(())
    }

    /// Opens a batch of `count` samples ending at `index` for writing.
    ///
    /// The session stages zeroed fragments of exactly the geometry the
    /// batch occupies in the ring; the ring itself is untouched until the
    /// session is committed. Errors exactly when the handle is stale, the
    /// flow is not continuous, or the batch request is unacceptable (empty,
    /// larger than the ring, or reaching below index zero).
    pub fn open_samples(&self, instance: &MxlInstance, index: u64, count: usize) -> (r: Result<
        SamplesWriteAccess,
    >)
        requires
            instance.wf(),
        ensures
            r is Ok <==> self.flow < instance.flows@.len() && (
            instance.flows@[self.flow as int].config.details matches
            FlowConfigDetails::Continuous(cfg) && spec_batch_args_ok(cfg, index, count as u64)),
            r matches Ok(access) ==> {
                &&& access.flow == self.flow
                &&& access.index == index
                &&& access.count == count
                &&& (instance.flows@[self.flow as int].config.details matches
                FlowConfigDetails::Continuous(cfg) && access.planes@.len() == cfg.channel_count
                    && (forall|ch: int|
                    0 <= ch < access.planes@.len() ==> (#[trigger] access.planes@[ch]).first@.len()
                        == spec_f1_bytes(cfg, index, count as u64)
                        && access.planes@[ch].second@.len() == spec_f2_bytes(
                        cfg,
                        index,
                        count as u64,
                    )))
            },
    {
        if self.flow >= instance.flows.len() {
            return Err(Error::InvalidFlowWriter);
        }
        let cfg = match instance.flows[self.flow].config.continuous() {
            Ok(cfg) => cfg,
            Err(_) => {
                return Err(Error::InvalidFlowWriter);
            },
        };
        let count_u: u64 = count as u64;
        if count_u < 1 || count_u > cfg.buffer_length as u64 || count_u - 1 > index {
            return Err(Error::InvalidArg);
        }
        proof {
            assert(instance.flows@[self.flow as int].wf());
            crate::ring::lemma_fragment_geometry(cfg, index, count_u);
        }
        let first: u64 = index - (count_u - 1);
        let phys: u64 = first % (cfg.buffer_length as u64);
        let f1: u64 = if count_u <= cfg.buffer_length as u64 - phys {
            count_u
        } else {
            cfg.buffer_length as u64 - phys
        };
        let f2: u64 = count_u - f1;
        let word: u64 = cfg.sample_word_size as u64;
        let f1b: usize = (f1 * word) as usize;
        let f2b: usize = (f2 * word) as usize;
        let mut planes: Vec<ChannelFragments> = Vec::new();
        let mut ch: usize = 0;
        let nch: usize = cfg.channel_count as usize;
        while ch < nch
            invariant
                ch <= nch,
                planes@.len() == ch,
                forall|c: int|
                    0 <= c < ch ==> (#[trigger] planes@[c]).first@.len() == f1b
                        && planes@[c].second@.len() == f2b,
            decreases nch - ch,
        {
            planes.push(ChannelFragments { first: zero_bytes(f1b), second: zero_bytes(f2b) });
            ch = ch + 1;
        }
        Ok(SamplesWriteAccess { flow: self.flow, index, count: count_u, planes })
    }
}

} // verus!
