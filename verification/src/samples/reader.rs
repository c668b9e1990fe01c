//! Sample reader for continuous flows.

use vstd::prelude::*;

use crate::error::{Error, Result};
use crate::flow::reader::flow_info_at;
use crate::flow::{FlowConfigInfo, FlowInfo, FlowRuntimeInfo};
use crate::instance::{
    cont_cfg, cont_ring, entry_is_continuous, FlowEntry, MxlInstance, RingState,
};
use crate::samples::data::SamplesData;

verus! {

/// Reader for continuous audio sample streams.
///
/// Batches are addressed by the index of their last sample and their
/// count; reads are blocking (with a timeout) or non-blocking. Each read
/// returns a copy of the committed fragments of every channel.
#[derive(Debug)]
pub struct SamplesReader {
    /// Position of the read flow in the domain.
    pub flow: usize,
}

impl SamplesReader {
    /// Releases this reader. Readers hold no exclusive resource, so this
    /// always succeeds.
    pub fn destroy(self) -> (r: Result<()>)
        ensures
            r is Ok,
    {
        Ok(())
    }

    /// Retrieves complete flow information (configuration and runtime
    /// state). Errors exactly when the handle is stale.
    pub fn get_info(&self, instance: &MxlInstance) -> (r: Result<FlowInfo>)
        ensures
            r is Ok <==> self.flow < instance.flows@.len(),
            r matches Ok(info) ==> info.config == instance.flows@[self.flow as int].config
                && info.runtime.head_index == instance.flows@[self.flow as int].spec_head(),
    {
        flow_info_at(instance, self.flow)
    }

    /// Retrieves the flow's configuration. Errors exactly when the handle
    /// is stale.
    pub fn get_config_info(&self, instance: &MxlInstance) -> (r: Result<FlowConfigInfo>)
        ensures
            r is Ok <==> self.flow < instance.flows@.len(),
            r matches Ok(config) ==> config == instance.flows@[self.flow as int].config,
    {
        match flow_info_at(instance, self.flow) {
            Ok(info) => Ok(info.config),
            Err(e) => Err(e),
        }
    }

    /// Retrieves the flow's runtime state (head index, last access times).
    /// Errors exactly when the handle is stale.
    pub fn get_runtime_info(&self, instance: &MxlInstance) -> (r: Result<FlowRuntimeInfo>)
        ensures
            r is Ok <==> self.flow < instance.flows@.len(),
            r matches Ok(runtime) ==> runtime.head_index
                == instance.flows@[self.flow as int].spec_head(),
    {
        match flow_info_at(instance, self.flow) {
            Ok(info) => Ok(info.runtime),
            Err(e) => Err(e),
        }
    }

    /// Reads a batch of `count` samples ending at `index`, blocking up to
    /// `timeout_ns`.
    ///
    /// An unacceptable request is an invalid argument; a batch whose data
    /// is not there yet leaves the reader waiting until the timeout runs
    /// out, which reports `Timeout`; a batch that has been overwritten
    /// reports `TooLate` at once. On success the fragments of every
    /// channel are returned and the domain is untouched apart from the
    /// read timestamp.
    pub fn get_samples(&self, instance: &mut MxlInstance, index: u64, count: usize, timeout_ns: u64)
        -> (r: Result<SamplesData>)
        requires
            old(instance).wf(),
        ensures
            final(instance).wf(),
            r is Ok <==> self.flow < old(instance).flows@.len() && entry_is_continuous(
                old(instance).flows@[self.flow as int],
            ) && cont_ring(old(instance).flows@[self.flow as int]).samples_readable(
                cont_cfg(old(instance).flows@[self.flow as int]),
                index,
                count as u64,
            ),
            r matches Ok(samples) ==> {
                &&& samples.channels@.len() == cont_cfg(
                    old(instance).flows@[self.flow as int],
                ).channel_count
                &&& (forall|ch: int|
                    0 <= ch < samples.channels@.len() ==> (#[trigger] samples.channels@[ch]).first@
                        + samples.channels@[ch].second@ == cont_ring(
                        old(instance).flows@[self.flow as int],
                    ).channel_window(
                        cont_cfg(old(instance).flows@[self.flow as int]),
                        index,
                        count as u64,
                        ch,
                    ))
                &&& (forall|ch: int|
                    0 <= ch < samples.channels@.len() ==> (
                    #[trigger] samples.channels@[ch]).first@.len()
                        + samples.channels@[ch].second@.len() == (count as int) * cont_cfg(
                        old(instance).flows@[self.flow as int],
                    ).sample_word_size)
                &&& (forall|ch: int|
                    0 <= ch < samples.channels@.len() ==> (
                    #[trigger] samples.channels@[ch]).first@.len() == crate::ring::spec_f1_bytes(
                        cont_cfg(old(instance).flows@[self.flow as int]),
                        index,
                        count as u64,
                    ) && samples.channels@[ch].second@.len() == crate::ring::spec_f2_bytes(
                        cont_cfg(old(instance).flows@[self.flow as int]),
                        index,
                        count as u64,
                    ))
                &&& final(instance).flows@ == old(instance).flows@.update(
                    self.flow as int,
                    (FlowEntry {
                        last_read_time: old(instance).now_ns,
                        ..old(instance).flows@[self.flow as int]
                    }),
                )
                &&& final(instance).now_ns == old(instance).now_ns
            },
            r == Err::<SamplesData, Error>(Error::OutOfRangeTooLate) <==> self.flow < old(
                instance,
            ).flows@.len() && entry_is_continuous(old(instance).flows@[self.flow as int])
                && crate::ring::spec_batch_args_ok(
                cont_cfg(old(instance).flows@[self.flow as int]),
                index,
                count as u64,
            ) && cont_ring(old(instance).flows@[self.flow as int]).started && index <= cont_ring(
                old(instance).flows@[self.flow as int],
            ).head && cont_ring(old(instance).flows@[self.flow as int]).head - index > cont_cfg(
                old(instance).flows@[self.flow as int],
            ).buffer_length - count,
            r == Err::<SamplesData, Error>(Error::OutOfRangeTooLate) ==> *final(instance) == *old(instance),
            r == Err::<SamplesData, Error>(Error::InvalidArg) ==> *final(instance) == *old(instance),
            r == Err::<SamplesData, Error>(Error::Timeout) <==> self.flow < old(
                instance,
            ).flows@.len() && old(instance).flows@[self.flow as int].config.details is Continuous
                && crate::ring::spec_batch_args_ok(
                cont_cfg(old(instance).flows@[self.flow as int]),
                index,
                count as u64,
            ) && (!cont_ring(old(instance).flows@[self.flow as int]).started || index > cont_ring(
                old(instance).flows@[self.flow as int],
            ).head),
            r == Err::<SamplesData, Error>(Error::Timeout) ==> final(instance).flows == old(
                instance,
            ).flows && final(instance).now_ns == if old(instance).now_ns + timeout_ns
                <= u64::MAX {
                (old(instance).now_ns + timeout_ns) as u64
            } else {
                u64::MAX
            },
    {
        if self.flow >= instance.flows.len() {
            return Err(Error::InvalidFlowReader);
        }
        let cfg = match instance.flows[self.flow].config.continuous() {
            Ok(cfg) => cfg,
            Err(_) => {
                return Err(Error::InvalidFlowReader);
            },
        };
        proof {
            assert(instance.flows@[self.flow as int].wf());
        }
        let outcome: Result<SamplesData> = match &instance.flows[self.flow].ring {
            RingState::Continuous(ring) => {
                match ring.read_samples(&cfg, index, count as u64) {
                    Ok(frags) => Ok(SamplesData { channels: frags }),
                    Err(Error::OutOfRangeTooLate) => Err(Error::OutOfRangeTooLate),
                    Err(Error::InvalidArg) => Err(Error::InvalidArg),
                    Err(_) => Err(Error::Timeout),
                }
            },
            RingState::Discrete(_) => Err(Error::InvalidFlowReader),
        };
        match outcome {
            Ok(samples) => {
                instance.touch_read(self.flow);
                Ok(samples)
            },
            Err(Error::Timeout) => {
                instance.sleep_for(timeout_ns);
                Err(Error::Timeout)
            },
            Err(e) => Err(e),
        }
    }

    /// Reads a batch of `count` samples ending at `index` without
    /// blocking.
    ///
    /// An unacceptable request is an invalid argument; a batch not yet
    /// written reports `TooEarly`, one already overwritten `TooLate`. The
    /// domain is never changed.
    pub fn get_samples_non_blocking(&self, instance: &MxlInstance, index: u64, count: usize)
        -> (r: Result<SamplesData>)
        requires
            instance.wf(),
        ensures
            r is Ok <==> self.flow < instance.flows@.len() && entry_is_continuous(
                instance.flows@[self.flow as int],
            ) && cont_ring(instance.flows@[self.flow as int]).samples_readable(
                cont_cfg(instance.flows@[self.flow as int]),
                index,
                count as u64,
            ),
            r matches Ok(samples) ==> {
                &&& samples.channels@.len() == cont_cfg(
                    instance.flows@[self.flow as int],
                ).channel_count
                &&& (forall|ch: int|
                    0 <= ch < samples.channels@.len() ==> (#[trigger] samples.channels@[ch]).first@
                        + samples.channels@[ch].second@ == cont_ring(
                        instance.flows@[self.flow as int],
                    ).channel_window(
                        cont_cfg(instance.flows@[self.flow as int]),
                        index,
                        count as u64,
                        ch,
                    ))
                &&& (forall|ch: int|
                    0 <= ch < samples.channels@.len() ==> (
                    #[trigger] samples.channels@[ch]).first@.len() == crate::ring::spec_f1_bytes(
                        cont_cfg(instance.flows@[self.flow as int]),
                        index,
                        count as u64,
                    ) && samples.channels@[ch].second@.len() == crate::ring::spec_f2_bytes(
                        cont_cfg(instance.flows@[self.flow as int]),
                        index,
                        count as u64,
                    ))
            },
    {
        if self.flow >= instance.flows.len() {
            return Err(Error::InvalidFlowReader);
        }
        let cfg = match instance.flows[self.flow].config.continuous() {
            Ok(cfg) => cfg,
            Err(_) => {
                return Err(Error::InvalidFlowReader);
            },
        };
        proof {
            assert(instance.flows@[self.flow as int].wf());
        }
        match &instance.flows[self.flow].ring {
            RingState::Continuous(ring) => {
                match ring.read_samples(&cfg, index, count as u64) {
                    Ok(frags) => Ok(SamplesData { channels: frags }),
                    Err(e) => Err(e),
                }
            },
            RingState::Discrete(_) => Err(Error::InvalidFlowReader),
        }
    }
}

} // verus!
