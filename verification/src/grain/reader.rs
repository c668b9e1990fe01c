//! Grain reader for discrete flows.

use vstd::prelude::*;

use crate::error::{Error, Result};
use crate::flow::reader::flow_info_at;
use crate::flow::{FlowConfigInfo, FlowInfo, FlowRuntimeInfo};
use crate::grain::data::GrainData;
use crate::instance::{disc_cfg, disc_ring, entry_is_discrete, FlowEntry, MxlInstance, RingState};
use crate::ring::{copy_bytes, copy_prefix};

verus! {

/// Reader for discrete media grains.
///
/// Grains are addressed by index; reads are blocking (with a timeout) or
/// non-blocking. Each read returns a copy of the committed payload.
#[derive(Debug)]
pub struct GrainReader {
    /// Position of the read flow in the domain.
    pub flow: usize,
}

impl GrainReader {
    /// Releases this reader. Readers hold no exclusive resource, so this
    /// always succeeds.
    pub fn destroy(self) -> (r: Result<()>)
        ensures
            r is Ok,
    {
        Ok(())
    }

    /// Retrieves complete flow information (configuration and runtime
    /// state). Errors exactly when the handle is stale.
    pub fn get_info(&self, instance: &MxlInstance) -> (r: Result<FlowInfo>)
        ensures
            r is Ok <==> self.flow < instance.flows@.len(),
            r matches Ok(info) ==> info.config == instance.flows@[self.flow as int].config
                && info.runtime.head_index == instance.flows@[self.flow as int].spec_head(),
    {
        flow_info_at(instance, self.flow)
    }

    /// Retrieves the flow's configuration. Errors exactly when the handle
    /// is stale.
    pub fn get_config_info(&self, instance: &MxlInstance) -> (r: Result<FlowConfigInfo>)
        ensures
            r is Ok <==> self.flow < instance.flows@.len(),
            r matches Ok(config) ==> config == instance.flows@[self.flow as int].config,
    {
        match flow_info_at(instance, self.flow) {
            Ok(info) => Ok(info.config),
            Err(e) => Err(e),
        }
    }

    /// Retrieves the flow's runtime state (head index, last access times).
    /// Errors exactly when the handle is stale.
    pub fn get_runtime_info(&self, instance: &MxlInstance) -> (r: Result<FlowRuntimeInfo>)
        ensures
            r is Ok <==> self.flow < instance.flows@.len(),
            r matches Ok(runtime) ==> runtime.head_index
                == instance.flows@[self.flow as int].spec_head(),
    {
        match flow_info_at(instance, self.flow) {
            Ok(info) => Ok(info.runtime),
            Err(e) => Err(e),
        }
    }

    /// Reads a complete grain, blocking up to `timeout_ns`.
    ///
    /// A grain that is not there (not yet written, a gap, or committed
    /// incomplete) leaves the reader waiting until the timeout runs out,
    /// which reports `Timeout`; a grain that has been overwritten reports
    /// `TooLate` at once. On success the grain's payload is returned whole
    /// and the domain is untouched apart from the read timestamp.
    pub fn get_complete_grain(&self, instance: &mut MxlInstance, index: u64, timeout_ns: u64)
        -> (r: Result<GrainData>)
        requires
            old(instance).wf(),
        ensures
            final(instance).wf(),
            r is Ok <==> self.flow < old(instance).flows@.len() && entry_is_discrete(
                old(instance).flows@[self.flow as int],
            ) && disc_ring(old(instance).flows@[self.flow as int]).readable(
                disc_cfg(old(instance).flows@[self.flow as int]),
                index,
            ) && disc_ring(old(instance).flows@[self.flow as int]).slot_at(
                disc_cfg(old(instance).flows@[self.flow as int]),
                index,
            ).valid_slices == disc_ring(old(instance).flows@[self.flow as int]).slot_at(
                disc_cfg(old(instance).flows@[self.flow as int]),
                index,
            ).total_slices,
            r matches Ok(grain) ==> {
                &&& grain.payload@ == disc_ring(old(instance).flows@[self.flow as int]).slot_at(
                    disc_cfg(old(instance).flows@[self.flow as int]),
                    index,
                ).payload@
                &&& grain.total_size == disc_cfg(
                    old(instance).flows@[self.flow as int],
                ).grain_size
                &&& grain.flags == disc_ring(old(instance).flows@[self.flow as int]).slot_at(
                    disc_cfg(old(instance).flows@[self.flow as int]),
                    index,
                ).flags
                &&& final(instance).flows@ == old(instance).flows@.update(
                    self.flow as int,
                    (FlowEntry {
                        last_read_time: old(instance).now_ns,
                        ..old(instance).flows@[self.flow as int]
                    }),
                )
                &&& final(instance).now_ns == old(instance).now_ns
            },
            r == Err::<GrainData, Error>(Error::OutOfRangeTooLate) <==> self.flow < old(
                instance,
            ).flows@.len() && entry_is_discrete(old(instance).flows@[self.flow as int])
                && disc_ring(old(instance).flows@[self.flow as int]).overwritten(
                disc_cfg(old(instance).flows@[self.flow as int]),
                index,
            ),
            r == Err::<GrainData, Error>(Error::OutOfRangeTooLate) ==> *final(instance) == *old(instance),
            r == Err::<GrainData, Error>(Error::Timeout) <==> self.flow < old(
                instance,
            ).flows@.len() && old(instance).flows@[self.flow as int].config.details is Discrete
                && !disc_ring(old(instance).flows@[self.flow as int]).overwritten(
                disc_cfg(old(instance).flows@[self.flow as int]),
                index,
            ) && !(disc_ring(old(instance).flows@[self.flow as int]).readable(
                disc_cfg(old(instance).flows@[self.flow as int]),
                index,
            ) && disc_ring(old(instance).flows@[self.flow as int]).slot_at(
                disc_cfg(old(instance).flows@[self.flow as int]),
                index,
            ).valid_slices == disc_ring(old(instance).flows@[self.flow as int]).slot_at(
                disc_cfg(old(instance).flows@[self.flow as int]),
                index,
            ).total_slices),
            r == Err::<GrainData, Error>(Error::Timeout) ==> final(instance).flows == old(
                instance,
            ).flows && final(instance).now_ns == if old(instance).now_ns + timeout_ns
                <= u64::MAX {
                (old(instance).now_ns + timeout_ns) as u64
            } else {
                u64::MAX
            },
    {
        if self.flow >= instance.flows.len() {
            return Err(Error::InvalidFlowReader);
        }
        let cfg = match instance.flows[self.flow].config.discrete() {
            Ok(cfg) => cfg,
            Err(_) => {
                return Err(Error::InvalidFlowReader);
            },
        };
        let outcome: Result<GrainData> = match &instance.flows[self.flow].ring {
            RingState::Discrete(ring) => {
                match ring.read_grain(&cfg, index) {
                    Ok(slot) => {
                        if slot.valid_slices == slot.total_slices {
                            Ok(
                                GrainData {
                                    payload: copy_bytes(&slot.payload),
                                    total_size: cfg.grain_size as usize,
                                    flags: slot.flags,
                                },
                            )
                        } else {
                            // The grain is still partial: keep waiting for the
                            // missing slices until the timeout runs out.
                            Err(Error::Timeout)
                        }
                    },
                    Err(Error::OutOfRangeTooLate) => Err(Error::OutOfRangeTooLate),
                    Err(_) => Err(Error::Timeout),
                }
            },
            RingState::Continuous(_) => Err(Error::InvalidFlowReader),
        };
        match outcome {
            Ok(grain) => {
                instance.touch_read(self.flow);
                Ok(grain)
            },
            Err(Error::Timeout) => {
                instance.sleep_for(timeout_ns);
                Err(Error::Timeout)
            },
            Err(e) => Err(e),
        }
    }

    /// Reads a grain without blocking; a partial grain is returned with a
    /// truncated payload rather than waited for.
    ///
    /// A grain that is not there reports `TooEarly`; one that has been
    /// overwritten reports `TooLate`. The domain is never changed.
    pub fn get_grain_non_blocking(&self, instance: &MxlInstance, index: u64) -> (r: Result<
        GrainData,
    >)
        requires
            instance.wf(),
        ensures
            r is Ok <==> self.flow < instance.flows@.len() && entry_is_discrete(
                instance.flows@[self.flow as int],
            ) && disc_ring(instance.flows@[self.flow as int]).readable(
                disc_cfg(instance.flows@[self.flow as int]),
                index,
            ),
            r matches Ok(grain) ==> {
                &&& grain.total_size == disc_cfg(instance.flows@[self.flow as int]).grain_size
                &&& grain.flags == disc_ring(instance.flows@[self.flow as int]).slot_at(
                    disc_cfg(instance.flows@[self.flow as int]),
                    index,
                ).flags
                &&& grain.payload@ == disc_ring(instance.flows@[self.flow as int]).slot_at(
                    disc_cfg(instance.flows@[self.flow as int]),
                    index,
                ).payload@.subrange(
                    0,
                    (disc_cfg(instance.flows@[self.flow as int]).grain_size as int) * (disc_ring(
                        instance.flows@[self.flow as int],
                    ).slot_at(disc_cfg(instance.flows@[self.flow as int]), index).valid_slices
                        as int) / (disc_cfg(
                        instance.flows@[self.flow as int],
                    ).total_slices as int),
                )
            },
            r == Err::<GrainData, Error>(Error::OutOfRangeTooLate) <==> self.flow
                < instance.flows@.len() && entry_is_discrete(instance.flows@[self.flow as int])
                && disc_ring(instance.flows@[self.flow as int]).overwritten(
                disc_cfg(instance.flows@[self.flow as int]),
                index,
            ),
            r == Err::<GrainData, Error>(Error::OutOfRangeTooEarly) <==> self.flow
                < instance.flows@.len() && entry_is_discrete(instance.flows@[self.flow as int])
                && !disc_ring(instance.flows@[self.flow as int]).overwritten(
                disc_cfg(instance.flows@[self.flow as int]),
                index,
            ) && !disc_ring(instance.flows@[self.flow as int]).readable(
                disc_cfg(instance.flows@[self.flow as int]),
                index,
            ),
    {
        if self.flow >= instance.flows.len() {
            return Err(Error::InvalidFlowReader);
        }
        let cfg = match instance.flows[self.flow].config.discrete() {
            Ok(cfg) => cfg,
            Err(_) => {
                return Err(Error::InvalidFlowReader);
            },
        };
        match &instance.flows[self.flow].ring {
            RingState::Discrete(ring) => {
                match ring.read_grain(&cfg, index) {
                    Ok(slot) => {
                        proof {
                            assert(instance.flows@[self.flow as int].wf());
                        }
                        proof {
                            assert((cfg.grain_size as int) * (slot.valid_slices as int) <= (
                            u32::MAX as int) * (u16::MAX as int)) by (nonlinear_arith)
                                requires
                                    cfg.grain_size <= u32::MAX,
                                    slot.valid_slices <= u16::MAX,
                            ;
                        }
                        let wide: u64 = (cfg.grain_size as u64) * (slot.valid_slices as u64);
                        let cut: u64 = wide / (cfg.total_slices as u64);
                        proof {
                            assert((cfg.grain_size as int) * (slot.valid_slices as int) <= (
                            cfg.grain_size as int) * (cfg.total_slices as int))
                                by (nonlinear_arith)
                                requires
                                    slot.valid_slices <= cfg.total_slices,
                                    cfg.grain_size >= 0,
                            ;
                            assert((cfg.grain_size as int) * (cfg.total_slices as int) / (
                            cfg.total_slices as int) == cfg.grain_size as int)
                                by (nonlinear_arith)
                                requires
                                    cfg.total_slices >= 1,
                            ;
                            assert(cut <= cfg.grain_size) by (nonlinear_arith)
                                requires
                                    cut == (cfg.grain_size as int) * (slot.valid_slices as int) / (
                                    cfg.total_slices as int),
                                    (cfg.grain_size as int) * (slot.valid_slices as int) <= (
                                    cfg.grain_size as int) * (cfg.total_slices as int),
                                    cfg.total_slices >= 1,
                                    cfg.grain_size >= 0,
                            ;
                        }
                        Ok(
                            GrainData {
                                payload: copy_prefix(&slot.payload, cut as usize),
                                total_size: cfg.grain_size as usize,
                                flags: slot.flags,
                            },
                        )
                    },
                    Err(e) => Err(e),
                }
            },
            RingState::Continuous(_) => Err(Error::InvalidFlowReader),
        }
    }
}

} // verus!
