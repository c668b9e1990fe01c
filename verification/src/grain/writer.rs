//! Grain writer for discrete flows.

use vstd::prelude::*;

use crate::error::{Error, Result};
use crate::flow::FlowConfigDetails;
use crate::grain::write_access::GrainWriteAccess;
use crate::instance::{FlowEntry, MxlInstance};
use crate::ring::zero_bytes;

verus! {

/// Writer for discrete media grains.
///
/// Each grain is opened at a specific index, filled through a
/// [`GrainWriteAccess`] session, and committed to become visible.
#[derive(Debug)]
pub struct GrainWriter {
    /// Position of the owned flow in the domain.
    pub flow: usize,
}

impl GrainWriter {
    /// Releases the writer, freeing the flow for a future writer. Errors
    /// exactly when the handle is stale; the flow's data stays as it is
    /// either way.
    pub fn destroy(self, instance: &mut MxlInstance) -> (r: Result<()>)
        requires
            old(instance).wf(),
        ensures
            final(instance).wf(),
            final(instance).now_ns == old(instance).now_ns,
            r is Ok <==> self.flow < old(instance).flows@.len(),
            r is Ok ==> final(instance).flows@ == old(instance).flows@.update(
                self.flow as int,
                (FlowEntry { writer_active: false, ..old(instance).flows@[self.flow as int] }),
            ),
            r is Err ==> *final(instance) == *old(instance),
    {
        if self.flow >= instance.flows.len() {
            return Err(Error::InvalidArg);
        }
        instance.set_writer_active(self.flow, false);
        Ok(())
    }

    /// Opens a grain for writing at the specified index.
    ///
    /// The session stages a zeroed payload of the grain's capacity; the
    /// ring itself is untouched until the session is committed. Errors
    /// exactly when the handle is stale or the flow is not discrete.
    pub fn open_grain(&self, instance: &MxlInstance, index: u64) -> (r: Result<GrainWriteAccess>)
        ensures
            r is Ok <==> self.flow < instance.flows@.len()
                && instance.flows@[self.flow as int].config.details is Discrete,
            r matches Ok(access) ==> {
                &&& access.flow == self.flow
                &&& access.index == index
                &&& (instance.flows@[self.flow as int].config.details matches
                FlowConfigDetails::Discrete(cfg) && access.total_slices == cfg.total_slices
                    && access.max_size == cfg.grain_size && access.payload@.len()
                    == cfg.grain_size)
                &&& (forall|i: int| 0 <= i < access.payload@.len() ==> access.payload@[i] == 0u8)
            },
    {
        if self.flow >= instance.flows.len() {
            return Err(Error::InvalidFlowWriter);
        }
        let cfg = match instance.flows[self.flow].config.discrete() {
            Ok(cfg) => cfg,
            Err(e) => {
                return Err(e);
            },
        };
        Ok(
            GrainWriteAccess {
                flow: self.flow,
                index,
                total_slices: cfg.total_slices,
                max_size: cfg.grain_size,
                payload: zero_bytes(cfg.grain_size as usize),
            },
        )
    }
}

} // verus!
