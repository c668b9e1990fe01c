//! Scoped grain write session.

use vstd::prelude::*;

use crate::error::{Error, Result};
use crate::instance::{disc_cfg, disc_ring, entry_is_discrete, MxlInstance};
use crate::ring::grain_commit_post;

verus! {

/// A scoped grain writing session.
///
/// The session stages the grain's payload; nothing reaches the ring until
/// [`Self::commit`] is called. Exactly one of commit or [`Self::cancel`]
/// consumes the session; a session dropped without either behaves like a
/// cancel, leaving the flow's head index unchanged.
#[derive(Debug)]
pub struct GrainWriteAccess {
    /// Position of the flow being written.
    pub flow: usize,
    /// Logical index the session is bound to.
    pub index: u64,
    /// Number of slices of the grain.
    pub total_slices: u16,
    /// Capacity of the grain payload in bytes.
    pub max_size: u32,
    /// The staged payload, one byte per capacity byte.
    pub payload: Vec<u8>,
}

impl GrainWriteAccess {
    /// Returns mutable access to the staged payload buffer.
    pub fn payload_mut(&mut self) -> (r: &mut Vec<u8>)
        ensures
            *r == old(self).payload,
            final(self).payload == *final(r),
            final(self).flow == old(self).flow,
            final(self).index == old(self).index,
            final(self).total_slices == old(self).total_slices,
            final(self).max_size == old(self).max_size,
    {
        &mut self.payload
    }

    /// Returns the maximum size of the grain payload in bytes.
    pub fn max_size(&self) -> (r: u32)
        ensures
            r == self.max_size,
    {
        self.max_size
    }

    /// Returns the total number of slices in this grain. A complete commit
    /// passes this value to [`Self::commit`].
    pub fn total_slices(&self) -> (r: u16)
        ensures
            r == self.total_slices,
    {
        self.total_slices
    }

    /// Commits the grain, making it visible to readers: the staged payload
    /// is installed in the grain's slot and the flow's head index advances
    /// to cover it.
    ///
    /// Declaring more valid slices than the grain has is an error, as is a
    /// stale session (wrong flow, resized payload); a failed commit leaves
    /// the domain untouched.
    pub fn commit(self, instance: &mut MxlInstance, valid_slices: u16) -> (r: Result<()>)
        requires
            old(instance).wf(),
        ensures
            final(instance).wf(),
            final(instance).now_ns == old(instance).now_ns,
            r is Err ==> *final(instance) == *old(instance),
            valid_slices > self.total_slices ==> r is Err,
            r is Ok <==> valid_slices <= self.total_slices && self.flow < old(
                instance,
            ).flows@.len() && old(instance).flows@[self.flow as int].config.details is Discrete
                && self.payload@.len() == disc_cfg(
                old(instance).flows@[self.flow as int],
            ).grain_size && self.total_slices == disc_cfg(
                old(instance).flows@[self.flow as int],
            ).total_slices,
            r is Ok ==> {
                &&& final(instance).flows@.len() == old(instance).flows@.len()
                &&& (forall|i: int|
                    0 <= i < old(instance).flows@.len() && i != self.flow ==> final(instance).flows@[i]
                        == old(instance).flows@[i])
                &&& entry_is_discrete(final(instance).flows@[self.flow as int])
                &&& grain_commit_post(
                    disc_ring(old(instance).flows@[self.flow as int]),
                    disc_ring(final(instance).flows@[self.flow as int]),
                    disc_cfg(old(instance).flows@[self.flow as int]),
                    self.index,
                    self.payload@,
                    valid_slices,
                )
                &&& final(instance).flows@[self.flow as int].config == old(
                    instance,
                ).flows@[self.flow as int].config
                &&& final(instance).flows@[self.flow as int].last_write_time == old(
                    instance,
                ).now_ns
            },
    {
        if valid_slices > self.total_slices {
            return Err(Error::Other("valid slices cannot exceed total slices".to_owned()));
        }
        if self.flow >= instance.flows.len() {
            return Err(Error::InvalidFlowWriter);
        }
        let cfg = match instance.flows[self.flow].config.discrete() {
            Ok(cfg) => cfg,
            Err(_) => {
                return Err(Error::InvalidFlowWriter);
            },
        };
        if self.payload.len() != cfg.grain_size as usize || self.total_slices
            != cfg.total_slices {
            return Err(Error::InvalidArg);
        }
        proof {
            assert(instance.flows@[self.flow as int].wf());
        }
        instance.commit_grain_at(self.flow, self.index, self.payload, valid_slices);
        Ok(())
    }

    /// Cancels the grain write session without committing.
    ///
    /// The session is consumed and the staged payload discarded; the flow's
    /// head index does not move and readers see no change at all (the
    /// session never touched the domain).
    pub fn cancel(self) -> (r: Result<()>)
        ensures
            r is Ok,
    {
        Ok(())
    }
}

} // verus!
