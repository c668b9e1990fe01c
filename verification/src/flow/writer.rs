//! Generic flow writer: a type-erased handle converted to a grain or
//! samples writer according to the flow's format.

use vstd::prelude::*;

use crate::error::{Error, Result};
use crate::flow::{spec_is_discrete_format, FlowConfigDetails, MXL_DATA_FORMAT_AUDIO};
use crate::grain::writer::GrainWriter;
use crate::instance::MxlInstance;
use crate::samples::writer::SamplesWriter;

verus! {

/// Generic flow writer handle, as returned by
/// [`MxlInstance::create_flow_writer`]. The flow it owns stays occupied
/// until the typed writer derived from it is destroyed.
#[derive(Debug)]
pub struct FlowWriter {
    /// Position of the owned flow in the domain.
    pub flow: usize,
    /// Identifier of the owned flow.
    pub id: u128,
}

impl FlowWriter {
    /// Converts this generic writer into a [`GrainWriter`] for discrete
    /// flows. Errors exactly when the handle is stale or the flow is
    /// continuous.
    pub fn to_grain_writer(self, instance: &MxlInstance) -> (r: Result<GrainWriter>)
        ensures
            r matches Ok(w) ==> w.flow == self.flow && self.flow < instance.flows@.len()
                && spec_is_discrete_format(
                instance.flows@[self.flow as int].config.common.format,
            ),
            r is Ok <==> self.flow < instance.flows@.len() && spec_is_discrete_format(
                instance.flows@[self.flow as int].config.common.format,
            ),
    {
        if self.flow >= instance.flows.len() {
            return Err(Error::InvalidFlowWriter);
        }
        if !instance.flows[self.flow].config.is_discrete_flow() {
            return Err(
                Error::Other("cannot convert FlowWriter to GrainWriter for continuous flow".to_owned()),
            );
        }
        Ok(GrainWriter { flow: self.flow })
    }

    /// Converts this generic writer into a [`SamplesWriter`] for continuous
    /// flows. Errors exactly when the handle is stale or the flow is
    /// discrete.
    pub fn to_samples_writer(self, instance: &MxlInstance) -> (r: Result<SamplesWriter>)
        ensures
            r matches Ok(w) ==> w.flow == self.flow && self.flow < instance.flows@.len()
                && instance.flows@[self.flow as int].config.common.format
                == MXL_DATA_FORMAT_AUDIO,
            r is Ok <==> self.flow < instance.flows@.len()
                && instance.flows@[self.flow as int].config.common.format
                == MXL_DATA_FORMAT_AUDIO && instance.flows@[self.flow as int].config.details
                is Continuous,
    {
        if self.flow >= instance.flows.len() {
            return Err(Error::InvalidFlowWriter);
        }
        match instance.flows[self.flow].config.continuous() {
            Ok(_) => {
                if instance.flows[self.flow].config.common.format == MXL_DATA_FORMAT_AUDIO {
                    Ok(SamplesWriter { flow: self.flow })
                } else {
                    Err(
                        Error::Other("cannot convert FlowWriter to SamplesWriter for discrete flow".to_owned()),
                    )
                }
            },
            Err(_) => Err(
                Error::Other("cannot convert FlowWriter to SamplesWriter for discrete flow".to_owned()),
            ),
        }
    }
}

} // verus!
