//! Generic flow reader: a type-erased handle converted to a grain or
//! samples reader according to the flow's format.

use vstd::prelude::*;

use crate::error::{Error, Result};
use crate::flow::{
    spec_is_discrete_format, FlowInfo, FlowRuntimeInfo, MXL_DATA_FORMAT_AUDIO,
};
use crate::grain::reader::GrainReader;
use crate::instance::MxlInstance;
use crate::samples::reader::SamplesReader;

verus! {

/// Looks up the configuration and runtime state of the flow a handle
/// points at.
pub(crate) fn flow_info_at(instance: &MxlInstance, flow: usize) -> (r: Result<FlowInfo>)
    ensures
        r is Ok <==> flow < instance.flows@.len(),
        r matches Ok(info) ==> {
            &&& info.config == instance.flows@[flow as int].config
            &&& info.runtime.head_index == instance.flows@[flow as int].spec_head()
            &&& info.runtime.last_write_time == instance.flows@[flow as int].last_write_time
            &&& info.runtime.last_read_time == instance.flows@[flow as int].last_read_time
        },
        r is Err ==> r == Err::<FlowInfo, Error>(Error::InvalidFlowReader),
{
    if flow >= instance.flows.len() {
        return Err(Error::InvalidFlowReader);
    }
    let entry = &instance.flows[flow];
    let head_index = match &entry.ring {
        crate::instance::RingState::Discrete(ring) => ring.head,
        crate::instance::RingState::Continuous(ring) => ring.head,
    };
    Ok(
        FlowInfo {
            config: entry.config,
            runtime: FlowRuntimeInfo {
                head_index,
                last_write_time: entry.last_write_time,
                last_read_time: entry.last_read_time,
            },
        },
    )
}

/// Generic flow reader handle, as returned by
/// [`MxlInstance::create_flow_reader`].
#[derive(Debug)]
pub struct FlowReader {
    /// Position of the read flow in the domain.
    pub flow: usize,
}

impl FlowReader {
    /// Retrieves complete flow information (configuration and runtime
    /// state). Errors exactly when the handle is stale.
    pub fn get_info(&self, instance: &MxlInstance) -> (r: Result<FlowInfo>)
        ensures
            r is Ok <==> self.flow < instance.flows@.len(),
            r matches Ok(info) ==> {
                &&& info.config == instance.flows@[self.flow as int].config
                &&& info.runtime.head_index == instance.flows@[self.flow as int].spec_head()
                &&& info.runtime.last_write_time == instance.flows@[self.flow as int].last_write_time
                &&& info.runtime.last_read_time == instance.flows@[self.flow as int].last_read_time
            },
    {
        flow_info_at(instance, self.flow)
    }

    /// Converts this generic reader into a [`GrainReader`] for discrete
    /// flows. Errors exactly when the handle is stale or the flow is
    /// continuous.
    pub fn to_grain_reader(self, instance: &MxlInstance) -> (r: Result<GrainReader>)
        ensures
            r matches Ok(reader) ==> reader.flow == self.flow && self.flow
                < instance.flows@.len() && spec_is_discrete_format(
                instance.flows@[self.flow as int].config.common.format,
            ),
            r is Ok <==> self.flow < instance.flows@.len() && spec_is_discrete_format(
                instance.flows@[self.flow as int].config.common.format,
            ),
    {
        if self.flow >= instance.flows.len() {
            return Err(Error::InvalidFlowReader);
        }
        if !instance.flows[self.flow].config.is_discrete_flow() {
            return Err(
                Error::Other("cannot convert FlowReader to GrainReader for continuous flow".to_owned()),
            );
        }
        Ok(GrainReader { flow: self.flow })
    }

    /// Converts this generic reader into a [`SamplesReader`] for continuous
    /// flows. Errors exactly when the handle is stale or the flow is
    /// discrete.
    pub fn to_samples_reader(self, instance: &MxlInstance) -> (r: Result<SamplesReader>)
        ensures
            r matches Ok(reader) ==> reader.flow == self.flow && self.flow
                < instance.flows@.len() && instance.flows@[self.flow as int].config.common.format
                == MXL_DATA_FORMAT_AUDIO,
            r is Ok <==> self.flow < instance.flows@.len()
                && instance.flows@[self.flow as int].config.common.format
                == MXL_DATA_FORMAT_AUDIO,
    {
        if self.flow >= instance.flows.len() {
            return Err(Error::InvalidFlowReader);
        }
        let format = instance.flows[self.flow].config.common.format;
        if format != MXL_DATA_FORMAT_AUDIO {
            return Err(
                Error::Other("cannot convert FlowReader to SamplesReader for discrete flow".to_owned()),
            );
        }
        Ok(SamplesReader { flow: self.flow })
    }
}

} // verus!
