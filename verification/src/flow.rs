//! Flow types and metadata structures.
//!
//! A flow is one ring buffer plus its immutable configuration, either
//! discrete (grain-based) or continuous (sample-based). This module holds
//! the configuration and runtime metadata shared by readers and writers.

pub mod flowdef;
pub mod reader;
pub mod writer;

use vstd::prelude::*;

use crate::error::{Error, Result};
use crate::rate::{rate_valid, Rational};

verus! {

/// Raw format code: format not specified.
pub const MXL_DATA_FORMAT_UNSPECIFIED: u32 = 0;

/// Raw format code: video (discrete, grain-based).
pub const MXL_DATA_FORMAT_VIDEO: u32 = 1;

/// Raw format code: audio (continuous, sample-based).
pub const MXL_DATA_FORMAT_AUDIO: u32 = 2;

/// Raw format code: generic data packets (discrete, grain-based).
pub const MXL_DATA_FORMAT_DATA: u32 = 3;

/// Media data format classification for flows.
#[derive(Debug, Clone, Copy, PartialEq, Eq, Structural)]
pub enum DataFormat {
    /// Format not specified or unknown.
    Unspecified,
    /// Video data (discrete, grain-based).
    Video,
    /// Audio data (continuous, sample-based).
    Audio,
    /// Generic data packets (discrete, grain-based).
    Data,
}

/// The classification that a raw format code maps to.
pub open spec fn spec_data_format(value: u32) -> DataFormat {
    if value == MXL_DATA_FORMAT_VIDEO {
        DataFormat::Video
    } else if value == MXL_DATA_FORMAT_AUDIO {
        DataFormat::Audio
    } else if value == MXL_DATA_FORMAT_DATA {
        DataFormat::Data
    } else {
        DataFormat::Unspecified
    }
}

impl From<u32> for DataFormat {
    /// Converts a raw format code to a [`DataFormat`].
    fn from(value: u32) -> (r: DataFormat) {
        if value == MXL_DATA_FORMAT_VIDEO {
            DataFormat::Video
        } else if value == MXL_DATA_FORMAT_AUDIO {
            DataFormat::Audio
        } else if value == MXL_DATA_FORMAT_DATA {
            DataFormat::Data
        } else {
            DataFormat::Unspecified
        }
    }
}

impl vstd::std_specs::convert::FromSpecImpl<u32> for DataFormat {
    open spec fn obeys_from_spec() -> bool {
        true
    }

    open spec fn from_spec(value: u32) -> DataFormat {
        spec_data_format(value)
    }
}

/// True when a raw format code uses discrete (grain-based) delivery.
pub open spec fn spec_is_discrete_format(format: u32) -> bool {
    format == MXL_DATA_FORMAT_VIDEO || format == MXL_DATA_FORMAT_DATA
}

/// Determines whether a format uses discrete (grain-based) delivery.
///
/// Video and generic data flows use discrete delivery, audio uses
/// continuous (sample-based) delivery.
pub fn is_discrete_data_format(format: u32) -> (r: bool)
    ensures
        r == spec_is_discrete_format(format),
{
    format == MXL_DATA_FORMAT_VIDEO || format == MXL_DATA_FORMAT_DATA
}

/// Configuration fields specific to discrete (grain-based) flows.
#[derive(Debug, Clone, Copy, PartialEq, Eq, Structural)]
pub struct DiscreteFlowConfigInfo {
    /// Number of grain slots in the ring buffer.
    pub grain_count: u32,
    /// Capacity of one grain's payload in bytes.
    pub grain_size: u32,
    /// Number of slices each grain is divided into.
    pub total_slices: u16,
}

/// Configuration fields specific to continuous (sample-based) flows.
#[derive(Debug, Clone, Copy, PartialEq, Eq, Structural)]
pub struct ContinuousFlowConfigInfo {
    /// Ring capacity in samples per channel.
    pub buffer_length: u32,
    /// Number of channels.
    pub channel_count: u32,
    /// Bytes per sample.
    pub sample_word_size: u32,
}

/// Common flow configuration fields shared across all flow types.
#[derive(Debug, Clone, Copy, PartialEq, Eq, Structural)]
pub struct CommonFlowConfigInfo {
    /// The flow's unique identifier (the UUID's 128-bit value).
    pub id: u128,
    /// Raw media data format code.
    pub format: u32,
    /// Grain rate (discrete) or sample rate (continuous).
    pub grain_rate: Rational,
    /// The writer's preferred commit batch size, 0 if not set.
    pub max_commit_batch_size_hint: u32,
    /// The optimal batch size for synchronized reads, 0 if not set.
    pub max_sync_batch_size_hint: u32,
    /// Payload storage location flags.
    pub payload_location: u32,
    /// Device index for device-backed flows, -1 for system memory.
    pub device_index: i32,
}

impl CommonFlowConfigInfo {
    /// Returns the flow's unique identifier.
    pub fn id(&self) -> (r: u128)
        ensures
            r == self.id,
    {
        self.id
    }

    /// Returns the flow's identifier in its canonical hyphenated UUID text
    /// form; [`crate::instance::MxlInstance::create_flow_reader`] accepts it
    /// and resolves it back to this identifier.
    pub fn id_string(&self) -> (r: String)
        ensures
            r@ == crate::ids::flow_id_text(self.id),
            r@.len() == 36,
            crate::ids::parsed_flow_id(r@) == Some(self.id),
    {
        crate::ids::format_flow_id(self.id)
    }

    /// Returns the media data format of this flow.
    pub fn data_format(&self) -> (r: DataFormat)
        ensures
            r == spec_data_format(self.format),
    {
        DataFormat::from(self.format)
    }

    /// Returns `true` if this is a discrete (grain-based) flow.
    pub fn is_discrete_flow(&self) -> (r: bool)
        ensures
            r == spec_is_discrete_format(self.format),
    {
        is_discrete_data_format(self.format)
    }

    /// Returns the rate as a rational number (grain rate or sample rate).
    pub fn grain_or_sample_rate(&self) -> (r: Rational)
        ensures
            r == self.grain_rate,
    {
        self.grain_rate
    }

    /// Returns the grain rate for discrete flows (video/data).
    ///
    /// Errors exactly when the flow is not discrete.
    pub fn grain_rate(&self) -> (r: Result<Rational>)
        ensures
            spec_is_discrete_format(self.format) <==> r == Ok::<Rational, Error>(self.grain_rate),
            !spec_is_discrete_format(self.format) <==> r is Err,
    {
        let data_format = self.data_format();
        if data_format != DataFormat::Video && data_format != DataFormat::Data {
            return Err(
                Error::Other("grain rate is only relevant for discrete flows".to_owned()),
            );
        }
        Ok(self.grain_rate)
    }

    /// Returns the sample rate for continuous flows (audio).
    ///
    /// Errors exactly when the flow is not audio.
    pub fn sample_rate(&self) -> (r: Result<Rational>)
        ensures
            self.format == MXL_DATA_FORMAT_AUDIO <==> r == Ok::<Rational, Error>(self.grain_rate),
            self.format != MXL_DATA_FORMAT_AUDIO <==> r is Err,
    {
        let data_format = self.data_format();
        if data_format != DataFormat::Audio {
            return Err(
                Error::Other("sample rate is only relevant for continuous flows".to_owned()),
            );
        }
        Ok(self.grain_rate)
    }

    /// Returns the maximum commit batch size hint from the writer.
    pub fn max_commit_batch_size_hint(&self) -> (r: u32)
        ensures
            r == self.max_commit_batch_size_hint,
    {
        self.max_commit_batch_size_hint
    }

    /// Returns the maximum synchronization batch size hint.
    pub fn max_sync_batch_size_hint(&self) -> (r: u32)
        ensures
            r == self.max_sync_batch_size_hint,
    {
        self.max_sync_batch_size_hint
    }

    /// Returns the payload storage location flags.
    pub fn payload_location(&self) -> (r: u32)
        ensures
            r == self.payload_location,
    {
        self.payload_location
    }

    /// Returns the device index for device-backed flows.
    pub fn device_index(&self) -> (r: i32)
        ensures
            r == self.device_index,
    {
        self.device_index
    }
}

/// Format-specific configuration of a flow.
#[derive(Debug, Clone, Copy, PartialEq, Eq, Structural)]
pub enum FlowConfigDetails {
    /// Configuration of a discrete flow.
    Discrete(DiscreteFlowConfigInfo),
    /// Configuration of a continuous flow.
    Continuous(ContinuousFlowConfigInfo),
}

/// Flow configuration metadata.
///
/// Set when the flow is created; immutable thereafter.
#[derive(Debug, Clone, Copy, PartialEq, Eq, Structural)]
pub struct FlowConfigInfo {
    /// Fields shared by all flow types.
    pub common: CommonFlowConfigInfo,
    /// Format-specific fields.
    pub details: FlowConfigDetails,
}

impl FlowConfigInfo {
    /// A configuration is well formed when its rate is valid, its format
    /// discriminator matches its details, and its capacities are nonzero.
    pub open spec fn wf(&self) -> bool {
        &&& rate_valid(self.common.grain_rate)
        &&& match self.details {
            FlowConfigDetails::Discrete(d) => {
                &&& spec_is_discrete_format(self.common.format)
                &&& d.grain_count >= 1
                &&& d.total_slices >= 1
            },
            FlowConfigDetails::Continuous(c) => {
                &&& self.common.format == MXL_DATA_FORMAT_AUDIO
                &&& c.buffer_length >= 1
                &&& c.channel_count >= 1
                &&& c.sample_word_size >= 1
            },
        }
    }

    /// Returns the discrete flow configuration (for video and data flows).
    ///
    /// Errors exactly when the flow is continuous.
    pub fn discrete(&self) -> (r: Result<DiscreteFlowConfigInfo>)
        ensures
            r matches Ok(d) ==> self.details == FlowConfigDetails::Discrete(d),
            r is Ok <==> self.details is Discrete,
    {
        match &self.details {
            FlowConfigDetails::Discrete(discrete) => Ok(*discrete),
            FlowConfigDetails::Continuous(_) => Err(
                Error::Other("flow is continuous, video or data required".to_owned()),
            ),
        }
    }

    /// Returns the continuous flow configuration (for audio flows).
    ///
    /// Errors exactly when the flow is discrete.
    pub fn continuous(&self) -> (r: Result<ContinuousFlowConfigInfo>)
        ensures
            r matches Ok(c) ==> self.details == FlowConfigDetails::Continuous(c),
            r is Ok <==> self.details is Continuous,
    {
        match &self.details {
            FlowConfigDetails::Continuous(continuous) => Ok(*continuous),
            FlowConfigDetails::Discrete(_) => Err(
                Error::Other("flow is discrete, audio required".to_owned()),
            ),
        }
    }

    /// Returns the common configuration fields shared by all flow types.
    pub fn common(&self) -> (r: CommonFlowConfigInfo)
        ensures
            r == self.common,
    {
        self.common
    }

    /// Returns `true` if this is a discrete (grain-based) flow.
    pub fn is_discrete_flow(&self) -> (r: bool)
        ensures
            r == spec_is_discrete_format(self.common.format),
    {
        is_discrete_data_format(self.common.format)
    }
}

/// Dynamic runtime information about a flow.
#[derive(Debug, Clone, Copy, PartialEq, Eq, Structural)]
pub struct FlowRuntimeInfo {
    /// The most recently committed index.
    pub head_index: u64,
    /// TAI timestamp of the last write, in nanoseconds.
    pub last_write_time: u64,
    /// TAI timestamp of the last read, in nanoseconds.
    pub last_read_time: u64,
}

impl FlowRuntimeInfo {
    /// Returns the current head index of the flow: the index of the last
    /// committed grain (discrete) or sample (continuous).
    pub fn head_index(&self) -> (r: u64)
        ensures
            r == self.head_index,
    {
        self.head_index
    }

    /// Returns the TAI timestamp of the last write, in nanoseconds.
    pub fn last_write_time(&self) -> (r: u64)
        ensures
            r == self.last_write_time,
    {
        self.last_write_time
    }

    /// Returns the TAI timestamp of the last read, in nanoseconds.
    pub fn last_read_time(&self) -> (r: u64)
        ensures
            r == self.last_read_time,
    {
        self.last_read_time
    }
}

/// Complete flow information: configuration and runtime state.
pub struct FlowInfo {
    /// Static flow configuration.
    pub config: FlowConfigInfo,
    /// Dynamic runtime state.
    pub runtime: FlowRuntimeInfo,
}

} // verus!
