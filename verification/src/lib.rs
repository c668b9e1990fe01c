//! Media exchange over in-memory ring buffers.
//!
//! A domain ([`instance::MxlInstance`]) hosts a set of flows, each one a ring
//! buffer with an immutable configuration. A flow is either discrete (one
//! complete grain per index, e.g. a video frame) or continuous (a variable
//! batch of per-channel samples per index range, e.g. audio). Writers and
//! readers access ring memory through scoped sessions that must be committed
//! to become visible; the pacing modules translate between an external
//! presentation timeline and the ring's own monotonically indexed timeline.

pub mod error;
pub mod flow;
pub mod grain;
pub mod ids;
pub mod instance;
pub mod mxlsink;
pub mod mxlsrc;
pub mod rate;
pub mod ring;
pub mod samples;
pub mod version;

pub use error::{Error, Result};
pub use flow::flowdef;
pub use flow::reader::FlowReader;
pub use flow::writer::FlowWriter;
pub use flow::{
    CommonFlowConfigInfo, ContinuousFlowConfigInfo, DataFormat, DiscreteFlowConfigInfo,
    FlowConfigDetails, FlowConfigInfo, FlowInfo, FlowRuntimeInfo,
};
pub use grain::data::{GrainData, OwnedGrainData};
pub use grain::reader::GrainReader;
pub use grain::write_access::GrainWriteAccess;
pub use grain::writer::GrainWriter;
pub use instance::{FlowOptions, MxlInstance};
pub use rate::Rational;
pub use samples::data::{OwnedSamplesData, SamplesData};
pub use samples::reader::SamplesReader;
pub use samples::write_access::SamplesWriteAccess;
pub use samples::writer::SamplesWriter;
pub use version::VersionType;
