//! State for the reader side.

use vstd::prelude::*;

use crate::flow::reader::FlowReader;
use crate::grain::reader::GrainReader;
use crate::rate::Rational;
use crate::samples::reader::SamplesReader;

verus! {

/// Timeline synchronization: the pair of positions (ring timeline,
/// external timeline) that output timestamps are derived from.
#[derive(Debug, Clone, Copy, PartialEq, Eq, Structural, Default)]
pub struct InitialTime {
    /// Ring timeline position when the baseline was (re)established.
    pub mxl_index: u64,
    /// External running time when the baseline was (re)established.
    pub gst_time: u64,
}

/// User-configurable settings for the reader side.
#[derive(Debug, Clone)]
pub struct Settings {
    /// UUID (textual) of a video flow to read.
    pub video_flow: Option<String>,
    /// UUID (textual) of an audio flow to read.
    pub audio_flow: Option<String>,
    /// Shared memory domain path.
    pub domain: String,
}

impl Default for Settings {
    /// No flows selected and an empty domain: the flows and domain must be
    /// set before starting.
    fn default() -> (r: Settings)
        ensures
            r.video_flow is None,
            r.audio_flow is None,
            r.domain@.len() == 0,
    {
        Settings { video_flow: None, audio_flow: None, domain: String::new() }
    }
}

/// State for reading video grains.
pub struct VideoState {
    /// Frame rate of the flow.
    pub grain_rate: Rational,
    /// Number of frames produced so far.
    pub frame_counter: u64,
    /// True once the timing baseline has been established.
    pub is_initialized: bool,
    /// Grain reader for the flow.
    pub grain_reader: GrainReader,
}

/// State for reading audio samples.
pub struct AudioState {
    /// Generic flow reader, used for metadata queries.
    pub reader: FlowReader,
    /// Samples reader for the flow.
    pub samples_reader: SamplesReader,
    /// Number of batches produced so far.
    pub batch_counter: u64,
    /// True once the timing baseline has been established.
    pub is_initialized: bool,
    /// Index of the last sample of the next batch to read.
    pub index: u64,
    /// True when the next produced buffer must carry a discontinuity flag.
    pub next_discont: bool,
}

/// Runtime state of the reader side. Exactly one of `video` and `audio` is
/// set once a flow has been opened.
pub struct State {
    /// Timeline baseline.
    pub initial_info: InitialTime,
    /// Video-specific state.
    pub video: Option<VideoState>,
    /// Audio-specific state.
    pub audio: Option<AudioState>,
}

/// Context wrapper for the reader side's mutable state: absent while
/// stopped, present while running.
pub struct Context {
    /// The runtime state, when running.
    pub state: Option<State>,
}

/// A buffer produced for the host pipeline: payload bytes, presentation
/// timestamp and a discontinuity flag.
#[derive(Debug)]
pub struct MediaBuffer {
    /// The payload bytes (a frame, or interleaved samples).
    pub data: Vec<u8>,
    /// Presentation timestamp on the external timeline, in nanoseconds.
    pub pts: u64,
    /// True when this buffer does not continue the previous one.
    pub discont: bool,
}

/// Outcome of one production cycle: either a buffer, or the recoverable
/// "no data this cycle" (the flow is stale or timed out; the caller may
/// retry or reinitialize).
pub enum CreateState {
    /// A buffer was produced.
    DataCreated(MediaBuffer),
    /// Nothing was produced this cycle; not an error.
    NoDataCreated,
}

} // verus!
