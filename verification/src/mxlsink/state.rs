//! State and flow initialization for the writer side.

use vstd::prelude::*;

use std::collections::HashMap;

use crate::error::{Error, Result};
use crate::flow::flowdef::{
    Component, FlowDef, FlowDefAudio, FlowDefDetails, FlowDefVideo, InterlaceMode, Rate,
};
use crate::flow::FlowConfigInfo;
use crate::grain::writer::GrainWriter;
use crate::ids::{parse_flow_id, parsed_flow_id};
use crate::instance::{FlowOptions, MxlInstance};
use crate::rate::Rational;
use crate::samples::writer::SamplesWriter;

verus! {

/// User-configurable settings for the writer side: which flow to write,
/// and in which domain.
#[derive(Debug, Clone)]
pub struct Settings {
    /// UUID (textual) of the flow to write to.
    pub flow_id: String,
    /// Shared memory domain path.
    pub domain: String,
}

impl Default for Settings {
    /// Empty flow id and domain: both must be set before starting.
    fn default() -> (r: Settings)
        ensures
            r.flow_id@.len() == 0,
            r.domain@.len() == 0,
    {
        Settings { flow_id: String::new(), domain: String::new() }
    }
}

/// Timeline synchronization: the offset that converts an external
/// presentation time into the domain's TAI timeline.
#[derive(Debug, Clone, Copy, PartialEq, Eq, Structural)]
pub struct InitialTime {
    /// Offset added to an external timestamp to obtain a TAI timestamp.
    pub mxl_to_gst_offset: u64,
}

/// State for writing video grains: the writer handle and the pacing
/// counters built on it.
pub struct VideoState {
    /// Grain writer for the flow.
    pub writer: GrainWriter,
    /// Next grain index to write.
    pub grain_index: u64,
    /// Frame rate of the flow.
    pub grain_rate: Rational,
    /// Number of grains in the ring buffer.
    pub grain_count: u32,
}

/// State for writing audio samples.
pub struct AudioState {
    /// Samples writer for the flow.
    pub writer: SamplesWriter,
    /// Bit depth per sample.
    pub bit_depth: u8,
    /// Samples per write batch, as seen in the last buffer.
    pub batch_size: usize,
    /// The audio flow definition the flow was created from.
    pub flow_def: FlowDefAudio,
    /// Next write position in the ring (established on first write).
    pub next_write_index: Option<u64>,
}

/// Runtime state of the writer side. Exactly one of `video` and `audio` is
/// set once a flow has been initialized.
pub struct State {
    /// Configuration of the flow being written.
    pub flow: Option<FlowConfigInfo>,
    /// Video-specific state.
    pub video: Option<VideoState>,
    /// Audio-specific state.
    pub audio: Option<AudioState>,
    /// Timeline offset, established on the first rendered buffer.
    pub initial_time: Option<InitialTime>,
}

impl State {
    /// A fresh writer-side state with no flow initialized.
    pub fn new() -> (r: State)
        ensures
            r.flow is None,
            r.video is None,
            r.audio is None,
            r.initial_time is None,
    {
        State { flow: None, video: None, audio: None, initial_time: None }
    }
}

/// Context wrapper for the writer side's mutable state: absent while
/// stopped, present while running.
pub struct Context {
    /// The runtime state, when running.
    pub state: Option<State>,
}

/// Plain description of negotiated video capabilities.
pub struct VideoCaps {
    /// Frame width in pixels.
    pub width: i32,
    /// Frame height in pixels.
    pub height: i32,
    /// Frame rate numerator.
    pub framerate_num: i32,
    /// Frame rate denominator.
    pub framerate_den: i32,
    /// Interlacing mode.
    pub interlace_mode: InterlaceMode,
    /// Colorspace identifier.
    pub colorspace: String,
    /// MIME media type.
    pub media_type: String,
}

/// Initializes audio state: creates (or fails on) the flow named by
/// `flow_id` and stores a samples writer for rendering buffers.
///
/// Fails exactly when the flow id does not parse, the definition is out of
/// the supported bounds, or a flow with that id already exists (another
/// writer owns it, or it would be taken over — both are conflicts here, as
/// the caller asked for a fresh flow).
pub fn init_state_with_audio(
    instance: &mut MxlInstance,
    state: &mut State,
    channels: i32,
    rate: i32,
    bit_depth: u8,
    flow_id: &str,
    tags: HashMap<String, Vec<String>>,
    options: Option<&FlowOptions>,
) -> (r: Result<()>)
    requires
        old(instance).wf(),
    ensures
        final(instance).wf(),
        final(instance).now_ns == old(instance).now_ns,
        r is Ok <==> (parsed_flow_id(flow_id@) matches Some(id) && !old(instance).spec_has_flow(
            id,
        ) && {
            let details = FlowDefDetails::Audio(
                FlowDefAudio {
                    sample_rate: Rate { numerator: rate, denominator: 1 },
                    channel_count: channels,
                    bit_depth,
                },
            );
            let ring_length = (match options {
                Some(opts) => opts.ring_length,
                None => crate::instance::spec_default_ring_length_details(details),
            });
            crate::instance::spec_details_valid(details, ring_length)
        }),
        r is Ok ==> (parsed_flow_id(flow_id@) matches Some(id) && {
            &&& final(instance).spec_has_flow(id)
            &&& !old(instance).spec_has_flow(id)
            &&& final(state).audio is Some
            &&& final(state).flow is Some
            &&& final(state).audio->Some_0.flow_def.channel_count == channels
            &&& final(state).audio->Some_0.flow_def.bit_depth == bit_depth
            &&& final(state).audio->Some_0.flow_def.sample_rate == (Rate {
                numerator: rate,
                denominator: 1,
            })
            &&& final(state).audio->Some_0.next_write_index is None
        }),
        r is Err ==> final(instance).flows@ == old(instance).flows@ && *final(state) == *old(
            state,
        ),
{
    let id = match parse_flow_id(flow_id) {
        Some(id) => id,
        None => {
            return Err(Error::InvalidArg);
        },
    };
    let flow_def_details = FlowDefAudio {
        sample_rate: Rate { numerator: rate, denominator: 1 },
        channel_count: channels,
        bit_depth,
    };
    let flow_def = FlowDef {
        id,
        description: "MXL Audio Flow".to_owned(),
        format: "urn:x-nmos:format:audio".to_owned(),
        tags,
        label: "MXL Audio Flow".to_owned(),
        media_type: "audio/float32".to_owned(),
        parents: Vec::new(),
        details: FlowDefDetails::Audio(flow_def_details),
    };
    let (flow_writer, flow, is_created) = match instance.create_flow_writer(flow_def, options) {
        Ok(created) => created,
        Err(e) => {
            return Err(e);
        },
    };
    if !is_created {
        // The identifier names an existing flow: release it again (the
        // caller asked for a fresh flow, taking over is a conflict).
        instance.set_writer_active(flow_writer.flow, false);
        proof {
            assert(instance.flows@ =~= old(instance).flows@);
        }
        return Err(Error::Conflict);
    }
    let writer = match flow_writer.to_samples_writer(instance) {
        Ok(writer) => writer,
        Err(e) => {
            // A freshly created flow from an audio definition is always
            // continuous, so the conversion cannot fail.
            proof {
                assert(false);
            }
            return Err(e);
        },
    };
    let batch_size = flow.common().max_commit_batch_size_hint() as usize;
    state.audio = Some(
        AudioState {
            writer,
            bit_depth,
            batch_size,
            flow_def: flow_def_details,
            next_write_index: None,
        },
    );
    state.flow = Some(flow);
    Ok(())
}

/// What a video flow creation needs to succeed: a ring length of at least
/// one, a valid frame rate, dimensions within the supported bounds (a
/// width of at least two, so the half-width chroma planes are nonempty),
/// and a grain small enough for one ring slot.
pub open spec fn spec_video_caps_valid(
    width: i32,
    height: i32,
    framerate_num: i32,
    framerate_den: i32,
    ring_length: int,
) -> bool {
    &&& ring_length >= 1
    &&& 1 <= framerate_num <= crate::rate::MAX_RATE_NUMERATOR
    &&& 1 <= framerate_den
    &&& 2 <= width <= crate::instance::MAX_DIMENSION
    &&& 1 <= height <= crate::instance::MAX_DIMENSION
    &&& (width * height * 10 + 7) / 8 + 2 * (((width / 2) * height * 10 + 7) / 8)
        <= crate::ring::MAX_CHANNEL_BYTES
}

/// The ring length a video flow creation ends up using: the one given, or
/// one second of frames.
pub open spec fn spec_video_ring_length(
    framerate_num: i32,
    framerate_den: i32,
    options: Option<&FlowOptions>,
) -> int {
    match options {
        Some(opts) => opts.ring_length as int,
        None => if 1 <= framerate_num <= crate::rate::MAX_RATE_NUMERATOR && 1 <= framerate_den {
            vstd::math::max(1, (framerate_num + framerate_den - 1) as int / framerate_den as int)
        } else {
            1
        },
    }
}

/// Initializes video state: creates (or fails on) the flow named by
/// `flow_id`, with a 4:2:2 three-component layout derived from the
/// capabilities, and stores a grain writer for rendering buffers.
///
/// Fails exactly as [`init_state_with_audio`] does.
pub fn init_state_with_video(
    instance: &mut MxlInstance,
    state: &mut State,
    caps: VideoCaps,
    flow_id: &str,
    label: String,
    description: String,
    tags: HashMap<String, Vec<String>>,
    options: Option<&FlowOptions>,
) -> (r: Result<()>)
    requires
        old(instance).wf(),
    ensures
        final(instance).wf(),
        final(instance).now_ns == old(instance).now_ns,
        r is Ok <==> (parsed_flow_id(flow_id@) matches Some(id) && !old(instance).spec_has_flow(
            id,
        ) && spec_video_caps_valid(
            caps.width,
            caps.height,
            caps.framerate_num,
            caps.framerate_den,
            spec_video_ring_length(caps.framerate_num, caps.framerate_den, options),
        )),
        r is Ok ==> (parsed_flow_id(flow_id@) matches Some(id) && {
            &&& final(instance).spec_has_flow(id)
            &&& !old(instance).spec_has_flow(id)
            &&& final(state).video is Some
            &&& final(state).flow is Some
            &&& final(state).video->Some_0.grain_count >= 1
            &&& crate::rate::rate_valid(final(state).video->Some_0.grain_rate)
        }),
        r is Err ==> final(instance).flows@ == old(instance).flows@ && *final(state) == *old(
            state,
        ),
{
    let id = match parse_flow_id(flow_id) {
        Some(id) => id,
        None => {
            return Err(Error::InvalidArg);
        },
    };
    let mut components: Vec<Component> = Vec::new();
    components.push(
        Component { name: "Y".to_owned(), width: caps.width, height: caps.height, bit_depth: 10 },
    );
    components.push(
        Component {
            name: "Cb".to_owned(),
            width: caps.width / 2,
            height: caps.height,
            bit_depth: 10,
        },
    );
    components.push(
        Component {
            name: "Cr".to_owned(),
            width: caps.width / 2,
            height: caps.height,
            bit_depth: 10,
        },
    );
    proof {
        let cs = components@;
        assert(cs.len() == 3);
        assert(cs.drop_first().len() == 2);
        assert(cs.drop_first().drop_first().len() == 1);
        assert(cs.drop_first().drop_first().drop_first().len() == 0);
        assert(cs.drop_first()[0] == cs[1]);
        assert(cs.drop_first()[1] == cs[2]);
        assert(cs.drop_first().drop_first()[0] == cs[2]);
        assert(crate::instance::spec_components_size(cs.drop_first().drop_first().drop_first())
            == 0);
        assert(crate::instance::spec_components_size(cs.drop_first().drop_first())
            == crate::instance::spec_component_bytes(cs[2]));
        assert(crate::instance::spec_components_size(cs.drop_first())
            == crate::instance::spec_component_bytes(cs[1])
            + crate::instance::spec_component_bytes(cs[2]));
        assert(crate::instance::spec_components_size(cs)
            == crate::instance::spec_component_bytes(cs[0])
            + crate::instance::spec_component_bytes(cs[1])
            + crate::instance::spec_component_bytes(cs[2]));
        assert(forall|i: int|
            0 <= i < 3 ==> crate::instance::spec_component_ok(#[trigger] cs[i])
                == crate::instance::spec_component_ok(
                if i == 0 {
                    cs[0]
                } else if i == 1 {
                    cs[1]
                } else {
                    cs[2]
                },
            ));
    }
    let flow_def = FlowDef {
        id,
        description,
        tags,
        format: "urn:x-nmos:format:video".to_owned(),
        label,
        parents: Vec::new(),
        media_type: caps.media_type,
        details: FlowDefDetails::Video(
            FlowDefVideo {
                grain_rate: Rate {
                    numerator: caps.framerate_num,
                    denominator: caps.framerate_den,
                },
                frame_width: caps.width,
                frame_height: caps.height,
                interlace_mode: caps.interlace_mode,
                colorspace: caps.colorspace,
                components,
            },
        ),
    };
    let (flow_writer, flow, is_created) = match instance.create_flow_writer(flow_def, options) {
        Ok(created) => created,
        Err(e) => {
            return Err(e);
        },
    };
    if !is_created {
        // The identifier names an existing flow: release it again (the
        // caller asked for a fresh flow, taking over is a conflict).
        instance.set_writer_active(flow_writer.flow, false);
        proof {
            assert(instance.flows@ =~= old(instance).flows@);
        }
        return Err(Error::Conflict);
    }
    let writer = match flow_writer.to_grain_writer(instance) {
        Ok(writer) => writer,
        Err(e) => {
            // A freshly created flow from a video definition is always
            // discrete, so the conversion cannot fail.
            proof {
                assert(false);
            }
            return Err(e);
        },
    };
    let grain_rate = match flow.common().grain_rate() {
        Ok(grain_rate) => grain_rate,
        Err(e) => {
            return Err(e);
        },
    };
    let grain_count = match flow.discrete() {
        Ok(discrete) => discrete.grain_count,
        Err(e) => {
            return Err(e);
        },
    };
    let index = instance.get_current_index(&grain_rate);
    state.video = Some(VideoState { writer, grain_index: index, grain_rate, grain_count });
    state.flow = Some(flow);
    Ok(())
}

} // verus!
