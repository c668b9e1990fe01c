//! Pacing tests: the writer-side clamp and chunking, the reader-side
//! catch-up with its single discontinuity flag, and timeouts when reading
//! ahead of the producer.

use std::collections::HashMap;

use mxl::error::Error;
use mxl::flowdef::{Component, FlowDef, FlowDefAudio, FlowDefDetails, FlowDefVideo, InterlaceMode, Rate};
use mxl::instance::{FlowOptions, MxlInstance};
use mxl::mxlsink;
use mxl::mxlsrc;

const TEST_TAI_NS: u64 = 1_700_000_000_000_000_000;
const SHORT_TIMEOUT_NS: u64 = 100_000_000;

fn tiny_video_def(id_text: &str) -> FlowDef {
    FlowDef {
        id: uuid::Uuid::parse_str(id_text).unwrap().as_u128(),
        description: "tiny test flow".to_string(),
        tags: HashMap::new(),
        format: "urn:x-nmos:format:video".to_string(),
        label: "tiny".to_string(),
        parents: Vec::new(),
        media_type: "video/raw".to_string(),
        details: FlowDefDetails::Video(FlowDefVideo {
            grain_rate: Rate { numerator: 30, denominator: 1 },
            frame_width: 4,
            frame_height: 2,
            interlace_mode: InterlaceMode::Progressive,
            colorspace: "BT709".to_string(),
            components: vec![Component {
                name: "Y".to_string(),
                width: 4,
                height: 2,
                bit_depth: 8,
            }],
        }),
    }
}

fn mono_audio_def(id_text: &str) -> FlowDef {
    FlowDef {
        id: uuid::Uuid::parse_str(id_text).unwrap().as_u128(),
        description: "mono byte samples".to_string(),
        tags: HashMap::new(),
        format: "urn:x-nmos:format:audio".to_string(),
        label: "mono".to_string(),
        parents: Vec::new(),
        media_type: "audio/l8".to_string(),
        details: FlowDefDetails::Audio(FlowDefAudio {
            sample_rate: Rate { numerator: 48000, denominator: 1 },
            channel_count: 1,
            bit_depth: 8,
        }),
    }
}

/// Scenario: a discrete flow with ten grain slots; grains committed at
/// indices zero through four; a read at index seven with a short timeout
/// reports a timeout, not a crash.
#[test]
fn discrete_read_beyond_head_times_out() {
    let mut instance = MxlInstance::new(TEST_TAI_NS);
    let (writer, cfg, _) = instance
        .create_flow_writer(
            tiny_video_def("a0a1a2a3-72ab-4a8e-bfc8-6d0ca33cf172"),
            Some(&FlowOptions { ring_length: 10 }),
        )
        .unwrap();
    let grain_writer = writer.to_grain_writer(&instance).unwrap();
    for index in 0..5u64 {
        let access = grain_writer.open_grain(&instance, index).unwrap();
        let total = access.total_slices();
        access.commit(&mut instance, total).unwrap();
    }
    let reader = instance
        .create_flow_reader(cfg.common().id_string().as_str())
        .unwrap();
    let grain_reader = reader.to_grain_reader(&instance).unwrap();
    let outcome = grain_reader.get_complete_grain(&mut instance, 7, SHORT_TIMEOUT_NS);
    assert_eq!(outcome.unwrap_err(), Error::Timeout);
}

/// Scenario: a continuous flow with a ring of 1000 samples; 2400 samples
/// written in one call with a chunk limit of 500 commit exactly five
/// chunks and advance the write index by exactly 2400.
#[test]
fn continuous_write_chunks_and_advances() {
    let mut instance = MxlInstance::new(TEST_TAI_NS);
    let mut state = mxlsink::state::State::new();
    mxlsink::state::init_state_with_audio(
        &mut instance,
        &mut state,
        2,
        48000,
        8,
        "b0b1b2b3-72ab-4a8e-bfc8-6d0ca33cf172",
        HashMap::new(),
        Some(&FlowOptions { ring_length: 1000 }),
    )
    .unwrap();
    state.audio.as_mut().unwrap().next_write_index = Some(1000);
    // 2400 interleaved frames of two one-byte channels.
    let mut src: Vec<u8> = Vec::new();
    for i in 0..4800usize {
        src.push((i % 251) as u8);
    }
    let chunks = mxlsink::render_audio::audio(&mut instance, &mut state, &src).unwrap();
    assert_eq!(chunks, 5);
    assert_eq!(state.audio.as_ref().unwrap().next_write_index, Some(3400));

    // The last chunk is still retained: read its window back and check the
    // de-interleaved planar data of both channels.
    let flow = state.flow.as_ref().unwrap();
    let reader = instance
        .create_flow_reader(flow.common().id_string().as_str())
        .unwrap();
    let samples_reader = reader.to_samples_reader(&instance).unwrap();
    let runtime = samples_reader.get_runtime_info(&instance).unwrap();
    assert_eq!(runtime.head_index(), 3399);
    let samples = samples_reader
        .get_samples(&mut instance, 3399, 400, SHORT_TIMEOUT_NS)
        .unwrap();
    for channel in 0..2usize {
        let (frag1, frag2) = samples.channel_data(channel).unwrap();
        assert_eq!(frag1.len() + frag2.len(), 400);
        let mut got = frag1.clone();
        got.extend_from_slice(frag2);
        // Samples 2000..2400 of the source, this channel's byte of each.
        let expected: Vec<u8> = (2000..2400usize)
            .map(|s| ((s * 2 + channel) % 251) as u8)
            .collect();
        assert_eq!(got, expected);
    }
}

/// Scenario: a reader starting 2000 indices behind the head of a ring of
/// 1000 with a batch of 100 triggers the catch-up, landing two batches
/// behind the head.
#[test]
fn reader_far_behind_jumps_to_cushion() {
    let head: u64 = 5000;
    let mut audio_state = mxlsrc::state::AudioState {
        reader: mxl::FlowReader { flow: 0 },
        samples_reader: mxl::SamplesReader { flow: 0 },
        batch_counter: 3,
        is_initialized: true,
        index: head - 2000,
        next_discont: false,
    };
    let late = mxlsrc::create_audio::is_reader_late(head, 100, 1000, &mut audio_state).unwrap();
    assert!(late);
    assert_eq!(audio_state.index, head - 200);
}

/// End to end: a reader out of the retention window produces exactly one
/// discontinuous buffer, then continues without the flag.
#[test]
fn catch_up_flags_exactly_one_discontinuity() {
    let mut instance = MxlInstance::new(TEST_TAI_NS);
    let (writer, cfg, _) = instance
        .create_flow_writer(
            mono_audio_def("c0c1c2c3-72ab-4a8e-bfc8-6d0ca33cf172"),
            Some(&FlowOptions { ring_length: 1000 }),
        )
        .unwrap();
    let samples_writer = writer.to_samples_writer(&instance).unwrap();
    let access = samples_writer.open_samples(&instance, 5000, 500).unwrap();
    access.commit(&mut instance).unwrap();

    let id_text = cfg.common().id_string();
    let reader = instance.create_flow_reader(id_text.as_str()).unwrap();
    let samples_reader = instance
        .create_flow_reader(id_text.as_str())
        .unwrap()
        .to_samples_reader(&instance)
        .unwrap();
    let mut state = mxlsrc::state::State {
        initial_info: mxlsrc::state::InitialTime { mxl_index: 0, gst_time: 0 },
        video: None,
        audio: Some(mxlsrc::state::AudioState {
            reader,
            samples_reader,
            batch_counter: 0,
            is_initialized: true,
            index: 3000,
            next_discont: false,
        }),
    };
    let first = mxlsrc::create_audio::create_audio(&mut instance, &mut state, 0).unwrap();
    match first {
        mxlsrc::state::CreateState::DataCreated(buffer) => {
            assert!(buffer.discont);
            assert_eq!(buffer.data.len(), 48);
        },
        mxlsrc::state::CreateState::NoDataCreated => panic!("expected a buffer"),
    }
    // The jump landed two batches behind the head, and advanced by one.
    assert_eq!(state.audio.as_ref().unwrap().index, 5000 - 96 + 48);
    let second = mxlsrc::create_audio::create_audio(&mut instance, &mut state, 0).unwrap();
    match second {
        mxlsrc::state::CreateState::DataCreated(buffer) => {
            assert!(!buffer.discont);
        },
        mxlsrc::state::CreateState::NoDataCreated => panic!("expected a buffer"),
    }
}

/// The discrete writer's clamp: a buffer whose timestamp maps far beyond
/// the ring is written at most `grain_count - 1` ahead of the current
/// index.
#[test]
fn discrete_write_is_clamped_to_horizon() {
    let mut instance = MxlInstance::new(TEST_TAI_NS);
    let mut state = mxlsink::state::State::new();
    mxlsink::state::init_state_with_video(
        &mut instance,
        &mut state,
        mxlsink::state::VideoCaps {
            width: 4,
            height: 2,
            framerate_num: 30,
            framerate_den: 1,
            interlace_mode: mxl::flowdef::InterlaceMode::Progressive,
            colorspace: "BT709".to_string(),
            media_type: "video/raw".to_string(),
        },
        "d0d1d2d3-72ab-4a8e-bfc8-6d0ca33cf172",
        "clamp test".to_string(),
        "clamp test".to_string(),
        HashMap::new(),
        Some(&FlowOptions { ring_length: 10 }),
    )
    .unwrap();
    let rate = mxl::Rational { numerator: 30, denominator: 1 };
    let current = instance.get_current_index(&rate);
    let payload = vec![9u8; 4];
    // A timestamp one second ahead maps 30 frames past the current index:
    // far beyond the ten-grain ring, so the write is clamped.
    let gst_now = instance.get_time();
    let pts = Some(gst_now + 1_000_000_000);
    mxlsink::render_video::video(&mut instance, &mut state, &payload, pts, gst_now).unwrap();
    assert_eq!(state.video.as_ref().unwrap().grain_index, current + 10);
    let flow = state.flow.as_ref().unwrap();
    let reader = instance
        .create_flow_reader(flow.common().id_string().as_str())
        .unwrap();
    let grain_reader = reader.to_grain_reader(&instance).unwrap();
    let runtime = grain_reader.get_runtime_info(&instance).unwrap();
    assert_eq!(runtime.head_index(), current + 9);
}

/// A full video round trip through both pacing sides: a rendered buffer
/// comes back byte-identical (zero-padded to the grain), timestamped at
/// the external clock.
#[test]
fn video_round_trip_through_pacing() {
    let mut instance = MxlInstance::new(TEST_TAI_NS);
    let mut sink_state = mxlsink::state::State::new();
    mxlsink::state::init_state_with_video(
        &mut instance,
        &mut sink_state,
        mxlsink::state::VideoCaps {
            width: 4,
            height: 2,
            framerate_num: 30,
            framerate_den: 1,
            interlace_mode: mxl::flowdef::InterlaceMode::Progressive,
            colorspace: "BT709".to_string(),
            media_type: "video/raw".to_string(),
        },
        "e0e1e2e3-72ab-4a8e-bfc8-6d0ca33cf172",
        "round trip".to_string(),
        "round trip".to_string(),
        HashMap::new(),
        Some(&FlowOptions { ring_length: 10 }),
    )
    .unwrap();
    let payload = vec![1u8, 2, 3, 4];
    let gst_now = 5u64;
    // No timestamp: live mode writes at the current index.
    mxlsink::render_video::video(&mut instance, &mut sink_state, &payload, None, gst_now)
        .unwrap();

    let flow = sink_state.flow.as_ref().unwrap();
    let grain_reader = instance
        .create_flow_reader(flow.common().id_string().as_str())
        .unwrap()
        .to_grain_reader(&instance)
        .unwrap();
    let grain_rate = flow.common().grain_rate().unwrap();
    let mut src_state = mxlsrc::state::State {
        initial_info: mxlsrc::state::InitialTime { mxl_index: 0, gst_time: 0 },
        video: Some(mxlsrc::state::VideoState {
            grain_rate,
            frame_counter: 0,
            is_initialized: false,
            grain_reader,
        }),
        audio: None,
    };
    let produced = mxlsrc::create_video::create_video(&mut instance, &mut src_state, gst_now)
        .unwrap();
    match produced {
        mxlsrc::state::CreateState::DataCreated(buffer) => {
            // The grain holds the payload, zero-padded to the grain size
            // (10-bit Y at 4x2 plus two 10-bit chroma planes at 2x2:
            // 10 + 5 + 5 = 20 bytes).
            let mut expected = vec![1u8, 2, 3, 4];
            expected.resize(20, 0);
            assert_eq!(buffer.data, expected);
            assert_eq!(buffer.pts, gst_now);
            assert!(!buffer.discont);
        },
        mxlsrc::state::CreateState::NoDataCreated => panic!("expected a buffer"),
    }
    assert_eq!(src_state.video.as_ref().unwrap().frame_counter, 1);
}

/// The clamp's boundary: a timestamp mapping exactly `grain_count` past
/// the current index is already clamped, so no write ever lands a full
/// ring ahead (which would evict the grain slot of the current index).
#[test]
fn clamp_holds_at_exactly_one_ring_ahead() {
    let mut instance = MxlInstance::new(TEST_TAI_NS);
    let mut state = mxlsink::state::State::new();
    mxlsink::state::init_state_with_video(
        &mut instance,
        &mut state,
        mxlsink::state::VideoCaps {
            width: 4,
            height: 2,
            framerate_num: 30,
            framerate_den: 1,
            interlace_mode: mxl::flowdef::InterlaceMode::Progressive,
            colorspace: "BT709".to_string(),
            media_type: "video/raw".to_string(),
        },
        "0b0c0d0e-72ab-4a8e-bfc8-6d0ca33cf172",
        "boundary".to_string(),
        "boundary".to_string(),
        HashMap::new(),
        Some(&FlowOptions { ring_length: 10 }),
    )
    .unwrap();
    let rate = mxl::Rational { numerator: 30, denominator: 1 };
    let current = instance.get_current_index(&rate);
    // The first timestamp of index current + 10, exactly ten frames ahead.
    let target_time = instance.index_to_timestamp(current + 10, &rate).unwrap();
    let gst_now = instance.get_time();
    let payload = vec![5u8; 4];
    mxlsink::render_video::video(&mut instance, &mut state, &payload, Some(target_time), gst_now)
        .unwrap();
    // Clamped to current + 9; the local index sits one past the write.
    assert_eq!(state.video.as_ref().unwrap().grain_index, current + 10);
    let flow = state.flow.as_ref().unwrap();
    let reader = instance
        .create_flow_reader(flow.common().id_string().as_str())
        .unwrap();
    let grain_reader = reader.to_grain_reader(&instance).unwrap();
    let runtime = grain_reader.get_runtime_info(&instance).unwrap();
    assert_eq!(runtime.head_index(), current + 9);
}

/// A full audio round trip through both pacing sides: interleaved samples
/// written by the writer pacing come back identical through the reader
/// pacing.
#[test]
fn audio_round_trip_through_pacing() {
    let mut instance = MxlInstance::new(TEST_TAI_NS);
    let mut sink_state = mxlsink::state::State::new();
    mxlsink::state::init_state_with_audio(
        &mut instance,
        &mut sink_state,
        1,
        48000,
        8,
        "1b1c1d1e-72ab-4a8e-bfc8-6d0ca33cf172",
        HashMap::new(),
        Some(&FlowOptions { ring_length: 1000 }),
    )
    .unwrap();
    sink_state.audio.as_mut().unwrap().next_write_index = Some(1000);
    let src: Vec<u8> = (0..96u8).collect();
    let chunks = mxlsink::render_audio::audio(&mut instance, &mut sink_state, &src).unwrap();
    assert_eq!(chunks, 1);

    let flow = sink_state.flow.as_ref().unwrap();
    let id_text = flow.common().id_string();
    let reader = instance.create_flow_reader(id_text.as_str()).unwrap();
    let samples_reader = instance
        .create_flow_reader(id_text.as_str())
        .unwrap()
        .to_samples_reader(&instance)
        .unwrap();
    let gst_now = 7u64;
    let mut src_state = mxlsrc::state::State {
        initial_info: mxlsrc::state::InitialTime { mxl_index: 0, gst_time: 0 },
        video: None,
        audio: Some(mxlsrc::state::AudioState {
            reader,
            samples_reader,
            batch_counter: 0,
            is_initialized: false,
            index: 0,
            next_discont: false,
        }),
    };
    let produced = mxlsrc::create_audio::create_audio(&mut instance, &mut src_state, gst_now)
        .unwrap();
    match produced {
        mxlsrc::state::CreateState::DataCreated(buffer) => {
            // The reader starts one batch of 48 behind the head (1095), so
            // the first batch ends at 1047 and covers ring indices
            // 1000..=1047: exactly the first 48 source samples.
            let expected: Vec<u8> = (0..48u8).collect();
            assert_eq!(buffer.data, expected);
            assert_eq!(buffer.pts, gst_now);
            assert!(!buffer.discont);
        },
        mxlsrc::state::CreateState::NoDataCreated => panic!("expected a buffer"),
    }
}

/// Forward pacing without timestamps: a writer more than half the ring
/// ahead of the current time skips the write as a no-op success.
#[test]
fn forward_pacing_skips_when_far_ahead() {
    let mut instance = MxlInstance::new(TEST_TAI_NS);
    let mut state = mxlsink::state::State::new();
    mxlsink::state::init_state_with_video(
        &mut instance,
        &mut state,
        mxlsink::state::VideoCaps {
            width: 4,
            height: 2,
            framerate_num: 30,
            framerate_den: 1,
            interlace_mode: mxl::flowdef::InterlaceMode::Progressive,
            colorspace: "BT709".to_string(),
            media_type: "video/raw".to_string(),
        },
        "f0f1f2f3-72ab-4a8e-bfc8-6d0ca33cf172",
        "forward".to_string(),
        "forward".to_string(),
        HashMap::new(),
        Some(&FlowOptions { ring_length: 10 }),
    )
    .unwrap();
    let payload = vec![3u8; 4];
    // At the current index the write goes through.
    let written =
        mxlsink::render_video::video_forward(&mut instance, &mut state, &payload).unwrap();
    assert!(written);
    // Six grains ahead of the current time is more than half of ten: the
    // write is skipped.
    let rate = mxl::Rational { numerator: 30, denominator: 1 };
    let current = instance.get_current_index(&rate);
    state.video.as_mut().unwrap().grain_index = current + 6;
    let written =
        mxlsink::render_video::video_forward(&mut instance, &mut state, &payload).unwrap();
    assert!(!written);
    assert_eq!(state.video.as_ref().unwrap().grain_index, current + 6);
}
