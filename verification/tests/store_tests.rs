//! Store-level tests: round trips, cancel invisibility, error taxonomy,
//! and the flow identifier text forms.

use std::collections::HashMap;

use mxl::error::Error;
use mxl::flowdef::{Component, FlowDef, FlowDefAudio, FlowDefDetails, FlowDefVideo, InterlaceMode, Rate};
use mxl::instance::{FlowOptions, MxlInstance};

const TEST_TAI_NS: u64 = 1_700_000_000_000_000_000;
const SHORT_TIMEOUT_NS: u64 = 100_000_000;

fn tiny_video_def(id_text: &str) -> FlowDef {
    FlowDef {
        id: uuid::Uuid::parse_str(id_text).unwrap().as_u128(),
        description: "tiny test flow".to_string(),
        tags: HashMap::new(),
        format: "urn:x-nmos:format:video".to_string(),
        label: "tiny".to_string(),
        parents: Vec::new(),
        media_type: "video/raw".to_string(),
        details: FlowDefDetails::Video(FlowDefVideo {
            grain_rate: Rate { numerator: 30, denominator: 1 },
            frame_width: 4,
            frame_height: 2,
            interlace_mode: InterlaceMode::Progressive,
            colorspace: "BT709".to_string(),
            // One 8-bit component of 4x2: an 8-byte grain.
            components: vec![Component {
                name: "Y".to_string(),
                width: 4,
                height: 2,
                bit_depth: 8,
            }],
        }),
    }
}

fn mono_audio_def(id_text: &str) -> FlowDef {
    FlowDef {
        id: uuid::Uuid::parse_str(id_text).unwrap().as_u128(),
        description: "mono byte samples".to_string(),
        tags: HashMap::new(),
        format: "urn:x-nmos:format:audio".to_string(),
        label: "mono".to_string(),
        parents: Vec::new(),
        media_type: "audio/l8".to_string(),
        details: FlowDefDetails::Audio(FlowDefAudio {
            sample_rate: Rate { numerator: 48000, denominator: 1 },
            channel_count: 1,
            bit_depth: 8,
        }),
    }
}

#[test]
fn grain_round_trip_is_byte_identical() {
    let mut instance = MxlInstance::new(TEST_TAI_NS);
    let (writer, cfg, created) = instance
        .create_flow_writer(
            tiny_video_def("0cf2f4f1-72ab-4a8e-bfc8-6d0ca33cf172"),
            Some(&FlowOptions { ring_length: 10 }),
        )
        .unwrap();
    assert!(created);
    let grain_writer = writer.to_grain_writer(&instance).unwrap();
    let mut access = grain_writer.open_grain(&instance, 5).unwrap();
    assert_eq!(access.max_size(), 8);
    let payload = access.payload_mut();
    for i in 0..payload.len() {
        payload[i] = (i as u8) + 10;
    }
    let total = access.total_slices();
    access.commit(&mut instance, total).unwrap();

    let reader = instance
        .create_flow_reader(cfg.common().id_string().as_str())
        .unwrap();
    let grain_reader = reader.to_grain_reader(&instance).unwrap();
    let grain = grain_reader
        .get_complete_grain(&mut instance, 5, SHORT_TIMEOUT_NS)
        .unwrap();
    assert_eq!(grain.total_size, 8);
    assert_eq!(grain.payload, vec![10, 11, 12, 13, 14, 15, 16, 17]);
    assert_eq!(grain.flags, 0);
}

#[test]
fn canceled_grain_is_invisible() {
    let mut instance = MxlInstance::new(TEST_TAI_NS);
    let (writer, cfg, _) = instance
        .create_flow_writer(
            tiny_video_def("11f2f4f1-72ab-4a8e-bfc8-6d0ca33cf172"),
            Some(&FlowOptions { ring_length: 10 }),
        )
        .unwrap();
    let grain_writer = writer.to_grain_writer(&instance).unwrap();

    let mut access = grain_writer.open_grain(&instance, 3).unwrap();
    access.payload_mut().fill(0x42);
    access.cancel().unwrap();

    let reader = instance
        .create_flow_reader(cfg.common().id_string().as_str())
        .unwrap();
    let grain_reader = reader.to_grain_reader(&instance).unwrap();
    // Head never advanced: the flow looks exactly as if the write had not
    // been attempted, and the read times out instead of yielding data.
    let runtime = grain_reader.get_runtime_info(&instance).unwrap();
    assert_eq!(runtime.head_index(), 0);
    let outcome = grain_reader.get_complete_grain(&mut instance, 3, SHORT_TIMEOUT_NS);
    assert_eq!(outcome.unwrap_err(), Error::Timeout);
    let non_blocking = grain_reader.get_grain_non_blocking(&instance, 3);
    assert_eq!(non_blocking.unwrap_err(), Error::OutOfRangeTooEarly);
}

#[test]
fn overwritten_grain_reports_too_late() {
    let mut instance = MxlInstance::new(TEST_TAI_NS);
    let (writer, cfg, _) = instance
        .create_flow_writer(
            tiny_video_def("22f2f4f1-72ab-4a8e-bfc8-6d0ca33cf172"),
            Some(&FlowOptions { ring_length: 4 }),
        )
        .unwrap();
    let grain_writer = writer.to_grain_writer(&instance).unwrap();
    for index in 0..8u64 {
        let access = grain_writer.open_grain(&instance, index).unwrap();
        let total = access.total_slices();
        access.commit(&mut instance, total).unwrap();
    }
    let reader = instance
        .create_flow_reader(cfg.common().id_string().as_str())
        .unwrap();
    let grain_reader = reader.to_grain_reader(&instance).unwrap();
    let outcome = grain_reader.get_complete_grain(&mut instance, 1, SHORT_TIMEOUT_NS);
    assert_eq!(outcome.unwrap_err(), Error::OutOfRangeTooLate);
}

#[test]
fn incomplete_grain_is_flagged_invalid() {
    let mut instance = MxlInstance::new(TEST_TAI_NS);
    let (writer, cfg, _) = instance
        .create_flow_writer(
            tiny_video_def("33f2f4f1-72ab-4a8e-bfc8-6d0ca33cf172"),
            Some(&FlowOptions { ring_length: 10 }),
        )
        .unwrap();
    let grain_writer = writer.to_grain_writer(&instance).unwrap();
    let access = grain_writer.open_grain(&instance, 0).unwrap();
    // Commit with zero of one slice valid: the grain is incomplete.
    access.commit(&mut instance, 0).unwrap();
    let reader = instance
        .create_flow_reader(cfg.common().id_string().as_str())
        .unwrap();
    let grain_reader = reader.to_grain_reader(&instance).unwrap();
    // A complete-grain read keeps waiting for the missing slices.
    let outcome = grain_reader.get_complete_grain(&mut instance, 0, SHORT_TIMEOUT_NS);
    assert_eq!(outcome.unwrap_err(), Error::Timeout);
    // A non-blocking read hands the partial grain out, flagged invalid.
    let partial = grain_reader.get_grain_non_blocking(&instance, 0).unwrap();
    assert_eq!(partial.flags & 1, 1);
    assert!(partial.payload.len() < partial.total_size);
}

#[test]
fn commit_rejects_excess_valid_slices() {
    let mut instance = MxlInstance::new(TEST_TAI_NS);
    let (writer, _, _) = instance
        .create_flow_writer(
            tiny_video_def("44f2f4f1-72ab-4a8e-bfc8-6d0ca33cf172"),
            Some(&FlowOptions { ring_length: 10 }),
        )
        .unwrap();
    let grain_writer = writer.to_grain_writer(&instance).unwrap();
    let access = grain_writer.open_grain(&instance, 0).unwrap();
    let total = access.total_slices();
    assert!(access.commit(&mut instance, total + 1).is_err());
}

#[test]
fn second_writer_is_a_conflict() {
    let mut instance = MxlInstance::new(TEST_TAI_NS);
    let def = mono_audio_def("55f2f4f1-72ab-4a8e-bfc8-6d0ca33cf172");
    let (_writer, _, created) = instance.create_flow_writer(def.clone(), None).unwrap();
    assert!(created);
    let second = instance.create_flow_writer(def, None);
    assert_eq!(second.unwrap_err(), Error::Conflict);
}

#[test]
fn unknown_flow_reports_not_found() {
    let instance = MxlInstance::new(TEST_TAI_NS);
    let outcome = instance.create_flow_reader("66f2f4f1-72ab-4a8e-bfc8-6d0ca33cf172");
    assert_eq!(outcome.unwrap_err(), Error::FlowNotFound);
    let outcome = instance.create_flow_reader("this is no uuid");
    assert_eq!(outcome.unwrap_err(), Error::InvalidArg);
}

#[test]
fn flow_id_text_round_trips() {
    let mut instance = MxlInstance::new(TEST_TAI_NS);
    let id_text = "550e8400-e29b-41d4-a716-446655440000";
    let (_writer, cfg, _) = instance
        .create_flow_writer(mono_audio_def(id_text), None)
        .unwrap();
    // The canonical text of the identifier matches what it was parsed
    // from, and leads back to the same flow.
    assert_eq!(cfg.common().id_string(), id_text);
    assert!(instance.create_flow_reader(id_text).is_ok());
}

#[test]
fn samples_round_trip_across_wrap() {
    let mut instance = MxlInstance::new(TEST_TAI_NS);
    let (writer, cfg, _) = instance
        .create_flow_writer(
            mono_audio_def("77f2f4f1-72ab-4a8e-bfc8-6d0ca33cf172"),
            Some(&FlowOptions { ring_length: 16 }),
        )
        .unwrap();
    let samples_writer = writer.to_samples_writer(&instance).unwrap();
    // A batch of 10 samples ending at index 20: physical offsets 11..15
    // then 0..4, crossing the wrap boundary.
    let mut access = samples_writer.open_samples(&instance, 20, 10).unwrap();
    let (f1_len, f2_len) = access.fragment_lens(0).unwrap();
    assert_eq!(f1_len + f2_len, 10);
    assert!(f2_len > 0);
    let first: Vec<u8> = (0..f1_len as u8).collect();
    let second: Vec<u8> = (0..f2_len as u8).map(|b| b + 100).collect();
    access.set_channel_data(0, first.clone(), second.clone()).unwrap();
    access.commit(&mut instance).unwrap();

    let reader = instance
        .create_flow_reader(cfg.common().id_string().as_str())
        .unwrap();
    let samples_reader = reader.to_samples_reader(&instance).unwrap();
    let samples = samples_reader
        .get_samples(&mut instance, 20, 10, SHORT_TIMEOUT_NS)
        .unwrap();
    let (frag1, frag2) = samples.channel_data(0).unwrap();
    // Fragment sum invariant: the two fragments cover the batch exactly.
    assert_eq!(frag1.len() + frag2.len(), 10);
    let mut expected = first;
    expected.extend_from_slice(&second);
    let mut got = frag1.clone();
    got.extend_from_slice(frag2);
    assert_eq!(got, expected);
}

#[test]
fn canceled_samples_are_invisible() {
    let mut instance = MxlInstance::new(TEST_TAI_NS);
    let (writer, cfg, _) = instance
        .create_flow_writer(
            mono_audio_def("88f2f4f1-72ab-4a8e-bfc8-6d0ca33cf172"),
            Some(&FlowOptions { ring_length: 16 }),
        )
        .unwrap();
    let samples_writer = writer.to_samples_writer(&instance).unwrap();
    let mut access = samples_writer.open_samples(&instance, 20, 10).unwrap();
    let (f1_len, f2_len) = access.fragment_lens(0).unwrap();
    access
        .set_channel_data(0, vec![7; f1_len], vec![7; f2_len])
        .unwrap();
    access.cancel().unwrap();

    let reader = instance
        .create_flow_reader(cfg.common().id_string().as_str())
        .unwrap();
    let samples_reader = reader.to_samples_reader(&instance).unwrap();
    let runtime = samples_reader.get_runtime_info(&instance).unwrap();
    assert_eq!(runtime.head_index(), 0);
    let outcome = samples_reader.get_samples(&mut instance, 20, 10, SHORT_TIMEOUT_NS);
    assert_eq!(outcome.unwrap_err(), Error::Timeout);
}
