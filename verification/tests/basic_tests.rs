//! Basic integration tests: grain and sample round trips through a domain,
//! and flow definition retrieval.

use std::collections::HashMap;

use mxl::flowdef::{Component, FlowDef, FlowDefAudio, FlowDefDetails, FlowDefVideo, InterlaceMode, Rate};
use mxl::instance::{FlowOptions, MxlInstance};

/// A TAI timestamp to run the test domains at (some time in 2023).
const TEST_TAI_NS: u64 = 1_700_000_000_000_000_000;

/// Five seconds, the blocking-read timeout used by the tests.
const FIVE_SECONDS_NS: u64 = 5_000_000_000;

fn v210_flow_def() -> FlowDef {
    FlowDef {
        id: uuid::Uuid::parse_str("5fbec3b1-1b0f-417d-9059-8b94a47197ed")
            .unwrap()
            .as_u128(),
        description: "1080p60 v210 flow".to_string(),
        tags: HashMap::new(),
        format: "urn:x-nmos:format:video".to_string(),
        label: "v210 flow".to_string(),
        parents: Vec::new(),
        media_type: "video/v210".to_string(),
        details: FlowDefDetails::Video(FlowDefVideo {
            grain_rate: Rate { numerator: 60, denominator: 1 },
            frame_width: 1920,
            frame_height: 1080,
            interlace_mode: InterlaceMode::Progressive,
            colorspace: "BT709".to_string(),
            components: vec![
                Component { name: "Y".to_string(), width: 1920, height: 1080, bit_depth: 10 },
                Component { name: "Cb".to_string(), width: 960, height: 1080, bit_depth: 10 },
                Component { name: "Cr".to_string(), width: 960, height: 1080, bit_depth: 10 },
            ],
        }),
    }
}

fn audio_flow_def() -> FlowDef {
    FlowDef {
        id: uuid::Uuid::parse_str("b3bb5be7-9fe9-4324-a5bb-4c70e1084449")
            .unwrap()
            .as_u128(),
        description: "48 kHz stereo flow".to_string(),
        tags: HashMap::new(),
        format: "urn:x-nmos:format:audio".to_string(),
        label: "audio flow".to_string(),
        parents: Vec::new(),
        media_type: "audio/float32".to_string(),
        details: FlowDefDetails::Audio(FlowDefAudio {
            sample_rate: Rate { numerator: 48000, denominator: 1 },
            channel_count: 2,
            bit_depth: 32,
        }),
    }
}

#[test]
fn basic_mxl_grain_writing_reading() {
    let mut mxl_instance = MxlInstance::new(TEST_TAI_NS);
    let (flow_writer, flow_config_info, was_created) = mxl_instance
        .create_flow_writer(v210_flow_def(), None)
        .unwrap();
    assert!(was_created);
    let flow_id = flow_config_info.common().id_string();
    let grain_writer = flow_writer.to_grain_writer(&mxl_instance).unwrap();
    let flow_reader = mxl_instance.create_flow_reader(flow_id.as_str()).unwrap();
    let grain_reader = flow_reader.to_grain_reader(&mxl_instance).unwrap();
    let rate = flow_config_info.common().grain_rate().unwrap();
    let current_index = mxl_instance.get_current_index(&rate);
    let grain_write_access = grain_writer.open_grain(&mxl_instance, current_index).unwrap();
    let total_slices = grain_write_access.total_slices();
    grain_write_access.commit(&mut mxl_instance, total_slices).unwrap();
    let grain_data = grain_reader
        .get_complete_grain(&mut mxl_instance, current_index, FIVE_SECONDS_NS)
        .unwrap();
    let grain_data = grain_data.to_owned();
    println!("Grain data len: {:?}", grain_data.payload.len());
    // 10-bit 4:2:2 at 1920x1080: (1920 + 960 + 960) * 1080 * 10 bits.
    assert_eq!(grain_data.payload.len(), 5_184_000);
    grain_reader.destroy().unwrap();
    grain_writer.destroy(&mut mxl_instance).unwrap();
    mxl_instance.destroy().unwrap();
}

#[test]
fn basic_mxl_samples_writing_reading() {
    let mut mxl_instance = MxlInstance::new(TEST_TAI_NS);
    let (flow_writer, flow_config_info, was_created) = mxl_instance
        .create_flow_writer(audio_flow_def(), Some(&FlowOptions { ring_length: 48000 }))
        .unwrap();
    assert!(was_created);
    let flow_id = flow_config_info.common().id_string();
    let samples_writer = flow_writer.to_samples_writer(&mxl_instance).unwrap();
    let flow_reader = mxl_instance.create_flow_reader(flow_id.as_str()).unwrap();
    let samples_reader = flow_reader.to_samples_reader(&mxl_instance).unwrap();
    let rate = flow_config_info.common().sample_rate().unwrap();
    let current_index = mxl_instance.get_current_index(&rate);
    let samples_write_access = samples_writer
        .open_samples(&mxl_instance, current_index, 42)
        .unwrap();
    samples_write_access.commit(&mut mxl_instance).unwrap();
    let samples_data = samples_reader
        .get_samples(&mut mxl_instance, current_index, 42, FIVE_SECONDS_NS)
        .unwrap();
    let samples_data = samples_data.to_owned();
    println!(
        "Samples data contains {} channels(s), channel 0 has {} byte(s).",
        samples_data.payload.len(),
        samples_data.payload[0].len()
    );
    assert_eq!(samples_data.payload.len(), 2);
    assert_eq!(samples_data.payload[0].len(), 42 * 4);
    samples_reader.destroy().unwrap();
    samples_writer.destroy(&mut mxl_instance).unwrap();
    mxl_instance.destroy().unwrap();
}

#[test]
fn get_flow_def() {
    let mut mxl_instance = MxlInstance::new(TEST_TAI_NS);
    let flow_def = v210_flow_def();
    let (flow_writer, flow_info, was_created) = mxl_instance
        .create_flow_writer(flow_def.clone(), None)
        .unwrap();
    assert!(was_created);
    let flow_id = flow_info.common().id_string();
    let retrieved_flow_def = mxl_instance.get_flow_def(flow_id.as_str()).unwrap();
    assert_eq!(&flow_def, retrieved_flow_def);
    drop(flow_writer);
    mxl_instance.destroy().unwrap();
}
