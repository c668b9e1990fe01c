//! Unit tests for the clock conversions, format classification, flow
//! definition helpers and the reader-side timestamp arithmetic.

use std::str::FromStr;

use mxl::error::Error;
use mxl::flowdef::{default_denominator, InterlaceMode};
use mxl::instance::MxlInstance;
use mxl::mxlsrc;
use mxl::rate::{index_to_timestamp, timestamp_to_index};
use mxl::{DataFormat, Rational};

#[test]
fn default_rate_denominator_is_one() {
    assert_eq!(default_denominator(), 1);
}

#[test]
fn interlace_mode_parses_known_names() {
    assert_eq!(InterlaceMode::from_str("progressive"), Ok(InterlaceMode::Progressive));
    assert_eq!(InterlaceMode::from_str("interlaced_tff"), Ok(InterlaceMode::InterlacedTff));
    assert_eq!(InterlaceMode::from_str("interlaced_bff"), Ok(InterlaceMode::InterlacedBff));
    assert!(InterlaceMode::from_str("weave").is_err());
}

#[test]
fn data_format_codes_map_to_variants() {
    assert_eq!(DataFormat::from(0u32), DataFormat::Unspecified);
    assert_eq!(DataFormat::from(1u32), DataFormat::Video);
    assert_eq!(DataFormat::from(2u32), DataFormat::Audio);
    assert_eq!(DataFormat::from(3u32), DataFormat::Data);
    assert_eq!(DataFormat::from(99u32), DataFormat::Unspecified);
}

#[test]
fn clock_conversions_are_exact() {
    let thirty = Rational { numerator: 30, denominator: 1 };
    // One second at 30 units per second is index 30, and back.
    assert_eq!(timestamp_to_index(1_000_000_000, &thirty), Some(30));
    assert_eq!(index_to_timestamp(30, &thirty), Some(1_000_000_000));
    // 29.97 frames per second: frame 30000 occurs at 1001 seconds.
    let ntsc = Rational { numerator: 30000, denominator: 1001 };
    assert_eq!(index_to_timestamp(30000, &ntsc), Some(1_001_000_000_000));
    // The conversions are mutual inverses at index boundaries, also where
    // the division does not come out even.
    let three = Rational { numerator: 3, denominator: 1 };
    let first_ts = index_to_timestamp(1, &three).unwrap();
    assert_eq!(first_ts, 333_333_334);
    assert_eq!(timestamp_to_index(first_ts, &three), Some(1));
    assert_eq!(timestamp_to_index(first_ts - 1, &three), Some(0));
    for index in [0u64, 1, 7, 47, 48_000] {
        let ts = index_to_timestamp(index, &ntsc).unwrap();
        assert_eq!(timestamp_to_index(ts, &ntsc), Some(index));
    }
    // An invalid rate is a query-time error, not a panic.
    let zero = Rational { numerator: 0, denominator: 1 };
    assert_eq!(timestamp_to_index(5, &zero), None);
    assert_eq!(index_to_timestamp(5, &zero), None);
}

#[test]
fn duration_until_index_counts_down_to_zero() {
    let rate = Rational { numerator: 1000, denominator: 1 };
    // At time 1 ms the current index is 1; index 5 occurs at 5 ms.
    let instance = MxlInstance::new(1_000_000);
    assert_eq!(instance.get_duration_until_index(5, &rate), Ok(4_000_000));
    // An index already past yields zero, not an underflow.
    assert_eq!(instance.get_duration_until_index(0, &rate), Ok(0));
}

#[test]
fn sleep_advances_the_domain_clock() {
    let mut instance = MxlInstance::new(100);
    instance.sleep_for(50);
    assert_eq!(instance.get_time(), 150);
    instance.sleep_for(u64::MAX);
    assert_eq!(instance.get_time(), u64::MAX);
}

#[test]
fn invalid_rate_is_an_error_not_a_panic() {
    let instance = MxlInstance::new(1_000_000);
    let zero = Rational { numerator: 0, denominator: 1 };
    assert_eq!(instance.get_current_index(&zero), u64::MAX);
    assert!(instance.timestamp_to_index(7, &zero).is_err());
    assert!(instance.index_to_timestamp(7, &zero).is_err());
    assert_eq!(
        instance.get_duration_until_index(7, &zero).unwrap_err(),
        Error::Other("invalid rate".to_string())
    );
}

#[test]
fn compute_pts_corrects_the_baseline_forward_only() {
    let rate = Rational { numerator: 48000, denominator: 1 };
    let audio_state = mxlsrc::state::AudioState {
        reader: mxl::FlowReader { flow: 0 },
        samples_reader: mxl::SamplesReader { flow: 0 },
        batch_counter: 2,
        is_initialized: true,
        index: 0,
        next_discont: false,
    };
    // One batch of 48 samples lasts exactly one millisecond at 48 kHz.
    let mut baseline = mxlsrc::state::InitialTime { mxl_index: 0, gst_time: 10_000_000 };
    let pts = mxlsrc::create_audio::compute_pts(48, rate, &audio_state, 0, &mut baseline)
        .unwrap();
    assert_eq!(pts, 12_000_000);
    assert_eq!(baseline.gst_time, 10_000_000);
    // A nominal timestamp behind the external clock is pushed up to it,
    // and the baseline advances by the difference.
    let mut late_baseline = mxlsrc::state::InitialTime { mxl_index: 0, gst_time: 0 };
    let pts = mxlsrc::create_audio::compute_pts(
        48,
        rate,
        &audio_state,
        9_000_000,
        &mut late_baseline,
    )
    .unwrap();
    assert_eq!(pts, 9_000_000);
    assert_eq!(late_baseline.gst_time, 7_000_000);
}

#[test]
fn cushion_is_two_batches_behind_the_head() {
    assert_eq!(mxlsrc::create_audio::define_cushion(1000, 100), 800);
    assert_eq!(mxlsrc::create_audio::define_cushion(100, 100), 0);
}
