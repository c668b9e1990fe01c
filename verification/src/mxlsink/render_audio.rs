//! Continuous writer pacing: rendering interleaved audio into sample
//! batches.
//!
//! A buffer of interleaved samples (sample-major, channel-minor) is split
//! into chunks of at most half the ring's length, each chunk de-interleaved
//! into the per-channel planar fragments of a write session (filling the
//! first fragment, then the second after the wrap) and committed; the write
//! index advances by the samples actually committed.

use vstd::prelude::*;

use crate::error::{Error, Result};
use crate::instance::{cont_ring, MxlInstance};
use crate::mxlsink::state::{AudioState, State};
use crate::rate::spec_timestamp_to_index;
use crate::ring::{copy_range, splice_bytes, zero_bytes};
use crate::samples::write_access::SamplesWriteAccess;

verus! {

/// Checks if a whole sample fits in the plane at the given byte offset.
///
/// Used to decide when the de-interleaver switches from the first plane to
/// the second (wraparound).
pub fn does_sample_fit_in_plane(bytes_per_sample: usize, plane: &Vec<u8>, offset: usize) -> (r:
    bool)
    ensures
        r == (offset + bytes_per_sample <= plane@.len()),
{
    let len = plane.len();
    offset <= len && bytes_per_sample <= len - offset
}

/// Copies one sample (`bytes_per_sample` bytes at `sample_offset` of the
/// interleaved source) into a plane at byte offset `written`.
pub fn write_sample(
    bytes_per_sample: usize,
    src_chunk: &Vec<u8>,
    plane: &mut Vec<u8>,
    written: usize,
    sample_offset: usize,
)
    requires
        written + bytes_per_sample <= old(plane)@.len(),
        sample_offset + bytes_per_sample <= src_chunk@.len(),
    ensures
        final(plane)@.len() == old(plane)@.len(),
        final(plane)@.subrange(written as int, written + bytes_per_sample)
            == src_chunk@.subrange(sample_offset as int, sample_offset + bytes_per_sample),
        forall|j: int|
            0 <= j < old(plane)@.len() && !(written <= j < written + bytes_per_sample)
                ==> final(plane)@[j] == old(plane)@[j],
{
    let sample = copy_range(src_chunk, sample_offset, bytes_per_sample);
    splice_bytes(plane, written, &sample);
    proof {
        assert(final(plane)@.subrange(written as int, written + bytes_per_sample)
            =~= src_chunk@.subrange(sample_offset as int, sample_offset + bytes_per_sample));
    }
}

/// Extracts the byte range of one chunk from the interleaved source
/// buffer: `chunk_bytes` bytes starting at sample `src_offset_samples`.
pub fn compute_chunk(
    src: &Vec<u8>,
    bytes_per_sample: usize,
    num_channels: usize,
    src_offset_samples: usize,
    chunk_bytes: usize,
) -> (r: Vec<u8>)
    requires
        1 <= bytes_per_sample,
        1 <= num_channels,
        src_offset_samples * num_channels * bytes_per_sample + chunk_bytes <= src@.len(),
    ensures
        r@ == src@.subrange(
            (src_offset_samples * num_channels * bytes_per_sample) as int,
            src_offset_samples * num_channels * bytes_per_sample + chunk_bytes,
        ),
{
    let len: usize = src.len();
    proof {
        assert(src_offset_samples * num_channels <= src_offset_samples * num_channels
            * bytes_per_sample) by (nonlinear_arith)
            requires
                1 <= bytes_per_sample,
                0 <= src_offset_samples,
                0 <= num_channels,
        ;
    }
    let start_byte: usize = src_offset_samples * num_channels * bytes_per_sample;
    copy_range(src, start_byte, chunk_bytes)
}

/// The bytes of sample `s` for channel `ch` in an interleaved buffer.
pub open spec fn spec_interleaved_sample(
    src: Seq<u8>,
    bytes_per_sample: int,
    num_channels: int,
    ch: int,
    s: int,
) -> Seq<u8> {
    src.subrange(
        s * num_channels * bytes_per_sample + ch * bytes_per_sample,
        s * num_channels * bytes_per_sample + ch * bytes_per_sample + bytes_per_sample,
    )
}

/// De-interleaves one chunk into the planar fragments of a write session.
///
/// For each channel the chunk's samples are written into the first plane
/// until it is full, then into the second (ring wraparound). Succeeds
/// exactly when the session's geometry agrees with the chunk: whole
/// samples per plane and `samples_per_channel` samples in all; every
/// channel of the session then holds its de-interleaved samples in order.
/// A session of any other geometry is refused rather than filled
/// partially, since committing a partially written batch would publish
/// wrong samples; sessions opened for the chunk always agree.
pub fn write_samples_per_channel(
    bytes_per_sample: usize,
    num_channels: usize,
    access: &mut SamplesWriteAccess,
    samples_per_channel: usize,
    src_chunk: &Vec<u8>,
) -> (r: Result<()>)
    requires
        src_chunk@.len() == samples_per_channel * num_channels * bytes_per_sample,
        1 <= bytes_per_sample,
        1 <= num_channels,
    ensures
        final(access).flow == old(access).flow,
        final(access).index == old(access).index,
        final(access).count == old(access).count,
        final(access).planes@.len() == old(access).planes@.len(),
        r is Ok <==> old(access).planes@.len() == num_channels && (forall|c: int|
            0 <= c < old(access).planes@.len() ==> (#[trigger] old(
                access,
            ).planes@[c]).first@.len() as int % (bytes_per_sample as int) == 0 && old(
                access,
            ).planes@[c].first@.len() + old(access).planes@[c].second@.len()
                == samples_per_channel * bytes_per_sample),
        r is Ok ==> forall|c: int, s: int|
            0 <= c < num_channels && 0 <= s < samples_per_channel ==> (final(access).planes@[c].first@
                + final(access).planes@[c].second@).subrange(
                s * bytes_per_sample,
                s * bytes_per_sample + bytes_per_sample,
            ) == #[trigger] spec_interleaved_sample(
                src_chunk@,
                bytes_per_sample as int,
                num_channels as int,
                c,
                s,
            ),
        r is Ok ==> forall|c: int|
            0 <= c < num_channels ==> (#[trigger] final(access).planes@[c]).first@.len() == old(
                access,
            ).planes@[c].first@.len() && final(access).planes@[c].second@.len() == old(
                access,
            ).planes@[c].second@.len(),
{
    if access.channels() != num_channels {
        return Err(Error::InvalidArg);
    }
    let src_len: usize = src_chunk.len();
    let mut ch: usize = 0;
    while ch < num_channels
        invariant
            ch <= num_channels,
            num_channels == access.planes@.len(),
            old(access).planes@.len() == num_channels,
            1 <= bytes_per_sample,
            1 <= num_channels,
            src_chunk@.len() == samples_per_channel * num_channels * bytes_per_sample,
            src_len == src_chunk@.len(),
            access.flow == old(access).flow,
            access.index == old(access).index,
            access.count == old(access).count,
            forall|c: int|
                0 <= c < num_channels ==> (#[trigger] access.planes@[c]).first@.len() == old(
                    access,
                ).planes@[c].first@.len() && access.planes@[c].second@.len() == old(
                    access,
                ).planes@[c].second@.len(),
            forall|c: int|
                0 <= c < ch ==> (#[trigger] old(access).planes@[c]).first@.len() as int % (
                bytes_per_sample as int) == 0 && old(access).planes@[c].first@.len() + old(
                    access,
                ).planes@[c].second@.len() == samples_per_channel * bytes_per_sample,
            forall|c: int, s: int|
                0 <= c < ch && 0 <= s < samples_per_channel ==> (access.planes@[c].first@
                    + access.planes@[c].second@).subrange(
                    s * bytes_per_sample,
                    s * bytes_per_sample + bytes_per_sample,
                ) == #[trigger] spec_interleaved_sample(
                    src_chunk@,
                    bytes_per_sample as int,
                    num_channels as int,
                    c,
                    s,
                ),
        decreases num_channels - ch,
    {
        let (f1b, f2b) = match access.fragment_lens(ch) {
            Ok(lens) => lens,
            Err(e) => {
                return Err(e);
            },
        };
        if f1b % bytes_per_sample != 0 {
            return Err(Error::InvalidArg);
        }
        proof {
            assert(samples_per_channel * bytes_per_sample <= samples_per_channel * num_channels
                * bytes_per_sample) by (nonlinear_arith)
                requires
                    1 <= num_channels,
                    0 <= samples_per_channel,
                    0 <= bytes_per_sample,
            ;
        }
        let expected: usize = samples_per_channel * bytes_per_sample;
        if f1b > usize::MAX - f2b {
            return Err(Error::InvalidArg);
        }
        let total: usize = f1b + f2b;
        if total != expected {
            return Err(Error::InvalidArg);
        }
        let mut plane1 = zero_bytes(f1b);
        let mut plane2 = zero_bytes(f2b);
        let mut s: usize = 0;
        while s < samples_per_channel
            invariant
                s <= samples_per_channel,
                ch < num_channels,
                1 <= bytes_per_sample,
                1 <= num_channels,
                src_chunk@.len() == samples_per_channel * num_channels * bytes_per_sample,
                src_len == src_chunk@.len(),
                plane1@.len() == f1b,
                plane2@.len() == f2b,
                f1b % bytes_per_sample == 0,
                f1b + f2b <= usize::MAX,
                f1b + f2b == samples_per_channel * bytes_per_sample,
                forall|q: int|
                    0 <= q < s ==> (plane1@ + plane2@).subrange(
                        q * bytes_per_sample,
                        q * bytes_per_sample + bytes_per_sample,
                    ) == spec_interleaved_sample(
                        src_chunk@,
                        bytes_per_sample as int,
                        num_channels as int,
                        ch as int,
                        q,
                    ),
            decreases samples_per_channel - s,
        {
            proof {
                assert(s * num_channels * bytes_per_sample + ch * bytes_per_sample
                    + bytes_per_sample <= samples_per_channel * num_channels * bytes_per_sample)
                    by (nonlinear_arith)
                    requires
                        0 <= s < samples_per_channel,
                        0 <= ch < num_channels,
                        1 <= bytes_per_sample,
                ;
                assert((s + 1) * bytes_per_sample <= samples_per_channel * bytes_per_sample)
                    by (nonlinear_arith)
                    requires
                        s < samples_per_channel,
                        0 <= bytes_per_sample,
                ;
                assert(s * bytes_per_sample + bytes_per_sample == (s + 1) * bytes_per_sample)
                    by (nonlinear_arith);
            }
            proof {
                assert(s * num_channels <= s * num_channels * bytes_per_sample)
                    by (nonlinear_arith)
                    requires
                        1 <= bytes_per_sample,
                        0 <= s,
                        0 <= num_channels,
                ;
            }
            let sample_offset: usize = s * num_channels * bytes_per_sample + ch
                * bytes_per_sample;
            let written: usize = s * bytes_per_sample;
            let ghost plane1_pre = plane1@;
            let ghost plane2_pre = plane2@;
            if does_sample_fit_in_plane(bytes_per_sample, &plane1, written) {
                write_sample(bytes_per_sample, src_chunk, &mut plane1, written, sample_offset);
            } else {
                proof {
                    assert(written >= f1b) by (nonlinear_arith)
                        requires
                            written == s * bytes_per_sample,
                            f1b % bytes_per_sample == 0,
                            written + bytes_per_sample > f1b,
                            1 <= bytes_per_sample,
                            0 <= f1b,
                            0 <= s,
                    ;
                }
                write_sample(
                    bytes_per_sample,
                    src_chunk,
                    &mut plane2,
                    written - f1b,
                    sample_offset,
                );
            }
            proof {
                let bps = bytes_per_sample as int;
                assert forall|q: int| 0 <= q < s + 1 implies (plane1@ + plane2@).subrange(
                    q * bps,
                    q * bps + bps,
                ) == spec_interleaved_sample(
                    src_chunk@,
                    bps,
                    num_channels as int,
                    ch as int,
                    q,
                ) by {
                    assert(q * bps + bps <= (s + 1) * bps) by (nonlinear_arith)
                        requires
                            q < s + 1,
                            0 <= bps,
                    ;
                    assert((s + 1) * bps <= samples_per_channel * bps) by (nonlinear_arith)
                        requires
                            s + 1 <= samples_per_channel,
                            0 <= bps,
                    ;
                    if q < s {
                        assert(q * bps + bps <= s * bps) by (nonlinear_arith)
                            requires
                                q < s,
                                0 <= bps,
                        ;
                        assert((plane1_pre + plane2_pre).subrange(q * bps, q * bps + bps)
                            =~= (plane1@ + plane2@).subrange(q * bps, q * bps + bps));
                    } else {
                        assert((plane1@ + plane2@).subrange(q * bps, q * bps + bps)
                            =~= spec_interleaved_sample(
                            src_chunk@,
                            bps,
                            num_channels as int,
                            ch as int,
                            q,
                        ));
                    }
                }
            }
            s = s + 1;
        }
        match access.set_channel_data(ch, plane1, plane2) {
            Ok(_) => {},
            Err(_) => {
                return Err(Error::InvalidArg);
            },
        }
        ch = ch + 1;
    }
    Ok(())
}

/// Computes one chunk's parameters and opens write access for it: the
/// chunk takes as many of the remaining samples as fit in `max_chunk`, and
/// the session is opened for the batch ending `chunk - 1` past
/// `write_index`.
pub fn compute_samples_per_channel(
    instance: &MxlInstance,
    audio_state: &AudioState,
    bytes_per_sample: usize,
    write_index: u64,
    max_chunk: u64,
    num_channels: usize,
    remaining: usize,
) -> (r: Result<(u64, usize, SamplesWriteAccess, usize)>)
    requires
        instance.wf(),
        1 <= remaining,
        1 <= max_chunk,
        write_index + remaining <= u64::MAX,
        1 <= bytes_per_sample <= 0x100,
        1 <= num_channels <= 0x10000,
        remaining * num_channels * bytes_per_sample <= usize::MAX,
    ensures
        r is Ok <==> audio_state.writer.flow < instance.flows@.len() && (
        instance.flows@[audio_state.writer.flow as int].config.details matches
        crate::flow::FlowConfigDetails::Continuous(cfg) && (if remaining as u64 <= max_chunk {
            remaining as u64
        } else {
            max_chunk
        }) <= cfg.buffer_length),
        r matches Ok((chunk_samples, chunk_bytes, access, samples_per_channel)) ==> {
            let chunk = if remaining as u64 <= max_chunk {
                remaining as u64
            } else {
                max_chunk
            };
            &&& chunk_samples == chunk
            &&& samples_per_channel == chunk
            &&& chunk_bytes == chunk * num_channels * bytes_per_sample
            &&& access.flow == audio_state.writer.flow
            &&& access.index == write_index + chunk - 1
            &&& access.count == chunk
            &&& (instance.flows@[audio_state.writer.flow as int].config.details matches
            crate::flow::FlowConfigDetails::Continuous(cfg) && access.planes@.len()
                == cfg.channel_count && (forall|c: int|
                0 <= c < access.planes@.len() ==> (#[trigger] access.planes@[c]).first@.len()
                    == crate::ring::spec_f1_bytes(cfg, access.index, chunk)
                    && access.planes@[c].second@.len() == crate::ring::spec_f2_bytes(
                    cfg,
                    access.index,
                    chunk,
                )))
        },
{
    let chunk_samples: u64 = if remaining as u64 <= max_chunk {
        remaining as u64
    } else {
        max_chunk
    };
    proof {
        assert(chunk_samples * num_channels <= remaining * num_channels) by (nonlinear_arith)
            requires
                chunk_samples <= remaining,
                0 <= num_channels,
        ;
        assert(chunk_samples * num_channels * bytes_per_sample <= remaining * num_channels
            * bytes_per_sample) by (nonlinear_arith)
            requires
                chunk_samples * num_channels <= remaining * num_channels,
                0 <= bytes_per_sample,
        ;
        assert(chunk_samples * num_channels <= chunk_samples * num_channels * bytes_per_sample)
            by (nonlinear_arith)
            requires
                1 <= bytes_per_sample,
                0 <= chunk_samples,
                0 <= num_channels,
        ;
    }
    let chunk_bytes: usize = (chunk_samples as usize) * num_channels * bytes_per_sample;
    let end_index: u64 = write_index + chunk_samples - 1;
    let access = match audio_state.writer.open_samples(instance, end_index, chunk_samples as usize)
        {
        Ok(access) => access,
        Err(e) => {
            return Err(e);
        },
    };
    let samples_per_channel: usize = chunk_samples as usize;
    Ok((chunk_samples, chunk_bytes, access, samples_per_channel))
}

/// How many chunks a batch of `total` samples takes at `max_chunk` samples
/// per chunk.
pub open spec fn spec_chunk_count(total: int, max_chunk: int) -> int {
    if total == 0 {
        0
    } else {
        (total + max_chunk - 1) / max_chunk
    }
}

/// Everything a buffer write needs to succeed: a continuous flow with a
/// valid rate initialized in the state, per-sample and channel figures
/// within the supported bounds, no index overflow, a chunk limit that can
/// make progress, and a writer handle that points at the matching
/// continuous flow of the domain.
pub open spec fn spec_audio_write_ready(
    instance: MxlInstance,
    state: State,
    src_len: int,
) -> bool {
    &&& state.audio is Some
    &&& state.flow is Some
    &&& {
        let audio = state.audio->Some_0;
        let flow = state.flow->Some_0;
        let bps = audio.flow_def.bit_depth as int / 8;
        let nch = audio.flow_def.channel_count as int;
        &&& flow.details is Continuous
        &&& flow.common.format == crate::flow::MXL_DATA_FORMAT_AUDIO
        &&& crate::rate::rate_valid(flow.common.grain_rate)
        &&& 1 <= bps <= 0x100
        &&& 1 <= nch <= 0x10000
        &&& {
            let total = src_len / (nch * bps);
            let ring_len = flow.details->Continuous_0.buffer_length as int;
            let w0 = (match audio.next_write_index {
                Some(w) => w as int,
                None => spec_timestamp_to_index(instance.now_ns, flow.common.grain_rate),
            });
            &&& (total > 0 ==> ring_len / 2 >= 1)
            &&& w0 + total <= u64::MAX
            &&& audio.writer.flow < instance.flows@.len()
            &&& instance.flows@[audio.writer.flow as int].config.details is Continuous
            &&& crate::instance::cont_cfg(
                instance.flows@[audio.writer.flow as int],
            ).sample_word_size == bps
            &&& crate::instance::cont_cfg(
                instance.flows@[audio.writer.flow as int],
            ).channel_count == nch
            &&& crate::instance::cont_cfg(
                instance.flows@[audio.writer.flow as int],
            ).buffer_length == ring_len
        }
    }
}

/// Renders one buffer of interleaved audio samples.
///
/// The buffer is written in chunks of at most half the ring's length; each
/// chunk is de-interleaved into per-channel planes and committed, and the
/// write index advances by the chunk's samples. The first write
/// establishes the index baseline from the domain clock at the flow's
/// sample rate. Returns the number of chunks committed.
///
/// On success exactly `ceil(total / max_chunk)` chunks were committed,
/// the stored write index advanced by exactly the buffer's sample count,
/// and the flow's head index covers the last sample written.
pub fn audio(instance: &mut MxlInstance, state: &mut State, src: &Vec<u8>) -> (r: Result<usize>)
    requires
        old(instance).wf(),
    ensures
        final(instance).wf(),
        final(instance).now_ns == old(instance).now_ns,
        r is Ok <==> spec_audio_write_ready(*old(instance), *old(state), src@.len() as int),
        r matches Ok(chunks) ==> {
            let audio_pre = old(state).audio->Some_0;
            let bps = audio_pre.flow_def.bit_depth as int / 8;
            let nch = audio_pre.flow_def.channel_count as int;
            let total = src@.len() as int / (nch * bps);
            let ring_len = old(state).flow->Some_0.details->Continuous_0.buffer_length as int;
            let max_chunk = ring_len / 2;
            let w0 = (match audio_pre.next_write_index {
                Some(w) => w as int,
                None => spec_timestamp_to_index(
                    old(instance).now_ns,
                    old(state).flow->Some_0.common.grain_rate,
                ),
            });
            &&& old(state).audio is Some
            &&& old(state).flow is Some
            &&& (total > 0 ==> max_chunk >= 1)
            &&& chunks == spec_chunk_count(total, max_chunk)
            &&& final(state).audio is Some
            &&& final(state).audio->Some_0.next_write_index == Some((w0 + total) as u64)
            &&& final(state).audio->Some_0.batch_size == total
            &&& (total > 0 ==> cont_ring(
                final(instance).flows@[audio_pre.writer.flow as int],
            ).head >= w0 + total - 1)
        },
{
    let audio_state = match &mut state.audio {
        Some(audio_state) => audio_state,
        None => {
            return Err(Error::InvalidArg);
        },
    };
    let flow = match &state.flow {
        Some(flow) => *flow,
        None => {
            return Err(Error::InvalidArg);
        },
    };
    let flow_info = match flow.continuous() {
        Ok(flow_info) => flow_info,
        Err(e) => {
            return Err(e);
        },
    };
    let sample_rate = match flow.common().sample_rate() {
        Ok(sample_rate) => sample_rate,
        Err(e) => {
            return Err(e);
        },
    };
    if !sample_rate.is_valid() {
        return Err(Error::Other("invalid rate".to_owned()));
    }
    let bytes_per_sample: usize = (audio_state.flow_def.bit_depth / 8) as usize;
    if bytes_per_sample < 1 || bytes_per_sample > 0x100 {
        return Err(Error::InvalidArg);
    }
    if audio_state.flow_def.channel_count < 1 || audio_state.flow_def.channel_count > 0x10000 {
        return Err(Error::InvalidArg);
    }
    let num_channels: usize = audio_state.flow_def.channel_count as usize;
    proof {
        assert(1 <= num_channels * bytes_per_sample <= 0x100_0000) by (nonlinear_arith)
            requires
                1 <= num_channels <= 0x10000,
                1 <= bytes_per_sample <= 0x100,
        ;
    }
    let frame_bytes: usize = num_channels * bytes_per_sample;
    let samples_total: usize = src.len() / frame_bytes;
    audio_state.batch_size = samples_total;
    let buffer_length = flow_info.buffer_length;
    let max_chunk: u64 = (buffer_length / 2) as u64;
    let mut write_index: u64 = match audio_state.next_write_index {
        Some(index) => index,
        None => instance.get_current_index(&sample_rate),
    };
    if samples_total > 0 && max_chunk < 1 {
        return Err(Error::InvalidArg);
    }
    if (samples_total as u64) > u64::MAX - write_index {
        return Err(Error::InvalidArg);
    }
    // Validate the writer against the domain before any chunk is opened,
    // so that a whole buffer is either written or refused.
    if audio_state.writer.flow >= instance.flows.len() {
        return Err(Error::InvalidFlowWriter);
    }
    let cfg = match instance.flows[audio_state.writer.flow].config.continuous() {
        Ok(cfg) => cfg,
        Err(_) => {
            return Err(Error::InvalidFlowWriter);
        },
    };
    if cfg.sample_word_size as usize != bytes_per_sample || cfg.channel_count as usize
        != num_channels || cfg.buffer_length != buffer_length {
        return Err(Error::InvalidArg);
    }
    proof {
        assert(instance.flows@[audio_state.writer.flow as int].wf());
        assert(samples_total * num_channels * bytes_per_sample <= src@.len()) by (nonlinear_arith)
            requires
                samples_total == src@.len() as int / (num_channels * bytes_per_sample) as int,
                1 <= num_channels * bytes_per_sample,
                num_channels * bytes_per_sample == frame_bytes,
                frame_bytes >= 1,
                src@.len() <= usize::MAX,
        ;
    }
    let src_len: usize = src.len();
    let ghost w0 = write_index;
    let mut remaining: usize = samples_total;
    let mut src_offset_samples: usize = 0;
    let mut chunks: usize = 0;
    while remaining > 0
        invariant
            instance.wf(),
            instance.now_ns == old(instance).now_ns,
            src_offset_samples + remaining == samples_total,
            write_index == w0 + src_offset_samples,
            w0 + samples_total <= u64::MAX,
            remaining > 0 ==> src_offset_samples == chunks * max_chunk,
            remaining == 0 ==> chunks == spec_chunk_count(samples_total as int, max_chunk as int),
            samples_total > 0 ==> max_chunk >= 1,
            1 <= bytes_per_sample <= 0x100,
            1 <= num_channels <= 0x10000,
            samples_total * num_channels * bytes_per_sample <= src@.len(),
            src_len == src@.len(),
            audio_state.writer.flow < instance.flows@.len(),
            instance.flows@[audio_state.writer.flow as int].config.details
                == crate::flow::FlowConfigDetails::Continuous(cfg),
            crate::instance::entry_is_continuous(
                instance.flows@[audio_state.writer.flow as int],
            ),
            cfg.sample_word_size == bytes_per_sample,
            cfg.channel_count == num_channels,
            max_chunk == cfg.buffer_length as int / 2,
            src_offset_samples > 0 ==> cont_ring(
                instance.flows@[audio_state.writer.flow as int],
            ).head >= w0 + src_offset_samples - 1,
        decreases remaining,
    {
        proof {
            assert(remaining * num_channels * bytes_per_sample <= samples_total * num_channels
                * bytes_per_sample) by (nonlinear_arith)
                requires
                    remaining <= samples_total,
                    0 <= num_channels,
                    0 <= bytes_per_sample,
            ;
            assert(chunks <= src_offset_samples) by (nonlinear_arith)
                requires
                    src_offset_samples == chunks * max_chunk,
                    1 <= max_chunk,
                    0 <= chunks,
            ;
        }
        let (chunk_samples, chunk_bytes, mut access, samples_per_channel) =
            match compute_samples_per_channel(
            instance,
            audio_state,
            bytes_per_sample,
            write_index,
            max_chunk,
            num_channels,
            remaining,
        ) {
            Ok(opened) => opened,
            Err(e) => {
                proof {
                    assert(false);
                }
                return Err(e);
            },
        };
        proof {
            assert(src_offset_samples * num_channels * bytes_per_sample + chunk_bytes
                <= samples_total * num_channels * bytes_per_sample) by (nonlinear_arith)
                requires
                    src_offset_samples + chunk_samples <= samples_total,
                    chunk_bytes == chunk_samples * num_channels * bytes_per_sample,
                    0 <= num_channels,
                    0 <= bytes_per_sample,
                    0 <= src_offset_samples,
                    0 <= chunk_samples,
            ;
        }
        let src_chunk = compute_chunk(
            src,
            bytes_per_sample,
            num_channels,
            src_offset_samples,
            chunk_bytes,
        );
        proof {
            crate::ring::lemma_fragment_geometry(cfg, access.index, access.count);
            assert forall|c: int| 0 <= c < access.planes@.len() implies (
            #[trigger] access.planes@[c]).first@.len() as int % (bytes_per_sample as int) == 0
                && access.planes@[c].first@.len() + access.planes@[c].second@.len()
                == samples_per_channel * bytes_per_sample by {
                let f1s = crate::ring::spec_f1_samples(cfg, access.index, access.count);
                assert(access.planes@[c].first@.len() == f1s * cfg.sample_word_size);
                assert((f1s * cfg.sample_word_size) % (cfg.sample_word_size as int) == 0)
                    by (nonlinear_arith)
                    requires
                        cfg.sample_word_size >= 1,
                        f1s >= 0,
                ;
            }
        }
        match write_samples_per_channel(
            bytes_per_sample,
            num_channels,
            &mut access,
            samples_per_channel,
            &src_chunk,
        ) {
            Ok(_) => {},
            Err(e) => {
                proof {
                    assert(false);
                }
                return Err(e);
            },
        }
        match access.commit(instance) {
            Ok(_) => {},
            Err(e) => {
                proof {
                    assert(false);
                }
                return Err(e);
            },
        }
        proof {
            if remaining as u64 > max_chunk {
                assert((chunks + 1) * max_chunk == chunks * max_chunk + max_chunk)
                    by (nonlinear_arith);
            } else {
                assert(chunks * max_chunk + remaining == samples_total);
                assert(chunks + 1 == spec_chunk_count(samples_total as int, max_chunk as int))
                    by (nonlinear_arith)
                    requires
                        samples_total == chunks * max_chunk + remaining,
                        1 <= remaining <= max_chunk,
                        0 <= chunks,
                ;
            }
        }
        write_index = write_index + chunk_samples;
        src_offset_samples = src_offset_samples + (chunk_samples as usize);
        remaining = remaining - (chunk_samples as usize);
        chunks = chunks + 1;
    }
    audio_state.next_write_index = Some(write_index);
    Ok(chunks)
}

} // verus!
