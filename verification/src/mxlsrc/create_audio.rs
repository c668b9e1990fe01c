//! Continuous reader pacing: producing audio buffers from sample batches.
//!
//! Batches of a bounded size are read behind the producer's head with a
//! short bounded wait; a reader that has fallen out of the retention
//! window jumps forward to a two-batch cushion behind the head, flags one
//! discontinuity and resets its timing baseline. Per-channel fragments are
//! interleaved into a single buffer, and output timestamps derive from the
//! batch counter and rate with the same forward-only baseline correction
//! as the discrete side.

use vstd::prelude::*;

use crate::error::{Error, Result};
use crate::flow::{ContinuousFlowConfigInfo, FlowInfo};
use crate::instance::MxlInstance;
use crate::mxlsrc::state::{AudioState, CreateState, InitialTime, MediaBuffer, State};
use crate::rate::{spec_index_to_timestamp, Rational, NS_PER_SECOND};
use crate::ring::copy_bytes;
use crate::samples::data::SamplesData;

verus! {

/// Maximum time to wait for samples to become available, in nanoseconds.
pub const GET_SAMPLE_TIMEOUT_NS: u64 = 2_000_000_000;

/// Maximum time to wait for the producer to advance its head, in
/// nanoseconds.
pub const PRODUCER_TIMEOUT_NS: u64 = 100_000_000;

/// Default number of samples per produced buffer.
pub const DEFAULT_BATCH_SIZE: u32 = 48;

/// The oldest readable batch-end index: everything below has left the
/// retention window.
pub open spec fn spec_oldest_valid(head: u64, batch: u64, ring: u64) -> int {
    let window = if ring >= batch {
        ring - batch
    } else {
        0
    };
    if head >= window {
        head - window
    } else {
        0
    }
}

/// The catch-up target: two batches of cushion behind the head, so that
/// the reader is not immediately late again.
pub open spec fn spec_cushion_target(head: u64, batch: u64) -> int {
    let cushion = if 2 * batch <= u64::MAX {
        2 * batch
    } else {
        u64::MAX as int
    };
    if head >= cushion {
        head - cushion
    } else {
        0
    }
}

/// Computes the catch-up target index: `head` minus a two-batch cushion.
pub fn define_cushion(head: u64, batch: u64) -> (r: u64)
    ensures
        r == spec_cushion_target(head, batch),
{
    let cushion: u64 = if batch <= u64::MAX / 2 {
        2 * batch
    } else {
        u64::MAX
    };
    if head >= cushion {
        head - cushion
    } else {
        0
    }
}

/// Jumps the reader forward to the catch-up target.
pub fn catch_up(head: u64, batch: u64, ring: u64, audio_state: &mut AudioState, oldest_valid: u64)
    ensures
        final(audio_state).index == spec_cushion_target(head, batch),
        final(audio_state).reader == old(audio_state).reader,
        final(audio_state).samples_reader == old(audio_state).samples_reader,
        final(audio_state).batch_counter == old(audio_state).batch_counter,
        final(audio_state).is_initialized == old(audio_state).is_initialized,
        final(audio_state).next_discont == old(audio_state).next_discont,
{
    let target = define_cushion(head, batch);
    audio_state.index = target;
}

/// Checks whether the reader has fallen out of the retention window, and
/// if so jumps it forward to the catch-up target.
///
/// When the jump happens and `2 * batch <= ring`, the corrected index
/// always lands within `[head - ring, head]`.
pub fn is_reader_late(head: u64, batch: u64, ring: u64, audio_state: &mut AudioState) -> (r:
    Result<bool>)
    ensures
        r matches Ok(late) ==> {
            &&& late == (old(audio_state).index < spec_oldest_valid(head, batch, ring))
            &&& (late ==> final(audio_state).index == spec_cushion_target(head, batch))
            &&& (!late ==> final(audio_state).index == old(audio_state).index)
            &&& (late && 2 * batch <= ring ==> head - ring <= final(audio_state).index <= head)
        },
        r is Ok,
        final(audio_state).batch_counter == old(audio_state).batch_counter,
        final(audio_state).is_initialized == old(audio_state).is_initialized,
        final(audio_state).next_discont == old(audio_state).next_discont,
        final(audio_state).reader == old(audio_state).reader,
        final(audio_state).samples_reader == old(audio_state).samples_reader,
{
    let oldest_valid: u64 = head.saturating_sub(ring.saturating_sub(batch));
    if audio_state.index < oldest_valid {
        catch_up(head, batch, ring, audio_state, oldest_valid);
        Ok(true)
    } else {
        Ok(false)
    }
}

/// Establishes the timing baseline on the first batch: the baseline pair
/// is the domain time and the external time, and reading starts one batch
/// of headroom behind the producer's head.
pub fn audio_state_init(
    initial_info: &mut InitialTime,
    instance: &MxlInstance,
    ts_gst: u64,
    batch: u64,
    head: u64,
    audio_state: &mut AudioState,
)
    ensures
        old(audio_state).is_initialized ==> *final(audio_state) == *old(audio_state)
            && *final(initial_info) == *old(initial_info),
        !old(audio_state).is_initialized ==> {
            &&& *final(initial_info) == (InitialTime {
                mxl_index: instance.now_ns,
                gst_time: ts_gst,
            })
            &&& final(audio_state).index == if head >= batch {
                head - batch
            } else {
                0
            }
            &&& final(audio_state).is_initialized
            &&& final(audio_state).batch_counter == 0
            &&& final(audio_state).next_discont == old(audio_state).next_discont
            &&& final(audio_state).reader == old(audio_state).reader
            &&& final(audio_state).samples_reader == old(audio_state).samples_reader
        },
{
    if !audio_state.is_initialized {
        *initial_info = InitialTime { mxl_index: instance.get_time(), gst_time: ts_gst };
        audio_state.index = head.saturating_sub(batch);
        audio_state.is_initialized = true;
        audio_state.batch_counter = 0;
    }
}

/// Resets the timing baseline after a catch-up, so that the same
/// correction does not trigger again at once, and flags the next buffer
/// as discontinuous.
pub fn resync_state(
    ts_gst: u64,
    initial_info: &mut InitialTime,
    instance: &MxlInstance,
    audio_state: &mut AudioState,
)
    ensures
        *final(initial_info) == (InitialTime { mxl_index: instance.now_ns, gst_time: ts_gst }),
        final(audio_state).batch_counter == 0,
        final(audio_state).next_discont,
        final(audio_state).index == old(audio_state).index,
        final(audio_state).is_initialized == old(audio_state).is_initialized,
        final(audio_state).reader == old(audio_state).reader,
        final(audio_state).samples_reader == old(audio_state).samples_reader,
{
    initial_info.gst_time = ts_gst;
    initial_info.mxl_index = instance.get_time();
    audio_state.batch_counter = 0;
    audio_state.next_discont = true;
}

/// Re-queries the producer's head index.
pub fn wait_for_producer(instance: &MxlInstance, audio_state: &AudioState) -> (r: Result<u64>)
    ensures
        r is Ok <==> audio_state.reader.flow < instance.flows@.len(),
        r matches Ok(head) ==> head == instance.flows@[audio_state.reader.flow as int].spec_head(),
{
    match audio_state.reader.get_info(instance) {
        Ok(info) => Ok(info.runtime.head_index()),
        Err(e) => Err(e),
    }
}

/// Waits briefly while the reader is ahead of the producer: the head is
/// re-polled, and if the batch ending at the reader's index plus one batch
/// of headroom is still beyond it, a bounded short wait passes before the
/// cycle proceeds regardless (a live system must not block forever).
pub fn wait_for_sample(
    instance: &mut MxlInstance,
    head: u64,
    batch: u64,
    audio_state: &AudioState,
) -> (r: Result<u64>)
    requires
        old(instance).wf(),
    ensures
        final(instance).wf(),
        final(instance).flows == old(instance).flows,
        r is Ok <==> audio_state.reader.flow < old(instance).flows@.len(),
        r matches Ok(new_head) ==> new_head == old(
            instance,
        ).flows@[audio_state.reader.flow as int].spec_head(),
        r is Ok ==> final(instance).now_ns == if audio_state.index + batch > old(
            instance,
        ).flows@[audio_state.reader.flow as int].spec_head() {
            if old(instance).now_ns + PRODUCER_TIMEOUT_NS <= u64::MAX {
                old(instance).now_ns + PRODUCER_TIMEOUT_NS
            } else {
                u64::MAX as int
            }
        } else {
            old(instance).now_ns as int
        },
        r is Err ==> *final(instance) == *old(instance),
{
    if audio_state.index > u64::MAX - batch {
        // An index this close to the end of representable time is always
        // ahead of any head: wait out the short timeout.
        match wait_for_producer(instance, audio_state) {
            Ok(new_head) => {
                instance.sleep_for(PRODUCER_TIMEOUT_NS);
                return Ok(new_head);
            },
            Err(e) => {
                return Err(e);
            },
        }
    }
    let new_head = match wait_for_producer(instance, audio_state) {
        Ok(new_head) => new_head,
        Err(e) => {
            return Err(e);
        },
    };
    if audio_state.index + batch > new_head {
        instance.sleep_for(PRODUCER_TIMEOUT_NS);
    }
    Ok(new_head)
}

/// Interleaves per-channel sample data into one buffer (sample-major,
/// channel-minor), the inverse of the writer's de-interleave.
///
/// Fails exactly when the channels disagree on their byte length or the
/// length is not whole samples; otherwise, for every channel and sample,
/// the output carries that channel's sample at the interleaved position.
pub fn interleave_audio(samples: &SamplesData, bytes_per_sample: usize) -> (r: Result<Vec<u8>>)
    requires
        1 <= bytes_per_sample <= 0x100,
        samples.channels@.len() >= 1,
        samples.channels@.len() <= 0x10000,
    ensures
        r is Ok <==> {
            let chan_bytes = (samples.channels@[0].first@.len()
                + samples.channels@[0].second@.len()) as int;
            &&& chan_bytes <= usize::MAX
            &&& chan_bytes % (bytes_per_sample as int) == 0
            &&& (forall|c: int|
                0 <= c < samples.channels@.len() ==> (#[trigger] samples.channels@[c]).first@.len()
                    + samples.channels@[c].second@.len() == chan_bytes)
        },
        r matches Ok(out) ==> {
            let nch = samples.channels@.len() as int;
            let chan_bytes = (samples.channels@[0].first@.len()
                + samples.channels@[0].second@.len()) as int;
            let spc = chan_bytes / (bytes_per_sample as int);
            &&& out@.len() == nch * chan_bytes
            &&& (forall|c: int, s: int|
                0 <= c < nch && 0 <= s < spc ==> out@.subrange(
                    (s * nch + c) * bytes_per_sample,
                    (s * nch + c) * bytes_per_sample + bytes_per_sample,
                ) == #[trigger] (samples.channels@[c].first@
                    + samples.channels@[c].second@).subrange(
                    s * bytes_per_sample,
                    s * bytes_per_sample + bytes_per_sample,
                ))
        },
{
    let nch: usize = samples.num_of_channels();
    let (f1b0, f2b0) = {
        let fragments = match samples.channel_data(0) {
            Ok(fragments) => fragments,
            Err(e) => {
                proof {
                    assert(false);
                }
                return Err(e);
            },
        };
        (fragments.0.len(), fragments.1.len())
    };
    if f1b0 > usize::MAX - f2b0 {
        return Err(Error::InvalidArg);
    }
    let chan_bytes: usize = f1b0 + f2b0;
    if chan_bytes % bytes_per_sample != 0 {
        return Err(Error::InvalidArg);
    }
    let spc: usize = chan_bytes / bytes_per_sample;
    // Join each channel's fragments; all channels must agree on length.
    let mut joined: Vec<Vec<u8>> = Vec::new();
    let mut c: usize = 0;
    while c < nch
        invariant
            c <= nch == samples.channels@.len(),
            joined@.len() == c,
            forall|i: int|
                0 <= i < c ==> (#[trigger] joined@[i])@ == samples.channels@[i].first@
                    + samples.channels@[i].second@,
            forall|i: int|
                0 <= i < c ==> (#[trigger] joined@[i])@.len() == chan_bytes,
            chan_bytes == samples.channels@[0].first@.len()
                + samples.channels@[0].second@.len(),
        decreases nch - c,
    {
        let fragments = match samples.channel_data(c) {
            Ok(fragments) => fragments,
            Err(e) => {
                proof {
                    assert(false);
                }
                return Err(e);
            },
        };
        let mut channel = copy_bytes(fragments.0);
        let mut second = copy_bytes(fragments.1);
        channel.append(&mut second);
        if channel.len() != chan_bytes {
            return Err(Error::InvalidArg);
        }
        proof {
            assert(channel@ =~= samples.channels@[c as int].first@
                + samples.channels@[c as int].second@);
        }
        joined.push(channel);
        c = c + 1;
    }
    proof {
        assert(spc * bytes_per_sample == chan_bytes) by (nonlinear_arith)
            requires
                spc == chan_bytes as int / bytes_per_sample as int,
                chan_bytes as int % bytes_per_sample as int == 0,
                1 <= bytes_per_sample,
        ;
        assert(nch * chan_bytes <= 0x10000 * (usize::MAX as int)) by (nonlinear_arith)
            requires
                nch <= 0x10000,
                chan_bytes <= usize::MAX,
        ;
    }
    let mut out: Vec<u8> = Vec::new();
    let mut s: usize = 0;
    proof {
        assert((0int) * (nch as int) * (bytes_per_sample as int) == 0) by (nonlinear_arith);
    }
    while s < spc
        invariant
            s <= spc,
            nch == samples.channels@.len(),
            1 <= nch <= 0x10000,
            1 <= bytes_per_sample <= 0x100,
            spc * bytes_per_sample == chan_bytes,
            chan_bytes <= usize::MAX,
            joined@.len() == nch,
            forall|i: int|
                0 <= i < nch ==> (#[trigger] joined@[i])@ == samples.channels@[i].first@
                    + samples.channels@[i].second@,
            forall|i: int| 0 <= i < nch ==> (#[trigger] joined@[i])@.len() == chan_bytes,
            out@.len() == s * nch * bytes_per_sample,
            forall|c2: int, q: int|
                0 <= c2 < nch && 0 <= q < s ==> out@.subrange(
                    (q * nch + c2) * bytes_per_sample,
                    (q * nch + c2) * bytes_per_sample + bytes_per_sample,
                ) == #[trigger] (samples.channels@[c2].first@
                    + samples.channels@[c2].second@).subrange(
                    q * bytes_per_sample,
                    q * bytes_per_sample + bytes_per_sample,
                ),
        decreases spc - s,
    {
        let mut c2: usize = 0;
        let ghost out_s = out@;
        while c2 < nch
            invariant
                c2 <= nch,
                s < spc,
                nch == samples.channels@.len(),
                1 <= nch <= 0x10000,
                1 <= bytes_per_sample <= 0x100,
                spc * bytes_per_sample == chan_bytes,
                chan_bytes <= usize::MAX,
                joined@.len() == nch,
                forall|i: int|
                    0 <= i < nch ==> (#[trigger] joined@[i])@ == samples.channels@[i].first@
                        + samples.channels@[i].second@,
                forall|i: int| 0 <= i < nch ==> (#[trigger] joined@[i])@.len() == chan_bytes,
                out@.len() == s * nch * bytes_per_sample + c2 * bytes_per_sample,
                out@.subrange(0, out_s.len() as int) == out_s,
                out_s.len() == s * nch * bytes_per_sample,
                forall|c3: int|
                    0 <= c3 < c2 ==> out@.subrange(
                        (s * nch + c3) * bytes_per_sample,
                        (s * nch + c3) * bytes_per_sample + bytes_per_sample,
                    ) == #[trigger] (joined@[c3])@.subrange(
                        s * bytes_per_sample,
                        s * bytes_per_sample + bytes_per_sample,
                    ),
            decreases nch - c2,
        {
            proof {
                assert((s * nch + c2) * bytes_per_sample == s * nch * bytes_per_sample + c2
                    * bytes_per_sample) by (nonlinear_arith);
                assert((s + 1) * bytes_per_sample <= spc * bytes_per_sample)
                    by (nonlinear_arith)
                    requires
                        s + 1 <= spc,
                        0 <= bytes_per_sample,
                ;
                assert(s * bytes_per_sample + bytes_per_sample == (s + 1) * bytes_per_sample)
                    by (nonlinear_arith);
                assert(s * nch * bytes_per_sample + (c2 + 1) * bytes_per_sample <= (s + 1) * nch
                    * bytes_per_sample) by (nonlinear_arith)
                    requires
                        c2 + 1 <= nch,
                        0 <= s,
                        0 <= bytes_per_sample,
                        0 <= nch,
                ;
                assert((s + 1) * nch * bytes_per_sample <= spc * nch * bytes_per_sample)
                    by (nonlinear_arith)
                    requires
                        s + 1 <= spc,
                        0 <= nch,
                        0 <= bytes_per_sample,
                ;
                assert(spc * nch * bytes_per_sample == nch * (spc * bytes_per_sample))
                    by (nonlinear_arith);
                assert(nch * (spc * bytes_per_sample) <= 0x10000 * (usize::MAX as int))
                    by (nonlinear_arith)
                    requires
                        nch <= 0x10000,
                        spc * bytes_per_sample <= usize::MAX,
                        0 <= spc * bytes_per_sample,
                ;
                assert(c2 * bytes_per_sample + bytes_per_sample == (c2 + 1) * bytes_per_sample)
                    by (nonlinear_arith);
            }
            let channel = &joined[c2];
            let offset: usize = s * bytes_per_sample;
            let ghost out_pre = out@;
            let mut b: usize = 0;
            while b < bytes_per_sample
                invariant
                    b <= bytes_per_sample,
                    c2 < nch,
                    s < spc,
                    joined@.len() == nch,
                    channel == joined@[c2 as int],
                    channel@.len() == chan_bytes,
                    spc * bytes_per_sample == chan_bytes,
                    offset == s * bytes_per_sample,
                    offset + bytes_per_sample <= chan_bytes,
                    out@.len() == out_pre.len() + b,
                    out@.subrange(0, out_pre.len() as int) == out_pre,
                    forall|k: int|
                        0 <= k < b ==> #[trigger] out@[out_pre.len() + k] == channel@[offset
                            + k],
                decreases bytes_per_sample - b,
            {
                out.push(channel[offset + b]);
                proof {
                    assert(out@.subrange(0, out_pre.len() as int) =~= out_pre);
                }
                b = b + 1;
            }
            proof {
                assert(out@.subrange(0, out_s.len() as int) =~= out_s);
                assert forall|k: int| 0 <= k < bytes_per_sample implies #[trigger] out@.subrange(
                    out_pre.len() as int,
                    out_pre.len() + bytes_per_sample,
                )[k] == channel@.subrange(offset as int, offset + bytes_per_sample)[k] by {
                    assert(out@[out_pre.len() + k] == channel@[offset + k]);
                }
                assert(out@.subrange(
                    out_pre.len() as int,
                    out_pre.len() + bytes_per_sample,
                ) =~= channel@.subrange(offset as int, offset + bytes_per_sample));
                assert forall|c3: int| 0 <= c3 < c2 + 1 implies out@.subrange(
                    (s * nch + c3) * bytes_per_sample,
                    (s * nch + c3) * bytes_per_sample + bytes_per_sample,
                ) == #[trigger] (joined@[c3])@.subrange(
                    s * bytes_per_sample,
                    s * bytes_per_sample + bytes_per_sample,
                ) by {
                    assert((s * nch + c3) * bytes_per_sample == s * nch * bytes_per_sample + c3
                        * bytes_per_sample) by (nonlinear_arith);
                    if c3 < c2 {
                        assert(c3 * bytes_per_sample + bytes_per_sample <= c2 * bytes_per_sample)
                            by (nonlinear_arith)
                            requires
                                c3 + 1 <= c2,
                                0 <= bytes_per_sample,
                        ;
                        assert(out@.subrange(
                            s * nch * bytes_per_sample + c3 * bytes_per_sample,
                            s * nch * bytes_per_sample + c3 * bytes_per_sample
                                + bytes_per_sample,
                        ) =~= out_pre.subrange(
                            s * nch * bytes_per_sample + c3 * bytes_per_sample,
                            s * nch * bytes_per_sample + c3 * bytes_per_sample
                                + bytes_per_sample,
                        ));
                    } else {
                        assert(out@.subrange(
                            s * nch * bytes_per_sample + c3 * bytes_per_sample,
                            s * nch * bytes_per_sample + c3 * bytes_per_sample
                                + bytes_per_sample,
                        ) =~= channel@.subrange(offset as int, offset + bytes_per_sample));
                    }
                }
            }
            c2 = c2 + 1;
        }
        proof {
            assert(out@.len() == (s + 1) * nch * bytes_per_sample) by (nonlinear_arith)
                requires
                    out@.len() == s * nch * bytes_per_sample + nch * bytes_per_sample,
            ;
            assert forall|c2i: int, q: int| 0 <= c2i < nch && 0 <= q < s + 1 implies out@.subrange(
                (q * nch + c2i) * bytes_per_sample,
                (q * nch + c2i) * bytes_per_sample + bytes_per_sample,
            ) == #[trigger] (samples.channels@[c2i].first@
                + samples.channels@[c2i].second@).subrange(
                q * bytes_per_sample,
                q * bytes_per_sample + bytes_per_sample,
            ) by {
                assert((q * nch + c2i) * bytes_per_sample == q * nch * bytes_per_sample + c2i
                    * bytes_per_sample) by (nonlinear_arith);
                if q < s {
                    assert(q * nch * bytes_per_sample + (c2i + 1) * bytes_per_sample <= s * nch
                        * bytes_per_sample) by (nonlinear_arith)
                        requires
                            q + 1 <= s,
                            c2i + 1 <= nch,
                            0 <= bytes_per_sample,
                            0 <= nch,
                    ;
                    assert(c2i * bytes_per_sample + bytes_per_sample == (c2i + 1)
                        * bytes_per_sample) by (nonlinear_arith);
                    assert(out@.subrange(
                        q * nch * bytes_per_sample + c2i * bytes_per_sample,
                        q * nch * bytes_per_sample + c2i * bytes_per_sample + bytes_per_sample,
                    ) =~= out_s.subrange(
                        q * nch * bytes_per_sample + c2i * bytes_per_sample,
                        q * nch * bytes_per_sample + c2i * bytes_per_sample + bytes_per_sample,
                    ));
                } else {
                    assert(out@.subrange(
                        (s * nch + c2i) * bytes_per_sample,
                        (s * nch + c2i) * bytes_per_sample + bytes_per_sample,
                    ) == (joined@[c2i])@.subrange(
                        s * bytes_per_sample,
                        s * bytes_per_sample + bytes_per_sample,
                    ));
                }
            }
        }
        s = s + 1;
    }
    proof {
        assert(out@.len() == nch * chan_bytes) by (nonlinear_arith)
            requires
                out@.len() == spc * nch * bytes_per_sample,
                spc * bytes_per_sample == chan_bytes,
        ;
        assert forall|c: int| 0 <= c < samples.channels@.len() implies (
        #[trigger] samples.channels@[c]).first@.len() + samples.channels@[c].second@.len()
            == chan_bytes by {
            assert((joined@[c])@.len() == chan_bytes);
            assert((joined@[c])@ == samples.channels@[c].first@ + samples.channels@[c].second@);
        }
    }
    Ok(out)
}

/// Round trip through the pacing conversions: two interleaved buffers of
/// `spc * nch * bps` bytes that agree on every channel-sample slot — as
/// the writer's de-interleave, the ring round trip and the reader's
/// interleave together guarantee between a written source buffer and the
/// buffer read back — are byte-identical.
pub proof fn lemma_interleave_round_trip(a: Seq<u8>, b: Seq<u8>, spc: int, nch: int, bps: int)
    requires
        1 <= bps,
        1 <= nch,
        0 <= spc,
        a.len() == spc * nch * bps,
        b.len() == a.len(),
        forall|c: int, s: int|
            0 <= c < nch && 0 <= s < spc ==> #[trigger] a.subrange(
                (s * nch + c) * bps,
                (s * nch + c) * bps + bps,
            ) == b.subrange((s * nch + c) * bps, (s * nch + c) * bps + bps),
    ensures
        a == b,
{
    assert forall|j: int| 0 <= j < a.len() implies a[j] == b[j] by {
        let q = j / bps;
        let off = j % bps;
        vstd::arithmetic::div_mod::lemma_fundamental_div_mod(j, bps);
        assert(0 <= off < bps) by (nonlinear_arith)
            requires
                off == j % bps,
                1 <= bps,
                0 <= j,
        ;
        assert(0 <= q && q * bps + off == j) by (nonlinear_arith)
            requires
                j == bps * q + off,
                0 <= j,
                0 <= off < bps,
                1 <= bps,
        ;
        assert(q < spc * nch) by (nonlinear_arith)
            requires
                q * bps + off == j,
                j < spc * nch * bps,
                0 <= off,
                1 <= bps,
                0 <= q,
        ;
        let s = q / nch;
        let c = q % nch;
        vstd::arithmetic::div_mod::lemma_fundamental_div_mod(q, nch);
        assert(0 <= c < nch) by (nonlinear_arith)
            requires
                c == q % nch,
                1 <= nch,
                0 <= q,
        ;
        assert(0 <= s && s * nch + c == q) by (nonlinear_arith)
            requires
                q == nch * s + c,
                0 <= q,
                0 <= c < nch,
                1 <= nch,
        ;
        assert(s < spc) by (nonlinear_arith)
            requires
                s * nch + c == q,
                q < spc * nch,
                0 <= c < nch,
                1 <= nch,
                0 <= s,
        ;
        assert(a.subrange((s * nch + c) * bps, (s * nch + c) * bps + bps) == b.subrange(
            (s * nch + c) * bps,
            (s * nch + c) * bps + bps,
        ));
        assert((s * nch + c) * bps + bps <= a.len()) by (nonlinear_arith)
            requires
                s * nch + c == q,
                q < spc * nch,
                a.len() == spc * nch * bps,
                1 <= bps,
        ;
        assert(a.subrange(q * bps, q * bps + bps)[off] == a[j]);
        assert(b.subrange(q * bps, q * bps + bps)[off] == b[j]);
    }
    assert(a =~= b);
}

/// The actual duration of a batch: the timestamp span between its first
/// index and the next batch's, at the flow's rate (drift-free against the
/// domain clock, unlike a fixed nominal duration).
pub fn compute_batch_duration(
    index: u64,
    batch: u64,
    instance: &MxlInstance,
    sample_rate: &Rational,
) -> (r: Result<u64>)
    ensures
        r is Ok <==> index + batch <= u64::MAX && crate::rate::rate_valid(*sample_rate)
            && spec_index_to_timestamp((index + batch) as u64, *sample_rate) <= u64::MAX,
        r matches Ok(duration) ==> duration == spec_index_to_timestamp(
            (index + batch) as u64,
            *sample_rate,
        ) - spec_index_to_timestamp(index, *sample_rate),
{
    if index > u64::MAX - batch {
        return Err(Error::InvalidArg);
    }
    let next_index: u64 = index + batch;
    let next_head_timestamp = match instance.index_to_timestamp(next_index, sample_rate) {
        Ok(timestamp) => timestamp,
        Err(e) => {
            return Err(e);
        },
    };
    let read_head_timestamp = match instance.index_to_timestamp(index, sample_rate) {
        Ok(timestamp) => timestamp,
        Err(e) => {
            // The timestamp of an earlier index is never larger, so this
            // conversion cannot be the one that fails.
            proof {
                crate::rate::lemma_index_to_timestamp_monotone(index, next_index, *sample_rate);
                assert(false);
            }
            return Err(e);
        },
    };
    proof {
        crate::rate::lemma_index_to_timestamp_monotone(index, next_index, *sample_rate);
    }
    Ok(next_head_timestamp - read_head_timestamp)
}

/// Computes the output timestamp of the current batch from the batch
/// counter and rate, shifted by the baseline; whenever the nominal
/// timestamp would lie before the external clock, the baseline advances
/// by the difference (forward-only correction).
pub fn compute_pts(
    batch: u64,
    sample_rate: Rational,
    audio_state: &AudioState,
    ts_gst: u64,
    initial_info: &mut InitialTime,
) -> (r: Result<u64>)
    requires
        crate::rate::rate_valid(sample_rate),
    ensures
        r is Ok <==> {
            let duration = batch * NS_PER_SECOND * sample_rate.denominator
                / sample_rate.numerator as int;
            &&& duration <= u64::MAX
            &&& audio_state.batch_counter * duration <= u64::MAX
            &&& old(initial_info).gst_time + audio_state.batch_counter * duration <= u64::MAX
        },
        r is Err ==> *final(initial_info) == *old(initial_info),
        r matches Ok(pts) ==> {
            let nominal = old(initial_info).gst_time + (audio_state.batch_counter as int) * (
            batch * NS_PER_SECOND * sample_rate.denominator / sample_rate.numerator as int);
            &&& pts >= ts_gst
            &&& (nominal >= ts_gst ==> pts == nominal)
            &&& (nominal < ts_gst ==> pts == ts_gst)
            &&& final(initial_info).gst_time == old(initial_info).gst_time + (if nominal
                >= ts_gst {
                0int
            } else {
                ts_gst - nominal
            })
            &&& final(initial_info).mxl_index == old(initial_info).mxl_index
        },
{
    proof {
        assert((batch as int) * (NS_PER_SECOND as int) <= (u64::MAX as int) * (
        NS_PER_SECOND as int)) by (nonlinear_arith)
            requires
                batch <= u64::MAX,
        ;
        assert((batch as int) * (NS_PER_SECOND as int) * (sample_rate.denominator as int) <= (
        u64::MAX as int) * (NS_PER_SECOND as int) * (u32::MAX as int)) by (nonlinear_arith)
            requires
                (batch as int) * (NS_PER_SECOND as int) <= (u64::MAX as int) * (
                NS_PER_SECOND as int),
                sample_rate.denominator <= u32::MAX,
        ;
    }
    let batch_duration_ns: u128 = ((batch as u128) * (NS_PER_SECOND as u128)) * (
    sample_rate.denominator as u128) / (sample_rate.numerator as u128);
    if batch_duration_ns > u64::MAX as u128 {
        return Err(Error::InvalidArg);
    }
    proof {
        assert((audio_state.batch_counter as int) * (batch_duration_ns as int) <= (
        u64::MAX as int) * (u64::MAX as int)) by (nonlinear_arith)
            requires
                audio_state.batch_counter <= u64::MAX,
                batch_duration_ns <= u64::MAX,
        ;
    }
    let pts_wide: u128 = (audio_state.batch_counter as u128) * batch_duration_ns;
    if pts_wide > u64::MAX as u128 {
        return Err(Error::InvalidArg);
    }
    let pts_ns: u64 = pts_wide as u64;
    if initial_info.gst_time > u64::MAX - pts_ns {
        return Err(Error::InvalidArg);
    }
    let mut pts: u64 = initial_info.gst_time + pts_ns;
    if pts < ts_gst {
        // The corrected baseline is ts_gst - pts_ns, which always fits.
        let delta: u64 = ts_gst - pts;
        proof {
            assert(initial_info.gst_time + delta <= ts_gst);
        }
        initial_info.gst_time = initial_info.gst_time + delta;
        pts = ts_gst;
    }
    proof {
        assert((batch as int) * (NS_PER_SECOND as int) * (sample_rate.denominator as int) <= (
        u64::MAX as int) * (NS_PER_SECOND as int) * (u32::MAX as int)) by (nonlinear_arith)
            requires
                batch <= u64::MAX,
                sample_rate.denominator <= u32::MAX,
        ;
        assert((audio_state.batch_counter as int) * (batch_duration_ns as int) >= 0)
            by (nonlinear_arith)
            requires
                batch_duration_ns >= 0,
        ;
    }
    Ok(pts)
}

/// Wraps the interleaved samples into an output buffer with the computed
/// timestamp and discontinuity flag.
pub fn build_buffer(pts: u64, next_discont: bool, interleaved: Vec<u8>) -> (r: Result<
    MediaBuffer,
>)
    ensures
        r is Ok,
        r matches Ok(buffer) ==> buffer.pts == pts && buffer.discont == next_discont
            && buffer.data@ == interleaved@,
{
    Ok(MediaBuffer { data: interleaved, pts, discont: next_discont })
}

/// The batch size used for a flow: the default, bounded by half the ring
/// and by the producer's advertised hint.
pub open spec fn spec_batch_size(buffer_length: u32, hint: u32) -> int {
    let half = buffer_length / 2;
    let bounded = if DEFAULT_BATCH_SIZE <= half {
        DEFAULT_BATCH_SIZE as int
    } else {
        half as int
    };
    if bounded <= hint {
        bounded
    } else {
        hint as int
    }
}

/// The batch-end index this cycle reads at, before any catch-up: the
/// stored one, or one batch behind the head on the first cycle.
pub open spec fn spec_start_index(audio: AudioState, head: u64, batch: u64) -> int {
    if audio.is_initialized {
        audio.index as int
    } else {
        if head >= batch {
            head - batch
        } else {
            0
        }
    }
}

/// Everything a cycle needs to reach its read: an audio state whose
/// metadata reader points at a continuous audio flow with a valid rate,
/// and a nonzero batch size.
pub open spec fn spec_audio_read_ready(instance: MxlInstance, state: State) -> bool {
    &&& state.audio is Some
    &&& {
        let audio = state.audio->Some_0;
        &&& audio.reader.flow < instance.flows@.len()
        &&& {
            let entry = instance.flows@[audio.reader.flow as int];
            &&& entry.config.details is Continuous
            &&& entry.config.common.format == crate::flow::MXL_DATA_FORMAT_AUDIO
            &&& crate::rate::rate_valid(entry.config.common.grain_rate)
            &&& spec_batch_size(
                crate::instance::cont_cfg(entry).buffer_length,
                entry.config.common.max_commit_batch_size_hint,
            ) >= 1
        }
    }
}

/// The batch the cycle reads is there: the samples reader points at a
/// continuous flow whose retention window covers the batch ending at the
/// (possibly caught-up) read index.
pub open spec fn spec_audio_batch_readable(instance: MxlInstance, state: State) -> bool {
    let audio = state.audio->Some_0;
    let entry = instance.flows@[audio.reader.flow as int];
    let head = entry.spec_head();
    let cfg = crate::instance::cont_cfg(entry);
    let batch = spec_batch_size(cfg.buffer_length, entry.config.common.max_commit_batch_size_hint);
    let ring = cfg.buffer_length as int;
    let start = spec_start_index(audio, head, batch as u64);
    let late = start < spec_oldest_valid(head, batch as u64, ring as u64);
    let read_index = if late {
        spec_cushion_target(head, batch as u64)
    } else {
        start
    };
    let entry_read = instance.flows@[audio.samples_reader.flow as int];
    &&& audio.samples_reader.flow < instance.flows@.len()
    &&& crate::instance::entry_is_continuous(entry_read)
    &&& crate::instance::cont_ring(entry_read).samples_readable(
        crate::instance::cont_cfg(entry_read),
        read_index as u64,
        batch as u64,
    )
}

/// A readable batch can actually be delivered: the sample width and
/// channel count of the flow read lie within the supported bounds, and
/// none of the timestamp computations overflows (the batch end index, its
/// timestamp, the nominal batch duration, and the output timestamp).
pub open spec fn spec_audio_deliverable(instance: MxlInstance, state: State, gst_now: u64) -> bool {
    let audio = state.audio->Some_0;
    let entry = instance.flows@[audio.reader.flow as int];
    let head = entry.spec_head();
    let cfg = crate::instance::cont_cfg(entry);
    let rate = entry.config.common.grain_rate;
    let batch = spec_batch_size(cfg.buffer_length, entry.config.common.max_commit_batch_size_hint);
    let ring = cfg.buffer_length as int;
    let start = spec_start_index(audio, head, batch as u64);
    let late = start < spec_oldest_valid(head, batch as u64, ring as u64);
    let read_index = if late {
        spec_cushion_target(head, batch as u64)
    } else {
        start
    };
    let entry_read = instance.flows@[audio.samples_reader.flow as int];
    let read_cfg = crate::instance::cont_cfg(entry_read);
    let counter = if late || !audio.is_initialized {
        0int
    } else {
        audio.batch_counter as int
    };
    let base_time = if late || !audio.is_initialized {
        gst_now as int
    } else {
        state.initial_info.gst_time as int
    };
    let duration = batch * NS_PER_SECOND * rate.denominator / rate.numerator as int;
    &&& read_cfg.sample_word_size <= 0x100
    &&& read_cfg.channel_count <= 0x10000
    &&& read_index + batch <= u64::MAX
    &&& spec_index_to_timestamp((read_index + batch) as u64, rate) <= u64::MAX
    &&& duration <= u64::MAX
    &&& counter * duration <= u64::MAX
    &&& base_time + counter * duration <= u64::MAX
    &&& counter < u64::MAX
}

/// Produces one audio buffer.
///
/// The cycle re-queries the producer's head, waits briefly when the reader
/// runs ahead, jumps forward with a two-batch cushion when it has fallen
/// out of the retention window (flagging exactly one discontinuity and
/// resetting the timing baseline), reads one batch, interleaves it and
/// stamps it. A read timeout or stale flow yields `NoDataCreated`.
///
/// On a produced buffer: the discontinuity flag is set exactly when a
/// catch-up happened this cycle or one was still pending, and the pending
/// flag is consumed; the reader index advances by exactly one batch past
/// the index read; and whenever a catch-up happened with `2 * batch <=
/// ring`, the index read lay within `[head - ring, head]`.
#[verifier::rlimit(100)]
pub fn create_audio(instance: &mut MxlInstance, state: &mut State, gst_now: u64) -> (r: Result<
    CreateState,
>)
    requires
        old(instance).wf(),
    ensures
        final(instance).wf(),
        r == Ok::<CreateState, Error>(CreateState::NoDataCreated) <==> spec_audio_read_ready(
            *old(instance),
            *old(state),
        ) && !spec_audio_batch_readable(*old(instance), *old(state)),
        r is Err <==> !spec_audio_read_ready(*old(instance), *old(state)) || (
        spec_audio_batch_readable(*old(instance), *old(state)) && !spec_audio_deliverable(
            *old(instance),
            *old(state),
            gst_now,
        )),
        r == Ok::<CreateState, Error>(CreateState::NoDataCreated) ==> {
            let audio_pre = old(state).audio->Some_0;
            let entry = old(instance).flows@[audio_pre.reader.flow as int];
            let head = entry.spec_head();
            let cfg = crate::instance::cont_cfg(entry);
            let batch = spec_batch_size(
                cfg.buffer_length,
                entry.config.common.max_commit_batch_size_hint,
            );
            let ring = cfg.buffer_length as int;
            let start = spec_start_index(audio_pre, head, batch as u64);
            let late = start < spec_oldest_valid(head, batch as u64, ring as u64);
            let read_index = if late {
                spec_cushion_target(head, batch as u64)
            } else {
                start
            };
            let now_after_wait = if start + batch > head {
                if old(instance).now_ns + PRODUCER_TIMEOUT_NS <= u64::MAX {
                    old(instance).now_ns + PRODUCER_TIMEOUT_NS
                } else {
                    u64::MAX as int
                }
            } else {
                old(instance).now_ns as int
            };
            &&& final(state).audio is Some
            &&& final(state).audio->Some_0.index == read_index
            &&& final(state).audio->Some_0.batch_counter == if late
                || !audio_pre.is_initialized {
                0int
            } else {
                audio_pre.batch_counter as int
            }
            &&& final(state).audio->Some_0.next_discont == (audio_pre.next_discont || late)
            &&& final(state).audio->Some_0.is_initialized
            &&& final(state).initial_info.gst_time == if late || !audio_pre.is_initialized {
                gst_now as int
            } else {
                old(state).initial_info.gst_time as int
            }
            &&& final(state).initial_info.mxl_index == if late {
                now_after_wait
            } else if !audio_pre.is_initialized {
                old(instance).now_ns as int
            } else {
                old(state).initial_info.mxl_index as int
            }
        },
        r matches Ok(CreateState::DataCreated(buffer)) ==> {
            let audio_pre = old(state).audio->Some_0;
            let entry = old(instance).flows@[audio_pre.reader.flow as int];
            let head = entry.spec_head();
            let cfg = crate::instance::cont_cfg(entry);
            let batch = spec_batch_size(cfg.buffer_length, entry.config.common.max_commit_batch_size_hint);
            let ring = cfg.buffer_length as int;
            let start = spec_start_index(audio_pre, head, batch as u64);
            let late = start < spec_oldest_valid(head, batch as u64, ring as u64);
            let read_index = if late {
                spec_cushion_target(head, batch as u64)
            } else {
                start
            };
            &&& old(state).audio is Some
            &&& buffer.discont == (audio_pre.next_discont || late)
            &&& final(state).audio is Some
            &&& !final(state).audio->Some_0.next_discont
            &&& final(state).audio->Some_0.index == read_index + batch
            &&& final(state).audio->Some_0.batch_counter == if late || !audio_pre.is_initialized {
                1int
            } else {
                audio_pre.batch_counter + 1
            }
            &&& (late && 2 * batch <= ring ==> head - ring <= read_index <= head)
            &&& buffer.pts >= gst_now
            &&& {
                let entry_read = old(instance).flows@[audio_pre.samples_reader.flow as int];
                let read_cfg = crate::instance::cont_cfg(entry_read);
                let word = read_cfg.sample_word_size as int;
                let nch = read_cfg.channel_count as int;
                &&& crate::instance::entry_is_continuous(entry_read)
                &&& buffer.data@.len() == nch * (batch * word)
                &&& (forall|c: int, s: int|
                    0 <= c < nch && 0 <= s < batch ==> #[trigger] buffer.data@.subrange(
                        (s * nch + c) * word,
                        (s * nch + c) * word + word,
                    ) == crate::instance::cont_ring(entry_read).channel_window(
                        read_cfg,
                        read_index as u64,
                        batch as u64,
                        c,
                    ).subrange(s * word, s * word + word))
            }
        },
{
    let audio_state = match &mut state.audio {
        Some(audio_state) => audio_state,
        None => {
            return Err(Error::InvalidArg);
        },
    };
    let reader_info: FlowInfo = match audio_state.reader.get_info(instance) {
        Ok(reader_info) => reader_info,
        Err(e) => {
            return Err(e);
        },
    };
    let continuous_flow_info: ContinuousFlowConfigInfo = match reader_info.config.continuous() {
        Ok(continuous_flow_info) => continuous_flow_info,
        Err(e) => {
            return Err(e);
        },
    };
    let sample_rate = match reader_info.config.common().sample_rate() {
        Ok(sample_rate) => sample_rate,
        Err(e) => {
            return Err(e);
        },
    };
    if !sample_rate.is_valid() {
        return Err(Error::Other("invalid rate".to_owned()));
    }
    // Batch size: the default, at most half the ring, at most the
    // producer's advertised batch hint.
    let half: u32 = continuous_flow_info.buffer_length / 2;
    let mut batch_size: u32 = if DEFAULT_BATCH_SIZE <= half {
        DEFAULT_BATCH_SIZE
    } else {
        half
    };
    let hint: u32 = reader_info.config.common().max_commit_batch_size_hint();
    if hint < batch_size {
        batch_size = hint;
    }
    if batch_size < 1 {
        return Err(Error::InvalidArg);
    }
    let ring: u64 = continuous_flow_info.buffer_length as u64;
    let batch: u64 = batch_size as u64;
    let head: u64 = reader_info.runtime.head_index();
    audio_state_init(&mut state.initial_info, instance, gst_now, batch, head, audio_state);
    match wait_for_sample(instance, head, batch, audio_state) {
        Ok(_) => {},
        Err(e) => {
            return Err(e);
        },
    }
    let late = match is_reader_late(head, batch, ring, audio_state) {
        Ok(late) => late,
        Err(e) => {
            return Err(e);
        },
    };
    if late {
        resync_state(gst_now, &mut state.initial_info, instance, audio_state);
    }
    let samples = match audio_state.samples_reader.get_samples(
        instance,
        audio_state.index,
        batch_size as usize,
        GET_SAMPLE_TIMEOUT_NS,
    ) {
        Ok(samples) => samples,
        Err(_) => {
            // Timeout or stale flow: no data this cycle, not an error.
            return Ok(CreateState::NoDataCreated);
        },
    };
    // The sample width of the flow actually read (the samples reader may
    // be a different handle than the metadata reader).
    let read_cfg = match instance.flows[audio_state.samples_reader.flow].config.continuous() {
        Ok(read_cfg) => read_cfg,
        Err(_) => {
            // The read succeeded, so the flow is continuous.
            proof {
                assert(false);
            }
            return Err(Error::InvalidFlowReader);
        },
    };
    proof {
        assert(instance.flows@[audio_state.samples_reader.flow as int].wf());
        assert(old(instance).flows@[audio_state.samples_reader.flow as int].wf());
    }
    let word: usize = read_cfg.sample_word_size as usize;
    if word < 1 || word > 0x100 {
        return Err(Error::InvalidArg);
    }
    if samples.num_of_channels() < 1 || samples.num_of_channels() > 0x10000 {
        return Err(Error::InvalidArg);
    }
    proof {
        assert(batch * word <= 48 * 0x100) by (nonlinear_arith)
            requires
                0 <= batch <= 48,
                0 <= word <= 0x100,
        ;
        assert((batch as int) * (word as int) % (word as int) == 0) by (nonlinear_arith)
            requires
                1 <= word,
                0 <= batch,
        ;
    }
    let interleaved = match interleave_audio(&samples, word) {
        Ok(interleaved) => interleaved,
        Err(e) => {
            // Every channel of a successful read has the batch's exact
            // geometry, so the interleave cannot fail.
            proof {
                assert(false);
            }
            return Err(e);
        },
    };
    // Advance the ring-timeline reference by the batch's actual duration,
    // drift-free against the domain clock.
    let read_batch_duration = match compute_batch_duration(
        audio_state.index,
        batch,
        instance,
        &sample_rate,
    ) {
        Ok(read_batch_duration) => read_batch_duration,
        Err(e) => {
            return Err(e);
        },
    };
    state.initial_info.mxl_index = if state.initial_info.mxl_index <= u64::MAX
        - read_batch_duration {
        state.initial_info.mxl_index + read_batch_duration
    } else {
        u64::MAX
    };
    let pts = match compute_pts(batch, sample_rate, audio_state, gst_now, &mut state.initial_info)
        {
        Ok(pts) => pts,
        Err(e) => {
            return Err(e);
        },
    };
    let is_discont = audio_state.next_discont;
    audio_state.next_discont = false;
    let buffer = match build_buffer(pts, is_discont, interleaved) {
        Ok(buffer) => buffer,
        Err(e) => {
            proof {
                assert(false);
            }
            return Err(e);
        },
    };
    proof {
        let word_i = word as int;
        assert(((batch as int) * word_i) % word_i == 0) by (nonlinear_arith)
            requires
                word_i >= 1,
        ;
        assert(((batch as int) * word_i) / word_i == batch as int) by (nonlinear_arith)
            requires
                word_i >= 1,
        ;
    }
    proof {
        let entry_read = old(instance).flows@[old(state).audio->Some_0.samples_reader.flow as int];
        let spec_cfg = crate::instance::cont_cfg(entry_read);
        let word_i = spec_cfg.sample_word_size as int;
        let nch = spec_cfg.channel_count as int;
        assert forall|c: int, s: int|
            0 <= c < nch && 0 <= s < batch implies #[trigger] buffer.data@.subrange(
            (s * nch + c) * word_i,
            (s * nch + c) * word_i + word_i,
        ) == crate::instance::cont_ring(entry_read).channel_window(
            spec_cfg,
            audio_state.index,
            batch,
            c,
        ).subrange(s * word_i, s * word_i + word_i) by {
            assert(samples.channels@.len() == spec_cfg.channel_count);
            assert(samples.channels@[0].first@.len() + samples.channels@[0].second@.len()
                == batch * word_i);
            assert(samples.channels@[c].first@ + samples.channels@[c].second@
                == crate::instance::cont_ring(entry_read).channel_window(
                spec_cfg,
                audio_state.index,
                batch,
                c,
            ));
            assert(buffer.data@.subrange(
                (s * nch + c) * word_i,
                (s * nch + c) * word_i + word_i,
            ) == (samples.channels@[c].first@ + samples.channels@[c].second@).subrange(
                s * word_i,
                s * word_i + word_i,
            ));
        }
    }
    if audio_state.batch_counter == u64::MAX {
        return Err(Error::InvalidArg);
    }
    audio_state.batch_counter = audio_state.batch_counter + 1;
    if audio_state.index > u64::MAX - batch {
        // The batch duration computation already checked this bound.
        proof {
            assert(false);
        }
        return Err(Error::InvalidArg);
    }
    audio_state.index = audio_state.index + batch;
    Ok(CreateState::DataCreated(buffer))
}

} // verus!
