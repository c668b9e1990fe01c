//! Discrete reader pacing: producing video buffers from grains.
//!
//! The next frame index derives from the baseline plus the frames produced
//! so far; a lagging reader skips missed frames (lost frames are not
//! replayed), a reader ahead of the producer simply lets the blocking read
//! wait. Output timestamps derive from the frame counter and the rate, and
//! the baseline is corrected forward whenever a timestamp would land
//! before the external clock.

use vstd::prelude::*;

use crate::error::{Error, Result};
use crate::instance::{disc_cfg, disc_ring, entry_is_discrete, MxlInstance};
use crate::mxlsrc::state::{CreateState, InitialTime, MediaBuffer, State};
use crate::rate::{spec_timestamp_to_index, Rational, NS_PER_SECOND};
use crate::ring::MXL_GRAIN_FLAG_INVALID;

verus! {

/// Maximum time to wait for a grain to become available, in nanoseconds.
pub const GET_GRAIN_TIMEOUT_NS: u64 = 5_000_000_000;

/// The nominal timestamp of frame `counter` at `rate`, before the baseline
/// shift: `counter * 10^9 * denominator / numerator`.
pub open spec fn spec_frame_pts(counter: u64, rate: Rational) -> int {
    counter * NS_PER_SECOND * rate.denominator / rate.numerator as int
}

/// The frame index read in a cycle: the baseline index plus the frames
/// produced so far, clamped up to the current index when the reader lags
/// (missed frames are skipped, not replayed).
pub open spec fn spec_next_frame_index(baseline: u64, counter: u64, current: int) -> int {
    if baseline + counter < current {
        current
    } else {
        baseline + counter
    }
}

/// Produces one video buffer.
///
/// On the first frame the baseline (current index, external time) is
/// recorded. The grain at the next frame index is read with a blocking
/// wait; a timeout or stale flow yields `NoDataCreated` (recoverable), a
/// grain flagged invalid is a hard error. The output timestamp never lies
/// before the external clock: whenever the nominal timestamp would, the
/// baseline advances by the difference (forward-only correction).
pub fn create_video(instance: &mut MxlInstance, state: &mut State, gst_now: u64) -> (r: Result<
    CreateState,
>)
    requires
        old(instance).wf(),
    ensures
        final(instance).wf(),
        r is Err <==> old(state).video is None || {
            let vs = old(state).video->Some_0;
            let current = spec_timestamp_to_index(old(instance).now_ns, vs.grain_rate);
            let baseline = if vs.is_initialized {
                old(state).initial_info.mxl_index as int
            } else {
                current
            };
            let base_time = if vs.is_initialized {
                old(state).initial_info.gst_time as int
            } else {
                gst_now as int
            };
            ||| !crate::rate::rate_valid(vs.grain_rate)
            ||| baseline + vs.frame_counter > u64::MAX
            ||| spec_frame_pts(vs.frame_counter, vs.grain_rate) > u64::MAX
            ||| base_time + spec_frame_pts(vs.frame_counter, vs.grain_rate) > u64::MAX
            ||| vs.frame_counter == u64::MAX
        },
        r == Ok::<CreateState, Error>(CreateState::NoDataCreated) ==> {
            let vs = old(state).video->Some_0;
            let current = spec_timestamp_to_index(old(instance).now_ns, vs.grain_rate);
            let baseline = if vs.is_initialized {
                old(state).initial_info.mxl_index as int
            } else {
                current
            };
            let read_index = spec_next_frame_index(baseline as u64, vs.frame_counter, current)
                as u64;
            let entry = old(instance).flows@[vs.grain_reader.flow as int];
            !(vs.grain_reader.flow < old(instance).flows@.len() && entry_is_discrete(entry)
                && disc_ring(entry).readable(disc_cfg(entry), read_index) && disc_ring(
                entry,
            ).slot_at(disc_cfg(entry), read_index).valid_slices == disc_ring(entry).slot_at(
                disc_cfg(entry),
                read_index,
            ).total_slices)
        },
        r == Ok::<CreateState, Error>(CreateState::NoDataCreated) ==> {
            let vs = old(state).video->Some_0;
            let current = spec_timestamp_to_index(old(instance).now_ns, vs.grain_rate);
            let baseline = if vs.is_initialized {
                old(state).initial_info.mxl_index as int
            } else {
                current
            };
            let base_time = if vs.is_initialized {
                old(state).initial_info.gst_time as int
            } else {
                gst_now as int
            };
            let nominal = base_time + spec_frame_pts(vs.frame_counter, vs.grain_rate);
            &&& final(state).video is Some
            &&& final(state).video->Some_0.frame_counter == vs.frame_counter
            &&& final(state).video->Some_0.is_initialized
            &&& final(state).initial_info.mxl_index == baseline
            &&& final(state).initial_info.gst_time == if nominal >= gst_now {
                base_time
            } else {
                gst_now - spec_frame_pts(vs.frame_counter, vs.grain_rate)
            }
        },
        r matches Ok(CreateState::DataCreated(buffer)) ==> {
            let vs = old(state).video->Some_0;
            let current = spec_timestamp_to_index(old(instance).now_ns, vs.grain_rate);
            let baseline = if vs.is_initialized {
                old(state).initial_info.mxl_index as int
            } else {
                current
            };
            let counter = vs.frame_counter;
            let base_time = if vs.is_initialized {
                old(state).initial_info.gst_time as int
            } else {
                gst_now as int
            };
            let nominal = base_time + spec_frame_pts(counter, vs.grain_rate);
            &&& old(state).video is Some
            &&& buffer.pts >= gst_now
            &&& (nominal >= gst_now ==> buffer.pts == nominal)
            &&& (nominal < gst_now ==> buffer.pts == gst_now)
            &&& final(state).video is Some
            &&& final(state).video->Some_0.frame_counter == counter + 1
            &&& final(state).video->Some_0.is_initialized
            &&& !buffer.discont
            &&& {
                let entry = old(instance).flows@[vs.grain_reader.flow as int];
                let read_index = spec_next_frame_index(baseline as u64, counter, current) as u64;
                &&& entry_is_discrete(entry)
                &&& disc_ring(entry).readable(disc_cfg(entry), read_index)
                &&& buffer.data@ == disc_ring(entry).slot_at(disc_cfg(entry), read_index).payload@
            }
        },
        r matches Ok(CreateState::DataCreated(buffer)) ==> {
            let vs = old(state).video->Some_0;
            let current = spec_timestamp_to_index(old(instance).now_ns, vs.grain_rate);
            let baseline = if vs.is_initialized {
                old(state).initial_info.mxl_index as int
            } else {
                current
            };
            let base_time = if vs.is_initialized {
                old(state).initial_info.gst_time as int
            } else {
                gst_now as int
            };
            let nominal = base_time + spec_frame_pts(vs.frame_counter, vs.grain_rate);
            &&& final(state).initial_info.mxl_index == baseline
            &&& final(state).initial_info.gst_time == if nominal >= gst_now {
                base_time
            } else {
                gst_now - spec_frame_pts(vs.frame_counter, vs.grain_rate)
            }
        },
{
    let video_state = match &mut state.video {
        Some(video_state) => video_state,
        None => {
            return Err(Error::InvalidArg);
        },
    };
    let rate = video_state.grain_rate;
    if !rate.is_valid() {
        return Err(Error::Other("invalid rate".to_owned()));
    }
    let current_index = instance.get_current_index(&rate);
    if !video_state.is_initialized {
        state.initial_info = InitialTime { mxl_index: current_index, gst_time: gst_now };
        video_state.is_initialized = true;
    }
    // Next frame = baseline + frames produced; skip missed frames when the
    // reader lags behind the producer.
    if state.initial_info.mxl_index > u64::MAX - video_state.frame_counter {
        return Err(Error::InvalidArg);
    }
    let mut next_frame_index: u64 = state.initial_info.mxl_index + video_state.frame_counter;
    if next_frame_index < current_index {
        next_frame_index = current_index;
    }
    // Output timestamp from the frame counter and rate, not from the ring
    // index, so that drift in the domain clock cannot skew it.
    proof {
        assert((video_state.frame_counter as int) * (NS_PER_SECOND as int) <= (u64::MAX as int)
            * (NS_PER_SECOND as int)) by (nonlinear_arith)
            requires
                video_state.frame_counter <= u64::MAX,
        ;
        assert((video_state.frame_counter as int) * (NS_PER_SECOND as int) * (
        rate.denominator as int) <= (u64::MAX as int) * (NS_PER_SECOND as int) * (
        u32::MAX as int)) by (nonlinear_arith)
            requires
                (video_state.frame_counter as int) * (NS_PER_SECOND as int) <= (u64::MAX as int)
                    * (NS_PER_SECOND as int),
                rate.denominator <= u32::MAX,
        ;
    }
    let nominal128: u128 = (video_state.frame_counter as u128) * (NS_PER_SECOND as u128) * (
    rate.denominator as u128) / (rate.numerator as u128);
    if nominal128 > u64::MAX as u128 {
        return Err(Error::InvalidArg);
    }
    let nominal: u64 = nominal128 as u64;
    if state.initial_info.gst_time > u64::MAX - nominal {
        return Err(Error::InvalidArg);
    }
    let mut pts: u64 = state.initial_info.gst_time + nominal;
    if pts < gst_now {
        // Forward-only correction: advance the baseline so that this and
        // every later timestamp lands at or after the external clock. The
        // corrected baseline is gst_now - nominal, so it always fits.
        let delta: u64 = gst_now - pts;
        proof {
            assert(state.initial_info.gst_time + delta <= gst_now);
        }
        state.initial_info.gst_time = state.initial_info.gst_time + delta;
        pts = gst_now;
    }
    if video_state.frame_counter == u64::MAX {
        return Err(Error::InvalidArg);
    }
    let grain = match video_state.grain_reader.get_complete_grain(
        instance,
        next_frame_index,
        GET_GRAIN_TIMEOUT_NS,
    ) {
        Ok(grain) => grain,
        Err(_) => {
            // Timeout or stale flow: no data this cycle, not an error.
            return Ok(CreateState::NoDataCreated);
        },
    };
    if grain.flags & MXL_GRAIN_FLAG_INVALID != 0 {
        // A grain the producer flagged bad is a hard error, never skipped.
        // (A complete grain of a well-formed ring is never flagged, so this
        // guard cannot fire here; it stands for stores that flag grains for
        // other reasons.)
        proof {
            assert(old(instance).flows@[video_state.grain_reader.flow as int].wf());
            assert(grain.flags == 0);
            assert(0u32 & MXL_GRAIN_FLAG_INVALID == 0) by (bit_vector);
        }
        return Err(Error::Other("grain flagged invalid".to_owned()));
    }
    video_state.frame_counter = video_state.frame_counter + 1;
    Ok(
        CreateState::DataCreated(
            MediaBuffer { data: grain.payload, pts, discont: false },
        ),
    )
}

} // verus!
