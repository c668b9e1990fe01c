//! Discrete writer pacing: rendering video buffers into grains.
//!
//! Each buffer's external presentation timestamp is translated to a grain
//! index; an index too far ahead of the current ring time is clamped to the
//! retention horizon. The payload is copied into the grain (truncated or
//! zero-padded to the grain's capacity — a size mismatch is tolerated, not
//! an error) and committed with all slices valid.

use vstd::prelude::*;

use crate::error::{Error, Result};
use crate::instance::{disc_cfg, disc_ring, entry_is_discrete, MxlInstance};
use crate::mxlsink::state::{InitialTime, State, VideoState};
use crate::rate::{rate_valid, spec_timestamp_to_index, Rational};
use crate::ring::{copy_prefix, grain_commit_post, splice_bytes};

verus! {

/// A payload fitted to a grain of `size` bytes: truncated beyond `size`,
/// zero-padded beyond its own length.
pub open spec fn spec_padded(payload: Seq<u8>, size: int) -> Seq<u8> {
    Seq::new(
        size as nat,
        |i: int|
            if i < payload.len() {
                payload[i]
            } else {
                0u8
            },
    )
}

/// The timeline offset in effect for a buffer: the stored one, or the one
/// a first buffer would establish right now.
pub open spec fn spec_video_offset(initial: Option<InitialTime>, now: u64, gst_now: u64) -> int {
    match initial {
        Some(it) => it.mxl_to_gst_offset as int,
        None => now - gst_now,
    }
}

/// The grain index a buffer is written to: the current index when it has
/// no timestamp; otherwise its timestamp converted at the flow's rate,
/// clamped to the retention horizon (`grain_count - 1` ahead) whenever it
/// would reach `grain_count` or more ahead of the current index.
pub open spec fn spec_target_index(
    pts: Option<u64>,
    offset: int,
    now: u64,
    flow_rate: Rational,
    video_rate: Rational,
    grain_count: u32,
) -> int {
    let current = spec_timestamp_to_index(now, flow_rate);
    match pts {
        None => current,
        Some(p) => {
            let target = spec_timestamp_to_index((p + offset) as u64, video_rate);
            if target > current && target - current >= grain_count {
                current + grain_count - 1
            } else {
                target
            }
        },
    }
}

/// Opens the grain at `index`, copies the payload into it (truncated or
/// zero-padded to the grain's capacity) and commits it with all slices
/// valid.
///
/// Succeeds exactly when the writer handle points at a discrete flow of
/// the domain; the committed grain then holds the fitted payload and the
/// flow's head index covers `index`.
pub fn commit_buffer(
    instance: &mut MxlInstance,
    video_state: &VideoState,
    payload: &Vec<u8>,
    index: u64,
) -> (r: Result<()>)
    requires
        old(instance).wf(),
    ensures
        final(instance).wf(),
        final(instance).now_ns == old(instance).now_ns,
        r is Err ==> *final(instance) == *old(instance),
        r is Ok <==> video_state.writer.flow < old(instance).flows@.len() && old(
            instance,
        ).flows@[video_state.writer.flow as int].config.details is Discrete,
        r is Ok ==> {
            &&& final(instance).flows@.len() == old(instance).flows@.len()
            &&& (forall|i: int|
                0 <= i < old(instance).flows@.len() && i != video_state.writer.flow
                    ==> final(instance).flows@[i] == old(instance).flows@[i])
            &&& entry_is_discrete(final(instance).flows@[video_state.writer.flow as int])
            &&& grain_commit_post(
                disc_ring(old(instance).flows@[video_state.writer.flow as int]),
                disc_ring(final(instance).flows@[video_state.writer.flow as int]),
                disc_cfg(old(instance).flows@[video_state.writer.flow as int]),
                index,
                spec_padded(
                    payload@,
                    disc_cfg(old(instance).flows@[video_state.writer.flow as int]).grain_size
                        as int,
                ),
                disc_cfg(old(instance).flows@[video_state.writer.flow as int]).total_slices,
            )
            &&& final(instance).flows@[video_state.writer.flow as int].config == old(
                instance,
            ).flows@[video_state.writer.flow as int].config
        },
{
    let mut access = match video_state.writer.open_grain(instance, index) {
        Ok(access) => access,
        Err(e) => {
            return Err(e);
        },
    };
    let ghost staged0 = access.payload@;
    let copy_len: usize = if payload.len() < access.max_size() as usize {
        payload.len()
    } else {
        access.max_size() as usize
    };
    let prefix = copy_prefix(payload, copy_len);
    let staged = access.payload_mut();
    splice_bytes(staged, 0, &prefix);
    proof {
        assert(forall|i: int| 0 <= i < staged0.len() ==> staged0[i] == 0u8);
        assert(access.payload@.len() == staged0.len());
        assert forall|i: int| 0 <= i < access.payload@.len() implies access.payload@[i]
            == spec_padded(payload@, access.max_size as int)[i] by {
            if i < copy_len {
                assert(access.payload@[i] == prefix@[i]);
            } else {
                assert(access.payload@[i] == staged0[i]);
            }
        }
        assert(access.payload@ =~= spec_padded(payload@, access.max_size as int));
    }
    let total_slices = access.total_slices();
    match access.commit(instance, total_slices) {
        Ok(_) => Ok(()),
        Err(e) => Err(e),
    }
}

/// Everything a buffer write needs to succeed: a discrete flow with a
/// valid rate initialized in the state, a valid rate on the video state
/// whenever a timestamp must be converted, at least one grain slot, and a
/// writer handle that points at a discrete flow of the domain.
pub open spec fn spec_video_write_ready(
    instance: MxlInstance,
    state: State,
    pts: Option<u64>,
) -> bool {
    &&& state.flow is Some
    &&& state.video is Some
    &&& crate::flow::spec_is_discrete_format(state.flow->Some_0.common.format)
    &&& rate_valid(state.flow->Some_0.common.grain_rate)
    &&& state.video->Some_0.grain_count >= 1
    &&& (pts is Some ==> rate_valid(state.video->Some_0.grain_rate))
    &&& state.video->Some_0.writer.flow < instance.flows@.len()
    &&& instance.flows@[state.video->Some_0.writer.flow as int].config.details is Discrete
}

/// Renders one video buffer.
///
/// On the first buffer the offset between the domain clock and the
/// external clock is recorded. A buffer with a timestamp is written at the
/// index that timestamp maps to, clamped to at most `grain_count - 1`
/// beyond the current index; a buffer without one is written at the
/// current index (live mode). The local grain index then advances past the
/// written grain.
///
/// The write is never requested at an index more than `grain_count - 1`
/// ahead of the current ring index, so it never reaches beyond the ring's
/// retention horizon.
pub fn video(
    instance: &mut MxlInstance,
    state: &mut State,
    payload: &Vec<u8>,
    pts: Option<u64>,
    gst_now: u64,
) -> (r: Result<()>)
    requires
        old(instance).wf(),
        old(state).initial_time is None ==> gst_now <= old(instance).now_ns,
        pts matches Some(p) ==> p + spec_video_offset(
            old(state).initial_time,
            old(instance).now_ns,
            gst_now,
        ) <= u64::MAX,
    ensures
        final(instance).wf(),
        final(instance).now_ns == old(instance).now_ns,
        final(state).flow == old(state).flow,
        final(state).audio is None <==> old(state).audio is None,
        r is Ok <==> spec_video_write_ready(*old(instance), *old(state), pts),
        r is Ok ==> {
            let flow_rate = old(state).flow->Some_0.common.grain_rate;
            let video_rate = old(state).video->Some_0.grain_rate;
            let grain_count = old(state).video->Some_0.grain_count;
            let offset = spec_video_offset(old(state).initial_time, old(instance).now_ns, gst_now);
            let current = spec_timestamp_to_index(old(instance).now_ns, flow_rate);
            let target = spec_target_index(
                pts,
                offset,
                old(instance).now_ns,
                flow_rate,
                video_rate,
                grain_count,
            );
            &&& old(state).flow is Some
            &&& old(state).video is Some
            &&& grain_count >= 1
            &&& (target > current ==> target - current <= grain_count - 1)
            &&& (pts is None ==> target == current)
            &&& final(state).video is Some
            &&& final(state).video->Some_0.grain_index == if target < u64::MAX {
                target + 1
            } else {
                target
            }
            &&& entry_is_discrete(
                final(instance).flows@[old(state).video->Some_0.writer.flow as int],
            )
            &&& grain_commit_post(
                disc_ring(old(instance).flows@[old(state).video->Some_0.writer.flow as int]),
                disc_ring(final(instance).flows@[old(state).video->Some_0.writer.flow as int]),
                disc_cfg(old(instance).flows@[old(state).video->Some_0.writer.flow as int]),
                target as u64,
                spec_padded(
                    payload@,
                    disc_cfg(
                        old(instance).flows@[old(state).video->Some_0.writer.flow as int],
                    ).grain_size as int,
                ),
                disc_cfg(
                    old(instance).flows@[old(state).video->Some_0.writer.flow as int],
                ).total_slices,
            )
            &&& final(state).initial_time == Some(
                InitialTime { mxl_to_gst_offset: offset as u64 },
            )
        },
{
    let flow = match &state.flow {
        Some(flow) => *flow,
        None => {
            return Err(Error::InvalidArg);
        },
    };
    let grain_rate = match flow.common().grain_rate() {
        Ok(grain_rate) => grain_rate,
        Err(e) => {
            return Err(e);
        },
    };
    if !grain_rate.is_valid() {
        return Err(Error::Other("invalid rate".to_owned()));
    }
    let current_index = instance.get_current_index(&grain_rate);
    let now = instance.get_time();
    let offset: u64 = match &state.initial_time {
        Some(initial) => initial.mxl_to_gst_offset,
        None => {
            let fresh = now - gst_now;
            state.initial_time = Some(InitialTime { mxl_to_gst_offset: fresh });
            fresh
        },
    };
    let video_state = match &mut state.video {
        Some(video_state) => video_state,
        None => {
            return Err(Error::InvalidArg);
        },
    };
    if video_state.grain_count < 1 {
        return Err(Error::InvalidArg);
    }
    let mut index = current_index;
    match pts {
        Some(p) => {
            let mxl_pts: u64 = p + offset;
            index = match instance.timestamp_to_index(mxl_pts, &video_state.grain_rate) {
                Ok(index) => index,
                Err(e) => {
                    return Err(e);
                },
            };
            if index > current_index && index - current_index >= video_state.grain_count as u64 {
                index = current_index + video_state.grain_count as u64 - 1;
            }
            video_state.grain_index = index;
        },
        None => {
            video_state.grain_index = current_index;
        },
    }
    match commit_buffer(instance, video_state, payload, index) {
        Ok(_) => {},
        Err(e) => {
            return Err(e);
        },
    }
    if video_state.grain_index < u64::MAX {
        video_state.grain_index = video_state.grain_index + 1;
    }
    Ok(())
}

/// Renders one video buffer in forward-pacing mode (no timestamps): the
/// grain is written at the writer's own running index, and the write is
/// skipped entirely — a no-op success — whenever the writer is already
/// more than half the ring ahead of the current ring time, preventing
/// runaway overwrite of not-yet-consumed data.
///
/// Returns whether a grain was actually written.
pub fn video_forward(instance: &mut MxlInstance, state: &mut State, payload: &Vec<u8>) -> (r:
    Result<bool>)
    requires
        old(instance).wf(),
    ensures
        final(instance).wf(),
        final(instance).now_ns == old(instance).now_ns,
        r is Ok <==> old(state).video is Some && rate_valid(
            old(state).video->Some_0.grain_rate,
        ) && {
            let vs = old(state).video->Some_0;
            let current = spec_timestamp_to_index(old(instance).now_ns, vs.grain_rate);
            ||| (vs.grain_index > current && vs.grain_index - current > vs.grain_count / 2)
            ||| (vs.writer.flow < old(instance).flows@.len() && old(
                instance,
            ).flows@[vs.writer.flow as int].config.details is Discrete)
        },
        r matches Ok(written) ==> {
            let vs = old(state).video->Some_0;
            let current = spec_timestamp_to_index(old(instance).now_ns, vs.grain_rate);
            &&& old(state).video is Some
            &&& rate_valid(vs.grain_rate)
            &&& (written <==> !(vs.grain_index > current && vs.grain_index - current
                > vs.grain_count / 2))
            &&& (!written ==> *final(instance) == *old(instance) && final(state).video
                == old(state).video)
            &&& (written ==> {
                &&& entry_is_discrete(final(instance).flows@[vs.writer.flow as int])
                &&& grain_commit_post(
                    disc_ring(old(instance).flows@[vs.writer.flow as int]),
                    disc_ring(final(instance).flows@[vs.writer.flow as int]),
                    disc_cfg(old(instance).flows@[vs.writer.flow as int]),
                    vs.grain_index,
                    spec_padded(
                        payload@,
                        disc_cfg(old(instance).flows@[vs.writer.flow as int]).grain_size as int,
                    ),
                    disc_cfg(old(instance).flows@[vs.writer.flow as int]).total_slices,
                )
                &&& final(state).video->Some_0.grain_index == if vs.grain_index < u64::MAX {
                    vs.grain_index + 1
                } else {
                    vs.grain_index as int
                }
            })
        },
{
    let video_state = match &mut state.video {
        Some(video_state) => video_state,
        None => {
            return Err(Error::InvalidArg);
        },
    };
    let rate = video_state.grain_rate;
    if !rate.is_valid() {
        return Err(Error::Other("invalid rate".to_owned()));
    }
    let current_index = instance.get_current_index(&rate);
    if video_state.grain_index > current_index && video_state.grain_index - current_index
        > (video_state.grain_count / 2) as u64 {
        return Ok(false);
    }
    match commit_buffer(instance, video_state, payload, video_state.grain_index) {
        Ok(_) => {},
        Err(e) => {
            return Err(e);
        },
    }
    if video_state.grain_index < u64::MAX {
        video_state.grain_index = video_state.grain_index + 1;
    }
    Ok(true)
}

} // verus!
