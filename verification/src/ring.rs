//! Ring-buffer state for discrete and continuous flows.
//!
//! This module is the store behind every flow: a fixed number of grain slots
//! for a discrete flow, one byte ring per channel for a continuous flow. A
//! logical index never wraps; it is mapped onto a physical slot or offset by
//! reduction modulo the ring capacity. Data becomes visible to readers only
//! through [`DiscreteRing::commit_grain`] / [`ContinuousRing::commit_samples`],
//! which advance the head index; everything else leaves the ring unchanged.

use vstd::prelude::*;
use vstd::pervasive::VecAdditionalExecFns;

use crate::error::Error;
use crate::flow::{ContinuousFlowConfigInfo, DiscreteFlowConfigInfo};

verus! {

/// Flag marking a grain whose committed slices do not cover the whole grain.
pub const MXL_GRAIN_FLAG_INVALID: u32 = 0x00000001;

/// Copies a byte vector.
pub fn copy_bytes(src: &Vec<u8>) -> (r: Vec<u8>)
    ensures
        r@ == src@,
{
    let mut out: Vec<u8> = Vec::new();
    let mut i: usize = 0;
    while i < src.len()
        invariant
            i <= src@.len(),
            out@ == src@.subrange(0, i as int),
        decreases src@.len() - i,
    {
        out.push(src[i]);
        i = i + 1;
    }
    assert(out@ == src@);
    out
}

/// Copies the first `n` bytes of a vector.
pub fn copy_prefix(src: &Vec<u8>, n: usize) -> (r: Vec<u8>)
    requires
        n <= src@.len(),
    ensures
        r@ == src@.subrange(0, n as int),
{
    let mut out: Vec<u8> = Vec::new();
    let mut i: usize = 0;
    while i < n
        invariant
            i <= n <= src@.len(),
            out@ == src@.subrange(0, i as int),
        decreases n - i,
    {
        out.push(src[i]);
        i = i + 1;
    }
    out
}

/// A vector of `n` zero bytes.
pub fn zero_bytes(n: usize) -> (r: Vec<u8>)
    ensures
        r@.len() == n,
        forall|i: int| 0 <= i < n ==> r@[i] == 0u8,
{
    let mut out: Vec<u8> = Vec::new();
    let mut i: usize = 0;
    while i < n
        invariant
            i <= n,
            out@.len() == i,
            forall|j: int| 0 <= j < i ==> out@[j] == 0u8,
        decreases n - i,
    {
        out.push(0u8);
        i = i + 1;
    }
    out
}

/// Overwrites `dst[at .. at + src.len()]` with `src`, leaving every other
/// byte unchanged.
pub fn splice_bytes(dst: &mut Vec<u8>, at: usize, src: &Vec<u8>)
    requires
        at + src@.len() <= old(dst)@.len(),
    ensures
        final(dst)@.len() == old(dst)@.len(),
        forall|j: int| 0 <= j < src@.len() ==> final(dst)@[at + j] == src@[j],
        forall|j: int|
            0 <= j < old(dst)@.len() && !(at <= j < at + src@.len()) ==> final(dst)@[j] == old(
                dst,
            )@[j],
{
    let n: usize = src.len();
    let total: usize = dst.len();
    let mut i: usize = 0;
    while i < n
        invariant
            i <= n == src@.len(),
            at + n <= total == dst@.len(),
            dst@.len() == old(dst)@.len(),
            forall|j: int| 0 <= j < i ==> dst@[at + j] == src@[j],
            forall|j: int|
                0 <= j < dst@.len() && !(at <= j < at + i) ==> dst@[j] == old(dst)@[j],
        decreases n - i,
    {
        dst.set(at + i, src[i]);
        i = i + 1;
    }
}

/// One slot of a discrete ring: at most one committed grain.
#[derive(Debug)]
pub struct GrainSlot {
    /// Logical index of the grain occupying this slot.
    pub index: u64,
    /// True once a grain has been committed into this slot.
    pub committed: bool,
    /// Number of slices the producer declared valid at commit.
    pub valid_slices: u16,
    /// Number of slices of the grain.
    pub total_slices: u16,
    /// Grain metadata flags.
    pub flags: u32,
    /// The committed payload bytes.
    pub payload: Vec<u8>,
}

impl GrainSlot {
    /// Slot consistency against the flow's configuration.
    pub open spec fn wf(&self, cfg: DiscreteFlowConfigInfo) -> bool {
        &&& self.committed ==> {
            &&& self.payload@.len() == cfg.grain_size
            &&& self.total_slices == cfg.total_slices
            &&& self.valid_slices <= self.total_slices
            &&& self.flags == if self.valid_slices == self.total_slices {
                0u32
            } else {
                MXL_GRAIN_FLAG_INVALID
            }
        }
        &&& !self.committed ==> self.payload@.len() == 0
    }
}

/// The physical slot that a logical index maps to.
pub open spec fn spec_slot_pos(cfg: DiscreteFlowConfigInfo, index: u64) -> int {
    (index % (cfg.grain_count as u64)) as int
}

/// Ring state of a discrete flow.
pub struct DiscreteRing {
    /// Grain slots; one per index residue, `grain_count` in all.
    pub slots: Vec<GrainSlot>,
    /// Index of the most recently committed grain.
    pub head: u64,
    /// True once any grain has been committed.
    pub started: bool,
}

impl DiscreteRing {
    /// Ring consistency against the flow's configuration.
    pub open spec fn wf(&self, cfg: DiscreteFlowConfigInfo) -> bool {
        &&& cfg.grain_count >= 1
        &&& (!self.started ==> self.head == 0)
        &&& self.slots@.len() == cfg.grain_count
        &&& forall|i: int| 0 <= i < self.slots@.len() ==> (#[trigger] self.slots@[i]).wf(cfg)
        &&& forall|i: int|
            0 <= i < self.slots@.len() && (#[trigger] self.slots@[i]).committed ==> {
                &&& self.slots@[i].index % (cfg.grain_count as u64) == i
                &&& self.slots@[i].index <= self.head
                &&& self.started
            }
    }

    /// True when the grain at `index` currently sits in the ring.
    pub open spec fn has_grain(&self, cfg: DiscreteFlowConfigInfo, index: u64) -> bool {
        &&& self.slots@[spec_slot_pos(cfg, index)].committed
        &&& self.slots@[spec_slot_pos(cfg, index)].index == index
    }

    /// The slot a grain at `index` would occupy.
    pub open spec fn slot_at(&self, cfg: DiscreteFlowConfigInfo, index: u64) -> GrainSlot {
        self.slots@[spec_slot_pos(cfg, index)]
    }

    /// `index` lies beyond everything committed so far.
    pub open spec fn not_yet_written(&self, index: u64) -> bool {
        !self.started || index > self.head
    }

    /// `index` has fallen out of the retention window.
    pub open spec fn overwritten(&self, cfg: DiscreteFlowConfigInfo, index: u64) -> bool {
        &&& self.started
        &&& index <= self.head
        &&& self.head - index >= cfg.grain_count
    }

    /// A read at `index` succeeds: inside the retention window and the grain
    /// is actually there.
    pub open spec fn readable(&self, cfg: DiscreteFlowConfigInfo, index: u64) -> bool {
        &&& !self.not_yet_written(index)
        &&& !self.overwritten(cfg, index)
        &&& self.has_grain(cfg, index)
    }

    /// An empty ring for `cfg`: no slot committed, head at zero.
    pub fn empty(cfg: &DiscreteFlowConfigInfo) -> (r: DiscreteRing)
        requires
            cfg.grain_count >= 1,
        ensures
            r.wf(*cfg),
            !r.started,
            r.head == 0,
            forall|i: int| 0 <= i < r.slots@.len() ==> !(#[trigger] r.slots@[i]).committed,
    {
        let mut slots: Vec<GrainSlot> = Vec::new();
        let mut i: usize = 0;
        while i < cfg.grain_count as usize
            invariant
                i <= cfg.grain_count,
                slots@.len() == i,
                forall|j: int|
                    0 <= j < i ==> !(#[trigger] slots@[j]).committed && slots@[j].payload@.len()
                        == 0,
            decreases cfg.grain_count - i,
        {
            slots.push(
                GrainSlot {
                    index: 0,
                    committed: false,
                    valid_slices: 0,
                    total_slices: 0,
                    flags: 0,
                    payload: Vec::new(),
                },
            );
            i = i + 1;
        }
        DiscreteRing { slots, head: 0, started: false }
    }

    /// Commits a grain: installs the payload in its slot and advances the
    /// head index to cover it. This is the only operation that makes a grain
    /// visible to readers.
    pub fn commit_grain(
        &mut self,
        cfg: &DiscreteFlowConfigInfo,
        index: u64,
        payload: Vec<u8>,
        valid_slices: u16,
    )
        requires
            old(self).wf(*cfg),
            payload@.len() == cfg.grain_size,
            valid_slices <= cfg.total_slices,
        ensures
            final(self).wf(*cfg),
            grain_commit_post(*old(self), *final(self), *cfg, index, payload@, valid_slices),
    {
        let pos: usize = (index % (cfg.grain_count as u64)) as usize;
        let flags: u32 = if valid_slices == cfg.total_slices {
            0
        } else {
            MXL_GRAIN_FLAG_INVALID
        };
        let slot = GrainSlot {
            index,
            committed: true,
            valid_slices,
            total_slices: cfg.total_slices,
            flags,
            payload,
        };
        if !self.started {
            self.head = index;
        } else if index > self.head {
            self.head = index;
        }
        self.started = true;
        self.slots.set(pos, slot);
    }

    /// Looks up the grain at `index` without blocking.
    ///
    /// Classification: an index beyond the head (or a gap the writer skipped)
    /// is too early; an index that has left the retention window is too late;
    /// otherwise the committed slot is returned.
    pub fn read_grain(&self, cfg: &DiscreteFlowConfigInfo, index: u64) -> (r: core::result::Result<
        &GrainSlot,
        Error,
    >)
        requires
            self.wf(*cfg),
        ensures
            r matches Ok(slot) ==> self.readable(*cfg, index) && *slot == self.slot_at(
                *cfg,
                index,
            ),
            self.readable(*cfg, index) ==> r is Ok,
            r == Err::<&GrainSlot, Error>(Error::OutOfRangeTooLate) <==> self.overwritten(
                *cfg,
                index,
            ),
            r == Err::<&GrainSlot, Error>(Error::OutOfRangeTooEarly) <==> !self.overwritten(
                *cfg,
                index,
            ) && !self.readable(*cfg, index),
    {
        if !self.started || index > self.head {
            return Err(Error::OutOfRangeTooEarly);
        }
        if self.head - index >= cfg.grain_count as u64 {
            return Err(Error::OutOfRangeTooLate);
        }
        let pos: usize = (index % (cfg.grain_count as u64)) as usize;
        let slot = &self.slots[pos];
        if slot.committed && slot.index == index {
            Ok(slot)
        } else {
            Err(Error::OutOfRangeTooEarly)
        }
    }
}

/// What committing a grain does to a discrete ring: the grain's slot holds
/// the new payload, the head advances to cover the index, and no other slot
/// changes.
pub open spec fn grain_commit_post(
    pre: DiscreteRing,
    post: DiscreteRing,
    cfg: DiscreteFlowConfigInfo,
    index: u64,
    payload: Seq<u8>,
    valid_slices: u16,
) -> bool {
    &&& post.started
    &&& post.head == if pre.started && pre.head > index {
        pre.head
    } else {
        index
    }
    &&& post.slots@ == pre.slots@.update(spec_slot_pos(cfg, index), post.slot_at(cfg, index))
    &&& post.has_grain(cfg, index)
    &&& post.slot_at(cfg, index).payload@ == payload
    &&& post.slot_at(cfg, index).valid_slices == valid_slices
    &&& post.slot_at(cfg, index).total_slices == cfg.total_slices
    &&& post.slot_at(cfg, index).flags == if valid_slices == cfg.total_slices {
        0u32
    } else {
        MXL_GRAIN_FLAG_INVALID
    }
}

/// Per-channel staging of one sample batch: the two byte fragments that the
/// batch occupies in the channel's ring (the second one is non-empty only
/// when the batch crosses the physical wrap boundary).
#[derive(Debug)]
pub struct ChannelFragments {
    /// Bytes from the physical start offset up to the wrap boundary.
    pub first: Vec<u8>,
    /// Bytes continuing at physical offset zero after the wrap.
    pub second: Vec<u8>,
}

/// Largest accepted ring capacity in bytes per channel.
pub const MAX_CHANNEL_BYTES: u64 = 0x4000_0000;

/// The logical index of the first sample of a batch of `count` samples
/// ending at `index`.
pub open spec fn spec_first_sample(index: u64, count: u64) -> int {
    index - (count - 1)
}

/// Whether a batch request is acceptable at all: nonempty, no larger than
/// the ring, and not reaching below index zero.
pub open spec fn spec_batch_args_ok(cfg: ContinuousFlowConfigInfo, index: u64, count: u64) -> bool {
    &&& 1 <= count <= cfg.buffer_length
    &&& count - 1 <= index
}

/// The physical sample offset of the first sample of the batch.
pub open spec fn spec_phys_first(cfg: ContinuousFlowConfigInfo, index: u64, count: u64) -> int {
    spec_first_sample(index, count) % (cfg.buffer_length as int)
}

/// Samples of the batch lying in the first fragment.
pub open spec fn spec_f1_samples(cfg: ContinuousFlowConfigInfo, index: u64, count: u64) -> int {
    if count <= cfg.buffer_length - spec_phys_first(cfg, index, count) {
        count as int
    } else {
        cfg.buffer_length - spec_phys_first(cfg, index, count)
    }
}

/// Samples of the batch lying in the second fragment, after the wrap.
pub open spec fn spec_f2_samples(cfg: ContinuousFlowConfigInfo, index: u64, count: u64) -> int {
    count - spec_f1_samples(cfg, index, count)
}

/// Byte offset of the first fragment within a channel ring.
pub open spec fn spec_f1_offset(cfg: ContinuousFlowConfigInfo, index: u64, count: u64) -> int {
    spec_phys_first(cfg, index, count) * cfg.sample_word_size
}

/// Byte length of the first fragment.
pub open spec fn spec_f1_bytes(cfg: ContinuousFlowConfigInfo, index: u64, count: u64) -> int {
    spec_f1_samples(cfg, index, count) * cfg.sample_word_size
}

/// Byte length of the second fragment.
pub open spec fn spec_f2_bytes(cfg: ContinuousFlowConfigInfo, index: u64, count: u64) -> int {
    spec_f2_samples(cfg, index, count) * cfg.sample_word_size
}

/// The two fragments of a batch tile the requested byte count exactly:
/// their byte lengths always sum to `count * sample_word_size`, and they fit
/// inside the channel ring without overlapping.
pub proof fn lemma_fragment_geometry(cfg: ContinuousFlowConfigInfo, index: u64, count: u64)
    requires
        cfg.buffer_length >= 1,
        cfg.sample_word_size >= 1,
        spec_batch_args_ok(cfg, index, count),
    ensures
        spec_f1_bytes(cfg, index, count) + spec_f2_bytes(cfg, index, count) == count
            * cfg.sample_word_size,
        0 < spec_f1_samples(cfg, index, count) <= count,
        0 <= spec_f2_samples(cfg, index, count) < count,
        0 <= spec_phys_first(cfg, index, count) < cfg.buffer_length,
        spec_f1_offset(cfg, index, count) + spec_f1_bytes(cfg, index, count) <= cfg.buffer_length
            * cfg.sample_word_size,
        spec_f2_bytes(cfg, index, count) <= spec_f1_offset(cfg, index, count),
{
    let l = cfg.buffer_length as int;
    let w = cfg.sample_word_size as int;
    let phys = spec_phys_first(cfg, index, count);
    let f1 = spec_f1_samples(cfg, index, count);
    let f2 = spec_f2_samples(cfg, index, count);
    assert(0 <= phys < l);
    assert(f1 + f2 == count);
    assert(f1 * w + f2 * w == count * w) by (nonlinear_arith)
        requires
            f1 + f2 == count as int,
    ;
    assert(phys + f1 <= l);
    assert(phys * w + f1 * w <= l * w) by (nonlinear_arith)
        requires
            phys + f1 <= l,
            w >= 0,
    ;
    assert(f2 <= phys);
    assert(f2 * w <= phys * w) by (nonlinear_arith)
        requires
            f2 <= phys,
            w >= 0,
    ;
}

/// What committing a sample batch does to a continuous ring: every
/// channel's window at (`index`, `count`) holds the staged fragments and
/// the head advances to cover the batch.
pub open spec fn samples_commit_post(
    pre: ContinuousRing,
    post: ContinuousRing,
    cfg: ContinuousFlowConfigInfo,
    index: u64,
    count: u64,
    planes: Seq<ChannelFragments>,
) -> bool {
    &&& post.started
    &&& post.head == if pre.started && pre.head > index {
        pre.head
    } else {
        index
    }
    &&& post.channels@.len() == pre.channels@.len()
    &&& forall|ch: int|
        0 <= ch < planes.len() ==> post.channel_window(cfg, index, count, ch) == (
        #[trigger] planes[ch]).first@ + planes[ch].second@
}

/// Ring state of a continuous flow: one byte ring per channel.
pub struct ContinuousRing {
    /// One ring of `buffer_length * sample_word_size` bytes per channel.
    pub channels: Vec<Vec<u8>>,
    /// Index of the most recently committed sample.
    pub head: u64,
    /// True once any batch has been committed.
    pub started: bool,
}

impl ContinuousRing {
    /// Ring consistency against the flow's configuration.
    pub open spec fn wf(&self, cfg: ContinuousFlowConfigInfo) -> bool {
        &&& cfg.buffer_length >= 1
        &&& (!self.started ==> self.head == 0)
        &&& cfg.channel_count >= 1
        &&& cfg.sample_word_size >= 1
        &&& cfg.buffer_length * cfg.sample_word_size <= MAX_CHANNEL_BYTES
        &&& self.channels@.len() == cfg.channel_count
        &&& forall|i: int|
            0 <= i < self.channels@.len() ==> (#[trigger] self.channels@[i])@.len()
                == cfg.buffer_length * cfg.sample_word_size
    }

    /// A batch read at (`index`, `count`) succeeds: arguments acceptable,
    /// the batch end already written, its start still retained.
    pub open spec fn samples_readable(
        &self,
        cfg: ContinuousFlowConfigInfo,
        index: u64,
        count: u64,
    ) -> bool {
        &&& spec_batch_args_ok(cfg, index, count)
        &&& self.started
        &&& index <= self.head
        &&& self.head - index <= cfg.buffer_length - count
    }

    /// The bytes a read of (`index`, `count`) yields for channel `ch`,
    /// first and second fragment concatenated.
    pub open spec fn channel_window(
        &self,
        cfg: ContinuousFlowConfigInfo,
        index: u64,
        count: u64,
        ch: int,
    ) -> Seq<u8> {
        let a = spec_f1_offset(cfg, index, count);
        self.channels@[ch]@.subrange(a, a + spec_f1_bytes(cfg, index, count))
            + self.channels@[ch]@.subrange(0, spec_f2_bytes(cfg, index, count))
    }

    /// An empty ring for `cfg`: all channels zeroed, head at zero.
    pub fn empty(cfg: &ContinuousFlowConfigInfo) -> (r: ContinuousRing)
        requires
            cfg.buffer_length >= 1,
            cfg.channel_count >= 1,
            cfg.sample_word_size >= 1,
            cfg.buffer_length * cfg.sample_word_size <= MAX_CHANNEL_BYTES,
            cfg.channel_count <= 0x10000,
        ensures
            r.wf(*cfg),
            !r.started,
            r.head == 0,
    {
        let stride_wide: u64 = (cfg.buffer_length as u64) * (cfg.sample_word_size as u64);
        let stride: usize = stride_wide as usize;
        let mut channels: Vec<Vec<u8>> = Vec::new();
        let mut i: usize = 0;
        while i < cfg.channel_count as usize
            invariant
                i <= cfg.channel_count,
                stride == cfg.buffer_length * cfg.sample_word_size,
                channels@.len() == i,
                forall|j: int|
                    0 <= j < i ==> (#[trigger] channels@[j])@.len() == cfg.buffer_length
                        * cfg.sample_word_size,
            decreases cfg.channel_count - i,
        {
            channels.push(zero_bytes(stride));
            i = i + 1;
        }
        ContinuousRing { channels, head: 0, started: false }
    }

    /// Commits a sample batch: installs the staged fragments of every
    /// channel in ring memory and advances the head index to cover the
    /// batch. This is the only operation that makes samples visible.
    pub fn commit_samples(
        &mut self,
        cfg: &ContinuousFlowConfigInfo,
        index: u64,
        count: u64,
        planes: &Vec<ChannelFragments>,
    )
        requires
            old(self).wf(*cfg),
            spec_batch_args_ok(*cfg, index, count),
            planes@.len() == cfg.channel_count,
            forall|ch: int|
                0 <= ch < planes@.len() ==> (#[trigger] planes@[ch]).first@.len() == spec_f1_bytes(
                    *cfg,
                    index,
                    count,
                ) && planes@[ch].second@.len() == spec_f2_bytes(*cfg, index, count),
        ensures
            final(self).wf(*cfg),
            samples_commit_post(*old(self), *final(self), *cfg, index, count, planes@),
    {
        proof {
            lemma_fragment_geometry(*cfg, index, count);
        }
        let count_u: u64 = count;
        let first: u64 = index - (count_u - 1);
        let phys: u64 = first % (cfg.buffer_length as u64);
        let f1: u64 = if count_u <= cfg.buffer_length as u64 - phys {
            count_u
        } else {
            cfg.buffer_length as u64 - phys
        };
        let word: u64 = cfg.sample_word_size as u64;
        let at: usize = (phys * word) as usize;
        let nch: usize = self.channels.len();
        let mut ch: usize = 0;
        while ch < nch
            invariant
                ch <= nch,
                nch == cfg.channel_count,
                self.wf(*cfg),
                planes@.len() == cfg.channel_count,
                at == spec_f1_offset(*cfg, index, count),
                spec_batch_args_ok(*cfg, index, count),
                forall|c: int|
                    0 <= c < planes@.len() ==> (#[trigger] planes@[c]).first@.len()
                        == spec_f1_bytes(*cfg, index, count) && planes@[c].second@.len()
                        == spec_f2_bytes(*cfg, index, count),
                self.head == old(self).head,
                self.started == old(self).started,
                forall|c: int|
                    ch <= c < nch ==> (#[trigger] self.channels@[c]) == old(self).channels@[c],
                forall|c: int|
                    0 <= c < ch ==> (#[trigger] self.channels@[c])@.subrange(
                        at as int,
                        at + planes@[c].first@.len(),
                    ) =~= planes@[c].first@ && self.channels@[c]@.subrange(
                        0,
                        planes@[c].second@.len() as int,
                    ) =~= planes@[c].second@,
            decreases nch - ch,
        {
            proof {
                lemma_fragment_geometry(*cfg, index, count);
            }
            let mut buf = copy_bytes(&self.channels[ch]);
            splice_bytes(&mut buf, at, &planes[ch].first);
            splice_bytes(&mut buf, 0, &planes[ch].second);
            assert(buf@.subrange(at as int, at + planes@[ch as int].first@.len())
                =~= planes@[ch as int].first@);
            assert(buf@.subrange(0, planes@[ch as int].second@.len() as int)
                =~= planes@[ch as int].second@);
            self.channels.set(ch, buf);
            ch = ch + 1;
        }
        if !self.started {
            self.head = index;
        } else if index > self.head {
            self.head = index;
        }
        self.started = true;
        proof {
            lemma_fragment_geometry(*cfg, index, count);
            assert forall|c: int| 0 <= c < planes@.len() implies final(self).channel_window(
                *cfg,
                index,
                count,
                c,
            ) == planes@[c].first@ + planes@[c].second@ by {
                assert(final(self).channel_window(*cfg, index, count, c) =~= planes@[c].first@
                    + planes@[c].second@);
            }
        }
    }

    /// Reads a sample batch without blocking.
    ///
    /// An unacceptable request is an invalid argument; a batch whose end has
    /// not been written yet is too early; one whose start has already been
    /// overwritten is too late; otherwise both fragments of every channel
    /// are returned, and their lengths always sum to `count *
    /// sample_word_size`.
    pub fn read_samples(&self, cfg: &ContinuousFlowConfigInfo, index: u64, count: u64) -> (r:
        core::result::Result<Vec<ChannelFragments>, Error>)
        requires
            self.wf(*cfg),
        ensures
            r is Ok <==> self.samples_readable(*cfg, index, count),
            r matches Ok(frags) ==> {
                &&& frags@.len() == cfg.channel_count
                &&& forall|ch: int|
                    0 <= ch < frags@.len() ==> (#[trigger] frags@[ch]).first@ + frags@[ch].second@
                        == self.channel_window(*cfg, index, count, ch)
                &&& forall|ch: int|
                    0 <= ch < frags@.len() ==> (#[trigger] frags@[ch]).first@.len()
                        == spec_f1_bytes(*cfg, index, count) && frags@[ch].second@.len()
                        == spec_f2_bytes(*cfg, index, count)
                &&& forall|ch: int|
                    0 <= ch < frags@.len() ==> (#[trigger] frags@[ch]).first@.len()
                        + frags@[ch].second@.len() == count * cfg.sample_word_size
            },
            r == Err::<Vec<ChannelFragments>, Error>(Error::InvalidArg) <==> !spec_batch_args_ok(
                *cfg,
                index,
                count,
            ),
            r == Err::<Vec<ChannelFragments>, Error>(Error::OutOfRangeTooEarly) <==>
                spec_batch_args_ok(*cfg, index, count) && (!self.started || index > self.head),
            r == Err::<Vec<ChannelFragments>, Error>(Error::OutOfRangeTooLate) <==>
                spec_batch_args_ok(*cfg, index, count) && self.started && index <= self.head
                && self.head - index > cfg.buffer_length - count,
    {
        let count_u: u64 = count;
        if count_u < 1 || count_u > cfg.buffer_length as u64 || count_u - 1 > index {
            return Err(Error::InvalidArg);
        }
        if !self.started || index > self.head {
            return Err(Error::OutOfRangeTooEarly);
        }
        if self.head - index > cfg.buffer_length as u64 - count_u {
            return Err(Error::OutOfRangeTooLate);
        }
        proof {
            lemma_fragment_geometry(*cfg, index, count);
        }
        let first: u64 = index - (count_u - 1);
        let phys: u64 = first % (cfg.buffer_length as u64);
        let f1: u64 = if count_u <= cfg.buffer_length as u64 - phys {
            count_u
        } else {
            cfg.buffer_length as u64 - phys
        };
        let f2: u64 = count_u - f1;
        let word: u64 = cfg.sample_word_size as u64;
        let at: usize = (phys * word) as usize;
        let f1b: usize = (f1 * word) as usize;
        let f2b: usize = (f2 * word) as usize;
        let nch: usize = self.channels.len();
        let mut frags: Vec<ChannelFragments> = Vec::new();
        let mut ch: usize = 0;
        while ch < nch
            invariant
                ch <= nch,
                nch == cfg.channel_count,
                self.wf(*cfg),
                spec_batch_args_ok(*cfg, index, count),
                at == spec_f1_offset(*cfg, index, count),
                f1b == spec_f1_bytes(*cfg, index, count),
                f2b == spec_f2_bytes(*cfg, index, count),
                at + f1b <= cfg.buffer_length * cfg.sample_word_size,
                f2b <= at,
                frags@.len() == ch,
                forall|c: int|
                    0 <= c < ch ==> (#[trigger] frags@[c]).first@ == self.channels@[c]@.subrange(
                        at as int,
                        at + f1b,
                    ) && frags@[c].second@ == self.channels@[c]@.subrange(0, f2b as int),
            decreases nch - ch,
        {
            let channel = &self.channels[ch];
            assert(channel@.len() == cfg.buffer_length * cfg.sample_word_size);
            let first_frag = copy_range(channel, at, f1b);
            let second_frag = copy_range(channel, 0, f2b);
            frags.push(ChannelFragments { first: first_frag, second: second_frag });
            ch = ch + 1;
        }
        proof {
            assert forall|c: int| 0 <= c < frags@.len() implies (#[trigger] frags@[c]).first@
                + frags@[c].second@ == self.channel_window(*cfg, index, count, c) by {
                assert(frags@[c].first@ + frags@[c].second@ =~= self.channel_window(
                    *cfg,
                    index,
                    count,
                    c,
                ));
            }
        }
        Ok(frags)
    }
}

/// Round trip: a grain committed with all slices valid within the retention
/// window is immediately readable at its index, whole and unflagged, with
/// exactly the committed payload. Together with the grain reader's
/// contract, a subsequent complete-grain read at this index returns these
/// bytes and the declared total size.
pub proof fn lemma_grain_round_trip(
    pre: DiscreteRing,
    post: DiscreteRing,
    cfg: DiscreteFlowConfigInfo,
    index: u64,
    payload: Seq<u8>,
)
    requires
        pre.wf(cfg),
        post.wf(cfg),
        grain_commit_post(pre, post, cfg, index, payload, cfg.total_slices),
        pre.started && pre.head > index ==> pre.head - index < cfg.grain_count,
    ensures
        post.readable(cfg, index),
        post.slot_at(cfg, index).payload@ == payload,
        post.slot_at(cfg, index).valid_slices == post.slot_at(cfg, index).total_slices,
        post.slot_at(cfg, index).flags == 0,
{
}

/// Round trip (continuous): a sample batch committed within the retention
/// window is immediately readable at the same index/count window, and every
/// channel's window holds exactly the staged fragments. Together with the
/// sample reader's contract, a subsequent read of the same window returns,
/// per channel, two fragments whose concatenation equals the committed
/// planar data.
pub proof fn lemma_samples_round_trip(
    pre: ContinuousRing,
    post: ContinuousRing,
    cfg: ContinuousFlowConfigInfo,
    index: u64,
    count: u64,
    planes: Seq<ChannelFragments>,
)
    requires
        pre.wf(cfg),
        post.wf(cfg),
        spec_batch_args_ok(cfg, index, count),
        samples_commit_post(pre, post, cfg, index, count, planes),
        pre.started && pre.head > index ==> pre.head - index <= cfg.buffer_length - count,
    ensures
        post.samples_readable(cfg, index, count),
        forall|ch: int|
            0 <= ch < planes.len() ==> post.channel_window(cfg, index, count, ch) == (
            #[trigger] planes[ch]).first@ + planes[ch].second@,
{
}

/// Cancel is invisible: a write session stages its bytes away from the
/// ring, and `open` and `cancel` take the domain immutably, so a canceled
/// (or dropped) session changes nothing. In particular, where no grain was
/// ever committed at an index, no read can return a canceled session's
/// payload: the read fails instead of yielding data.
pub proof fn lemma_cancel_invisible(ring: DiscreteRing, cfg: DiscreteFlowConfigInfo, index: u64)
    requires
        ring.wf(cfg),
        !ring.has_grain(cfg, index),
    ensures
        !ring.readable(cfg, index),
{
}

/// Cancel is invisible (continuous): where no batch covering `index` was
/// ever committed — the flow's head never reached it — a read ending at
/// that index fails instead of yielding a canceled session's data.
pub proof fn lemma_cancel_invisible_continuous(
    ring: ContinuousRing,
    cfg: ContinuousFlowConfigInfo,
    index: u64,
    count: u64,
)
    requires
        ring.wf(cfg),
        !ring.started || index > ring.head,
    ensures
        !ring.samples_readable(cfg, index, count),
{
}

/// Copies `src[at .. at + n]`.
pub fn copy_range(src: &Vec<u8>, at: usize, n: usize) -> (r: Vec<u8>)
    requires
        at + n <= src@.len(),
    ensures
        r@ == src@.subrange(at as int, at + n),
{
    let len: usize = src.len();
    let mut out: Vec<u8> = Vec::new();
    let mut i: usize = 0;
    while i < n
        invariant
            i <= n,
            at + n <= len == src@.len(),
            out@ == src@.subrange(at as int, at + i),
        decreases n - i,
    {
        out.push(src[at + i]);
        proof {
            assert(out@ =~= src@.subrange(at as int, at + i + 1));
        }
        i = i + 1;
    }
    out
}

} // verus!
