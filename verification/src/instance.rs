//! The domain: a set of flows sharing one clock.
//!
//! An [`MxlInstance`] owns every flow of one memory domain and the domain's
//! notion of time (a TAI timestamp in nanoseconds, advanced explicitly by
//! [`MxlInstance::sleep_for`] or set by whoever drives the domain). Readers,
//! writers and scoped sessions are plain handles; every operation takes the
//! instance, so the instance's well-formedness is the single shared
//! invariant.

use vstd::prelude::*;

use crate::error::{Error, Result};
use crate::flow::flowdef::{Component, FlowDef, FlowDefDetails};
use crate::flow::reader::FlowReader;
use crate::flow::writer::FlowWriter;
use crate::flow::{
    CommonFlowConfigInfo, ContinuousFlowConfigInfo, DiscreteFlowConfigInfo, FlowConfigDetails,
    FlowConfigInfo, MXL_DATA_FORMAT_AUDIO, MXL_DATA_FORMAT_VIDEO,
};
use crate::ids::{parse_flow_id, parsed_flow_id};
use crate::rate::{
    rate_valid, spec_index_to_timestamp, spec_timestamp_to_index, index_to_timestamp,
    timestamp_to_index, Rational, MAX_RATE_NUMERATOR,
};
use crate::ring::{ContinuousRing, DiscreteRing, MAX_CHANNEL_BYTES};

verus! {

/// Options chosen at flow-creation time.
#[derive(Clone, Copy, Debug, PartialEq, Eq, Structural)]
pub struct FlowOptions {
    /// Ring capacity in indices: grain count for a discrete flow, samples
    /// per channel for a continuous one. Zero is rejected.
    pub ring_length: u32,
}

/// The ring state of one flow, discrete or continuous.
pub enum RingState {
    /// Grain slots of a discrete flow.
    Discrete(DiscreteRing),
    /// Per-channel byte rings of a continuous flow.
    Continuous(ContinuousRing),
}

/// One flow of the domain: its definition, configuration, ring state and
/// access bookkeeping.
pub struct FlowEntry {
    /// The definition the flow was created from.
    pub def: FlowDef,
    /// The immutable configuration derived from the definition.
    pub config: FlowConfigInfo,
    /// The ring holding the flow's data.
    pub ring: RingState,
    /// True while a writer owns the flow.
    pub writer_active: bool,
    /// TAI timestamp of the last commit, in nanoseconds.
    pub last_write_time: u64,
    /// TAI timestamp of the last read, in nanoseconds.
    pub last_read_time: u64,
}

impl FlowEntry {
    /// Configuration, definition and ring agree with one another.
    pub open spec fn wf(&self) -> bool {
        &&& self.config.wf()
        &&& self.def.id == self.config.common.id
        &&& match (self.config.details, &self.ring) {
            (FlowConfigDetails::Discrete(d), RingState::Discrete(ring)) => ring.wf(d),
            (FlowConfigDetails::Continuous(c), RingState::Continuous(ring)) => ring.wf(c),
            _ => false,
        }
    }

    /// The most recently committed index of this flow.
    pub open spec fn spec_head(&self) -> u64 {
        match &self.ring {
            RingState::Discrete(ring) => ring.head,
            RingState::Continuous(ring) => ring.head,
        }
    }
}

/// True once anything has been committed to the flow.
pub open spec fn flow_started(entry: FlowEntry) -> bool {
    match entry.ring {
        RingState::Discrete(ring) => ring.started,
        RingState::Continuous(ring) => ring.started,
    }
}

/// The flow carries a discrete ring, matching its configuration.
pub open spec fn entry_is_discrete(entry: FlowEntry) -> bool {
    entry.ring is Discrete && entry.config.details is Discrete
}

/// The flow carries a continuous ring, matching its configuration.
pub open spec fn entry_is_continuous(entry: FlowEntry) -> bool {
    entry.ring is Continuous && entry.config.details is Continuous
}

/// The discrete ring of a flow (meaningful only for discrete flows).
pub open spec fn disc_ring(entry: FlowEntry) -> DiscreteRing
    recommends
        entry.ring is Discrete,
{
    match entry.ring {
        RingState::Discrete(ring) => ring,
        RingState::Continuous(_) => arbitrary(),
    }
}

/// The continuous ring of a flow (meaningful only for continuous flows).
pub open spec fn cont_ring(entry: FlowEntry) -> ContinuousRing
    recommends
        entry.ring is Continuous,
{
    match entry.ring {
        RingState::Continuous(ring) => ring,
        RingState::Discrete(_) => arbitrary(),
    }
}

/// The discrete configuration of a flow (meaningful only for discrete
/// flows).
pub open spec fn disc_cfg(entry: FlowEntry) -> DiscreteFlowConfigInfo
    recommends
        entry.config.details is Discrete,
{
    match entry.config.details {
        FlowConfigDetails::Discrete(cfg) => cfg,
        FlowConfigDetails::Continuous(_) => arbitrary(),
    }
}

/// The continuous configuration of a flow (meaningful only for continuous
/// flows).
pub open spec fn cont_cfg(entry: FlowEntry) -> ContinuousFlowConfigInfo
    recommends
        entry.config.details is Continuous,
{
    match entry.config.details {
        FlowConfigDetails::Continuous(cfg) => cfg,
        FlowConfigDetails::Discrete(_) => arbitrary(),
    }
}

/// A throwaway entry used to swap a real one out of the flow vector while
/// it is being modified.
fn placeholder_entry() -> FlowEntry {
    let config = FlowConfigInfo {
        common: CommonFlowConfigInfo {
            id: 0,
            format: MXL_DATA_FORMAT_AUDIO,
            grain_rate: Rational { numerator: 1, denominator: 1 },
            max_commit_batch_size_hint: 0,
            max_sync_batch_size_hint: 0,
            payload_location: 0,
            device_index: -1,
        },
        details: FlowConfigDetails::Continuous(
            ContinuousFlowConfigInfo { buffer_length: 1, channel_count: 1, sample_word_size: 1 },
        ),
    };
    FlowEntry {
        def: FlowDef {
            id: 0,
            description: String::new(),
            tags: std::collections::HashMap::new(),
            format: String::new(),
            label: String::new(),
            parents: Vec::new(),
            media_type: String::new(),
            details: FlowDefDetails::Audio(
                crate::flow::flowdef::FlowDefAudio {
                    sample_rate: crate::flow::flowdef::Rate { numerator: 1, denominator: 1 },
                    channel_count: 1,
                    bit_depth: 8,
                },
            ),
        },
        config,
        ring: RingState::Continuous(
            ContinuousRing { channels: Vec::new(), head: 0, started: false },
        ),
        writer_active: false,
        last_write_time: 0,
        last_read_time: 0,
    }
}

/// Largest accepted frame or component dimension.
pub const MAX_DIMENSION: i32 = 32768;

/// Largest accepted number of video components.
pub const MAX_COMPONENTS: usize = 64;

/// Largest accepted bit depth of a video component.
pub const MAX_COMPONENT_DEPTH: u8 = 32;

/// Largest accepted channel count of a continuous flow.
pub const MAX_CHANNELS: i32 = 0x10000;

/// Payload bytes one component plane contributes to a grain:
/// `ceil(width * height * bit_depth / 8)`.
pub open spec fn spec_component_bytes(c: Component) -> int {
    (c.width * c.height * c.bit_depth + 7) / 8
}

/// Total payload capacity of a grain: the sum over its component planes.
pub open spec fn spec_components_size(s: Seq<Component>) -> int
    decreases s.len(),
{
    if s.len() == 0 {
        0
    } else {
        spec_component_bytes(s[0]) + spec_components_size(s.drop_first())
    }
}

/// A component acceptable to this implementation: positive dimensions and
/// bit depth within the supported bounds.
pub open spec fn spec_component_ok(c: Component) -> bool {
    &&& 1 <= c.width <= MAX_DIMENSION
    &&& 1 <= c.height <= MAX_DIMENSION
    &&& 1 <= c.bit_depth <= MAX_COMPONENT_DEPTH
}

/// A rate as written in a flow definition that this implementation accepts.
pub open spec fn spec_def_rate_ok(r: crate::flow::flowdef::Rate) -> bool {
    &&& 1 <= r.numerator <= MAX_RATE_NUMERATOR as i32
    &&& 1 <= r.denominator
}

/// A flow definition and ring length this implementation accepts.
pub open spec fn spec_def_valid(def: FlowDef, ring_length: u32) -> bool {
    spec_details_valid(def.details, ring_length)
}

/// The format-specific part of [`spec_def_valid`]: everything it checks
/// lives in the definition's details.
pub open spec fn spec_details_valid(details: FlowDefDetails, ring_length: u32) -> bool {
    &&& ring_length >= 1
    &&& match details {
        FlowDefDetails::Video(v) => {
            &&& spec_def_rate_ok(v.grain_rate)
            &&& 1 <= v.frame_width <= MAX_DIMENSION
            &&& 1 <= v.frame_height <= MAX_DIMENSION
            &&& v.components@.len() <= MAX_COMPONENTS
            &&& (forall|i: int|
                0 <= i < v.components@.len() ==> spec_component_ok(#[trigger] v.components@[i]))
            &&& spec_components_size(v.components@) <= MAX_CHANNEL_BYTES
        },
        FlowDefDetails::Audio(a) => {
            &&& spec_def_rate_ok(a.sample_rate)
            &&& 1 <= a.channel_count <= MAX_CHANNELS
            &&& a.bit_depth >= 8
            &&& a.bit_depth % 8 == 0
            &&& ring_length * ((a.bit_depth / 8) as u32) <= MAX_CHANNEL_BYTES
        },
    }
}

/// The configuration a valid definition derives to.
pub open spec fn spec_config_of(def: FlowDef, ring_length: u32) -> FlowConfigInfo {
    match def.details {
        FlowDefDetails::Video(v) => FlowConfigInfo {
            common: CommonFlowConfigInfo {
                id: def.id,
                format: MXL_DATA_FORMAT_VIDEO,
                grain_rate: Rational {
                    numerator: v.grain_rate.numerator as u32,
                    denominator: v.grain_rate.denominator as u32,
                },
                max_commit_batch_size_hint: spec_batch_hint(ring_length),
                max_sync_batch_size_hint: spec_batch_hint(ring_length),
                payload_location: 0,
                device_index: (-1) as i32,
            },
            details: FlowConfigDetails::Discrete(
                DiscreteFlowConfigInfo {
                    grain_count: ring_length,
                    grain_size: spec_components_size(v.components@) as u32,
                    total_slices: 1,
                },
            ),
        },
        FlowDefDetails::Audio(a) => FlowConfigInfo {
            common: CommonFlowConfigInfo {
                id: def.id,
                format: MXL_DATA_FORMAT_AUDIO,
                grain_rate: Rational {
                    numerator: a.sample_rate.numerator as u32,
                    denominator: a.sample_rate.denominator as u32,
                },
                max_commit_batch_size_hint: spec_batch_hint(ring_length),
                max_sync_batch_size_hint: spec_batch_hint(ring_length),
                payload_location: 0,
                device_index: (-1) as i32,
            },
            details: FlowConfigDetails::Continuous(
                ContinuousFlowConfigInfo {
                    buffer_length: ring_length,
                    channel_count: a.channel_count as u32,
                    sample_word_size: (a.bit_depth / 8) as u32,
                },
            ),
        },
    }
}

/// The batch size hint advertised for a ring of `ring_length` indices: half
/// the ring, at least one.
pub open spec fn spec_batch_hint(ring_length: u32) -> u32 {
    if ring_length / 2 >= 1 {
        (ring_length / 2) as u32
    } else {
        1u32
    }
}

fn batch_hint(ring_length: u32) -> (r: u32)
    ensures
        r == spec_batch_hint(ring_length),
{
    if ring_length / 2 >= 1 {
        ring_length / 2
    } else {
        1
    }
}

/// Computes the grain payload capacity of a video definition and validates
/// its components.
fn components_size(components: &Vec<Component>) -> (r: Result<u64>)
    requires
        components@.len() <= MAX_COMPONENTS,
    ensures
        r is Ok <==> (forall|i: int|
            0 <= i < components@.len() ==> spec_component_ok(#[trigger] components@[i]))
            && spec_components_size(components@) <= MAX_CHANNEL_BYTES,
        r matches Ok(n) ==> n == spec_components_size(components@),
        r is Err ==> r == Err::<u64, Error>(Error::InvalidArg),
{
    let mut sum: u64 = 0;
    let mut i: usize = 0;
    let n = components.len();
    while i < n
        invariant
            i <= n == components@.len() <= MAX_COMPONENTS,
            sum == spec_components_size(components@.take(i as int)),
            sum <= i * 0x1_0000_0000u64,
            forall|j: int| 0 <= j < i ==> spec_component_ok(#[trigger] components@[j]),
        decreases n - i,
    {
        let c = &components[i];
        if c.width < 1 || c.width > MAX_DIMENSION || c.height < 1 || c.height > MAX_DIMENSION
            || c.bit_depth < 1 || c.bit_depth > MAX_COMPONENT_DEPTH {
            return Err(Error::InvalidArg);
        }
        proof {
            assert((c.width as int) * (c.height as int) <= (MAX_DIMENSION as int) * (
            MAX_DIMENSION as int)) by (nonlinear_arith)
                requires
                    1 <= c.width <= MAX_DIMENSION,
                    1 <= c.height <= MAX_DIMENSION,
            ;
            assert(1 <= (c.width as int) * (c.height as int)) by (nonlinear_arith)
                requires
                    1 <= c.width,
                    1 <= c.height,
            ;
            assert((c.width as int) * (c.height as int) * (c.bit_depth as int) <= (
            MAX_DIMENSION as int) * (MAX_DIMENSION as int) * (MAX_COMPONENT_DEPTH as int))
                by (nonlinear_arith)
                requires
                    (c.width as int) * (c.height as int) <= (MAX_DIMENSION as int) * (
                    MAX_DIMENSION as int),
                    1 <= c.bit_depth <= MAX_COMPONENT_DEPTH,
                    1 <= (c.width as int) * (c.height as int),
            ;
        }
        let bits: u64 = (c.width as u64) * (c.height as u64) * (c.bit_depth as u64);
        let bytes: u64 = (bits + 7) / 8;
        assert(bytes == spec_component_bytes(components@[i as int]));
        assert(bytes <= 0x1_0000_0000u64);
        sum = sum + bytes;
        proof {
            assert(components@.take(i + 1).drop_last() == components@.take(i as int));
            assert(spec_components_size(components@.take(i + 1)) == sum) by {
                lemma_components_size_snoc(components@.take(i + 1));
            }
        }
        i = i + 1;
    }
    proof {
        assert(components@.take(n as int) == components@);
    }
    if sum > MAX_CHANNEL_BYTES {
        return Err(Error::InvalidArg);
    }
    Ok(sum)
}

/// Unfolds the component-size sum from the right: the size of a nonempty
/// sequence is the size of all but the last component plus the last one's.
proof fn lemma_components_size_snoc(s: Seq<Component>)
    requires
        s.len() >= 1,
    ensures
        spec_components_size(s) == spec_components_size(s.drop_last()) + spec_component_bytes(
            s.last(),
        ),
    decreases s.len(),
{
    if s.len() == 1 {
        assert(s.drop_first().len() == 0);
        assert(s.drop_last().len() == 0);
        assert(s.last() == s[0]);
        assert(spec_components_size(s) == spec_component_bytes(s[0]) + spec_components_size(
            s.drop_first(),
        ));
        assert(spec_components_size(s.drop_first()) == 0);
        assert(spec_components_size(s.drop_last()) == 0);
    } else {
        lemma_components_size_snoc(s.drop_first());
        assert(s.drop_first().drop_last() =~= s.drop_last().drop_first());
        assert(s.drop_first().last() == s.last());
        assert(s.drop_last()[0] == s[0]);
        assert(spec_components_size(s) == spec_component_bytes(s[0]) + spec_components_size(
            s.drop_first(),
        ));
        assert(spec_components_size(s.drop_last()) == spec_component_bytes(s.drop_last()[0])
            + spec_components_size(s.drop_last().drop_first()));
    }
}

/// Derives the configuration of a new flow from its definition, validating
/// both against the supported bounds.
fn derive_config(def: &FlowDef, ring_length: u32) -> (r: Result<FlowConfigInfo>)
    ensures
        r is Ok <==> spec_def_valid(*def, ring_length),
        r matches Ok(cfg) ==> cfg == spec_config_of(*def, ring_length) && cfg.wf(),
        r is Err ==> r == Err::<FlowConfigInfo, Error>(Error::InvalidArg),
{
    if ring_length < 1 {
        return Err(Error::InvalidArg);
    }
    match &def.details {
        FlowDefDetails::Video(v) => {
            if v.grain_rate.numerator < 1 || v.grain_rate.numerator > MAX_RATE_NUMERATOR as i32
                || v.grain_rate.denominator < 1 {
                return Err(Error::InvalidArg);
            }
            if v.frame_width < 1 || v.frame_width > MAX_DIMENSION || v.frame_height < 1
                || v.frame_height > MAX_DIMENSION {
                return Err(Error::InvalidArg);
            }
            if v.components.len() > MAX_COMPONENTS {
                return Err(Error::InvalidArg);
            }
            let grain_size = match components_size(&v.components) {
                Ok(n) => n,
                Err(e) => {
                    return Err(e);
                },
            };
            Ok(
                FlowConfigInfo {
                    common: CommonFlowConfigInfo {
                        id: def.id,
                        format: MXL_DATA_FORMAT_VIDEO,
                        grain_rate: Rational {
                            numerator: v.grain_rate.numerator as u32,
                            denominator: v.grain_rate.denominator as u32,
                        },
                        max_commit_batch_size_hint: batch_hint(ring_length),
                        max_sync_batch_size_hint: batch_hint(ring_length),
                        payload_location: 0,
                        device_index: -1,
                    },
                    details: FlowConfigDetails::Discrete(
                        DiscreteFlowConfigInfo {
                            grain_count: ring_length,
                            grain_size: grain_size as u32,
                            total_slices: 1,
                        },
                    ),
                },
            )
        },
        FlowDefDetails::Audio(a) => {
            if a.sample_rate.numerator < 1 || a.sample_rate.numerator > MAX_RATE_NUMERATOR as i32
                || a.sample_rate.denominator < 1 {
                return Err(Error::InvalidArg);
            }
            if a.channel_count < 1 || a.channel_count > MAX_CHANNELS {
                return Err(Error::InvalidArg);
            }
            if a.bit_depth < 8 || a.bit_depth % 8 != 0 {
                return Err(Error::InvalidArg);
            }
            let word: u32 = (a.bit_depth / 8) as u32;
            proof {
                assert((ring_length as int) * (word as int) <= (u32::MAX as int) * (
                u32::MAX as int)) by (nonlinear_arith)
                    requires
                        ring_length <= u32::MAX,
                        word <= u32::MAX,
                ;
            }
            if (ring_length as u64) * (word as u64) > MAX_CHANNEL_BYTES {
                return Err(Error::InvalidArg);
            }
            Ok(
                FlowConfigInfo {
                    common: CommonFlowConfigInfo {
                        id: def.id,
                        format: MXL_DATA_FORMAT_AUDIO,
                        grain_rate: Rational {
                            numerator: a.sample_rate.numerator as u32,
                            denominator: a.sample_rate.denominator as u32,
                        },
                        max_commit_batch_size_hint: batch_hint(ring_length),
                        max_sync_batch_size_hint: batch_hint(ring_length),
                        payload_location: 0,
                        device_index: -1,
                    },
                    details: FlowConfigDetails::Continuous(
                        ContinuousFlowConfigInfo {
                            buffer_length: ring_length,
                            channel_count: a.channel_count as u32,
                            sample_word_size: word,
                        },
                    ),
                },
            )
        },
    }
}

/// A connection to a domain: the set of its flows and its clock.
pub struct MxlInstance {
    /// The domain's current TAI time in nanoseconds.
    pub now_ns: u64,
    /// Every flow of the domain.
    pub flows: Vec<FlowEntry>,
}

impl MxlInstance {
    /// Every flow well formed, every identifier unique.
    pub open spec fn wf(&self) -> bool {
        &&& forall|i: int| 0 <= i < self.flows@.len() ==> (#[trigger] self.flows@[i]).wf()
        &&& forall|i: int, j: int|
            0 <= i < self.flows@.len() && 0 <= j < self.flows@.len() && i != j
                ==> (#[trigger] self.flows@[i]).config.common.id
                != (#[trigger] self.flows@[j]).config.common.id
    }

    /// True when the domain holds a flow with identifier `id`.
    pub open spec fn spec_has_flow(&self, id: u128) -> bool {
        exists|i: int|
            0 <= i < self.flows@.len() && (#[trigger] self.flows@[i]).config.common.id == id
    }

    /// Creates a domain whose clock reads `now_ns` and which holds no flow.
    pub fn new(now_ns: u64) -> (r: MxlInstance)
        ensures
            r.wf(),
            r.now_ns == now_ns,
            r.flows@.len() == 0,
    {
        MxlInstance { now_ns, flows: Vec::new() }
    }

    /// Returns the current TAI time of the domain, in nanoseconds.
    pub fn get_time(&self) -> (r: u64)
        ensures
            r == self.now_ns,
    {
        self.now_ns
    }

    /// Sleeps: advances the domain clock by `duration_ns` (saturating at the
    /// end of representable time) and changes nothing else.
    pub fn sleep_for(&mut self, duration_ns: u64)
        ensures
            final(self).now_ns == if old(self).now_ns + duration_ns <= u64::MAX {
                (old(self).now_ns + duration_ns) as u64
            } else {
                u64::MAX
            },
            final(self).flows == old(self).flows,
    {
        if self.now_ns <= u64::MAX - duration_ns {
            self.now_ns = self.now_ns + duration_ns;
        } else {
            self.now_ns = u64::MAX;
        }
    }

    /// Returns the index current right now at `rate`, or `u64::MAX` when the
    /// rate is invalid.
    pub fn get_current_index(&self, rate: &Rational) -> (r: u64)
        ensures
            rate_valid(*rate) ==> r == spec_timestamp_to_index(self.now_ns, *rate) && r
                <= self.now_ns,
            !rate_valid(*rate) ==> r == u64::MAX,
    {
        match timestamp_to_index(self.now_ns, rate) {
            Some(index) => index,
            None => u64::MAX,
        }
    }

    /// Converts a TAI timestamp to the index current at that timestamp.
    ///
    /// Errors exactly when the rate is invalid.
    pub fn timestamp_to_index(&self, timestamp_ns: u64, rate: &Rational) -> (r: Result<u64>)
        ensures
            r is Ok <==> rate_valid(*rate),
            r matches Ok(i) ==> i == spec_timestamp_to_index(timestamp_ns, *rate),
    {
        match timestamp_to_index(timestamp_ns, rate) {
            Some(index) => Ok(index),
            None => Err(Error::Other("invalid rate".to_owned())),
        }
    }

    /// Converts an index to the first TAI timestamp at which it is
    /// current, the inverse of [`Self::timestamp_to_index`] at index
    /// boundaries.
    ///
    /// Errors exactly when the rate is invalid or the timestamp would not
    /// fit in 64 bits.
    pub fn index_to_timestamp(&self, index: u64, rate: &Rational) -> (r: Result<u64>)
        ensures
            r is Ok <==> rate_valid(*rate) && spec_index_to_timestamp(index, *rate) <= u64::MAX,
            r matches Ok(t) ==> t == spec_index_to_timestamp(index, *rate),
    {
        match index_to_timestamp(index, rate) {
            Some(timestamp) => Ok(timestamp),
            None => Err(Error::Other("invalid rate".to_owned())),
        }
    }

    /// Returns how long from now until `index` becomes current at `rate`
    /// (zero when it already has).
    ///
    /// Errors exactly when the rate is invalid or the index's timestamp
    /// would not fit in 64 bits.
    pub fn get_duration_until_index(&self, index: u64, rate: &Rational) -> (r: Result<u64>)
        ensures
            r is Ok <==> rate_valid(*rate) && spec_index_to_timestamp(index, *rate) <= u64::MAX,
            r matches Ok(d) ==> d == if spec_index_to_timestamp(index, *rate) >= self.now_ns {
                spec_index_to_timestamp(index, *rate) - self.now_ns
            } else {
                0
            },
    {
        match index_to_timestamp(index, rate) {
            Some(timestamp) => {
                if timestamp >= self.now_ns {
                    Ok(timestamp - self.now_ns)
                } else {
                    Ok(0)
                }
            },
            None => Err(Error::Other("invalid rate".to_owned())),
        }
    }

    /// Finds the position of the flow with identifier `id`.
    pub(crate) fn find_flow(&self, id: u128) -> (r: Option<usize>)
        ensures
            r matches Some(i) ==> i < self.flows@.len() && self.flows@[i as int].config.common.id
                == id,
            r is None ==> !self.spec_has_flow(id),
    {
        let mut i: usize = 0;
        let n = self.flows.len();
        while i < n
            invariant
                i <= n == self.flows@.len(),
                forall|j: int| 0 <= j < i ==> (#[trigger] self.flows@[j]).config.common.id != id,
            decreases n - i,
        {
            if self.flows[i].config.common.id == id {
                return Some(i);
            }
            i = i + 1;
        }
        None
    }

    /// Creates a flow writer from a flow definition.
    ///
    /// A new flow is created when none with the definition's identifier
    /// exists (the returned flag is then true); a flow whose writer has been
    /// released is taken over as it stands (flag false, staying on its
    /// original configuration). A flow that already has an active writer is
    /// a conflict, and an unacceptable definition an invalid argument; both
    /// are hard errors.
    pub fn create_flow_writer(&mut self, flow_def: FlowDef, options: Option<&FlowOptions>) -> (r:
        Result<(FlowWriter, FlowConfigInfo, bool)>)
        requires
            old(self).wf(),
        ensures
            final(self).wf(),
            final(self).now_ns == old(self).now_ns,
            r matches Ok((writer, cfg, created)) ==> {
                &&& writer.flow < final(self).flows@.len()
                &&& cfg == final(self).flows@[writer.flow as int].config
                &&& cfg.common.id == flow_def.id
                &&& final(self).flows@[writer.flow as int].writer_active
                &&& (created <==> !old(self).spec_has_flow(flow_def.id))
                &&& (created ==> final(self).flows@.len() == old(self).flows@.len() + 1
                    && writer.flow == old(self).flows@.len()
                    && final(self).flows@[writer.flow as int].def == flow_def && cfg
                    == spec_config_of(flow_def, spec_chosen_ring_length(flow_def, options))
                    && !flow_started(final(self).flows@[writer.flow as int]) && (forall|i: int|
                    0 <= i < old(self).flows@.len() ==> final(self).flows@[i] == old(
                        self,
                    ).flows@[i]))
                &&& (!created ==> final(self).flows@.len() == old(self).flows@.len()
                    && !old(self).flows@[writer.flow as int].writer_active
                    && final(self).flows@[writer.flow as int] == (FlowEntry {
                    writer_active: true,
                    ..old(self).flows@[writer.flow as int]
                }) && (forall|i: int|
                    0 <= i < old(self).flows@.len() && i != writer.flow ==> final(self).flows@[i]
                        == old(self).flows@[i]))
            },
            r is Err ==> *final(self) == *old(self),
            r is Ok <==> (old(self).spec_has_flow(flow_def.id) && !(exists|i: int|
                0 <= i < old(self).flows@.len() && (#[trigger] old(
                    self,
                ).flows@[i]).config.common.id == flow_def.id && old(self).flows@[i].writer_active))
                || (!old(self).spec_has_flow(flow_def.id) && spec_def_valid(
                flow_def,
                spec_chosen_ring_length(flow_def, options),
            )),
            r == Err::<(FlowWriter, FlowConfigInfo, bool), Error>(Error::Conflict) <==> (
            exists|i: int|
                0 <= i < old(self).flows@.len() && (#[trigger] old(
                    self,
                ).flows@[i]).config.common.id == flow_def.id && old(self).flows@[i].writer_active),
    {
        let ring_length: u32 = match options {
            Some(opts) => opts.ring_length,
            None => default_ring_length(&flow_def),
        };
        match self.find_flow(flow_def.id) {
            Some(at) => {
                if self.flows[at].writer_active {
                    proof {
                        assert(0 <= at < old(self).flows@.len() && old(
                            self,
                        ).flows@[at as int].config.common.id == flow_def.id && old(
                            self,
                        ).flows@[at as int].writer_active);
                    }
                    return Err(Error::Conflict);
                }
                let mut entry = placeholder_entry();
                self.flows.set_and_swap(at, &mut entry);
                entry.writer_active = true;
                let config = entry.config;
                self.flows.set(at, entry);
                proof {
                    assert forall|i: int, j: int|
                        0 <= i < self.flows@.len() && 0 <= j < self.flows@.len() && i
                            != j implies (#[trigger] self.flows@[i]).config.common.id
                        != (#[trigger] self.flows@[j]).config.common.id by {
                        assert(old(self).flows@[i].config.common.id != old(
                            self,
                        ).flows@[j].config.common.id);
                    }
                }
                Ok((FlowWriter { flow: at, id: config.common.id }, config, false))
            },
            None => {
                let config = match derive_config(&flow_def, ring_length) {
                    Ok(config) => config,
                    Err(e) => {
                        return Err(e);
                    },
                };
                let ring = match &config.details {
                    FlowConfigDetails::Discrete(d) => RingState::Discrete(DiscreteRing::empty(d)),
                    FlowConfigDetails::Continuous(c) => RingState::Continuous(
                        ContinuousRing::empty(c),
                    ),
                };
                let at = self.flows.len();
                let id = config.common.id;
                let entry = FlowEntry {
                    def: flow_def,
                    config,
                    ring,
                    writer_active: true,
                    last_write_time: 0,
                    last_read_time: 0,
                };
                self.flows.push(entry);
                proof {
                    assert forall|i: int, j: int|
                        0 <= i < self.flows@.len() && 0 <= j < self.flows@.len() && i
                            != j implies (#[trigger] self.flows@[i]).config.common.id
                        != (#[trigger] self.flows@[j]).config.common.id by {
                        if i < old(self).flows@.len() && j < old(self).flows@.len() {
                            assert(old(self).flows@[i].config.common.id != old(
                                self,
                            ).flows@[j].config.common.id);
                        } else if i == old(self).flows@.len() {
                            assert(old(self).flows@[j].config.common.id != id);
                        } else {
                            assert(old(self).flows@[i].config.common.id != id);
                        }
                    }
                }
                Ok((FlowWriter { flow: at, id }, config, true))
            },
        }
    }

    /// Creates a flow reader for an existing flow.
    ///
    /// The identifier is given in its textual UUID form. A string that is no
    /// UUID is an invalid argument; a UUID naming no flow of this domain is
    /// not found; otherwise a reader bound to that flow is returned.
    pub fn create_flow_reader(&self, flow_id: &str) -> (r: Result<FlowReader>)
        ensures
            r matches Ok(reader) ==> parsed_flow_id(flow_id@) matches Some(id) && reader.flow
                < self.flows@.len() && self.flows@[reader.flow as int].config.common.id == id,
            r is Ok <==> (parsed_flow_id(flow_id@) matches Some(id) && self.spec_has_flow(id)),
            r == Err::<FlowReader, Error>(Error::InvalidArg) <==> parsed_flow_id(flow_id@)
                is None,
            r == Err::<FlowReader, Error>(Error::FlowNotFound) <==> (parsed_flow_id(flow_id@)
                matches Some(id) && !self.spec_has_flow(id)),
    {
        let id = match parse_flow_id(flow_id) {
            Some(id) => id,
            None => {
                return Err(Error::InvalidArg);
            },
        };
        match self.find_flow(id) {
            Some(at) => Ok(FlowReader { flow: at }),
            None => Err(Error::FlowNotFound),
        }
    }

    /// Retrieves the flow definition that a flow was created from.
    ///
    /// The identifier is given in its textual UUID form, as for
    /// [`Self::create_flow_reader`].
    pub fn get_flow_def(&self, flow_id: &str) -> (r: Result<&FlowDef>)
        ensures
            r matches Ok(def) ==> parsed_flow_id(flow_id@) matches Some(id) && (exists|i: int|
                0 <= i < self.flows@.len() && (#[trigger] self.flows@[i]).config.common.id == id
                    && self.flows@[i].def == *def),
            r is Ok <==> (parsed_flow_id(flow_id@) matches Some(id) && self.spec_has_flow(id)),
            r == Err::<&FlowDef, Error>(Error::InvalidArg) <==> parsed_flow_id(flow_id@) is None,
            r == Err::<&FlowDef, Error>(Error::FlowNotFound) <==> (parsed_flow_id(flow_id@)
                matches Some(id) && !self.spec_has_flow(id)),
    {
        let id = match parse_flow_id(flow_id) {
            Some(id) => id,
            None => {
                return Err(Error::InvalidArg);
            },
        };
        match self.find_flow(id) {
            Some(at) => Ok(&self.flows[at].def),
            None => Err(Error::FlowNotFound),
        }
    }

    /// Removes the domain, releasing every flow.
    pub fn destroy(self) -> (r: Result<()>)
        ensures
            r is Ok,
    {
        Ok(())
    }

    /// Marks the writer of flow `at` as attached or released; nothing else
    /// changes.
    pub(crate) fn set_writer_active(&mut self, at: usize, active: bool)
        requires
            old(self).wf(),
            at < old(self).flows@.len(),
        ensures
            final(self).wf(),
            final(self).now_ns == old(self).now_ns,
            final(self).flows@ == old(self).flows@.update(
                at as int,
                (FlowEntry { writer_active: active, ..old(self).flows@[at as int] }),
            ),
    {
        let mut entry = placeholder_entry();
        self.flows.set_and_swap(at, &mut entry);
        entry.writer_active = active;
        self.flows.set(at, entry);
        proof {
            assert(final(self).flows@ =~= old(self).flows@.update(
                at as int,
                (FlowEntry { writer_active: active, ..old(self).flows@[at as int] }),
            ));
            lemma_update_keeps_wf(*old(self), *final(self), at as int);
        }
    }

    /// Records that flow `at` has just been read; nothing else changes.
    pub(crate) fn touch_read(&mut self, at: usize)
        requires
            old(self).wf(),
            at < old(self).flows@.len(),
        ensures
            final(self).wf(),
            final(self).now_ns == old(self).now_ns,
            final(self).flows@ == old(self).flows@.update(
                at as int,
                (FlowEntry { last_read_time: old(self).now_ns, ..old(self).flows@[at as int] }),
            ),
    {
        let now = self.now_ns;
        let mut entry = placeholder_entry();
        self.flows.set_and_swap(at, &mut entry);
        entry.last_read_time = now;
        self.flows.set(at, entry);
        proof {
            assert(final(self).flows@ =~= old(self).flows@.update(
                at as int,
                (FlowEntry { last_read_time: old(self).now_ns, ..old(self).flows@[at as int] }),
            ));
            lemma_update_keeps_wf(*old(self), *final(self), at as int);
        }
    }

    /// Commits a grain into the discrete flow at position `at`.
    pub(crate) fn commit_grain_at(
        &mut self,
        at: usize,
        index: u64,
        payload: Vec<u8>,
        valid_slices: u16,
    )
        requires
            old(self).wf(),
            at < old(self).flows@.len(),
            entry_is_discrete(old(self).flows@[at as int]),
            payload@.len() == disc_cfg(old(self).flows@[at as int]).grain_size,
            valid_slices <= disc_cfg(old(self).flows@[at as int]).total_slices,
        ensures
            final(self).wf(),
            final(self).now_ns == old(self).now_ns,
            final(self).flows@.len() == old(self).flows@.len(),
            forall|i: int|
                0 <= i < old(self).flows@.len() && i != at ==> final(self).flows@[i] == old(
                    self,
                ).flows@[i],
            entry_is_discrete(final(self).flows@[at as int]),
            final(self).flows@[at as int].config == old(self).flows@[at as int].config,
            final(self).flows@[at as int].def == old(self).flows@[at as int].def,
            final(self).flows@[at as int].writer_active == old(
                self,
            ).flows@[at as int].writer_active,
            final(self).flows@[at as int].last_write_time == old(self).now_ns,
            final(self).flows@[at as int].last_read_time == old(
                self,
            ).flows@[at as int].last_read_time,
            crate::ring::grain_commit_post(
                disc_ring(old(self).flows@[at as int]),
                disc_ring(final(self).flows@[at as int]),
                disc_cfg(old(self).flows@[at as int]),
                index,
                payload@,
                valid_slices,
            ),
    {
        let now = self.now_ns;
        let mut entry = placeholder_entry();
        self.flows.set_and_swap(at, &mut entry);
        let config = entry.config;
        match (&mut entry.ring, &config.details) {
            (RingState::Discrete(ring), FlowConfigDetails::Discrete(d)) => {
                ring.commit_grain(d, index, payload, valid_slices);
            },
            _ => {
                proof {
                    assert(false);
                }
            },
        }
        entry.last_write_time = now;
        self.flows.set(at, entry);
        proof {
            lemma_update_keeps_wf(*old(self), *final(self), at as int);
        }
    }

    /// Commits a sample batch into the continuous flow at position `at`.
    pub(crate) fn commit_samples_at(
        &mut self,
        at: usize,
        index: u64,
        count: u64,
        planes: &Vec<crate::ring::ChannelFragments>,
    )
        requires
            old(self).wf(),
            at < old(self).flows@.len(),
            entry_is_continuous(old(self).flows@[at as int]),
            crate::ring::spec_batch_args_ok(cont_cfg(old(self).flows@[at as int]), index, count),
            planes@.len() == cont_cfg(old(self).flows@[at as int]).channel_count,
            forall|ch: int|
                0 <= ch < planes@.len() ==> (#[trigger] planes@[ch]).first@.len()
                    == crate::ring::spec_f1_bytes(
                    cont_cfg(old(self).flows@[at as int]),
                    index,
                    count,
                ) && planes@[ch].second@.len() == crate::ring::spec_f2_bytes(
                    cont_cfg(old(self).flows@[at as int]),
                    index,
                    count,
                ),
        ensures
            final(self).wf(),
            final(self).now_ns == old(self).now_ns,
            final(self).flows@.len() == old(self).flows@.len(),
            forall|i: int|
                0 <= i < old(self).flows@.len() && i != at ==> final(self).flows@[i] == old(
                    self,
                ).flows@[i],
            entry_is_continuous(final(self).flows@[at as int]),
            final(self).flows@[at as int].config == old(self).flows@[at as int].config,
            final(self).flows@[at as int].def == old(self).flows@[at as int].def,
            final(self).flows@[at as int].writer_active == old(
                self,
            ).flows@[at as int].writer_active,
            final(self).flows@[at as int].last_write_time == old(self).now_ns,
            final(self).flows@[at as int].last_read_time == old(
                self,
            ).flows@[at as int].last_read_time,
            crate::ring::samples_commit_post(
                cont_ring(old(self).flows@[at as int]),
                cont_ring(final(self).flows@[at as int]),
                cont_cfg(old(self).flows@[at as int]),
                index,
                count,
                planes@,
            ),
    {
        let now = self.now_ns;
        let mut entry = placeholder_entry();
        self.flows.set_and_swap(at, &mut entry);
        let config = entry.config;
        match (&mut entry.ring, &config.details) {
            (RingState::Continuous(ring), FlowConfigDetails::Continuous(c)) => {
                ring.commit_samples(c, index, count, planes);
            },
            _ => {
                proof {
                    assert(false);
                }
            },
        }
        entry.last_write_time = now;
        self.flows.set(at, entry);
        proof {
            lemma_update_keeps_wf(*old(self), *final(self), at as int);
        }
    }
}

/// Well-formedness survives replacing one flow by a well-formed flow with
/// the same identifier.
proof fn lemma_update_keeps_wf(pre: MxlInstance, post: MxlInstance, at: int)
    requires
        pre.wf(),
        0 <= at < pre.flows@.len(),
        post.flows@.len() == pre.flows@.len(),
        post.flows@[at].wf(),
        post.flows@[at].config.common.id == pre.flows@[at].config.common.id,
        forall|i: int| 0 <= i < pre.flows@.len() && i != at ==> post.flows@[i] == pre.flows@[i],
    ensures
        post.wf(),
{
    assert forall|i: int| 0 <= i < post.flows@.len() implies (#[trigger] post.flows@[i]).wf() by {
        if i != at {
            assert(pre.flows@[i].wf());
        }
    }
    assert forall|i: int, j: int|
        0 <= i < post.flows@.len() && 0 <= j < post.flows@.len() && i != j implies (
    #[trigger] post.flows@[i]).config.common.id != (#[trigger] post.flows@[j]).config.common.id by {
        assert(pre.flows@[i].config.common.id != pre.flows@[j].config.common.id);
        assert(post.flows@[i].config.common.id == pre.flows@[i].config.common.id);
        assert(post.flows@[j].config.common.id == pre.flows@[j].config.common.id);
    }
}

/// The ring length chosen when the caller gives no options: one second of
/// indices at the definition's rate, at least one.
pub open spec fn spec_default_ring_length(def: FlowDef) -> u32 {
    spec_default_ring_length_details(def.details)
}

/// The format-specific part of [`spec_default_ring_length`].
pub open spec fn spec_default_ring_length_details(details: FlowDefDetails) -> u32 {
    let rate = match details {
        FlowDefDetails::Video(v) => v.grain_rate,
        FlowDefDetails::Audio(a) => a.sample_rate,
    };
    if 1 <= rate.numerator <= MAX_RATE_NUMERATOR as i32 && 1 <= rate.denominator {
        vstd::math::max(
            1,
            (rate.numerator + rate.denominator - 1) as int / rate.denominator as int,
        ) as u32
    } else {
        1u32
    }
}

/// The ring length a creation call ends up using.
pub open spec fn spec_chosen_ring_length(def: FlowDef, options: Option<&FlowOptions>) -> u32 {
    match options {
        Some(opts) => opts.ring_length,
        None => spec_default_ring_length(def),
    }
}

/// Computes the default ring length: one second of indices at the
/// definition's rate.
fn default_ring_length(def: &FlowDef) -> (r: u32)
    ensures
        r == spec_default_ring_length(*def),
{
    let rate = match &def.details {
        FlowDefDetails::Video(v) => v.grain_rate,
        FlowDefDetails::Audio(a) => a.sample_rate,
    };
    if 1 <= rate.numerator && rate.numerator <= MAX_RATE_NUMERATOR as i32 && 1
        <= rate.denominator {
        let num: i64 = rate.numerator as i64;
        let den: i64 = rate.denominator as i64;
        let per_second: i64 = (num + den - 1) / den;
        proof {
            assert((num as int + den as int - 1) / (den as int) <= num as int)
                by (nonlinear_arith)
                requires
                    1 <= num,
                    1 <= den,
            ;
            assert((num as int + den as int - 1) / (den as int) >= 1) by (nonlinear_arith)
                requires
                    1 <= num,
                    1 <= den,
            ;
        }
        if per_second >= 1 {
            per_second as u32
        } else {
            1
        }
    } else {
        1
    }
}

} // verus!
