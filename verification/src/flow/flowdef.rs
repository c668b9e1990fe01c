//! Flow definition records.
//!
//! A flow definition is the immutable description exchanged at flow-creation
//! time: an identifier, a format discriminator, a rate, and format-specific
//! fields. The enclosing wire format (an NMOS-like JSON document) is an
//! external contract; this crate works on the structured record and leaves
//! the serialization to its surroundings.

use vstd::prelude::*;

use std::collections::HashMap;

verus! {

/// Rational number representation for rates as written in flow definitions.
///
/// Used for frame rates (e.g. 30000/1001) and sample rates (e.g. 48000/1).
#[derive(Clone, Copy, Debug, PartialEq, Eq, Structural)]
pub struct Rate {
    /// Numerator of the rate.
    pub numerator: i32,
    /// Denominator of the rate (1 when omitted in the wire form).
    pub denominator: i32,
}

/// Default denominator for rates (whole units per second).
pub fn default_denominator() -> (r: i32)
    ensures
        r == 1,
{
    1
}

/// Video interlacing mode.
#[derive(Clone, Copy, Debug, PartialEq, Eq, Structural)]
pub enum InterlaceMode {
    /// Progressive scan (non-interlaced).
    Progressive,
    /// Interlaced with top field first.
    InterlacedTff,
    /// Interlaced with bottom field first.
    InterlacedBff,
}

impl core::str::FromStr for InterlaceMode {
    type Err = ();

    /// Parses `"progressive"`, `"interlaced_tff"` or `"interlaced_bff"`.
    fn from_str(s: &str) -> (r: core::result::Result<Self, ()>)
        ensures
            s@ == "progressive"@ ==> r == Ok::<InterlaceMode, ()>(InterlaceMode::Progressive),
            s@ == "interlaced_tff"@ ==> r == Ok::<InterlaceMode, ()>(InterlaceMode::InterlacedTff),
            s@ == "interlaced_bff"@ ==> r == Ok::<InterlaceMode, ()>(InterlaceMode::InterlacedBff),
            s@ != "progressive"@ && s@ != "interlaced_tff"@ && s@ != "interlaced_bff"@ ==> r
                is Err,
    {
        proof {
            reveal_strlit("progressive");
            reveal_strlit("interlaced_tff");
            reveal_strlit("interlaced_bff");
            assert("progressive"@.len() == 11);
            assert("interlaced_tff"@.len() == 14);
            assert("interlaced_bff"@.len() == 14);
            assert("interlaced_tff"@[11] == 't');
            assert("interlaced_bff"@[11] == 'b');
        }
        let text = s.to_owned();
        if text == "progressive".to_owned() {
            Ok(InterlaceMode::Progressive)
        } else if text == "interlaced_tff".to_owned() {
            Ok(InterlaceMode::InterlacedTff)
        } else if text == "interlaced_bff".to_owned() {
            Ok(InterlaceMode::InterlacedBff)
        } else {
            Err(())
        }
    }
}

/// Video component description (Y, Cb, Cr, alpha, ...): one component plane
/// of a video frame with its dimensions and bit depth.
#[derive(Clone, Debug, PartialEq)]
pub struct Component {
    /// Component name (e.g. "Y", "Cb", "Cr").
    pub name: String,
    /// Component width in pixels.
    pub width: i32,
    /// Component height in pixels.
    pub height: i32,
    /// Bit depth of this component.
    pub bit_depth: u8,
}

/// Video flow definition details.
#[derive(Clone, Debug, PartialEq)]
pub struct FlowDefVideo {
    /// Frame rate as a rational number.
    pub grain_rate: Rate,
    /// Frame width in pixels.
    pub frame_width: i32,
    /// Frame height in pixels.
    pub frame_height: i32,
    /// Interlacing mode.
    pub interlace_mode: InterlaceMode,
    /// Colorspace identifier (e.g. "BT709").
    pub colorspace: String,
    /// Video component descriptions.
    pub components: Vec<Component>,
}

/// Audio flow definition details.
#[derive(Clone, Copy, Debug, PartialEq, Eq, Structural)]
pub struct FlowDefAudio {
    /// Sample rate as a rational number.
    pub sample_rate: Rate,
    /// Number of audio channels.
    pub channel_count: i32,
    /// Bit depth per sample.
    pub bit_depth: u8,
}

/// Format-specific flow definition details.
#[derive(Clone, Debug, PartialEq)]
pub enum FlowDefDetails {
    /// Video flow definition (discrete delivery).
    Video(FlowDefVideo),
    /// Audio flow definition (continuous delivery).
    Audio(FlowDefAudio),
}

/// Complete flow definition record.
///
/// The identifier is the 128-bit value of the flow's UUID.
#[derive(Clone, Debug, PartialEq)]
pub struct FlowDef {
    /// Unique identifier for this flow (the UUID's 128-bit value).
    pub id: u128,
    /// Human-readable description.
    pub description: String,
    /// Arbitrary key-value tags for organization.
    pub tags: HashMap<String, Vec<String>>,
    /// Format URN (e.g. "urn:x-nmos:format:video").
    pub format: String,
    /// Short human-readable label.
    pub label: String,
    /// List of parent flow identifiers (for derived flows).
    pub parents: Vec<String>,
    /// MIME media type (e.g. "video/raw").
    pub media_type: String,
    /// Format-specific details.
    pub details: FlowDefDetails,
}

} // verus!
