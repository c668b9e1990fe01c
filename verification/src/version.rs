//! Library version description.

use vstd::prelude::*;

verus! {

/// A semantic version triple with a build number, as reported by the
/// media-exchange layer.
#[derive(Debug, Clone, Copy, PartialEq, Eq, Structural, Default)]
pub struct VersionType {
    /// Major version.
    pub major: u16,
    /// Minor version.
    pub minor: u16,
    /// Bugfix release.
    pub bugfix: u16,
    /// Build number.
    pub build: u16,
}

} // verus!
