//! Error taxonomy of the codec.

use vstd::prelude::*;

verus! {

/// Every failure the codec can report.
///
/// A dangling or mistyped fragment reference is *not* an error: resolution
/// returns an empty result instead (see `FragmentRef::resolve`), and an
/// unregistered type identifier decodes to an opaque unknown fragment
/// (see `decode_fragment`).
#[derive(Clone, Copy, Debug, PartialEq, Eq, Structural)]
pub enum WldError {
    /// A declared length or count exceeds the bytes remaining in the input.
    InsufficientBytes,
    /// A string lookup addressed a position outside the decoded string block.
    OffsetOutOfRange,
    /// A caller asked for a construct (such as an encode routine for a type
    /// identifier) that was never registered; a programming error, not a
    /// data error.
    UnsupportedConstruct,
    /// A fragment reference resolved to a slot of a different kind than the
    /// caller expected; reported to callers as an empty resolution.
    KindMismatch,
}

} // verus!
