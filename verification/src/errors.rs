//! Error taxonomy of the script builder.

use vstd::prelude::*;

verus! {

/// Every failure a builder component can report. Each variant is returned by
/// the component that first detects it; no partial result accompanies one.
#[derive(Clone, Copy, Debug, PartialEq, Eq, Structural)]
pub enum BuildError {
    /// The supplied public key bytes are not a 33-byte compressed key, or do
    /// not decode to a point on the curve.
    InvalidKey,
    /// A BRC20 ticker that is not exactly 4 ASCII bytes.
    InvalidTicker,
    /// An unusable inscription mime type: empty text. (Decoding the text
    /// itself is the boundary layer's concern; the core receives it already
    /// decoded.)
    InvalidMimeType,
    /// A script element too large for a single pushdata element.
    EncodingFailure,
    /// The Taproot tweak of the internal key could not be computed.
    KeyTweakFailure,
    /// A descriptor variant the builder does not recognize. The descriptor
    /// union of this crate is closed, so the library itself never reports
    /// this; it exists for boundary layers that dispatch on an open tag set.
    UnsupportedVariant,
}

} // verus!
