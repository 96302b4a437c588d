//! Typed failures of the handle bridge.
//!
//! Every recoverable failure is surfaced to the caller as a value of
//! [`BridgeError`]; nothing is retried or logged, and no wrapper is ever
//! constructed in an invalid state.

use vstd::prelude::*;

verus! {

/// The raw value behind an unrecognized enumerated property: either a
/// numeric code (an alpha layout) or a name (a color space).
#[derive(Debug, PartialEq, Eq)]
pub enum RawVariant {
    Code(u32),
    Name(String),
}

/// The failures a bridge operation can report.
#[derive(Debug, PartialEq, Eq)]
pub enum BridgeError {
    /// A factory or accessor returned the null handle.  The native library
    /// signals allocation or validation failure this way, so every wrapping
    /// path checks for it before constructing a wrapper.
    NullHandle,
    /// A queried property does not map to any variant this binding
    /// understands; carries the raw value, never coerced to a default.
    UnsupportedVariant(RawVariant),
    /// The buffer size computed from the reported dimensions disagrees with
    /// the length of the backing buffer the native side reports.  Both
    /// sides are given in bits: the computed `width * height * bits per
    /// pixel`, and eight times the reported byte length.
    SizeMismatch { expected_bits: u128, reported_bits: u128 },
}

} // verus!
