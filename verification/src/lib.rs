//! A verified codec for the mandatory 32-bit (4-byte) VITA 49.2 (VRT) packet
//! header: a typed record of the header's nine sub-fields, three closed
//! enumerations for the protocol's coded fields, and lossless, deterministic
//! conversion between the record and its exact wire byte layout.

use vstd::prelude::*;

pub mod vrt_header;

verus! {

/// The coded header field that a numeric value was read from. Carried inside
/// [`DecodeError::InvalidEnumCode`] so a caller can tell which field held the
/// undefined code.
#[derive(Clone, Copy, Debug, PartialEq, Eq, Structural)]
pub enum HeaderField {
    /// The packet type nibble (byte 0, bits 7-4).
    PacketType,
    /// The integer timestamp mode (byte 1, bits 7-6).
    Tsi,
    /// The fractional timestamp mode (byte 1, bits 5-4).
    Tsf,
}

/// Why a header buffer was rejected. Decoding never panics and never returns
/// a partially-populated header: every failure is surfaced as one of these.
#[derive(Clone, Copy, Debug, PartialEq, Eq, Structural)]
pub enum DecodeError {
    /// The buffer held fewer than the 4 bytes a header occupies.
    TruncatedInput,
    /// A coded field held a numeric value with no corresponding tag.
    InvalidEnumCode { field: HeaderField, code: u8 },
}

} // verus!
