//! The Packet Type enumeration is utilized for defining the
//! supported VITA 49.2 packet types.

use vstd::prelude::*;

use crate::{DecodeError, HeaderField};

verus! {

/// The Packet Type enumeration is utilized for defining the
/// supported VITA 49.2 packet types. Each tag is bound to the fixed
/// numeric code the protocol assigns it: sequential from 0, no gaps,
/// in declaration order.
#[derive(Clone, Copy, Debug, PartialEq, Eq, Structural)]
pub enum PacketType {
    DataNoSid,
    DataSid,
    ExtDataNoSid,
    ExtDataSid,
    Context,
    ExtContext,
    Control,
    ExtControl,
}

/// The numeric wire code of each packet type tag: 0 through 7 in
/// declaration order.
pub open spec fn spec_packet_type_code(t: PacketType) -> u8 {
    match t {
        PacketType::DataNoSid => 0,
        PacketType::DataSid => 1,
        PacketType::ExtDataNoSid => 2,
        PacketType::ExtDataSid => 3,
        PacketType::Context => 4,
        PacketType::ExtContext => 5,
        PacketType::Control => 6,
        PacketType::ExtControl => 7,
    }
}

/// The packet type tag a numeric code stands for: defined exactly for
/// codes 0 through 7.
pub open spec fn spec_packet_type_of_code(code: u8) -> Option<PacketType> {
    match code {
        0 => Some(PacketType::DataNoSid),
        1 => Some(PacketType::DataSid),
        2 => Some(PacketType::ExtDataNoSid),
        3 => Some(PacketType::ExtDataSid),
        4 => Some(PacketType::Context),
        5 => Some(PacketType::ExtContext),
        6 => Some(PacketType::Control),
        7 => Some(PacketType::ExtControl),
        _ => None,
    }
}

impl PacketType {
    /// The numeric wire code of this tag: a total, injective, stable map.
    pub fn to_code(self) -> (code: u8)
        ensures
            code == spec_packet_type_code(self),
            code <= 7,
    {
        match self {
            PacketType::DataNoSid => 0,
            PacketType::DataSid => 1,
            PacketType::ExtDataNoSid => 2,
            PacketType::ExtDataSid => 3,
            PacketType::Context => 4,
            PacketType::ExtContext => 5,
            PacketType::Control => 6,
            PacketType::ExtControl => 7,
        }
    }

    /// The tag a numeric code stands for. Succeeds exactly on codes 0
    /// through 7; any other code is rejected, never clamped or wrapped.
    pub fn from_code(code: u8) -> (r: Result<PacketType, DecodeError>)
        ensures
            r is Ok <==> code <= 7,
            spec_packet_type_of_code(code) matches Some(t) ==> r == Ok::<PacketType, DecodeError>(t),
            spec_packet_type_of_code(code) is None ==> r == Err::<PacketType, DecodeError>(
                (DecodeError::InvalidEnumCode { field: HeaderField::PacketType, code }),
            ),
    {
        match code {
            0 => Ok(PacketType::DataNoSid),
            1 => Ok(PacketType::DataSid),
            2 => Ok(PacketType::ExtDataNoSid),
            3 => Ok(PacketType::ExtDataSid),
            4 => Ok(PacketType::Context),
            5 => Ok(PacketType::ExtContext),
            6 => Ok(PacketType::Control),
            7 => Ok(PacketType::ExtControl),
            _ => Err(DecodeError::InvalidEnumCode { field: HeaderField::PacketType, code }),
        }
    }
}

/// Law: mapping any defined tag to its code and back yields the tag.
pub proof fn lemma_packet_type_code_round_trip(t: PacketType)
    ensures
        spec_packet_type_of_code(spec_packet_type_code(t)) == Some(t),
{
}

/// Law: every code outside the defined set 0 through 7 maps to no tag.
pub proof fn lemma_packet_type_code_rejected(code: u8)
    requires
        code > 7,
    ensures
        spec_packet_type_of_code(code) is None,
{
}

/// Law: a defined code maps to a tag that maps back to the same code.
pub proof fn lemma_packet_type_of_code_inverse(code: u8)
    requires
        code <= 7,
    ensures
        spec_packet_type_of_code(code) matches Some(t) && spec_packet_type_code(t) == code,
{
}

} // verus!
