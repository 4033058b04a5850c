//! The fractional timestamp enumeration is utilized for defining the
//! four supported VITA 49.2 fractional timestamp types.

use vstd::prelude::*;

use crate::{DecodeError, HeaderField};

verus! {

/// The fractional timestamp enumeration is utilized for defining the
/// four supported VITA 49.2 fractional timestamp types. Each tag is bound
/// to the fixed numeric code the protocol assigns it: sequential from 0,
/// no gaps, in declaration order.
#[derive(Clone, Copy, Debug, PartialEq, Eq, Structural)]
pub enum FractionalTimestamps {
    SampleCount,
    RealTimePico,
    FreeRunning,
    Other,
}

/// The numeric wire code of each fractional timestamp tag: 0 through 3 in
/// declaration order.
pub open spec fn spec_tsf_code(t: FractionalTimestamps) -> u8 {
    match t {
        FractionalTimestamps::SampleCount => 0,
        FractionalTimestamps::RealTimePico => 1,
        FractionalTimestamps::FreeRunning => 2,
        FractionalTimestamps::Other => 3,
    }
}

/// The fractional timestamp tag a numeric code stands for: defined exactly
/// for codes 0 through 3.
pub open spec fn spec_tsf_of_code(code: u8) -> Option<FractionalTimestamps> {
    match code {
        0 => Some(FractionalTimestamps::SampleCount),
        1 => Some(FractionalTimestamps::RealTimePico),
        2 => Some(FractionalTimestamps::FreeRunning),
        3 => Some(FractionalTimestamps::Other),
        _ => None,
    }
}

impl FractionalTimestamps {
    /// The numeric wire code of this tag: a total, injective, stable map.
    pub fn to_code(self) -> (code: u8)
        ensures
            code == spec_tsf_code(self),
            code <= 3,
    {
        match self {
            FractionalTimestamps::SampleCount => 0,
            FractionalTimestamps::RealTimePico => 1,
            FractionalTimestamps::FreeRunning => 2,
            FractionalTimestamps::Other => 3,
        }
    }

    /// The tag a numeric code stands for. Succeeds exactly on codes 0
    /// through 3; any other code is rejected, never clamped or wrapped.
    pub fn from_code(code: u8) -> (r: Result<FractionalTimestamps, DecodeError>)
        ensures
            r is Ok <==> code <= 3,
            spec_tsf_of_code(code) matches Some(t) ==> r == Ok::<FractionalTimestamps, DecodeError>(t),
            spec_tsf_of_code(code) is None ==> r == Err::<FractionalTimestamps, DecodeError>(
                (DecodeError::InvalidEnumCode { field: HeaderField::Tsf, code }),
            ),
    {
        match code {
            0 => Ok(FractionalTimestamps::SampleCount),
            1 => Ok(FractionalTimestamps::RealTimePico),
            2 => Ok(FractionalTimestamps::FreeRunning),
            3 => Ok(FractionalTimestamps::Other),
            _ => Err(DecodeError::InvalidEnumCode { field: HeaderField::Tsf, code }),
        }
    }
}

/// Law: mapping any defined tag to its code and back yields the tag.
pub proof fn lemma_tsf_code_round_trip(t: FractionalTimestamps)
    ensures
        spec_tsf_of_code(spec_tsf_code(t)) == Some(t),
{
}

/// Law: every code outside the defined set 0 through 3 maps to no tag.
pub proof fn lemma_tsf_code_rejected(code: u8)
    requires
        code > 3,
    ensures
        spec_tsf_of_code(code) is None,
{
}

/// Law: a defined code maps to a tag that maps back to the same code.
pub proof fn lemma_tsf_of_code_inverse(code: u8)
    requires
        code <= 3,
    ensures
        spec_tsf_of_code(code) matches Some(t) && spec_tsf_code(t) == code,
{
}

} // verus!
