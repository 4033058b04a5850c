//! The integer timestamp enumeration is utilized for defining the
//! four supported VITA 49.2 integer timestamp types.

use vstd::prelude::*;

use crate::{DecodeError, HeaderField};

verus! {

/// The integer timestamp enumeration is utilized for defining the
/// four supported VITA 49.2 integer timestamp types. Each tag is bound
/// to the fixed numeric code the protocol assigns it: sequential from 0,
/// no gaps, in declaration order.
#[derive(Clone, Copy, Debug, PartialEq, Eq, Structural)]
pub enum IntegerTimestamps {
    Zero,
    One,
    Two,
    Three,
}

/// The numeric wire code of each integer timestamp tag: 0 through 3 in
/// declaration order.
pub open spec fn spec_tsi_code(t: IntegerTimestamps) -> u8 {
    match t {
        IntegerTimestamps::Zero => 0,
        IntegerTimestamps::One => 1,
        IntegerTimestamps::Two => 2,
        IntegerTimestamps::Three => 3,
    }
}

/// The integer timestamp tag a numeric code stands for: defined exactly
/// for codes 0 through 3.
pub open spec fn spec_tsi_of_code(code: u8) -> Option<IntegerTimestamps> {
    match code {
        0 => Some(IntegerTimestamps::Zero),
        1 => Some(IntegerTimestamps::One),
        2 => Some(IntegerTimestamps::Two),
        3 => Some(IntegerTimestamps::Three),
        _ => None,
    }
}

impl IntegerTimestamps {
    /// The numeric wire code of this tag: a total, injective, stable map.
    pub fn to_code(self) -> (code: u8)
        ensures
            code == spec_tsi_code(self),
            code <= 3,
    {
        match self {
            IntegerTimestamps::Zero => 0,
            IntegerTimestamps::One => 1,
            IntegerTimestamps::Two => 2,
            IntegerTimestamps::Three => 3,
        }
    }

    /// The tag a numeric code stands for. Succeeds exactly on codes 0
    /// through 3; any other code is rejected, never clamped or wrapped.
    pub fn from_code(code: u8) -> (r: Result<IntegerTimestamps, DecodeError>)
        ensures
            r is Ok <==> code <= 3,
            spec_tsi_of_code(code) matches Some(t) ==> r == Ok::<IntegerTimestamps, DecodeError>(t),
            spec_tsi_of_code(code) is None ==> r == Err::<IntegerTimestamps, DecodeError>(
                (DecodeError::InvalidEnumCode { field: HeaderField::Tsi, code }),
            ),
    {
        match code {
            0 => Ok(IntegerTimestamps::Zero),
            1 => Ok(IntegerTimestamps::One),
            2 => Ok(IntegerTimestamps::Two),
            3 => Ok(IntegerTimestamps::Three),
            _ => Err(DecodeError::InvalidEnumCode { field: HeaderField::Tsi, code }),
        }
    }
}

/// Law: mapping any defined tag to its code and back yields the tag.
pub proof fn lemma_tsi_code_round_trip(t: IntegerTimestamps)
    ensures
        spec_tsi_of_code(spec_tsi_code(t)) == Some(t),
{
}

/// Law: every code outside the defined set 0 through 3 maps to no tag.
pub proof fn lemma_tsi_code_rejected(code: u8)
    requires
        code > 3,
    ensures
        spec_tsi_of_code(code) is None,
{
}

/// Law: a defined code maps to a tag that maps back to the same code.
pub proof fn lemma_tsi_of_code_inverse(code: u8)
    requires
        code <= 3,
    ensures
        spec_tsi_of_code(code) matches Some(t) && spec_tsi_code(t) == code,
{
}

} // verus!
