//! The VITA Radio Transport (VRT) header object with base VITA 49.2
//! functionality of creation, serialization/deserialization, and sizing.

use vstd::prelude::*;

pub mod packet_type;
pub mod integer_timestamp;
pub mod fractional_timestamp;

use crate::{DecodeError, HeaderField};
use crate::vrt_header::packet_type::{
    PacketType,
    spec_packet_type_code,
    spec_packet_type_of_code,
    lemma_packet_type_code_round_trip,
    lemma_packet_type_code_rejected,
    lemma_packet_type_of_code_inverse,
};
use crate::vrt_header::integer_timestamp::{
    IntegerTimestamps,
    spec_tsi_code,
    spec_tsi_of_code,
    lemma_tsi_code_round_trip,
    lemma_tsi_of_code_inverse,
};
use crate::vrt_header::fractional_timestamp::{
    FractionalTimestamps,
    spec_tsf_code,
    spec_tsf_of_code,
    lemma_tsf_code_round_trip,
    lemma_tsf_of_code_inverse,
};

verus! {

/// The abstract value of a [`VrtHeader`]: its nine logical fields as plain
/// values, with no bit packing. Contracts on `VrtHeader` speak of this view.
#[verifier::ext_equal]
pub ghost struct HeaderFields {
    pub packet_type: PacketType,
    pub c_bit: bool,
    pub indicator_0: bool,
    pub indicator_1: bool,
    pub indicator_2: bool,
    pub tsi: IntegerTimestamps,
    pub tsf: FractionalTimestamps,
    pub packet_count: u8,
    pub packet_size: u16,
}

impl HeaderFields {
    /// A well-formed header keeps `packet_count` within its 4-bit field.
    /// Every `VrtHeader` reachable through this module's constructors and
    /// setters satisfies this.
    pub open spec fn wf(self) -> bool {
        self.packet_count <= 0x0F
    }
}

/// The VRT header is a 32 bit (1 word/4 bytes) header that can be found
/// on all VITA 49.2 packets. Fields are reached only through the getters
/// and setters, which keep `packet_count` within its 4-bit range.
#[derive(Clone, Copy, Debug, PartialEq, Eq, Structural)]
pub struct VrtHeader {
    packet_type: PacketType,
    c_bit: bool,
    indicator_0: bool,
    indicator_1: bool,
    indicator_2: bool,
    tsi: IntegerTimestamps,
    tsf: FractionalTimestamps,
    packet_count: u8,
    packet_size: u16,
}

impl View for VrtHeader {
    type V = HeaderFields;

    closed spec fn view(&self) -> HeaderFields {
        HeaderFields {
            packet_type: self.packet_type,
            c_bit: self.c_bit,
            indicator_0: self.indicator_0,
            indicator_1: self.indicator_1,
            indicator_2: self.indicator_2,
            tsi: self.tsi,
            tsf: self.tsf,
            packet_count: self.packet_count,
            packet_size: self.packet_size,
        }
    }
}

/// The fields of a default header: first tag of every enumeration, all bits
/// clear, count and size zero.
pub open spec fn spec_default_header() -> HeaderFields {
    HeaderFields {
        packet_type: PacketType::DataNoSid,
        c_bit: false,
        indicator_0: false,
        indicator_1: false,
        indicator_2: false,
        tsi: IntegerTimestamps::Zero,
        tsf: FractionalTimestamps::SampleCount,
        packet_count: 0,
        packet_size: 0,
    }
}

impl VrtHeader {
    /// Create a default VrtHeader.
    pub fn new() -> (vrt: VrtHeader)
        ensures
            vrt@ == spec_default_header(),
    {
        VrtHeader {
            packet_type: PacketType::DataNoSid,
            c_bit: false,
            indicator_0: false,
            indicator_1: false,
            indicator_2: false,
            tsi: IntegerTimestamps::Zero,
            tsf: FractionalTimestamps::SampleCount,
            packet_count: 0,
            packet_size: 0,
        }
    }

    /// Get the current packet type from the VrtHeader.
    pub fn get_packet_type(&self) -> (t: PacketType)
        ensures
            t == self@.packet_type,
    {
        self.packet_type
    }

    /// Get the 'C Bit' from the VrtHeader.
    pub fn get_c_bit(&self) -> (b: bool)
        ensures
            b == self@.c_bit,
    {
        self.c_bit
    }

    /// Get the Indicator 0 bit from the VrtHeader.
    pub fn get_ind_0(&self) -> (b: bool)
        ensures
            b == self@.indicator_0,
    {
        self.indicator_0
    }

    /// Get the Indicator 1 bit from the VrtHeader.
    pub fn get_ind_1(&self) -> (b: bool)
        ensures
            b == self@.indicator_1,
    {
        self.indicator_1
    }

    /// Get the Indicator 2 bit from the VrtHeader.
    pub fn get_ind_2(&self) -> (b: bool)
        ensures
            b == self@.indicator_2,
    {
        self.indicator_2
    }

    /// Get the Integer Timestamp setting from the VrtHeader.
    pub fn get_tsi(&self) -> (t: IntegerTimestamps)
        ensures
            t == self@.tsi,
    {
        self.tsi
    }

    /// Get the Fractional Timestamp setting from the VrtHeader.
    pub fn get_tsf(&self) -> (t: FractionalTimestamps)
        ensures
            t == self@.tsf,
    {
        self.tsf
    }

    /// Get the Packet Count from the VrtHeader.
    pub fn get_packet_count(&self) -> (c: u8)
        ensures
            c == self@.packet_count,
    {
        self.packet_count
    }

    /// Get the Packet Size from the VrtHeader.
    pub fn get_packet_size(&self) -> (s: u16)
        ensures
            s == self@.packet_size,
    {
        self.packet_size
    }

    /// Set the packet type of the VrtHeader.
    pub fn set_packet_type(&mut self, packet_type: PacketType)
        ensures
            final(self)@ == (HeaderFields { packet_type, ..old(self)@ }),
    {
        self.packet_type = packet_type;
    }

    /// Set the C bit of the VrtHeader.
    pub fn set_c_bit(&mut self, c_bit: bool)
        ensures
            final(self)@ == (HeaderFields { c_bit, ..old(self)@ }),
    {
        self.c_bit = c_bit;
    }

    /// Set the Indicator 0 bit of the VrtHeader.
    pub fn set_ind_0(&mut self, indicator_0: bool)
        ensures
            final(self)@ == (HeaderFields { indicator_0, ..old(self)@ }),
    {
        self.indicator_0 = indicator_0;
    }

    /// Set the Indicator 1 bit of the VrtHeader.
    pub fn set_ind_1(&mut self, indicator_1: bool)
        ensures
            final(self)@ == (HeaderFields { indicator_1, ..old(self)@ }),
    {
        self.indicator_1 = indicator_1;
    }

    /// Set the Indicator 2 bit of the VrtHeader.
    pub fn set_ind_2(&mut self, indicator_2: bool)
        ensures
            final(self)@ == (HeaderFields { indicator_2, ..old(self)@ }),
    {
        self.indicator_2 = indicator_2;
    }

    /// Set the Integer Timestamp setting of the VrtHeader.
    pub fn set_tsi(&mut self, tsi: IntegerTimestamps)
        ensures
            final(self)@ == (HeaderFields { tsi, ..old(self)@ }),
    {
        self.tsi = tsi;
    }

    /// Set the Fractional Timestamp setting of the VrtHeader.
    pub fn set_tsf(&mut self, tsf: FractionalTimestamps)
        ensures
            final(self)@ == (HeaderFields { tsf, ..old(self)@ }),
    {
        self.tsf = tsf;
    }

    /// Set the packet count of the VrtHeader. The count occupies only the
    /// low 4 bits of its byte, so the value is masked to that range here, at
    /// the mutation boundary: a value above 15 keeps only its low 4 bits.
    pub fn set_packet_count(&mut self, packet_count: u8)
        ensures
            final(self)@ == (HeaderFields { packet_count: packet_count & 0x0F, ..old(self)@ }),
            final(self)@.wf(),
    {
        proof {
            assert(packet_count & 0x0F <= 0x0F) by (bit_vector);
        }
        self.packet_count = packet_count & 0x0F;
    }

    /// Set the packet size of the VrtHeader. The full 16-bit range is legal.
    pub fn set_packet_size(&mut self, packet_size: u16)
        ensures
            final(self)@ == (HeaderFields { packet_size, ..old(self)@ }),
    {
        self.packet_size = packet_size;
    }

    /// Helper to convert a boolean to its single wire bit.
    fn bool_to_bit(value: bool) -> (bit: u8)
        ensures
            bit == spec_bool_bit(value),
    {
        match value {
            true => 1,
            false => 0,
        }
    }

    /// Helper to convert a single wire bit to a boolean.
    fn bit_to_bool(value: u8) -> (b: bool)
        ensures
            b == (value == 1),
    {
        value == 1
    }

    /// Serialize VrtHeader into a vector of bytes: exactly the 4-byte wire
    /// image [`spec_encode`] gives for this header's fields. Deterministic
    /// and infallible.
    pub fn serialize(&self) -> (buffer: Vec<u8>)
        ensures
            buffer@ == spec_encode(self@),
            buffer@.len() == 4,
    {
        let mut packet_vec: Vec<u8> = Vec::with_capacity(4);

        let mut first_byte: u8 = self.packet_type.to_code() << 4;
        first_byte = first_byte | (Self::bool_to_bit(self.c_bit) << 3);
        first_byte = first_byte | (Self::bool_to_bit(self.indicator_0) << 2);
        first_byte = first_byte | (Self::bool_to_bit(self.indicator_1) << 1);
        first_byte = first_byte | Self::bool_to_bit(self.indicator_2);

        packet_vec.push(first_byte);

        let mut second_byte: u8 = self.tsi.to_code() << 6;
        second_byte = second_byte | (self.tsf.to_code() << 4);
        second_byte = second_byte | (self.packet_count & 0x0F);

        packet_vec.push(second_byte);

        let third_byte: u8 = (self.packet_size >> 8) as u8;
        let forth_byte: u8 = (self.packet_size & 0x00FF) as u8;
        packet_vec.push(third_byte);
        packet_vec.push(forth_byte);

        proof {
            assert(packet_vec@ =~= spec_encode(self@));
        }
        packet_vec
    }

    /// Deserialize a vector of bytes into a VrtHeader. The buffer must hold
    /// at least 4 bytes, else `TruncatedInput`; only the first 4 bytes are
    /// consumed, trailing bytes belong to the caller's framing. A packet
    /// type nibble with no defined tag is `InvalidEnumCode`; on any failure
    /// no header is returned at all.
    pub fn deserialize(buffer: Vec<u8>) -> (r: Result<VrtHeader, DecodeError>)
        ensures
            r is Ok <==> spec_parse_ok(buffer@),
            spec_parse_ok(buffer@) ==> (r matches Ok(vrt) && vrt@ == spec_parse(buffer@)),
            buffer@.len() < 4 ==> r == Err::<VrtHeader, DecodeError>(DecodeError::TruncatedInput),
            buffer@.len() >= 4 && !spec_parse_ok(buffer@) ==> r == Err::<VrtHeader, DecodeError>(
                (DecodeError::InvalidEnumCode {
                    field: HeaderField::PacketType,
                    code: (buffer@[0] >> 4) & 0x0F,
                }),
            ),
            r matches Ok(vrt) ==> vrt@.wf(),
    {
        if buffer.len() < 4 {
            return Err(DecodeError::TruncatedInput);
        }

        let first_byte: u8 = buffer[0];
        let packet_type = match PacketType::from_code((first_byte >> 4) & 0x0F) {
            Ok(t) => t,
            Err(e) => {
                return Err(e);
            },
        };
        let c_bit = Self::bit_to_bool((first_byte >> 3) & 0x01);
        let indicator_0 = Self::bit_to_bool((first_byte >> 2) & 0x01);
        let indicator_1 = Self::bit_to_bool((first_byte >> 1) & 0x01);
        let indicator_2 = Self::bit_to_bool(first_byte & 0x01);

        let second_byte: u8 = buffer[1];
        proof {
            assert((second_byte >> 6) & 0x03 <= 3 && (second_byte >> 4) & 0x03 <= 3)
                by (bit_vector);
        }
        let tsi = match IntegerTimestamps::from_code((second_byte >> 6) & 0x03) {
            Ok(t) => t,
            Err(e) => {
                return Err(e);
            },
        };
        let tsf = match FractionalTimestamps::from_code((second_byte >> 4) & 0x03) {
            Ok(t) => t,
            Err(e) => {
                return Err(e);
            },
        };
        let packet_count = second_byte & 0x0F;
        proof {
            assert(second_byte & 0x0F <= 0x0F) by (bit_vector);
        }

        let third_byte: u8 = buffer[2];
        let forth_byte: u8 = buffer[3];
        let packet_size = ((third_byte as u16) << 8) | (forth_byte as u16);

        Ok(VrtHeader {
            packet_type,
            c_bit,
            indicator_0,
            indicator_1,
            indicator_2,
            tsi,
            tsf,
            packet_count,
            packet_size,
        })
    }

    /// Get the size of the VrtHeader in bytes, this will
    /// be the constant value of 4.
    pub fn get_num_bytes(&self) -> (n: usize)
        ensures
            n == 4,
    {
        let num_bytes: usize = 4;
        num_bytes
    }
}

/// The single wire bit a boolean occupies: 1 for true, 0 for false.
pub open spec fn spec_bool_bit(b: bool) -> u8 {
    if b {
        1
    } else {
        0
    }
}

/// Byte 0 of the wire image: the packet type code in the high nibble, then
/// the C bit and the three indicator bits down to the least significant bit.
pub open spec fn spec_byte0(h: HeaderFields) -> u8 {
    (spec_packet_type_code(h.packet_type) << 4) | (spec_bool_bit(h.c_bit) << 3)
        | (spec_bool_bit(h.indicator_0) << 2) | (spec_bool_bit(h.indicator_1) << 1)
        | spec_bool_bit(h.indicator_2)
}

/// Byte 1 of the wire image: the integer timestamp code in bits 7-6, the
/// fractional timestamp code in bits 5-4, the packet count in the low nibble.
pub open spec fn spec_byte1(h: HeaderFields) -> u8 {
    (spec_tsi_code(h.tsi) << 6) | (spec_tsf_code(h.tsf) << 4) | (h.packet_count & 0x0F)
}

/// The exact 4-byte wire image of a header: bytes 0 and 1 bit-packed, then
/// the packet size as a big-endian 16-bit integer.
pub open spec fn spec_encode(h: HeaderFields) -> Seq<u8> {
    seq![
        spec_byte0(h),
        spec_byte1(h),
        (h.packet_size >> 8) as u8,
        (h.packet_size & 0x00FF) as u8,
    ]
}

/// Whether a buffer decodes to a header: it holds at least 4 bytes and its
/// packet type nibble is a defined code. Nothing else can fail: the two
/// timestamp fields are 2 bits wide and every 2-bit code is defined.
pub open spec fn spec_parse_ok(b: Seq<u8>) -> bool {
    b.len() >= 4 && spec_packet_type_of_code((b[0] >> 4) & 0x0F) is Some
}

/// The header fields read from the first 4 bytes of a buffer. Meaningful
/// when [`spec_parse_ok`] holds of the buffer.
pub open spec fn spec_parse(b: Seq<u8>) -> HeaderFields {
    HeaderFields {
        packet_type: spec_packet_type_of_code((b[0] >> 4) & 0x0F)->Some_0,
        c_bit: (b[0] >> 3) & 0x01 == 1,
        indicator_0: (b[0] >> 2) & 0x01 == 1,
        indicator_1: (b[0] >> 1) & 0x01 == 1,
        indicator_2: b[0] & 0x01 == 1,
        tsi: spec_tsi_of_code((b[1] >> 6) & 0x03)->Some_0,
        tsf: spec_tsf_of_code((b[1] >> 4) & 0x03)->Some_0,
        packet_count: b[1] & 0x0F,
        packet_size: ((b[2] as u16) << 8) | (b[3] as u16),
    }
}

/// Law: encoding is lossless. Decoding the 4-byte wire image of any
/// well-formed header succeeds and yields the header's fields back, so
/// `deserialize(h.serialize())` returns exactly `h`.
pub proof fn lemma_encode_parse_round_trip(h: HeaderFields)
    requires
        h.wf(),
    ensures
        spec_encode(h).len() == 4,
        spec_parse_ok(spec_encode(h)),
        spec_parse(spec_encode(h)) == h,
{
    let pt = spec_packet_type_code(h.packet_type);
    let cb = spec_bool_bit(h.c_bit);
    let i0 = spec_bool_bit(h.indicator_0);
    let i1 = spec_bool_bit(h.indicator_1);
    let i2 = spec_bool_bit(h.indicator_2);
    let b0 = spec_byte0(h);
    assert(b0 == (pt << 4) | (cb << 3) | (i0 << 2) | (i1 << 1) | i2);
    assert(pt <= 7 && cb <= 1 && i0 <= 1 && i1 <= 1 && i2 <= 1);
    assert((b0 >> 4) & 0x0F == pt && (b0 >> 3) & 0x01 == cb && (b0 >> 2) & 0x01 == i0 && (b0 >> 1)
        & 0x01 == i1 && b0 & 0x01 == i2) by (bit_vector)
        requires
            b0 == (pt << 4) | (cb << 3) | (i0 << 2) | (i1 << 1) | i2,
            pt <= 7,
            cb <= 1,
            i0 <= 1,
            i1 <= 1,
            i2 <= 1,
    ;
    lemma_packet_type_code_round_trip(h.packet_type);

    let ti = spec_tsi_code(h.tsi);
    let tf = spec_tsf_code(h.tsf);
    let pc = h.packet_count;
    let b1 = spec_byte1(h);
    assert(b1 == (ti << 6) | (tf << 4) | (pc & 0x0F));
    assert(ti <= 3 && tf <= 3 && pc <= 0x0F);
    assert((b1 >> 6) & 0x03 == ti && (b1 >> 4) & 0x03 == tf && b1 & 0x0F == pc) by (bit_vector)
        requires
            b1 == (ti << 6) | (tf << 4) | (pc & 0x0F),
            ti <= 3,
            tf <= 3,
            pc <= 0x0F,
    ;
    lemma_tsi_code_round_trip(h.tsi);
    lemma_tsf_code_round_trip(h.tsf);

    let ps = h.packet_size;
    assert(((((ps >> 8) as u8) as u16) << 8) | (((ps & 0x00FF) as u8) as u16) == ps)
        by (bit_vector);

    assert(spec_parse(spec_encode(h)) =~= h);
}

/// Law: decoding is lossless. Re-encoding the header decoded from any
/// 4-byte buffer that decodes successfully yields the buffer back, so
/// `deserialize(b).unwrap().serialize()` returns exactly `b`.
pub proof fn lemma_parse_encode_round_trip(b: Seq<u8>)
    requires
        b.len() == 4,
        spec_parse_ok(b),
    ensures
        spec_parse(b).wf(),
        spec_encode(spec_parse(b)) == b,
{
    let b0 = b[0];
    let b1 = b[1];
    let b2 = b[2];
    let b3 = b[3];
    let h = spec_parse(b);

    assert((b0 >> 4) & 0x0F <= 7 ==> spec_packet_type_code(
        spec_packet_type_of_code((b0 >> 4) & 0x0F)->Some_0,
    ) == (b0 >> 4) & 0x0F) by {
        if (b0 >> 4) & 0x0F <= 7 {
            lemma_packet_type_of_code_inverse((b0 >> 4) & 0x0F);
        }
    };
    assert((b0 >> 4) & 0x0F <= 0x0F && (b0 >> 3) & 0x01 <= 1 && (b0 >> 2) & 0x01 <= 1 && (b0 >> 1)
        & 0x01 <= 1 && b0 & 0x01 <= 1) by (bit_vector);
    assert((b0 >> 4) & 0x0F <= 7) by {
        if (b0 >> 4) & 0x0F > 7 {
            lemma_packet_type_code_rejected((b0 >> 4) & 0x0F);
        }
    };
    assert(spec_packet_type_code(h.packet_type) == (b0 >> 4) & 0x0F);
    assert(spec_bool_bit(h.c_bit) == (b0 >> 3) & 0x01);
    assert(spec_bool_bit(h.indicator_0) == (b0 >> 2) & 0x01);
    assert(spec_bool_bit(h.indicator_1) == (b0 >> 1) & 0x01);
    assert(spec_bool_bit(h.indicator_2) == b0 & 0x01);
    assert((((b0 >> 4) & 0x0F) << 4) | (((b0 >> 3) & 0x01) << 3) | (((b0 >> 2) & 0x01) << 2) | (((
    b0 >> 1) & 0x01) << 1) | (b0 & 0x01) == b0) by (bit_vector);
    assert(spec_byte0(h) == b0);

    assert((b1 >> 6) & 0x03 <= 3 && (b1 >> 4) & 0x03 <= 3 && b1 & 0x0F <= 0x0F) by (bit_vector);
    lemma_tsi_of_code_inverse((b1 >> 6) & 0x03);
    lemma_tsf_of_code_inverse((b1 >> 4) & 0x03);
    assert(spec_tsi_code(h.tsi) == (b1 >> 6) & 0x03);
    assert(spec_tsf_code(h.tsf) == (b1 >> 4) & 0x03);
    assert((((b1 >> 6) & 0x03) << 6) | (((b1 >> 4) & 0x03) << 4) | ((b1 & 0x0F) & 0x0F) == b1)
        by (bit_vector);
    assert(spec_byte1(h) == b1);

    let ps = h.packet_size;
    assert(ps == ((b2 as u16) << 8) | (b3 as u16));
    assert(((((b2 as u16) << 8) | (b3 as u16)) >> 8) as u8 == b2 && ((((b2 as u16) << 8) | (
    b3 as u16)) & 0x00FF) as u8 == b3) by (bit_vector);

    assert(spec_encode(spec_parse(b)) =~= b);
}

} // verus!
