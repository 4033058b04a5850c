use vrt::vrt_header::VrtHeader;
use vrt::vrt_header::packet_type::PacketType;
use vrt::vrt_header::integer_timestamp::IntegerTimestamps;
use vrt::vrt_header::fractional_timestamp::FractionalTimestamps;

#[test]
fn mod_object_creation() {
    let vrt: VrtHeader = VrtHeader::new();

    assert_eq!(vrt.get_packet_type(), PacketType::DataNoSid);
    assert_eq!(vrt.get_c_bit(), false);
    assert_eq!(vrt.get_ind_0(), false);
    assert_eq!(vrt.get_ind_1(), false);
    assert_eq!(vrt.get_ind_2(), false);
    assert_eq!(vrt.get_tsi(), IntegerTimestamps::Zero);
    assert_eq!(vrt.get_tsf(), FractionalTimestamps::SampleCount);
    assert_eq!(vrt.get_packet_count(), 0);
    assert_eq!(vrt.get_packet_size(), 0);
}

#[test]
fn empty_packetization() {
    let vrt: VrtHeader = VrtHeader::new();
    let empty_header: Vec<u8> = vrt.serialize();

    assert_ne!(empty_header.is_empty(), true);
    assert_eq!(empty_header.len(), 4);

    for byte in empty_header {
        assert_eq!(byte, 0);
    }
}

#[test]
fn mod_get_num_bytes() {
    let vrt: VrtHeader = VrtHeader::new();

    assert_eq!(vrt.get_num_bytes(), 4);
}

#[test]
fn empty_parse() {
    let mut buffer: Vec<u8> = Vec::with_capacity(4);
    buffer.push(0);
    buffer.push(0);
    buffer.push(0);
    buffer.push(0);

    let vrt: VrtHeader = VrtHeader::deserialize(buffer).unwrap();

    assert_eq!(vrt.get_packet_type(), PacketType::DataNoSid);
    assert_eq!(vrt.get_c_bit(), false);
    assert_eq!(vrt.get_ind_0(), false);
    assert_eq!(vrt.get_ind_1(), false);
    assert_eq!(vrt.get_ind_2(), false);
    assert_eq!(vrt.get_tsi(), IntegerTimestamps::Zero);
    assert_eq!(vrt.get_tsf(), FractionalTimestamps::SampleCount);
    assert_eq!(vrt.get_packet_count(), 0);
    assert_eq!(vrt.get_packet_size(), 0);
}

#[test]
fn parse() {
    let mut buffer: Vec<u8> = Vec::with_capacity(4);
    buffer.push(0x1A);
    buffer.push(0x70);
    buffer.push(0x08);
    buffer.push(0x0);

    let vrt: VrtHeader = VrtHeader::deserialize(buffer).unwrap();

    assert_eq!(vrt.get_packet_type(), PacketType::DataSid);
    assert_eq!(vrt.get_c_bit(), true);
    assert_eq!(vrt.get_ind_0(), false);
    assert_eq!(vrt.get_ind_1(), true);
    assert_eq!(vrt.get_ind_2(), false);
    assert_eq!(vrt.get_tsi(), IntegerTimestamps::One);
    assert_eq!(vrt.get_tsf(), FractionalTimestamps::Other);
    assert_eq!(vrt.get_packet_count(), 0);
    assert_eq!(vrt.get_packet_size(), 2048);
}

#[test]
fn mod_packet_type() {
    let mut vrt: VrtHeader = VrtHeader::new();
    assert_eq!(vrt.get_packet_type(), PacketType::DataNoSid);

    vrt.set_packet_type(PacketType::Context);
    assert_eq!(vrt.get_packet_type(), PacketType::Context);
}

#[test]
fn mod_c_bit() {
    let mut vrt: VrtHeader = VrtHeader::new();
    assert_eq!(vrt.get_c_bit(), false);

    vrt.set_c_bit(true);
    assert_eq!(vrt.get_c_bit(), true);
}

#[test]
fn mod_indicator_0() {
    let mut vrt: VrtHeader = VrtHeader::new();
    assert_eq!(vrt.get_ind_0(), false);

    vrt.set_ind_0(true);
    assert_eq!(vrt.get_ind_0(), true);
}

#[test]
fn mod_indicator_1() {
    let mut vrt: VrtHeader = VrtHeader::new();
    assert_eq!(vrt.get_ind_1(), false);

    vrt.set_ind_1(true);
    assert_eq!(vrt.get_ind_1(), true);
}

#[test]
fn mod_indicator_2() {
    let mut vrt: VrtHeader = VrtHeader::new();
    assert_eq!(vrt.get_ind_2(), false);

    vrt.set_ind_2(true);
    assert_eq!(vrt.get_ind_2(), true);
}

#[test]
fn mod_tsi() {
    let mut vrt: VrtHeader = VrtHeader::new();
    assert_eq!(vrt.get_tsi(), IntegerTimestamps::Zero);

    vrt.set_tsi(IntegerTimestamps::Two);
    assert_eq!(vrt.get_tsi(), IntegerTimestamps::Two);
}

#[test]
fn mod_tsf() {
    let mut vrt: VrtHeader = VrtHeader::new();
    assert_eq!(vrt.get_tsf(), FractionalTimestamps::SampleCount);

    vrt.set_tsf(FractionalTimestamps::RealTimePico);
    assert_eq!(vrt.get_tsf(), FractionalTimestamps::RealTimePico);
}

#[test]
fn mod_packet_count() {
    let mut vrt: VrtHeader = VrtHeader::new();
    assert_eq!(vrt.get_packet_count(), 0);

    vrt.set_packet_count(5);
    assert_eq!(vrt.get_packet_count(), 5);
}

#[test]
fn mod_packet_size() {
    let mut vrt: VrtHeader = VrtHeader::new();
    assert_eq!(vrt.get_packet_size(), 0);

    vrt.set_packet_size(35000);
    assert_eq!(vrt.get_packet_size(), 35000);
}
