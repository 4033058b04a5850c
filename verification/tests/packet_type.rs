use vrt::vrt_header::packet_type::PacketType;

#[test]
fn packet_type_to_u8() {
    assert_eq!(PacketType::DataNoSid as u8, 0);
    assert_eq!(PacketType::DataSid as u8, 1);
    assert_eq!(PacketType::ExtDataNoSid as u8, 2);
    assert_eq!(PacketType::ExtDataSid as u8, 3);
    assert_eq!(PacketType::Context as u8, 4);
    assert_eq!(PacketType::ExtContext as u8, 5);
    assert_eq!(PacketType::Control as u8, 6);
    assert_eq!(PacketType::ExtControl as u8, 7);
}

#[test]
fn packet_type_from_u8() {
    assert_eq!(PacketType::from_code(0), Ok(PacketType::DataNoSid));
    assert_eq!(PacketType::from_code(1), Ok(PacketType::DataSid));
    assert_eq!(PacketType::from_code(2), Ok(PacketType::ExtDataNoSid));
    assert_eq!(PacketType::from_code(3), Ok(PacketType::ExtDataSid));
    assert_eq!(PacketType::from_code(4), Ok(PacketType::Context));
    assert_eq!(PacketType::from_code(5), Ok(PacketType::ExtContext));
    assert_eq!(PacketType::from_code(6), Ok(PacketType::Control));
    assert_eq!(PacketType::from_code(7), Ok(PacketType::ExtControl));
}
