use vrt::vrt_header::fractional_timestamp::FractionalTimestamps;

#[test]
fn fractional_timestamp_tsf_to_u8() {
    assert_eq!(FractionalTimestamps::SampleCount as u8, 0);
    assert_eq!(FractionalTimestamps::RealTimePico as u8, 1);
    assert_eq!(FractionalTimestamps::FreeRunning as u8, 2);
    assert_eq!(FractionalTimestamps::Other as u8, 3);
}

#[test]
fn fractional_timestamp_tsf_from_u8() {
    assert_eq!(FractionalTimestamps::from_code(0), Ok(FractionalTimestamps::SampleCount));
    assert_eq!(FractionalTimestamps::from_code(1), Ok(FractionalTimestamps::RealTimePico));
    assert_eq!(FractionalTimestamps::from_code(2), Ok(FractionalTimestamps::FreeRunning));
    assert_eq!(FractionalTimestamps::from_code(3), Ok(FractionalTimestamps::Other));
}
