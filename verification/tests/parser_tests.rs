use symphonia_adapters::meta::{
    aac_sample_rate, is_error_resilient, is_general_audio, m4a_type_index, m4a_type_of,
    sample_rate_index, M4AInfo, M4AType,
};
use symphonia_adapters::AdapterError;

fn blank() -> M4AInfo {
    M4AInfo {
        otype: M4AType::Null,
        sample_rate: 0,
        sample_rate_index: 0,
        channels: 0,
        samples: 0,
    }
}

#[test]
fn sample_rate_table_round_trip() {
    let rates = [
        96000u32, 88200, 64000, 48000, 44100, 32000, 24000, 22050, 16000, 12000, 11025, 8000, 7350,
    ];
    for (i, r) in rates.iter().enumerate() {
        assert_eq!(aac_sample_rate(i as u32), *r);
        assert_eq!(sample_rate_index(*r) as usize, i);
    }
    // Reserved positions hold rate zero; every rate without a table
    // entry, zero included, maps to 15, the explicit/unmapped marker.
    for i in 13u32..16 {
        assert_eq!(aac_sample_rate(i), 0);
    }
    assert_eq!(sample_rate_index(0), 15);
    assert_eq!(sample_rate_index(1), 15);
    assert_eq!(sample_rate_index(1234), 15);
}

#[test]
fn object_type_table_lookup() {
    assert_eq!(m4a_type_of(0), M4AType::Null);
    assert_eq!(m4a_type_of(2), M4AType::Lc);
    assert_eq!(m4a_type_of(5), M4AType::Sbr);
    assert_eq!(m4a_type_of(10), M4AType::Reserved);
    assert_eq!(m4a_type_of(31), M4AType::Reserved);
    assert_eq!(m4a_type_of(41), M4AType::SMRMain);
    assert_eq!(m4a_type_of(42), M4AType::Unknown);
    assert_eq!(m4a_type_of(95), M4AType::Unknown);
}

#[test]
fn object_type_index_positions() {
    assert_eq!(m4a_type_index(M4AType::Null), 0);
    assert_eq!(m4a_type_index(M4AType::Lc), 2);
    assert_eq!(m4a_type_index(M4AType::Ltp), 4);
    assert_eq!(m4a_type_index(M4AType::Unknown), 39);
}

#[test]
fn object_type_families() {
    assert!(is_general_audio(M4AType::Lc));
    assert!(is_general_audio(M4AType::ER_BSAC));
    assert!(!is_general_audio(M4AType::Layer3));
    assert!(is_error_resilient(M4AType::ER_AAC_LD));
    assert!(!is_error_resilient(M4AType::Lc));
}

#[test]
fn parse_lc_44100_stereo_long_frame() {
    // 5-bit type 2 (LC), 4-bit rate index 4 (44100), 4-bit channel
    // config 2, then a zeroed GASpecificConfig.
    let mut info = blank();
    assert!(info.read(&[0x12, 0x10]).is_ok());
    assert_eq!(info.otype, M4AType::Lc);
    assert_eq!(info.sample_rate, 44100);
    assert_eq!(info.sample_rate_index, 4);
    assert_eq!(info.channels, 2);
    assert_eq!(info.samples, 1024);
}

#[test]
fn parse_short_frame_flag() {
    // Same configuration with the frame-length flag set: 960 samples.
    let mut info = blank();
    assert!(info.read(&[0x12, 0x14]).is_ok());
    assert_eq!(info.samples, 960);
}

#[test]
fn parse_one_byte_blob_fails() {
    let mut info = blank();
    assert_eq!(info.read(&[0x12]), Err(AdapterError::ConfigParseError));
}

#[test]
fn parse_empty_blob_fails() {
    let mut info = blank();
    assert_eq!(info.read(&[]), Err(AdapterError::ConfigParseError));
}

#[test]
fn parse_reserved_rate_index_fails() {
    // Type LC, then rate index 13, a reserved zero entry.
    let mut info = blank();
    assert_eq!(info.read(&[0x16, 0x80]), Err(AdapterError::ConfigParseError));
}

#[test]
fn parse_explicit_24_bit_rate() {
    // Type LC, rate escape 15, explicit 24-bit rate 44100, channel
    // config 2, zeroed GASpecificConfig.
    let mut info = blank();
    assert!(info.read(&[0x17, 0x80, 0x56, 0x22, 0x10]).is_ok());
    assert_eq!(info.otype, M4AType::Lc);
    assert_eq!(info.sample_rate, 44100);
    assert_eq!(info.sample_rate_index, 4);
    assert_eq!(info.channels, 2);
    assert_eq!(info.samples, 1024);
}

#[test]
fn parse_escaped_object_type() {
    // 5-bit escape 31, 6-bit value 2: type index 34, a layer type that
    // carries no GASpecificConfig and keeps the long frame.
    let mut info = blank();
    assert!(info.read(&[0xF8, 0x48, 0x40]).is_ok());
    assert_eq!(info.otype, M4AType::Layer3);
    assert_eq!(info.sample_rate, 44100);
    assert_eq!(info.channels, 2);
    assert_eq!(info.samples, 1024);
}

#[test]
fn parse_raw_channel_index() {
    // A channel index past the table (9) is used as the raw count.
    let mut info = blank();
    assert!(info.read(&[0x12, 0x48]).is_ok());
    assert_eq!(info.channels, 9);
}

#[test]
fn parse_truncated_mid_field_fails() {
    // Type LC and rate index 15 announce a 24-bit explicit rate, but the
    // blob ends after one more byte.
    let mut info = blank();
    assert_eq!(info.read(&[0x17, 0x80]), Err(AdapterError::ConfigParseError));
}

#[test]
fn parse_explicit_unmapped_rate_gets_index_15() {
    // Type LC, rate escape 15, explicit 24-bit rate 12345 (no table
    // entry), channel config 2, zeroed GASpecificConfig.
    let mut info = blank();
    assert!(info.read(&[0x17, 0x80, 0x18, 0x1C, 0x90]).is_ok());
    assert_eq!(info.sample_rate, 12345);
    assert_eq!(info.sample_rate_index, 15);
    assert_eq!(info.channels, 2);
    assert_eq!(info.samples, 1024);
}
