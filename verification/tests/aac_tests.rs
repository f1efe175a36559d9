use symphonia_adapters::aac::{profile_type, AacAdapter};
use symphonia_adapters::adts::construct_adts_header;
use symphonia_adapters::meta::M4AType;
use symphonia_adapters::AdapterError;

fn blob_lc_44100_stereo() -> Vec<u8> {
    vec![0x12, 0x10]
}

#[test]
fn try_new_parses_the_blob() {
    let blob = blob_lc_44100_stereo();
    let a = AacAdapter::try_new(Some(&blob), None, None).unwrap();
    assert_eq!(a.m4a_info.otype, M4AType::Lc);
    assert_eq!(a.m4a_info.sample_rate, 44100);
    assert_eq!(a.m4a_info.sample_rate_index, 4);
    assert_eq!(a.m4a_info.channels, 2);
    assert_eq!(a.m4a_info.samples, 1024);
    assert!(!a.m4a_info_validated);
    assert_eq!(a.buf.frames, 0);
    assert_eq!(a.buf.capacity, 1024);
}

#[test]
fn try_new_one_byte_blob_is_a_parse_error() {
    let blob = vec![0x12];
    assert_eq!(
        AacAdapter::try_new(Some(&blob), None, None).err(),
        Some(AdapterError::ConfigParseError)
    );
}

#[test]
fn try_new_without_blob_needs_channels() {
    assert_eq!(
        AacAdapter::try_new(None, Some(44100), None).err(),
        Some(AdapterError::UnsupportedConfiguration)
    );
}

#[test]
fn try_new_without_blob_needs_a_sample_rate() {
    assert_eq!(
        AacAdapter::try_new(None, None, Some(2)).err(),
        Some(AdapterError::UnsupportedConfiguration)
    );
}

#[test]
fn try_new_hints_default_to_low_complexity() {
    let a = AacAdapter::try_new(None, Some(22050), Some(1)).unwrap();
    assert_eq!(a.m4a_info.otype, M4AType::Lc);
    assert_eq!(a.m4a_info.sample_rate, 22050);
    assert_eq!(a.m4a_info.sample_rate_index, 7);
    assert_eq!(a.m4a_info.channels, 1);
    assert!(!a.m4a_info_validated);
}

#[test]
fn try_new_rejects_unsupported_channel_counts() {
    // A parsed raw channel index of 9 is outside the supported 1..=2.
    let blob = vec![0x12, 0x48];
    assert_eq!(
        AacAdapter::try_new(Some(&blob), None, None).err(),
        Some(AdapterError::UnsupportedConfiguration)
    );
}

#[test]
fn profile_type_coerces_outside_the_profile_field() {
    assert_eq!(profile_type(M4AType::Main), M4AType::Main);
    assert_eq!(profile_type(M4AType::Lc), M4AType::Lc);
    assert_eq!(profile_type(M4AType::Ltp), M4AType::Ltp);
    assert_eq!(profile_type(M4AType::Sbr), M4AType::Lc);
    assert_eq!(profile_type(M4AType::PS), M4AType::Lc);
    assert_eq!(profile_type(M4AType::Unknown), M4AType::Lc);
}

#[test]
fn validation_replaces_the_configuration() {
    let blob = blob_lc_44100_stereo();
    let mut a = AacAdapter::try_new(Some(&blob), None, None).unwrap();
    // The engine reports mono at 22.05 kHz with 1024-sample frames.
    a.configure_metadata(2, 22050, 22050, 1, 1024).unwrap();
    assert!(a.m4a_info_validated);
    assert_eq!(a.m4a_info.otype, M4AType::Lc);
    assert_eq!(a.m4a_info.sample_rate, 22050);
    assert_eq!(a.m4a_info.sample_rate_index, 7);
    assert_eq!(a.m4a_info.channels, 1);
    assert_eq!(a.m4a_info.samples, 1024);
    assert_eq!(a.buf.channels, 1);
    assert_eq!(a.buf.capacity, 1024);
    assert_eq!(a.buf.sample_rate, 22050);
}

#[test]
fn validation_rejects_unsupported_reported_channels() {
    let blob = blob_lc_44100_stereo();
    let mut a = AacAdapter::try_new(Some(&blob), None, None).unwrap();
    let info = a.m4a_info;
    assert_eq!(
        a.configure_metadata(2, 44100, 44100, 6, 6144),
        Err(AdapterError::UnsupportedConfiguration)
    );
    // The whole adapter stands as it was, so further calls stay possible.
    assert!(!a.m4a_info_validated);
    assert_eq!(a.m4a_info, info);
    assert_eq!(a.buf.capacity, 1024);
    assert_eq!(a.buf.channels, 2);
}

#[test]
fn frame_packet_is_header_then_payload() {
    let blob = blob_lc_44100_stereo();
    let a = AacAdapter::try_new(Some(&blob), None, None).unwrap();
    let payload = [0x01u8, 0x02, 0x03];
    let frame = a.frame_packet(&payload);
    let mut expected = construct_adts_header(M4AType::Lc, 4, 2, 3);
    expected.extend_from_slice(&payload);
    assert_eq!(frame, expected);
}

#[test]
fn render_frame_deinterleaves_into_planes() {
    let blob = blob_lc_44100_stereo();
    let mut a = AacAdapter::try_new(Some(&blob), None, None).unwrap();
    a.configure_metadata(2, 44100, 44100, 2, 2048).unwrap();
    for (i, s) in a.pcm.iter_mut().enumerate() {
        *s = i as i16;
    }
    a.render_frame(2048, 0, 0).unwrap();
    assert_eq!(a.buf.frames, 1024);
    assert_eq!(a.buf.left[0], 0);
    assert_eq!(a.buf.right[0], 1);
    assert_eq!(a.buf.left[1023], 2046);
    assert_eq!(a.buf.right[1023], 2047);
}

#[test]
fn render_frame_applies_the_packet_trim() {
    let blob = blob_lc_44100_stereo();
    let mut a = AacAdapter::try_new(Some(&blob), None, None).unwrap();
    a.configure_metadata(2, 44100, 44100, 2, 2048).unwrap();
    for (i, s) in a.pcm.iter_mut().enumerate() {
        *s = i as i16;
    }
    a.render_frame(2048, 3, 5).unwrap();
    assert_eq!(a.buf.frames, 1024 - 3 - 5);
    assert_eq!(a.buf.left[0], 6);
    assert_eq!(a.buf.right[0], 7);
}

#[test]
fn render_frame_rejects_a_mismatched_total() {
    let blob = blob_lc_44100_stereo();
    let mut a = AacAdapter::try_new(Some(&blob), None, None).unwrap();
    a.configure_metadata(2, 44100, 44100, 2, 2048).unwrap();
    assert_eq!(
        a.render_frame(1000, 0, 0),
        Err(AdapterError::EngineFatalError)
    );
    assert_eq!(
        a.render_frame(100000, 0, 0),
        Err(AdapterError::EngineFatalError)
    );
}

#[test]
fn transport_sync_failure_empties_the_buffer_only() {
    let blob = blob_lc_44100_stereo();
    let mut a = AacAdapter::try_new(Some(&blob), None, None).unwrap();
    a.configure_metadata(2, 44100, 44100, 2, 2048).unwrap();
    for (i, s) in a.pcm.iter_mut().enumerate() {
        *s = i as i16;
    }
    a.render_frame(2048, 0, 0).unwrap();
    assert_eq!(a.buf.frames, 1024);
    let info = a.m4a_info;
    a.handle_transport_sync();
    assert_eq!(a.buf.frames, 0);
    assert!(a.m4a_info_validated);
    assert_eq!(a.m4a_info, info);
    assert_eq!(a.buf.capacity, 1024);
    // The next frame proceeds normally.
    a.render_frame(2048, 0, 0).unwrap();
    assert_eq!(a.buf.frames, 1024);
}

#[test]
fn headers_follow_the_current_configuration() {
    // First packet: the header comes from the blob-derived configuration;
    // after validation it comes from the engine-reported one, and the
    // buffer shape changes exactly because the reported values differ.
    let blob = blob_lc_44100_stereo();
    let mut a = AacAdapter::try_new(Some(&blob), None, None).unwrap();
    let h1 = construct_adts_header(
        profile_type(a.m4a_info.otype),
        a.m4a_info.sample_rate_index,
        a.m4a_info.channels,
        10,
    );
    assert_eq!((h1[2] >> 2) & 0xF, 4);
    assert_eq!(((h1[2] & 1) << 2) | (h1[3] >> 6), 2);

    let shape_before = (a.buf.sample_rate, a.buf.channels, a.buf.capacity);
    a.configure_metadata(2, 22050, 22050, 1, 1024).unwrap();
    let h2 = construct_adts_header(
        profile_type(a.m4a_info.otype),
        a.m4a_info.sample_rate_index,
        a.m4a_info.channels,
        10,
    );
    assert_eq!((h2[2] >> 2) & 0xF, 7);
    assert_eq!(((h2[2] & 1) << 2) | (h2[3] >> 6), 1);
    let shape_after = (a.buf.sample_rate, a.buf.channels, a.buf.capacity);
    assert_ne!(shape_before, shape_after);
}

#[test]
fn validation_with_identical_values_keeps_the_shape() {
    let blob = blob_lc_44100_stereo();
    let mut a = AacAdapter::try_new(Some(&blob), None, None).unwrap();
    let shape_before = (a.buf.sample_rate, a.buf.channels, a.buf.capacity);
    a.configure_metadata(2, 44100, 44100, 2, 2048).unwrap();
    let shape_after = (a.buf.sample_rate, a.buf.channels, a.buf.capacity);
    assert_eq!(shape_before, shape_after);
}

#[test]
fn unknown_reported_object_types_fall_back() {
    let blob = blob_lc_44100_stereo();
    let mut a = AacAdapter::try_new(Some(&blob), None, None).unwrap();
    a.configure_metadata(77, 44100, 44100, 2, 2048).unwrap();
    assert_eq!(a.m4a_info.otype, M4AType::Unknown);
    a.configure_metadata(-1, 44100, 44100, 2, 2048).unwrap();
    assert_eq!(a.m4a_info.otype, M4AType::Unknown);
}

#[test]
fn decode_of_garbage_does_not_panic() {
    // The real engine sees a synthesized ADTS header followed by noise;
    // whatever it reports, the adapter returns a value instead of
    // panicking.
    let blob = blob_lc_44100_stereo();
    let mut a = AacAdapter::try_new(Some(&blob), None, None).unwrap();
    let packet = vec![0xAB; 64];
    let _ = a.decode(&packet, 0, 0);
}
