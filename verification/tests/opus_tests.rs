use symphonia_adapters::opus::{
    classify_status, error_code_to_str, parse_pre_skip, EngineStatus, OpusAdapter,
    DEFAULT_SAMPLES_PER_CHANNEL, OPUS_ALLOC_FAIL, OPUS_INTERNAL_ERROR, OPUS_INVALID_PACKET,
};
use symphonia_adapters::AdapterError;

fn opus_head(pre_skip: u16) -> Vec<u8> {
    let mut v = b"OpusHead".to_vec();
    v.push(1); // version
    v.push(2); // channels
    v.push((pre_skip & 0xFF) as u8);
    v.push((pre_skip >> 8) as u8);
    v
}

#[test]
fn classify_known_codes() {
    assert_eq!(classify_status(0), EngineStatus::Succeeded);
    assert_eq!(classify_status(960), EngineStatus::Succeeded);
    assert_eq!(classify_status(-1), EngineStatus::BadArgument);
    assert_eq!(classify_status(-2), EngineStatus::BufferTooSmall);
    assert_eq!(classify_status(-3), EngineStatus::InternalError);
    assert_eq!(classify_status(-4), EngineStatus::InvalidPacket);
    assert_eq!(classify_status(-5), EngineStatus::Unimplemented);
    assert_eq!(classify_status(-6), EngineStatus::InvalidState);
    assert_eq!(classify_status(-7), EngineStatus::AllocationFailure);
    assert_eq!(classify_status(-42), EngineStatus::InternalError);
}

#[test]
fn error_strings_match_the_native_descriptions() {
    assert_eq!(
        error_code_to_str(-1),
        "One or more invalid/out of range arguments."
    );
    assert_eq!(
        error_code_to_str(-4),
        "The compressed data passed is corrupted."
    );
    assert_eq!(error_code_to_str(12), "");
}

#[test]
fn pre_skip_parses_little_endian() {
    assert_eq!(parse_pre_skip(&opus_head(312)), Ok(312));
    assert_eq!(parse_pre_skip(&opus_head(0x1234)), Ok(0x1234));
}

#[test]
fn pre_skip_short_header_fails() {
    assert_eq!(
        parse_pre_skip(&[0x4F, 0x70]),
        Err(AdapterError::ConfigParseError)
    );
    assert_eq!(parse_pre_skip(&[]), Err(AdapterError::ConfigParseError));
}

#[test]
fn try_new_requires_channels_and_rate() {
    assert_eq!(
        OpusAdapter::try_new(Some(48000), None, None).err(),
        Some(AdapterError::UnsupportedConfiguration)
    );
    assert_eq!(
        OpusAdapter::try_new(None, Some(2), None).err(),
        Some(AdapterError::UnsupportedConfiguration)
    );
    assert_eq!(
        OpusAdapter::try_new(Some(48000), Some(3), None).err(),
        Some(AdapterError::UnsupportedConfiguration)
    );
}

#[test]
fn try_new_defaults() {
    let a = OpusAdapter::try_new(Some(48000), Some(2), None).unwrap();
    assert_eq!(a.sample_rate, 48000);
    assert_eq!(a.num_channels, 2);
    assert_eq!(a.samples_per_channel, DEFAULT_SAMPLES_PER_CHANNEL);
    assert_eq!(a.pre_skip, 0);
    assert_eq!(a.buf.frames, 0);
}

#[test]
fn try_new_reads_pre_skip_and_tolerates_bad_header() {
    let a = OpusAdapter::try_new(Some(48000), Some(2), Some(&opus_head(312))).unwrap();
    assert_eq!(a.pre_skip, 312);
    let b = OpusAdapter::try_new(Some(48000), Some(2), Some(&vec![1, 2, 3])).unwrap();
    assert_eq!(b.pre_skip, 0);
}

#[test]
fn accept_decoded_deinterleaves_stereo() {
    let mut a = OpusAdapter::try_new(Some(48000), Some(2), None).unwrap();
    let pcm: Vec<i16> = (0..1920).map(|i| i as i16).collect();
    a.accept_decoded(960, &pcm, 0, 0);
    assert_eq!(a.buf.frames, 960);
    assert_eq!(a.buf.left[0], 0);
    assert_eq!(a.buf.right[0], 1);
    assert_eq!(a.buf.left[959], 1918);
    assert_eq!(a.buf.right[959], 1919);
}

#[test]
fn accept_decoded_mono_copies_in_order() {
    let mut a = OpusAdapter::try_new(Some(48000), Some(1), None).unwrap();
    let pcm: Vec<i16> = (0..960).map(|i| (i * 3) as i16).collect();
    a.accept_decoded(960, &pcm, 0, 0);
    assert_eq!(a.buf.frames, 960);
    assert_eq!(a.buf.left[0], 0);
    assert_eq!(a.buf.left[959], (959 * 3) as i16);
}

#[test]
fn pre_skip_trims_first_packet_only() {
    // Pre-skip 10 at the reference rate stays 10 samples at 48 kHz.
    let mut a = OpusAdapter::try_new(Some(48000), Some(2), Some(&opus_head(10))).unwrap();
    let pcm: Vec<i16> = (0..1920).map(|i| i as i16).collect();
    a.accept_decoded(960, &pcm, 0, 0);
    assert_eq!(a.buf.frames, 950);
    assert_eq!(a.buf.left[0], 20);
    assert_eq!(a.buf.right[0], 21);
    assert_eq!(a.pre_skip, 0);
    // The second packet is not trimmed.
    a.accept_decoded(960, &pcm, 0, 0);
    assert_eq!(a.buf.frames, 960);
    assert_eq!(a.buf.left[0], 0);
}

#[test]
fn pre_skip_converts_to_the_stream_rate() {
    // 480 reference samples become 240 at 24 kHz.
    let mut a = OpusAdapter::try_new(Some(24000), Some(1), Some(&opus_head(480))).unwrap();
    let pcm: Vec<i16> = (0..960).map(|i| i as i16).collect();
    a.accept_decoded(960, &pcm, 0, 0);
    assert_eq!(a.buf.frames, 720);
    assert_eq!(a.buf.left[0], 240);
}

#[test]
fn packet_trims_apply_to_both_ends() {
    let mut a = OpusAdapter::try_new(Some(48000), Some(1), None).unwrap();
    let pcm: Vec<i16> = (0..960).map(|i| i as i16).collect();
    a.accept_decoded(960, &pcm, 5, 7);
    assert_eq!(a.buf.frames, 960 - 5 - 7);
    assert_eq!(a.buf.left[0], 5);
}

#[test]
fn over_trimming_yields_an_empty_frame() {
    let mut a = OpusAdapter::try_new(Some(48000), Some(1), None).unwrap();
    let pcm: Vec<i16> = vec![7; 960];
    a.accept_decoded(960, &pcm, 500, 500);
    assert_eq!(a.buf.frames, 0);
}

#[test]
fn buffer_reshapes_when_frame_size_changes() {
    let mut a = OpusAdapter::try_new(Some(48000), Some(2), None).unwrap();
    assert_eq!(a.buf.capacity, 960);
    let pcm: Vec<i16> = vec![0; 5760 * 2];
    a.accept_decoded(2880, &pcm, 0, 0);
    assert_eq!(a.samples_per_channel, 2880);
    assert_eq!(a.buf.capacity, 2880);
    assert_eq!(a.buf.frames, 2880);
}

#[test]
fn invalid_packet_is_recoverable_and_empties_the_buffer() {
    let mut a = OpusAdapter::try_new(Some(48000), Some(2), None).unwrap();
    let pcm: Vec<i16> = (0..1920).map(|i| i as i16).collect();
    a.accept_decoded(960, &pcm, 0, 0);
    assert_eq!(a.buf.frames, 960);
    let spc_before = a.samples_per_channel;
    assert_eq!(a.on_engine_error(OPUS_INVALID_PACKET), Ok(()));
    assert_eq!(a.buf.frames, 0);
    assert_eq!(a.samples_per_channel, spc_before);
    // The next packet proceeds normally.
    a.accept_decoded(960, &pcm, 0, 0);
    assert_eq!(a.buf.frames, 960);
}

#[test]
fn other_engine_errors_are_fatal() {
    let mut a = OpusAdapter::try_new(Some(48000), Some(2), None).unwrap();
    assert_eq!(
        a.on_engine_error(OPUS_INTERNAL_ERROR),
        Err(AdapterError::EngineFatalError)
    );
    assert_eq!(
        a.on_engine_error(OPUS_ALLOC_FAIL),
        Err(AdapterError::ResourceExhaustion)
    );
}

#[test]
fn last_decoded_returns_the_current_buffer() {
    let mut a = OpusAdapter::try_new(Some(48000), Some(1), None).unwrap();
    let pcm: Vec<i16> = (0..960).map(|i| i as i16).collect();
    a.accept_decoded(960, &pcm, 0, 0);
    let buf = a.last_decoded();
    assert_eq!(buf.frames, 960);
    assert_eq!(buf.left[1], 1);
}
