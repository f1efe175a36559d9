use symphonia_adapters::adts::{construct_adts_header, get_bits_u16, get_bits_u8};
use symphonia_adapters::meta::M4AType;

fn decoded_frame_length(h: &[u8]) -> u16 {
    (((h[3] & 3) as u16) << 11) | ((h[4] as u16) << 3) | ((h[5] >> 5) as u16)
}

fn decoded_channel_config(h: &[u8]) -> u8 {
    ((h[2] & 1) << 2) | (h[3] >> 6)
}

#[test]
fn header_bytes_lc_stereo() {
    let h = construct_adts_header(M4AType::Lc, 4, 2, 100);
    assert_eq!(h, vec![0xFF, 0xF1, 0x50, 0x80, 0x0D, 0x7F, 0xFC]);
}

#[test]
fn header_is_seven_bytes() {
    for n in [0usize, 1, 7, 100, 4096, 8184, 8185, 9000] {
        let h = construct_adts_header(M4AType::Main, 0, 1, n);
        assert_eq!(h.len(), 7);
    }
}

#[test]
fn header_syncword_and_fixed_bits() {
    let h = construct_adts_header(M4AType::Lc, 3, 1, 50);
    // 12-bit syncword.
    assert_eq!(((h[0] as u16) << 4) | ((h[1] >> 4) as u16), 0xFFF);
    // MPEG version 0, layer 0, protection absent 1.
    assert_eq!((h[1] >> 3) & 1, 0);
    assert_eq!((h[1] >> 1) & 3, 0);
    assert_eq!(h[1] & 1, 1);
    // Buffer fullness all-ones, zero raw-data-blocks.
    assert_eq!((((h[5] & 0x1F) as u16) << 6) | ((h[6] >> 2) as u16), 0x7FF);
    assert_eq!(h[6] & 3, 0);
}

#[test]
fn frame_length_round_trip_small_payloads() {
    for n in [0usize, 1, 100, 1000, 8184] {
        let h = construct_adts_header(M4AType::Lc, 4, 2, n);
        assert_eq!(decoded_frame_length(&h) as usize, 7 + n);
    }
}

#[test]
fn frame_length_wraps_past_field_width() {
    // 7 + 8185 = 8192 wraps to 0 in the 13-bit field.
    let h = construct_adts_header(M4AType::Lc, 4, 2, 8185);
    assert_eq!(decoded_frame_length(&h), 0);
    let h = construct_adts_header(M4AType::Lc, 4, 2, 9000);
    assert_eq!(decoded_frame_length(&h), ((7 + 9000) % 8192) as u16);
}

#[test]
fn channel_config_bits_exact_for_mono_and_stereo() {
    for cc in [1u8, 2] {
        let h = construct_adts_header(M4AType::Lc, 4, cc, 100);
        assert_eq!(decoded_channel_config(&h), cc);
    }
}

#[test]
fn channel_config_bits_keep_three_bits() {
    for cc in [0u8, 3, 6, 7, 9, 255] {
        let h = construct_adts_header(M4AType::Lc, 4, cc, 100);
        assert_eq!(decoded_channel_config(&h), cc % 8);
    }
}

#[test]
fn profile_bits_are_object_type_minus_one() {
    // Main = 1, LC = 2, SSR = 3, LTP = 4 encode as 0..=3.
    let types = [M4AType::Main, M4AType::Lc, M4AType::Ssr, M4AType::Ltp];
    for (i, t) in types.iter().enumerate() {
        let h = construct_adts_header(*t, 4, 2, 100);
        assert_eq!(h[2] >> 6, i as u8);
    }
}

#[test]
fn sample_rate_index_bits() {
    for sri in 0u8..16 {
        let h = construct_adts_header(M4AType::Lc, sri, 2, 100);
        assert_eq!((h[2] >> 2) & 0xF, sri);
    }
}

#[test]
fn get_bits_u16_extracts_msb_first_ranges() {
    assert_eq!(get_bits_u16(0xAAAA, 3..5), 5);
    assert_eq!(get_bits_u16(0x0007, 14..16), 7);
    assert_eq!(get_bits_u16(0x1234, 6..13), (0x1234 >> 3) & 0xFF);
    assert_eq!(get_bits_u16(0xFFFF, 1..1), 1);
}

#[test]
fn get_bits_u8_extracts_msb_first_ranges() {
    assert_eq!(get_bits_u8(0b0000_0110, 6..6), 1);
    assert_eq!(get_bits_u8(0b0000_0110, 7..8), 2);
    assert_eq!(get_bits_u8(0xFF, 1..2), 3);
}
