//! ADTS frame-header synthesis: a pure function from stream parameters and
//! a payload length to the fixed 7-byte bit-packed header.

use std::ops::Range;

use vstd::prelude::*;

use crate::meta::{m4a_type_index, spec_m4a_type_index, M4AType};

verus! {

/// The 12-bit sync word of a 7-byte ADTS header.
pub open spec fn adts_syncword(h: Seq<u8>) -> u16 {
    ((h[0] as u16) << 4) | ((h[1] >> 4) as u16)
}

/// The MPEG-version bit.
pub open spec fn adts_mpeg_version(h: Seq<u8>) -> u8 {
    (h[1] >> 3) & 1
}

/// The 2-bit layer field.
pub open spec fn adts_layer(h: Seq<u8>) -> u8 {
    (h[1] >> 1) & 3
}

/// The protection-absence bit (1 means no CRC follows).
pub open spec fn adts_protection_absent(h: Seq<u8>) -> u8 {
    h[1] & 1
}

/// The 2-bit profile field (object type minus one).
pub open spec fn adts_profile(h: Seq<u8>) -> u8 {
    h[2] >> 6
}

/// The 4-bit sampling-frequency index.
pub open spec fn adts_sample_rate_index(h: Seq<u8>) -> u8 {
    (h[2] >> 2) & 0xF
}

/// The private bit.
pub open spec fn adts_private_bit(h: Seq<u8>) -> u8 {
    (h[2] >> 1) & 1
}

/// The 3-bit channel configuration, split across bytes 2 and 3.
pub open spec fn adts_channel_config(h: Seq<u8>) -> u8 {
    ((h[2] & 1) << 2) | (h[3] >> 6)
}

/// The original/copy bit.
pub open spec fn adts_original_copy(h: Seq<u8>) -> u8 {
    (h[3] >> 5) & 1
}

/// The home bit.
pub open spec fn adts_home(h: Seq<u8>) -> u8 {
    (h[3] >> 4) & 1
}

/// The copyright-id bit.
pub open spec fn adts_copyright_id(h: Seq<u8>) -> u8 {
    (h[3] >> 3) & 1
}

/// The copyright-id-start bit.
pub open spec fn adts_copyright_start(h: Seq<u8>) -> u8 {
    (h[3] >> 2) & 1
}

/// The 13-bit frame length (header plus payload), split across bytes 3, 4
/// and 5.
pub open spec fn adts_frame_length(h: Seq<u8>) -> u16 {
    (((h[3] & 3) as u16) << 11) | ((h[4] as u16) << 3) | ((h[5] >> 5) as u16)
}

/// The 11-bit buffer-fullness field, split across bytes 5 and 6.
pub open spec fn adts_buffer_fullness(h: Seq<u8>) -> u16 {
    (((h[5] & 0x1F) as u16) << 6) | ((h[6] >> 2) as u16)
}

/// The 2-bit raw-data-blocks-minus-one field.
pub open spec fn adts_block_count(h: Seq<u8>) -> u8 {
    h[6] & 3
}

/// The header that the synthesizer produces for an object-type index
/// `aot_idx` (at least 1), a sampling-frequency index `sfi` (below 16), a
/// channel configuration `cc` (its low 3 bits are encoded), and a payload
/// of `num_bytes` bytes.  The frame length is `7 + num_bytes`, truncated to
/// its 13-bit field; the buffer fullness is all-ones, marking variable bit
/// rate.
pub open spec fn spec_adts_header(aot_idx: u8, sfi: u8, cc: u8, num_bytes: usize) -> Seq<u8>
    recommends
        1 <= aot_idx,
        sfi < 16,
{
    let fl = (((7 + num_bytes) % 8192) as u16);
    seq![
        0xFFu8,
        0xF1u8,
        ((((aot_idx - 1) as u8) << 6) | (sfi << 2) | ((cc >> 2) & 1)) as u8,
        (((cc & 3) << 6) | (((fl >> 11) & 3) as u8)) as u8,
        (((fl >> 3) & 0xFF) as u8) as u8,
        ((((fl & 7) as u8) << 5) | 0x1F) as u8,
        0xFCu8,
    ]
}

/// The bits of `byte` from position `range.start` through `range.end`, both
/// 1-based and counted from the most significant bit, as a right-aligned
/// value.
pub fn get_bits_u16(byte: u16, range: Range<u16>) -> (r: u16)
    requires
        1 <= range.start,
        range.start <= range.end,
        range.end <= 16,
    ensures
        r == (byte & (0xFFFFu16 >> ((range.start - 1) as u16))) >> ((16 - range.end) as u16),
{
    let s = range.start;
    let e = range.end;
    let shaved_left = byte << (s - 1);
    let moved_back = shaved_left >> (s - 1);
    let r = moved_back >> (16 - e);
    proof {
        assert(((byte << ((s - 1) as u16)) >> ((s - 1) as u16)) >> ((16 - e) as u16) == (byte & (
        0xFFFFu16 >> ((s - 1) as u16))) >> ((16 - e) as u16)) by (bit_vector)
            requires
                1 <= s,
                s <= e,
                e <= 16,
        ;
    }
    r
}

/// The bits of `byte` from position `range.start` through `range.end`, both
/// 1-based and counted from the most significant bit, as a right-aligned
/// value.
pub fn get_bits_u8(byte: u8, range: Range<u8>) -> (r: u8)
    requires
        1 <= range.start,
        range.start <= range.end,
        range.end <= 8,
    ensures
        r == (byte & (0xFFu8 >> ((range.start - 1) as u8))) >> ((8 - range.end) as u8),
{
    let s = range.start;
    let e = range.end;
    let shaved_left = byte << (s - 1);
    let moved_back = shaved_left >> (s - 1);
    let r = moved_back >> (8 - e);
    proof {
        assert(((byte << ((s - 1) as u8)) >> ((s - 1) as u8)) >> ((8 - e) as u8) == (byte & (0xFFu8
            >> ((s - 1) as u8))) >> ((8 - e) as u8)) by (bit_vector)
            requires
                1 <= s,
                s <= e,
                e <= 8,
        ;
    }
    r
}


/// Synthesizes the 7-byte ADTS header that precedes a payload of
/// `num_bytes` bytes, per [`spec_adts_header`].
///
/// The frame-length field holds `7 + num_bytes` only while that sum fits
/// its 13 bits (payloads up to 8184 bytes); beyond that the encoded length
/// wraps, a known boundary of the format.  The profile field truncates the
/// object-type index minus one to 2 bits.
pub fn construct_adts_header(
    object_type: M4AType,
    sample_freq_index: u8,
    channel_config: u8,
    num_bytes: usize,
) -> (r: Vec<u8>)
    requires
        spec_m4a_type_index(object_type) >= 1,
        sample_freq_index < 16,
    ensures
        r@.len() == 7,
        r@ == spec_adts_header(
            spec_m4a_type_index(object_type),
            sample_freq_index,
            channel_config,
            num_bytes,
        ),
{
    let ghost idx = spec_m4a_type_index(object_type);
    let ghost cc = channel_config;
    let ghost sfi = sample_freq_index;
    let ghost nb64: u64 = num_bytes as u64;
    let ghost fl13: u16 = (((7 + num_bytes) % 8192) as u16);

    let adts_object_type = m4a_type_index(object_type) - 1;
    let ghost aot: u8 = adts_object_type;

    let byte0: u8 = 0b1111_1111;
    // MPEG version 0, layer 0, no CRC.
    let byte1: u8 = 0b1111_0001;

    let mut byte2: u8 = 0b0000_0000;
    byte2 = (byte2 << 2) | adts_object_type;
    byte2 = (byte2 << 4) | sample_freq_index;
    // Private bit 0.
    byte2 = byte2 << 1;
    let h_bit = get_bits_u8(channel_config, 6..6);
    byte2 = (byte2 << 1) | h_bit;
    proof {
        assert(byte2 == ((aot << 6) | (sfi << 2) | ((cc >> 2) & 1))) by (bit_vector)
            requires
                sfi < 16,
                h_bit == (cc & (0xFFu8 >> ((6 - 1) as u8))) >> ((8 - 6) as u8),
                byte2 == ((((((0u8 << 2) | aot) << 4) | sfi) << 1) << 1) | h_bit,
        ;
    }

    let nb16: u16 = #[verifier::truncate] (num_bytes as u16);
    let frame_length: u16 = nb16.wrapping_add(7);
    proof {
        assert(nb16 == ((nb64 % 65536) as u16)) by (bit_vector)
            requires
                nb16 == (nb64 as u16),
        ;
        assert(frame_length == ((nb16 + 7) as u16)) by (bit_vector)
            requires
                nb16 + 7 > 65535 ==> frame_length == ((nb16 + 7 - 0x1_0000) as u16),
                nb16 + 7 <= 65535 ==> frame_length == ((nb16 + 7) as u16),
        ;
        assert(fl13 == (((7 + nb64) % 8192) as u16));
    }

    let mut byte3: u8 = 0b0000_0000;
    let hh = get_bits_u8(channel_config, 7..8);
    byte3 = (byte3 << 2) | hh;
    // Original/copy, home, copyright id, copyright start: all 0.
    byte3 = byte3 << 4;
    let mm_hi = get_bits_u16(frame_length, 4..5);
    byte3 = (byte3 << 2) | (#[verifier::truncate] (mm_hi as u8));
    proof {
        assert(byte3 == (((cc & 3) << 6) | (((fl13 >> 11) & 3) as u8))) by (bit_vector)
            requires
                hh == (cc & (0xFFu8 >> ((7 - 1) as u8))) >> ((8 - 8) as u8),
                mm_hi == (frame_length & (0xFFFFu16 >> ((4 - 1) as u16))) >> ((16 - 5) as u16),
                byte3 == ((((0u8 << 2) | hh) << 4) << 2) | (mm_hi as u8),
                frame_length == ((nb16 + 7) as u16),
                nb16 == ((nb64 % 65536) as u16),
                fl13 == (((7 + nb64) % 8192) as u16),
        ;
    }

    let mm_mid = get_bits_u16(frame_length, 6..13);
    let byte4 = #[verifier::truncate] (mm_mid as u8);
    proof {
        assert(byte4 == (((fl13 >> 3) & 0xFF) as u8)) by (bit_vector)
            requires
                mm_mid == (frame_length & (0xFFFFu16 >> ((6 - 1) as u16))) >> ((16 - 13) as u16),
                byte4 == (mm_mid as u8),
                frame_length == ((nb16 + 7) as u16),
                nb16 == ((nb64 % 65536) as u16),
                fl13 == (((7 + nb64) % 8192) as u16),
        ;
    }

    let mut byte5: u8 = 0b0000_0000;
    let mm_lo = get_bits_u16(frame_length, 14..16);
    byte5 = (byte5 << 3) | (#[verifier::truncate] (mm_lo as u8));
    byte5 = (byte5 << 5) | 0b11111;
    proof {
        assert(byte5 == ((((fl13 & 7) as u8) << 5) | 0x1F)) by (bit_vector)
            requires
                mm_lo == (frame_length & (0xFFFFu16 >> ((14 - 1) as u16))) >> ((16 - 16) as u16),
                byte5 == ((((0u8 << 3) | (mm_lo as u8)) << 5) | 0b11111),
                frame_length == ((nb16 + 7) as u16),
                nb16 == ((nb64 % 65536) as u16),
                fl13 == (((7 + nb64) % 8192) as u16),
        ;
    }

    let mut byte6: u8 = 0b0000_0000;
    byte6 = (byte6 << 6) | 0b111111;
    byte6 <<= 2;
    proof {
        assert(byte6 == 0xFC) by (bit_vector)
            requires
                byte6 == (((0u8 << 6) | 0b111111) << 2),
        ;
    }

    let mut r: Vec<u8> = Vec::new();
    r.push(byte0);
    r.push(byte1);
    r.push(byte2);
    r.push(byte3);
    r.push(byte4);
    r.push(byte5);
    r.push(byte6);
    proof {
        assert(r@ =~= spec_adts_header(idx, sfi, cc, num_bytes));
    }
    r
}

/// The synthesized header always decodes back to what was put in: the sync
/// word, the fixed bits, the truncated profile, the sampling-frequency
/// index, the low three bits of the channel configuration, the 13-bit frame
/// length `7 + num_bytes` (modulo its field width), the all-ones buffer
/// fullness, and a zero block count.
pub proof fn lemma_adts_header_fields(aot_idx: u8, sfi: u8, cc: u8, num_bytes: usize)
    requires
        1 <= aot_idx,
        sfi < 16,
    ensures
        spec_adts_header(aot_idx, sfi, cc, num_bytes).len() == 7,
        adts_syncword(spec_adts_header(aot_idx, sfi, cc, num_bytes)) == 0xFFF,
        adts_mpeg_version(spec_adts_header(aot_idx, sfi, cc, num_bytes)) == 0,
        adts_layer(spec_adts_header(aot_idx, sfi, cc, num_bytes)) == 0,
        adts_protection_absent(spec_adts_header(aot_idx, sfi, cc, num_bytes)) == 1,
        adts_profile(spec_adts_header(aot_idx, sfi, cc, num_bytes)) as int == (aot_idx - 1) % 4,
        adts_sample_rate_index(spec_adts_header(aot_idx, sfi, cc, num_bytes)) == sfi,
        adts_private_bit(spec_adts_header(aot_idx, sfi, cc, num_bytes)) == 0,
        adts_channel_config(spec_adts_header(aot_idx, sfi, cc, num_bytes)) as int == cc as int % 8,
        adts_original_copy(spec_adts_header(aot_idx, sfi, cc, num_bytes)) == 0,
        adts_home(spec_adts_header(aot_idx, sfi, cc, num_bytes)) == 0,
        adts_copyright_id(spec_adts_header(aot_idx, sfi, cc, num_bytes)) == 0,
        adts_copyright_start(spec_adts_header(aot_idx, sfi, cc, num_bytes)) == 0,
        adts_frame_length(spec_adts_header(aot_idx, sfi, cc, num_bytes)) as int == (7
            + num_bytes as int) % 8192,
        adts_buffer_fullness(spec_adts_header(aot_idx, sfi, cc, num_bytes)) == 0x7FF,
        adts_block_count(spec_adts_header(aot_idx, sfi, cc, num_bytes)) == 0,
{
    let h = spec_adts_header(aot_idx, sfi, cc, num_bytes);
    let nb64: u64 = num_bytes as u64;
    let fl = (((7 + num_bytes) % 8192) as u16);
    let b2 = ((((aot_idx - 1) as u8) << 6) | (sfi << 2) | ((cc >> 2) & 1)) as u8;
    let b3 = (((cc & 3) << 6) | (((fl >> 11) & 3) as u8)) as u8;
    let b4 = (((fl >> 3) & 0xFF) as u8) as u8;
    let b5 = ((((fl & 7) as u8) << 5) | 0x1F) as u8;
    assert(h[0] == 0xFF && h[1] == 0xF1 && h[2] == b2 && h[3] == b3 && h[4] == b4 && h[5] == b5
        && h[6] == 0xFC);
    assert(fl == (((7 + nb64) % 8192) as u16));
    assert(((0xFFu8 as u16) << 4) | ((0xF1u8 >> 4) as u16) == 0xFFF) by (bit_vector);
    assert((0xF1u8 >> 3) & 1 == 0 && (0xF1u8 >> 1) & 3 == 0 && 0xF1u8 & 1 == 1) by (bit_vector);
    assert(b2 >> 6 == ((aot_idx - 1) % 4) as u8 && (b2 >> 2) & 0xF == sfi && (b2 >> 1) & 1 == 0)
        by (bit_vector)
        requires
            1 <= aot_idx,
            sfi < 16,
            b2 == ((((aot_idx - 1) as u8) << 6) | (sfi << 2) | ((cc >> 2) & 1)) as u8,
    ;
    assert(((b2 & 1) << 2) | (b3 >> 6) == ((cc % 8) as u8)) by (bit_vector)
        requires
            b2 == ((((aot_idx - 1) as u8) << 6) | (sfi << 2) | ((cc >> 2) & 1)) as u8,
            b3 == (((cc & 3) << 6) | (((fl >> 11) & 3) as u8)) as u8,
    ;
    assert((b3 >> 5) & 1 == 0 && (b3 >> 4) & 1 == 0 && (b3 >> 3) & 1 == 0 && (b3 >> 2) & 1 == 0)
        by (bit_vector)
        requires
            b3 == (((cc & 3) << 6) | (((fl >> 11) & 3) as u8)) as u8,
    ;
    assert(((((b3 & 3) as u16) << 11) | ((b4 as u16) << 3) | ((b5 >> 5) as u16)) == (((7
        + nb64) % 8192) as u16)) by (bit_vector)
        requires
            fl == (((7 + nb64) % 8192) as u16),
            b3 == (((cc & 3) << 6) | (((fl >> 11) & 3) as u8)) as u8,
            b4 == (((fl >> 3) & 0xFF) as u8) as u8,
            b5 == ((((fl & 7) as u8) << 5) | 0x1F) as u8,
    ;
    assert((((b5 & 0x1F) as u16) << 6) | ((0xFCu8 >> 2) as u16) == 0x7FF) by (bit_vector)
        requires
            b5 == ((((fl & 7) as u8) << 5) | 0x1F) as u8,
    ;
    assert(0xFCu8 & 3 == 0) by (bit_vector);
}

/// For payloads of at most 8184 bytes the frame-length field needs no
/// truncation: the synthesized header's frame length decodes back to
/// exactly `7 + num_bytes`.
pub proof fn lemma_adts_frame_length_round_trip(aot_idx: u8, sfi: u8, cc: u8, num_bytes: usize)
    requires
        1 <= aot_idx,
        sfi < 16,
        num_bytes <= 8184,
    ensures
        adts_frame_length(spec_adts_header(aot_idx, sfi, cc, num_bytes)) == 7 + num_bytes,
{
    lemma_adts_header_fields(aot_idx, sfi, cc, num_bytes);
}

/// For channel configurations that fit their 3-bit field — in particular
/// the supported counts 1 and 2 — the header's channel-config bits equal
/// the input value exactly.
pub proof fn lemma_adts_channel_config_exact(aot_idx: u8, sfi: u8, cc: u8, num_bytes: usize)
    requires
        1 <= aot_idx,
        sfi < 16,
        cc < 8,
    ensures
        adts_channel_config(spec_adts_header(aot_idx, sfi, cc, num_bytes)) == cc,
{
    lemma_adts_header_fields(aot_idx, sfi, cc, num_bytes);
}

} // verus!
