//! MPEG-4 audio metadata: object types, lookup tables, and the
//! `AudioSpecificConfig` parser.

use vstd::prelude::*;

use vstd::arithmetic::power2::lemma2_to64;

use crate::bits::{lemma_bits_at_bound, spec_read_bits, spec_skip, BitReader};
use crate::AdapterError;

verus! {

/// MPEG-4 audio object type, a closed enumeration with explicit
/// reserved/unknown fallback members.
#[allow(non_camel_case_types)]
#[derive(Clone, Copy, Debug, PartialEq, Eq, Structural)]
pub enum M4AType {
    Null,
    Main,
    Lc,
    Ssr,
    Ltp,
    Sbr,
    Scalable,
    TwinVQ,
    Celp,
    Hvxc,
    Ttsi,
    MainSynth,
    WavetableSynth,
    GeneralMIDI,
    Algorithmic,
    ER_AAC_LC,
    ER_AAC_LTP,
    ER_AAC_Scalable,
    ER_TwinVQ,
    ER_BSAC,
    ER_AAC_LD,
    ER_CELP,
    ER_HVXC,
    ER_HILN,
    ER_Parametric,
    Ssc,
    PS,
    MPEGSurround,
    Layer1,
    Layer2,
    Layer3,
    Dst,
    Als,
    Sls,
    SLSNonCore,
    ER_AAC_ELD,
    SMRSimple,
    SMRMain,
    Reserved,
    Unknown,
}

/// Position of an object type in the declaration order above; the ADTS
/// profile field is this value minus one.
pub open spec fn spec_m4a_type_index(t: M4AType) -> u8 {
    match t {
        M4AType::Null => 0,
        M4AType::Main => 1,
        M4AType::Lc => 2,
        M4AType::Ssr => 3,
        M4AType::Ltp => 4,
        M4AType::Sbr => 5,
        M4AType::Scalable => 6,
        M4AType::TwinVQ => 7,
        M4AType::Celp => 8,
        M4AType::Hvxc => 9,
        M4AType::Ttsi => 10,
        M4AType::MainSynth => 11,
        M4AType::WavetableSynth => 12,
        M4AType::GeneralMIDI => 13,
        M4AType::Algorithmic => 14,
        M4AType::ER_AAC_LC => 15,
        M4AType::ER_AAC_LTP => 16,
        M4AType::ER_AAC_Scalable => 17,
        M4AType::ER_TwinVQ => 18,
        M4AType::ER_BSAC => 19,
        M4AType::ER_AAC_LD => 20,
        M4AType::ER_CELP => 21,
        M4AType::ER_HVXC => 22,
        M4AType::ER_HILN => 23,
        M4AType::ER_Parametric => 24,
        M4AType::Ssc => 25,
        M4AType::PS => 26,
        M4AType::MPEGSurround => 27,
        M4AType::Layer1 => 28,
        M4AType::Layer2 => 29,
        M4AType::Layer3 => 30,
        M4AType::Dst => 31,
        M4AType::Als => 32,
        M4AType::Sls => 33,
        M4AType::SLSNonCore => 34,
        M4AType::ER_AAC_ELD => 35,
        M4AType::SMRSimple => 36,
        M4AType::SMRMain => 37,
        M4AType::Reserved => 38,
        M4AType::Unknown => 39,
    }
}

/// Executable twin of [`spec_m4a_type_index`].
pub fn m4a_type_index(t: M4AType) -> (r: u8)
    ensures
        r == spec_m4a_type_index(t),
{
    match t {
        M4AType::Null => 0,
        M4AType::Main => 1,
        M4AType::Lc => 2,
        M4AType::Ssr => 3,
        M4AType::Ltp => 4,
        M4AType::Sbr => 5,
        M4AType::Scalable => 6,
        M4AType::TwinVQ => 7,
        M4AType::Celp => 8,
        M4AType::Hvxc => 9,
        M4AType::Ttsi => 10,
        M4AType::MainSynth => 11,
        M4AType::WavetableSynth => 12,
        M4AType::GeneralMIDI => 13,
        M4AType::Algorithmic => 14,
        M4AType::ER_AAC_LC => 15,
        M4AType::ER_AAC_LTP => 16,
        M4AType::ER_AAC_Scalable => 17,
        M4AType::ER_TwinVQ => 18,
        M4AType::ER_BSAC => 19,
        M4AType::ER_AAC_LD => 20,
        M4AType::ER_CELP => 21,
        M4AType::ER_HVXC => 22,
        M4AType::ER_HILN => 23,
        M4AType::ER_Parametric => 24,
        M4AType::Ssc => 25,
        M4AType::PS => 26,
        M4AType::MPEGSurround => 27,
        M4AType::Layer1 => 28,
        M4AType::Layer2 => 29,
        M4AType::Layer3 => 30,
        M4AType::Dst => 31,
        M4AType::Als => 32,
        M4AType::Sls => 33,
        M4AType::SLSNonCore => 34,
        M4AType::ER_AAC_ELD => 35,
        M4AType::SMRSimple => 36,
        M4AType::SMRMain => 37,
        M4AType::Reserved => 38,
        M4AType::Unknown => 39,
    }
}

/// The object type signalled by a parsed type index.  The order is that of
/// the standard's table: positions 10, 11, 18 and 31 are reserved, and every
/// index past the table's extent maps to `Unknown` rather than failing.
pub open spec fn spec_m4a_type_of(idx: int) -> M4AType {
    if idx == 0 {
        M4AType::Null
    } else if idx == 1 {
        M4AType::Main
    } else if idx == 2 {
        M4AType::Lc
    } else if idx == 3 {
        M4AType::Ssr
    } else if idx == 4 {
        M4AType::Ltp
    } else if idx == 5 {
        M4AType::Sbr
    } else if idx == 6 {
        M4AType::Scalable
    } else if idx == 7 {
        M4AType::TwinVQ
    } else if idx == 8 {
        M4AType::Celp
    } else if idx == 9 {
        M4AType::Hvxc
    } else if idx == 10 {
        M4AType::Reserved
    } else if idx == 11 {
        M4AType::Reserved
    } else if idx == 12 {
        M4AType::Ttsi
    } else if idx == 13 {
        M4AType::MainSynth
    } else if idx == 14 {
        M4AType::WavetableSynth
    } else if idx == 15 {
        M4AType::GeneralMIDI
    } else if idx == 16 {
        M4AType::Algorithmic
    } else if idx == 17 {
        M4AType::ER_AAC_LC
    } else if idx == 18 {
        M4AType::Reserved
    } else if idx == 19 {
        M4AType::ER_AAC_LTP
    } else if idx == 20 {
        M4AType::ER_AAC_Scalable
    } else if idx == 21 {
        M4AType::ER_TwinVQ
    } else if idx == 22 {
        M4AType::ER_BSAC
    } else if idx == 23 {
        M4AType::ER_AAC_LD
    } else if idx == 24 {
        M4AType::ER_CELP
    } else if idx == 25 {
        M4AType::ER_HVXC
    } else if idx == 26 {
        M4AType::ER_HILN
    } else if idx == 27 {
        M4AType::ER_Parametric
    } else if idx == 28 {
        M4AType::Ssc
    } else if idx == 29 {
        M4AType::PS
    } else if idx == 30 {
        M4AType::MPEGSurround
    } else if idx == 31 {
        M4AType::Reserved
    } else if idx == 32 {
        M4AType::Layer1
    } else if idx == 33 {
        M4AType::Layer2
    } else if idx == 34 {
        M4AType::Layer3
    } else if idx == 35 {
        M4AType::Dst
    } else if idx == 36 {
        M4AType::Als
    } else if idx == 37 {
        M4AType::Sls
    } else if idx == 38 {
        M4AType::SLSNonCore
    } else if idx == 39 {
        M4AType::ER_AAC_ELD
    } else if idx == 40 {
        M4AType::SMRSimple
    } else if idx == 41 {
        M4AType::SMRMain
    } else {
        M4AType::Unknown
    }
}

/// Executable twin of [`spec_m4a_type_of`].
pub fn m4a_type_of(idx: u32) -> (r: M4AType)
    ensures
        r == spec_m4a_type_of(idx as int),
{
    match idx {
        0 => M4AType::Null,
        1 => M4AType::Main,
        2 => M4AType::Lc,
        3 => M4AType::Ssr,
        4 => M4AType::Ltp,
        5 => M4AType::Sbr,
        6 => M4AType::Scalable,
        7 => M4AType::TwinVQ,
        8 => M4AType::Celp,
        9 => M4AType::Hvxc,
        10 => M4AType::Reserved,
        11 => M4AType::Reserved,
        12 => M4AType::Ttsi,
        13 => M4AType::MainSynth,
        14 => M4AType::WavetableSynth,
        15 => M4AType::GeneralMIDI,
        16 => M4AType::Algorithmic,
        17 => M4AType::ER_AAC_LC,
        18 => M4AType::Reserved,
        19 => M4AType::ER_AAC_LTP,
        20 => M4AType::ER_AAC_Scalable,
        21 => M4AType::ER_TwinVQ,
        22 => M4AType::ER_BSAC,
        23 => M4AType::ER_AAC_LD,
        24 => M4AType::ER_CELP,
        25 => M4AType::ER_HVXC,
        26 => M4AType::ER_HILN,
        27 => M4AType::ER_Parametric,
        28 => M4AType::Ssc,
        29 => M4AType::PS,
        30 => M4AType::MPEGSurround,
        31 => M4AType::Reserved,
        32 => M4AType::Layer1,
        33 => M4AType::Layer2,
        34 => M4AType::Layer3,
        35 => M4AType::Dst,
        36 => M4AType::Als,
        37 => M4AType::Sls,
        38 => M4AType::SLSNonCore,
        39 => M4AType::ER_AAC_ELD,
        40 => M4AType::SMRSimple,
        41 => M4AType::SMRMain,
        _ => M4AType::Unknown,
    }
}

/// The canonical 16-entry sampling-rate table.  Entries 13..=15 are
/// reserved and hold zero.
pub open spec fn spec_aac_sample_rate(idx: int) -> u32 {
    if idx == 0 {
        96000
    } else if idx == 1 {
        88200
    } else if idx == 2 {
        64000
    } else if idx == 3 {
        48000
    } else if idx == 4 {
        44100
    } else if idx == 5 {
        32000
    } else if idx == 6 {
        24000
    } else if idx == 7 {
        22050
    } else if idx == 8 {
        16000
    } else if idx == 9 {
        12000
    } else if idx == 10 {
        11025
    } else if idx == 11 {
        8000
    } else if idx == 12 {
        7350
    } else {
        0
    }
}

/// Executable twin of [`spec_aac_sample_rate`].
pub fn aac_sample_rate(idx: u32) -> (r: u32)
    requires
        idx < 16,
    ensures
        r == spec_aac_sample_rate(idx as int),
{
    match idx {
        0 => 96000,
        1 => 88200,
        2 => 64000,
        3 => 48000,
        4 => 44100,
        5 => 32000,
        6 => 24000,
        7 => 22050,
        8 => 16000,
        9 => 12000,
        10 => 11025,
        11 => 8000,
        12 => 7350,
        _ => 0,
    }
}

/// The table position of a mapped sampling rate, and 15 — the
/// explicit/unmapped marker — for every rate the table does not map,
/// rate zero included.
pub open spec fn spec_sample_rate_index(rate: u32) -> u8 {
    if rate == 96000 {
        0
    } else if rate == 88200 {
        1
    } else if rate == 64000 {
        2
    } else if rate == 48000 {
        3
    } else if rate == 44100 {
        4
    } else if rate == 32000 {
        5
    } else if rate == 24000 {
        6
    } else if rate == 22050 {
        7
    } else if rate == 16000 {
        8
    } else if rate == 12000 {
        9
    } else if rate == 11025 {
        10
    } else if rate == 8000 {
        11
    } else if rate == 7350 {
        12
    } else {
        15
    }
}

/// Looks a sampling rate up in the canonical table: the position of the
/// matching entry, or 15, the explicit/unmapped marker, when none matches.
pub fn sample_rate_index(sample_rate: u32) -> (r: u8)
    ensures
        r == spec_sample_rate_index(sample_rate),
{
    if sample_rate == 96000 {
        0
    } else if sample_rate == 88200 {
        1
    } else if sample_rate == 64000 {
        2
    } else if sample_rate == 48000 {
        3
    } else if sample_rate == 44100 {
        4
    } else if sample_rate == 32000 {
        5
    } else if sample_rate == 24000 {
        6
    } else if sample_rate == 22050 {
        7
    } else if sample_rate == 16000 {
        8
    } else if sample_rate == 12000 {
        9
    } else if sample_rate == 11025 {
        10
    } else if sample_rate == 8000 {
        11
    } else if sample_rate == 7350 {
        12
    } else {
        15
    }
}

/// Every mapped table rate is recovered by the index lookup: the first
/// thirteen positions of the rate table and [`spec_sample_rate_index`] are
/// mutually inverse.  Positions 13..=15 hold rate zero and have no inverse.
pub proof fn lemma_sample_rate_index_inverse(i: int)
    requires
        0 <= i <= 12,
    ensures
        spec_sample_rate_index(spec_aac_sample_rate(i)) == i,
{
}

/// The reserved tail of the rate table has no inverse: positions 13..=15
/// hold rate zero, an unmapped rate, so the lookup sends it to the
/// explicit/unmapped marker 15 rather than back to any of them.
pub proof fn lemma_reserved_rate_positions(i: int)
    requires
        13 <= i <= 15,
    ensures
        spec_aac_sample_rate(i) == 0,
        spec_sample_rate_index(spec_aac_sample_rate(i)) == 15,
{
}

/// The canonical channel-configuration table: index to channel count.
pub open spec fn spec_aac_channel_count(idx: int) -> u8 {
    if idx == 0 {
        0
    } else if idx == 1 {
        1
    } else if idx == 2 {
        2
    } else if idx == 3 {
        3
    } else if idx == 4 {
        4
    } else if idx == 5 {
        5
    } else if idx == 6 {
        6
    } else {
        8
    }
}

/// Executable twin of [`spec_aac_channel_count`].
pub fn aac_channel_count(idx: u32) -> (r: u8)
    requires
        idx < 8,
    ensures
        r == spec_aac_channel_count(idx as int),
{
    match idx {
        0 => 0,
        1 => 1,
        2 => 2,
        3 => 3,
        4 => 4,
        5 => 5,
        6 => 6,
        _ => 8,
    }
}

/// Object types whose configuration carries a `GASpecificConfig` record:
/// the general-audio families and their error-resilient variants.
pub open spec fn spec_is_general_audio(t: M4AType) -> bool {
    ||| t == M4AType::Main
    ||| t == M4AType::Lc
    ||| t == M4AType::Ssr
    ||| t == M4AType::Ltp
    ||| t == M4AType::Scalable
    ||| t == M4AType::TwinVQ
    ||| t == M4AType::ER_AAC_LC
    ||| t == M4AType::ER_AAC_LTP
    ||| t == M4AType::ER_AAC_Scalable
    ||| t == M4AType::ER_TwinVQ
    ||| t == M4AType::ER_BSAC
    ||| t == M4AType::ER_AAC_LD
}

/// Executable twin of [`spec_is_general_audio`].
pub fn is_general_audio(t: M4AType) -> (r: bool)
    ensures
        r == spec_is_general_audio(t),
{
    match t {
        M4AType::Main | M4AType::Lc | M4AType::Ssr | M4AType::Ltp | M4AType::Scalable
            | M4AType::TwinVQ | M4AType::ER_AAC_LC | M4AType::ER_AAC_LTP
            | M4AType::ER_AAC_Scalable | M4AType::ER_TwinVQ | M4AType::ER_BSAC
            | M4AType::ER_AAC_LD => true,
        _ => false,
    }
}

/// The error-resilient object types, whose configuration ends with an
/// error-protection field.
pub open spec fn spec_is_error_resilient(t: M4AType) -> bool {
    ||| t == M4AType::ER_AAC_LC
    ||| t == M4AType::ER_AAC_LTP
    ||| t == M4AType::ER_AAC_Scalable
    ||| t == M4AType::ER_TwinVQ
    ||| t == M4AType::ER_BSAC
    ||| t == M4AType::ER_AAC_LD
    ||| t == M4AType::ER_CELP
    ||| t == M4AType::ER_HVXC
    ||| t == M4AType::ER_HILN
    ||| t == M4AType::ER_Parametric
    ||| t == M4AType::ER_AAC_ELD
}

/// Executable twin of [`spec_is_error_resilient`].
pub fn is_error_resilient(t: M4AType) -> (r: bool)
    ensures
        r == spec_is_error_resilient(t),
{
    match t {
        M4AType::ER_AAC_LC | M4AType::ER_AAC_LTP | M4AType::ER_AAC_Scalable
            | M4AType::ER_TwinVQ | M4AType::ER_BSAC | M4AType::ER_AAC_LD | M4AType::ER_CELP
            | M4AType::ER_HVXC | M4AType::ER_HILN | M4AType::ER_Parametric
            | M4AType::ER_AAC_ELD => true,
        _ => false,
    }
}

/// Reading an object type: a 5-bit index, with the escape value 31 followed
/// by 6 more bits that extend the range by 32.
pub open spec fn spec_read_object_type(data: Seq<u8>, pos: int) -> Option<(M4AType, int)> {
    match spec_read_bits(data, pos, 5) {
        Some((idx, p)) => if idx < 31 {
            Some((spec_m4a_type_of(idx as int), p))
        } else {
            match spec_read_bits(data, p, 6) {
                Some((idx2, p2)) => Some((spec_m4a_type_of(idx2 + 32int), p2)),
                None => None,
            }
        },
        None => None,
    }
}

/// Reading a sampling frequency: a 4-bit table index, with the escape value
/// 15 followed by a 24-bit explicit rate.
pub open spec fn spec_read_sampling_frequency(data: Seq<u8>, pos: int) -> Option<(u32, int)> {
    match spec_read_bits(data, pos, 4) {
        Some((idx, p)) => if idx < 15 {
            Some((spec_aac_sample_rate(idx as int), p))
        } else {
            match spec_read_bits(data, p, 24) {
                Some((rate, p2)) => Some((rate as u32, p2)),
                None => None,
            }
        },
        None => None,
    }
}

/// Reading a channel configuration: a 4-bit index mapped through the channel
/// table when within it, and taken as the raw channel count otherwise.
pub open spec fn spec_read_channel_config(data: Seq<u8>, pos: int) -> Option<(u8, int)> {
    match spec_read_bits(data, pos, 4) {
        Some((idx, p)) => if idx < 8 {
            Some((spec_aac_channel_count(idx as int), p))
        } else {
            Some((idx as u8, p))
        },
        None => None,
    }
}

/// When the signalled type is SBR or PS, an extension sampling frequency and
/// the core object type follow, plus a channel configuration for the
/// BSAC error-resilient core; the extension is retained only as a presence
/// signal, so the values read here are dropped.
pub open spec fn spec_read_extension(data: Seq<u8>, pos: int, t: M4AType) -> Option<(M4AType, int)> {
    if t == M4AType::Sbr || t == M4AType::PS {
        match spec_read_sampling_frequency(data, pos) {
            Some((_ext_rate, p)) => match spec_read_object_type(data, p) {
                Some((core, p2)) => if core == M4AType::ER_BSAC {
                    match spec_read_channel_config(data, p2) {
                        Some((_ext_ch, p3)) => Some((core, p3)),
                        None => None,
                    }
                } else {
                    Some((core, p2))
                },
                None => None,
            },
            None => None,
        }
    } else {
        Some((t, pos))
    }
}

/// The extension block that ends a `GASpecificConfig` whose extension flag
/// is set: the resilience fields of the error-resilient variants, then one
/// more extension flag (its being set is detected, not a failure).
pub open spec fn spec_read_ga_ext(data: Seq<u8>, pos: int, t: M4AType) -> Option<int> {
    let after_res = if t == M4AType::ER_BSAC {
        spec_skip(data, pos, 16)
    } else if t == M4AType::ER_AAC_LC || t == M4AType::ER_AAC_LTP
        || t == M4AType::ER_AAC_Scalable || t == M4AType::ER_AAC_LD {
        spec_skip(data, pos, 3)
    } else {
        Some(pos)
    };
    match after_res {
        Some(p) => match spec_read_bits(data, p, 1) {
            Some((_v3, p1)) => Some(p1),
            None => None,
        },
        None => None,
    }
}

/// The `GASpecificConfig` record: the frame-length flag (960 samples when
/// set, 1024 otherwise), a core-coder delay, a layer field for the scalable
/// types, and the extension block of the error-resilient variants.
pub open spec fn spec_read_ga_config(data: Seq<u8>, pos: int, t: M4AType) -> Option<(usize, int)> {
    match spec_read_bits(data, pos, 1) {
        Some((short, p)) => {
            let samples: usize = if short == 1 { 960 } else { 1024 };
            match spec_read_bits(data, p, 1) {
                Some((depends, p1)) => {
                    let after_delay = if depends == 1 { spec_skip(data, p1, 14) } else { Some(p1) };
                    match after_delay {
                        Some(p2) => match spec_read_bits(data, p2, 1) {
                            Some((ext, p3)) => {
                                let after_layer = if t == M4AType::Scalable
                                    || t == M4AType::ER_AAC_Scalable {
                                    spec_skip(data, p3, 3)
                                } else {
                                    Some(p3)
                                };
                                match after_layer {
                                    Some(p4) => if ext == 1 {
                                        match spec_read_ga_ext(data, p4, t) {
                                            Some(p5) => Some((samples, p5)),
                                            None => None,
                                        }
                                    } else {
                                        Some((samples, p4))
                                    },
                                    None => None,
                                }
                            },
                            None => None,
                        },
                        None => None,
                    }
                },
                None => None,
            }
        },
        None => None,
    }
}

/// The error-protection configuration of the error-resilient types: two
/// bits, and one more direct-mapping bit when their value is 3.
pub open spec fn spec_read_ep_config(data: Seq<u8>, pos: int) -> Option<int> {
    match spec_read_bits(data, pos, 2) {
        Some((ep, p)) => if ep == 3 {
            spec_skip(data, p, 1)
        } else {
            Some(p)
        },
        None => None,
    }
}

/// The trailing SBR/PS sync extension, attempted only when at least 16 bits
/// remain: an 11-bit sync word gates an object type, presence bits, an
/// extension rate, and a second sync word.
pub open spec fn spec_read_sync_extension(data: Seq<u8>, pos: int) -> Option<int> {
    if data.len() * 8 - pos >= 16 {
        match spec_read_bits(data, pos, 11) {
            Some((sync, p)) => if sync == 0x2B7 {
                match spec_read_object_type(data, p) {
                    Some((t2, p1)) => if t2 == M4AType::Sbr {
                        match spec_read_bits(data, p1, 1) {
                            Some((present, p2)) => if present == 1 {
                                match spec_read_sampling_frequency(data, p2) {
                                    Some((_rate, p3)) => if data.len() * 8 - p3 >= 12 {
                                        match spec_read_bits(data, p3, 11) {
                                            Some((sync2, p4)) => if sync2 == 0x548 {
                                                spec_skip(data, p4, 1)
                                            } else {
                                                Some(p4)
                                            },
                                            None => None,
                                        }
                                    } else {
                                        Some(p3)
                                    },
                                    None => None,
                                }
                            } else {
                                Some(p2)
                            },
                            None => None,
                        }
                    } else if t2 == M4AType::PS {
                        match spec_read_bits(data, p1, 1) {
                            Some((present, p2)) => if present == 1 {
                                match spec_read_sampling_frequency(data, p2) {
                                    Some((_rate, p3)) => spec_skip(data, p3, 4),
                                    None => None,
                                }
                            } else {
                                Some(p2)
                            },
                            None => None,
                        }
                    } else {
                        Some(p1)
                    },
                    None => None,
                }
            } else {
                Some(p)
            },
            None => None,
        }
    } else {
        Some(pos)
    }
}

/// The whole `AudioSpecificConfig` grammar: object type, sampling frequency
/// (zero is rejected), channel configuration, the SBR/PS extension, the
/// `GASpecificConfig` record of the general-audio types (all others keep the
/// long frame of 1024 samples), the error-protection field of the
/// error-resilient types, and the trailing sync extension.
pub open spec fn spec_parse_config(data: Seq<u8>) -> Option<M4AInfo> {
    match spec_read_object_type(data, 0) {
        Some((t0, p)) => match spec_read_sampling_frequency(data, p) {
            Some((rate, p1)) => if rate == 0 {
                None
            } else {
                match spec_read_channel_config(data, p1) {
                    Some((channels, p2)) => {
                        let sbr_present = t0 == M4AType::Sbr || t0 == M4AType::PS;
                        match spec_read_extension(data, p2, t0) {
                            Some((t, p3)) => {
                                let ga = if spec_is_general_audio(t) {
                                    spec_read_ga_config(data, p3, t)
                                } else {
                                    Some((1024usize, p3))
                                };
                                match ga {
                                    Some((samples, p4)) => {
                                        let after_ep = if spec_is_error_resilient(t) {
                                            spec_read_ep_config(data, p4)
                                        } else {
                                            Some(p4)
                                        };
                                        match after_ep {
                                            Some(p5) => {
                                                let done = if sbr_present {
                                                    spec_read_sync_extension(data, p5)
                                                } else {
                                                    Some(p5)
                                                };
                                                match done {
                                                    Some(_p6) => Some(
                                                        M4AInfo {
                                                            otype: t,
                                                            sample_rate: rate,
                                                            sample_rate_index:
                                                                spec_sample_rate_index(rate),
                                                            channels,
                                                            samples,
                                                        },
                                                    ),
                                                    None => None,
                                                }
                                            },
                                            None => None,
                                        }
                                    },
                                    None => None,
                                }
                            },
                            None => None,
                        }
                    },
                    None => None,
                }
            },
            None => None,
        },
        None => None,
    }
}

/// A decoded `AudioSpecificConfig`: the stream metadata that the adapters
/// reconcile against what the engine later reports.
#[derive(Clone, Copy, Debug, PartialEq, Eq, Structural)]
pub struct M4AInfo {
    pub otype: M4AType,
    pub sample_rate: u32,
    pub sample_rate_index: u8,
    pub channels: u8,
    pub samples: usize,
}

impl M4AInfo {
    /// Reads an object type (5-bit index, escape 31 plus 6 bits).
    pub fn read_object_type(bs: &mut BitReader<'_>) -> (r: Result<M4AType, AdapterError>)
        requires
            old(bs).wf(),
        ensures
            final(bs).wf(),
            final(bs).data@ == old(bs).data@,
            match spec_read_object_type(old(bs).data@, old(bs).pos as int) {
                Some((t, p)) => r is Ok && r->Ok_0 == t && final(bs).pos == p,
                None => r == Result::<M4AType, AdapterError>::Err(AdapterError::ConfigParseError),
            },
    {
        proof {
            lemma_bits_at_bound(old(bs).data@, old(bs).pos as int, 5);
            lemma2_to64();
        }
        let idx = match bs.read_bits(5) {
            Ok(v) => v,
            Err(e) => {
                return Err(e);
            },
        };
        if idx < 31 {
            Ok(m4a_type_of(idx))
        } else {
            proof {
                lemma_bits_at_bound(bs.data@, bs.pos as int, 6);
                lemma2_to64();
            }
            let idx2 = match bs.read_bits(6) {
                Ok(v) => v,
                Err(e) => {
                    return Err(e);
                },
            };
            Ok(m4a_type_of(idx2 + 32))
        }
    }

    /// Reads a sampling frequency (4-bit index, escape 15 plus 24 bits).
    pub fn read_sampling_frequency(bs: &mut BitReader<'_>) -> (r: Result<u32, AdapterError>)
        requires
            old(bs).wf(),
        ensures
            final(bs).wf(),
            final(bs).data@ == old(bs).data@,
            match spec_read_sampling_frequency(old(bs).data@, old(bs).pos as int) {
                Some((rate, p)) => r is Ok && r->Ok_0 == rate && final(bs).pos == p,
                None => r == Result::<u32, AdapterError>::Err(AdapterError::ConfigParseError),
            },
    {
        proof {
            lemma_bits_at_bound(old(bs).data@, old(bs).pos as int, 4);
            lemma2_to64();
        }
        let idx = match bs.read_bits(4) {
            Ok(v) => v,
            Err(e) => {
                return Err(e);
            },
        };
        if idx < 15 {
            Ok(aac_sample_rate(idx))
        } else {
            proof {
                lemma_bits_at_bound(bs.data@, bs.pos as int, 24);
                lemma2_to64();
            }
            let rate = match bs.read_bits(24) {
                Ok(v) => v,
                Err(e) => {
                    return Err(e);
                },
            };
            Ok(rate)
        }
    }

    /// Reads a channel configuration (4-bit index, mapped through the table
    /// when within it).
    pub fn read_channel_config(bs: &mut BitReader<'_>) -> (r: Result<u8, AdapterError>)
        requires
            old(bs).wf(),
        ensures
            final(bs).wf(),
            final(bs).data@ == old(bs).data@,
            match spec_read_channel_config(old(bs).data@, old(bs).pos as int) {
                Some((ch, p)) => r is Ok && r->Ok_0 == ch && final(bs).pos == p,
                None => r == Result::<u8, AdapterError>::Err(AdapterError::ConfigParseError),
            },
    {
        proof {
            lemma_bits_at_bound(old(bs).data@, old(bs).pos as int, 4);
            lemma2_to64();
        }
        let idx = match bs.read_bits(4) {
            Ok(v) => v,
            Err(e) => {
                return Err(e);
            },
        };
        if idx < 8 {
            Ok(aac_channel_count(idx))
        } else {
            Ok(idx as u8)
        }
    }

    /// Reads the `GASpecificConfig` record for object type `t`, returning
    /// the samples-per-frame value it signals.
    fn read_ga_config(bs: &mut BitReader<'_>, t: M4AType) -> (r: Result<usize, AdapterError>)
        requires
            old(bs).wf(),
        ensures
            final(bs).wf(),
            final(bs).data@ == old(bs).data@,
            match spec_read_ga_config(old(bs).data@, old(bs).pos as int, t) {
                Some((samples, p)) => r is Ok && r->Ok_0 == samples && final(bs).pos == p,
                None => r == Result::<usize, AdapterError>::Err(AdapterError::ConfigParseError),
            },
    {
        let short = match bs.read_bool() {
            Ok(v) => v,
            Err(e) => {
                return Err(e);
            },
        };
        let samples: usize = if short {
            960
        } else {
            1024
        };
        let depends = match bs.read_bool() {
            Ok(v) => v,
            Err(e) => {
                return Err(e);
            },
        };
        if depends {
            match bs.read_bits(14) {
                Ok(_) => {},
                Err(e) => {
                    return Err(e);
                },
            }
        }
        let ext = match bs.read_bool() {
            Ok(v) => v,
            Err(e) => {
                return Err(e);
            },
        };
        if t == M4AType::Scalable || t == M4AType::ER_AAC_Scalable {
            match bs.read_bits(3) {
                Ok(_) => {},
                Err(e) => {
                    return Err(e);
                },
            }
        }
        if ext {
            match Self::read_ga_ext(bs, t) {
                Ok(_) => {},
                Err(e) => {
                    return Err(e);
                },
            }
        }
        Ok(samples)
    }

    /// Reads the extension block of a `GASpecificConfig` whose extension
    /// flag is set.
    fn read_ga_ext(bs: &mut BitReader<'_>, t: M4AType) -> (r: Result<(), AdapterError>)
        requires
            old(bs).wf(),
        ensures
            final(bs).wf(),
            final(bs).data@ == old(bs).data@,
            match spec_read_ga_ext(old(bs).data@, old(bs).pos as int, t) {
                Some(p) => r is Ok && final(bs).pos == p,
                None => r == Result::<(), AdapterError>::Err(AdapterError::ConfigParseError),
            },
    {
        if t == M4AType::ER_BSAC {
            match bs.read_bits(16) {
                Ok(_) => {},
                Err(e) => {
                    return Err(e);
                },
            }
        } else if t == M4AType::ER_AAC_LC || t == M4AType::ER_AAC_LTP
            || t == M4AType::ER_AAC_Scalable || t == M4AType::ER_AAC_LD {
            match bs.read_bits(3) {
                Ok(_) => {},
                Err(e) => {
                    return Err(e);
                },
            }
        }
        match bs.read_bool() {
            Ok(_) => {},
            Err(e) => {
                return Err(e);
            },
        }
        Ok(())
    }

    /// Reads the error-protection configuration of the error-resilient
    /// types.
    fn read_ep_config(bs: &mut BitReader<'_>) -> (r: Result<(), AdapterError>)
        requires
            old(bs).wf(),
        ensures
            final(bs).wf(),
            final(bs).data@ == old(bs).data@,
            match spec_read_ep_config(old(bs).data@, old(bs).pos as int) {
                Some(p) => r is Ok && final(bs).pos == p,
                None => r == Result::<(), AdapterError>::Err(AdapterError::ConfigParseError),
            },
    {
        let ep = match bs.read_bits(2) {
            Ok(v) => v,
            Err(e) => {
                return Err(e);
            },
        };
        if ep == 3 {
            match bs.read_bits(1) {
                Ok(_) => {},
                Err(e) => {
                    return Err(e);
                },
            }
        }
        Ok(())
    }

    /// Attempts the trailing SBR/PS sync extension when at least 16 bits
    /// remain.
    fn read_sync_extension(bs: &mut BitReader<'_>) -> (r: Result<(), AdapterError>)
        requires
            old(bs).wf(),
        ensures
            final(bs).wf(),
            final(bs).data@ == old(bs).data@,
            match spec_read_sync_extension(old(bs).data@, old(bs).pos as int) {
                Some(p) => r is Ok && final(bs).pos == p,
                None => r == Result::<(), AdapterError>::Err(AdapterError::ConfigParseError),
            },
    {
        if bs.bits_left() >= 16 {
            let sync = match bs.read_bits(11) {
                Ok(v) => v,
                Err(e) => {
                    return Err(e);
                },
            };
            if sync == 0x2B7 {
                let t2 = match Self::read_object_type(bs) {
                    Ok(v) => v,
                    Err(e) => {
                        return Err(e);
                    },
                };
                if t2 == M4AType::Sbr {
                    let present = match bs.read_bool() {
                        Ok(v) => v,
                        Err(e) => {
                            return Err(e);
                        },
                    };
                    if present {
                        match Self::read_sampling_frequency(bs) {
                            Ok(_) => {},
                            Err(e) => {
                                return Err(e);
                            },
                        }
                        if bs.bits_left() >= 12 {
                            let sync2 = match bs.read_bits(11) {
                                Ok(v) => v,
                                Err(e) => {
                                    return Err(e);
                                },
                            };
                            if sync2 == 0x548 {
                                match bs.read_bits(1) {
                                    Ok(_) => {},
                                    Err(e) => {
                                        return Err(e);
                                    },
                                }
                            }
                        }
                    }
                } else if t2 == M4AType::PS {
                    let present = match bs.read_bool() {
                        Ok(v) => v,
                        Err(e) => {
                            return Err(e);
                        },
                    };
                    if present {
                        match Self::read_sampling_frequency(bs) {
                            Ok(_) => {},
                            Err(e) => {
                                return Err(e);
                            },
                        }
                        match bs.read_bits(4) {
                            Ok(_) => {},
                            Err(e) => {
                                return Err(e);
                            },
                        }
                    }
                }
            }
        }
        Ok(())
    }

    /// Parses an `AudioSpecificConfig` blob into `self`, per the grammar of
    /// [`spec_parse_config`].  Every bit read is checked against the
    /// remaining bit count; a read past the end is a fatal parse error, and
    /// `self` is left unspecified on failure.
    pub fn read(&mut self, buf: &[u8]) -> (r: Result<(), AdapterError>)
        requires
            buf@.len() * 8 <= usize::MAX,
        ensures
            match spec_parse_config(buf@) {
                Some(info) => r is Ok && *final(self) == info,
                None => r == Result::<(), AdapterError>::Err(AdapterError::ConfigParseError),
            },
    {
        let mut bs = BitReader::new(buf);
        let t0 = match Self::read_object_type(&mut bs) {
            Ok(v) => v,
            Err(e) => {
                return Err(e);
            },
        };
        let sample_rate = match Self::read_sampling_frequency(&mut bs) {
            Ok(v) => v,
            Err(e) => {
                return Err(e);
            },
        };
        if sample_rate == 0 {
            return Err(AdapterError::ConfigParseError);
        }
        let channels = match Self::read_channel_config(&mut bs) {
            Ok(v) => v,
            Err(e) => {
                return Err(e);
            },
        };
        let sbr_present = t0 == M4AType::Sbr || t0 == M4AType::PS;
        let otype = if sbr_present {
            match Self::read_sampling_frequency(&mut bs) {
                Ok(_) => {},
                Err(e) => {
                    return Err(e);
                },
            }
            let core = match Self::read_object_type(&mut bs) {
                Ok(v) => v,
                Err(e) => {
                    return Err(e);
                },
            };
            if core == M4AType::ER_BSAC {
                match Self::read_channel_config(&mut bs) {
                    Ok(_) => {},
                    Err(e) => {
                        return Err(e);
                    },
                }
            }
            core
        } else {
            t0
        };
        let samples: usize = if is_general_audio(otype) {
            match Self::read_ga_config(&mut bs, otype) {
                Ok(v) => v,
                Err(e) => {
                    return Err(e);
                },
            }
        } else {
            1024
        };
        if is_error_resilient(otype) {
            match Self::read_ep_config(&mut bs) {
                Ok(_) => {},
                Err(e) => {
                    return Err(e);
                },
            }
        }
        if sbr_present {
            match Self::read_sync_extension(&mut bs) {
                Ok(_) => {},
                Err(e) => {
                    return Err(e);
                },
            }
        }
        *self = M4AInfo {
            otype,
            sample_rate,
            sample_rate_index: sample_rate_index(sample_rate),
            channels,
            samples,
        };
        Ok(())
    }
}

} // verus!
