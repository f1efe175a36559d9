//! The Opus decoder adapter: native status classification, pre-skip
//! extraction, and the shape-reconciling output-buffer state machine.  The
//! native engine itself is driven by the caller, who hands its results to
//! the adapter as plain values.

use vstd::prelude::*;

use crate::buffer::{spec_trimmed_frames, PcmBuffer};
use crate::AdapterError;

verus! {

/// The native code for success.
pub const OPUS_OK: i32 = 0;

/// The native code for invalid or out-of-range arguments.
pub const OPUS_BAD_ARG: i32 = -1;

/// The native code for an invalid mode structure.
pub const OPUS_BUFFER_TOO_SMALL: i32 = -2;

/// The native code for an internal error.
pub const OPUS_INTERNAL_ERROR: i32 = -3;

/// The native code for corrupted compressed data.
pub const OPUS_INVALID_PACKET: i32 = -4;

/// The native code for an invalid or unsupported request.
pub const OPUS_UNIMPLEMENTED: i32 = -5;

/// The native code for an invalid or freed codec structure.
pub const OPUS_INVALID_STATE: i32 = -6;

/// The native code for a failed memory allocation.
pub const OPUS_ALLOC_FAIL: i32 = -7;

/// The reference rate, in Hz, at which a stream's pre-skip is counted, and
/// the rate assumed when shaping the initial output buffer.
pub const DEFAULT_SAMPLE_RATE: usize = 48000;

/// The highest sampling rate of the engine.
pub const MAX_SAMPLE_RATE: usize = 48000;

/// Samples per channel of a default 20 ms frame at the reference rate.
pub const DEFAULT_SAMPLES_PER_CHANNEL: usize = DEFAULT_SAMPLE_RATE * 20 / 1000;

/// Samples per channel of the worst case: 120 ms of combined frames at the
/// highest rate.
pub const MAX_SAMPLES_PER_CHANNEL: usize = MAX_SAMPLE_RATE * 120 / 1000;

/// The classified outcome of a native engine call.
#[derive(Clone, Copy, Debug, PartialEq, Eq, Structural)]
pub enum EngineStatus {
    Succeeded,
    BadArgument,
    BufferTooSmall,
    InternalError,
    InvalidPacket,
    Unimplemented,
    InvalidState,
    AllocationFailure,
}

/// Classification of a native status code: non-negative codes (which carry
/// a sample count) succeed, the documented error codes map to their class,
/// and unknown negative codes count as internal errors.
pub open spec fn spec_classify_status(code: i32) -> EngineStatus {
    if code >= 0 {
        EngineStatus::Succeeded
    } else if code == OPUS_BAD_ARG {
        EngineStatus::BadArgument
    } else if code == OPUS_BUFFER_TOO_SMALL {
        EngineStatus::BufferTooSmall
    } else if code == OPUS_INTERNAL_ERROR {
        EngineStatus::InternalError
    } else if code == OPUS_INVALID_PACKET {
        EngineStatus::InvalidPacket
    } else if code == OPUS_UNIMPLEMENTED {
        EngineStatus::Unimplemented
    } else if code == OPUS_INVALID_STATE {
        EngineStatus::InvalidState
    } else if code == OPUS_ALLOC_FAIL {
        EngineStatus::AllocationFailure
    } else {
        EngineStatus::InternalError
    }
}

/// Executable twin of [`spec_classify_status`].
pub fn classify_status(code: i32) -> (r: EngineStatus)
    ensures
        r == spec_classify_status(code),
{
    if code >= 0 {
        EngineStatus::Succeeded
    } else if code == OPUS_BAD_ARG {
        EngineStatus::BadArgument
    } else if code == OPUS_BUFFER_TOO_SMALL {
        EngineStatus::BufferTooSmall
    } else if code == OPUS_INTERNAL_ERROR {
        EngineStatus::InternalError
    } else if code == OPUS_INVALID_PACKET {
        EngineStatus::InvalidPacket
    } else if code == OPUS_UNIMPLEMENTED {
        EngineStatus::Unimplemented
    } else if code == OPUS_INVALID_STATE {
        EngineStatus::InvalidState
    } else if code == OPUS_ALLOC_FAIL {
        EngineStatus::AllocationFailure
    } else {
        EngineStatus::InternalError
    }
}

/// Only a rejected packet (the transport-sync class) is recoverable; every
/// other failure is fatal.
pub open spec fn spec_is_recoverable(s: EngineStatus) -> bool {
    s == EngineStatus::InvalidPacket
}

/// The adapter error that a failed engine status propagates as: allocation
/// failure is resource exhaustion, a rejected packet is a transport-sync
/// error, and the rest are fatal engine errors.
pub open spec fn spec_status_error(s: EngineStatus) -> AdapterError {
    if s == EngineStatus::AllocationFailure {
        AdapterError::ResourceExhaustion
    } else if s == EngineStatus::InvalidPacket {
        AdapterError::TransportSyncError
    } else {
        AdapterError::EngineFatalError
    }
}

/// The native engine's description of a status code; codes outside the
/// documented set describe themselves as empty.
pub fn error_code_to_str(code: i32) -> (r: &'static str)
    ensures
        code == OPUS_BAD_ARG ==> r@ == "One or more invalid/out of range arguments."@,
        code == OPUS_BUFFER_TOO_SMALL ==> r@ == "The mode struct passed is invalid."@,
        code == OPUS_INTERNAL_ERROR ==> r@ == "An internal error was detected."@,
        code == OPUS_INVALID_PACKET ==> r@ == "The compressed data passed is corrupted."@,
        code == OPUS_UNIMPLEMENTED ==> r@ == "Invalid/unsupported request number."@,
        code == OPUS_INVALID_STATE ==> r@
            == "An encoder or decoder structure is invalid or already freed."@,
        code == OPUS_ALLOC_FAIL ==> r@ == "Memory allocation has failed. "@,
        !(OPUS_ALLOC_FAIL <= code <= OPUS_BAD_ARG) ==> r@ == ""@,
{
    if code == OPUS_BAD_ARG {
        "One or more invalid/out of range arguments."
    } else if code == OPUS_BUFFER_TOO_SMALL {
        "The mode struct passed is invalid."
    } else if code == OPUS_INTERNAL_ERROR {
        "An internal error was detected."
    } else if code == OPUS_INVALID_PACKET {
        "The compressed data passed is corrupted."
    } else if code == OPUS_UNIMPLEMENTED {
        "Invalid/unsupported request number."
    } else if code == OPUS_INVALID_STATE {
        "An encoder or decoder structure is invalid or already freed."
    } else if code == OPUS_ALLOC_FAIL {
        "Memory allocation has failed. "
    } else {
        ""
    }
}

/// The pre-skip sample count of an identification header: after the 8-byte
/// magic, the version byte and the channel byte come two little-endian
/// bytes counting the samples (at the reference rate) to discard from the
/// start of the stream.
pub fn parse_pre_skip(buf: &[u8]) -> (r: Result<usize, AdapterError>)
    ensures
        buf@.len() >= 12 ==> r is Ok && r->Ok_0 == buf@[10] + 256 * buf@[11],
        buf@.len() < 12 ==> r == Result::<usize, AdapterError>::Err(AdapterError::ConfigParseError),
{
    if buf.len() < 12 {
        return Err(AdapterError::ConfigParseError);
    }
    let lo = buf[10];
    let hi = buf[11];
    Ok((lo as usize) + 256 * (hi as usize))
}

/// The pre-skip converted from the reference rate to the stream's rate.
pub open spec fn spec_skip_samples(pre_skip: int, sample_rate: int) -> int {
    pre_skip * sample_rate / 48000
}

/// The pre-skip that an adapter starts with: the parsed value when an
/// identification header of at least 12 bytes is present, and zero
/// otherwise.
pub open spec fn spec_initial_pre_skip(extra_data: Option<Seq<u8>>) -> int {
    match extra_data {
        Some(b) => if b.len() >= 12 {
            b[10] + 256 * b[11]
        } else {
            0
        },
        None => 0,
    }
}

/// The Opus decoder adapter's state: the reusable output buffer, the shape
/// it was last allocated for, and the one-shot pre-skip.
pub struct OpusAdapter {
    pub buf: PcmBuffer,
    pub samples_per_channel: usize,
    pub sample_rate: u32,
    pub num_channels: usize,
    pub pre_skip: usize,
}

impl OpusAdapter {
    /// The buffer matches the adapter's declared shape, the channel count
    /// is supported, and the pre-skip fits its 16-bit wire field.
    pub open spec fn wf(self) -> bool {
        &&& self.buf.wf()
        &&& self.buf.sample_rate == self.sample_rate
        &&& self.buf.channels as int == self.num_channels
        &&& self.buf.capacity == self.samples_per_channel
        &&& 1 <= self.num_channels <= 2
        &&& self.pre_skip <= 0xFFFF
    }

    /// Builds an adapter from the container-declared parameters.  The
    /// channel count and the sample rate are required, and only one or two
    /// channels are supported; a malformed identification header is not an
    /// error, it only leaves the pre-skip at zero.
    pub fn try_new(
        sample_rate: Option<u32>,
        num_channels: Option<usize>,
        extra_data: Option<&Vec<u8>>,
    ) -> (r: Result<OpusAdapter, AdapterError>)
        ensures
            num_channels is None ==> r == Result::<OpusAdapter, AdapterError>::Err(
                AdapterError::UnsupportedConfiguration,
            ),
            num_channels is Some && sample_rate is None ==> r == Result::<
                OpusAdapter,
                AdapterError,
            >::Err(AdapterError::UnsupportedConfiguration),
            num_channels is Some && sample_rate is Some && !(1 <= num_channels->0 <= 2) ==> r
                == Result::<OpusAdapter, AdapterError>::Err(AdapterError::UnsupportedConfiguration),
            num_channels is Some && sample_rate is Some && 1 <= num_channels->0 <= 2 ==> {
                &&& r is Ok
                &&& r->Ok_0.wf()
                &&& r->Ok_0.sample_rate == sample_rate->0
                &&& r->Ok_0.num_channels == num_channels->0
                &&& r->Ok_0.samples_per_channel == DEFAULT_SAMPLES_PER_CHANNEL
                &&& r->Ok_0.pre_skip == spec_initial_pre_skip(
                    match extra_data {
                        Some(b) => Some(b@),
                        None => None,
                    },
                )
                &&& r->Ok_0.buf.frames == 0
            },
    {
        let num_channels = match num_channels {
            Some(c) => c,
            None => {
                return Err(AdapterError::UnsupportedConfiguration);
            },
        };
        let sample_rate = match sample_rate {
            Some(s) => s,
            None => {
                return Err(AdapterError::UnsupportedConfiguration);
            },
        };
        if num_channels < 1 || num_channels > 2 {
            return Err(AdapterError::UnsupportedConfiguration);
        }
        let pre_skip = match extra_data {
            Some(b) => match parse_pre_skip(b.as_slice()) {
                Ok(p) => p,
                Err(_) => 0,
            },
            None => 0,
        };
        let buf = PcmBuffer::new_unchecked(
            sample_rate,
            DEFAULT_SAMPLES_PER_CHANNEL,
            num_channels as u8,
        );
        Ok(
            OpusAdapter {
                buf,
                samples_per_channel: DEFAULT_SAMPLES_PER_CHANNEL,
                sample_rate,
                num_channels,
                pre_skip,
            },
        )
    }

    /// Takes one successfully decoded frame: when the per-channel sample
    /// count differs from the buffer's shape the buffer is reallocated to
    /// the new shape, the interleaved samples are split into planes, the
    /// packet trim plus the rate-converted pre-skip is applied, and the
    /// pre-skip is spent — it trims the first packet only.
    pub fn accept_decoded(
        &mut self,
        samples_per_channel: usize,
        pcm: &[i16],
        trim_start: u32,
        trim_end: u32,
    )
        requires
            old(self).wf(),
            samples_per_channel * old(self).num_channels <= pcm@.len(),
        ensures
            final(self).wf(),
            final(self).sample_rate == old(self).sample_rate,
            final(self).num_channels == old(self).num_channels,
            final(self).samples_per_channel == samples_per_channel,
            final(self).buf.capacity == samples_per_channel,
            final(self).pre_skip == 0,
            final(self).buf.frames == spec_trimmed_frames(
                samples_per_channel as int,
                trim_start + spec_skip_samples(
                    old(self).pre_skip as int,
                    old(self).sample_rate as int,
                ),
                trim_end as int,
            ),
            ({
                let start = trim_start + spec_skip_samples(
                    old(self).pre_skip as int,
                    old(self).sample_rate as int,
                );
                &&& (old(self).num_channels == 1 ==> forall|i: int|
                    0 <= i < final(self).buf.frames ==> final(self).buf.left@[i] == pcm@[start + i])
                &&& (old(self).num_channels == 2 ==> forall|i: int|
                    0 <= i < final(self).buf.frames ==> final(self).buf.left@[i] == pcm@[2 * (start
                        + i)] && final(self).buf.right@[i] == pcm@[2 * (start + i) + 1])
            }),
    {
        let ghost skip_g = spec_skip_samples(self.pre_skip as int, self.sample_rate as int);
        if samples_per_channel != self.samples_per_channel {
            self.buf = PcmBuffer::new_unchecked(
                self.sample_rate,
                samples_per_channel,
                self.buf.channels,
            );
            self.samples_per_channel = samples_per_channel;
        }
        self.buf.render_from_interleaved(pcm);
        let ghost mid_left = self.buf.left@;
        let ghost mid_right = self.buf.right@;
        let ghost frames_before = self.buf.frames as int;
        proof {
            assert((self.pre_skip as int) * (self.sample_rate as int) <= 0xFFFF * 0xFFFF_FFFF)
                by (nonlinear_arith)
                requires
                    self.pre_skip <= 0xFFFF,
                    self.sample_rate <= 0xFFFF_FFFF,
            ;
        }
        let skip64: u64 = (self.pre_skip as u64) * (self.sample_rate as u64) / 48000;
        proof {
            assert(skip64 == skip_g);
            assert(skip64 <= 0xFFFF * 0xFFFF_FFFF / 48000);
        }
        let start64: u64 = (trim_start as u64) + skip64;
        let start: usize = if start64 > self.buf.frames as u64 {
            self.buf.frames
        } else {
            start64 as usize
        };
        self.buf.trim(start, trim_end as usize);
        proof {
            let plen = pcm@.len() as int;
            let nch = old(self).num_channels as int;
            if self.num_channels == 1 {
                assert(samples_per_channel as int <= plen) by (nonlinear_arith)
                    requires
                        (samples_per_channel as int) * nch <= plen,
                        nch == 1,
                ;
            } else {
                assert(2 * (samples_per_channel as int) <= plen) by (nonlinear_arith)
                    requires
                        (samples_per_channel as int) * nch <= plen,
                        nch == 2,
                ;
            }
            assert(spec_trimmed_frames(frames_before, start as int, trim_end as int)
                == spec_trimmed_frames(frames_before, trim_start + skip_g, trim_end as int));
            if self.buf.frames > 0 {
                assert(start as int == trim_start + skip_g);
                if self.num_channels == 1 {
                    assert forall|i: int| 0 <= i < self.buf.frames implies self.buf.left@[i]
                        == pcm@[trim_start + skip_g + i] by {
                        assert(0 <= start + i < samples_per_channel);
                        assert(self.buf.left@[i] == mid_left[start + i]);
                        assert(mid_left == pcm@.subrange(0, samples_per_channel as int));
                        assert(pcm@.subrange(0, samples_per_channel as int)[start + i] == pcm@[start
                            + i]);
                    }
                } else {
                    assert forall|i: int| 0 <= i < self.buf.frames implies self.buf.left@[i]
                        == pcm@[2 * (trim_start + skip_g + i)] && self.buf.right@[i] == pcm@[2 * (
                    trim_start + skip_g + i) + 1] by {
                        assert(self.buf.left@[i] == mid_left[start + i]);
                        assert(self.buf.right@[i] == mid_right[start + i]);
                    }
                }
            }
        }
        self.pre_skip = 0;
    }

    /// Absorbs or propagates a failed engine status: a rejected packet
    /// clears the buffer and succeeds with an empty frame, leaving the rest
    /// of the adapter untouched; every other failure leaves the whole
    /// adapter untouched and propagates its classified error.
    pub fn on_engine_error(&mut self, code: i32) -> (r: Result<(), AdapterError>)
        requires
            old(self).wf(),
            code < 0,
        ensures
            final(self).wf(),
            spec_is_recoverable(spec_classify_status(code)) ==> {
                &&& r is Ok
                &&& final(self).buf.frames == 0
                &&& final(self).buf.same_shape(old(self).buf)
                &&& final(self).samples_per_channel == old(self).samples_per_channel
                &&& final(self).sample_rate == old(self).sample_rate
                &&& final(self).num_channels == old(self).num_channels
                &&& final(self).pre_skip == old(self).pre_skip
                &&& final(self).buf.left@ == old(self).buf.left@
                &&& final(self).buf.right@ == old(self).buf.right@
            },
            !spec_is_recoverable(spec_classify_status(code)) ==> r == Result::<(), AdapterError>::Err(
                spec_status_error(spec_classify_status(code)),
            ) && *final(self) == *old(self),
    {
        let status = classify_status(code);
        if status == EngineStatus::InvalidPacket {
            self.buf.clear();
            Ok(())
        } else {
            Err(
                if status == EngineStatus::AllocationFailure {
                    AdapterError::ResourceExhaustion
                } else {
                    AdapterError::EngineFatalError
                },
            )
        }
    }

    /// The buffer of the last decoded frame, unchanged until the next call.
    pub fn last_decoded(&self) -> (r: &PcmBuffer)
        ensures
            r == self.buf,
    {
        &self.buf
    }
}

} // verus!
