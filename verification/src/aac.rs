//! The AAC decoder adapter: ADTS re-framing, the validation state machine
//! that reconciles container-declared metadata with what the engine
//! reports, and the output-buffer logic.  The external decoding engine is
//! reached only through the trusted wrappers below; everything it reports
//! is handled by verified functions that take those values as arguments.

use vstd::prelude::*;

use crate::adts::{construct_adts_header, spec_adts_header};
use crate::buffer::{spec_trimmed_frames, PcmBuffer};
use crate::meta::{
    m4a_type_index, m4a_type_of, sample_rate_index, spec_m4a_type_index, spec_m4a_type_of,
    spec_parse_config, spec_sample_rate_index, M4AInfo, M4AType,
};
use crate::AdapterError;

verus! {

/// Capacity of the interleaved scratch buffer the engine decodes into.
pub const MAX_SAMPLES: usize = 8192;

#[verifier::external_type_specification]
#[verifier::external_body]
pub struct ExDecoder(fdk_aac::dec::Decoder);

#[verifier::external_type_specification]
#[verifier::external_body]
pub struct ExDecoderError(fdk_aac::dec::DecoderError);

/// Relies on fdk_aac::dec::Decoder::new, which opens an engine instance
/// for ADTS transport framing.
#[verifier::external_body]
fn engine_new() -> fdk_aac::dec::Decoder {
    fdk_aac::dec::Decoder::new(fdk_aac::dec::Transport::Adts)
}

/// Relies on fdk_aac::dec::Decoder::fill, which hands compressed bytes to
/// the engine and returns how many it consumed — never more than it was
/// given.
#[verifier::external_body]
fn engine_fill(dec: &mut fdk_aac::dec::Decoder, data: &[u8]) -> (r: Result<
    usize,
    fdk_aac::dec::DecoderError,
>)
    ensures
        r is Ok ==> r->Ok_0 <= data@.len(),
{
    dec.fill(data)
}

/// Relies on fdk_aac::dec::Decoder::decode_frame, which decodes one frame
/// into the scratch buffer in place; a slice cannot change length.
#[verifier::external_body]
fn engine_decode_frame(dec: &mut fdk_aac::dec::Decoder, pcm: &mut Vec<i16>) -> (r: Result<
    (),
    fdk_aac::dec::DecoderError,
>)
    ensures
        final(pcm)@.len() == old(pcm)@.len(),
{
    dec.decode_frame(pcm.as_mut_slice())
}

/// Relies on fdk_aac::dec::Decoder::stream_info, reading the audio object
/// type, the output sample rate, the core sample rate and the channel
/// count that the engine reports for the current stream.
#[verifier::external_body]
fn engine_stream_info(dec: &fdk_aac::dec::Decoder) -> (i32, i32, i32, i32) {
    let info = dec.stream_info();
    (info.aot, info.sampleRate, info.aacSampleRate, info.numChannels)
}

/// Relies on fdk_aac::dec::Decoder::decoded_frame_size: the total sample
/// count, over all channels, of the last decoded frame.
#[verifier::external_body]
fn engine_decoded_frame_size(dec: &fdk_aac::dec::Decoder) -> usize {
    dec.decoded_frame_size()
}

/// Relies on the equality of fdk_aac::dec::DecoderError values: whether
/// the error is the transport-sync failure, the one recoverable class.
#[verifier::external_body]
fn err_is_transport_sync(e: &fdk_aac::dec::DecoderError) -> bool {
    *e == fdk_aac::dec::DecoderError::TRANSPORT_SYNC_ERROR
}

/// Relies on the equality of fdk_aac::dec::DecoderError values: whether
/// the error reports an exhausted heap.
#[verifier::external_body]
fn err_is_out_of_memory(e: &fdk_aac::dec::DecoderError) -> bool {
    *e == fdk_aac::dec::DecoderError::OUT_OF_MEMORY
}

/// The object type whose index feeds the 2-bit ADTS profile field: types
/// with indices 1 through 4 fit it as themselves; every other type —
/// including the SBR and PS extension signals — is coerced to the base
/// low-complexity profile before synthesis.
pub open spec fn spec_profile_type(t: M4AType) -> M4AType {
    if 1 <= spec_m4a_type_index(t) <= 4 {
        t
    } else {
        M4AType::Lc
    }
}

/// Executable twin of [`spec_profile_type`].
pub fn profile_type(t: M4AType) -> (r: M4AType)
    ensures
        r == spec_profile_type(t),
{
    let idx = m4a_type_index(t);
    if 1 <= idx && idx <= 4 {
        t
    } else {
        M4AType::Lc
    }
}

/// The stream metadata derived from what the engine reports: the object
/// type (unknown when out of the table), the core sample rate and its
/// table index, the truncated channel count, and the per-channel frame
/// size obtained by dividing the total frame size by the channel count
/// (zero when there are no channels).
pub open spec fn spec_reported_info(
    aot: i32,
    aac_rate: i32,
    num_channels: i32,
    frame_capacity: usize,
) -> M4AInfo {
    let chus = num_channels as usize;
    M4AInfo {
        otype: spec_m4a_type_of(aot as int),
        sample_rate: aac_rate as u32,
        sample_rate_index: spec_sample_rate_index(aac_rate as u32),
        channels: num_channels as u8,
        samples: if chus == 0 {
            0
        } else {
            (frame_capacity as int / chus as int) as usize
        },
    }
}

/// The AAC decoder adapter: the current stream metadata, the one-way
/// validation flag, the reusable planar output buffer, the engine handle,
/// and the interleaved scratch buffer.
pub struct AacAdapter {
    pub m4a_info: M4AInfo,
    pub m4a_info_validated: bool,
    pub buf: PcmBuffer,
    pub engine: fdk_aac::dec::Decoder,
    pub pcm: Vec<i16>,
}

impl AacAdapter {
    /// The buffer matches the metadata's shape, the sampling-frequency
    /// index fits its 4-bit field, and the scratch buffer keeps its fixed
    /// capacity.
    pub open spec fn wf(self) -> bool {
        &&& self.buf.wf()
        &&& self.buf.channels == self.m4a_info.channels
        &&& self.buf.capacity == self.m4a_info.samples
        &&& self.m4a_info.sample_rate_index < 16
        &&& self.pcm@.len() == MAX_SAMPLES
    }

    /// Builds an adapter at stream setup.  A configuration blob, when
    /// present, must hold at least two bytes and parse; without one, the
    /// container must supply both a channel count and a sample rate, the
    /// object type defaults to low complexity, and the frame size is
    /// unknown until the engine reports it.  A missing required value and
    /// a channel count outside 1..=2 are unsupported configurations.
    pub fn try_new(extra_data: Option<&Vec<u8>>, sample_rate: Option<u32>, channels: Option<u8>)
        -> (r: Result<AacAdapter, AdapterError>)
        requires
            extra_data is Some ==> extra_data->0@.len() * 8 <= usize::MAX,
        ensures
            ({
                let expected: Result<M4AInfo, AdapterError> = match extra_data {
                    Some(b) => if b@.len() < 2 {
                        Err(AdapterError::ConfigParseError)
                    } else {
                        match spec_parse_config(b@) {
                            Some(info) => Ok(info),
                            None => Err(AdapterError::ConfigParseError),
                        }
                    },
                    None => match (channels, sample_rate) {
                        (Some(ch), Some(rate)) => Ok(
                            M4AInfo {
                                otype: M4AType::Lc,
                                sample_rate: rate,
                                sample_rate_index: spec_sample_rate_index(rate),
                                channels: ch,
                                samples: 0,
                            },
                        ),
                        _ => Err(AdapterError::UnsupportedConfiguration),
                    },
                };
                match expected {
                    Err(e) => r == Result::<AacAdapter, AdapterError>::Err(e),
                    Ok(info) => if 1 <= info.channels <= 2 {
                        &&& r is Ok
                        &&& r->Ok_0.wf()
                        &&& r->Ok_0.m4a_info == info
                        &&& !r->Ok_0.m4a_info_validated
                        &&& r->Ok_0.buf.sample_rate == info.sample_rate
                        &&& r->Ok_0.buf.frames == 0
                    } else {
                        r == Result::<AacAdapter, AdapterError>::Err(
                            AdapterError::UnsupportedConfiguration,
                        )
                    },
                }
            }),
    {
        let m4a_info: M4AInfo = match extra_data {
            Some(b) => {
                if b.len() < 2 {
                    return Err(AdapterError::ConfigParseError);
                }
                let mut info = M4AInfo {
                    otype: M4AType::Null,
                    sample_rate: 0,
                    sample_rate_index: 0,
                    channels: 0,
                    samples: 0,
                };
                match info.read(b.as_slice()) {
                    Ok(_) => {},
                    Err(e) => {
                        return Err(e);
                    },
                }
                info
            },
            None => {
                let ch = match channels {
                    Some(c) => c,
                    None => {
                        return Err(AdapterError::UnsupportedConfiguration);
                    },
                };
                let rate = match sample_rate {
                    Some(s) => s,
                    None => {
                        return Err(AdapterError::UnsupportedConfiguration);
                    },
                };
                M4AInfo {
                    otype: M4AType::Lc,
                    sample_rate: rate,
                    sample_rate_index: sample_rate_index(rate),
                    channels: ch,
                    samples: 0,
                }
            },
        };
        let buf = match PcmBuffer::new(m4a_info.sample_rate, m4a_info.samples, m4a_info.channels) {
            Ok(b) => b,
            Err(e) => {
                return Err(e);
            },
        };
        let pcm = Self::scratch();
        let engine = engine_new();
        Ok(AacAdapter { m4a_info, m4a_info_validated: false, buf, engine, pcm })
    }

    /// The zeroed interleaved scratch buffer.
    fn scratch() -> (r: Vec<i16>)
        ensures
            r@.len() == MAX_SAMPLES,
    {
        let mut v: Vec<i16> = Vec::new();
        let mut k: usize = 0;
        while k < MAX_SAMPLES
            invariant
                k <= MAX_SAMPLES,
                v@.len() == k,
            decreases MAX_SAMPLES - k,
        {
            v.push(0);
            k = k + 1;
        }
        v
    }

    /// Absorbs a transport-sync failure: the output buffer is emptied for
    /// this call and every other part of the adapter is left unchanged, so
    /// the next packet proceeds normally.
    pub fn handle_transport_sync(&mut self)
        requires
            old(self).wf(),
        ensures
            final(self).wf(),
            final(self).buf.frames == 0,
            final(self).m4a_info == old(self).m4a_info,
            final(self).m4a_info_validated == old(self).m4a_info_validated,
            final(self).buf.same_shape(old(self).buf),
            final(self).buf.left@ == old(self).buf.left@,
            final(self).buf.right@ == old(self).buf.right@,
            final(self).pcm@ == old(self).pcm@,
    {
        self.buf.clear();
    }

    /// The one-way validation transition: the engine-reported values
    /// unconditionally replace the current metadata — even one parsed from
    /// the blob — and the output buffer is reallocated to the reported
    /// shape at the engine's output rate.  A reported channel count
    /// outside 1..=2 is unsupported and leaves the whole adapter exactly
    /// as it was, so further calls stay possible.
    pub fn configure_metadata(
        &mut self,
        aot: i32,
        output_rate: i32,
        aac_rate: i32,
        num_channels: i32,
        frame_capacity: usize,
    ) -> (r: Result<(), AdapterError>)
        requires
            old(self).wf(),
        ensures
            final(self).wf(),
            final(self).pcm@ == old(self).pcm@,
            ({
                let info = spec_reported_info(aot, aac_rate, num_channels, frame_capacity);
                &&& (1 <= info.channels <= 2 ==> {
                    &&& r is Ok
                    &&& final(self).m4a_info == info
                    &&& final(self).m4a_info_validated
                    &&& final(self).buf.sample_rate == output_rate as u32
                    &&& final(self).buf.channels == info.channels
                    &&& final(self).buf.capacity == info.samples
                    &&& final(self).buf.frames == 0
                })
                &&& (!(1 <= info.channels <= 2) ==> r == Result::<(), AdapterError>::Err(
                    AdapterError::UnsupportedConfiguration,
                ) && *final(self) == *old(self))
            }),
    {
        let ch8: u8 = #[verifier::truncate] (num_channels as u8);
        if ch8 < 1 || ch8 > 2 {
            return Err(AdapterError::UnsupportedConfiguration);
        }
        let otype = if aot < 0 || aot > 41 {
            M4AType::Unknown
        } else {
            m4a_type_of(aot as u32)
        };
        let chus: usize = #[verifier::truncate] (num_channels as usize);
        let samples: usize = if chus == 0 {
            0
        } else {
            frame_capacity / chus
        };
        let rate: u32 = #[verifier::truncate] (aac_rate as u32);
        self.m4a_info = M4AInfo {
            otype,
            sample_rate: rate,
            sample_rate_index: sample_rate_index(rate),
            channels: ch8,
            samples,
        };
        proof {
            assert(self.m4a_info == spec_reported_info(aot, aac_rate, num_channels, frame_capacity));
        }
        let out_rate: u32 = #[verifier::truncate] (output_rate as u32);
        self.buf = PcmBuffer::new_unchecked(out_rate, samples, ch8);
        self.m4a_info_validated = true;
        Ok(())
    }

    /// Copies one decoded frame from the scratch buffer into the output
    /// buffer and applies the packet trim.  The engine-reported total must
    /// equal the buffer's shape and fit the scratch; a mismatch is a fatal
    /// engine error that leaves the buffer untouched.
    pub fn render_frame(&mut self, total_samples: usize, trim_start: u32, trim_end: u32) -> (r:
        Result<(), AdapterError>)
        requires
            old(self).wf(),
        ensures
            final(self).wf(),
            final(self).m4a_info == old(self).m4a_info,
            final(self).m4a_info_validated == old(self).m4a_info_validated,
            final(self).pcm@ == old(self).pcm@,
            final(self).buf.same_shape(old(self).buf),
            ({
                let ok = total_samples == old(self).buf.capacity * old(self).buf.channels
                    && total_samples <= old(self).pcm@.len();
                &&& (ok <==> r is Ok)
                &&& (!ok ==> r == Result::<(), AdapterError>::Err(AdapterError::EngineFatalError)
                    && final(self).buf == old(self).buf)
                &&& (ok ==> {
                    &&& final(self).buf.frames == spec_trimmed_frames(
                        old(self).buf.capacity as int,
                        trim_start as int,
                        trim_end as int,
                    )
                    &&& (old(self).buf.channels == 1 ==> forall|i: int|
                        0 <= i < final(self).buf.frames ==> final(self).buf.left@[i] == old(self).pcm@[trim_start + i])
                    &&& (old(self).buf.channels == 2 ==> forall|i: int|
                        0 <= i < final(self).buf.frames ==> final(self).buf.left@[i] == old(self).pcm@[2 * (trim_start + i)] && final(self).buf.right@[i] == old(self).pcm@[2 * (trim_start + i) + 1])
                })
            }),
    {
        let ghost cap = self.buf.capacity as int;
        if total_samples > MAX_SAMPLES {
            proof {
                mismatch_not_ok(self.buf.capacity as int, self.buf.channels as int, total_samples as int, self.pcm@.len() as int);
            }
            return Err(AdapterError::EngineFatalError);
        }
        if self.buf.capacity > total_samples {
            proof {
                mismatch_not_ok(self.buf.capacity as int, self.buf.channels as int, total_samples as int, self.pcm@.len() as int);
            }
            return Err(AdapterError::EngineFatalError);
        }
        let expected = self.buf.capacity * (self.buf.channels as usize);
        if expected != total_samples {
            return Err(AdapterError::EngineFatalError);
        }
        self.buf.clear();
        self.buf.render_from_interleaved(self.pcm.as_slice());
        let ghost mid_left = self.buf.left@;
        let ghost mid_right = self.buf.right@;
        let start: usize = if trim_start as usize > self.buf.frames {
            self.buf.frames
        } else {
            trim_start as usize
        };
        let ghost frames_before = self.buf.frames as int;
        self.buf.trim(start, trim_end as usize);
        proof {
            assert(spec_trimmed_frames(frames_before, start as int, trim_end as int)
                == spec_trimmed_frames(frames_before, trim_start as int, trim_end as int));
            if self.buf.frames > 0 {
                assert(start == trim_start);
                if self.buf.channels == 1 {
                    assert forall|i: int|
                        0 <= i < self.buf.frames implies self.buf.left@[i] == old(self).pcm@[trim_start + i] by {
                        assert(0 <= start + i < cap);
                        assert(self.buf.left@[i] == mid_left[start + i]);
                        assert(mid_left == old(self).pcm@.subrange(0, cap));
                        assert(old(self).pcm@.subrange(0, cap)[start + i] == old(self).pcm@[start
                            + i]);
                    }
                } else {
                    assert forall|i: int|
                        0 <= i < self.buf.frames implies self.buf.left@[i] == old(self).pcm@[2 * (
                    trim_start + i)] && self.buf.right@[i] == old(self).pcm@[2 * (trim_start + i)
                        + 1] by {
                        assert(self.buf.left@[i] == mid_left[start + i]);
                        assert(self.buf.right@[i] == mid_right[start + i]);
                    }
                }
            }
        }
        Ok(())
    }

    /// The byte sequence submitted to the engine for one compressed
    /// packet: the ADTS header synthesized from the current metadata — the
    /// object type coerced per [`spec_profile_type`] — followed by the
    /// packet itself.  Before the first successful decode the metadata is
    /// the blob- or hint-derived configuration; afterwards it is the
    /// engine-reported one.
    pub fn frame_packet(&self, packet: &[u8]) -> (r: Vec<u8>)
        requires
            self.wf(),
        ensures
            r@ == spec_adts_header(
                spec_m4a_type_index(spec_profile_type(self.m4a_info.otype)),
                self.m4a_info.sample_rate_index,
                self.m4a_info.channels,
                packet@.len() as usize,
            ) + packet@,
    {
        let mut data = construct_adts_header(
            profile_type(self.m4a_info.otype),
            self.m4a_info.sample_rate_index,
            self.m4a_info.channels,
            packet.len(),
        );
        data.extend_from_slice(packet);
        data
    }

    /// Decodes one compressed packet: the frame of [`Self::frame_packet`]
    /// is handed to the engine and the result classified.  A
    /// transport-sync failure yields an empty frame and no error; on the
    /// first success the adapter validates itself from the engine-reported
    /// stream info; every success fills the output buffer from the scratch
    /// and applies the packet trim.  Every exit, error or not, leaves the
    /// adapter well-formed.
    pub fn decode(&mut self, packet: &[u8], trim_start: u32, trim_end: u32) -> (r: Result<
        (),
        AdapterError,
    >)
        requires
            old(self).wf(),
        ensures
            final(self).wf(),
            old(self).m4a_info_validated ==> final(self).m4a_info == old(self).m4a_info
                && final(self).m4a_info_validated,
            r is Ok ==> {
                ||| {
                    // The engine lost sync: an empty frame, nothing else
                    // moved.
                    &&& final(self).buf.frames == 0
                    &&& final(self).m4a_info == old(self).m4a_info
                    &&& final(self).m4a_info_validated == old(self).m4a_info_validated
                }
                ||| {
                    // A decoded frame: the adapter is validated and the
                    // buffer holds the trimmed frame.
                    &&& final(self).m4a_info_validated
                    &&& final(self).buf.frames == spec_trimmed_frames(
                        final(self).buf.capacity as int,
                        trim_start as int,
                        trim_end as int,
                    )
                }
            },
            r is Err ==> {
                ||| {
                    // The engine failed, or an unsupported or impossible
                    // report was rejected: the adapter stands as it was.
                    &&& final(self).m4a_info == old(self).m4a_info
                    &&& final(self).m4a_info_validated == old(self).m4a_info_validated
                    &&& final(self).buf == old(self).buf
                }
                ||| {
                    // Validation went through and only the frame copy was
                    // refused: the adapter holds the reported shape, empty.
                    &&& final(self).m4a_info_validated
                    &&& final(self).buf.frames == 0
                }
            },
    {
        let data = self.frame_packet(packet);
        match engine_fill(&mut self.engine, data.as_slice()) {
            Ok(_) => {},
            Err(e) => {
                return Err(
                    if err_is_out_of_memory(&e) {
                        AdapterError::ResourceExhaustion
                    } else {
                        AdapterError::EngineFatalError
                    },
                );
            },
        }
        match engine_decode_frame(&mut self.engine, &mut self.pcm) {
            Ok(_) => {},
            Err(e) => {
                if err_is_transport_sync(&e) {
                    self.handle_transport_sync();
                    return Ok(());
                }
                return Err(
                    if err_is_out_of_memory(&e) {
                        AdapterError::ResourceExhaustion
                    } else {
                        AdapterError::EngineFatalError
                    },
                );
            },
        }
        if !self.m4a_info_validated {
            let (aot, output_rate, aac_rate, num_channels) = engine_stream_info(&self.engine);
            let frame_capacity = engine_decoded_frame_size(&self.engine);
            match self.configure_metadata(aot, output_rate, aac_rate, num_channels, frame_capacity)
            {
                Ok(_) => {},
                Err(e) => {
                    return Err(e);
                },
            }
        }
        let total = engine_decoded_frame_size(&self.engine);
        self.render_frame(total, trim_start, trim_end)
    }

    /// The buffer of the last decoded frame, unchanged until the next call.
    pub fn last_decoded(&self) -> (r: &PcmBuffer)
        ensures
            r == self.buf,
    {
        &self.buf
    }
}

/// A total that the capacity cannot reach is never the buffer's shape.
proof fn mismatch_not_ok(cap: int, ch: int, total: int, pcm_len: int)
    requires
        0 <= cap,
        1 <= ch <= 2,
    ensures
        total > pcm_len || cap > total ==> !(total == cap * ch && total <= pcm_len),
{
    assert(cap * 1 == cap) by (nonlinear_arith);
    assert(cap * 2 == cap + cap) by (nonlinear_arith);
}

} // verus!
