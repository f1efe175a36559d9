//! A reusable planar 16-bit PCM output buffer, shaped by sample rate,
//! channel count and samples-per-channel capacity, with interleaved filling
//! and start/end trimming.

use vstd::prelude::*;

use crate::AdapterError;

verus! {

/// The frame count that remains after trimming `end` frames from the back
/// and `start` frames from the front of `frames` valid frames, each trim
/// saturating at zero.
pub open spec fn spec_trimmed_frames(frames: int, start: int, end: int) -> int {
    let kept = if end >= frames {
        0
    } else {
        frames - end
    };
    if start >= kept {
        0
    } else {
        kept - start
    }
}

/// A planar PCM buffer of one or two channels.  The first `frames` entries
/// of each channel plane are valid; the planes keep their allocated
/// capacity across clears and trims.
pub struct PcmBuffer {
    pub sample_rate: u32,
    pub channels: u8,
    pub capacity: usize,
    pub frames: usize,
    pub left: Vec<i16>,
    pub right: Vec<i16>,
}

impl PcmBuffer {
    /// One or two channels; each present plane is allocated to the
    /// capacity; the valid frame count never passes the capacity.
    pub open spec fn wf(self) -> bool {
        &&& (self.channels == 1 || self.channels == 2)
        &&& self.left@.len() == self.capacity
        &&& self.right@.len() == (if self.channels == 2 {
            self.capacity as int
        } else {
            0
        })
        &&& self.frames <= self.capacity
    }

    /// Same sample rate, channel count and per-channel capacity.
    pub open spec fn same_shape(self, other: PcmBuffer) -> bool {
        &&& self.sample_rate == other.sample_rate
        &&& self.channels == other.channels
        &&& self.capacity == other.capacity
    }

    /// Allocates a buffer for the given shape, empty of valid frames.
    /// Channel counts outside 1..=2 are unsupported.
    pub fn new(sample_rate: u32, samples_per_channel: usize, num_channels: u8) -> (r: Result<
        PcmBuffer,
        AdapterError,
    >)
        ensures
            1 <= num_channels <= 2 ==> {
                &&& r is Ok
                &&& r->Ok_0.wf()
                &&& r->Ok_0.sample_rate == sample_rate
                &&& r->Ok_0.channels == num_channels
                &&& r->Ok_0.capacity == samples_per_channel
                &&& r->Ok_0.frames == 0
            },
            !(1 <= num_channels <= 2) ==> r == Result::<PcmBuffer, AdapterError>::Err(
                AdapterError::UnsupportedConfiguration,
            ),
    {
        if num_channels < 1 || num_channels > 2 {
            return Err(AdapterError::UnsupportedConfiguration);
        }
        Ok(Self::new_unchecked(sample_rate, samples_per_channel, num_channels))
    }

    /// Allocates a buffer for a shape already known to be supported.
    pub fn new_unchecked(sample_rate: u32, samples_per_channel: usize, num_channels: u8) -> (r:
        PcmBuffer)
        requires
            1 <= num_channels <= 2,
        ensures
            r.wf(),
            r.sample_rate == sample_rate,
            r.channels == num_channels,
            r.capacity == samples_per_channel,
            r.frames == 0,
    {
        let left = Self::zeros(samples_per_channel);
        let right = if num_channels == 2 {
            Self::zeros(samples_per_channel)
        } else {
            Vec::new()
        };
        PcmBuffer {
            sample_rate,
            channels: num_channels,
            capacity: samples_per_channel,
            frames: 0,
            left,
            right,
        }
    }

    /// A zero-filled plane of `n` samples.
    fn zeros(n: usize) -> (r: Vec<i16>)
        ensures
            r@.len() == n,
            forall|i: int| 0 <= i < n ==> r@[i] == 0i16,
    {
        let mut v: Vec<i16> = Vec::new();
        let mut k: usize = 0;
        while k < n
            invariant
                k <= n,
                v@.len() == k,
                forall|i: int| 0 <= i < k ==> v@[i] == 0i16,
            decreases n - k,
        {
            v.push(0);
            k = k + 1;
        }
        v
    }

    /// Empties the buffer of valid frames; the shape and the planes stay.
    pub fn clear(&mut self)
        ensures
            final(self).frames == 0,
            final(self).sample_rate == old(self).sample_rate,
            final(self).channels == old(self).channels,
            final(self).capacity == old(self).capacity,
            final(self).left@ == old(self).left@,
            final(self).right@ == old(self).right@,
    {
        self.frames = 0;
    }

    /// Fills the buffer from one interleaved run of `capacity × channels`
    /// samples: a mono run is copied as it is; a stereo run is
    /// de-interleaved, even indices to the left plane and odd to the right,
    /// in order.  Every frame becomes valid.
    pub fn render_from_interleaved(&mut self, pcm: &[i16])
        requires
            old(self).wf(),
            pcm@.len() >= old(self).capacity * old(self).channels,
        ensures
            final(self).wf(),
            final(self).same_shape(*old(self)),
            final(self).frames == final(self).capacity,
            old(self).channels == 1 ==> final(self).left@ == pcm@.subrange(
                0,
                old(self).capacity as int,
            ),
            old(self).channels == 2 ==> forall|i: int|
                0 <= i < final(self).capacity ==> final(self).left@[i] == pcm@[2 * i]
                    && final(self).right@[i] == pcm@[2 * i + 1],
    {
        let ghost cap = self.capacity as int;
        if self.channels == 1 {
            let mut l: Vec<i16> = Vec::new();
            let mut k: usize = 0;
            let n = pcm.len();
            while k < self.capacity
                invariant
                    k <= self.capacity,
                    self.capacity == cap,
                    n == pcm@.len(),
                    pcm@.len() >= cap,
                    l@ == pcm@.subrange(0, k as int),
                decreases self.capacity - k,
            {
                l.push(pcm[k]);
                proof {
                    assert(l@ =~= pcm@.subrange(0, k + 1));
                }
                k = k + 1;
            }
            self.left = l;
            self.frames = self.capacity;
        } else {
            let mut l: Vec<i16> = Vec::new();
            let mut r: Vec<i16> = Vec::new();
            let mut k: usize = 0;
            let n = pcm.len();
            proof {
                assert(pcm@.len() >= 2 * cap);
            }
            while k < self.capacity
                invariant
                    k <= self.capacity,
                    self.capacity == cap,
                    n == pcm@.len(),
                    pcm@.len() >= 2 * cap,
                    l@.len() == k,
                    r@.len() == k,
                    forall|i: int|
                        0 <= i < k ==> l@[i] == pcm@[2 * i] && r@[i] == pcm@[2 * i + 1],
                decreases self.capacity - k,
            {
                l.push(pcm[2 * k]);
                r.push(pcm[2 * k + 1]);
                k = k + 1;
            }
            self.left = l;
            self.right = r;
            self.frames = self.capacity;
        }
    }

    /// Trims `end` frames from the back, then `start` frames from the
    /// front, each saturating when it passes the valid frame count; the
    /// remaining frames move to the front of each plane.
    pub fn trim(&mut self, start: usize, end: usize)
        requires
            old(self).wf(),
        ensures
            final(self).wf(),
            final(self).same_shape(*old(self)),
            final(self).frames == spec_trimmed_frames(
                old(self).frames as int,
                start as int,
                end as int,
            ),
            forall|i: int|
                0 <= i < final(self).frames ==> final(self).left@[i] == old(self).left@[start + i],
            old(self).channels == 2 ==> forall|i: int|
                0 <= i < final(self).frames ==> final(self).right@[i] == old(self).right@[start
                    + i],
    {
        let kept: usize = if end >= self.frames {
            0
        } else {
            self.frames - end
        };
        let new_frames: usize = if start >= kept {
            0
        } else {
            kept - start
        };
        if start > 0 && new_frames > 0 {
            self.left = Self::shifted(&self.left, start, new_frames, self.capacity);
            if self.channels == 2 {
                self.right = Self::shifted(&self.right, start, new_frames, self.capacity);
            }
        }
        self.frames = new_frames;
    }

    /// A plane of the same capacity whose first `count` samples are those
    /// of `plane` from `start` on.
    fn shifted(plane: &Vec<i16>, start: usize, count: usize, capacity: usize) -> (r: Vec<i16>)
        requires
            plane@.len() == capacity,
            start + count <= capacity,
        ensures
            r@.len() == capacity,
            forall|i: int| 0 <= i < count ==> r@[i] == plane@[start + i],
    {
        let mut v: Vec<i16> = Vec::new();
        let mut k: usize = 0;
        while k < count
            invariant
                k <= count,
                start + count <= capacity,
                plane@.len() == capacity,
                v@.len() == k,
                forall|i: int| 0 <= i < k ==> v@[i] == plane@[start + i],
            decreases count - k,
        {
            v.push(plane[start + k]);
            k = k + 1;
        }
        while k < capacity
            invariant
                count <= k <= capacity,
                plane@.len() == capacity,
                v@.len() == k,
                forall|i: int| 0 <= i < count ==> v@[i] == plane@[start + i],
            decreases capacity - k,
        {
            v.push(0);
            k = k + 1;
        }
        v
    }
}

} // verus!
