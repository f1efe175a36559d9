//! A checked MSB-first bit reader over a byte slice.

use vstd::arithmetic::power2::{lemma2_to64, lemma_pow2_strictly_increases, pow2};
use vstd::prelude::*;

use crate::AdapterError;

verus! {

/// One bit of `data`, numbered MSB-first from the start of the sequence.
pub open spec fn bit_at(data: Seq<u8>, i: int) -> u8
    recommends
        0 <= i < data.len() * 8,
{
    (data[i / 8] >> ((7 - i % 8) as u8)) & 1
}

/// The value of the `n` bits of `data` that start at bit `pos`, read MSB
/// first.
pub open spec fn bits_at(data: Seq<u8>, pos: int, n: nat) -> nat
    decreases n,
{
    if n == 0 {
        0
    } else {
        bits_at(data, pos, (n - 1) as nat) * 2 + bit_at(data, pos + n - 1) as nat
    }
}

proof fn lemma_bit_at_le_one(b: u8, sh: u8)
    by (bit_vector)
    ensures
        (b >> sh) & 1 <= 1,
{
}

/// Reading `n` bits at `pos`: the value and the new position, or `None`
/// when fewer than `n` bits are left.
pub open spec fn spec_read_bits(data: Seq<u8>, pos: int, n: nat) -> Option<(nat, int)> {
    if pos + n <= data.len() * 8 {
        Some((bits_at(data, pos, n), pos + n))
    } else {
        None
    }
}

/// Skipping `n` bits at `pos`: the new position, or `None` when fewer than
/// `n` bits are left.
pub open spec fn spec_skip(data: Seq<u8>, pos: int, n: nat) -> Option<int> {
    if pos + n <= data.len() * 8 {
        Some(pos + n)
    } else {
        None
    }
}

/// An `n`-bit field is below `pow2(n)`.
pub proof fn lemma_bits_at_bound(data: Seq<u8>, pos: int, n: nat)
    ensures
        bits_at(data, pos, n) < pow2(n),
    decreases n,
{
    if n == 0 {
        lemma2_to64();
    } else {
        lemma_bits_at_bound(data, pos, (n - 1) as nat);
        let i = pos + n - 1;
        lemma_bit_at_le_one(data[i / 8], (7 - i % 8) as u8);
        assert(pow2(n) == 2 * pow2((n - 1) as nat)) by {
            vstd::arithmetic::power2::lemma_pow2_unfold(n);
        }
    }
}

/// A bit reader that tracks its position and fails, rather than panicking,
/// when asked to read past the end of the data.
pub struct BitReader<'a> {
    pub data: &'a [u8],
    pub pos: usize,
}

impl<'a> BitReader<'a> {
    /// The reader's position never passes the end of the data, and the bit
    /// count of the data fits the machine word.
    pub open spec fn wf(self) -> bool {
        self.pos <= self.data@.len() * 8 && self.data@.len() * 8 <= usize::MAX
    }

    pub fn new(data: &'a [u8]) -> (r: BitReader<'a>)
        requires
            data@.len() * 8 <= usize::MAX,
        ensures
            r.wf(),
            r.data@ == data@,
            r.pos == 0,
    {
        BitReader { data, pos: 0 }
    }

    /// How many bits are left to read.
    pub fn bits_left(&self) -> (r: usize)
        requires
            self.wf(),
        ensures
            r == self.data@.len() * 8 - self.pos,
    {
        self.data.len() * 8 - self.pos
    }

    /// Reads the next `n` bits as an unsigned MSB-first value, advancing the
    /// position; fails without moving when fewer than `n` bits are left.
    pub fn read_bits(&mut self, n: usize) -> (r: Result<u32, AdapterError>)
        requires
            old(self).wf(),
            n <= 32,
        ensures
            final(self).wf(),
            final(self).data@ == old(self).data@,
            old(self).pos + n <= old(self).data@.len() * 8 ==> {
                &&& r is Ok
                &&& r->Ok_0 == bits_at(old(self).data@, old(self).pos as int, n as nat)
                &&& final(self).pos == old(self).pos + n
            },
            old(self).pos + n > old(self).data@.len() * 8 ==> {
                &&& r == Result::<u32, AdapterError>::Err(AdapterError::ConfigParseError)
                &&& final(self).pos == old(self).pos
            },
    {
        if n > self.data.len() * 8 - self.pos {
            return Err(AdapterError::ConfigParseError);
        }
        let ghost data = self.data@;
        let ghost pos0 = self.pos as int;
        let mut acc: u32 = 0;
        let mut k: usize = 0;
        while k < n
            invariant
                self.data@ == data,
                self.pos == pos0 + k,
                k <= n,
                n <= 32,
                pos0 >= 0,
                pos0 + n <= data.len() * 8,
                data.len() * 8 <= usize::MAX,
                acc == bits_at(data, pos0, k as nat),
            decreases n - k,
        {
            proof {
                lemma_bits_at_bound(data, pos0, k as nat);
                if k < 31 {
                    lemma_pow2_strictly_increases(k as nat, 31);
                }
                lemma2_to64();
                assert(acc < 0x80000000);
                assert(self.pos / 8 < data.len());
            }
            let byte = self.data[self.pos / 8];
            let sh: u8 = 7 - ((self.pos % 8) as u8);
            let bit = (byte >> sh) & 1;
            proof {
                lemma_bit_at_le_one(byte, sh);
                assert(sh == (7 - (pos0 + k) % 8) as u8);
                assert(bit == bit_at(data, pos0 + k));
                assert(bits_at(data, pos0, (k + 1) as nat) == bits_at(data, pos0, k as nat) * 2
                    + bit_at(data, pos0 + k));
            }
            acc = acc * 2 + (bit as u32);
            self.pos = self.pos + 1;
            k = k + 1;
        }
        Ok(acc)
    }

    /// Reads a single bit as a flag.
    pub fn read_bool(&mut self) -> (r: Result<bool, AdapterError>)
        requires
            old(self).wf(),
        ensures
            final(self).wf(),
            final(self).data@ == old(self).data@,
            old(self).pos + 1 <= old(self).data@.len() * 8 ==> {
                &&& r is Ok
                &&& r->Ok_0 == (bits_at(old(self).data@, old(self).pos as int, 1) == 1)
                &&& final(self).pos == old(self).pos + 1
            },
            old(self).pos + 1 > old(self).data@.len() * 8 ==> {
                &&& r == Result::<bool, AdapterError>::Err(AdapterError::ConfigParseError)
                &&& final(self).pos == old(self).pos
            },
    {
        match self.read_bits(1) {
            Ok(v) => Ok(v == 1),
            Err(e) => Err(e),
        }
    }
}

} // verus!
