//! Audio format arithmetic: bit depth, sample rate, block alignment.

use vstd::prelude::*;

verus! {

/// Number of interleaved channels; the pipeline is fixed to stereo.
pub const CHANNELS: usize = 2;

/// Why a requested format was rejected.
#[derive(Clone, Copy, Debug, PartialEq, Eq, Structural)]
pub enum FormatError {
    /// Bit depth is not a positive whole number of bytes, or is wider
    /// than eight bytes.
    UnsupportedBits,
    /// Sample rate is zero.
    UnsupportedRate,
}

/// A negotiated interleaved-stereo PCM format.
///
/// The invariant guarantees a positive block alignment, so every
/// whole-frame byte count is a positive multiple of `block_align`.
#[derive(Clone, Copy, Debug, PartialEq, Eq, Structural)]
pub struct AudioFormat {
    pub bits: usize,
    pub rate: usize,
}

impl AudioFormat {
    /// Well-formedness: a positive bit depth that is a whole number of
    /// bytes, and a positive sample rate.
    pub open spec fn wf(self) -> bool {
        &&& self.bits >= 8
        &&& self.bits % 8 == 0
        &&& self.bits <= 64
        &&& self.rate >= 1
    }

    /// Bytes per sample of one channel.
    pub open spec fn spec_bytes_per_sample(self) -> int {
        self.bits as int / 8
    }

    /// Bytes per frame: one sample for each of the two channels.
    pub open spec fn spec_block_align(self) -> int {
        CHANNELS * self.spec_bytes_per_sample()
    }

    pub open spec fn spec_bits(self) -> int {
        self.bits as int
    }

    pub open spec fn spec_rate(self) -> int {
        self.rate as int
    }

    /// Validate and build a format. Succeeds exactly when the bit depth
    /// is a positive whole number of bytes (at most 64) and the rate is
    /// positive.
    pub fn new(bits: usize, rate: usize) -> (r: Result<AudioFormat, FormatError>)
        ensures
            (8 <= bits && bits % 8 == 0 && bits <= 64 && rate >= 1) <==> r is Ok,
            r matches Ok(f) ==> f == (AudioFormat { bits, rate }) && f.wf(),
            r matches Err(e) ==> {
                if !(8 <= bits && bits % 8 == 0 && bits <= 64) {
                    e == FormatError::UnsupportedBits
                } else {
                    e == FormatError::UnsupportedRate
                }
            },
    {
        if bits < 8 || bits % 8 != 0 || bits > 64 {
            Err(FormatError::UnsupportedBits)
        } else if rate < 1 {
            Err(FormatError::UnsupportedRate)
        } else {
            Ok(AudioFormat { bits, rate })
        }
    }

    pub fn bits(&self) -> (r: usize)
        ensures
            r == self.spec_bits(),
    {
        self.bits
    }

    pub fn rate(&self) -> (r: usize)
        ensures
            r == self.spec_rate(),
    {
        self.rate
    }

    /// Bytes per frame of interleaved stereo audio.
    pub fn block_align(&self) -> (r: usize)
        requires
            self.wf(),
        ensures
            r == self.spec_block_align(),
            1 <= r <= 16,
    {
        CHANNELS * (self.bits / 8)
    }

    /// Byte length of one capture chunk of `chunksize` frames, or `None`
    /// when that many frames do not fit in a `usize` byte count.
    pub fn chunk_bytes(&self, chunksize: usize) -> (r: Option<usize>)
        requires
            self.wf(),
        ensures
            chunksize * self.spec_block_align() <= usize::MAX <==> r is Some,
            r matches Some(n) ==> n == chunksize * self.spec_block_align(),
    {
        let ba = self.block_align();
        if chunksize <= usize::MAX / ba {
            proof {
                lemma_mul_le_bound(chunksize as int, ba as int, usize::MAX as int);
            }
            Some(chunksize * ba)
        } else {
            proof {
                lemma_mul_gt_bound(chunksize as int, ba as int, usize::MAX as int);
            }
            None
        }
    }
}

/// If `a <= m / b` (integer division) with `b > 0`, then `a * b <= m`.
proof fn lemma_mul_le_bound(a: int, b: int, m: int)
    requires
        0 <= a,
        1 <= b,
        0 <= m,
        a <= m / b,
    ensures
        a * b <= m,
{
    assert(a * b <= (m / b) * b) by (nonlinear_arith)
        requires
            0 <= a,
            1 <= b,
            a <= m / b,
    ;
    assert((m / b) * b <= m) by (nonlinear_arith)
        requires
            1 <= b,
            0 <= m,
    ;
}

/// If `a > m / b` (integer division) with `b > 0`, then `a * b > m`.
proof fn lemma_mul_gt_bound(a: int, b: int, m: int)
    requires
        1 <= b,
        0 <= m,
        a > m / b,
    ensures
        a * b > m,
{
    assert(a * b >= (m / b + 1) * b) by (nonlinear_arith)
        requires
            1 <= b,
            a >= m / b + 1,
    ;
    assert((m / b + 1) * b > m) by (nonlinear_arith)
        requires
            1 <= b,
            0 <= m,
    ;
}

} // verus!
