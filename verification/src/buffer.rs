//! The byte buffer each device-facing stage owns: bytes are appended at
//! the tail (from the device or from received chunks) and removed from
//! the head in whole-chunk or whole-period units.

use vstd::prelude::*;

verus! {

/// Spec-level run of `n` zero bytes, the silence a playback underrun
/// inserts.
pub open spec fn zero_bytes(n: nat) -> Seq<u8> {
    Seq::new(n, |i: int| 0u8)
}

/// An ordered byte sequence: append at tail, remove from head.
pub struct SampleBuffer {
    data: Vec<u8>,
}

impl View for SampleBuffer {
    type V = Seq<u8>;

    closed spec fn view(&self) -> Seq<u8> {
        self.data@
    }
}

impl SampleBuffer {
    /// An empty buffer.
    pub fn new() -> (r: SampleBuffer)
        ensures
            r@ == Seq::<u8>::empty(),
    {
        SampleBuffer { data: Vec::new() }
    }

    pub fn len(&self) -> (n: usize)
        ensures
            n == self@.len(),
    {
        self.data.len()
    }

    /// Append every byte of `chunk` at the tail.
    pub fn push_chunk(&mut self, chunk: &Vec<u8>)
        ensures
            final(self)@ == old(self)@ + chunk@,
    {
        let n = chunk.len();
        let ghost data0 = self.data@;
        let mut i: usize = 0;
        while i < n
            invariant
                i <= n,
                n == chunk@.len(),
                self.data@ == data0 + chunk@.subrange(0, i as int),
            decreases n - i,
        {
            self.data.push(chunk[i]);
            proof {
                assert(data0 + chunk@.subrange(0, i as int + 1) =~= (data0 + chunk@.subrange(
                    0,
                    i as int,
                )).push(chunk@[i as int]));
            }
            i = i + 1;
        }
        proof {
            assert(chunk@.subrange(0, n as int) =~= chunk@);
        }
    }

    /// Append exactly `n` zero bytes at the tail: the silence fill used
    /// on playback underrun.
    pub fn push_zeros(&mut self, n: usize)
        ensures
            final(self)@ == old(self)@ + zero_bytes(n as nat),
    {
        let ghost data0 = self.data@;
        let mut i: usize = 0;
        while i < n
            invariant
                i <= n,
                self.data@ == data0 + zero_bytes(i as nat),
            decreases n - i,
        {
            self.data.push(0u8);
            proof {
                assert(data0 + zero_bytes(i as nat + 1) =~= (data0 + zero_bytes(i as nat)).push(
                    0u8,
                ));
            }
            i = i + 1;
        }
    }

    /// Remove and return exactly the first `n` bytes.
    pub fn take_front(&mut self, n: usize) -> (chunk: Vec<u8>)
        requires
            n <= old(self)@.len(),
        ensures
            chunk@ == old(self)@.subrange(0, n as int),
            final(self)@ == old(self)@.subrange(n as int, old(self)@.len() as int),
    {
        let mut rest = self.data.split_off(n);
        core::mem::swap(&mut self.data, &mut rest);
        rest
    }
}

} // verus!
