//! The capture stage: slice the bytes pulled from the device into
//! fixed-size chunks, in order and without loss.

use vstd::prelude::*;

use crate::buffer::SampleBuffer;

verus! {

/// Every emitted chunk holds exactly `chunk_bytes` bytes.
pub open spec fn all_chunks_sized(chunks: Seq<Seq<u8>>, chunk_bytes: nat) -> bool {
    forall|i: int| 0 <= i < chunks.len() ==> (#[trigger] chunks[i]).len() == chunk_bytes
}

/// Remove every full chunk from the head of the buffer, in order.
///
/// The returned chunks, concatenated, followed by what stays in the
/// buffer, are exactly the old buffer contents; each chunk is exactly
/// `chunk_bytes` long; fewer than `chunk_bytes` bytes stay behind.
pub fn drain_chunks(buf: &mut SampleBuffer, chunk_bytes: usize) -> (chunks: Vec<Vec<u8>>)
    requires
        chunk_bytes >= 1,
    ensures
        all_chunks_sized(chunks.deep_view(), chunk_bytes as nat),
        chunks.deep_view().flatten() + final(buf)@ == old(buf)@,
        final(buf)@.len() < chunk_bytes,
{
    let ghost buf0 = buf@;
    let mut chunks: Vec<Vec<u8>> = Vec::new();
    proof {
        assert(chunks.deep_view() =~= Seq::<Seq<u8>>::empty());
        assert(chunks.deep_view().flatten() + buf@ =~= buf0);
    }
    while buf.len() >= chunk_bytes
        invariant
            chunk_bytes >= 1,
            all_chunks_sized(chunks.deep_view(), chunk_bytes as nat),
            chunks.deep_view().flatten() + buf@ == buf0,
        decreases buf@.len(),
    {
        let ghost dv0 = chunks.deep_view();
        let ghost pre = buf@;
        let c = buf.take_front(chunk_bytes);
        chunks.push(c);
        proof {
            assert(chunks.deep_view() =~~= dv0.push(c.deep_view()));
            dv0.lemma_flatten_push(c.deep_view());
            assert(chunks.deep_view().flatten() + buf@ =~= dv0.flatten() + pre);
        }
    }
    chunks
}

/// One capture period: append the bytes just pulled from the device,
/// then emit every full chunk now available.
///
/// Everything the device handed over so far leaves again as chunks of
/// exactly `chunk_bytes` bytes, in order, with only the sub-chunk tail
/// staying in the buffer.
pub fn capture_step(buf: &mut SampleBuffer, pulled: &Vec<u8>, chunk_bytes: usize) -> (chunks: Vec<
    Vec<u8>,
>)
    requires
        chunk_bytes >= 1,
    ensures
        all_chunks_sized(chunks.deep_view(), chunk_bytes as nat),
        chunks.deep_view().flatten() + final(buf)@ == old(buf)@ + pulled@,
        final(buf)@.len() < chunk_bytes,
{
    buf.push_chunk(pulled);
    drain_chunks(buf, chunk_bytes)
}

/// Run the capture stage against a scripted byte source: each entry of
/// `pulls` is what one device period handed over.
///
/// The chunks emitted across the whole script, concatenated in
/// emission order, followed by the bytes still buffered, reproduce the
/// scripted source exactly — no loss, duplication, or reorder.
pub fn run_capture_script(pulls: &Vec<Vec<u8>>, chunk_bytes: usize) -> (r: (Vec<Vec<u8>>,
    SampleBuffer))
    requires
        chunk_bytes >= 1,
    ensures
        all_chunks_sized(r.0.deep_view(), chunk_bytes as nat),
        r.0.deep_view().flatten() + r.1@ == pulls.deep_view().flatten(),
        r.1@.len() < chunk_bytes,
{
    let mut emitted: Vec<Vec<u8>> = Vec::new();
    let mut buf = SampleBuffer::new();
    let n = pulls.len();
    proof {
        assert(emitted.deep_view() =~= Seq::<Seq<u8>>::empty());
        assert(pulls.deep_view().take(0) =~= Seq::<Seq<u8>>::empty());
        assert(emitted.deep_view().flatten() + buf@ =~= pulls.deep_view().take(0).flatten());
    }
    let mut j: usize = 0;
    while j < n
        invariant
            chunk_bytes >= 1,
            j <= n,
            n == pulls@.len(),
            all_chunks_sized(emitted.deep_view(), chunk_bytes as nat),
            emitted.deep_view().flatten() + buf@ == pulls.deep_view().take(j as int).flatten(),
            buf@.len() < chunk_bytes,
        decreases n - j,
    {
        let ghost edv0 = emitted.deep_view();
        let ghost buf_pre = buf@;
        let mut fresh = capture_step(&mut buf, &pulls[j], chunk_bytes);
        let ghost fdv = fresh.deep_view();
        emitted.append(&mut fresh);
        proof {
            assert(emitted.deep_view() =~~= edv0 + fdv);
            vstd::seq_lib::lemma_flatten_concat(edv0, fdv);
            assert(emitted.deep_view().flatten() =~= edv0.flatten() + fdv.flatten());
            let pdv = pulls.deep_view();
            assert(pdv[j as int] == pulls@[j as int]@);
            assert(fdv.flatten() + buf@ == buf_pre + pdv[j as int]);
            assert(pdv.take(j + 1) =~= pdv.take(j as int).push(pdv[j as int]));
            pdv.take(j as int).lemma_flatten_push(pdv[j as int]);
            assert(pdv.take(j + 1).flatten() =~= pdv.take(j as int).flatten() + pdv[j as int]);
            assert((edv0.flatten() + fdv.flatten()) + buf@ =~= edv0.flatten() + (fdv.flatten()
                + buf@));
            assert(emitted.deep_view().flatten() + buf@ =~= pdv.take(j + 1).flatten());
        }
        j = j + 1;
    }
    proof {
        assert(pulls.deep_view().take(n as int) =~= pulls.deep_view());
    }
    (emitted, buf)
}

} // verus!
