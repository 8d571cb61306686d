//! Datagram framing for the network stages.
//!
//! One chunk becomes exactly one datagram whose payload is the chunk's
//! bytes, unmodified — no header, sequence number or fragmentation —
//! and one received datagram becomes exactly one chunk. The socket
//! itself lives outside this crate; these functions fix what crosses
//! it.

use vstd::prelude::*;

use crate::queue::ChunkQueue;
use crate::queue::PushOutcome;

verus! {

/// Fixed size of the receive buffer: a datagram longer than this is
/// silently truncated by the receiving socket.
pub const RECV_BUFFER_BYTES: usize = 32768;

/// The payload of the one datagram that carries `chunk`: its bytes,
/// unmodified.
pub fn chunk_to_datagram(chunk: Vec<u8>) -> (payload: Vec<u8>)
    ensures
        payload@ == chunk@,
{
    chunk
}

/// The chunk made from one received datagram: exactly the `amt` bytes
/// the socket reported, taken from the front of the receive buffer.
///
/// Whatever byte count arrived is forwarded as is — deliberately even
/// one that is not block-aligned for the local format, as when the
/// peer was launched with another chunk size or bit depth. Downstream
/// buffers are byte-granular, so a misaligned count shifts frame
/// boundaries audibly but never corrupts an index.
pub fn datagram_to_chunk(data: &Vec<u8>, amt: usize) -> (chunk: Vec<u8>)
    requires
        amt <= data@.len(),
    ensures
        chunk@ == data@.subrange(0, amt as int),
{
    let mut chunk: Vec<u8> = Vec::new();
    let mut i: usize = 0;
    while i < amt
        invariant
            i <= amt,
            amt <= data@.len(),
            chunk@ == data@.subrange(0, i as int),
        decreases amt - i,
    {
        chunk.push(data[i]);
        proof {
            assert(data@.subrange(0, i as int + 1) =~= data@.subrange(0, i as int).push(
                data@[i as int],
            ));
        }
        i = i + 1;
    }
    chunk
}

/// One receiver step: frame the `amt` received bytes as a chunk and
/// offer it to the inbound queue. The queue outcome is handed back
/// unchanged: `Full` means the receiving thread blocks and retries,
/// `Disconnected` means the consumer is gone and the stage exits.
pub fn receiver_step(q: &mut ChunkQueue, data: &Vec<u8>, amt: usize) -> (r: PushOutcome)
    requires
        old(q)@.wf(),
        amt <= data@.len(),
    ensures
        final(q)@.wf(),
        final(q)@.cap == old(q)@.cap,
        final(q)@.sender_live == old(q)@.sender_live,
        final(q)@.receiver_live == old(q)@.receiver_live,
        old(q)@.push_accepted() ==> r == PushOutcome::Pushed && final(q)@ == old(q)@.after_push(
            data@.subrange(0, amt as int),
        ),
        old(q)@.push_blocked() ==> (r matches PushOutcome::Full(c) && c@ == data@.subrange(
            0,
            amt as int,
        ) && final(q)@ == old(q)@),
        !old(q)@.receiver_live ==> (r matches PushOutcome::Disconnected(c) && c@ == data@.subrange(
            0,
            amt as int,
        ) && final(q)@ == old(q)@),
{
    let chunk = datagram_to_chunk(data, amt);
    proof {
        assert(chunk.deep_view() =~= chunk@);
    }
    q.try_push(chunk)
}

} // verus!
