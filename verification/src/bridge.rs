//! The bridge: a transformation-free relay that moves chunks from an
//! upstream queue to a downstream queue, connecting the network-facing
//! stage to the device-facing stage of a direction.

use vstd::prelude::*;

use crate::queue::ChunkQueue;
use crate::queue::PopOutcome;
use crate::queue::PushOutcome;

verus! {

/// What one relay attempt did.
#[derive(Clone, Copy, Debug, PartialEq, Eq, Structural)]
pub enum BridgeOutcome {
    /// The upstream head chunk moved to the downstream tail, unchanged.
    Relayed,
    /// Nothing to take, or no room to give: the relay thread would
    /// block here and retry.
    WouldBlock,
    /// A side is gone for good; the relay exits and the direction's
    /// pipeline is over.
    Terminated,
}

/// One atomic relay attempt: take the upstream head and append it
/// downstream, with no transformation and in FIFO order.
///
/// The relay only takes a chunk when the downstream side can accept
/// one, so no chunk is held in flight across a blocked send. An
/// upstream disconnect terminates the relay; a downstream disconnect
/// observed on handoff terminates it too, and that one chunk is lost
/// with the dying pipeline, exactly as a failed blocking send loses
/// its payload.
/// One relay on the queue contents alone: the upstream head moves to
/// the downstream tail. This is what a successful [`bridge_step`] does
/// to the two queues' chunks.
pub open spec fn relay_once(up: Seq<Seq<u8>>, down: Seq<Seq<u8>>) -> (Seq<Seq<u8>>, Seq<Seq<u8>>) {
    (up.drop_first(), down.push(up[0]))
}

/// `k` relays, one chunk at a time.
pub open spec fn relay_times(up: Seq<Seq<u8>>, down: Seq<Seq<u8>>, k: nat) -> (Seq<Seq<u8>>, Seq<
    Seq<u8>,
>)
    decreases k,
{
    if k == 0 {
        (up, down)
    } else {
        let s = relay_once(up, down);
        relay_times(s.0, s.1, (k - 1) as nat)
    }
}

/// Ordering law: however many chunks the relay moves, it moves exactly
/// the first ones, unchanged, to the downstream tail in their upstream
/// order — FIFO is preserved across the hop, chunk for chunk.
pub proof fn lemma_relay_preserves_order(up: Seq<Seq<u8>>, down: Seq<Seq<u8>>, k: nat)
    requires
        k <= up.len(),
    ensures
        relay_times(up, down, k).0 == up.skip(k as int),
        relay_times(up, down, k).1 == down + up.take(k as int),
    decreases k,
{
    if k == 0 {
        assert(up.skip(0) =~= up);
        assert(down + up.take(0) =~= down);
    } else {
        let up1 = up.drop_first();
        let down1 = down.push(up[0]);
        lemma_relay_preserves_order(up1, down1, (k - 1) as nat);
        assert(up1.skip(k - 1) =~= up.skip(k as int));
        assert(down1 + up1.take(k - 1) =~= down + up.take(k as int));
    }
}

pub fn bridge_step(up: &mut ChunkQueue, down: &mut ChunkQueue) -> (r: BridgeOutcome)
    requires
        old(up)@.wf(),
        old(down)@.wf(),
    ensures
        final(up)@.wf(),
        final(down)@.wf(),
        final(up)@.cap == old(up)@.cap && final(up)@.sender_live == old(up)@.sender_live
            && final(up)@.receiver_live == old(up)@.receiver_live,
        final(down)@.cap == old(down)@.cap && final(down)@.sender_live == old(down)@.sender_live
            && final(down)@.receiver_live == old(down)@.receiver_live,
        old(down)@.push_blocked() ==> r == BridgeOutcome::WouldBlock && final(up)@ == old(up)@
            && final(down)@ == old(down)@,
        !old(down)@.push_blocked() && old(up)@.items.len() == 0 ==> final(up)@ == old(up)@
            && final(down)@ == old(down)@ && (if old(up)@.sender_live {
            r == BridgeOutcome::WouldBlock
        } else {
            r == BridgeOutcome::Terminated
        }),
        !old(down)@.push_blocked() && old(up)@.items.len() > 0 && old(down)@.receiver_live ==> r
            == BridgeOutcome::Relayed && final(up)@ == old(up)@.after_pop()
            && final(down)@ == old(down)@.after_push(old(up)@.items[0])
            && (final(up)@.items, final(down)@.items) == relay_once(
            old(up)@.items,
            old(down)@.items,
        ),
        !old(down)@.push_blocked() && old(up)@.items.len() > 0 && !old(down)@.receiver_live ==> r
            == BridgeOutcome::Terminated && final(up)@ == old(up)@.after_pop() && final(down)@
            == old(down)@,
{
    if down.is_receiver_live() && down.len() >= down.capacity() {
        return BridgeOutcome::WouldBlock;
    }
    match up.try_pop() {
        PopOutcome::Item(c) => {
            match down.try_push(c) {
                PushOutcome::Pushed => BridgeOutcome::Relayed,
                PushOutcome::Disconnected(_) => BridgeOutcome::Terminated,
                PushOutcome::Full(_) => {
                    proof {
                        assert(false);
                    }
                    BridgeOutcome::WouldBlock
                },
            }
        },
        PopOutcome::Empty => BridgeOutcome::WouldBlock,
        PopOutcome::Disconnected => BridgeOutcome::Terminated,
    }
}

} // verus!
