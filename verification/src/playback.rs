//! The playback stage: each hardware period it must hand the device
//! exactly the bytes the device asks for, on time. Missing data is
//! masked with silence rather than waiting — a silent gap is preferred
//! to a missed period.

use vstd::prelude::*;

use crate::buffer::SampleBuffer;
use crate::buffer::zero_bytes;
use crate::queue::ChunkQueue;
use crate::queue::PopOutcome;

verus! {

/// What the period fill loop computes, as a function of the starting
/// buffer, the queued chunks (head first), whether the producer is
/// still attached, and the byte count the device requires.
///
/// While the buffer is short, the next queued chunk is appended whole;
/// when the queue is empty the exact shortfall is appended as zeros at
/// once (the loop never waits for data); with the queue empty and the
/// producer gone there is no fill — the stage terminates, which `None`
/// records.
pub open spec fn fill_spec(buf: Seq<u8>, q: Seq<Seq<u8>>, sender_live: bool, needed: int) -> Option<
    (Seq<u8>, Seq<Seq<u8>>),
>
    decreases q.len(),
{
    if buf.len() >= needed {
        Some((buf, q))
    } else if q.len() > 0 {
        fill_spec(buf + q[0], q.drop_first(), sender_live, needed)
    } else if sender_live {
        Some((buf + zero_bytes((needed - buf.len()) as nat), q))
    } else {
        None
    }
}

/// Top the buffer up to at least `needed` bytes from the inbound
/// queue, inserting silence for any shortfall the moment the queue
/// runs empty. Returns `false` — the stage must exit — exactly when
/// the producer is gone and every queued chunk is already consumed.
pub fn fill_to(buf: &mut SampleBuffer, q: &mut ChunkQueue, needed: usize) -> (ok: bool)
    requires
        old(q)@.wf(),
    ensures
        final(q)@.wf(),
        final(q)@.cap == old(q)@.cap,
        final(q)@.sender_live == old(q)@.sender_live,
        final(q)@.receiver_live == old(q)@.receiver_live,
        match fill_spec(old(buf)@, old(q)@.items, old(q)@.sender_live, needed as int) {
            Some(p) => ok && final(buf)@ == p.0 && final(q)@.items == p.1 && final(buf)@.len()
                >= needed,
            None => !ok && final(q)@.items.len() == 0 && final(buf)@.len() < needed,
        },
{
    let ghost target = fill_spec(old(buf)@, old(q)@.items, old(q)@.sender_live, needed as int);
    let ghost sl = old(q)@.sender_live;
    let mut ok = true;
    while ok && buf.len() < needed
        invariant
            q@.wf(),
            q@.cap == old(q)@.cap,
            q@.sender_live == sl,
            q@.receiver_live == old(q)@.receiver_live,
            ok ==> fill_spec(buf@, q@.items, sl, needed as int) == target,
            !ok ==> target is None && q@.items.len() == 0 && buf@.len() < needed,
        decreases q@.items.len() + (if buf@.len() < needed {
            1int
        } else {
            0int
        }) + (if ok {
            1int
        } else {
            0int
        }),
    {
        let ghost items0 = q@.items;
        let ghost buf_pre = buf@;
        match q.try_pop() {
            PopOutcome::Item(c) => {
                proof {
                    assert(items0.len() > 0);
                    assert(c.deep_view() =~= c@);
                }
                buf.push_chunk(&c);
                proof {
                    assert(buf@ == buf_pre + items0[0]);
                }
            },
            PopOutcome::Empty => {
                proof {
                    assert(items0.len() == 0 && sl);
                }
                let shortfall = needed - buf.len();
                buf.push_zeros(shortfall);
                proof {
                    assert(buf@.len() == needed);
                    assert(fill_spec(buf@, q@.items, sl, needed as int) == Some((buf@, q@.items)));
                    assert(Some((buf@, q@.items)) == target);
                }
            },
            PopOutcome::Disconnected => {
                proof {
                    assert(items0.len() == 0 && !sl);
                }
                ok = false;
            },
        }
    }
    ok
}

/// One playback period: bring the buffer up to the `needed` bytes the
/// device has room for — appending received chunks, then silence for
/// any shortfall — and remove exactly that many bytes to submit.
/// Returns `None`, and submits nothing, exactly when the producer is
/// gone and nothing is left to play: the stage then stops the stream
/// and exits.
pub fn playback_period(buf: &mut SampleBuffer, q: &mut ChunkQueue, needed: usize) -> (r: Option<
    Vec<u8>,
>)
    requires
        old(q)@.wf(),
    ensures
        final(q)@.wf(),
        final(q)@.cap == old(q)@.cap,
        final(q)@.sender_live == old(q)@.sender_live,
        final(q)@.receiver_live == old(q)@.receiver_live,
        match fill_spec(old(buf)@, old(q)@.items, old(q)@.sender_live, needed as int) {
            Some(p) => r matches Some(out) && out@.len() == needed && out@ == p.0.subrange(
                0,
                needed as int,
            ) && final(buf)@ == p.0.subrange(needed as int, p.0.len() as int) && final(q)@.items
                == p.1,
            None => r is None && final(q)@.items.len() == 0,
        },
{
    if fill_to(buf, q, needed) {
        let out = buf.take_front(needed);
        Some(out)
    } else {
        None
    }
}

/// Underrun law: if the queue yields no chunk while the buffer is
/// short of `needed`, the fill appends exactly the shortfall in zero
/// bytes, the buffer then holds exactly `needed` bytes, and the period
/// submits them all — no short write, no failure.
pub proof fn lemma_underrun_fill(buf: Seq<u8>, needed: int)
    requires
        buf.len() < needed,
    ensures
        fill_spec(buf, Seq::<Seq<u8>>::empty(), true, needed) == Some(
            (buf + zero_bytes((needed - buf.len()) as nat), Seq::<Seq<u8>>::empty()),
        ),
        (buf + zero_bytes((needed - buf.len()) as nat)).len() == needed,
{
}

} // verus!
