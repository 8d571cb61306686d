//! The bounded chunk queue that connects two pipeline stages.
//!
//! Every queue in the pipeline has a fixed small capacity, so at most
//! that many chunks are ever in flight per hop. A push on a full queue
//! does not go through (the producing thread blocks and retries), and
//! once the consuming side is gone a push fails for good. The consumer
//! side offers a non-blocking poll, used by playback to honor its
//! hardware deadline.
//!
//! This type is the single-threaded model of the channel: each exec
//! method performs one atomic transition and its contract ties it to
//! the spec-level transition on [`QueueModel`]. The program shell runs
//! the same discipline over a real bounded channel, one thread per
//! stage.

use vstd::prelude::*;

verus! {

/// Capacity of every queue in the pipeline: at most two chunks in
/// flight per hop, so buffering adds at most two chunk-durations of
/// latency.
pub const QUEUE_CAPACITY: usize = 2;

/// Abstract state of a bounded chunk queue: the chunks in FIFO order
/// (head first), the capacity, and whether each side is still attached.
pub struct QueueModel {
    pub items: Seq<Seq<u8>>,
    pub cap: nat,
    pub sender_live: bool,
    pub receiver_live: bool,
}

impl QueueModel {
    pub open spec fn wf(self) -> bool {
        &&& self.cap >= 1
        &&& self.items.len() <= self.cap
    }

    /// A push goes through exactly when the consumer is still attached
    /// and a slot is free.
    pub open spec fn push_accepted(self) -> bool {
        self.receiver_live && self.items.len() < self.cap
    }

    /// A push on a full queue with a live consumer does not go through:
    /// the producer blocks until a slot frees up.
    pub open spec fn push_blocked(self) -> bool {
        self.receiver_live && self.items.len() >= self.cap
    }

    /// State after an accepted push: the chunk joins the tail.
    pub open spec fn after_push(self, chunk: Seq<u8>) -> QueueModel {
        QueueModel { items: self.items.push(chunk), ..self }
    }

    /// A pop yields a chunk exactly when the queue is non-empty.
    pub open spec fn pop_ready(self) -> bool {
        self.items.len() > 0
    }

    /// State after a successful pop: the head chunk leaves.
    pub open spec fn after_pop(self) -> QueueModel {
        QueueModel { items: self.items.drop_first(), ..self }
    }
}

/// Result of a non-blocking push attempt. `Full` and `Disconnected`
/// hand the chunk back: ownership only transfers on `Pushed`.
#[derive(Debug, PartialEq, Eq)]
pub enum PushOutcome {
    /// The chunk joined the queue tail.
    Pushed,
    /// No slot free; a blocking producer would wait and retry.
    Full(Vec<u8>),
    /// The consumer is gone; no push will ever succeed again.
    Disconnected(Vec<u8>),
}

/// Result of a non-blocking pop attempt.
#[derive(Debug, PartialEq, Eq)]
pub enum PopOutcome {
    /// The head chunk, removed from the queue.
    Item(Vec<u8>),
    /// Nothing queued right now; a blocking consumer would wait and
    /// retry, the playback stage instead fills with silence.
    Empty,
    /// Nothing queued and the producer is gone for good.
    Disconnected,
}

/// A bounded FIFO queue of chunks with explicit attach state for both
/// sides.
pub struct ChunkQueue {
    items: Vec<Vec<u8>>,
    cap: usize,
    sender_alive: bool,
    receiver_alive: bool,
}

impl View for ChunkQueue {
    type V = QueueModel;

    closed spec fn view(&self) -> QueueModel {
        QueueModel {
            items: self.items.deep_view(),
            cap: self.cap as nat,
            sender_live: self.sender_alive,
            receiver_live: self.receiver_alive,
        }
    }
}

impl ChunkQueue {
    /// A fresh empty queue with both sides attached.
    pub fn with_capacity(cap: usize) -> (r: ChunkQueue)
        requires
            cap >= 1,
        ensures
            r@ == (QueueModel {
                items: Seq::<Seq<u8>>::empty(),
                cap: cap as nat,
                sender_live: true,
                receiver_live: true,
            }),
            r@.wf(),
    {
        let r = ChunkQueue { items: Vec::new(), cap, sender_alive: true, receiver_alive: true };
        proof {
            assert(r@.items =~= Seq::<Seq<u8>>::empty());
        }
        r
    }

    pub fn len(&self) -> (n: usize)
        ensures
            n == self@.items.len(),
    {
        self.items.len()
    }

    pub fn capacity(&self) -> (n: usize)
        ensures
            n == self@.cap,
    {
        self.cap
    }

    pub fn is_sender_live(&self) -> (r: bool)
        ensures
            r == self@.sender_live,
    {
        self.sender_alive
    }

    pub fn is_receiver_live(&self) -> (r: bool)
        ensures
            r == self@.receiver_live,
    {
        self.receiver_alive
    }

    /// Attempt to push one chunk at the tail.
    ///
    /// With the consumer gone the chunk comes back as `Disconnected`
    /// and nothing changes; on a full queue it comes back as `Full` and
    /// nothing changes; otherwise it joins the tail in FIFO order.
    pub fn try_push(&mut self, chunk: Vec<u8>) -> (r: PushOutcome)
        requires
            old(self)@.wf(),
        ensures
            final(self)@.wf(),
            !old(self)@.receiver_live ==> (r matches PushOutcome::Disconnected(c) && c == chunk
                && final(self)@ == old(self)@),
            old(self)@.push_blocked() ==> (r matches PushOutcome::Full(c) && c == chunk
                && final(self)@ == old(self)@),
            old(self)@.push_accepted() ==> r == PushOutcome::Pushed
                && final(self)@ == old(self)@.after_push(chunk.deep_view()),
    {
        if !self.receiver_alive {
            PushOutcome::Disconnected(chunk)
        } else if self.items.len() >= self.cap {
            PushOutcome::Full(chunk)
        } else {
            let ghost m0 = self@;
            self.items.push(chunk);
            proof {
                assert(self@.items =~~= m0.items.push(chunk.deep_view()));
            }
            PushOutcome::Pushed
        }
    }

    /// Attempt to pop the head chunk.
    ///
    /// A non-empty queue always yields its head (FIFO, even after the
    /// producer is gone); an empty one reports `Empty` while the
    /// producer is attached and `Disconnected` once it is not.
    pub fn try_pop(&mut self) -> (r: PopOutcome)
        requires
            old(self)@.wf(),
        ensures
            final(self)@.wf(),
            old(self)@.pop_ready() ==> (r matches PopOutcome::Item(c)
                && c.deep_view() == old(self)@.items[0]
                && final(self)@ == old(self)@.after_pop()),
            !old(self)@.pop_ready() && old(self)@.sender_live ==> r == PopOutcome::Empty
                && final(self)@ == old(self)@,
            !old(self)@.pop_ready() && !old(self)@.sender_live ==> r == PopOutcome::Disconnected
                && final(self)@ == old(self)@,
    {
        if self.items.len() > 0 {
            let ghost m0 = self@;
            let c = self.items.remove(0);
            proof {
                assert(self@.items =~~= m0.items.drop_first());
            }
            PopOutcome::Item(c)
        } else if self.sender_alive {
            PopOutcome::Empty
        } else {
            PopOutcome::Disconnected
        }
    }

    /// The producing side detaches; already-queued chunks stay
    /// poppable.
    pub fn close_sender(&mut self)
        ensures
            final(self)@ == (QueueModel { sender_live: false, ..old(self)@ }),
    {
        self.sender_alive = false;
    }

    /// The consuming side detaches; every later push fails.
    pub fn close_receiver(&mut self)
        ensures
            final(self)@ == (QueueModel { receiver_live: false, ..old(self)@ }),
    {
        self.receiver_alive = false;
    }
}

/// Backpressure law: on a full queue with a live consumer a push does
/// not go through, and after one pop exactly one slot is free, so the
/// retried push is accepted and appends that one chunk behind the
/// remaining ones.
pub proof fn lemma_backpressure(m: QueueModel, chunk: Seq<u8>)
    requires
        m.wf(),
        m.receiver_live,
        m.items.len() == m.cap,
    ensures
        m.push_blocked(),
        !m.push_accepted(),
        m.pop_ready(),
        m.after_pop().push_accepted(),
        m.after_pop().after_push(chunk).items == m.items.drop_first().push(chunk),
        m.after_pop().after_push(chunk).items.len() == m.cap,
{
}

/// Disconnect propagation law: once the consumer is gone a push is
/// neither accepted nor merely blocked — it fails for good — and no
/// sequence of failed pushes changes the queue.
pub proof fn lemma_push_disconnect(m: QueueModel)
    requires
        m.wf(),
        !m.receiver_live,
    ensures
        !m.push_accepted(),
        !m.push_blocked(),
{
}

} // verus!
