use srtpsrv::bridge::{bridge_step, BridgeOutcome};
use srtpsrv::buffer::SampleBuffer;
use srtpsrv::capture::{capture_step, drain_chunks, run_capture_script};
use srtpsrv::playback::{fill_to, playback_period};
use srtpsrv::queue::{ChunkQueue, PopOutcome, PushOutcome, QUEUE_CAPACITY};

#[test]
fn buffer_appends_at_tail_and_removes_from_head() {
    let mut buf = SampleBuffer::new();
    buf.push_chunk(&vec![1u8, 2, 3]);
    buf.push_zeros(2);
    assert_eq!(buf.len(), 5);
    let front = buf.take_front(4);
    assert_eq!(front, vec![1u8, 2, 3, 0]);
    assert_eq!(buf.len(), 1);
    let rest = buf.take_front(1);
    assert_eq!(rest, vec![0u8]);
    assert_eq!(buf.len(), 0);
}

#[test]
fn capture_emits_only_full_chunks() {
    let mut buf = SampleBuffer::new();
    buf.push_chunk(&vec![10u8, 11, 12, 13, 14, 15, 16, 17, 18, 19]);
    let chunks = drain_chunks(&mut buf, 4);
    assert_eq!(chunks.len(), 2);
    assert_eq!(chunks[0], vec![10u8, 11, 12, 13]);
    assert_eq!(chunks[1], vec![14u8, 15, 16, 17]);
    assert_eq!(buf.len(), 2);
}

#[test]
fn capture_step_exact_boundary() {
    let mut buf = SampleBuffer::new();
    let chunks = capture_step(&mut buf, &vec![1u8, 2, 3, 4], 4);
    assert_eq!(chunks, vec![vec![1u8, 2, 3, 4]]);
    assert_eq!(buf.len(), 0);
}

#[test]
fn capture_round_trip_reproduces_source() {
    let pulls = vec![
        vec![0u8, 1, 2],
        vec![],
        vec![3u8, 4, 5, 6, 7, 8],
        vec![9u8],
        vec![10u8, 11, 12, 13],
    ];
    let source: Vec<u8> = pulls.iter().flatten().copied().collect();
    let (emitted, leftover) = run_capture_script(&pulls, 4);
    for c in &emitted {
        assert_eq!(c.len(), 4);
    }
    let mut rebuilt: Vec<u8> = emitted.iter().flatten().copied().collect();
    let mut tail = leftover;
    let tail_len = tail.len();
    assert!(tail_len < 4);
    rebuilt.extend(tail.take_front(tail_len));
    assert_eq!(rebuilt, source);
}

#[test]
fn capture_empty_script_emits_nothing() {
    let (emitted, leftover) = run_capture_script(&Vec::new(), 8);
    assert!(emitted.is_empty());
    assert_eq!(leftover.len(), 0);
}

#[test]
fn queue_is_fifo() {
    let mut q = ChunkQueue::with_capacity(QUEUE_CAPACITY);
    assert_eq!(q.try_push(vec![1u8]), PushOutcome::Pushed);
    assert_eq!(q.try_push(vec![2u8]), PushOutcome::Pushed);
    assert_eq!(q.try_pop(), PopOutcome::Item(vec![1u8]));
    assert_eq!(q.try_pop(), PopOutcome::Item(vec![2u8]));
    assert_eq!(q.try_pop(), PopOutcome::Empty);
}

#[test]
fn queue_backpressure_at_capacity_two() {
    let mut q = ChunkQueue::with_capacity(QUEUE_CAPACITY);
    assert_eq!(q.try_push(vec![1u8]), PushOutcome::Pushed);
    assert_eq!(q.try_push(vec![2u8]), PushOutcome::Pushed);
    // A third push does not go through while the queue is full: the
    // producing thread stays blocked with its chunk.
    let blocked = q.try_push(vec![3u8]);
    assert_eq!(blocked, PushOutcome::Full(vec![3u8]));
    // One consumed item frees exactly one slot and the retried push
    // goes through at once.
    assert_eq!(q.try_pop(), PopOutcome::Item(vec![1u8]));
    match blocked {
        PushOutcome::Full(chunk) => assert_eq!(q.try_push(chunk), PushOutcome::Pushed),
        _ => panic!("push on a full queue must report Full"),
    }
    assert_eq!(q.try_push(vec![4u8]), PushOutcome::Full(vec![4u8]));
    assert_eq!(q.try_pop(), PopOutcome::Item(vec![2u8]));
    assert_eq!(q.try_pop(), PopOutcome::Item(vec![3u8]));
}

#[test]
fn queue_push_fails_for_good_once_consumer_gone() {
    let mut q = ChunkQueue::with_capacity(QUEUE_CAPACITY);
    assert_eq!(q.try_push(vec![1u8]), PushOutcome::Pushed);
    q.close_receiver();
    assert_eq!(q.try_push(vec![2u8]), PushOutcome::Disconnected(vec![2u8]));
    assert_eq!(q.try_push(vec![3u8]), PushOutcome::Disconnected(vec![3u8]));
    assert_eq!(q.len(), 1);
}

#[test]
fn queue_pop_drains_then_reports_disconnect() {
    let mut q = ChunkQueue::with_capacity(QUEUE_CAPACITY);
    assert_eq!(q.try_push(vec![7u8]), PushOutcome::Pushed);
    q.close_sender();
    assert_eq!(q.try_pop(), PopOutcome::Item(vec![7u8]));
    assert_eq!(q.try_pop(), PopOutcome::Disconnected);
}

#[test]
fn playback_underrun_fills_with_exact_silence() {
    let mut buf = SampleBuffer::new();
    buf.push_chunk(&vec![9u8]);
    let mut q = ChunkQueue::with_capacity(QUEUE_CAPACITY);
    // No chunk ready while 2 more bytes are required: the shortfall is
    // zero bytes, and exactly the required count is submitted.
    let out = playback_period(&mut buf, &mut q, 3);
    assert_eq!(out, Some(vec![9u8, 0, 0]));
    assert_eq!(buf.len(), 0);
}

#[test]
fn playback_pure_underrun_submits_all_zeros() {
    let mut buf = SampleBuffer::new();
    let mut q = ChunkQueue::with_capacity(QUEUE_CAPACITY);
    let out = playback_period(&mut buf, &mut q, 8);
    assert_eq!(out, Some(vec![0u8; 8]));
    assert_eq!(buf.len(), 0);
}

#[test]
fn playback_appends_received_chunks_in_order() {
    let mut buf = SampleBuffer::new();
    let mut q = ChunkQueue::with_capacity(QUEUE_CAPACITY);
    assert_eq!(q.try_push(vec![1u8, 2]), PushOutcome::Pushed);
    assert_eq!(q.try_push(vec![3u8, 4, 5]), PushOutcome::Pushed);
    let out = playback_period(&mut buf, &mut q, 4);
    assert_eq!(out, Some(vec![1u8, 2, 3, 4]));
    assert_eq!(buf.len(), 1);
    assert_eq!(q.len(), 0);
}

#[test]
fn playback_fill_stops_once_satisfied() {
    let mut buf = SampleBuffer::new();
    let mut q = ChunkQueue::with_capacity(QUEUE_CAPACITY);
    assert_eq!(q.try_push(vec![1u8, 2, 3, 4]), PushOutcome::Pushed);
    assert_eq!(q.try_push(vec![5u8, 6]), PushOutcome::Pushed);
    let ok = fill_to(&mut buf, &mut q, 4);
    assert!(ok);
    assert_eq!(buf.len(), 4);
    // The second chunk was not needed and stays queued.
    assert_eq!(q.len(), 1);
}

#[test]
fn playback_period_of_zero_frames_submits_nothing() {
    let mut buf = SampleBuffer::new();
    let mut q = ChunkQueue::with_capacity(QUEUE_CAPACITY);
    let out = playback_period(&mut buf, &mut q, 0);
    assert_eq!(out, Some(Vec::new()));
}

#[test]
fn playback_exits_on_producer_disconnect() {
    let mut buf = SampleBuffer::new();
    let mut q = ChunkQueue::with_capacity(QUEUE_CAPACITY);
    assert_eq!(q.try_push(vec![1u8]), PushOutcome::Pushed);
    q.close_sender();
    // The queued chunk still plays; only then does the disconnect
    // surface and end the stage.
    let out = playback_period(&mut buf, &mut q, 1);
    assert_eq!(out, Some(vec![1u8]));
    let next = playback_period(&mut buf, &mut q, 1);
    assert_eq!(next, None);
}

#[test]
fn bridge_relays_unchanged_in_order() {
    let mut up = ChunkQueue::with_capacity(QUEUE_CAPACITY);
    let mut down = ChunkQueue::with_capacity(QUEUE_CAPACITY);
    assert_eq!(up.try_push(vec![1u8, 2]), PushOutcome::Pushed);
    assert_eq!(up.try_push(vec![3u8]), PushOutcome::Pushed);
    assert_eq!(bridge_step(&mut up, &mut down), BridgeOutcome::Relayed);
    assert_eq!(bridge_step(&mut up, &mut down), BridgeOutcome::Relayed);
    assert_eq!(bridge_step(&mut up, &mut down), BridgeOutcome::WouldBlock);
    assert_eq!(down.try_pop(), PopOutcome::Item(vec![1u8, 2]));
    assert_eq!(down.try_pop(), PopOutcome::Item(vec![3u8]));
}

#[test]
fn bridge_waits_while_downstream_full() {
    let mut up = ChunkQueue::with_capacity(QUEUE_CAPACITY);
    let mut down = ChunkQueue::with_capacity(QUEUE_CAPACITY);
    assert_eq!(down.try_push(vec![8u8]), PushOutcome::Pushed);
    assert_eq!(down.try_push(vec![9u8]), PushOutcome::Pushed);
    assert_eq!(up.try_push(vec![1u8]), PushOutcome::Pushed);
    assert_eq!(bridge_step(&mut up, &mut down), BridgeOutcome::WouldBlock);
    // Nothing was taken from upstream while there was no room.
    assert_eq!(up.len(), 1);
    assert_eq!(down.try_pop(), PopOutcome::Item(vec![8u8]));
    assert_eq!(bridge_step(&mut up, &mut down), BridgeOutcome::Relayed);
}

#[test]
fn bridge_terminates_when_upstream_gone() {
    let mut up = ChunkQueue::with_capacity(QUEUE_CAPACITY);
    let mut down = ChunkQueue::with_capacity(QUEUE_CAPACITY);
    up.close_sender();
    assert_eq!(bridge_step(&mut up, &mut down), BridgeOutcome::Terminated);
}

#[test]
fn bridge_terminates_when_downstream_gone() {
    let mut up = ChunkQueue::with_capacity(QUEUE_CAPACITY);
    let mut down = ChunkQueue::with_capacity(QUEUE_CAPACITY);
    assert_eq!(up.try_push(vec![1u8]), PushOutcome::Pushed);
    down.close_receiver();
    assert_eq!(bridge_step(&mut up, &mut down), BridgeOutcome::Terminated);
}
