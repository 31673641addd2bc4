use tun_bench::batch::{Batcher, Outcome, Request};

fn flushed<T>(out: Outcome<T>) -> Option<Vec<T>> {
    match out {
        Outcome::Flush(b) => Some(b),
        _ => None,
    }
}

#[test]
fn batcher_starts_idle_and_waits() {
    let b: Batcher<u32> = Batcher::new(3);
    assert_eq!(b.request(), Request::Wait);
    assert_eq!(b.pending_len(), 0);
    assert_eq!(b.limit(), 3);
}

#[test]
fn batcher_polls_after_first_packet() {
    let mut b: Batcher<u32> = Batcher::new(3);
    assert!(matches!(b.on_packet(7), Outcome::Continue));
    assert_eq!(b.request(), Request::Poll);
    assert_eq!(b.pending_len(), 1);
}

#[test]
fn batcher_flushes_full_batch() {
    let mut b: Batcher<u32> = Batcher::new(3);
    assert!(matches!(b.on_packet(1), Outcome::Continue));
    assert!(matches!(b.on_packet(2), Outcome::Continue));
    assert_eq!(flushed(b.on_packet(3)), Some(vec![1, 2, 3]));
    assert_eq!(b.request(), Request::Wait);
    assert_eq!(b.pending_len(), 0);
}

#[test]
fn batcher_flushes_partial_batch_when_channel_is_drained() {
    let mut b: Batcher<u32> = Batcher::new(3);
    assert!(matches!(b.on_packet(1), Outcome::Continue));
    assert!(matches!(b.on_packet(2), Outcome::Continue));
    assert_eq!(flushed(b.on_empty()), Some(vec![1, 2]));
    assert_eq!(b.request(), Request::Wait);
}

#[test]
fn batcher_reports_closed_channel_when_idle() {
    let mut b: Batcher<u32> = Batcher::new(3);
    assert!(matches!(b.on_empty(), Outcome::Closed));
}

#[test]
fn batcher_of_one_flushes_every_packet() {
    let mut b: Batcher<u32> = Batcher::new(1);
    assert_eq!(flushed(b.on_packet(5)), Some(vec![5]));
    assert_eq!(flushed(b.on_packet(6)), Some(vec![6]));
    assert_eq!(b.request(), Request::Wait);
}

#[test]
fn batcher_with_ideal_size_holds_128() {
    let mut b: Batcher<usize> = Batcher::with_ideal_size();
    assert_eq!(b.limit(), 128);
    for i in 0..127 {
        assert!(matches!(b.on_packet(i), Outcome::Continue));
    }
    let batch = flushed(b.on_packet(127)).unwrap();
    assert_eq!(batch.len(), 128);
    assert_eq!(batch, (0..128).collect::<Vec<usize>>());
}

#[test]
fn batcher_keeps_every_packet_in_order() {
    // Receive results: Some = a packet, None = the channel had none ready.
    let events = vec![
        Some(1u32), Some(2), None, Some(3), Some(4), Some(5), Some(6), None, Some(7), None,
    ];
    let mut b: Batcher<u32> = Batcher::new(3);
    let mut batches: Vec<Vec<u32>> = Vec::new();
    for ev in events {
        let out = match ev {
            Some(p) => b.on_packet(p),
            None => b.on_empty(),
        };
        if let Outcome::Flush(batch) = out {
            batches.push(batch);
        }
    }
    assert_eq!(batches, vec![vec![1, 2], vec![3, 4, 5], vec![6], vec![7]]);
    for batch in &batches {
        assert!(!batch.is_empty() && batch.len() <= 3);
    }
    let all: Vec<u32> = batches.concat();
    assert_eq!(all, vec![1, 2, 3, 4, 5, 6, 7]);
}
