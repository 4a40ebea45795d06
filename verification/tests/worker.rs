//! The worker's drain loop, flush batching, shutdown handshake and fault
//! handling, driven single-threaded: records are enqueued first, then the
//! worker drains them.

use logforth::construct;
use logforth::keep_looping;
use logforth::FlakySink;
use logforth::VecSink;
use logforth::WorkerState;

#[test]
fn graceful_shutdown_writes_all_records_in_order() {
    let (handle, mut worker) = construct(VecSink::new());
    assert!(handle.send_record(b"a\n".to_vec()));
    assert!(handle.send_record(b"b\n".to_vec()));
    assert!(handle.send_record(b"c\n".to_vec()));
    assert!(handle.send_shutdown());
    drop(handle);
    let finished = worker.run(16);
    assert!(finished);
    assert_eq!(worker.sink.data, b"a\nb\nc\n".to_vec());
    // One flush ends the burst, one more is the terminal flush.
    assert_eq!(worker.sink.flushes, 2);
    assert_eq!(worker.sink.flushed_len, worker.sink.data.len());
}

#[test]
fn burst_of_records_flushes_exactly_once() {
    let (handle, mut worker) = construct(VecSink::new());
    for byte in [b'1', b'2', b'3', b'4', b'5'] {
        assert!(handle.send_record(vec![byte]));
    }
    let state = worker.work(usize::MAX).unwrap();
    assert_eq!(state, WorkerState::Empty);
    assert_eq!(worker.sink.data, b"12345".to_vec());
    assert_eq!(worker.sink.flushes, 1);
    assert_eq!(worker.sink.flushed_len, 5);
}

#[test]
fn empty_cycle_after_shutdown_message_flushes_nothing_new() {
    let (handle, mut worker) = construct(VecSink::new());
    assert!(handle.send_shutdown());
    let state = worker.work(usize::MAX).unwrap();
    assert_eq!(state, WorkerState::Shutdown);
    assert!(worker.sink.data.is_empty());
    assert_eq!(worker.sink.flushes, 1);
}

#[test]
fn two_producers_disconnecting_terminates_the_worker() {
    let (first, mut worker) = construct(VecSink::new());
    let second = first.clone();
    let mut expected: Vec<u8> = Vec::new();
    for i in 0..1000u16 {
        let a = vec![b'A', (i >> 8) as u8, (i & 0xff) as u8];
        let b = vec![b'B', (i >> 8) as u8, (i & 0xff) as u8];
        assert!(first.send_record(a.clone()));
        assert!(second.send_record(b.clone()));
        expected.extend_from_slice(&a);
        expected.extend_from_slice(&b);
    }
    drop(first);
    drop(second);
    let finished = worker.run(64);
    assert!(finished);
    assert_eq!(worker.sink.data, expected);
    assert_eq!(worker.sink.flushed_len, worker.sink.data.len());
}

#[test]
fn one_write_failure_does_not_block_the_next_record() {
    let (handle, mut worker) = construct(FlakySink::new(vec![true, false]));
    assert!(handle.send_record(b"lost\n".to_vec()));
    assert!(handle.send_record(b"kept\n".to_vec()));
    assert!(handle.send_shutdown());
    drop(handle);
    let finished = worker.run(16);
    assert!(finished);
    assert_eq!(worker.sink.data, b"kept\n".to_vec());
    assert_eq!(worker.sink.flushed_len, worker.sink.data.len());
}

#[test]
fn disconnected_channel_ends_a_cycle_without_records() {
    let (handle, mut worker) = construct(VecSink::new());
    drop(handle);
    let state = worker.work(usize::MAX).unwrap();
    assert_eq!(state, WorkerState::Disconnected);
    assert!(worker.sink.data.is_empty());
    assert_eq!(worker.sink.flushes, 1);
    assert!(!keep_looping(&state));
}

#[test]
fn run_budget_of_zero_reports_unfinished() {
    let (handle, mut worker) = construct(VecSink::new());
    assert!(handle.send_record(b"x".to_vec()));
    let finished = worker.run(0);
    assert!(!finished);
    assert!(worker.sink.data.is_empty());
}

#[test]
fn terminal_states_stop_the_driver_loop() {
    assert!(keep_looping(&WorkerState::Empty));
    assert!(keep_looping(&WorkerState::Continue));
    assert!(!keep_looping(&WorkerState::Shutdown));
    assert!(!keep_looping(&WorkerState::Disconnected));
}

#[test]
fn sending_to_a_gone_worker_fails_silently() {
    let (handle, worker) = construct(VecSink::new());
    drop(worker);
    assert!(!handle.send_record(b"late".to_vec()));
    assert!(!handle.send_shutdown());
    assert!(!handle.await_shutdown_ack());
}
