//! Whole sessions against a schedule of bursts: flush cost is one per
//! cycle plus the terminal flush, and nothing after the shutdown request
//! reaches the sink.

use logforth::run_session;
use logforth::Message;
use logforth::VecSink;
use logforth::WorkerState;

#[test]
fn session_flushes_once_per_burst_plus_terminal() {
    let mut sink = VecSink::new();
    let bursts = vec![
        vec![Message::Record(b"a".to_vec())],
        vec![Message::Record(b"b".to_vec()), Message::Record(b"c".to_vec())],
        vec![
            Message::Record(b"d".to_vec()),
            Message::Shutdown,
            Message::Record(b"late".to_vec()),
        ],
    ];
    let state = run_session(&mut sink, &bursts, false).unwrap();
    assert_eq!(state, WorkerState::Shutdown);
    assert_eq!(sink.data, b"abcd".to_vec());
    // Three cycles, three burst flushes, one terminal flush.
    assert_eq!(sink.flushes, 4);
    assert_eq!(sink.flushed_len, sink.data.len());
}

#[test]
fn session_without_shutdown_ends_on_disconnection() {
    let mut sink = VecSink::new();
    let bursts = vec![
        vec![Message::Record(b"one ".to_vec())],
        vec![Message::Record(b"two".to_vec())],
    ];
    let state = run_session(&mut sink, &bursts, true).unwrap();
    assert_eq!(state, WorkerState::Disconnected);
    assert_eq!(sink.data, b"one two".to_vec());
    // Two burst cycles, the disconnection cycle, and the terminal flush.
    assert_eq!(sink.flushes, 4);
    assert_eq!(sink.flushed_len, sink.data.len());
}

#[test]
fn empty_session_with_disconnection_writes_nothing() {
    let mut sink = VecSink::new();
    let bursts: Vec<Vec<Message>> = Vec::new();
    let state = run_session(&mut sink, &bursts, true).unwrap();
    assert_eq!(state, WorkerState::Disconnected);
    assert!(sink.data.is_empty());
    // The disconnection cycle and the terminal flush.
    assert_eq!(sink.flushes, 2);
}
