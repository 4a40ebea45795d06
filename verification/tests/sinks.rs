//! The two sink implementations: write/flush bookkeeping and the scripted
//! failures of the flaky one.

use logforth::FlakySink;
use logforth::Sink;
use logforth::VecSink;

#[test]
fn vec_sink_accepts_writes_and_tracks_flushes() {
    let mut sink = VecSink::new();
    assert!(sink.write(b"hello ").is_ok());
    assert!(sink.write(b"world").is_ok());
    assert_eq!(sink.data, b"hello world".to_vec());
    assert_eq!(sink.flushed_len, 0);
    assert_eq!(sink.flushes, 0);
    assert!(sink.flush().is_ok());
    assert_eq!(sink.flushed_len, 11);
    assert_eq!(sink.flushes, 1);
}

#[test]
fn flaky_sink_fails_exactly_the_scripted_writes() {
    let mut sink = FlakySink::new(vec![false, true, false]);
    assert!(sink.write(b"one").is_ok());
    assert!(sink.write(b"two").is_err());
    assert!(sink.write(b"three").is_ok());
    assert!(sink.write(b"four").is_ok());
    assert_eq!(sink.data, b"onethreefour".to_vec());
    assert!(sink.flush().is_ok());
    assert_eq!(sink.flushes, 1);
    assert_eq!(sink.flushed_len, sink.data.len());
}

#[test]
fn failed_write_leaves_the_sink_untouched() {
    let mut sink = FlakySink::new(vec![true]);
    assert!(sink.write(b"gone").is_err());
    assert!(sink.data.is_empty());
    assert_eq!(sink.flushes, 0);
    assert_eq!(sink.flushed_len, 0);
}
