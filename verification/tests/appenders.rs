//! Filters, layouts and the stdio append targets.

use logforth::Append;
use logforth::AppendImpl;
use logforth::CustomFilter;
use logforth::Filter;
use logforth::FilterResult;
use logforth::IdenticalLayout;
use logforth::Layout;
use logforth::Level;
use logforth::MaxLevel;
use logforth::Metadata;
use logforth::Record;
use logforth::Stderr;
use logforth::Stdout;

fn record(level: Level, payload: &[u8]) -> Record {
    Record { metadata: Metadata { level }, payload: payload.to_vec() }
}

#[test]
fn max_level_filter_rejects_only_more_verbose_records() {
    let filter = MaxLevel { level: Level::Info };
    assert_eq!(filter.filter(&Metadata { level: Level::Error }), FilterResult::Neutral);
    assert_eq!(filter.filter(&Metadata { level: Level::Info }), FilterResult::Neutral);
    assert_eq!(filter.filter(&Metadata { level: Level::Debug }), FilterResult::Reject);
    assert_eq!(filter.filter(&Metadata { level: Level::Trace }), FilterResult::Reject);
}

#[test]
fn custom_filter_answers_from_its_table() {
    let filter = CustomFilter {
        verdicts: vec![
            FilterResult::Accept,
            FilterResult::Reject,
            FilterResult::Neutral,
        ],
    };
    assert_eq!(filter.filter(&Metadata { level: Level::Error }), FilterResult::Accept);
    assert_eq!(filter.filter(&Metadata { level: Level::Warn }), FilterResult::Reject);
    assert_eq!(filter.filter(&Metadata { level: Level::Info }), FilterResult::Neutral);
    // Levels past the table pass on undecided.
    assert_eq!(filter.filter(&Metadata { level: Level::Trace }), FilterResult::Neutral);
}

#[test]
fn filter_dispatches_to_its_variant() {
    let capped = Filter::MaxLevel(MaxLevel { level: Level::Warn });
    assert_eq!(capped.filter(&Metadata { level: Level::Info }), FilterResult::Reject);
    assert_eq!(capped.filter(&Metadata { level: Level::Error }), FilterResult::Neutral);
    let custom = Filter::Custom(CustomFilter { verdicts: vec![FilterResult::Reject] });
    assert_eq!(custom.filter(&Metadata { level: Level::Error }), FilterResult::Reject);
    assert_eq!(custom.filter(&Metadata { level: Level::Warn }), FilterResult::Neutral);
}

#[test]
fn identical_layout_returns_the_payload_as_is() {
    let layout = IdenticalLayout;
    let rec = record(Level::Info, b"exact bytes");
    assert_eq!(layout.format(&rec), b"exact bytes".to_vec());
}

#[test]
fn layout_from_identical_wraps_the_variant() {
    let layout = Layout::from(IdenticalLayout);
    assert!(matches!(layout, Layout::Identical(_)));
}

#[test]
fn line_bytes_appends_one_line_feed() {
    assert_eq!(logforth::line_bytes(&b"msg".to_vec()), b"msg\n".to_vec());
    assert_eq!(logforth::line_bytes(&Vec::new()), b"\n".to_vec());
}

#[test]
fn stdio_appenders_take_records_and_default_their_capabilities() {
    let stdout = Stdout;
    let stderr = Stderr;
    assert!(stdout.try_append(&record(Level::Info, b"to stdout")).is_ok());
    assert!(stderr.try_append(&record(Level::Warn, b"to stderr")).is_ok());
    stdout.flush();
    stderr.flush();
    assert!(matches!(stdout.default_layout(), Layout::Identical(_)));
    assert!(stdout.default_filters().is_none());
}

#[test]
fn append_impl_dispatches_the_capability_set() {
    let target = AppendImpl::Stdout(Stdout);
    assert!(target.try_append(&record(Level::Info, b"dispatched")).is_ok());
    target.flush();
    assert!(matches!(target.default_layout(), Layout::Identical(_)));
    assert!(target.default_filters().is_none());
    let other = AppendImpl::Stderr(Stderr);
    assert!(other.try_append(&record(Level::Error, b"dispatched too")).is_ok());
}
