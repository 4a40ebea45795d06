//! Append targets: where a dispatched record finally goes. The closed set
//! of variants dispatches one capability set — append, flush, and the
//! defaults for layout and filters.

use std::io::Write;

use vstd::prelude::*;

use crate::filter::Filter;
use crate::layout::IdenticalLayout;
use crate::layout::Layout;
use crate::record::Record;

verus! {

/// An append target could not take the record.
#[derive(Debug, Clone, Copy, PartialEq, Eq, Structural)]
pub struct AppendError;

/// Capability set of an append target.
pub trait Append: Sized {
    /// Dispatches a log record to the append target.
    fn try_append(&self, record: &Record) -> Result<(), AppendError>;

    /// Flushes any buffered records.
    fn flush(&self) {
    }

    /// Default layout to use when the dispatcher does not configure a
    /// preferred one.
    fn default_layout(&self) -> (layout: Layout) {
        Layout::Identical(IdenticalLayout)
    }

    /// Default filters associated to this append target; `None` leaves
    /// filtering entirely to the dispatcher, and every target this crate
    /// owns does so.
    fn default_filters(&self) -> (filters: Option<Vec<Filter>>)
        ensures
            filters is None,
    {
        None
    }
}

/// The record's payload followed by one line feed, as the stdio appenders
/// print it.
pub fn line_bytes(payload: &Vec<u8>) -> (r: Vec<u8>)
    ensures
        r@ == payload@.push(10u8),
{
    let mut out = crate::layout::copy_bytes(payload);
    out.push(10u8);
    out
}

/// Relies on std::io::Stdout::write_all: the whole buffer is written, or an
/// error is returned and the line is dropped.
#[verifier::external_body]
fn write_stdout(bytes: &Vec<u8>) -> (r: Result<(), AppendError>) {
    std::io::stdout().write_all(bytes.as_slice()).map_err(|_| AppendError)
}

/// Relies on std::io::Stdout::flush: best-effort, errors are ignored as the
/// stdio appenders always have.
#[verifier::external_body]
fn flush_stdout() {
    let _ = std::io::stdout().flush();
}

/// Relies on std::io::Stderr::write_all: the whole buffer is written, or an
/// error is returned and the line is dropped.
#[verifier::external_body]
fn write_stderr(bytes: &Vec<u8>) -> (r: Result<(), AppendError>) {
    std::io::stderr().write_all(bytes.as_slice()).map_err(|_| AppendError)
}

/// Relies on std::io::Stderr::flush: best-effort, errors are ignored.
#[verifier::external_body]
fn flush_stderr() {
    let _ = std::io::stderr().flush();
}

/// An appender that prints log records to stdout, one line per record.
#[derive(Debug, Default)]
pub struct Stdout;

impl Append for Stdout {
    fn try_append(&self, record: &Record) -> Result<(), AppendError> {
        let bytes = line_bytes(&record.payload);
        write_stdout(&bytes)
    }

    fn flush(&self) {
        flush_stdout();
    }
}

/// An appender that prints log records to stderr, one line per record.
#[derive(Debug, Default)]
pub struct Stderr;

impl Append for Stderr {
    fn try_append(&self, record: &Record) -> Result<(), AppendError> {
        let bytes = line_bytes(&record.payload);
        write_stderr(&bytes)
    }

    fn flush(&self) {
        flush_stderr();
    }
}

/// The closed set of append target variants, dispatching the shared
/// capability set.
#[derive(Debug)]
pub enum AppendImpl {
    Stdout(Stdout),
    Stderr(Stderr),
}

impl Append for AppendImpl {
    fn try_append(&self, record: &Record) -> Result<(), AppendError> {
        match self {
            AppendImpl::Stdout(append) => append.try_append(record),
            AppendImpl::Stderr(append) => append.try_append(record),
        }
    }

    fn flush(&self) {
        match self {
            AppendImpl::Stdout(append) => append.flush(),
            AppendImpl::Stderr(append) => append.flush(),
        }
    }

    fn default_layout(&self) -> (layout: Layout) {
        match self {
            AppendImpl::Stdout(append) => append.default_layout(),
            AppendImpl::Stderr(append) => append.default_layout(),
        }
    }

    fn default_filters(&self) -> (filters: Option<Vec<Filter>>) {
        match self {
            AppendImpl::Stdout(append) => append.default_filters(),
            AppendImpl::Stderr(append) => append.default_filters(),
        }
    }
}

} // verus!
