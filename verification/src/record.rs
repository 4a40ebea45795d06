//! The library's own model of a log record: the verbosity level the filters
//! read and the pre-formatted payload bytes the appenders write. The layout
//! layer outside this crate renders a record's arguments into the payload
//! before it reaches these types.

use vstd::prelude::*;

verus! {

/// Verbosity level of a record, from most severe to most verbose.
#[derive(Debug, Clone, Copy, PartialEq, Eq, Structural)]
pub enum Level {
    Error,
    Warn,
    Info,
    Debug,
    Trace,
}

/// A level's rank on the verbosity scale: `Error` is 1, `Trace` is 5.
pub open spec fn verbosity(l: Level) -> int {
    match l {
        Level::Error => 1,
        Level::Warn => 2,
        Level::Info => 3,
        Level::Debug => 4,
        Level::Trace => 5,
    }
}

/// The verbosity rank, for ordering levels at run time.
pub fn level_verbosity(l: &Level) -> (v: u8)
    ensures
        v as int == verbosity(*l),
{
    match l {
        Level::Error => 1,
        Level::Warn => 2,
        Level::Info => 3,
        Level::Debug => 4,
        Level::Trace => 5,
    }
}

/// What a filter may look at before the record is formatted.
#[derive(Debug, Clone, Copy, PartialEq, Eq, Structural)]
pub struct Metadata {
    pub level: Level,
}

/// One log record: its metadata and its already-formatted payload bytes.
pub struct Record {
    pub metadata: Metadata,
    pub payload: Vec<u8>,
}

} // verus!
