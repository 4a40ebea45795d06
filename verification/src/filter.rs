//! The filters an append target can attach: a verbosity cap and a custom
//! verdict table over the levels.

use vstd::prelude::*;

use crate::record::verbosity;
use crate::record::level_verbosity;
use crate::record::Level;
use crate::record::Metadata;

verus! {

/// Verdict of one filter on one record's metadata.
#[derive(Debug, Clone, Copy, PartialEq, Eq, Structural)]
pub enum FilterResult {
    /// The record will be processed without further filtering.
    Accept,
    /// The record should not be processed.
    Reject,
    /// No decision could be made, further filtering should occur.
    Neutral,
}

/// Caps verbosity: records more verbose than `level` are rejected, the
/// rest pass on undecided.
#[derive(Debug, Clone, Copy, PartialEq, Eq, Structural)]
pub struct MaxLevel {
    pub level: Level,
}

/// What [`MaxLevel`] answers for a record at level `m`.
pub open spec fn max_level_verdict(max: Level, m: Level) -> FilterResult {
    if verbosity(m) <= verbosity(max) {
        FilterResult::Neutral
    } else {
        FilterResult::Reject
    }
}

impl MaxLevel {
    pub fn filter(&self, metadata: &Metadata) -> (r: FilterResult)
        ensures
            r == max_level_verdict(self.level, metadata.level),
    {
        if level_verbosity(&metadata.level) <= level_verbosity(&self.level) {
            FilterResult::Neutral
        } else {
            FilterResult::Reject
        }
    }
}

/// A user-chosen verdict for each level: `verdicts[rank - 1]` answers for
/// the level of that verbosity rank; a level past the table passes on
/// undecided.
#[derive(Debug)]
pub struct CustomFilter {
    pub verdicts: Vec<FilterResult>,
}

/// What [`CustomFilter`] answers for a record at level `m`.
pub open spec fn custom_verdict(verdicts: Seq<FilterResult>, m: Level) -> FilterResult {
    if verbosity(m) - 1 < verdicts.len() {
        verdicts[verbosity(m) - 1]
    } else {
        FilterResult::Neutral
    }
}

impl CustomFilter {
    pub fn filter(&self, metadata: &Metadata) -> (r: FilterResult)
        ensures
            r == custom_verdict(self.verdicts@, metadata.level),
    {
        let rank = level_verbosity(&metadata.level);
        let index = (rank - 1) as usize;
        if index < self.verdicts.len() {
            self.verdicts[index]
        } else {
            FilterResult::Neutral
        }
    }
}

/// The closed set of filter variants an append target can carry.
#[derive(Debug)]
pub enum Filter {
    MaxLevel(MaxLevel),
    Custom(CustomFilter),
}

/// What [`Filter::filter`] answers: the verdict of the carried variant.
pub open spec fn filter_verdict(f: &Filter, m: Level) -> FilterResult {
    match f {
        Filter::MaxLevel(inner) => max_level_verdict(inner.level, m),
        Filter::Custom(inner) => custom_verdict(inner.verdicts@, m),
    }
}

impl Filter {
    pub fn filter(&self, metadata: &Metadata) -> (r: FilterResult)
        ensures
            r == filter_verdict(self, metadata.level),
    {
        match self {
            Filter::MaxLevel(inner) => inner.filter(metadata),
            Filter::Custom(inner) => inner.filter(metadata),
        }
    }
}

} // verus!
