//! Layouts turn a record into the bytes an append target writes. The one
//! layout this crate owns returns the record's payload as it is; richer
//! layouts live with the formatting engine outside this core.

use vstd::prelude::*;

use crate::record::Record;

verus! {

/// A layout that returns the log record's payload as is.
///
/// This is the default layout of an append target that has not configured
/// a preferred one.
#[derive(Debug, Default, Clone, Copy)]
pub struct IdenticalLayout;

impl IdenticalLayout {
    /// Formats a record: the result is exactly the record's payload bytes.
    pub fn format(&self, record: &Record) -> (r: Vec<u8>)
        ensures
            r@ == record.payload@,
    {
        copy_bytes(&record.payload)
    }
}

/// The closed set of layout variants an append target can name.
#[derive(Debug)]
pub enum Layout {
    Identical(IdenticalLayout),
}

impl From<IdenticalLayout> for Layout {
    fn from(layout: IdenticalLayout) -> (r: Self) {
        Layout::Identical(layout)
    }
}

impl vstd::std_specs::convert::FromSpecImpl<IdenticalLayout> for Layout {
    open spec fn obeys_from_spec() -> bool {
        true
    }

    open spec fn from_spec(layout: IdenticalLayout) -> Layout {
        Layout::Identical(layout)
    }
}

/// An exact copy of the given bytes.
pub fn copy_bytes(bytes: &Vec<u8>) -> (r: Vec<u8>)
    ensures
        r@ == bytes@,
{
    let mut out: Vec<u8> = Vec::new();
    let mut i: usize = 0;
    while i < bytes.len()
        invariant
            i <= bytes@.len(),
            out@ == bytes@.take(i as int),
        decreases bytes@.len() - i,
    {
        out.push(bytes[i]);
        assert(bytes@.take(i + 1 as int) =~= bytes@.take(i as int).push(bytes@[i as int]));
        i += 1;
    }
    assert(bytes@.take(bytes@.len() as int) =~= bytes@);
    out
}

} // verus!
