//! The byte destination the worker writes to.
//!
//! A sink is supplied already open by the owning append target. Its
//! observable history is the sequence of bytes accepted so far, the prefix
//! of it confirmed by a successful flush, and how many flushes succeeded.

use std::io::Write;

use vstd::prelude::*;

verus! {

/// A sink operation failed; the worker reports it and drops the record.
#[derive(Debug, Clone, Copy, PartialEq, Eq, Structural)]
pub struct SinkError;

/// A writable byte sink with buffered output.
///
/// `bytes()` is everything the sink has accepted, `flushed()` the prefix
/// known durable, and `flush_count()` how many flushes have succeeded.
/// A failed write accepts nothing (the record is lost whole), and a failed
/// flush confirms nothing. `write_succeeds`/`flush_succeeds` say when the
/// implementation owes success: on such a sink state the operation may not
/// refuse (a sink over real I/O owes success nowhere).
pub trait Sink: Sized {
    spec fn bytes(&self) -> Seq<u8>;

    spec fn flushed(&self) -> Seq<u8>;

    spec fn flush_count(&self) -> nat;

    spec fn write_succeeds(&self, buf: Seq<u8>) -> bool;

    spec fn flush_succeeds(&self) -> bool;

    fn write(&mut self, buf: &[u8]) -> (r: Result<(), SinkError>)
        ensures
            final(self).flushed() == old(self).flushed(),
            final(self).flush_count() == old(self).flush_count(),
            old(self).write_succeeds(buf@) ==> r is Ok,
            r is Ok ==> final(self).bytes() == old(self).bytes() + buf@,
            r is Err ==> final(self).bytes() == old(self).bytes(),
    ;

    fn flush(&mut self) -> (r: Result<(), SinkError>)
        ensures
            final(self).bytes() == old(self).bytes(),
            old(self).flush_succeeds() ==> r is Ok,
            r is Ok ==> final(self).flushed() == old(self).bytes()
                && final(self).flush_count() == old(self).flush_count() + 1,
            r is Err ==> final(self).flushed() == old(self).flushed()
                && final(self).flush_count() == old(self).flush_count(),
    ;
}

/// Appends all of `buf` at the end of `data`.
fn append_bytes(data: &mut Vec<u8>, buf: &[u8])
    requires
        old(data)@.len() + buf@.len() <= usize::MAX,
    ensures
        final(data)@ == old(data)@ + buf@,
{
    let ghost pre = data@;
    let mut i: usize = 0;
    while i < buf.len()
        invariant
            pre == old(data)@,
            pre.len() + buf@.len() <= usize::MAX,
            i <= buf@.len(),
            data@ == pre + buf@.take(i as int),
        decreases buf@.len() - i,
    {
        data.push(buf[i]);
        assert(buf@.take(i + 1 as int) =~= buf@.take(i as int).push(buf@[i as int]));
        i += 1;
    }
    assert(buf@.take(buf@.len() as int) =~= buf@);
}

/// An in-memory sink: every write succeeds and lands at the end of `data`.
pub struct VecSink {
    /// All bytes accepted so far.
    pub data: Vec<u8>,
    /// How many of `data`'s leading bytes the last flush covered.
    pub flushed_len: usize,
    /// Number of successful flushes.
    pub flushes: u64,
}

impl VecSink {
    pub fn new() -> (r: VecSink)
        ensures
            r.data@ == Seq::<u8>::empty(),
            r.flushed_len == 0,
            r.flushes == 0,
            r.bytes() == Seq::<u8>::empty(),
            r.flushed() == Seq::<u8>::empty(),
            r.flush_count() == 0,
    {
        VecSink { data: Vec::new(), flushed_len: 0, flushes: 0 }
    }
}

impl Sink for VecSink {
    open spec fn bytes(&self) -> Seq<u8> {
        self.data@
    }

    open spec fn flushed(&self) -> Seq<u8> {
        self.data@.take(self.flushed_len as int)
    }

    open spec fn flush_count(&self) -> nat {
        self.flushes as nat
    }

    /// Success is owed whenever the buffer fits and the flush mark is sane.
    open spec fn write_succeeds(&self, buf: Seq<u8>) -> bool {
        self.data@.len() + buf.len() <= usize::MAX && self.flushed_len <= self.data@.len()
    }

    /// Success is owed until the counter is exhausted.
    open spec fn flush_succeeds(&self) -> bool {
        self.flushes < u64::MAX
    }

    fn write(&mut self, buf: &[u8]) -> (r: Result<(), SinkError>)
    {
        if usize::MAX - self.data.len() < buf.len() || self.flushed_len > self.data.len() {
            // Out of address space, or a corrupt flush mark: refuse the write
            // so the flushed prefix stays meaningful.
            return Err(SinkError);
        }
        let ghost pre = self.data@;
        append_bytes(&mut self.data, buf);
        assert(self.data@.take(self.flushed_len as int) =~= pre.take(self.flushed_len as int));
        Ok(())
    }

    fn flush(&mut self) -> (r: Result<(), SinkError>)
    {
        if self.flushes == u64::MAX {
            // The success counter cannot grow further; report the flush failed.
            return Err(SinkError);
        }
        self.flushed_len = self.data.len();
        self.flushes = self.flushes + 1;
        assert(self.data@.take(self.data@.len() as int) =~= self.data@);
        Ok(())
    }
}

/// A sink over the process's standard output: what was handed to it is
/// carried as ghost history, the bytes themselves go to the terminal.
pub struct StdoutSink {
    /// All bytes handed to stdout so far.
    pub written: Ghost<Seq<u8>>,
    /// The prefix confirmed by a successful flush.
    pub confirmed: Ghost<Seq<u8>>,
    /// Number of successful flushes.
    pub count: Ghost<nat>,
}

impl StdoutSink {
    pub fn new() -> (r: StdoutSink)
        ensures
            r.bytes() == Seq::<u8>::empty(),
            r.flushed() == Seq::<u8>::empty(),
            r.flush_count() == 0,
    {
        StdoutSink {
            written: Ghost(Seq::empty()),
            confirmed: Ghost(Seq::empty()),
            count: Ghost(0),
        }
    }
}

/// Relies on std::io::Stdout::write_all: `true` exactly when the whole
/// buffer was handed to stdout.
#[verifier::external_body]
fn stdout_write_all(buf: &[u8]) -> bool {
    std::io::stdout().write_all(buf).is_ok()
}

/// Relies on std::io::Stdout::flush: `true` exactly when stdout's buffer
/// reached its destination.
#[verifier::external_body]
fn stdout_flush() -> bool {
    std::io::stdout().flush().is_ok()
}

impl Sink for StdoutSink {
    open spec fn bytes(&self) -> Seq<u8> {
        self.written@
    }

    open spec fn flushed(&self) -> Seq<u8> {
        self.confirmed@
    }

    open spec fn flush_count(&self) -> nat {
        self.count@
    }

    /// Real I/O owes success nowhere: stdout may refuse any write.
    open spec fn write_succeeds(&self, buf: Seq<u8>) -> bool {
        false
    }

    /// As with writes: a flush of stdout may always fail.
    open spec fn flush_succeeds(&self) -> bool {
        false
    }

    fn write(&mut self, buf: &[u8]) -> (r: Result<(), SinkError>) {
        if stdout_write_all(buf) {
            self.written = Ghost(self.written@ + buf@);
            Ok(())
        } else {
            Err(SinkError)
        }
    }

    fn flush(&mut self) -> (r: Result<(), SinkError>) {
        if stdout_flush() {
            self.confirmed = Ghost(self.written@);
            self.count = Ghost(self.count@ + 1);
            Ok(())
        } else {
            Err(SinkError)
        }
    }
}

/// A sink that fails scripted write calls: `fail_plan[i]` decides whether the
/// `i`-th write call is refused (calls past the plan succeed). Flushes always
/// succeed. It exists to exercise the worker's fault handling.
pub struct FlakySink {
    /// All bytes accepted so far.
    pub data: Vec<u8>,
    /// How many of `data`'s leading bytes the last flush covered.
    pub flushed_len: usize,
    /// Number of successful flushes.
    pub flushes: u64,
    /// Scripted outcomes: `true` at position `i` makes the `i`-th write fail.
    pub fail_plan: Vec<bool>,
    /// Index of the next write call into `fail_plan`.
    pub write_calls: usize,
}

impl FlakySink {
    pub fn new(fail_plan: Vec<bool>) -> (r: FlakySink)
        ensures
            r.data@ == Seq::<u8>::empty(),
            r.flushed_len == 0,
            r.flushes == 0,
            r.bytes() == Seq::<u8>::empty(),
            r.flushed() == Seq::<u8>::empty(),
            r.flush_count() == 0,
            r.fail_plan == fail_plan,
            r.write_calls == 0,
    {
        FlakySink { data: Vec::new(), flushed_len: 0, flushes: 0, fail_plan, write_calls: 0 }
    }
}

impl Sink for FlakySink {
    open spec fn bytes(&self) -> Seq<u8> {
        self.data@
    }

    open spec fn flushed(&self) -> Seq<u8> {
        self.data@.take(self.flushed_len as int)
    }

    open spec fn flush_count(&self) -> nat {
        self.flushes as nat
    }

    /// Success is owed unless this write call is scripted to fail, the
    /// buffer does not fit, or the flush mark is off.
    open spec fn write_succeeds(&self, buf: Seq<u8>) -> bool {
        &&& !(self.write_calls < self.fail_plan@.len() && self.fail_plan@[self.write_calls as int])
        &&& self.data@.len() + buf.len() <= usize::MAX
        &&& self.flushed_len <= self.data@.len()
    }

    /// Success is owed until the counter is exhausted.
    open spec fn flush_succeeds(&self) -> bool {
        self.flushes < u64::MAX
    }

    fn write(&mut self, buf: &[u8]) -> (r: Result<(), SinkError>)
    {
        let scripted_failure: bool = self.write_calls < self.fail_plan.len()
            && self.fail_plan[self.write_calls];
        if self.write_calls < usize::MAX {
            self.write_calls = self.write_calls + 1;
        }
        if scripted_failure
            || usize::MAX - self.data.len() < buf.len()
            || self.flushed_len > self.data.len() {
            return Err(SinkError);
        }
        let ghost pre = self.data@;
        append_bytes(&mut self.data, buf);
        assert(self.data@.take(self.flushed_len as int) =~= pre.take(self.flushed_len as int));
        Ok(())
    }

    fn flush(&mut self) -> (r: Result<(), SinkError>)
    {
        if self.flushes == u64::MAX {
            return Err(SinkError);
        }
        self.flushed_len = self.data.len();
        self.flushes = self.flushes + 1;
        assert(self.data@.take(self.data@.len() as int) =~= self.data@);
        Ok(())
    }
}

} // verus!
