//! The worker that owns the sink and drains the live message channel.
//!
//! Each cycle takes one blocking receive, polls the backlog without
//! blocking, and flushes exactly once when the polling stops. What a live
//! receive hands back depends on the producers, so the contracts here state
//! what holds of every outcome; the exact per-cycle semantics against a
//! known delivery sequence is [`crate::drain::work_on`].
//!
//! Verified loops must terminate, so the two open-ended waits — polling a
//! channel that producers may keep filling, and cycling until a termination
//! trigger arrives — take an explicit budget; the thread driver re-enters
//! them until the worker reports that it is done.

use std::io::Write;

use vstd::prelude::*;

use crate::channel::recv_message;
use crate::channel::recv_signal;
use crate::channel::try_recv_message;
use crate::channel::RecvOutcome;
use crate::drain::handle_message;
use crate::drain::lemma_prefix_of_extension;
use crate::drain::lemma_prefix_refl;
use crate::drain::lemma_prefix_trans;
use crate::drain::payload_of;
use crate::drain::state_of;
use crate::message::keep_looping;
use crate::message::Message;
use crate::message::WorkerState;
use crate::sink::Sink;
use crate::sink::SinkError;

verus! {

/// The state one receive outcome puts the drain loop in.
pub open spec fn outcome_state(o: RecvOutcome) -> WorkerState {
    match o {
        RecvOutcome::Msg(m) => state_of(m@),
        RecvOutcome::NoMessage => WorkerState::Empty,
        RecvOutcome::Closed => WorkerState::Disconnected,
    }
}

/// The bytes one receive outcome sends to the sink.
pub open spec fn outcome_payload(o: RecvOutcome) -> Seq<u8> {
    match o {
        RecvOutcome::Msg(m) => payload_of(m@),
        RecvOutcome::NoMessage => Seq::empty(),
        RecvOutcome::Closed => Seq::empty(),
    }
}

/// Absorbs one receive outcome: a record goes to the sink, everything else
/// only picks the next state. A failed write leaves the sink untouched.
pub fn handle_outcome<S: Sink>(sink: &mut S, outcome: &RecvOutcome) -> (r: Result<
    WorkerState,
    SinkError,
>)
    ensures
        final(sink).flushed() == old(sink).flushed(),
        final(sink).flush_count() == old(sink).flush_count(),
        r matches Ok(s) ==> s == outcome_state(*outcome) && final(sink).bytes() == old(
            sink,
        ).bytes() + outcome_payload(*outcome),
        r is Err ==> ((*outcome) matches RecvOutcome::Msg(m) && m@ is Record),
        r is Err ==> final(sink).bytes() == old(sink).bytes(),
{
    match outcome {
        RecvOutcome::Msg(msg) => handle_message(sink, msg),
        RecvOutcome::NoMessage => {
            proof {
                crate::drain::lemma_append_empty(sink.bytes());
            }
            Ok(WorkerState::Empty)
        },
        RecvOutcome::Closed => {
            proof {
                crate::drain::lemma_append_empty(sink.bytes());
            }
            Ok(WorkerState::Disconnected)
        },
    }
}

/// Relies on std::io::Stderr::write_fmt (through writeln): best-effort
/// diagnostic line; the record at fault is dropped, never retried.
#[verifier::external_body]
fn report_sink_error(context: &str) {
    let _ = writeln!(std::io::stderr(), "{context}");
}

/// The worker: exclusive owner of the sink, consumer end of the message
/// channel, and receiver end of the shutdown rendezvous.
pub struct Worker<S: Sink> {
    pub sink: S,
    pub receiver: crossbeam_channel::Receiver<Message>,
    pub shutdown: crossbeam_channel::Receiver<()>,
}

impl<S: Sink> Worker<S> {
    pub fn new(
        sink: S,
        receiver: crossbeam_channel::Receiver<Message>,
        shutdown: crossbeam_channel::Receiver<()>,
    ) -> (w: Worker<S>)
        ensures
            w.sink == sink,
            w.receiver == receiver,
            w.shutdown == shutdown,
    {
        Worker { sink, receiver, shutdown }
    }

    /// One blocking receive: suspends until a message or disconnection, so
    /// it never reports an empty queue. Whatever arrived, at most one
    /// record's payload is appended, whole; nothing is flushed.
    pub fn recv(&mut self) -> (r: Result<WorkerState, SinkError>)
        ensures
            final(self).receiver == old(self).receiver,
            final(self).shutdown == old(self).shutdown,
            final(self).sink.flushed() == old(self).sink.flushed(),
            final(self).sink.flush_count() == old(self).sink.flush_count(),
            old(self).sink.bytes().is_prefix_of(final(self).sink.bytes()),
            r matches Ok(s) ==> !(s is Empty),
            r matches Ok(s) && !(s is Continue) ==> final(self).sink.bytes() == old(
                self,
            ).sink.bytes(),
            r is Err ==> final(self).sink.bytes() == old(self).sink.bytes(),
    {
        let outcome = recv_message(&self.receiver);
        let r = handle_outcome(&mut self.sink, &outcome);
        proof {
            lemma_prefix_refl(old(self).sink.bytes());
            lemma_prefix_of_extension(old(self).sink.bytes(), outcome_payload(outcome));
            crate::drain::lemma_append_empty(old(self).sink.bytes());
        }
        r
    }

    /// One non-blocking poll: like [`Worker::recv`], but an empty queue is
    /// reported as `Empty` instead of suspending.
    pub fn try_recv(&mut self) -> (r: Result<WorkerState, SinkError>)
        ensures
            final(self).receiver == old(self).receiver,
            final(self).shutdown == old(self).shutdown,
            final(self).sink.flushed() == old(self).sink.flushed(),
            final(self).sink.flush_count() == old(self).sink.flush_count(),
            old(self).sink.bytes().is_prefix_of(final(self).sink.bytes()),
            r matches Ok(s) && !(s is Continue) ==> final(self).sink.bytes() == old(
                self,
            ).sink.bytes(),
            r is Err ==> final(self).sink.bytes() == old(self).sink.bytes(),
    {
        let outcome = try_recv_message(&self.receiver);
        let r = handle_outcome(&mut self.sink, &outcome);
        proof {
            lemma_prefix_refl(old(self).sink.bytes());
            lemma_prefix_of_extension(old(self).sink.bytes(), outcome_payload(outcome));
            crate::drain::lemma_append_empty(old(self).sink.bytes());
        }
        r
    }

    /// One drain cycle on the live channel: one blocking receive, then at
    /// most `poll_budget` non-blocking polls while records keep coming,
    /// then exactly one flush covering everything this cycle wrote.
    ///
    /// On success the cycle's writes are flushed and the state is the one
    /// the channel reported (`Continue` only when the poll budget ran out
    /// mid-burst; the driver then re-enters at the blocking receive). On a
    /// sink error the cycle stops at the failing call: the record at fault
    /// is dropped whole and no flush has happened.
    pub fn work(&mut self, poll_budget: usize) -> (r: Result<WorkerState, SinkError>)
        ensures
            final(self).receiver == old(self).receiver,
            final(self).shutdown == old(self).shutdown,
            old(self).sink.bytes().is_prefix_of(final(self).sink.bytes()),
            r is Ok ==> final(self).sink.flush_count() == old(self).sink.flush_count() + 1
                && final(self).sink.flushed() == final(self).sink.bytes(),
            r is Err ==> final(self).sink.flush_count() == old(self).sink.flush_count()
                && final(self).sink.flushed() == old(self).sink.flushed(),
    {
        let mut state: WorkerState;
        match self.recv() {
            Ok(s) => {
                state = s;
            },
            Err(e) => {
                return Err(e);
            },
        }
        let mut polls_left: usize = poll_budget;
        while state == WorkerState::Continue && polls_left > 0
            invariant
                self.receiver == old(self).receiver,
                self.shutdown == old(self).shutdown,
                self.sink.flushed() == old(self).sink.flushed(),
                self.sink.flush_count() == old(self).sink.flush_count(),
                old(self).sink.bytes().is_prefix_of(self.sink.bytes()),
            decreases polls_left,
        {
            let ghost mid = self.sink.bytes();
            match self.try_recv() {
                Ok(s) => {
                    state = s;
                },
                Err(e) => {
                    proof {
                        lemma_prefix_trans(old(self).sink.bytes(), mid, self.sink.bytes());
                    }
                    return Err(e);
                },
            }
            proof {
                lemma_prefix_trans(old(self).sink.bytes(), mid, self.sink.bytes());
            }
            polls_left -= 1;
        }
        match self.sink.flush() {
            Ok(_) => Ok(state),
            Err(e) => Err(e),
        }
    }

    /// Drives drain cycles until a termination trigger — a shutdown message
    /// or a fully disconnected channel — or until `max_cycles` cycles have
    /// run. A sink error is reported and the loop re-entered, so one
    /// failure never halts the worker. On a trigger the worker meets the
    /// shutdown rendezvous, flushes one final time and reports `true`: from
    /// that point everything it ever wrote is flushed and it never touches
    /// the sink again. `false` means the budget ran out first and the
    /// driver must call again.
    pub fn run(&mut self, max_cycles: u64) -> (finished: bool)
        ensures
            final(self).receiver == old(self).receiver,
            final(self).shutdown == old(self).shutdown,
            old(self).sink.bytes().is_prefix_of(final(self).sink.bytes()),
            finished ==> final(self).sink.flushed() == final(self).sink.bytes(),
    {
        let mut cycles_left: u64 = max_cycles;
        let mut finished: bool = false;
        while !finished && cycles_left > 0
            invariant
                self.receiver == old(self).receiver,
                self.shutdown == old(self).shutdown,
                old(self).sink.bytes().is_prefix_of(self.sink.bytes()),
                finished ==> self.sink.flushed() == self.sink.bytes(),
            decreases cycles_left,
        {
            let ghost mid = self.sink.bytes();
            match self.work(usize::MAX) {
                Ok(s) => {
                    if !keep_looping(&s) {
                        let _ = recv_signal(&self.shutdown);
                        finished = true;
                    }
                },
                Err(_) => {
                    report_sink_error("failed to write log");
                },
            }
            proof {
                lemma_prefix_trans(old(self).sink.bytes(), mid, self.sink.bytes());
            }
            cycles_left -= 1;
        }
        if finished {
            match self.sink.flush() {
                Ok(_) => {},
                Err(_) => {
                    report_sink_error("failed to flush");
                },
            }
        }
        finished
    }
}

} // verus!
