//! The producer side of the worker: a cloneable handle that enqueues
//! records, requests shutdown, and awaits the shutdown acknowledgement.

use vstd::prelude::*;

use crate::channel::new_message_channel;
use crate::channel::new_rendezvous_channel;
use crate::channel::send_message;
use crate::channel::send_signal;
use crate::message::Message;
use crate::sink::Sink;
use crate::worker::Worker;

verus! {

/// What the owning append target holds: the sender end of the message
/// channel and the initiator end of the shutdown rendezvous. Cloning it
/// gives another producer the same worker.
#[derive(Clone)]
pub struct Handle {
    pub sender: crossbeam_channel::Sender<Message>,
    pub ack: crossbeam_channel::Sender<()>,
}

impl Handle {
    /// Enqueues one record without ever blocking the caller. Best-effort:
    /// `false` means the worker is already gone and the record was dropped,
    /// acceptable only during a shutdown race.
    pub fn send_record(&self, record: Vec<u8>) -> (delivered: bool) {
        send_message(&self.sender, Message::Record(record))
    }

    /// Enqueues the shutdown request behind every record sent so far, so
    /// the worker drains them all before it stops consuming.
    pub fn send_shutdown(&self) -> (delivered: bool) {
        send_message(&self.sender, Message::Shutdown)
    }

    /// Blocks until the worker meets the shutdown rendezvous, i.e. until it
    /// has stopped consuming; only then may the owner join the thread.
    /// `false` means the worker is already gone.
    pub fn await_shutdown_ack(&self) -> (met: bool) {
        send_signal(&self.ack)
    }
}

/// Builds the two channels and marries the sink to its worker. The caller
/// keeps the [`Handle`] and gives the [`Worker`] to a dedicated thread.
pub fn construct<S: Sink>(sink: S) -> (r: (Handle, Worker<S>))
    ensures
        r.1.sink == sink,
{
    let (sender, receiver) = new_message_channel();
    let (ack, shutdown) = new_rendezvous_channel();
    (Handle { sender, ack }, Worker::new(sink, receiver, shutdown))
}

} // verus!
