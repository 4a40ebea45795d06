//! The two channels the worker lives on, from `crossbeam_channel`: an
//! unbounded FIFO queue carrying [`Message`]s from many producers to the one
//! worker, and a zero-capacity rendezvous channel carrying the shutdown
//! acknowledgement.
//!
//! What a receive returns depends on what other threads have sent and on
//! timing, so nothing here promises which message arrives; the contracts
//! only rule out the outcomes the crossbeam source rules out, and the
//! verified drain logic states what happens for every outcome it can see.

use vstd::prelude::*;

use crate::message::Message;

verus! {

/// Declares crossbeam_channel::Sender so it can stand in fields and
/// signatures; the value itself stays opaque to the verifier.
#[verifier::external_type_specification]
#[verifier::external_body]
#[verifier::reject_recursive_types(T)]
pub struct ExSender<T>(crossbeam_channel::Sender<T>);

/// Declares crossbeam_channel::Receiver, as with the sender.
#[verifier::external_type_specification]
#[verifier::external_body]
#[verifier::reject_recursive_types(T)]
pub struct ExReceiver<T>(crossbeam_channel::Receiver<T>);

/// What one receive attempt on the message channel reported.
pub enum RecvOutcome {
    /// A message was dequeued.
    Msg(Message),
    /// The queue held nothing, but senders still exist.
    NoMessage,
    /// The queue held nothing and every sender is gone.
    Closed,
}

/// Relies on crossbeam_channel::Sender::clone: another sender for the same
/// channel, so a cloned handle feeds the same worker.
pub assume_specification<T>[ <crossbeam_channel::Sender<T> as core::clone::Clone>::clone ](
    sender: &crossbeam_channel::Sender<T>,
) -> crossbeam_channel::Sender<T>;

/// Relies on crossbeam_channel::unbounded: an unlimited-capacity FIFO queue
/// on which send never blocks.
#[verifier::external_body]
pub(crate) fn new_message_channel() -> (crossbeam_channel::Sender<Message>, crossbeam_channel::Receiver<
    Message,
>) {
    crossbeam_channel::unbounded()
}

/// Relies on crossbeam_channel::bounded with capacity zero: a rendezvous
/// channel on which send blocks until a receive meets it.
#[verifier::external_body]
pub(crate) fn new_rendezvous_channel() -> (crossbeam_channel::Sender<()>, crossbeam_channel::Receiver<
    (),
>) {
    crossbeam_channel::bounded(0)
}

/// Relies on crossbeam_channel::Sender::send on the unbounded queue: it never
/// blocks and fails exactly when the receiver is gone; the message is then
/// dropped, which is this library's best-effort contract.
#[verifier::external_body]
pub(crate) fn send_message(sender: &crossbeam_channel::Sender<Message>, msg: Message) -> (delivered:
    bool) {
    sender.send(msg).is_ok()
}

/// Relies on crossbeam_channel::Receiver::recv: it blocks until a message or
/// disconnection, so it never reports an empty queue.
#[verifier::external_body]
pub(crate) fn recv_message(receiver: &crossbeam_channel::Receiver<Message>) -> (r: RecvOutcome)
    ensures
        !(r is NoMessage),
{
    match receiver.recv() {
        Ok(msg) => RecvOutcome::Msg(msg),
        Err(crossbeam_channel::RecvError) => RecvOutcome::Closed,
    }
}

/// Relies on crossbeam_channel::Receiver::try_recv: it never blocks and
/// tells an empty queue apart from a disconnected one.
#[verifier::external_body]
pub(crate) fn try_recv_message(receiver: &crossbeam_channel::Receiver<Message>) -> (r: RecvOutcome) {
    match receiver.try_recv() {
        Ok(msg) => RecvOutcome::Msg(msg),
        Err(crossbeam_channel::TryRecvError::Empty) => RecvOutcome::NoMessage,
        Err(crossbeam_channel::TryRecvError::Disconnected) => RecvOutcome::Closed,
    }
}

/// Relies on crossbeam_channel::Sender::send on the rendezvous channel: it
/// returns once a receive met it (true) or the receiver is gone (false).
#[verifier::external_body]
pub(crate) fn send_signal(sender: &crossbeam_channel::Sender<()>) -> (met: bool) {
    sender.send(()).is_ok()
}

/// Relies on crossbeam_channel::Receiver::recv on the rendezvous channel: it
/// blocks until a sender's send met it (true) or every sender is gone (false).
#[verifier::external_body]
pub(crate) fn recv_signal(receiver: &crossbeam_channel::Receiver<()>) -> (met: bool) {
    receiver.recv().is_ok()
}

} // verus!
