//! The unit of work handed from producers to the worker, and the states of
//! the worker's drain loop.

use vstd::prelude::*;

verus! {

/// A message carried by the worker's channel: either one pre-formatted log
/// record (opaque bytes) or the request to shut the worker down.
pub enum Message {
    Record(Vec<u8>),
    Shutdown,
}

/// Mathematical view of a [`Message`]: the record payload as a byte sequence.
pub enum MessageView {
    Record(Seq<u8>),
    Shutdown,
}

impl View for Message {
    type V = MessageView;

    open spec fn view(&self) -> MessageView {
        match self {
            Message::Record(bytes) => MessageView::Record(bytes@),
            Message::Shutdown => MessageView::Shutdown,
        }
    }
}

/// State of the drain loop after handling one channel event.
#[derive(Debug, Clone, Copy, PartialEq, Eq, Structural)]
pub enum WorkerState {
    /// The channel reported no pending message; go back to blocking.
    Empty,
    /// Every producer handle is gone; the worker must terminate.
    Disconnected,
    /// A record was written; keep polling for a backlog.
    Continue,
    /// A shutdown message arrived; the worker must terminate.
    Shutdown,
}

/// A terminal state ends the worker thread; the two others re-enter the loop.
pub open spec fn is_terminal(s: WorkerState) -> bool {
    s == WorkerState::Shutdown || s == WorkerState::Disconnected
}

/// The thread driver keeps looping exactly when the drain cycle ended in a
/// non-terminal state.
pub fn keep_looping(s: &WorkerState) -> (r: bool)
    ensures
        r == !is_terminal(*s),
{
    match s {
        WorkerState::Shutdown => false,
        WorkerState::Disconnected => false,
        WorkerState::Empty => true,
        WorkerState::Continue => true,
    }
}

} // verus!
