//! The drain cycle's semantics: what one cycle of the worker writes and in
//! which state it ends, stated against an explicit delivery sequence.
//!
//! The channel hands the worker its messages one by one; which messages
//! those are is decided by the producers and the channel's FIFO arbitration.
//! [`work_on`] runs one full drain cycle against a given delivery sequence
//! and pins down the resulting sink content exactly; the worker's own loop
//! in [`crate::worker`] runs the same steps against the live channel.

use vstd::prelude::*;

use crate::message::Message;
use crate::message::MessageView;
use crate::message::WorkerState;
use crate::sink::Sink;
use crate::sink::SinkError;

verus! {

/// The bytes a message contributes to the sink: a record's payload, nothing
/// for a shutdown request.
pub open spec fn payload_of(m: MessageView) -> Seq<u8> {
    match m {
        MessageView::Record(bytes) => bytes,
        MessageView::Shutdown => Seq::empty(),
    }
}

/// The drain state one message puts the worker in.
pub open spec fn state_of(m: MessageView) -> WorkerState {
    match m {
        MessageView::Record(_) => WorkerState::Continue,
        MessageView::Shutdown => WorkerState::Shutdown,
    }
}

/// The views of a sequence of messages.
pub open spec fn views(msgs: Seq<Message>) -> Seq<MessageView> {
    msgs.map_values(|m: Message| m@)
}

/// Concatenation of the payloads of the first `n` messages, in order.
pub open spec fn concat_records(msgs: Seq<MessageView>, n: int) -> Seq<u8>
    decreases n,
{
    if n <= 0 {
        Seq::empty()
    } else {
        concat_records(msgs, n - 1) + payload_of(msgs[n - 1])
    }
}

/// No shutdown request among the first `n` messages.
pub open spec fn no_shutdown_before(msgs: Seq<MessageView>, n: int) -> bool {
    forall|j: int| 0 <= j < n ==> !(msgs[j] is Shutdown)
}

/// Index of the first shutdown request, or the length when there is none:
/// the worker consumes exactly the messages before it, plus the request.
pub open spec fn stop_index(msgs: Seq<MessageView>) -> int
    decreases msgs.len(),
{
    if msgs.len() == 0 {
        0
    } else if msgs.first() is Shutdown {
        0
    } else {
        1 + stop_index(msgs.drop_first())
    }
}

/// Everything one drain cycle writes: the payloads of the messages before
/// the first shutdown request, concatenated in delivery order.
pub open spec fn drained_bytes(msgs: Seq<MessageView>) -> Seq<u8> {
    concat_records(msgs, stop_index(msgs))
}

/// The state one drain cycle ends in, given whether the producers are gone
/// once the delivery sequence is exhausted.
pub open spec fn drain_state(msgs: Seq<MessageView>, disconnected: bool) -> WorkerState {
    if stop_index(msgs) < msgs.len() {
        WorkerState::Shutdown
    } else if disconnected {
        WorkerState::Disconnected
    } else {
        WorkerState::Empty
    }
}

/// `stop_index` lands in bounds, sees no shutdown before itself, and a
/// shutdown at itself unless there is none.
pub proof fn lemma_stop_index_bounds(msgs: Seq<MessageView>)
    ensures
        0 <= stop_index(msgs) <= msgs.len(),
        no_shutdown_before(msgs, stop_index(msgs)),
        stop_index(msgs) < msgs.len() ==> msgs[stop_index(msgs)] is Shutdown,
    decreases msgs.len(),
{
    if msgs.len() == 0 {
    } else if msgs.first() is Shutdown {
    } else {
        lemma_stop_index_bounds(msgs.drop_first());
        let rest = msgs.drop_first();
        assert forall|j: int| 0 <= j < stop_index(msgs) implies !(msgs[j] is Shutdown) by {
            if j > 0 {
                assert(rest[j - 1] == msgs[j]);
            }
        }
        if stop_index(msgs) < msgs.len() {
            assert(rest[stop_index(msgs) - 1] == msgs[stop_index(msgs)]);
        }
    }
}

/// The first shutdown request is where the first `i` messages stop being
/// shutdown-free: `stop_index` is pinned down by that shape.
pub proof fn lemma_stop_index_at(msgs: Seq<MessageView>, i: int)
    requires
        0 <= i <= msgs.len(),
        no_shutdown_before(msgs, i),
        i < msgs.len() ==> msgs[i] is Shutdown,
    ensures
        stop_index(msgs) == i,
{
    lemma_stop_index_bounds(msgs);
    let s = stop_index(msgs);
    if s < i {
        assert(msgs[s] is Shutdown);
        assert(!(msgs[s] is Shutdown));
    } else if i < s {
        assert(!(msgs[i] is Shutdown));
    }
}

/// A sequence is a prefix of itself.
pub proof fn lemma_prefix_refl(a: Seq<u8>)
    ensures
        a.is_prefix_of(a),
{
    assert(a =~= a.subrange(0, a.len() as int));
}

/// A sequence is a prefix of itself extended by anything.
pub proof fn lemma_prefix_of_extension(a: Seq<u8>, b: Seq<u8>)
    ensures
        a.is_prefix_of(a + b),
{
    assert(a =~= (a + b).subrange(0, a.len() as int));
}

/// Prefixes chain: a prefix of a prefix is a prefix.
pub proof fn lemma_prefix_trans(a: Seq<u8>, b: Seq<u8>, c: Seq<u8>)
    requires
        a.is_prefix_of(b),
        b.is_prefix_of(c),
    ensures
        a.is_prefix_of(c),
{
    assert(a =~= c.subrange(0, a.len() as int));
}

/// Appending nothing changes nothing.
pub proof fn lemma_append_empty(a: Seq<u8>)
    ensures
        a + Seq::<u8>::empty() == a,
{
    assert(a + Seq::<u8>::empty() =~= a);
}

/// Writes one record to the sink, whole or not at all.
pub fn write_record<S: Sink>(sink: &mut S, record: &Vec<u8>) -> (r: Result<(), SinkError>)
    ensures
        final(sink).flushed() == old(sink).flushed(),
        final(sink).flush_count() == old(sink).flush_count(),
        r is Ok ==> final(sink).bytes() == old(sink).bytes() + record@,
        r is Err ==> final(sink).bytes() == old(sink).bytes(),
{
    sink.write(record.as_slice())
}

/// One drain step: a record goes to the sink and the loop keeps polling; a
/// shutdown request writes nothing and ends the cycle. A failed write drops
/// the record whole and leaves the sink exactly as it was.
pub fn handle_message<S: Sink>(sink: &mut S, msg: &Message) -> (r: Result<
    WorkerState,
    SinkError,
>)
    ensures
        final(sink).flushed() == old(sink).flushed(),
        final(sink).flush_count() == old(sink).flush_count(),
        r matches Ok(s) ==> s == state_of(msg@) && final(sink).bytes() == old(sink).bytes()
            + payload_of(msg@),
        r is Err ==> msg@ is Record && final(sink).bytes() == old(sink).bytes(),
{
    match msg {
        Message::Record(record) => {
            match write_record(sink, record) {
                Ok(_) => Ok(WorkerState::Continue),
                Err(e) => Err(e),
            }
        },
        Message::Shutdown => {
            proof {
                lemma_append_empty(sink.bytes());
            }
            Ok(WorkerState::Shutdown)
        },
    }
}

/// One full drain cycle against the delivery sequence `msgs`: handle
/// messages while they keep the state at `Continue`, report `disconnected`
/// or an empty queue once they run out, then flush exactly once.
///
/// On success the sink has accepted exactly the payloads delivered before
/// the first shutdown request, in delivery order, all of it flushed; this is
/// the ordering guarantee for a single producer, whose records arrive here
/// in its enqueue order. On a sink error the cycle stops early: the flush
/// has not happened and every record accepted so far is intact.
pub fn work_on<S: Sink>(sink: &mut S, msgs: &Vec<Message>, disconnected: bool) -> (r: Result<
    WorkerState,
    SinkError,
>)
    requires
        msgs@.len() > 0 || disconnected,
    ensures
        r matches Ok(s) ==> {
            &&& final(sink).bytes() == old(sink).bytes() + drained_bytes(views(msgs@))
            &&& final(sink).flushed() == final(sink).bytes()
            &&& final(sink).flush_count() == old(sink).flush_count() + 1
            &&& s == drain_state(views(msgs@), disconnected)
            &&& !(s is Continue)
        },
        r is Err ==> final(sink).flush_count() == old(sink).flush_count()
            && final(sink).flushed() == old(sink).flushed()
            && old(sink).bytes().is_prefix_of(final(sink).bytes()),
{
    let ghost mv = views(msgs@);
    let ghost bytes0 = sink.bytes();
    let ghost flushed0 = sink.flushed();
    let ghost count0 = sink.flush_count();
    let mut i: usize = 0;
    let mut state: WorkerState;
    if msgs.len() == 0 {
        state = WorkerState::Disconnected;
        proof {
            lemma_append_empty(bytes0);
        }
    } else {
        match handle_message(sink, &msgs[0]) {
            Ok(s) => {
                state = s;
                i = 1;
                proof {
                    assert(mv[0] == msgs@[0]@);
                    assert(concat_records(mv, 1) == concat_records(mv, 0) + payload_of(mv[0]));
                    assert(Seq::<u8>::empty() + payload_of(mv[0]) =~= payload_of(mv[0]));
                }
            },
            Err(e) => {
                proof {
                    lemma_prefix_refl(bytes0);
                }
                return Err(e);
            },
        }
    }
    while state == WorkerState::Continue
        invariant
            mv == views(msgs@),
            mv.len() == msgs@.len(),
            i <= mv.len(),
            bytes0 == old(sink).bytes(),
            flushed0 == old(sink).flushed(),
            count0 == old(sink).flush_count(),
            sink.flushed() == flushed0,
            sink.flush_count() == count0,
            sink.bytes() == bytes0 + concat_records(mv, i as int),
            state is Continue ==> no_shutdown_before(mv, i as int),
            state is Shutdown ==> 1 <= i && no_shutdown_before(mv, i - 1) && mv[i - 1]
                is Shutdown,
            state is Empty ==> i == mv.len() && no_shutdown_before(mv, i as int)
                && !disconnected,
            state is Disconnected ==> i == mv.len() && no_shutdown_before(mv, i as int)
                && disconnected,
        decreases mv.len() - i + (if state is Continue { 1int } else { 0int }),
    {
        if i < msgs.len() {
            match handle_message(sink, &msgs[i]) {
                Ok(s) => {
                    proof {
                        assert(mv[i as int] == msgs@[i as int]@);
                    }
                    state = s;
                    i += 1;
                },
                Err(e) => {
                    proof {
                        lemma_prefix_of_extension(bytes0, concat_records(mv, i as int));
                    }
                    return Err(e);
                },
            }
        } else {
            state = if disconnected {
                WorkerState::Disconnected
            } else {
                WorkerState::Empty
            };
        }
    }
    proof {
        if state is Shutdown {
            lemma_stop_index_at(mv, i - 1);
            assert(concat_records(mv, i as int) == concat_records(mv, i - 1) + payload_of(
                mv[i - 1],
            ));
            lemma_append_empty(concat_records(mv, i - 1));
        } else {
            lemma_stop_index_at(mv, i as int);
        }
        lemma_prefix_of_extension(bytes0, concat_records(mv, i as int));
    }
    match sink.flush() {
        Ok(_) => Ok(state),
        Err(e) => Err(e),
    }
}

} // verus!
