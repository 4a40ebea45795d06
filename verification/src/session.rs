//! A whole worker session against an explicit schedule of bursts: each
//! burst is the backlog one drain cycle finds, so a session's flush cost is
//! one flush per burst plus the terminal flush — it grows with the number
//! of bursts, never with the number of records.

use vstd::prelude::*;

use crate::drain::drained_bytes;
use crate::drain::lemma_append_empty;
use crate::drain::lemma_prefix_refl;
use crate::drain::lemma_prefix_trans;
use crate::drain::stop_index;
use crate::drain::views;
use crate::drain::work_on;
use crate::message::keep_looping;
use crate::message::Message;
use crate::message::WorkerState;
use crate::sink::Sink;
use crate::sink::SinkError;

verus! {

/// The burst holds a shutdown request, so its cycle ends the session.
pub open spec fn has_shutdown(msgs: Seq<crate::message::MessageView>) -> bool {
    stop_index(msgs) < msgs.len()
}

/// The views of a schedule of bursts.
pub open spec fn burst_views(bursts: Seq<Vec<Message>>) -> Seq<Seq<crate::message::MessageView>> {
    bursts.map_values(|b: Vec<Message>| views(b@))
}

/// Index of the first burst that holds a shutdown request, or the length
/// when none does.
pub open spec fn stop_burst(bs: Seq<Seq<crate::message::MessageView>>) -> int
    decreases bs.len(),
{
    if bs.len() == 0 {
        0
    } else if has_shutdown(bs.first()) {
        0
    } else {
        1 + stop_burst(bs.drop_first())
    }
}

/// Everything the first `n` bursts drain, in order.
pub open spec fn session_bytes(bs: Seq<Seq<crate::message::MessageView>>, n: int) -> Seq<u8>
    decreases n,
{
    if n <= 0 {
        Seq::empty()
    } else {
        session_bytes(bs, n - 1) + drained_bytes(bs[n - 1])
    }
}

/// How many drain cycles a session runs: one per burst up to and including
/// the shutdown burst, or one per burst plus the disconnection cycle.
pub open spec fn session_cycles(bs: Seq<Seq<crate::message::MessageView>>, disconnected: bool) -> int {
    if stop_burst(bs) < bs.len() {
        stop_burst(bs) + 1
    } else if disconnected {
        bs.len() + 1int
    } else {
        bs.len() as int
    }
}

/// Everything a session writes: the bursts before the shutdown burst in
/// full, the shutdown burst up to its request, nothing after.
pub open spec fn session_drained(bs: Seq<Seq<crate::message::MessageView>>) -> Seq<u8> {
    if stop_burst(bs) < bs.len() {
        session_bytes(bs, stop_burst(bs) + 1)
    } else {
        session_bytes(bs, bs.len() as int)
    }
}

pub proof fn lemma_stop_burst_bounds(bs: Seq<Seq<crate::message::MessageView>>)
    ensures
        0 <= stop_burst(bs) <= bs.len(),
        forall|j: int| 0 <= j < stop_burst(bs) ==> !has_shutdown(bs[j]),
        stop_burst(bs) < bs.len() ==> has_shutdown(bs[stop_burst(bs)]),
    decreases bs.len(),
{
    if bs.len() == 0 {
    } else if has_shutdown(bs.first()) {
    } else {
        lemma_stop_burst_bounds(bs.drop_first());
        let rest = bs.drop_first();
        assert forall|j: int| 0 <= j < stop_burst(bs) implies !has_shutdown(bs[j]) by {
            if j > 0 {
                assert(rest[j - 1] == bs[j]);
            }
        }
        if stop_burst(bs) < bs.len() {
            assert(rest[stop_burst(bs) - 1] == bs[stop_burst(bs)]);
        }
    }
}

/// `stop_burst` is pinned down by where the shutdown-free prefix ends.
pub proof fn lemma_stop_burst_at(bs: Seq<Seq<crate::message::MessageView>>, i: int)
    requires
        0 <= i <= bs.len(),
        forall|j: int| 0 <= j < i ==> !has_shutdown(bs[j]),
        i < bs.len() ==> has_shutdown(bs[i]),
    ensures
        stop_burst(bs) == i,
{
    lemma_stop_burst_bounds(bs);
    let s = stop_burst(bs);
    if s < i {
        assert(has_shutdown(bs[s]));
        assert(!has_shutdown(bs[s]));
    } else if i < s {
        assert(!has_shutdown(bs[i]));
    }
}

/// A whole session: one drain cycle per burst until a cycle ends terminal —
/// a burst with a shutdown request, or the disconnection cycle after the
/// last burst — then the terminal flush.
///
/// Each burst is non-empty, since a cycle begins with a blocking receive
/// that only an actual message or a disconnection ends, and the session has
/// a termination trigger: a shutdown request or a disconnection.
///
/// On success the sink holds exactly the session's records in schedule
/// order, everything is flushed, and the flushes number one per cycle plus
/// the terminal one. On a sink error the session stops at the failing
/// cycle; what the sink had accepted is intact.
pub fn run_session<S: Sink>(sink: &mut S, bursts: &Vec<Vec<Message>>, disconnected: bool) -> (r:
    Result<WorkerState, SinkError>)
    requires
        forall|j: int| 0 <= j < bursts@.len() ==> #[trigger] bursts@[j]@.len() > 0,
        disconnected || stop_burst(burst_views(bursts@)) < bursts@.len(),
    ensures
        r matches Ok(s) ==> {
            &&& final(sink).bytes() == old(sink).bytes() + session_drained(burst_views(bursts@))
            &&& final(sink).flushed() == final(sink).bytes()
            &&& final(sink).flush_count() == old(sink).flush_count() + session_cycles(
                burst_views(bursts@),
                disconnected,
            ) + 1
            &&& crate::message::is_terminal(s)
        },
        r is Err ==> old(sink).bytes().is_prefix_of(final(sink).bytes()),
{
    let ghost bs = burst_views(bursts@);
    let ghost bytes0 = sink.bytes();
    let ghost count0 = sink.flush_count();
    let mut i: usize = 0;
    let mut finished = false;
    let mut last_state = WorkerState::Empty;
    proof {
        lemma_append_empty(bytes0);
    }
    while !finished && i < bursts.len()
        invariant
            bs == burst_views(bursts@),
            bs.len() == bursts@.len(),
            i <= bs.len(),
            bytes0 == old(sink).bytes(),
            count0 == old(sink).flush_count(),
            forall|j: int| 0 <= j < bursts@.len() ==> #[trigger] bursts@[j]@.len() > 0,
            sink.bytes() == bytes0 + session_bytes(bs, i as int),
            sink.flush_count() == count0 + i,
            !finished ==> forall|j: int| 0 <= j < i ==> !has_shutdown(bs[j]),
            finished ==> 1 <= i && has_shutdown(bs[i - 1]) && last_state == WorkerState::Shutdown
                && (forall|j: int| 0 <= j < i - 1 ==> !has_shutdown(bs[j]))
                && sink.flushed() == sink.bytes(),
        decreases bs.len() - i + (if finished { 0int } else { 1int }),
    {
        let ghost mid = sink.bytes();
        match work_on(sink, &bursts[i], false) {
            Ok(s) => {
                proof {
                    assert(bs[i as int] == views(bursts@[i as int]@));
                }
                last_state = s;
                i += 1;
                if !keep_looping(&s) {
                    finished = true;
                }
            },
            Err(e) => {
                proof {
                    crate::drain::lemma_prefix_of_extension(bytes0, session_bytes(bs, i as int));
                    lemma_prefix_trans(bytes0, mid, sink.bytes());
                }
                return Err(e);
            },
        }
    }
    if !finished {
        // Every burst drained without a shutdown request: the next blocking
        // receive finds the channel disconnected and the cycle writes
        // nothing.
        let closing: Vec<Message> = Vec::new();
        let ghost mid = sink.bytes();
        proof {
            if !disconnected {
                lemma_stop_burst_bounds(bs);
            }
        }
        match work_on(sink, &closing, true) {
            Ok(s) => {
                proof {
                    lemma_append_empty(mid);
                }
                last_state = s;
            },
            Err(e) => {
                proof {
                    crate::drain::lemma_prefix_of_extension(bytes0, session_bytes(bs, i as int));
                    lemma_prefix_trans(bytes0, mid, sink.bytes());
                }
                return Err(e);
            },
        }
    }
    proof {
        if last_state == WorkerState::Shutdown {
            lemma_stop_burst_at(bs, i - 1);
        } else {
            lemma_stop_burst_at(bs, i as int);
        }
        crate::drain::lemma_prefix_of_extension(bytes0, session_bytes(bs, i as int));
        lemma_prefix_refl(sink.bytes());
    }
    match sink.flush() {
        Ok(_) => Ok(last_state),
        Err(e) => Err(e),
    }
}

} // verus!
