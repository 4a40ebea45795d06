//! The guarantees the drain semantics gives, stated and proved once for
//! all inputs. Together with the contracts of [`crate::drain::work_on`] and
//! [`crate::worker::Worker`] they pin down ordering, flush batching,
//! shutdown and fault isolation.

use vstd::prelude::*;

use crate::drain::concat_records;
use crate::drain::drain_state;
use crate::drain::drained_bytes;
use crate::drain::lemma_stop_index_at;
use crate::drain::lemma_stop_index_bounds;
use crate::drain::no_shutdown_before;
use crate::drain::payload_of;
use crate::drain::stop_index;
use crate::message::is_terminal;
use crate::message::MessageView;

verus! {

/// Concatenation of records in order: what a producer's enqueued payloads
/// amount to on the sink.
pub open spec fn concat_payloads(records: Seq<Seq<u8>>) -> Seq<u8>
    decreases records.len(),
{
    if records.len() == 0 {
        Seq::empty()
    } else {
        concat_payloads(records.drop_last()) + records.last()
    }
}

proof fn lemma_concat_records_of_records(records: Seq<Seq<u8>>, n: int)
    requires
        0 <= n <= records.len(),
    ensures
        concat_records(records.map_values(|r: Seq<u8>| MessageView::Record(r)), n)
            == concat_payloads(records.take(n)),
    decreases n,
{
    let mv = records.map_values(|r: Seq<u8>| MessageView::Record(r));
    if n > 0 {
        lemma_concat_records_of_records(records, n - 1);
        assert(records.take(n).drop_last() =~= records.take(n - 1));
        assert(records.take(n).last() == records[n - 1]);
        assert(payload_of(mv[n - 1]) == records[n - 1]);
    }
}

/// Ordering: a sequence of records delivered with no shutdown among them
/// drains to exactly their concatenation, in delivery order — for a single
/// producer that order is its enqueue order.
pub proof fn lemma_single_producer_ordering(records: Seq<Seq<u8>>)
    ensures
        drained_bytes(records.map_values(|r: Seq<u8>| MessageView::Record(r)))
            == concat_payloads(records),
{
    let mv = records.map_values(|r: Seq<u8>| MessageView::Record(r));
    assert(no_shutdown_before(mv, mv.len() as int));
    lemma_stop_index_at(mv, mv.len() as int);
    lemma_concat_records_of_records(records, records.len() as int);
    assert(records.take(records.len() as int) =~= records);
}

proof fn lemma_concat_records_agree(a: Seq<MessageView>, b: Seq<MessageView>, n: int)
    requires
        0 <= n <= a.len(),
        n <= b.len(),
        forall|j: int| 0 <= j < n ==> a[j] == b[j],
    ensures
        concat_records(a, n) == concat_records(b, n),
    decreases n,
{
    if n > 0 {
        lemma_concat_records_agree(a, b, n - 1);
    }
}

/// Graceful shutdown: whatever is delivered after the first shutdown
/// request contributes nothing to the sink — the worker has stopped
/// consuming.
pub proof fn lemma_nothing_after_shutdown(before: Seq<MessageView>, after: Seq<MessageView>)
    ensures
        drained_bytes(before + seq![MessageView::Shutdown] + after) == drained_bytes(
            before + seq![MessageView::Shutdown],
        ),
{
    let m1 = before + seq![MessageView::Shutdown] + after;
    let m2 = before + seq![MessageView::Shutdown];
    lemma_stop_index_bounds(before);
    let k = stop_index(before);
    assert forall|j: int| 0 <= j < k implies !(m1[j] is Shutdown) by {
        assert(m1[j] == before[j]);
    }
    assert forall|j: int| 0 <= j < k implies !(m2[j] is Shutdown) by {
        assert(m2[j] == before[j]);
    }
    if k < before.len() {
        assert(m1[k] == before[k]);
        assert(m2[k] == before[k]);
    } else {
        assert(m2[k] == MessageView::Shutdown);
        assert(m1[k] == m2[k]);
    }
    lemma_stop_index_at(m1, k);
    lemma_stop_index_at(m2, k);
    assert forall|j: int| 0 <= j < k implies m1[j] == m2[j] by {
        assert(m1[j] == before[j]);
        assert(m2[j] == before[j]);
    }
    lemma_concat_records_agree(m1, m2, k);
}

/// Disconnection terminates: once every producer handle is gone, a drain
/// cycle ends in a terminal state — never back in the idle wait — so the
/// worker's thread exits instead of hanging.
pub proof fn lemma_disconnection_terminates(msgs: Seq<MessageView>)
    ensures
        is_terminal(drain_state(msgs, true)),
{
}

/// Fault isolation: a failed write leaves the sink exactly as it was, so
/// the next record that is written lands as if the failure had never
/// happened.
pub proof fn lemma_write_failure_isolated(
    pre: Seq<u8>,
    failed: Seq<u8>,
    after_next: Seq<u8>,
    next_record: Seq<u8>,
)
    requires
        failed == pre,
        after_next == failed + next_record,
    ensures
        after_next == pre + next_record,
{
}

} // verus!
