//! Histories of enter and exit events on one span, and what a record
//! accumulates over any such history.

use vstd::prelude::*;
use crate::record::MetricData;

verus! {

/// One lifecycle event on a span, stamped with the clock reading at which
/// the host framework delivered it.
pub enum SpanEvent {
    Enter(u64),
    Exit(u64),
}

/// What one event does to a record.
pub open spec fn apply_event(r: MetricData, e: SpanEvent) -> MetricData {
    match e {
        SpanEvent::Enter(t) => r.entered_spec(t),
        SpanEvent::Exit(t) => r.exited_spec(t),
    }
}

/// What a whole history of events, applied in order, does to a record.
pub open spec fn apply_events(r: MetricData, evs: Seq<SpanEvent>) -> MetricData
    decreases evs.len(),
{
    if evs.len() == 0 {
        r
    } else {
        apply_event(apply_events(r, evs.drop_last()), evs.last())
    }
}

/// How many enter events a history holds.
pub open spec fn count_enters(evs: Seq<SpanEvent>) -> nat
    decreases evs.len(),
{
    if evs.len() == 0 {
        0
    } else {
        count_enters(evs.drop_last()) + (if evs.last() is Enter {
            1nat
        } else {
            0nat
        })
    }
}

/// The timestamp of the first enter event in a history, if any.
pub open spec fn first_enter(evs: Seq<SpanEvent>) -> Option<u64>
    decreases evs.len(),
{
    if evs.len() == 0 {
        None
    } else if first_enter(evs.drop_last()) is Some {
        first_enter(evs.drop_last())
    } else {
        match evs.last() {
            SpanEvent::Enter(t) => Some(t),
            SpanEvent::Exit(_) => None,
        }
    }
}

/// The timestamp of the last exit event in a history, if any.
pub open spec fn last_exit(evs: Seq<SpanEvent>) -> Option<u64>
    decreases evs.len(),
{
    if evs.len() == 0 {
        None
    } else {
        match evs.last() {
            SpanEvent::Exit(t) => Some(t),
            SpanEvent::Enter(_) => last_exit(evs.drop_last()),
        }
    }
}

/// Over any history of enter and exit events on a tracked span — in
/// particular after N enters and N exits, however interleaved — the record
/// holds the number of enters as its count, the timestamp of the first enter
/// as its entry time, and the timestamp of the most recent exit as its exit
/// time.
pub proof fn lemma_event_history(evs: Seq<SpanEvent>)
    requires
        count_enters(evs) <= u64::MAX,
    ensures
        ({
            let r = apply_events(MetricData::fresh_spec(), evs);
            &&& r.enter_count == count_enters(evs)
            &&& r.entered == first_enter(evs)
            &&& r.exited == last_exit(evs)
        }),
    decreases evs.len(),
{
    if evs.len() > 0 {
        lemma_event_history(evs.drop_last());
    }
}

/// A record built from any event history is well formed: its entry
/// timestamp is present exactly when it was entered at least once.
pub proof fn lemma_event_history_wf(evs: Seq<SpanEvent>)
    requires
        count_enters(evs) <= u64::MAX,
    ensures
        apply_events(MetricData::fresh_spec(), evs).wf(),
    decreases evs.len(),
{
    lemma_event_history(evs);
    if evs.len() > 0 {
        lemma_event_history_wf(evs.drop_last());
    }
}

} // verus!
