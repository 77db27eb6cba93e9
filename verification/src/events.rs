//! Metric emission events: the ephemeral (name, kind, value) triples that a
//! flush hands to the metrics sink, together with their mathematical model.

use vstd::prelude::*;
use crate::record::MetricData;

verus! {

/// One event sent to the metrics sink: either a counter increment or a
/// duration given as a start/end pair of monotonic nanosecond timestamps.
#[derive(Clone, Debug)]
pub enum MetricEvent {
    Counter { name: String, value: u64 },
    Duration { name: String, start: u64, end: u64 },
}

/// The mathematical model of a `MetricEvent`: the same triple with the name
/// as a sequence of characters.
pub enum MetricEventModel {
    Counter { name: Seq<char>, value: u64 },
    Duration { name: Seq<char>, start: u64, end: u64 },
}

impl View for MetricEvent {
    type V = MetricEventModel;

    open spec fn view(&self) -> MetricEventModel {
        match self {
            MetricEvent::Counter { name, value } => MetricEventModel::Counter {
                name: name@,
                value: *value,
            },
            MetricEvent::Duration { name, start, end } => MetricEventModel::Duration {
                name: name@,
                start: *start,
                end: *end,
            },
        }
    }
}

/// The suffix appended to a span's name to form its duration metric's name.
pub open spec fn ns_suffix() -> Seq<char> {
    "_ns"@
}

/// A record may fire its metrics only when it was entered at least once and
/// both timestamps are present.
pub open spec fn can_flush(r: MetricData) -> bool {
    r.enter_count >= 1 && r.entered is Some && r.exited is Some
}

/// The record state a flush leaves behind: the consumed timestamps are
/// cleared while the enter count stays available; a flush that does not fire
/// changes nothing.
pub open spec fn flush_post(r: MetricData) -> MetricData {
    if can_flush(r) {
        MetricData { enter_count: r.enter_count, entered: None, exited: None }
    } else {
        r
    }
}

/// The events a flush of record `r` under span name `name` emits: exactly
/// one counter event carrying the enter count and exactly one duration event
/// spanning first entry to last exit, or nothing at all.
pub open spec fn flush_model(r: MetricData, name: Seq<char>) -> Seq<MetricEventModel> {
    if can_flush(r) {
        seq![
            MetricEventModel::Counter { name: name, value: r.enter_count },
            MetricEventModel::Duration {
                name: name + ns_suffix(),
                start: r.entered->Some_0,
                end: r.exited->Some_0,
            },
        ]
    } else {
        Seq::empty()
    }
}

/// Flushing a record that was never entered emits no metric events and is a
/// no-op.
pub proof fn lemma_flush_never_entered_silent(r: MetricData, name: Seq<char>)
    requires
        r.enter_count == 0,
    ensures
        flush_model(r, name) == Seq::<MetricEventModel>::empty(),
        flush_post(r) == r,
{
}

/// Whatever state a flush starts from, flushing the state it leaves behind
/// emits no events: an erroneously repeated flush is a no-op.
pub proof fn lemma_second_flush_no_op(r: MetricData, name: Seq<char>, name2: Seq<char>)
    ensures
        flush_model(flush_post(r), name2) == Seq::<MetricEventModel>::empty(),
{
}

} // verus!
