//! The per-span metric record: enter count plus the first-entry and
//! most-recent-exit timestamps, all in monotonic nanoseconds.

use vstd::prelude::*;
use vstd::string::StringExecFns;
use crate::events::{MetricEvent, can_flush, flush_model, flush_post};
use crate::sink;

verus! {

/// Mutable state attached to exactly one span instance. `enter_count` starts
/// at zero; `entered` is set only on the first enter and never overwritten;
/// `exited` is overwritten on every exit, so only the most recent exit
/// timestamp survives for flushing.
#[derive(Clone, Debug)]
pub struct MetricData {
    pub enter_count: u64,
    pub entered: Option<u64>,
    pub exited: Option<u64>,
}

impl MetricData {
    /// The state of a record that has seen no activity at all.
    pub open spec fn fresh_spec() -> MetricData {
        MetricData { enter_count: 0, entered: None, exited: None }
    }

    /// A record is well formed when its first-entry timestamp is present
    /// exactly when it has been entered at least once.
    pub open spec fn wf(self) -> bool {
        self.entered is Some <==> self.enter_count >= 1
    }

    /// What one enter at time `now` does to a record.
    pub open spec fn entered_spec(self, now: u64) -> MetricData {
        MetricData {
            enter_count: (self.enter_count + 1) as u64,
            entered: if self.entered is Some {
                self.entered
            } else {
                Some(now)
            },
            exited: self.exited,
        }
    }

    /// What one exit at time `now` does to a record.
    pub open spec fn exited_spec(self, now: u64) -> MetricData {
        MetricData { enter_count: self.enter_count, entered: self.entered, exited: Some(now) }
    }

    /// Increments the enter count and stamps the first-entry time if this is
    /// the first enter; repeated entries never overwrite `entered`.
    pub fn mark_entered(&mut self, now: u64)
        requires
            old(self).enter_count < u64::MAX,
        ensures
            *final(self) == old(self).entered_spec(now),
    {
        self.enter_count = self.enter_count + 1;
        if self.entered.is_none() {
            self.entered = Some(now);
        }
    }

    /// Overwrites the last-exit time; the most recent exit wins.
    pub fn mark_exited(&mut self, now: u64)
        ensures
            *final(self) == old(self).exited_spec(now),
    {
        self.exited = Some(now);
    }

    /// Flushes the record into the metrics sink under the span name `name`.
    ///
    /// If the record was entered at least once and both timestamps are
    /// present, this emits exactly one counter event carrying the enter
    /// count and exactly one duration event spanning first entry to last
    /// exit, then clears the consumed timestamps; the enter count stays
    /// available. In every other state — never entered, or closed without a
    /// matching exit — nothing is emitted and nothing changes, so a repeated
    /// flush is a no-op. The returned vector holds the emitted events.
    pub fn flush(&mut self, name: &str) -> (events: Vec<MetricEvent>)
        ensures
            *final(self) == flush_post(*old(self)),
            events@.len() == flush_model(*old(self), name@).len(),
            forall|i: int|
                0 <= i < events@.len() ==> #[trigger] events@[i]@ == flush_model(
                    *old(self),
                    name@,
                )[i],
    {
        let mut events: Vec<MetricEvent> = Vec::new();
        if self.enter_count >= 1 && self.entered.is_some() && self.exited.is_some() {
            let start = self.entered.unwrap();
            let end = self.exited.unwrap();
            let count = self.enter_count;
            let counter_name = String::from_str(name);
            let duration_name = String::from_str(name).concat("_ns");
            sink::emit_counter(&counter_name, count);
            let nanos = if end >= start {
                end - start
            } else {
                0
            };
            sink::emit_timing(&duration_name, nanos);
            self.entered = None;
            self.exited = None;
            events.push(MetricEvent::Counter { name: counter_name, value: count });
            events.push(MetricEvent::Duration { name: duration_name, start, end });
            proof {
                assert(can_flush(*old(self)));
                assert(events@[0]@ == flush_model(*old(self), name@)[0]);
                assert(events@[1]@ == flush_model(*old(self), name@)[1]);
            }
        } else {
            proof {
                assert(!can_flush(*old(self)));
            }
        }
        events
    }
}

impl Default for MetricData {
    /// A fresh record: never entered, no timestamps.
    fn default() -> (r: MetricData)
        ensures
            r == MetricData::fresh_spec(),
    {
        MetricData { enter_count: 0, entered: None, exited: None }
    }
}

} // verus!
