//! The metrics layer: the callback-driven state machine that owns one metric
//! record per tracked span, keyed by the span's opaque identifier, and that
//! drives each record through enter, exit and close.

use vstd::prelude::*;
use std::collections::HashMap;
use crate::clock;
use crate::events::{MetricEvent, flush_model};
use crate::history::{SpanEvent, apply_event};
use crate::record::MetricData;

verus! {

broadcast use vstd::std_specs::hash::group_hash_axioms;

/// The metrics layer. It holds its own clock, read at every enter and exit,
/// and the records of the spans it tracks. A span with no record is simply
/// untracked: enter, exit and close on it do nothing. Records are attached
/// lazily, only on an explicit tracking request.
pub struct Metrics {
    pub clock: quanta::Clock,
    pub spans: HashMap<u64, MetricData>,
}

impl View for Metrics {
    type V = Map<u64, MetricData>;

    /// A layer is modelled by the map from tracked span identifiers to
    /// their records.
    open spec fn view(&self) -> Map<u64, MetricData> {
        self.spans@
    }
}

/// What one enter or exit callback for span `id` does to the layer's map: it
/// steps the span's record if one is attached and does nothing otherwise.
pub open spec fn step_map(
    m: Map<u64, MetricData>,
    id: u64,
    e: SpanEvent,
) -> Map<u64, MetricData> {
    if m.contains_key(id) {
        m.insert(id, apply_event(m[id], e))
    } else {
        m
    }
}

/// What a whole sequence of enter and exit callbacks for span `id` does to
/// the layer's map.
pub open spec fn run_map(
    m: Map<u64, MetricData>,
    id: u64,
    evs: Seq<SpanEvent>,
) -> Map<u64, MetricData>
    decreases evs.len(),
{
    if evs.len() == 0 {
        m
    } else {
        step_map(run_map(m, id, evs.drop_last()), id, evs.last())
    }
}

/// A span that is untracked stays untracked under any sequence of enter and
/// exit callbacks: its whole lifecycle leaves the layer unchanged, and — by
/// the close contract below — closing it emits no metric events either.
pub proof fn lemma_untracked_span_silent(m: Map<u64, MetricData>, id: u64, evs: Seq<SpanEvent>)
    requires
        !m.contains_key(id),
    ensures
        run_map(m, id, evs) == m,
    decreases evs.len(),
{
    if evs.len() > 0 {
        lemma_untracked_span_silent(m, id, evs.drop_last());
    }
}

impl Metrics {
    /// The creation callback: under the lazy attachment policy this layer
    /// follows, creating a span attaches nothing; a record is attached only
    /// by an explicit tracking request, so untracked spans cost no per-span
    /// state.
    pub fn new_span(&mut self, _id: u64)
        ensures
            final(self)@ == old(self)@,
    {
    }

    /// Marks one enter of span `id` at the given clock reading, if the span
    /// is tracked.
    pub fn on_enter_at(&mut self, id: u64, now: u64)
        requires
            old(self)@.contains_key(id) ==> old(self)@[id].enter_count < u64::MAX,
        ensures
            final(self)@ == step_map(old(self)@, id, SpanEvent::Enter(now)),
    {
        match self.spans.remove(&id) {
            Some(mut data) => {
                data.mark_entered(now);
                self.spans.insert(id, data);
                proof {
                    assert(self@ =~= step_map(old(self)@, id, SpanEvent::Enter(now)));
                }
            },
            None => {},
        }
    }

    /// Marks one exit of span `id` at the given clock reading, if the span
    /// is tracked.
    pub fn on_exit_at(&mut self, id: u64, now: u64)
        ensures
            final(self)@ == step_map(old(self)@, id, SpanEvent::Exit(now)),
    {
        match self.spans.remove(&id) {
            Some(mut data) => {
                data.mark_exited(now);
                self.spans.insert(id, data);
                proof {
                    assert(self@ =~= step_map(old(self)@, id, SpanEvent::Exit(now)));
                }
            },
            None => {},
        }
    }

    /// The enter callback: reads the layer's clock and marks one enter of
    /// span `id` at that reading. The reading depends on when the call
    /// runs, so the contract only says that the record was stepped by an
    /// enter at some time.
    pub fn on_enter(&mut self, id: u64)
        requires
            old(self)@.contains_key(id) ==> old(self)@[id].enter_count < u64::MAX,
        ensures
            exists|now: u64| final(self)@ == step_map(old(self)@, id, SpanEvent::Enter(now)),
    {
        let now = clock::clock_now(&self.clock);
        self.on_enter_at(id, now);
    }

    /// The exit callback: reads the layer's clock and marks one exit of
    /// span `id` at that reading.
    pub fn on_exit(&mut self, id: u64)
        ensures
            exists|now: u64| final(self)@ == step_map(old(self)@, id, SpanEvent::Exit(now)),
    {
        let now = clock::clock_now(&self.clock);
        self.on_exit_at(id, now);
    }

    /// The close callback for span `id`, whose name is `name`: detaches the
    /// span's record, if any, and flushes it into the metrics sink. The
    /// returned vector holds exactly the emitted events: one counter and one
    /// duration event when the span was entered and exited at least once,
    /// and nothing otherwise — in particular nothing for an untracked span,
    /// for one that was never entered, and for one that never exited.
    pub fn on_close(&mut self, id: u64, name: &str) -> (events: Vec<MetricEvent>)
        ensures
            !old(self)@.contains_key(id) ==> final(self)@ == old(self)@ && events@.len() == 0,
            old(self)@.contains_key(id) ==> final(self)@ == old(self)@.remove(id)
                && events@.len() == flush_model(old(self)@[id], name@).len(),
            old(self)@.contains_key(id) ==> forall|i: int|
                0 <= i < events@.len() ==> #[trigger] events@[i]@ == flush_model(
                    old(self)@[id],
                    name@,
                )[i],
    {
        match self.spans.remove(&id) {
            Some(mut data) => {
                let events = data.flush(name);
                proof {
                    assert(self@ =~= old(self)@.remove(id));
                }
                events
            },
            None => Vec::new(),
        }
    }

    /// A tracking request for span `id`: attaches a fresh record, replacing
    /// and resetting any record already attached, so that repeated requests
    /// discard prior counts and timing starts now.
    pub fn request_tracking(&mut self, id: u64)
        ensures
            final(self)@ == old(self)@.insert(id, MetricData::fresh_spec()),
    {
        let data = MetricData::default();
        self.spans.insert(id, data);
    }
}

impl Default for Metrics {
    /// A layer that tracks nothing yet, with a freshly calibrated clock.
    fn default() -> (r: Metrics)
        ensures
            r@ == Map::<u64, MetricData>::empty(),
    {
        Metrics { clock: clock::default_clock(), spans: HashMap::new() }
    }
}

/// The timer-attachment extension: a value naming a span can request that
/// the given metrics layer track that span.
pub trait MetricsExt: Sized {
    /// Requests tracking of the span this value names and hands the value
    /// back.
    fn with_timer(self, layer: &mut Metrics) -> Self;
}

impl MetricsExt for u64 {
    /// A span identifier requests tracking of its span: the layer attaches
    /// a fresh record under this identifier, replacing any prior one.
    fn with_timer(self, layer: &mut Metrics) -> (r: u64)
        ensures
            final(layer)@ == old(layer)@.insert(self, MetricData::fresh_spec()),
            r == self,
    {
        layer.request_tracking(self);
        self
    }
}

} // verus!
