//! A small collaborator that turns timing on for the span it is handed:
//! the shape of code that requests tracking from inside instrumented logic.

use vstd::prelude::*;
use crate::layer::{Metrics, MetricsExt};
use crate::record::MetricData;

verus! {

#[derive(Default, Debug)]
pub struct Thingy;

impl Thingy {
    /// Called with an unshaved yak: requests that the current span — the
    /// one `span` identifies in `layer` — be tracked from now on.
    pub fn handle_unshaved(&self, _yak: usize, layer: &mut Metrics, span: u64)
        ensures
            final(layer)@ == old(layer)@.insert(span, MetricData::fresh_spec()),
    {
        span.with_timer(layer);
    }
}

} // verus!
