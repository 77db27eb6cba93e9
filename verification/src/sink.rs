//! The boundary to the metrics sink: each emission is forwarded to the
//! process-wide recorder of the metrics crate, fire and forget. Nothing is
//! read back, and when no recorder is installed the emission is dropped.

use vstd::prelude::*;

verus! {

/// Relies on `metrics::try_recorder`, `metrics::Key::from_name` and
/// `metrics::Recorder::increment_counter`: forwards one counter increment to
/// the installed recorder, exactly as the counter macro of the metrics crate
/// expands to. Fire and forget; nothing is promised of the sink.
#[verifier::external_body]
pub(crate) fn emit_counter(name: &String, value: u64)
{
    if let Some(recorder) = metrics::try_recorder() {
        recorder.increment_counter(metrics::Key::from_name(name.clone()), value);
    }
}

/// Relies on `metrics::try_recorder`, `metrics::Key::from_name` and
/// `metrics::Recorder::record_histogram`: forwards one elapsed-nanoseconds
/// value to the installed recorder, exactly as the timing macro of the
/// metrics crate expands to for an already-computed delta. Fire and forget;
/// nothing is promised of the sink.
#[verifier::external_body]
pub(crate) fn emit_timing(name: &String, nanos: u64)
{
    if let Some(recorder) = metrics::try_recorder() {
        recorder.record_histogram(metrics::Key::from_name(name.clone()), nanos);
    }
}

} // verus!
