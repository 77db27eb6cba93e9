//! Span-lifecycle metrics: a per-span state machine that counts how many
//! times a span was entered, remembers the timestamp of its first entry and
//! of its most recent exit, and flushes that state into one counter event and
//! one duration event exactly once, when the span closes.

pub mod clock;
pub mod events;
pub mod history;
pub mod layer;
pub mod record;
pub mod sink;
pub mod thingy;
