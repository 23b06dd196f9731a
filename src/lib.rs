//! Per-minute input telemetry: classifies raw input events into counter
//! buckets, aggregates them into one counter window, and drives the periodic
//! snapshot / persist / reset cycle of that window.

mod bucket;
mod classify;
mod clock;
mod counter;
mod flush;
mod frame;
pub mod laws;

pub use bucket::Bucket;
pub use classify::{bucket_of, classify, InputEvent, MouseButton};
pub use clock::{epoch_minute_of, minute_of, now_epoch_minute, SECONDS_PER_MINUTE};
pub use counter::EventCounter;
pub use flush::{FlushAction, FlushScheduler};
pub use frame::{occurrences, DataFrame, WindowView};
