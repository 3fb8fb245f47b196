//! Raw samples and the error taxonomy. A sampler produces one `RawSample`
//! per tick or fails with a `SampleError`; failures are isolated to their
//! tick and surfaced as a `WidgetError` item, never terminating the stream.

use vstd::prelude::*;

verus! {

/// The value a sampler produces for one tick: a numeric reading (e.g. bytes
/// of memory) or a pre-supplied string.
#[derive(Clone, Debug, PartialEq, Eq)]
pub enum RawSample {
    Num(u64),
    Str(String),
}

/// Why one tick's sampling failed. Recovered at the tick boundary: the
/// failure is yielded as an item and the stream keeps ticking.
#[derive(Clone, Copy, Debug, PartialEq, Eq)]
pub enum SampleError {
    SourceUnavailable,
    PermissionDenied,
    MalformedData,
}

/// A failed tick as yielded to the host, annotated with which widget and
/// which tick produced it.
#[derive(Clone, Debug, PartialEq, Eq)]
pub struct WidgetError {
    pub widget: String,
    pub tick: u64,
    pub cause: SampleError,
}

/// Invalid configuration at widget-build time; fatal, no stream is produced.
#[derive(Clone, Copy, Debug, PartialEq, Eq)]
pub enum ConstructionError {
    ZeroTickPeriod,
}

} // verus!
