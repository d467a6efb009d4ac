//! Finished-span records and the contract between a tracing pipeline and the
//! exporters that send those records to a backend.
use vstd::prelude::*;

pub mod bounded;
pub mod common;
pub mod export;
pub mod span_data;
pub mod trace;

pub use bounded::{EvictedHashMap, EvictedQueue};
pub use common::{InstrumentationLibrary, KeyValue, Resource, Timestamp, Value};
pub use export::{
    ExportError, ExportGuard, ExportPlan, ExportResult, InMemorySpanExporter, SpanExporter,
};
pub use span_data::SpanData;
pub use trace::{Event, Link, SpanContext, SpanId, SpanKind, Status, TraceId};

verus! {

} // verus!
