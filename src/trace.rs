//! Span identity, kind, status, events and links.
use vstd::prelude::*;

use crate::common::{attributes_eq, same_attributes, KeyValue, Timestamp};

verus! {

/// The identifier of a trace; zero is the invalid identifier.
#[derive(Clone, Copy, Debug, PartialEq, Eq, Structural)]
pub struct TraceId(pub u128);

/// The identifier of a span; zero is the invalid identifier, which roots use as
/// their parent.
#[derive(Clone, Copy, Debug, PartialEq, Eq, Structural)]
pub struct SpanId(pub u64);

/// The identity of a span as it is propagated: trace and span identifiers,
/// trace flags, whether it came from a remote process, and the trace state in
/// its header form.
#[derive(Clone, Debug)]
pub struct SpanContext {
    pub trace_id: TraceId,
    pub span_id: SpanId,
    pub trace_flags: u8,
    pub is_remote: bool,
    pub trace_state: String,
}

impl SpanContext {
    pub open spec fn same(&self, o: &SpanContext) -> bool {
        &&& self.trace_id == o.trace_id
        &&& self.span_id == o.span_id
        &&& self.trace_flags == o.trace_flags
        &&& self.is_remote == o.is_remote
        &&& self.trace_state@ == o.trace_state@
    }
}

impl PartialEq for SpanContext {
    fn eq(&self, o: &SpanContext) -> (r: bool) {
        self.trace_id == o.trace_id && self.span_id == o.span_id && self.trace_flags
            == o.trace_flags && self.is_remote == o.is_remote && self.trace_state == o.trace_state
    }
}

impl vstd::std_specs::cmp::PartialEqSpecImpl for SpanContext {
    open spec fn obeys_eq_spec() -> bool {
        true
    }

    open spec fn eq_spec(&self, o: &SpanContext) -> bool {
        self.same(o)
    }
}

/// The role a span plays in a request.
#[derive(Clone, Copy, Debug, PartialEq, Eq, Structural)]
pub enum SpanKind {
    Client,
    Server,
    Producer,
    Consumer,
    Internal,
}

/// The outcome recorded for a span.
#[derive(Clone, Debug)]
pub enum Status {
    Unset,
    Error { description: String },
    /// The operation was validated as having completed successfully.
    Success,
}

impl Status {
    pub open spec fn same(&self, o: &Status) -> bool {
        match self {
            Status::Unset => o is Unset,
            Status::Error { description } => match o {
                Status::Error { description: d } => d@ == description@,
                _ => false,
            },
            Status::Success => o is Success,
        }
    }

    /// An error status with the given description.
    pub fn error(description: String) -> (r: Status)
        ensures
            r == (Status::Error { description }),
    {
        Status::Error { description }
    }
}

impl PartialEq for Status {
    fn eq(&self, o: &Status) -> (r: bool) {
        match self {
            Status::Unset => o.is_unset(),
            Status::Error { description } => match o {
                Status::Error { description: d } => *d == *description,
                _ => false,
            },
            Status::Success => o.is_success(),
        }
    }
}

impl Status {
    fn is_unset(&self) -> (r: bool)
        ensures
            r == self is Unset,
    {
        match self {
            Status::Unset => true,
            _ => false,
        }
    }

    fn is_success(&self) -> (r: bool)
        ensures
            r == self is Success,
    {
        match self {
            Status::Success => true,
            _ => false,
        }
    }
}

impl vstd::std_specs::cmp::PartialEqSpecImpl for Status {
    open spec fn obeys_eq_spec() -> bool {
        true
    }

    open spec fn eq_spec(&self, o: &Status) -> bool {
        self.same(o)
    }
}

/// Something that happened at one instant during a span.
#[derive(Clone, Debug)]
pub struct Event {
    pub name: String,
    pub timestamp: Timestamp,
    pub attributes: Vec<KeyValue>,
    pub dropped_attributes_count: u32,
}

impl Event {
    pub open spec fn same(&self, o: &Event) -> bool {
        &&& self.name@ == o.name@
        &&& self.timestamp == o.timestamp
        &&& same_attributes(self.attributes@, o.attributes@)
        &&& self.dropped_attributes_count == o.dropped_attributes_count
    }

    pub fn new(
        name: String,
        timestamp: Timestamp,
        attributes: Vec<KeyValue>,
        dropped_attributes_count: u32,
    ) -> (r: Event)
        ensures
            r == (Event { name, timestamp, attributes, dropped_attributes_count }),
    {
        Event { name, timestamp, attributes, dropped_attributes_count }
    }
}

impl PartialEq for Event {
    fn eq(&self, o: &Event) -> (r: bool) {
        self.name == o.name && self.timestamp == o.timestamp && attributes_eq(
            &self.attributes,
            &o.attributes,
        ) && self.dropped_attributes_count == o.dropped_attributes_count
    }
}

impl vstd::std_specs::cmp::PartialEqSpecImpl for Event {
    open spec fn obeys_eq_spec() -> bool {
        true
    }

    open spec fn eq_spec(&self, o: &Event) -> bool {
        self.same(o)
    }
}

/// A reference from a span to a causally related span.
#[derive(Clone, Debug)]
pub struct Link {
    pub span_context: SpanContext,
    pub attributes: Vec<KeyValue>,
    pub dropped_attributes_count: u32,
}

impl Link {
    pub open spec fn same(&self, o: &Link) -> bool {
        &&& self.span_context.same(&o.span_context)
        &&& same_attributes(self.attributes@, o.attributes@)
        &&& self.dropped_attributes_count == o.dropped_attributes_count
    }

    pub fn new(span_context: SpanContext, attributes: Vec<KeyValue>) -> (r: Link)
        ensures
            r == (Link { span_context, attributes, dropped_attributes_count: 0 }),
    {
        Link { span_context, attributes, dropped_attributes_count: 0 }
    }
}

impl PartialEq for Link {
    fn eq(&self, o: &Link) -> (r: bool) {
        self.span_context == o.span_context && attributes_eq(&self.attributes, &o.attributes)
            && self.dropped_attributes_count == o.dropped_attributes_count
    }
}

impl vstd::std_specs::cmp::PartialEqSpecImpl for Link {
    open spec fn obeys_eq_spec() -> bool {
        true
    }

    open spec fn eq_spec(&self, o: &Link) -> bool {
        self.same(o)
    }
}

} // verus!
