//! The record of one finished span, as exporters receive it.
use vstd::prelude::*;

use std::sync::Arc;

use vstd::std_specs::cmp::PartialEqSpec;

use crate::bounded::{EvictedHashMap, EvictedQueue};
use crate::common::{InstrumentationLibrary, Resource, Timestamp};
use crate::trace::{Event, Link, SpanContext, SpanId, SpanKind, Status};

verus! {

/// Whether two event queues hold the same events in the same order, with the
/// same capacity and the same count of lost events.
pub open spec fn same_events(a: &EvictedQueue<Event>, b: &EvictedQueue<Event>) -> bool {
    &&& a@.len() == b@.len()
    &&& forall|i: int| 0 <= i < a@.len() ==> (#[trigger] a@[i]).same(&b@[i])
    &&& a.capacity() == b.capacity()
    &&& a.dropped() == b.dropped()
}

/// Whether two link queues hold the same links in the same order, with the
/// same capacity and the same count of lost links.
pub open spec fn same_links(a: &EvictedQueue<Link>, b: &EvictedQueue<Link>) -> bool {
    &&& a@.len() == b@.len()
    &&& forall|i: int| 0 <= i < a@.len() ==> (#[trigger] a@[i]).same(&b@[i])
    &&& a.capacity() == b.capacity()
    &&& a.dropped() == b.dropped()
}

fn events_eq(a: &EvictedQueue<Event>, b: &EvictedQueue<Event>) -> (r: bool)
    ensures
        r == same_events(a, b),
{
    if a.max_len() != b.max_len() || a.dropped_count() != b.dropped_count() {
        return false;
    }
    let xs = a.as_slice();
    let ys = b.as_slice();
    if xs.len() != ys.len() {
        return false;
    }
    let mut i: usize = 0;
    while i < xs.len()
        invariant
            xs@ == a@,
            ys@ == b@,
            xs@.len() == ys@.len(),
            0 <= i <= xs@.len(),
            forall|j: int| 0 <= j < i ==> (#[trigger] xs@[j]).same(&ys@[j]),
        decreases xs@.len() - i,
    {
        if !(xs[i] == ys[i]) {
            return false;
        }
        i = i + 1;
    }
    true
}

fn links_eq(a: &EvictedQueue<Link>, b: &EvictedQueue<Link>) -> (r: bool)
    ensures
        r == same_links(a, b),
{
    if a.max_len() != b.max_len() || a.dropped_count() != b.dropped_count() {
        return false;
    }
    let xs = a.as_slice();
    let ys = b.as_slice();
    if xs.len() != ys.len() {
        return false;
    }
    let mut i: usize = 0;
    while i < xs.len()
        invariant
            xs@ == a@,
            ys@ == b@,
            xs@.len() == ys@.len(),
            0 <= i <= xs@.len(),
            forall|j: int| 0 <= j < i ==> (#[trigger] xs@[j]).same(&ys@[j]),
        decreases xs@.len() - i,
    {
        if !(xs[i] == ys[i]) {
            return false;
        }
        i = i + 1;
    }
    true
}

/// A finished span as it is handed to an exporter: everything needed to
/// describe it, frozen once it is built.
#[derive(Clone, Debug)]
pub struct SpanData {
    pub span_context: SpanContext,
    /// The parent's span identifier; the invalid identifier for a root span.
    pub parent_span_id: SpanId,
    pub span_kind: SpanKind,
    pub name: String,
    /// Start and end are both recorded; under clock skew the end may come
    /// before the start.
    pub start_time: Timestamp,
    pub end_time: Timestamp,
    pub attributes: EvictedHashMap,
    pub events: EvictedQueue<Event>,
    pub links: EvictedQueue<Link>,
    pub status: Status,
    /// Shared by every span of the producing entity.
    pub resource: Arc<Resource>,
    pub instrumentation_lib: InstrumentationLibrary,
}

impl SpanData {
    /// Whether two records agree field by field.
    pub open spec fn same(&self, o: &SpanData) -> bool {
        &&& self.span_context.same(&o.span_context)
        &&& self.parent_span_id == o.parent_span_id
        &&& self.span_kind == o.span_kind
        &&& self.name@ == o.name@
        &&& self.start_time == o.start_time
        &&& self.end_time == o.end_time
        &&& self.attributes.same(&o.attributes)
        &&& same_events(&self.events, &o.events)
        &&& same_links(&self.links, &o.links)
        &&& self.status.same(&o.status)
        &&& (*self.resource).same(&*o.resource)
        &&& self.instrumentation_lib.same(&o.instrumentation_lib)
    }
}

impl PartialEq for SpanData {
    fn eq(&self, o: &SpanData) -> (r: bool) {
        self.span_context == o.span_context && self.parent_span_id == o.parent_span_id
            && self.span_kind == o.span_kind && self.name == o.name && self.start_time
            == o.start_time && self.end_time == o.end_time && self.attributes == o.attributes
            && events_eq(&self.events, &o.events) && links_eq(&self.links, &o.links)
            && self.status == o.status && *self.resource == *o.resource
            && self.instrumentation_lib == o.instrumentation_lib
    }
}

impl vstd::std_specs::cmp::PartialEqSpecImpl for SpanData {
    open spec fn obeys_eq_spec() -> bool {
        true
    }

    open spec fn eq_spec(&self, o: &SpanData) -> bool {
        self.same(o)
    }
}

/// Two records whose fields hold the same values compare equal.
pub proof fn lemma_equal_fields_compare_equal(a: SpanData, b: SpanData)
    requires
        a.span_context == b.span_context,
        a.parent_span_id == b.parent_span_id,
        a.span_kind == b.span_kind,
        a.name == b.name,
        a.start_time == b.start_time,
        a.end_time == b.end_time,
        a.attributes == b.attributes,
        a.events == b.events,
        a.links == b.links,
        a.status == b.status,
        a.resource == b.resource,
        a.instrumentation_lib == b.instrumentation_lib,
    ensures
        a.eq_spec(&b),
{
    assert(b.attributes.same(&a.attributes)) by {
        assert forall|i: int| 0 <= i < a.attributes@.len() implies (#[trigger] a.attributes@[i]).same(
            &b.attributes@[i],
        ) by {
            a.attributes@[i].value.lemma_same_reflexive();
        }
    }
    assert forall|i: int| 0 <= i < a.events@.len() implies (#[trigger] a.events@[i]).same(
        &b.events@[i],
    ) by {
        let attrs = a.events@[i].attributes@;
        assert forall|j: int| 0 <= j < attrs.len() implies (#[trigger] attrs[j]).same(&attrs[j]) by {
            attrs[j].value.lemma_same_reflexive();
        }
    }
    assert forall|i: int| 0 <= i < a.links@.len() implies (#[trigger] a.links@[i]).same(
        &b.links@[i],
    ) by {
        let attrs = a.links@[i].attributes@;
        assert forall|j: int| 0 <= j < attrs.len() implies (#[trigger] attrs[j]).same(&attrs[j]) by {
            attrs[j].value.lemma_same_reflexive();
        }
    }
    let attrs = a.resource.attributes@;
    assert forall|j: int| 0 <= j < attrs.len() implies (#[trigger] attrs[j]).same(&attrs[j]) by {
        attrs[j].value.lemma_same_reflexive();
    }
}

} // verus!
