use std::sync::Arc;

use opentelemetry_sdk::{
    EvictedHashMap, EvictedQueue, Event, ExportError, ExportGuard, ExportPlan,
    InMemorySpanExporter, InstrumentationLibrary, KeyValue, Link, Resource, SpanContext,
    SpanData, SpanExporter, SpanId, SpanKind, Status, Timestamp, TraceId, Value,
};

fn context(span: u64) -> SpanContext {
    SpanContext {
        trace_id: TraceId(0x4bf92f3577b34da6a3ce929d0e0e4736),
        span_id: SpanId(span),
        trace_flags: 1,
        is_remote: false,
        trace_state: String::from("vendor=value"),
    }
}

fn record(name: &str, start: i128, end: i128, status: Status) -> SpanData {
    let mut attributes = EvictedHashMap::new(8);
    attributes.insert(KeyValue::new(String::from("http.method"), Value::String(String::from("GET"))));
    let mut events = EvictedQueue::new(4);
    events.push_back(Event::new(String::from("cache miss"), Timestamp { nanos: start }, Vec::new(), 0));
    let mut links = EvictedQueue::new(4);
    links.push_back(Link::new(context(99), Vec::new()));
    SpanData {
        span_context: context(7),
        parent_span_id: SpanId(0),
        span_kind: SpanKind::Server,
        name: String::from(name),
        start_time: Timestamp { nanos: start },
        end_time: Timestamp { nanos: end },
        attributes,
        events,
        links,
        status,
        resource: Arc::new(Resource {
            attributes: vec![KeyValue::new(String::from("service.name"), Value::String(String::from("checkout")))],
            schema_url: None,
        }),
        instrumentation_lib: InstrumentationLibrary {
            name: String::from("web"),
            version: Some(String::from("1.2.0")),
            schema_url: None,
        },
    }
}

#[test]
fn empty_batch_succeeds_without_transmission() {
    let mut exporter = InMemorySpanExporter::new();
    assert_eq!(exporter.export(Vec::new()), Ok(()));
    assert_eq!(exporter.batch_count(), 0);
}

#[test]
fn zero_duration_record_is_exported() {
    let span = record("instant", 1_000, 1_000, Status::Unset);
    assert_eq!(span.start_time, span.end_time);
    let mut exporter = InMemorySpanExporter::new();
    assert_eq!(exporter.export(vec![span.clone()]), Ok(()));
    assert_eq!(exporter.finished_batches(), &vec![vec![span]]);
}

#[test]
fn end_before_start_is_accepted() {
    let span = record("skewed", 2_000, 1_500, Status::Unset);
    let mut exporter = InMemorySpanExporter::new();
    assert_eq!(exporter.export(vec![span]), Ok(()));
    assert_eq!(exporter.batch_count(), 1);
}

#[test]
fn export_after_shutdown_is_rejected() {
    let mut exporter = InMemorySpanExporter::new();
    exporter.shutdown();
    let result = exporter.export(vec![record("late", 1, 2, Status::Unset)]);
    assert_eq!(result, Err(ExportError::AlreadyShutDown));
    assert_eq!(exporter.batch_count(), 0);
}

#[test]
fn every_export_after_shutdown_is_rejected() {
    let mut exporter = InMemorySpanExporter::new();
    assert_eq!(exporter.export(vec![record("early", 1, 2, Status::Unset)]), Ok(()));
    exporter.shutdown();
    assert_eq!(exporter.export(Vec::new()), Err(ExportError::AlreadyShutDown));
    assert_eq!(exporter.export(vec![record("a", 1, 2, Status::Unset)]), Err(ExportError::AlreadyShutDown));
    assert_eq!(exporter.export(vec![record("b", 3, 4, Status::Unset)]), Err(ExportError::AlreadyShutDown));
    assert_eq!(exporter.batch_count(), 1);
}

#[test]
fn error_status_description_is_kept() {
    let a = record("failing", 10, 20, Status::error(String::from("boom")));
    let b = record("failing", 10, 20, Status::error(String::from("boom")));
    assert_eq!(a, b);
    match &a.status {
        Status::Error { description } => assert_eq!(description, "boom"),
        other => panic!("unexpected status {:?}", other),
    }
    let c = record("failing", 10, 20, Status::error(String::from("boom!")));
    assert_ne!(a, c);
}

#[test]
fn batches_recorded_in_call_order() {
    let mut exporter = InMemorySpanExporter::new();
    let b1 = vec![record("first", 1, 2, Status::Unset), record("second", 2, 3, Status::Unset)];
    let b2 = vec![record("third", 3, 4, Status::Success)];
    assert_eq!(exporter.export(b1.clone()), Ok(()));
    assert_eq!(exporter.export(b2.clone()), Ok(()));
    assert_eq!(exporter.finished_batches(), &vec![b1, b2]);
    assert_eq!(exporter.finished_batches()[0][1].name, "second");
}

#[test]
fn identical_inputs_compare_equal() {
    assert_eq!(record("same", 5, 9, Status::Success), record("same", 5, 9, Status::Success));
}

#[test]
fn differing_fields_compare_unequal() {
    let base = record("same", 5, 9, Status::Unset);
    assert_ne!(base, record("other", 5, 9, Status::Unset));
    assert_ne!(base, record("same", 5, 10, Status::Unset));
    assert_ne!(base, record("same", 5, 9, Status::Success));
    let mut kind = base.clone();
    kind.span_kind = SpanKind::Client;
    assert_ne!(base, kind);
    let mut parent = base.clone();
    parent.parent_span_id = SpanId(3);
    assert_ne!(base, parent);
    let mut attrs = base.clone();
    attrs.attributes.insert(KeyValue::new(String::from("http.method"), Value::String(String::from("POST"))));
    assert_ne!(base, attrs);
    let mut events = base.clone();
    events.events.push_back(Event::new(String::from("retry"), Timestamp { nanos: 6 }, Vec::new(), 0));
    assert_ne!(base, events);
    let mut links = base.clone();
    links.links.push_back(Link::new(context(100), Vec::new()));
    assert_ne!(base, links);
    let mut resource = base.clone();
    resource.resource = Arc::new(Resource { attributes: Vec::new(), schema_url: None });
    assert_ne!(base, resource);
    let mut library = base.clone();
    library.instrumentation_lib.version = None;
    assert_ne!(base, library);
    let mut remote = base.clone();
    remote.span_context.is_remote = true;
    assert_ne!(base, remote);
}

#[test]
fn value_equality_distinguishes_kinds() {
    assert_eq!(Value::I64(1), Value::I64(1));
    assert_ne!(Value::I64(1), Value::Bool(true));
    assert_ne!(Value::String(String::from("1")), Value::I64(1));
    assert_eq!(Value::Bool(false), Value::Bool(false));
}

#[test]
fn guard_plans_each_batch() {
    let mut guard = ExportGuard::new();
    assert!(!guard.is_shut_down());
    assert_eq!(guard.plan(0), ExportPlan::Skip);
    assert_eq!(guard.plan(3), ExportPlan::Transmit);
    guard.shut_down();
    assert!(guard.is_shut_down());
    assert_eq!(guard.plan(0), ExportPlan::Reject(ExportError::AlreadyShutDown));
    assert_eq!(guard.plan(3), ExportPlan::Reject(ExportError::AlreadyShutDown));
}

#[test]
fn finish_reports_by_plan() {
    let sent_fail = Err(ExportError::Timeout);
    assert_eq!(ExportGuard::finish(ExportPlan::Skip, sent_fail), Ok(()));
    assert_eq!(ExportGuard::finish(ExportPlan::Transmit, sent_fail), Err(ExportError::Timeout));
    assert_eq!(ExportGuard::finish(ExportPlan::Transmit, Ok(())), Ok(()));
    assert_eq!(
        ExportGuard::finish(ExportPlan::Transmit, Err(ExportError::AlreadyShutDown)),
        Err(ExportError::Transport)
    );
    assert_eq!(
        ExportGuard::finish(ExportPlan::Reject(ExportError::AlreadyShutDown), Ok(())),
        Err(ExportError::AlreadyShutDown)
    );
    assert_eq!(ExportGuard::finish(ExportPlan::Transmit, Err(ExportError::Encoding)), Err(ExportError::Encoding));
}
