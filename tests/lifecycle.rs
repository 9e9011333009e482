use actix_web_opentelemetry::headers::HeaderError;
use actix_web_opentelemetry::request::{Attribute, AttributeValue, PendingRequest, RequestUri};
use actix_web_opentelemetry::tracer::{Phase, RequestTrace, SpanKind, SpanStatus, TraceStep};

fn request() -> PendingRequest {
    PendingRequest {
        method: "GET".to_string(),
        uri: RequestUri {
            text: "http://localhost:8080/items".to_string(),
            scheme: Some("http".to_string()),
            authority: Some("localhost:8080".to_string()),
            path: "/items".to_string(),
        },
        version: "HTTP/1.1".to_string(),
        peer_addr: None,
    }
}

fn count(steps: &[TraceStep], step: TraceStep) -> usize {
    steps.iter().filter(|s| **s == step).count()
}

#[test]
fn start_opens_a_client_span() {
    let mut t = RequestTrace::new(request());
    assert_eq!(t.phase(), Phase::Built);
    assert!(t.steps().is_empty());
    let s = t.start();
    assert_eq!(s.name, "GET http://localhost:8080/items");
    assert_eq!(s.kind, SpanKind::Client);
    assert_eq!(s.attributes.len(), 3);
    assert_eq!(t.attributes(), &s.attributes);
    assert_eq!(t.phase(), Phase::Injecting);
    assert_eq!(t.steps(), &vec![TraceStep::SpanStarted]);
}

#[test]
fn success_records_status_code_and_ends_span() {
    let mut t = RequestTrace::new(request());
    t.start();
    t.set_header("traceparent", "00-0af7651916cd43dd8448eb211c80319c-b7ad6b7169203331-01").unwrap();
    t.dispatch();
    let a = t.record_response(404);
    assert_eq!(a.key, "http.status_code");
    assert_eq!(a.value, AttributeValue::Int(404));
    assert_eq!(t.phase(), Phase::Closed);
    assert_eq!(t.status(), &SpanStatus::Unset);
    assert_eq!(t.attributes().len(), 4);
    assert_eq!(
        t.attributes()[3],
        Attribute { key: "http.status_code".to_string(), value: AttributeValue::Int(404) }
    );
}

#[test]
fn failure_records_error_status_and_ends_span() {
    let mut t = RequestTrace::new(request());
    t.start();
    t.dispatch();
    t.record_err("connection refused".to_string());
    assert_eq!(t.phase(), Phase::Closed);
    assert_eq!(t.status(), &SpanStatus::Error("connection refused".to_string()));
    assert_eq!(t.attributes().len(), 3);
    assert_eq!(t.steps().last(), Some(&TraceStep::SpanEnded));
}

#[test]
fn one_span_started_and_ended_on_either_outcome() {
    for ok in [true, false] {
        let mut t = RequestTrace::new(request());
        t.start();
        t.set_header("traceparent", "v").unwrap();
        t.set_header("tracestate", "k=v").unwrap();
        t.dispatch();
        if ok {
            t.record_response(200);
        } else {
            t.record_err("timeout".to_string());
        }
        assert_eq!(count(t.steps(), TraceStep::SpanStarted), 1);
        assert_eq!(count(t.steps(), TraceStep::SpanEnded), 1);
    }
}

#[test]
fn headers_are_written_before_dispatch() {
    let mut t = RequestTrace::new(request());
    t.start();
    t.set_header("traceparent", "v").unwrap();
    t.set_header("tracestate", "k=v").unwrap();
    t.dispatch();
    t.record_response(200);
    assert_eq!(
        t.steps(),
        &vec![
            TraceStep::SpanStarted,
            TraceStep::HeaderSet,
            TraceStep::HeaderSet,
            TraceStep::RequestSent,
            TraceStep::SpanEnded,
        ]
    );
    assert_eq!(t.headers().len(), 2);
    assert_eq!(t.headers().value_of("tracestate"), Some("k=v".to_string()));
}

#[test]
fn refused_header_is_not_written() {
    let mut t = RequestTrace::new(request());
    t.start();
    assert_eq!(t.set_header("bad name", "v"), Err(HeaderError::InvalidName));
    assert_eq!(t.set_header("traceparent", "a\rb"), Err(HeaderError::InvalidValue));
    assert_eq!(t.headers().len(), 0);
    assert_eq!(t.steps(), &vec![TraceStep::SpanStarted]);
}

#[test]
fn request_is_kept_unchanged() {
    let mut t = RequestTrace::new(request());
    t.start();
    t.set_header("traceparent", "v").unwrap();
    t.dispatch();
    assert_eq!(t.request(), &request());
}

#[test]
fn abandon_ends_span_only_while_sent() {
    let mut t = RequestTrace::new(request());
    assert!(!t.abandon());
    t.start();
    assert!(!t.abandon());
    t.dispatch();
    assert!(t.abandon());
    assert_eq!(t.phase(), Phase::Closed);
    assert_eq!(t.status(), &SpanStatus::Unset);
    assert_eq!(count(t.steps(), TraceStep::SpanEnded), 1);
    assert!(!t.abandon());
    assert_eq!(count(t.steps(), TraceStep::SpanEnded), 1);
}
