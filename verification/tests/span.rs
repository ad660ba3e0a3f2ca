use actix_otel_example::attribute::{AttrKey, AttrValue};
use actix_otel_example::headers::Headers;
use actix_otel_example::propagation::TraceContext;
use actix_otel_example::request::{Outcome, Request};
use actix_otel_example::scope::{RequestScope, TraceInfo};
use actix_otel_example::span::{InvariantViolation, Span, SpanEvent, SpanState, SpanStatus};

fn request(method: &str, path: &str, headers: Headers) -> Request {
    Request {
        method: method.to_string(),
        scheme: "http".to_string(),
        path: path.to_string(),
        route: Some(path.to_string()),
        version: "HTTP/1.1".to_string(),
        peer_addr: Some("127.0.0.1".to_string()),
        headers,
    }
}

fn ok() -> Outcome {
    Outcome { status_code: 200, error: None }
}

#[test]
fn life_cycle_follows_the_state_machine() {
    let states = [
        SpanState::Created,
        SpanState::Attached,
        SpanState::Active,
        SpanState::Finishing,
        SpanState::Closed,
    ];
    let events = [SpanEvent::Attach, SpanEvent::Activate, SpanEvent::BeginFinish, SpanEvent::Close];
    let table = [
        [Some(SpanState::Attached), None, None, None],
        [None, Some(SpanState::Active), None, None],
        [None, None, Some(SpanState::Finishing), None],
        [None, None, None, Some(SpanState::Closed)],
        [None, None, None, None],
    ];
    for (i, state) in states.iter().enumerate() {
        for (j, event) in events.iter().enumerate() {
            assert_eq!(state.step(*event), table[i][j], "{:?} {:?}", state, event);
        }
    }
}

#[test]
fn closed_state_is_terminal() {
    for event in [SpanEvent::Attach, SpanEvent::Activate, SpanEvent::BeginFinish, SpanEvent::Close] {
        assert_eq!(SpanState::Closed.step(event), None);
    }
}

#[test]
fn span_under_a_parent_joins_its_trace() {
    let parent = TraceContext::remote(0xabc, 0x11, true);
    let span = Span::start_with("GET /", &parent, 0xdef, 0x22, 1_000);
    assert_eq!(span.name(), "GET /");
    assert_eq!(span.trace_id(), 0xabc);
    assert_eq!(span.span_id(), 0x22);
    assert_eq!(span.parent_span_id(), 0x11);
    assert_eq!(span.start_time(), 1_000);
    assert_eq!(span.end_time(), None);
    assert_eq!(span.status(), SpanStatus::Unset);
    assert_eq!(span.state(), SpanState::Created);
    assert_eq!(span.attributes().len(), 0);
}

#[test]
fn span_without_a_parent_starts_a_trace() {
    let span = Span::start_with("GET /", &TraceContext::empty(), 0xdef, 0x22, 5);
    assert_eq!(span.trace_id(), 0xdef);
    assert_eq!(span.span_id(), 0x22);
    assert_eq!(span.parent_span_id(), 0);
}

#[test]
fn context_with_a_zero_id_is_empty() {
    assert!(TraceContext::empty().is_empty());
    assert_eq!(TraceContext::remote(0, 5, true), TraceContext::empty());
    assert_eq!(TraceContext::remote(5, 0, true), TraceContext::empty());
    let valid = TraceContext::remote(5, 6, true);
    assert!(!valid.is_empty());
    assert_eq!(valid, TraceContext { trace_id: 5, parent_span_id: 6, sampled: true });
    let half = Span::start_with("x", &TraceContext { trace_id: 9, parent_span_id: 0, sampled: true }, 1, 2, 0);
    assert_eq!(half.trace_id(), 1);
    assert_eq!(half.parent_span_id(), 0);
}

#[test]
fn random_ids_differ_between_spans() {
    let a = Span::start("a", &TraceContext::empty(), 0);
    let b = Span::start("b", &TraceContext::empty(), 0);
    assert_ne!(a.span_id(), b.span_id());
    assert_ne!(a.trace_id(), b.trace_id());
    let parent = TraceContext::remote(77, 88, false);
    let c = Span::start("c", &parent, 0);
    assert_eq!(c.trace_id(), 77);
    assert_eq!(c.parent_span_id(), 88);
}

#[test]
fn unattached_span_cannot_be_finished() {
    let mut span = Span::start_with("GET /", &TraceContext::empty(), 1, 2, 10);
    let req = request("GET", "/", Headers::new());
    assert_eq!(span.finish(&req, "/", &ok(), 20), Err(InvariantViolation::UnattachedSpan));
    assert_eq!(span.state(), SpanState::Created);
    assert_eq!(span.end_time(), None);
    assert_eq!(span.attributes().len(), 0);
}

#[test]
fn finish_writes_the_final_attributes_in_order() {
    let mut headers = Headers::new();
    headers.insert("User-Agent", "curl/8.0");
    let req = request("GET", "/users/42", headers);
    let mut span = Span::start_with("GET /users/{id}", &TraceContext::empty(), 1, 2, 10);
    assert!(span.advance(SpanEvent::Attach));
    assert!(span.advance(SpanEvent::Activate));
    assert_eq!(span.finish(&req, "/users/{id}", &ok(), 25), Ok(true));
    assert_eq!(span.state(), SpanState::Closed);
    assert_eq!(span.end_time(), Some(25));
    assert_eq!(span.status(), SpanStatus::Unset);
    let attrs = span.attributes();
    assert_eq!(attrs.len(), 7);
    let expect = [
        (AttrKey::UrlPath, AttrValue::text("/users/42")),
        (AttrKey::HttpRoute, AttrValue::text("/users/{id}")),
        (AttrKey::HttpRequestMethod, AttrValue::text("GET")),
        (AttrKey::NetworkProtocolVersion, AttrValue::text("HTTP/1.1")),
        (AttrKey::ClientAddress, AttrValue::text("127.0.0.1")),
        (AttrKey::UserAgentOriginal, AttrValue::text("curl/8.0")),
        (AttrKey::HttpResponseStatusCode, AttrValue::Int(200)),
    ];
    for (i, (key, value)) in expect.iter().enumerate() {
        let entry = attrs.entry(i).unwrap();
        assert_eq!(&entry.key, key);
        assert_eq!(&entry.value, value);
    }
}

#[test]
fn finish_leaves_out_a_user_agent_that_was_not_sent() {
    let mut req = request("GET", "/", Headers::new());
    req.peer_addr = None;
    let mut span = Span::start_with("GET /", &TraceContext::empty(), 1, 2, 10);
    span.advance(SpanEvent::Attach);
    assert_eq!(span.finish(&req, "/", &ok(), 25), Ok(true));
    assert_eq!(span.attributes().len(), 6);
    assert_eq!(span.attributes().get(&AttrKey::UserAgentOriginal), None);
    assert_eq!(span.attributes().get(&AttrKey::ClientAddress), Some(&AttrValue::text("")));
    assert_eq!(span.attributes().get(&AttrKey::ErrorType), None);
}

#[test]
fn finish_records_an_empty_user_agent_for_a_value_without_text() {
    let mut headers = Headers::new();
    headers.insert_opaque("User-Agent");
    let req = request("GET", "/", headers);
    let mut span = Span::start_with("GET /", &TraceContext::empty(), 1, 2, 10);
    span.advance(SpanEvent::Attach);
    assert_eq!(span.finish(&req, "/", &ok(), 25), Ok(true));
    assert_eq!(span.attributes().get(&AttrKey::UserAgentOriginal), Some(&AttrValue::text("")));
}

#[test]
fn finish_records_the_displayed_status_as_error_type() {
    let req = request("GET", "/missing", Headers::new());
    let mut span = Span::start_with("GET ", &TraceContext::empty(), 1, 2, 10);
    span.advance(SpanEvent::Attach);
    let outcome = Outcome { status_code: 404, error: None };
    assert_eq!(span.finish(&req, "", &outcome, 25), Ok(true));
    assert_eq!(
        span.attributes().get(&AttrKey::ErrorType),
        Some(&AttrValue::text("404 Not Found"))
    );
    assert_eq!(
        span.attributes().get(&AttrKey::HttpResponseStatusCode),
        Some(&AttrValue::Int(404))
    );
    assert_eq!(span.attributes().get(&AttrKey::HttpRoute), Some(&AttrValue::text("")));
    assert_eq!(span.status(), SpanStatus::Unset);
}

#[test]
fn finish_sets_error_status_for_server_errors_only() {
    let req = request("GET", "/", Headers::new());
    for (code, status, error_type) in [
        (199u16, SpanStatus::Unset, Some("199 <unknown status code>")),
        (200, SpanStatus::Unset, None),
        (299, SpanStatus::Unset, None),
        (300, SpanStatus::Unset, Some("300 Multiple Choices")),
        (499, SpanStatus::Unset, Some("499 <unknown status code>")),
        (500, SpanStatus::Error, Some("500 Internal Server Error")),
        (503, SpanStatus::Error, Some("503 Service Unavailable")),
        (599, SpanStatus::Error, Some("599 <unknown status code>")),
        (600, SpanStatus::Unset, Some("600 <unknown status code>")),
        (99, SpanStatus::Unset, Some("")),
        (1000, SpanStatus::Unset, Some("")),
    ] {
        let mut span = Span::start_with("GET /", &TraceContext::empty(), 1, 2, 10);
        span.advance(SpanEvent::Attach);
        let outcome = Outcome { status_code: code, error: None };
        assert_eq!(span.finish(&req, "/", &outcome, 25), Ok(true));
        assert_eq!(span.status(), status, "{}", code);
        let expected = error_type.map(AttrValue::text);
        assert_eq!(span.attributes().get(&AttrKey::ErrorType), expected.as_ref(), "{}", code);
    }
}

#[test]
fn finish_prefers_the_failure_description_as_error_type() {
    let req = request("GET", "/", Headers::new());
    let mut span = Span::start_with("GET /", &TraceContext::empty(), 1, 2, 10);
    span.advance(SpanEvent::Attach);
    let outcome = Outcome { status_code: 500, error: Some("handler panicked".to_string()) };
    assert_eq!(span.finish(&req, "/", &outcome, 25), Ok(true));
    assert_eq!(
        span.attributes().get(&AttrKey::ErrorType),
        Some(&AttrValue::text("handler panicked"))
    );
    assert_eq!(span.status(), SpanStatus::Error);
}

#[test]
fn finish_on_a_closed_span_changes_nothing() {
    let req = request("GET", "/", Headers::new());
    let mut span = Span::start_with("GET /", &TraceContext::empty(), 1, 2, 10);
    span.advance(SpanEvent::Attach);
    assert_eq!(span.finish(&req, "/", &ok(), 25), Ok(true));
    let before = span.duplicate();
    let other = Outcome { status_code: 500, error: Some("late".to_string()) };
    assert_eq!(span.finish(&req, "/other", &other, 99), Ok(false));
    assert_eq!(span, before);
    assert_eq!(span.end_time(), Some(25));
    assert_eq!(span.status(), SpanStatus::Unset);
}

#[test]
fn end_time_is_never_before_start_time() {
    let req = request("GET", "/", Headers::new());
    let mut span = Span::start_with("GET /", &TraceContext::empty(), 1, 2, 1_000);
    span.advance(SpanEvent::Attach);
    assert_eq!(span.finish(&req, "/", &ok(), 400), Ok(true));
    assert_eq!(span.start_time(), 1_000);
    assert_eq!(span.end_time(), Some(1_000));
}

#[test]
fn handler_writes_are_refused_once_closed() {
    let req = request("GET", "/", Headers::new());
    let mut span = Span::start_with("GET /", &TraceContext::empty(), 1, 2, 10);
    assert!(span.set_attribute(AttrKey::Custom("tenant".to_string()), AttrValue::Int(7)));
    assert!(span.set_status(SpanStatus::Okay));
    span.advance(SpanEvent::Attach);
    assert!(span.set_attribute(AttrKey::Custom("tenant".to_string()), AttrValue::Int(8)));
    assert_eq!(span.finish(&req, "/", &ok(), 25), Ok(true));
    assert_eq!(span.status(), SpanStatus::Okay);
    assert_eq!(
        span.attributes().entry(0).map(|kv| &kv.value),
        Some(&AttrValue::Int(8))
    );
    assert!(!span.set_attribute(AttrKey::Custom("tenant".to_string()), AttrValue::Int(9)));
    assert!(!span.set_status(SpanStatus::Error));
    assert!(!span.advance(SpanEvent::Activate));
    assert!(!span.advance(SpanEvent::Close));
    assert_eq!(span.attributes().len(), 7);
    assert_eq!(
        span.attributes().get(&AttrKey::Custom("tenant".to_string())),
        Some(&AttrValue::Int(8))
    );
    assert_eq!(span.status(), SpanStatus::Okay);
}

#[test]
fn handler_attribute_is_overwritten_by_a_final_one() {
    let req = request("GET", "/real", Headers::new());
    let mut span = Span::start_with("GET /", &TraceContext::empty(), 1, 2, 10);
    span.advance(SpanEvent::Attach);
    assert!(span.set_attribute(AttrKey::UrlPath, AttrValue::text("/made-up")));
    assert_eq!(span.finish(&req, "/", &ok(), 25), Ok(true));
    assert_eq!(span.attributes().len(), 6);
    assert_eq!(span.attributes().get(&AttrKey::UrlPath), Some(&AttrValue::text("/real")));
    assert_eq!(span.attributes().entry(0).map(|kv| &kv.key), Some(&AttrKey::UrlPath));
}

#[test]
fn close_event_is_not_taken_from_outside() {
    let mut span = Span::start_with("GET /", &TraceContext::empty(), 1, 2, 10);
    span.advance(SpanEvent::Attach);
    assert!(!span.advance(SpanEvent::BeginFinish));
    assert_eq!(span.state(), SpanState::Attached);
    assert!(span.advance(SpanEvent::Activate));
    assert!(span.advance(SpanEvent::BeginFinish));
    assert_eq!(span.state(), SpanState::Finishing);
    assert!(!span.advance(SpanEvent::Close));
    assert_eq!(span.state(), SpanState::Finishing);
    assert!(!span.set_attribute(AttrKey::HttpRoute, AttrValue::text("/")));
    let req = request("GET", "/", Headers::new());
    assert_eq!(span.finish(&req, "/", &ok(), 25), Ok(true));
    assert_eq!(span.state(), SpanState::Closed);
}

#[test]
fn second_start_is_a_violation() {
    let mut scope = RequestScope::new();
    assert!(!scope.is_started());
    let parent = TraceContext::remote(3, 4, true);
    let first = scope.start_with("GET /", &parent, 1, 2, 10);
    assert!(first.is_ok());
    assert!(scope.is_started());
    assert_eq!(scope.context(), parent);
    let second = scope.start_with("GET /", &TraceContext::empty(), 5, 6, 11);
    assert_eq!(second, Err(InvariantViolation::DoubleStart));
    assert_eq!(scope.context(), parent);
    assert_eq!(scope.start("GET /", &TraceContext::empty(), 12), Err(InvariantViolation::DoubleStart));
    assert!(scope.trace_info().is_none());
}

#[test]
fn attach_is_idempotent() {
    let mut scope = RequestScope::new();
    let first = scope.start_with("first", &TraceContext::empty(), 1, 2, 10).unwrap();
    scope.attach(first);
    let other = Span::start_with("second", &TraceContext::empty(), 8, 9, 10);
    scope.attach(other);
    let info = scope.trace_info().unwrap();
    assert_eq!(info.trace_id, 1);
    assert_eq!(info.app_root_span.name(), "first");
    assert_eq!(info.app_root_span.span_id(), 2);
    assert_eq!(info.app_root_span.state(), SpanState::Attached);
}

#[test]
fn trace_info_carries_trace_id_and_span() {
    let span = Span::start_with("GET /", &TraceContext::empty(), 41, 42, 10);
    let info = TraceInfo::new(span.trace_id(), span);
    assert_eq!(info.trace_id, 41);
    assert_eq!(info.app_root_span.span_id(), 42);
}

#[test]
fn using_an_unattached_scope_is_a_violation() {
    let mut scope = RequestScope::new();
    let req = request("GET", "/", Headers::new());
    assert_eq!(scope.activate(), Err(InvariantViolation::UnattachedSpan));
    assert_eq!(
        scope.annotate(AttrKey::HttpRoute, AttrValue::text("/")),
        Err(InvariantViolation::UnattachedSpan)
    );
    assert_eq!(scope.finish(&req, "/", &ok(), 5), Err(InvariantViolation::UnattachedSpan));
    assert!(scope.trace_info().is_none());
}

#[test]
fn scope_hands_out_the_closed_span_once() {
    let mut scope = RequestScope::new();
    let span = scope.start_with("GET /", &TraceContext::empty(), 1, 2, 10).unwrap();
    scope.attach(span);
    assert_eq!(scope.activate(), Ok(true));
    assert_eq!(scope.activate(), Ok(false));
    assert_eq!(scope.annotate(AttrKey::Custom("k".to_string()), AttrValue::Bool(true)), Ok(true));
    let req = request("GET", "/", Headers::new());
    let exported = scope.finish(&req, "/", &ok(), 30).unwrap().unwrap();
    assert_eq!(exported.state(), SpanState::Closed);
    assert_eq!(exported.end_time(), Some(30));
    assert_eq!(exported.attributes().get(&AttrKey::Custom("k".to_string())), Some(&AttrValue::Bool(true)));
    assert_eq!(&exported, &scope.trace_info().unwrap().app_root_span);
    assert_eq!(scope.finish(&req, "/", &ok(), 40), Ok(None));
    assert_eq!(scope.annotate(AttrKey::Custom("k".to_string()), AttrValue::Bool(false)), Ok(false));
    assert_eq!(&exported, &scope.trace_info().unwrap().app_root_span);
}

#[test]
fn violations_describe_themselves() {
    assert_eq!(
        InvariantViolation::DoubleStart.message(),
        "a span was already started for this request"
    );
    assert_eq!(
        InvariantViolation::UnattachedSpan.message(),
        "no span is attached to this request"
    );
}
