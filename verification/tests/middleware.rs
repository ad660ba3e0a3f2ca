use actix_otel_example::attribute::{AttrKey, AttrValue, AttributeSet};
use actix_otel_example::headers::Headers;
use actix_otel_example::metrics::{Instrument, Measurement, MetricEvent, Metrics};
use actix_otel_example::middleware::{elapsed, Action, Flow, Instrumentation};
use actix_otel_example::propagation::{extract, TraceContext};
use actix_otel_example::request::{BodySize, Completion, Outcome, Request, Response, FAULT_STATUS};
use actix_otel_example::scope::{make_span, make_span_with, span_name_of, RequestScope};
use actix_otel_example::span::{InvariantViolation, Span, SpanState, SpanStatus};
use actix_otel_example::{AppConfig, OtelConfig};

const TRACE_ID: u128 = 0x4bf92f3577b34da6a3ce929d0e0e4736;
const PARENT_ID: u64 = 0x00f067aa0ba902b7;

fn request(method: &str, path: &str, headers: Headers) -> Request {
    Request {
        method: method.to_string(),
        scheme: "http".to_string(),
        path: path.to_string(),
        route: Some(path.to_string()),
        version: "HTTP/1.1".to_string(),
        peer_addr: Some("127.0.0.1".to_string()),
        headers,
    }
}

fn response(status: u16, body: BodySize) -> Completion {
    Completion::Response(Response { status, body, route: None })
}

fn recorded(actions: &[Action]) -> Vec<&MetricEvent> {
    let mut events = Vec::new();
    for action in actions {
        if let Action::Record(e) = action {
            events.push(e);
        }
    }
    events
}

fn exported(actions: &[Action]) -> Vec<&Span> {
    let mut spans = Vec::new();
    for action in actions {
        if let Action::Export(s) = action {
            spans.push(s);
        }
    }
    spans
}

fn gauge_net(actions: &[Action]) -> i64 {
    let mut net = 0;
    for event in recorded(actions) {
        if let (Instrument::ActiveRequests, Measurement::Delta(d)) = (event.instrument, event.value) {
            net += d;
        }
    }
    net
}

fn values_of<'a>(actions: &'a [Action], instrument: Instrument) -> Vec<&'a MetricEvent> {
    recorded(actions).into_iter().filter(|e| e.instrument == instrument).collect()
}

fn run(
    inst: &Instrumentation,
    req: &Request,
    completion: &Completion,
    start: u64,
    end: u64,
) -> Vec<Action> {
    let (mut flow, mut actions) = inst.begin(req, start);
    actions.extend(inst.complete(&mut flow, req, completion, end));
    actions
}

fn base(method: &str) -> AttributeSet {
    let mut set = AttributeSet::new();
    set.insert(AttrKey::HttpRequestMethod, AttrValue::text(method));
    set.insert(AttrKey::UrlScheme, AttrValue::text("http"));
    set
}

#[test]
fn get_root_without_trace_header() {
    let inst = Instrumentation::new(Metrics::new());
    let req = request("GET", "/", Headers::new());
    let actions = run(&inst, &req, &response(200, BodySize::Sized(12)), 1_000, 4_000);

    let spans = exported(&actions);
    assert_eq!(spans.len(), 1);
    let span = spans[0];
    assert_eq!(span.name(), "GET /");
    assert_eq!(
        span.attributes().get(&AttrKey::HttpRequestMethod),
        Some(&AttrValue::text("GET"))
    );
    assert_eq!(
        span.attributes().get(&AttrKey::HttpResponseStatusCode),
        Some(&AttrValue::Int(200))
    );
    assert_eq!(span.parent_span_id(), 0);
    assert_eq!(span.state(), SpanState::Closed);
    assert_eq!(span.status(), SpanStatus::Unset);
    assert_eq!(span.attributes().get(&AttrKey::ErrorType), None);

    assert_eq!(gauge_net(&actions), 0);
    let durations = values_of(&actions, Instrument::Duration);
    assert_eq!(durations.len(), 1);
    assert_eq!(durations[0].value, Measurement::Nanos(3_000));
    match durations[0].value {
        Measurement::Nanos(n) => assert!(n > 0),
        other => panic!("{:?}", other),
    }
}

#[test]
fn post_echo_with_content_length() {
    let inst = Instrumentation::new(Metrics::new());
    let mut headers = Headers::new();
    headers.insert("Content-Length", "11");
    let req = request("POST", "/echo", headers);
    let body = "hello world";
    let completion = response(200, BodySize::Sized(body.len() as u64));
    let actions = run(&inst, &req, &completion, 10, 20);

    let request_sizes = values_of(&actions, Instrument::RequestSize);
    assert_eq!(request_sizes.len(), 1);
    assert_eq!(request_sizes[0].value, Measurement::Bytes(11));
    let response_sizes = values_of(&actions, Instrument::ResponseSize);
    assert_eq!(response_sizes.len(), 1);
    assert_eq!(response_sizes[0].value, Measurement::Bytes(11));
    assert_eq!(
        response_sizes[0].attributes.get(&AttrKey::HttpResponseStatusCode),
        Some(&AttrValue::Int(200))
    );
    let spans = exported(&actions);
    assert_eq!(spans.len(), 1);
    assert_eq!(spans[0].name(), "POST /echo");
    assert_eq!(
        spans[0].attributes().get(&AttrKey::HttpResponseStatusCode),
        Some(&AttrValue::Int(200))
    );
}

#[test]
fn actions_come_in_order() {
    let inst = Instrumentation::new(Metrics::new());
    let req = request("GET", "/", Headers::new());
    let (mut flow, begin) = inst.begin_with(&req, &TraceContext::empty(), 1, 2, 100);
    assert_eq!(
        begin,
        vec![
            Action::Record(MetricEvent {
                instrument: Instrument::ActiveRequests,
                value: Measurement::Delta(1),
                attributes: base("GET"),
            }),
            Action::Record(MetricEvent {
                instrument: Instrument::RequestSize,
                value: Measurement::Bytes(0),
                attributes: {
                    let mut a = base("GET");
                    a.insert(AttrKey::HttpRoute, AttrValue::text("/"));
                    a
                },
            }),
        ]
    );
    let end = inst.complete(&mut flow, &req, &response(204, BodySize::Empty), 350);
    assert_eq!(end.len(), 4);
    let mut full = base("GET");
    full.insert(AttrKey::HttpRoute, AttrValue::text("/"));
    full.insert(AttrKey::HttpResponseStatusCode, AttrValue::Int(204));
    assert_eq!(
        end[0],
        Action::Record(MetricEvent {
            instrument: Instrument::ActiveRequests,
            value: Measurement::Delta(-1),
            attributes: base("GET"),
        })
    );
    assert_eq!(
        end[1],
        Action::Record(MetricEvent {
            instrument: Instrument::Duration,
            value: Measurement::Nanos(250),
            attributes: full.duplicate(),
        })
    );
    assert_eq!(
        end[2],
        Action::Record(MetricEvent {
            instrument: Instrument::ResponseSize,
            value: Measurement::Bytes(0),
            attributes: full,
        })
    );
    match &end[3] {
        Action::Export(span) => {
            assert_eq!(span.trace_id(), 1);
            assert_eq!(span.span_id(), 2);
            assert_eq!(span.start_time(), 100);
            assert_eq!(span.end_time(), Some(350));
        }
        other => panic!("{:?}", other),
    }
}

#[test]
fn gauge_returns_to_baseline_over_many_requests() {
    let inst = Instrumentation::new(Metrics::new());
    let requests = [
        (request("GET", "/", Headers::new()), response(200, BodySize::Sized(1))),
        (request("POST", "/echo", Headers::new()), response(404, BodySize::Empty)),
        (request("GET", "/random", Headers::new()), response(500, BodySize::Stream)),
        (request("DELETE", "/x", Headers::new()), Completion::Fault("cancelled".to_string())),
        (request("GET", "/", Headers::new()), Completion::Fault("panicked".to_string())),
    ];
    let mut flows: Vec<Flow> = Vec::new();
    let mut log: Vec<Action> = Vec::new();
    for (i, (req, _)) in requests.iter().enumerate() {
        let (flow, actions) = inst.begin(req, i as u64);
        flows.push(flow);
        log.extend(actions);
    }
    assert_eq!(gauge_net(&log), 5);
    for i in [3usize, 0, 4, 1, 2] {
        let (req, completion) = &requests[i];
        log.extend(inst.complete(&mut flows[i], req, completion, 100 + i as u64));
    }
    assert_eq!(gauge_net(&log), 0);
    assert_eq!(exported(&log).len(), 5);

    let ups: Vec<&MetricEvent> = values_of(&log, Instrument::ActiveRequests)
        .into_iter()
        .filter(|e| e.value == Measurement::Delta(1))
        .collect();
    let downs: Vec<&MetricEvent> = values_of(&log, Instrument::ActiveRequests)
        .into_iter()
        .filter(|e| e.value == Measurement::Delta(-1))
        .collect();
    assert_eq!(ups.len(), 5);
    assert_eq!(downs.len(), 5);
    for method in ["GET", "POST", "DELETE"] {
        let up = ups.iter().filter(|e| e.attributes == base(method)).count();
        let down = downs.iter().filter(|e| e.attributes == base(method)).count();
        assert_eq!(up, down, "{}", method);
    }
}

#[test]
fn exactly_one_span_per_request() {
    let inst = Instrumentation::new(Metrics::new());
    let req = request("GET", "/", Headers::new());
    let (mut flow, mut log) = inst.begin(&req, 500);
    let trace_id = flow.trace_info().unwrap().trace_id;
    assert_eq!(flow.trace_info().unwrap().app_root_span.state(), SpanState::Active);
    assert!(!flow.is_completed());
    assert_eq!(flow.started_at(), 500);
    log.extend(inst.complete(&mut flow, &req, &response(200, BodySize::Empty), 900));
    assert!(flow.is_completed());
    let again = inst.complete(&mut flow, &req, &response(500, BodySize::Empty), 950);
    assert!(again.is_empty());
    log.extend(again);
    log.extend(inst.complete(&mut flow, &req, &Completion::Fault("late".to_string()), 990));

    let spans = exported(&log);
    assert_eq!(spans.len(), 1);
    assert_eq!(spans[0].trace_id(), trace_id);
    assert!(spans[0].start_time() <= spans[0].end_time().unwrap());
    assert_eq!(spans[0].end_time(), Some(900));
    assert_eq!(spans[0].status(), SpanStatus::Unset);
    assert_eq!(gauge_net(&log), 0);
    assert_eq!(values_of(&log, Instrument::Duration).len(), 1);
    assert_eq!(&flow.trace_info().unwrap().app_root_span, spans[0]);
}

#[test]
fn valid_trace_header_is_continued() {
    let mut headers = Headers::new();
    headers.insert("TraceParent", "00-4bf92f3577b34da6a3ce929d0e0e4736-00f067aa0ba902b7-01");
    headers.insert("tracestate", "foo=bar");
    assert_eq!(
        extract(&headers),
        TraceContext { trace_id: TRACE_ID, parent_span_id: PARENT_ID, sampled: true }
    );
    let inst = Instrumentation::new(Metrics::new());
    let req = request("GET", "/", headers);
    let (mut flow, _) = inst.begin(&req, 1);
    assert_eq!(flow.trace_info().unwrap().trace_id, TRACE_ID);
    assert_eq!(
        flow.scope().context(),
        TraceContext { trace_id: TRACE_ID, parent_span_id: PARENT_ID, sampled: true }
    );
    let actions = inst.complete(&mut flow, &req, &response(200, BodySize::Empty), 2);
    let spans = exported(&actions);
    assert_eq!(spans[0].trace_id(), TRACE_ID);
    assert_eq!(spans[0].parent_span_id(), PARENT_ID);
    assert_ne!(spans[0].span_id(), PARENT_ID);
}

#[test]
fn unsampled_trace_header_is_continued_unsampled() {
    let mut headers = Headers::new();
    headers.insert("traceparent", "00-4bf92f3577b34da6a3ce929d0e0e4736-00f067aa0ba902b7-00");
    assert_eq!(
        extract(&headers),
        TraceContext { trace_id: TRACE_ID, parent_span_id: PARENT_ID, sampled: false }
    );
}

#[test]
fn missing_or_malformed_trace_header_starts_a_new_trace() {
    assert_eq!(extract(&Headers::new()), TraceContext::empty());
    for bad in [
        "",
        "garbage",
        "00-00000000000000000000000000000000-00f067aa0ba902b7-01",
        "00-4bf92f3577b34da6a3ce929d0e0e4736-0000000000000000-01",
        "00-4BF92F3577B34DA6A3CE929D0E0E4736-00f067aa0ba902b7-01",
        "ff-4bf92f3577b34da6a3ce929d0e0e4736-00f067aa0ba902b7-01",
        "00-4bf92f3577b34da6a3ce929d0e0e4736-00f067aa0ba902b7",
    ] {
        let mut headers = Headers::new();
        headers.insert("traceparent", bad);
        assert_eq!(extract(&headers), TraceContext::empty(), "{:?}", bad);
    }
    let mut opaque = Headers::new();
    opaque.insert_opaque("traceparent");
    assert_eq!(extract(&opaque), TraceContext::empty());

    let inst = Instrumentation::new(Metrics::new());
    let mut with_header = Headers::new();
    with_header.insert("traceparent", "00-4bf92f3577b34da6a3ce929d0e0e4736-00f067aa0ba902b7-01");
    let earlier = request("GET", "/", with_header);
    let (earlier_flow, _) = inst.begin(&earlier, 1);
    assert_eq!(earlier_flow.trace_info().unwrap().trace_id, TRACE_ID);

    let req = request("GET", "/", Headers::new());
    let (first, _) = inst.begin(&req, 2);
    let (second, _) = inst.begin(&req, 3);
    let a = first.trace_info().unwrap().trace_id;
    let b = second.trace_info().unwrap().trace_id;
    assert_ne!(a, TRACE_ID);
    assert_ne!(b, TRACE_ID);
    assert_ne!(a, b);
    assert_eq!(first.trace_info().unwrap().app_root_span.parent_span_id(), 0);
}

#[test]
fn first_of_two_trace_headers_is_the_one_read() {
    let mut headers = Headers::new();
    headers.insert("traceparent", "00-4bf92f3577b34da6a3ce929d0e0e4736-00f067aa0ba902b7-01");
    headers.insert("Traceparent", "00-11111111111111111111111111111111-2222222222222222-01");
    assert_eq!(extract(&headers).trace_id, TRACE_ID);
}

#[test]
fn request_without_length_header_records_size_zero() {
    let inst = Instrumentation::new(Metrics::new());
    let req = request("GET", "/", Headers::new());
    let (flow, begin) = inst.begin(&req, 0);
    assert_eq!(flow.request_size(), 0);
    let sizes = values_of(&begin, Instrument::RequestSize);
    assert_eq!(sizes.len(), 1);
    assert_eq!(sizes[0].value, Measurement::Bytes(0));

    let mut headers = Headers::new();
    headers.insert("content-length", "lots");
    let req = request("POST", "/echo", headers);
    let (_, begin) = inst.begin(&req, 0);
    let sizes = values_of(&begin, Instrument::RequestSize);
    assert_eq!(sizes.len(), 1);
    assert_eq!(sizes[0].value, Measurement::Bytes(0));
}

#[test]
fn fault_still_records() {
    let inst = Instrumentation::new(Metrics::new());
    let mut req = request("GET", "/random", Headers::new());
    req.route = None;
    let (mut flow, begin) = inst.begin(&req, 1_000);
    let end = inst.complete(&mut flow, &req, &Completion::Fault("handler panicked".to_string()), 1_750);

    assert_eq!(gauge_net(&begin), 1);
    assert_eq!(gauge_net(&end), -1);
    let durations = values_of(&end, Instrument::Duration);
    assert_eq!(durations.len(), 1);
    assert_eq!(durations[0].value, Measurement::Nanos(750));
    assert_eq!(
        durations[0].attributes.get(&AttrKey::HttpResponseStatusCode),
        Some(&AttrValue::Int(500))
    );
    assert_eq!(durations[0].attributes.get(&AttrKey::HttpRoute), Some(&AttrValue::text("")));
    let sizes = values_of(&end, Instrument::ResponseSize);
    assert_eq!(sizes.len(), 1);
    assert_eq!(sizes[0].value, Measurement::Bytes(0));

    let spans = exported(&end);
    assert_eq!(spans.len(), 1);
    assert_eq!(spans[0].name(), "GET ");
    assert_eq!(spans[0].state(), SpanState::Closed);
    assert_eq!(spans[0].status(), SpanStatus::Error);
    assert_eq!(spans[0].end_time(), Some(1_750));
    assert_eq!(
        spans[0].attributes().get(&AttrKey::ErrorType),
        Some(&AttrValue::text("handler panicked"))
    );
    assert_eq!(
        spans[0].attributes().get(&AttrKey::HttpResponseStatusCode),
        Some(&AttrValue::Int(500))
    );
    assert_eq!(FAULT_STATUS, 500);
}

#[test]
fn error_response_is_recorded_with_its_status() {
    let inst = Instrumentation::new(Metrics::new());
    let req = request("GET", "/missing", Headers::new());
    let actions = run(&inst, &req, &response(404, BodySize::Sized(9)), 0, 5);
    let spans = exported(&actions);
    assert_eq!(spans[0].status(), SpanStatus::Unset);
    assert_eq!(
        spans[0].attributes().get(&AttrKey::ErrorType),
        Some(&AttrValue::text("404 Not Found"))
    );
    assert_eq!(gauge_net(&actions), 0);
    let actions = run(&inst, &req, &response(502, BodySize::Sized(9)), 0, 5);
    let spans = exported(&actions);
    assert_eq!(spans[0].status(), SpanStatus::Error);
    assert_eq!(
        spans[0].attributes().get(&AttrKey::ErrorType),
        Some(&AttrValue::text("502 Bad Gateway"))
    );
}

#[test]
fn route_is_resolved_from_the_response_first() {
    let inst = Instrumentation::new(Metrics::new());
    let mut req = request("GET", "/users/7", Headers::new());
    req.route = None;
    let completion = Completion::Response(Response {
        status: 200,
        body: BodySize::Stream,
        route: Some("/users/{id}".to_string()),
    });
    assert_eq!(completion.route(&req), "/users/{id}");
    assert_eq!(completion.response_size(), 0);
    assert_eq!(completion.outcome(), Outcome { status_code: 200, error: None });
    let (mut flow, begin) = inst.begin(&req, 0);
    assert_eq!(values_of(&begin, Instrument::RequestSize)[0].attributes.len(), 2);
    let end = inst.complete(&mut flow, &req, &completion, 1);
    assert_eq!(
        values_of(&end, Instrument::Duration)[0].attributes.get(&AttrKey::HttpRoute),
        Some(&AttrValue::text("/users/{id}"))
    );
    assert_eq!(
        exported(&end)[0].attributes().get(&AttrKey::HttpRoute),
        Some(&AttrValue::text("/users/{id}"))
    );
    assert_eq!(exported(&end)[0].name(), "GET ");

    req.route = Some("/early".to_string());
    assert_eq!(response(200, BodySize::Empty).route(&req), "/early");
    assert_eq!(Completion::Fault("x".to_string()).route(&req), "/early");
    assert_eq!(
        Completion::Fault("x".to_string()).outcome(),
        Outcome { status_code: 500, error: Some("x".to_string()) }
    );
    assert_eq!(BodySize::Sized(3).bytes(), 3);
    assert_eq!(BodySize::Empty.bytes(), 0);
    assert_eq!(BodySize::Stream.bytes(), 0);
}

#[test]
fn clock_going_backwards_records_zero_duration() {
    let inst = Instrumentation::new(Metrics::new());
    let req = request("GET", "/", Headers::new());
    let actions = run(&inst, &req, &response(200, BodySize::Empty), 5_000, 4_000);
    assert_eq!(values_of(&actions, Instrument::Duration)[0].value, Measurement::Nanos(0));
    let span = exported(&actions)[0];
    assert_eq!(span.start_time(), 5_000);
    assert_eq!(span.end_time(), Some(5_000));
}

#[test]
fn handler_annotations_reach_the_exported_span() {
    let inst = Instrumentation::new(Metrics::new());
    let req = request("GET", "/", Headers::new());
    let (mut flow, _) = inst.begin(&req, 0);
    assert_eq!(flow.annotate(AttrKey::Custom("tenant".to_string()), AttrValue::Int(7)), Ok(true));
    let end = inst.complete(&mut flow, &req, &response(200, BodySize::Empty), 1);
    let span = exported(&end)[0];
    assert_eq!(span.attributes().entry(0).map(|kv| &kv.key), Some(&AttrKey::Custom("tenant".to_string())));
    assert_eq!(
        span.attributes().get(&AttrKey::Custom("tenant".to_string())),
        Some(&AttrValue::Int(7))
    );
    assert_eq!(flow.annotate(AttrKey::Custom("late".to_string()), AttrValue::Int(1)), Ok(false));
    let none: Result<bool, InvariantViolation> = Ok(false);
    assert_eq!(flow.annotate(AttrKey::HttpRoute, AttrValue::text("/x")), none);
}

#[test]
fn span_is_named_after_method_and_route() {
    let mut req = request("PATCH", "/things/9", Headers::new());
    req.route = Some("/things/{id}".to_string());
    assert_eq!(span_name_of(&req), "PATCH /things/{id}");
    req.route = None;
    assert_eq!(span_name_of(&req), "PATCH ");
    let parent = TraceContext::remote(5, 6, true);
    let span = make_span_with(&req, &parent, 1, 2, 77);
    assert_eq!(span.name(), "PATCH ");
    assert_eq!(span.trace_id(), 5);
    assert_eq!(span.state(), SpanState::Created);

    let mut headers = Headers::new();
    headers.insert("traceparent", "00-4bf92f3577b34da6a3ce929d0e0e4736-00f067aa0ba902b7-01");
    let traced = request("GET", "/", headers);
    let span = make_span(&traced, 3);
    assert_eq!(span.name(), "GET /");
    assert_eq!(span.trace_id(), TRACE_ID);
    assert_eq!(span.parent_span_id(), PARENT_ID);
    assert_eq!(span.start_time(), 3);
}

#[test]
fn scope_opens_ready_for_the_handler_and_closes_once() {
    let mut headers = Headers::new();
    headers.insert("traceparent", "00-4bf92f3577b34da6a3ce929d0e0e4736-00f067aa0ba902b7-01");
    let req = request("GET", "/", headers);
    let mut scope = RequestScope::open(&req, 10);
    assert!(scope.is_started());
    assert_eq!(scope.context().trace_id, TRACE_ID);
    let info = scope.trace_info().unwrap();
    assert_eq!(info.trace_id, TRACE_ID);
    assert_eq!(info.app_root_span.name(), "GET /");
    assert_eq!(info.app_root_span.state(), SpanState::Active);
    assert_eq!(info.app_root_span.parent_span_id(), PARENT_ID);

    let span = scope.close(&req, &response(404, BodySize::Empty), 20).unwrap();
    assert_eq!(span.state(), SpanState::Closed);
    assert_eq!(span.end_time(), Some(20));
    assert_eq!(span.attributes().get(&AttrKey::HttpRoute), Some(&AttrValue::text("/")));
    assert_eq!(
        span.attributes().get(&AttrKey::ErrorType),
        Some(&AttrValue::text("404 Not Found"))
    );
    assert_eq!(scope.close(&req, &Completion::Fault("late".to_string()), 30), None);
    assert_eq!(RequestScope::new().close(&req, &response(200, BodySize::Empty), 5), None);

    let fixed = RequestScope::open_with(&req, &TraceContext::empty(), 8, 9, 1);
    assert_eq!(fixed.trace_info().unwrap().trace_id, 8);
    assert_eq!(fixed.trace_info().unwrap().app_root_span.span_id(), 9);
    assert_eq!(fixed.context(), TraceContext::empty());
}

#[test]
fn elapsed_time_is_never_negative() {
    assert_eq!(elapsed(10, 25), 15);
    assert_eq!(elapsed(25, 25), 0);
    assert_eq!(elapsed(25, 10), 0);
    assert_eq!(elapsed(0, u64::MAX), u64::MAX);
}

#[test]
fn instrumentation_keeps_its_instruments() {
    let inst = Instrumentation::new(Metrics::new());
    assert_eq!(inst.instruments(), &Metrics::new());
}

#[test]
fn request_begins_under_a_context_from_any_format() {
    let mut headers = Headers::new();
    headers.insert("traceparent", "00-4bf92f3577b34da6a3ce929d0e0e4736-00f067aa0ba902b7-01");
    let req = request("GET", "/", headers);
    let decoded_elsewhere = TraceContext::remote(0x51, 0x52, false);
    let inst = Instrumentation::new(Metrics::new());
    let (mut flow, begin) = inst.begin_under(&req, &decoded_elsewhere, 1);
    assert_eq!(begin.len(), 2);
    assert_eq!(flow.scope().context(), decoded_elsewhere);
    let end = inst.complete(&mut flow, &req, &response(200, BodySize::Empty), 2);
    assert_eq!(exported(&end)[0].trace_id(), 0x51);
    assert_eq!(exported(&end)[0].parent_span_id(), 0x52);

    let (flow, _) = inst.begin_under(&req, &TraceContext::empty(), 1);
    assert_ne!(flow.trace_info().unwrap().trace_id, TRACE_ID);
    assert_eq!(flow.trace_info().unwrap().app_root_span.parent_span_id(), 0);

    let scope = RequestScope::open_under(&req, &decoded_elsewhere, 7);
    assert_eq!(scope.trace_info().unwrap().trace_id, 0x51);
    assert_eq!(scope.trace_info().unwrap().app_root_span.start_time(), 7);
}

#[test]
fn configuration_names_the_collector() {
    let config = AppConfig { otel_config: OtelConfig { endpoint: "http://localhost:4317".to_string() } };
    assert_eq!(config.otel_config.endpoint, "http://localhost:4317");
}
