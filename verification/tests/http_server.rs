use agentic_server::telemetry::headers::HeaderCarrier;
use agentic_server::telemetry::http_server::{
    poll_frame, protocol_version, span_name, track_request, Attribute, AttributeValue, BodyPoll,
    Effect, KnownMethod, RequestGuard, ServerSpan, SpanOutcome, Version,
};
use agentic_server::telemetry::metrics::HttpInstruments;
use http::Method;

fn text(key: &'static str, value: &str) -> Attribute {
    Attribute {
        key,
        value: AttributeValue::Text(value.to_string()),
    }
}

fn integer(key: &'static str, value: i64) -> Attribute {
    Attribute {
        key,
        value: AttributeValue::Integer(value),
    }
}

fn active(method: &str) -> Vec<Attribute> {
    vec![
        text("http.request.method", method),
        text("url.scheme", "http"),
    ]
}

#[test]
fn methods_are_bounded_labels() {
    assert_eq!(KnownMethod::from(Method::GET.as_str()).as_str(), "GET");
    assert_eq!(KnownMethod::from(Method::POST.as_str()).as_str(), "POST");
    let custom = Method::from_bytes(b"PURGE").unwrap();
    assert_eq!(KnownMethod::from(custom.as_str()).as_str(), "_OTHER");
}

#[test]
fn span_name_follows_semantic_conventions() {
    assert_eq!(
        span_name(KnownMethod::Post, Some("/v1/responses")),
        "POST /v1/responses"
    );
    assert_eq!(span_name(KnownMethod::Get, None), "GET");
}

#[test]
fn protocol_versions_are_short_strings() {
    assert_eq!(protocol_version(Version::Http11), "1.1");
    assert_eq!(protocol_version(Version::Http2), "2");
}

#[test]
fn every_well_known_method_keeps_its_name() {
    for method in [
        Method::CONNECT,
        Method::DELETE,
        Method::GET,
        Method::HEAD,
        Method::OPTIONS,
        Method::PATCH,
        Method::POST,
        Method::PUT,
        Method::TRACE,
    ] {
        let label = KnownMethod::from(method.as_str());
        assert_eq!(label.as_str(), method.as_str());
        assert_eq!(KnownMethod::from(label.as_str()), label);
    }
    assert_eq!(KnownMethod::from("_OTHER"), KnownMethod::Other);
    assert_eq!(KnownMethod::from("get"), KnownMethod::Other);
    assert_eq!(KnownMethod::from(""), KnownMethod::Other);
}

#[test]
fn every_protocol_version_has_a_label() {
    assert_eq!(protocol_version(Version::Http09), "0.9");
    assert_eq!(protocol_version(Version::Http10), "1.0");
    assert_eq!(protocol_version(Version::Http3), "3");
    assert_eq!(protocol_version(Version::Unknown), "unknown");
}

#[test]
fn a_span_opens_with_bounded_fields() {
    let span = ServerSpan::open(KnownMethod::Post, Version::Http2, Some("/v1/responses"));
    assert_eq!(span.name, "POST /v1/responses");
    assert_eq!(span.kind, "server");
    assert_eq!(span.method, "POST");
    assert_eq!(span.scheme, "http");
    assert_eq!(span.protocol_version, "2");
    assert_eq!(span.route.as_deref(), Some("/v1/responses"));

    let unmatched = ServerSpan::open(KnownMethod::Other, Version::Http11, None);
    assert_eq!(unmatched.name, "_OTHER");
    assert_eq!(unmatched.route, None);
}

#[test]
fn an_answered_request_is_recorded_once() {
    let mut request = track_request("GET", Version::Http11, Some("/hang"));
    assert_eq!(request.span.name, "GET /hang");
    assert_eq!(
        request.effects,
        vec![Effect::ActiveRequests(1, active("GET"))]
    );

    assert_eq!(
        request.responded(200),
        vec![Effect::Span(integer("http.response.status_code", 200))]
    );
    assert_eq!(poll_frame(BodyPoll::Pending), Vec::new());
    assert_eq!(poll_frame(BodyPoll::Frame), Vec::new());
    assert_eq!(poll_frame(BodyPoll::Ended), Vec::new());

    let mut attributes = active("GET");
    attributes.push(text("http.route", "/hang"));
    attributes.push(integer("http.response.status_code", 200));
    assert_eq!(
        request.finish(true),
        vec![
            Effect::ActiveRequests(-1, active("GET")),
            Effect::Duration(attributes),
        ]
    );
}

#[test]
fn a_server_error_marks_the_span() {
    for (status, marked) in [
        (499, false),
        (500, true),
        (503, true),
        (599, true),
        (600, false),
    ] {
        let (mut guard, _) = RequestGuard::start(KnownMethod::Get, None);
        let mut expected = vec![Effect::Span(integer(
            "http.response.status_code",
            i64::from(status),
        ))];
        if marked {
            expected.push(Effect::Span(text("otel.status_code", "ERROR")));
        }
        assert_eq!(guard.responded(status), expected);
        assert_eq!(guard.status, Some(status));
    }
}

#[test]
fn a_panicking_handler_marks_the_span() {
    let request = track_request("PURGE", Version::Http11, None);
    assert_eq!(
        request.finish(true),
        vec![
            Effect::Span(text("otel.status_code", "ERROR")),
            Effect::Span(text("error.type", "handler_panic")),
            Effect::ActiveRequests(-1, active("_OTHER")),
            Effect::Duration(active("_OTHER")),
        ]
    );
}

#[test]
fn a_cancelled_request_is_labelled_and_not_an_error() {
    let request = track_request("POST", Version::Http11, None);
    assert_eq!(
        request.finish(false),
        vec![
            Effect::Span(text("error.type", "cancelled")),
            Effect::ActiveRequests(-1, active("POST")),
            Effect::Duration(active("POST")),
        ]
    );
}

#[test]
fn a_failed_body_marks_the_span() {
    assert_eq!(
        poll_frame(BodyPoll::Failed),
        vec![
            Effect::Span(text("otel.status_code", "ERROR")),
            Effect::Span(text("error.type", "response_body")),
        ]
    );
}

#[test]
fn a_completed_outcome_records_nothing() {
    for panicking in [true, false] {
        let mut outcome = SpanOutcome::pending();
        outcome.completed();
        assert_eq!(outcome.finish(panicking), Vec::new());
    }
}

#[test]
fn the_instruments_follow_the_conventions() {
    let instruments = HttpInstruments::new();
    assert_eq!(instruments.duration.name, "http.server.request.duration");
    assert_eq!(instruments.duration.unit, "s");
    assert_eq!(instruments.active.name, "http.server.active_requests");
    assert_eq!(instruments.active.unit, "{request}");
    let seconds: Vec<f64> = instruments
        .duration_boundaries
        .iter()
        .map(|boundary| f64::from(*boundary) / 1000.0)
        .collect();
    assert_eq!(
        seconds,
        vec![
            0.005, 0.01, 0.025, 0.05, 0.075, 0.1, 0.25, 0.5, 0.75, 1.0, 2.5, 5.0, 7.5, 10.0, 30.0,
            60.0, 120.0, 300.0,
        ]
    );
}

#[test]
fn long_header_names_are_read_in_any_case() {
    let name = "X-Long-".repeat(12);
    let mut headers = http::HeaderMap::new();
    headers.insert(
        http::HeaderName::from_bytes(name.as_bytes()).unwrap(),
        http::HeaderValue::from_static("long"),
    );
    let carrier = HeaderCarrier { headers: &headers };
    assert_eq!(carrier.get(&name), Some("long"));
    assert_eq!(carrier.get(&name.to_lowercase()), Some("long"));
    assert_eq!(carrier.get(&name[1..]), None);
    assert_eq!(carrier.keys(), vec![name.to_lowercase()]);
}

#[test]
fn keys_that_are_no_names_find_nothing_unless_they_are_long() {
    let mut headers = http::HeaderMap::new();
    headers.insert(
        http::HeaderName::from_static("a\"b"),
        http::HeaderValue::from_static("quoted"),
    );
    headers.insert(
        "a name of more than sixty-four bytes is not checked when it is inserted",
        http::HeaderValue::from_static("long"),
    );
    let carrier = HeaderCarrier { headers: &headers };
    assert_eq!(carrier.get("a\"b"), None);
    assert_eq!(carrier.get("a name"), None);
    assert_eq!(carrier.get("\u{e9}"), None);
    assert_eq!(
        carrier.get("A/name/of/more/than/sixty-four/bytes/is/not/checked/when/it/is/inserted"),
        Some("long")
    );
    assert_eq!(carrier.get(&"a ".repeat(40_000)), None);
}

#[test]
fn headers_are_read_by_name() {
    let mut headers = http::HeaderMap::new();
    headers.insert(
        "traceparent",
        http::HeaderValue::from_static("00-4bf92f3577b34da6a3ce929d0e0e4736-00f067aa0ba902b7-01"),
    );
    headers.append("x-many", http::HeaderValue::from_static("first"));
    headers.append("x-many", http::HeaderValue::from_static("second"));
    headers.insert(
        "x-binary",
        http::HeaderValue::from_bytes(b"caf\xc3\xa9").unwrap(),
    );
    headers.insert("x-tab", http::HeaderValue::from_static("a\tb"));
    let carrier = HeaderCarrier { headers: &headers };

    let traceparent = Some("00-4bf92f3577b34da6a3ce929d0e0e4736-00f067aa0ba902b7-01");
    assert_eq!(carrier.get("traceparent"), traceparent);
    assert_eq!(carrier.get("TraceParent"), traceparent);
    assert_eq!(carrier.get("x-many"), Some("first"));
    assert_eq!(carrier.get("x-binary"), None);
    assert_eq!(carrier.get("x-tab"), Some("a\tb"));
    assert_eq!(carrier.get("tracestate"), None);
    assert_eq!(carrier.get("not a name"), None);
    let long = "x".repeat(70);
    assert_eq!(carrier.get(&long), None);
    assert_eq!(carrier.get(""), None);

    let mut keys = carrier.keys();
    keys.sort();
    assert_eq!(keys, vec!["traceparent", "x-binary", "x-many", "x-tab"]);
}
