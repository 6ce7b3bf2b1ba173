use hello_pipeline::endpoint_builder::build;
use hello_pipeline::envelope::{
    find_header, header_value_for_tracing, is_visible_text, to_flavor, HeaderEntry, HttpVersion,
    RequestEnvelope,
};
use hello_pipeline::http_route_populate::{http_route_populate, HttpRoutePopulateLayer};
use hello_pipeline::observability::{make_observable, ObservableService};
use hello_pipeline::request::{HelloHandler, HelloRequest, HelloRequestLayer, HelloRequestService};
use hello_pipeline::route_service_wrap::RouteService;
use hello_pipeline::service::{HandlerError, HelloService};
use hello_pipeline::span::{make_span, SpanState};
use std::collections::HashSet;

fn header(name: &str, value: &str) -> HeaderEntry {
    HeaderEntry { name: name.to_string(), value: value.to_string() }
}

fn get_root(headers: Vec<HeaderEntry>) -> RequestEnvelope {
    RequestEnvelope {
        method: "GET".to_string(),
        target: "/".to_string(),
        version: HttpVersion::Http11,
        headers,
    }
}

fn service() -> ObservableService {
    make_observable(build())
}

fn is_uuid_text(s: &str) -> bool {
    let chars: Vec<char> = s.chars().collect();
    chars.len() == 36
        && chars.iter().enumerate().all(|(i, c)| {
            if i == 8 || i == 13 || i == 18 || i == 23 {
                *c == '-'
            } else {
                c.is_ascii_digit() || ('a'..='f').contains(c)
            }
        })
}

#[test]
fn greeting_for_every_request() {
    let svc = service();
    let mut req = get_root(vec![header("accept", "*/*")]);
    req.method = "POST".to_string();
    req.target = "/?q=1".to_string();
    let (resp, span) = svc.call(req);
    assert_eq!(resp.status, 200);
    assert_eq!(resp.body, "hello");
    assert_eq!(span.method, "POST");
    assert_eq!(span.target, "/?q=1");
}

#[test]
fn supplied_correlation_id_is_echoed() {
    let svc = service();
    let (resp, span) = svc.call(get_root(vec![header("x-correlation-id", "abc-123")]));
    assert_eq!(resp.status, 200);
    assert_eq!(resp.headers.len(), 1);
    assert_eq!(resp.headers[0].name, "x-correlation-id");
    assert_eq!(resp.headers[0].value, "abc-123");
    assert_eq!(span.status_code, Some(200));
    assert_eq!(span.route.as_deref(), Some("/"));
    assert_eq!(span.request_correlation_id.as_deref(), Some("abc-123"));
    assert_eq!(span.response_correlation_id.as_deref(), Some("abc-123"));
    assert_eq!(span.state, SpanState::Closed);
}

#[test]
fn missing_correlation_id_gets_fresh_uuid() {
    let svc = service();
    let (resp, span) = svc.call(get_root(vec![]));
    assert_eq!(resp.headers.len(), 1);
    assert_eq!(resp.headers[0].name, "x-correlation-id");
    let id = resp.headers[0].value.clone();
    assert!(!id.is_empty());
    assert_ne!(id, "abc-123");
    assert!(is_uuid_text(&id));
    assert_eq!(span.request_correlation_id.as_deref(), Some(id.as_str()));
    assert_eq!(span.response_correlation_id.as_deref(), Some(id.as_str()));
}

#[test]
fn generated_ids_are_unique() {
    let svc = service();
    let mut seen: HashSet<String> = HashSet::new();
    for _ in 0..1000 {
        let (resp, _) = svc.call(get_root(vec![]));
        assert!(seen.insert(resp.headers[0].value.clone()));
    }
    assert_eq!(seen.len(), 1000);
}

#[test]
fn one_closed_span_per_request() {
    let svc = service();
    for i in 0..100 {
        let target = format!("/?n={}", i);
        let mut req = get_root(vec![]);
        req.target = target.clone();
        let (resp, span) = svc.call(req);
        assert_eq!(resp.status, 200);
        assert_eq!(resp.body, "hello");
        assert_eq!(span.state, SpanState::Closed);
        assert_eq!(span.target, target);
        assert_eq!(span.status_code, Some(200));
    }
}

#[test]
fn cloned_service_answers_many_calls() {
    let svc = service();
    let copies: Vec<ObservableService> = (0..100).map(|_| svc.clone()).collect();
    for copy in &copies {
        let (resp, span) = copy.call(get_root(vec![header("x-correlation-id", "same")]));
        assert_eq!(resp.status, 200);
        assert_eq!(resp.body, "hello");
        assert_eq!(resp.headers[0].value, "same");
        assert_eq!(span.route.as_deref(), Some("/"));
    }
}

#[test]
fn route_name_independent_of_request() {
    let svc = service();
    let mut req = get_root(vec![header("user-agent", "curl/8.0")]);
    req.target = "/other".to_string();
    let (_, span) = svc.call(req);
    assert_eq!(span.route.as_deref(), Some("/"));
    assert_eq!(span.user_agent.as_deref(), Some("curl/8.0"));
}

#[test]
fn span_fixed_attributes() {
    let (_, span) = service().call(get_root(vec![]));
    assert_eq!(span.kind, "server");
    assert_eq!(span.host_name, "localhost");
    assert_eq!(span.host_port, 8080);
    assert_eq!(span.scheme, "http");
    assert_eq!(span.flavor, Some("1.1"));
    assert_eq!(span.request_content_length, None);
    assert_eq!(span.response_content_length, None);
    assert_eq!(span.user_agent, None);
}

#[test]
fn flavor_labels() {
    assert_eq!(to_flavor(HttpVersion::Http09), Some("0.9"));
    assert_eq!(to_flavor(HttpVersion::Http10), Some("1.0"));
    assert_eq!(to_flavor(HttpVersion::Http11), Some("1.1"));
    assert_eq!(to_flavor(HttpVersion::Http2), Some("2.0"));
    assert_eq!(to_flavor(HttpVersion::Http3), Some("3.0"));
    assert_eq!(to_flavor(HttpVersion::Unknown), None);
}

#[test]
fn unknown_version_has_no_flavor_in_span() {
    let mut req = get_root(vec![]);
    req.version = HttpVersion::Unknown;
    let (_, span) = service().call(req);
    assert_eq!(span.flavor, None);
}

#[test]
fn handle_without_identifier_echoes_nothing() {
    let (resp, span) = service().handle(get_root(vec![]));
    assert_eq!(resp.status, 200);
    assert!(resp.headers.is_empty());
    assert_eq!(span.request_correlation_id, None);
    assert_eq!(span.state, SpanState::Closed);
}

#[test]
fn tracing_reads_first_textual_value() {
    let hs = vec![
        header("user-agent", "first"),
        header("x-correlation-id", "id\twith tab"),
        header("user-agent", "second"),
    ];
    let ua = "user-agent".to_string();
    let cid = "x-correlation-id".to_string();
    assert_eq!(header_value_for_tracing(&hs, &ua).as_deref(), Some("first"));
    assert_eq!(header_value_for_tracing(&hs, &cid).as_deref(), Some("id\twith tab"));
    assert_eq!(header_value_for_tracing(&hs, &"accept".to_string()), None);
    assert_eq!(find_header(&hs, &ua), Some(0));
    assert_eq!(find_header(&hs, &cid), Some(1));
    assert_eq!(find_header(&hs, &"accept".to_string()), None);
}

#[test]
fn tracing_skips_non_text_value() {
    let hs = vec![header("user-agent", "bad\u{1}agent"), header("user-agent", "good")];
    assert_eq!(header_value_for_tracing(&hs, &"user-agent".to_string()), None);
    let hs = vec![header("user-agent", "caf\u{e9}")];
    assert_eq!(header_value_for_tracing(&hs, &"user-agent".to_string()), None);
}

#[test]
fn visible_text_check() {
    assert!(is_visible_text(&"".to_string()));
    assert!(is_visible_text(&" ~\t".to_string()));
    assert!(!is_visible_text(&"a\u{7f}".to_string()));
    assert!(!is_visible_text(&"\n".to_string()));
}

#[test]
fn non_text_correlation_id_is_echoed_but_not_traced() {
    let (resp, span) = service().call(get_root(vec![header("x-correlation-id", "a\u{1}b")]));
    assert_eq!(resp.headers.len(), 1);
    assert_eq!(resp.headers[0].value, "a\u{1}b");
    assert_eq!(span.request_correlation_id, None);
}

#[test]
fn stages_compose_by_hand() {
    let handler = HelloService::new();
    assert_eq!(handler.call(HelloRequest {}).ok(), Some("hello"));
    let transformed: HelloRequestService<HelloService> = HelloRequestLayer::new().layer(handler);
    let resp = transformed.respond(&get_root(vec![]));
    assert_eq!((resp.status, resp.body.as_str()), (200, "hello"));
    let layer = HttpRoutePopulateLayer::new("/greeting");
    assert_eq!(layer.route, "/greeting");
    let tagged = layer.layer(transformed);
    let req = get_root(vec![]);
    let mut span = make_span(&req);
    assert_eq!(span.route, None);
    assert_eq!(span.state, SpanState::Open);
    let resp = tagged.call(req, &mut span);
    assert_eq!(resp.body, "hello");
    assert_eq!(span.route.as_deref(), Some("/greeting"));
    assert_eq!(http_route_populate("/").route, "/");
}

#[test]
fn handler_error_becomes_response() {
    let err = HandlerError { status: 400, message: "bad request".to_string() };
    let resp = err.into_response();
    assert_eq!(resp.status, 400);
    assert_eq!(resp.body, "bad request");
    assert!(resp.headers.is_empty());
}

#[test]
fn transform_stage_leaves_span_untouched() {
    let transformed = HelloRequestLayer::new().layer(HelloService::new());
    let req = get_root(vec![header("user-agent", "ua")]);
    let mut span = make_span(&req);
    let before = span.clone();
    let resp = transformed.call(req, &mut span);
    assert_eq!(resp.status, 200);
    assert_eq!(resp.body, "hello");
    assert_eq!(span.route, before.route);
    assert_eq!(span.user_agent, before.user_agent);
    assert_eq!(span.state, SpanState::Open);
}
