//! The record a tracing span keeps of one request: attributes set when it
//! opens, fields filled in later, and its lifecycle.

use vstd::prelude::*;
use crate::envelope::{
    flavor_label, header_value_for_tracing, headers_view, opt_str_view, opt_string_view,
    to_flavor, traced_value, HttpVersion, RequestEnvelope,
};
use vstd::string::StringExecFns;

verus! {

/// Whether a span is still collecting fields or has been closed.
#[derive(Clone, Copy, PartialEq, Eq, Structural, Debug)]
pub enum SpanState {
    Open,
    Closed,
}

/// One request's span.
#[derive(Clone, Debug)]
pub struct SpanRecord {
    pub kind: &'static str,
    pub method: String,
    pub target: String,
    pub flavor: Option<&'static str>,
    pub user_agent: Option<String>,
    pub request_correlation_id: Option<String>,
    pub response_correlation_id: Option<String>,
    pub request_content_length: Option<u64>,
    pub response_content_length: Option<u64>,
    pub route: Option<String>,
    pub status_code: Option<u16>,
    pub host_name: &'static str,
    pub host_port: u16,
    pub scheme: &'static str,
    pub state: SpanState,
}

pub open spec fn correlation_header() -> Seq<char> {
    "x-correlation-id"@
}

pub open spec fn user_agent_header() -> Seq<char> {
    "user-agent"@
}

/// The attributes a span takes, when it opens, from a request with this
/// method, target, protocol version and headers, and from the service.
pub open spec fn describes_parts(
    s: SpanRecord,
    method: Seq<char>,
    target: Seq<char>,
    version: HttpVersion,
    hv: Seq<(Seq<char>, Seq<char>)>,
) -> bool {
    &&& s.kind@ == "server"@
    &&& s.method@ == method
    &&& s.target@ == target
    &&& opt_str_view(s.flavor) == flavor_label(version)
    &&& opt_string_view(s.user_agent) == traced_value(hv, user_agent_header())
    &&& opt_string_view(s.request_correlation_id) == traced_value(hv, correlation_header())
    &&& opt_string_view(s.response_correlation_id) == traced_value(hv, correlation_header())
    &&& s.request_content_length is None
    &&& s.response_content_length is None
    &&& s.host_name@ == "localhost"@
    &&& s.host_port == 8080
    &&& s.scheme@ == "http"@
}

/// The attributes a span takes from `req` when it opens.
pub open spec fn describes(s: SpanRecord, req: RequestEnvelope) -> bool {
    describes_parts(s, req.method@, req.target@, req.version, headers_view(req.headers@))
}

/// Opens the span of a request; route and response fields stay empty.
pub fn make_span(request: &RequestEnvelope) -> (s: SpanRecord)
    ensures
        describes(s, *request),
        s.route is None,
        s.status_code is None,
        s.state == SpanState::Open,
{
    let ua_name = String::from_str("user-agent");
    let cid_name = String::from_str("x-correlation-id");
    SpanRecord {
        kind: "server",
        method: request.method.clone(),
        target: request.target.clone(),
        flavor: to_flavor(request.version),
        user_agent: header_value_for_tracing(&request.headers, &ua_name),
        request_correlation_id: header_value_for_tracing(&request.headers, &cid_name),
        response_correlation_id: header_value_for_tracing(&request.headers, &cid_name),
        request_content_length: None,
        response_content_length: None,
        route: None,
        status_code: None,
        host_name: "localhost",
        host_port: 8080,
        scheme: "http",
        state: SpanState::Open,
    }
}

impl SpanRecord {
    /// Sets the route-name field.
    pub fn record_route(&mut self, route: &String)
        ensures
            *final(self) == (SpanRecord { route: Some(*route), ..*old(self) }),
    {
        self.route = Some(route.clone());
    }

    /// Sets the status-code field.
    pub fn record_status(&mut self, status: u16)
        ensures
            *final(self) == (SpanRecord { status_code: Some(status), ..*old(self) }),
    {
        self.status_code = Some(status);
    }

    /// Closes an open span; a span is closed once.
    pub fn close(&mut self)
        requires
            old(self).state == SpanState::Open,
        ensures
            *final(self) == (SpanRecord { state: SpanState::Closed, ..*old(self) }),
    {
        self.state = SpanState::Closed;
    }
}

} // verus!
