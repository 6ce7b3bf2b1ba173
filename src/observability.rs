//! The outer stages: request identity, then a span opened around the routed
//! service and closed with the response status; the identifier is echoed back.

use vstd::prelude::*;
use crate::envelope::{
    find_header, first_value, headers_view, opt_string_view, traced_value, HeaderEntry,
    RequestEnvelope, Response,
};
use crate::request_id::{
    ensure_request_id, is_uuid_text, lemma_first_value_push, with_request_id,
};
use crate::route_service_wrap::RouteServiceWrap;
use crate::span::{
    correlation_header, describes, describes_parts, make_span, user_agent_header, SpanRecord,
    SpanState,
};
use vstd::string::StringExecFns;

verus! {

/// The headers a response carries back: the request's correlation identifier,
/// where it has one.
pub open spec fn echoed_headers(hv: Seq<(Seq<char>, Seq<char>)>) -> Seq<(Seq<char>, Seq<char>)> {
    match first_value(hv, correlation_header()) {
        Some(v) => seq![(correlation_header(), v)],
        None => seq![],
    }
}

/// Records the response's status in the span.
pub fn on_response(response: &Response, span: &mut SpanRecord)
    ensures
        *final(span) == (SpanRecord { status_code: Some(response.status), ..*old(span) }),
{
    span.record_status(response.status);
}

/// A routed service made observable.
#[derive(Clone, Debug)]
pub struct ObservableService {
    pub route: RouteServiceWrap,
}

/// Puts the span and identity stages around a routed service.
pub fn make_observable(route: RouteServiceWrap) -> (r: ObservableService)
    ensures
        r.route == route,
{
    ObservableService { route }
}

impl ObservableService {
    /// What serving `req` gives: a greeting that carries the correlation
    /// identifier (the caller's, else a fresh UUID), and one span, closed, that
    /// describes the request as it stood once the identifier was settled.
    pub open spec fn served(&self, req: RequestEnvelope, r: (Response, SpanRecord)) -> bool {
        let hv = headers_view(req.headers@);
        let (resp, span) = r;
        &&& resp.status == 200
        &&& resp.body@ == "hello"@
        &&& resp.headers@.len() == 1
        &&& resp.headers@[0].name@ == correlation_header()
        &&& match first_value(hv, correlation_header()) {
            Some(v) => resp.headers@[0].value@ == v,
            None => {
                &&& is_uuid_text(resp.headers@[0].value@)
                &&& opt_string_view(span.request_correlation_id) == Some(resp.headers@[0].value@)
                &&& opt_string_view(span.response_correlation_id) == Some(resp.headers@[0].value@)
            },
        }
        &&& describes_parts(
            span,
            req.method@,
            req.target@,
            req.version,
            with_request_id(hv, resp.headers@[0].value@),
        )
        &&& opt_string_view(span.user_agent) == traced_value(hv, user_agent_header())
        &&& opt_string_view(span.route) == Some(self.route.route_name())
        &&& span.status_code == Some(200u16)
        &&& span.state == SpanState::Closed
    }

    /// Serves a request whose identity is settled: opens its span, runs the
    /// routed service, records the status, closes the span, and echoes the
    /// correlation header. Returns the response and the closed span.
    pub fn handle(&self, req: RequestEnvelope) -> (r: (Response, SpanRecord))
        ensures
            r.0.status == 200,
            r.0.body@ == "hello"@,
            headers_view(r.0.headers@) == echoed_headers(headers_view(req.headers@)),
            describes(r.1, req),
            opt_string_view(r.1.route) == Some(self.route.route_name()),
            r.1.status_code == Some(200u16),
            r.1.state == SpanState::Closed,
    {
        let ghost req0 = req;
        let mut span = make_span(&req);
        let name = String::from_str("x-correlation-id");
        let echoed = match find_header(&req.headers, &name) {
            Some(i) => Some(req.headers[i].value.clone()),
            None => None,
        };
        let mut resp = self.route.call(req, &mut span);
        on_response(&resp, &mut span);
        span.close();
        match echoed {
            Some(v) => {
                resp.headers.push(HeaderEntry { name, value: v });
            },
            None => {},
        }
        proof {
            assert(headers_view(resp.headers@) =~= echoed_headers(headers_view(req0.headers@)));
        }
        (resp, span)
    }

    /// Serves a request: settles its correlation identifier (the caller's, or a
    /// fresh UUID), then handles it. The response always carries the identifier.
    pub fn call(&self, req: RequestEnvelope) -> (r: (Response, SpanRecord))
        ensures
            self.served(req, r),
    {
        let ghost hv0 = headers_view(req.headers@);
        let mut req = req;
        let id = ensure_request_id(&mut req);
        let r = self.handle(req);
        proof {
            reveal_strlit("user-agent");
            reveal_strlit("x-correlation-id");
            assert(correlation_header()[0] != user_agent_header()[0]);
            lemma_first_value_push(hv0, (correlation_header(), id@), user_agent_header());
            let hv = headers_view(r.0.headers@);
            assert(hv == seq![(correlation_header(), id@)]);
            assert(hv.len() == r.0.headers@.len());
            assert(hv[0] == r.0.headers@[0]@);
        }
        r
    }
}

/// However many requests one service serves, whatever they hold and in
/// whatever order they interleave, each gets its own greeting and its own span,
/// opened for it and closed, with the service's route name and status 200.
pub proof fn lemma_every_call_answered(
    svc: ObservableService,
    reqs: Seq<RequestEnvelope>,
    outs: Seq<(Response, SpanRecord)>,
)
    requires
        reqs.len() == outs.len(),
        forall|i: int| 0 <= i < reqs.len() ==> svc.served(#[trigger] reqs[i], outs[i]),
    ensures
        forall|i: int|
            0 <= i < outs.len() ==> {
                &&& (#[trigger] outs[i]).0.status == 200
                &&& outs[i].0.body@ == "hello"@
                &&& opt_string_view(outs[i].1.route) == Some(svc.route.route_name())
                &&& outs[i].1.status_code == Some(200u16)
                &&& outs[i].1.state == SpanState::Closed
                &&& outs[i].1.method@ == reqs[i].method@
                &&& outs[i].1.target@ == reqs[i].target@
            },
{
    assert forall|i: int| 0 <= i < outs.len() implies {
        &&& (#[trigger] outs[i]).0.status == 200
        &&& outs[i].0.body@ == "hello"@
        &&& opt_string_view(outs[i].1.route) == Some(svc.route.route_name())
        &&& outs[i].1.status_code == Some(200u16)
        &&& outs[i].1.state == SpanState::Closed
        &&& outs[i].1.method@ == reqs[i].method@
        &&& outs[i].1.target@ == reqs[i].target@
    } by {
        assert(svc.served(reqs[i], outs[i]));
    }
}

} // verus!
