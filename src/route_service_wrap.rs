//! The opaque handle over a composed endpoint: callers see a service that takes
//! a request and a span and answers, and not the stages inside it.

use vstd::prelude::*;
use crate::envelope::{RequestEnvelope, Response};
use crate::http_route_populate::HttpRoutePopulateService;
use crate::request::HelloRequestService;
use crate::service::HelloService;
use crate::span::SpanRecord;

verus! {

/// A stage that takes an inbound request and the request's open span and
/// answers with a response, possibly writing fields of the span.
pub trait RouteService: Sized {
    /// Whether `resp` is this service's answer to `req`.
    spec fn answers(&self, req: RequestEnvelope, resp: Response) -> bool;

    /// Whether `after` is the span this service leaves, given `before`.
    spec fn tags(&self, before: SpanRecord, after: SpanRecord) -> bool;

    fn call(&self, req: RequestEnvelope, span: &mut SpanRecord) -> (r: Response)
        ensures
            self.answers(req, r),
            self.tags(*old(span), *final(span)),
    ;
}

/// A routable service; cloning it shares the same immutable pipeline.
#[derive(Clone, Debug)]
pub struct RouteServiceWrap {
    inner: HttpRoutePopulateService<HelloRequestService<HelloService>>,
}

impl RouteServiceWrap {
    /// The route name the wrapped pipeline records.
    pub closed spec fn route_name(&self) -> Seq<char> {
        self.inner.route@
    }

    pub fn new(inner: HttpRoutePopulateService<HelloRequestService<HelloService>>) -> (r: Self)
        ensures
            r.route_name() == inner.route@,
    {
        RouteServiceWrap { inner }
    }

    /// Calls the wrapped pipeline, adding nothing of its own.
    pub fn call(&self, req: RequestEnvelope, span: &mut SpanRecord) -> (r: Response)
        ensures
            final(span).route is Some,
            final(span).route.unwrap()@ == self.route_name(),
            *final(span) == (SpanRecord { route: final(span).route, ..*old(span) }),
            r.status == 200,
            r.body@ == "hello"@,
            r.headers@.len() == 0,
    {
        let r = self.inner.call(req, span);
        proof {
            assert(final(span).route == Some(self.inner.route));
        }
        r
    }
}

} // verus!
