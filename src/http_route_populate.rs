//! The route-tag stage: writes the configured route name into the request's
//! span, then hands the request on.

use vstd::prelude::*;
use crate::envelope::{RequestEnvelope, Response};
use crate::route_service_wrap::RouteService;
use crate::span::SpanRecord;
use vstd::string::StringExecFns;

verus! {

/// A route-tag layer for `route`.
pub fn http_route_populate(route: &'static str) -> (r: HttpRoutePopulateLayer)
    ensures
        r.route@ == route@,
{
    HttpRoutePopulateLayer { route }
}

/// Attaches the route-tag stage to a service.
#[derive(Clone, Copy, Debug)]
pub struct HttpRoutePopulateLayer {
    pub route: &'static str,
}

impl HttpRoutePopulateLayer {
    pub fn new(route: &'static str) -> (r: Self)
        ensures
            r.route@ == route@,
    {
        Self { route }
    }

    pub fn layer<S: RouteService>(&self, inner: S) -> (r: HttpRoutePopulateService<S>)
        ensures
            r.inner == inner,
            r.route@ == self.route@,
    {
        HttpRoutePopulateService { inner, route: String::from_str(self.route) }
    }
}

/// The route-tag stage around an inner service.
#[derive(Clone, Debug)]
pub struct HttpRoutePopulateService<S> {
    pub inner: S,
    pub route: String,
}

impl<S: RouteService> RouteService for HttpRoutePopulateService<S> {
    open spec fn answers(&self, req: RequestEnvelope, resp: Response) -> bool {
        self.inner.answers(req, resp)
    }

    /// The route name is written first; the inner service goes on from there.
    open spec fn tags(&self, before: SpanRecord, after: SpanRecord) -> bool {
        self.inner.tags(SpanRecord { route: Some(self.route), ..before }, after)
    }

    /// Records the route name in `span`, then calls the inner service.
    fn call(&self, req: RequestEnvelope, span: &mut SpanRecord) -> (r: Response) {
        span.record_route(&self.route);
        self.inner.call(req, span)
    }
}

} // verus!
