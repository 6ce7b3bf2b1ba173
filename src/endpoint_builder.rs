//! Assembles the greeting endpoint from its stages, innermost last.

use vstd::prelude::*;
use crate::http_route_populate::http_route_populate;
use crate::request::HelloRequestLayer;
use crate::route_service_wrap::RouteServiceWrap;
use crate::service::HelloService;

verus! {

/// The greeting endpoint: route tag "/" around the transform stage around the
/// greeting handler, behind the opaque wrapper.
pub fn build() -> (r: RouteServiceWrap)
    ensures
        r.route_name() == "/"@,
{
    let handler = HelloService::new();
    let transformed = HelloRequestLayer::new().layer(handler);
    let tagged = http_route_populate("/").layer(transformed);
    RouteServiceWrap::new(tagged)
}

} // verus!
