//! The request-transform stage: turns the inbound request into the narrow
//! request a handler takes, and turns the handler's result, answer or failure,
//! into one response.

use vstd::prelude::*;
use crate::envelope::{RequestEnvelope, Response};
use crate::route_service_wrap::RouteService;
use crate::service::{text_response, HandlerError};
use crate::span::SpanRecord;

verus! {

/// What the greeting handler needs of a request: nothing.
#[derive(Clone, Copy, Debug)]
pub struct HelloRequest {}

/// What a handler gives for a narrow request: text for a 200 response, or a
/// failure's status and message.
pub enum HandlerOutcome {
    Answer(Seq<char>),
    Failure(u16, Seq<char>),
}

/// A terminal handler of narrow requests.
pub trait HelloHandler: Sized {
    /// What the handler gives; the narrow request holds nothing to vary it.
    spec fn outcome(&self) -> HandlerOutcome;

    fn call(&self, req: HelloRequest) -> (r: Result<&'static str, HandlerError>)
        ensures
            match r {
                Ok(text) => self.outcome() == HandlerOutcome::Answer(text@),
                Err(e) => self.outcome() == HandlerOutcome::Failure(e.status, e.message@),
            },
    ;
}

/// The response a handler's outcome becomes.
pub open spec fn outcome_response(o: HandlerOutcome, resp: Response) -> bool {
    &&& resp.headers@.len() == 0
    &&& match o {
        HandlerOutcome::Answer(text) => resp.status == 200 && resp.body@ == text,
        HandlerOutcome::Failure(status, message) => resp.status == status && resp.body@ == message,
    }
}

/// The transform stage around a handler.
#[derive(Clone, Copy, Debug)]
pub struct HelloRequestService<S> {
    pub inner: S,
}

impl<S: HelloHandler> HelloRequestService<S> {
    /// Builds the narrow request (the envelope's content is not read), calls
    /// the handler and turns its result, answer or failure, into a response.
    pub fn respond(&self, req: &RequestEnvelope) -> (r: Response)
        ensures
            outcome_response(self.inner.outcome(), r),
    {
        let hr = HelloRequest {};
        match self.inner.call(hr) {
            Ok(text) => text_response(text),
            Err(err) => err.into_response(),
        }
    }
}

impl<S: HelloHandler> RouteService for HelloRequestService<S> {
    open spec fn answers(&self, req: RequestEnvelope, resp: Response) -> bool {
        outcome_response(self.inner.outcome(), resp)
    }

    /// The span is left as it was.
    open spec fn tags(&self, before: SpanRecord, after: SpanRecord) -> bool {
        after == before
    }

    fn call(&self, req: RequestEnvelope, span: &mut SpanRecord) -> (r: Response) {
        self.respond(&req)
    }
}

/// Attaches the transform stage to a handler.
#[derive(Clone, Copy, Debug)]
pub struct HelloRequestLayer {}

impl HelloRequestLayer {
    pub fn new() -> (r: HelloRequestLayer) {
        HelloRequestLayer {}
    }

    pub fn layer<S: HelloHandler>(&self, inner: S) -> (r: HelloRequestService<S>)
        ensures
            r.inner == inner,
    {
        HelloRequestService { inner }
    }
}

} // verus!
