//! The terminal handler: answers every narrow request with a greeting.

use vstd::prelude::*;
use crate::envelope::{HeaderEntry, Response};
use crate::request::{HandlerOutcome, HelloHandler, HelloRequest};
use vstd::string::StringExecFns;

verus! {

/// A failure a handler may report; it becomes a response with its status.
pub struct HandlerError {
    pub status: u16,
    pub message: String,
}

impl HandlerError {
    /// The response that reports this failure.
    pub fn into_response(self) -> (r: Response)
        ensures
            r.status == self.status,
            r.body@ == self.message@,
            r.headers@.len() == 0,
    {
        Response { status: self.status, body: self.message, headers: Vec::new() }
    }
}

/// The response a handler's text answer becomes: status 200 with the text as body.
pub fn text_response(text: &str) -> (r: Response)
    ensures
        r.status == 200,
        r.body@ == text@,
        r.headers@.len() == 0,
{
    let headers: Vec<HeaderEntry> = Vec::new();
    Response { status: 200, body: String::from_str(text), headers }
}

/// The greeting handler. It holds no state.
#[derive(Clone, Copy, Debug)]
pub struct HelloService {}

impl HelloService {
    pub fn new() -> (r: HelloService) {
        HelloService {}
    }
}

impl HelloHandler for HelloService {
    open spec fn outcome(&self) -> HandlerOutcome {
        HandlerOutcome::Answer("hello"@)
    }

    /// Answers with the text "hello"; it never fails.
    fn call(&self, req: HelloRequest) -> (r: Result<&'static str, HandlerError>) {
        Ok("hello")
    }
}

} // verus!
