//! What crosses the transport boundary: the description of one request, and
//! what the transport reports back for it.

use vstd::prelude::*;
use crate::errors::{is_success, status_is_success, RoboltError};

verus! {

/// The HTTP methods a request can be issued with.
#[derive(Debug, Clone, Copy, PartialEq, Eq, Structural)]
pub enum Method {
    Get,
    Post,
    Put,
    Patch,
    Delete,
    Head,
    Options,
}

/// The payload type of a request that never carries one.
#[derive(Debug, Clone, Copy, PartialEq, Eq)]
pub struct NoBody;

/// The description of one HTTP call. It is built once and handed to the
/// transport as it is.
#[derive(Debug, Clone, PartialEq)]
pub struct HttpRequest<B = NoBody> {
    /// The method to issue the call with.
    pub method: Method,
    /// The fully-qualified URL.
    pub endpoint: String,
    /// The payload to serialise as the JSON body; `None` sends no body.
    pub body: Option<B>,
}

impl HttpRequest<NoBody> {
    /// The request a builder starts from: a GET of `url` without a body.
    pub open spec fn fresh(url: String) -> HttpRequest<NoBody> {
        HttpRequest { method: Method::Get, endpoint: url, body: None }
    }
}

impl<B> HttpRequest<B> {
    /// This request, issued with `method` instead.
    pub open spec fn with_method(self, method: Method) -> HttpRequest<B> {
        HttpRequest { method, endpoint: self.endpoint, body: self.body }
    }

    /// This request with `body` in place of its own; `None` leaves it
    /// without one.
    pub open spec fn with_body<C>(self, body: Option<C>) -> HttpRequest<C> {
        HttpRequest { method: self.method, endpoint: self.endpoint, body }
    }

    /// Whether this is a request without a body for the URL spelled `url`,
    /// issued with `method`.
    pub open spec fn is_bare(self, method: Method, url: Seq<char>) -> bool {
        &&& self.method == method
        &&& self.endpoint@ == url
        &&& self.body is None
    }
}

/// What the transport reports for one request.
#[derive(Debug, Clone, PartialEq, Eq)]
pub enum Exchange {
    /// The server answered.
    Response { status: u16, body: Vec<u8> },
    /// No response was obtained.
    Failed { cause: String },
}

/// What an exchange means for a call that expects a body: `Ok` holds the
/// bytes to decode, `Err` ends the call. A response outside the success class
/// is an error whatever its body holds, so its body is never decoded.
pub open spec fn screened(exchange: Exchange) -> Result<Vec<u8>, RoboltError> {
    match exchange {
        Exchange::Failed { cause } => Err(RoboltError::Transport { cause }),
        Exchange::Response { status, body } => if is_success(status) {
            Ok(body)
        } else {
            Err(RoboltError::Http { status, body })
        },
    }
}

/// What an exchange means for a call that expects no body: any response in
/// the success class ends it well, and what the body holds is dropped.
pub open spec fn acknowledged(exchange: Exchange) -> Result<(), RoboltError> {
    match screened(exchange) {
        Ok(_) => Ok(()),
        Err(e) => Err(e),
    }
}

impl Exchange {
    /// Judges the exchange for a call that expects a body.
    pub fn screen(self) -> (out: Result<Vec<u8>, RoboltError>)
        ensures
            out == screened(self),
    {
        match self {
            Exchange::Failed { cause } => Err(RoboltError::Transport { cause }),
            Exchange::Response { status, body } => if status_is_success(status) {
                Ok(body)
            } else {
                Err(RoboltError::Http { status, body })
            },
        }
    }

    /// Judges the exchange for a call that expects no body.
    pub fn acknowledge(self) -> (out: Result<(), RoboltError>)
        ensures
            out == acknowledged(self),
    {
        match self.screen() {
            Ok(_) => Ok(()),
            Err(e) => Err(e),
        }
    }
}

/// A response outside the success class ends a call as an HTTP error that
/// holds the status and the body as received, whatever the body is: no body
/// is handed out for decoding.
pub proof fn lemma_failure_status_is_http_error(status: u16, body: Vec<u8>)
    requires
        !is_success(status),
    ensures
        screened(Exchange::Response { status, body }) == Err::<Vec<u8>, RoboltError>(
            RoboltError::Http { status, body },
        ),
        acknowledged(Exchange::Response { status, body }) == Err::<(), RoboltError>(
            RoboltError::Http { status, body },
        ),
{
}

/// A call that expects no body tells success from failure and nothing more:
/// it ends well exactly on a response in the success class, and then the
/// same way whatever the body holds.
pub proof fn lemma_acknowledged_ignores_body(exchange: Exchange)
    ensures
        acknowledged(exchange) is Ok <==> (exchange matches Exchange::Response { status, .. }
            && is_success(status)),
        acknowledged(exchange) is Ok ==> acknowledged(exchange) == Ok::<(), RoboltError>(()),
        acknowledged(exchange) matches Err(e) ==> screened(exchange) == Err::<
            Vec<u8>,
            RoboltError,
        >(e),
{
}

} // verus!
