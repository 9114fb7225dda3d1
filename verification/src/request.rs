//! The fluent builder of one request, and the call it ends in.

use vstd::prelude::*;
use core::marker::PhantomData;
use crate::envelope::{concludes, EmptyResponse, Shape};
use crate::errors::RoboltError;
use crate::http::{acknowledged, screened, Exchange, HttpRequest, Method, NoBody};

verus! {

/// A request under construction. Only a client hands one out.
pub struct RequestBuilder<B = NoBody> {
    request: HttpRequest<B>,
}

/// A request that has been issued, together with the shape `R` that its
/// response body is expected to have.
pub struct Call<R, B = NoBody> {
    request: HttpRequest<B>,
    shape: PhantomData<R>,
}

/// The body of a response in the success class, waiting to be decoded as `R`.
/// Only `Call::receive` makes one, so a decoder never sees the body of a
/// failed call.
pub struct Received<R> {
    body: Vec<u8>,
    shape: PhantomData<R>,
}

impl RequestBuilder<NoBody> {
    /// A GET of `url` without a body.
    pub(crate) fn new(url: String) -> (builder: Self)
        ensures
            builder.pending() == HttpRequest::fresh(url),
    {
        RequestBuilder { request: HttpRequest { method: Method::Get, endpoint: url, body: None } }
    }
}

impl<B> RequestBuilder<B> {
    /// The request as it would be issued now.
    pub closed spec fn pending(self) -> HttpRequest<B> {
        self.request
    }

    /// Overrides the method.
    pub fn method(self, method: Method) -> (next: Self)
        ensures
            next.pending() == self.pending().with_method(method),
    {
        let HttpRequest { method: _, endpoint, body } = self.request;
        RequestBuilder { request: HttpRequest { method, endpoint, body } }
    }

    /// Attaches `payload` as the body, in place of any earlier one.
    pub fn body<C>(self, payload: C) -> (next: RequestBuilder<C>)
        ensures
            next.pending() == self.pending().with_body(Some(payload)),
    {
        let HttpRequest { method, endpoint, body: _ } = self.request;
        RequestBuilder { request: HttpRequest { method, endpoint, body: Some(payload) } }
    }

    /// Ends the builder: the call goes out as built, and its response body is
    /// expected to have the shape `R`.
    pub fn send<R>(self) -> (call: Call<R, B>)
        ensures
            call.issued() == self.pending(),
    {
        Call { request: self.request, shape: PhantomData }
    }

    /// Ends the builder for an update: `payload` replaces the body, `None`
    /// meaning no body, and nothing is expected back but success or failure.
    pub fn send_body<T>(self, payload: Option<T>) -> (call: Call<EmptyResponse, T>)
        ensures
            call.issued() == self.pending().with_body(payload),
    {
        let HttpRequest { method, endpoint, body: _ } = self.request;
        Call { request: HttpRequest { method, endpoint, body: payload }, shape: PhantomData }
    }
}

impl<R, B> Call<R, B> {
    /// The request that was issued.
    pub closed spec fn issued(self) -> HttpRequest<B> {
        self.request
    }

    /// The request to hand to the transport.
    pub fn request(&self) -> (req: &HttpRequest<B>)
        ensures
            *req == self.issued(),
    {
        &self.request
    }

    /// Gives up the call for the request it holds.
    pub fn into_request(self) -> (req: HttpRequest<B>)
        ensures
            req == self.issued(),
    {
        self.request
    }
}

impl<R: Shape, B> Call<R, B> {
    /// Judges what the transport reported. A response in the success class
    /// hands out its body for decoding; anything else ends the call with the
    /// error, and no body is handed out.
    pub fn receive(self, exchange: Exchange) -> (out: Result<Received<R>, RoboltError>)
        ensures
            match screened(exchange) {
                Ok(body) => out matches Ok(received) && received.body() == body,
                Err(e) => out == Err::<Received<R>, RoboltError>(e),
            },
    {
        match exchange.screen() {
            Ok(body) => Ok(Received { body, shape: PhantomData }),
            Err(e) => Err(e),
        }
    }
}

impl<R: Shape> Received<R> {
    /// The body as received.
    pub closed spec fn body(self) -> Vec<u8> {
        self.body
    }

    /// The bytes to decode as `R`.
    pub fn bytes(&self) -> (bytes: &Vec<u8>)
        ensures
            *bytes == self.body(),
    {
        &self.body
    }

    /// Ends the call with what the decoder made of the body.
    pub fn finish(self, parsed: Result<R, String>) -> (out: Result<R::Value, RoboltError>)
        ensures
            concludes(parsed, out),
    {
        match parsed {
            Ok(shape) => shape.extract(),
            Err(cause) => Err(RoboltError::Decode { cause }),
        }
    }
}

impl<B> Call<EmptyResponse, B> {
    /// Ends the call with what the transport reported. The body of a
    /// successful response is dropped unread.
    pub fn complete(self, exchange: Exchange) -> (out: Result<(), RoboltError>)
        ensures
            out == acknowledged(exchange),
    {
        exchange.acknowledge()
    }
}

/// A request is a GET until its method is set, whatever body it is given.
pub proof fn lemma_method_defaults_to_get<C>(url: String, payload: Option<C>)
    ensures
        HttpRequest::fresh(url).method == Method::Get,
        HttpRequest::fresh(url).body is None,
        HttpRequest::fresh(url).with_body(payload).method == Method::Get,
{
}

/// Setting the method changes the method and nothing else: the request goes
/// to the same URL with the body that was last set, or with none if none
/// was. Of two methods set the later one counts, of two bodies the later
/// one, and the order in which method and body are set makes no difference.
pub proof fn lemma_method_overrides<B, C>(
    req: HttpRequest<B>,
    first: Method,
    method: Method,
    earlier: Option<C>,
    payload: Option<C>,
)
    ensures
        req.with_method(method).method == method,
        req.with_method(method).endpoint == req.endpoint,
        req.with_method(method).body == req.body,
        req.with_method(first).with_method(method) == req.with_method(method),
        req.with_body(earlier).with_body(payload) == req.with_body(payload),
        req.with_body(payload).with_method(method) == req.with_method(method).with_body(payload),
{
}

/// An update sent without a payload goes out with no body, to the URL and
/// with the method that were set.
pub proof fn lemma_update_without_payload<B>(req: HttpRequest<B>)
    ensures
        req.with_body(None::<B>).body is None,
        req.with_body(None::<B>).method == req.method,
        req.with_body(None::<B>).endpoint == req.endpoint,
{
}

} // verus!
