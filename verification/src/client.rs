//! The client handle. Its type parameter says whether it holds a session, so
//! that what needs one cannot be asked of a client without one.

use vstd::prelude::*;
use vstd::string::StringExecFns;
use crate::http::{HttpRequest, Method};
use crate::request::RequestBuilder;
use crate::text::{decimal, push_decimal};

verus! {

/// The base URL of each service, without a trailing slash.
#[derive(Debug, Clone, PartialEq, Eq, Default)]
pub struct Endpoints {
    pub base: String,
    pub badges: String,
    pub friends: String,
    pub points: String,
    pub users: String,
    pub web: String,
}

/// The state of a client that holds no session.
#[derive(Debug, Clone, Copy, PartialEq, Eq, Default)]
pub struct Anonymous;

/// The state of a client that holds a session. Only `authenticate` and
/// `with_session` make one.
#[derive(Debug, Clone, PartialEq, Eq)]
pub struct Authenticated {
    session: String,
}

/// The client: the host table, and the session where `State` is
/// `Authenticated`. Nothing in it changes after construction.
#[derive(Debug, Clone)]
pub struct Robolt<State = Anonymous> {
    endpoints: Endpoints,
    state: State,
}

impl Robolt<Anonymous> {
    /// A client without a session.
    pub fn new(endpoints: Endpoints) -> (client: Self)
        ensures
            client.endpoints() == endpoints,
    {
        Robolt { endpoints, state: Anonymous }
    }

    /// Takes up a session: the same hosts, now with `session`.
    pub fn authenticate(self, session: String) -> (client: Robolt<Authenticated>)
        ensures
            client.endpoints() == self.endpoints(),
            client.credential() == session,
    {
        Robolt { endpoints: self.endpoints, state: Authenticated { session } }
    }
}

impl Robolt<Authenticated> {
    /// A client that holds `session` from the start.
    pub fn with_session(endpoints: Endpoints, session: String) -> (client: Self)
        ensures
            client.endpoints() == endpoints,
            client.credential() == session,
    {
        Robolt { endpoints, state: Authenticated { session } }
    }

    /// The session this client holds.
    pub closed spec fn credential(self) -> String {
        self.state.session
    }

    /// The session to present with each request.
    pub fn session(&self) -> (session: &String)
        ensures
            *session == self.credential(),
    {
        &self.state.session
    }
}

impl<State> Robolt<State> {
    /// The host table this client was made with.
    pub closed spec fn endpoints(self) -> Endpoints {
        self.endpoints
    }

    /// The host table.
    pub fn hosts(&self) -> (hosts: &Endpoints)
        ensures
            *hosts == self.endpoints(),
    {
        &self.endpoints
    }

    /// Starts a request for `url`: a GET without a body until told otherwise.
    pub fn request_builder(&self, url: String) -> (builder: RequestBuilder)
        ensures
            builder.pending() == HttpRequest::fresh(url),
    {
        RequestBuilder::new(url)
    }

    /// Starts a GET of `host`, `path`, `id` in base ten and `tail`, in a row.
    pub(crate) fn get_by_id(&self, host: &String, path: &str, id: u64, tail: &str) -> (builder:
        RequestBuilder)
        ensures
            builder.pending().is_bare(Method::Get, host@ + path@ + decimal(id as nat) + tail@),
    {
        let mut url = host.clone();
        url.append(path);
        push_decimal(&mut url, id);
        url.append(tail);
        self.request_builder(url)
    }
}

} // verus!
