//! A typed request pipeline for the Roblox web services that leaves the
//! network to its caller.
//!
//! A client (`client::Robolt`) describes a call: its method, URL and body,
//! and the shape its response body is expected to have (`request::Call`). The
//! caller hands the request to a transport of its choice and sends what came
//! of it (`http::Exchange`) through `receive`. A response in the success
//! class hands out its body; the caller decodes it and passes the decoder's
//! verdict to `finish`, which yields the value the endpoint is after. A call
//! that expects no body ends with `complete` instead.
//!
//! The type of the client says whether it holds a session: what needs one is
//! defined for `Robolt<Authenticated>` alone.

pub mod api;
pub mod client;
pub mod envelope;
pub mod errors;
pub mod http;
pub mod models;
pub mod request;
pub mod text;
