//! The closed set of failures a call can end in.

use vstd::prelude::*;

verus! {

/// Why a call did not yield its value.
#[derive(Debug, Clone, PartialEq, Eq)]
pub enum RoboltError {
    /// The transport never produced a response (connection, DNS, timeout).
    Transport { cause: String },
    /// The server answered with a status outside 200..=299; status and body
    /// are handed on untouched.
    Http { status: u16, body: Vec<u8> },
    /// A successful response did not have the expected shape.
    Decode { cause: String },
}

/// Whether `status` lies in the success class, 200 to 299.
pub open spec fn is_success(status: u16) -> bool {
    200 <= status < 300
}

/// Tests `status` for the success class.
pub fn status_is_success(status: u16) -> (ok: bool)
    ensures
        ok == is_success(status),
{
    200 <= status && status < 300
}

} // verus!
