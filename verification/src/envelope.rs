//! The shapes a response body is decoded into, and the value each one yields.

use vstd::prelude::*;
use crate::errors::RoboltError;

verus! {

/// A decoded response body, from which its endpoint takes the one value it is
/// after.
pub trait Shape: Sized {
    /// What the endpoint returns.
    type Value;

    /// Whether `out` is what this body yields.
    spec fn yields(self, out: Result<Self::Value, RoboltError>) -> bool;

    /// Takes the value out of the decoded body.
    fn extract(self) -> (out: Result<Self::Value, RoboltError>)
        ensures
            self.yields(out),
    ;
}

/// A body of the form `{"data": [...]}`: a list, in the server's order.
#[derive(Debug, Clone, PartialEq, Default)]
pub struct DataResponse<T> {
    pub data: Vec<T>,
}

/// A body of the form `{"count": n}`.
#[derive(Debug, Clone, PartialEq, Default)]
pub struct CountResponse<T> {
    pub count: T,
}

/// The marker of a call whose response body is ignored.
#[derive(Debug, Clone, Copy, PartialEq, Eq, Default)]
pub struct EmptyResponse;

impl<T> Shape for DataResponse<T> {
    type Value = Vec<T>;

    /// The list itself: every item, in the order received.
    open spec fn yields(self, out: Result<Vec<T>, RoboltError>) -> bool {
        out == Ok::<Vec<T>, RoboltError>(self.data)
    }

    fn extract(self) -> (out: Result<Vec<T>, RoboltError>) {
        Ok(self.data)
    }
}

impl<T> Shape for CountResponse<T> {
    type Value = T;

    /// The count as received.
    open spec fn yields(self, out: Result<T, RoboltError>) -> bool {
        out == Ok::<T, RoboltError>(self.count)
    }

    fn extract(self) -> (out: Result<T, RoboltError>) {
        Ok(self.count)
    }
}

/// Whether `out` is what the decoder's verdict on a body amounts to: the value
/// that the decoded shape yields, or the decoder's complaint as a decode error.
pub open spec fn concludes<R: Shape>(
    parsed: Result<R, String>,
    out: Result<R::Value, RoboltError>,
) -> bool {
    match parsed {
        Ok(shape) => shape.yields(out),
        Err(cause) => out == Err::<R::Value, RoboltError>(RoboltError::Decode { cause }),
    }
}

/// A decoded list comes out as it is: the same items in the same order,
/// none added and none left out.
pub proof fn lemma_data_keeps_order<T>(data: Vec<T>, out: Result<Vec<T>, RoboltError>)
    requires
        concludes(Ok::<DataResponse<T>, String>(DataResponse { data }), out),
    ensures
        out == Ok::<Vec<T>, RoboltError>(data),
        out->Ok_0@.len() == data@.len(),
        forall|i: int| 0 <= i < data@.len() ==> out->Ok_0@[i] == data@[i],
{
}

/// A decoded count comes out as the number received. A body that the decoder
/// turns down, such as one without a count, ends in a decode error with the
/// decoder's complaint; it never stands for zero or any other number.
pub proof fn lemma_count_is_exact(parsed: Result<CountResponse<u64>, String>, out: Result<
    u64,
    RoboltError,
>)
    requires
        concludes(parsed, out),
    ensures
        parsed matches Ok(body) ==> out == Ok::<u64, RoboltError>(body.count),
        parsed matches Err(cause) ==> out == Err::<u64, RoboltError>(
            RoboltError::Decode { cause },
        ),
        out is Ok ==> parsed is Ok,
{
}

} // verus!
