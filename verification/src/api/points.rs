//! The points a user has earned in an experience.

use vstd::prelude::*;
use vstd::string::StringExecFns;
use crate::client::{Robolt};
use crate::envelope::Shape;
use crate::errors::RoboltError;
use crate::http::Method;
use crate::request::Call;
use crate::text::{decimal, push_decimal};

verus! {

/// The body that holds a user's points.
#[derive(Default, Debug, Clone, Copy, PartialEq, Eq)]
pub struct AllTimeScore {
    pub all_time_score: u64,
}

impl Shape for AllTimeScore {
    type Value = u64;

    /// The score as received.
    open spec fn yields(self, out: Result<u64, RoboltError>) -> bool {
        out == Ok::<u64, RoboltError>(self.all_time_score)
    }

    fn extract(self) -> (out: Result<u64, RoboltError>) {
        Ok(self.all_time_score)
    }
}

impl<State> Robolt<State> {
    /// The points earned over all time. The first id fills the place of the
    /// experience in the path and the second that of the user.
    pub fn points(&self, user_id: u64, universe_id: u64) -> (call: Call<AllTimeScore>)
        ensures
            call.issued().is_bare(
                Method::Get,
                self.endpoints().points@ + "/v1/universes/"@ + decimal(user_id as nat)
                    + "/users/"@ + decimal(universe_id as nat) + "/all-time"@,
            ),
    {
        let mut url = self.hosts().points.clone();
        url.append("/v1/universes/");
        push_decimal(&mut url, user_id);
        url.append("/users/");
        push_decimal(&mut url, universe_id);
        url.append("/all-time");
        self.request_builder(url).send()
    }
}

} // verus!
