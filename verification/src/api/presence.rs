//! Where a user is at the moment.

use vstd::prelude::*;

verus! {

/// A user's presence as the friends service reports it.
#[derive(Default, Debug, Clone, PartialEq)]
pub struct UserPresence {
    pub user_presence_type: String,
    pub user_location_type: String,
    pub last_location: String,
    pub place_id: Option<u64>,
    pub root_place_id: Option<u64>,
    pub game_instance_id: Option<String>,
    pub universe_id: Option<u64>,
    pub last_online: String,
}

} // verus!
