//! The records of users and badges, and the calls that fetch and change them.

pub mod badges;
pub mod users;
