//! The calls on friendships, followers and points.

pub mod friends;
pub mod points;
pub mod presence;
