//! Friends, followers and friend requests.

use vstd::prelude::*;
use vstd::string::StringExecFns;
use crate::api::presence::UserPresence;
use crate::client::{Authenticated, Robolt};
use crate::envelope::{CountResponse, DataResponse, EmptyResponse};
use crate::errors::RoboltError;
use crate::http::Method;
use crate::models::users::{AuthenticatedUser, PartialUser, User};
use crate::request::Call;
use crate::text::{comma_joined, decimal, push_comma_joined, push_decimal};

verus! {

/// How the session's user stands to another user.
#[derive(Debug, Clone, Copy, PartialEq, Eq, Structural)]
pub enum FriendshipStatus {
    NotFriends,
    Friends,
    RequestSent,
    RequestReceived,
}

/// The standing of the session's user to the user `id`.
#[derive(Debug, Clone, PartialEq)]
pub struct UserRelationship {
    pub id: u64,
    pub status: FriendshipStatus,
}

/// A friend who is online, and where.
#[derive(Debug, Clone, PartialEq)]
pub struct OnlineFriend {
    pub presence: UserPresence,
    pub user: PartialUser,
}

/// A friend request and the user who sent it.
#[derive(Default, Debug, Clone, PartialEq)]
pub struct FriendRequest {
    pub user: User,
    pub friend_request: FriendRequestInfo,
    pub mutual_friends_list: Vec<String>,
}

/// The particulars of a friend request.
#[derive(Default, Debug, Clone, PartialEq)]
pub struct FriendRequestInfo {
    pub sent_at: String,
    pub sender_id: u64,
    pub source_universe_id: Option<u64>,
    pub origin_source_type: String,
    pub contact_name: Option<String>,
}

impl UserRelationship {
    /// Whether the two users are friends.
    pub fn is_friend(&self) -> (friends: bool)
        ensures
            friends == (self.status == FriendshipStatus::Friends),
    {
        self.status == FriendshipStatus::Friends
    }
}

impl<State> Robolt<State> {
    /// How many followers the user `user_id` has.
    pub fn fetch_follower_count(&self, user_id: u64) -> (call: Call<CountResponse<u64>>)
        ensures
            call.issued().is_bare(
                Method::Get,
                self.endpoints().friends@ + "/v1/users/"@ + decimal(user_id as nat)
                    + "/followers/count"@,
            ),
    {
        self.get_by_id(&self.hosts().friends, "/v1/users/", user_id, "/followers/count").send()
    }

    /// How many users the user `user_id` follows.
    pub fn fetch_following_count(&self, user_id: u64) -> (call: Call<CountResponse<u64>>)
        ensures
            call.issued().is_bare(
                Method::Get,
                self.endpoints().friends@ + "/v1/users/"@ + decimal(user_id as nat)
                    + "/followings/count"@,
            ),
    {
        self.get_by_id(&self.hosts().friends, "/v1/users/", user_id, "/followings/count").send()
    }

    /// How many friends the user `user_id` has.
    pub fn fetch_friend_count(&self, user_id: u64) -> (call: Call<CountResponse<u64>>)
        ensures
            call.issued().is_bare(
                Method::Get,
                self.endpoints().friends@ + "/v1/users/"@ + decimal(user_id as nat)
                    + "/friends/count"@,
            ),
    {
        self.get_by_id(&self.hosts().friends, "/v1/users/", user_id, "/friends/count").send()
    }

    /// The friends of the user `user_id`.
    pub fn fetch_friends(&self, user_id: u64) -> (call: Call<DataResponse<User>>)
        ensures
            call.issued().is_bare(
                Method::Get,
                self.endpoints().friends@ + "/v1/users/"@ + decimal(user_id as nat) + "/friends"@,
            ),
    {
        self.get_by_id(&self.hosts().friends, "/v1/users/", user_id, "/friends").send()
    }

    /// The followers of the user `user_id`, `limit` at most.
    pub fn fetch_followers(&self, user_id: u64, limit: u8) -> (call: Call<DataResponse<User>>)
        ensures
            call.issued().is_bare(
                Method::Get,
                self.endpoints().friends@ + "/v1/users/"@ + decimal(user_id as nat)
                    + "/followers?limit="@ + decimal(limit as nat),
            ),
    {
        let mut url = self.hosts().friends.clone();
        url.append("/v1/users/");
        push_decimal(&mut url, user_id);
        url.append("/followers?limit=");
        push_decimal(&mut url, limit as u64);
        self.request_builder(url).send()
    }

    /// The users that the user `user_id` follows, `limit` at most.
    pub fn fetch_followings(&self, user_id: u64, limit: u8) -> (call: Call<DataResponse<User>>)
        ensures
            call.issued().is_bare(
                Method::Get,
                self.endpoints().friends@ + "/v1/users/"@ + decimal(user_id as nat)
                    + "/followings?limit="@ + decimal(limit as nat),
            ),
    {
        let mut url = self.hosts().friends.clone();
        url.append("/v1/users/");
        push_decimal(&mut url, user_id);
        url.append("/followings?limit=");
        push_decimal(&mut url, limit as u64);
        self.request_builder(url).send()
    }
}

impl Robolt<Authenticated> {
    /// A POST without a body to `action` of the user `user_id`.
    fn act_on(&self, user_id: u64, action: &str) -> (call: Call<EmptyResponse>)
        ensures
            call.issued().is_bare(
                Method::Post,
                self.endpoints().friends@ + "/v1/users/"@ + decimal(user_id as nat) + action@,
            ),
    {
        self.get_by_id(&self.hosts().friends, "/v1/users/", user_id, action).method(
            Method::Post,
        ).send()
    }

    /// The friend requests that await the session's user, `limit` at most.
    pub fn my_friend_requests(&self, limit: u8) -> (call: Call<DataResponse<FriendRequest>>)
        ensures
            call.issued().is_bare(
                Method::Get,
                self.endpoints().friends@ + "/v1/my/friends/requests?limit="@ + decimal(
                    limit as nat,
                ),
            ),
    {
        let mut url = self.hosts().friends.clone();
        url.append("/v1/my/friends/requests?limit=");
        push_decimal(&mut url, limit as u64);
        self.request_builder(url).send()
    }

    /// How many friend requests await the session's user.
    pub fn my_friend_request_count(&self) -> (call: Call<CountResponse<u64>>)
        ensures
            call.issued().is_bare(
                Method::Get,
                self.endpoints().friends@ + "/v1/user/friend-requests/count"@,
            ),
    {
        let mut url = self.hosts().friends.clone();
        url.append("/v1/user/friend-requests/count");
        self.request_builder(url).send()
    }

    /// How many friends the session's user has.
    pub fn my_friend_count(&self) -> (call: Call<CountResponse<u64>>)
        ensures
            call.issued().is_bare(
                Method::Get,
                self.endpoints().friends@ + "/v1/my/friends/count"@,
            ),
    {
        let mut url = self.hosts().friends.clone();
        url.append("/v1/my/friends/count");
        self.request_builder(url).send()
    }

    /// Ends the friendship with the user `user_id`.
    pub fn unfriend(&self, user_id: u64) -> (call: Call<EmptyResponse>)
        ensures
            call.issued().is_bare(
                Method::Post,
                self.endpoints().friends@ + "/v1/users/"@ + decimal(user_id as nat)
                    + "/unfriend"@,
            ),
    {
        self.act_on(user_id, "/unfriend")
    }

    /// Stops following the user `user_id`.
    pub fn unfollow(&self, user_id: u64) -> (call: Call<EmptyResponse>)
        ensures
            call.issued().is_bare(
                Method::Post,
                self.endpoints().friends@ + "/v1/users/"@ + decimal(user_id as nat)
                    + "/unfollow"@,
            ),
    {
        self.act_on(user_id, "/unfollow")
    }

    /// Declines the friend request of the user `user_id`.
    pub fn decline_friend_request(&self, user_id: u64) -> (call: Call<EmptyResponse>)
        ensures
            call.issued().is_bare(
                Method::Post,
                self.endpoints().friends@ + "/v1/users/"@ + decimal(user_id as nat)
                    + "/decline-friend-request"@,
            ),
    {
        self.act_on(user_id, "/decline-friend-request")
    }

    /// Accepts the friend request of the user `user_id`.
    pub fn accept_friend_request(&self, user_id: u64) -> (call: Call<EmptyResponse>)
        ensures
            call.issued().is_bare(
                Method::Post,
                self.endpoints().friends@ + "/v1/users/"@ + decimal(user_id as nat)
                    + "/accept-friend-request"@,
            ),
    {
        self.act_on(user_id, "/accept-friend-request")
    }

    /// Declines every friend request that awaits the session's user.
    pub fn decline_all_friend_requests(&self) -> (call: Call<EmptyResponse>)
        ensures
            call.issued().is_bare(
                Method::Post,
                self.endpoints().friends@ + "/v1/user/friend-requests/decline-all"@,
            ),
    {
        let mut url = self.hosts().friends.clone();
        url.append("/v1/user/friend-requests/decline-all");
        self.request_builder(url).method(Method::Post).send()
    }

    /// The second step of listing the friends who are online. `me` is how
    /// the lookup of the session's user (`fetch_my_user`) ended: its error
    /// ends the operation, its user's id goes into the request.
    pub fn my_online_friends(&self, me: Result<AuthenticatedUser, RoboltError>) -> (next: Result<
        Call<DataResponse<OnlineFriend>>,
        RoboltError,
    >)
        ensures
            match me {
                Err(e) => next == Err::<Call<DataResponse<OnlineFriend>>, RoboltError>(e),
                Ok(user) => next matches Ok(call) && call.issued().is_bare(
                    Method::Get,
                    self.endpoints().friends@ + "/v1/users/"@ + decimal(user.id as nat)
                        + "/friends/online"@,
                ),
            },
    {
        match me {
            Err(e) => Err(e),
            Ok(user) => Ok(
                self.get_by_id(&self.hosts().friends, "/v1/users/", user.id, "/friends/online")
                    .method(Method::Get).send(),
            ),
        }
    }

    /// The second step of asking how the session's user stands to each of
    /// `user_ids`. `me` is how the lookup of the session's user
    /// (`fetch_my_user`) ended: its error ends the operation, its user's id
    /// goes into the request. The ids asked about go into the query in the
    /// order given, separated by commas.
    pub fn my_friendship_statuses(
        &self,
        me: Result<AuthenticatedUser, RoboltError>,
        user_ids: Vec<u64>,
    ) -> (next: Result<Call<DataResponse<UserRelationship>>, RoboltError>)
        ensures
            match me {
                Err(e) => next == Err::<Call<DataResponse<UserRelationship>>, RoboltError>(e),
                Ok(user) => next matches Ok(call) && call.issued().is_bare(
                    Method::Get,
                    self.endpoints().friends@ + "/v1/users/"@ + decimal(user.id as nat)
                        + "/friends/statuses?userIds="@ + comma_joined(user_ids@),
                ),
            },
    {
        match me {
            Err(e) => Err(e),
            Ok(user) => {
                let mut url = self.hosts().friends.clone();
                url.append("/v1/users/");
                push_decimal(&mut url, user.id);
                url.append("/friends/statuses?userIds=");
                push_comma_joined(&mut url, &user_ids);
                Ok(self.request_builder(url).method(Method::Get).send())
            },
        }
    }
}

} // verus!
