//! User records and the calls that look users up.

use vstd::prelude::*;
use vstd::string::StringExecFns;
use crate::client::{Anonymous, Authenticated, Robolt};
use crate::envelope::Shape;
use crate::errors::RoboltError;
use crate::http::Method;
use crate::request::Call;
use crate::text::{decimal, push_decimal};

verus! {

/// The user lookups of one client.
pub struct UserBuilder<'a, State = Anonymous> {
    pub(crate) client: &'a Robolt<State>,
}

/// A user's public profile.
#[derive(Default, Debug, Clone, PartialEq)]
pub struct User {
    pub username: String,
    pub description: String,
    pub created: String,
    pub is_banned: bool,
    pub external_app_display_name: Option<String>,
    pub has_verified_badge: bool,
    pub id: u64,
    pub display_name: String,
}

/// A user by name and id alone.
#[derive(Default, Debug, Clone, PartialEq)]
pub struct PartialUser {
    pub username: String,
    pub id: u64,
}

/// The user a session belongs to.
#[derive(Default, Debug, Clone, PartialEq)]
pub struct AuthenticatedUser {
    pub username: String,
    pub display_name: String,
    pub id: u64,
}

impl Shape for User {
    type Value = User;

    /// The record as decoded.
    open spec fn yields(self, out: Result<User, RoboltError>) -> bool {
        out == Ok::<User, RoboltError>(self)
    }

    fn extract(self) -> (out: Result<User, RoboltError>) {
        Ok(self)
    }
}

impl Shape for PartialUser {
    type Value = PartialUser;

    /// The record as decoded.
    open spec fn yields(self, out: Result<PartialUser, RoboltError>) -> bool {
        out == Ok::<PartialUser, RoboltError>(self)
    }

    fn extract(self) -> (out: Result<PartialUser, RoboltError>) {
        Ok(self)
    }
}

impl Shape for AuthenticatedUser {
    type Value = AuthenticatedUser;

    /// The record as decoded.
    open spec fn yields(self, out: Result<AuthenticatedUser, RoboltError>) -> bool {
        out == Ok::<AuthenticatedUser, RoboltError>(self)
    }

    fn extract(self) -> (out: Result<AuthenticatedUser, RoboltError>) {
        Ok(self)
    }
}

impl<'a, State> UserBuilder<'a, State> {
    /// The client whose hosts the lookups go to.
    pub closed spec fn client(self) -> Robolt<State> {
        *self.client
    }

    pub(crate) fn new(client: &'a Robolt<State>) -> (users: Self)
        ensures
            users.client() == *client,
    {
        Self { client }
    }

    /// The profile of the user `id`.
    pub fn fetch(&self, id: u64) -> (call: Call<User>)
        ensures
            call.issued().is_bare(
                Method::Get,
                self.client().endpoints().users@ + "/v1/users/"@ + decimal(id as nat),
            ),
    {
        let mut url = self.client.hosts().users.clone();
        url.append("/v1/users/");
        push_decimal(&mut url, id);
        self.client.request_builder(url).send()
    }

    /// Name and id of the user `id`.
    pub fn partial(&self, id: u64) -> (call: Call<PartialUser>)
        ensures
            call.issued().is_bare(
                Method::Get,
                self.client().endpoints().base@ + "/users/"@ + decimal(id as nat),
            ),
    {
        let mut url = self.client.hosts().base.clone();
        url.append("/users/");
        push_decimal(&mut url, id);
        self.client.request_builder(url).send()
    }

    /// Name and id of the user called `username`. The name goes into the URL
    /// as it is given.
    pub fn find(&self, username: &str) -> (call: Call<PartialUser>)
        ensures
            call.issued().is_bare(
                Method::Get,
                self.client().endpoints().base@ + "/users/get-by-username?username="@ + username@,
            ),
    {
        let mut url = self.client.hosts().base.clone();
        url.append("/users/get-by-username?username=");
        url.append(username);
        self.client.request_builder(url).send()
    }
}

impl<'a> UserBuilder<'a, Authenticated> {
    /// The user that the client's session belongs to.
    pub fn me(&self) -> (call: Call<AuthenticatedUser>)
        ensures
            call.issued().is_bare(
                Method::Get,
                self.client().endpoints().users@ + "/v1/users/authenticated"@,
            ),
    {
        let mut url = self.client.hosts().users.clone();
        url.append("/v1/users/authenticated");
        self.client.request_builder(url).send()
    }
}

impl<State> Robolt<State> {
    /// The user lookups of this client.
    pub fn users(&self) -> (users: UserBuilder<'_, State>)
        ensures
            users.client() == *self,
    {
        UserBuilder::new(self)
    }
}

impl Robolt<Authenticated> {
    /// The user that this client's session belongs to.
    pub fn fetch_my_user(&self) -> (call: Call<AuthenticatedUser>)
        ensures
            call.issued().is_bare(
                Method::Get,
                self.endpoints().users@ + "/v1/users/authenticated"@,
            ),
    {
        self.users().me()
    }
}

} // verus!
