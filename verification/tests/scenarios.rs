use robolt::api::friends::{FriendshipStatus, UserRelationship};
use robolt::client::{Endpoints, Robolt};
use robolt::envelope::{CountResponse, DataResponse};
use robolt::errors::RoboltError;
use robolt::http::{Exchange, Method};
use robolt::models::badges::BadgeUpdate;
use robolt::models::users::{AuthenticatedUser, User};
use serde_json::Value;

fn hosts() -> Endpoints {
    Endpoints {
        base: String::from("https://api.roblox.com"),
        badges: String::from("https://badges.roblox.com"),
        friends: String::from("https://friends.roblox.com"),
        points: String::from("https://points.roblox.com"),
        users: String::from("https://users.roblox.com"),
        web: String::from("https://www.roblox.com"),
    }
}

fn ok(body: &str) -> Exchange {
    Exchange::Response { status: 200, body: body.as_bytes().to_vec() }
}

fn json(body: &[u8]) -> Result<Value, String> {
    serde_json::from_slice(body).map_err(|e| e.to_string())
}

fn text(v: &Value, field: &str) -> Result<String, String> {
    match v.get(field).and_then(Value::as_str) {
        Some(s) => Ok(String::from(s)),
        None => Err(format!("missing field `{}`", field)),
    }
}

fn number(v: &Value, field: &str) -> Result<u64, String> {
    match v.get(field).and_then(Value::as_u64) {
        Some(n) => Ok(n),
        None => Err(format!("missing field `{}`", field)),
    }
}

fn items(v: &Value) -> Result<&Vec<Value>, String> {
    match v.get("data").and_then(Value::as_array) {
        Some(list) => Ok(list),
        None => Err(String::from("missing field `data`")),
    }
}

fn decode_count(body: &[u8]) -> Result<CountResponse<u64>, String> {
    let v = json(body)?;
    Ok(CountResponse { count: number(&v, "count")? })
}

fn decode_user(v: &Value) -> Result<User, String> {
    Ok(User {
        username: text(v, "name")?,
        description: text(v, "description")?,
        created: text(v, "created")?,
        is_banned: v.get("isBanned").and_then(Value::as_bool).ok_or("missing field `isBanned`")?,
        external_app_display_name: v
            .get("externalAppDisplayName")
            .and_then(Value::as_str)
            .map(String::from),
        has_verified_badge: v
            .get("hasVerifiedBadge")
            .and_then(Value::as_bool)
            .ok_or("missing field `hasVerifiedBadge`")?,
        id: number(v, "id")?,
        display_name: text(v, "displayName")?,
    })
}

fn decode_users(body: &[u8]) -> Result<DataResponse<User>, String> {
    let v = json(body)?;
    let mut data = Vec::new();
    for item in items(&v)? {
        data.push(decode_user(item)?);
    }
    Ok(DataResponse { data })
}

fn decode_relationships(body: &[u8]) -> Result<DataResponse<UserRelationship>, String> {
    let v = json(body)?;
    let mut data = Vec::new();
    for item in items(&v)? {
        let status = match text(item, "status")?.as_str() {
            "NotFriends" => FriendshipStatus::NotFriends,
            "Friends" => FriendshipStatus::Friends,
            "RequestSent" => FriendshipStatus::RequestSent,
            "RequestReceived" => FriendshipStatus::RequestReceived,
            other => return Err(format!("unknown variant `{}`", other)),
        };
        data.push(UserRelationship { id: number(item, "id")?, status });
    }
    Ok(DataResponse { data })
}

#[test]
fn friend_count_of_42() {
    let client = Robolt::new(hosts());
    let call = client.fetch_friend_count(123);
    assert_eq!(call.request().method, Method::Get);
    assert_eq!(call.request().endpoint, "https://friends.roblox.com/v1/users/123/friends/count");
    let received = call.receive(ok("{\"count\": 42}")).unwrap();
    let parsed = decode_count(received.bytes());
    assert_eq!(received.finish(parsed), Ok(42));
}

#[test]
fn a_body_without_count_is_a_decode_failure_not_zero() {
    let client = Robolt::new(hosts());
    let call = client.fetch_friend_count(123);
    let received = call.receive(ok("{}")).unwrap();
    let parsed = decode_count(received.bytes());
    assert_eq!(
        received.finish(parsed),
        Err(RoboltError::Decode { cause: String::from("missing field `count`") })
    );
    let call = client.fetch_friend_count(123);
    let received = call.receive(ok("{\"total\": 42}")).unwrap();
    let parsed = decode_count(received.bytes());
    assert!(matches!(received.finish(parsed), Err(RoboltError::Decode { .. })));
}

#[test]
fn no_friends_is_an_empty_list_not_an_error() {
    let client = Robolt::new(hosts());
    let call = client.fetch_friends(123);
    assert_eq!(call.request().method, Method::Get);
    assert_eq!(call.request().endpoint, "https://friends.roblox.com/v1/users/123/friends");
    let received = call.receive(ok("{\"data\": []}")).unwrap();
    let parsed = decode_users(received.bytes());
    assert_eq!(received.finish(parsed), Ok(Vec::new()));
}

#[test]
fn friends_come_out_in_the_order_of_the_body() {
    let client = Robolt::new(hosts());
    let user = |id: u64, name: &str| {
        format!(
            "{{\"name\":\"{}\",\"description\":\"\",\"created\":\"2020-01-01T00:00:00Z\",\
             \"isBanned\":false,\"externalAppDisplayName\":null,\"hasVerifiedBadge\":false,\
             \"id\":{},\"displayName\":\"{}\"}}",
            name, id, name
        )
    };
    let body = format!("{{\"data\":[{},{}]}}", user(9, "b"), user(3, "a"));
    let call = client.fetch_friends(123);
    let received = call.receive(ok(&body)).unwrap();
    let parsed = decode_users(received.bytes());
    let friends = received.finish(parsed).unwrap();
    assert_eq!(friends.len(), 2);
    assert_eq!((friends[0].id, friends[0].username.as_str()), (9, "b"));
    assert_eq!((friends[1].id, friends[1].username.as_str()), (3, "a"));
    assert_eq!(friends[0].external_app_display_name, None);
}

#[test]
fn enabling_a_badge_succeeds_with_no_payload() {
    let client = Robolt::new(hosts()).authenticate(String::from("SECRET-REDACTED"));
    let call = client.update_badge(7).enabled(true).update();
    assert_eq!(call.request().method, Method::Patch);
    assert_eq!(call.request().endpoint, "https://badges.roblox.com/v1/badges/7");
    assert_eq!(
        call.request().body,
        Some(BadgeUpdate { name: None, description: None, enabled: Some(true) })
    );
    assert_eq!(call.complete(ok("")), Ok(()));
}

#[test]
fn relationship_statuses_of_two_users() {
    let client = Robolt::new(hosts()).authenticate(String::from("SECRET-REDACTED"));
    let me = AuthenticatedUser {
        username: String::from("me"),
        display_name: String::from("Me"),
        id: 123,
    };
    let call = client.my_friendship_statuses(Ok(me), vec![1, 2]).unwrap();
    assert_eq!(call.request().method, Method::Get);
    assert_eq!(
        call.request().endpoint,
        "https://friends.roblox.com/v1/users/123/friends/statuses?userIds=1,2"
    );
    let received = call.receive(ok("{\"data\":[{\"id\":1,\"status\":\"Friends\"}]}")).unwrap();
    let parsed = decode_relationships(received.bytes());
    let relationships = received.finish(parsed).unwrap();
    assert_eq!(relationships, vec![UserRelationship { id: 1, status: FriendshipStatus::Friends }]);
    assert!(relationships[0].is_friend());
    // The id 2 was asked about and not answered: it is absent, not "not friends".
    assert!(relationships.iter().all(|r| r.id != 2));
}

#[test]
fn a_server_error_is_surfaced_with_status_and_body() {
    let client = Robolt::new(hosts());
    let call = client.fetch_friend_count(123);
    let out = call.receive(Exchange::Response { status: 500, body: b"{\"count\": 42}".to_vec() });
    assert_eq!(
        out.err(),
        Some(RoboltError::Http { status: 500, body: b"{\"count\": 42}".to_vec() })
    );
}

#[test]
fn a_transport_failure_is_surfaced_with_its_cause() {
    let client = Robolt::new(hosts());
    let call = client.fetch_friends(123);
    assert_eq!(
        call.receive(Exchange::Failed { cause: String::from("operation timed out") }).err(),
        Some(RoboltError::Transport { cause: String::from("operation timed out") })
    );
}
