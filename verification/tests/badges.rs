use robolt::client::{Endpoints, Robolt};
use robolt::envelope::{DataResponse, Shape};
use robolt::errors::RoboltError;
use robolt::http::{Exchange, Method};
use robolt::models::badges::{
    Badge, BadgeAwardDate, BadgeAwardStatistics, BadgeCheck, BadgeUpdate, ReceivedBadges,
    RobloxBadge, RobloxBadgeResult, RobloxBadgesResult,
};
use robolt::request::{Call, Received};

fn hosts() -> Endpoints {
    Endpoints {
        base: String::from("https://api.example"),
        badges: String::from("https://badges.example"),
        friends: String::from("https://friends.example"),
        points: String::from("https://points.example"),
        users: String::from("https://users.example"),
        web: String::from("https://www.example"),
    }
}

fn accepted<R: Shape>(call: Call<R>) -> Received<R> {
    call.receive(Exchange::Response { status: 200, body: Vec::new() }).unwrap()
}

fn answered(check: BadgeCheck) -> ReceivedBadges {
    check.receive(Exchange::Response { status: 200, body: Vec::new() }).unwrap()
}

fn listing(names: &[&str]) -> RobloxBadgesResult {
    RobloxBadgesResult {
        roblox_badges: names.iter().map(|n| RobloxBadgeResult { name: n.to_string() }).collect(),
    }
}

#[test]
fn every_roblox_badge_is_known_by_its_name() {
    let table = [
        ("Welcome To The Club", RobloxBadge::WelcomeToTheClub),
        ("Administrator", RobloxBadge::Administrator),
        ("Veteran", RobloxBadge::Veteran),
        ("Friendship", RobloxBadge::Friendship),
        ("Ambassador", RobloxBadge::Ambassador),
        ("Inviter", RobloxBadge::Inviter),
        ("Homestead", RobloxBadge::Homestead),
        ("Bricksmith", RobloxBadge::Bricksmith),
        ("Official Model Maker", RobloxBadge::OfficialModelMaker),
        ("Combat Initiation", RobloxBadge::CombatInitiation),
        ("Warrior", RobloxBadge::Warrior),
        ("Bloxxer", RobloxBadge::Bloxxer),
    ];
    for (name, badge) in table {
        assert_eq!(RobloxBadge::from_str(name), Ok(badge));
    }
}

#[test]
fn an_unknown_badge_name_is_an_error_that_quotes_it() {
    assert_eq!(RobloxBadge::from_str("Builder"), Err(String::from("Unknown badge: Builder")));
    assert_eq!(RobloxBadge::from_str(""), Err(String::from("Unknown badge: ")));
    assert_eq!(RobloxBadge::from_str("veteran"), Err(String::from("Unknown badge: veteran")));
    assert_eq!(RobloxBadge::from_str("Veteran "), Err(String::from("Unknown badge: Veteran ")));
}

#[test]
fn fetch_roblox_badges_asks_the_web_host() {
    let client = Robolt::new(hosts());
    let call = client.fetch_roblox_badges(77);
    assert_eq!(call.request().method, Method::Get);
    assert_eq!(call.request().endpoint, "https://www.example/badges/roblox?userId=77");
    assert_eq!(call.request().body, None);
}

#[test]
fn roblox_badges_come_out_in_order() {
    let client = Robolt::new(hosts());
    let call = client.fetch_roblox_badges(77);
    assert_eq!(
        accepted(call).finish(Ok(listing(&["Veteran", "Bloxxer", "Veteran", "Inviter"]))),
        Ok(vec![
            RobloxBadge::Veteran,
            RobloxBadge::Bloxxer,
            RobloxBadge::Veteran,
            RobloxBadge::Inviter
        ])
    );
    let call = client.fetch_roblox_badges(77);
    assert_eq!(accepted(call).finish(Ok(listing(&[]))), Ok(vec![]));
}

#[test]
fn an_unknown_roblox_badge_is_a_decode_error_not_a_panic() {
    let client = Robolt::new(hosts());
    let call = client.fetch_roblox_badges(77);
    assert_eq!(
        accepted(call).finish(Ok(listing(&["Veteran", "Mystery", "Bloxxer", "Other"]))),
        Err(RoboltError::Decode { cause: String::from("Unknown badge: Mystery") })
    );
    assert_eq!(
        listing(&["Nope"]).extract(),
        Err(RoboltError::Decode { cause: String::from("Unknown badge: Nope") })
    );
}

#[test]
fn has_roblox_badge_issues_the_same_request_as_the_listing() {
    let client = Robolt::new(hosts());
    let check = client.has_roblox_badge(77, RobloxBadge::Veteran);
    let call = client.fetch_roblox_badges(77);
    assert_eq!(check.request(), call.request());
}

#[test]
fn has_roblox_badge_says_whether_the_badge_is_listed() {
    let client = Robolt::new(hosts());
    let check = client.has_roblox_badge(77, RobloxBadge::Veteran);
    assert_eq!(answered(check).finish(Ok(listing(&["Inviter", "Veteran"]))), Ok(true));
    let check = client.has_roblox_badge(77, RobloxBadge::Warrior);
    assert_eq!(answered(check).finish(Ok(listing(&["Inviter", "Veteran"]))), Ok(false));
    let check = client.has_roblox_badge(77, RobloxBadge::Warrior);
    assert_eq!(answered(check).finish(Ok(listing(&[]))), Ok(false));
}

#[test]
fn has_roblox_badge_surfaces_every_failure() {
    let client = Robolt::new(hosts());
    let check = client.has_roblox_badge(77, RobloxBadge::Veteran);
    assert_eq!(
        check.receive(Exchange::Response { status: 500, body: b"oops".to_vec() }).err(),
        Some(RoboltError::Http { status: 500, body: b"oops".to_vec() })
    );
    let check = client.has_roblox_badge(77, RobloxBadge::Veteran);
    assert_eq!(
        check.receive(Exchange::Failed { cause: String::from("dns") }).err(),
        Some(RoboltError::Transport { cause: String::from("dns") })
    );
    let check = client.has_roblox_badge(77, RobloxBadge::Veteran);
    let received = check.receive(Exchange::Response { status: 200, body: b"{}".to_vec() }).unwrap();
    assert_eq!(received.bytes().as_slice(), b"{}".as_slice());
    assert_eq!(
        received.finish(Err(String::from("missing field `RobloxBadges`"))),
        Err(RoboltError::Decode { cause: String::from("missing field `RobloxBadges`") })
    );
    let check = client.has_roblox_badge(77, RobloxBadge::Veteran);
    assert_eq!(
        answered(check).finish(Ok(listing(&["Veteran", "Mystery"]))),
        Err(RoboltError::Decode { cause: String::from("Unknown badge: Mystery") })
    );
}

#[test]
fn badge_lookups_ask_the_badges_host() {
    let client = Robolt::new(hosts());
    let one = client.fetch_badge(7);
    assert_eq!(one.request().method, Method::Get);
    assert_eq!(one.request().endpoint, "https://badges.example/v1/badges/7");
    let game = client.fetch_game_badges(1234);
    assert_eq!(game.request().method, Method::Get);
    assert_eq!(game.request().endpoint, "https://badges.example/v1/universes/1234/badges?limit=100");
    let user = client.fetch_user_badges(55);
    assert_eq!(user.request().method, Method::Get);
    assert_eq!(user.request().endpoint, "https://badges.example/v1/users/55/badges?limit=100");
}

#[test]
fn a_badge_comes_out_as_decoded() {
    let client = Robolt::new(hosts());
    let badge = Badge {
        id: 7,
        name: String::from("First Win"),
        enabled: true,
        statistics: BadgeAwardStatistics {
            past_day_awarded_count: 3,
            awarded_count: 900,
            win_rate_percentage_bits: 0.25f32.to_bits(),
        },
        ..Badge::default()
    };
    let out = accepted(client.fetch_badge(7)).finish(Ok(badge.clone())).unwrap();
    assert_eq!(out, badge);
    assert_eq!(f32::from_bits(out.statistics.win_rate_percentage_bits), 0.25f32);
    let list =
        accepted(client.fetch_game_badges(1)).finish(Ok(DataResponse { data: vec![badge.clone()] }));
    assert_eq!(list, Ok(vec![badge]));
}

#[test]
fn awarded_dates_list_the_badge_ids_in_the_query() {
    let client = Robolt::new(hosts());
    let call = client.fetch_user_awarded_badge_dates(123, vec![5, 6, 70]);
    assert_eq!(call.request().method, Method::Get);
    assert_eq!(
        call.request().endpoint,
        "https://badges.example/v1/users/123/badges/awarded-dates?badgeIds=5,6,70"
    );
    assert_eq!(call.request().body, None);
    let none = client.fetch_user_awarded_badge_dates(123, vec![]);
    assert_eq!(
        none.request().endpoint,
        "https://badges.example/v1/users/123/badges/awarded-dates?badgeIds="
    );
    let one = client.fetch_user_awarded_badge_dates(0, vec![9]);
    assert_eq!(
        one.request().endpoint,
        "https://badges.example/v1/users/0/badges/awarded-dates?badgeIds=9"
    );
}

#[test]
fn awarded_dates_come_out_in_order() {
    let client = Robolt::new(hosts());
    let dates = vec![
        BadgeAwardDate { badge_id: 6, awarded_date: String::from("2023-02-01T00:00:00Z") },
        BadgeAwardDate { badge_id: 5, awarded_date: String::from("2023-01-01T00:00:00Z") },
    ];
    let call = client.fetch_user_awarded_badge_dates(123, vec![5, 6]);
    assert_eq!(accepted(call).finish(Ok(DataResponse { data: dates.clone() })), Ok(dates));
}

#[test]
fn update_badge_starts_without_changes() {
    let client = Robolt::new(hosts()).authenticate(String::from("SECRET-REDACTED"));
    let call = client.update_badge(7).update();
    assert_eq!(call.request().method, Method::Patch);
    assert_eq!(call.request().endpoint, "https://badges.example/v1/badges/7");
    assert_eq!(call.request().body, Some(BadgeUpdate::default()));
}

#[test]
fn update_badge_collects_each_change() {
    let client = Robolt::new(hosts()).authenticate(String::from("SECRET-REDACTED"));
    let call = client.update_badge(9).name("Champion").description("Win ten rounds").update();
    assert_eq!(
        call.request().body,
        Some(BadgeUpdate {
            name: Some(String::from("Champion")),
            description: Some(String::from("Win ten rounds")),
            enabled: None,
        })
    );
    let call = client.update_badge(9).enabled(false).name("A").enabled(true).name("B").update();
    assert_eq!(
        call.request().body,
        Some(BadgeUpdate { name: Some(String::from("B")), description: None, enabled: Some(true) })
    );
    assert_eq!(call.request().endpoint, "https://badges.example/v1/badges/9");
}

#[test]
fn remove_badge_is_a_delete() {
    let client = Robolt::new(hosts()).authenticate(String::from("SECRET-REDACTED"));
    let call = client.remove_badge(31);
    assert_eq!(call.request().method, Method::Delete);
    assert_eq!(call.request().endpoint, "https://badges.example/v1/user/badges/31");
    assert_eq!(call.request().body, None);
    assert_eq!(call.complete(Exchange::Response { status: 200, body: Vec::new() }), Ok(()));
}
