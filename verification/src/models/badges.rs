//! Badge records, the badges that Roblox itself awards, and the calls that
//! fetch and change badges.

use vstd::prelude::*;
use vstd::string::StringExecFns;
use crate::client::{Authenticated, Robolt};
use crate::envelope::{DataResponse, EmptyResponse, Shape};
use crate::errors::RoboltError;
use crate::http::{screened, Exchange, HttpRequest, Method};
use crate::request::{Call, Received};
use crate::text::{comma_joined, decimal, push_comma_joined, push_decimal, same_text};

verus! {

/// When a user was awarded a badge.
#[derive(Default, Debug, Clone, PartialEq)]
pub struct BadgeAwardDate {
    pub badge_id: u64,
    pub awarded_date: String,
}

/// A badge of an experience.
#[derive(Default, Debug, Clone, PartialEq)]
pub struct Badge {
    pub id: u64,
    pub name: String,
    pub description: Option<String>,
    pub display_name: String,
    pub display_description: Option<String>,
    pub enabled: bool,
    pub icon_image_id: u64,
    pub display_icon_image_id: u64,
    pub created: String,
    pub updated: String,
    pub statistics: BadgeAwardStatistics,
    pub awarding_universe: Option<AwardingUniverse>,
}

/// How often a badge has been awarded.
#[derive(Default, Debug, Clone, PartialEq)]
pub struct BadgeAwardStatistics {
    pub past_day_awarded_count: u64,
    pub awarded_count: u64,
    /// The win rate, a single-precision number, by its IEEE 754 bit pattern.
    pub win_rate_percentage_bits: u32,
}

/// The experience that awards a badge.
#[derive(Default, Debug, Clone, PartialEq)]
pub struct AwardingUniverse {
    pub id: u64,
    pub name: String,
    pub root_place_id: u64,
}

/// The body that lists a user's Roblox badges.
#[derive(Default, Debug, Clone, PartialEq)]
pub struct RobloxBadgesResult {
    pub roblox_badges: Vec<RobloxBadgeResult>,
}

/// One Roblox badge as the server names it.
#[derive(Default, Debug, Clone, PartialEq)]
pub struct RobloxBadgeResult {
    pub name: String,
}

/// The badges that Roblox itself awards.
#[derive(Debug, Clone, Copy, PartialEq, Eq, Structural)]
pub enum RobloxBadge {
    WelcomeToTheClub,
    Administrator,
    Veteran,
    Friendship,
    Ambassador,
    Inviter,
    Homestead,
    Bricksmith,
    OfficialModelMaker,
    CombatInitiation,
    Warrior,
    Bloxxer,
}

/// The changes to make to a badge; a field left `None` is left alone.
#[derive(Default, Debug, Clone, PartialEq)]
pub struct BadgeUpdate {
    pub name: Option<String>,
    pub description: Option<String>,
    pub enabled: Option<bool>,
}

/// The changes of a `BadgeUpdate`, by their characters.
pub struct BadgeUpdateView {
    pub name: Option<Seq<char>>,
    pub description: Option<Seq<char>>,
    pub enabled: Option<bool>,
}

impl View for BadgeUpdate {
    type V = BadgeUpdateView;

    open spec fn view(&self) -> BadgeUpdateView {
        BadgeUpdateView {
            name: match self.name {
                Some(s) => Some(s@),
                None => None,
            },
            description: match self.description {
                Some(s) => Some(s@),
                None => None,
            },
            enabled: self.enabled,
        }
    }
}

/// Collects the changes to one badge, then issues them.
pub struct BadgeUpdateBuilder<'a> {
    id: u64,
    client: &'a Robolt<Authenticated>,
    changes: BadgeUpdate,
}

/// A look for one Roblox badge among those of a user.
pub struct BadgeCheck {
    call: Call<RobloxBadgesResult>,
    badge: RobloxBadge,
}

/// The body that answers a `BadgeCheck`, waiting to be decoded.
pub struct ReceivedBadges {
    received: Received<RobloxBadgesResult>,
    badge: RobloxBadge,
}

/// The badge that the server calls `name`, if there is one.
pub open spec fn badge_named(name: Seq<char>) -> Option<RobloxBadge> {
    if name == "Welcome To The Club"@ {
        Some(RobloxBadge::WelcomeToTheClub)
    } else if name == "Administrator"@ {
        Some(RobloxBadge::Administrator)
    } else if name == "Veteran"@ {
        Some(RobloxBadge::Veteran)
    } else if name == "Friendship"@ {
        Some(RobloxBadge::Friendship)
    } else if name == "Ambassador"@ {
        Some(RobloxBadge::Ambassador)
    } else if name == "Inviter"@ {
        Some(RobloxBadge::Inviter)
    } else if name == "Homestead"@ {
        Some(RobloxBadge::Homestead)
    } else if name == "Bricksmith"@ {
        Some(RobloxBadge::Bricksmith)
    } else if name == "Official Model Maker"@ {
        Some(RobloxBadge::OfficialModelMaker)
    } else if name == "Combat Initiation"@ {
        Some(RobloxBadge::CombatInitiation)
    } else if name == "Warrior"@ {
        Some(RobloxBadge::Warrior)
    } else if name == "Bloxxer"@ {
        Some(RobloxBadge::Bloxxer)
    } else {
        None
    }
}

/// What is said of a name that belongs to no Roblox badge.
pub open spec fn unknown_badge(name: Seq<char>) -> Seq<char> {
    "Unknown badge: "@ + name
}

/// The names in a decoded list of Roblox badges, in order.
pub open spec fn names_in(listed: Seq<RobloxBadgeResult>) -> Seq<Seq<char>> {
    Seq::new(listed.len(), |i: int| listed[i].name@)
}

/// The badges that `names` stand for, in order; or, where one of them belongs
/// to no badge, the first such name.
pub open spec fn badges_named(names: Seq<Seq<char>>) -> Result<Seq<RobloxBadge>, Seq<char>>
    decreases names.len(),
{
    if names.len() == 0 {
        Ok(Seq::empty())
    } else {
        match badges_named(names.drop_last()) {
            Err(name) => Err(name),
            Ok(badges) => match badge_named(names.last()) {
                Some(badge) => Ok(badges.push(badge)),
                None => Err(names.last()),
            },
        }
    }
}

impl RobloxBadge {
    /// The badge that the server calls `s`. Any other name is an error that
    /// quotes it.
    pub fn from_str(s: &str) -> (out: Result<RobloxBadge, String>)
        ensures
            match badge_named(s@) {
                Some(badge) => out == Ok::<RobloxBadge, String>(badge),
                None => out matches Err(said) && said@ == unknown_badge(s@),
            },
    {
        if same_text(s, "Welcome To The Club") {
            Ok(RobloxBadge::WelcomeToTheClub)
        } else if same_text(s, "Administrator") {
            Ok(RobloxBadge::Administrator)
        } else if same_text(s, "Veteran") {
            Ok(RobloxBadge::Veteran)
        } else if same_text(s, "Friendship") {
            Ok(RobloxBadge::Friendship)
        } else if same_text(s, "Ambassador") {
            Ok(RobloxBadge::Ambassador)
        } else if same_text(s, "Inviter") {
            Ok(RobloxBadge::Inviter)
        } else if same_text(s, "Homestead") {
            Ok(RobloxBadge::Homestead)
        } else if same_text(s, "Bricksmith") {
            Ok(RobloxBadge::Bricksmith)
        } else if same_text(s, "Official Model Maker") {
            Ok(RobloxBadge::OfficialModelMaker)
        } else if same_text(s, "Combat Initiation") {
            Ok(RobloxBadge::CombatInitiation)
        } else if same_text(s, "Warrior") {
            Ok(RobloxBadge::Warrior)
        } else if same_text(s, "Bloxxer") {
            Ok(RobloxBadge::Bloxxer)
        } else {
            let mut said = String::from_str("Unknown badge: ");
            said.append(s);
            Err(said)
        }
    }
}

impl Shape for RobloxBadgesResult {
    type Value = Vec<RobloxBadge>;

    /// The badges listed, in order. A name that belongs to no badge makes the
    /// whole body a decode error that quotes the first such name.
    open spec fn yields(self, out: Result<Vec<RobloxBadge>, RoboltError>) -> bool {
        match badges_named(names_in(self.roblox_badges@)) {
            Ok(badges) => out matches Ok(found) && found@ == badges,
            Err(name) => out matches Err(RoboltError::Decode { cause }) && cause@ == unknown_badge(
                name,
            ),
        }
    }

    fn extract(self) -> (out: Result<Vec<RobloxBadge>, RoboltError>) {
        let ghost names = names_in(self.roblox_badges@);
        let mut found: Vec<RobloxBadge> = Vec::new();
        let mut i: usize = 0;
        while i < self.roblox_badges.len()
            invariant
                i <= self.roblox_badges.len(),
                names == names_in(self.roblox_badges@),
                badges_named(names.take(i as int)) == Ok::<Seq<RobloxBadge>, Seq<char>>(found@),
            decreases self.roblox_badges.len() - i,
        {
            proof {
                let next = names.take(i as int + 1);
                assert(next.drop_last() =~= names.take(i as int));
            }
            match RobloxBadge::from_str(self.roblox_badges[i].name.as_str()) {
                Ok(badge) => {
                    found.push(badge);
                },
                Err(cause) => {
                    proof {
                        lemma_first_unknown_stays(names, i as int + 1);
                    }
                    return Err(RoboltError::Decode { cause });
                },
            }
            i = i + 1;
        }
        assert(names.take(i as int) =~= names);
        Ok(found)
    }
}

/// An unknown name among the first `k` names is the first unknown name of
/// the whole list.
pub proof fn lemma_first_unknown_stays(names: Seq<Seq<char>>, k: int)
    requires
        0 <= k <= names.len(),
        badges_named(names.take(k)) is Err,
    ensures
        badges_named(names) == badges_named(names.take(k)),
    decreases names.len() - k,
{
    if k < names.len() {
        let next = names.take(k + 1);
        assert(next.drop_last() =~= names.take(k));
        lemma_first_unknown_stays(names, k + 1);
    } else {
        assert(names.take(k) =~= names);
    }
}

impl Shape for Badge {
    type Value = Badge;

    /// The record as decoded.
    open spec fn yields(self, out: Result<Badge, RoboltError>) -> bool {
        out == Ok::<Badge, RoboltError>(self)
    }

    fn extract(self) -> (out: Result<Badge, RoboltError>) {
        Ok(self)
    }
}

impl<State> Robolt<State> {
    /// The badge `id`.
    pub fn fetch_badge(&self, id: u64) -> (call: Call<Badge>)
        ensures
            call.issued().is_bare(
                Method::Get,
                self.endpoints().badges@ + "/v1/badges/"@ + decimal(id as nat),
            ),
    {
        let mut url = self.hosts().badges.clone();
        url.append("/v1/badges/");
        push_decimal(&mut url, id);
        self.request_builder(url).send()
    }

    /// The badges of the experience `id`, a hundred at most.
    pub fn fetch_game_badges(&self, id: u64) -> (call: Call<DataResponse<Badge>>)
        ensures
            call.issued().is_bare(
                Method::Get,
                self.endpoints().badges@ + "/v1/universes/"@ + decimal(id as nat)
                    + "/badges?limit=100"@,
            ),
    {
        self.get_by_id(&self.hosts().badges, "/v1/universes/", id, "/badges?limit=100").send()
    }

    /// The badges of the user `id`, a hundred at most.
    pub fn fetch_user_badges(&self, id: u64) -> (call: Call<DataResponse<Badge>>)
        ensures
            call.issued().is_bare(
                Method::Get,
                self.endpoints().badges@ + "/v1/users/"@ + decimal(id as nat)
                    + "/badges?limit=100"@,
            ),
    {
        self.get_by_id(&self.hosts().badges, "/v1/users/", id, "/badges?limit=100").send()
    }

    /// When the user `user_id` was awarded each of `badge_ids`. The ids go
    /// into the query in the order given, separated by commas.
    pub fn fetch_user_awarded_badge_dates(&self, user_id: u64, badge_ids: Vec<u64>) -> (call: Call<
        DataResponse<BadgeAwardDate>,
    >)
        ensures
            call.issued().is_bare(
                Method::Get,
                self.endpoints().badges@ + "/v1/users/"@ + decimal(user_id as nat)
                    + "/badges/awarded-dates?badgeIds="@ + comma_joined(badge_ids@),
            ),
    {
        let mut url = self.hosts().badges.clone();
        url.append("/v1/users/");
        push_decimal(&mut url, user_id);
        url.append("/badges/awarded-dates?badgeIds=");
        push_comma_joined(&mut url, &badge_ids);
        self.request_builder(url).send()
    }

    /// The Roblox badges of the user `id`.
    pub fn fetch_roblox_badges(&self, id: u64) -> (call: Call<RobloxBadgesResult>)
        ensures
            call.issued().is_bare(
                Method::Get,
                self.endpoints().web@ + "/badges/roblox?userId="@ + decimal(id as nat),
            ),
    {
        let mut url = self.hosts().web.clone();
        url.append("/badges/roblox?userId=");
        push_decimal(&mut url, id);
        self.request_builder(url).send()
    }

    /// Whether the user `id` has the Roblox badge `badge`: the same request
    /// as `fetch_roblox_badges`, remembered together with the badge looked
    /// for.
    pub fn has_roblox_badge(&self, id: u64, badge: RobloxBadge) -> (check: BadgeCheck)
        ensures
            check.badge() == badge,
            check.call().issued().is_bare(
                Method::Get,
                self.endpoints().web@ + "/badges/roblox?userId="@ + decimal(id as nat),
            ),
    {
        BadgeCheck { call: self.fetch_roblox_badges(id), badge }
    }
}

impl Robolt<Authenticated> {
    /// Starts an update of the badge `id` that changes nothing yet.
    pub fn update_badge(&self, id: u64) -> (builder: BadgeUpdateBuilder<'_>)
        ensures
            builder.badge_id() == id,
            builder.client() == *self,
            builder.changes() == (BadgeUpdate { name: None, description: None, enabled: None }),
    {
        BadgeUpdateBuilder::new(id, self)
    }

    /// Removes the badge `id` from the session's user.
    pub fn remove_badge(&self, id: u64) -> (call: Call<EmptyResponse>)
        ensures
            call.issued().is_bare(
                Method::Delete,
                self.endpoints().badges@ + "/v1/user/badges/"@ + decimal(id as nat),
            ),
    {
        let mut url = self.hosts().badges.clone();
        url.append("/v1/user/badges/");
        push_decimal(&mut url, id);
        self.request_builder(url).method(Method::Delete).send()
    }
}

impl<'a> BadgeUpdateBuilder<'a> {
    /// The badge to update.
    pub closed spec fn badge_id(self) -> u64 {
        self.id
    }

    /// The client the update goes through.
    pub closed spec fn client(self) -> Robolt<Authenticated> {
        *self.client
    }

    /// The changes collected so far.
    pub closed spec fn changes(self) -> BadgeUpdate {
        self.changes
    }

    fn new(id: u64, client: &'a Robolt<Authenticated>) -> (builder: Self)
        ensures
            builder.badge_id() == id,
            builder.client() == *client,
            builder.changes() == (BadgeUpdate { name: None, description: None, enabled: None }),
    {
        Self { id, client, changes: BadgeUpdate { name: None, description: None, enabled: None } }
    }

    /// Sets the badge's new name.
    pub fn name(self, name: &str) -> (next: Self)
        ensures
            next.badge_id() == self.badge_id(),
            next.client() == self.client(),
            next.changes()@ == (BadgeUpdateView { name: Some(name@), ..self.changes()@ }),
    {
        let BadgeUpdateBuilder { id, client, changes } = self;
        let BadgeUpdate { name: _, description, enabled } = changes;
        BadgeUpdateBuilder {
            id,
            client,
            changes: BadgeUpdate { name: Some(String::from_str(name)), description, enabled },
        }
    }

    /// Sets the badge's new description.
    pub fn description(self, description: &str) -> (next: Self)
        ensures
            next.badge_id() == self.badge_id(),
            next.client() == self.client(),
            next.changes()@ == (BadgeUpdateView {
                description: Some(description@),
                ..self.changes()@
            }),
    {
        let BadgeUpdateBuilder { id, client, changes } = self;
        let BadgeUpdate { name, description: _, enabled } = changes;
        BadgeUpdateBuilder {
            id,
            client,
            changes: BadgeUpdate {
                name,
                description: Some(String::from_str(description)),
                enabled,
            },
        }
    }

    /// Sets whether the badge is to be enabled.
    pub fn enabled(self, enabled: bool) -> (next: Self)
        ensures
            next.badge_id() == self.badge_id(),
            next.client() == self.client(),
            next.changes()@ == (BadgeUpdateView { enabled: Some(enabled), ..self.changes()@ }),
    {
        let BadgeUpdateBuilder { id, client, changes } = self;
        let BadgeUpdate { name, description, enabled: _ } = changes;
        BadgeUpdateBuilder {
            id,
            client,
            changes: BadgeUpdate { name, description, enabled: Some(enabled) },
        }
    }

    /// Issues the update: a PATCH of the badge whose body holds the changes
    /// collected, with nothing expected back but success or failure.
    pub fn update(self) -> (call: Call<EmptyResponse, BadgeUpdate>)
        ensures
            call.issued().method == Method::Patch,
            call.issued().endpoint@ == self.client().endpoints().badges@ + "/v1/badges/"@
                + decimal(self.badge_id() as nat),
            call.issued().body == Some(self.changes()),
    {
        let mut url = self.client.hosts().badges.clone();
        url.append("/v1/badges/");
        push_decimal(&mut url, self.id);
        self.client.request_builder(url).method(Method::Patch).send_body(Some(self.changes))
    }
}

/// Whether `badge` is among `badges`.
fn listed(badges: &Vec<RobloxBadge>, badge: RobloxBadge) -> (found: bool)
    ensures
        found == badges@.contains(badge),
{
    let mut i: usize = 0;
    while i < badges.len()
        invariant
            i <= badges.len(),
            forall|k: int| 0 <= k < i ==> badges@[k] != badge,
        decreases badges.len() - i,
    {
        if badges[i] == badge {
            return true;
        }
        i = i + 1;
    }
    false
}

impl BadgeCheck {
    /// The call that fetches the user's Roblox badges.
    pub closed spec fn call(self) -> Call<RobloxBadgesResult> {
        self.call
    }

    /// The badge looked for.
    pub closed spec fn badge(self) -> RobloxBadge {
        self.badge
    }

    /// The request to hand to the transport.
    pub fn request(&self) -> (req: &HttpRequest)
        ensures
            *req == self.call().issued(),
    {
        self.call.request()
    }

    /// Judges what the transport reported. A response in the success class
    /// hands out its body for decoding; anything else ends the check with
    /// the error.
    pub fn receive(self, exchange: Exchange) -> (out: Result<ReceivedBadges, RoboltError>)
        ensures
            match screened(exchange) {
                Ok(body) => out matches Ok(received) && received.body() == body
                    && received.badge() == self.badge(),
                Err(e) => out == Err::<ReceivedBadges, RoboltError>(e),
            },
    {
        let badge = self.badge;
        match self.call.receive(exchange) {
            Ok(received) => Ok(ReceivedBadges { received, badge }),
            Err(e) => Err(e),
        }
    }
}

impl ReceivedBadges {
    /// The body as received.
    pub closed spec fn body(self) -> Vec<u8> {
        self.received.body()
    }

    /// The badge looked for.
    pub closed spec fn badge(self) -> RobloxBadge {
        self.badge
    }

    /// Whether `out` is the answer, given what the decoder made of the body:
    /// whether the badge is among those listed, or why that cannot be said.
    pub open spec fn answers(
        self,
        parsed: Result<RobloxBadgesResult, String>,
        out: Result<bool, RoboltError>,
    ) -> bool {
        match parsed {
            Err(cause) => out == Err::<bool, RoboltError>(RoboltError::Decode { cause }),
            Ok(body) => match badges_named(names_in(body.roblox_badges@)) {
                Ok(badges) => out == Ok::<bool, RoboltError>(badges.contains(self.badge())),
                Err(name) => out matches Err(RoboltError::Decode { cause }) && cause@
                    == unknown_badge(name),
            },
        }
    }

    /// The bytes to decode as a list of Roblox badges.
    pub fn bytes(&self) -> (bytes: &Vec<u8>)
        ensures
            *bytes == self.body(),
    {
        self.received.bytes()
    }

    /// Ends the check with what the decoder made of the body.
    pub fn finish(self, parsed: Result<RobloxBadgesResult, String>) -> (out: Result<
        bool,
        RoboltError,
    >)
        ensures
            self.answers(parsed, out),
    {
        let badge = self.badge;
        match self.received.finish(parsed) {
            Ok(badges) => Ok(listed(&badges, badge)),
            Err(e) => Err(e),
        }
    }
}

} // verus!
