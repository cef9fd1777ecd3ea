//! What the HTTP client of the game backend computes: where each request
//! goes, how it is sent, and how a failed answer is reported.

use vstd::prelude::*;
use vstd::string::*;
use crate::auth::AuthState;
use crate::routing::{trim_end_char, trim_end_slashes};
use crate::text::{contains_seq, str_contains};

verus! {

/// Why a request to the backend failed.
#[derive(Clone, Debug, PartialEq, Eq)]
pub enum BackendError {
    NotFound,
    Unauthorized(String),
    Forbidden,
    UserError(String),
    ServerError(String),
    ServerNotResponding,
    OtherError,
}

/// The message shown to the user for an error.
pub open spec fn error_message(e: BackendError) -> Seq<char> {
    match e {
        BackendError::NotFound => "Not found"@,
        BackendError::Unauthorized(reason) => "Unauthorized: "@ + reason@,
        BackendError::Forbidden => "Forbidden"@,
        BackendError::UserError(reason) => reason@,
        BackendError::ServerError(reason) => "Server error: "@ + reason@,
        BackendError::ServerNotResponding => "Server not responding"@,
        BackendError::OtherError => "Unknown error"@,
    }
}

/// `a` followed by `b`.
pub fn concat(a: &str, b: &str) -> (r: String)
    ensures
        r@ == a@ + b@,
{
    let mut r = String::from_str(a);
    r.append(b);
    r
}

/// `a` followed by `b` and `c`.
pub fn concat3(a: &str, b: &str, c: &str) -> (r: String)
    ensures
        r@ == a@ + b@ + c@,
{
    let mut r = String::from_str(a);
    r.append(b);
    r.append(c);
    r
}

impl BackendError {
    /// The message shown to the user for this error.
    pub fn message(&self) -> (m: String)
        ensures
            m@ == error_message(*self),
    {
        match self {
            BackendError::NotFound => String::from_str("Not found"),
            BackendError::Unauthorized(reason) => concat("Unauthorized: ", reason.as_str()),
            BackendError::Forbidden => String::from_str("Forbidden"),
            BackendError::UserError(reason) => reason.clone(),
            BackendError::ServerError(reason) => concat("Server error: ", reason.as_str()),
            BackendError::ServerNotResponding => String::from_str("Server not responding"),
            BackendError::OtherError => String::from_str("Unknown error"),
        }
    }
}

/// Whether the status is one that the client tells apart.
pub open spec fn is_known_status(status: u16) -> bool {
    status == 200 || status == 404 || status == 401 || status == 403 || status == 409 || status
        == 500
}

/// The error for an answer with status `status` whose body carried
/// `error_text` (empty where it carried none), or `None` for 200 OK.
pub fn error_for_status(status: u16, error_text: String) -> (e: Option<BackendError>)
    ensures
        status == 200 <==> e is None,
        status == 404 ==> e == Some(BackendError::NotFound),
        status == 401 ==> e == Some(BackendError::Unauthorized(error_text)),
        status == 403 ==> e == Some(BackendError::Forbidden),
        status == 409 ==> e == Some(BackendError::UserError(error_text)),
        status == 500 ==> e == Some(BackendError::ServerError(error_text)),
        !is_known_status(status) ==> e == Some(BackendError::OtherError),
{
    if status == 200 {
        None
    } else if status == 404 {
        Some(BackendError::NotFound)
    } else if status == 401 {
        Some(BackendError::Unauthorized(error_text))
    } else if status == 403 {
        Some(BackendError::Forbidden)
    } else if status == 409 {
        Some(BackendError::UserError(error_text))
    } else if status == 500 {
        Some(BackendError::ServerError(error_text))
    } else {
        Some(BackendError::OtherError)
    }
}

/// Whether an answer's body is MessagePack (else it is JSON): its content
/// type mentions `msgpack`.
pub fn is_msgpack_content(content_type: &str) -> (b: bool)
    ensures
        b == contains_seq(content_type@, "msgpack"@),
{
    str_contains(content_type, "msgpack")
}

/// How a request is sent.
#[derive(Clone, Copy, Debug, PartialEq, Eq, Structural)]
pub enum Method {
    /// GET without credentials.
    Get,
    /// GET with the access token.
    GetAuth,
    /// POST of a JSON payload, with the cookies of the site.
    Post,
    /// POST of a JSON payload with the access token.
    PostAuth,
    /// DELETE with the access token.
    DeleteAuth,
}

/// A request to the backend. The identifiers are in their text form.
#[derive(Clone, Debug)]
pub enum Endpoint {
    PlayersCount,
    Leaderboard { realm_id: String },
    News,
    Areas,
    Skills,
    Statuses,
    Passives,
    AscendPassives,
    SocketPassive,
    SavePassives,
    Benedictions,
    BuyBenedictions,
    SaveSkillMasteries,
    Me,
    SignIn,
    Refresh,
    SignOut,
    SignUp,
    ForgotPassword,
    ResetPassword,
    UpdateAccount,
    DeleteAccount { user_id: String },
    DiscordInvite,
    UserCharacters { user_id: String },
    CharacterDetails { character_id: String },
    CharacterByName { character_name: String },
    CreateCharacter { user_id: String },
    UpdateCharacter { character_id: String },
    DeleteCharacter { character_id: String },
    BrowseMarketItems,
    BuyMarketItem,
    RejectMarketItem,
    SellMarketItem,
    EditMarketItem,
    UpgradeStash,
    ExchangeGemsStash { stash_id: String },
    BrowseStashItems { stash_id: String },
    TakeStashItem { stash_id: String },
    StoreStashItem { stash_id: String },
    ForgeAffix,
    ForgeUpgrade,
    GambleItem,
    InventoryEquip,
    InventoryUnequip,
    InventoryDelete,
}

/// The path of a request, below the backend's URL.
pub open spec fn endpoint_path(e: Endpoint) -> Seq<char> {
    match e {
        Endpoint::PlayersCount => "players"@,
        Endpoint::Leaderboard { realm_id } => "leaderboard?realm="@ + realm_id@,
        Endpoint::News => "news"@,
        Endpoint::Areas => "game/areas"@,
        Endpoint::Skills => "game/skills"@,
        Endpoint::Statuses => "game/statuses"@,
        Endpoint::Passives => "game/passives"@,
        Endpoint::AscendPassives => "game/passives"@,
        Endpoint::SocketPassive => "game/passives/socket"@,
        Endpoint::SavePassives => "game/passives/build"@,
        Endpoint::Benedictions => "game/benedictions"@,
        Endpoint::BuyBenedictions => "game/benedictions"@,
        Endpoint::SaveSkillMasteries => "game/skill-masteries"@,
        Endpoint::Me => "account/me"@,
        Endpoint::SignIn => "account/signin"@,
        Endpoint::Refresh => "account/refresh"@,
        Endpoint::SignOut => "account/signout"@,
        Endpoint::SignUp => "account/signup"@,
        Endpoint::ForgotPassword => "account/forgot-password"@,
        Endpoint::ResetPassword => "account/reset-password"@,
        Endpoint::UpdateAccount => "account/update"@,
        Endpoint::DeleteAccount { user_id } => "account/"@ + user_id@,
        Endpoint::DiscordInvite => "discord"@,
        Endpoint::UserCharacters { user_id } => "users/"@ + user_id@ + "/characters"@,
        Endpoint::CharacterDetails { character_id } => "characters/"@ + character_id@,
        Endpoint::CharacterByName { character_name } => "view-character/"@ + character_name@,
        Endpoint::CreateCharacter { user_id } => "users/"@ + user_id@ + "/characters"@,
        Endpoint::UpdateCharacter { character_id } => "characters/"@ + character_id@,
        Endpoint::DeleteCharacter { character_id } => "characters/"@ + character_id@,
        Endpoint::BrowseMarketItems => "market"@,
        Endpoint::BuyMarketItem => "market/buy"@,
        Endpoint::RejectMarketItem => "market/reject"@,
        Endpoint::SellMarketItem => "market/sell"@,
        Endpoint::EditMarketItem => "market/edit"@,
        Endpoint::UpgradeStash => "stashes/upgrade"@,
        Endpoint::ExchangeGemsStash { stash_id } => "stashes/"@ + stash_id@ + "/gems"@,
        Endpoint::BrowseStashItems { stash_id } => "stashes/"@ + stash_id@,
        Endpoint::TakeStashItem { stash_id } => "stashes/"@ + stash_id@ + "/take"@,
        Endpoint::StoreStashItem { stash_id } => "stashes/"@ + stash_id@ + "/store"@,
        Endpoint::ForgeAffix => "forge/affix"@,
        Endpoint::ForgeUpgrade => "forge/upgrade"@,
        Endpoint::GambleItem => "forge/gamble"@,
        Endpoint::InventoryEquip => "inventory/equip"@,
        Endpoint::InventoryUnequip => "inventory/unequip"@,
        Endpoint::InventoryDelete => "inventory/delete"@,
    }
}

/// How a request is sent.
pub open spec fn endpoint_method(e: Endpoint) -> Method {
    match e {
        Endpoint::PlayersCount | Endpoint::Leaderboard { .. } | Endpoint::News | Endpoint::Areas
        | Endpoint::Skills | Endpoint::Statuses | Endpoint::Passives | Endpoint::Benedictions
        | Endpoint::CharacterByName { .. } => Method::Get,
        Endpoint::Me | Endpoint::DiscordInvite | Endpoint::UserCharacters { .. }
        | Endpoint::CharacterDetails { .. } => Method::GetAuth,
        Endpoint::SignIn | Endpoint::Refresh | Endpoint::SignOut | Endpoint::SignUp
        | Endpoint::ForgotPassword | Endpoint::ResetPassword => Method::Post,
        Endpoint::DeleteAccount { .. } | Endpoint::DeleteCharacter { .. } => Method::DeleteAuth,
        _ => Method::PostAuth,
    }
}

impl Endpoint {
    /// The path of the request, below the backend's URL.
    pub fn path(&self) -> (p: String)
        ensures
            p@ == endpoint_path(*self),
    {
        match self {
            Endpoint::PlayersCount => String::from_str("players"),
            Endpoint::Leaderboard { realm_id } => concat("leaderboard?realm=", realm_id.as_str()),
            Endpoint::News => String::from_str("news"),
            Endpoint::Areas => String::from_str("game/areas"),
            Endpoint::Skills => String::from_str("game/skills"),
            Endpoint::Statuses => String::from_str("game/statuses"),
            Endpoint::Passives => String::from_str("game/passives"),
            Endpoint::AscendPassives => String::from_str("game/passives"),
            Endpoint::SocketPassive => String::from_str("game/passives/socket"),
            Endpoint::SavePassives => String::from_str("game/passives/build"),
            Endpoint::Benedictions => String::from_str("game/benedictions"),
            Endpoint::BuyBenedictions => String::from_str("game/benedictions"),
            Endpoint::SaveSkillMasteries => String::from_str("game/skill-masteries"),
            Endpoint::Me => String::from_str("account/me"),
            Endpoint::SignIn => String::from_str("account/signin"),
            Endpoint::Refresh => String::from_str("account/refresh"),
            Endpoint::SignOut => String::from_str("account/signout"),
            Endpoint::SignUp => String::from_str("account/signup"),
            Endpoint::ForgotPassword => String::from_str("account/forgot-password"),
            Endpoint::ResetPassword => String::from_str("account/reset-password"),
            Endpoint::UpdateAccount => String::from_str("account/update"),
            Endpoint::DeleteAccount { user_id } => concat("account/", user_id.as_str()),
            Endpoint::DiscordInvite => String::from_str("discord"),
            Endpoint::UserCharacters { user_id } => concat3(
                "users/",
                user_id.as_str(),
                "/characters",
            ),
            Endpoint::CharacterDetails { character_id } => concat(
                "characters/",
                character_id.as_str(),
            ),
            Endpoint::CharacterByName { character_name } => concat(
                "view-character/",
                character_name.as_str(),
            ),
            Endpoint::CreateCharacter { user_id } => concat3(
                "users/",
                user_id.as_str(),
                "/characters",
            ),
            Endpoint::UpdateCharacter { character_id } => concat(
                "characters/",
                character_id.as_str(),
            ),
            Endpoint::DeleteCharacter { character_id } => concat(
                "characters/",
                character_id.as_str(),
            ),
            Endpoint::BrowseMarketItems => String::from_str("market"),
            Endpoint::BuyMarketItem => String::from_str("market/buy"),
            Endpoint::RejectMarketItem => String::from_str("market/reject"),
            Endpoint::SellMarketItem => String::from_str("market/sell"),
            Endpoint::EditMarketItem => String::from_str("market/edit"),
            Endpoint::UpgradeStash => String::from_str("stashes/upgrade"),
            Endpoint::ExchangeGemsStash { stash_id } => concat3(
                "stashes/",
                stash_id.as_str(),
                "/gems",
            ),
            Endpoint::BrowseStashItems { stash_id } => concat("stashes/", stash_id.as_str()),
            Endpoint::TakeStashItem { stash_id } => concat3(
                "stashes/",
                stash_id.as_str(),
                "/take",
            ),
            Endpoint::StoreStashItem { stash_id } => concat3(
                "stashes/",
                stash_id.as_str(),
                "/store",
            ),
            Endpoint::ForgeAffix => String::from_str("forge/affix"),
            Endpoint::ForgeUpgrade => String::from_str("forge/upgrade"),
            Endpoint::GambleItem => String::from_str("forge/gamble"),
            Endpoint::InventoryEquip => String::from_str("inventory/equip"),
            Endpoint::InventoryUnequip => String::from_str("inventory/unequip"),
            Endpoint::InventoryDelete => String::from_str("inventory/delete"),
        }
    }

    /// How the request is sent.
    pub fn method(&self) -> (m: Method)
        ensures
            m == endpoint_method(*self),
    {
        match self {
            Endpoint::PlayersCount | Endpoint::Leaderboard { .. } | Endpoint::News
            | Endpoint::Areas | Endpoint::Skills | Endpoint::Statuses | Endpoint::Passives
            | Endpoint::Benedictions | Endpoint::CharacterByName { .. } => Method::Get,
            Endpoint::Me | Endpoint::DiscordInvite | Endpoint::UserCharacters { .. }
            | Endpoint::CharacterDetails { .. } => Method::GetAuth,
            Endpoint::SignIn | Endpoint::Refresh | Endpoint::SignOut | Endpoint::SignUp
            | Endpoint::ForgotPassword | Endpoint::ResetPassword => Method::Post,
            Endpoint::DeleteAccount { .. } | Endpoint::DeleteCharacter { .. } => Method::DeleteAuth,
            _ => Method::PostAuth,
        }
    }
}

/// Where the client sends its requests, and the user's access token.
pub struct BackendClient {
    http_url: String,
    ws_url: String,
    auth: AuthState,
}

impl BackendClient {
    /// A client of the backend at `http_url` (HTTP) and `ws_url` (websocket);
    /// the `/`s at the end of either are dropped. No token is held yet.
    pub fn new(http_url: &str, ws_url: &str) -> (client: Self)
        ensures
            client.http_url()@ == trim_end_char(http_url@, '/'),
            client.ws_url()@ == trim_end_char(ws_url@, '/'),
            client.auth()@.jwt.len() == 0,
            client.auth()@.exp is None,
            client.auth()@.refreshing,
    {
        BackendClient {
            http_url: trim_end_slashes(http_url),
            ws_url: trim_end_slashes(ws_url),
            auth: AuthState::new(),
        }
    }

    /// The HTTP address of the backend.
    pub closed spec fn http_url(&self) -> String {
        self.http_url
    }

    /// The websocket address of the backend.
    pub closed spec fn ws_url(&self) -> String {
        self.ws_url
    }

    /// The user's access token.
    pub closed spec fn auth(&self) -> AuthState {
        self.auth
    }

    /// The user's access token.
    pub fn auth_state(&self) -> (a: &AuthState)
        ensures
            *a == self.auth(),
    {
        &self.auth
    }

    /// The user's access token, to update it.
    pub fn auth_state_mut(&mut self) -> (a: &mut AuthState)
        ensures
            *a == old(self).auth(),
            final(self).auth() == *final(a),
            final(self).http_url() == old(self).http_url(),
            final(self).ws_url() == old(self).ws_url(),
    {
        &mut self.auth
    }

    /// Forgets the user's token.
    pub fn sign_out(&mut self)
        ensures
            final(self).auth()@.jwt.len() == 0,
            final(self).auth()@.exp is None,
            !final(self).auth()@.refreshing,
            final(self).http_url() == old(self).http_url(),
            final(self).ws_url() == old(self).ws_url(),
    {
        self.auth.sign_out();
    }

    /// Whether the user holds a token.
    pub fn is_authenticated(&self) -> (b: bool)
        ensures
            b == (self.auth()@.jwt.len() > 0),
    {
        self.auth.is_authenticated()
    }

    /// The address of the game's websocket.
    pub fn get_game_ws_url(&self) -> (url: String)
        ensures
            url@ == self.ws_url()@ + "/ws"@,
    {
        concat(self.ws_url.as_str(), "/ws")
    }

    /// The full address of a request.
    pub fn url(&self, endpoint: &Endpoint) -> (url: String)
        ensures
            url@ == self.http_url()@ + "/"@ + endpoint_path(*endpoint),
    {
        let path = endpoint.path();
        concat3(self.http_url.as_str(), "/", path.as_str())
    }

    /// A sign-in was answered with `jwt`, whose claims give the expiry `exp`:
    /// the client now holds that token.
    pub fn signed_in(&mut self, jwt: String, exp: Option<i64>)
        ensures
            final(self).auth()@.jwt == jwt@,
            final(self).auth()@.exp == exp,
            !final(self).auth()@.refreshing,
            final(self).http_url() == old(self).http_url(),
            final(self).ws_url() == old(self).ws_url(),
    {
        self.auth.set_access_token(jwt, exp);
    }
}

/// Whether a request carries no identifier in its path.
pub open spec fn parameterless(e: Endpoint) -> bool {
    matches!(e, Endpoint::PlayersCount
        | Endpoint::News
        | Endpoint::Areas
        | Endpoint::Skills
        | Endpoint::Statuses
        | Endpoint::Passives
        | Endpoint::AscendPassives
        | Endpoint::SocketPassive
        | Endpoint::SavePassives
        | Endpoint::Benedictions
        | Endpoint::BuyBenedictions
        | Endpoint::SaveSkillMasteries
        | Endpoint::Me
        | Endpoint::SignIn
        | Endpoint::Refresh
        | Endpoint::SignOut
        | Endpoint::SignUp
        | Endpoint::ForgotPassword
        | Endpoint::ResetPassword
        | Endpoint::UpdateAccount
        | Endpoint::DiscordInvite
        | Endpoint::BrowseMarketItems
        | Endpoint::BuyMarketItem
        | Endpoint::RejectMarketItem
        | Endpoint::SellMarketItem
        | Endpoint::EditMarketItem
        | Endpoint::UpgradeStash
        | Endpoint::ForgeAffix
        | Endpoint::ForgeUpgrade
        | Endpoint::GambleItem
        | Endpoint::InventoryEquip
        | Endpoint::InventoryUnequip
        | Endpoint::InventoryDelete)
}

/// The character of `p` at `i`, or a space past its end.
spec fn char_at(p: Seq<char>, i: int) -> char {
    if 0 <= i < p.len() {
        p[i]
    } else {
        ' '
    }
}

/// A few features of a path that tell the backend's routes apart: its
/// length and three of its characters.
spec fn route_features(p: Seq<char>) -> (int, char, char, char) {
    (p.len() as int, char_at(p, 0), char_at(p, 7), char_at(p, 12))
}

/// The features of the path of each request without identifier.
spec fn expected_features(e: Endpoint) -> (int, char, char, char) {
    match e {
        Endpoint::PlayersCount => (7, 'p', ' ', ' '),
        Endpoint::News => (4, 'n', ' ', ' '),
        Endpoint::Areas => (10, 'g', 'e', ' '),
        Endpoint::Skills => (11, 'g', 'i', ' '),
        Endpoint::Statuses => (13, 'g', 'a', 's'),
        Endpoint::Passives => (13, 'g', 's', 's'),
        Endpoint::AscendPassives => (13, 'g', 's', 's'),
        Endpoint::SocketPassive => (20, 'g', 's', 's'),
        Endpoint::SavePassives => (19, 'g', 's', 's'),
        Endpoint::Benedictions => (17, 'g', 'n', 't'),
        Endpoint::BuyBenedictions => (17, 'g', 'n', 't'),
        Endpoint::SaveSkillMasteries => (20, 'g', 'i', 'a'),
        Endpoint::Me => (10, 'a', '/', ' '),
        Endpoint::SignIn => (14, 'a', '/', 'i'),
        Endpoint::Refresh => (15, 'a', '/', 'e'),
        Endpoint::SignOut => (15, 'a', '/', 'o'),
        Endpoint::SignUp => (14, 'a', '/', 'u'),
        Endpoint::ForgotPassword => (23, 'a', '/', 'o'),
        Endpoint::ResetPassword => (22, 'a', '/', 't'),
        Endpoint::UpdateAccount => (14, 'a', '/', 't'),
        Endpoint::DiscordInvite => (7, 'd', ' ', ' '),
        Endpoint::BrowseMarketItems => (6, 'm', ' ', ' '),
        Endpoint::BuyMarketItem => (10, 'm', 'b', ' '),
        Endpoint::RejectMarketItem => (13, 'm', 'r', 't'),
        Endpoint::SellMarketItem => (11, 'm', 's', ' '),
        Endpoint::EditMarketItem => (11, 'm', 'e', ' '),
        Endpoint::UpgradeStash => (15, 's', '/', 'a'),
        Endpoint::ForgeAffix => (11, 'f', 'f', ' '),
        Endpoint::ForgeUpgrade => (13, 'f', 'p', 'e'),
        Endpoint::GambleItem => (12, 'f', 'a', ' '),
        Endpoint::InventoryEquip => (15, 'i', 'r', 'u'),
        Endpoint::InventoryUnequip => (17, 'i', 'r', 'e'),
        Endpoint::InventoryDelete => (16, 'i', 'r', 'l'),
        _ => (0, ' ', ' ', ' '),
    }
}

proof fn lemma_route_features(e: Endpoint)
    requires
        parameterless(e),
    ensures
        route_features(endpoint_path(e)) == expected_features(e),
{
    match e {
        Endpoint::PlayersCount => {
            reveal_strlit("players");
        },
        Endpoint::News => {
            reveal_strlit("news");
        },
        Endpoint::Areas => {
            reveal_strlit("game/areas");
        },
        Endpoint::Skills => {
            reveal_strlit("game/skills");
        },
        Endpoint::Statuses => {
            reveal_strlit("game/statuses");
        },
        Endpoint::Passives => {
            reveal_strlit("game/passives");
        },
        Endpoint::AscendPassives => {
            reveal_strlit("game/passives");
        },
        Endpoint::SocketPassive => {
            reveal_strlit("game/passives/socket");
        },
        Endpoint::SavePassives => {
            reveal_strlit("game/passives/build");
        },
        Endpoint::Benedictions => {
            reveal_strlit("game/benedictions");
        },
        Endpoint::BuyBenedictions => {
            reveal_strlit("game/benedictions");
        },
        Endpoint::SaveSkillMasteries => {
            reveal_strlit("game/skill-masteries");
        },
        Endpoint::Me => {
            reveal_strlit("account/me");
        },
        Endpoint::SignIn => {
            reveal_strlit("account/signin");
        },
        Endpoint::Refresh => {
            reveal_strlit("account/refresh");
        },
        Endpoint::SignOut => {
            reveal_strlit("account/signout");
        },
        Endpoint::SignUp => {
            reveal_strlit("account/signup");
        },
        Endpoint::ForgotPassword => {
            reveal_strlit("account/forgot-password");
        },
        Endpoint::ResetPassword => {
            reveal_strlit("account/reset-password");
        },
        Endpoint::UpdateAccount => {
            reveal_strlit("account/update");
        },
        Endpoint::DiscordInvite => {
            reveal_strlit("discord");
        },
        Endpoint::BrowseMarketItems => {
            reveal_strlit("market");
        },
        Endpoint::BuyMarketItem => {
            reveal_strlit("market/buy");
        },
        Endpoint::RejectMarketItem => {
            reveal_strlit("market/reject");
        },
        Endpoint::SellMarketItem => {
            reveal_strlit("market/sell");
        },
        Endpoint::EditMarketItem => {
            reveal_strlit("market/edit");
        },
        Endpoint::UpgradeStash => {
            reveal_strlit("stashes/upgrade");
        },
        Endpoint::ForgeAffix => {
            reveal_strlit("forge/affix");
        },
        Endpoint::ForgeUpgrade => {
            reveal_strlit("forge/upgrade");
        },
        Endpoint::GambleItem => {
            reveal_strlit("forge/gamble");
        },
        Endpoint::InventoryEquip => {
            reveal_strlit("inventory/equip");
        },
        Endpoint::InventoryUnequip => {
            reveal_strlit("inventory/unequip");
        },
        Endpoint::InventoryDelete => {
            reveal_strlit("inventory/delete");
        },
        _ => {},
    }
}

/// Two requests without identifiers that ask the backend for different
/// things never go out alike: where both the path and the way of sending
/// are the same, the requests are the same.
pub proof fn law_distinct_requests_distinct_routes(e1: Endpoint, e2: Endpoint)
    requires
        parameterless(e1),
        parameterless(e2),
        endpoint_path(e1) == endpoint_path(e2),
        endpoint_method(e1) == endpoint_method(e2),
    ensures
        e1 == e2,
{
    lemma_route_features(e1);
    lemma_route_features(e2);
}

} // verus!
