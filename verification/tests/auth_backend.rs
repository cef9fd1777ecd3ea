use frontend::auth::{jwt_claims_bytes, jwt_payload, AuthState, TokenRequest};
use frontend::backend::{
    error_for_status, is_msgpack_content, BackendClient, BackendError, Endpoint, Method,
};

#[test]
fn payload_is_second_segment() {
    assert_eq!(jwt_payload("head.body.sig"), Some("body".to_string()));
    assert_eq!(jwt_payload("head.body"), Some("body".to_string()));
    assert_eq!(jwt_payload("head..sig"), Some("".to_string()));
    assert_eq!(jwt_payload("nodots"), None);
}

#[test]
fn claims_are_base64_decoded() {
    let token = "eyJhbGciOiJIUzI1NiJ9.eyJleHAiOjE3MDAwMDAwMDB9.c2ln";
    assert_eq!(
        jwt_claims_bytes(token),
        Some(b"{\"exp\":1700000000}".to_vec())
    );
}

#[test]
fn claims_missing_or_invalid() {
    assert_eq!(jwt_claims_bytes("no-payload"), None);
    assert_eq!(jwt_claims_bytes("a.!!!.b"), None);
}

#[test]
fn new_state_refreshes() {
    let auth = AuthState::new();
    assert!(!auth.is_authenticated());
    assert!(auth.is_refreshing());
    assert!(auth.should_refresh(0));
}

#[test]
fn token_used_until_a_minute_before_expiry() {
    let mut auth = AuthState::new();
    auth.set_access_token("tok".to_string(), Some(1000));
    assert!(auth.is_authenticated());
    assert!(!auth.is_refreshing());
    assert_eq!(auth.token(), "tok");
    assert!(!auth.should_refresh(939));
    assert!(auth.should_refresh(940));
    match auth.begin_get_access_token(900) {
        TokenRequest::Current(t) => assert_eq!(t, "tok"),
        TokenRequest::Refresh => panic!("token is still fresh"),
    }
    assert!(!auth.is_refreshing());
}

#[test]
fn token_without_expiry_is_refreshed() {
    let mut auth = AuthState::new();
    auth.set_access_token("tok".to_string(), None);
    assert!(auth.should_refresh(0));
    assert!(matches!(auth.begin_get_access_token(0), TokenRequest::Refresh));
    assert!(auth.is_refreshing());
}

#[test]
fn refresh_success_stores_new_token() {
    let mut auth = AuthState::new();
    assert!(matches!(auth.begin_get_access_token(10), TokenRequest::Refresh));
    let r: Result<String, BackendError> =
        auth.finish_refresh(Ok(("new".to_string(), Some(5000))));
    assert_eq!(r, Ok("new".to_string()));
    assert_eq!(auth.token(), "new");
    assert!(!auth.should_refresh(10));
    assert!(!auth.is_refreshing());
}

#[test]
fn refresh_failure_signs_out() {
    let mut auth = AuthState::new();
    auth.set_access_token("old".to_string(), Some(0));
    assert!(matches!(auth.begin_get_access_token(10), TokenRequest::Refresh));
    let r = auth.finish_refresh(Err(BackendError::Forbidden));
    assert_eq!(r, Err(BackendError::Forbidden));
    assert!(!auth.is_authenticated());
    assert!(!auth.is_refreshing());
}

#[test]
fn sign_out_forgets_token() {
    let mut auth = AuthState::new();
    auth.set_access_token("tok".to_string(), Some(99999));
    auth.sign_out();
    assert!(!auth.is_authenticated());
    assert_eq!(auth.token(), "");
    assert!(auth.should_refresh(0));
}

#[test]
fn error_messages() {
    assert_eq!(BackendError::NotFound.message(), "Not found");
    assert_eq!(
        BackendError::Unauthorized("bad token".to_string()).message(),
        "Unauthorized: bad token"
    );
    assert_eq!(BackendError::Forbidden.message(), "Forbidden");
    assert_eq!(BackendError::UserError("Name taken".to_string()).message(), "Name taken");
    assert_eq!(
        BackendError::ServerError("boom".to_string()).message(),
        "Server error: boom"
    );
    assert_eq!(BackendError::ServerNotResponding.message(), "Server not responding");
    assert_eq!(BackendError::OtherError.message(), "Unknown error");
}

#[test]
fn status_codes_give_errors() {
    assert_eq!(error_for_status(200, "x".to_string()), None);
    assert_eq!(error_for_status(404, "x".to_string()), Some(BackendError::NotFound));
    assert_eq!(
        error_for_status(401, "expired".to_string()),
        Some(BackendError::Unauthorized("expired".to_string()))
    );
    assert_eq!(error_for_status(403, "".to_string()), Some(BackendError::Forbidden));
    assert_eq!(
        error_for_status(409, "taken".to_string()),
        Some(BackendError::UserError("taken".to_string()))
    );
    assert_eq!(
        error_for_status(500, "".to_string()),
        Some(BackendError::ServerError("".to_string()))
    );
    assert_eq!(error_for_status(418, "x".to_string()), Some(BackendError::OtherError));
    assert_eq!(error_for_status(201, "x".to_string()), Some(BackendError::OtherError));
}

#[test]
fn msgpack_content_type() {
    assert!(is_msgpack_content("application/msgpack"));
    assert!(is_msgpack_content("application/x-msgpack; charset=binary"));
    assert!(!is_msgpack_content("application/json"));
    assert!(!is_msgpack_content(""));
}

#[test]
fn client_urls() {
    let client = BackendClient::new("http://localhost:4200/", "ws://localhost:4200//");
    assert_eq!(client.get_game_ws_url(), "ws://localhost:4200/ws");
    assert_eq!(client.url(&Endpoint::PlayersCount), "http://localhost:4200/players");
    assert_eq!(
        client.url(&Endpoint::Leaderboard { realm_id: "3".to_string() }),
        "http://localhost:4200/leaderboard?realm=3"
    );
    assert!(!client.is_authenticated());
}

#[test]
fn endpoint_paths() {
    let id = "42".to_string();
    assert_eq!(Endpoint::Areas.path(), "game/areas");
    assert_eq!(Endpoint::SocketPassive.path(), "game/passives/socket");
    assert_eq!(Endpoint::SavePassives.path(), "game/passives/build");
    assert_eq!(Endpoint::SaveSkillMasteries.path(), "game/skill-masteries");
    assert_eq!(Endpoint::DeleteAccount { user_id: id.clone() }.path(), "account/42");
    assert_eq!(
        Endpoint::UserCharacters { user_id: id.clone() }.path(),
        "users/42/characters"
    );
    assert_eq!(
        Endpoint::CharacterByName { character_name: "Bob".to_string() }.path(),
        "view-character/Bob"
    );
    assert_eq!(
        Endpoint::ExchangeGemsStash { stash_id: id.clone() }.path(),
        "stashes/42/gems"
    );
    assert_eq!(Endpoint::TakeStashItem { stash_id: id.clone() }.path(), "stashes/42/take");
    assert_eq!(Endpoint::StoreStashItem { stash_id: id.clone() }.path(), "stashes/42/store");
    assert_eq!(Endpoint::BrowseStashItems { stash_id: id }.path(), "stashes/42");
    assert_eq!(Endpoint::GambleItem.path(), "forge/gamble");
    assert_eq!(Endpoint::InventoryDelete.path(), "inventory/delete");
    assert_eq!(Endpoint::ForgotPassword.path(), "account/forgot-password");
}

#[test]
fn endpoint_methods() {
    assert_eq!(Endpoint::News.method(), Method::Get);
    assert_eq!(Endpoint::Me.method(), Method::GetAuth);
    assert_eq!(Endpoint::SignIn.method(), Method::Post);
    assert_eq!(Endpoint::Refresh.method(), Method::Post);
    assert_eq!(Endpoint::AscendPassives.method(), Method::PostAuth);
    assert_eq!(Endpoint::Passives.method(), Method::Get);
    assert_eq!(
        Endpoint::DeleteCharacter { character_id: "1".to_string() }.method(),
        Method::DeleteAuth
    );
    assert_eq!(
        Endpoint::CharacterDetails { character_id: "1".to_string() }.method(),
        Method::GetAuth
    );
    assert_eq!(Endpoint::BuyMarketItem.method(), Method::PostAuth);
}

#[test]
fn signing_in_stores_token() {
    let mut client = BackendClient::new("http://h", "ws://h");
    client.signed_in("jwt".to_string(), Some(10));
    assert!(client.is_authenticated());
    assert_eq!(client.auth_state().token(), "jwt");
    client.sign_out();
    assert!(!client.is_authenticated());
}
