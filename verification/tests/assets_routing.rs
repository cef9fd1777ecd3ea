use frontend::assets::{img_asset, screenshot_asset};
use frontend::routing::{router_base_from_base_uri, router_base_from_document};

#[test]
fn image_asset_path() {
    assert_eq!(img_asset("icons/gold.svg"), "./assets/images/icons/gold.svg");
}

#[test]
fn screenshot_asset_path() {
    assert_eq!(screenshot_asset("town.webp"), "./assets/screenshots/town.webp");
}

#[test]
fn router_base_root_is_empty() {
    assert_eq!(router_base_from_base_uri("/".to_string()), "");
}

#[test]
fn router_base_html_path_gets_index() {
    assert_eq!(
        router_base_from_base_uri("/html/game".to_string()),
        "/html/game/index.html"
    );
    assert_eq!(
        router_base_from_base_uri("/html/game/".to_string()),
        "/html/game/index.html"
    );
    assert_eq!(
        router_base_from_base_uri("/html/index.html".to_string()),
        "/html/index.html"
    );
}

#[test]
fn router_base_is_rooted_and_trimmed() {
    assert_eq!(router_base_from_base_uri("webidler/".to_string()), "/webidler");
    assert_eq!(router_base_from_base_uri("/webidler///".to_string()), "/webidler");
    assert_eq!(router_base_from_base_uri("".to_string()), "");
}

#[test]
fn router_base_from_document_address() {
    assert_eq!(router_base_from_document(Some("https://example.com/")), "");
    assert_eq!(router_base_from_document(Some("https://example.com/webidler/")), "/webidler");
    assert_eq!(
        router_base_from_document(Some("http://localhost:8080/html/game?x=1")),
        "/html/game/index.html"
    );
    assert_eq!(router_base_from_document(Some("not a url")), "");
    assert_eq!(router_base_from_document(None), "");
}

#[test]
fn router_base_is_idempotent_on_rooted_paths() {
    for s in ["", "/", "/html/game", "/webidler///", "/html/index.html", "//"] {
        let r = router_base_from_base_uri(s.to_string());
        assert!(r.is_empty() || (r.starts_with('/') && !r.ends_with('/')));
        assert_eq!(router_base_from_base_uri(r.clone()), r);
    }
}
