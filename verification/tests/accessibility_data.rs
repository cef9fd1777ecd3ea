use frontend::accessibility::{AccessibilityContext, FullscreenRequest};
use frontend::data::DataNames;

#[test]
fn mobile_detection() {
    let phone = AccessibilityContext::new("Mozilla/5.0 (Linux; Android 13) Mobile Safari", false);
    assert!(phone.is_on_mobile());
    let desktop = AccessibilityContext::new("Mozilla/5.0 (X11; Linux x86_64) Firefox/120.0", true);
    assert!(!desktop.is_on_mobile());
    assert!(desktop.is_fullscreen());
}

#[test]
fn fullscreen_only_on_mobile() {
    let mut phone = AccessibilityContext::new("Mobi", false);
    assert_eq!(phone.go_fullscreen(), Some(FullscreenRequest::Enter));
    assert_eq!(phone.exit_fullscreen(), Some(FullscreenRequest::Exit));
    assert_eq!(phone.toggle_fullscreen(), Some(FullscreenRequest::Enter));
    phone.set_fullscreen(true);
    assert_eq!(phone.toggle_fullscreen(), Some(FullscreenRequest::Exit));
    let desktop = AccessibilityContext::new("Desktop", false);
    assert_eq!(desktop.go_fullscreen(), None);
    assert_eq!(desktop.exit_fullscreen(), None);
    assert_eq!(desktop.toggle_fullscreen(), None);
}

#[test]
fn names_from_data() {
    let mut data = DataNames::new();
    assert_eq!(data.skill_name("fireball"), "fireball");
    data.load(
        vec![("fireball".to_string(), "Fire Ball".to_string()), ("fireball".to_string(), "Other".to_string())],
        vec![
            ("burn".to_string(), "Burning".to_string(), Some("Burnt".to_string())),
            ("stun".to_string(), "Stunned".to_string(), None),
        ],
    );
    assert_eq!(data.skill_name("fireball"), "Fire Ball");
    assert_eq!(data.skill_name("ice"), "ice");
    assert_eq!(data.status_name("burn"), "Burning");
    assert_eq!(data.status_name("poison"), "poison");
    assert_eq!(data.status_adjective("burn"), Some("Burnt".to_string()));
    assert_eq!(data.status_adjective("stun"), None);
    assert_eq!(data.status_adjective("poison"), None);
}

#[test]
fn data_answers_stop_at_first_error() {
    let skills = || Ok::<_, String>(vec![("a".to_string(), "A".to_string())]);
    let statuses = || Ok::<_, String>(vec![("s".to_string(), "S".to_string(), None)]);

    let mut data = DataNames::new();
    assert!(!data.is_loaded());
    assert_eq!(data.load_answers(Err("areas".to_string()), skills(), statuses(), Ok(())), Err("areas".to_string()));
    assert_eq!(data.skill_name("a"), "a");

    let mut data = DataNames::new();
    assert_eq!(data.load_answers(Ok(()), skills(), Err("statuses".to_string()), Ok(())), Err("statuses".to_string()));
    assert_eq!(data.skill_name("a"), "A");
    assert_eq!(data.status_name("s"), "s");
    assert!(!data.is_loaded());

    let mut data = DataNames::new();
    assert_eq!(data.load_answers(Ok(()), skills(), statuses(), Err("pets".to_string())), Err("pets".to_string()));
    assert_eq!(data.status_name("s"), "S");
    assert!(!data.is_loaded());

    let mut data = DataNames::new();
    assert_eq!(data.load_answers(Ok(()), skills(), statuses(), Ok(())), Ok(()));
    assert!(data.is_loaded());
}
