use frontend::chat::ToastVariant;
use frontend::connection::{
    game_reaction, next_monster_wave, should_close, should_open, should_send_token, Compression,
    EncodePlan, GameErrorType, GameServerEvent, ReadyState,
};

#[test]
fn opening_and_closing() {
    assert!(should_open(true, ReadyState::Closed, true));
    assert!(should_open(true, ReadyState::Closing, true));
    assert!(!should_open(true, ReadyState::Open, true));
    assert!(!should_open(true, ReadyState::Connecting, true));
    assert!(!should_open(false, ReadyState::Closed, true));
    assert!(!should_open(true, ReadyState::Closed, false));
    assert!(should_close(false, ReadyState::Open));
    assert!(!should_close(true, ReadyState::Open));
    assert!(!should_close(false, ReadyState::Closed));
    assert!(should_send_token(true, ReadyState::Open));
    assert!(!should_send_token(true, ReadyState::Connecting));
}

#[test]
fn never_open_and_close_together() {
    for auth in [false, true] {
        for state in [ReadyState::Connecting, ReadyState::Open, ReadyState::Closing, ReadyState::Closed] {
            for wanted in [false, true] {
                assert!(!(should_open(auth, state, wanted) && should_close(auth, state)));
            }
        }
    }
}

#[test]
fn game_reactions() {
    let r = game_reaction(GameServerEvent::InitGame);
    assert!(r.init && !r.sync && r.toast.is_none() && r.navigate.is_none());
    let r = game_reaction(GameServerEvent::UpdateGame);
    assert!(!r.init && r.sync);
    let r = game_reaction(GameServerEvent::Connect);
    assert!(!r.init && !r.sync && r.navigate.is_none());
    let r = game_reaction(GameServerEvent::Disconnect);
    assert_eq!(r.navigate, Some("/town"));
    let r = game_reaction(GameServerEvent::Error {
        message: "bad".to_string(),
        error_type: GameErrorType::Game,
        must_disconnect: false,
    });
    assert_eq!(r.toast, Some(("bad".to_string(), ToastVariant::Warning)));
    assert_eq!(r.navigate, None);
    let r = game_reaction(GameServerEvent::Error {
        message: "fatal".to_string(),
        error_type: GameErrorType::Server,
        must_disconnect: true,
    });
    assert_eq!(r.toast, Some(("fatal".to_string(), ToastVariant::Error)));
    assert_eq!(r.navigate, Some("/"));
}

#[test]
fn monster_wave_counter() {
    assert_eq!(next_monster_wave(4, true), 5);
    assert_eq!(next_monster_wave(4, false), 4);
}

#[test]
fn compression_dictionary() {
    let mut c = Compression::new();
    assert!(matches!(c.encode_plan(), EncodePlan::Raw));
    assert!(c.decode_dictionary().is_none());
    c.set_dictionary(vec![1, 2, 3]);
    match c.encode_plan() {
        EncodePlan::Compressed(Some(d)) => assert_eq!(d, &vec![1, 2, 3]),
        _ => panic!("expected a dictionary"),
    }
    assert_eq!(c.decode_dictionary(), Some(&vec![1, 2, 3]));
    c.set_dictionary(vec![]);
    assert!(matches!(c.encode_plan(), EncodePlan::Compressed(None)));
    c.clear();
    assert!(matches!(c.encode_plan(), EncodePlan::Raw));
    assert!(c.decode_dictionary().is_none());
}
