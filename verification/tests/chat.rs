use frontend::chat::should_send;
use frontend::chat::{
    channel_color, clamp_panel, dragged_position, is_near_bottom, ChatChannel, ChatErrorType,
    ChatMessage, ChatState, ServerChatMessage, ToastVariant, CHAT_HISTORY_CAPACITY,
};

fn msg(channel: ChatChannel, user: Option<(u128, &str)>, sent_at: i64, content: &str) -> ChatMessage {
    ChatMessage {
        channel,
        user_id: user.map(|(id, _)| id),
        username: user.map(|(_, name)| name.to_string()),
        sent_at,
        content: content.to_string(),
        chat_badge: None,
        linked_item: None,
    }
}

fn contents(chat: &ChatState<u8>) -> Vec<String> {
    chat.messages().iter().map(|m| m.content.clone()).collect()
}

#[test]
fn new_chat_on_desktop_and_mobile() {
    let chat: ChatState<u8> = ChatState::new(false);
    assert!(chat.is_opened());
    assert!(chat.is_minimized());
    assert_eq!(chat.user_id(), None);
    assert_eq!(chat.write_channel(), ChatChannel::Global);
    assert!(chat.is_selected(ChatChannel::Global));
    assert!(chat.is_selected(ChatChannel::Trade));
    assert!(chat.is_selected(ChatChannel::System));
    assert!(!chat.is_selected(ChatChannel::Whisper(3)));
    assert!(chat.messages().is_empty());
    let mobile: ChatState<u8> = ChatState::new(true);
    assert!(!mobile.is_opened());
}

#[test]
fn channel_colors() {
    assert_eq!(channel_color(ChatChannel::Global), "text-amber-400");
    assert_eq!(channel_color(ChatChannel::Trade), "text-emerald-400");
    assert_eq!(channel_color(ChatChannel::System), "text-fuchsia-400");
    assert_eq!(channel_color(ChatChannel::Whisper(9)), "text-cyan-400");
}

#[test]
fn near_bottom_threshold() {
    assert!(is_near_bottom(1000, 821, 100));
    assert!(!is_near_bottom(1000, 820, 100));
    assert!(is_near_bottom(500, 0, 500));
}

#[test]
fn panel_is_clamped_into_window() {
    assert_eq!(clamp_panel((-5, -7), 800, 1200, 300, 400), (0, 0));
    assert_eq!(clamp_panel((900, 1000), 800, 1200, 300, 400), (500, 800));
    assert_eq!(clamp_panel((100, 200), 800, 1200, 300, 400), (100, 200));
    assert_eq!(clamp_panel((100, 200), 200, 300, 300, 400), (0, 0));
}

#[test]
fn panel_follows_mouse() {
    assert_eq!(dragged_position((100, 50), (10, 10), (30, 5)), (105, 70));
    assert_eq!(dragged_position((0, 0), (0, 0), (0, 0)), (0, 0));
}

#[test]
fn connect_loads_history_oldest_first() {
    let mut chat: ChatState<u8> = ChatState::new(false);
    let history = vec![
        msg(ChatChannel::Global, Some((2, "bob")), 30, "third"),
        msg(ChatChannel::Global, Some((1, "ann")), 20, "second"),
        msg(ChatChannel::Trade, Some((2, "bob")), 10, "first"),
    ];
    let reaction = chat.handle_message(ServerChatMessage::Connect { user_id: 1, history });
    assert!(reaction.toast.is_none());
    assert!(!reaction.disconnect);
    assert_eq!(chat.user_id(), Some(1));
    assert_eq!(contents(&chat), vec!["first", "second", "third"]);
    assert_eq!(chat.user_name(2).map(|s| s.as_str()), Some("bob"));
    assert_eq!(chat.user_name(1).map(|s| s.as_str()), Some("ann"));
    assert_eq!(chat.user_name(3), None);
}

#[test]
fn duplicate_broadcast_is_ignored() {
    let mut chat: ChatState<u8> = ChatState::new(false);
    chat.handle_message(ServerChatMessage::Broadcast(msg(ChatChannel::Global, Some((2, "bob")), 5, "hi")));
    chat.handle_message(ServerChatMessage::Broadcast(msg(ChatChannel::Global, Some((2, "bob")), 5, "hi again")));
    chat.handle_message(ServerChatMessage::Broadcast(msg(ChatChannel::Global, Some((3, "cid")), 5, "other")));
    assert_eq!(contents(&chat), vec!["hi", "other"]);
}

#[test]
fn history_keeps_only_capacity() {
    let mut chat: ChatState<u8> = ChatState::new(false);
    for i in 0..(CHAT_HISTORY_CAPACITY as i64 + 5) {
        chat.push_message(msg(ChatChannel::Global, None, i, &format!("m{}", i)));
    }
    assert_eq!(chat.messages().len(), CHAT_HISTORY_CAPACITY);
    assert_eq!(chat.messages()[0].content, "m5");
    assert_eq!(chat.messages()[CHAT_HISTORY_CAPACITY - 1].content, "m104");
}

#[test]
fn error_messages_give_toasts() {
    let mut chat: ChatState<u8> = ChatState::new(false);
    let r = chat.handle_message(ServerChatMessage::Error {
        message: "too fast".to_string(),
        error_type: ChatErrorType::Chat,
        must_disconnect: false,
    });
    assert_eq!(r.toast, Some(("Chat: too fast".to_string(), ToastVariant::Warning)));
    assert!(!r.disconnect);
    let r = chat.handle_message(ServerChatMessage::Error {
        message: "down".to_string(),
        error_type: ChatErrorType::Server,
        must_disconnect: true,
    });
    assert_eq!(r.toast, Some(("Chat: down".to_string(), ToastVariant::Error)));
    assert!(r.disconnect);
}

#[test]
fn whisper_feedback_switches_write_channel() {
    let mut chat: ChatState<u8> = ChatState::new(false);
    chat.handle_message(ServerChatMessage::Connect { user_id: 1, history: vec![] });
    chat.handle_message(ServerChatMessage::WhisperFeedback {
        target_user_id: 7,
        target_username: Some("zed".to_string()),
        chat_message: msg(ChatChannel::Whisper(7), Some((1, "ann")), 3, "psst"),
    });
    assert_eq!(chat.write_channel(), ChatChannel::Whisper(7));
    assert_eq!(chat.channel_str(ChatChannel::Whisper(7)), "@zed");
    assert_eq!(chat.channel_str(ChatChannel::Whisper(8)), "Whisper");
    assert_eq!(chat.channel_str(ChatChannel::Trade), "Trade");
    assert_eq!(contents(&chat), vec!["psst"]);
    let own = chat.messages()[0].clone();
    assert_eq!(chat.author_str(&own), "@zed");
}

#[test]
fn author_labels() {
    let chat: ChatState<u8> = ChatState::new(false);
    let sys = msg(ChatChannel::System, None, 1, "maintenance");
    assert_eq!(chat.author_str(&sys), "[System]");
    let user = msg(ChatChannel::Global, Some((4, "dee")), 1, "yo");
    assert_eq!(chat.author_str(&user), "dee");
    let anon = msg(ChatChannel::Trade, None, 1, "?");
    assert_eq!(chat.author_str(&anon), "");
}

#[test]
fn selecting_channels_filters_messages() {
    let mut chat: ChatState<u8> = ChatState::new(false);
    chat.push_message(msg(ChatChannel::Trade, None, 30, "trade"));
    chat.push_message(msg(ChatChannel::Global, None, 10, "global"));
    chat.push_message(msg(ChatChannel::Whisper(5), None, 20, "whisper"));
    assert_eq!(chat.visible_messages(), vec![1, 2, 0]);
    chat.set_channel_selected(ChatChannel::Trade, false);
    assert!(!chat.is_selected(ChatChannel::Trade));
    assert_eq!(chat.visible_messages(), vec![1, 2]);
    assert_eq!(chat.last_visible_message(), Some(2));
    chat.set_channel_selected(ChatChannel::Global, false);
    assert_eq!(chat.visible_messages(), vec![2]);
    chat.set_channel_selected(ChatChannel::Trade, true);
    chat.set_channel_selected(ChatChannel::Trade, true);
    assert!(chat.is_selected(ChatChannel::Trade));
    assert_eq!(chat.visible_messages(), vec![2, 0]);
    assert_eq!(chat.last_visible_message(), Some(2));
}

#[test]
fn no_visible_message() {
    let mut chat: ChatState<u8> = ChatState::new(false);
    chat.push_message(msg(ChatChannel::Trade, None, 30, "trade"));
    chat.set_channel_selected(ChatChannel::Trade, false);
    assert_eq!(chat.last_visible_message(), None);
    assert!(chat.visible_messages().is_empty());
}

#[test]
fn choosing_and_clicking_channels() {
    let mut chat: ChatState<u8> = ChatState::new(false);
    chat.handle_message(ServerChatMessage::Connect { user_id: 1, history: vec![] });
    chat.set_channel_selected(ChatChannel::Trade, false);
    chat.choose_write_channel(ChatChannel::Trade);
    assert_eq!(chat.write_channel(), ChatChannel::Trade);
    assert!(chat.is_selected(ChatChannel::Trade));
    let from_bob = msg(ChatChannel::Global, Some((2, "bob")), 1, "hey");
    chat.click_author(&from_bob);
    assert_eq!(chat.write_channel(), ChatChannel::Whisper(2));
    let mine = msg(ChatChannel::Whisper(9), Some((1, "ann")), 2, "to nine");
    chat.click_author(&mine);
    assert_eq!(chat.write_channel(), ChatChannel::Whisper(9));
    let system = msg(ChatChannel::System, None, 3, "notice");
    chat.click_author(&system);
    assert_eq!(chat.write_channel(), ChatChannel::Whisper(9));
}

#[test]
fn linking_an_item_opens_the_chat() {
    let mut chat: ChatState<u8> = ChatState::new(true);
    chat.link_item(42);
    assert!(chat.is_opened());
    assert!(!chat.is_minimized());
    assert_eq!(chat.linked_item(), &Some(42));
    assert_eq!(chat.take_linked_item(), Some(42));
    assert_eq!(chat.linked_item(), &None);
    chat.set_opened(false);
    chat.set_minimized(true);
    chat.open_for_typing();
    assert!(chat.is_opened());
    assert!(!chat.is_minimized());
}

#[test]
fn send_guard() {
    assert!(should_send("hello", false));
    assert!(!should_send("   \t\n", false));
    assert!(!should_send("", false));
    assert!(should_send("", true));
    assert!(should_send(" \u{3000} ", true));
    assert!(!should_send("\u{a0}\u{2003}", false));
    assert!(should_send(" x ", false));
}
