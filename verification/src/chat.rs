//! The chat: its channels, the messages it keeps and shows, the names of
//! the users it knows, and how it answers the chat server.

use vstd::prelude::*;
use vstd::string::*;
use crate::backend::concat;
use crate::text::{is_blank, str_is_blank};

verus! {

/// How many messages the chat keeps; older ones are dropped.
pub const CHAT_HISTORY_CAPACITY: usize = 100;

/// A chat channel; whispers go to one user.
#[derive(Clone, Copy, Debug, PartialEq, Eq, Hash, Structural)]
pub enum ChatChannel {
    System,
    Global,
    Trade,
    Whisper(u128),
}

/// A message of the chat.
#[derive(Clone, Debug)]
pub struct ChatMessage {
    pub channel: ChatChannel,
    /// The author, for messages of users.
    pub user_id: Option<u128>,
    pub username: Option<String>,
    /// When it was sent (milliseconds since the epoch).
    pub sent_at: i64,
    pub content: String,
    pub chat_badge: Option<String>,
    /// The encoded item that the message shows, if any.
    pub linked_item: Option<Vec<u8>>,
}

/// The kind of an error that the chat server reports.
#[derive(Clone, Copy, Debug, PartialEq, Eq, Structural)]
pub enum ChatErrorType {
    Server,
    Chat,
}

/// How a notice is shown.
#[derive(Clone, Copy, Debug, PartialEq, Eq, Structural)]
pub enum ToastVariant {
    Info,
    Success,
    Warning,
    Error,
}

/// A message of the chat server.
pub enum ServerChatMessage {
    /// The connection is accepted: the user's identifier and the latest
    /// messages, newest first.
    Connect { user_id: u128, history: Vec<ChatMessage> },
    Error { message: String, error_type: ChatErrorType, must_disconnect: bool },
    Broadcast(ChatMessage),
    /// A whisper that the user sent, with its target.
    WhisperFeedback {
        target_user_id: u128,
        target_username: Option<String>,
        chat_message: ChatMessage,
    },
}

/// What the page must do after the chat handled a server message.
pub struct ChatReaction {
    /// A notice to show.
    pub toast: Option<(String, ToastVariant)>,
    /// Whether to close the connection.
    pub disconnect: bool,
}

/// The state of the chat. `I` is what a linked item is.
pub struct ChatState<I> {
    user_id: Option<u128>,
    users: Vec<(u128, String)>,
    messages: Vec<ChatMessage>,
    minimized: bool,
    opened: bool,
    selected_channels: Vec<ChatChannel>,
    write_channel: ChatChannel,
    linked_item: Option<I>,
}

/// The state of the chat, abstractly.
pub struct ChatView<I> {
    /// The user's own identifier, once connected.
    pub user_id: Option<u128>,
    /// The names known for users.
    pub users: Seq<(u128, String)>,
    /// The messages kept, oldest first.
    pub messages: Seq<ChatMessage>,
    pub minimized: bool,
    pub opened: bool,
    /// The channels whose messages are shown.
    pub selected: Set<ChatChannel>,
    /// The channel that the user writes to.
    pub write_channel: ChatChannel,
    /// The item linked to the next message.
    pub linked_item: Option<I>,
}

impl<I> View for ChatState<I> {
    type V = ChatView<I>;

    closed spec fn view(&self) -> ChatView<I> {
        ChatView {
            user_id: self.user_id,
            users: self.users@,
            messages: self.messages@,
            minimized: self.minimized,
            opened: self.opened,
            selected: Set::new(|c: ChatChannel| self.selected_channels@.contains(c)),
            write_channel: self.write_channel,
            linked_item: self.linked_item,
        }
    }
}

/// The name known for user `id` among `users`, from position `from` on
/// (the first entry for it).
pub open spec fn name_of(users: Seq<(u128, String)>, id: u128, from: int) -> Option<Seq<char>>
    decreases users.len() - from,
{
    if from < 0 || from >= users.len() {
        None
    } else if users[from].0 == id {
        Some(users[from].1@)
    } else {
        name_of(users, id, from + 1)
    }
}

/// The kept messages after `m` is added: the oldest goes when the chat is full.
pub open spec fn kept_after(messages: Seq<ChatMessage>, m: ChatMessage) -> Seq<ChatMessage> {
    if messages.len() >= CHAT_HISTORY_CAPACITY {
        messages.push(m).subrange(
            messages.len() + 1 - CHAT_HISTORY_CAPACITY,
            messages.len() + 1 as int,
        )
    } else {
        messages.push(m)
    }
}

/// Whether `messages` holds one by the same author sent at the same time.
pub open spec fn has_same_message(messages: Seq<ChatMessage>, m: ChatMessage) -> bool {
    exists|i: int|
        0 <= i < messages.len() && messages[i].sent_at == m.sent_at && messages[i].user_id
            == m.user_id
}

/// The names and messages kept after the message `m` arrived: its
/// author's name is learned if it was unknown, and it is kept unless a
/// message by the same author sent at the same time is there already.
pub open spec fn pushed(users: Seq<(u128, String)>, messages: Seq<ChatMessage>, m: ChatMessage) -> (
    Seq<(u128, String)>,
    Seq<ChatMessage>,
) {
    (
        match (m.user_id, m.username) {
            (Some(id), Some(name)) => if name_of(users, id, 0) is None {
                users.push((id, name))
            } else {
                users
            },
            _ => users,
        },
        if has_same_message(messages, m) {
            messages
        } else {
            kept_after(messages, m)
        },
    )
}

/// The names and messages kept after a history (newest first) arrived:
/// its messages arrive from the oldest to the newest.
pub open spec fn loaded(users: Seq<(u128, String)>, messages: Seq<ChatMessage>, history: Seq<ChatMessage>) -> (
    Seq<(u128, String)>,
    Seq<ChatMessage>,
)
    decreases history.len(),
{
    if history.len() == 0 {
        (users, messages)
    } else {
        let (u, m) = pushed(users, messages, history.last());
        loaded(u, m, history.drop_last())
    }
}

/// Whether a message of `channel` is shown: whispers always, other
/// channels when selected.
pub open spec fn is_visible(selected: Set<ChatChannel>, channel: ChatChannel) -> bool {
    channel is Whisper || selected.contains(channel)
}

/// The order in which messages are shown: by sending time, then by arrival.
pub open spec fn shown_before(messages: Seq<ChatMessage>, p: int, q: int) -> bool {
    messages[p].sent_at < messages[q].sent_at || (messages[p].sent_at == messages[q].sent_at && p
        < q)
}

/// The label of a channel.
pub open spec fn channel_label(users: Seq<(u128, String)>, channel: ChatChannel) -> Seq<char> {
    match channel {
        ChatChannel::System => "System"@,
        ChatChannel::Global => "Global"@,
        ChatChannel::Trade => "Trade"@,
        ChatChannel::Whisper(id) => match name_of(users, id, 0) {
            Some(name) => "@"@ + name,
            None => "Whisper"@,
        },
    }
}

proof fn lemma_push_contains(s: Seq<ChatChannel>, x: ChatChannel, y: ChatChannel)
    ensures
        s.push(x).contains(y) <==> (s.contains(y) || x == y),
{
    if s.contains(y) {
        let k = choose|k: int| 0 <= k < s.len() && s[k] == y;
        assert(s.push(x)[k] == y);
    }
    if x == y {
        assert(s.push(x)[s.len() as int] == y);
    }
    if s.push(x).contains(y) {
        let k = choose|k: int| 0 <= k < s.len() + 1 && s.push(x)[k] == y;
        if k < s.len() {
            assert(s[k] == y);
        }
    }
}

/// The colour class of a channel.
pub open spec fn channel_color_spec(channel: ChatChannel) -> Seq<char> {
    match channel {
        ChatChannel::Global => "text-amber-400"@,
        ChatChannel::Trade => "text-emerald-400"@,
        ChatChannel::System => "text-fuchsia-400"@,
        ChatChannel::Whisper(_) => "text-cyan-400"@,
    }
}

/// The colour class of a channel.
pub fn channel_color(channel: ChatChannel) -> (c: &'static str)
    ensures
        c@ == channel_color_spec(channel),
{
    match channel {
        ChatChannel::Global => "text-amber-400",
        ChatChannel::Trade => "text-emerald-400",
        ChatChannel::System => "text-fuchsia-400",
        ChatChannel::Whisper(_) => "text-cyan-400",
    }
}

/// Whether a scrolled area is close enough to its bottom (less than 80
/// pixels) to follow new messages.
pub fn is_near_bottom(scroll_height: i32, scroll_top: i32, client_height: i32) -> (b: bool)
    ensures
        b == (scroll_height - scroll_top - client_height < 80),
{
    (scroll_height as i64) - (scroll_top as i64) - (client_height as i64) < 80
}

/// `value` brought into `[low, high]` (`high` at least `low`).
pub open spec fn clamp_spec(value: int, low: int, high: int) -> int {
    if value < low {
        low
    } else if value > high {
        high
    } else {
        value
    }
}

/// The panel's offsets from the bottom and the left of the window, kept
/// inside it: each offset lies between zero and the room left by the panel.
pub fn clamp_panel(
    position: (i32, i32),
    window_height: i32,
    window_width: i32,
    panel_height: i32,
    panel_width: i32,
) -> (clamped: (i32, i32))
    requires
        i32::MIN <= window_height - panel_height <= i32::MAX,
        i32::MIN <= window_width - panel_width <= i32::MAX,
    ensures
        clamped.0 == clamp_spec(
            position.0 as int,
            0,
            if window_height - panel_height > 0 { window_height - panel_height } else { 0 },
        ),
        clamped.1 == clamp_spec(
            position.1 as int,
            0,
            if window_width - panel_width > 0 { window_width - panel_width } else { 0 },
        ),
{
    let room_height = window_height - panel_height;
    let max_bottom = if room_height > 0 { room_height } else { 0 };
    let room_width = window_width - panel_width;
    let max_left = if room_width > 0 { room_width } else { 0 };
    let bottom = if position.0 < 0 {
        0
    } else if position.0 > max_bottom {
        max_bottom
    } else {
        position.0
    };
    let left = if position.1 < 0 {
        0
    } else if position.1 > max_left {
        max_left
    } else {
        position.1
    };
    (bottom, left)
}

/// Where a dragged panel goes: it follows the mouse from where the drag
/// started (the screen's y grows downwards, the offset from the bottom
/// upwards).
pub fn dragged_position(start_position: (i32, i32), start_mouse: (i32, i32), mouse: (i32, i32)) -> (p:
    (i32, i32))
    requires
        i32::MIN <= mouse.0 - start_mouse.0 <= i32::MAX,
        i32::MIN <= mouse.1 - start_mouse.1 <= i32::MAX,
        i32::MIN <= start_position.0 - (mouse.1 - start_mouse.1) <= i32::MAX,
        i32::MIN <= start_position.1 + (mouse.0 - start_mouse.0) <= i32::MAX,
    ensures
        p.0 == start_position.0 - (mouse.1 - start_mouse.1),
        p.1 == start_position.1 + (mouse.0 - start_mouse.0),
{
    let dx = mouse.0 - start_mouse.0;
    let dy = mouse.1 - start_mouse.1;
    (start_position.0 - dy, start_position.1 + dx)
}

/// Whether the chat sends what the user typed: not when it is blank and
/// no item is linked.
pub fn should_send(input: &str, has_linked_item: bool) -> (b: bool)
    ensures
        b == !(is_blank(input@) && !has_linked_item),
{
    !(str_is_blank(input) && !has_linked_item)
}

impl<I> ChatState<I> {
    /// The kept messages never exceed the chat's capacity.
    #[verifier::type_invariant]
    closed spec fn wf(self) -> bool {
        self.messages@.len() <= CHAT_HISTORY_CAPACITY
    }

    /// A fresh chat: closed on mobile devices, minimized, showing the
    /// global, trade and system channels, writing to the global channel.
    pub fn new(on_mobile: bool) -> (chat: Self)
        ensures
            chat@.user_id is None,
            chat@.users.len() == 0,
            chat@.messages.len() == 0,
            chat@.minimized,
            chat@.opened == !on_mobile,
            chat@.selected == set![ChatChannel::Global, ChatChannel::Trade, ChatChannel::System],
            chat@.write_channel == ChatChannel::Global,
            chat@.linked_item is None,
    {
        let mut selected_channels = Vec::new();
        selected_channels.push(ChatChannel::Global);
        selected_channels.push(ChatChannel::Trade);
        selected_channels.push(ChatChannel::System);
        let chat = ChatState {
            user_id: None,
            users: Vec::new(),
            messages: Vec::new(),
            minimized: true,
            opened: !on_mobile,
            selected_channels,
            write_channel: ChatChannel::Global,
            linked_item: None,
        };
        proof {
            let s0 = Seq::<ChatChannel>::empty();
            assert forall|c: ChatChannel|
                chat.selected_channels@.contains(c) <==> set![
                    ChatChannel::Global,
                    ChatChannel::Trade,
                    ChatChannel::System,
                ].contains(c) by {
                lemma_push_contains(s0, ChatChannel::Global, c);
                lemma_push_contains(s0.push(ChatChannel::Global), ChatChannel::Trade, c);
                lemma_push_contains(
                    s0.push(ChatChannel::Global).push(ChatChannel::Trade),
                    ChatChannel::System,
                    c,
                );
                assert(chat.selected_channels@ =~= s0.push(ChatChannel::Global).push(
                    ChatChannel::Trade,
                ).push(ChatChannel::System));
            }
            assert(chat@.selected =~= set![ChatChannel::Global, ChatChannel::Trade, ChatChannel::System]);
        }
        chat
    }

    /// The user's own identifier, once connected.
    pub fn user_id(&self) -> (id: Option<u128>)
        ensures
            id == self@.user_id,
    {
        self.user_id
    }

    /// Whether the chat is minimized.
    pub fn is_minimized(&self) -> (b: bool)
        ensures
            b == self@.minimized,
    {
        self.minimized
    }

    /// Whether the chat is open.
    pub fn is_opened(&self) -> (b: bool)
        ensures
            b == self@.opened,
    {
        self.opened
    }

    /// The channel that the user writes to.
    pub fn write_channel(&self) -> (c: ChatChannel)
        ensures
            c == self@.write_channel,
    {
        self.write_channel
    }

    /// The item linked to the next message.
    pub fn linked_item(&self) -> (item: &Option<I>)
        ensures
            *item == self@.linked_item,
    {
        &self.linked_item
    }

    /// The messages kept, oldest first; never more than the chat's
    /// capacity.
    pub fn messages(&self) -> (m: &Vec<ChatMessage>)
        ensures
            m@ == self@.messages,
            m@.len() <= CHAT_HISTORY_CAPACITY,
    {
        proof {
            use_type_invariant(self);
        }
        &self.messages
    }

    /// Opens or closes the chat.
    pub fn set_opened(&mut self, opened: bool)
        ensures
            final(self)@ == (ChatView { opened, ..old(self)@ }),
    {
        proof {
            use_type_invariant(&*self);
        }
        self.opened = opened;
    }

    /// Minimizes the chat or brings it back.
    pub fn set_minimized(&mut self, minimized: bool)
        ensures
            final(self)@ == (ChatView { minimized, ..old(self)@ }),
    {
        proof {
            use_type_invariant(&*self);
        }
        self.minimized = minimized;
    }

    /// Removes the linked item and returns it.
    pub fn take_linked_item(&mut self) -> (item: Option<I>)
        ensures
            item == old(self)@.linked_item,
            final(self)@ == (ChatView { linked_item: None, ..old(self)@ }),
    {
        proof {
            use_type_invariant(&*self);
        }
        let mut item = None;
        std::mem::swap(&mut item, &mut self.linked_item);
        item
    }

    /// Links an item to the next message and brings the chat up.
    pub fn link_item(&mut self, item: I)
        ensures
            final(self)@.linked_item == Some(item),
            final(self)@.opened,
            !final(self)@.minimized,
            final(self)@.user_id == old(self)@.user_id,
            final(self)@.users == old(self)@.users,
            final(self)@.messages == old(self)@.messages,
            final(self)@.selected == old(self)@.selected,
            final(self)@.write_channel == old(self)@.write_channel,
    {
        proof {
            use_type_invariant(&*self);
        }
        self.linked_item = Some(item);
        self.opened = true;
        self.minimized = false;
    }

    /// The name known for user `id`.
    pub fn user_name(&self, id: u128) -> (name: Option<&String>)
        ensures
            match name {
                Some(n) => name_of(self@.users, id, 0) == Some(n@),
                None => name_of(self@.users, id, 0) is None,
            },
    {
        let mut i: usize = 0;
        while i < self.users.len()
            invariant
                i <= self.users@.len(),
                name_of(self.users@, id, 0) == name_of(self.users@, id, i as int),
            decreases self.users@.len() - i,
        {
            if self.users[i].0 == id {
                return Some(&self.users[i].1);
            }
            i = i + 1;
        }
        None
    }

    fn remember_user(&mut self, id: u128, name: String)
        ensures
            name_of(old(self)@.users, id, 0) is Some ==> final(self)@.users == old(self)@.users,
            name_of(old(self)@.users, id, 0) is None ==> final(self)@.users == old(self)@.users.push(
                (id, name),
            ),
            final(self)@.user_id == old(self)@.user_id,
            final(self)@.messages == old(self)@.messages,
            final(self)@.selected == old(self)@.selected,
            final(self)@.write_channel == old(self)@.write_channel,
            final(self)@.minimized == old(self)@.minimized,
            final(self)@.opened == old(self)@.opened,
            final(self)@.linked_item == old(self)@.linked_item,
    {
        proof {
            use_type_invariant(&*self);
        }
        let known = self.user_name(id).is_some();
        if !known {
            let mut users = Vec::new();
            std::mem::swap(&mut users, &mut self.users);
            users.push((id, name));
            self.users = users;
        }
    }

    fn keep_message(&mut self, message: ChatMessage)
        ensures
            final(self)@.messages == kept_after(old(self)@.messages, message),
            final(self)@.user_id == old(self)@.user_id,
            final(self)@.users == old(self)@.users,
            final(self)@.selected == old(self)@.selected,
            final(self)@.write_channel == old(self)@.write_channel,
            final(self)@.minimized == old(self)@.minimized,
            final(self)@.opened == old(self)@.opened,
            final(self)@.linked_item == old(self)@.linked_item,
    {
        proof {
            use_type_invariant(&*self);
        }
        let mut messages = Vec::new();
        std::mem::swap(&mut messages, &mut self.messages);
        let ghost before = messages@;
        if messages.len() >= CHAT_HISTORY_CAPACITY {
            messages.remove(0);
            messages.push(message);
            assert(messages@ =~= before.push(message).subrange(
                before.len() + 1 - CHAT_HISTORY_CAPACITY,
                before.len() + 1 as int,
            ));
        } else {
            messages.push(message);
        }
        self.messages = messages;
    }

    /// Adds a message of the server: its author's name is remembered, and
    /// the message is kept unless one by the same author sent at the same
    /// time is already there.
    pub fn push_message(&mut self, message: ChatMessage)
        ensures
            final(self)@.users == match (message.user_id, message.username) {
                (Some(id), Some(name)) => if name_of(old(self)@.users, id, 0) is None {
                    old(self)@.users.push((id, name))
                } else {
                    old(self)@.users
                },
                _ => old(self)@.users,
            },
            final(self)@.messages == if has_same_message(old(self)@.messages, message) {
                old(self)@.messages
            } else {
                kept_after(old(self)@.messages, message)
            },
            final(self)@.user_id == old(self)@.user_id,
            final(self)@.selected == old(self)@.selected,
            final(self)@.write_channel == old(self)@.write_channel,
            final(self)@.minimized == old(self)@.minimized,
            final(self)@.opened == old(self)@.opened,
            final(self)@.linked_item == old(self)@.linked_item,
    {
        proof {
            use_type_invariant(&*self);
        }
        match (message.user_id, &message.username) {
            (Some(id), Some(name)) => {
                let name = name.clone();
                self.remember_user(id, name);
            },
            _ => {},
        }
        let mut duplicate = false;
        let mut i: usize = 0;
        while i < self.messages.len()
            invariant
                i <= self.messages@.len(),
                duplicate == exists|j: int|
                    0 <= j < i && self.messages@[j].sent_at == message.sent_at
                        && self.messages@[j].user_id == message.user_id,
            decreases self.messages@.len() - i,
        {
            if self.messages[i].sent_at == message.sent_at && self.messages[i].user_id
                == message.user_id {
                duplicate = true;
            }
            i = i + 1;
        }
        if !duplicate {
            self.keep_message(message);
        }
    }

    /// Handles a message of the chat server and says what the page must do.
    pub fn handle_message(&mut self, message: ServerChatMessage) -> (reaction: ChatReaction)
        ensures
            match message {
                ServerChatMessage::Connect { user_id, history } => {
                    &&& final(self)@.user_id == Some(user_id)
                    &&& (final(self)@.users, final(self)@.messages) == loaded(
                        old(self)@.users,
                        old(self)@.messages,
                        history@,
                    )
                    &&& final(self)@.write_channel == old(self)@.write_channel
                    &&& reaction.toast is None
                    &&& !reaction.disconnect
                },
                ServerChatMessage::Error { message: text, error_type, must_disconnect } => {
                    &&& final(self)@.user_id == old(self)@.user_id
                    &&& final(self)@.users == old(self)@.users
                    &&& final(self)@.messages == old(self)@.messages
                    &&& final(self)@.write_channel == old(self)@.write_channel
                    &&& reaction.toast matches Some((t, v)) && t@ == "Chat: "@ + text@ && v == (
                        match error_type {
                        ChatErrorType::Server => ToastVariant::Error,
                        ChatErrorType::Chat => ToastVariant::Warning,
                    })
                    &&& reaction.disconnect == must_disconnect
                },
                ServerChatMessage::Broadcast(m) => {
                    &&& final(self)@.user_id == old(self)@.user_id
                    &&& (final(self)@.users, final(self)@.messages) == pushed(
                        old(self)@.users,
                        old(self)@.messages,
                        m,
                    )
                    &&& final(self)@.write_channel == old(self)@.write_channel
                    &&& reaction.toast is None
                    &&& !reaction.disconnect
                },
                ServerChatMessage::WhisperFeedback {
                    target_user_id,
                    target_username,
                    chat_message,
                } => {
                    &&& final(self)@.user_id == old(self)@.user_id
                    &&& final(self)@.users == match target_username {
                        Some(name) => if name_of(old(self)@.users, target_user_id, 0) is None {
                            old(self)@.users.push((target_user_id, name))
                        } else {
                            old(self)@.users
                        },
                        None => old(self)@.users,
                    }
                    &&& final(self)@.messages == kept_after(old(self)@.messages, chat_message)
                    &&& final(self)@.write_channel == ChatChannel::Whisper(target_user_id)
                    &&& reaction.toast is None
                    &&& !reaction.disconnect
                },
            },
            final(self)@.selected == old(self)@.selected,
            final(self)@.minimized == old(self)@.minimized,
            final(self)@.opened == old(self)@.opened,
            final(self)@.linked_item == old(self)@.linked_item,
    {
        proof {
            use_type_invariant(&*self);
        }
        match message {
            ServerChatMessage::Connect { user_id, history } => {
                self.user_id = Some(user_id);
                let mut history = history;
                let ghost target = loaded(old(self)@.users, old(self)@.messages, history@);
                let n = history.len();
                let mut i: usize = 0;
                while i < n
                    invariant
                        i <= n,
                        history@.len() == n - i,
                        self.user_id == Some(user_id),
                        loaded(self@.users, self@.messages, history@) == target,
                        self.write_channel == old(self)@.write_channel,
                        self@.selected == old(self)@.selected,
                        self.minimized == old(self)@.minimized,
                        self.opened == old(self)@.opened,
                        self.linked_item == old(self)@.linked_item,
                    decreases n - i,
                {
                    match history.pop() {
                        Some(m) => self.push_message(m),
                        None => {},
                    }
                    i = i + 1;
                }
                ChatReaction { toast: None, disconnect: false }
            },
            ServerChatMessage::Error { message: text, error_type, must_disconnect } => {
                let variant = match error_type {
                    ChatErrorType::Server => ToastVariant::Error,
                    ChatErrorType::Chat => ToastVariant::Warning,
                };
                ChatReaction {
                    toast: Some((concat("Chat: ", text.as_str()), variant)),
                    disconnect: must_disconnect,
                }
            },
            ServerChatMessage::Broadcast(m) => {
                self.push_message(m);
                ChatReaction { toast: None, disconnect: false }
            },
            ServerChatMessage::WhisperFeedback { target_user_id, target_username, chat_message } => {
                match target_username {
                    Some(name) => self.remember_user(target_user_id, name),
                    None => {},
                }
                self.keep_message(chat_message);
                self.write_channel = ChatChannel::Whisper(target_user_id);
                ChatReaction { toast: None, disconnect: false }
            },
        }
    }

    /// The label of a channel: the name of the user for a whisper to a
    /// known user.
    pub fn channel_str(&self, channel: ChatChannel) -> (label: String)
        ensures
            label@ == channel_label(self@.users, channel),
    {
        match channel {
            ChatChannel::System => String::from_str("System"),
            ChatChannel::Global => String::from_str("Global"),
            ChatChannel::Trade => String::from_str("Trade"),
            ChatChannel::Whisper(id) => match self.user_name(id) {
                Some(name) => concat("@", name.as_str()),
                None => String::from_str("Whisper"),
            },
        }
    }

    /// Who a message is shown as written by: "[System]" for system
    /// messages, the channel's label for the user's own whispers, else the
    /// author's name (empty where unknown).
    pub fn author_str(&self, message: &ChatMessage) -> (author: String)
        ensures
            author@ == if message.channel == ChatChannel::System {
                "[System]"@
            } else if message.channel is Whisper && message.user_id == self@.user_id {
                channel_label(self@.users, message.channel)
            } else {
                match message.username {
                    Some(name) => name@,
                    None => Seq::<char>::empty(),
                }
            },
    {
        if message.channel == ChatChannel::System {
            String::from_str("[System]")
        } else if matches!(message.channel, ChatChannel::Whisper(_)) && message.user_id == self.user_id {
            self.channel_str(message.channel)
        } else {
            match &message.username {
                Some(name) => name.clone(),
                None => String::new(),
            }
        }
    }

    /// Whether messages of `channel` are shown.
    pub fn is_selected(&self, channel: ChatChannel) -> (b: bool)
        ensures
            b == self@.selected.contains(channel),
    {
        let mut i: usize = 0;
        while i < self.selected_channels.len()
            invariant
                i <= self.selected_channels@.len(),
                forall|j: int| 0 <= j < i ==> self.selected_channels@[j] != channel,
            decreases self.selected_channels@.len() - i,
        {
            if self.selected_channels[i] == channel {
                assert(self.selected_channels@.contains(channel));
                return true;
            }
            i = i + 1;
        }
        false
    }

    /// Shows (`true`) or hides (`false`) the messages of `channel`.
    pub fn set_channel_selected(&mut self, channel: ChatChannel, shown: bool)
        ensures
            final(self)@.selected == if shown {
                old(self)@.selected.insert(channel)
            } else {
                old(self)@.selected.remove(channel)
            },
            final(self)@.user_id == old(self)@.user_id,
            final(self)@.users == old(self)@.users,
            final(self)@.messages == old(self)@.messages,
            final(self)@.write_channel == old(self)@.write_channel,
            final(self)@.minimized == old(self)@.minimized,
            final(self)@.opened == old(self)@.opened,
            final(self)@.linked_item == old(self)@.linked_item,
    {
        proof {
            use_type_invariant(&*self);
        }
        if shown {
            let ghost before = self.selected_channels@;
            if !self.is_selected(channel) {
                let mut channels = Vec::new();
                std::mem::swap(&mut channels, &mut self.selected_channels);
                channels.push(channel);
                self.selected_channels = channels;
                proof {
                    assert forall|c: ChatChannel|
                        self.selected_channels@.contains(c) <==> (before.contains(c) || c
                            == channel) by {
                        lemma_push_contains(before, channel, c);
                    }
                }
            }
            assert(self@.selected =~= old(self)@.selected.insert(channel));
        } else {
            let mut kept: Vec<ChatChannel> = Vec::new();
            let mut i: usize = 0;
            while i < self.selected_channels.len()
                invariant
                    i <= self.selected_channels@.len(),
                    forall|c: ChatChannel|
                        kept@.contains(c) <==> (c != channel && exists|j: int|
                            0 <= j < i && self.selected_channels@[j] == c),
                decreases self.selected_channels@.len() - i,
            {
                let c = self.selected_channels[i];
                let ghost old_kept = kept@;
                if c != channel {
                    kept.push(c);
                }
                proof {
                    assert forall|d: ChatChannel|
                        kept@.contains(d) <==> (d != channel && exists|j: int|
                            0 <= j < i + 1 && self.selected_channels@[j] == d) by {
                        if c != channel {
                            lemma_push_contains(old_kept, c, d);
                        }
                        if exists|j: int| 0 <= j < i + 1 && self.selected_channels@[j] == d {
                            let j = choose|j: int| 0 <= j < i + 1 && self.selected_channels@[j] == d;
                            if j < i {
                                assert(exists|j2: int| 0 <= j2 < i && self.selected_channels@[j2] == d);
                            }
                        }
                        if exists|j: int| 0 <= j < i && self.selected_channels@[j] == d {
                            let j = choose|j: int| 0 <= j < i && self.selected_channels@[j] == d;
                            assert(0 <= j < i + 1);
                        }
                    }
                }
                i = i + 1;
            }
            self.selected_channels = kept;
            proof {
                assert forall|d: ChatChannel|
                    self.selected_channels@.contains(d) <==> (d != channel && old(
                        self,
                    ).selected_channels@.contains(d)) by {
                    if old(self).selected_channels@.contains(d) {
                        let j = choose|j: int|
                            0 <= j < old(self).selected_channels@.len() && old(
                                self,
                            ).selected_channels@[j] == d;
                        assert(exists|j2: int|
                            0 <= j2 < old(self).selected_channels@.len() && old(
                                self,
                            ).selected_channels@[j2] == d);
                    }
                }
            }
            assert(self@.selected =~= old(self)@.selected.remove(channel));
        }
    }

    /// Chooses the channel to write to from the channel menu; its messages
    /// become shown.
    pub fn choose_write_channel(&mut self, channel: ChatChannel)
        ensures
            final(self)@.write_channel == channel,
            final(self)@.selected == old(self)@.selected.insert(channel),
            final(self)@.user_id == old(self)@.user_id,
            final(self)@.users == old(self)@.users,
            final(self)@.messages == old(self)@.messages,
            final(self)@.minimized == old(self)@.minimized,
            final(self)@.opened == old(self)@.opened,
            final(self)@.linked_item == old(self)@.linked_item,
    {
        proof {
            use_type_invariant(&*self);
        }
        self.write_channel = channel;
        self.set_channel_selected(channel, true);
    }

    /// A click on a message's author: the user's own whisper selects its
    /// channel, another user's message a whisper to that user.
    pub fn click_author(&mut self, message: &ChatMessage)
        ensures
            final(self)@.write_channel == if message.channel is Whisper && message.user_id
                == old(self)@.user_id {
                message.channel
            } else {
                match message.user_id {
                    Some(id) => ChatChannel::Whisper(id),
                    None => old(self)@.write_channel,
                }
            },
            final(self)@.user_id == old(self)@.user_id,
            final(self)@.users == old(self)@.users,
            final(self)@.messages == old(self)@.messages,
            final(self)@.selected == old(self)@.selected,
    {
        proof {
            use_type_invariant(&*self);
        }
        if matches!(message.channel, ChatChannel::Whisper(_)) && message.user_id == self.user_id {
            self.write_channel = message.channel;
        } else if let Some(id) = message.user_id {
            self.write_channel = ChatChannel::Whisper(id);
        }
    }

    /// The Enter key brings the chat up.
    pub fn open_for_typing(&mut self)
        ensures
            final(self)@.opened,
            !final(self)@.minimized,
            final(self)@.user_id == old(self)@.user_id,
            final(self)@.users == old(self)@.users,
            final(self)@.messages == old(self)@.messages,
            final(self)@.selected == old(self)@.selected,
            final(self)@.write_channel == old(self)@.write_channel,
            final(self)@.linked_item == old(self)@.linked_item,
    {
        proof {
            use_type_invariant(&*self);
        }
        self.opened = true;
        self.minimized = false;
    }

    /// The position of the newest kept message that is shown, if any.
    pub fn last_visible_message(&self) -> (r: Option<usize>)
        ensures
            match r {
                Some(p) => p < self@.messages.len() && is_visible(
                    self@.selected,
                    self@.messages[p as int].channel,
                ) && forall|q: int|
                    p < q < self@.messages.len() ==> !is_visible(
                        self@.selected,
                        #[trigger] self@.messages[q].channel,
                    ),
                None => forall|q: int|
                    0 <= q < self@.messages.len() ==> !is_visible(
                        self@.selected,
                        #[trigger] self@.messages[q].channel,
                    ),
            },
    {
        let mut i: usize = self.messages.len();
        while i > 0
            invariant
                i <= self.messages@.len(),
                forall|q: int|
                    i <= q < self.messages@.len() ==> !is_visible(
                        self@.selected,
                        #[trigger] self.messages@[q].channel,
                    ),
            decreases i,
        {
            let channel = self.messages[i - 1].channel;
            if matches!(channel, ChatChannel::Whisper(_)) || self.is_selected(channel) {
                return Some(i - 1);
            }
            i = i - 1;
        }
        None
    }

    /// The positions of the kept messages that are shown, in the order in
    /// which they are shown: by sending time, then by arrival.
    pub fn visible_messages(&self) -> (shown: Vec<usize>)
        ensures
            forall|p: int|
                shown@.contains(p as usize) && 0 <= p <= usize::MAX <==> (0 <= p
                    < self@.messages.len() && is_visible(
                    self@.selected,
                    self@.messages[p].channel,
                )),
            forall|i: int, j: int|
                0 <= i < j < shown@.len() ==> shown_before(
                    self@.messages,
                    shown@[i] as int,
                    shown@[j] as int,
                ),
    {
        let ghost msgs = self.messages@;
        let mut shown: Vec<usize> = Vec::new();
        let mut p: usize = 0;
        while p < self.messages.len()
            invariant
                msgs == self.messages@,
                p <= msgs.len(),
                forall|k: int| 0 <= k < shown@.len() ==> #[trigger] shown@[k] < p,
                forall|q: int|
                    shown@.contains(q as usize) && 0 <= q <= usize::MAX <==> (0 <= q < p
                        && is_visible(self@.selected, msgs[q].channel)),
                forall|i: int, j: int|
                    0 <= i < j < shown@.len() ==> shown_before(msgs, shown@[i] as int, shown@[j] as int),
            decreases msgs.len() - p,
        {
            let channel = self.messages[p].channel;
            if matches!(channel, ChatChannel::Whisper(_)) || self.is_selected(channel) {
                let key = self.messages[p].sent_at;
                let mut k: usize = 0;
                while k < shown.len() && self.messages[shown[k]].sent_at <= key
                    invariant
                        msgs == self.messages@,
                        p < msgs.len(),
                        k <= shown@.len(),
                        forall|m: int| 0 <= m < shown@.len() ==> #[trigger] shown@[m] < p,
                        forall|m: int| 0 <= m < k ==> msgs[#[trigger] shown@[m] as int].sent_at <= key,
                        key == msgs[p as int].sent_at,
                    decreases shown@.len() - k,
                {
                    k = k + 1;
                }
                let ghost before = shown@;
                proof {
                    assert forall|m: int| k <= m < before.len() implies msgs[before[m] as int].sent_at
                        > key by {
                        if k < before.len() {
                            assert(shown_before(msgs, before[k as int] as int, before[m] as int)
                                || m == k);
                        }
                    }
                }
                shown.insert(k, p);
                proof {
                    let after = shown@;
                    assert(after == before.insert(k as int, p));
                    assert forall|i: int, j: int|
                        0 <= i < j < after.len() implies shown_before(
                        msgs,
                        after[i] as int,
                        after[j] as int,
                    ) by {
                        if j < k {
                            assert(after[i] == before[i] && after[j] == before[j]);
                        } else if j == k {
                            assert(after[i] == before[i]);
                            assert(before[i] < p);
                        } else if i == k {
                            assert(after[j] == before[j - 1]);
                            assert(msgs[before[j - 1] as int].sent_at > key);
                        } else if i < k {
                            assert(after[i] == before[i] && after[j] == before[j - 1]);
                        } else {
                            assert(after[i] == before[i - 1] && after[j] == before[j - 1]);
                        }
                    }
                    assert forall|q: int|
                        after.contains(q as usize) && 0 <= q <= usize::MAX <==> (0 <= q < p + 1
                            && is_visible(self@.selected, msgs[q].channel)) by {
                        if q == p {
                            assert(after[k as int] == p);
                        } else if 0 <= q <= usize::MAX && after.contains(q as usize) {
                            let m = choose|m: int| 0 <= m < after.len() && after[m] == q as usize;
                            if m < k {
                                assert(before[m] == q as usize);
                            } else if m > k {
                                assert(before[m - 1] == q as usize);
                            }
                        } else if 0 <= q <= usize::MAX && before.contains(q as usize) {
                            let m = choose|m: int| 0 <= m < before.len() && before[m] == q as usize;
                            if m < k {
                                assert(after[m] == q as usize);
                            } else {
                                assert(after[m + 1] == q as usize);
                            }
                        }
                    }
                    assert forall|m: int| 0 <= m < after.len() implies #[trigger] after[m] < p + 1 by {
                        if m < k {
                            assert(after[m] == before[m]);
                        } else if m > k {
                            assert(after[m] == before[m - 1]);
                        }
                    }
                }
            }
            p = p + 1;
        }
        shown
    }
}

/// A user missing from `users` (from position `from` on) is found with
/// the name it is added with.
proof fn lemma_name_of_push(users: Seq<(u128, String)>, id: u128, name: String, from: int)
    requires
        0 <= from <= users.len(),
        name_of(users, id, from) is None,
    ensures
        name_of(users.push((id, name)), id, from) == Some(name@),
    decreases users.len() - from,
{
    let pushed = users.push((id, name));
    if from < users.len() {
        assert(pushed[from] == users[from]);
        lemma_name_of_push(users, id, name, from + 1);
    } else {
        assert(pushed[from] == (id, name));
    }
}

/// Receiving the same message twice keeps what receiving it once keeps:
/// a message that the chat already holds is not shown again, and its
/// author's name is learned once.
pub proof fn law_same_message_kept_once(
    users: Seq<(u128, String)>,
    messages: Seq<ChatMessage>,
    m: ChatMessage,
)
    requires
        messages.len() <= CHAT_HISTORY_CAPACITY,
    ensures
        ({
            let (u, k) = pushed(users, messages, m);
            pushed(u, k, m) == pushed(users, messages, m)
        }),
{
    let (u, k) = pushed(users, messages, m);
    if !has_same_message(messages, m) {
        let last = k.len() - 1;
        assert(k[last] == m);
        assert(has_same_message(k, m));
    }
    match (m.user_id, m.username) {
        (Some(id), Some(name)) => {
            if name_of(users, id, 0) is None {
                lemma_name_of_push(users, id, name, 0);
            }
        },
        _ => {},
    }
}

} // verus!
