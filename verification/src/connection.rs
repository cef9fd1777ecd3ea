//! The websockets to the game and chat servers: when to open and close
//! them, how the game server's messages are answered, and the compression
//! dictionary that their payloads use.

use vstd::prelude::*;
use crate::chat::ToastVariant;

verus! {

/// The state of a websocket connection.
#[derive(Clone, Copy, Debug, PartialEq, Eq, Structural)]
pub enum ReadyState {
    Connecting,
    Open,
    Closing,
    Closed,
}

/// Whether to open the connection: the user is signed in, the connection
/// is neither open nor opening, and (for the chat) the chat window is open.
pub fn should_open(authenticated: bool, state: ReadyState, wanted: bool) -> (b: bool)
    ensures
        b == (authenticated && state != ReadyState::Open && state != ReadyState::Connecting
            && wanted),
{
    authenticated && state != ReadyState::Open && state != ReadyState::Connecting && wanted
}

/// Whether to close the connection: it is open and the user signed out.
pub fn should_close(authenticated: bool, state: ReadyState) -> (b: bool)
    ensures
        b == (!authenticated && state == ReadyState::Open),
{
    !authenticated && state == ReadyState::Open
}

/// Whether to send the chat server the user's token: signed in, connection open.
pub fn should_send_token(authenticated: bool, state: ReadyState) -> (b: bool)
    ensures
        b == (authenticated && state == ReadyState::Open),
{
    authenticated && state == ReadyState::Open
}

/// A connection is never both to be opened and to be closed.
pub proof fn law_open_and_close_exclusive(authenticated: bool, state: ReadyState, wanted: bool)
    ensures
        !((authenticated && state != ReadyState::Open && state != ReadyState::Connecting && wanted)
            && (!authenticated && state == ReadyState::Open)),
{
}

/// The kind of an error that the game server reports.
#[derive(Clone, Copy, Debug, PartialEq, Eq, Structural)]
pub enum GameErrorType {
    Server,
    Game,
}

/// A message of the game server, as far as the page's answer depends on it.
pub enum GameServerEvent {
    Connect,
    InitGame,
    UpdateGame,
    Error { message: String, error_type: GameErrorType, must_disconnect: bool },
    Disconnect,
}

/// What the page does with a message of the game server.
pub struct GameReaction {
    /// Load the game's state from the message.
    pub init: bool,
    /// Bring the game's state up to date from the message.
    pub sync: bool,
    /// A notice to show.
    pub toast: Option<(String, ToastVariant)>,
    /// A page to go to.
    pub navigate: Option<&'static str>,
}

/// What the page does with a message of the game server: an error is
/// shown (and sends the user to the main menu if it ends the connection);
/// the end of the connection sends the user to town.
pub fn game_reaction(event: GameServerEvent) -> (r: GameReaction)
    ensures
        match event {
            GameServerEvent::Connect => !r.init && !r.sync && r.toast is None && r.navigate is None,
            GameServerEvent::InitGame => r.init && !r.sync && r.toast is None && r.navigate is None,
            GameServerEvent::UpdateGame => !r.init && r.sync && r.toast is None && r.navigate is None,
            GameServerEvent::Error { message, error_type, must_disconnect } => {
                &&& !r.init && !r.sync
                &&& r.toast == Some((
                    message,
                    match error_type {
                        GameErrorType::Server => ToastVariant::Error,
                        GameErrorType::Game => ToastVariant::Warning,
                    },
                ))
                &&& must_disconnect ==> (r.navigate matches Some(p) && p@ == "/"@)
                &&& !must_disconnect ==> r.navigate is None
            },
            GameServerEvent::Disconnect => {
                &&& !r.init && !r.sync && r.toast is None
                &&& r.navigate matches Some(p) && p@ == "/town"@
            },
        },
{
    match event {
        GameServerEvent::Connect => GameReaction { init: false, sync: false, toast: None, navigate: None },
        GameServerEvent::InitGame => GameReaction { init: true, sync: false, toast: None, navigate: None },
        GameServerEvent::UpdateGame => GameReaction { init: false, sync: true, toast: None, navigate: None },
        GameServerEvent::Error { message, error_type, must_disconnect } => {
            let variant = match error_type {
                GameErrorType::Server => ToastVariant::Error,
                GameErrorType::Game => ToastVariant::Warning,
            };
            GameReaction {
                init: false,
                sync: false,
                toast: Some((message, variant)),
                navigate: if must_disconnect { Some("/") } else { None },
            }
        },
        GameServerEvent::Disconnect => GameReaction {
            init: false,
            sync: false,
            toast: None,
            navigate: Some("/town"),
        },
    }
}

/// The wave counter after an update of the game: it goes up by one when
/// the update brings new monsters (it keys the monsters' cards).
pub fn next_monster_wave(wave: usize, new_monsters: bool) -> (next: usize)
    requires
        new_monsters ==> wave < usize::MAX,
    ensures
        next == if new_monsters { wave + 1 } else { wave as int },
{
    if new_monsters {
        wave + 1
    } else {
        wave
    }
}

/// The compression of the game connection's payloads: on or off, and the
/// dictionary that the server sent (none when it sent an empty one).
pub struct Compression {
    dictionary: Option<Vec<u8>>,
    enabled: bool,
}

/// How an outgoing payload is sent.
pub enum EncodePlan<'a> {
    /// As it is: compression is off.
    Raw,
    /// Compressed, with this dictionary (or none).
    Compressed(Option<&'a Vec<u8>>),
}

impl Compression {
    /// Off, without dictionary.
    pub fn new() -> (c: Self)
        ensures
            c.dictionary() is None,
            !c.enabled(),
    {
        Compression { dictionary: None, enabled: false }
    }

    /// The dictionary in use.
    pub closed spec fn dictionary(&self) -> Option<Seq<u8>> {
        match self.dictionary {
            Some(d) => Some(d@),
            None => None,
        }
    }

    /// Whether outgoing payloads are compressed.
    pub closed spec fn enabled(&self) -> bool {
        self.enabled
    }

    /// The server sent its dictionary: compression is on from now on, with
    /// that dictionary (none if it is empty).
    pub fn set_dictionary(&mut self, dictionary: Vec<u8>)
        ensures
            final(self).enabled(),
            final(self).dictionary() == if dictionary@.len() == 0 {
                None
            } else {
                Some(dictionary@)
            },
    {
        self.dictionary = if dictionary.len() == 0 { None } else { Some(dictionary) };
        self.enabled = true;
    }

    /// The connection ended: compression is off, without dictionary.
    pub fn clear(&mut self)
        ensures
            !final(self).enabled(),
            final(self).dictionary() is None,
    {
        self.dictionary = None;
        self.enabled = false;
    }

    /// How an outgoing payload is sent.
    pub fn encode_plan(&self) -> (plan: EncodePlan)
        ensures
            match plan {
                EncodePlan::Raw => !self.enabled(),
                EncodePlan::Compressed(d) => self.enabled() && match d {
                    Some(v) => self.dictionary() == Some(v@),
                    None => self.dictionary() is None,
                },
            },
    {
        if !self.enabled {
            return EncodePlan::Raw;
        }
        match &self.dictionary {
            Some(d) => EncodePlan::Compressed(Some(d)),
            None => EncodePlan::Compressed(None),
        }
    }

    /// The dictionary that incoming payloads are decoded with.
    pub fn decode_dictionary(&self) -> (d: Option<&Vec<u8>>)
        ensures
            match d {
                Some(v) => self.dictionary() == Some(v@),
                None => self.dictionary() is None,
            },
    {
        match &self.dictionary {
            Some(d) => Some(d),
            None => None,
        }
    }
}

} // verus!
