//! Keyboard keys: how a key name or code reported by the browser is read,
//! and which keys are held down.

use vstd::prelude::*;
use vstd::string::*;
use crate::text::{is_prefix, str_eq, str_starts_with};

verus! {

/// A key of the keyboard, as the game's shortcuts see it.
#[derive(Debug, Clone, Copy, PartialEq, Eq, Hash, Structural)]
pub enum Key {
    Alt,
    Ctrl,
    Shift,
    Space,
    Enter,
    Escape,
    Delete,
    ArrowUp,
    ArrowDown,
    ArrowLeft,
    ArrowRight,
    Character(char),
    Unknown,
}

/// Whether `c` is an ASCII character (one byte in UTF-8).
pub open spec fn is_ascii_char(c: char) -> bool {
    (c as u32) < 128
}

/// The ASCII lower-case form of `c`: upper-case ASCII letters are lowered,
/// every other character stays as it is.
pub open spec fn ascii_lower(c: char) -> char {
    if 'A' <= c <= 'Z' {
        ((c as u32) + 32) as char
    } else {
        c
    }
}

/// The key that a key name or key code denotes.
///
/// A code `Key?` of four bytes gives the lower-cased character `?`; a name of
/// one byte gives that character; names and codes of the keys that the game
/// knows give those keys; anything else is unknown.
pub open spec fn key_of(s: Seq<char>) -> Key {
    if s == "Alt"@ || s == "AltLeft"@ || s == "AltRight"@ {
        Key::Alt
    } else if s == "Control"@ || s == "ControlLeft"@ || s == "ControlRight"@ {
        Key::Ctrl
    } else if s == "Shift"@ || s == "ShiftLeft"@ || s == "ShiftRight"@ {
        Key::Shift
    } else if s == "Space"@ {
        Key::Space
    } else if s == "Enter"@ {
        Key::Enter
    } else if s == "Escape"@ {
        Key::Escape
    } else if s == "ArrowUp"@ {
        Key::ArrowUp
    } else if s == "ArrowDown"@ {
        Key::ArrowDown
    } else if s == "ArrowLeft"@ {
        Key::ArrowLeft
    } else if s == "ArrowRight"@ {
        Key::ArrowRight
    } else if s == "Delete"@ {
        Key::Delete
    } else if s.len() == 4 && is_prefix("Key"@, s) && is_ascii_char(s[3]) {
        Key::Character(ascii_lower(s[3]))
    } else if s.len() == 1 && is_ascii_char(s[0]) {
        Key::Character(s[0])
    } else {
        Key::Unknown
    }
}

/// The key that a keyboard event stands for, from its `key` and `code`
/// properties: the key name wins unless it is missing or unknown.
pub open spec fn event_key_of(key: Option<Seq<char>>, code: Option<Seq<char>>) -> Key {
    match key {
        Some(k) if key_of(k) != Key::Unknown => key_of(k),
        _ => match code {
            Some(c) => key_of(c),
            None => Key::Unknown,
        },
    }
}

/// The ASCII lower-case form of `c`.
pub fn to_ascii_lower(c: char) -> (r: char)
    ensures
        r == ascii_lower(c),
{
    if 'A' <= c && c <= 'Z' {
        let v: u8 = (c as u8) + 32;
        v as char
    } else {
        c
    }
}

impl Key {
    /// Reads a key name or key code.
    pub fn from_code(code: &str) -> (key: Key)
        ensures
            key == key_of(code@),
    {
        if str_eq(code, "Alt") || str_eq(code, "AltLeft") || str_eq(code, "AltRight") {
            Key::Alt
        } else if str_eq(code, "Control") || str_eq(code, "ControlLeft") || str_eq(
            code,
            "ControlRight",
        ) {
            Key::Ctrl
        } else if str_eq(code, "Shift") || str_eq(code, "ShiftLeft") || str_eq(code, "ShiftRight") {
            Key::Shift
        } else if str_eq(code, "Space") {
            Key::Space
        } else if str_eq(code, "Enter") {
            Key::Enter
        } else if str_eq(code, "Escape") {
            Key::Escape
        } else if str_eq(code, "ArrowUp") {
            Key::ArrowUp
        } else if str_eq(code, "ArrowDown") {
            Key::ArrowDown
        } else if str_eq(code, "ArrowLeft") {
            Key::ArrowLeft
        } else if str_eq(code, "ArrowRight") {
            Key::ArrowRight
        } else if str_eq(code, "Delete") {
            Key::Delete
        } else {
            let n = code.unicode_len();
            if n == 4 && str_starts_with(code, "Key") {
                let c = code.get_char(3);
                if (c as u32) < 128 {
                    return Key::Character(to_ascii_lower(c));
                }
            }
            if n == 1 {
                let c = code.get_char(0);
                if (c as u32) < 128 {
                    return Key::Character(c);
                }
            }
            Key::Unknown
        }
    }
}

impl<'a> From<&'a str> for Key {
    fn from(code: &'a str) -> (key: Key) {
        Key::from_code(code)
    }
}

impl<'a> vstd::std_specs::convert::FromSpecImpl<&'a str> for Key {
    open spec fn obeys_from_spec() -> bool {
        true
    }

    open spec fn from_spec(code: &'a str) -> Key {
        key_of(code@)
    }
}

/// The key of a keyboard event, from its `key` and `code` properties.
pub fn event_key(key: Option<&str>, code: Option<&str>) -> (k: Key)
    ensures
        k == event_key_of(
            match key {
                Some(s) => Some(s@),
                None => None,
            },
            match code {
                Some(s) => Some(s@),
                None => None,
            },
        ),
{
    let from_key = match key {
        Some(s) => Key::from_code(s),
        None => Key::Unknown,
    };
    if from_key != Key::Unknown {
        return from_key;
    }
    match code {
        Some(c) => Key::from_code(c),
        None => Key::Unknown,
    }
}


/// The keys of `entries`, each once: the table maps them to their state.
pub open spec fn distinct_keys(entries: Seq<(Key, bool)>) -> bool {
    forall|i: int, j: int|
        0 <= i < entries.len() && 0 <= j < entries.len() && i != j ==> entries[i].0 != entries[j].0
}

/// The state that a table of distinct entries gives each key it holds.
pub open spec fn table_of(entries: Seq<(Key, bool)>) -> Map<Key, bool> {
    Map::new(
        |k: Key| exists|i: int| 0 <= i < entries.len() && entries[i].0 == k,
        |k: Key| entries[choose|i: int| 0 <= i < entries.len() && entries[i].0 == k].1,
    )
}

/// Which keys are held down: a key that the table does not hold is up.
pub struct PressedKeys {
    entries: Vec<(Key, bool)>,
}

impl View for PressedKeys {
    type V = Map<Key, bool>;

    closed spec fn view(&self) -> Map<Key, bool> {
        table_of(self.entries@)
    }
}

/// Whether `key` is down in the table `keys`.
pub open spec fn is_down(keys: Map<Key, bool>, key: Key) -> bool {
    keys.contains_key(key) && keys[key]
}

impl PressedKeys {
    #[verifier::type_invariant]
    closed spec fn inv(self) -> bool {
        distinct_keys(self.entries@)
    }

    /// A table in which every key is up.
    pub fn new() -> (keys: Self)
        ensures
            keys@ == Map::<Key, bool>::empty(),
    {
        let keys = PressedKeys { entries: Vec::new() };
        assert(keys@ =~= Map::<Key, bool>::empty());
        keys
    }

    fn index_of(&self, key: Key) -> (r: Option<usize>)
        ensures
            match r {
                Some(i) => i < self.entries@.len() && self.entries@[i as int].0 == key,
                None => forall|i: int| 0 <= i < self.entries@.len() ==> self.entries@[i].0 != key,
            },
    {
        let mut i: usize = 0;
        while i < self.entries.len()
            invariant
                i <= self.entries@.len(),
                forall|j: int| 0 <= j < i ==> self.entries@[j].0 != key,
            decreases self.entries@.len() - i,
        {
            if self.entries[i].0 == key {
                return Some(i);
            }
            i = i + 1;
        }
        None
    }

    /// Whether `key` is held down.
    pub fn key_pressed(&self, key: Key) -> (down: bool)
        ensures
            down == is_down(self@, key),
    {
        proof {
            use_type_invariant(self);
        }
        match self.index_of(key) {
            Some(i) => {
                let ghost j = choose|j: int| 0 <= j < self.entries@.len() && self.entries@[j].0 == key;
                assert(j == i);
                self.entries[i].1
            },
            None => false,
        }
    }

    /// Records that `key` is down (`true`) or up (`false`).
    pub fn set(&mut self, key: Key, down: bool)
        ensures
            final(self)@ == old(self)@.insert(key, down),
    {
        proof {
            use_type_invariant(&*self);
        }
        let ghost old_entries = self.entries@;
        let found = self.index_of(key);
        let mut entries: Vec<(Key, bool)> = Vec::new();
        std::mem::swap(&mut entries, &mut self.entries);
        match found {
            Some(i) => {
                entries.set(i, (key, down));
            },
            None => {
                entries.push((key, down));
            },
        }
        let ghost new_entries = entries@;
        assert(distinct_keys(new_entries));
        self.entries = entries;
        assert forall|k: Key| #[trigger] table_of(new_entries).contains_key(k)
            == old(self)@.insert(key, down).contains_key(k) by {
            if k != key && old(self)@.contains_key(k) {
                let j = choose|j: int| 0 <= j < old_entries.len() && old_entries[j].0 == k;
                assert(new_entries[j].0 == k);
            }
            if k == key {
                match found {
                    Some(i) => assert(new_entries[i as int].0 == k),
                    None => assert(new_entries[old_entries.len() as int].0 == k),
                }
            }
            if table_of(new_entries).contains_key(k) && k != key {
                let j = choose|j: int| 0 <= j < new_entries.len() && new_entries[j].0 == k;
                assert(old_entries[j].0 == k);
            }
        }
        assert forall|k: Key| #[trigger] table_of(new_entries).contains_key(k) implies
            table_of(new_entries)[k] == old(self)@.insert(key, down)[k] by {
            let j = choose|j: int| 0 <= j < new_entries.len() && new_entries[j].0 == k;
            if k != key {
                assert(old_entries[j].0 == k);
                let j2 = choose|j2: int| 0 <= j2 < old_entries.len() && old_entries[j2].0 == k;
                assert(j2 == j);
            } else {
                match found {
                    Some(i) => assert(j == i),
                    None => assert(j == old_entries.len()),
                }
            }
        }
        assert(self@ =~= old(self)@.insert(key, down));
    }

    /// Every key is up again (the page lost the focus).
    pub fn clear(&mut self)
        ensures
            final(self)@ == Map::<Key, bool>::empty(),
    {
        self.entries = Vec::new();
        assert(self@ =~= Map::<Key, bool>::empty());
    }

    /// Brings the modifier keys in line with the flags of a keyboard event:
    /// a modifier is down when the event says so or when it is the event's key.
    pub fn sync_modifier_keys(&mut self, event_key: Key, alt: bool, ctrl: bool, shift: bool)
        ensures
            final(self)@ == synced_modifiers(old(self)@, event_key, alt, ctrl, shift),
    {
        self.set(Key::Alt, alt || event_key == Key::Alt);
        self.set(Key::Ctrl, ctrl || event_key == Key::Ctrl);
        self.set(Key::Shift, shift || event_key == Key::Shift);
    }

    /// A key went down.
    pub fn on_key_down(&mut self, event_key: Key, alt: bool, ctrl: bool, shift: bool)
        ensures
            final(self)@ == synced_modifiers(old(self)@, event_key, alt, ctrl, shift).insert(
                event_key,
                true,
            ),
    {
        self.sync_modifier_keys(event_key, alt, ctrl, shift);
        self.set(event_key, true);
    }

    /// A key went up.
    pub fn on_key_up(&mut self, event_key: Key, alt: bool, ctrl: bool, shift: bool)
        ensures
            final(self)@ == synced_modifiers(old(self)@, event_key, alt, ctrl, shift).insert(
                event_key,
                false,
            ),
    {
        self.sync_modifier_keys(event_key, alt, ctrl, shift);
        self.set(event_key, false);
    }
}

/// The table after the modifier keys are brought in line with an event.
pub open spec fn synced_modifiers(
    keys: Map<Key, bool>,
    event_key: Key,
    alt: bool,
    ctrl: bool,
    shift: bool,
) -> Map<Key, bool> {
    keys.insert(Key::Alt, alt || event_key == Key::Alt).insert(
        Key::Ctrl,
        ctrl || event_key == Key::Ctrl,
    ).insert(Key::Shift, shift || event_key == Key::Shift)
}

/// Whether a keyboard event that involves Alt or Ctrl must not reach the
/// browser (whose own shortcuts would fire).
pub open spec fn blocks_default_spec(alt: bool, ctrl: bool, code: Option<Seq<char>>) -> bool {
    alt || ctrl || code == Some("AltLeft"@) || code == Some("AltRight"@)
}

/// Whether the page keeps a keyboard event from the browser's own handling.
pub fn blocks_default(alt: bool, ctrl: bool, code: Option<&str>) -> (b: bool)
    ensures
        b == blocks_default_spec(
            alt,
            ctrl,
            match code {
                Some(c) => Some(c@),
                None => None,
            },
        ),
{
    if alt || ctrl {
        return true;
    }
    match code {
        Some(c) => str_eq(c, "AltLeft") || str_eq(c, "AltRight"),
        None => false,
    }
}

/// Whether a keyboard event comes from a place where the user types text:
/// an input field, a text area, or an element marked `contenteditable="true"`.
pub fn is_text_input(is_input: bool, is_textarea: bool, contenteditable: Option<&str>) -> (b: bool)
    ensures
        b == (is_input || is_textarea || match contenteditable {
            Some(v) => v@ == "true"@,
            None => false,
        }),
{
    is_input || is_textarea || match contenteditable {
        Some(v) => str_eq(v, "true"),
        None => false,
    }
}

/// Whether a key press is recorded: not while the user types into a text
/// field, nor while some text is selected.
pub fn records_key_down(typing_in_text_field: bool, text_selected: bool) -> (b: bool)
    ensures
        b == (!typing_in_text_field && !text_selected),
{
    !typing_in_text_field && !text_selected
}

/// A key that goes down is then reported down, whatever the state before.
pub proof fn law_key_down_is_pressed(keys: Map<Key, bool>, k: Key, alt: bool, ctrl: bool, shift: bool)
    ensures
        is_down(synced_modifiers(keys, k, alt, ctrl, shift).insert(k, true), k),
{
}

/// A key that goes up is then reported up, whatever the state before; in
/// particular a key pressed and then released is up.
pub proof fn law_key_up_is_released(keys: Map<Key, bool>, k: Key, alt: bool, ctrl: bool, shift: bool)
    ensures
        !is_down(synced_modifiers(keys, k, alt, ctrl, shift).insert(k, false), k),
{
}

/// An event leaves every key other than its own key and the modifiers as it was.
pub proof fn law_key_event_leaves_other_keys(
    keys: Map<Key, bool>,
    k: Key,
    other: Key,
    alt: bool,
    ctrl: bool,
    shift: bool,
    down: bool,
)
    requires
        other != k,
        other != Key::Alt,
        other != Key::Ctrl,
        other != Key::Shift,
    ensures
        is_down(synced_modifiers(keys, k, alt, ctrl, shift).insert(k, down), other) == is_down(
            keys,
            other,
        ),
{
}

/// After the table is cleared no key is down.
pub proof fn law_cleared_keys_are_up(k: Key)
    ensures
        !is_down(Map::<Key, bool>::empty(), k),
{
}

} // verus!
