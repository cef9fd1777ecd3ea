//! A value that both the page and the game server update: the page's own
//! changes show at once, and the server's value replaces them only once
//! the page has left the value alone for a while.

use vstd::prelude::*;

verus! {

/// How long (milliseconds) a change made on the page holds off the
/// server's value.
pub const CLIENT_UPDATE_DELAY_MS: u64 = 500;

/// A value shared between the page and the server. Times are milliseconds.
pub struct Syncable<T> {
    client_value: T,
    server_value: Option<T>,
    server_update_time: Option<u64>,
    client_update_time: Option<u64>,
}

/// The state of a shared value.
pub struct SyncView<T> {
    /// The value shown.
    pub client_value: T,
    /// A value of the server not shown yet.
    pub server_value: Option<T>,
    /// When the server's value last arrived.
    pub server_update_time: Option<u64>,
    /// When the page last changed the value.
    pub client_update_time: Option<u64>,
}

impl<T> View for Syncable<T> {
    type V = SyncView<T>;

    closed spec fn view(&self) -> SyncView<T> {
        SyncView {
            client_value: self.client_value,
            server_value: self.server_value,
            server_update_time: self.server_update_time,
            client_update_time: self.client_update_time,
        }
    }
}

/// Whether the server's value replaces the shown one at time `now`: the
/// server spoke, and either the page never changed the value, or the
/// server spoke after the page's last change and that change is more than
/// the delay old.
pub open spec fn server_wins<T>(s: SyncView<T>, now: u64) -> bool {
    match (s.server_update_time, s.client_update_time) {
        (Some(server_time), Some(client_time)) => server_time > client_time && now > client_time
            && now - client_time > CLIENT_UPDATE_DELAY_MS,
        (Some(_), None) => true,
        _ => false,
    }
}

/// The state after the pending server value (if any) is shown.
pub open spec fn applied<T>(s: SyncView<T>) -> SyncView<T> {
    match s.server_value {
        Some(v) => SyncView { client_value: v, server_value: None, ..s },
        None => s,
    }
}

/// The state after a debounce at time `now`.
pub open spec fn debounced<T>(s: SyncView<T>, now: u64) -> SyncView<T> {
    if server_wins(s, now) {
        applied(s)
    } else {
        s
    }
}

/// The state after the server sent `server_value` (or nothing new) at `now`.
pub open spec fn synced<T>(s: SyncView<T>, server_value: Option<T>, now: u64) -> SyncView<T> {
    let received = match server_value {
        Some(v) => SyncView { server_value: Some(v), server_update_time: Some(now), ..s },
        None => s,
    };
    debounced(received, now)
}

impl<T> Syncable<T> {
    /// A shared value that shows `initial`; neither side changed it yet.
    pub fn new(initial: T) -> (s: Self)
        ensures
            s@.client_value == initial,
            s@.server_value is None,
            s@.server_update_time is None,
            s@.client_update_time is None,
    {
        Syncable {
            client_value: initial,
            server_value: None,
            server_update_time: None,
            client_update_time: None,
        }
    }

    /// The value shown.
    pub fn get(&self) -> (v: &T)
        ensures
            *v == self@.client_value,
    {
        &self.client_value
    }

    /// The page sets the value at time `now`.
    pub fn set(&mut self, value: T, now: u64)
        ensures
            final(self)@ == (SyncView {
                client_value: value,
                client_update_time: Some(now),
                ..old(self)@
            }),
    {
        self.client_update_time = Some(now);
        self.client_value = value;
    }

    /// The page changes the value in place at time `now`.
    pub fn update(&mut self, now: u64) -> (v: &mut T)
        ensures
            *v == old(self)@.client_value,
            final(self)@ == (SyncView {
                client_value: *final(v),
                client_update_time: Some(now),
                ..old(self)@
            }),
    {
        self.client_update_time = Some(now);
        &mut self.client_value
    }

    /// The server sent its value (or `None`: nothing new) at time `now`;
    /// it is shown unless the page changed the value too recently.
    pub fn sync(&mut self, server_value: Option<T>, now: u64)
        ensures
            final(self)@ == synced(old(self)@, server_value, now),
    {
        match server_value {
            Some(v) => {
                self.server_update_time = Some(now);
                self.server_value = Some(v);
            },
            None => {},
        }
        self.debounce(now);
    }

    fn debounce(&mut self, now: u64)
        ensures
            final(self)@ == debounced(old(self)@, now),
    {
        match (self.server_update_time, self.client_update_time) {
            (Some(server_time), Some(client_time)) => {
                if server_time > client_time && now > client_time && now - client_time
                    > CLIENT_UPDATE_DELAY_MS {
                    self.sync_value();
                }
            },
            (Some(_), None) => self.sync_value(),
            _ => {},
        }
    }

    fn sync_value(&mut self)
        ensures
            final(self)@ == applied(old(self)@),
    {
        let mut pending = None;
        std::mem::swap(&mut pending, &mut self.server_value);
        match pending {
            Some(v) => {
                self.client_value = v;
            },
            None => {},
        }
    }
}

/// A value that the page never changed shows what the server sends.
pub proof fn law_server_value_shown_without_client_change<T>(s: SyncView<T>, v: T, now: u64)
    requires
        s.client_update_time is None,
    ensures
        synced(s, Some(v), now).client_value == v,
        synced(s, Some(v), now).server_value is None,
{
}

/// A change made on the page is not overwritten by a value of the server
/// that arrives within the delay after it: the page's value stays shown
/// and the server's waits.
pub proof fn law_recent_client_change_holds<T>(s: SyncView<T>, x: T, t: u64, v: T, now: u64)
    requires
        now <= t + CLIENT_UPDATE_DELAY_MS,
    ensures
        ({
            let after_set = SyncView { client_value: x, client_update_time: Some(t), ..s };
            let after_sync = synced(after_set, Some(v), now);
            after_sync.client_value == x && after_sync.server_value == Some(v)
        }),
{
}

/// Once the delay after the page's change has passed, the next sync shows
/// the value that the server sent after that change.
pub proof fn law_pending_value_applied_after_delay<T>(s: SyncView<T>, now: u64)
    requires
        s.server_value is Some,
        s.server_update_time matches Some(st) && s.client_update_time matches Some(ct) && st > ct
            && now > ct + CLIENT_UPDATE_DELAY_MS,
    ensures
        synced(s, None, now).client_value == s.server_value->0,
        synced(s, None, now).server_value is None,
{
}

/// The server's value replaces the page's only when it arrived after the
/// page's last change: where both times are known, the server's is later.
pub proof fn law_server_wins_only_when_newer<T>(s: SyncView<T>, now: u64)
    requires
        s.server_update_time is Some,
        s.client_update_time is Some,
        server_wins(s, now),
    ensures
        s.server_update_time->0 > s.client_update_time->0,
        now > s.client_update_time->0 + CLIENT_UPDATE_DELAY_MS,
{
}

/// A value of the server received before (or at) the page's last change
/// never replaces the page's value, however long after: a sync that
/// brings nothing new leaves the state as it is.
pub proof fn law_older_server_value_never_overrides<T>(s: SyncView<T>, now: u64)
    requires
        s.server_update_time matches Some(st) && s.client_update_time matches Some(ct) && st <= ct,
    ensures
        !server_wins(s, now),
        synced(s, None, now) == s,
        synced(s, None, now).client_value == s.client_value,
{
}

/// A page change made after the server's value arrived keeps its value
/// through every later sync that brings nothing new.
pub proof fn law_page_change_after_server_value_holds<T>(s: SyncView<T>, x: T, t: u64, now: u64)
    requires
        s.server_update_time matches Some(st) && st <= t,
    ensures
        ({
            let after_set = SyncView { client_value: x, client_update_time: Some(t), ..s };
            synced(after_set, None, now).client_value == x
        }),
{
}

} // verus!
