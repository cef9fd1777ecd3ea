//! What the page knows of the device: whether it is a mobile device, and
//! the fullscreen mode that mobile devices use.

use vstd::prelude::*;
use crate::text::{contains_seq, str_contains};

verus! {

/// A request to the browser about fullscreen mode.
#[derive(Clone, Copy, Debug, PartialEq, Eq, Structural)]
pub enum FullscreenRequest {
    Enter,
    Exit,
}

/// The device and whether the page is shown fullscreen.
pub struct AccessibilityContext {
    on_mobile: bool,
    is_fullscreen: bool,
}

/// Whether a browser's user agent is that of a mobile device: it mentions
/// `Mobi`.
pub open spec fn mobile_agent(user_agent: Seq<char>) -> bool {
    contains_seq(user_agent, "Mobi"@)
}

impl AccessibilityContext {
    /// The context for a browser with this user agent, fullscreen or not.
    pub fn new(user_agent: &str, is_fullscreen: bool) -> (c: Self)
        ensures
            c.on_mobile() == mobile_agent(user_agent@),
            c.fullscreen() == is_fullscreen,
    {
        AccessibilityContext { on_mobile: str_contains(user_agent, "Mobi"), is_fullscreen }
    }

    /// Whether the device is a mobile device.
    pub closed spec fn on_mobile(&self) -> bool {
        self.on_mobile
    }

    /// Whether the page is shown fullscreen.
    pub closed spec fn fullscreen(&self) -> bool {
        self.is_fullscreen
    }

    /// Whether the device is a mobile device.
    pub fn is_on_mobile(&self) -> (b: bool)
        ensures
            b == self.on_mobile(),
    {
        self.on_mobile
    }

    /// Whether the page is shown fullscreen.
    pub fn is_fullscreen(&self) -> (b: bool)
        ensures
            b == self.fullscreen(),
    {
        self.is_fullscreen
    }

    /// The browser reported a change of fullscreen mode.
    pub fn set_fullscreen(&mut self, is_fullscreen: bool)
        ensures
            final(self).fullscreen() == is_fullscreen,
            final(self).on_mobile() == old(self).on_mobile(),
    {
        self.is_fullscreen = is_fullscreen;
    }

    /// Whether going fullscreen asks the browser anything: only on mobile
    /// devices.
    pub fn go_fullscreen(&self) -> (r: Option<FullscreenRequest>)
        ensures
            r == if self.on_mobile() { Some(FullscreenRequest::Enter) } else { None },
    {
        if !self.on_mobile {
            return None;
        }
        Some(FullscreenRequest::Enter)
    }

    /// Whether leaving fullscreen asks the browser anything: only on mobile
    /// devices.
    pub fn exit_fullscreen(&self) -> (r: Option<FullscreenRequest>)
        ensures
            r == if self.on_mobile() { Some(FullscreenRequest::Exit) } else { None },
    {
        if !self.on_mobile {
            return None;
        }
        Some(FullscreenRequest::Exit)
    }

    /// The fullscreen button: leaves fullscreen if shown so, else enters it
    /// (on mobile devices only).
    pub fn toggle_fullscreen(&self) -> (r: Option<FullscreenRequest>)
        ensures
            r == if !self.on_mobile() {
                None
            } else if self.fullscreen() {
                Some(FullscreenRequest::Exit)
            } else {
                Some(FullscreenRequest::Enter)
            },
    {
        if self.is_fullscreen() {
            self.exit_fullscreen()
        } else {
            self.go_fullscreen()
        }
    }
}

} // verus!
