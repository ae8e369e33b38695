//! Where the obligation to restore comes from: a request to switch the game to
//! the safe layout, and its confirmation by reading the layout back.

use vstd::prelude::*;

verus! {

/// The game window we asked to switch to the safe layout, not yet confirmed.
#[derive(Clone, Copy, PartialEq, Eq, Debug)]
pub struct Takeover {
    pub requested: Option<isize>,
}

impl Takeover {
    pub open spec fn confirm_spec(self, window: isize, layout_is_safe: bool) -> (Takeover, bool) {
        if layout_is_safe && self.requested == Some(window) {
            (Takeover { requested: None }, true)
        } else {
            (self, false)
        }
    }

    /// Nothing requested.
    pub fn new() -> (t: Takeover)
        ensures
            t.requested is None,
    {
        Takeover { requested: None }
    }

    /// A switch to the safe layout was sent to `window`.
    pub fn requested(&mut self, window: isize)
        ensures
            final(self).requested == Some(window),
    {
        self.requested = Some(window);
    }

    /// The request is dropped and will never become an obligation.
    pub fn forget(&mut self)
        ensures
            final(self).requested is None,
    {
        self.requested = None;
    }

    /// Whether a request to `window` waits for its read-back.
    pub fn pending_for(&self, window: isize) -> (b: bool)
        ensures
            b == (self.requested == Some(window)),
    {
        self.requested == Some(window)
    }

    /// Read-back: only the same window, really on the safe layout, confirms the
    /// request, and a confirmation consumes it.
    pub fn confirm(&mut self, window: isize, layout_is_safe: bool) -> (confirmed: bool)
        ensures
            (*final(self), confirmed) == old(self).confirm_spec(window, layout_is_safe),
    {
        if layout_is_safe && self.requested == Some(window) {
            self.requested = None;
            return true;
        }
        false
    }
}

impl Default for Takeover {
    /// Nothing requested.
    fn default() -> (t: Takeover)
        ensures
            t.requested is None,
    {
        Takeover::new()
    }
}

/// A request is confirmed at most once, a request that was not accepted is
/// not confirmed, and another window does not confirm it.
pub proof fn lemma_confirmation_is_consumed(t: Takeover, window: isize, safe: bool, other: isize)
    ensures
        t.confirm_spec(window, safe).1 ==> !t.confirm_spec(window, safe).0.confirm_spec(window, safe).1,
        !safe ==> !t.confirm_spec(window, safe).1,
        t.requested == Some(window) && other != window ==> !t.confirm_spec(other, safe).1,
{
}

/// A forgotten request never turns into an obligation later.
pub proof fn lemma_forgotten_request_never_confirms(window: isize, safe: bool)
    ensures
        !(Takeover { requested: None }).confirm_spec(window, safe).1,
{
}

/// A request read back on the safe layout of its own window is confirmed, and
/// a read-back that confirms nothing leaves the request waiting as it was.
pub proof fn lemma_accepted_request_is_confirmed(t: Takeover, window: isize, safe: bool)
    ensures
        t.requested == Some(window) && safe ==> t.confirm_spec(window, safe) == (
        Takeover { requested: None },
        true,
        ),
        !t.confirm_spec(window, safe).1 ==> t.confirm_spec(window, safe).0 == t,
{
}

} // verus!
