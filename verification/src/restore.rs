//! Giving the desktop back the layout it had before the game took the keyboard over.
//!
//! Times are readings of a monotonic clock in nanoseconds. The restorer never
//! touches a window itself: each round it is fed what is in the foreground and
//! answers whether a layout-change request should be sent, and to whom.

use vstd::prelude::*;

verus! {

/// A foreground has to stay the foreground this long before it counts as settled.
pub const RESTORE_SETTLE: u64 = 300_000_000;

/// Once a foreground has settled, the restore has this long to take effect.
pub const RESTORE_WINDOW: u64 = 2_000_000_000;

/// Absolute limit, counted from the first usable foreground after leaving the game.
pub const RESTORE_GIVE_UP: u64 = 10_000_000_000;

/// How many restore requests are sent to one foreground window at most.
pub const RESTORE_TRIES: u8 = 3;

/// A request for the same target is not repeated within this interval.
pub const RESEND_AFTER: u64 = 500_000_000;

/// The largest clock reading the restorer accepts: a deadline two seconds later
/// must still fit in the clock's range.
pub const MAX_TIME: u64 = 18_446_744_071_709_551_615;

/// Time elapsed from `earlier` to `now`, zero if `earlier` is not before `now`.
pub open spec fn elapsed(now: u64, earlier: u64) -> int {
    if now >= earlier {
        now - earlier
    } else {
        0
    }
}

/// `elapsed`, computed.
pub fn duration_since(now: u64, earlier: u64) -> (d: u64)
    ensures
        d == elapsed(now, earlier),
{
    if now >= earlier {
        now - earlier
    } else {
        0
    }
}

/// A foreground window that is neither the game nor a passing shell overlay,
/// with its thread and the layout that thread uses.
#[derive(Clone, Copy, PartialEq, Eq, Debug)]
pub struct Foreground {
    pub window: isize,
    pub thread: u32,
    pub layout: usize,
}

/// What one round of observing asks the caller to do.
#[derive(Clone, Copy, PartialEq, Eq, Debug, Structural)]
pub enum Step {
    Nothing,
    Post { window: isize, thread: u32, layout: usize },
}

/// A restore that is owed for the current departure from the game.
#[derive(Clone, Copy, PartialEq, Eq, Debug)]
pub struct Pending {
    /// When the first usable foreground was seen after leaving.
    pub armed: Option<u64>,
    /// The foreground window the restore is bound to.
    pub window: Option<isize>,
    /// Until when the bound window may still receive requests.
    pub deadline: Option<u64>,
    /// When the last request was sent.
    pub posted: Option<u64>,
    /// Requests sent to the bound window.
    pub tries: u8,
}

/// The decision state of restoring the desktop layout.
#[derive(Clone, Copy, PartialEq, Eq, Debug)]
pub struct Restorer {
    /// The layout the desktop used before the game came to the front: the target.
    pub desktop: Option<usize>,
    /// We really switched the game away from the player's layout (confirmed by read-back).
    pub owed: bool,
    /// The player is not in the game.
    pub away: bool,
    /// This departure has been dealt with (restored or given up).
    pub done: bool,
    pub pending: Option<Pending>,
    /// The current foreground window and when it was first seen.
    pub seen: Option<(isize, u64)>,
}

impl Pending {
    pub open spec fn fresh() -> Pending {
        Pending { armed: None, window: None, deadline: None, posted: None, tries: 0 }
    }
}

impl Restorer {
    /// The restorer's invariant: a restore is only pending while the player is
    /// away, and never after its request budget is spent.
    pub open spec fn wf(self) -> bool {
        &&& self.pending is Some ==> self.away
        &&& self.pending is Some ==> self.owed
        &&& self.pending is Some ==> !self.done
        &&& self.pending is Some && self.pending->0.window is Some ==> self.pending->0.deadline is Some
        &&& self.pending is Some ==> self.pending->0.tries <= RESTORE_TRIES
    }

    pub open spec fn spec_new() -> Restorer {
        Restorer { desktop: None, owed: false, away: false, done: false, pending: None, seen: None }
    }

    pub open spec fn took_over_spec(self) -> Restorer {
        Restorer { owed: true, ..self }
    }

    pub open spec fn finish_spec(self, settled: bool) -> Restorer {
        Restorer { pending: None, done: true, owed: if settled { false } else { self.owed }, ..self }
    }

    pub open spec fn in_game_spec(self) -> Restorer {
        Restorer { pending: None, away: false, seen: None, ..self }
    }

    pub open spec fn cancel_spec(self) -> Restorer {
        self.finish_spec(true)
    }

    pub open spec fn left_spec(self) -> Restorer {
        Restorer { away: true, done: false, seen: None, ..self }
    }

    /// The restorer after a possible arming: a restore becomes pending as soon as
    /// the player is away, the departure is not dealt with and an obligation exists.
    pub open spec fn arm_spec(self) -> Restorer {
        if self.away && !self.done && self.owed && self.pending is None {
            Restorer { pending: Some(Pending::fresh()), ..self }
        } else {
            self
        }
    }

    /// The give-up stage: the absolute limit runs from the first usable foreground.
    pub open spec fn stamp_and_give_up_spec(self, now: u64) -> Restorer {
        let r = match self.pending {
            Some(p) => if p.armed is None {
                Restorer { pending: Some(Pending { armed: Some(now), ..p }), ..self }
            } else {
                self
            },
            None => self,
        };
        if r.pending is Some && r.pending->0.armed is Some && elapsed(now, r.pending->0.armed->0)
            > RESTORE_GIVE_UP {
            r.finish_spec(false)
        } else {
            r
        }
    }

    /// One round away from the game, with the foreground `fg`, the safe layout
    /// `safe` and whether restoring is enabled: the next state and the request to send.
    pub open spec fn observe_spec(self, now: u64, fg: Option<Foreground>, safe: usize, enabled: bool) -> (
        Restorer,
        Step,
    ) {
        let r0 = if !enabled {
            self.cancel_spec()
        } else {
            self
        };
        let r1 = r0.arm_spec();
        match fg {
            None => (Restorer { seen: None, ..r1 }, Step::Nothing),
            Some(f) => {
                let first_seen = match r1.seen {
                    Some(s) => if s.0 == f.window {
                        s.1
                    } else {
                        now
                    },
                    None => now,
                };
                let r2 = Restorer { seen: Some((f.window, first_seen)), ..r1 };
                let r3 = r2.stamp_and_give_up_spec(now);
                let settled = elapsed(now, first_seen) >= RESTORE_SETTLE;
                if f.layout != safe {
                    let r4 = Restorer { desktop: Some(f.layout), ..r3 };
                    if settled {
                        (r4.finish_spec(true), Step::Nothing)
                    } else {
                        (r4, Step::Nothing)
                    }
                } else if !settled {
                    (r3, Step::Nothing)
                } else if r3.desktop is None {
                    (r3.finish_spec(false), Step::Nothing)
                } else if r3.pending is None {
                    (r3, Step::Nothing)
                } else {
                    let p0 = r3.pending->0;
                    let p1 = if p0.window != Some(f.window) {
                        Pending {
                            window: Some(f.window),
                            deadline: Some((now + RESTORE_WINDOW) as u64),
                            posted: None,
                            tries: 0,
                            ..p0
                        }
                    } else {
                        p0
                    };
                    let r5 = Restorer { pending: Some(p1), ..r3 };
                    if (p1.deadline is Some && now > p1.deadline->0) || p1.tries >= RESTORE_TRIES {
                        (r5.finish_spec(false), Step::Nothing)
                    } else if p1.posted is Some && elapsed(now, p1.posted->0) < RESEND_AFTER {
                        (r5, Step::Nothing)
                    } else {
                        let p2 = Pending { posted: Some(now), tries: (p1.tries + 1) as u8, ..p1 };
                        (
                            Restorer { pending: Some(p2), ..r3 },
                            Step::Post { window: f.window, thread: f.thread, layout: r3.desktop->0 },
                        )
                    }
                }
            },
        }
    }

    /// A restorer with nothing seen and nothing owed.
    pub fn new() -> (r: Restorer)
        ensures
            r == Restorer::spec_new(),
            r.wf(),
    {
        Restorer { desktop: None, owed: false, away: false, done: false, pending: None, seen: None }
    }

    /// The game is in the foreground and the read-back confirmed that the safe
    /// layout we asked for is in effect.
    pub fn took_over(&mut self)
        ensures
            *final(self) == old(self).took_over_spec(),
    {
        self.owed = true;
    }

    /// Stop this round of restoring. `settled` means the desktop is back on the
    /// player's layout and the obligation is over; giving up keeps the obligation
    /// for the next departure.
    pub fn finish(&mut self, settled: bool)
        ensures
            *final(self) == old(self).finish_spec(settled),
    {
        self.pending = None;
        self.done = true;
        if settled {
            self.owed = false;
        }
    }

    /// The game came back to the front: a pending restore is void.
    pub fn in_game(&mut self)
        ensures
            *final(self) == old(self).in_game_spec(),
    {
        self.pending = None;
        self.away = false;
        self.seen = None;
    }

    /// Pausing, or turning restoring off: the obligation itself is dropped.
    pub fn cancel(&mut self)
        ensures
            *final(self) == old(self).cancel_spec(),
    {
        self.finish(true);
    }

    /// The game left the foreground. Arming waits for `observe`, since the
    /// read-back confirming the takeover may land a few rounds later.
    pub fn left(&mut self)
        ensures
            *final(self) == old(self).left_spec(),
    {
        self.away = true;
        self.done = false;
        self.seen = None;
    }

    /// One round while the game is not in the foreground. Returns the restore
    /// request to send this round; a request is not an acceptance, so the next
    /// rounds read back and resend or stop.
    pub fn observe(&mut self, now: u64, fg: Option<Foreground>, safe: usize, enabled: bool) -> (step: Step)
        requires
            now <= MAX_TIME,
        ensures
            (*final(self), step) == old(self).observe_spec(now, fg, safe, enabled),
    {
        if !enabled {
            self.cancel();
        }
        if self.away && !self.done && self.owed && self.pending.is_none() {
            self.pending = Some(Pending { armed: None, window: None, deadline: None, posted: None, tries: 0 });
        }
        let f = match fg {
            None => {
                self.seen = None;
                return Step::Nothing;
            },
            Some(f) => f,
        };
        let first_seen = match self.seen {
            Some(s) => if s.0 == f.window {
                s.1
            } else {
                self.seen = Some((f.window, now));
                now
            },
            None => {
                self.seen = Some((f.window, now));
                now
            },
        };
        match self.pending {
            Some(p) => {
                if p.armed.is_none() {
                    self.pending = Some(Pending { armed: Some(now), ..p });
                }
            },
            None => {},
        }
        let give_up = match self.pending {
            Some(p) => match p.armed {
                Some(a) => duration_since(now, a) > RESTORE_GIVE_UP,
                None => false,
            },
            None => false,
        };
        if give_up {
            self.finish(false);
        }
        let since = duration_since(now, first_seen);
        if f.layout != safe {
            self.desktop = Some(f.layout);
            if since >= RESTORE_SETTLE {
                self.finish(true);
            }
            return Step::Nothing;
        }
        if since < RESTORE_SETTLE {
            return Step::Nothing;
        }
        let desktop = match self.desktop {
            None => {
                self.finish(false);
                return Step::Nothing;
            },
            Some(d) => d,
        };
        let mut p = match self.pending {
            None => {
                return Step::Nothing;
            },
            Some(p) => p,
        };
        if p.window != Some(f.window) {
            p.window = Some(f.window);
            p.deadline = Some(now + RESTORE_WINDOW);
            p.posted = None;
            p.tries = 0;
        }
        self.pending = Some(p);
        let expired = match p.deadline {
            Some(d) => now > d,
            None => false,
        };
        if expired || p.tries >= RESTORE_TRIES {
            self.finish(false);
            return Step::Nothing;
        }
        let too_soon = match p.posted {
            Some(t) => duration_since(now, t) < RESEND_AFTER,
            None => false,
        };
        if too_soon {
            return Step::Nothing;
        }
        p.posted = Some(now);
        p.tries = p.tries + 1;
        self.pending = Some(p);
        Step::Post { window: f.window, thread: f.thread, layout: desktop }
    }
}

impl Default for Restorer {
    /// A restorer with nothing seen and nothing owed.
    fn default() -> (r: Restorer)
        ensures
            r == Restorer::spec_new(),
    {
        Restorer::new()
    }
}

/// Every operation of the restorer keeps its invariant.
pub proof fn lemma_operations_keep_wf(r: Restorer, now: u64, fg: Option<Foreground>, safe: usize, enabled: bool, settled: bool)
    requires
        r.wf(),
    ensures
        Restorer::spec_new().wf(),
        r.observe_spec(now, fg, safe, enabled).0.wf(),
        r.took_over_spec().wf(),
        r.finish_spec(settled).wf(),
        r.in_game_spec().wf(),
        r.cancel_spec().wf(),
        r.left_spec().wf(),
{
}

/// Without a confirmed takeover there is no restore: a restorer that owes
/// nothing never asks for a request and never starts owing by observing.
pub proof fn lemma_nothing_owed_nothing_sent(r: Restorer, now: u64, fg: Option<Foreground>, safe: usize, enabled: bool)
    requires
        r.wf(),
        !r.owed,
    ensures
        r.observe_spec(now, fg, safe, enabled).1 == Step::Nothing,
        !r.observe_spec(now, fg, safe, enabled).0.owed,
        r.observe_spec(now, fg, safe, enabled).0.pending is None,
{
}

/// Turning restoring off drops the obligation in the same round: nothing is
/// sent, nothing stays pending, nothing is owed.
pub proof fn lemma_disabled_drops_everything(r: Restorer, now: u64, fg: Option<Foreground>, safe: usize)
    ensures
        r.observe_spec(now, fg, safe, false).1 == Step::Nothing,
        !r.observe_spec(now, fg, safe, false).0.owed,
        r.observe_spec(now, fg, safe, false).0.pending is None,
{
}

/// While the game is in the foreground nothing is restored: a restorer that is
/// not away never asks for a request.
pub proof fn lemma_in_game_never_restores(r: Restorer, now: u64, fg: Option<Foreground>, safe: usize, enabled: bool)
    requires
        r.wf(),
        !r.away,
    ensures
        r.observe_spec(now, fg, safe, enabled).1 == Step::Nothing,
{
}

/// A passing state (no usable foreground) starts no clock and consumes no
/// obligation: nothing is sent, the pending restore and the obligation survive.
pub proof fn lemma_no_foreground_consumes_nothing(r: Restorer, now: u64, safe: usize)
    requires
        r.wf(),
    ensures
        r.observe_spec(now, None, safe, true).1 == Step::Nothing,
        r.observe_spec(now, None, safe, true).0.owed == r.owed,
        r.observe_spec(now, None, safe, true).0.seen is None,
        r.pending is Some ==> r.observe_spec(now, None, safe, true).0.pending == r.pending,
{
}

/// A request goes only to a foreground that has been the foreground for at
/// least the settle time, whose layout is still the safe one, and asks for the
/// desktop layout that was recorded before; it is only sent while the player
/// is away and the takeover is owed, within the bound window's time limit, the
/// absolute give-up limit and its request budget.
pub proof fn lemma_request_targets_a_settled_foreground(
    r: Restorer,
    now: u64,
    fg: Option<Foreground>,
    safe: usize,
    enabled: bool,
)
    requires
        r.wf(),
        now <= MAX_TIME,
        r.observe_spec(now, fg, safe, enabled).1 is Post,
    ensures
        ({
            let (r2, step) = r.observe_spec(now, fg, safe, enabled);
            let f = fg->0;
            &&& fg is Some
            &&& step == Step::Post { window: f.window, thread: f.thread, layout: r.desktop->0 }
            &&& f.layout == safe
            &&& r.desktop is Some
            &&& r.seen is Some && r.seen.unwrap().0 == f.window && elapsed(now, r.seen.unwrap().1) >= RESTORE_SETTLE
            &&& enabled && r.away && r.owed && !r.done
            &&& r2.pending is Some
            &&& r2.pending->0.window == Some(f.window)
            &&& r2.pending->0.posted == Some(now)
            &&& 1 <= r2.pending->0.tries <= RESTORE_TRIES
            &&& r2.pending->0.deadline is Some && now <= r2.pending->0.deadline->0
            &&& r2.pending->0.armed is Some && elapsed(now, r2.pending->0.armed->0) <= RESTORE_GIVE_UP
        }),
{
}

/// A restore is given up for good once the absolute limit has passed since the
/// first usable foreground: the next round with a foreground drops it and
/// sends nothing, however unsettled the foreground has been.
pub proof fn lemma_gives_up_after_the_limit(r: Restorer, now: u64, f: Foreground, safe: usize, enabled: bool)
    requires
        r.pending is Some,
        r.pending->0.armed is Some,
        elapsed(now, r.pending->0.armed->0) > RESTORE_GIVE_UP,
    ensures
        r.observe_spec(now, Some(f), safe, enabled).1 == Step::Nothing,
        r.observe_spec(now, Some(f), safe, enabled).0.pending is None,
{
}

/// The safe layout is never pushed onto the desktop: the restore target is
/// only ever recorded from a layout other than the safe one, so a request
/// never asks for the safe layout.
pub proof fn lemma_never_pushes_the_safe_layout(r: Restorer, now: u64, fg: Option<Foreground>, safe: usize, enabled: bool)
    requires
        r.desktop != Some(safe),
    ensures
        r.observe_spec(now, fg, safe, enabled).0.desktop != Some(safe),
        r.observe_spec(now, fg, safe, enabled).1 matches Step::Post { layout, .. } ==> layout != safe,
{
}

/// Each request to the same bound window spends one of its requests, and the
/// requests to one window are spaced by the resend interval: with the budget
/// capped by the invariant, a window receives at most `RESTORE_TRIES` requests.
pub proof fn lemma_requests_spend_the_budget(r: Restorer, now: u64, fg: Option<Foreground>, safe: usize, enabled: bool)
    requires
        r.wf(),
        now <= MAX_TIME,
        r.observe_spec(now, fg, safe, enabled).1 is Post,
        r.pending is Some,
        r.pending->0.window == Some(fg->0.window),
    ensures
        r.observe_spec(now, fg, safe, enabled).0.pending->0.tries == r.pending->0.tries + 1,
        r.pending->0.posted is Some ==> elapsed(now, r.pending->0.posted->0) >= RESEND_AFTER,
{
}

/// A layout the player picked himself wins over ours: a foreground that is not
/// on the safe layout gets no request, becomes the next restore target, and
/// once settled ends the obligation.
pub proof fn lemma_players_own_layout_wins(r: Restorer, now: u64, f: Foreground, safe: usize, enabled: bool)
    requires
        f.layout != safe,
    ensures
        ({
            let (r2, step) = r.observe_spec(now, Some(f), safe, enabled);
            &&& step == Step::Nothing
            &&& r2.desktop == Some(f.layout)
            &&& (r.seen is Some && r.seen.unwrap().0 == f.window && elapsed(now, r.seen.unwrap().1) >= RESTORE_SETTLE)
                ==> (!r2.owed && r2.pending is None && r2.done)
        }),
{
}

/// Coming back into the game voids the pending restore of this departure, but
/// not the obligation itself nor the recorded target: the obligation stays until
/// the desktop is restored, a restore is given up, or it is cancelled.
pub proof fn lemma_in_game_keeps_the_obligation(r: Restorer)
    ensures
        r.in_game_spec().owed == r.owed,
        r.in_game_spec().desktop == r.desktop,
        r.in_game_spec().pending is None,
        !r.in_game_spec().away,
        r.in_game_spec().seen is None,
{
}

/// Only a settled restore or a cancellation ends the obligation: leaving the
/// game and giving up keep it and the target, a confirmed takeover creates it.
pub proof fn lemma_what_ends_the_obligation(r: Restorer)
    ensures
        r.left_spec().owed == r.owed && r.left_spec().desktop == r.desktop && r.left_spec().away,
        r.finish_spec(false).owed == r.owed && r.finish_spec(false).desktop == r.desktop,
        r.finish_spec(false).pending is None,
        !r.finish_spec(true).owed && r.finish_spec(true).pending is None,
        !r.cancel_spec().owed && r.cancel_spec().pending is None,
        r.took_over_spec().owed && r.took_over_spec().desktop == r.desktop && r.took_over_spec().pending
            == r.pending,
{
}

/// A restore that is due is sent: while the player is away and the takeover is
/// owed, a foreground that has stayed the foreground for the settle time and
/// still uses the safe layout gets the request for the recorded desktop layout,
/// unless the give-up limit has passed or the window it is bound to has spent
/// its time, its requests, or asked within the resend interval.
pub proof fn lemma_due_restore_is_sent(r: Restorer, now: u64, f: Foreground, safe: usize, t0: u64)
    requires
        r.wf(),
        now <= MAX_TIME,
        r.away && r.owed && !r.done,
        r.desktop is Some,
        f.layout == safe,
        r.seen == Some((f.window, t0)),
        elapsed(now, t0) >= RESTORE_SETTLE,
        r.pending matches Some(p) ==> {
            &&& p.armed matches Some(a) ==> elapsed(now, a) <= RESTORE_GIVE_UP
            &&& p.window == Some(f.window) ==> {
                &&& p.tries < RESTORE_TRIES
                &&& now <= p.deadline->0
                &&& p.posted matches Some(t) ==> elapsed(now, t) >= RESEND_AFTER
            }
        },
    ensures
        r.observe_spec(now, Some(f), safe, true).1 == (Step::Post {
            window: f.window,
            thread: f.thread,
            layout: r.desktop->0,
        }),
{
}

} // verus!
