//! One round of guarding: what the guard decides from what it observed.
//!
//! The caller reads the windows, the layouts and the mod's files, hands the
//! readings over as an `Observation`, and carries out what the `TickOutcome`
//! asks for: writing the heartbeat, rescanning the installed layouts, and
//! sending layout-change requests.

use vstd::prelude::*;
use crate::exit::{ExitLatch, ExitSignal, exit_verdict, exit_verdict_spec};
use crate::layout::{Wanted, find_first, first_of, ime, is_ime_lang, pick_safe_layout, safe_layout};
use crate::restore::{
    Foreground,
    lemma_operations_keep_wf,
    MAX_TIME,
    RESEND_AFTER,
    Restorer,
    Step,
    duration_since,
    elapsed,
    lemma_nothing_owed_nothing_sent,
    RESTORE_GIVE_UP,
    RESTORE_SETTLE,
    RESTORE_TRIES,
};
use crate::status::Status;
use crate::takeover::Takeover;
use crate::text::{str_equals, trim, trims_to_char};

verus! {

/// How often the heartbeat file is rewritten.
pub const HEARTBEAT_EVERY: u64 = 2_000_000_000;

/// The window classes of shell overlays that are briefly the foreground: the
/// task switcher, task view, the switching animation and the start menu.
pub open spec fn transient_shell_class(class: Seq<char>) -> bool {
    ||| class == "XamlExplorerHostIslandWindow"@
    ||| class == "MultitaskingViewFrame"@
    ||| class == "TaskSwitcherWnd"@
    ||| class == "TaskSwitcherOverlayWnd"@
    ||| class == "ForegroundStaging"@
    ||| class == "Windows.UI.Core.CoreWindow"@
}

/// Whether a window of this class is a passing shell overlay, useless as a
/// restore target: only the class name is compared, anything else is a real window.
pub fn is_transient_shell(class: &str) -> (b: bool)
    ensures
        b == transient_shell_class(class@),
{
    str_equals(class, "XamlExplorerHostIslandWindow") || str_equals(class, "MultitaskingViewFrame")
        || str_equals(class, "TaskSwitcherWnd") || str_equals(class, "TaskSwitcherOverlayWnd")
        || str_equals(class, "ForegroundStaging") || str_equals(class, "Windows.UI.Core.CoreWindow")
}

/// The polling interval, in milliseconds; a change of the typing state file
/// wakes the loop earlier.
pub const TICK_MS: u64 = 100;

/// How long to wait before the next round: five ticks while there is no game
/// to guard and no restore in progress, one tick otherwise.
pub fn poll_interval_ms(status: Status, restoring: bool) -> (ms: u64)
    ensures
        ms == (if status == Status::NoGame && !restoring {
            5 * TICK_MS
        } else {
            TICK_MS as int
        }),
{
    if status == Status::NoGame && !restoring {
        5 * TICK_MS
    } else {
        TICK_MS
    }
}

/// The game window's title, as UTF-16 units.
pub open spec fn game_title() -> Seq<u16> {
    seq![
        0x50u16, 0x72u16, 0x6Fu16, 0x6Au16, 0x65u16, 0x63u16, 0x74u16, 0x20u16,
        0x5Au16, 0x6Fu16, 0x6Du16, 0x62u16, 0x6Fu16, 0x69u16, 0x64u16,
    ]
}

/// Whether a window title is the game's, "Project Zomboid", exactly.
pub fn is_game_title(title: &[u16]) -> (b: bool)
    ensures
        b == (title@ == game_title()),
{
    let expected: [u16; 15] = [
        0x50, 0x72, 0x6F, 0x6A, 0x65, 0x63, 0x74, 0x20, 0x5A, 0x6F, 0x6D, 0x62, 0x6F, 0x69, 0x64,
    ];
    assert(expected@ =~= game_title());
    if title.len() != 15 {
        return false;
    }
    let mut i: usize = 0;
    while i < 15
        invariant
            title@.len() == 15,
            expected@ == game_title(),
            i <= 15,
            forall|k: int| 0 <= k < i ==> title@[k] == expected@[k],
        decreases 15 - i,
    {
        if title[i] != expected[i] {
            return false;
        }
        i = i + 1;
    }
    assert(title@ =~= game_title());
    true
}

/// What the caller read this round.
pub struct Observation {
    /// Monotonic clock reading, in nanoseconds.
    pub now: u64,
    /// The game window, if there is one.
    pub game: Option<isize>,
    /// The foreground window; 0 when there is none.
    pub foreground: isize,
    /// The thread of the foreground window.
    pub foreground_thread: u32,
    /// The layout of the foreground window's thread.
    pub foreground_layout: usize,
    /// The class name of the foreground window.
    pub foreground_class: String,
    /// The layout of the game window's thread.
    pub game_layout: usize,
    /// The modification time of the exit file, if it could be read.
    pub exit_mtime: Option<i128>,
    /// The content of the exit file, if it could be read.
    pub exit_content: Option<String>,
    /// The content of the typing state file, if it could be read.
    pub typing_content: Option<String>,
}

/// What the caller has to do after a round.
#[derive(Clone, Copy, PartialEq, Eq, Debug)]
pub struct TickOutcome {
    pub status: Status,
    /// Write the heartbeat file now.
    pub heartbeat: bool,
    /// Re-read the installed layouts and hand them to `rescan_layouts`.
    pub rescan: bool,
    /// Ask the foreground window, if it is still the same, for the desktop layout.
    pub restore: Step,
    /// Ask the game window for this layout.
    pub switch: Option<usize>,
}

pub open spec fn text_view(o: Option<String>) -> Option<Seq<char>> {
    match o {
        Some(s) => Some(s@),
        None => None,
    }
}

/// The layout the game should use: the player's input method while typing (the
/// current layout if none was seen yet); otherwise the safe layout if the
/// current one is an input method, else the current one.
pub open spec fn wanted_layout(typing: bool, ime_seen: Option<usize>, current: usize, safe: usize) -> usize {
    if typing {
        match ime_seen {
            Some(i) => i,
            None => current,
        }
    } else if ime(current) {
        safe
    } else {
        current
    }
}

/// The guard's state between rounds.
#[derive(Clone, Copy, PartialEq, Eq, Debug)]
pub struct Guard {
    /// The layout to play with; none while no safe layout is installed.
    pub safe: Option<usize>,
    /// The player's input method: the last one seen on the game window.
    pub ime: Option<usize>,
    /// The mod reports that the player is typing.
    pub typing: bool,
    /// The last layout asked of the game window, and when.
    pub last_post: Option<(usize, u64)>,
    pub last_heartbeat: Option<u64>,
    /// The game was the foreground in the previous round.
    pub was_fg: bool,
    pub takeover: Takeover,
    pub restorer: Restorer,
    pub exit: ExitLatch,
    /// The newest modification time of the exit file already judged.
    pub exit_seen: i128,
}

impl Guard {
    pub open spec fn rescan_spec(self, layouts: Seq<usize>) -> Guard {
        Guard {
            safe: safe_layout(layouts),
            ime: if self.ime is None {
                first_of(layouts, Wanted::Ime)
            } else {
                self.ime
            },
            ..self
        }
    }

    pub open spec fn new_spec(started: i128, layouts: Seq<usize>) -> Guard {
        Guard {
            safe: None,
            ime: None,
            typing: false,
            last_post: None,
            last_heartbeat: None,
            was_fg: false,
            takeover: Takeover { requested: None },
            restorer: Restorer::spec_new(),
            exit: ExitLatch { window: None },
            exit_seen: started,
        }.rescan_spec(layouts)
    }

    pub open spec fn read_typing_spec(self, content: Option<Seq<char>>) -> Guard {
        match content {
            Some(c) => if trim(c) == seq!['1'] {
                Guard { typing: true, ..self }
            } else if trim(c) == seq!['0'] {
                Guard { typing: false, ..self }
            } else {
                self
            },
            None => self,
        }
    }

    pub open spec fn exit_signal_spec(self, mtime: Option<i128>, content: Option<Seq<char>>) -> (Guard, ExitSignal) {
        match mtime {
            None => (self, ExitSignal::Unchanged),
            Some(m) => {
                let (signal, seen) = exit_verdict_spec(content, m, self.exit_seen);
                (Guard { exit_seen: seen, ..self }, signal)
            },
        }
    }

    pub open spec fn heartbeat_spec(self, now: u64) -> (Guard, bool) {
        let due = match self.last_heartbeat {
            Some(t) => elapsed(now, t) >= HEARTBEAT_EVERY,
            None => true,
        };
        if due {
            (Guard { last_heartbeat: Some(now), ..self }, true)
        } else {
            (self, false)
        }
    }

    pub open spec fn disown_spec(self) -> Guard {
        Guard { takeover: Takeover { requested: None }, restorer: self.restorer.cancel_spec(), ..self }
    }

    pub open spec fn guard_tick_spec(self, window: isize, restore: bool, posted_safe: bool, is_safe: bool) -> Guard {
        let g0 = Guard { was_fg: true, restorer: self.restorer.in_game_spec(), ..self };
        if !restore {
            g0.disown_spec()
        } else {
            let t1 = if posted_safe {
                Takeover { requested: Some(window) }
            } else {
                g0.takeover
            };
            let (t2, confirmed) = t1.confirm_spec(window, is_safe);
            Guard {
                takeover: t2,
                restorer: if confirmed {
                    g0.restorer.took_over_spec()
                } else {
                    g0.restorer
                },
                ..g0
            }
        }
    }

    pub open spec fn away_tick_spec(
        self,
        now: u64,
        game: Option<(isize, bool)>,
        fg: Option<Foreground>,
        safe: usize,
        restore: bool,
    ) -> (Guard, Step) {
        let g0 = if !restore {
            self.disown_spec()
        } else {
            self
        };
        let g1 = Guard {
            was_fg: false,
            restorer: if g0.was_fg {
                g0.restorer.left_spec()
            } else {
                g0.restorer
            },
            ..g0
        };
        let g2 = match game {
            Some(gm) => {
                let (t, confirmed) = g1.takeover.confirm_spec(gm.0, gm.1);
                Guard {
                    takeover: t,
                    restorer: if confirmed {
                        g1.restorer.took_over_spec()
                    } else {
                        g1.restorer
                    },
                    ..g1
                }
            },
            None => Guard { takeover: Takeover { requested: None }, ..g1 },
        };
        let (r, step) = g2.restorer.observe_spec(now, fg, safe, restore);
        (Guard { restorer: r, ..g2 }, step)
    }

    /// The round while the game is the foreground: the next state and the layout
    /// to ask the game window for.
    pub open spec fn game_round_spec(self, obs: Observation, safe: usize, restore: bool) -> (Guard, Option<usize>) {
        let current = obs.foreground_layout;
        let g1 = if ime(current) {
            Guard { ime: Some(current), ..self }
        } else {
            self
        };
        let g2 = g1.read_typing_spec(text_view(obs.typing_content));
        let want = wanted_layout(g2.typing, g2.ime, current, safe);
        let recent = match g2.last_post {
            Some(lp) => lp.0 == want && elapsed(obs.now, lp.1) < RESEND_AFTER,
            None => false,
        };
        let send = current != want && !recent;
        let g3 = if send {
            Guard { last_post: Some((want, obs.now)), ..g2 }
        } else {
            g2
        };
        (
            g3.guard_tick_spec(obs.foreground, restore, send && want == safe, current == safe),
            if send {
                Some(want)
            } else {
                None
            },
        )
    }

    /// The read-back of the game window: whether a switch to the safe layout is
    /// awaiting confirmation there and the window now uses the safe layout.
    pub open spec fn game_read_back(self, obs: Observation, safe: usize) -> Option<(isize, bool)> {
        match obs.game {
            Some(pz) => Some((pz, self.takeover.requested == Some(pz) && obs.game_layout == safe)),
            None => None,
        }
    }

    /// The restore target: the foreground, unless there is none, it is the game
    /// itself, or a passing shell overlay.
    pub open spec fn restore_target(obs: Observation) -> Option<Foreground> {
        if obs.foreground != 0 && Some(obs.foreground) != obs.game && !transient_shell_class(
            obs.foreground_class@,
        ) {
            Some(
                Foreground {
                    window: obs.foreground,
                    thread: obs.foreground_thread,
                    layout: obs.foreground_layout,
                },
            )
        } else {
            None
        }
    }

    /// One round: the next state and what the caller has to do.
    pub open spec fn tick_spec(self, paused: bool, restore: bool, obs: Observation) -> (Guard, TickOutcome) {
        let (g0, hb) = self.heartbeat_spec(obs.now);
        if paused {
            (
                g0.disown_spec(),
                TickOutcome {
                    status: Status::Paused,
                    heartbeat: hb,
                    rescan: false,
                    restore: Step::Nothing,
                    switch: None,
                },
            )
        } else if g0.safe is None {
            (
                g0,
                TickOutcome {
                    status: Status::NoEnglish,
                    heartbeat: hb,
                    rescan: true,
                    restore: Step::Nothing,
                    switch: None,
                },
            )
        } else {
            let safe = g0.safe->0;
            let (g1, signal) = g0.exit_signal_spec(obs.exit_mtime, text_view(obs.exit_content));
            let (latch, quitting) = g1.exit.update_spec(obs.game, signal);
            let g2 = Guard { exit: latch, ..g1 };
            if quitting || obs.game != Some(obs.foreground) {
                let (g3, step) = g2.away_tick_spec(
                    obs.now,
                    g2.game_read_back(obs, safe),
                    Guard::restore_target(obs),
                    safe,
                    restore,
                );
                let status = if quitting {
                    Status::Closing
                } else if obs.game is Some {
                    Status::Background
                } else {
                    Status::NoGame
                };
                (
                    g3,
                    TickOutcome {
                        status,
                        heartbeat: hb,
                        rescan: false,
                        restore: step,
                        switch: None,
                    },
                )
            } else {
                let (g3, switch) = g2.game_round_spec(obs, safe, restore);
                (
                    g3,
                    TickOutcome {
                        status: if g3.typing {
                            Status::Typing
                        } else {
                            Status::Guarding
                        },
                        heartbeat: hb,
                        rescan: false,
                        restore: Step::Nothing,
                        switch,
                    },
                )
            }
        }
    }

    /// The invariant the guard keeps: that of its restorer.
    pub open spec fn wf(self) -> bool {
        self.restorer.wf()
    }

    /// A fresh guard: the exit watermark starts at the time the tool started,
    /// so an exit flag left by an earlier game never counts, and the installed
    /// layouts are scanned once.
    pub fn new(started: i128, layouts: &[usize]) -> (g: Guard)
        ensures
            g == Guard::new_spec(started, layouts@),
            g.wf(),
    {
        let mut g = Guard {
            safe: None,
            ime: None,
            typing: false,
            last_post: None,
            last_heartbeat: None,
            was_fg: false,
            takeover: Takeover::new(),
            restorer: Restorer::new(),
            exit: ExitLatch::new(),
            exit_seen: started,
        };
        g.rescan_layouts(layouts);
        g
    }

    /// Takes a new list of installed layouts: the safe layout is chosen again,
    /// and the first input method becomes the player's if none was seen yet.
    pub fn rescan_layouts(&mut self, layouts: &[usize])
        ensures
            *final(self) == old(self).rescan_spec(layouts@),
    {
        self.safe = pick_safe_layout(layouts);
        if self.ime.is_none() {
            self.ime = find_first(layouts, Wanted::Ime);
        }
    }

    /// Takes the content of the typing state file: "1" is typing, "0" is not,
    /// anything else (an empty file being rewritten, no mod) keeps the last state.
    pub fn read_typing(&mut self, content: Option<&str>)
        ensures
            *final(self) == old(self).read_typing_spec(crate::exit::content_view(content)),
    {
        match content {
            Some(c) => {
                if trims_to_char(c, '1') {
                    self.typing = true;
                } else if trims_to_char(c, '0') {
                    self.typing = false;
                }
            },
            None => {},
        }
    }

    /// Judges the exit file: only versions written after the watermark count.
    pub fn exit_signal(&mut self, mtime: Option<i128>, content: Option<&str>) -> (signal: ExitSignal)
        ensures
            (*final(self), signal) == old(self).exit_signal_spec(mtime, crate::exit::content_view(content)),
    {
        match mtime {
            None => ExitSignal::Unchanged,
            Some(m) => {
                let (signal, seen) = exit_verdict(content, m, self.exit_seen);
                self.exit_seen = seen;
                signal
            },
        }
    }

    /// Whether the heartbeat is due; when it is, it counts as written now.
    pub fn heartbeat(&mut self, now: u64) -> (due: bool)
        ensures
            (*final(self), due) == old(self).heartbeat_spec(now),
    {
        let due = match self.last_heartbeat {
            Some(t) => duration_since(now, t) >= HEARTBEAT_EVERY,
            None => true,
        };
        if due {
            self.last_heartbeat = Some(now);
        }
        due
    }

    /// Pausing, or turning restoring off: the obligation and the request it
    /// would come from are both dropped.
    pub fn disown(&mut self)
        ensures
            *final(self) == old(self).disown_spec(),
    {
        self.takeover.forget();
        self.restorer.cancel();
    }

    /// The bookkeeping of a round with the game in the foreground: `posted_safe`
    /// says a switch to the safe layout was sent this round, `is_safe` that the
    /// game window's layout read back is the safe one.
    pub fn guard_tick(&mut self, window: isize, restore: bool, posted_safe: bool, is_safe: bool)
        ensures
            *final(self) == old(self).guard_tick_spec(window, restore, posted_safe, is_safe),
    {
        self.was_fg = true;
        self.restorer.in_game();
        if !restore {
            self.disown();
            return;
        }
        if posted_safe {
            self.takeover.requested(window);
        }
        if self.takeover.confirm(window, is_safe) {
            self.restorer.took_over();
        }
    }

    /// A round with the game not in the foreground. `game` is the game window
    /// and whether its layout read back as the safe one; a switch sent just
    /// before leaving is confirmed here.
    pub fn away_tick(
        &mut self,
        now: u64,
        game: Option<(isize, bool)>,
        fg: Option<Foreground>,
        safe: usize,
        restore: bool,
    ) -> (step: Step)
        requires
            now <= MAX_TIME,
        ensures
            (*final(self), step) == old(self).away_tick_spec(now, game, fg, safe, restore),
    {
        if !restore {
            self.disown();
        }
        let was_fg = self.was_fg;
        self.was_fg = false;
        if was_fg {
            self.restorer.left();
        }
        match game {
            Some(gm) => {
                if self.takeover.confirm(gm.0, gm.1) {
                    self.restorer.took_over();
                }
            },
            None => self.takeover.forget(),
        }
        self.restorer.observe(now, fg, safe, restore)
    }

    fn game_round(&mut self, obs: &Observation, safe: usize, restore: bool) -> (switch: Option<usize>)
        ensures
            (*final(self), switch) == old(self).game_round_spec(*obs, safe, restore),
    {
        let current = obs.foreground_layout;
        if is_ime_lang(current) {
            self.ime = Some(current);
        }
        match &obs.typing_content {
            Some(s) => self.read_typing(Some(s.as_str())),
            None => self.read_typing(None),
        }
        let want = if self.typing {
            match self.ime {
                Some(i) => i,
                None => current,
            }
        } else if is_ime_lang(current) {
            safe
        } else {
            current
        };
        let recent = match self.last_post {
            Some(lp) => lp.0 == want && duration_since(obs.now, lp.1) < RESEND_AFTER,
            None => false,
        };
        let send = current != want && !recent;
        if send {
            self.last_post = Some((want, obs.now));
        }
        self.guard_tick(obs.foreground, restore, send && want == safe, current == safe);
        if send {
            Some(want)
        } else {
            None
        }
    }

    /// One round of guarding, given whether the guard is paused, whether
    /// restoring the desktop is enabled, and what was observed.
    pub fn tick(&mut self, paused: bool, restore: bool, obs: &Observation) -> (out: TickOutcome)
        requires
            obs.now <= MAX_TIME,
        ensures
            (*final(self), out) == old(self).tick_spec(paused, restore, *obs),
    {
        let hb = self.heartbeat(obs.now);
        if paused {
            self.disown();
            return TickOutcome {
                status: Status::Paused,
                heartbeat: hb,
                rescan: false,
                restore: Step::Nothing,
                switch: None,
            };
        }
        let safe = match self.safe {
            None => {
                return TickOutcome {
                    status: Status::NoEnglish,
                    heartbeat: hb,
                    rescan: true,
                    restore: Step::Nothing,
                    switch: None,
                };
            },
            Some(s) => s,
        };
        let signal = match &obs.exit_content {
            Some(s) => self.exit_signal(obs.exit_mtime, Some(s.as_str())),
            None => self.exit_signal(obs.exit_mtime, None),
        };
        let quitting = self.exit.update(obs.game, signal);
        if quitting || obs.game != Some(obs.foreground) {
            let game = match obs.game {
                Some(pz) => Some((pz, self.takeover.pending_for(pz) && obs.game_layout == safe)),
                None => None,
            };
            let target = if obs.foreground != 0 && Some(obs.foreground) != obs.game
                && !is_transient_shell(obs.foreground_class.as_str()) {
                Some(
                    Foreground {
                        window: obs.foreground,
                        thread: obs.foreground_thread,
                        layout: obs.foreground_layout,
                    },
                )
            } else {
                None
            };
            let step = self.away_tick(obs.now, game, target, safe, restore);
            let status = if quitting {
                Status::Closing
            } else if obs.game.is_some() {
                Status::Background
            } else {
                Status::NoGame
            };
            return TickOutcome { status, heartbeat: hb, rescan: false, restore: step, switch: None };
        }
        let switch = self.game_round(obs, safe, restore);
        TickOutcome {
            status: if self.typing {
                Status::Typing
            } else {
                Status::Guarding
            },
            heartbeat: hb,
            rescan: false,
            restore: Step::Nothing,
            switch,
        }
    }

    /// Whether a restore is still in progress; the caller keeps polling fast then.
    pub fn restoring(&self) -> (b: bool)
        ensures
            b == (self.restorer.pending is Some),
    {
        self.restorer.pending.is_some()
    }
}

/// Every round keeps the guard's invariant.
pub proof fn lemma_tick_keeps_wf(g: Guard, paused: bool, restore: bool, obs: Observation)
    requires
        g.wf(),
    ensures
        g.tick_spec(paused, restore, obs).0.wf(),
{
    let (g0, hb) = g.heartbeat_spec(obs.now);
    lemma_operations_keep_wf(g0.restorer, obs.now, None, 0, false, true);
    if !paused && g0.safe is Some {
        let safe = g0.safe->0;
        let (g1, signal) = g0.exit_signal_spec(obs.exit_mtime, text_view(obs.exit_content));
        let (latch, quitting) = g1.exit.update_spec(obs.game, signal);
        let g2 = Guard { exit: latch, ..g1 };
        if quitting || obs.game != Some(obs.foreground) {
            lemma_away_tick_keeps_wf(g2, obs.now, g2.game_read_back(obs, safe), Guard::restore_target(obs), safe, restore);
        } else {
            let (g3, switch) = g2.game_round_spec(obs, safe, restore);
        }
    }
}

/// A round away from the game keeps the guard's invariant.
pub proof fn lemma_away_tick_keeps_wf(
    g: Guard,
    now: u64,
    game: Option<(isize, bool)>,
    fg: Option<Foreground>,
    safe: usize,
    restore: bool,
)
    requires
        g.wf(),
    ensures
        g.away_tick_spec(now, game, fg, safe, restore).0.wf(),
{
    let g0 = if !restore {
        g.disown_spec()
    } else {
        g
    };
    lemma_operations_keep_wf(g.restorer, now, fg, safe, restore, true);
    lemma_operations_keep_wf(g0.restorer, now, fg, safe, restore, true);
    let r1 = if g0.was_fg {
        g0.restorer.left_spec()
    } else {
        g0.restorer
    };
    lemma_operations_keep_wf(r1, now, fg, safe, restore, true);
    lemma_operations_keep_wf(r1.took_over_spec(), now, fg, safe, restore, true);
}

/// While paused the guard sends nothing, and the obligation to restore is
/// dropped together with the request it would come from.
pub proof fn lemma_pause_drops_everything(g: Guard, restore: bool, obs: Observation)
    ensures
        ({
            let (g2, out) = g.tick_spec(true, restore, obs);
            &&& out.status == Status::Paused
            &&& out.restore == Step::Nothing
            &&& out.switch is None
            &&& !g2.restorer.owed
            &&& g2.restorer.pending is None
            &&& g2.takeover.requested is None
        }),
{
}

/// With no safe layout installed the guard sends nothing and asks for the
/// installed layouts to be read again.
pub proof fn lemma_no_safe_layout_sends_nothing(g: Guard, restore: bool, obs: Observation)
    requires
        g.safe is None,
    ensures
        ({
            let (g2, out) = g.tick_spec(false, restore, obs);
            &&& out.status == Status::NoEnglish
            &&& out.rescan
            &&& out.restore == Step::Nothing
            &&& out.switch is None
        }),
{
}

/// With restoring turned off no restore request is ever sent, and once a
/// round has run with a safe layout nothing is owed and no request awaits
/// its read-back.
pub proof fn lemma_restore_off_never_restores(g: Guard, paused: bool, obs: Observation)
    ensures
        g.tick_spec(paused, false, obs).1.restore == Step::Nothing,
        g.safe is Some || paused ==> !g.tick_spec(paused, false, obs).0.restorer.owed
            && g.tick_spec(paused, false, obs).0.takeover.requested is None,
{
}

/// A restore request goes only to a real foreground window: not none, not the
/// game, not a passing shell overlay, with its own thread, while it still uses
/// the safe layout, asking for the desktop layout recorded before; and only
/// while the game is not being played.
pub proof fn lemma_restore_goes_to_the_foreground(g: Guard, paused: bool, restore: bool, obs: Observation)
    requires
        g.wf(),
        obs.now <= MAX_TIME,
        g.tick_spec(paused, restore, obs).1.restore is Post,
    ensures
        ({
            let (g2, out) = g.tick_spec(paused, restore, obs);
            &&& out.restore == Step::Post {
                window: obs.foreground,
                thread: obs.foreground_thread,
                layout: g.restorer.desktop->0,
            }
            &&& obs.foreground != 0
            &&& Some(obs.foreground) != obs.game
            &&& !transient_shell_class(obs.foreground_class@)
            &&& g.safe is Some && obs.foreground_layout == g.safe->0
            &&& !paused && restore
            &&& out.switch is None
            &&& (out.status == Status::Background || out.status == Status::NoGame || out.status
                == Status::Closing)
        }),
{
    let (g0, hb) = g.heartbeat_spec(obs.now);
    let safe = g0.safe->0;
    let (g1, signal) = g0.exit_signal_spec(obs.exit_mtime, text_view(obs.exit_content));
    let (latch, quitting) = g1.exit.update_spec(obs.game, signal);
    let g2 = Guard { exit: latch, ..g1 };
    let game = g2.game_read_back(obs, safe);
    let fg = Guard::restore_target(obs);
    let g3 = if !restore {
        g2.disown_spec()
    } else {
        g2
    };
    let g4 = Guard {
        was_fg: false,
        restorer: if g3.was_fg {
            g3.restorer.left_spec()
        } else {
            g3.restorer
        },
        ..g3
    };
    lemma_operations_keep_wf(g.restorer, obs.now, fg, safe, restore, true);
    lemma_operations_keep_wf(g4.restorer, obs.now, fg, safe, restore, true);
    lemma_operations_keep_wf(g4.restorer.took_over_spec(), obs.now, fg, safe, restore, true);
    let g5 = match game {
        Some(gm) => {
            let (t, confirmed) = g4.takeover.confirm_spec(gm.0, gm.1);
            Guard {
                takeover: t,
                restorer: if confirmed {
                    g4.restorer.took_over_spec()
                } else {
                    g4.restorer
                },
                ..g4
            }
        },
        None => Guard { takeover: Takeover { requested: None }, ..g4 },
    };
    crate::restore::lemma_request_targets_a_settled_foreground(
        g5.restorer,
        obs.now,
        fg,
        safe,
        restore,
    );
}

/// While the game is played, a request to the game window asks for a layout
/// other than its current one; when the player is not typing it is always the
/// safe layout, and only ever away from an input method.
pub proof fn lemma_switch_only_away_from_an_ime(g: Guard, paused: bool, restore: bool, obs: Observation)
    requires
        g.tick_spec(paused, restore, obs).1.switch is Some,
    ensures
        ({
            let (g2, out) = g.tick_spec(paused, restore, obs);
            let w = out.switch->0;
            &&& !paused && g.safe is Some
            &&& obs.game == Some(obs.foreground)
            &&& w != obs.foreground_layout
            &&& out.restore == Step::Nothing
            &&& (out.status == Status::Guarding || out.status == Status::Typing)
            &&& out.status == Status::Guarding ==> w == g.safe->0 && ime(obs.foreground_layout)
            &&& g2.last_post == Some((w, obs.now))
        }),
{
}

/// The obligation to restore arises only from a confirmed read-back: a round
/// that starts owing had a switch to the safe layout awaiting confirmation on
/// the game window, restoring enabled, and read the safe layout back there.
pub proof fn lemma_obligation_needs_a_confirmed_switch(g: Guard, paused: bool, restore: bool, obs: Observation)
    requires
        g.wf(),
        !g.restorer.owed,
        g.tick_spec(paused, restore, obs).0.restorer.owed,
    ensures
        !paused && restore && g.safe is Some,
        obs.game is Some,
        g.takeover.requested == obs.game,
        (obs.game == Some(obs.foreground) && obs.foreground_layout == g.safe->0) || obs.game_layout
            == g.safe->0,
{
}

/// Once dropped, an obligation is not resurrected by an old request: with
/// nothing owed and no request awaiting its read-back, a round away from the
/// game sends nothing and owes nothing afterwards.
pub proof fn lemma_dropped_obligation_stays_dropped(
    g: Guard,
    now: u64,
    game: Option<(isize, bool)>,
    fg: Option<Foreground>,
    safe: usize,
    restore: bool,
)
    requires
        g.wf(),
        !g.restorer.owed,
        g.takeover.requested is None,
    ensures
        g.away_tick_spec(now, game, fg, safe, restore).1 == Step::Nothing,
        !g.away_tick_spec(now, game, fg, safe, restore).0.restorer.owed,
        g.away_tick_spec(now, game, fg, safe, restore).0.takeover.requested is None,
{
    let g0 = if !restore {
        g.disown_spec()
    } else {
        g
    };
    lemma_operations_keep_wf(g.restorer, now, fg, safe, restore, true);
    let r1 = if g0.was_fg {
        g0.restorer.left_spec()
    } else {
        g0.restorer
    };
    lemma_operations_keep_wf(g0.restorer, now, fg, safe, restore, true);
    lemma_nothing_owed_nothing_sent(r1, now, fg, safe, restore);
}

/// Pausing and then leaving the game never restores from the request made
/// before the pause.
pub proof fn lemma_pause_then_leave_never_restores(
    g: Guard,
    now: u64,
    game: Option<(isize, bool)>,
    fg: Option<Foreground>,
    safe: usize,
    restore: bool,
)
    requires
        g.wf(),
    ensures
        g.disown_spec().away_tick_spec(now, game, fg, safe, restore).1 == Step::Nothing,
        !g.disown_spec().away_tick_spec(now, game, fg, safe, restore).0.restorer.owed,
{
    lemma_operations_keep_wf(g.restorer, now, fg, safe, restore, true);
    lemma_dropped_obligation_stays_dropped(g.disown_spec(), now, game, fg, safe, restore);
}

/// The heartbeat is written every two seconds: once written at `t1`, it is
/// due again exactly when two seconds have passed since.
pub proof fn lemma_heartbeat_every_two_seconds(g: Guard, t1: u64, t2: u64)
    requires
        g.heartbeat_spec(t1).1,
    ensures
        g.heartbeat_spec(t1).0.heartbeat_spec(t2).1 <==> elapsed(t2, t1) >= HEARTBEAT_EVERY,
{
}

/// While the player types in the game, a request to the game window asks for
/// the player's input method; and an input method seen on the game window
/// becomes the player's.
pub proof fn lemma_typing_asks_for_the_players_ime(g: Guard, paused: bool, restore: bool, obs: Observation)
    requires
        !paused,
        g.safe is Some,
        obs.game == Some(obs.foreground),
        g.tick_spec(paused, restore, obs).1.status != Status::Closing,
    ensures
        ({
            let (g2, out) = g.tick_spec(paused, restore, obs);
            &&& ime(obs.foreground_layout) ==> g2.ime == Some(obs.foreground_layout)
            &&& out.status == Status::Typing && out.switch is Some ==> g2.ime == out.switch
        }),
{
}

/// The exit watermark never goes back over a round.
pub proof fn lemma_exit_watermark_never_goes_back(g: Guard, paused: bool, restore: bool, obs: Observation)
    ensures
        g.tick_spec(paused, restore, obs).0.exit_seen >= g.exit_seen,
{
    let (g0, hb) = g.heartbeat_spec(obs.now);
    match obs.exit_mtime {
        Some(m) => crate::exit::lemma_watermark_moves_only_forward(text_view(obs.exit_content), m, g0.exit_seen),
        None => {},
    }
}

/// Playing keeps the obligation: a round with the game in the foreground and
/// restoring enabled never turns an owing guard into one that owes nothing,
/// however long the player stays in the game.
pub proof fn lemma_playing_keeps_the_obligation(g: Guard, obs: Observation)
    requires
        g.restorer.owed,
        g.safe is Some,
        obs.game == Some(obs.foreground),
        g.tick_spec(false, true, obs).1.status != Status::Closing,
    ensures
        g.tick_spec(false, true, obs).0.restorer.owed,
        g.tick_spec(false, true, obs).0.restorer.desktop == g.restorer.desktop,
{
    crate::restore::lemma_in_game_keeps_the_obligation(g.restorer);
}

/// The typing file means what the mod writes: "1" padded by any white space
/// is typing, "0" is not, and a file of white space only (the mod truncating
/// before it writes) or no file keeps the last state.
pub proof fn lemma_typing_file_meaning(g: Guard, w1: Seq<char>, w2: Seq<char>)
    requires
        crate::text::all_white(w1),
        crate::text::all_white(w2),
    ensures
        g.read_typing_spec(Some(w1 + seq!['1'] + w2)).typing,
        !g.read_typing_spec(Some(w1 + seq!['0'] + w2)).typing,
        g.read_typing_spec(Some(w1 + w2)) == g,
        g.read_typing_spec(None) == g,
{
    crate::text::lemma_trim_removes_only_padding(w1, seq!['1'], w2);
    crate::text::lemma_trim_removes_only_padding(w1, seq!['0'], w2);
    crate::exit::lemma_exit_values_mean_what_they_say(w1, w2, 1, 0);
}

/// A request to the game window that has not taken effect is repeated only
/// after `RESEND_AFTER`: when a round asks for `w` and the next round finds the
/// game still in front on the same layout with the same typing file, that round
/// asks again, for `w`, exactly when `RESEND_AFTER` has passed since the first.
pub proof fn lemma_unanswered_request_is_repeated_after_the_pause(
    g: Guard,
    restore: bool,
    obs1: Observation,
    obs2: Observation,
)
    requires
        g.tick_spec(false, restore, obs1).1.switch is Some,
        obs2.game == obs1.game,
        obs2.foreground == obs1.foreground,
        obs2.foreground_layout == obs1.foreground_layout,
        obs2.typing_content == obs1.typing_content,
        g.tick_spec(false, restore, obs1).0.tick_spec(false, restore, obs2).1.status != Status::Closing,
    ensures
        ({
            let (g1, o1) = g.tick_spec(false, restore, obs1);
            let o2 = g1.tick_spec(false, restore, obs2).1;
            o2.switch == if elapsed(obs2.now, obs1.now) < RESEND_AFTER {
                None::<usize>
            } else {
                o1.switch
            }
        }),
{
}

/// The status names the situation of the round: no game window is "no game";
/// "closing" exactly while this game window is latched as quitting; otherwise
/// the game behind another window is "in background", and the game in front is
/// "typing" or "guarding" as the mod last reported.
pub proof fn lemma_status_names_the_situation(g: Guard, restore: bool, obs: Observation)
    requires
        g.safe is Some,
    ensures
        ({
            let (g2, out) = g.tick_spec(false, restore, obs);
            &&& obs.game is None ==> out.status == Status::NoGame
            &&& out.status == Status::Closing <==> (g2.exit.window is Some && g2.exit.window == obs.game)
            &&& out.status != Status::Closing && obs.game is Some && obs.game != Some(obs.foreground)
                ==> out.status == Status::Background
            &&& out.status != Status::Closing && obs.game == Some(obs.foreground) ==> out.status == (
            if g2.typing {
                Status::Typing
            } else {
                Status::Guarding
            })
        }),
{
}

/// Rescanning the installed layouts chooses the safe layout again and touches
/// nothing else but the player's input method: once known it is kept, and
/// when none was known the one taken is an installed input method.
pub proof fn lemma_rescan_keeps_the_players_ime(g: Guard, layouts: Seq<usize>)
    ensures
        ({
            let g2 = g.rescan_spec(layouts);
            &&& g2.safe == safe_layout(layouts)
            &&& g.ime is Some ==> g2.ime == g.ime
            &&& g.ime is None && g2.ime is Some ==> ime(g2.ime->0) && layouts.contains(g2.ime->0)
            &&& Guard { safe: g.safe, ime: g.ime, ..g2 } == g
        }),
{
    crate::layout::lemma_first_of_is_the_earliest(layouts, Wanted::Ime);
}

/// Leaving the game after a confirmed switch gives the desktop its layout
/// back: once the player is away owing a restore, a round in which the same
/// real foreground window has stayed in front for the settle time on the safe
/// layout sends it the recorded desktop layout, within the limits of
/// `lemma_due_restore_is_sent`.
pub proof fn lemma_left_game_gets_its_desktop_back(g: Guard, obs: Observation, t0: u64)
    requires
        g.wf(),
        obs.now <= MAX_TIME,
        g.safe is Some,
        !g.was_fg,
        g.restorer.away && g.restorer.owed && !g.restorer.done,
        g.restorer.desktop is Some,
        obs.game != Some(obs.foreground),
        obs.foreground != 0,
        !transient_shell_class(obs.foreground_class@),
        obs.foreground_layout == g.safe->0,
        g.restorer.seen == Some((obs.foreground, t0)),
        elapsed(obs.now, t0) >= RESTORE_SETTLE,
        g.restorer.pending matches Some(p) ==> {
            &&& p.armed matches Some(a) ==> elapsed(obs.now, a) <= RESTORE_GIVE_UP
            &&& p.window == Some(obs.foreground) ==> {
                &&& p.tries < RESTORE_TRIES
                &&& obs.now <= p.deadline->0
                &&& p.posted matches Some(t) ==> elapsed(obs.now, t) >= RESEND_AFTER
            }
        },
    ensures
        g.tick_spec(false, true, obs).1.restore == (Step::Post {
            window: obs.foreground,
            thread: obs.foreground_thread,
            layout: g.restorer.desktop->0,
        }),
{
    let (g0, hb) = g.heartbeat_spec(obs.now);
    let safe = g0.safe->0;
    let (g1, signal) = g0.exit_signal_spec(obs.exit_mtime, text_view(obs.exit_content));
    let (latch, quitting) = g1.exit.update_spec(obs.game, signal);
    let g2 = Guard { exit: latch, ..g1 };
    let fg = Guard::restore_target(obs);
    let game = g2.game_read_back(obs, safe);
    let g5 = match game {
        Some(gm) => {
            let (t, confirmed) = g2.takeover.confirm_spec(gm.0, gm.1);
            Guard {
                takeover: t,
                restorer: if confirmed {
                    g2.restorer.took_over_spec()
                } else {
                    g2.restorer
                },
                was_fg: false,
                ..g2
            }
        },
        None => Guard { takeover: Takeover { requested: None }, was_fg: false, ..g2 },
    };
    crate::restore::lemma_due_restore_is_sent(g5.restorer, obs.now, fg->0, safe, t0);
}

} // verus!
