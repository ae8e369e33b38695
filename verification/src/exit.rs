//! The exit signal the game mod writes, and the latch that holds it for one game window.
//!
//! File times are nanoseconds relative to the Unix epoch; only their order matters.

use vstd::prelude::*;
use crate::text::{trim, trims_to_char};

verus! {

/// How one reading of the exit file is judged.
#[derive(Clone, Copy, PartialEq, Eq, Debug, Structural)]
pub enum ExitSignal {
    /// No new trustworthy version: keep things as they are.
    Unchanged,
    /// "1": the player confirmed quitting to the desktop.
    Quitting,
    /// "0": the mod just booted or went back to the menu; this game is clean.
    Reset,
}

/// The verdict on one reading: the signal and the new watermark. Only a
/// version newer than the watermark and holding a complete valid value counts,
/// and only such a version moves the watermark.
pub open spec fn exit_verdict_spec(content: Option<Seq<char>>, mtime: i128, seen: i128) -> (ExitSignal, i128) {
    if mtime <= seen {
        (ExitSignal::Unchanged, seen)
    } else {
        match content {
            Some(c) => if trim(c) == seq!['1'] {
                (ExitSignal::Quitting, mtime)
            } else if trim(c) == seq!['0'] {
                (ExitSignal::Reset, mtime)
            } else {
                (ExitSignal::Unchanged, seen)
            },
            None => (ExitSignal::Unchanged, seen),
        }
    }
}

pub open spec fn content_view(content: Option<&str>) -> Option<Seq<char>> {
    match content {
        Some(c) => Some(c@),
        None => None,
    }
}

/// Judges the exit file read with modification time `mtime`, given the
/// watermark `seen`. An empty or unreadable file never moves the watermark:
/// the mod truncates before writing, and taking that instant as "seen" would
/// lose the signal.
pub fn exit_verdict(content: Option<&str>, mtime: i128, seen: i128) -> (r: (ExitSignal, i128))
    ensures
        r == exit_verdict_spec(content_view(content), mtime, seen),
{
    if mtime <= seen {
        return (ExitSignal::Unchanged, seen);
    }
    match content {
        Some(c) => {
            if trims_to_char(c, '1') {
                (ExitSignal::Quitting, mtime)
            } else if trims_to_char(c, '0') {
                (ExitSignal::Reset, mtime)
            } else {
                (ExitSignal::Unchanged, seen)
            }
        },
        None => (ExitSignal::Unchanged, seen),
    }
}

/// The watermark never goes back, moves only to the time of the reading, and
/// moves exactly when a signal is recognised.
pub proof fn lemma_watermark_moves_only_forward(content: Option<Seq<char>>, mtime: i128, seen: i128)
    ensures
        exit_verdict_spec(content, mtime, seen).1 >= seen,
        exit_verdict_spec(content, mtime, seen).1 == seen || exit_verdict_spec(content, mtime, seen).1
            == mtime,
        (exit_verdict_spec(content, mtime, seen).1 != seen) <==> (exit_verdict_spec(content, mtime, seen).0
            != ExitSignal::Unchanged),
        mtime <= seen ==> exit_verdict_spec(content, mtime, seen) == (ExitSignal::Unchanged, seen),
{
}

/// A version is recognised once: judging again with the new watermark yields nothing.
pub proof fn lemma_a_version_counts_once(content: Option<Seq<char>>, mtime: i128, seen: i128)
    ensures
        exit_verdict_spec(content, mtime, exit_verdict_spec(content, mtime, seen).1).0 == ExitSignal::Unchanged
            || exit_verdict_spec(content, mtime, seen).0 == ExitSignal::Unchanged,
{
}

/// The exit latch: the game window that is quitting, if any.
#[derive(Clone, Copy, PartialEq, Eq, Debug)]
pub struct ExitLatch {
    pub window: Option<isize>,
}

impl ExitLatch {
    pub open spec fn update_spec(self, game: Option<isize>, signal: ExitSignal) -> (ExitLatch, bool) {
        let w0 = if self.window is Some && self.window != game {
            None
        } else {
            self.window
        };
        let w1 = match signal {
            ExitSignal::Quitting => game,
            ExitSignal::Reset => None,
            ExitSignal::Unchanged => w0,
        };
        (ExitLatch { window: w1 }, w1 is Some && w1 == game)
    }

    /// A latch holding nothing.
    pub fn new() -> (l: ExitLatch)
        ensures
            l.window is None,
    {
        ExitLatch { window: None }
    }

    /// Feeds the current game window and this round's signal; returns whether
    /// this game window is quitting. Once latched it stays so until the window
    /// disappears, another game window takes its place, or a Reset arrives.
    pub fn update(&mut self, game: Option<isize>, signal: ExitSignal) -> (quitting: bool)
        ensures
            (*final(self), quitting) == old(self).update_spec(game, signal),
    {
        if self.window.is_some() && self.window != game {
            self.window = None;
        }
        match signal {
            ExitSignal::Quitting => self.window = game,
            ExitSignal::Reset => self.window = None,
            ExitSignal::Unchanged => {},
        }
        self.window.is_some() && self.window == game
    }
}

impl Default for ExitLatch {
    /// A latch holding nothing.
    fn default() -> (l: ExitLatch)
        ensures
            l.window is None,
    {
        ExitLatch::new()
    }
}

/// The latch never leaks into another game: it answers "quitting" only for
/// the window the signal arrived with, never without a game window, never
/// after a Reset, and it is released once the window is gone or replaced.
pub proof fn lemma_latch_is_bound_to_its_window(l: ExitLatch, game: Option<isize>, signal: ExitSignal)
    ensures
        l.update_spec(game, signal).1 ==> game is Some,
        l.update_spec(game, signal).1 ==> (signal == ExitSignal::Quitting || l.window == game),
        signal == ExitSignal::Reset ==> !l.update_spec(game, signal).1 && l.update_spec(game, signal).0.window is None,
        signal == ExitSignal::Quitting && game is Some ==> l.update_spec(game, signal).1,
        signal == ExitSignal::Unchanged && l.window != game ==> !l.update_spec(game, signal).1
            && l.update_spec(game, signal).0.window is None,
        signal == ExitSignal::Unchanged && l.window is Some && l.window == game ==> l.update_spec(game, signal).1,
{
}

/// The exit file means what the mod writes: a new version holding "1" padded
/// by any white space says the player is quitting, "0" says a fresh game began,
/// and either moves the watermark to that version.
pub proof fn lemma_exit_values_mean_what_they_say(w1: Seq<char>, w2: Seq<char>, mtime: i128, seen: i128)
    requires
        crate::text::all_white(w1),
        crate::text::all_white(w2),
        mtime > seen,
    ensures
        exit_verdict_spec(Some(w1 + seq!['1'] + w2), mtime, seen) == (ExitSignal::Quitting, mtime),
        exit_verdict_spec(Some(w1 + seq!['0'] + w2), mtime, seen) == (ExitSignal::Reset, mtime),
        exit_verdict_spec(Some(w1 + w2), mtime, seen) == (ExitSignal::Unchanged, seen),
{
    crate::text::lemma_trim_removes_only_padding(w1, seq!['1'], w2);
    crate::text::lemma_trim_removes_only_padding(w1, seq!['0'], w2);
    lemma_white_trims_to_nothing(w1 + w2);
}

proof fn lemma_white_trims_to_nothing(w: Seq<char>)
    requires
        crate::text::all_white(w),
    ensures
        trim(w).len() == 0,
    decreases w.len(),
{
    if w.len() > 0 {
        lemma_white_trims_to_nothing(w.drop_first());
        assert(crate::text::trim_start(w) == crate::text::trim_start(w.drop_first()));
    }
}

} // verus!
