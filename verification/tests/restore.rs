use pz_ime_guard::exit::{exit_verdict, ExitLatch, ExitSignal};
use pz_ime_guard::guard::Guard;
use pz_ime_guard::restore::{Foreground, Restorer, Step, RESTORE_SETTLE, RESTORE_TRIES};
use pz_ime_guard::takeover::Takeover;

const SAFE: usize = 0x0409_0409; // en-US
const IME: usize = 0x0404_0404; // Traditional Chinese, Bopomofo
const DE: usize = 0x0407_0407; // a third layout the player picked himself
const PZ: isize = 77;

fn hkl(v: usize) -> usize {
    v
}
fn th(window: isize) -> u32 {
    1000 + window as u32
}
fn fg(window: isize, layout: usize) -> Option<Foreground> {
    Some(Foreground { window, thread: th(window), layout: hkl(layout) })
}
fn post(window: isize, layout: usize) -> Step {
    Step::Post { window, thread: th(window), layout: hkl(layout) }
}
/// Milliseconds on the monotonic clock, which counts nanoseconds.
fn ms(n: u64) -> u64 {
    n * 1_000_000
}
/// A reading of the monotonic clock.
fn clock_now() -> u64 {
    7_000_000_000
}

/// The desktop used an IME, the game was switched to en-US by us, then the player left.
fn armed(t: u64) -> Restorer {
    let mut r = Restorer::default();
    r.observe(t, fg(1, IME), hkl(SAFE), true);
    r.observe(t + RESTORE_SETTLE, fg(1, IME), hkl(SAFE), true);
    assert_eq!(r.desktop, Some(hkl(IME)));
    r.took_over();
    r.left();
    r
}

#[test]
fn restore_waits_for_a_settled_foreground_then_confirms_by_read_back() {
    let t = clock_now();
    let mut r = armed(t);
    assert_eq!(r.observe(t + ms(400), None, hkl(SAFE), true), Step::Nothing);
    assert_eq!(r.observe(t + ms(500), fg(9, SAFE), hkl(SAFE), true), Step::Nothing);
    assert_eq!(r.observe(t + ms(600), fg(7, SAFE), hkl(SAFE), true), Step::Nothing);
    assert_eq!(r.observe(t + ms(601), fg(7, SAFE), hkl(SAFE), true), Step::Nothing);
    assert_eq!(r.observe(t + ms(700), fg(7, SAFE), hkl(SAFE), true), Step::Nothing);
    assert_eq!(r.observe(t + ms(900), fg(7, SAFE), hkl(SAFE), true), post(7, IME));
    assert_eq!(r.observe(t + ms(1000), fg(7, IME), hkl(SAFE), true), Step::Nothing);
    assert!(r.pending.is_none() && !r.owed);
    assert_eq!(r.observe(t + ms(1400), fg(7, SAFE), hkl(SAFE), true), Step::Nothing);
}

#[test]
fn restore_retries_a_bounded_number_of_times_then_gives_up() {
    let t = clock_now();
    let mut r = armed(t);
    let mut posts = 0;
    for step in 0..=40u64 {
        if r.observe(t + ms(600 + step * 100), fg(7, SAFE), hkl(SAFE), true) != Step::Nothing {
            posts += 1;
        }
    }
    assert_eq!(posts, RESTORE_TRIES, "a request is not an acceptance: resending is bounded");
    assert!(r.pending.is_none());
}

#[test]
fn a_long_close_wait_does_not_burn_the_give_up_budget() {
    let t = clock_now();
    let mut r = armed(t);
    for step in 1..=60u64 {
        assert_eq!(r.observe(t + ms(step * 1000), None, hkl(SAFE), true), Step::Nothing);
    }
    r.observe(t + ms(61_000), fg(7, SAFE), hkl(SAFE), true);
    assert_eq!(r.observe(t + ms(61_400), fg(7, SAFE), hkl(SAFE), true), post(7, IME));
}

#[test]
fn restore_window_starts_at_the_settled_foreground_not_at_leaving() {
    let t = clock_now();
    let mut r = armed(t);
    r.observe(t + ms(1900), fg(7, SAFE), hkl(SAFE), true);
    assert_eq!(r.observe(t + ms(2300), fg(7, SAFE), hkl(SAFE), true), post(7, IME));
    assert_eq!(r.observe(t + ms(4500), fg(7, SAFE), hkl(SAFE), true), Step::Nothing);
    assert!(r.pending.is_none());
}

#[test]
fn unstable_foreground_forever_eventually_gives_up() {
    let t = clock_now();
    let mut r = armed(t);
    for step in 1..=20u64 {
        assert_eq!(r.observe(t + ms(step * 1000), fg(step as isize, SAFE), hkl(SAFE), true), Step::Nothing);
    }
    assert!(r.pending.is_none(), "a foreground that keeps changing is given up on");
}

#[test]
fn pausing_drops_the_obligation_so_leaving_later_never_fires_a_late_restore() {
    let t = clock_now();
    let mut r = armed(t);
    r.cancel();
    assert!(!r.owed, "cancelling drops the obligation itself, not only this pending restore");
    r.left();
    r.observe(t + ms(400), fg(7, SAFE), hkl(SAFE), true);
    assert_eq!(r.observe(t + ms(800), fg(7, SAFE), hkl(SAFE), true), Step::Nothing);
    assert!(r.pending.is_none(), "no re-arming after cancelling");
}

#[test]
fn turning_the_option_off_mid_flight_drops_it_and_going_back_into_the_game_too() {
    let t = clock_now();
    let mut r = armed(t);
    r.observe(t + ms(400), fg(7, SAFE), hkl(SAFE), false);
    assert_eq!(r.observe(t + ms(800), fg(7, SAFE), hkl(SAFE), true), Step::Nothing);
    let mut r = armed(t);
    r.in_game();
    r.observe(t + ms(400), fg(7, SAFE), hkl(SAFE), true);
    assert_eq!(r.observe(t + ms(800), fg(7, SAFE), hkl(SAFE), true), Step::Nothing);
}

#[test]
fn no_takeover_means_no_restore() {
    let t = clock_now();
    let mut r = Restorer::default();
    r.observe(t, fg(1, IME), hkl(SAFE), true);
    r.observe(t + RESTORE_SETTLE, fg(1, IME), hkl(SAFE), true);
    r.left();
    r.observe(t + ms(400), fg(7, SAFE), hkl(SAFE), true);
    assert_eq!(r.observe(t + ms(800), fg(7, SAFE), hkl(SAFE), true), Step::Nothing);
    assert!(r.pending.is_none(), "never switched, nothing owed: the desktop is left alone");
}

#[test]
fn a_layout_the_player_picked_himself_wins_over_our_intent() {
    let t = clock_now();
    let mut r = armed(t);
    r.observe(t + ms(400), fg(7, DE), hkl(SAFE), true);
    assert_eq!(r.observe(t + ms(800), fg(7, DE), hkl(SAFE), true), Step::Nothing);
    assert!(r.pending.is_none() && !r.owed);
    assert_eq!(r.desktop, Some(hkl(DE)), "the next restore target is the one he chose");
}

#[test]
fn a_read_back_that_lands_after_leaving_still_arms_the_restore() {
    let t = clock_now();
    let mut r = Restorer::default();
    r.observe(t, fg(1, IME), hkl(SAFE), true);
    r.observe(t + RESTORE_SETTLE, fg(1, IME), hkl(SAFE), true);
    r.left();
    r.observe(t + ms(400), fg(7, SAFE), hkl(SAFE), true);
    r.took_over();
    r.observe(t + ms(500), fg(7, SAFE), hkl(SAFE), true);
    assert_eq!(r.observe(t + ms(800), fg(7, SAFE), hkl(SAFE), true), post(7, IME));
}

#[test]
fn an_empty_or_unreadable_exit_file_never_advances_the_watermark() {
    let t0: i128 = 0;
    let t1: i128 = t0 + 1_000_000_000;
    let t2: i128 = t0 + 2_000_000_000;
    assert_eq!(exit_verdict(Some(""), t1, t0), (ExitSignal::Unchanged, t0));
    assert_eq!(exit_verdict(None, t1, t0), (ExitSignal::Unchanged, t0));
    assert_eq!(exit_verdict(Some("1\n"), t1, t0), (ExitSignal::Quitting, t1));
    assert_eq!(exit_verdict(Some("0"), t2, t0), (ExitSignal::Reset, t2));
    assert_eq!(exit_verdict(Some("1"), t1, t2), (ExitSignal::Unchanged, t2));
}

#[test]
fn exit_latch_holds_for_the_window_that_quit_and_never_leaks_into_the_next_game() {
    let mut latch = ExitLatch::default();
    assert!(!latch.update(Some(5), ExitSignal::Unchanged));
    assert!(latch.update(Some(5), ExitSignal::Quitting), "latched as soon as the signal arrives");
    assert!(latch.update(Some(5), ExitSignal::Unchanged), "the window saving and closing is still quitting");
    assert!(!latch.update(None, ExitSignal::Unchanged), "the window is gone: released");
    assert!(!latch.update(Some(7), ExitSignal::Unchanged), "the next game is clean");
    let mut stale = ExitLatch::default();
    assert!(!stale.update(None, ExitSignal::Quitting));
    assert!(!stale.update(Some(3), ExitSignal::Unchanged));
}

#[test]
fn a_stale_quit_flag_latched_onto_a_fresh_game_is_released_by_the_next_boot_reset() {
    let mut latch = ExitLatch::default();
    assert!(latch.update(Some(9), ExitSignal::Quitting), "the old 1 read when unpausing");
    assert!(latch.update(Some(9), ExitSignal::Unchanged));
    assert!(!latch.update(Some(9), ExitSignal::Reset), "the boot's 0 releases it");
    assert!(!latch.update(Some(9), ExitSignal::Unchanged), "and it does not slide back into closing");
    assert!(latch.update(Some(9), ExitSignal::Quitting));
    assert!(latch.update(Some(9), ExitSignal::Unchanged));
    assert!(!latch.update(None, ExitSignal::Unchanged));
}

#[test]
fn a_takeover_is_consumed_on_confirmation_and_dropped_on_pause() {
    let mut t = Takeover::default();
    t.requested(5);
    assert!(!t.confirm(5, false), "a request is not an acceptance");
    assert!(!t.confirm(9, true), "another window does not count");
    assert!(t.confirm(5, true));
    assert!(!t.confirm(5, true), "a confirmation is consumed");
    t.requested(5);
    t.forget();
    assert!(!t.confirm(5, true), "a dropped request never becomes an obligation");
}

/// The desktop used an IME, then the player entered the game, which we
/// switched to en-US and confirmed by reading back.
fn in_game(t: u64, safe: usize) -> Guard {
    let mut g = Guard::new(0, &[]);
    g.away_tick(t, None, fg(1, IME), safe, true);
    g.away_tick(t + RESTORE_SETTLE, None, fg(1, IME), safe, true);
    assert_eq!(g.restorer.desktop, Some(hkl(IME)));
    g.guard_tick(PZ, true, true, false);
    g.guard_tick(PZ, true, false, true);
    assert!(g.restorer.owed);
    g
}

#[test]
fn the_normal_alt_tab_path_restores_end_to_end() {
    let t = clock_now();
    let safe = hkl(SAFE);
    let mut g = in_game(t, safe);
    g.away_tick(t + ms(400), Some((PZ, false)), fg(7, SAFE), safe, true);
    assert_eq!(g.away_tick(t + ms(800), Some((PZ, false)), fg(7, SAFE), safe, true), post(7, IME));
}

#[test]
fn pausing_then_leaving_never_resurrects_the_obligation_from_an_old_request() {
    let t = clock_now();
    let safe = hkl(SAFE);
    let mut g = in_game(t, safe);
    g.disown();
    assert!(!g.restorer.owed);
    assert_eq!(g.away_tick(t + ms(400), Some((PZ, true)), fg(7, SAFE), safe, true), Step::Nothing);
    assert_eq!(g.away_tick(t + ms(800), Some((PZ, true)), fg(7, SAFE), safe, true), Step::Nothing);
    assert!(!g.restorer.owed, "an obligation dropped by pausing is not revived by an old request");
}

#[test]
fn turning_restore_off_and_on_again_does_not_pick_up_the_old_obligation() {
    let t = clock_now();
    let safe = hkl(SAFE);
    let mut g = in_game(t, safe);
    g.guard_tick(PZ, false, false, true);
    assert!(!g.restorer.owed);
    g.away_tick(t + ms(400), Some((PZ, true)), fg(7, SAFE), safe, true);
    assert_eq!(g.away_tick(t + ms(800), Some((PZ, true)), fg(7, SAFE), safe, true), Step::Nothing);
}

#[test]
fn a_read_back_that_only_lands_after_alt_tab_still_restores() {
    let t = clock_now();
    let safe = hkl(SAFE);
    let mut g = Guard::new(0, &[]);
    g.away_tick(t, None, fg(1, IME), safe, true);
    g.away_tick(t + RESTORE_SETTLE, None, fg(1, IME), safe, true);
    g.guard_tick(PZ, true, true, false);
    g.away_tick(t + ms(400), Some((PZ, true)), fg(7, SAFE), safe, true);
    assert!(g.restorer.owed);
    assert_eq!(g.away_tick(t + ms(800), Some((PZ, false)), fg(7, SAFE), safe, true), post(7, IME));
}

#[test]
fn an_exit_version_counts_once() {
    let (signal, seen) = exit_verdict(Some("1"), 5, 0);
    assert_eq!(signal, ExitSignal::Quitting);
    assert_eq!(exit_verdict(Some("1"), 5, seen), (ExitSignal::Unchanged, 5));
    // a newer version of the file counts again
    assert_eq!(exit_verdict(Some("0"), 6, seen), (ExitSignal::Reset, 6));
}

#[test]
fn the_desktop_target_is_never_the_safe_layout() {
    let t = clock_now();
    let mut r = Restorer::default();
    r.observe(t, fg(1, SAFE), hkl(SAFE), true);
    r.observe(t + RESTORE_SETTLE, fg(1, SAFE), hkl(SAFE), true);
    assert_eq!(r.desktop, None, "a desktop already on the safe layout is no target");
    r.took_over();
    r.left();
    r.observe(t + ms(400), fg(7, SAFE), hkl(SAFE), true);
    assert_eq!(r.observe(t + ms(800), fg(7, SAFE), hkl(SAFE), true), Step::Nothing);
    assert!(r.pending.is_none() && r.owed, "no target: given up, the obligation stays for next time");
}
