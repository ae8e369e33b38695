use pz_ime_guard::guard::{is_game_title, is_transient_shell, poll_interval_ms, Guard, Observation};
use pz_ime_guard::restore::{Step, RESTORE_SETTLE};
use pz_ime_guard::status::Status;

const US: usize = 0x0409_0409;
const BOPOMOFO: usize = 0x0404_0404;
const GAME: isize = 42;
const BROWSER: isize = 7;
const SECOND: u64 = 1_000_000_000;

fn millis(n: u64) -> u64 {
    n * 1_000_000
}

fn seen(now: u64, game: Option<isize>, foreground: isize, layout: usize) -> Observation {
    Observation {
        now,
        game,
        foreground,
        foreground_thread: 1000 + foreground as u32,
        foreground_layout: layout,
        foreground_class: String::from("Chrome_WidgetWin_1"),
        game_layout: layout,
        exit_mtime: None,
        exit_content: None,
        typing_content: None,
    }
}

#[test]
fn pausing_reports_paused_and_sends_nothing() {
    let mut g = Guard::new(0, &[BOPOMOFO, US]);
    let out = g.tick(true, true, &seen(SECOND, Some(GAME), GAME, BOPOMOFO));
    assert_eq!(out.status, Status::Paused);
    assert!(out.heartbeat);
    assert_eq!(out.restore, Step::Nothing);
    assert_eq!(out.switch, None);
}

#[test]
fn the_heartbeat_is_due_every_two_seconds() {
    let mut g = Guard::new(0, &[US]);
    assert!(g.tick(true, true, &seen(10 * SECOND, None, 0, US)).heartbeat);
    assert!(!g.tick(true, true, &seen(11 * SECOND, None, 0, US)).heartbeat);
    assert!(g.tick(true, true, &seen(12 * SECOND, None, 0, US)).heartbeat);
}

#[test]
fn without_a_safe_layout_the_guard_asks_for_a_rescan() {
    let mut g = Guard::new(0, &[BOPOMOFO]);
    assert_eq!(g.safe, None);
    assert_eq!(g.ime, Some(BOPOMOFO));
    let out = g.tick(false, true, &seen(SECOND, Some(GAME), GAME, BOPOMOFO));
    assert_eq!(out.status, Status::NoEnglish);
    assert!(out.rescan);
    assert_eq!(out.switch, None);
    g.rescan_layouts(&[BOPOMOFO, US]);
    assert_eq!(g.safe, Some(US));
}

#[test]
fn in_game_an_ime_is_switched_to_the_safe_layout_and_resent_only_after_a_while() {
    let mut g = Guard::new(0, &[BOPOMOFO, US]);
    let out = g.tick(false, true, &seen(SECOND, Some(GAME), GAME, BOPOMOFO));
    assert_eq!(out.status, Status::Guarding);
    assert_eq!(out.switch, Some(US));
    // not accepted yet, same target: no resend within half a second
    assert_eq!(g.tick(false, true, &seen(SECOND + millis(100), Some(GAME), GAME, BOPOMOFO)).switch, None);
    assert_eq!(g.tick(false, true, &seen(SECOND + millis(600), Some(GAME), GAME, BOPOMOFO)).switch, Some(US));
    // read back: the game now uses the safe layout, the takeover is confirmed
    let out = g.tick(false, true, &seen(SECOND + millis(700), Some(GAME), GAME, US));
    assert_eq!(out.switch, None);
    assert!(g.restorer.owed);
}

#[test]
fn typing_brings_the_players_ime_back() {
    let mut g = Guard::new(0, &[BOPOMOFO, US]);
    let mut o = seen(SECOND, Some(GAME), GAME, US);
    o.typing_content = Some(String::from("1\r\n"));
    let out = g.tick(false, true, &o);
    assert_eq!(out.status, Status::Typing);
    assert_eq!(out.switch, Some(BOPOMOFO));
    // an empty file while the mod rewrites it keeps the state
    let mut o = seen(SECOND + millis(100), Some(GAME), GAME, BOPOMOFO);
    o.typing_content = Some(String::new());
    let out = g.tick(false, true, &o);
    assert_eq!(out.status, Status::Typing);
    assert_eq!(out.switch, None);
    let mut o = seen(SECOND + millis(200), Some(GAME), GAME, BOPOMOFO);
    o.typing_content = Some(String::from(" 0 "));
    let out = g.tick(false, true, &o);
    assert_eq!(out.status, Status::Guarding);
    assert_eq!(out.switch, Some(US));
}

#[test]
fn a_plain_layout_is_left_alone_in_game() {
    let de = 0x0407_0407;
    let mut g = Guard::new(0, &[de, US]);
    let out = g.tick(false, true, &seen(SECOND, Some(GAME), GAME, de));
    assert_eq!(out.status, Status::Guarding);
    assert_eq!(out.switch, None);
}

#[test]
fn leaving_the_game_restores_the_desktop_layout_end_to_end() {
    let t = 5 * SECOND;
    let mut g = Guard::new(0, &[BOPOMOFO, US]);
    // the desktop used the IME before the game came to the front
    assert_eq!(g.tick(false, true, &seen(t, None, BROWSER, BOPOMOFO)).status, Status::NoGame);
    g.tick(false, true, &seen(t + RESTORE_SETTLE, None, BROWSER, BOPOMOFO));
    assert_eq!(g.restorer.desktop, Some(BOPOMOFO));
    // in the game: switched and confirmed
    assert_eq!(g.tick(false, true, &seen(t + millis(400), Some(GAME), GAME, BOPOMOFO)).switch, Some(US));
    g.tick(false, true, &seen(t + millis(500), Some(GAME), GAME, US));
    assert!(g.restorer.owed);
    // alt-tab to the browser, which now has the safe layout
    let mut away = seen(t + millis(600), Some(GAME), BROWSER, US);
    away.game_layout = US;
    let out = g.tick(false, true, &away);
    assert_eq!(out.status, Status::Background);
    assert_eq!(out.restore, Step::Nothing);
    let mut away = seen(t + millis(1000), Some(GAME), BROWSER, US);
    away.game_layout = US;
    let out = g.tick(false, true, &away);
    assert_eq!(out.restore, Step::Post { window: BROWSER, thread: 1000 + BROWSER as u32, layout: BOPOMOFO });
    assert!(g.restoring());
}

#[test]
fn restoring_turned_off_never_restores() {
    let t = 5 * SECOND;
    let mut g = Guard::new(0, &[BOPOMOFO, US]);
    g.tick(false, false, &seen(t, None, BROWSER, BOPOMOFO));
    g.tick(false, false, &seen(t + RESTORE_SETTLE, None, BROWSER, BOPOMOFO));
    g.tick(false, false, &seen(t + millis(400), Some(GAME), GAME, BOPOMOFO));
    g.tick(false, false, &seen(t + millis(500), Some(GAME), GAME, US));
    assert!(!g.restorer.owed);
    g.tick(false, false, &seen(t + millis(600), Some(GAME), BROWSER, US));
    assert_eq!(g.tick(false, false, &seen(t + millis(1000), Some(GAME), BROWSER, US)).restore, Step::Nothing);
}

#[test]
fn a_confirmed_quit_stops_guarding_the_game_window() {
    let mut g = Guard::new(10, &[BOPOMOFO, US]);
    let mut o = seen(SECOND, Some(GAME), GAME, BOPOMOFO);
    o.exit_mtime = Some(20);
    o.exit_content = Some(String::from("1"));
    let out = g.tick(false, true, &o);
    assert_eq!(out.status, Status::Closing);
    assert_eq!(out.switch, None);
    assert_eq!(g.exit_seen, 20);
    // still latched on the next round, with the same file
    let mut o = seen(SECOND + millis(100), Some(GAME), GAME, BOPOMOFO);
    o.exit_mtime = Some(20);
    o.exit_content = Some(String::from("1"));
    assert_eq!(g.tick(false, true, &o).status, Status::Closing);
    // a flag older than the tool is ignored
    let mut fresh = Guard::new(30, &[BOPOMOFO, US]);
    let mut o = seen(SECOND, Some(GAME), GAME, BOPOMOFO);
    o.exit_mtime = Some(20);
    o.exit_content = Some(String::from("1"));
    assert_eq!(fresh.tick(false, true, &o).status, Status::Guarding);
}

#[test]
fn a_shell_overlay_in_front_is_no_restore_target() {
    let t = 5 * SECOND;
    let mut g = Guard::new(0, &[BOPOMOFO, US]);
    g.tick(false, true, &seen(t, None, BROWSER, BOPOMOFO));
    g.tick(false, true, &seen(t + RESTORE_SETTLE, None, BROWSER, BOPOMOFO));
    g.tick(false, true, &seen(t + millis(400), Some(GAME), GAME, BOPOMOFO));
    g.tick(false, true, &seen(t + millis(500), Some(GAME), GAME, US));
    for k in 0..10u64 {
        let mut o = seen(t + millis(600 + 100 * k), Some(GAME), 99, US);
        o.foreground_class = String::from("XamlExplorerHostIslandWindow");
        assert_eq!(g.tick(false, true, &o).restore, Step::Nothing);
    }
    assert!(g.restorer.owed);
}

#[test]
fn polling_slows_down_only_with_nothing_to_do() {
    assert_eq!(poll_interval_ms(Status::NoGame, false), 500);
    assert_eq!(poll_interval_ms(Status::NoGame, true), 100);
    assert_eq!(poll_interval_ms(Status::Guarding, false), 100);
    assert_eq!(poll_interval_ms(Status::Background, false), 100);
}

#[test]
fn only_the_exact_title_is_the_game() {
    let title: Vec<u16> = "Project Zomboid".encode_utf16().collect();
    assert!(is_game_title(&title));
    let other: Vec<u16> = "Project Zomboid Launcher".encode_utf16().collect();
    assert!(!is_game_title(&other));
    let lower: Vec<u16> = "project zomboid".encode_utf16().collect();
    assert!(!is_game_title(&lower));
    assert!(!is_game_title(&[]));
}

#[test]
fn shell_overlays_are_recognised_by_class_name() {
    for class in [
        "XamlExplorerHostIslandWindow",
        "MultitaskingViewFrame",
        "TaskSwitcherWnd",
        "TaskSwitcherOverlayWnd",
        "ForegroundStaging",
        "Windows.UI.Core.CoreWindow",
    ] {
        assert!(is_transient_shell(class), "{class}");
    }
    assert!(!is_transient_shell("Notepad"));
    assert!(!is_transient_shell("TaskSwitcherWnd "));
    assert!(!is_transient_shell(""));
}
