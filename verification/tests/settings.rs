use pz_ime_guard::settings::{setting, settings_text, KEY_CHECK_UPDATES, KEY_RESTORE_DESKTOP};

#[test]
fn a_missing_file_or_line_means_on() {
    assert!(setting(None, KEY_CHECK_UPDATES));
    assert!(setting(Some(""), KEY_RESTORE_DESKTOP));
    assert!(setting(Some("check_updates=0\n"), KEY_RESTORE_DESKTOP));
    assert!(!setting(Some("check_updates=0\n"), KEY_CHECK_UPDATES));
    assert!(setting(Some("check_updates=1\n"), KEY_CHECK_UPDATES));
}

#[test]
fn saved_settings_read_back_the_same() {
    for a in [false, true] {
        for b in [false, true] {
            let text = settings_text(a, b);
            assert_eq!(setting(Some(&text), KEY_CHECK_UPDATES), a);
            assert_eq!(setting(Some(&text), KEY_RESTORE_DESKTOP), b);
        }
    }
    assert_eq!(settings_text(true, false), "check_updates=1\nrestore_desktop=0\n");
}
