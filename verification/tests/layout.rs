use pz_ime_guard::layout::{is_ime_lang, lang, pick_safe_layout};

fn layout_handle(v: usize) -> usize {
    v
}

#[test]
fn ime_languages_are_ime_everything_else_is_safe() {
    for v in [0x0404_0404, 0xE020_0404, 0x0804_0804, 0xE001_0411, 0x0412_0412, 0x042A_042A, 0x0439_0439] {
        assert!(is_ime_lang(layout_handle(v)), "{v:#x} should be IME");
    }
    for v in [0x0409_0409, 0x0809_0809, 0x0C09_0C09, 0x0407_0407, 0x0419_0419, 0x041E_041E] {
        assert!(!is_ime_lang(layout_handle(v)), "{v:#x} should be safe (Thai is a plain layout)");
    }
}

#[test]
fn safe_layout_prefers_en_us_then_any_english_then_any_non_ime() {
    let us = layout_handle(0x0409_0409);
    let gb = layout_handle(0x0809_0809);
    let de = layout_handle(0x0407_0407);
    let tw = layout_handle(0x0404_0404);
    assert_eq!(pick_safe_layout(&[tw, gb, us]), Some(us));
    assert_eq!(pick_safe_layout(&[tw, de, gb]), Some(gb));
    assert_eq!(pick_safe_layout(&[tw, de]), Some(de));
    assert_eq!(pick_safe_layout(&[tw, layout_handle(0xE001_0411)]), None);
}

#[test]
fn lang_is_the_low_word_of_the_handle() {
    assert_eq!(lang(0xE020_0404), 0x0404);
    assert_eq!(lang(0x0809_0809), 0x0809);
    assert_eq!(lang(0x0000_0000), 0);
}

#[test]
fn every_listed_ime_primary_language_counts_as_ime() {
    for p in [0x04usize, 0x11, 0x12, 0x2A, 0x39, 0x45, 0x46, 0x47, 0x48, 0x49, 0x4A, 0x4B, 0x4C, 0x4E, 0x5C, 0x5E, 0x73] {
        assert!(is_ime_lang(0x0400 | p), "{p:#x}");
    }
    // the sublanguage bits above the primary language do not matter
    assert!(is_ime_lang(0x7C04));
    assert!(!is_ime_lang(0x7C09));
}

#[test]
fn no_layouts_means_no_safe_layout() {
    assert_eq!(pick_safe_layout(&[]), None);
    // the first of several US English layouts wins
    assert_eq!(pick_safe_layout(&[0xF000_0409, 0x0409_0409]), Some(0xF000_0409));
}
