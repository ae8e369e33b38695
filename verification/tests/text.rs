use pz_ime_guard::paths::{clean_path, compare_path_text};
use pz_ime_guard::text::{chars_of, decimal_text, is_white_space, replace_all, str_equals, trims_to_char};

#[test]
fn trimming_follows_unicode_white_space() {
    assert!(trims_to_char("1", '1'));
    assert!(trims_to_char(" \t1\r\n", '1'));
    assert!(trims_to_char("\u{3000}0\u{00A0}", '0'));
    assert!(!trims_to_char("", '1'));
    assert!(!trims_to_char("11", '1'));
    assert!(!trims_to_char("1 1", '1'));
    assert!(!trims_to_char("\u{200B}1", '1'), "a zero-width space is not white space");
    for c in ['\t', '\n', '\u{0B}', '\u{0C}', '\r', ' ', '\u{85}', '\u{A0}', '\u{1680}', '\u{2000}', '\u{200A}', '\u{2028}', '\u{2029}', '\u{202F}', '\u{205F}', '\u{3000}'] {
        assert_eq!(is_white_space(c), c.is_whitespace(), "{c:?}");
        assert!(is_white_space(c));
    }
    for c in ['a', '0', '\u{200B}', '\u{FEFF}', '\u{1F}'] {
        assert_eq!(is_white_space(c), c.is_whitespace(), "{c:?}");
    }
}

#[test]
fn replacing_matches_str_replace() {
    for (s, from, to) in [
        ("Could not change:\n\n{error}", "{error}", "access denied"),
        ("{tag} is available (you have {current}).", "{tag}", "v42.20.4-0.2.0"),
        ("aaaa", "aa", "b"),
        ("abc", "", "-"),
        ("", "", "x"),
        ("no key here", "{error}", "x"),
        ("{error}{error}", "{error}", ""),
    ] {
        assert_eq!(replace_all(s, from, to), s.replace(from, to), "{s:?} {from:?} {to:?}");
    }
}

#[test]
fn numbers_are_written_in_decimal() {
    assert_eq!(decimal_text(0), "0");
    assert_eq!(decimal_text(7), "7");
    assert_eq!(decimal_text(1_700_000_000), "1700000000");
    assert_eq!(decimal_text(u64::MAX), u64::MAX.to_string());
}

#[test]
fn strings_compare_by_their_characters() {
    assert!(str_equals("Zomboid", "Zomboid"));
    assert!(!str_equals("Zomboid", "zomboid"));
    assert!(!str_equals("Zomboid", "Zomboid "));
    assert_eq!(chars_of("ü-1"), vec!['ü', '-', '1']);
}

#[test]
fn path_text_ignores_case_slashes_quotes_and_padding() {
    assert_eq!(compare_path_text("C:\\Games\\a.exe", "c:/games/A.EXE"), Some(true));
    assert_eq!(compare_path_text("  \"C:\\Games\\a.exe\" ", "C:\\Games\\a.exe"), Some(true));
    assert_eq!(compare_path_text("", "C:\\a.exe"), Some(false));
    assert_eq!(compare_path_text("\"\"", ""), Some(false));
    assert_eq!(compare_path_text("C:\\GAMES~1\\a.exe", "C:\\Games\\a.exe"), None);
    // only ASCII letters are folded
    assert_eq!(compare_path_text("C:\\Ü.exe", "c:\\ü.exe"), None);
    assert_eq!(clean_path(" \"C:\\x y\\a.exe\"\" "), "C:\\x y\\a.exe");
}
