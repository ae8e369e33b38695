use pz_ime_guard::update::{defer_to_running, release_tag, tag_version, update_offer};

const BODY: &str = "{\"url\":\"x\",\"tag_name\":\"v42.20.4-0.2.0\",\"name\":\"0.2.0\"}";

#[test]
fn the_release_tag_is_read_from_the_description() {
    assert_eq!(release_tag(BODY).as_deref(), Some("v42.20.4-0.2.0"));
    assert_eq!(release_tag("{\"message\":\"Not Found\"}"), None);
    assert_eq!(release_tag(""), None);
    // no closing quote: the rest of the text
    assert_eq!(release_tag("\"tag_name\":\"v1-2").as_deref(), Some("v1-2"));
    // the first key counts
    assert_eq!(release_tag("\"tag_name\":\"a\",\"tag_name\":\"b\"").as_deref(), Some("a"));
}

#[test]
fn the_version_is_the_last_part_of_the_tag() {
    assert_eq!(tag_version("v42.20.4-0.2.0"), "0.2.0");
    assert_eq!(tag_version("0.2.0"), "0.2.0");
    assert_eq!(tag_version("a-b-"), "");
}

#[test]
fn only_a_newer_release_is_offered() {
    assert_eq!(update_offer(BODY, "0.1.1").as_deref(), Some("v42.20.4-0.2.0"));
    assert_eq!(update_offer(BODY, "0.2.0"), None);
    assert_eq!(update_offer(BODY, "0.10.0"), None);
    assert_eq!(update_offer("offline", "0.0.0"), None);
}

#[test]
fn an_older_running_copy_is_asked_to_quit() {
    assert!(defer_to_running(true, "0.1.1\n", "0.1.1"), "same version: this copy leaves");
    assert!(defer_to_running(true, "0.2.0", "0.1.1"), "newer running: this copy leaves");
    assert!(!defer_to_running(true, " 0.1.0 ", "0.1.1"), "older running: take over");
    assert!(!defer_to_running(false, "0.2.0", "0.1.1"), "no quit request: it is an old copy");
    assert!(defer_to_running(true, "", "0"), "an empty record counts as version 0");
}
