//! The settings file: one `key=0` or `key=1` per line; a missing file or a
//! missing line means on. Saving rewrites the whole file with both keys.

use vstd::prelude::*;
use vstd::string::*;
use crate::text::chars_of;

verus! {

/// The key of "check for updates".
pub const KEY_CHECK_UPDATES: &'static str = "check_updates";

/// The key of "restore my layout when leaving the game".
pub const KEY_RESTORE_DESKTOP: &'static str = "restore_desktop";

/// `t` occurs in `s` starting at `i`.
pub open spec fn occurs_at(s: Seq<char>, t: Seq<char>, i: int) -> bool {
    0 <= i && i + t.len() <= s.len() && s.subrange(i, i + t.len()) == t
}

/// `t` occurs somewhere in `s`, as `str::contains` says.
pub open spec fn contains_text(s: Seq<char>, t: Seq<char>) -> bool {
    exists|i: int| occurs_at(s, t, i)
}

/// Whether `key` is on: only an explicit `key=0` turns it off.
pub open spec fn setting_spec(content: Option<Seq<char>>, key: Seq<char>) -> bool {
    match content {
        None => true,
        Some(c) => !contains_text(c, key + "=0"@),
    }
}

/// Whether `t` occurs in `s` at `i`.
pub(crate) fn matches_at(s: &Vec<char>, t: &Vec<char>, i: usize) -> (b: bool)
    requires
        i + t@.len() <= s@.len(),
    ensures
        b == occurs_at(s@, t@, i as int),
{
    let mut j: usize = 0;
    while j < t.len()
        invariant
            i + t.len() <= s.len(),
            j <= t@.len(),
            forall|m: int| 0 <= m < j ==> s@[i + m] == t@[m],
        decreases t@.len() - j,
    {
        assert(i + j < s.len());
        if s[i + j] != t[j] {
            assert(s@.subrange(i as int, i + t@.len())[j as int] != t@[j as int]);
            return false;
        }
        j = j + 1;
    }
    assert(s@.subrange(i as int, i + t@.len()) =~= t@);
    true
}

/// Whether `t` occurs in `s`.
pub fn contains(s: &Vec<char>, t: &Vec<char>) -> (b: bool)
    ensures
        b == contains_text(s@, t@),
{
    if t.len() > s.len() {
        assert forall|i: int| !occurs_at(s@, t@, i) by {}
        return false;
    }
    if t.len() == 0 {
        assert(s@.subrange(0, 0) =~= t@);
        assert(occurs_at(s@, t@, 0));
        return true;
    }
    let mut i: usize = 0;
    while i <= s.len() - t.len()
        invariant
            1 <= t@.len() <= s@.len(),
            i <= s@.len() - t@.len() + 1,
            forall|k: int| 0 <= k < i ==> !occurs_at(s@, t@, k),
        decreases s@.len() - i,
    {
        if matches_at(s, t, i) {
            return true;
        }
        i = i + 1;
    }
    assert forall|k: int| !occurs_at(s@, t@, k) by {
        if 0 <= k < i {
        }
    }
    false
}

/// Whether the setting `key` is on, given the settings file as read.
pub fn setting(content: Option<&str>, key: &str) -> (on: bool)
    ensures
        on == setting_spec(crate::exit::content_view(content), key@),
{
    match content {
        None => true,
        Some(c) => {
            let text = chars_of(c);
            let mut pattern = chars_of(key);
            pattern.push('=');
            pattern.push('0');
            proof {
                reveal_strlit("=0");
                assert(pattern@ =~= key@ + "=0"@);
            }
            !contains(&text, &pattern)
        },
    }
}

/// The digit a flag is saved as.
pub open spec fn flag_text(on: bool) -> Seq<char> {
    if on {
        "1"@
    } else {
        "0"@
    }
}

/// The whole settings file for both flags.
pub open spec fn settings_body(check_updates: bool, restore_desktop: bool) -> Seq<char> {
    "check_updates="@ + flag_text(check_updates) + "\nrestore_desktop="@ + flag_text(restore_desktop) + "\n"@
}

/// The settings file to save.
pub fn settings_text(check_updates: bool, restore_desktop: bool) -> (s: String)
    ensures
        s@ == settings_body(check_updates, restore_desktop),
{
    let mut s = String::from_str("check_updates=");
    s.append(if check_updates { "1" } else { "0" });
    s.append("\nrestore_desktop=");
    s.append(if restore_desktop { "1" } else { "0" });
    s.append("\n");
    s
}

/// What is saved is what is read back: each flag written into the settings
/// file is the flag the file gives for its key.
pub proof fn lemma_settings_read_back_what_was_saved(check_updates: bool, restore_desktop: bool)
    ensures
        setting_spec(Some(settings_body(check_updates, restore_desktop)), KEY_CHECK_UPDATES@) == check_updates,
        setting_spec(Some(settings_body(check_updates, restore_desktop)), KEY_RESTORE_DESKTOP@)
            == restore_desktop,
{
    reveal_strlit("check_updates=");
    reveal_strlit("\nrestore_desktop=");
    reveal_strlit("\n");
    reveal_strlit("1");
    reveal_strlit("0");
    reveal_strlit("=0");
    reveal_strlit("check_updates");
    reveal_strlit("restore_desktop");
    let s = settings_body(check_updates, restore_desktop);
    let p = KEY_CHECK_UPDATES@ + "=0"@;
    let q = KEY_RESTORE_DESKTOP@ + "=0"@;
    assert(s.len() == 34);
    assert(p.len() == 15);
    assert(q.len() == 17);
    assert(s[13] == '=' && s[31] == '=');
    assert forall|k: int| 0 <= k < 34 && s[k] == '=' implies k == 13 || k == 31 by {}
    if check_updates {
        assert forall|i: int| !occurs_at(s, p, i) by {
            if occurs_at(s, p, i) {
                assert(s.subrange(i, i + 15)[13] == p[13]);
                assert(s.subrange(i, i + 15)[0] == p[0]);
                assert(s.subrange(i, i + 15)[14] == p[14]);
            }
        }
    } else {
        assert(s.subrange(0, 15) =~= p);
        assert(occurs_at(s, p, 0));
    }
    if restore_desktop {
        assert forall|i: int| !occurs_at(s, q, i) by {
            if occurs_at(s, q, i) {
                assert(s.subrange(i, i + 17)[15] == q[15]);
                assert(s.subrange(i, i + 17)[0] == q[0]);
                assert(s.subrange(i, i + 17)[16] == q[16]);
            }
        }
    } else {
        assert(s.subrange(16, 33) =~= q);
        assert(occurs_at(s, q, 16));
    }
}

/// A flag is on unless the file turns it off: with no settings file, or an
/// empty one, every flag is on.
pub proof fn lemma_flags_default_on(key: Seq<char>)
    ensures
        setting_spec(None, key),
        setting_spec(Some(Seq::<char>::empty()), key),
{
    reveal_strlit("=0");
    assert forall|i: int| !occurs_at(Seq::<char>::empty(), key + "=0"@, i) by {}
}

} // verus!
