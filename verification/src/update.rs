//! Deciding about newer releases and about another running copy of the tool.

use vstd::prelude::*;
use vstd::string::*;
use crate::settings::{matches_at, occurs_at};
use crate::text::{chars_of, trim, trim_bounds};
use crate::version::{is_newer, seq_less, version_numbers};

verus! {

/// What precedes the release tag in the release description.
pub const TAG_KEY: &'static str = "\"tag_name\":\"";

/// `t` occurs in `s` at `i` and nowhere before.
pub open spec fn first_occurrence(s: Seq<char>, t: Seq<char>, i: int) -> bool {
    occurs_at(s, t, i) && forall|k: int| 0 <= k < i ==> !occurs_at(s, t, k)
}

/// `j` is the first double quote in `s` at or after `from`, or the end of `s`.
pub open spec fn quote_end(s: Seq<char>, from: int, j: int) -> bool {
    &&& from <= j <= s.len()
    &&& (j == s.len() || s[j] == '"')
    &&& forall|k: int| from <= k < j ==> s[k] != '"'
}

/// The release tag in a release description: the text after the first
/// `"tag_name":"`, up to the next double quote; none without that key.
pub open spec fn release_tag_of(s: Seq<char>, tag: Option<Seq<char>>) -> bool {
    match tag {
        None => forall|i: int| !occurs_at(s, TAG_KEY@, i),
        Some(t) => exists|i: int, j: int| #[trigger] tag_at(s, i, j, t),
    }
}

/// The first `"tag_name":"` of `s` is at `i`, and `t` runs from after it to
/// the quote or end at `j`.
pub open spec fn tag_at(s: Seq<char>, i: int, j: int, t: Seq<char>) -> bool {
    first_occurrence(s, TAG_KEY@, i) && quote_end(s, i + TAG_KEY@.len(), j) && t == s.subrange(
        i + TAG_KEY@.len(),
        j,
    )
}

proof fn lemma_tag_found(s: Seq<char>, i: int, j: int, t: Seq<char>)
    requires
        tag_at(s, i, j, t),
    ensures
        release_tag_of(s, Some(t)),
{
    let o = Some(t);
    assert(o->0 == t);
    assert(tag_at(s, i, j, o->0));
}

/// Finds the release tag in a release description.
pub fn release_tag(body: &str) -> (tag: Option<String>)
    ensures
        release_tag_of(body@, match tag {
            Some(t) => Some(t@),
            None => None,
        }),
{
    let s = chars_of(body);
    let key = chars_of(TAG_KEY);
    proof {
        reveal_strlit("\"tag_name\":\"");
    }
    assert(key@.len() == 12);
    let n = s.len();
    if n < 12 {
        assert forall|i: int| !occurs_at(s@, key@, i) by {}
        return None;
    }
    let mut i: usize = 0;
    while i <= n - 12
        invariant
            n == s@.len(),
            s@ == body@,
            key@ == TAG_KEY@,
            key@.len() == 12,
            12 <= n,
            i <= n - 11,
            forall|k: int| 0 <= k < i ==> !occurs_at(s@, key@, k),
        decreases n - i,
    {
        if matches_at(&s, &key, i) {
            let start = i + 12;
            let mut j = start;
            while j < n && s[j] != '"'
                invariant
                    n == s@.len(),
                    s@ == body@,
                    start <= j <= n,
                    forall|k: int| start <= k < j ==> s@[k] != '"',
                decreases n - j,
            {
                j = j + 1;
            }
            assert(first_occurrence(s@, key@, i as int));
            assert(quote_end(s@, start as int, j as int));
            let t = String::from_str(body.substring_char(start, j));
            proof {
                lemma_tag_found(body@, i as int, j as int, t@);
            }
            return Some(t);
        }
        i = i + 1;
    }
    assert forall|k: int| !occurs_at(s@, key@, k) by {
        if 0 <= k < i {
        }
    }
    None
}

/// The version of a release tag: what follows its last hyphen, or the whole
/// tag without one.
pub open spec fn tag_version_of(tag: Seq<char>, v: Seq<char>) -> bool {
    exists|i: int| #[trigger] version_from(tag, i, v)
}

/// The last hyphen of `tag` is just before `i` (or there is none and `i` is
/// 0), and `v` is the rest of the tag.
pub open spec fn version_from(tag: Seq<char>, i: int, v: Seq<char>) -> bool {
    0 <= i <= tag.len() && v == tag.subrange(i, tag.len() as int) && (i == 0 || tag[i - 1] == '-')
        && forall|k: int| i <= k < tag.len() ==> tag[k] != '-'
}

/// The version in a release tag.
pub fn tag_version(tag: &str) -> (v: String)
    ensures
        tag_version_of(tag@, v@),
{
    let n = tag.unicode_len();
    let mut i = n;
    while i > 0 && tag.get_char(i - 1) != '-'
        invariant
            n == tag@.len(),
            i <= n,
            forall|k: int| i <= k < n ==> tag@[k] != '-',
        decreases i,
    {
        i = i - 1;
    }
    let v = String::from_str(tag.substring_char(i, n));
    assert(version_from(tag@, i as int, v@));
    v
}

/// The release tag to offer, given the release description and the running
/// version: the tag, if its version is newer.
pub fn update_offer(body: &str, current: &str) -> (offer: Option<String>)
    ensures
        match offer {
            None => release_tag_of(body@, None) || exists|t: Seq<char>, v: Seq<char>|
                #![trigger release_tag_of(body@, Some(t)), tag_version_of(t, v)]
                release_tag_of(body@, Some(t)) && tag_version_of(t, v) && !seq_less(
                    version_numbers(current@),
                    version_numbers(v),
                ),
            Some(t) => release_tag_of(body@, Some(t@)) && exists|v: Seq<char>|
                #[trigger] tag_version_of(t@, v) && seq_less(version_numbers(current@), version_numbers(v)),
        },
{
    match release_tag(body) {
        None => None,
        Some(tag) => {
            let v = tag_version(tag.as_str());
            if is_newer(v.as_str(), current) {
                Some(tag)
            } else {
                assert(release_tag_of(body@, Some(tag@)) && tag_version_of(tag@, v@));
                None
            }
        },
    }
}

/// A release description holds at most one release tag.
pub proof fn lemma_release_tag_is_unique(s: Seq<char>, a: Seq<char>, b: Seq<char>)
    requires
        release_tag_of(s, Some(a)),
        release_tag_of(s, Some(b)),
    ensures
        a == b,
{
    let (i, j) = choose|i: int, j: int| tag_at(s, i, j, a);
    let (i2, j2) = choose|i: int, j: int| tag_at(s, i, j, b);
    if i < i2 {
        assert(!occurs_at(s, TAG_KEY@, i));
    }
    if i2 < i {
        assert(!occurs_at(s, TAG_KEY@, i2));
    }
    assert(i == i2);
    if j < j2 {
        assert(s[j] == '"');
    }
    if j2 < j {
        assert(s[j2] == '"');
    }
}

/// Whether this copy leaves the field to the copy already running: that copy
/// understands the quit request and its version, as recorded, is not older
/// than this one.
pub open spec fn defer_spec(has_quit_event: bool, running: Seq<char>, own: Seq<char>) -> bool {
    has_quit_event && !seq_less(version_numbers(trim(running)), version_numbers(own))
}

/// Decides whether to leave the field to the copy already running, given
/// whether it offers the quit request, the version it recorded, and ours.
pub fn defer_to_running(has_quit_event: bool, running: &str, own: &str) -> (b: bool)
    ensures
        b == defer_spec(has_quit_event, running@, own@),
{
    if !has_quit_event {
        return false;
    }
    let (i, j) = trim_bounds(running);
    let trimmed = running.substring_char(i, j);
    !is_newer(own, trimmed)
}

/// Leaving the field: never to a copy that cannot be asked to quit; always to
/// a running copy of the same version, however its recorded version is padded;
/// and of two copies, whichever runs and whichever starts, they never both
/// take over from each other.
pub proof fn lemma_defer_to_same_or_newer(
    running: Seq<char>,
    own: Seq<char>,
    w1: Seq<char>,
    w2: Seq<char>,
    a: Seq<char>,
    b: Seq<char>,
)
    requires
        crate::text::all_white(w1),
        crate::text::all_white(w2),
        own.len() > 0,
        !crate::text::white_space(own[0]),
        !crate::text::white_space(own.last()),
    ensures
        !defer_spec(false, running, own),
        defer_spec(true, w1 + own + w2, own),
        defer_spec(true, a, trim(b)) || defer_spec(true, b, trim(a)),
{
    crate::text::lemma_trim_removes_only_padding(w1, own, w2);
    crate::version::lemma_newer_is_a_strict_order(own, own, own);
    crate::version::lemma_newer_is_a_strict_order(trim(a), trim(b), trim(a));
}

} // verus!
