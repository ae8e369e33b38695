//! Comparing Windows paths as text: case-insensitive for ASCII letters, with
//! `/` and `\` alike, ignoring surrounding white space and quotes.

use vstd::prelude::*;
use vstd::string::*;
use crate::text::{all_white, lemma_trim_removes_only_padding, trim, trim_bounds, white_space};

verus! {

/// `s` without leading double quotes.
pub open spec fn strip_quotes_start(s: Seq<char>) -> Seq<char>
    decreases s.len(),
{
    if s.len() > 0 && s[0] == '"' {
        strip_quotes_start(s.drop_first())
    } else {
        s
    }
}

/// `s` without trailing double quotes.
pub open spec fn strip_quotes_end(s: Seq<char>) -> Seq<char>
    decreases s.len(),
{
    if s.len() > 0 && s.last() == '"' {
        strip_quotes_end(s.drop_last())
    } else {
        s
    }
}

/// A path as written, without surrounding white space and then without
/// surrounding double quotes.
pub open spec fn clean(s: Seq<char>) -> Seq<char> {
    strip_quotes_end(strip_quotes_start(trim(s)))
}

/// The code of a character as a Windows path compares it: `/` is `\`, ASCII
/// letters are lower case.
pub open spec fn fold(c: char) -> u32 {
    if c == '/' {
        0x5C
    } else if 'A' <= c && c <= 'Z' {
        ((c as u32) + 32) as u32
    } else {
        c as u32
    }
}

pub open spec fn folded(s: Seq<char>) -> Seq<u32> {
    s.map_values(|c: char| fold(c))
}

/// What the text of two paths says about them: an empty first path never
/// matches, equal folded text matches, and anything else has to be asked of
/// the file system.
pub open spec fn path_text_match(a: Seq<char>, b: Seq<char>) -> Option<bool> {
    if clean(a).len() == 0 {
        Some(false)
    } else if folded(clean(a)) == folded(clean(b)) {
        Some(true)
    } else {
        None
    }
}

fn fold_char(c: char) -> (r: u32)
    ensures
        r == fold(c),
{
    if c == '/' {
        0x5C
    } else if 'A' <= c && c <= 'Z' {
        (c as u32) + 32
    } else {
        c as u32
    }
}

proof fn lemma_strip_start_step(s: Seq<char>, i: int, j: int)
    requires
        0 <= i < j <= s.len(),
        s[i] == '"',
    ensures
        strip_quotes_start(s.subrange(i, j)) == strip_quotes_start(s.subrange(i + 1, j)),
{
    assert(s.subrange(i, j).drop_first() =~= s.subrange(i + 1, j));
}

proof fn lemma_strip_end_step(s: Seq<char>, i: int, j: int)
    requires
        0 <= i < j <= s.len(),
        s[j - 1] == '"',
    ensures
        strip_quotes_end(s.subrange(i, j)) == strip_quotes_end(s.subrange(i, j - 1)),
{
    assert(s.subrange(i, j).drop_last() =~= s.subrange(i, j - 1));
}

/// The bounds of the cleaned path within `s`.
pub fn clean_bounds(s: &str) -> (r: (usize, usize))
    ensures
        r.0 <= r.1 <= s@.len(),
        s@.subrange(r.0 as int, r.1 as int) == clean(s@),
{
    let (t0, t1) = trim_bounds(s);
    let ghost t = s@.subrange(t0 as int, t1 as int);
    let mut i = t0;
    while i < t1 && s.get_char(i) == '"'
        invariant
            t0 <= i <= t1 <= s@.len(),
            t == s@.subrange(t0 as int, t1 as int),
            strip_quotes_start(t) == strip_quotes_start(s@.subrange(i as int, t1 as int)),
        decreases t1 - i,
    {
        proof {
            lemma_strip_start_step(s@, i as int, t1 as int);
        }
        i = i + 1;
    }
    let ghost u = s@.subrange(i as int, t1 as int);
    assert(strip_quotes_start(u) == u) by {
        if i < t1 {
            assert(u[0] == s@[i as int]);
        }
    }
    let mut j = t1;
    while j > i && s.get_char(j - 1) == '"'
        invariant
            t0 <= i <= j <= t1 <= s@.len(),
            u == s@.subrange(i as int, t1 as int),
            strip_quotes_end(u) == strip_quotes_end(s@.subrange(i as int, j as int)),
        decreases j - i,
    {
        proof {
            lemma_strip_end_step(s@, i as int, j as int);
        }
        j = j - 1;
    }
    assert(strip_quotes_end(s@.subrange(i as int, j as int)) == s@.subrange(i as int, j as int)) by {
        if j > i {
            assert(s@.subrange(i as int, j as int).last() == s@[j - 1]);
        }
    }
    (i, j)
}

/// The cleaned path, as handed to the file system when the text does not decide.
pub fn clean_path(s: &str) -> (r: String)
    ensures
        r@ == clean(s@),
{
    let (i, j) = clean_bounds(s);
    String::from_str(s.substring_char(i, j))
}

/// `path_text_match`, computed.
pub fn compare_path_text(a: &str, b: &str) -> (r: Option<bool>)
    ensures
        r == path_text_match(a@, b@),
{
    let (a0, a1) = clean_bounds(a);
    let (b0, b1) = clean_bounds(b);
    let ghost ca = a@.subrange(a0 as int, a1 as int);
    let ghost cb = b@.subrange(b0 as int, b1 as int);
    if a1 == a0 {
        return Some(false);
    }
    if a1 - a0 != b1 - b0 {
        assert(folded(ca).len() != folded(cb).len());
        return None;
    }
    let n = a1 - a0;
    let mut k: usize = 0;
    while k < n
        invariant
            n == a1 - a0,
            n == b1 - b0,
            a0 <= a1 <= a@.len(),
            b0 <= b1 <= b@.len(),
            ca == a@.subrange(a0 as int, a1 as int),
            cb == b@.subrange(b0 as int, b1 as int),
            ca == clean(a@),
            cb == clean(b@),
            n > 0,
            k <= n,
            forall|m: int| 0 <= m < k ==> fold(#[trigger] ca[m]) == fold(cb[m]),
        decreases n - k,
    {
        if fold_char(a.get_char(a0 + k)) != fold_char(b.get_char(b0 + k)) {
            assert(folded(ca)[k as int] != folded(cb)[k as int]);
            assert(folded(ca) != folded(cb));
            assert(clean(a@) == ca && clean(b@) == cb);
            assert(clean(a@).len() != 0);
            return None;
        }
        k = k + 1;
    }
    assert(folded(ca) =~= folded(cb)) by {
        assert forall|m: int| 0 <= m < n implies folded(ca)[m] == folded(cb)[m] by {
            assert(fold(ca[m]) == fold(cb[m]));
        }
    }
    Some(true)
}

/// Two characters a Windows path treats alike: the same character, the two
/// slashes, or the same ASCII letter in either case.
pub open spec fn alike(c: char, d: char) -> bool {
    ||| c == d
    ||| (c == '/' && d == '\\') || (c == '\\' && d == '/')
    ||| ('A' <= c && c <= 'Z' && d as u32 == c as u32 + 32)
    ||| ('A' <= d && d <= 'Z' && c as u32 == d as u32 + 32)
}

/// Folding identifies only the two slashes and the two cases of an ASCII
/// letter; any other difference, a digit for instance, keeps two characters apart.
pub proof fn lemma_fold_identifies_only_case_and_slashes(c: char, d: char)
    ensures
        fold(c) == fold(d) <==> alike(c, d),
{
    if c as u32 == d as u32 {
        assert(c == d);
    }
}

/// Two paths match by their text only when their cleaned texts have the same
/// length and differ at most in ASCII letter case and slash direction, and
/// texts that differ only so do match unless the first is empty.
pub proof fn lemma_text_match_is_case_and_slash_blind(a: Seq<char>, b: Seq<char>)
    ensures
        path_text_match(a, b) == Some(true) ==> clean(a).len() == clean(b).len() && clean(a).len() > 0
            && forall|i: int| 0 <= i < clean(a).len() ==> alike(#[trigger] clean(a)[i], clean(b)[i]),
        clean(a).len() > 0 && clean(a).len() == clean(b).len() && (forall|i: int|
            0 <= i < clean(a).len() ==> alike(#[trigger] clean(a)[i], clean(b)[i])) ==> path_text_match(a, b)
            == Some(true),
        clean(a).len() == 0 ==> path_text_match(a, b) == Some(false),
{
    let ca = clean(a);
    let cb = clean(b);
    if path_text_match(a, b) == Some(true) {
        assert(folded(ca).len() == folded(cb).len());
        assert forall|i: int| 0 <= i < ca.len() implies alike(#[trigger] ca[i], cb[i]) by {
            assert(folded(ca)[i] == folded(cb)[i]);
            lemma_fold_identifies_only_case_and_slashes(ca[i], cb[i]);
        }
    }
    if ca.len() > 0 && ca.len() == cb.len() && (forall|i: int| 0 <= i < ca.len() ==> alike(#[trigger] ca[i], cb[i])) {
        assert forall|i: int| 0 <= i < ca.len() implies folded(ca)[i] == folded(cb)[i] by {
            lemma_fold_identifies_only_case_and_slashes(ca[i], cb[i]);
        }
        assert(folded(ca) =~= folded(cb));
    }
}

pub open spec fn all_quotes(q: Seq<char>) -> bool {
    forall|i: int| 0 <= i < q.len() ==> #[trigger] q[i] == '"'
}

proof fn lemma_strip_start_padded(q: Seq<char>, t: Seq<char>)
    requires
        all_quotes(q),
        t.len() > 0,
        t[0] != '"',
    ensures
        strip_quotes_start(q + t) == t,
    decreases q.len(),
{
    if q.len() == 0 {
        assert(q + t =~= t);
    } else {
        assert((q + t).drop_first() =~= q.drop_first() + t);
        lemma_strip_start_padded(q.drop_first(), t);
    }
}

proof fn lemma_strip_end_padded(t: Seq<char>, q: Seq<char>)
    requires
        all_quotes(q),
        t.len() > 0,
        t.last() != '"',
    ensures
        strip_quotes_end(t + q) == t,
    decreases q.len(),
{
    if q.len() == 0 {
        assert(t + q =~= t);
    } else {
        assert((t + q).drop_last() =~= t + q.drop_last());
        lemma_strip_end_padded(t, q.drop_last());
    }
}

/// Cleaning a path removes exactly what surrounds it: white space outside,
/// then double quotes inside that; a path that starts and ends with other
/// characters comes back unchanged.
pub proof fn lemma_clean_removes_only_the_wrapping(
    w1: Seq<char>,
    q1: Seq<char>,
    t: Seq<char>,
    q2: Seq<char>,
    w2: Seq<char>,
)
    requires
        all_white(w1),
        all_white(w2),
        all_quotes(q1),
        all_quotes(q2),
        t.len() > 0,
        t[0] != '"' && !white_space(t[0]),
        t.last() != '"' && !white_space(t.last()),
    ensures
        clean(w1 + q1 + t + q2 + w2) == t,
{
    let m = q1 + t + q2;
    assert(w1 + q1 + t + q2 + w2 =~= w1 + m + w2);
    assert(!white_space(m[0])) by {
        if q1.len() > 0 {
            assert(m[0] == q1[0]);
        } else {
            assert(m[0] == t[0]);
        }
    }
    assert(!white_space(m.last())) by {
        if q2.len() > 0 {
            assert(m.last() == q2[q2.len() - 1]);
        } else {
            assert(m.last() == t.last());
        }
    }
    lemma_trim_removes_only_padding(w1, m, w2);
    assert(m =~= q1 + (t + q2));
    assert((t + q2)[0] == t[0]);
    lemma_strip_start_padded(q1, t + q2);
    lemma_strip_end_padded(t, q2);
}

} // verus!
