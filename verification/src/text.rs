//! Character-level helpers for the small text files the game mod writes.

use vstd::prelude::*;
use vstd::string::*;
use crate::version::{decimal, digit_value, is_digit};

verus! {

/// The Unicode `White_Space` property, which `char::is_whitespace` and
/// `str::trim` go by.
pub open spec fn white_space(c: char) -> bool {
    let u = c as u32;
    ||| 0x09 <= u <= 0x0D
    ||| u == 0x20
    ||| u == 0x85
    ||| u == 0xA0
    ||| u == 0x1680
    ||| 0x2000 <= u <= 0x200A
    ||| u == 0x2028
    ||| u == 0x2029
    ||| u == 0x202F
    ||| u == 0x205F
    ||| u == 0x3000
}

/// `white_space`, computed.
pub fn is_white_space(c: char) -> (b: bool)
    ensures
        b == white_space(c),
{
    let u = c as u32;
    (0x09 <= u && u <= 0x0D) || u == 0x20 || u == 0x85 || u == 0xA0 || u == 0x1680 || (0x2000 <= u && u
        <= 0x200A) || u == 0x2028 || u == 0x2029 || u == 0x202F || u == 0x205F || u == 0x3000
}

/// `s` without its leading white space.
pub open spec fn trim_start(s: Seq<char>) -> Seq<char>
    decreases s.len(),
{
    if s.len() > 0 && white_space(s[0]) {
        trim_start(s.drop_first())
    } else {
        s
    }
}

/// `s` without its trailing white space.
pub open spec fn trim_end(s: Seq<char>) -> Seq<char>
    decreases s.len(),
{
    if s.len() > 0 && white_space(s.last()) {
        trim_end(s.drop_last())
    } else {
        s
    }
}

/// `s` without white space at either end, as `str::trim` gives it.
pub open spec fn trim(s: Seq<char>) -> Seq<char> {
    trim_end(trim_start(s))
}

proof fn lemma_trim_start_step(s: Seq<char>, i: int)
    requires
        0 <= i < s.len(),
        white_space(s[i]),
    ensures
        trim_start(s.subrange(i, s.len() as int)) == trim_start(s.subrange(i + 1, s.len() as int)),
{
    assert(s.subrange(i, s.len() as int).drop_first() =~= s.subrange(i + 1, s.len() as int));
}

proof fn lemma_trim_end_step(s: Seq<char>, j: int)
    requires
        0 < j <= s.len(),
        white_space(s[j - 1]),
    ensures
        trim_end(s.subrange(0, j)) == trim_end(s.subrange(0, j - 1)),
{
    assert(s.subrange(0, j).drop_last() =~= s.subrange(0, j - 1));
}

proof fn lemma_trim_end_of_suffix(s: Seq<char>, i: int, j: int)
    requires
        0 <= i <= j <= s.len(),
        j == i || !white_space(s[j - 1]),
    ensures
        trim_end(s.subrange(i, j)) == s.subrange(i, j),
{
    if j > i {
        assert(s.subrange(i, j).last() == s[j - 1]);
    }
}

/// The bounds of `s` without white space at either end: `s@` from `start` to
/// `end` is `trim(s@)`.
pub fn trim_bounds(s: &str) -> (r: (usize, usize))
    ensures
        r.0 <= r.1 <= s@.len(),
        s@.subrange(r.0 as int, r.1 as int) == trim(s@),
{
    let n = s.unicode_len();
    let mut i: usize = 0;
    assert(s@.subrange(0, n as int) =~= s@);
    while i < n && is_white_space(s.get_char(i))
        invariant
            n == s@.len(),
            i <= n,
            trim_start(s@) == trim_start(s@.subrange(i as int, n as int)),
        decreases n - i,
    {
        proof {
            lemma_trim_start_step(s@, i as int);
        }
        i = i + 1;
    }
    let ghost rest = s@.subrange(i as int, n as int);
    assert(trim_start(rest) == rest) by {
        if i < n {
            assert(rest[0] == s@[i as int]);
        }
    }
    assert(s@.subrange(0, n as int) =~= s@);
    let mut j: usize = n;
    while j > i && is_white_space(s.get_char(j - 1))
        invariant
            n == s@.len(),
            i <= j <= n,
            rest == s@.subrange(i as int, n as int),
            trim_end(rest) == trim_end(s@.subrange(i as int, j as int)),
        decreases j - i,
    {
        proof {
            let t = s@.subrange(i as int, n as int);
            lemma_trim_end_step(s@.subrange(i as int, n as int), (j - i) as int);
            assert(t.subrange(0, (j - i) as int) =~= s@.subrange(i as int, j as int));
            assert(t.subrange(0, (j - i - 1) as int) =~= s@.subrange(i as int, (j - 1) as int));
        }
        j = j - 1;
    }
    proof {
        lemma_trim_end_of_suffix(s@, i as int, j as int);
    }
    (i, j)
}

/// Whether `s` trimmed is exactly the single character `c`.
pub fn trims_to_char(s: &str, c: char) -> (b: bool)
    ensures
        b == (trim(s@) == seq![c]),
{
    let (i, j) = trim_bounds(s);
    if j - i == 1 && s.get_char(i) == c {
        assert(s@.subrange(i as int, j as int) =~= seq![c]);
        true
    } else {
        assert(j - i != 1 ==> s@.subrange(i as int, j as int).len() != 1);
        assert(j - i == 1 ==> s@.subrange(i as int, j as int)[0] == s@[i as int]);
        false
    }
}

/// The characters of a string.
pub fn chars_of(s: &str) -> (v: Vec<char>)
    ensures
        v@ == s@,
{
    broadcast use vstd::string::group_string_axioms;

    let mut v: Vec<char> = Vec::new();
    for c in it: s.chars()
        invariant
            v@ == it.seq().take(it.index() as int),
    {
        v.push(c);
    }
    v
}

/// `s` with every occurrence of `p` replaced by `r`, scanning from the left
/// and not overlapping, as `str::replace` does; an empty `p` matches before
/// every character and at the end.
pub open spec fn replace_spec(s: Seq<char>, p: Seq<char>, r: Seq<char>) -> Seq<char>
    decreases s.len(),
{
    if p.len() == 0 {
        if s.len() == 0 {
            r
        } else {
            r + seq![s[0]] + replace_spec(s.drop_first(), p, r)
        }
    } else if s.len() >= p.len() && s.take(p.len() as int) == p {
        r + replace_spec(s.skip(p.len() as int), p, r)
    } else if s.len() == 0 {
        s
    } else {
        seq![s[0]] + replace_spec(s.drop_first(), p, r)
    }
}

/// Replaces every occurrence of `from` in `s` by `to`.
pub fn replace_all(s: &str, from: &str, to: &str) -> (out: String)
    ensures
        out@ == replace_spec(s@, from@, to@),
{
    let cs = chars_of(s);
    let ps = chars_of(from);
    let n = cs.len();
    let m = ps.len();
    let mut out = String::from_str("");
    proof {
        reveal_strlit("");
    }
    let mut i: usize = 0;
    assert(cs@.skip(0) =~= cs@);
    while i < n
        invariant
            cs@ == s@,
            ps@ == from@,
            n == cs@.len(),
            m == ps@.len(),
            i <= n,
            out@ + replace_spec(cs@.skip(i as int), from@, to@) == replace_spec(s@, from@, to@),
        decreases n - i,
    {
        let ghost rest = cs@.skip(i as int);
        let ghost before = out@;
        if m == 0 {
            out.append(to);
            out.append(s.substring_char(i, i + 1));
            proof {
                assert(rest.drop_first() =~= cs@.skip(i + 1));
                assert(s@.subrange(i as int, i + 1) =~= seq![rest[0]]);
                assert(before + replace_spec(rest, from@, to@) =~= out@ + replace_spec(
                    cs@.skip(i + 1),
                    from@,
                    to@,
                ));
            }
            i = i + 1;
        } else {
            let mut hit = m <= n - i;
            let mut k: usize = 0;
            while hit && k < m
                invariant
                    cs@ == s@,
                    ps@ == from@,
                    n == cs@.len(),
                    m == ps@.len(),
                    i < n,
                    k <= m,
                    hit ==> i + m <= n,
                    hit ==> forall|t: int| 0 <= t < k ==> cs@[i + t] == ps@[t],
                    !hit ==> (i + m > n || exists|t: int| 0 <= t < m && cs@[i + t] != ps@[t]),
                decreases m - k,
            {
                if cs[i + k] != ps[k] {
                    hit = false;
                }
                k = k + 1;
            }
            if hit {
                assert(rest.take(m as int) =~= ps@);
                assert(rest.skip(m as int) =~= cs@.skip(i + m));
                out.append(to);
                assert(before + replace_spec(rest, from@, to@) =~= out@ + replace_spec(
                    cs@.skip(i + m),
                    from@,
                    to@,
                ));
                i = i + m;
            } else {
                assert(!(rest.len() >= m && rest.take(m as int) == ps@)) by {
                    if rest.len() >= m && rest.take(m as int) == ps@ {
                        let t = choose|t: int| 0 <= t < m && cs@[i + t] != ps@[t];
                        assert(rest.take(m as int)[t] == cs@[i + t]);
                    }
                }
                assert(rest.drop_first() =~= cs@.skip(i + 1));
                out.append(s.substring_char(i, i + 1));
                assert(s@.subrange(i as int, i + 1) =~= seq![rest[0]]);
                assert(before + replace_spec(rest, from@, to@) =~= out@ + replace_spec(
                    cs@.skip(i + 1),
                    from@,
                    to@,
                ));
                i = i + 1;
            }
        }
    }
    if m == 0 {
        out.append(to);
    }
    assert(cs@.skip(i as int) =~= Seq::<char>::empty());
    out
}

/// The decimal digit character of `d`.
pub open spec fn digit_char(d: nat) -> char {
    "0123456789"@[d as int]
}

/// The decimal notation of `v`, without leading zeros.
pub open spec fn decimal_text_of(v: nat) -> Seq<char>
    decreases v,
{
    if v < 10 {
        seq![digit_char(v)]
    } else {
        decimal_text_of(v / 10) + seq![digit_char(v % 10)]
    }
}

fn push_decimal(out: &mut String, v: u64)
    ensures
        final(out)@ == old(out)@ + decimal_text_of(v as nat),
    decreases v,
{
    if v >= 10 {
        push_decimal(out, v / 10);
    }
    let d = (v % 10) as usize;
    let digits = "0123456789";
    proof {
        reveal_strlit("0123456789");
    }
    out.append(digits.substring_char(d, d + 1));
    proof {
        assert(digits@.subrange(d as int, d + 1) =~= seq![digit_char(d as nat)]);
    }
}

/// The decimal notation of a number.
pub fn decimal_text(v: u64) -> (s: String)
    ensures
        s@ == decimal_text_of(v as nat),
{
    let mut s = String::from_str("");
    proof {
        reveal_strlit("");
    }
    push_decimal(&mut s, v);
    s
}

/// Whether two strings hold the same characters.
pub fn str_equals(a: &str, b: &str) -> (r: bool)
    ensures
        r == (a@ == b@),
{
    let n = a.unicode_len();
    if n != b.unicode_len() {
        return false;
    }
    let mut i: usize = 0;
    while i < n
        invariant
            n == a@.len(),
            n == b@.len(),
            i <= n,
            forall|k: int| 0 <= k < i ==> a@[k] == b@[k],
        decreases n - i,
    {
        if a.get_char(i) != b.get_char(i) {
            return false;
        }
        i = i + 1;
    }
    assert(a@ =~= b@);
    true
}

pub open spec fn all_white(s: Seq<char>) -> bool {
    forall|i: int| 0 <= i < s.len() ==> white_space(#[trigger] s[i])
}

proof fn lemma_trim_start_padded(w: Seq<char>, t: Seq<char>)
    requires
        all_white(w),
        t.len() > 0,
        !white_space(t[0]),
    ensures
        trim_start(w + t) == t,
    decreases w.len(),
{
    if w.len() == 0 {
        assert(w + t =~= t);
    } else {
        assert((w + t).drop_first() =~= w.drop_first() + t);
        lemma_trim_start_padded(w.drop_first(), t);
    }
}

proof fn lemma_trim_end_padded(t: Seq<char>, w: Seq<char>)
    requires
        all_white(w),
        t.len() > 0,
        !white_space(t.last()),
    ensures
        trim_end(t + w) == t,
    decreases w.len(),
{
    if w.len() == 0 {
        assert(t + w =~= t);
    } else {
        assert((t + w).drop_last() =~= t + w.drop_last());
        lemma_trim_end_padded(t, w.drop_last());
    }
}

/// Trimming removes exactly the white space around the text: a text that
/// starts and ends with other characters comes back unchanged from any
/// white-space padding.
pub proof fn lemma_trim_removes_only_padding(w1: Seq<char>, t: Seq<char>, w2: Seq<char>)
    requires
        all_white(w1),
        all_white(w2),
        t.len() > 0,
        !white_space(t[0]),
        !white_space(t.last()),
    ensures
        trim(w1 + t + w2) == t,
{
    assert(w1 + t + w2 =~= w1 + (t + w2));
    assert((t + w2)[0] == t[0]);
    lemma_trim_start_padded(w1, t + w2);
    lemma_trim_end_padded(t, w2);
}

proof fn lemma_digit_char_value(d: nat)
    requires
        d < 10,
    ensures
        is_digit(digit_char(d)),
        digit_value(digit_char(d)) == d,
        (digit_char(d) == '0') <==> d == 0,
{
    reveal_strlit("0123456789");
}

/// Decimal notation is the canonical one: it is made of digits only, it reads
/// back as the number it was written from, and it has no leading zero (only
/// zero itself starts with `0`).
pub proof fn lemma_decimal_text_reads_back(v: nat)
    ensures
        decimal_text_of(v).len() > 0,
        forall|i: int| 0 <= i < decimal_text_of(v).len() ==> is_digit(#[trigger] decimal_text_of(v)[i]),
        decimal(decimal_text_of(v)) == v,
        (decimal_text_of(v)[0] == '0') <==> v == 0,
    decreases v,
{
    if v < 10 {
        lemma_digit_char_value(v);
        let t = decimal_text_of(v);
        assert(t.drop_last() =~= Seq::<char>::empty());
        assert(decimal(t.drop_last()) == 0);
        assert(decimal(t) == decimal(t.drop_last()) * 10 + digit_value(t.last()));
    } else {
        let q = v / 10;
        let r = v % 10;
        lemma_decimal_text_reads_back(q);
        lemma_digit_char_value(r);
        let h = decimal_text_of(q);
        let t = decimal_text_of(v);
        assert(t == h + seq![digit_char(r)]);
        assert(t.drop_last() =~= h);
        assert(t.last() == digit_char(r));
        assert(t[0] == h[0]);
        assert forall|i: int| 0 <= i < t.len() implies is_digit(#[trigger] t[i]) by {
            if i < h.len() {
                assert(t[i] == h[i]);
            }
        }
        assert(decimal(t) == decimal(h) * 10 + digit_value(digit_char(r)));
        assert(q * 10 + r == v);
    }
}

/// Replacing a pattern by itself changes nothing.
pub proof fn lemma_replace_by_itself_is_identity(s: Seq<char>, p: Seq<char>)
    requires
        p.len() > 0,
    ensures
        replace_spec(s, p, p) == s,
    decreases s.len(),
{
    if s.len() >= p.len() && s.take(p.len() as int) == p {
        lemma_replace_by_itself_is_identity(s.skip(p.len() as int), p);
        assert(p + s.skip(p.len() as int) =~= s);
    } else if s.len() > 0 {
        lemma_replace_by_itself_is_identity(s.drop_first(), p);
        assert(seq![s[0]] + s.drop_first() =~= s);
    }
}

/// Text in which the pattern does not occur comes back unchanged.
pub proof fn lemma_replace_without_occurrence(s: Seq<char>, p: Seq<char>, r: Seq<char>)
    requires
        p.len() > 0,
        forall|i: int| !crate::settings::occurs_at(s, p, i),
    ensures
        replace_spec(s, p, r) == s,
    decreases s.len(),
{
    if s.len() > 0 {
        let t = s.drop_first();
        assert(!crate::settings::occurs_at(s, p, 0));
        if s.len() >= p.len() {
            assert(s.subrange(0, p.len() as int) == s.take(p.len() as int));
        }
        assert forall|i: int| !crate::settings::occurs_at(t, p, i) by {
            if crate::settings::occurs_at(t, p, i) {
                assert(s.subrange(i + 1, i + 1 + p.len()) =~= t.subrange(i, i + p.len()));
                assert(crate::settings::occurs_at(s, p, i + 1));
            }
        }
        lemma_replace_without_occurrence(t, p, r);
        assert(seq![s[0]] + t =~= s);
    }
}

} // verus!
