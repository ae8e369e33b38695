//! Comparing dotted version numbers, numerically and not as text.

use vstd::prelude::*;
use vstd::string::*;

verus! {

/// `s` cut at every `sep`, as `str::split` does: `n` separators give `n + 1`
/// pieces, empty pieces included.
pub open spec fn split_on(s: Seq<char>, sep: char) -> Seq<Seq<char>>
    decreases s.len(),
{
    if s.len() == 0 {
        seq![Seq::<char>::empty()]
    } else {
        let init = split_on(s.drop_last(), sep);
        if s.last() == sep {
            init.push(Seq::<char>::empty())
        } else {
            init.update(init.len() - 1, init.last().push(s.last()))
        }
    }
}

proof fn lemma_split_nonempty(s: Seq<char>, sep: char)
    ensures
        split_on(s, sep).len() >= 1,
    decreases s.len(),
{
    if s.len() > 0 {
        lemma_split_nonempty(s.drop_last(), sep);
    }
}

pub open spec fn is_digit(c: char) -> bool {
    '0' <= c && c <= '9'
}

pub open spec fn digit_value(c: char) -> nat {
    (c as u32 - '0' as u32) as nat
}

/// The decimal value of a string of digits.
pub open spec fn decimal(d: Seq<char>) -> nat
    decreases d.len(),
{
    if d.len() == 0 {
        0
    } else {
        decimal(d.drop_last()) * 10 + digit_value(d.last())
    }
}

/// `p` without one leading `+`.
pub open spec fn unsigned_part(p: Seq<char>) -> Seq<char> {
    if p.len() > 0 && p[0] == '+' {
        p.drop_first()
    } else {
        p
    }
}

pub open spec fn all_digits(d: Seq<char>) -> bool {
    forall|i: int| 0 <= i < d.len() ==> is_digit(#[trigger] d[i])
}

/// What `str::parse::<u32>` gives: an optional `+`, then at least one ASCII
/// digit and nothing else, with a value that fits in 32 bits.
pub open spec fn parse_u32(p: Seq<char>) -> Option<u32> {
    let d = unsigned_part(p);
    if d.len() == 0 || !all_digits(d) {
        None
    } else if decimal(d) > u32::MAX {
        None
    } else {
        Some(decimal(d) as u32)
    }
}

/// The numbers of a dotted version; a piece that is not a number counts as 0.
pub open spec fn version_numbers(v: Seq<char>) -> Seq<u32> {
    split_on(v, '.').map_values(|p: Seq<char>| parse_u32(p).unwrap_or(0))
}

/// Lexicographic order of number sequences, a proper prefix coming first.
pub open spec fn seq_less(a: Seq<u32>, b: Seq<u32>) -> bool
    decreases a.len(),
{
    if a.len() == 0 {
        b.len() > 0
    } else if b.len() == 0 {
        false
    } else if a[0] != b[0] {
        a[0] < b[0]
    } else {
        seq_less(a.drop_first(), b.drop_first())
    }
}

proof fn lemma_decimal_grows(d: Seq<char>, i: int)
    requires
        0 <= i <= d.len(),
    ensures
        decimal(d.take(i)) <= decimal(d),
    decreases d.len() - i,
{
    if i < d.len() {
        lemma_decimal_grows(d, i + 1);
        assert(d.take(i + 1).drop_last() =~= d.take(i));
    } else {
        assert(d.take(i) =~= d);
    }
}

/// Parses one piece of a version.
fn parse_piece(p: &Vec<char>) -> (r: Option<u32>)
    ensures
        r == parse_u32(p@),
{
    let mut start: usize = 0;
    if p.len() > 0 && p[0] == '+' {
        start = 1;
    }
    let ghost d = unsigned_part(p@);
    assert(d =~= p@.skip(start as int));
    if start == p.len() {
        return None;
    }
    let mut acc: u64 = 0;
    let mut i: usize = start;
    while i < p.len()
        invariant
            start <= i <= p@.len(),
            d == p@.skip(start as int),
            d == unsigned_part(p@),
            acc == decimal(d.take(i - start)),
            acc <= u32::MAX,
            forall|k: int| 0 <= k < i - start ==> is_digit(#[trigger] d[k]),
        decreases p@.len() - i,
    {
        let c = p[i];
        if !('0' <= c && c <= '9') {
            assert(d[i - start] == c);
            assert(!is_digit(d[i - start]));
            assert(!all_digits(d));
            return None;
        }
        assert(d.take(i - start + 1).drop_last() =~= d.take(i - start));
        assert(d.take(i - start + 1).last() == c);
        acc = acc * 10 + (c as u32 - '0' as u32) as u64;
        if acc > 0xFFFF_FFFF {
            proof {
                lemma_decimal_grows(d, i - start + 1);
            }
            return None;
        }
        i = i + 1;
    }
    assert(d.take(i - start) =~= d);
    Some(acc as u32)
}

/// Splits `v` at the dots and parses every piece.
fn numbers(v: &str) -> (r: Vec<u32>)
    ensures
        r@ == version_numbers(v@),
{
    let n = v.unicode_len();
    let mut done: Vec<u32> = Vec::new();
    let mut piece: Vec<char> = Vec::new();
    let mut i: usize = 0;
    assert(v@.take(0) =~= Seq::<char>::empty());
    while i < n
        invariant
            n == v@.len(),
            i <= n,
            split_on(v@.take(i as int), '.') == split_on(v@.take(i as int), '.').drop_last().push(piece@),
            done@ == split_on(v@.take(i as int), '.').drop_last().map_values(
                |p: Seq<char>| parse_u32(p).unwrap_or(0),
            ),
        decreases n - i,
    {
        let c = v.get_char(i);
        let ghost before = split_on(v@.take(i as int), '.');
        assert(v@.take(i + 1).drop_last() =~= v@.take(i as int));
        assert(v@.take(i + 1).last() == c);
        proof {
            lemma_split_nonempty(v@.take(i as int), '.');
        }
        if c == '.' {
            let ghost old_piece = piece@;
            let x = match parse_piece(&piece) {
                Some(x) => x,
                None => 0,
            };
            done.push(x);
            piece = Vec::new();
            assert(split_on(v@.take(i + 1), '.') == before.push(Seq::<char>::empty()));
            assert(split_on(v@.take(i + 1), '.').drop_last() =~= before);
            assert(before.last() == old_piece);
            assert(done@ =~= split_on(v@.take(i + 1), '.').drop_last().map_values(
                |p: Seq<char>| parse_u32(p).unwrap_or(0),
            ));
            assert(split_on(v@.take(i + 1), '.') =~= split_on(v@.take(i + 1), '.').drop_last().push(
                piece@,
            ));
        } else {
            let ghost old_piece = piece@;
            piece.push(c);
            assert(split_on(v@.take(i + 1), '.') == before.update(
                before.len() - 1,
                before.last().push(c),
            ));
            assert(split_on(v@.take(i + 1), '.').drop_last() =~= before.drop_last());
            assert(split_on(v@.take(i + 1), '.') =~= split_on(v@.take(i + 1), '.').drop_last().push(
                piece@,
            ));
        }
        i = i + 1;
    }
    let x = match parse_piece(&piece) {
        Some(x) => x,
        None => 0,
    };
    done.push(x);
    assert(v@.take(n as int) =~= v@);
    assert(done@ =~= version_numbers(v@));
    done
}

/// Whether the numbers of `a` come before those of `b`.
fn less(a: &Vec<u32>, b: &Vec<u32>) -> (r: bool)
    ensures
        r == seq_less(a@, b@),
{
    let mut i: usize = 0;
    assert(a@.skip(0) =~= a@);
    assert(b@.skip(0) =~= b@);
    while i < a.len() && i < b.len() && a[i] == b[i]
        invariant
            i <= a@.len(),
            i <= b@.len(),
            seq_less(a@, b@) == seq_less(a@.skip(i as int), b@.skip(i as int)),
        decreases a@.len() - i,
    {
        assert(a@.skip(i as int).drop_first() =~= a@.skip(i + 1));
        assert(b@.skip(i as int).drop_first() =~= b@.skip(i + 1));
        i = i + 1;
    }
    if i == a.len() {
        i < b.len()
    } else if i == b.len() {
        false
    } else {
        assert(a@.skip(i as int)[0] == a@[i as int]);
        assert(b@.skip(i as int)[0] == b@[i as int]);
        a[i] < b[i]
    }
}

/// Whether `candidate` is a newer version than `current`, comparing the dotted
/// numbers one by one as numbers.
pub fn is_newer(candidate: &str, current: &str) -> (r: bool)
    ensures
        r == seq_less(version_numbers(current@), version_numbers(candidate@)),
{
    let a = numbers(candidate);
    let b = numbers(current);
    less(&b, &a)
}

proof fn lemma_seq_less_irreflexive(a: Seq<u32>)
    ensures
        !seq_less(a, a),
    decreases a.len(),
{
    if a.len() > 0 {
        lemma_seq_less_irreflexive(a.drop_first());
    }
}

proof fn lemma_seq_less_asymmetric(a: Seq<u32>, b: Seq<u32>)
    ensures
        seq_less(a, b) ==> !seq_less(b, a),
    decreases a.len(),
{
    if a.len() > 0 && b.len() > 0 && a[0] == b[0] {
        lemma_seq_less_asymmetric(a.drop_first(), b.drop_first());
    }
}

proof fn lemma_seq_less_transitive(a: Seq<u32>, b: Seq<u32>, c: Seq<u32>)
    ensures
        seq_less(a, b) && seq_less(b, c) ==> seq_less(a, c),
    decreases a.len(),
{
    if a.len() > 0 && b.len() > 0 && c.len() > 0 {
        lemma_seq_less_transitive(a.drop_first(), b.drop_first(), c.drop_first());
    }
}

/// "Newer" is a strict order on versions: no version is newer than itself,
/// of two versions at most one is newer than the other, and it is transitive.
pub proof fn lemma_newer_is_a_strict_order(a: Seq<char>, b: Seq<char>, c: Seq<char>)
    ensures
        !seq_less(version_numbers(a), version_numbers(a)),
        seq_less(version_numbers(a), version_numbers(b)) ==> !seq_less(
            version_numbers(b),
            version_numbers(a),
        ),
        seq_less(version_numbers(a), version_numbers(b)) && seq_less(version_numbers(b), version_numbers(c))
            ==> seq_less(version_numbers(a), version_numbers(c)),
{
    lemma_seq_less_irreflexive(version_numbers(a));
    lemma_seq_less_asymmetric(version_numbers(a), version_numbers(b));
    lemma_seq_less_transitive(version_numbers(a), version_numbers(b), version_numbers(c));
}

/// Lexicographic order, stated without recursion: `a` comes before `b` when,
/// after a common prefix of length `k`, either `a` has a smaller number at `k`
/// or `a` ends at `k` while `b` goes on.
pub open spec fn less_at(a: Seq<u32>, b: Seq<u32>, k: int) -> bool {
    &&& 0 <= k <= a.len()
    &&& k <= b.len()
    &&& a.take(k) == b.take(k)
    &&& (k < a.len() && k < b.len() && a[k] < b[k]) || (k == a.len() && k < b.len())
}

proof fn lemma_seq_less_characterised(a: Seq<u32>, b: Seq<u32>)
    ensures
        seq_less(a, b) <==> exists|k: int| #[trigger] less_at(a, b, k),
    decreases a.len(),
{
    if a.len() > 0 && b.len() > 0 {
        lemma_seq_less_characterised(a.drop_first(), b.drop_first());
        if a[0] == b[0] {
            if seq_less(a, b) {
                let k = choose|k: int| #[trigger] less_at(a.drop_first(), b.drop_first(), k);
                assert(a.take(k + 1) =~= seq![a[0]] + a.drop_first().take(k));
                assert(b.take(k + 1) =~= seq![b[0]] + b.drop_first().take(k));
                assert(less_at(a, b, k + 1));
            }
            if exists|k: int| #[trigger] less_at(a, b, k) {
                let k = choose|k: int| #[trigger] less_at(a, b, k);
                if k == 0 {
                    assert(a[0] < b[0]);
                } else {
                    assert(a.drop_first().take(k - 1) =~= a.take(k).drop_first());
                    assert(b.drop_first().take(k - 1) =~= b.take(k).drop_first());
                    assert(less_at(a.drop_first(), b.drop_first(), k - 1));
                }
            }
        } else {
            if a[0] < b[0] {
                assert(a.take(0) =~= b.take(0));
                assert(less_at(a, b, 0));
            }
            if exists|k: int| #[trigger] less_at(a, b, k) {
                let k = choose|k: int| #[trigger] less_at(a, b, k);
                if k > 0 {
                    assert(a.take(k)[0] == b.take(k)[0]);
                }
            }
        }
    } else if a.len() == 0 {
        if b.len() > 0 {
            assert(a.take(0) =~= b.take(0));
            assert(less_at(a, b, 0));
        }
    } else {
        if exists|k: int| #[trigger] less_at(a, b, k) {
            let k = choose|k: int| #[trigger] less_at(a, b, k);
        }
    }
}

/// Versions are compared number by number and decided at the first place where
/// they differ, whatever their lengths; a version that is a proper prefix of
/// another comes first.
pub proof fn lemma_newer_decided_at_first_difference(a: Seq<u32>, b: Seq<u32>)
    ensures
        seq_less(a, b) <==> exists|k: int| #[trigger] less_at(a, b, k),
        a.len() > 0 && b.len() > 0 && a[0] < b[0] ==> seq_less(a, b),
        a.len() > 0 && b.len() > 0 && a[0] > b[0] ==> !seq_less(a, b),
        a.len() > 0 && b.len() > 0 && a[0] == b[0] ==> seq_less(a, b) == seq_less(a.drop_first(), b.drop_first()),
        a.len() < b.len() && a == b.take(a.len() as int) ==> seq_less(a, b),
{
    lemma_seq_less_characterised(a, b);
    if a.len() < b.len() && a == b.take(a.len() as int) {
        assert(a.take(a.len() as int) =~= a);
        assert(b.take(a.len() as int).take(a.len() as int) =~= b.take(a.len() as int));
        assert(less_at(a, b, a.len() as int));
    }
}

/// Text without the separator is one piece: itself.
pub proof fn lemma_split_without_separator(s: Seq<char>, sep: char)
    requires
        forall|i: int| 0 <= i < s.len() ==> s[i] != sep,
    ensures
        split_on(s, sep) == seq![s],
    decreases s.len(),
{
    if s.len() == 0 {
        assert(s =~= Seq::<char>::empty());
    } else {
        let d = s.drop_last();
        lemma_split_without_separator(d, sep);
        assert(d.push(s.last()) =~= s);
        assert(seq![d].update(0, d.push(s.last())) =~= seq![s]);
    }
}

/// Cutting at a separator splits the pieces there: the pieces of `a`, then
/// the pieces of `b`, nothing lost and nothing joined across it.
pub proof fn lemma_split_at_a_separator(a: Seq<char>, b: Seq<char>, sep: char)
    ensures
        split_on(a + seq![sep] + b, sep) == split_on(a, sep) + split_on(b, sep),
    decreases b.len(),
{
    let s = a + seq![sep] + b;
    if b.len() == 0 {
        assert(s.drop_last() =~= a);
        assert(split_on(a, sep).push(Seq::<char>::empty()) =~= split_on(a, sep) + split_on(b, sep));
    } else {
        let b0 = b.drop_last();
        lemma_split_at_a_separator(a, b0, sep);
        lemma_split_nonempty(b0, sep);
        assert(s.drop_last() =~= a + seq![sep] + b0);
        assert(s.last() == b.last());
        let sa = split_on(a, sep);
        let sb0 = split_on(b0, sep);
        let init = sa + sb0;
        if b.last() == sep {
            assert(init.push(Seq::<char>::empty()) =~= sa + sb0.push(Seq::<char>::empty()));
        } else {
            assert(init.last() == sb0.last());
            assert(init.update(init.len() - 1, init.last().push(b.last())) =~= sa + sb0.update(
                sb0.len() - 1,
                sb0.last().push(b.last()),
            ));
        }
    }
}

/// A number's decimal notation parses back to the number, with or without a
/// leading `+`.
pub proof fn lemma_parse_reads_decimal_text(n: u32)
    ensures
        parse_u32(crate::text::decimal_text_of(n as nat)) == Some(n),
        parse_u32(seq!['+'] + crate::text::decimal_text_of(n as nat)) == Some(n),
{
    let t = crate::text::decimal_text_of(n as nat);
    crate::text::lemma_decimal_text_reads_back(n as nat);
    assert(is_digit(t[0]));
    assert(unsigned_part(t) == t);
    assert((seq!['+'] + t).drop_first() =~= t);
    assert(unsigned_part(seq!['+'] + t) == t);
}

} // verus!
