//! Keyboard layout handles and the choice of a layout that is safe to play with.
//!
//! A layout handle is kept as the integer value of the handle; its low word is
//! the language identifier, whose low ten bits are the primary language.

use vstd::prelude::*;

verus! {

/// The language identifier of US English.
pub const LANG_EN_US: u16 = 0x0409;

/// The primary language of English.
pub const PRIMARY_ENGLISH: u16 = 0x09;

/// The low word of a keyboard layout handle: its language identifier.
pub open spec fn spec_lang(hkl: usize) -> u16 {
    (hkl % 0x10000) as u16
}

/// The primary language of a layout handle.
pub open spec fn primary(hkl: usize) -> u16 {
    spec_lang(hkl) % 0x400
}

/// The primary languages whose built-in Windows input is an input method
/// editor, which swallows the keys a game needs: Chinese, Japanese, Korean,
/// Vietnamese, the Indic phonetic inputs, Cherokee, Amharic and Tigrinya.
pub open spec fn ime_primary(p: u16) -> bool {
    p == 0x04 || p == 0x11 || p == 0x12 || p == 0x2A || p == 0x39 || p == 0x45 || p == 0x46 || p == 0x47
        || p == 0x48 || p == 0x49 || p == 0x4A || p == 0x4B || p == 0x4C || p == 0x4E || p == 0x5C || p
        == 0x5E || p == 0x73
}

/// Whether a layout is an input method editor.
pub open spec fn ime(hkl: usize) -> bool {
    ime_primary(primary(hkl))
}

/// The language identifier carried in the low word of a layout handle.
pub fn lang(hkl: usize) -> (l: u16)
    ensures
        l == spec_lang(hkl),
{
    (hkl % 0x10000) as u16
}

/// Whether the layout is one of the input method editors; every other layout
/// delivers the game's keys and counts as safe.
pub fn is_ime_lang(hkl: usize) -> (b: bool)
    ensures
        b == ime(hkl),
{
    let p = lang(hkl) % 0x400;
    p == 0x04 || p == 0x11 || p == 0x12 || p == 0x2A || p == 0x39 || p == 0x45 || p == 0x46 || p == 0x47
        || p == 0x48 || p == 0x49 || p == 0x4A || p == 0x4B || p == 0x4C || p == 0x4E || p == 0x5C || p
        == 0x5E || p == 0x73
}

/// The kinds of layout looked for in the installed list.
#[derive(Clone, Copy, PartialEq, Eq, Debug)]
pub enum Wanted {
    EnUs,
    English,
    NonIme,
    Ime,
}

pub open spec fn wanted(kind: Wanted, hkl: usize) -> bool {
    match kind {
        Wanted::EnUs => spec_lang(hkl) == LANG_EN_US,
        Wanted::English => primary(hkl) == PRIMARY_ENGLISH,
        Wanted::NonIme => !ime(hkl),
        Wanted::Ime => ime(hkl),
    }
}

/// The first layout of `s` of the given kind.
pub open spec fn first_of(s: Seq<usize>, kind: Wanted) -> Option<usize>
    decreases s.len(),
{
    if s.len() == 0 {
        None
    } else if wanted(kind, s[0]) {
        Some(s[0])
    } else {
        first_of(s.drop_first(), kind)
    }
}

fn is_wanted(kind: Wanted, hkl: usize) -> (b: bool)
    ensures
        b == wanted(kind, hkl),
{
    match kind {
        Wanted::EnUs => lang(hkl) == LANG_EN_US,
        Wanted::English => lang(hkl) % 0x400 == PRIMARY_ENGLISH,
        Wanted::NonIme => !is_ime_lang(hkl),
        Wanted::Ime => is_ime_lang(hkl),
    }
}

/// The first installed layout of the given kind.
pub fn find_first(layouts: &[usize], kind: Wanted) -> (r: Option<usize>)
    ensures
        r == first_of(layouts@, kind),
{
    let mut i: usize = 0;
    assert(layouts@.skip(0) =~= layouts@);
    while i < layouts.len()
        invariant
            i <= layouts@.len(),
            first_of(layouts@, kind) == first_of(layouts@.skip(i as int), kind),
        decreases layouts@.len() - i,
    {
        assert(layouts@.skip(i as int)[0] == layouts@[i as int]);
        if is_wanted(kind, layouts[i]) {
            return Some(layouts[i]);
        }
        assert(layouts@.skip(i as int).drop_first() =~= layouts@.skip(i + 1));
        i = i + 1;
    }
    None
}

/// The layout to switch the game to: US English first, else any English
/// layout, else any layout that is not an input method editor.
pub open spec fn safe_layout(s: Seq<usize>) -> Option<usize> {
    match first_of(s, Wanted::EnUs) {
        Some(h) => Some(h),
        None => match first_of(s, Wanted::English) {
            Some(h) => Some(h),
            None => first_of(s, Wanted::NonIme),
        },
    }
}

/// Picks the layout to play with from the installed layouts.
pub fn pick_safe_layout(layouts: &[usize]) -> (r: Option<usize>)
    ensures
        r == safe_layout(layouts@),
{
    match find_first(layouts, Wanted::EnUs) {
        Some(h) => Some(h),
        None => match find_first(layouts, Wanted::English) {
            Some(h) => Some(h),
            None => find_first(layouts, Wanted::NonIme),
        },
    }
}

proof fn lemma_first_of_found(s: Seq<usize>, kind: Wanted)
    ensures
        first_of(s, kind) is Some ==> s.contains(first_of(s, kind)->0) && wanted(kind, first_of(s, kind)->0),
        first_of(s, kind) is None ==> forall|i: int| 0 <= i < s.len() ==> !wanted(kind, #[trigger] s[i]),
    decreases s.len(),
{
    if s.len() > 0 {
        lemma_first_of_found(s.drop_first(), kind);
        if !wanted(kind, s[0]) && first_of(s, kind) is Some {
            let x = first_of(s, kind)->0;
            let k = choose|k: int| 0 <= k < s.drop_first().len() && s.drop_first()[k] == x;
            assert(s[k + 1] == x);
        }
        if first_of(s, kind) is None {
            assert forall|i: int| 0 <= i < s.len() implies !wanted(kind, #[trigger] s[i]) by {
                if i > 0 {
                    assert(s[i] == s.drop_first()[i - 1]);
                }
            }
        }
    }
}

/// The safe layout is installed and is never an input method editor; there is
/// none only when every installed layout is one; and an installed US English
/// layout is always the one chosen over any other English layout.
pub proof fn lemma_safe_layout_is_safe(s: Seq<usize>)
    ensures
        safe_layout(s) is Some ==> s.contains(safe_layout(s)->0) && !ime(safe_layout(s)->0),
        safe_layout(s) is None <==> forall|i: int| 0 <= i < s.len() ==> ime(#[trigger] s[i]),
        (exists|i: int| 0 <= i < s.len() && spec_lang(#[trigger] s[i]) == LANG_EN_US) ==> spec_lang(
            safe_layout(s)->0,
        ) == LANG_EN_US,
{
    lemma_first_of_found(s, Wanted::EnUs);
    lemma_first_of_found(s, Wanted::English);
    lemma_first_of_found(s, Wanted::NonIme);
    if let Some(h) = first_of(s, Wanted::EnUs) {
        assert(spec_lang(h) == 0x0409);
        assert(primary(h) == 0x09);
    }
    if let Some(h) = first_of(s, Wanted::English) {
        assert(primary(h) == 0x09);
    }
    if exists|i: int| 0 <= i < s.len() && spec_lang(#[trigger] s[i]) == LANG_EN_US {
        let i = choose|i: int| 0 <= i < s.len() && spec_lang(#[trigger] s[i]) == LANG_EN_US;
        assert(wanted(Wanted::EnUs, s[i]));
    }
    if safe_layout(s) is None {
        assert forall|i: int| 0 <= i < s.len() implies ime(#[trigger] s[i]) by {
            assert(!wanted(Wanted::NonIme, s[i]));
        }
    }
    if forall|i: int| 0 <= i < s.len() ==> ime(#[trigger] s[i]) {
        if first_of(s, Wanted::EnUs) is Some {
            let h = first_of(s, Wanted::EnUs)->0;
            let k = choose|k: int| 0 <= k < s.len() && s[k] == h;
            assert(ime(s[k]));
        }
        if first_of(s, Wanted::English) is Some {
            let h = first_of(s, Wanted::English)->0;
            let k = choose|k: int| 0 <= k < s.len() && s[k] == h;
            assert(ime(s[k]));
        }
        if first_of(s, Wanted::NonIme) is Some {
            let h = first_of(s, Wanted::NonIme)->0;
            let k = choose|k: int| 0 <= k < s.len() && s[k] == h;
            assert(ime(s[k]));
        }
    }
}

/// The primary languages whose layouts are input method editors.
pub open spec fn ime_primaries() -> Seq<u16> {
    seq![
        0x04u16, 0x11u16, 0x12u16, 0x2Au16, 0x39u16, 0x45u16, 0x46u16, 0x47u16, 0x48u16, 0x49u16, 0x4Au16,
        0x4Bu16, 0x4Cu16, 0x4Eu16, 0x5Cu16, 0x5Eu16, 0x73u16,
    ]
}

/// A layout is an input method editor exactly when its primary language is
/// one of Chinese, Japanese, Korean, Vietnamese, the Indic phonetic languages,
/// Cherokee, Amharic or Tigrinya; every other layout (English, German, French,
/// Polish, Russian, Thai, ...) is safe and left alone; the sublanguage and the
/// high word of the handle play no part.
pub proof fn lemma_ime_is_the_fixed_list(h: usize)
    ensures
        ime(h) <==> ime_primaries().contains(primary(h)),
        ime(h) <==> ime(h % 0x10000 % 0x400),
        primary(h) == 0x07 || primary(h) == 0x09 || primary(h) == 0x0C || primary(h) == 0x15 || primary(h)
            == 0x19 || primary(h) == 0x1E ==> !ime(h),
{
    let p = primary(h);
    let l = ime_primaries();
    if ime(h) {
        if p == 0x04 { assert(l[0] == p); }
        if p == 0x11 { assert(l[1] == p); }
        if p == 0x12 { assert(l[2] == p); }
        if p == 0x2A { assert(l[3] == p); }
        if p == 0x39 { assert(l[4] == p); }
        if p == 0x45 { assert(l[5] == p); }
        if p == 0x46 { assert(l[6] == p); }
        if p == 0x47 { assert(l[7] == p); }
        if p == 0x48 { assert(l[8] == p); }
        if p == 0x49 { assert(l[9] == p); }
        if p == 0x4A { assert(l[10] == p); }
        if p == 0x4B { assert(l[11] == p); }
        if p == 0x4C { assert(l[12] == p); }
        if p == 0x4E { assert(l[13] == p); }
        if p == 0x5C { assert(l[14] == p); }
        if p == 0x5E { assert(l[15] == p); }
        if p == 0x73 { assert(l[16] == p); }
    }
    if l.contains(p) {
        let k = choose|k: int| 0 <= k < l.len() && l[k] == p;
        assert(0 <= k < 17);
    }
    assert(primary(h % 0x10000 % 0x400) == p);
}

/// The layout found of a kind is the earliest installed one of that kind.
pub proof fn lemma_first_of_is_the_earliest(s: Seq<usize>, kind: Wanted)
    ensures
        first_of(s, kind) is Some ==> exists|k: int|
            0 <= k < s.len() && s[k] == first_of(s, kind)->0 && wanted(kind, #[trigger] s[k]) && forall|
                j: int,
            | 0 <= j < k ==> !wanted(kind, #[trigger] s[j]),
    decreases s.len(),
{
    if s.len() > 0 {
        if wanted(kind, s[0]) {
            assert(s[0] == first_of(s, kind)->0 && wanted(kind, s[0]));
        } else {
            let t = s.drop_first();
            lemma_first_of_is_the_earliest(t, kind);
            if first_of(s, kind) is Some {
                let k = choose|k: int|
                    0 <= k < t.len() && t[k] == first_of(t, kind)->0 && wanted(kind, #[trigger] t[k])
                        && forall|j: int| 0 <= j < k ==> !wanted(kind, #[trigger] t[j]);
                assert(s[k + 1] == t[k]);
                assert forall|j: int| 0 <= j < k + 1 implies !wanted(kind, #[trigger] s[j]) by {
                    if j > 0 {
                        assert(s[j] == t[j - 1]);
                    }
                }
            }
        }
    }
}

/// Without US English, an installed English layout is chosen over any other
/// layout that is not an input method.
pub proof fn lemma_safe_layout_prefers_english(s: Seq<usize>)
    requires
        forall|i: int| 0 <= i < s.len() ==> spec_lang(#[trigger] s[i]) != LANG_EN_US,
        exists|i: int| 0 <= i < s.len() && primary(#[trigger] s[i]) == PRIMARY_ENGLISH,
    ensures
        safe_layout(s) is Some,
        primary(safe_layout(s)->0) == PRIMARY_ENGLISH,
{
    lemma_first_of_found(s, Wanted::EnUs);
    lemma_first_of_found(s, Wanted::English);
    let i = choose|i: int| 0 <= i < s.len() && primary(#[trigger] s[i]) == PRIMARY_ENGLISH;
    assert(wanted(Wanted::English, s[i]));
    if first_of(s, Wanted::EnUs) is Some {
        let h = first_of(s, Wanted::EnUs)->0;
        let k = choose|k: int| 0 <= k < s.len() && s[k] == h;
        assert(spec_lang(s[k]) != LANG_EN_US);
    }
}

} // verus!
