//! Text helpers: the few operations on `str` and `char` that the rest of the
//! crate needs and that `vstd` leaves unspecified, together with a verified
//! `join`.

use vstd::prelude::*;

verus! {

/// Whether `c` has the Unicode `Uppercase` property. The property is defined
/// by the Unicode character database and is left uninterpreted here.
pub uninterp spec fn char_is_uppercase(c: char) -> bool;

/// Whether `c` has the Unicode `Lowercase` property (uninterpreted, as above).
pub uninterp spec fn char_is_lowercase(c: char) -> bool;

/// The lowercase form of a text as `str::to_lowercase` computes it: a Unicode
/// mapping that may change the number of characters. Left uninterpreted.
pub uninterp spec fn lowercased(s: Seq<char>) -> Seq<char>;

/// The `Debug` rendering of a text: quoted, with escapes. Left uninterpreted.
pub uninterp spec fn debug_quoted(s: Seq<char>) -> Seq<char>;

/// Whether `c` is one of the ASCII digits `0` to `9`.
pub open spec fn ascii_digit(c: char) -> bool {
    '0' <= c <= '9'
}

/// Whether `needle` occurs in `hay` as a contiguous run of characters.
pub open spec fn is_substring(needle: Seq<char>, hay: Seq<char>) -> bool {
    exists|i: int|
        0 <= i && i + needle.len() <= hay.len() && #[trigger] hay.subrange(i, i + needle.len())
            == needle
}

/// `parts` written one after the other with `sep` between neighbours.
pub open spec fn joined(parts: Seq<Seq<char>>, sep: Seq<char>) -> Seq<char>
    decreases parts.len(),
{
    if parts.len() == 0 {
        Seq::empty()
    } else if parts.len() == 1 {
        parts[0]
    } else {
        joined(parts.drop_last(), sep) + sep + parts.last()
    }
}

/// Trusted: `char::is_uppercase` of std. The contract only gives the result a
/// name; nothing is claimed about which characters are uppercase.
pub assume_specification[ char::is_uppercase ](c: char) -> (b: bool)
    ensures
        b == char_is_uppercase(c),
;

/// Trusted: `char::is_lowercase` of std. The contract only gives the result a
/// name.
pub assume_specification[ char::is_lowercase ](c: char) -> (b: bool)
    ensures
        b == char_is_lowercase(c),
;

/// Trusted: `char::is_ascii_digit` of std, which std documents as the range
/// U+0030 `0` to U+0039 `9`.
pub assume_specification[ char::is_ascii_digit ](c: &char) -> (b: bool)
    ensures
        b == ascii_digit(*c),
;

/// Trusted: `str::to_lowercase` of std. The contract only gives the result a
/// name.
pub assume_specification[ str::to_lowercase ](s: &str) -> (lower: String)
    ensures
        lower@ == lowercased(s@),
;

/// Trusted: `str::contains` of std with a `char` pattern, which is true
/// exactly when the character occurs in the text.
#[verifier::external_body]
pub(crate) fn contains_char(s: &str, c: char) -> (found: bool)
    ensures
        found == s@.contains(c),
{
    s.contains(c)
}

/// Trusted: `str::contains` of std with a `&str` pattern, which is true
/// exactly when the pattern matches a sub-slice of the text.
#[verifier::external_body]
pub(crate) fn contains_text(hay: &str, needle: &str) -> (found: bool)
    ensures
        found == is_substring(needle@, hay@),
{
    hay.contains(needle)
}

/// Trusted: `==` on `str` of std, which compares the two texts character by
/// character.
#[verifier::external_body]
pub(crate) fn same_text(a: &str, b: &str) -> (same: bool)
    ensures
        same == (a@ == b@),
{
    a == b
}

/// Trusted: the `Debug` formatting of `str` in std. The contract only gives
/// the result a name.
#[verifier::external_body]
pub(crate) fn quote(s: &str) -> (quoted: String)
    ensures
        quoted@ == debug_quoted(s@),
{
    format!("{:?}", s)
}

/// Copies a text that may be absent.
pub fn clone_text(text: &Option<String>) -> (copy: Option<String>)
    ensures
        copy == *text,
{
    match text {
        Some(t) => Some(t.clone()),
        None => None,
    }
}

/// The texts of a vector of strings, in order.
pub open spec fn texts(parts: Seq<String>) -> Seq<Seq<char>> {
    parts.map_values(|s: String| s@)
}

/// Joins `parts` with `sep` between neighbours.
pub fn join(parts: &Vec<String>, sep: &str) -> (out: String)
    ensures
        out@ == joined(texts(parts@), sep@),
{
    let mut out = String::new();
    let mut i: usize = 0;
    while i < parts.len()
        invariant
            i <= parts.len(),
            out@ == joined(texts(parts@).take(i as int), sep@),
        decreases parts.len() - i,
    {
        let ghost before = texts(parts@).take(i as int);
        let ghost after = texts(parts@).take(i + 1);
        proof {
            assert(after.drop_last() =~= before);
            assert(after.last() == parts@[i as int]@);
        }
        if i > 0 {
            out.append(sep);
        } else {
            assert(before =~= Seq::<Seq<char>>::empty());
            assert(out@ + parts@[i as int]@ =~= parts@[i as int]@);
        }
        out.append(parts[i].as_str());
        i = i + 1;
    }
    proof {
        assert(texts(parts@).take(parts.len() as int) =~= texts(parts@));
    }
    out
}

/// A text occurs in whatever is written around it.
pub proof fn lemma_substring_within(needle: Seq<char>, before: Seq<char>, after: Seq<char>)
    ensures
        is_substring(needle, before + needle + after),
{
    let hay = before + needle + after;
    let at = before.len() as int;
    assert(hay.subrange(at, at + needle.len()) =~= needle);
}

/// What occurs in a text still occurs when more is written around that text.
pub proof fn lemma_substring_widens(
    needle: Seq<char>,
    hay: Seq<char>,
    before: Seq<char>,
    after: Seq<char>,
)
    requires
        is_substring(needle, hay),
    ensures
        is_substring(needle, before + hay + after),
{
    let i = choose|i: int|
        0 <= i && i + needle.len() <= hay.len() && #[trigger] hay.subrange(i, i + needle.len())
            == needle;
    let wide = before + hay + after;
    let at = before.len() + i;
    assert(wide.subrange(at, at + needle.len()) =~= hay.subrange(i, i + needle.len()));
}

/// Each of the parts occurs in their joined text.
pub proof fn lemma_part_in_joined(parts: Seq<Seq<char>>, sep: Seq<char>, k: int)
    requires
        0 <= k < parts.len(),
    ensures
        is_substring(parts[k], joined(parts, sep)),
    decreases parts.len(),
{
    let none = Seq::<char>::empty();
    if parts.len() == 1 {
        lemma_substring_within(parts[0], none, none);
        assert(none + parts[0] + none =~= parts[0]);
    } else if k == parts.len() - 1 {
        lemma_substring_within(parts.last(), joined(parts.drop_last(), sep) + sep, none);
        assert(joined(parts.drop_last(), sep) + sep + parts.last() + none =~= joined(parts, sep));
    } else {
        lemma_part_in_joined(parts.drop_last(), sep, k);
        lemma_substring_widens(
            parts[k],
            joined(parts.drop_last(), sep),
            none,
            sep + parts.last(),
        );
        assert(none + joined(parts.drop_last(), sep) + (sep + parts.last()) =~= joined(
            parts,
            sep,
        ));
    }
}

} // verus!
