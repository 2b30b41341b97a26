//! Text helpers shared by the rest of the crate: lowercasing and substring search.

use vstd::prelude::*;
use vstd::string::*;

verus! {

/// The lowercase form of a text, as Unicode defines it.
///
/// The mapping is given by the Unicode character tables and is left
/// uninterpreted here; [`to_lowercase`] is the only way to compute it.
pub uninterp spec fn lowercase(text: Seq<char>) -> Seq<char>;

/// Calls `str::to_lowercase` of the standard library.
///
/// Trusted: the returned text is the Unicode lowercase form of `text`, which
/// this crate calls `lowercase(text@)`. Nothing else is claimed about it.
#[verifier::external_body]
pub(crate) fn to_lowercase(text: &str) -> (lowered: String)
    ensures
        lowered@ == lowercase(text@),
{
    text.to_lowercase()
}

/// The texts of a list of strings, in the same order.
pub open spec fn texts(strings: Seq<String>) -> Seq<Seq<char>> {
    strings.map_values(|string: String| string@)
}

/// `word` stands in `text` starting at position `at`.
pub open spec fn occurs_at(text: Seq<char>, word: Seq<char>, at: int) -> bool {
    &&& 0 <= at
    &&& at + word.len() <= text.len()
    &&& text.subrange(at, at + word.len()) == word
}

/// `word` occurs somewhere in `text` as a contiguous run of characters.
pub open spec fn contains_word(text: Seq<char>, word: Seq<char>) -> bool {
    exists|at: int| occurs_at(text, word, at)
}

/// The characters of `text`, in order.
pub fn chars_of(text: &str) -> (chars: Vec<char>)
    ensures
        chars@ == text@,
{
    let n = text.unicode_len();
    let mut chars: Vec<char> = Vec::new();
    let mut i: usize = 0;
    while i < n
        invariant
            n == text@.len(),
            i <= n,
            chars@ == text@.subrange(0, i as int),
        decreases n - i,
    {
        chars.push(text.get_char(i));
        i = i + 1;
    }
    chars
}

/// Whether `word` stands in `text` at position `at`.
fn matches_at(text: &Vec<char>, word: &Vec<char>, at: usize) -> (found: bool)
    requires
        at + word.len() <= text.len(),
    ensures
        found == occurs_at(text@, word@, at as int),
{
    let mut k: usize = 0;
    while k < word.len()
        invariant
            at + word.len() <= text.len(),
            k <= word.len(),
            text@.subrange(at as int, at + k) == word@.subrange(0, k as int),
        decreases word.len() - k,
    {
        if text[at + k] != word[k] {
            assert(text@.subrange(at as int, at + word.len())[k as int] != word@[k as int]);
            return false;
        }
        assert(text@.subrange(at as int, at + k + 1) == text@.subrange(at as int, at + k).push(
            text@[at + k],
        ));
        assert(word@.subrange(0, k + 1) == word@.subrange(0, k as int).push(word@[k as int]));
        k = k + 1;
    }
    assert(word@.subrange(0, word.len() as int) == word@);
    true
}

/// Whether `word` occurs in `text`.
pub fn contains(text: &str, word: &str) -> (found: bool)
    ensures
        found == contains_word(text@, word@),
{
    let hay = chars_of(text);
    let needle = chars_of(word);
    if needle.len() > hay.len() {
        return false;
    }
    let last: usize = hay.len() - needle.len();
    let mut at: usize = 0;
    while at < last
        invariant
            hay@ == text@,
            needle@ == word@,
            last + needle.len() == hay.len(),
            at <= last,
            forall|j: int| 0 <= j < at ==> !occurs_at(text@, word@, j),
        decreases last - at,
    {
        if matches_at(&hay, &needle, at) {
            return true;
        }
        at = at + 1;
    }
    matches_at(&hay, &needle, last)
}

/// Whether two texts hold the same characters.
pub fn same_text(left: &str, right: &str) -> (same: bool)
    ensures
        same == (left@ == right@),
{
    let a = chars_of(left);
    let b = chars_of(right);
    if a.len() != b.len() {
        return false;
    }
    let mut i: usize = 0;
    while i < a.len()
        invariant
            a@ == left@,
            b@ == right@,
            a.len() == b.len(),
            i <= a.len(),
            a@.subrange(0, i as int) == b@.subrange(0, i as int),
        decreases a.len() - i,
    {
        if a[i] != b[i] {
            return false;
        }
        assert(a@.subrange(0, i + 1) == a@.subrange(0, i as int).push(a@[i as int]));
        assert(b@.subrange(0, i + 1) == b@.subrange(0, i as int).push(b@[i as int]));
        i = i + 1;
    }
    assert(a@.subrange(0, a.len() as int) == a@);
    assert(b@.subrange(0, b.len() as int) == b@);
    true
}

} // verus!
