//! Text helpers: case mapping through std, and substring search on character
//! sequences.
use vstd::prelude::*;

verus! {

/// What `str::to_lowercase` gives for a string, taken by its characters.
pub uninterp spec fn lowercase(s: Seq<char>) -> Seq<char>;

/// What `str::to_uppercase` gives for a string, taken by its characters.
pub uninterp spec fn uppercase(s: Seq<char>) -> Seq<char>;

/// Calls `str::to_lowercase`: the result is the Unicode lowercase mapping of
/// `s`, which `lowercase` names; nothing more is claimed of it.
#[verifier::external_body]
pub(crate) fn to_lowercase(s: &str) -> (r: String)
    ensures
        r@ == lowercase(s@),
{
    s.to_lowercase()
}

/// A character of the ASCII range.
pub open spec fn is_ascii_char(c: char) -> bool {
    (c as u32) < 128
}

/// The Unicode uppercase mapping of an ASCII character: `a` to `z` become
/// `A` to `Z`, every other ASCII character has no uppercase mapping and
/// stays as it is.
pub open spec fn ascii_upper(c: char) -> char {
    if 'a' <= c && c <= 'z' {
        ((c as u32) - 32) as char
    } else {
        c
    }
}

/// Calls `str::to_uppercase`: the result is the Unicode uppercase mapping of
/// `s`, which `uppercase` names. Of that mapping only its ASCII part is
/// claimed: where every character of `s` is ASCII, each maps to one
/// character, `a` to `z` becoming `A` to `Z` and the others staying.
#[verifier::external_body]
pub(crate) fn to_uppercase(s: &str) -> (r: String)
    ensures
        r@ == uppercase(s@),
        (forall|i: int| 0 <= i < s@.len() ==> is_ascii_char(#[trigger] s@[i])) ==> r@ == s@.map_values(
            |c: char| ascii_upper(c),
        ),
{
    s.to_uppercase()
}

/// `needle` occurs in `hay` as a run of consecutive characters (the empty
/// needle occurs everywhere).
pub open spec fn has_substring(hay: Seq<char>, needle: Seq<char>) -> bool {
    exists|i: int|
        0 <= i && i + needle.len() <= hay.len() && #[trigger] hay.subrange(i, i + needle.len())
            == needle
}

/// The characters of `s`, in order.
pub fn chars_of(s: &str) -> (r: Vec<char>)
    ensures
        r@ == s@,
{
    let mut r: Vec<char> = Vec::new();
    for c in it: s.chars()
        invariant
            r@.len() == it.index(),
            it.seq() == s@,
            forall|j: int| 0 <= j < r@.len() ==> r@[j] == it.seq()[j],
    {
        r.push(c);
    }
    proof {
        assert(r@ =~= s@);
    }
    r
}

/// Whether the run `hay[start .. start + needle.len()]` equals `needle`.
fn matches_at(hay: &Vec<char>, needle: &Vec<char>, start: usize) -> (r: bool)
    requires
        start + needle@.len() <= hay@.len(),
    ensures
        r == (hay@.subrange(start as int, start + needle@.len()) == needle@),
{
    let mut k: usize = 0;
    while k < needle.len()
        invariant
            k <= needle@.len(),
            start + needle@.len() <= hay@.len(),
            hay@.len() == hay.len(),
            forall|m: int| 0 <= m < k ==> hay@[start + m] == needle@[m],
        decreases needle@.len() - k,
    {
        if hay[start + k] != needle[k] {
            proof {
                let sub = hay@.subrange(start as int, start + needle@.len());
                assert(sub[k as int] != needle@[k as int]);
            }
            return false;
        }
        k = k + 1;
    }
    proof {
        assert(hay@.subrange(start as int, start + needle@.len()) =~= needle@);
    }
    true
}

/// Whether `needle` occurs in `hay`, as `str::contains` with a string pattern
/// answers it.
pub fn contains_text(hay: &str, needle: &str) -> (r: bool)
    ensures
        r == has_substring(hay@, needle@),
{
    let h = chars_of(hay);
    let n = chars_of(needle);
    if n.len() > h.len() {
        return false;
    }
    let last: usize = h.len() - n.len();
    let mut i: usize = 0;
    while i <= last
        invariant
            last == h@.len() - n@.len(),
            n@.len() <= h@.len(),
            h@ == hay@,
            n@ == needle@,
            forall|j: int| 0 <= j < i ==> #[trigger] h@.subrange(j, j + n@.len()) != n@,
        decreases last + 1 - i,
    {
        if matches_at(&h, &n, i) {
            return true;
        }
        if i == last {
            return false;
        }
        i = i + 1;
    }
    false
}

} // verus!
