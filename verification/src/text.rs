//! Small operations on text.

use vstd::prelude::*;

verus! {

/// The content of an optional text.
pub open spec fn text_view(t: Option<String>) -> Option<Seq<char>> {
    match t {
        Some(s) => Some(s@),
        None => None,
    }
}

/// Whether two texts are the same.
pub fn same_text(a: &String, b: &String) -> (r: bool)
    ensures
        r == (a@ == b@),
{
    *a == *b
}

/// Whether an optional text is present and equal to `b`.
pub fn is_text(a: &Option<String>, b: &String) -> (r: bool)
    ensures
        r == (text_view(*a) == Some(b@)),
{
    match a {
        Some(s) => same_text(s, b),
        None => false,
    }
}

/// A second optional text with the same content.
pub fn duplicate_text(a: &Option<String>) -> (r: Option<String>)
    ensures
        text_view(r) == text_view(*a),
{
    match a {
        Some(s) => Some(s.clone()),
        None => None,
    }
}

/// Whether `text` ends with `suffix`, character for character.
pub fn ends_with(text: &str, suffix: &str) -> (r: bool)
    ensures
        r == suffix@.is_suffix_of(text@),
{
    let n = text.unicode_len();
    let k = suffix.unicode_len();
    if k > n {
        return false;
    }
    let start = n - k;
    let mut i: usize = 0;
    while i < k
        invariant
            n == text@.len(),
            k == suffix@.len(),
            k <= n,
            start == n - k,
            i <= k,
            forall|j: int| 0 <= j < i ==> text@[start + j] == suffix@[j],
        decreases k - i,
    {
        if text.get_char(start + i) != suffix.get_char(i) {
            assert(text@.subrange(start as int, n as int)[i as int] != suffix@[i as int]);
            return false;
        }
        i += 1;
    }
    assert(suffix@ =~= text@.subrange(start as int, n as int));
    true
}

} // verus!
