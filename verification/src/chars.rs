//! Texts as sequences of characters.

use vstd::prelude::*;
use vstd::string::*;

verus! {

/// Whether `text` ends with `suffix`.
pub open spec fn ends_with(text: Seq<char>, suffix: Seq<char>) -> bool {
    suffix.len() <= text.len() && text.subrange(text.len() - suffix.len(), text.len() as int)
        == suffix
}

/// The characters of `text`, in order.
pub fn chars_of(text: &str) -> (chars: Vec<char>)
    ensures
        chars@ == text@,
{
    let mut chars: Vec<char> = Vec::new();
    for c in it: text.chars()
        invariant
            chars@ == it.seq().take(it.index()),
    {
        chars.push(c);
    }
    chars
}

/// Whether `text` ends with `suffix`.
pub fn has_suffix(text: &Vec<char>, suffix: &Vec<char>) -> (found: bool)
    ensures
        found == ends_with(text@, suffix@),
{
    if suffix.len() > text.len() {
        return false;
    }
    let offset: usize = text.len() - suffix.len();
    let ghost tail = text@.subrange(offset as int, text.len() as int);
    let mut i: usize = 0;
    while i < suffix.len()
        invariant
            offset + suffix.len() == text.len(),
            i <= suffix.len(),
            tail == text@.subrange(offset as int, text.len() as int),
            forall|j: int| 0 <= j < i ==> tail[j] == suffix@[j],
        decreases suffix.len() - i,
    {
        if text[offset + i] != suffix[i] {
            assert(tail[i as int] != suffix@[i as int]);
            return false;
        }
        i += 1;
    }
    assert(tail =~= suffix@);
    true
}

/// Calls `String::push`, which appends `c` to the end of `text`.
#[verifier::external_body]
pub(crate) fn push_char(text: &mut String, c: char)
    ensures
        final(text)@ == old(text)@.push(c),
{
    text.push(c)
}

} // verus!
