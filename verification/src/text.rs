//! Text helpers shared by the other modules.

use vstd::prelude::*;
use vstd::string::*;

verus! {

/// `text` ends with `suffix`.
pub open spec fn ends_with(text: Seq<char>, suffix: Seq<char>) -> bool {
    suffix.len() <= text.len() && text.subrange(text.len() - suffix.len(), text.len() as int)
        == suffix
}

/// `String::push` appends one character to the end of the string.
pub assume_specification[ String::push ](s: &mut String, ch: char)
    ensures
        final(s)@ == old(s)@.push(ch),
;

/// Whether two string slices hold the same text.
pub fn same_text(a: &str, b: &str) -> (r: bool)
    ensures
        r == (a@ == b@),
{
    let x = a.to_owned();
    let y = b.to_owned();
    x == y
}

/// Whether `text` is non-empty and its last character is `ch`.
pub fn last_char_is(text: &str, ch: char) -> (r: bool)
    ensures
        r == (text@.len() > 0 && text@.last() == ch),
{
    let n: usize = text.unicode_len();
    n > 0 && text.get_char(n - 1) == ch
}

/// Every concatenation ends with its right-hand part.
pub proof fn lemma_concat_ends_with(left: Seq<char>, right: Seq<char>)
    ensures
        ends_with(left + right, right),
{
    assert((left + right).subrange((left + right).len() - right.len(), (left + right).len() as int)
        =~= right);
}

} // verus!
