//! Text measured and searched in Unicode scalar values, never in bytes.

use vstd::prelude::*;
use vstd::string::StrSliceExecFns;
use vstd::string::StringExecFns;
use vstd::string::StringSliceAdditionalSpecFns;
use vstd::utf8::encode_utf8;

verus! {

/// A text never has more scalar values than its UTF-8 encoding has bytes:
/// each scalar value is encoded in one to four of them.
pub proof fn lemma_scalars_at_most_bytes(text: Seq<char>)
    ensures
        text.len() <= encode_utf8(text).len(),
    decreases text.len(),
{
    if text.len() > 0 {
        lemma_scalars_at_most_bytes(text.drop_first());
    }
}

/// Counts the Unicode scalar values of `s`.
///
/// A character that takes several bytes in UTF-8 counts once: the result is
/// the length of the text, not of its encoding.
pub fn get_string_length(s: String) -> (length: usize)
    ensures
        length == s@.len(),
{
    s.as_str().unicode_len()
}

/// Counts the Unicode scalar values of `s`; the short-named twin of
/// `get_string_length`.
pub fn get_str_len(s: String) -> (length: usize)
    ensures
        length == s@.len(),
{
    return s.as_str().unicode_len();
}

/// `get_string_length` is a function of its argument: two calls on equal
/// strings return the same length.
pub proof fn law_string_length_repeatable(s: String, first: usize, second: usize)
    requires
        call_ensures(get_string_length, (s,), first),
        call_ensures(get_string_length, (s,), second),
    ensures
        first == second,
{
}

/// Finds the first `'a'` of `input` and returns its position, counted in
/// scalar values from zero; `None` when `input` holds no `'a'`.
pub fn find_first_a(input: String) -> (found: Option<usize>)
    ensures
        found is Some <==> input@.contains('a'),
        found matches Some(index) ==> {
            &&& index < input@.len()
            &&& input@[index as int] == 'a'
            &&& forall|j: int| 0 <= j < index ==> input@[j] != 'a'
        },
{
    let text = input.as_str();
    // A position is below the number of bytes, so it fits in a `usize`.
    let byte_count: usize = text.as_bytes().len();
    proof {
        lemma_scalars_at_most_bytes(text@);
    }
    let mut index: usize = 0;
    for ch in it: text.chars()
        invariant
            it.seq() == input@,
            index == it.index(),
            input@.len() <= byte_count,
            forall|j: int| 0 <= j < index ==> input@[j] != 'a',
    {
        if ch == 'a' {
            return Some(index);
        }
        index = index + 1;
    }
    None
}

/// Appends `", world!"` to `word`, leaving what it held in front.
pub fn modify_string(word: &mut String)
    ensures
        final(word)@ == old(word)@ + ", world!"@,
{
    word.append(", world!");
}

} // verus!
