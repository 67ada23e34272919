//! What the standard library's `String` does when a character is added to
//! or taken from its end. These statements are taken on trust from the
//! documentation of `String`; everything else in the crate is proved from
//! them.

use vstd::prelude::*;
use vstd::utf8::encode_utf8;

verus! {

/// Length of `text` as a `String` stores it: the number of bytes of its
/// UTF-8 encoding. For text made of ASCII characters this is the number of
/// characters.
pub open spec fn stored_length(text: Seq<char>) -> nat {
    encode_utf8(text).len()
}

/// `String::push` appends the character and touches nothing before it.
pub assume_specification[ String::push ](text: &mut String, ch: char)
    ensures
        final(text)@ == old(text)@.push(ch),
;

/// `String::pop` removes the last character and returns it; on the empty
/// string it returns `None` and changes nothing.
pub assume_specification[ String::pop ](text: &mut String) -> (last: Option<char>)
    ensures
        old(text)@.len() == 0 ==> last.is_none() && final(text)@ == old(text)@,
        old(text)@.len() > 0 ==> last == Some(old(text)@.last()) && final(text)@ == old(
            text,
        )@.drop_last(),
;

/// `String::len` is the length in bytes, not in characters.
pub assume_specification[ String::len ](text: &String) -> (bytes: usize)
    ensures
        bytes == stored_length(text@),
;

} // verus!
