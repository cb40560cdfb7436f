//! Text as the standard library sees it: white space, and UTF-8.

use vstd::prelude::*;
use vstd::utf8::{decode_utf8, valid_utf8};
use std::string::FromUtf8Error;

verus! {

/// `std::string::FromUtf8Error`, opaque to the verifier.
#[verifier::external_type_specification]
#[verifier::external_body]
pub struct ExFromUtf8Error(FromUtf8Error);

/// `String::from_utf8`: the bytes become a string exactly when they are valid
/// UTF-8, and the string then holds the characters that they encode.
#[verifier::external_body]
pub(crate) fn string_from_utf8(bytes: Vec<u8>) -> (text: Result<String, FromUtf8Error>)
    ensures
        text is Ok <==> valid_utf8(bytes@),
        text matches Ok(t) ==> t@ == decode_utf8(bytes@),
{
    String::from_utf8(bytes)
}

/// Whether `c` has the Unicode property `White_Space`, as the standard library decides it.
pub uninterp spec fn is_white_space(c: char) -> bool;

/// The standard library's `char::is_whitespace`: the answer is the `White_Space`
/// property of the character and nothing else.
#[verifier::external_body]
fn char_is_white_space(c: char) -> (yes: bool)
    ensures
        yes == is_white_space(c),
{
    c.is_whitespace()
}

/// A text is blank when nothing would be left of it after trimming white space
/// from both ends: every character in it is white space.
pub open spec fn blank(text: Seq<char>) -> bool {
    forall|i: int| 0 <= i < text.len() ==> is_white_space(#[trigger] text[i])
}

/// Decides whether a text is blank.
pub fn is_blank(text: &str) -> (yes: bool)
    ensures
        yes == blank(text@),
{
    for c in it: text.chars()
        invariant
            it.seq() == text@,
            forall|i: int| 0 <= i < it.index() ==> is_white_space(#[trigger] text@[i]),
    {
        if !char_is_white_space(c) {
            return false;
        }
    }
    true
}

} // verus!
