//! Editing a `String` one character at a time.

use vstd::prelude::*;

verus! {

/// Appends a character.
///
/// Relies on `String::push`: the text grows by the character at its end.
#[verifier::external_body]
pub(crate) fn push_char(s: &mut String, c: char)
    ensures
        final(s)@ == old(s)@.push(c),
{
    s.push(c)
}

/// Removes the last character, if any, and hands it back.
///
/// Relies on `String::pop`: `None` on an empty text, else the last
/// character, which leaves the text.
#[verifier::external_body]
pub(crate) fn pop_char(s: &mut String) -> (r: Option<char>)
    ensures
        old(s)@.len() == 0 ==> r is None && final(s)@ == old(s)@,
        old(s)@.len() > 0 ==> r == Some(old(s)@.last()) && final(s)@ == old(s)@.drop_last(),
{
    s.pop()
}

} // verus!
