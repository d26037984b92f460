//! Small helpers for building strings character by character.

use vstd::prelude::*;

verus! {

/// Relies on `String::push` from std: it appends exactly the one character
/// to the end of the string.
#[verifier::external_body]
pub(crate) fn push_char(s: &mut String, c: char)
    ensures
        final(s)@ == old(s)@.push(c),
{
    s.push(c)
}

} // verus!
