//! What the standard library's string operations do, for those that the
//! engine uses.

use vstd::prelude::*;

verus! {

/// `String::push`: appends one character.
pub assume_specification[ String::push ](s: &mut String, ch: char)
    ensures
        final(s)@ == old(s)@.push(ch),
;

/// `String::pop`: takes the last character off and returns it, or returns
/// none and changes nothing where the string is empty.
pub assume_specification[ String::pop ](s: &mut String) -> (ch: Option<char>)
    ensures
        match ch {
            Some(c) => old(s)@.len() > 0 && c == old(s)@.last() && final(s)@ == old(
                s,
            )@.drop_last(),
            None => old(s)@.len() == 0 && final(s)@ == old(s)@,
        },
;

/// `String::clear`: leaves the empty string.
pub assume_specification[ String::clear ](s: &mut String)
    ensures
        final(s)@ == Seq::<char>::empty(),
;

} // verus!
