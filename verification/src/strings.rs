//! Verified helpers for building the small strings that destination nodes
//! carry, on top of two standard-library growth operations.

use vstd::prelude::*;

verus! {

/// Relies on std's `String::push`: appends the character to the end of the
/// string.
pub assume_specification[ String::push ](s: &mut String, c: char)
    ensures
        final(s)@ == old(s)@.push(c),
;

/// Relies on std's `String::push_str`: appends the string slice to the end of
/// the string.
pub assume_specification[ String::push_str ](s: &mut String, other: &str)
    ensures
        final(s)@ == old(s)@ + other@,
;

/// A fresh string holding exactly one character.
pub fn char_string(c: char) -> (r: String)
    ensures
        r@ == seq![c],
{
    let mut s = String::new();
    s.push(c);
    proof {
        assert(s@ =~= seq![c]);
    }
    s
}

/// A fresh string holding a backslash followed by the given text.
pub fn backslash_prefixed(t: &str) -> (r: String)
    ensures
        r@ == seq!['\\'] + t@,
{
    let mut s = String::new();
    s.push('\\');
    s.push_str(t);
    proof {
        assert(s@ =~= seq!['\\'] + t@);
    }
    s
}

} // verus!
