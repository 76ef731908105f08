//! What this crate takes for granted of the standard library, where `vstd` is
//! silent.

use vstd::prelude::*;

verus! {

/// `char::from_u32` answers with the character of a code that is a Unicode
/// scalar value, and with nothing for any other number: the surrogates and what
/// lies above the last code point.
pub assume_specification[ char::from_u32 ](i: u32) -> (c: Option<char>)
    ensures
        c == if vstd::utf8::is_scalar(i) {
            Some(i as char)
        } else {
            None::<char>
        },
;

/// `String::push` appends one character to the end of the string.
pub assume_specification[ String::push ](s: &mut String, ch: char)
    ensures
        final(s)@ == old(s)@.push(ch),
;

/// `str::eq`, the `==` of string slices, answers `true` exactly if the two hold
/// the same characters.
pub assume_specification[ <str as PartialEq>::eq ](a: &str, b: &str) -> (equal: bool)
    ensures
        equal == (a@ == b@),
;

} // verus!
