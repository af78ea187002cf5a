//! Specification for the one `String` building block of std that vstd leaves
//! unspecified.

use vstd::prelude::*;

verus! {

/// Relies on `String::push` of std: it appends the given character to the end
/// of the string, as its documentation states.
pub assume_specification[ String::push ](s: &mut String, c: char)
    ensures
        final(s)@ == old(s)@.push(c),
;

} // verus!
