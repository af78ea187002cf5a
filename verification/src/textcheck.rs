//! Validation of the user-supplied text: blankness (the text trimmed of
//! whitespace is empty) and the character-count bound.

use vstd::prelude::*;
use vstd::string::StrSliceExecFns;

verus! {

/// The largest character count the provider accepts for one synthesis call.
pub const MAX_TEXT_CHARS: usize = 5000;

/// `c` has the Unicode `White_Space` property, the set that trimming removes.
pub open spec fn is_ws_char(c: char) -> bool {
    ||| (c as u32) == 0x09
    ||| (c as u32) == 0x0A
    ||| (c as u32) == 0x0B
    ||| (c as u32) == 0x0C
    ||| (c as u32) == 0x0D
    ||| (c as u32) == 0x20
    ||| (c as u32) == 0x85
    ||| (c as u32) == 0xA0
    ||| (c as u32) == 0x1680
    ||| (0x2000 <= (c as u32) && (c as u32) <= 0x200A)
    ||| (c as u32) == 0x2028
    ||| (c as u32) == 0x2029
    ||| (c as u32) == 0x202F
    ||| (c as u32) == 0x205F
    ||| (c as u32) == 0x3000
}

/// The text trimmed of whitespace is empty: every character is whitespace.
pub open spec fn is_blank(s: Seq<char>) -> bool {
    forall|i: int| 0 <= i < s.len() ==> is_ws_char(s[i])
}

/// The text is acceptable for synthesis: not blank and within the bound.
pub open spec fn valid_text(s: Seq<char>) -> bool {
    &&& !is_blank(s)
    &&& s.len() <= MAX_TEXT_CHARS
}

fn is_ws_char_exec(c: char) -> (r: bool)
    ensures
        r == is_ws_char(c),
{
    let u = c as u32;
    u == 0x09 || u == 0x0A || u == 0x0B || u == 0x0C || u == 0x0D || u == 0x20 || u == 0x85
        || u == 0xA0 || u == 0x1680 || (0x2000 <= u && u <= 0x200A) || u == 0x2028 || u == 0x2029
        || u == 0x202F || u == 0x205F || u == 0x3000
}

/// Whether `s` trimmed of whitespace is empty.
pub fn is_blank_text(s: &str) -> (r: bool)
    ensures
        r == is_blank(s@),
{
    let n = s.unicode_len();
    let mut i: usize = 0;
    while i < n
        invariant
            i <= n,
            n == s@.len(),
            forall|j: int| 0 <= j < i ==> is_ws_char(s@[j]),
        decreases n - i,
    {
        let c = s.get_char(i);
        if !is_ws_char_exec(c) {
            return false;
        }
        i += 1;
    }
    true
}

/// The number of characters of `s` (not its byte length).
pub fn char_count(s: &str) -> (n: usize)
    ensures
        n == s@.len(),
{
    s.unicode_len()
}

} // verus!
