//! String helpers: length, in-place extension, and picking the longer slice.

use vstd::prelude::*;
use vstd::string::StringExecFns;

verus! {

/// Number of bytes in the UTF-8 encoding of a sequence of characters.
pub open spec fn utf8_len(s: Seq<char>) -> nat {
    vstd::utf8::encode_utf8(s).len()
}

/// Byte length of a borrowed string.
pub fn calculate_length(s: &String) -> (r: usize)
    ensures
        r == utf8_len(s@) as usize,
{
    s.as_str().len()
}

/// Appends a fixed suffix to a mutably borrowed string.
pub fn change_string(some_string: &mut String)
    ensures
        final(some_string)@ == old(some_string)@ + " changed"@,
{
    some_string.append(" changed");
}

/// Returns the longer of two string slices, the second on a tie of byte
/// lengths.
pub fn longest<'a>(x: &'a str, y: &'a str) -> (r: &'a str)
    ensures
        r@ == (if utf8_len(x@) as usize > utf8_len(y@) as usize {
            x@
        } else {
            y@
        }),
{
    if x.len() > y.len() {
        x
    } else {
        y
    }
}

} // verus!
