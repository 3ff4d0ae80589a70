//! Small facts about strings: UTF-8 lengths and decimal numerals.

use vstd::prelude::*;
use vstd::utf8::encode_utf8;

verus! {

/// The UTF-8 length of a string, in bytes.
pub open spec fn byte_len(s: Seq<char>) -> nat {
    encode_utf8(s).len()
}

/// A string whose UTF-8 length can be counted in a `usize`.
pub open spec fn len_fits(s: Seq<char>) -> bool {
    byte_len(s) <= usize::MAX
}

/// The UTF-8 length of `s`, in bytes.
pub fn utf8_len(s: &String) -> (n: usize)
    requires
        len_fits(s@),
    ensures
        n == byte_len(s@),
{
    s.as_str().len()
}

} // verus!
