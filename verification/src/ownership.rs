//! Borrowing a string to measure it.

use vstd::prelude::*;

use crate::text::{byte_len, lemma_byte_len_is_total_width, total_utf8_width};

verus! {

/// The length of `s` in bytes, read through a shared reference so that the
/// caller keeps ownership of the string.
pub fn calculate_length(s: &String) -> (len: usize)
    ensures
        len == byte_len(s@),
        len == total_utf8_width(s@),
{
    proof {
        lemma_byte_len_is_total_width(s@);
    }
    s.as_str().as_bytes().len()
}

} // verus!
