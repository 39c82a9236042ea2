use vstd::prelude::*;
use crate::text::{cut_at, first_position};

verus! {

/// The first word of `s`: what stands before its first space, or all of `s` where
/// it holds no space.
pub fn first_word(s: &str) -> (word: &str)
    ensures
        word@ == s@.subrange(0, first_position(s@, ' ')),
{
    cut_at(s, 32u8).0
}

} // verus!
