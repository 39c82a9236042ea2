use vstd::prelude::*;

verus! {

/// A passage borrowed from a longer text.
pub struct ImportantExcerpt<'a> {
    pub part: &'a str,
}

impl<'a> ImportantExcerpt<'a> {
    /// The level of importance, which is the same for every excerpt.
    pub fn level(&self) -> (l: i32)
        ensures
            l == 3,
    {
        3
    }
}

} // verus!
