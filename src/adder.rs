use vstd::prelude::*;

verus! {

/// The sum of two sizes; the caller keeps it within `usize`.
pub fn add(left: usize, right: usize) -> (r: usize)
    requires
        left + right <= usize::MAX,
    ensures
        r == left + right,
{
    left + right
}

/// An axis-aligned rectangle given by its two side lengths.
pub struct Rectangle {
    pub height: u32,
    pub width: u32,
}

impl Rectangle {
    /// Whether `other` fits strictly inside this rectangle, both sides shorter.
    pub open spec fn holds(&self, other: &Rectangle) -> bool {
        self.height > other.height && self.width > other.width
    }

    pub fn can_hold(&self, other: &Rectangle) -> (r: bool)
        ensures
            r == self.holds(other),
    {
        self.height > other.height && self.width > other.width
    }
}

} // verus!
