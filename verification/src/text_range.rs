//! Ranges of byte offsets into a text.

use vstd::prelude::*;

verus! {

/// A half-open range of byte offsets into a text.
#[derive(Clone, Copy, Debug, PartialEq, Eq, Structural, Hash)]
pub struct TextRange {
    pub start: u32,
    pub end: u32,
}

impl TextRange {
    /// The range from `from` up to, not including, `to`.
    pub fn from_to(from: u32, to: u32) -> (r: TextRange)
        requires
            from <= to,
        ensures
            r.start == from,
            r.end == to,
    {
        TextRange { start: from, end: to }
    }

    /// The offset of the first byte of the range.
    pub fn start(&self) -> (r: u32)
        ensures
            r == self.start,
    {
        self.start
    }

    /// The offset just after the last byte of the range.
    pub fn end(&self) -> (r: u32)
        ensures
            r == self.end,
    {
        self.end
    }

    /// The number of bytes in the range; zero where the bounds are not in order.
    pub fn len(&self) -> (r: u32)
        ensures
            r as int == (if self.start <= self.end {
                self.end - self.start
            } else {
                0
            }),
    {
        if self.start <= self.end {
            self.end - self.start
        } else {
            0
        }
    }

    /// `self` lies inside `other`: it starts no earlier and ends no later.
    pub open spec fn spec_is_subrange(&self, other: &TextRange) -> bool {
        other.start <= self.start && self.end <= other.end
    }

    /// Tells whether `self` lies inside `other`.
    #[verifier::when_used_as_spec(spec_is_subrange)]
    pub fn is_subrange(&self, other: &TextRange) -> (r: bool)
        ensures
            r == self.spec_is_subrange(other),
    {
        other.start <= self.start && self.end <= other.end
    }
}

} // verus!
