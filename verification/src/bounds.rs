//! Byte ranges of a buffer, given by their two ends.
use vstd::prelude::*;

verus! {

/// One end of a range of byte offsets.
#[derive(Clone, Copy, Debug, PartialEq, Eq, Structural)]
pub enum Edge {
    /// The range reaches up to and including this offset.
    Included(u64),
    /// The range reaches up to this offset, without it.
    Excluded(u64),
    /// The range reaches to the end of the buffer on this side.
    Unbounded,
}

/// A range of byte offsets, as `a..b`, `a..=b`, `a..`, `..b` or `..` give it.
#[derive(Clone, Copy, Debug, PartialEq, Eq, Structural)]
pub struct Bounds {
    pub start: Edge,
    pub end: Edge,
}

impl Bounds {
    /// The offset of the first byte of the range.
    pub open spec fn lower(self) -> int {
        match self.start {
            Edge::Included(a) => a as int,
            Edge::Excluded(a) => a + 1,
            Edge::Unbounded => 0,
        }
    }

    /// The offset one past the last byte of the range, in a buffer of
    /// `capacity` bytes.
    pub open spec fn upper(self, capacity: u64) -> int {
        match self.end {
            Edge::Included(b) => b + 1,
            Edge::Excluded(b) => b as int,
            Edge::Unbounded => capacity as int,
        }
    }

    /// Whether the range lies within a buffer of `capacity` bytes. An empty
    /// range does, wherever it starts up to the end of the buffer.
    pub open spec fn within(self, capacity: u64) -> bool {
        self.lower() <= self.upper(capacity) <= capacity
    }

    /// The number of bytes in the range.
    pub open spec fn span(self, capacity: u64) -> int {
        self.upper(capacity) - self.lower()
    }

    /// The range `start..end`.
    pub fn range(start: u64, end: u64) -> (bounds: Bounds)
        ensures
            bounds == (Bounds { start: Edge::Included(start), end: Edge::Excluded(end) }),
    {
        Bounds { start: Edge::Included(start), end: Edge::Excluded(end) }
    }

    /// The range `..`: the whole buffer.
    pub fn full() -> (bounds: Bounds)
        ensures
            bounds == (Bounds { start: Edge::Unbounded, end: Edge::Unbounded }),
    {
        Bounds { start: Edge::Unbounded, end: Edge::Unbounded }
    }

    /// The offset and the length of the range in a buffer of `capacity`
    /// bytes, or `None` where the range does not lie within the buffer.
    pub fn resolve(&self, capacity: u64) -> (parts: Option<(u64, u64)>)
        ensures
            parts is Some <==> self.within(capacity),
            parts matches Some((offset, size)) ==> offset == self.lower() && size == self.span(
                capacity,
            ),
    {
        let lower: u64 = match self.start {
            Edge::Included(a) => a,
            Edge::Excluded(a) => {
                if a == u64::MAX {
                    return None;
                }
                a + 1
            },
            Edge::Unbounded => 0,
        };
        let upper: u64 = match self.end {
            Edge::Included(b) => {
                if b >= capacity {
                    return None;
                }
                b + 1
            },
            Edge::Excluded(b) => b,
            Edge::Unbounded => capacity,
        };
        if lower <= upper && upper <= capacity {
            Some((lower, upper - lower))
        } else {
            None
        }
    }
}

} // verus!
