use vstd::prelude::*;

verus! {

/// A contiguous claimed address range `[base, base + size)`.
#[derive(Clone, Copy, Debug, PartialEq, Eq, Structural)]
pub struct Region {
    pub base: usize,
    pub size: usize,
}

impl Region {
    /// One past the last address of the range.
    pub open spec fn end(self) -> int {
        self.base + self.size
    }

    /// The range does not wrap around the address space.
    pub open spec fn wf(self) -> bool {
        self.end() <= usize::MAX
    }

    /// Every address of `other` lies in `self`.
    pub open spec fn contains(self, other: Region) -> bool {
        self.base <= other.base && other.end() <= self.end()
    }

    /// `self` holds every address of `other` and at least one more.
    pub open spec fn strictly_contains(self, other: Region) -> bool {
        self.contains(other) && self.size > other.size
    }

    /// The region `[base, base + size)`, or `None` where it would wrap.
    pub fn new(base: usize, size: usize) -> (r: Option<Region>)
        ensures
            r is Some <==> base + size <= usize::MAX,
            r matches Some(g) ==> g.base == base && g.size == size && g.wf(),
    {
        if base <= usize::MAX - size {
            Some(Region { base, size })
        } else {
            None
        }
    }

    /// One past the last address of the range.
    pub fn end_addr(&self) -> (r: usize)
        requires
            self.wf(),
        ensures
            r == self.end(),
    {
        self.base + self.size
    }

    /// The region lowered by `low` bytes at the bottom and raised by `high`
    /// bytes at the top; `None` where either end would wrap.
    pub fn extend(self, low: usize, high: usize) -> (r: Option<Region>)
        requires
            self.wf(),
        ensures
            r is Some <==> (low <= self.base && self.end() + high <= usize::MAX),
            r matches Some(g) ==> g.base == self.base - low && g.end() == self.end() + high
                && g.wf(),
    {
        if low <= self.base && high <= usize::MAX - (self.base + self.size) {
            Some(Region { base: self.base - low, size: low + self.size + high })
        } else {
            None
        }
    }

    /// The region with its top lowered to `limit` where it lies above it; a
    /// region that starts at or above `limit` becomes empty at its base.
    pub fn clip_to(self, limit: usize) -> (r: Region)
        requires
            self.wf(),
        ensures
            r.base == self.base,
            r.wf(),
            self.end() <= limit ==> r == self,
            self.base <= limit < self.end() ==> r.end() == limit,
            limit < self.base ==> r.size == 0,
            r.end() <= self.end(),
    {
        if self.base + self.size <= limit {
            self
        } else if self.base <= limit {
            Region { base: self.base, size: limit - self.base }
        } else {
            Region { base: self.base, size: 0 }
        }
    }
}

} // verus!
