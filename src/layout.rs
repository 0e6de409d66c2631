use vstd::prelude::*;

verus! {

/// `n` is a power of two.
pub open spec fn is_pow2(n: nat) -> bool
    decreases n,
{
    if n <= 1 {
        n == 1
    } else {
        n % 2 == 0 && is_pow2(n / 2)
    }
}

/// The largest size a layout may reach once rounded up to its alignment.
pub const MAX_ROUNDED_SIZE: usize = isize::MAX as usize;

/// The shape of a request: its size in bytes and its alignment.
#[derive(Clone, Copy, Debug, PartialEq, Eq, Structural)]
pub struct Layout {
    size: usize,
    align: usize,
}

/// Whether `n` is a power of two.
pub fn power_of_two(n: usize) -> (r: bool)
    ensures
        r == is_pow2(n as nat),
{
    let mut m: usize = n;
    while m > 1 && m % 2 == 0
        invariant
            is_pow2(n as nat) == is_pow2(m as nat),
        decreases m,
    {
        m = m / 2;
    }
    m == 1
}

impl Layout {
    pub closed spec fn size_spec(self) -> nat {
        self.size as nat
    }

    pub closed spec fn align_spec(self) -> nat {
        self.align as nat
    }

    /// A valid layout has a power-of-two alignment and a size that stays
    /// within `MAX_ROUNDED_SIZE` when rounded up to it.
    pub open spec fn wf(self) -> bool {
        is_pow2(self.align_spec()) && self.size_spec() + self.align_spec() - 1 <= MAX_ROUNDED_SIZE
    }

    /// The layout of `size` bytes aligned to `align`, or `None` where the
    /// pair is not a valid layout.
    pub fn from_size_align(size: usize, align: usize) -> (r: Option<Layout>)
        ensures
            r is Some <==> (is_pow2(align as nat) && size + align - 1 <= MAX_ROUNDED_SIZE),
            r matches Some(l) ==> l.size_spec() == size && l.align_spec() == align && l.wf(),
    {
        if power_of_two(align) && align - 1 <= MAX_ROUNDED_SIZE && size <= MAX_ROUNDED_SIZE - (align - 1) {
            Some(Layout { size, align })
        } else {
            None
        }
    }

    pub fn size(&self) -> (r: usize)
        ensures
            r == self.size_spec(),
    {
        self.size
    }

    pub fn align(&self) -> (r: usize)
        ensures
            r == self.align_spec(),
    {
        self.align
    }
}

} // verus!
