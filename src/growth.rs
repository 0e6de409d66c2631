use vstd::prelude::*;
use crate::layout::Layout;
use crate::region::Region;
use vstd::arithmetic::power::pow;
use vstd::arithmetic::power2::{lemma_pow2, lemma_pow2_unfold, pow2};

verus! {

/// The address above which the heap is never grown by default.
pub const HEAP_TOP_LIMIT: usize = 0x8000_0000;

/// How many successful doublings a heap of `size` bytes can still make when
/// `room` bytes lie between its base and the limit: the least `k` with
/// `size * 2^k >= room`, and none for an empty heap.
pub open spec fn growth_steps(size: nat, room: nat) -> nat
    decreases room - (if size < room { size } else { room }),
{
    if size == 0 || size >= room {
        0
    } else {
        1 + growth_steps(2 * size, room)
    }
}

/// Growth from a non-empty heap stops after the ceiling of `log2(room / size)`
/// doublings: that many bring `size` up to `room`, and one fewer leaves it short.
pub proof fn lemma_growth_steps_is_ceil_log2(size: nat, room: nat)
    requires
        size > 0,
    ensures
        size * pow2(growth_steps(size, room)) >= room,
        growth_steps(size, room) > 0 ==> size * pow2((growth_steps(size, room) - 1) as nat)
            < room,
    decreases room - (if size < room { size } else { room }),
{
    lemma_pow2(0);
    reveal(pow);
    assert(pow2(0) == 1);
    if size < room {
        lemma_growth_steps_is_ceil_log2(2 * size, room);
        let k = growth_steps(2 * size, room);
        assert(growth_steps(size, room) == k + 1);
        lemma_pow2_unfold(k + 1);
        assert(size * pow2(k + 1) == (2 * size) * pow2(k)) by (nonlinear_arith)
            requires
                pow2(k + 1) == 2 * pow2(k),
        ;
        if k > 0 {
            lemma_pow2_unfold(k);
            assert(size * pow2(k) == (2 * size) * pow2((k - 1) as nat)) by (nonlinear_arith)
                requires
                    pow2(k) == 2 * pow2((k - 1) as nat),
            ;
        }
    } else {
        assert(growth_steps(size, room) == 0);
        assert(size * pow2(0) == size);
    }
}

/// The top that one growth gives: the heap doubled upward, clipped at `limit`.
pub open spec fn doubled_end(heap: Region, limit: int) -> int {
    if heap.end() + heap.size <= limit {
        heap.end() + heap.size
    } else {
        limit
    }
}

/// The growth policy: the heap it has claimed so far and the address that
/// the heap never grows past.
#[derive(Clone, Copy, Debug)]
pub struct MyOomHandler {
    heap: Region,
    limit: usize,
}

impl MyOomHandler {
    pub closed spec fn heap_spec(self) -> Region {
        self.heap
    }

    pub closed spec fn limit_spec(self) -> usize {
        self.limit
    }

    /// The heap is a valid region lying wholly below the limit.
    pub open spec fn wf(self) -> bool {
        self.heap_spec().wf() && self.heap_spec().end() <= self.limit_spec()
    }

    /// The number of growths left before the policy refuses.
    pub open spec fn steps_left(self) -> nat {
        growth_steps(
            self.heap_spec().size as nat,
            (self.limit_spec() - self.heap_spec().base) as nat,
        )
    }

    /// A policy for `heap` that never grows it past `limit`; `None` where the
    /// heap already reaches above `limit`.
    pub fn new(heap: Region, limit: usize) -> (r: Option<MyOomHandler>)
        requires
            heap.wf(),
        ensures
            r is Some <==> heap.end() <= limit,
            r matches Some(h) ==> h.heap_spec() == heap && h.limit_spec() == limit && h.wf(),
    {
        if heap.end_addr() <= limit {
            Some(MyOomHandler { heap, limit })
        } else {
            None
        }
    }

    pub fn heap(&self) -> (r: Region)
        ensures
            r == self.heap_spec(),
    {
        self.heap
    }

    pub fn limit(&self) -> (r: usize)
        ensures
            r == self.limit_spec(),
    {
        self.limit
    }

    /// Called when the engine cannot serve `_layout` from the heap: doubles
    /// the heap upward, clipped at the limit, and returns the new heap, whose
    /// part above the old top the engine is to take on. Where the clipped
    /// proposal equals the current heap, nothing changes and growth is refused.
    pub fn handle_oom(&mut self, _layout: Layout) -> (r: Result<Region, ()>)
        requires
            old(self).wf(),
        ensures
            final(self).wf(),
            final(self).limit_spec() == old(self).limit_spec(),
            r is Ok <==> (old(self).heap_spec().size > 0 && old(self).heap_spec().end()
                < old(self).limit_spec()),
            r matches Ok(g) ==> g == final(self).heap_spec() && g.base
                == old(self).heap_spec().base && g.end() == doubled_end(
                old(self).heap_spec(),
                old(self).limit_spec() as int,
            ) && g.strictly_contains(old(self).heap_spec()) && final(self).steps_left() + 1
                == old(self).steps_left(),
            r is Err ==> *final(self) == *old(self) && old(self).steps_left() == 0,
    {
        let old_heap = self.heap;
        let new_heap = match old_heap.extend(0, old_heap.size) {
            Some(proposal) => proposal.clip_to(self.limit),
            // the doubled top lies past every address, so past the limit too
            None => Region { base: old_heap.base, size: self.limit - old_heap.base },
        };
        if new_heap == old_heap {
            return Err(());
        }
        self.heap = new_heap;
        proof {
            reveal_with_fuel(growth_steps, 2);
        }
        Ok(new_heap)
    }
}

} // verus!
