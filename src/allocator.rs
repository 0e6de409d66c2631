use vstd::prelude::*;
use crate::growth::{doubled_end, MyOomHandler, HEAP_TOP_LIMIT};
use crate::layout::Layout;
use crate::region::Region;

verus! {

/// Why an allocator operation failed.
#[derive(Clone, Copy, Debug, PartialEq, Eq, Structural)]
pub enum AllocError {
    /// The request could not be served, growth included.
    NoMemory,
    /// The region could not be registered with the engine.
    AddMemoryFailed,
}

pub type AllocResult<T = ()> = Result<T, AllocError>;

/// What the engine is to do next with a request.
#[derive(Clone, Copy, Debug, PartialEq, Eq, Structural)]
pub enum AllocStep {
    /// The engine served the request; it is accounted for.
    Served,
    /// The engine is to take on `new` in place of `old` and retry.
    Extend { old: Region, new: Region },
}

/// The byte-accounting facade over an allocation engine. It keeps the bytes
/// claimed, the bytes not handed out by requested size, and the growth policy
/// of the heap that `init` established.
pub struct MyNewAllocator {
    total: usize,
    avail: usize,
    growth: Option<MyOomHandler>,
    limit: usize,
}

impl MyNewAllocator {
    pub closed spec fn total_spec(self) -> nat {
        self.total as nat
    }

    pub closed spec fn avail_spec(self) -> nat {
        self.avail as nat
    }

    pub closed spec fn growth_spec(self) -> Option<MyOomHandler> {
        self.growth
    }

    pub closed spec fn limit_spec(self) -> usize {
        self.limit
    }

    pub open spec fn used_spec(self) -> int {
        self.total_spec() - self.avail_spec()
    }

    /// The available bytes never exceed the claimed ones, and the growth
    /// policy keeps its heap below this allocator's limit.
    pub open spec fn wf(self) -> bool {
        &&& self.avail_spec() <= self.total_spec()
        &&& self.growth_spec() matches Some(h) ==> h.wf() && h.limit_spec()
            == self.limit_spec()
    }

    /// The size that one more growth would add to the heap, if the policy
    /// would grow it.
    pub open spec fn next_growth(self) -> Option<int> {
        match self.growth_spec() {
            Some(h) => if h.heap_spec().size > 0 && h.heap_spec().end() < h.limit_spec() {
                Some(doubled_end(h.heap_spec(), h.limit_spec() as int) - h.heap_spec().end())
            } else {
                None
            },
            None => None,
        }
    }

    /// `post` is `pre` after the engine served a request of `layout`.
    pub open spec fn served(pre: Self, post: Self, layout: Layout) -> bool {
        &&& post.total_spec() == pre.total_spec()
        &&& post.avail_spec() == pre.avail_spec() - layout.size_spec()
        &&& post.growth_spec() == pre.growth_spec()
        &&& post.limit_spec() == pre.limit_spec()
    }

    /// `post` is `pre` after a block of `layout` went back to the engine.
    pub open spec fn returned(pre: Self, post: Self, layout: Layout) -> bool {
        &&& post.total_spec() == pre.total_spec()
        &&& post.avail_spec() == pre.avail_spec() + layout.size_spec()
        &&& post.growth_spec() == pre.growth_spec()
        &&& post.limit_spec() == pre.limit_spec()
    }

    /// An allocator with nothing claimed, whose heap grows up to `HEAP_TOP_LIMIT`.
    pub fn new() -> (r: MyNewAllocator)
        ensures
            r.wf(),
            r.total_spec() == 0,
            r.avail_spec() == 0,
            r.growth_spec() is None,
            r.limit_spec() == HEAP_TOP_LIMIT,
    {
        MyNewAllocator { total: 0, avail: 0, growth: None, limit: HEAP_TOP_LIMIT }
    }

    /// An allocator with nothing claimed, whose heap grows up to `limit`.
    pub fn with_limit(limit: usize) -> (r: MyNewAllocator)
        ensures
            r.wf(),
            r.total_spec() == 0,
            r.avail_spec() == 0,
            r.growth_spec() is None,
            r.limit_spec() == limit,
    {
        MyNewAllocator { total: 0, avail: 0, growth: None, limit }
    }

    /// The region `[start, start + size)` to hand to the engine, or
    /// `AddMemoryFailed` where it would wrap or the total would overflow.
    pub fn region_for(&self, start: usize, size: usize) -> (r: AllocResult<Region>)
        ensures
            r is Ok <==> (start + size <= usize::MAX && self.total_spec() + size <= usize::MAX),
            r matches Ok(g) ==> g.base == start && g.size == size && g.wf(),
            r matches Err(e) ==> e == AllocError::AddMemoryFailed,
    {
        if size > usize::MAX - self.total {
            return Err(AllocError::AddMemoryFailed);
        }
        match Region::new(start, size) {
            Some(g) => Ok(g),
            None => Err(AllocError::AddMemoryFailed),
        }
    }

    /// Accounts for `region` once the engine has tried to claim it: where it
    /// did (`claimed`), both counters rise by its size; else nothing changes.
    pub fn add_memory(&mut self, region: Region, claimed: bool) -> (r: AllocResult)
        requires
            old(self).wf(),
            region.wf(),
            old(self).total_spec() + region.size <= usize::MAX,
        ensures
            final(self).wf(),
            r is Ok <==> claimed,
            r matches Err(e) ==> e == AllocError::AddMemoryFailed && *final(self) == *old(self),
            r is Ok ==> final(self).total_spec() == old(self).total_spec() + region.size
                && final(self).avail_spec() == old(self).avail_spec() + region.size
                && final(self).growth_spec() == old(self).growth_spec()
                && final(self).limit_spec() == old(self).limit_spec(),
    {
        if !claimed {
            return Err(AllocError::AddMemoryFailed);
        }
        self.total = self.total + region.size;
        self.avail = self.avail + region.size;
        Ok(())
    }

    /// As `add_memory`, and on success `region` becomes the heap that later
    /// growth doubles, where it lies below the limit.
    pub fn init(&mut self, region: Region, claimed: bool) -> (r: AllocResult)
        requires
            old(self).wf(),
            region.wf(),
            old(self).total_spec() + region.size <= usize::MAX,
        ensures
            final(self).wf(),
            r is Ok <==> claimed,
            r matches Err(e) ==> e == AllocError::AddMemoryFailed && *final(self) == *old(self),
            r is Ok ==> final(self).total_spec() == old(self).total_spec() + region.size
                && final(self).avail_spec() == old(self).avail_spec() + region.size
                && final(self).limit_spec() == old(self).limit_spec()
                && (final(self).growth_spec() is Some <==> region.end() <= old(self).limit_spec())
                && (final(self).growth_spec() matches Some(h) ==> h.heap_spec() == region),
    {
        let r = self.add_memory(region, claimed);
        if r.is_ok() {
            self.growth = MyOomHandler::new(region, self.limit);
        }
        r
    }

    /// One step of a request for `layout`. Where the engine `served` it, the
    /// available bytes fall by its size. Where it did not, the growth policy
    /// decides: either the heap doubles (clipped at the limit), both counters
    /// rise by what it gained and the engine is to extend and retry, or the
    /// request fails with `NoMemory` and nothing changes.
    pub fn alloc_step(&mut self, layout: Layout, served: bool) -> (r: AllocResult<AllocStep>)
        requires
            old(self).wf(),
            served ==> layout.size_spec() <= old(self).avail_spec(),
        ensures
            final(self).wf(),
            served ==> r == Ok::<AllocStep, AllocError>(AllocStep::Served) && Self::served(
                *old(self),
                *final(self),
                layout,
            ),
            !served ==> (r is Ok <==> (old(self).next_growth() matches Some(d)
                && old(self).total_spec() + d <= usize::MAX)),
            !served ==> r != Ok::<AllocStep, AllocError>(AllocStep::Served),
            r matches Err(e) ==> e == AllocError::NoMemory && *final(self) == *old(self),
            r matches Ok(AllocStep::Extend { old: o, new: n }) ==> {
                &&& old(self).growth_spec() matches Some(h) && h.heap_spec() == o
                &&& final(self).growth_spec() matches Some(h) && h.heap_spec() == n
                &&& n.strictly_contains(o)
                &&& n.base == o.base
                &&& n.end() == doubled_end(o, old(self).limit_spec() as int)
                &&& final(self).total_spec() == old(self).total_spec() + (n.size - o.size)
                &&& final(self).avail_spec() == old(self).avail_spec() + (n.size - o.size)
                &&& final(self).limit_spec() == old(self).limit_spec()
            },
    {
        if served {
            self.avail = self.avail - layout.size();
            return Ok(AllocStep::Served);
        }
        match self.growth {
            None => Err(AllocError::NoMemory),
            Some(h) => {
                let old_heap = h.heap();
                let mut next = h;
                match next.handle_oom(layout) {
                    Err(()) => Err(AllocError::NoMemory),
                    Ok(new_heap) => {
                        let gained = new_heap.size - old_heap.size;
                        if gained > usize::MAX - self.total {
                            return Err(AllocError::NoMemory);
                        }
                        self.growth = Some(next);
                        self.total = self.total + gained;
                        self.avail = self.avail + gained;
                        Ok(AllocStep::Extend { old: old_heap, new: new_heap })
                    },
                }
            },
        }
    }

    /// A block of `layout` went back to the engine: the available bytes rise
    /// by its size. The layout must be the one the block was served with.
    pub fn dealloc(&mut self, layout: Layout)
        requires
            old(self).wf(),
            old(self).avail_spec() + layout.size_spec() <= old(self).total_spec(),
        ensures
            final(self).wf(),
            Self::returned(*old(self), *final(self), layout),
    {
        self.avail = self.avail + layout.size();
    }

    /// The bytes not handed out, counted by requested size.
    pub fn available_bytes(&self) -> (r: usize)
        requires
            self.wf(),
        ensures
            r == self.avail_spec(),
            0 <= r <= self.total_spec(),
    {
        self.avail
    }

    /// The bytes claimed, growth included.
    pub fn total_bytes(&self) -> (r: usize)
        ensures
            r == self.total_spec(),
    {
        self.total
    }

    /// The bytes handed out: the total less the available bytes.
    pub fn used_bytes(&self) -> (r: usize)
        requires
            self.wf(),
        ensures
            r == self.used_spec(),
            r == self.total_spec() - self.avail_spec(),
    {
        self.total - self.avail
    }

    /// The heap that growth doubles, once `init` established one.
    pub fn heap(&self) -> (r: Option<Region>)
        ensures
            r is Some <==> self.growth_spec() is Some,
            r matches Some(g) ==> self.growth_spec() matches Some(h) && h.heap_spec() == g,
    {
        match self.growth {
            Some(h) => Some(h.heap()),
            None => None,
        }
    }

    /// The address the heap never grows past.
    pub fn limit(&self) -> (r: usize)
        ensures
            r == self.limit_spec(),
    {
        self.limit
    }
}

/// Conservation: over any run of served requests and matched returns with
/// no memory added, the claimed total stays where it began, and at every
/// point the used bytes are the total less the available bytes, between zero
/// and the total.
pub proof fn lemma_conservation(states: Seq<MyNewAllocator>, layouts: Seq<Layout>)
    requires
        states.len() == layouts.len() + 1,
        forall|i: int| 0 <= i < states.len() ==> #[trigger] states[i].wf(),
        forall|i: int|
            0 <= i < layouts.len() ==> MyNewAllocator::served(
                #[trigger] states[i],
                states[i + 1],
                layouts[i],
            ) || MyNewAllocator::returned(states[i], states[i + 1], layouts[i]),
    ensures
        forall|i: int|
            0 <= i < states.len() ==> (#[trigger] states[i]).total_spec()
                == states[0].total_spec() && states[i].used_spec() == states[i].total_spec()
                - states[i].avail_spec() && 0 <= states[i].used_spec() <= states[i].total_spec(),
    decreases layouts.len(),
{
    if layouts.len() > 0 {
        let n = layouts.len() as int;
        let prefix = states.take(n);
        let prefix_layouts = layouts.take(n - 1);
        assert forall|i: int| 0 <= i < prefix_layouts.len() implies MyNewAllocator::served(
            #[trigger] prefix[i],
            prefix[i + 1],
            prefix_layouts[i],
        ) || MyNewAllocator::returned(prefix[i], prefix[i + 1], prefix_layouts[i]) by {}
        assert forall|i: int| 0 <= i < prefix.len() implies #[trigger] prefix[i].wf() by {
            assert(states[i].wf());
        }
        lemma_conservation(prefix, prefix_layouts);
        assert(prefix[n - 1] == states[n - 1]);
        assert(states[n - 1].wf());
        assert forall|i: int| 0 <= i < states.len() implies (#[trigger] states[i]).total_spec()
            == states[0].total_spec() by {
            if i < n {
                assert(prefix[i] == states[i]);
            }
        }
    }
    assert forall|i: int| 0 <= i < states.len() implies 0 <= (#[trigger] states[i]).used_spec()
        <= states[i].total_spec() by {
        assert(states[i].wf());
        assert(states[i].avail_spec() >= 0);
    }
}

} // verus!
