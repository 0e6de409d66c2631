use talc_alloc::allocator::{AllocError, AllocStep, MyNewAllocator};
use talc_alloc::growth::{MyOomHandler, HEAP_TOP_LIMIT};
use talc_alloc::layout::Layout;
use talc_alloc::region::Region;

fn layout(size: usize, align: usize) -> Layout {
    Layout::from_size_align(size, align).unwrap()
}

fn initialised(base: usize, size: usize, limit: usize) -> MyNewAllocator {
    let mut a = MyNewAllocator::with_limit(limit);
    let r = a.region_for(base, size).unwrap();
    assert_eq!(a.init(r, true), Ok(()));
    a
}

#[test]
fn init_alloc_dealloc_round_trip() {
    let mut a = MyNewAllocator::new();
    assert_eq!(a.limit(), HEAP_TOP_LIMIT);
    let r = a.region_for(0x1000, 0x1000).unwrap();
    assert_eq!(a.init(r, true), Ok(()));
    assert_eq!(a.total_bytes(), 4096);
    assert_eq!(a.available_bytes(), 4096);
    let l = layout(100, 8);
    assert_eq!(a.alloc_step(l, true), Ok(AllocStep::Served));
    assert_eq!(a.available_bytes(), 3996);
    assert_eq!(a.used_bytes(), 100);
    a.dealloc(l);
    assert_eq!(a.available_bytes(), 4096);
    assert_eq!(a.used_bytes(), 0);
}

#[test]
fn oversized_request_doubles_the_heap() {
    let mut a = initialised(0x1000, 0x1000, HEAP_TOP_LIMIT);
    let l = layout(100, 8);
    assert_eq!(a.alloc_step(l, true), Ok(AllocStep::Served));
    a.dealloc(l);
    let big = layout(5000, 8);
    let old = Region { base: 0x1000, size: 0x1000 };
    let new = Region { base: 0x1000, size: 0x2000 };
    assert_eq!(a.alloc_step(big, false), Ok(AllocStep::Extend { old, new }));
    assert_eq!(a.heap(), Some(new));
    assert_eq!(a.alloc_step(big, true), Ok(AllocStep::Served));
    assert_eq!(a.total_bytes(), 8192);
    assert_eq!(a.available_bytes(), 3192);
}

#[test]
fn saturated_heap_refuses_growth() {
    let mut a = initialised(0x1000, 0x1000, 0x2000);
    let l = layout(100, 8);
    assert_eq!(a.alloc_step(l, true), Ok(AllocStep::Served));
    let before = (a.total_bytes(), a.available_bytes());
    assert_eq!(a.alloc_step(layout(5000, 8), false), Err(AllocError::NoMemory));
    assert_eq!((a.total_bytes(), a.available_bytes()), before);
    assert_eq!(a.heap(), Some(Region { base: 0x1000, size: 0x1000 }));
    // smaller requests are still served from what is claimed
    assert_eq!(a.alloc_step(l, true), Ok(AllocStep::Served));
    assert_eq!(a.available_bytes(), 4096 - 200);
}

#[test]
fn saturated_policy_clips_to_the_same_region() {
    let heap = Region { base: 0x1000, size: 0x1000 };
    let mut h = MyOomHandler::new(heap, 0x2000).unwrap();
    assert_eq!(h.handle_oom(layout(1, 1)), Err(()));
    assert_eq!(h.heap(), heap);
    assert_eq!(h.limit(), 0x2000);
}

#[test]
fn growth_stops_after_log2_steps() {
    let mut h = MyOomHandler::new(Region { base: 0, size: 1 }, 8).unwrap();
    let l = layout(64, 8);
    assert_eq!(h.handle_oom(l), Ok(Region { base: 0, size: 2 }));
    assert_eq!(h.handle_oom(l), Ok(Region { base: 0, size: 4 }));
    assert_eq!(h.handle_oom(l), Ok(Region { base: 0, size: 8 }));
    assert_eq!(h.handle_oom(l), Err(()));
    assert_eq!(h.handle_oom(l), Err(()));
}

#[test]
fn growth_clips_the_last_doubling_at_the_limit() {
    let mut h = MyOomHandler::new(Region { base: 0x100, size: 0x100 }, 0x500).unwrap();
    let l = layout(8, 8);
    assert_eq!(h.handle_oom(l), Ok(Region { base: 0x100, size: 0x200 }));
    assert_eq!(h.handle_oom(l), Ok(Region { base: 0x100, size: 0x400 }));
    assert_eq!(h.handle_oom(l), Err(()));
}

#[test]
fn growth_from_empty_heap_is_refused() {
    let mut h = MyOomHandler::new(Region { base: 0x100, size: 0 }, 0x500).unwrap();
    assert_eq!(h.handle_oom(layout(8, 8)), Err(()));
}

#[test]
fn growth_is_a_strict_superset() {
    let mut a = initialised(0x4000, 0x3000, 0x10000);
    let old = a.heap().unwrap();
    match a.alloc_step(layout(0x5000, 16), false) {
        Ok(AllocStep::Extend { old: o, new: n }) => {
            assert_eq!(o, old);
            assert_eq!(n.base, old.base);
            assert_eq!(n.size, 0x6000);
            assert!(n.size > o.size);
        }
        other => panic!("unexpected {:?}", other),
    }
    assert_eq!(a.total_bytes(), 0x6000);
}

#[test]
fn heap_above_limit_never_grows() {
    let mut a = initialised(0x1000, 0x1000, 0x1800);
    assert_eq!(a.heap(), None);
    assert_eq!(a.alloc_step(layout(8, 8), false), Err(AllocError::NoMemory));
    assert_eq!(a.total_bytes(), 0x1000);
}

#[test]
fn no_heap_means_no_memory() {
    let mut a = MyNewAllocator::new();
    assert_eq!(a.alloc_step(layout(8, 8), false), Err(AllocError::NoMemory));
    assert_eq!(a.total_bytes(), 0);
    assert_eq!(a.available_bytes(), 0);
}

#[test]
fn rejected_claim_leaves_counters() {
    let mut a = initialised(0x1000, 0x1000, HEAP_TOP_LIMIT);
    let r = a.region_for(0x9000, 0x800).unwrap();
    assert_eq!(a.add_memory(r, false), Err(AllocError::AddMemoryFailed));
    assert_eq!(a.total_bytes(), 4096);
    assert_eq!(a.available_bytes(), 4096);
    assert_eq!(a.add_memory(r, true), Ok(()));
    assert_eq!(a.total_bytes(), 4096 + 0x800);
    assert_eq!(a.available_bytes(), 4096 + 0x800);
    assert_eq!(a.heap(), Some(Region { base: 0x1000, size: 0x1000 }));
}

#[test]
fn failed_init_claims_nothing() {
    let mut a = MyNewAllocator::new();
    let r = a.region_for(0x1000, 0x10).unwrap();
    assert_eq!(a.init(r, false), Err(AllocError::AddMemoryFailed));
    assert_eq!(a.total_bytes(), 0);
    assert_eq!(a.heap(), None);
}

#[test]
fn wrapping_region_is_refused() {
    let a = MyNewAllocator::new();
    assert_eq!(a.region_for(usize::MAX, 2), Err(AllocError::AddMemoryFailed));
    assert_eq!(a.region_for(usize::MAX - 1, 1), Ok(Region { base: usize::MAX - 1, size: 1 }));
}

#[test]
fn overflowing_total_is_refused() {
    let mut a = initialised(0x1000, 0x1000, HEAP_TOP_LIMIT);
    assert_eq!(a.region_for(0, usize::MAX), Err(AllocError::AddMemoryFailed));
    assert!(a.region_for(0, usize::MAX - 0x1000).is_ok());
    let r = a.region_for(0x2000, 0x10).unwrap();
    assert_eq!(a.add_memory(r, true), Ok(()));
}

#[test]
fn counters_conserved_over_alloc_dealloc_run() {
    let mut a = initialised(0x1000, 0x1000, HEAP_TOP_LIMIT);
    let shapes = [layout(16, 8), layout(100, 4), layout(1, 1), layout(2048, 64)];
    for l in shapes.iter() {
        assert_eq!(a.alloc_step(*l, true), Ok(AllocStep::Served));
        assert_eq!(a.total_bytes(), 4096);
        assert_eq!(a.used_bytes(), a.total_bytes() - a.available_bytes());
    }
    assert_eq!(a.used_bytes(), 16 + 100 + 1 + 2048);
    for l in shapes.iter().rev() {
        a.dealloc(*l);
        assert_eq!(a.total_bytes(), 4096);
        assert_eq!(a.used_bytes(), a.total_bytes() - a.available_bytes());
    }
    assert_eq!(a.available_bytes(), 4096);
}

#[test]
fn availability_can_reach_zero() {
    let mut a = initialised(0x1000, 0x1000, HEAP_TOP_LIMIT);
    let l = layout(4096, 8);
    assert_eq!(a.alloc_step(l, true), Ok(AllocStep::Served));
    assert_eq!(a.available_bytes(), 0);
    assert_eq!(a.used_bytes(), 4096);
}

#[test]
fn region_extend_and_clip() {
    let r = Region::new(0x1000, 0x1000).unwrap();
    assert_eq!(r.end_addr(), 0x2000);
    assert_eq!(r.extend(0x100, 0x200), Some(Region { base: 0xf00, size: 0x1300 }));
    assert_eq!(r.extend(0x1001, 0), None);
    assert_eq!(r.extend(0, usize::MAX - 0x1fff), None);
    assert_eq!(r.extend(0, usize::MAX - 0x2000), Some(Region { base: 0x1000, size: usize::MAX - 0x1000 }));
    assert_eq!(r.clip_to(0x3000), r);
    assert_eq!(r.clip_to(0x1800), Region { base: 0x1000, size: 0x800 });
    assert_eq!(r.clip_to(0x800), Region { base: 0x1000, size: 0 });
    assert_eq!(Region::new(usize::MAX, 1), None);
}

#[test]
fn layout_validation() {
    let l = layout(100, 8);
    assert_eq!((l.size(), l.align()), (100, 8));
    assert!(Layout::from_size_align(8, 0).is_none());
    assert!(Layout::from_size_align(8, 3).is_none());
    assert!(Layout::from_size_align(8, 1).is_some());
    assert!(Layout::from_size_align(isize::MAX as usize, 1).is_some());
    assert!(Layout::from_size_align(isize::MAX as usize, 2).is_none());
    assert!(Layout::from_size_align(isize::MAX as usize + 1, 1).is_none());
}
