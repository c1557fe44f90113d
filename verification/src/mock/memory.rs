//! A reference DMA backend: a bump allocator that never frees.

use vstd::prelude::*;
use crate::mock::platform::AxUnifiedPlatform;
use vstd::arithmetic::div_mod::{lemma_fundamental_div_mod, lemma_fundamental_div_mod_converse};
use crate::api::{align_up, aligned_to, effective_align, DmaRegion, MemIf};
use crate::bounded::{region_items, regions_clear, regions_clone, regions_new, regions_push};

verus! {

/// Where a fresh allocator starts.
pub const BASE_PADDR: usize = 0x8000_0000;

/// The most regions the table of issued regions holds.
pub const MAX_TRACKED: usize = 16;

/// What a request gets from an allocator whose cursor is at `cursor`: the
/// region at the first aligned address, unless the request is empty or the
/// region would end past the last address.
pub open spec fn grant(cursor: int, bytes: usize, align: usize) -> Option<DmaRegion> {
    let base = align_up(cursor, effective_align(align));
    if bytes > 0 && base + bytes <= usize::MAX {
        Some(DmaRegion { paddr: base as usize, size: bytes, align: effective_align(align) as usize })
    } else {
        None
    }
}

/// The cursor after a request was answered with `granted`.
pub open spec fn cursor_after(cursor: int, granted: Option<DmaRegion>) -> int {
    match granted {
        Some(region) => region.end(),
        None => cursor,
    }
}

/// The table of issued regions after a request was answered with `granted`:
/// a granted region is noted while the table has room.
pub open spec fn table_after(issued: Seq<DmaRegion>, granted: Option<DmaRegion>) -> Seq<DmaRegion> {
    match granted {
        Some(region) => if issued.len() < MAX_TRACKED {
            issued.push(region)
        } else {
            issued
        },
        None => issued,
    }
}

/// `align_up` gives a multiple of `align`, at or above `cursor`, and no
/// address between the two is a multiple of `align`.
pub proof fn lemma_align_up_is_least(cursor: int, align: int)
    requires
        cursor >= 0,
        align > 0,
    ensures
        aligned_to(align_up(cursor, align), align),
        cursor <= align_up(cursor, align) < cursor + align,
        forall|b: int| cursor <= b < align_up(cursor, align) ==> !#[trigger] aligned_to(b, align),
{
    let q = cursor / align;
    let r = cursor % align;
    lemma_fundamental_div_mod(cursor, align);
    if r != 0 {
        let up = cursor + (align - r);
        assert(up == (q + 1) * align + 0) by (nonlinear_arith)
            requires
                cursor == align * q + r,
                up == cursor + (align - r),
        ;
        lemma_fundamental_div_mod_converse(up, align, q + 1, 0);
        assert forall|b: int| cursor <= b < up implies !#[trigger] aligned_to(b, align) by {
            let rb = b - q * align;
            assert(b == q * align + rb);
            assert(q * align == align * q) by (nonlinear_arith);
            lemma_fundamental_div_mod_converse(b, align, q, rb);
        }
    }
}

/// The cursor of an allocator that started at `start` and answered
/// `requests`, each a size and an alignment, in order.
pub open spec fn cursor_after_all(start: int, requests: Seq<(usize, usize)>) -> int
    decreases requests.len(),
{
    if requests.len() == 0 {
        start
    } else {
        let before = cursor_after_all(start, requests.drop_last());
        cursor_after(before, grant(before, requests.last().0, requests.last().1))
    }
}

/// The answer to request `i` of `requests`, made in order on an allocator that
/// started at `start`.
pub open spec fn answer(start: int, requests: Seq<(usize, usize)>, i: int) -> Option<DmaRegion>
    recommends
        0 <= i < requests.len(),
{
    grant(cursor_after_all(start, requests.take(i)), requests[i].0, requests[i].1)
}

/// The cursor only moves forward: after more requests it is no lower.
pub proof fn lemma_cursor_never_retreats(start: int, requests: Seq<(usize, usize)>, i: int, j: int)
    requires
        start >= 0,
        0 <= i <= j <= requests.len(),
    ensures
        0 <= cursor_after_all(start, requests.take(i)) <= cursor_after_all(
            start,
            requests.take(j),
        ),
    decreases j,
{
    if j == 0 {
        assert(requests.take(0).len() == 0);
    } else {
        let shorter = requests.take(j - 1);
        assert(requests.take(j).drop_last() =~= shorter);
        if i == j {
            lemma_cursor_never_retreats(start, requests, j - 1, j - 1);
        } else {
            lemma_cursor_never_retreats(start, requests, i, j - 1);
        }
        let before = cursor_after_all(start, shorter);
        lemma_align_up_is_least(before, effective_align(requests[j - 1].1));
    }
}

/// Every region granted is well formed, and of two regions granted by one
/// allocator the later one starts at or after the end of the earlier one, so
/// the two share no address.
pub proof fn lemma_regions_in_order(start: int, requests: Seq<(usize, usize)>, i: int, j: int)
    requires
        start >= 0,
        0 <= i < j < requests.len(),
        answer(start, requests, i) is Some,
        answer(start, requests, j) is Some,
    ensures
        answer(start, requests, i).unwrap().wf(),
        answer(start, requests, j).unwrap().wf(),
        answer(start, requests, i).unwrap().end() <= answer(start, requests, j).unwrap().paddr,
        answer(start, requests, i).unwrap().disjoint(&answer(start, requests, j).unwrap()),
{
    lemma_cursor_never_retreats(start, requests, i, i + 1);
    lemma_cursor_never_retreats(start, requests, i + 1, j);
    assert(requests.take(i + 1).drop_last() =~= requests.take(i));
    lemma_align_up_is_least(
        cursor_after_all(start, requests.take(i)),
        effective_align(requests[i].1),
    );
    lemma_align_up_is_least(
        cursor_after_all(start, requests.take(j)),
        effective_align(requests[j].1),
    );
}

pub struct MockMemory {
    next_paddr: usize,
    allocations: heapless::Vec<DmaRegion, 16>,
}

impl MockMemory {
    /// The regions noted in the table, oldest first.
    pub closed spec fn issued(&self) -> Seq<DmaRegion> {
        region_items(self.allocations)
    }

    /// The cursor is an address.
    pub proof fn lemma_cursor_in_range(&self)
        ensures
            0 <= self.cursor() <= usize::MAX,
    {
    }

    /// A fresh allocator: the cursor at `BASE_PADDR`, nothing issued.
    pub fn new() -> (memory: Self)
        ensures
            memory.cursor() == BASE_PADDR,
            memory.issued() == Seq::<DmaRegion>::empty(),
    {
        Self { next_paddr: BASE_PADDR, allocations: regions_new() }
    }

    /// A copy of the table of issued regions.
    pub fn allocations(&self) -> (table: heapless::Vec<DmaRegion, 16>)
        ensures
            region_items(table) == self.issued(),
    {
        regions_clone(&self.allocations)
    }

    /// Returns the allocator to its fresh state.
    pub fn reset(&mut self)
        ensures
            final(self).cursor() == BASE_PADDR,
            final(self).issued() == Seq::<DmaRegion>::empty(),
    {
        self.next_paddr = BASE_PADDR;
        regions_clear(&mut self.allocations);
    }
}

impl MemIf for MockMemory {
    closed spec fn cursor(&self) -> int {
        self.next_paddr as int
    }

    open spec fn alloc_effect(&self, after: &Self, bytes: usize, align: usize, granted: Option<DmaRegion>) -> bool {
        &&& granted == grant(self.cursor(), bytes, align)
        &&& after.cursor() == cursor_after(self.cursor(), granted)
        &&& after.issued() == table_after(self.issued(), granted)
    }

    fn dma_alloc(&mut self, bytes: usize, align: usize) -> (granted: Option<DmaRegion>) {
        let align: usize = if align == 0 { 1 } else { align };
        let rem: usize = self.next_paddr % align;
        let pad: usize = if rem == 0 { 0 } else { align - rem };
        proof {
            lemma_align_up_is_least(self.next_paddr as int, align as int);
        }
        if bytes == 0 || pad > usize::MAX - self.next_paddr || bytes > usize::MAX
            - self.next_paddr - pad {
            return None;
        }
        let aligned: usize = self.next_paddr + pad;
        let region = DmaRegion::new(aligned, bytes, align);
        self.next_paddr = aligned + bytes;
        let _ = regions_push(&mut self.allocations, region);
        Some(region)
    }

    fn dma_flush(&self, _region: &DmaRegion) {
    }
}

/// Returns `memory` to its fresh state.
pub fn reset(memory: &mut MockMemory)
    ensures
        final(memory).cursor() == BASE_PADDR,
        final(memory).issued() == Seq::<DmaRegion>::empty(),
{
    memory.reset();
}

/// The platform's DMA allocator.
pub fn platform_memory(platform: &AxUnifiedPlatform) -> (memory: &MockMemory)
    ensures
        memory.cursor() == platform@.cursor,
        memory.issued() == platform@.issued,
{
    platform.memory_backend()
}

} // verus!
