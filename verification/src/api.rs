//! Capability interfaces between the bring-up logic and device backends.

use vstd::prelude::*;

verus! {

/// A physical region handed out for DMA.
#[derive(Clone, Copy, Debug, PartialEq, Eq, Structural)]
pub struct DmaRegion {
    pub paddr: usize,
    pub size: usize,
    pub align: usize,
}

impl DmaRegion {
    /// A region handed out by an allocator is non-empty and starts on a
    /// multiple of its alignment.
    pub open spec fn wf(&self) -> bool {
        &&& self.size > 0
        &&& self.align > 0
        &&& self.paddr % self.align == 0
    }

    /// One past the last address of the region.
    pub open spec fn end(&self) -> int {
        self.paddr + self.size
    }

    /// Two regions share no address.
    pub open spec fn disjoint(&self, other: &DmaRegion) -> bool {
        self.end() <= other.paddr || other.end() <= self.paddr
    }

    pub fn new(paddr: usize, size: usize, align: usize) -> (region: Self)
        ensures
            region.paddr == paddr,
            region.size == size,
            region.align == align,
    {
        Self { paddr, size, align }
    }
}

/// The alignment a request is served with: zero is read as one.
pub open spec fn effective_align(align: usize) -> int {
    if align == 0 {
        1
    } else {
        align as int
    }
}

/// Whether `addr` is a multiple of `align`.
pub open spec fn aligned_to(addr: int, align: int) -> bool
    recommends
        align > 0,
{
    addr % align == 0
}

/// The first multiple of `align` at or above `cursor`.
pub open spec fn align_up(cursor: int, align: int) -> int
    recommends
        cursor >= 0,
        align > 0,
{
    if cursor % align == 0 {
        cursor
    } else {
        cursor + (align - cursor % align)
    }
}

/// The bytes of `bytes` that a stream holding `buffered` takes in before it
/// reaches `limit`: all of them while they fit, else the longest prefix that does.
pub open spec fn accepted(buffered: Seq<u8>, limit: nat, bytes: Seq<u8>) -> Seq<u8> {
    if buffered.len() + bytes.len() <= limit {
        bytes
    } else if buffered.len() >= limit {
        Seq::empty()
    } else {
        bytes.take(limit - buffered.len())
    }
}

/// How many bytes one read moves: as many as are buffered, up to the room in
/// the caller's buffer.
pub open spec fn read_count(room: nat, buffered: nat) -> nat {
    if room <= buffered {
        room
    } else {
        buffered
    }
}

/// A call that the surrounding system can make on a platform.
pub enum PlatformCall {
    InitEarly { cpu_id: usize, arg: usize },
    InitLater { cpu_id: usize, arg: usize },
    InitEarlySecondary { cpu_id: usize },
    InitLaterSecondary { cpu_id: usize },
    DriverSummaries,
}

/// Lifecycle hooks that the boot sequence calls on each core.
///
/// An implementation says when its hooks may be called (`hook_ready`) and what
/// each does (`hook_effect`); every hook leaves the platform ready for the next.
pub trait InitIf: Sized {
    /// Whether the hooks may be called.
    spec fn hook_ready(&self) -> bool;

    /// Whether `after` is this platform once `call` has been made on it.
    spec fn hook_effect(&self, after: &Self, call: PlatformCall) -> bool;

    /// The early hook of the primary core.
    fn init_early(&mut self, cpu_id: usize, arg: usize)
        requires
            old(self).hook_ready(),
        ensures
            final(self).hook_ready(),
            old(self).hook_effect(final(self), (PlatformCall::InitEarly { cpu_id, arg })),
    ;

    /// The late hook of the primary core, which brings the platform up.
    fn init_later(&mut self, cpu_id: usize, arg: usize)
        requires
            old(self).hook_ready(),
        ensures
            final(self).hook_ready(),
            old(self).hook_effect(final(self), (PlatformCall::InitLater { cpu_id, arg })),
    ;

    /// The early hook of a secondary core.
    fn init_early_secondary(&mut self, cpu_id: usize)
        requires
            old(self).hook_ready(),
        ensures
            final(self).hook_ready(),
            old(self).hook_effect(final(self), (PlatformCall::InitEarlySecondary { cpu_id })),
    ;

    /// The late hook of a secondary core.
    fn init_later_secondary(&mut self, cpu_id: usize)
        requires
            old(self).hook_ready(),
        ensures
            final(self).hook_ready(),
            old(self).hook_effect(final(self), (PlatformCall::InitLaterSecondary { cpu_id })),
    ;
}

/// A byte stream that is written at one end and read back, first in first out.
pub trait ConsoleIf {
    /// Bytes written and not yet read, oldest first.
    spec fn buffered(&self) -> Seq<u8>;

    /// The most bytes the stream holds at once.
    spec fn limit(&self) -> nat;

    /// Whether the backend can raise interrupts.
    spec fn interrupt_capable(&self) -> bool;

    /// Appends `bytes`; what does not fit under the limit is dropped.
    fn write_bytes(&mut self, bytes: &[u8])
        ensures
            final(self).buffered() == old(self).buffered() + accepted(
                old(self).buffered(),
                old(self).limit(),
                bytes@,
            ),
            final(self).limit() == old(self).limit(),
            final(self).interrupt_capable() == old(self).interrupt_capable(),
    ;

    /// Moves the oldest buffered bytes to the front of `buf` and returns how
    /// many were moved; the rest of `buf` keeps its contents.
    fn read_bytes(&mut self, buf: &mut [u8]) -> (count: usize)
        ensures
            count == read_count(old(buf)@.len(), old(self).buffered().len()),
            final(buf)@ == old(self).buffered().take(count as int) + old(buf)@.skip(count as int),
            final(self).buffered() == old(self).buffered().skip(count as int),
            final(self).limit() == old(self).limit(),
            final(self).interrupt_capable() == old(self).interrupt_capable(),
    ;

    fn supports_interrupts(&self) -> (capable: bool)
        ensures
            capable == self.interrupt_capable(),
    ;
}

/// An interrupt controller.
pub trait IrqIf {
    /// Whether any line has been enabled.
    spec fn any_enabled(&self) -> bool;

    /// The line that was touched last.
    spec fn last_line(&self) -> u32;

    /// Marks `irq` active and remembers it as the line touched last.
    fn enable(&mut self, irq: u32)
        ensures
            final(self).any_enabled(),
            final(self).last_line() == irq,
    ;

    /// Records that `irq` was serviced; enables nothing.
    fn acknowledge(&mut self, irq: u32)
        ensures
            final(self).any_enabled() == old(self).any_enabled(),
            final(self).last_line() == irq,
    ;
}

/// A forward-only allocator of DMA regions.
pub trait MemIf: Sized {
    /// The lowest address not handed out yet.
    spec fn cursor(&self) -> int;

    /// What a backend adds to the contract of `dma_alloc`: whether `after` and
    /// `granted` are a state and an answer that a request for `bytes` bytes
    /// at `align` can lead to from this state.
    spec fn alloc_effect(&self, after: &Self, bytes: usize, align: usize, granted: Option<DmaRegion>) -> bool;

    /// Serves a request from the first aligned address at or above the cursor
    /// and moves the cursor past the region, or refuses and moves nothing.
    fn dma_alloc(&mut self, bytes: usize, align: usize) -> (granted: Option<DmaRegion>)
        ensures
            match granted {
                Some(region) => {
                    &&& region.wf()
                    &&& region.paddr == align_up(old(self).cursor(), effective_align(align))
                    &&& region.size == bytes
                    &&& region.align == effective_align(align)
                    &&& final(self).cursor() == region.end()
                },
                None => final(self).cursor() == old(self).cursor(),
            },
            old(self).alloc_effect(final(self), bytes, align, granted),
    ;

    /// A coherency hint; it changes nothing that this interface shows.
    fn dma_flush(&self, region: &DmaRegion);
}

} // verus!
