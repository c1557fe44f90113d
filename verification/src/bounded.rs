//! Fixed-capacity vectors from `heapless`, as the rest of the crate sees them.
//!
//! Each vector is described by the sequence of items it holds. Nothing in this
//! file is proved: every contract restates what `heapless::Vec` does.

use vstd::prelude::*;
use crate::api::DmaRegion;
use crate::driver::DriverSummary;
use crate::mock::log::LogEvent;

verus! {

/// `heapless::Vec<T, N>`: a vector of at most `N` items that lives in place.
/// Its contents are opaque here; the functions below say what it holds.
#[verifier::external_type_specification]
#[verifier::external_body]
#[verifier::reject_recursive_types(T)]
pub struct ExBoundedVec<T, const N: usize>(heapless::Vec<T, N>);

/// The items held by a vector of driver summaries, first pushed first.
pub uninterp spec fn summary_items(v: heapless::Vec<DriverSummary, 8>) -> Seq<DriverSummary>;

/// `heapless::Vec::new`: the new vector holds nothing.
#[verifier::external_body]
pub(crate) fn summaries_new() -> (v: heapless::Vec<DriverSummary, 8>)
    ensures
        summary_items(v) == Seq::<DriverSummary>::empty(),
{
    heapless::Vec::new()
}

/// `heapless::Vec::push`: below capacity the item is appended; at capacity the
/// vector is left as it was and the item is handed back.
#[verifier::external_body]
pub(crate) fn summaries_push(v: &mut heapless::Vec<DriverSummary, 8>, item: DriverSummary) -> (r: Result<(), DriverSummary>)
    ensures
        r == (if summary_items(*old(v)).len() < 8 { Ok(()) } else { Err(item) }),
        summary_items(*final(v)) == (if summary_items(*old(v)).len() < 8 {
            summary_items(*old(v)).push(item)
        } else {
            summary_items(*old(v))
        }),
{
    v.push(item)
}

/// `heapless::Vec::as_slice`: the slice holds the vector's items in order.
#[verifier::external_body]
pub(crate) fn summaries_slice(v: &heapless::Vec<DriverSummary, 8>) -> (s: &[DriverSummary])
    ensures
        s@ == summary_items(*v),
{
    v.as_slice()
}

/// `heapless::Vec::clear`: the vector holds nothing afterwards.
#[verifier::external_body]
pub(crate) fn summaries_clear(v: &mut heapless::Vec<DriverSummary, 8>)
    ensures
        summary_items(*final(v)) == Seq::<DriverSummary>::empty(),
{
    v.clear()
}

/// The items held by a vector of console bytes, first pushed first.
pub uninterp spec fn byte_items(v: heapless::Vec<u8, 256>) -> Seq<u8>;

/// `heapless::Vec::new`: the new vector holds nothing.
#[verifier::external_body]
pub(crate) fn bytes_new() -> (v: heapless::Vec<u8, 256>)
    ensures
        byte_items(v) == Seq::<u8>::empty(),
{
    heapless::Vec::new()
}

/// `heapless::Vec::push`: below capacity the item is appended; at capacity the
/// vector is left as it was and the item is handed back.
#[verifier::external_body]
pub(crate) fn bytes_push(v: &mut heapless::Vec<u8, 256>, item: u8) -> (r: Result<(), u8>)
    ensures
        r == (if byte_items(*old(v)).len() < 256 { Ok(()) } else { Err(item) }),
        byte_items(*final(v)) == (if byte_items(*old(v)).len() < 256 {
            byte_items(*old(v)).push(item)
        } else {
            byte_items(*old(v))
        }),
{
    v.push(item)
}

/// `heapless::Vec::as_slice`: the slice holds the vector's items in order.
#[verifier::external_body]
pub(crate) fn bytes_slice(v: &heapless::Vec<u8, 256>) -> (s: &[u8])
    ensures
        s@ == byte_items(*v),
{
    v.as_slice()
}

/// `heapless::Vec::remove`: takes out the item at `index` and closes the gap.
/// The outside function panics on an index past the end.
#[verifier::external_body]
pub(crate) fn bytes_remove(v: &mut heapless::Vec<u8, 256>, index: usize) -> (item: u8)
    requires
        index < byte_items(*old(v)).len(),
    ensures
        item == byte_items(*old(v))[index as int],
        byte_items(*final(v)) == byte_items(*old(v)).remove(index as int),
{
    v.remove(index)
}

/// `Clone` of `heapless::Vec`: the copy holds the same items in the same order.
#[verifier::external_body]
pub(crate) fn bytes_clone(v: &heapless::Vec<u8, 256>) -> (copy: heapless::Vec<u8, 256>)
    ensures
        byte_items(copy) == byte_items(*v),
{
    v.clone()
}

/// `heapless::Vec::clear`: the vector holds nothing afterwards.
#[verifier::external_body]
pub(crate) fn bytes_clear(v: &mut heapless::Vec<u8, 256>)
    ensures
        byte_items(*final(v)) == Seq::<u8>::empty(),
{
    v.clear()
}

/// The items held by a vector of lifecycle events, first pushed first.
pub uninterp spec fn event_items(v: heapless::Vec<LogEvent, 32>) -> Seq<LogEvent>;

/// `heapless::Vec::new`: the new vector holds nothing.
#[verifier::external_body]
pub(crate) fn events_new() -> (v: heapless::Vec<LogEvent, 32>)
    ensures
        event_items(v) == Seq::<LogEvent>::empty(),
{
    heapless::Vec::new()
}

/// `heapless::Vec::push`: below capacity the item is appended; at capacity the
/// vector is left as it was and the item is handed back.
#[verifier::external_body]
pub(crate) fn events_push(v: &mut heapless::Vec<LogEvent, 32>, item: LogEvent) -> (r: Result<(), LogEvent>)
    ensures
        r == (if event_items(*old(v)).len() < 32 { Ok(()) } else { Err(item) }),
        event_items(*final(v)) == (if event_items(*old(v)).len() < 32 {
            event_items(*old(v)).push(item)
        } else {
            event_items(*old(v))
        }),
{
    v.push(item)
}

/// `Clone` of `heapless::Vec`: the copy holds the same items in the same order.
#[verifier::external_body]
pub(crate) fn events_clone(v: &heapless::Vec<LogEvent, 32>) -> (copy: heapless::Vec<LogEvent, 32>)
    ensures
        event_items(copy) == event_items(*v),
{
    v.clone()
}

/// `heapless::Vec::clear`: the vector holds nothing afterwards.
#[verifier::external_body]
pub(crate) fn events_clear(v: &mut heapless::Vec<LogEvent, 32>)
    ensures
        event_items(*final(v)) == Seq::<LogEvent>::empty(),
{
    v.clear()
}

/// The items held by a vector of DMA regions, first pushed first.
pub uninterp spec fn region_items(v: heapless::Vec<DmaRegion, 16>) -> Seq<DmaRegion>;

/// `heapless::Vec::new`: the new vector holds nothing.
#[verifier::external_body]
pub(crate) fn regions_new() -> (v: heapless::Vec<DmaRegion, 16>)
    ensures
        region_items(v) == Seq::<DmaRegion>::empty(),
{
    heapless::Vec::new()
}

/// `heapless::Vec::push`: below capacity the item is appended; at capacity the
/// vector is left as it was and the item is handed back.
#[verifier::external_body]
pub(crate) fn regions_push(v: &mut heapless::Vec<DmaRegion, 16>, item: DmaRegion) -> (r: Result<(), DmaRegion>)
    ensures
        r == (if region_items(*old(v)).len() < 16 { Ok(()) } else { Err(item) }),
        region_items(*final(v)) == (if region_items(*old(v)).len() < 16 {
            region_items(*old(v)).push(item)
        } else {
            region_items(*old(v))
        }),
{
    v.push(item)
}

/// `Clone` of `heapless::Vec`: the copy holds the same items in the same order.
#[verifier::external_body]
pub(crate) fn regions_clone(v: &heapless::Vec<DmaRegion, 16>) -> (copy: heapless::Vec<DmaRegion, 16>)
    ensures
        region_items(copy) == region_items(*v),
{
    v.clone()
}

/// `heapless::Vec::clear`: the vector holds nothing afterwards.
#[verifier::external_body]
pub(crate) fn regions_clear(v: &mut heapless::Vec<DmaRegion, 16>)
    ensures
        region_items(*final(v)) == Seq::<DmaRegion>::empty(),
{
    v.clear()
}

/// Equality of two names, as `str`'s `==` decides it: the same characters in
/// the same order.
#[verifier::external_body]
pub(crate) fn same_name(a: &str, b: &str) -> (r: bool)
    ensures
        r == (a@ == b@),
{
    a == b
}

} // verus!
