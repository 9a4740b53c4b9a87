//! The fixed-capacity collection that holds one descriptor's frame-rate
//! ranges, and what is taken on trust about it.

use arrayvec::ArrayVec;
use vstd::prelude::*;

use crate::types::{FrameRateRange, MAX_FRAME_RATE_RANGES};

verus! {

/// `arrayvec::ArrayVec`, a vector of at most `CAP` items that are stored
/// inline. Nothing is known of a value but what the functions below state.
#[verifier::external_type_specification]
#[verifier::external_body]
#[verifier::reject_recursive_types(T)]
pub struct ExArrayVec<T, const CAP: usize>(ArrayVec<T, CAP>);

/// The ranges that a chunk holds, first pushed first.
pub uninterp spec fn chunk_items(chunk: ArrayVec<FrameRateRange, MAX_FRAME_RATE_RANGES>) -> Seq<
    FrameRateRange,
>;

/// `ArrayVec::new`: a chunk that holds nothing. The capacity is far below
/// the crate's limit on capacities, so the call cannot panic.
#[verifier::external_body]
pub(crate) fn chunk_new() -> (chunk: ArrayVec<FrameRateRange, MAX_FRAME_RATE_RANGES>)
    ensures
        chunk_items(chunk) == Seq::<FrameRateRange>::empty(),
{
    ArrayVec::new()
}

/// `ArrayVec::push`: appends one range behind those already held. The crate
/// panics on a full vector, which the precondition leaves out.
#[verifier::external_body]
pub(crate) fn chunk_push(
    chunk: &mut ArrayVec<FrameRateRange, MAX_FRAME_RATE_RANGES>,
    range: FrameRateRange,
)
    requires
        chunk_items(*old(chunk)).len() < MAX_FRAME_RATE_RANGES,
    ensures
        chunk_items(*final(chunk)) == chunk_items(*old(chunk)).push(range),
{
    chunk.push(range)
}

/// `ArrayVec::is_full`: whether the length has reached the capacity.
#[verifier::external_body]
pub(crate) fn chunk_is_full(chunk: &ArrayVec<FrameRateRange, MAX_FRAME_RATE_RANGES>) -> (full:
    bool)
    ensures
        full == (chunk_items(*chunk).len() == MAX_FRAME_RATE_RANGES),
{
    chunk.is_full()
}

/// `ArrayVec::is_empty`: whether the length is zero.
#[verifier::external_body]
pub(crate) fn chunk_is_empty(chunk: &ArrayVec<FrameRateRange, MAX_FRAME_RATE_RANGES>) -> (empty:
    bool)
    ensures
        empty == (chunk_items(*chunk).len() == 0),
{
    chunk.is_empty()
}

/// `ArrayVec::as_slice`: the held ranges in order, borrowed. A vector never
/// holds more than its capacity.
#[verifier::external_body]
pub(crate) fn chunk_as_slice(chunk: &ArrayVec<FrameRateRange, MAX_FRAME_RATE_RANGES>) -> (items:
    &[FrameRateRange])
    ensures
        items@ == chunk_items(*chunk),
        items@.len() <= MAX_FRAME_RATE_RANGES,
{
    chunk.as_slice()
}

/// `ArrayVec::clone`: a vector of the same ranges in the same order (each
/// item is cloned in turn, and a range is a plain copy).
#[verifier::external_body]
pub(crate) fn chunk_clone(chunk: &ArrayVec<FrameRateRange, MAX_FRAME_RATE_RANGES>) -> (copy:
    ArrayVec<FrameRateRange, MAX_FRAME_RATE_RANGES>)
    ensures
        chunk_items(copy) == chunk_items(*chunk),
{
    chunk.clone()
}

} // verus!
