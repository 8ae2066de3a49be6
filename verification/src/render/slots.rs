//! The small vectors a render target keeps per back buffer.
//!
//! A render target has one view slot and one buffer per frame in flight, so
//! both lists fit inline in a `SmallVec` of `FRAME_COUNT` places. The
//! vector's code is not verified here: this module states what its methods do
//! to the sequence of items, and the rest of the crate is proved against those
//! statements.

use smallvec::SmallVec;
use vstd::prelude::*;

verus! {

/// A list of at most a few addresses, one per frame in flight, kept in a
/// `smallvec::SmallVec` with two inline places. The vector's inside is not
/// looked into.
#[verifier::external_body]
pub struct FrameSlots {
    inner: SmallVec<[usize; 2]>,
}

/// The items of a list, first to last.
pub uninterp spec fn slots_view(slots: FrameSlots) -> Seq<usize>;

/// `SmallVec::new`: a list without items.
#[verifier::external_body]
pub(crate) fn slots_new() -> (slots: FrameSlots)
    ensures
        slots_view(slots) == Seq::<usize>::empty(),
{
    FrameSlots { inner: SmallVec::new() }
}

/// `SmallVec::len`: the number of items.
#[verifier::external_body]
pub(crate) fn slots_len(slots: &FrameSlots) -> (len: usize)
    ensures
        len == slots_view(*slots).len(),
{
    slots.inner.len()
}

/// `SmallVec::push` while the list is within its inline places: the item is
/// appended, the others stay. With a place free the vector neither allocates
/// nor fails.
#[verifier::external_body]
pub(crate) fn slots_push(slots: &mut FrameSlots, item: usize)
    requires
        slots_view(*old(slots)).len() < 2,
    ensures
        slots_view(*final(slots)) == slots_view(*old(slots)).push(item),
{
    slots.inner.push(item)
}

/// Indexing a `SmallVec` within its length: the item at `index`.
#[verifier::external_body]
pub(crate) fn slots_get(slots: &FrameSlots, index: usize) -> (item: usize)
    requires
        index < slots_view(*slots).len(),
    ensures
        item == slots_view(*slots)[index as int],
{
    slots.inner[index]
}

/// Assigning through `IndexMut` within the length: the item at `index` is
/// replaced, the others stay.
#[verifier::external_body]
pub(crate) fn slots_set(slots: &mut FrameSlots, index: usize, item: usize)
    requires
        index < slots_view(*old(slots)).len(),
    ensures
        slots_view(*final(slots)) == slots_view(*old(slots)).update(index as int, item),
{
    slots.inner[index] = item;
}

/// `SmallVec::clear`: all items are removed.
#[verifier::external_body]
pub(crate) fn slots_clear(slots: &mut FrameSlots)
    ensures
        slots_view(*final(slots)) == Seq::<usize>::empty(),
{
    slots.inner.clear()
}

} // verus!
