//! Short lists of numbers.

use vstd::prelude::*;

verus! {

/// A `smallvec::SmallVec` of numbers.
#[verifier::external_body]
pub struct IndexList {
    items: smallvec::SmallVec<[usize; 4]>,
}

/// What a short list holds.
pub uninterp spec fn listed(list: IndexList) -> Seq<usize>;

impl View for IndexList {
    type V = Seq<usize>;

    open spec fn view(&self) -> Seq<usize> {
        listed(*self)
    }
}

/// Calls `smallvec::SmallVec::new`: the list holds nothing.
#[verifier::external_body]
pub(crate) fn new_index_list() -> (list: IndexList)
    ensures
        listed(list).len() == 0,
{
    IndexList { items: smallvec::SmallVec::new() }
}

/// Calls `smallvec::SmallVec::push`: the number comes behind those that are there.
#[verifier::external_body]
pub(crate) fn push_index(list: &mut IndexList, index: usize)
    ensures
        listed(*final(list)) == listed(*old(list)).push(index),
{
    list.items.push(index);
}

/// Calls `smallvec::SmallVec::len`: how many numbers the list holds.
#[verifier::external_body]
pub(crate) fn index_count(list: &IndexList) -> (count: usize)
    ensures
        count == listed(*list).len(),
{
    list.items.len()
}

/// Reads through the `Index` of `smallvec::SmallVec`: the number at a place in the list.
#[verifier::external_body]
pub(crate) fn index_at(list: &IndexList, place: usize) -> (index: usize)
    requires
        place < listed(*list).len(),
    ensures
        index == listed(*list)[place as int],
{
    list.items[place]
}

} // verus!
