//! Maps from tags to places in a list.

use vstd::prelude::*;

verus! {

/// A `hashbrown::HashMap` from tags to places.
#[verifier::external_body]
pub struct TagMap {
    map: hashbrown::HashMap<u32, usize>,
}

/// What a map from tags holds.
pub uninterp spec fn places(map: TagMap) -> Map<u32, usize>;

/// Calls `hashbrown::HashMap::new`: the map holds nothing.
#[verifier::external_body]
pub(crate) fn new_tag_map() -> (created: TagMap)
    ensures
        forall|tag: u32| !places(created).contains_key(tag),
{
    TagMap { map: hashbrown::HashMap::new() }
}

/// Calls `hashbrown::HashMap::get`: the place of a tag, or `None` where the map
/// does not hold the tag.
#[verifier::external_body]
pub(crate) fn place_of(map: &TagMap, tag: u32) -> (place: Option<usize>)
    ensures
        place == if places(*map).contains_key(tag) {
            Some(places(*map)[tag])
        } else {
            None
        },
{
    map.map.get(&tag).copied()
}

/// Calls `hashbrown::HashMap::insert`: the tag gets the place, in place of the
/// one it had, and nothing else changes. What the call returns is dropped.
#[verifier::external_body]
pub(crate) fn put_place(map: &mut TagMap, tag: u32, place: usize)
    ensures
        places(*final(map)) == places(*old(map)).insert(tag, place),
{
    map.map.insert(tag, place);
}

/// Calls `hashbrown::HashMap::remove`: the tag leaves the map, if it was there,
/// and nothing else changes. What the call returns is dropped.
#[verifier::external_body]
pub(crate) fn remove_place(map: &mut TagMap, tag: u32)
    ensures
        places(*final(map)) == places(*old(map)).remove(tag),
{
    map.map.remove(&tag);
}

} // verus!
