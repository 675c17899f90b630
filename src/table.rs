use vstd::prelude::*;
use bevy::utils::HashMap;
use crate::coord::Coord;
use crate::state::AutomataState;

verus! {

/// Chunk coordinates to voxel buffers, in bevy's `HashMap`.
#[verifier::external_body]
pub struct BufferMap {
    map: HashMap<Coord, Vec<AutomataState>>,
}

/// What a `BufferMap` holds: each key with the contents of its buffer.
pub uninterp spec fn buffer_map_contents(m: BufferMap) -> Map<Coord, Seq<AutomataState>>;

/// The contents of a map without entries.
pub open spec fn no_buffers() -> Map<Coord, Seq<AutomataState>> {
    Map::empty()
}

/// Relies on `HashMap::default`: a new map holds no entries.
#[verifier::external_body]
pub(crate) fn buffer_map_new() -> (r: BufferMap)
    ensures
        buffer_map_contents(r) == no_buffers(),
{
    BufferMap { map: HashMap::default() }
}

/// Relies on hashbrown's `HashMap::clear`: every entry is removed.
#[verifier::external_body]
pub(crate) fn buffer_map_clear(m: &mut BufferMap)
    ensures
        buffer_map_contents(*final(m)) == no_buffers(),
{
    m.map.clear();
}

/// Relies on hashbrown's `HashMap::insert`: `k` now maps to `v`, replacing any earlier value;
/// other keys keep theirs.
#[verifier::external_body]
pub(crate) fn buffer_map_insert(m: &mut BufferMap, k: Coord, v: Vec<AutomataState>)
    ensures
        buffer_map_contents(*final(m)) == buffer_map_contents(*old(m)).insert(k, v@),
{
    m.map.insert(k, v);
}

/// Relies on hashbrown's `HashMap::get`: the value stored under `k`, if any.
#[verifier::external_body]
pub(crate) fn buffer_map_get<'a>(m: &'a BufferMap, k: &Coord) -> (r: Option<&'a [AutomataState]>)
    ensures
        r.is_some() == buffer_map_contents(*m).contains_key(*k),
        r matches Some(b) ==> b@ == buffer_map_contents(*m)[*k],
{
    m.map.get(k).map(|v| v.as_slice())
}

/// Chunk coordinates to the ids that the host gave the chunks, in bevy's `HashMap`.
#[verifier::external_body]
pub struct IdMap {
    map: HashMap<Coord, u64>,
}

/// What an `IdMap` holds.
pub uninterp spec fn id_map_contents(m: IdMap) -> Map<Coord, u64>;

/// The contents of a map without entries.
pub open spec fn no_ids() -> Map<Coord, u64> {
    Map::empty()
}

/// Relies on `HashMap::default`: a new map holds no entries.
#[verifier::external_body]
pub(crate) fn id_map_new() -> (r: IdMap)
    ensures
        id_map_contents(r) == no_ids(),
{
    IdMap { map: HashMap::default() }
}

/// Relies on hashbrown's `HashMap::clear`: every entry is removed.
#[verifier::external_body]
pub(crate) fn id_map_clear(m: &mut IdMap)
    ensures
        id_map_contents(*final(m)) == no_ids(),
{
    m.map.clear();
}

/// Relies on hashbrown's `HashMap::insert`: `k` now maps to `v`, replacing any earlier value;
/// other keys keep theirs.
#[verifier::external_body]
pub(crate) fn id_map_insert(m: &mut IdMap, k: Coord, v: u64)
    ensures
        id_map_contents(*final(m)) == id_map_contents(*old(m)).insert(k, v),
{
    m.map.insert(k, v);
}

/// Relies on hashbrown's `HashMap::get`: the value stored under `k`, if any.
#[verifier::external_body]
pub(crate) fn id_map_get(m: &IdMap, k: &Coord) -> (r: Option<u64>)
    ensures
        r.is_some() == id_map_contents(*m).contains_key(*k),
        r matches Some(v) ==> v == id_map_contents(*m)[*k],
{
    m.map.get(k).copied()
}

} // verus!
