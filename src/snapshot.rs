use vstd::prelude::*;
use crate::chunk::CHUNK_VOLUME;
use crate::coord::Coord;
use crate::state::AutomataState;
use crate::table::{
    BufferMap, IdMap, buffer_map_clear, buffer_map_contents, buffer_map_get, buffer_map_insert,
    buffer_map_new, id_map_clear, id_map_contents, id_map_get, id_map_insert, id_map_new,
    no_buffers, no_ids,
};

verus! {

/// The table that inserting `entries` in order builds: a later entry replaces an earlier one
/// with the same coordinate.
pub open spec fn entries_map(entries: Seq<(Coord, Vec<AutomataState>)>) -> Map<Coord, Seq<AutomataState>>
    decreases entries.len(),
{
    if entries.len() == 0 {
        Map::empty()
    } else {
        entries_map(entries.drop_last()).insert(entries.last().0, entries.last().1@)
    }
}

/// The index that inserting `entries` in order builds.
pub open spec fn id_entries_map(entries: Seq<(Coord, u64)>) -> Map<Coord, u64>
    decreases entries.len(),
{
    if entries.len() == 0 {
        Map::empty()
    } else {
        id_entries_map(entries.drop_last()).insert(entries.last().0, entries.last().1)
    }
}

/// Every buffer of the table holds one chunk's worth of voxels.
pub open spec fn buffers_sized(m: Map<Coord, Seq<AutomataState>>) -> bool {
    forall|c: Coord| #[trigger] m.contains_key(c) ==> m[c].len() == CHUNK_VOLUME
}

/// Read-only copy of every chunk's current voxels, keyed by chunk coordinate.
pub struct ChunkSnapshots {
    pub map: BufferMap,
}

impl View for ChunkSnapshots {
    type V = Map<Coord, Seq<AutomataState>>;

    open spec fn view(&self) -> Map<Coord, Seq<AutomataState>> {
        buffer_map_contents(self.map)
    }
}

impl ChunkSnapshots {
    pub open spec fn wf(&self) -> bool {
        buffers_sized(self@)
    }

    /// An empty table.
    pub fn new() -> (r: Self)
        ensures
            r.wf(),
            r@ == no_buffers(),
    {
        ChunkSnapshots { map: buffer_map_new() }
    }

    /// The buffer held for chunk coordinate `coords`, or `None` where no chunk is held.
    #[inline]
    pub fn get(&self, coords: Coord) -> (r: Option<&[AutomataState]>)
        ensures
            r.is_some() == self@.contains_key(coords),
            r matches Some(b) ==> b@ == self@[coords],
    {
        buffer_map_get(&self.map, &coords)
    }

    /// Replaces the whole table with `snapshots`, inserted in order.
    pub fn rebuild(&mut self, snapshots: Vec<(Coord, Vec<AutomataState>)>)
        requires
            forall|i: int| 0 <= i < snapshots@.len() ==> (#[trigger] snapshots@[i]).1@.len() == CHUNK_VOLUME,
        ensures
            final(self).wf(),
            final(self)@ == entries_map(snapshots@),
    {
        let ghost all = snapshots@;
        let total = snapshots.len();
        buffer_map_clear(&mut self.map);
        let mut rest = snapshots;
        let mut k: usize = 0;
        assert(all.subrange(0, 0) =~= Seq::<(Coord, Vec<AutomataState>)>::empty());
        assert(rest@ =~= all.subrange(0, all.len() as int));
        while rest.len() > 0
            invariant
                k <= all.len(),
                all.len() == total,
                rest@ == all.subrange(k as int, all.len() as int),
                self@ == entries_map(all.subrange(0, k as int)),
                buffers_sized(self@),
                forall|i: int| 0 <= i < all.len() ==> (#[trigger] all[i]).1@.len() == CHUNK_VOLUME,
            decreases rest.len(),
        {
            let (c, b) = rest.remove(0);
            assert(all[k as int] == (c, b));
            buffer_map_insert(&mut self.map, c, b);
            assert(all.subrange(0, k + 1).drop_last() =~= all.subrange(0, k as int));
            assert(rest@ =~= all.subrange(k + 1, all.len() as int));
            k += 1;
        }
        assert(all.subrange(0, k as int) =~= all);
    }
}

impl Default for ChunkSnapshots {
    fn default() -> (r: Self)
        ensures
            r.wf(),
            r@ == no_buffers(),
    {
        Self::new()
    }
}

/// Lookup from chunk coordinates to the id that the host gave the chunk.
pub struct ChunkIndex {
    pub map: IdMap,
}

impl View for ChunkIndex {
    type V = Map<Coord, u64>;

    open spec fn view(&self) -> Map<Coord, u64> {
        id_map_contents(self.map)
    }
}

impl ChunkIndex {
    /// An empty index.
    pub fn new() -> (r: Self)
        ensures
            r@ == no_ids(),
    {
        ChunkIndex { map: id_map_new() }
    }

    /// The id of the chunk at `coords`, if any.
    pub fn entity(&self, coords: Coord) -> (r: Option<u64>)
        ensures
            r.is_some() == self@.contains_key(coords),
            r matches Some(v) ==> v == self@[coords],
    {
        id_map_get(&self.map, &coords)
    }

    /// Replaces the whole index with `entries`, inserted in order.
    pub fn rebuild(&mut self, entries: Vec<(Coord, u64)>)
        ensures
            final(self)@ == id_entries_map(entries@),
    {
        id_map_clear(&mut self.map);
        let mut i: usize = 0;
        while i < entries.len()
            invariant
                i <= entries@.len(),
                self@ == id_entries_map(entries@.subrange(0, i as int)),
            decreases entries.len() - i,
        {
            let (c, v) = entries[i];
            id_map_insert(&mut self.map, c, v);
            assert(entries@.subrange(0, i + 1).drop_last() =~= entries@.subrange(0, i as int));
            i += 1;
        }
        assert(entries@.subrange(0, i as int) =~= entries@);
    }
}

impl Default for ChunkIndex {
    fn default() -> (r: Self)
        ensures
            r@ == no_ids(),
    {
        Self::new()
    }
}

} // verus!
