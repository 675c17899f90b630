use vstd::prelude::*;
use crate::chunk::{
    ChunkBundle, ChunkCells, ChunkCellsNext, CHUNK_VOLUME, copy_buffer, in_edge, linear, linear_index,
    uniform_buffer,
};
use crate::coord::Coord;
use crate::rule::AutomataRule;
use crate::snapshot::{ChunkSnapshots, entries_map};
use crate::state::AutomataState;

verus! {

/// The chunk coordinate on one axis after stepping to local position `l`, which may lie one
/// chunk outside `[0, 32)`.
pub open spec fn wrap_chunk(c: int, l: int) -> int {
    if l < 0 {
        c - 1
    } else if l >= 32 {
        c + 1
    } else {
        c
    }
}

/// The local position `l` brought back into `[0, 32)` of the chunk it falls in.
pub open spec fn wrap_local(l: int) -> int {
    if l < 0 {
        l + 32
    } else if l >= 32 {
        l - 32
    } else {
        l
    }
}

/// Whether a chunk coordinate can be represented; no chunk lies beyond.
pub open spec fn fits_i32(v: int) -> bool {
    i32::MIN <= v <= i32::MAX
}

/// The voxel at local position `(lx, ly, lz)` relative to chunk `chunk`, read from the table
/// `snap`; `None` where no chunk is held there.
pub open spec fn spec_sample(
    snap: Map<Coord, Seq<AutomataState>>,
    chunk: Coord,
    lx: int,
    ly: int,
    lz: int,
) -> Option<AutomataState> {
    let cx = wrap_chunk(chunk.x as int, lx);
    let cy = wrap_chunk(chunk.y as int, ly);
    let cz = wrap_chunk(chunk.z as int, lz);
    if fits_i32(cx) && fits_i32(cy) && fits_i32(cz) {
        let c = Coord { x: cx as i32, y: cy as i32, z: cz as i32 };
        if snap.contains_key(c) {
            Some(snap[c][linear(wrap_local(lx), wrap_local(ly), wrap_local(lz))])
        } else {
            None
        }
    } else {
        None
    }
}

/// Whether the neighbor at offset number `k` (of the 27 offsets in `{-1, 0, 1}^3`, x slowest;
/// number 13 is the voxel itself) is a live voxel.
pub open spec fn offset_alive(snap: Map<Coord, Seq<AutomataState>>, chunk: Coord, l: Coord, k: int) -> bool {
    k != 13 && match spec_sample(
        snap,
        chunk,
        l.x + k / 9 - 1,
        l.y + (k / 3) % 3 - 1,
        l.z + k % 3 - 1,
    ) {
        Some(v) => v.spec_is_alive(),
        None => false,
    }
}

/// How many of the first `k` offsets hold a live voxel.
pub open spec fn count_upto(snap: Map<Coord, Seq<AutomataState>>, chunk: Coord, l: Coord, k: int) -> int
    decreases k,
{
    if k <= 0 {
        0
    } else {
        count_upto(snap, chunk, l, k - 1) + if offset_alive(snap, chunk, l, k - 1) {
            1int
        } else {
            0int
        }
    }
}

/// Number of live voxels among the 26 neighbors of local voxel `l` of chunk `chunk`.
pub open spec fn neighbor_count(snap: Map<Coord, Seq<AutomataState>>, chunk: Coord, l: Coord) -> int {
    count_upto(snap, chunk, l, 27)
}

/// The next state of local voxel `(x, y, z)` of the chunk at `coords`, whose own voxels are `src`.
pub open spec fn stepped(
    rule: AutomataRule,
    snap: Map<Coord, Seq<AutomataState>>,
    coords: Coord,
    src: Seq<AutomataState>,
    x: int,
    y: int,
    z: int,
) -> AutomataState {
    rule.spec_next_state(
        src[linear(x, y, z)],
        neighbor_count(snap, coords, Coord { x: x as i32, y: y as i32, z: z as i32 }) as u8,
    )
}

/// The voxels a chunk is evaluated from: its snapshot, or its live voxels where it has none.
pub open spec fn step_source(snap: Map<Coord, Seq<AutomataState>>, b: ChunkBundle) -> Seq<AutomataState> {
    if snap.contains_key(b.key.coords) {
        snap[b.key.coords]
    } else {
        b.cells@
    }
}

/// Steps one axis: the neighbor chunk's coordinate, if it fits, and the wrapped local position.
fn wrap_axis(c: i32, l: i32) -> (r: (bool, i32, i32))
    requires
        -32 <= l < 64,
    ensures
        r.0 == fits_i32(wrap_chunk(c as int, l as int)),
        r.0 ==> r.1 == wrap_chunk(c as int, l as int),
        r.2 == wrap_local(l as int),
{
    if l < 0 {
        if c == i32::MIN {
            (false, c, l + 32)
        } else {
            (true, c - 1, l + 32)
        }
    } else if l >= 32 {
        if c == i32::MAX {
            (false, c, l - 32)
        } else {
            (true, c + 1, l - 32)
        }
    } else {
        (true, c, l)
    }
}

/// The voxel at `local` relative to chunk `chunk_coords`, crossing into a neighbor chunk when
/// `local` lies outside the chunk; `None` where the table holds no chunk there.
pub fn sample_cell(snapshots: &ChunkSnapshots, chunk_coords: Coord, local: Coord) -> (r: Option<AutomataState>)
    requires
        snapshots.wf(),
        -32 <= local.x < 64,
        -32 <= local.y < 64,
        -32 <= local.z < 64,
    ensures
        r == spec_sample(snapshots@, chunk_coords, local.x as int, local.y as int, local.z as int),
{
    let (okx, cx, lx) = wrap_axis(chunk_coords.x, local.x);
    let (oky, cy, ly) = wrap_axis(chunk_coords.y, local.y);
    let (okz, cz, lz) = wrap_axis(chunk_coords.z, local.z);
    if !(okx && oky && okz) {
        return None;
    }
    let neighbor = Coord { x: cx, y: cy, z: cz };
    match snapshots.get(neighbor) {
        Some(chunk) => {
            let wrapped = Coord { x: lx, y: ly, z: lz };
            Some(chunk[linear_index(wrapped)])
        },
        None => None,
    }
}

/// Number of live voxels among the 26 neighbors of `local` in chunk `chunk_coords`, reading
/// neighbor chunks from the table; an absent chunk contributes nothing.
pub fn count_active_neighbors(snapshots: &ChunkSnapshots, chunk_coords: Coord, local: Coord) -> (r: u8)
    requires
        snapshots.wf(),
        -31 <= local.x < 63,
        -31 <= local.y < 63,
        -31 <= local.z < 63,
    ensures
        r as int == neighbor_count(snapshots@, chunk_coords, local),
        r <= 26,
{
    let mut count: u8 = 0;
    let mut k: u32 = 0;
    while k < 27
        invariant
            k <= 27,
            snapshots.wf(),
            -31 <= local.x < 63,
            -31 <= local.y < 63,
            -31 <= local.z < 63,
            count as int == count_upto(snapshots@, chunk_coords, local, k as int),
            count as int <= if k > 13 { k as int - 1 } else { k as int },
        decreases 27 - k,
    {
        if k != 13 {
            let dx = (k / 9) as i32 - 1;
            let dy = ((k / 3) % 3) as i32 - 1;
            let dz = (k % 3) as i32 - 1;
            let at = Coord { x: local.x + dx, y: local.y + dy, z: local.z + dz };
            match sample_cell(snapshots, chunk_coords, at) {
                Some(value) => {
                    if value.is_alive() {
                        count = count + 1;
                    }
                },
                None => {},
            }
        }
        k += 1;
    }
    count
}

/// Distinct local voxels have distinct buffer positions.
proof fn lemma_linear_unique()
    ensures
        forall|a: int, b: int, d: int, x: int, y: int, z: int|
            in_edge(a) && in_edge(b) && in_edge(d) && in_edge(x) && in_edge(y) && in_edge(z)
                && #[trigger] linear(a, b, d) == #[trigger] linear(x, y, z) ==> a == x && b == y && d == z,
{
}

/// Evaluates the rule on every voxel of the chunk at `coords`, whose own voxels are
/// `current_chunk`, writing each next state into `output` at the voxel's position.
pub fn step_chunk(
    current_chunk: &[AutomataState],
    coords: Coord,
    snapshots: &ChunkSnapshots,
    rule: &AutomataRule,
    output: &mut Vec<AutomataState>,
)
    requires
        current_chunk@.len() == CHUNK_VOLUME,
        old(output)@.len() == CHUNK_VOLUME,
        snapshots.wf(),
    ensures
        final(output)@.len() == CHUNK_VOLUME,
        forall|x: int, y: int, z: int|
            in_edge(x) && in_edge(y) && in_edge(z) ==> #[trigger] final(output)@[linear(x, y, z)]
                == stepped(*rule, snapshots@, coords, current_chunk@, x, y, z),
{
    proof {
        lemma_linear_unique();
    }
    let mut x: i32 = 0;
    while x < 32
        invariant
            0 <= x <= 32,
            current_chunk@.len() == CHUNK_VOLUME,
            output@.len() == CHUNK_VOLUME,
            snapshots.wf(),
            forall|a: int, b: int, d: int|
                in_edge(a) && in_edge(b) && in_edge(d) && linear(a, b, d) < linear(x as int, 0, 0)
                    ==> #[trigger] output@[linear(a, b, d)]
                    == stepped(*rule, snapshots@, coords, current_chunk@, a, b, d),
        decreases 32 - x,
    {
        let mut y: i32 = 0;
        while y < 32
            invariant
                0 <= x < 32,
                0 <= y <= 32,
                current_chunk@.len() == CHUNK_VOLUME,
                output@.len() == CHUNK_VOLUME,
                snapshots.wf(),
                forall|a: int, b: int, d: int|
                    in_edge(a) && in_edge(b) && in_edge(d) && linear(a, b, d) < linear(x as int, y as int, 0)
                        ==> #[trigger] output@[linear(a, b, d)]
                        == stepped(*rule, snapshots@, coords, current_chunk@, a, b, d),
            decreases 32 - y,
        {
            let mut z: i32 = 0;
            while z < 32
                invariant
                    0 <= x < 32,
                    0 <= y < 32,
                    0 <= z <= 32,
                    current_chunk@.len() == CHUNK_VOLUME,
                    output@.len() == CHUNK_VOLUME,
                    snapshots.wf(),
                    forall|a: int, b: int, d: int|
                        in_edge(a) && in_edge(b) && in_edge(d) && linear(a, b, d) < linear(
                            x as int,
                            y as int,
                            z as int,
                        ) ==> #[trigger] output@[linear(a, b, d)]
                            == stepped(*rule, snapshots@, coords, current_chunk@, a, b, d),
                decreases 32 - z,
            {
                let local = Coord { x, y, z };
                let idx = linear_index(local);
                let neighbors = count_active_neighbors(snapshots, coords, local);
                let current = current_chunk[idx];
                let next = rule.next_state(current, neighbors);
                output.set(idx, next);
                z += 1;
            }
            y += 1;
        }
        x += 1;
    }
}

/// The table that snapshotting `chunks` in order builds: each chunk's coordinates to its
/// current voxels, a later chunk replacing an earlier one at the same coordinates.
pub open spec fn chunks_snapshot(chunks: Seq<ChunkBundle>) -> Map<Coord, Seq<AutomataState>>
    decreases chunks.len(),
{
    if chunks.len() == 0 {
        Map::empty()
    } else {
        chunks_snapshot(chunks.drop_last()).insert(chunks.last().key.coords, chunks.last().cells@)
    }
}

/// Snapshot phase: where a step was requested, replaces the table with a copy of every chunk's
/// current voxels keyed by its coordinates, in chunk order; otherwise leaves it as it is.
pub fn snapshot_chunks(snapshots: &mut ChunkSnapshots, chunks: &Vec<ChunkBundle>, steps_requested: u32)
    requires
        forall|i: int| 0 <= i < chunks@.len() ==> (#[trigger] chunks@[i]).wf(),
        old(snapshots).wf(),
    ensures
        final(snapshots).wf(),
        steps_requested == 0 ==> final(snapshots)@ == old(snapshots)@,
        steps_requested != 0 ==> final(snapshots)@ == chunks_snapshot(chunks@),
{
    if steps_requested == 0 {
        return;
    }
    let mut entries: Vec<(Coord, Vec<AutomataState>)> = Vec::with_capacity(chunks.len());
    let mut i: usize = 0;
    while i < chunks.len()
        invariant
            i <= chunks@.len(),
            entries@.len() == i,
            forall|j: int| 0 <= j < chunks@.len() ==> (#[trigger] chunks@[j]).wf(),
            forall|j: int| 0 <= j < i ==> (#[trigger] entries@[j]).1@.len() == CHUNK_VOLUME,
            entries_map(entries@) == chunks_snapshot(chunks@.subrange(0, i as int)),
        decreases chunks.len() - i,
    {
        let copy = chunks[i].cells.clone_box();
        let ghost before = entries@;
        entries.push((chunks[i].key.coords, copy));
        assert(entries@.drop_last() =~= before);
        assert(chunks@.subrange(0, i + 1).drop_last() =~= chunks@.subrange(0, i as int));
        i += 1;
    }
    assert(chunks@.subrange(0, i as int) =~= chunks@);
    snapshots.rebuild(entries);
}

/// Puts `data` in as the scratch buffer of chunk `i`.
fn replace_next(chunks: &mut Vec<ChunkBundle>, i: usize, data: Vec<AutomataState>)
    requires
        i < old(chunks)@.len(),
    ensures
        final(chunks)@ == old(chunks)@.update(
            i as int,
            ChunkBundle { next: ChunkCellsNext { data }, ..old(chunks)@[i as int] },
        ),
{
    let b = &mut chunks[i];
    b.next = ChunkCellsNext { data };
}

/// Puts `data` in as the current voxels of chunk `i`.
fn replace_cells(chunks: &mut Vec<ChunkBundle>, i: usize, data: Vec<AutomataState>)
    requires
        i < old(chunks)@.len(),
    ensures
        final(chunks)@ == old(chunks)@.update(
            i as int,
            ChunkBundle { cells: ChunkCells { data }, ..old(chunks)@[i as int] },
        ),
{
    let b = &mut chunks[i];
    b.cells = ChunkCells { data };
}

/// Evaluation phase: where a step was requested, writes into every chunk's scratch buffer the
/// next state of each of its voxels, evaluated from the chunk's snapshot (or its live voxels
/// where the table holds none) with neighbors read from the table. Returns whether a step ran;
/// where none was requested nothing changes.
pub fn step_chunks(
    chunks: &mut Vec<ChunkBundle>,
    snapshots: &ChunkSnapshots,
    rule: &AutomataRule,
    steps_requested: u32,
) -> (ran: bool)
    requires
        forall|i: int| 0 <= i < old(chunks)@.len() ==> (#[trigger] old(chunks)@[i]).wf(),
        snapshots.wf(),
    ensures
        ran == (steps_requested != 0),
        !ran ==> final(chunks)@ == old(chunks)@,
        final(chunks)@.len() == old(chunks)@.len(),
        forall|i: int| 0 <= i < final(chunks)@.len() ==> (#[trigger] final(chunks)@[i]).wf(),
        forall|i: int|
            0 <= i < final(chunks)@.len() ==> (#[trigger] final(chunks)@[i]).key == old(chunks)@[i].key
                && final(chunks)@[i].cells == old(chunks)@[i].cells,
        ran ==> forall|i: int, x: int, y: int, z: int|
            0 <= i < final(chunks)@.len() && in_edge(x) && in_edge(y) && in_edge(z)
                ==> #[trigger] final(chunks)@[i].next@[linear(x, y, z)] == stepped(
                *rule,
                snapshots@,
                old(chunks)@[i].key.coords,
                step_source(snapshots@, old(chunks)@[i]),
                x,
                y,
                z,
            ),
{
    if steps_requested == 0 {
        return false;
    }
    let mut i: usize = 0;
    while i < chunks.len()
        invariant
            i <= chunks@.len(),
            chunks@.len() == old(chunks)@.len(),
            snapshots.wf(),
            forall|j: int| 0 <= j < chunks@.len() ==> (#[trigger] chunks@[j]).wf(),
            forall|j: int|
                0 <= j < chunks@.len() ==> (#[trigger] chunks@[j]).key == old(chunks)@[j].key
                    && chunks@[j].cells == old(chunks)@[j].cells,
            forall|j: int| i <= j < chunks@.len() ==> #[trigger] chunks@[j] == old(chunks)@[j],
            forall|j: int, x: int, y: int, z: int|
                0 <= j < i && in_edge(x) && in_edge(y) && in_edge(z)
                    ==> #[trigger] chunks@[j].next@[linear(x, y, z)] == stepped(
                    *rule,
                    snapshots@,
                    old(chunks)@[j].key.coords,
                    step_source(snapshots@, old(chunks)@[j]),
                    x,
                    y,
                    z,
                ),
        decreases chunks.len() - i,
    {
        let coords = chunks[i].key.coords;
        let mut buffer = uniform_buffer(AutomataState { encoded: 0 }, CHUNK_VOLUME);
        match snapshots.get(coords) {
            Some(snapshot) => {
                step_chunk(snapshot, coords, snapshots, rule, &mut buffer);
            },
            None => {
                // No snapshot: the chunk appeared after the table was built.
                step_chunk(chunks[i].cells.as_slice(), coords, snapshots, rule, &mut buffer);
            },
        }
        replace_next(chunks, i, buffer);
        i += 1;
    }
    true
}

/// Commit phase: where a step executed, copies every chunk's scratch buffer into its current
/// voxels; otherwise leaves every chunk as it is. Returns the executed flag, now cleared.
pub fn apply_next_cells(chunks: &mut Vec<ChunkBundle>, executed_step: bool) -> (executed: bool)
    requires
        forall|i: int| 0 <= i < old(chunks)@.len() ==> (#[trigger] old(chunks)@[i]).wf(),
    ensures
        !executed,
        !executed_step ==> final(chunks)@ == old(chunks)@,
        final(chunks)@.len() == old(chunks)@.len(),
        forall|i: int| 0 <= i < final(chunks)@.len() ==> (#[trigger] final(chunks)@[i]).wf(),
        forall|i: int|
            0 <= i < final(chunks)@.len() ==> (#[trigger] final(chunks)@[i]).key == old(chunks)@[i].key
                && final(chunks)@[i].next == old(chunks)@[i].next,
        executed_step ==> forall|i: int|
            0 <= i < final(chunks)@.len() ==> (#[trigger] final(chunks)@[i]).cells@ == old(chunks)@[i].next@,
{
    if !executed_step {
        return false;
    }
    let mut i: usize = 0;
    while i < chunks.len()
        invariant
            i <= chunks@.len(),
            chunks@.len() == old(chunks)@.len(),
            forall|j: int| 0 <= j < chunks@.len() ==> (#[trigger] chunks@[j]).wf(),
            forall|j: int|
                0 <= j < chunks@.len() ==> (#[trigger] chunks@[j]).key == old(chunks)@[j].key
                    && chunks@[j].next == old(chunks)@[j].next,
            forall|j: int| 0 <= j < i ==> (#[trigger] chunks@[j]).cells@ == old(chunks)@[j].next@,
        decreases chunks.len() - i,
    {
        let copy = copy_buffer(chunks[i].next.as_slice());
        replace_cells(chunks, i, copy);
        i += 1;
    }
    false
}

} // verus!
