use vstd::prelude::*;
use crate::coord::Coord;
use crate::morton::ChunkKey;
use crate::state::AutomataState;

verus! {

/// Edge length of a simulation chunk in voxels.
pub const CHUNK_EDGE: i32 = 32;
/// Number of voxels contained inside a chunk.
pub const CHUNK_VOLUME: usize = 32768;

/// Position of local voxel `(x, y, z)` in a chunk's flat buffer: x outer, z inner.
pub open spec fn linear(x: int, y: int, z: int) -> int {
    x * 1024 + y * 32 + z
}

/// Whether an axis value lies inside a chunk.
pub open spec fn in_edge(v: int) -> bool {
    0 <= v < 32
}

pub open spec fn in_chunk(local: Coord) -> bool {
    in_edge(local.x as int) && in_edge(local.y as int) && in_edge(local.z as int)
}

/// Index of a local voxel coordinate in a chunk's flat buffer.
pub fn linear_index(local: Coord) -> (r: usize)
    requires
        in_chunk(local),
    ensures
        r == linear(local.x as int, local.y as int, local.z as int),
        r < CHUNK_VOLUME,
{
    (local.x as usize) * 1024 + (local.y as usize) * 32 + (local.z as usize)
}

/// A buffer of `len` copies of `value`.
pub fn uniform_buffer(value: AutomataState, len: usize) -> (r: Vec<AutomataState>)
    ensures
        r@ == Seq::new(len as nat, |i: int| value),
{
    let mut data: Vec<AutomataState> = Vec::with_capacity(len);
    let mut i: usize = 0;
    while i < len
        invariant
            i <= len,
            data@ == Seq::new(i as nat, |j: int| value),
        decreases len - i,
    {
        data.push(value);
        i += 1;
        assert(data@ =~= Seq::new(i as nat, |j: int| value));
    }
    data
}

/// A copy of a slice into a fresh buffer.
pub fn copy_buffer(src: &[AutomataState]) -> (r: Vec<AutomataState>)
    ensures
        r@ == src@,
{
    let mut data: Vec<AutomataState> = Vec::with_capacity(src.len());
    let mut i: usize = 0;
    while i < src.len()
        invariant
            i <= src@.len(),
            data@ == src@.subrange(0, i as int),
        decreases src.len() - i,
    {
        data.push(src[i]);
        i += 1;
        assert(data@ =~= src@.subrange(0, i as int));
    }
    assert(data@ =~= src@);
    data
}

/// Overwrites every element of `dst` with the element of `src` at the same position.
fn overwrite_buffer(dst: &mut Vec<AutomataState>, src: &[AutomataState])
    requires
        old(dst)@.len() == src@.len(),
    ensures
        final(dst)@ == src@,
{
    let mut i: usize = 0;
    while i < src.len()
        invariant
            i <= src@.len(),
            dst@.len() == src@.len(),
            forall|j: int| 0 <= j < i ==> dst@[j] == src@[j],
        decreases src.len() - i,
    {
        dst.set(i, src[i]);
        i += 1;
    }
    assert(dst@ =~= src@);
}

/// The voxels of a chunk as they stand: the state that readers see.
#[derive(Clone)]
pub struct ChunkCells {
    pub data: Vec<AutomataState>,
}

impl View for ChunkCells {
    type V = Seq<AutomataState>;

    open spec fn view(&self) -> Seq<AutomataState> {
        self.data@
    }
}

impl ChunkCells {
    pub open spec fn wf(&self) -> bool {
        self.data@.len() == CHUNK_VOLUME
    }

    /// A chunk whose every voxel holds `value`.
    pub fn filled(value: AutomataState) -> (r: Self)
        ensures
            r.wf(),
            r@ == Seq::new(CHUNK_VOLUME as nat, |i: int| value),
    {
        ChunkCells { data: uniform_buffer(value, CHUNK_VOLUME) }
    }

    /// A chunk whose voxel at each local coordinate is what `generator` returns there,
    /// calling it once per voxel, x outer, then y, then z.
    pub fn from_generator<F: Fn(Coord) -> AutomataState>(generator: F) -> (r: Self)
        requires
            forall|c: Coord| in_chunk(c) ==> call_requires(generator, (c,)),
        ensures
            r.wf(),
            forall|x: int, y: int, z: int|
                in_edge(x) && in_edge(y) && in_edge(z) ==> call_ensures(
                    generator,
                    (Coord { x: x as i32, y: y as i32, z: z as i32 },),
                    #[trigger] r@[linear(x, y, z)],
                ),
    {
        let mut data: Vec<AutomataState> = Vec::with_capacity(CHUNK_VOLUME);
        let mut x: i32 = 0;
        while x < CHUNK_EDGE
            invariant
                0 <= x <= 32,
                data@.len() == linear(x as int, 0, 0),
                forall|c: Coord| in_chunk(c) ==> call_requires(generator, (c,)),
                forall|a: int, b: int, d: int|
                    0 <= a < x && in_edge(b) && in_edge(d) ==> call_ensures(
                        generator,
                        (Coord { x: a as i32, y: b as i32, z: d as i32 },),
                        #[trigger] data@[linear(a, b, d)],
                    ),
            decreases 32 - x,
        {
            let mut y: i32 = 0;
            while y < CHUNK_EDGE
                invariant
                    0 <= x < 32,
                    0 <= y <= 32,
                    data@.len() == linear(x as int, y as int, 0),
                    forall|c: Coord| in_chunk(c) ==> call_requires(generator, (c,)),
                    forall|a: int, b: int, d: int|
                        ((0 <= a < x && in_edge(b)) || (a == x && 0 <= b < y)) && in_edge(d)
                            ==> call_ensures(
                            generator,
                            (Coord { x: a as i32, y: b as i32, z: d as i32 },),
                            #[trigger] data@[linear(a, b, d)],
                        ),
                decreases 32 - y,
            {
                let mut z: i32 = 0;
                while z < CHUNK_EDGE
                    invariant
                        0 <= x < 32,
                        0 <= y < 32,
                        0 <= z <= 32,
                        data@.len() == linear(x as int, y as int, z as int),
                        forall|c: Coord| in_chunk(c) ==> call_requires(generator, (c,)),
                        forall|a: int, b: int, d: int|
                            (((0 <= a < x && in_edge(b)) || (a == x && 0 <= b < y)) && in_edge(d))
                                || (a == x && b == y && 0 <= d < z) ==> call_ensures(
                                generator,
                                (Coord { x: a as i32, y: b as i32, z: d as i32 },),
                                #[trigger] data@[linear(a, b, d)],
                            ),
                    decreases 32 - z,
                {
                    let c = Coord { x, y, z };
                    assert(in_chunk(c));
                    let v = generator(c);
                    data.push(v);
                    z += 1;
                }
                y += 1;
            }
            x += 1;
        }
        ChunkCells { data }
    }

    #[inline]
    pub fn as_slice(&self) -> (r: &[AutomataState])
        ensures
            r@ == self@,
    {
        self.data.as_slice()
    }

    /// A copy of the voxels.
    pub fn clone_box(&self) -> (r: Vec<AutomataState>)
        ensures
            r@ == self@,
    {
        copy_buffer(self.data.as_slice())
    }

    /// Overwrites the voxels with `data`, which must be as long as the chunk.
    pub fn write_from_slice(&mut self, data: &[AutomataState])
        requires
            data@.len() == old(self)@.len(),
        ensures
            final(self)@ == data@,
    {
        overwrite_buffer(&mut self.data, data);
    }

    /// Overwrites the voxels with the states that the packed words `data` hold.
    pub fn write_from_packed(&mut self, data: &[u16])
        requires
            data@.len() == old(self)@.len(),
        ensures
            final(self)@.len() == data@.len(),
            forall|i: int| 0 <= i < data@.len() ==> #[trigger] final(self)@[i].encoded == data@[i],
    {
        let mut i: usize = 0;
        while i < data.len()
            invariant
                i <= data@.len(),
                self.data@.len() == data@.len(),
                forall|j: int| 0 <= j < i ==> #[trigger] self.data@[j].encoded == data@[j],
            decreases data.len() - i,
        {
            self.data.set(i, AutomataState::from_packed(data[i]));
            i += 1;
        }
    }

    /// The voxels as packed 16-bit words, in buffer order.
    pub fn to_packed_vec(&self) -> (r: Vec<u16>)
        ensures
            r@.len() == self@.len(),
            forall|i: int| 0 <= i < r@.len() ==> #[trigger] r@[i] == self@[i].encoded,
    {
        let mut out: Vec<u16> = Vec::with_capacity(self.data.len());
        let mut i: usize = 0;
        while i < self.data.len()
            invariant
                i <= self.data@.len(),
                out@.len() == i,
                forall|j: int| 0 <= j < i ==> #[trigger] out@[j] == self.data@[j].encoded,
            decreases self.data.len() - i,
        {
            out.push(self.data[i].to_packed());
            i += 1;
        }
        out
    }
}

impl Default for ChunkCells {
    fn default() -> (r: Self)
        ensures
            r.wf(),
            r@ == Seq::new(CHUNK_VOLUME as nat, |i: int| AutomataState { encoded: 0 }),
    {
        Self::filled(AutomataState { encoded: 0 })
    }
}

/// Scratch buffer that a step writes the next state of a chunk into.
#[derive(Clone)]
pub struct ChunkCellsNext {
    pub data: Vec<AutomataState>,
}

impl View for ChunkCellsNext {
    type V = Seq<AutomataState>;

    open spec fn view(&self) -> Seq<AutomataState> {
        self.data@
    }
}

impl ChunkCellsNext {
    pub open spec fn wf(&self) -> bool {
        self.data@.len() == CHUNK_VOLUME
    }

    /// A scratch buffer of empty voxels.
    pub fn zeros() -> (r: Self)
        ensures
            r.wf(),
            r@ == Seq::new(CHUNK_VOLUME as nat, |i: int| AutomataState { encoded: 0 }),
    {
        ChunkCellsNext { data: uniform_buffer(AutomataState { encoded: 0 }, CHUNK_VOLUME) }
    }

    /// Mutable access to the whole buffer.
    pub fn as_mut_slice(&mut self) -> (r: &mut [AutomataState])
        ensures
            r@ == old(self)@,
            final(self)@ == final(r)@,
    {
        self.data.as_mut_slice()
    }

    #[inline]
    pub fn as_slice(&self) -> (r: &[AutomataState])
        ensures
            r@ == self@,
    {
        self.data.as_slice()
    }
}

impl Default for ChunkCellsNext {
    fn default() -> (r: Self)
        ensures
            r.wf(),
            r@ == Seq::new(CHUNK_VOLUME as nat, |i: int| AutomataState { encoded: 0 }),
    {
        Self::zeros()
    }
}

/// Everything needed to simulate one chunk: its key, its current voxels, its scratch buffer.
#[derive(Clone)]
pub struct ChunkBundle {
    pub key: ChunkKey,
    pub cells: ChunkCells,
    pub next: ChunkCellsNext,
}

impl ChunkBundle {
    pub open spec fn wf(&self) -> bool {
        self.key.wf() && self.cells.wf() && self.next.wf()
    }

    /// An empty chunk at `coords`.
    pub fn new(coords: Coord) -> (r: Self)
        ensures
            r.wf(),
            r.key.coords == coords,
            r.cells@ == Seq::new(CHUNK_VOLUME as nat, |i: int| AutomataState { encoded: 0 }),
            r.next@ == Seq::new(CHUNK_VOLUME as nat, |i: int| AutomataState { encoded: 0 }),
    {
        ChunkBundle { key: ChunkKey::new(coords), cells: ChunkCells::default(), next: ChunkCellsNext::default() }
    }

    /// A chunk at `coords` whose voxels come from `generator`, as in `ChunkCells::from_generator`.
    pub fn from_generator<F: Fn(Coord) -> AutomataState>(coords: Coord, generator: F) -> (r: Self)
        requires
            forall|c: Coord| in_chunk(c) ==> call_requires(generator, (c,)),
        ensures
            r.wf(),
            r.key.coords == coords,
            forall|x: int, y: int, z: int|
                in_edge(x) && in_edge(y) && in_edge(z) ==> call_ensures(
                    generator,
                    (Coord { x: x as i32, y: y as i32, z: z as i32 },),
                    #[trigger] r.cells@[linear(x, y, z)],
                ),
            r.next@ == Seq::new(CHUNK_VOLUME as nat, |i: int| AutomataState { encoded: 0 }),
    {
        ChunkBundle {
            key: ChunkKey::new(coords),
            cells: ChunkCells::from_generator(generator),
            next: ChunkCellsNext::default(),
        }
    }
}

} // verus!
