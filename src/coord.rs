use vstd::prelude::*;

verus! {

/// A signed integer 3-vector: a chunk coordinate, or a voxel position local to a chunk.
#[derive(Clone, Copy, Debug, PartialEq, Eq, Structural, Hash)]
pub struct Coord {
    pub x: i32,
    pub y: i32,
    pub z: i32,
}

impl Coord {
    pub fn new(x: i32, y: i32, z: i32) -> (r: Self)
        ensures
            r == (Coord { x, y, z }),
    {
        Coord { x, y, z }
    }

    pub fn zero() -> (r: Self)
        ensures
            r == (Coord { x: 0, y: 0, z: 0 }),
    {
        Coord { x: 0, y: 0, z: 0 }
    }
}

} // verus!
