use vstd::prelude::*;
use crate::coord::Coord;

verus! {

/// Bias added to each axis so that the most negative supported coordinate maps to zero.
pub const MORTON_BIAS: i64 = 1048576;

/// Bits kept from each biased axis.
pub const AXIS_MASK: u64 = 0x1f_ffff;

/// Every third bit, starting at bit 0: where one dilated axis lives.
pub const DILATED_MASK: u64 = 0x1249_2492_4924_9249;

/// The low 21 bits of `n` spread out so that bit `i` lands at bit `3 * i`.
pub open spec fn spread(n: u64) -> u64 {
    let n1 = n & 0x1f_ffff;
    let n2 = (n1 | (n1 << 32u64)) & 0x1f00_0000_00ff_ff;
    let n3 = (n2 | (n2 << 16u64)) & 0x1f00_00ff_0000_ff;
    let n4 = (n3 | (n3 << 8u64)) & 0x100f_00f0_0f00_f00f;
    let n5 = (n4 | (n4 << 4u64)) & 0x10c3_0c30_c30c_30c3;
    (n5 | (n5 << 2u64)) & 0x1249_2492_4924_9249
}

/// Gathers every third bit of `k`, starting at bit 0, back into the low 21 bits.
pub open spec fn gather(k: u64) -> u64 {
    let c0 = k & 0x1249_2492_4924_9249;
    let c1 = (c0 ^ (c0 >> 2u64)) & 0x10c3_0c30_c30c_30c3;
    let c2 = (c1 ^ (c1 >> 4u64)) & 0x100f_00f0_0f00_f00f;
    let c3 = (c2 ^ (c2 >> 8u64)) & 0x1f00_00ff_0000_ff;
    let c4 = (c3 ^ (c3 >> 16u64)) & 0x1f00_0000_00ff_ff;
    (c4 ^ (c4 >> 32u64)) & 0x1f_ffff
}

/// An axis value with the bias added, as the unsigned word that is dilated.
pub open spec fn biased(v: i32) -> u64 {
    (v + MORTON_BIAS) as u64
}

/// The spatial key of a chunk coordinate: x on bits `3i`, y on `3i + 1`, z on `3i + 2`.
pub open spec fn morton_key(c: Coord) -> u64 {
    spread(biased(c.x)) | (spread(biased(c.y)) << 1u64) | (spread(biased(c.z)) << 2u64)
}

/// The range of one axis on which keys are unique.
pub open spec fn in_key_range(v: i32) -> bool {
    -MORTON_BIAS <= v < MORTON_BIAS
}

pub open spec fn coord_in_key_range(c: Coord) -> bool {
    in_key_range(c.x) && in_key_range(c.y) && in_key_range(c.z)
}

/// A spread word only uses every third bit, and gathering undoes spreading.
pub proof fn lemma_spread_gather(n: u64)
    ensures
        spread(n) & DILATED_MASK == spread(n),
        gather(spread(n)) == n & AXIS_MASK,
{
    let n1 = n & 0x1f_ffff;
    let n2 = (n1 | (n1 << 32u64)) & 0x1f00_0000_00ff_ff;
    let n3 = (n2 | (n2 << 16u64)) & 0x1f00_00ff_0000_ff;
    let n4 = (n3 | (n3 << 8u64)) & 0x100f_00f0_0f00_f00f;
    let n5 = (n4 | (n4 << 4u64)) & 0x10c3_0c30_c30c_30c3;
    let r = (n5 | (n5 << 2u64)) & 0x1249_2492_4924_9249;
    assert(r & 0x1249_2492_4924_9249 == r) by (bit_vector)
        requires
            r == (n5 | (n5 << 2u64)) & 0x1249_2492_4924_9249,
    ;
    let c0 = r & 0x1249_2492_4924_9249;
    let c1 = (c0 ^ (c0 >> 2u64)) & 0x10c3_0c30_c30c_30c3;
    let c2 = (c1 ^ (c1 >> 4u64)) & 0x100f_00f0_0f00_f00f;
    let c3 = (c2 ^ (c2 >> 8u64)) & 0x1f00_00ff_0000_ff;
    let c4 = (c3 ^ (c3 >> 16u64)) & 0x1f00_0000_00ff_ff;
    let c5 = (c4 ^ (c4 >> 32u64)) & 0x1f_ffff;
    assert(c5 == n & 0x1f_ffff) by (bit_vector)
        requires
            n1 == n & 0x1f_ffff,
            n2 == (n1 | (n1 << 32u64)) & 0x1f00_0000_00ff_ff,
            n3 == (n2 | (n2 << 16u64)) & 0x1f00_00ff_0000_ff,
            n4 == (n3 | (n3 << 8u64)) & 0x100f_00f0_0f00_f00f,
            n5 == (n4 | (n4 << 4u64)) & 0x10c3_0c30_c30c_30c3,
            r == (n5 | (n5 << 2u64)) & 0x1249_2492_4924_9249,
            c0 == r & 0x1249_2492_4924_9249,
            c1 == (c0 ^ (c0 >> 2u64)) & 0x10c3_0c30_c30c_30c3,
            c2 == (c1 ^ (c1 >> 4u64)) & 0x100f_00f0_0f00_f00f,
            c3 == (c2 ^ (c2 >> 8u64)) & 0x1f00_00ff_0000_ff,
            c4 == (c3 ^ (c3 >> 16u64)) & 0x1f00_0000_00ff_ff,
            c5 == (c4 ^ (c4 >> 32u64)) & 0x1f_ffff,
    ;
}

/// What spreading does, bit by bit: bit `i` of `n`, for `i < 21`, lands at bit `3 * i`, and
/// every bit between those positions is clear.
pub proof fn lemma_spread_bits(n: u64, i: u64)
    requires
        i < 21,
    ensures
        (spread(n) >> (3 * i)) & 1 == (n >> i) & 1,
        (spread(n) >> (3 * i + 1)) & 1 == 0,
        (spread(n) >> (3 * i + 2)) & 1 == 0,
{
    let n1 = n & 0x1f_ffff;
    let n2 = (n1 | (n1 << 32u64)) & 0x1f00_0000_00ff_ff;
    let n3 = (n2 | (n2 << 16u64)) & 0x1f00_00ff_0000_ff;
    let n4 = (n3 | (n3 << 8u64)) & 0x100f_00f0_0f00_f00f;
    let n5 = (n4 | (n4 << 4u64)) & 0x10c3_0c30_c30c_30c3;
    let r = (n5 | (n5 << 2u64)) & 0x1249_2492_4924_9249;
    assert((r >> (3 * i)) & 1 == (n >> i) & 1 && (r >> (3 * i + 1)) & 1 == 0 && (r >> (3 * i + 2)) & 1
        == 0) by (bit_vector)
        requires
            i < 21,
            n1 == n & 0x1f_ffff,
            n2 == (n1 | (n1 << 32u64)) & 0x1f00_0000_00ff_ff,
            n3 == (n2 | (n2 << 16u64)) & 0x1f00_00ff_0000_ff,
            n4 == (n3 | (n3 << 8u64)) & 0x100f_00f0_0f00_f00f,
            n5 == (n4 | (n4 << 4u64)) & 0x10c3_0c30_c30c_30c3,
            r == (n5 | (n5 << 2u64)) & 0x1249_2492_4924_9249,
    ;
}

/// Each axis can be read back out of an interleaved key.
proof fn lemma_interleave_parts(a: u64, b: u64, c: u64)
    requires
        a & DILATED_MASK == a,
        b & DILATED_MASK == b,
        c & DILATED_MASK == c,
    ensures
        (a | (b << 1u64) | (c << 2u64)) & DILATED_MASK == a,
        ((a | (b << 1u64) | (c << 2u64)) >> 1u64) & DILATED_MASK == b,
        ((a | (b << 1u64) | (c << 2u64)) >> 2u64) & DILATED_MASK == c,
{
    assert((a | (b << 1u64) | (c << 2u64)) & 0x1249_2492_4924_9249 == a) by (bit_vector)
        requires
            a & 0x1249_2492_4924_9249 == a,
            b & 0x1249_2492_4924_9249 == b,
            c & 0x1249_2492_4924_9249 == c,
    ;
    assert(((a | (b << 1u64) | (c << 2u64)) >> 1u64) & 0x1249_2492_4924_9249 == b) by (bit_vector)
        requires
            a & 0x1249_2492_4924_9249 == a,
            b & 0x1249_2492_4924_9249 == b,
            c & 0x1249_2492_4924_9249 == c,
    ;
    assert(((a | (b << 1u64) | (c << 2u64)) >> 2u64) & 0x1249_2492_4924_9249 == c) by (bit_vector)
        requires
            a & 0x1249_2492_4924_9249 == a,
            b & 0x1249_2492_4924_9249 == b,
            c & 0x1249_2492_4924_9249 == c,
    ;
}

/// Two in-range axis values with the same spread word are equal.
proof fn lemma_axis_injective(u: i32, v: i32)
    requires
        in_key_range(u),
        in_key_range(v),
        spread(biased(u)) == spread(biased(v)),
    ensures
        u == v,
{
    let bu = biased(u);
    let bv = biased(v);
    lemma_spread_gather(bu);
    lemma_spread_gather(bv);
    assert(bu & 0x1f_ffff == bu) by (bit_vector)
        requires
            bu < 0x20_0000,
    ;
    assert(bv & 0x1f_ffff == bv) by (bit_vector)
        requires
            bv < 0x20_0000,
    ;
}

/// Distinct coordinates inside the supported range never share a key.
pub proof fn lemma_key_injective(a: Coord, b: Coord)
    requires
        coord_in_key_range(a),
        coord_in_key_range(b),
        a != b,
    ensures
        morton_key(a) != morton_key(b),
{
    lemma_spread_gather(biased(a.x));
    lemma_spread_gather(biased(a.y));
    lemma_spread_gather(biased(a.z));
    lemma_spread_gather(biased(b.x));
    lemma_spread_gather(biased(b.y));
    lemma_spread_gather(biased(b.z));
    lemma_interleave_parts(spread(biased(a.x)), spread(biased(a.y)), spread(biased(a.z)));
    lemma_interleave_parts(spread(biased(b.x)), spread(biased(b.y)), spread(biased(b.z)));
    if morton_key(a) == morton_key(b) {
        lemma_axis_injective(a.x, b.x);
        lemma_axis_injective(a.y, b.y);
        lemma_axis_injective(a.z, b.z);
    }
}

/// Spreads the low 21 bits of `n` so that bit `i` moves to bit `3 * i`.
pub fn part1by2(n: u64) -> (r: u64)
    ensures
        r == spread(n),
        r & DILATED_MASK == r,
        forall|i: u64| i < 21 ==> #[trigger] ((r >> (3 * i)) & 1) == (n >> i) & 1,
{
    proof {
        lemma_spread_gather(n);
        assert forall|i: u64| i < 21 implies #[trigger] ((spread(n) >> (3 * i)) & 1) == (n >> i) & 1 by {
            lemma_spread_bits(n, i);
        }
    }
    let mut n = n & 0x1f_ffff;
    n = (n | (n << 32u64)) & 0x1f00_0000_00ff_ff;
    n = (n | (n << 16u64)) & 0x1f00_00ff_0000_ff;
    n = (n | (n << 8u64)) & 0x100f_00f0_0f00_f00f;
    n = (n | (n << 4u64)) & 0x10c3_0c30_c30c_30c3;
    n = (n | (n << 2u64)) & 0x1249_2492_4924_9249;
    n
}

/// The Morton key of a chunk coordinate. Keys are unique on the supported range;
/// outside it they wrap.
pub fn morton_encode(coords: Coord) -> (r: u64)
    ensures
        r == morton_key(coords),
{
    let x = (coords.x as i64 + MORTON_BIAS) as u64;
    let y = (coords.y as i64 + MORTON_BIAS) as u64;
    let z = (coords.z as i64 + MORTON_BIAS) as u64;
    part1by2(x) | (part1by2(y) << 1u64) | (part1by2(z) << 2u64)
}

/// A chunk's coordinates together with their spatial key.
#[derive(Clone, Copy, Debug, PartialEq, Eq, Structural, Hash)]
pub struct ChunkKey {
    pub coords: Coord,
    pub morton: u64,
}

impl ChunkKey {
    pub open spec fn wf(self) -> bool {
        self.morton == morton_key(self.coords)
    }

    pub fn new(coords: Coord) -> (r: Self)
        ensures
            r.coords == coords,
            r.morton == morton_key(coords),
            r.wf(),
    {
        ChunkKey { morton: morton_encode(coords), coords }
    }
}

} // verus!
