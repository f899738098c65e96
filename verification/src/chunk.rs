//! Chunk coordinates and how block coordinates map onto them.
//!
//! The world is divided into columns of `CHUNK_WIDTH` by `CHUNK_WIDTH`
//! blocks. A column is named by the pair of its horizontal chunk
//! coordinates; the vertical coordinate of a block plays no part.

use vstd::prelude::*;

verus! {

/// Number of blocks along one horizontal edge of a chunk.
pub const CHUNK_WIDTH: i32 = 16;

/// The chunk coordinate that contains the block coordinate `v`: `v`
/// divided by the chunk width, rounded toward negative infinity.
pub open spec fn chunk_coord(v: int) -> int {
    v / (CHUNK_WIDTH as int)
}

/// Computes [`chunk_coord`] for every `i32`, negative ones included.
pub fn chunk_coord_of(v: i32) -> (c: i32)
    ensures
        c == chunk_coord(v as int),
        CHUNK_WIDTH * c <= v < CHUNK_WIDTH * c + CHUNK_WIDTH,
{
    if v >= 0 {
        v / CHUNK_WIDTH
    } else {
        -1 - ((-1 - v) / CHUNK_WIDTH)
    }
}

/// A block of the world, by its integer coordinates.
#[derive(Clone, Copy, Debug, PartialEq, Eq, Hash, Structural)]
pub struct BlockPosition {
    pub x: i32,
    pub y: i32,
    pub z: i32,
}

impl BlockPosition {
    /// The block at `x`, `y`, `z`.
    pub fn new(x: i32, y: i32, z: i32) -> (p: Self)
        ensures
            p == (BlockPosition { x, y, z }),
    {
        BlockPosition { x, y, z }
    }
}

/// One chunk column of the world: the unit of land that can be claimed.
#[derive(Clone, Copy, Debug, PartialEq, Eq, Hash, Structural)]
pub struct ChunkPosition {
    pub x: i32,
    pub z: i32,
}

impl ChunkPosition {
    /// The chunk column with chunk coordinates `x` and `z`.
    pub fn new(x: i32, z: i32) -> (c: Self)
        ensures
            c == (ChunkPosition { x, z }),
    {
        ChunkPosition { x, z }
    }

    /// The chunk column in which `position` lies.
    pub open spec fn of_block(position: BlockPosition) -> ChunkPosition {
        ChunkPosition {
            x: chunk_coord(position.x as int) as i32,
            z: chunk_coord(position.z as int) as i32,
        }
    }

    /// Whether `position` lies inside this chunk column.
    pub open spec fn contains_block(self, position: BlockPosition) -> bool {
        &&& CHUNK_WIDTH * self.x <= position.x < CHUNK_WIDTH * self.x + CHUNK_WIDTH
        &&& CHUNK_WIDTH * self.z <= position.z < CHUNK_WIDTH * self.z + CHUNK_WIDTH
    }

    /// Resolves a block to its chunk column, rounding both horizontal
    /// coordinates toward negative infinity.
    pub fn from_block_position(position: BlockPosition) -> (c: Self)
        ensures
            c == Self::of_block(position),
            c.contains_block(position),
    {
        ChunkPosition { x: chunk_coord_of(position.x), z: chunk_coord_of(position.z) }
    }

    /// The chunk as one integer: `x` in the upper and `z` in the lower
    /// 32 bits, each shifted to be non-negative.
    pub open spec fn spec_key(self) -> u64 {
        ((self.x + 0x8000_0000) * 0x1_0000_0000 + (self.z + 0x8000_0000)) as u64
    }

    /// Computes [`Self::spec_key`].
    pub fn key(self) -> (k: u64)
        ensures
            k == self.spec_key(),
    {
        let hi: u64 = (self.x as i64 + 0x8000_0000i64) as u64;
        let lo: u64 = (self.z as i64 + 0x8000_0000i64) as u64;
        hi * 0x1_0000_0000u64 + lo
    }

    /// The chunk that [`Self::spec_key`] maps to `k`.
    pub open spec fn of_key(k: u64) -> ChunkPosition {
        ChunkPosition {
            x: (k / 0x1_0000_0000 - 0x8000_0000) as i32,
            z: (k % 0x1_0000_0000 - 0x8000_0000) as i32,
        }
    }
}

/// Distinct chunks have distinct keys, and every key belongs to a chunk.
pub proof fn lemma_key_is_bijective()
    ensures
        forall|c: ChunkPosition| #[trigger] ChunkPosition::of_key(c.spec_key()) == c,
        forall|k: u64| #[trigger] ChunkPosition::of_key(k).spec_key() == k,
        forall|a: ChunkPosition, b: ChunkPosition|
            #[trigger] a.spec_key() == #[trigger] b.spec_key() ==> a == b,
{
    assert forall|a: ChunkPosition, b: ChunkPosition|
        #[trigger] a.spec_key() == #[trigger] b.spec_key() implies a == b by {
        assert(ChunkPosition::of_key(a.spec_key()) == a);
        assert(ChunkPosition::of_key(b.spec_key()) == b);
    }
}

/// A block lies in exactly one chunk column: the one that
/// [`ChunkPosition::from_block_position`] names.
pub proof fn lemma_block_in_one_chunk(position: BlockPosition, c: ChunkPosition)
    ensures
        c.contains_block(position) <==> c == ChunkPosition::of_block(position),
{
}

/// Two blocks resolve to the same chunk exactly when the chunk of one
/// contains the other, whatever their heights.
pub proof fn lemma_same_chunk_iff_same_column(p: BlockPosition, q: BlockPosition)
    ensures
        ChunkPosition::of_block(p) == ChunkPosition::of_block(q)
            <==> ChunkPosition::of_block(p).contains_block(q),
        ChunkPosition::of_block(p) == ChunkPosition::of_block(
            BlockPosition { x: p.x, y: q.y, z: p.z },
        ),
{
    lemma_block_in_one_chunk(q, ChunkPosition::of_block(p));
}

} // verus!
