//! What a chunk stores: one block for each of its voxels.
use crate::math::Point3;
use crate::world::chunks::positions::{is_local, CHUNK_SIZE};
use vstd::prelude::*;

verus! {

/// Voxels in one chunk.
pub const CHUNK_VOLUME: usize = 32768;

/// The block in one voxel: the number of its kind in the [`BlockTable`].
#[derive(Clone, Copy, Debug, PartialEq, Eq, Structural)]
pub struct BlockData {
    pub id: u32,
}

/// What is known of each kind of block: at index `id`, whether blocks of the
/// kind `id` are empty, so that nothing collides with them.
#[derive(Clone, Debug, PartialEq, Eq)]
pub struct BlockTable(pub Vec<bool>);

impl View for BlockTable {
    type V = Seq<bool>;

    open spec fn view(&self) -> Seq<bool> {
        self.0@
    }
}

impl BlockData {
    /// A block of the kind `id`.
    pub fn new(id: u32) -> (r: BlockData)
        ensures
            r == (BlockData { id }),
    {
        BlockData { id }
    }

    /// Whether the table `table` makes this block empty: its kind is marked
    /// empty there, or is not in the table at all.
    pub open spec fn is_empty_in(self, table: Seq<bool>) -> bool {
        self.id >= table.len() || table[self.id as int]
    }

    /// Whether the block is empty, so that nothing collides with it.
    pub fn is_empty(&self, block_table: &BlockTable) -> (r: bool)
        ensures
            r == self.is_empty_in(block_table@),
    {
        let id: usize = self.id as usize;
        if id < block_table.0.len() {
            block_table.0[id]
        } else {
            true
        }
    }
}

/// The index, in a chunk's storage, of the voxel at the place `local`.
pub open spec fn storage_index(local: Point3) -> int {
    (local.x * CHUNK_SIZE + local.y) * CHUNK_SIZE + local.z
}

/// The blocks of one chunk.
#[derive(Debug, PartialEq, Eq)]
pub struct ChunkData {
    blocks: Vec<BlockData>,
}

impl View for ChunkData {
    type V = Map<Point3, BlockData>;

    /// The block at each place inside the chunk.
    closed spec fn view(&self) -> Map<Point3, BlockData> {
        Map::new(|local: Point3| is_local(local), |local: Point3| self.blocks@[storage_index(local)])
    }
}

impl Clone for ChunkData {
    /// A chunk with the same block in every voxel.
    fn clone(&self) -> (r: ChunkData)
        ensures
            r@ == self@,
    {
        proof {
            use_type_invariant(self);
        }
        let blocks = self.blocks.clone();
        ChunkData { blocks }
    }
}

impl ChunkData {
    #[verifier::type_invariant]
    spec fn complete(self) -> bool {
        self.blocks@.len() == CHUNK_VOLUME
    }

    /// A chunk that holds `block` in every voxel.
    pub fn filled(block: BlockData) -> (r: ChunkData)
        ensures
            r@.dom() == Set::new(|local: Point3| is_local(local)),
            forall|local: Point3| is_local(local) ==> #[trigger] r@[local] == block,
    {
        let mut blocks: Vec<BlockData> = Vec::new();
        let mut i: usize = 0;
        while i < CHUNK_VOLUME
            invariant
                i <= CHUNK_VOLUME,
                blocks@.len() == i,
                forall|k: int| 0 <= k < i ==> #[trigger] blocks@[k] == block,
            decreases CHUNK_VOLUME - i,
        {
            blocks.push(block);
            i = i + 1;
        }
        ChunkData { blocks }
    }

    /// Whether every block of the chunk is empty, so that nothing collides
    /// with the chunk.
    pub fn is_empty(&self, block_table: &BlockTable) -> (r: bool)
        ensures
            r == forall|local: Point3|
                is_local(local) ==> (#[trigger] self@[local]).is_empty_in(block_table@),
    {
        proof {
            use_type_invariant(self);
        }
        let mut i: usize = 0;
        while i < CHUNK_VOLUME
            invariant
                i <= CHUNK_VOLUME,
                self.blocks@.len() == CHUNK_VOLUME,
                forall|k: int| 0 <= k < i ==> (#[trigger] self.blocks@[k]).is_empty_in(block_table@),
            decreases CHUNK_VOLUME - i,
        {
            if !self.blocks[i].is_empty(block_table) {
                proof {
                    let size = CHUNK_SIZE as int;
                    let local = Point3 {
                        x: i as int / (size * size),
                        y: (i as int / size) % size,
                        z: i as int % size,
                    };
                    assert(is_local(local) && storage_index(local) == i);
                    assert(!self@[local].is_empty_in(block_table@));
                }
                return false;
            }
            i = i + 1;
        }
        assert forall|local: Point3| is_local(local) implies (#[trigger] self@[local]).is_empty_in(
            block_table@,
        ) by {
            assert(0 <= storage_index(local) < CHUNK_VOLUME);
        }
        true
    }

    /// The block at the place `(x, y, z)`, which must lie inside the chunk.
    pub fn get(&self, x: u32, y: u32, z: u32) -> (r: BlockData)
        requires
            is_local(Point3 { x: x as int, y: y as int, z: z as int }),
        ensures
            self@.dom().contains(Point3 { x: x as int, y: y as int, z: z as int }),
            r == self@[Point3 { x: x as int, y: y as int, z: z as int }],
    {
        proof {
            use_type_invariant(self);
        }
        let size: usize = CHUNK_SIZE as usize;
        let index: usize = (x as usize * size + y as usize) * size + z as usize;
        self.blocks[index]
    }

    /// Puts `block` at the place `(x, y, z)`, which must lie inside the
    /// chunk. Every other voxel keeps its block.
    pub fn set(&mut self, x: u32, y: u32, z: u32, block: BlockData)
        requires
            is_local(Point3 { x: x as int, y: y as int, z: z as int }),
        ensures
            final(self)@ == old(self)@.insert(Point3 { x: x as int, y: y as int, z: z as int }, block),
    {
        proof {
            use_type_invariant(&*self);
        }
        let size: usize = CHUNK_SIZE as usize;
        let index: usize = (x as usize * size + y as usize) * size + z as usize;
        self.blocks[index] = block;
    }
}

} // verus!
