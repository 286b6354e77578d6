//! Which chunks are loaded, and the blocks found through them.
use crate::math::Point3;
use crate::world::chunks::positions::{chunk_of, local_of, ChunkPos, VoxelPos};
use crate::world::chunks::storage::{BlockData, BlockTable, ChunkData};
use std::collections::HashMap;
use vstd::prelude::*;

verus! {

broadcast use vstd::std_specs::hash::group_hash_axioms;

/// How far from the player chunks are kept, counted in chunks: `horizontal`
/// along `x` and `z`, `vertical` along `y`.
#[derive(Clone, Copy, Debug, PartialEq, Eq, Structural)]
pub struct ViewRadius {
    pub horizontal: i32,
    pub vertical: i32,
}

/// The number that stands for the chunk position `chunk` as a key: the three
/// indices, each moved to start at zero, written as three digits of base
/// `2^32`.
pub open spec fn chunk_key(chunk: Point3) -> int {
    ((chunk.x + 0x8000_0000) * 0x1_0000_0000 + (chunk.y + 0x8000_0000)) * 0x1_0000_0000 + (chunk.z
        + 0x8000_0000)
}

/// The loaded chunks: for each position that holds one, the entity that
/// carries its data.
pub struct CurrentChunks {
    chunks: HashMap<u128, usize>,
}

impl View for CurrentChunks {
    type V = Map<Point3, usize>;

    /// The entity of each loaded chunk, by the chunk's position.
    closed spec fn view(&self) -> Map<Point3, usize> {
        Map::new(
            |chunk: Point3|
                chunk.is_voxel_index() && self.chunks@.contains_key(chunk_key(chunk) as u128),
            |chunk: Point3| self.chunks@[chunk_key(chunk) as u128],
        )
    }
}

/// The key of a chunk position.
fn key_of(pos: ChunkPos) -> (r: u128)
    ensures
        r == chunk_key(pos@),
{
    let x: u128 = (pos.x as i64 + 0x8000_0000) as u128;
    let y: u128 = (pos.y as i64 + 0x8000_0000) as u128;
    let z: u128 = (pos.z as i64 + 0x8000_0000) as u128;
    (x * 0x1_0000_0000 + y) * 0x1_0000_0000 + z
}

impl CurrentChunks {
    /// No chunk is loaded.
    pub fn new() -> (r: CurrentChunks)
        ensures
            r@ == Map::<Point3, usize>::empty(),
    {
        let r = CurrentChunks { chunks: HashMap::new() };
        assert(r@ =~= Map::<Point3, usize>::empty());
        r
    }

    /// Records that the chunk at `pos` is carried by `entity`, in place of
    /// any entity recorded for `pos` before.
    pub fn insert_entity(&mut self, pos: ChunkPos, entity: usize)
        ensures
            final(self)@ == old(self)@.insert(pos@, entity),
    {
        let key = key_of(pos);
        self.chunks.insert(key, entity);
    }

    /// Forgets the chunk at `pos` and returns the entity that carried it, if
    /// one did.
    pub fn remove_entity(&mut self, pos: ChunkPos) -> (r: Option<usize>)
        ensures
            final(self)@ == old(self)@.remove(pos@),
            r == (if old(self)@.contains_key(pos@) {
                Some(old(self)@[pos@])
            } else {
                None
            }),
    {
        let key = key_of(pos);
        self.chunks.remove(&key)
    }

    /// The entity that carries the chunk at `pos`, if that chunk is loaded.
    pub fn get_entity(&self, pos: ChunkPos) -> (r: Option<usize>)
        ensures
            r == (if self@.contains_key(pos@) {
                Some(self@[pos@])
            } else {
                None
            }),
    {
        let key = key_of(pos);
        match self.chunks.get(&key) {
            Some(entity) => Some(*entity),
            None => None,
        }
    }
}

/// The block stored for the voxel `voxel`: that of its place in the chunk
/// loaded at its chunk position, where `loaded` names an entity for that
/// position and `chunks` holds data for that entity. `None` where no such
/// chunk is found, and for a triple that is no voxel of the world.
pub open spec fn stored_block(
    chunks: Seq<ChunkData>,
    loaded: Map<Point3, usize>,
    voxel: Point3,
) -> Option<BlockData> {
    let chunk = chunk_of(voxel);
    if voxel.is_voxel_index() && loaded.contains_key(chunk) && loaded[chunk] < chunks.len() {
        Some(chunks[loaded[chunk] as int]@[local_of(voxel)])
    } else {
        None
    }
}

/// The world as a query sees it: the data of the chunks, which chunk is
/// loaded where, and which kinds of block are empty.
pub struct World {
    /// The data of the chunks, by entity.
    pub chunks: Seq<ChunkData>,
    /// The entity of each loaded chunk, by the chunk's position.
    pub loaded: Map<Point3, usize>,
    /// For each kind of block, whether it is empty.
    pub table: Seq<bool>,
}

impl World {
    /// The world that the three values describe.
    pub open spec fn of(
        chunks: &Vec<ChunkData>,
        current_chunks: &CurrentChunks,
        block_table: &BlockTable,
    ) -> World {
        World { chunks: chunks@, loaded: current_chunks@, table: block_table@ }
    }

    /// The block stored for the voxel `voxel`, if its chunk is found.
    pub open spec fn block_at(self, voxel: Point3) -> Option<BlockData> {
        stored_block(self.chunks, self.loaded, voxel)
    }

    /// Whether the voxel `voxel` holds a block that bodies collide with: a
    /// block is stored for it, and the table does not make that block empty.
    pub open spec fn solid_at(self, voxel: Point3) -> bool {
        match self.block_at(voxel) {
            Some(block) => !block.is_empty_in(self.table),
            None => false,
        }
    }
}

/// The block stored for the voxel at `pos`, if its chunk is loaded and
/// `chunks` holds that chunk's data at the index that `current_chunks` names.
pub fn get_block(pos: VoxelPos, chunks: &Vec<ChunkData>, current_chunks: &CurrentChunks) -> (r:
    Option<BlockData>)
    ensures
        r == stored_block(chunks@, current_chunks@, pos@),
{
    let (local, chunk_pos) = pos.to_offsets();
    match current_chunks.get_entity(chunk_pos) {
        Some(entity) => {
            if entity < chunks.len() {
                Some(chunks[entity].get(local.x, local.y, local.z))
            } else {
                None
            }
        },
        None => None,
    }
}

/// Whether the voxel at `pos` holds a block that bodies collide with.
pub fn is_solid(
    pos: VoxelPos,
    chunks: &Vec<ChunkData>,
    current_chunks: &CurrentChunks,
    block_table: &BlockTable,
) -> (r: bool)
    ensures
        r == World::of(chunks, current_chunks, block_table).solid_at(pos@),
{
    match get_block(pos, chunks, current_chunks) {
        Some(block) => !block.is_empty(block_table),
        None => false,
    }
}

} // verus!
