//! Positions of voxels and chunks, and the exact split of a voxel position
//! into the chunk that holds it and the place inside that chunk.
use crate::math::{floor_to_voxel, voxel_floor, Point3, Vec3, UNITS_PER_VOXEL};
use vstd::prelude::*;

verus! {

/// Voxels along each edge of a chunk.
pub const CHUNK_SIZE: i32 = 32;

/// The chunk that holds the voxel `voxel`: each index over the chunk edge,
/// rounded down.
pub open spec fn chunk_of(voxel: Point3) -> Point3 {
    Point3 {
        x: voxel.x / (CHUNK_SIZE as int),
        y: voxel.y / (CHUNK_SIZE as int),
        z: voxel.z / (CHUNK_SIZE as int),
    }
}

/// The place of the voxel `voxel` inside its chunk: the remainder of each
/// index by the chunk edge, never negative.
pub open spec fn local_of(voxel: Point3) -> Point3 {
    Point3 {
        x: voxel.x % (CHUNK_SIZE as int),
        y: voxel.y % (CHUNK_SIZE as int),
        z: voxel.z % (CHUNK_SIZE as int),
    }
}

/// The voxel at the place `local` of the chunk `chunk`.
pub open spec fn voxel_at(local: Point3, chunk: Point3) -> Point3 {
    Point3 {
        x: chunk.x * CHUNK_SIZE + local.x,
        y: chunk.y * CHUNK_SIZE + local.y,
        z: chunk.z * CHUNK_SIZE + local.z,
    }
}

/// Whether `local` is a place inside a chunk.
pub open spec fn is_local(local: Point3) -> bool {
    0 <= local.x < CHUNK_SIZE && 0 <= local.y < CHUNK_SIZE && 0 <= local.z < CHUNK_SIZE
}

/// The voxel that holds the point `point`, given in units.
pub open spec fn voxel_holding(point: Point3) -> Point3 {
    Point3 { x: voxel_floor(point.x), y: voxel_floor(point.y), z: voxel_floor(point.z) }
}

/// Splitting a voxel position and putting it together again gives the
/// position back, for every triple of integers.
pub proof fn lemma_split_then_join(voxel: Point3)
    ensures
        is_local(local_of(voxel)),
        voxel_at(local_of(voxel), chunk_of(voxel)) == voxel,
{
}

/// Putting a place and a chunk together and splitting the result gives the
/// two back: with [`lemma_split_then_join`], the split is a bijection between
/// voxel positions and pairs of a place and a chunk.
pub proof fn lemma_join_then_split(local: Point3, chunk: Point3)
    requires
        is_local(local),
    ensures
        local_of(voxel_at(local, chunk)) == local,
        chunk_of(voxel_at(local, chunk)) == chunk,
{
}

/// The position of a chunk, counted in chunks.
#[derive(Clone, Copy, Debug, PartialEq, Eq, Structural)]
pub struct ChunkPos {
    pub x: i32,
    pub y: i32,
    pub z: i32,
}

impl View for ChunkPos {
    type V = Point3;

    open spec fn view(&self) -> Point3 {
        Point3 { x: self.x as int, y: self.y as int, z: self.z as int }
    }
}

impl ChunkPos {
    /// The chunk at `(x, y, z)`.
    pub fn new(x: i32, y: i32, z: i32) -> (r: ChunkPos)
        ensures
            r == (ChunkPos { x, y, z }),
    {
        ChunkPos { x, y, z }
    }
}

/// A place inside a chunk, counted in voxels from the chunk's low corner.
#[derive(Clone, Copy, Debug, PartialEq, Eq, Structural)]
pub struct RelativeVoxelPos {
    pub x: u32,
    pub y: u32,
    pub z: u32,
}

impl View for RelativeVoxelPos {
    type V = Point3;

    open spec fn view(&self) -> Point3 {
        Point3 { x: self.x as int, y: self.y as int, z: self.z as int }
    }
}

impl RelativeVoxelPos {
    /// The place `(x, y, z)`.
    pub fn new(x: u32, y: u32, z: u32) -> (r: RelativeVoxelPos)
        ensures
            r == (RelativeVoxelPos { x, y, z }),
    {
        RelativeVoxelPos { x, y, z }
    }
}

/// The position of a voxel of the world, counted in voxels.
#[derive(Clone, Copy, Debug, PartialEq, Eq, Structural)]
pub struct VoxelPos {
    pub x: i32,
    pub y: i32,
    pub z: i32,
}

impl View for VoxelPos {
    type V = Point3;

    open spec fn view(&self) -> Point3 {
        Point3 { x: self.x as int, y: self.y as int, z: self.z as int }
    }
}

/// Splits one voxel index into the index of its chunk and its place there.
fn split_index(v: i32) -> (r: (u32, i32))
    ensures
        r.0 == (v as int) % (CHUNK_SIZE as int),
        r.1 == (v as int) / (CHUNK_SIZE as int),
        r.0 < CHUNK_SIZE,
{
    let q: i32 = v / CHUNK_SIZE;
    let m: i32 = v % CHUNK_SIZE;
    if m < 0 {
        ((m + CHUNK_SIZE) as u32, q - 1)
    } else {
        (m as u32, q)
    }
}

impl VoxelPos {
    /// The voxel at `(x, y, z)`.
    pub fn new(x: i32, y: i32, z: i32) -> (r: VoxelPos)
        ensures
            r == (VoxelPos { x, y, z }),
    {
        VoxelPos { x, y, z }
    }

    /// The voxel that holds the point `point`.
    pub fn from_world(point: &Vec3) -> (r: VoxelPos)
        ensures
            r@ == voxel_holding(point@),
    {
        let x: i64 = floor_to_voxel(point.x());
        let y: i64 = floor_to_voxel(point.y());
        let z: i64 = floor_to_voxel(point.z());
        VoxelPos { x: x as i32, y: y as i32, z: z as i32 }
    }

    /// Splits the position into the place inside its chunk and the chunk.
    pub fn to_offsets(&self) -> (r: (RelativeVoxelPos, ChunkPos))
        ensures
            r.0@ == local_of(self@),
            r.1@ == chunk_of(self@),
            is_local(r.0@),
    {
        let (lx, cx) = split_index(self.x);
        let (ly, cy) = split_index(self.y);
        let (lz, cz) = split_index(self.z);
        (RelativeVoxelPos { x: lx, y: ly, z: lz }, ChunkPos { x: cx, y: cy, z: cz })
    }

    /// The voxel at the place `local` of the chunk `chunk`. The place must lie
    /// inside the chunk, and the voxel inside the world.
    pub fn from_offsets(local: RelativeVoxelPos, chunk: ChunkPos) -> (r: VoxelPos)
        requires
            is_local(local@),
            voxel_at(local@, chunk@).is_voxel_index(),
        ensures
            r@ == voxel_at(local@, chunk@),
    {
        VoxelPos {
            x: chunk.x * CHUNK_SIZE + local.x as i32,
            y: chunk.y * CHUNK_SIZE + local.y as i32,
            z: chunk.z * CHUNK_SIZE + local.z as i32,
        }
    }

    /// The low corner of the voxel, in units.
    pub fn as_vec3(&self) -> (r: Vec3)
        ensures
            r@ == (Point3 {
                x: self.x * UNITS_PER_VOXEL,
                y: self.y * UNITS_PER_VOXEL,
                z: self.z * UNITS_PER_VOXEL,
            }),
    {
        Vec3::from_units(
            self.x as i64 * UNITS_PER_VOXEL,
            self.y as i64 * UNITS_PER_VOXEL,
            self.z as i64 * UNITS_PER_VOXEL,
        )
    }
}

/// The chunk that holds the point `point`.
pub fn world_to_chunk(point: &Vec3) -> (r: ChunkPos)
    ensures
        r@ == chunk_of(voxel_holding(point@)),
{
    VoxelPos::from_world(point).to_offsets().1
}

} // verus!
