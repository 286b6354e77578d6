//! Where the player is in the world of chunks, and which way the player
//! looks.
use crate::math::{IVec3, Point3, Vec3};
use crate::physics::collision::volume::Aabb;
use crate::world::chunks::ecs::ViewRadius;
use crate::world::chunks::positions::{chunk_of, voxel_holding, world_to_chunk, VoxelPos};
use vstd::prelude::*;

verus! {

/// The chunk that the player is in.
#[derive(Clone, Copy, Debug, PartialEq, Eq, Structural)]
pub struct PlayerChunk {
    pub chunk_pos: IVec3,
}

impl Default for PlayerChunk {
    /// The chunk at the origin.
    fn default() -> (r: PlayerChunk)
        ensures
            r == (PlayerChunk { chunk_pos: IVec3 { x: 0, y: 0, z: 0 } }),
    {
        PlayerChunk { chunk_pos: IVec3 { x: 0, y: 0, z: 0 } }
    }
}

/// The voxel that the player is in.
#[derive(Clone, Copy, Debug, PartialEq, Eq, Structural)]
pub struct PlayerBlock {
    pub pos: IVec3,
}

impl Default for PlayerBlock {
    /// The voxel at the origin.
    fn default() -> (r: PlayerBlock)
        ensures
            r == (PlayerBlock { pos: IVec3 { x: 0, y: 0, z: 0 } }),
    {
        PlayerBlock { pos: IVec3 { x: 0, y: 0, z: 0 } }
    }
}

/// Whether the chunk at `pos` is within `horizontal` chunks of the chunk at
/// `center` along `x` and along `z`, and within `vertical` chunks along `y`.
pub open spec fn within_radius(center: Point3, pos: Point3, horizontal: int, vertical: int) -> bool {
    &&& center.x - horizontal <= pos.x <= center.x + horizontal
    &&& center.z - horizontal <= pos.z <= center.z + horizontal
    &&& center.y - vertical <= pos.y <= center.y + vertical
}

impl PlayerChunk {
    /// Whether the chunk at `pos` is near enough to the player's chunk to be
    /// kept.
    pub fn is_in_radius(&self, pos: IVec3, view_radius: &ViewRadius) -> (r: bool)
        ensures
            r == within_radius(
                self.chunk_pos@,
                pos@,
                view_radius.horizontal as int,
                view_radius.vertical as int,
            ),
    {
        let horizontal: i64 = view_radius.horizontal as i64;
        let vertical: i64 = view_radius.vertical as i64;
        let x: i64 = pos.x as i64;
        let y: i64 = pos.y as i64;
        let z: i64 = pos.z as i64;
        !(x > horizontal + self.chunk_pos.x as i64 || x < -horizontal + self.chunk_pos.x as i64 || z
            > horizontal + self.chunk_pos.z as i64 || z < -horizontal + self.chunk_pos.z as i64 || y
            > vertical + self.chunk_pos.y as i64 || y < -vertical + self.chunk_pos.y as i64)
    }
}

/// Records the chunk and the voxel that hold the center of the player's box.
pub fn update_player_location(
    player: &Aabb,
    player_chunk: &mut PlayerChunk,
    player_block: &mut PlayerBlock,
)
    ensures
        final(player_chunk).chunk_pos@ == chunk_of(voxel_holding(player@.center)),
        final(player_block).pos@ == voxel_holding(player@.center),
{
    let center = player.center();
    let new_chunk = world_to_chunk(&center);
    if new_chunk.x != player_chunk.chunk_pos.x || new_chunk.y != player_chunk.chunk_pos.y
        || new_chunk.z != player_chunk.chunk_pos.z {
        player_chunk.chunk_pos = IVec3 { x: new_chunk.x, y: new_chunk.y, z: new_chunk.z };
    }
    let voxel = VoxelPos::from_world(&center);
    if voxel.x != player_block.pos.x || voxel.y != player_block.pos.y || voxel.z
        != player_block.pos.z {
        player_block.pos = IVec3 { x: voxel.x, y: voxel.y, z: voxel.z };
    }
}

/// One of the four level directions.
#[derive(Clone, Copy, Debug, PartialEq, Eq, Structural)]
pub enum VoxelAxis {
    /// Up the `z` axis.
    North,
    /// Down the `z` axis.
    South,
    /// Down the `x` axis.
    West,
    /// Up the `x` axis.
    East,
}

impl Default for VoxelAxis {
    /// North.
    fn default() -> (r: VoxelAxis)
        ensures
            r == VoxelAxis::North,
    {
        VoxelAxis::North
    }
}

/// The direction in which the player looks.
#[derive(Clone, Copy, Debug, PartialEq, Eq, Structural)]
pub struct PlayerDirection(pub VoxelAxis);

impl Default for PlayerDirection {
    /// Looking north.
    fn default() -> (r: PlayerDirection)
        ensures
            r == PlayerDirection(VoxelAxis::North),
    {
        PlayerDirection(VoxelAxis::North)
    }
}

/// How far `forward` points in the direction `axis`.
pub open spec fn along_direction(forward: Point3, axis: VoxelAxis) -> int {
    match axis {
        VoxelAxis::East => forward.x,
        VoxelAxis::West => -forward.x,
        VoxelAxis::North => forward.z,
        VoxelAxis::South => -forward.z,
    }
}

/// The level direction nearest to `forward`: the one in which `forward`
/// points furthest. Where two are as near, east comes before west, west
/// before north, and north before south.
pub open spec fn nearest_direction(forward: Point3) -> VoxelAxis {
    let level = if forward.z < 0 {
        -forward.z
    } else {
        forward.z
    };
    if forward.x >= level {
        VoxelAxis::East
    } else if -forward.x >= level {
        VoxelAxis::West
    } else if forward.z >= 0 {
        VoxelAxis::North
    } else {
        VoxelAxis::South
    }
}

/// In no direction does `forward` point further than in the nearest.
pub proof fn lemma_nearest_direction_is_furthest(forward: Point3, other: VoxelAxis)
    ensures
        along_direction(forward, other) <= along_direction(forward, nearest_direction(forward)),
{
}

/// Records the level direction nearest to `forward`, the way the player
/// looks.
pub fn update_player_direction(player_direction: &mut PlayerDirection, forward: &Vec3)
    ensures
        final(player_direction).0 == nearest_direction(forward@),
{
    let east_dot: i64 = forward.x();
    let west_dot: i64 = -forward.x();
    let north_dot: i64 = forward.z();
    let south_dot: i64 = -forward.z();
    let mut closest: i64 = east_dot;
    if west_dot >= closest {
        closest = west_dot;
    }
    if north_dot >= closest {
        closest = north_dot;
    }
    if south_dot >= closest {
        closest = south_dot;
    }
    player_direction.0 = if closest == east_dot {
        VoxelAxis::East
    } else if closest == west_dot {
        VoxelAxis::West
    } else if closest == north_dot {
        VoxelAxis::North
    } else {
        VoxelAxis::South
    };
}

} // verus!
