use vinox_common::math::{IVec3, Vec3, COORD_MAX, COORD_MIN, EPSILON, UNITS_PER_VOXEL};
use vinox_common::physics::collision::aabb::{
    aabb_intersects_world, aabb_vs_world, aabbs_intersect, get_aabb_world_intersectors,
    get_collision_info, CollisionInfo,
};
use vinox_common::physics::collision::volume::Aabb;
use vinox_common::world::chunks::ecs::CurrentChunks;
use vinox_common::world::chunks::positions::VoxelPos;
use vinox_common::world::chunks::storage::{BlockData, BlockTable, ChunkData};

const U: i64 = UNITS_PER_VOXEL;

const AIR: u32 = 0;
const STONE: u32 = 1;
const WATER: u32 = 2;

struct Fixture {
    chunks: Vec<ChunkData>,
    current: CurrentChunks,
    table: BlockTable,
}

impl Fixture {
    fn new() -> Fixture {
        Fixture {
            chunks: Vec::new(),
            current: CurrentChunks::new(),
            // air and water are empty, stone is not
            table: BlockTable(vec![true, false, true]),
        }
    }

    fn put(&mut self, voxel: (i32, i32, i32), kind: u32) {
        let (local, chunk) = VoxelPos::new(voxel.0, voxel.1, voxel.2).to_offsets();
        let entity = match self.current.get_entity(chunk) {
            Some(entity) => entity,
            None => {
                self.chunks.push(ChunkData::filled(BlockData::new(AIR)));
                self.current.insert_entity(chunk, self.chunks.len() - 1);
                self.chunks.len() - 1
            }
        };
        self.chunks[entity].set(local.x, local.y, local.z, BlockData::new(kind));
    }

    fn with_stone(voxels: &[(i32, i32, i32)]) -> Fixture {
        let mut f = Fixture::new();
        for v in voxels {
            f.put(*v, STONE);
        }
        f
    }

    fn touches(&self, body: &Aabb) -> bool {
        aabb_intersects_world(body, &self.chunks, &self.current, &self.table)
    }

    fn touched(&self, body: &Aabb) -> Vec<VoxelPos> {
        get_aabb_world_intersectors(body, &self.chunks, &self.current, &self.table)
    }

    fn swept(&self, body: &Aabb, velocity: Vec3) -> Vec<CollisionInfo> {
        aabb_vs_world(body, &self.chunks, velocity, &self.current, &self.table)
    }
}

fn body_at(center: (i64, i64, i64), half: (i64, i64, i64)) -> Aabb {
    Aabb::new(
        Vec3::new(center.0, center.1, center.2).unwrap(),
        Vec3::new(half.0, half.1, half.2).unwrap(),
    )
    .unwrap()
}

fn speed(x: i64, y: i64, z: i64) -> Vec3 {
    Vec3::new(x, y, z).unwrap()
}

#[test]
fn landing_on_the_only_voxel_gives_one_collision() {
    let world = Fixture::with_stone(&[(0, 0, 0)]);
    let body = body_at((500_000, 2_000_000, 500_000), (400_000, 900_000, 400_000));
    let hits = world.swept(&body, speed(0, -1_500_000, 0));
    assert_eq!(hits.len(), 1);
    assert_eq!(hits[0].collision_aabb.center(), speed(500_000, 500_000, 500_000));
    assert_eq!(hits[0].collision_aabb.half_extents(), speed(500_000, 500_000, 500_000));
    assert_eq!(hits[0].normal, IVec3::new(0, 1, 0));
    assert_eq!(hits[0].dist, 100_000);
}

#[test]
fn empty_world_gives_no_collision() {
    let world = Fixture::new();
    let body = body_at((0, 0, 0), (U, U, U));
    assert_eq!(world.swept(&body, speed(U, U, U)), Vec::new());
    assert_eq!(world.touched(&body), Vec::new());
    assert!(!world.touches(&body));
}

#[test]
fn empty_kinds_of_block_are_passed_through() {
    let mut world = Fixture::new();
    world.put((0, 0, 0), WATER);
    world.put((1, 0, 0), AIR);
    // a kind that the table does not know
    world.put((0, 0, 1), 9);
    let body = body_at((500_000, 2_000_000, 500_000), (400_000, 900_000, 400_000));
    assert_eq!(world.swept(&body, speed(0, -1_500_000, 0)), Vec::new());
    let inside = body_at((U / 2, U / 2, U / 2), (U, U, U));
    assert!(!world.touches(&inside));
    assert_eq!(world.touched(&inside), Vec::new());
    world.put((0, 0, 0), STONE);
    assert_eq!(world.swept(&body, speed(0, -1_500_000, 0)).len(), 1);
    assert!(world.touches(&inside));
}

#[test]
fn chunk_without_data_holds_nothing() {
    let mut world = Fixture::with_stone(&[(0, 0, 0)]);
    // the loaded chunk is named, but its entity carries no data
    let (_, chunk) = VoxelPos::new(0, 0, 0).to_offsets();
    world.current.insert_entity(chunk, 17);
    let inside = body_at((U / 2, U / 2, U / 2), (U, U, U));
    assert!(!world.touches(&inside));
    assert_eq!(world.touched(&inside), Vec::new());
    assert_eq!(world.swept(&inside, speed(0, -U, 0)), Vec::new());
    // and a chunk that is no longer loaded
    world.current.remove_entity(chunk);
    assert!(!world.touches(&inside));
    world.current.insert_entity(chunk, 0);
    assert!(world.touches(&inside));
}

#[test]
fn collisions_come_in_the_order_of_the_search() {
    // a floor of three by three voxels under the body, across four chunks
    let mut floor = Vec::new();
    for x in -1..=1 {
        for z in -1..=1 {
            floor.push((x, -1, z));
        }
    }
    let world = Fixture::with_stone(&floor);
    let body = body_at((U / 2, U, U / 2), (U, U / 2, U));
    let hits = world.swept(&body, speed(0, -U, 0));
    let expected: Vec<CollisionInfo> = floor
        .iter()
        .map(|v| CollisionInfo {
            collision_aabb: Aabb::of_voxel(VoxelPos::new(v.0, v.1, v.2)),
            normal: IVec3::new(0, 1, 0),
            dist: U / 2,
        })
        .collect();
    assert_eq!(hits, expected);
}

#[test]
fn body_at_rest_has_no_swept_collision_but_touches() {
    let world = Fixture::with_stone(&[(0, 0, 0), (0, 1, 0), (3, 3, 3)]);
    let inside = body_at((U / 2, U / 2, U / 2), (U / 4, U / 4, U / 4));
    assert_eq!(world.swept(&inside, Vec3::zero()), Vec::new());
    assert!(world.touches(&inside));
    assert_eq!(world.touched(&inside), vec![VoxelPos::new(0, 0, 0)]);
    let tall = body_at((U / 2, U, U / 2), (U / 4, U / 2, U / 4));
    assert_eq!(world.swept(&tall, Vec3::zero()), Vec::new());
    assert_eq!(world.touched(&tall), vec![VoxelPos::new(0, 0, 0), VoxelPos::new(0, 1, 0)]);
}

#[test]
fn voxel_apart_along_an_axis_at_rest_gives_no_collision() {
    let world = Fixture::with_stone(&[(0, 0, 0)]);
    for gap in [1, EPSILON, EPSILON + 1, 3 * EPSILON, U / 2] {
        // the body passes over the voxel, `gap` above its top
        let body = body_at((-U, 3 * U / 2 + gap, U / 2), (U / 2, U / 2, U / 2));
        assert_eq!(world.swept(&body, speed(2 * U, 0, 0)), Vec::new());
    }
    // on the level of the top it is stopped by the voxel's top
    let body = body_at((-U, 3 * U / 2, U / 2), (U / 2, U / 2, U / 2));
    let hits = world.swept(&body, speed(2 * U, 0, 0));
    assert_eq!(hits.len(), 1);
    assert_eq!(hits[0].normal, IVec3::new(0, 1, 0));
    assert_eq!(hits[0].dist, 0);
}

#[test]
fn touching_voxels_are_listed_in_the_order_of_the_search() {
    let world = Fixture::with_stone(&[(1, 0, 0), (0, 0, 1), (0, 0, 0), (-1, 0, 0), (5, 0, 0)]);
    let body = body_at((U / 2, U / 2, U / 2), (U / 2, U / 2, U / 2));
    assert_eq!(
        world.touched(&body),
        vec![
            VoxelPos::new(-1, 0, 0),
            VoxelPos::new(0, 0, 0),
            VoxelPos::new(0, 0, 1),
            VoxelPos::new(1, 0, 0)
        ]
    );
    // each voxel that is listed splits into its chunk and its place there
    let (local, chunk) = world.touched(&body)[0].to_offsets();
    assert_eq!((local.x, local.y, local.z), (31, 0, 0));
    assert_eq!((chunk.x, chunk.y, chunk.z), (-1, 0, 0));
}

#[test]
fn touching_within_the_tolerance() {
    let world = Fixture::with_stone(&[(0, 0, 0)]);
    let beside = |gap: i64| body_at((3 * U / 2 + gap, U / 2, U / 2), (U / 2, U / 2, U / 2));
    assert!(world.touches(&beside(0)));
    assert!(world.touches(&beside(EPSILON / 2)));
    assert!(world.touches(&beside(2 * EPSILON)));
    assert!(!world.touches(&beside(2 * EPSILON + 1)));
    assert!(!world.touches(&beside(U)));
    assert_eq!(world.touched(&beside(2 * EPSILON)), vec![VoxelPos::new(0, 0, 0)]);
    assert_eq!(world.touched(&beside(2 * EPSILON + 1)), Vec::new());
}

fn grid_is_stone(x: i32, y: i32, z: i32) -> bool {
    (x * 7 + y * 13 + z * 31).rem_euclid(5) < 2
}

fn grid(radius: i32) -> Fixture {
    let mut world = Fixture::new();
    for x in -radius..=radius {
        for y in -radius..=radius {
            for z in -radius..=radius {
                if grid_is_stone(x, y, z) {
                    world.put((x, y, z), STONE);
                } else if (x + y + z).rem_euclid(3) == 0 {
                    world.put((x, y, z), WATER);
                }
            }
        }
    }
    world
}

struct Lcg(u64);

impl Lcg {
    fn next(&mut self) -> u64 {
        self.0 = self.0.wrapping_mul(6364136223846793005).wrapping_add(1442695040888963407);
        self.0 >> 33
    }

    fn between(&mut self, lo: i64, hi: i64) -> i64 {
        lo + (self.next() % ((hi - lo + 1) as u64)) as i64
    }
}

#[test]
fn any_touch_agrees_with_the_list_and_with_a_scan_of_the_grid() {
    let radius = 4;
    let world = grid(radius);
    let mut rng = Lcg(7);
    let mut seen_true = 0;
    let mut seen_false = 0;
    for _ in 0..200 {
        let body = body_at(
            (rng.between(-U, U), rng.between(-U, U), rng.between(-U, U)),
            (rng.between(0, U / 3), rng.between(0, U / 3), rng.between(0, U / 3)),
        );
        let mut expected = Vec::new();
        for x in -radius..=radius {
            for y in -radius..=radius {
                for z in -radius..=radius {
                    let voxel = VoxelPos::new(x, y, z);
                    if grid_is_stone(x, y, z) && aabbs_intersect(&body, &Aabb::of_voxel(voxel)) {
                        expected.push(voxel);
                    }
                }
            }
        }
        let listed = world.touched(&body);
        assert_eq!(listed, expected);
        assert_eq!(world.touches(&body), !listed.is_empty());
        if listed.is_empty() {
            seen_false += 1;
        } else {
            seen_true += 1;
        }
    }
    assert!(seen_true > 10);
    assert!(seen_false > 10);
}

#[test]
fn search_misses_no_collision_that_a_scan_of_the_grid_finds() {
    let radius = 8;
    let world = grid(radius);
    let mut rng = Lcg(11);
    let mut found = 0;
    for round in 0..60 {
        let body = body_at(
            (rng.between(0, U - 1), rng.between(0, U - 1), rng.between(0, U - 1)),
            (rng.between(0, 3 * U / 2), rng.between(0, 3 * U / 2), rng.between(0, 3 * U / 2)),
        );
        let mut velocity = (
            rng.between(-3 * U, 3 * U),
            rng.between(-3 * U, 3 * U),
            rng.between(-3 * U, 3 * U),
        );
        // now and then the body rests along an axis
        if round % 3 == 0 {
            velocity.1 = 0;
        }
        if round % 7 == 0 {
            velocity.0 = 0;
        }
        let velocity = speed(velocity.0, velocity.1, velocity.2);
        let mut expected = Vec::new();
        for x in -radius..=radius {
            for y in -radius..=radius {
                for z in -radius..=radius {
                    if grid_is_stone(x, y, z) {
                        let voxel = Aabb::of_voxel(VoxelPos::new(x, y, z));
                        if let Some(hit) = get_collision_info(&body, &voxel, &velocity) {
                            expected.push(hit);
                        }
                    }
                }
            }
        }
        let swept = world.swept(&body, velocity);
        assert_eq!(swept, expected);
        for hit in swept.iter() {
            let n = hit.normal;
            assert_eq!(n.x.abs() + n.y.abs() + n.z.abs(), 1);
            assert!(hit.dist >= 0);
        }
        found += swept.len();
    }
    assert!(found > 60);
}

#[test]
fn search_of_a_body_faster_than_the_tolerance_allows_is_not_complete() {
    // forty thousand voxels in one step: the voxel three behind the body is passed, by the
    // rules of the collision, no earlier than the tolerance before the start
    let body = body_at((U / 2, U / 2, U / 2), (U / 2, U / 2, U / 2));
    let velocity = speed(40_000 * U, 0, 0);
    let behind = Aabb::of_voxel(VoxelPos::new(-3, 0, 0));
    let hit = get_collision_info(&body, &behind, &velocity).unwrap();
    assert_eq!(hit.normal, IVec3::new(1, 0, 0));
    assert_eq!(hit.dist, 4 * U);
    // the search starts two voxels behind the body
    let world = Fixture::with_stone(&[(-3, 0, 0)]);
    assert_eq!(world.swept(&body, velocity), Vec::new());
    // a body a little slower has no collision with that voxel
    let slower = speed(40_000 * U - 1, 0, 0);
    assert_eq!(get_collision_info(&body, &behind, &slower), None);
}

#[test]
fn queries_at_the_corner_of_the_world() {
    let corner = (i32::MAX, i32::MIN, 0);
    let world = Fixture::with_stone(&[corner, (i32::MAX - 1, i32::MIN, 0)]);
    let body = body_at((COORD_MAX - U / 2, COORD_MIN + U / 2, U / 2), (U / 4, U / 4, U / 4));
    assert!(world.touches(&body));
    assert_eq!(world.touched(&body), vec![VoxelPos::new(corner.0, corner.1, corner.2)]);
    // moving down the x axis, into the neighbour
    let hits = world.swept(&body, speed(-U, 0, 0));
    assert_eq!(hits.len(), 1);
    assert_eq!(
        hits[0].collision_aabb,
        Aabb::of_voxel(VoxelPos::new(i32::MAX - 1, i32::MIN, 0))
    );
    assert_eq!(hits[0].normal, IVec3::new(1, 0, 0));
    // the center lies one unit short of the middle of the last voxel
    assert_eq!(hits[0].dist, U / 4 - 1);
    // moving out of the world, there is nothing to run into
    assert_eq!(world.swept(&body, speed(U, -U, 0)), Vec::new());
}
