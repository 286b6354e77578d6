use vinox_common::math::{Axis, IVec3, InvalidArgument, Vec3, COORD_MAX, EPSILON, UNITS_PER_VOXEL};
use vinox_common::physics::collision::aabb::{aabbs_intersect, get_collision_info};
use vinox_common::physics::collision::volume::Aabb;
use vinox_common::world::chunks::positions::VoxelPos;

const U: i64 = UNITS_PER_VOXEL;

fn solver_vec(x: i64, y: i64, z: i64) -> Vec3 {
    Vec3::new(x, y, z).unwrap()
}

fn solver_box(center: (i64, i64, i64), half: (i64, i64, i64)) -> Aabb {
    Aabb::new(solver_vec(center.0, center.1, center.2), solver_vec(half.0, half.1, half.2)).unwrap()
}

fn unit_voxel() -> Aabb {
    Aabb::of_voxel(VoxelPos::new(0, 0, 0))
}

#[test]
fn negative_half_extent_is_refused() {
    let c = solver_vec(0, 0, 0);
    assert_eq!(Aabb::new(c, solver_vec(-1, 0, 0)), Err(InvalidArgument::NegativeExtent));
    assert_eq!(Aabb::new(c, solver_vec(0, -1, 0)), Err(InvalidArgument::NegativeExtent));
    assert_eq!(Aabb::new(c, solver_vec(5, 5, -U)), Err(InvalidArgument::NegativeExtent));
    let flat = Aabb::new(c, solver_vec(0, 0, 0)).unwrap();
    assert_eq!(flat.half_extents(), solver_vec(0, 0, 0));
    assert_eq!(flat.center(), c);
}

#[test]
fn box_of_a_voxel() {
    let b = Aabb::of_voxel(VoxelPos::new(2, -1, 0));
    assert_eq!(b.center(), solver_vec(2 * U + U / 2, -U / 2, U / 2));
    assert_eq!(b.half_extents(), solver_vec(U / 2, U / 2, U / 2));
    assert_eq!(b.min(Axis::X), 2 * U);
    assert_eq!(b.max(Axis::X), 3 * U);
    assert_eq!(b.min(Axis::Y), -U);
    assert_eq!(b.max(Axis::Y), 0);
    assert_eq!(b.min(Axis::Z), 0);
    assert_eq!(b.max(Axis::Z), U);
}

#[test]
fn overlap_does_not_depend_on_the_order() {
    let boxes = [
        unit_voxel(),
        solver_box((U + U / 2, U / 2, U / 2), (U / 2, U / 2, U / 2)),
        solver_box((U + U / 2 + 2 * EPSILON, U / 2, U / 2), (U / 2, U / 2, U / 2)),
        solver_box((U + U / 2 + 2 * EPSILON + 1, U / 2, U / 2), (U / 2, U / 2, U / 2)),
        solver_box((-3 * U, 7 * U, 0), (4 * U, U, 0)),
        solver_box((0, 0, 0), (0, 0, 0)),
        solver_box((U / 2, 2 * U, U / 2), (400_000, 900_000, 400_000)),
        solver_box((U / 2, -U, U / 2), (10 * U, U - 201, 10 * U)),
    ];
    for a in boxes.iter() {
        for b in boxes.iter() {
            assert_eq!(aabbs_intersect(a, b), aabbs_intersect(b, a));
        }
        assert!(aabbs_intersect(a, a));
    }
}

#[test]
fn overlap_within_the_tolerance() {
    let a = unit_voxel();
    let beside = |gap: i64| solver_box((U + U / 2 + gap, U / 2, U / 2), (U / 2, U / 2, U / 2));
    // sharing a part of the axis, touching, and apart by less than the tolerance
    assert!(aabbs_intersect(&a, &beside(-U / 4)));
    assert!(aabbs_intersect(&a, &beside(0)));
    assert!(aabbs_intersect(&a, &beside(EPSILON / 2)));
    assert!(aabbs_intersect(&a, &beside(EPSILON)));
    // each box is grown by the tolerance, so the two may be twice as far apart
    assert!(aabbs_intersect(&a, &beside(2 * EPSILON)));
    assert!(!aabbs_intersect(&a, &beside(2 * EPSILON + 1)));
    assert!(!aabbs_intersect(&a, &beside(3 * EPSILON)));
    assert!(!aabbs_intersect(&a, &beside(U)));
    // the same along the other axes, and on the low side
    let above = |gap: i64| solver_box((U / 2, U + U / 2 + gap, U / 2), (U / 2, U / 2, U / 2));
    assert!(aabbs_intersect(&a, &above(2 * EPSILON)));
    assert!(!aabbs_intersect(&a, &above(2 * EPSILON + 1)));
    let behind = |gap: i64| solver_box((U / 2, U / 2, -U / 2 - gap), (U / 2, U / 2, U / 2));
    assert!(aabbs_intersect(&a, &behind(2 * EPSILON)));
    assert!(!aabbs_intersect(&a, &behind(2 * EPSILON + 1)));
}

#[test]
fn body_lands_on_top_of_a_voxel() {
    let body = solver_box((500_000, 2_000_000, 500_000), (400_000, 900_000, 400_000));
    let velocity = solver_vec(0, -1_500_000, 0);
    let hit = get_collision_info(&body, &unit_voxel(), &velocity).unwrap();
    assert_eq!(hit.normal, IVec3::new(0, 1, 0));
    assert_eq!(hit.collision_aabb, unit_voxel());
    // the low face of the body starts a tenth of a voxel above the voxel
    assert_eq!(hit.dist, 100_000);
}

#[test]
fn body_that_starts_flush_on_a_voxel_lands_at_no_distance() {
    let body = solver_box((500_000, 1_900_000, 500_000), (400_000, 900_000, 400_000));
    let velocity = solver_vec(0, -1_500_000, 0);
    let hit = get_collision_info(&body, &unit_voxel(), &velocity).unwrap();
    assert_eq!(hit.normal, IVec3::new(0, 1, 0));
    assert_eq!(hit.dist, 0);
}

#[test]
fn diagonal_motion_into_a_corner_resolves_to_x() {
    let body = solver_box((U / 2, U / 2, U / 2), (U / 2, U / 2, U / 2));
    let velocity = solver_vec(U, 0, U);
    // the voxel whose corner edge the body's corner edge touches at the start
    let touching = Aabb::of_voxel(VoxelPos::new(1, 0, 1));
    let hit = get_collision_info(&body, &touching, &velocity).unwrap();
    assert_eq!(hit.normal, IVec3::new(-1, 0, 0));
    assert_eq!(hit.dist, 0);
    // the voxel one further along the diagonal, reached along x and z at the same moment
    let ahead = Aabb::of_voxel(VoxelPos::new(2, 0, 2));
    let hit = get_collision_info(&body, &ahead, &velocity).unwrap();
    assert_eq!(hit.normal, IVec3::new(-1, 0, 0));
    assert_eq!(hit.dist, U);
    // the other way round
    let back = solver_vec(-U, 0, -U);
    let behind = Aabb::of_voxel(VoxelPos::new(-2, 0, -2));
    let hit = get_collision_info(&body, &behind, &back).unwrap();
    assert_eq!(hit.normal, IVec3::new(1, 0, 0));
    assert_eq!(hit.dist, U);
}

#[test]
fn axis_at_rest_flush_on_a_face_decides_first() {
    // the body stands on the level of the voxel's top and slides towards it
    let body = solver_box((-U, U + U / 2, U / 2), (U / 2, U / 2, U / 2));
    let velocity = solver_vec(U, 0, 0);
    let hit = get_collision_info(&body, &unit_voxel(), &velocity).unwrap();
    assert_eq!(hit.normal, IVec3::new(0, 1, 0));
    assert_eq!(hit.dist, 0);
}

#[test]
fn axis_at_rest_flush_below_a_face_is_held_apart() {
    // the top of the body is level with the bottom of the voxel
    let body = solver_box((-U, -U / 2, U / 2), (U / 2, U / 2, U / 2));
    let velocity = solver_vec(U, 0, 0);
    assert_eq!(get_collision_info(&body, &unit_voxel(), &velocity), None);
}

#[test]
fn moving_axis_that_touches_at_the_start_decides_second() {
    let body = solver_box((-U / 2, U / 2, U / 2), (U / 2, U / 2, U / 2));
    let hit = get_collision_info(&body, &unit_voxel(), &solver_vec(U, 0, 0)).unwrap();
    assert_eq!(hit.normal, IVec3::new(-1, 0, 0));
    assert_eq!(hit.dist, 0);
    // y touches at the start, x is reached later: y decides
    let body = solver_box((-U, -U / 2, U / 2), (U / 2, U / 2, U / 2));
    let hit = get_collision_info(&body, &unit_voxel(), &solver_vec(U, U, 0)).unwrap();
    assert_eq!(hit.normal, IVec3::new(0, -1, 0));
    assert_eq!(hit.dist, 0);
}

#[test]
fn axis_reached_last_decides_third() {
    let body = solver_box((-3 * U / 2, -5 * U / 2, U / 2), (U / 2, U / 2, U / 2));
    // x is reached at 1/2, y at 2/3
    let hit = get_collision_info(&body, &unit_voxel(), &solver_vec(2 * U, 3 * U, 0)).unwrap();
    assert_eq!(hit.normal, IVec3::new(0, -1, 0));
    assert_eq!(hit.dist, 2 * U);
    // x is reached at 1/2, y at 2/5
    let hit = get_collision_info(&body, &unit_voxel(), &solver_vec(2 * U, 5 * U, 0)).unwrap();
    assert_eq!(hit.normal, IVec3::new(-1, 0, 0));
    assert_eq!(hit.dist, U);
    // z is reached last
    let body = solver_box((-3 * U / 2, -3 * U / 2, 7 * U / 2), (U / 2, U / 2, U / 2));
    let hit =
        get_collision_info(&body, &unit_voxel(), &solver_vec(2 * U, 2 * U, -2 * U)).unwrap();
    assert_eq!(hit.normal, IVec3::new(0, 0, 1));
    assert_eq!(hit.dist, 2 * U);
}

#[test]
fn ties_between_axes_go_to_the_first() {
    // x and y are reached at the same moment, written as 2/4 and 1/2
    let body = solver_box((-5 * U / 2, -3 * U / 2, U / 2), (U / 2, U / 2, U / 2));
    let hit = get_collision_info(&body, &unit_voxel(), &solver_vec(4 * U, 2 * U, 0)).unwrap();
    assert_eq!(hit.normal, IVec3::new(-1, 0, 0));
    assert_eq!(hit.dist, 2 * U);
    // y and z are reached at the same moment, x earlier
    let body = solver_box((-U, -3 * U / 2, -5 * U / 2), (U / 2, U / 2, U / 2));
    let hit =
        get_collision_info(&body, &unit_voxel(), &solver_vec(4 * U, 2 * U, 4 * U)).unwrap();
    assert_eq!(hit.normal, IVec3::new(0, -1, 0));
    assert_eq!(hit.dist, U);
}

#[test]
fn collision_beyond_the_step_is_none() {
    let body = solver_box((-3 * U / 2, U / 2, U / 2), (U / 2, U / 2, U / 2));
    // the gap is one voxel
    assert_eq!(get_collision_info(&body, &unit_voxel(), &solver_vec(U - 1, 0, 0)), None);
    let hit = get_collision_info(&body, &unit_voxel(), &solver_vec(U, 0, 0)).unwrap();
    assert_eq!(hit.normal, IVec3::new(-1, 0, 0));
    assert_eq!(hit.dist, U);
}

#[test]
fn passing_by_is_none() {
    // the body has passed the voxel along y before it reaches it along x
    let body = solver_box((-7 * U / 2, -U, U / 2), (U / 2, U / 2, U / 2));
    assert_eq!(get_collision_info(&body, &unit_voxel(), &solver_vec(4 * U, 4 * U, 0)), None);
}

#[test]
fn moving_away_is_none() {
    // inside the voxel along every axis and moving along all three
    let body = solver_box((7 * U / 10, 7 * U / 10, 7 * U / 10), (U / 2, U / 2, U / 2));
    assert_eq!(get_collision_info(&body, &unit_voxel(), &solver_vec(U, U, U)), None);
    // leaving a face behind by more than the tolerance
    let body = solver_box((3 * U / 2 + 2 * EPSILON, U / 2, U / 2), (U / 2, U / 2, U / 2));
    assert_eq!(get_collision_info(&body, &unit_voxel(), &solver_vec(U, 0, 0)), None);
}

#[test]
fn entry_within_the_tolerance_before_the_start_counts() {
    // the body is already past the face by a depth that it moves in less than the tolerance
    let body = solver_box((-U / 2 + 50, U / 2, U / 2), (U / 2, U / 2, U / 2));
    let hit = get_collision_info(&body, &unit_voxel(), &solver_vec(U, 0, 0)).unwrap();
    assert_eq!(hit.normal, IVec3::new(-1, 0, 0));
    assert_eq!(hit.dist, 50);
    // exactly the tolerance
    let body = solver_box((-U / 2 + 100, U / 2, U / 2), (U / 2, U / 2, U / 2));
    let hit = get_collision_info(&body, &unit_voxel(), &solver_vec(U, 0, 0)).unwrap();
    assert_eq!(hit.dist, 100);
    // a little more
    let body = solver_box((-U / 2 + 101, U / 2, U / 2), (U / 2, U / 2, U / 2));
    assert_eq!(get_collision_info(&body, &unit_voxel(), &solver_vec(U, 0, 0)), None);
}

#[test]
fn body_at_rest_collides_with_nothing() {
    let still = solver_vec(0, 0, 0);
    let inside = solver_box((U / 2, U / 2, U / 2), (U / 4, U / 4, U / 4));
    assert_eq!(get_collision_info(&inside, &unit_voxel(), &still), None);
    assert!(aabbs_intersect(&inside, &unit_voxel()));
    let same = unit_voxel();
    assert_eq!(get_collision_info(&same, &unit_voxel(), &still), None);
    let flush = solver_box((U / 2, 3 * U / 2, U / 2), (U / 2, U / 2, U / 2));
    assert_eq!(get_collision_info(&flush, &unit_voxel(), &still), None);
    let apart = solver_box((U / 2, 3 * U, U / 2), (U / 2, U / 2, U / 2));
    assert_eq!(get_collision_info(&apart, &unit_voxel(), &still), None);
}

#[test]
fn apart_along_an_axis_at_rest_is_none() {
    // the body moves along x only; along y it is apart from the voxel by `gap`
    let velocity = solver_vec(U, 0, 0);
    for gap in [1, EPSILON / 2, EPSILON, EPSILON + 1, 2 * EPSILON, U, 5 * U] {
        let above = solver_box((-U, 3 * U / 2 + gap, U / 2), (U / 2, U / 2, U / 2));
        assert_eq!(get_collision_info(&above, &unit_voxel(), &velocity), None);
        let below = solver_box((-U, -U / 2 - gap, U / 2), (U / 2, U / 2, U / 2));
        assert_eq!(get_collision_info(&below, &unit_voxel(), &velocity), None);
    }
    // sharing a part of the axis, the body is stopped by the face it moves towards
    let level = solver_box((-U, U / 2 + U / 4, U / 2), (U / 2, U / 2, U / 2));
    let hit = get_collision_info(&level, &unit_voxel(), &velocity).unwrap();
    assert_eq!(hit.normal, IVec3::new(-1, 0, 0));
    assert_eq!(hit.dist, U / 2);
}

#[test]
fn normal_points_to_the_side_the_body_comes_from() {
    let from_low = solver_box((-2 * U, U / 2, U / 2), (U / 2, U / 2, U / 2));
    let hit = get_collision_info(&from_low, &unit_voxel(), &solver_vec(2 * U, 0, 0)).unwrap();
    assert_eq!(hit.normal, IVec3::new(-1, 0, 0));
    assert_eq!(hit.dist, 3 * U / 2);
    let from_high = solver_box((3 * U, U / 2, U / 2), (U / 2, U / 2, U / 2));
    let hit = get_collision_info(&from_high, &unit_voxel(), &solver_vec(-2 * U, 0, 0)).unwrap();
    assert_eq!(hit.normal, IVec3::new(1, 0, 0));
    assert_eq!(hit.dist, 3 * U / 2);
    let from_front = solver_box((U / 2, U / 2, 3 * U), (U / 2, U / 2, U / 2));
    let hit = get_collision_info(&from_front, &unit_voxel(), &solver_vec(0, 0, -2 * U)).unwrap();
    assert_eq!(hit.normal, IVec3::new(0, 0, 1));
    assert_eq!(hit.dist, 3 * U / 2);
}

#[test]
fn collisions_at_the_ends_of_the_world() {
    // the largest distances and speeds that the world allows
    let far = Aabb::of_voxel(VoxelPos::new(i32::MAX, i32::MAX, i32::MAX));
    let body = Aabb::of_voxel(VoxelPos::new(i32::MIN, i32::MAX, i32::MAX));
    let fast = solver_vec(COORD_MAX, 0, 0);
    assert_eq!(get_collision_info(&body, &far, &fast), None);
    let near = Aabb::of_voxel(VoxelPos::new(i32::MIN + 2, i32::MAX, i32::MAX));
    let hit = get_collision_info(&body, &near, &fast).unwrap();
    assert_eq!(hit.normal, IVec3::new(-1, 0, 0));
    assert_eq!(hit.dist, U);
}
