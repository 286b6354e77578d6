//! What holds of the overlap test, the swept collision and the search,
//! whatever the boxes and the world.
use crate::math::{Axis, Point3, EPSILON, UNITS_PER_VOXEL};
use crate::physics::collision::aabb::{
    at_rest, collides, collision, enter, enter_time, exit, exit_time, before_start, hit, hit_fn,
    intersect, intersectors, inv_enter, inv_exit, magnitude, swept_collisions, touches, touches_fn,
    lemma_touching_voxel_is_searched, Collision,
};
use crate::physics::collision::neighborhood::{
    candidates, lemma_box_voxels_contains, search_hi, search_lo, search_max, search_min,
};
use crate::physics::collision::time::{
    lemma_le_transitive, lemma_max_is_upper_bound, lemma_min_is_lower_bound, Time,
};
use crate::physics::collision::volume::Volume;
use crate::world::chunks::ecs::World;
use vstd::prelude::*;

verus! {

/// The overlap test does not depend on the order of the two boxes.
pub proof fn lemma_intersect_symmetric(a: Volume, b: Volume)
    ensures
        intersect(a, b) == intersect(b, a),
{
}

/// How far apart the two boxes are along `axis`: the distance between the
/// two faces that look at each other; negative where the boxes share a part
/// of the axis.
pub open spec fn separation(a: Volume, b: Volume, axis: Axis) -> int {
    let above = b.min().along(axis) - a.max().along(axis);
    let below = a.min().along(axis) - b.max().along(axis);
    if above > below {
        above
    } else {
        below
    }
}

/// Boxes more than twice the tolerance apart along some axis do not pass the
/// overlap test, and boxes that are apart by that or less along every axis
/// do.
pub proof fn lemma_intersect_by_separation(a: Volume, b: Volume)
    ensures
        intersect(a, b) <==> (separation(a, b, Axis::X) <= 2 * EPSILON && separation(
            a,
            b,
            Axis::Y,
        ) <= 2 * EPSILON && separation(a, b, Axis::Z) <= 2 * EPSILON),
{
}

/// A box that rests along an axis, and is apart from another along that
/// axis, does not collide with it, however it moves along the other axes.
pub proof fn lemma_apart_at_rest_no_collision(a: Volume, b: Volume, velocity: Point3, axis: Axis)
    requires
        a.wf(),
        b.wf(),
        velocity.along(axis) == 0,
        separation(a, b, axis) > 0,
    ensures
        collision(a, b, velocity) is None,
{
}

/// A box that rests along an axis collides only with a box that it shares
/// the axis with: its low face is at or below the other's high face, and its
/// high face above the other's low face.
pub proof fn lemma_collision_at_rest_shares_axis(
    a: Volume,
    b: Volume,
    velocity: Point3,
    axis: Axis,
)
    requires
        a.wf(),
        b.wf(),
        velocity.along(axis) == 0,
        collision(a, b, velocity) is Some,
    ensures
        a.min().along(axis) <= b.max().along(axis),
        b.min().along(axis) < a.max().along(axis),
{
}

/// A box that does not move collides with nothing, not even with a box that
/// it overlaps along every axis.
pub proof fn lemma_at_rest_no_collision(a: Volume, b: Volume)
    ensures
        collision(a, b, at_rest()) is None,
{
}

/// A collision names the box that was hit, a distance that is not negative,
/// and a normal of length one along one axis.
pub proof fn lemma_collision_well_formed(a: Volume, b: Volume, velocity: Point3)
    requires
        collision(a, b, velocity) is Some,
    ensures
        collision(a, b, velocity).unwrap().collision_aabb == b,
        collision(a, b, velocity).unwrap().dist >= 0,
        exists|axis: Axis, sign: int|
            (sign == 1 || sign == -1) && collision(a, b, velocity).unwrap().normal
                == #[trigger] Point3::on_axis(axis, sign),
{
}

/// Where nothing in a sequence gives a value, filtering it gives nothing.
proof fn lemma_filter_map_none<A, B>(s: Seq<A>, f: spec_fn(A) -> Option<B>)
    requires
        forall|i: int| 0 <= i < s.len() ==> f(#[trigger] s[i]) is None,
    ensures
        s.filter_map(f).len() == 0,
    decreases s.len(),
{
    if s.len() > 0 {
        lemma_filter_map_none(s.drop_last(), f);
    }
}

/// What an item of a sequence gives is among what filtering the sequence
/// gives.
proof fn lemma_filter_map_keeps<A, B>(s: Seq<A>, f: spec_fn(A) -> Option<B>, i: int)
    requires
        0 <= i < s.len(),
        f(s[i]) is Some,
    ensures
        s.filter_map(f).contains(f(s[i]).unwrap()),
    decreases s.len(),
{
    let b = f(s[i]).unwrap();
    let rest = s.drop_last().filter_map(f);
    if i == s.len() - 1 {
        assert((rest + seq![b])[rest.len() as int] == b);
    } else {
        lemma_filter_map_keeps(s.drop_last(), f, i);
        let k = choose|k: int| 0 <= k < rest.len() && rest[k] == b;
        match f(s.last()) {
            Some(last) => {
                assert((rest + seq![last])[k] == b);
            },
            None => {},
        }
    }
}

/// A box that does not move has no collision with the world.
pub proof fn lemma_at_rest_no_swept_collisions(volume: Volume, world: World)
    ensures
        swept_collisions(volume, at_rest(), world).len() == 0,
{
    let f = hit_fn(volume, at_rest(), world);
    let s = candidates(volume, at_rest());
    assert forall|i: int| 0 <= i < s.len() implies f(#[trigger] s[i]) is None by {
        lemma_at_rest_no_collision(volume, Volume::of_voxel(s[i]));
    }
    lemma_filter_map_none(s, f);
}

/// A box that rests along an axis, in a world whose every solid voxel is
/// apart from it along that axis, has no collision with the world.
pub proof fn lemma_apart_at_rest_no_swept_collisions(
    volume: Volume,
    velocity: Point3,
    world: World,
    axis: Axis,
)
    requires
        volume.wf(),
        velocity.along(axis) == 0,
        forall|voxel: Point3| #[trigger]
            world.solid_at(voxel) ==> separation(volume, Volume::of_voxel(voxel), axis) > 0,
    ensures
        swept_collisions(volume, velocity, world).len() == 0,
{
    let f = hit_fn(volume, velocity, world);
    let s = candidates(volume, velocity);
    assert forall|i: int| 0 <= i < s.len() implies f(#[trigger] s[i]) is None by {
        if world.solid_at(s[i]) {
            lemma_apart_at_rest_no_collision(volume, Volume::of_voxel(s[i]), velocity, axis);
        }
    }
    lemma_filter_map_none(s, f);
}

/// The box touches some solid voxel of the world exactly when the list of
/// the voxels that it touches is not empty.
pub proof fn lemma_touching_agrees_with_intersectors(volume: Volume, world: World)
    requires
        volume.wf(),
    ensures
        (exists|voxel: Point3| touches(volume, world, voxel)) <==> intersectors(volume, world).len()
            > 0,
{
    let s = candidates(volume, at_rest());
    let pred = touches_fn(volume, world);
    if intersectors(volume, world).len() > 0 {
        s.lemma_filter_pred(pred, 0);
    }
    if exists|voxel: Point3| touches(volume, world, voxel) {
        let voxel = choose|voxel: Point3| touches(volume, world, voxel);
        lemma_touching_voxel_is_searched(volume, voxel);
        let i = choose|i: int| 0 <= i < s.len() && s[i] == voxel;
        s.lemma_filter_contains(pred, i);
    }
}

/// The list of the voxels that a box touches holds every solid voxel of the
/// world within the tolerance of the box, and no other voxel.
pub proof fn lemma_intersectors_complete(volume: Volume, world: World, voxel: Point3)
    requires
        volume.wf(),
    ensures
        intersectors(volume, world).contains(voxel) <==> touches(volume, world, voxel),
{
    let s = candidates(volume, at_rest());
    let pred = touches_fn(volume, world);
    if intersectors(volume, world).contains(voxel) {
        let i = choose|i: int| 0 <= i < s.filter(pred).len() && s.filter(pred)[i] == voxel;
        s.lemma_filter_pred(pred, i);
    }
    if touches(volume, world, voxel) {
        lemma_touching_voxel_is_searched(volume, voxel);
        let i = choose|i: int| 0 <= i < s.len() && s[i] == voxel;
        s.lemma_filter_contains(pred, i);
    }
}

/// Whether a body that moves by `velocity` over the step is slow enough for
/// the search to be complete: along each axis, the tolerance as a part of
/// the step moves it by less than a voxel.
pub open spec fn slow_enough(velocity: Point3) -> bool {
    &&& magnitude(velocity.x) * EPSILON < UNITS_PER_VOXEL * UNITS_PER_VOXEL
    &&& magnitude(velocity.y) * EPSILON < UNITS_PER_VOXEL * UNITS_PER_VOXEL
    &&& magnitude(velocity.z) * EPSILON < UNITS_PER_VOXEL * UNITS_PER_VOXEL
}

/// In a collision the moving box has not passed the other, along any axis,
/// earlier than the tolerance before the start of the step.
proof fn lemma_exit_not_before_start(a: Volume, b: Volume, velocity: Point3, axis: Axis)
    requires
        collides(a, b, velocity),
    ensures
        before_start().le(exit(a, b, velocity, axis)),
{
    let ex = enter(a, b, velocity, Axis::X);
    let ey = enter(a, b, velocity, Axis::Y);
    let ez = enter(a, b, velocity, Axis::Z);
    let xx = exit(a, b, velocity, Axis::X);
    let xy = exit(a, b, velocity, Axis::Y);
    let xz = exit(a, b, velocity, Axis::Z);
    let bs = before_start();
    let et = enter_time(a, b, velocity);
    let xt = exit_time(a, b, velocity);
    lemma_max_is_upper_bound(ex, ey);
    lemma_max_is_upper_bound(ex.max(ey), ez);
    lemma_min_is_lower_bound(xx, xy);
    lemma_min_is_lower_bound(xx.min(xy), xz);
    // the tolerance before the start is not after the moment of entry
    if !ex.lt(bs) {
        lemma_le_transitive(bs, ex, ex.max(ey));
        lemma_le_transitive(bs, ex.max(ey), et);
    } else if !ey.lt(bs) {
        lemma_le_transitive(bs, ey, ex.max(ey));
        lemma_le_transitive(bs, ex.max(ey), et);
    } else {
        lemma_le_transitive(bs, ez, et);
    }
    lemma_le_transitive(bs, et, xt);
    let x = exit(a, b, velocity, axis);
    match axis {
        Axis::X => {
            lemma_le_transitive(xt, xx.min(xy), xx);
        },
        Axis::Y => {
            lemma_le_transitive(xt, xx.min(xy), xy);
        },
        Axis::Z => {},
    }
    lemma_le_transitive(bs, xt, x);
}

/// In a collision the voxel that is hit lies, along each axis, between the
/// two ends of the search.
proof fn lemma_colliding_voxel_within_axis(
    volume: Volume,
    velocity: Point3,
    voxel: Point3,
    axis: Axis,
)
    requires
        volume.wf(),
        voxel.is_voxel_index(),
        slow_enough(velocity),
        collides(volume, Volume::of_voxel(voxel), velocity),
    ensures
        search_lo(volume, velocity, axis) <= voxel.along(axis) <= search_hi(volume, velocity, axis),
{
    let b = Volume::of_voxel(voxel);
    lemma_exit_not_before_start(volume, b, velocity, axis);
    // the moment of exit, written out along a moving axis
    let v = velocity.along(axis);
    let x = inv_exit(volume, b, velocity, axis);
    if v > 0 {
        assert(!(x * UNITS_PER_VOXEL < (-(EPSILON as int)) * v));
    } else if v < 0 {
        assert(!((-x) * UNITS_PER_VOXEL < (-(EPSILON as int)) * (-v)));
    }
}

/// The search around a moving box is complete: a voxel of the world with
/// which the box collides within the step is among the voxels searched, for
/// every body that is [`slow_enough`].
pub proof fn lemma_colliding_voxel_is_searched(volume: Volume, velocity: Point3, voxel: Point3)
    requires
        volume.wf(),
        voxel.is_voxel_index(),
        slow_enough(velocity),
        collision(volume, Volume::of_voxel(voxel), velocity) is Some,
    ensures
        candidates(volume, velocity).contains(voxel),
{
    lemma_colliding_voxel_within_axis(volume, velocity, voxel, Axis::X);
    lemma_colliding_voxel_within_axis(volume, velocity, voxel, Axis::Y);
    lemma_colliding_voxel_within_axis(volume, velocity, voxel, Axis::Z);
    lemma_box_voxels_contains(search_min(volume, velocity), search_max(volume, velocity), voxel);
}

/// The collisions found in the world are all there are: the collision of a
/// body that is [`slow_enough`] with any solid voxel of the world is among
/// them, and each of them is the collision with some solid voxel.
pub proof fn lemma_swept_collisions_complete(
    volume: Volume,
    velocity: Point3,
    world: World,
    c: Collision,
)
    requires
        volume.wf(),
        slow_enough(velocity),
    ensures
        swept_collisions(volume, velocity, world).contains(c) <==> exists|voxel: Point3|
            #[trigger] hit(volume, velocity, world, voxel) == Some(c),
{
    let s = candidates(volume, velocity);
    let f = hit_fn(volume, velocity, world);
    if s.filter_map(f).contains(c) {
        s.lemma_filter_map_contains(f, c);
    }
    if exists|voxel: Point3| #[trigger] hit(volume, velocity, world, voxel) == Some(c) {
        let voxel = choose|voxel: Point3| #[trigger] hit(volume, velocity, world, voxel) == Some(c);
        lemma_colliding_voxel_is_searched(volume, velocity, voxel);
        let i = choose|i: int| 0 <= i < s.len() && s[i] == voxel;
        lemma_filter_map_keeps(s, f, i);
    }
}

/// The search never leaves the box of voxels that it is made for.
pub proof fn lemma_candidates_within_search(volume: Volume, velocity: Point3, i: int)
    requires
        0 <= i < candidates(volume, velocity).len(),
    ensures
        search_lo(volume, velocity, Axis::X) <= candidates(volume, velocity)[i].x <= search_hi(
            volume,
            velocity,
            Axis::X,
        ),
        search_lo(volume, velocity, Axis::Y) <= candidates(volume, velocity)[i].y <= search_hi(
            volume,
            velocity,
            Axis::Y,
        ),
        search_lo(volume, velocity, Axis::Z) <= candidates(volume, velocity)[i].z <= search_hi(
            volume,
            velocity,
            Axis::Z,
        ),
{
    let s = candidates(volume, velocity);
    lemma_box_voxels_contains(search_min(volume, velocity), search_max(volume, velocity), s[i]);
}

} // verus!
