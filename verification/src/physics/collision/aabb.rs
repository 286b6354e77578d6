//! The overlap test and the swept collision of two boxes.
use crate::math::{Axis, IVec3, Point3, Vec3, EPSILON, UNITS_PER_VOXEL};
use crate::physics::collision::neighborhood::{
    candidates, lemma_box_voxels_contains, search_max, search_min, Neighborhood,
};
use crate::physics::collision::time::{StepTime, Time};
use crate::physics::collision::volume::{Aabb, Volume};
use crate::world::chunks::ecs::{is_solid, CurrentChunks, World};
use crate::world::chunks::positions::VoxelPos;
use crate::world::chunks::storage::{BlockTable, ChunkData};
use vstd::prelude::*;

verus! {

/// Whether the two boxes, each grown by the tolerance on both faces, meet
/// along `axis`.
pub open spec fn overlap_on(a: Volume, b: Volume, axis: Axis) -> bool {
    &&& a.min().along(axis) - EPSILON <= b.max().along(axis) + EPSILON
    &&& b.min().along(axis) - EPSILON <= a.max().along(axis) + EPSILON
}

/// Whether the two boxes, each grown by the tolerance on every face, meet:
/// no axis separates them.
pub open spec fn intersect(a: Volume, b: Volume) -> bool {
    overlap_on(a, b, Axis::X) && overlap_on(a, b, Axis::Y) && overlap_on(a, b, Axis::Z)
}

/// Whether the boxes are within the tolerance of each other.
pub fn aabbs_intersect(a: &Aabb, b: &Aabb) -> (r: bool)
    ensures
        r == intersect(a@, b@),
{
    !(a.min(Axis::X) - EPSILON > b.max(Axis::X) + EPSILON
        || b.min(Axis::X) - EPSILON > a.max(Axis::X) + EPSILON
        || a.min(Axis::Y) - EPSILON > b.max(Axis::Y) + EPSILON
        || b.min(Axis::Y) - EPSILON > a.max(Axis::Y) + EPSILON
        || a.min(Axis::Z) - EPSILON > b.max(Axis::Z) + EPSILON
        || b.min(Axis::Z) - EPSILON > a.max(Axis::Z) + EPSILON)
}

/// A collision, as mathematics sees it.
pub struct Collision {
    /// The box that was hit.
    pub collision_aabb: Volume,
    /// The direction away from the face that was hit.
    pub normal: Point3,
    /// The distance, in units, between the two faces that meet, at the start
    /// of the step.
    pub dist: int,
}

/// A collision of a moving box with a box at rest.
#[derive(Clone, Copy, Debug, PartialEq, Eq)]
pub struct CollisionInfo {
    /// The box that was hit.
    pub collision_aabb: Aabb,
    /// The direction away from the face that was hit: `1` or `-1` along one
    /// axis, zero along the others.
    pub normal: IVec3,
    /// The distance, in units, between the two faces that meet, at the start
    /// of the step. Never negative.
    pub dist: i64,
}

impl View for CollisionInfo {
    type V = Collision;

    open spec fn view(&self) -> Collision {
        Collision {
            collision_aabb: self.collision_aabb@,
            normal: self.normal@,
            dist: self.dist as int,
        }
    }
}

/// Along `axis`, the signed distance from the leading face of `a` to the
/// face of `b` that it meets first. The leading face is the high one where
/// `a` moves up the axis, the low one where it moves down or rests.
pub open spec fn inv_enter(a: Volume, b: Volume, velocity: Point3, axis: Axis) -> int {
    if velocity.along(axis) > 0 {
        b.min().along(axis) - a.max().along(axis)
    } else {
        b.max().along(axis) - a.min().along(axis)
    }
}

/// Along `axis`, the signed distance from the trailing face of `a` to the
/// far face of `b`.
pub open spec fn inv_exit(a: Volume, b: Volume, velocity: Point3, axis: Axis) -> int {
    if velocity.along(axis) > 0 {
        b.max().along(axis) - a.min().along(axis)
    } else {
        b.min().along(axis) - a.max().along(axis)
    }
}

/// Whether `p` and `q` have the same sign, zero counting as positive.
pub open spec fn same_sign(p: int, q: int) -> bool {
    (p >= 0) == (q >= 0)
}

/// Whether `a` rests along `axis` and is kept from `b` there: the two
/// distances have the same sign, so the boxes do not share the axis and no
/// motion will bring them together.
pub open spec fn held_apart(a: Volume, b: Volume, velocity: Point3, axis: Axis) -> bool {
    velocity.along(axis) == 0 && same_sign(
        inv_enter(a, b, velocity, axis),
        inv_exit(a, b, velocity, axis),
    )
}

/// The moment at which `a` reaches `b` along `axis`; before every moment
/// where `a` rests along the axis.
pub open spec fn enter(a: Volume, b: Volume, velocity: Point3, axis: Axis) -> Time {
    if velocity.along(axis) == 0 {
        Time::NegInfinity
    } else {
        Time::ratio(inv_enter(a, b, velocity, axis), velocity.along(axis))
    }
}

/// The moment at which `a` has passed `b` along `axis`; after every moment
/// where `a` rests along the axis.
pub open spec fn exit(a: Volume, b: Volume, velocity: Point3, axis: Axis) -> Time {
    if velocity.along(axis) == 0 {
        Time::PosInfinity
    } else {
        Time::ratio(inv_exit(a, b, velocity, axis), velocity.along(axis))
    }
}

/// The moment from which `a` has reached `b` along every axis.
pub open spec fn enter_time(a: Volume, b: Volume, velocity: Point3) -> Time {
    enter(a, b, velocity, Axis::X).max(enter(a, b, velocity, Axis::Y)).max(
        enter(a, b, velocity, Axis::Z),
    )
}

/// The moment from which `a` has passed `b` along some axis.
pub open spec fn exit_time(a: Volume, b: Volume, velocity: Point3) -> Time {
    exit(a, b, velocity, Axis::X).min(exit(a, b, velocity, Axis::Y)).min(
        exit(a, b, velocity, Axis::Z),
    )
}

/// The tolerance as a moment before the start of the step.
pub open spec fn before_start() -> Time {
    Time::At { num: -(EPSILON as int), den: UNITS_PER_VOXEL as int }
}

/// The start of the step.
pub open spec fn start() -> Time {
    Time::At { num: 0, den: 1 }
}

/// The end of the step.
pub open spec fn end() -> Time {
    Time::At { num: 1, den: 1 }
}

/// Whether `a`, moving by `velocity` over the step, collides with `b`
/// within the step: it is held apart from `b` along no axis, it has not
/// passed `b` along one axis before it reaches it along all, it does not
/// reach `b` along every axis earlier than the tolerance before the start,
/// and along no axis later than the end.
pub open spec fn collides(a: Volume, b: Volume, velocity: Point3) -> bool {
    &&& !held_apart(a, b, velocity, Axis::X)
    &&& !held_apart(a, b, velocity, Axis::Y)
    &&& !held_apart(a, b, velocity, Axis::Z)
    &&& !exit_time(a, b, velocity).lt(enter_time(a, b, velocity))
    &&& !(enter(a, b, velocity, Axis::X).lt(before_start()) && enter(a, b, velocity, Axis::Y).lt(
        before_start(),
    ) && enter(a, b, velocity, Axis::Z).lt(before_start()))
    &&& !end().lt(enter(a, b, velocity, Axis::X))
    &&& !end().lt(enter(a, b, velocity, Axis::Y))
    &&& !end().lt(enter(a, b, velocity, Axis::Z))
}

/// Whether `a` rests along `axis` with its leading face on the face of `b`.
pub open spec fn rests_flush(a: Volume, b: Volume, velocity: Point3, axis: Axis) -> bool {
    inv_enter(a, b, velocity, axis) == 0 && velocity.along(axis) == 0
}

/// Whether `a` moves along `axis` and touches `b` there at the start.
pub open spec fn touches_at_start(a: Volume, b: Volume, velocity: Point3, axis: Axis) -> bool {
    enter(a, b, velocity, axis).same(start())
}

/// The axis of the face that is hit. The first of these that applies
/// decides, and among axes `x` comes before `y`, and `y` before `z`: an axis
/// along which `a` rests flush on `b`; an axis along which `a` moves and
/// touches `b` at the start; the axis along which `a` reaches `b` last.
pub open spec fn contact_axis(a: Volume, b: Volume, velocity: Point3) -> Axis {
    if rests_flush(a, b, velocity, Axis::X) {
        Axis::X
    } else if rests_flush(a, b, velocity, Axis::Y) {
        Axis::Y
    } else if rests_flush(a, b, velocity, Axis::Z) {
        Axis::Z
    } else if touches_at_start(a, b, velocity, Axis::X) {
        Axis::X
    } else if touches_at_start(a, b, velocity, Axis::Y) {
        Axis::Y
    } else if touches_at_start(a, b, velocity, Axis::Z) {
        Axis::Z
    } else if enter_time(a, b, velocity).same(enter(a, b, velocity, Axis::X)) {
        Axis::X
    } else if enter_time(a, b, velocity).same(enter(a, b, velocity, Axis::Y)) {
        Axis::Y
    } else {
        Axis::Z
    }
}

/// The direction along `axis` away from the face of `b` that `a` hits:
/// up the axis where the far face of `b` lies behind the trailing face of
/// `a`, down the axis otherwise.
pub open spec fn normal_along(a: Volume, b: Volume, velocity: Point3, axis: Axis) -> Point3 {
    Point3::on_axis(
        axis,
        if inv_exit(a, b, velocity, axis) < 0 {
            1
        } else {
            -1
        },
    )
}

/// The magnitude of `v`.
pub open spec fn magnitude(v: int) -> int {
    if v < 0 {
        -v
    } else {
        v
    }
}

/// The collision of `a`, moving by `velocity` over the step, with `b` at
/// rest; `None` where there is none within the step.
pub open spec fn collision(a: Volume, b: Volume, velocity: Point3) -> Option<Collision> {
    if collides(a, b, velocity) {
        let axis = contact_axis(a, b, velocity);
        Some(
            Collision {
                collision_aabb: b,
                normal: normal_along(a, b, velocity, axis),
                dist: magnitude(inv_enter(a, b, velocity, axis)),
            },
        )
    } else {
        None
    }
}

/// The distances and the velocity along one axis.
struct AxisSweep {
    inv_enter: i64,
    inv_exit: i64,
    velocity: i64,
}

impl AxisSweep {
    /// Whether this holds what the two boxes and the velocity give along
    /// `axis`.
    spec fn is_for(self, a: Volume, b: Volume, velocity: Point3, axis: Axis) -> bool {
        &&& self.inv_enter == inv_enter(a, b, velocity, axis)
        &&& self.inv_exit == inv_exit(a, b, velocity, axis)
        &&& self.velocity == velocity.along(axis)
        &&& self.inv_enter > i64::MIN
        &&& self.inv_exit > i64::MIN
        &&& self.velocity > i64::MIN
    }

    /// Measures the two boxes along `axis`.
    fn measure(a: &Aabb, b: &Aabb, velocity: &Vec3, axis: Axis) -> (r: AxisSweep)
        ensures
            r.is_for(a@, b@, velocity@, axis),
    {
        let v: i64 = velocity.along(axis);
        if v > 0 {
            AxisSweep {
                inv_enter: b.min(axis) - a.max(axis),
                inv_exit: b.max(axis) - a.min(axis),
                velocity: v,
            }
        } else {
            AxisSweep {
                inv_enter: b.max(axis) - a.min(axis),
                inv_exit: b.min(axis) - a.max(axis),
                velocity: v,
            }
        }
    }

    fn held_apart(&self) -> (r: bool)
        ensures
            r == (self.velocity == 0 && same_sign(self.inv_enter as int, self.inv_exit as int)),
    {
        self.velocity == 0 && ((self.inv_enter >= 0) == (self.inv_exit >= 0))
    }

    fn enter(&self) -> (r: StepTime)
        requires
            self.inv_enter > i64::MIN,
            self.velocity > i64::MIN,
        ensures
            r@ == (if self.velocity == 0 {
                Time::NegInfinity
            } else {
                Time::ratio(self.inv_enter as int, self.velocity as int)
            }),
    {
        if self.velocity == 0 {
            StepTime::NegInfinity
        } else {
            StepTime::ratio(self.inv_enter, self.velocity)
        }
    }

    fn exit(&self) -> (r: StepTime)
        requires
            self.inv_exit > i64::MIN,
            self.velocity > i64::MIN,
        ensures
            r@ == (if self.velocity == 0 {
                Time::PosInfinity
            } else {
                Time::ratio(self.inv_exit as int, self.velocity as int)
            }),
    {
        if self.velocity == 0 {
            StepTime::PosInfinity
        } else {
            StepTime::ratio(self.inv_exit, self.velocity)
        }
    }

    fn rests_flush(&self) -> (r: bool)
        ensures
            r == (self.inv_enter == 0 && self.velocity == 0),
    {
        self.inv_enter == 0 && self.velocity == 0
    }

    /// The normal and the distance of a hit along `axis`.
    fn contact(&self, b: &Aabb, axis: Axis) -> (r: CollisionInfo)
        requires
            self.inv_enter > i64::MIN,
        ensures
            r@ == (Collision {
                collision_aabb: b@,
                normal: Point3::on_axis(
                    axis,
                    if self.inv_exit < 0 {
                        1
                    } else {
                        -1
                    },
                ),
                dist: magnitude(self.inv_enter as int),
            }),
    {
        let sign: i32 = if self.inv_exit < 0 {
            1
        } else {
            -1
        };
        let normal = match axis {
            Axis::X => IVec3 { x: sign, y: 0, z: 0 },
            Axis::Y => IVec3 { x: 0, y: sign, z: 0 },
            Axis::Z => IVec3 { x: 0, y: 0, z: sign },
        };
        let dist: i64 = if self.inv_enter < 0 {
            -self.inv_enter
        } else {
            self.inv_enter
        };
        CollisionInfo { collision_aabb: *b, normal, dist }
    }
}

/// The collision of `a`, moving by `a_velocity` over the step, with `b` at
/// rest, if there is one within the step.
pub fn get_collision_info(a: &Aabb, b: &Aabb, a_velocity: &Vec3) -> (r: Option<CollisionInfo>)
    ensures
        match r {
            Some(info) => collision(a@, b@, a_velocity@) == Some(info@),
            None => collision(a@, b@, a_velocity@) is None,
        },
{
    let x = AxisSweep::measure(a, b, a_velocity, Axis::X);
    let y = AxisSweep::measure(a, b, a_velocity, Axis::Y);
    let z = AxisSweep::measure(a, b, a_velocity, Axis::Z);
    if x.held_apart() || y.held_apart() || z.held_apart() {
        return None;
    }
    let enter_x = x.enter();
    let enter_y = y.enter();
    let enter_z = z.enter();
    let enter_time = enter_x.max(enter_y).max(enter_z);
    let exit_time = x.exit().min(y.exit()).min(z.exit());
    let before_start = StepTime::At { num: -EPSILON, den: UNITS_PER_VOXEL };
    let start = StepTime::At { num: 0, den: 1 };
    let end = StepTime::At { num: 1, den: 1 };
    if exit_time.lt(&enter_time) || (enter_x.lt(&before_start) && enter_y.lt(&before_start)
        && enter_z.lt(&before_start)) || end.lt(&enter_x) || end.lt(&enter_y) || end.lt(&enter_z) {
        None
    } else if x.rests_flush() {
        Some(x.contact(b, Axis::X))
    } else if y.rests_flush() {
        Some(y.contact(b, Axis::Y))
    } else if z.rests_flush() {
        Some(z.contact(b, Axis::Z))
    } else if enter_x.same(&start) {
        Some(x.contact(b, Axis::X))
    } else if enter_y.same(&start) {
        Some(y.contact(b, Axis::Y))
    } else if enter_z.same(&start) {
        Some(z.contact(b, Axis::Z))
    } else if enter_time.same(&enter_x) {
        Some(x.contact(b, Axis::X))
    } else if enter_time.same(&enter_y) {
        Some(y.contact(b, Axis::Y))
    } else {
        Some(z.contact(b, Axis::Z))
    }
}

/// No motion.
pub open spec fn at_rest() -> Point3 {
    Point3 { x: 0, y: 0, z: 0 }
}

/// Whether the voxel `voxel` holds a block that bodies collide with and is
/// within the tolerance of the box `volume`.
pub open spec fn touches(volume: Volume, world: World, voxel: Point3) -> bool {
    world.solid_at(voxel) && intersect(volume, Volume::of_voxel(voxel))
}

/// [`touches`] as a function of the voxel.
pub open spec fn touches_fn(volume: Volume, world: World) -> spec_fn(Point3) -> bool {
    |voxel: Point3| touches(volume, world, voxel)
}

/// The voxels that the box `volume` touches, in the order of the search
/// around the box at rest.
pub open spec fn intersectors(volume: Volume, world: World) -> Seq<Point3> {
    candidates(volume, at_rest()).filter(touches_fn(volume, world))
}

/// The collision of the box `volume`, moving by `velocity`, with the voxel
/// `voxel`: that with the voxel's box where the voxel holds a block that
/// bodies collide with, none otherwise.
pub open spec fn hit(volume: Volume, velocity: Point3, world: World, voxel: Point3) -> Option<
    Collision,
> {
    if world.solid_at(voxel) {
        collision(volume, Volume::of_voxel(voxel), velocity)
    } else {
        None
    }
}

/// [`hit`] as a function of the voxel.
pub open spec fn hit_fn(volume: Volume, velocity: Point3, world: World) -> spec_fn(
    Point3,
) -> Option<Collision> {
    |voxel: Point3| hit(volume, velocity, world, voxel)
}

/// The collisions of the box `volume`, moving by `velocity`, with the voxels
/// of the world, in the order of the search around the moving box.
pub open spec fn swept_collisions(volume: Volume, velocity: Point3, world: World) -> Seq<
    Collision,
> {
    candidates(volume, velocity).filter_map(hit_fn(volume, velocity, world))
}

/// The models of the positions in `s`.
pub open spec fn positions(s: Seq<VoxelPos>) -> Seq<Point3> {
    s.map_values(|pos: VoxelPos| pos@)
}

/// The models of the collisions in `s`.
pub open spec fn collisions(s: Seq<CollisionInfo>) -> Seq<Collision> {
    s.map_values(|info: CollisionInfo| info@)
}

/// A voxel of the world within the tolerance of a box is among those
/// searched around the box at rest.
pub proof fn lemma_touching_voxel_is_searched(volume: Volume, voxel: Point3)
    requires
        volume.wf(),
        voxel.is_voxel_index(),
        intersect(volume, Volume::of_voxel(voxel)),
    ensures
        candidates(volume, at_rest()).contains(voxel),
{
    lemma_box_voxels_contains(
        search_min(volume, at_rest()),
        search_max(volume, at_rest()),
        voxel,
    );
}

/// Whether the box `aabb` is within the tolerance of a voxel of the world
/// that holds a block that bodies collide with.
pub fn aabb_intersects_world(
    aabb: &Aabb,
    chunks: &Vec<ChunkData>,
    current_chunks: &CurrentChunks,
    block_table: &BlockTable,
) -> (r: bool)
    ensures
        r == exists|voxel: Point3|
            touches(aabb@, World::of(chunks, current_chunks, block_table), voxel),
{
    let ghost world = World::of(chunks, current_chunks, block_table);
    let still = Vec3::zero();
    let mut search = Neighborhood::new(aabb, &still);
    loop
        invariant
            world == World::of(chunks, current_chunks, block_table),
            search.voxels() == candidates(aabb@, at_rest()),
            forall|i: int|
                0 <= i < search.yielded().len() ==> !touches(
                    aabb@,
                    world,
                    #[trigger] search.yielded()[i],
                ),
        ensures
            search.yielded() == search.voxels(),
        decreases search.rest().len(),
    {
        match search.next() {
            None => {
                break ;
            },
            Some(voxel) => {
                if is_solid(voxel, chunks, current_chunks, block_table) {
                    let block_aabb = Aabb::of_voxel(voxel);
                    if aabbs_intersect(aabb, &block_aabb) {
                        assert(touches(aabb@, world, voxel@));
                        return true;
                    }
                }
            },
        }
    }
    proof {
        use_type_invariant(aabb);
        assert forall|voxel: Point3| !touches(aabb@, world, voxel) by {
            if touches(aabb@, world, voxel) {
                lemma_touching_voxel_is_searched(aabb@, voxel);
            }
        }
    }
    false
}

/// The voxels that the box `aabb` touches: those of the world that hold a
/// block that bodies collide with and are within the tolerance of the box, in
/// the order of the search.
pub fn get_aabb_world_intersectors(
    aabb: &Aabb,
    chunks: &Vec<ChunkData>,
    current_chunks: &CurrentChunks,
    block_table: &BlockTable,
) -> (r: Vec<VoxelPos>)
    ensures
        positions(r@) == intersectors(aabb@, World::of(chunks, current_chunks, block_table)),
{
    let ghost world = World::of(chunks, current_chunks, block_table);
    let mut found: Vec<VoxelPos> = Vec::new();
    let still = Vec3::zero();
    let mut search = Neighborhood::new(aabb, &still);
    loop
        invariant
            world == World::of(chunks, current_chunks, block_table),
            search.voxels() == candidates(aabb@, at_rest()),
            positions(found@) == search.yielded().filter(touches_fn(aabb@, world)),
        ensures
            search.yielded() == search.voxels(),
        decreases search.rest().len(),
    {
        let ghost before = search;
        match search.next() {
            None => {
                break ;
            },
            Some(voxel) => {
                proof {
                    before.yielded().lemma_filter_push(voxel@, touches_fn(aabb@, world));
                }
                if is_solid(voxel, chunks, current_chunks, block_table) {
                    let block_aabb = Aabb::of_voxel(voxel);
                    if aabbs_intersect(aabb, &block_aabb) {
                        found.push(voxel);
                    }
                }
            },
        }
    }
    found
}

/// Filtering a sequence with one more item at its end keeps what the
/// shorter sequence gave and adds what the item gives.
proof fn lemma_filter_map_push<A, B>(s: Seq<A>, item: A, f: spec_fn(A) -> Option<B>)
    ensures
        s.push(item).filter_map(f) == match f(item) {
            Some(b) => s.filter_map(f).push(b),
            None => s.filter_map(f),
        },
{
    assert(s.push(item).drop_last() =~= s);
}

/// The collisions of the box `aabb`, moving by `velocity` over the step, with
/// the voxels of the world that hold a block that bodies collide with, in
/// the order of the search; empty where there is no collision.
pub fn aabb_vs_world(
    aabb: &Aabb,
    chunks: &Vec<ChunkData>,
    velocity: Vec3,
    current_chunks: &CurrentChunks,
    block_table: &BlockTable,
) -> (r: Vec<CollisionInfo>)
    ensures
        collisions(r@) == swept_collisions(
            aabb@,
            velocity@,
            World::of(chunks, current_chunks, block_table),
        ),
{
    let ghost world = World::of(chunks, current_chunks, block_table);
    let mut found: Vec<CollisionInfo> = Vec::new();
    let mut search = Neighborhood::new(aabb, &velocity);
    loop
        invariant
            world == World::of(chunks, current_chunks, block_table),
            search.voxels() == candidates(aabb@, velocity@),
            collisions(found@) == search.yielded().filter_map(hit_fn(aabb@, velocity@, world)),
        ensures
            search.yielded() == search.voxels(),
        decreases search.rest().len(),
    {
        let ghost before = search;
        match search.next() {
            None => {
                break ;
            },
            Some(voxel) => {
                proof {
                    lemma_filter_map_push(
                        before.yielded(),
                        voxel@,
                        hit_fn(aabb@, velocity@, world),
                    );
                }
                if is_solid(voxel, chunks, current_chunks, block_table) {
                    let block_aabb = Aabb::of_voxel(voxel);
                    match get_collision_info(aabb, &block_aabb, &velocity) {
                        Some(info) => {
                            found.push(info);
                        },
                        None => {},
                    }
                }
            },
        }
    }
    found
}

} // verus!
