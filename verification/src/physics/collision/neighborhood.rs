//! The voxels around a moving box that it may touch within one step.
use crate::math::{
    ceil_to_voxel, floor_to_voxel, is_voxel_index, voxel_ceil, voxel_floor, Axis, Point3, Vec3,
    UNITS_PER_VOXEL,
};
use crate::physics::collision::volume::{Aabb, Volume};
use crate::world::chunks::positions::VoxelPos;
use vstd::prelude::*;

verus! {

/// How many voxels below the voxel of its center a box of half-extent
/// `half`, moving by `velocity`, may reach along one axis: the low end of
/// what it sweeps, rounded down, and one voxel more.
pub open spec fn reach_lo(half: int, velocity: int) -> int {
    voxel_floor(
        if velocity < 0 {
            -half + velocity
        } else {
            -half
        },
    ) - 1
}

/// How many voxels above the voxel of its center such a box may reach: the
/// high end of what it sweeps, rounded up, and one voxel more.
pub open spec fn reach_hi(half: int, velocity: int) -> int {
    voxel_ceil(
        if velocity > 0 {
            half + velocity
        } else {
            half
        },
    ) + 1
}

/// The voxel index of the world that is nearest to `i`.
pub open spec fn clamp_index(i: int) -> int {
    if i < i32::MIN {
        i32::MIN as int
    } else if i > i32::MAX {
        i32::MAX as int
    } else {
        i
    }
}

/// Along `axis`, the lowest voxel of the world that is searched for the box
/// `volume` moving by `velocity`.
pub open spec fn search_lo(volume: Volume, velocity: Point3, axis: Axis) -> int {
    clamp_index(
        voxel_floor(volume.center.along(axis)) + reach_lo(
            volume.half_extents.along(axis),
            velocity.along(axis),
        ),
    )
}

/// Along `axis`, the highest voxel of the world that is searched.
pub open spec fn search_hi(volume: Volume, velocity: Point3, axis: Axis) -> int {
    clamp_index(
        voxel_floor(volume.center.along(axis)) + reach_hi(
            volume.half_extents.along(axis),
            velocity.along(axis),
        ),
    )
}

/// The low corner of the box of voxels that is searched.
pub open spec fn search_min(volume: Volume, velocity: Point3) -> Point3 {
    Point3 {
        x: search_lo(volume, velocity, Axis::X),
        y: search_lo(volume, velocity, Axis::Y),
        z: search_lo(volume, velocity, Axis::Z),
    }
}

/// The high corner of the box of voxels that is searched.
pub open spec fn search_max(volume: Volume, velocity: Point3) -> Point3 {
    Point3 {
        x: search_hi(volume, velocity, Axis::X),
        y: search_hi(volume, velocity, Axis::Y),
        z: search_hi(volume, velocity, Axis::Z),
    }
}

/// The voxels `(x, y, z)` for `z` from `z_lo` to `z_hi`, in that order.
pub open spec fn row(x: int, y: int, z_lo: int, z_hi: int) -> Seq<Point3> {
    Seq::new(
        if z_hi >= z_lo {
            (z_hi - z_lo + 1) as nat
        } else {
            0
        },
        |i: int| Point3 { x, y, z: z_lo + i },
    )
}

/// The rows for `y` from `y_lo` to `y_hi`, one after the other.
pub open spec fn slab(x: int, y_lo: int, y_hi: int, z_lo: int, z_hi: int) -> Seq<Point3>
    decreases y_hi - y_lo + 1,
{
    if y_hi < y_lo {
        Seq::empty()
    } else {
        slab(x, y_lo, y_hi - 1, z_lo, z_hi) + row(x, y_hi, z_lo, z_hi)
    }
}

/// The slabs for `x` from `x_lo` to `x_hi`, one after the other.
pub open spec fn block(x_lo: int, x_hi: int, y_lo: int, y_hi: int, z_lo: int, z_hi: int) -> Seq<
    Point3,
>
    decreases x_hi - x_lo + 1,
{
    if x_hi < x_lo {
        Seq::empty()
    } else {
        block(x_lo, x_hi - 1, y_lo, y_hi, z_lo, z_hi) + slab(x_hi, y_lo, y_hi, z_lo, z_hi)
    }
}

/// The voxels of the box from `lo` to `hi`, both corners included, in the
/// order of a search: `x` changes slowest and `z` fastest.
pub open spec fn box_voxels(lo: Point3, hi: Point3) -> Seq<Point3> {
    block(lo.x, hi.x, lo.y, hi.y, lo.z, hi.z)
}

/// Whether `p` lies in the box from `lo` to `hi`, both corners included.
pub open spec fn in_box(lo: Point3, hi: Point3, p: Point3) -> bool {
    &&& lo.x <= p.x <= hi.x
    &&& lo.y <= p.y <= hi.y
    &&& lo.z <= p.z <= hi.z
}

/// The voxels that are searched for the box `volume` moving by `velocity`,
/// in the order of the search.
pub open spec fn candidates(volume: Volume, velocity: Point3) -> Seq<Point3> {
    box_voxels(search_min(volume, velocity), search_max(volume, velocity))
}

proof fn lemma_slab_contains(x: int, y_lo: int, y_hi: int, z_lo: int, z_hi: int, p: Point3)
    ensures
        slab(x, y_lo, y_hi, z_lo, z_hi).contains(p) <==> (p.x == x && y_lo <= p.y <= y_hi && z_lo
            <= p.z <= z_hi),
    decreases y_hi - y_lo + 1,
{
    if y_hi >= y_lo {
        let before = slab(x, y_lo, y_hi - 1, z_lo, z_hi);
        let last = row(x, y_hi, z_lo, z_hi);
        lemma_slab_contains(x, y_lo, y_hi - 1, z_lo, z_hi, p);
        if p.x == x && p.y == y_hi && z_lo <= p.z <= z_hi {
            assert((before + last)[before.len() + p.z - z_lo] == p);
        }
        if before.contains(p) {
            let i = choose|i: int| 0 <= i < before.len() && before[i] == p;
            assert((before + last)[i] == p);
        }
    }
}

proof fn lemma_block_contains(
    x_lo: int,
    x_hi: int,
    y_lo: int,
    y_hi: int,
    z_lo: int,
    z_hi: int,
    p: Point3,
)
    ensures
        block(x_lo, x_hi, y_lo, y_hi, z_lo, z_hi).contains(p) <==> (x_lo <= p.x <= x_hi && y_lo
            <= p.y <= y_hi && z_lo <= p.z <= z_hi),
    decreases x_hi - x_lo + 1,
{
    if x_hi >= x_lo {
        let before = block(x_lo, x_hi - 1, y_lo, y_hi, z_lo, z_hi);
        let last = slab(x_hi, y_lo, y_hi, z_lo, z_hi);
        lemma_block_contains(x_lo, x_hi - 1, y_lo, y_hi, z_lo, z_hi, p);
        lemma_slab_contains(x_hi, y_lo, y_hi, z_lo, z_hi, p);
        if last.contains(p) {
            let i = choose|i: int| 0 <= i < last.len() && last[i] == p;
            assert((before + last)[before.len() + i] == p);
        }
        if before.contains(p) {
            let i = choose|i: int| 0 <= i < before.len() && before[i] == p;
            assert((before + last)[i] == p);
        }
    }
}

/// The search of a box visits the voxels of the box and no others.
pub proof fn lemma_box_voxels_contains(lo: Point3, hi: Point3, p: Point3)
    ensures
        box_voxels(lo, hi).contains(p) <==> in_box(lo, hi, p),
{
    lemma_block_contains(lo.x, hi.x, lo.y, hi.y, lo.z, hi.z, p);
}

proof fn lemma_slab_no_duplicates(x: int, y_lo: int, y_hi: int, z_lo: int, z_hi: int)
    ensures
        slab(x, y_lo, y_hi, z_lo, z_hi).no_duplicates(),
    decreases y_hi - y_lo + 1,
{
    if y_hi >= y_lo {
        let before = slab(x, y_lo, y_hi - 1, z_lo, z_hi);
        let last = row(x, y_hi, z_lo, z_hi);
        lemma_slab_no_duplicates(x, y_lo, y_hi - 1, z_lo, z_hi);
        assert forall|i: int, j: int|
            0 <= i < (before + last).len() && 0 <= j < (before + last).len() && i != j implies (
        before + last)[i] != (before + last)[j] by {
            if i < before.len() {
                lemma_slab_contains(x, y_lo, y_hi - 1, z_lo, z_hi, before[i]);
            }
            if j < before.len() {
                lemma_slab_contains(x, y_lo, y_hi - 1, z_lo, z_hi, before[j]);
            }
        }
    }
}

proof fn lemma_block_no_duplicates(
    x_lo: int,
    x_hi: int,
    y_lo: int,
    y_hi: int,
    z_lo: int,
    z_hi: int,
)
    ensures
        block(x_lo, x_hi, y_lo, y_hi, z_lo, z_hi).no_duplicates(),
    decreases x_hi - x_lo + 1,
{
    if x_hi >= x_lo {
        let before = block(x_lo, x_hi - 1, y_lo, y_hi, z_lo, z_hi);
        let last = slab(x_hi, y_lo, y_hi, z_lo, z_hi);
        lemma_block_no_duplicates(x_lo, x_hi - 1, y_lo, y_hi, z_lo, z_hi);
        lemma_slab_no_duplicates(x_hi, y_lo, y_hi, z_lo, z_hi);
        assert forall|i: int, j: int|
            0 <= i < (before + last).len() && 0 <= j < (before + last).len() && i != j implies (
        before + last)[i] != (before + last)[j] by {
            if i < before.len() {
                lemma_block_contains(x_lo, x_hi - 1, y_lo, y_hi, z_lo, z_hi, before[i]);
            } else {
                lemma_slab_contains(x_hi, y_lo, y_hi, z_lo, z_hi, last[i - before.len()]);
            }
            if j < before.len() {
                lemma_block_contains(x_lo, x_hi - 1, y_lo, y_hi, z_lo, z_hi, before[j]);
            } else {
                lemma_slab_contains(x_hi, y_lo, y_hi, z_lo, z_hi, last[j - before.len()]);
            }
        }
    }
}

/// The search of a box visits no voxel twice.
pub proof fn lemma_box_voxels_no_duplicates(lo: Point3, hi: Point3)
    ensures
        box_voxels(lo, hi).no_duplicates(),
{
    lemma_block_no_duplicates(lo.x, hi.x, lo.y, hi.y, lo.z, hi.z);
}

/// The voxel that holds a point a whole number of voxels away from another
/// is as many voxels away from the voxel that holds the other.
pub proof fn lemma_voxel_of_offset(center: int, offset: int)
    ensures
        voxel_floor(center + offset * UNITS_PER_VOXEL) == voxel_floor(center) + offset,
{
}

proof fn lemma_slab_split(x: int, y_lo: int, y: int, y_hi: int, z_lo: int, z_hi: int)
    requires
        y_lo <= y <= y_hi,
    ensures
        slab(x, y_lo, y_hi, z_lo, z_hi) == slab(x, y_lo, y - 1, z_lo, z_hi) + row(x, y, z_lo, z_hi)
            + slab(x, y + 1, y_hi, z_lo, z_hi),
    decreases y_hi - y,
{
    if y < y_hi {
        lemma_slab_split(x, y_lo, y, y_hi - 1, z_lo, z_hi);
    }
}

proof fn lemma_block_split(x_lo: int, x: int, x_hi: int, y_lo: int, y_hi: int, z_lo: int, z_hi: int)
    requires
        x_lo <= x <= x_hi,
    ensures
        block(x_lo, x_hi, y_lo, y_hi, z_lo, z_hi) == block(x_lo, x - 1, y_lo, y_hi, z_lo, z_hi)
            + slab(x, y_lo, y_hi, z_lo, z_hi) + block(x + 1, x_hi, y_lo, y_hi, z_lo, z_hi),
    decreases x_hi - x,
{
    if x < x_hi {
        lemma_block_split(x_lo, x, x_hi - 1, y_lo, y_hi, z_lo, z_hi);
    }
}

/// The voxels of a box from the voxel `from` on, in the order of the search.
spec fn voxels_from(lo: Point3, hi: Point3, from: Point3) -> Seq<Point3> {
    row(from.x, from.y, from.z, hi.z) + slab(from.x, from.y + 1, hi.y, lo.z, hi.z) + block(
        from.x + 1,
        hi.x,
        lo.y,
        hi.y,
        lo.z,
        hi.z,
    )
}

/// The voxels of a box before the voxel `to`, in the order of the search.
spec fn voxels_before(lo: Point3, hi: Point3, to: Point3) -> Seq<Point3> {
    block(lo.x, to.x - 1, lo.y, hi.y, lo.z, hi.z) + slab(to.x, lo.y, to.y - 1, lo.z, hi.z) + row(
        to.x,
        to.y,
        lo.z,
        to.z - 1,
    )
}

/// The search of a box starts at its low corner.
proof fn lemma_voxels_from_start(lo: Point3, hi: Point3)
    requires
        in_box(lo, hi, lo),
    ensures
        voxels_from(lo, hi, lo) == box_voxels(lo, hi),
        voxels_before(lo, hi, lo) == Seq::<Point3>::empty(),
{
    lemma_block_split(lo.x, lo.x, hi.x, lo.y, hi.y, lo.z, hi.z);
    lemma_slab_split(lo.x, lo.y, lo.y, hi.y, lo.z, hi.z);
}

/// The voxels before a voxel of the box, and those from it on, make up the
/// box.
proof fn lemma_voxels_partition(lo: Point3, hi: Point3, at: Point3)
    requires
        in_box(lo, hi, at),
    ensures
        voxels_before(lo, hi, at) + voxels_from(lo, hi, at) == box_voxels(lo, hi),
{
    lemma_block_split(lo.x, at.x, hi.x, lo.y, hi.y, lo.z, hi.z);
    lemma_slab_split(at.x, lo.y, at.y, hi.y, lo.z, hi.z);
    assert(row(at.x, at.y, lo.z, hi.z) =~= row(at.x, at.y, lo.z, at.z - 1) + row(
        at.x,
        at.y,
        at.z,
        hi.z,
    ));
}

/// The search of the voxels around a moving box: it hands out the voxels of
/// [`candidates`] one at a time, and can be started again.
#[derive(Clone, Copy, Debug)]
pub struct Neighborhood {
    lo: VoxelPos,
    hi: VoxelPos,
    next: VoxelPos,
    done: bool,
}

impl Neighborhood {
    #[verifier::type_invariant]
    spec fn valid(self) -> bool {
        in_box(self.lo@, self.hi@, self.next@)
    }

    /// The low corner of the box that is searched.
    pub closed spec fn min_voxel(self) -> Point3 {
        self.lo@
    }

    /// The high corner of the box that is searched.
    pub closed spec fn max_voxel(self) -> Point3 {
        self.hi@
    }

    /// All the voxels of the search, in its order.
    pub open spec fn voxels(self) -> Seq<Point3> {
        box_voxels(self.min_voxel(), self.max_voxel())
    }

    /// The voxels handed out so far, in the order in which they came.
    pub closed spec fn yielded(self) -> Seq<Point3> {
        if self.done {
            box_voxels(self.lo@, self.hi@)
        } else {
            voxels_before(self.lo@, self.hi@, self.next@)
        }
    }

    /// The voxels still to come, in the order in which they will.
    pub closed spec fn rest(self) -> Seq<Point3> {
        if self.done {
            Seq::empty()
        } else {
            voxels_from(self.lo@, self.hi@, self.next@)
        }
    }

    /// One end of the search along one axis.
    fn bound(center: i64, reach: i64) -> (r: i32)
        requires
            is_voxel_index(center as int),
            -0x1_0000_0000_0000 <= reach <= 0x1_0000_0000_0000,
        ensures
            r == clamp_index(center + reach),
    {
        let i: i64 = center + reach;
        if i < -0x8000_0000 {
            -0x8000_0000
        } else if i > 0x7fff_ffff {
            0x7fff_ffff
        } else {
            i as i32
        }
    }

    /// The low and the high end of the search along `axis`.
    fn bounds(aabb: &Aabb, velocity: &Vec3, axis: Axis) -> (r: (i32, i32))
        ensures
            r.0 == search_lo(aabb@, velocity@, axis),
            r.1 == search_hi(aabb@, velocity@, axis),
            r.0 <= r.1,
    {
        let center: i64 = floor_to_voxel(aabb.center().along(axis));
        let half: i64 = aabb.half_extents().along(axis);
        let v: i64 = velocity.along(axis);
        proof {
            use_type_invariant(aabb);
        }
        let low: i64 = if v < 0 {
            -half + v
        } else {
            -half
        };
        let high: i64 = if v > 0 {
            half + v
        } else {
            half
        };
        let lo = Self::bound(center, floor_to_voxel(low) - 1);
        let hi = Self::bound(center, ceil_to_voxel(high) + 1);
        (lo, hi)
    }

    /// The search for the box `aabb` moving by `velocity` over the step,
    /// before its first voxel.
    pub fn new(aabb: &Aabb, velocity: &Vec3) -> (r: Neighborhood)
        ensures
            r.min_voxel() == search_min(aabb@, velocity@),
            r.max_voxel() == search_max(aabb@, velocity@),
            r.voxels() == candidates(aabb@, velocity@),
            r.yielded() == Seq::<Point3>::empty(),
            r.rest() == r.voxels(),
    {
        let (lo_x, hi_x) = Self::bounds(aabb, velocity, Axis::X);
        let (lo_y, hi_y) = Self::bounds(aabb, velocity, Axis::Y);
        let (lo_z, hi_z) = Self::bounds(aabb, velocity, Axis::Z);
        let lo = VoxelPos { x: lo_x, y: lo_y, z: lo_z };
        let hi = VoxelPos { x: hi_x, y: hi_y, z: hi_z };
        proof {
            lemma_voxels_from_start(lo@, hi@);
        }
        Neighborhood { lo, hi, next: lo, done: false }
    }

    /// Starts the search again, before its first voxel.
    pub fn restart(&mut self)
        ensures
            final(self).min_voxel() == old(self).min_voxel(),
            final(self).max_voxel() == old(self).max_voxel(),
            final(self).yielded() == Seq::<Point3>::empty(),
            final(self).rest() == old(self).voxels(),
    {
        proof {
            use_type_invariant(&*self);
            lemma_voxels_from_start(self.lo@, self.hi@);
        }
        self.next = self.lo;
        self.done = false;
    }

    /// Hands out the next voxel of the search, or `None` once all have been
    /// handed out.
    pub fn next(&mut self) -> (r: Option<VoxelPos>)
        ensures
            final(self).min_voxel() == old(self).min_voxel(),
            final(self).max_voxel() == old(self).max_voxel(),
            old(self).yielded() + old(self).rest() == old(self).voxels(),
            match r {
                Some(voxel) => {
                    &&& old(self).rest().len() > 0
                    &&& voxel@ == old(self).rest()[0]
                    &&& final(self).rest() == old(self).rest().drop_first()
                    &&& final(self).yielded() == old(self).yielded().push(voxel@)
                },
                None => {
                    &&& old(self).rest().len() == 0
                    &&& old(self).yielded() == old(self).voxels()
                    &&& *final(self) == *old(self)
                },
            },
    {
        proof {
            use_type_invariant(&*self);
            if !self.done {
                lemma_voxels_partition(self.lo@, self.hi@, self.next@);
            }
        }
        if self.done {
            return None;
        }
        let p = self.next;
        let ghost lo = self.lo@;
        let ghost hi = self.hi@;
        if p.z < self.hi.z {
            self.next = VoxelPos { x: p.x, y: p.y, z: p.z + 1 };
        } else if p.y < self.hi.y {
            self.next = VoxelPos { x: p.x, y: p.y + 1, z: self.lo.z };
            proof {
                lemma_slab_split(p@.x, p@.y + 1, p@.y + 1, hi.y, lo.z, hi.z);
            }
        } else if p.x < self.hi.x {
            self.next = VoxelPos { x: p.x + 1, y: self.lo.y, z: self.lo.z };
            proof {
                lemma_block_split(p@.x + 1, p@.x + 1, hi.x, lo.y, hi.y, lo.z, hi.z);
                lemma_slab_split(p@.x + 1, lo.y, lo.y, hi.y, lo.z, hi.z);
            }
        } else {
            self.done = true;
        }
        Some(p)
    }
}

} // verus!
