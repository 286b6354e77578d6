//! Axis-aligned boxes.
use crate::math::{Axis, InvalidArgument, Point3, Vec3, UNITS_PER_VOXEL};
use crate::world::chunks::positions::VoxelPos;
use vstd::prelude::*;

verus! {

/// Half a voxel edge, in units.
pub const HALF_VOXEL: i64 = 500_000;

/// An axis-aligned box, as mathematics sees it: a center and, along each
/// axis, the distance from the center to either face.
pub struct Volume {
    pub center: Point3,
    pub half_extents: Point3,
}

impl Volume {
    /// The low corner.
    pub open spec fn min(self) -> Point3 {
        Point3 {
            x: self.center.x - self.half_extents.x,
            y: self.center.y - self.half_extents.y,
            z: self.center.z - self.half_extents.z,
        }
    }

    /// The high corner.
    pub open spec fn max(self) -> Point3 {
        Point3 {
            x: self.center.x + self.half_extents.x,
            y: self.center.y + self.half_extents.y,
            z: self.center.z + self.half_extents.z,
        }
    }

    /// Whether this is a box that an [`Aabb`] can hold: center and
    /// half-extents are coordinates of the world, and no half-extent is
    /// negative.
    pub open spec fn wf(self) -> bool {
        &&& self.center.in_world()
        &&& self.half_extents.in_world()
        &&& self.half_extents.x >= 0
        &&& self.half_extents.y >= 0
        &&& self.half_extents.z >= 0
    }

    /// The box that the voxel `voxel` fills.
    pub open spec fn of_voxel(voxel: Point3) -> Volume {
        Volume {
            center: Point3 {
                x: voxel.x * UNITS_PER_VOXEL + HALF_VOXEL,
                y: voxel.y * UNITS_PER_VOXEL + HALF_VOXEL,
                z: voxel.z * UNITS_PER_VOXEL + HALF_VOXEL,
            },
            half_extents: Point3 { x: HALF_VOXEL as int, y: HALF_VOXEL as int, z: HALF_VOXEL as int },
        }
    }
}

/// The box of a voxel of the world is a box that an [`Aabb`] can hold.
pub proof fn lemma_voxel_volume_wf(voxel: Point3)
    requires
        voxel.is_voxel_index(),
    ensures
        Volume::of_voxel(voxel).wf(),
{
}

/// An axis-aligned box in the world: a moving body, or one voxel.
#[derive(Clone, Copy, Debug, PartialEq, Eq)]
pub struct Aabb {
    center: Vec3,
    half_extents: Vec3,
}

impl View for Aabb {
    type V = Volume;

    closed spec fn view(&self) -> Volume {
        Volume { center: self.center@, half_extents: self.half_extents@ }
    }
}

impl Aabb {
    /// What holds of every box: its model is well-formed.
    #[verifier::type_invariant]
    pub open spec fn valid(self) -> bool {
        self@.wf()
    }

    /// The box with the given center and half-extents. Refused with
    /// [`InvalidArgument::NegativeExtent`] exactly when a half-extent is
    /// negative.
    pub fn new(center: Vec3, half_extents: Vec3) -> (r: Result<Aabb, InvalidArgument>)
        ensures
            match r {
                Ok(aabb) => aabb@ == (Volume { center: center@, half_extents: half_extents@ })
                    && aabb@.wf(),
                Err(e) => e == InvalidArgument::NegativeExtent && (half_extents@.x < 0
                    || half_extents@.y < 0 || half_extents@.z < 0),
            },
    {
        if half_extents.x() < 0 || half_extents.y() < 0 || half_extents.z() < 0 {
            Err(InvalidArgument::NegativeExtent)
        } else {
            proof {
                use_type_invariant(&center);
                use_type_invariant(&half_extents);
            }
            Ok(Aabb { center, half_extents })
        }
    }

    /// The box that the voxel at `pos` fills.
    pub fn of_voxel(pos: VoxelPos) -> (r: Aabb)
        ensures
            r@ == Volume::of_voxel(pos@),
    {
        let center = Vec3::from_units(
            pos.x as i64 * UNITS_PER_VOXEL + HALF_VOXEL,
            pos.y as i64 * UNITS_PER_VOXEL + HALF_VOXEL,
            pos.z as i64 * UNITS_PER_VOXEL + HALF_VOXEL,
        );
        let half_extents = Vec3::from_units(HALF_VOXEL, HALF_VOXEL, HALF_VOXEL);
        Aabb { center, half_extents }
    }

    /// The center.
    pub fn center(&self) -> (r: Vec3)
        ensures
            r@ == self@.center,
    {
        self.center
    }

    /// The distance from the center to either face, along each axis.
    pub fn half_extents(&self) -> (r: Vec3)
        ensures
            r@ == self@.half_extents,
    {
        self.half_extents
    }

    /// The coordinate of the low face along `axis`, in units.
    pub fn min(&self, axis: Axis) -> (r: i64)
        ensures
            r == self@.min().along(axis),
            self@.wf(),
    {
        proof {
            use_type_invariant(self);
        }
        self.center.along(axis) - self.half_extents.along(axis)
    }

    /// The coordinate of the high face along `axis`, in units.
    pub fn max(&self, axis: Axis) -> (r: i64)
        ensures
            r == self@.max().along(axis),
            self@.wf(),
    {
        proof {
            use_type_invariant(self);
        }
        self.center.along(axis) + self.half_extents.along(axis)
    }
}

} // verus!
