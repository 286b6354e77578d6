//! Fixed-point scalars and vectors.
//!
//! A length is a whole number of units; one voxel edge is
//! [`UNITS_PER_VOXEL`] units long. All arithmetic is exact: nothing is ever
//! rounded but where a coordinate is turned into a voxel index.
use vstd::prelude::*;

verus! {

/// Units in one voxel edge.
pub const UNITS_PER_VOXEL: i64 = 1_000_000;

/// The tolerance, in units, by which two faces may be apart and still count
/// as touching: one ten-thousandth of a voxel. As a time, the same fraction
/// of one step.
pub const EPSILON: i64 = 100;

/// The least coordinate of the world, in units: the low face of the voxel of
/// index `i32::MIN`.
pub const COORD_MIN: i64 = -2_147_483_648_000_000;

/// The greatest coordinate of the world, in units: the last unit inside the
/// voxel of index `i32::MAX`.
pub const COORD_MAX: i64 = 2_147_483_647_999_999;

/// One of the three axes.
#[derive(Clone, Copy, Debug, PartialEq, Eq, Structural)]
pub enum Axis {
    X,
    Y,
    Z,
}

/// A triple of mathematical integers: the model of every vector of this
/// library.
pub struct Point3 {
    pub x: int,
    pub y: int,
    pub z: int,
}

impl Point3 {
    /// The component along `axis`.
    pub open spec fn along(self, axis: Axis) -> int {
        match axis {
            Axis::X => self.x,
            Axis::Y => self.y,
            Axis::Z => self.z,
        }
    }

    /// The vector with `value` along `axis` and zero elsewhere.
    pub open spec fn on_axis(axis: Axis, value: int) -> Point3 {
        match axis {
            Axis::X => Point3 { x: value, y: 0, z: 0 },
            Axis::Y => Point3 { x: 0, y: value, z: 0 },
            Axis::Z => Point3 { x: 0, y: 0, z: value },
        }
    }

    /// Whether every component is a coordinate of the world.
    pub open spec fn in_world(self) -> bool {
        in_world_units(self.x) && in_world_units(self.y) && in_world_units(self.z)
    }

    /// Whether every component is the index of a voxel of the world.
    pub open spec fn is_voxel_index(self) -> bool {
        is_voxel_index(self.x) && is_voxel_index(self.y) && is_voxel_index(self.z)
    }
}

/// Whether `v` is a coordinate of the world.
pub open spec fn in_world_units(v: int) -> bool {
    COORD_MIN <= v <= COORD_MAX
}

/// Whether `i` is the index of a voxel of the world.
pub open spec fn is_voxel_index(i: int) -> bool {
    i32::MIN <= i <= i32::MAX
}

/// The index of the voxel that holds the coordinate `v`: `v` over the voxel
/// edge, rounded down.
pub open spec fn voxel_floor(v: int) -> int {
    v / (UNITS_PER_VOXEL as int)
}

/// `v` over the voxel edge, rounded up.
pub open spec fn voxel_ceil(v: int) -> int {
    -((-v) / (UNITS_PER_VOXEL as int))
}

/// Rounds a length in units down to whole voxels.
pub fn floor_to_voxel(v: i64) -> (r: i64)
    ensures
        r == voxel_floor(v as int),
        r * UNITS_PER_VOXEL <= v < (r + 1) * UNITS_PER_VOXEL,
{
    let q: i64 = v / UNITS_PER_VOXEL;
    let m: i64 = v % UNITS_PER_VOXEL;
    if m < 0 {
        q - 1
    } else {
        q
    }
}

/// Rounds a length in units up to whole voxels.
pub fn ceil_to_voxel(v: i64) -> (r: i64)
    ensures
        r == voxel_ceil(v as int),
        (r - 1) * UNITS_PER_VOXEL < v <= r * UNITS_PER_VOXEL,
{
    let q: i64 = v / UNITS_PER_VOXEL;
    let m: i64 = v % UNITS_PER_VOXEL;
    if m > 0 {
        q + 1
    } else {
        q
    }
}

/// Every coordinate of the world lies in a voxel of the world.
pub proof fn lemma_world_units_have_voxel(v: int)
    requires
        in_world_units(v),
    ensures
        is_voxel_index(voxel_floor(v)),
{
}

/// Why a value was refused at construction.
#[derive(Clone, Copy, Debug, PartialEq, Eq, Structural)]
pub enum InvalidArgument {
    /// A coordinate lies outside the world.
    OutOfWorld,
    /// A half-extent is negative.
    NegativeExtent,
}

/// A vector of three fixed-point coordinates of the world: a position, a size
/// or a displacement over one step.
#[derive(Clone, Copy, Debug, PartialEq, Eq)]
pub struct Vec3 {
    x: i64,
    y: i64,
    z: i64,
}

impl View for Vec3 {
    type V = Point3;

    closed spec fn view(&self) -> Point3 {
        Point3 { x: self.x as int, y: self.y as int, z: self.z as int }
    }
}

impl Vec3 {
    /// What holds of every vector: its components are coordinates of the
    /// world.
    #[verifier::type_invariant]
    pub open spec fn within_world(self) -> bool {
        self@.in_world()
    }

    /// The vector `(x, y, z)`, in units. Refused with
    /// [`InvalidArgument::OutOfWorld`] exactly when a component is not a
    /// coordinate of the world.
    pub fn new(x: i64, y: i64, z: i64) -> (r: Result<Vec3, InvalidArgument>)
        ensures
            match r {
                Ok(v) => (Point3 { x: x as int, y: y as int, z: z as int }).in_world() && v@ == (Point3 {
                    x: x as int,
                    y: y as int,
                    z: z as int,
                }),
                Err(e) => !(Point3 { x: x as int, y: y as int, z: z as int }).in_world() && e
                    == InvalidArgument::OutOfWorld,
            },
    {
        if x < COORD_MIN || x > COORD_MAX || y < COORD_MIN || y > COORD_MAX || z < COORD_MIN || z
            > COORD_MAX {
            Err(InvalidArgument::OutOfWorld)
        } else {
            Ok(Vec3 { x, y, z })
        }
    }

    /// The vector `(x, y, z)`, whose components are known to be coordinates
    /// of the world.
    pub(crate) fn from_units(x: i64, y: i64, z: i64) -> (r: Vec3)
        requires
            (Point3 { x: x as int, y: y as int, z: z as int }).in_world(),
        ensures
            r@ == (Point3 { x: x as int, y: y as int, z: z as int }),
    {
        Vec3 { x, y, z }
    }

    /// The zero vector.
    pub fn zero() -> (r: Vec3)
        ensures
            r@ == (Point3 { x: 0, y: 0, z: 0 }),
    {
        Vec3 { x: 0, y: 0, z: 0 }
    }

    /// The `x` component, in units.
    pub fn x(&self) -> (r: i64)
        ensures
            r == self@.x,
            in_world_units(r as int),
    {
        proof {
            use_type_invariant(self);
        }
        self.x
    }

    /// The `y` component, in units.
    pub fn y(&self) -> (r: i64)
        ensures
            r == self@.y,
            in_world_units(r as int),
    {
        proof {
            use_type_invariant(self);
        }
        self.y
    }

    /// The `z` component, in units.
    pub fn z(&self) -> (r: i64)
        ensures
            r == self@.z,
            in_world_units(r as int),
    {
        proof {
            use_type_invariant(self);
        }
        self.z
    }

    /// The component along `axis`, in units.
    pub fn along(&self, axis: Axis) -> (r: i64)
        ensures
            r == self@.along(axis),
            in_world_units(r as int),
    {
        proof {
            use_type_invariant(self);
        }
        match axis {
            Axis::X => self.x,
            Axis::Y => self.y,
            Axis::Z => self.z,
        }
    }
}

/// A vector of three whole numbers: a direction, or a count of voxels along
/// each axis.
#[derive(Clone, Copy, Debug, PartialEq, Eq, Structural)]
pub struct IVec3 {
    pub x: i32,
    pub y: i32,
    pub z: i32,
}

impl View for IVec3 {
    type V = Point3;

    open spec fn view(&self) -> Point3 {
        Point3 { x: self.x as int, y: self.y as int, z: self.z as int }
    }
}

impl Default for IVec3 {
    /// The zero vector.
    fn default() -> (r: IVec3)
        ensures
            r == (IVec3 { x: 0, y: 0, z: 0 }),
    {
        IVec3 { x: 0, y: 0, z: 0 }
    }
}

impl IVec3 {
    /// The vector `(x, y, z)`.
    pub fn new(x: i32, y: i32, z: i32) -> (r: IVec3)
        ensures
            r == (IVec3 { x, y, z }),
    {
        IVec3 { x, y, z }
    }
}

} // verus!
