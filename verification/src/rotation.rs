//! Exact grid rotations.
//!
//! Every orientation this library produces is a composition of quarter
//! turns about the coordinate axes, so it permutes the six axis-aligned
//! directions. A rotation is therefore represented exactly by the images of
//! the three positive basis directions: no floating point is involved, and
//! composition and application are total functions on enumerations. A
//! renderer turns a `Rotation` into its own rotation type (for instance a
//! quaternion) by reading the three images as the columns of a 3x3 matrix.

use vstd::prelude::*;
use crate::direction::{Direction, axis_of, dir_vec, is_perpendicular, opposite};

verus! {

/// A grid rotation, given by the images of the positive basis directions.
/// `x` is where the rotation sends the +X direction, and so on.
#[derive(Copy, Clone, Debug, PartialEq, Eq, Structural)]
pub struct Rotation {
    pub x: Direction,
    pub y: Direction,
    pub z: Direction,
}

/// Where a rotation sends a direction: a negative direction is sent to the
/// opposite of its positive counterpart's image.
pub open spec fn spec_apply(r: Rotation, d: Direction) -> Direction {
    match d {
        Direction::X => r.x,
        Direction::Y => r.y,
        Direction::Z => r.z,
        Direction::_X => opposite(r.x),
        Direction::_Y => opposite(r.y),
        Direction::_Z => opposite(r.z),
    }
}

/// The composition `a` after `b`: first rotate by `b`, then by `a`.
pub open spec fn spec_compose(a: Rotation, b: Rotation) -> Rotation {
    Rotation { x: spec_apply(a, b.x), y: spec_apply(a, b.y), z: spec_apply(a, b.z) }
}

/// The cross product of two integer grid vectors.
pub open spec fn cross(u: (int, int, int), v: (int, int, int)) -> (int, int, int) {
    (u.1 * v.2 - u.2 * v.1, u.2 * v.0 - u.0 * v.2, u.0 * v.1 - u.1 * v.0)
}

/// The cross product of two perpendicular directions, as a direction.
pub open spec fn dir_cross(a: Direction, b: Direction) -> Direction
    recommends
        is_perpendicular(a, b),
{
    match a {
        Direction::X => match b {
            Direction::Y => Direction::Z,
            Direction::Z => Direction::_Y,
            Direction::_Y => Direction::_Z,
            Direction::_Z => Direction::Y,
            _ => a,
        },
        Direction::Y => match b {
            Direction::Z => Direction::X,
            Direction::X => Direction::_Z,
            Direction::_Z => Direction::_X,
            Direction::_X => Direction::Z,
            _ => a,
        },
        Direction::Z => match b {
            Direction::X => Direction::Y,
            Direction::Y => Direction::_X,
            Direction::_X => Direction::_Y,
            Direction::_Y => Direction::X,
            _ => a,
        },
        Direction::_X => match b {
            Direction::Y => Direction::_Z,
            Direction::Z => Direction::Y,
            Direction::_Y => Direction::Z,
            Direction::_Z => Direction::_Y,
            _ => a,
        },
        Direction::_Y => match b {
            Direction::X => Direction::Z,
            Direction::Z => Direction::_X,
            Direction::_X => Direction::_Z,
            Direction::_Z => Direction::X,
            _ => a,
        },
        Direction::_Z => match b {
            Direction::X => Direction::_Y,
            Direction::Y => Direction::X,
            Direction::_X => Direction::Y,
            Direction::_Y => Direction::_X,
            _ => a,
        },
    }
}

/// On perpendicular directions, `dir_cross` is the cross product of the
/// corresponding unit grid vectors.
pub proof fn lemma_dir_cross_is_cross(a: Direction, b: Direction)
    requires
        is_perpendicular(a, b),
    ensures
        dir_vec(dir_cross(a, b)) == cross(dir_vec(a), dir_vec(b)),
{
    match a {
        Direction::X => match b {
            Direction::X => assert(dir_vec(dir_cross(a, b)) == cross(dir_vec(a), dir_vec(b))),
            Direction::Y => assert(dir_vec(dir_cross(a, b)) == cross(dir_vec(a), dir_vec(b))),
            Direction::Z => assert(dir_vec(dir_cross(a, b)) == cross(dir_vec(a), dir_vec(b))),
            Direction::_X => assert(dir_vec(dir_cross(a, b)) == cross(dir_vec(a), dir_vec(b))),
            Direction::_Y => assert(dir_vec(dir_cross(a, b)) == cross(dir_vec(a), dir_vec(b))),
            Direction::_Z => assert(dir_vec(dir_cross(a, b)) == cross(dir_vec(a), dir_vec(b))),
        },
        Direction::Y => match b {
            Direction::X => assert(dir_vec(dir_cross(a, b)) == cross(dir_vec(a), dir_vec(b))),
            Direction::Y => assert(dir_vec(dir_cross(a, b)) == cross(dir_vec(a), dir_vec(b))),
            Direction::Z => assert(dir_vec(dir_cross(a, b)) == cross(dir_vec(a), dir_vec(b))),
            Direction::_X => assert(dir_vec(dir_cross(a, b)) == cross(dir_vec(a), dir_vec(b))),
            Direction::_Y => assert(dir_vec(dir_cross(a, b)) == cross(dir_vec(a), dir_vec(b))),
            Direction::_Z => assert(dir_vec(dir_cross(a, b)) == cross(dir_vec(a), dir_vec(b))),
        },
        Direction::Z => match b {
            Direction::X => assert(dir_vec(dir_cross(a, b)) == cross(dir_vec(a), dir_vec(b))),
            Direction::Y => assert(dir_vec(dir_cross(a, b)) == cross(dir_vec(a), dir_vec(b))),
            Direction::Z => assert(dir_vec(dir_cross(a, b)) == cross(dir_vec(a), dir_vec(b))),
            Direction::_X => assert(dir_vec(dir_cross(a, b)) == cross(dir_vec(a), dir_vec(b))),
            Direction::_Y => assert(dir_vec(dir_cross(a, b)) == cross(dir_vec(a), dir_vec(b))),
            Direction::_Z => assert(dir_vec(dir_cross(a, b)) == cross(dir_vec(a), dir_vec(b))),
        },
        Direction::_X => match b {
            Direction::X => assert(dir_vec(dir_cross(a, b)) == cross(dir_vec(a), dir_vec(b))),
            Direction::Y => assert(dir_vec(dir_cross(a, b)) == cross(dir_vec(a), dir_vec(b))),
            Direction::Z => assert(dir_vec(dir_cross(a, b)) == cross(dir_vec(a), dir_vec(b))),
            Direction::_X => assert(dir_vec(dir_cross(a, b)) == cross(dir_vec(a), dir_vec(b))),
            Direction::_Y => assert(dir_vec(dir_cross(a, b)) == cross(dir_vec(a), dir_vec(b))),
            Direction::_Z => assert(dir_vec(dir_cross(a, b)) == cross(dir_vec(a), dir_vec(b))),
        },
        Direction::_Y => match b {
            Direction::X => assert(dir_vec(dir_cross(a, b)) == cross(dir_vec(a), dir_vec(b))),
            Direction::Y => assert(dir_vec(dir_cross(a, b)) == cross(dir_vec(a), dir_vec(b))),
            Direction::Z => assert(dir_vec(dir_cross(a, b)) == cross(dir_vec(a), dir_vec(b))),
            Direction::_X => assert(dir_vec(dir_cross(a, b)) == cross(dir_vec(a), dir_vec(b))),
            Direction::_Y => assert(dir_vec(dir_cross(a, b)) == cross(dir_vec(a), dir_vec(b))),
            Direction::_Z => assert(dir_vec(dir_cross(a, b)) == cross(dir_vec(a), dir_vec(b))),
        },
        Direction::_Z => match b {
            Direction::X => assert(dir_vec(dir_cross(a, b)) == cross(dir_vec(a), dir_vec(b))),
            Direction::Y => assert(dir_vec(dir_cross(a, b)) == cross(dir_vec(a), dir_vec(b))),
            Direction::Z => assert(dir_vec(dir_cross(a, b)) == cross(dir_vec(a), dir_vec(b))),
            Direction::_X => assert(dir_vec(dir_cross(a, b)) == cross(dir_vec(a), dir_vec(b))),
            Direction::_Y => assert(dir_vec(dir_cross(a, b)) == cross(dir_vec(a), dir_vec(b))),
            Direction::_Z => assert(dir_vec(dir_cross(a, b)) == cross(dir_vec(a), dir_vec(b))),
        },
    }
}

/// A proper rotation: the basis images lie on three distinct axes and form
/// a right-handed frame, so the map is a rotation and not a reflection.
pub open spec fn is_rotation(r: Rotation) -> bool {
    &&& axis_of(r.x) != axis_of(r.y)
    &&& axis_of(r.y) != axis_of(r.z)
    &&& axis_of(r.x) != axis_of(r.z)
    &&& r.z == dir_cross(r.x, r.y)
}

/// The identity rotation.
pub open spec fn spec_identity() -> Rotation {
    Rotation { x: Direction::X, y: Direction::Y, z: Direction::Z }
}

/// One quarter turn about the +X axis (right-hand rule): +Y goes to +Z.
pub open spec fn quarter_x() -> Rotation {
    Rotation { x: Direction::X, y: Direction::Z, z: Direction::_Y }
}

/// One quarter turn about the +Y axis (right-hand rule): +Z goes to +X.
pub open spec fn quarter_y() -> Rotation {
    Rotation { x: Direction::_Z, y: Direction::Y, z: Direction::X }
}

/// One quarter turn about the +Z axis (right-hand rule): +X goes to +Y.
pub open spec fn quarter_z() -> Rotation {
    Rotation { x: Direction::Y, y: Direction::_X, z: Direction::Z }
}

/// `q` quarter turns about the +X axis.
pub open spec fn rot_x(q: nat) -> Rotation
    decreases q,
{
    if q == 0 {
        spec_identity()
    } else {
        spec_compose(quarter_x(), rot_x((q - 1) as nat))
    }
}

/// `q` quarter turns about the +Y axis.
pub open spec fn rot_y(q: nat) -> Rotation
    decreases q,
{
    if q == 0 {
        spec_identity()
    } else {
        spec_compose(quarter_y(), rot_y((q - 1) as nat))
    }
}

/// `q` quarter turns about the +Z axis.
pub open spec fn rot_z(q: nat) -> Rotation
    decreases q,
{
    if q == 0 {
        spec_identity()
    } else {
        spec_compose(quarter_z(), rot_z((q - 1) as nat))
    }
}

impl Rotation {
    /// The identity rotation, which leaves every direction in place.
    pub fn identity() -> (r: Rotation)
        ensures
            r == spec_identity(),
    {
        Rotation { x: Direction::X, y: Direction::Y, z: Direction::Z }
    }

    /// Where this rotation sends `d`.
    pub fn apply(self, d: Direction) -> (r: Direction)
        ensures
            r == spec_apply(self, d),
    {
        match d {
            Direction::X => self.x,
            Direction::Y => self.y,
            Direction::Z => self.z,
            Direction::_X => self.x.opposite(),
            Direction::_Y => self.y.opposite(),
            Direction::_Z => self.z.opposite(),
        }
    }

    /// The composition `self` after `other`: rotating by the result is
    /// rotating first by `other` and then by `self`.
    pub fn compose(self, other: Rotation) -> (r: Rotation)
        ensures
            r == spec_compose(self, other),
    {
        Rotation { x: self.apply(other.x), y: self.apply(other.y), z: self.apply(other.z) }
    }

    /// `quarters` quarter turns about the +X axis.
    pub fn about_x(quarters: u32) -> (r: Rotation)
        requires
            quarters < 4,
        ensures
            r == rot_x(quarters as nat),
    {
        let mut r = Rotation::identity();
        let mut i: u32 = 0;
        while i < quarters
            invariant
                i <= quarters,
                quarters < 4,
                r == rot_x(i as nat),
            decreases quarters - i,
        {
            let q = Rotation { x: Direction::X, y: Direction::Z, z: Direction::_Y };
            r = q.compose(r);
            proof {
                assert(q == quarter_x());
            }
            i = i + 1;
        }
        r
    }

    /// `quarters` quarter turns about the +Y axis.
    pub fn about_y(quarters: u32) -> (r: Rotation)
        requires
            quarters < 4,
        ensures
            r == rot_y(quarters as nat),
    {
        let mut r = Rotation::identity();
        let mut i: u32 = 0;
        while i < quarters
            invariant
                i <= quarters,
                quarters < 4,
                r == rot_y(i as nat),
            decreases quarters - i,
        {
            let q = Rotation { x: Direction::_Z, y: Direction::Y, z: Direction::X };
            r = q.compose(r);
            proof {
                assert(q == quarter_y());
            }
            i = i + 1;
        }
        r
    }

    /// `quarters` quarter turns about the +Z axis.
    pub fn about_z(quarters: u32) -> (r: Rotation)
        requires
            quarters < 4,
        ensures
            r == rot_z(quarters as nat),
    {
        let mut r = Rotation::identity();
        let mut i: u32 = 0;
        while i < quarters
            invariant
                i <= quarters,
                quarters < 4,
                r == rot_z(i as nat),
            decreases quarters - i,
        {
            let q = Rotation { x: Direction::Y, y: Direction::_X, z: Direction::Z };
            r = q.compose(r);
            proof {
                assert(q == quarter_z());
            }
            i = i + 1;
        }
        r
    }
}

/// Proper rotations are closed under composition: composing two
/// right-handed frames yields a right-handed frame.
pub proof fn lemma_compose_rotation(a: Rotation, b: Rotation)
    requires
        is_rotation(a),
        is_rotation(b),
    ensures
        is_rotation(spec_compose(a, b)),
{
}

} // verus!
