//! The six axis-aligned unit directions of the grid and their geometry.

use vstd::prelude::*;

verus! {

/// One of the three coordinate axes of the grid.
#[derive(Copy, Clone, Debug, PartialEq, Eq, Structural)]
pub enum Axis {
    X,
    Y,
    Z,
}

/// One of the six axis-aligned unit directions. `X` points along the
/// positive X axis, `_X` along the negative X axis, and so on.
#[derive(Copy, Clone, Debug, PartialEq, Eq, Structural)]
pub enum Direction {
    X,
    Y,
    Z,
    _X,
    _Y,
    _Z,
}

/// The axis a direction runs along, with the sign forgotten.
pub open spec fn axis_of(d: Direction) -> Axis {
    match d {
        Direction::X | Direction::_X => Axis::X,
        Direction::Y | Direction::_Y => Axis::Y,
        Direction::Z | Direction::_Z => Axis::Z,
    }
}

/// The direction pointing the opposite way.
pub open spec fn opposite(d: Direction) -> Direction {
    match d {
        Direction::X => Direction::_X,
        Direction::Y => Direction::_Y,
        Direction::Z => Direction::_Z,
        Direction::_X => Direction::X,
        Direction::_Y => Direction::Y,
        Direction::_Z => Direction::Z,
    }
}

/// Two directions are perpendicular exactly when their axes differ. Each
/// direction has four perpendicular directions and one opposite.
pub open spec fn is_perpendicular(a: Direction, b: Direction) -> bool {
    axis_of(a) != axis_of(b)
}

/// The unit grid vector of a direction, as mathematical integers.
pub open spec fn dir_vec(d: Direction) -> (int, int, int) {
    match d {
        Direction::X => (1, 0, 0),
        Direction::Y => (0, 1, 0),
        Direction::Z => (0, 0, 1),
        Direction::_X => (-1, 0, 0),
        Direction::_Y => (0, -1, 0),
        Direction::_Z => (0, 0, -1),
    }
}

impl Direction {
    /// The axis this direction runs along.
    pub fn axis(self) -> (a: Axis)
        ensures
            a == axis_of(self),
    {
        match self {
            Direction::X | Direction::_X => Axis::X,
            Direction::Y | Direction::_Y => Axis::Y,
            Direction::Z | Direction::_Z => Axis::Z,
        }
    }

    /// The direction pointing the opposite way.
    pub fn opposite(self) -> (r: Direction)
        ensures
            r == opposite(self),
    {
        match self {
            Direction::X => Direction::_X,
            Direction::Y => Direction::_Y,
            Direction::Z => Direction::_Z,
            Direction::_X => Direction::X,
            Direction::_Y => Direction::Y,
            Direction::_Z => Direction::Z,
        }
    }

    /// Whether `other` runs along a different axis than `self`.
    pub fn is_perpendicular_to(self, other: Direction) -> (r: bool)
        ensures
            r == is_perpendicular(self, other),
    {
        let a = self.axis();
        let b = other.axis();
        a != b
    }

    /// The direction with the given index in the fixed enumeration
    /// X, Y, Z, -X, -Y, -Z.
    pub fn from_index(i: u32) -> (r: Direction)
        requires
            i < 6,
        ensures
            r == index_direction(i as int),
    {
        match i {
            0 => Direction::X,
            1 => Direction::Y,
            2 => Direction::Z,
            3 => Direction::_X,
            4 => Direction::_Y,
            _ => Direction::_Z,
        }
    }

    /// The direction perpendicular to `self` with the given index in the
    /// fixed enumeration of the four candidates for this axis.
    pub fn perpendicular_at(self, i: u32) -> (r: Direction)
        requires
            i < 4,
        ensures
            r == perpendicular_direction(self, i as int),
            is_perpendicular(self, r),
    {
        let axis = self.axis();
        match axis {
            Axis::X => match i {
                0 => Direction::Y,
                1 => Direction::_Y,
                2 => Direction::Z,
                _ => Direction::_Z,
            },
            Axis::Y => match i {
                0 => Direction::X,
                1 => Direction::_X,
                2 => Direction::Z,
                _ => Direction::_Z,
            },
            Axis::Z => match i {
                0 => Direction::Y,
                1 => Direction::_Y,
                2 => Direction::X,
                _ => Direction::_X,
            },
        }
    }
}

/// The fixed enumeration of the six directions used by random draws.
pub open spec fn index_direction(i: int) -> Direction {
    if i == 0 {
        Direction::X
    } else if i == 1 {
        Direction::Y
    } else if i == 2 {
        Direction::Z
    } else if i == 3 {
        Direction::_X
    } else if i == 4 {
        Direction::_Y
    } else {
        Direction::_Z
    }
}

/// The fixed enumeration of the four directions perpendicular to `d`.
pub open spec fn perpendicular_direction(d: Direction, i: int) -> Direction {
    match axis_of(d) {
        Axis::X => if i == 0 {
            Direction::Y
        } else if i == 1 {
            Direction::_Y
        } else if i == 2 {
            Direction::Z
        } else {
            Direction::_Z
        },
        Axis::Y => if i == 0 {
            Direction::X
        } else if i == 1 {
            Direction::_X
        } else if i == 2 {
            Direction::Z
        } else {
            Direction::_Z
        },
        Axis::Z => if i == 0 {
            Direction::Y
        } else if i == 1 {
            Direction::_Y
        } else if i == 2 {
            Direction::X
        } else {
            Direction::_X
        },
    }
}

/// A direction never shares its axis with its opposite's perpendiculars:
/// perpendicularity rules out both the direction itself and its opposite.
pub proof fn lemma_perpendicular_excludes_axis(a: Direction, b: Direction)
    requires
        is_perpendicular(a, b),
    ensures
        b != a,
        b != opposite(a),
{
}

} // verus!
