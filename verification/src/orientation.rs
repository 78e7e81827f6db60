//! The orientation resolver.
//!
//! Straight segments render a canonical mesh that runs along the +Y axis;
//! elbow segments render a canonical mesh that joins the +X and +Y faces of
//! its cell. The resolver computes, for each placed segment, the exact
//! rotation that carries the canonical mesh onto the segment's actual
//! direction (for a straight pipe) or onto its incoming/outgoing direction
//! pair (for an elbow).

use vstd::prelude::*;
use crate::PipeError;
use crate::direction::{Axis, Direction, axis_of, is_perpendicular, opposite};
use crate::rotation::{
    Rotation,
    is_rotation,
    quarter_x,
    quarter_y,
    quarter_z,
    rot_x,
    rot_y,
    rot_z,
    spec_apply,
    spec_compose,
    spec_identity,
};

verus! {

/// Quarter turns about the +X axis for an elbow leaving along the X axis,
/// keyed by the incoming direction. Incoming directions on the X axis never
/// occur for an elbow; the table is padded with zero there.
pub open spec fn x_axis_turns(incoming: Direction) -> nat {
    match incoming {
        Direction::_Y => 0,
        Direction::_Z => 1,
        Direction::Y => 2,
        Direction::Z => 3,
        _ => 0,
    }
}

/// Quarter turns about the +Y axis for an elbow leaving along the Y axis,
/// keyed by the incoming direction.
pub open spec fn y_axis_turns(incoming: Direction) -> nat {
    match incoming {
        Direction::_X => 0,
        Direction::_Z => 3,
        Direction::X => 2,
        Direction::Z => 1,
        _ => 0,
    }
}

/// Quarter turns about the +Z axis for an elbow leaving along the Z axis,
/// keyed by the incoming direction.
pub open spec fn z_axis_turns(incoming: Direction) -> nat {
    match incoming {
        Direction::_X => 0,
        Direction::_Y => 1,
        Direction::X => 2,
        Direction::Y => 3,
        _ => 0,
    }
}

/// The rotation of a straight segment: it depends only on the segment's
/// axis, since the canonical straight mesh is symmetric under axis flip.
pub open spec fn spec_i_rotation(d: Direction) -> Rotation {
    match axis_of(d) {
        Axis::Y => spec_identity(),
        Axis::X => rot_z(3),
        Axis::Z => rot_x(1),
    }
}

/// The rotation of an elbow segment for a perpendicular incoming/outgoing
/// pair: a turn about the outgoing axis chosen by the incoming direction,
/// composed where needed with a fixed base rotation that carries the
/// canonical elbow onto the outgoing axis.
pub open spec fn spec_l_rotation(incoming: Direction, outgoing: Direction) -> Rotation {
    match outgoing {
        Direction::X => rot_x(x_axis_turns(incoming)),
        Direction::_X => spec_compose(rot_x(x_axis_turns(incoming)), rot_z(1)),
        Direction::Y => rot_y(y_axis_turns(incoming)),
        Direction::_Y => spec_compose(rot_y(y_axis_turns(incoming)), rot_x(2)),
        Direction::Z => spec_compose(rot_z(z_axis_turns(incoming)), rot_x(1)),
        Direction::_Z => spec_compose(rot_z(z_axis_turns(incoming)), rot_x(3)),
    }
}

/// The rotation applied to the canonical straight mesh so it runs along the
/// axis of `direction`.
pub fn i_rotation(direction: Direction) -> (r: Rotation)
    ensures
        r == spec_i_rotation(direction),
{
    match direction.axis() {
        Axis::Y => Rotation::identity(),
        Axis::X => Rotation::about_z(3),
        Axis::Z => Rotation::about_x(1),
    }
}

/// The rotation applied to the canonical elbow mesh so it joins the face
/// toward the previous segment with the face the outgoing direction leaves
/// through. A pair that is not perpendicular is a contract violation inside
/// the growth engine and is reported, never defaulted.
pub fn l_rotation(incoming: Direction, outgoing: Direction) -> (r: Result<Rotation, PipeError>)
    ensures
        is_perpendicular(incoming, outgoing) ==> r == Ok::<Rotation, PipeError>(
            spec_l_rotation(incoming, outgoing),
        ),
        !is_perpendicular(incoming, outgoing) ==> r == Err::<Rotation, PipeError>(
            PipeError::InvalidDirectionPair,
        ),
{
    if !incoming.is_perpendicular_to(outgoing) {
        return Err(PipeError::InvalidDirectionPair);
    }
    let r = match outgoing {
        Direction::X => Rotation::about_x(x_turns(incoming)),
        Direction::_X => Rotation::about_x(x_turns(incoming)).compose(Rotation::about_z(1)),
        Direction::Y => Rotation::about_y(y_turns(incoming)),
        Direction::_Y => Rotation::about_y(y_turns(incoming)).compose(Rotation::about_x(2)),
        Direction::Z => Rotation::about_z(z_turns(incoming)).compose(Rotation::about_x(1)),
        Direction::_Z => Rotation::about_z(z_turns(incoming)).compose(Rotation::about_x(3)),
    };
    Ok(r)
}

/// The executable form of `x_axis_turns`.
fn x_turns(incoming: Direction) -> (t: u32)
    ensures
        t < 4,
        t as nat == x_axis_turns(incoming),
{
    match incoming {
        Direction::_Y => 0,
        Direction::_Z => 1,
        Direction::Y => 2,
        Direction::Z => 3,
        _ => 0,
    }
}

/// The executable form of `y_axis_turns`.
fn y_turns(incoming: Direction) -> (t: u32)
    ensures
        t < 4,
        t as nat == y_axis_turns(incoming),
{
    match incoming {
        Direction::_X => 0,
        Direction::_Z => 3,
        Direction::X => 2,
        Direction::Z => 1,
        _ => 0,
    }
}

/// The executable form of `z_axis_turns`.
fn z_turns(incoming: Direction) -> (t: u32)
    ensures
        t < 4,
        t as nat == z_axis_turns(incoming),
{
    match incoming {
        Direction::_X => 0,
        Direction::_Y => 1,
        Direction::X => 2,
        Direction::Y => 3,
        _ => 0,
    }
}

/// The concrete value of every quarter-turn power the resolver uses.
proof fn lemma_rotation_powers()
    ensures
        rot_x(1) == quarter_x(),
        rot_x(2) == (Rotation { x: Direction::X, y: Direction::_Y, z: Direction::_Z }),
        rot_x(3) == (Rotation { x: Direction::X, y: Direction::_Z, z: Direction::Y }),
        rot_y(1) == quarter_y(),
        rot_y(2) == (Rotation { x: Direction::_X, y: Direction::Y, z: Direction::_Z }),
        rot_y(3) == (Rotation { x: Direction::Z, y: Direction::Y, z: Direction::_X }),
        rot_z(1) == quarter_z(),
        rot_z(2) == (Rotation { x: Direction::_X, y: Direction::_Y, z: Direction::Z }),
        rot_z(3) == (Rotation { x: Direction::_Y, y: Direction::X, z: Direction::Z }),
{
    assert(rot_x(0) == spec_identity());
    assert(rot_x(1) == spec_compose(quarter_x(), rot_x(0)));
    assert(rot_x(2) == spec_compose(quarter_x(), rot_x(1)));
    assert(rot_x(3) == spec_compose(quarter_x(), rot_x(2)));
    assert(rot_y(0) == spec_identity());
    assert(rot_y(1) == spec_compose(quarter_y(), rot_y(0)));
    assert(rot_y(2) == spec_compose(quarter_y(), rot_y(1)));
    assert(rot_y(3) == spec_compose(quarter_y(), rot_y(2)));
    assert(rot_z(0) == spec_identity());
    assert(rot_z(1) == spec_compose(quarter_z(), rot_z(0)));
    assert(rot_z(2) == spec_compose(quarter_z(), rot_z(1)));
    assert(rot_z(3) == spec_compose(quarter_z(), rot_z(2)));
}

/// The straight-segment resolver is sound: the resolved value is a proper
/// rotation, and it carries the canonical +Y mesh axis onto the segment's
/// axis (up to sign, since a straight pipe is symmetric under axis flip).
/// Opposite directions share one rotation, so six directions yield only
/// three distinct values.
pub proof fn lemma_i_rotation_aligns(d: Direction)
    ensures
        is_rotation(spec_i_rotation(d)),
        spec_apply(spec_i_rotation(d), Direction::Y) == d || spec_apply(spec_i_rotation(d), Direction::Y)
            == opposite(d),
        spec_i_rotation(d) == spec_i_rotation(opposite(d)),
{
    lemma_rotation_powers();
}

/// The elbow resolver is sound: for every perpendicular pair the resolved
/// value is a proper rotation, and it carries the two faces the canonical
/// elbow joins (+X and +Y) onto the two faces the placed elbow must join:
/// the face toward the previous segment (opposite the incoming direction)
/// and the face the outgoing direction leaves through.
pub proof fn lemma_l_rotation_joins_faces(incoming: Direction, outgoing: Direction)
    requires
        is_perpendicular(incoming, outgoing),
    ensures
        is_rotation(spec_l_rotation(incoming, outgoing)),
        ({
            let r = spec_l_rotation(incoming, outgoing);
            let a = spec_apply(r, Direction::X);
            let b = spec_apply(r, Direction::Y);
            (a == outgoing && b == opposite(incoming)) || (a == opposite(incoming) && b
                == outgoing)
        }),
{
    lemma_rotation_powers();
}

} // verus!
