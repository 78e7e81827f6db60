//! Segments and their render-ready instance records.

use vstd::prelude::*;
use crate::direction::Direction;
use crate::orientation::{spec_i_rotation, spec_l_rotation};
use crate::rotation::Rotation;

verus! {

/// An RGB color in 1/256 units: a channel value of 256 stands for full
/// intensity. A renderer divides each channel by 256 to obtain its float
/// color components in [0, 1].
#[derive(Copy, Clone, Debug, PartialEq, Eq, Structural)]
pub struct Color {
    pub red: u32,
    pub green: u32,
    pub blue: u32,
}

/// The tag of a placed segment: a straight pipe (`I`) follows a single
/// direction; an elbow (`L`) turns between two perpendicular directions.
#[derive(Copy, Clone, Debug, PartialEq, Eq, Structural)]
pub enum PipeType {
    I,
    L,
}

/// One placed pipe segment: the unit of generation. A block is immutable
/// once placed and is retained only as the previous segment for the next
/// growth step. `direction` is the outgoing direction of the segment.
#[derive(Copy, Clone, Debug, PartialEq, Eq)]
pub struct Block {
    pub pipe_type: PipeType,
    pub direction: Direction,
    pub position: (u32, u32, u32),
    pub color: Color,
}

/// The externally visible output unit: the grid position, exact rotation
/// and color of one placed segment. Instances are appended to the stream of
/// their segment's pipe type and never modified afterwards.
#[derive(Copy, Clone, Debug, PartialEq, Eq)]
pub struct Instance {
    pub position: (u32, u32, u32),
    pub rotation: Rotation,
    pub color: Color,
}

/// The instance record of a straight segment.
pub open spec fn i_instance_of(b: Block) -> Instance {
    Instance { position: b.position, rotation: spec_i_rotation(b.direction), color: b.color }
}

/// The instance record of an elbow segment, given the incoming direction
/// (the outgoing direction of the previous segment).
pub open spec fn l_instance_of(incoming: Direction, b: Block) -> Instance {
    Instance {
        position: b.position,
        rotation: spec_l_rotation(incoming, b.direction),
        color: b.color,
    }
}

} // verus!
