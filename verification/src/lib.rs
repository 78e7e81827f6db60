//! Procedural growth of a connected pipe network through a bounded 3D grid.
//!
//! The library owns the growth engine: an occupancy model over integer grid
//! cells, a directional state machine that decides where the next pipe
//! segment goes, and an orientation resolver that turns grid moves into
//! exact per-segment rotations and colors. A host drives growth one segment
//! at a time and hands the accumulated instance streams to a renderer.

use vstd::prelude::*;

pub mod direction;
pub mod occupancy;
pub mod orientation;
pub mod instance;
pub mod laws;
pub mod rotation;
pub mod world;

verus! {

/// The two failure conditions of the engine.
///
/// `InvalidDirectionPair` marks a contract violation inside the orientation
/// resolver: an elbow was asked to join two directions that are not
/// perpendicular. `GridSaturated` is the recoverable condition raised when a
/// fresh start cannot find an unoccupied spawn cell within the bounded
/// number of attempts.
#[derive(Copy, Clone, Debug, PartialEq, Eq, Structural)]
pub enum PipeError {
    InvalidDirectionPair,
    GridSaturated,
}

} // verus!
