//! The engine's global guarantees, stated over the step relations that the
//! growth functions' contracts establish.

use vstd::prelude::*;
use crate::direction::{Direction, is_perpendicular, lemma_perpendicular_excludes_axis, opposite};
use crate::instance::Block;
use crate::orientation::spec_l_rotation;
use crate::world::{
    WorldView,
    continue_step,
    in_bounds,
    last_direction,
    placed,
    turn_step,
    wf_state,
};

verus! {

/// A growth run: `states` are the successive world states, and `blocks[i]`
/// is the segment placed by the step from `states[i]` to `states[i + 1]`.
pub open spec fn growth_run(states: Seq<WorldView>, blocks: Seq<Block>) -> bool {
    &&& states.len() == blocks.len() + 1
    &&& forall|i: int|
        0 <= i < blocks.len() ==> placed(states[i], states[i + 1], #[trigger] blocks[i])
}

/// No collision: every step places its segment on a previously free cell,
/// so a run of N growth steps adds exactly N distinct members to the
/// occupancy set and N records to the instance streams. A run over an
/// initially empty world leaves the occupancy set with exactly N members.
pub proof fn lemma_no_collision(states: Seq<WorldView>, blocks: Seq<Block>)
    requires
        growth_run(states, blocks),
        states[0].occupied.finite(),
    ensures
        states.last().occupied.finite(),
        states.last().occupied.len() == states[0].occupied.len() + blocks.len(),
        states.last().i_instances.len() + states.last().l_instances.len()
            == states[0].i_instances.len() + states[0].l_instances.len() + blocks.len(),
    decreases blocks.len(),
{
    if blocks.len() == 0 {
        assert(states.last() == states[0]);
    } else {
        let states2 = states.subrange(1, states.len() as int);
        let blocks2 = blocks.subrange(1, blocks.len() as int);
        assert(placed(states[0], states[1], blocks[0]));
        assert forall|i: int| 0 <= i < blocks2.len() implies placed(
            states2[i],
            states2[i + 1],
            #[trigger] blocks2[i],
        ) by {
            assert(placed(states[i + 1], states[i + 2], blocks[i + 1]));
        }
        lemma_no_collision(states2, blocks2);
        assert(states2.last() == states.last());
    }
}

/// Bounds: in a well-formed world every occupied cell and every emitted
/// instance lies within the configured bound on each axis.
pub proof fn lemma_bounds(w: WorldView)
    requires
        wf_state(w),
    ensures
        forall|p: (u32, u32, u32)| #[trigger] w.occupied.contains(p) ==> in_bounds(w, p),
        forall|i: int|
            0 <= i < w.i_instances.len() ==> in_bounds(w, #[trigger] w.i_instances[i].position),
        forall|i: int|
            0 <= i < w.l_instances.len() ==> in_bounds(w, #[trigger] w.l_instances[i].position),
{
}

/// Color continuity: across any run of consecutive continuations and turns
/// (no fresh start between them), every placed segment carries the color of
/// the run's first segment.
pub proof fn lemma_color_continuity(states: Seq<WorldView>, blocks: Seq<Block>)
    requires
        growth_run(states, blocks),
        forall|i: int|
            0 <= i < blocks.len() ==> continue_step(states[i], #[trigger] blocks[i]) || turn_step(
                states[i],
                blocks[i],
            ),
        blocks.len() >= 1,
    ensures
        forall|i: int| 0 <= i < blocks.len() ==> (#[trigger] blocks[i]).color == blocks[0].color,
    decreases blocks.len(),
{
    let n = blocks.len() as int;
    if n > 1 {
        let states2 = states.subrange(0, n);
        let blocks2 = blocks.subrange(0, n - 1);
        assert forall|i: int| 0 <= i < blocks2.len() implies placed(
            states2[i],
            states2[i + 1],
            #[trigger] blocks2[i],
        ) by {
            assert(placed(states[i], states[i + 1], blocks[i]));
        }
        assert forall|i: int| 0 <= i < blocks2.len() implies continue_step(
            states2[i],
            #[trigger] blocks2[i],
        ) || turn_step(states2[i], blocks2[i]) by {
            assert(continue_step(states[i], blocks[i]) || turn_step(states[i], blocks[i]));
        }
        lemma_color_continuity(states2, blocks2);
        // the last step inherits its color from the segment before it
        assert(placed(states[n - 2], states[n - 1], blocks[n - 2]));
        assert(states[n - 1].last == Some(blocks[n - 2]));
        assert(continue_step(states[n - 1], blocks[n - 1]) || turn_step(
            states[n - 1],
            blocks[n - 1],
        ));
        assert(blocks[n - 1].color == blocks[n - 2].color);
        assert forall|i: int| 0 <= i < n implies (#[trigger] blocks[i]).color == blocks[0].color by {
            assert(blocks2[0] == blocks[0]);
            if i < n - 1 {
                assert(blocks2[i] == blocks[i]);
            } else {
                assert(blocks2[n - 2] == blocks[n - 2]);
                assert(blocks2[n - 2].color == blocks2[0].color);
            }
        }
    }
}

/// Direction continuity: a continuation keeps its predecessor's direction.
pub proof fn lemma_continue_keeps_direction(w: WorldView, b: Block)
    requires
        continue_step(w, b),
    ensures
        b.direction == last_direction(w),
{
}

/// Perpendicularity: a turn leaves along one of the four directions
/// perpendicular to its predecessor's — never the same direction and never
/// the opposite.
pub proof fn lemma_turn_perpendicular(w: WorldView, b: Block)
    requires
        turn_step(w, b),
    ensures
        is_perpendicular(last_direction(w), b.direction),
        b.direction != last_direction(w),
        b.direction != opposite(last_direction(w)),
{
    lemma_perpendicular_excludes_axis(last_direction(w), b.direction);
}

/// Orientation determinism: the elbow resolver is a pure function of the
/// incoming/outgoing direction pair — equal pairs resolve to equal
/// rotations on every call.
pub proof fn lemma_orientation_deterministic(
    in_a: Direction,
    out_a: Direction,
    in_b: Direction,
    out_b: Direction,
)
    requires
        in_a == in_b,
        out_a == out_b,
    ensures
        spec_l_rotation(in_a, out_a) == spec_l_rotation(in_b, out_b),
{
}

} // verus!
