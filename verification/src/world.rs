//! The growth engine.
//!
//! A `World` owns the generation state: grid bounds, turn and stop
//! probabilities, the occupancy set, the last placed segment and the two
//! instance streams. One call to [`World::add_pipe`] performs exactly one
//! growth step and places exactly one segment; the host reads the
//! accumulated streams through the getters and hands them to a renderer.
//!
//! Fresh starts draw positions from the lower-corner spawn sub-region whose
//! extent on each axis is half the bound, rounded up so the region is never
//! empty; bounds checks for continuations use the full bounds. Probabilities
//! are in thousandths.

use vstd::prelude::*;
use vstd::pervasive::unreached;
use crate::PipeError;
use crate::direction::{Direction, dir_vec, is_perpendicular};
use crate::instance::{Block, Color, Instance, PipeType, i_instance_of, l_instance_of};
use crate::occupancy::{CELL_LIMIT, Occupancy, valid_cell};
use crate::orientation::{i_rotation, l_rotation};

verus! {

/// Spawn cells drawn before a fresh start gives up and reports
/// `GridSaturated`, so that growth never loops unboundedly as the grid
/// fills.
pub const SPAWN_ATTEMPTS: u32 = 64;

/// Default grid bound on each axis.
pub const WORLD_X: u32 = 30;

/// Default grid bound on each axis.
pub const WORLD_Y: u32 = 30;

/// Default grid bound on each axis.
pub const WORLD_Z: u32 = 30;

/// Probabilities are expressed in thousandths of this scale.
pub const PROBABILITY_SCALE: u32 = 1000;

/// Default probability, in thousandths, that a continuing pipe turns.
pub const TURN_PROBABILITY: u32 = 300;

/// Default probability, in thousandths, that a pipe run stops and a fresh
/// one starts.
pub const STOP_PROBABILITY: u32 = 0;

/// Relies on `rand::random_range` over `0..n`: a draw from the thread-local
/// generator, uniform over the non-empty half-open range, so the result is
/// always below `n`.
#[verifier::external_body]
fn random_below(n: u32) -> (r: u32)
    requires
        n > 0,
    ensures
        r < n,
{
    rand::random_range(0..n)
}

/// The mathematical state of a `World`.
pub ghost struct WorldView {
    pub max_x: u32,
    pub max_y: u32,
    pub max_z: u32,
    pub turn_probability: u32,
    pub stop_probability: u32,
    pub i_instances: Seq<Instance>,
    pub l_instances: Seq<Instance>,
    pub occupied: Set<(u32, u32, u32)>,
    pub last: Option<Block>,
    pub palette: Seq<Color>,
}

/// Every coordinate of `p` is below the bound for its axis.
pub open spec fn in_bounds(w: WorldView, p: (u32, u32, u32)) -> bool {
    p.0 < w.max_x && p.1 < w.max_y && p.2 < w.max_z
}

/// The extent of the fresh-start spawn region on an axis: half the bound,
/// rounded up so the region is never empty.
pub open spec fn spawn_limit(bound: u32) -> int {
    (bound + 1) / 2
}

/// Whether `p` lies in the fresh-start spawn region.
pub open spec fn in_spawn_region(w: WorldView, p: (u32, u32, u32)) -> bool {
    p.0 < spawn_limit(w.max_x) && p.1 < spawn_limit(w.max_y) && p.2 < spawn_limit(w.max_z)
}

/// Every cell of the spawn region is occupied: no fresh start can succeed.
pub open spec fn spawn_region_full(w: WorldView) -> bool {
    forall|p: (u32, u32, u32)| in_spawn_region(w, p) ==> #[trigger] w.occupied.contains(p)
}

/// No cell of the spawn region is occupied.
pub open spec fn spawn_region_untouched(w: WorldView) -> bool {
    forall|p: (u32, u32, u32)| in_spawn_region(w, p) ==> !(#[trigger] w.occupied.contains(p))
}

/// The cell one unit along `d` from `p`, as mathematical integers.
pub open spec fn advanced(p: (u32, u32, u32), d: Direction) -> (int, int, int) {
    let v = dir_vec(d);
    (p.0 + v.0, p.1 + v.1, p.2 + v.2)
}

/// The outgoing direction of the last placed segment.
pub open spec fn last_direction(w: WorldView) -> Direction
    recommends
        w.last is Some,
{
    w.last->0.direction
}

/// The cell a continuation of the last segment would occupy.
pub open spec fn candidate_cell(w: WorldView) -> (int, int, int)
    recommends
        w.last is Some,
{
    advanced(w.last->0.position, w.last->0.direction)
}

/// There is a last segment and the cell ahead of it is free and in bounds,
/// so the current run can continue.
pub open spec fn candidate_ok(w: WorldView) -> bool {
    w.last is Some && {
        let c = candidate_cell(w);
        &&& 0 <= c.0 < w.max_x
        &&& 0 <= c.1 < w.max_y
        &&& 0 <= c.2 < w.max_z
        &&& !w.occupied.contains((c.0 as u32, c.1 as u32, c.2 as u32))
    }
}

/// A fresh start: a straight segment on a free spawn cell, with a freshly
/// drawn direction and a color drawn from the palette. This is the single
/// point where a run's color is established.
pub open spec fn fresh_step(w: WorldView, b: Block) -> bool {
    &&& b.pipe_type == PipeType::I
    &&& in_spawn_region(w, b.position)
    &&& !w.occupied.contains(b.position)
    &&& w.palette.contains(b.color)
}

/// A continuation: a straight segment on the cell ahead of the last one,
/// keeping its direction and inheriting its color.
pub open spec fn continue_step(w: WorldView, b: Block) -> bool {
    &&& candidate_ok(w)
    &&& b.pipe_type == PipeType::I
    &&& b.direction == last_direction(w)
    &&& b.color == w.last->0.color
    &&& (b.position.0 as int, b.position.1 as int, b.position.2 as int) == candidate_cell(w)
}

/// A turn: an elbow segment on the cell ahead of the last one, leaving
/// along a direction perpendicular to the last one and inheriting its
/// color.
pub open spec fn turn_step(w: WorldView, b: Block) -> bool {
    &&& candidate_ok(w)
    &&& b.pipe_type == PipeType::L
    &&& is_perpendicular(last_direction(w), b.direction)
    &&& b.color == w.last->0.color
    &&& (b.position.0 as int, b.position.1 as int, b.position.2 as int) == candidate_cell(w)
}

/// The bookkeeping every placement performs: the block's cell was free and
/// in bounds and becomes occupied, the block becomes the last segment, its
/// instance is appended to the stream of its pipe type, and nothing else
/// changes.
pub open spec fn placed(pre: WorldView, post: WorldView, b: Block) -> bool {
    &&& in_bounds(pre, b.position)
    &&& !pre.occupied.contains(b.position)
    &&& post.occupied == pre.occupied.insert(b.position)
    &&& post.last == Some(b)
    &&& post.max_x == pre.max_x
    &&& post.max_y == pre.max_y
    &&& post.max_z == pre.max_z
    &&& post.turn_probability == pre.turn_probability
    &&& post.stop_probability == pre.stop_probability
    &&& post.palette == pre.palette
    &&& match b.pipe_type {
        PipeType::I => post.i_instances == pre.i_instances.push(i_instance_of(b))
            && post.l_instances == pre.l_instances,
        PipeType::L => pre.last is Some && post.i_instances == pre.i_instances
            && post.l_instances == pre.l_instances.push(
            l_instance_of(pre.last->0.direction, b),
        ),
    }
}

/// The state invariants of a world: sane configuration, a finite occupancy
/// set of in-bounds cells with exactly one cell per emitted instance, every
/// emitted instance on an occupied cell, and the last segment (if any) on
/// an occupied cell.
pub open spec fn wf_state(w: WorldView) -> bool {
    &&& 1 <= w.max_x <= CELL_LIMIT
    &&& 1 <= w.max_y <= CELL_LIMIT
    &&& 1 <= w.max_z <= CELL_LIMIT
    &&& w.turn_probability <= PROBABILITY_SCALE
    &&& w.stop_probability <= PROBABILITY_SCALE
    &&& 1 <= w.palette.len() <= u32::MAX
    &&& w.occupied.finite()
    &&& w.occupied.len() == w.i_instances.len() + w.l_instances.len()
    &&& forall|p: (u32, u32, u32)| #[trigger] w.occupied.contains(p) ==> in_bounds(w, p)
    &&& forall|i: int|
        0 <= i < w.i_instances.len() ==> w.occupied.contains(#[trigger] w.i_instances[i].position)
    &&& forall|i: int|
        0 <= i < w.l_instances.len() ==> w.occupied.contains(#[trigger] w.l_instances[i].position)
    &&& (w.last is Some ==> w.occupied.contains(w.last->0.position))
}

/// The world: grid bounds, growth probabilities, the two instance streams,
/// the occupancy set, the last placed segment and the fresh-start palette.
pub struct World {
    max_x_block: u32,
    max_y_block: u32,
    max_z_block: u32,
    turn_probability: u32,
    stop_probability: u32,
    i_pipe_instances: Vec<Instance>,
    l_pipe_instances: Vec<Instance>,
    occupied_blocks: Occupancy,
    last_block: Option<Block>,
    palette: Vec<Color>,
}

impl View for World {
    type V = WorldView;

    closed spec fn view(&self) -> WorldView {
        WorldView {
            max_x: self.max_x_block,
            max_y: self.max_y_block,
            max_z: self.max_z_block,
            turn_probability: self.turn_probability,
            stop_probability: self.stop_probability,
            i_instances: self.i_pipe_instances@,
            l_instances: self.l_pipe_instances@,
            occupied: self.occupied_blocks@,
            last: self.last_block,
            palette: self.palette@,
        }
    }
}

/// The palette fresh starts draw from by default.
pub open spec fn default_palette() -> Seq<Color> {
    seq![
        Color { red: 116, green: 222, blue: 215 },
        Color { red: 255, green: 0, blue: 0 },
        Color { red: 247, green: 104, blue: 31 },
        Color { red: 75, green: 151, blue: 160 },
        Color { red: 254, green: 211, blue: 86 },
        Color { red: 250, green: 231, blue: 231 },
        Color { red: 132, green: 123, blue: 14 },
        Color { red: 251, green: 155, blue: 72 },
        Color { red: 14, green: 169, blue: 30 },
        Color { red: 158, green: 235, blue: 189 },
        Color { red: 2, green: 143, blue: 146 },
    ]
}

/// The default palette as a vector, for world construction.
pub fn default_colors() -> (colors: Vec<Color>)
    ensures
        colors@ == default_palette(),
{
    let mut colors: Vec<Color> = Vec::new();
    colors.push(Color { red: 116, green: 222, blue: 215 });
    colors.push(Color { red: 255, green: 0, blue: 0 });
    colors.push(Color { red: 247, green: 104, blue: 31 });
    colors.push(Color { red: 75, green: 151, blue: 160 });
    colors.push(Color { red: 254, green: 211, blue: 86 });
    colors.push(Color { red: 250, green: 231, blue: 231 });
    colors.push(Color { red: 132, green: 123, blue: 14 });
    colors.push(Color { red: 251, green: 155, blue: 72 });
    colors.push(Color { red: 14, green: 169, blue: 30 });
    colors.push(Color { red: 158, green: 235, blue: 189 });
    colors.push(Color { red: 2, green: 143, blue: 146 });
    proof {
        assert(colors@ =~= default_palette());
    }
    colors
}

impl World {
    /// Consistency of the occupancy structure behind the view.
    pub closed spec fn inv(&self) -> bool {
        self.occupied_blocks.wf()
    }

    /// Whole-world well-formedness: the state invariants on the view plus
    /// the occupancy structure's internal consistency.
    pub open spec fn wf(&self) -> bool {
        wf_state(self@) && self.inv()
    }

    /// An empty world with the default bounds, probabilities and palette.
    pub fn new() -> (w: World)
        ensures
            w.wf(),
            w@.max_x == WORLD_X && w@.max_y == WORLD_Y && w@.max_z == WORLD_Z,
            w@.turn_probability == TURN_PROBABILITY,
            w@.stop_probability == STOP_PROBABILITY,
            w@.palette == default_palette(),
            w@.i_instances == Seq::<Instance>::empty(),
            w@.l_instances == Seq::<Instance>::empty(),
            w@.occupied == Set::<(u32, u32, u32)>::empty(),
            w@.last is None,
    {
        World::with_config(WORLD_X, WORLD_Y, WORLD_Z, TURN_PROBABILITY, STOP_PROBABILITY, default_colors())
    }

    /// An empty world with explicit bounds, probabilities (in thousandths)
    /// and fresh-start palette. Bounds and probabilities are assumed
    /// pre-validated by configuration loading.
    pub fn with_config(
        max_x_block: u32,
        max_y_block: u32,
        max_z_block: u32,
        turn_probability: u32,
        stop_probability: u32,
        palette: Vec<Color>,
    ) -> (w: World)
        requires
            1 <= max_x_block <= CELL_LIMIT,
            1 <= max_y_block <= CELL_LIMIT,
            1 <= max_z_block <= CELL_LIMIT,
            turn_probability <= PROBABILITY_SCALE,
            stop_probability <= PROBABILITY_SCALE,
            1 <= palette@.len() <= u32::MAX,
        ensures
            w.wf(),
            w@.max_x == max_x_block && w@.max_y == max_y_block && w@.max_z == max_z_block,
            w@.turn_probability == turn_probability,
            w@.stop_probability == stop_probability,
            w@.palette == palette@,
            w@.i_instances == Seq::<Instance>::empty(),
            w@.l_instances == Seq::<Instance>::empty(),
            w@.occupied == Set::<(u32, u32, u32)>::empty(),
            w@.last is None,
    {
        World {
            max_x_block,
            max_y_block,
            max_z_block,
            turn_probability,
            stop_probability,
            i_pipe_instances: Vec::new(),
            l_pipe_instances: Vec::new(),
            occupied_blocks: Occupancy::new(),
            last_block: None,
            palette,
        }
    }

    /// The stream of straight-segment instances, in generation order.
    #[allow(non_snake_case)]
    pub fn get_I_pipe_instances(&self) -> (instances: &[Instance])
        ensures
            instances@ == self@.i_instances,
    {
        self.i_pipe_instances.as_slice()
    }

    /// The stream of elbow-segment instances, in generation order.
    #[allow(non_snake_case)]
    pub fn get_L_pipe_instances(&self) -> (instances: &[Instance])
        ensures
            instances@ == self@.l_instances,
    {
        self.l_pipe_instances.as_slice()
    }

    /// Whether `position` holds a placed segment.
    pub fn is_occupied(&self, position: (u32, u32, u32)) -> (b: bool)
        requires
            self.wf(),
        ensures
            b == self@.occupied.contains(position),
    {
        self.occupied_blocks.is_occupied(position)
    }

    /// Whether every coordinate of `position` is below the bound for its
    /// axis.
    pub fn is_in_bounds(&self, position: (u32, u32, u32)) -> (b: bool)
        ensures
            b == in_bounds(self@, position),
    {
        position.0 < self.max_x_block && position.1 < self.max_y_block && position.2
            < self.max_z_block
    }

    /// Whether a segment may be placed on `position`: in bounds and free.
    pub fn is_position_valid(&self, position: (u32, u32, u32)) -> (b: bool)
        requires
            self.wf(),
        ensures
            b == (in_bounds(self@, position) && !self@.occupied.contains(position)),
    {
        self.is_in_bounds(position) && !self.is_occupied(position)
    }

    /// One growth step: decides fresh start, continuation or turn, places
    /// exactly one segment, and appends exactly one instance — or reports
    /// `GridSaturated` leaving the world unchanged, when a fresh start was
    /// needed and no free spawn cell was found.
    pub fn add_pipe(&mut self) -> (r: Result<(), PipeError>)
        requires
            old(self).wf(),
        ensures
            final(self).wf(),
            r is Ok ==> exists|b: Block|
                #[trigger] placed(old(self)@, final(self)@, b) && (fresh_step(old(self)@, b)
                    || continue_step(old(self)@, b) || turn_step(old(self)@, b)),
            r is Err ==> final(self)@ == old(self)@ && r == Err::<(), PipeError>(
                PipeError::GridSaturated,
            ) && !spawn_region_untouched(old(self)@),
            (old(self)@.last is None || !candidate_ok(old(self)@)) && spawn_region_full(old(self)@)
                ==> r is Err,
            old(self)@.stop_probability == 0 && candidate_ok(old(self)@) ==> r is Ok,
    {
        let use_fresh = if self.last_block.is_none() {
            true
        } else {
            random_below(PROBABILITY_SCALE) < self.stop_probability
        };
        let block_result = if use_fresh {
            self.random_block()
        } else {
            self.next_block()
        };
        match block_result {
            Err(e) => Err(e),
            Ok(block) => {
                proof {
                    assert(fresh_step(self@, block) || continue_step(self@, block) || turn_step(
                        self@,
                        block,
                    ));
                }
                self.place_block(block);
                Ok(())
            },
        }
    }

    /// Scripted placement for test fixtures: places the given segment,
    /// bypassing the random decision tree but performing the same
    /// orientation, occupancy and stream bookkeeping as a random step.
    pub fn add_debug_pipe(
        &mut self,
        pipe_type: PipeType,
        position: (u32, u32, u32),
        direction: Direction,
        color: Color,
    )
        requires
            old(self).wf(),
            in_bounds(old(self)@, position),
            !old(self)@.occupied.contains(position),
            pipe_type == PipeType::L ==> old(self)@.last is Some && is_perpendicular(
                old(self)@.last->0.direction,
                direction,
            ),
        ensures
            final(self).wf(),
            placed(old(self)@, final(self)@, Block { pipe_type, direction, position, color }),
    {
        let block = Block { pipe_type, direction, position, color };
        self.place_block(block);
    }

    /// A fresh-start block: a free spawn cell drawn at random (at most
    /// `SPAWN_ATTEMPTS` draws), a random direction and a palette color.
    fn random_block(&self) -> (r: Result<Block, PipeError>)
        requires
            self.wf(),
        ensures
            r matches Ok(b) ==> fresh_step(self@, b),
            r is Err ==> r == Err::<Block, PipeError>(PipeError::GridSaturated)
                && !spawn_region_untouched(self@),
            spawn_region_full(self@) ==> r is Err,
    {
        let spawn_x = self.max_x_block / 2 + self.max_x_block % 2;
        let spawn_y = self.max_y_block / 2 + self.max_y_block % 2;
        let spawn_z = self.max_z_block / 2 + self.max_z_block % 2;
        let mut attempts: u32 = 0;
        while attempts < SPAWN_ATTEMPTS
            invariant
                self.wf(),
                spawn_x as int == spawn_limit(self@.max_x),
                spawn_y as int == spawn_limit(self@.max_y),
                spawn_z as int == spawn_limit(self@.max_z),
                spawn_x >= 1 && spawn_y >= 1 && spawn_z >= 1,
                attempts > 0 ==> !spawn_region_untouched(self@),
            decreases SPAWN_ATTEMPTS - attempts,
        {
            let position = (random_below(spawn_x), random_below(spawn_y), random_below(spawn_z));
            if !self.occupied_blocks.is_occupied(position) {
                let direction = Direction::from_index(random_below(6));
                let color_index = random_below(self.palette_len());
                let color = *self.palette_at(color_index);
                proof {
                    assert(self@.palette.contains(color)) by {
                        assert(self@.palette[color_index as int] == color);
                    }
                    assert(!spawn_region_full(self@)) by {
                        assert(in_spawn_region(self@, position) && !self@.occupied.contains(
                            position,
                        ));
                    }
                }
                return Ok(Block { pipe_type: PipeType::I, direction, position, color });
            }
            proof {
                assert(!spawn_region_untouched(self@)) by {
                    assert(in_spawn_region(self@, position) && self@.occupied.contains(position));
                }
            }
            attempts = attempts + 1;
        }
        Err(PipeError::GridSaturated)
    }

    /// The block one step ahead of the last one — a continuation or a turn
    /// — or a fresh-start block when the cell ahead is blocked or out of
    /// bounds (a blocked continuation forfeits the current run).
    fn next_block(&self) -> (r: Result<Block, PipeError>)
        requires
            self.wf(),
            self@.last is Some,
        ensures
            r matches Ok(b) ==> continue_step(self@, b) || turn_step(self@, b) || fresh_step(
                self@,
                b,
            ),
            candidate_ok(self@) ==> (r matches Ok(b) && (continue_step(self@, b) || turn_step(
                self@,
                b,
            ))),
            r is Err ==> r == Err::<Block, PipeError>(PipeError::GridSaturated)
                && !spawn_region_untouched(self@),
            !candidate_ok(self@) && spawn_region_full(self@) ==> r is Err,
    {
        let last = match &self.last_block {
            Some(b) => *b,
            None => unreached(),
        };
        let target = match Self::advance_position(last.position, last.direction) {
            Some(q) => if self.is_in_bounds(q) && !self.is_occupied(q) {
                Some(q)
            } else {
                None
            },
            None => None,
        };
        match target {
            None => {
                proof {
                    assert(!candidate_ok(self@));
                }
                self.random_block()
            },
            Some(position) => {
                if random_below(PROBABILITY_SCALE) < self.turn_probability {
                    let direction = last.direction.perpendicular_at(random_below(4));
                    Ok(Block { pipe_type: PipeType::L, direction, position, color: last.color })
                } else {
                    Ok(
                        Block {
                            pipe_type: PipeType::I,
                            direction: last.direction,
                            position,
                            color: last.color,
                        },
                    )
                }
            },
        }
    }

    /// The cell one unit along `d` from `p`, or `None` where the move
    /// leaves the grid representable in unsigned coordinates.
    fn advance_position(p: (u32, u32, u32), d: Direction) -> (r: Option<(u32, u32, u32)>)
        ensures
            r matches Some(q) ==> (q.0 as int, q.1 as int, q.2 as int) == advanced(p, d),
            r is None ==> !(0 <= advanced(p, d).0 <= u32::MAX && 0 <= advanced(p, d).1 <= u32::MAX
                && 0 <= advanced(p, d).2 <= u32::MAX),
    {
        match d {
            Direction::X => if p.0 == u32::MAX {
                None
            } else {
                Some((p.0 + 1, p.1, p.2))
            },
            Direction::Y => if p.1 == u32::MAX {
                None
            } else {
                Some((p.0, p.1 + 1, p.2))
            },
            Direction::Z => if p.2 == u32::MAX {
                None
            } else {
                Some((p.0, p.1, p.2 + 1))
            },
            Direction::_X => if p.0 == 0 {
                None
            } else {
                Some((p.0 - 1, p.1, p.2))
            },
            Direction::_Y => if p.1 == 0 {
                None
            } else {
                Some((p.0, p.1 - 1, p.2))
            },
            Direction::_Z => if p.2 == 0 {
                None
            } else {
                Some((p.0, p.1, p.2 - 1))
            },
        }
    }

    /// Places a block: appends its instance to the stream of its pipe type,
    /// marks its cell occupied and records it as the last segment.
    fn place_block(&mut self, block: Block)
        requires
            old(self).wf(),
            in_bounds(old(self)@, block.position),
            !old(self)@.occupied.contains(block.position),
            block.pipe_type == PipeType::L ==> old(self)@.last is Some && is_perpendicular(
                old(self)@.last->0.direction,
                block.direction,
            ),
        ensures
            final(self).wf(),
            placed(old(self)@, final(self)@, block),
    {
        match block.pipe_type {
            PipeType::I => {
                let instance = self.i_instance_at_block(&block);
                self.i_pipe_instances.push(instance);
            },
            PipeType::L => {
                let instance = self.l_instance_at_block(&block);
                self.l_pipe_instances.push(instance);
            },
        }
        proof {
            assert(valid_cell(block.position));
        }
        self.occupied_blocks.mark_occupied(block.position);
        self.last_block = Some(block);
        proof {
            let pre = old(self)@;
            let post = self@;
            assert(post.occupied.len() == pre.occupied.len() + 1);
            assert forall|p: (u32, u32, u32)| post.occupied.contains(p) implies in_bounds(
                post,
                p,
            ) by {
                if p != block.position {
                    assert(pre.occupied.contains(p));
                }
            }
            assert forall|i: int| 0 <= i < post.i_instances.len() implies post.occupied.contains(
                #[trigger] post.i_instances[i].position,
            ) by {
                if i < pre.i_instances.len() {
                    assert(pre.occupied.contains(pre.i_instances[i].position));
                }
            }
            assert forall|i: int| 0 <= i < post.l_instances.len() implies post.occupied.contains(
                #[trigger] post.l_instances[i].position,
            ) by {
                if i < pre.l_instances.len() {
                    assert(pre.occupied.contains(pre.l_instances[i].position));
                }
            }
        }
    }

    /// The instance record of a straight segment: its rotation depends only
    /// on the segment's own direction.
    fn i_instance_at_block(&self, block: &Block) -> (instance: Instance)
        ensures
            instance == i_instance_of(*block),
    {
        Instance {
            position: block.position,
            rotation: i_rotation(block.direction),
            color: block.color,
        }
    }

    /// The instance record of an elbow segment: its rotation depends on the
    /// incoming direction (the last segment's outgoing direction) and its
    /// own outgoing direction.
    fn l_instance_at_block(&self, block: &Block) -> (instance: Instance)
        requires
            self@.last is Some,
            is_perpendicular(self@.last->0.direction, block.direction),
        ensures
            instance == l_instance_of(self@.last->0.direction, *block),
    {
        let incoming = match &self.last_block {
            Some(b) => b.direction,
            None => unreached(),
        };
        let rotation = match l_rotation(incoming, block.direction) {
            Ok(rotation) => rotation,
            Err(_) => unreached(),
        };
        Instance { position: block.position, rotation, color: block.color }
    }

    /// The palette length, as the draw bound for color indices.
    fn palette_len(&self) -> (n: u32)
        requires
            1 <= self@.palette.len() <= u32::MAX,
        ensures
            n as int == self@.palette.len(),
    {
        self.palette.len() as u32
    }

    /// The palette color with the given index.
    fn palette_at(&self, i: u32) -> (c: &Color)
        requires
            i < self@.palette.len(),
        ensures
            *c == self@.palette[i as int],
    {
        &self.palette[i as usize]
    }
}

} // verus!
