use pipes::PipeError;
use pipes::direction::Direction;
use pipes::instance::{Color, PipeType};
use pipes::occupancy::Occupancy;
use pipes::rotation::Rotation;
use pipes::world::{World, default_colors};

const RED: Color = Color { red: 256, green: 0, blue: 0 };

#[test]
fn debug_placement_records_straight_instance() {
    let mut world = World::new();
    world.add_debug_pipe(PipeType::I, (1, 1, 1), Direction::Y, RED);
    let straight = world.get_I_pipe_instances();
    assert_eq!(straight.len(), 1);
    assert_eq!(straight[0].position, (1, 1, 1));
    assert_eq!(straight[0].rotation, Rotation::identity());
    assert_eq!(straight[0].color, RED);
    assert!(world.get_L_pipe_instances().is_empty());
    assert!(world.is_occupied((1, 1, 1)));
    assert!(!world.is_occupied((1, 2, 1)));
}

#[test]
fn debug_placement_records_elbow_instance() {
    let mut world = World::new();
    world.add_debug_pipe(PipeType::I, (1, 1, 1), Direction::Y, RED);
    // a turn to +X after moving +Y: a half turn about +X
    world.add_debug_pipe(PipeType::L, (1, 2, 1), Direction::X, RED);
    let elbows = world.get_L_pipe_instances();
    assert_eq!(world.get_I_pipe_instances().len(), 1);
    assert_eq!(elbows.len(), 1);
    assert_eq!(elbows[0].position, (1, 2, 1));
    assert_eq!(
        elbows[0].rotation,
        Rotation { x: Direction::X, y: Direction::_Y, z: Direction::_Z }
    );
    assert!(world.is_occupied((1, 2, 1)));
}

#[test]
fn saturation_is_reported_not_looped() {
    let mut world = World::with_config(1, 1, 1, 300, 0, default_colors());
    assert_eq!(world.add_pipe(), Ok(()));
    assert!(world.is_occupied((0, 0, 0)));
    assert_eq!(world.add_pipe(), Err(PipeError::GridSaturated));
    // the failed step changed nothing
    assert_eq!(
        world.get_I_pipe_instances().len() + world.get_L_pipe_instances().len(),
        1
    );
}

#[test]
fn first_step_is_a_fresh_straight_segment() {
    let mut world = World::new();
    assert_eq!(world.add_pipe(), Ok(()));
    assert_eq!(world.get_I_pipe_instances().len(), 1);
    assert!(world.get_L_pipe_instances().is_empty());
}

#[test]
fn fresh_starts_stay_in_the_spawn_region() {
    // with bounds of 2 the spawn region is the single corner cell
    let mut world = World::with_config(2, 2, 2, 300, 0, default_colors());
    assert_eq!(world.add_pipe(), Ok(()));
    assert!(world.is_occupied((0, 0, 0)));
}

#[test]
fn growth_places_distinct_in_bounds_segments() {
    let mut world = World::new();
    for _ in 0..100 {
        assert_eq!(world.add_pipe(), Ok(()));
    }
    let mut positions: Vec<(u32, u32, u32)> = Vec::new();
    for instance in world.get_I_pipe_instances().iter().chain(world.get_L_pipe_instances()) {
        let p = instance.position;
        assert!(p.0 < 30 && p.1 < 30 && p.2 < 30, "out of bounds: {:?}", p);
        assert!(world.is_occupied(p));
        assert!(!positions.contains(&p), "cell occupied twice: {:?}", p);
        positions.push(p);
    }
    assert_eq!(positions.len(), 100);
}

#[test]
fn growth_works_at_the_largest_bounds() {
    let mut world = World::with_config(0x20_0000, 0x20_0000, 0x20_0000, 300, 0, default_colors());
    assert_eq!(world.add_pipe(), Ok(()));
    assert_eq!(
        world.get_I_pipe_instances().len() + world.get_L_pipe_instances().len(),
        1
    );
}

#[test]
fn bounds_and_validity_queries() {
    let mut world = World::with_config(3, 4, 5, 300, 0, default_colors());
    assert!(world.is_in_bounds((2, 3, 4)));
    assert!(!world.is_in_bounds((3, 3, 4)));
    assert!(!world.is_in_bounds((2, 4, 4)));
    assert!(!world.is_in_bounds((2, 3, 5)));
    assert!(world.is_position_valid((2, 3, 4)));
    world.add_debug_pipe(PipeType::I, (2, 3, 4), Direction::Z, RED);
    assert!(!world.is_position_valid((2, 3, 4)));
    assert!(!world.is_position_valid((3, 3, 4)));
}

#[test]
fn occupancy_marks_and_queries_cells() {
    let mut cells = Occupancy::new();
    assert!(!cells.is_occupied((0, 0, 0)));
    cells.mark_occupied((0, 0, 0));
    cells.mark_occupied((7, 8, 9));
    assert!(cells.is_occupied((0, 0, 0)));
    assert!(cells.is_occupied((7, 8, 9)));
    assert!(!cells.is_occupied((0, 0, 1)));
    assert!(!cells.is_occupied((8, 7, 9)));
    // marking again is idempotent
    cells.mark_occupied((7, 8, 9));
    assert!(cells.is_occupied((7, 8, 9)));
}

#[test]
fn default_palette_has_eleven_colors() {
    let palette = default_colors();
    assert_eq!(palette.len(), 11);
    assert_eq!(palette[0], Color { red: 116, green: 222, blue: 215 });
    assert_eq!(palette[10], Color { red: 2, green: 143, blue: 146 });
}
