use pipes::direction::{Axis, Direction};

const ALL_DIRECTIONS: [Direction; 6] = [
    Direction::X,
    Direction::Y,
    Direction::Z,
    Direction::_X,
    Direction::_Y,
    Direction::_Z,
];

#[test]
fn axis_of_each_direction() {
    assert_eq!(Direction::X.axis(), Axis::X);
    assert_eq!(Direction::_X.axis(), Axis::X);
    assert_eq!(Direction::Y.axis(), Axis::Y);
    assert_eq!(Direction::_Y.axis(), Axis::Y);
    assert_eq!(Direction::Z.axis(), Axis::Z);
    assert_eq!(Direction::_Z.axis(), Axis::Z);
}

#[test]
fn opposite_is_an_involution() {
    for d in ALL_DIRECTIONS {
        assert_ne!(d.opposite(), d);
        assert_eq!(d.opposite().opposite(), d);
        assert_eq!(d.opposite().axis(), d.axis());
    }
}

#[test]
fn each_direction_has_four_perpendiculars() {
    for d in ALL_DIRECTIONS {
        let mut seen: Vec<Direction> = Vec::new();
        for i in 0..4 {
            let p = d.perpendicular_at(i);
            assert!(d.is_perpendicular_to(p));
            assert_ne!(p, d);
            assert_ne!(p, d.opposite());
            assert!(!seen.contains(&p));
            seen.push(p);
        }
        assert_eq!(seen.len(), 4);
    }
}

#[test]
fn perpendicularity_is_axis_difference() {
    for a in ALL_DIRECTIONS {
        for b in ALL_DIRECTIONS {
            assert_eq!(a.is_perpendicular_to(b), a.axis() != b.axis());
        }
    }
}

#[test]
fn from_index_enumerates_all_directions() {
    let mut seen: Vec<Direction> = Vec::new();
    for i in 0..6 {
        let d = Direction::from_index(i);
        assert!(!seen.contains(&d));
        seen.push(d);
    }
    assert_eq!(seen.len(), 6);
}
