use pipes::PipeError;
use pipes::direction::Direction;
use pipes::orientation::{i_rotation, l_rotation};
use pipes::rotation::Rotation;

const ALL_DIRECTIONS: [Direction; 6] = [
    Direction::X,
    Direction::Y,
    Direction::Z,
    Direction::_X,
    Direction::_Y,
    Direction::_Z,
];

const IDENTITY: Rotation = Rotation { x: Direction::X, y: Direction::Y, z: Direction::Z };

#[test]
fn straight_rotation_for_y_axis_is_identity() {
    assert_eq!(i_rotation(Direction::Y), IDENTITY);
    assert_eq!(i_rotation(Direction::_Y), IDENTITY);
}

#[test]
fn straight_rotation_exact_values() {
    // a quarter turn about +Z the negative way: +Y lands on +X
    let for_x = Rotation { x: Direction::_Y, y: Direction::X, z: Direction::Z };
    assert_eq!(i_rotation(Direction::X), for_x);
    assert_eq!(i_rotation(Direction::_X), for_x);
    // a quarter turn about +X: +Y lands on +Z
    let for_z = Rotation { x: Direction::X, y: Direction::Z, z: Direction::_Y };
    assert_eq!(i_rotation(Direction::Z), for_z);
    assert_eq!(i_rotation(Direction::_Z), for_z);
}

#[test]
fn straight_rotation_has_three_distinct_values() {
    let mut distinct: Vec<Rotation> = Vec::new();
    for d in ALL_DIRECTIONS {
        let r = i_rotation(d);
        assert_eq!(r.apply(Direction::Y).axis(), d.axis());
        if !distinct.contains(&r) {
            distinct.push(r);
        }
    }
    assert_eq!(distinct.len(), 3);
}

#[test]
fn elbow_rotation_is_deterministic() {
    // the same (incoming, outgoing) pair always yields the same literal value
    let first = l_rotation(Direction::_X, Direction::Y);
    let second = l_rotation(Direction::_X, Direction::Y);
    assert_eq!(first, second);
    assert_eq!(first, Ok(IDENTITY));
}

#[test]
fn elbow_rotation_exact_values() {
    // the canonical elbow joins the +X and +Y faces: an elbow entered
    // moving down (-Y) and leaving along +X needs no rotation at all
    assert_eq!(l_rotation(Direction::_Y, Direction::X), Ok(IDENTITY));
    // entered moving -Z, leaving +X: one quarter turn about +X
    assert_eq!(
        l_rotation(Direction::_Z, Direction::X),
        Ok(Rotation { x: Direction::X, y: Direction::Z, z: Direction::_Y })
    );
    // entered moving +Y, leaving +X: a half turn about +X
    assert_eq!(
        l_rotation(Direction::Y, Direction::X),
        Ok(Rotation { x: Direction::X, y: Direction::_Y, z: Direction::_Z })
    );
    // entered moving -Y, leaving -X: a quarter turn about +Z
    assert_eq!(
        l_rotation(Direction::_Y, Direction::_X),
        Ok(Rotation { x: Direction::Y, y: Direction::_X, z: Direction::Z })
    );
}

#[test]
fn elbow_rotation_rejects_parallel_pairs() {
    for d in ALL_DIRECTIONS {
        assert_eq!(l_rotation(d, d), Err(PipeError::InvalidDirectionPair));
        assert_eq!(l_rotation(d.opposite(), d), Err(PipeError::InvalidDirectionPair));
    }
}

#[test]
fn elbow_rotation_joins_the_right_faces() {
    // for every perpendicular pair, the rotation carries the faces the
    // canonical elbow joins (+X and +Y) onto the face toward the previous
    // segment and the face the outgoing direction leaves through
    for incoming in ALL_DIRECTIONS {
        for outgoing in ALL_DIRECTIONS {
            if !incoming.is_perpendicular_to(outgoing) {
                continue;
            }
            let r = l_rotation(incoming, outgoing).unwrap();
            let a = r.apply(Direction::X);
            let b = r.apply(Direction::Y);
            let joined = (a == outgoing && b == incoming.opposite()) || (a == incoming.opposite()
                && b == outgoing);
            assert!(joined, "ports not joined for {:?} -> {:?}", incoming, outgoing);
        }
    }
}

#[test]
fn rotation_composition_matches_application() {
    let quarter = Rotation { x: Direction::X, y: Direction::Z, z: Direction::_Y };
    let half = quarter.compose(quarter);
    assert_eq!(half, Rotation { x: Direction::X, y: Direction::_Y, z: Direction::_Z });
    assert_eq!(Rotation::identity().compose(half), half);
    assert_eq!(half.compose(Rotation::identity()), half);
    for d in ALL_DIRECTIONS {
        assert_eq!(half.apply(d), quarter.apply(quarter.apply(d)));
        assert_eq!(half.apply(d).opposite(), half.apply(d.opposite()));
    }
}
