use tetris_engine::rotation::{Rotation, RotationDirection};

#[test]
fn clockwise_turns_walk_zero_right_two_left() {
    let cw = RotationDirection::Clockwise;
    assert_eq!(Rotation::Zero.turned(cw), Rotation::Right);
    assert_eq!(Rotation::Right.turned(cw), Rotation::Two);
    assert_eq!(Rotation::Two.turned(cw), Rotation::Left);
    assert_eq!(Rotation::Left.turned(cw), Rotation::Zero);
}

#[test]
fn counterclockwise_turns_walk_the_cycle_backwards() {
    let ccw = RotationDirection::Counterclockwise;
    assert_eq!(Rotation::Zero.turned(ccw), Rotation::Left);
    assert_eq!(Rotation::Left.turned(ccw), Rotation::Two);
    assert_eq!(Rotation::Two.turned(ccw), Rotation::Right);
    assert_eq!(Rotation::Right.turned(ccw), Rotation::Zero);
}

#[test]
fn index_counts_clockwise_from_spawn() {
    assert_eq!(Rotation::Zero.index(), 0);
    assert_eq!(Rotation::Right.index(), 1);
    assert_eq!(Rotation::Two.index(), 2);
    assert_eq!(Rotation::Left.index(), 3);
}

#[test]
fn a_turn_moves_the_index_by_one_modulo_four() {
    for r in [Rotation::Zero, Rotation::Right, Rotation::Two, Rotation::Left] {
        assert_eq!(r.turned(RotationDirection::Clockwise).index(), (r.index() + 1) % 4);
        assert_eq!(r.turned(RotationDirection::Counterclockwise).index(), (r.index() + 3) % 4);
    }
}

#[test]
fn four_turns_each_way_come_back_to_the_start() {
    for start in [Rotation::Zero, Rotation::Right, Rotation::Two, Rotation::Left] {
        let mut r = start;
        for _ in 0..4 {
            r = r.turned(RotationDirection::Clockwise);
        }
        assert_eq!(r, start);
        for _ in 0..4 {
            r = r.turned(RotationDirection::Counterclockwise);
        }
        assert_eq!(r, start);
    }
}

#[test]
fn opposite_turns_cancel() {
    for start in [Rotation::Zero, Rotation::Right, Rotation::Two, Rotation::Left] {
        let there = start.turned(RotationDirection::Clockwise);
        assert_eq!(there.turned(RotationDirection::Counterclockwise), start);
        let back = start.turned(RotationDirection::Counterclockwise);
        assert_eq!(back.turned(RotationDirection::Clockwise), start);
    }
}
