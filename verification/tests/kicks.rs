use tetris_engine::geometry::Vec2;
use tetris_engine::piece::{TetriminoPrimitive, TetriminoType, TetriminoWallKicks};
use tetris_engine::rotation::Rotation;

fn v(x: i32, y: i32) -> Vec2 {
    Vec2 { x, y }
}

#[test]
fn t_piece_kicks_are_the_srs_table_with_y_down() {
    let p = TetriminoPrimitive::of(TetriminoType::T);
    assert_eq!(
        p.get_wall_kicks(&Rotation::Zero, &Rotation::Right),
        TetriminoWallKicks::Other([v(0, 0), v(-1, 0), v(-1, -1), v(0, 2), v(-1, 2)])
    );
    assert_eq!(
        p.get_wall_kicks(&Rotation::Right, &Rotation::Zero),
        TetriminoWallKicks::Other([v(0, 0), v(1, 0), v(1, 1), v(0, -2), v(1, -2)])
    );
    assert_eq!(
        p.get_wall_kicks(&Rotation::Right, &Rotation::Two),
        TetriminoWallKicks::Other([v(0, 0), v(1, 0), v(1, 1), v(0, -2), v(1, -2)])
    );
    assert_eq!(
        p.get_wall_kicks(&Rotation::Two, &Rotation::Right),
        TetriminoWallKicks::Other([v(0, 0), v(-1, 0), v(-1, -1), v(0, 2), v(-1, 2)])
    );
    assert_eq!(
        p.get_wall_kicks(&Rotation::Two, &Rotation::Left),
        TetriminoWallKicks::Other([v(0, 0), v(1, 0), v(1, -1), v(0, 2), v(1, 2)])
    );
    assert_eq!(
        p.get_wall_kicks(&Rotation::Left, &Rotation::Two),
        TetriminoWallKicks::Other([v(0, 0), v(-1, 0), v(-1, 1), v(0, -2), v(-1, -2)])
    );
    assert_eq!(
        p.get_wall_kicks(&Rotation::Left, &Rotation::Zero),
        TetriminoWallKicks::Other([v(0, 0), v(-1, 0), v(-1, 1), v(0, -2), v(-1, -2)])
    );
    assert_eq!(
        p.get_wall_kicks(&Rotation::Zero, &Rotation::Left),
        TetriminoWallKicks::Other([v(0, 0), v(1, 0), v(1, -1), v(0, 2), v(1, 2)])
    );
}

#[test]
fn line_piece_kicks_are_the_srs_table_with_y_down() {
    let p = TetriminoPrimitive::of(TetriminoType::I);
    assert_eq!(
        p.get_wall_kicks(&Rotation::Zero, &Rotation::Right),
        TetriminoWallKicks::Other([v(1, 0), v(-1, 0), v(2, 0), v(-1, 1), v(2, -2)])
    );
    assert_eq!(
        p.get_wall_kicks(&Rotation::Right, &Rotation::Zero),
        TetriminoWallKicks::Other([v(-1, 0), v(1, 0), v(-2, 0), v(1, -1), v(-2, 2)])
    );
    assert_eq!(
        p.get_wall_kicks(&Rotation::Right, &Rotation::Two),
        TetriminoWallKicks::Other([v(0, 1), v(-1, 1), v(2, 1), v(-1, -1), v(2, 2)])
    );
    assert_eq!(
        p.get_wall_kicks(&Rotation::Two, &Rotation::Right),
        TetriminoWallKicks::Other([v(0, -1), v(1, -1), v(-2, -1), v(1, 1), v(-2, -2)])
    );
    assert_eq!(
        p.get_wall_kicks(&Rotation::Two, &Rotation::Left),
        TetriminoWallKicks::Other([v(-1, 0), v(1, 0), v(-2, 0), v(1, -1), v(-2, 2)])
    );
    assert_eq!(
        p.get_wall_kicks(&Rotation::Left, &Rotation::Two),
        TetriminoWallKicks::Other([v(1, 0), v(-1, 0), v(2, 0), v(-1, 1), v(2, -2)])
    );
    assert_eq!(
        p.get_wall_kicks(&Rotation::Left, &Rotation::Zero),
        TetriminoWallKicks::Other([v(0, -1), v(1, -1), v(-2, -1), v(1, 1), v(-2, -2)])
    );
    assert_eq!(
        p.get_wall_kicks(&Rotation::Zero, &Rotation::Left),
        TetriminoWallKicks::Other([v(0, 1), v(-1, 1), v(2, 1), v(-1, -1), v(2, 2)])
    );
}

#[test]
fn the_square_has_one_kick_per_turn() {
    let p = TetriminoPrimitive::of(TetriminoType::O);
    assert_eq!(
        p.get_wall_kicks(&Rotation::Zero, &Rotation::Right),
        TetriminoWallKicks::O(v(0, -1))
    );
    assert_eq!(
        p.get_wall_kicks(&Rotation::Right, &Rotation::Zero),
        TetriminoWallKicks::O(v(0, 1))
    );
    assert_eq!(
        p.get_wall_kicks(&Rotation::Right, &Rotation::Two),
        TetriminoWallKicks::O(v(1, 0))
    );
    assert_eq!(
        p.get_wall_kicks(&Rotation::Two, &Rotation::Right),
        TetriminoWallKicks::O(v(-1, 0))
    );
    assert_eq!(
        p.get_wall_kicks(&Rotation::Two, &Rotation::Left),
        TetriminoWallKicks::O(v(0, 1))
    );
    assert_eq!(
        p.get_wall_kicks(&Rotation::Left, &Rotation::Two),
        TetriminoWallKicks::O(v(0, -1))
    );
    assert_eq!(
        p.get_wall_kicks(&Rotation::Left, &Rotation::Zero),
        TetriminoWallKicks::O(v(-1, 0))
    );
    assert_eq!(
        p.get_wall_kicks(&Rotation::Zero, &Rotation::Left),
        TetriminoWallKicks::O(v(1, 0))
    );
}

#[test]
fn j_l_s_and_z_share_the_kicks_of_t() {
    let t = TetriminoPrimitive::of(TetriminoType::T);
    let states = [Rotation::Zero, Rotation::Right, Rotation::Two, Rotation::Left];
    for shape in [TetriminoType::J, TetriminoType::L, TetriminoType::S, TetriminoType::Z] {
        let p = TetriminoPrimitive::of(shape);
        for from in states {
            for to in states {
                assert_eq!(p.get_wall_kicks(&from, &to), t.get_wall_kicks(&from, &to));
            }
        }
    }
}

#[test]
fn line_piece_kicks_differ_between_the_two_directions() {
    let p = TetriminoPrimitive::of(TetriminoType::I);
    assert_ne!(
        p.get_wall_kicks(&Rotation::Zero, &Rotation::Right),
        p.get_wall_kicks(&Rotation::Two, &Rotation::Right)
    );
    assert_ne!(
        p.get_wall_kicks(&Rotation::Zero, &Rotation::Right),
        p.get_wall_kicks(&Rotation::Zero, &Rotation::Left)
    );
}

#[test]
fn a_turn_onto_the_same_orientation_has_zero_kicks() {
    for shape in [TetriminoType::T, TetriminoType::I] {
        let p = TetriminoPrimitive::of(shape);
        assert_eq!(
            p.get_wall_kicks(&Rotation::Two, &Rotation::Two),
            TetriminoWallKicks::Other([v(0, 0), v(0, 0), v(0, 0), v(0, 0), v(0, 0)])
        );
    }
}
