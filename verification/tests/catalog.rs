use tetris_engine::geometry::Vec2;
use tetris_engine::piece::{rotate_right, Color, TetriminoPrimitive, TetriminoType, SHAPE_COUNT};
use tetris_engine::rotation::Rotation;
use tetris_engine::tile::Tile;

fn v(x: i32, y: i32) -> Vec2 {
    Vec2 { x, y }
}

fn all_shapes() -> [TetriminoType; 7] {
    [
        TetriminoType::J,
        TetriminoType::L,
        TetriminoType::S,
        TetriminoType::T,
        TetriminoType::Z,
        TetriminoType::I,
        TetriminoType::O,
    ]
}

#[test]
fn shapes_are_numbered_j_l_s_t_z_i_o() {
    assert_eq!(SHAPE_COUNT, 7);
    assert_eq!(TetriminoType::from_index(0), TetriminoType::J);
    assert_eq!(TetriminoType::from_index(1), TetriminoType::L);
    assert_eq!(TetriminoType::from_index(2), TetriminoType::S);
    assert_eq!(TetriminoType::from_index(3), TetriminoType::T);
    assert_eq!(TetriminoType::from_index(4), TetriminoType::Z);
    assert_eq!(TetriminoType::from_index(5), TetriminoType::I);
    assert_eq!(TetriminoType::from_index(6), TetriminoType::O);
}

#[test]
fn any_other_number_is_the_square() {
    assert_eq!(TetriminoType::from_index(7), TetriminoType::O);
    assert_eq!(TetriminoType::from_index(-1), TetriminoType::O);
    assert_eq!(TetriminoType::from_index(i32::MAX), TetriminoType::O);
}

#[test]
fn spawn_layouts_are_the_catalogs() {
    assert_eq!(TetriminoPrimitive::of(TetriminoType::J).zero, [v(-1, -1), v(-1, 0), v(0, 0), v(1, 0)]);
    assert_eq!(TetriminoPrimitive::of(TetriminoType::L).zero, [v(1, -1), v(-1, 0), v(0, 0), v(1, 0)]);
    assert_eq!(TetriminoPrimitive::of(TetriminoType::S).zero, [v(1, -1), v(0, -1), v(0, 0), v(-1, 0)]);
    assert_eq!(TetriminoPrimitive::of(TetriminoType::T).zero, [v(-1, 0), v(0, -1), v(0, 0), v(1, 0)]);
    assert_eq!(TetriminoPrimitive::of(TetriminoType::Z).zero, [v(1, 0), v(0, -1), v(0, 0), v(-1, -1)]);
    assert_eq!(TetriminoPrimitive::of(TetriminoType::I).zero, [v(-1, 0), v(0, 0), v(1, 0), v(2, 0)]);
    assert_eq!(TetriminoPrimitive::of(TetriminoType::O).zero, [v(1, -1), v(0, -1), v(0, 0), v(1, 0)]);
}

#[test]
fn colours_run_from_nine_to_fifteen() {
    let expected = [9u8, 10, 11, 12, 13, 14, 15];
    for (shape, code) in all_shapes().iter().zip(expected.iter()) {
        let primitive = TetriminoPrimitive::of(*shape);
        assert_eq!(primitive.color, Color::Xterm(*code));
        assert_eq!(primitive.tetrimino_type, *shape);
    }
}

#[test]
fn rotate_right_maps_x_y_to_minus_y_x() {
    assert_eq!(
        rotate_right([v(1, 0), v(0, 1), v(-1, 0), v(3, -2)]),
        [v(0, 1), v(-1, 0), v(0, -1), v(2, 3)]
    );
}

#[test]
fn orientations_of_the_t_piece() {
    let t = TetriminoPrimitive::of(TetriminoType::T);
    assert_eq!(t.right, [v(0, -1), v(1, 0), v(0, 0), v(0, 1)]);
    assert_eq!(t.two, [v(1, 0), v(0, 1), v(0, 0), v(-1, 0)]);
    assert_eq!(t.left, [v(0, 1), v(-1, 0), v(0, 0), v(0, -1)]);
}

#[test]
fn orientations_of_the_line_piece() {
    let i = TetriminoPrimitive::of(TetriminoType::I);
    assert_eq!(i.right, [v(0, -1), v(0, 0), v(0, 1), v(0, 2)]);
    assert_eq!(i.two, [v(1, 0), v(0, 0), v(-1, 0), v(-2, 0)]);
    assert_eq!(i.left, [v(0, 1), v(0, 0), v(0, -1), v(0, -2)]);
}

#[test]
fn every_orientation_is_the_one_before_turned_right() {
    for shape in all_shapes() {
        let p = TetriminoPrimitive::of(shape);
        assert_eq!(p.right, rotate_right(p.zero));
        assert_eq!(p.two, rotate_right(p.right));
        assert_eq!(p.left, rotate_right(p.two));
        assert_eq!(p.zero, rotate_right(p.left));
    }
}

#[test]
fn new_derives_the_orientations_from_the_spawn_layout() {
    let zero = [v(0, 0), v(1, 0), v(2, 0), v(2, 1)];
    let p = TetriminoPrimitive::new(TetriminoType::L, Color::Xterm(200), zero);
    assert_eq!(p.tetrimino_type, TetriminoType::L);
    assert_eq!(p.color, Color::Xterm(200));
    assert_eq!(p.zero, zero);
    assert_eq!(p.right, [v(0, 0), v(0, 1), v(0, 2), v(-1, 2)]);
    assert_eq!(p.two, [v(0, 0), v(-1, 0), v(-2, 0), v(-2, -1)]);
    assert_eq!(p.left, [v(0, 0), v(0, -1), v(0, -2), v(1, -2)]);
}

#[test]
fn get_positions_picks_the_orientation() {
    for shape in all_shapes() {
        let p = TetriminoPrimitive::of(shape);
        assert_eq!(p.get_positions(&Rotation::Zero), p.zero);
        assert_eq!(p.get_positions(&Rotation::Right), p.right);
        assert_eq!(p.get_positions(&Rotation::Two), p.two);
        assert_eq!(p.get_positions(&Rotation::Left), p.left);
    }
}

#[test]
fn every_layout_holds_the_origin_and_four_different_cells_nearby() {
    for shape in all_shapes() {
        let p = TetriminoPrimitive::of(shape);
        for r in [Rotation::Zero, Rotation::Right, Rotation::Two, Rotation::Left] {
            let cells = p.get_positions(&r);
            assert!(cells.contains(&v(0, 0)));
            for a in 0..4 {
                assert!(cells[a].x.abs() <= 2 && cells[a].y.abs() <= 2);
                for b in (a + 1)..4 {
                    assert_ne!(cells[a], cells[b]);
                }
            }
        }
    }
}

#[test]
fn random_primitives_are_catalog_entries_and_vary() {
    let mut seen = [false; 7];
    for _ in 0..2000 {
        let p = TetriminoPrimitive::get_random_primative();
        let entry = TetriminoPrimitive::of(p.tetrimino_type);
        assert_eq!(p.color, entry.color);
        assert_eq!(p.zero, entry.zero);
        assert_eq!(p.right, entry.right);
        assert_eq!(p.two, entry.two);
        assert_eq!(p.left, entry.left);
        let index = all_shapes().iter().position(|s| *s == p.tetrimino_type).unwrap();
        seen[index] = true;
    }
    assert!(seen.iter().all(|s| *s));
}

#[test]
fn random_shapes_cover_all_seven() {
    let mut seen = [false; 7];
    for _ in 0..2000 {
        let shape = TetriminoType::random();
        let index = all_shapes().iter().position(|s| *s == shape).unwrap();
        seen[index] = true;
    }
    assert!(seen.iter().all(|s| *s));
}

#[test]
fn a_new_tile_is_painted_in_colour_eight() {
    let tile = Tile::new(v(3, 4));
    assert_eq!(tile.color, Color::Xterm(8));
    assert_eq!(tile.location, v(3, 4));
}

#[test]
fn tiles_compare_by_place_alone() {
    let a = Tile { color: Color::Xterm(9), location: v(1, 2) };
    let b = Tile { color: Color::Xterm(14), location: v(1, 2) };
    let c = Tile { color: Color::Xterm(9), location: v(2, 1) };
    assert!(a == b);
    assert!(a != c);
}
