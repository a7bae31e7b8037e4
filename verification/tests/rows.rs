use tetris_engine::game::GameState;
use tetris_engine::geometry::Vec2;
use tetris_engine::piece::{Color, TetriminoType};
use tetris_engine::rows::{remove_row, row_is_full};
use tetris_engine::tile::Tile;

fn v(x: i32, y: i32) -> Vec2 {
    Vec2 { x, y }
}

fn block(x: i32, y: i32) -> Tile {
    Tile::new(v(x, y))
}

fn painted(x: i32, y: i32, code: u8) -> Tile {
    Tile { color: Color::Xterm(code), location: v(x, y) }
}

fn full_row(y: i32) -> Vec<Tile> {
    (0..=9).map(|x| block(x, y)).collect()
}

fn cells(tiles: &[Tile]) -> Vec<(i32, i32, Color)> {
    tiles.iter().map(|t| (t.location.x, t.location.y, t.color)).collect()
}

fn game_with(tiles: Vec<Tile>) -> GameState {
    let mut state = GameState::with_shape(v(9, 19), TetriminoType::I);
    state.tiles = tiles;
    state
}

#[test]
fn a_row_is_full_when_every_column_is_taken() {
    let mut tiles = full_row(7);
    assert!(row_is_full(&tiles, 7, 9));
    assert!(!row_is_full(&tiles, 6, 9));
    assert!(row_is_full(&tiles, 7, 4));
    assert!(!row_is_full(&tiles, 7, 10));
    tiles.remove(3);
    assert!(!row_is_full(&tiles, 7, 9));
    tiles.push(block(3, 7));
    assert!(row_is_full(&tiles, 7, 9));
}

#[test]
fn a_row_without_columns_is_full() {
    assert!(row_is_full(&[], 0, -1));
    assert!(!row_is_full(&[], 0, 0));
}

#[test]
fn remove_row_takes_the_row_out_and_lowers_what_was_above() {
    let mut tiles = vec![
        painted(0, 4, 9),
        painted(1, 5, 10),
        painted(2, 6, 11),
        painted(3, 5, 12),
        painted(4, -2, 13),
        painted(5, 19, 14),
    ];
    remove_row(&mut tiles, 5);
    assert_eq!(
        cells(&tiles),
        vec![
            (0, 5, Color::Xterm(9)),
            (2, 6, Color::Xterm(11)),
            (4, -1, Color::Xterm(13)),
            (5, 19, Color::Xterm(14)),
        ]
    );
}

#[test]
fn clearing_one_full_row_scores_one_and_lowers_the_tiles_above() {
    let mut tiles = vec![painted(3, 9, 9), painted(4, 2, 10)];
    tiles.extend(full_row(10));
    tiles.push(painted(0, 15, 11));
    tiles.push(painted(7, 19, 12));
    let mut state = game_with(tiles);
    state.clear_rows();
    assert_eq!(state.score, 1);
    assert_eq!(
        cells(&state.tiles),
        vec![
            (3, 10, Color::Xterm(9)),
            (4, 3, Color::Xterm(10)),
            (0, 15, Color::Xterm(11)),
            (7, 19, Color::Xterm(12)),
        ]
    );
}

#[test]
fn clearing_leaves_an_arena_without_full_rows_alone() {
    let mut tiles = full_row(10);
    tiles.remove(9);
    tiles.push(painted(2, 3, 9));
    let before = cells(&tiles);
    let mut state = game_with(tiles);
    state.score = 41;
    state.clear_rows();
    assert_eq!(state.score, 41);
    assert_eq!(cells(&state.tiles), before);
}

#[test]
fn two_adjacent_full_rows_score_two() {
    let mut tiles = vec![painted(0, 17, 9)];
    tiles.extend(full_row(18));
    tiles.extend(full_row(19));
    let mut state = game_with(tiles);
    state.clear_rows();
    assert_eq!(state.score, 2);
    assert_eq!(cells(&state.tiles), vec![(0, 19, Color::Xterm(9))]);
}

#[test]
fn each_tile_sinks_by_the_full_rows_below_it() {
    let mut tiles = vec![painted(2, 16, 9)];
    tiles.extend(full_row(17));
    tiles.push(painted(1, 18, 10));
    tiles.extend(full_row(19));
    tiles.push(painted(5, -3, 11));
    let mut state = game_with(tiles);
    state.score = 5;
    state.clear_rows();
    assert_eq!(state.score, 7);
    assert_eq!(
        cells(&state.tiles),
        vec![(2, 18, Color::Xterm(9)), (1, 19, Color::Xterm(10)), (5, -1, Color::Xterm(11))]
    );
}

#[test]
fn the_top_and_the_bottom_rows_are_swept_too() {
    let mut tiles = full_row(0);
    tiles.extend(full_row(19));
    tiles.push(painted(6, -1, 9));
    let mut state = game_with(tiles);
    state.clear_rows();
    assert_eq!(state.score, 2);
    assert_eq!(cells(&state.tiles), vec![(6, 1, Color::Xterm(9))]);
}

#[test]
fn rows_outside_the_arena_are_not_swept() {
    let mut tiles = full_row(-1);
    tiles.extend(full_row(20));
    let mut state = game_with(tiles);
    state.clear_rows();
    assert_eq!(state.score, 0);
    assert_eq!(state.tiles.len(), 20);
}

#[test]
fn a_full_row_that_sinks_into_the_arena_waits_for_the_next_sweep() {
    // The row above the arena is not swept. It sinks into row 0 when row 0
    // is cleared, after row 0 has been looked at.
    let mut tiles = full_row(-1);
    tiles.extend(full_row(0));
    tiles.push(painted(2, 1, 9));
    let mut state = game_with(tiles);
    state.clear_rows();
    assert_eq!(state.score, 1);
    assert_eq!(state.tiles.len(), 11);
    assert_eq!(state.tiles.iter().filter(|t| t.location.y == 0).count(), 10);
    state.clear_rows();
    assert_eq!(state.score, 2);
    assert_eq!(cells(&state.tiles), vec![(2, 1, Color::Xterm(9))]);
}

#[test]
fn clearing_touches_nothing_but_tiles_and_score() {
    let mut state = game_with(full_row(19));
    state.current_tetrimino.origin = v(2, 7);
    state.last_update = 11;
    state.last_input = (12, 1);
    state.drop_speed = 13;
    state.clear_rows();
    assert_eq!(state.score, 1);
    assert!(state.tiles.is_empty());
    assert_eq!(state.current_tetrimino.origin, v(2, 7));
    assert_eq!(state.last_update, 11);
    assert_eq!(state.last_input, (12, 1));
    assert_eq!(state.drop_speed, 13);
    assert_eq!(state.dimension, v(9, 19));
    assert!(!state.hit_ceiling);
}

#[test]
fn clearing_keeps_the_tiles_apart() {
    let mut tiles = vec![painted(2, 16, 9), painted(2, 15, 9), painted(3, -1, 9)];
    tiles.extend(full_row(17));
    tiles.push(painted(1, 18, 10));
    tiles.extend(full_row(19));
    let mut state = game_with(tiles);
    state.clear_rows();
    for a in 0..state.tiles.len() {
        for b in (a + 1)..state.tiles.len() {
            assert_ne!(state.tiles[a].location, state.tiles[b].location);
        }
    }
}
