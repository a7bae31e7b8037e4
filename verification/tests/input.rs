use tetris_engine::game::GameState;
use tetris_engine::geometry::Vec2;
use tetris_engine::input::{
    command_for_event, command_for_held_key, Command, Key, KeyEvent, DROP_SPEED, TAP_DROP_SPEED,
};
use tetris_engine::piece::TetriminoType;
use tetris_engine::rotation::Rotation;
use tetris_engine::tile::Tile;

fn v(x: i32, y: i32) -> Vec2 {
    Vec2 { x, y }
}

fn game(shape: TetriminoType) -> GameState {
    GameState::with_shape(v(9, 19), shape)
}

#[test]
fn the_drop_intervals() {
    assert_eq!(DROP_SPEED, 0);
    assert_eq!(TAP_DROP_SPEED, 20);
}

#[test]
fn key_events_give_their_commands() {
    assert_eq!(command_for_event(KeyEvent::Pressed(Key::Esc)), Some(Command::Quit));
    assert_eq!(command_for_event(KeyEvent::Pressed(Key::Q)), Some(Command::Quit));
    assert_eq!(command_for_event(KeyEvent::Pressed(Key::Z)), Some(Command::RotateCounterclockwise));
    assert_eq!(command_for_event(KeyEvent::Pressed(Key::X)), Some(Command::RotateClockwise));
    assert_eq!(command_for_event(KeyEvent::Pressed(Key::Up)), Some(Command::RotateClockwise));
    assert_eq!(command_for_event(KeyEvent::Released(Key::Left)), Some(Command::ReleaseLeft));
    assert_eq!(command_for_event(KeyEvent::Released(Key::Right)), Some(Command::ReleaseRight));
    assert_eq!(
        command_for_event(KeyEvent::Released(Key::Space)),
        Some(Command::SetGravityInterval(20))
    );
    assert_eq!(
        command_for_event(KeyEvent::Released(Key::Down)),
        Some(Command::SetGravityInterval(20))
    );
}

#[test]
fn other_key_events_give_no_command() {
    assert_eq!(command_for_event(KeyEvent::Pressed(Key::Left)), None);
    assert_eq!(command_for_event(KeyEvent::Pressed(Key::Right)), None);
    assert_eq!(command_for_event(KeyEvent::Pressed(Key::Space)), None);
    assert_eq!(command_for_event(KeyEvent::Pressed(Key::Down)), None);
    assert_eq!(command_for_event(KeyEvent::Pressed(Key::Other)), None);
    assert_eq!(command_for_event(KeyEvent::Released(Key::Esc)), None);
    assert_eq!(command_for_event(KeyEvent::Released(Key::Q)), None);
    assert_eq!(command_for_event(KeyEvent::Released(Key::Z)), None);
    assert_eq!(command_for_event(KeyEvent::Released(Key::X)), None);
    assert_eq!(command_for_event(KeyEvent::Released(Key::Up)), None);
    assert_eq!(command_for_event(KeyEvent::Released(Key::Other)), None);
}

#[test]
fn held_keys_give_their_commands() {
    assert_eq!(command_for_held_key(Key::Left), Some(Command::MoveLeft));
    assert_eq!(command_for_held_key(Key::Right), Some(Command::MoveRight));
    assert_eq!(command_for_held_key(Key::Space), Some(Command::SetGravityInterval(0)));
    assert_eq!(command_for_held_key(Key::Down), Some(Command::SetGravityInterval(0)));
    for key in [Key::Esc, Key::Q, Key::Z, Key::X, Key::Up, Key::Other] {
        assert_eq!(command_for_held_key(key), None);
    }
}

#[test]
fn quit_asks_to_leave_and_changes_nothing() {
    let mut state = game(TetriminoType::I);
    assert!(state.apply(Command::Quit, 50));
    assert_eq!(state.current_tetrimino.origin, v(4, 0));
    assert_eq!(state.last_input, (0, 0));
    assert_eq!(state.drop_speed, 20);
}

#[test]
fn move_commands_shift_by_one_column() {
    let mut state = game(TetriminoType::I);
    assert!(!state.apply(Command::MoveLeft, 50));
    assert_eq!(state.current_tetrimino.origin, v(3, 0));
    assert_eq!(state.last_input, (50, -1));
    assert!(!state.apply(Command::MoveRight, 51));
    assert_eq!(state.current_tetrimino.origin, v(4, 0));
    assert_eq!(state.last_input, (51, 1));
}

#[test]
fn rotate_commands_turn_the_piece() {
    let mut state = game(TetriminoType::T);
    assert!(!state.apply(Command::RotateClockwise, 1));
    assert_eq!(state.current_tetrimino.rotation, Rotation::Right);
    assert!(!state.apply(Command::RotateCounterclockwise, 1));
    assert!(!state.apply(Command::RotateCounterclockwise, 1));
    assert_eq!(state.current_tetrimino.rotation, Rotation::Left);
}

#[test]
fn letting_a_key_go_lets_the_next_press_through() {
    let mut state = game(TetriminoType::I);
    state.apply(Command::MoveLeft, 50);
    state.apply(Command::MoveLeft, 51);
    assert_eq!(state.current_tetrimino.origin, v(3, 0));
    state.apply(Command::ReleaseLeft, 52);
    assert_eq!(state.last_input, (0, -1));
    state.apply(Command::MoveLeft, 53);
    assert_eq!(state.current_tetrimino.origin, v(2, 0));
    state.apply(Command::ReleaseRight, 54);
    assert_eq!(state.last_input, (0, 1));
}

#[test]
fn the_gravity_interval_command_sets_the_speed() {
    let mut state = game(TetriminoType::I);
    assert!(!state.apply(Command::SetGravityInterval(0), 9));
    assert_eq!(state.drop_speed, 0);
    assert!(!state.apply(Command::SetGravityInterval(20), 9));
    assert_eq!(state.drop_speed, 20);
}

#[test]
fn a_frame_ends_with_gravity_then_clearing() {
    let mut state = game(TetriminoType::I);
    for x in [0, 1, 2, 7, 8, 9] {
        state.tiles.push(Tile::new(v(x, 19)));
    }
    state.current_tetrimino.origin = v(4, 19);
    assert!(!state.advance_with(21, TetriminoType::T));
    assert_eq!(state.score, 1);
    assert!(state.tiles.is_empty());
    assert_eq!(state.current_tetrimino.primitive.tetrimino_type, TetriminoType::T);
    assert_eq!(state.last_update, 21);
}

#[test]
fn a_frame_that_ends_the_game_clears_no_rows() {
    let mut state = game(TetriminoType::T);
    for x in 0..=9 {
        state.tiles.push(Tile::new(v(x, 19)));
    }
    state.tiles.push(Tile::new(v(4, 1)));
    assert!(state.advance_with(21, TetriminoType::I));
    assert!(state.hit_ceiling);
    assert_eq!(state.score, 0);
    assert_eq!(state.tiles.len(), 15);
    assert!(state.advance_with(42, TetriminoType::I));
    assert_eq!(state.score, 0);
}

#[test]
fn advance_draws_the_next_shape_itself() {
    let mut state = game(TetriminoType::I);
    state.current_tetrimino.origin = v(4, 19);
    assert!(!state.advance(21));
    assert_eq!(state.tiles.len(), 4);
    assert_eq!(state.current_tetrimino.origin, v(4, 0));
    assert!(!state.advance(22));
    assert_eq!(state.current_tetrimino.origin, v(4, 0));
}
