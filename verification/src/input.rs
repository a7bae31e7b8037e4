//! Commands, the keys that give them, and what a command does to the arena.

use crate::game::{Arena, GameState};
use crate::piece::TetriminoType;
use crate::rotation::RotationDirection;
use vstd::prelude::*;

verus! {

/// The gravity interval while the drop key is held.
pub const DROP_SPEED: usize = 0;

/// The gravity interval once the drop key has been let go.
pub const TAP_DROP_SPEED: usize = 20;

/// The keys that the game reads; every other key is `Other`.
#[derive(Clone, Copy, Debug, PartialEq, Eq, Structural)]
pub enum Key {
    Esc,
    Q,
    Z,
    X,
    Up,
    Down,
    Left,
    Right,
    Space,
    Other,
}

/// A key going down or coming up.
#[derive(Clone, Copy, Debug, PartialEq, Eq, Structural)]
pub enum KeyEvent {
    Pressed(Key),
    Released(Key),
}

/// What the player can ask of the arena.
#[derive(Clone, Copy, Debug, PartialEq, Eq, Structural)]
pub enum Command {
    /// Leave the game.
    Quit,
    RotateClockwise,
    RotateCounterclockwise,
    MoveLeft,
    MoveRight,
    /// The left key came up: the next move to the left is taken at once.
    ReleaseLeft,
    /// The right key came up: the next move to the right is taken at once.
    ReleaseRight,
    SetGravityInterval(usize),
}

/// The command that a key event gives, if it gives one.
pub open spec fn spec_command_for_event(event: KeyEvent) -> Option<Command> {
    match event {
        KeyEvent::Pressed(Key::Esc) | KeyEvent::Pressed(Key::Q) => Some(Command::Quit),
        KeyEvent::Pressed(Key::Z) => Some(Command::RotateCounterclockwise),
        KeyEvent::Pressed(Key::X) | KeyEvent::Pressed(Key::Up) => Some(Command::RotateClockwise),
        KeyEvent::Released(Key::Left) => Some(Command::ReleaseLeft),
        KeyEvent::Released(Key::Right) => Some(Command::ReleaseRight),
        KeyEvent::Released(Key::Space) | KeyEvent::Released(Key::Down) => Some(
            Command::SetGravityInterval(TAP_DROP_SPEED),
        ),
        _ => None,
    }
}

/// The command that a key gives in each frame in which it is held down, if
/// it gives one.
pub open spec fn spec_command_for_held_key(key: Key) -> Option<Command> {
    match key {
        Key::Left => Some(Command::MoveLeft),
        Key::Right => Some(Command::MoveRight),
        Key::Space | Key::Down => Some(Command::SetGravityInterval(DROP_SPEED)),
        _ => None,
    }
}

/// The command that a key event gives, if it gives one.
pub fn command_for_event(event: KeyEvent) -> (command: Option<Command>)
    ensures
        command == spec_command_for_event(event),
{
    match event {
        KeyEvent::Pressed(Key::Esc) | KeyEvent::Pressed(Key::Q) => Some(Command::Quit),
        KeyEvent::Pressed(Key::Z) => Some(Command::RotateCounterclockwise),
        KeyEvent::Pressed(Key::X) | KeyEvent::Pressed(Key::Up) => Some(Command::RotateClockwise),
        KeyEvent::Released(Key::Left) => Some(Command::ReleaseLeft),
        KeyEvent::Released(Key::Right) => Some(Command::ReleaseRight),
        KeyEvent::Released(Key::Space) | KeyEvent::Released(Key::Down) => Some(
            Command::SetGravityInterval(TAP_DROP_SPEED),
        ),
        _ => None,
    }
}

/// The command that a key gives while it is held down, if it gives one.
pub fn command_for_held_key(key: Key) -> (command: Option<Command>)
    ensures
        command == spec_command_for_held_key(key),
{
    match key {
        Key::Left => Some(Command::MoveLeft),
        Key::Right => Some(Command::MoveRight),
        Key::Space | Key::Down => Some(Command::SetGravityInterval(DROP_SPEED)),
        _ => None,
    }
}

impl Arena {
    /// The arena after a command given at `frame`.
    pub open spec fn applied(self, command: Command, frame: nat) -> Arena {
        match command {
            Command::Quit => self,
            Command::RotateClockwise => self.turned(RotationDirection::Clockwise),
            Command::RotateCounterclockwise => self.turned(RotationDirection::Counterclockwise),
            Command::MoveLeft => self.shifted(-1i32, frame),
            Command::MoveRight => self.shifted(1i32, frame),
            Command::ReleaseLeft => Arena { last_input: (0, -1), ..self },
            Command::ReleaseRight => Arena { last_input: (0, 1), ..self },
            Command::SetGravityInterval(interval) => self.with_speed(interval as nat),
        }
    }

    /// The arena at the end of a frame in which no command is left to
    /// apply: gravity takes its step, and unless the game is over by then,
    /// the full rows are cleared.
    pub open spec fn advanced(self, frame: nat, next: TetriminoType) -> Arena {
        let ticked = self.tick(frame, next);
        if ticked.hit_ceiling {
            ticked
        } else {
            ticked.rows_cleared()
        }
    }
}

impl GameState {
    /// Applies a command given at `frame`, and says whether it asks to
    /// leave the game.
    pub fn apply(&mut self, command: Command, frame: usize) -> (quit: bool)
        ensures
            final(self)@ == old(self)@.applied(command, frame as nat),
            quit == (command is Quit),
            old(self)@.wf() ==> final(self)@.wf(),
    {
        match command {
            Command::Quit => {
                return true;
            },
            Command::RotateClockwise => {
                self.rotate_tetrimino(RotationDirection::Clockwise);
            },
            Command::RotateCounterclockwise => {
                self.rotate_tetrimino(RotationDirection::Counterclockwise);
            },
            Command::MoveLeft => {
                self.tile_move_x(-1, frame);
            },
            Command::MoveRight => {
                self.tile_move_x(1, frame);
            },
            Command::ReleaseLeft => {
                self.last_input = (0, -1);
            },
            Command::ReleaseRight => {
                self.last_input = (0, 1);
            },
            Command::SetGravityInterval(interval) => {
                self.set_speed(interval);
            },
        }
        false
    }

    /// Ends the frame once its commands are applied, with `next` as the
    /// shape that spawns if the piece in play settles: gravity takes its
    /// step, and unless the game is over by then, the full rows are
    /// cleared. Says whether the game is over.
    pub fn advance_with(&mut self, frame: usize, next: TetriminoType) -> (over: bool)
        requires
            old(self)@.wf(),
            old(self).score + old(self).dimension.y + 1 <= u32::MAX,
        ensures
            final(self)@ == old(self)@.advanced(frame as nat, next),
            over == final(self).hit_ceiling,
            final(self)@.wf(),
    {
        self.update_with(frame, next);
        self.finish_frame()
    }

    /// Ends the frame once its commands are applied. If the piece in play
    /// settles, the shape that spawns is drawn at random.
    pub fn advance(&mut self, frame: usize) -> (over: bool)
        requires
            old(self)@.wf(),
            old(self).score + old(self).dimension.y + 1 <= u32::MAX,
        ensures
            exists|next: TetriminoType|
                final(self)@ == #[trigger] old(self)@.advanced(frame as nat, next),
            over == final(self).hit_ceiling,
            final(self)@.wf(),
    {
        self.update(frame);
        let ghost next = choose|next: TetriminoType|
            self@ == #[trigger] old(self)@.tick(frame as nat, next);
        let over = self.finish_frame();
        assert(self@ == old(self)@.advanced(frame as nat, next));
        over
    }

    /// What follows the step of gravity in a frame: the full rows are
    /// cleared unless the game is over.
    fn finish_frame(&mut self) -> (over: bool)
        requires
            old(self).dimension.y > 0,
            old(self).score + old(self).dimension.y + 1 <= u32::MAX,
        ensures
            final(self)@ == (if old(self).hit_ceiling {
                old(self)@
            } else {
                old(self)@.rows_cleared()
            }),
            over == final(self).hit_ceiling,
    {
        if self.hit_ceiling {
            return true;
        }
        self.clear_rows();
        false
    }
}

} // verus!
