//! The arena: the settled tiles, the piece in play, and the moves of a
//! frame.
//!
//! `GameState` is the stored arena and `Arena` its view. Every operation is
//! stated as a function from the arena before to the arena after.

use crate::geometry::{vec2, Point, Vec2};
use crate::piece::{TetriminoPrimitive, TetriminoType};
use crate::rotation::{Rotation, RotationDirection};
use crate::rows::{
    cleared, collapsed, full_rows, remove_row, row_full, row_is_full, swept, without_row,
};
use crate::tetrimino::Tetrimino;
use crate::tile::{tiles_distinct, Tile};
use vstd::prelude::*;

verus! {

/// The number of frames that must have passed since the last sideways move
/// before another one the same way is taken.
pub const LATERAL_DEBOUNCE: usize = 5;

/// The number of frames between two steps of gravity in a new arena.
pub const INITIAL_DROP_SPEED: usize = 20;

/// The arena as it is stored.
#[derive(Debug)]
pub struct GameState {
    /// The last column and the last row: the columns are `0..=dimension.x`
    /// and the floor lies under row `dimension.y`.
    pub dimension: Vec2,
    /// The settled tiles, in the order in which they settled.
    pub tiles: Vec<Tile>,
    /// The piece in play.
    pub current_tetrimino: Tetrimino,
    /// The number of rows cleared so far.
    pub score: u32,
    /// The frame of the last step of gravity.
    pub last_update: usize,
    /// The frame and the direction of the last sideways move.
    pub last_input: (usize, i32),
    /// The number of frames between two steps of gravity.
    pub drop_speed: usize,
    /// Whether a piece has settled above the top row. Once set it stays set.
    pub hit_ceiling: bool,
}

/// The arena as contracts speak of it.
#[verifier::ext_equal]
pub struct Arena {
    pub dimension: Vec2,
    pub tiles: Seq<Tile>,
    pub piece: Tetrimino,
    pub score: nat,
    pub last_update: nat,
    pub last_input: (nat, int),
    pub drop_speed: nat,
    pub hit_ceiling: bool,
}

impl View for GameState {
    type V = Arena;

    open spec fn view(&self) -> Arena {
        Arena {
            dimension: self.dimension,
            tiles: self.tiles@,
            piece: self.current_tetrimino,
            score: self.score as nat,
            last_update: self.last_update as nat,
            last_input: (self.last_input.0 as nat, self.last_input.1 as int),
            drop_speed: self.drop_speed as nat,
            hit_ceiling: self.hit_ceiling,
        }
    }
}

impl Arena {
    /// An arena with a column and a row beyond the first, and a piece of
    /// the catalog that can be stored where it is.
    pub open spec fn wf(self) -> bool {
        &&& self.dimension.x > 0
        &&& self.dimension.y > 0
        &&& self.piece.wf()
    }

    /// Where pieces spawn: the middle column of the top row.
    pub open spec fn spawn_origin(dimension: Vec2) -> Vec2 {
        vec2(dimension.x / 2, 0)
    }

    /// A piece of the given shape as it spawns.
    pub open spec fn spawned(dimension: Vec2, shape: TetriminoType) -> Tetrimino {
        Tetrimino {
            primitive: TetriminoPrimitive::entry(shape),
            origin: Self::spawn_origin(dimension),
            rotation: Rotation::Zero,
        }
    }

    /// A new arena: nothing has settled, nothing is scored, and a piece of
    /// the given shape has spawned.
    pub open spec fn fresh(dimension: Vec2, shape: TetriminoType) -> Arena {
        Arena {
            dimension,
            tiles: Seq::empty(),
            piece: Self::spawned(dimension, shape),
            score: 0,
            last_update: 0,
            last_input: (0, 0),
            drop_speed: INITIAL_DROP_SPEED as nat,
            hit_ceiling: false,
        }
    }

    /// Whether gravity acts at `frame`: more frames than the gravity
    /// interval have passed since it last did.
    pub open spec fn gravity_due(self, frame: nat) -> bool {
        frame - self.last_update > self.drop_speed
    }

    /// Whether the piece, were it to settle now, would leave a tile above
    /// the top row.
    pub open spec fn piece_above_ceiling(self) -> bool {
        exists|i: int| 0 <= i < 4 && (#[trigger] self.piece.locations()[i]).y < 0
    }

    /// The arena once the piece has settled where it is: its four tiles
    /// join the settled ones, the game is over if one of them is above the
    /// top row, and a piece of shape `next` spawns.
    pub open spec fn locked(self, next: TetriminoType) -> Arena {
        Arena {
            tiles: self.tiles + self.piece.tiles(),
            hit_ceiling: self.hit_ceiling || self.piece_above_ceiling(),
            piece: Self::spawned(self.dimension, next),
            ..self
        }
    }

    /// The arena with the piece one row lower.
    pub open spec fn descended(self) -> Arena {
        Arena {
            piece: self.piece.placed(
                self.piece.origin@.plus(Point { x: 0, y: 1 }),
                self.piece.rotation,
            ),
            ..self
        }
    }

    /// Whether the step of gravity at `frame` makes the piece settle.
    pub open spec fn settles(self, frame: nat) -> bool {
        self.gravity_due(frame) && !self.piece.descent_clear(self.tiles, self.dimension)
    }

    /// The arena after the frame's step of gravity. Where gravity is not
    /// due nothing changes. Where it is, the frame is recorded, and the
    /// piece sinks by one row if neither the stack nor the floor is in the
    /// way; if one is, the piece settles and a piece of shape `next` spawns.
    pub open spec fn tick(self, frame: nat, next: TetriminoType) -> Arena {
        if !self.gravity_due(frame) {
            self
        } else if self.piece.descent_clear(self.tiles, self.dimension) {
            Arena { last_update: frame, ..self.descended() }
        } else {
            Arena { last_update: frame, ..self.locked(next) }
        }
    }

    /// Whether a sideways move is taken at all: more frames than the
    /// debounce threshold have passed since the last one that was, or it
    /// goes the other way.
    pub open spec fn lateral_honored(self, displacement: int, frame: nat) -> bool {
        frame - self.last_input.0 > LATERAL_DEBOUNCE || displacement != self.last_input.1
    }

    /// Whether a sideways move is made: it is taken, and the piece may
    /// stand where it leads.
    pub open spec fn lateral_applies(self, displacement: i32, frame: nat) -> bool {
        &&& self.lateral_honored(displacement as int, frame)
        &&& self.piece.primitive.placement_legal(
            self.piece.origin@.plus(Point { x: displacement as int, y: 0 }),
            self.piece.rotation,
            self.tiles,
            self.dimension,
        )
    }

    /// The arena after a sideways command. A move that is made shifts the
    /// piece by `displacement` columns and is recorded with its frame; one
    /// that is not made changes nothing.
    pub open spec fn shifted(self, displacement: i32, frame: nat) -> Arena {
        if self.lateral_applies(displacement, frame) {
            Arena {
                piece: self.piece.placed(
                    self.piece.origin@.plus(Point { x: displacement as int, y: 0 }),
                    self.piece.rotation,
                ),
                last_input: (frame, displacement as int),
                ..self
            }
        } else {
            self
        }
    }

    /// The arena after a rotation command.
    pub open spec fn turned(self, direction: RotationDirection) -> Arena {
        Arena { piece: self.piece.spec_rotate(direction, self.tiles, self.dimension), ..self }
    }

    /// The arena after the full rows have been cleared: one sweep over the
    /// rows `0..=dimension.y` from the top down, each cleared row scoring
    /// one.
    pub open spec fn rows_cleared(self) -> Arena {
        Arena {
            tiles: swept(self.tiles, self.dimension.x as int, 0, self.dimension.y as int),
            score: self.score + cleared(
                self.tiles,
                self.dimension.x as int,
                0,
                self.dimension.y as int,
            ),
            ..self
        }
    }

    /// The arena with another gravity interval.
    pub open spec fn with_speed(self, speed: nat) -> Arena {
        Arena { drop_speed: speed, ..self }
    }

    /// The arena with a new piece of the given shape in play.
    pub open spec fn respawned(self, shape: TetriminoType) -> Arena {
        Arena { piece: Self::spawned(self.dimension, shape), ..self }
    }
}

/// A piece as it spawns is a piece of the catalog that can be stored.
pub proof fn lemma_spawned_wf(dimension: Vec2, shape: TetriminoType)
    requires
        dimension.x > 0,
    ensures
        Arena::spawned(dimension, shape).wf(),
        Arena::spawned(dimension, shape).primitive.tetrimino_type == shape,
{
    let piece = Arena::spawned(dimension, shape);
    crate::piece::lemma_entry(piece.primitive);
    crate::piece::lemma_layout_facts(shape, Rotation::Zero);
    assert(piece.primitive.offsets(Rotation::Zero) == crate::piece::layout(shape, Rotation::Zero));
}

impl GameState {
    /// A new arena of the given size with a piece of the given shape in
    /// play.
    pub fn with_shape(dimension: Vec2, shape: TetriminoType) -> (state: GameState)
        requires
            dimension.x > 0,
            dimension.y > 0,
        ensures
            state@ == Arena::fresh(dimension, shape),
            state@.wf(),
    {
        proof {
            lemma_spawned_wf(dimension, shape);
        }
        GameState {
            dimension,
            tiles: Vec::new(),
            last_update: 0,
            last_input: (0, 0),
            drop_speed: INITIAL_DROP_SPEED,
            score: 0,
            current_tetrimino: Tetrimino::with_shape(shape, Vec2::x(dimension.x / 2)),
            hit_ceiling: false,
        }
    }

    /// A new arena of the given size with a piece of a shape drawn at
    /// random in play.
    pub fn new(dimension: Vec2) -> (state: GameState)
        requires
            dimension.x > 0,
            dimension.y > 0,
        ensures
            exists|shape: TetriminoType| state@ == #[trigger] Arena::fresh(dimension, shape),
            state@.wf(),
    {
        Self::with_shape(dimension, TetriminoType::random())
    }

    /// Puts a new piece of the given shape in play, in place of the
    /// current one.
    pub fn spawn_shape(&mut self, shape: TetriminoType)
        requires
            old(self).dimension.x > 0,
        ensures
            final(self)@ == old(self)@.respawned(shape),
            final(self).current_tetrimino.wf(),
    {
        proof {
            lemma_spawned_wf(self.dimension, shape);
        }
        self.current_tetrimino = Tetrimino::with_shape(shape, Vec2::x(self.dimension.x / 2));
    }

    /// Puts a new piece of a shape drawn at random in play, in place of the
    /// current one.
    pub fn spawn_tetrimino(&mut self)
        requires
            old(self).dimension.x > 0,
        ensures
            exists|shape: TetriminoType| final(self)@ == #[trigger] old(self)@.respawned(shape),
            final(self).current_tetrimino.wf(),
    {
        self.spawn_shape(TetriminoType::random());
    }

    /// Sets the number of frames between two steps of gravity.
    pub fn set_speed(&mut self, speed: usize)
        ensures
            final(self)@ == old(self)@.with_speed(speed as nat),
    {
        self.drop_speed = speed;
    }

    /// Turns the piece in play if a kick candidate of the turn lets it.
    pub fn rotate_tetrimino(&mut self, rotation_direction: RotationDirection)
        ensures
            final(self)@ == old(self)@.turned(rotation_direction),
            old(self)@.wf() ==> final(self)@.wf(),
            old(self)@.wf() && old(self)@.settled_apart() && final(self)@.piece
                != old(self)@.piece ==> final(self)@.all_apart(),
    {
        proof {
            if self@.wf() && self@.settled_apart() {
                lemma_turn_keeps_apart(self@, rotation_direction);
            }
        }
        let mut piece = self.current_tetrimino;
        piece.rotate(rotation_direction, &self.tiles, &self.dimension);
        self.current_tetrimino = piece;
    }

    /// Moves the piece in play by `displacement` columns, unless the
    /// command repeats the last move too soon or the piece may not stand
    /// there. A command that is dropped changes nothing.
    pub fn tile_move_x(&mut self, displacement: i32, frame: usize)
        ensures
            final(self)@ == old(self)@.shifted(displacement, frame as nat),
            old(self)@.wf() ==> final(self)@.wf(),
            old(self)@.wf() && old(self)@.settled_apart() && final(self)@.piece
                != old(self)@.piece ==> final(self)@.all_apart(),
    {
        proof {
            if self@.wf() && self@.settled_apart() {
                lemma_shift_keeps_apart(self@, displacement, frame as nat);
            }
        }
        if (frame <= self.last_input.0 || frame - self.last_input.0 <= LATERAL_DEBOUNCE)
            && self.last_input.1 == displacement {
            return ;
        }
        let movement = Vec2::x(displacement);
        let mut piece = self.current_tetrimino;
        if piece.translate(movement, self.tiles.as_slice(), &self.dimension) {
            self.current_tetrimino = piece;
            self.last_input = (frame, displacement);
        }
    }

    /// Lets the piece in play settle where it is: its tiles join the
    /// settled ones, and the game is over if one of them is above the top
    /// row.
    fn lock_tetrimino(&mut self)
        requires
            old(self).current_tetrimino.wf(),
        ensures
            final(self).tiles@ == old(self).tiles@ + old(self).current_tetrimino.tiles(),
            final(self).hit_ceiling == (old(self).hit_ceiling
                || old(self)@.piece_above_ceiling()),
            final(self).dimension == old(self).dimension,
            final(self).current_tetrimino == old(self).current_tetrimino,
            final(self).score == old(self).score,
            final(self).last_update == old(self).last_update,
            final(self).last_input == old(self).last_input,
            final(self).drop_speed == old(self).drop_speed,
    {
        let tiles = self.current_tetrimino.get_tiles();
        let mut i: usize = 0;
        while i < 4
            invariant
                i <= 4,
                tiles@ == old(self).current_tetrimino.tiles(),
                self.tiles@ == old(self).tiles@ + tiles@.take(i as int),
                self.hit_ceiling == (old(self).hit_ceiling || exists|k: int|
                    0 <= k < i && (#[trigger] old(self).current_tetrimino.locations()[k]).y < 0),
                self.dimension == old(self).dimension,
                self.current_tetrimino == old(self).current_tetrimino,
                self.score == old(self).score,
                self.last_update == old(self).last_update,
                self.last_input == old(self).last_input,
                self.drop_speed == old(self).drop_speed,
            decreases 4 - i,
        {
            let tile = tiles[i];
            assert(tile.location == old(self).current_tetrimino.locations()[i as int]);
            self.tiles.push(tile);
            assert(tiles@.take(i + 1) =~= tiles@.take(i as int).push(tile));

            if tile.location.y < 0 {
                self.hit_ceiling = true;
            }
            i += 1;
        }
        assert(tiles@.take(4) =~= tiles@);
    }

    /// The frame's step of gravity but for the spawn: where gravity is due
    /// the frame is recorded and the piece sinks or settles. Says whether
    /// the piece settled, so that a new one is wanted.
    fn settle(&mut self, frame: usize) -> (settled: bool)
        requires
            old(self)@.wf(),
        ensures
            settled == old(self)@.settles(frame as nat),
            final(self).dimension == old(self).dimension,
            forall|next: TetriminoType|
                #![trigger old(self)@.tick(frame as nat, next)]
                #![trigger final(self)@.respawned(next)]
                old(self)@.tick(frame as nat, next) == if settled {
                    final(self)@.respawned(next)
                } else {
                    final(self)@
                },
            !settled ==> final(self)@.wf(),
    {
        if frame <= self.last_update || frame - self.last_update <= self.drop_speed {
            return false;
        }
        self.last_update = frame;

        let mut piece = self.current_tetrimino;
        if piece.descend(self.tiles.as_slice(), &self.dimension) {
            self.current_tetrimino = piece;
            return false;
        }
        self.lock_tetrimino();
        true
    }

    /// The frame's step of gravity, with `next` as the shape that spawns
    /// if the piece in play settles.
    pub fn update_with(&mut self, frame: usize, next: TetriminoType)
        requires
            old(self)@.wf(),
        ensures
            final(self)@ == old(self)@.tick(frame as nat, next),
            final(self)@.wf(),
            final(self).hit_ceiling == (old(self).hit_ceiling || (old(self)@.settles(frame as nat)
                && old(self)@.piece_above_ceiling())),
    {
        if self.settle(frame) {
            self.spawn_shape(next);
        }
    }

    /// The frame's step of gravity. If the piece in play settles, the
    /// shape that spawns is drawn at random.
    pub fn update(&mut self, frame: usize)
        requires
            old(self)@.wf(),
        ensures
            exists|next: TetriminoType| final(self)@ == #[trigger] old(self)@.tick(frame as nat, next),
            final(self)@.wf(),
            final(self).hit_ceiling == (old(self).hit_ceiling || (old(self)@.settles(frame as nat)
                && old(self)@.piece_above_ceiling())),
    {
        if self.settle(frame) {
            self.spawn_tetrimino();
        } else {
            assert(self@ == old(self)@.tick(frame as nat, TetriminoType::J));
        }
    }

    /// Clears the full rows: one sweep over the rows from the top down, in
    /// which each full row scores one, loses its tiles and lets every tile
    /// above it sink by one row. The new score must fit the counter, which
    /// it does where there is room for one more point for each row.
    pub fn clear_rows(&mut self)
        requires
            old(self)@.rows_cleared().score <= u32::MAX || old(self).score + old(self).dimension.y
                + 1 <= u32::MAX,
        ensures
            final(self)@ == old(self)@.rows_cleared(),
    {
        proof {
            lemma_clearing_collapses(self@);
        }
        let width = self.dimension.x;
        let height = self.dimension.y;
        if height < 0 {
            return ;
        }
        let mut y: i32 = 0;
        while y <= height
            invariant
                0 <= y <= height,
                width == self.dimension.x,
                height == self.dimension.y,
                old(self).score + cleared(old(self).tiles@, width as int, 0, height as int)
                    <= u32::MAX,
                swept(old(self).tiles@, width as int, 0, height as int) == swept(
                    self.tiles@,
                    width as int,
                    y as int,
                    height as int,
                ),
                old(self).score + cleared(old(self).tiles@, width as int, 0, height as int)
                    == self.score + cleared(self.tiles@, width as int, y as int, height as int),
                self.dimension == old(self).dimension,
                self.current_tetrimino == old(self).current_tetrimino,
                self.last_update == old(self).last_update,
                self.last_input == old(self).last_input,
                self.drop_speed == old(self).drop_speed,
                self.hit_ceiling == old(self).hit_ceiling,
            decreases height - y + 1,
        {
            let ghost before = self.tiles@;
            if row_is_full(self.tiles.as_slice(), y, width) {
                self.score += 1;
                remove_row(&mut self.tiles, y);
            }
            assert(swept(before, width as int, y as int, height as int) == swept(
                self.tiles@,
                width as int,
                y + 1,
                height as int,
            ));
            assert(old(self).score + cleared(old(self).tiles@, width as int, 0, height as int)
                == self.score + cleared(self.tiles@, width as int, y + 1, height as int));
            if y == height {
                return ;
            }
            y += 1;
        }
    }
}

impl Arena {
    /// No two settled tiles are at the same place.
    pub open spec fn settled_apart(self) -> bool {
        tiles_distinct(self.tiles)
    }

    /// The piece in play stands where it may: none of its tiles lies in a
    /// settled tile, below the floor or beyond a wall.
    pub open spec fn piece_clear(self) -> bool {
        self.piece.stands_clear(self.tiles, self.dimension)
    }

    /// No two tiles of the arena, settled or of the piece in play, are at
    /// the same place.
    pub open spec fn all_apart(self) -> bool {
        tiles_distinct(self.piece.tiles() + self.tiles)
    }
}

/// The four tiles of a piece are its origin plus the offsets that its shape
/// has in its orientation, painted in the colour of the shape.
pub proof fn lemma_tiles_from_origin(piece: Tetrimino, i: int)
    requires
        piece.wf(),
        0 <= i < 4,
    ensures
        piece.tiles().len() == 4,
        piece.tiles()[i].location@ == piece.origin@.plus(
            crate::piece::layout(piece.primitive.tetrimino_type, piece.rotation)[i]@,
        ),
        piece.tiles()[i].color == crate::piece::shape_color(piece.primitive.tetrimino_type),
{
    assert(piece.primitive.offsets(piece.rotation) == crate::piece::layout(
        piece.primitive.tetrimino_type,
        piece.rotation,
    ));
    assert(piece.primitive.tile_point(piece.origin@, piece.rotation, i).fits());
}

/// After a sideways move that is made, no two tiles of the arena are at
/// the same place, provided that no two settled tiles were. A move that is
/// not made leaves the arena as it was.
pub proof fn lemma_shift_keeps_apart(arena: Arena, displacement: i32, frame: nat)
    requires
        arena.wf(),
        arena.settled_apart(),
    ensures
        arena.shifted(displacement, frame).wf(),
        arena.shifted(displacement, frame).settled_apart(),
        arena.lateral_applies(displacement, frame) ==> arena.shifted(
            displacement,
            frame,
        ).piece_clear() && arena.shifted(displacement, frame).all_apart(),
        !arena.lateral_applies(displacement, frame) ==> arena.shifted(displacement, frame)
            == arena,
{
    if arena.lateral_applies(displacement, frame) {
        let after = arena.shifted(displacement, frame);
        crate::tetrimino::lemma_no_overlap(after.piece, after.tiles, after.dimension);
    }
}

/// After a turn that is accepted, no two tiles of the arena are at the
/// same place, provided that no two settled tiles were. A turn that is
/// refused leaves the arena as it was.
pub proof fn lemma_turn_keeps_apart(arena: Arena, direction: RotationDirection)
    requires
        arena.wf(),
        arena.settled_apart(),
    ensures
        arena.turned(direction).wf(),
        arena.turned(direction).settled_apart(),
        arena.piece.rotation_accepted(direction, arena.tiles, arena.dimension) ==> arena.turned(
            direction,
        ).piece_clear() && arena.turned(direction).all_apart(),
        !arena.piece.rotation_accepted(direction, arena.tiles, arena.dimension) ==> arena.turned(
            direction,
        ) == arena,
{
    crate::tetrimino::lemma_rotate_lands_clear(
        arena.piece,
        direction,
        arena.tiles,
        arena.dimension,
    );
    if arena.piece.rotation_accepted(direction, arena.tiles, arena.dimension) {
        let after = arena.turned(direction);
        crate::tetrimino::lemma_no_overlap(after.piece, after.tiles, after.dimension);
    }
}

/// Gravity keeps the tiles apart. A piece that stood where it might and
/// sinks by a row stands where it may again; and where it settles instead,
/// no two settled tiles are at the same place afterwards, provided that
/// none were before.
pub proof fn lemma_tick_keeps_apart(arena: Arena, frame: nat, next: TetriminoType)
    requires
        arena.wf(),
        arena.settled_apart(),
        arena.piece_clear(),
    ensures
        arena.tick(frame, next).wf(),
        arena.tick(frame, next).settled_apart(),
        !arena.settles(frame) ==> arena.tick(frame, next).piece_clear() && arena.tick(
            frame,
            next,
        ).all_apart(),
{
    let after = arena.tick(frame, next);
    lemma_spawned_wf(arena.dimension, next);
    crate::tetrimino::lemma_no_overlap(arena.piece, arena.tiles, arena.dimension);
    if arena.settles(frame) {
        let joined = arena.tiles + arena.piece.tiles();
        let before = arena.piece.tiles() + arena.tiles;
        assert forall|i: int, j: int| 0 <= i < j < joined.len() implies (#[trigger] joined[i]).location
            != (#[trigger] joined[j]).location by {
            let n = arena.tiles.len() as int;
            let a = if i < n {
                i + 4
            } else {
                i - n
            };
            let b = if j < n {
                j + 4
            } else {
                j - n
            };
            assert(before[a] == joined[i]);
            assert(before[b] == joined[j]);
            if a < b {
                assert(before[a].location != before[b].location);
            } else {
                assert(before[b].location != before[a].location);
            }
        }
    } else if arena.gravity_due(frame) {
        let lower = arena.piece.origin@.plus(Point { x: 0, y: 1 });
        let shape = arena.piece.primitive.tetrimino_type;
        crate::piece::lemma_layout_facts(shape, arena.piece.rotation);
        assert(arena.piece.primitive.offsets(arena.piece.rotation) == crate::piece::layout(
            shape,
            arena.piece.rotation,
        ));
        let resting = choose|i: int|
            0 <= i < 4 && crate::piece::layout(shape, arena.piece.rotation)[i] == vec2(0, 0);
        assert(!crate::tile::hits_stack(
            arena.piece.primitive.tile_point(lower, arena.piece.rotation, resting),
            arena.tiles,
            arena.dimension,
        ));
        assert forall|i: int| 0 <= i < 4 implies (#[trigger] arena.piece.primitive.tile_point(
            lower,
            arena.piece.rotation,
            i,
        )).fits() && crate::tile::classify(
            arena.piece.primitive.tile_point(lower, arena.piece.rotation, i),
            arena.tiles,
            arena.dimension,
        ) is CanMove by {
            let here = arena.piece.primitive.tile_point(arena.piece.origin@, arena.piece.rotation, i);
            assert(here.fits());
            assert(crate::tile::classify(here, arena.tiles, arena.dimension) is CanMove);
            assert(!crate::tile::hits_stack(
                arena.piece.primitive.tile_point(lower, arena.piece.rotation, i),
                arena.tiles,
                arena.dimension,
            ));
        }
        crate::tetrimino::lemma_no_overlap(after.piece, after.tiles, after.dimension);
    }
}

/// Clearing the full rows keeps the settled tiles apart.
pub proof fn lemma_clearing_keeps_apart(arena: Arena)
    requires
        arena.settled_apart(),
    ensures
        arena.rows_cleared().settled_apart(),
{
    crate::rows::lemma_swept_distinct(
        arena.tiles,
        arena.dimension.x as int,
        0,
        arena.dimension.y as int,
    );
}

/// A piece that settles with a tile above the top row ends the game at the
/// tick in which it settles.
pub proof fn lemma_settling_above_ceiling(arena: Arena, frame: nat, next: TetriminoType)
    requires
        arena.settles(frame),
        arena.piece_above_ceiling(),
    ensures
        arena.tick(frame, next).hit_ceiling,
{
}

/// The game stays over once it is: no step of gravity, move, turn, change
/// of the gravity interval or clearing of rows takes the flag back. And
/// gravity sets it only when a piece settles with a tile above the top row.
pub proof fn lemma_game_over_is_sticky(
    arena: Arena,
    frame: nat,
    next: TetriminoType,
    displacement: i32,
    direction: RotationDirection,
    speed: nat,
)
    ensures
        arena.hit_ceiling ==> arena.tick(frame, next).hit_ceiling,
        arena.tick(frame, next).hit_ceiling == (arena.hit_ceiling || (arena.settles(frame)
            && arena.piece_above_ceiling())),
        arena.shifted(displacement, frame).hit_ceiling == arena.hit_ceiling,
        arena.turned(direction).hit_ceiling == arena.hit_ceiling,
        arena.with_speed(speed).hit_ceiling == arena.hit_ceiling,
        arena.rows_cleared().hit_ceiling == arena.hit_ceiling,
{
}

/// Where row `y` of the arena is full and no other row is, clearing the
/// rows takes out that row and no other: its tiles are gone, every tile
/// above it is one row lower, every tile below it is where it was, and the
/// score is one higher.
pub proof fn lemma_clearing_single_row(arena: Arena, y: int)
    requires
        0 <= y <= arena.dimension.y,
        row_full(arena.tiles, y, arena.dimension.x as int),
        forall|r: int|
            0 <= r <= arena.dimension.y && r != y ==> !row_full(
                arena.tiles,
                r,
                arena.dimension.x as int,
            ),
    ensures
        arena.rows_cleared().tiles == without_row(arena.tiles, y),
        arena.rows_cleared().score == arena.score + 1,
{
    crate::rows::lemma_single_full_row(
        arena.tiles,
        arena.dimension.x as int,
        0,
        arena.dimension.y as int,
        y,
    );
}

/// What clearing the rows comes to: the rows of the arena that are full
/// are taken out, each scoring one, and every other tile sinks by the
/// number of full rows that lay below it. At most every row scores.
pub proof fn lemma_clearing_collapses(arena: Arena)
    ensures
        arena.rows_cleared().tiles == collapsed(
            arena.tiles,
            arena.tiles,
            arena.dimension.x as int,
            0,
            arena.dimension.y as int,
        ),
        arena.rows_cleared().score == arena.score + full_rows(
            arena.tiles,
            arena.dimension.x as int,
            0,
            arena.dimension.y as int,
        ),
        arena.dimension.y >= 0 ==> arena.rows_cleared().score <= arena.score + arena.dimension.y
            + 1,
        arena.dimension.y < 0 ==> arena.rows_cleared() == arena,
{
    crate::rows::lemma_swept_collapses(
        arena.tiles,
        arena.dimension.x as int,
        0,
        arena.dimension.y as int,
    );
    crate::rows::lemma_cleared_counts_full_rows(
        arena.tiles,
        arena.dimension.x as int,
        0,
        arena.dimension.y as int,
    );
}

} // verus!
