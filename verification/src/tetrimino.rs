//! The active piece: where it is, how it is turned, and the moves that the
//! stack, the floor and the walls allow it.

use crate::geometry::{Point, Vec2};
use crate::piece::{kick_candidates, TetriminoPrimitive, TetriminoType, TetriminoWallKicks};
use crate::rotation::{Rotation, RotationDirection};
use crate::tile::{check_tile, classify, hits_stack, verdict, MovementCheck, Tile};
use vstd::prelude::*;

verus! {

/// A piece in play. Its four tiles are not stored: they are the origin plus
/// the offsets that the shape has in the current orientation.
#[derive(Clone, Copy, Debug)]
pub struct Tetrimino {
    pub primitive: TetriminoPrimitive,
    pub origin: Vec2,
    pub rotation: Rotation,
}

impl TetriminoPrimitive {
    /// The place of the `i`-th tile of this shape, were a piece of it at
    /// `origin` in orientation `rotation`.
    pub open spec fn tile_point(self, origin: Point, rotation: Rotation, i: int) -> Point {
        origin.plus(self.offsets(rotation)[i]@)
    }

    /// Whether the origin and the four tiles of a placement can be stored.
    pub open spec fn placement_fits(self, origin: Point, rotation: Rotation) -> bool {
        &&& origin.fits()
        &&& forall|i: int| 0 <= i < 4 ==> (#[trigger] self.tile_point(origin, rotation, i)).fits()
    }

    /// Whether a piece of this shape may stand at `origin` in orientation
    /// `rotation`: the placement can be stored, and none of its four tiles
    /// lies in a settled tile, below the floor or beyond a wall.
    pub open spec fn placement_legal(
        self,
        origin: Point,
        rotation: Rotation,
        blocking: Seq<Tile>,
        dimensions: Vec2,
    ) -> bool {
        &&& self.placement_fits(origin, rotation)
        &&& forall|i: int|
            0 <= i < 4 ==> classify(
                #[trigger] self.tile_point(origin, rotation, i),
                blocking,
                dimensions,
            ) is CanMove
    }

    /// Whether a piece of this shape at `origin` in orientation `rotation`
    /// may sink by one row: none of its four tiles, one row lower, lies in a
    /// settled tile or below the floor. The walls are not asked.
    pub open spec fn descent_clear(
        self,
        origin: Point,
        rotation: Rotation,
        blocking: Seq<Tile>,
        dimensions: Vec2,
    ) -> bool {
        forall|i: int|
            0 <= i < 4 ==> !hits_stack(
                #[trigger] self.tile_point(origin.plus(Point { x: 0, y: 1 }), rotation, i),
                blocking,
                dimensions,
            )
    }
}

impl Tetrimino {
    /// Whether the piece may sink by one row.
    pub open spec fn descent_clear(self, blocking: Seq<Tile>, dimensions: Vec2) -> bool {
        self.primitive.descent_clear(self.origin@, self.rotation, blocking, dimensions)
    }

    /// A piece of the catalog whose origin and tiles can be stored.
    pub open spec fn wf(self) -> bool {
        &&& self.primitive.wf()
        &&& self.primitive.placement_fits(self.origin@, self.rotation)
    }

    /// The places of the four tiles.
    pub open spec fn locations(self) -> Seq<Vec2> {
        Seq::new(4, |i: int| self.primitive.tile_point(self.origin@, self.rotation, i).stored())
    }

    /// The four tiles, in the colour of the shape.
    pub open spec fn tiles(self) -> Seq<Tile> {
        Seq::new(4, |i: int| Tile { color: self.primitive.color, location: self.locations()[i] })
    }

    /// The same piece at another origin and in another orientation.
    pub open spec fn placed(self, origin: Point, rotation: Rotation) -> Tetrimino {
        Tetrimino { primitive: self.primitive, origin: origin.stored(), rotation }
    }

    /// What `translate` makes of the piece: moved by `translation` where
    /// that placement is legal, and untouched where it is not.
    pub open spec fn spec_translate(self, translation: Vec2, blocking: Seq<Tile>, dimensions: Vec2)
        -> Tetrimino {
        let target = self.origin@.plus(translation@);
        if self.primitive.placement_legal(target, self.rotation, blocking, dimensions) {
            self.placed(target, self.rotation)
        } else {
            self
        }
    }

    /// Whether the piece may enter orientation `target` with its origin
    /// moved by `kick`.
    pub open spec fn kick_legal(
        self,
        kick: Vec2,
        target: Rotation,
        blocking: Seq<Tile>,
        dimensions: Vec2,
    ) -> bool {
        self.primitive.placement_legal(self.origin@.plus(kick@), target, blocking, dimensions)
    }

    /// The index of the first legal kick among `kicks[from..]`, or the
    /// length of `kicks` where none of them is legal.
    pub open spec fn first_legal_kick(
        self,
        kicks: Seq<Vec2>,
        from: int,
        target: Rotation,
        blocking: Seq<Tile>,
        dimensions: Vec2,
    ) -> int
        decreases kicks.len() - from,
    {
        if from < 0 || from >= kicks.len() {
            kicks.len() as int
        } else if self.kick_legal(kicks[from], target, blocking, dimensions) {
            from
        } else {
            self.first_legal_kick(kicks, from + 1, target, blocking, dimensions)
        }
    }

    /// What `rotate` makes of the piece: with the candidates of the turn
    /// tried in table order, the piece enters the target orientation with
    /// its origin moved by the first legal one; where none is legal, it
    /// stays as it is.
    pub open spec fn spec_rotate(
        self,
        direction: RotationDirection,
        blocking: Seq<Tile>,
        dimensions: Vec2,
    ) -> Tetrimino {
        let target = self.rotation.spec_turned(direction);
        let kicks = kick_candidates(self.primitive.tetrimino_type, self.rotation, target);
        let chosen = self.first_legal_kick(kicks, 0, target, blocking, dimensions);
        if chosen < kicks.len() {
            self.placed(self.origin@.plus(kicks[chosen]@), target)
        } else {
            self
        }
    }

    /// Whether `rotate` turns the piece, that is, whether a candidate of
    /// the turn is legal.
    pub open spec fn rotation_accepted(
        self,
        direction: RotationDirection,
        blocking: Seq<Tile>,
        dimensions: Vec2,
    ) -> bool {
        let target = self.rotation.spec_turned(direction);
        let kicks = kick_candidates(self.primitive.tetrimino_type, self.rotation, target);
        self.first_legal_kick(kicks, 0, target, blocking, dimensions) < kicks.len()
    }

    /// A piece of the given shape at `origin`, in the spawn orientation.
    pub fn with_shape(shape: TetriminoType, origin: Vec2) -> (piece: Self)
        ensures
            piece == (Tetrimino {
                primitive: TetriminoPrimitive::entry(shape),
                origin,
                rotation: Rotation::Zero,
            }),
            piece.primitive.wf(),
            piece.primitive.tetrimino_type == shape,
    {
        Self { primitive: TetriminoPrimitive::of(shape), origin, rotation: Rotation::Zero }
    }

    /// A piece of a shape drawn at random at `origin`, in the spawn
    /// orientation.
    pub fn new(origin: Vec2) -> (piece: Self)
        ensures
            piece.primitive.wf(),
            piece.origin == origin,
            piece.rotation == Rotation::Zero,
    {
        let primitive = TetriminoPrimitive::get_random_primative();

        Self { primitive, origin, rotation: Rotation::Zero }
    }

    /// The places of the four tiles, were the piece at `origin` in
    /// orientation `rotation`; `None` where one of them cannot be stored.
    pub fn get_locations(&self, origin: Vec2, rotation: &Rotation) -> (locations: Option<[Vec2; 4]>)
        ensures
            locations is Some <==> self.primitive.placement_fits(origin@, *rotation),
            locations is Some ==> forall|i: int|
                #![trigger locations->0[i]]
                #![trigger self.primitive.tile_point(origin@, *rotation, i)]
                0 <= i < 4 ==> locations->0[i]@ == self.primitive.tile_point(origin@, *rotation, i),
    {
        let relative_locations = self.primitive.get_positions(rotation);
        let l0 = origin.checked_plus(relative_locations[0]);
        let l1 = origin.checked_plus(relative_locations[1]);
        let l2 = origin.checked_plus(relative_locations[2]);
        let l3 = origin.checked_plus(relative_locations[3]);
        match (l0, l1, l2, l3) {
            (Some(a), Some(b), Some(c), Some(d)) => Some([a, b, c, d]),
            _ => {
                let ghost unfit = if l0 is None {
                    0
                } else if l1 is None {
                    1
                } else if l2 is None {
                    2
                } else {
                    3int
                };
                assert(!self.primitive.tile_point(origin@, *rotation, unfit).fits());
                None
            },
        }
    }

    /// The four tiles of the piece where it stands.
    pub fn get_tiles(&self) -> (tiles: [Tile; 4])
        requires
            self.primitive.placement_fits(self.origin@, self.rotation),
        ensures
            tiles@ == self.tiles(),
    {
        let relative_positions = self.primitive.get_positions(&self.rotation);
        assert(self.primitive.tile_point(self.origin@, self.rotation, 0).fits());
        assert(self.primitive.tile_point(self.origin@, self.rotation, 1).fits());
        assert(self.primitive.tile_point(self.origin@, self.rotation, 2).fits());
        assert(self.primitive.tile_point(self.origin@, self.rotation, 3).fits());
        let tiles = [
            Tile { color: self.primitive.color, location: relative_positions[0].plus(self.origin) },
            Tile { color: self.primitive.color, location: relative_positions[1].plus(self.origin) },
            Tile { color: self.primitive.color, location: relative_positions[2].plus(self.origin) },
            Tile { color: self.primitive.color, location: relative_positions[3].plus(self.origin) },
        ];
        assert(tiles@ =~= self.tiles());
        tiles
    }

    /// What stands in the way of four tiles: the obstacle of the first of
    /// them that has one.
    pub fn can_move(
        &self,
        new_locations: [Vec2; 4],
        blocking_tiles: &[Tile],
        arena_dimensions: &Vec2,
    ) -> (check: MovementCheck)
        ensures
            check == verdict(new_locations@, blocking_tiles@, *arena_dimensions),
            check is CanMove <==> forall|i: int|
                0 <= i < 4 ==> classify(
                    (#[trigger] new_locations[i])@,
                    blocking_tiles@,
                    *arena_dimensions,
                ) is CanMove,
    {
        proof {
            crate::tile::lemma_verdict_can_move(new_locations@, blocking_tiles@, *arena_dimensions);
            assert(new_locations@.subrange(0, 4) =~= new_locations@);
        }
        let mut i: usize = 0;
        while i < 4
            invariant
                i <= 4,
                verdict(new_locations@, blocking_tiles@, *arena_dimensions) == verdict(
                    new_locations@.subrange(i as int, 4),
                    blocking_tiles@,
                    *arena_dimensions,
                ),
            decreases 4 - i,
        {
            let ghost rest = new_locations@.subrange(i as int, 4);
            assert(rest[0] == new_locations@[i as int]);
            assert(rest.drop_first() =~= new_locations@.subrange(i + 1, 4));
            match check_tile(new_locations[i], blocking_tiles, arena_dimensions) {
                MovementCheck::CanMove => {},
                MovementCheck::TouchingWall => {
                    return MovementCheck::TouchingWall;
                },
                MovementCheck::TouchingStack => {
                    return MovementCheck::TouchingStack;
                },
            }
            i += 1;
        }
        MovementCheck::CanMove
    }

    /// Moves the piece by `translation` if it may stand there, and says
    /// whether it did. A move that is not legal changes nothing.
    pub fn translate(
        &mut self,
        translation: Vec2,
        blocking_tiles: &[Tile],
        arena_dimensions: &Vec2,
    ) -> (moved: bool)
        ensures
            moved == old(self).primitive.placement_legal(
                old(self).origin@.plus(translation@),
                old(self).rotation,
                blocking_tiles@,
                *arena_dimensions,
            ),
            *final(self) == old(self).spec_translate(
                translation,
                blocking_tiles@,
                *arena_dimensions,
            ),
            moved ==> final(self).origin@ == old(self).origin@.plus(translation@),
            moved ==> final(self).stands_clear(blocking_tiles@, *arena_dimensions),
            old(self).wf() ==> final(self).wf(),
    {
        match self.origin.checked_plus(translation) {
            None => false,
            Some(target) => match self.get_locations(target, &self.rotation) {
                None => false,
                Some(new_locations) => match self.can_move(
                    new_locations,
                    blocking_tiles,
                    arena_dimensions,
                ) {
                    MovementCheck::CanMove => {
                        self.origin = target;
                        true
                    },
                    MovementCheck::TouchingWall => false,
                    MovementCheck::TouchingStack => false,
                },
            },
        }
    }

    /// Lets the piece sink by one row if neither the stack nor the floor is
    /// in the way, and says whether it sank.
    pub fn descend(&mut self, blocking_tiles: &[Tile], arena_dimensions: &Vec2) -> (fell: bool)
        requires
            old(self).wf(),
        ensures
            fell == old(self).descent_clear(blocking_tiles@, *arena_dimensions),
            fell ==> *final(self) == old(self).placed(
                old(self).origin@.plus(Point { x: 0, y: 1 }),
                old(self).rotation,
            ),
            fell ==> final(self).origin@ == old(self).origin@.plus(Point { x: 0, y: 1 }),
            !fell ==> *final(self) == *old(self),
            final(self).wf(),
    {
        proof {
            crate::piece::lemma_layout_facts(self.primitive.tetrimino_type, self.rotation);
        }
        let ghost lower = self.origin@.plus(Point { x: 0, y: 1 });
        let ghost shape = self.primitive.tetrimino_type;
        assert(self.primitive.offsets(self.rotation) == crate::piece::layout(shape, self.rotation));
        let ghost resting = choose|i: int|
            0 <= i < 4 && crate::piece::layout(shape, self.rotation)[i] == crate::geometry::vec2(
                0,
                0,
            );
        assert(self.primitive.tile_point(self.origin@, self.rotation, resting).fits());
        match self.origin.checked_plus(Vec2::y(1)) {
            None => {
                assert(hits_stack(
                    self.primitive.tile_point(lower, self.rotation, resting),
                    blocking_tiles@,
                    *arena_dimensions,
                ));
                false
            },
            Some(target) => match self.get_locations(target, &self.rotation) {
                None => {
                    let ghost k = choose|k: int|
                        0 <= k < 4 && !(#[trigger] self.primitive.tile_point(lower, self.rotation, k)).fits();
                    assert(self.primitive.tile_point(self.origin@, self.rotation, k).fits());
                    assert(hits_stack(
                        self.primitive.tile_point(lower, self.rotation, k),
                        blocking_tiles@,
                        *arena_dimensions,
                    ));
                    false
                },
                Some(new_locations) => {
                    let mut i: usize = 0;
                    while i < 4
                        invariant
                            i <= 4,
                            *self == *old(self),
                            self.wf(),
                            lower == self.origin@.plus(Point { x: 0, y: 1 }),
                            target@ == lower,
                            forall|k: int|
                                #![trigger new_locations[k]]
                                #![trigger self.primitive.tile_point(lower, self.rotation, k)]
                                0 <= k < 4 ==> new_locations[k]@ == self.primitive.tile_point(
                                    lower,
                                    self.rotation,
                                    k,
                                ),
                            forall|k: int|
                                0 <= k < i ==> !hits_stack(
                                    #[trigger] self.primitive.tile_point(lower, self.rotation, k),
                                    blocking_tiles@,
                                    *arena_dimensions,
                                ),
                        decreases 4 - i,
                    {
                        assert(new_locations[i as int]@ == self.primitive.tile_point(
                            lower,
                            self.rotation,
                            i as int,
                        ));
                        match check_tile(new_locations[i], blocking_tiles, arena_dimensions) {
                            MovementCheck::TouchingStack => {
                                return false;
                            },
                            MovementCheck::TouchingWall => {},
                            MovementCheck::CanMove => {},
                        }
                        i += 1;
                    }
                    self.origin = target;
                    true
                },
            },
        }
    }

    /// Commits a turn: the piece enters `new_rotation` with its origin moved
    /// by `kick`.
    fn perform_rotation(&mut self, kick: Vec2, new_rotation: Rotation)
        requires
            old(self).origin@.plus(kick@).fits(),
        ensures
            *final(self) == old(self).placed(old(self).origin@.plus(kick@), new_rotation),
    {
        self.rotation = new_rotation;
        self.origin = self.origin.plus(kick);
    }

    /// Tries one kick: the turn is committed if the piece may stand in
    /// `new_rotation` with its origin moved by `kick`, and nothing changes if
    /// it may not.
    pub fn try_kick(
        &mut self,
        kick: Vec2,
        new_rotation: Rotation,
        blocking_tiles: &[Tile],
        arena_dimensions: &Vec2,
    ) -> (applied: bool)
        ensures
            applied == old(self).kick_legal(
                kick,
                new_rotation,
                blocking_tiles@,
                *arena_dimensions,
            ),
            applied ==> *final(self) == old(self).placed(
                old(self).origin@.plus(kick@),
                new_rotation,
            ),
            !applied ==> *final(self) == *old(self),
    {
        match self.origin.checked_plus(kick) {
            None => false,
            Some(target) => match self.get_locations(target, &new_rotation) {
                None => false,
                Some(kicked_locations) => match self.can_move(
                    kicked_locations,
                    blocking_tiles,
                    arena_dimensions,
                ) {
                    MovementCheck::CanMove => {
                        self.perform_rotation(kick, new_rotation);
                        true
                    },
                    MovementCheck::TouchingWall => false,
                    MovementCheck::TouchingStack => false,
                },
            },
        }
    }

    /// Tries the five kicks of a turn in order and commits the turn with the
    /// first that is legal. Where none is, nothing changes.
    fn non_o_wall_kick_checks(
        &mut self,
        kicks: [Vec2; 5],
        new_rotation: Rotation,
        blocking_tiles: &[Tile],
        arena_dimensions: &Vec2,
    )
        ensures
            ({
                let chosen = old(self).first_legal_kick(
                    kicks@,
                    0,
                    new_rotation,
                    blocking_tiles@,
                    *arena_dimensions,
                );
                *final(self) == if chosen < 5 {
                    old(self).placed(old(self).origin@.plus(kicks[chosen]@), new_rotation)
                } else {
                    *old(self)
                }
            }),
    {
        let mut i: usize = 0;
        while i < 5
            invariant
                i <= 5,
                *self == *old(self),
                old(self).first_legal_kick(
                    kicks@,
                    0,
                    new_rotation,
                    blocking_tiles@,
                    *arena_dimensions,
                ) == old(self).first_legal_kick(
                    kicks@,
                    i as int,
                    new_rotation,
                    blocking_tiles@,
                    *arena_dimensions,
                ),
            decreases 5 - i,
        {
            if self.try_kick(kicks[i], new_rotation, blocking_tiles, arena_dimensions) {
                return ;
            }
            i += 1;
        }
    }

    /// Turns the piece in `rotation_direction` if one of the kick candidates
    /// of the turn lets it: the first legal one in table order is applied.
    /// Where none is legal the piece stays as it is.
    pub fn rotate(
        &mut self,
        rotation_direction: RotationDirection,
        blocking_tiles: &Vec<Tile>,
        arena_dimensions: &Vec2,
    )
        ensures
            *final(self) == old(self).spec_rotate(
                rotation_direction,
                blocking_tiles@,
                *arena_dimensions,
            ),
            old(self).rotation_accepted(rotation_direction, blocking_tiles@, *arena_dimensions) ==> {
                &&& final(self).rotation == old(self).rotation.spec_turned(rotation_direction)
                &&& final(self).stands_clear(blocking_tiles@, *arena_dimensions)
            },
            !old(self).rotation_accepted(rotation_direction, blocking_tiles@, *arena_dimensions)
                ==> *final(self) == *old(self),
            old(self).wf() ==> final(self).wf(),
    {
        let new_rotation = self.rotation.turned(rotation_direction);
        proof {
            lemma_rotate_lands_clear(*self, rotation_direction, blocking_tiles@, *arena_dimensions);
            let kicks = kick_candidates(self.primitive.tetrimino_type, self.rotation, new_rotation);
            crate::piece::lemma_kicks_shared(
                self.primitive.tetrimino_type,
                self.rotation,
                new_rotation,
            );
            lemma_first_legal_kick(
                *self,
                kicks,
                0,
                new_rotation,
                blocking_tiles@,
                *arena_dimensions,
            );
        }

        match self.primitive.get_wall_kicks(&self.rotation, &new_rotation) {
            TetriminoWallKicks::O(kick) => {
                proof {
                    reveal_with_fuel(Tetrimino::first_legal_kick, 2);
                }
                self.try_kick(kick, new_rotation, blocking_tiles.as_slice(), arena_dimensions);
            },
            TetriminoWallKicks::Other(kicks) => {
                self.non_o_wall_kick_checks(
                    kicks,
                    new_rotation,
                    blocking_tiles.as_slice(),
                    arena_dimensions,
                );
            },
        };
    }
}

/// The candidate that a turn takes is the first legal one in table order:
/// the index that `first_legal_kick` gives for `kicks[from..]` is that of a
/// legal kick before which, from `from` on, no kick is legal; and it is the
/// length of `kicks` exactly when no kick from `from` on is legal. The same
/// piece, candidates, settled tiles and arena always give the same index.
pub proof fn lemma_first_legal_kick(
    piece: Tetrimino,
    kicks: Seq<Vec2>,
    from: int,
    target: Rotation,
    blocking: Seq<Tile>,
    dimensions: Vec2,
)
    requires
        0 <= from <= kicks.len(),
    ensures
        ({
            let chosen = piece.first_legal_kick(kicks, from, target, blocking, dimensions);
            &&& from <= chosen <= kicks.len()
            &&& chosen < kicks.len() ==> piece.kick_legal(
                kicks[chosen],
                target,
                blocking,
                dimensions,
            )
            &&& forall|j: int|
                from <= j < chosen ==> !piece.kick_legal(
                    #[trigger] kicks[j],
                    target,
                    blocking,
                    dimensions,
                )
        }),
    decreases kicks.len() - from,
{
    if from < kicks.len() && !piece.kick_legal(kicks[from], target, blocking, dimensions) {
        lemma_first_legal_kick(piece, kicks, from + 1, target, blocking, dimensions);
    }
}

impl Tetrimino {
    /// Whether the piece stands where it may: its placement is legal among
    /// the given settled tiles.
    pub open spec fn stands_clear(self, blocking: Seq<Tile>, dimensions: Vec2) -> bool {
        self.primitive.placement_legal(self.origin@, self.rotation, blocking, dimensions)
    }

    /// The piece after `n` turns in `direction`, each made by `rotate`.
    pub open spec fn rotated_times(
        self,
        direction: RotationDirection,
        n: nat,
        blocking: Seq<Tile>,
        dimensions: Vec2,
    ) -> Tetrimino
        decreases n,
    {
        if n == 0 {
            self
        } else {
            self.rotated_times(direction, (n - 1) as nat, blocking, dimensions).spec_rotate(
                direction,
                blocking,
                dimensions,
            )
        }
    }

    /// Whether each of `n` turns in `direction`, made one after the other,
    /// is accepted.
    pub open spec fn turns_accepted(
        self,
        direction: RotationDirection,
        n: nat,
        blocking: Seq<Tile>,
        dimensions: Vec2,
    ) -> bool
        decreases n,
    {
        n == 0 || {
            &&& self.turns_accepted(direction, (n - 1) as nat, blocking, dimensions)
            &&& self.rotated_times(
                direction,
                (n - 1) as nat,
                blocking,
                dimensions,
            ).rotation_accepted(direction, blocking, dimensions)
        }
    }
}

/// A move that is made leaves the piece where it may stand: after a
/// translation to a legal placement the piece is at the place asked for, in
/// the same orientation, and none of its tiles lies in a settled tile or
/// outside the arena.
pub proof fn lemma_translate_lands_clear(
    piece: Tetrimino,
    translation: Vec2,
    blocking: Seq<Tile>,
    dimensions: Vec2,
)
    requires
        piece.primitive.placement_legal(
            piece.origin@.plus(translation@),
            piece.rotation,
            blocking,
            dimensions,
        ),
    ensures
        piece.spec_translate(translation, blocking, dimensions).origin@ == piece.origin@.plus(
            translation@,
        ),
        piece.spec_translate(translation, blocking, dimensions).rotation == piece.rotation,
        piece.spec_translate(translation, blocking, dimensions).stands_clear(blocking, dimensions),
{
}

/// A turn is all or nothing. Where it is accepted the piece is in the next
/// orientation of the cycle and stands where it may; where it is refused
/// the piece is what it was.
pub proof fn lemma_rotate_lands_clear(
    piece: Tetrimino,
    direction: RotationDirection,
    blocking: Seq<Tile>,
    dimensions: Vec2,
)
    ensures
        piece.rotation_accepted(direction, blocking, dimensions) ==> {
            &&& piece.spec_rotate(direction, blocking, dimensions).rotation
                == piece.rotation.spec_turned(direction)
            &&& piece.spec_rotate(direction, blocking, dimensions).stands_clear(
                blocking,
                dimensions,
            )
        },
        !piece.rotation_accepted(direction, blocking, dimensions) ==> piece.spec_rotate(
            direction,
            blocking,
            dimensions,
        ) == piece,
        piece.spec_rotate(direction, blocking, dimensions).primitive == piece.primitive,
{
    let target = piece.rotation.spec_turned(direction);
    let kicks = kick_candidates(piece.primitive.tetrimino_type, piece.rotation, target);
    lemma_first_legal_kick(piece, kicks, 0, target, blocking, dimensions);
}

/// Where a piece of the catalog stands where it may, no two tiles of the
/// arena are at the same place: the four tiles of the piece differ from one
/// another and from every settled tile, given that no two settled tiles
/// coincide.
pub proof fn lemma_no_overlap(piece: Tetrimino, blocking: Seq<Tile>, dimensions: Vec2)
    requires
        piece.primitive.wf(),
        piece.stands_clear(blocking, dimensions),
        crate::tile::tiles_distinct(blocking),
    ensures
        crate::tile::tiles_distinct(piece.tiles() + blocking),
        forall|i: int|
            0 <= i < 4 ==> !crate::tile::occupied(blocking, (#[trigger] piece.locations()[i])@),
{
    let all = piece.tiles() + blocking;
    let shape = piece.primitive.tetrimino_type;
    crate::piece::lemma_layout_facts(shape, piece.rotation);
    assert(piece.primitive.offsets(piece.rotation) == crate::piece::layout(shape, piece.rotation));
    assert forall|i: int| 0 <= i < 4 implies (#[trigger] piece.locations()[i])@
        == piece.primitive.tile_point(piece.origin@, piece.rotation, i) && !crate::tile::occupied(
        blocking,
        piece.locations()[i]@,
    ) by {
        let point = piece.primitive.tile_point(piece.origin@, piece.rotation, i);
        assert(point.fits());
        assert(classify(point, blocking, dimensions) is CanMove);
    }
    assert forall|i: int, j: int| 0 <= i < j < all.len() implies (#[trigger] all[i]).location != (
    #[trigger] all[j]).location by {
        if j < 4 {
            assert(all[i].location == piece.locations()[i]);
            assert(all[j].location == piece.locations()[j]);
            assert(crate::piece::layout(shape, piece.rotation)[i] != crate::piece::layout(
                shape,
                piece.rotation,
            )[j]);
        } else if i < 4 {
            assert(all[i].location == piece.locations()[i]);
            assert(all[j] == blocking[j - 4]);
            assert(!crate::tile::occupied(blocking, piece.locations()[i]@));
        } else {
            assert(all[i] == blocking[i - 4]);
            assert(all[j] == blocking[j - 4]);
        }
    }
}

/// Turns that are all accepted walk the cycle of orientations: after `n` of
/// them the piece is in the orientation `n` places further.
pub proof fn lemma_accepted_turns(
    piece: Tetrimino,
    direction: RotationDirection,
    n: nat,
    blocking: Seq<Tile>,
    dimensions: Vec2,
)
    requires
        piece.turns_accepted(direction, n, blocking, dimensions),
    ensures
        piece.rotated_times(direction, n, blocking, dimensions).rotation
            == piece.rotation.turned_times(direction, n),
        piece.rotated_times(direction, n, blocking, dimensions).primitive == piece.primitive,
    decreases n,
{
    if n > 0 {
        let before = piece.rotated_times(direction, (n - 1) as nat, blocking, dimensions);
        lemma_accepted_turns(piece, direction, (n - 1) as nat, blocking, dimensions);
        lemma_rotate_lands_clear(before, direction, blocking, dimensions);
    }
}

/// Four turns clockwise and then four turns counterclockwise, all of them
/// accepted, bring the piece back to the orientation it started in. Its
/// origin may have drifted with the kicks taken on the way.
pub proof fn lemma_round_trip(piece: Tetrimino, blocking: Seq<Tile>, dimensions: Vec2)
    requires
        piece.turns_accepted(RotationDirection::Clockwise, 4, blocking, dimensions),
        piece.rotated_times(RotationDirection::Clockwise, 4, blocking, dimensions).turns_accepted(
            RotationDirection::Counterclockwise,
            4,
            blocking,
            dimensions,
        ),
    ensures
        piece.rotated_times(RotationDirection::Clockwise, 4, blocking, dimensions).rotation
            == piece.rotation,
        piece.rotated_times(RotationDirection::Clockwise, 4, blocking, dimensions).rotated_times(
            RotationDirection::Counterclockwise,
            4,
            blocking,
            dimensions,
        ).rotation == piece.rotation,
{
    let there = piece.rotated_times(RotationDirection::Clockwise, 4, blocking, dimensions);
    lemma_accepted_turns(piece, RotationDirection::Clockwise, 4, blocking, dimensions);
    lemma_accepted_turns(there, RotationDirection::Counterclockwise, 4, blocking, dimensions);
    crate::rotation::lemma_turns_cycle(piece.rotation);
}

} // verus!
