//! The catalog of the seven pieces: their shapes in each orientation, their
//! colours and the wall-kick candidates of each turn.

use crate::chance::random_in_range;
use crate::geometry::{vec2, Vec2};
use crate::rotation::Rotation;
use vstd::prelude::*;

verus! {

/// How a tile is painted: a colour of the 256-colour terminal palette.
#[derive(Clone, Copy, Debug, PartialEq, Eq, Structural)]
pub enum Color {
    Xterm(u8),
}

/// The seven shapes.
#[derive(Clone, Copy, Debug, PartialEq, Eq, Structural)]
pub enum TetriminoType {
    J,
    L,
    S,
    T,
    Z,
    I,
    O,
}

/// The kick candidates of one turn: the square has a single one, every other
/// shape has five, tried in order.
#[derive(Clone, Copy, Debug, PartialEq, Eq)]
pub enum TetriminoWallKicks {
    O(Vec2),
    Other([Vec2; 5]),
}

/// One shape of the catalog: its colour and its four tile offsets in each
/// orientation, relative to the origin of the piece.
#[derive(Clone, Copy, Debug)]
pub struct TetriminoPrimitive {
    pub tetrimino_type: TetriminoType,
    pub color: Color,
    pub zero: [Vec2; 4],
    pub left: [Vec2; 4],
    pub right: [Vec2; 4],
    pub two: [Vec2; 4],
}

/// The number of shapes.
pub const SHAPE_COUNT: i32 = 7;

impl TetriminoType {
    /// The shape with a given number: 0 to 5 are J, L, S, T, Z and I, and
    /// every other number is O.
    pub open spec fn spec_from_index(index: int) -> TetriminoType {
        if index == 0 {
            TetriminoType::J
        } else if index == 1 {
            TetriminoType::L
        } else if index == 2 {
            TetriminoType::S
        } else if index == 3 {
            TetriminoType::T
        } else if index == 4 {
            TetriminoType::Z
        } else if index == 5 {
            TetriminoType::I
        } else {
            TetriminoType::O
        }
    }

    /// The shape with a given number.
    pub fn from_index(index: i32) -> (shape: TetriminoType)
        ensures
            shape == Self::spec_from_index(index as int),
    {
        match index {
            0 => TetriminoType::J,
            1 => TetriminoType::L,
            2 => TetriminoType::S,
            3 => TetriminoType::T,
            4 => TetriminoType::Z,
            5 => TetriminoType::I,
            _ => TetriminoType::O,
        }
    }

    /// A shape drawn uniformly among the seven: the shape with a number
    /// drawn from `0..SHAPE_COUNT`. Nothing more is promised of which one
    /// comes out.
    pub fn random() -> (shape: TetriminoType)
        ensures
            exists|index: int|
                0 <= index < SHAPE_COUNT && shape == #[trigger] Self::spec_from_index(index),
    {
        Self::from_index(random_in_range(0, SHAPE_COUNT))
    }
}

/// The tile offsets of a shape in its spawn orientation.
pub open spec fn spawn_layout(shape: TetriminoType) -> Seq<Vec2> {
    match shape {
        TetriminoType::J => seq![
            vec2(-1, -1),
            vec2(-1, 0),
            vec2(0, 0),
            vec2(1, 0),
        ],
        TetriminoType::L => seq![
            vec2(1, -1),
            vec2(-1, 0),
            vec2(0, 0),
            vec2(1, 0),
        ],
        TetriminoType::S => seq![
            vec2(1, -1),
            vec2(0, -1),
            vec2(0, 0),
            vec2(-1, 0),
        ],
        TetriminoType::T => seq![
            vec2(-1, 0),
            vec2(0, -1),
            vec2(0, 0),
            vec2(1, 0),
        ],
        TetriminoType::Z => seq![
            vec2(1, 0),
            vec2(0, -1),
            vec2(0, 0),
            vec2(-1, -1),
        ],
        TetriminoType::I => seq![
            vec2(-1, 0),
            vec2(0, 0),
            vec2(1, 0),
            vec2(2, 0),
        ],
        TetriminoType::O => seq![
            vec2(1, -1),
            vec2(0, -1),
            vec2(0, 0),
            vec2(1, 0),
        ],
    }
}

/// The colour of a shape.
pub open spec fn shape_color(shape: TetriminoType) -> Color {
    match shape {
        TetriminoType::J => Color::Xterm(9),
        TetriminoType::L => Color::Xterm(10),
        TetriminoType::S => Color::Xterm(11),
        TetriminoType::T => Color::Xterm(12),
        TetriminoType::Z => Color::Xterm(13),
        TetriminoType::I => Color::Xterm(14),
        TetriminoType::O => Color::Xterm(15),
    }
}

/// A layout with every offset turned a quarter clockwise about the origin.
pub open spec fn turned_layout(layout: Seq<Vec2>) -> Seq<Vec2> {
    Seq::new(layout.len(), |i: int| layout[i]@.quarter_turn().stored())
}

/// The tile offsets of a shape in a given orientation: the spawn layout
/// turned clockwise as many times as the orientation is away from spawn.
pub open spec fn layout(shape: TetriminoType, rotation: Rotation) -> Seq<Vec2> {
    match rotation {
        Rotation::Zero => spawn_layout(shape),
        Rotation::Right => turned_layout(spawn_layout(shape)),
        Rotation::Two => turned_layout(turned_layout(spawn_layout(shape))),
        Rotation::Left => turned_layout(turned_layout(turned_layout(spawn_layout(shape)))),
    }
}

/// Turns four offsets a quarter clockwise about the origin.
pub fn rotate_right(input: [Vec2; 4]) -> (turned: [Vec2; 4])
    requires
        forall|i: int| 0 <= i < 4 ==> input[i].y > i32::MIN,
    ensures
        turned@ == turned_layout(input@),
{
    [
        Vec2 { x: -input[0].y, y: input[0].x },
        Vec2 { x: -input[1].y, y: input[1].x },
        Vec2 { x: -input[2].y, y: input[2].x },
        Vec2 { x: -input[3].y, y: input[3].x },
    ]
}

/// The kick anchors of the line piece: one row for each of the five
/// candidates, one column for each orientation in the order of
/// `Rotation::spec_index`. These are the offsets of the Super Rotation System
/// with `y` pointing down.
pub open spec fn i_anchors() -> Seq<Seq<Vec2>> {
    seq![
        seq![vec2(0, 0), vec2(-1, 0), vec2(-1, -1), vec2(0, -1)],
        seq![vec2(-1, 0), vec2(0, 0), vec2(1, -1), vec2(0, -1)],
        seq![vec2(2, 0), vec2(0, 0), vec2(-2, -1), vec2(0, -1)],
        seq![vec2(-1, 0), vec2(0, -1), vec2(1, 0), vec2(0, 1)],
        seq![vec2(2, 0), vec2(0, 2), vec2(-2, 0), vec2(0, -2)],
    ]
}

/// The kick anchors of the square: a single candidate, one column for each
/// orientation.
pub open spec fn o_anchors() -> Seq<Seq<Vec2>> {
    seq![seq![vec2(0, 0), vec2(0, 1), vec2(-1, 1), vec2(-1, 0)]]
}

/// The kick anchors that J, L, S, T and Z share.
pub open spec fn other_anchors() -> Seq<Seq<Vec2>> {
    seq![
        seq![vec2(0, 0), vec2(0, 0), vec2(0, 0), vec2(0, 0)],
        seq![vec2(0, 0), vec2(1, 0), vec2(0, 0), vec2(-1, 0)],
        seq![vec2(0, 0), vec2(1, 1), vec2(0, 0), vec2(-1, 1)],
        seq![vec2(0, 0), vec2(0, -2), vec2(0, 0), vec2(0, -2)],
        seq![vec2(0, 0), vec2(1, -2), vec2(0, 0), vec2(-1, -2)],
    ]
}

/// The kick anchors of a shape.
pub open spec fn anchors(shape: TetriminoType) -> Seq<Seq<Vec2>> {
    match shape {
        TetriminoType::O => o_anchors(),
        TetriminoType::I => i_anchors(),
        _ => other_anchors(),
    }
}

/// The kick candidates of the turn from one orientation to another, in the
/// order in which they are tried: for each row of the shape's anchors, the
/// anchor of the orientation left minus the anchor of the orientation
/// entered.
pub open spec fn kick_candidates(shape: TetriminoType, from: Rotation, to: Rotation) -> Seq<Vec2> {
    Seq::new(
        anchors(shape).len(),
        |c: int|
            anchors(shape)[c][from.spec_index()]@.minus(
                anchors(shape)[c][to.spec_index()]@,
            ).stored(),
    )
}

/// Whether an executable table holds the given anchors.
pub open spec fn table_holds(table: [[Vec2; 4]; 5], rows: Seq<Seq<Vec2>>) -> bool {
    &&& rows.len() == 5
    &&& forall|c: int| 0 <= c < 5 ==> (#[trigger] table[c])@ == rows[c]
}

/// The kick anchors of the line piece.
pub fn i_offsets_table() -> (table: [[Vec2; 4]; 5])
    ensures
        table_holds(table, i_anchors()),
{
    [
        [Vec2 { x: 0, y: 0 }, Vec2 { x: -1, y: 0 }, Vec2 { x: -1, y: -1 }, Vec2 { x: 0, y: -1 }],
        [Vec2 { x: -1, y: 0 }, Vec2 { x: 0, y: 0 }, Vec2 { x: 1, y: -1 }, Vec2 { x: 0, y: -1 }],
        [Vec2 { x: 2, y: 0 }, Vec2 { x: 0, y: 0 }, Vec2 { x: -2, y: -1 }, Vec2 { x: 0, y: -1 }],
        [Vec2 { x: -1, y: 0 }, Vec2 { x: 0, y: -1 }, Vec2 { x: 1, y: 0 }, Vec2 { x: 0, y: 1 }],
        [Vec2 { x: 2, y: 0 }, Vec2 { x: 0, y: 2 }, Vec2 { x: -2, y: 0 }, Vec2 { x: 0, y: -2 }],
    ]
}

/// The kick anchors of the square.
pub fn o_offsets() -> (row: [Vec2; 4])
    ensures
        row@ == o_anchors()[0],
{
    [Vec2 { x: 0, y: 0 }, Vec2 { x: 0, y: 1 }, Vec2 { x: -1, y: 1 }, Vec2 { x: -1, y: 0 }]
}

/// The kick anchors that J, L, S, T and Z share.
pub fn other_offsets_table() -> (table: [[Vec2; 4]; 5])
    ensures
        table_holds(table, other_anchors()),
{
    [
        [Vec2 { x: 0, y: 0 }, Vec2 { x: 0, y: 0 }, Vec2 { x: 0, y: 0 }, Vec2 { x: 0, y: 0 }],
        [Vec2 { x: 0, y: 0 }, Vec2 { x: 1, y: 0 }, Vec2 { x: 0, y: 0 }, Vec2 { x: -1, y: 0 }],
        [Vec2 { x: 0, y: 0 }, Vec2 { x: 1, y: 1 }, Vec2 { x: 0, y: 0 }, Vec2 { x: -1, y: 1 }],
        [Vec2 { x: 0, y: 0 }, Vec2 { x: 0, y: -2 }, Vec2 { x: 0, y: 0 }, Vec2 { x: 0, y: -2 }],
        [Vec2 { x: 0, y: 0 }, Vec2 { x: 1, y: -2 }, Vec2 { x: 0, y: 0 }, Vec2 { x: -1, y: -2 }],
    ]
}

/// The array of the four offsets of a layout.
pub open spec fn four(layout: Seq<Vec2>) -> [Vec2; 4] {
    [layout[0], layout[1], layout[2], layout[3]]
}

impl View for TetriminoWallKicks {
    type V = Seq<Vec2>;

    /// The candidates in the order in which they are tried.
    open spec fn view(&self) -> Seq<Vec2> {
        match self {
            TetriminoWallKicks::O(kick) => seq![*kick],
            TetriminoWallKicks::Other(kicks) => kicks@,
        }
    }
}

/// The five differences, row by row, between the anchors of two columns of a
/// table.
fn kicks_between(table: &[[Vec2; 4]; 5], from_idx: usize, to_idx: usize) -> (kicks: [Vec2; 5])
    requires
        from_idx < 4,
        to_idx < 4,
        forall|c: int|
            0 <= c < 5 ==> (#[trigger] table[c])[from_idx as int]@.minus(
                table[c][to_idx as int]@,
            ).fits(),
    ensures
        forall|c: int|
            0 <= c < 5 ==> (#[trigger] kicks[c])@ == table[c][from_idx as int]@.minus(
                table[c][to_idx as int]@,
            ),
{
    [
        table[0][from_idx].minus(table[0][to_idx]),
        table[1][from_idx].minus(table[1][to_idx]),
        table[2][from_idx].minus(table[2][to_idx]),
        table[3][from_idx].minus(table[3][to_idx]),
        table[4][from_idx].minus(table[4][to_idx]),
    ]
}

impl TetriminoPrimitive {
    /// The tile offsets in a given orientation.
    pub open spec fn offsets(self, rotation: Rotation) -> Seq<Vec2> {
        match rotation {
            Rotation::Zero => self.zero@,
            Rotation::Left => self.left@,
            Rotation::Right => self.right@,
            Rotation::Two => self.two@,
        }
    }

    /// Whether this is the catalog's entry for its shape: the colour and the
    /// spawn layout are the shape's, and each further orientation is the one
    /// before it turned a quarter clockwise.
    pub open spec fn wf(self) -> bool {
        &&& self.color == shape_color(self.tetrimino_type)
        &&& forall|rotation: Rotation| #[trigger]
            self.offsets(rotation) == layout(self.tetrimino_type, rotation)
    }

    /// The catalog's entry for a shape.
    pub open spec fn entry(shape: TetriminoType) -> TetriminoPrimitive {
        TetriminoPrimitive {
            tetrimino_type: shape,
            color: shape_color(shape),
            zero: four(layout(shape, Rotation::Zero)),
            left: four(layout(shape, Rotation::Left)),
            right: four(layout(shape, Rotation::Right)),
            two: four(layout(shape, Rotation::Two)),
        }
    }

    /// A shape with the given spawn layout; the other orientations are
    /// derived from it by quarter turns.
    pub fn new(tetrimino_type: TetriminoType, color: Color, zero: [Vec2; 4]) -> (primitive: Self)
        requires
            forall|i: int| 0 <= i < 4 ==> i32::MIN < zero[i].x && i32::MIN < zero[i].y,
        ensures
            primitive.tetrimino_type == tetrimino_type,
            primitive.color == color,
            primitive.zero == zero,
            primitive.right@ == turned_layout(zero@),
            primitive.two@ == turned_layout(primitive.right@),
            primitive.left@ == turned_layout(primitive.two@),
    {
        let right = rotate_right(zero);
        let two = rotate_right(right);
        let left = rotate_right(two);

        Self { tetrimino_type, color, zero, left, right, two }
    }

    /// The catalog's entry for a shape.
    pub fn of(shape: TetriminoType) -> (primitive: Self)
        ensures
            primitive == Self::entry(shape),
            primitive.tetrimino_type == shape,
            primitive.wf(),
    {
        let primitive = match shape {
            TetriminoType::J => Self::new(
                TetriminoType::J,
                Color::Xterm(9),
                [
                    Vec2 { x: -1, y: -1 },
                    Vec2 { x: -1, y: 0 },
                    Vec2 { x: 0, y: 0 },
                    Vec2 { x: 1, y: 0 },
                ],
            ),
            TetriminoType::L => Self::new(
                TetriminoType::L,
                Color::Xterm(10),
                [
                    Vec2 { x: 1, y: -1 },
                    Vec2 { x: -1, y: 0 },
                    Vec2 { x: 0, y: 0 },
                    Vec2 { x: 1, y: 0 },
                ],
            ),
            TetriminoType::S => Self::new(
                TetriminoType::S,
                Color::Xterm(11),
                [
                    Vec2 { x: 1, y: -1 },
                    Vec2 { x: 0, y: -1 },
                    Vec2 { x: 0, y: 0 },
                    Vec2 { x: -1, y: 0 },
                ],
            ),
            TetriminoType::T => Self::new(
                TetriminoType::T,
                Color::Xterm(12),
                [
                    Vec2 { x: -1, y: 0 },
                    Vec2 { x: 0, y: -1 },
                    Vec2 { x: 0, y: 0 },
                    Vec2 { x: 1, y: 0 },
                ],
            ),
            TetriminoType::Z => Self::new(
                TetriminoType::Z,
                Color::Xterm(13),
                [
                    Vec2 { x: 1, y: 0 },
                    Vec2 { x: 0, y: -1 },
                    Vec2 { x: 0, y: 0 },
                    Vec2 { x: -1, y: -1 },
                ],
            ),
            TetriminoType::I => Self::new(
                TetriminoType::I,
                Color::Xterm(14),
                [
                    Vec2 { x: -1, y: 0 },
                    Vec2 { x: 0, y: 0 },
                    Vec2 { x: 1, y: 0 },
                    Vec2 { x: 2, y: 0 },
                ],
            ),
            TetriminoType::O => Self::new(
                TetriminoType::O,
                Color::Xterm(15),
                [
                    Vec2 { x: 1, y: -1 },
                    Vec2 { x: 0, y: -1 },
                    Vec2 { x: 0, y: 0 },
                    Vec2 { x: 1, y: 0 },
                ],
            ),
        };
        assert(primitive.zero@ =~= spawn_layout(shape));
        assert forall|rotation: Rotation| #[trigger]
            primitive.offsets(rotation) == layout(shape, rotation) by {}
        proof {
            lemma_entry(primitive);
        }
        primitive
    }

    /// One of the seven entries of the catalog, drawn uniformly. Which one
    /// is left open.
    pub fn get_random_primative() -> (primitive: Self)
        ensures
            primitive.wf(),
    {
        Self::of(TetriminoType::random())
    }

    /// The kick candidates of the turn from `from` to `to`: a single one for
    /// the square, five for every other shape.
    pub fn get_wall_kicks(&self, from: &Rotation, to: &Rotation) -> (kicks: TetriminoWallKicks)
        ensures
            kicks@ == kick_candidates(self.tetrimino_type, *from, *to),
            kicks is O <==> self.tetrimino_type is O,
    {
        let from_idx = from.index();
        let to_idx = to.index();

        match self.tetrimino_type {
            TetriminoType::O => {
                let row = o_offsets();
                let kicks = TetriminoWallKicks::O(row[from_idx].minus(row[to_idx]));
                assert(kicks@ =~= kick_candidates(self.tetrimino_type, *from, *to));
                kicks
            },
            TetriminoType::I => {
                let table = i_offsets_table();
                let kicks = TetriminoWallKicks::Other(kicks_between(&table, from_idx, to_idx));
                assert(kicks@ =~= kick_candidates(self.tetrimino_type, *from, *to));
                kicks
            },
            _ => {
                let table = other_offsets_table();
                let kicks = TetriminoWallKicks::Other(kicks_between(&table, from_idx, to_idx));
                assert(kicks@ =~= kick_candidates(self.tetrimino_type, *from, *to));
                kicks
            },
        }
    }

    /// The tile offsets in a given orientation.
    pub fn get_positions(&self, rotation: &Rotation) -> (positions: [Vec2; 4])
        ensures
            positions@ == self.offsets(*rotation),
    {
        match rotation {
            Rotation::Zero => self.zero,
            Rotation::Left => self.left,
            Rotation::Right => self.right,
            Rotation::Two => self.two,
        }
    }
}

/// The kick candidates of the T piece, turn by turn: the table of the Super
/// Rotation System for J, L, S, T and Z, with `y` pointing down.
pub proof fn lemma_t_kicks()
    ensures
        kick_candidates(TetriminoType::T, Rotation::Zero, Rotation::Right) == seq![
            vec2(0, 0),
            vec2(-1, 0),
            vec2(-1, -1),
            vec2(0, 2),
            vec2(-1, 2),
        ],
        kick_candidates(TetriminoType::T, Rotation::Right, Rotation::Zero) == seq![
            vec2(0, 0),
            vec2(1, 0),
            vec2(1, 1),
            vec2(0, -2),
            vec2(1, -2),
        ],
        kick_candidates(TetriminoType::T, Rotation::Right, Rotation::Two) == seq![
            vec2(0, 0),
            vec2(1, 0),
            vec2(1, 1),
            vec2(0, -2),
            vec2(1, -2),
        ],
        kick_candidates(TetriminoType::T, Rotation::Two, Rotation::Right) == seq![
            vec2(0, 0),
            vec2(-1, 0),
            vec2(-1, -1),
            vec2(0, 2),
            vec2(-1, 2),
        ],
        kick_candidates(TetriminoType::T, Rotation::Two, Rotation::Left) == seq![
            vec2(0, 0),
            vec2(1, 0),
            vec2(1, -1),
            vec2(0, 2),
            vec2(1, 2),
        ],
        kick_candidates(TetriminoType::T, Rotation::Left, Rotation::Two) == seq![
            vec2(0, 0),
            vec2(-1, 0),
            vec2(-1, 1),
            vec2(0, -2),
            vec2(-1, -2),
        ],
        kick_candidates(TetriminoType::T, Rotation::Left, Rotation::Zero) == seq![
            vec2(0, 0),
            vec2(-1, 0),
            vec2(-1, 1),
            vec2(0, -2),
            vec2(-1, -2),
        ],
        kick_candidates(TetriminoType::T, Rotation::Zero, Rotation::Left) == seq![
            vec2(0, 0),
            vec2(1, 0),
            vec2(1, -1),
            vec2(0, 2),
            vec2(1, 2),
        ],
{
}

/// The kick candidates of the line piece, turn by turn: the table of the
/// Super Rotation System for I, with `y` pointing down, as displacements of
/// the origin about which the piece turns. Clockwise and counterclockwise
/// turns between the same two orientations get different candidates.
pub proof fn lemma_i_kicks()
    ensures
        kick_candidates(TetriminoType::I, Rotation::Zero, Rotation::Right) == seq![
            vec2(1, 0),
            vec2(-1, 0),
            vec2(2, 0),
            vec2(-1, 1),
            vec2(2, -2),
        ],
        kick_candidates(TetriminoType::I, Rotation::Right, Rotation::Zero) == seq![
            vec2(-1, 0),
            vec2(1, 0),
            vec2(-2, 0),
            vec2(1, -1),
            vec2(-2, 2),
        ],
        kick_candidates(TetriminoType::I, Rotation::Right, Rotation::Two) == seq![
            vec2(0, 1),
            vec2(-1, 1),
            vec2(2, 1),
            vec2(-1, -1),
            vec2(2, 2),
        ],
        kick_candidates(TetriminoType::I, Rotation::Two, Rotation::Right) == seq![
            vec2(0, -1),
            vec2(1, -1),
            vec2(-2, -1),
            vec2(1, 1),
            vec2(-2, -2),
        ],
        kick_candidates(TetriminoType::I, Rotation::Two, Rotation::Left) == seq![
            vec2(-1, 0),
            vec2(1, 0),
            vec2(-2, 0),
            vec2(1, -1),
            vec2(-2, 2),
        ],
        kick_candidates(TetriminoType::I, Rotation::Left, Rotation::Two) == seq![
            vec2(1, 0),
            vec2(-1, 0),
            vec2(2, 0),
            vec2(-1, 1),
            vec2(2, -2),
        ],
        kick_candidates(TetriminoType::I, Rotation::Left, Rotation::Zero) == seq![
            vec2(0, -1),
            vec2(1, -1),
            vec2(-2, -1),
            vec2(1, 1),
            vec2(-2, -2),
        ],
        kick_candidates(TetriminoType::I, Rotation::Zero, Rotation::Left) == seq![
            vec2(0, 1),
            vec2(-1, 1),
            vec2(2, 1),
            vec2(-1, -1),
            vec2(2, 2),
        ],
{
}

/// The single kick of the square, turn by turn. It moves the origin so that
/// the turned square covers the cells it covered before.
pub proof fn lemma_o_kicks()
    ensures
        kick_candidates(TetriminoType::O, Rotation::Zero, Rotation::Right) == seq![
            vec2(0, -1),
        ],
        kick_candidates(TetriminoType::O, Rotation::Right, Rotation::Zero) == seq![
            vec2(0, 1),
        ],
        kick_candidates(TetriminoType::O, Rotation::Right, Rotation::Two) == seq![
            vec2(1, 0),
        ],
        kick_candidates(TetriminoType::O, Rotation::Two, Rotation::Right) == seq![
            vec2(-1, 0),
        ],
        kick_candidates(TetriminoType::O, Rotation::Two, Rotation::Left) == seq![
            vec2(0, 1),
        ],
        kick_candidates(TetriminoType::O, Rotation::Left, Rotation::Two) == seq![
            vec2(0, -1),
        ],
        kick_candidates(TetriminoType::O, Rotation::Left, Rotation::Zero) == seq![
            vec2(-1, 0),
        ],
        kick_candidates(TetriminoType::O, Rotation::Zero, Rotation::Left) == seq![
            vec2(1, 0),
        ],
{
}

/// J, L, S and Z have the kick candidates of T, and every shape but the
/// square has five of them.
pub proof fn lemma_kicks_shared(shape: TetriminoType, from: Rotation, to: Rotation)
    ensures
        !(shape is I) && !(shape is O) ==> kick_candidates(shape, from, to) == kick_candidates(
            TetriminoType::T,
            from,
            to,
        ),
        kick_candidates(shape, from, to).len() == (if shape is O {
            1nat
        } else {
            5nat
        }),
{
}

/// What every layout of the catalog has: four offsets, none further than
/// two cells from the origin, no two of them equal, and the origin itself
/// among them.
pub proof fn lemma_layout_facts(shape: TetriminoType, rotation: Rotation)
    ensures
        layout(shape, rotation).len() == 4,
        forall|i: int|
            0 <= i < 4 ==> -2 <= (#[trigger] layout(shape, rotation)[i]).x <= 2 && -2 <= layout(
                shape,
                rotation,
            )[i].y <= 2,
        forall|i: int, j: int|
            0 <= i < j < 4 ==> layout(shape, rotation)[i] != layout(shape, rotation)[j],
        exists|i: int| 0 <= i < 4 && layout(shape, rotation)[i] == vec2(0, 0),
{
    let l = layout(shape, rotation);
    assert(l[2] == vec2(0, 0) || l[1] == vec2(0, 0));
}

/// There is one entry for each shape: a shape's record is well formed
/// exactly when it is the catalog's entry for its shape.
pub proof fn lemma_entry(primitive: TetriminoPrimitive)
    ensures
        primitive.wf() <==> primitive == TetriminoPrimitive::entry(primitive.tetrimino_type),
        TetriminoPrimitive::entry(primitive.tetrimino_type).wf(),
{
    let shape = primitive.tetrimino_type;
    let entry = TetriminoPrimitive::entry(shape);
    assert forall|rotation: Rotation| #[trigger]
        entry.offsets(rotation) == layout(shape, rotation) by {
        lemma_layout_facts(shape, rotation);
        assert(entry.offsets(rotation) =~= layout(shape, rotation));
    }
    if primitive.wf() {
        assert(primitive.offsets(Rotation::Zero) == layout(shape, Rotation::Zero));
        assert(primitive.offsets(Rotation::Left) == layout(shape, Rotation::Left));
        assert(primitive.offsets(Rotation::Right) == layout(shape, Rotation::Right));
        assert(primitive.offsets(Rotation::Two) == layout(shape, Rotation::Two));
        assert(primitive.zero =~= entry.zero);
        assert(primitive.left =~= entry.left);
        assert(primitive.right =~= entry.right);
        assert(primitive.two =~= entry.two);
    }
}

} // verus!
