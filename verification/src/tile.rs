//! Tiles, and what a grid position runs into.

use crate::geometry::{Point, Vec2};
use crate::piece::Color;
use vstd::prelude::*;

verus! {

/// One cell's worth of a piece: where it is and how it is painted.
#[derive(Clone, Copy, Debug, Eq)]
pub struct Tile {
    pub color: Color,
    pub location: Vec2,
}

impl PartialEq for Tile {
    /// Two tiles are equal when they are at the same place, whatever their
    /// colours.
    fn eq(&self, other: &Self) -> (equal: bool) {
        self.location.x == other.location.x && self.location.y == other.location.y
    }
}

impl vstd::std_specs::cmp::PartialEqSpecImpl for Tile {
    open spec fn obeys_eq_spec() -> bool {
        true
    }

    open spec fn eq_spec(&self, other: &Self) -> bool {
        self.location.x == other.location.x && self.location.y == other.location.y
    }
}

impl Tile {
    /// A tile at `location` in the colour of a blocked cell.
    pub fn new(location: Vec2) -> (tile: Self)
        ensures
            tile == (Tile { color: Color::Xterm(8), location }),
    {
        Self { color: Color::Xterm(8), location }
    }
}

/// What stands in the way of a tile.
#[derive(Clone, Copy, Debug, PartialEq, Eq, Structural)]
pub enum MovementCheck {
    CanMove,
    TouchingWall,
    TouchingStack,
}

/// Whether one of the tiles is at `p`.
pub open spec fn occupied(tiles: Seq<Tile>, p: Point) -> bool {
    exists|i: int| 0 <= i < tiles.len() && (#[trigger] tiles[i]).location@ == p
}

/// Whether a tile at `p` would lie in a settled tile or below the floor, the
/// bottom row being `dimensions.y`.
pub open spec fn hits_stack(p: Point, blocking: Seq<Tile>, dimensions: Vec2) -> bool {
    occupied(blocking, p) || p.y > dimensions.y
}

/// Whether a tile at `p` would lie beyond the left or the right wall, the
/// columns being `0` to `dimensions.x`.
pub open spec fn hits_wall(p: Point, dimensions: Vec2) -> bool {
    p.x < 0 || p.x > dimensions.x
}

/// What stands in the way of a tile at `p`: the stack or the floor first,
/// then the walls.
pub open spec fn classify(p: Point, blocking: Seq<Tile>, dimensions: Vec2) -> MovementCheck {
    if hits_stack(p, blocking, dimensions) {
        MovementCheck::TouchingStack
    } else if hits_wall(p, dimensions) {
        MovementCheck::TouchingWall
    } else {
        MovementCheck::CanMove
    }
}

/// What stands in the way of a group of tiles: the obstacle of the first
/// tile that has one, in the order of the group.
pub open spec fn verdict(locations: Seq<Vec2>, blocking: Seq<Tile>, dimensions: Vec2)
    -> MovementCheck
    decreases locations.len(),
{
    if locations.len() == 0 {
        MovementCheck::CanMove
    } else {
        let first = classify(locations[0]@, blocking, dimensions);
        if first is CanMove {
            verdict(locations.drop_first(), blocking, dimensions)
        } else {
            first
        }
    }
}

/// No two of the tiles are at the same place.
pub open spec fn tiles_distinct(tiles: Seq<Tile>) -> bool {
    forall|i: int, j: int|
        0 <= i < j < tiles.len() ==> (#[trigger] tiles[i]).location != (#[trigger] tiles[j]).location
}

/// A group of tiles can move exactly when none of them has an obstacle.
pub proof fn lemma_verdict_can_move(locations: Seq<Vec2>, blocking: Seq<Tile>, dimensions: Vec2)
    ensures
        verdict(locations, blocking, dimensions) is CanMove <==> forall|i: int|
            0 <= i < locations.len() ==> classify(
                (#[trigger] locations[i])@,
                blocking,
                dimensions,
            ) is CanMove,
    decreases locations.len(),
{
    if locations.len() > 0 {
        let rest = locations.drop_first();
        lemma_verdict_can_move(rest, blocking, dimensions);
        if verdict(locations, blocking, dimensions) is CanMove {
            assert forall|i: int| 0 <= i < locations.len() implies classify(
                (#[trigger] locations[i])@,
                blocking,
                dimensions,
            ) is CanMove by {
                if i > 0 {
                    assert(locations[i] == rest[i - 1]);
                }
            }
        } else if classify(locations[0]@, blocking, dimensions) is CanMove {
            let k = choose|k: int|
                0 <= k < rest.len() && !(classify((#[trigger] rest[k])@, blocking, dimensions)
                    is CanMove);
            assert(locations[k + 1] == rest[k]);
        }
    }
}

/// Whether one of the tiles is at `location`.
pub fn contains_location(tiles: &[Tile], location: Vec2) -> (found: bool)
    ensures
        found == occupied(tiles@, location@),
{
    let mut i: usize = 0;
    while i < tiles.len()
        invariant
            i <= tiles.len(),
            forall|k: int| 0 <= k < i ==> (#[trigger] tiles@[k]).location@ != location@,
        decreases tiles.len() - i,
    {
        if tiles[i].location.x == location.x && tiles[i].location.y == location.y {
            return true;
        }
        i += 1;
    }
    false
}

/// What stands in the way of a tile at `location`.
pub fn check_tile(location: Vec2, blocking_tiles: &[Tile], arena_dimensions: &Vec2) -> (check:
    MovementCheck)
    ensures
        check == classify(location@, blocking_tiles@, *arena_dimensions),
{
    if contains_location(blocking_tiles, location) {
        MovementCheck::TouchingStack
    } else if location.y > arena_dimensions.y {
        MovementCheck::TouchingStack
    } else if location.x < 0 {
        MovementCheck::TouchingWall
    } else if location.x > arena_dimensions.x {
        MovementCheck::TouchingWall
    } else {
        MovementCheck::CanMove
    }
}

} // verus!
