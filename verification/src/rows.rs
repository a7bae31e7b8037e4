//! Full rows: finding them, taking them out and letting the stack sink.

use crate::geometry::{Point, Vec2};
use crate::tile::{contains_location, occupied, tiles_distinct, Tile};
use vstd::prelude::*;

verus! {

/// Whether every column `0..=width` of row `y` holds a tile.
pub open spec fn row_full(tiles: Seq<Tile>, y: int, width: int) -> bool {
    forall|x: int| 0 <= x <= width ==> #[trigger] occupied(tiles, Point { x, y })
}

/// The tile as it is once row `y` has been cleared: one row lower if it was
/// above that row, and where it was if it was below.
pub open spec fn sunk(tile: Tile, y: int) -> Tile {
    if tile.location.y < y {
        Tile {
            color: tile.color,
            location: Vec2 { x: tile.location.x, y: (tile.location.y + 1) as i32 },
        }
    } else {
        tile
    }
}

/// The tiles once row `y` has been cleared: those of row `y` are gone, the
/// others keep their order, and those above row `y` are one row lower.
pub open spec fn without_row(tiles: Seq<Tile>, y: int) -> Seq<Tile>
    decreases tiles.len(),
{
    if tiles.len() == 0 {
        Seq::empty()
    } else if tiles.last().location.y == y {
        without_row(tiles.drop_last(), y)
    } else {
        without_row(tiles.drop_last(), y).push(sunk(tiles.last(), y))
    }
}

/// The tiles after a sweep over the rows `from..=height`, from the top
/// down: each row that is full when the sweep reaches it is cleared before
/// the sweep goes on.
pub open spec fn swept(tiles: Seq<Tile>, width: int, from: int, height: int) -> Seq<Tile>
    decreases height - from + 1,
{
    if from > height {
        tiles
    } else if row_full(tiles, from, width) {
        swept(without_row(tiles, from), width, from + 1, height)
    } else {
        swept(tiles, width, from + 1, height)
    }
}

/// The number of rows that a sweep over the rows `from..=height` clears.
pub open spec fn cleared(tiles: Seq<Tile>, width: int, from: int, height: int) -> nat
    decreases height - from + 1,
{
    if from > height {
        0
    } else if row_full(tiles, from, width) {
        1 + cleared(without_row(tiles, from), width, from + 1, height)
    } else {
        cleared(tiles, width, from + 1, height)
    }
}

/// The number of rows among `from..=height` that are full.
pub open spec fn full_rows(tiles: Seq<Tile>, width: int, from: int, height: int) -> nat
    decreases height - from + 1,
{
    if from > height {
        0
    } else if row_full(tiles, from, width) {
        1 + full_rows(tiles, width, from + 1, height)
    } else {
        full_rows(tiles, width, from + 1, height)
    }
}

/// What clearing row `y` does to the cells: a cell below row `y` holds a
/// tile exactly if it held one before, and a cell of row `y` or above holds
/// one exactly if the cell over it held one before.
pub proof fn lemma_without_row_cells(tiles: Seq<Tile>, y: int, p: Point)
    requires
        y <= i32::MAX,
    ensures
        p.y > y ==> (occupied(without_row(tiles, y), p) <==> occupied(tiles, p)),
        p.y <= y ==> (occupied(without_row(tiles, y), p) <==> occupied(
            tiles,
            Point { x: p.x, y: p.y - 1 },
        )),
    decreases tiles.len(),
{
    let above = Point { x: p.x, y: p.y - 1 };
    let source = if p.y > y {
        p
    } else {
        above
    };
    if tiles.len() > 0 {
        let rest = tiles.drop_last();
        let last = tiles.last();
        let out = without_row(tiles, y);
        lemma_without_row_cells(rest, y, p);
        if occupied(out, p) {
            let k = choose|k: int| 0 <= k < out.len() && (#[trigger] out[k]).location@ == p;
            if last.location.y != y && k == out.len() - 1 {
                assert(tiles[tiles.len() - 1].location@ == source);
            } else {
                assert(without_row(rest, y)[k].location@ == p);
                let j = choose|j: int|
                    0 <= j < rest.len() && (#[trigger] rest[j]).location@ == source;
                assert(tiles[j].location@ == source);
            }
        }
        if occupied(tiles, source) {
            let j = choose|j: int| 0 <= j < tiles.len() && (#[trigger] tiles[j]).location@ == source;
            if j == tiles.len() - 1 {
                assert(last.location.y != y);
                assert(out[out.len() - 1].location@ == p);
            } else {
                assert(rest[j].location@ == source);
                let k = choose|k: int|
                    0 <= k < without_row(rest, y).len() && (#[trigger] without_row(
                        rest,
                        y,
                    )[k]).location@ == p;
                assert(out[k].location@ == p);
            }
        }
    }
}

/// Clearing a row keeps the tiles apart: if no two tiles were at the same
/// place before, no two are afterwards.
pub proof fn lemma_without_row_distinct(tiles: Seq<Tile>, y: int)
    requires
        tiles_distinct(tiles),
        y <= i32::MAX,
    ensures
        tiles_distinct(without_row(tiles, y)),
        without_row(tiles, y).len() <= tiles.len(),
    decreases tiles.len(),
{
    if tiles.len() > 0 {
        let rest = tiles.drop_last();
        let last = tiles.last();
        assert(tiles_distinct(rest)) by {
            assert forall|i: int, j: int| 0 <= i < j < rest.len() implies (#[trigger] rest[i]).location
                != (#[trigger] rest[j]).location by {
                assert(rest[i] == tiles[i] && rest[j] == tiles[j]);
            }
        }
        lemma_without_row_distinct(rest, y);
        if last.location.y != y {
            let out = without_row(tiles, y);
            let moved = sunk(last, y);
            lemma_without_row_cells(rest, y, moved.location@);
            if occupied(without_row(rest, y), moved.location@) {
                let j = choose|j: int|
                    0 <= j < rest.len() && (#[trigger] rest[j]).location@ == last.location@;
                assert(tiles[j].location == tiles[tiles.len() - 1].location);
            }
            assert forall|i: int, j: int| 0 <= i < j < out.len() implies (#[trigger] out[i]).location
                != (#[trigger] out[j]).location by {
                if j == out.len() - 1 {
                    assert(without_row(rest, y)[i].location@ == out[i].location@);
                } else {
                    assert(out[i] == without_row(rest, y)[i]);
                    assert(out[j] == without_row(rest, y)[j]);
                }
            }
        }
    }
}

/// A sweep keeps the tiles apart.
pub proof fn lemma_swept_distinct(tiles: Seq<Tile>, width: int, from: int, height: int)
    requires
        tiles_distinct(tiles),
        height <= i32::MAX,
    ensures
        tiles_distinct(swept(tiles, width, from, height)),
    decreases height - from + 1,
{
    if from <= height {
        if row_full(tiles, from, width) {
            lemma_without_row_distinct(tiles, from);
            lemma_swept_distinct(without_row(tiles, from), width, from + 1, height);
        } else {
            lemma_swept_distinct(tiles, width, from + 1, height);
        }
    }
}

/// Clearing a row leaves the rows below it as full as they were.
pub proof fn lemma_rows_below_unchanged(tiles: Seq<Tile>, width: int, y: int, below: int)
    requires
        y < below,
        y <= i32::MAX,
    ensures
        row_full(without_row(tiles, y), below, width) <==> row_full(tiles, below, width),
{
    assert forall|x: int|
        #![trigger occupied(tiles, Point { x, y: below })]
        #![trigger occupied(without_row(tiles, y), Point { x, y: below })]
        occupied(without_row(tiles, y), Point { x, y: below }) <==> occupied(
            tiles,
            Point { x, y: below },
        ) by {
        lemma_without_row_cells(tiles, y, Point { x, y: below });
    }
}

/// A sweep clears exactly the rows that were full before it began: the
/// rows that it clears are as many as those.
pub proof fn lemma_cleared_counts_full_rows(tiles: Seq<Tile>, width: int, from: int, height: int)
    requires
        height <= i32::MAX,
    ensures
        cleared(tiles, width, from, height) == full_rows(tiles, width, from, height),
        cleared(tiles, width, from, height) <= (if from <= height {
            height - from + 1
        } else {
            0
        }),
    decreases height - from + 1,
{
    if from <= height {
        if row_full(tiles, from, width) {
            let rest = without_row(tiles, from);
            lemma_cleared_counts_full_rows(rest, width, from + 1, height);
            lemma_full_rows_below_unchanged(tiles, width, from, from + 1, height);
        } else {
            lemma_cleared_counts_full_rows(tiles, width, from + 1, height);
        }
    }
}

/// Clearing row `y` leaves the number of full rows among `from..=height`
/// unchanged where these rows are all below `y`.
pub proof fn lemma_full_rows_below_unchanged(
    tiles: Seq<Tile>,
    width: int,
    y: int,
    from: int,
    height: int,
)
    requires
        y < from,
        y <= i32::MAX,
    ensures
        full_rows(without_row(tiles, y), width, from, height) == full_rows(
            tiles,
            width,
            from,
            height,
        ),
    decreases height - from + 1,
{
    if from <= height {
        lemma_rows_below_unchanged(tiles, width, y, from);
        lemma_full_rows_below_unchanged(tiles, width, y, from + 1, height);
    }
}

/// A sweep over rows of which none is full changes nothing.
pub proof fn lemma_swept_nothing_full(tiles: Seq<Tile>, width: int, from: int, height: int)
    requires
        forall|r: int| from <= r <= height ==> !row_full(tiles, r, width),
    ensures
        swept(tiles, width, from, height) == tiles,
        cleared(tiles, width, from, height) == 0,
    decreases height - from + 1,
{
    if from <= height {
        lemma_swept_nothing_full(tiles, width, from + 1, height);
    }
}

/// Where row `y` is the only full row among `from..=height`, the sweep
/// clears that row and no other: the tiles of row `y` are gone, those above
/// it are one row lower, those below it are where they were, and one row is
/// counted.
pub proof fn lemma_single_full_row(tiles: Seq<Tile>, width: int, from: int, height: int, y: int)
    requires
        from <= y <= height,
        height <= i32::MAX,
        row_full(tiles, y, width),
        forall|r: int| from <= r <= height && r != y ==> !row_full(tiles, r, width),
    ensures
        swept(tiles, width, from, height) == without_row(tiles, y),
        cleared(tiles, width, from, height) == 1,
    decreases y - from,
{
    if from < y {
        lemma_single_full_row(tiles, width, from + 1, height, y);
    } else {
        let rest = without_row(tiles, y);
        assert forall|r: int| y + 1 <= r <= height implies !row_full(rest, r, width) by {
            lemma_rows_below_unchanged(tiles, width, y, r);
        }
        lemma_swept_nothing_full(rest, width, y + 1, height);
    }
}

/// The tile `rows` rows lower.
pub open spec fn lowered(tile: Tile, rows: int) -> Tile {
    Tile {
        color: tile.color,
        location: Vec2 { x: tile.location.x, y: (tile.location.y + rows) as i32 },
    }
}

/// Whether the tile lies in one of the rows `from..=height` that are full
/// among the tiles `all`.
pub open spec fn in_full_row(all: Seq<Tile>, tile: Tile, width: int, from: int, height: int)
    -> bool {
    from <= tile.location.y <= height && row_full(all, tile.location.y as int, width)
}

/// The number of rows among `from..=height` that are full among the tiles
/// `all` and lie below the tile.
pub open spec fn full_rows_below(all: Seq<Tile>, tile: Tile, width: int, from: int, height: int)
    -> nat {
    full_rows(
        all,
        width,
        if tile.location.y + 1 > from {
            tile.location.y + 1
        } else {
            from
        },
        height,
    )
}

/// The tiles of `part` once the rows `from..=height` that are full among
/// `all` have collapsed: the tiles of those rows are gone, and every other
/// tile is as many rows lower as there were full rows below it. The order
/// of the tiles is kept.
pub open spec fn collapsed(part: Seq<Tile>, all: Seq<Tile>, width: int, from: int, height: int)
    -> Seq<Tile>
    decreases part.len(),
{
    if part.len() == 0 {
        Seq::empty()
    } else if in_full_row(all, part.last(), width, from, height) {
        collapsed(part.drop_last(), all, width, from, height)
    } else {
        collapsed(part.drop_last(), all, width, from, height).push(
            lowered(part.last(), full_rows_below(all, part.last(), width, from, height) as int),
        )
    }
}

/// Where there is no row to collapse, every tile stays.
proof fn lemma_collapsed_nothing(part: Seq<Tile>, all: Seq<Tile>, width: int, from: int, height: int)
    requires
        from > height,
    ensures
        collapsed(part, all, width, from, height) == part,
    decreases part.len(),
{
    if part.len() > 0 {
        lemma_collapsed_nothing(part.drop_last(), all, width, from, height);
        assert(lowered(part.last(), 0) == part.last());
        assert(part.drop_last().push(part.last()) =~= part);
    }
}

/// The collapse of the rows `from..=height` is the clearing of row `from`,
/// if that row is full, followed by the collapse of the rows below it.
proof fn lemma_collapsed_step(part: Seq<Tile>, all: Seq<Tile>, width: int, from: int, height: int)
    requires
        from <= height <= i32::MAX,
    ensures
        collapsed(part, all, width, from, height) == (if row_full(all, from, width) {
            collapsed(
                without_row(part, from),
                without_row(all, from),
                width,
                from + 1,
                height,
            )
        } else {
            collapsed(part, all, width, from + 1, height)
        }),
    decreases part.len(),
{
    if part.len() > 0 {
        let tile = part.last();
        let y = tile.location.y as int;
        lemma_collapsed_step(part.drop_last(), all, width, from, height);
        lemma_cleared_counts_full_rows(all, width, from + 1, height);
        if row_full(all, from, width) {
            let rest = without_row(all, from);
            if y != from {
                let moved = sunk(tile, from);
                assert(without_row(part, from).last() == moved);
                assert(without_row(part, from).drop_last() =~= without_row(
                    part.drop_last(),
                    from,
                ));
                if y > from {
                    lemma_rows_below_unchanged(all, width, from, y);
                    lemma_full_rows_below_unchanged(all, width, from, y + 1, height);
                } else {
                    lemma_full_rows_below_unchanged(all, width, from, from + 1, height);
                }
            }
        } else if y >= from {
        }
    }
}

/// What a sweep comes to: it takes out the rows that were full before it
/// began, and lowers every other tile by the number of those rows that lay
/// below it. Tiles keep their order, and tiles under the last full row stay
/// where they are.
pub proof fn lemma_swept_collapses(tiles: Seq<Tile>, width: int, from: int, height: int)
    requires
        height <= i32::MAX,
    ensures
        swept(tiles, width, from, height) == collapsed(tiles, tiles, width, from, height),
    decreases height - from + 1,
{
    if from > height {
        lemma_collapsed_nothing(tiles, tiles, width, from, height);
    } else {
        lemma_collapsed_step(tiles, tiles, width, from, height);
        if row_full(tiles, from, width) {
            lemma_swept_collapses(without_row(tiles, from), width, from + 1, height);
        } else {
            lemma_swept_collapses(tiles, width, from + 1, height);
        }
    }
}

/// Whether every column `0..=width` of row `y` holds a tile.
pub fn row_is_full(tiles: &[Tile], y: i32, width: i32) -> (full: bool)
    ensures
        full == row_full(tiles@, y as int, width as int),
{
    if width < 0 {
        return true;
    }
    let mut x: i32 = 0;
    while x <= width
        invariant
            0 <= x <= width,
            forall|k: int| 0 <= k < x ==> #[trigger] occupied(tiles@, Point { x: k, y: y as int }),
        decreases width - x + 1,
    {
        if !contains_location(tiles, Vec2 { x, y }) {
            assert(!occupied(tiles@, Point { x: x as int, y: y as int }));
            return false;
        }
        if x == width {
            return true;
        }
        x += 1;
    }
    true
}

/// Clears row `y`: its tiles are taken out, and every tile above it sinks
/// by one row.
pub fn remove_row(tiles: &mut Vec<Tile>, y: i32)
    ensures
        final(tiles)@ == without_row(old(tiles)@, y as int),
{
    let mut kept: Vec<Tile> = Vec::new();
    let mut i: usize = 0;
    while i < tiles.len()
        invariant
            i <= tiles.len(),
            *tiles == *old(tiles),
            kept@ == without_row(tiles@.take(i as int), y as int),
        decreases tiles.len() - i,
    {
        let tile = tiles[i];
        assert(tiles@.take(i + 1).drop_last() =~= tiles@.take(i as int));
        assert(tiles@.take(i + 1).last() == tile);
        if tile.location.y != y {
            if tile.location.y < y {
                kept.push(
                    Tile {
                        color: tile.color,
                        location: Vec2 { x: tile.location.x, y: tile.location.y + 1 },
                    },
                );
            } else {
                kept.push(tile);
            }
        }
        i += 1;
    }
    assert(tiles@.take(tiles.len() as int) =~= tiles@);
    *tiles = kept;
}

} // verus!
