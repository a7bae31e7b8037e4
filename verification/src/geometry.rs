//! Integer vectors on the playing grid.
//!
//! `Vec2` is the stored, machine-sized vector. Its view, `Point`, is the same
//! pair over the mathematical integers: sums and differences are stated on
//! points, where nothing overflows, and an executable operation says when its
//! result is a point that fits back into a `Vec2`.

use vstd::prelude::*;

verus! {

/// A position or a displacement on the grid. `x` grows to the right and `y`
/// grows downwards, so gravity adds to `y`.
#[derive(Clone, Copy, Debug, PartialEq, Eq, Structural)]
pub struct Vec2 {
    pub x: i32,
    pub y: i32,
}

/// A pair of unbounded integers: what a `Vec2` stands for in contracts.
pub struct Point {
    pub x: int,
    pub y: int,
}

impl View for Vec2 {
    type V = Point;

    open spec fn view(&self) -> Point {
        Point { x: self.x as int, y: self.y as int }
    }
}

impl Point {
    /// Component-wise sum.
    pub open spec fn plus(self, d: Point) -> Point {
        Point { x: self.x + d.x, y: self.y + d.y }
    }

    /// Component-wise difference.
    pub open spec fn minus(self, d: Point) -> Point {
        Point { x: self.x - d.x, y: self.y - d.y }
    }

    /// The opposite vector.
    pub open spec fn negated(self) -> Point {
        Point { x: -self.x, y: -self.y }
    }

    /// Both components multiplied by `k`.
    pub open spec fn scaled(self, k: int) -> Point {
        Point { x: self.x * k, y: self.y * k }
    }

    /// The vector turned a quarter clockwise as seen on screen (`y` pointing
    /// down): right becomes down, down becomes left.
    pub open spec fn quarter_turn(self) -> Point {
        Point { x: -self.y, y: self.x }
    }

    /// Whether both components can be stored in a `Vec2`.
    pub open spec fn fits(self) -> bool {
        &&& i32::MIN <= self.x <= i32::MAX
        &&& i32::MIN <= self.y <= i32::MAX
    }

    /// The stored vector with this view. Meaningful where `self.fits()`.
    pub open spec fn stored(self) -> Vec2 {
        Vec2 { x: self.x as i32, y: self.y as i32 }
    }
}

/// The stored vector `(x, y)`, for components within the range of `i32`.
pub open spec fn vec2(x: int, y: int) -> Vec2 {
    Vec2 { x: x as i32, y: y as i32 }
}

/// A stored vector is the only one with its view, and the view of what is
/// stored for a fitting point is that point.
pub proof fn lemma_view_injective(a: Vec2, b: Vec2)
    ensures
        a@ == b@ <==> a == b,
        a@.fits(),
        a@.stored() == a,
{
}

impl Vec2 {
    /// The origin `(0, 0)`.
    pub fn zero() -> (v: Vec2)
        ensures
            v == (Vec2 { x: 0, y: 0 }),
    {
        Vec2 { x: 0, y: 0 }
    }

    /// The vector `(x, y)`.
    pub fn xy(x: i32, y: i32) -> (v: Vec2)
        ensures
            v == (Vec2 { x, y }),
    {
        Vec2 { x, y }
    }

    /// The horizontal vector `(x, 0)`.
    pub fn x(x: i32) -> (v: Vec2)
        ensures
            v == (Vec2 { x, y: 0 }),
    {
        Vec2 { x, y: 0 }
    }

    /// The vertical vector `(0, y)`.
    pub fn y(y: i32) -> (v: Vec2)
        ensures
            v == (Vec2 { x: 0, y }),
    {
        Vec2 { x: 0, y }
    }

    /// The sum, where it can be stored: `None` exactly when a component of
    /// the mathematical sum leaves the range of `i32`.
    pub fn checked_plus(self, d: Vec2) -> (sum: Option<Vec2>)
        ensures
            sum is Some <==> self@.plus(d@).fits(),
            sum is Some ==> sum->0@ == self@.plus(d@),
    {
        match self.x.checked_add(d.x) {
            Some(x) => match self.y.checked_add(d.y) {
                Some(y) => Some(Vec2 { x, y }),
                None => None,
            },
            None => None,
        }
    }

    /// The sum of two vectors.
    pub fn plus(self, d: Vec2) -> (sum: Vec2)
        requires
            self@.plus(d@).fits(),
        ensures
            sum@ == self@.plus(d@),
    {
        Vec2 { x: self.x + d.x, y: self.y + d.y }
    }

    /// The difference of two vectors.
    pub fn minus(self, d: Vec2) -> (difference: Vec2)
        requires
            self@.minus(d@).fits(),
        ensures
            difference@ == self@.minus(d@),
    {
        Vec2 { x: self.x - d.x, y: self.y - d.y }
    }

    /// The opposite vector.
    pub fn negated(self) -> (opposite: Vec2)
        requires
            self@.negated().fits(),
        ensures
            opposite@ == self@.negated(),
    {
        Vec2 { x: -self.x, y: -self.y }
    }

    /// The vector with both components multiplied by `k`.
    pub fn scaled(self, k: i32) -> (product: Vec2)
        requires
            self@.scaled(k as int).fits(),
        ensures
            product@ == self@.scaled(k as int),
    {
        Vec2 { x: self.x * k, y: self.y * k }
    }
}

} // verus!
