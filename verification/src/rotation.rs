//! The four orientations of a piece and the two ways to turn between them.

use vstd::prelude::*;

verus! {

/// The orientation of a piece. `Zero` is the orientation a piece spawns in;
/// `Right`, `Two` and `Left` follow it clockwise.
#[derive(Clone, Copy, Debug, PartialEq, Eq, Structural)]
pub enum Rotation {
    Zero,
    Two,
    Left,
    Right,
}

/// The way a rotation command turns the piece.
#[derive(Clone, Copy, Debug, PartialEq, Eq, Structural)]
pub enum RotationDirection {
    Clockwise,
    Counterclockwise,
}

impl RotationDirection {
    /// The number of clockwise quarter turns that amount to one turn this way.
    pub open spec fn quarter_turns(self) -> int {
        match self {
            RotationDirection::Clockwise => 1,
            RotationDirection::Counterclockwise => -1,
        }
    }
}

impl Rotation {
    /// The place of the orientation on the clockwise cycle, counted from the
    /// spawn orientation: the column of the kick tables that belongs to it.
    pub open spec fn spec_index(self) -> int {
        match self {
            Rotation::Zero => 0,
            Rotation::Right => 1,
            Rotation::Two => 2,
            Rotation::Left => 3,
        }
    }

    /// The orientation at a place of the cycle; places are taken modulo 4.
    pub open spec fn at(index: int) -> Rotation {
        let i = index % 4;
        if i == 0 {
            Rotation::Zero
        } else if i == 1 {
            Rotation::Right
        } else if i == 2 {
            Rotation::Two
        } else {
            Rotation::Left
        }
    }

    /// The orientation one quarter turn further in `direction`: the place on
    /// the cycle moves by one, modulo 4.
    pub open spec fn spec_turned(self, direction: RotationDirection) -> Rotation {
        Rotation::at(self.spec_index() + direction.quarter_turns())
    }

    /// The orientation after `n` quarter turns in `direction`.
    pub open spec fn turned_times(self, direction: RotationDirection, n: nat) -> Rotation
        decreases n,
    {
        if n == 0 {
            self
        } else {
            self.turned_times(direction, (n - 1) as nat).spec_turned(direction)
        }
    }

    /// The place of the orientation on the clockwise cycle.
    pub fn index(&self) -> (i: usize)
        ensures
            i == self.spec_index(),
            i < 4,
    {
        match self {
            Rotation::Zero => 0,
            Rotation::Right => 1,
            Rotation::Two => 2,
            Rotation::Left => 3,
        }
    }

    /// The orientation that a turn in `direction` leads to.
    pub fn turned(&self, direction: RotationDirection) -> (target: Rotation)
        ensures
            target == self.spec_turned(direction),
            target.spec_index() == (self.spec_index() + direction.quarter_turns()) % 4,
            target != *self,
    {
        match direction {
            RotationDirection::Clockwise => match self {
                Rotation::Zero => Rotation::Right,
                Rotation::Right => Rotation::Two,
                Rotation::Two => Rotation::Left,
                Rotation::Left => Rotation::Zero,
            },
            RotationDirection::Counterclockwise => match self {
                Rotation::Zero => Rotation::Left,
                Rotation::Left => Rotation::Two,
                Rotation::Two => Rotation::Right,
                Rotation::Right => Rotation::Zero,
            },
        }
    }
}

/// The orientations form a cycle of length four: a turn one way undoes a
/// turn the other way, and four turns the same way lead back to the start.
/// So do four turns clockwise followed by four turns counterclockwise.
pub proof fn lemma_turns_cycle(r: Rotation)
    ensures
        Rotation::at(r.spec_index()) == r,
        r.spec_turned(RotationDirection::Clockwise).spec_turned(RotationDirection::Counterclockwise)
            == r,
        r.spec_turned(RotationDirection::Counterclockwise).spec_turned(RotationDirection::Clockwise)
            == r,
        r.turned_times(RotationDirection::Clockwise, 4) == r,
        r.turned_times(RotationDirection::Counterclockwise, 4) == r,
        r.turned_times(RotationDirection::Clockwise, 4).turned_times(
            RotationDirection::Counterclockwise,
            4,
        ) == r,
{
    reveal_with_fuel(Rotation::turned_times, 5);
}

} // verus!
