//! Joint styles and turn directions.

use vstd::prelude::*;

verus! {

/// How the outer corner at an interior vertex is filled.
#[derive(Clone, Copy, Debug, PartialEq, Eq, Structural)]
pub enum JointType {
    /// Both outer rails run on to the point where they meet.
    Miter,
    /// One flat triangle cuts the corner.
    Bevel,
    /// A fan of triangles follows an arc around the inner joint.
    Round,
}

/// The side to which the path turns at an interior vertex.
#[derive(Clone, Copy, Debug, PartialEq, Eq, Structural)]
pub enum Direction {
    Left,
    Right,
}

impl Direction {
    /// The direction that an orientation test reports. A test that is not
    /// strictly positive, which includes collinear edges, counts as a left
    /// turn.
    pub fn of_turn(to_right: bool) -> (side: Direction)
        ensures
            side == Self::spec_of_turn(to_right),
    {
        if to_right {
            Direction::Right
        } else {
            Direction::Left
        }
    }

    pub open spec fn spec_of_turn(to_right: bool) -> Direction {
        if to_right {
            Direction::Right
        } else {
            Direction::Left
        }
    }

    /// Quarter turns, counter-clockwise, that take the direction of an
    /// edge to its normal on the outer side of the turn.
    pub open spec fn spec_normal_turns(self) -> int {
        match self {
            Direction::Right => 1,
            Direction::Left => -1,
        }
    }

    /// Quarter turns, counter-clockwise, that take the direction of an
    /// edge to its normal on the outer side of the turn: one for a right
    /// turn, one the other way for a left turn.
    pub fn normal_turns(self) -> (turns: i8)
        ensures
            turns == self.spec_normal_turns(),
    {
        match self {
            Direction::Right => 1,
            Direction::Left => -1,
        }
    }

    /// Half degrees, counter-clockwise, of one step of the arc sweep.
    pub open spec fn spec_sweep_step(self) -> int {
        match self {
            Direction::Right => -1,
            Direction::Left => 1,
        }
    }

    /// Half degrees, counter-clockwise, of one step of the arc sweep of a
    /// round joint: the sweep runs clockwise at a right turn and
    /// counter-clockwise at a left turn, against the normal's own turn.
    pub fn sweep_step(self) -> (half_degrees: i8)
        ensures
            half_degrees == self.spec_sweep_step(),
            half_degrees == -self.spec_normal_turns(),
    {
        match self {
            Direction::Right => -1,
            Direction::Left => 1,
        }
    }

    /// Whether this is a right turn.
    pub fn is_right(self) -> (right: bool)
        ensures
            right == (self is Right),
    {
        match self {
            Direction::Right => true,
            Direction::Left => false,
        }
    }
}

} // verus!
