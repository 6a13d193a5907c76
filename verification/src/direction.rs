//! The two directions a monster can face.

use vstd::prelude::*;

verus! {

/// The direction a monster faces, and therefore walks in.
#[derive(Clone, Copy, Debug, PartialEq, Eq, Hash, Structural)]
pub enum GameDirection {
    Left,
    Right,
}

impl GameDirection {
    /// The other direction.
    pub open spec fn opposite(self) -> GameDirection {
        match self {
            GameDirection::Left => GameDirection::Right,
            GameDirection::Right => GameDirection::Left,
        }
    }

    /// The sign of horizontal movement in this direction: `1` to the right,
    /// `-1` to the left.
    pub open spec fn sign(self) -> int {
        match self {
            GameDirection::Left => -1,
            GameDirection::Right => 1,
        }
    }

    /// The direction after `turns` reversals.
    pub open spec fn turned(self, turns: nat) -> GameDirection {
        if turns % 2 == 0 {
            self
        } else {
            self.opposite()
        }
    }

    /// Turns around: left becomes right and right becomes left.
    pub fn flipped(self) -> (flipped: GameDirection)
        ensures
            flipped == self.opposite(),
            flipped != self,
    {
        match self {
            GameDirection::Left => GameDirection::Right,
            GameDirection::Right => GameDirection::Left,
        }
    }
}

/// Turning around twice gives the direction back.
pub proof fn lemma_opposite_involution(direction: GameDirection)
    ensures
        direction.opposite().opposite() == direction,
        direction.opposite() != direction,
{
}

} // verus!
