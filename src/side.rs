//! The two ends of the court.
use vstd::prelude::*;

verus! {

/// Identifies a player, a paddle, a goal owner or a server.
#[derive(Clone, Copy, Debug, PartialEq, Eq, Structural)]
pub enum PlayerSide {
    Left,
    Right,
}

impl PlayerSide {
    /// The other end of the court.
    pub open spec fn other(self) -> PlayerSide {
        match self {
            PlayerSide::Left => PlayerSide::Right,
            PlayerSide::Right => PlayerSide::Left,
        }
    }

    pub fn opposite(self) -> (r: PlayerSide)
        ensures
            r == self.other(),
            r != self,
    {
        match self {
            PlayerSide::Left => PlayerSide::Right,
            PlayerSide::Right => PlayerSide::Left,
        }
    }
}

impl Default for PlayerSide {
    /// The left player serves first.
    fn default() -> (r: PlayerSide)
        ensures
            r == PlayerSide::Left,
    {
        PlayerSide::Left
    }
}

} // verus!
