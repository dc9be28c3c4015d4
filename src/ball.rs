//! The single ball of a match, as far as the rules are concerned.
use vstd::prelude::*;

verus! {

/// Where the ball is in its lifecycle. At most one ball exists at a time.
#[derive(Clone, Copy, Debug, PartialEq, Eq, Structural)]
pub enum BallState {
    /// No ball on the court.
    Absent,
    /// A ball at rest on the centre spot, waiting to be served.
    AtRest,
    /// A served ball, moving.
    InPlay,
}

impl BallState {
    /// Creates a ball at rest at the centre of the court, replacing any other.
    pub fn spawn(&mut self)
        ensures
            *final(self) == BallState::AtRest,
    {
        *self = BallState::AtRest;
    }

    /// Gives the ball its serve velocity. With no ball on the court this is a
    /// benign miss: nothing changes and `false` comes back.
    pub fn serve(&mut self) -> (served: bool)
        ensures
            served == (*old(self) != BallState::Absent),
            *final(self) == (if served {
                BallState::InPlay
            } else {
                BallState::Absent
            }),
    {
        match *self {
            BallState::Absent => false,
            _ => {
                *self = BallState::InPlay;
                true
            },
        }
    }

    /// Removes the ball; removing a removed ball changes nothing.
    pub fn despawn(&mut self)
        ensures
            *final(self) == BallState::Absent,
    {
        *self = BallState::Absent;
    }
}

} // verus!
