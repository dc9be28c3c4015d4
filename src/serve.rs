//! Who serves next, and which way the ball leaves the centre.
use vstd::prelude::*;
use rand::Rng;
use crate::side::PlayerSide;

verus! {

/// Smallest serve angle off the horizontal, in degrees.
pub const MIN_SERVE_ANGLE_DEG: u32 = 15;

/// Largest serve angle off the horizontal, in degrees.
pub const MAX_SERVE_ANGLE_DEG: u32 = 45;

/// The side that serves the next point.
#[derive(Clone, Copy, Debug, PartialEq, Eq, Structural)]
pub struct ServeDirection {
    pub side: PlayerSide,
}

impl ServeDirection {
    /// The left player serves first.
    pub fn new() -> (r: ServeDirection)
        ensures
            r.side == PlayerSide::Left,
    {
        ServeDirection { side: PlayerSide::Left }
    }

    /// After `scorer` wins a point, the player scored against serves.
    pub fn set_next_server(&mut self, scorer: PlayerSide)
        ensures
            final(self).side == scorer.other(),
    {
        self.side = scorer.opposite();
    }
}

impl Default for ServeDirection {
    fn default() -> (r: ServeDirection)
        ensures
            r.side == PlayerSide::Left,
    {
        ServeDirection::new()
    }
}

/// Signs of the two velocity components of a serve: the angle and the speed
/// are applied by whoever moves the ball.
#[derive(Clone, Copy, Debug, PartialEq, Eq, Structural)]
pub struct ServeHeading {
    /// `1` toward the right goal, `-1` toward the left goal.
    pub horizontal: i8,
    /// `1` upward, `-1` downward.
    pub vertical: i8,
}

/// A left serve goes right (+x), a right serve goes left (-x).
pub open spec fn horizontal_sign(side: PlayerSide) -> int {
    match side {
        PlayerSide::Left => 1,
        PlayerSide::Right => -1,
    }
}

pub open spec fn vertical_sign(upward: bool) -> int {
    if upward {
        1
    } else {
        -1
    }
}

/// The heading of a serve by `side`, upward or downward as `upward` says.
pub fn serve_heading(side: PlayerSide, upward: bool) -> (r: ServeHeading)
    ensures
        r.horizontal == horizontal_sign(side),
        r.vertical == vertical_sign(upward),
{
    let horizontal: i8 = match side {
        PlayerSide::Left => 1,
        PlayerSide::Right => -1,
    };
    let vertical: i8 = if upward {
        1
    } else {
        -1
    };
    ServeHeading { horizontal, vertical }
}

/// Relies on rand's `Rng::random_ratio` on the thread-local generator: `true`
/// with chance `numerator / denominator`; always `true` when the two are
/// equal and always `false` when the numerator is zero. It panics when the
/// denominator is zero or below the numerator.
#[verifier::external_body]
fn draw_ratio(numerator: u32, denominator: u32) -> (r: bool)
    requires
        0 < denominator,
        numerator <= denominator,
    ensures
        numerator == denominator ==> r,
        numerator == 0 ==> !r,
{
    rand::rng().random_ratio(numerator, denominator)
}

/// The heading of a serve by `side`, with a fair coin for up or down.
pub fn draw_serve_heading(side: PlayerSide) -> (r: ServeHeading)
    ensures
        r.horizontal == horizontal_sign(side),
        r.vertical == 1 || r.vertical == -1,
{
    let upward = draw_ratio(1, 2);
    serve_heading(side, upward)
}

} // verus!
