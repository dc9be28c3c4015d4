//! Match rules of a two-paddle ball game: score keeping and win conditions,
//! the serve, goal detection from collision reports, the ball's lifecycle,
//! and the phase state machine that ties them together, one step per tick.
pub mod side;
pub mod scoring;
pub mod serve;
pub mod goal;
pub mod ball;
pub mod timer;
pub mod phase;
pub mod physics;
