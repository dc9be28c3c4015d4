//! Collision layers: which kinds of body may touch which.
use vstd::prelude::*;

verus! {

/// The collision layers of the game, one bit each, in declaration order.
#[derive(Clone, Copy, Debug, PartialEq, Eq, Structural)]
pub enum GameLayer {
    /// Unassigned bodies; they collide with nothing.
    Default,
    Paddle,
    Ball,
    Boundary,
    PowerUp,
    Goal,
}

/// The bit of a layer in a mask.
pub open spec fn layer_bit(l: GameLayer) -> u32 {
    match l {
        GameLayer::Default => 1,
        GameLayer::Paddle => 2,
        GameLayer::Ball => 4,
        GameLayer::Boundary => 8,
        GameLayer::PowerUp => 16,
        GameLayer::Goal => 32,
    }
}

impl GameLayer {
    pub fn to_bits(self) -> (r: u32)
        ensures
            r == layer_bit(self),
    {
        match self {
            GameLayer::Default => 1,
            GameLayer::Paddle => 2,
            GameLayer::Ball => 4,
            GameLayer::Boundary => 8,
            GameLayer::PowerUp => 16,
            GameLayer::Goal => 32,
        }
    }
}

/// The layers a body belongs to, and the layers it is willing to touch.
#[derive(Clone, Copy, Debug, PartialEq, Eq, Structural)]
pub struct CollisionLayers {
    pub memberships: u32,
    pub filters: u32,
}

/// Two bodies touch when each belongs to a layer that the other accepts.
pub open spec fn interacts(a: CollisionLayers, b: CollisionLayers) -> bool {
    (a.memberships & b.filters) != 0 && (b.memberships & a.filters) != 0
}

impl CollisionLayers {
    /// Whether a body with these layers can touch one with `other`.
    pub fn interacts_with(&self, other: &CollisionLayers) -> (r: bool)
        ensures
            r == interacts(*self, *other),
    {
        (self.memberships & other.filters) != 0 && (other.memberships & self.filters) != 0
    }
}

/// The layers each kind of body is given.
pub open spec fn preset(l: GameLayer) -> CollisionLayers {
    match l {
        GameLayer::Default => CollisionLayers { memberships: layer_bit(l), filters: 0 },
        GameLayer::Paddle => CollisionLayers {
            memberships: layer_bit(l),
            filters: layer_bit(GameLayer::Ball) | layer_bit(GameLayer::Boundary),
        },
        GameLayer::Ball => CollisionLayers {
            memberships: layer_bit(l),
            filters: layer_bit(GameLayer::Paddle) | layer_bit(GameLayer::Boundary) | layer_bit(
                GameLayer::Goal,
            ) | layer_bit(GameLayer::PowerUp),
        },
        GameLayer::Boundary => CollisionLayers {
            memberships: layer_bit(l),
            filters: layer_bit(GameLayer::Paddle) | layer_bit(GameLayer::Ball),
        },
        GameLayer::PowerUp => CollisionLayers {
            memberships: layer_bit(l),
            filters: layer_bit(GameLayer::Ball),
        },
        GameLayer::Goal => CollisionLayers {
            memberships: layer_bit(l),
            filters: layer_bit(GameLayer::Ball),
        },
    }
}

/// The pairs of kinds that are meant to touch: the ball meets paddles,
/// boundaries, goals and power-ups, and paddles meet boundaries.
pub open spec fn meant_to_touch(a: GameLayer, b: GameLayer) -> bool {
    match (a, b) {
        (GameLayer::Ball, GameLayer::Paddle) | (GameLayer::Paddle, GameLayer::Ball) => true,
        (GameLayer::Ball, GameLayer::Boundary) | (GameLayer::Boundary, GameLayer::Ball) => true,
        (GameLayer::Ball, GameLayer::Goal) | (GameLayer::Goal, GameLayer::Ball) => true,
        (GameLayer::Ball, GameLayer::PowerUp) | (GameLayer::PowerUp, GameLayer::Ball) => true,
        (GameLayer::Paddle, GameLayer::Boundary) | (GameLayer::Boundary, GameLayer::Paddle) => true,
        _ => false,
    }
}

/// Paddles touch balls and boundaries, not each other or power-ups.
pub fn paddle_layers() -> (r: CollisionLayers)
    ensures
        r == preset(GameLayer::Paddle),
{
    CollisionLayers {
        memberships: GameLayer::Paddle.to_bits(),
        filters: GameLayer::Ball.to_bits() | GameLayer::Boundary.to_bits(),
    }
}

/// The ball touches everything but the default layer and other balls.
pub fn ball_layers() -> (r: CollisionLayers)
    ensures
        r == preset(GameLayer::Ball),
{
    CollisionLayers {
        memberships: GameLayer::Ball.to_bits(),
        filters: GameLayer::Paddle.to_bits() | GameLayer::Boundary.to_bits()
            | GameLayer::Goal.to_bits() | GameLayer::PowerUp.to_bits(),
    }
}

/// Boundaries touch paddles and balls.
pub fn boundary_layers() -> (r: CollisionLayers)
    ensures
        r == preset(GameLayer::Boundary),
{
    CollisionLayers {
        memberships: GameLayer::Boundary.to_bits(),
        filters: GameLayer::Paddle.to_bits() | GameLayer::Ball.to_bits(),
    }
}

/// Power-ups are collected by the ball only.
pub fn powerup_layers() -> (r: CollisionLayers)
    ensures
        r == preset(GameLayer::PowerUp),
{
    CollisionLayers { memberships: GameLayer::PowerUp.to_bits(), filters: GameLayer::Ball.to_bits() }
}

/// Goal sensors detect the ball only.
pub fn goal_layers() -> (r: CollisionLayers)
    ensures
        r == preset(GameLayer::Goal),
{
    CollisionLayers { memberships: GameLayer::Goal.to_bits(), filters: GameLayer::Ball.to_bits() }
}

/// Unassigned bodies touch nothing, on purpose: a body takes part in
/// collisions only once it is given a game layer.
pub fn default_layers() -> (r: CollisionLayers)
    ensures
        r == preset(GameLayer::Default),
{
    CollisionLayers { memberships: GameLayer::Default.to_bits(), filters: 0 }
}

/// Whether two bodies touch does not depend on which is named first.
pub proof fn lemma_interaction_symmetric(a: CollisionLayers, b: CollisionLayers)
    ensures
        interacts(a, b) == interacts(b, a),
{
}

/// The presets make exactly the intended pairs touch; in particular a goal
/// sensor reports nothing but the ball.
pub proof fn lemma_collision_matrix(a: GameLayer, b: GameLayer)
    ensures
        interacts(preset(a), preset(b)) == meant_to_touch(a, b),
{
    assert(
        (2u32 & (4u32 | 8u32)) == 0 && (2u32 & (2u32 | 8u32 | 32u32 | 16u32)) != 0
        && (2u32 & (2u32 | 4u32)) != 0 && (2u32 & 4u32) == 0 && (2u32 & 0u32) == 0
        && (4u32 & (4u32 | 8u32)) != 0 && (4u32 & (2u32 | 8u32 | 32u32 | 16u32)) == 0
        && (4u32 & (2u32 | 4u32)) != 0 && (4u32 & 4u32) != 0 && (4u32 & 0u32) == 0
        && (8u32 & (4u32 | 8u32)) != 0 && (8u32 & (2u32 | 8u32 | 32u32 | 16u32)) != 0
        && (8u32 & (2u32 | 4u32)) == 0 && (8u32 & 4u32) == 0 && (8u32 & 0u32) == 0
        && (16u32 & (4u32 | 8u32)) == 0 && (16u32 & (2u32 | 8u32 | 32u32 | 16u32)) != 0
        && (16u32 & (2u32 | 4u32)) == 0 && (16u32 & 4u32) == 0 && (16u32 & 0u32) == 0
        && (32u32 & (4u32 | 8u32)) == 0 && (32u32 & (2u32 | 8u32 | 32u32 | 16u32)) != 0
        && (32u32 & (2u32 | 4u32)) == 0 && (32u32 & 4u32) == 0 && (32u32 & 0u32) == 0
        && (1u32 & (4u32 | 8u32)) == 0 && (1u32 & (2u32 | 8u32 | 32u32 | 16u32)) == 0
        && (1u32 & (2u32 | 4u32)) == 0 && (1u32 & 4u32) == 0 && (1u32 & 0u32) == 0
    ) by (bit_vector);
}

} // verus!
