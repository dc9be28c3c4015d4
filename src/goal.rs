//! Turning collision-start reports into goal events.
use vstd::prelude::*;
use crate::side::PlayerSide;

verus! {

/// The sensor region behind each paddle.
#[derive(Clone, Copy, Debug, PartialEq, Eq, Structural)]
pub enum Goal {
    Left,
    Right,
}

impl Goal {
    /// The end of the court the goal sits at.
    pub open spec fn at(self) -> PlayerSide {
        match self {
            Goal::Left => PlayerSide::Left,
            Goal::Right => PlayerSide::Right,
        }
    }

    /// A ball in one goal is a point for the player at the other end.
    pub open spec fn scorer(self) -> PlayerSide {
        self.at().other()
    }

    pub fn scoring_side(self) -> (r: PlayerSide)
        ensures
            r == self.scorer(),
    {
        match self {
            Goal::Left => PlayerSide::Right,
            Goal::Right => PlayerSide::Left,
        }
    }
}

/// What a body taking part in a collision is.
#[derive(Clone, Copy, Debug, PartialEq, Eq, Structural)]
pub enum BodyTag {
    Ball,
    Goal(Goal),
    Paddle(PlayerSide),
    Boundary,
}

/// Two bodies that started touching during the last physics step.
#[derive(Clone, Copy, Debug, PartialEq, Eq, Structural)]
pub struct CollisionStart {
    pub a: BodyTag,
    pub b: BodyTag,
}

/// A confirmed goal: `side` won the point.
#[derive(Clone, Copy, Debug, PartialEq, Eq, Structural)]
pub struct GoalScored {
    pub side: PlayerSide,
}

/// The goal event a collision stands for: one exactly when a ball meets a
/// goal, in either order.
pub open spec fn goal_of(c: CollisionStart) -> Option<GoalScored> {
    match (c.a, c.b) {
        (BodyTag::Ball, BodyTag::Goal(g)) => Some(GoalScored { side: g.scorer() }),
        (BodyTag::Goal(g), BodyTag::Ball) => Some(GoalScored { side: g.scorer() }),
        _ => None,
    }
}

/// The goal events of a list of collisions, in the order of the collisions.
pub open spec fn goal_events(cs: Seq<CollisionStart>) -> Seq<GoalScored>
    decreases cs.len(),
{
    if cs.len() == 0 {
        Seq::empty()
    } else {
        let front = goal_events(cs.drop_last());
        match goal_of(cs.last()) {
            Some(e) => front.push(e),
            None => front,
        }
    }
}

/// The goal event of one collision, if it is a ball-versus-goal pair.
pub fn goal_from_collision(c: &CollisionStart) -> (r: Option<GoalScored>)
    ensures
        r == goal_of(*c),
{
    match (c.a, c.b) {
        (BodyTag::Ball, BodyTag::Goal(g)) => Some(GoalScored { side: g.scoring_side() }),
        (BodyTag::Goal(g), BodyTag::Ball) => Some(GoalScored { side: g.scoring_side() }),
        _ => None,
    }
}

/// The goal events among one tick's collision-start reports.
pub fn detect_goals(collisions: &Vec<CollisionStart>) -> (r: Vec<GoalScored>)
    ensures
        r@ == goal_events(collisions@),
{
    let mut events: Vec<GoalScored> = Vec::new();
    let mut i: usize = 0;
    while i < collisions.len()
        invariant
            i <= collisions.len(),
            events@ == goal_events(collisions@.subrange(0, i as int)),
        decreases collisions.len() - i,
    {
        let found = goal_from_collision(&collisions[i]);
        proof {
            let next = collisions@.subrange(0, i + 1);
            assert(next.drop_last() =~= collisions@.subrange(0, i as int));
            assert(next.last() == collisions@[i as int]);
        }
        match found {
            Some(e) => events.push(e),
            None => {},
        }
        i = i + 1;
    }
    assert(collisions@.subrange(0, collisions.len() as int) =~= collisions@);
    events
}

/// Every goal event comes from its own collision report, so one ball
/// entering one goal can score at most once.
pub proof fn lemma_at_most_one_event_per_collision(cs: Seq<CollisionStart>)
    ensures
        goal_events(cs).len() <= cs.len(),
    decreases cs.len(),
{
    if cs.len() > 0 {
        lemma_at_most_one_event_per_collision(cs.drop_last());
    }
}

/// Collisions that do not pair a ball with a goal yield no event.
pub proof fn lemma_only_ball_goal_pairs_score(cs: Seq<CollisionStart>)
    requires
        forall|i: int| 0 <= i < cs.len() ==> goal_of(#[trigger] cs[i]).is_none(),
    ensures
        goal_events(cs).len() == 0,
    decreases cs.len(),
{
    if cs.len() > 0 {
        assert forall|i: int| 0 <= i < cs.drop_last().len() implies goal_of(
            #[trigger] cs.drop_last()[i],
        ).is_none() by {
            assert(cs.drop_last()[i] == cs[i]);
        }
        lemma_only_ball_goal_pairs_score(cs.drop_last());
        assert(goal_of(cs[cs.len() - 1]).is_none());
    }
}

} // verus!
