//! The phase state machine of a match, advanced once per tick.
use vstd::prelude::*;
use crate::side::PlayerSide;
use crate::scoring::Score;
use crate::serve::ServeDirection;
use crate::goal::{CollisionStart, GoalScored, goal_events, detect_goals};
use crate::ball::BallState;
use crate::timer::{GoalTimer, GOAL_PAUSE_MICROS};

verus! {

/// The coarse mode a match is in.
#[derive(Clone, Copy, Debug, PartialEq, Eq, Structural)]
pub enum GamePhase {
    /// The ball rests at the centre until the server serves.
    WaitingToServe,
    /// The ball is in play.
    Playing,
    /// A short pause after a goal.
    GoalScored,
    /// The match is decided; only a player's command leaves this phase.
    GameOver,
}

/// A discrete, edge-triggered player command.
#[derive(Clone, Copy, Debug, PartialEq, Eq, Structural)]
pub enum Command {
    Serve,
    RestartMatch,
    QuitToMenu,
}

/// Work a tick hands to the engine, in the order given.
#[derive(Clone, Copy, Debug, PartialEq, Eq, Structural)]
pub enum Effect {
    /// Remove the ball.
    DespawnBall,
    /// Create a ball at rest on the centre spot.
    SpawnBall,
    /// Give the ball a serve velocity for the given server.
    ServeBall(PlayerSide),
    /// Leave the match for the menu.
    LeaveMatch,
}

/// What the host collected during one tick.
pub struct TickInput {
    /// Collision-start reports of the last physics step.
    pub collisions: Vec<CollisionStart>,
    /// The player's command this tick, if any.
    pub command: Option<Command>,
    /// Real time elapsed since the last tick, in microseconds.
    pub elapsed_micros: u64,
}

/// All state of one match. The phase controller is its only writer.
#[derive(Clone, Copy, Debug)]
pub struct MatchState {
    pub phase: GamePhase,
    pub score: Score,
    pub serve: ServeDirection,
    /// The pause timer; it exists only while a goal pause runs.
    pub pause: Option<GoalTimer>,
    pub ball: BallState,
}

impl MatchState {
    /// The invariant of a match: what each phase implies of the ball, the
    /// pause timer and the score.
    pub open spec fn wf(self) -> bool {
        match self.phase {
            GamePhase::WaitingToServe => {
                &&& self.ball == BallState::AtRest
                &&& self.pause.is_none()
                &&& !self.score.is_won()
            },
            GamePhase::Playing => {
                &&& self.ball == BallState::InPlay
                &&& self.pause.is_none()
                &&& !self.score.is_won()
            },
            GamePhase::GoalScored => {
                &&& self.ball == BallState::AtRest
                &&& self.pause matches Some(t) && t.remaining_micros > 0
                &&& !self.score.is_won()
            },
            GamePhase::GameOver => {
                &&& self.ball == BallState::Absent
                &&& self.pause.is_none()
                &&& self.score.is_won()
            },
        }
    }

    /// A match before its first serve: nil all, the left player to serve,
    /// the ball at rest.
    pub open spec fn initial() -> MatchState {
        MatchState {
            phase: GamePhase::WaitingToServe,
            score: Score { left: 0, right: 0 },
            serve: ServeDirection { side: PlayerSide::Left },
            pause: None,
            ball: BallState::AtRest,
        }
    }

    /// A serve command: honoured only while waiting to serve.
    pub open spec fn after_serve(self) -> MatchState {
        if self.phase == GamePhase::WaitingToServe {
            MatchState { phase: GamePhase::Playing, ball: BallState::InPlay, ..self }
        } else {
            self
        }
    }

    pub open spec fn serve_effects(self) -> Seq<Effect> {
        if self.phase == GamePhase::WaitingToServe {
            seq![Effect::ServeBall(self.serve.side)]
        } else {
            seq![]
        }
    }

    /// A goal for `scorer`: honoured only in play. The point is recorded and
    /// the ball removed; a decided match is over at once, otherwise the side
    /// scored against serves next from a fresh ball after a pause.
    pub open spec fn after_goal(self, scorer: PlayerSide) -> MatchState {
        if self.phase != GamePhase::Playing {
            self
        } else {
            let score = self.score.with_point(scorer);
            if score.is_won() {
                MatchState {
                    phase: GamePhase::GameOver,
                    score,
                    serve: self.serve,
                    pause: None,
                    ball: BallState::Absent,
                }
            } else {
                MatchState {
                    phase: GamePhase::GoalScored,
                    score,
                    serve: ServeDirection { side: scorer.other() },
                    pause: Some(GoalTimer { remaining_micros: GOAL_PAUSE_MICROS }),
                    ball: BallState::AtRest,
                }
            }
        }
    }

    pub open spec fn goal_effects(self, scorer: PlayerSide) -> Seq<Effect> {
        if self.phase != GamePhase::Playing {
            seq![]
        } else if self.score.with_point(scorer).is_won() {
            seq![Effect::DespawnBall]
        } else {
            seq![Effect::DespawnBall, Effect::SpawnBall]
        }
    }

    /// The goals of one tick: the first one ends the rally, the others find
    /// the match no longer in play.
    pub open spec fn after_goals(self, goals: Seq<GoalScored>) -> MatchState {
        if goals.len() > 0 {
            self.after_goal(goals[0].side)
        } else {
            self
        }
    }

    pub open spec fn goals_effects(self, goals: Seq<GoalScored>) -> Seq<Effect> {
        if goals.len() > 0 {
            self.goal_effects(goals[0].side)
        } else {
            seq![]
        }
    }

    /// The goal pause after `elapsed_micros` more time; when it runs out the
    /// timer goes and the match waits for the serve.
    pub open spec fn after_pause(self, elapsed_micros: u64) -> MatchState {
        if self.phase != GamePhase::GoalScored {
            self
        } else {
            match self.pause {
                Some(t) => if t.after(elapsed_micros).remaining_micros == 0 {
                    MatchState { phase: GamePhase::WaitingToServe, pause: None, ..self }
                } else {
                    MatchState { pause: Some(t.after(elapsed_micros)), ..self }
                },
                None => self,
            }
        }
    }

    /// A restart command: honoured only when the match is over.
    pub open spec fn after_restart(self) -> MatchState {
        if self.phase == GamePhase::GameOver {
            MatchState::initial()
        } else {
            self
        }
    }

    pub open spec fn restart_effects(self) -> Seq<Effect> {
        if self.phase == GamePhase::GameOver {
            seq![Effect::SpawnBall]
        } else {
            seq![]
        }
    }

    /// A quit command: honoured only when the match is over. The match left
    /// behind is a fresh one.
    pub open spec fn after_quit(self) -> MatchState {
        if self.phase == GamePhase::GameOver {
            MatchState::initial()
        } else {
            self
        }
    }

    pub open spec fn quit_effects(self) -> Seq<Effect> {
        if self.phase == GamePhase::GameOver {
            seq![Effect::LeaveMatch]
        } else {
            seq![]
        }
    }

    /// One tick: the current phase alone decides which inputs count.
    pub open spec fn after_tick(
        self,
        goals: Seq<GoalScored>,
        command: Option<Command>,
        elapsed_micros: u64,
    ) -> MatchState {
        match self.phase {
            GamePhase::WaitingToServe => if command == Some(Command::Serve) {
                self.after_serve()
            } else {
                self
            },
            GamePhase::Playing => self.after_goals(goals),
            GamePhase::GoalScored => self.after_pause(elapsed_micros),
            GamePhase::GameOver => if command == Some(Command::RestartMatch) {
                self.after_restart()
            } else if command == Some(Command::QuitToMenu) {
                self.after_quit()
            } else {
                self
            },
        }
    }

    pub open spec fn tick_effects(
        self,
        goals: Seq<GoalScored>,
        command: Option<Command>,
        elapsed_micros: u64,
    ) -> Seq<Effect> {
        match self.phase {
            GamePhase::WaitingToServe => if command == Some(Command::Serve) {
                self.serve_effects()
            } else {
                seq![]
            },
            GamePhase::Playing => self.goals_effects(goals),
            GamePhase::GoalScored => seq![],
            GamePhase::GameOver => if command == Some(Command::RestartMatch) {
                self.restart_effects()
            } else if command == Some(Command::QuitToMenu) {
                self.quit_effects()
            } else {
                seq![]
            },
        }
    }

    /// A match before its first serve.
    pub fn new() -> (r: MatchState)
        ensures
            r == MatchState::initial(),
            r.wf(),
    {
        MatchState {
            phase: GamePhase::WaitingToServe,
            score: Score::new(),
            serve: ServeDirection::new(),
            pause: None,
            ball: BallState::AtRest,
        }
    }
}

impl MatchState {
    /// A serve command. While waiting to serve, the ball is served by the
    /// current server and play starts; in any other phase nothing happens.
    pub fn request_serve(&mut self, effects: &mut Vec<Effect>) -> (served: bool)
        requires
            old(self).wf(),
        ensures
            served == (old(self).phase == GamePhase::WaitingToServe),
            *final(self) == old(self).after_serve(),
            final(effects)@ == old(effects)@ + old(self).serve_effects(),
            final(self).wf(),
    {
        match self.phase {
            GamePhase::WaitingToServe => {
                let _ = self.ball.serve();
                effects.push(Effect::ServeBall(self.serve.side));
                self.phase = GamePhase::Playing;
                proof {
                    assert(final(effects)@ =~= old(effects)@ + old(self).serve_effects());
                }
                true
            },
            _ => {
                assert(old(effects)@ + old(self).serve_effects() =~= old(effects)@);
                false
            },
        }
    }

    /// A goal event. In play it is resolved to completion: the point is
    /// recorded, the ball removed, and the match either ends or pauses with a
    /// fresh ball and the side scored against to serve. In any other phase
    /// the event is stale and is dropped.
    pub fn goal_scored(&mut self, event: GoalScored, effects: &mut Vec<Effect>) -> (accepted: bool)
        requires
            old(self).wf(),
        ensures
            accepted == (old(self).phase == GamePhase::Playing),
            *final(self) == old(self).after_goal(event.side),
            final(effects)@ == old(effects)@ + old(self).goal_effects(event.side),
            final(self).wf(),
    {
        match self.phase {
            GamePhase::Playing => {},
            _ => {
                assert(old(effects)@ + old(self).goal_effects(event.side) =~= old(effects)@);
                return false;
            },
        }
        self.score.record_point(event.side);
        self.ball.despawn();
        effects.push(Effect::DespawnBall);
        if self.score.has_winner() {
            self.phase = GamePhase::GameOver;
        } else {
            self.serve.set_next_server(event.side);
            self.ball.spawn();
            effects.push(Effect::SpawnBall);
            self.pause = Some(GoalTimer::start());
            self.phase = GamePhase::GoalScored;
        }
        assert(effects@ =~= old(effects)@ + old(self).goal_effects(event.side));
        true
    }

    /// Runs the goal pause on by `elapsed_micros`. Returns whether the pause
    /// ran out, which moves the match to waiting for the serve.
    pub fn tick_pause(&mut self, elapsed_micros: u64) -> (resumed: bool)
        requires
            old(self).wf(),
        ensures
            *final(self) == old(self).after_pause(elapsed_micros),
            resumed == (old(self).phase == GamePhase::GoalScored && final(self).phase
                == GamePhase::WaitingToServe),
            final(self).wf(),
    {
        match self.phase {
            GamePhase::GoalScored => {},
            _ => return false,
        }
        match self.pause {
            Some(t) => {
                let mut timer = t;
                timer.tick(elapsed_micros);
                if timer.finished() {
                    self.pause = None;
                    self.phase = GamePhase::WaitingToServe;
                    true
                } else {
                    self.pause = Some(timer);
                    false
                }
            },
            None => false,
        }
    }

    /// A restart command. When the match is over, a fresh match begins: nil
    /// all, the left player to serve, a new ball at rest. In any other phase
    /// nothing happens.
    pub fn restart(&mut self, effects: &mut Vec<Effect>) -> (restarted: bool)
        requires
            old(self).wf(),
        ensures
            restarted == (old(self).phase == GamePhase::GameOver),
            *final(self) == old(self).after_restart(),
            final(effects)@ == old(effects)@ + old(self).restart_effects(),
            final(self).wf(),
    {
        match self.phase {
            GamePhase::GameOver => {
                self.score.reset();
                self.serve = ServeDirection::new();
                self.ball.spawn();
                effects.push(Effect::SpawnBall);
                self.phase = GamePhase::WaitingToServe;
                assert(effects@ =~= old(effects)@ + old(self).restart_effects());
                true
            },
            _ => {
                assert(old(effects)@ + old(self).restart_effects() =~= old(effects)@);
                false
            },
        }
    }

    /// A quit command. When the match is over, the engine is told to leave
    /// it and the state is reset for the next match. In any other phase
    /// nothing happens.
    pub fn quit(&mut self, effects: &mut Vec<Effect>) -> (left: bool)
        requires
            old(self).wf(),
        ensures
            left == (old(self).phase == GamePhase::GameOver),
            *final(self) == old(self).after_quit(),
            final(effects)@ == old(effects)@ + old(self).quit_effects(),
            final(self).wf(),
    {
        match self.phase {
            GamePhase::GameOver => {
                *self = MatchState::new();
                effects.push(Effect::LeaveMatch);
                assert(effects@ =~= old(effects)@ + old(self).quit_effects());
                true
            },
            _ => {
                assert(old(effects)@ + old(self).quit_effects() =~= old(effects)@);
                false
            },
        }
    }

    /// One step of the match: the goal detector reads the tick's collision
    /// reports, then the phase controller makes at most one transition, and
    /// the work for the engine comes back in order.
    pub fn advance(&mut self, input: &TickInput) -> (effects: Vec<Effect>)
        requires
            old(self).wf(),
        ensures
            final(self).wf(),
            *final(self) == old(self).after_tick(
                goal_events(input.collisions@),
                input.command,
                input.elapsed_micros,
            ),
            effects@ == old(self).tick_effects(
                goal_events(input.collisions@),
                input.command,
                input.elapsed_micros,
            ),
    {
        let mut effects: Vec<Effect> = Vec::new();
        match self.phase {
            GamePhase::WaitingToServe => {
                match input.command {
                    Some(Command::Serve) => {
                        let _ = self.request_serve(&mut effects);
                    },
                    _ => {},
                }
            },
            GamePhase::Playing => {
                let goals = detect_goals(&input.collisions);
                let ghost start = *self;
                let mut i: usize = 0;
                while i < goals.len()
                    invariant
                        start == *old(self),
                        start.wf(),
                        start.phase == GamePhase::Playing,
                        self.wf(),
                        0 <= i <= goals.len(),
                        *self == start.after_goals(goals@.subrange(0, i as int)),
                        effects@ == start.goals_effects(goals@.subrange(0, i as int)),
                    decreases goals.len() - i,
                {
                    let _ = self.goal_scored(goals[i], &mut effects);
                    proof {
                        // The first goal of the tick ends the rally; later
                        // ones find the match out of play and change nothing.
                        assert(goals@.subrange(0, i + 1)[0] == goals@[0]);
                        if i > 0 {
                            assert(goals@.subrange(0, i as int)[0] == goals@[0]);
                        }
                    }
                    i = i + 1;
                }
                assert(goals@.subrange(0, goals.len() as int) =~= goals@);
            },
            GamePhase::GoalScored => {
                let _ = self.tick_pause(input.elapsed_micros);
            },
            GamePhase::GameOver => {
                match input.command {
                    Some(Command::RestartMatch) => {
                        let _ = self.restart(&mut effects);
                    },
                    Some(Command::QuitToMenu) => {
                        let _ = self.quit(&mut effects);
                    },
                    _ => {},
                }
            },
        }
        proof {
            assert(effects@ =~= old(self).tick_effects(
                goal_events(input.collisions@),
                input.command,
                input.elapsed_micros,
            ));
        }
        effects
    }
}

/// Every tick keeps the match invariant.
pub proof fn lemma_tick_keeps_invariant(
    s: MatchState,
    goals: Seq<GoalScored>,
    command: Option<Command>,
    elapsed_micros: u64,
)
    requires
        s.wf(),
    ensures
        s.after_tick(goals, command, elapsed_micros).wf(),
{
}

/// A goal while in play is recorded for the scorer alone, and the ball in
/// play is removed. Unless that decides the match, the side scored against
/// serves next, the match pauses, and a fresh ball waits at rest; if it does
/// decide the match, the match is over and no ball is left.
pub proof fn lemma_goal_in_play(s: MatchState, scorer: PlayerSide)
    requires
        s.wf(),
        s.phase == GamePhase::Playing,
    ensures
        s.after_goal(scorer).score == s.score.with_point(scorer),
        s.after_goal(scorer).score.points(scorer) == s.score.points(scorer) + 1,
        s.after_goal(scorer).score.points(scorer.other()) == s.score.points(scorer.other()),
        s.goal_effects(scorer)[0] == Effect::DespawnBall,
        !s.after_goal(scorer).score.is_won() ==> {
            &&& s.after_goal(scorer).serve.side == scorer.other()
            &&& s.after_goal(scorer).phase == GamePhase::GoalScored
            &&& s.goal_effects(scorer) == seq![Effect::DespawnBall, Effect::SpawnBall]
        },
        s.after_goal(scorer).score.is_won() ==> {
            &&& s.after_goal(scorer).phase == GamePhase::GameOver
            &&& s.after_goal(scorer).ball == BallState::Absent
            &&& s.goal_effects(scorer) == seq![Effect::DespawnBall]
        },
{
}

/// A goal event that arrives while waiting to serve or during the goal
/// pause changes nothing, and neither does a whole tick in those phases
/// change the score, whatever collisions it reports.
pub proof fn lemma_stale_goal_ignored(
    s: MatchState,
    scorer: PlayerSide,
    goals: Seq<GoalScored>,
    command: Option<Command>,
    elapsed_micros: u64,
)
    requires
        s.phase == GamePhase::GoalScored || s.phase == GamePhase::WaitingToServe,
    ensures
        s.after_goal(scorer) == s,
        s.goal_effects(scorer).len() == 0,
        s.after_tick(goals, command, elapsed_micros).score == s.score,
{
}

/// Restarting a finished match gives nil all, the left player to serve and
/// a wait for the serve, whatever else the tick reports.
pub proof fn lemma_restart_resets(s: MatchState, goals: Seq<GoalScored>, elapsed_micros: u64)
    requires
        s.wf(),
        s.phase == GamePhase::GameOver,
    ensures
        s.after_tick(goals, Some(Command::RestartMatch), elapsed_micros) == MatchState::initial(),
        s.after_tick(goals, Some(Command::RestartMatch), elapsed_micros).score == (Score {
            left: 0,
            right: 0,
        }),
        s.after_tick(goals, Some(Command::RestartMatch), elapsed_micros).phase
            == GamePhase::WaitingToServe,
        s.after_tick(goals, Some(Command::RestartMatch), elapsed_micros).serve.side
            == PlayerSide::Left,
{
}

/// Within a match, that is without a restart or a quit, neither count ever
/// goes down, and a tick adds at most one point in all.
pub proof fn lemma_score_within_match(
    s: MatchState,
    goals: Seq<GoalScored>,
    command: Option<Command>,
    elapsed_micros: u64,
)
    requires
        s.wf(),
        command != Some(Command::RestartMatch),
        command != Some(Command::QuitToMenu),
    ensures
        s.after_tick(goals, command, elapsed_micros).score.left >= s.score.left,
        s.after_tick(goals, command, elapsed_micros).score.right >= s.score.right,
        s.after_tick(goals, command, elapsed_micros).score.left + s.after_tick(
            goals,
            command,
            elapsed_micros,
        ).score.right <= s.score.left + s.score.right + 1,
{
}

/// The ball is served only on a serve command while waiting to serve, and
/// then by the current server.
pub proof fn lemma_serve_only_when_ready(
    s: MatchState,
    goals: Seq<GoalScored>,
    command: Option<Command>,
    elapsed_micros: u64,
    i: int,
)
    requires
        0 <= i < s.tick_effects(goals, command, elapsed_micros).len(),
        s.tick_effects(goals, command, elapsed_micros)[i] is ServeBall,
    ensures
        s.phase == GamePhase::WaitingToServe,
        command == Some(Command::Serve),
        s.tick_effects(goals, command, elapsed_micros)[i] == Effect::ServeBall(s.serve.side),
        s.after_tick(goals, command, elapsed_micros).phase == GamePhase::Playing,
{
}

/// A finished match stays finished, with a winner, until a restart or a
/// quit command; no timer and no collision ends it.
pub proof fn lemma_game_over_waits_for_command(
    s: MatchState,
    goals: Seq<GoalScored>,
    command: Option<Command>,
    elapsed_micros: u64,
)
    requires
        s.wf(),
        s.phase == GamePhase::GameOver,
        command != Some(Command::RestartMatch),
        command != Some(Command::QuitToMenu),
    ensures
        s.after_tick(goals, command, elapsed_micros) == s,
        s.tick_effects(goals, command, elapsed_micros).len() == 0,
        s.score.winner_spec().is_some(),
{
}

} // verus!
