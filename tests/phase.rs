use pong_core::ball::BallState;
use pong_core::goal::{BodyTag, CollisionStart, Goal, GoalScored};
use pong_core::phase::{Command, Effect, GamePhase, MatchState, TickInput};
use pong_core::scoring::Score;
use pong_core::serve::ServeDirection;
use pong_core::side::PlayerSide;
use pong_core::timer::GoalTimer;

fn tick(collisions: Vec<CollisionStart>, command: Option<Command>, elapsed_micros: u64) -> TickInput {
    TickInput { collisions, command, elapsed_micros }
}

fn into_goal(goal: Goal) -> Vec<CollisionStart> {
    vec![CollisionStart { a: BodyTag::Ball, b: BodyTag::Goal(goal) }]
}

fn playing_at(left: u32, right: u32, server: PlayerSide) -> MatchState {
    MatchState {
        phase: GamePhase::Playing,
        score: Score { left, right },
        serve: ServeDirection { side: server },
        pause: None,
        ball: BallState::InPlay,
    }
}

#[test]
fn initial_match_waits_for_left_serve() {
    let m = MatchState::new();
    assert_eq!(m.phase, GamePhase::WaitingToServe);
    assert_eq!(m.score, Score { left: 0, right: 0 });
    assert_eq!(m.serve.side, PlayerSide::Left);
    assert_eq!(m.ball, BallState::AtRest);
    assert!(m.pause.is_none());
}

#[test]
fn serve_command_starts_play() {
    let mut m = MatchState::new();
    let fx = m.advance(&tick(Vec::new(), None, 16_000));
    assert!(fx.is_empty());
    assert_eq!(m.phase, GamePhase::WaitingToServe);
    let fx = m.advance(&tick(Vec::new(), Some(Command::Serve), 16_000));
    assert_eq!(fx, vec![Effect::ServeBall(PlayerSide::Left)]);
    assert_eq!(m.phase, GamePhase::Playing);
    assert_eq!(m.ball, BallState::InPlay);
}

#[test]
fn right_goal_in_play_scores_and_pauses() {
    let mut m = playing_at(3, 4, PlayerSide::Right);
    let fx = m.advance(&tick(into_goal(Goal::Left), None, 16_000));
    assert_eq!(m.score, Score { left: 3, right: 5 });
    assert_eq!(fx, vec![Effect::DespawnBall, Effect::SpawnBall]);
    assert_eq!(m.serve.side, PlayerSide::Left);
    assert_eq!(m.phase, GamePhase::GoalScored);
    assert_eq!(m.ball, BallState::AtRest);
    assert_eq!(m.pause, Some(GoalTimer { remaining_micros: 1_000_000 }));
}

#[test]
fn goal_scored_method_reports_acceptance() {
    let mut m = playing_at(0, 0, PlayerSide::Left);
    let mut fx = Vec::new();
    assert!(m.goal_scored(GoalScored { side: PlayerSide::Right }, &mut fx));
    assert_eq!(m.score, Score { left: 0, right: 1 });
    assert_eq!(m.serve.side, PlayerSide::Left);
    assert_eq!(fx, vec![Effect::DespawnBall, Effect::SpawnBall]);
    assert!(!m.goal_scored(GoalScored { side: PlayerSide::Right }, &mut fx));
    assert_eq!(m.score, Score { left: 0, right: 1 });
    assert_eq!(fx.len(), 2);
}

#[test]
fn stale_goals_do_not_change_the_score() {
    let mut m = playing_at(2, 2, PlayerSide::Left);
    m.advance(&tick(into_goal(Goal::Right), None, 16_000));
    assert_eq!(m.phase, GamePhase::GoalScored);
    let fx = m.advance(&tick(into_goal(Goal::Right), None, 16_000));
    assert!(fx.is_empty());
    assert_eq!(m.score, Score { left: 3, right: 2 });

    let mut w = MatchState::new();
    let fx = w.advance(&tick(into_goal(Goal::Left), None, 16_000));
    assert!(fx.is_empty());
    assert_eq!(w.score, Score { left: 0, right: 0 });
    assert_eq!(w.phase, GamePhase::WaitingToServe);
}

#[test]
fn two_goal_reports_in_one_tick_score_once() {
    let mut m = playing_at(1, 1, PlayerSide::Left);
    let mut cs = into_goal(Goal::Right);
    cs.push(CollisionStart { a: BodyTag::Goal(Goal::Right), b: BodyTag::Ball });
    cs.push(CollisionStart { a: BodyTag::Goal(Goal::Left), b: BodyTag::Ball });
    let fx = m.advance(&tick(cs, None, 16_000));
    assert_eq!(m.score, Score { left: 2, right: 1 });
    assert_eq!(fx, vec![Effect::DespawnBall, Effect::SpawnBall]);
    assert_eq!(m.serve.side, PlayerSide::Right);
}

#[test]
fn pause_runs_out_after_one_second() {
    let mut m = playing_at(0, 0, PlayerSide::Left);
    m.advance(&tick(into_goal(Goal::Right), None, 16_000));
    m.advance(&tick(Vec::new(), Some(Command::Serve), 600_000));
    assert_eq!(m.phase, GamePhase::GoalScored);
    assert_eq!(m.pause, Some(GoalTimer { remaining_micros: 400_000 }));
    assert!(!m.tick_pause(399_999));
    assert_eq!(m.phase, GamePhase::GoalScored);
    let fx = m.advance(&tick(Vec::new(), None, 1));
    assert!(fx.is_empty());
    assert_eq!(m.phase, GamePhase::WaitingToServe);
    assert!(m.pause.is_none());
    let fx = m.advance(&tick(Vec::new(), Some(Command::Serve), 16_000));
    assert_eq!(fx, vec![Effect::ServeBall(PlayerSide::Right)]);
}

#[test]
fn winning_goal_ends_the_match_at_once() {
    let mut m = playing_at(10, 4, PlayerSide::Left);
    let fx = m.advance(&tick(into_goal(Goal::Right), None, 16_000));
    assert_eq!(fx, vec![Effect::DespawnBall]);
    assert_eq!(m.phase, GamePhase::GameOver);
    assert_eq!(m.score, Score { left: 11, right: 4 });
    assert_eq!(m.ball, BallState::Absent);
    assert!(m.pause.is_none());
    assert_eq!(m.score.winner(), Some(PlayerSide::Left));
}

#[test]
fn game_over_waits_for_a_command() {
    let mut m = playing_at(0, 6, PlayerSide::Right);
    m.advance(&tick(into_goal(Goal::Left), None, 16_000));
    assert_eq!(m.phase, GamePhase::GameOver);
    let before = m;
    let fx = m.advance(&tick(into_goal(Goal::Left), Some(Command::Serve), 5_000_000));
    assert!(fx.is_empty());
    assert_eq!(m.phase, before.phase);
    assert_eq!(m.score, Score { left: 0, right: 7 });
}

#[test]
fn restart_from_game_over_resets_everything() {
    let mut m = playing_at(0, 6, PlayerSide::Right);
    m.advance(&tick(into_goal(Goal::Left), None, 16_000));
    assert_eq!(m.phase, GamePhase::GameOver);
    let fx = m.advance(&tick(Vec::new(), Some(Command::RestartMatch), 16_000));
    assert_eq!(fx, vec![Effect::SpawnBall]);
    assert_eq!(m.score, Score { left: 0, right: 0 });
    assert_eq!(m.phase, GamePhase::WaitingToServe);
    assert_eq!(m.serve.side, PlayerSide::Left);
    assert_eq!(m.ball, BallState::AtRest);
}

#[test]
fn quit_from_game_over_leaves_the_match() {
    let mut m = playing_at(7, 10, PlayerSide::Left);
    m.advance(&tick(into_goal(Goal::Left), None, 16_000));
    assert_eq!(m.phase, GamePhase::GameOver);
    let fx = m.advance(&tick(Vec::new(), Some(Command::QuitToMenu), 16_000));
    assert_eq!(fx, vec![Effect::LeaveMatch]);
    assert_eq!(m.score, Score { left: 0, right: 0 });
    assert_eq!(m.phase, GamePhase::WaitingToServe);
}

#[test]
fn restart_and_quit_are_ignored_during_play() {
    let mut m = playing_at(1, 0, PlayerSide::Left);
    let mut fx = Vec::new();
    assert!(!m.restart(&mut fx));
    assert!(!m.quit(&mut fx));
    assert!(!m.request_serve(&mut fx));
    assert!(fx.is_empty());
    assert_eq!(m.phase, GamePhase::Playing);
    assert_eq!(m.score, Score { left: 1, right: 0 });
}

#[test]
fn mercy_match_from_the_first_serve() {
    let mut m = MatchState::new();
    for point in 0..7u32 {
        let fx = m.advance(&tick(Vec::new(), Some(Command::Serve), 16_000));
        assert_eq!(fx.len(), 1);
        m.advance(&tick(into_goal(Goal::Right), None, 16_000));
        assert_eq!(m.score, Score { left: point + 1, right: 0 });
        if point < 6 {
            assert_eq!(m.phase, GamePhase::GoalScored);
            assert_eq!(m.serve.side, PlayerSide::Right);
            m.advance(&tick(Vec::new(), None, 1_000_000));
            assert_eq!(m.phase, GamePhase::WaitingToServe);
        }
    }
    assert_eq!(m.phase, GamePhase::GameOver);
    assert_eq!(m.score.win_kind(), Some(pong_core::scoring::WinKind::Mercy));
}
