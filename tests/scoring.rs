use pong_core::scoring::{Score, WinKind, MAX_SCORE, MERCY_SCORE};
use pong_core::side::PlayerSide;

fn score_after(left: u32, right: u32) -> Score {
    let mut s = Score::new();
    for _ in 0..left {
        s.record_point(PlayerSide::Left);
    }
    for _ in 0..right {
        s.record_point(PlayerSide::Right);
    }
    s
}

#[test]
fn no_winner_below_thresholds() {
    for l in 0..11u32 {
        for r in 0..11u32 {
            let mercy = (l >= 7 && r == 0) || (r >= 7 && l == 0);
            let s = Score { left: l, right: r };
            if !mercy {
                assert!(!s.has_winner(), "{} - {}", l, r);
                assert_eq!(s.winner(), None);
                assert_eq!(s.win_kind(), None);
            } else {
                assert!(s.has_winner(), "{} - {}", l, r);
            }
        }
    }
}

#[test]
fn nine_nil_is_a_mercy_win_for_left() {
    let s = score_after(9, 0);
    assert_eq!(s, Score { left: 9, right: 0 });
    assert!(s.has_winner());
    assert_eq!(s.winner(), Some(PlayerSide::Left));
    assert_eq!(s.win_kind(), Some(WinKind::Mercy));
}

#[test]
fn eleven_five_is_a_game_win_for_left() {
    let s = score_after(11, 5);
    assert!(s.has_winner());
    assert_eq!(s.winner(), Some(PlayerSide::Left));
    assert_eq!(s.win_kind(), Some(WinKind::Game));
}

#[test]
fn mercy_threshold_is_exactly_seven() {
    assert!(!Score { left: 6, right: 0 }.has_winner());
    assert!(Score { left: 7, right: 0 }.has_winner());
    assert!(!Score { left: 0, right: 6 }.has_winner());
    let s = Score { left: 0, right: 7 };
    assert!(s.has_winner());
    assert_eq!(s.winner(), Some(PlayerSide::Right));
    assert_eq!(s.win_kind(), Some(WinKind::Mercy));
    assert!(!Score { left: 7, right: 1 }.has_winner());
}

#[test]
fn winning_total_is_exactly_eleven() {
    assert_eq!(MAX_SCORE, 11);
    assert_eq!(MERCY_SCORE, 7);
    assert!(!Score { left: 10, right: 10 }.has_winner());
    let s = Score { left: 10, right: 11 };
    assert!(s.has_winner());
    assert_eq!(s.winner(), Some(PlayerSide::Right));
    assert_eq!(s.win_kind(), Some(WinKind::Game));
}

#[test]
fn left_is_reported_first_when_both_qualify() {
    let s = Score { left: 11, right: 11 };
    assert_eq!(s.winner(), Some(PlayerSide::Left));
}

#[test]
fn record_point_adds_one_to_the_scorer() {
    let mut s = Score { left: 3, right: 4 };
    s.record_point(PlayerSide::Right);
    assert_eq!(s, Score { left: 3, right: 5 });
    s.record_point(PlayerSide::Left);
    assert_eq!(s, Score { left: 4, right: 5 });
}

#[test]
fn reset_and_default_give_nil_all() {
    let mut s = Score { left: 8, right: 2 };
    s.reset();
    assert_eq!(s, Score { left: 0, right: 0 });
    assert_eq!(Score::default(), Score { left: 0, right: 0 });
    assert_eq!(Score::new(), Score { left: 0, right: 0 });
}

#[test]
fn winning_total_labels_a_game_win_even_at_nil() {
    let s = Score { left: 11, right: 0 };
    assert_eq!(s.winner(), Some(PlayerSide::Left));
    assert_eq!(s.win_kind(), Some(WinKind::Game));
    let s = Score { left: 0, right: 12 };
    assert_eq!(s.winner(), Some(PlayerSide::Right));
    assert_eq!(s.win_kind(), Some(WinKind::Game));
    assert_eq!(Score { left: 10, right: 0 }.win_kind(), Some(WinKind::Mercy));
}
