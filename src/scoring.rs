//! Point counts and the two ways a match is won.
use vstd::prelude::*;
use crate::side::PlayerSide;

verus! {

/// Points that win a match outright.
pub const MAX_SCORE: u32 = 11;

/// A lead of this many points over a scoreless opponent ends the match.
pub const MERCY_SCORE: u32 = 7;

/// How a finished match was won.
#[derive(Clone, Copy, Debug, PartialEq, Eq, Structural)]
pub enum WinKind {
    /// A win by the mercy rule alone: the threshold reached against a
    /// scoreless opponent, short of the winning total.
    Mercy,
    /// A win by reaching the winning total.
    Game,
}

/// Point counts of both players.
#[derive(Clone, Copy, Debug, PartialEq, Eq, Structural)]
pub struct Score {
    pub left: u32,
    pub right: u32,
}

/// True when `side` has won on `s`, by either rule.
pub open spec fn wins(s: Score, side: PlayerSide) -> bool {
    match side {
        PlayerSide::Left => s.left >= MAX_SCORE || (s.left >= MERCY_SCORE && s.right == 0),
        PlayerSide::Right => s.right >= MAX_SCORE || (s.right >= MERCY_SCORE && s.left == 0),
    }
}

impl Score {
    /// Count of `side`.
    pub open spec fn points(self, side: PlayerSide) -> u32 {
        match side {
            PlayerSide::Left => self.left,
            PlayerSide::Right => self.right,
        }
    }

    /// The score after `side` wins one more point.
    pub open spec fn with_point(self, side: PlayerSide) -> Score {
        match side {
            PlayerSide::Left => Score { left: (self.left + 1) as u32, right: self.right },
            PlayerSide::Right => Score { left: self.left, right: (self.right + 1) as u32 },
        }
    }

    /// Either count reached the winning total.
    pub open spec fn normal_win(self) -> bool {
        self.left >= MAX_SCORE || self.right >= MAX_SCORE
    }

    /// One count reached the mercy threshold and the other is zero.
    pub open spec fn mercy_win(self) -> bool {
        (self.left >= MERCY_SCORE && self.right == 0) || (self.right >= MERCY_SCORE && self.left
            == 0)
    }

    /// The match is decided.
    pub open spec fn is_won(self) -> bool {
        self.normal_win() || self.mercy_win()
    }

    /// The side reported as winner; the left side is looked at first.
    pub open spec fn winner_spec(self) -> Option<PlayerSide> {
        if wins(self, PlayerSide::Left) {
            Some(PlayerSide::Left)
        } else if wins(self, PlayerSide::Right) {
            Some(PlayerSide::Right)
        } else {
            None
        }
    }

    /// The label of a decided match: reaching the winning total takes
    /// priority over the mercy rule.
    pub open spec fn win_kind_spec(self) -> Option<WinKind> {
        if !self.is_won() {
            None
        } else if self.normal_win() {
            Some(WinKind::Game)
        } else {
            Some(WinKind::Mercy)
        }
    }

    /// A fresh score, nil all.
    pub fn new() -> (r: Score)
        ensures
            r == (Score { left: 0, right: 0 }),
    {
        Score { left: 0, right: 0 }
    }

    /// Adds one point to `side`.
    pub fn record_point(&mut self, side: PlayerSide)
        requires
            old(self).points(side) < u32::MAX,
        ensures
            *final(self) == old(self).with_point(side),
    {
        match side {
            PlayerSide::Left => self.left = self.left + 1,
            PlayerSide::Right => self.right = self.right + 1,
        }
    }

    /// Sets both counts to zero.
    pub fn reset(&mut self)
        ensures
            *final(self) == (Score { left: 0, right: 0 }),
    {
        self.left = 0;
        self.right = 0;
    }

    /// True if either player has won, by reaching the winning total or by
    /// the mercy rule.
    pub fn has_winner(&self) -> (r: bool)
        ensures
            r == self.is_won(),
    {
        if self.left >= MAX_SCORE || self.right >= MAX_SCORE {
            return true;
        }
        (self.left >= MERCY_SCORE && self.right == 0) || (self.right >= MERCY_SCORE && self.left
            == 0)
    }

    /// The winning side, if there is one.
    pub fn winner(&self) -> (r: Option<PlayerSide>)
        ensures
            r == self.winner_spec(),
            r.is_some() == self.is_won(),
    {
        if self.left >= MAX_SCORE || (self.left >= MERCY_SCORE && self.right == 0) {
            Some(PlayerSide::Left)
        } else if self.right >= MAX_SCORE || (self.right >= MERCY_SCORE && self.left == 0) {
            Some(PlayerSide::Right)
        } else {
            None
        }
    }

    /// Whether a decided match was a game win (the winning total reached) or
    /// a mercy win; `None` while the match is open.
    pub fn win_kind(&self) -> (r: Option<WinKind>)
        ensures
            r == self.win_kind_spec(),
    {
        if !self.has_winner() {
            None
        } else if self.left >= MAX_SCORE || self.right >= MAX_SCORE {
            Some(WinKind::Game)
        } else {
            Some(WinKind::Mercy)
        }
    }
}

impl Default for Score {
    fn default() -> (r: Score)
        ensures
            r == (Score { left: 0, right: 0 }),
    {
        Score::new()
    }
}

/// While neither count reaches the winning total and neither side leads a
/// scoreless opponent at the mercy threshold, nobody has won.
pub proof fn lemma_open_below_thresholds(s: Score)
    requires
        s.left < MAX_SCORE,
        s.right < MAX_SCORE,
        !(s.left >= MERCY_SCORE && s.right == 0),
        !(s.right >= MERCY_SCORE && s.left == 0),
    ensures
        !s.is_won(),
        s.winner_spec().is_none(),
        s.win_kind_spec().is_none(),
{
}

/// A winner is reported exactly when the match is decided, and the side
/// reported has met one of the two winning rules.
pub proof fn lemma_winner_agrees(s: Score)
    ensures
        s.winner_spec().is_some() <==> s.is_won(),
        s.winner_spec() matches Some(w) ==> wins(s, w),
        s.win_kind_spec().is_some() <==> s.is_won(),
{
}

/// Recording a point never lowers either count, and raises exactly the
/// scorer's by one.
pub proof fn lemma_point_monotone(s: Score, side: PlayerSide)
    requires
        s.points(side) < u32::MAX,
    ensures
        s.with_point(side).points(side) == s.points(side) + 1,
        s.with_point(side).points(side.other()) == s.points(side.other()),
        s.with_point(side).left >= s.left,
        s.with_point(side).right >= s.right,
{
}

} // verus!
