//! A match: two scores that race to a goal, one round at a time.

use vstd::prelude::*;
use crate::choice::Player;
use crate::text::{
    all_digits, decimal_value, is_digit, is_white_space, lemma_trim_ignores_white_space_around,
    parse_u32, parsed_u32, trim, trimmed, unsigned_part,
};

verus! {

/// Why a text is no goal.
#[derive(Clone, Copy, Debug, PartialEq, Eq, Structural)]
pub enum InvalidNumberError {
    /// The text is not a number that fits.
    NotANumber,
    /// The text denotes zero, and a match needs a goal of at least one.
    NotPositive,
}

/// What the match asks for after a round.
#[derive(Clone, Copy, Debug, PartialEq, Eq, Structural)]
pub enum Progress {
    /// Nobody has reached the goal: play another round.
    Continue,
    /// The named player has reached the goal.
    MatchOver(Player),
}

/// The scores of the two players and the score that ends the match.
#[derive(Clone, Copy, Debug, PartialEq, Eq, Structural)]
pub struct MatchState {
    pub score1: u32,
    pub score2: u32,
    pub goal: u32,
}

/// The goal that a typed text names: a positive number, white space around
/// it set aside.
pub open spec fn goal_named(text: Seq<char>) -> Result<u32, InvalidNumberError> {
    match parsed_u32(trimmed(text)) {
        None => Err(InvalidNumberError::NotANumber),
        Some(n) => if n == 0 {
            Err(InvalidNumberError::NotPositive)
        } else {
            Ok(n)
        },
    }
}

/// Whether a numeral, with or without a plus sign, denotes zero.
pub open spec fn denotes_zero(s: Seq<char>) -> bool {
    let digits = unsigned_part(s);
    digits.len() > 0 && all_digits(digits) && decimal_value(digits) == 0
}

/// Reads the goal of a match as a player types it.
pub fn parse_goal(text: &str) -> (r: Result<u32, InvalidNumberError>)
    ensures
        r == goal_named(text@),
        r matches Ok(n) ==> n > 0,
{
    match parse_u32(trim(text)) {
        Err(_) => Err(InvalidNumberError::NotANumber),
        Ok(n) => {
            if n == 0 {
                Err(InvalidNumberError::NotPositive)
            } else {
                Ok(n)
            }
        },
    }
}

/// No text yields a goal of zero: a numeral that denotes zero is turned away
/// as not positive, and one with a minus sign as no number at all.
pub proof fn lemma_goal_is_positive(text: Seq<char>)
    ensures
        goal_named(text) matches Ok(n) ==> n > 0,
        denotes_zero(trimmed(text)) ==> goal_named(text) == Err::<u32, InvalidNumberError>(
            InvalidNumberError::NotPositive,
        ),
        trimmed(text).len() > 0 && trimmed(text)[0] == '-' ==> goal_named(text) == Err::<
            u32,
            InvalidNumberError,
        >(InvalidNumberError::NotANumber),
{
    let s = trimmed(text);
    if s.len() > 0 && s[0] == '-' {
        assert(unsigned_part(s) == s);
        assert(!is_digit(s[0]));
        assert(!all_digits(s));
    }
}

/// White space before or after a typed goal changes nothing in how it is
/// read.
pub proof fn lemma_goal_ignores_white_space_around(text: Seq<char>, c: char)
    requires
        is_white_space(c),
    ensures
        goal_named(seq![c] + text) == goal_named(text),
        goal_named(text.push(c)) == goal_named(text),
{
    lemma_trim_ignores_white_space_around(text, c);
}

impl MatchState {
    /// The scores never pass the goal, the goal is positive, and at most one
    /// player has reached it.
    pub open spec fn wf(self) -> bool {
        &&& self.goal > 0
        &&& self.score1 <= self.goal
        &&& self.score2 <= self.goal
        &&& (self.score1 < self.goal || self.score2 < self.goal)
    }

    /// Whether a player has reached the goal.
    pub open spec fn over(self) -> bool {
        self.score1 >= self.goal || self.score2 >= self.goal
    }

    /// The player who has reached the goal, if one has.
    pub open spec fn winner_spec(self) -> Option<Player> {
        if self.score1 >= self.goal {
            Some(Player::First)
        } else if self.score2 >= self.goal {
            Some(Player::Opponent)
        } else {
            None
        }
    }

    /// What the match asks for in this state.
    pub open spec fn progress(self) -> Progress {
        match self.winner_spec() {
            Some(w) => Progress::MatchOver(w),
            None => Progress::Continue,
        }
    }

    /// The state after one more round: the winner of the round scores one
    /// point, a tie scores none, and a match that is over stays as it is.
    pub open spec fn after(self, outcome: Player) -> MatchState {
        if self.over() {
            self
        } else {
            match outcome {
                Player::First => MatchState { score1: (self.score1 + 1) as u32, ..self },
                Player::Opponent => MatchState { score2: (self.score2 + 1) as u32, ..self },
                Player::Tie => self,
            }
        }
    }

    /// The state after a run of rounds.
    pub open spec fn after_all(self, outcomes: Seq<Player>) -> MatchState
        decreases outcomes.len(),
    {
        if outcomes.len() == 0 {
            self
        } else {
            self.after_all(outcomes.drop_last()).after(outcomes.last())
        }
    }

    /// A match that the first player to score `goal` points wins.
    pub fn race(goal: u32) -> (state: MatchState)
        requires
            goal > 0,
        ensures
            state == (MatchState { score1: 0, score2: 0, goal }),
            state.wf(),
            !state.over(),
    {
        MatchState { score1: 0, score2: 0, goal }
    }

    /// A match over at most `rounds` decided rounds, which the first player
    /// to win more than half of them wins.
    pub fn best_of(rounds: u32) -> (state: MatchState)
        requires
            rounds > 0,
        ensures
            state == (MatchState { score1: 0, score2: 0, goal: (rounds / 2 + 1) as u32 }),
            2 * state.goal > rounds,
            2 * (state.goal - 1) <= rounds,
            state.wf(),
            !state.over(),
    {
        MatchState { score1: 0, score2: 0, goal: rounds / 2 + 1 }
    }

    /// Whether a player has reached the goal.
    pub fn is_over(&self) -> (over: bool)
        ensures
            over == self.over(),
    {
        self.score1 >= self.goal || self.score2 >= self.goal
    }

    /// The player who has reached the goal, if one has.
    pub fn winner(&self) -> (w: Option<Player>)
        ensures
            w == self.winner_spec(),
            w.is_some() == self.over(),
            w != Some(Player::Tie),
    {
        if self.score1 >= self.goal {
            Some(Player::First)
        } else if self.score2 >= self.goal {
            Some(Player::Opponent)
        } else {
            None
        }
    }

    /// Scores one round and says whether the match goes on.
    pub fn record(&mut self, outcome: Player) -> (next: Progress)
        ensures
            *final(self) == old(self).after(outcome),
            next == final(self).progress(),
            final(self).score1 >= old(self).score1,
            final(self).score2 >= old(self).score2,
            old(self).wf() ==> final(self).wf(),
    {
        if !self.is_over() {
            match outcome {
                Player::First => {
                    self.score1 = self.score1 + 1;
                },
                Player::Opponent => {
                    self.score2 = self.score2 + 1;
                },
                Player::Tie => {},
            }
        }
        match self.winner() {
            Some(w) => Progress::MatchOver(w),
            None => Progress::Continue,
        }
    }

    /// Scores a run of rounds, in order. Rounds that come after the match is
    /// over count for nothing.
    pub fn record_all(&mut self, outcomes: &[Player]) -> (next: Progress)
        ensures
            *final(self) == old(self).after_all(outcomes@),
            next == final(self).progress(),
    {
        let mut i: usize = 0;
        proof {
            assert(outcomes@.take(0).len() == 0);
        }
        while i < outcomes.len()
            invariant
                i <= outcomes.len(),
                *self == old(self).after_all(outcomes@.take(i as int)),
            decreases outcomes.len() - i,
        {
            proof {
                let upto = outcomes@.take(i + 1);
                assert(upto.drop_last() =~= outcomes@.take(i as int));
                assert(upto.last() == outcomes@[i as int]);
            }
            self.record(outcomes[i]);
            i += 1;
        }
        proof {
            assert(outcomes@.take(i as int) =~= outcomes@);
        }
        match self.winner() {
            Some(w) => Progress::MatchOver(w),
            None => Progress::Continue,
        }
    }
}

/// Through any run of rounds no score ever falls, the goal stays what it
/// was, a well-formed match stays well formed, and a match that is over
/// stays exactly as it ended.
pub proof fn lemma_scores_never_fall(state: MatchState, outcomes: Seq<Player>)
    ensures
        state.after_all(outcomes).score1 >= state.score1,
        state.after_all(outcomes).score2 >= state.score2,
        state.after_all(outcomes).goal == state.goal,
        state.wf() ==> state.after_all(outcomes).wf(),
        state.over() ==> state.after_all(outcomes) == state,
    decreases outcomes.len(),
{
    if outcomes.len() > 0 {
        lemma_scores_never_fall(state, outcomes.drop_last());
    }
}

/// A round moves the two scores together by one point when it has a winner
/// and the match is still on, and by nothing otherwise.
pub proof fn lemma_round_scores_one_point(state: MatchState, outcome: Player)
    ensures
        ({
            let next = state.after(outcome);
            next.score1 + next.score2 - (state.score1 + state.score2) == (if !state.over()
                && outcome != Player::Tie {
                1int
            } else {
                0int
            })
        }),
{
}

/// The number of rounds in a run that had a winner.
pub open spec fn decided(outcomes: Seq<Player>) -> nat
    decreases outcomes.len(),
{
    if outcomes.len() == 0 {
        0
    } else {
        decided(outcomes.drop_last()) + (if outcomes.last() == Player::Tie {
            0nat
        } else {
            1nat
        })
    }
}

/// While a match is on, every round with a winner has scored exactly one
/// point: the two scores together have grown by the number of such rounds.
pub proof fn lemma_points_count_decided_rounds(state: MatchState, outcomes: Seq<Player>)
    ensures
        ({
            let end = state.after_all(outcomes);
            !end.over() ==> end.score1 + end.score2 == state.score1 + state.score2 + decided(
                outcomes,
            )
        }),
    decreases outcomes.len(),
{
    if outcomes.len() > 0 {
        lemma_points_count_decided_rounds(state, outcomes.drop_last());
    }
}

/// A match ends: once the rounds with a winner number twice the goal less
/// one, counting the points already scored, a player has reached the goal.
pub proof fn lemma_match_ends(state: MatchState, outcomes: Seq<Player>)
    requires
        state.wf(),
        state.score1 + state.score2 + decided(outcomes) >= 2 * state.goal - 1,
    ensures
        state.after_all(outcomes).over(),
        state.after_all(outcomes).winner_spec().is_some(),
{
    lemma_points_count_decided_rounds(state, outcomes);
    lemma_scores_never_fall(state, outcomes);
}

/// A match over an odd number of rounds is settled by the time that many
/// rounds have had a winner.
pub proof fn lemma_best_of_odd_ends_in_time(rounds: u32, outcomes: Seq<Player>)
    requires
        rounds % 2 == 1,
        decided(outcomes) >= rounds,
    ensures
        (MatchState { score1: 0, score2: 0, goal: (rounds / 2 + 1) as u32 }).after_all(
            outcomes,
        ).over(),
{
    let start = MatchState { score1: 0, score2: 0, goal: (rounds / 2 + 1) as u32 };
    lemma_match_ends(start, outcomes);
}

/// In a well-formed match that is over, exactly one player holds the goal,
/// and that player is the winner.
pub proof fn lemma_one_winner(state: MatchState)
    requires
        state.wf(),
        state.over(),
    ensures
        state.winner_spec() == Some(Player::First) <==> state.score1 == state.goal,
        state.winner_spec() == Some(Player::Opponent) <==> state.score2 == state.goal,
        (state.score1 == state.goal) != (state.score2 == state.goal),
{
}

} // verus!
