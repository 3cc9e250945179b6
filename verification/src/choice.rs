//! The moves, the rule that decides a round, and the parsing of a move.

use vstd::prelude::*;
use crate::text::{
    is_white_space, lemma_trim_ignores_white_space_around, lowercase_of, same_text, to_lowercase,
    trim, trimmed,
};

verus! {

/// Who takes a round.
#[derive(Clone, Copy, Debug, PartialEq, Eq, Structural)]
pub enum Player {
    First,
    Opponent,
    Tie,
}

/// A move.
#[derive(Clone, Copy, Debug, PartialEq, Eq, Structural)]
pub enum Choice {
    Rock,
    Paper,
    Scissors,
}

/// Why a text is no move.
#[derive(Clone, Copy, Debug, PartialEq, Eq, Structural)]
pub enum ParseChoiceError {
    NotValidChoice,
}

/// The rule of the game: rock blunts scissors, paper wraps rock, scissors cut
/// paper.
pub open spec fn beats(a: Choice, b: Choice) -> bool {
    ||| (a == Choice::Rock && b == Choice::Scissors)
    ||| (a == Choice::Paper && b == Choice::Rock)
    ||| (a == Choice::Scissors && b == Choice::Paper)
}

/// Who takes the round in which the first player shows `first` and the
/// opponent shows `second`.
pub open spec fn winner_of(first: Choice, second: Choice) -> Player {
    if beats(first, second) {
        Player::First
    } else if beats(second, first) {
        Player::Opponent
    } else {
        Player::Tie
    }
}

/// The same round seen from the other side of the table.
pub open spec fn swapped(outcome: Player) -> Player {
    match outcome {
        Player::First => Player::Opponent,
        Player::Opponent => Player::First,
        Player::Tie => Player::Tie,
    }
}

/// The move that a trimmed, lower-case text names: the full word or its
/// first letter.
pub open spec fn choice_named(word: Seq<char>) -> Option<Choice> {
    if word == "rock"@ || word == "r"@ {
        Some(Choice::Rock)
    } else if word == "paper"@ || word == "p"@ {
        Some(Choice::Paper)
    } else if word == "scissors"@ || word == "s"@ {
        Some(Choice::Scissors)
    } else {
        None
    }
}

/// The move that a typed text names, white space around it and the case of
/// its letters set aside.
pub open spec fn parsed_choice(text: Seq<char>) -> Option<Choice> {
    choice_named(lowercase_of(trimmed(text)))
}

/// The move that a drawn number stands for.
pub open spec fn choice_at(n: i32) -> Choice {
    if n == 0 {
        Choice::Rock
    } else if n == 1 {
        Choice::Paper
    } else {
        Choice::Scissors
    }
}

impl Choice {
    /// The place of the move in the order rock, paper, scissors.
    pub open spec fn ordinal_spec(self) -> nat {
        match self {
            Choice::Rock => 0,
            Choice::Paper => 1,
            Choice::Scissors => 2,
        }
    }

    /// The place of the move in the order rock, paper, scissors.
    pub fn ordinal(&self) -> (n: u8)
        ensures
            n == self.ordinal_spec(),
    {
        match self {
            Choice::Rock => 0,
            Choice::Paper => 1,
            Choice::Scissors => 2,
        }
    }

    /// Decides a round. Rock against scissors is settled first; every other
    /// pair goes by the order of the moves, the later move winning.
    pub fn get_winner(first: &Choice, second: &Choice) -> (winner: Player)
        ensures
            winner == winner_of(*first, *second),
            (winner == Player::Tie) == (*first == *second),
    {
        match (first, second) {
            (Choice::Rock, Choice::Scissors) => Player::First,
            (Choice::Scissors, Choice::Rock) => Player::Opponent,
            (_, _) => {
                let a: u8 = first.ordinal();
                let b: u8 = second.ordinal();
                if a < b {
                    Player::Opponent
                } else if a > b {
                    Player::First
                } else {
                    Player::Tie
                }
            },
        }
    }

    /// Reads a move from a text that is already trimmed and in lower case.
    pub fn from_normalized(word: &str) -> (r: Result<Choice, ParseChoiceError>)
        ensures
            match choice_named(word@) {
                Some(c) => r == Ok::<Choice, ParseChoiceError>(c),
                None => r == Err::<Choice, ParseChoiceError>(ParseChoiceError::NotValidChoice),
            },
    {
        if same_text(word, "rock") || same_text(word, "r") {
            Ok(Choice::Rock)
        } else if same_text(word, "paper") || same_text(word, "p") {
            Ok(Choice::Paper)
        } else if same_text(word, "scissors") || same_text(word, "s") {
            Ok(Choice::Scissors)
        } else {
            Err(ParseChoiceError::NotValidChoice)
        }
    }

    /// Reads a move as a player types it: `rock`, `paper`, `scissors` or the
    /// first letter of one of them, in any case, with white space around it.
    pub fn parse(text: &str) -> (r: Result<Choice, ParseChoiceError>)
        ensures
            match parsed_choice(text@) {
                Some(c) => r == Ok::<Choice, ParseChoiceError>(c),
                None => r == Err::<Choice, ParseChoiceError>(ParseChoiceError::NotValidChoice),
            },
    {
        let lowered: String = to_lowercase(trim(text));
        Choice::from_normalized(lowered.as_str())
    }

    /// The move for a number drawn from zero up to, not including, three.
    pub fn from_index(n: i32) -> (c: Choice)
        ensures
            c == choice_at(n),
    {
        match n {
            0 => Choice::Rock,
            1 => Choice::Paper,
            _ => Choice::Scissors,
        }
    }
}

impl std::str::FromStr for Choice {
    type Err = ParseChoiceError;

    fn from_str(string: &str) -> (r: Result<Choice, ParseChoiceError>)
        ensures
            match parsed_choice(string@) {
                Some(c) => r == Ok::<Choice, ParseChoiceError>(c),
                None => r == Err::<Choice, ParseChoiceError>(ParseChoiceError::NotValidChoice),
            },
    {
        Choice::parse(string)
    }
}

/// Swapping the two players' moves swaps the winner, and a round is tied
/// exactly when both show the same move.
pub proof fn lemma_winner_swaps(a: Choice, b: Choice)
    ensures
        winner_of(b, a) == swapped(winner_of(a, b)),
        a != b ==> winner_of(a, b) != Player::Tie,
        a == b ==> winner_of(a, b) == Player::Tie && winner_of(b, a) == Player::Tie,
{
}

/// White space before or after a typed move changes nothing in how it is
/// read.
pub proof fn lemma_parse_ignores_white_space_around(text: Seq<char>, c: char)
    requires
        is_white_space(c),
    ensures
        parsed_choice(seq![c] + text) == parsed_choice(text),
        parsed_choice(text.push(c)) == parsed_choice(text),
{
    lemma_trim_ignores_white_space_around(text, c);
}

} // verus!
