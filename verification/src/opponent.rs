//! Where the second player's move comes from: a random draw for the computer,
//! a fixed move for the two stand-ins, and the round played against each.

use vstd::prelude::*;
use rand::Rng;
use crate::choice::{choice_at, winner_of, Choice, Player};
use crate::game::{MatchState, Progress};

verus! {

#[verifier::external_type_specification]
#[verifier::external_body]
pub struct ExThreadRng(rand::rngs::ThreadRng);

/// Trusted: `rand::thread_rng`. It hands out the calling thread's generator;
/// nothing is claimed of it.
#[verifier::external_body]
pub(crate) fn thread_rng() -> (rng: rand::rngs::ThreadRng) {
    rand::thread_rng()
}

/// Trusted: `rand::Rng::gen_range` on `i32`. The number drawn lies between
/// `low` and `high`, `low` included and `high` not; which one it is, nothing
/// says. The call panics unless `low < high`.
#[verifier::external_body]
pub(crate) fn gen_range(rng: &mut rand::rngs::ThreadRng, low: i32, high: i32) -> (n: i32)
    requires
        low < high,
    ensures
        low <= n < high,
{
    rng.gen_range(low, high)
}

/// Draws a move, each of the three being as likely as the others.
pub fn sample(rng: &mut rand::rngs::ThreadRng) -> (c: Choice)
    ensures
        exists|n: i32| 0 <= n < 3 && c == choice_at(n),
{
    let n: i32 = gen_range(rng, 0, 3);
    Choice::from_index(n)
}

/// The computer, which draws its moves.
#[derive(Debug)]
pub struct Computer {
    pub turn: Player,
}

/// A friend at the same keyboard; for now it always shows rock.
#[derive(Debug)]
pub struct Friend {
    pub turn: Player,
}

/// A stranger on the network; for now it always shows rock.
#[derive(Debug)]
pub struct Online {
    pub turn: Player,
}

impl Default for Computer {
    fn default() -> (handler: Computer)
        ensures
            handler.turn == Player::First,
    {
        Computer { turn: Player::First }
    }
}

impl Default for Friend {
    fn default() -> (handler: Friend)
        ensures
            handler.turn == Player::First,
    {
        Friend { turn: Player::First }
    }
}

impl Default for Online {
    fn default() -> (handler: Online)
        ensures
            handler.turn == Player::First,
    {
        Online { turn: Player::First }
    }
}

/// A kind of second player.
pub trait GameHandler {
    /// The move that this kind of opponent always makes, if it has one.
    spec fn fixed_move() -> Option<Choice>;

    /// The second player's move for the round at hand.
    fn get_second_players_turn() -> (c: Choice)
        ensures
            Self::fixed_move() matches Some(m) ==> c == m,
    ;
}

impl GameHandler for Computer {
    open spec fn fixed_move() -> Option<Choice> {
        None
    }

    fn get_second_players_turn() -> (c: Choice) {
        let mut rng = thread_rng();
        sample(&mut rng)
    }
}

impl GameHandler for Friend {
    open spec fn fixed_move() -> Option<Choice> {
        Some(Choice::Rock)
    }

    fn get_second_players_turn() -> (c: Choice) {
        Choice::Rock
    }
}

impl GameHandler for Online {
    open spec fn fixed_move() -> Option<Choice> {
        Some(Choice::Rock)
    }

    fn get_second_players_turn() -> (c: Choice) {
        Choice::Rock
    }
}

/// What is owed of a round against an opponent of kind `fixed`: against a
/// fixed move the rule decides; against a drawn move the outcome is that of
/// the rule for one of the three moves.
pub open spec fn round_outcome(fixed: Option<Choice>, first: Choice, outcome: Player) -> bool {
    match fixed {
        Some(m) => outcome == winner_of(first, m),
        None => exists|second: Choice| outcome == winner_of(first, second),
    }
}

/// Plays one round: the first player's move against the move that the
/// opponent of kind `H` makes.
pub fn play_a_round<H: GameHandler>(first: Choice) -> (outcome: Player)
    ensures
        round_outcome(H::fixed_move(), first, outcome),
{
    let second: Choice = H::get_second_players_turn();
    let outcome: Player = Choice::get_winner(&first, &second);
    outcome
}

/// Plays one round of a match against an opponent of kind `H` and scores it.
/// Returns who took the round and whether the match goes on.
pub fn play_and_record<H: GameHandler>(state: &mut MatchState, first: Choice) -> (r: (
    Player,
    Progress,
))
    ensures
        round_outcome(H::fixed_move(), first, r.0),
        *final(state) == old(state).after(r.0),
        r.1 == final(state).progress(),
{
    let outcome: Player = play_a_round::<H>(first);
    let next: Progress = state.record(outcome);
    (outcome, next)
}

/// Against the two stand-ins, which always show rock, paper wins the round,
/// scissors lose it and rock ties.
pub proof fn lemma_round_against_rock(first: Choice, outcome: Player)
    requires
        round_outcome(Some(Choice::Rock), first, outcome),
    ensures
        first == Choice::Paper <==> outcome == Player::First,
        first == Choice::Scissors <==> outcome == Player::Opponent,
        first == Choice::Rock <==> outcome == Player::Tie,
{
}

} // verus!
