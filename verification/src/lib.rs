//! Rock-paper-scissors: the rule that decides a round, the parsing of what a
//! player types, the sources of the second player's move, and the score
//! keeping of a match, each with a verified contract.

pub mod text;
pub mod choice;
pub mod opponent;
pub mod game;
pub mod command;
