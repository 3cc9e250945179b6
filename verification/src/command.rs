//! What a player can ask for at the two menus and after an endless round.

use vstd::prelude::*;
use crate::text::{same_text, to_uppercase, trim, trimmed, uppercase_of};

verus! {

/// A request at the first menu: whom to play against, or to leave.
#[derive(Clone, Copy, Debug, PartialEq, Eq, Structural)]
pub enum MenuCommand {
    Quit,
    Help,
    Computer,
    Friend,
    Online,
}

/// A request at the second menu: how the match is scored, or to go back.
#[derive(Clone, Copy, Debug, PartialEq, Eq, Structural)]
pub enum FormatCommand {
    Quit,
    Best,
    Endless,
    Race,
}

/// Whether a trimmed, upper-case text asks to leave.
pub open spec fn names_quit(word: Seq<char>) -> bool {
    word == "ABORT"@ || word == "EXIT"@ || word == "Q"@ || word == "QUIT"@
}

/// The request that a trimmed, upper-case text makes at the first menu.
pub open spec fn menu_named(word: Seq<char>) -> Option<MenuCommand> {
    if names_quit(word) {
        Some(MenuCommand::Quit)
    } else if word == "HELP"@ || word == "H"@ {
        Some(MenuCommand::Help)
    } else if word == "COMPUTER"@ || word == "C"@ {
        Some(MenuCommand::Computer)
    } else if word == "FRIEND"@ || word == "F"@ {
        Some(MenuCommand::Friend)
    } else if word == "ONLINE"@ || word == "O"@ {
        Some(MenuCommand::Online)
    } else {
        None
    }
}

/// The request that a trimmed, upper-case text makes at the second menu.
pub open spec fn format_named(word: Seq<char>) -> Option<FormatCommand> {
    if names_quit(word) {
        Some(FormatCommand::Quit)
    } else if word == "B"@ || word == "BEST"@ || word == "BEST OF N"@ {
        Some(FormatCommand::Best)
    } else if word == "E"@ || word == "ENDLESS"@ {
        Some(FormatCommand::Endless)
    } else if word == "R"@ || word == "RACE"@ || word == "RACE TO N"@ {
        Some(FormatCommand::Race)
    } else {
        None
    }
}

/// Whether a trimmed, upper-case text asks to leave.
pub fn is_quit(word: &str) -> (quit: bool)
    ensures
        quit == names_quit(word@),
{
    same_text(word, "ABORT") || same_text(word, "EXIT") || same_text(word, "Q") || same_text(
        word,
        "QUIT",
    )
}

impl MenuCommand {
    /// Reads a request from a text that is already trimmed and in upper case.
    pub fn from_normalized(word: &str) -> (r: Option<MenuCommand>)
        ensures
            r == menu_named(word@),
    {
        if is_quit(word) {
            Some(MenuCommand::Quit)
        } else if same_text(word, "HELP") || same_text(word, "H") {
            Some(MenuCommand::Help)
        } else if same_text(word, "COMPUTER") || same_text(word, "C") {
            Some(MenuCommand::Computer)
        } else if same_text(word, "FRIEND") || same_text(word, "F") {
            Some(MenuCommand::Friend)
        } else if same_text(word, "ONLINE") || same_text(word, "O") {
            Some(MenuCommand::Online)
        } else {
            None
        }
    }

    /// Reads a request as a player types it, in any case and with white
    /// space around it; `None` for a text that asks for nothing.
    pub fn parse(text: &str) -> (r: Option<MenuCommand>)
        ensures
            r == menu_named(uppercase_of(trimmed(text@))),
    {
        let upper: String = to_uppercase(trim(text));
        MenuCommand::from_normalized(upper.as_str())
    }
}

impl FormatCommand {
    /// Reads a request from a text that is already trimmed and in upper case.
    pub fn from_normalized(word: &str) -> (r: Option<FormatCommand>)
        ensures
            r == format_named(word@),
    {
        if is_quit(word) {
            Some(FormatCommand::Quit)
        } else if same_text(word, "B") || same_text(word, "BEST") || same_text(word, "BEST OF N") {
            Some(FormatCommand::Best)
        } else if same_text(word, "E") || same_text(word, "ENDLESS") {
            Some(FormatCommand::Endless)
        } else if same_text(word, "R") || same_text(word, "RACE") || same_text(word, "RACE TO N") {
            Some(FormatCommand::Race)
        } else {
            None
        }
    }

    /// Reads a request as a player types it, in any case and with white
    /// space around it; `None` for a text that asks for nothing.
    pub fn parse(text: &str) -> (r: Option<FormatCommand>)
        ensures
            r == format_named(uppercase_of(trimmed(text@))),
    {
        let upper: String = to_uppercase(trim(text));
        FormatCommand::from_normalized(upper.as_str())
    }
}

/// Whether a trimmed, upper-case answer asks for another endless round.
pub fn is_yes(word: &str) -> (yes: bool)
    ensures
        yes == (word@ == "Y"@),
{
    same_text(word, "Y")
}

/// Whether the answer to "go on?" asks for another endless round: a `y` in
/// either case, with white space around it.
pub fn wants_another_round(answer: &str) -> (yes: bool)
    ensures
        yes == (uppercase_of(trimmed(answer@)) == "Y"@),
{
    let upper: String = to_uppercase(trim(answer));
    is_yes(upper.as_str())
}

} // verus!
