//! The commands that the bot answers.

use vstd::prelude::*;
use crate::text::same_text;

pub mod about;
pub mod check_rate;

verus! {

/// The commands, and what stands for a name that is none of them.
#[derive(Debug, Clone, Copy, PartialEq, Eq, Structural)]
pub enum Command {
    CheckRate,
    About,
    Unknown,
}

/// What is answered to a command that is not known.
pub const NOT_IMPLEMENTED: &'static str = "not implemented :(";

/// The command that a name stands for.
pub open spec fn named(name: Seq<char>) -> Command {
    if name == check_rate::COMMAND_NAME@ {
        Command::CheckRate
    } else if name == about::COMMAND_NAME@ {
        Command::About
    } else {
        Command::Unknown
    }
}

/// Finds the command of a name.
pub fn command_named(name: &str) -> (r: Command)
    ensures
        r == named(name@),
{
    if same_text(name, check_rate::COMMAND_NAME) {
        Command::CheckRate
    } else if same_text(name, about::COMMAND_NAME) {
        Command::About
    } else {
        Command::Unknown
    }
}

} // verus!
