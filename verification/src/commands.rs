//! The bot's commands.
use vstd::prelude::*;

verus! {

/// A command the bot understands.
#[derive(PartialEq, Eq, Clone, Debug)]
pub enum Command {
    /// `/start`
    Start,
    /// `/echo <text>`: echo back the message.
    Echo(String),
    /// `/help`: show the help.
    Help,
}

impl Command {
    /// The command's name, lower-cased as the bot expects it.
    pub fn name(&self) -> (res: &'static str)
        ensures
            res@ == match *self {
                Command::Start => "start"@,
                Command::Echo(_) => "echo"@,
                Command::Help => "help"@,
            },
    {
        match self {
            Command::Start => "start",
            Command::Echo(_) => "echo",
            Command::Help => "help",
        }
    }

    /// The command's description in the help.
    pub fn description(&self) -> (res: &'static str)
        ensures
            res@ == match *self {
                Command::Start => "start"@,
                Command::Echo(_) => "echo back the message"@,
                Command::Help => "show this help"@,
            },
    {
        match self {
            Command::Start => "start",
            Command::Echo(_) => "echo back the message",
            Command::Help => "show this help",
        }
    }
}

} // verus!
