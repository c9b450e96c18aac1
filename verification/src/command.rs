//! The command line's vocabulary and what each command asks for.

use vstd::prelude::*;
use vstd::string::*;

verus! {

/// The most characters a command line holds.
pub const MAX_COMMAND_LEN: usize = 16;

/// What the status line may tell the user.
#[derive(Clone, Copy, Debug, PartialEq, Eq, Structural)]
pub enum Warning {
    /// Leaving was refused: the buffer has unsaved changes.
    ModifiedBuffer,
    /// The command line is full.
    CommandTooLong,
    /// The command line held no known command.
    InvalidCommand,
    /// Storage did not take the bytes.
    WritingFailed,
}

/// What a command line means.
#[derive(Clone, Copy, Debug, PartialEq, Eq, Structural)]
pub enum CommandKind {
    /// `exit`, `quit`, `q`, `x`
    Quit,
    /// `write`, `w`
    Write,
    /// `wq`, `qw`
    WriteQuit,
    /// Anything else, the empty line included.
    Invalid,
}

/// What the front end has to do for the editor before it goes on.
#[derive(Clone, Copy, Debug, PartialEq, Eq, Structural)]
pub enum Effect {
    Nothing,
    /// Write the buffer's bytes to storage and report how it went with
    /// `Editor::finish_save`, handing `exit` back.
    Save { exit: bool },
}

/// The outcome of one command: what to do outside, what to tell the user,
/// and whether to leave.
#[derive(Clone, Copy, Debug, PartialEq, Eq, Structural)]
pub struct Verdict {
    pub effect: Effect,
    pub warning: Option<Warning>,
    pub exit: bool,
}

impl Warning {
    pub open spec fn message(self) -> Seq<char> {
        match self {
            Warning::ModifiedBuffer => "Modified Buffer"@,
            Warning::CommandTooLong => "Cmd too long"@,
            Warning::InvalidCommand => "Invalid command"@,
            Warning::WritingFailed => "Writing failed"@,
        }
    }

    /// The text shown for this warning.
    pub fn text(self) -> (text: &'static str)
        ensures
            text@ == self.message(),
    {
        match self {
            Warning::ModifiedBuffer => "Modified Buffer",
            Warning::CommandTooLong => "Cmd too long",
            Warning::InvalidCommand => "Invalid command",
            Warning::WritingFailed => "Writing failed",
        }
    }
}

/// Whether `c` can be typed into the command line: a lower-case letter or a
/// digit.
pub open spec fn command_char(c: char) -> bool {
    ('a' <= c && c <= 'z') || ('0' <= c && c <= '9')
}

pub fn is_command_char(c: char) -> (accepted: bool)
    ensures
        accepted == command_char(c),
{
    (c >= 'a' && c <= 'z') || (c >= '0' && c <= '9')
}

pub open spec fn kind_of(text: Seq<char>) -> CommandKind {
    if text == "exit"@ || text == "quit"@ || text == "q"@ || text == "x"@ {
        CommandKind::Quit
    } else if text == "wq"@ || text == "qw"@ {
        CommandKind::WriteQuit
    } else if text == "write"@ || text == "w"@ {
        CommandKind::Write
    } else {
        CommandKind::Invalid
    }
}

/// What `kind` leads to on a buffer that is `dirty` or not. Leaving is
/// refused while changes are unsaved. Writing a clean buffer has succeeded
/// before it began and asks for nothing; writing a dirty one is for the
/// front end to do, and leaving then waits for its result.
pub open spec fn verdict(dirty: bool, kind: CommandKind) -> Verdict {
    match kind {
        CommandKind::Quit => Verdict {
            effect: Effect::Nothing,
            warning: if dirty {
                Some(Warning::ModifiedBuffer)
            } else {
                None
            },
            exit: !dirty,
        },
        CommandKind::WriteQuit => Verdict {
            effect: if dirty {
                Effect::Save { exit: true }
            } else {
                Effect::Nothing
            },
            warning: None,
            exit: !dirty,
        },
        CommandKind::Write => Verdict {
            effect: if dirty {
                Effect::Save { exit: false }
            } else {
                Effect::Nothing
            },
            warning: None,
            exit: false,
        },
        CommandKind::Invalid => Verdict {
            effect: Effect::Nothing,
            warning: Some(Warning::InvalidCommand),
            exit: false,
        },
    }
}

pub fn classify(text: &str) -> (kind: CommandKind)
    ensures
        kind == kind_of(text@),
{
    let line = text.to_owned();
    if line == String::from_str("exit") || line == String::from_str("quit") || line
        == String::from_str("q") || line == String::from_str("x") {
        CommandKind::Quit
    } else if line == String::from_str("wq") || line == String::from_str("qw") {
        CommandKind::WriteQuit
    } else if line == String::from_str("write") || line == String::from_str("w") {
        CommandKind::Write
    } else {
        CommandKind::Invalid
    }
}

/// Interprets the command line `text` for a buffer that is `dirty` or not.
pub fn interpret(dirty: bool, text: &str) -> (outcome: Verdict)
    ensures
        outcome == verdict(dirty, kind_of(text@)),
{
    let kind = classify(text);
    let writes = kind == CommandKind::Write || kind == CommandKind::WriteQuit;
    let leaves = kind == CommandKind::Quit || kind == CommandKind::WriteQuit;
    Verdict {
        effect: if writes && dirty {
            Effect::Save { exit: leaves }
        } else {
            Effect::Nothing
        },
        warning: if kind == CommandKind::Invalid {
            Some(Warning::InvalidCommand)
        } else if dirty && !writes {
            Some(Warning::ModifiedBuffer)
        } else {
            None
        },
        exit: leaves && !dirty,
    }
}

} // verus!
