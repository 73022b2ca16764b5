//! The command line: which operation the arguments ask for, and what is
//! said where they ask for none.

use crate::endpoint::Operation;
use crate::report::{line_views, Channel, Line, LineView};
use crate::text::{framed, texts};
use vstd::prelude::*;
use vstd::string::StringExecFns;

verus! {

/// What the arguments ask for.
#[derive(Debug, Clone, PartialEq, Eq)]
pub enum Command {
    /// Run this operation.
    Run(Operation),
    /// The one argument given is no flag that the tool knows.
    UnknownFlag(String),
    /// The arguments are too many, or the program's own name is not there.
    NoCommand,
}

/// A [`Command`] as mathematical values.
pub enum CommandView {
    Run(Operation),
    UnknownFlag(Seq<char>),
    NoCommand,
}

impl View for Command {
    type V = CommandView;

    open spec fn view(&self) -> CommandView {
        match self {
            Command::Run(op) => CommandView::Run(*op),
            Command::UnknownFlag(flag) => CommandView::UnknownFlag(flag@),
            Command::NoCommand => CommandView::NoCommand,
        }
    }
}

/// What an argument vector asks for. The vector begins with the program's
/// name: alone it asks for the status check; with `-r` for the running
/// models; with `-l` for the available models.
pub open spec fn chosen(args: Seq<Seq<char>>) -> CommandView {
    if args.len() == 1 {
        CommandView::Run(Operation::StatusCheck)
    } else if args.len() == 2 {
        if args[1] == "-r"@ {
            CommandView::Run(Operation::RunningModels)
        } else if args[1] == "-l"@ {
            CommandView::Run(Operation::AvailableModels)
        } else {
            CommandView::UnknownFlag(args[1])
        }
    } else {
        CommandView::NoCommand
    }
}

/// Reads the argument vector of the process, program name first.
pub fn select(args: &Vec<String>) -> (command: Command)
    ensures
        command@ == chosen(texts(args@)),
{
    if args.len() == 1 {
        Command::Run(Operation::StatusCheck)
    } else if args.len() == 2 {
        let running: String = String::from_str("-r");
        let available: String = String::from_str("-l");
        if args[1] == running {
            Command::Run(Operation::RunningModels)
        } else if args[1] == available {
            Command::Run(Operation::AvailableModels)
        } else {
            Command::UnknownFlag(args[1].clone())
        }
    } else {
        Command::NoCommand
    }
}

/// The lines of the usage help.
pub open spec fn help_lines() -> Seq<LineView> {
    seq![
        LineView { channel: Channel::Info, text: "Ollama Tool Usage:"@ },
        LineView {
            channel: Channel::Info,
            text: "  No arguments       : Check if Ollama is running"@,
        },
        LineView { channel: Channel::Info, text: "  -r                 : List running models"@ },
        LineView { channel: Channel::Info, text: "  -l                 : List available models"@ },
    ]
}

/// Renders the usage help.
pub fn help_message() -> (lines: Vec<Line>)
    ensures
        line_views(lines@) == help_lines(),
{
    let mut lines: Vec<Line> = Vec::new();
    lines.push(Line::fixed(Channel::Info, "Ollama Tool Usage:"));
    lines.push(Line::fixed(Channel::Info, "  No arguments       : Check if Ollama is running"));
    lines.push(Line::fixed(Channel::Info, "  -r                 : List running models"));
    lines.push(Line::fixed(Channel::Info, "  -l                 : List available models"));
    lines
}

impl CommandView {
    /// What is said before the tool leaves without running an operation: a
    /// warning, then the usage help. Nothing where an operation is run.
    pub open spec fn notice(self) -> Seq<LineView> {
        match self {
            CommandView::Run(_) => Seq::empty(),
            CommandView::UnknownFlag(flag) => seq![
                LineView {
                    channel: Channel::Warn,
                    text: "Unknown flag provided: "@ + flag + ". Exiting."@,
                },
            ] + help_lines(),
            CommandView::NoCommand => seq![
                LineView { channel: Channel::Warn, text: "No valid command provided. Exiting."@ },
            ] + help_lines(),
        }
    }
}

impl Command {
    /// Renders what is said before the tool leaves without running an
    /// operation.
    pub fn notice(&self) -> (lines: Vec<Line>)
        ensures
            line_views(lines@) == self@.notice(),
    {
        let mut lines: Vec<Line> = Vec::new();
        match self {
            Command::Run(_) => {
                return lines;
            },
            Command::UnknownFlag(flag) => {
                lines.push(
                    Line::new(
                        Channel::Warn,
                        framed("Unknown flag provided: ", flag.as_str(), ". Exiting."),
                    ),
                );
            },
            Command::NoCommand => {
                lines.push(Line::fixed(Channel::Warn, "No valid command provided. Exiting."));
            },
        }
        let mut help: Vec<Line> = help_message();
        lines.append(&mut help);
        lines
    }
}

} // verus!
