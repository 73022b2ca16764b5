use ollama_tool::cli::{help_message, select, Command};
use ollama_tool::endpoint::Operation;
use ollama_tool::report::{Channel, Line};

fn args(words: &[&str]) -> Vec<String> {
    words.iter().map(|w| w.to_string()).collect()
}

fn line(channel: Channel, text: &str) -> Line {
    Line { channel, text: text.to_string() }
}

fn help() -> Vec<Line> {
    vec![
        line(Channel::Info, "Ollama Tool Usage:"),
        line(Channel::Info, "  No arguments       : Check if Ollama is running"),
        line(Channel::Info, "  -r                 : List running models"),
        line(Channel::Info, "  -l                 : List available models"),
    ]
}

#[test]
fn no_argument_asks_for_the_status() {
    assert_eq!(select(&args(&["ollama-tool"])), Command::Run(Operation::StatusCheck));
}

#[test]
fn dash_r_asks_for_the_running_models() {
    assert_eq!(select(&args(&["ollama-tool", "-r"])), Command::Run(Operation::RunningModels));
}

#[test]
fn dash_l_asks_for_the_available_models() {
    assert_eq!(select(&args(&["ollama-tool", "-l"])), Command::Run(Operation::AvailableModels));
}

#[test]
fn another_single_argument_is_an_unknown_flag() {
    for flag in ["-x", "", "-R", "-l ", "--list", "-rl", "r"] {
        assert_eq!(select(&args(&["ollama-tool", flag])), Command::UnknownFlag(flag.to_string()));
    }
}

#[test]
fn more_than_one_argument_is_no_command() {
    assert_eq!(select(&args(&["ollama-tool", "-r", "-l"])), Command::NoCommand);
    assert_eq!(select(&args(&["ollama-tool", "-l", "x", "y"])), Command::NoCommand);
}

#[test]
fn an_empty_vector_is_no_command() {
    assert_eq!(select(&Vec::new()), Command::NoCommand);
}

#[test]
fn the_program_name_does_not_count() {
    assert_eq!(select(&args(&["-l"])), Command::Run(Operation::StatusCheck));
    assert_eq!(select(&args(&["-l", "-r"])), Command::Run(Operation::RunningModels));
}

#[test]
fn the_help_has_four_lines() {
    assert_eq!(help_message(), help());
}

#[test]
fn running_an_operation_needs_no_notice() {
    assert_eq!(Command::Run(Operation::StatusCheck).notice(), Vec::new());
}

#[test]
fn an_unknown_flag_is_named_before_the_help() {
    let mut wanted = vec![line(Channel::Warn, "Unknown flag provided: -x. Exiting.")];
    wanted.extend(help());
    assert_eq!(Command::UnknownFlag("-x".to_string()).notice(), wanted);
}

#[test]
fn no_command_is_said_before_the_help() {
    let mut wanted = vec![line(Channel::Warn, "No valid command provided. Exiting.")];
    wanted.extend(help());
    assert_eq!(Command::NoCommand.notice(), wanted);
}
