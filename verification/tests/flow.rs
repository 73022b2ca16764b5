use ollama_tool::endpoint::Operation;
use ollama_tool::error::OllamaError;
use ollama_tool::flow::{report, step, Action, Event, Outcome, State, Step};
use ollama_tool::model::{Detail, Model, Models};
use ollama_tool::report::{Channel, Line};
use ollama_tool::shape::{DecodeError, Fault, Field, Place, ShapeError};

const OPERATIONS: [Operation; 3] =
    [Operation::StatusCheck, Operation::RunningModels, Operation::AvailableModels];

const STATES: [State; 8] = [
    State::Start,
    State::Connecting,
    State::Decoding,
    State::Success,
    State::ConnectFailure,
    State::StatusFailure,
    State::ReadFailure,
    State::DecodeFailure,
];

const LLAMA3_BODY: &str = "{\"models\":[{\"name\":\"llama3\",\"model\":\"llama3:latest\",\"modified_at\":\"2024-01-01T00:00:00Z\",\"size\":123,\"digest\":\"abc\",\"details\":{\"parent_model\":\"\",\"format\":\"gguf\",\"family\":\"llama\",\"families\":null,\"parameter_size\":\"8B\",\"quantization_level\":\"Q4_0\"}}]}";

fn events() -> Vec<Event> {
    vec![
        Event::Launch,
        Event::Refused("refused".to_string()),
        Event::Responded(200),
        Event::Responded(404),
        Event::Unreadable("reset".to_string()),
        Event::Text("hello".to_string()),
        Event::Bytes(b"{\"models\":[]}".to_vec()),
    ]
}

fn llama3() -> Model {
    Model {
        name: "llama3".to_string(),
        model: "llama3:latest".to_string(),
        modified_at: "2024-01-01T00:00:00Z".to_string(),
        size: 123,
        digest: "abc".to_string(),
        details: Detail {
            parent_model: String::new(),
            format: "gguf".to_string(),
            family: "llama".to_string(),
            families: None,
            parameter_size: "8B".to_string(),
            quantization_level: "Q4_0".to_string(),
        },
    }
}

fn line(channel: Channel, text: &str) -> Line {
    Line { channel, text: text.to_string() }
}

fn finish(next: State, outcome: Outcome) -> Option<Step> {
    Some(Step { next, action: Action::Finish(outcome) })
}

/// Drives the machine with the events given, one for each action asked.
fn drive(op: Operation, answers: Vec<Event>) -> (State, Outcome, Vec<Action>) {
    let mut state = State::Start;
    let mut asked = Vec::new();
    let mut event = Event::Launch;
    let mut answers = answers.into_iter();
    loop {
        let step = step(op, state, event).expect("event out of place");
        state = step.next;
        match step.action {
            Action::Finish(outcome) => return (state, outcome, asked),
            action => {
                asked.push(action);
                event = answers.next().expect("no answer left");
            }
        }
    }
}

#[test]
fn every_operation_begins_with_one_request_to_its_address() {
    for op in OPERATIONS {
        assert_eq!(
            step(op, State::Start, Event::Launch),
            Some(Step { next: State::Connecting, action: Action::Fetch(op.url()) })
        );
    }
}

#[test]
fn a_refused_connection_ends_every_operation() {
    for op in OPERATIONS {
        assert_eq!(
            step(op, State::Connecting, Event::Refused("connection refused".to_string())),
            finish(
                State::ConnectFailure,
                Outcome::Failed(OllamaError::ConnectionError("connection refused".to_string()))
            )
        );
    }
}

#[test]
fn a_status_of_404_or_500_ends_every_operation_unread() {
    for op in OPERATIONS {
        for code in [404u16, 500] {
            assert_eq!(
                step(op, State::Connecting, Event::Responded(code)),
                finish(State::StatusFailure, Outcome::Failed(OllamaError::HttpStatusError(code)))
            );
            let (state, outcome, asked) = drive(op, vec![Event::Responded(code)]);
            assert_eq!(state, State::StatusFailure);
            assert_eq!(outcome, Outcome::Failed(OllamaError::HttpStatusError(code)));
            assert_eq!(asked, vec![Action::Fetch(op.url())]);
        }
    }
}

#[test]
fn any_status_outside_the_two_hundreds_ends_the_operation() {
    for code in [0u16, 100, 199, 300, 301, 400, 503, 999, u16::MAX] {
        assert_eq!(
            step(Operation::StatusCheck, State::Connecting, Event::Responded(code)),
            finish(State::StatusFailure, Outcome::Failed(OllamaError::HttpStatusError(code)))
        );
    }
}

#[test]
fn a_status_in_the_two_hundreds_has_the_body_read() {
    for code in [200u16, 201, 204, 299] {
        for op in [Operation::StatusCheck, Operation::RunningModels] {
            assert_eq!(
                step(op, State::Connecting, Event::Responded(code)),
                Some(Step { next: State::Decoding, action: Action::ReadText })
            );
        }
        assert_eq!(
            step(Operation::AvailableModels, State::Connecting, Event::Responded(code)),
            Some(Step { next: State::Decoding, action: Action::ReadBytes })
        );
    }
}

#[test]
fn an_unreadable_body_ends_every_operation() {
    for op in OPERATIONS {
        assert_eq!(
            step(op, State::Decoding, Event::Unreadable("reset".to_string())),
            finish(
                State::ReadFailure,
                Outcome::Failed(OllamaError::BodyReadError("reset".to_string()))
            )
        );
    }
}

#[test]
fn the_status_check_ends_with_the_text_of_the_body() {
    let (state, outcome, asked) = drive(
        Operation::StatusCheck,
        vec![Event::Responded(200), Event::Text("Ollama is running".to_string())],
    );
    assert_eq!(state, State::Success);
    assert_eq!(outcome, Outcome::Status("Ollama is running".to_string()));
    assert_eq!(asked, vec![Action::Fetch("http://localhost:11434".to_string()), Action::ReadText]);
}

#[test]
fn the_running_models_end_with_the_text_of_the_body() {
    let (state, outcome, asked) = drive(
        Operation::RunningModels,
        vec![Event::Responded(200), Event::Text("[]".to_string())],
    );
    assert_eq!(state, State::Success);
    assert_eq!(outcome, Outcome::Running("[]".to_string()));
    assert_eq!(
        asked,
        vec![Action::Fetch("http://localhost:11434/models/running".to_string()), Action::ReadText]
    );
}

#[test]
fn the_available_models_end_with_the_list() {
    let (state, outcome, asked) = drive(
        Operation::AvailableModels,
        vec![Event::Responded(200), Event::Bytes(LLAMA3_BODY.as_bytes().to_vec())],
    );
    assert_eq!(state, State::Success);
    assert_eq!(outcome, Outcome::Available(Models { models: vec![llama3()] }));
    assert_eq!(
        asked,
        vec![Action::Fetch("http://localhost:11434/api/tags".to_string()), Action::ReadBytes]
    );
}

#[test]
fn a_body_with_size_as_text_ends_in_a_decode_error() {
    let body = LLAMA3_BODY.replace("\"size\":123", "\"size\":\"123\"");
    let (state, outcome, _) = drive(
        Operation::AvailableModels,
        vec![Event::Responded(200), Event::Bytes(body.into_bytes())],
    );
    assert_eq!(state, State::DecodeFailure);
    assert_eq!(
        outcome,
        Outcome::Failed(OllamaError::DecodeError(DecodeError::Shape(ShapeError {
            place: Place::Member(0, Field::Size),
            fault: Fault::Mistyped,
        })))
    );
}

#[test]
fn a_body_that_is_not_json_ends_in_a_decode_error() {
    let (state, outcome, _) = drive(
        Operation::AvailableModels,
        vec![Event::Responded(200), Event::Bytes(b"Ollama is running".to_vec())],
    );
    assert_eq!(state, State::DecodeFailure);
    assert!(matches!(outcome, Outcome::Failed(OllamaError::DecodeError(DecodeError::Syntax(_)))));
}

#[test]
fn a_body_in_the_wrong_form_has_no_place() {
    assert_eq!(
        step(Operation::AvailableModels, State::Decoding, Event::Text("{}".to_string())),
        None
    );
    for op in [Operation::StatusCheck, Operation::RunningModels] {
        assert_eq!(step(op, State::Decoding, Event::Bytes(b"{\"models\":[]}".to_vec())), None);
    }
}

#[test]
fn an_event_out_of_place_is_not_taken() {
    for op in OPERATIONS {
        for event in events() {
            if event != Event::Launch {
                assert_eq!(step(op, State::Start, event.clone()), None);
            }
            if !matches!(event, Event::Refused(_) | Event::Responded(_)) {
                assert_eq!(step(op, State::Connecting, event.clone()), None);
            }
            if !matches!(event, Event::Unreadable(_) | Event::Text(_) | Event::Bytes(_)) {
                assert_eq!(step(op, State::Decoding, event.clone()), None);
            }
        }
    }
}

#[test]
fn a_final_state_takes_no_event() {
    for op in OPERATIONS {
        for state in STATES {
            if state.ended() {
                for event in events() {
                    assert_eq!(step(op, state, event), None);
                }
            }
        }
    }
}

#[test]
fn only_the_first_three_states_go_on() {
    let open: Vec<State> = STATES.into_iter().filter(|s| !s.ended()).collect();
    assert_eq!(open, vec![State::Start, State::Connecting, State::Decoding]);
}

#[test]
fn the_machine_ends_exactly_in_a_final_state() {
    for op in OPERATIONS {
        for state in STATES {
            for event in events() {
                if let Some(step) = step(op, state, event) {
                    assert!(!state.ended());
                    assert_eq!(step.next.ended(), matches!(step.action, Action::Finish(_)));
                    assert_ne!(step.next, state);
                }
            }
        }
    }
}

#[test]
fn the_status_is_reported_under_its_heading() {
    assert_eq!(
        report(Operation::StatusCheck, &Outcome::Status("Ollama is running".to_string())),
        vec![line(Channel::Info, "Ollama status =>  Ollama is running")]
    );
}

#[test]
fn the_running_models_are_reported_under_their_heading() {
    assert_eq!(
        report(Operation::RunningModels, &Outcome::Running("none".to_string())),
        vec![line(Channel::Info, "Running models =>  none")]
    );
}

#[test]
fn no_available_model_is_reported_in_one_line() {
    let (_, outcome, _) = drive(
        Operation::AvailableModels,
        vec![Event::Responded(200), Event::Bytes(b"{\"models\":[]}".to_vec())],
    );
    assert_eq!(
        report(Operation::AvailableModels, &outcome),
        vec![line(Channel::Info, "No available models found.")]
    );
}

#[test]
fn one_available_model_is_reported_as_one_block() {
    let (_, outcome, _) = drive(
        Operation::AvailableModels,
        vec![Event::Responded(200), Event::Bytes(LLAMA3_BODY.as_bytes().to_vec())],
    );
    assert_eq!(
        report(Operation::AvailableModels, &outcome),
        vec![
            line(Channel::Info, "Available models:"),
            line(Channel::Console, "Model Name: llama3"),
            line(Channel::Console, "Model ID: llama3:latest"),
            line(Channel::Console, "Modified At: 2024-01-01T00:00:00Z"),
            line(Channel::Console, "Size: 123 bytes"),
            line(Channel::Console, "Digest: abc"),
            line(Channel::Console, "Parent Model: "),
            line(Channel::Console, "Format: gguf"),
            line(Channel::Console, "Family: llama"),
            line(Channel::Console, "Parameter Size: 8B"),
            line(Channel::Console, "Quantization Level: Q4_0"),
            line(Channel::Console, "---------------------------"),
        ]
    );
}

#[test]
fn a_failure_is_reported_as_one_error() {
    let failure = Outcome::Failed(OllamaError::HttpStatusError(500));
    assert_eq!(
        report(Operation::RunningModels, &failure),
        vec![line(
            Channel::Error,
            "Failed to retrieve running models. Received status: 500 Internal Server Error"
        )]
    );
    let failure = Outcome::Failed(OllamaError::ConnectionError("refused".to_string()));
    assert_eq!(
        report(Operation::StatusCheck, &failure),
        vec![line(Channel::Error, "Failed to connect to Ollama: refused")]
    );
}
