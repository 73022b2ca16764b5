//! One operation from start to end, as a machine that is fed events.
//!
//! The machine decides; whoever drives it does the work. It is started with
//! [`Event::Launch`], answers each event with the next thing to do, and ends
//! with an [`Outcome`]. It never goes back: a failure is final. An answer
//! is judged in the step that takes it, so the machine does not rest
//! between [`State::Connecting`] and [`State::Decoding`].

use crate::codec::{body_models, decode_body};
use crate::endpoint::{Operation, Strategy};
use crate::error::{OllamaError, OllamaErrorView};
use crate::model::{Models, ModelsView};
use crate::report::{line_views, Channel, Line, LineView};
use crate::status::{is_success, is_success_code};
use crate::text::labelled;
use vstd::prelude::*;

verus! {

/// Where an operation stands.
#[derive(Debug, Clone, Copy, PartialEq, Eq)]
pub enum State {
    /// Nothing has been asked yet.
    Start,
    /// The request is out; no answer yet.
    Connecting,
    /// The daemon answered with success; its body is being read.
    Decoding,
    /// The operation has its result.
    Success,
    /// The daemon could not be reached.
    ConnectFailure,
    /// The daemon answered with a status that is no success.
    StatusFailure,
    /// The body could not be read.
    ReadFailure,
    /// The body is not a model list.
    DecodeFailure,
}

impl State {
    /// A state in which the operation has ended.
    pub open spec fn is_final(self) -> bool {
        !(self is Start || self is Connecting || self is Decoding)
    }

    /// How far the operation has come: every step leads to a higher rank.
    pub open spec fn rank(self) -> nat {
        match self {
            State::Start => 0,
            State::Connecting => 1,
            State::Decoding => 2,
            _ => 3,
        }
    }

    /// Tells whether the operation has ended.
    pub fn ended(&self) -> (b: bool)
        ensures
            b == self.is_final(),
    {
        match self {
            State::Start => false,
            State::Connecting => false,
            State::Decoding => false,
            _ => true,
        }
    }
}

/// What the driver reports to the machine.
#[derive(Debug, Clone, PartialEq, Eq)]
pub enum Event {
    /// The operation is to begin.
    Launch,
    /// The request failed before any answer came, for the cause given.
    Refused(String),
    /// An answer came, with this status code.
    Responded(u16),
    /// Reading the body failed, for the cause given.
    Unreadable(String),
    /// The body, read as text.
    Text(String),
    /// The body, as the bytes that came.
    Bytes(Vec<u8>),
}

/// An [`Event`] as mathematical values.
pub enum EventView {
    Launch,
    Refused(Seq<char>),
    Responded(u16),
    Unreadable(Seq<char>),
    Text(Seq<char>),
    Bytes(Seq<u8>),
}

impl View for Event {
    type V = EventView;

    open spec fn view(&self) -> EventView {
        match self {
            Event::Launch => EventView::Launch,
            Event::Refused(cause) => EventView::Refused(cause@),
            Event::Responded(code) => EventView::Responded(*code),
            Event::Unreadable(cause) => EventView::Unreadable(cause@),
            Event::Text(body) => EventView::Text(body@),
            Event::Bytes(body) => EventView::Bytes(body@),
        }
    }
}

/// How an operation ended.
#[derive(Debug, Clone, PartialEq, Eq)]
pub enum Outcome {
    /// The status check succeeded; the daemon said this.
    Status(String),
    /// The running models were asked for; the daemon said this.
    Running(String),
    /// The available models were asked for; these are they.
    Available(Models),
    /// The operation failed.
    Failed(OllamaError),
}

/// An [`Outcome`] as mathematical values.
pub enum OutcomeView {
    Status(Seq<char>),
    Running(Seq<char>),
    Available(ModelsView),
    Failed(OllamaErrorView),
}

impl View for Outcome {
    type V = OutcomeView;

    open spec fn view(&self) -> OutcomeView {
        match self {
            Outcome::Status(body) => OutcomeView::Status(body@),
            Outcome::Running(body) => OutcomeView::Running(body@),
            Outcome::Available(models) => OutcomeView::Available(models@),
            Outcome::Failed(e) => OutcomeView::Failed(e@),
        }
    }
}

/// What the driver is to do next.
#[derive(Debug, Clone, PartialEq, Eq)]
pub enum Action {
    /// Send one GET request to this address.
    Fetch(String),
    /// Read the body of the answer as text.
    ReadText,
    /// Read the body of the answer as bytes.
    ReadBytes,
    /// Nothing more: the operation has ended so.
    Finish(Outcome),
}

/// An [`Action`] as mathematical values.
pub enum ActionView {
    Fetch(Seq<char>),
    ReadText,
    ReadBytes,
    Finish(OutcomeView),
}

impl View for Action {
    type V = ActionView;

    open spec fn view(&self) -> ActionView {
        match self {
            Action::Fetch(url) => ActionView::Fetch(url@),
            Action::ReadText => ActionView::ReadText,
            Action::ReadBytes => ActionView::ReadBytes,
            Action::Finish(outcome) => ActionView::Finish(outcome@),
        }
    }
}

/// The state that follows an event, and what is to be done then.
#[derive(Debug, Clone, PartialEq, Eq)]
pub struct Step {
    /// The state in which the operation stands now.
    pub next: State,
    /// What the driver is to do now.
    pub action: Action,
}

/// The end of an operation in failure.
pub open spec fn fail(next: State, error: OllamaErrorView) -> Option<(State, ActionView)> {
    Some((next, ActionView::Finish(OutcomeView::Failed(error))))
}

/// The end of an operation in success.
pub open spec fn succeed(outcome: OutcomeView) -> Option<(State, ActionView)> {
    Some((State::Success, ActionView::Finish(outcome)))
}

/// What follows an answer with status `code`: on success the body is read,
/// in the way of the operation; else the operation ends at once.
pub open spec fn after_answer(op: Operation, code: u16) -> Option<(State, ActionView)> {
    if is_success_code(code) {
        match op.reads() {
            Strategy::Text => Some((State::Decoding, ActionView::ReadText)),
            Strategy::Structured => Some((State::Decoding, ActionView::ReadBytes)),
        }
    } else {
        fail(State::StatusFailure, OllamaErrorView::HttpStatusError(code))
    }
}

/// What follows a body read as text: the end, for the two operations that
/// take text.
pub open spec fn after_text(op: Operation, body: Seq<char>) -> Option<(State, ActionView)> {
    match op {
        Operation::StatusCheck => succeed(OutcomeView::Status(body)),
        Operation::RunningModels => succeed(OutcomeView::Running(body)),
        Operation::AvailableModels => None,
    }
}

/// What follows a body that came as bytes: for the operation that lists
/// the available models, the list that the body describes, or the failure
/// to read one.
pub open spec fn after_bytes(op: Operation, body: Seq<u8>) -> Option<(State, ActionView)> {
    match op {
        Operation::AvailableModels => match body_models(body) {
            Ok(models) => succeed(OutcomeView::Available(models)),
            Err(e) => fail(State::DecodeFailure, OllamaErrorView::DecodeError(e)),
        },
        _ => None,
    }
}

/// The transition of the machine: the state and action that follow
/// `event` in `state`, or `None` where the event has no place there.
pub open spec fn transition(op: Operation, state: State, event: EventView) -> Option<
    (State, ActionView),
> {
    match (state, event) {
        (State::Start, EventView::Launch) => Some(
            (State::Connecting, ActionView::Fetch(op.address())),
        ),
        (State::Connecting, EventView::Refused(cause)) => fail(
            State::ConnectFailure,
            OllamaErrorView::ConnectionError(cause),
        ),
        (State::Connecting, EventView::Responded(code)) => after_answer(op, code),
        (State::Decoding, EventView::Unreadable(cause)) => fail(
            State::ReadFailure,
            OllamaErrorView::BodyReadError(cause),
        ),
        (State::Decoding, EventView::Text(body)) => after_text(op, body),
        (State::Decoding, EventView::Bytes(body)) => after_bytes(op, body),
        _ => None,
    }
}

fn failed(next: State, error: OllamaError) -> (step: Option<Step>)
    ensures
        step matches Some(s) && fail(next, error@) == Some((s.next, s.action@)),
{
    Some(Step { next, action: Action::Finish(Outcome::Failed(error)) })
}

fn succeeded(outcome: Outcome) -> (step: Option<Step>)
    ensures
        step matches Some(s) && succeed(outcome@) == Some((s.next, s.action@)),
{
    Some(Step { next: State::Success, action: Action::Finish(outcome) })
}

/// Feeds one event to the machine.
///
/// Returns the state that follows and what the driver is to do next, or
/// `None` where the event has no place in `state`; the machine then stays
/// where it is.
pub fn step(op: Operation, state: State, event: Event) -> (r: Option<Step>)
    ensures
        match r {
            Some(s) => transition(op, state, event@) == Some((s.next, s.action@)),
            None => transition(op, state, event@) is None,
        },
{
    match state {
        State::Start => match event {
            Event::Launch => Some(
                Step { next: State::Connecting, action: Action::Fetch(op.url()) },
            ),
            _ => None,
        },
        State::Connecting => match event {
            Event::Refused(cause) => failed(
                State::ConnectFailure,
                OllamaError::ConnectionError(cause),
            ),
            Event::Responded(code) => {
                if is_success(code) {
                    match op.strategy() {
                        Strategy::Text => Some(
                            Step { next: State::Decoding, action: Action::ReadText },
                        ),
                        Strategy::Structured => Some(
                            Step { next: State::Decoding, action: Action::ReadBytes },
                        ),
                    }
                } else {
                    failed(State::StatusFailure, OllamaError::HttpStatusError(code))
                }
            },
            _ => None,
        },
        State::Decoding => match event {
            Event::Unreadable(cause) => failed(
                State::ReadFailure,
                OllamaError::BodyReadError(cause),
            ),
            Event::Text(body) => match op {
                Operation::StatusCheck => succeeded(Outcome::Status(body)),
                Operation::RunningModels => succeeded(Outcome::Running(body)),
                Operation::AvailableModels => None,
            },
            Event::Bytes(body) => match op {
                Operation::AvailableModels => match decode_body(body.as_slice()) {
                    Ok(models) => succeeded(Outcome::Available(models)),
                    Err(e) => failed(State::DecodeFailure, OllamaError::DecodeError(e)),
                },
                _ => None,
            },
            _ => None,
        },
        _ => None,
    }
}

impl OutcomeView {
    /// What is put out at the end of the operation `op`: the daemon's words
    /// under a heading, the listing of the models, or what is said of the
    /// error.
    pub open spec fn lines(self, op: Operation) -> Seq<LineView> {
        match self {
            OutcomeView::Status(body) => seq![
                LineView { channel: Channel::Info, text: "Ollama status =>  "@ + body },
            ],
            OutcomeView::Running(body) => seq![
                LineView { channel: Channel::Info, text: "Running models =>  "@ + body },
            ],
            OutcomeView::Available(models) => models.listing(),
            OutcomeView::Failed(e) => seq![LineView { channel: Channel::Error, text: e.words(op) }],
        }
    }
}

fn single(line: Line) -> (lines: Vec<Line>)
    ensures
        line_views(lines@) == seq![line@],
{
    let mut lines: Vec<Line> = Vec::new();
    lines.push(line);
    lines
}

/// Renders what is put out at the end of the operation `op`.
pub fn report(op: Operation, outcome: &Outcome) -> (lines: Vec<Line>)
    ensures
        line_views(lines@) == outcome@.lines(op),
{
    match outcome {
        Outcome::Status(body) => single(
            Line::new(Channel::Info, labelled("Ollama status =>  ", body.as_str())),
        ),
        Outcome::Running(body) => single(
            Line::new(Channel::Info, labelled("Running models =>  ", body.as_str())),
        ),
        Outcome::Available(models) => models.listing(),
        Outcome::Failed(e) => single(Line::new(Channel::Error, e.message(op))),
    }
}

/// No way back: an event that the machine takes leads from a state that
/// is not final to one of higher rank, and the machine ends the operation
/// exactly where it reaches a final state.
pub proof fn lemma_steps_advance(op: Operation, state: State, event: EventView)
    requires
        transition(op, state, event) is Some,
    ensures
        !state.is_final(),
        state.rank() < transition(op, state, event)->Some_0.0.rank(),
        transition(op, state, event)->Some_0.0.is_final() <==> transition(
            op,
            state,
            event,
        )->Some_0.1 is Finish,
{
}

/// A final state takes no event.
pub proof fn lemma_final_states_rest(op: Operation, state: State, event: EventView)
    requires
        state.is_final(),
    ensures
        transition(op, state, event) is None,
{
}

/// Short circuit: whatever the operation, an answer whose status is no
/// success ends it at once with that status as the error; no body is read.
pub proof fn lemma_bad_status_ends(op: Operation, code: u16)
    requires
        !is_success_code(code),
    ensures
        transition(op, State::Connecting, EventView::Responded(code)) == fail(
            State::StatusFailure,
            OllamaErrorView::HttpStatusError(code),
        ),
{
}

/// Whatever the operation, a request that reaches no daemon ends it with
/// a connection error that keeps the cause.
pub proof fn lemma_refusal_ends(op: Operation, cause: Seq<char>)
    ensures
        transition(op, State::Connecting, EventView::Refused(cause)) == fail(
            State::ConnectFailure,
            OllamaErrorView::ConnectionError(cause),
        ),
{
}

/// A body that is not a model list ends the listing of the available
/// models with a decode error; no list comes out of it, in part or whole.
pub proof fn lemma_malformed_body_fails(body: Seq<u8>)
    requires
        body_models(body) is Err,
    ensures
        transition(Operation::AvailableModels, State::Decoding, EventView::Bytes(body)) == fail(
            State::DecodeFailure,
            OllamaErrorView::DecodeError(body_models(body)->Err_0),
        ),
{
}

/// A body that is a model list ends the listing of the available models
/// in success with that list, and what is put out is its listing.
pub proof fn lemma_listed_body_succeeds(body: Seq<u8>)
    requires
        body_models(body) is Ok,
    ensures
        transition(Operation::AvailableModels, State::Decoding, EventView::Bytes(body)) == succeed(
            OutcomeView::Available(body_models(body)->Ok_0),
        ),
        OutcomeView::Available(body_models(body)->Ok_0).lines(Operation::AvailableModels)
            == body_models(body)->Ok_0.listing(),
{
}

/// Every operation begins with one request to its own address.
pub proof fn lemma_launch_fetches(op: Operation)
    ensures
        transition(op, State::Start, EventView::Launch) == Some(
            (State::Connecting, ActionView::Fetch(op.address())),
        ),
{
}

/// What the daemon's side holds in store for one operation: how the
/// request fares, and how reading the body fares in either way of reading.
pub struct Exchange {
    /// The status of the answer, or the cause for which none came.
    pub answer: Result<u16, Seq<char>>,
    /// The body read as text, or the cause for which it could not be read.
    pub text: Result<Seq<char>, Seq<char>>,
    /// The body read as bytes, or the cause for which it could not be read.
    pub bytes: Result<Seq<u8>, Seq<char>>,
}

impl Exchange {
    /// What a driver hands back after it has done `action`.
    pub open spec fn reply(self, action: ActionView) -> EventView {
        match action {
            ActionView::Fetch(_) => match self.answer {
                Ok(code) => EventView::Responded(code),
                Err(cause) => EventView::Refused(cause),
            },
            ActionView::ReadText => match self.text {
                Ok(body) => EventView::Text(body),
                Err(cause) => EventView::Unreadable(cause),
            },
            ActionView::ReadBytes => match self.bytes {
                Ok(body) => EventView::Bytes(body),
                Err(cause) => EventView::Unreadable(cause),
            },
            ActionView::Finish(_) => EventView::Launch,
        }
    }

    /// How the operation `op` ends: with the first failure on its way
    /// (no connection, a status that is no success, a body that cannot be
    /// read, a body that is no model list), or else with its full result.
    pub open spec fn outcome(self, op: Operation) -> OutcomeView {
        match self.answer {
            Err(cause) => OutcomeView::Failed(OllamaErrorView::ConnectionError(cause)),
            Ok(code) => if !is_success_code(code) {
                OutcomeView::Failed(OllamaErrorView::HttpStatusError(code))
            } else {
                match op {
                    Operation::StatusCheck => match self.text {
                        Ok(body) => OutcomeView::Status(body),
                        Err(cause) => OutcomeView::Failed(OllamaErrorView::BodyReadError(cause)),
                    },
                    Operation::RunningModels => match self.text {
                        Ok(body) => OutcomeView::Running(body),
                        Err(cause) => OutcomeView::Failed(OllamaErrorView::BodyReadError(cause)),
                    },
                    Operation::AvailableModels => match self.bytes {
                        Err(cause) => OutcomeView::Failed(OllamaErrorView::BodyReadError(cause)),
                        Ok(body) => match body_models(body) {
                            Ok(models) => OutcomeView::Available(models),
                            Err(e) => OutcomeView::Failed(OllamaErrorView::DecodeError(e)),
                        },
                    },
                }
            },
        }
    }
}

/// The outcome that a driver reaches within `steps` steps, when it feeds
/// `event` to the machine in `state` and answers every action from
/// `exchange`; `None` where it reaches none.
pub open spec fn run(
    op: Operation,
    state: State,
    event: EventView,
    exchange: Exchange,
    steps: nat,
) -> Option<OutcomeView>
    decreases steps,
{
    if steps == 0 {
        None
    } else {
        match transition(op, state, event) {
            None => None,
            Some((_, ActionView::Finish(outcome))) => Some(outcome),
            Some((next, action)) => run(
                op,
                next,
                exchange.reply(action),
                exchange,
                (steps - 1) as nat,
            ),
        }
    }
}

/// Whatever the daemon's side holds in store, a driver that launches the
/// machine and answers each action reaches the end within three steps, and
/// the end is the first failure on the way or the full result: nothing in
/// between.
pub proof fn lemma_run_ends(op: Operation, exchange: Exchange)
    ensures
        run(op, State::Start, EventView::Launch, exchange, 3) == Some(exchange.outcome(op)),
{
    reveal_with_fuel(run, 4);
}

} // verus!
