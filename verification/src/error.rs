//! The ways in which an operation can fail, and what is said of each.

use crate::endpoint::Operation;
use crate::shape::{DecodeError, DecodeErrorView};
use crate::status::{status_text, status_words};
use crate::text::labelled;
use vstd::prelude::*;

verus! {

/// Why an operation did not come to its result.
#[derive(Debug, Clone, PartialEq, Eq)]
pub enum OllamaError {
    /// The daemon could not be reached; the transport's cause is kept.
    ConnectionError(String),
    /// The daemon answered with a status outside 200..=299.
    HttpStatusError(u16),
    /// The body of the answer could not be read; the cause is kept.
    BodyReadError(String),
    /// The body of the answer is not a model list.
    DecodeError(DecodeError),
}

/// An [`OllamaError`] as mathematical values.
pub enum OllamaErrorView {
    ConnectionError(Seq<char>),
    HttpStatusError(u16),
    BodyReadError(Seq<char>),
    DecodeError(DecodeErrorView),
}

impl View for OllamaError {
    type V = OllamaErrorView;

    open spec fn view(&self) -> OllamaErrorView {
        match self {
            OllamaError::ConnectionError(cause) => OllamaErrorView::ConnectionError(cause@),
            OllamaError::HttpStatusError(code) => OllamaErrorView::HttpStatusError(*code),
            OllamaError::BodyReadError(cause) => OllamaErrorView::BodyReadError(cause@),
            OllamaError::DecodeError(e) => OllamaErrorView::DecodeError(e@),
        }
    }
}

/// What is said before the status that an operation was refused with.
pub open spec fn refusal_opening(op: Operation) -> Seq<char> {
    match op {
        Operation::StatusCheck => "Ollama is not running. Received status: "@,
        Operation::RunningModels => "Failed to retrieve running models. Received status: "@,
        Operation::AvailableModels => "Failed to retrieve available models. Received status: "@,
    }
}

impl OllamaErrorView {
    /// What is said of the error when it ends the operation `op`.
    pub open spec fn words(self, op: Operation) -> Seq<char> {
        match self {
            OllamaErrorView::ConnectionError(cause) => "Failed to connect to Ollama: "@ + cause,
            OllamaErrorView::HttpStatusError(code) => refusal_opening(op) + status_words(code),
            OllamaErrorView::BodyReadError(cause) => "Failed to read response text: "@ + cause,
            OllamaErrorView::DecodeError(e) => "Failed to read response text: "@ + e.words(),
        }
    }
}

impl OllamaError {
    /// Words the error for the operation that it ended.
    pub fn message(&self, op: Operation) -> (text: String)
        ensures
            text@ == self@.words(op),
    {
        match self {
            OllamaError::ConnectionError(cause) => labelled(
                "Failed to connect to Ollama: ",
                cause.as_str(),
            ),
            OllamaError::HttpStatusError(code) => {
                let status: String = status_text(*code);
                match op {
                    Operation::StatusCheck => labelled(
                        "Ollama is not running. Received status: ",
                        status.as_str(),
                    ),
                    Operation::RunningModels => labelled(
                        "Failed to retrieve running models. Received status: ",
                        status.as_str(),
                    ),
                    Operation::AvailableModels => labelled(
                        "Failed to retrieve available models. Received status: ",
                        status.as_str(),
                    ),
                }
            },
            OllamaError::BodyReadError(cause) => labelled(
                "Failed to read response text: ",
                cause.as_str(),
            ),
            OllamaError::DecodeError(e) => {
                let said: String = e.message();
                labelled("Failed to read response text: ", said.as_str())
            },
        }
    }
}

} // verus!
