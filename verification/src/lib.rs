//! Verified core of a command-line client for a local Ollama daemon.
//!
//! The client asks the daemon one of three things: whether it is up, which
//! models it has loaded, which models are available. This library holds
//! every decision of the client and each text that it puts out; sending the
//! request, reading the answer and printing are left to the program that
//! drives it.
//!
//! - [`cli`] reads the argument vector into a command.
//! - [`endpoint`] knows the daemon's address and what each operation asks.
//! - [`flow`] is the course of one operation, as a machine fed with events,
//!   and the report of how it ended.
//! - [`status`] tells which status codes mean success and words a code.
//! - [`json`] reads JSON text into a tree; [`codec`] reads the model list
//!   out of such a tree and writes one back; [`shape`] names the places
//!   where a tree can fall short.
//! - [`model`] is the model list itself and how it is shown.
//! - [`report`], [`error`], [`decimal`] and [`text`] are the lines put out,
//!   the failures, and the writing of numbers and texts.

pub mod cli;
pub mod codec;
pub mod decimal;
pub mod endpoint;
pub mod error;
pub mod flow;
pub mod json;
pub mod model;
pub mod report;
pub mod shape;
pub mod status;
pub mod text;
