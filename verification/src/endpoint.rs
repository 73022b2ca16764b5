//! Where the daemon listens, and what each operation asks of it.

use vstd::prelude::*;
use vstd::string::StringExecFns;

verus! {

/// The base address of the daemon, as text.
pub open spec fn base_url() -> Seq<char> {
    "http://localhost:11434"@
}

/// Returns the fixed base address of the daemon.
pub fn ollama_url() -> (url: String)
    ensures
        url@ == base_url(),
{
    String::from_str("http://localhost:11434")
}

/// How the body of a successful response is read.
#[derive(Debug, Clone, Copy, PartialEq, Eq)]
pub enum Strategy {
    /// The body is taken as text, whatever it says.
    Text,
    /// The body is JSON that lists the available models.
    Structured,
}

/// One of the three requests that the client can make.
#[derive(Debug, Clone, Copy, PartialEq, Eq)]
pub enum Operation {
    /// Ask whether the daemon is up.
    StatusCheck,
    /// Ask which models are loaded.
    RunningModels,
    /// Ask which models are available.
    AvailableModels,
}

impl Operation {
    /// The path that follows the base address.
    pub open spec fn suffix(self) -> Seq<char> {
        match self {
            Operation::StatusCheck => ""@,
            Operation::RunningModels => "/models/running"@,
            Operation::AvailableModels => "/api/tags"@,
        }
    }

    /// The address that the operation requests: base address, then path.
    pub open spec fn address(self) -> Seq<char> {
        base_url() + self.suffix()
    }

    /// How the operation reads a successful response.
    pub open spec fn reads(self) -> Strategy {
        match self {
            Operation::StatusCheck => Strategy::Text,
            Operation::RunningModels => Strategy::Text,
            Operation::AvailableModels => Strategy::Structured,
        }
    }

    /// Returns the path that follows the base address.
    pub fn path_suffix(&self) -> (path: &'static str)
        ensures
            path@ == self.suffix(),
    {
        match self {
            Operation::StatusCheck => "",
            Operation::RunningModels => "/models/running",
            Operation::AvailableModels => "/api/tags",
        }
    }

    /// Returns the address to request.
    pub fn url(&self) -> (url: String)
        ensures
            url@ == self.address(),
    {
        ollama_url().concat(self.path_suffix())
    }

    /// Returns how a successful response is read.
    pub fn strategy(&self) -> (strategy: Strategy)
        ensures
            strategy == self.reads(),
    {
        match self {
            Operation::StatusCheck => Strategy::Text,
            Operation::RunningModels => Strategy::Text,
            Operation::AvailableModels => Strategy::Structured,
        }
    }
}

/// The status check asks for the base address itself.
pub proof fn lemma_status_check_asks_for_the_base()
    ensures
        Operation::StatusCheck.address() == base_url(),
{
    reveal_strlit("");
}

} // verus!
