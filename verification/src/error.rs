use vstd::prelude::*;
use vstd::string::*;

verus! {

/// The module an error comes from.
#[derive(Clone, Copy, Debug, PartialEq, Eq, Structural)]
pub enum ErrorKind {
    Config,
    Ipc,
    Planner,
    Executor,
    Perception,
    Action,
    System,
    Logging,
    Orchestrator,
}

/// The error shared by every module of the agent: one variant per module,
/// each carrying a human-readable message.
#[derive(Debug)]
pub enum LapisError {
    Config(String),
    Ipc(String),
    Planner(String),
    Executor(String),
    Perception(String),
    Action(String),
    System(String),
    Logging(String),
    Orchestrator(String),
}

/// Result type used across all modules.
pub type LapisResult<T> = Result<T, LapisError>;

/// An error as the specifications see it: its module and its message.
pub type ErrorView = (ErrorKind, Seq<char>);

impl View for LapisError {
    type V = ErrorView;

    open spec fn view(&self) -> ErrorView {
        match self {
            LapisError::Config(m) => (ErrorKind::Config, m@),
            LapisError::Ipc(m) => (ErrorKind::Ipc, m@),
            LapisError::Planner(m) => (ErrorKind::Planner, m@),
            LapisError::Executor(m) => (ErrorKind::Executor, m@),
            LapisError::Perception(m) => (ErrorKind::Perception, m@),
            LapisError::Action(m) => (ErrorKind::Action, m@),
            LapisError::System(m) => (ErrorKind::System, m@),
            LapisError::Logging(m) => (ErrorKind::Logging, m@),
            LapisError::Orchestrator(m) => (ErrorKind::Orchestrator, m@),
        }
    }
}

/// The tag that names the module of an error in its rendering.
pub open spec fn error_tag(k: ErrorKind) -> Seq<char> {
    match k {
        ErrorKind::Config => "config"@,
        ErrorKind::Ipc => "ipc"@,
        ErrorKind::Planner => "planner"@,
        ErrorKind::Executor => "executor"@,
        ErrorKind::Perception => "perception"@,
        ErrorKind::Action => "action"@,
        ErrorKind::System => "system"@,
        ErrorKind::Logging => "logging"@,
        ErrorKind::Orchestrator => "orchestrator"@,
    }
}

/// How an error reads to a user: `[tag] message`.
pub open spec fn error_text(e: ErrorView) -> Seq<char> {
    "["@ + error_tag(e.0) + "] "@ + e.1
}

impl LapisError {
    /// The user-facing rendering of the error, `[tag] message`.
    pub fn describe(&self) -> (s: String)
        ensures
            s@ == error_text(self@),
    {
        let (tag, msg) = match self {
            LapisError::Config(m) => ("config", m),
            LapisError::Ipc(m) => ("ipc", m),
            LapisError::Planner(m) => ("planner", m),
            LapisError::Executor(m) => ("executor", m),
            LapisError::Perception(m) => ("perception", m),
            LapisError::Action(m) => ("action", m),
            LapisError::System(m) => ("system", m),
            LapisError::Logging(m) => ("logging", m),
            LapisError::Orchestrator(m) => ("orchestrator", m),
        };
        let mut s = String::new();
        s.append("[");
        s.append(tag);
        s.append("] ");
        s.append(msg.as_str());
        s
    }
}

/// An error reads as its module's lower-case name in brackets, a space, and
/// its message.
pub proof fn lemma_error_tags(m: Seq<char>)
    ensures
        error_text((ErrorKind::Config, m)) == "["@ + "config"@ + "] "@ + m,
        error_text((ErrorKind::Ipc, m)) == "["@ + "ipc"@ + "] "@ + m,
        error_text((ErrorKind::Planner, m)) == "["@ + "planner"@ + "] "@ + m,
        error_text((ErrorKind::Executor, m)) == "["@ + "executor"@ + "] "@ + m,
        error_text((ErrorKind::Perception, m)) == "["@ + "perception"@ + "] "@ + m,
        error_text((ErrorKind::Action, m)) == "["@ + "action"@ + "] "@ + m,
        error_text((ErrorKind::System, m)) == "["@ + "system"@ + "] "@ + m,
        error_text((ErrorKind::Logging, m)) == "["@ + "logging"@ + "] "@ + m,
        error_text((ErrorKind::Orchestrator, m)) == "["@ + "orchestrator"@ + "] "@ + m,
{
}

} // verus!
