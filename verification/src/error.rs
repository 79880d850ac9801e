//! Error types of the executor and of the reactor.

use vstd::prelude::*;
use vstd::string::StringExecFns;

verus! {

#[verifier::external_type_specification]
#[verifier::external_body]
pub struct ExIoError(std::io::Error);

/// Errors that can occur while the worker pool runs tasks.
#[derive(Debug)]
pub enum ExecutorError {
    /// A mutex lock became poisoned by a panic in another thread.
    LockPoisoned,
    /// Spawning a new worker thread failed.
    ThreadSpawn(std::io::Error),
    /// A task failed, with a description.
    TaskExecution(String),
    /// A standard I/O error.
    Io(std::io::Error),
}

/// Errors that can occur in the reactor that drives socket readiness.
#[derive(Debug)]
pub enum ReactorError {
    /// The reactor could not be initialised.
    Init(std::io::Error),
    /// A socket could not be registered with the reactor.
    Registration(std::io::Error),
    /// Polling for events failed.
    Polling(std::io::Error),
    /// A mutex lock became poisoned by a panic in another thread.
    LockPoisoned,
    /// A standard I/O error.
    Io(std::io::Error),
}

/// The text that `Display` gives for an I/O error (`ToString::to_string` on
/// `std::io::Error`). Nothing is stated of the text: for an operating-system
/// error it comes from the platform's error table.
#[verifier::external_body]
fn io_error_text(err: &std::io::Error) -> String {
    err.to_string()
}

/// `prefix` followed by `text`.
fn prefixed(prefix: &str, text: &str) -> (s: String)
    ensures
        s@ == prefix@ + text@,
{
    String::from_str(prefix).concat(text)
}

/// `prefix` followed by the text of an I/O error.
fn prefixed_io(prefix: &str, err: &std::io::Error) -> (s: String)
    ensures
        exists|t: Seq<char>| s@ == prefix@ + t,
{
    let text = io_error_text(err);
    prefixed(prefix, text.as_str())
}

/// The message of an executor error: the prefix of its variant, followed by
/// its payload where it has one.
pub open spec fn executor_message_matches(e: ExecutorError, s: Seq<char>) -> bool {
    match e {
        ExecutorError::LockPoisoned => s == "mutex lock poisoned"@,
        ExecutorError::ThreadSpawn(_) => exists|t: Seq<char>| s == "thread spawn failed: "@ + t,
        ExecutorError::TaskExecution(m) => s == "task execution failed: "@ + m@,
        ExecutorError::Io(_) => exists|t: Seq<char>| s == "io error: "@ + t,
    }
}

/// The message of a reactor error: the prefix of its variant, followed by
/// the text of its I/O error where it has one.
pub open spec fn reactor_message_matches(e: ReactorError, s: Seq<char>) -> bool {
    match e {
        ReactorError::Init(_) => exists|t: Seq<char>| s == "reactor initialization failed: "@ + t,
        ReactorError::Registration(_) => exists|t: Seq<char>| s == "registration failed: "@ + t,
        ReactorError::Polling(_) => exists|t: Seq<char>| s == "polling failed: "@ + t,
        ReactorError::LockPoisoned => s == "mutex lock poisoned"@,
        ReactorError::Io(_) => exists|t: Seq<char>| s == "io error: "@ + t,
    }
}

impl ExecutorError {
    /// The human-readable message of the error.
    pub fn to_string(&self) -> (s: String)
        ensures
            executor_message_matches(*self, s@),
    {
        match self {
            ExecutorError::LockPoisoned => String::from_str("mutex lock poisoned"),
            ExecutorError::ThreadSpawn(e) => prefixed_io("thread spawn failed: ", e),
            ExecutorError::TaskExecution(m) => prefixed("task execution failed: ", m.as_str()),
            ExecutorError::Io(e) => prefixed_io("io error: ", e),
        }
    }
}

impl ReactorError {
    /// The human-readable message of the error.
    pub fn to_string(&self) -> (s: String)
        ensures
            reactor_message_matches(*self, s@),
    {
        match self {
            ReactorError::Init(e) => prefixed_io("reactor initialization failed: ", e),
            ReactorError::Registration(e) => prefixed_io("registration failed: ", e),
            ReactorError::Polling(e) => prefixed_io("polling failed: ", e),
            ReactorError::LockPoisoned => String::from_str("mutex lock poisoned"),
            ReactorError::Io(e) => prefixed_io("io error: ", e),
        }
    }
}

impl From<std::io::Error> for ExecutorError {
    fn from(err: std::io::Error) -> (r: Self) {
        ExecutorError::Io(err)
    }
}

impl vstd::std_specs::convert::FromSpecImpl<std::io::Error> for ExecutorError {
    open spec fn obeys_from_spec() -> bool {
        true
    }

    open spec fn from_spec(err: std::io::Error) -> Self {
        ExecutorError::Io(err)
    }
}

impl From<std::io::Error> for ReactorError {
    fn from(err: std::io::Error) -> (r: Self) {
        ReactorError::Io(err)
    }
}

impl vstd::std_specs::convert::FromSpecImpl<std::io::Error> for ReactorError {
    open spec fn obeys_from_spec() -> bool {
        true
    }

    open spec fn from_spec(err: std::io::Error) -> Self {
        ReactorError::Io(err)
    }
}

} // verus!
