use azrath::{ExecutorError, ReactorError};
use std::io;

#[test]
fn test_executor_error_conversion() {
    let io_err = io::Error::new(io::ErrorKind::Other, "test error");
    let exec_err = ExecutorError::Io(io_err);

    assert!(matches!(exec_err, ExecutorError::Io(_)));
    assert_eq!(exec_err.to_string(), "io error: test error");
}

#[test]
fn test_reactor_error_conversion() {
    let io_err = io::Error::new(io::ErrorKind::Other, "test error");
    let reactor_err = ReactorError::from(io_err);

    assert!(matches!(reactor_err, ReactorError::Io(_)));
}

#[test]
fn error_messages() {
    assert_eq!(ExecutorError::LockPoisoned.to_string(), "mutex lock poisoned");
    assert_eq!(
        ExecutorError::TaskExecution("boom".to_string()).to_string(),
        "task execution failed: boom"
    );
    let spawn = ExecutorError::ThreadSpawn(io::Error::new(io::ErrorKind::Other, "no threads"));
    assert_eq!(spawn.to_string(), "thread spawn failed: no threads");
    assert_eq!(ReactorError::LockPoisoned.to_string(), "mutex lock poisoned");
    let init = ReactorError::Init(io::Error::new(io::ErrorKind::Other, "x"));
    assert_eq!(init.to_string(), "reactor initialization failed: x");
    let reg = ReactorError::Registration(io::Error::new(io::ErrorKind::Other, "y"));
    assert_eq!(reg.to_string(), "registration failed: y");
    let poll = ReactorError::Polling(io::Error::new(io::ErrorKind::Other, "z"));
    assert_eq!(poll.to_string(), "polling failed: z");
    let exec_err = ExecutorError::from(io::Error::new(io::ErrorKind::Other, "w"));
    assert_eq!(exec_err.to_string(), "io error: w");
}
